//! The general guarantees of the checking rules, proved once and for all.
//!
//! Each law is stated over [`crate::semantics`], the same functions the
//! executable checker's contracts are stated over, so each holds of the
//! checker's observable behaviour on every input it admits.

use vstd::prelude::*;

use crate::ast::{Expr, Function, Ident, Literal, Module, TypedIdent};
use crate::model::{
    bool_type, float_type, int_type, literal_type, string_type, unit_type, view_type, SpecError,
    SpecType,
};
use crate::semantics::{
    find_function, find_struct, function_field_msg, lookup, params_scope, primitive_field_msg,
    remove_block_lets, slot_types, tc_expr, tc_function, SpecScope,
};

verus! {

/// Soundness of literals: a literal expression always checks, its inferred
/// type is the fixed primitive of its kind — integer to int, float to float,
/// string to string, boolean to bool — independent of the literal's value,
/// and the scope is left untouched.
pub proof fn lemma_literal_soundness(m: Module, sc: SpecScope, l: Literal)
    ensures
        tc_expr(m, sc, Expr::Literal(l)).0 == Ok::<SpecType, SpecError>(literal_type(l)),
        tc_expr(m, sc, Expr::Literal(l)).1 == sc,
        literal_type(l) == match l {
            Literal::Int(_) => int_type(),
            Literal::Float => float_type(),
            Literal::Str(_) => string_type(),
            Literal::Bool(_) => bool_type(),
        },
{
}

/// Call arity: whenever the callee of a call checks to a function type whose
/// parameter count differs from the argument count, the call fails with
/// `WrongNumberOfArguments(expected, actual)`, before any argument is
/// looked at.
pub proof fn lemma_call_arity(
    m: Module,
    sc: SpecScope,
    callee: Expr,
    args: Vec<Expr>,
    params: Seq<SpecType>,
    ret: Box<SpecType>,
)
    requires
        tc_expr(m, sc, callee).0 == Ok::<SpecType, SpecError>(SpecType::Func(params, ret)),
        params.len() != args@.len(),
    ensures
        tc_expr(m, sc, Expr::Call(Box::new(callee), args)).0 == Err::<SpecType, SpecError>(
            SpecError::WrongNumberOfArguments(params.len(), args@.len() as nat),
        ),
{
}

/// Return-type enforcement: a function whose body checks to a type other
/// than the declared return type fails with `TypeMismatch(declared,
/// inferred)`, however well-typed the body is internally.
pub proof fn lemma_return_type_enforced(m: Module, f: Function, t: SpecType)
    requires
        tc_expr(m, params_scope(f.arguments@), f.expression).0 == Ok::<SpecType, SpecError>(t),
        t != view_type(f.return_type),
    ensures
        tc_function(m, f) == Err::<(), SpecError>(
            SpecError::TypeMismatch(view_type(f.return_type), t),
        ),
{
}

/// Unbinding names only ever shrinks the scope: a name absent before block
/// exit stays absent.
proof fn lemma_remove_block_lets_monotone(sc: SpecScope, es: Seq<Expr>, j: int, name: Seq<char>)
    requires
        !sc.contains_key(name),
    ensures
        !remove_block_lets(sc, es, j).contains_key(name),
    decreases es.len() - j,
{
    if 0 <= j < es.len() {
        match es[j] {
            Expr::Let(n, _) => lemma_remove_block_lets_monotone(sc.remove(n@), es, j + 1, name),
            _ => lemma_remove_block_lets_monotone(sc, es, j + 1, name),
        }
    }
}

/// From any position at or before a top-level `Let`, block exit unbinds that
/// `Let`'s name.
proof fn lemma_remove_block_lets_hits(sc: SpecScope, es: Seq<Expr>, j: int, i: int)
    requires
        0 <= j <= i < es.len(),
        es[i] is Let,
    ensures
        !remove_block_lets(sc, es, j).contains_key(es[i]->Let_0@),
    decreases i - j,
{
    let name = es[i]->Let_0@;
    if j == i {
        match es[i] {
            Expr::Let(n, _) => lemma_remove_block_lets_monotone(sc.remove(n@), es, j + 1, name),
            _ => (),
        }
    } else {
        match es[j] {
            Expr::Let(n, _) => lemma_remove_block_lets_hits(sc.remove(n@), es, j + 1, i),
            _ => lemma_remove_block_lets_hits(sc, es, j + 1, i),
        }
    }
}

/// Scope restoration, first half: once a block has been checked
/// successfully, a name `Let`-bound directly inside it is no longer
/// resolvable from the scope the block leaves behind.
pub proof fn lemma_block_scope_restoration(
    m: Module,
    sc: SpecScope,
    es: Vec<Expr>,
    i: int,
    t: SpecType,
)
    requires
        tc_expr(m, sc, Expr::Block(es)).0 == Ok::<SpecType, SpecError>(t),
        0 <= i < es@.len(),
        es@[i] is Let,
    ensures
        !tc_expr(m, sc, Expr::Block(es)).1.contains_key(es@[i]->Let_0@),
{
    let (r, sc1) = crate::semantics::tc_block(m, sc, es@, 0, unit_type());
    lemma_remove_block_lets_hits(sc1, es@, 0, i);
}

/// Scope restoration, second half: between its binding point and the end of
/// its own block, a `Let`-bound name is resolvable. Checking the `Let`
/// succeeds with type unit and leaves the name bound to the bound value's
/// type, so resolution finds it.
pub proof fn lemma_let_binds(m: Module, sc: SpecScope, name: Ident, value: Box<Expr>, t: SpecType)
    requires
        tc_expr(m, sc, *value).0 == Ok::<SpecType, SpecError>(t),
    ensures
        tc_expr(m, sc, Expr::Let(name, value)).0 == Ok::<SpecType, SpecError>(unit_type()),
        tc_expr(m, sc, Expr::Let(name, value)).1.contains_key(name@),
        tc_expr(m, sc, Expr::Let(name, value)).1[name@] == t,
        lookup(m, tc_expr(m, sc, Expr::Let(name, value)).1, name@) == Ok::<SpecType, SpecError>(t),
{
}

/// Struct-as-function: a declared struct whose name no local and no function
/// declaration shadows resolves to a callable constructor signature,
/// `(field types) -> Named(struct name)`.
pub proof fn lemma_struct_callable(m: Module, sc: SpecScope, i: int)
    requires
        0 <= i < m.structs@.len(),
        !sc.contains_key(m.structs@[i].name@),
        find_function(m.functions@, m.structs@[i].name@, 0) is None,
        find_struct(m.structs@, m.structs@[i].name@, 0) == Some(m.structs@[i]),
    ensures
        lookup(m, sc, m.structs@[i].name@) == Ok::<SpecType, SpecError>(
            SpecType::Func(
                slot_types(m.structs@[i].fields@),
                Box::new(SpecType::Named(m.structs@[i].name@)),
            ),
        ),
{
}

/// Field access rejection: field access on a value of function type or
/// primitive type always fails, whatever the field name; only declared
/// struct types ever carry fields.
pub proof fn lemma_field_access_rejected(
    m: Module,
    sc: SpecScope,
    base: Box<Expr>,
    fid: TypedIdent,
    t: SpecType,
)
    requires
        tc_expr(m, sc, *base).0 == Ok::<SpecType, SpecError>(t),
        t is Func || t is Prim,
    ensures
        tc_expr(m, sc, Expr::FieldAccess(base, fid)).0 is Err,
        t is Func ==> tc_expr(m, sc, Expr::FieldAccess(base, fid)).0 == Err::<SpecType, SpecError>(
            SpecError::TypeError(function_field_msg()),
        ),
        t is Prim ==> tc_expr(m, sc, Expr::FieldAccess(base, fid)).0 == Err::<SpecType, SpecError>(
            SpecError::TypeError(primitive_field_msg()),
        ),
{
}

} // verus!
