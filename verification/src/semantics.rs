//! The type system's rules, as specification functions.
//!
//! `tc_expr` gives, for a module, a scope and an expression, exactly the
//! verdict the checker must reach and the scope it must leave behind.
//! Checking is fail-fast: every rule stops at the first error, and the scope
//! returned alongside an error is the scope at the moment checking stopped.
//! The executable checker is verified against these functions clause by
//! clause.

use vstd::prelude::*;

use crate::ast::{Expr, Field, Function, Literal, Module, Pattern, Struct};
use crate::model::{
    bool_type, float_type, int_type, literal_type, unit_type, view_type, SpecError, SpecResult,
    SpecType,
};

verus! {

/// The model of a scope: identifier contents mapped to types.
pub type SpecScope = Map<Seq<char>, SpecType>;

/// Forgets which type a successful check produced.
pub open spec fn discard(r: SpecResult) -> Result<(), SpecError> {
    match r {
        Ok(_) => Ok(()),
        Err(e) => Err(e),
    }
}

/// The first function of that name, scanning from position `i`.
pub open spec fn find_function(fs: Seq<Function>, name: Seq<char>, i: int) -> Option<Function>
    decreases fs.len() - i,
{
    if i < 0 || i >= fs.len() {
        None
    } else if fs[i].name@ == name {
        Some(fs[i])
    } else {
        find_function(fs, name, i + 1)
    }
}

/// The first struct of that name, scanning from position `i`.
pub open spec fn find_struct(ss: Seq<Struct>, name: Seq<char>, i: int) -> Option<Struct>
    decreases ss.len() - i,
{
    if i < 0 || i >= ss.len() {
        None
    } else if ss[i].name@ == name {
        Some(ss[i])
    } else {
        find_struct(ss, name, i + 1)
    }
}

/// The first field of that name, scanning from position `i`.
pub open spec fn find_field(fs: Seq<Field>, name: Seq<char>, i: int) -> Option<Field>
    decreases fs.len() - i,
{
    if i < 0 || i >= fs.len() {
        None
    } else if fs[i].name@ == name {
        Some(fs[i])
    } else {
        find_field(fs, name, i + 1)
    }
}

/// The declared types of a parameter or field list, in order.
pub open spec fn slot_types(fs: Seq<Field>) -> Seq<SpecType> {
    Seq::new(fs.len(), |i: int| view_type(fs[i].typ))
}

/// A function declaration seen as a callable value:
/// `(parameter types) -> return type`.
pub open spec fn function_sig(f: Function) -> SpecType {
    SpecType::Func(slot_types(f.arguments@), Box::new(view_type(f.return_type)))
}

/// A struct declaration seen as a callable constructor:
/// `(field types) -> Named(struct name)`.
pub open spec fn struct_sig(s: Struct) -> SpecType {
    SpecType::Func(slot_types(s.fields@), Box::new(SpecType::Named(s.name@)))
}

/// A module-level declaration's synthesized signature: functions are
/// searched before structs, each list in declaration order.
pub open spec fn find_decl_type(m: Module, name: Seq<char>) -> Option<SpecType> {
    match find_function(m.functions@, name, 0) {
        Some(f) => Some(function_sig(f)),
        None => match find_struct(m.structs@, name, 0) {
            Some(s) => Some(struct_sig(s)),
            None => None,
        },
    }
}

/// Identifier resolution: locals shadow module-level declarations; a name
/// found nowhere is an undefined variable.
pub open spec fn lookup(m: Module, sc: SpecScope, name: Seq<char>) -> SpecResult {
    if sc.contains_key(name) {
        Ok(sc[name])
    } else {
        match find_decl_type(m, name) {
            Some(t) => Ok(t),
            None => Err(SpecError::UndefinedVariable(name)),
        }
    }
}

/// Unification is a structural equality check, nothing more: the actual
/// type, or a mismatch naming expected and actual.
pub open spec fn unify(expected: SpecType, actual: SpecType) -> SpecResult {
    if actual == expected {
        Ok(actual)
    } else {
        Err(SpecError::TypeMismatch(expected, actual))
    }
}

/// The error reported for arithmetic whose operands are not numbers.
pub open spec fn numeric_operands_msg() -> Seq<char> {
    "expected numeric operands"@
}

/// The error reported for field access on a function type.
pub open spec fn function_field_msg() -> Seq<char> {
    "field access on a function type"@
}

/// The error reported for field access on a primitive type.
pub open spec fn primitive_field_msg() -> Seq<char> {
    "field access on a primitive type"@
}

/// A pattern against a scrutinee type: a constructor name is resolved like
/// any identifier, and its return type (or, for a non-function resolution,
/// the resolved type itself) must unify with the scrutinee type. Wildcards
/// always succeed and bind nothing.
pub open spec fn tc_pattern(m: Module, sc: SpecScope, p: Pattern, match_type: SpecType) -> Result<
    (),
    SpecError,
> {
    match p {
        Pattern::Constructor(name, _) => match lookup(m, sc, name@) {
            Ok(ctor) => match ctor {
                SpecType::Func(_, ret) => discard(unify(*ret, match_type)),
                t => discard(unify(t, match_type)),
            },
            Err(e) => Err(e),
        },
        Pattern::Wildcard => Ok(()),
    }
}

/// A syntactically valid tree: every `Match` has at least one alternative.
/// The parser never produces an empty match, and the checking rules index
/// the first alternative.
pub open spec fn wf_expr(e: Expr) -> bool
    decreases e,
{
    match e {
        Expr::Identifier(_) => true,
        Expr::Literal(_) => true,
        Expr::Call(f, args) => wf_expr(*f) && forall|i: int|
            0 <= i < args@.len() ==> wf_expr(#[trigger] args@[i]),
        Expr::IfElse(p, t, f) => wf_expr(*p) && wf_expr(*t) && wf_expr(*f),
        Expr::While(p, b) => wf_expr(*p) && wf_expr(*b),
        Expr::BinOp(l, _, r) => wf_expr(*l) && wf_expr(*r),
        Expr::Block(es) => forall|i: int| 0 <= i < es@.len() ==> wf_expr(#[trigger] es@[i]),
        Expr::Match(s, alts) => wf_expr(*s) && alts@.len() > 0 && forall|i: int|
            0 <= i < alts@.len() ==> wf_expr(#[trigger] alts@[i].expression),
        Expr::Let(_, v) => wf_expr(*v),
        Expr::Assign(t, v) => wf_expr(*t) && wf_expr(*v),
        Expr::FieldAccess(b, _) => wf_expr(*b),
    }
}

/// Every function body of the module is a syntactically valid tree.
pub open spec fn wf_module(m: Module) -> bool {
    forall|i: int| 0 <= i < m.functions@.len() ==> wf_expr(#[trigger] m.functions@[i].expression)
}

/// The verdict on one expression, and the scope it leaves behind.
///
/// The rules, one per expression kind, bottom-up:
/// - identifiers resolve through the scope, then the module;
/// - a literal has its kind's fixed primitive type;
/// - a call requires a function-typed callee, the declared argument count,
///   and argument-by-argument unification, left to right;
/// - `if`/`else` checks the predicate but deliberately lets a non-boolean
///   predicate pass, then requires the two arm types to unify; reporting an
///   arm mismatch is preferred over a non-boolean predicate;
/// - `while` requires a boolean predicate, checks and then discards the body
///   type, and has type unit;
/// - a binary operation first requires both operand types to unify; for
///   `+ - *` an operand must be numeric and the other is then unified
///   against int, for `< > <= >=` the result is boolean, and any other
///   operator token is reported as an undefined variable;
/// - a block has its last expression's type (unit when empty), and on
///   success every name `Let`-bound directly inside it is unbound again;
/// - a match checks each alternative's pattern against the scrutinee type
///   and unifies every later alternative against a baseline that is
///   re-inferred from the first alternative's expression each time;
/// - `let` binds the name to the value's type and has type unit;
/// - an assignment checks its value, then its target, and unifies the
///   target's type against the value's;
/// - field access requires a declared struct type and a declared field, and
///   has the field's declared type.
pub open spec fn tc_expr(m: Module, sc: SpecScope, e: Expr) -> (SpecResult, SpecScope)
    decreases e, 0int,
{
    match e {
        Expr::Identifier(id) => (lookup(m, sc, id.name@), sc),
        Expr::Literal(l) => (Ok(literal_type(l)), sc),
        Expr::Call(f, args) => {
            let (fr, sc1) = tc_expr(m, sc, *f);
            match fr {
                Ok(ft) => match ft {
                    SpecType::Func(ps, ret) => if ps.len() != args@.len() {
                        (Err(SpecError::WrongNumberOfArguments(ps.len(), args@.len() as nat)), sc1)
                    } else {
                        let (ar, sc2) = tc_args(m, sc1, ps, args@, 0);
                        match ar {
                            Ok(_) => (Ok(*ret), sc2),
                            Err(e2) => (Err(e2), sc2),
                        }
                    },
                    t => (Err(SpecError::NotAFunction(t)), sc1),
                },
                Err(e1) => (Err(e1), sc1),
            }
        },
        Expr::IfElse(pred, on_true, on_false) => {
            let (pr, sc1) = tc_expr(m, sc, *pred);
            match pr {
                Ok(_) => {
                    let (tr, sc2) = tc_expr(m, sc1, *on_true);
                    match tr {
                        Ok(tt) => {
                            let (fr, sc3) = tc_expr(m, sc2, *on_false);
                            match fr {
                                Ok(ft) => (unify(tt, ft), sc3),
                                Err(e2) => (Err(e2), sc3),
                            }
                        },
                        Err(e2) => (Err(e2), sc2),
                    }
                },
                Err(e1) => (Err(e1), sc1),
            }
        },
        Expr::While(pred, body) => {
            let (pr, sc1) = tc_expr(m, sc, *pred);
            match pr {
                Ok(pt) => match unify(bool_type(), pt) {
                    Ok(_) => {
                        let (br, sc2) = tc_expr(m, sc1, *body);
                        match br {
                            Ok(_) => (Ok(unit_type()), sc2),
                            Err(e2) => (Err(e2), sc2),
                        }
                    },
                    Err(e1) => (Err(e1), sc1),
                },
                Err(e1) => (Err(e1), sc1),
            }
        },
        Expr::BinOp(lhs, op, rhs) => {
            let (lr, sc1) = tc_expr(m, sc, *lhs);
            match lr {
                Ok(lt) => {
                    let (rr, sc2) = tc_expr(m, sc1, *rhs);
                    match rr {
                        Ok(rt) => match unify(lt, rt) {
                            Ok(_) => (binop_type(op@, lt, rt), sc2),
                            Err(e2) => (Err(e2), sc2),
                        },
                        Err(e2) => (Err(e2), sc2),
                    }
                },
                Err(e1) => (Err(e1), sc1),
            }
        },
        Expr::Block(es) => {
            let (r, sc1) = tc_block(m, sc, es@, 0, unit_type());
            match r {
                Ok(t) => (Ok(t), remove_block_lets(sc1, es@, 0)),
                Err(e1) => (Err(e1), sc1),
            }
        },
        Expr::Match(scrutinee, alts) => {
            let (sr, sc1) = tc_expr(m, sc, *scrutinee);
            match sr {
                Ok(st) => if alts@.len() == 0 {
                    (Ok(unit_type()), sc1)  // unreachable on well-formed trees
                } else {
                    match tc_pattern(m, sc1, alts@[0].pattern, st) {
                        Ok(_) => {
                            let (ar, sc2) = tc_expr(m, sc1, alts@[0].expression);
                            match ar {
                                Ok(t1) => tc_alts(m, sc2, alts@, st, t1, 1),
                                Err(e2) => (Err(e2), sc2),
                            }
                        },
                        Err(e2) => (Err(e2), sc1),
                    }
                },
                Err(e1) => (Err(e1), sc1),
            }
        },
        Expr::Let(name, value) => {
            let (vr, sc1) = tc_expr(m, sc, *value);
            match vr {
                Ok(t) => (Ok(unit_type()), sc1.insert(name@, t)),
                Err(e1) => (Err(e1), sc1),
            }
        },
        Expr::Assign(target, value) => {
            let (rr, sc1) = tc_expr(m, sc, *value);
            match rr {
                Ok(rt) => {
                    let (lr, sc2) = tc_expr(m, sc1, *target);
                    match lr {
                        Ok(lt) => (unify(lt, rt), sc2),
                        Err(e2) => (Err(e2), sc2),
                    }
                },
                Err(e1) => (Err(e1), sc1),
            }
        },
        Expr::FieldAccess(base, field) => {
            let (br, sc1) = tc_expr(m, sc, *base);
            match br {
                Ok(bt) => (field_access_type(m, bt, field.name@), sc1),
                Err(e1) => (Err(e1), sc1),
            }
        },
    }
}

/// The verdict on a recognized binary operator once both operand types have
/// unified. Arithmetic demands a numeric operand and unifies the other
/// against int; comparisons are boolean whatever the operands; anything else
/// is an unrecognized token.
pub open spec fn binop_type(op: Seq<char>, lt: SpecType, rt: SpecType) -> SpecResult {
    if op == "+"@ || op == "-"@ || op == "*"@ {
        if lt == int_type() || lt == float_type() {
            match unify(int_type(), rt) {
                Ok(_) => Ok(lt),
                Err(e) => Err(e),
            }
        } else if rt == int_type() || rt == float_type() {
            match unify(int_type(), lt) {
                Ok(_) => Ok(lt),
                Err(e) => Err(e),
            }
        } else {
            Err(SpecError::TypeError(numeric_operands_msg()))
        }
    } else if op == "<"@ || op == ">"@ || op == "<="@ || op == ">="@ {
        Ok(bool_type())
    } else {
        Err(SpecError::UndefinedVariable(op))
    }
}

/// The verdict on a field access once the base expression's type is known:
/// only a declared struct's declared field has a type.
pub open spec fn field_access_type(m: Module, base: SpecType, field: Seq<char>) -> SpecResult {
    match base {
        SpecType::Named(sn) => match find_struct(m.structs@, sn, 0) {
            Some(s) => match find_field(s.fields@, field, 0) {
                Some(f) => Ok(view_type(f.typ)),
                None => Err(SpecError::UndefinedField(sn, field)),
            },
            None => Err(SpecError::UndefinedStruct(sn)),
        },
        SpecType::Func(_, _) => Err(SpecError::TypeError(function_field_msg())),
        SpecType::Prim(_) => Err(SpecError::TypeError(primitive_field_msg())),
    }
}

/// Call arguments from position `i` on: each argument's inferred type is
/// unified against the corresponding parameter type, left to right.
pub open spec fn tc_args(
    m: Module,
    sc: SpecScope,
    params: Seq<SpecType>,
    args: Seq<Expr>,
    i: int,
) -> (Result<(), SpecError>, SpecScope)
    decreases args, args.len() - i,
{
    if i < 0 || i >= args.len() {
        (Ok(()), sc)
    } else {
        let (ar, sc1) = tc_expr(m, sc, args[i]);
        match ar {
            Ok(at) => match unify(params[i], at) {
                Ok(_) => tc_args(m, sc1, params, args, i + 1),
                Err(e) => (Err(e), sc1),
            },
            Err(e) => (Err(e), sc1),
        }
    }
}

/// A block's elements from position `i` on; `t` is the type inferred so far,
/// so the block's own type is the last element's (or unit for an empty
/// block).
pub open spec fn tc_block(
    m: Module,
    sc: SpecScope,
    es: Seq<Expr>,
    i: int,
    t: SpecType,
) -> (SpecResult, SpecScope)
    decreases es, es.len() - i,
{
    if i < 0 || i >= es.len() {
        (Ok(t), sc)
    } else {
        let (r, sc1) = tc_expr(m, sc, es[i]);
        match r {
            Ok(t1) => tc_block(m, sc1, es, i + 1, t1),
            Err(e) => (Err(e), sc1),
        }
    }
}

/// Unbinds, from position `i` on, every name `Let`-bound directly inside a
/// block's element list.
pub open spec fn remove_block_lets(sc: SpecScope, es: Seq<Expr>, i: int) -> SpecScope
    decreases es.len() - i,
{
    if i < 0 || i >= es.len() {
        sc
    } else {
        let sc1 = match es[i] {
            Expr::Let(name, _) => sc.remove(name@),
            _ => sc,
        };
        remove_block_lets(sc1, es, i + 1)
    }
}

/// Match alternatives from position `i` on: each pattern is checked against
/// the scrutinee type `st`, and the baseline type is re-inferred from the
/// first alternative's expression and unified per alternative; `t1` is that
/// baseline. A successful match has the baseline type.
pub open spec fn tc_alts(
    m: Module,
    sc: SpecScope,
    alts: Seq<crate::ast::Alternative>,
    st: SpecType,
    t1: SpecType,
    i: int,
) -> (SpecResult, SpecScope)
    decreases alts, alts.len() - i,
{
    if i < 0 || i >= alts.len() {
        (Ok(t1), sc)
    } else {
        match tc_pattern(m, sc, alts[i].pattern, st) {
            Ok(_) => {
                let (ar, sc1) = tc_expr(m, sc, alts[0].expression);
                match ar {
                    Ok(at) => match unify(t1, at) {
                        Ok(_) => tc_alts(m, sc1, alts, st, t1, i + 1),
                        Err(e) => (Err(e), sc1),
                    },
                    Err(e) => (Err(e), sc1),
                }
            },
            Err(e) => (Err(e), sc),
        }
    }
}

/// The scope a function body is checked in: each parameter bound to its
/// declared type, in order, a later duplicate shadowing an earlier one.
pub open spec fn params_scope(args: Seq<Field>) -> SpecScope
    decreases args,
{
    if args.len() == 0 {
        Map::empty()
    } else {
        params_scope(args.drop_last()).insert(args.last().name@, view_type(args.last().typ))
    }
}

/// The verdict on one function: its body, checked in a fresh scope holding
/// only the parameters, must have the declared return type.
pub open spec fn tc_function(m: Module, f: Function) -> Result<(), SpecError> {
    let (r, _) = tc_expr(m, params_scope(f.arguments@), f.expression);
    match r {
        Ok(t) => discard(unify(view_type(f.return_type), t)),
        Err(e) => Err(e),
    }
}

/// The functions of `fs` from position `i` on, each checked independently,
/// stopping at the first error.
pub open spec fn tc_functions(m: Module, fs: Seq<Function>, i: int) -> Result<(), SpecError>
    decreases fs.len() - i,
{
    if i < 0 || i >= fs.len() {
        Ok(())
    } else {
        match tc_function(m, fs[i]) {
            Ok(_) => tc_functions(m, fs, i + 1),
            Err(e) => Err(e),
        }
    }
}

/// The verdict on a whole module: the functions of `target`, in declaration
/// order, each resolved against `m`.
pub open spec fn tc_module(m: Module, target: Module) -> Result<(), SpecError> {
    tc_functions(m, target.functions@, 0)
}

/// The scope a module pass leaves behind, starting from `sc` at position
/// `i`: each function is checked in a freshly rebuilt scope, so what
/// remains is scratch state from the last function looked at — it carries
/// no meaning beyond the pass.
pub open spec fn tc_functions_scope(m: Module, fs: Seq<Function>, i: int, sc: SpecScope) -> SpecScope
    decreases fs.len() - i,
{
    if i < 0 || i >= fs.len() {
        sc
    } else {
        let sci = tc_expr(m, params_scope(fs[i].arguments@), fs[i].expression).1;
        match tc_function(m, fs[i]) {
            Ok(_) => tc_functions_scope(m, fs, i + 1, sci),
            Err(_) => sci,
        }
    }
}

} // verus!
