//! Checking whole modules and single expressions against concrete programs.

use typecheck::ast::{
    Alternative, Expr, Field, Function, Literal, Module, Pattern, PrimitiveType, Struct, Type,
    TypeError, TypedIdent,
};
use typecheck::checker::Typecheck;

fn int_t() -> Type {
    Type::Primitive(PrimitiveType::Int)
}

fn float_t() -> Type {
    Type::Primitive(PrimitiveType::Float)
}

fn string_t() -> Type {
    Type::Primitive(PrimitiveType::Str)
}

fn bool_t() -> Type {
    Type::Primitive(PrimitiveType::Bool)
}

fn unit_t() -> Type {
    Type::Primitive(PrimitiveType::Unit)
}

fn id(name: &str) -> Expr {
    Expr::Identifier(TypedIdent { name: name.to_string(), typ: None })
}

fn lit_int(v: i64) -> Expr {
    Expr::Literal(Literal::Int(v))
}

fn lit_str(v: &str) -> Expr {
    Expr::Literal(Literal::Str(v.to_string()))
}

fn lit_bool(v: bool) -> Expr {
    Expr::Literal(Literal::Bool(v))
}

fn binop(lhs: Expr, op: &str, rhs: Expr) -> Expr {
    Expr::BinOp(Box::new(lhs), op.to_string(), Box::new(rhs))
}

fn call(f: Expr, args: Vec<Expr>) -> Expr {
    Expr::Call(Box::new(f), args)
}

fn let_(name: &str, value: Expr) -> Expr {
    Expr::Let(name.to_string(), Box::new(value))
}

fn field(name: &str, typ: Type) -> Field {
    Field { name: name.to_string(), typ }
}

fn access(base: Expr, field: &str) -> Expr {
    Expr::FieldAccess(Box::new(base), TypedIdent { name: field.to_string(), typ: None })
}

fn func(name: &str, arguments: Vec<Field>, return_type: Type, body: Expr) -> Function {
    Function { name: name.to_string(), arguments, return_type, expression: body }
}

fn module(functions: Vec<Function>, structs: Vec<Struct>) -> Module {
    Module { functions, structs }
}

fn pair_struct() -> Struct {
    Struct {
        name: "Pair".to_string(),
        fields: vec![field("a", int_t()), field("b", string_t())],
    }
}

/// `fn main() { let x = 2; while x < 10 { x } }` checks: the predicate is
/// boolean, the loop's type is unit and matches the declared return type.
#[test]
fn while_() {
    let body = Expr::Block(vec![
        let_("x", lit_int(2)),
        Expr::While(
            Box::new(binop(id("x"), "<", lit_int(10))),
            Box::new(Expr::Block(vec![id("x")])),
        ),
    ]);
    let m = module(vec![func("main", vec![], unit_t(), body)], vec![]);
    let mut tc = Typecheck::new(&m);
    tc.typecheck_module(&m).unwrap_or_else(|err| panic!("{:?}", err))
}

#[test]
fn empty_module_checks() {
    let m = module(vec![], vec![]);
    let mut tc = Typecheck::new(&m);
    assert_eq!(tc.typecheck_module(&m), Ok(()));
}

#[test]
fn literal_types_are_fixed() {
    let m = module(vec![], vec![]);
    let mut tc = Typecheck::new(&m);
    assert_eq!(tc.typecheck(&lit_int(7)), Ok(int_t()));
    assert_eq!(tc.typecheck(&lit_int(-3)), Ok(int_t()));
    assert_eq!(tc.typecheck(&Expr::Literal(Literal::Float)), Ok(float_t()));
    assert_eq!(tc.typecheck(&lit_str("")), Ok(string_t()));
    assert_eq!(tc.typecheck(&lit_str("abc")), Ok(string_t()));
    assert_eq!(tc.typecheck(&lit_bool(true)), Ok(bool_t()));
    assert_eq!(tc.typecheck(&lit_bool(false)), Ok(bool_t()));
}

#[test]
fn undefined_variable() {
    let m = module(vec![], vec![]);
    let mut tc = Typecheck::new(&m);
    assert_eq!(
        tc.typecheck(&id("nope")),
        Err(TypeError::UndefinedVariable("nope".to_string()))
    );
}

#[test]
fn call_wrong_argument_count() {
    let m = module(
        vec![func("f", vec![field("a", int_t()), field("b", int_t())], int_t(), lit_int(0))],
        vec![],
    );
    let mut tc = Typecheck::new(&m);
    assert_eq!(
        tc.typecheck(&call(id("f"), vec![lit_int(1)])),
        Err(TypeError::WrongNumberOfArguments(2, 1))
    );
    assert_eq!(
        tc.typecheck(&call(id("f"), vec![lit_int(1), lit_int(2), lit_int(3)])),
        Err(TypeError::WrongNumberOfArguments(2, 3))
    );
}

/// `f(1, "a")` with `f: (int, int) -> int` fails on the second argument.
#[test]
fn call_argument_type_mismatch() {
    let m = module(
        vec![func("f", vec![field("a", int_t()), field("b", int_t())], int_t(), lit_int(0))],
        vec![],
    );
    let mut tc = Typecheck::new(&m);
    assert_eq!(
        tc.typecheck(&call(id("f"), vec![lit_int(1), lit_str("a")])),
        Err(TypeError::TypeMismatch(int_t(), string_t()))
    );
    assert_eq!(
        tc.typecheck(&call(id("f"), vec![lit_int(1), lit_int(2)])),
        Ok(int_t())
    );
}

#[test]
fn call_of_non_function() {
    let m = module(vec![], vec![]);
    let mut tc = Typecheck::new(&m);
    assert_eq!(
        tc.typecheck(&call(lit_int(1), vec![])),
        Err(TypeError::NotAFunction(int_t()))
    );
}

/// A declared return type is enforced against the body's inferred type.
#[test]
fn return_type_enforced() {
    let m = module(vec![func("f", vec![], int_t(), lit_str("a"))], vec![]);
    let mut tc = Typecheck::new(&m);
    assert_eq!(
        tc.typecheck_module(&m),
        Err(TypeError::TypeMismatch(int_t(), string_t()))
    );
}

#[test]
fn parameters_are_bound() {
    let body = binop(id("a"), "+", id("b"));
    let m = module(
        vec![func("add", vec![field("a", int_t()), field("b", int_t())], int_t(), body)],
        vec![],
    );
    let mut tc = Typecheck::new(&m);
    assert_eq!(tc.typecheck_module(&m), Ok(()));
}

/// Locals of one function are invisible to the next: the scope is cleared
/// between functions.
#[test]
fn functions_are_checked_in_isolation() {
    let first = func("first", vec![], unit_t(), let_("x", lit_int(1)));
    let second = func("second", vec![], int_t(), id("x"));
    let m = module(vec![first, second], vec![]);
    let mut tc = Typecheck::new(&m);
    assert_eq!(
        tc.typecheck_module(&m),
        Err(TypeError::UndefinedVariable("x".to_string()))
    );
}

/// A `Let`-bound name is resolvable up to the end of its own block and gone
/// once the enclosing expression has completed.
#[test]
fn let_scope_is_restored_after_block() {
    let m = module(vec![], vec![]);
    let mut tc = Typecheck::new(&m);
    let usable_inside = Expr::Block(vec![let_("x", lit_int(2)), id("x")]);
    assert_eq!(tc.typecheck(&usable_inside), Ok(int_t()));
    let gone_outside = Expr::Block(vec![
        Expr::Block(vec![let_("x", lit_int(2)), id("x")]),
        id("x"),
    ]);
    assert_eq!(
        tc.typecheck(&gone_outside),
        Err(TypeError::UndefinedVariable("x".to_string()))
    );
}

#[test]
fn empty_block_is_unit() {
    let m = module(vec![], vec![]);
    let mut tc = Typecheck::new(&m);
    assert_eq!(tc.typecheck(&Expr::Block(vec![])), Ok(unit_t()));
}

/// A struct with fields `[(a, int), (b, string)]` is callable as a
/// two-argument constructor returning `Named("Pair")`; a mismatched argument
/// fails with `TypeMismatch`.
#[test]
fn struct_is_callable_as_function() {
    let m = module(vec![], vec![pair_struct()]);
    let mut tc = Typecheck::new(&m);
    assert_eq!(
        tc.typecheck(&call(id("Pair"), vec![lit_int(1), lit_str("s")])),
        Ok(Type::Named("Pair".to_string()))
    );
    assert_eq!(
        tc.typecheck(&call(id("Pair"), vec![lit_int(1), lit_int(2)])),
        Err(TypeError::TypeMismatch(string_t(), int_t()))
    );
    assert_eq!(
        tc.typecheck(&call(id("Pair"), vec![lit_int(1)])),
        Err(TypeError::WrongNumberOfArguments(2, 1))
    );
}

#[test]
fn field_access_on_declared_struct() {
    let m = module(vec![], vec![pair_struct()]);
    let mut tc = Typecheck::new(&m);
    let pair = call(id("Pair"), vec![lit_int(1), lit_str("s")]);
    assert_eq!(tc.typecheck(&access(pair, "b")), Ok(string_t()));
    let pair = call(id("Pair"), vec![lit_int(1), lit_str("s")]);
    assert_eq!(
        tc.typecheck(&access(pair, "c")),
        Err(TypeError::UndefinedField("Pair".to_string(), "c".to_string()))
    );
}

#[test]
fn field_access_on_undeclared_struct() {
    let m = module(
        vec![func("g", vec![], Type::Named("Ghostly".to_string()), lit_int(0))],
        vec![],
    );
    let mut tc = Typecheck::new(&m);
    assert_eq!(
        tc.typecheck(&access(call(id("g"), vec![]), "x")),
        Err(TypeError::UndefinedStruct("Ghostly".to_string()))
    );
}

/// Field access on function- or primitive-typed values never succeeds,
/// whatever the field name.
#[test]
fn field_access_rejected_on_non_structs() {
    let m = module(vec![func("f", vec![], int_t(), lit_int(0))], vec![]);
    let mut tc = Typecheck::new(&m);
    assert_eq!(
        tc.typecheck(&access(lit_int(1), "x")),
        Err(TypeError::TypeError("field access on a primitive type".to_string()))
    );
    assert_eq!(
        tc.typecheck(&access(id("f"), "x")),
        Err(TypeError::TypeError("field access on a function type".to_string()))
    );
}

/// Arithmetic on operands that agree on a non-numeric type fails with the
/// generic numeric-operand error.
#[test]
fn binop_requires_numeric_operands() {
    let m = module(vec![], vec![]);
    let mut tc = Typecheck::new(&m);
    assert_eq!(
        tc.typecheck(&binop(lit_bool(true), "+", lit_bool(false))),
        Err(TypeError::TypeError("expected numeric operands".to_string()))
    );
    assert_eq!(tc.typecheck(&binop(lit_int(1), "+", lit_int(2))), Ok(int_t()));
    assert_eq!(tc.typecheck(&binop(lit_int(3), "*", lit_int(4))), Ok(int_t()));
}

/// `1 + "a"`: the operand types are unified before the numeric rule, so the
/// mismatch itself is reported.
#[test]
fn binop_operands_must_agree() {
    let m = module(vec![], vec![]);
    let mut tc = Typecheck::new(&m);
    assert_eq!(
        tc.typecheck(&binop(lit_int(1), "+", lit_str("a"))),
        Err(TypeError::TypeMismatch(int_t(), string_t()))
    );
}

#[test]
fn comparison_is_boolean() {
    let m = module(vec![], vec![]);
    let mut tc = Typecheck::new(&m);
    assert_eq!(tc.typecheck(&binop(lit_int(1), "<", lit_int(2))), Ok(bool_t()));
    assert_eq!(tc.typecheck(&binop(lit_str("a"), ">=", lit_str("b"))), Ok(bool_t()));
}

#[test]
fn unknown_operator_is_rejected() {
    let m = module(vec![], vec![]);
    let mut tc = Typecheck::new(&m);
    assert_eq!(
        tc.typecheck(&binop(lit_int(1), "%", lit_int(2))),
        Err(TypeError::UndefinedVariable("%".to_string()))
    );
}

#[test]
fn if_else_arms_must_agree() {
    let m = module(vec![], vec![]);
    let mut tc = Typecheck::new(&m);
    let ok = Expr::IfElse(
        Box::new(lit_bool(true)),
        Box::new(lit_int(1)),
        Box::new(lit_int(2)),
    );
    assert_eq!(tc.typecheck(&ok), Ok(int_t()));
    let bad = Expr::IfElse(
        Box::new(lit_bool(true)),
        Box::new(lit_int(1)),
        Box::new(lit_str("a")),
    );
    assert_eq!(tc.typecheck(&bad), Err(TypeError::TypeMismatch(int_t(), string_t())));
}

/// A non-boolean `if` predicate is deliberately tolerated: arm agreement is
/// what is enforced.
#[test]
fn if_else_predicate_mismatch_is_deferred() {
    let m = module(vec![], vec![]);
    let mut tc = Typecheck::new(&m);
    let e = Expr::IfElse(Box::new(lit_int(1)), Box::new(lit_int(2)), Box::new(lit_int(3)));
    assert_eq!(tc.typecheck(&e), Ok(int_t()));
}

/// A non-boolean `while` predicate is fatal.
#[test]
fn while_predicate_must_be_boolean() {
    let m = module(vec![], vec![]);
    let mut tc = Typecheck::new(&m);
    let e = Expr::While(Box::new(lit_int(1)), Box::new(Expr::Block(vec![])));
    assert_eq!(tc.typecheck(&e), Err(TypeError::TypeMismatch(bool_t(), int_t())));
}

#[test]
fn assignment_unifies_target_and_value() {
    let m = module(vec![], vec![]);
    let mut tc = Typecheck::new(&m);
    let ok = Expr::Block(vec![
        let_("x", lit_int(1)),
        Expr::Assign(Box::new(id("x")), Box::new(lit_int(2))),
    ]);
    assert_eq!(tc.typecheck(&ok), Ok(int_t()));
    let bad = Expr::Block(vec![
        let_("x", lit_int(1)),
        Expr::Assign(Box::new(id("x")), Box::new(lit_str("a"))),
    ]);
    assert_eq!(tc.typecheck(&bad), Err(TypeError::TypeMismatch(int_t(), string_t())));
}

#[test]
fn match_with_wildcards() {
    let m = module(vec![], vec![]);
    let mut tc = Typecheck::new(&m);
    let e = Expr::Match(
        Box::new(lit_int(1)),
        vec![
            Alternative { pattern: Pattern::Wildcard, expression: lit_int(2) },
            Alternative { pattern: Pattern::Wildcard, expression: lit_int(3) },
        ],
    );
    assert_eq!(tc.typecheck(&e), Ok(int_t()));
}

#[test]
fn match_constructor_pattern_against_scrutinee() {
    let m = module(vec![], vec![pair_struct()]);
    let mut tc = Typecheck::new(&m);
    let scrutinee = call(id("Pair"), vec![lit_int(1), lit_str("s")]);
    let good = Expr::Match(
        Box::new(scrutinee),
        vec![Alternative {
            pattern: Pattern::Constructor("Pair".to_string(), vec![]),
            expression: lit_int(2),
        }],
    );
    assert_eq!(tc.typecheck(&good), Ok(int_t()));
    let bad = Expr::Match(
        Box::new(lit_int(1)),
        vec![Alternative {
            pattern: Pattern::Constructor("Pair".to_string(), vec![]),
            expression: lit_int(2),
        }],
    );
    assert_eq!(
        tc.typecheck(&bad),
        Err(TypeError::TypeMismatch(Type::Named("Pair".to_string()), int_t()))
    );
}

/// Later alternatives are unified against a baseline re-inferred from the
/// first alternative's expression, so a deviating later arm goes unnoticed:
/// the check pins this documented behaviour.
#[test]
fn match_unifies_against_first_alternative() {
    let m = module(vec![], vec![]);
    let mut tc = Typecheck::new(&m);
    let e = Expr::Match(
        Box::new(lit_int(1)),
        vec![
            Alternative { pattern: Pattern::Wildcard, expression: lit_int(2) },
            Alternative { pattern: Pattern::Wildcard, expression: lit_str("a") },
        ],
    );
    assert_eq!(tc.typecheck(&e), Ok(int_t()));
}

/// Function types unify structurally: parameter lists pairwise, then the
/// return type.
#[test]
fn function_types_unify_structurally() {
    let callback_t = Type::Function(vec![int_t()], Box::new(int_t()));
    let m = module(
        vec![
            func("h", vec![field("cb", callback_t)], int_t(), lit_int(0)),
            func("f", vec![field("x", int_t())], int_t(), lit_int(0)),
            func("g", vec![field("s", string_t())], int_t(), lit_int(0)),
        ],
        vec![],
    );
    let mut tc = Typecheck::new(&m);
    assert_eq!(tc.typecheck(&call(id("h"), vec![id("f")])), Ok(int_t()));
    assert_eq!(
        tc.typecheck(&call(id("h"), vec![id("g")])),
        Err(TypeError::TypeMismatch(
            Type::Function(vec![int_t()], Box::new(int_t())),
            Type::Function(vec![string_t()], Box::new(int_t())),
        ))
    );
}

/// Duplicate declarations resolve to the first match; a function beats a
/// struct of the same name.
#[test]
fn duplicate_names_resolve_to_first_match() {
    let m = module(
        vec![
            func("d", vec![], int_t(), lit_int(0)),
            func("d", vec![], string_t(), lit_str("s")),
        ],
        vec![Struct { name: "d".to_string(), fields: vec![] }],
    );
    let mut tc = Typecheck::new(&m);
    assert_eq!(
        tc.typecheck(&call(id("d"), vec![])),
        Ok(int_t())
    );
}

/// A later parameter of the same name shadows an earlier one.
#[test]
fn duplicate_parameter_shadows_earlier() {
    let body = id("a");
    let m = module(
        vec![func("f", vec![field("a", int_t()), field("a", string_t())], string_t(), body)],
        vec![],
    );
    let mut tc = Typecheck::new(&m);
    assert_eq!(tc.typecheck_module(&m), Ok(()));
}

/// Identifier resolution prefers locals, then functions, then structs.
#[test]
fn locals_shadow_declarations() {
    let m = module(
        vec![func("v", vec![], int_t(), lit_int(0))],
        vec![pair_struct()],
    );
    let mut tc = Typecheck::new(&m);
    let shadowed = Expr::Block(vec![let_("v", lit_str("s")), id("v")]);
    assert_eq!(tc.typecheck(&shadowed), Ok(string_t()));
    assert_eq!(
        tc.typecheck(&id("v")),
        Ok(Type::Function(vec![], Box::new(int_t())))
    );
    assert_eq!(
        tc.typecheck(&id("Pair")),
        Ok(Type::Function(vec![int_t(), string_t()], Box::new(Type::Named("Pair".to_string()))))
    );
}
