//! The syntax tree the checker consumes and the error values it produces.
//!
//! The tree is produced upstream by a parser and is assumed syntactically
//! valid; it is a strict tree, each composite node exclusively owning its
//! children. Identifiers are canonical, cheaply comparable tokens; the
//! checker only ever compares them for equality.

use vstd::prelude::*;

verus! {

/// A canonical identifier token. The checker treats identifiers as opaque,
/// equality-comparable keys.
pub type Ident = String;

/// The fixed, pre-declared primitive types of the language. Primitives are
/// singletons, compared by equality.
#[derive(Clone, Copy, Debug, PartialEq, Eq, Structural)]
pub enum PrimitiveType {
    Int,
    Float,
    Str,
    Bool,
    Unit,
}

/// A type: a primitive, a nominal reference to a declared struct, or a
/// function signature (parameter types plus return type).
///
/// Type equality is structural: two `Function` types are equal iff their
/// parameter sequences are pairwise equal and their return types are equal;
/// a `Named` type equals another iff the names match.
#[derive(Debug, PartialEq, Eq)]
pub enum Type {
    Primitive(PrimitiveType),
    Named(Ident),
    Function(Vec<Type>, Box<Type>),
}

/// An identifier occurrence in an expression. After a successful check, a
/// later pass may fill `typ` with the resolved type; the checker itself only
/// reads `name`.
#[derive(Debug, PartialEq, Eq)]
pub struct TypedIdent {
    pub name: Ident,
    pub typ: Option<Type>,
}

/// A literal. Only the kind of literal matters to the checker, never the
/// value; a float literal therefore carries no payload, which keeps this
/// crate free of floating point.
#[derive(Debug, PartialEq, Eq)]
pub enum Literal {
    Int(i64),
    Float,
    Str(String),
    Bool(bool),
}

/// An expression node.
#[derive(Debug, PartialEq, Eq)]
pub enum Expr {
    /// A reference to a variable, function or struct by name.
    Identifier(TypedIdent),
    /// A literal value.
    Literal(Literal),
    /// A call: callee expression and arguments in order. Structs are
    /// constructed by calling their name with field values in declared order.
    Call(Box<Expr>, Vec<Expr>),
    /// `if pred { on_true } else { on_false }`.
    IfElse(Box<Expr>, Box<Expr>, Box<Expr>),
    /// `while pred { body }`; the loop's own type is unit.
    While(Box<Expr>, Box<Expr>),
    /// A binary operation; the operator is a symbolic token, not a typed
    /// enum. Only `+ - * < > <= >=` are recognized.
    BinOp(Box<Expr>, Ident, Box<Expr>),
    /// A sequence of expressions; its type is the last expression's type.
    Block(Vec<Expr>),
    /// A pattern match: scrutinee plus alternatives in order.
    Match(Box<Expr>, Vec<Alternative>),
    /// `let name = value`; binds `name` for the rest of the enclosing block.
    Let(Ident, Box<Expr>),
    /// An assignment `target = value`; itself an expression.
    Assign(Box<Expr>, Box<Expr>),
    /// `base.field`; the field identifier can carry a resolved type.
    FieldAccess(Box<Expr>, TypedIdent),
}

/// One alternative of a `Match` expression.
#[derive(Debug, PartialEq, Eq)]
pub struct Alternative {
    pub pattern: Pattern,
    pub expression: Expr,
}

/// A pattern: a constructor applied to sub-patterns, or an irrefutable
/// wildcard that matches anything and binds nothing.
#[derive(Debug, PartialEq, Eq)]
pub enum Pattern {
    Constructor(Ident, Vec<Pattern>),
    Wildcard,
}

/// A named, typed slot: a function parameter or a struct field.
#[derive(Debug, PartialEq, Eq)]
pub struct Field {
    pub name: Ident,
    pub typ: Type,
}

/// A function declaration: parameters in order, declared return type, and a
/// single body expression.
#[derive(Debug, PartialEq, Eq)]
pub struct Function {
    pub name: Ident,
    pub arguments: Vec<Field>,
    pub return_type: Type,
    pub expression: Expr,
}

/// A struct declaration: fields in order.
#[derive(Debug, PartialEq, Eq)]
pub struct Struct {
    pub name: Ident,
    pub fields: Vec<Field>,
}

/// A parsed module: function and struct declarations, in declaration order.
/// Declaration names are assumed unique per kind; duplicates resolve to the
/// first match.
#[derive(Debug, PartialEq, Eq)]
pub struct Module {
    pub functions: Vec<Function>,
    pub structs: Vec<Struct>,
}

/// The first inconsistency a check found. Checking is fail-fast: a single
/// error aborts the whole module check, with no accumulation or recovery.
#[derive(Debug, PartialEq, Eq)]
pub enum TypeError {
    /// An identifier resolved neither in scope nor in the module; also used
    /// for an unrecognized binary operator token.
    UndefinedVariable(Ident),
    /// A call's callee does not have a `Function` type.
    NotAFunction(Type),
    /// A call passed the wrong number of arguments: expected, then actual.
    WrongNumberOfArguments(usize, usize),
    /// Unification failed: expected, then actual.
    TypeMismatch(Type, Type),
    /// A field access or pattern named a struct with no declaration.
    UndefinedStruct(Ident),
    /// A field name not declared on the resolved struct: struct, then field.
    UndefinedField(Ident, Ident),
    /// A context-specific failure, such as arithmetic on non-numeric
    /// operands or field access on a non-struct type.
    TypeError(String),
}

/// The result of inferring one expression's type.
pub type TcResult = Result<Type, TypeError>;

} // verus!
