//! The static type reader: constant-time type recovery over trees whose
//! identifier nodes already carry their resolved types.
//!
//! This is a trusted accessor for later passes, not a second checking pass:
//! it performs no validation, so it is only callable on nodes that satisfy
//! [`expr_typed`], the invariant a successful check and annotation pass
//! establishes.

use vstd::prelude::*;

use crate::ast::{Expr, Literal, PrimitiveType, Type, TypedIdent};
use crate::model::{bool_type, literal_type, unit_type, view_type, SpecType};

verus! {

/// Whether the reader can recover this node's type: the identifier nodes it
/// consults carry a type, callees are function-typed, operators are
/// recognized, and a match has a first alternative.
pub open spec fn expr_typed(e: Expr) -> bool
    decreases e, 0int,
{
    match e {
        Expr::Identifier(id) => id.typ is Some,
        Expr::Literal(_) => true,
        Expr::Call(f, _) => expr_typed(*f) && expr_type_of(*f) is Func,
        Expr::IfElse(_, on_true, _) => expr_typed(*on_true),
        Expr::While(_, _) => true,
        Expr::BinOp(lhs, op, _) => if op@ == "+"@ || op@ == "-"@ || op@ == "*"@ {
            expr_typed(*lhs)
        } else {
            op@ == "<"@ || op@ == ">"@ || op@ == "<="@ || op@ == ">="@
        },
        Expr::Block(es) => es@.len() == 0 || expr_typed(es@.last()),
        Expr::Match(_, alts) => alts@.len() > 0 && expr_typed(alts@[0].expression),
        Expr::Let(_, _) => true,
        Expr::Assign(_, _) => true,
        Expr::FieldAccess(_, fid) => fid.typ is Some,
    }
}

/// The type the reader recovers, mirroring inference: an identifier's
/// carried type; a literal's fixed primitive; the true arm of an `if`; the
/// last element of a block (unit when empty); the left operand's type for
/// arithmetic and boolean for comparisons; unit for `let`, `while` and
/// assignments; the callee's return type for a call; the first
/// alternative's type for a match; the carried type of an accessed field.
pub open spec fn expr_type_of(e: Expr) -> SpecType
    decreases e, 0int,
{
    match e {
        Expr::Identifier(id) => match id.typ {
            Some(t) => view_type(t),
            None => unit_type(),
        },
        Expr::Literal(l) => literal_type(l),
        Expr::Call(f, _) => match expr_type_of(*f) {
            SpecType::Func(_, ret) => *ret,
            _ => unit_type(),
        },
        Expr::IfElse(_, on_true, _) => expr_type_of(*on_true),
        Expr::While(_, _) => unit_type(),
        Expr::BinOp(lhs, op, _) => if op@ == "+"@ || op@ == "-"@ || op@ == "*"@ {
            expr_type_of(*lhs)
        } else {
            bool_type()
        },
        Expr::Block(es) => if es@.len() == 0 {
            unit_type()
        } else {
            expr_type_of(es@.last())
        },
        Expr::Match(_, alts) => if alts@.len() > 0 {
            expr_type_of(alts@[0].expression)
        } else {
            unit_type()
        },
        Expr::Let(_, _) => unit_type(),
        Expr::Assign(_, _) => unit_type(),
        Expr::FieldAccess(_, fid) => match fid.typ {
            Some(t) => view_type(t),
            None => unit_type(),
        },
    }
}

/// The capability of carrying a recoverable type. Any identifier
/// representation used in annotated trees can provide it; the reader is
/// thereby decoupled from one concrete identifier shape.
pub trait Typed {
    /// The node carries enough resolved type information to answer.
    spec fn typed(&self) -> bool;

    /// The type the node carries.
    spec fn spec_type_of(&self) -> SpecType;

    /// Recovers the node's type without re-running inference.
    fn type_of(&self) -> (t: Type)
        requires
            self.typed(),
        ensures
            view_type(t) == self.spec_type_of(),
    ;
}

impl Typed for TypedIdent {
    open spec fn typed(&self) -> bool {
        self.typ is Some
    }

    open spec fn spec_type_of(&self) -> SpecType {
        match self.typ {
            Some(t) => view_type(t),
            None => unit_type(),
        }
    }

    fn type_of(&self) -> (t: Type) {
        match &self.typ {
            Some(t) => t.clone(),
            None => {
                proof {
                    assert(false);
                }
                Type::Primitive(PrimitiveType::Unit)
            },
        }
    }
}

impl Typed for Expr {
    open spec fn typed(&self) -> bool {
        expr_typed(*self)
    }

    open spec fn spec_type_of(&self) -> SpecType {
        expr_type_of(*self)
    }

    fn type_of(&self) -> (t: Type)
        decreases self,
    {
        match self {
            Expr::Identifier(id) => id.type_of(),
            Expr::Literal(lit) => match lit {
                Literal::Int(_) => Type::Primitive(PrimitiveType::Int),
                Literal::Float => Type::Primitive(PrimitiveType::Float),
                Literal::Str(_) => Type::Primitive(PrimitiveType::Str),
                Literal::Bool(_) => Type::Primitive(PrimitiveType::Bool),
            },
            Expr::Call(f, _) => {
                let func_type = (**f).type_of();
                match func_type {
                    Type::Function(_, ret) => *ret,
                    _ => {
                        proof {
                            assert(false);
                        }
                        Type::Primitive(PrimitiveType::Unit)
                    },
                }
            },
            Expr::IfElse(_, on_true, _) => (**on_true).type_of(),
            Expr::While(_, _) => Type::Primitive(PrimitiveType::Unit),
            Expr::BinOp(lhs, op, _) => {
                if *op == "+".to_owned() || *op == "-".to_owned() || *op == "*".to_owned() {
                    (**lhs).type_of()
                } else {
                    Type::Primitive(PrimitiveType::Bool)
                }
            },
            Expr::Block(es) => {
                if es.len() == 0 {
                    Type::Primitive(PrimitiveType::Unit)
                } else {
                    es[es.len() - 1].type_of()
                }
            },
            Expr::Match(_, alts) => alts[0].expression.type_of(),
            Expr::Let(_, _) => Type::Primitive(PrimitiveType::Unit),
            Expr::Assign(_, _) => Type::Primitive(PrimitiveType::Unit),
            Expr::FieldAccess(_, fid) => fid.type_of(),
        }
    }
}

} // verus!
