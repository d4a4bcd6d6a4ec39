//! The mathematical model the contracts speak of.
//!
//! Identifiers are modelled as their character sequences, types and errors as
//! ghost values over those sequences. The view functions here map the
//! executable syntax tree onto that model; equality on the model is the
//! structural type equality the language defines.

use vstd::prelude::*;

use crate::ast::{PrimitiveType, TcResult, Type, TypeError};

verus! {

/// The model of a [`Type`]: the same three shapes over identifier contents.
pub enum SpecType {
    Prim(PrimitiveType),
    Named(Seq<char>),
    Func(Seq<SpecType>, Box<SpecType>),
}

/// The model of a [`TypeError`].
pub enum SpecError {
    UndefinedVariable(Seq<char>),
    NotAFunction(SpecType),
    WrongNumberOfArguments(nat, nat),
    TypeMismatch(SpecType, SpecType),
    UndefinedStruct(Seq<char>),
    UndefinedField(Seq<char>, Seq<char>),
    TypeError(Seq<char>),
}

/// The model of a [`TcResult`].
pub type SpecResult = Result<SpecType, SpecError>;

pub open spec fn int_type() -> SpecType {
    SpecType::Prim(PrimitiveType::Int)
}

pub open spec fn float_type() -> SpecType {
    SpecType::Prim(PrimitiveType::Float)
}

pub open spec fn string_type() -> SpecType {
    SpecType::Prim(PrimitiveType::Str)
}

pub open spec fn bool_type() -> SpecType {
    SpecType::Prim(PrimitiveType::Bool)
}

pub open spec fn unit_type() -> SpecType {
    SpecType::Prim(PrimitiveType::Unit)
}

/// The type of each literal kind: a fixed primitive, whatever the value.
pub open spec fn literal_type(l: crate::ast::Literal) -> SpecType {
    match l {
        crate::ast::Literal::Int(_) => int_type(),
        crate::ast::Literal::Float => float_type(),
        crate::ast::Literal::Str(_) => string_type(),
        crate::ast::Literal::Bool(_) => bool_type(),
    }
}

/// What a [`Type`] denotes.
pub open spec fn view_type(t: Type) -> SpecType
    decreases t,
{
    match t {
        Type::Primitive(p) => SpecType::Prim(p),
        Type::Named(n) => SpecType::Named(n@),
        Type::Function(ps, r) => SpecType::Func(view_type_seq(ps@), Box::new(view_type(*r))),
    }
}

/// What a sequence of [`Type`]s denotes, element by element.
pub open spec fn view_type_seq(ts: Seq<Type>) -> Seq<SpecType>
    decreases ts,
{
    if ts.len() == 0 {
        Seq::empty()
    } else {
        view_type_seq(ts.drop_last()).push(view_type(ts.last()))
    }
}

/// `view_type_seq` is the pointwise image of `view_type`.
pub proof fn lemma_view_type_seq(ts: Seq<Type>)
    ensures
        view_type_seq(ts).len() == ts.len(),
        forall|i: int| 0 <= i < ts.len() ==> view_type_seq(ts)[i] == view_type(ts[i]),
    decreases ts,
{
    if ts.len() > 0 {
        lemma_view_type_seq(ts.drop_last());
    }
}

/// What a [`TypeError`] denotes.
pub open spec fn view_error(e: TypeError) -> SpecError {
    match e {
        TypeError::UndefinedVariable(n) => SpecError::UndefinedVariable(n@),
        TypeError::NotAFunction(t) => SpecError::NotAFunction(view_type(t)),
        TypeError::WrongNumberOfArguments(exp, act) => SpecError::WrongNumberOfArguments(
            exp as nat,
            act as nat,
        ),
        TypeError::TypeMismatch(exp, act) => SpecError::TypeMismatch(
            view_type(exp),
            view_type(act),
        ),
        TypeError::UndefinedStruct(n) => SpecError::UndefinedStruct(n@),
        TypeError::UndefinedField(s, f) => SpecError::UndefinedField(s@, f@),
        TypeError::TypeError(m) => SpecError::TypeError(m@),
    }
}

/// What a [`TcResult`] denotes.
pub open spec fn view_result(r: TcResult) -> SpecResult {
    match r {
        Ok(t) => Ok(view_type(t)),
        Err(e) => Err(view_error(e)),
    }
}

/// What an optionally found [`Type`] denotes.
pub open spec fn view_type_option(r: Option<Type>) -> Option<SpecType> {
    match r {
        Some(t) => Some(view_type(t)),
        None => None,
    }
}

/// What a verdict without a type denotes.
pub open spec fn view_unit_result(r: Result<(), TypeError>) -> Result<(), SpecError> {
    match r {
        Ok(_) => Ok(()),
        Err(e) => Err(view_error(e)),
    }
}

impl Clone for Type {
    /// A deep copy denoting the same type.
    #[verifier::loop_isolation(false)]
    fn clone(&self) -> (r: Type)
        ensures
            view_type(r) == view_type(*self),
        decreases self,
    {
        match self {
            Type::Primitive(p) => Type::Primitive(*p),
            Type::Named(n) => Type::Named(n.clone()),
            Type::Function(ps, ret) => {
                let mut v: Vec<Type> = Vec::new();
                let mut i: usize = 0;
                while i < ps.len()
                    invariant
                        0 <= i <= ps@.len(),
                        v@.len() == i,
                        forall|j: int| 0 <= j < i ==> view_type(v@[j]) == view_type(ps@[j]),
                    decreases ps@.len() - i,
                {
                    v.push(ps[i].clone());
                    i += 1;
                }
                proof {
                    lemma_view_type_seq(v@);
                    lemma_view_type_seq(ps@);
                    assert(view_type_seq(v@) =~= view_type_seq(ps@));
                }
                Type::Function(v, Box::new((**ret).clone()))
            },
        }
    }
}

} // verus!
