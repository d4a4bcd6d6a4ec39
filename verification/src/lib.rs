//! Static type checking for a small, statically typed, monomorphic language.
//!
//! The crate checks a parsed module (function and struct declarations) for
//! type consistency: every expression's type is inferred bottom-up and held
//! against its context, and the first structural inconsistency is reported as
//! a [`ast::TypeError`]. A read-only accessor over already annotated trees
//! ([`typed::Typed`]) recovers an expression's type without re-checking.
//!
//! The checking rules themselves are stated as specification functions in
//! [`semantics`]; the executable checker in [`checker`] is verified to return
//! exactly what those rules say, and [`laws`] proves the general properties
//! the checker guarantees.

pub mod ast;
pub mod checker;
pub mod laws;
pub mod model;
pub mod scope;
pub mod semantics;
pub mod typed;
