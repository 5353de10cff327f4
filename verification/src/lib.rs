//! A toolchain for a toy expression language with integers, booleans,
//! conditionals, let-bindings, first-class functions and application.
//!
//! Three independent stages work over structurally similar expression
//! grammars:
//! - an environment evaluator ([`eval::evaluate`]) reducing an expression to
//!   a runtime value,
//! - a static type checker ([`typing::type_of`]) inferring a type or
//!   reporting a structured type error,
//! - a lexical-scope resolver ([`nameless::to_nameless`]) rewriting variable
//!   references from names to de Bruijn indices.
//!
//! Each stage is specified against a ghost semantics (a spec function over
//! mathematical models of the trees) and verified against it.

pub mod env;
pub mod eval;
pub mod named;
pub mod nameless;
pub mod nameless_env;
pub mod typing;
