//! A tree-walking evaluator for a small expression language: integers,
//! strings, booleans, conditionals, sequential `let` bindings, first-class
//! functions with shared-alias capture (so `let`-bound functions can recurse
//! by name), pairwise tuples, a `print` effect routed to an injectable output
//! sink, and a fixed table of binary operators.
//!
//! The operational semantics is written down once, as the specification
//! function [`semantics::sem`]; the executable evaluator in [`eval`] is
//! verified to agree with it on every input.

pub mod ast;
pub mod error;
pub mod eval;
pub mod eval_binary;
pub mod eval_call;
pub mod laws;
pub mod scope;
pub mod semantics;
pub mod text;
pub mod val;
