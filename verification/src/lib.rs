//! Interpreter core for a small tabletop-dice expression language.
//!
//! The crate defines the abstract syntax tree of the language, the error
//! taxonomy every evaluation path respects, a deterministic environment
//! holding variable and function bindings together with a pseudorandom
//! dice-roll source, and the tree-walking evaluator that reduces a parsed
//! command to a value or an environment mutation.

pub mod env;
pub mod error;
pub mod eval_functions;
pub mod laws;
pub mod semantics;
pub mod syntax_tree;
pub mod values;
