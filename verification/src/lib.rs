//! A verified AST-rewriting engine for a pipeline-oriented query
//! language that lowers into relational-algebra operations.
//!
//! The crate defines the two-tier tree — surface expressions and
//! statements, and the resolved transform pipeline — together with a
//! capability-based fold: one overridable rewrite method per syntactic
//! category, and one default structural-recursion function per composite
//! category. A pass overrides only the categories it cares about; every
//! other node is recursed into by the default functions, in declared
//! field order, with strict fail-fast error propagation.

pub mod ast;
pub mod size;
pub mod view;
pub mod fold;
pub mod identity;
pub mod record;
pub mod failfast;
