//! Symbolic verifier-side evaluation for a PLONK-style proof system.
//!
//! Instead of checking a proof directly, this library rebuilds the verifier's
//! arithmetic as an abstract syntax tree of deferred scalar and curve-point
//! values. A proof argument (the lookup argument here) consumes a transcript
//! in a fixed order, binds the resulting nodes to its algebraic relation, and
//! emits the evaluation queries that a polynomial-commitment opening verifier
//! must check.

pub mod arith;
pub mod keys;
pub mod labels;
pub mod lookup;
pub mod query;
pub mod transcript;
