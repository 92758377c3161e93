//! The part of the verifying key that this library reads: the ordered list
//! of lookup arguments, each exposing its input-column and table-column
//! expression lists.
//!
//! The expressions are algebraic descriptions over circuit columns, public
//! data of the verifying key. This library copies them out and hands them
//! on without ever inspecting them, so they stay values of halo2's own
//! `Expression` type, opaque here, shared by reference count exactly as the
//! AST nodes are.

use halo2_proofs::plonk::Expression;
use std::rc::Rc;
use vstd::prelude::*;

verus! {

/// Declares halo2's `Expression` type so that it can stand in fields and
/// signatures here. Values of it are carried through untouched.
#[verifier::external_type_specification]
#[verifier::external_body]
#[verifier::reject_recursive_types(F)]
pub struct ExExpression<F>(Expression<F>);

/// One lookup argument's static description: the expressions whose values
/// must appear in the table, and the expressions describing the table.
#[derive(Debug)]
#[verifier::reject_recursive_types(F)]
pub struct LookupArgument<F> {
    pub input_expressions: Rc<Vec<Expression<F>>>,
    pub table_expressions: Rc<Vec<Expression<F>>>,
}

/// The verifying key, seen through what the lookup evaluators need of it:
/// the circuit's ordered list of lookup arguments.
#[derive(Debug)]
#[verifier::reject_recursive_types(F)]
pub struct VerifyingKey<F> {
    pub lookups: Vec<LookupArgument<F>>,
}

impl<F> VerifyingKey<F> {
    /// The number of lookup arguments the circuit declares; evaluator
    /// indices must lie below it.
    pub fn num_lookups(&self) -> (n: usize)
        ensures
            n == self.lookups@.len(),
    {
        self.lookups.len()
    }
}

} // verus!
