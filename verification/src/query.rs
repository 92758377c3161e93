//! Evaluation queries: the assertions handed to the multi-open verifier.
//!
//! A query states that the polynomial committed to by `commitment`,
//! evaluated at `point` (the primary challenge point rotated by `rotation`
//! rows), equals `eval`. Queries are value objects, identified downstream
//! only by their key string.

use crate::arith::AstPoint;
use crate::arith::AstScalar;
use std::rc::Rc;
use vstd::prelude::*;

verus! {

/// One opening query for the multi-open verifier.
#[derive(Debug)]
pub struct EvaluationQuery<S, P> {
    /// The offset, in rows, of the evaluation point from the primary
    /// challenge point, as a power of the domain's row-shift generator.
    pub rotation: i32,
    /// The evaluation point itself, already rotated; supplied by the
    /// caller, not computed here.
    pub point: Rc<AstScalar<S>>,
    /// The identifying key: unique per commitment, evaluator and rotation,
    /// so queries from different evaluators never collide.
    pub key: String,
    /// The committed polynomial being opened.
    pub commitment: Rc<AstPoint<S, P>>,
    /// The claimed value of the committed polynomial at `point`.
    pub eval: Rc<AstScalar<S>>,
}

impl<S, P> EvaluationQuery<S, P> {
    /// Assembles a query from its parts, changing none of them.
    pub fn new(
        rotation: i32,
        point: Rc<AstScalar<S>>,
        key: String,
        commitment: Rc<AstPoint<S, P>>,
        eval: Rc<AstScalar<S>>,
    ) -> (q: Self)
        ensures
            q.rotation == rotation,
            q.point == point,
            q.key == key,
            q.commitment == commitment,
            q.eval == eval,
    {
        EvaluationQuery { rotation, point, key, commitment, eval }
    }
}

} // verus!
