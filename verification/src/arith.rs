//! Abstract syntax tree nodes for deferred scalar and curve-point values.
//!
//! Nodes form an immutable directed acyclic graph: a node is a transcript
//! leaf (recording the order in which it was read), a constant leaf, or an
//! interior node made of an operator and its operands. Nothing is evaluated
//! here; degenerate operations (inverting zero, scaling the point at
//! infinity) are recorded like any other and only fail when the tree is
//! later evaluated or compiled. Sharing is by reference count, so a
//! sub-expression used in several equations is built once and evaluated once
//! downstream.

use std::rc::Rc;
use vstd::prelude::*;

verus! {

/// A deferred scalar value, generic over the opaque constant type `S`.
#[derive(Debug)]
pub enum AstScalar<S> {
    /// A scalar read from the proof transcript; the payload is the position
    /// of the read in the transcript's total order of operations.
    FromTranscript(u64),
    /// A Fiat-Shamir challenge squeezed from the transcript; the payload is
    /// the position of the squeeze in the transcript's order of operations.
    FromChallenge(u64),
    /// A known constant.
    FromConst(S),
    Add(Rc<AstScalar<S>>, Rc<AstScalar<S>>),
    Sub(Rc<AstScalar<S>>, Rc<AstScalar<S>>),
    Mul(Rc<AstScalar<S>>, Rc<AstScalar<S>>),
    Neg(Rc<AstScalar<S>>),
    Invert(Rc<AstScalar<S>>),
    /// Multiplication by a known constant.
    Scale(S, Rc<AstScalar<S>>),
}

/// A deferred curve-point value, generic over the opaque scalar constant
/// type `S` and point constant type `P`.
#[derive(Debug)]
pub enum AstPoint<S, P> {
    /// A point read from the proof transcript; the payload is the position
    /// of the read in the transcript's total order of operations.
    FromTranscript(u64),
    /// A known constant.
    FromConst(P),
    Add(Rc<AstPoint<S, P>>, Rc<AstPoint<S, P>>),
    /// Scalar multiplication of a point.
    Scale(Rc<AstScalar<S>>, Rc<AstPoint<S, P>>),
    /// Multi-scalar multiplication: the sum of each point scaled by its
    /// paired scalar.
    MultiExp(Vec<(Rc<AstScalar<S>>, Rc<AstPoint<S, P>>)>),
}

/// Wraps a constant scalar as a leaf node.
pub fn scalar_const<S>(c: S) -> (r: Rc<AstScalar<S>>)
    ensures
        r == AstScalar::FromConst(c),
{
    Rc::new(AstScalar::FromConst(c))
}

/// Builds the sum of two scalar nodes.
pub fn scalar_add<S>(a: Rc<AstScalar<S>>, b: Rc<AstScalar<S>>) -> (r: Rc<AstScalar<S>>)
    ensures
        r == AstScalar::Add(a, b),
{
    Rc::new(AstScalar::Add(a, b))
}

/// Builds the difference of two scalar nodes.
pub fn scalar_sub<S>(a: Rc<AstScalar<S>>, b: Rc<AstScalar<S>>) -> (r: Rc<AstScalar<S>>)
    ensures
        r == AstScalar::Sub(a, b),
{
    Rc::new(AstScalar::Sub(a, b))
}

/// Builds the product of two scalar nodes.
pub fn scalar_mul<S>(a: Rc<AstScalar<S>>, b: Rc<AstScalar<S>>) -> (r: Rc<AstScalar<S>>)
    ensures
        r == AstScalar::Mul(a, b),
{
    Rc::new(AstScalar::Mul(a, b))
}

/// Builds the negation of a scalar node.
pub fn scalar_neg<S>(a: Rc<AstScalar<S>>) -> (r: Rc<AstScalar<S>>)
    ensures
        r == AstScalar::Neg(a),
{
    Rc::new(AstScalar::Neg(a))
}

/// Builds the field inverse of a scalar node. Inversion of zero is a
/// deferred error: it surfaces when the tree is evaluated, not here.
pub fn scalar_invert<S>(a: Rc<AstScalar<S>>) -> (r: Rc<AstScalar<S>>)
    ensures
        r == AstScalar::Invert(a),
{
    Rc::new(AstScalar::Invert(a))
}

/// Builds a scalar node scaled by a constant.
pub fn scalar_scale<S>(c: S, a: Rc<AstScalar<S>>) -> (r: Rc<AstScalar<S>>)
    ensures
        r == AstScalar::Scale(c, a),
{
    Rc::new(AstScalar::Scale(c, a))
}

/// Wraps a constant point as a leaf node.
pub fn point_const<S, P>(c: P) -> (r: Rc<AstPoint<S, P>>)
    ensures
        r == AstPoint::<S, P>::FromConst(c),
{
    Rc::new(AstPoint::FromConst(c))
}

/// Builds the sum of two point nodes.
pub fn point_add<S, P>(a: Rc<AstPoint<S, P>>, b: Rc<AstPoint<S, P>>) -> (r: Rc<AstPoint<S, P>>)
    ensures
        r == AstPoint::Add(a, b),
{
    Rc::new(AstPoint::Add(a, b))
}

/// Builds a point node scaled by a scalar node.
pub fn point_scale<S, P>(s: Rc<AstScalar<S>>, p: Rc<AstPoint<S, P>>) -> (r: Rc<AstPoint<S, P>>)
    ensures
        r == AstPoint::Scale(s, p),
{
    Rc::new(AstPoint::Scale(s, p))
}

/// Builds a multi-scalar multiplication over scalar/point pairs.
pub fn point_multi_exp<S, P>(terms: Vec<(Rc<AstScalar<S>>, Rc<AstPoint<S, P>>)>) -> (r: Rc<
    AstPoint<S, P>,
>)
    ensures
        r == AstPoint::MultiExp(terms),
{
    Rc::new(AstPoint::MultiExp(terms))
}

} // verus!
