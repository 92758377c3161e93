//! The transcript reader: the sequential protocol for pulling scalars and
//! points out of a proof transcript and for deriving Fiat-Shamir challenges.
//!
//! A transcript is a single shared, order-sensitive state machine. Every
//! read and every squeeze advances its operation counter, and the leaf node
//! handed back records that counter, so the position of each read in the
//! circuit-wide total order is part of the node itself. Reads also consume
//! one element of the proof's finite supply; a read past the end of that
//! supply is the non-recoverable exhaustion condition of a truncated or
//! corrupted proof. Squeezing a challenge advances the absorption state but
//! consumes no proof data.

use crate::arith::AstPoint;
use crate::arith::AstScalar;
use std::rc::Rc;
use vstd::prelude::*;

verus! {

/// The failure of the transcript to supply a requested element: the proof
/// behind it is truncated or corrupted. Non-recoverable; construction of
/// whatever was being read aborts and the condition propagates.
#[derive(Clone, Copy, Debug, PartialEq, Eq, Structural)]
pub enum TranscriptError {
    Exhausted,
}

/// The abstract state of a transcript: how many operations (reads and
/// squeezes) have been performed, and how many proof elements are still
/// available to read.
pub ghost struct TranscriptState {
    pub cursor: nat,
    pub remaining: nat,
}

/// A proof transcript, viewed through the reader contract alone: an
/// operation counter and the supply of proof elements left to read.
#[derive(Debug)]
pub struct AstTranscript {
    cursor: u64,
    remaining: u64,
}

impl View for AstTranscript {
    type V = TranscriptState;

    closed spec fn view(&self) -> TranscriptState {
        TranscriptState { cursor: self.cursor as nat, remaining: self.remaining as nat }
    }
}

impl AstTranscript {
    /// Opens a transcript over a proof that holds `supply` readable
    /// elements. The operation counter starts at zero.
    pub fn new(supply: u64) -> (t: Self)
        ensures
            t@.cursor == 0,
            t@.remaining == supply,
    {
        AstTranscript { cursor: 0, remaining: supply }
    }

    /// The number of operations performed so far.
    pub fn cursor(&self) -> (c: u64)
        ensures
            c == self@.cursor,
    {
        self.cursor
    }

    /// The number of proof elements still available to read.
    pub fn remaining(&self) -> (n: u64)
        ensures
            n == self@.remaining,
    {
        self.remaining
    }

    /// Reads the next scalar of the proof, as a leaf node recording its
    /// position in the transcript's order of operations. Fails with
    /// exhaustion, changing nothing, when no proof element is left.
    pub fn read_scalar<S>(&mut self) -> (r: Result<Rc<AstScalar<S>>, TranscriptError>)
        requires
            old(self)@.cursor < u64::MAX,
        ensures
            old(self)@.remaining > 0 ==> {
                &&& r is Ok
                &&& r->Ok_0 == AstScalar::<S>::FromTranscript(old(self)@.cursor as u64)
                &&& final(self)@.cursor == old(self)@.cursor + 1
                &&& final(self)@.remaining == old(self)@.remaining - 1
            },
            old(self)@.remaining == 0 ==> {
                &&& r == Result::<Rc<AstScalar<S>>, TranscriptError>::Err(
                    TranscriptError::Exhausted,
                )
                &&& *final(self) == *old(self)
            },
    {
        if self.remaining == 0 {
            Err(TranscriptError::Exhausted)
        } else {
            let node = Rc::new(AstScalar::FromTranscript(self.cursor));
            self.cursor = self.cursor + 1;
            self.remaining = self.remaining - 1;
            Ok(node)
        }
    }

    /// Reads the next curve point of the proof, as a leaf node recording
    /// its position in the transcript's order of operations. Fails with
    /// exhaustion, changing nothing, when no proof element is left.
    pub fn read_point<S, P>(&mut self) -> (r: Result<Rc<AstPoint<S, P>>, TranscriptError>)
        requires
            old(self)@.cursor < u64::MAX,
        ensures
            old(self)@.remaining > 0 ==> {
                &&& r is Ok
                &&& r->Ok_0 == AstPoint::<S, P>::FromTranscript(old(self)@.cursor as u64)
                &&& final(self)@.cursor == old(self)@.cursor + 1
                &&& final(self)@.remaining == old(self)@.remaining - 1
            },
            old(self)@.remaining == 0 ==> {
                &&& r == Result::<Rc<AstPoint<S, P>>, TranscriptError>::Err(
                    TranscriptError::Exhausted,
                )
                &&& *final(self) == *old(self)
            },
    {
        if self.remaining == 0 {
            Err(TranscriptError::Exhausted)
        } else {
            let node = Rc::new(AstPoint::FromTranscript(self.cursor));
            self.cursor = self.cursor + 1;
            self.remaining = self.remaining - 1;
            Ok(node)
        }
    }

    /// Derives a Fiat-Shamir challenge, as a leaf node recording its
    /// position in the transcript's order of operations. A squeeze advances
    /// the absorption state but consumes no proof element, so it cannot
    /// exhaust the transcript.
    pub fn squeeze_challenge<S>(&mut self) -> (r: Rc<AstScalar<S>>)
        requires
            old(self)@.cursor < u64::MAX,
        ensures
            r == AstScalar::<S>::FromChallenge(old(self)@.cursor as u64),
            final(self)@.cursor == old(self)@.cursor + 1,
            final(self)@.remaining == old(self)@.remaining,
    {
        let node = Rc::new(AstScalar::FromChallenge(self.cursor));
        self.cursor = self.cursor + 1;
        node
    }
}

} // verus!
