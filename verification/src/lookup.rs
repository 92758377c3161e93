//! The lookup-argument evaluator and its evaluation-query assembly.
//!
//! One `Evaluated` is built per lookup constraint of the circuit. Building
//! it consumes exactly five scalars from the transcript, in a fixed order
//! that matches the order the prover wrote them; that order is a protocol
//! invariant, stated in `build_from_transcript`'s contract, since a
//! reordering would silently produce a wrong but well-formed tree. The
//! finished evaluator is immutable, and `queries` assembles from it the
//! five opening queries that the multi-open verifier must check.

use crate::arith::AstPoint;
use crate::arith::AstScalar;
use crate::keys::VerifyingKey;
use crate::labels::lookup_key;
use crate::labels::spec_lookup_key;
use crate::query::EvaluationQuery;
use crate::transcript::AstTranscript;
use crate::transcript::TranscriptError;
use halo2_proofs::plonk::Expression;
use std::rc::Rc;
use vstd::prelude::*;
use vstd::string::StringExecFns;

verus! {

/// The two curve points a lookup argument commits to before the challenge
/// phase: the permuted input column and the permuted table column. Created
/// once per lookup, immutable thereafter.
#[derive(Debug)]
pub struct PermutedCommitments<S, P> {
    pub permuted_input_commitment: Rc<AstPoint<S, P>>,
    pub permuted_table_commitment: Rc<AstPoint<S, P>>,
}

/// One lookup constraint's evaluator: its identifying key, the static
/// expressions copied from the verifying key, the commitments read earlier
/// from the transcript, and the five claimed evaluations read here.
/// Immutable and read-only once built.
#[derive(Debug)]
#[verifier::reject_recursive_types(S)]
pub struct Evaluated<S, P> {
    pub key: String,
    pub input_expressions: Rc<Vec<Expression<S>>>,
    pub table_expressions: Rc<Vec<Expression<S>>>,
    pub product_eval: Rc<AstScalar<S>>,
    pub product_next_eval: Rc<AstScalar<S>>,
    pub permuted_input_eval: Rc<AstScalar<S>>,
    pub permuted_input_inv_eval: Rc<AstScalar<S>>,
    pub permuted_table_eval: Rc<AstScalar<S>>,
    pub permuted_commitment: PermutedCommitments<S, P>,
    pub product_commitment: Rc<AstPoint<S, P>>,
}

/// What `queries` returns: exactly five queries, in this order, with
/// rotations `0, 0, 0, -1, 1`, points `x, x, x, x_inv, x_next`, each
/// opening the stated commitment of `e` at the stated claimed evaluation,
/// under `e`'s key extended by the suffix naming that commitment.
pub open spec fn queries_post<S, P>(
    e: Evaluated<S, P>,
    x: Rc<AstScalar<S>>,
    x_inv: Rc<AstScalar<S>>,
    x_next: Rc<AstScalar<S>>,
    r: Seq<EvaluationQuery<S, P>>,
) -> bool {
    &&& r.len() == 5
    &&& r[0].rotation == 0
    &&& r[0].point == x
    &&& r[0].key@ == e.key@ + "_product_commitment"@
    &&& r[0].commitment == e.product_commitment
    &&& r[0].eval == e.product_eval
    &&& r[1].rotation == 0
    &&& r[1].point == x
    &&& r[1].key@ == e.key@ + "_permuted_input_commitment"@
    &&& r[1].commitment == e.permuted_commitment.permuted_input_commitment
    &&& r[1].eval == e.permuted_input_eval
    &&& r[2].rotation == 0
    &&& r[2].point == x
    &&& r[2].key@ == e.key@ + "_permuted_table_commitment"@
    &&& r[2].commitment == e.permuted_commitment.permuted_table_commitment
    &&& r[2].eval == e.permuted_table_eval
    &&& r[3].rotation == -1
    &&& r[3].point == x_inv
    &&& r[3].key@ == e.key@ + "_permuted_input_commitment"@
    &&& r[3].commitment == e.permuted_commitment.permuted_input_commitment
    &&& r[3].eval == e.permuted_input_inv_eval
    &&& r[4].rotation == 1
    &&& r[4].point == x_next
    &&& r[4].key@ == e.key@ + "_product_commitment"@
    &&& r[4].commitment == e.product_commitment
    &&& r[4].eval == e.product_next_eval
}

impl<S, P> Evaluated<S, P> {
    /// Builds the evaluator for the lookup at `index`, reading exactly five
    /// scalars from the transcript in the fixed protocol order: the
    /// grand-product polynomial at the current row, the same at the next
    /// row, the permuted input column at the current row, the same at the
    /// previous row, and the permuted table column at the current row. The
    /// commitments were read from the transcript before this call; the
    /// expressions are copied from the verifying key, not transcript data.
    ///
    /// Succeeds exactly when the transcript still holds five readable
    /// elements; a shorter transcript is a truncated proof, and the
    /// exhaustion it signals aborts construction: no partial evaluator
    /// exists.
    pub fn build_from_transcript(
        index: usize,
        permuted_commitment: PermutedCommitments<S, P>,
        product_commitment: Rc<AstPoint<S, P>>,
        key: &str,
        vk: &VerifyingKey<S>,
        transcript: &mut AstTranscript,
    ) -> (r: Result<Self, TranscriptError>)
        requires
            index < vk.lookups@.len(),
            old(transcript)@.cursor + 5 <= u64::MAX,
        ensures
            old(transcript)@.remaining >= 5 ==> {
                &&& r is Ok
                &&& final(transcript)@.cursor == old(transcript)@.cursor + 5
                &&& final(transcript)@.remaining == old(transcript)@.remaining - 5
                &&& (r->Ok_0).key@ == spec_lookup_key(key@, index as nat)
                &&& (r->Ok_0).input_expressions == vk.lookups@[index as int].input_expressions
                &&& (r->Ok_0).table_expressions == vk.lookups@[index as int].table_expressions
                &&& (r->Ok_0).permuted_commitment == permuted_commitment
                &&& (r->Ok_0).product_commitment == product_commitment
                &&& (r->Ok_0).product_eval == AstScalar::<S>::FromTranscript(
                    old(transcript)@.cursor as u64,
                )
                &&& (r->Ok_0).product_next_eval == AstScalar::<S>::FromTranscript(
                    (old(transcript)@.cursor + 1) as u64,
                )
                &&& (r->Ok_0).permuted_input_eval == AstScalar::<S>::FromTranscript(
                    (old(transcript)@.cursor + 2) as u64,
                )
                &&& (r->Ok_0).permuted_input_inv_eval == AstScalar::<S>::FromTranscript(
                    (old(transcript)@.cursor + 3) as u64,
                )
                &&& (r->Ok_0).permuted_table_eval == AstScalar::<S>::FromTranscript(
                    (old(transcript)@.cursor + 4) as u64,
                )
            },
            old(transcript)@.remaining < 5 ==> {
                &&& r == Result::<Self, TranscriptError>::Err(TranscriptError::Exhausted)
                &&& final(transcript)@.cursor == old(transcript)@.cursor + old(
                    transcript,
                )@.remaining
                &&& final(transcript)@.remaining == 0
            },
    {
        let product_eval = match transcript.read_scalar() {
            Ok(s) => s,
            Err(e) => {
                return Err(e);
            },
        };
        let product_next_eval = match transcript.read_scalar() {
            Ok(s) => s,
            Err(e) => {
                return Err(e);
            },
        };
        let permuted_input_eval = match transcript.read_scalar() {
            Ok(s) => s,
            Err(e) => {
                return Err(e);
            },
        };
        let permuted_input_inv_eval = match transcript.read_scalar() {
            Ok(s) => s,
            Err(e) => {
                return Err(e);
            },
        };
        let permuted_table_eval = match transcript.read_scalar() {
            Ok(s) => s,
            Err(e) => {
                return Err(e);
            },
        };
        Ok(
            Evaluated {
                input_expressions: vk.lookups[index].input_expressions.clone(),
                table_expressions: vk.lookups[index].table_expressions.clone(),
                permuted_commitment,
                product_commitment,
                product_eval,
                product_next_eval,
                permuted_input_eval,
                permuted_input_inv_eval,
                permuted_table_eval,
                key: lookup_key(key, index as u64),
            },
        )
    }

    /// Assembles the five opening queries of this lookup: the grand product,
    /// the permuted input column and the permuted table column at the
    /// current row `x`, the permuted input column one row back at `x_inv`
    /// (the sortedness check compares a row to its predecessor), and the
    /// grand product one row forward at `x_next` (the product recurrence
    /// relates a row to its successor). Pure assembly: nothing is read and
    /// nothing is mutated, so the result is a function of the evaluator and
    /// the three points alone.
    pub fn queries(
        &self,
        x: Rc<AstScalar<S>>,
        x_inv: Rc<AstScalar<S>>,
        x_next: Rc<AstScalar<S>>,
    ) -> (r: Vec<EvaluationQuery<S, P>>)
        ensures
            queries_post(*self, x, x_inv, x_next, r@),
    {
        let mut r: Vec<EvaluationQuery<S, P>> = Vec::new();
        r.push(
            EvaluationQuery::new(
                0,
                x.clone(),
                self.key.clone().concat("_product_commitment"),
                self.product_commitment.clone(),
                self.product_eval.clone(),
            ),
        );
        r.push(
            EvaluationQuery::new(
                0,
                x.clone(),
                self.key.clone().concat("_permuted_input_commitment"),
                self.permuted_commitment.permuted_input_commitment.clone(),
                self.permuted_input_eval.clone(),
            ),
        );
        r.push(
            EvaluationQuery::new(
                0,
                x,
                self.key.clone().concat("_permuted_table_commitment"),
                self.permuted_commitment.permuted_table_commitment.clone(),
                self.permuted_table_eval.clone(),
            ),
        );
        r.push(
            EvaluationQuery::new(
                -1,
                x_inv,
                self.key.clone().concat("_permuted_input_commitment"),
                self.permuted_commitment.permuted_input_commitment.clone(),
                self.permuted_input_inv_eval.clone(),
            ),
        );
        r.push(
            EvaluationQuery::new(
                1,
                x_next,
                self.key.clone().concat("_product_commitment"),
                self.product_commitment.clone(),
                self.product_next_eval.clone(),
            ),
        );
        r
    }
}

/// Whether two queries agree in every observable part: rotation, point,
/// key text, commitment and claimed evaluation.
pub open spec fn query_matches<S, P>(a: EvaluationQuery<S, P>, b: EvaluationQuery<S, P>) -> bool {
    &&& a.rotation == b.rotation
    &&& a.point == b.point
    &&& a.key@ == b.key@
    &&& a.commitment == b.commitment
    &&& a.eval == b.eval
}

/// Whether `s` is one of the three suffixes that `queries` appends to the
/// evaluator's key.
pub open spec fn is_query_suffix(s: Seq<char>) -> bool {
    ||| s == "_product_commitment"@
    ||| s == "_permuted_input_commitment"@
    ||| s == "_permuted_table_commitment"@
}

/// Law: two evaluators built with different indices under the same label
/// never produce queries with the same identifying key, whichever of the
/// three suffixes each query carries.
pub proof fn lemma_queries_of_distinct_lookups_never_collide(
    label: Seq<char>,
    i: nat,
    j: nat,
    s1: Seq<char>,
    s2: Seq<char>,
)
    requires
        i != j,
        is_query_suffix(s1),
        is_query_suffix(s2),
    ensures
        spec_lookup_key(label, i) + s1 != spec_lookup_key(label, j) + s2,
{
    reveal_strlit("_product_commitment");
    reveal_strlit("_permuted_input_commitment");
    reveal_strlit("_permuted_table_commitment");
    assert(s1[0] == '_');
    assert(s2[0] == '_');
    crate::labels::lemma_query_key_injective(label, i, j, s1, s2);
}

/// Law: query assembly is idempotent. Two query lists assembled from the
/// same evaluator and the same three points agree element for element.
pub proof fn lemma_queries_idempotent<S, P>(
    e: Evaluated<S, P>,
    x: Rc<AstScalar<S>>,
    x_inv: Rc<AstScalar<S>>,
    x_next: Rc<AstScalar<S>>,
    r1: Seq<EvaluationQuery<S, P>>,
    r2: Seq<EvaluationQuery<S, P>>,
)
    requires
        queries_post(e, x, x_inv, x_next, r1),
        queries_post(e, x, x_inv, x_next, r2),
    ensures
        r1.len() == r2.len(),
        forall|k: int| 0 <= k < r1.len() ==> query_matches(#[trigger] r1[k], #[trigger] r2[k]),
{
    assert forall|k: int| 0 <= k < r1.len() implies query_matches(
        #[trigger] r1[k],
        #[trigger] r2[k],
    ) by {
        assert(k == 0 || k == 1 || k == 2 || k == 3 || k == 4);
    }
}

} // verus!
