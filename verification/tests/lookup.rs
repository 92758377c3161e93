use plonk_ast::arith::point_const;
use plonk_ast::arith::AstPoint;
use plonk_ast::arith::AstScalar;
use plonk_ast::keys::LookupArgument;
use plonk_ast::keys::VerifyingKey;
use plonk_ast::lookup::Evaluated;
use plonk_ast::lookup::PermutedCommitments;
use plonk_ast::query::EvaluationQuery;
use plonk_ast::transcript::AstTranscript;
use plonk_ast::transcript::TranscriptError;
use std::rc::Rc;

fn test_vk(lookups: usize) -> VerifyingKey<u64> {
    let mut v = Vec::new();
    for _ in 0..lookups {
        v.push(LookupArgument {
            input_expressions: Rc::new(Vec::new()),
            table_expressions: Rc::new(Vec::new()),
        });
    }
    VerifyingKey { lookups: v }
}

fn test_commitments() -> PermutedCommitments<u64, u64> {
    PermutedCommitments {
        permuted_input_commitment: point_const(11),
        permuted_table_commitment: point_const(22),
    }
}

fn build(
    index: usize,
    label: &str,
    transcript: &mut AstTranscript,
) -> Result<Evaluated<u64, u64>, TranscriptError> {
    let vk = test_vk(index + 1);
    Evaluated::build_from_transcript(
        index,
        test_commitments(),
        point_const(33),
        label,
        &vk,
        transcript,
    )
}

#[test]
fn build_consumes_exactly_five() {
    for n in [5u64, 6, 9, 1000] {
        let mut t = AstTranscript::new(n);
        let ev = build(0, "main", &mut t).unwrap();
        assert_eq!(t.cursor(), 5);
        assert_eq!(t.remaining(), n - 5);
        assert!(matches!(*ev.product_eval, AstScalar::FromTranscript(0)));
        assert!(matches!(*ev.product_next_eval, AstScalar::FromTranscript(1)));
        assert!(matches!(*ev.permuted_input_eval, AstScalar::FromTranscript(2)));
        assert!(matches!(*ev.permuted_input_inv_eval, AstScalar::FromTranscript(3)));
        assert!(matches!(*ev.permuted_table_eval, AstScalar::FromTranscript(4)));
    }
}

#[test]
fn build_fails_on_short_transcript() {
    for n in [0u64, 1, 4] {
        let mut t = AstTranscript::new(n);
        let r = build(0, "main", &mut t);
        assert!(matches!(r, Err(TranscriptError::Exhausted)));
        assert_eq!(t.remaining(), 0);
        assert_eq!(t.cursor(), n);
    }
}

fn challenge_points() -> (Rc<AstScalar<u64>>, Rc<AstScalar<u64>>, Rc<AstScalar<u64>>) {
    let mut t = AstTranscript::new(0);
    (t.squeeze_challenge(), t.squeeze_challenge(), t.squeeze_challenge())
}

#[test]
fn queries_rotations_and_points() {
    let mut t = AstTranscript::new(5);
    let ev = build(0, "main", &mut t).unwrap();
    let (x, x_inv, x_next) = challenge_points();
    let qs = ev.queries(x.clone(), x_inv.clone(), x_next.clone());
    assert_eq!(qs.len(), 5);
    let rotations: Vec<i32> = qs.iter().map(|q| q.rotation).collect();
    assert_eq!(rotations, vec![0, 0, 0, -1, 1]);
    let expected_points = [&x, &x, &x, &x_inv, &x_next];
    for (q, p) in qs.iter().zip(expected_points.iter()) {
        assert!(Rc::ptr_eq(&q.point, p));
    }
}

#[test]
fn queries_commitments_reference_identical() {
    let mut t = AstTranscript::new(5);
    let ev = build(0, "main", &mut t).unwrap();
    let (x, x_inv, x_next) = challenge_points();
    let qs = ev.queries(x, x_inv, x_next);
    assert!(Rc::ptr_eq(&qs[0].commitment, &ev.product_commitment));
    assert!(Rc::ptr_eq(
        &qs[1].commitment,
        &ev.permuted_commitment.permuted_input_commitment
    ));
    assert!(Rc::ptr_eq(
        &qs[2].commitment,
        &ev.permuted_commitment.permuted_table_commitment
    ));
    assert!(Rc::ptr_eq(
        &qs[3].commitment,
        &ev.permuted_commitment.permuted_input_commitment
    ));
    assert!(Rc::ptr_eq(&qs[4].commitment, &ev.product_commitment));
    assert!(Rc::ptr_eq(&qs[0].eval, &ev.product_eval));
    assert!(Rc::ptr_eq(&qs[1].eval, &ev.permuted_input_eval));
    assert!(Rc::ptr_eq(&qs[2].eval, &ev.permuted_table_eval));
    assert!(Rc::ptr_eq(&qs[3].eval, &ev.permuted_input_inv_eval));
    assert!(Rc::ptr_eq(&qs[4].eval, &ev.product_next_eval));
}

#[test]
fn keys_unique_across_indices() {
    let mut t = AstTranscript::new(10);
    let ev0 = build(0, "main", &mut t).unwrap();
    let ev1 = build(1, "main", &mut t).unwrap();
    assert_eq!(ev0.key, "main_lookup_0");
    assert_eq!(ev1.key, "main_lookup_1");
    let (x, x_inv, x_next) = challenge_points();
    let q0 = ev0.queries(x.clone(), x_inv.clone(), x_next.clone());
    let q1 = ev1.queries(x, x_inv, x_next);
    for a in q0.iter() {
        for b in q1.iter() {
            assert_ne!(a.key, b.key);
        }
    }
}

fn assert_same_query(a: &EvaluationQuery<u64, u64>, b: &EvaluationQuery<u64, u64>) {
    assert_eq!(a.rotation, b.rotation);
    assert!(Rc::ptr_eq(&a.point, &b.point));
    assert_eq!(a.key, b.key);
    assert!(Rc::ptr_eq(&a.commitment, &b.commitment));
    assert!(Rc::ptr_eq(&a.eval, &b.eval));
}

#[test]
fn queries_idempotent() {
    let mut t = AstTranscript::new(5);
    let ev = build(0, "main", &mut t).unwrap();
    let (x, x_inv, x_next) = challenge_points();
    let first = ev.queries(x.clone(), x_inv.clone(), x_next.clone());
    let second = ev.queries(x, x_inv, x_next);
    assert_eq!(first.len(), second.len());
    for (a, b) in first.iter().zip(second.iter()) {
        assert_same_query(a, b);
    }
}

#[test]
fn end_to_end_known_transcript() {
    let mut t = AstTranscript::new(5);
    let ev = build(2, "t", &mut t).unwrap();
    assert_eq!(ev.key, "t_lookup_2");
    assert_eq!(t.remaining(), 0);
    // The five placeholders, in the order the prover wrote them.
    let p = 0u64;
    let pn = 1u64;
    let pi = 2u64;
    let pii = 3u64;
    let pt = 4u64;
    let (x, x_inv, x_next) = challenge_points();
    let qs = ev.queries(x.clone(), x_inv.clone(), x_next.clone());
    let expected: [(i32, &Rc<AstScalar<u64>>, &str, u64); 5] = [
        (0, &x, "t_lookup_2_product_commitment", p),
        (0, &x, "t_lookup_2_permuted_input_commitment", pi),
        (0, &x, "t_lookup_2_permuted_table_commitment", pt),
        (-1, &x_inv, "t_lookup_2_permuted_input_commitment", pii),
        (1, &x_next, "t_lookup_2_product_commitment", pn),
    ];
    for (q, (rot, pointer, key, read_order)) in qs.iter().zip(expected.iter()) {
        assert_eq!(q.rotation, *rot);
        assert!(Rc::ptr_eq(&q.point, pointer));
        assert_eq!(q.key, *key);
        match *q.eval {
            AstScalar::FromTranscript(n) => assert_eq!(n, *read_order),
            _ => panic!("claimed evaluation is not a transcript read"),
        }
    }
}

#[test]
fn expressions_shared_not_rebuilt() {
    let vk = test_vk(3);
    let mut t = AstTranscript::new(5);
    let ev: Evaluated<u64, u64> = Evaluated::build_from_transcript(
        1,
        test_commitments(),
        point_const(33),
        "main",
        &vk,
        &mut t,
    )
    .unwrap();
    assert!(Rc::ptr_eq(&ev.input_expressions, &vk.lookups[1].input_expressions));
    assert!(Rc::ptr_eq(&ev.table_expressions, &vk.lookups[1].table_expressions));
}

#[test]
fn commitments_survive_construction() {
    let input: Rc<AstPoint<u64, u64>> = point_const(7);
    let table: Rc<AstPoint<u64, u64>> = point_const(8);
    let product: Rc<AstPoint<u64, u64>> = point_const(9);
    let pc = PermutedCommitments {
        permuted_input_commitment: input.clone(),
        permuted_table_commitment: table.clone(),
    };
    let vk = test_vk(1);
    let mut t = AstTranscript::new(5);
    let ev = Evaluated::build_from_transcript(0, pc, product.clone(), "z", &vk, &mut t).unwrap();
    assert!(Rc::ptr_eq(&ev.permuted_commitment.permuted_input_commitment, &input));
    assert!(Rc::ptr_eq(&ev.permuted_commitment.permuted_table_commitment, &table));
    assert!(Rc::ptr_eq(&ev.product_commitment, &product));
}
