use kurobako::error::ErrorKind;
use kurobako::trial::{EvaluatedTrial, IdGen, NextTrial, TrialId};

#[test]
fn id_gen_hands_out_increasing_ids() {
    let mut g = IdGen::new();
    assert_eq!(g.peek_id(), TrialId::new(0));
    assert_eq!(g.generate().get(), 0);
    assert_eq!(g.generate().get(), 1);
    assert_eq!(g.peek_id().get(), 2);
}

#[test]
fn peek_shows_what_generate_hands_out() {
    let mut g = IdGen::new();
    for _ in 0..5 {
        let peeked = g.peek_id();
        let id = g.generate();
        assert_eq!(peeked, id);
    }
    assert_eq!(g.peek_id().get(), 5);
}

#[test]
fn advance_to_skips_forward() {
    let mut g = IdGen::new();
    assert_eq!(g.advance_to(7), Ok(()));
    assert_eq!(g.peek_id().get(), 7);
    assert_eq!(g.advance_to(7), Ok(()));
    assert_eq!(g.generate().get(), 7);
}

#[test]
fn advance_to_refuses_going_back() {
    let mut g = IdGen::new();
    g.generate();
    g.generate();
    assert_eq!(g.advance_to(1), Err(ErrorKind::InvalidInput));
    assert_eq!(g.peek_id().get(), 2);
}

#[test]
fn next_trial_becomes_evaluated() {
    let t = NextTrial { id: TrialId::new(3), params: vec![0.5f64], next_step: Some(10) };
    let e: EvaluatedTrial<f64> = t.evaluated(vec![1.5], 4);
    assert_eq!(e.id, TrialId::new(3));
    assert_eq!(e.values, vec![1.5]);
    assert_eq!(e.current_step, 4);
    let u: EvaluatedTrial<f64> = t.unevaluable();
    assert!(u.values.is_empty());
    assert_eq!(u.current_step, 10);
    let done = NextTrial { id: TrialId::new(4), params: (), next_step: None };
    assert_eq!(done.unevaluable::<f64>().current_step, 0);
}
