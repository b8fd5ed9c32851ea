use loadbench::prober::{all_targets_ready, probe_rounds, ProbeStep, Prober};

#[test]
fn a_round_is_ready_only_when_every_target_answered() {
    assert!(all_targets_ready(&vec![true, true]));
    assert!(!all_targets_ready(&vec![true, false]));
    assert!(!all_targets_ready(&vec![false, false]));
    assert!(all_targets_ready(&vec![]));
}

#[test]
fn prober_stops_at_the_first_fully_ready_round() {
    // Both targets fail twice, then both answer in the third round: the
    // prober succeeds after three attempts (two sleeps), not more.
    let rounds = vec![
        vec![false, false],
        vec![true, false],
        vec![true, true],
        vec![true, true],
        vec![true, true],
    ];
    let r = probe_rounds(&rounds, 5);
    assert!(r.ready);
    assert_eq!(r.attempts_used, 3);
    assert_eq!(r.last_round, vec![true, true]);
}

#[test]
fn prober_gives_up_after_exactly_the_retry_budget() {
    // The second target never answers: failure after exactly max_attempts
    // attempts, and the report names the target that stayed unreachable.
    let rounds: Vec<Vec<bool>> = (0..4).map(|_| vec![true, false]).collect();
    let r = probe_rounds(&rounds, 4);
    assert!(!r.ready);
    assert_eq!(r.attempts_used, 4);
    assert_eq!(r.last_round, vec![true, false]);
}

#[test]
fn prober_succeeds_on_the_first_round_when_all_is_up() {
    let rounds = vec![vec![true, true]];
    let r = probe_rounds(&rounds, 1);
    assert!(r.ready);
    assert_eq!(r.attempts_used, 1);
}

#[test]
fn observe_walks_retry_then_ready() {
    let mut p = Prober::new(30);
    assert_eq!(p.observe(&vec![false, true]), ProbeStep::Retry);
    assert_eq!(p.observe(&vec![false, false]), ProbeStep::Retry);
    assert_eq!(p.observe(&vec![true, true]), ProbeStep::Ready);
    assert_eq!(p.attempts_made, 3);
}

#[test]
fn observe_gives_up_on_the_last_allowed_attempt() {
    let mut p = Prober::new(3);
    assert_eq!(p.observe(&vec![false]), ProbeStep::Retry);
    assert_eq!(p.observe(&vec![false]), ProbeStep::Retry);
    assert_eq!(p.observe(&vec![false]), ProbeStep::GiveUp);
    assert_eq!(p.attempts_made, 3);
}
