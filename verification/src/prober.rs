//! Readiness prober.
//!
//! Before a benchmark run, every target's health endpoint is polled until
//! all targets answered in the same round or a retry budget is exhausted.
//! A target counts as reachable when the request completed at all; the
//! status code does not matter.  The polling itself happens outside the
//! library; what is verified here is the decision logic: when to stop,
//! when to sleep and retry, and when to give up, and that the prober stops
//! as soon as a fully ready round appears and never polls past its budget.

use vstd::prelude::*;

verus! {

/// A round of health probes, one flag per target: true when that target's
/// health request completed.
pub open spec fn round_ready(round: Seq<bool>) -> bool {
    forall|i: int| 0 <= i < round.len() ==> round[i]
}

/// The rounds of a whole probing session as mathematical sequences.
pub open spec fn rounds_view(rounds: Seq<Vec<bool>>) -> Seq<Seq<bool>> {
    rounds.map_values(|v: Vec<bool>| v@)
}

/// True exactly when every target of the round was reachable.
pub fn all_targets_ready(round: &Vec<bool>) -> (b: bool)
    ensures
        b == round_ready(round@),
{
    let n: usize = round.len();
    let mut i: usize = 0;
    while i < n
        invariant
            n == round@.len(),
            i <= n,
            forall|j: int| 0 <= j < i ==> round@[j],
        decreases n - i,
    {
        if !round[i] {
            return false;
        }
        i = i + 1;
    }
    true
}

fn copy_round(round: &Vec<bool>) -> (r: Vec<bool>)
    ensures
        r@ == round@,
{
    let n: usize = round.len();
    let mut r: Vec<bool> = Vec::new();
    let mut i: usize = 0;
    while i < n
        invariant
            n == round@.len(),
            i <= n,
            r@ =~= round@.take(i as int),
        decreases n - i,
    {
        r.push(round[i]);
        i = i + 1;
    }
    proof {
        assert(round@.take(n as int) =~= round@);
    }
    r
}

/// What the prober decides after seeing one round of probe results.
#[derive(Clone, Copy, PartialEq, Eq, Structural, Debug)]
pub enum ProbeStep {
    /// Every target answered in this round: the benchmark may start.
    Ready,
    /// Not all targets answered and attempts are left: sleep, then probe
    /// again.
    Retry,
    /// Not all targets answered and the budget is spent: abort the run.
    GiveUp,
}

/// The prober's state between rounds: its retry budget and how many rounds
/// it has seen.  The loop that issues the probes and sleeps lives outside
/// the library and feeds each round's results into `observe`.
#[derive(Clone, Copy, PartialEq, Eq, Structural, Debug)]
pub struct Prober {
    pub max_attempts: usize,
    pub attempts_made: usize,
}

impl Prober {
    pub fn new(max_attempts: usize) -> (p: Prober)
        requires
            max_attempts >= 1,
        ensures
            p.max_attempts == max_attempts,
            p.attempts_made == 0,
    {
        Prober { max_attempts, attempts_made: 0 }
    }

    /// One transition of the prober: count the round, stop the moment all
    /// targets are ready, give up exactly when the budget is spent without
    /// that, and retry otherwise.
    pub fn observe(&mut self, round: &Vec<bool>) -> (d: ProbeStep)
        requires
            old(self).attempts_made < old(self).max_attempts,
        ensures
            final(self).max_attempts == old(self).max_attempts,
            final(self).attempts_made == old(self).attempts_made + 1,
            (d == ProbeStep::Ready) <==> round_ready(round@),
            (d == ProbeStep::GiveUp) <==> (!round_ready(round@) && old(self).attempts_made + 1
                == old(self).max_attempts),
            (d == ProbeStep::Retry) <==> (!round_ready(round@) && old(self).attempts_made + 1
                < old(self).max_attempts),
    {
        self.attempts_made = self.attempts_made + 1;
        if all_targets_ready(round) {
            ProbeStep::Ready
        } else if self.attempts_made == self.max_attempts {
            ProbeStep::GiveUp
        } else {
            ProbeStep::Retry
        }
    }
}

/// How a whole probing session ended: whether all targets became ready,
/// after how many attempts the prober stopped, and the last round it saw
/// (on failure, the false entries name the targets that never answered).
#[derive(Clone, Debug)]
pub struct ProbeReport {
    pub ready: bool,
    pub attempts_used: usize,
    pub last_round: Vec<bool>,
}

/// The prober's decision over a recorded session: `rounds[i]` holds what a
/// probe of every target in round `i` would find.  The prober succeeds
/// exactly when some round within the budget is fully ready; it stops at
/// the first such round, so a target set that becomes ready in round `k`
/// costs at most `k + 1` attempts (and `k` sleeps); and when no round
/// within the budget is ready it fails after exactly `max_attempts`
/// attempts, reporting the targets of the last round that never answered.
pub fn probe_rounds(rounds: &Vec<Vec<bool>>, max_attempts: usize) -> (r: ProbeReport)
    requires
        max_attempts >= 1,
        rounds@.len() >= max_attempts,
    ensures
        r.ready == exists|i: int|
            0 <= i < max_attempts && #[trigger] round_ready(rounds_view(rounds@)[i]),
        r.ready ==> 1 <= r.attempts_used <= max_attempts && round_ready(
            rounds_view(rounds@)[r.attempts_used - 1],
        ),
        forall|j: int|
            0 <= j < r.attempts_used - 1 ==> !round_ready(#[trigger] rounds_view(rounds@)[j]),
        forall|k: int|
            0 <= k < max_attempts && round_ready(#[trigger] rounds_view(rounds@)[k])
                ==> r.attempts_used <= k + 1,
        !r.ready ==> r.attempts_used == max_attempts,
        r.last_round@ == rounds_view(rounds@)[r.attempts_used - 1],
{
    let mut i: usize = 0;
    while i < max_attempts
        invariant
            max_attempts >= 1,
            rounds@.len() >= max_attempts,
            i <= max_attempts,
            forall|j: int| 0 <= j < i ==> !round_ready(#[trigger] rounds_view(rounds@)[j]),
        decreases max_attempts - i,
    {
        let ready = all_targets_ready(&rounds[i]);
        proof {
            assert(rounds_view(rounds@)[i as int] == rounds@[i as int]@);
        }
        if ready {
            return ProbeReport {
                ready: true,
                attempts_used: i + 1,
                last_round: copy_round(&rounds[i]),
            };
        }
        i = i + 1;
    }
    ProbeReport {
        ready: false,
        attempts_used: max_attempts,
        last_round: copy_round(&rounds[max_attempts - 1]),
    }
}

} // verus!
