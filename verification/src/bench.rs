//! Load generator core.
//!
//! A fixed request budget is split evenly across a pool of workers; each
//! worker reports how many of its requests succeeded and how much time the
//! requests took in total; the reports are folded into one record and turned
//! into throughput and success statistics.  All statistics are integers in
//! fixed sub-units (basis points of the success percentage, nanoseconds,
//! thousandths of a request per second) so that every formula is exact.

use vstd::prelude::*;

verus! {

use vstd::arithmetic::div_mod::{
    lemma_fundamental_div_mod,
    lemma_div_by_multiple,
    lemma_multiply_divide_lt,
    lemma_div_pos_is_pos,
    lemma_remainder_lower,
};

/// One issued request as its worker observed it: whether the response came
/// back with a success (2xx) status, and the time from sending the request
/// to its completion, in nanoseconds.  Transport errors and non-2xx
/// responses are samples with `success == false`; they are never an error.
#[derive(Clone, Copy, PartialEq, Eq, Structural, Debug)]
pub struct RequestSample {
    pub success: bool,
    pub elapsed_ns: u64,
}

/// What one worker reports after finishing its whole batch: how many
/// requests it issued, how many succeeded, and the summed elapsed time of
/// all its requests in nanoseconds.
#[derive(Clone, Copy, PartialEq, Eq, Structural, Debug)]
pub struct WorkerOutcome {
    pub requests: u64,
    pub successes: u64,
    pub elapsed_ns: u128,
}

/// Aggregate statistics for one (target, scenario) run.  The derived fields
/// are exact integer forms of the usual ratios: `success_rate_bp` is the
/// success percentage in basis points (hundredths of a percent, 0..=10000),
/// `avg_response_time_ns` the mean per-request latency in nanoseconds, and
/// `requests_per_second_milli` the throughput in thousandths of a request
/// per second.
#[derive(Clone, Debug)]
pub struct BenchmarkResult {
    pub framework: String,
    pub endpoint: String,
    pub total_requests: usize,
    pub concurrency: usize,
    pub total_time_ms: u128,
    pub avg_response_time_ns: u128,
    pub requests_per_second_milli: u128,
    pub success_rate_bp: u64,
}

/// How many of the samples were successes.
pub open spec fn success_count(s: Seq<RequestSample>) -> int
    decreases s.len(),
{
    if s.len() == 0 {
        0
    } else {
        success_count(s.drop_last()) + if s.last().success {
            1int
        } else {
            0int
        }
    }
}

/// Summed elapsed time of the samples, in nanoseconds.
pub open spec fn elapsed_total(s: Seq<RequestSample>) -> int
    decreases s.len(),
{
    if s.len() == 0 {
        0
    } else {
        elapsed_total(s.drop_last()) + s.last().elapsed_ns
    }
}

/// A worker outcome is well formed when its successes do not exceed its
/// request count and its elapsed time is at most one maximal sample per
/// request.  Every outcome built by `summarize_worker` satisfies this.
pub open spec fn outcome_wf(o: WorkerOutcome) -> bool {
    &&& o.successes <= o.requests
    &&& o.elapsed_ns as int <= o.requests as int * u64::MAX as int
}

pub open spec fn outcomes_wf(s: Seq<WorkerOutcome>) -> bool {
    forall|i: int| 0 <= i < s.len() ==> outcome_wf(#[trigger] s[i])
}

pub open spec fn total_requests_of(s: Seq<WorkerOutcome>) -> int
    decreases s.len(),
{
    if s.len() == 0 {
        0
    } else {
        total_requests_of(s.drop_last()) + s.last().requests
    }
}

pub open spec fn total_successes_of(s: Seq<WorkerOutcome>) -> int
    decreases s.len(),
{
    if s.len() == 0 {
        0
    } else {
        total_successes_of(s.drop_last()) + s.last().successes
    }
}

pub open spec fn total_elapsed_of(s: Seq<WorkerOutcome>) -> int
    decreases s.len(),
{
    if s.len() == 0 {
        0
    } else {
        total_elapsed_of(s.drop_last()) + s.last().elapsed_ns
    }
}

pub proof fn lemma_success_count_bounds(s: Seq<RequestSample>)
    ensures
        0 <= success_count(s) <= s.len(),
    decreases s.len(),
{
    if s.len() > 0 {
        lemma_success_count_bounds(s.drop_last());
    }
}

pub proof fn lemma_elapsed_total_bounds(s: Seq<RequestSample>)
    ensures
        0 <= elapsed_total(s) <= s.len() * u64::MAX as int,
    decreases s.len(),
{
    if s.len() > 0 {
        lemma_elapsed_total_bounds(s.drop_last());
        assert((s.len() - 1) * u64::MAX as int + u64::MAX as int == s.len() * u64::MAX as int)
            by (nonlinear_arith);
    }
}

/// Summed request counts, successes and elapsed time of the outcomes are
/// non-negative, successes stay below the request total, and the elapsed
/// total is at most one maximal sample per counted request.
pub proof fn lemma_outcome_sums_bounds(s: Seq<WorkerOutcome>)
    requires
        outcomes_wf(s),
    ensures
        0 <= total_successes_of(s) <= total_requests_of(s),
        0 <= total_elapsed_of(s) <= total_requests_of(s) * u64::MAX as int,
    decreases s.len(),
{
    if s.len() > 0 {
        assert(outcomes_wf(s.drop_last()));
        lemma_outcome_sums_bounds(s.drop_last());
        let r0 = total_requests_of(s.drop_last());
        let last = s.last();
        assert(r0 * u64::MAX as int + last.requests as int * u64::MAX as int == (r0
            + last.requests as int) * u64::MAX as int) by (nonlinear_arith);
    }
}

/// A prefix of the outcomes never sums to more than the whole.
pub proof fn lemma_outcome_prefix_bounds(s: Seq<WorkerOutcome>, i: int)
    requires
        0 <= i <= s.len(),
    ensures
        total_requests_of(s.take(i)) <= total_requests_of(s),
    decreases s.len(),
{
    if i < s.len() {
        assert(s.take(i) =~= s.drop_last().take(i));
        lemma_outcome_prefix_bounds(s.drop_last(), i);
    } else {
        assert(s.take(i) =~= s);
    }
}

/// Splits a request budget evenly: how many requests each of the
/// `concurrency` workers issues.  The division truncates; the remainder
/// `total_requests % concurrency` is dropped from the run.
pub fn per_worker_requests(total_requests: usize, concurrency: usize) -> (r: usize)
    requires
        concurrency > 0,
    ensures
        r == total_requests as int / concurrency as int,
{
    total_requests / concurrency
}

pub open spec fn batch_total(s: Seq<usize>) -> int
    decreases s.len(),
{
    if s.len() == 0 {
        0
    } else {
        batch_total(s.drop_last()) + s.last()
    }
}

/// The number of requests a run with this budget and worker count issues:
/// every worker gets the same truncated share, so exactly
/// `concurrency * (total_requests / concurrency)` requests go out, never
/// more, and the remainder of the division is silently never issued.
pub proof fn lemma_issued_request_count(total_requests: int, concurrency: int)
    requires
        concurrency >= 1,
        total_requests >= 0,
    ensures
        0 <= concurrency * (total_requests / concurrency) <= total_requests,
        total_requests - concurrency * (total_requests / concurrency) < concurrency,
{
    lemma_fundamental_div_mod(total_requests, concurrency);
    lemma_remainder_lower(total_requests, concurrency);
    lemma_div_pos_is_pos(total_requests, concurrency);
    assert(concurrency * (total_requests / concurrency) == (total_requests / concurrency)
        * concurrency) by (nonlinear_arith);
    assert(total_requests / concurrency >= 0 ==> (total_requests / concurrency) * concurrency
        >= 0) by (nonlinear_arith)
        requires
            concurrency >= 1,
    ;
}

/// The per-worker assignment of the budget: one entry per worker, each the
/// truncated even share.  The sum of the entries is the exact number of
/// requests the run issues.
pub fn worker_batch_sizes(total_requests: usize, concurrency: usize) -> (v: Vec<usize>)
    requires
        concurrency > 0,
    ensures
        v@.len() == concurrency,
        forall|i: int|
            0 <= i < v@.len() ==> #[trigger] v@[i] == total_requests as int / concurrency as int,
        batch_total(v@) == concurrency as int * (total_requests as int / concurrency as int),
        batch_total(v@) <= total_requests,
{
    let share: usize = total_requests / concurrency;
    let mut v: Vec<usize> = Vec::new();
    let mut i: usize = 0;
    while i < concurrency
        invariant
            i <= concurrency,
            v@.len() == i,
            forall|j: int| 0 <= j < v@.len() ==> #[trigger] v@[j] == share,
            batch_total(v@) == i as int * share as int,
            share == total_requests as int / concurrency as int,
        decreases concurrency - i,
    {
        let ghost old_v = v@;
        v.push(share);
        proof {
            assert(v@.drop_last() =~= old_v);
            assert(i as int * share as int + share as int == (i + 1) as int * share as int)
                by (nonlinear_arith);
        }
        i = i + 1;
    }
    proof {
        lemma_issued_request_count(total_requests as int, concurrency as int);
    }
    v
}

/// Folds the samples of one worker's batch into its outcome record.  This is
/// the per-worker accumulation of the run: every sample's elapsed time is
/// counted, and only successful samples raise the success counter.
pub fn summarize_worker(samples: &Vec<RequestSample>) -> (o: WorkerOutcome)
    ensures
        o.requests == samples@.len(),
        o.successes == success_count(samples@),
        o.elapsed_ns == elapsed_total(samples@),
        outcome_wf(o),
{
    let n: usize = samples.len();
    let mut successes: u64 = 0;
    let mut elapsed: u128 = 0;
    let mut i: usize = 0;
    while i < n
        invariant
            n == samples@.len(),
            i <= n,
            successes == success_count(samples@.take(i as int)),
            elapsed == elapsed_total(samples@.take(i as int)),
        decreases n - i,
    {
        proof {
            lemma_success_count_bounds(samples@.take(i as int));
            lemma_elapsed_total_bounds(samples@.take(i as int));
            assert(i as int * u64::MAX as int + u64::MAX as int <= u64::MAX as int
                * u64::MAX as int) by (nonlinear_arith)
                requires
                    0 <= i as int && (i as int) < u64::MAX as int,
            ;
        }
        let s = samples[i];
        if s.success {
            successes = successes + 1;
        }
        elapsed = elapsed + s.elapsed_ns as u128;
        proof {
            assert(samples@.take(i as int + 1).drop_last() =~= samples@.take(i as int));
        }
        i = i + 1;
    }
    proof {
        assert(samples@.take(n as int) =~= samples@);
        lemma_success_count_bounds(samples@);
        lemma_elapsed_total_bounds(samples@);
        assert(n as int * u64::MAX as int <= u64::MAX as int * u64::MAX as int)
            by (nonlinear_arith)
            requires
                0 <= n as int && (n as int) <= u64::MAX as int,
        ;
    }
    WorkerOutcome { requests: n as u64, successes, elapsed_ns: elapsed }
}

/// True exactly when every outcome is well formed and the summed request
/// count fits a worker counter.  The fold `merge_outcomes` asks for this;
/// callers that received the outcomes from elsewhere check here first.
pub fn outcomes_well_formed(outcomes: &Vec<WorkerOutcome>) -> (b: bool)
    ensures
        b == (outcomes_wf(outcomes@) && total_requests_of(outcomes@) <= u64::MAX),
{
    let n: usize = outcomes.len();
    let mut requests: u128 = 0;
    let mut i: usize = 0;
    while i < n
        invariant
            n == outcomes@.len(),
            i <= n,
            outcomes_wf(outcomes@.take(i as int)),
            requests == total_requests_of(outcomes@.take(i as int)),
            requests <= u64::MAX,
        decreases n - i,
    {
        let o = outcomes[i];
        let elapsed_cap: u128 = (o.requests as u128) * (u64::MAX as u128);
        if o.successes > o.requests || o.elapsed_ns > elapsed_cap {
            proof {
                assert(!outcome_wf(outcomes@[i as int]));
            }
            return false;
        }
        if o.requests as u128 > (u64::MAX as u128) - requests {
            proof {
                assert(outcomes@.take(i as int + 1).drop_last() =~= outcomes@.take(i as int));
                assert(outcomes_wf(outcomes@.take(i as int + 1)));
                lemma_outcome_sums_bounds(outcomes@.take(i as int + 1));
                lemma_outcome_prefix_bounds(outcomes@, i as int + 1);
                assert(total_requests_of(outcomes@) > u64::MAX);
            }
            return false;
        }
        requests = requests + o.requests as u128;
        proof {
            assert(outcomes@.take(i as int + 1).drop_last() =~= outcomes@.take(i as int));
        }
        i = i + 1;
    }
    proof {
        assert(outcomes@.take(n as int) =~= outcomes@);
    }
    true
}

/// The fan-in of the run: folds all workers' outcomes into one record by
/// plain addition, exactly as the single-threaded aggregation after the
/// join barrier does.  No outcome is lost and none is counted twice.
pub fn merge_outcomes(outcomes: &Vec<WorkerOutcome>) -> (t: WorkerOutcome)
    requires
        outcomes_wf(outcomes@),
        total_requests_of(outcomes@) <= u64::MAX,
    ensures
        t.requests == total_requests_of(outcomes@),
        t.successes == total_successes_of(outcomes@),
        t.elapsed_ns == total_elapsed_of(outcomes@),
        outcome_wf(t),
{
    let n: usize = outcomes.len();
    let mut requests: u64 = 0;
    let mut successes: u64 = 0;
    let mut elapsed: u128 = 0;
    let mut i: usize = 0;
    while i < n
        invariant
            n == outcomes@.len(),
            i <= n,
            outcomes_wf(outcomes@),
            total_requests_of(outcomes@) <= u64::MAX,
            requests == total_requests_of(outcomes@.take(i as int)),
            successes == total_successes_of(outcomes@.take(i as int)),
            elapsed == total_elapsed_of(outcomes@.take(i as int)),
        decreases n - i,
    {
        proof {
            assert(outcomes@.take(i as int + 1).drop_last() =~= outcomes@.take(i as int));
            assert(outcomes_wf(outcomes@.take(i as int + 1)));
            lemma_outcome_sums_bounds(outcomes@.take(i as int + 1));
            lemma_outcome_prefix_bounds(outcomes@, i as int + 1);
            assert(total_requests_of(outcomes@.take(i as int + 1)) <= u64::MAX);
            assert((total_requests_of(outcomes@.take(i as int + 1))) * u64::MAX as int
                <= u64::MAX as int * u64::MAX as int) by (nonlinear_arith)
                requires
                    0 <= total_requests_of(outcomes@.take(i as int + 1)) <= u64::MAX as int,
            ;
        }
        let o = outcomes[i];
        requests = requests + o.requests;
        successes = successes + o.successes;
        elapsed = elapsed + o.elapsed_ns;
        i = i + 1;
    }
    proof {
        assert(outcomes@.take(n as int) =~= outcomes@);
        lemma_outcome_sums_bounds(outcomes@);
        assert((total_requests_of(outcomes@)) * u64::MAX as int <= u64::MAX as int
            * u64::MAX as int) by (nonlinear_arith)
            requires
                0 <= total_requests_of(outcomes@) <= u64::MAX as int,
        ;
    }
    WorkerOutcome { requests, successes, elapsed_ns: elapsed }
}

/// The success percentage in basis points is exact integer arithmetic:
/// it always lies in the closed range 0 to 10000, and it reaches 10000
/// exactly when every counted request succeeded.
pub proof fn lemma_success_rate_bounds(successes: int, total: int)
    requires
        0 <= successes <= total,
        1 <= total,
    ensures
        0 <= successes * 10000 / total <= 10000,
        (successes * 10000 / total == 10000) <==> (successes == total),
{
    assert(successes * 10000 >= 0) by (nonlinear_arith)
        requires
            successes >= 0,
    ;
    lemma_div_pos_is_pos(successes * 10000, total);
    if successes == total {
        lemma_div_by_multiple(10000, total);
        assert(successes * 10000 == 10000 * total) by (nonlinear_arith)
            requires
                successes == total,
        ;
    } else {
        assert(successes * 10000 < total * 10000) by (nonlinear_arith)
            requires
                0 <= successes < total,
        ;
        lemma_multiply_divide_lt(successes * 10000, total, 10000);
    }
}

/// Derives the presented statistics from the merged outcome of a run and
/// the measured wall-clock time.  Every derived field is an exact integer
/// formula over the inputs: the success rate in basis points, the mean
/// latency in nanoseconds, the throughput in thousandths of a request per
/// second (total requests divided by wall-clock seconds), and the total
/// wall-clock time in milliseconds.
pub fn compute_result(
    framework: String,
    endpoint: String,
    total_requests: usize,
    concurrency: usize,
    totals: &WorkerOutcome,
    wall_time_ns: u128,
) -> (r: BenchmarkResult)
    requires
        total_requests > 0,
        concurrency > 0,
        wall_time_ns > 0,
        outcome_wf(*totals),
        totals.successes <= total_requests,
    ensures
        r.framework == framework,
        r.endpoint == endpoint,
        r.total_requests == total_requests,
        r.concurrency == concurrency,
        r.total_time_ms == wall_time_ns as int / 1_000_000,
        r.avg_response_time_ns == totals.elapsed_ns as int / total_requests as int,
        r.requests_per_second_milli == total_requests as int * 1_000_000_000_000
            / wall_time_ns as int,
        r.success_rate_bp == totals.successes as int * 10000 / total_requests as int,
        r.success_rate_bp <= 10000,
        (r.success_rate_bp == 10000) <==> (totals.successes == total_requests),
{
    proof {
        lemma_success_rate_bounds(totals.successes as int, total_requests as int);
        assert(totals.successes as int * 10000 <= u64::MAX as int * 10000 < u128::MAX as int)
            by (nonlinear_arith)
            requires
                0 <= totals.successes as int && (totals.successes as int) <= u64::MAX as int,
        ;
        assert(total_requests as int * 1_000_000_000_000 <= u64::MAX as int * 1_000_000_000_000
            < u128::MAX as int) by (nonlinear_arith)
            requires
                0 <= total_requests as int && (total_requests as int) <= u64::MAX as int,
        ;
    }
    let rate_bp: u128 = (totals.successes as u128) * 10000u128 / (total_requests as u128);
    let avg_ns: u128 = totals.elapsed_ns / (total_requests as u128);
    let rps_milli: u128 = (total_requests as u128) * 1_000_000_000_000u128 / wall_time_ns;
    BenchmarkResult {
        framework,
        endpoint,
        total_requests,
        concurrency,
        total_time_ms: wall_time_ns / 1_000_000u128,
        avg_response_time_ns: avg_ns,
        requests_per_second_milli: rps_milli,
        success_rate_bp: rate_bp as u64,
    }
}

/// The batches of a whole run, worker by worker, as mathematical sequences.
pub open spec fn samples_view(ws: Seq<Vec<RequestSample>>) -> Seq<Seq<RequestSample>> {
    ws.map_values(|v: Vec<RequestSample>| v@)
}

/// How many samples the whole run holds.
pub open spec fn run_sample_count(ws: Seq<Seq<RequestSample>>) -> int
    decreases ws.len(),
{
    if ws.len() == 0 {
        0
    } else {
        run_sample_count(ws.drop_last()) + ws.last().len()
    }
}

/// How many samples of the whole run were successes.
pub open spec fn run_success_count(ws: Seq<Seq<RequestSample>>) -> int
    decreases ws.len(),
{
    if ws.len() == 0 {
        0
    } else {
        run_success_count(ws.drop_last()) + success_count(ws.last())
    }
}

/// Summed elapsed time of the whole run, in nanoseconds.
pub open spec fn run_elapsed_total(ws: Seq<Seq<RequestSample>>) -> int
    decreases ws.len(),
{
    if ws.len() == 0 {
        0
    } else {
        run_elapsed_total(ws.drop_last()) + elapsed_total(ws.last())
    }
}

pub open spec fn all_samples_succeed(ws: Seq<Seq<RequestSample>>) -> bool {
    forall|i: int, j: int|
        0 <= i < ws.len() && 0 <= j < ws[i].len() ==> (#[trigger] ws[i][j]).success
}

pub proof fn lemma_row_all_success(s: Seq<RequestSample>)
    requires
        forall|j: int| 0 <= j < s.len() ==> (#[trigger] s[j]).success,
    ensures
        success_count(s) == s.len(),
    decreases s.len(),
{
    if s.len() > 0 {
        lemma_row_all_success(s.drop_last());
    }
}

pub proof fn lemma_all_success_count(ws: Seq<Seq<RequestSample>>)
    requires
        all_samples_succeed(ws),
    ensures
        run_success_count(ws) == run_sample_count(ws),
    decreases ws.len(),
{
    if ws.len() > 0 {
        assert(all_samples_succeed(ws.drop_last()));
        lemma_all_success_count(ws.drop_last());
        assert(forall|j: int| 0 <= j < ws.last().len() ==> (#[trigger] ws.last()[j]).success);
        lemma_row_all_success(ws.last());
    }
}

/// Against a target that answers every request with a success status, the
/// success rate of a run that issued its whole budget is the full 10000
/// basis points, whatever the concurrency was: the rate depends only on
/// the counts, not on how the budget was split.
pub proof fn lemma_all_success_full_rate(ws: Seq<Seq<RequestSample>>, total_requests: int)
    requires
        all_samples_succeed(ws),
        run_sample_count(ws) == total_requests,
        total_requests >= 1,
    ensures
        run_success_count(ws) * 10000 / total_requests == 10000,
{
    lemma_all_success_count(ws);
    lemma_success_rate_bounds(run_success_count(ws), total_requests);
}

/// The fan-out/fan-in of one run, after the fact: given the recorded
/// batches of all workers (one inner vector per worker, each holding that
/// worker's even share of the budget) and the measured wall-clock time,
/// folds every batch, merges the outcomes and derives the statistics, just
/// as the concurrent run does between spawn and table row.
pub fn summarize_run(
    framework: String,
    endpoint: String,
    total_requests: usize,
    concurrency: usize,
    worker_samples: &Vec<Vec<RequestSample>>,
    wall_time_ns: u128,
) -> (r: BenchmarkResult)
    requires
        total_requests > 0,
        concurrency > 0,
        wall_time_ns > 0,
        worker_samples@.len() == concurrency,
        forall|i: int|
            0 <= i < worker_samples@.len() ==> (#[trigger] worker_samples@[i])@.len()
                == total_requests as int / concurrency as int,
    ensures
        r.framework == framework,
        r.endpoint == endpoint,
        r.total_requests == total_requests,
        r.concurrency == concurrency,
        r.total_time_ms == wall_time_ns as int / 1_000_000,
        r.avg_response_time_ns == run_elapsed_total(samples_view(worker_samples@))
            / total_requests as int,
        r.requests_per_second_milli == total_requests as int * 1_000_000_000_000
            / wall_time_ns as int,
        r.success_rate_bp == run_success_count(samples_view(worker_samples@)) * 10000
            / total_requests as int,
        r.success_rate_bp <= 10000,
        (r.success_rate_bp == 10000) <==> (run_success_count(samples_view(worker_samples@))
            == total_requests),
{
    let ghost sv = samples_view(worker_samples@);
    let share: usize = total_requests / concurrency;
    let n: usize = worker_samples.len();
    let mut outcomes: Vec<WorkerOutcome> = Vec::new();
    let mut i: usize = 0;
    while i < n
        invariant
            n == worker_samples@.len(),
            i <= n,
            sv == samples_view(worker_samples@),
            share == total_requests as int / concurrency as int,
            forall|k: int|
                0 <= k < worker_samples@.len() ==> (#[trigger] worker_samples@[k])@.len()
                    == share,
            outcomes@.len() == i,
            outcomes_wf(outcomes@),
            total_requests_of(outcomes@) == run_sample_count(sv.take(i as int)),
            total_successes_of(outcomes@) == run_success_count(sv.take(i as int)),
            total_elapsed_of(outcomes@) == run_elapsed_total(sv.take(i as int)),
            total_requests_of(outcomes@) == i as int * share as int,
        decreases n - i,
    {
        let o = summarize_worker(&worker_samples[i]);
        let ghost old_outcomes = outcomes@;
        outcomes.push(o);
        proof {
            assert(outcomes@.drop_last() =~= old_outcomes);
            assert(sv.take(i as int + 1).drop_last() =~= sv.take(i as int));
            assert(sv.take(i as int + 1).last() == worker_samples@[i as int]@);
            assert(i as int * share as int + share as int == (i + 1) as int * share as int)
                by (nonlinear_arith);
        }
        i = i + 1;
    }
    proof {
        assert(sv.take(n as int) =~= sv);
        lemma_issued_request_count(total_requests as int, concurrency as int);
        assert(n as int * share as int == concurrency as int * (total_requests as int
            / concurrency as int));
        lemma_outcome_sums_bounds(outcomes@);
    }
    let totals = merge_outcomes(&outcomes);
    compute_result(framework, endpoint, total_requests, concurrency, &totals, wall_time_ns)
}

} // verus!
