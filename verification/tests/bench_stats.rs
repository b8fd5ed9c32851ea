use loadbench::bench::{
    compute_result, merge_outcomes, outcomes_well_formed, per_worker_requests, summarize_run,
    summarize_worker, worker_batch_sizes, RequestSample, WorkerOutcome,
};

fn sample(success: bool, elapsed_ns: u64) -> RequestSample {
    RequestSample { success, elapsed_ns }
}

#[test]
fn per_worker_share_truncates() {
    assert_eq!(per_worker_requests(1000, 100), 10);
    assert_eq!(per_worker_requests(7, 3), 2);
    assert_eq!(per_worker_requests(5, 10), 0);
}

#[test]
fn batch_sizes_cover_exactly_the_issued_budget() {
    let v = worker_batch_sizes(7, 3);
    assert_eq!(v, vec![2, 2, 2]);
    let total: usize = v.iter().sum();
    assert_eq!(total, 6);

    let v = worker_batch_sizes(100, 10);
    assert_eq!(v.len(), 10);
    assert!(v.iter().all(|&n| n == 10));
}

#[test]
fn summarize_worker_counts_successes_and_elapsed() {
    let samples = vec![
        sample(true, 100),
        sample(false, 250),
        sample(true, 50),
        sample(false, 0),
    ];
    let o = summarize_worker(&samples);
    assert_eq!(o.requests, 4);
    assert_eq!(o.successes, 2);
    assert_eq!(o.elapsed_ns, 400);
}

#[test]
fn merge_outcomes_folds_with_plain_addition() {
    let outcomes = vec![
        WorkerOutcome { requests: 3, successes: 2, elapsed_ns: 300 },
        WorkerOutcome { requests: 3, successes: 3, elapsed_ns: 150 },
        WorkerOutcome { requests: 3, successes: 0, elapsed_ns: 900 },
    ];
    assert!(outcomes_well_formed(&outcomes));
    let t = merge_outcomes(&outcomes);
    assert_eq!(t.requests, 9);
    assert_eq!(t.successes, 5);
    assert_eq!(t.elapsed_ns, 1350);
}

#[test]
fn ill_formed_outcomes_are_rejected() {
    let outcomes = vec![WorkerOutcome { requests: 1, successes: 2, elapsed_ns: 0 }];
    assert!(!outcomes_well_formed(&outcomes));
}

#[test]
fn compute_result_is_the_exact_integer_formula() {
    let totals = WorkerOutcome { requests: 100, successes: 50, elapsed_ns: 1_000_000 };
    let r = compute_result(
        "Axum".to_string(),
        "Health Check".to_string(),
        100,
        10,
        &totals,
        2_000_000_000,
    );
    assert_eq!(r.framework, "Axum");
    assert_eq!(r.endpoint, "Health Check");
    assert_eq!(r.total_requests, 100);
    assert_eq!(r.concurrency, 10);
    assert_eq!(r.success_rate_bp, 5000);
    assert_eq!(r.avg_response_time_ns, 10_000);
    assert_eq!(r.total_time_ms, 2000);
    // 100 requests in 2 seconds: 50.000 requests per second.
    assert_eq!(r.requests_per_second_milli, 50_000);
}

#[test]
fn throughput_matches_recomputation_from_wall_clock() {
    let totals = WorkerOutcome { requests: 300, successes: 300, elapsed_ns: 0 };
    let wall_ns: u128 = 1_234_567_890;
    let r = compute_result("A".to_string(), "E".to_string(), 300, 30, &totals, wall_ns);
    assert_eq!(
        r.requests_per_second_milli,
        300u128 * 1_000_000_000_000u128 / wall_ns
    );
    let rps = r.requests_per_second_milli as f64 / 1000.0;
    let recomputed = 300.0 / (wall_ns as f64 / 1e9);
    assert!((rps - recomputed).abs() < 0.001 * recomputed);
}

#[test]
fn all_success_run_scores_the_full_rate() {
    // Ten workers with ten instant successes each: the whole budget of 100
    // is issued, every request succeeds, the mean latency is zero.
    let batches: Vec<Vec<RequestSample>> = (0..10)
        .map(|_| (0..10).map(|_| sample(true, 0)).collect())
        .collect();
    let r = summarize_run(
        "Axum".to_string(),
        "Health Check".to_string(),
        100,
        10,
        &batches,
        1_000_000,
    );
    assert_eq!(r.success_rate_bp, 10000);
    assert_eq!(r.avg_response_time_ns, 0);
    assert_eq!(r.total_requests, 100);
    assert_eq!(r.concurrency, 10);
}

#[test]
fn all_failure_run_scores_zero_without_an_error() {
    // The target answers 500 to everything: the run completes, the rate is
    // zero, the elapsed time is still counted.
    let batches: Vec<Vec<RequestSample>> = (0..10)
        .map(|_| (0..10).map(|_| sample(false, 1_000)).collect())
        .collect();
    let r = summarize_run(
        "ActixWeb".to_string(),
        "Health Check".to_string(),
        100,
        10,
        &batches,
        1_000_000,
    );
    assert_eq!(r.success_rate_bp, 0);
    assert_eq!(r.avg_response_time_ns, 1_000);
}

#[test]
fn indivisible_budget_drops_the_remainder() {
    // total 7 at concurrency 3: each worker issues 2, so exactly 6 requests
    // go out and one request's worth of budget is silently dropped.  The
    // rate divides by the requested 7, so even an all-success run stays
    // below the full rate.
    let batches: Vec<Vec<RequestSample>> = (0..3)
        .map(|_| (0..2).map(|_| sample(true, 10)).collect())
        .collect();
    let issued: usize = batches.iter().map(|b| b.len()).sum();
    assert_eq!(issued, 6);
    let r = summarize_run("Axum".to_string(), "E".to_string(), 7, 3, &batches, 1_000);
    assert_eq!(r.success_rate_bp, 6 * 10000 / 7);
    assert!(r.success_rate_bp < 10000);
}

#[test]
fn success_rate_is_full_only_when_everything_succeeded() {
    let mut batches: Vec<Vec<RequestSample>> = (0..2)
        .map(|_| (0..5).map(|_| sample(true, 1)).collect())
        .collect();
    let r = summarize_run("A".to_string(), "E".to_string(), 10, 2, &batches, 1_000);
    assert_eq!(r.success_rate_bp, 10000);

    batches[1][4] = sample(false, 1);
    let r = summarize_run("A".to_string(), "E".to_string(), 10, 2, &batches, 1_000);
    assert_eq!(r.success_rate_bp, 9000);
}
