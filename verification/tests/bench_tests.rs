use std::sync::Arc;
use std::time::Instant;

use futures::stream::FuturesUnordered;
use futures::stream::StreamExt;

use dispatch_bench::BenchError;
use dispatch_bench::bench::RunConfig;
use dispatch_bench::bench::RunSummary;
use dispatch_bench::bench::prepare_workload;
use dispatch_bench::bench::run_sequential;
use dispatch_bench::bench::summarize;
use dispatch_bench::compare::compare;
use dispatch_bench::timing::TimingAccumulator;

fn scenario_config() -> RunConfig {
    RunConfig { seed: 42, row_count: 100, num_runs: 3, parallelism: 2, workers: 2 }
}

fn check_summary(s: &RunSummary) {
    assert_eq!(s.count, 3);
    assert_eq!(s.comparisons, 6);
    let avg = s.average_nanos().unwrap();
    assert!(avg <= s.total_nanos);
}

/// Runs one strategy's iteration loop on an asynchronous runtime: per
/// iteration, spawn `parallelism` comparison tasks, join them unordered,
/// record the elapsed time. Returns the summary and how many comparisons
/// actually ran.
fn run_on_runtime(
    rt: &tokio::runtime::Runtime,
    cfg: &RunConfig,
    a1: &Arc<Vec<i64>>,
    a2: &Arc<Vec<i64>>,
) -> (RunSummary, u64) {
    let mut acc = TimingAccumulator::new();
    let mut completed: u64 = 0;
    for _ in 0..cfg.num_runs {
        let start = Instant::now();
        let done: u64 = rt.block_on(async {
            let mut batch: FuturesUnordered<_> = (0..cfg.parallelism)
                .map(|_| {
                    let left = Arc::clone(a1);
                    let right = Arc::clone(a2);
                    rt.spawn(async move { compare(&left, &right) })
                })
                .collect();
            let mut done: u64 = 0;
            while let Some(joined) = batch.next().await {
                let result = joined.unwrap().unwrap();
                assert_eq!(result.len(), cfg.row_count as usize);
                done += 1;
            }
            done
        });
        completed += done;
        let d = start.elapsed().as_nanos();
        assert!(d <= u128::MAX - acc.total());
        acc.record(d);
    }
    (summarize(&acc, cfg.parallelism), completed)
}

#[test]
fn scenario_prepares_two_length_100_arrays() {
    let cfg = scenario_config();
    let (a1, a2) = prepare_workload(&cfg);
    assert_eq!(a1.len(), 100);
    assert_eq!(a2.len(), 100);
    // Reproducible: preparing the same configuration again gives the same
    // workload.
    let (b1, b2) = prepare_workload(&cfg);
    assert_eq!(a1, b1);
    assert_eq!(a2, b2);
}

#[test]
fn scenario_sequential_strategy() {
    let cfg = scenario_config();
    let (a1, a2) = prepare_workload(&cfg);
    let s = run_sequential(&cfg, &a1, &a2).unwrap();
    check_summary(&s);
}

#[test]
fn scenario_single_thread_cooperative_strategy() {
    let cfg = scenario_config();
    let (a1, a2) = prepare_workload(&cfg);
    let a1 = Arc::new(a1);
    let a2 = Arc::new(a2);
    let rt = tokio::runtime::Builder::new_current_thread().build().unwrap();
    let (s, completed) = run_on_runtime(&rt, &cfg, &a1, &a2);
    assert_eq!(completed, 6);
    check_summary(&s);
}

#[test]
fn scenario_multi_thread_pool_strategy() {
    let cfg = scenario_config();
    let (a1, a2) = prepare_workload(&cfg);
    let a1 = Arc::new(a1);
    let a2 = Arc::new(a2);
    let rt = tokio::runtime::Builder::new_multi_thread()
        .worker_threads(cfg.workers as usize)
        .build()
        .unwrap();
    let (s, completed) = run_on_runtime(&rt, &cfg, &a1, &a2);
    assert_eq!(completed, 6);
    check_summary(&s);
}

#[test]
fn sequential_run_fails_fast_on_mismatched_arrays() {
    let cfg = scenario_config();
    let left: Vec<i64> = vec![1, 2, 3];
    let right: Vec<i64> = vec![1, 2];
    assert!(matches!(run_sequential(&cfg, &left, &right), Err(BenchError::LengthMismatch)));
}

#[test]
fn zero_iteration_run_has_no_average() {
    let mut cfg = scenario_config();
    cfg.num_runs = 0;
    let (a1, a2) = prepare_workload(&cfg);
    let s = run_sequential(&cfg, &a1, &a2).unwrap();
    assert_eq!(s.count, 0);
    assert_eq!(s.comparisons, 0);
    assert_eq!(s.total_nanos, 0);
    assert_eq!(s.average_nanos(), Err(BenchError::ZeroRuns));
}

#[test]
fn single_iteration_run_on_consistent_inputs_succeeds() {
    let mut cfg = scenario_config();
    cfg.num_runs = 1;
    let (a1, a2) = prepare_workload(&cfg);
    let s = run_sequential(&cfg, &a1, &a2).unwrap();
    assert_eq!(s.count, 1);
    assert_eq!(s.comparisons, 2);
    assert_eq!(s.average_nanos(), Ok(s.total_nanos));
}

#[test]
fn summary_totals_what_the_accumulator_recorded() {
    let mut acc = TimingAccumulator::new();
    acc.record(100);
    acc.record(200);
    let s = summarize(&acc, 8);
    assert_eq!(s.count, 2);
    assert_eq!(s.comparisons, 16);
    assert_eq!(s.total_nanos, 300);
    assert_eq!(s.average_nanos(), Ok(150));
}
