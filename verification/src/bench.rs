//! The benchmark harness: run configuration, the three dispatch strategies,
//! the timed iteration loop and the per-run summary.
//!
//! Every strategy dispatches the same fixed batch of comparison tasks per
//! iteration and blocks until the whole batch is done before the iteration's
//! elapsed time is recorded; iterations never overlap. The sequential
//! strategy runs entirely inside this module. The two concurrent strategies
//! run their batches on an asynchronous runtime outside the library, but the
//! work a task does, the batch size, the accumulation of durations and the
//! summary arithmetic are all this module's, so scheduling can change how
//! work is dispatched, never what is computed.

use vstd::prelude::*;

use crate::BenchError;
use crate::compare::compare;
use crate::compare::compare_spec;
use crate::generate::Generator;
use crate::generate::workload;
use crate::timing::TimingAccumulator;
use crate::timing::duration_as_nanos;
use crate::timing::instant_elapsed;
use crate::timing::instant_now;
use crate::timing::sum_nanos;

verus! {

/// How the tasks of one iteration are scheduled. The strategy decides the
/// execution substrate only; the work itself is fixed by the configuration.
#[derive(Clone, Copy, Debug, PartialEq, Eq, Structural)]
pub enum Strategy {
    /// All tasks of an iteration run one after another on the calling thread.
    Sequential,
    /// All tasks of an iteration are submitted to one cooperatively scheduled
    /// thread and joined unordered.
    SingleThreadCooperative,
    /// Tasks are distributed across a fixed pool of worker threads and joined
    /// unordered.
    MultiThreadPool,
}

/// One explicit configuration value threads every run parameter through the
/// harness, so nothing about the run shape hides in the strategies.
#[derive(Clone, Copy, Debug)]
pub struct RunConfig {
    /// Seed of the deterministic workload generator.
    pub seed: u64,
    /// Length of each generated array.
    pub row_count: u32,
    /// Number of measured iterations per strategy.
    pub num_runs: u32,
    /// Number of comparison tasks dispatched per iteration.
    pub parallelism: u32,
    /// Worker threads of the pool strategy.
    pub workers: u32,
}

/// How many comparison tasks one iteration dispatches under a strategy:
/// always the configured parallelism degree, whatever the substrate.
pub open spec fn tasks_per_iteration(s: Strategy, cfg: RunConfig) -> nat {
    match s {
        Strategy::Sequential => cfg.parallelism as nat,
        Strategy::SingleThreadCooperative => cfg.parallelism as nat,
        Strategy::MultiThreadPool => cfg.parallelism as nat,
    }
}

/// How many comparison tasks a whole run dispatches under a strategy.
pub open spec fn total_comparisons(s: Strategy, cfg: RunConfig) -> nat {
    cfg.num_runs as nat * tasks_per_iteration(s, cfg)
}

/// A strategy changes how work is dispatched, never what is computed: under
/// one configuration, any two strategies dispatch exactly the same number of
/// comparisons — iterations times parallelism degree — and a comparison of
/// the shared equal-length arrays always yields a result of their length.
/// Which result it yields is pinned by `compare_spec` alone, so every
/// invocation on the same pair computes the same answer.
pub proof fn lemma_strategy_equivalence(a: Strategy, b: Strategy, cfg: RunConfig, left: Seq<i64>, right: Seq<i64>)
    requires
        left.len() == right.len(),
    ensures
        total_comparisons(a, cfg) == total_comparisons(b, cfg),
        total_comparisons(a, cfg) == cfg.num_runs as nat * cfg.parallelism as nat,
        compare_spec(left, right).len() == left.len(),
{
}

/// What one strategy's run measured: the iteration count, how many
/// comparisons were dispatched in all, and the total elapsed time.
pub struct RunSummary {
    /// Iterations that were timed.
    pub count: u32,
    /// Comparison tasks dispatched over the whole run.
    pub comparisons: u64,
    /// Sum of all iteration durations, in nanoseconds.
    pub total_nanos: u128,
    /// The individual iteration durations the total was summed from.
    pub history: Ghost<Seq<u128>>,
}

impl RunSummary {
    /// The total is exactly the sum of the recorded iteration durations.
    pub open spec fn wf(self) -> bool {
        &&& self.total_nanos == sum_nanos(self.history@)
        &&& self.count == self.history@.len()
    }

    /// The average iteration duration: total divided by iteration count.
    /// A run of zero iterations has no average; asking for one is a
    /// configuration fault.
    pub fn average_nanos(&self) -> (r: Result<u128, BenchError>)
        ensures
            self.count > 0 ==> r == Ok::<u128, BenchError>(
                (self.total_nanos as int / self.count as int) as u128,
            ),
            self.count == 0 ==> r == Err::<u128, BenchError>(BenchError::ZeroRuns),
    {
        if self.count == 0 {
            Err(BenchError::ZeroRuns)
        } else {
            Ok(self.total_nanos / (self.count as u128))
        }
    }
}

/// Builds the two shared arrays every strategy compares, from the configured
/// seed: the first holds the generator's first `row_count` values, the second
/// the next `row_count`. Both depend on the seed alone, so the workload is
/// reproduced exactly on every run.
pub fn prepare_workload(cfg: &RunConfig) -> (arrays: (Vec<i64>, Vec<i64>))
    requires
        cfg.row_count > 0,
    ensures
        arrays.0@.len() == cfg.row_count,
        arrays.1@.len() == cfg.row_count,
        arrays.0@ == workload(cfg.seed, 0, cfg.row_count as nat),
        arrays.1@ == workload(cfg.seed, cfg.row_count as nat, cfg.row_count as nat),
{
    let mut gen = Generator::new(cfg.seed);
    let a1 = gen.fill(cfg.row_count);
    let a2 = gen.fill(cfg.row_count);
    (a1, a2)
}

/// Closes a strategy's run over an accumulator of iteration durations: the
/// summary counts one iteration per recorded duration, `parallelism`
/// dispatched comparisons for each of them, and totals exactly what was
/// recorded. Every strategy's run ends here, whatever substrate dispatched
/// the batches.
pub fn summarize(acc: &TimingAccumulator, parallelism: u32) -> (s: RunSummary)
    requires
        acc.wf(),
    ensures
        s.wf(),
        s.count == acc.durations().len(),
        s.comparisons == acc.durations().len() * parallelism as nat,
        s.total_nanos == sum_nanos(acc.durations()),
        s.history@ == acc.durations(),
{
    let count = acc.count();
    let total = acc.total();
    proof {
        assert(count as int * parallelism as int <= 0xffff_ffffu64 as int
            * 0xffff_ffffu64 as int) by (nonlinear_arith)
            requires
                count <= 0xffff_ffffu64,
                parallelism <= 0xffff_ffffu64,
        ;
    }
    let comparisons: u64 = (count as u64) * (parallelism as u64);
    RunSummary { count, comparisons, total_nanos: total, history: Ghost(acc.durations()) }
}

/// One measured iteration: start the clock, dispatch `parallelism` comparison
/// tasks back to back, join (each task has already finished when the next is
/// issued), and record and return the elapsed time. On success exactly that
/// one duration is appended to the accumulator. Mismatched inputs are fatal
/// before anything is recorded; a total that can no longer hold the new
/// duration is reported rather than clamped, and also leaves the accumulator
/// untouched. With consistent inputs and an empty total the iteration is
/// owed success: no possible clock value can overflow an empty total.
pub fn run_iteration(left: &Vec<i64>, right: &Vec<i64>, parallelism: u32, acc: &mut TimingAccumulator) -> (r: Result<
    u128,
    BenchError,
>)
    requires
        old(acc).wf(),
        old(acc).durations().len() < u32::MAX,
    ensures
        r matches Ok(d) ==> final(acc).wf(),
        r matches Ok(d) ==> final(acc).durations() == old(acc).durations().push(d),
        r matches Ok(d) ==> (parallelism > 0 ==> left@.len() == right@.len()),
        left@.len() != right@.len() && parallelism > 0 ==> r == Err::<u128, BenchError>(
            BenchError::LengthMismatch,
        ),
        r matches Err(e) ==> *final(acc) == *old(acc),
        r matches Err(e) ==> e == BenchError::LengthMismatch || e == BenchError::DurationOverflow,
        r == Err::<u128, BenchError>(BenchError::LengthMismatch) ==> left@.len() != right@.len()
            && parallelism > 0,
        sum_nanos(old(acc).durations()) == 0 && (parallelism == 0 || left@.len()
            == right@.len()) ==> r is Ok,
{
    if parallelism > 0 && left.len() != right.len() {
        return Err(BenchError::LengthMismatch);
    }
    let start = instant_now();
    let mut k: u32 = 0;
    while k < parallelism
        invariant
            k <= parallelism,
            parallelism > 0 ==> left@.len() == right@.len(),
        decreases parallelism - k,
    {
        match compare(left, right) {
            Ok(_) => {},
            Err(e) => {
                return Err(e);
            },
        }
        k = k + 1;
    }
    let elapsed = instant_elapsed(&start);
    let d = duration_as_nanos(&elapsed);
    let recorded = acc.total();
    if d > u128::MAX - recorded {
        return Err(BenchError::DurationOverflow);
    }
    acc.record(d);
    Ok(d)
}

/// The sequential strategy, complete: `num_runs` timed iterations of
/// `parallelism` comparisons each, on one shared pair of arrays, summarised.
/// On success the summary counts every iteration and exactly
/// `num_runs * parallelism` dispatched comparisons, and its total is the sum
/// of the recorded iteration durations. A length mismatch is fatal on the
/// first task that would see it; it is the only fault besides a duration
/// total too large to represent, and no partial summary is ever reported.
/// A run of no iterations, and a single-iteration run on consistent inputs
/// (its one duration lands on an empty total, which cannot overflow), are
/// owed success.
pub fn run_sequential(cfg: &RunConfig, left: &Vec<i64>, right: &Vec<i64>) -> (r: Result<
    RunSummary,
    BenchError,
>)
    ensures
        r matches Ok(s) ==> s.wf(),
        r matches Ok(s) ==> s.count == cfg.num_runs,
        r matches Ok(s) ==> s.comparisons == total_comparisons(Strategy::Sequential, *cfg),
        r matches Ok(s) ==> (cfg.num_runs > 0 && cfg.parallelism > 0 ==> left@.len()
            == right@.len()),
        left@.len() != right@.len() && cfg.num_runs > 0 && cfg.parallelism > 0 ==> r
            == Err::<RunSummary, BenchError>(BenchError::LengthMismatch),
        r matches Err(e) ==> e == BenchError::LengthMismatch || e == BenchError::DurationOverflow,
        r matches Err(e) && e == BenchError::LengthMismatch ==> left@.len() != right@.len()
            && cfg.num_runs > 0 && cfg.parallelism > 0,
        cfg.num_runs == 0 ==> r is Ok,
        cfg.num_runs == 1 && (cfg.parallelism == 0 || left@.len() == right@.len()) ==> r is Ok,
{
    let mut acc = TimingAccumulator::new();
    let mut it: u32 = 0;
    while it < cfg.num_runs
        invariant
            it <= cfg.num_runs,
            acc.wf(),
            acc.durations().len() == it,
            it > 0 && cfg.parallelism > 0 ==> left@.len() == right@.len(),
        decreases cfg.num_runs - it,
    {
        match run_iteration(left, right, cfg.parallelism, &mut acc) {
            Ok(_) => {},
            Err(e) => {
                return Err(e);
            },
        }
        it = it + 1;
    }
    Ok(summarize(&acc, cfg.parallelism))
}

} // verus!
