//! A micro-benchmark harness that measures per-task dispatch overhead of
//! asynchronous task schedulers on a cheap, deterministic, CPU-bound unit of
//! work: an elementwise equality comparison of two equal-length integer
//! arrays.
//!
//! The harness has three interchangeable dispatch strategies (sequential,
//! single-thread cooperative, multi-thread pool). The comparison task, the
//! deterministic workload generation, the timing accumulation and the run
//! summaries are verified here; the asynchronous runtimes that drive the two
//! concurrent strategies live outside the library and call into it.

use vstd::prelude::*;

pub mod compare;
pub mod generate;
pub mod timing;
pub mod bench;

verus! {

/// The faults that invalidate a benchmark run. Every one of them is fatal to
/// the run that raised it: the harness never recovers or reports partial data.
#[derive(Clone, Copy, Debug, PartialEq, Eq, Structural)]
pub enum BenchError {
    /// The two input arrays of a comparison task have different lengths.
    LengthMismatch,
    /// An average was requested for a run of zero iterations.
    ZeroRuns,
    /// Accumulated iteration durations no longer fit the accumulator.
    DurationOverflow,
}

} // verus!
