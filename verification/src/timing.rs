//! Wall-clock measurement and accumulation of iteration durations.
//!
//! Each benchmark iteration is timed once; only the running total of the
//! recorded durations is kept (nanosecond precision), never a per-iteration
//! history. Every iteration counts equally: no clamping, no warm-up discard.

use vstd::prelude::*;

use crate::BenchError;

verus! {

#[verifier::external_type_specification]
#[verifier::external_body]
pub struct ExInstant(std::time::Instant);

/// Relies on `std::time::Instant::now`: a reading of the monotonic clock.
/// Nothing is promised of the value: the clock decides.
#[verifier::external_body]
pub(crate) fn instant_now() -> std::time::Instant {
    std::time::Instant::now()
}

/// Relies on `std::time::Instant::elapsed`: the time that passed since
/// `start` was taken. Nothing is promised of the value: the clock decides.
#[verifier::external_body]
pub(crate) fn instant_elapsed(start: &std::time::Instant) -> core::time::Duration {
    start.elapsed()
}

/// Relies on `core::time::Duration::as_nanos`: the whole duration as a count
/// of nanoseconds.
#[verifier::external_body]
pub(crate) fn duration_as_nanos(d: &core::time::Duration) -> u128 {
    d.as_nanos()
}

/// The sum of a sequence of durations, in nanoseconds.
pub open spec fn sum_nanos(s: Seq<u128>) -> int
    decreases s.len(),
{
    if s.len() == 0 {
        0
    } else {
        sum_nanos(s.drop_last()) + s.last()
    }
}

/// Accumulates one duration per completed iteration. The exposed total is
/// exactly the sum of everything recorded, with no clamping and no discard;
/// the recorded durations themselves are not retained at run time.
pub struct TimingAccumulator {
    total: u128,
    count: u32,
    history: Ghost<Seq<u128>>,
}

impl TimingAccumulator {
    /// Everything recorded so far, in order.
    pub closed spec fn durations(self) -> Seq<u128> {
        self.history@
    }

    /// The running total equals the sum of the recorded durations, and the
    /// iteration count equals how many were recorded.
    pub closed spec fn wf(self) -> bool {
        &&& self.total == sum_nanos(self.history@)
        &&& self.count == self.history@.len()
    }

    /// A fresh accumulator with nothing recorded.
    pub fn new() -> (acc: TimingAccumulator)
        ensures
            acc.wf(),
            acc.durations() == Seq::<u128>::empty(),
    {
        TimingAccumulator { total: 0, count: 0, history: Ghost(Seq::empty()) }
    }

    /// Records one iteration's duration by adding it to the running total.
    pub fn record(&mut self, d: u128)
        requires
            old(self).wf(),
            sum_nanos(old(self).durations()) + d <= u128::MAX,
            old(self).durations().len() < u32::MAX,
        ensures
            final(self).wf(),
            final(self).durations() == old(self).durations().push(d),
    {
        proof {
            assert(self.history@.push(d).drop_last() =~= self.history@);
            assert(self.history@.push(d).last() == d);
        }
        self.total = self.total + d;
        self.count = self.count + 1;
        self.history = Ghost(self.history@.push(d));
    }

    /// The accumulated total: exactly the sum of every recorded duration.
    pub fn total(&self) -> (t: u128)
        requires
            self.wf(),
        ensures
            t == sum_nanos(self.durations()),
    {
        self.total
    }

    /// How many durations have been recorded.
    pub fn count(&self) -> (n: u32)
        requires
            self.wf(),
        ensures
            n == self.durations().len(),
    {
        self.count
    }

    /// The average duration over `n` iterations: the total divided by `n`.
    /// Averaging over zero iterations is meaningless and is reported as a
    /// configuration fault rather than computed.
    pub fn average(&self, n: u32) -> (r: Result<u128, BenchError>)
        requires
            self.wf(),
        ensures
            n > 0 ==> r == Ok::<u128, BenchError>(
                (sum_nanos(self.durations()) / n as int) as u128,
            ),
            n == 0 ==> r == Err::<u128, BenchError>(BenchError::ZeroRuns),
    {
        if n == 0 {
            Err(BenchError::ZeroRuns)
        } else {
            Ok(self.total / (n as u128))
        }
    }
}

} // verus!
