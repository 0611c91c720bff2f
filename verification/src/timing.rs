//! Timing one naive Fibonacci computation on the host's monotonic clock.

use vstd::prelude::*;
use crate::fib::fib;
use crate::fib::fibonacci;
use crate::fib::lemma_fib_fits_u32;

verus! {

/// `std::time::Instant`, a reading of the host's monotonic clock, held as an
/// opaque value.
#[verifier::external_type_specification]
#[verifier::external_body]
pub struct ExInstant(std::time::Instant);

/// Relies on `std::time::Instant::now`: a fresh reading of the monotonic
/// clock. Nothing is promised of the reading itself.
#[verifier::external_body]
fn clock_now() -> std::time::Instant {
    std::time::Instant::now()
}

/// Relies on `std::time::Instant::elapsed`, `Duration::as_secs` and
/// `Duration::subsec_nanos`: the time since `start`, split into whole
/// seconds and the fractional part in nanoseconds, which std documents as
/// below one billion. How much time has passed depends on the clock, so no
/// more is promised.
#[verifier::external_body]
fn clock_elapsed(start: &std::time::Instant) -> (r: (u64, u32))
    ensures
        r.1 < 1_000_000_000,
{
    let d = start.elapsed();
    (d.as_secs(), d.subsec_nanos())
}

/// An elapsed stretch of wall-clock time: whole seconds and the fractional
/// part in nanoseconds. Both fields are unsigned, so an elapsed time is
/// never negative.
pub struct Elapsed {
    pub secs: u64,
    pub nanos: u32,
}

impl Elapsed {
    /// A well-formed elapsed time keeps its fractional part under one
    /// second.
    pub open spec fn wf(self) -> bool {
        self.nanos < 1_000_000_000
    }
}

/// The outcome of one timed run: the computed value and how long computing
/// it took.
pub struct TimedRun {
    pub value: u32,
    pub elapsed: Elapsed,
}

/// Records a start instant, computes the thirty-fifth Fibonacci number by
/// naive recursion, and reports the value together with the time the
/// computation took. Each call reads the clock afresh: runs share no state,
/// and every run's elapsed time is well formed and not negative.
pub fn time_fibonacci_35() -> (r: TimedRun)
    ensures
        r.value == fib(35),
        r.value == 9227465u32,
        r.elapsed.wf(),
        r.elapsed.secs >= 0,
        r.elapsed.nanos >= 0,
{
    proof {
        lemma_fib_fits_u32(35);
    }
    let start = clock_now();
    let value: u32 = fibonacci(35);
    let (secs, nanos): (u64, u32) = clock_elapsed(&start);
    TimedRun { value, elapsed: Elapsed { secs, nanos } }
}

} // verus!
