//! Delta Engine: clamped differences of cumulative counters.
//!
//! Container runtimes expose monotonically increasing counters, but a counter
//! can reset (for example after a driver restart). Every delta in this crate
//! therefore clamps at zero instead of wrapping or panicking.

use vstd::prelude::*;

verus! {

/// What a delta of two cumulative readings is: the increase, clamped at zero
/// when the counter went backwards (a reset).
pub open spec fn spec_counter_delta(current: u64, previous: u64) -> u64 {
    if current >= previous {
        (current - previous) as u64
    } else {
        0
    }
}

/// Clamp a mathematical (non-negative) total into `u64`.
pub open spec fn clamp_to_u64(n: int) -> u64 {
    if n > u64::MAX {
        u64::MAX
    } else if n < 0 {
        0
    } else {
        n as u64
    }
}

/// The clamped delta of a cumulative counter pair: never negative, never
/// wrapped, zero when the counter was reset.
pub fn counter_delta(current: u64, previous: u64) -> (delta: u64)
    ensures
        delta == spec_counter_delta(current, previous),
        previous <= current ==> delta == current - previous,
        current < previous ==> delta == 0,
{
    if current >= previous {
        current - previous
    } else {
        0
    }
}

/// Nanoseconds represented by a raw CPU-time delta, given the platform's tick
/// unit: some platforms report 100 ns ticks, elsewhere the counters are
/// already nanoseconds. The 100-ns conversion saturates instead of wrapping.
pub open spec fn spec_cpu_delta_ns(current: u64, previous: u64, hundred_ns_ticks: bool) -> u64 {
    let delta = spec_counter_delta(current, previous);
    if hundred_ns_ticks {
        clamp_to_u64(delta * 100)
    } else {
        delta
    }
}

/// The CPU-time delta of a sample's self-contained (current, previous) pair,
/// in nanoseconds, for the common platform whose counters are already
/// nanosecond-valued. Clamped at zero on counter reset.
///
/// The caller divides by 1e9 at the emission edge to obtain seconds; this
/// crate keeps the value integral.
pub fn cpu_delta_from_docker(cpu_usage: u64, precpu_usage: u64) -> (delta_ns: u64)
    ensures
        delta_ns == spec_cpu_delta_ns(cpu_usage, precpu_usage, false),
        delta_ns == spec_counter_delta(cpu_usage, precpu_usage),
{
    counter_delta(cpu_usage, precpu_usage)
}

/// The same delta on the platform whose tick unit is 100 ns: the raw delta is
/// multiplied by 100 (saturating) to yield nanoseconds.
pub fn cpu_delta_hundred_ns_ticks(cpu_usage: u64, precpu_usage: u64) -> (delta_ns: u64)
    ensures
        delta_ns == spec_cpu_delta_ns(cpu_usage, precpu_usage, true),
{
    let delta = counter_delta(cpu_usage, precpu_usage);
    if delta <= u64::MAX / 100 {
        assert(delta * 100 <= u64::MAX) by (nonlinear_arith)
            requires delta <= u64::MAX / 100,
        ;
        delta * 100
    } else {
        proof {
            assert(delta * 100 > u64::MAX) by (nonlinear_arith)
                requires delta > u64::MAX / 100,
            ;
        }
        u64::MAX
    }
}

} // verus!
