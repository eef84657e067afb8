//! Time in a phase: throughput and the cadence of progress reports.
//!
//! Instants are readings of one monotonic clock in nanoseconds; whoever
//! drives a phase takes them and hands them in.

use vstd::prelude::*;

verus! {

/// At least this long lies between two progress reports: 100 ms.
pub const REPORT_INTERVAL_NANOS: u64 = 100000000;

/// Nanoseconds in a second.
pub const NANOS_PER_SECOND: u64 = 1000000000;

/// The time from `from` to `to`; zero if `to` is the earlier one.
pub open spec fn elapsed(from: u64, to: u64) -> int {
    if to >= from {
        to - from
    } else {
        0
    }
}

/// Bytes per second when `bytes` went through in `nanos` nanoseconds:
/// the quotient rounded down and held within `u64`, and zero when no time
/// has passed.
pub open spec fn throughput(bytes: u64, nanos: int) -> int {
    if nanos <= 0 {
        0
    } else if bytes * NANOS_PER_SECOND / nanos > u64::MAX {
        u64::MAX as int
    } else {
        bytes * NANOS_PER_SECOND / nanos
    }
}

/// Whether a progress report is due: the interval has passed since the last
/// one, or the phase has come to its end.
pub open spec fn report_due(last_report_at: u64, now: u64, done: u64, total: u64) -> bool {
    elapsed(last_report_at, now) >= REPORT_INTERVAL_NANOS || done == total
}

/// The time from `from` to `to` in nanoseconds.
pub fn elapsed_nanos(from: u64, to: u64) -> (d: u64)
    ensures
        d == elapsed(from, to),
{
    if to >= from {
        to - from
    } else {
        0
    }
}

/// Throughput of a phase that started at `started_at` and has moved `bytes`
/// by `now`.
pub fn bytes_per_second(bytes: u64, started_at: u64, now: u64) -> (bps: u64)
    ensures
        bps == throughput(bytes, elapsed(started_at, now)),
{
    let nanos = elapsed_nanos(started_at, now);
    if nanos == 0 {
        return 0;
    }
    assert(bytes as u128 * NANOS_PER_SECOND as u128 <= u128::MAX) by (nonlinear_arith)
        requires
            bytes <= u64::MAX,
            NANOS_PER_SECOND == 1000000000,
    ;
    let scaled: u128 = bytes as u128 * NANOS_PER_SECOND as u128;
    let rate: u128 = scaled / nanos as u128;
    if rate > u64::MAX as u128 {
        u64::MAX
    } else {
        rate as u64
    }
}

/// Tests whether a progress report is due.
pub fn is_report_due(last_report_at: u64, now: u64, done: u64, total: u64) -> (due: bool)
    ensures
        due == report_due(last_report_at, now, done, total),
{
    elapsed_nanos(last_report_at, now) >= REPORT_INTERVAL_NANOS || done == total
}

} // verus!
