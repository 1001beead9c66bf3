//! The arithmetic of the `/dev/accel/accel0` buffer-sync protocol.
use vstd::prelude::*;

verus! {

/// Nanoseconds in one second.
pub const NANOS_PER_SEC: u64 = 1_000_000_000;

/// The unsigned deadline in nanoseconds: the clock reading plus the
/// relative timeout.
pub open spec fn deadline_sum(now_sec: u64, now_nsec: u64, relative_timeout_ns: u64) -> int {
    now_sec * 1_000_000_000 + now_nsec + relative_timeout_ns
}

/// The absolute `CLOCK_MONOTONIC` deadline PREP_BO waits until, given a
/// clock reading of `now_sec` seconds and `now_nsec` nanoseconds and a
/// timeout relative to it. The kernel takes an absolute deadline, not a
/// duration; the sum is handed over as the ioctl's signed 64-bit field, so
/// a sum past `i64::MAX` wraps to its two's-complement value.
pub fn prep_bo_deadline_ns(now_sec: u64, now_nsec: u64, relative_timeout_ns: u64) -> (r: i64)
    requires
        deadline_sum(now_sec, now_nsec, relative_timeout_ns) <= u64::MAX,
    ensures
        r == (if deadline_sum(now_sec, now_nsec, relative_timeout_ns) <= i64::MAX {
            deadline_sum(now_sec, now_nsec, relative_timeout_ns)
        } else {
            deadline_sum(now_sec, now_nsec, relative_timeout_ns) - 0x1_0000_0000_0000_0000
        }),
{
    let now_ns: u64 = now_sec * NANOS_PER_SEC + now_nsec;
    let sum: u64 = now_ns + relative_timeout_ns;
    if sum <= 0x7fff_ffff_ffff_ffff {
        sum as i64
    } else {
        let above: u64 = sum - 0x8000_0000_0000_0000;
        (above as i64) + i64::MIN
    }
}

} // verus!
