//! When to start submitting blocks of a slot.
//!
//! Points in time are nanoseconds since the start of 1970 in UTC, spans of time are nanoseconds.

use vstd::prelude::*;

verus! {

/// Whether a point in time lies in the years from -9999 to 9999.
pub open spec fn is_timestamp(t: int) -> bool {
    -377_705_116_800_000_000_000 <= t < 253_402_300_800_000_000_000
}

/// The point in time that lies `delta` after `timestamp`.
///
/// Calls `+` of `time::OffsetDateTime` and `time::Duration`, trusted to add nanoseconds where
/// both points in time lie in the years that the crate can hold, and which panics elsewhere.
#[verifier::external_body]
fn plus(timestamp: i128, delta: i128) -> (r: i128)
    requires
        is_timestamp(timestamp as int),
        is_timestamp(timestamp + delta),
    ensures
        r == timestamp + delta,
{
    let timestamp = time::OffsetDateTime::from_unix_timestamp_nanos(timestamp).unwrap();
    (timestamp + time::Duration::nanoseconds_i128(delta)).unix_timestamp_nanos()
}

/// The span of time from `earlier` to `later`, negative where the names do not fit.
///
/// Calls `-` of `time::OffsetDateTime`, trusted to give the difference in nanoseconds.
#[verifier::external_body]
fn minus(later: i128, earlier: i128) -> (r: i128)
    requires
        is_timestamp(later as int),
        is_timestamp(earlier as int),
    ensures
        r == later - earlier,
{
    let later = time::OffsetDateTime::from_unix_timestamp_nanos(later).unwrap();
    let earlier = time::OffsetDateTime::from_unix_timestamp_nanos(earlier).unwrap();
    (later - earlier).whole_nanoseconds()
}

/// Whether the time of a slot, the time at which the submissions for it start and the present
/// time all lie in the years that a timestamp can have.
pub fn has_timestamps(slot_timestamp: i128, slot_delta: i128, now: i128) -> (r: bool)
    ensures
        r == (is_timestamp(slot_timestamp as int) && is_timestamp(slot_timestamp + slot_delta)
            && is_timestamp(now as int)),
        r ==> -377_705_116_800_000_000_000 <= slot_timestamp < 253_402_300_800_000_000_000,
        r ==> -377_705_116_800_000_000_000 <= slot_timestamp + slot_delta
            < 253_402_300_800_000_000_000,
        r ==> -377_705_116_800_000_000_000 <= now < 253_402_300_800_000_000_000,
{
    match slot_timestamp.checked_add(slot_delta) {
        Some(start) => in_range(slot_timestamp) && in_range(start) && in_range(now),
        None => false,
    }
}

fn in_range(t: i128) -> (r: bool)
    ensures
        r == is_timestamp(t as int),
{
    -377_705_116_800_000_000_000 <= t && t < 253_402_300_800_000_000_000
}

/// How long to sleep before the submissions for a slot start, where that lies ahead.
///
/// The submissions start `slot_delta` after the time of the slot; the span is usually negative,
/// for they have to start before it.
pub fn sleep_before_submits(slot_timestamp: i128, slot_delta: i128, now: i128) -> (r: Option<u128>)
    requires
        is_timestamp(slot_timestamp as int),
        is_timestamp(slot_timestamp + slot_delta),
        is_timestamp(now as int),
    ensures
        r == (if slot_timestamp + slot_delta > now {
            Some((slot_timestamp + slot_delta - now) as u128)
        } else {
            None
        }),
{
    let submit_start_time = plus(slot_timestamp, slot_delta);
    let sleep_duration = minus(submit_start_time, now);
    if sleep_duration > 0 {
        Some(sleep_duration as u128)
    } else {
        None
    }
}

/// The first and the last nanosecond of the years from -9999 to 9999 are points in time, and so
/// is everything between them, and nothing else.
pub proof fn timestamps_are_one_range(t: int)
    ensures
        is_timestamp(t) <==> -377_705_116_800_000_000_000 <= t <= 253_402_300_799_999_999_999,
{
}

} // verus!
