//! The wall clock.

use vstd::prelude::*;

use std::time::{SystemTime, UNIX_EPOCH};

verus! {

/// A reading of the system clock: the span since the Unix epoch, or (when
/// the clock reads earlier) the span before it, as whole seconds and the
/// nanoseconds beyond them.
pub type ClockReading = Result<(u64, u32), (u64, u32)>;

/// `SystemTime::now().duration_since(UNIX_EPOCH)`: the span from the epoch
/// to now, or from now to the epoch when the clock reads earlier, in seconds
/// and sub-second nanoseconds (`Duration::subsec_nanos` is always below one
/// second). What the clock reads is not stated.
#[verifier::external_body]
fn read_system_clock() -> (r: ClockReading)
    ensures
        r matches Ok((_, nanos)) ==> nanos < 1_000_000_000,
        r matches Err((_, nanos)) ==> nanos < 1_000_000_000,
{
    match SystemTime::now().duration_since(UNIX_EPOCH) {
        Ok(d) => Ok((d.as_secs(), d.subsec_nanos())),
        Err(e) => Err((e.duration().as_secs(), e.duration().subsec_nanos())),
    }
}

/// Whole milliseconds in `secs` seconds and `nanos` nanoseconds, rounded
/// down.
pub open spec fn millis_down(secs: u64, nanos: u32) -> nat {
    secs as nat * 1000 + nanos as nat / 1_000_000
}

/// Milliseconds in `secs` seconds and `nanos` nanoseconds, rounded up.
pub open spec fn millis_up(secs: u64, nanos: u32) -> nat {
    secs as nat * 1000 + (nanos as nat + 999_999) / 1_000_000
}

/// A clock reading in whole milliseconds since the epoch, rounded down (so
/// negative, and rounded away from zero, before it), held to the range of
/// an `i64`.
pub open spec fn reading_millis(r: ClockReading) -> i64 {
    match r {
        Ok((secs, nanos)) => if millis_down(secs, nanos) <= i64::MAX {
            millis_down(secs, nanos) as i64
        } else {
            i64::MAX
        },
        Err((secs, nanos)) => if millis_up(secs, nanos) <= 9_223_372_036_854_775_808 {
            (0 - millis_up(secs, nanos)) as i64
        } else {
            i64::MIN
        },
    }
}

/// A clock reading in whole milliseconds since the epoch, rounded down, held
/// to the range of an `i64`.
pub fn millis_of(r: ClockReading) -> (t: i64)
    ensures
        t == reading_millis(r),
{
    match r {
        Ok((secs, nanos)) => {
            let millis: u128 = secs as u128 * 1000 + (nanos / 1_000_000) as u128;
            if millis <= 9_223_372_036_854_775_807u128 {
                millis as i64
            } else {
                i64::MAX
            }
        },
        Err((secs, nanos)) => {
            let up: u128 = (nanos as u128 + 999_999) / 1_000_000;
            let millis: u128 = secs as u128 * 1000 + up;
            if millis <= 9_223_372_036_854_775_807u128 {
                0 - (millis as i64)
            } else {
                i64::MIN
            }
        },
    }
}

/// Whether a clock reading is one the system clock can give: the
/// nanoseconds beyond the whole seconds stay below one second.
pub open spec fn well_formed_reading(r: ClockReading) -> bool {
    match r {
        Ok((_, nanos)) => nanos < 1_000_000_000,
        Err((_, nanos)) => nanos < 1_000_000_000,
    }
}

/// Whether `t` is a time that the system clock gave, in milliseconds since
/// the epoch: the conversion of a reading of the clock. The definition is
/// private to this module, and `now_millis` is the only function here that
/// reads the clock, so elsewhere a time is known to be one only because
/// `now_millis` returned it.
pub closed spec fn read_from_clock(t: i64) -> bool {
    exists|r: ClockReading| well_formed_reading(r) && t == reading_millis(r)
}

/// A time that the clock gave is the conversion of a well-formed reading.
pub proof fn lemma_clock_time_is_reading(t: i64)
    requires
        read_from_clock(t),
    ensures
        exists|r: ClockReading| well_formed_reading(r) && t == reading_millis(r),
{
}

/// The time in nanoseconds that a reading stands for: positive after the
/// epoch, negative before it.
pub open spec fn signed_nanos(r: ClockReading) -> int {
    match r {
        Ok((secs, nanos)) => secs as int * 1_000_000_000 + nanos as int,
        Err((secs, nanos)) => 0 - (secs as int * 1_000_000_000 + nanos as int),
    }
}

/// The time now, in whole milliseconds since the Unix epoch (rounded down,
/// so negative when the system clock reads before the epoch), held to the
/// range of an `i64`.
pub fn now_millis() -> (t: i64)
    ensures
        read_from_clock(t),
        exists|r: ClockReading| t == reading_millis(r),
{
    let r = read_system_clock();
    let t = millis_of(r);
    assert(well_formed_reading(r) && t == reading_millis(r));
    t
}

} // verus!
