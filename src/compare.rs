//! Computing the value programmed into the single hardware comparator.
use vstd::prelude::*;

verus! {

/// Largest value the 24-bit RTC comparator path can hold.
pub const RTC_COMPARE_MAX: u32 = 0x00FF_FFFF;

/// Ticks from `now` until `deadline`, clamped to `[1, max]`: an elapsed or
/// current deadline still takes one tick, a distant one the longest delay
/// the comparator can hold.
pub open spec fn clamped_delta(deadline: u64, now: u64, max: u64) -> u64 {
    let delta: int = if deadline > now { deadline - now } else { 0 };
    if delta < 1 {
        1
    } else if delta > max {
        max
    } else {
        delta as u64
    }
}

/// A delay too wide for the 24-bit path is folded into it by inverting its
/// bits and keeping the low 24.
pub open spec fn fold24(d: u32) -> u32 {
    if d > RTC_COMPARE_MAX {
        (!d) & RTC_COMPARE_MAX
    } else {
        d
    }
}

/// The value for the 24-bit RTC comparator path: the delay clamped to the
/// 32-bit range, folded into 24 bits, and never zero, since a zero compare
/// value would never fire.
pub open spec fn rtc_compare_spec(deadline: u64, now: u64) -> u32 {
    let f = fold24(clamped_delta(deadline, now, u32::MAX as u64) as u32);
    if f == 0 {
        1
    } else {
        f
    }
}

/// Ticks from `now` to `deadline`, clamped to `[1, max]`.
pub fn compare_delta(deadline: u64, now: u64, max: u64) -> (r: u64)
    requires
        max >= 1,
    ensures
        r == clamped_delta(deadline, now, max),
        1 <= r <= max,
{
    let delta: u64 = match deadline.checked_sub(now) {
        Some(d) => d,
        None => 0,
    };
    if delta < 1 {
        1
    } else if delta > max {
        max
    } else {
        delta
    }
}

/// The compare value for the 24-bit RTC path, from the deadline and the
/// current wide time.
pub fn rtc_compare_value(deadline: u64, now: u64) -> (r: u32)
    ensures
        r == rtc_compare_spec(deadline, now),
        1 <= r <= RTC_COMPARE_MAX,
{
    let d = compare_delta(deadline, now, u32::MAX as u64) as u32;
    let f = if d > RTC_COMPARE_MAX {
        let folded = (!d) & RTC_COMPARE_MAX;
        assert((!d) & 0x00FF_FFFFu32 <= 0x00FF_FFFFu32) by (bit_vector);
        folded
    } else {
        d
    };
    if f == 0 {
        1
    } else {
        f
    }
}

/// The comparator is programmed with one tick for a deadline that has
/// passed, is now, or is one tick away; with `max` for a deadline exactly
/// `max` ticks away or further.
pub proof fn lemma_clamp_boundaries(now: u64, past: u64, max: u64)
    requires
        max >= 1,
        past < now,
        now + max + 1 <= u64::MAX,
    ensures
        clamped_delta(past, now, max) == 1,
        clamped_delta(now, now, max) == 1,
        clamped_delta((now + 1) as u64, now, max) == 1,
        clamped_delta((now + max) as u64, now, max) == max,
        clamped_delta((now + max + 1) as u64, now, max) == max,
{
}

/// The same boundaries on the 24-bit RTC path, whose widest value is
/// `0x00FF_FFFF`: a delay one tick past it folds back onto it.
pub proof fn lemma_rtc_clamp_boundaries(now: u64, past: u64)
    requires
        past < now,
        now + RTC_COMPARE_MAX + 1 <= u64::MAX,
    ensures
        rtc_compare_spec(past, now) == 1,
        rtc_compare_spec(now, now) == 1,
        rtc_compare_spec((now + 1) as u64, now) == 1,
        rtc_compare_spec((now + RTC_COMPARE_MAX) as u64, now) == RTC_COMPARE_MAX,
        rtc_compare_spec((now + RTC_COMPARE_MAX + 1) as u64, now) == RTC_COMPARE_MAX,
{
    assert((!0x0100_0000u32) & 0x00FF_FFFFu32 == 0x00FF_FFFFu32) by (bit_vector);
}

} // verus!
