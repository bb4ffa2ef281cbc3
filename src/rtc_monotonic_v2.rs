//! A clock on the 24-bit nRF RTC alone, running at 32.768 kHz.
//!
//! The epoch counts half periods of the counter: it advances when the
//! counter overflows and when it passes `0x80_0000`, which compare slot 3
//! marks. Bit 23 of the counter and the parity of the half-period count then
//! agree whenever both events have been serviced, and `calc_now` uses that
//! agreement to read a consistent time even while one event is pending.
use vstd::prelude::*;
use crate::compare::{rtc_compare_spec, rtc_compare_value, RTC_COMPARE_MAX};
use crate::model::{clear_compare, ClockModel, EventFlags, RunState};

verus! {

/// Ticks in half a period of the 24-bit RTC counter.
pub const HALF_PERIOD: u64 = 0x80_0000;

/// Compare slot whose match at `HALF_PERIOD` marks the middle of a period.
pub const CC_HALF_PERIOD: usize = 3;

/// `counter` with bit 23 inverted.
pub open spec fn flip_bit23(counter: u32) -> int {
    if (counter / 0x80_0000) % 2 == 0 {
        counter + 0x80_0000
    } else {
        counter - 0x80_0000
    }
}

/// Wide time from the half-period count and the counter register: the
/// completed half periods, plus the counter with bit 23 read against the
/// parity of the count.
pub open spec fn calc_now_spec(period: u32, counter: u32) -> int {
    period * HALF_PERIOD + if period % 2 == 0 {
        counter as int
    } else {
        flip_bit23(counter)
    }
}

/// The wide time for half-period count `period` and counter value `counter`.
pub fn calc_now(period: u32, counter: u32) -> (r: u64)
    ensures
        r == calc_now_spec(period, counter),
{
    let mask: u32 = (period & 1) << 23;
    let low: u32 = counter ^ mask;
    proof {
        assert((period & 1) << 23 == if period % 2 == 0 { 0u32 } else { 0x80_0000u32 })
            by (bit_vector);
        assert(counter ^ 0u32 == counter) by (bit_vector);
        assert((counter / 0x80_0000) % 2 == 0 ==> (counter ^ 0x80_0000u32) == counter + 0x80_0000)
            by (bit_vector);
        assert((counter / 0x80_0000) % 2 == 1 ==> (counter ^ 0x80_0000u32) == counter - 0x80_0000)
            by (bit_vector);
        assert((period as u64) << 23 == period * 0x80_0000) by (bit_vector);
    }
    ((period as u64) << 23) + low as u64
}

pub struct RtcMono {
    ovfl: u32,
    state: RunState,
}

impl View for RtcMono {
    type V = ClockModel;

    closed spec fn view(&self) -> ClockModel {
        ClockModel { periods: self.ovfl as nat, state: self.state }
    }
}

impl RtcMono {
    /// A clock over a configured but not yet started RTC.
    pub fn new() -> (r: Self)
        ensures
            r@ == (ClockModel { periods: 0, state: RunState::Uninitialized }),
    {
        RtcMono { ovfl: 0, state: RunState::Uninitialized }
    }

    /// Ticks per second, as the fraction `1 / 32_768` of a second per tick.
    pub fn scaling_factor() -> (r: (u32, u32))
        ensures
            r == (1u32, 32_768u32),
    {
        (1, 32_768)
    }

    /// Zeroes the half-period count and marks the counter as running; the
    /// caller has set compare slot 3 to `HALF_PERIOD`, cleared the counter
    /// and waited for the clear to take effect.
    pub fn reset(&mut self)
        ensures
            final(self)@ == ClockModel::after_reset(),
    {
        self.ovfl = 0;
        self.state = RunState::Running;
    }

    /// The epoch in ticks: the half periods counted so far.
    pub fn epoch(&self) -> (r: u64)
        ensures
            r == self@.periods * HALF_PERIOD,
    {
        (self.ovfl as u64) * HALF_PERIOD
    }

    /// Wide time from the RTC counter register.
    pub fn now(&self, counter: u32) -> (r: u64)
        ensures
            r == calc_now_spec(self@.periods as u32, counter),
    {
        calc_now(self.ovfl, counter)
    }

    /// The value for compare slot 0 that wakes the scheduler at `deadline`,
    /// given the RTC counter register: the ticks left clamped to
    /// `[1, u32::MAX]`, folded into 24 bits when wider, and never zero.
    pub fn set_compare(&self, deadline: u64, counter: u32) -> (r: u32)
        ensures
            r == rtc_compare_spec(deadline, calc_now_spec(self@.periods as u32, counter) as u64),
            1 <= r <= RTC_COMPARE_MAX,
    {
        let now = self.now(counter);
        rtc_compare_value(deadline, now)
    }

    /// Clears the compare-match flag if set; returns whether a clear must be
    /// written to the hardware.
    pub fn clear_compare_flag(&self, flags: &mut EventFlags) -> (wrote: bool)
        ensures
            *final(flags) == old(flags).compare_cleared(),
            wrote == old(flags).compare,
    {
        clear_compare(flags)
    }

    /// Reconciles the event flags: an overflow and a half-period match each
    /// advance the count by one half period; all three flags are cleared.
    pub fn on_interrupt(&mut self, flags: &mut EventFlags)
        requires
            old(self)@.periods + (if old(flags).overflow { 1int } else { 0int }) + (if old(
                flags,
            ).half_period {
                1int
            } else {
                0int
            }) <= u32::MAX,
        ensures
            final(self)@ == {
                let m = if old(flags).overflow {
                    old(self)@.serviced()
                } else {
                    old(self)@
                };
                if old(flags).half_period {
                    m.serviced()
                } else {
                    m
                }
            },
            *final(flags) == EventFlags::none(),
    {
        if flags.overflow {
            flags.overflow = false;
            self.ovfl = self.ovfl + 1;
        }
        if flags.half_period {
            flags.half_period = false;
            self.ovfl = self.ovfl + 1;
        }
        flags.compare = false;
    }

    /// Whether the counter is running.
    pub fn is_running(&self) -> (r: bool)
        ensures
            r == (self@.state == RunState::Running),
    {
        self.state == RunState::Running
    }

    /// Resumes a stopped clock; the epoch is kept.
    pub fn enable_timer(&mut self)
        ensures
            final(self)@ == old(self)@.enabled(),
    {
        if self.state == RunState::Stopped {
            self.state = RunState::Running;
        }
    }

    /// Pauses a running clock; the epoch is kept.
    pub fn disable_timer(&mut self)
        ensures
            final(self)@ == old(self)@.disabled(),
    {
        if self.state == RunState::Running {
            self.state = RunState::Stopped;
        }
    }
}

/// With every overflow and half-period event serviced as it happens, the
/// count after `t` ticks is `t / 2^23` and the counter reads `t mod 2^24`;
/// from those two, `calc_now` gives back exactly `t`.
pub proof fn lemma_calc_now_exact(t: u64)
    requires
        t < 0x80_0000_0000_0000,
    ensures
        calc_now_spec((t / 0x80_0000) as u32, (t % 0x100_0000) as u32) == t,
{
    let p = (t / 0x80_0000) as u32;
    let c = (t % 0x100_0000) as u32;
    assert(t < 0x80_0000_0000_0000 ==> (t / 0x80_0000) < 0x1_0000_0000) by (bit_vector);
    assert(((t % 0x100_0000) as u32 / 0x80_0000) % 2 == ((t / 0x80_0000) as u32) % 2) by (bit_vector)
        requires
            t < 0x80_0000_0000_0000,
    ;
    assert(t == (t / 0x80_0000) * 0x80_0000 + t % 0x80_0000) by (bit_vector);
    assert((t % 0x100_0000) == (t % 0x80_0000) + ((t / 0x80_0000) % 2) * 0x80_0000) by (bit_vector);
}

/// With every event serviced as it happens, readings taken in order never
/// decrease.
pub proof fn lemma_rtc_mono_now_monotonic(t1: u64, t2: u64)
    requires
        t1 <= t2 < 0x80_0000_0000_0000,
    ensures
        calc_now_spec((t1 / 0x80_0000) as u32, (t1 % 0x100_0000) as u32) <= calc_now_spec(
            (t2 / 0x80_0000) as u32,
            (t2 % 0x100_0000) as u32,
        ),
{
    lemma_calc_now_exact(t1);
    lemma_calc_now_exact(t2);
}

} // verus!
