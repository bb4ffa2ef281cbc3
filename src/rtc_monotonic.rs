//! A clock on the 24-bit nRF RTC running at 32.768 kHz, with a 1 MHz TIMER
//! as the helper that wakes the scheduler: the helper is cleared each time
//! its compare value is written, so that value is a delay.
use vstd::prelude::*;
use crate::compare::{rtc_compare_spec, rtc_compare_value, RTC_COMPARE_MAX};
use crate::model::{clear_compare, lemma_wide_time_ordered, ClockModel, EventFlags, RunState};

verus! {

/// Ticks in one period of the 24-bit RTC counter.
pub const RTC_PERIOD: u64 = 0x0100_0000;

/// Overflows the 64-bit epoch can account for.
pub const RTC_MAX_PERIODS: u64 = 0xFF_FFFF_FFFF;

/// Wide time of the RTC clock: the periods counted so far and the low 24
/// bits of the counter register.
pub open spec fn rtc_wide(periods: nat, counter: u32) -> int {
    periods * RTC_PERIOD + (counter as int) % (RTC_PERIOD as int)
}

pub struct RtcMonotonic {
    ovf: u64,
    state: RunState,
}

impl View for RtcMonotonic {
    type V = ClockModel;

    closed spec fn view(&self) -> ClockModel {
        ClockModel { periods: (self.ovf / RTC_PERIOD) as nat, state: self.state }
    }
}

proof fn lemma_or_low24(ovf: u64, counter: u32)
    requires
        ovf % 0x0100_0000 == 0,
    ensures
        ovf | ((counter & 0x00FF_FFFF) as u64) == ovf + counter % 0x0100_0000,
{
    assert(ovf % 0x0100_0000 == 0 ==> ovf | ((counter & 0x00FF_FFFF) as u64) == ovf + counter
        % 0x0100_0000) by (bit_vector);
}

impl RtcMonotonic {
    /// The epoch is a whole number of counter periods.
    pub closed spec fn wf(&self) -> bool {
        self.ovf % RTC_PERIOD == 0
    }

    /// A clock over a configured but not yet started RTC and helper timer.
    pub fn new() -> (r: Self)
        ensures
            r.wf(),
            r@ == (ClockModel { periods: 0, state: RunState::Uninitialized }),
    {
        RtcMonotonic { ovf: 0, state: RunState::Uninitialized }
    }

    /// Ticks per second, as the fraction `1 / 32_768` of a second per tick.
    pub fn scaling_factor() -> (r: (u32, u32))
        ensures
            r == (1u32, 32_768u32),
    {
        (1, 32_768)
    }

    /// Zeroes the epoch and marks the counter as running; the caller has
    /// cleared the helper's flags and started both peripherals.
    pub fn reset(&mut self)
        ensures
            final(self).wf(),
            final(self)@ == ClockModel::after_reset(),
    {
        self.ovf = 0;
        self.state = RunState::Running;
    }

    /// The epoch in ticks: the periods counted so far times the period.
    pub fn epoch(&self) -> (r: u64)
        requires
            self.wf(),
        ensures
            r == self@.periods * RTC_PERIOD,
    {
        self.ovf
    }

    /// Wide time from the RTC counter register; bits above the counter's
    /// 24 are ignored.
    pub fn now(&self, counter: u32) -> (r: u64)
        requires
            self.wf(),
        ensures
            r == rtc_wide(self@.periods, counter),
    {
        proof {
            lemma_or_low24(self.ovf, counter);
        }
        self.ovf | (counter & 0x00FF_FFFF) as u64
    }

    /// The delay, in helper timer ticks, to program for `deadline` given the
    /// RTC counter register: the ticks left clamped to `[1, u32::MAX]`,
    /// folded into 24 bits when wider, and never zero.
    pub fn set_compare(&self, deadline: u64, counter: u32) -> (r: u32)
        requires
            self.wf(),
        ensures
            r == rtc_compare_spec(deadline, rtc_wide(self@.periods, counter) as u64),
            1 <= r <= RTC_COMPARE_MAX,
    {
        let now = self.now(counter);
        rtc_compare_value(deadline, now)
    }

    /// Clears the helper's compare-match flag if set; returns whether a
    /// clear must be written to the hardware.
    pub fn clear_compare_flag(&self, flags: &mut EventFlags) -> (wrote: bool)
        ensures
            *final(flags) == old(flags).compare_cleared(),
            wrote == old(flags).compare,
    {
        clear_compare(flags)
    }

    /// Reconciles the event flags: an RTC overflow advances the epoch by one
    /// period, and both the overflow and the compare flag are cleared.
    pub fn on_interrupt(&mut self, flags: &mut EventFlags)
        requires
            old(self).wf(),
            old(flags).overflow ==> old(self)@.periods < RTC_MAX_PERIODS,
        ensures
            final(self).wf(),
            final(self)@ == if old(flags).overflow {
                old(self)@.serviced()
            } else {
                old(self)@
            },
            *final(flags) == (EventFlags { compare: false, overflow: false, ..*old(flags) }),
    {
        if flags.overflow {
            flags.overflow = false;
            assert(self.ovf + RTC_PERIOD <= u64::MAX) by (nonlinear_arith)
                requires
                    self.ovf % RTC_PERIOD == 0,
                    self.ovf / RTC_PERIOD < RTC_MAX_PERIODS,
            ;
            self.ovf = self.ovf + RTC_PERIOD;
        }
        flags.compare = false;
    }

    /// Whether the counter is running.
    pub fn is_running(&self) -> (r: bool)
        ensures
            r == (self@.state == RunState::Running),
    {
        self.state == RunState::Running
    }

    /// Resumes a stopped clock; the epoch is kept.
    pub fn enable_timer(&mut self)
        ensures
            final(self).wf() == old(self).wf(),
            final(self)@ == old(self)@.enabled(),
    {
        if self.state == RunState::Stopped {
            self.state = RunState::Running;
        }
    }

    /// Pauses a running clock; the epoch is kept.
    pub fn disable_timer(&mut self)
        ensures
            final(self).wf() == old(self).wf(),
            final(self)@ == old(self)@.disabled(),
    {
        if self.state == RunState::Running {
            self.state = RunState::Stopped;
        }
    }
}

/// With each overflow serviced before the next counter reading, readings
/// taken in order never decrease.
pub proof fn lemma_rtc_now_monotonic(a: ClockModel, counter_a: u32, b: ClockModel, counter_b: u32)
    requires
        a.periods < b.periods || (a.periods == b.periods && counter_a % 0x0100_0000 <= counter_b
            % 0x0100_0000),
    ensures
        rtc_wide(a.periods, counter_a) <= rtc_wide(b.periods, counter_b),
{
    lemma_wide_time_ordered(
        a.periods,
        (counter_a % 0x0100_0000) as nat,
        b.periods,
        (counter_b % 0x0100_0000) as nat,
        RTC_PERIOD as nat,
    );
}

/// With each overflow serviced as it happens, the epoch after `t` ticks holds
/// `t / 2^24` periods and the counter reads `t mod 2^24`; the wide time built
/// from them is exactly `t`.
pub proof fn lemma_rtc_now_exact(t: u64)
    ensures
        rtc_wide((t / RTC_PERIOD) as nat, (t % RTC_PERIOD) as u32) == t,
{
}

/// After `reset` and `n` overflow events each serviced by `on_interrupt`, the
/// wide time at a 24-bit count `counter` is `n * 2^24 + counter`.
pub proof fn lemma_rtc_overflow_accounting(n: nat, counter: u32)
    requires
        counter < 0x0100_0000,
    ensures
        ClockModel::after_reset().serviced_n(n).periods == n,
        rtc_wide(ClockModel::after_reset().serviced_n(n).periods, counter) == n * 0x0100_0000 + counter,
{
    crate::model::lemma_serviced_n(ClockModel::after_reset(), n);
}

} // verus!
