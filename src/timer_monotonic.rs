//! A clock on a 32-bit nRF TIMER running at 1 MHz.
//!
//! Compare slot 0 serves the scheduler, slot 1 captures the counter for
//! `now`, and slot 2 is set to `u32::MAX` so that its match marks each wrap
//! of the counter.
use vstd::prelude::*;
use crate::compare::{clamped_delta, compare_delta};
use crate::model::{clear_compare, lemma_wide_time_ordered, ClockModel, EventFlags, RunState};

verus! {

/// Ticks in one period of the 32-bit counter.
pub const TIMER_PERIOD: u64 = 0x1_0000_0000;

/// Compare slot that wakes the scheduler.
pub const CC_COMPARE: usize = 0;

/// Compare slot that the counter is captured into.
pub const CC_NOW: usize = 1;

/// Compare slot whose match at `u32::MAX` marks an overflow.
pub const CC_OVERFLOW: usize = 2;

/// Wide time of the timer clock: the periods counted so far and the raw
/// 32-bit count.
pub open spec fn timer_wide(periods: nat, raw: u32) -> int {
    periods * TIMER_PERIOD + raw
}

pub struct NrfMonotonic {
    ovf: u64,
    state: RunState,
}

impl View for NrfMonotonic {
    type V = ClockModel;

    closed spec fn view(&self) -> ClockModel {
        ClockModel { periods: (self.ovf / TIMER_PERIOD) as nat, state: self.state }
    }
}

proof fn lemma_or_low32(ovf: u64, raw: u32)
    requires
        ovf % 0x1_0000_0000 == 0,
    ensures
        ovf | (raw as u64) == ovf + raw,
{
    assert(ovf % 0x1_0000_0000 == 0 ==> ovf | (raw as u64) == ovf + raw) by (bit_vector);
}

impl NrfMonotonic {
    /// The epoch is a whole number of counter periods and fits in 64 bits.
    pub closed spec fn wf(&self) -> bool {
        self.ovf % TIMER_PERIOD == 0
    }

    /// A clock over a configured but not yet started timer.
    pub fn new() -> (r: Self)
        ensures
            r.wf(),
            r@ == (ClockModel { periods: 0, state: RunState::Uninitialized }),
    {
        NrfMonotonic { ovf: 0, state: RunState::Uninitialized }
    }

    /// Ticks per second, as the fraction `1 / 1_000_000` of a second per tick.
    pub fn scaling_factor() -> (r: (u32, u32))
        ensures
            r == (1u32, 1_000_000u32),
    {
        (1, 1_000_000)
    }

    /// Zeroes the epoch and marks the counter as running; the caller has
    /// stopped, cleared and restarted the counter with all flags cleared.
    pub fn reset(&mut self)
        ensures
            final(self).wf(),
            final(self)@ == ClockModel::after_reset(),
    {
        self.ovf = 0;
        self.state = RunState::Running;
    }

    /// The epoch in ticks: the periods counted so far times the period.
    pub fn epoch(&self) -> (r: u64)
        requires
            self.wf(),
        ensures
            r == self@.periods * TIMER_PERIOD,
    {
        self.ovf
    }

    /// Wide time from the counter value captured in `CC_NOW`.
    pub fn now(&self, captured: u32) -> (r: u64)
        requires
            self.wf(),
        ensures
            r == timer_wide(self@.periods, captured),
    {
        proof {
            lemma_or_low32(self.ovf, captured);
        }
        self.ovf | captured as u64
    }

    /// The value for compare slot `CC_COMPARE` that wakes the scheduler at
    /// `deadline`, given the counter value just captured: the ticks left,
    /// clamped to `[1, u32::MAX]`.
    pub fn set_compare(&self, deadline: u64, captured: u32) -> (r: u32)
        requires
            self.wf(),
        ensures
            r == clamped_delta(deadline, timer_wide(self@.periods, captured) as u64, u32::MAX as u64),
            r >= 1,
    {
        let now = self.now(captured);
        compare_delta(deadline, now, u32::MAX as u64) as u32
    }

    /// Clears the compare-match flag if set; returns whether a clear must be
    /// written to the hardware.
    pub fn clear_compare_flag(&self, flags: &mut EventFlags) -> (wrote: bool)
        ensures
            *final(flags) == old(flags).compare_cleared(),
            wrote == old(flags).compare,
    {
        clear_compare(flags)
    }

    /// Reconciles the event flags: an overflow advances the epoch by one
    /// period, and both the overflow and the compare flag are cleared.
    pub fn on_interrupt(&mut self, flags: &mut EventFlags)
        requires
            old(self).wf(),
            old(flags).overflow ==> old(self)@.periods < u32::MAX,
        ensures
            final(self).wf(),
            final(self)@ == if old(flags).overflow {
                old(self)@.serviced()
            } else {
                old(self)@
            },
            *final(flags) == (EventFlags { compare: false, overflow: false, ..*old(flags) }),
    {
        if flags.overflow {
            flags.overflow = false;
            assert(self.ovf + TIMER_PERIOD <= u64::MAX) by (nonlinear_arith)
                requires
                    self.ovf % TIMER_PERIOD == 0,
                    self.ovf / TIMER_PERIOD < u32::MAX,
            ;
            self.ovf = self.ovf + TIMER_PERIOD;
        }
        flags.compare = false;
    }

    /// Whether the counter is running.
    pub fn is_running(&self) -> (r: bool)
        ensures
            r == (self@.state == RunState::Running),
    {
        self.state == RunState::Running
    }

    /// Resumes a stopped clock; the epoch is kept.
    pub fn enable_timer(&mut self)
        ensures
            final(self).wf() == old(self).wf(),
            final(self)@ == old(self)@.enabled(),
    {
        if self.state == RunState::Stopped {
            self.state = RunState::Running;
        }
    }

    /// Pauses a running clock; the epoch is kept.
    pub fn disable_timer(&mut self)
        ensures
            final(self).wf() == old(self).wf(),
            final(self)@ == old(self)@.disabled(),
    {
        if self.state == RunState::Running {
            self.state = RunState::Stopped;
        }
    }
}

/// With each overflow serviced before the next raw reading, readings taken in
/// order never decrease: a later reading has a larger epoch, or the same epoch
/// and a raw count no smaller.
pub proof fn lemma_timer_now_monotonic(a: ClockModel, raw_a: u32, b: ClockModel, raw_b: u32)
    requires
        a.periods < b.periods || (a.periods == b.periods && raw_a <= raw_b),
    ensures
        timer_wide(a.periods, raw_a) <= timer_wide(b.periods, raw_b),
{
    lemma_wide_time_ordered(a.periods, raw_a as nat, b.periods, raw_b as nat, TIMER_PERIOD as nat);
}

/// With each overflow serviced as it happens, the epoch after `t` ticks holds
/// `t / 2^32` periods and the counter reads `t mod 2^32`; the wide time built
/// from them is exactly `t`.
pub proof fn lemma_timer_now_exact(t: u64)
    ensures
        timer_wide((t / TIMER_PERIOD) as nat, (t % TIMER_PERIOD) as u32) == t,
{
}

/// After `reset` and `n` overflow events each serviced by `on_interrupt`, the
/// epoch is `n` periods and the wide time at raw count `raw` is
/// `n * 2^32 + raw`.
pub proof fn lemma_timer_overflow_accounting(n: nat, raw: u32)
    ensures
        ClockModel::after_reset().serviced_n(n).periods == n,
        timer_wide(ClockModel::after_reset().serviced_n(n).periods, raw) == n * 0x1_0000_0000 + raw,
{
    crate::model::lemma_serviced_n(ClockModel::after_reset(), n);
}

} // verus!
