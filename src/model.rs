//! State shared by every clock variant: the run state, the hardware event
//! flags as plain values, and the abstract view of a clock.
use vstd::prelude::*;

verus! {

/// Lifecycle of a clock: nothing is meaningful before the first `reset`.
#[derive(PartialEq, Eq, Structural, Clone, Copy, Debug)]
pub enum RunState {
    Uninitialized,
    Running,
    Stopped,
}

/// The event flags of the peripheral as last read from the hardware.
///
/// `half_period` is only raised by the RTC variant that counts half counter
/// periods; the other variants leave it untouched.
#[derive(PartialEq, Eq, Structural, Clone, Copy, Debug)]
pub struct EventFlags {
    pub compare: bool,
    pub overflow: bool,
    pub half_period: bool,
}

/// Abstract state of a clock: how many counter periods the epoch has
/// accounted for, and where the clock is in its lifecycle.
pub struct ClockModel {
    pub periods: nat,
    pub state: RunState,
}

impl ClockModel {
    /// The state right after `reset`: epoch zero, counter running.
    pub open spec fn after_reset() -> ClockModel {
        ClockModel { periods: 0, state: RunState::Running }
    }

    /// One more counter period accounted for.
    pub open spec fn serviced(self) -> ClockModel {
        ClockModel { periods: self.periods + 1, state: self.state }
    }

    /// `n` more counter periods accounted for, one at a time.
    pub open spec fn serviced_n(self, n: nat) -> ClockModel
        decreases n,
    {
        if n == 0 {
            self
        } else {
            self.serviced_n((n - 1) as nat).serviced()
        }
    }

    /// `enable_timer`: a stopped clock runs again; other states are kept.
    pub open spec fn enabled(self) -> ClockModel {
        if self.state == RunState::Stopped {
            ClockModel { periods: self.periods, state: RunState::Running }
        } else {
            self
        }
    }

    /// `disable_timer`: a running clock is paused, its epoch kept.
    pub open spec fn disabled(self) -> ClockModel {
        if self.state == RunState::Running {
            ClockModel { periods: self.periods, state: RunState::Stopped }
        } else {
            self
        }
    }
}

impl EventFlags {
    /// The flags with the compare-match flag cleared and the others kept.
    pub open spec fn compare_cleared(self) -> EventFlags {
        EventFlags { compare: false, ..self }
    }

    /// No event flag set.
    pub open spec fn none() -> EventFlags {
        EventFlags { compare: false, overflow: false, half_period: false }
    }
}

/// Clears the compare-match flag if it is set. Returns whether a clear had
/// to be written to the hardware.
pub fn clear_compare(flags: &mut EventFlags) -> (wrote: bool)
    ensures
        *final(flags) == old(flags).compare_cleared(),
        wrote == old(flags).compare,
{
    if flags.compare {
        flags.compare = false;
        true
    } else {
        false
    }
}

/// Clearing the compare flag twice in a row leaves the same flags as
/// clearing it once, and the second clear writes nothing to the hardware.
pub proof fn lemma_clear_compare_idempotent(flags: EventFlags)
    ensures
        flags.compare_cleared().compare_cleared() == flags.compare_cleared(),
        !flags.compare_cleared().compare,
{
}

/// Servicing `n` periods from any state adds exactly `n` to the period count
/// and keeps the run state.
pub proof fn lemma_serviced_n(m: ClockModel, n: nat)
    ensures
        m.serviced_n(n).periods == m.periods + n,
        m.serviced_n(n).state == m.state,
    decreases n,
{
    if n > 0 {
        lemma_serviced_n(m, (n - 1) as nat);
    }
}

/// A wide time built as `periods * period + raw`, with `raw` below `period`,
/// orders as the pair `(periods, raw)` does.
pub proof fn lemma_wide_time_ordered(pa: nat, ra: nat, pb: nat, rb: nat, period: nat)
    requires
        ra < period,
        rb < period,
        pa < pb || (pa == pb && ra <= rb),
    ensures
        pa * period + ra <= pb * period + rb,
{
    if pa < pb {
        assert(pa * period + period <= pb * period) by (nonlinear_arith)
            requires
                pa < pb,
        ;
    }
}

} // verus!
