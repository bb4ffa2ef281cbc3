//! Monotonic 64-bit tick sources for nRF timers and RTCs.
//!
//! A narrow free-running hardware counter is extended into a wide tick count
//! by a software epoch that the overflow interrupt advances. Every clock here
//! relies on the epoch having been advanced by the time a post-overflow raw
//! count is observed: `now` never looks at a pending overflow flag, so the
//! only window in which a reading can go backwards is the interrupt latency
//! after a wrap.
//!
//! The hardware itself is not touched by this crate: callers read the raw
//! counter and event flags, hand them in as plain values, and write back the
//! compare values and flag clears that the clocks return.

pub mod compare;
pub mod model;
pub mod rtc_monotonic;
pub mod rtc_monotonic_v2;
pub mod timer_monotonic;
