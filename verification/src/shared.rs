//! The state the tasks share: the selector cell and the rate cell.
//!
//! The firmware keeps the selector behind a mutex and the rate in an atomic
//! scalar. Both are written and read as one unit, and no task suspends between
//! taking and releasing the lock, so to every task a cell is simply the value
//! last written to it. This type is that value pair.

use vstd::prelude::*;
use crate::selector::LedType;

verus! {

/// The delay the rate cell holds before the first sample arrives.
pub const INITIAL_IDLE_TIME: u16 = 0;

/// The contents of the two shared cells.
#[derive(Clone, Copy, Debug, PartialEq, Eq, Structural)]
pub struct Shared {
    /// The active channel. Written by the input watcher only, read by the
    /// blink driver once per iteration.
    pub led: LedType,
    /// The blink interval in milliseconds. Written by the sampler only, read
    /// by the blink driver before each wait. Any value is valid, zero too.
    pub idle_time: u16,
}

impl Shared {
    /// The cells at start-up: primary channel, zero delay.
    pub open spec fn initial() -> Shared {
        Shared { led: LedType::initial(), idle_time: INITIAL_IDLE_TIME }
    }

    /// The cells of a freshly started system.
    pub fn new() -> (shared: Shared)
        ensures
            shared == Shared::initial(),
    {
        Shared { led: LedType::new(), idle_time: INITIAL_IDLE_TIME }
    }

    /// Reads the selector.
    pub fn led(&self) -> (led: LedType)
        ensures
            led == self.led,
    {
        self.led
    }

    /// Replaces the selector and leaves the rate alone.
    pub fn set_led(&mut self, led_type: LedType)
        ensures
            final(self).led == led_type,
            final(self).idle_time == old(self).idle_time,
    {
        self.led = led_type;
    }

    /// Reads the rate.
    pub fn load(&self) -> (idle_time: u16)
        ensures
            idle_time == self.idle_time,
    {
        self.idle_time
    }

    /// Replaces the rate and leaves the selector alone.
    pub fn store(&mut self, idle_time: u16)
        ensures
            final(self).idle_time == idle_time,
            final(self).led == old(self).led,
    {
        self.idle_time = idle_time;
    }
}

} // verus!
