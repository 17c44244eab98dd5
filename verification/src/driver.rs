//! The blink driver: what one iteration does with the output channels and how
//! long the task sleeps afterwards.
//!
//! The driver keeps no memory between iterations. Each time it wakes it reads
//! the selector and the rate afresh and derives everything from them, so a
//! missed update corrects itself one iteration later.

use vstd::prelude::*;
use crate::output::{Leds, Level};
use crate::selector::LedType;

verus! {

/// What the driver does between two waits.
///
/// The two pin writes happen in this order: first `hold_low` is driven to the
/// de-energized level, then `toggle` is flipped. After them the task suspends
/// for `wait_ms` milliseconds; it always suspends, also when `wait_ms` is zero.
#[derive(Clone, Copy, Debug, PartialEq, Eq, Structural)]
pub struct DriverStep {
    /// The channel to force off.
    pub hold_low: LedType,
    /// The channel to flip.
    pub toggle: LedType,
    /// The timer wait that ends the iteration, in milliseconds.
    pub wait_ms: u64,
}

impl DriverStep {
    /// The iteration for a given selector and rate: the selected channel is
    /// flipped, the other one forced off, and the wait is the rate taken
    /// verbatim as a millisecond count.
    pub open spec fn of(led: LedType, idle_time: u16) -> DriverStep {
        DriverStep { hold_low: led.toggled(), toggle: led, wait_ms: idle_time as u64 }
    }

    /// The channel levels after the two pin writes of this step.
    pub open spec fn applied(self, leds: Leds) -> Leds {
        leds.with_low(self.hold_low).with_toggled(self.toggle)
    }

    /// Carries out the two pin writes of this step on the channel levels.
    pub fn apply(&self, leds: &mut Leds)
        ensures
            *final(leds) == self.applied(*old(leds)),
    {
        leds.set_low(self.hold_low);
        leds.toggle(self.toggle);
    }

    /// What an iteration does to the channels, whatever their levels were:
    /// the unselected channel ends de-energized and the selected one flipped.
    /// The two are therefore not energized together afterwards, and not in
    /// the moment between the two pin writes either, because the channel
    /// forced off is written first. A channel that was energized when the
    /// selector moved away from it is off after the next iteration.
    pub proof fn lemma_step_effect(led: LedType, idle_time: u16, leds: Leds)
        ensures
            DriverStep::of(led, idle_time).hold_low != DriverStep::of(led, idle_time).toggle,
            DriverStep::of(led, idle_time).applied(leds).level(led.toggled()) == Level::Low,
            DriverStep::of(led, idle_time).applied(leds).level(led) == leds.level(
                led,
            ).inverted(),
            !DriverStep::of(led, idle_time).applied(leds).both_energized(),
            !leds.with_low(DriverStep::of(led, idle_time).hold_low).both_energized(),
    {
    }
}

/// Decides one iteration of the blink driver from the selector and the rate
/// read at its start.
pub fn led_task_step(led: LedType, idle_time: u16) -> (step: DriverStep)
    ensures
        step == DriverStep::of(led, idle_time),
        step.toggle == led,
        step.hold_low == led.toggled(),
        step.wait_ms == idle_time,
{
    let hold_low = match led {
        LedType::Green => LedType::Blue,
        LedType::Blue => LedType::Green,
    };
    DriverStep { hold_low, toggle: led, wait_ms: idle_time as u64 }
}

} // verus!
