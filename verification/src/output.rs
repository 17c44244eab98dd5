//! The two output channels, as the blink driver sees them.
//!
//! A channel is a digital output with two levels. The driver is their only
//! owner; nothing else ever writes them.

use vstd::prelude::*;
use crate::selector::LedType;

verus! {

/// The level of a digital output: `High` is energized, `Low` de-energized.
#[derive(Clone, Copy, Debug, PartialEq, Eq, Structural)]
pub enum Level {
    Low,
    High,
}

impl Level {
    /// The logical NOT of a level.
    pub open spec fn inverted(self) -> Level {
        match self {
            Level::Low => Level::High,
            Level::High => Level::Low,
        }
    }

    /// The level a toggle leaves behind.
    pub fn invert(self) -> (level: Level)
        ensures
            level == self.inverted(),
    {
        match self {
            Level::Low => Level::High,
            Level::High => Level::Low,
        }
    }
}

/// The levels of both output channels.
#[derive(Clone, Copy, Debug, PartialEq, Eq, Structural)]
pub struct Leds {
    pub green: Level,
    pub blue: Level,
}

impl Leds {
    /// The level of the channel that `led` names.
    pub open spec fn level(self, led: LedType) -> Level {
        match led {
            LedType::Green => self.green,
            LedType::Blue => self.blue,
        }
    }

    /// These levels with the channel `led` forced low.
    pub open spec fn with_low(self, led: LedType) -> Leds {
        match led {
            LedType::Green => Leds { green: Level::Low, blue: self.blue },
            LedType::Blue => Leds { green: self.green, blue: Level::Low },
        }
    }

    /// These levels with the channel `led` flipped.
    pub open spec fn with_toggled(self, led: LedType) -> Leds {
        match led {
            LedType::Green => Leds { green: self.green.inverted(), blue: self.blue },
            LedType::Blue => Leds { green: self.green, blue: self.blue.inverted() },
        }
    }

    /// Both channels are energized at once.
    pub open spec fn both_energized(self) -> bool {
        self.green == Level::High && self.blue == Level::High
    }

    /// The levels the channels are constructed with: green energized, blue not.
    pub open spec fn initial() -> Leds {
        Leds { green: Level::High, blue: Level::Low }
    }

    /// The channels as constructed at start-up.
    pub fn new() -> (leds: Leds)
        ensures
            leds == Leds::initial(),
    {
        Leds { green: Level::High, blue: Level::Low }
    }

    /// Reads the level of one channel.
    pub fn level_of(&self, led: LedType) -> (level: Level)
        ensures
            level == self.level(led),
    {
        match led {
            LedType::Green => self.green,
            LedType::Blue => self.blue,
        }
    }

    /// Drives one channel to the de-energized level and leaves the other alone.
    pub fn set_low(&mut self, led: LedType)
        ensures
            *final(self) == old(self).with_low(led),
            final(self).level(led) == Level::Low,
            final(self).level(led.toggled()) == old(self).level(led.toggled()),
    {
        match led {
            LedType::Green => self.green = Level::Low,
            LedType::Blue => self.blue = Level::Low,
        }
    }

    /// Flips one channel and leaves the other alone.
    pub fn toggle(&mut self, led: LedType)
        ensures
            *final(self) == old(self).with_toggled(led),
            final(self).level(led) == old(self).level(led).inverted(),
            final(self).level(led.toggled()) == old(self).level(led.toggled()),
    {
        match led {
            LedType::Green => self.green = self.green.invert(),
            LedType::Blue => self.blue = self.blue.invert(),
        }
    }

    /// Forcing a channel low never energizes anything: whatever the levels
    /// were, that channel is off afterwards and the other one is as it was, so
    /// the two are not energized together.
    pub proof fn lemma_with_low_is_safe(self, led: LedType)
        ensures
            self.with_low(led).level(led) == Level::Low,
            self.with_low(led).level(led.toggled()) == self.level(led.toggled()),
            !self.with_low(led).both_energized(),
    {
    }
}

} // verus!
