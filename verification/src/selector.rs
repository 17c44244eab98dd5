//! The indicator selector: which of the two output channels is active.

use vstd::prelude::*;

verus! {

/// The active indicator channel. There are exactly two: `Green` is the primary
/// channel, selected at start-up, and `Blue` the secondary one.
#[derive(Clone, Copy, Debug, PartialEq, Eq, Structural)]
pub enum LedType {
    Green,
    Blue,
}

impl LedType {
    /// The selector at start-up.
    pub open spec fn initial() -> LedType {
        LedType::Green
    }

    /// The other channel.
    pub open spec fn toggled(self) -> LedType {
        match self {
            LedType::Green => LedType::Blue,
            LedType::Blue => LedType::Green,
        }
    }

    /// The selector after `n` confirmed presses, each of which toggles it once.
    pub open spec fn after_presses(self, n: nat) -> LedType
        decreases n,
    {
        if n == 0 {
            self
        } else {
            self.toggled().after_presses((n - 1) as nat)
        }
    }

    /// The selector a freshly started system holds.
    pub fn new() -> (led: LedType)
        ensures
            led == LedType::initial(),
    {
        LedType::Green
    }

    /// Switches to the other channel.
    pub fn toggle(&mut self)
        ensures
            *final(self) == old(self).toggled(),
    {
        match self {
            LedType::Green => *self = LedType::Blue,
            LedType::Blue => *self = LedType::Green,
        }
    }

    /// Pressing `m` times and then `n` times is pressing `m + n` times.
    pub proof fn lemma_after_presses_add(self, m: nat, n: nat)
        ensures
            self.after_presses(m).after_presses(n) == self.after_presses(m + n),
        decreases m,
    {
        if m > 0 {
            self.toggled().lemma_after_presses_add((m - 1) as nat, n);
        }
    }

    /// After `n` presses the selector is back where it started when `n` is
    /// even, and on the other channel when `n` is odd. Starting from the
    /// initial selector this gives `Green` for even `n` and `Blue` for odd `n`.
    pub proof fn lemma_after_presses_parity(self, n: nat)
        ensures
            n % 2 == 0 ==> self.after_presses(n) == self,
            n % 2 == 1 ==> self.after_presses(n) == self.toggled(),
            LedType::initial().after_presses(n) == if n % 2 == 0 {
                LedType::Green
            } else {
                LedType::Blue
            },
        decreases n,
    {
        if n > 0 {
            self.toggled().lemma_after_presses_parity((n - 1) as nat);
            LedType::Blue.lemma_after_presses_parity((n - 1) as nat);
        }
    }
}

} // verus!
