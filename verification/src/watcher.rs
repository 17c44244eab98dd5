//! The input watcher: a two-state machine over the edges of the button input.
//!
//! The watcher waits for a rising edge, flips the selector, waits for the
//! matching falling edge, and starts over. It is the only writer of the
//! selector, and it writes exactly once per confirmed press. Edges are taken
//! as the platform reports them; nothing is debounced.

use vstd::prelude::*;
use crate::selector::LedType;

verus! {

/// An electrical transition on the button input.
#[derive(Clone, Copy, Debug, PartialEq, Eq, Structural)]
pub enum Edge {
    Rising,
    Falling,
}

/// Where the watcher is within one press-and-release interaction.
#[derive(Clone, Copy, Debug, PartialEq, Eq, Structural)]
pub enum WatcherState {
    WaitingForPress,
    WaitingForRelease,
}

/// The input watcher: its state and its own copy of the selector.
#[derive(Clone, Copy, Debug, PartialEq, Eq, Structural)]
pub struct Watcher {
    pub state: WatcherState,
    /// The selector as the watcher last wrote it.
    pub led_type: LedType,
}

impl Watcher {
    /// The watcher at start-up: waiting for a press, primary channel selected.
    pub open spec fn initial() -> Watcher {
        Watcher { state: WatcherState::WaitingForPress, led_type: LedType::initial() }
    }

    /// The edge the watcher is suspended on.
    pub open spec fn awaited(self) -> Edge {
        match self.state {
            WatcherState::WaitingForPress => Edge::Rising,
            WatcherState::WaitingForRelease => Edge::Falling,
        }
    }

    /// Whether `edge` is a confirmed press: a rising edge that arrives while
    /// the watcher waits for one.
    pub open spec fn confirms_press(self, edge: Edge) -> bool {
        self.state == WatcherState::WaitingForPress && edge == Edge::Rising
    }

    /// The watcher after one edge. The awaited edge moves it on, and a
    /// confirmed press also flips its selector; any other edge does not wake
    /// it and changes nothing.
    pub open spec fn next(self, edge: Edge) -> Watcher {
        if edge != self.awaited() {
            self
        } else {
            match self.state {
                WatcherState::WaitingForPress => Watcher {
                    state: WatcherState::WaitingForRelease,
                    led_type: self.led_type.toggled(),
                },
                WatcherState::WaitingForRelease => Watcher {
                    state: WatcherState::WaitingForPress,
                    led_type: self.led_type,
                },
            }
        }
    }

    /// What the watcher writes to the shared selector on one edge: the flipped
    /// selector on a confirmed press, nothing otherwise.
    pub open spec fn written(self, edge: Edge) -> Option<LedType> {
        if self.confirms_press(edge) {
            Some(self.led_type.toggled())
        } else {
            None
        }
    }

    /// The watcher after a sequence of edges, taken in order.
    pub open spec fn after(self, edges: Seq<Edge>) -> Watcher
        decreases edges.len(),
    {
        if edges.len() == 0 {
            self
        } else {
            self.after(edges.drop_last()).next(edges.last())
        }
    }

    /// The number of confirmed presses in a sequence of edges.
    pub open spec fn presses(self, edges: Seq<Edge>) -> nat
        decreases edges.len(),
    {
        if edges.len() == 0 {
            0
        } else if self.after(edges.drop_last()).confirms_press(edges.last()) {
            self.presses(edges.drop_last()) + 1
        } else {
            self.presses(edges.drop_last())
        }
    }

    /// `n` clean interactions: a rising edge followed by a falling edge, `n`
    /// times over.
    pub open spec fn clicks(n: nat) -> Seq<Edge>
        decreases n,
    {
        if n == 0 {
            Seq::empty()
        } else {
            Watcher::clicks((n - 1) as nat).push(Edge::Rising).push(Edge::Falling)
        }
    }

    /// The watcher of a freshly started system.
    pub fn new() -> (watcher: Watcher)
        ensures
            watcher == Watcher::initial(),
    {
        Watcher { state: WatcherState::WaitingForPress, led_type: LedType::new() }
    }

    /// The edge to suspend on next.
    pub fn awaited_edge(&self) -> (edge: Edge)
        ensures
            edge == self.awaited(),
    {
        match self.state {
            WatcherState::WaitingForPress => Edge::Rising,
            WatcherState::WaitingForRelease => Edge::Falling,
        }
    }

    /// Takes one edge. Returns the value to write to the shared selector when
    /// the edge is a confirmed press, and `None` when there is nothing to
    /// write.
    pub fn on_edge(&mut self, edge: Edge) -> (write: Option<LedType>)
        ensures
            *final(self) == old(self).next(edge),
            write == old(self).written(edge),
            write is Some <==> old(self).confirms_press(edge),
            write matches Some(led) ==> led == final(self).led_type,
    {
        match self.state {
            WatcherState::WaitingForPress => match edge {
                Edge::Rising => {
                    self.led_type.toggle();
                    self.state = WatcherState::WaitingForRelease;
                    Some(self.led_type)
                },
                Edge::Falling => None,
            },
            WatcherState::WaitingForRelease => match edge {
                Edge::Rising => None,
                Edge::Falling => {
                    self.state = WatcherState::WaitingForPress;
                    None
                },
            },
        }
    }

    /// Appending one edge to a sequence takes one more step and counts one
    /// more press exactly when that edge confirms one.
    pub proof fn lemma_after_push(self, edges: Seq<Edge>, edge: Edge)
        ensures
            self.after(edges.push(edge)) == self.after(edges).next(edge),
            self.presses(edges.push(edge)) == self.presses(edges) + if self.after(
                edges,
            ).confirms_press(edge) {
                1nat
            } else {
                0nat
            },
    {
        assert(edges.push(edge).drop_last() =~= edges);
        assert(edges.push(edge).last() == edge);
    }

    /// The selector follows the confirmed presses one for one: after any
    /// sequence of edges it has been toggled once per confirmed press, no more
    /// and no less. So it is back at its starting value after an even number
    /// of presses and on the other channel after an odd number.
    pub proof fn lemma_selector_counts_presses(self, edges: Seq<Edge>)
        ensures
            self.after(edges).led_type == self.led_type.after_presses(self.presses(edges)),
            self.presses(edges) % 2 == 0 ==> self.after(edges).led_type == self.led_type,
            self.presses(edges) % 2 == 1 ==> self.after(edges).led_type
                == self.led_type.toggled(),
        decreases edges.len(),
    {
        if edges.len() > 0 {
            let front = edges.drop_last();
            self.lemma_selector_counts_presses(front);
            self.led_type.lemma_after_presses_add(self.presses(front), 1);
            assert(self.led_type.after_presses(self.presses(front)).after_presses(1)
                == self.led_type.after_presses(self.presses(front)).toggled()) by {
                reveal_with_fuel(LedType::after_presses, 2);
            }
        }
        self.led_type.lemma_after_presses_parity(self.presses(edges));
    }

    /// After `n` clean interactions a watcher that was waiting for a press is
    /// waiting for a press again, has counted `n` presses, and has toggled the
    /// selector `n` times. From start-up that leaves `Green` selected when `n`
    /// is even and `Blue` when `n` is odd.
    pub proof fn lemma_clicks(self, n: nat)
        requires
            self.state == WatcherState::WaitingForPress,
        ensures
            self.after(Watcher::clicks(n)).state == WatcherState::WaitingForPress,
            self.presses(Watcher::clicks(n)) == n,
            self.after(Watcher::clicks(n)).led_type == self.led_type.after_presses(n),
            n % 2 == 0 ==> self.after(Watcher::clicks(n)).led_type == self.led_type,
            n % 2 == 1 ==> self.after(Watcher::clicks(n)).led_type == self.led_type.toggled(),
        decreases n,
    {
        if n > 0 {
            let before = Watcher::clicks((n - 1) as nat);
            self.lemma_clicks((n - 1) as nat);
            self.lemma_after_push(before, Edge::Rising);
            self.lemma_after_push(before.push(Edge::Rising), Edge::Falling);
        }
        self.lemma_selector_counts_presses(Watcher::clicks(n));
    }
}

} // verus!
