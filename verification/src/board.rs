//! The whole system as one state machine.
//!
//! The scheduler is cooperative and single-threaded: a task runs from one
//! suspension point to the next without interruption. So the system moves in
//! steps, one per task wake-up, and every interleaving of the three tasks is a
//! sequence of such steps. The coordination guarantees are proved here for
//! every sequence.

use vstd::prelude::*;
use crate::driver::{led_task_step, DriverStep};
use crate::output::{Leds, Level};
use crate::sampler::{potentiometer_task_step, SamplerStep, POLL_INTERVAL_MS};
use crate::selector::LedType;
use crate::shared::Shared;
use crate::watcher::{Edge, Watcher, WatcherState};

verus! {

/// A task wake-up.
#[derive(Clone, Copy, Debug, PartialEq, Eq, Structural)]
pub enum Event {
    /// The blink driver's timer has expired.
    DriverWakes,
    /// A conversion has completed with this raw reading.
    SampleReady(u16),
    /// The button input has made this transition.
    EdgeSeen(Edge),
}

/// What a task suspends on once it has handled its wake-up.
#[derive(Clone, Copy, Debug, PartialEq, Eq, Structural)]
pub enum Suspend {
    /// A timer wait of this many milliseconds.
    Timer(u64),
    /// The next edge of this kind on the button input.
    Edge(Edge),
}

/// The shared cells, the output channels and the watcher together.
#[derive(Clone, Copy, Debug, PartialEq, Eq, Structural)]
pub struct Board {
    pub shared: Shared,
    pub leds: Leds,
    pub watcher: Watcher,
}

impl Board {
    /// The system at start-up.
    pub open spec fn initial() -> Board {
        Board { shared: Shared::initial(), leds: Leds::initial(), watcher: Watcher::initial() }
    }

    /// The shared selector holds what the watcher last wrote. The watcher is
    /// its only writer, so this holds in every state the system reaches.
    pub open spec fn coherent(self) -> bool {
        self.watcher.led_type == self.shared.led
    }

    /// What holds of every state the system reaches: the selector is coherent
    /// and the two channels are not energized together.
    pub open spec fn inv(self) -> bool {
        self.coherent() && !self.leds.both_energized()
    }

    /// The system after one wake-up.
    pub open spec fn next(self, event: Event) -> Board {
        match event {
            Event::DriverWakes => Board {
                leds: DriverStep::of(self.shared.led, self.shared.idle_time).applied(self.leds),
                ..self
            },
            Event::SampleReady(sample) => Board {
                shared: Shared { idle_time: SamplerStep::of(sample).store, ..self.shared },
                ..self
            },
            Event::EdgeSeen(edge) => Board {
                shared: Shared {
                    led: match self.watcher.written(edge) {
                        Some(led) => led,
                        None => self.shared.led,
                    },
                    ..self.shared
                },
                watcher: self.watcher.next(edge),
                ..self
            },
        }
    }

    /// What the woken task suspends on after this wake-up. The driver and the
    /// sampler always end in a timer wait; the watcher waits for its next
    /// edge.
    pub open spec fn suspends_on(self, event: Event) -> Suspend {
        match event {
            Event::DriverWakes => Suspend::Timer(
                DriverStep::of(self.shared.led, self.shared.idle_time).wait_ms,
            ),
            Event::SampleReady(sample) => Suspend::Timer(SamplerStep::of(sample).wait_ms),
            Event::EdgeSeen(edge) => Suspend::Edge(self.watcher.next(edge).awaited()),
        }
    }

    /// The system after a sequence of wake-ups, taken in order.
    pub open spec fn after(self, events: Seq<Event>) -> Board
        decreases events.len(),
    {
        if events.len() == 0 {
            self
        } else {
            self.after(events.drop_last()).next(events.last())
        }
    }

    /// The suspensions that a sequence of wake-ups ends in, one per wake-up.
    pub open spec fn trace(self, events: Seq<Event>) -> Seq<Suspend>
        decreases events.len(),
    {
        if events.len() == 0 {
            Seq::empty()
        } else {
            self.trace(events.drop_last()).push(
                self.after(events.drop_last()).suspends_on(events.last()),
            )
        }
    }

    /// The reading most recently stored in the course of a sequence of
    /// wake-ups, or the rate held before it when the sequence stores none.
    pub open spec fn last_stored(self, events: Seq<Event>) -> u16
        decreases events.len(),
    {
        if events.len() == 0 {
            self.shared.idle_time
        } else {
            match events.last() {
                Event::SampleReady(sample) => sample,
                _ => self.last_stored(events.drop_last()),
            }
        }
    }

    /// The number of confirmed presses in a sequence of wake-ups.
    pub open spec fn presses(self, events: Seq<Event>) -> nat
        decreases events.len(),
    {
        if events.len() == 0 {
            0
        } else {
            self.presses(events.drop_last()) + match events.last() {
                Event::EdgeSeen(edge) => if self.after(events.drop_last()).watcher.confirms_press(
                    edge,
                ) {
                    1nat
                } else {
                    0nat
                },
                _ => 0nat,
            }
        }
    }

    /// A freshly started system.
    pub fn new() -> (board: Board)
        ensures
            board == Board::initial(),
            board.inv(),
    {
        Board { shared: Shared::new(), leds: Leds::new(), watcher: Watcher::new() }
    }

    /// Runs the woken task up to its next suspension point and returns what
    /// it suspends on.
    pub fn step(&mut self, event: Event) -> (suspend: Suspend)
        ensures
            *final(self) == old(self).next(event),
            suspend == old(self).suspends_on(event),
            old(self).inv() ==> final(self).inv(),
            event is DriverWakes ==> {
                let led = old(self).shared.led;
                &&& suspend == Suspend::Timer(old(self).shared.idle_time as u64)
                &&& final(self).leds.level(led.toggled()) == Level::Low
                &&& final(self).leds.level(led) == old(self).leds.level(led).inverted()
                &&& final(self).shared == old(self).shared
                &&& final(self).watcher == old(self).watcher
            },
            event is SampleReady ==> {
                &&& suspend == Suspend::Timer(POLL_INTERVAL_MS)
                &&& final(self).leds == old(self).leds
            },
            event is EdgeSeen ==> {
                &&& suspend is Edge
                &&& final(self).leds == old(self).leds
            },
    {
        match event {
            Event::DriverWakes => {
                let plan = led_task_step(self.shared.led(), self.shared.load());
                plan.apply(&mut self.leds);
                Suspend::Timer(plan.wait_ms)
            },
            Event::SampleReady(sample) => {
                let plan = potentiometer_task_step(sample);
                self.shared.store(plan.store);
                Suspend::Timer(plan.wait_ms)
            },
            Event::EdgeSeen(edge) => {
                match self.watcher.on_edge(edge) {
                    Some(led) => self.shared.set_led(led),
                    None => {},
                }
                Suspend::Edge(self.watcher.awaited_edge())
            },
        }
    }

    /// Runs a sequence of wake-ups in order and returns the suspension each
    /// one ended in.
    pub fn run(&mut self, events: &[Event]) -> (suspends: Vec<Suspend>)
        ensures
            *final(self) == old(self).after(events@),
            suspends@ == old(self).trace(events@),
            suspends@.len() == events@.len(),
            old(self).inv() ==> final(self).inv(),
    {
        let ghost start = *self;
        let mut suspends: Vec<Suspend> = Vec::new();
        let mut i: usize = 0;
        while i < events.len()
            invariant
                i <= events@.len(),
                *self == start.after(events@.take(i as int)),
                suspends@ == start.trace(events@.take(i as int)),
                suspends@.len() == i,
                start.inv() ==> self.inv(),
            decreases events@.len() - i,
        {
            proof {
                let upto = events@.take(i + 1);
                assert(upto.drop_last() =~= events@.take(i as int));
                assert(upto.last() == events@[i as int]);
            }
            let suspend = self.step(events[i]);
            suspends.push(suspend);
            i += 1;
        }
        proof {
            assert(events@.take(events@.len() as int) =~= events@);
        }
        suspends
    }

    /// No wake-up breaks the invariant, and a driver iteration establishes its
    /// second half from any state: the unselected channel is forced off before
    /// the selected one is flipped, so the two are not energized together
    /// afterwards, nor in the moment between the two pin writes.
    pub proof fn lemma_next_keeps_inv(self, event: Event)
        ensures
            self.inv() ==> self.next(event).inv(),
            self.coherent() ==> self.next(event).coherent(),
            !self.next(Event::DriverWakes).leds.both_energized(),
            !self.leds.with_low(self.shared.led.toggled()).both_energized(),
    {
    }

    /// The invariant holds at start-up and after every sequence of wake-ups
    /// from a state in which it holds. In particular the two channels are
    /// never energized together, whatever the tasks' interleaving.
    pub proof fn lemma_inv_always(self, events: Seq<Event>)
        requires
            self.inv(),
        ensures
            Board::initial().inv(),
            self.after(events).inv(),
            !self.after(events).leds.both_energized(),
        decreases events.len(),
    {
        if events.len() > 0 {
            self.lemma_inv_always(events.drop_last());
            self.after(events.drop_last()).lemma_next_keeps_inv(events.last());
        }
    }

    /// Only the driver writes the channels, and it toggles exactly one: the
    /// selected channel is flipped and the other is held de-energized. The
    /// sampler and the watcher leave both channels as they are.
    pub proof fn lemma_one_channel_toggles(self, event: Event)
        ensures
            event is DriverWakes ==> self.next(event).leds.level(self.shared.led)
                == self.leds.level(self.shared.led).inverted() && self.next(event).leds.level(
                self.shared.led.toggled(),
            ) == Level::Low,
            !(event is DriverWakes) ==> self.next(event).leds == self.leds,
    {
    }

    /// The rate cell holds the most recently stored reading, and the driver's
    /// next wait is exactly that many milliseconds: whatever happened since,
    /// a driver iteration that follows `events` suspends for the reading last
    /// stored in them.
    pub proof fn lemma_wait_is_last_stored(self, events: Seq<Event>)
        ensures
            self.after(events).shared.idle_time == self.last_stored(events),
            self.after(events).suspends_on(Event::DriverWakes) == Suspend::Timer(
                self.last_stored(events) as u64,
            ),
        decreases events.len(),
    {
        if events.len() > 0 {
            self.lemma_wait_is_last_stored(events.drop_last());
        }
    }

    /// A stored reading stays in force until the next one overwrites it:
    /// after `SampleReady(sample)`, any run of wake-ups that holds no further
    /// sample leaves every driver wait at `sample` milliseconds.
    pub proof fn lemma_rate_holds_until_overwritten(self, sample: u16, events: Seq<Event>)
        requires
            forall|i: int| 0 <= i < events.len() ==> !(#[trigger] events[i] is SampleReady),
        ensures
            self.next(Event::SampleReady(sample)).after(events).shared.idle_time == sample,
            self.next(Event::SampleReady(sample)).after(events).suspends_on(Event::DriverWakes)
                == Suspend::Timer(sample as u64),
        decreases events.len(),
    {
        if events.len() > 0 {
            let front = events.drop_last();
            assert forall|i: int| 0 <= i < front.len() implies !(#[trigger] front[i]
                is SampleReady) by {
                assert(front[i] == events[i]);
            }
            self.lemma_rate_holds_until_overwritten(sample, front);
            assert(!(events[events.len() - 1] is SampleReady));
        }
    }

    /// When a confirmed press moves the selector away from a channel, the
    /// next driver iteration forces that channel off, whether or not it was
    /// energized, and whatever the sampler and further edges did in between as
    /// long as they confirmed no second press. No channel stays stuck on.
    pub proof fn lemma_switch_forces_off(self, between: Seq<Event>)
        requires
            self.coherent(),
            self.watcher.state == WatcherState::WaitingForPress,
            forall|i: int|
                0 <= i < between.len() ==> !(#[trigger] between[i] is DriverWakes) && between[i]
                    != Event::EdgeSeen(Edge::Rising),
        ensures
            self.next(Event::EdgeSeen(Edge::Rising)).shared.led == self.shared.led.toggled(),
            self.next(Event::EdgeSeen(Edge::Rising)).after(between).shared.led
                == self.shared.led.toggled(),
            self.next(Event::EdgeSeen(Edge::Rising)).after(between).next(
                Event::DriverWakes,
            ).leds.level(self.shared.led) == Level::Low,
        decreases between.len(),
    {
        if between.len() > 0 {
            let front = between.drop_last();
            assert forall|i: int| 0 <= i < front.len() implies !(#[trigger] front[i]
                is DriverWakes) && front[i] != Event::EdgeSeen(Edge::Rising) by {
                assert(front[i] == between[i]);
            }
            self.lemma_switch_forces_off(front);
            assert(!(between[between.len() - 1] is DriverWakes));
            assert(between[between.len() - 1] != Event::EdgeSeen(Edge::Rising));
        }
    }

    /// The shared selector follows the confirmed presses one for one: after
    /// any sequence of wake-ups it has been toggled once per confirmed press.
    /// So it is back at its starting value after an even number of presses
    /// and on the other channel after an odd number; from start-up, `Green`
    /// for an even number and `Blue` for an odd one.
    pub proof fn lemma_selector_counts_presses(self, events: Seq<Event>)
        requires
            self.coherent(),
        ensures
            self.after(events).coherent(),
            self.after(events).shared.led == self.shared.led.after_presses(self.presses(events)),
            self.presses(events) % 2 == 0 ==> self.after(events).shared.led == self.shared.led,
            self.presses(events) % 2 == 1 ==> self.after(events).shared.led
                == self.shared.led.toggled(),
        decreases events.len(),
    {
        if events.len() > 0 {
            let front = events.drop_last();
            self.lemma_selector_counts_presses(front);
            self.after(front).lemma_next_keeps_inv(events.last());
            self.shared.led.lemma_after_presses_add(self.presses(front), 1);
            assert(self.shared.led.after_presses(self.presses(front)).after_presses(1)
                == self.shared.led.after_presses(self.presses(front)).toggled()) by {
                reveal_with_fuel(LedType::after_presses, 2);
            }
        }
        self.shared.led.lemma_after_presses_parity(self.presses(events));
    }
}

} // verus!
