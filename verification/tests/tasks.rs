use indicator_core::driver::{led_task_step, DriverStep};
use indicator_core::output::{Leds, Level};
use indicator_core::sampler::{potentiometer_task_step, SamplerStep, POLL_INTERVAL_MS};
use indicator_core::selector::LedType;
use indicator_core::shared::{Shared, INITIAL_IDLE_TIME};
use indicator_core::watcher::{Edge, Watcher, WatcherState};

#[test]
fn selector_starts_on_primary() {
    assert_eq!(LedType::new(), LedType::Green);
}

#[test]
fn toggle_switches_between_the_two_channels() {
    let mut led = LedType::Green;
    led.toggle();
    assert_eq!(led, LedType::Blue);
    led.toggle();
    assert_eq!(led, LedType::Green);
}

#[test]
fn selector_parity_follows_number_of_toggles() {
    for n in 0..25u32 {
        let mut led = LedType::new();
        for _ in 0..n {
            led.toggle();
        }
        let expected = if n % 2 == 0 { LedType::Green } else { LedType::Blue };
        assert_eq!(led, expected, "after {} toggles", n);
    }
}

#[test]
fn level_invert_is_logical_not() {
    assert_eq!(Level::Low.invert(), Level::High);
    assert_eq!(Level::High.invert(), Level::Low);
}

#[test]
fn channels_start_with_green_energized() {
    let leds = Leds::new();
    assert_eq!(leds, Leds { green: Level::High, blue: Level::Low });
    assert_eq!(leds.level_of(LedType::Green), Level::High);
    assert_eq!(leds.level_of(LedType::Blue), Level::Low);
}

#[test]
fn set_low_touches_one_channel_only() {
    let mut leds = Leds { green: Level::High, blue: Level::High };
    leds.set_low(LedType::Blue);
    assert_eq!(leds, Leds { green: Level::High, blue: Level::Low });
    leds.set_low(LedType::Blue);
    assert_eq!(leds, Leds { green: Level::High, blue: Level::Low });
    leds.set_low(LedType::Green);
    assert_eq!(leds, Leds { green: Level::Low, blue: Level::Low });
}

#[test]
fn toggle_flips_one_channel_only() {
    let mut leds = Leds { green: Level::Low, blue: Level::Low };
    leds.toggle(LedType::Green);
    assert_eq!(leds, Leds { green: Level::High, blue: Level::Low });
    leds.toggle(LedType::Green);
    assert_eq!(leds, Leds { green: Level::Low, blue: Level::Low });
    leds.toggle(LedType::Blue);
    assert_eq!(leds, Leds { green: Level::Low, blue: Level::High });
}

#[test]
fn driver_step_for_primary_channel() {
    let step = led_task_step(LedType::Green, 500);
    assert_eq!(
        step,
        DriverStep { hold_low: LedType::Blue, toggle: LedType::Green, wait_ms: 500 }
    );
}

#[test]
fn driver_step_for_secondary_channel() {
    let step = led_task_step(LedType::Blue, 7);
    assert_eq!(
        step,
        DriverStep { hold_low: LedType::Green, toggle: LedType::Blue, wait_ms: 7 }
    );
}

#[test]
fn driver_wait_is_the_rate_verbatim() {
    assert_eq!(led_task_step(LedType::Green, 0).wait_ms, 0);
    assert_eq!(led_task_step(LedType::Green, 1).wait_ms, 1);
    assert_eq!(led_task_step(LedType::Blue, 4095).wait_ms, 4095);
    assert_eq!(led_task_step(LedType::Blue, u16::MAX).wait_ms, 65535);
}

#[test]
fn driver_step_forces_other_channel_off_before_toggling() {
    let mut leds = Leds { green: Level::High, blue: Level::Low };
    led_task_step(LedType::Blue, 10).apply(&mut leds);
    assert_eq!(leds, Leds { green: Level::Low, blue: Level::High });
    led_task_step(LedType::Blue, 10).apply(&mut leds);
    assert_eq!(leds, Leds { green: Level::Low, blue: Level::Low });
    led_task_step(LedType::Green, 10).apply(&mut leds);
    assert_eq!(leds, Leds { green: Level::High, blue: Level::Low });
}

#[test]
fn driver_step_never_leaves_both_channels_energized() {
    let levels = [Level::Low, Level::High];
    for green in levels {
        for blue in levels {
            for led in [LedType::Green, LedType::Blue] {
                let mut leds = Leds { green, blue };
                led_task_step(led, 0).apply(&mut leds);
                assert!(!(leds.green == Level::High && leds.blue == Level::High));
                let other = if led == LedType::Green { LedType::Blue } else { LedType::Green };
                assert_eq!(leds.level_of(other), Level::Low);
                let before = if led == LedType::Green { green } else { blue };
                assert_eq!(leds.level_of(led), before.invert());
            }
        }
    }
}

#[test]
fn sampler_stores_the_raw_reading() {
    assert_eq!(potentiometer_task_step(1234), SamplerStep { store: 1234, wait_ms: 100 });
    assert_eq!(potentiometer_task_step(0), SamplerStep { store: 0, wait_ms: 100 });
    assert_eq!(
        potentiometer_task_step(u16::MAX),
        SamplerStep { store: 65535, wait_ms: 100 }
    );
}

#[test]
fn sampler_polls_every_hundred_milliseconds() {
    assert_eq!(POLL_INTERVAL_MS, 100);
    assert_eq!(potentiometer_task_step(42).wait_ms, POLL_INTERVAL_MS);
}

#[test]
fn shared_cells_start_at_primary_and_zero() {
    let shared = Shared::new();
    assert_eq!(shared.led(), LedType::Green);
    assert_eq!(shared.load(), 0);
    assert_eq!(INITIAL_IDLE_TIME, 0);
}

#[test]
fn set_led_replaces_the_selector_only() {
    let mut shared = Shared::new();
    shared.store(321);
    shared.set_led(LedType::Blue);
    assert_eq!(shared.led(), LedType::Blue);
    assert_eq!(shared.load(), 321);
    shared.set_led(LedType::Blue);
    assert_eq!(shared.led(), LedType::Blue);
    shared.set_led(LedType::Green);
    assert_eq!(shared.led(), LedType::Green);
    assert_eq!(shared.load(), 321);
}

#[test]
fn store_replaces_the_rate_only() {
    let mut shared = Shared::new();
    shared.set_led(LedType::Blue);
    shared.store(500);
    assert_eq!(shared.load(), 500);
    shared.store(0);
    assert_eq!(shared.load(), 0);
    assert_eq!(shared.led(), LedType::Blue);
}

#[test]
fn watcher_starts_waiting_for_a_press() {
    let watcher = Watcher::new();
    assert_eq!(watcher.state, WatcherState::WaitingForPress);
    assert_eq!(watcher.led_type, LedType::Green);
    assert_eq!(watcher.awaited_edge(), Edge::Rising);
}

#[test]
fn press_release_press_scenario() {
    let mut watcher = Watcher::new();

    let write = watcher.on_edge(Edge::Rising);
    assert_eq!(write, Some(LedType::Blue));
    assert_eq!(watcher.led_type, LedType::Blue);
    assert_eq!(watcher.state, WatcherState::WaitingForRelease);
    assert_eq!(watcher.awaited_edge(), Edge::Falling);

    let write = watcher.on_edge(Edge::Falling);
    assert_eq!(write, None);
    assert_eq!(watcher.led_type, LedType::Blue);
    assert_eq!(watcher.state, WatcherState::WaitingForPress);
    assert_eq!(watcher.awaited_edge(), Edge::Rising);

    let write = watcher.on_edge(Edge::Rising);
    assert_eq!(write, Some(LedType::Green));
    assert_eq!(watcher.led_type, LedType::Green);
    assert_eq!(watcher.state, WatcherState::WaitingForRelease);
}

#[test]
fn watcher_ignores_edges_it_does_not_wait_for() {
    let mut watcher = Watcher::new();
    assert_eq!(watcher.on_edge(Edge::Falling), None);
    assert_eq!(watcher, Watcher::new());

    watcher.on_edge(Edge::Rising);
    let pressed = watcher;
    assert_eq!(watcher.on_edge(Edge::Rising), None);
    assert_eq!(watcher, pressed);
    assert_eq!(watcher.led_type, LedType::Blue);
}

#[test]
fn watcher_writes_once_per_press() {
    let mut watcher = Watcher::new();
    let mut writes = 0;
    for n in 1..=20u32 {
        if watcher.on_edge(Edge::Rising).is_some() {
            writes += 1;
        }
        if watcher.on_edge(Edge::Falling).is_some() {
            writes += 1;
        }
        assert_eq!(writes, n);
        let expected = if n % 2 == 0 { LedType::Green } else { LedType::Blue };
        assert_eq!(watcher.led_type, expected);
        assert_eq!(watcher.state, WatcherState::WaitingForPress);
    }
}
