//! The interrupt-deferral and debounce engine, driven end to end through
//! the run loop.

use esp32framework::gpio::digital_in::DigitalInError;
use esp32framework::gpio::digital_in::InterruptType;
use esp32framework::gpio::digital_in::InterruptUpdate;
use esp32framework::gpio::digital_in::InterruptUpdateCell;
use esp32framework::gpio::digital_in::Level;
use esp32framework::utils::notification::Notification;
use esp32framework::utils::timer_driver::TimerDriver;
use esp32framework::utils::timer_driver::TimerDriverError;
use esp32framework::microcontroller_src::peripherals::Peripheral;
use esp32framework::ble::ble_connection_oriented::ConnectionInformation;
use esp32framework::Microcontroller;

#[test]
fn cell_write_then_take_round_trips() {
    let mut cell = InterruptUpdateCell::new();
    assert_eq!(cell.take(), InterruptUpdate::NoUpdate);
    cell.write(InterruptUpdate::TimerReached);
    assert_eq!(cell.take(), InterruptUpdate::TimerReached);
    assert_eq!(cell.take(), InterruptUpdate::NoUpdate);
}

#[test]
fn cell_last_write_wins() {
    // Writing update A then B before any take: exactly one take returns B,
    // and A is never observed.
    let mut cell = InterruptUpdateCell::new();
    cell.write(InterruptUpdate::ExecAndEnablePin);
    cell.write(InterruptUpdate::EnableTimerDriver);
    assert_eq!(cell.take(), InterruptUpdate::EnableTimerDriver);
    assert_eq!(cell.take(), InterruptUpdate::NoUpdate);
}

#[test]
fn unrecognized_code_decodes_to_no_update() {
    assert_eq!(InterruptUpdate::from_code(0), InterruptUpdate::ExecAndEnablePin);
    assert_eq!(InterruptUpdate::from_code(3), InterruptUpdate::ExecAndUnsubscribePin);
    assert_eq!(InterruptUpdate::from_code(4), InterruptUpdate::NoUpdate);
    assert_eq!(InterruptUpdate::from_code(200), InterruptUpdate::NoUpdate);
    assert_eq!(InterruptUpdate::ExecAndUnsubscribePin.get_code(), 3);
}

#[test]
fn notify_is_idempotent_before_one_wait() {
    // Two notifies before a single blocking wait collapse to exactly one
    // wake: after the wait, no second wake is pending.
    let mut notification = Notification::new();
    assert!(!notification.has_pending_wake());
    notification.notify();
    notification.notify();
    assert!(notification.has_pending_wake());
    notification.blocking_wait();
    assert!(!notification.has_pending_wake());
    assert!(!notification.take_wake());
}

#[test]
fn timer_counts_down_and_fires_once() {
    let mut timer = TimerDriver::new(Peripheral::Timer(1), None).unwrap();
    timer.interrupt_after(500);
    assert!(timer.enable().is_ok());
    assert!(!timer.advance(499));
    assert!(!timer.take_expiry());
    timer.advance(1);
    assert!(timer.take_expiry());
    // One-shot: it does not fire again without a re-arm and enable.
    assert!(!timer.advance(10_000));
    assert!(!timer.take_expiry());
}

#[test]
fn timer_rejects_start_without_alarm() {
    let mut timer = TimerDriver::new(Peripheral::Timer(0), None).unwrap();
    assert_eq!(timer.enable(), Err(TimerDriverError::AlarmNotSet));
    match TimerDriver::new(Peripheral::Pin(3), None) {
        Err(e) => assert_eq!(e, TimerDriverError::InvalidPeripheral),
        Ok(_) => panic!("a pin peripheral must not become a timer"),
    }
}

#[test]
fn no_callback_executes_outside_the_run_loop() {
    // However many interrupts are injected, callbacks execute only during
    // an update pass, never at the injection point.
    let mut micro = Microcontroller::new();
    let button = micro.set_pin_as_digital_in(9).unwrap();
    micro.digital_in_mut(button).trigger_on_interrupt(InterruptType::NegEdge).unwrap();
    micro.pin_interrupt(button);
    micro.pin_interrupt(button);
    micro.advance_time(1_000_000);
    assert_eq!(micro.digital_in(button).times_fired(), 0);
    micro.update().unwrap();
    assert_eq!(micro.digital_in(button).times_fired(), 1);
}

#[test]
fn raw_trigger_fires_on_every_drained_edge() {
    let mut micro = Microcontroller::new();
    let button = micro.set_pin_as_digital_in(9).unwrap();
    micro.digital_in_mut(button).trigger_on_interrupt(InterruptType::NegEdge).unwrap();
    for _ in 0..3 {
        micro.pin_interrupt(button);
        micro.update().unwrap();
    }
    assert_eq!(micro.digital_in(button).times_fired(), 3);
    assert!(micro.digital_in(button).is_interrupt_enabled());
}

#[test]
fn debounce_confirms_on_stable_level() {
    // Falling edge with a debounce: if the level is still low when the
    // debounce timer expires, the callback fires exactly once.
    let mut micro = Microcontroller::new();
    let button = micro.set_pin_as_digital_in(9).unwrap();
    micro.digital_in_mut(button).set_debounce(200_000).unwrap();
    micro.digital_in_mut(button).trigger_on_interrupt(InterruptType::NegEdge).unwrap();
    micro.set_level(button, Level::Low);
    micro.pin_interrupt(button);
    micro.update().unwrap();
    assert_eq!(micro.digital_in(button).times_fired(), 0);
    micro.advance_time(200_000);
    micro.update().unwrap();
    assert_eq!(micro.digital_in(button).times_fired(), 1);
    assert!(micro.digital_in(button).is_interrupt_enabled());
}

#[test]
fn debounce_rejects_reverted_level() {
    // Falling edge with a debounce: if the level returned high before the
    // timer expired, the edge was noise — no callback, and the device is
    // idle and re-armable.
    let mut micro = Microcontroller::new();
    let button = micro.set_pin_as_digital_in(9).unwrap();
    micro.digital_in_mut(button).set_debounce(200_000).unwrap();
    micro.digital_in_mut(button).trigger_on_interrupt(InterruptType::NegEdge).unwrap();
    micro.set_level(button, Level::Low);
    micro.pin_interrupt(button);
    micro.update().unwrap();
    micro.set_level(button, Level::High);
    micro.advance_time(200_000);
    micro.update().unwrap();
    assert_eq!(micro.digital_in(button).times_fired(), 0);
    assert!(micro.digital_in(button).is_interrupt_enabled());
    // Re-armable: a second, stable edge confirms.
    micro.set_level(button, Level::Low);
    micro.pin_interrupt(button);
    micro.update().unwrap();
    micro.advance_time(200_000);
    micro.update().unwrap();
    assert_eq!(micro.digital_in(button).times_fired(), 1);
}

#[test]
fn end_to_end_debounced_falling_edge() {
    // Trigger on a falling edge with a 200,000 microsecond debounce;
    // inject the edge, hold the level low for 199,999 microseconds — no
    // callback yet; two more microseconds — the callback fires exactly
    // once and the pin interrupt is active again.
    let mut micro = Microcontroller::new();
    let button = micro.set_pin_as_digital_in(9).unwrap();
    micro.digital_in_mut(button).set_debounce(200_000).unwrap();
    micro.digital_in_mut(button).trigger_on_interrupt(InterruptType::NegEdge).unwrap();
    micro.set_level(button, Level::Low);

    micro.pin_interrupt(button);
    assert!(micro.has_pending_wake());
    micro.wait_for_updates(None).unwrap();

    micro.advance_time(199_999);
    micro.wait_for_updates(None).unwrap();
    assert_eq!(micro.digital_in(button).times_fired(), 0);

    micro.advance_time(2);
    micro.wait_for_updates(None).unwrap();
    assert_eq!(micro.digital_in(button).times_fired(), 1);
    assert!(micro.digital_in(button).is_interrupt_enabled());
}

#[test]
fn n_times_trigger_terminates() {
    // Fire exactly 3 times: after the third confirmed firing, a fourth
    // real edge produces no callback and the device consumes no further
    // updates.
    let mut micro = Microcontroller::new();
    let button = micro.set_pin_as_digital_in(9).unwrap();
    micro
        .digital_in_mut(button)
        .trigger_on_interrupt_first_n_times(3, InterruptType::NegEdge)
        .unwrap();
    for _ in 0..3 {
        micro.pin_interrupt(button);
        micro.update().unwrap();
    }
    assert_eq!(micro.digital_in(button).times_fired(), 3);
    assert!(!micro.digital_in(button).is_subscribed());
    micro.pin_interrupt(button);
    micro.update().unwrap();
    assert_eq!(micro.digital_in(button).times_fired(), 3);
    assert!(!micro.digital_in(button).is_subscribed());
}

#[test]
fn zero_times_trigger_subscribes_nothing() {
    let mut micro = Microcontroller::new();
    let button = micro.set_pin_as_digital_in(9).unwrap();
    micro
        .digital_in_mut(button)
        .trigger_on_interrupt_first_n_times(0, InterruptType::NegEdge)
        .unwrap();
    assert!(!micro.digital_in(button).is_subscribed());
    micro.pin_interrupt(button);
    micro.update().unwrap();
    assert_eq!(micro.digital_in(button).times_fired(), 0);
}

#[test]
fn debounce_recheck_uses_trigger_configured_at_drain_time() {
    // The level re-check compares against the level implied by the trigger
    // type as configured when the expiry is drained: reconfiguring the
    // trigger while the debounce timer is in flight changes the outcome of
    // the check. This ordering is an explicit invariant of the engine.
    let mut micro = Microcontroller::new();
    let button = micro.set_pin_as_digital_in(9).unwrap();
    micro.digital_in_mut(button).set_debounce(1_000).unwrap();
    micro.digital_in_mut(button).trigger_on_interrupt(InterruptType::NegEdge).unwrap();
    micro.set_level(button, Level::Low);
    micro.pin_interrupt(button);
    micro.update().unwrap();
    // While the timer runs, the trigger is reconfigured to a high level.
    micro.digital_in_mut(button).change_interrupt_type(InterruptType::HighLevel).unwrap();
    micro.advance_time(1_000);
    micro.update().unwrap();
    // The low level no longer matches the reconfigured trigger: no firing.
    assert_eq!(micro.digital_in(button).times_fired(), 0);
    assert!(micro.digital_in(button).is_interrupt_enabled());
}

#[test]
fn n_times_with_debounce_counts_confirmed_firings() {
    // A limited trigger keeps its firing budget through the debounce
    // chain: each confirmed level re-check spends one firing, a rejected
    // one spends none, and the last confirmed firing unsubscribes the pin.
    let mut micro = Microcontroller::new();
    let button = micro.set_pin_as_digital_in(9).unwrap();
    micro.digital_in_mut(button).set_debounce(1_000).unwrap();
    micro
        .digital_in_mut(button)
        .trigger_on_interrupt_first_n_times(2, InterruptType::NegEdge)
        .unwrap();

    // First confirmed firing: budget goes from two to one, still armed.
    micro.set_level(button, Level::Low);
    micro.pin_interrupt(button);
    micro.update().unwrap();
    micro.advance_time(1_000);
    micro.update().unwrap();
    assert_eq!(micro.digital_in(button).times_fired(), 1);
    assert!(micro.digital_in(button).is_subscribed());
    assert!(micro.digital_in(button).is_interrupt_enabled());

    // A rejected re-check is noise: no firing, no budget spent.
    micro.pin_interrupt(button);
    micro.update().unwrap();
    micro.set_level(button, Level::High);
    micro.advance_time(1_000);
    micro.update().unwrap();
    assert_eq!(micro.digital_in(button).times_fired(), 1);
    assert!(micro.digital_in(button).is_subscribed());

    // Second confirmed firing is the last: the device unsubscribes.
    micro.set_level(button, Level::Low);
    micro.pin_interrupt(button);
    micro.update().unwrap();
    micro.advance_time(1_000);
    micro.update().unwrap();
    assert_eq!(micro.digital_in(button).times_fired(), 2);
    assert!(!micro.digital_in(button).is_subscribed());

    // A further edge produces nothing: the device is terminal.
    micro.pin_interrupt(button);
    micro.update().unwrap();
    assert_eq!(micro.digital_in(button).times_fired(), 2);
}

#[test]
fn any_edge_without_debounce_propagates_raw_edges() {
    // An any-edge trigger is legitimate on its own: without a debounce,
    // raw edges propagate and the callback fires on every drained edge.
    let mut micro = Microcontroller::new();
    let button = micro.set_pin_as_digital_in(9).unwrap();
    micro.digital_in_mut(button).trigger_on_interrupt(InterruptType::AnyEdge).unwrap();
    micro.pin_interrupt(button);
    micro.update().unwrap();
    assert_eq!(micro.digital_in(button).times_fired(), 1);
    // The combination stays rejected from the other side: a debounce
    // cannot be configured while the trigger is any-edge.
    assert_eq!(
        micro.digital_in_mut(button).set_debounce(1_000),
        Err(DigitalInError::CannotSetDebounceOnAnyEdgeInterruptType)
    );
}

#[test]
fn debounce_rejected_on_any_edge_trigger() {
    // With a debounce configured, an any-edge trigger resolves to no
    // stable level for the re-check, so the combination is rejected.
    let mut micro = Microcontroller::new();
    let button = micro.set_pin_as_digital_in(9).unwrap();
    micro.digital_in_mut(button).set_debounce(1_000).unwrap();
    assert_eq!(
        micro.digital_in_mut(button).trigger_on_interrupt(InterruptType::AnyEdge),
        Err(DigitalInError::CannotSetDebounceOnAnyEdgeInterruptType)
    );
    assert_eq!(
        micro.digital_in_mut(button).change_interrupt_type(InterruptType::AnyEdge),
        Err(DigitalInError::CannotSetDebounceOnAnyEdgeInterruptType)
    );
}

#[test]
fn pin_checkout_is_exclusive() {
    let mut micro = Microcontroller::new();
    let first = micro.set_pin_as_digital_in(9);
    assert!(first.is_ok());
    assert_eq!(micro.set_pin_as_digital_in(9), Err(DigitalInError::InvalidPeripheral));
    assert_eq!(micro.set_pin_as_digital_in(150), Err(DigitalInError::InvalidPeripheral));
}

#[test]
fn timer_pool_exhaustion_is_reported() {
    // The arena offers four hardware timers; the run loop itself reserves
    // one, so the fourth device finds the pool exhausted.
    let mut micro = Microcontroller::new();
    assert!(micro.set_pin_as_digital_in(1).is_ok());
    assert!(micro.set_pin_as_digital_in(2).is_ok());
    assert!(micro.set_pin_as_digital_in(3).is_ok());
    assert_eq!(
        micro.set_pin_as_digital_in(4),
        Err(DigitalInError::TimerDriverError(TimerDriverError::TooManyTimers))
    );
}

#[test]
fn levels_are_readable() {
    let mut micro = Microcontroller::new();
    let button = micro.set_pin_as_digital_in(9).unwrap();
    assert!(micro.digital_in(button).is_low());
    micro.set_level(button, Level::High);
    assert!(micro.digital_in(button).is_high());
    assert_eq!(micro.digital_in(button).get_level(), Level::High);
}

fn ble_event(handle: u16) -> ConnectionInformation {
    ConnectionInformation::from_connection_values(
        [1, 2, 3, 4, 5, 6],
        [1, 2, 3, 4, 5, 6],
        handle,
        10,
        100,
        0,
        23,
        false,
        false,
        false,
        16,
        Ok(-40),
        true,
        None,
    )
}

#[test]
fn run_loop_drains_registered_ble_server() {
    // A registered BLE server is an interrupt-driven device of the loop:
    // queued connection events are handed to the user's callbacks only
    // during an update pass, never at the injection point.
    let mut micro = Microcontroller::new();
    let server = micro.ble_server(String::from("node"), vec![]);
    micro.on_ble_connection(server, ble_event(1));
    micro.on_ble_connection(server, ble_event(2));
    micro.on_ble_disconnection(server, ble_event(1));
    assert!(micro.has_pending_wake());
    assert_eq!(micro.ble_server_ref(server).get_connections_handled(), 0);
    assert_eq!(micro.ble_server_ref(server).get_disconnections_handled(), 0);
    micro.update().unwrap();
    assert_eq!(micro.ble_server_ref(server).get_connections_handled(), 2);
    assert_eq!(micro.ble_server_ref(server).get_disconnections_handled(), 1);
    // The queues are empty after the pass.
    assert!(micro.ble_server_mut(server).handle_connection_changes().is_empty());
}

#[test]
fn run_loop_drains_pin_devices_and_servers_in_one_pass() {
    let mut micro = Microcontroller::new();
    let button = micro.set_pin_as_digital_in(9).unwrap();
    micro.digital_in_mut(button).trigger_on_interrupt(InterruptType::NegEdge).unwrap();
    let server = micro.ble_server(String::from("node"), vec![]);
    micro.pin_interrupt(button);
    micro.on_ble_connection(server, ble_event(3));
    micro.wait_for_updates(None).unwrap();
    assert_eq!(micro.digital_in(button).times_fired(), 1);
    assert_eq!(micro.ble_server_ref(server).get_connections_handled(), 1);
}

#[test]
fn bounded_wait_reports_timeout_after_time_passes() {
    let mut micro = Microcontroller::new();
    micro.wait_for_updates(Some(50)).unwrap();
    assert!(!micro.is_timed_out());
    micro.advance_time(49_999);
    micro.wait_for_updates(None).unwrap();
    assert!(!micro.is_timed_out());
    micro.advance_time(1);
    assert!(micro.has_pending_wake());
    micro.wait_for_updates(None).unwrap();
    assert!(micro.is_timed_out());
}
