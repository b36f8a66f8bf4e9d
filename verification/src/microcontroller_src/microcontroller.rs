//! The cooperative run loop.
//!
//! The microcontroller owns the peripheral arena, the registered
//! interrupt-driven devices, the notification the devices signal, and a
//! timeout timer for bounded waits. Interrupt entry points only record
//! pending work; one `update` pass performs it all on the consumer thread,
//! draining every device's timer chain before it drains any device's own
//! update — a timer expiry can gate whether a device fires on the pass, so
//! this ordering is an invariant of the loop, not an accident.

use vstd::prelude::*;

use crate::ble::ble_connection_oriented::BleServer;
use crate::ble::ble_connection_oriented::ConnectionInformation;
use crate::ble::service::Service;
use crate::gpio::digital_in::DigitalIn;
use crate::gpio::digital_in::DigitalInError;
use crate::microcontroller_src::peripherals::Peripheral;
use crate::microcontroller_src::peripherals::Peripherals;
use crate::microcontroller_src::peripherals::TIMER_COUNT;
use crate::utils::esp32_framework_error::Esp32FrameworkError;
use crate::utils::notification::Notification;
use crate::utils::timer_driver::TimerDriver;
use crate::utils::timer_driver::TimerDriverError;

verus! {

/// Every device's timer chain drained: each pending timer expiry has become
/// the `TimerReached` update in its device's cell.
pub open spec fn devices_timer_drained(s: Seq<DigitalIn>) -> Seq<DigitalIn> {
    s.map_values(|d: DigitalIn| d.timer_drained())
}

/// The registered devices after one drain pass in registration order. A
/// device whose drain raises an error stops the pass: the devices after it
/// keep their pending updates.
pub open spec fn devices_drained(s: Seq<DigitalIn>) -> Seq<DigitalIn>
    decreases s.len(),
{
    if s.len() == 0 {
        s
    } else if s[0].drain_error() is Some {
        seq![s[0].drained()] + s.drop_first()
    } else {
        seq![s[0].drained()] + devices_drained(s.drop_first())
    }
}

/// The first error one drain pass raises, if any.
pub open spec fn devices_drain_error(s: Seq<DigitalIn>) -> Option<DigitalInError>
    decreases s.len(),
{
    if s.len() == 0 {
        Option::<DigitalInError>::None
    } else if s[0].drain_error() is Some {
        s[0].drain_error()
    } else {
        devices_drain_error(s.drop_first())
    }
}

/// A drain pass is one device at a time, left to right: after `j` devices
/// drained without error, what remains is the drain of the rest.
proof fn lemma_devices_drained_split(s: Seq<DigitalIn>, j: int)
    requires
        0 <= j <= s.len(),
        forall|i: int| 0 <= i < j ==> s[i].drain_error() is None,
    ensures
        devices_drained(s) == Seq::new(j as nat, |i: int| s[i].drained()) + devices_drained(
            s.skip(j),
        ),
        devices_drain_error(s) == devices_drain_error(s.skip(j)),
    decreases j,
{
    if j == 0 {
        assert(s.skip(0) == s);
        assert(Seq::new(0, |i: int| s[i].drained()) + devices_drained(s) =~= devices_drained(s));
    } else {
        let rest = s.drop_first();
        assert(forall|i: int| 0 <= i < j - 1 ==> rest[i].drain_error() is None);
        lemma_devices_drained_split(rest, j - 1);
        assert(rest.skip(j - 1) =~= s.skip(j));
        assert(devices_drained(s) == seq![s[0].drained()] + devices_drained(rest));
        assert(seq![s[0].drained()] + (Seq::new((j - 1) as nat, |i: int| rest[i].drained())
            + devices_drained(rest.skip(j - 1))) =~= Seq::new(j as nat, |i: int| s[i].drained())
            + devices_drained(s.skip(j)));
    }
}

/// The orchestrator: owns the peripherals, the registered devices, the run
/// loop's notification and the timeout timer of bounded waits.
pub struct Microcontroller {
    peripherals: Peripherals,
    digital_ins: Vec<DigitalIn>,
    ble_servers: Vec<BleServer>,
    notification: Notification,
    timeout_timer: TimerDriver,
    timed_out: bool,
}

impl Microcontroller {
    /// The registered interrupt-driven devices, in registration order.
    pub closed spec fn devices(self) -> Seq<DigitalIn> {
        self.digital_ins@
    }

    /// The registered BLE servers, in registration order.
    pub closed spec fn servers(self) -> Seq<BleServer> {
        self.ble_servers@
    }

    /// The arena of peripheral slots.
    pub closed spec fn peripherals(self) -> Peripherals {
        self.peripherals
    }

    /// The notification the run loop waits on.
    pub closed spec fn notification(self) -> Notification {
        self.notification
    }

    /// The timer behind bounded waits.
    pub closed spec fn timeout_timer(self) -> TimerDriver {
        self.timeout_timer
    }

    /// Whether the armed bounded wait has elapsed.
    pub closed spec fn timed_out(self) -> bool {
        self.timed_out
    }

    /// Creates a microcontroller with a fresh peripheral arena. One hardware
    /// timer is reserved for the run loop's own timeout mechanism; the rest
    /// stay available to devices.
    pub fn new() -> (micro: Microcontroller)
        ensures
            micro.devices() == Seq::<DigitalIn>::empty(),
            micro.servers() == Seq::<BleServer>::empty(),
            !micro.notification().is_signaled(),
            !micro.timed_out(),
            micro.timeout_timer().armed_delay() is None,
            !micro.timeout_timer().is_enabled(),
            !micro.timeout_timer().has_expiry_pending(),
            micro.timeout_timer().is_wired(),
            forall|pin: int| 0 <= pin < crate::microcontroller_src::peripherals::PIN_COUNT
                ==> micro.peripherals().pin_free(pin),
            forall|timer: int| 1 <= timer < TIMER_COUNT ==> micro.peripherals().timer_free(timer),
            !micro.peripherals().timer_free(0),
            micro.peripherals().i2c_free(),
            micro.peripherals().ble_free(),
    {
        let mut peripherals = Peripherals::new();
        let per = peripherals.get_timer(0);
        let notification = Notification::new();
        let timeout_timer = match TimerDriver::new(per, Some(notification.notifier())) {
            Ok(timer) => timer,
            Err(_) => vstd::pervasive::unreached(),
        };
        Microcontroller {
            peripherals,
            digital_ins: Vec::new(),
            ble_servers: Vec::new(),
            notification,
            timeout_timer,
            timed_out: false,
        }
    }

    /// Reserves the next free hardware timer as a driver wired to the run
    /// loop's notification. Fails exactly when the pool is exhausted.
    pub fn get_timer_driver(&mut self) -> (result: Result<TimerDriver, TimerDriverError>)
        ensures
            final(self).devices() == old(self).devices(),
            final(self).servers() == old(self).servers(),
            final(self).notification() == old(self).notification(),
            final(self).timeout_timer() == old(self).timeout_timer(),
            final(self).timed_out() == old(self).timed_out(),
            forall|pin: int| final(self).peripherals().pin_free(pin) == old(self).peripherals().pin_free(pin),
            final(self).peripherals().i2c_free() == old(self).peripherals().i2c_free(),
            final(self).peripherals().ble_free() == old(self).peripherals().ble_free(),
            match result {
                Ok(timer) => {
                    &&& exists|t: int|
                        0 <= t < TIMER_COUNT && old(self).peripherals().timer_free(t) && !final(self).peripherals().timer_free(t)
                    &&& timer.armed_delay() is None
                    &&& !timer.is_enabled()
                    &&& !timer.has_expiry_pending()
                    &&& timer.is_wired()
                },
                Err(e) => {
                    &&& e == TimerDriverError::TooManyTimers
                    &&& forall|t: int|
                        0 <= t < TIMER_COUNT ==> !old(self).peripherals().timer_free(t)
                    &&& forall|t: int|
                        final(self).peripherals().timer_free(t) == old(self).peripherals().timer_free(t)
                },
            },
    {
        let mut i: usize = 0;
        while i < TIMER_COUNT as usize
            invariant
                i <= TIMER_COUNT,
                forall|t: int| 0 <= t < i ==> !old(self).peripherals().timer_free(t),
                forall|t: int|
                    self.peripherals.timer_free(t) == old(self).peripherals().timer_free(t),
                forall|pin: int|
                    self.peripherals.pin_free(pin) == old(self).peripherals().pin_free(pin),
                self.peripherals.i2c_free() == old(self).peripherals().i2c_free(),
                self.peripherals.ble_free() == old(self).peripherals().ble_free(),
                self.digital_ins == old(self).digital_ins,
                self.ble_servers == old(self).ble_servers,
                self.notification == old(self).notification,
                self.timeout_timer == old(self).timeout_timer,
                self.timed_out == old(self).timed_out,
            decreases TIMER_COUNT - i,
        {
            let per = self.peripherals.get_timer(i);
            match per {
                Peripheral::Timer(_) => {
                    let notifier = self.notification.notifier();
                    return TimerDriver::new(per, Some(notifier));
                },
                _ => {},
            }
            i = i + 1;
        }
        Err(TimerDriverError::TooManyTimers)
    }

    /// Creates a digital input on pin `pin_num`, registers it as an
    /// interrupt-driven device of the run loop, and returns its handle in
    /// the drain order. Fails when the pin is invalid or already checked
    /// out, or when no hardware timer is left for its debounce chain.
    pub fn set_pin_as_digital_in(&mut self, pin_num: usize) -> (result: Result<
        usize,
        DigitalInError,
    >)
        ensures
            final(self).servers() == old(self).servers(),
            final(self).notification() == old(self).notification(),
            final(self).timeout_timer() == old(self).timeout_timer(),
            final(self).timed_out() == old(self).timed_out(),
            final(self).peripherals().i2c_free() == old(self).peripherals().i2c_free(),
            final(self).peripherals().ble_free() == old(self).peripherals().ble_free(),
            forall|p: int| p != pin_num ==> final(self).peripherals().pin_free(p) == old(self).peripherals().pin_free(p),
            match result {
                Ok(handle) => {
                    &&& old(self).peripherals().pin_free(pin_num as int)
                    &&& !final(self).peripherals().pin_free(pin_num as int)
                    &&& handle == old(self).devices().len()
                    &&& final(self).devices().len() == old(self).devices().len() + 1
                    &&& final(self).devices().drop_last() == old(self).devices()
                    &&& {
                        let d = final(self).devices().last();
                        &&& d.pin_num() == pin_num as u8
                        &&& d.trigger() is None
                        &&& d.pending_update() == crate::gpio::digital_in::InterruptUpdate::NoUpdate
                        &&& d.debounce() is None
                        &&& d.pull() == crate::gpio::digital_in::Pull::Down
                        &&& d.level() == crate::gpio::digital_in::Level::Low
                        &&& d.subscription()
                            == crate::gpio::digital_in::PinSubscription::Unsubscribed
                        &&& !d.interrupt_enabled()
                        &&& d.wired()
                        &&& d.fired() == 0
                        &&& d.timer().armed_delay() is None
                        &&& !d.timer().is_enabled()
                        &&& !d.timer().has_expiry_pending()
                        &&& d.timer().is_wired()
                    }
                },
                Err(e) => {
                    &&& final(self).devices() == old(self).devices()
                    &&& (e == DigitalInError::InvalidPeripheral && !old(self).peripherals().pin_free(pin_num as int) || e == DigitalInError::TimerDriverError(
                        TimerDriverError::TooManyTimers,
                    ) && old(self).peripherals().pin_free(pin_num as int) && (forall|t: int|
                        0 <= t < TIMER_COUNT ==> !old(self).peripherals().timer_free(t)))
                },
            },
    {
        let per = self.peripherals.get_digital_pin(pin_num);
        let pin_ok = match per {
            Peripheral::Pin(_) => true,
            _ => false,
        };
        if !pin_ok {
            return Err(DigitalInError::InvalidPeripheral);
        }
        let timer_driver = match self.get_timer_driver() {
            Ok(timer_driver) => timer_driver,
            Err(e) => {
                return Err(DigitalInError::TimerDriverError(e));
            },
        };
        let notifier = self.notification.notifier();
        let digital_in = match DigitalIn::new(timer_driver, per, Some(notifier)) {
            Ok(digital_in) => digital_in,
            Err(_) => vstd::pervasive::unreached(),
        };
        self.digital_ins.push(digital_in);
        Ok(self.digital_ins.len() - 1)
    }

    /// A shared borrow of a registered device, by its handle.
    pub fn digital_in(&self, device: usize) -> (digital_in: &DigitalIn)
        requires
            device < self.devices().len(),
        ensures
            *digital_in == self.devices()[device as int],
    {
        &self.digital_ins[device]
    }

    /// A mutable borrow of a registered device, by its handle, for
    /// configuring its trigger and debounce.
    pub fn digital_in_mut(&mut self, device: usize) -> (digital_in: &mut DigitalIn)
        requires
            device < old(self).devices().len(),
        ensures
            *digital_in == old(self).devices()[device as int],
            final(self).devices() == old(self).devices().update(
                device as int,
                *final(digital_in),
            ),
            final(self).servers() == old(self).servers(),
            final(self).peripherals() == old(self).peripherals(),
            final(self).notification() == old(self).notification(),
            final(self).timeout_timer() == old(self).timeout_timer(),
            final(self).timed_out() == old(self).timed_out(),
    {
        &mut self.digital_ins[device]
    }

    /// The entry the hardware layer calls in interrupt context when the
    /// trigger condition of device `device` is raised: the device's handler
    /// stores its one pending update and its notifier wakes the run loop.
    /// No user callback executes here — every device's callback count is
    /// left exactly as it was.
    pub fn pin_interrupt(&mut self, device: usize)
        requires
            device < old(self).devices().len(),
        ensures
            final(self).devices() == old(self).devices().update(
                device as int,
                old(self).devices()[device as int].pin_interrupted(),
            ),
            final(self).notification() == (if old(self).devices()[device as int].pin_interrupt_wakes() {
                old(self).notification().notified()
            } else {
                old(self).notification()
            }),
            forall|i: int|
                0 <= i < final(self).devices().len() ==> #[trigger] final(self).devices()[i].fired() == old(self).devices()[i].fired(),
            final(self).servers() == old(self).servers(),
            final(self).peripherals() == old(self).peripherals(),
            final(self).timeout_timer() == old(self).timeout_timer(),
            final(self).timed_out() == old(self).timed_out(),
    {
        proof {
            crate::gpio::digital_in::lemma_no_callback_in_interrupt_context(
                old(self).devices()[device as int],
                0,
            );
        }
        let woke = self.digital_ins[device].pin_interrupt();
        if woke {
            self.notification.notify();
        }
    }

    /// The entry the hardware layer uses to drive a level onto the pin of
    /// device `device`. Driving a level raises no interrupt by itself.
    pub fn set_level(&mut self, device: usize, level: crate::gpio::digital_in::Level)
        requires
            device < old(self).devices().len(),
        ensures
            final(self).devices() == old(self).devices().update(
                device as int,
                old(self).devices()[device as int].with_level(level),
            ),
            final(self).servers() == old(self).servers(),
            final(self).peripherals() == old(self).peripherals(),
            final(self).notification() == old(self).notification(),
            final(self).timeout_timer() == old(self).timeout_timer(),
            final(self).timed_out() == old(self).timed_out(),
    {
        self.digital_ins[device].set_level(level);
    }

    /// Lets `dt` microseconds of hardware time pass: every device's
    /// debounce timer and the run loop's timeout timer count down, and each
    /// expiry marks its timer's own pending cell from interrupt context and
    /// wakes the run loop. No user callback executes here.
    pub fn advance_time(&mut self, dt: u64)
        ensures
            final(self).devices().len() == old(self).devices().len(),
            forall|i: int|
                0 <= i < final(self).devices().len() ==> #[trigger] final(self).devices()[i] == old(self).devices()[i].advanced(dt),
            forall|i: int|
                0 <= i < final(self).devices().len() ==> #[trigger] final(self).devices()[i].fired() == old(self).devices()[i].fired(),
            final(self).timeout_timer() == old(self).timeout_timer().advanced(dt),
            final(self).notification().is_signaled() == (old(self).notification().is_signaled()
                || old(self).timeout_timer().expires_within(dt) && old(self).timeout_timer().is_wired() || exists|i: int|
                0 <= i < old(self).devices().len() && (#[trigger] old(self).devices()[i].timer().expires_within(dt)) && old(self).devices()[i].timer().is_wired()),
            final(self).servers() == old(self).servers(),
            final(self).peripherals() == old(self).peripherals(),
            final(self).timed_out() == old(self).timed_out(),
    {
        let mut woke = self.timeout_timer.advance(dt);
        let mut i: usize = 0;
        while i < self.digital_ins.len()
            invariant
                i <= self.digital_ins.len(),
                self.digital_ins.len() == old(self).devices().len(),
                forall|k: int|
                    0 <= k < i ==> #[trigger] self.digital_ins@[k] == old(self).devices()[k].advanced(dt),
                forall|k: int|
                    i <= k < self.digital_ins.len() ==> #[trigger] self.digital_ins@[k] == old(self).devices()[k],
                woke == (old(self).timeout_timer().expires_within(dt) && old(self).timeout_timer().is_wired() || exists|k: int|
                    0 <= k < i && (#[trigger] old(self).devices()[k].timer().expires_within(dt))
                        && old(self).devices()[k].timer().is_wired()),
                self.timeout_timer == old(self).timeout_timer().advanced(dt),
                self.ble_servers == old(self).ble_servers,
                self.notification == old(self).notification,
                self.peripherals == old(self).peripherals,
                self.timed_out == old(self).timed_out,
            decreases self.digital_ins.len() - i,
        {
            let device_woke = self.digital_ins[i].advance_time(dt);
            woke = woke || device_woke;
            i = i + 1;
        }
        proof {
            assert(forall|k: int|
                0 <= k < old(self).devices().len() ==> #[trigger] self.digital_ins@[k] == old(self).devices()[k].advanced(dt));
            assert forall|k: int| 0 <= k < old(self).devices().len() implies #[trigger] self.digital_ins@[k].fired() == old(self).devices()[k].fired() by {
                crate::gpio::digital_in::lemma_no_callback_in_interrupt_context(
                    old(self).devices()[k],
                    dt,
                );
            }
        }
        if woke {
            self.notification.notify();
        }
    }

    /// One pass of the run loop on the consumer thread: drains the run
    /// loop's own timeout chain, then every device's timer chain, then
    /// every device's pending update in registration order, then every
    /// registered BLE server's event queues — deferred user callbacks
    /// execute here and nowhere else. A device whose drain raises an error
    /// ends the pass with that error; the devices after it and the servers
    /// keep their pending updates for the next pass.
    pub fn update(&mut self) -> (result: Result<(), Esp32FrameworkError>)
        ensures
            final(self).devices() == devices_drained(devices_timer_drained(old(self).devices())),
            match devices_drain_error(devices_timer_drained(old(self).devices())) {
                Some(e) => result == Err::<(), Esp32FrameworkError>(Esp32FrameworkError::DigitalIn(e)),
                _ => result is Ok,
            },
            final(self).servers().len() == old(self).servers().len(),
            result is Ok ==> forall|i: int|
                0 <= i < old(self).servers().len() ==> BleServer::server_drained(
                    #[trigger] old(self).servers()[i],
                    final(self).servers()[i],
                ),
            result is Err ==> final(self).servers() == old(self).servers(),
            final(self).timeout_timer() == old(self).timeout_timer().expiry_taken(),
            final(self).timed_out() == (old(self).timed_out() || old(self).timeout_timer().has_expiry_pending()),
            final(self).notification() == old(self).notification(),
            final(self).peripherals() == old(self).peripherals(),
    {
        if self.timeout_timer.take_expiry() {
            self.timed_out = true;
        }
        let ghost s0 = self.digital_ins@;
        let mut i: usize = 0;
        while i < self.digital_ins.len()
            invariant
                i <= self.digital_ins.len(),
                self.digital_ins.len() == s0.len(),
                forall|k: int|
                    0 <= k < i ==> #[trigger] self.digital_ins@[k] == s0[k].timer_drained(),
                forall|k: int|
                    i <= k < self.digital_ins.len() ==> #[trigger] self.digital_ins@[k] == s0[k],
                self.timeout_timer == old(self).timeout_timer().expiry_taken(),
                self.timed_out == (old(self).timed_out() || old(self).timeout_timer().has_expiry_pending()),
                self.ble_servers == old(self).ble_servers,
                self.notification == old(self).notification,
                self.peripherals == old(self).peripherals,
            decreases self.digital_ins.len() - i,
        {
            self.digital_ins[i].update_timer_interrupt();
            i = i + 1;
        }
        let ghost s = devices_timer_drained(s0);
        proof {
            assert(s0 == old(self).devices());
            assert(s == devices_timer_drained(old(self).devices()));
            assert(self.digital_ins@ =~= s);
        }
        let mut j: usize = 0;
        while j < self.digital_ins.len()
            invariant
                j <= self.digital_ins.len(),
                self.digital_ins.len() == s.len(),
                s == devices_timer_drained(old(self).devices()),
                forall|k: int| 0 <= k < j ==> s[k].drain_error() is None,
                forall|k: int| 0 <= k < j ==> #[trigger] self.digital_ins@[k] == s[k].drained(),
                forall|k: int|
                    j <= k < self.digital_ins.len() ==> #[trigger] self.digital_ins@[k] == s[k],
                self.timeout_timer == old(self).timeout_timer().expiry_taken(),
                self.timed_out == (old(self).timed_out() || old(self).timeout_timer().has_expiry_pending()),
                self.ble_servers == old(self).ble_servers,
                self.notification == old(self).notification,
                self.peripherals == old(self).peripherals,
            decreases self.digital_ins.len() - j,
        {
            let result = self.digital_ins[j]._update_interrupt();
            match result {
                Ok(()) => {},
                Err(e) => {
                    proof {
                        lemma_devices_drained_split(s, j as int);
                        let tail = s.skip(j as int);
                        assert(tail[0] == s[j as int]);
                        assert(tail[0].drain_error() is Some);
                        assert(devices_drained(tail) == seq![tail[0].drained()]
                            + tail.drop_first());
                        assert(devices_drain_error(tail) == tail[0].drain_error());
                        assert(devices_drained(s).len() == s.len());
                        assert forall|k: int| 0 <= k < s.len() implies self.digital_ins@[k]
                            == devices_drained(s)[k] by {
                            if k < j as int {
                                assert(devices_drained(s)[k] == s[k].drained());
                            } else if k == j as int {
                                assert(devices_drained(s)[k] == tail[0].drained());
                            } else {
                                assert(devices_drained(s)[k] == tail.drop_first()[k - j - 1]);
                                assert(tail.drop_first()[k - j - 1] == s[k]);
                            }
                        }
                        assert(self.digital_ins@ =~= devices_drained(s));
                        assert(devices_drain_error(s) == Some(e));
                    }
                    return Err(Esp32FrameworkError::DigitalIn(e));
                },
            }
            j = j + 1;
        }
        proof {
            lemma_devices_drained_split(s, s.len() as int);
            assert(devices_drained(s.skip(s.len() as int)) =~= Seq::<DigitalIn>::empty());
            assert(self.digital_ins@ =~= devices_drained(s));
        }
        let ghost drained_devices = self.digital_ins@;
        let mut b: usize = 0;
        while b < self.ble_servers.len()
            invariant
                b <= self.ble_servers.len(),
                self.ble_servers.len() == old(self).servers().len(),
                forall|k: int|
                    0 <= k < b ==> BleServer::server_drained(
                        #[trigger] old(self).servers()[k],
                        self.ble_servers@[k],
                    ),
                forall|k: int|
                    b <= k < self.ble_servers.len() ==> #[trigger] self.ble_servers@[k] == old(self).servers()[k],
                self.digital_ins@ == drained_devices,
                drained_devices == devices_drained(devices_timer_drained(old(self).devices())),
                self.timeout_timer == old(self).timeout_timer().expiry_taken(),
                self.timed_out == (old(self).timed_out() || old(self).timeout_timer().has_expiry_pending()),
                self.notification == old(self).notification,
                self.peripherals == old(self).peripherals,
            decreases self.ble_servers.len() - b,
        {
            let _connections = self.ble_servers[b].handle_connection_changes();
            let _disconnections = self.ble_servers[b].handle_disconnection_changes();
            b = b + 1;
        }
        Ok(())
    }

    /// Whether the bounded wait armed by the last
    /// [`Microcontroller::wait_for_updates`] call has elapsed.
    pub fn is_timed_out(&self) -> (timed_out: bool)
        ensures
            timed_out == self.timed_out(),
    {
        self.timed_out
    }

    /// Whether a wake is pending for the run loop.
    pub fn has_pending_wake(&self) -> (pending: bool)
        ensures
            pending == self.notification().is_signaled(),
    {
        self.notification.has_pending_wake()
    }

    /// Creates a BLE server with its advertising name and services, and
    /// registers it as an interrupt-driven device of the run loop: each
    /// pass drains its connection and disconnection event queues on the
    /// consumer thread. Returns the server's handle.
    pub fn ble_server(&mut self, advertising_name: String, services: Vec<Service>) -> (handle:
        usize)
        ensures
            handle == old(self).servers().len(),
            final(self).servers().len() == old(self).servers().len() + 1,
            final(self).servers().drop_last() == old(self).servers(),
            final(self).servers().last().advertising_name() == advertising_name@,
            final(self).servers().last().services() == services@,
            final(self).servers().last().pending_connections() == Seq::<
                ConnectionInformation,
            >::empty(),
            final(self).servers().last().pending_disconnections() == Seq::<
                ConnectionInformation,
            >::empty(),
            final(self).servers().last().connections_handled() == 0,
            final(self).servers().last().disconnections_handled() == 0,
            !final(self).servers().last().started(),
            final(self).devices() == old(self).devices(),
            final(self).peripherals() == old(self).peripherals(),
            final(self).notification() == old(self).notification(),
            final(self).timeout_timer() == old(self).timeout_timer(),
            final(self).timed_out() == old(self).timed_out(),
    {
        let server = BleServer::new(advertising_name, services);
        self.ble_servers.push(server);
        self.ble_servers.len() - 1
    }

    /// A shared borrow of a registered BLE server, by its handle.
    pub fn ble_server_ref(&self, server: usize) -> (ble_server: &BleServer)
        requires
            server < self.servers().len(),
        ensures
            *ble_server == self.servers()[server as int],
    {
        &self.ble_servers[server]
    }

    /// A mutable borrow of a registered BLE server, by its handle, for
    /// configuring its registry and advertisement.
    pub fn ble_server_mut(&mut self, server: usize) -> (ble_server: &mut BleServer)
        requires
            server < old(self).servers().len(),
        ensures
            *ble_server == old(self).servers()[server as int],
            final(self).servers() == old(self).servers().update(
                server as int,
                *final(ble_server),
            ),
            final(self).devices() == old(self).devices(),
            final(self).peripherals() == old(self).peripherals(),
            final(self).notification() == old(self).notification(),
            final(self).timeout_timer() == old(self).timeout_timer(),
            final(self).timed_out() == old(self).timed_out(),
    {
        &mut self.ble_servers[server]
    }

    /// The entry the BLE stack calls in interrupt context when a client
    /// connects to server `server`: the event is queued and the run loop
    /// woken. No user callback executes here — the handled counts of every
    /// server stand still.
    pub fn on_ble_connection(&mut self, server: usize, info: ConnectionInformation)
        requires
            server < old(self).servers().len(),
        ensures
            final(self).servers().len() == old(self).servers().len(),
            forall|i: int|
                0 <= i < old(self).servers().len() && i != server ==> #[trigger] final(self).servers()[i] == old(self).servers()[i],
            ({
                let pre = old(self).servers()[server as int];
                let post = final(self).servers()[server as int];
                &&& post.services() == pre.services()
                &&& BleServer::advert_unchanged(pre, post)
                &&& post.pending_disconnections() == pre.pending_disconnections()
                &&& post.connections_handled() == pre.connections_handled()
                &&& post.disconnections_handled() == pre.disconnections_handled()
                &&& (pre.pending_connections().len() < pre.connection_capacity()
                    ==> post.pending_connections() == pre.pending_connections().push(info))
                &&& (pre.pending_connections().len() >= pre.connection_capacity()
                    ==> post.pending_connections() == pre.pending_connections())
            }),
            final(self).notification() == old(self).notification().notified(),
            final(self).devices() == old(self).devices(),
            final(self).peripherals() == old(self).peripherals(),
            final(self).timeout_timer() == old(self).timeout_timer(),
            final(self).timed_out() == old(self).timed_out(),
    {
        let _ = self.ble_servers[server].on_connection(info);
        self.notification.notify();
    }

    /// The entry the BLE stack calls in interrupt context when a client
    /// disconnects from server `server`, in the same way.
    pub fn on_ble_disconnection(&mut self, server: usize, info: ConnectionInformation)
        requires
            server < old(self).servers().len(),
        ensures
            final(self).servers().len() == old(self).servers().len(),
            forall|i: int|
                0 <= i < old(self).servers().len() && i != server ==> #[trigger] final(self).servers()[i] == old(self).servers()[i],
            ({
                let pre = old(self).servers()[server as int];
                let post = final(self).servers()[server as int];
                &&& post.services() == pre.services()
                &&& BleServer::advert_unchanged(pre, post)
                &&& post.pending_connections() == pre.pending_connections()
                &&& post.connections_handled() == pre.connections_handled()
                &&& post.disconnections_handled() == pre.disconnections_handled()
                &&& (pre.pending_disconnections().len() < pre.disconnection_capacity()
                    ==> post.pending_disconnections() == pre.pending_disconnections().push(info))
                &&& (pre.pending_disconnections().len() >= pre.disconnection_capacity()
                    ==> post.pending_disconnections() == pre.pending_disconnections())
            }),
            final(self).notification() == old(self).notification().notified(),
            final(self).devices() == old(self).devices(),
            final(self).peripherals() == old(self).peripherals(),
            final(self).timeout_timer() == old(self).timeout_timer(),
            final(self).timed_out() == old(self).timed_out(),
    {
        let _ = self.ble_servers[server].on_disconnection(info);
        self.notification.notify();
    }

    /// Waits for work and runs one pass of the loop. With a bound in
    /// milliseconds, the timeout chain is re-armed first, and once it
    /// expires a later pass reports the elapsed wait in
    /// [`Microcontroller::is_timed_out`]; with no bound the wait is
    /// unbounded. The deterministic core never parks the thread: the pass
    /// runs exactly when a wake is pending, and the embedding alternates
    /// [`Microcontroller::advance_time`] with this entry.
    pub fn wait_for_updates(&mut self, miliseconds: Option<u32>) -> (result: Result<
        (),
        Esp32FrameworkError,
    >)
        ensures
            ({
                let armed_timer = match miliseconds {
                    Some(ms) => old(self).timeout_timer().armed((ms as u64 * 1000) as u64).started(),
                    _ => old(self).timeout_timer(),
                };
                let armed_timed_out = match miliseconds {
                    Some(_) => false,
                    _ => old(self).timed_out(),
                };
                if old(self).notification().is_signaled() {
                    &&& final(self).devices() == devices_drained(
                        devices_timer_drained(old(self).devices()),
                    )
                    &&& match devices_drain_error(devices_timer_drained(old(self).devices())) {
                        Some(e) => result == Err::<(), Esp32FrameworkError>(
                            Esp32FrameworkError::DigitalIn(e),
                        ),
                        _ => result is Ok,
                    }
                    &&& final(self).servers().len() == old(self).servers().len()
                    &&& (result is Ok ==> forall|i: int|
                        0 <= i < old(self).servers().len() ==> BleServer::server_drained(
                            #[trigger] old(self).servers()[i],
                            final(self).servers()[i],
                        ))
                    &&& (result is Err ==> final(self).servers() == old(self).servers())
                    &&& final(self).timeout_timer() == armed_timer.expiry_taken()
                    &&& final(self).timed_out() == (armed_timed_out
                        || armed_timer.has_expiry_pending())
                } else {
                    &&& final(self).devices() == old(self).devices()
                    &&& final(self).servers() == old(self).servers()
                    &&& result is Ok
                    &&& final(self).timeout_timer() == armed_timer
                    &&& final(self).timed_out() == armed_timed_out
                }
            }),
            final(self).notification() == old(self).notification().waited(),
            final(self).peripherals() == old(self).peripherals(),
    {
        match miliseconds {
            Some(ms) => {
                self.timeout_timer.interrupt_after(ms as u64 * 1000);
                match self.timeout_timer.enable() {
                    Ok(()) => {},
                    Err(_) => {
                        proof {
                            assert(false);
                        }
                    },
                }
                self.timed_out = false;
            },
            _ => {},
        }
        if self.notification.take_wake() {
            self.update()
        } else {
            Ok(())
        }
    }
}

impl Default for Microcontroller {
    /// The same fresh microcontroller as [`Microcontroller::new`].
    fn default() -> (micro: Microcontroller)
        ensures
            micro.devices() == Seq::<DigitalIn>::empty(),
            !micro.notification().is_signaled(),
            !micro.timed_out(),
    {
        Microcontroller::new()
    }
}

} // verus!
