//! Interrupt-driven digital input with optional debounce.
//!
//! A hardware edge may arrive at any moment, so an interrupt handler never
//! runs user code: it only records one pending action in an
//! [`InterruptUpdateCell`]. The run loop later drains the cell and performs
//! the action on the consumer thread.

use vstd::prelude::*;

use crate::microcontroller_src::peripherals::Peripheral;
use crate::utils::notification::Notifier;
use crate::utils::timer_driver::TimerDriver;
use crate::utils::timer_driver::TimerDriverError;

verus! {

/// The hardware condition that raises an interrupt for a digital input.
#[derive(Debug, Clone, Copy, PartialEq, Eq, Structural)]
pub enum InterruptType {
    PosEdge,
    NegEdge,
    AnyEdge,
    LowLevel,
    HighLevel,
}

/// A sampled logic level of a pin.
#[derive(Debug, Clone, Copy, PartialEq, Eq, Structural)]
pub enum Level {
    Low,
    High,
}

/// The pull resistor configuration of an input pin.
#[derive(Debug, Clone, Copy, PartialEq, Eq, Structural)]
pub enum Pull {
    Up,
    Down,
}

/// The single pending action of one interrupt-driven input.
///
/// After an interrupt is triggered an `InterruptUpdate` is set and later
/// handled by the run loop. Exactly one value is live at a time per device;
/// a new interrupt before the drain overwrites the previous value.
#[derive(Debug, Clone, Copy, PartialEq, Eq, Structural)]
pub enum InterruptUpdate {
    /// Run the user callback, then re-enable the pin interrupt.
    ExecAndEnablePin,
    /// Start the debounce timer counting.
    EnableTimerDriver,
    /// The debounce timer expired; re-check the level.
    TimerReached,
    /// Run the user callback, then unsubscribe the pin interrupt.
    ExecAndUnsubscribePin,
    /// Nothing is pending.
    NoUpdate,
}

impl InterruptUpdate {
    /// The fixed-width code under which this update is stored in a cell.
    pub open spec fn code_spec(self) -> u8 {
        match self {
            InterruptUpdate::ExecAndEnablePin => 0,
            InterruptUpdate::EnableTimerDriver => 1,
            InterruptUpdate::TimerReached => 2,
            InterruptUpdate::ExecAndUnsubscribePin => 3,
            InterruptUpdate::NoUpdate => 4,
        }
    }

    /// The update encoded by a fixed-width code. Every unrecognized bit
    /// pattern decodes to `NoUpdate`, never to anything undefined.
    pub open spec fn from_code_spec(code: u8) -> InterruptUpdate {
        if code == 0 {
            InterruptUpdate::ExecAndEnablePin
        } else if code == 1 {
            InterruptUpdate::EnableTimerDriver
        } else if code == 2 {
            InterruptUpdate::TimerReached
        } else if code == 3 {
            InterruptUpdate::ExecAndUnsubscribePin
        } else {
            InterruptUpdate::NoUpdate
        }
    }

    /// Encodes this update as its fixed-width code.
    pub fn get_code(self) -> (code: u8)
        ensures
            code == self.code_spec(),
    {
        match self {
            InterruptUpdate::ExecAndEnablePin => 0,
            InterruptUpdate::EnableTimerDriver => 1,
            InterruptUpdate::TimerReached => 2,
            InterruptUpdate::ExecAndUnsubscribePin => 3,
            InterruptUpdate::NoUpdate => 4,
        }
    }

    /// Decodes a fixed-width code back to an update.
    pub fn from_code(code: u8) -> (update: InterruptUpdate)
        ensures
            update == InterruptUpdate::from_code_spec(code),
    {
        match code {
            0 => InterruptUpdate::ExecAndEnablePin,
            1 => InterruptUpdate::EnableTimerDriver,
            2 => InterruptUpdate::TimerReached,
            3 => InterruptUpdate::ExecAndUnsubscribePin,
            _ => InterruptUpdate::NoUpdate,
        }
    }
}

/// Every update round-trips through its fixed-width code, so a cell can hold
/// any update without loss.
pub proof fn lemma_code_round_trip(update: InterruptUpdate)
    ensures
        InterruptUpdate::from_code_spec(update.code_spec()) == update,
{
}

/// The single-writer-from-interrupt, single-reader-from-task slot holding the
/// one pending update of a device.
///
/// An interrupt context only ever stores into the cell; the run loop reads
/// and resets it. Writes are last-write-wins: a second store before a drain
/// simply replaces the first, and no backlog forms.
pub struct InterruptUpdateCell {
    code: u8,
}

impl InterruptUpdateCell {
    /// The update currently pending in the cell.
    pub closed spec fn pending(self) -> InterruptUpdate {
        InterruptUpdate::from_code_spec(self.code)
    }

    /// The cell as it stands after `update` is stored into it, whatever it
    /// held before.
    pub closed spec fn written(self, update: InterruptUpdate) -> InterruptUpdateCell {
        InterruptUpdateCell { code: update.code_spec() }
    }

    /// Creates a cell with nothing pending.
    pub fn new() -> (cell: InterruptUpdateCell)
        ensures
            cell.pending() == InterruptUpdate::NoUpdate,
    {
        InterruptUpdateCell { code: InterruptUpdate::NoUpdate.get_code() }
    }

    /// Stores a pending update, replacing whatever was pending before.
    ///
    /// This is the only cell operation an interrupt handler performs; it
    /// never blocks and it never queues: the previous value is simply gone.
    pub fn write(&mut self, update: InterruptUpdate)
        ensures
            *final(self) == old(self).written(update),
            final(self).pending() == update,
    {
        self.code = update.get_code();
    }

    /// Atomically reads the pending update and resets the cell to `NoUpdate`.
    ///
    /// Called only from the run loop; returns exactly one pending value.
    pub fn take(&mut self) -> (update: InterruptUpdate)
        ensures
            update == old(self).pending(),
            *final(self) == old(self).written(InterruptUpdate::NoUpdate),
            final(self).pending() == InterruptUpdate::NoUpdate,
    {
        let update = InterruptUpdate::from_code(self.code);
        self.code = InterruptUpdate::NoUpdate.get_code();
        update
    }
}

/// Last-write-wins cell semantics: after storing `a` and then `b` with no
/// drain in between, the one pending update is `b`; `a` is gone without a
/// trace, exactly as if it had never been stored.
pub proof fn lemma_cell_last_write_wins(
    cell: InterruptUpdateCell,
    a: InterruptUpdate,
    b: InterruptUpdate,
)
    ensures
        cell.written(a).written(b).pending() == b,
        cell.written(a).written(b) == cell.written(b),
{
}

/// Errors raised while configuring or driving a digital input.
#[derive(Debug, Clone, Copy, PartialEq, Eq, Structural)]
pub enum DigitalInError {
    CannotSetPullForPin,
    CannotSetPinAsInput,
    StateAlreadySet,
    InvalidPin,
    InvalidPeripheral,
    NoInterruptTypeSet,
    CannotSetDebounceOnAnyEdgeInterruptType,
    TimerDriverError(TimerDriverError),
}

/// What the interrupt handler subscribed on a pin does when the hardware
/// raises its edge or level condition.
#[derive(Debug, Clone, Copy, PartialEq, Eq, Structural)]
pub enum PinSubscription {
    /// No handler is subscribed; a raised condition is simply lost.
    Unsubscribed,
    /// Ask the run loop to execute the user callback, every time.
    EachInterrupt,
    /// Ask the run loop to execute the user callback the next `remaining`
    /// times, then to unsubscribe the pin.
    FirstNTimes { remaining: u64 },
    /// Ask the run loop to start the debounce timer instead of firing.
    /// With a repeat limit, each confirmed level re-check spends one
    /// firing of the budget; the last one unsubscribes the pin.
    StartDebounceTimer { remaining: Option<u64> },
}

/// `n + 1`, held at the top of the counter's range instead of wrapping.
pub open spec fn sat_inc(n: u64) -> u64 {
    if n < u64::MAX {
        (n + 1) as u64
    } else {
        n
    }
}

/// The firing budget a subscription asks for: a limited subscription
/// carries one, an unlimited one carries none.
pub open spec fn repeat_limit(subscription: PinSubscription) -> Option<u64> {
    match subscription {
        PinSubscription::FirstNTimes { remaining } => Some(remaining),
        PinSubscription::StartDebounceTimer { remaining } => remaining,
        _ => Option::<u64>::None,
    }
}

/// The stable level a trigger condition resolves to, used by the debounce
/// re-check. An any-edge trigger resolves to no level at all, which is why
/// debounce is rejected for it.
pub open spec fn implied_level(interrupt_type: InterruptType) -> Option<Level> {
    match interrupt_type {
        InterruptType::PosEdge => Some(Level::High),
        InterruptType::NegEdge => Some(Level::Low),
        InterruptType::AnyEdge => Option::<Level>::None,
        InterruptType::LowLevel => Some(Level::Low),
        InterruptType::HighLevel => Some(Level::High),
    }
}

/// Driver receiving digital inputs from one particular pin.
///
/// The driver is a five-state debounce machine. A matching hardware
/// condition runs [`DigitalIn::pin_interrupt`] in interrupt context, which
/// only stores one pending update and signals the notifier. The run loop
/// later consumes the update: it executes the user callback, or arms the
/// debounce timer and re-checks the level once the timer expired.
pub struct DigitalIn {
    pin: u8,
    timer_driver: TimerDriver,
    interrupt_type: Option<InterruptType>,
    interrupt_update_code: InterruptUpdateCell,
    debounce_us: Option<u64>,
    pull: Pull,
    level: Level,
    subscription: PinSubscription,
    interrupt_enabled: bool,
    notifier: Option<Notifier>,
    times_fired: u64,
}

impl DigitalIn {
    /// The number of the pin this driver owns.
    pub closed spec fn pin_num(self) -> u8 {
        self.pin
    }

    /// The debounce timer exclusively owned by this driver.
    pub closed spec fn timer(self) -> TimerDriver {
        self.timer_driver
    }

    /// The configured trigger condition, if one was set.
    pub closed spec fn trigger(self) -> Option<InterruptType> {
        self.interrupt_type
    }

    /// The one pending update of this device.
    pub closed spec fn pending_update(self) -> InterruptUpdate {
        self.interrupt_update_code.pending()
    }

    /// The configured debounce duration in microseconds, if any.
    pub closed spec fn debounce(self) -> Option<u64> {
        self.debounce_us
    }

    /// The configured pull resistor.
    pub closed spec fn pull(self) -> Pull {
        self.pull
    }

    /// The level currently driven onto the pin by the outside world.
    pub closed spec fn level(self) -> Level {
        self.level
    }

    /// What the subscribed interrupt handler does.
    pub closed spec fn subscription(self) -> PinSubscription {
        self.subscription
    }

    /// Whether the pin interrupt is currently enabled. The hardware disables
    /// it each time it fires; the run loop re-enables it after the drain.
    pub closed spec fn interrupt_enabled(self) -> bool {
        self.interrupt_enabled
    }

    /// Whether the driver is wired to the run loop's notification.
    pub closed spec fn wired(self) -> bool {
        self.notifier is Some
    }

    /// How many times the user callback has been executed for this device.
    /// The count saturates instead of wrapping.
    pub closed spec fn fired(self) -> u64 {
        self.times_fired
    }

    /// The device as it stands with its pull resistor changed.
    pub closed spec fn with_pull(self, pull_type: Pull) -> DigitalIn {
        DigitalIn { pull: pull_type, ..self }
    }

    /// The device as it stands with its trigger condition changed.
    pub closed spec fn with_trigger(self, interrupt_type: InterruptType) -> DigitalIn {
        DigitalIn { interrupt_type: Some(interrupt_type), ..self }
    }

    /// The device as it stands with its debounce duration set.
    pub closed spec fn with_debounce(self, time_micro: u64) -> DigitalIn {
        DigitalIn { debounce_us: Some(time_micro), ..self }
    }

    /// The device as it stands with `level` driven onto its pin.
    pub closed spec fn with_level(self, level: Level) -> DigitalIn {
        DigitalIn { level, ..self }
    }

    /// The device as it stands once `subscription` is subscribed on trigger
    /// condition `interrupt_type`: with a debounce set, the handler starts
    /// the debounce timer instead, and the timer is armed with the debounce
    /// delay.
    pub closed spec fn subscribed(
        self,
        subscription: PinSubscription,
        interrupt_type: InterruptType,
    ) -> DigitalIn {
        if self.debounce_us is Some {
            DigitalIn {
                interrupt_type: Some(interrupt_type),
                timer_driver: self.timer_driver.armed(self.debounce_us->0),
                subscription: PinSubscription::StartDebounceTimer {
                    remaining: repeat_limit(subscription),
                },
                interrupt_enabled: true,
                ..self
            }
        } else {
            DigitalIn {
                interrupt_type: Some(interrupt_type),
                subscription,
                interrupt_enabled: true,
                ..self
            }
        }
    }

    /// The device as it stands after the hardware raises its trigger
    /// condition and the subscribed handler runs in interrupt context.
    ///
    /// The handler only stores one pending update; the hardware disables
    /// the pin interrupt until the run loop re-enables it. With nothing
    /// subscribed, or with the interrupt disabled, nothing happens at all.
    pub closed spec fn pin_interrupted(self) -> DigitalIn {
        if !self.interrupt_enabled {
            self
        } else {
            match self.subscription {
                PinSubscription::Unsubscribed => self,
                PinSubscription::EachInterrupt => DigitalIn {
                    interrupt_update_code: self.interrupt_update_code.written(
                        InterruptUpdate::ExecAndEnablePin,
                    ),
                    interrupt_enabled: false,
                    ..self
                },
                PinSubscription::FirstNTimes { remaining } => {
                    if remaining <= 1 {
                        DigitalIn {
                            interrupt_update_code: self.interrupt_update_code.written(
                                InterruptUpdate::ExecAndUnsubscribePin,
                            ),
                            subscription: PinSubscription::FirstNTimes { remaining: 0 },
                            interrupt_enabled: false,
                            ..self
                        }
                    } else {
                        DigitalIn {
                            interrupt_update_code: self.interrupt_update_code.written(
                                InterruptUpdate::ExecAndEnablePin,
                            ),
                            subscription: PinSubscription::FirstNTimes {
                                remaining: (remaining - 1) as u64,
                            },
                            interrupt_enabled: false,
                            ..self
                        }
                    }
                },
                PinSubscription::StartDebounceTimer { .. } => DigitalIn {
                    interrupt_update_code: self.interrupt_update_code.written(
                        InterruptUpdate::EnableTimerDriver,
                    ),
                    interrupt_enabled: false,
                    ..self
                },
            }
        }
    }

    /// Whether the interrupt handler signals the run loop's notifier when
    /// the trigger condition is raised.
    pub open spec fn pin_interrupt_wakes(self) -> bool {
        self.interrupt_enabled() && self.subscription() !is Unsubscribed && self.wired()
    }

    /// The device as it stands after `dt` microseconds of hardware time:
    /// only its debounce timer counts; an expiry marks the timer's own
    /// pending cell from interrupt context.
    pub closed spec fn advanced(self, dt: u64) -> DigitalIn {
        DigitalIn { timer_driver: self.timer_driver.advanced(dt), ..self }
    }

    /// The device as it stands after the run loop drained its timer chain:
    /// a pending timer expiry becomes the `TimerReached` update in the
    /// device's cell, overwriting whatever was pending there.
    pub closed spec fn timer_drained(self) -> DigitalIn {
        if self.timer_driver.has_expiry_pending() {
            DigitalIn {
                timer_driver: self.timer_driver.expiry_taken(),
                interrupt_update_code: self.interrupt_update_code.written(
                    InterruptUpdate::TimerReached,
                ),
                ..self
            }
        } else {
            self
        }
    }

    /// The device as it stands after the run loop consumed its one pending
    /// update. The user callback executions this implies are visible in
    /// [`DigitalIn::fired`].
    pub closed spec fn drained(self) -> DigitalIn {
        let taken = DigitalIn {
            interrupt_update_code: self.interrupt_update_code.written(InterruptUpdate::NoUpdate),
            ..self
        };
        match self.pending_update() {
            InterruptUpdate::ExecAndEnablePin => DigitalIn {
                times_fired: sat_inc(self.times_fired),
                interrupt_enabled: true,
                ..taken
            },
            InterruptUpdate::EnableTimerDriver => {
                if self.timer_driver.armed_delay() is Some {
                    DigitalIn { timer_driver: self.timer_driver.started(), ..taken }
                } else {
                    taken
                }
            },
            InterruptUpdate::TimerReached => {
                match self.interrupt_type {
                    Some(it) => {
                        if implied_level(it) is None {
                            taken
                        } else if implied_level(it) == Some(self.level) {
                            match self.subscription {
                                PinSubscription::StartDebounceTimer { remaining: Some(k) } => {
                                    if k <= 1 {
                                        DigitalIn {
                                            times_fired: sat_inc(self.times_fired),
                                            subscription: PinSubscription::Unsubscribed,
                                            ..taken
                                        }
                                    } else {
                                        DigitalIn {
                                            times_fired: sat_inc(self.times_fired),
                                            subscription: PinSubscription::StartDebounceTimer {
                                                remaining: Some((k - 1) as u64),
                                            },
                                            interrupt_enabled: true,
                                            ..taken
                                        }
                                    }
                                },
                                _ => DigitalIn {
                                    times_fired: sat_inc(self.times_fired),
                                    interrupt_enabled: true,
                                    ..taken
                                },
                            }
                        } else {
                            DigitalIn { interrupt_enabled: true, ..taken }
                        }
                    },
                    _ => taken,
                }
            },
            InterruptUpdate::ExecAndUnsubscribePin => DigitalIn {
                times_fired: sat_inc(self.times_fired),
                subscription: PinSubscription::Unsubscribed,
                ..taken
            },
            InterruptUpdate::NoUpdate => taken,
        }
    }

    /// The error, if any, that consuming the pending update raises.
    pub closed spec fn drain_error(self) -> Option<DigitalInError> {
        match self.pending_update() {
            InterruptUpdate::EnableTimerDriver => {
                if self.timer_driver.armed_delay() is Some {
                    Option::<DigitalInError>::None
                } else {
                    Some(DigitalInError::TimerDriverError(TimerDriverError::AlarmNotSet))
                }
            },
            InterruptUpdate::TimerReached => {
                match self.interrupt_type {
                    Some(it) => {
                        if implied_level(it) is None {
                            Some(DigitalInError::CannotSetDebounceOnAnyEdgeInterruptType)
                        } else {
                            Option::<DigitalInError>::None
                        }
                    },
                    _ => Some(DigitalInError::NoInterruptTypeSet),
                }
            },
            _ => Option::<DigitalInError>::None,
        }
    }

    /// Creates a new driver for the pin checked out as `per`, with the pull
    /// set to `Pull::Down`. Fails exactly when `per` is not a pin.
    pub fn new(timer_driver: TimerDriver, per: Peripheral, notifier: Option<Notifier>) -> (result:
        Result<DigitalIn, DigitalInError>)
        ensures
            match result {
                Ok(digital_in) => {
                    &&& per is Pin
                    &&& digital_in.pin_num() == per->Pin_0
                    &&& digital_in.timer() == timer_driver
                    &&& digital_in.trigger() is None
                    &&& digital_in.pending_update() == InterruptUpdate::NoUpdate
                    &&& digital_in.debounce() is None
                    &&& digital_in.pull() == Pull::Down
                    &&& digital_in.level() == Level::Low
                    &&& digital_in.subscription() == PinSubscription::Unsubscribed
                    &&& !digital_in.interrupt_enabled()
                    &&& digital_in.wired() == (notifier is Some)
                    &&& digital_in.fired() == 0
                },
                Err(e) => per !is Pin && e == DigitalInError::InvalidPeripheral,
            },
    {
        let pin = match per.into_any_io_pin() {
            Ok(pin) => pin,
            Err(_) => {
                return Err(DigitalInError::InvalidPeripheral);
            },
        };
        Ok(
            DigitalIn {
                pin,
                timer_driver,
                interrupt_type: Option::<InterruptType>::None,
                interrupt_update_code: InterruptUpdateCell::new(),
                debounce_us: Option::<u64>::None,
                pull: Pull::Down,
                level: Level::Low,
                subscription: PinSubscription::Unsubscribed,
                interrupt_enabled: false,
                notifier,
                times_fired: 0,
            },
        )
    }

    /// Sets the pull resistor of the pin.
    pub fn set_pull(&mut self, pull_type: Pull) -> (result: Result<(), DigitalInError>)
        ensures
            result is Ok,
            *final(self) == old(self).with_pull(pull_type),
    {
        self.pull = pull_type;
        Ok(())
    }

    /// Changes the trigger condition. An any-edge trigger is rejected only
    /// while a debounce is configured, since it resolves to no stable level
    /// for the debounce re-check; without a debounce, raw edges of any kind
    /// propagate.
    pub fn change_interrupt_type(&mut self, interrupt_type: InterruptType) -> (result: Result<
        (),
        DigitalInError,
    >)
        ensures
            match result {
                Ok(()) => {
                    &&& !(interrupt_type == InterruptType::AnyEdge && old(self).debounce() is Some)
                    &&& *final(self) == old(self).with_trigger(interrupt_type)
                    &&& final(self).trigger() == Some(interrupt_type)
                    &&& final(self).debounce() == old(self).debounce()
                    &&& final(self).fired() == old(self).fired()
                    &&& final(self).subscription() == old(self).subscription()
                    &&& final(self).timer() == old(self).timer()
                    &&& final(self).level() == old(self).level()
                    &&& final(self).interrupt_enabled() == old(self).interrupt_enabled()
                },
                Err(e) => {
                    &&& interrupt_type == InterruptType::AnyEdge
                    &&& old(self).debounce() is Some
                    &&& e == DigitalInError::CannotSetDebounceOnAnyEdgeInterruptType
                    &&& *final(self) == *old(self)
                },
            },
    {
        if matches!(interrupt_type, InterruptType::AnyEdge) && matches!(self.debounce_us, Some(_)) {
            return Err(DigitalInError::CannotSetDebounceOnAnyEdgeInterruptType);
        }
        self.interrupt_type = Some(interrupt_type);
        Ok(())
    }

    /// Sets the debounce duration in microseconds: once a trigger is
    /// subscribed, the level must still match after this long for the user
    /// callback to execute. Rejected while the trigger is any-edge.
    pub fn set_debounce(&mut self, time_micro: u64) -> (result: Result<(), DigitalInError>)
        ensures
            match result {
                Ok(()) => {
                    &&& old(self).trigger() != Some(InterruptType::AnyEdge)
                    &&& *final(self) == old(self).with_debounce(time_micro)
                    &&& final(self).debounce() == Some(time_micro)
                    &&& final(self).trigger() == old(self).trigger()
                    &&& final(self).fired() == old(self).fired()
                    &&& final(self).subscription() == old(self).subscription()
                    &&& final(self).timer() == old(self).timer()
                    &&& final(self).level() == old(self).level()
                    &&& final(self).interrupt_enabled() == old(self).interrupt_enabled()
                },
                Err(e) => {
                    &&& old(self).trigger() == Some(InterruptType::AnyEdge)
                    &&& e == DigitalInError::CannotSetDebounceOnAnyEdgeInterruptType
                    &&& *final(self) == *old(self)
                },
            },
    {
        match self.interrupt_type {
            Some(InterruptType::AnyEdge) => Err(
                DigitalInError::CannotSetDebounceOnAnyEdgeInterruptType,
            ),
            _ => {
                self.debounce_us = Some(time_micro);
                Ok(())
            },
        }
    }

    /// Arms the debounce chain: after a trigger, the timer raises its expiry
    /// `time_micro` microseconds after the run loop starts it, and the
    /// drained expiry re-checks the level.
    fn trigger_if_mantains_after(&mut self, time_micro: u64)
        ensures
            *final(self) == (DigitalIn {
                timer_driver: old(self).timer().armed(time_micro),
                ..*old(self)
            }),
            final(self).timer().armed_delay() == Some(time_micro),
            !final(self).timer().is_enabled(),
            final(self).timer().has_expiry_pending() == old(self).timer().has_expiry_pending(),
            final(self).timer().is_wired() == old(self).timer().is_wired(),
    {
        self.timer_driver.interrupt_after(time_micro);
    }

    /// Subscribes an interrupt handler on the pin and enables the pin
    /// interrupt.
    fn subscribe_trigger(&mut self, subscription: PinSubscription)
        ensures
            *final(self) == (DigitalIn {
                subscription,
                interrupt_enabled: true,
                ..*old(self)
            }),
    {
        self.subscription = subscription;
        self.interrupt_enabled = true;
    }

    /// Subscribes `subscription` on the received trigger condition. If a
    /// debounce is set, the handler starts the debounce timer instead, and
    /// the level must hold for the user callback to be executed; an
    /// any-edge trigger is then rejected, since the re-check has no stable
    /// level to compare against.
    pub fn _trigger_on_interrupt(
        &mut self,
        subscription: PinSubscription,
        interrupt_type: InterruptType,
    ) -> (result: Result<(), DigitalInError>)
        ensures
            match result {
                Ok(()) => {
                    &&& !(interrupt_type == InterruptType::AnyEdge && old(self).debounce() is Some)
                    &&& *final(self) == old(self).subscribed(subscription, interrupt_type)
                    &&& final(self).trigger() == Some(interrupt_type)
                    &&& final(self).interrupt_enabled()
                    &&& final(self).fired() == old(self).fired()
                    &&& final(self).level() == old(self).level()
                    &&& final(self).debounce() == old(self).debounce()
                    &&& final(self).subscription() == (if old(self).debounce() is Some {
                        PinSubscription::StartDebounceTimer {
                            remaining: repeat_limit(subscription),
                        }
                    } else {
                        subscription
                    })
                    &&& (old(self).debounce() matches Some(delay) ==> final(self).timer() == old(self).timer().armed(delay) && final(self).timer().armed_delay() == Some(delay)
                        && !final(self).timer().is_enabled())
                    &&& (old(self).debounce() is None ==> final(self).timer() == old(self).timer())
                },
                Err(e) => {
                    &&& interrupt_type == InterruptType::AnyEdge
                    &&& old(self).debounce() is Some
                    &&& e == DigitalInError::CannotSetDebounceOnAnyEdgeInterruptType
                    &&& *final(self) == *old(self)
                },
            },
    {
        self.change_interrupt_type(interrupt_type)?;
        match self.debounce_us {
            Some(debounce_us) => {
                let remaining = match subscription {
                    PinSubscription::FirstNTimes { remaining } => Some(remaining),
                    PinSubscription::StartDebounceTimer { remaining } => remaining,
                    _ => Option::<u64>::None,
                };
                self.trigger_if_mantains_after(debounce_us);
                self.subscribe_trigger(PinSubscription::StartDebounceTimer { remaining });
            },
            _ => {
                self.subscribe_trigger(subscription);
            },
        }
        Ok(())
    }

    /// Subscribes the user callback on the received trigger condition: each
    /// raised condition defers one callback execution to the run loop; with
    /// a debounce set, only a condition whose level holds does.
    pub fn trigger_on_interrupt(&mut self, interrupt_type: InterruptType) -> (result: Result<
        (),
        DigitalInError,
    >)
        ensures
            match result {
                Ok(()) => {
                    &&& !(interrupt_type == InterruptType::AnyEdge && old(self).debounce() is Some)
                    &&& *final(self) == old(self).subscribed(
                        PinSubscription::EachInterrupt,
                        interrupt_type,
                    )
                    &&& final(self).trigger() == Some(interrupt_type)
                    &&& final(self).interrupt_enabled()
                    &&& final(self).fired() == old(self).fired()
                    &&& final(self).level() == old(self).level()
                    &&& final(self).debounce() == old(self).debounce()
                    &&& final(self).subscription() == (if old(self).debounce() is Some {
                        PinSubscription::StartDebounceTimer { remaining: Option::<u64>::None }
                    } else {
                        PinSubscription::EachInterrupt
                    })
                    &&& (old(self).debounce() matches Some(delay) ==> final(self).timer() == old(self).timer().armed(delay) && final(self).timer().armed_delay() == Some(delay)
                        && !final(self).timer().is_enabled())
                    &&& (old(self).debounce() is None ==> final(self).timer() == old(self).timer())
                },
                Err(e) => {
                    &&& interrupt_type == InterruptType::AnyEdge
                    &&& old(self).debounce() is Some
                    &&& e == DigitalInError::CannotSetDebounceOnAnyEdgeInterruptType
                    &&& *final(self) == *old(self)
                },
            },
    {
        self._trigger_on_interrupt(PinSubscription::EachInterrupt, interrupt_type)
    }

    /// Subscribes the user callback to be triggered only the first
    /// `amount_of_times` times, after which the pin is unsubscribed.
    /// Asking for zero firings subscribes nothing and changes nothing.
    pub fn trigger_on_interrupt_first_n_times(
        &mut self,
        amount_of_times: usize,
        interrupt_type: InterruptType,
    ) -> (result: Result<(), DigitalInError>)
        ensures
            match result {
                Ok(()) => amount_of_times == 0 && *final(self) == *old(self) || amount_of_times > 0
                    && !(interrupt_type == InterruptType::AnyEdge && old(self).debounce() is Some)
                    && {
                    &&& *final(self) == old(self).subscribed(
                        PinSubscription::FirstNTimes { remaining: amount_of_times as u64 },
                        interrupt_type,
                    )
                    &&& final(self).trigger() == Some(interrupt_type)
                    &&& final(self).interrupt_enabled()
                    &&& final(self).fired() == old(self).fired()
                    &&& final(self).level() == old(self).level()
                    &&& final(self).debounce() == old(self).debounce()
                    &&& final(self).subscription() == (if old(self).debounce() is Some {
                        PinSubscription::StartDebounceTimer {
                            remaining: Some(amount_of_times as u64),
                        }
                    } else {
                        PinSubscription::FirstNTimes { remaining: amount_of_times as u64 }
                    })
                    &&& (old(self).debounce() matches Some(delay) ==> final(self).timer() == old(self).timer().armed(delay) && final(self).timer().armed_delay() == Some(delay)
                        && !final(self).timer().is_enabled())
                    &&& (old(self).debounce() is None ==> final(self).timer() == old(self).timer())
                },
                Err(e) => {
                    &&& amount_of_times > 0
                    &&& interrupt_type == InterruptType::AnyEdge
                    &&& old(self).debounce() is Some
                    &&& e == DigitalInError::CannotSetDebounceOnAnyEdgeInterruptType
                    &&& *final(self) == *old(self)
                },
            },
    {
        if amount_of_times == 0 {
            return Ok(());
        }
        self._trigger_on_interrupt(
            PinSubscription::FirstNTimes { remaining: amount_of_times as u64 },
            interrupt_type,
        )
    }

    /// The entry the hardware layer calls in interrupt context when the
    /// pin's trigger condition is raised. It runs the subscribed handler:
    /// one store into the update cell, nothing else, and reports whether
    /// the run loop's notifier was signalled.
    pub fn pin_interrupt(&mut self) -> (woke: bool)
        ensures
            *final(self) == old(self).pin_interrupted(),
            woke == old(self).pin_interrupt_wakes(),
            final(self).fired() == old(self).fired(),
            final(self).trigger() == old(self).trigger(),
            final(self).debounce() == old(self).debounce(),
            final(self).level() == old(self).level(),
            final(self).timer() == old(self).timer(),
            final(self).wired() == old(self).wired(),
            !old(self).interrupt_enabled() || old(self).subscription()
                == PinSubscription::Unsubscribed ==> *final(self) == *old(self),
            old(self).interrupt_enabled() ==> match old(self).subscription() {
                PinSubscription::Unsubscribed => *final(self) == *old(self),
                PinSubscription::EachInterrupt => {
                    &&& final(self).pending_update() == InterruptUpdate::ExecAndEnablePin
                    &&& final(self).subscription() == old(self).subscription()
                    &&& !final(self).interrupt_enabled()
                },
                PinSubscription::FirstNTimes { remaining } => {
                    &&& final(self).pending_update() == (if remaining <= 1 {
                        InterruptUpdate::ExecAndUnsubscribePin
                    } else {
                        InterruptUpdate::ExecAndEnablePin
                    })
                    &&& final(self).subscription() == (PinSubscription::FirstNTimes {
                        remaining: (if remaining <= 1 {
                            0u64
                        } else {
                            (remaining - 1) as u64
                        }),
                    })
                    &&& !final(self).interrupt_enabled()
                },
                PinSubscription::StartDebounceTimer { .. } => {
                    &&& final(self).pending_update() == InterruptUpdate::EnableTimerDriver
                    &&& final(self).subscription() == old(self).subscription()
                    &&& !final(self).interrupt_enabled()
                },
            },
    {
        if !self.interrupt_enabled {
            return false;
        }
        match self.subscription {
            PinSubscription::Unsubscribed => false,
            PinSubscription::EachInterrupt => {
                self.interrupt_update_code.write(InterruptUpdate::ExecAndEnablePin);
                self.interrupt_enabled = false;
                matches!(self.notifier, Some(_))
            },
            PinSubscription::FirstNTimes { remaining } => {
                if remaining <= 1 {
                    self.interrupt_update_code.write(InterruptUpdate::ExecAndUnsubscribePin);
                    self.subscription = PinSubscription::FirstNTimes { remaining: 0 };
                } else {
                    self.interrupt_update_code.write(InterruptUpdate::ExecAndEnablePin);
                    self.subscription = PinSubscription::FirstNTimes { remaining: remaining - 1 };
                }
                self.interrupt_enabled = false;
                matches!(self.notifier, Some(_))
            },
            PinSubscription::StartDebounceTimer { .. } => {
                self.interrupt_update_code.write(InterruptUpdate::EnableTimerDriver);
                self.interrupt_enabled = false;
                matches!(self.notifier, Some(_))
            },
        }
    }

    /// Lets `dt` microseconds of hardware time pass for this device: its
    /// debounce timer counts down and may raise its expiry in interrupt
    /// context. Reports whether the expiry signalled the run loop's
    /// notifier. No user callback can execute here.
    pub fn advance_time(&mut self, dt: u64) -> (woke: bool)
        ensures
            *final(self) == old(self).advanced(dt),
            woke == (old(self).timer().expires_within(dt) && old(self).timer().is_wired()),
            final(self).timer() == old(self).timer().advanced(dt),
            old(self).timer().expires_within(dt) ==> {
                &&& final(self).timer().has_expiry_pending()
                &&& !final(self).timer().is_enabled()
                &&& final(self).timer().time_left() == 0
            },
            old(self).timer().is_enabled() && !old(self).timer().expires_within(dt) ==> {
                &&& final(self).timer().is_enabled()
                &&& final(self).timer().time_left() == old(self).timer().time_left() - dt
                &&& final(self).timer().has_expiry_pending() == old(self).timer().has_expiry_pending()
            },
            !old(self).timer().is_enabled() ==> final(self).timer() == old(self).timer(),
            final(self).timer().armed_delay() == old(self).timer().armed_delay(),
            final(self).fired() == old(self).fired(),
            final(self).pending_update() == old(self).pending_update(),
            final(self).subscription() == old(self).subscription(),
            final(self).interrupt_enabled() == old(self).interrupt_enabled(),
            final(self).trigger() == old(self).trigger(),
            final(self).debounce() == old(self).debounce(),
            final(self).level() == old(self).level(),
    {
        proof {
            self.timer_driver.lemma_advanced_facts(dt);
        }
        self.timer_driver.advance(dt)
    }

    /// Drains this device's timer chain on the consumer thread: a pending
    /// timer expiry becomes the `TimerReached` update in the device's cell.
    /// The run loop performs this for every device before it drains any
    /// device's own cell.
    pub fn update_timer_interrupt(&mut self)
        ensures
            *final(self) == old(self).timer_drained(),
            final(self).fired() == old(self).fired(),
            final(self).subscription() == old(self).subscription(),
            final(self).interrupt_enabled() == old(self).interrupt_enabled(),
            final(self).trigger() == old(self).trigger(),
            final(self).debounce() == old(self).debounce(),
            final(self).level() == old(self).level(),
            old(self).timer().has_expiry_pending() ==> final(self).pending_update()
                == InterruptUpdate::TimerReached && final(self).timer() == old(self).timer().expiry_taken(),
            !old(self).timer().has_expiry_pending() ==> *final(self) == *old(self),
    {
        if self.timer_driver.take_expiry() {
            self.interrupt_update_code.write(InterruptUpdate::TimerReached);
        }
    }

    /// Re-checks the level once the debounce delay elapsed: if the level
    /// still matches the one the trigger resolves to, the edge held and the
    /// user callback executes exactly once; otherwise the edge was noise
    /// and no callback executes, and no firing budget is spent. A confirmed
    /// firing spends one firing of a configured repeat limit, and the last
    /// one turns the final re-enable into an unsubscribe; in every other
    /// outcome the pin interrupt is re-enabled and the device is
    /// re-armable.
    fn timer_reached(&mut self) -> (result: Result<(), DigitalInError>)
        ensures
            match result {
                Ok(()) => {
                    &&& old(self).trigger() matches Some(it) && implied_level(it) is Some
                    &&& *final(self) == (if implied_level(old(self).trigger()->0) == Some(
                        old(self).level(),
                    ) {
                        match old(self).subscription() {
                            PinSubscription::StartDebounceTimer { remaining: Some(k) } => {
                                if k <= 1 {
                                    DigitalIn {
                                        times_fired: sat_inc(old(self).fired()),
                                        subscription: PinSubscription::Unsubscribed,
                                        ..*old(self)
                                    }
                                } else {
                                    DigitalIn {
                                        times_fired: sat_inc(old(self).fired()),
                                        subscription: (PinSubscription::StartDebounceTimer {
                                            remaining: Some((k - 1) as u64),
                                        }),
                                        interrupt_enabled: true,
                                        ..*old(self)
                                    }
                                }
                            },
                            _ => DigitalIn {
                                times_fired: sat_inc(old(self).fired()),
                                interrupt_enabled: true,
                                ..*old(self)
                            },
                        }
                    } else {
                        DigitalIn { interrupt_enabled: true, ..*old(self) }
                    })
                },
                Err(e) => {
                    &&& *final(self) == *old(self)
                    &&& (match old(self).trigger() {
                        Some(it) => implied_level(it) is None
                            && e == DigitalInError::CannotSetDebounceOnAnyEdgeInterruptType,
                        _ => e == DigitalInError::NoInterruptTypeSet,
                    })
                },
            },
    {
        let level = match self.interrupt_type {
            Some(InterruptType::PosEdge) => Level::High,
            Some(InterruptType::NegEdge) => Level::Low,
            Some(InterruptType::AnyEdge) => {
                return Err(DigitalInError::CannotSetDebounceOnAnyEdgeInterruptType);
            },
            Some(InterruptType::LowLevel) => Level::Low,
            Some(InterruptType::HighLevel) => Level::High,
            _ => {
                return Err(DigitalInError::NoInterruptTypeSet);
            },
        };
        if self.level == level {
            self.times_fired = if self.times_fired < u64::MAX {
                self.times_fired + 1
            } else {
                self.times_fired
            };
            match self.subscription {
                PinSubscription::StartDebounceTimer { remaining: Some(k) } => {
                    if k <= 1 {
                        self.subscription = PinSubscription::Unsubscribed;
                    } else {
                        self.subscription = PinSubscription::StartDebounceTimer {
                            remaining: Some(k - 1),
                        };
                        self.interrupt_enabled = true;
                    }
                },
                _ => {
                    self.interrupt_enabled = true;
                },
            }
        } else {
            self.interrupt_enabled = true;
        }
        Ok(())
    }

    /// Consumes this device's one pending update on the consumer thread,
    /// executing the deferred action: run the user callback and re-enable
    /// or unsubscribe the pin, start the debounce timer, or re-check the
    /// level after a timer expiry.
    pub fn _update_interrupt(&mut self) -> (result: Result<(), DigitalInError>)
        ensures
            *final(self) == old(self).drained(),
            result is Ok <==> old(self).drain_error() is None,
            result matches Err(e) ==> old(self).drain_error() == Some(e),
            final(self).pending_update() == InterruptUpdate::NoUpdate,
            final(self).trigger() == old(self).trigger(),
            final(self).debounce() == old(self).debounce(),
            final(self).level() == old(self).level(),
            final(self).wired() == old(self).wired(),
            old(self).pending_update() == InterruptUpdate::ExecAndEnablePin || old(self).pending_update() == InterruptUpdate::ExecAndUnsubscribePin || old(self).pending_update() == InterruptUpdate::NoUpdate ==> result is Ok,
            old(self).pending_update() == InterruptUpdate::EnableTimerDriver ==> (result is Ok
                <==> old(self).timer().armed_delay() is Some),
            old(self).pending_update() == InterruptUpdate::TimerReached ==> (result is Ok <==> (
            old(self).trigger() matches Some(it) && implied_level(it) is Some)),
            old(self).pending_update() == InterruptUpdate::ExecAndEnablePin ==> {
                &&& final(self).fired() == sat_inc(old(self).fired())
                &&& final(self).interrupt_enabled()
                &&& final(self).subscription() == old(self).subscription()
                &&& final(self).timer() == old(self).timer()
            },
            old(self).pending_update() == InterruptUpdate::EnableTimerDriver && old(self).timer().armed_delay() is Some ==> {
                &&& final(self).fired() == old(self).fired()
                &&& final(self).timer() == old(self).timer().started()
                &&& final(self).timer().is_enabled()
                &&& final(self).timer().time_left() == old(self).timer().armed_delay()->0
                &&& final(self).interrupt_enabled() == old(self).interrupt_enabled()
                &&& final(self).subscription() == old(self).subscription()
            },
            old(self).pending_update() == InterruptUpdate::TimerReached && (old(self).trigger() matches Some(it) && implied_level(it) is Some) ==> {
                &&& final(self).fired() == (if implied_level(old(self).trigger()->0) == Some(
                    old(self).level(),
                ) {
                    sat_inc(old(self).fired())
                } else {
                    old(self).fired()
                })
                &&& final(self).timer() == old(self).timer()
                &&& (implied_level(old(self).trigger()->0) != Some(old(self).level()) ==> final(self).interrupt_enabled() && final(self).subscription() == old(self).subscription())
                &&& (implied_level(old(self).trigger()->0) == Some(old(self).level())
                    ==> match old(self).subscription() {
                    PinSubscription::StartDebounceTimer { remaining: Some(k) } => {
                        if k <= 1 {
                            final(self).subscription() == PinSubscription::Unsubscribed && final(self).interrupt_enabled() == old(self).interrupt_enabled()
                        } else {
                            final(self).subscription() == (PinSubscription::StartDebounceTimer {
                                remaining: Some((k - 1) as u64),
                            }) && final(self).interrupt_enabled()
                        }
                    },
                    _ => final(self).interrupt_enabled() && final(self).subscription() == old(self).subscription(),
                })
            },
            old(self).pending_update() == InterruptUpdate::TimerReached && !(old(self).trigger() matches Some(it) && implied_level(it) is Some) ==> {
                &&& final(self).fired() == old(self).fired()
                &&& final(self).interrupt_enabled() == old(self).interrupt_enabled()
                &&& final(self).subscription() == old(self).subscription()
                &&& final(self).timer() == old(self).timer()
            },
            old(self).pending_update() == InterruptUpdate::EnableTimerDriver && old(self).timer().armed_delay() is None ==> {
                &&& final(self).fired() == old(self).fired()
                &&& final(self).interrupt_enabled() == old(self).interrupt_enabled()
                &&& final(self).subscription() == old(self).subscription()
                &&& final(self).timer() == old(self).timer()
            },
            old(self).pending_update() == InterruptUpdate::ExecAndUnsubscribePin ==> {
                &&& final(self).fired() == sat_inc(old(self).fired())
                &&& final(self).subscription() == PinSubscription::Unsubscribed
                &&& final(self).interrupt_enabled() == old(self).interrupt_enabled()
                &&& final(self).timer() == old(self).timer()
            },
            old(self).pending_update() == InterruptUpdate::NoUpdate ==> {
                &&& final(self).fired() == old(self).fired()
                &&& final(self).subscription() == old(self).subscription()
                &&& final(self).interrupt_enabled() == old(self).interrupt_enabled()
                &&& final(self).timer() == old(self).timer()
            },
    {
        let interrupt_update = self.interrupt_update_code.take();
        match interrupt_update {
            InterruptUpdate::ExecAndEnablePin => {
                self.times_fired = if self.times_fired < u64::MAX {
                    self.times_fired + 1
                } else {
                    self.times_fired
                };
                self.interrupt_enabled = true;
                Ok(())
            },
            InterruptUpdate::EnableTimerDriver => {
                match self.timer_driver.enable() {
                    Ok(()) => Ok(()),
                    Err(e) => Err(DigitalInError::TimerDriverError(e)),
                }
            },
            InterruptUpdate::TimerReached => self.timer_reached(),
            InterruptUpdate::ExecAndUnsubscribePin => {
                self.times_fired = if self.times_fired < u64::MAX {
                    self.times_fired + 1
                } else {
                    self.times_fired
                };
                self.subscription = PinSubscription::Unsubscribed;
                Ok(())
            },
            InterruptUpdate::NoUpdate => Ok(()),
        }
    }

    /// The level the outside world currently drives onto the pin.
    pub fn get_level(&self) -> (level: Level)
        ensures
            level == self.level(),
    {
        self.level
    }

    /// Whether the pin level is high.
    pub fn is_high(&self) -> (high: bool)
        ensures
            high == (self.level() == Level::High),
    {
        matches!(self.level, Level::High)
    }

    /// Whether the pin level is low.
    pub fn is_low(&self) -> (low: bool)
        ensures
            low == (self.level() == Level::Low),
    {
        matches!(self.level, Level::Low)
    }

    /// The entry the hardware layer uses to drive a level onto the pin.
    /// Setting a level raises no interrupt by itself: the hardware raises
    /// the trigger condition through [`DigitalIn::pin_interrupt`].
    pub fn set_level(&mut self, level: Level)
        ensures
            *final(self) == old(self).with_level(level),
            final(self).level() == level,
            final(self).fired() == old(self).fired(),
            final(self).pending_update() == old(self).pending_update(),
            final(self).subscription() == old(self).subscription(),
            final(self).interrupt_enabled() == old(self).interrupt_enabled(),
            final(self).trigger() == old(self).trigger(),
            final(self).debounce() == old(self).debounce(),
            final(self).timer() == old(self).timer(),
    {
        self.level = level;
    }

    /// How many times the user callback has executed for this device.
    pub fn times_fired(&self) -> (count: u64)
        ensures
            count == self.fired(),
    {
        self.times_fired
    }

    /// Whether the pin interrupt is currently enabled.
    pub fn is_interrupt_enabled(&self) -> (enabled: bool)
        ensures
            enabled == self.interrupt_enabled(),
    {
        self.interrupt_enabled
    }

    /// Whether an interrupt handler is currently subscribed on the pin.
    pub fn is_subscribed(&self) -> (subscribed: bool)
        ensures
            subscribed == (self.subscription() !is Unsubscribed),
    {
        !matches!(self.subscription, PinSubscription::Unsubscribed)
    }
}

impl crate::microcontroller_src::interrupt_driver::InterruptDriver for DigitalIn {
    /// Consumes this device's one pending update, surfacing its error as
    /// the framework-wide error type.
    fn update_interrupt(&mut self) -> (result: Result<
        (),
        crate::utils::esp32_framework_error::Esp32FrameworkError,
    >)
        ensures
            *final(self) == old(self).drained(),
            result is Ok <==> old(self).drain_error() is None,
            result matches Err(e) ==> (e matches
                crate::utils::esp32_framework_error::Esp32FrameworkError::DigitalIn(inner) && old(self).drain_error() == Some(inner)),
    {
        match self._update_interrupt() {
            Ok(()) => Ok(()),
            Err(e) => Err(crate::utils::esp32_framework_error::Esp32FrameworkError::DigitalIn(e)),
        }
    }
}

/// No callback executes off the consumer thread: whatever happens in
/// interrupt context — the pin's trigger condition, the passage of time,
/// a timer expiry — and whatever the run loop moves between cells when it
/// drains a timer chain, the number of executed user callbacks stands
/// still. Only consuming a pending update can fire one.
pub proof fn lemma_no_callback_in_interrupt_context(d: DigitalIn, dt: u64)
    ensures
        d.pin_interrupted().fired() == d.fired(),
        d.advanced(dt).fired() == d.fired(),
        d.timer_drained().fired() == d.fired(),
{
}

/// Debounce confirms only on a stable level: draining the expired debounce
/// check fires the user callback exactly once if the pin level still
/// matches the level the trigger resolves to, and not at all if the level
/// reverted — the edge was noise, and no firing budget is spent on it. In
/// both outcomes the pending update is consumed. A rejected or unlimited
/// confirmed check re-enables the pin interrupt with the subscription
/// intact, so the device returns to idle and stays re-armable; a confirmed
/// check with a repeat limit spends one firing, and the last one
/// unsubscribes instead of re-enabling.
pub proof fn lemma_debounce_confirms_only_on_stable_level(d: DigitalIn)
    requires
        d.pending_update() == InterruptUpdate::TimerReached,
        d.trigger() matches Some(it) && implied_level(it) is Some,
    ensures
        implied_level(d.trigger()->0) == Some(d.level()) ==> d.drained().fired() == sat_inc(
            d.fired(),
        ),
        implied_level(d.trigger()->0) != Some(d.level()) ==> d.drained().fired() == d.fired()
            && d.drained().interrupt_enabled() && d.drained().subscription() == d.subscription(),
        d.drained().pending_update() == InterruptUpdate::NoUpdate,
        d.drained().level() == d.level(),
        d.drain_error() is None,
        implied_level(d.trigger()->0) == Some(d.level()) ==> match d.subscription() {
            PinSubscription::StartDebounceTimer { remaining: Some(k) } => {
                if k <= 1 {
                    d.drained().subscription() == PinSubscription::Unsubscribed
                        && d.drained().interrupt_enabled() == d.interrupt_enabled()
                } else {
                    d.drained().subscription() == (PinSubscription::StartDebounceTimer {
                        remaining: Some((k - 1) as u64),
                    }) && d.drained().interrupt_enabled()
                }
            },
            _ => d.drained().subscription() == d.subscription()
                && d.drained().interrupt_enabled(),
        },
{
}

/// Exactly which drains raise an error: starting an unarmed debounce timer,
/// and a level re-check whose trigger is missing or resolves to no stable
/// level. Every other pending update drains cleanly.
pub proof fn lemma_drain_error_cases(d: DigitalIn)
    ensures
        d.pending_update() == InterruptUpdate::EnableTimerDriver ==> d.drain_error() == (if d
            .timer().armed_delay() is Some {
            Option::<DigitalInError>::None
        } else {
            Some(DigitalInError::TimerDriverError(TimerDriverError::AlarmNotSet))
        }),
        d.pending_update() == InterruptUpdate::TimerReached ==> d.drain_error() == (match d
            .trigger() {
            Some(it) => if implied_level(it) is Some {
                Option::<DigitalInError>::None
            } else {
                Some(DigitalInError::CannotSetDebounceOnAnyEdgeInterruptType)
            },
            _ => Some(DigitalInError::NoInterruptTypeSet),
        }),
        d.pending_update() == InterruptUpdate::ExecAndEnablePin || d.pending_update()
            == InterruptUpdate::ExecAndUnsubscribePin || d.pending_update()
            == InterruptUpdate::NoUpdate ==> d.drain_error() is None,
{
}

/// A raised trigger with a debounce configured never fires directly: the
/// handler only asks for the debounce timer, and the drain of that request
/// starts the timer counting the armed delay — the callback waits for the
/// level re-check.
pub proof fn lemma_debounce_defers_to_timer(d: DigitalIn, delay: u64, limit: Option<u64>)
    requires
        d.subscription() == (PinSubscription::StartDebounceTimer { remaining: limit }),
        d.interrupt_enabled(),
        d.timer().armed_delay() == Some(delay),
    ensures
        d.pin_interrupted().pending_update() == InterruptUpdate::EnableTimerDriver,
        d.pin_interrupted().fired() == d.fired(),
        d.pin_interrupted().drained().fired() == d.fired(),
        d.pin_interrupted().drained().timer().is_enabled(),
        d.pin_interrupted().drained().timer().time_left() == delay,
        d.pin_interrupted().drain_error() is None,
{
    d.timer().lemma_started_facts();
}

/// A trigger limited to `n` firings terminates: on the last remaining
/// firing, the interrupt handler asks for an unsubscribe, the drain fires
/// the callback one final time and unsubscribes the pin, and from then on
/// further edges change nothing and further drains fire nothing — the
/// device is terminal.
pub proof fn lemma_n_times_trigger_terminates(d: DigitalIn)
    requires
        d.subscription() == (PinSubscription::FirstNTimes { remaining: 1u64 }),
        d.interrupt_enabled(),
    ensures
        d.pin_interrupted().pending_update() == InterruptUpdate::ExecAndUnsubscribePin,
        d.pin_interrupted().drained().fired() == sat_inc(d.fired()),
        d.pin_interrupted().drained().subscription() == PinSubscription::Unsubscribed,
        !d.pin_interrupted().drained().interrupt_enabled(),
        d.pin_interrupted().drained().pin_interrupted() == d.pin_interrupted().drained(),
        d.pin_interrupted().drained().drained() == d.pin_interrupted().drained(),
{
}

/// A debounced trigger limited to `n` firings terminates too: with one
/// firing left, a confirmed level re-check fires the callback one final
/// time and unsubscribes the pin instead of re-enabling it, and from then
/// on further edges change nothing and further drains fire nothing — the
/// device is terminal.
pub proof fn lemma_n_times_debounced_trigger_terminates(d: DigitalIn)
    requires
        d.subscription() == (PinSubscription::StartDebounceTimer { remaining: Some(1u64) }),
        d.pending_update() == InterruptUpdate::TimerReached,
        !d.interrupt_enabled(),
        d.trigger() matches Some(it) && implied_level(it) == Some(d.level()),
    ensures
        d.drained().fired() == sat_inc(d.fired()),
        d.drained().subscription() == PinSubscription::Unsubscribed,
        !d.drained().interrupt_enabled(),
        d.drained().pin_interrupted() == d.drained(),
        d.drained().drained() == d.drained(),
{
}

} // verus!
