//! A one-shot countdown timer with a chained expiry action.
//!
//! The timer is exclusively owned by the device that requested it. It is
//! armed with a delay, enabled to start counting, and fires at most once per
//! arm. Its expiry, raised in interrupt context, only marks the timer's own
//! pending cell; the run loop drains that cell first on every pass and
//! performs the chained action (writing the owning device's update cell) on
//! the consumer thread.

use vstd::prelude::*;

use crate::microcontroller_src::peripherals::Peripheral;
use crate::utils::notification::Notifier;

verus! {

/// Errors raised while reserving or driving a hardware timer.
#[derive(Debug, Clone, Copy, PartialEq, Eq, Structural)]
pub enum TimerDriverError {
    /// The peripheral handed in was not a timer slot.
    InvalidPeripheral,
    /// The timer was started before any alarm was armed on it.
    AlarmNotSet,
    /// The fixed pool of hardware timers is exhausted.
    TooManyTimers,
}

/// Driver of one hardware one-shot timer.
///
/// At most one arm is pending per driver: re-arming before expiry cancels
/// and replaces the previous arm — the last caller wins, timers never stack
/// on one handle.
pub struct TimerDriver {
    delay_us: Option<u64>,
    enabled: bool,
    remaining_us: u64,
    expired_pending: bool,
    notifier: Option<Notifier>,
}

impl TimerDriver {
    /// The delay, in microseconds, of the currently armed alarm, if any.
    pub closed spec fn armed_delay(self) -> Option<u64> {
        self.delay_us
    }

    /// Whether the timer is actively counting down.
    pub closed spec fn is_enabled(self) -> bool {
        self.enabled
    }

    /// Microseconds left until expiry while the timer counts.
    pub closed spec fn time_left(self) -> u64 {
        self.remaining_us
    }

    /// Whether an expiry was raised and has not been drained yet.
    pub closed spec fn has_expiry_pending(self) -> bool {
        self.expired_pending
    }

    /// Whether the driver is wired to the run loop's notification.
    pub closed spec fn is_wired(self) -> bool {
        self.notifier is Some
    }

    /// The timer as it stands after an alarm of `delay_us` microseconds is
    /// armed on it: the previous arm is cancelled and replaced.
    pub closed spec fn armed(self, delay_us: u64) -> TimerDriver {
        TimerDriver { delay_us: Some(delay_us), enabled: false, ..self }
    }

    /// The timer as it stands once its armed countdown starts.
    pub closed spec fn started(self) -> TimerDriver {
        TimerDriver { enabled: true, remaining_us: self.delay_us->0, ..self }
    }

    /// The timer as it stands once its countdown is stopped.
    pub closed spec fn stopped(self) -> TimerDriver {
        TimerDriver { enabled: false, ..self }
    }

    /// The timer as it stands once its pending expiry is drained.
    pub closed spec fn expiry_taken(self) -> TimerDriver {
        TimerDriver { expired_pending: false, ..self }
    }

    /// The timer as it stands after counting `dt` microseconds: either it
    /// keeps counting, or it fires once and stops.
    pub closed spec fn advanced(self, dt: u64) -> TimerDriver {
        if self.is_enabled() {
            if self.time_left() <= dt {
                TimerDriver {
                    enabled: false,
                    remaining_us: 0,
                    expired_pending: true,
                    ..self
                }
            } else {
                TimerDriver { remaining_us: (self.time_left() - dt) as u64, ..self }
            }
        } else {
            self
        }
    }

    /// What arming an alarm leaves of the timer: the new delay replaces
    /// the old, the countdown stops until it is started, and the pending
    /// expiry and wiring stand.
    pub proof fn lemma_armed_facts(self, delay_us: u64)
        ensures
            self.armed(delay_us).armed_delay() == Some(delay_us),
            !self.armed(delay_us).is_enabled(),
            self.armed(delay_us).has_expiry_pending() == self.has_expiry_pending(),
            self.armed(delay_us).is_wired() == self.is_wired(),
    {
    }

    /// What draining the pending expiry leaves of the timer: the expiry is
    /// gone and everything else stands.
    pub proof fn lemma_expiry_taken_facts(self)
        ensures
            !self.expiry_taken().has_expiry_pending(),
            self.expiry_taken().armed_delay() == self.armed_delay(),
            self.expiry_taken().is_enabled() == self.is_enabled(),
            self.expiry_taken().time_left() == self.time_left(),
            self.expiry_taken().is_wired() == self.is_wired(),
    {
    }

    /// What starting the countdown leaves of the timer: it counts its
    /// armed delay down, and everything else stands.
    pub proof fn lemma_started_facts(self)
        ensures
            self.started().is_enabled(),
            self.started().time_left() == self.armed_delay()->0,
            self.started().armed_delay() == self.armed_delay(),
            self.started().has_expiry_pending() == self.has_expiry_pending(),
            self.started().is_wired() == self.is_wired(),
    {
    }

    /// What counting `dt` microseconds leaves of the timer: a countdown
    /// that runs out fires once and stops with its expiry pending; one
    /// with time left keeps counting; a stopped timer stands still.
    pub proof fn lemma_advanced_facts(self, dt: u64)
        ensures
            self.expires_within(dt) ==> {
                &&& !self.advanced(dt).is_enabled()
                &&& self.advanced(dt).time_left() == 0
                &&& self.advanced(dt).has_expiry_pending()
            },
            self.is_enabled() && !self.expires_within(dt) ==> {
                &&& self.advanced(dt).is_enabled()
                &&& self.advanced(dt).time_left() == self.time_left() - dt
                &&& self.advanced(dt).has_expiry_pending() == self.has_expiry_pending()
            },
            !self.is_enabled() ==> self.advanced(dt) == self,
            self.advanced(dt).armed_delay() == self.armed_delay(),
            self.advanced(dt).is_wired() == self.is_wired(),
    {
    }

    /// Whether counting `dt` microseconds makes the timer fire.
    pub open spec fn expires_within(self, dt: u64) -> bool {
        self.is_enabled() && self.time_left() <= dt
    }

    /// Reserves the hardware timer slot handed in as `per`.
    pub fn new(per: Peripheral, notifier: Option<Notifier>) -> (result: Result<
        TimerDriver,
        TimerDriverError,
    >)
        ensures
            match result {
                Ok(timer) => {
                    &&& per is Timer
                    &&& timer.armed_delay() is None
                    &&& !timer.is_enabled()
                    &&& !timer.has_expiry_pending()
                    &&& timer.is_wired() == (notifier is Some)
                },
                Err(e) => per !is Timer && e == TimerDriverError::InvalidPeripheral,
            },
    {
        match per {
            Peripheral::Timer(_) => Ok(
                TimerDriver {
                    delay_us: Option::<u64>::None,
                    enabled: false,
                    remaining_us: 0,
                    expired_pending: false,
                    notifier,
                },
            ),
            _ => Err(TimerDriverError::InvalidPeripheral),
        }
    }

    /// Arms the one-shot alarm: once the timer is enabled, the chained
    /// expiry action will be raised `delay_us` microseconds later.
    /// Re-arming before expiry cancels and replaces the previous arm.
    pub fn interrupt_after(&mut self, delay_us: u64)
        ensures
            *final(self) == old(self).armed(delay_us),
            final(self).armed_delay() == Some(delay_us),
            !final(self).is_enabled(),
            final(self).has_expiry_pending() == old(self).has_expiry_pending(),
            final(self).is_wired() == old(self).is_wired(),
    {
        self.delay_us = Some(delay_us);
        self.enabled = false;
    }

    /// Starts the countdown of the armed alarm.
    pub fn enable(&mut self) -> (result: Result<(), TimerDriverError>)
        ensures
            match result {
                Ok(()) => {
                    &&& old(self).armed_delay() is Some
                    &&& *final(self) == old(self).started()
                    &&& final(self).is_enabled()
                    &&& final(self).time_left() == old(self).armed_delay()->0
                    &&& final(self).armed_delay() == old(self).armed_delay()
                    &&& final(self).has_expiry_pending() == old(self).has_expiry_pending()
                    &&& final(self).is_wired() == old(self).is_wired()
                },
                Err(e) => {
                    &&& old(self).armed_delay() is None
                    &&& e == TimerDriverError::AlarmNotSet
                    &&& *final(self) == *old(self)
                },
            },
    {
        match self.delay_us {
            Some(delay) => {
                self.remaining_us = delay;
                self.enabled = true;
                Ok(())
            },
            _ => Err(TimerDriverError::AlarmNotSet),
        }
    }

    /// Stops the countdown without raising the expiry. Callers disable the
    /// timer between uses to avoid spurious firing.
    pub fn disable(&mut self) -> (result: Result<(), TimerDriverError>)
        ensures
            result is Ok,
            *final(self) == old(self).stopped(),
            !final(self).is_enabled(),
            final(self).armed_delay() == old(self).armed_delay(),
            final(self).has_expiry_pending() == old(self).has_expiry_pending(),
            final(self).time_left() == old(self).time_left(),
            final(self).is_wired() == old(self).is_wired(),
    {
        self.enabled = false;
        Ok(())
    }

    /// Lets `dt` microseconds of hardware time pass. If the countdown runs
    /// out, the expiry fires exactly once: the timer stops (one-shot) and
    /// its own pending cell is marked from interrupt context. The returned
    /// wake flag reports whether the expiry signalled the run loop's
    /// notifier.
    pub fn advance(&mut self, dt: u64) -> (woke: bool)
        ensures
            *final(self) == old(self).advanced(dt),
            woke == (old(self).expires_within(dt) && old(self).is_wired()),
    {
        if self.enabled {
            if self.remaining_us <= dt {
                self.enabled = false;
                self.remaining_us = 0;
                self.expired_pending = true;
                matches!(self.notifier, Some(_))
            } else {
                self.remaining_us = self.remaining_us - dt;
                false
            }
        } else {
            false
        }
    }

    /// Drains the timer's own pending cell on the consumer thread: reports
    /// whether an expiry fired since the last drain, and resets the cell.
    /// The caller performs the chained action.
    pub fn take_expiry(&mut self) -> (expired: bool)
        ensures
            expired == old(self).has_expiry_pending(),
            *final(self) == old(self).expiry_taken(),
            !old(self).has_expiry_pending() ==> *final(self) == *old(self),
            !final(self).has_expiry_pending(),
            final(self).armed_delay() == old(self).armed_delay(),
            final(self).is_enabled() == old(self).is_enabled(),
            final(self).time_left() == old(self).time_left(),
            final(self).is_wired() == old(self).is_wired(),
    {
        let expired = self.expired_pending;
        self.expired_pending = false;
        expired
    }
}

} // verus!
