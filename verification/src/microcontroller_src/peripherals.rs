//! The arena of peripheral slots.
//!
//! Every hardware resource — a pin, a hardware timer, the I2C bus, the BLE
//! radio — is a slot that can be checked out exactly once. Checking out a
//! slot moves it to one driver; asking again yields a typed unavailability
//! value, never a panic.

use vstd::prelude::*;

verus! {

/// How many GPIO pins the arena offers.
pub const PIN_COUNT: u8 = 31;

/// How many hardware timers the arena offers.
pub const TIMER_COUNT: u8 = 4;

/// One checked-out peripheral slot, or the record that the slot was not
/// available.
#[derive(Debug, Clone, Copy, PartialEq, Eq, Structural)]
pub enum Peripheral {
    /// An input/output pin, by pin number.
    Pin(u8),
    /// A hardware timer, by timer number.
    Timer(u8),
    /// The I2C bus.
    I2C,
    /// The BLE radio.
    BleDevice,
    /// The slot asked for was invalid or already checked out.
    NotAvailable,
}

/// Errors raised when a peripheral is used as something it is not.
#[derive(Debug, Clone, Copy, PartialEq, Eq, Structural)]
pub enum PeripheralError {
    /// The peripheral is not an input/output pin.
    NotAnIOPin,
}

impl Peripheral {
    /// Hands the pin number out of a pin peripheral.
    pub fn into_any_io_pin(self) -> (result: Result<u8, PeripheralError>)
        ensures
            match result {
                Ok(pin) => self == Peripheral::Pin(pin),
                Err(e) => self !is Pin && e == PeripheralError::NotAnIOPin,
            },
    {
        match self {
            Peripheral::Pin(pin) => Ok(pin),
            _ => Err(PeripheralError::NotAnIOPin),
        }
    }
}

/// The ownership table of all peripheral slots.
pub struct Peripherals {
    pins_taken: Vec<bool>,
    timers_taken: Vec<bool>,
    i2c_taken: bool,
    ble_taken: bool,
}

impl Peripherals {
    /// Whether pin `pin` is still available.
    pub closed spec fn pin_free(self, pin: int) -> bool {
        0 <= pin < self.pins_taken@.len() && !self.pins_taken@[pin]
    }

    /// Whether timer `timer` is still available.
    pub closed spec fn timer_free(self, timer: int) -> bool {
        0 <= timer < self.timers_taken@.len() && !self.timers_taken@[timer]
    }

    /// Whether the I2C bus is still available.
    pub closed spec fn i2c_free(self) -> bool {
        !self.i2c_taken
    }

    /// Whether the BLE radio is still available.
    pub closed spec fn ble_free(self) -> bool {
        !self.ble_taken
    }

    /// A fresh arena in which every slot is available.
    pub fn new() -> (peripherals: Peripherals)
        ensures
            forall|pin: int| 0 <= pin < PIN_COUNT ==> peripherals.pin_free(pin),
            forall|timer: int| 0 <= timer < TIMER_COUNT ==> peripherals.timer_free(timer),
            peripherals.i2c_free(),
            peripherals.ble_free(),
    {
        let mut pins_taken: Vec<bool> = Vec::new();
        let mut i: u8 = 0;
        while i < PIN_COUNT
            invariant
                i <= PIN_COUNT,
                pins_taken@.len() == i,
                forall|pin: int| 0 <= pin < i ==> !pins_taken@[pin],
            decreases PIN_COUNT - i,
        {
            pins_taken.push(false);
            i = i + 1;
        }
        let mut timers_taken: Vec<bool> = Vec::new();
        let mut t: u8 = 0;
        while t < TIMER_COUNT
            invariant
                t <= TIMER_COUNT,
                timers_taken@.len() == t,
                forall|timer: int| 0 <= timer < t ==> !timers_taken@[timer],
            decreases TIMER_COUNT - t,
        {
            timers_taken.push(false);
            t = t + 1;
        }
        Peripherals { pins_taken, timers_taken, i2c_taken: false, ble_taken: false }
    }

    /// Checks pin `pin` out of the arena. The pin moves to the caller; a
    /// second checkout of the same pin yields `NotAvailable`.
    pub fn get_digital_pin(&mut self, pin: usize) -> (per: Peripheral)
        ensures
            old(self).pin_free(pin as int) ==> per == Peripheral::Pin(pin as u8)
                && !final(self).pin_free(pin as int),
            !old(self).pin_free(pin as int) ==> per == Peripheral::NotAvailable && (forall|other: int|
                final(self).pin_free(other) == old(self).pin_free(other)),
            forall|other: int| other != pin ==> final(self).pin_free(other) == old(
                self,
            ).pin_free(other),
            forall|timer: int| final(self).timer_free(timer) == old(self).timer_free(timer),
            final(self).i2c_free() == old(self).i2c_free(),
            final(self).ble_free() == old(self).ble_free(),
    {
        if pin < self.pins_taken.len() && !self.pins_taken[pin] {
            self.pins_taken.set(pin, true);
            Peripheral::Pin(pin as u8)
        } else {
            Peripheral::NotAvailable
        }
    }

    /// Checks timer `timer` out of the arena.
    pub fn get_timer(&mut self, timer: usize) -> (per: Peripheral)
        ensures
            old(self).timer_free(timer as int) ==> per == Peripheral::Timer(timer as u8)
                && !final(self).timer_free(timer as int),
            !old(self).timer_free(timer as int) ==> per == Peripheral::NotAvailable && (forall|
                other: int,
            |
                final(self).timer_free(other) == old(self).timer_free(other)),
            forall|other: int| other != timer ==> final(self).timer_free(other) == old(
                self,
            ).timer_free(other),
            forall|pin: int| final(self).pin_free(pin) == old(self).pin_free(pin),
            final(self).i2c_free() == old(self).i2c_free(),
            final(self).ble_free() == old(self).ble_free(),
    {
        if timer < self.timers_taken.len() && !self.timers_taken[timer] {
            self.timers_taken.set(timer, true);
            Peripheral::Timer(timer as u8)
        } else {
            Peripheral::NotAvailable
        }
    }

    /// Checks the I2C bus out of the arena.
    pub fn get_i2c(&mut self) -> (per: Peripheral)
        ensures
            old(self).i2c_free() ==> per == Peripheral::I2C && !final(self).i2c_free(),
            !old(self).i2c_free() ==> per == Peripheral::NotAvailable && final(self).i2c_free()
                == old(self).i2c_free(),
            forall|pin: int| final(self).pin_free(pin) == old(self).pin_free(pin),
            forall|timer: int| final(self).timer_free(timer) == old(self).timer_free(timer),
            final(self).ble_free() == old(self).ble_free(),
    {
        if !self.i2c_taken {
            self.i2c_taken = true;
            Peripheral::I2C
        } else {
            Peripheral::NotAvailable
        }
    }

    /// Checks the BLE radio out of the arena.
    pub fn get_ble_device(&mut self) -> (per: Peripheral)
        ensures
            old(self).ble_free() ==> per == Peripheral::BleDevice && !final(self).ble_free(),
            !old(self).ble_free() ==> per == Peripheral::NotAvailable && final(self).ble_free()
                == old(self).ble_free(),
            forall|pin: int| final(self).pin_free(pin) == old(self).pin_free(pin),
            forall|timer: int| final(self).timer_free(timer) == old(self).timer_free(timer),
            final(self).i2c_free() == old(self).i2c_free(),
    {
        if !self.ble_taken {
            self.ble_taken = true;
            Peripheral::BleDevice
        } else {
            Peripheral::NotAvailable
        }
    }
}

} // verus!
