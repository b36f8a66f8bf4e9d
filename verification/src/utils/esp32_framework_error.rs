//! The framework-wide error type that the run loop surfaces.

use vstd::prelude::*;

use crate::gpio::digital_in::DigitalInError;
use crate::utils::timer_driver::TimerDriverError;

verus! {

/// Any error a registered driver can raise while consuming its pending
/// update.
#[derive(Debug, Clone, Copy, PartialEq, Eq, Structural)]
pub enum Esp32FrameworkError {
    /// A digital input failed to consume its update.
    DigitalIn(DigitalInError),
    /// A timer driver failed to consume its update.
    TimerDriver(TimerDriverError),
}

} // verus!
