//! The capability interface every interrupt-driven device offers the run
//! loop: consume one pending update.

use vstd::prelude::*;

use crate::utils::esp32_framework_error::Esp32FrameworkError;

verus! {

/// A device the run loop drains: each pass, the loop asks every registered
/// driver to consume its one pending update and perform the deferred work
/// on the consumer thread.
pub trait InterruptDriver {
    /// Consumes the device's pending update, executing the deferred action.
    fn update_interrupt(&mut self) -> Result<(), Esp32FrameworkError>;
}

} // verus!
