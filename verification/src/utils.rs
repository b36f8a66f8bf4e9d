//! Shared primitives of the framework: the ISR-safe queue, the notification
//! primitive, the timer driver and the framework-wide error type.

pub mod auxiliary;
pub mod esp32_framework_error;
pub mod notification;
pub mod timer_driver;
