//! A microcontroller peripheral framework built around an interrupt-deferral
//! and debounce coordination engine.
//!
//! Work triggered inside a hardware interrupt context is moved into a
//! cooperative, single-threaded application run loop: an interrupt handler
//! may only write a pending-update cell, push onto a bounded queue, or
//! signal a notification; all user-visible work happens later, when the run
//! loop drains every registered interrupt-driven device in a defined order.
//! The embedding (a hardware layer or a test harness) delivers pin edges,
//! pin levels and the passage of time through explicit entry points, which
//! keeps the whole engine deterministic and checkable.

pub mod ble;
pub mod gpio;
pub mod microcontroller_src;
pub mod serial;
pub mod utils;

pub use microcontroller_src::interrupt_driver::InterruptDriver;
pub use microcontroller_src::microcontroller::Microcontroller;
pub use utils::timer_driver;
