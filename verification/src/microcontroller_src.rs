//! The orchestrator of the framework: the peripheral arena, the capability
//! interface of interrupt-driven devices, and the cooperative run loop.

pub mod interrupt_driver;
pub mod microcontroller;
pub mod peripherals;
