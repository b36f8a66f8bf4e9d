//! Digital general-purpose input handling: interrupt-driven inputs with
//! optional debounce filtering.

pub mod digital_in;

pub use digital_in::DigitalIn;
pub use digital_in::DigitalInError;
pub use digital_in::InterruptType;
pub use digital_in::InterruptUpdate;
pub use digital_in::InterruptUpdateCell;
pub use digital_in::Level;
pub use digital_in::Pull;
