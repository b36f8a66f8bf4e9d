//! Serial interfaces: the I2C bus capabilities and their error handling.

pub mod i2c;

pub use i2c::I2CError;
pub use i2c::READER;
pub use i2c::WRITER;
