//! Typed hardware I/O building blocks: a mode-tagged GPIO pin state machine
//! and an I2C transaction compiler that turns logical read/write operations
//! into wire messages with exact start/stop framing flags.

pub mod gpio;
pub mod i2c;

pub use gpio::GpioPin;
pub use i2c::I2cError;
