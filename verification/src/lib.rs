//! Low-level drivers for the ESP32 family: the decisions and register values
//! behind GPIO output, I2C master writes, the ROM delay timer, the UART console,
//! watchdog shutdown and the blink/display demo, with the hardware side effects
//! described as plain values that the firmware performs.

pub mod delay;
pub mod demo;
pub mod gpio;
pub mod i2c;
pub mod ll;
pub mod regs;
pub mod timer;
pub mod uart;
pub mod wdt;
