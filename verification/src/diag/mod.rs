//! The diagnostic (power-on self-test) firmware's logic: the device registry and test bag, the
//! cooperative tasks' decisions, the I²C stress runner, board-stat decoding and the OLED text
//! layout.
pub mod clock;
pub mod adc;
pub mod regs;
pub mod post;
pub mod tasks;
pub mod stress;
pub mod ssd1306_raw;
pub mod hal;
pub mod oled;
