//! Shared per-device sensor logic: register protocols, sample decoding and the integer math that
//! turns raw counts into reported values.
pub mod apds9960;
pub mod error;
pub mod font;
pub mod isqrt;
pub mod known;
pub mod mc6470;
pub mod readout;
pub mod si7021;
pub mod ssd1306;
pub mod tof_script;
pub mod vl53l0x;
