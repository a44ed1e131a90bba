//! The product (Stembus node) firmware's logic: the I²C-slave register contract, runtime model
//! detection, operating modes, sensor-bus enumeration and the debug/status window.
pub mod regmap;
pub mod image;
pub mod model;
pub mod enumerate;
pub mod mode;
pub mod status;
pub mod stem;
pub mod hal;
pub mod i2c;
pub mod console;
