//! Encoder for the fixed-layout location record that a camera accepts over a
//! Bluetooth Low Energy characteristic write, together with the device-name
//! match used to select the camera during discovery.

pub mod discovery;
pub mod payload;
