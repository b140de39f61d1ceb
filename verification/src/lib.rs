//! Temperature acquisition and display for the Ocypus Iota L24 digital display.
//!
//! The crate holds the decisions of the monitor: how tool output is searched
//! for a temperature, in which order the sources are tried, how a reading
//! becomes the 64-byte report of the display, and what follows a failed write.
//! Running the tools and talking to the device is left to the caller, who
//! hands in what came back as plain values.

pub mod config;
pub mod cpu_sensor;
pub mod device;
pub mod error;
pub mod gpu_sensor;
pub mod monitor;
pub mod sensor;
pub mod temperature;
pub mod text;
