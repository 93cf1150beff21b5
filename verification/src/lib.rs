//! Thermal telemetry core: sensor-text decoding, temperature estimation,
//! severity classification, operating-mode parsing, and a bounded rolling
//! history of temperature samples.
//!
//! Temperatures are carried as integer millidegrees Celsius throughout, the
//! unit in which the kernel exposes them; frequencies are in MHz.

pub mod estimate;
pub mod history;
pub mod mode;
pub mod sensors;
pub mod state;
pub mod text;
pub mod zone;
