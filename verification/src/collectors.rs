//! Collection of telemetry: what the readings of a host come to.
//!
//! Fractional readings travel as the bits of a double-precision number: nothing here computes with
//! them.

pub mod bounded;
pub mod drm;
pub mod hwmon;
pub mod model;
pub mod nvidia;
pub mod order;
pub mod pdh_buffer;
pub mod pdh_recovery;
pub mod sampler;
pub mod wddm;
