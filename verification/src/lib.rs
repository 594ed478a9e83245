//! Driver library for the MS4525DO differential-pressure sensor.
//!
//! The sensor answers a measurement request with 4-byte packets carrying a
//! 2-bit status, 14-bit raw pressure counts and 11-bit raw temperature
//! counts.  This crate holds the pure core of the driver: status decoding,
//! bit-field extraction, the double-read freshness validation, and the exact
//! (integer-scaled) transfer functions from raw counts to physical units.
//! The transport I/O and the floating-point unit conversion sit outside, in
//! thin adapters that feed packets in and take plain values out.

pub mod common;
pub mod driver;
pub mod error;

pub use common::Status;
pub use common::extract_bridge_data;
pub use common::read_temperature;
pub use common::pressure_pa_numer;
pub use common::temp_deg_c_numer;
pub use common::PRESSURE_PA_DENOM;
pub use common::TEMP_DEG_C_DENOM;
pub use driver::Ms4525do;
pub use driver::validate_reading;
pub use error::Ms4525doError;
