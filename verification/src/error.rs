//! Error types for MS4525DO sensor operations.

use vstd::prelude::*;
use crate::common::Status;

verus! {

/// Errors that can occur during MS4525DO sensor operations.
#[derive(Debug, Clone, Copy, PartialEq, Eq, Structural)]
pub enum Ms4525doError {
    /// Bus communication error: the underlying write or read failed.
    ///
    /// The caller should treat the bus as possibly unhealthy; the driver
    /// never retries internally.
    I2cError,
    /// The sensor returned an unexpected status code.
    ///
    /// The status should progress from `NormalOperation` to `StaleData`
    /// over the double read.  Carries the first packet's observed status
    /// for diagnostics.
    InvalidStatus(Status),
    /// An internal fixed-size buffer could not hold the expected packet.
    ///
    /// This should not occur in normal operation, as the buffer size is
    /// fixed at 4 bytes; it is retained as a defensive signal of
    /// corruption.
    DataOutOfRange,
    /// The sensor detected an internal fault condition, in either packet.
    ///
    /// Consider power cycling the sensor or checking for physical damage.
    FaultDetected,
    /// Data validation failed between consecutive reads.
    ///
    /// The pressure or temperature fields did not match between the first
    /// and the second read; the read likely raced a new measurement cycle.
    /// Transient: try again after a short delay.
    StaleDataMismatch,
}

impl Ms4525doError {
    /// A short human-readable description of the error.
    pub fn message(&self) -> (s: &'static str)
        ensures
            self is I2cError ==> s@ == "I2C communication error"@,
            self matches Ms4525doError::InvalidStatus(_) ==> s@ == "Invalid sensor status"@,
            self is DataOutOfRange ==> s@ == "Internal buffer allocation failed"@,
            self is FaultDetected ==> s@ == "Sensor fault detected"@,
            self is StaleDataMismatch ==> s@ == "Data validation failed between consecutive reads"@,
    {
        match self {
            Ms4525doError::I2cError => "I2C communication error",
            Ms4525doError::InvalidStatus(_) => "Invalid sensor status",
            Ms4525doError::DataOutOfRange => "Internal buffer allocation failed",
            Ms4525doError::FaultDetected => "Sensor fault detected",
            Ms4525doError::StaleDataMismatch => "Data validation failed between consecutive reads",
        }
    }
}

} // verus!
