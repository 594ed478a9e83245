//! The sensor driver: owns the transport handle and the bus address, and
//! validates the double read that the device's freshness protocol mandates.
//!
//! The device begins a new internal measurement cycle on each measurement
//! request, and a single read cannot distinguish a fresh value from a stale
//! one carried over from before.  Reading twice in immediate succession and
//! requiring the status transition `NormalOperation` -> `StaleData`, with
//! byte-identical payload fields, is the device's documented freshness
//! contract.  [`validate_reading`] is that rule, stated and proved exactly;
//! the transport adapter performs the write/wait/read/read exchange and
//! hands the two packets here.

use vstd::prelude::*;
use crate::common::{MS4525DO_ADDR, Status, spec_bridge_data, spec_temperature, status_of_bits};
use crate::common::{extract_bridge_data, read_temperature};
use crate::error::Ms4525doError;

verus! {

/// MS4525DO sensor driver.
///
/// Generic over the transport handle, which the driver owns exclusively for
/// its lifetime, so that no second caller can reach the bus while a read is
/// outstanding.
pub struct Ms4525do<I2C> {
    i2c: I2C,
    address: u8,
}

impl<I2C> Ms4525do<I2C> {
    /// The 7-bit bus address the driver is bound to.
    pub closed spec fn spec_address(&self) -> u8 {
        self.address
    }

    /// The transport handle the driver owns.
    pub closed spec fn spec_transport(&self) -> I2C {
        self.i2c
    }

    /// Creates a new MS4525DO sensor instance bound to the default bus
    /// address (0x28).  No I/O occurs at construction.
    pub fn new(i2c: I2C) -> (sensor: Self)
        ensures
            sensor.spec_address() == MS4525DO_ADDR,
            sensor.spec_transport() == i2c,
    {
        Ms4525do { i2c, address: MS4525DO_ADDR }
    }

    /// Creates a new MS4525DO sensor instance bound to a custom 7-bit bus
    /// address.  No I/O occurs at construction.
    pub fn new_with_address(i2c: I2C, address: u8) -> (sensor: Self)
        ensures
            sensor.spec_address() == address,
            sensor.spec_transport() == i2c,
    {
        Ms4525do { i2c, address }
    }

    /// The 7-bit bus address the driver is bound to.
    pub fn address(&self) -> (address: u8)
        ensures
            address == self.spec_address(),
    {
        self.address
    }

    /// Consumes the sensor driver and returns the underlying transport
    /// handle, leaving no residual reference.
    pub fn release(self) -> (i2c: I2C)
        ensures
            i2c == self.spec_transport(),
    {
        self.i2c
    }
}

/// The status carried in the top two bits of a packet's first byte.
pub open spec fn spec_packet_status(b0: u8) -> Status {
    status_of_bits(b0 / 0x40)
}

/// Whether either packet of a double read self-reports a fault.
pub open spec fn spec_has_fault(d1: Seq<u8>, d2: Seq<u8>) -> bool
    recommends
        d1.len() == 4,
        d2.len() == 4,
{
    spec_packet_status(d1[0]) is FaultDetected || spec_packet_status(d2[0]) is FaultDetected
}

/// Whether a double read shows the mandated freshness transition: the first
/// packet fresh, the second stale.
pub open spec fn spec_fresh_sequence(d1: Seq<u8>, d2: Seq<u8>) -> bool
    recommends
        d1.len() == 4,
        d2.len() == 4,
{
    spec_packet_status(d1[0]) is NormalOperation && spec_packet_status(d2[0]) is StaleData
}

/// Whether the two packets of a double read agree on both extracted fields.
pub open spec fn spec_fields_agree(d1: Seq<u8>, d2: Seq<u8>) -> bool
    recommends
        d1.len() == 4,
        d2.len() == 4,
{
    &&& spec_bridge_data(d1[0], d1[1]) == spec_bridge_data(d2[0], d2[1])
    &&& spec_temperature(d1[2], d1[3]) == spec_temperature(d2[2], d2[3])
}

/// Validates a double read against the device's freshness protocol and
/// extracts the agreed raw fields of the first packet.
///
/// A fault reported by either packet takes priority over the sequence
/// check; a wrong sequence reports the first packet's status, the
/// diagnostically relevant one; only then are the extracted fields
/// compared.  On success the returned pair holds the 14-bit bridge
/// (pressure) counts and the 11-bit temperature counts.
pub fn validate_reading(data_1: &[u8; 4], data_2: &[u8; 4]) -> (result: Result<
    (u16, u16),
    Ms4525doError,
>)
    ensures
        result is Ok <==> {
            &&& !spec_has_fault(data_1@, data_2@)
            &&& spec_fresh_sequence(data_1@, data_2@)
            &&& spec_fields_agree(data_1@, data_2@)
        },
        result matches Ok(fields) ==> {
            &&& fields.0 == spec_bridge_data(data_1@[0], data_1@[1])
            &&& fields.1 == spec_temperature(data_1@[2], data_1@[3])
        },
        spec_has_fault(data_1@, data_2@) ==> result == Err::<(u16, u16), _>(
            Ms4525doError::FaultDetected,
        ),
        !spec_has_fault(data_1@, data_2@) && !spec_fresh_sequence(data_1@, data_2@)
            ==> result == Err::<(u16, u16), _>(
            Ms4525doError::InvalidStatus(spec_packet_status(data_1@[0])),
        ),
        !spec_has_fault(data_1@, data_2@) && spec_fresh_sequence(data_1@, data_2@)
            && !spec_fields_agree(data_1@, data_2@) ==> result == Err::<(u16, u16), _>(
            Ms4525doError::StaleDataMismatch,
        ),
{
    let b0_1: u8 = data_1[0];
    let b0_2: u8 = data_2[0];
    proof {
        assert(b0_1 >> 6 == b0_1 / 0x40) by (bit_vector);
        assert(b0_2 >> 6 == b0_2 / 0x40) by (bit_vector);
    }
    let status_1 = Status::from(b0_1 >> 6);
    let status_2 = Status::from(b0_2 >> 6);

    // A self-reported fault short-circuits before the sequence check.
    if status_1 == Status::FaultDetected || status_2 == Status::FaultDetected {
        return Err(Ms4525doError::FaultDetected);
    }

    // The mandated status progression: NormalOperation -> StaleData.
    if !(status_1 == Status::NormalOperation) || !(status_2 == Status::StaleData) {
        return Err(Ms4525doError::InvalidStatus(status_1));
    }

    // Extract both fields from both packets independently.
    let bridge_data_1 = extract_bridge_data(data_1);
    let bridge_data_2 = extract_bridge_data(data_2);
    let temperature_1 = read_temperature(data_1);
    let temperature_2 = read_temperature(data_2);

    // The payloads must agree, else the read raced a measurement cycle.
    if bridge_data_1 != bridge_data_2 || temperature_1 != temperature_2 {
        return Err(Ms4525doError::StaleDataMismatch);
    }

    Ok((bridge_data_1, temperature_1))
}

} // verus!
