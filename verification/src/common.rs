//! Wire-format constants, status decoding, bit-field extraction and the
//! exact transfer functions shared by every execution mode of the driver.

use vstd::prelude::*;

verus! {

/// Default 7-bit bus address of the MS4525DO sensor.
pub const MS4525DO_ADDR: u8 = 0x28;

/// Size in bytes of one response packet read from the sensor.
pub const DATA_SIZE: usize = 4;

/// Command byte requesting a new measurement cycle.
pub const READ_MR: u8 = 0x00;

/// Mask selecting the pressure bits (bits 0-5) of packet byte 0.
pub const BRIDGE_MASK: u8 = 0b0011_1111;

/// Mask selecting the temperature bits (bits 5-7) of packet byte 3.
pub const TEMPERATURE_MASK: u8 = 0b1110_0000;

/// Status codes returned by the MS4525DO sensor.
///
/// The status is encoded in the top 2 bits of the first data byte.
#[derive(Debug, Clone, Copy, PartialEq, Eq, Structural)]
pub enum Status {
    /// Normal Operation - valid data packet.
    NormalOperation,
    /// Reserved status code; undefined by the device.
    Reserved,
    /// Stale Data - data has been fetched since the last measurement cycle.
    StaleData,
    /// Fault Detected - the sensor reports an internal error condition.
    FaultDetected,
}

/// The status encoded by the low two bits of `bits`: a total map from the
/// four two-bit patterns onto the four variants.
pub open spec fn status_of_bits(bits: u8) -> Status {
    if bits % 4 == 0 {
        Status::NormalOperation
    } else if bits % 4 == 1 {
        Status::Reserved
    } else if bits % 4 == 2 {
        Status::StaleData
    } else {
        Status::FaultDetected
    }
}

impl From<u8> for Status {
    /// Decodes a raw status value, reading only its low two bits.
    fn from(value: u8) -> (r: Self) {
        let bits: u8 = value & 0b11;
        proof {
            assert(value & 0b11 == value % 4) by (bit_vector);
        }
        if bits == 0 {
            Status::NormalOperation
        } else if bits == 1 {
            Status::Reserved
        } else if bits == 2 {
            Status::StaleData
        } else {
            Status::FaultDetected
        }
    }
}

impl vstd::std_specs::convert::FromSpecImpl<u8> for Status {
    open spec fn obeys_from_spec() -> bool {
        true
    }

    open spec fn from_spec(value: u8) -> Status {
        status_of_bits(value)
    }
}

/// Status decoding is total: each residue of the low two bits selects
/// exactly one variant, and no other variant can come out.
pub proof fn lemma_status_decoding_total(bits: u8)
    ensures
        status_of_bits(bits) is NormalOperation <==> bits % 4 == 0,
        status_of_bits(bits) is Reserved <==> bits % 4 == 1,
        status_of_bits(bits) is StaleData <==> bits % 4 == 2,
        status_of_bits(bits) is FaultDetected <==> bits % 4 == 3,
{
}

/// The 14-bit bridge (pressure) counts carried by the first two packet
/// bytes: the low 6 bits of byte 0 followed by all 8 bits of byte 1.
pub open spec fn spec_bridge_data(b0: u8, b1: u8) -> int {
    (b0 % 0x40) * 0x100 + b1
}

/// The 11-bit temperature counts carried by the last two packet bytes: all
/// 8 bits of byte 2 followed by the top 3 bits of byte 3.
pub open spec fn spec_temperature(b2: u8, b3: u8) -> int {
    b2 * 8 + b3 / 0x20
}

/// Extracts the 14-bit bridge (pressure) data from a 4-byte sensor reading.
///
/// The pressure data is stored in bits 0-5 of byte 0 (MSB) and all of
/// byte 1 (LSB).
pub fn extract_bridge_data(data: &[u8]) -> (bridge: u16)
    requires
        data@.len() == DATA_SIZE,
    ensures
        bridge == spec_bridge_data(data@[0], data@[1]),
        bridge <= 0x3FFF,
{
    let bridge_msb: u8 = data[0] & BRIDGE_MASK;
    let bridge_lsb: u8 = data[1];
    let bridge: u16 = ((bridge_msb as u16) << 8) | (bridge_lsb as u16);
    proof {
        let b0: u8 = data@[0];
        let b1: u8 = data@[1];
        assert((((b0 & 0x3F) as u16) << 8) | (b1 as u16) == (b0 % 0x40) * 0x100 + b1
            && (((b0 & 0x3F) as u16) << 8) | (b1 as u16) <= 0x3FFF) by (bit_vector);
    }
    bridge
}

/// Extracts the 11-bit temperature data from a 4-byte sensor reading.
///
/// The temperature data is stored in all of byte 2 and bits 5-7 of byte 3.
pub fn read_temperature(data: &[u8]) -> (counts: u16)
    requires
        data@.len() == DATA_SIZE,
    ensures
        counts == spec_temperature(data@[2], data@[3]),
        counts <= 0x7FF,
{
    let counts: u16 = (((data[2] as u16) << 8) | ((data[3] & TEMPERATURE_MASK) as u16)) >> 5;
    proof {
        let b2: u8 = data@[2];
        let b3: u8 = data@[3];
        assert((((b2 as u16) << 8) | ((b3 & 0xE0) as u16)) >> 5 == b2 * 8 + b3 / 0x20
            && (((b2 as u16) << 8) | ((b3 & 0xE0) as u16)) >> 5 <= 0x7FF) by (bit_vector);
    }
    counts
}

/// Denominator of the exact pressure transfer function: the differential
/// pressure in pascals equals `spec_pressure_pa_numer(bridge) / PRESSURE_PA_DENOM`.
pub const PRESSURE_PA_DENOM: i64 = 327660;

/// Numerator of the exact pressure transfer function.
///
/// The datasheet maps the 14-bit span onto +-1 PSI with a 10%-90% offset:
/// `psi = -((bridge - 0.1 * 16383) * 2 / (0.8 * 16383) - 1)`, and
/// `pa = psi * 6894.76`.  Cleared of fractions this is exactly
/// `(16383 - 2 * bridge) * 172369 / 327660` pascals.
pub open spec fn spec_pressure_pa_numer(bridge: int) -> int {
    (16383 - 2 * bridge) * 172369
}

/// Converts raw bridge data to differential pressure, exactly, as the
/// numerator of a fraction over [`PRESSURE_PA_DENOM`].
///
/// Uses the transfer function specified in the MS4525DO datasheet for the
/// +-1 PSI differential pressure range (001PD variant).
pub fn pressure_pa_numer(bridge_data: u16) -> (numer: i64)
    ensures
        numer == spec_pressure_pa_numer(bridge_data as int),
{
    (16383 - 2 * (bridge_data as i64)) * 172369
}

/// Denominator of the exact temperature transfer function: the temperature
/// in degrees Celsius equals `spec_temp_deg_c_numer(counts) / TEMP_DEG_C_DENOM`.
pub const TEMP_DEG_C_DENOM: i64 = 2047;

/// Numerator of the exact temperature transfer function.
///
/// The datasheet maps the 11-bit counts onto -50 C ... +150 C:
/// `deg_c = 200 * counts / 2047 - 50`.  Cleared of fractions this is
/// exactly `(200 * counts - 102350) / 2047` degrees Celsius.
pub open spec fn spec_temp_deg_c_numer(counts: int) -> int {
    200 * counts - 102350
}

/// Converts raw temperature data to degrees Celsius, exactly, as the
/// numerator of a fraction over [`TEMP_DEG_C_DENOM`].
///
/// Uses the transfer function specified in the MS4525DO datasheet.
pub fn temp_deg_c_numer(temperature_counts: u16) -> (numer: i64)
    ensures
        numer == spec_temp_deg_c_numer(temperature_counts as int),
{
    200 * (temperature_counts as i64) - 102350
}

/// The pressure transfer function is linear: any step in bridge counts
/// changes the scaled pressure by a fixed negative slope.
pub proof fn lemma_pressure_linear(b1: int, b2: int)
    ensures
        spec_pressure_pa_numer(b2) - spec_pressure_pa_numer(b1) == -344738 * (b2 - b1),
{
}

/// The pressure transfer function is antisymmetric about the documented
/// zero point, which lies midway between bridge counts 8191 and 8192.
pub proof fn lemma_pressure_antisymmetric(d: int)
    ensures
        spec_pressure_pa_numer(8192 + d) == -spec_pressure_pa_numer(8191 - d),
{
}

/// At mid-scale bridge counts the pressure lies strictly within one pascal
/// of zero.
pub proof fn lemma_pressure_zero_point()
    ensures
        -PRESSURE_PA_DENOM < spec_pressure_pa_numer(8192),
        spec_pressure_pa_numer(8192) < PRESSURE_PA_DENOM,
{
}

/// The temperature transfer function is affine: zero counts sit exactly at
/// -50 degrees Celsius, full-scale counts exactly at +150, and every step
/// in counts changes the scaled temperature by the same amount.
pub proof fn lemma_temperature_affine(c1: int, c2: int)
    ensures
        spec_temp_deg_c_numer(0) == -50 * TEMP_DEG_C_DENOM,
        spec_temp_deg_c_numer(2047) == 150 * TEMP_DEG_C_DENOM,
        spec_temp_deg_c_numer(c2) - spec_temp_deg_c_numer(c1) == 200 * (c2 - c1),
{
}

} // verus!
