//! Tests for status decoding, bit-field extraction and the exact transfer
//! functions.

use ms4525do::{
    extract_bridge_data, pressure_pa_numer, read_temperature, temp_deg_c_numer, Status,
    PRESSURE_PA_DENOM, TEMP_DEG_C_DENOM,
};

#[test]
fn test_status_conversion() {
    assert_eq!(Status::from(0b00), Status::NormalOperation);
    assert_eq!(Status::from(0b01), Status::Reserved);
    assert_eq!(Status::from(0b10), Status::StaleData);
    assert_eq!(Status::from(0b11), Status::FaultDetected);
}

#[test]
fn test_status_conversion_ignores_high_bits() {
    assert_eq!(Status::from(0b100), Status::NormalOperation);
    assert_eq!(Status::from(0b111), Status::FaultDetected);
    assert_eq!(Status::from(0xFE), Status::StaleData);
    assert_eq!(Status::from(0xFF), Status::FaultDetected);
}

#[test]
fn test_extract_bridge_data() {
    let data = [0x3F, 0xFF, 0x80, 0x00];
    let bridge_data = extract_bridge_data(&data);
    assert_eq!(bridge_data, 0x3FFF, "Incorrect bridge data extraction");
}

#[test]
fn ms4525do_test_extract_bridge_data() {
    let data = [0x3F, 0xFF, 0x80, 0x00];
    let bridge_data = extract_bridge_data(&data);
    assert_eq!(bridge_data, 0x3FFF, "Incorrect bridge data extraction");
}

#[test]
fn test_extract_bridge_data_drops_status_bits() {
    // The top two bits of byte 0 carry the status, not pressure data.
    let data = [0xFF, 0xFF, 0x00, 0x00];
    assert_eq!(extract_bridge_data(&data), 0x3FFF);
    let data = [0xC0, 0x00, 0x00, 0x00];
    assert_eq!(extract_bridge_data(&data), 0x0000);
}

#[test]
fn test_read_temperature() {
    let data = [0x00, 0x00, 0x80, 0xE0];
    let temp = read_temperature(&data);
    assert_eq!(temp, 0x0407, "Incorrect temperature extraction");
}

#[test]
fn ms4525do_test_read_temperature() {
    let data = [0x00, 0x00, 0x80, 0xE0];
    let temp = read_temperature(&data);
    assert_eq!(temp, 0x0407, "Incorrect temperature extraction");
}

#[test]
fn test_read_temperature_drops_low_bits() {
    // Bits 0-4 of byte 3 carry no temperature data.
    let data = [0x00, 0x00, 0xFF, 0xFF];
    assert_eq!(read_temperature(&data), 0x07FF);
    let data = [0x00, 0x00, 0x00, 0x1F];
    assert_eq!(read_temperature(&data), 0x0000);
}

#[test]
fn test_calculate_pressure_differential_pa() {
    let bridge_data = 8192; // Mid-range
    let pressure_pa = pressure_pa_numer(bridge_data) as f64 / PRESSURE_PA_DENOM as f64;
    assert!(
        (pressure_pa - 0.0).abs() < 1.0,
        "Pressure calculation incorrect: {}",
        pressure_pa
    );
}

#[test]
fn ms4525do_test_calculate_pressure_differential_pa() {
    let bridge_data = 8192; // Mid-range
    let pressure_pa = pressure_pa_numer(bridge_data) as f64 / PRESSURE_PA_DENOM as f64;
    assert!(
        (pressure_pa - 0.0).abs() < 1.0,
        "Pressure calculation incorrect: {}",
        pressure_pa
    );
}

#[test]
fn test_pressure_exact_values() {
    // Full span: 0 counts -> +1 PSI (6894.76 Pa), 16383 counts -> -1 PSI.
    assert_eq!(pressure_pa_numer(0), 16383 * 172369);
    assert_eq!(pressure_pa_numer(16383), -16383 * 172369);
    let full_scale_pa = 16383.0 * 172369.0 / PRESSURE_PA_DENOM as f64;
    let datasheet_pa = 6894.76 * 16383.0 / 13106.4;
    assert!((full_scale_pa - datasheet_pa).abs() < 1e-6);
    // Antisymmetry about the midpoint between 8191 and 8192.
    assert_eq!(pressure_pa_numer(8192), -pressure_pa_numer(8191));
    assert_eq!(pressure_pa_numer(10000), -pressure_pa_numer(6383));
}

#[test]
fn test_calculate_temperature_deg_c() {
    let test_cases = [(0x0000, -50.0), (0x0266, 10.0), (0x03FF, 50.0)];

    for (digital_counts, expected_temp_c) in test_cases {
        let temp_c = temp_deg_c_numer(digital_counts) as f64 / TEMP_DEG_C_DENOM as f64;
        assert!(
            (temp_c - expected_temp_c).abs() < 0.05,
            "Temperature calculation incorrect: {} (expected {})",
            temp_c,
            expected_temp_c
        );
    }
}

#[test]
fn test_temperature_exact_values() {
    // The span endpoints are exact: 0 counts -> -50 C, 2047 counts -> +150 C.
    assert_eq!(temp_deg_c_numer(0), -50 * TEMP_DEG_C_DENOM);
    assert_eq!(temp_deg_c_numer(2047), 150 * TEMP_DEG_C_DENOM);
    assert_eq!(temp_deg_c_numer(614), 20450);
}
