//! Raw-code-to-physical-unit conversion: exact ratios and their floating
//! point readings.

use ads1263::convert::pt100_to_celsius_ratio;
use ads1263::convert::raw_to_voltage_adc1_ratio;
use ads1263::convert::raw_to_voltage_adc2_ratio;
use ads1263::convert::rtd_to_resistance_ratio;

fn volts(ratio: ads1263::convert::Ratio, reference: f64) -> f64 {
    (ratio.num as f64 / ratio.den as f64) * reference
}

#[test]
fn adc1_positive_full_scale_is_the_reference() {
    let r = raw_to_voltage_adc1_ratio(0x7FFF_FFFF);
    assert_eq!(r.num, 0x7FFF_FFFF);
    assert_eq!(r.den, 0x7FFF_FFFF);
    assert!((volts(r, 5.0) - 5.0).abs() < 1e-9);
}

#[test]
fn adc1_sign_flips_at_the_half_range_boundary() {
    let below = raw_to_voltage_adc1_ratio(0x7FFF_FFFF);
    let above = raw_to_voltage_adc1_ratio(0x8000_0000);
    assert_eq!(above.num, -0x8000_0000i64);
    assert_eq!(above.den, 0x8000_0000i64);
    assert!(volts(below, 5.0) > 0.0);
    assert!((volts(above, 5.0) + 5.0).abs() < 1e-9);
}

#[test]
fn adc1_zero_code_is_zero_volts() {
    let r = raw_to_voltage_adc1_ratio(0);
    assert_eq!(r.num, 0);
    assert_eq!(volts(r, 5.0), 0.0);
}

#[test]
fn adc1_monotone_within_each_branch() {
    let mut prev = f64::NEG_INFINITY;
    // Bit 31 clear: rising from zero towards the reference.
    for raw in [0u32, 1, 100, 0x4000_0000, 0x7FFF_FFFE, 0x7FFF_FFFF] {
        let v = volts(raw_to_voltage_adc1_ratio(raw), 5.0);
        assert!(v > prev);
        prev = v;
    }
    // Bit 31 set: rising from minus the reference towards zero.
    prev = f64::NEG_INFINITY;
    for raw in [0x8000_0000u32, 0x8000_0001, 0xC000_0000, 0xFFFF_FFFF] {
        let v = volts(raw_to_voltage_adc1_ratio(raw), 5.0);
        assert!(v > prev);
        assert!(v < 0.0);
        prev = v;
    }
}

#[test]
fn adc2_uses_bit_23_and_24_bit_scales() {
    let pos = raw_to_voltage_adc2_ratio(0x7F_FFFF);
    assert_eq!(pos.num, 0x7F_FFFF);
    assert_eq!(pos.den, 0x7F_FFFF);
    let neg = raw_to_voltage_adc2_ratio(0x80_0000);
    assert_eq!(neg.num, -0x80_0000i64);
    assert_eq!(neg.den, 0x80_0000i64);
    assert!((volts(pos, 5.08) - 5.08).abs() < 1e-9);
    assert!((volts(neg, 5.08) + 5.08).abs() < 1e-9);
}

#[test]
fn rtd_full_scale_doubles_the_reference_resistor() {
    // Full-scale code with a 2000 ohm reference resistor reads 4000 ohms.
    let r = rtd_to_resistance_ratio(0x7FFF_FFFF);
    assert_eq!(r.num, 2 * 0x7FFF_FFFFi64);
    assert_eq!(r.den, 0x7FFF_FFFF);
    let resistance = (r.num as f64 / r.den as f64) * 2000.0;
    assert!((resistance - 4000.0).abs() < 1e-6);
}

#[test]
fn rtd_half_scale_equals_the_reference_resistor() {
    let r = rtd_to_resistance_ratio(0x3FFF_FFFF);
    let resistance = (r.num as f64 / r.den as f64) * 2000.0;
    assert!((resistance - 2000.0).abs() < 0.001);
}

#[test]
fn pt100_zero_celsius_at_one_hundred_ohms() {
    let c = pt100_to_celsius_ratio(100_000);
    assert_eq!(c.num, 0);
    assert_eq!(c.den, 77_000);
    assert_eq!(c.num as f64 / c.den as f64, 0.0);
}

#[test]
fn pt100_one_hundred_celsius_near_138_5_ohms() {
    let c = pt100_to_celsius_ratio(138_500);
    // (138.5 / 100 − 1) / 0.00385 is exactly 100 in the linear model.
    assert_eq!(c.num, 7_700_000);
    assert_eq!(c.den, 77_000);
    assert!(((c.num as f64 / c.den as f64) - 100.0).abs() < 1e-9);
}

#[test]
fn pt100_below_one_hundred_ohms_is_negative() {
    let c = pt100_to_celsius_ratio(90_000);
    assert!(c.num < 0);
    let celsius = c.num as f64 / c.den as f64;
    assert!((celsius - (-25.974025974)).abs() < 1e-6);
}
