//! Raw-code-to-physical-unit conversion.
//!
//! A raw sample is an unsigned 32-bit container holding either a 32-bit
//! code (primary converter) or a 24-bit code in the low 24 bits (auxiliary
//! converter). The sign is carried by the most-significant bit of the
//! nominal width — bit 31 or bit 23 — not by two's-complement arithmetic:
//! with nominal full-scale integer `F` (a power of two minus one) and
//! half-scale integer `H` (the power of two itself),
//!
//! - bit set:   voltage = −(2·V_ref − (raw / H)·V_ref) = V_ref·(raw − 2·H)/H,
//! - bit clear: voltage = (raw / F)·V_ref.
//!
//! The mapping is deliberately asymmetric (`H` in one denominator, `F` in
//! the other) and is reproduced here exactly. Since the reference voltage
//! and reference resistance are physical calibration values, each
//! conversion is returned as an exact integer ratio: the physical value is
//! the caller's reference times `num / den`.

use vstd::prelude::*;

verus! {

/// An exact signed ratio. The physical quantity a conversion yields is the
/// caller's reference value (reference voltage, reference resistance)
/// multiplied by `num / den`; the denominator is always positive.
#[derive(Debug, Clone, Copy, PartialEq, Eq, Structural)]
pub struct Ratio {
    /// Numerator.
    pub num: i64,
    /// Denominator; always positive.
    pub den: i64,
}

/// Numerator of the primary converter's voltage mapping, as a multiple of
/// `V_ref / volt_den_adc1(raw)`.
pub open spec fn volt_num_adc1(raw: u32) -> int {
    if raw >= 0x8000_0000 {
        raw - 0x1_0000_0000
    } else {
        raw as int
    }
}

/// Denominator of the primary converter's voltage mapping: half-scale
/// (2^31) when bit 31 is set, full-scale (2^31 − 1) when it is clear.
pub open spec fn volt_den_adc1(raw: u32) -> int {
    if raw >= 0x8000_0000 {
        0x8000_0000
    } else {
        0x7FFF_FFFF
    }
}

/// Numerator of the auxiliary converter's voltage mapping, as a multiple
/// of `V_ref / volt_den_adc2(raw)`. The sign bit is bit 23 of the 24-bit
/// code.
pub open spec fn volt_num_adc2(raw: u32) -> int {
    if 0x80_0000 <= raw && raw < 0x100_0000 {
        raw - 0x100_0000
    } else {
        raw as int
    }
}

/// Denominator of the auxiliary converter's voltage mapping: half-scale
/// (2^23) when bit 23 is set, full-scale (2^23 − 1) when it is clear.
pub open spec fn volt_den_adc2(raw: u32) -> int {
    if 0x80_0000 <= raw && raw < 0x100_0000 {
        0x80_0000
    } else {
        0x7F_FFFF
    }
}

/// Converts a raw primary-converter code to its voltage ratio: the voltage
/// is `V_ref * num / den`.
pub fn raw_to_voltage_adc1_ratio(raw: u32) -> (r: Ratio)
    ensures
        r.num == volt_num_adc1(raw),
        r.den == volt_den_adc1(raw),
        r.den > 0,
{
    proof {
        assert(((raw >> 31) == 1) == (raw >= 0x8000_0000)) by (bit_vector);
    }
    if (raw >> 31) == 1 {
        Ratio { num: (raw as i64) - 0x1_0000_0000, den: 0x8000_0000 }
    } else {
        Ratio { num: raw as i64, den: 0x7FFF_FFFF }
    }
}

/// Converts a raw auxiliary-converter code to its voltage ratio: the
/// voltage is `V_ref * num / den`.
pub fn raw_to_voltage_adc2_ratio(raw: u32) -> (r: Ratio)
    ensures
        r.num == volt_num_adc2(raw),
        r.den == volt_den_adc2(raw),
        r.den > 0,
{
    proof {
        assert(((raw >> 23) == 1) == (0x80_0000 <= raw && raw < 0x100_0000)) by (bit_vector);
    }
    if (raw >> 23) == 1 {
        Ratio { num: (raw as i64) - 0x100_0000, den: 0x80_0000 }
    } else {
        Ratio { num: raw as i64, den: 0x7F_FFFF }
    }
}

/// Converts a raw code read from the sense-resistor sequence to its
/// resistance ratio: the resistance is `R_ref * num / den`. The factor 2
/// accounts for the dual-current-source excitation topology.
pub fn rtd_to_resistance_ratio(raw: u32) -> (r: Ratio)
    ensures
        r.num == 2 * raw,
        r.den == 0x7FFF_FFFF,
{
    Ratio { num: 2 * (raw as i64), den: 0x7FFF_FFFF }
}

/// Converts a platinum-sensor resistance, given in milliohms, to its
/// temperature ratio: the temperature in degrees Celsius is `num / den`.
///
/// This is the linear approximation (R/100 − 1) / 0.00385 — that is,
/// (R_mΩ − 100000)·200 / 77000 — not the full polynomial correction.
/// The bound on the input only keeps the numerator within machine range;
/// it is far beyond any physical sensor value.
pub fn pt100_to_celsius_ratio(milliohms: u64) -> (r: Ratio)
    requires
        milliohms < 0x8000_0000_0000,
    ensures
        r.num == (milliohms - 100000) * 200,
        r.den == 77000,
{
    Ratio { num: ((milliohms as i64) - 100000) * 200, den: 77000 }
}

/// Within either sign branch, the primary converter's voltage mapping is
/// strictly increasing in the raw code: for two codes with the same bit-31
/// value, the smaller code maps to the strictly smaller voltage
/// (ratios compared by cross-multiplication; denominators are positive).
pub proof fn lemma_voltage_adc1_monotone(raw1: u32, raw2: u32)
    requires
        raw1 < raw2,
        (raw1 >= 0x8000_0000) == (raw2 >= 0x8000_0000),
    ensures
        volt_num_adc1(raw1) * volt_den_adc1(raw2) < volt_num_adc1(raw2) * volt_den_adc1(raw1),
{
    let n1 = volt_num_adc1(raw1);
    let n2 = volt_num_adc1(raw2);
    let d = volt_den_adc1(raw1);
    assert(n1 * d < n2 * d) by (nonlinear_arith)
        requires
            n1 < n2,
            d > 0,
    ;
}

/// Every code with bit 31 set maps to a strictly negative voltage, and
/// every code with bit 31 clear to a non-negative one: the discontinuity
/// at the half-range boundary is exactly a sign flip.
pub proof fn lemma_voltage_adc1_sign(raw: u32)
    ensures
        raw >= 0x8000_0000 ==> volt_num_adc1(raw) < 0,
        raw < 0x8000_0000 ==> volt_num_adc1(raw) >= 0,
        volt_num_adc1(0x7FFF_FFFFu32) == volt_den_adc1(0x7FFF_FFFFu32),
        volt_num_adc1(0x8000_0000u32) == -volt_den_adc1(0x8000_0000u32),
{
}

/// Across the two sign branches of the primary converter the order is
/// still strict: any code with bit 31 set maps below any code with bit 31
/// clear.
pub proof fn lemma_voltage_adc1_negative_below_positive(raw1: u32, raw2: u32)
    requires
        raw1 >= 0x8000_0000,
        raw2 < 0x8000_0000,
    ensures
        volt_num_adc1(raw1) * volt_den_adc1(raw2) < volt_num_adc1(raw2) * volt_den_adc1(raw1),
{
    let n1 = volt_num_adc1(raw1);
    let n2 = volt_num_adc1(raw2);
    let d1 = volt_den_adc1(raw1);
    let d2 = volt_den_adc1(raw2);
    assert(n1 * d2 < 0 && 0 <= n2 * d1) by (nonlinear_arith)
        requires
            n1 < 0,
            n2 >= 0,
            d1 > 0,
            d2 > 0,
    ;
}

/// Within either sign branch, the auxiliary converter's voltage mapping is
/// strictly increasing in the raw code (bit 23 is the sign bit of its
/// 24-bit code).
pub proof fn lemma_voltage_adc2_monotone(raw1: u32, raw2: u32)
    requires
        raw1 < raw2,
        (0x80_0000 <= raw1 && raw1 < 0x100_0000) == (0x80_0000 <= raw2 && raw2 < 0x100_0000),
    ensures
        volt_num_adc2(raw1) * volt_den_adc2(raw2) < volt_num_adc2(raw2) * volt_den_adc2(raw1),
{
    let n1 = volt_num_adc2(raw1);
    let n2 = volt_num_adc2(raw2);
    let d = volt_den_adc2(raw1);
    assert(n1 * d < n2 * d) by (nonlinear_arith)
        requires
            n1 < n2,
            d > 0,
    ;
}

/// Every 24-bit code with bit 23 set maps to a strictly negative voltage,
/// every code with bit 23 clear to a non-negative one, and the
/// discontinuity at the half-range boundary is exactly a sign flip.
pub proof fn lemma_voltage_adc2_sign(raw: u32)
    ensures
        0x80_0000 <= raw && raw < 0x100_0000 ==> volt_num_adc2(raw) < 0,
        !(0x80_0000 <= raw && raw < 0x100_0000) ==> volt_num_adc2(raw) >= 0,
        volt_num_adc2(0x7F_FFFFu32) == volt_den_adc2(0x7F_FFFFu32),
        volt_num_adc2(0x80_0000u32) == -volt_den_adc2(0x80_0000u32),
{
}

/// Across the two sign branches of the auxiliary converter's 24-bit range
/// the order is still strict.
pub proof fn lemma_voltage_adc2_negative_below_positive(raw1: u32, raw2: u32)
    requires
        0x80_0000 <= raw1 && raw1 < 0x100_0000,
        !(0x80_0000 <= raw2 && raw2 < 0x100_0000),
    ensures
        volt_num_adc2(raw1) * volt_den_adc2(raw2) < volt_num_adc2(raw2) * volt_den_adc2(raw1),
{
    let n1 = volt_num_adc2(raw1);
    let n2 = volt_num_adc2(raw2);
    let d1 = volt_den_adc2(raw1);
    let d2 = volt_den_adc2(raw2);
    assert(n1 * d2 < 0 && 0 <= n2 * d1) by (nonlinear_arith)
        requires
            n1 < 0,
            n2 >= 0,
            d1 > 0,
            d2 > 0,
    ;
}

} // verus!
