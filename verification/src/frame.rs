//! Data-frame checksum and decoding.
//!
//! Every data frame the device returns carries one trailing checksum byte.
//! The rule is not a polynomial code despite the informal name: it is the
//! sum of the value's little-endian bytes, accumulated with 8-bit
//! wraparound, plus a fixed offset byte. A frame whose checksum does not
//! match is a warning-level condition only — the decoded sample is still
//! handed to the caller, and the mismatch is reported beside it.

use vstd::prelude::*;

verus! {

/// The fixed byte added to the wrapping byte sum before comparing against
/// the frame's trailing checksum byte.
pub const CHECKSUM_OFFSET: u8 = 0x9B;

/// The checksum byte expected for a raw value: the sum of its four
/// little-endian bytes plus the fixed offset, with 8-bit wraparound.
pub open spec fn checksum_spec(val: u32) -> u8 {
    (((val & 0xFF) + ((val >> 8) & 0xFF) + ((val >> 16) & 0xFF) + ((val >> 24) & 0xFF)
        + CHECKSUM_OFFSET) % 0x100) as u8
}

/// Validates a raw value against the trailing checksum byte of its frame.
pub fn checksum(val: u32, crc: u8) -> (r: bool)
    ensures
        r == (checksum_spec(val) == crc),
{
    let mut sum: u8 = 0;
    let mut v: u32 = val;
    proof {
        let c = checksum_spec(val);
        assert(c == (0u8).wrapping_add(c)) by (bit_vector);
    }
    while v != 0
        invariant
            checksum_spec(val) == sum.wrapping_add(checksum_spec(v)),
        decreases v,
    {
        proof {
            assert(checksum_spec(v) == ((v & 0xFF) as u8).wrapping_add(checksum_spec(v >> 8)))
                by (bit_vector);
            assert(v >> 8 < v) by (bit_vector)
                requires
                    v != 0u32,
            ;
            let s = sum;
            let b = (v & 0xFF) as u8;
            let c = checksum_spec(v >> 8);
            assert(s.wrapping_add(b.wrapping_add(c)) == (s.wrapping_add(b)).wrapping_add(c))
                by (bit_vector);
        }
        sum = sum.wrapping_add((v & 0xFF) as u8);
        v = v >> 8;
    }
    proof {
        assert(checksum_spec(0u32) == CHECKSUM_OFFSET) by (bit_vector);
    }
    sum = sum.wrapping_add(CHECKSUM_OFFSET);
    sum == crc
}

/// Flipping any single bit of the value, without recomputing the checksum,
/// always changes the expected checksum byte: a single-bit corruption of
/// the summed bytes can never validate against the old checksum.
pub proof fn lemma_checksum_detects_bit_flip(val: u32, k: u32)
    requires
        k < 32,
    ensures
        checksum_spec(val ^ (1u32 << k)) != checksum_spec(val),
{
    assert(checksum_spec(val ^ (1u32 << k)) != checksum_spec(val)) by (bit_vector)
        requires
            k < 32,
    ;
}

/// A decoded data frame: the raw sample and whether its trailing checksum
/// byte matched.
#[derive(Debug, Clone, Copy, PartialEq, Eq, Structural)]
pub struct Frame {
    /// The raw sample code.
    pub value: u32,
    /// Whether the trailing checksum byte matched [`checksum_spec`] of the
    /// value. A mismatch does not invalidate the sample (see the module
    /// documentation); callers may report it and go on.
    pub checksum_ok: bool,
}

/// The primary converter's in-frame status byte signals a valid frame with
/// bit 6.
pub fn adc1_status_ready(status: u8) -> (r: bool)
    ensures
        r == ((status & 0x40) != 0),
{
    (status & 0x40) != 0
}

/// The auxiliary converter's in-frame status byte signals a valid frame
/// with bit 7.
pub fn adc2_status_ready(status: u8) -> (r: bool)
    ensures
        r == ((status & 0x80) != 0),
{
    (status & 0x80) != 0
}

/// Assembles and validates a primary-converter frame: four data bytes,
/// big-endian, followed by the checksum byte.
pub fn decode_adc1_frame(b0: u8, b1: u8, b2: u8, b3: u8, crc: u8) -> (r: Frame)
    ensures
        r.value == b0 * 0x1000000 + b1 * 0x10000 + b2 * 0x100 + b3,
        r.checksum_ok == (checksum_spec(r.value) == crc),
{
    let value: u32 =
        ((b0 as u32) << 24) | ((b1 as u32) << 16) | ((b2 as u32) << 8) | (b3 as u32);
    proof {
        assert(((b0 as u32) << 24) | ((b1 as u32) << 16) | ((b2 as u32) << 8) | (b3 as u32)
            == b0 * 0x1000000 + b1 * 0x10000 + b2 * 0x100 + b3) by (bit_vector);
    }
    let checksum_ok = checksum(value, crc);
    Frame { value, checksum_ok }
}

/// Assembles and validates an auxiliary-converter frame: three meaningful
/// data bytes, big-endian into the low 24 bits, followed (after a padding
/// byte the caller discards) by the checksum byte.
pub fn decode_adc2_frame(b0: u8, b1: u8, b2: u8, crc: u8) -> (r: Frame)
    ensures
        r.value == b0 * 0x10000 + b1 * 0x100 + b2,
        r.value < 0x1000000,
        r.checksum_ok == (checksum_spec(r.value) == crc),
{
    let value: u32 = ((b0 as u32) << 16) | ((b1 as u32) << 8) | (b2 as u32);
    proof {
        assert(((b0 as u32) << 16) | ((b1 as u32) << 8) | (b2 as u32)
            == b0 * 0x10000 + b1 * 0x100 + b2) by (bit_vector);
    }
    let checksum_ok = checksum(value, crc);
    Frame { value, checksum_ok }
}

} // verus!
