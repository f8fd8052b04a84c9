//! Checksum discipline and data-frame decoding.

use ads1263::frame::adc1_status_ready;
use ads1263::frame::adc2_status_ready;
use ads1263::frame::checksum;
use ads1263::frame::decode_adc1_frame;
use ads1263::frame::decode_adc2_frame;

#[test]
fn checksum_of_zero_is_the_offset_byte() {
    // A value of zero sums to nothing; only the fixed offset remains.
    assert!(checksum(0, 0x9B));
    assert!(!checksum(0, 0x00));
    assert!(!checksum(0, 0x9C));
}

#[test]
fn checksum_wraps_at_eight_bits() {
    // 0x78 + 0x56 + 0x34 + 0x12 = 0x114, wrapped to 0x14; plus 0x9B = 0xAF.
    assert!(checksum(0x1234_5678, 0xAF));
    assert!(!checksum(0x1234_5678, 0xAE));
    // 0xFF * 4 = 0x3FC, wrapped to 0xFC; plus 0x9B wraps to 0x97.
    assert!(checksum(0xFFFF_FFFF, 0x97));
}

#[test]
fn single_bit_corruption_never_validates() {
    // Flip each of the 32 bits of a value whose checksum byte is correct;
    // none of the corrupted values may validate against the old byte.
    let vals: [u32; 3] = [0, 0x1234_5678, 0xA5A5_A5A5];
    let crcs: [u8; 3] = [0x9B, 0xAF, 0x2F];
    for i in 0..vals.len() {
        assert!(checksum(vals[i], crcs[i]));
        for k in 0..32 {
            let corrupted = vals[i] ^ (1u32 << k);
            assert!(!checksum(corrupted, crcs[i]));
        }
    }
}

#[test]
fn adc1_frame_assembles_big_endian() {
    let f = decode_adc1_frame(0x12, 0x34, 0x56, 0x78, 0xAF);
    assert_eq!(f.value, 0x1234_5678);
    assert!(f.checksum_ok);
}

#[test]
fn adc1_frame_checksum_mismatch_still_returns_the_sample() {
    let f = decode_adc1_frame(0x12, 0x34, 0x56, 0x78, 0x00);
    assert_eq!(f.value, 0x1234_5678);
    assert!(!f.checksum_ok);
}

#[test]
fn adc2_frame_assembles_into_low_24_bits() {
    // 0xEF + 0xCD + 0xAB = 0x267, wrapped to 0x67; plus 0x9B wraps to 0x02.
    let f = decode_adc2_frame(0xAB, 0xCD, 0xEF, 0x02);
    assert_eq!(f.value, 0x00AB_CDEF);
    assert!(f.checksum_ok);
    let bad = decode_adc2_frame(0xAB, 0xCD, 0xEF, 0x03);
    assert_eq!(bad.value, 0x00AB_CDEF);
    assert!(!bad.checksum_ok);
}

#[test]
fn adc1_ready_is_status_bit_6() {
    assert!(adc1_status_ready(0x40));
    assert!(adc1_status_ready(0xFF));
    assert!(!adc1_status_ready(0x00));
    assert!(!adc1_status_ready(0xBF));
}

#[test]
fn adc2_ready_is_status_bit_7() {
    assert!(adc2_status_ready(0x80));
    assert!(adc2_status_ready(0xFF));
    assert!(!adc2_status_ready(0x00));
    assert!(!adc2_status_ready(0x7F));
}
