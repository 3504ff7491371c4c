use parity_scale_codec::{Compact, Encode};
use xcm_decoder::codec::wire::{
    decode_array, decode_bool, decode_bytes, decode_compact, decode_compact_u32,
    decode_compact_u64, decode_u32, decode_u64, decode_u8, decode_variant,
};
use xcm_decoder::error::{DecodeError, Kind};

#[test]
fn compact_single_byte_mode_boundaries() {
    assert_eq!(decode_compact(&[0x00], 0), Ok((0, 1)));
    assert_eq!(decode_compact(&[0xfc], 0), Ok((63, 1)));
}

#[test]
fn compact_two_byte_mode_boundaries() {
    assert_eq!(decode_compact(&[0x01, 0x01], 0), Ok((64, 2)));
    assert_eq!(decode_compact(&[0xfd, 0xff], 0), Ok((16383, 2)));
}

#[test]
fn compact_four_byte_mode_boundaries() {
    assert_eq!(decode_compact(&[0x02, 0x00, 0x01, 0x00], 0), Ok((16384, 4)));
    assert_eq!(decode_compact(&[0xfe, 0xff, 0xff, 0xff], 0), Ok(((1u128 << 30) - 1, 4)));
}

#[test]
fn compact_big_integer_mode() {
    assert_eq!(decode_compact(&[0x03, 0x00, 0x00, 0x00, 0x40], 0), Ok((1u128 << 30, 5)));
    assert_eq!(
        decode_compact(&[0x07, 0x00, 0x00, 0x00, 0x00, 0x01], 0),
        Ok((1u128 << 32, 6))
    );
    let mut widest = vec![0x33u8];
    widest.extend_from_slice(&[0xff; 16]);
    assert_eq!(decode_compact(&widest, 0), Ok((u128::MAX, 17)));
}

#[test]
fn compact_round_trips_encodings_of_parity_scale_codec() {
    let values: [u128; 12] = [
        0,
        63,
        64,
        16383,
        16384,
        (1 << 30) - 1,
        1 << 30,
        1 << 32,
        u64::MAX as u128,
        (u64::MAX as u128) + 1,
        1 << 100,
        u128::MAX,
    ];
    for v in values {
        let mut bytes = vec![0xaa, 0xbb];
        bytes.extend(Compact(v).encode());
        let end = bytes.len();
        bytes.push(0xcc);
        assert_eq!(decode_compact(&bytes, 2), Ok((v, end)));
    }
}

#[test]
fn compact_accepts_encodings_longer_than_needed() {
    assert_eq!(decode_compact(&[0x01, 0x00], 0), Ok((0, 2)));
    assert_eq!(decode_compact(&[0x02, 0x00, 0x00, 0x00], 0), Ok((0, 4)));
    assert_eq!(decode_compact(&[0x03, 0x05, 0x00, 0x00, 0x00], 0), Ok((5, 5)));
    let mut padded = vec![0x37u8, 0x09];
    padded.extend_from_slice(&[0x00; 16]);
    assert_eq!(decode_compact(&padded, 0), Ok((9, 18)));
}

#[test]
fn compact_reports_short_input() {
    assert_eq!(decode_compact(&[], 0), Err(DecodeError::IncompleteInput));
    assert_eq!(decode_compact(&[0x00], 1), Err(DecodeError::IncompleteInput));
    assert_eq!(decode_compact(&[0x00], 7), Err(DecodeError::IncompleteInput));
    assert_eq!(decode_compact(&[0x01], 0), Err(DecodeError::IncompleteInput));
    assert_eq!(decode_compact(&[0x02, 0x00, 0x01], 0), Err(DecodeError::IncompleteInput));
    assert_eq!(decode_compact(&[0x03, 0x00, 0x00, 0x00], 0), Err(DecodeError::IncompleteInput));
    assert_eq!(decode_compact(&[0xff, 0x00], 0), Err(DecodeError::IncompleteInput));
}

#[test]
fn compact_reports_values_beyond_the_field() {
    let mut too_wide = vec![0x37u8];
    too_wide.extend_from_slice(&[0x00; 16]);
    too_wide.push(0x01);
    assert_eq!(decode_compact(&too_wide, 0), Err(DecodeError::OutOfRange));
    let four_billion = Compact(1u64 << 32).encode();
    assert_eq!(decode_compact_u32(&four_billion, 0), Err(DecodeError::OutOfRange));
    assert_eq!(decode_compact_u64(&four_billion, 0), Ok((1u64 << 32, four_billion.len())));
    let wide = Compact(1u128 << 64).encode();
    assert_eq!(decode_compact_u64(&wide, 0), Err(DecodeError::OutOfRange));
    assert_eq!(decode_compact_u32(&Compact(u32::MAX).encode(), 0), Ok((u32::MAX, 5)));
}

#[test]
fn fixed_width_integers_are_little_endian() {
    assert_eq!(decode_u8(&[7, 9], 1), Ok((9, 2)));
    assert_eq!(decode_u8(&[7, 9], 2), Err(DecodeError::IncompleteInput));
    assert_eq!(decode_u32(&[0x78, 0x56, 0x34, 0x12], 0), Ok((0x1234_5678, 4)));
    assert_eq!(decode_u32(&[0x78, 0x56, 0x34], 0), Err(DecodeError::IncompleteInput));
    assert_eq!(
        decode_u64(&[0xef, 0xcd, 0xab, 0x89, 0x67, 0x45, 0x23, 0x01], 0),
        Ok((0x0123_4567_89ab_cdef, 8))
    );
    assert_eq!(decode_u64(&[0xff; 8], 0), Ok((u64::MAX, 8)));
    assert_eq!(decode_u64(&[0xff; 7], 0), Err(DecodeError::IncompleteInput));
}

#[test]
fn byte_strings_are_copied_out() {
    assert_eq!(decode_array::<4>(&[1, 2, 3, 4, 5], 1), Ok(([2, 3, 4, 5], 5)));
    assert_eq!(decode_array::<4>(&[1, 2, 3, 4, 5], 2), Err(DecodeError::IncompleteInput));
    assert_eq!(decode_bytes(&[1, 2, 3], 1, 2), Ok((vec![2, 3], 3)));
    assert_eq!(decode_bytes(&[1, 2, 3], 3, 0), Ok((vec![], 3)));
    assert_eq!(decode_bytes(&[1, 2, 3], 1, usize::MAX), Err(DecodeError::IncompleteInput));
}

#[test]
fn discriminants_are_checked_against_the_variant_count() {
    assert_eq!(decode_variant(&[3], 0, Kind::Junction, 10), Ok((3, 1)));
    assert_eq!(
        decode_variant(&[10], 0, Kind::Junction, 10),
        Err(DecodeError::UnknownVariant(Kind::Junction, 10))
    );
    assert_eq!(decode_variant(&[], 0, Kind::Junction, 10), Err(DecodeError::IncompleteInput));
    assert_eq!(decode_bool(&[0], 0), Ok((false, 1)));
    assert_eq!(decode_bool(&[1], 0), Ok((true, 1)));
    assert_eq!(decode_bool(&[2], 0), Err(DecodeError::UnknownVariant(Kind::Bool, 2)));
}
