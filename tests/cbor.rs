use wasm_bios::cbor::{decode_header, push_header, CountWidth, DecodeError, MajorType};

const MAJORS: [MajorType; 7] = [
    MajorType::UnsignedInteger,
    MajorType::NegativeInteger,
    MajorType::Bytes,
    MajorType::String,
    MajorType::Array,
    MajorType::Pairs,
    MajorType::Tag,
];

#[test]
fn single_byte_headers_give_literal_count() {
    for t in 0u8..8 {
        for sel in 0u8..=23 {
            let input = [t * 32 + sel, 0xAA, 0xBB];
            let (major, count, rest) = decode_header(&input).unwrap();
            let want = if t < 7 { MAJORS[t as usize] } else { MajorType::Special };
            assert_eq!(major, want);
            assert_eq!(count, sel as u64);
            assert_eq!(rest, &[0xAA, 0xBB]);
        }
    }
}

#[test]
fn major_seven_splits_float_and_special() {
    assert_eq!(decode_header(&[0xf6]).unwrap().0, MajorType::Special);
    assert_eq!(decode_header(&[0xf6]).unwrap().1, 22);
    assert_eq!(decode_header(&[0xf8, 0x20]).unwrap().0, MajorType::Special);
    assert_eq!(decode_header(&[0xf9, 0x3c, 0x00]).unwrap().0, MajorType::Float);
    assert_eq!(decode_header(&[0xfa, 0, 0, 0, 0]).unwrap().0, MajorType::Float);
    assert_eq!(decode_header(&[0xfb, 0, 0, 0, 0, 0, 0, 0, 0]).unwrap().0, MajorType::Float);
}

#[test]
fn multi_byte_counts_are_big_endian() {
    let (m, c, rest) = decode_header(&[0x18, 0xff, 0x01]).unwrap();
    assert_eq!((m, c, rest), (MajorType::UnsignedInteger, 255, &[0x01u8][..]));
    let (m, c, rest) = decode_header(&[0x59, 0x12, 0x34]).unwrap();
    assert_eq!((m, c, rest.len()), (MajorType::Bytes, 0x1234, 0));
    let (m, c, _) = decode_header(&[0x9a, 0x01, 0x02, 0x03, 0x04]).unwrap();
    assert_eq!((m, c), (MajorType::Array, 0x0102_0304));
    let (m, c, rest) = decode_header(&[0xdb, 1, 2, 3, 4, 5, 6, 7, 8, 9]).unwrap();
    assert_eq!((m, c, rest), (MajorType::Tag, 0x0102_0304_0506_0708, &[9u8][..]));
}

#[test]
fn truncated_counts_fail() {
    assert_eq!(decode_header(&[0x18]), Err(DecodeError::CborDecode));
    assert_eq!(decode_header(&[0x19, 0x01]), Err(DecodeError::CborDecode));
    assert_eq!(decode_header(&[0x1a, 1, 2, 3]), Err(DecodeError::CborDecode));
    assert_eq!(decode_header(&[0x1b, 1, 2, 3, 4, 5, 6, 7]), Err(DecodeError::CborDecode));
}

#[test]
fn empty_input_is_too_short() {
    assert_eq!(decode_header(&[]), Err(DecodeError::BufferTooShort));
}

#[test]
fn reserved_selectors_fail() {
    for sel in 28u8..=31 {
        for t in 0u8..8 {
            let input = [t * 32 + sel, 0, 0, 0, 0, 0, 0, 0, 0];
            assert_eq!(decode_header(&input), Err(DecodeError::CborDecode));
        }
    }
}

fn round_trip(major: u8, w: CountWidth, count: u64, len: usize) {
    let mut out = Vec::new();
    push_header(&mut out, major, w, count);
    assert_eq!(out.len(), len);
    out.push(0x55);
    let (_, c, rest) = decode_header(&out).unwrap();
    assert_eq!(c, count);
    assert_eq!(rest, &[0x55]);
}

#[test]
fn encoded_counts_decode_back() {
    for c in [0u64, 23] {
        round_trip(0, CountWidth::Inline, c, 1);
    }
    for c in [0u64, 23, 24, 255] {
        round_trip(2, CountWidth::One, c, 2);
    }
    for c in [0u64, 24, 255, 65535] {
        round_trip(3, CountWidth::Two, c, 3);
    }
    for c in [0u64, 255, 65535, 4_294_967_295] {
        round_trip(4, CountWidth::Four, c, 5);
    }
    for c in [0u64, 65535, 4_294_967_295, u64::MAX] {
        round_trip(7, CountWidth::Eight, c, 9);
    }
}

#[test]
fn encoded_header_bytes() {
    let mut out = Vec::new();
    push_header(&mut out, 0, CountWidth::Four, 0x0102_0304);
    push_header(&mut out, 6, CountWidth::One, 39);
    push_header(&mut out, 4, CountWidth::Inline, 2);
    assert_eq!(out, vec![0x1a, 1, 2, 3, 4, 0xd8, 39, 0x82]);
}
