//! Wire codec scenarios: primitive integers, strings, vectors, and the
//! tagged data values.

use ptp::Data;
use ptp::Reader;
use ptp::Writer;

#[test]
fn u16_round_trip_concrete() {
    let mut w = Writer::new();
    w.write_ptp_u16(0x1001);
    let bytes = w.into_vec();
    assert_eq!(bytes, vec![0x01, 0x10]);
    let mut r = Reader::new(&bytes);
    assert_eq!(r.read_ptp_u16().unwrap(), 0x1001);
    assert!(r.expect_end().is_ok());
}

#[test]
fn u32_little_endian() {
    let mut w = Writer::new();
    w.write_ptp_u32(0xDEADBEEF);
    let bytes = w.into_vec();
    assert_eq!(bytes, vec![0xEF, 0xBE, 0xAD, 0xDE]);
    let mut r = Reader::new(&bytes);
    assert_eq!(r.read_ptp_u32().unwrap(), 0xDEADBEEF);
}

#[test]
fn u64_and_signed_round_trip() {
    let mut w = Writer::new();
    w.write_ptp_u64(0x0123456789ABCDEF);
    w.write_ptp_i16(-2);
    w.write_ptp_i32(-100000);
    w.write_ptp_i64(-1);
    w.write_ptp_i8(-5);
    let bytes = w.into_vec();
    let mut r = Reader::new(&bytes);
    assert_eq!(r.read_ptp_u64().unwrap(), 0x0123456789ABCDEF);
    assert_eq!(r.read_ptp_i16().unwrap(), -2);
    assert_eq!(r.read_ptp_i32().unwrap(), -100000);
    assert_eq!(r.read_ptp_i64().unwrap(), -1);
    assert_eq!(r.read_ptp_i8().unwrap(), -5);
    assert!(r.expect_end().is_ok());
}

#[test]
fn u128_pair_low_half_first() {
    let mut w = Writer::new();
    w.write_ptp_u128((1, 2));
    let bytes = w.into_vec();
    assert_eq!(bytes[0], 1);
    assert_eq!(bytes[8], 2);
    assert_eq!(bytes.len(), 16);
    let mut r = Reader::new(&bytes);
    assert_eq!(r.read_ptp_u128().unwrap(), (1, 2));
}

#[test]
fn read_past_end_is_eof() {
    let bytes = [0u8, 1];
    let mut r = Reader::new(&bytes);
    assert!(matches!(
        r.read_ptp_u32(),
        Err(ptp::Error::Io(ptp::IoErrorKind::UnexpectedEof))
    ));
    // the reader is left unmoved and can still read what is there
    assert_eq!(r.read_ptp_u16().unwrap(), 0x0100);
}

#[test]
fn string_codec_abc() {
    let mut w = Writer::new();
    w.write_ptp_str("ABC");
    let bytes = w.into_vec();
    assert_eq!(
        bytes,
        vec![0x07, 0x41, 0x00, 0x42, 0x00, 0x43, 0x00, 0x00, 0x00]
    );
    let mut r = Reader::new(&bytes);
    assert_eq!(r.read_ptp_str().unwrap(), "ABC");
    assert!(r.expect_end().is_ok());
}

#[test]
fn string_codec_empty() {
    let mut w = Writer::new();
    w.write_ptp_str("");
    let bytes = w.into_vec();
    assert_eq!(bytes, vec![0x00]);
    let mut r = Reader::new(&bytes);
    assert_eq!(r.read_ptp_str().unwrap(), "");
    assert!(r.expect_end().is_ok());
}

#[test]
fn string_codec_non_ascii_round_trip() {
    let mut w = Writer::new();
    w.write_ptp_str("caf\u{e9} \u{1F4F7}");
    let bytes = w.into_vec();
    let mut r = Reader::new(&bytes);
    assert_eq!(r.read_ptp_str().unwrap(), "caf\u{e9} \u{1F4F7}");
    assert!(r.expect_end().is_ok());
}

#[test]
fn string_invalid_utf16_is_malformed() {
    // length byte 3 -> one unit, an unpaired high surrogate, then the
    // terminator
    let bytes = [0x03, 0x00, 0xD8, 0x00, 0x00];
    let mut r = Reader::new(&bytes);
    assert!(matches!(r.read_ptp_str(), Err(ptp::Error::Malformed(_))));
}

#[test]
fn vector_codec_round_trip() {
    let mut w = Writer::new();
    w.write_ptp_u16_vec(&[0x1234, 0x5678]);
    let bytes = w.into_vec();
    assert_eq!(bytes, vec![0x02, 0x00, 0x00, 0x00, 0x34, 0x12, 0x78, 0x56]);
    let mut r = Reader::new(&bytes);
    assert_eq!(r.read_ptp_u16_vec().unwrap(), vec![0x1234, 0x5678]);
    assert!(r.expect_end().is_ok());
}

#[test]
fn empty_vector_round_trips() {
    let mut w = Writer::new();
    w.write_ptp_u32_vec(&[]);
    let bytes = w.into_vec();
    assert_eq!(bytes, vec![0, 0, 0, 0]);
    let mut r = Reader::new(&bytes);
    assert_eq!(r.read_ptp_u32_vec().unwrap(), Vec::<u32>::new());
}

#[test]
fn truncated_vector_is_eof() {
    // count says 3 but only one u16 follows
    let bytes = [0x03, 0x00, 0x00, 0x00, 0x34, 0x12];
    let mut r = Reader::new(&bytes);
    assert!(matches!(
        r.read_ptp_u16_vec(),
        Err(ptp::Error::Io(ptp::IoErrorKind::UnexpectedEof))
    ));
}

#[test]
fn data_uint32_round_trip() {
    let v = Data::UINT32(0xDEADBEEF);
    let bytes = v.encode();
    assert_eq!(bytes, vec![0xEF, 0xBE, 0xAD, 0xDE]);
    let mut r = Reader::new(&bytes);
    let back = Data::read_type(0x0006, &mut r).unwrap();
    assert!(matches!(back, Data::UINT32(0xDEADBEEF)));
}

#[test]
fn data_auint16_encoding() {
    let v = Data::AUINT16(vec![0x1234, 0x5678]);
    let bytes = v.encode();
    assert_eq!(bytes, vec![0x02, 0x00, 0x00, 0x00, 0x34, 0x12, 0x78, 0x56]);
    assert_eq!(bytes.len(), 8);
    let mut r = Reader::new(&bytes);
    let back = Data::read_type(0x4004, &mut r).unwrap();
    match back {
        Data::AUINT16(xs) => assert_eq!(xs, vec![0x1234, 0x5678]),
        _ => panic!("wrong variant"),
    }
}

#[test]
fn data_empty_array_round_trips() {
    let v = Data::AINT64(Vec::new());
    let bytes = v.encode();
    assert_eq!(bytes, vec![0, 0, 0, 0]);
    let mut r = Reader::new(&bytes);
    let back = Data::read_type(0x4007, &mut r).unwrap();
    match back {
        Data::AINT64(xs) => assert!(xs.is_empty()),
        _ => panic!("wrong variant"),
    }
}

#[test]
fn data_str_round_trip() {
    let v = Data::STR("hello".to_owned());
    let bytes = v.encode();
    let mut r = Reader::new(&bytes);
    let back = Data::read_type(0xFFFF, &mut r).unwrap();
    match back {
        Data::STR(s) => assert_eq!(s, "hello"),
        _ => panic!("wrong variant"),
    }
}

#[test]
fn data_int128_round_trip() {
    let v = Data::INT128((7, 9));
    let bytes = v.encode();
    assert_eq!(bytes.len(), 16);
    let mut r = Reader::new(&bytes);
    let back = Data::read_type(0x0009, &mut r).unwrap();
    assert!(matches!(back, Data::INT128((7, 9))));
}

#[test]
fn data_unknown_tag_is_undef() {
    let bytes = [1u8, 2, 3];
    let mut r = Reader::new(&bytes);
    let back = Data::read_type(0x1234, &mut r).unwrap();
    assert!(matches!(back, Data::UNDEF));
    // nothing consumed
    assert_eq!(r.read_ptp_u8().unwrap(), 1);
}

#[test]
fn data_undef_encodes_to_nothing() {
    assert!(Data::UNDEF.encode().is_empty());
}

#[test]
fn data_numeric_projections() {
    assert_eq!(Data::INT8(-3).to_i64(), Some(-3));
    assert_eq!(Data::UINT32(7).to_i64(), Some(7));
    assert_eq!(Data::UINT64(7).to_i64(), None);
    assert_eq!(Data::INT128((1, 2)).to_i64(), None);
    assert_eq!(Data::UINT64(9).to_u64(), Some(9));
    assert_eq!(Data::INT8(-3).to_u64(), None);
    assert_eq!(Data::UINT16(0xFFFF).to_u64(), Some(0xFFFF));
}

#[test]
fn data_from_conversions() {
    assert!(matches!(Data::from(5u8), Data::UINT8(5)));
    assert!(matches!(Data::from(-5i16), Data::INT16(-5)));
    assert!(matches!(Data::from(5u64), Data::UINT64(5)));
    match Data::from("abc") {
        Data::STR(s) => assert_eq!(s, "abc"),
        _ => panic!("wrong variant"),
    }
}

#[test]
fn data_hex_rendering() {
    assert_eq!(Data::UNDEF.hex_lower(), "UNDEF");
    assert_eq!(Data::UINT8(0xAB).hex_lower(), "UINT8(0xab)");
    assert_eq!(Data::UINT8(0xAB).hex_upper(), "UINT8(0xAB)");
    assert_eq!(Data::INT8(-1).hex_lower(), "INT8(0xff)");
    assert_eq!(Data::UINT32(0xDEADBEEF).hex_lower(), "UINT32(0xdeadbeef)");
    assert_eq!(Data::INT64(-2).hex_lower(), "INT64(0xfffffffffffffffe)");
    assert_eq!(
        Data::UINT128((1, 2)).hex_lower(),
        "UINT128(0x00000000000000020000000000000001)"
    );
    assert_eq!(
        Data::AUINT16(vec![0x12, 0x3456]).hex_lower(),
        "AUINT16(00123456)"
    );
    assert_eq!(Data::AINT8(vec![]).hex_lower(), "AINT8()");
    assert_eq!(
        Data::STR("hi".to_owned()).hex_lower(),
        "STR(\"hi\")"
    );
}
