//! The wire format itself: exact bytes for fixed values, the byte-wise
//! reversal between the two orders, the boolean asymmetry, raw address
//! octets, the absence-sentinel ambiguity, and transport failures.

use binserde::addr::{Ipv4, Ipv6};
use binserde::deserialize::Deserialize;
use binserde::serialize::Serialize;
use binserde::sink::ByteSink;
use binserde::source::ByteSource;
use binserde::WireError;

#[test]
fn u16_little_endian_bytes() {
    let mut buffer = ByteSink::new();
    0x1234u16.serialize_le(&mut buffer).unwrap();
    assert_eq!(buffer.into_vec(), vec![0x34, 0x12]);
}

#[test]
fn u16_big_endian_bytes() {
    let mut buffer = ByteSink::new();
    0x1234u16.serialize_be(&mut buffer).unwrap();
    assert_eq!(buffer.into_vec(), vec![0x12, 0x34]);
}

#[test]
fn i32_little_endian_bytes() {
    let mut buffer = ByteSink::new();
    (-123i32).serialize_le(&mut buffer).unwrap();
    assert_eq!(buffer.into_vec(), vec![133, 255, 255, 255]);
}

#[test]
fn u128_round_trip_exact_bytes() {
    let v: u128 = 0x0102030405060708090a0b0c0d0e0f10;
    let mut buffer = ByteSink::new();
    v.serialize_be(&mut buffer).unwrap();
    let bytes = buffer.into_vec();
    assert_eq!(
        bytes,
        vec![1, 2, 3, 4, 5, 6, 7, 8, 9, 10, 11, 12, 13, 14, 15, 16]
    );
    let mut source = ByteSource::new(bytes);
    assert_eq!(u128::deserialize_be(&mut source).unwrap(), v);
}

#[test]
fn cross_order_bytes_are_reverses() {
    let v: u64 = 0xdeadbeefcafe1234;
    let mut le_sink = ByteSink::new();
    v.serialize_le(&mut le_sink).unwrap();
    let mut be_sink = ByteSink::new();
    v.serialize_be(&mut be_sink).unwrap();
    let mut le_bytes = le_sink.into_vec();
    le_bytes.reverse();
    assert_eq!(le_bytes, be_sink.into_vec());
}

#[test]
fn native_order_is_one_of_the_two() {
    let v: u32 = 0x01020304;
    let mut ne_sink = ByteSink::new();
    v.serialize_ne(&mut ne_sink).unwrap();
    let ne = ne_sink.into_vec();
    assert!(ne == vec![4, 3, 2, 1] || ne == vec![1, 2, 3, 4]);
}

#[test]
fn bool_encodes_canonically() {
    let mut buffer = ByteSink::new();
    true.serialize_le(&mut buffer).unwrap();
    false.serialize_le(&mut buffer).unwrap();
    assert_eq!(buffer.into_vec(), vec![1, 0]);
}

#[test]
fn bool_decodes_any_nonzero_as_true() {
    let mut source = ByteSource::new(vec![0, 1, 5, 255]);
    assert_eq!(bool::deserialize_le(&mut source).unwrap(), false);
    assert_eq!(bool::deserialize_le(&mut source).unwrap(), true);
    assert_eq!(bool::deserialize_le(&mut source).unwrap(), true);
    assert_eq!(bool::deserialize_be(&mut source).unwrap(), true);
}

#[test]
fn ipv4_is_raw_octets_under_either_order() {
    let a = Ipv4::new(192, 168, 0, 1);
    let mut buffer = ByteSink::new();
    a.serialize_le(&mut buffer).unwrap();
    a.serialize_be(&mut buffer).unwrap();
    a.serialize_ne(&mut buffer).unwrap();
    assert_eq!(
        buffer.into_vec(),
        vec![192, 168, 0, 1, 192, 168, 0, 1, 192, 168, 0, 1]
    );
    let mut source = ByteSource::new(vec![10, 0, 0, 7]);
    assert_eq!(Ipv4::deserialize_be(&mut source).unwrap(), Ipv4::new(10, 0, 0, 7));
}

#[test]
fn ipv6_is_raw_octets_under_either_order() {
    let octets: Vec<u8> = vec![0, 1, 2, 3, 4, 5, 6, 7, 8, 9, 10, 11, 12, 13, 14, 15];
    let a = Ipv6::from_octets(&octets);
    let mut buffer = ByteSink::new();
    a.serialize_le(&mut buffer).unwrap();
    a.serialize_be(&mut buffer).unwrap();
    let mut expected = octets.clone();
    expected.extend(octets.clone());
    assert_eq!(buffer.into_vec(), expected);
    let mut source = ByteSource::new(octets);
    assert_eq!(Ipv6::deserialize_le(&mut source).unwrap(), a);
}

#[test]
fn option_zero_decodes_as_absent() {
    let mut source = ByteSource::new(vec![0]);
    assert_eq!(Option::<u8>::deserialize_le(&mut source).unwrap(), None);
}

#[test]
fn option_nonzero_decodes_as_present() {
    let mut source = ByteSource::new(vec![7]);
    assert_eq!(Option::<u8>::deserialize_le(&mut source).unwrap(), Some(7));
}

#[test]
fn option_absent_and_present_zero_encode_alike() {
    let mut absent = ByteSink::new();
    None::<u8>.serialize_le(&mut absent).unwrap();
    let mut present_zero = ByteSink::new();
    Some(0u8).serialize_le(&mut present_zero).unwrap();
    assert_eq!(absent.into_vec(), vec![0]);
    assert_eq!(present_zero.into_vec(), vec![0]);
}

#[test]
fn option_u16_uses_the_full_width() {
    let mut buffer = ByteSink::new();
    Some(0x0300u16).serialize_le(&mut buffer).unwrap();
    None::<u16>.serialize_le(&mut buffer).unwrap();
    assert_eq!(buffer.into_vec(), vec![0, 3, 0, 0]);
    let mut source = ByteSource::new(vec![0, 3, 0, 0]);
    assert_eq!(Option::<u16>::deserialize_le(&mut source).unwrap(), Some(0x0300));
    assert_eq!(Option::<u16>::deserialize_le(&mut source).unwrap(), None);
}

#[test]
fn premature_end_of_input_fails() {
    let mut source = ByteSource::new(vec![1, 2]);
    assert_eq!(u32::deserialize_le(&mut source), Err(WireError::UnexpectedEnd));
    // the failed decode returned no partial value and consumed nothing
    assert_eq!(source.bytes_left(), 2);
    assert_eq!(u16::deserialize_le(&mut source).unwrap(), 0x0201);
    assert_eq!(source.bytes_left(), 0);
}

#[test]
fn empty_source_fails_single_byte_decode() {
    let mut source = ByteSource::new(Vec::new());
    assert_eq!(u8::deserialize_le(&mut source), Err(WireError::UnexpectedEnd));
    assert_eq!(bool::deserialize_ne(&mut source), Err(WireError::UnexpectedEnd));
}

#[test]
fn full_sink_rejects_writes_whole() {
    let mut sink = ByteSink::with_limit(3);
    assert_eq!(0x01020304u32.serialize_le(&mut sink), Err(WireError::SinkFull));
    assert_eq!(sink.len(), 0);
    0x0102u16.serialize_le(&mut sink).unwrap();
    0x03u8.serialize_le(&mut sink).unwrap();
    assert_eq!(0x04u8.serialize_le(&mut sink), Err(WireError::SinkFull));
    assert_eq!(sink.into_vec(), vec![2, 1, 3]);
}

#[test]
fn pointer_sized_values_round_trip_at_their_own_width() {
    let width = (usize::BITS / 8) as usize;
    let v: usize = 0x0a0b0c0d;
    let mut buffer = ByteSink::new();
    v.serialize_le(&mut buffer).unwrap();
    let bytes = buffer.into_vec();
    assert_eq!(bytes.len(), width);
    let mut source = ByteSource::new(bytes);
    assert_eq!(usize::deserialize_le(&mut source).unwrap(), v);

    let w: isize = -0x0a0b0c0d;
    let mut buffer = ByteSink::new();
    w.serialize_be(&mut buffer).unwrap();
    let bytes = buffer.into_vec();
    assert_eq!(bytes.len(), width);
    let mut source = ByteSource::new(bytes);
    assert_eq!(isize::deserialize_be(&mut source).unwrap(), w);
}

#[test]
fn signed_negative_round_trip_exact_bytes() {
    let v: i16 = -2;
    let mut buffer = ByteSink::new();
    v.serialize_le(&mut buffer).unwrap();
    v.serialize_be(&mut buffer).unwrap();
    let bytes = buffer.into_vec();
    assert_eq!(bytes, vec![254, 255, 255, 254]);
    let mut source = ByteSource::new(bytes);
    assert_eq!(i16::deserialize_le(&mut source).unwrap(), -2);
    assert_eq!(i16::deserialize_be(&mut source).unwrap(), -2);
}
