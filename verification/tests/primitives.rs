//! Round trips for every built-in primitive type: a value encoded under
//! each byte-order policy decodes back to itself under the same policy.

use binserde::deserialize::Deserialize;
use binserde::serialize::Serialize;
use binserde::sink::ByteSink;
use binserde::source::ByteSource;

#[test]
fn test_u8() {
    let expected: u8 = rand::random::<u8>();
    let mut buffer = ByteSink::new();
    expected.serialize_le(&mut buffer).unwrap();
    expected.serialize_be(&mut buffer).unwrap();
    expected.serialize_ne(&mut buffer).unwrap();
    let mut source = ByteSource::new(buffer.into_vec());
    let le = <u8>::deserialize_le(&mut source).unwrap();
    let be = <u8>::deserialize_be(&mut source).unwrap();
    let ne = <u8>::deserialize_ne(&mut source).unwrap();
    assert_eq!(expected, le);
    assert_eq!(le, be);
    assert_eq!(be, ne);
}

#[test]
fn test_u16() {
    let expected: u16 = rand::random::<u16>();
    let mut buffer = ByteSink::new();
    expected.serialize_le(&mut buffer).unwrap();
    expected.serialize_be(&mut buffer).unwrap();
    expected.serialize_ne(&mut buffer).unwrap();
    let mut source = ByteSource::new(buffer.into_vec());
    let le = <u16>::deserialize_le(&mut source).unwrap();
    let be = <u16>::deserialize_be(&mut source).unwrap();
    let ne = <u16>::deserialize_ne(&mut source).unwrap();
    assert_eq!(expected, le);
    assert_eq!(le, be);
    assert_eq!(be, ne);
}

#[test]
fn test_u32() {
    let expected: u32 = rand::random::<u32>();
    let mut buffer = ByteSink::new();
    expected.serialize_le(&mut buffer).unwrap();
    expected.serialize_be(&mut buffer).unwrap();
    expected.serialize_ne(&mut buffer).unwrap();
    let mut source = ByteSource::new(buffer.into_vec());
    let le = <u32>::deserialize_le(&mut source).unwrap();
    let be = <u32>::deserialize_be(&mut source).unwrap();
    let ne = <u32>::deserialize_ne(&mut source).unwrap();
    assert_eq!(expected, le);
    assert_eq!(le, be);
    assert_eq!(be, ne);
}

#[test]
fn test_u64() {
    let expected: u64 = rand::random::<u64>();
    let mut buffer = ByteSink::new();
    expected.serialize_le(&mut buffer).unwrap();
    expected.serialize_be(&mut buffer).unwrap();
    expected.serialize_ne(&mut buffer).unwrap();
    let mut source = ByteSource::new(buffer.into_vec());
    let le = <u64>::deserialize_le(&mut source).unwrap();
    let be = <u64>::deserialize_be(&mut source).unwrap();
    let ne = <u64>::deserialize_ne(&mut source).unwrap();
    assert_eq!(expected, le);
    assert_eq!(le, be);
    assert_eq!(be, ne);
}

#[test]
fn test_u128() {
    let expected: u128 = rand::random::<u128>();
    let mut buffer = ByteSink::new();
    expected.serialize_le(&mut buffer).unwrap();
    expected.serialize_be(&mut buffer).unwrap();
    expected.serialize_ne(&mut buffer).unwrap();
    let mut source = ByteSource::new(buffer.into_vec());
    let le = <u128>::deserialize_le(&mut source).unwrap();
    let be = <u128>::deserialize_be(&mut source).unwrap();
    let ne = <u128>::deserialize_ne(&mut source).unwrap();
    assert_eq!(expected, le);
    assert_eq!(le, be);
    assert_eq!(be, ne);
}

#[test]
fn test_usize() {
    let expected: usize = rand::random::<u64>() as usize;
    let mut buffer = ByteSink::new();
    expected.serialize_le(&mut buffer).unwrap();
    expected.serialize_be(&mut buffer).unwrap();
    expected.serialize_ne(&mut buffer).unwrap();
    let mut source = ByteSource::new(buffer.into_vec());
    let le = <usize>::deserialize_le(&mut source).unwrap();
    let be = <usize>::deserialize_be(&mut source).unwrap();
    let ne = <usize>::deserialize_ne(&mut source).unwrap();
    assert_eq!(expected, le);
    assert_eq!(le, be);
    assert_eq!(be, ne);
}

#[test]
fn test_i8() {
    let expected: i8 = rand::random::<i8>();
    let mut buffer = ByteSink::new();
    expected.serialize_le(&mut buffer).unwrap();
    expected.serialize_be(&mut buffer).unwrap();
    expected.serialize_ne(&mut buffer).unwrap();
    let mut source = ByteSource::new(buffer.into_vec());
    let le = <i8>::deserialize_le(&mut source).unwrap();
    let be = <i8>::deserialize_be(&mut source).unwrap();
    let ne = <i8>::deserialize_ne(&mut source).unwrap();
    assert_eq!(expected, le);
    assert_eq!(le, be);
    assert_eq!(be, ne);
}

#[test]
fn test_i16() {
    let expected: i16 = rand::random::<i16>();
    let mut buffer = ByteSink::new();
    expected.serialize_le(&mut buffer).unwrap();
    expected.serialize_be(&mut buffer).unwrap();
    expected.serialize_ne(&mut buffer).unwrap();
    let mut source = ByteSource::new(buffer.into_vec());
    let le = <i16>::deserialize_le(&mut source).unwrap();
    let be = <i16>::deserialize_be(&mut source).unwrap();
    let ne = <i16>::deserialize_ne(&mut source).unwrap();
    assert_eq!(expected, le);
    assert_eq!(le, be);
    assert_eq!(be, ne);
}

#[test]
fn test_i32() {
    let expected: i32 = rand::random::<i32>();
    let mut buffer = ByteSink::new();
    expected.serialize_le(&mut buffer).unwrap();
    expected.serialize_be(&mut buffer).unwrap();
    expected.serialize_ne(&mut buffer).unwrap();
    let mut source = ByteSource::new(buffer.into_vec());
    let le = <i32>::deserialize_le(&mut source).unwrap();
    let be = <i32>::deserialize_be(&mut source).unwrap();
    let ne = <i32>::deserialize_ne(&mut source).unwrap();
    assert_eq!(expected, le);
    assert_eq!(le, be);
    assert_eq!(be, ne);
}

#[test]
fn test_i64() {
    let expected: i64 = rand::random::<i64>();
    let mut buffer = ByteSink::new();
    expected.serialize_le(&mut buffer).unwrap();
    expected.serialize_be(&mut buffer).unwrap();
    expected.serialize_ne(&mut buffer).unwrap();
    let mut source = ByteSource::new(buffer.into_vec());
    let le = <i64>::deserialize_le(&mut source).unwrap();
    let be = <i64>::deserialize_be(&mut source).unwrap();
    let ne = <i64>::deserialize_ne(&mut source).unwrap();
    assert_eq!(expected, le);
    assert_eq!(le, be);
    assert_eq!(be, ne);
}

#[test]
fn test_i128() {
    let expected: i128 = rand::random::<i128>();
    let mut buffer = ByteSink::new();
    expected.serialize_le(&mut buffer).unwrap();
    expected.serialize_be(&mut buffer).unwrap();
    expected.serialize_ne(&mut buffer).unwrap();
    let mut source = ByteSource::new(buffer.into_vec());
    let le = <i128>::deserialize_le(&mut source).unwrap();
    let be = <i128>::deserialize_be(&mut source).unwrap();
    let ne = <i128>::deserialize_ne(&mut source).unwrap();
    assert_eq!(expected, le);
    assert_eq!(le, be);
    assert_eq!(be, ne);
}

#[test]
fn test_isize() {
    let expected: isize = rand::random::<i64>() as isize;
    let mut buffer = ByteSink::new();
    expected.serialize_le(&mut buffer).unwrap();
    expected.serialize_be(&mut buffer).unwrap();
    expected.serialize_ne(&mut buffer).unwrap();
    let mut source = ByteSource::new(buffer.into_vec());
    let le = <isize>::deserialize_le(&mut source).unwrap();
    let be = <isize>::deserialize_be(&mut source).unwrap();
    let ne = <isize>::deserialize_ne(&mut source).unwrap();
    assert_eq!(expected, le);
    assert_eq!(le, be);
    assert_eq!(be, ne);
}

#[test]
fn test_f32() {
    let expected: f32 = rand::random::<f32>();
    let mut buffer = ByteSink::new();
    expected.to_bits().serialize_le(&mut buffer).unwrap();
    expected.to_bits().serialize_be(&mut buffer).unwrap();
    expected.to_bits().serialize_ne(&mut buffer).unwrap();
    let mut source = ByteSource::new(buffer.into_vec());
    let le = f32::from_bits(u32::deserialize_le(&mut source).unwrap());
    let be = f32::from_bits(u32::deserialize_be(&mut source).unwrap());
    let ne = f32::from_bits(u32::deserialize_ne(&mut source).unwrap());
    assert_eq!(expected, le);
    assert_eq!(le, be);
    assert_eq!(be, ne);
}

#[test]
fn test_f64() {
    let expected: f64 = rand::random::<f64>();
    let mut buffer = ByteSink::new();
    expected.to_bits().serialize_le(&mut buffer).unwrap();
    expected.to_bits().serialize_be(&mut buffer).unwrap();
    expected.to_bits().serialize_ne(&mut buffer).unwrap();
    let mut source = ByteSource::new(buffer.into_vec());
    let le = f64::from_bits(u64::deserialize_le(&mut source).unwrap());
    let be = f64::from_bits(u64::deserialize_be(&mut source).unwrap());
    let ne = f64::from_bits(u64::deserialize_ne(&mut source).unwrap());
    assert_eq!(expected, le);
    assert_eq!(le, be);
    assert_eq!(be, ne);
}

