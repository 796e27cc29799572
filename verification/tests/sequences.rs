//! Sequences encode as the unbroken concatenation of their elements'
//! encodings, with no count, separator or terminator; decoding is driven by
//! a caller-supplied element count.

use binserde::deserialize::Deserialize;
use binserde::serialize::Serialize;
use binserde::sink::ByteSink;
use binserde::source::ByteSource;

#[test]
fn test_slice() {
    let array: Vec<u16> = vec![1, 5, 123, 10000];
    let slice: &[u16] = &array;

    let mut buffer = ByteSink::new();

    slice.serialize_le(&mut buffer).unwrap();
    slice.serialize_be(&mut buffer).unwrap();

    let expected = vec![
        1, 0, 5, 0, 123, 0, 16, 39, // le
        0, 1, 0, 5, 0, 123, 39, 16, // be
    ];
    assert_eq!(buffer.into_vec(), expected);
}

#[test]
fn serialize_test_array_unstable() {
    let array: Vec<u16> = vec![1, 5, 123, 10000];

    let mut buffer = ByteSink::new();

    array.serialize_le(&mut buffer).unwrap();
    array.serialize_be(&mut buffer).unwrap();

    let expected = vec![
        1, 0, 5, 0, 123, 0, 16, 39, // le
        0, 1, 0, 5, 0, 123, 39, 16, // be
    ];
    assert_eq!(buffer.into_vec(), expected);
}

#[test]
fn lib_test_array_unstable() {
    let array: Vec<u16> = vec![1, 5, 123, 10000];

    let mut buffer = ByteSink::new();

    array.serialize_le(&mut buffer).unwrap();

    let mut source = ByteSource::new(buffer.into_vec());

    let mut res: Vec<u16> = Vec::new();
    for _ in 0..4 {
        res.push(u16::deserialize_le(&mut source).unwrap());
    }

    assert_eq!(res, array);
}

#[test]
fn empty_sequence_encodes_to_nothing() {
    let empty: Vec<u32> = Vec::new();
    let mut buffer = ByteSink::new();
    empty.serialize_le(&mut buffer).unwrap();
    empty.serialize_be(&mut buffer).unwrap();
    empty.serialize_ne(&mut buffer).unwrap();
    assert_eq!(buffer.len(), 0);
}

#[test]
fn sequence_of_options_concatenates() {
    let items: Vec<Option<u8>> = vec![Some(3), None, Some(9)];
    let mut buffer = ByteSink::new();
    items.serialize_le(&mut buffer).unwrap();
    assert_eq!(buffer.into_vec(), vec![3, 0, 9]);
}
