//! The schema compiler: deriving a record codec, its declaration-order
//! wire layout, and the generation-time rejection of unsupported shapes.

use binserde::schema::{Field, FieldId, FieldType, RecordCodec, SchemaError, TypeShape, Value};
use binserde::sink::ByteSink;
use binserde::source::ByteSource;

fn named(name: &str, ty: FieldType) -> Field {
    Field { id: FieldId::Named(String::from(name)), ty }
}

#[test]
fn test_struct() {
    let shape = TypeShape::Record(vec![
        named("a", FieldType::U8),
        named("b", FieldType::I32),
        named("c", FieldType::U64),
    ]);
    let codec = RecordCodec::compile(shape).unwrap();

    let res = vec![Value::U8(2), Value::I32(-123), Value::U64(51)];

    let mut buffer = ByteSink::new();
    codec.encode_le(&res, &mut buffer).unwrap();

    assert_eq!(
        buffer.into_vec(),
        vec![2, 133, 255, 255, 255, 51, 0, 0, 0, 0, 0, 0, 0]
    );
}

#[test]
fn record_big_endian_layout() {
    let shape = TypeShape::Record(vec![
        named("a", FieldType::U8),
        named("b", FieldType::I32),
        named("c", FieldType::U64),
    ]);
    let codec = RecordCodec::compile(shape).unwrap();

    let res = vec![Value::U8(2), Value::I32(-123), Value::U64(51)];

    let mut buffer = ByteSink::new();
    codec.encode_be(&res, &mut buffer).unwrap();

    assert_eq!(
        buffer.into_vec(),
        vec![2, 255, 255, 255, 133, 0, 0, 0, 0, 0, 0, 0, 51]
    );
}

#[test]
fn record_round_trips_under_each_order() {
    let shape = TypeShape::Record(vec![
        named("flag", FieldType::Bool),
        named("count", FieldType::U16),
        named("delta", FieldType::I64),
    ]);
    let codec = RecordCodec::compile(shape).unwrap();
    let values = vec![Value::Bool(true), Value::U16(40000), Value::I64(-77)];

    let mut buffer = ByteSink::new();
    codec.encode_le(&values, &mut buffer).unwrap();
    let mut source = ByteSource::new(buffer.into_vec());
    assert_eq!(codec.decode_le(&mut source).unwrap(), values);

    let mut buffer = ByteSink::new();
    codec.encode_be(&values, &mut buffer).unwrap();
    let mut source = ByteSource::new(buffer.into_vec());
    assert_eq!(codec.decode_be(&mut source).unwrap(), values);

    let mut buffer = ByteSink::new();
    codec.encode_ne(&values, &mut buffer).unwrap();
    let mut source = ByteSource::new(buffer.into_vec());
    assert_eq!(codec.decode_ne(&mut source).unwrap(), values);
}

#[test]
fn positional_fields_are_accepted() {
    let shape = TypeShape::Record(vec![
        Field { id: FieldId::Positional(0), ty: FieldType::U16 },
        Field { id: FieldId::Positional(1), ty: FieldType::U16 },
    ]);
    let codec = RecordCodec::compile(shape).unwrap();
    assert_eq!(codec.field_count(), 2);

    let mut buffer = ByteSink::new();
    codec
        .encode_le(&vec![Value::U16(1), Value::U16(258)], &mut buffer)
        .unwrap();
    assert_eq!(buffer.into_vec(), vec![1, 0, 2, 1]);
}

#[test]
fn zero_field_record_is_rejected() {
    let r = RecordCodec::compile(TypeShape::Record(Vec::new()));
    assert_eq!(r.unwrap_err(), SchemaError::EmptyRecord);
}

#[test]
fn sum_type_is_rejected() {
    let r = RecordCodec::compile(TypeShape::Sum);
    assert_eq!(r.unwrap_err(), SchemaError::SumUnsupported);
}

#[test]
fn union_is_rejected() {
    let r = RecordCodec::compile(TypeShape::Union);
    assert_eq!(r.unwrap_err(), SchemaError::UnionUnsupported);
}

#[test]
fn record_decode_fails_on_short_input() {
    let shape = TypeShape::Record(vec![
        named("a", FieldType::U8),
        named("b", FieldType::U32),
    ]);
    let codec = RecordCodec::compile(shape).unwrap();
    // one byte for `a`, but only two of the four `b` needs
    let mut source = ByteSource::new(vec![1, 2, 3]);
    assert!(codec.decode_le(&mut source).is_err());
}
