//! The schema compiler: given a record's ordered field list it derives the
//! record's codec, which encodes and decodes field by field in declaration
//! order. Zero-field records, sum types and unions are rejected at schema
//! compilation, before any value reaches the codec.

use vstd::prelude::*;

verus! {

use crate::addr::{Ipv4, Ipv6};
use crate::deserialize::{ahead, took_shape, Deserialize};
use crate::native_is_little;
use crate::serialize::{lemma_seq_wire_concat, seq_wire, Serialize};
use crate::sink::{wrote, ByteSink};
use crate::source::ByteSource;
use crate::{Endian, WireError};

/// The primitive type of one record field.
#[derive(Clone, Copy, PartialEq, Eq, Structural, Debug)]
pub enum FieldType {
    U8,
    U16,
    U32,
    U64,
    U128,
    I8,
    I16,
    I32,
    I64,
    I128,
    Bool,
    Ip4,
    Ip6,
}

/// How a field is identified: by name, or by position in a tuple-like
/// record. The identifier is carried for the caller's sake; the wire layout
/// depends only on the order and types of the fields.
#[derive(Clone, Debug)]
pub enum FieldId {
    Named(String),
    Positional(usize),
}

/// One field of a record schema: an identifier and a field type.
#[derive(Clone, Debug)]
pub struct Field {
    pub id: FieldId,
    pub ty: FieldType,
}

/// The shape a schema describes. Only a record with at least one field can
/// be compiled; a sum type (tagged union) and an untagged union are
/// explicitly unsupported.
#[derive(Clone, Debug)]
pub enum TypeShape {
    Record(Vec<Field>),
    Sum,
    Union,
}

/// Why the schema compiler rejected a shape.
#[derive(Clone, Copy, PartialEq, Eq, Structural, Debug)]
pub enum SchemaError {
    EmptyRecord,
    SumUnsupported,
    UnionUnsupported,
}

/// One concrete field value.
#[derive(Clone, Copy, PartialEq, Eq, Structural, Debug)]
pub enum Value {
    U8(u8),
    U16(u16),
    U32(u32),
    U64(u64),
    U128(u128),
    I8(i8),
    I16(i16),
    I32(i32),
    I64(i64),
    I128(i128),
    Bool(bool),
    Ip4(Ipv4),
    Ip6(Ipv6),
}

/// Whether a value is of the given field type.
pub open spec fn value_fits(v: Value, t: FieldType) -> bool {
    match v {
        Value::U8(_) => t == FieldType::U8,
        Value::U16(_) => t == FieldType::U16,
        Value::U32(_) => t == FieldType::U32,
        Value::U64(_) => t == FieldType::U64,
        Value::U128(_) => t == FieldType::U128,
        Value::I8(_) => t == FieldType::I8,
        Value::I16(_) => t == FieldType::I16,
        Value::I32(_) => t == FieldType::I32,
        Value::I64(_) => t == FieldType::I64,
        Value::I128(_) => t == FieldType::I128,
        Value::Bool(_) => t == FieldType::Bool,
        Value::Ip4(_) => t == FieldType::Ip4,
        Value::Ip6(_) => t == FieldType::Ip6,
    }
}

/// How many bytes a value of the given field type occupies on the wire.
pub open spec fn type_len(t: FieldType) -> nat {
    match t {
        FieldType::U8 => 1,
        FieldType::U16 => 2,
        FieldType::U32 => 4,
        FieldType::U64 => 8,
        FieldType::U128 => 16,
        FieldType::I8 => 1,
        FieldType::I16 => 2,
        FieldType::I32 => 4,
        FieldType::I64 => 8,
        FieldType::I128 => 16,
        FieldType::Bool => 1,
        FieldType::Ip4 => 4,
        FieldType::Ip6 => 16,
    }
}

/// The value of type `t` that a `type_len(t)`-byte string decodes to.
pub open spec fn value_of_wire(t: FieldType, bytes: Seq<u8>, e: Endian) -> Value {
    match t {
        FieldType::U8 => Value::U8(<u8 as Deserialize>::of_wire(bytes, e)),
        FieldType::U16 => Value::U16(<u16 as Deserialize>::of_wire(bytes, e)),
        FieldType::U32 => Value::U32(<u32 as Deserialize>::of_wire(bytes, e)),
        FieldType::U64 => Value::U64(<u64 as Deserialize>::of_wire(bytes, e)),
        FieldType::U128 => Value::U128(<u128 as Deserialize>::of_wire(bytes, e)),
        FieldType::I8 => Value::I8(<i8 as Deserialize>::of_wire(bytes, e)),
        FieldType::I16 => Value::I16(<i16 as Deserialize>::of_wire(bytes, e)),
        FieldType::I32 => Value::I32(<i32 as Deserialize>::of_wire(bytes, e)),
        FieldType::I64 => Value::I64(<i64 as Deserialize>::of_wire(bytes, e)),
        FieldType::I128 => Value::I128(<i128 as Deserialize>::of_wire(bytes, e)),
        FieldType::Bool => Value::Bool(<bool as Deserialize>::of_wire(bytes, e)),
        FieldType::Ip4 => Value::Ip4(<Ipv4 as Deserialize>::of_wire(bytes, e)),
        FieldType::Ip6 => Value::Ip6(<Ipv6 as Deserialize>::of_wire(bytes, e)),
    }
}

/// Whether a list of values is, field for field, of the schema's types.
pub open spec fn values_match(vs: Seq<Value>, fs: Seq<Field>) -> bool {
    &&& vs.len() == fs.len()
    &&& forall|i: int| 0 <= i < vs.len() ==> #[trigger] value_fits(vs[i], fs[i].ty)
}

/// How many bytes a whole record occupies on the wire: the sum of its
/// fields' widths, in declaration order.
pub open spec fn record_len(fs: Seq<Field>) -> nat
    decreases fs.len(),
{
    if fs.len() == 0 {
        0
    } else {
        type_len(fs.first().ty) + record_len(fs.drop_first())
    }
}

/// The field values a record's byte string decodes to: each field takes
/// its own width of bytes, in declaration order.
pub open spec fn record_of_wire(fs: Seq<Field>, bytes: Seq<u8>, e: Endian) -> Seq<Value>
    decreases fs.len(),
{
    if fs.len() == 0 {
        Seq::empty()
    } else {
        seq![value_of_wire(fs.first().ty, bytes.take(type_len(fs.first().ty) as int), e)]
            + record_of_wire(fs.drop_first(), bytes.skip(type_len(fs.first().ty) as int), e)
    }
}

/// Splitting a field list splits its wire width.
pub proof fn lemma_record_len_concat(a: Seq<Field>, b: Seq<Field>)
    ensures
        record_len(a + b) == record_len(a) + record_len(b),
    decreases a.len(),
{
    if a.len() == 0 {
        assert(a + b =~= b);
    } else {
        assert((a + b).len() > 0);
        assert((a + b).first() == a.first());
        assert((a + b).drop_first() =~= a.drop_first() + b);
        lemma_record_len_concat(a.drop_first(), b);
    }
}

/// One more field widens the record by that field's width.
pub proof fn lemma_record_len_take_next(fs: Seq<Field>, i: int)
    requires
        0 <= i < fs.len(),
    ensures
        record_len(fs.take(i + 1)) == record_len(fs.take(i)) + type_len(fs[i].ty),
{
    assert(fs.take(i + 1) =~= fs.take(i) + seq![fs[i]]);
    lemma_record_len_concat(fs.take(i), seq![fs[i]]);
    assert(seq![fs[i]].drop_first() =~= Seq::<Field>::empty());
    assert(record_len(Seq::<Field>::empty()) == 0);
}

/// A record is at least as wide as any prefix of its fields plus the next
/// field.
pub proof fn lemma_record_len_split(fs: Seq<Field>, i: int)
    requires
        0 <= i < fs.len(),
    ensures
        record_len(fs) >= record_len(fs.take(i)) + type_len(fs[i].ty),
{
    assert(fs =~= fs.take(i + 1) + fs.skip(i + 1));
    lemma_record_len_concat(fs.take(i + 1), fs.skip(i + 1));
    lemma_record_len_take_next(fs, i);
}

/// Decoding a concatenated field list decodes each part from its own span
/// of the byte string.
pub proof fn lemma_record_of_wire_concat(f1: Seq<Field>, f2: Seq<Field>, bytes: Seq<u8>, e: Endian)
    requires
        record_len(f1) <= bytes.len(),
    ensures
        record_of_wire(f1 + f2, bytes, e) == record_of_wire(
            f1,
            bytes.take(record_len(f1) as int),
            e,
        ) + record_of_wire(f2, bytes.skip(record_len(f1) as int), e),
    decreases f1.len(),
{
    if f1.len() == 0 {
        assert(f1 + f2 =~= f2);
        assert(bytes.skip(0) =~= bytes);
        assert(record_of_wire(f1, bytes.take(0), e) =~= Seq::<Value>::empty());
        assert(record_of_wire(f1, bytes.take(0), e) + record_of_wire(f2, bytes, e) =~= record_of_wire(
            f2,
            bytes,
            e,
        ));
    } else {
        let tl = type_len(f1.first().ty) as int;
        let rl = record_len(f1) as int;
        let rl1 = record_len(f1.drop_first()) as int;
        assert((f1 + f2).len() > 0);
        assert((f1 + f2).first() == f1.first());
        assert((f1 + f2).drop_first() =~= f1.drop_first() + f2);
        assert(rl == tl + rl1);
        assert(bytes.skip(tl).len() == bytes.len() - tl);
        lemma_record_of_wire_concat(f1.drop_first(), f2, bytes.skip(tl), e);
        // the three spans agree
        assert(bytes.skip(tl).take(rl1) =~= bytes.take(rl).skip(tl));
        assert(bytes.skip(tl).skip(rl1) =~= bytes.skip(rl));
        assert(bytes.take(rl).take(tl) =~= bytes.take(tl));
        // unfold the target's first component
        assert(record_of_wire(f1, bytes.take(rl), e) =~= seq![
            value_of_wire(f1.first().ty, bytes.take(rl).take(tl), e),
        ] + record_of_wire(f1.drop_first(), bytes.take(rl).skip(tl), e));
        assert(record_of_wire(f1 + f2, bytes, e) =~= record_of_wire(f1, bytes.take(rl), e)
            + record_of_wire(f2, bytes.skip(rl), e));
    }
}

/// Decoding one more field appends that field's value.
pub proof fn lemma_record_of_wire_take_next(fs: Seq<Field>, i: int, bytes: Seq<u8>, e: Endian)
    requires
        0 <= i < fs.len(),
        record_len(fs.take(i)) + type_len(fs[i].ty) <= bytes.len(),
    ensures
        record_of_wire(fs.take(i + 1), bytes, e) == record_of_wire(
            fs.take(i),
            bytes.take(record_len(fs.take(i)) as int),
            e,
        ) + seq![
            value_of_wire(
                fs[i].ty,
                bytes.skip(record_len(fs.take(i)) as int).take(type_len(fs[i].ty) as int),
                e,
            ),
        ],
{
    assert(fs.take(i + 1) =~= fs.take(i) + seq![fs[i]]);
    lemma_record_of_wire_concat(fs.take(i), seq![fs[i]], bytes, e);
    let tail = bytes.skip(record_len(fs.take(i)) as int);
    assert(seq![fs[i]].first() == fs[i]);
    assert(seq![fs[i]].drop_first() =~= Seq::<Field>::empty());
    assert(record_of_wire(
        Seq::<Field>::empty(),
        tail.skip(type_len(fs[i].ty) as int),
        e,
    ) == Seq::<Value>::empty());
    assert(record_of_wire(seq![fs[i]], tail, e) =~= seq![
        value_of_wire(fs[i].ty, tail.take(type_len(fs[i].ty) as int), e),
    ]);
}

impl Serialize for Value {
    /// A field value encodes exactly as the primitive it holds.
    open spec fn wire(&self, e: Endian) -> Seq<u8> {
        match *self {
            Value::U8(x) => x.wire(e),
            Value::U16(x) => x.wire(e),
            Value::U32(x) => x.wire(e),
            Value::U64(x) => x.wire(e),
            Value::U128(x) => x.wire(e),
            Value::I8(x) => x.wire(e),
            Value::I16(x) => x.wire(e),
            Value::I32(x) => x.wire(e),
            Value::I64(x) => x.wire(e),
            Value::I128(x) => x.wire(e),
            Value::Bool(x) => x.wire(e),
            Value::Ip4(x) => x.wire(e),
            Value::Ip6(x) => x.wire(e),
        }
    }

    fn serialize_ne(&self, writer: &mut ByteSink) -> (r: Result<(), WireError>) {
        if native_is_little() {
            self.serialize_le(writer)
        } else {
            self.serialize_be(writer)
        }
    }

    fn serialize_le(&self, writer: &mut ByteSink) -> (r: Result<(), WireError>) {
        match self {
            Value::U8(x) => x.serialize_le(writer),
            Value::U16(x) => x.serialize_le(writer),
            Value::U32(x) => x.serialize_le(writer),
            Value::U64(x) => x.serialize_le(writer),
            Value::U128(x) => x.serialize_le(writer),
            Value::I8(x) => x.serialize_le(writer),
            Value::I16(x) => x.serialize_le(writer),
            Value::I32(x) => x.serialize_le(writer),
            Value::I64(x) => x.serialize_le(writer),
            Value::I128(x) => x.serialize_le(writer),
            Value::Bool(x) => x.serialize_le(writer),
            Value::Ip4(x) => x.serialize_le(writer),
            Value::Ip6(x) => x.serialize_le(writer),
        }
    }

    fn serialize_be(&self, writer: &mut ByteSink) -> (r: Result<(), WireError>) {
        match self {
            Value::U8(x) => x.serialize_be(writer),
            Value::U16(x) => x.serialize_be(writer),
            Value::U32(x) => x.serialize_be(writer),
            Value::U64(x) => x.serialize_be(writer),
            Value::U128(x) => x.serialize_be(writer),
            Value::I8(x) => x.serialize_be(writer),
            Value::I16(x) => x.serialize_be(writer),
            Value::I32(x) => x.serialize_be(writer),
            Value::I64(x) => x.serialize_be(writer),
            Value::I128(x) => x.serialize_be(writer),
            Value::Bool(x) => x.serialize_be(writer),
            Value::Ip4(x) => x.serialize_be(writer),
            Value::Ip6(x) => x.serialize_be(writer),
        }
    }
}

/// Decodes one field value of type `t`, least significant byte first.
fn decode_value_le(t: &FieldType, reader: &mut ByteSource) -> (r: Result<Value, WireError>)
    requires
        old(reader).wf(),
    ensures
        took_shape(*old(reader), *final(reader), r is Ok, type_len(*t)),
        r matches Ok(v) ==> v == value_of_wire(*t, ahead(*old(reader), type_len(*t)), Endian::Little)
            && value_fits(v, *t),
        r is Err ==> r == Err::<Value, WireError>(WireError::UnexpectedEnd),
{
    match t {
        FieldType::U8 => match u8::deserialize_le(reader) {
            Ok(x) => Ok(Value::U8(x)),
            Err(_) => Err(WireError::UnexpectedEnd),
        },
        FieldType::U16 => match u16::deserialize_le(reader) {
            Ok(x) => Ok(Value::U16(x)),
            Err(_) => Err(WireError::UnexpectedEnd),
        },
        FieldType::U32 => match u32::deserialize_le(reader) {
            Ok(x) => Ok(Value::U32(x)),
            Err(_) => Err(WireError::UnexpectedEnd),
        },
        FieldType::U64 => match u64::deserialize_le(reader) {
            Ok(x) => Ok(Value::U64(x)),
            Err(_) => Err(WireError::UnexpectedEnd),
        },
        FieldType::U128 => match u128::deserialize_le(reader) {
            Ok(x) => Ok(Value::U128(x)),
            Err(_) => Err(WireError::UnexpectedEnd),
        },
        FieldType::I8 => match i8::deserialize_le(reader) {
            Ok(x) => Ok(Value::I8(x)),
            Err(_) => Err(WireError::UnexpectedEnd),
        },
        FieldType::I16 => match i16::deserialize_le(reader) {
            Ok(x) => Ok(Value::I16(x)),
            Err(_) => Err(WireError::UnexpectedEnd),
        },
        FieldType::I32 => match i32::deserialize_le(reader) {
            Ok(x) => Ok(Value::I32(x)),
            Err(_) => Err(WireError::UnexpectedEnd),
        },
        FieldType::I64 => match i64::deserialize_le(reader) {
            Ok(x) => Ok(Value::I64(x)),
            Err(_) => Err(WireError::UnexpectedEnd),
        },
        FieldType::I128 => match i128::deserialize_le(reader) {
            Ok(x) => Ok(Value::I128(x)),
            Err(_) => Err(WireError::UnexpectedEnd),
        },
        FieldType::Bool => match bool::deserialize_le(reader) {
            Ok(x) => Ok(Value::Bool(x)),
            Err(_) => Err(WireError::UnexpectedEnd),
        },
        FieldType::Ip4 => match Ipv4::deserialize_le(reader) {
            Ok(x) => Ok(Value::Ip4(x)),
            Err(_) => Err(WireError::UnexpectedEnd),
        },
        FieldType::Ip6 => match Ipv6::deserialize_le(reader) {
            Ok(x) => Ok(Value::Ip6(x)),
            Err(_) => Err(WireError::UnexpectedEnd),
        },
    }
}

/// Decodes one field value of type `t`, most significant byte first.
fn decode_value_be(t: &FieldType, reader: &mut ByteSource) -> (r: Result<Value, WireError>)
    requires
        old(reader).wf(),
    ensures
        took_shape(*old(reader), *final(reader), r is Ok, type_len(*t)),
        r matches Ok(v) ==> v == value_of_wire(*t, ahead(*old(reader), type_len(*t)), Endian::Big)
            && value_fits(v, *t),
        r is Err ==> r == Err::<Value, WireError>(WireError::UnexpectedEnd),
{
    match t {
        FieldType::U8 => match u8::deserialize_be(reader) {
            Ok(x) => Ok(Value::U8(x)),
            Err(_) => Err(WireError::UnexpectedEnd),
        },
        FieldType::U16 => match u16::deserialize_be(reader) {
            Ok(x) => Ok(Value::U16(x)),
            Err(_) => Err(WireError::UnexpectedEnd),
        },
        FieldType::U32 => match u32::deserialize_be(reader) {
            Ok(x) => Ok(Value::U32(x)),
            Err(_) => Err(WireError::UnexpectedEnd),
        },
        FieldType::U64 => match u64::deserialize_be(reader) {
            Ok(x) => Ok(Value::U64(x)),
            Err(_) => Err(WireError::UnexpectedEnd),
        },
        FieldType::U128 => match u128::deserialize_be(reader) {
            Ok(x) => Ok(Value::U128(x)),
            Err(_) => Err(WireError::UnexpectedEnd),
        },
        FieldType::I8 => match i8::deserialize_be(reader) {
            Ok(x) => Ok(Value::I8(x)),
            Err(_) => Err(WireError::UnexpectedEnd),
        },
        FieldType::I16 => match i16::deserialize_be(reader) {
            Ok(x) => Ok(Value::I16(x)),
            Err(_) => Err(WireError::UnexpectedEnd),
        },
        FieldType::I32 => match i32::deserialize_be(reader) {
            Ok(x) => Ok(Value::I32(x)),
            Err(_) => Err(WireError::UnexpectedEnd),
        },
        FieldType::I64 => match i64::deserialize_be(reader) {
            Ok(x) => Ok(Value::I64(x)),
            Err(_) => Err(WireError::UnexpectedEnd),
        },
        FieldType::I128 => match i128::deserialize_be(reader) {
            Ok(x) => Ok(Value::I128(x)),
            Err(_) => Err(WireError::UnexpectedEnd),
        },
        FieldType::Bool => match bool::deserialize_be(reader) {
            Ok(x) => Ok(Value::Bool(x)),
            Err(_) => Err(WireError::UnexpectedEnd),
        },
        FieldType::Ip4 => match Ipv4::deserialize_be(reader) {
            Ok(x) => Ok(Value::Ip4(x)),
            Err(_) => Err(WireError::UnexpectedEnd),
        },
        FieldType::Ip6 => match Ipv6::deserialize_be(reader) {
            Ok(x) => Ok(Value::Ip6(x)),
            Err(_) => Err(WireError::UnexpectedEnd),
        },
    }
}

/// A compiled record codec: the schema's field list, in declaration order,
/// as the schema compiler accepted it (never empty).
#[derive(Debug)]
pub struct RecordCodec {
    fields: Vec<Field>,
}

impl RecordCodec {
    /// The accepted field list, in declaration order.
    pub closed spec fn fields_spec(&self) -> Seq<Field> {
        self.fields@
    }

    pub open spec fn wf(&self) -> bool {
        self.fields_spec().len() > 0
    }

    /// Derives the record codec for `shape`. Exactly the records with at
    /// least one field are accepted; a zero-field record, a sum type and a
    /// union each fail schema compilation with their own error.
    pub fn compile(shape: TypeShape) -> (r: Result<RecordCodec, SchemaError>)
        ensures
            match shape {
                TypeShape::Record(fs) => if fs@.len() == 0 {
                    r == Err::<RecordCodec, SchemaError>(SchemaError::EmptyRecord)
                } else {
                    r matches Ok(c) && c.fields_spec() == fs@ && c.wf()
                },
                TypeShape::Sum => r == Err::<RecordCodec, SchemaError>(SchemaError::SumUnsupported),
                TypeShape::Union => r == Err::<RecordCodec, SchemaError>(
                    SchemaError::UnionUnsupported,
                ),
            },
    {
        match shape {
            TypeShape::Record(fs) => {
                if fs.len() == 0 {
                    Err(SchemaError::EmptyRecord)
                } else {
                    Ok(RecordCodec { fields: fs })
                }
            },
            TypeShape::Sum => Err(SchemaError::SumUnsupported),
            TypeShape::Union => Err(SchemaError::UnionUnsupported),
        }
    }

    /// How many fields the record has.
    pub fn field_count(&self) -> (n: usize)
        ensures
            n as nat == self.fields_spec().len(),
    {
        self.fields.len()
    }

    /// Encodes a record value field by field in declaration order, every
    /// field under the platform's native byte order.
    pub fn encode_ne(&self, values: &Vec<Value>, writer: &mut ByteSink) -> (r: Result<
        (),
        WireError,
    >)
        requires
            old(writer).wf(),
            values_match(values@, self.fields_spec()),
        ensures
            wrote(*old(writer), *final(writer), r, seq_wire(values@, Endian::Little)) || wrote(
                *old(writer),
                *final(writer),
                r,
                seq_wire(values@, Endian::Big),
            ),
    {
        if native_is_little() {
            self.encode_le(values, writer)
        } else {
            self.encode_be(values, writer)
        }
    }

    /// Encodes a record value field by field in declaration order, every
    /// field little-endian: the wire layout is the concatenation of the
    /// fields' own encodings, with no padding or framing between them.
    pub fn encode_le(&self, values: &Vec<Value>, writer: &mut ByteSink) -> (r: Result<
        (),
        WireError,
    >)
        requires
            old(writer).wf(),
            values_match(values@, self.fields_spec()),
        ensures
            wrote(*old(writer), *final(writer), r, seq_wire(values@, Endian::Little)),
    {
        values.serialize_le(writer)
    }

    /// Encodes a record value field by field in declaration order, every
    /// field big-endian.
    pub fn encode_be(&self, values: &Vec<Value>, writer: &mut ByteSink) -> (r: Result<
        (),
        WireError,
    >)
        requires
            old(writer).wf(),
            values_match(values@, self.fields_spec()),
        ensures
            wrote(*old(writer), *final(writer), r, seq_wire(values@, Endian::Big)),
    {
        values.serialize_be(writer)
    }

    /// Decodes a record field by field in declaration order, every field
    /// under the platform's native byte order.
    pub fn decode_ne(&self, reader: &mut ByteSource) -> (r: Result<Vec<Value>, WireError>)
        requires
            old(reader).wf(),
        ensures
            took_shape(
                *old(reader),
                *final(reader),
                r is Ok,
                record_len(self.fields_spec()),
            ) || (r is Err && final(reader).wf() && final(reader).data() == old(reader).data()
                && old(reader).pos() <= final(reader).pos()),
            r matches Ok(vs) ==> (vs@ == record_of_wire(
                self.fields_spec(),
                ahead(*old(reader), record_len(self.fields_spec())),
                Endian::Little,
            ) || vs@ == record_of_wire(
                self.fields_spec(),
                ahead(*old(reader), record_len(self.fields_spec())),
                Endian::Big,
            )) && values_match(vs@, self.fields_spec()),
            r is Ok <==> old(reader).remaining() >= record_len(self.fields_spec()),
            r is Err ==> r == Err::<Vec<Value>, WireError>(WireError::UnexpectedEnd),
    {
        if native_is_little() {
            self.decode_le(reader)
        } else {
            self.decode_be(reader)
        }
    }

    /// Decodes a record field by field in declaration order, every field
    /// little-endian. A failed decode yields no partial record; the cursor
    /// is left after whatever prefix of the fields was consumed.
    pub fn decode_le(&self, reader: &mut ByteSource) -> (r: Result<Vec<Value>, WireError>)
        requires
            old(reader).wf(),
        ensures
            final(reader).wf(),
            final(reader).data() == old(reader).data(),
            r is Ok <==> old(reader).remaining() >= record_len(self.fields_spec()),
            r matches Ok(vs) ==> final(reader).pos() == old(reader).pos() + record_len(
                self.fields_spec(),
            ) && vs@ == record_of_wire(
                self.fields_spec(),
                ahead(*old(reader), record_len(self.fields_spec())),
                Endian::Little,
            ) && values_match(vs@, self.fields_spec()),
            r is Err ==> old(reader).pos() <= final(reader).pos() && r == Err::<
                Vec<Value>,
                WireError,
            >(WireError::UnexpectedEnd),
    {
        decode_record_le(&self.fields, reader)
    }

    /// Decodes a record field by field in declaration order, every field
    /// big-endian. A failed decode yields no partial record; the cursor is
    /// left after whatever prefix of the fields was consumed.
    pub fn decode_be(&self, reader: &mut ByteSource) -> (r: Result<Vec<Value>, WireError>)
        requires
            old(reader).wf(),
        ensures
            final(reader).wf(),
            final(reader).data() == old(reader).data(),
            r is Ok <==> old(reader).remaining() >= record_len(self.fields_spec()),
            r matches Ok(vs) ==> final(reader).pos() == old(reader).pos() + record_len(
                self.fields_spec(),
            ) && vs@ == record_of_wire(
                self.fields_spec(),
                ahead(*old(reader), record_len(self.fields_spec())),
                Endian::Big,
            ) && values_match(vs@, self.fields_spec()),
            r is Err ==> old(reader).pos() <= final(reader).pos() && r == Err::<
                Vec<Value>,
                WireError,
            >(WireError::UnexpectedEnd),
    {
        decode_record_be(&self.fields, reader)
    }
}

/// Decodes one value per field, in declaration order, least significant
/// byte first, stopping at the first field the source cannot fill.
fn decode_record_le(fields: &Vec<Field>, reader: &mut ByteSource) -> (r: Result<
    Vec<Value>,
    WireError,
>)
    requires
        old(reader).wf(),
    ensures
        final(reader).wf(),
        final(reader).data() == old(reader).data(),
        r is Ok <==> old(reader).remaining() >= record_len(fields@),
        r matches Ok(vs) ==> final(reader).pos() == old(reader).pos() + record_len(fields@)
            && vs@ == record_of_wire(fields@, ahead(*old(reader), record_len(fields@)), Endian::Little)
            && values_match(vs@, fields@),
        r is Err ==> old(reader).pos() <= final(reader).pos() && r == Err::<Vec<Value>, WireError>(
            WireError::UnexpectedEnd,
        ),
{
    let n = fields.len();
    let mut out: Vec<Value> = Vec::new();
    let mut i: usize = 0;
    while i < n
        invariant
            i <= n,
            n == fields@.len(),
            reader.wf(),
            reader.data() == old(reader).data(),
            reader.pos() == old(reader).pos() + record_len(fields@.take(i as int)),
            out@.len() == i as nat,
            out@ == record_of_wire(
                fields@.take(i as int),
                old(reader).data().subrange(old(reader).pos() as int, reader.pos() as int),
                Endian::Little,
            ),
            values_match(out@, fields@.take(i as int)),
        decreases n - i,
    {
        let ghost pre = *reader;
        let f = &fields[i];
        let ghost tl = type_len(f.ty);
        let ghost rl = record_len(fields@.take(i as int));
        match decode_value_le(&f.ty, reader) {
            Ok(v) => {
                proof {
                    lemma_record_len_take_next(fields@, i as int);
                    let data = old(reader).data();
                    let p0 = old(reader).pos() as int;
                    let consumed = data.subrange(p0, p0 + rl + tl);
                    lemma_record_of_wire_take_next(fields@, i as int, consumed, Endian::Little);
                    assert(consumed.take(rl as int) =~= data.subrange(p0, p0 + rl));
                    assert(consumed.skip(rl as int).take(tl as int) =~= ahead(pre, tl));
                    assert(out@ + seq![v] =~= record_of_wire(
                        fields@.take(i as int + 1),
                        consumed,
                        Endian::Little,
                    ));
                    assert(fields@.take(i as int + 1)[i as int] == fields@[i as int]);
                    assert(forall|j: int|
                        0 <= j < i as int ==> fields@.take(i as int + 1)[j] == fields@.take(
                            i as int,
                        )[j]);
                }
                out.push(v);
                i = i + 1;
            },
            Err(_) => {
                proof {
                    lemma_record_len_split(fields@, i as int);
                }
                return Err(WireError::UnexpectedEnd);
            },
        }
    }
    proof {
        assert(fields@.take(n as int) =~= fields@);
    }
    Ok(out)
}

/// Decodes one value per field, in declaration order, most significant
/// byte first, stopping at the first field the source cannot fill.
fn decode_record_be(fields: &Vec<Field>, reader: &mut ByteSource) -> (r: Result<
    Vec<Value>,
    WireError,
>)
    requires
        old(reader).wf(),
    ensures
        final(reader).wf(),
        final(reader).data() == old(reader).data(),
        r is Ok <==> old(reader).remaining() >= record_len(fields@),
        r matches Ok(vs) ==> final(reader).pos() == old(reader).pos() + record_len(fields@)
            && vs@ == record_of_wire(fields@, ahead(*old(reader), record_len(fields@)), Endian::Big)
            && values_match(vs@, fields@),
        r is Err ==> old(reader).pos() <= final(reader).pos() && r == Err::<Vec<Value>, WireError>(
            WireError::UnexpectedEnd,
        ),
{
    let n = fields.len();
    let mut out: Vec<Value> = Vec::new();
    let mut i: usize = 0;
    while i < n
        invariant
            i <= n,
            n == fields@.len(),
            reader.wf(),
            reader.data() == old(reader).data(),
            reader.pos() == old(reader).pos() + record_len(fields@.take(i as int)),
            out@.len() == i as nat,
            out@ == record_of_wire(
                fields@.take(i as int),
                old(reader).data().subrange(old(reader).pos() as int, reader.pos() as int),
                Endian::Big,
            ),
            values_match(out@, fields@.take(i as int)),
        decreases n - i,
    {
        let ghost pre = *reader;
        let f = &fields[i];
        let ghost tl = type_len(f.ty);
        let ghost rl = record_len(fields@.take(i as int));
        match decode_value_be(&f.ty, reader) {
            Ok(v) => {
                proof {
                    lemma_record_len_take_next(fields@, i as int);
                    let data = old(reader).data();
                    let p0 = old(reader).pos() as int;
                    let consumed = data.subrange(p0, p0 + rl + tl);
                    lemma_record_of_wire_take_next(fields@, i as int, consumed, Endian::Big);
                    assert(consumed.take(rl as int) =~= data.subrange(p0, p0 + rl));
                    assert(consumed.skip(rl as int).take(tl as int) =~= ahead(pre, tl));
                    assert(out@ + seq![v] =~= record_of_wire(
                        fields@.take(i as int + 1),
                        consumed,
                        Endian::Big,
                    ));
                    assert(fields@.take(i as int + 1)[i as int] == fields@[i as int]);
                    assert(forall|j: int|
                        0 <= j < i as int ==> fields@.take(i as int + 1)[j] == fields@.take(
                            i as int,
                        )[j]);
                }
                out.push(v);
                i = i + 1;
            },
            Err(_) => {
                proof {
                    lemma_record_len_split(fields@, i as int);
                }
                return Err(WireError::UnexpectedEnd);
            },
        }
    }
    proof {
        assert(fields@.take(n as int) =~= fields@);
    }
    Ok(out)
}

} // verus!
