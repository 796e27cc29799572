//! The laws the codec obeys, stated over the wire model and proved once
//! for all values: round trips for every primitive type under every byte
//! order, the byte-wise reversal between the two orders, the documented
//! ambiguity of the absence encoding, and the record round trip.

use vstd::prelude::*;

verus! {

use crate::addr::{Ipv4, Ipv6};
use crate::bytes::{
    lemma_i128_round_trip, lemma_i16_round_trip, lemma_i32_round_trip, lemma_i64_round_trip,
    lemma_i8_round_trip, lemma_isize_round_trip, lemma_ordered_bytes_len, lemma_ordered_round_trip,
    lemma_pow256_usize, ordered_bytes, pow256, u128_of_i128, u16_of_i16, u32_of_i32, u64_of_i64,
    u8_of_i8, usize_of_isize, usize_width,
};
use crate::deserialize::Deserialize;
use crate::schema::{
    record_of_wire, type_len, value_fits, value_of_wire, values_match, Field, FieldType, Value,
};
use crate::sentinel::Sentinel;
use crate::serialize::{seq_wire, Serialize};
use crate::Endian;

/// Round trip: decoding the encoding of any `u8` under either byte order
/// yields the value again.
pub proof fn lemma_round_trip_u8(v: u8, e: Endian)
    ensures
        <u8 as Deserialize>::of_wire(v.wire(e), e) == v,
{
    assert(pow256(1) == 0x100) by {
        reveal_with_fuel(pow256, 2);
    }
    lemma_ordered_round_trip(v as nat, 1, e);
}

/// Round trip: decoding the encoding of any `u16` under either byte order
/// yields the value again.
pub proof fn lemma_round_trip_u16(v: u16, e: Endian)
    ensures
        <u16 as Deserialize>::of_wire(v.wire(e), e) == v,
{
    assert(pow256(2) == 0x1_0000) by {
        reveal_with_fuel(pow256, 3);
    }
    lemma_ordered_round_trip(v as nat, 2, e);
}

/// Round trip: decoding the encoding of any `u32` under either byte order
/// yields the value again.
pub proof fn lemma_round_trip_u32(v: u32, e: Endian)
    ensures
        <u32 as Deserialize>::of_wire(v.wire(e), e) == v,
{
    assert(pow256(4) == 0x1_0000_0000) by {
        reveal_with_fuel(pow256, 5);
    }
    lemma_ordered_round_trip(v as nat, 4, e);
}

/// Round trip: decoding the encoding of any `u64` under either byte order
/// yields the value again.
pub proof fn lemma_round_trip_u64(v: u64, e: Endian)
    ensures
        <u64 as Deserialize>::of_wire(v.wire(e), e) == v,
{
    assert(pow256(8) == 0x1_0000_0000_0000_0000) by {
        reveal_with_fuel(pow256, 9);
    }
    lemma_ordered_round_trip(v as nat, 8, e);
}

/// Round trip: decoding the encoding of any `u128` under either byte order
/// yields the value again.
pub proof fn lemma_round_trip_u128(v: u128, e: Endian)
    ensures
        <u128 as Deserialize>::of_wire(v.wire(e), e) == v,
{
    assert(pow256(16) == 0x1_0000_0000_0000_0000_0000_0000_0000_0000) by {
        reveal_with_fuel(pow256, 17);
    }
    lemma_ordered_round_trip(v as nat, 16, e);
}

/// Round trip: decoding the encoding of any `usize` under either byte
/// order yields the value again.
pub proof fn lemma_round_trip_usize(v: usize, e: Endian)
    ensures
        <usize as Deserialize>::of_wire(v.wire(e), e) == v,
{
    lemma_pow256_usize();
    lemma_ordered_round_trip(v as nat, usize_width(), e);
}

/// Round trip: decoding the encoding of any `i8` under either byte order
/// yields the value again.
pub proof fn lemma_round_trip_i8(v: i8, e: Endian)
    ensures
        <i8 as Deserialize>::of_wire(v.wire(e), e) == v,
{
    assert(pow256(1) == 0x100) by {
        reveal_with_fuel(pow256, 2);
    }
    lemma_ordered_round_trip(u8_of_i8(v) as nat, 1, e);
    lemma_i8_round_trip(v);
}

/// Round trip: decoding the encoding of any `i16` under either byte order
/// yields the value again.
pub proof fn lemma_round_trip_i16(v: i16, e: Endian)
    ensures
        <i16 as Deserialize>::of_wire(v.wire(e), e) == v,
{
    assert(pow256(2) == 0x1_0000) by {
        reveal_with_fuel(pow256, 3);
    }
    lemma_ordered_round_trip(u16_of_i16(v) as nat, 2, e);
    lemma_i16_round_trip(v);
}

/// Round trip: decoding the encoding of any `i32` under either byte order
/// yields the value again.
pub proof fn lemma_round_trip_i32(v: i32, e: Endian)
    ensures
        <i32 as Deserialize>::of_wire(v.wire(e), e) == v,
{
    assert(pow256(4) == 0x1_0000_0000) by {
        reveal_with_fuel(pow256, 5);
    }
    lemma_ordered_round_trip(u32_of_i32(v) as nat, 4, e);
    lemma_i32_round_trip(v);
}

/// Round trip: decoding the encoding of any `i64` under either byte order
/// yields the value again.
pub proof fn lemma_round_trip_i64(v: i64, e: Endian)
    ensures
        <i64 as Deserialize>::of_wire(v.wire(e), e) == v,
{
    assert(pow256(8) == 0x1_0000_0000_0000_0000) by {
        reveal_with_fuel(pow256, 9);
    }
    lemma_ordered_round_trip(u64_of_i64(v) as nat, 8, e);
    lemma_i64_round_trip(v);
}

/// Round trip: decoding the encoding of any `i128` under either byte order
/// yields the value again.
pub proof fn lemma_round_trip_i128(v: i128, e: Endian)
    ensures
        <i128 as Deserialize>::of_wire(v.wire(e), e) == v,
{
    assert(pow256(16) == 0x1_0000_0000_0000_0000_0000_0000_0000_0000) by {
        reveal_with_fuel(pow256, 17);
    }
    lemma_ordered_round_trip(u128_of_i128(v) as nat, 16, e);
    lemma_i128_round_trip(v);
}

/// Round trip: decoding the encoding of any `isize` under either byte
/// order yields the value again.
pub proof fn lemma_round_trip_isize(v: isize, e: Endian)
    ensures
        <isize as Deserialize>::of_wire(v.wire(e), e) == v,
{
    lemma_pow256_usize();
    lemma_ordered_round_trip(usize_of_isize(v) as nat, usize_width(), e);
    lemma_isize_round_trip(v);
}

/// Round trip for `bool`: the canonical encoding of either truth value
/// decodes to it again, under either byte order.
pub proof fn lemma_round_trip_bool(v: bool, e: Endian)
    ensures
        <bool as Deserialize>::of_wire(v.wire(e), e) == v,
{
}

/// Round trip for a version-4 address, under either byte order.
pub proof fn lemma_round_trip_ipv4(v: Ipv4, e: Endian)
    ensures
        <Ipv4 as Deserialize>::of_wire(v.wire(e), e) == v,
{
}

/// Round trip for a version-6 address, under either byte order.
pub proof fn lemma_round_trip_ipv6(v: Ipv6, e: Endian)
    ensures
        <Ipv6 as Deserialize>::of_wire(v.wire(e), e) == v,
{
}

/// The big-endian byte string of a value is the byte-wise reverse of its
/// little-endian byte string, at every width.
pub proof fn lemma_cross_order_reverse(v: nat, n: nat)
    ensures
        ordered_bytes(v, n, Endian::Big) == ordered_bytes(v, n, Endian::Little).reverse(),
{
}

/// The two byte orders of a `u8` are byte-wise reverses of one another.
pub proof fn lemma_cross_order_u8(v: u8)
    ensures
        v.wire(Endian::Big) == v.wire(Endian::Little).reverse(),
{
}

/// The two byte orders of a `u16` are byte-wise reverses of one another.
pub proof fn lemma_cross_order_u16(v: u16)
    ensures
        v.wire(Endian::Big) == v.wire(Endian::Little).reverse(),
{
}

/// The two byte orders of a `u32` are byte-wise reverses of one another.
pub proof fn lemma_cross_order_u32(v: u32)
    ensures
        v.wire(Endian::Big) == v.wire(Endian::Little).reverse(),
{
}

/// The two byte orders of a `u64` are byte-wise reverses of one another.
pub proof fn lemma_cross_order_u64(v: u64)
    ensures
        v.wire(Endian::Big) == v.wire(Endian::Little).reverse(),
{
}

/// The two byte orders of a `u128` are byte-wise reverses of one another.
pub proof fn lemma_cross_order_u128(v: u128)
    ensures
        v.wire(Endian::Big) == v.wire(Endian::Little).reverse(),
{
}

/// The two byte orders of an `i8` are byte-wise reverses of one another.
pub proof fn lemma_cross_order_i8(v: i8)
    ensures
        v.wire(Endian::Big) == v.wire(Endian::Little).reverse(),
{
}

/// The two byte orders of an `i16` are byte-wise reverses of one another.
pub proof fn lemma_cross_order_i16(v: i16)
    ensures
        v.wire(Endian::Big) == v.wire(Endian::Little).reverse(),
{
}

/// The two byte orders of an `i32` are byte-wise reverses of one another.
pub proof fn lemma_cross_order_i32(v: i32)
    ensures
        v.wire(Endian::Big) == v.wire(Endian::Little).reverse(),
{
}

/// The two byte orders of an `i64` are byte-wise reverses of one another.
pub proof fn lemma_cross_order_i64(v: i64)
    ensures
        v.wire(Endian::Big) == v.wire(Endian::Little).reverse(),
{
}

/// The two byte orders of an `i128` are byte-wise reverses of one another.
pub proof fn lemma_cross_order_i128(v: i128)
    ensures
        v.wire(Endian::Big) == v.wire(Endian::Little).reverse(),
{
}

/// The two byte orders of a `usize` are byte-wise reverses of one another.
pub proof fn lemma_cross_order_usize(v: usize)
    ensures
        v.wire(Endian::Big) == v.wire(Endian::Little).reverse(),
{
}

/// The two byte orders of an `isize` are byte-wise reverses of one another.
pub proof fn lemma_cross_order_isize(v: isize)
    ensures
        v.wire(Endian::Big) == v.wire(Endian::Little).reverse(),
{
}

/// Addresses are raw byte sequences: the requested word byte-order does
/// not change their encoding.
pub proof fn lemma_order_blind_ipv4(v: Ipv4, e: Endian)
    ensures
        v.wire(e) == v.wire(Endian::Little),
{
}

/// Addresses are raw byte sequences: the requested word byte-order does
/// not change their encoding.
pub proof fn lemma_order_blind_ipv6(v: Ipv6, e: Endian)
    ensures
        v.wire(e) == v.wire(Endian::Little),
{
}

/// A boolean is one byte under every byte order.
pub proof fn lemma_order_blind_bool(v: bool, e: Endian)
    ensures
        v.wire(e) == v.wire(Endian::Little),
{
}

/// The documented ambiguity of the absence encoding: an absent value and a
/// present sentinel encode to identical bytes.
pub proof fn lemma_option_sentinel_ambiguity<T: Serialize + Sentinel>(e: Endian)
    ensures
        (None::<T>).wire(e) == (Some(T::sentinel_spec())).wire(e),
{
}

/// Decoding an optional value never yields a present sentinel: a sentinel
/// on the wire is always read as absent.
pub proof fn lemma_option_decode_absent<T: Deserialize + Sentinel>(bytes: Seq<u8>, e: Endian)
    ensures
        <Option<T> as Deserialize>::of_wire(bytes, e) matches Some(t) ==> t != T::sentinel_spec(),
        <Option<T> as Deserialize>::of_wire(bytes, e) is None <==> <T as Deserialize>::of_wire(
            bytes,
            e,
        ) == T::sentinel_spec(),
{
}

/// Round trip for optional values, away from the sentinel: any present
/// value other than the sentinel, and absence itself, decode back exactly.
/// A present sentinel instead comes back as absent: the one lossy case.
pub proof fn lemma_round_trip_option_u8(v: Option<u8>, e: Endian)
    requires
        v matches Some(t) ==> t != 0,
    ensures
        <Option<u8> as Deserialize>::of_wire(v.wire(e), e) == v,
{
    match v {
        Some(t) => lemma_round_trip_u8(t, e),
        None => lemma_round_trip_u8(0, e),
    }
}

/// Every field value occupies exactly its field type's width on the wire.
pub proof fn lemma_value_wire_len(v: Value, t: FieldType, e: Endian)
    requires
        value_fits(v, t),
    ensures
        v.wire(e).len() == type_len(t),
{
    match v {
        Value::U8(x) => lemma_ordered_bytes_len(x as nat, 1, e),
        Value::U16(x) => lemma_ordered_bytes_len(x as nat, 2, e),
        Value::U32(x) => lemma_ordered_bytes_len(x as nat, 4, e),
        Value::U64(x) => lemma_ordered_bytes_len(x as nat, 8, e),
        Value::U128(x) => lemma_ordered_bytes_len(x as nat, 16, e),
        Value::I8(x) => lemma_ordered_bytes_len(u8_of_i8(x) as nat, 1, e),
        Value::I16(x) => lemma_ordered_bytes_len(u16_of_i16(x) as nat, 2, e),
        Value::I32(x) => lemma_ordered_bytes_len(u32_of_i32(x) as nat, 4, e),
        Value::I64(x) => lemma_ordered_bytes_len(u64_of_i64(x) as nat, 8, e),
        Value::I128(x) => lemma_ordered_bytes_len(u128_of_i128(x) as nat, 16, e),
        Value::Bool(_) => {},
        Value::Ip4(_) => {},
        Value::Ip6(_) => {},
    }
}

/// Round trip for one field value of its declared type.
pub proof fn lemma_value_round_trip(v: Value, t: FieldType, e: Endian)
    requires
        value_fits(v, t),
    ensures
        value_of_wire(t, v.wire(e), e) == v,
{
    match v {
        Value::U8(x) => lemma_round_trip_u8(x, e),
        Value::U16(x) => lemma_round_trip_u16(x, e),
        Value::U32(x) => lemma_round_trip_u32(x, e),
        Value::U64(x) => lemma_round_trip_u64(x, e),
        Value::U128(x) => lemma_round_trip_u128(x, e),
        Value::I8(x) => lemma_round_trip_i8(x, e),
        Value::I16(x) => lemma_round_trip_i16(x, e),
        Value::I32(x) => lemma_round_trip_i32(x, e),
        Value::I64(x) => lemma_round_trip_i64(x, e),
        Value::I128(x) => lemma_round_trip_i128(x, e),
        Value::Bool(x) => lemma_round_trip_bool(x, e),
        Value::Ip4(x) => lemma_round_trip_ipv4(x, e),
        Value::Ip6(x) => lemma_round_trip_ipv6(x, e),
    }
}

/// Round trip for whole records: decoding the field-by-field encoding of a
/// record value of the schema's types, under the same byte order, yields
/// the same field values in the same order.
pub proof fn lemma_record_round_trip(fs: Seq<Field>, vs: Seq<Value>, e: Endian)
    requires
        values_match(vs, fs),
    ensures
        record_of_wire(fs, seq_wire(vs, e), e) == vs,
    decreases fs.len(),
{
    if fs.len() == 0 {
        assert(record_of_wire(fs, seq_wire(vs, e), e) =~= vs);
    } else {
        let tl = type_len(fs.first().ty) as int;
        let bytes = seq_wire(vs, e);
        assert(value_fits(vs[0], fs[0].ty));
        lemma_value_wire_len(vs.first(), fs.first().ty, e);
        assert(bytes == vs.first().wire(e) + seq_wire(vs.drop_first(), e));
        assert(bytes.take(tl) =~= vs.first().wire(e));
        assert(bytes.skip(tl) =~= seq_wire(vs.drop_first(), e));
        lemma_value_round_trip(vs.first(), fs.first().ty, e);
        assert(values_match(vs.drop_first(), fs.drop_first())) by {
            assert(forall|i: int|
                0 <= i < vs.drop_first().len() ==> #[trigger] value_fits(
                    vs.drop_first()[i],
                    fs.drop_first()[i].ty,
                ) == value_fits(vs[i + 1], fs[i + 1].ty));
        }
        lemma_record_round_trip(fs.drop_first(), vs.drop_first(), e);
        assert(record_of_wire(fs, bytes, e) =~= vs);
    }
}

} // verus!

