//! The Decode capability: a type that can materialize itself by consuming
//! bytes from a byte source. Every implementation pins down, in `of_wire`,
//! exactly which value a given byte string decodes to.

use vstd::prelude::*;

verus! {

use crate::addr::{Ipv4, Ipv6};
use crate::bytes::{
    i128_of_u128, i16_of_u16, i32_of_u32, i64_of_u64, i8_of_u8, isize_of_usize, le_value_exec,
    lemma_le_value_bound, lemma_pow256_usize, ordered_value, pow256, reversed, u128_to_i128,
    u16_to_i16, u32_to_i32, u64_to_i64, u8_to_i8, usize_to_isize, usize_width, usize_width_exec,
};
use crate::native_is_little;
use crate::sentinel::Sentinel;
use crate::source::ByteSource;
use crate::{Endian, WireError};

/// A type that can decode itself from a byte source. Every decodable type
/// occupies a fixed number of bytes on the wire, `wire_len`; sequences have
/// no decode entry because their element count is not recoverable from the
/// byte stream alone.
/// What one decode call did to a source, apart from the value itself: the
/// underlying bytes are untouched; the call succeeded exactly when a whole
/// value's worth of bytes was left, in which case the cursor moved past
/// those bytes; a failed decode moves nothing.
pub open spec fn took_shape(pre: ByteSource, post: ByteSource, ok: bool, width: nat) -> bool {
    &&& post.wf()
    &&& post.data() == pre.data()
    &&& (ok <==> pre.remaining() >= width)
    &&& (ok ==> post.pos() == pre.pos() + width)
    &&& (!ok ==> post == pre)
}

/// The `width` bytes in front of the cursor: the ones a decode consumes.
pub open spec fn ahead(pre: ByteSource, width: nat) -> Seq<u8> {
    pre.data().subrange(pre.pos() as int, pre.pos() as int + width)
}

/// A type that can decode itself from a byte source. Every decodable type
/// occupies a fixed number of bytes on the wire, `wire_len`; sequences have
/// no decode entry because their element count is not recoverable from the
/// byte stream alone. A failed decode yields no partial value.
pub trait Deserialize: Sized {
    /// How many bytes one value occupies on the wire.
    spec fn wire_len() -> nat;

    /// The value a `wire_len`-byte string decodes to under byte order `e`.
    spec fn of_wire(bytes: Seq<u8>, e: Endian) -> Self;

    /// Decodes under the platform's native byte order, whichever of the two
    /// concrete orders that is.
    fn deserialize_ne(reader: &mut ByteSource) -> (r: Result<Self, WireError>)
        requires
            old(reader).wf(),
        ensures
            took_shape(*old(reader), *final(reader), r is Ok, Self::wire_len()),
            r matches Ok(v) ==> v == Self::of_wire(ahead(*old(reader), Self::wire_len()), Endian::Little)
                || v == Self::of_wire(ahead(*old(reader), Self::wire_len()), Endian::Big),
            r is Err ==> r == Err::<Self, WireError>(WireError::UnexpectedEnd),
    ;

    /// Decodes least significant byte first.
    fn deserialize_le(reader: &mut ByteSource) -> (r: Result<Self, WireError>)
        requires
            old(reader).wf(),
        ensures
            took_shape(*old(reader), *final(reader), r is Ok, Self::wire_len()),
            r matches Ok(v) ==> v == Self::of_wire(
                ahead(*old(reader), Self::wire_len()),
                Endian::Little,
            ),
            r is Err ==> r == Err::<Self, WireError>(WireError::UnexpectedEnd),
    ;

    /// Decodes most significant byte first.
    fn deserialize_be(reader: &mut ByteSource) -> (r: Result<Self, WireError>)
        requires
            old(reader).wf(),
        ensures
            took_shape(*old(reader), *final(reader), r is Ok, Self::wire_len()),
            r matches Ok(v) ==> v == Self::of_wire(
                ahead(*old(reader), Self::wire_len()),
                Endian::Big,
            ),
            r is Err ==> r == Err::<Self, WireError>(WireError::UnexpectedEnd),
    ;
}

impl Deserialize for u8 {
    open spec fn wire_len() -> nat {
        1
    }

    open spec fn of_wire(bytes: Seq<u8>, e: Endian) -> u8 {
        ordered_value(bytes, e) as u8
    }

    fn deserialize_ne(reader: &mut ByteSource) -> (r: Result<u8, WireError>) {
        if native_is_little() {
            Self::deserialize_le(reader)
        } else {
            Self::deserialize_be(reader)
        }
    }

    fn deserialize_le(reader: &mut ByteSource) -> (r: Result<u8, WireError>) {
        match reader.read_exact(1) {
            Ok(b) => {
                proof {
                    lemma_le_value_bound(b@);
                    assert(pow256(1) == 0x100) by {
                        reveal_with_fuel(pow256, 2);
                    }
                }
                let x = le_value_exec(&b);
                Ok(x as u8)
            },
            Err(_) => Err(WireError::UnexpectedEnd),
        }
    }

    fn deserialize_be(reader: &mut ByteSource) -> (r: Result<u8, WireError>) {
        match reader.read_exact(1) {
            Ok(b) => {
                let rev = reversed(&b);
                proof {
                    lemma_le_value_bound(rev@);
                    assert(pow256(1) == 0x100) by {
                        reveal_with_fuel(pow256, 2);
                    }
                }
                let x = le_value_exec(&rev);
                Ok(x as u8)
            },
            Err(_) => Err(WireError::UnexpectedEnd),
        }
    }
}

impl Deserialize for u16 {
    open spec fn wire_len() -> nat {
        2
    }

    open spec fn of_wire(bytes: Seq<u8>, e: Endian) -> u16 {
        ordered_value(bytes, e) as u16
    }

    fn deserialize_ne(reader: &mut ByteSource) -> (r: Result<u16, WireError>) {
        if native_is_little() {
            Self::deserialize_le(reader)
        } else {
            Self::deserialize_be(reader)
        }
    }

    fn deserialize_le(reader: &mut ByteSource) -> (r: Result<u16, WireError>) {
        match reader.read_exact(2) {
            Ok(b) => {
                proof {
                    lemma_le_value_bound(b@);
                    assert(pow256(2) == 0x1_0000) by {
                        reveal_with_fuel(pow256, 3);
                    }
                }
                let x = le_value_exec(&b);
                Ok(x as u16)
            },
            Err(_) => Err(WireError::UnexpectedEnd),
        }
    }

    fn deserialize_be(reader: &mut ByteSource) -> (r: Result<u16, WireError>) {
        match reader.read_exact(2) {
            Ok(b) => {
                let rev = reversed(&b);
                proof {
                    lemma_le_value_bound(rev@);
                    assert(pow256(2) == 0x1_0000) by {
                        reveal_with_fuel(pow256, 3);
                    }
                }
                let x = le_value_exec(&rev);
                Ok(x as u16)
            },
            Err(_) => Err(WireError::UnexpectedEnd),
        }
    }
}

impl Deserialize for u32 {
    open spec fn wire_len() -> nat {
        4
    }

    open spec fn of_wire(bytes: Seq<u8>, e: Endian) -> u32 {
        ordered_value(bytes, e) as u32
    }

    fn deserialize_ne(reader: &mut ByteSource) -> (r: Result<u32, WireError>) {
        if native_is_little() {
            Self::deserialize_le(reader)
        } else {
            Self::deserialize_be(reader)
        }
    }

    fn deserialize_le(reader: &mut ByteSource) -> (r: Result<u32, WireError>) {
        match reader.read_exact(4) {
            Ok(b) => {
                proof {
                    lemma_le_value_bound(b@);
                    assert(pow256(4) == 0x1_0000_0000) by {
                        reveal_with_fuel(pow256, 5);
                    }
                }
                let x = le_value_exec(&b);
                Ok(x as u32)
            },
            Err(_) => Err(WireError::UnexpectedEnd),
        }
    }

    fn deserialize_be(reader: &mut ByteSource) -> (r: Result<u32, WireError>) {
        match reader.read_exact(4) {
            Ok(b) => {
                let rev = reversed(&b);
                proof {
                    lemma_le_value_bound(rev@);
                    assert(pow256(4) == 0x1_0000_0000) by {
                        reveal_with_fuel(pow256, 5);
                    }
                }
                let x = le_value_exec(&rev);
                Ok(x as u32)
            },
            Err(_) => Err(WireError::UnexpectedEnd),
        }
    }
}

impl Deserialize for u64 {
    open spec fn wire_len() -> nat {
        8
    }

    open spec fn of_wire(bytes: Seq<u8>, e: Endian) -> u64 {
        ordered_value(bytes, e) as u64
    }

    fn deserialize_ne(reader: &mut ByteSource) -> (r: Result<u64, WireError>) {
        if native_is_little() {
            Self::deserialize_le(reader)
        } else {
            Self::deserialize_be(reader)
        }
    }

    fn deserialize_le(reader: &mut ByteSource) -> (r: Result<u64, WireError>) {
        match reader.read_exact(8) {
            Ok(b) => {
                proof {
                    lemma_le_value_bound(b@);
                    assert(pow256(8) == 0x1_0000_0000_0000_0000) by {
                        reveal_with_fuel(pow256, 9);
                    }
                }
                let x = le_value_exec(&b);
                Ok(x as u64)
            },
            Err(_) => Err(WireError::UnexpectedEnd),
        }
    }

    fn deserialize_be(reader: &mut ByteSource) -> (r: Result<u64, WireError>) {
        match reader.read_exact(8) {
            Ok(b) => {
                let rev = reversed(&b);
                proof {
                    lemma_le_value_bound(rev@);
                    assert(pow256(8) == 0x1_0000_0000_0000_0000) by {
                        reveal_with_fuel(pow256, 9);
                    }
                }
                let x = le_value_exec(&rev);
                Ok(x as u64)
            },
            Err(_) => Err(WireError::UnexpectedEnd),
        }
    }
}

impl Deserialize for u128 {
    open spec fn wire_len() -> nat {
        16
    }

    open spec fn of_wire(bytes: Seq<u8>, e: Endian) -> u128 {
        ordered_value(bytes, e) as u128
    }

    fn deserialize_ne(reader: &mut ByteSource) -> (r: Result<u128, WireError>) {
        if native_is_little() {
            Self::deserialize_le(reader)
        } else {
            Self::deserialize_be(reader)
        }
    }

    fn deserialize_le(reader: &mut ByteSource) -> (r: Result<u128, WireError>) {
        match reader.read_exact(16) {
            Ok(b) => {
                proof {
                    lemma_le_value_bound(b@);
                    assert(pow256(16) == 0x1_0000_0000_0000_0000_0000_0000_0000_0000) by {
                        reveal_with_fuel(pow256, 17);
                    }
                }
                let x = le_value_exec(&b);
                Ok(x as u128)
            },
            Err(_) => Err(WireError::UnexpectedEnd),
        }
    }

    fn deserialize_be(reader: &mut ByteSource) -> (r: Result<u128, WireError>) {
        match reader.read_exact(16) {
            Ok(b) => {
                let rev = reversed(&b);
                proof {
                    lemma_le_value_bound(rev@);
                    assert(pow256(16) == 0x1_0000_0000_0000_0000_0000_0000_0000_0000) by {
                        reveal_with_fuel(pow256, 17);
                    }
                }
                let x = le_value_exec(&rev);
                Ok(x as u128)
            },
            Err(_) => Err(WireError::UnexpectedEnd),
        }
    }
}

impl Deserialize for usize {
    open spec fn wire_len() -> nat {
        usize_width()
    }

    open spec fn of_wire(bytes: Seq<u8>, e: Endian) -> usize {
        ordered_value(bytes, e) as usize
    }

    fn deserialize_ne(reader: &mut ByteSource) -> (r: Result<usize, WireError>) {
        if native_is_little() {
            Self::deserialize_le(reader)
        } else {
            Self::deserialize_be(reader)
        }
    }

    fn deserialize_le(reader: &mut ByteSource) -> (r: Result<usize, WireError>) {
        let w = usize_width_exec();
        match reader.read_exact(w) {
            Ok(b) => {
                proof {
                    lemma_le_value_bound(b@);
                    lemma_pow256_usize();
                }
                let x = le_value_exec(&b);
                Ok(x as usize)
            },
            Err(_) => Err(WireError::UnexpectedEnd),
        }
    }

    fn deserialize_be(reader: &mut ByteSource) -> (r: Result<usize, WireError>) {
        let w = usize_width_exec();
        match reader.read_exact(w) {
            Ok(b) => {
                let rev = reversed(&b);
                proof {
                    lemma_le_value_bound(rev@);
                    lemma_pow256_usize();
                }
                let x = le_value_exec(&rev);
                Ok(x as usize)
            },
            Err(_) => Err(WireError::UnexpectedEnd),
        }
    }
}

impl Deserialize for i8 {
    open spec fn wire_len() -> nat {
        1
    }

    open spec fn of_wire(bytes: Seq<u8>, e: Endian) -> i8 {
        i8_of_u8(ordered_value(bytes, e) as u8)
    }

    fn deserialize_ne(reader: &mut ByteSource) -> (r: Result<i8, WireError>) {
        if native_is_little() {
            Self::deserialize_le(reader)
        } else {
            Self::deserialize_be(reader)
        }
    }

    fn deserialize_le(reader: &mut ByteSource) -> (r: Result<i8, WireError>) {
        match reader.read_exact(1) {
            Ok(b) => {
                proof {
                    lemma_le_value_bound(b@);
                    assert(pow256(1) == 0x100) by {
                        reveal_with_fuel(pow256, 2);
                    }
                }
                let x = le_value_exec(&b);
                Ok(u8_to_i8(x as u8))
            },
            Err(_) => Err(WireError::UnexpectedEnd),
        }
    }

    fn deserialize_be(reader: &mut ByteSource) -> (r: Result<i8, WireError>) {
        match reader.read_exact(1) {
            Ok(b) => {
                let rev = reversed(&b);
                proof {
                    lemma_le_value_bound(rev@);
                    assert(pow256(1) == 0x100) by {
                        reveal_with_fuel(pow256, 2);
                    }
                }
                let x = le_value_exec(&rev);
                Ok(u8_to_i8(x as u8))
            },
            Err(_) => Err(WireError::UnexpectedEnd),
        }
    }
}

impl Deserialize for i16 {
    open spec fn wire_len() -> nat {
        2
    }

    open spec fn of_wire(bytes: Seq<u8>, e: Endian) -> i16 {
        i16_of_u16(ordered_value(bytes, e) as u16)
    }

    fn deserialize_ne(reader: &mut ByteSource) -> (r: Result<i16, WireError>) {
        if native_is_little() {
            Self::deserialize_le(reader)
        } else {
            Self::deserialize_be(reader)
        }
    }

    fn deserialize_le(reader: &mut ByteSource) -> (r: Result<i16, WireError>) {
        match reader.read_exact(2) {
            Ok(b) => {
                proof {
                    lemma_le_value_bound(b@);
                    assert(pow256(2) == 0x1_0000) by {
                        reveal_with_fuel(pow256, 3);
                    }
                }
                let x = le_value_exec(&b);
                Ok(u16_to_i16(x as u16))
            },
            Err(_) => Err(WireError::UnexpectedEnd),
        }
    }

    fn deserialize_be(reader: &mut ByteSource) -> (r: Result<i16, WireError>) {
        match reader.read_exact(2) {
            Ok(b) => {
                let rev = reversed(&b);
                proof {
                    lemma_le_value_bound(rev@);
                    assert(pow256(2) == 0x1_0000) by {
                        reveal_with_fuel(pow256, 3);
                    }
                }
                let x = le_value_exec(&rev);
                Ok(u16_to_i16(x as u16))
            },
            Err(_) => Err(WireError::UnexpectedEnd),
        }
    }
}

impl Deserialize for i32 {
    open spec fn wire_len() -> nat {
        4
    }

    open spec fn of_wire(bytes: Seq<u8>, e: Endian) -> i32 {
        i32_of_u32(ordered_value(bytes, e) as u32)
    }

    fn deserialize_ne(reader: &mut ByteSource) -> (r: Result<i32, WireError>) {
        if native_is_little() {
            Self::deserialize_le(reader)
        } else {
            Self::deserialize_be(reader)
        }
    }

    fn deserialize_le(reader: &mut ByteSource) -> (r: Result<i32, WireError>) {
        match reader.read_exact(4) {
            Ok(b) => {
                proof {
                    lemma_le_value_bound(b@);
                    assert(pow256(4) == 0x1_0000_0000) by {
                        reveal_with_fuel(pow256, 5);
                    }
                }
                let x = le_value_exec(&b);
                Ok(u32_to_i32(x as u32))
            },
            Err(_) => Err(WireError::UnexpectedEnd),
        }
    }

    fn deserialize_be(reader: &mut ByteSource) -> (r: Result<i32, WireError>) {
        match reader.read_exact(4) {
            Ok(b) => {
                let rev = reversed(&b);
                proof {
                    lemma_le_value_bound(rev@);
                    assert(pow256(4) == 0x1_0000_0000) by {
                        reveal_with_fuel(pow256, 5);
                    }
                }
                let x = le_value_exec(&rev);
                Ok(u32_to_i32(x as u32))
            },
            Err(_) => Err(WireError::UnexpectedEnd),
        }
    }
}

impl Deserialize for i64 {
    open spec fn wire_len() -> nat {
        8
    }

    open spec fn of_wire(bytes: Seq<u8>, e: Endian) -> i64 {
        i64_of_u64(ordered_value(bytes, e) as u64)
    }

    fn deserialize_ne(reader: &mut ByteSource) -> (r: Result<i64, WireError>) {
        if native_is_little() {
            Self::deserialize_le(reader)
        } else {
            Self::deserialize_be(reader)
        }
    }

    fn deserialize_le(reader: &mut ByteSource) -> (r: Result<i64, WireError>) {
        match reader.read_exact(8) {
            Ok(b) => {
                proof {
                    lemma_le_value_bound(b@);
                    assert(pow256(8) == 0x1_0000_0000_0000_0000) by {
                        reveal_with_fuel(pow256, 9);
                    }
                }
                let x = le_value_exec(&b);
                Ok(u64_to_i64(x as u64))
            },
            Err(_) => Err(WireError::UnexpectedEnd),
        }
    }

    fn deserialize_be(reader: &mut ByteSource) -> (r: Result<i64, WireError>) {
        match reader.read_exact(8) {
            Ok(b) => {
                let rev = reversed(&b);
                proof {
                    lemma_le_value_bound(rev@);
                    assert(pow256(8) == 0x1_0000_0000_0000_0000) by {
                        reveal_with_fuel(pow256, 9);
                    }
                }
                let x = le_value_exec(&rev);
                Ok(u64_to_i64(x as u64))
            },
            Err(_) => Err(WireError::UnexpectedEnd),
        }
    }
}

impl Deserialize for i128 {
    open spec fn wire_len() -> nat {
        16
    }

    open spec fn of_wire(bytes: Seq<u8>, e: Endian) -> i128 {
        i128_of_u128(ordered_value(bytes, e) as u128)
    }

    fn deserialize_ne(reader: &mut ByteSource) -> (r: Result<i128, WireError>) {
        if native_is_little() {
            Self::deserialize_le(reader)
        } else {
            Self::deserialize_be(reader)
        }
    }

    fn deserialize_le(reader: &mut ByteSource) -> (r: Result<i128, WireError>) {
        match reader.read_exact(16) {
            Ok(b) => {
                proof {
                    lemma_le_value_bound(b@);
                    assert(pow256(16) == 0x1_0000_0000_0000_0000_0000_0000_0000_0000) by {
                        reveal_with_fuel(pow256, 17);
                    }
                }
                let x = le_value_exec(&b);
                Ok(u128_to_i128(x as u128))
            },
            Err(_) => Err(WireError::UnexpectedEnd),
        }
    }

    fn deserialize_be(reader: &mut ByteSource) -> (r: Result<i128, WireError>) {
        match reader.read_exact(16) {
            Ok(b) => {
                let rev = reversed(&b);
                proof {
                    lemma_le_value_bound(rev@);
                    assert(pow256(16) == 0x1_0000_0000_0000_0000_0000_0000_0000_0000) by {
                        reveal_with_fuel(pow256, 17);
                    }
                }
                let x = le_value_exec(&rev);
                Ok(u128_to_i128(x as u128))
            },
            Err(_) => Err(WireError::UnexpectedEnd),
        }
    }
}

impl Deserialize for isize {
    open spec fn wire_len() -> nat {
        usize_width()
    }

    open spec fn of_wire(bytes: Seq<u8>, e: Endian) -> isize {
        isize_of_usize(ordered_value(bytes, e) as usize)
    }

    fn deserialize_ne(reader: &mut ByteSource) -> (r: Result<isize, WireError>) {
        if native_is_little() {
            Self::deserialize_le(reader)
        } else {
            Self::deserialize_be(reader)
        }
    }

    fn deserialize_le(reader: &mut ByteSource) -> (r: Result<isize, WireError>) {
        let w = usize_width_exec();
        match reader.read_exact(w) {
            Ok(b) => {
                proof {
                    lemma_le_value_bound(b@);
                    lemma_pow256_usize();
                }
                let x = le_value_exec(&b);
                Ok(usize_to_isize(x as usize))
            },
            Err(_) => Err(WireError::UnexpectedEnd),
        }
    }

    fn deserialize_be(reader: &mut ByteSource) -> (r: Result<isize, WireError>) {
        let w = usize_width_exec();
        match reader.read_exact(w) {
            Ok(b) => {
                let rev = reversed(&b);
                proof {
                    lemma_le_value_bound(rev@);
                    lemma_pow256_usize();
                }
                let x = le_value_exec(&rev);
                Ok(usize_to_isize(x as usize))
            },
            Err(_) => Err(WireError::UnexpectedEnd),
        }
    }
}

impl Deserialize for bool {
    open spec fn wire_len() -> nat {
        1
    }

    open spec fn of_wire(bytes: Seq<u8>, e: Endian) -> bool {
        bytes[0] != 0
    }

    fn deserialize_ne(reader: &mut ByteSource) -> (r: Result<bool, WireError>) {
        Self::deserialize_le(reader)
    }

    fn deserialize_le(reader: &mut ByteSource) -> (r: Result<bool, WireError>) {
        match reader.read_exact(1) {
            Ok(b) => Ok(b[0] != 0),
            Err(_) => Err(WireError::UnexpectedEnd),
        }
    }

    fn deserialize_be(reader: &mut ByteSource) -> (r: Result<bool, WireError>) {
        match reader.read_exact(1) {
            Ok(b) => Ok(b[0] != 0),
            Err(_) => Err(WireError::UnexpectedEnd),
        }
    }
}

impl Deserialize for Ipv4 {
    open spec fn wire_len() -> nat {
        4
    }

    open spec fn of_wire(bytes: Seq<u8>, e: Endian) -> Ipv4 {
        Ipv4 { o0: bytes[0], o1: bytes[1], o2: bytes[2], o3: bytes[3] }
    }

    fn deserialize_ne(reader: &mut ByteSource) -> (r: Result<Ipv4, WireError>) {
        Self::deserialize_le(reader)
    }

    fn deserialize_le(reader: &mut ByteSource) -> (r: Result<Ipv4, WireError>) {
        match reader.read_exact(4) {
            Ok(b) => Ok(Ipv4 { o0: b[0], o1: b[1], o2: b[2], o3: b[3] }),
            Err(_) => Err(WireError::UnexpectedEnd),
        }
    }

    fn deserialize_be(reader: &mut ByteSource) -> (r: Result<Ipv4, WireError>) {
        match reader.read_exact(4) {
            Ok(b) => Ok(Ipv4 { o0: b[0], o1: b[1], o2: b[2], o3: b[3] }),
            Err(_) => Err(WireError::UnexpectedEnd),
        }
    }
}

impl Deserialize for Ipv6 {
    open spec fn wire_len() -> nat {
        16
    }

    open spec fn of_wire(bytes: Seq<u8>, e: Endian) -> Ipv6 {
        Ipv6 {
            o0: bytes[0],
            o1: bytes[1],
            o2: bytes[2],
            o3: bytes[3],
            o4: bytes[4],
            o5: bytes[5],
            o6: bytes[6],
            o7: bytes[7],
            o8: bytes[8],
            o9: bytes[9],
            o10: bytes[10],
            o11: bytes[11],
            o12: bytes[12],
            o13: bytes[13],
            o14: bytes[14],
            o15: bytes[15],
        }
    }

    fn deserialize_ne(reader: &mut ByteSource) -> (r: Result<Ipv6, WireError>) {
        Self::deserialize_le(reader)
    }

    fn deserialize_le(reader: &mut ByteSource) -> (r: Result<Ipv6, WireError>) {
        match reader.read_exact(16) {
            Ok(b) => Ok(
                Ipv6 {
                    o0: b[0],
                    o1: b[1],
                    o2: b[2],
                    o3: b[3],
                    o4: b[4],
                    o5: b[5],
                    o6: b[6],
                    o7: b[7],
                    o8: b[8],
                    o9: b[9],
                    o10: b[10],
                    o11: b[11],
                    o12: b[12],
                    o13: b[13],
                    o14: b[14],
                    o15: b[15],
                },
            ),
            Err(_) => Err(WireError::UnexpectedEnd),
        }
    }

    fn deserialize_be(reader: &mut ByteSource) -> (r: Result<Ipv6, WireError>) {
        match reader.read_exact(16) {
            Ok(b) => Ok(
                Ipv6 {
                    o0: b[0],
                    o1: b[1],
                    o2: b[2],
                    o3: b[3],
                    o4: b[4],
                    o5: b[5],
                    o6: b[6],
                    o7: b[7],
                    o8: b[8],
                    o9: b[9],
                    o10: b[10],
                    o11: b[11],
                    o12: b[12],
                    o13: b[13],
                    o14: b[14],
                    o15: b[15],
                },
            ),
            Err(_) => Err(WireError::UnexpectedEnd),
        }
    }
}

impl<T: Deserialize + Sentinel> Deserialize for Option<T> {
    open spec fn wire_len() -> nat {
        T::wire_len()
    }

    open spec fn of_wire(bytes: Seq<u8>, e: Endian) -> Option<T> {
        if T::of_wire(bytes, e) == T::sentinel_spec() {
            Option::None
        } else {
            Option::Some(T::of_wire(bytes, e))
        }
    }

    fn deserialize_ne(reader: &mut ByteSource) -> (r: Result<Option<T>, WireError>) {
        if native_is_little() {
            Self::deserialize_le(reader)
        } else {
            Self::deserialize_be(reader)
        }
    }

    fn deserialize_le(reader: &mut ByteSource) -> (r: Result<Option<T>, WireError>) {
        match T::deserialize_le(reader) {
            Ok(t) => if t.is_sentinel() {
                Ok(Option::None)
            } else {
                Ok(Option::Some(t))
            },
            Err(_) => Err(WireError::UnexpectedEnd),
        }
    }

    fn deserialize_be(reader: &mut ByteSource) -> (r: Result<Option<T>, WireError>) {
        match T::deserialize_be(reader) {
            Ok(t) => if t.is_sentinel() {
                Ok(Option::None)
            } else {
                Ok(Option::Some(t))
            },
            Err(_) => Err(WireError::UnexpectedEnd),
        }
    }
}

} // verus!
