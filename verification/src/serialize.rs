//! The Encode capability: a type that can write itself to a byte sink
//! under a chosen byte-order policy. Every implementation pins down, in
//! `wire`, the exact byte string it produces.

use vstd::prelude::*;

verus! {

use crate::addr::{Ipv4, Ipv6};
use crate::bytes::{
    be_vec, i128_to_u128, i16_to_u16, i32_to_u32, i64_to_u64, i8_to_u8, isize_to_usize, le_vec,
    ordered_bytes, u128_of_i128, u16_of_i16, u32_of_i32, u64_of_i64, u8_of_i8, usize_of_isize,
    usize_width, usize_width_exec,
};
use crate::native_is_little;
use crate::sentinel::Sentinel;
use crate::sink::{wrote, ByteSink};
use crate::{Endian, WireError};

/// A type that can encode itself to a byte sink. The three entry points
/// differ only in byte-order policy; a record or sequence encoded under one
/// policy encodes every part under that same policy.
pub trait Serialize {
    /// The exact byte string `self` encodes to under byte order `e`.
    spec fn wire(&self, e: Endian) -> Seq<u8>;

    /// Encodes under the platform's native byte order, whichever of the two
    /// concrete orders that is.
    fn serialize_ne(&self, writer: &mut ByteSink) -> (r: Result<(), WireError>)
        requires
            old(writer).wf(),
        ensures
            wrote(*old(writer), *final(writer), r, self.wire(Endian::Little)) || wrote(
                *old(writer),
                *final(writer),
                r,
                self.wire(Endian::Big),
            ),
    ;

    /// Encodes least significant byte first.
    fn serialize_le(&self, writer: &mut ByteSink) -> (r: Result<(), WireError>)
        requires
            old(writer).wf(),
        ensures
            wrote(*old(writer), *final(writer), r, self.wire(Endian::Little)),
    ;

    /// Encodes most significant byte first.
    fn serialize_be(&self, writer: &mut ByteSink) -> (r: Result<(), WireError>)
        requires
            old(writer).wf(),
        ensures
            wrote(*old(writer), *final(writer), r, self.wire(Endian::Big)),
    ;
}

/// The concatenation of each element's encoding, in index order, with no
/// separator, count or terminator.
pub open spec fn seq_wire<T: Serialize>(s: Seq<T>, e: Endian) -> Seq<u8>
    decreases s.len(),
{
    if s.len() == 0 {
        Seq::empty()
    } else {
        s.first().wire(e) + seq_wire(s.drop_first(), e)
    }
}

/// Encoding a concatenation of sequences is the concatenation of their
/// encodings.
pub proof fn lemma_seq_wire_concat<T: Serialize>(a: Seq<T>, b: Seq<T>, e: Endian)
    ensures
        seq_wire(a + b, e) == seq_wire(a, e) + seq_wire(b, e),
    decreases a.len(),
{
    if a.len() == 0 {
        assert(a + b =~= b);
        assert(seq_wire(a, e) + seq_wire(b, e) =~= seq_wire(b, e));
    } else {
        assert((a + b).len() > 0);
        assert((a + b).first() == a.first());
        assert((a + b).drop_first() =~= a.drop_first() + b);
        lemma_seq_wire_concat(a.drop_first(), b, e);
        assert(a.first().wire(e) + (seq_wire(a.drop_first(), e) + seq_wire(b, e)) =~= (a.first().wire(
            e,
        ) + seq_wire(a.drop_first(), e)) + seq_wire(b, e));
    }
}

/// One more element extends the encoding by that element's encoding.
pub proof fn lemma_seq_wire_take_next<T: Serialize>(s: Seq<T>, i: int, e: Endian)
    requires
        0 <= i < s.len(),
    ensures
        seq_wire(s.take(i + 1), e) == seq_wire(s.take(i), e) + s[i].wire(e),
{
    assert(s.take(i + 1) =~= s.take(i) + seq![s[i]]);
    lemma_seq_wire_concat(s.take(i), seq![s[i]], e);
    assert(seq![s[i]].first() == s[i]);
    assert(seq![s[i]].drop_first() =~= Seq::<T>::empty());
    assert(seq_wire(Seq::<T>::empty(), e) == Seq::<u8>::empty());
    assert(seq_wire(seq![s[i]], e) =~= s[i].wire(e));
}

/// The whole encoding is at least the encoding of a prefix plus the next
/// element's encoding.
pub proof fn lemma_seq_wire_split<T: Serialize>(s: Seq<T>, i: int, e: Endian)
    requires
        0 <= i < s.len(),
    ensures
        seq_wire(s, e).len() >= seq_wire(s.take(i), e).len() + s[i].wire(e).len(),
{
    assert(s =~= s.take(i + 1) + s.skip(i + 1));
    lemma_seq_wire_concat(s.take(i + 1), s.skip(i + 1), e);
    lemma_seq_wire_take_next(s, i, e);
}

impl Serialize for u8 {
    open spec fn wire(&self, e: Endian) -> Seq<u8> {
        ordered_bytes(*self as nat, 1, e)
    }

    fn serialize_ne(&self, writer: &mut ByteSink) -> (r: Result<(), WireError>) {
        if native_is_little() {
            self.serialize_le(writer)
        } else {
            self.serialize_be(writer)
        }
    }

    fn serialize_le(&self, writer: &mut ByteSink) -> (r: Result<(), WireError>) {
        let b = le_vec(*self as u128, 1);
        writer.write_all(&b)
    }

    fn serialize_be(&self, writer: &mut ByteSink) -> (r: Result<(), WireError>) {
        let b = be_vec(*self as u128, 1);
        writer.write_all(&b)
    }
}

impl Serialize for u16 {
    open spec fn wire(&self, e: Endian) -> Seq<u8> {
        ordered_bytes(*self as nat, 2, e)
    }

    fn serialize_ne(&self, writer: &mut ByteSink) -> (r: Result<(), WireError>) {
        if native_is_little() {
            self.serialize_le(writer)
        } else {
            self.serialize_be(writer)
        }
    }

    fn serialize_le(&self, writer: &mut ByteSink) -> (r: Result<(), WireError>) {
        let b = le_vec(*self as u128, 2);
        writer.write_all(&b)
    }

    fn serialize_be(&self, writer: &mut ByteSink) -> (r: Result<(), WireError>) {
        let b = be_vec(*self as u128, 2);
        writer.write_all(&b)
    }
}

impl Serialize for u32 {
    open spec fn wire(&self, e: Endian) -> Seq<u8> {
        ordered_bytes(*self as nat, 4, e)
    }

    fn serialize_ne(&self, writer: &mut ByteSink) -> (r: Result<(), WireError>) {
        if native_is_little() {
            self.serialize_le(writer)
        } else {
            self.serialize_be(writer)
        }
    }

    fn serialize_le(&self, writer: &mut ByteSink) -> (r: Result<(), WireError>) {
        let b = le_vec(*self as u128, 4);
        writer.write_all(&b)
    }

    fn serialize_be(&self, writer: &mut ByteSink) -> (r: Result<(), WireError>) {
        let b = be_vec(*self as u128, 4);
        writer.write_all(&b)
    }
}

impl Serialize for u64 {
    open spec fn wire(&self, e: Endian) -> Seq<u8> {
        ordered_bytes(*self as nat, 8, e)
    }

    fn serialize_ne(&self, writer: &mut ByteSink) -> (r: Result<(), WireError>) {
        if native_is_little() {
            self.serialize_le(writer)
        } else {
            self.serialize_be(writer)
        }
    }

    fn serialize_le(&self, writer: &mut ByteSink) -> (r: Result<(), WireError>) {
        let b = le_vec(*self as u128, 8);
        writer.write_all(&b)
    }

    fn serialize_be(&self, writer: &mut ByteSink) -> (r: Result<(), WireError>) {
        let b = be_vec(*self as u128, 8);
        writer.write_all(&b)
    }
}

impl Serialize for u128 {
    open spec fn wire(&self, e: Endian) -> Seq<u8> {
        ordered_bytes(*self as nat, 16, e)
    }

    fn serialize_ne(&self, writer: &mut ByteSink) -> (r: Result<(), WireError>) {
        if native_is_little() {
            self.serialize_le(writer)
        } else {
            self.serialize_be(writer)
        }
    }

    fn serialize_le(&self, writer: &mut ByteSink) -> (r: Result<(), WireError>) {
        let b = le_vec(*self as u128, 16);
        writer.write_all(&b)
    }

    fn serialize_be(&self, writer: &mut ByteSink) -> (r: Result<(), WireError>) {
        let b = be_vec(*self as u128, 16);
        writer.write_all(&b)
    }
}

impl Serialize for usize {
    open spec fn wire(&self, e: Endian) -> Seq<u8> {
        ordered_bytes(*self as nat, usize_width(), e)
    }

    fn serialize_ne(&self, writer: &mut ByteSink) -> (r: Result<(), WireError>) {
        if native_is_little() {
            self.serialize_le(writer)
        } else {
            self.serialize_be(writer)
        }
    }

    fn serialize_le(&self, writer: &mut ByteSink) -> (r: Result<(), WireError>) {
        let b = le_vec(*self as u128, usize_width_exec());
        writer.write_all(&b)
    }

    fn serialize_be(&self, writer: &mut ByteSink) -> (r: Result<(), WireError>) {
        let b = be_vec(*self as u128, usize_width_exec());
        writer.write_all(&b)
    }
}

impl Serialize for i8 {
    open spec fn wire(&self, e: Endian) -> Seq<u8> {
        ordered_bytes(u8_of_i8(*self) as nat, 1, e)
    }

    fn serialize_ne(&self, writer: &mut ByteSink) -> (r: Result<(), WireError>) {
        if native_is_little() {
            self.serialize_le(writer)
        } else {
            self.serialize_be(writer)
        }
    }

    fn serialize_le(&self, writer: &mut ByteSink) -> (r: Result<(), WireError>) {
        let b = le_vec(i8_to_u8(*self) as u128, 1);
        writer.write_all(&b)
    }

    fn serialize_be(&self, writer: &mut ByteSink) -> (r: Result<(), WireError>) {
        let b = be_vec(i8_to_u8(*self) as u128, 1);
        writer.write_all(&b)
    }
}

impl Serialize for i16 {
    open spec fn wire(&self, e: Endian) -> Seq<u8> {
        ordered_bytes(u16_of_i16(*self) as nat, 2, e)
    }

    fn serialize_ne(&self, writer: &mut ByteSink) -> (r: Result<(), WireError>) {
        if native_is_little() {
            self.serialize_le(writer)
        } else {
            self.serialize_be(writer)
        }
    }

    fn serialize_le(&self, writer: &mut ByteSink) -> (r: Result<(), WireError>) {
        let b = le_vec(i16_to_u16(*self) as u128, 2);
        writer.write_all(&b)
    }

    fn serialize_be(&self, writer: &mut ByteSink) -> (r: Result<(), WireError>) {
        let b = be_vec(i16_to_u16(*self) as u128, 2);
        writer.write_all(&b)
    }
}

impl Serialize for i32 {
    open spec fn wire(&self, e: Endian) -> Seq<u8> {
        ordered_bytes(u32_of_i32(*self) as nat, 4, e)
    }

    fn serialize_ne(&self, writer: &mut ByteSink) -> (r: Result<(), WireError>) {
        if native_is_little() {
            self.serialize_le(writer)
        } else {
            self.serialize_be(writer)
        }
    }

    fn serialize_le(&self, writer: &mut ByteSink) -> (r: Result<(), WireError>) {
        let b = le_vec(i32_to_u32(*self) as u128, 4);
        writer.write_all(&b)
    }

    fn serialize_be(&self, writer: &mut ByteSink) -> (r: Result<(), WireError>) {
        let b = be_vec(i32_to_u32(*self) as u128, 4);
        writer.write_all(&b)
    }
}

impl Serialize for i64 {
    open spec fn wire(&self, e: Endian) -> Seq<u8> {
        ordered_bytes(u64_of_i64(*self) as nat, 8, e)
    }

    fn serialize_ne(&self, writer: &mut ByteSink) -> (r: Result<(), WireError>) {
        if native_is_little() {
            self.serialize_le(writer)
        } else {
            self.serialize_be(writer)
        }
    }

    fn serialize_le(&self, writer: &mut ByteSink) -> (r: Result<(), WireError>) {
        let b = le_vec(i64_to_u64(*self) as u128, 8);
        writer.write_all(&b)
    }

    fn serialize_be(&self, writer: &mut ByteSink) -> (r: Result<(), WireError>) {
        let b = be_vec(i64_to_u64(*self) as u128, 8);
        writer.write_all(&b)
    }
}

impl Serialize for i128 {
    open spec fn wire(&self, e: Endian) -> Seq<u8> {
        ordered_bytes(u128_of_i128(*self) as nat, 16, e)
    }

    fn serialize_ne(&self, writer: &mut ByteSink) -> (r: Result<(), WireError>) {
        if native_is_little() {
            self.serialize_le(writer)
        } else {
            self.serialize_be(writer)
        }
    }

    fn serialize_le(&self, writer: &mut ByteSink) -> (r: Result<(), WireError>) {
        let b = le_vec(i128_to_u128(*self) as u128, 16);
        writer.write_all(&b)
    }

    fn serialize_be(&self, writer: &mut ByteSink) -> (r: Result<(), WireError>) {
        let b = be_vec(i128_to_u128(*self) as u128, 16);
        writer.write_all(&b)
    }
}

impl Serialize for isize {
    open spec fn wire(&self, e: Endian) -> Seq<u8> {
        ordered_bytes(usize_of_isize(*self) as nat, usize_width(), e)
    }

    fn serialize_ne(&self, writer: &mut ByteSink) -> (r: Result<(), WireError>) {
        if native_is_little() {
            self.serialize_le(writer)
        } else {
            self.serialize_be(writer)
        }
    }

    fn serialize_le(&self, writer: &mut ByteSink) -> (r: Result<(), WireError>) {
        let b = le_vec(isize_to_usize(*self) as u128, usize_width_exec());
        writer.write_all(&b)
    }

    fn serialize_be(&self, writer: &mut ByteSink) -> (r: Result<(), WireError>) {
        let b = be_vec(isize_to_usize(*self) as u128, usize_width_exec());
        writer.write_all(&b)
    }
}

impl Serialize for bool {
    open spec fn wire(&self, e: Endian) -> Seq<u8> {
        seq![if *self { 1u8 } else { 0u8 }]
    }

    fn serialize_ne(&self, writer: &mut ByteSink) -> (r: Result<(), WireError>) {
        self.serialize_le(writer)
    }

    fn serialize_le(&self, writer: &mut ByteSink) -> (r: Result<(), WireError>) {
        let mut b: Vec<u8> = Vec::new();
        b.push(if *self { 1u8 } else { 0u8 });
        proof {
            assert(b@ =~= self.wire(Endian::Little));
        }
        writer.write_all(&b)
    }

    fn serialize_be(&self, writer: &mut ByteSink) -> (r: Result<(), WireError>) {
        let mut b: Vec<u8> = Vec::new();
        b.push(if *self { 1u8 } else { 0u8 });
        proof {
            assert(b@ =~= self.wire(Endian::Big));
        }
        writer.write_all(&b)
    }
}

impl Serialize for Ipv4 {
    open spec fn wire(&self, e: Endian) -> Seq<u8> {
        self.octets_spec()
    }

    fn serialize_ne(&self, writer: &mut ByteSink) -> (r: Result<(), WireError>) {
        self.serialize_le(writer)
    }

    fn serialize_le(&self, writer: &mut ByteSink) -> (r: Result<(), WireError>) {
        let b = self.octet_vec();
        writer.write_all(&b)
    }

    fn serialize_be(&self, writer: &mut ByteSink) -> (r: Result<(), WireError>) {
        let b = self.octet_vec();
        writer.write_all(&b)
    }
}

impl Serialize for Ipv6 {
    open spec fn wire(&self, e: Endian) -> Seq<u8> {
        self.octets_spec()
    }

    fn serialize_ne(&self, writer: &mut ByteSink) -> (r: Result<(), WireError>) {
        self.serialize_le(writer)
    }

    fn serialize_le(&self, writer: &mut ByteSink) -> (r: Result<(), WireError>) {
        let b = self.octet_vec();
        writer.write_all(&b)
    }

    fn serialize_be(&self, writer: &mut ByteSink) -> (r: Result<(), WireError>) {
        let b = self.octet_vec();
        writer.write_all(&b)
    }
}

impl<T: Serialize + Sentinel> Serialize for Option<T> {
    open spec fn wire(&self, e: Endian) -> Seq<u8> {
        match *self {
            Option::Some(t) => t.wire(e),
            Option::None => T::sentinel_spec().wire(e),
        }
    }

    fn serialize_ne(&self, writer: &mut ByteSink) -> (r: Result<(), WireError>) {
        if native_is_little() {
            self.serialize_le(writer)
        } else {
            self.serialize_be(writer)
        }
    }

    fn serialize_le(&self, writer: &mut ByteSink) -> (r: Result<(), WireError>) {
        match self {
            Option::Some(t) => t.serialize_le(writer),
            Option::None => {
                let z = T::sentinel();
                z.serialize_le(writer)
            },
        }
    }

    fn serialize_be(&self, writer: &mut ByteSink) -> (r: Result<(), WireError>) {
        match self {
            Option::Some(t) => t.serialize_be(writer),
            Option::None => {
                let z = T::sentinel();
                z.serialize_be(writer)
            },
        }
    }
}

impl<T: Serialize> Serialize for Vec<T> {
    open spec fn wire(&self, e: Endian) -> Seq<u8> {
        seq_wire(self@, e)
    }

    fn serialize_ne(&self, writer: &mut ByteSink) -> (r: Result<(), WireError>) {
        if native_is_little() {
            self.serialize_le(writer)
        } else {
            self.serialize_be(writer)
        }
    }

    fn serialize_le(&self, writer: &mut ByteSink) -> (r: Result<(), WireError>) {
        serialize_elements_le(self.as_slice(), writer)
    }

    fn serialize_be(&self, writer: &mut ByteSink) -> (r: Result<(), WireError>) {
        serialize_elements_be(self.as_slice(), writer)
    }
}

impl<T: Serialize> Serialize for [T] {
    open spec fn wire(&self, e: Endian) -> Seq<u8> {
        seq_wire(self@, e)
    }

    fn serialize_ne(&self, writer: &mut ByteSink) -> (r: Result<(), WireError>) {
        if native_is_little() {
            self.serialize_le(writer)
        } else {
            self.serialize_be(writer)
        }
    }

    fn serialize_le(&self, writer: &mut ByteSink) -> (r: Result<(), WireError>) {
        serialize_elements_le(self, writer)
    }

    fn serialize_be(&self, writer: &mut ByteSink) -> (r: Result<(), WireError>) {
        serialize_elements_be(self, writer)
    }
}

/// Encodes each element in index order, little-endian, stopping at the
/// first write the sink rejects.
fn serialize_elements_le<T: Serialize>(items: &[T], writer: &mut ByteSink) -> (r: Result<
    (),
    WireError,
>)
    requires
        old(writer).wf(),
    ensures
        wrote(*old(writer), *final(writer), r, seq_wire(items@, Endian::Little)),
{
    let n = items.len();
    let mut i: usize = 0;
    while i < n
        invariant
            i <= n,
            n == items@.len(),
            writer.wf(),
            writer.cap() == old(writer).cap(),
            writer@ == old(writer)@ + seq_wire(items@.take(i as int), Endian::Little),
        decreases n - i,
    {
        let ghost pre = *writer;
        let item = &items[i];
        let r = item.serialize_le(writer);
        match r {
            Ok(_) => {
                proof {
                    lemma_seq_wire_take_next(items@, i as int, Endian::Little);
                }
                i = i + 1;
            },
            Err(err) => {
                proof {
                    lemma_seq_wire_split(items@, i as int, Endian::Little);
                    assert(old(writer)@.is_prefix_of(writer@)) by {
                        assert(pre@ =~= writer@.take(pre@.len() as int));
                        assert(old(writer)@ =~= writer@.take(old(writer)@.len() as int));
                    }
                }
                return Err(err);
            },
        }
    }
    proof {
        assert(items@.take(n as int) =~= items@);
        assert(old(writer)@.is_prefix_of(writer@)) by {
            assert(old(writer)@ =~= writer@.take(old(writer)@.len() as int));
        }
    }
    Ok(())
}

/// Encodes each element in index order, big-endian, stopping at the first
/// write the sink rejects.
fn serialize_elements_be<T: Serialize>(items: &[T], writer: &mut ByteSink) -> (r: Result<
    (),
    WireError,
>)
    requires
        old(writer).wf(),
    ensures
        wrote(*old(writer), *final(writer), r, seq_wire(items@, Endian::Big)),
{
    let n = items.len();
    let mut i: usize = 0;
    while i < n
        invariant
            i <= n,
            n == items@.len(),
            writer.wf(),
            writer.cap() == old(writer).cap(),
            writer@ == old(writer)@ + seq_wire(items@.take(i as int), Endian::Big),
        decreases n - i,
    {
        let ghost pre = *writer;
        let item = &items[i];
        let r = item.serialize_be(writer);
        match r {
            Ok(_) => {
                proof {
                    lemma_seq_wire_take_next(items@, i as int, Endian::Big);
                }
                i = i + 1;
            },
            Err(err) => {
                proof {
                    lemma_seq_wire_split(items@, i as int, Endian::Big);
                    assert(old(writer)@.is_prefix_of(writer@)) by {
                        assert(pre@ =~= writer@.take(pre@.len() as int));
                        assert(old(writer)@ =~= writer@.take(old(writer)@.len() as int));
                    }
                }
                return Err(err);
            },
        }
    }
    proof {
        assert(items@.take(n as int) =~= items@);
        assert(old(writer)@.is_prefix_of(writer@)) by {
            assert(old(writer)@ =~= writer@.take(old(writer)@.len() as int));
        }
    }
    Ok(())
}

} // verus!
