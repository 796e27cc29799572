//! The byte-level model of the wire format: what the little-endian byte
//! string of an integer is, what value a byte string denotes, and verified
//! executable functions that produce and consume those strings.

use vstd::prelude::*;

verus! {

use crate::Endian;

/// `256^n`, the number of values an `n`-byte string can hold.
pub open spec fn pow256(n: nat) -> nat
    decreases n,
{
    if n == 0 {
        1
    } else {
        256 * pow256((n - 1) as nat)
    }
}

/// The `n`-byte little-endian string of `v`: least significant byte first.
pub open spec fn le_bytes(v: nat, n: nat) -> Seq<u8>
    decreases n,
{
    if n == 0 {
        Seq::empty()
    } else {
        seq![(v % 256) as u8] + le_bytes(v / 256, (n - 1) as nat)
    }
}

/// The value a byte string denotes when read as little-endian.
pub open spec fn le_value(s: Seq<u8>) -> nat
    decreases s.len(),
{
    if s.len() == 0 {
        0
    } else {
        s.first() as nat + 256 * le_value(s.drop_first())
    }
}

/// The `n`-byte string of `v` under byte order `e`: big-endian is the
/// byte-wise reverse of little-endian.
pub open spec fn ordered_bytes(v: nat, n: nat, e: Endian) -> Seq<u8> {
    match e {
        Endian::Little => le_bytes(v, n),
        Endian::Big => le_bytes(v, n).reverse(),
    }
}

/// The value a byte string denotes under byte order `e`.
pub open spec fn ordered_value(s: Seq<u8>, e: Endian) -> nat {
    match e {
        Endian::Little => le_value(s),
        Endian::Big => le_value(s.reverse()),
    }
}

pub proof fn lemma_le_bytes_len(v: nat, n: nat)
    ensures
        le_bytes(v, n).len() == n,
    decreases n,
{
    if n > 0 {
        lemma_le_bytes_len(v / 256, (n - 1) as nat);
    }
}

pub proof fn lemma_ordered_bytes_len(v: nat, n: nat, e: Endian)
    ensures
        ordered_bytes(v, n, e).len() == n,
{
    lemma_le_bytes_len(v, n);
}

pub proof fn lemma_pow256_increases(a: nat, b: nat)
    requires
        a <= b,
    ensures
        pow256(a) <= pow256(b),
    decreases b,
{
    if a < b && b > 0 {
        lemma_pow256_increases(a, (b - 1) as nat);
    }
}

/// A byte string of length `n` denotes a value below `256^n`.
pub proof fn lemma_le_value_bound(s: Seq<u8>)
    ensures
        le_value(s) < pow256(s.len()),
    decreases s.len(),
{
    if s.len() > 0 {
        lemma_le_value_bound(s.drop_first());
    }
}

/// Reading back the little-endian string of `v` yields `v` again, for any
/// `v` that fits in `n` bytes.
pub proof fn lemma_le_round_trip(v: nat, n: nat)
    requires
        v < pow256(n),
    ensures
        le_value(le_bytes(v, n)) == v,
    decreases n,
{
    if n > 0 {
        assert(v / 256 < pow256((n - 1) as nat)) by (nonlinear_arith)
            requires
                v < 256 * pow256((n - 1) as nat),
        ;
        lemma_le_round_trip(v / 256, (n - 1) as nat);
        let s = le_bytes(v, n);
        assert(s.drop_first() =~= le_bytes(v / 256, (n - 1) as nat));
        vstd::arithmetic::div_mod::lemma_fundamental_div_mod(v as int, 256);
    }
}

/// The same round trip, stated for either byte order.
pub proof fn lemma_ordered_round_trip(v: nat, n: nat, e: Endian)
    requires
        v < pow256(n),
    ensures
        ordered_value(ordered_bytes(v, n, e), e) == v,
{
    match e {
        Endian::Little => lemma_le_round_trip(v, n),
        Endian::Big => {
            assert(le_bytes(v, n).reverse().reverse() =~= le_bytes(v, n));
            lemma_le_round_trip(v, n);
        },
    }
}

/// The `n`-byte little-endian string of `v`, built least significant byte
/// first; `v` may use at most `n` bytes of precision beyond which the
/// produced string simply drops the excess (callers pass values that fit).
pub fn le_vec(v: u128, n: usize) -> (out: Vec<u8>)
    ensures
        out@ == le_bytes(v as nat, n as nat),
        out@.len() == n,
{
    let mut out: Vec<u8> = Vec::new();
    let mut x: u128 = v;
    let mut i: usize = 0;
    while i < n
        invariant
            i <= n,
            out@.len() == i as nat,
            out@ + le_bytes(x as nat, (n - i) as nat) == le_bytes(v as nat, n as nat),
        decreases n - i,
    {
        let b: u8 = (x % 256) as u8;
        proof {
            assert(le_bytes(x as nat, (n - i) as nat) == seq![b] + le_bytes(
                x as nat / 256,
                (n - i - 1) as nat,
            ));
        }
        let ghost prev = out@;
        out.push(b);
        proof {
            assert(out@ + le_bytes(x as nat / 256, (n - i - 1) as nat) =~= prev + le_bytes(
                x as nat,
                (n - i) as nat,
            ));
        }
        x = x / 256;
        i = i + 1;
    }
    proof {
        assert(out@ + le_bytes(x as nat, 0) =~= out@);
    }
    out
}

/// The `n`-byte big-endian string of `v`: most significant byte first.
pub fn be_vec(v: u128, n: usize) -> (out: Vec<u8>)
    ensures
        out@ == le_bytes(v as nat, n as nat).reverse(),
        out@.len() == n,
{
    let le = le_vec(v, n);
    reversed(&le)
}

/// A byte-wise reversed copy.
pub fn reversed(input: &Vec<u8>) -> (out: Vec<u8>)
    ensures
        out@ == input@.reverse(),
{
    let n = input.len();
    let mut out: Vec<u8> = Vec::new();
    let mut i: usize = 0;
    while i < n
        invariant
            i <= n,
            n == input@.len(),
            out@.len() == i as nat,
            forall|j: int| 0 <= j < i ==> out@[j] == input@[n - 1 - j],
        decreases n - i,
    {
        out.push(input[n - 1 - i]);
        i = i + 1;
    }
    proof {
        assert(out@ =~= input@.reverse());
    }
    out
}

/// The value the byte string denotes when read as little-endian.
pub fn le_value_exec(bytes: &Vec<u8>) -> (x: u128)
    requires
        bytes@.len() <= 16,
    ensures
        x as nat == le_value(bytes@),
{
    let n = bytes.len();
    let mut x: u128 = 0;
    let mut i: usize = n;
    while i > 0
        invariant
            i <= n,
            n == bytes@.len() <= 16,
            x as nat == le_value(bytes@.skip(i as int)),
            (x as nat) < pow256((n - i) as nat),
        decreases i,
    {
        proof {
            lemma_pow256_increases((n - i) as nat, 15);
            assert(pow256(15) == 0x1000000000000000000000000000000) by {
                reveal_with_fuel(pow256, 16);
            }
            assert(bytes@.skip(i as int - 1).drop_first() =~= bytes@.skip(i as int));
            assert(bytes@.skip(i as int - 1).first() == bytes@[i as int - 1]);
            lemma_le_value_bound(bytes@.skip(i as int - 1));
            lemma_pow256_increases(bytes@.skip(i as int - 1).len() as nat, (n - i + 1) as nat);
        }
        x = x * 256 + (bytes[i - 1] as u128);
        i = i - 1;
    }
    proof {
        assert(bytes@.skip(0) =~= bytes@);
    }
    x
}

/// The number of bytes a pointer-sized integer occupies on this platform.
pub open spec fn usize_width() -> nat {
    (usize::BITS / 8) as nat
}

pub fn usize_width_exec() -> (n: usize)
    ensures
        n as nat == usize_width(),
        n == 4 || n == 8,
{
    (usize::BITS / 8) as usize
}

/// A pointer-sized value always fits in its own wire width.
pub proof fn lemma_pow256_usize()
    ensures
        pow256(usize_width()) == usize::MAX as nat + 1,
{
    assert(pow256(4) == 0x1_0000_0000) by {
        reveal_with_fuel(pow256, 5);
    }
    assert(pow256(8) == 0x1_0000_0000_0000_0000) by {
        reveal_with_fuel(pow256, 9);
    }
}

/// The unsigned bit pattern (two's complement) of an `i8`.
pub open spec fn u8_of_i8(x: i8) -> u8 {
    if x >= 0 {
        x as u8
    } else {
        (x + 0x100) as u8
    }
}

/// The `i8` whose two's-complement bit pattern is `u`.
pub open spec fn i8_of_u8(u: u8) -> i8 {
    if u < 0x80 {
        u as i8
    } else {
        (u - 0x100) as i8
    }
}

pub fn i8_to_u8(x: i8) -> (u: u8)
    ensures
        u == u8_of_i8(x),
{
    if x >= 0 {
        x as u8
    } else {
        u8::MAX - ((-(x + 1)) as u8)
    }
}

pub fn u8_to_i8(u: u8) -> (x: i8)
    ensures
        x == i8_of_u8(u),
{
    if u < 0x80 {
        u as i8
    } else {
        let y: u8 = u8::MAX - u;
        -(y as i8) - 1
    }
}

/// Two's complement is lossless: converting an `i8` to its bit pattern
/// and back yields the value again.
pub proof fn lemma_i8_round_trip(x: i8)
    ensures
        i8_of_u8(u8_of_i8(x)) == x,
{
}

/// The unsigned bit pattern (two's complement) of an `i16`.
pub open spec fn u16_of_i16(x: i16) -> u16 {
    if x >= 0 {
        x as u16
    } else {
        (x + 0x1_0000) as u16
    }
}

/// The `i16` whose two's-complement bit pattern is `u`.
pub open spec fn i16_of_u16(u: u16) -> i16 {
    if u < 0x8000 {
        u as i16
    } else {
        (u - 0x1_0000) as i16
    }
}

pub fn i16_to_u16(x: i16) -> (u: u16)
    ensures
        u == u16_of_i16(x),
{
    if x >= 0 {
        x as u16
    } else {
        u16::MAX - ((-(x + 1)) as u16)
    }
}

pub fn u16_to_i16(u: u16) -> (x: i16)
    ensures
        x == i16_of_u16(u),
{
    if u < 0x8000 {
        u as i16
    } else {
        let y: u16 = u16::MAX - u;
        -(y as i16) - 1
    }
}

/// Two's complement is lossless: converting an `i16` to its bit pattern
/// and back yields the value again.
pub proof fn lemma_i16_round_trip(x: i16)
    ensures
        i16_of_u16(u16_of_i16(x)) == x,
{
}

/// The unsigned bit pattern (two's complement) of an `i32`.
pub open spec fn u32_of_i32(x: i32) -> u32 {
    if x >= 0 {
        x as u32
    } else {
        (x + 0x1_0000_0000) as u32
    }
}

/// The `i32` whose two's-complement bit pattern is `u`.
pub open spec fn i32_of_u32(u: u32) -> i32 {
    if u < 0x8000_0000 {
        u as i32
    } else {
        (u - 0x1_0000_0000) as i32
    }
}

pub fn i32_to_u32(x: i32) -> (u: u32)
    ensures
        u == u32_of_i32(x),
{
    if x >= 0 {
        x as u32
    } else {
        u32::MAX - ((-(x + 1)) as u32)
    }
}

pub fn u32_to_i32(u: u32) -> (x: i32)
    ensures
        x == i32_of_u32(u),
{
    if u < 0x8000_0000 {
        u as i32
    } else {
        let y: u32 = u32::MAX - u;
        -(y as i32) - 1
    }
}

/// Two's complement is lossless: converting an `i32` to its bit pattern
/// and back yields the value again.
pub proof fn lemma_i32_round_trip(x: i32)
    ensures
        i32_of_u32(u32_of_i32(x)) == x,
{
}

/// The unsigned bit pattern (two's complement) of an `i64`.
pub open spec fn u64_of_i64(x: i64) -> u64 {
    if x >= 0 {
        x as u64
    } else {
        (x + 0x1_0000_0000_0000_0000) as u64
    }
}

/// The `i64` whose two's-complement bit pattern is `u`.
pub open spec fn i64_of_u64(u: u64) -> i64 {
    if u < 0x8000_0000_0000_0000 {
        u as i64
    } else {
        (u - 0x1_0000_0000_0000_0000) as i64
    }
}

pub fn i64_to_u64(x: i64) -> (u: u64)
    ensures
        u == u64_of_i64(x),
{
    if x >= 0 {
        x as u64
    } else {
        u64::MAX - ((-(x + 1)) as u64)
    }
}

pub fn u64_to_i64(u: u64) -> (x: i64)
    ensures
        x == i64_of_u64(u),
{
    if u < 0x8000_0000_0000_0000 {
        u as i64
    } else {
        let y: u64 = u64::MAX - u;
        -(y as i64) - 1
    }
}

/// Two's complement is lossless: converting an `i64` to its bit pattern
/// and back yields the value again.
pub proof fn lemma_i64_round_trip(x: i64)
    ensures
        i64_of_u64(u64_of_i64(x)) == x,
{
}

/// The unsigned bit pattern (two's complement) of an `i128`.
pub open spec fn u128_of_i128(x: i128) -> u128 {
    if x >= 0 {
        x as u128
    } else {
        (x + 0x1_0000_0000_0000_0000_0000_0000_0000_0000) as u128
    }
}

/// The `i128` whose two's-complement bit pattern is `u`.
pub open spec fn i128_of_u128(u: u128) -> i128 {
    if u < 0x8000_0000_0000_0000_0000_0000_0000_0000 {
        u as i128
    } else {
        (u - 0x1_0000_0000_0000_0000_0000_0000_0000_0000) as i128
    }
}

pub fn i128_to_u128(x: i128) -> (u: u128)
    ensures
        u == u128_of_i128(x),
{
    if x >= 0 {
        x as u128
    } else {
        u128::MAX - ((-(x + 1)) as u128)
    }
}

pub fn u128_to_i128(u: u128) -> (x: i128)
    ensures
        x == i128_of_u128(u),
{
    if u < 0x8000_0000_0000_0000_0000_0000_0000_0000 {
        u as i128
    } else {
        let y: u128 = u128::MAX - u;
        -(y as i128) - 1
    }
}

/// Two's complement is lossless: converting an `i128` to its bit pattern
/// and back yields the value again.
pub proof fn lemma_i128_round_trip(x: i128)
    ensures
        i128_of_u128(u128_of_i128(x)) == x,
{
}

/// The unsigned bit pattern (two's complement) of an `isize`, at the
/// platform's own width.
pub open spec fn usize_of_isize(x: isize) -> usize {
    if x >= 0 {
        x as usize
    } else {
        (x + usize::MAX + 1) as usize
    }
}

/// The `isize` whose two's-complement bit pattern is `u`.
pub open spec fn isize_of_usize(u: usize) -> isize {
    if u <= isize::MAX as usize {
        u as isize
    } else {
        (u - usize::MAX - 1) as isize
    }
}

pub fn isize_to_usize(x: isize) -> (u: usize)
    ensures
        u == usize_of_isize(x),
{
    if x >= 0 {
        x as usize
    } else {
        usize::MAX - ((-(x + 1)) as usize)
    }
}

pub fn usize_to_isize(u: usize) -> (x: isize)
    ensures
        x == isize_of_usize(u),
{
    if u <= (isize::MAX as usize) {
        u as isize
    } else {
        let y: usize = usize::MAX - u;
        -(y as isize) - 1
    }
}

/// Two's complement is lossless for `isize` as well.
pub proof fn lemma_isize_round_trip(x: isize)
    ensures
        isize_of_usize(usize_of_isize(x)) == x,
{
}

} // verus!
