//! The canonical default ("sentinel") value a type contributes to the
//! absence encoding of optional values: an absent value is written as the
//! sentinel, and a decoded value equal to the sentinel is read as absent.

use vstd::prelude::*;

verus! {

/// A type with a canonical default value that the optional-value encoding
/// uses as its absence sentinel.
pub trait Sentinel: Sized {
    /// The sentinel value.
    spec fn sentinel_spec() -> Self;

    /// Produces the sentinel value.
    fn sentinel() -> (r: Self)
        ensures
            r == Self::sentinel_spec(),
    ;

    /// Whether `self` is the sentinel value.
    fn is_sentinel(&self) -> (b: bool)
        ensures
            b <==> *self == Self::sentinel_spec(),
    ;
}

impl Sentinel for bool {
    open spec fn sentinel_spec() -> bool {
        false
    }

    fn sentinel() -> (r: bool) {
        false
    }

    fn is_sentinel(&self) -> (b: bool) {
        !*self
    }
}

impl Sentinel for u8 {
    open spec fn sentinel_spec() -> u8 {
        0
    }

    fn sentinel() -> (r: u8) {
        0
    }

    fn is_sentinel(&self) -> (b: bool) {
        *self == 0
    }
}

impl Sentinel for u16 {
    open spec fn sentinel_spec() -> u16 {
        0
    }

    fn sentinel() -> (r: u16) {
        0
    }

    fn is_sentinel(&self) -> (b: bool) {
        *self == 0
    }
}

impl Sentinel for u32 {
    open spec fn sentinel_spec() -> u32 {
        0
    }

    fn sentinel() -> (r: u32) {
        0
    }

    fn is_sentinel(&self) -> (b: bool) {
        *self == 0
    }
}

impl Sentinel for u64 {
    open spec fn sentinel_spec() -> u64 {
        0
    }

    fn sentinel() -> (r: u64) {
        0
    }

    fn is_sentinel(&self) -> (b: bool) {
        *self == 0
    }
}

impl Sentinel for u128 {
    open spec fn sentinel_spec() -> u128 {
        0
    }

    fn sentinel() -> (r: u128) {
        0
    }

    fn is_sentinel(&self) -> (b: bool) {
        *self == 0
    }
}

impl Sentinel for usize {
    open spec fn sentinel_spec() -> usize {
        0
    }

    fn sentinel() -> (r: usize) {
        0
    }

    fn is_sentinel(&self) -> (b: bool) {
        *self == 0
    }
}

impl Sentinel for i8 {
    open spec fn sentinel_spec() -> i8 {
        0
    }

    fn sentinel() -> (r: i8) {
        0
    }

    fn is_sentinel(&self) -> (b: bool) {
        *self == 0
    }
}

impl Sentinel for i16 {
    open spec fn sentinel_spec() -> i16 {
        0
    }

    fn sentinel() -> (r: i16) {
        0
    }

    fn is_sentinel(&self) -> (b: bool) {
        *self == 0
    }
}

impl Sentinel for i32 {
    open spec fn sentinel_spec() -> i32 {
        0
    }

    fn sentinel() -> (r: i32) {
        0
    }

    fn is_sentinel(&self) -> (b: bool) {
        *self == 0
    }
}

impl Sentinel for i64 {
    open spec fn sentinel_spec() -> i64 {
        0
    }

    fn sentinel() -> (r: i64) {
        0
    }

    fn is_sentinel(&self) -> (b: bool) {
        *self == 0
    }
}

impl Sentinel for i128 {
    open spec fn sentinel_spec() -> i128 {
        0
    }

    fn sentinel() -> (r: i128) {
        0
    }

    fn is_sentinel(&self) -> (b: bool) {
        *self == 0
    }
}

impl Sentinel for isize {
    open spec fn sentinel_spec() -> isize {
        0
    }

    fn sentinel() -> (r: isize) {
        0
    }

    fn is_sentinel(&self) -> (b: bool) {
        *self == 0
    }
}

} // verus!
