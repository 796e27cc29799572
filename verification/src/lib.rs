//! A compact binary codec: values encode to raw bytes under an explicit
//! byte-order policy (native, little-endian, big-endian) and decode back,
//! with a schema compiler that extends the codec to record types by
//! composing the per-field codecs in declaration order.

use vstd::prelude::*;

pub mod addr;
pub mod bytes;
pub mod deserialize;
pub mod laws;
pub mod schema;
pub mod sentinel;
pub mod serialize;
pub mod sink;
pub mod source;

pub use deserialize::Deserialize;
pub use serialize::Serialize;

verus! {

/// The two concrete byte orders a multi-byte value can be laid out in.
/// The platform's native order is always one of these.
#[derive(Clone, Copy, PartialEq, Eq, Structural, Debug)]
pub enum Endian {
    Little,
    Big,
}

/// A transport failure: the byte source ended before the requested number of
/// bytes were available, or the byte sink refused the write.
#[derive(Clone, Copy, PartialEq, Eq, Structural, Debug)]
pub enum WireError {
    UnexpectedEnd,
    SinkFull,
}

/// Relies on `u16::to_ne_bytes`: reports whether the platform stores the
/// least significant byte of a multi-byte integer first. Nothing is assumed
/// of the answer; callers must handle either outcome.
#[verifier::external_body]
pub(crate) fn native_is_little() -> bool {
    u16::to_ne_bytes(1u16)[0] == 1u8
}

} // verus!
