//! The bridge to the MessagePack encoder and decoder.
//!
//! No function in this file is proved. `encode_value` and `decode_value` call
//! `rmpv` and state what it returns by two names, `wire_image` and
//! `wire_parse`; the four functions above them rebuild a value of this library
//! as `rmpv::Value` and back, and serve those two alone.

use crate::datum::{Datum, DatumModel, Integer};
use rmp::decode::RmpRead;
use rmpv::Value as Packed;
use vstd::prelude::*;

verus! {

/// The MessagePack encoding of a value.
pub uninterp spec fn wire_image(v: DatumModel) -> Seq<u8>;

/// What the decoder makes of the front of a sequence of bytes.
pub ghost enum Decoded {
    /// A whole value, and the number of bytes it takes.
    Value { value: DatumModel, taken: nat },
    /// The bytes end before the value does.
    Incomplete,
    /// The decoder refuses the bytes: values are nested deeper than it goes.
    /// No byte that follows can mend that.
    Refused,
}

/// Why no value was decoded.
#[derive(Debug, Clone, Copy, PartialEq, Eq, Structural)]
pub enum DecodeFailure {
    /// The bytes end before the value does.
    Incomplete,
    /// The decoder refuses the bytes.
    Refused,
}

/// What the decoder makes of the front of `bytes`.
pub uninterp spec fn wire_parse(bytes: Seq<u8>) -> Decoded;

/// Rebuilds a value that holds no other value as `rmpv::Value`, variant for
/// variant. Floating-point numbers are rebuilt from their bit patterns by
/// `RmpRead::read_data_f32` and `RmpRead::read_data_f64`, which read big-endian
/// bytes. Called on leaves only; nil is the one that is left for the last arm.
#[verifier::external_body]
fn leaf_to_outside(v: &Datum) -> Packed {
    match v {
        Datum::Boolean(b) => Packed::Boolean(*b),
        Datum::Integer(Integer::U64(n)) => Packed::from(*n),
        Datum::Integer(Integer::I64(n)) => Packed::from(*n),
        Datum::F32(b) => Packed::F32((&b.to_be_bytes()[..]).read_data_f32().unwrap_or_default()),
        Datum::F64(b) => Packed::F64((&b.to_be_bytes()[..]).read_data_f64().unwrap_or_default()),
        Datum::String(s) => Packed::from(s.as_str()),
        Datum::Binary(b) => Packed::Binary(b.clone()),
        Datum::Ext(t, d) => Packed::Ext(*t, d.clone()),
        _ => Packed::Nil,
    }
}

/// Rebuilds a value as `rmpv::Value`, variant for variant and element for
/// element.
#[verifier::external_body]
fn to_outside(v: &Datum) -> Packed {
    match v {
        Datum::Array(a) => Packed::Array(a.iter().map(to_outside).collect()),
        Datum::Dict(m) => Packed::Map(m.iter().map(|p| (to_outside(&p.0), to_outside(&p.1))).collect()),
        leaf => leaf_to_outside(leaf),
    }
}

/// Rebuilds an `rmpv::Value` that holds no other value as a value of this
/// library, variant for variant. An integer that fits `u64` becomes
/// `Integer::U64`; a string that is not UTF-8 becomes `Binary`, which is how
/// `rmpv` writes it. Called on leaves only; nil is the one that is left for
/// the last arm.
#[verifier::external_body]
fn leaf_from_outside(raw: Packed) -> Datum {
    match raw {
        Packed::Boolean(b) => Datum::Boolean(b),
        Packed::Integer(n) => Datum::Integer(n.as_u64().map_or(Integer::I64(n.as_i64().unwrap_or(0)), Integer::U64)),
        Packed::F32(f) => Datum::F32(f.to_bits()),
        Packed::F64(f) => Datum::F64(f.to_bits()),
        Packed::String(s) if s.is_str() => Datum::String(s.into_str().unwrap_or_default()),
        Packed::String(s) => Datum::Binary(s.into_bytes()),
        Packed::Binary(b) => Datum::Binary(b),
        Packed::Ext(t, d) => Datum::Ext(t, d),
        _ => Datum::Nil,
    }
}

/// Rebuilds an `rmpv::Value` as a value of this library, variant for variant
/// and element for element.
#[verifier::external_body]
fn from_outside(raw: Packed) -> Datum {
    match raw {
        Packed::Array(a) => Datum::Array(a.into_iter().map(from_outside).collect()),
        Packed::Map(m) => Datum::Dict(m.into_iter().map(|p| (from_outside(p.0), from_outside(p.1))).collect()),
        leaf => leaf_from_outside(leaf),
    }
}

/// `rmpv::encode::write_value` into a fresh buffer. Writing into a `Vec` cannot
/// fail, and the bytes depend on what the value denotes alone: `rmpv` holds an
/// integer that is not negative in one way, whichever variant carried it.
#[verifier::external_body]
pub(crate) fn encode_value(v: &Datum) -> (bytes: Vec<u8>)
    ensures
        bytes@ == wire_image(v@),
{
    let mut bytes = Vec::new();
    let _ = rmpv::encode::write_value(&mut bytes, &to_outside(v));
    bytes
}

/// `rmpv::decode::read_value` on the front of `bytes`: the value read and the
/// number of bytes taken, which is at least one, the marker, and at most
/// `bytes.len()`. Of its three errors, `DepthLimitExceeded` is a refusal: it
/// comes where values are nested deeper than `rmpv::decode::MAX_DEPTH` allows,
/// before another byte is read. The other two carry the error of a read, and
/// a read from a slice fails only where the slice ends. The outcome depends on
/// the bytes alone.
#[verifier::external_body]
pub(crate) fn decode_value(bytes: &[u8]) -> (r: Result<(Datum, usize), DecodeFailure>)
    ensures
        match r {
            Ok((v, taken)) => wire_parse(bytes@) == (Decoded::Value { value: v@, taken: taken as nat })
                && 1 <= taken <= bytes@.len(),
            Err(DecodeFailure::Incomplete) => wire_parse(bytes@) == Decoded::Incomplete,
            Err(DecodeFailure::Refused) => wire_parse(bytes@) == Decoded::Refused,
        },
{
    let mut cursor = std::io::Cursor::new(bytes);
    match rmpv::decode::read_value(&mut cursor) {
        Ok(raw) => Ok((from_outside(raw), cursor.position() as usize)),
        Err(rmpv::decode::Error::InvalidMarkerRead(_)) => Err(DecodeFailure::Incomplete),
        Err(rmpv::decode::Error::InvalidDataRead(_)) => Err(DecodeFailure::Incomplete),
        Err(rmpv::decode::Error::DepthLimitExceeded) => Err(DecodeFailure::Refused),
    }
}

} // verus!
