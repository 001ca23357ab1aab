//! The calls into the codecs.
//!
//! These functions are believed, not proved. Of a call at a type that the
//! caller chooses, what is believed is as little as can be: that it returns.
//! How such a value is encoded, and which bytes decode, is decided by the
//! codec together with the value's own serialisation code, so no contract
//! speaks of the result, and the rest of the crate is proved for every
//! result. Of the binary decoder at an integer, a flag and a text the result
//! is stated in full.

use crate::binary::{binary_bool, binary_i32, binary_string};
use vstd::prelude::*;

verus! {

#[verifier::external_type_specification]
#[verifier::external_body]
pub struct ExBincodeErrorKind(bincode::ErrorKind);

#[verifier::external_type_specification]
#[verifier::external_body]
pub struct ExJsonError(serde_json::Error);

/// Calls `bincode::serialize`, which encodes `value` in the binary format
/// with fixed-width little-endian integers. No claim is made of the result.
#[verifier::external_body]
pub(crate) fn bincode_serialize<T: serde::Serialize>(value: &T) -> (encoded: Result<
    Vec<u8>,
    Box<bincode::ErrorKind>,
>) {
    bincode::serialize(value)
}

/// Calls `bincode::deserialize`, which decodes a value from the front of
/// `bytes` and ignores what follows it. No claim is made of the result.
#[verifier::external_body]
pub(crate) fn bincode_deserialize<T: serde::de::DeserializeOwned>(bytes: &[u8]) -> (decoded: Result<
    T,
    Box<bincode::ErrorKind>,
>) {
    bincode::deserialize(bytes)
}

/// Calls `bincode::deserialize` at `i32`. It reads the first four bytes as a
/// little-endian integer in two's complement, and fails exactly where
/// fewer than four bytes are there.
#[verifier::external_body]
pub(crate) fn bincode_deserialize_i32(bytes: &[u8]) -> (decoded: Result<
    i32,
    Box<bincode::ErrorKind>,
>)
    ensures
        match decoded {
            Ok(value) => binary_i32(bytes@) == Some(value),
            Err(_) => binary_i32(bytes@) is None,
        },
{
    bincode::deserialize::<i32>(bytes)
}

/// Calls `bincode::deserialize` at `bool`. It reads the first byte, gives
/// `false` for 0 and `true` for 1, and fails exactly where there is no
/// byte or the byte is another.
#[verifier::external_body]
pub(crate) fn bincode_deserialize_bool(bytes: &[u8]) -> (decoded: Result<
    bool,
    Box<bincode::ErrorKind>,
>)
    ensures
        match decoded {
            Ok(value) => binary_bool(bytes@) == Some(value),
            Err(_) => binary_bool(bytes@) is None,
        },
{
    bincode::deserialize::<bool>(bytes)
}

/// Calls `bincode::deserialize` at `String`. It reads eight bytes as a
/// little-endian length and that many bytes after them as UTF-8, and fails
/// exactly where the bytes are too few or are not UTF-8.
#[verifier::external_body]
pub(crate) fn bincode_deserialize_string(bytes: &[u8]) -> (decoded: Result<
    String,
    Box<bincode::ErrorKind>,
>)
    ensures
        match decoded {
            Ok(value) => binary_string(bytes@) == Some(value@),
            Err(_) => binary_string(bytes@) is None,
        },
{
    bincode::deserialize::<String>(bytes)
}

/// Calls `serde_json::to_string`, which writes `value` as compact JSON
/// text. No claim is made of the result.
#[verifier::external_body]
pub(crate) fn json_to_string<T: serde::Serialize>(value: &T) -> (encoded: Result<
    String,
    serde_json::Error,
>) {
    serde_json::to_string(value)
}

/// Calls `serde_json::from_slice`, which decodes a value from JSON text
/// that fills `bytes`. No claim is made of the result.
#[verifier::external_body]
pub(crate) fn json_from_slice<T: serde::de::DeserializeOwned>(bytes: &[u8]) -> (decoded: Result<
    T,
    serde_json::Error,
>) {
    serde_json::from_slice(bytes)
}

/// Calls `str::parse`, which reads a value from `text` by the type's own
/// `FromStr`. The type's parse error cannot be named here and is dropped.
/// No claim is made of the result.
#[verifier::external_body]
pub(crate) fn parse_text<T: core::str::FromStr>(text: &str) -> (parsed: Option<T>) {
    text.parse::<T>().ok()
}

} // verus!
