//! What a cache does with the outcome of outside work.
//!
//! Reading a file, decoding bytes, encoding a value and parsing text all
//! happen outside the reach of proof. The functions here take what such
//! work gave and decide what becomes of the value in memory, for every
//! outcome. Both kinds of cache follow them.

use crate::error::{CacheError, IoError};
use vstd::prelude::*;
use vstd::string::{to_string_from_display_ensures, StrSliceExecFns, StringExecFns};
use vstd::utf8::{encode_utf8, encode_utf8_valid_utf8, valid_utf8};

verus! {

/// What came of fetching a value: reading the backing file, then decoding
/// its bytes.
pub enum Fetched<T> {
    /// The file could not be read.
    Unreadable(IoError),
    /// The file was read, but its bytes are not an encoding of the type.
    /// The text is the decoder's account of what is wrong.
    Corrupt(String),
    /// The file was read and its bytes decode to this value.
    Value(T),
}

/// Whether `value` is one that the type's `Default` gives.
pub open spec fn is_default<T: Default>(value: T) -> bool {
    call_ensures(T::default, (), value)
}

/// What a successful read followed by a decoder's answer amounts to. A
/// decoder's error is kept as its text.
pub fn decoded<T, E: core::fmt::Display>(answer: Result<T, E>) -> (fetched: Fetched<T>)
    ensures
        match answer {
            Ok(value) => fetched == Fetched::Value(value),
            Err(e) => fetched matches Fetched::Corrupt(why) && to_string_from_display_ensures::<E>(
                &e,
                why,
            ),
        },
{
    match answer {
        Ok(value) => Fetched::Value(value),
        Err(e) => Fetched::Corrupt(e.to_string()),
    }
}

/// The value a cache starts with, and why it is not the stored one where it
/// is not: the fetched value, or the type's default where the file is
/// missing, unreadable or corrupt. A cache always starts.
pub fn initial_value<T: Default>(fetched: Fetched<T>) -> (start: (T, Option<CacheError>))
    ensures
        match fetched {
            Fetched::Value(v) => start == (v, None::<CacheError>),
            Fetched::Unreadable(e) => is_default(start.0) && start.1 == Some(CacheError::Io(e)),
            Fetched::Corrupt(why) => is_default(start.0) && start.1 == Some(
                CacheError::Decode(why),
            ),
        },
{
    match fetched {
        Fetched::Value(v) => (v, None),
        Fetched::Unreadable(e) => (T::default(), Some(CacheError::Io(e))),
        Fetched::Corrupt(why) => (T::default(), Some(CacheError::Decode(why))),
    }
}

/// The fetched value, or the failure that an explicit operation reports.
pub fn fetched_value<T>(fetched: Fetched<T>) -> (result: Result<T, CacheError>)
    ensures
        result == match fetched {
            Fetched::Value(v) => Ok::<T, CacheError>(v),
            Fetched::Unreadable(e) => Err(CacheError::Io(e)),
            Fetched::Corrupt(why) => Err(CacheError::Decode(why)),
        },
{
    match fetched {
        Fetched::Value(v) => Ok(v),
        Fetched::Unreadable(e) => Err(CacheError::Io(e)),
        Fetched::Corrupt(why) => Err(CacheError::Decode(why)),
    }
}

/// Reloads the value in `memory`. A fetched value replaces it and a copy is
/// returned. A failure is reported and leaves `memory` as it was.
pub fn refresh<T: Clone>(memory: &mut T, fetched: Fetched<T>) -> (result: Result<T, CacheError>)
    ensures
        match fetched {
            Fetched::Value(v) => *final(memory) == v && result is Ok && cloned(
                v,
                result->Ok_0,
            ),
            Fetched::Unreadable(e) => *final(memory) == *old(memory) && result == Err::<
                T,
                CacheError,
            >(CacheError::Io(e)),
            Fetched::Corrupt(why) => *final(memory) == *old(memory) && result == Err::<
                T,
                CacheError,
            >(CacheError::Decode(why)),
        },
{
    match fetched_value(fetched) {
        Ok(v) => {
            *memory = v;
            Ok(memory.clone())
        },
        Err(e) => Err(e),
    }
}

/// The bytes to persist, given an encoder's answer: the encoding, or the
/// report that the value has none, with the encoder's error as its text.
/// Nothing is to be written in that case.
pub fn persistable<E: core::fmt::Display>(answer: Result<Vec<u8>, E>) -> (result: Result<
    Vec<u8>,
    CacheError,
>)
    ensures
        match answer {
            Ok(bytes) => result == Ok::<Vec<u8>, CacheError>(bytes),
            Err(e) => result matches Err(CacheError::Encode(why))
                && to_string_from_display_ensures::<E>(&e, why),
        },
{
    match answer {
        Ok(bytes) => Ok(bytes),
        Err(e) => Err(CacheError::Encode(e.to_string())),
    }
}

/// The bytes to persist, given the answer of the JSON encoder: the bytes of
/// its text, or the report that the record has none, with the encoder's
/// error as its text. Nothing is to be written in that case.
pub fn persistable_text<E: core::fmt::Display>(answer: Result<String, E>) -> (result: Result<
    Vec<u8>,
    CacheError,
>)
    ensures
        match answer {
            Ok(text) => result is Ok && result->Ok_0@ == encode_utf8(text@),
            Err(e) => result matches Err(CacheError::Encode(why))
                && to_string_from_display_ensures::<E>(&e, why),
        },
        result matches Ok(bytes) ==> valid_utf8(bytes@),
{
    match answer {
        Ok(text) => {
            proof {
                encode_utf8_valid_utf8(text@);
            }
            Ok(text.as_str().as_bytes_vec())
        },
        Err(e) => Err(CacheError::Encode(e.to_string())),
    }
}

/// The text that an append parses: the text of `current`, followed at once
/// by the text of `addition`.
pub fn joined_text<T: core::fmt::Display>(current: &T, addition: &T) -> (text: String)
    ensures
        exists|head: String, tail: String|
            to_string_from_display_ensures::<T>(current, head) && to_string_from_display_ensures::<
                T,
            >(addition, tail) && text@ == head@ + tail@,
{
    let mut text = current.to_string();
    let tail = addition.to_string();
    let ghost head = text;
    text.append(tail.as_str());
    assert(to_string_from_display_ensures::<T>(current, head) && to_string_from_display_ensures::<
        T,
    >(addition, tail) && text@ == head@ + tail@);
    text
}

/// What a parser made of joined text: the value, or the report that the
/// text was refused, with the text.
pub fn parsed_value<T>(text: String, answer: Option<T>) -> (result: Result<T, CacheError>)
    ensures
        result == match answer {
            Some(v) => Ok::<T, CacheError>(v),
            None => Err(CacheError::Parse(text)),
        },
{
    match answer {
        Some(v) => Ok(v),
        None => Err(CacheError::Parse(text)),
    }
}

/// Ends an append, given the parsed value and what encoding it gave. With
/// bytes to persist, the parsed value replaces the one in `memory`. Without,
/// the failure is reported and `memory` stays as it was.
pub fn adopt<T>(memory: &mut T, parsed: T, encoded: Result<Vec<u8>, CacheError>) -> (result: Result<
    Vec<u8>,
    CacheError,
>)
    ensures
        result == encoded,
        *final(memory) == match encoded {
            Ok(_) => parsed,
            Err(_) => *old(memory),
        },
{
    match encoded {
        Ok(bytes) => {
            *memory = parsed;
            Ok(bytes)
        },
        Err(e) => Err(e),
    }
}

} // verus!
