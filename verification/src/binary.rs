//! The binary encoding of the three plain types, as the decoder reads it.
//!
//! Integers are little-endian and of fixed width. A value is read from the
//! front of the bytes, and bytes after it are ignored.

use vstd::prelude::*;
use vstd::utf8::{decode_utf8, valid_utf8};

verus! {

/// The number that four bytes hold, least significant byte first.
pub open spec fn unsigned_32(bytes: Seq<u8>) -> int
    recommends
        bytes.len() == 4,
{
    bytes[0] + 0x100 * bytes[1] + 0x1_0000 * bytes[2] + 0x100_0000 * bytes[3]
}

/// The number that eight bytes hold, least significant byte first.
pub open spec fn unsigned_64(bytes: Seq<u8>) -> int
    recommends
        bytes.len() == 8,
{
    unsigned_32(bytes.subrange(0, 4)) + 0x1_0000_0000 * unsigned_32(bytes.subrange(4, 8))
}

/// The integer that `bytes` decode to: the first four bytes in two's
/// complement. Fewer than four bytes decode to nothing.
pub open spec fn binary_i32(bytes: Seq<u8>) -> Option<i32> {
    if bytes.len() < 4 {
        None
    } else {
        let unsigned = unsigned_32(bytes.subrange(0, 4));
        if unsigned < 0x8000_0000 {
            Some(unsigned as i32)
        } else {
            Some((unsigned - 0x1_0000_0000) as i32)
        }
    }
}

/// The flag that `bytes` decode to: a first byte of 0 is `false`, of 1 is
/// `true`. No byte, or any other first byte, decodes to nothing.
pub open spec fn binary_bool(bytes: Seq<u8>) -> Option<bool> {
    if bytes.len() >= 1 && bytes[0] == 0 {
        Some(false)
    } else if bytes.len() >= 1 && bytes[0] == 1 {
        Some(true)
    } else {
        None
    }
}

/// The text that `bytes` decode to: eight bytes give a length, and that
/// many bytes after them hold the text in UTF-8. Bytes that are too few, or
/// are not UTF-8, decode to nothing.
pub open spec fn binary_string(bytes: Seq<u8>) -> Option<Seq<char>> {
    if bytes.len() < 8 {
        None
    } else {
        let length = unsigned_64(bytes.subrange(0, 8));
        if 8 + length <= bytes.len() && valid_utf8(bytes.subrange(8, 8 + length)) {
            Some(decode_utf8(bytes.subrange(8, 8 + length)))
        } else {
            None
        }
    }
}

} // verus!
