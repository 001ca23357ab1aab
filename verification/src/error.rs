//! The failures a cache can report.

use vstd::prelude::*;

verus! {

/// Why the file system refused an operation on the backing file.
#[derive(Clone, Copy, Debug, PartialEq, Eq, Structural)]
pub enum IoError {
    /// There is no file at the path.
    NotFound,
    /// The file exists, but this process may not touch it.
    PermissionDenied,
    /// Any other failure of the file system.
    Other,
}

/// Why an operation on a cache failed.
#[derive(Clone, Debug, PartialEq, Eq)]
pub enum CacheError {
    /// The backing file could not be read or written.
    Io(IoError),
    /// The bytes of the backing file are not an encoding of the cached
    /// type. The text is the decoder's own account of what is wrong.
    Decode(String),
    /// The value has no encoding. The text is the encoder's own account of
    /// what is wrong.
    Encode(String),
    /// Text joined by an append does not parse as the cached type. The text
    /// is the joined text that was refused.
    Parse(String),
}

} // verus!
