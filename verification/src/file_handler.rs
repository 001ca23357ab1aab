//! The handle on the backing file: its path, and the bytes last read from it.

use crate::error::IoError;
use vstd::prelude::*;

verus! {

/// What a [`FileHandler`] stands for in contracts.
pub struct FileHandlerView {
    /// The path of the backing file.
    pub path: Seq<char>,
    /// The bytes that the most recent successful read returned, if there was one.
    pub last_read: Option<Seq<u8>>,
}

/// A path, together with a copy of the bytes that were last read from it.
///
/// The handle performs no input or output itself. Its owner reads the file
/// at [`FileHandler::get_path`] and reports what came of it to
/// [`FileHandler::read`]. The copy is advisory: no operation consults it.
#[derive(Debug, Clone)]
pub struct FileHandler {
    path: String,
    content: Option<Vec<u8>>,
}

impl View for FileHandler {
    type V = FileHandlerView;

    closed spec fn view(&self) -> FileHandlerView {
        FileHandlerView {
            path: self.path@,
            last_read: match self.content {
                Some(bytes) => Some(bytes@),
                None => None,
            },
        }
    }
}

impl FileHandler {
    /// A handle on the file at `path`, which need not exist. Nothing has
    /// been read through it yet.
    pub fn new(path: String) -> (handler: Self)
        ensures
            handler@.path == path@,
            handler@.last_read is None,
    {
        FileHandler { path, content: None }
    }

    /// The path of the backing file.
    pub fn get_path(&self) -> (path: &str)
        ensures
            path@ == self@.path,
    {
        self.path.as_str()
    }

    /// The bytes that the most recent successful read returned.
    pub fn last_read(&self) -> (bytes: Option<&Vec<u8>>)
        ensures
            match bytes {
                Some(b) => self@.last_read == Some(b@),
                None => self@.last_read is None,
            },
    {
        self.content.as_ref()
    }

    /// Takes in what reading the whole backing file gave.
    ///
    /// Bytes that were read are remembered and handed on. A failure is
    /// handed on as it is, and what was remembered before stays.
    pub fn read(&mut self, outcome: Result<Vec<u8>, IoError>) -> (result: Result<Vec<u8>, IoError>)
        ensures
            result == outcome,
            final(self)@.path == old(self)@.path,
            final(self)@.last_read == match outcome {
                Ok(bytes) => Some(bytes@),
                Err(_) => old(self)@.last_read,
            },
    {
        match outcome {
            Ok(bytes) => {
                self.content = Some(bytes.clone());
                Ok(bytes)
            },
            Err(e) => Err(e),
        }
    }
}

} // verus!
