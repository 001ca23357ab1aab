//! A value kept in a backing file in the binary encoding.

use crate::binary::{binary_bool, binary_i32, binary_string};
use crate::codec::{
    bincode_deserialize, bincode_deserialize_bool, bincode_deserialize_i32,
    bincode_deserialize_string, bincode_serialize, parse_text,
};
use crate::error::{CacheError, IoError};
use crate::file_handler::FileHandler;
use crate::model::CacheView;
use crate::policy::{
    adopt, decoded, fetched_value, initial_value, is_default, joined_text, parsed_value,
    persistable, refresh, Fetched,
};
use vstd::prelude::*;

verus! {

/// A value of type `T` in memory, bound to a backing file that holds its
/// binary encoding.
///
/// Memory and file may differ: a change in memory reaches the file only
/// through [`CacheFile::write`], and a change of the file reaches memory
/// only through [`CacheFile::read`].
pub struct CacheFile<T> {
    file_handler: FileHandler,
    data_type: T,
}

impl<T> View for CacheFile<T> {
    type V = CacheView<T>;

    closed spec fn view(&self) -> CacheView<T> {
        CacheView { handler: self.file_handler@, value: self.data_type }
    }
}

impl<T> CacheFile<T> where T: serde::Serialize + serde::de::DeserializeOwned {
    /// Takes in what reading the backing file gave, and decodes the bytes
    /// where there are any.
    fn fetch(file_handler: &mut FileHandler, outcome: Result<Vec<u8>, IoError>) -> (fetched:
        Fetched<T>)
        ensures
            final(file_handler)@.path == old(file_handler)@.path,
            match outcome {
                Ok(bytes) => final(file_handler)@.last_read == Some(bytes@)
                    && !(fetched is Unreadable),
                Err(e) => final(file_handler)@ == old(file_handler)@ && fetched
                    == Fetched::<T>::Unreadable(e),
            },
    {
        match file_handler.read(outcome) {
            Ok(bytes) => decoded(bincode_deserialize::<T>(bytes.as_slice())),
            Err(e) => Fetched::Unreadable(e),
        }
    }

    /// A cache on the file behind `file_handler`, given what reading that
    /// file gave, together with the reason why it does not hold the stored
    /// value, where it does not.
    ///
    /// The cache starts with the value that the bytes decode to, and there
    /// is no reason. Where the file could not be read, or its bytes do not
    /// decode, the cache starts with the type's default, and the reason is
    /// the failed read or the decoder's error. Nothing is to be written:
    /// the file stays as it is, or stays absent.
    pub fn load(file_handler: FileHandler, outcome: Result<Vec<u8>, IoError>) -> (loaded: (
        Self,
        Option<CacheError>,
    )) where T: Default
        ensures
            loaded.0@.handler.path == file_handler@.path,
            match outcome {
                Ok(bytes) => loaded.0@.handler.last_read == Some(bytes@) && (loaded.1 is None
                    || loaded.1 matches Some(CacheError::Decode(_))),
                Err(e) => loaded.0@.handler == file_handler@ && loaded.1 == Some(
                    CacheError::Io(e),
                ),
            },
            loaded.1 is Some ==> is_default(loaded.0@.value),
    {
        let mut file_handler = file_handler;
        let fetched = Self::fetch(&mut file_handler, outcome);
        let (data_type, reason) = initial_value(fetched);
        (CacheFile { file_handler, data_type }, reason)
    }

    /// A cache on the file behind `file_handler`, given what reading that
    /// file gave: the cache that [`CacheFile::load`] gives, without the
    /// reason.
    pub fn new(file_handler: FileHandler, outcome: Result<Vec<u8>, IoError>) -> (cache: Self) where
        T: Default,
        ensures
            cache@.handler.path == file_handler@.path,
            match outcome {
                Ok(bytes) => cache@.handler.last_read == Some(bytes@),
                Err(_) => cache@.handler == file_handler@ && is_default(cache@.value),
            },
    {
        Self::load(file_handler, outcome).0
    }

    /// The handle on the backing file.
    pub fn file_handler(&self) -> (handler: &FileHandler)
        ensures
            handler@ == self@.handler,
    {
        &self.file_handler
    }

    /// The value in memory.
    pub fn get_data(&self) -> (data: &T)
        ensures
            *data == self@.value,
    {
        &self.data_type
    }

    /// The value in memory, open to change. A change stays in memory until
    /// [`CacheFile::write`] is called.
    pub fn get_mut_data(&mut self) -> (data: &mut T)
        ensures
            *data == old(self)@.value,
            final(self)@.value == *final(data),
            final(self)@.handler == old(self)@.handler,
    {
        &mut self.data_type
    }

    /// Reloads the value from what reading the backing file gave.
    ///
    /// Bytes that decode replace the value in memory, and a copy of the new
    /// value is returned. A failed read, or bytes that do not decode, are
    /// reported, and the value in memory is what it was before.
    pub fn read(&mut self, outcome: Result<Vec<u8>, IoError>) -> (result: Result<
        T,
        CacheError,
    >) where T: Clone
        ensures
            final(self)@.handler.path == old(self)@.handler.path,
            match outcome {
                Ok(bytes) => final(self)@.handler.last_read == Some(bytes@) && (result is Ok
                    || result matches Err(CacheError::Decode(_))),
                Err(e) => final(self)@ == old(self)@ && result == Err::<T, CacheError>(
                    CacheError::Io(e),
                ),
            },
            match result {
                Ok(copy) => cloned(final(self)@.value, copy),
                Err(_) => final(self)@.value == old(self)@.value,
            },
    {
        let fetched = Self::fetch(&mut self.file_handler, outcome);
        refresh(&mut self.data_type, fetched)
    }

    /// Encodes the value in memory and returns the bytes that are to
    /// replace the contents of the backing file.
    ///
    /// Where the value has no encoding, that is reported and nothing is to
    /// be written.
    pub fn write(&self) -> (result: Result<Vec<u8>, CacheError>)
        ensures
            result is Ok || result matches Err(CacheError::Encode(_)),
    {
        persistable(bincode_serialize::<T>(&self.data_type))
    }

    /// Joins the text of `data_type` to the text of the stored value, and
    /// returns the bytes that are to replace the contents of the backing
    /// file.
    ///
    /// The stored value is decoded from what reading the backing file gave.
    /// Its text and the text of `data_type` are joined, the joined text is
    /// parsed, and the parsed value is encoded. Only when all of this has
    /// succeeded does the parsed value replace the value in memory. A
    /// failure at any step is reported, and the value in memory is what it
    /// was before.
    pub fn append(&mut self, outcome: Result<Vec<u8>, IoError>, data_type: &T) -> (result: Result<
        Vec<u8>,
        CacheError,
    >) where T: core::fmt::Display + core::str::FromStr + Clone
        ensures
            final(self)@.handler.path == old(self)@.handler.path,
            match outcome {
                Ok(bytes) => final(self)@.handler.last_read == Some(bytes@) && !(result matches Err(
                    CacheError::Io(_),
                )),
                Err(e) => final(self)@ == old(self)@ && result == Err::<Vec<u8>, CacheError>(
                    CacheError::Io(e),
                ),
            },
            result is Err ==> final(self)@.value == old(self)@.value,
    {
        let fetched = Self::fetch(&mut self.file_handler, outcome);
        match fetched_value(fetched) {
            Ok(current) => {
                let text = joined_text(&current, data_type);
                let answer = parse_text::<T>(text.as_str());
                match parsed_value(text, answer) {
                    Ok(parsed) => {
                        let encoded = persistable(bincode_serialize::<T>(&parsed));
                        adopt(&mut self.data_type, parsed, encoded)
                    },
                    Err(e) => Err(e),
                }
            },
            Err(e) => Err(e),
        }
    }
}

/// A cache of text on the file at `path`, given what reading that file
/// gave.
///
/// The cache starts with the text that the bytes decode to. Where the file
/// could not be read, or its bytes do not decode, it starts empty.
pub fn cache_file_string(path: &str, outcome: Result<Vec<u8>, IoError>) -> (cache: CacheFile<
    String,
>)
    ensures
        cache@.handler.path == path@,
        match outcome {
            Ok(bytes) => cache@.handler.last_read == Some(bytes@) && cache@.value@
                == match binary_string(bytes@) {
                Some(text) => text,
                None => Seq::<char>::empty(),
            },
            Err(_) => cache@.handler.last_read is None && cache@.value@ == Seq::<char>::empty(),
        },
{
    let mut file_handler = FileHandler::new(path.to_owned());
    let fetched = match file_handler.read(outcome) {
        Ok(bytes) => decoded(bincode_deserialize_string(bytes.as_slice())),
        Err(e) => Fetched::Unreadable(e),
    };
    CacheFile { file_handler, data_type: initial_value(fetched).0 }
}

/// A cache of an integer on the file at `path`, given what reading that
/// file gave.
///
/// The cache starts with the integer that the bytes decode to. Where the
/// file could not be read, or its bytes do not decode, it starts at zero.
pub fn cache_file_integer(path: &str, outcome: Result<Vec<u8>, IoError>) -> (cache: CacheFile<i32>)
    ensures
        cache@.handler.path == path@,
        match outcome {
            Ok(bytes) => cache@.handler.last_read == Some(bytes@) && cache@.value
                == match binary_i32(bytes@) {
                Some(value) => value,
                None => 0i32,
            },
            Err(_) => cache@.handler.last_read is None && cache@.value == 0,
        },
{
    let mut file_handler = FileHandler::new(path.to_owned());
    let fetched = match file_handler.read(outcome) {
        Ok(bytes) => decoded(bincode_deserialize_i32(bytes.as_slice())),
        Err(e) => Fetched::Unreadable(e),
    };
    CacheFile { file_handler, data_type: initial_value(fetched).0 }
}

/// A cache of a flag on the file at `path`, given what reading that file
/// gave.
///
/// The cache starts with the flag that the bytes decode to. Where the file
/// could not be read, or its bytes do not decode, it starts at `false`.
pub fn cache_file_bool(path: &str, outcome: Result<Vec<u8>, IoError>) -> (cache: CacheFile<bool>)
    ensures
        cache@.handler.path == path@,
        match outcome {
            Ok(bytes) => cache@.handler.last_read == Some(bytes@) && cache@.value
                == match binary_bool(bytes@) {
                Some(value) => value,
                None => false,
            },
            Err(_) => cache@.handler.last_read is None && cache@.value == false,
        },
{
    let mut file_handler = FileHandler::new(path.to_owned());
    let fetched = match file_handler.read(outcome) {
        Ok(bytes) => decoded(bincode_deserialize_bool(bytes.as_slice())),
        Err(e) => Fetched::Unreadable(e),
    };
    CacheFile { file_handler, data_type: initial_value(fetched).0 }
}

} // verus!
