//! A configuration record kept in a backing file as JSON text.

use crate::codec::{json_from_slice, json_to_string};
use crate::error::{CacheError, IoError};
use crate::file_handler::FileHandler;
use crate::model::CacheView;
use crate::policy::{decoded, initial_value, is_default, persistable_text, refresh, Fetched};
use vstd::prelude::*;
use vstd::utf8::valid_utf8;

verus! {

/// A record of type `T` in memory, bound to a backing file that holds it as
/// JSON text.
///
/// Memory and file may differ: a change in memory reaches the file only
/// through [`CacheConfig::write`], and a change of the file reaches memory
/// only through [`CacheConfig::read`].
pub struct CacheConfig<T> {
    file_handler: FileHandler,
    config: T,
}

impl<T> View for CacheConfig<T> {
    type V = CacheView<T>;

    closed spec fn view(&self) -> CacheView<T> {
        CacheView { handler: self.file_handler@, value: self.config }
    }
}

impl<T> CacheConfig<T> where T: serde::Serialize + serde::de::DeserializeOwned {
    /// Takes in what reading the backing file gave, and decodes the bytes
    /// where there are any.
    fn fetch(file_handler: &mut FileHandler, outcome: Result<Vec<u8>, IoError>) -> (fetched:
        Fetched<T>)
        ensures
            final(file_handler)@.path == old(file_handler)@.path,
            match outcome {
                Ok(bytes) => final(file_handler)@.last_read == Some(bytes@)
                    && !(fetched is Unreadable),
                Err(e) => final(file_handler)@ == old(file_handler)@ && fetched
                    == Fetched::<T>::Unreadable(e),
            },
    {
        match file_handler.read(outcome) {
            Ok(bytes) => decoded(json_from_slice::<T>(bytes.as_slice())),
            Err(e) => Fetched::Unreadable(e),
        }
    }

    /// A cache on the file behind `file_handler`, given what reading that
    /// file gave, together with the reason why it does not hold the stored
    /// record, where it does not.
    ///
    /// The cache starts with the record that the text decodes to, and there
    /// is no reason. Where the file could not be read, or its bytes are not
    /// JSON text of a `T`, the cache starts with the type's default, and the
    /// reason is the failed read or the decoder's error. Nothing is to be
    /// written: the file stays as it is, or stays absent.
    pub fn load(file_handler: FileHandler, outcome: Result<Vec<u8>, IoError>) -> (loaded: (
        Self,
        Option<CacheError>,
    )) where T: Default
        ensures
            loaded.0@.handler.path == file_handler@.path,
            match outcome {
                Ok(bytes) => loaded.0@.handler.last_read == Some(bytes@) && (loaded.1 is None
                    || loaded.1 matches Some(CacheError::Decode(_))),
                Err(e) => loaded.0@.handler == file_handler@ && loaded.1 == Some(
                    CacheError::Io(e),
                ),
            },
            loaded.1 is Some ==> is_default(loaded.0@.value),
    {
        let mut file_handler = file_handler;
        let fetched = Self::fetch(&mut file_handler, outcome);
        let (config, reason) = initial_value(fetched);
        (CacheConfig { file_handler, config }, reason)
    }

    /// A cache on the file behind `file_handler`, given what reading that
    /// file gave: the cache that [`CacheConfig::load`] gives, without the
    /// reason.
    pub fn new(file_handler: FileHandler, outcome: Result<Vec<u8>, IoError>) -> (cache: Self) where
        T: Default,
        ensures
            cache@.handler.path == file_handler@.path,
            match outcome {
                Ok(bytes) => cache@.handler.last_read == Some(bytes@),
                Err(_) => cache@.handler == file_handler@ && is_default(cache@.value),
            },
    {
        Self::load(file_handler, outcome).0
    }

    /// The handle on the backing file.
    pub fn file_handler(&self) -> (handler: &FileHandler)
        ensures
            handler@ == self@.handler,
    {
        &self.file_handler
    }

    /// The record in memory.
    pub fn get_config(&self) -> (config: &T)
        ensures
            *config == self@.value,
    {
        &self.config
    }

    /// The record in memory, open to change. A change stays in memory until
    /// [`CacheConfig::write`] is called.
    pub fn get_mut_config(&mut self) -> (config: &mut T)
        ensures
            *config == old(self)@.value,
            final(self)@.value == *final(config),
            final(self)@.handler == old(self)@.handler,
    {
        &mut self.config
    }

    /// Reloads the record from what reading the backing file gave.
    ///
    /// Text that decodes replaces the record in memory, and a copy of the
    /// new record is returned. A failed read, or bytes that do not decode,
    /// are reported, and the record in memory is what it was before.
    pub fn read(&mut self, outcome: Result<Vec<u8>, IoError>) -> (result: Result<
        T,
        CacheError,
    >) where T: Clone
        ensures
            final(self)@.handler.path == old(self)@.handler.path,
            match outcome {
                Ok(bytes) => final(self)@.handler.last_read == Some(bytes@) && (result is Ok
                    || result matches Err(CacheError::Decode(_))),
                Err(e) => final(self)@ == old(self)@ && result == Err::<T, CacheError>(
                    CacheError::Io(e),
                ),
            },
            match result {
                Ok(copy) => cloned(final(self)@.value, copy),
                Err(_) => final(self)@.value == old(self)@.value,
            },
    {
        let fetched = Self::fetch(&mut self.file_handler, outcome);
        refresh(&mut self.config, fetched)
    }

    /// Encodes the record in memory as JSON text and returns the bytes that
    /// are to replace the contents of the backing file. They are valid
    /// UTF-8.
    ///
    /// Where the record has no encoding, that is reported and nothing is to
    /// be written.
    pub fn write(&self) -> (result: Result<Vec<u8>, CacheError>)
        ensures
            match result {
                Ok(bytes) => valid_utf8(bytes@),
                Err(e) => e is Encode,
            },
    {
        persistable_text(json_to_string::<T>(&self.config))
    }
}

} // verus!
