//! A typed value bound to a backing file.
//!
//! The crate decides; its caller performs the input and output. Every
//! operation that needs the file's bytes takes what reading the file gave,
//! and every operation that changes the file returns the bytes to persist.

pub mod binary;
pub mod cache_config;
pub mod cache_file;
mod codec;
pub mod error;
pub mod file_handler;
pub mod model;
pub mod policy;

pub use cache_config::CacheConfig;
pub use cache_file::{cache_file_bool, cache_file_integer, cache_file_string, CacheFile};
pub use error::{CacheError, IoError};
pub use file_handler::{FileHandler, FileHandlerView};
pub use model::CacheView;
pub use policy::Fetched;
