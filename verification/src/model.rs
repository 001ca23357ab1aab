//! What a cache stands for in contracts.

use crate::file_handler::FileHandlerView;
use vstd::prelude::*;

verus! {

/// A cache as contracts see it: the handle on its backing file, and the
/// value it holds in memory.
pub struct CacheView<T> {
    /// The handle on the backing file.
    pub handler: FileHandlerView,
    /// The value in memory.
    pub value: T,
}

} // verus!
