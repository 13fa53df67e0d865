//! What the cache store tells about its entries.
//!
//! The store is a directory tree on disk, one file per entry, and the files
//! are all there is to it: no index is kept beside them. The caller asks the
//! file system and reports the answers in these terms.

use vstd::prelude::*;

verus! {

/// What the cache store reports of an entry when asked for it.
#[derive(Debug, Clone, Copy, PartialEq, Eq, Structural)]
pub enum Probe {
    /// There is no such entry.
    Absent,
    /// The entry exists and was last written this many seconds ago, in
    /// whole seconds, rounded up.
    Present { age_secs: u64 },
    /// The store could not tell.
    Failed,
}

/// How an operation on one cache entry ended.
#[derive(Debug, Clone, Copy, PartialEq, Eq, Structural)]
pub enum StoreReply {
    /// It was carried out.
    Done,
    /// The entry was not there (any more).
    Absent,
    /// The store failed.
    Failed,
}

} // verus!
