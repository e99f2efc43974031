//! The task descriptor: one remote resource paired with one local destination.

use vstd::prelude::*;

verus! {

/// An input pair naming a remote resource and a local destination path.
/// Immutable once built; the caller resolves any path shorthand in
/// `local_path` before the descriptor reaches the reconciliation logic.
#[derive(Debug, Clone, PartialEq, Eq)]
pub struct DownloadTask {
    pub remote_url: String,
    pub local_path: String,
}

impl DownloadTask {
    /// Builds a descriptor from its two parts, unchanged.
    pub fn new(remote_url: String, local_path: String) -> (r: Self)
        ensures
            r.remote_url@ == remote_url@,
            r.local_path@ == local_path@,
    {
        DownloadTask { remote_url, local_path }
    }
}

} // verus!
