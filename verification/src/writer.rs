//! The write-side facade: resolves content and metadata targets under the
//! root and classifies write failures. Writes are deliberately not gated by
//! the descriptor limiter — write volume is caller-paced and far below the
//! read fan-out of a bulk load, so gating would add contention without
//! protecting the scarce resource.
//!
//! Each write-side operation is a self-contained transaction against the
//! filesystem: the caller's runtime performs the create, remove, rename or
//! directory call on the absolute paths resolved here. Before a write or a
//! rename, the target's parent directory chain is created if absent; the
//! parent is computed here too (`paths::parent_dir`).

use vstd::prelude::*;

use crate::errors::AssetWriterError;
use crate::paths::join;
use crate::paths::join_spec;
use crate::paths::meta_path;
use crate::paths::meta_path_spec;

verus! {

/// The write side: every operation resolves its target against `root_path`.
pub struct FileAssetWriter {
    pub root_path: String,
}

impl FileAssetWriter {
    /// Creates a writer rooted at an already-resolved absolute directory.
    /// Base-path discovery, and creating the root when asked to, are the
    /// caller's affair.
    pub fn new(root_path: String) -> (r: FileAssetWriter)
        ensures
            r.root_path == root_path,
    {
        FileAssetWriter { root_path }
    }

    /// The absolute path a content write, removal or rename operates on.
    pub fn target(&self, path: &str) -> (r: String)
        ensures
            r@ == join_spec(self.root_path@, path@),
    {
        join(self.root_path.as_str(), path)
    }

    /// The absolute path a metadata write, removal or rename operates on:
    /// the sidecar metadata path, resolved under the root. Shared with the
    /// read side, so every sidecar that can be written is also found by
    /// `read_meta` and excluded from listings.
    pub fn meta_target(&self, path: &str) -> (r: String)
        ensures
            r@ == join_spec(self.root_path@, meta_path_spec(path@)),
    {
        let m = meta_path(path);
        join(self.root_path.as_str(), m.as_str())
    }
}

/// Classifies a failed write-side call: a missing target (or missing parent)
/// is reported as `NotFound` carrying the absolute path that was tried; any
/// other failure is surfaced as a generic I/O error with its description.
pub fn write_error(full_path: String, not_found: bool, message: String) -> (r: AssetWriterError)
    ensures
        not_found ==> r == AssetWriterError::NotFound(full_path),
        !not_found ==> r == AssetWriterError::Io(message),
{
    if not_found {
        AssetWriterError::NotFound(full_path)
    } else {
        AssetWriterError::Io(message)
    }
}

} // verus!
