//! The error surface: every fallible operation reports either that its
//! target was not found (carrying a path for diagnostics) or a generic I/O
//! failure (carrying its description). No other error kinds exist, no
//! operation retries internally, and no verified operation panics.

use vstd::prelude::*;

verus! {

/// A read-side failure: the target did not exist, or some other I/O error.
#[derive(Debug, PartialEq, Eq)]
pub enum AssetReaderError {
    /// The path that was tried did not exist. Open failures carry the
    /// absolute path; a directory-type query carries the relative one —
    /// callers should depend on the kind, not on which form the path takes.
    NotFound(String),
    /// Any other failure, with its description.
    Io(String),
}

impl AssetReaderError {
    /// The error reports a missing target.
    pub open spec fn is_not_found(&self) -> bool {
        self matches AssetReaderError::NotFound(_)
    }

    /// The path a missing target was reported with.
    pub open spec fn not_found_path(&self) -> Seq<char>
        recommends
            self.is_not_found(),
    {
        match self {
            AssetReaderError::NotFound(p) => p@,
            AssetReaderError::Io(_) => Seq::empty(),
        }
    }

    /// The description a generic failure was reported with.
    pub open spec fn io_message(&self) -> Seq<char>
        recommends
            !self.is_not_found(),
    {
        match self {
            AssetReaderError::NotFound(_) => Seq::empty(),
            AssetReaderError::Io(m) => m@,
        }
    }
}

/// A write-side failure, with the same two kinds as the read side: the
/// target (or its parent) did not exist, or some other I/O error.
#[derive(Debug, PartialEq, Eq)]
pub enum AssetWriterError {
    /// The path that was tried did not exist, carried absolute.
    NotFound(String),
    /// Any other failure, with its description.
    Io(String),
}

impl AssetWriterError {
    /// The error reports a missing target.
    pub open spec fn is_not_found(&self) -> bool {
        self matches AssetWriterError::NotFound(_)
    }

    /// The path a missing target was reported with.
    pub open spec fn not_found_path(&self) -> Seq<char>
        recommends
            self.is_not_found(),
    {
        match self {
            AssetWriterError::NotFound(p) => p@,
            AssetWriterError::Io(_) => Seq::empty(),
        }
    }

    /// The description a generic failure was reported with.
    pub open spec fn io_message(&self) -> Seq<char>
        recommends
            !self.is_not_found(),
    {
        match self {
            AssetWriterError::NotFound(_) => Seq::empty(),
            AssetWriterError::Io(m) => m@,
        }
    }
}

} // verus!
