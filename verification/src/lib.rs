//! Filesystem-backed asset I/O core: path resolution for content and sidecar
//! metadata files, a bounded admission protocol for open file descriptors,
//! directory-listing filtering, and the error classification shared by the
//! read and write facades. All filesystem and async plumbing lives outside
//! this crate; everything here is pure logic with verified contracts.

pub mod errors;
pub mod limiter;
pub mod paths;
pub mod reader;
pub mod writer;

pub use errors::AssetReaderError;
pub use errors::AssetWriterError;
pub use limiter::DescriptorLimiter;
pub use limiter::Permit;
pub use reader::FileAssetReader;
pub use writer::FileAssetWriter;
