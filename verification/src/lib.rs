//! Verified storage of a batch of files together with the manifest that
//! describes the batch.
//!
//! A batch is a list of files, each with a path and raw contents.  Every file
//! is handed to a storage backend (a relational table or an object store,
//! chosen by the caller through the [`storage::Backend`] trait) under a
//! caller-supplied prefix, together with a detected media type and a selected
//! compression algorithm.  The result of a successful batch is a manifest — a
//! JSON array of `[mimetype, path]` pairs in batch order — plus the set of
//! compression algorithms that the batch used.

pub mod compression;
pub mod db;
pub mod error;
pub mod file_key;
pub mod json;
pub mod mimes;
pub mod storage;

pub use compression::AlgorithmSet;
pub use compression::CompressionAlgorithm;
pub use error::StoreError;
pub use file_key::FileKey;
