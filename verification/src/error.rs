//! The failures a batch can end with.

use vstd::prelude::*;

verus! {

/// Why a batch failed.  A batch is all-or-nothing: whichever variant comes
/// back, no manifest was produced and the caller must not treat the batch as
/// partially successful.
#[derive(Debug)]
pub enum StoreError {
    /// The active backend rejected a write; carries the backend's message.
    BackendWrite(String),
    /// A stored file's path cannot be represented as text, so no faithful
    /// manifest entry exists for it; carries the raw path bytes.
    PathEncoding(Vec<u8>),
    /// The scan root or one of its files could not be read; carries a
    /// description of the failed read.
    SourceRead(String),
}

} // verus!
