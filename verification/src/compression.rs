//! The compression policy and the set of algorithms a batch used.

use vstd::prelude::*;
use vstd::string::StrSliceExecFns;
use crate::mimes::str_eq;

verus! {

/// A compression scheme a stored object may be written with.  Retrieval
/// needs to know which schemes a batch used in order to decompress.
#[derive(Clone, Copy, Debug, PartialEq, Eq, Structural)]
pub enum CompressionAlgorithm {
    Zstd,
    Bzip2,
    Gzip,
}

/// The set of distinct compression algorithms used across one batch: one
/// flag per algorithm, empty when every object was stored uncompressed.
#[derive(Clone, Copy, Debug)]
pub struct AlgorithmSet {
    zstd: bool,
    bzip2: bool,
    gzip: bool,
}

impl View for AlgorithmSet {
    type V = Set<CompressionAlgorithm>;

    closed spec fn view(&self) -> Set<CompressionAlgorithm> {
        Set::new(
            |a: CompressionAlgorithm|
                match a {
                    CompressionAlgorithm::Zstd => self.zstd,
                    CompressionAlgorithm::Bzip2 => self.bzip2,
                    CompressionAlgorithm::Gzip => self.gzip,
                },
        )
    }
}

impl AlgorithmSet {
    /// The empty set: no object of the batch was compressed yet.
    pub fn empty() -> (r: Self)
        ensures
            r@ == Set::<CompressionAlgorithm>::empty(),
    {
        let r = AlgorithmSet { zstd: false, bzip2: false, gzip: false };
        proof {
            assert(r@ =~= Set::<CompressionAlgorithm>::empty());
        }
        r
    }

    /// Records that `a` was used by some object of the batch.
    pub fn insert(&mut self, a: CompressionAlgorithm)
        ensures
            final(self)@ == old(self)@.insert(a),
    {
        match a {
            CompressionAlgorithm::Zstd => {
                self.zstd = true;
            },
            CompressionAlgorithm::Bzip2 => {
                self.bzip2 = true;
            },
            CompressionAlgorithm::Gzip => {
                self.gzip = true;
            },
        }
        proof {
            assert(self@ =~= old(self)@.insert(a));
        }
    }

    /// Whether `a` was used by the batch.
    pub fn contains(&self, a: CompressionAlgorithm) -> (r: bool)
        ensures
            r == self@.contains(a),
    {
        match a {
            CompressionAlgorithm::Zstd => self.zstd,
            CompressionAlgorithm::Bzip2 => self.bzip2,
            CompressionAlgorithm::Gzip => self.gzip,
        }
    }

    /// Whether the batch used no compression at all.
    pub fn is_empty(&self) -> (r: bool)
        ensures
            r == (self@ == Set::<CompressionAlgorithm>::empty()),
    {
        let r = !(self.zstd || self.bzip2 || self.gzip);
        proof {
            if r {
                assert(self@ =~= Set::<CompressionAlgorithm>::empty());
            } else {
                assert(self@.contains(CompressionAlgorithm::Zstd) || self@.contains(
                    CompressionAlgorithm::Bzip2,
                ) || self@.contains(CompressionAlgorithm::Gzip));
            }
        }
        r
    }
}

/// The policy's choice for media type `m`: textual content and
/// JavaScript/JSON payloads compress well and are stored with zstd;
/// everything else is stored as is.
pub open spec fn spec_compression_for(m: Seq<char>) -> Option<CompressionAlgorithm> {
    if (m.len() >= 5 && m.subrange(0, 5) == "text/"@) || m == "application/javascript"@ || m
        == "application/json"@ {
        Some(CompressionAlgorithm::Zstd)
    } else {
        None
    }
}

/// Selects the compression algorithm for one file from its media type.
pub fn select_compression(mimetype: &str) -> (r: Option<CompressionAlgorithm>)
    ensures
        r == spec_compression_for(mimetype@),
{
    let len = mimetype.unicode_len();
    if len >= 5 {
        let head = mimetype.substring_char(0, 5);
        if str_eq(head, "text/") {
            return Some(CompressionAlgorithm::Zstd);
        }
    }
    if str_eq(mimetype, "application/javascript") || str_eq(mimetype, "application/json") {
        Some(CompressionAlgorithm::Zstd)
    } else {
        None
    }
}

} // verus!
