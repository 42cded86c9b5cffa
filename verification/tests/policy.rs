//! Media-type detection and the compression policy.

use file_store::compression::select_compression;
use file_store::mimes::detect_mime;
use file_store::{AlgorithmSet, CompressionAlgorithm};

#[test]
fn detects_known_extensions() {
    assert_eq!(detect_mime("index.html"), "text/html");
    assert_eq!(detect_mime("search-index.js"), "application/javascript");
    assert_eq!(detect_mime("style.css"), "text/css");
    assert_eq!(detect_mime("data.json"), "application/json");
    assert_eq!(detect_mime("readme.txt"), "text/plain");
    assert_eq!(detect_mime("logo.svg"), "image/svg+xml");
}

#[test]
fn uses_the_last_dot_for_the_extension() {
    assert_eq!(detect_mime("jquery.min.js"), "application/javascript");
    assert_eq!(detect_mime("archive.tar.gz"), "application/octet-stream");
}

#[test]
fn falls_back_to_octet_stream() {
    assert_eq!(detect_mime("LICENSE"), "application/octet-stream");
    assert_eq!(detect_mime("trailing."), "application/octet-stream");
    assert_eq!(detect_mime(""), "application/octet-stream");
    assert_eq!(detect_mime(".hidden"), "application/octet-stream");
}

#[test]
fn policy_compresses_textual_content_with_zstd() {
    assert_eq!(
        select_compression("text/html"),
        Some(CompressionAlgorithm::Zstd)
    );
    assert_eq!(
        select_compression("text/plain"),
        Some(CompressionAlgorithm::Zstd)
    );
    assert_eq!(
        select_compression("application/javascript"),
        Some(CompressionAlgorithm::Zstd)
    );
    assert_eq!(
        select_compression("application/json"),
        Some(CompressionAlgorithm::Zstd)
    );
}

#[test]
fn policy_leaves_binary_content_alone() {
    assert_eq!(select_compression("image/png"), None);
    assert_eq!(select_compression("application/octet-stream"), None);
    assert_eq!(select_compression("tex"), None);
}

#[test]
fn algorithm_set_tracks_inserts() {
    let mut set = AlgorithmSet::empty();
    assert!(set.is_empty());
    assert!(!set.contains(CompressionAlgorithm::Zstd));
    set.insert(CompressionAlgorithm::Zstd);
    assert!(!set.is_empty());
    assert!(set.contains(CompressionAlgorithm::Zstd));
    assert!(!set.contains(CompressionAlgorithm::Gzip));
    // Inserting again changes nothing: it is a set.
    set.insert(CompressionAlgorithm::Zstd);
    assert!(set.contains(CompressionAlgorithm::Zstd));
    set.insert(CompressionAlgorithm::Gzip);
    assert!(set.contains(CompressionAlgorithm::Gzip));
    assert!(!set.contains(CompressionAlgorithm::Bzip2));
}
