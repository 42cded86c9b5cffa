//! Batches against fake backends: scenarios for success, emptiness and
//! backend failure.

use file_store::db::{add_path_into_database, manifest_entries};
use file_store::storage::{store_all, Backend, SourceFile};
use file_store::{CompressionAlgorithm, FileKey, StoreError};

/// A backend that remembers every accepted write.
#[derive(Default)]
struct RecordingBackend {
    puts: Vec<(String, String, Vec<u8>, String, Option<CompressionAlgorithm>)>,
}

impl Backend for RecordingBackend {
    fn put(
        &mut self,
        prefix: &str,
        path: &FileKey,
        contents: &[u8],
        mimetype: &str,
        algorithm: Option<CompressionAlgorithm>,
    ) -> Result<(), String> {
        let shown = match path {
            FileKey::Text(s) => s.clone(),
            FileKey::NonText(b) => format!("{:?}", b),
        };
        self.puts.push((
            String::from(prefix),
            shown,
            contents.to_vec(),
            String::from(mimetype),
            algorithm,
        ));
        Ok(())
    }
}

/// A backend that rejects the n-th write (counting from one).
struct FailingBackend {
    calls: usize,
    fail_on: usize,
}

impl Backend for FailingBackend {
    fn put(
        &mut self,
        _prefix: &str,
        _path: &FileKey,
        _contents: &[u8],
        _mimetype: &str,
        _algorithm: Option<CompressionAlgorithm>,
    ) -> Result<(), String> {
        self.calls += 1;
        if self.calls == self.fail_on {
            Err(String::from("quota exceeded"))
        } else {
            Ok(())
        }
    }
}

fn source(name: &str, contents: &[u8]) -> SourceFile {
    SourceFile {
        path: FileKey::Text(String::from(name)),
        contents: contents.to_vec(),
    }
}

#[test]
fn doc_directory_scenario() {
    let mut backend = RecordingBackend::default();
    let files = vec![
        source("index.html", b"<html></html>"),
        source("search-index.js", b"var x = 1;"),
    ];
    let (manifest, algorithms) =
        add_path_into_database(&mut backend, "crate-1.0.0", files).unwrap();
    let entries = manifest_entries(&manifest).unwrap();
    assert_eq!(
        entries,
        vec![
            (String::from("text/html"), String::from("index.html")),
            (
                String::from("application/javascript"),
                String::from("search-index.js")
            ),
        ]
    );
    assert_eq!(
        serde_json::to_string(&manifest).unwrap(),
        r#"[["text/html","index.html"],["application/javascript","search-index.js"]]"#
    );
    // Both media types fall under the compression policy, so the batch's
    // set holds zstd and nothing else.
    assert!(algorithms.contains(CompressionAlgorithm::Zstd));
    assert!(!algorithms.contains(CompressionAlgorithm::Bzip2));
    assert!(!algorithms.contains(CompressionAlgorithm::Gzip));
    assert!(!algorithms.is_empty());
    // Every file reached the backend under the caller's prefix.
    assert_eq!(backend.puts.len(), 2);
    assert_eq!(backend.puts[0].0, "crate-1.0.0");
    assert_eq!(backend.puts[0].1, "index.html");
    assert_eq!(backend.puts[0].2, b"<html></html>".to_vec());
    assert_eq!(backend.puts[0].3, "text/html");
    assert_eq!(backend.puts[0].4, Some(CompressionAlgorithm::Zstd));
    assert_eq!(backend.puts[1].1, "search-index.js");
}

#[test]
fn empty_directory_succeeds_with_empty_manifest() {
    let mut backend = RecordingBackend::default();
    let (manifest, algorithms) =
        add_path_into_database(&mut backend, "crate-1.0.0", Vec::new()).unwrap();
    assert_eq!(serde_json::to_string(&manifest).unwrap(), "[]");
    assert!(algorithms.is_empty());
    assert_eq!(backend.puts.len(), 0);
}

#[test]
fn backend_failure_on_third_of_five_fails_the_batch() {
    let mut backend = FailingBackend { calls: 0, fail_on: 3 };
    let files = vec![
        source("a.txt", b"a"),
        source("b.txt", b"b"),
        source("c.txt", b"c"),
        source("d.txt", b"d"),
        source("e.txt", b"e"),
    ];
    let result = store_all(&mut backend, "prefix", files);
    match result {
        Err(StoreError::BackendWrite(message)) => assert_eq!(message, "quota exceeded"),
        _ => panic!("expected a single batch failure"),
    }
    // The two earlier writes happened, but the caller sees no records and
    // no manifest at all: the batch is not partially successful.
    assert_eq!(backend.calls, 3);
}

#[test]
fn uncompressed_batch_has_empty_algorithm_set() {
    let mut backend = RecordingBackend::default();
    let files = vec![source("logo.png", b"\x89PNG")];
    let (_, algorithms) = add_path_into_database(&mut backend, "p", files).unwrap();
    assert!(algorithms.is_empty());
    assert_eq!(backend.puts[0].3, "application/octet-stream");
    assert_eq!(backend.puts[0].4, None);
}

#[test]
fn same_batch_twice_gives_identical_manifest_content() {
    let make_files = || {
        vec![
            source("index.html", b"<html></html>"),
            source("search-index.js", b"var x = 1;"),
            source("logo.png", b"\x89PNG"),
        ]
    };
    let mut backend = RecordingBackend::default();
    let (records1, algorithms1) = store_all(&mut backend, "p", make_files()).unwrap();
    let (records2, algorithms2) = store_all(&mut backend, "p", make_files()).unwrap();
    let shape = |records: &[(FileKey, String)]| {
        records
            .iter()
            .map(|(key, mime)| {
                let text = match key {
                    FileKey::Text(s) => s.clone(),
                    FileKey::NonText(b) => format!("{:?}", b),
                };
                (text, mime.clone())
            })
            .collect::<Vec<_>>()
    };
    assert_eq!(shape(&records1), shape(&records2));
    for algorithm in [
        CompressionAlgorithm::Zstd,
        CompressionAlgorithm::Bzip2,
        CompressionAlgorithm::Gzip,
    ] {
        assert_eq!(algorithms1.contains(algorithm), algorithms2.contains(algorithm));
    }
}

#[test]
fn non_text_path_is_stored_but_fails_the_manifest() {
    // Storing tolerates a path without a textual form; only manifest
    // assembly rejects it.
    let mut backend = RecordingBackend::default();
    let files = vec![SourceFile {
        path: FileKey::NonText(vec![0xff, 0xfe]),
        contents: vec![1, 2, 3],
    }];
    let result = add_path_into_database(&mut backend, "p", files);
    assert!(matches!(result, Err(StoreError::PathEncoding(_))));
    assert_eq!(backend.puts.len(), 1);
    assert_eq!(backend.puts[0].3, "application/octet-stream");
}

#[test]
fn source_read_failures_have_their_own_variant() {
    // Reading the scan root happens outside this library; the variant that
    // reports it travels through the same error type.
    let error = StoreError::SourceRead(String::from("permission denied"));
    assert!(matches!(error, StoreError::SourceRead(_)));
}
