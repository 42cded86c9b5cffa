//! The batch: every file of a directory tree handed to a storage backend,
//! the records and the algorithm set collected along the way.

use vstd::prelude::*;
use vstd::string::StringExecFns;
use crate::compression::{AlgorithmSet, CompressionAlgorithm, select_compression, spec_compression_for};
use crate::error::StoreError;
use crate::file_key::{FileKey, KeyModel};
use crate::mimes::{detect_mime, mime_for};

verus! {

/// One file of a batch: its path relative to the scan root, and its raw
/// contents as read from disk.
pub struct SourceFile {
    pub path: FileKey,
    pub contents: Vec<u8>,
}

/// A storage backend: a relational table or an object-store bucket, chosen
/// once by the caller.  `put` persists one object under a key derived from
/// the prefix and the file's relative path, applying `algorithm` to the
/// bytes before the write.  Nothing is assumed of the outcome: a backend may
/// reject any write with a message, and the batch then fails as a whole.
pub trait Backend {
    fn put(
        &mut self,
        prefix: &str,
        path: &FileKey,
        contents: &[u8],
        mimetype: &str,
        algorithm: Option<CompressionAlgorithm>,
    ) -> Result<(), String>;
}

/// The media type detected for a stored key: from the text's extension, or
/// the opaque default for a path with no textual form.
pub open spec fn mime_of_key(k: KeyModel) -> Seq<char> {
    match k {
        KeyModel::Text(s) => mime_for(s),
        KeyModel::NonText(_) => "application/octet-stream"@,
    }
}

/// The records a batch produces: one `(key, mimetype)` pair per file, in
/// batch order.
pub open spec fn batch_records(files: Seq<SourceFile>) -> Seq<(KeyModel, Seq<char>)> {
    files.map_values(|f: SourceFile| (f.path@, mime_of_key(f.path@)))
}

/// The algorithms a batch uses: the policy's choice for each file's media
/// type, collected over the batch.
pub open spec fn batch_algorithms(files: Seq<SourceFile>) -> Set<CompressionAlgorithm>
    decreases files.len(),
{
    if files.len() == 0 {
        Set::<CompressionAlgorithm>::empty()
    } else {
        let rest = batch_algorithms(files.drop_last());
        match spec_compression_for(mime_of_key(files.last().path@)) {
            Some(a) => rest.insert(a),
            None => rest,
        }
    }
}

/// The content of a collected record list.
pub open spec fn records_view(rs: Seq<(FileKey, String)>) -> Seq<(KeyModel, Seq<char>)> {
    rs.map_values(|p: (FileKey, String)| (p.0@, p.1@))
}

/// Stores every file of the batch with the active backend, in order, and
/// collects the batch's `(key, mimetype)` records and its algorithm set.
/// The batch is all-or-nothing: the first rejected write fails the whole
/// call and no records are returned.
pub fn store_all<B: Backend>(backend: &mut B, prefix: &str, files: Vec<SourceFile>) -> (r: Result<
    (Vec<(FileKey, String)>, AlgorithmSet),
    StoreError,
>)
    ensures
        r is Ok ==> records_view(r->Ok_0.0@) == batch_records(files@) && r->Ok_0.1@
            == batch_algorithms(files@),
        r is Err ==> r->Err_0 is BackendWrite,
        files@.len() == 0 ==> r is Ok,
{
    let mut records: Vec<(FileKey, String)> = Vec::new();
    let mut algorithms = AlgorithmSet::empty();
    let mut i: usize = 0;
    proof {
        assert(files@.take(0) =~= Seq::<SourceFile>::empty());
    }
    while i < files.len()
        invariant
            i <= files@.len(),
            records@.len() == i,
            forall|k: int|
                0 <= k < i ==> (#[trigger] records@[k]).0@ == files@[k].path@ && records@[k].1@
                    == mime_of_key(files@[k].path@),
            algorithms@ == batch_algorithms(files@.take(i as int)),
        decreases files@.len() - i,
    {
        let file = &files[i];
        proof {
            assert(*file == files@[i as int]);
        }
        let mimetype = match &file.path {
            FileKey::Text(s) => detect_mime(s.as_str()),
            FileKey::NonText(_) => String::from_str("application/octet-stream"),
        };
        proof {
            assert(mimetype@ == mime_of_key(files@[i as int].path@));
        }
        let algorithm = select_compression(mimetype.as_str());
        match backend.put(prefix, &file.path, file.contents.as_slice(), mimetype.as_str(), algorithm) {
            Ok(_) => {},
            Err(m) => {
                return Err(StoreError::BackendWrite(m));
            },
        }
        if let Some(a) = algorithm {
            algorithms.insert(a);
        }
        records.push((file.path.clone(), mimetype));
        i = i + 1;
        proof {
            assert(files@.take(i as int).drop_last() =~= files@.take(i as int - 1));
            assert(files@.take(i as int).last() == files@[i as int - 1]);
        }
    }
    proof {
        assert(files@.take(files@.len() as int) =~= files@);
        assert forall|k: int| 0 <= k < files@.len() implies records_view(records@)[k]
            == batch_records(files@)[k] by {
            assert(records_view(records@)[k] == (records@[k].0@, records@[k].1@));
            assert(batch_records(files@)[k] == (files@[k].path@, mime_of_key(files@[k].path@)));
        }
        assert(records_view(records@) =~= batch_records(files@));
    }
    Ok((records, algorithms))
}

/// Storing the same batch twice yields the same manifest content: the
/// records and the algorithm set depend only on the files' paths, so two
/// successful runs over files with equal paths agree pair for pair.
pub proof fn lemma_batch_idempotent(files1: Seq<SourceFile>, files2: Seq<SourceFile>)
    requires
        files1.len() == files2.len(),
        forall|i: int| 0 <= i < files1.len() ==> files1[i].path@ == files2[i].path@,
    ensures
        batch_records(files1) == batch_records(files2),
        batch_algorithms(files1) == batch_algorithms(files2),
    decreases files1.len(),
{
    assert(batch_records(files1) =~= batch_records(files2));
    if files1.len() > 0 {
        lemma_batch_idempotent(files1.drop_last(), files2.drop_last());
        assert(files1.last().path@ == files2.last().path@);
    }
}

} // verus!
