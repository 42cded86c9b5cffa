//! Manifest assembly: from the records a batch collected to the caller's
//! JSON manifest, and back.

use vstd::prelude::*;
use vstd::pervasive::unreached;
use crate::compression::AlgorithmSet;
use crate::error::StoreError;
use crate::file_key::{clone_bytes, FileKey, KeyModel};
use crate::json::{
    arr_value_of, entry_model, json_array, json_string, manifest_model, str_value_of,
    text_to_value, value_to_text, json_text_of,
};
use crate::storage::{Backend, SourceFile, batch_algorithms, batch_records, records_view, store_all};

verus! {

/// Whether every record's key has a textual form.
pub open spec fn all_text(records: Seq<(KeyModel, Seq<char>)>) -> bool {
    forall|i: int| 0 <= i < records.len() ==> (#[trigger] records[i]).0 is Text
}

/// The text of a key, for a key that has one.
pub open spec fn key_text(k: KeyModel) -> Seq<char> {
    match k {
        KeyModel::Text(s) => s,
        KeyModel::NonText(_) => Seq::<char>::empty(),
    }
}

/// The manifest content for a record list: one `(mimetype, path)` pair per
/// record — mimetype first — in record order.
pub open spec fn manifest_of(records: Seq<(KeyModel, Seq<char>)>) -> Seq<(Seq<char>, Seq<char>)> {
    records.map_values(|p: (KeyModel, Seq<char>)| (p.1, key_text(p.0)))
}

/// The content of a parsed entry list.
pub open spec fn pairs_view(es: Seq<(String, String)>) -> Seq<(Seq<char>, Seq<char>)> {
    es.map_values(|p: (String, String)| (p.0@, p.1@))
}

/// Builds the JSON manifest for a batch's `(key, mimetype)` records: an
/// array of `[mimetype, key]` string pairs, preserving record order exactly,
/// with no sorting and no deduplication.  A key without a textual form is
/// fatal for the whole manifest: the call fails and returns no partial
/// value, since a partial manifest would silently hide files from the
/// caller.
pub fn file_list_to_json(file_list: Vec<(FileKey, String)>) -> (r: Result<
    serde_json::Value,
    StoreError,
>)
    ensures
        r is Ok <==> all_text(records_view(file_list@)),
        r is Ok ==> manifest_model(r->Ok_0) == Some(manifest_of(records_view(file_list@))),
        r is Err ==> r->Err_0 is PathEncoding,
{
    let mut items: Vec<serde_json::Value> = Vec::new();
    let mut i: usize = 0;
    while i < file_list.len()
        invariant
            i <= file_list@.len(),
            items@.len() == i,
            forall|k: int| 0 <= k < i ==> (#[trigger] file_list@[k]).0@ is Text,
            forall|k: int|
                0 <= k < i ==> #[trigger] entry_model(items@[k]) == Some(
                    (file_list@[k].1@, key_text(file_list@[k].0@)),
                ),
        decreases file_list@.len() - i,
    {
        let pair = &file_list[i];
        proof {
            assert(*pair == file_list@[i as int]);
        }
        match &pair.0 {
            FileKey::Text(path) => {
                let mut entry: Vec<serde_json::Value> = Vec::new();
                entry.push(json_string(pair.1.clone()));
                entry.push(json_string(path.clone()));
                let entry_value = json_array(entry);
                proof {
                    assert(entry_model(entry_value) == Some(
                        (file_list@[i as int].1@, key_text(file_list@[i as int].0@)),
                    ));
                }
                items.push(entry_value);
            },
            FileKey::NonText(bytes) => {
                proof {
                    assert(records_view(file_list@)[i as int].0 is NonText);
                    assert(!all_text(records_view(file_list@)));
                }
                return Err(StoreError::PathEncoding(clone_bytes(bytes)));
            },
        }
        i = i + 1;
    }
    let v = json_array(items);
    proof {
        assert(manifest_model(v) matches Some(m) && m =~= manifest_of(records_view(file_list@)));
    }
    Ok(v)
}

/// Converts the bulk uploader's raw output — the collected `(key, mimetype)`
/// records and the algorithm set — into the caller-facing manifest, passing
/// the algorithm set through unchanged.  Pure transformation: nothing is
/// stored here, and a key without a textual form fails the whole call.
pub fn assemble(file_list: Vec<(FileKey, String)>, algorithms: AlgorithmSet) -> (r: Result<
    (serde_json::Value, AlgorithmSet),
    StoreError,
>)
    ensures
        r is Ok <==> all_text(records_view(file_list@)),
        r is Ok ==> manifest_model(r->Ok_0.0) == Some(manifest_of(records_view(file_list@)))
            && r->Ok_0.1 == algorithms,
        r is Err ==> r->Err_0 is PathEncoding,
{
    match file_list_to_json(file_list) {
        Ok(v) => Ok((v, algorithms)),
        Err(e) => Err(e),
    }
}

/// Reads the `(mimetype, path)` pairs back out of a manifest value.
/// Returns `None` exactly when the value is not an array of two-element
/// string arrays.
pub fn manifest_entries(v: &serde_json::Value) -> (r: Option<Vec<(String, String)>>)
    ensures
        match r {
            Some(es) => manifest_model(*v) == Some(pairs_view(es@)),
            None => manifest_model(*v) is None,
        },
{
    let items = match v.as_array() {
        Some(items) => items,
        None => {
            return None;
        },
    };
    let mut es: Vec<(String, String)> = Vec::new();
    let mut i: usize = 0;
    while i < items.len()
        invariant
            arr_value_of(*v) == Some(items@),
            i <= items@.len(),
            es@.len() == i,
            forall|k: int|
                0 <= k < i ==> #[trigger] entry_model(items@[k]) == Some(
                    (es@[k].0@, es@[k].1@),
                ),
        decreases items@.len() - i,
    {
        let item = &items[i];
        proof {
            assert(*item == items@[i as int]);
        }
        let fields = match item.as_array() {
            Some(fields) => fields,
            None => {
                proof {
                    assert(entry_model(items@[i as int]) is None);
                }
                return None;
            },
        };
        if fields.len() != 2 {
            proof {
                assert(entry_model(items@[i as int]) is None);
            }
            return None;
        }
        let mimetype = match fields[0].as_str() {
            Some(s) => s,
            None => {
                proof {
                    assert(str_value_of(fields@[0]) is None);
                    assert(entry_model(items@[i as int]) is None);
                }
                return None;
            },
        };
        let path = match fields[1].as_str() {
            Some(s) => s,
            None => {
                proof {
                    assert(str_value_of(fields@[1]) is None);
                    assert(entry_model(items@[i as int]) is None);
                }
                return None;
            },
        };
        es.push((mimetype.to_owned(), path.to_owned()));
        i = i + 1;
    }
    proof {
        assert(manifest_model(*v) matches Some(m) && m =~= pairs_view(es@));
    }
    Some(es)
}

/// Prints the manifest for a batch's records as JSON text, the form in
/// which it is embedded in a larger stored record.
pub fn manifest_to_json_text(file_list: Vec<(FileKey, String)>) -> (r: Result<String, StoreError>)
    ensures
        r is Ok <==> all_text(records_view(file_list@)),
        r is Ok ==> exists|v: serde_json::Value|
            #![trigger json_text_of(v)]
            manifest_model(v) == Some(manifest_of(records_view(file_list@))) && json_text_of(v)
                == r->Ok_0@,
        r is Err ==> r->Err_0 is PathEncoding,
{
    match file_list_to_json(file_list) {
        Ok(v) => {
            match value_to_text(&v) {
                Some(t) => Ok(t),
                None => unreached(),
            }
        },
        Err(e) => Err(e),
    }
}

/// Parses manifest JSON text back into its `(mimetype, path)` pairs.  Text
/// that `serde_json` printed for a manifest parses back to exactly the
/// pairs that manifest held; any other text yields `None` or some other
/// array of pairs, never a distorted manifest.
pub fn manifest_from_json_text(text: &str) -> (r: Option<Vec<(String, String)>>)
    ensures
        forall|v: serde_json::Value|
            #![trigger json_text_of(v)]
            json_text_of(v) == text@ && manifest_model(v) is Some ==> r is Some && pairs_view(
                r->0@,
            ) == manifest_model(v)->0,
{
    let parsed = match text_to_value(text) {
        Some(parsed) => parsed,
        None => {
            return None;
        },
    };
    match manifest_entries(&parsed) {
        Some(es) => Some(es),
        None => None,
    }
}

/// Round trip: printing the manifest for a record list and parsing the text
/// back yields exactly the original `(mimetype, path)` pairs, in order.
pub fn manifest_round_trip(file_list: Vec<(FileKey, String)>) -> (r: Option<Vec<(String, String)>>)
    ensures
        all_text(records_view(file_list@)) ==> r is Some && pairs_view(r->0@) == manifest_of(
            records_view(file_list@),
        ),
{
    let ghost fl = file_list@;
    match manifest_to_json_text(file_list) {
        Ok(t) => {
            let r = manifest_from_json_text(t.as_str());
            proof {
                let v = choose|v: serde_json::Value|
                    #![trigger json_text_of(v)]
                    manifest_model(v) == Some(manifest_of(records_view(fl))) && json_text_of(v)
                        == t@;
                assert(json_text_of(v) == t@ && manifest_model(v) is Some);
            }
            r
        },
        Err(_) => None,
    }
}

/// Stores every file of the batch under the prefix and returns the JSON
/// manifest — `[[mimetype, path], …]` in batch order — together with the
/// set of compression algorithms the batch used.  The batch is
/// all-or-nothing: a rejected write or a path without a textual form fails
/// the call and no manifest is returned.
pub fn add_path_into_database<B: Backend>(
    backend: &mut B,
    prefix: &str,
    files: Vec<SourceFile>,
) -> (r: Result<(serde_json::Value, AlgorithmSet), StoreError>)
    ensures
        r is Ok ==> manifest_model(r->Ok_0.0) == Some(manifest_of(batch_records(files@)))
            && r->Ok_0.1@ == batch_algorithms(files@),
        r is Ok ==> all_text(batch_records(files@)),
        r is Err ==> r->Err_0 is BackendWrite || r->Err_0 is PathEncoding,
        r is Err && r->Err_0 is PathEncoding ==> !all_text(batch_records(files@)),
        files@.len() == 0 ==> r is Ok,
{
    let (file_list, algorithms) = match store_all(backend, prefix, files) {
        Ok(p) => p,
        Err(e) => {
            return Err(e);
        },
    };
    assemble(file_list, algorithms)
}

} // verus!
