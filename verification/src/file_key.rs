//! The key a file is stored under, as the manifest sees it.

use vstd::prelude::*;

verus! {

/// What a stored file's path contributes to the manifest: either the path as
/// text, or the raw bytes of a path that has no textual form on this
/// platform.  A batch that holds a `NonText` key can still be stored, but no
/// manifest can describe it faithfully, so manifest assembly rejects it.
#[derive(Debug)]
pub enum FileKey {
    Text(String),
    NonText(Vec<u8>),
}

/// The spec-level content of a [`FileKey`].
pub enum KeyModel {
    Text(Seq<char>),
    NonText(Seq<u8>),
}

impl View for FileKey {
    type V = KeyModel;

    open spec fn view(&self) -> KeyModel {
        match self {
            FileKey::Text(s) => KeyModel::Text(s@),
            FileKey::NonText(b) => KeyModel::NonText(b@),
        }
    }
}

/// Copies a byte vector element by element.
pub(crate) fn clone_bytes(b: &Vec<u8>) -> (r: Vec<u8>)
    ensures
        r@ == b@,
{
    let mut r: Vec<u8> = Vec::new();
    let mut i: usize = 0;
    while i < b.len()
        invariant
            i <= b.len(),
            r@ == b@.take(i as int),
        decreases b.len() - i,
    {
        r.push(b[i]);
        i = i + 1;
        proof {
            assert(r@ =~= b@.take(i as int));
        }
    }
    proof {
        assert(r@ =~= b@);
    }
    r
}

impl Clone for FileKey {
    /// A clone holds the same content as the original.
    fn clone(&self) -> (r: Self)
        ensures
            r@ == self@,
    {
        match self {
            FileKey::Text(s) => FileKey::Text(s.clone()),
            FileKey::NonText(b) => FileKey::NonText(clone_bytes(b)),
        }
    }
}

} // verus!
