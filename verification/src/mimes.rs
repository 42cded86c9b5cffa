//! Media-type detection from a file's name.

use vstd::prelude::*;
use vstd::string::StrSliceExecFns;
use vstd::string::StringExecFns;

verus! {

/// The extension of `name`: the characters after the last `'.'`, or `None`
/// when `name` holds no `'.'`.
pub open spec fn ext_of(name: Seq<char>) -> Option<Seq<char>>
    decreases name.len(),
{
    if name.len() == 0 {
        None
    } else if name.last() == '.' {
        Some(Seq::<char>::empty())
    } else {
        match ext_of(name.drop_last()) {
            Some(e) => Some(e.push(name.last())),
            None => None,
        }
    }
}

/// The media type recorded for a file whose name has extension `e`.
pub open spec fn mime_of_ext(e: Option<Seq<char>>) -> Seq<char> {
    match e {
        Some(x) => {
            if x == "html"@ {
                "text/html"@
            } else if x == "js"@ {
                "application/javascript"@
            } else if x == "css"@ {
                "text/css"@
            } else if x == "json"@ {
                "application/json"@
            } else if x == "txt"@ {
                "text/plain"@
            } else if x == "svg"@ {
                "image/svg+xml"@
            } else {
                "application/octet-stream"@
            }
        },
        None => "application/octet-stream"@,
    }
}

/// The media type recorded for a file named `name`.
pub open spec fn mime_for(name: Seq<char>) -> Seq<char> {
    mime_of_ext(ext_of(name))
}

/// A name without any `'.'` has no extension.
proof fn lemma_ext_of_none(s: Seq<char>)
    requires
        forall|k: int| 0 <= k < s.len() ==> s[k] != '.',
    ensures
        ext_of(s) is None,
    decreases s.len(),
{
    if s.len() > 0 {
        lemma_ext_of_none(s.drop_last());
    }
}

/// When `j` is the last `'.'` of `s`, the extension is what follows it.
proof fn lemma_ext_of_dot(s: Seq<char>, j: int)
    requires
        0 <= j < s.len(),
        s[j] == '.',
        forall|k: int| j < k < s.len() ==> s[k] != '.',
    ensures
        ext_of(s) == Some(s.subrange(j + 1, s.len() as int)),
    decreases s.len(),
{
    if j == s.len() - 1 {
        assert(s.subrange(j + 1, s.len() as int) =~= Seq::<char>::empty());
    } else {
        assert(s.last() != '.');
        lemma_ext_of_dot(s.drop_last(), j);
        assert(s.drop_last().subrange(j + 1, s.len() - 1).push(s.last()) =~= s.subrange(
            j + 1,
            s.len() as int,
        ));
    }
}

/// Compares two strings character by character.
pub fn str_eq(a: &str, b: &str) -> (r: bool)
    ensures
        r == (a@ == b@),
{
    let la = a.unicode_len();
    let lb = b.unicode_len();
    if la != lb {
        return false;
    }
    let mut i: usize = 0;
    while i < la
        invariant
            la == a@.len(),
            lb == b@.len(),
            la == lb,
            i <= la,
            forall|k: int| 0 <= k < i ==> a@[k] == b@[k],
        decreases la - i,
    {
        if a.get_char(i) != b.get_char(i) {
            return false;
        }
        i = i + 1;
    }
    proof {
        assert(a@ =~= b@);
    }
    true
}

/// Detects a file's media type from its name: a fixed table keyed by the
/// name's extension, `application/octet-stream` for everything else.
pub fn detect_mime(name: &str) -> (r: String)
    ensures
        r@ == mime_for(name@),
{
    let len = name.unicode_len();
    let mut i: usize = 0;
    let mut dot: usize = 0;
    let mut found = false;
    while i < len
        invariant
            len == name@.len(),
            i <= len,
            found ==> dot < i && name@[dot as int] == '.' && (forall|k: int|
                dot < k < i ==> name@[k] != '.'),
            !found ==> forall|k: int| 0 <= k < i ==> name@[k] != '.',
        decreases len - i,
    {
        if name.get_char(i) == '.' {
            dot = i;
            found = true;
        }
        i = i + 1;
    }
    if !found {
        proof {
            lemma_ext_of_none(name@);
        }
        return String::from_str("application/octet-stream");
    }
    proof {
        lemma_ext_of_dot(name@, dot as int);
    }
    let ext = name.substring_char(dot + 1, len);
    if str_eq(ext, "html") {
        String::from_str("text/html")
    } else if str_eq(ext, "js") {
        String::from_str("application/javascript")
    } else if str_eq(ext, "css") {
        String::from_str("text/css")
    } else if str_eq(ext, "json") {
        String::from_str("application/json")
    } else if str_eq(ext, "txt") {
        String::from_str("text/plain")
    } else if str_eq(ext, "svg") {
        String::from_str("image/svg+xml")
    } else {
        String::from_str("application/octet-stream")
    }
}

} // verus!
