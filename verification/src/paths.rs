//! Pure path arithmetic shared by the read and write facades: joining a
//! relative asset path onto the root, deriving the sidecar metadata path,
//! computing a parent directory, stripping the root prefix, and recognising
//! metadata-suffixed names.
//!
//! Paths are slash-separated strings. The root is an absolute directory path
//! fixed at construction of a reader or writer; asset paths are relative to
//! it. Joining an empty relative path yields the root itself.

use vstd::prelude::*;
use vstd::string::StrSliceExecFns;
use vstd::string::StringExecFns;

verus! {

/// The fixed suffix appended to an asset path to name its sidecar metadata
/// file.
pub open spec fn meta_suffix() -> Seq<char> {
    ".meta"@
}

/// The metadata path for an asset path: the suffix appended to the final
/// path segment (equivalently, to the whole path, since the final segment
/// is a suffix of the path).
pub open spec fn meta_path_spec(path: Seq<char>) -> Seq<char> {
    path + meta_suffix()
}

/// Derives the sidecar metadata path from an asset path. Pure: the result
/// is a function of the characters of `path` alone.
pub fn meta_path(path: &str) -> (r: String)
    ensures
        r@ == meta_path_spec(path@),
{
    let r = path.to_owned();
    let r = r.concat(".meta");
    r
}

/// An absolute path under `root`: `root`, a separator, then the non-empty
/// relative remainder.
pub open spec fn join_spec(root: Seq<char>, rel: Seq<char>) -> Seq<char> {
    if rel.len() == 0 {
        root
    } else {
        root + "/"@ + rel
    }
}

/// Joins a relative asset path onto the root directory.
pub fn join(root: &str, rel: &str) -> (r: String)
    ensures
        r@ == join_spec(root@, rel@),
{
    if rel.unicode_len() == 0 {
        root.to_owned()
    } else {
        let r = root.to_owned();
        let r = r.concat("/");
        let r = r.concat(rel);
        r
    }
}

/// The parent directory of a path: everything before the last separator,
/// or nothing when the path has no separator.
pub open spec fn parent_spec(path: Seq<char>) -> Option<Seq<char>>
    decreases path.len(),
{
    if path.len() == 0 {
        None
    } else if path.last() == '/' {
        Some(path.drop_last())
    } else {
        parent_spec(path.drop_last())
    }
}

/// Computes the parent directory of `path`, the prefix before its last
/// separator; `None` when `path` holds no separator.
pub fn parent_dir(path: &str) -> (r: Option<String>)
    ensures
        match r {
            Some(p) => parent_spec(path@) == Some(p@),
            None => parent_spec(path@) is None,
        },
{
    let n = path.unicode_len();
    let mut i: usize = n;
    proof {
        assert(path@.take(n as int) =~= path@);
    }
    while i > 0
        invariant
            i <= n,
            n == path@.len(),
            parent_spec(path@.take(i as int)) == parent_spec(path@),
        decreases i,
    {
        if path.get_char(i - 1) == '/' {
            let p = path.substring_char(0, i - 1);
            proof {
                assert(path@.take(i as int).drop_last() =~= path@.subrange(0, i as int - 1));
            }
            return Some(p.to_owned());
        }
        proof {
            assert(path@.take(i as int).drop_last() =~= path@.take(i as int - 1));
        }
        i = i - 1;
    }
    None
}

/// `abs` lies strictly under the directory `root`: it extends `root` with a
/// separator and at least one further character.
pub open spec fn is_under_root(root: Seq<char>, abs: Seq<char>) -> bool {
    &&& abs.len() > root.len() + 1
    &&& abs.take(root.len() as int) == root
    &&& abs[root.len() as int] == '/'
}

/// The remainder of `abs` after the root directory and its separator.
pub open spec fn strip_spec(root: Seq<char>, abs: Seq<char>) -> Seq<char> {
    abs.skip(root.len() as int + 1)
}

/// Strips the root prefix and its separator from an absolute path, giving
/// the path relative to the root; `None` when `abs` does not lie under
/// `root`.
pub fn strip_root(root: &str, abs: &str) -> (r: Option<String>)
    ensures
        r is Some <==> is_under_root(root@, abs@),
        match r {
            Some(rel) => rel@ == strip_spec(root@, abs@),
            None => !is_under_root(root@, abs@),
        },
{
    let rn = root.unicode_len();
    let an = abs.unicode_len();
    if rn == usize::MAX || an <= rn + 1 {
        return None;
    }
    let mut i: usize = 0;
    while i < rn
        invariant
            i <= rn,
            rn == root@.len(),
            an == abs@.len(),
            an > rn + 1,
            forall|k: int| 0 <= k < i ==> abs@[k] == root@[k],
        decreases rn - i,
    {
        if abs.get_char(i) != root.get_char(i) {
            proof {
                assert(abs@.take(rn as int)[i as int] != root@[i as int]);
            }
            return None;
        }
        i = i + 1;
    }
    proof {
        assert(abs@.take(rn as int) =~= root@);
    }
    if abs.get_char(rn) != '/' {
        return None;
    }
    let rel = abs.substring_char(rn + 1, an);
    proof {
        assert(rel@ =~= strip_spec(root@, abs@));
    }
    Some(rel.to_owned())
}

/// The path's final segment ends with the metadata suffix, compared
/// case-insensitively over the ASCII letters. The suffix itself holds no
/// separator, so checking the last characters of the whole path is the same
/// as checking its final segment.
pub open spec fn ends_with_meta_suffix(s: Seq<char>) -> bool {
    &&& s.len() >= 5
    &&& s[s.len() - 5] == '.'
    &&& (s[s.len() - 4] == 'm' || s[s.len() - 4] == 'M')
    &&& (s[s.len() - 3] == 'e' || s[s.len() - 3] == 'E')
    &&& (s[s.len() - 2] == 't' || s[s.len() - 2] == 'T')
    &&& (s[s.len() - 1] == 'a' || s[s.len() - 1] == 'A')
}

/// Decides whether a path names a metadata sidecar file: its final segment
/// ends with the metadata suffix, case-insensitively.
pub fn has_meta_suffix(name: &str) -> (r: bool)
    ensures
        r == ends_with_meta_suffix(name@),
{
    let n = name.unicode_len();
    if n < 5 {
        return false;
    }
    let c4 = name.get_char(n - 5);
    let c3 = name.get_char(n - 4);
    let c2 = name.get_char(n - 3);
    let c1 = name.get_char(n - 2);
    let c0 = name.get_char(n - 1);
    c4 == '.' && (c3 == 'm' || c3 == 'M') && (c2 == 'e' || c2 == 'E')
        && (c1 == 't' || c1 == 'T') && (c0 == 'a' || c0 == 'A')
}

/// Law: the metadata convention and the listing filter agree — the sidecar
/// path written for any asset path carries the suffix the filter rejects,
/// so every metadata file that can be written is also excluded from
/// directory enumeration.
pub proof fn lemma_meta_path_has_meta_suffix(path: Seq<char>)
    ensures
        ends_with_meta_suffix(meta_path_spec(path)),
{
    reveal_strlit(".meta");
    let s = meta_path_spec(path);
    assert(s.len() == path.len() + 5);
    assert(s[s.len() - 5] == meta_suffix()[0]);
    assert(s[s.len() - 4] == meta_suffix()[1]);
    assert(s[s.len() - 3] == meta_suffix()[2]);
    assert(s[s.len() - 2] == meta_suffix()[3]);
    assert(s[s.len() - 1] == meta_suffix()[4]);
}

/// Law: stripping the root prefix never creates a metadata-suffixed name.
/// The relative remainder is a suffix of the absolute path, so a path kept
/// by the filter stays free of the suffix after the root is stripped.
pub proof fn lemma_strip_keeps_suffix_freedom(root: Seq<char>, abs: Seq<char>)
    requires
        is_under_root(root, abs),
        !ends_with_meta_suffix(abs),
    ensures
        !ends_with_meta_suffix(strip_spec(root, abs)),
{
    let rel = strip_spec(root, abs);
    if rel.len() >= 5 {
        assert(rel[rel.len() - 5] == abs[abs.len() - 5]);
        assert(rel[rel.len() - 4] == abs[abs.len() - 4]);
        assert(rel[rel.len() - 3] == abs[abs.len() - 3]);
        assert(rel[rel.len() - 2] == abs[abs.len() - 2]);
        assert(rel[rel.len() - 1] == abs[abs.len() - 1]);
    }
}

} // verus!
