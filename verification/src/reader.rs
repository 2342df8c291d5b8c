//! The read-side facade: resolves content and metadata targets under the
//! root, classifies open failures, filters directory listings, and carries
//! the descriptor limiter that bounds concurrently open read handles.
//!
//! The filesystem calls themselves (open, stat, directory enumeration) and
//! the suspension on a full limiter are the caller's runtime's affair; every
//! decision between them — which absolute path to try, which error to
//! report, which entries a listing yields — is made and verified here.

use vstd::prelude::*;

use crate::errors::AssetReaderError;
use crate::limiter::DescriptorLimiter;
use crate::paths::ends_with_meta_suffix;
use crate::paths::has_meta_suffix;
use crate::paths::is_under_root;
use crate::paths::join;
use crate::paths::join_spec;
use crate::paths::lemma_meta_path_has_meta_suffix;
use crate::paths::lemma_strip_keeps_suffix_freedom;
use crate::paths::meta_path;
use crate::paths::meta_path_spec;
use crate::paths::strip_root;
use crate::paths::strip_spec;

verus! {

/// The read side: all reads resolve against `root_path`, and every open
/// content or metadata handle is authorised by a permit of `limiter`.
pub struct FileAssetReader {
    pub root_path: String,
    pub limiter: DescriptorLimiter,
}

impl FileAssetReader {
    /// Creates a reader rooted at an already-resolved absolute directory,
    /// with the given descriptor capacity. Both are injected: base-path
    /// discovery and the platform's descriptor ceiling are the caller's
    /// affair.
    pub fn new(root_path: String, capacity: usize) -> (r: FileAssetReader)
        ensures
            r.root_path == root_path,
            r.limiter == DescriptorLimiter::spec_new(capacity),
            r.limiter.wf(),
    {
        FileAssetReader { root_path, limiter: DescriptorLimiter::new(capacity) }
    }

    /// The root directory assets are read from.
    pub fn root_path(&self) -> (r: &String)
        ensures
            r@ == self.root_path@,
    {
        &self.root_path
    }

    /// The absolute path `read` opens for an asset path.
    pub fn read_target(&self, path: &str) -> (r: String)
        ensures
            r@ == join_spec(self.root_path@, path@),
    {
        join(self.root_path.as_str(), path)
    }

    /// The absolute path `read_meta` opens for an asset path: its sidecar
    /// metadata path, resolved under the root.
    pub fn meta_target(&self, path: &str) -> (r: String)
        ensures
            r@ == join_spec(self.root_path@, meta_path_spec(path@)),
    {
        let m = meta_path(path);
        join(self.root_path.as_str(), m.as_str())
    }

    /// The relative paths a directory listing yields from the raw absolute
    /// entries it enumerated: entries not under the root are skipped (as is
    /// each unreadable entry, best-effort), metadata sidecars are excluded,
    /// and the rest are stripped of the root prefix.
    pub fn directory_entries(&self, entries: &Vec<String>) -> (r: Vec<String>)
        ensures
            r.deep_view() == listing_spec(self.root_path@, entries.deep_view()),
    {
        let ghost root = self.root_path@;
        let ghost dv = entries.deep_view();
        let mut out: Vec<String> = Vec::new();
        proof {
            assert(dv.take(0) =~= Seq::<Seq<char>>::empty());
        }
        let mut i: usize = 0;
        while i < entries.len()
            invariant
                i <= entries.len(),
                dv == entries.deep_view(),
                root == self.root_path@,
                dv.len() == entries.len(),
                out.deep_view() == listing_spec(root, dv.take(i as int)),
            decreases entries.len() - i,
        {
            let ghost prev = out.deep_view();
            let e = &entries[i];
            proof {
                assert(dv[i as int] == e@);
            }
            if !has_meta_suffix(e.as_str()) {
                if let Some(rel) = strip_root(self.root_path.as_str(), e.as_str()) {
                    out.push(rel);
                }
            }
            proof {
                assert(dv.take(i as int + 1).drop_last() =~= dv.take(i as int));
                assert(dv.take(i as int + 1).last() == dv[i as int]);
                assert(out.deep_view() =~= prev + listing_one(root, dv[i as int]));
            }
            i = i + 1;
        }
        proof {
            assert(dv.take(entries.len() as int) =~= dv);
        }
        out
    }
}

/// What one raw absolute entry contributes to a listing: its root-relative
/// path, unless it is a metadata sidecar or does not lie under the root.
pub open spec fn listing_one(root: Seq<char>, entry: Seq<char>) -> Seq<Seq<char>> {
    if is_under_root(root, entry) && !ends_with_meta_suffix(entry) {
        seq![strip_spec(root, entry)]
    } else {
        Seq::empty()
    }
}

/// The whole listing: each raw entry's contribution, in enumeration order.
pub open spec fn listing_spec(root: Seq<char>, entries: Seq<Seq<char>>) -> Seq<Seq<char>>
    decreases entries.len(),
{
    if entries.len() == 0 {
        Seq::empty()
    } else {
        listing_spec(root, entries.drop_last()) + listing_one(root, entries.last())
    }
}

/// Classifies a failed open: a missing target is reported as `NotFound`
/// carrying the absolute path that was tried; any other failure is surfaced
/// as a generic I/O error with its description.
pub fn open_error(full_path: String, not_found: bool, message: String) -> (r: AssetReaderError)
    ensures
        not_found ==> r == AssetReaderError::NotFound(full_path),
        !not_found ==> r == AssetReaderError::Io(message),
{
    if not_found {
        AssetReaderError::NotFound(full_path)
    } else {
        AssetReaderError::Io(message)
    }
}

/// The error a directory-type query reports when the entry's metadata
/// cannot be obtained: `NotFound` carrying the relative path (unlike the
/// open operations, which carry the absolute one).
pub fn stat_error(path: &str) -> (r: AssetReaderError)
    ensures
        r.is_not_found(),
        r.not_found_path() == path@,
{
    AssetReaderError::NotFound(path.to_owned())
}

/// Converts a forward-seek offset to the signed offset the underlying seek
/// call takes. An offset too large for a signed value cannot be represented
/// and is refused — reported by the caller as an invalid-input I/O error,
/// never silently truncated.
pub fn forward_seek_offset(offset: u64) -> (r: Option<i64>)
    ensures
        r is Some <==> offset <= i64::MAX as u64,
        match r {
            Some(v) => v == offset as i64 && v >= 0,
            None => offset > i64::MAX as u64,
        },
{
    if offset <= i64::MAX as u64 {
        Some(offset as i64)
    } else {
        None
    }
}

/// Law: a directory listing never yields a metadata sidecar. Every path in
/// the listing is free of the metadata suffix, even when sidecar files sit
/// on disk beside the directory's real entries.
pub proof fn lemma_listing_excludes_meta(root: Seq<char>, entries: Seq<Seq<char>>)
    ensures
        forall|k: int|
            0 <= k < listing_spec(root, entries).len() ==> !ends_with_meta_suffix(
                #[trigger] listing_spec(root, entries)[k],
            ),
    decreases entries.len(),
{
    if entries.len() > 0 {
        lemma_listing_excludes_meta(root, entries.drop_last());
        let e = entries.last();
        let lp = listing_spec(root, entries.drop_last());
        let lo = listing_one(root, e);
        if is_under_root(root, e) && !ends_with_meta_suffix(e) {
            lemma_strip_keeps_suffix_freedom(root, e);
        }
        assert forall|k: int| 0 <= k < (lp + lo).len() implies !ends_with_meta_suffix(
            (lp + lo)[k],
        ) by {
            if k < lp.len() {
                assert((lp + lo)[k] == lp[k]);
                assert(lp[k] == listing_spec(root, entries.drop_last())[k]);
            } else {
                assert((lp + lo)[k] == lo[k - lp.len()]);
            }
        }
    }
}

/// Law: a sidecar the writer creates is invisible to the listing. The
/// absolute path where a metadata write puts the sidecar for any asset path
/// contributes nothing to an enumeration of its directory.
pub proof fn lemma_written_meta_invisible(root: Seq<char>, path: Seq<char>)
    ensures
        listing_one(root, join_spec(root, meta_path_spec(path))) == Seq::<Seq<char>>::empty(),
{
    reveal_strlit("/");
    lemma_meta_path_has_meta_suffix(path);
    let mp = meta_path_spec(path);
    let j = join_spec(root, mp);
    assert(mp.len() >= 5);
    assert(j.len() == root.len() + 1 + mp.len());
    assert(j[j.len() - 5] == mp[mp.len() - 5]);
    assert(j[j.len() - 4] == mp[mp.len() - 4]);
    assert(j[j.len() - 3] == mp[mp.len() - 3]);
    assert(j[j.len() - 2] == mp[mp.len() - 2]);
    assert(j[j.len() - 1] == mp[mp.len() - 1]);
    assert(ends_with_meta_suffix(j));
}

} // verus!
