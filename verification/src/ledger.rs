//! The path ledger: one per backup directory, mapping each original absolute
//! path to the content id under which its bytes are stored. Insertion order
//! is meaningful and preserved by every operation and by listing.
use vstd::prelude::*;

use crate::errors::Error;
use crate::store::{
    assoc_has, assoc_index, assoc_keys, keys_unique, lemma_assoc_index_unique,
    lemma_unique_after_push, lemma_unique_after_remove, Entry,
};
use crate::text::str_eq;

verus! {

/// The ledger of a single backup: an insertion-ordered map from original
/// absolute path to content id.
#[derive(Debug)]
pub struct Paths {
    files: Vec<(String, String)>,
}

impl View for Paths {
    type V = Seq<Entry>;

    closed spec fn view(&self) -> Seq<Entry> {
        self.files.deep_view()
    }
}

impl Paths {
    /// Well-formed: no original path occurs twice.
    pub open spec fn wf(&self) -> bool {
        keys_unique(self@)
    }

    /// An empty ledger.
    pub fn new() -> (r: Paths)
        ensures
            r.wf(),
            r@ =~= Seq::<Entry>::empty(),
    {
        Paths { files: Vec::new() }
    }

    /// The number of tracked paths.
    pub fn len(&self) -> (r: usize)
        ensures
            r == self@.len(),
    {
        self.files.len()
    }

    /// The entry at position `i`, in insertion order.
    pub fn entry_at(&self, i: usize) -> (r: &(String, String))
        requires
            i < self@.len(),
        ensures
            r.0@ == self@[i as int].0,
            r.1@ == self@[i as int].1,
    {
        &self.files[i]
    }

    /// The index of the entry for `original_path`, scanning in order.
    fn find_index(&self, original_path: &str) -> (r: Option<usize>)
        ensures
            match r {
                Some(i) => i < self@.len() && self@[i as int].0 == original_path@,
                None => !assoc_has(self@, original_path@),
            },
    {
        let n = self.files.len();
        let mut i: usize = 0;
        while i < n
            invariant
                n == self@.len(),
                n == self.files@.len(),
                i <= n,
                forall|j: int| 0 <= j < i ==> self@[j].0 != original_path@,
            decreases n - i,
        {
            if str_eq(self.files[i].0.as_str(), original_path) {
                proof {
                    assert(self@[i as int].0 == original_path@);
                }
                return Some(i);
            }
            proof {
                assert(self@[i as int].0 != original_path@);
            }
            i = i + 1;
        }
        None
    }

    /// Whether `original_path` is tracked.
    pub fn contains_key(&self, original_path: &str) -> (r: bool)
        ensures
            r == assoc_has(self@, original_path@),
    {
        self.find_index(original_path).is_some()
    }

    /// The content id recorded for `original_path`, if any.
    pub fn get(&self, original_path: &str) -> (r: Option<String>)
        ensures
            match r {
                Some(v) => exists|i: int|
                    0 <= i < self@.len() && self@[i] == (original_path@, v@),
                None => !assoc_has(self@, original_path@),
            },
    {
        match self.find_index(original_path) {
            Some(i) => Some(self.files[i].1.clone()),
            None => None,
        }
    }

    /// Whether some entry stores its bytes under `content_id`.
    pub fn contains_value(&self, content_id: &str) -> (r: bool)
        ensures
            r == value_in(self@, content_id@),
    {
        self.lookup_by_content_id(content_id).is_some()
    }

    /// The original path whose bytes are stored under `content_id`: the
    /// reverse lookup, scanning entries in insertion order.
    pub fn lookup_by_content_id(&self, content_id: &str) -> (r: Option<String>)
        ensures
            match r {
                Some(orig) => exists|i: int|
                    0 <= i < self@.len() && self@[i] == (orig@, content_id@),
                None => !value_in(self@, content_id@),
            },
    {
        let n = self.files.len();
        let mut i: usize = 0;
        while i < n
            invariant
                n == self@.len(),
                n == self.files@.len(),
                i <= n,
                forall|j: int| 0 <= j < i ==> self@[j].1 != content_id@,
            decreases n - i,
        {
            if str_eq(self.files[i].1.as_str(), content_id) {
                let orig = self.files[i].0.clone();
                proof {
                    assert(self@[i as int] == (orig@, content_id@));
                }
                return Some(orig);
            }
            proof {
                assert(self@[i as int].1 != content_id@);
            }
            i = i + 1;
        }
        None
    }

    /// Records `original_path -> content_id`. Fails with `AlreadyExists`
    /// when the path is already tracked; the ledger is unchanged then.
    pub fn insert(&mut self, original_path: &str, content_id: &str) -> (r: Result<(), Error>)
        requires
            old(self).wf(),
        ensures
            final(self).wf(),
            match r {
                Ok(u) => !assoc_has(old(self)@, original_path@) && final(self)@ =~= old(self)@.push(
                    (original_path@, content_id@),
                ),
                Err(e) => e == Error::FileAlreadyExists && assoc_has(old(self)@, original_path@)
                    && final(self)@ =~= old(self)@,
            },
    {
        if self.find_index(original_path).is_some() {
            return Err(Error::FileAlreadyExists);
        }
        let ghost pre = self@;
        self.files.push((original_path.to_owned(), content_id.to_owned()));
        proof {
            assert(self@ =~= pre.push((original_path@, content_id@)));
            lemma_unique_after_push(pre, (original_path@, content_id@));
        }
        Ok(())
    }

    /// Erases the entry for `original_path`, preserving the order of the
    /// remaining entries, and returns the removed content id. Fails with
    /// `NotFound` when the path is not tracked.
    pub fn remove(&mut self, original_path: &str) -> (r: Result<String, Error>)
        requires
            old(self).wf(),
        ensures
            final(self).wf(),
            match r {
                Ok(v) => {
                    &&& assoc_has(old(self)@, original_path@)
                    &&& old(self)@[assoc_index(old(self)@, original_path@)] == (original_path@, v@)
                    &&& final(self)@ =~= old(self)@.remove(
                        assoc_index(old(self)@, original_path@),
                    )
                    &&& !assoc_has(final(self)@, original_path@)
                },
                Err(e) => e == Error::EntryNotFound && !assoc_has(old(self)@, original_path@)
                    && final(self)@ =~= old(self)@,
            },
    {
        match self.find_index(original_path) {
            Some(i) => {
                let ghost pre = self@;
                proof {
                    lemma_assoc_index_unique(pre, original_path@, i as int);
                }
                let removed = self.files.remove(i);
                proof {
                    assert(self@ =~= pre.remove(i as int));
                    lemma_unique_after_remove(pre, i as int);
                }
                Ok(removed.1)
            },
            None => Err(Error::EntryNotFound),
        }
    }

    /// The tracked original paths, in insertion order.
    pub fn keys(&self) -> (r: Vec<String>)
        ensures
            r.deep_view() =~= assoc_keys(self@),
    {
        let n = self.files.len();
        let mut out: Vec<String> = Vec::new();
        let mut i: usize = 0;
        while i < n
            invariant
                n == self@.len(),
                n == self.files@.len(),
                i <= n,
                out.deep_view().len() == i,
                forall|j: int| 0 <= j < i ==> out.deep_view()[j] == self@[j].0,
            decreases n - i,
        {
            let ghost pre = out.deep_view();
            out.push(self.files[i].0.clone());
            proof {
                assert(out.deep_view() =~= pre.push(self@[i as int].0));
            }
            i = i + 1;
        }
        proof {
            assert(out.deep_view() =~= assoc_keys(self@));
        }
        out
    }

    /// The entries as plain pairs, in insertion order (for persistence).
    pub fn to_pairs(&self) -> (r: Vec<(String, String)>)
        ensures
            r.deep_view() =~= self@,
    {
        let n = self.files.len();
        let mut out: Vec<(String, String)> = Vec::new();
        let mut i: usize = 0;
        while i < n
            invariant
                n == self@.len(),
                n == self.files@.len(),
                i <= n,
                out.deep_view().len() == i,
                forall|j: int| 0 <= j < i ==> out.deep_view()[j] == self@[j],
            decreases n - i,
        {
            let pair = (self.files[i].0.clone(), self.files[i].1.clone());
            out.push(pair);
            i = i + 1;
        }
        proof {
            assert(out.deep_view() =~= self@);
        }
        out
    }

    /// Erases the entry for `original_path` when one exists; a ledger
    /// without such an entry is left unchanged. The order of the remaining
    /// entries is preserved.
    pub fn remove_backup_entry(&mut self, original_path: &str)
        requires
            old(self).wf(),
        ensures
            final(self).wf(),
            assoc_has(old(self)@, original_path@) ==> final(self)@ =~= old(self)@.remove(
                assoc_index(old(self)@, original_path@),
            ),
            !assoc_has(old(self)@, original_path@) ==> final(self)@ =~= old(self)@,
    {
        match self.remove(original_path) {
            Ok(v) => {},
            Err(e) => {},
        }
    }

    /// Erases the entry for `original_path` and hands back the content id
    /// it carried, so that the caller can delete the content file named by
    /// it. Fails with `NotFound` when the path is not tracked.
    pub fn destroy_backup_file(&mut self, original_path: &str) -> (r: Result<String, Error>)
        requires
            old(self).wf(),
        ensures
            final(self).wf(),
            match r {
                Ok(id) => {
                    &&& assoc_has(old(self)@, original_path@)
                    &&& old(self)@[assoc_index(old(self)@, original_path@)] == (
                    original_path@,
                    id@,
                    )
                    &&& final(self)@ =~= old(self)@.remove(
                        assoc_index(old(self)@, original_path@),
                    )
                },
                Err(e) => e == Error::EntryNotFound && !assoc_has(old(self)@, original_path@)
                    && final(self)@ =~= old(self)@,
            },
    {
        self.remove(original_path)
    }

    /// Rebuilds a ledger from persisted pairs. Fails with `CorruptLedger`
    /// when two pairs carry the same original path.
    pub fn from_pairs(pairs: Vec<(String, String)>) -> (r: Result<Paths, Error>)
        ensures
            match r {
                Ok(p) => p.wf() && p@ =~= pairs.deep_view(),
                Err(e) => e == Error::CorruptLedger && !keys_unique(pairs.deep_view()),
            },
    {
        let n = pairs.len();
        let mut out = Paths::new();
        let mut i: usize = 0;
        while i < n
            invariant
                n == pairs@.len(),
                i <= n,
                out.wf(),
                out@ =~= pairs.deep_view().take(i as int),
            decreases n - i,
        {
            let ghost pre = out@;
            let key = pairs[i].0.as_str();
            let value = pairs[i].1.as_str();
            match out.insert(key, value) {
                Ok(u) => {},
                Err(e) => {
                    proof {
                        let w = assoc_index(pre, key@);
                        assert(pairs.deep_view().take(i as int)[w] == pairs.deep_view()[w]);
                        assert(pairs.deep_view()[i as int].0 == key@);
                        assert(!keys_unique(pairs.deep_view()));
                    }
                    return Err(Error::CorruptLedger);
                },
            }
            proof {
                assert(out@ =~= pairs.deep_view().take((i + 1) as int));
            }
            i = i + 1;
        }
        proof {
            assert(pairs.deep_view().take(n as int) =~= pairs.deep_view());
        }
        Ok(out)
    }
}

/// Whether the ledger tracks `absolute_original_path`. The caller resolves
/// the path to its absolute form first; ledger keys are absolute.
pub fn check_if_file_exists_in_backup(files: &Paths, absolute_original_path: &str) -> (r: bool)
    ensures
        r == assoc_has(files@, absolute_original_path@),
{
    files.contains_key(absolute_original_path)
}

/// Records the relocation of `original_path` to the content file at
/// `new_path`: the new entry maps the original path to `new_path`'s file
/// name. Fails with `AlreadyExists` when the path is already tracked;
/// persisting the updated ledger is the caller's business.
pub fn update_paths_ron(files: &mut Paths, original_path: &str, new_path: &str) -> (r: Result<
    (),
    Error,
>)
    requires
        old(files).wf(),
    ensures
        final(files).wf(),
        match r {
            Ok(u) => !assoc_has(old(files)@, original_path@) && final(files)@ =~= old(files)@.push(
                (original_path@, crate::paths::spec_file_name(new_path@)),
            ),
            Err(e) => e == Error::FileAlreadyExists && assoc_has(old(files)@, original_path@)
                && final(files)@ =~= old(files)@,
        },
{
    let id = crate::paths::path_file_name(new_path);
    files.insert(original_path, id.as_str())
}

/// Some entry of `s` is `e` with key and value swapped.
pub open spec fn swapped_in(s: Seq<Entry>, e: Entry) -> bool {
    exists|i: int| 0 <= i < s.len() && s[i] == (e.1, e.0)
}

/// Some entry of `s` carries value `v`.
pub open spec fn value_in(s: Seq<Entry>, v: Seq<char>) -> bool {
    exists|i: int| 0 <= i < s.len() && s[i].1 == v
}

proof fn lemma_swapped_in_step(s: Seq<Entry>, i: int, e: Entry)
    requires
        0 <= i < s.len(),
    ensures
        swapped_in(s.skip(i), e) <==> (s[i] == (e.1, e.0) || swapped_in(s.skip(i + 1), e)),
{
    if swapped_in(s.skip(i), e) {
        let k = choose|k: int| 0 <= k < s.skip(i).len() && s.skip(i)[k] == (e.1, e.0);
        if k == 0 {
            assert(s[i] == (e.1, e.0));
        } else {
            assert(s.skip(i + 1)[k - 1] == s.skip(i)[k]);
        }
    }
    if s[i] == (e.1, e.0) {
        assert(s.skip(i)[0] == (e.1, e.0));
    }
    if swapped_in(s.skip(i + 1), e) {
        let t = s.skip(i + 1);
        let k = choose|k: int| 0 <= k < t.len() && t[k] == (e.1, e.0);
        assert(s.skip(i)[k + 1] == t[k]);
    }
}

proof fn lemma_value_in_step(s: Seq<Entry>, i: int, v: Seq<char>)
    requires
        0 <= i < s.len(),
    ensures
        value_in(s.skip(i), v) <==> (s[i].1 == v || value_in(s.skip(i + 1), v)),
{
    if value_in(s.skip(i), v) {
        let k = choose|k: int| 0 <= k < s.skip(i).len() && s.skip(i)[k].1 == v;
        if k == 0 {
            assert(s[i].1 == v);
        } else {
            assert(s.skip(i + 1)[k - 1] == s.skip(i)[k]);
        }
    }
    if s[i].1 == v {
        assert(s.skip(i)[0].1 == v);
    }
    if value_in(s.skip(i + 1), v) {
        let t = s.skip(i + 1);
        let k = choose|k: int| 0 <= k < t.len() && t[k].1 == v;
        assert(s.skip(i)[k + 1] == t[k]);
    }
}

/// The ledger's mapping reversed: content id -> original path. Were two
/// entries ever to carry the same content id, the later entry would win,
/// as rebuilding a plain map entry by entry would have it.
pub fn reverse_files_map(files: &Paths) -> (r: Paths)
    requires
        files.wf(),
    ensures
        r.wf(),
        forall|j: int| 0 <= j < r@.len() ==> swapped_in(files@, #[trigger] r@[j]),
        forall|v: Seq<char>| #[trigger] assoc_has(r@, v) <==> value_in(files@, v),
{
    let n = files.len();
    let mut out = Paths::new();
    let mut i: usize = n;
    while i > 0
        invariant
            files.wf(),
            n == files@.len(),
            i <= n,
            out.wf(),
            forall|j: int|
                0 <= j < out@.len() ==> swapped_in(files@.skip(i as int), #[trigger] out@[j]),
            forall|v: Seq<char>|
                #[trigger] assoc_has(out@, v) <==> value_in(files@.skip(i as int), v),
        decreases i,
    {
        i = i - 1;
        let ghost pre = out@;
        let entry = files.entry_at(i);
        let had = out.contains_key(entry.1.as_str());
        if !had {
            match out.insert(entry.1.as_str(), entry.0.as_str()) {
                Ok(u) => {},
                Err(e) => {
                    proof {
                        assert(value_in(files@.skip(i as int + 1), files@[i as int].1));
                        assert(false);
                    }
                },
            }
        }
        proof {
            let fi = files@[i as int];
            assert forall|j: int| 0 <= j < out@.len() implies swapped_in(
                files@.skip(i as int),
                #[trigger] out@[j],
            ) by {
                lemma_swapped_in_step(files@, i as int, out@[j]);
                if j < pre.len() {
                    assert(out@[j] == pre[j]);
                }
                if !had && j == pre.len() {
                    assert(out@[j] == (fi.1, fi.0));
                    assert(files@[i as int] == (out@[j].1, out@[j].0));
                }
            }
            assert forall|v: Seq<char>| #[trigger] assoc_has(out@, v) implies value_in(
                files@.skip(i as int),
                v,
            ) by {
                lemma_value_in_step(files@, i as int, v);
                let jw = choose|jw: int| 0 <= jw < out@.len() && out@[jw].0 == v;
                if jw < pre.len() {
                    assert(pre[jw].0 == v);
                    assert(assoc_has(pre, v));
                } else {
                    assert(out@[jw].0 == fi.1);
                }
            }
            assert forall|v: Seq<char>| value_in(files@.skip(i as int), v) implies
                #[trigger] assoc_has(out@, v) by {
                lemma_value_in_step(files@, i as int, v);
                if value_in(files@.skip(i as int + 1), v) {
                    assert(assoc_has(pre, v));
                    let jw = choose|jw: int| 0 <= jw < pre.len() && pre[jw].0 == v;
                    assert(out@[jw].0 == v);
                } else {
                    assert(fi.1 == v);
                    if had {
                        let jw = choose|jw: int| 0 <= jw < pre.len() && pre[jw].0 == fi.1;
                        assert(out@[jw].0 == v);
                    } else {
                        assert(out@[pre.len() as int].0 == v);
                    }
                }
            }
        }
    }
    proof {
        assert(files@.skip(0) =~= files@);
    }
    out
}

} // verus!
