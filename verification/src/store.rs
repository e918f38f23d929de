//! Spec-level vocabulary for insertion-ordered string maps, represented as
//! sequences of (key, value) entries. Both the backup registry and the path
//! ledger are such maps; their contracts are stated with these functions.
use vstd::prelude::*;

verus! {

/// One entry of an ordered string map, as viewed by specifications.
pub type Entry = (Seq<char>, Seq<char>);

/// Whether some entry carries key `k`.
pub open spec fn assoc_has(s: Seq<Entry>, k: Seq<char>) -> bool {
    exists|i: int| 0 <= i < s.len() && s[i].0 == k
}

/// The index of an entry carrying key `k` (unique when keys are unique).
pub open spec fn assoc_index(s: Seq<Entry>, k: Seq<char>) -> int {
    choose|i: int| 0 <= i < s.len() && s[i].0 == k
}

/// The keys of the map, in insertion order.
pub open spec fn assoc_keys(s: Seq<Entry>) -> Seq<Seq<char>> {
    s.map_values(|e: Entry| e.0)
}

/// No two entries share a key.
pub open spec fn keys_unique(s: Seq<Entry>) -> bool {
    forall|i: int, j: int| 0 <= i < j < s.len() ==> s[i].0 != s[j].0
}

/// No two entries share a value.
pub open spec fn values_unique(s: Seq<Entry>) -> bool {
    forall|i: int, j: int| 0 <= i < j < s.len() ==> s[i].1 != s[j].1
}

/// With unique keys, any entry carrying `k` sits at `assoc_index(s, k)`.
pub proof fn lemma_assoc_index_unique(s: Seq<Entry>, k: Seq<char>, i: int)
    requires
        keys_unique(s),
        0 <= i < s.len(),
        s[i].0 == k,
    ensures
        assoc_index(s, k) == i,
{
    let j = assoc_index(s, k);
    assert(0 <= j < s.len() && s[j].0 == k);
}

/// Law: listing order equals insertion order. Appending an entry appends
/// its key to the end of the key sequence, so the keys listed after a run
/// of insertions are exactly the inserted keys, oldest first.
pub proof fn lemma_keys_of_push(s: Seq<Entry>, e: Entry)
    ensures
        assoc_keys(s.push(e)) =~= assoc_keys(s).push(e.0),
{
}

/// Law: erasing the entry at `i` erases exactly its key, keeping the
/// order of the remaining keys.
pub proof fn lemma_keys_of_remove(s: Seq<Entry>, i: int)
    requires
        0 <= i < s.len(),
    ensures
        assoc_keys(s.remove(i)) =~= assoc_keys(s).remove(i),
{
}

/// Appending an entry with a fresh key keeps keys unique.
pub proof fn lemma_unique_after_push(s: Seq<Entry>, e: Entry)
    requires
        keys_unique(s),
        !assoc_has(s, e.0),
    ensures
        keys_unique(s.push(e)),
{
    assert forall|i: int, j: int| 0 <= i < j < s.push(e).len() implies s.push(e)[i].0 != s.push(
        e,
    )[j].0 by {
        if j == s.len() {
            assert(s.push(e)[i] == s[i]);
        }
    }
}

/// Removing an entry keeps keys unique, and drops its key when keys are unique.
pub proof fn lemma_unique_after_remove(s: Seq<Entry>, i: int)
    requires
        keys_unique(s),
        0 <= i < s.len(),
    ensures
        keys_unique(s.remove(i)),
        !assoc_has(s.remove(i), s[i].0),
{
    let t = s.remove(i);
    assert forall|p: int, q: int| 0 <= p < q < t.len() implies t[p].0 != t[q].0 by {
        let p0 = if p < i {
            p
        } else {
            p + 1
        };
        let q0 = if q < i {
            q
        } else {
            q + 1
        };
        assert(t[p] == s[p0] && t[q] == s[q0]);
    }
    assert forall|p: int| 0 <= p < t.len() implies t[p].0 != s[i].0 by {
        let p0 = if p < i {
            p
        } else {
            p + 1
        };
        assert(t[p] == s[p0]);
    }
}

} // verus!
