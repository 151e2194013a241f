//! Association lists keyed by text: a `Vec` of `(key, value)` pairs whose keys
//! are pairwise distinct. The replicated document stores its keyed tables this
//! way, in the order their keys were first inserted.

use vstd::prelude::*;

verus! {

/// The abstract contents of an association list: keys and viewed values.
pub open spec fn entries_view<T: View>(s: Seq<(String, T)>) -> Seq<(Seq<char>, T::V)> {
    Seq::new(s.len(), |i: int| (s[i].0@, s[i].1@))
}

pub open spec fn has_key<V>(e: Seq<(Seq<char>, V)>, k: Seq<char>) -> bool {
    exists|i: int| 0 <= i < e.len() && #[trigger] e[i].0 == k
}

pub open spec fn unique_keys<V>(e: Seq<(Seq<char>, V)>) -> bool {
    forall|i: int, j: int|
        0 <= i < e.len() && 0 <= j < e.len() && #[trigger] e[i].0 == #[trigger] e[j].0 ==> i == j
}

/// Where key `k` sits; meaningful only when `has_key(e, k)`.
pub open spec fn index_of<V>(e: Seq<(Seq<char>, V)>, k: Seq<char>) -> int {
    choose|i: int| 0 <= i < e.len() && #[trigger] e[i].0 == k
}

pub open spec fn lookup<V>(e: Seq<(Seq<char>, V)>, k: Seq<char>) -> Option<V> {
    if has_key(e, k) {
        Some(e[index_of(e, k)].1)
    } else {
        None
    }
}

/// Sets the value of `k`, in place when present, else as a new last entry.
pub open spec fn upsert<V>(e: Seq<(Seq<char>, V)>, k: Seq<char>, v: V) -> Seq<(Seq<char>, V)> {
    if has_key(e, k) {
        e.update(index_of(e, k), (k, v))
    } else {
        e.push((k, v))
    }
}

/// Drops the entry of `k`, if any.
pub open spec fn without<V>(e: Seq<(Seq<char>, V)>, k: Seq<char>) -> Seq<(Seq<char>, V)> {
    if has_key(e, k) {
        e.remove(index_of(e, k))
    } else {
        e
    }
}

/// After `upsert`, the key maps to the new value.
pub proof fn lemma_upsert_lookup<V>(e: Seq<(Seq<char>, V)>, k: Seq<char>, v: V)
    requires
        unique_keys(e),
    ensures
        lookup(upsert(e, k, v), k) == Some(v),
        unique_keys(upsert(e, k, v)),
{
    let u = upsert(e, k, v);
    if has_key(e, k) {
        let i = index_of(e, k);
        assert forall|a: int, b: int|
            0 <= a < u.len() && 0 <= b < u.len() && #[trigger] u[a].0 == #[trigger] u[b].0 implies a == b by {
            if a == i && b != i {
                assert(e[b].0 == e[i].0);
            } else if b == i && a != i {
                assert(e[a].0 == e[i].0);
            } else if a != i && b != i {
                assert(e[a].0 == e[b].0);
            }
        }
        assert(u[i].0 == k);
    } else {
        assert forall|a: int, b: int|
            0 <= a < u.len() && 0 <= b < u.len() && #[trigger] u[a].0 == #[trigger] u[b].0 implies a == b by {
            if a < e.len() && b == e.len() {
                assert(e[a].0 == k);
            }
            if b < e.len() && a == e.len() {
                assert(e[b].0 == k);
            }
        }
        assert(u[e.len() as int].0 == k);
    }
}

/// Text equality on views.
pub fn same_text(a: &str, b: &str) -> (r: bool)
    ensures
        r == (a@ == b@),
{
    let x = a.to_owned();
    let y = b.to_owned();
    x == y
}

/// Position of `key` in the list, if it is there.
pub fn position<T: View>(entries: &Vec<(String, T)>, key: &str) -> (r: Option<usize>)
    ensures
        match r {
            Some(i) => i < entries@.len() && entries_view(entries@)[i as int].0 == key@
                && (unique_keys(entries_view(entries@)) ==> i == index_of(entries_view(entries@), key@)),
            None => !has_key(entries_view(entries@), key@),
        },
{
    let mut i: usize = 0;
    while i < entries.len()
        invariant
            i <= entries@.len(),
            forall|j: int| 0 <= j < i ==> #[trigger] entries_view(entries@)[j].0 != key@,
        decreases entries@.len() - i,
    {
        if same_text(entries[i].0.as_str(), key) {
            proof {
                let e = entries_view(entries@);
                assert(e[i as int].0 == key@);
                assert(has_key(e, key@));
            }
            return Some(i);
        }
        i = i + 1;
    }
    None
}

/// Sets `key` to `value`: in place when the key is present, else appended.
pub fn put<T: View>(entries: &mut Vec<(String, T)>, key: String, value: T)
    requires
        unique_keys(entries_view(old(entries)@)),
    ensures
        entries_view(final(entries)@) == upsert(entries_view(old(entries)@), key@, value@),
        unique_keys(entries_view(final(entries)@)),
{
    let ghost k = key@;
    let ghost v = value@;
    let ghost before = entries_view(entries@);
    match position(entries, key.as_str()) {
        Some(i) => {
            entries.remove(i);
            entries.insert(i, (key, value));
            proof {
                let after = entries_view(entries@);
                assert(after =~= before.update(i as int, (k, v)));
            }
        },
        None => {
            entries.push((key, value));
            proof {
                let after = entries_view(entries@);
                assert(after =~= before.push((k, v)));
                assert forall|a: int, b: int|
                    0 <= a < after.len() && 0 <= b < after.len() && #[trigger] after[a].0
                        == #[trigger] after[b].0 implies a == b by {
                    if a < before.len() && b == before.len() {
                        assert(before[a].0 == k);
                    }
                    if b < before.len() && a == before.len() {
                        assert(before[b].0 == k);
                    }
                }
            }
        },
    }
}

/// Drops the entry of `key`, if any, keeping the order of the others.
pub fn drop_key<T: View>(entries: &mut Vec<(String, T)>, key: &str)
    requires
        unique_keys(entries_view(old(entries)@)),
    ensures
        entries_view(final(entries)@) == without(entries_view(old(entries)@), key@),
        unique_keys(entries_view(final(entries)@)),
{
    let ghost before = entries_view(entries@);
    if let Some(i) = position(entries, key) {
        entries.remove(i);
        proof {
            let after = entries_view(entries@);
            assert(after =~= before.remove(i as int));
            assert forall|a: int, b: int|
                0 <= a < after.len() && 0 <= b < after.len() && #[trigger] after[a].0
                    == #[trigger] after[b].0 implies a == b by {
                let a2 = if a < i { a } else { a + 1 };
                let b2 = if b < i { b } else { b + 1 };
                assert(after[a] == before[a2]);
                assert(after[b] == before[b2]);
            }
        }
    }
}

} // verus!
