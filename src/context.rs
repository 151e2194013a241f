//! The three context blocks the engine may ask for during a turn: the
//! running mini-apps, the open editor documents with the active one, and the
//! keys and descriptions of stored values.

use vstd::prelude::*;
use crate::assoc::{entries_view, has_key, position};
use crate::document::{DocsView, DocumentManager, StoredValue, seq_view};
use crate::prompts::{DocsInfo, DocsInfoView, StoredValueInfo};

verus! {

/// Lexicographic order on texts, character by character; on UTF-8 text
/// this is the byte order that `str`'s `Ord` uses.
pub open spec fn text_lt(a: Seq<char>, b: Seq<char>) -> bool
    decreases a.len(),
{
    if a.len() == 0 {
        b.len() > 0
    } else if b.len() == 0 {
        false
    } else if a[0] != b[0] {
        a[0] < b[0]
    } else {
        text_lt(a.drop_first(), b.drop_first())
    }
}

pub proof fn lemma_text_lt_irreflexive(a: Seq<char>)
    ensures
        !text_lt(a, a),
    decreases a.len(),
{
    if a.len() > 0 {
        lemma_text_lt_irreflexive(a.drop_first());
    }
}

pub proof fn lemma_text_lt_total(a: Seq<char>, b: Seq<char>)
    ensures
        a == b || text_lt(a, b) || text_lt(b, a),
    decreases a.len(),
{
    if a.len() > 0 && b.len() > 0 && a[0] == b[0] {
        lemma_text_lt_total(a.drop_first(), b.drop_first());
        if a.drop_first() == b.drop_first() {
            assert(a =~= seq![a[0]] + a.drop_first());
            assert(b =~= seq![b[0]] + b.drop_first());
        }
    } else if a.len() == 0 && b.len() == 0 {
        assert(a =~= b);
    } else if a.len() > 0 && b.len() > 0 {
        assert(a[0] != b[0]);
    }
}

pub proof fn lemma_text_lt_asymmetric(a: Seq<char>, b: Seq<char>)
    ensures
        !(text_lt(a, b) && text_lt(b, a)),
    decreases a.len(),
{
    if a.len() > 0 && b.len() > 0 && a[0] == b[0] {
        lemma_text_lt_asymmetric(a.drop_first(), b.drop_first());
    }
}

pub proof fn lemma_text_lt_transitive(a: Seq<char>, b: Seq<char>, c: Seq<char>)
    requires
        text_lt(a, b),
        text_lt(b, c),
    ensures
        text_lt(a, c),
    decreases a.len(),
{
    if a.len() > 0 && b.len() > 0 && c.len() > 0 && a[0] == b[0] && b[0] == c[0] {
        lemma_text_lt_transitive(a.drop_first(), b.drop_first(), c.drop_first());
    }
}

/// `text_lt` on two texts.
pub fn text_less(a: &str, b: &str) -> (r: bool)
    ensures
        r == text_lt(a@, b@),
{
    let n = a.unicode_len();
    let m = b.unicode_len();
    let mut i: usize = 0;
    assert(a@.skip(0) =~= a@);
    assert(b@.skip(0) =~= b@);
    while i < n && i < m
        invariant
            n == a@.len(),
            m == b@.len(),
            i <= n,
            i <= m,
            text_lt(a@, b@) == text_lt(a@.skip(i as int), b@.skip(i as int)),
        decreases n - i,
    {
        let x = a.get_char(i);
        let y = b.get_char(i);
        assert(a@.skip(i as int)[0] == x);
        assert(b@.skip(i as int)[0] == y);
        if x != y {
            return x < y;
        }
        assert(a@.skip(i as int).drop_first() =~= a@.skip(i + 1));
        assert(b@.skip(i as int).drop_first() =~= b@.skip(i + 1));
        i = i + 1;
    }
    i == n && i < m
}

/// Strictly increasing in `text_lt`.
pub open spec fn sorted_texts(s: Seq<Seq<char>>) -> bool {
    forall|i: int, j: int| 0 <= i < j < s.len() ==> text_lt(#[trigger] s[i], #[trigger] s[j])
}

/// `r` lists the texts of `keys`, each once, in increasing order. There is
/// at most one such `r` (see `lemma_sorted_listing_unique`).
pub open spec fn is_sorted_listing(r: Seq<Seq<char>>, keys: Seq<Seq<char>>) -> bool {
    &&& r.len() == keys.len()
    &&& sorted_texts(r)
    &&& forall|k: Seq<char>| r.contains(k) <==> keys.contains(k)
}

/// Two increasing lists of the same texts are the same list.
pub proof fn lemma_sorted_listing_unique(r1: Seq<Seq<char>>, r2: Seq<Seq<char>>)
    requires
        sorted_texts(r1),
        sorted_texts(r2),
        forall|k: Seq<char>| r1.contains(k) <==> r2.contains(k),
    ensures
        r1 == r2,
    decreases r1.len(),
{
    if r1.len() == 0 {
        if r2.len() > 0 {
            assert(r2.contains(r2[0]));
        }
        assert(r1 =~= r2);
    } else {
        assert(r1.contains(r1[0]));
        let j = choose|j: int| 0 <= j < r2.len() && r2[j] == r1[0];
        assert(r2.contains(r2[0]));
        let i = choose|i: int| 0 <= i < r1.len() && r1[i] == r2[0];
        if j > 0 && i > 0 {
            assert(text_lt(r2[0], r2[j]));
            assert(text_lt(r1[0], r1[i]));
            lemma_text_lt_asymmetric(r1[0], r2[0]);
        } else if j > 0 {
            assert(text_lt(r2[0], r2[j]));
            lemma_text_lt_irreflexive(r1[0]);
        } else if i > 0 {
            assert(text_lt(r1[0], r1[i]));
            lemma_text_lt_irreflexive(r2[0]);
        }
        let t1 = r1.drop_first();
        let t2 = r2.drop_first();
        assert forall|k: Seq<char>| t1.contains(k) <==> t2.contains(k) by {
            if t1.contains(k) {
                let a = choose|a: int| 0 <= a < t1.len() && t1[a] == k;
                assert(r1[a + 1] == k);
                assert(r1.contains(k));
                let b = choose|b: int| 0 <= b < r2.len() && r2[b] == k;
                if b == 0 {
                    assert(text_lt(r1[0], r1[a + 1]));
                    lemma_text_lt_irreflexive(k);
                }
                assert(t2[b - 1] == k);
            }
            if t2.contains(k) {
                let a = choose|a: int| 0 <= a < t2.len() && t2[a] == k;
                assert(r2[a + 1] == k);
                assert(r2.contains(k));
                let b = choose|b: int| 0 <= b < r1.len() && r1[b] == k;
                if b == 0 {
                    assert(text_lt(r2[0], r2[a + 1]));
                    lemma_text_lt_irreflexive(k);
                }
                assert(t1[b - 1] == k);
            }
        }
        lemma_sorted_listing_unique(t1, t2);
        assert(r1 =~= seq![r1[0]] + t1);
        assert(r2 =~= seq![r2[0]] + t2);
    }
}

pub open spec fn keys_of<V>(e: Seq<(Seq<char>, V)>) -> Seq<Seq<char>> {
    Seq::new(e.len(), |i: int| e[i].0)
}

/// Puts `key` into an increasing list that does not hold it yet.
fn insert_sorted(v: &mut Vec<String>, key: String)
    requires
        sorted_texts(seq_view(old(v)@)),
        !seq_view(old(v)@).contains(key@),
    ensures
        sorted_texts(seq_view(final(v)@)),
        seq_view(final(v)@).len() == seq_view(old(v)@).len() + 1,
        forall|k: Seq<char>| #[trigger] seq_view(final(v)@).contains(k) <==> (seq_view(old(v)@).contains(k) || k == key@),
{
    let ghost old_v = seq_view(v@);
    let mut pos: usize = 0;
    while pos < v.len() && text_less(v[pos].as_str(), key.as_str())
        invariant
            pos <= v@.len(),
            seq_view(v@) == old_v,
            forall|i: int| 0 <= i < pos ==> text_lt(#[trigger] old_v[i], key@),
        decreases v@.len() - pos,
    {
        pos = pos + 1;
    }
    let ghost k = key@;
    v.insert(pos, key);
    proof {
        let nv = seq_view(v@);
        assert(nv =~= old_v.insert(pos as int, k));
        if pos < old_v.len() {
            assert(old_v[pos as int] != k) by {
                assert(old_v.contains(old_v[pos as int]));
            }
            lemma_text_lt_total(old_v[pos as int], k);
        }
        assert forall|i: int, j: int| 0 <= i < j < nv.len() implies text_lt(#[trigger] nv[i], #[trigger] nv[j]) by {
            if j < pos {
            } else if j == pos {
            } else if i < pos {
                lemma_text_lt_transitive(nv[i], k, old_v[pos as int]);
                if j - 1 > pos {
                    lemma_text_lt_transitive(nv[i], old_v[pos as int], nv[j]);
                }
            } else if i == pos {
                if j - 1 > pos {
                    lemma_text_lt_transitive(k, old_v[pos as int], nv[j]);
                }
            } else {
            }
        }
        assert forall|q: Seq<char>| #[trigger] nv.contains(q) <==> (old_v.contains(q) || q == k) by {
            if nv.contains(q) {
                let i = choose|i: int| 0 <= i < nv.len() && nv[i] == q;
                if i < pos {
                    assert(old_v[i] == q);
                } else if i > pos {
                    assert(old_v[i - 1] == q);
                }
            }
            if old_v.contains(q) {
                let i = choose|i: int| 0 <= i < old_v.len() && old_v[i] == q;
                if i < pos {
                    assert(nv[i] == q);
                } else {
                    assert(nv[i + 1] == q);
                }
            }
            if q == k {
                assert(nv[pos as int] == q);
            }
        }
    }
}

/// What follows the sorted keys in the document listing: the active document,
/// when it is not among the open ones.
pub open spec fn listing_tail(keys: Seq<Seq<char>>, active: Option<Seq<char>>) -> Seq<Seq<char>> {
    match active {
        Some(a) => if keys.contains(a) {
            Seq::empty()
        } else {
            seq![a]
        },
        None => Seq::empty(),
    }
}

/// `d` lists the documents of `m`: their keys sorted, then the active
/// document when it is not one of them; and names the active document.
pub open spec fn docs_listing(m: DocsView, d: DocsInfoView) -> bool {
    let keys = keys_of(m.entries);
    &&& d.open_documents.len() >= keys.len()
    &&& is_sorted_listing(d.open_documents.take(keys.len() as int), keys)
    &&& d.open_documents.skip(keys.len() as int) == listing_tail(keys, m.active)
    &&& d.active_document == m.active
}

/// The contents of the running mini-apps, in the order of their entries.
pub fn collect_apps(manager: &DocumentManager) -> (r: Vec<String>)
    ensures
        seq_view(r@) == Seq::new(manager@.entries.len(), |i: int| manager@.entries[i].1),
{
    let mut out: Vec<String> = Vec::new();
    let mut i: usize = 0;
    while i < manager.documents.len()
        invariant
            i <= manager.documents@.len(),
            seq_view(out@) =~= Seq::new(i as nat, |j: int| manager@.entries[j].1),
        decreases manager.documents@.len() - i,
    {
        let ghost prev = seq_view(out@);
        out.push(manager.documents[i].1.text.clone());
        assert(seq_view(out@) =~= prev.push(manager@.entries[i as int].1));
        i = i + 1;
    }
    out
}

/// The open documents, sorted, then the active document when it is not one
/// of them; and the active document.
pub fn collect_docs(manager: &DocumentManager) -> (r: DocsInfo)
    requires
        manager.wf(),
    ensures
        docs_listing(manager@, r@),
{
    let ghost keys = keys_of(manager@.entries);
    let mut open_documents: Vec<String> = Vec::new();
    let mut i: usize = 0;
    while i < manager.documents.len()
        invariant
            manager.wf(),
            keys == keys_of(manager@.entries),
            i <= manager.documents@.len(),
            seq_view(open_documents@).len() == i,
            sorted_texts(seq_view(open_documents@)),
            forall|k: Seq<char>| #[trigger] seq_view(open_documents@).contains(k) <==> keys.take(i as int).contains(k),
        decreases manager.documents@.len() - i,
    {
        let key = manager.documents[i].0.clone();
        proof {
            if keys.take(i as int).contains(key@) {
                let j = choose|j: int| 0 <= j < i && #[trigger] keys.take(i as int)[j] == key@;
                assert(manager@.entries[j].0 == manager@.entries[i as int].0);
            }
        }
        let ghost k = key@;
        insert_sorted(&mut open_documents, key);
        proof {
            assert forall|q: Seq<char>| #[trigger] seq_view(open_documents@).contains(q) <==> keys.take(i + 1).contains(q) by {
                if keys.take(i + 1).contains(q) {
                    let j = choose|j: int| 0 <= j < i + 1 && #[trigger] keys.take(i + 1)[j] == q;
                    if j < i {
                        assert(keys.take(i as int)[j] == q);
                    }
                }
                if keys.take(i as int).contains(q) {
                    let j = choose|j: int| 0 <= j < i && #[trigger] keys.take(i as int)[j] == q;
                    assert(keys.take(i + 1)[j] == q);
                }
                if q == k {
                    assert(keys.take(i + 1)[i as int] == q);
                }
            }
        }
        i = i + 1;
    }
    let ghost n = open_documents@.len();
    assert(keys.take(keys.len() as int) =~= keys);
    let active_document = match &manager.active_document {
        Some(u) => Some(u.value.clone()),
        None => None,
    };
    let ghost listed = seq_view(open_documents@);
    if let Some(active) = &active_document {
        match position(&manager.documents, active.as_str()) {
            Some(_) => {
                assert(keys.contains(active@)) by {
                    let j = index_of_witness(manager@.entries, active@);
                    assert(keys[j] == active@);
                }
            },
            None => {
                assert(!keys.contains(active@)) by {
                    if keys.contains(active@) {
                        let j = choose|j: int| 0 <= j < keys.len() && #[trigger] keys[j] == active@;
                        assert(manager@.entries[j].0 == active@);
                    }
                }
                open_documents.push(active.clone());
            },
        }
    }
    let r = DocsInfo { open_documents, active_document };
    assert(r@.open_documents.take(n as int) =~= listed);
    assert(r@.open_documents.skip(n as int) =~= listing_tail(keys, manager@.active));
    r
}

proof fn index_of_witness<V>(e: Seq<(Seq<char>, V)>, k: Seq<char>) -> (i: int)
    requires
        has_key(e, k),
    ensures
        0 <= i < e.len(),
        e[i].0 == k,
{
    choose|i: int| 0 <= i < e.len() && e[i].0 == k
}

/// The key and description of each stored value, in the order of their entries.
pub fn collect_stored_values(values: &Vec<(String, StoredValue)>) -> (r: Vec<StoredValueInfo>)
    ensures
        seq_view(r@) == Seq::new(values@.len(), |i: int| (entries_view(values@)[i].0, entries_view(values@)[i].1.1)),
{
    let mut out: Vec<StoredValueInfo> = Vec::new();
    let mut i: usize = 0;
    while i < values.len()
        invariant
            i <= values@.len(),
            seq_view(out@) =~= Seq::new(i as nat, |j: int| (entries_view(values@)[j].0, entries_view(values@)[j].1.1)),
        decreases values@.len() - i,
    {
        let info = StoredValueInfo { key: values[i].0.clone(), description: values[i].1.description.clone() };
        let ghost prev = seq_view(out@);
        out.push(info);
        assert(seq_view(out@) =~= prev.push(info@));
        i = i + 1;
    }
    out
}

} // verus!
