//! First-seen-wins deduplication of desktop entries by identifier.
//!
//! Two different source roots may yield entries with the same identifier, by
//! design; when they do, only the entry encountered first — in root and walk
//! order — is kept, whatever the later entry's content.

use vstd::prelude::*;

use crate::entry::{DesktopEntry, EntryV};

verus! {

/// Holds when some entry before position `i` of `s` carries the same
/// identifier as the entry at `i`.
pub open spec fn id_seen_before(s: Seq<EntryV>, i: int) -> bool {
    exists|k: int| 0 <= k < i && #[trigger] s[k].id == s[i].id
}

/// The subsequence of `s` that keeps, in order, exactly the entries whose
/// identifier has not occurred earlier in `s`.
pub open spec fn dedup_spec(s: Seq<EntryV>) -> Seq<EntryV>
    decreases s.len(),
{
    if s.len() == 0 {
        Seq::empty()
    } else if id_seen_before(s, s.len() - 1) {
        dedup_spec(s.drop_last())
    } else {
        dedup_spec(s.drop_last()).push(s.last())
    }
}

/// Decides whether an entry before position `i` of `entries` carries the
/// same identifier as the entry at `i`.
fn id_seen(entries: &Vec<DesktopEntry>, i: usize) -> (r: bool)
    requires
        i < entries.len(),
    ensures
        r == id_seen_before(entries.deep_view(), i as int),
{
    let ghost s = entries.deep_view();
    let mut k: usize = 0;
    while k < i
        invariant
            k <= i < entries.len(),
            s == entries.deep_view(),
            s.len() == entries.len(),
            forall|j: int| 0 <= j < k ==> #[trigger] s[j].id != s[i as int].id,
        decreases i - k,
    {
        if entries[k].id == entries[i].id {
            proof {
                assert(s[k as int].id == s[i as int].id);
            }
            return true;
        }
        k = k + 1;
    }
    false
}

/// Deduplicates `entries` by identifier, keeping for each identifier only
/// the entry seen first.
pub fn dedup_entries(entries: &Vec<DesktopEntry>) -> (r: Vec<DesktopEntry>)
    ensures
        r.deep_view() == dedup_spec(entries.deep_view()),
{
    let ghost s = entries.deep_view();
    let mut out: Vec<DesktopEntry> = Vec::new();
    let mut i: usize = 0;
    proof {
        assert(s.take(0) =~= Seq::<EntryV>::empty());
    }
    while i < entries.len()
        invariant
            i <= entries.len(),
            s == entries.deep_view(),
            s.len() == entries.len(),
            out.deep_view() == dedup_spec(s.take(i as int)),
        decreases entries.len() - i,
    {
        let ghost taken = s.take(i + 1);
        proof {
            assert(taken.drop_last() =~= s.take(i as int));
            assert(taken.last() == s[i as int]);
            if id_seen_before(s, i as int) {
                let k = choose|k: int| 0 <= k < i && #[trigger] s[k].id == s[i as int].id;
                assert(taken[k].id == taken[i as int].id);
            }
            if id_seen_before(taken, i as int) {
                let k = choose|k: int| 0 <= k < i && #[trigger] taken[k].id == taken[i as int].id;
                assert(s[k].id == s[i as int].id);
            }
            assert(id_seen_before(taken, i as int) == id_seen_before(s, i as int));
        }
        if !id_seen(entries, i) {
            out.push(entries[i].clone());
        }
        i = i + 1;
    }
    proof {
        assert(s.take(s.len() as int) =~= s);
    }
    out
}

/// No two entries of the deduplicated sequence share an identifier.
pub proof fn lemma_dedup_distinct_ids(s: Seq<EntryV>)
    ensures
        forall|p: int, q: int|
            0 <= p < q < dedup_spec(s).len() ==> #[trigger] dedup_spec(s)[p].id != #[trigger] dedup_spec(
                s,
            )[q].id,
    decreases s.len(),
{
    if s.len() > 0 {
        let t = s.drop_last();
        let dt = dedup_spec(t);
        let d = dedup_spec(s);
        lemma_dedup_distinct_ids(t);
        lemma_dedup_members(t);
        assert forall|p: int, q: int| 0 <= p < q < d.len() implies d[p].id != d[q].id by {
            if !id_seen_before(s, s.len() - 1) && q == dt.len() {
                assert(d[q] == s.last());
                assert(d[p] == dt[p]);
                assert(t.contains(dt[p]));
                let w = choose|w: int| 0 <= w < t.len() && t[w] == dt[p];
                assert(t[w] == s[w]);
                assert(!(s[w].id == s[s.len() - 1].id));
            } else {
                assert(d[p] == dt[p] && d[q] == dt[q]);
            }
        }
    }
}

/// Every entry of the deduplicated sequence occurs in the original, and
/// every identifier of the original that first occurs at a position not
/// preceded by an equal identifier is kept with that position's entry.
pub proof fn lemma_dedup_members(s: Seq<EntryV>)
    ensures
        forall|j: int|
            0 <= j < dedup_spec(s).len() ==> s.contains(#[trigger] dedup_spec(s)[j]),
        forall|i: int|
            0 <= i < s.len() && !id_seen_before(s, i) ==> dedup_spec(s).contains(#[trigger] s[i]),
    decreases s.len(),
{
    if s.len() > 0 {
        let t = s.drop_last();
        lemma_dedup_members(t);
        assert forall|j: int| 0 <= j < dedup_spec(s).len() implies s.contains(
            #[trigger] dedup_spec(s)[j],
        ) by {
            if j < dedup_spec(t).len() {
                assert(dedup_spec(s)[j] == dedup_spec(t)[j]);
                let w = choose|w: int| 0 <= w < t.len() && t[w] == dedup_spec(t)[j];
                assert(s[w] == dedup_spec(s)[j]);
            } else {
                assert(dedup_spec(s)[j] == s.last());
                assert(s[s.len() - 1] == s.last());
            }
        }
        assert forall|i: int| 0 <= i < s.len() && !id_seen_before(s, i) implies dedup_spec(
            s,
        ).contains(#[trigger] s[i]) by {
            if i < s.len() - 1 {
                assert forall|k: int| 0 <= k < i implies #[trigger] t[k].id != t[i].id by {
                    assert(t[k] == s[k] && t[i] == s[i]);
                }
                assert(!id_seen_before(t, i));
                assert(t[i] == s[i]);
                let w = choose|w: int| 0 <= w < dedup_spec(t).len() && dedup_spec(t)[w] == t[i];
                assert(dedup_spec(s)[w] == s[i]);
            } else {
                assert(!id_seen_before(s, s.len() - 1));
                assert(dedup_spec(s).last() == s.last());
                assert(dedup_spec(s)[dedup_spec(s).len() - 1] == s[i]);
            }
        }
    }
}

/// First seen wins: when two positions of `s` carry the same identifier and
/// the earlier one is the first with it, deduplication keeps the earlier
/// entry; the later entry, if its content differs, is dropped.
pub proof fn lemma_dedup_first_wins(s: Seq<EntryV>, i: int, j: int)
    requires
        0 <= i < j < s.len(),
        s[i].id == s[j].id,
        !id_seen_before(s, i),
        s[i] != s[j],
    ensures
        dedup_spec(s).contains(s[i]),
        !dedup_spec(s).contains(s[j]),
{
    lemma_dedup_members(s);
    lemma_dedup_distinct_ids(s);
    let d = dedup_spec(s);
    let w = choose|w: int| 0 <= w < d.len() && d[w] == s[i];
    if d.contains(s[j]) {
        let v = choose|v: int| 0 <= v < d.len() && d[v] == s[j];
        assert(d[v].id == d[w].id);
        assert(v != w);
    }
}

} // verus!
