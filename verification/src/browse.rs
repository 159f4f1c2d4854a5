//! The browse endpoint's listing rules: entries whose names start with a
//! dot are dropped, and the rest are sorted by raw name, ascending and
//! case-sensitive.  Directories are not separated from files here; that
//! is a presentation concern of the caller.

use vstd::prelude::*;
use vstd::multiset::Multiset;
use vstd::seq_lib::lemma_multiset_commutative;

use crate::models::{RemoteFile, RemoteFileV};
use crate::text::{lemma_lex_le_total, lemma_lex_le_trans, lex_le, name_is_hidden, starts_with_dot,
    str_le};

verus! {

/// The views of a listing's rows.
pub open spec fn rf_views(s: Seq<RemoteFile>) -> Seq<RemoteFileV> {
    s.map_values(|e: RemoteFile| e@)
}

/// Listing order: by name, ascending, case-sensitive.
pub open spec fn entry_le(a: RemoteFileV, b: RemoteFileV) -> bool {
    lex_le(a.name, b.name)
}

/// The entries that the listing shows: those whose names do not start
/// with a dot, in their original order.
pub open spec fn visible_entries(s: Seq<RemoteFileV>) -> Seq<RemoteFileV>
    decreases s.len(),
{
    if s.len() == 0 {
        Seq::empty()
    } else {
        let rest = visible_entries(s.drop_last());
        if starts_with_dot(s.last().name) {
            rest
        } else {
            rest.push(s.last())
        }
    }
}

/// `x` placed before the first entry it precedes or equals.
pub open spec fn insert_sorted(x: RemoteFileV, s: Seq<RemoteFileV>) -> Seq<RemoteFileV>
    decreases s.len(),
{
    if s.len() == 0 {
        seq![x]
    } else if entry_le(x, s.first()) {
        seq![x] + s
    } else {
        seq![s.first()] + insert_sorted(x, s.drop_first())
    }
}

/// The listing sort: each entry inserted, in turn, into the sorted rest.
pub open spec fn sort_by_name(s: Seq<RemoteFileV>) -> Seq<RemoteFileV>
    decreases s.len(),
{
    if s.len() == 0 {
        Seq::empty()
    } else {
        insert_sorted(s.last(), sort_by_name(s.drop_last()))
    }
}

/// Whether a listing is sorted by name.
pub open spec fn sorted_by_name(s: Seq<RemoteFileV>) -> bool {
    forall|i: int, j: int| 0 <= i < j < s.len() ==> entry_le(s[i], s[j])
}

/// What the browse endpoint returns for the raw entries `s`.
pub open spec fn browse_listing(s: Seq<RemoteFileV>) -> Seq<RemoteFileV> {
    sort_by_name(visible_entries(s))
}

/// Inserting keeps any lower bound that also bounds the new entry.
proof fn lemma_insert_sorted_lower_bound(lb: RemoteFileV, x: RemoteFileV, s: Seq<RemoteFileV>)
    requires
        entry_le(lb, x),
        forall|k: int| 0 <= k < s.len() ==> entry_le(lb, #[trigger] s[k]),
    ensures
        forall|k: int|
            0 <= k < insert_sorted(x, s).len() ==> entry_le(lb, #[trigger] insert_sorted(x, s)[k]),
    decreases s.len(),
{
    if s.len() == 0 {
        assert(insert_sorted(x, s)[0] == x);
    } else if entry_le(x, s.first()) {
        assert forall|k: int|
            0 <= k < insert_sorted(x, s).len() implies entry_le(
            lb,
            #[trigger] insert_sorted(x, s)[k],
        ) by {
            if k == 0 {
                assert(insert_sorted(x, s)[0] == x);
            } else {
                assert(insert_sorted(x, s)[k] == s[k - 1]);
            }
        }
    } else {
        lemma_insert_sorted_lower_bound(lb, x, s.drop_first());
        assert forall|k: int|
            0 <= k < insert_sorted(x, s).len() implies entry_le(
            lb,
            #[trigger] insert_sorted(x, s)[k],
        ) by {
            if k == 0 {
                assert(insert_sorted(x, s)[0] == s[0]);
            } else {
                assert(insert_sorted(x, s)[k] == insert_sorted(x, s.drop_first())[k - 1]);
            }
        }
    }
}

/// Inserting into a sorted listing keeps it sorted.
proof fn lemma_insert_sorted_sorted(x: RemoteFileV, s: Seq<RemoteFileV>)
    requires
        sorted_by_name(s),
    ensures
        sorted_by_name(insert_sorted(x, s)),
    decreases s.len(),
{
    if s.len() == 0 {
    } else if entry_le(x, s.first()) {
        assert forall|i: int, j: int|
            0 <= i < j < (seq![x] + s).len() implies entry_le((seq![x] + s)[i], (seq![x] + s)[j]) by {
            if i == 0 {
                if j > 1 {
                    assert(entry_le(s[0], s[j - 1]));
                    lemma_lex_le_trans(x.name, s[0].name, s[j - 1].name);
                }
            } else {
                assert(entry_le(s[i - 1], s[j - 1]));
            }
        }
    } else {
        lemma_lex_le_total(x.name, s.first().name);
        assert(sorted_by_name(s.drop_first()));
        lemma_insert_sorted_sorted(x, s.drop_first());
        lemma_insert_sorted_lower_bound(s.first(), x, s.drop_first());
        let t = seq![s.first()] + insert_sorted(x, s.drop_first());
        assert forall|i: int, j: int| 0 <= i < j < t.len() implies entry_le(t[i], t[j]) by {
            if i > 0 {
                assert(entry_le(
                    insert_sorted(x, s.drop_first())[i - 1],
                    insert_sorted(x, s.drop_first())[j - 1],
                ));
            }
        }
    }
}

/// Insertion adds exactly the new entry to the listing's contents.
proof fn lemma_insert_sorted_multiset(x: RemoteFileV, s: Seq<RemoteFileV>)
    ensures
        insert_sorted(x, s).to_multiset() == s.to_multiset().insert(x),
    decreases s.len(),
{
    broadcast use vstd::seq_lib::group_to_multiset_ensures;

    if s.len() == 0 {
        assert(seq![x] =~= Seq::<RemoteFileV>::empty().push(x));
        assert(insert_sorted(x, s).to_multiset() =~= s.to_multiset().insert(x));
    } else if entry_le(x, s.first()) {
        lemma_multiset_commutative(seq![x], s);
        assert(seq![x].to_multiset() =~= Multiset::<RemoteFileV>::empty().insert(x));
        assert((seq![x] + s).to_multiset() =~= s.to_multiset().insert(x));
    } else {
        lemma_insert_sorted_multiset(x, s.drop_first());
        lemma_multiset_commutative(seq![s.first()], insert_sorted(x, s.drop_first()));
        lemma_multiset_commutative(seq![s.first()], s.drop_first());
        assert(seq![s.first()] + s.drop_first() =~= s);
        assert((seq![s.first()] + insert_sorted(x, s.drop_first())).to_multiset()
            =~= s.to_multiset().insert(x));
    }
}

/// The sort is sorted.
pub proof fn lemma_sort_by_name_sorted(s: Seq<RemoteFileV>)
    ensures
        sorted_by_name(sort_by_name(s)),
    decreases s.len(),
{
    if s.len() > 0 {
        lemma_sort_by_name_sorted(s.drop_last());
        lemma_insert_sorted_sorted(s.last(), sort_by_name(s.drop_last()));
    }
}

/// The sort is a permutation: it keeps exactly the entries it was given.
pub proof fn lemma_sort_by_name_multiset(s: Seq<RemoteFileV>)
    ensures
        sort_by_name(s).to_multiset() == s.to_multiset(),
    decreases s.len(),
{
    broadcast use vstd::seq_lib::group_to_multiset_ensures;

    if s.len() > 0 {
        lemma_sort_by_name_multiset(s.drop_last());
        lemma_insert_sorted_multiset(s.last(), sort_by_name(s.drop_last()));
        assert(s.drop_last().push(s.last()) =~= s);
    }
}

/// Where the scan stopped determines where the entry lands.
proof fn lemma_insert_sorted_at(x: RemoteFileV, s: Seq<RemoteFileV>, j: int)
    requires
        0 <= j <= s.len(),
        forall|k: int| 0 <= k < j ==> !entry_le(x, #[trigger] s[k]),
        j < s.len() ==> entry_le(x, s[j]),
    ensures
        insert_sorted(x, s) == s.take(j) + seq![x] + s.skip(j),
    decreases j,
{
    if j == 0 {
        if s.len() == 0 {
            assert(insert_sorted(x, s) =~= s.take(0) + seq![x] + s.skip(0));
        } else {
            assert(entry_le(x, s.first()));
            assert(seq![x] + s =~= s.take(0) + seq![x] + s.skip(0));
        }
    } else {
        assert(!entry_le(x, s[0]));
        lemma_insert_sorted_at(x, s.drop_first(), j - 1);
        assert(seq![s.first()] + (s.drop_first().take(j - 1) + seq![x] + s.drop_first().skip(j - 1))
            =~= s.take(j) + seq![x] + s.skip(j));
    }
}

/// Inserts `entry` into the listing just before the first entry it
/// precedes or equals.
fn insert_entry(out: &mut Vec<RemoteFile>, entry: RemoteFile)
    ensures
        rf_views(final(out)@) == insert_sorted(entry@, rf_views(old(out)@)),
{
    let n = out.len();
    let mut j: usize = 0;
    while j < n && !str_le(entry.name.as_str(), out[j].name.as_str())
        invariant
            j <= n,
            n == out@.len(),
            out == old(out),
            forall|k: int| 0 <= k < j ==> !entry_le(entry@, #[trigger] rf_views(out@)[k]),
        decreases n - j,
    {
        j = j + 1;
    }
    proof {
        lemma_insert_sorted_at(entry@, rf_views(out@), j as int);
    }
    let ghost before = out@;
    out.insert(j, entry);
    proof {
        assert(rf_views(out@) =~= rf_views(before).take(j as int) + seq![entry@] + rf_views(
            before,
        ).skip(j as int));
    }
}

/// The browse endpoint's listing: the visible entries, sorted by name.
/// The result is exactly `browse_listing` of the input, so it is sorted
/// and holds the visible entries and nothing else.
pub fn browse_response(entries: &Vec<RemoteFile>) -> (r: Vec<RemoteFile>)
    ensures
        rf_views(r@) == browse_listing(rf_views(entries@)),
        sorted_by_name(rf_views(r@)),
        rf_views(r@).to_multiset() == visible_entries(rf_views(entries@)).to_multiset(),
{
    let n = entries.len();
    let mut out: Vec<RemoteFile> = Vec::new();
    let mut i: usize = 0;
    while i < n
        invariant
            i <= n,
            n == entries@.len(),
            rf_views(out@) == sort_by_name(visible_entries(rf_views(entries@.take(i as int)))),
        decreases n - i,
    {
        proof {
            assert(rf_views(entries@.take(i as int + 1)).drop_last() =~= rf_views(entries@.take(
                i as int,
            )));
            assert(rf_views(entries@.take(i as int + 1)).last() == entries@[i as int]@);
        }
        let ghost vis = visible_entries(rf_views(entries@.take(i as int)));
        let e = &entries[i];
        if !name_is_hidden(e.name.as_str()) {
            let copy = RemoteFile {
                name: e.name.clone(),
                is_dir: e.is_dir,
                size: e.size,
                modified: e.modified,
            };
            insert_entry(&mut out, copy);
            proof {
                assert(visible_entries(rf_views(entries@.take(i as int + 1))) == vis.push(
                    entries@[i as int]@,
                ));
                assert(vis.push(entries@[i as int]@).drop_last() =~= vis);
                assert(sort_by_name(vis.push(entries@[i as int]@)) == insert_sorted(
                    entries@[i as int]@,
                    sort_by_name(vis),
                ));
            }
        } else {
            proof {
                assert(visible_entries(rf_views(entries@.take(i as int + 1))) == vis);
            }
        }
        i = i + 1;
    }
    proof {
        assert(entries@.take(n as int) =~= entries@);
        lemma_sort_by_name_sorted(visible_entries(rf_views(entries@)));
        lemma_sort_by_name_multiset(visible_entries(rf_views(entries@)));
    }
    out
}

} // verus!
