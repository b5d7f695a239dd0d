use crate::listing::FileItem;
use crate::listing::RawEntry;
use crate::listing::entry_model;
use crate::listing::entry_models;
use crate::listing::item_models;
use vstd::prelude::*;

verus! {

/// Filtering two pointwise-matching sequences by matching predicates keeps
/// as many elements of the one as of the other.
proof fn lemma_filter_len_matches<A, B>(
    s1: Seq<A>,
    s2: Seq<B>,
    p1: spec_fn(A) -> bool,
    p2: spec_fn(B) -> bool,
)
    requires
        s1.len() == s2.len(),
        forall|i: int| 0 <= i < s1.len() ==> p1(s1[i]) == p2(s2[i]),
    ensures
        s1.filter(p1).len() == s2.filter(p2).len(),
    decreases s1.len(),
{
    reveal(Seq::filter);
    if s1.len() > 0 {
        assert(forall|i: int|
            0 <= i < s1.drop_last().len() ==> p1(s1.drop_last()[i]) == p2(s2.drop_last()[i]));
        lemma_filter_len_matches(s1.drop_last(), s2.drop_last(), p1, p2);
    }
}

/// A listing of a read that retrieved no children has no descriptors: an
/// empty directory lists as an empty collection, with no error.
pub proof fn lemma_empty_listing(entries: Seq<RawEntry>, items: Seq<FileItem>)
    requires
        entries.len() == 0,
        item_models(items) == entry_models(entries),
    ensures
        items.len() == 0,
{
    assert(items.len() == item_models(items).len());
}

/// A listing of a read that retrieved the children `entries` holds exactly
/// one descriptor per child — as many as the directory's files and
/// subdirectories together — and marks exactly as many of them as
/// directories as the read found.
pub proof fn lemma_listing_counts(entries: Seq<RawEntry>, items: Seq<FileItem>)
    requires
        item_models(items) == entry_models(entries),
    ensures
        items.len() == entries.len(),
        items.filter(|it: FileItem| it.is_dir).len() == entries.filter(
            |r: RawEntry| r.is_dir,
        ).len(),
{
    assert(items.len() == item_models(items).len());
    assert(entries.len() == entry_models(entries).len());
    assert forall|i: int|
        0 <= i < items.len() implies (#[trigger] items[i]).is_dir == entries[i].is_dir by {
        assert(item_models(items)[i] == items[i]@);
        assert(entry_models(entries)[i] == entry_model(entries[i]));
    }
    lemma_filter_len_matches(
        items,
        entries,
        |it: FileItem| it.is_dir,
        |r: RawEntry| r.is_dir,
    );
}

/// Mapping two sequences that hold the same elements, in any order, yields
/// sequences that hold the same images, in any order.
proof fn lemma_map_values_multiset<A, B>(s1: Seq<A>, s2: Seq<A>, f: spec_fn(A) -> B)
    requires
        s1.to_multiset() == s2.to_multiset(),
    ensures
        s1.map_values(f).to_multiset() == s2.map_values(f).to_multiset(),
    decreases s1.len(),
{
    broadcast use vstd::seq_lib::group_to_multiset_ensures;
    broadcast use vstd::multiset::group_multiset_axioms;

    vstd::seq_lib::to_multiset_len(s1);
    vstd::seq_lib::to_multiset_len(s2);
    assert(s1.len() == s2.len());
    if s1.len() == 0 {
        assert(s1.map_values(f) =~= s2.map_values(f));
    } else {
        let x = s1.last();
        assert(s1.contains(x));
        assert(s2.to_multiset().count(x) > 0);
        assert(s2.contains(x));
        let j = choose|j: int| 0 <= j < s2.len() && s2[j] == x;
        let s1p = s1.drop_last();
        let s2p = s2.remove(j);
        assert(s1 =~= s1p.push(x));
        assert(s1p.to_multiset() =~= s1.to_multiset().remove(x)) by {
            assert(s1p.push(x).to_multiset() =~= s1p.to_multiset().insert(x));
        }
        assert(s2p.to_multiset() =~= s2.to_multiset().remove(x));
        lemma_map_values_multiset(s1p, s2p, f);
        let m1 = s1.map_values(f);
        let m2 = s2.map_values(f);
        assert(m1 =~= s1p.map_values(f).push(f(x)));
        assert(m1.to_multiset() =~= s1p.map_values(f).to_multiset().insert(f(x)));
        assert(s2p.map_values(f) =~= m2.remove(j));
        assert(m2.remove(j).to_multiset() =~= m2.to_multiset().remove(f(x)));
        assert(m2.contains(m2[j]));
        assert(m1.to_multiset() =~= m2.to_multiset().remove(f(x)).insert(f(x)));
        assert(m2.to_multiset().remove(f(x)).insert(f(x)) =~= m2.to_multiset());
    }
}

/// Listing an unchanged directory twice gives the same result both times:
/// two reads that retrieve the same children, in whatever order each
/// happens to walk them, yield listings with the same descriptors, in
/// some order, and in particular as many of them.
pub proof fn lemma_listing_idempotent(
    e1: Seq<RawEntry>,
    e2: Seq<RawEntry>,
    items1: Seq<FileItem>,
    items2: Seq<FileItem>,
)
    requires
        e1.to_multiset() == e2.to_multiset(),
        item_models(items1) == entry_models(e1),
        item_models(items2) == entry_models(e2),
    ensures
        items1.len() == items2.len(),
        item_models(items1).to_multiset() == item_models(items2).to_multiset(),
{
    broadcast use vstd::seq_lib::group_to_multiset_ensures;

    vstd::seq_lib::to_multiset_len(e1);
    vstd::seq_lib::to_multiset_len(e2);
    assert(e1.len() == e2.len());
    assert(items1.len() == item_models(items1).len());
    assert(items2.len() == item_models(items2).len());
    lemma_map_values_multiset(e1, e2, |r: RawEntry| entry_model(r));
}

} // verus!
