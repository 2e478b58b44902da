use vstd::prelude::*;

verus! {

/// The values of a list of names, in order.
pub open spec fn names_view(names: Seq<String>) -> Seq<Seq<char>> {
    Seq::new(names.len(), |i: int| names[i]@)
}

/// Which entries are not the one to keep.
pub open spec fn is_stale(keep: Seq<char>) -> spec_fn(Seq<char>) -> bool {
    |name: Seq<char>| name != keep
}

/// The entries to remove after a fresh download: every entry whose name is
/// not exactly `keep`, in the order of the listing.
pub open spec fn stale_of(entries: Seq<Seq<char>>, keep: Seq<char>) -> Seq<Seq<char>> {
    entries.filter(is_stale(keep))
}

/// Picks from a directory listing the entries to remove: all but the one
/// named `keep`.
pub fn stale_entries(entries: &Vec<String>, keep: &String) -> (r: Vec<String>)
    ensures
        names_view(r@) == stale_of(names_view(entries@), keep@),
{
    let ghost all = names_view(entries@);
    let mut out: Vec<String> = Vec::new();
    let mut i: usize = 0;
    proof {
        reveal(Seq::filter);
        assert(all.take(0) =~= Seq::<Seq<char>>::empty());
        assert(names_view(out@) =~= Seq::<Seq<char>>::empty());
    }
    while i < entries.len()
        invariant
            i <= entries.len(),
            all == names_view(entries@),
            names_view(out@) == stale_of(all.take(i as int), keep@),
        decreases entries.len() - i,
    {
        proof {
            reveal(Seq::filter);
            assert(all.take(i + 1).drop_last() =~= all.take(i as int));
            assert(all.take(i + 1).last() == entries@[i as int]@);
        }
        if entries[i] != *keep {
            let ghost before = names_view(out@);
            out.push(entries[i].clone());
            assert(names_view(out@) =~= before.push(entries@[i as int]@));
        }
        i = i + 1;
    }
    proof {
        assert(all.take(entries.len() as int) =~= all);
    }
    out
}

/// After the cleanup of a listing, the kept name is never among the entries
/// to remove, and every entry of the listing by another name is.
pub proof fn stale_entries_spare_exactly_the_kept(entries: Seq<Seq<char>>, keep: Seq<char>)
    ensures
        !stale_of(entries, keep).contains(keep),
        forall|i: int|
            0 <= i < entries.len() && entries[i] != keep ==> stale_of(entries, keep).contains(
                #[trigger] entries[i],
            ),
        forall|name: Seq<char>| #[trigger]
            stale_of(entries, keep).contains(name) ==> entries.contains(name),
{
    let stale = stale_of(entries, keep);
    if stale.contains(keep) {
        entries.lemma_filter_pred(is_stale(keep), stale.index_of(keep));
    }
    assert forall|i: int| 0 <= i < entries.len() && entries[i] != keep implies stale.contains(
        #[trigger] entries[i],
    ) by {
        entries.lemma_filter_contains(is_stale(keep), i);
    }
    assert forall|name: Seq<char>| #[trigger] stale.contains(name) implies entries.contains(
        name,
    ) by {
        entries.lemma_filter_contains_rev(is_stale(keep), name);
    }
}

} // verus!
