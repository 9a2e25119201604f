//! The order of the repositories in the list.
use vstd::prelude::*;
use vstd::string::*;
use crate::order::{
    in_order, key_before, law_sorting_is_stable, lemma_keys_asymmetric, lemma_order_covers, order,
    sort_by_keys, stands_before, KeyView, SortKey,
};
use crate::repo_list::{RepoEntry, RepoEntryView, RepoList, RepoListView};
use crate::text::{chars_of, lowercase, to_lowercase};

verus! {

/// What a repository is sorted by: its name, upper and lower case being the same,
/// and before that, if the changed ones come first, whether it has no changes.
pub open spec fn entry_key(entry: RepoEntryView, dirty_first: bool) -> KeyView {
    KeyView {
        late: dirty_first && !(entry.status matches Some(status)
            && status.is_dirty),
        text: lowercase(entry.name),
    }
}

/// What some repositories are sorted by.
pub open spec fn entry_keys(entries: Seq<RepoEntryView>, dirty_first: bool) -> Seq<KeyView> {
    Seq::new(entries.len(), |i: int| entry_key(entries[i], dirty_first))
}

/// The repositories in order.
pub open spec fn sorted_entries(entries: Seq<RepoEntryView>, dirty_first: bool) -> Seq<RepoEntryView> {
    in_order(entries, entry_keys(entries, dirty_first))
}

impl RepoListView {
    /// The list in order, its first repository selected.
    pub open spec fn sorted(self, dirty_first: bool) -> RepoListView {
        let sorted = RepoListView {
            repos: sorted_entries(self.repos, dirty_first),
            ..self
        }.refreshed();
        if self.repos.len() > 0 {
            sorted.select_repo_row(0)
        } else {
            sorted
        }
    }
}

/// What a repository is sorted by.
fn key_of_entry(entry: &RepoEntry, dirty_first: bool) -> (r: SortKey)
    ensures
        r.deep_view() == entry_key(entry.deep_view(), dirty_first),
{
    let dirty = match &entry.status {
        Some(status) => status.is_dirty,
        None => false,
    };
    let name = to_lowercase(entry.name.as_str());
    SortKey { late: dirty_first && !dirty, text: chars_of(name.as_str()) }
}

impl RepoList {
    /// Sorts the list, and selects its first repository.
    pub fn sort(&mut self, dirty_first: bool)
        requires
            old(self)@.wf(),
        ensures
            final(self)@ == old(self)@.sorted(dirty_first),
            final(self)@.wf(),
    {
        let ghost s = self@;
        let ghost entries = s.repos;
        let ghost want_keys = Seq::new(
            entries.len(),
            |i: int| entry_key(entries[i], dirty_first),
        );
        let mut keys: Vec<SortKey> = Vec::new();
        let mut i: usize = 0;
        while i < self.repos.len()
            invariant
                i <= self.repos@.len(),
                s == self@,
                entries == s.repos,
                want_keys == Seq::new(
                    entries.len(),
                    |i: int| entry_key(entries[i], dirty_first),
                ),
                keys.deep_view() =~= want_keys.take(i as int),
            decreases self.repos@.len() - i,
        {
            let ghost before = keys.deep_view();
            assert(entries[i as int] == self.repos@[i as int].deep_view());
            let key = key_of_entry(&self.repos[i], dirty_first);
            keys.push(key);
            assert(keys.deep_view() =~= before.push(key.deep_view()));
            i = i + 1;
        }
        assert(keys.deep_view() =~= want_keys);
        let mut unsorted: Vec<RepoEntry> = Vec::new();
        std::mem::swap(&mut unsorted, &mut self.repos);
        let ghost given = unsorted@;
        assert(unsorted.deep_view() == entries);
        let sorted = sort_by_keys(unsorted, &keys);
        proof {
            law_sorting_is_stable(want_keys);
            assert forall|j: int| 0 <= j < sorted@.len() implies sorted@[j].deep_view()
                == #[trigger] sorted_entries(entries, dirty_first)[j] by {
                let k = order(want_keys)[j];
                assert(entries[k] == given[k].deep_view());
            }
            assert(sorted.deep_view() =~= sorted_entries(entries, dirty_first));
        }
        let some = sorted.len() > 0;
        self.repos = sorted;
        self.rebuild_display_rows();
        if some {
            self.select_repo_row(0);
        }
    }
}

/// Sorting by name puts the repositories in the order of their names, and with
/// changed ones first these stand before all others; repositories that are equal
/// in this stay in the order in which they were, given by the numbers that they
/// had, and none is lost.
pub proof fn law_sorted_entries(entries: Seq<RepoEntryView>, dirty_first: bool)
    ensures
        sorted_entries(entries, dirty_first).len() == entries.len(),
        forall|i: int, j: int|
            0 <= i < j < entries.len() ==> !key_before(
                entry_key(#[trigger] sorted_entries(entries, dirty_first)[j], dirty_first),
                entry_key(#[trigger] sorted_entries(entries, dirty_first)[i], dirty_first),
            ),
        forall|j: int|
            0 <= j < entries.len() ==> #[trigger] sorted_entries(entries, dirty_first)[j]
                == entries[order(entry_keys(entries, dirty_first))[j]],
        forall|i: int, j: int|
            0 <= i < j < entries.len() && entry_key(
                #[trigger] sorted_entries(entries, dirty_first)[i],
                dirty_first,
            ) == entry_key(#[trigger] sorted_entries(entries, dirty_first)[j], dirty_first)
                ==> order(entry_keys(entries, dirty_first))[i] < order(
                entry_keys(entries, dirty_first),
            )[j],
        forall|e: RepoEntryView| #[trigger]
            sorted_entries(entries, dirty_first).contains(e) <==> entries.contains(e),
{
    let keys = entry_keys(entries, dirty_first);
    law_sorting_is_stable(keys);
    let o = order(keys);
    let sorted = sorted_entries(entries, dirty_first);
    assert forall|i: int, j: int| 0 <= i < j < entries.len() implies !key_before(
        entry_key(#[trigger] sorted[j], dirty_first),
        entry_key(#[trigger] sorted[i], dirty_first),
    ) by {
        assert(stands_before(keys, o[i], o[j]));
        lemma_keys_asymmetric(keys[o[i]], keys[o[j]]);
    }
    assert forall|i: int, j: int|
        0 <= i < j < entries.len() && entry_key(#[trigger] sorted[i], dirty_first) == entry_key(
            #[trigger] sorted[j],
            dirty_first,
        ) implies o[i] < o[j] by {
        assert(stands_before(keys, o[i], o[j]));
        lemma_keys_asymmetric(keys[o[i]], keys[o[j]]);
    }
    assert forall|e: RepoEntryView| #[trigger] sorted.contains(e) <==> entries.contains(e) by {
        if sorted.contains(e) {
            let a = choose|a: int| 0 <= a < sorted.len() && sorted[a] == e;
            assert(entries[o[a]] == e);
        }
        if entries.contains(e) {
            let i = choose|i: int| 0 <= i < entries.len() && entries[i] == e;
            lemma_order_covers(keys, i);
            let k = choose|k: int| 0 <= k < o.len() && o[k] == i;
            assert(sorted[k] == e);
        }
    }
}

} // verus!
