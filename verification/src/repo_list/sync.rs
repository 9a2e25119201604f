//! Keeping the list in step with what was discovered.
use vstd::prelude::*;
use vstd::string::*;
use crate::repo_list::{make_entry, new_entry, RepoEntry, RepoEntryView, RepoList, RepoListView};
use crate::text::list_contains;

verus! {

/// What a comparison with the discovered paths changed.
pub struct SyncDiff {
    pub added: Vec<String>,
    pub removed: Vec<String>,
}

impl SyncDiff {
    /// Whether nothing changed.
    pub fn is_empty(&self) -> (r: bool)
        ensures
            r == (self.added@.len() == 0 && self.removed@.len() == 0),
    {
        self.added.is_empty() && self.removed.is_empty()
    }
}

/// Those of some paths that are not known, each once.
pub open spec fn unknown(paths: Seq<Seq<char>>, repos: Seq<RepoEntryView>) -> Seq<Seq<char>>
    decreases paths.len(),
{
    if paths.len() == 0 {
        Seq::empty()
    } else {
        let before = unknown(paths.drop_last(), repos);
        if listed(repos, paths.last()) || before.contains(paths.last()) {
            before
        } else {
            before.push(paths.last())
        }
    }
}

/// A repository with this path is in the list.
pub open spec fn listed(repos: Seq<RepoEntryView>, path: Seq<char>) -> bool {
    exists|i: int| 0 <= i < repos.len() && (#[trigger] repos[i]).path == path
}

/// The repositories whose paths are among `paths`.
pub open spec fn kept(repos: Seq<RepoEntryView>, paths: Seq<Seq<char>>) -> Seq<RepoEntryView>
    decreases repos.len(),
{
    if repos.len() == 0 {
        Seq::empty()
    } else {
        let before = kept(repos.drop_last(), paths);
        if paths.contains(repos.last().path) {
            before.push(repos.last())
        } else {
            before
        }
    }
}

/// The paths of the repositories whose paths are not among `paths`.
pub open spec fn gone(repos: Seq<RepoEntryView>, paths: Seq<Seq<char>>) -> Seq<Seq<char>>
    decreases repos.len(),
{
    if repos.len() == 0 {
        Seq::empty()
    } else {
        let before = gone(repos.drop_last(), paths);
        if paths.contains(repos.last().path) {
            before
        } else {
            before.push(repos.last().path)
        }
    }
}

impl RepoListView {
    /// The list in step with the discovered paths: what is no longer there goes,
    /// with what was expanded of it; what is new comes last; the rest stays as it
    /// is.
    pub open spec fn sync_paths(self, paths: Seq<Seq<char>>) -> RepoListView {
        let added = unknown(paths, self.repos);
        let removed = gone(self.repos, paths);
        RepoListView {
            repos: kept(self.repos, paths) + Seq::new(
                added.len(),
                |i: int| new_entry(added[i], self.roots),
            ),
            expanded: self.expanded.difference(removed.to_set()),
            expanded_stashes: self.expanded_stashes.difference(removed.to_set()),
            ..self
        }.refreshed()
    }
}

/// Whether a repository with this path is in the list.
fn is_listed(repos: &Vec<RepoEntry>, path: &str) -> (r: bool)
    ensures
        r == listed(repos.deep_view(), path@),
{
    let key = String::from_str(path);
    let mut i: usize = 0;
    while i < repos.len()
        invariant
            i <= repos@.len(),
            key@ == path@,
            forall|k: int| 0 <= k < i ==> (#[trigger] repos.deep_view()[k]).path != path@,
        decreases repos@.len() - i,
    {
        assert(repos.deep_view()[i as int] == repos@[i as int].deep_view());
        if repos[i].path == key {
            return true;
        }
        i = i + 1;
    }
    false
}

impl RepoList {
    /// Brings the list in step with the discovered paths.
    pub fn sync_paths(&mut self, paths: Vec<String>) -> (r: SyncDiff)
        requires
            old(self)@.wf(),
        ensures
            final(self)@ == old(self)@.sync_paths(paths.deep_view()),
            r.added.deep_view() == unknown(paths.deep_view(), old(self)@.repos),
            r.removed.deep_view() == gone(old(self)@.repos, paths.deep_view()),
            final(self)@.wf(),
    {
        let ghost s = self@;
        let ghost wanted = paths.deep_view();
        let mut added: Vec<String> = Vec::new();
        let mut i: usize = 0;
        assert(wanted.take(0) =~= Seq::<Seq<char>>::empty());
        while i < paths.len()
            invariant
                i <= paths@.len(),
                wanted == paths.deep_view(),
                s == self@,
                added.deep_view() == unknown(wanted.take(i as int), s.repos),
            decreases paths@.len() - i,
        {
            assert(wanted.take(i + 1).drop_last() =~= wanted.take(i as int));
            assert(wanted.take(i + 1).last() == paths@[i as int]@);
            let ghost before = added.deep_view();
            if !is_listed(&self.repos, paths[i].as_str()) && !list_contains(
                &added,
                paths[i].as_str(),
            ) {
                added.push(paths[i].clone());
                assert(added.deep_view() =~= before.push(paths@[i as int]@));
            }
            i = i + 1;
        }
        assert(wanted.take(wanted.len() as int) =~= wanted);
        let mut old_repos: Vec<RepoEntry> = Vec::new();
        std::mem::swap(&mut old_repos, &mut self.repos);
        let ghost given = old_repos@;
        assert(old_repos.deep_view() == s.repos);
        let mut repos: Vec<RepoEntry> = Vec::new();
        let mut removed: Vec<String> = Vec::new();
        assert(s.repos.take(0) =~= Seq::<RepoEntryView>::empty());
        for entry in it: old_repos
            invariant
                it.seq() == given,
                given.len() == s.repos.len(),
                forall|k: int| 0 <= k < given.len() ==> (#[trigger] given[k]).deep_view()
                    == s.repos[k],
                wanted == paths.deep_view(),
                repos.deep_view() == kept(s.repos.take(it.index() as int), wanted),
                removed.deep_view() == gone(s.repos.take(it.index() as int), wanted),
        {
            let ghost n = it.index() as int;
            assert(given[n] == entry);
            assert(s.repos.take(n + 1).drop_last() =~= s.repos.take(n));
            assert(s.repos.take(n + 1).last() == entry.deep_view());
            let ghost before = repos.deep_view();
            let ghost before_removed = removed.deep_view();
            if list_contains(&paths, entry.path.as_str()) {
                repos.push(entry);
                assert(repos.deep_view() =~= before.push(entry.deep_view()));
            } else {
                removed.push(entry.path);
                assert(removed.deep_view() =~= before_removed.push(entry.path@));
            }
        }
        assert(s.repos.take(s.repos.len() as int) =~= s.repos);
        let ghost stay = repos.deep_view();
        let ghost news = Seq::new(
            added@.len(),
            |i: int| new_entry(added.deep_view()[i], s.roots),
        );
        let mut k: usize = 0;
        while k < added.len()
            invariant
                k <= added@.len(),
                s.roots == self.roots.deep_view(),
                news == Seq::new(
                    added@.len(),
                    |i: int| new_entry(added.deep_view()[i], s.roots),
                ),
                repos.deep_view() =~= stay + news.take(k as int),
            decreases added@.len() - k,
        {
            let ghost before = repos.deep_view();
            let entry = make_entry(added[k].clone(), &self.roots);
            assert(added.deep_view()[k as int] == added@[k as int]@);
            repos.push(entry);
            assert(repos.deep_view() =~= before.push(entry.deep_view()));
            k = k + 1;
        }
        let mut j: usize = 0;
        let ghost all_removed = removed.deep_view();
        assert(self.expanded_repos@ =~= s.expanded.difference(all_removed.take(0).to_set()));
        assert(self.expanded_stashes@ =~= s.expanded_stashes.difference(
            all_removed.take(0).to_set(),
        ));
        while j < removed.len()
            invariant
                j <= removed@.len(),
                all_removed == removed.deep_view(),
                self.expanded_repos@ =~= s.expanded.difference(
                    all_removed.take(j as int).to_set(),
                ),
                self.expanded_stashes@ =~= s.expanded_stashes.difference(
                    all_removed.take(j as int).to_set(),
                ),
                self.state == s.state,
                self.render_area == s.render_area,
                self.focused == s.focused,
                self.connected == s.connected,
                self.roots.deep_view() == s.roots,
                self.live_panes.deep_view() == s.live_panes,
                self.theme == s.theme,
            decreases removed@.len() - j,
        {
            let ghost done = all_removed.take(j as int);
            let ghost more = all_removed.take(j + 1);
            assert(more =~= done.push(removed@[j as int]@));
            assert forall|p: Seq<char>| more.to_set().contains(p) <==> done.to_set().contains(p)
                || p == removed@[j as int]@ by {
                if done.contains(p) {
                    let q = choose|q: int| 0 <= q < done.len() && done[q] == p;
                    assert(more[q] == p);
                }
                assert(more[j as int] == removed@[j as int]@);
                if more.contains(p) {
                    let q = choose|q: int| 0 <= q < more.len() && more[q] == p;
                    if q < j {
                        assert(done[q] == p);
                    }
                }
            }
            self.expanded_repos.remove(removed[j].as_str());
            self.expanded_stashes.remove(removed[j].as_str());
            j = j + 1;
        }
        assert(all_removed.take(all_removed.len() as int) =~= all_removed);
        self.repos = repos;
        assert(self@.repos =~= stay + news);
        self.rebuild_display_rows();
        SyncDiff { added, removed }
    }
}

// ---------------------------------------------------------------------------
// Laws
// ---------------------------------------------------------------------------

proof fn lemma_kept(repos: Seq<RepoEntryView>, paths: Seq<Seq<char>>)
    ensures
        forall|i: int|
            0 <= i < kept(repos, paths).len() ==> paths.contains(
                (#[trigger] kept(repos, paths)[i]).path,
            ) && repos.contains(kept(repos, paths)[i]),
        forall|p: Seq<char>| #[trigger]
            listed(repos, p) && paths.contains(p) ==> listed(kept(repos, paths), p),
        (forall|i: int| 0 <= i < repos.len() ==> paths.contains((#[trigger] repos[i]).path))
            ==> kept(repos, paths) == repos && gone(repos, paths).len() == 0,
    decreases repos.len(),
{
    if repos.len() > 0 {
        let front = repos.drop_last();
        let before = kept(front, paths);
        let now = kept(repos, paths);
        lemma_kept(front, paths);
        assert forall|i: int| 0 <= i < now.len() implies paths.contains(
            (#[trigger] now[i]).path,
        ) && repos.contains(now[i]) by {
            if i < before.len() {
                assert(now[i] == before[i]);
                assert(front.contains(before[i]));
                let k = choose|k: int| 0 <= k < front.len() && front[k] == before[i];
                assert(repos[k] == before[i]);
            } else {
                assert(repos[repos.len() - 1] == now[i]);
            }
        }
        assert forall|p: Seq<char>| #[trigger] listed(repos, p) && paths.contains(
            p,
        ) implies listed(now, p) by {
            let i = choose|i: int| 0 <= i < repos.len() && (#[trigger] repos[i]).path == p;
            if i < front.len() {
                assert(front[i].path == p);
                assert(listed(front, p));
                let k = choose|k: int| 0 <= k < before.len() && (#[trigger] before[k]).path == p;
                assert(now[k].path == p);
            } else {
                assert(now[before.len() as int].path == p);
            }
        }
        if forall|i: int| 0 <= i < repos.len() ==> paths.contains((#[trigger] repos[i]).path) {
            assert forall|i: int| 0 <= i < front.len() implies paths.contains(
                (#[trigger] front[i]).path,
            ) by {
                assert(front[i] == repos[i]);
            }
            assert(paths.contains(repos[repos.len() - 1].path));
            assert(now =~= repos);
        }
    }
}

proof fn lemma_unknown(paths: Seq<Seq<char>>, repos: Seq<RepoEntryView>)
    ensures
        forall|p: Seq<char>| #[trigger]
            unknown(paths, repos).contains(p) <==> paths.contains(p) && !listed(repos, p),
    decreases paths.len(),
{
    if paths.len() > 0 {
        let front = paths.drop_last();
        let last = paths.last();
        lemma_unknown(front, repos);
        let before = unknown(front, repos);
        let now = unknown(paths, repos);
        assert forall|p: Seq<char>| paths.contains(p) <==> front.contains(p) || p == last by {
            if paths.contains(p) {
                let i = choose|i: int| 0 <= i < paths.len() && paths[i] == p;
                if i < front.len() {
                    assert(front[i] == p);
                }
            }
            if front.contains(p) {
                let i = choose|i: int| 0 <= i < front.len() && front[i] == p;
                assert(paths[i] == p);
            }
            assert(paths[paths.len() - 1] == last);
        }
        if now != before {
            assert forall|p: Seq<char>| now.contains(p) <==> before.contains(p) || p == last by {
                if before.contains(p) {
                    let i = choose|i: int| 0 <= i < before.len() && before[i] == p;
                    assert(now[i] == p);
                }
                assert(now[before.len() as int] == last);
            }
        }
    }
}

/// After the list was brought in step it holds exactly the discovered paths, and
/// doing it again changes nothing: no path is added, none removed, and the
/// entries stay as they are.
pub proof fn law_sync_is_idempotent(list: RepoListView, paths: Seq<Seq<char>>)
    ensures
        forall|p: Seq<char>| #[trigger]
            listed(list.sync_paths(paths).repos, p) <==> paths.contains(p),
        unknown(paths, list.sync_paths(paths).repos).len() == 0,
        gone(list.sync_paths(paths).repos, paths).len() == 0,
        list.sync_paths(paths).sync_paths(paths).repos == list.sync_paths(paths).repos,
{
    let synced = list.sync_paths(paths);
    let stay = kept(list.repos, paths);
    let added = unknown(paths, list.repos);
    let news = Seq::new(added.len(), |i: int| new_entry(added[i], list.roots));
    lemma_kept(list.repos, paths);
    lemma_unknown(paths, list.repos);
    assert(synced.repos == stay + news);
    assert forall|p: Seq<char>| #[trigger] listed(synced.repos, p) <==> paths.contains(p) by {
        if listed(synced.repos, p) {
            let i = choose|i: int|
                0 <= i < synced.repos.len() && (#[trigger] synced.repos[i]).path == p;
            if i < stay.len() {
                assert(synced.repos[i] == stay[i]);
                assert(paths.contains(stay[i].path));
            } else {
                assert(synced.repos[i] == news[i - stay.len()]);
                assert(added.contains(added[i - stay.len()]));
            }
        }
        if paths.contains(p) {
            if listed(list.repos, p) {
                assert(listed(stay, p));
                let k = choose|k: int| 0 <= k < stay.len() && (#[trigger] stay[k]).path == p;
                assert(synced.repos[k] == stay[k]);
            } else {
                assert(added.contains(p));
                let k = choose|k: int| 0 <= k < added.len() && added[k] == p;
                assert(news[k].path == p);
                assert(synced.repos[stay.len() + k] == news[k]);
            }
        }
    }
    assert forall|i: int| 0 <= i < synced.repos.len() implies paths.contains(
        (#[trigger] synced.repos[i]).path,
    ) by {
        assert(listed(synced.repos, synced.repos[i].path));
    }
    lemma_kept(synced.repos, paths);
    lemma_unknown(paths, synced.repos);
    let again = unknown(paths, synced.repos);
    if again.len() > 0 {
        assert(again.contains(again[0]));
        assert(paths.contains(again[0]) && !listed(synced.repos, again[0]));
    }
    let twice = synced.sync_paths(paths);
    assert(twice.repos =~= synced.repos);
}

/// A list that holds exactly the discovered paths is left as it is.
pub proof fn law_sync_keeps_what_is_there(list: RepoListView, paths: Seq<Seq<char>>)
    requires
        list.wf(),
        forall|p: Seq<char>| #[trigger] listed(list.repos, p) <==> paths.contains(p),
    ensures
        unknown(paths, list.repos).len() == 0,
        gone(list.repos, paths).len() == 0,
        list.sync_paths(paths) == list,
{
    assert forall|i: int| 0 <= i < list.repos.len() implies paths.contains(
        (#[trigger] list.repos[i]).path,
    ) by {
        assert(listed(list.repos, list.repos[i].path));
    }
    lemma_kept(list.repos, paths);
    lemma_unknown(paths, list.repos);
    let added = unknown(paths, list.repos);
    if added.len() > 0 {
        assert(added.contains(added[0]));
    }
    let synced = list.sync_paths(paths);
    assert(synced.repos =~= list.repos);
    assert(synced.expanded =~= list.expanded) by {
        assert(gone(list.repos, paths).to_set() =~= Set::<Seq<char>>::empty());
    }
    assert(synced.expanded_stashes =~= list.expanded_stashes) by {
        assert(gone(list.repos, paths).to_set() =~= Set::<Seq<char>>::empty());
    }
    assert(synced =~= list);
}

proof fn lemma_gone(repos: Seq<RepoEntryView>, paths: Seq<Seq<char>>)
    ensures
        forall|p: Seq<char>| #[trigger]
            gone(repos, paths).contains(p) <==> listed(repos, p) && !paths.contains(p),
    decreases repos.len(),
{
    if repos.len() > 0 {
        let front = repos.drop_last();
        let last = repos.last();
        lemma_gone(front, paths);
        let before = gone(front, paths);
        let now = gone(repos, paths);
        assert forall|p: Seq<char>| listed(repos, p) <==> listed(front, p) || p == last.path by {
            if listed(repos, p) {
                let i = choose|i: int| 0 <= i < repos.len() && (#[trigger] repos[i]).path == p;
                if i < front.len() {
                    assert(front[i].path == p);
                }
            }
            if listed(front, p) {
                let i = choose|i: int| 0 <= i < front.len() && (#[trigger] front[i]).path == p;
                assert(repos[i].path == p);
            }
            assert(repos[repos.len() - 1] == last);
        }
        assert forall|p: Seq<char>| #[trigger] now.contains(p) <==> listed(repos, p)
            && !paths.contains(p) by {
            if now.contains(p) {
                let i = choose|i: int| 0 <= i < now.len() && now[i] == p;
                if i < before.len() {
                    assert(before[i] == p);
                    assert(before.contains(p));
                }
            }
            if before.contains(p) {
                let i = choose|i: int| 0 <= i < before.len() && before[i] == p;
                assert(now[i] == p);
            }
            if p == last.path && !paths.contains(p) {
                assert(now[before.len() as int] == p);
            }
        }
    }
}

/// What is reported as new is what was discovered and not listed, and what is
/// reported as gone is what was listed and not discovered.
pub proof fn law_difference_is_exact(list: RepoListView, paths: Seq<Seq<char>>, p: Seq<char>)
    ensures
        unknown(paths, list.repos).contains(p) <==> paths.contains(p) && !listed(list.repos, p),
        gone(list.repos, paths).contains(p) <==> listed(list.repos, p) && !paths.contains(p),
{
    lemma_unknown(paths, list.repos);
    lemma_gone(list.repos, paths);
}

} // verus!
