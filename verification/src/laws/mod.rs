//! What the program does, told by what goes in and what comes out: each law speaks
//! of an action, an event, a key or a click, of the state before it, and of the
//! state and the effects after it.
use vstd::prelude::*;

use crate::repo_list::{
    before_owner, before_worktree, law_lookup_finds_the_first, worktrees, DisplayRow, RepoEntryView,
    RepoListView,
};
use crate::status::WorktreeEntryView;

pub mod actions;
pub mod branches;
pub mod builds;
pub mod diff;
pub mod discovery;
pub mod git;
pub mod graph;
pub mod list;
pub mod listing;
pub mod panels;
pub mod pictures;
pub mod places;
pub mod queries;
pub mod search;
pub mod status;
pub mod telling;
pub mod texts;

verus! {

/// Repository `i` is the one that is known by this path: the first that has it.
pub open spec fn listed_at(list: RepoListView, i: int, path: Seq<char>) -> bool {
    &&& 0 <= i < list.repos.len() <= usize::MAX
    &&& list.repos[i].path == path
    &&& forall|k: int| 0 <= k < i ==> (#[trigger] list.repos[k]).path != path
}

/// No repository has this path.
pub open spec fn unlisted(list: RepoListView, path: Seq<char>) -> bool {
    &&& list.repos.len() <= usize::MAX
    &&& forall|k: int| 0 <= k < list.repos.len() ==> (#[trigger] list.repos[k]).path != path
}

/// A worktree of a repository lies at this path.
pub open spec fn has_worktree_at(entry: RepoEntryView, path: Seq<char>) -> bool {
    entry.status is Some && exists|w: int|
        0 <= w < entry.status->0.worktree_info.len() && (
        #[trigger] entry.status->0.worktree_info[w]).path == path
}

/// Worktree `w` of repository `i` is the one that is known by this path, which no
/// repository has: the first of the first repository that has such a worktree.
pub open spec fn worktree_at(list: RepoListView, i: int, w: int, path: Seq<char>) -> bool {
    &&& unlisted(list, path)
    &&& 0 <= i < list.repos.len()
    &&& list.repos[i].status is Some
    &&& 0 <= w < list.repos[i].status->0.worktree_info.len()
    &&& list.repos[i].status->0.worktree_info[w].path == path
    &&& forall|v: int|
        0 <= v < w ==> (#[trigger] list.repos[i].status->0.worktree_info[v]).path != path
    &&& forall|k: int| 0 <= k < i ==> !has_worktree_at(#[trigger] list.repos[k], path)
}

/// Nothing lies at this path, neither a repository nor a worktree.
pub open spec fn nowhere(list: RepoListView, path: Seq<char>) -> bool {
    &&& unlisted(list, path)
    &&& forall|k: int| 0 <= k < list.repos.len() ==> !has_worktree_at(#[trigger] list.repos[k], path)
}

/// The row that is selected in the list, where there is such a row.
pub open spec fn row_selected(list: RepoListView) -> Option<DisplayRow> {
    if list.state.selected is Some && list.state.selected->0 < list.display_rows.len() {
        Some(list.display_rows[list.state.selected->0 as int])
    } else {
        None
    }
}

pub(crate) proof fn lemma_listed(list: RepoListView, i: int, path: Seq<char>)
    requires
        listed_at(list, i, path),
    ensures
        list.resolve_index(path) == Some(i as usize),
{
    law_lookup_finds_the_first(list, path);
    let j = list.resolve_index(path);
    if j is None {
        assert(list.repos[i].path != path);
    } else if j->0 < i {
        assert(list.repos[j->0 as int].path != path);
    } else if i < j->0 {
        assert(list.repos[i].path != path);
    }
}

pub(crate) proof fn lemma_unlisted(list: RepoListView, path: Seq<char>)
    requires
        unlisted(list, path),
    ensures
        list.resolve_index(path) is None,
{
    law_lookup_finds_the_first(list, path);
}

proof fn lemma_before_worktree(infos: Seq<WorktreeEntryView>, path: Seq<char>, w: int)
    requires
        0 <= w <= infos.len(),
        w < infos.len() ==> infos[w].path == path,
        forall|v: int| 0 <= v < w ==> (#[trigger] infos[v]).path != path,
    ensures
        before_worktree(infos, path) == w,
    decreases infos.len(),
{
    if infos.len() > 0 && w > 0 {
        let rest = infos.drop_first();
        assert(infos[0].path != path);
        assert forall|v: int| 0 <= v < w - 1 implies (#[trigger] rest[v]).path != path by {
            assert(rest[v] == infos[v + 1]);
        }
        lemma_before_worktree(rest, path, w - 1);
    }
}

proof fn lemma_no_worktree(entry: RepoEntryView, path: Seq<char>)
    requires
        !has_worktree_at(entry, path),
    ensures
        before_worktree(worktrees(entry), path) == worktrees(entry).len(),
{
    let infos = worktrees(entry);
    assert forall|v: int| 0 <= v < infos.len() implies (#[trigger] infos[v]).path != path by {
        assert(entry.status->0.worktree_info[v] == infos[v]);
    }
    lemma_before_worktree(infos, path, infos.len() as int);
}

proof fn lemma_before_owner(repos: Seq<RepoEntryView>, path: Seq<char>, i: int)
    requires
        0 <= i <= repos.len(),
        i < repos.len() ==> before_worktree(worktrees(repos[i]), path) < worktrees(
            repos[i],
        ).len(),
        forall|k: int| 0 <= k < i ==> !has_worktree_at(#[trigger] repos[k], path),
    ensures
        before_owner(repos, path) == i,
    decreases repos.len(),
{
    if repos.len() > 0 && i > 0 {
        let rest = repos.drop_first();
        assert(!has_worktree_at(repos[0], path));
        lemma_no_worktree(repos[0], path);
        assert forall|k: int| 0 <= k < i - 1 implies !has_worktree_at(#[trigger] rest[k], path) by {
            assert(rest[k] == repos[k + 1]);
        }
        lemma_before_owner(rest, path, i - 1);
    }
}

pub(crate) proof fn lemma_worktree(list: RepoListView, i: int, w: int, path: Seq<char>)
    requires
        worktree_at(list, i, w, path),
    ensures
        list.resolve_index(path) is None,
        list.resolve_worktree(path) == Some((i, w)),
{
    lemma_unlisted(list, path);
    let infos = worktrees(list.repos[i]);
    assert(infos == list.repos[i].status->0.worktree_info);
    lemma_before_worktree(infos, path, w);
    lemma_before_owner(list.repos, path, i);
}

pub(crate) proof fn lemma_nowhere(list: RepoListView, path: Seq<char>)
    requires
        nowhere(list, path),
    ensures
        list.resolve_index(path) is None,
        list.resolve_worktree(path) is None,
{
    lemma_unlisted(list, path);
    lemma_before_owner(list.repos, path, list.repos.len() as int);
}

} // verus!
