//! The list of repositories: its rows, its keys, the mouse and its order.
use vstd::prelude::*;
use vstd::string::*;

use crate::action::{Action, ActionView};
use crate::laws::{lemma_listed, lemma_unlisted, listed_at, row_selected, unlisted};
use crate::laws::graph::{one_down, one_up};
use crate::names::precedes;
use crate::repo_list::{
    rows_of_repo, rows_upto, stash_count, worktrees, DisplayRow, RepoEntryView, RepoListView,
};
use crate::repo_list::label::ellipsized;
use crate::repo_list::render::{columns_of, IndicatorColumns};
use crate::repo_list::sort::{entry_key, law_sorted_entries, sorted_entries};
use crate::repo_list::sync::{gone, kept, law_difference_is_exact, unknown};
use crate::screen::{Key, Mouse, MouseKind};
use crate::status::{RepoId, RepoStatus};
use crate::text::lowercase;

verus! {

/// What a row stands for exists and is to be shown: every repository, the worktrees of a
/// repository that is expanded, and the stashes of one whose stashes are.
pub open spec fn to_be_shown(list: RepoListView, row: DisplayRow) -> bool {
    match row {
        DisplayRow::Repo(i) => i < list.repos.len(),
        DisplayRow::Worktree(i, w) => {
            &&& i < list.repos.len()
            &&& list.expanded.contains(list.repos[i as int].path)
            &&& list.repos[i as int].status is Some
            &&& w < list.repos[i as int].status->0.worktree_info.len()
        },
        DisplayRow::Stash(i, s) => {
            &&& i < list.repos.len()
            &&& list.expanded_stashes.contains(list.repos[i as int].path)
            &&& list.repos[i as int].status is Some
            &&& s < list.repos[i as int].status->0.stashes.len()
        },
    }
}

/// The repository of a row, which kind of row it is, and its number among these.
pub open spec fn rank(row: DisplayRow) -> (int, int, int) {
    match row {
        DisplayRow::Repo(i) => (i as int, 0, 0),
        DisplayRow::Worktree(i, w) => (i as int, 1, w as int),
        DisplayRow::Stash(i, s) => (i as int, 2, s as int),
    }
}

/// A row stands above another: by its repository, then the repository itself above its
/// worktrees and these above its stashes, then by number.
pub open spec fn above(a: DisplayRow, b: DisplayRow) -> bool {
    let (p, q) = (rank(a), rank(b));
    p.0 < q.0 || p.0 == q.0 && (p.1 < q.1 || p.1 == q.1 && p.2 < q.2)
}

/// The repositories, worktrees and stashes can be counted.
pub open spec fn countable(list: RepoListView) -> bool {
    &&& list.repos.len() <= usize::MAX
    &&& forall|i: int|
        0 <= i < list.repos.len() && (#[trigger] list.repos[i]).status is Some
            ==> list.repos[i].status->0.worktree_info.len() <= usize::MAX
            && list.repos[i].status->0.stashes.len() <= usize::MAX
}

proof fn lemma_own_rows(list: RepoListView, i: int)
    requires
        countable(list),
        0 <= i < list.repos.len(),
    ensures
        ({
            let entry = list.repos[i];
            let own = rows_of_repo(
                entry,
                i,
                list.expanded.contains(entry.path),
                list.expanded_stashes.contains(entry.path),
            );
            &&& forall|row: DisplayRow| #[trigger]
                own.contains(row) <==> to_be_shown(list, row) && rank(row).0 == i
            &&& forall|a: int, b: int|
                0 <= a < b < own.len() ==> above(#[trigger] own[a], #[trigger] own[b])
        }),
{
    let entry = list.repos[i];
    let with_w = list.expanded.contains(entry.path);
    let with_s = list.expanded_stashes.contains(entry.path);
    let own = rows_of_repo(entry, i, with_w, with_s);
    let nw: int = if with_w {
        worktrees(entry).len() as int
    } else {
        0
    };
    let ns: int = if with_s {
        stash_count(entry) as int
    } else {
        0
    };
    assert(own.len() == 1 + nw + ns);
    assert forall|k: int| 0 <= k < own.len() implies #[trigger] own[k] == if k == 0 {
        DisplayRow::Repo(i as usize)
    } else if k <= nw {
        DisplayRow::Worktree(i as usize, (k - 1) as usize)
    } else {
        DisplayRow::Stash(i as usize, (k - 1 - nw) as usize)
    } by {}
    assert forall|row: DisplayRow| #[trigger] own.contains(row) <==> to_be_shown(list, row) && rank(
        row,
    ).0 == i by {
        if own.contains(row) {
            let k = choose|k: int| 0 <= k < own.len() && own[k] == row;
            assert(own[k] == row);
        }
        if to_be_shown(list, row) && rank(row).0 == i {
            match row {
                DisplayRow::Repo(_) => {
                    assert(own[0] == row);
                },
                DisplayRow::Worktree(_, w) => {
                    assert(own[1 + w] == row);
                },
                DisplayRow::Stash(_, s) => {
                    assert(own[1 + nw + s] == row);
                },
            }
        }
    }
}

proof fn lemma_rows(list: RepoListView, n: nat)
    requires
        countable(list),
        n <= list.repos.len(),
    ensures
        ({
            let rows = rows_upto(list.repos, list.expanded, list.expanded_stashes, n);
            &&& forall|row: DisplayRow| #[trigger]
                rows.contains(row) <==> to_be_shown(list, row) && rank(row).0 < n
            &&& forall|a: int, b: int|
                0 <= a < b < rows.len() ==> above(#[trigger] rows[a], #[trigger] rows[b])
        }),
    decreases n,
{
    let rows = rows_upto(list.repos, list.expanded, list.expanded_stashes, n);
    if n > 0 {
        lemma_rows(list, (n - 1) as nat);
        lemma_own_rows(list, n - 1);
        let entry = list.repos[n - 1];
        let before = rows_upto(list.repos, list.expanded, list.expanded_stashes, (n - 1) as nat);
        let own = rows_of_repo(
            entry,
            n - 1,
            list.expanded.contains(entry.path),
            list.expanded_stashes.contains(entry.path),
        );
        assert(rows == before + own);
        assert forall|row: DisplayRow| #[trigger] rows.contains(row) <==> to_be_shown(list, row)
            && rank(row).0 < n by {
            if rows.contains(row) {
                let k = choose|k: int| 0 <= k < rows.len() && rows[k] == row;
                if k < before.len() {
                    assert(before[k] == row);
                    assert(before.contains(row));
                } else {
                    assert(own[k - before.len()] == row);
                    assert(own.contains(row));
                }
            }
            if before.contains(row) {
                let k = choose|k: int| 0 <= k < before.len() && before[k] == row;
                assert(rows[k] == row);
            }
            if own.contains(row) {
                let k = choose|k: int| 0 <= k < own.len() && own[k] == row;
                assert(rows[before.len() + k] == row);
            }
            assert(to_be_shown(list, row) ==> rank(row).0 >= 0);
        }
        assert forall|a: int, b: int| 0 <= a < b < rows.len() implies above(
            #[trigger] rows[a],
            #[trigger] rows[b],
        ) by {
            if b < before.len() {
                assert(rows[a] == before[a] && rows[b] == before[b]);
            } else if a >= before.len() {
                assert(rows[a] == own[a - before.len()] && rows[b] == own[b - before.len()]);
            } else {
                assert(before.contains(before[a]));
                assert(own.contains(own[b - before.len()]));
                assert(rows[a] == before[a] && rows[b] == own[b - before.len()]);
            }
        }
    } else {
        assert(rows =~= Seq::<DisplayRow>::empty());
    }
}

/// The list shows exactly the rows that are to be shown, each once, and from the top
/// down: each repository in the order of the list, below it its worktrees, and below
/// these its stashes.
pub proof fn law_rows_are_shown_in_order(list: RepoListView, row: DisplayRow, a: int, b: int)
    requires
        list.wf(),
        countable(list),
    ensures
        list.display_rows.contains(row) <==> to_be_shown(list, row),
        0 <= a < b < list.display_rows.len() ==> above(list.display_rows[a], list.display_rows[b]),
{
    list.lemma_wf();
    lemma_rows(list, list.repos.len());
}

/// What choosing a row leads to: a repository and a worktree are opened, and a stash
/// shows the details of its repository.
pub open spec fn choice(list: RepoListView) -> Option<ActionView> {
    match row_selected(list) {
        Some(DisplayRow::Repo(i)) => Some(ActionView::SelectRepo(list.repos[i as int].path)),
        Some(DisplayRow::Stash(i, _)) => Some(
            ActionView::FocusRepoDetails(list.repos[i as int].path),
        ),
        Some(DisplayRow::Worktree(i, w)) => Some(
            ActionView::SelectWorktree {
                repo_id: list.repos[i as int].path,
                worktree_path: list.repos[i as int].status->0.worktree_info[w as int].path,
                worktree_branch: list.repos[i as int].status->0.worktree_info[w as int].branch,
            },
        ),
        None => None,
    }
}

/// The state of a repository of which a worktree is selected is known.
pub open spec fn is_known(list: RepoListView) -> bool {
    row_selected(list) matches Some(DisplayRow::Worktree(i, _)) ==> list.repos[i as int].status
        is Some
}

/// The keys and the wheel move the selection by one row, and what is then selected is
/// opened.
pub proof fn law_selection_moves_by_a_row(list: RepoListView, column: u16, row: u16)
    requires
        list.display_rows.len() <= usize::MAX,
    ensures
        ({
            let n = list.display_rows.len();
            let down = list.key_event(Key::Down);
            let up = list.key_event(Key::Up);
            &&& down.0.state.selected == one_down(list.state.selected, n)
            &&& down.0 == RepoListView { state: down.0.state, ..list }
            &&& is_known(down.0) ==> down.1 == choice(down.0)
            &&& up.0.state.selected == one_up(list.state.selected, n)
            &&& up.0 == RepoListView { state: up.0.state, ..list }
            &&& is_known(up.0) ==> up.1 == choice(up.0)
            &&& list.key_event(Key::Char('j')) == down
            &&& list.key_event(Key::Char('k')) == up
            &&& list.mouse_event(Mouse { kind: MouseKind::ScrollDown, column, row }) == down
            &&& list.mouse_event(Mouse { kind: MouseKind::ScrollUp, column, row }) == up
        }),
{
}

/// The repository that a row belongs to.
pub open spec fn owner(row: DisplayRow) -> int {
    rank(row).0
}

/// `w` shows the worktrees of the repository whose row is selected, or hides them again,
/// if it has any; `S` does so with its stashes. What is expanded elsewhere stays.
pub proof fn law_subtrees_are_shown_and_hidden(list: RepoListView, row: DisplayRow)
    requires
        row_selected(list) == Some(row),
    ensures
        ({
            let entry = list.repos[owner(row)];
            let w = list.key_event(Key::Char('w')).0;
            let s = list.key_event(Key::Char('S')).0;
            let has_worktrees = entry.status is Some && entry.status->0.worktree_info.len() > 0;
            let has_stashes = entry.status is Some && entry.status->0.stashes.len() > 0;
            &&& has_worktrees && list.expanded.contains(entry.path) ==> w.expanded
                == list.expanded.remove(entry.path)
            &&& has_worktrees && !list.expanded.contains(entry.path) ==> w.expanded
                == list.expanded.insert(entry.path)
            &&& !has_worktrees ==> w == list
            &&& w.expanded_stashes == list.expanded_stashes && w.repos == list.repos
            &&& has_stashes && list.expanded_stashes.contains(entry.path) ==> s.expanded_stashes
                == list.expanded_stashes.remove(entry.path)
            &&& has_stashes && !list.expanded_stashes.contains(entry.path) ==> s.expanded_stashes
                == list.expanded_stashes.insert(entry.path)
            &&& !has_stashes ==> s == list
            &&& s.expanded == list.expanded && s.repos == list.repos
        }),
{
}

/// A repository whose worktrees or stashes are shown or hidden is selected by its own row.
pub proof fn law_toggled_repository_is_selected(list: RepoListView, row: DisplayRow)
    requires
        row_selected(list) == Some(row),
        0 <= owner(row) < list.repos.len(),
        list.key_event(Key::Char('w')).0.display_rows.len() <= usize::MAX,
        list.key_event(Key::Char('S')).0.display_rows.len() <= usize::MAX,
    ensures
        ({
            let entry = list.repos[owner(row)];
            let w = list.key_event(Key::Char('w')).0;
            let s = list.key_event(Key::Char('S')).0;
            &&& entry.status is Some && entry.status->0.worktree_info.len() > 0 ==> row_selected(w)
                == Some(DisplayRow::Repo(owner(row) as usize))
            &&& entry.status is Some && entry.status->0.stashes.len() > 0 ==> row_selected(s)
                == Some(DisplayRow::Repo(owner(row) as usize))
        }),
{
    let i = owner(row) as usize;
    let path = list.repos[i as int].path;
    let entry = list.repos[i as int];
    if entry.status is Some && entry.status->0.worktree_info.len() > 0 {
        let shown = RepoListView {
            expanded: crate::repo_list::input::toggled(list.expanded, path),
            ..list
        }.refreshed();
        assert(list.key_event(Key::Char('w')).0 == shown.select_repo_row(i as int));
        crate::repo_list::lemma_own_row(shown, i);
    }
    if entry.status is Some && entry.status->0.stashes.len() > 0 {
        let shown = RepoListView {
            expanded_stashes: crate::repo_list::input::toggled(list.expanded_stashes, path),
            ..list
        }.refreshed();
        assert(list.key_event(Key::Char('S')).0 == shown.select_repo_row(i as int));
        crate::repo_list::lemma_own_row(shown, i);
    }
}

/// The columns of the list in which the indicators of repository `i` stand.
pub open spec fn indicators_of(list: RepoListView, i: int) -> IndicatorColumns {
    let name = ellipsized(list.repos[i].display, (list.render_area.width - 4) as nat);
    columns_of(list.repos[i], (list.render_area.x + 1) as u16, name.len() as u16)
}

/// A left click on the row of a repository that is selected shows or hides its stashes
/// where their count stands, and its worktrees where theirs stands. Elsewhere it does so
/// with the worktrees, or, where there are none, with the stashes. On another row that is
/// selected nothing changes. What is selected is opened again.
pub proof fn law_clicks_on_the_selected_row(list: RepoListView, column: u16, row: u16)
    requires
        hits_row(list, column, row),
        list.state.selected == Some(row_at(list, row) as usize),
        list.render_area.width >= 4,
    ensures
        ({
            let (after, action) = list.mouse_event(
                Mouse { kind: MouseKind::LeftDown, column, row },
            );
            &&& is_known(after) ==> action == choice(after)
            &&& match list.display_rows[row_at(list, row)] {
                DisplayRow::Repo(i) if list.repos[i as int].status is Some => {
                    let status = list.repos[i as int].status->0;
                    let cols = indicators_of(list, i as int);
                    let stashes = list.key_event(Key::Char('S')).0;
                    let worktrees = list.key_event(Key::Char('w')).0;
                    if cols.stash is Some && (cols.stash->0).0 <= column < (cols.stash->0).1 {
                        after == stashes
                    } else if cols.worktree is Some && (cols.worktree->0).0 <= column < (
                    cols.worktree->0).1 {
                        after == worktrees
                    } else if status.worktree_info.len() > 0 {
                        after == worktrees
                    } else if status.stashes.len() > 0 {
                        after == stashes
                    } else {
                        after == list
                    }
                },
                _ => after == list,
            }
        }),
{
    let at = row_at(list, row);
    assert(list.row_hit(column, row) == Some(at));
    assert(list.state.selecting(Some(at as usize)) == list.state);
    match list.display_rows[at] {
        DisplayRow::Repo(i) => {
            assert(indicators_of(list, i as int) == list.indicators(i as int));
        },
        _ => {},
    }
}

/// Other keys and other movements of the mouse do nothing to the list.
pub proof fn law_other_input_does_nothing(list: RepoListView, key: Key, mouse: Mouse)
    ensures
        key != Key::Down && key != Key::Up && key != Key::Char('j') && key != Key::Char('k')
            && key != Key::Char('w') && key != Key::Char('S') ==> list.key_event(key) == (
            list,
            None::<ActionView>,
        ),
        mouse.kind != MouseKind::LeftDown && mouse.kind != MouseKind::RightDown && mouse.kind
            != MouseKind::ScrollDown && mouse.kind != MouseKind::ScrollUp ==> list.mouse_event(
            mouse,
        ) == (list, None::<ActionView>),
{
}

/// A new state that the list is told goes to the repository that it is of, and ends what
/// runs in it; nothing else changes, and nothing follows.
pub proof fn law_list_takes_a_new_state(list: RepoListView, id: RepoId, status: RepoStatus, k: int)
    requires
        0 <= k < list.repos.len() <= usize::MAX,
    ensures
        ({
            let (after, action) = list.updated(Action::RepoStatusUpdated { id, status });
            &&& action is None
            &&& after.repos.len() == list.repos.len()
            &&& listed_at(list, k, id@) ==> after.repos[k] == (RepoEntryView {
                status: Some(status@),
                git_op: false,
                ..list.repos[k]
            })
            &&& list.repos[k].path != id@ ==> after.repos[k] == list.repos[k]
            &&& unlisted(list, id@) ==> after == list
        }),
{
    if listed_at(list, k, id@) {
        lemma_listed(list, k, id@);
    }
    if unlisted(list, id@) {
        lemma_unlisted(list, id@);
    }
    crate::repo_list::law_lookup_finds_the_first(list, id@);
}

/// The row of the list at row `row` of the screen.
pub open spec fn row_at(list: RepoListView, row: u16) -> int {
    row - list.render_area.y - 1 + list.state.offset
}

/// A click at this cell hits a row of the list.
pub open spec fn hits_row(list: RepoListView, column: u16, row: u16) -> bool {
    &&& list.render_area.x <= column < list.render_area.x + list.render_area.width
    &&& row > list.render_area.y
    &&& row_at(list, row) < list.display_rows.len() <= usize::MAX
}

/// A left click on a row that is not selected selects it and opens it; a click elsewhere
/// does nothing.
pub proof fn law_clicks_select_rows(list: RepoListView, column: u16, row: u16)
    ensures
        ({
            let (after, action) = list.mouse_event(
                Mouse { kind: MouseKind::LeftDown, column, row },
            );
            let at = row_at(list, row);
            &&& hits_row(list, column, row) && list.state.selected != Some(at as usize) ==> {
                &&& after.state.selected == Some(at as usize)
                &&& after == RepoListView { state: after.state, ..list }
                &&& is_known(after) ==> action == choice(after)
            }
            &&& list.display_rows.len() <= usize::MAX && !hits_row(list, column, row) ==> after
                == list && action is None
        }),
{
}

/// A right click on a row selects it, and asks for the menu of the repository, or of the
/// worktree at the worktree's own path, where the click was; a stash has none.
pub proof fn law_right_clicks_ask_for_menus(list: RepoListView, column: u16, row: u16)
    requires
        hits_row(list, column, row),
    ensures
        ({
            let (after, action) = list.mouse_event(
                Mouse { kind: MouseKind::RightDown, column, row },
            );
            let at = row_at(list, row);
            &&& after.state.selected == Some(at as usize)
            &&& after == RepoListView { state: after.state, ..list }
            &&& match list.display_rows[at] {
                DisplayRow::Repo(i) => action == Some(
                    ActionView::ShowContextMenu {
                        id: list.repos[i as int].path,
                        row,
                        col: column,
                        is_worktree: false,
                    },
                ),
                DisplayRow::Worktree(i, w) => list.repos[i as int].status is Some ==> action
                    == Some(
                    ActionView::ShowContextMenu {
                        id: list.repos[i as int].status->0.worktree_info[w as int].path,
                        row,
                        col: column,
                        is_worktree: true,
                    },
                ),
                DisplayRow::Stash(_, _) => action is None,
            }
        }),
{
}

/// A repository has changes.
pub open spec fn has_changes(entry: RepoEntryView) -> bool {
    entry.status is Some && entry.status->0.is_dirty
}

/// Sorted, the repositories are in the order of their names, upper and lower case being
/// the same; with changed ones first, no repository without changes stands above one
/// with changes. All of them stay.
pub proof fn law_list_is_sorted(list: RepoListView, dirty_first: bool, a: int, b: int)
    requires
        0 <= a < b < list.repos.len(),
    ensures
        ({
            let sorted = list.sorted(dirty_first).repos;
            let (x, y) = (sorted[a], sorted[b]);
            &&& sorted.len() == list.repos.len()
            &&& !dirty_first ==> !precedes(lowercase(y.name), lowercase(x.name))
            &&& dirty_first && has_changes(y) ==> has_changes(x)
            &&& dirty_first && has_changes(x) == has_changes(y) ==> !precedes(
                lowercase(y.name),
                lowercase(x.name),
            )
            &&& list.repos.contains(x)
        }),
        forall|e: RepoEntryView|
            list.repos.contains(e) ==> #[trigger] list.sorted(dirty_first).repos.contains(e),
{
    law_sorted_entries(list.repos, dirty_first);
    let sorted = sorted_entries(list.repos, dirty_first);
    assert(list.sorted(dirty_first).repos == sorted);
    assert(!crate::order::key_before(
        entry_key(sorted[b], dirty_first),
        entry_key(sorted[a], dirty_first),
    ));
    assert(sorted.contains(sorted[a]));
}

/// Sorting a list selects the repository that is then the first.
pub proof fn law_sorting_selects_the_first(list: RepoListView, dirty_first: bool)
    requires
        list.repos.len() > 0,
        list.sorted(dirty_first).shown_rows().len() <= usize::MAX,
    ensures
        row_selected(list.sorted(dirty_first)) == Some(DisplayRow::Repo(0)),
{
    law_sorted_entries(list.repos, dirty_first);
    let sorted = RepoListView {
        repos: sorted_entries(list.repos, dirty_first),
        ..list
    }.refreshed();
    crate::repo_list::lemma_own_row(sorted, 0);
}

/// Bringing the list in step with what was found keeps the entries that are still there,
/// with all that is known of them and in their order, ahead of the new ones, and forgets
/// what was expanded of those that are gone.
pub proof fn law_syncing_keeps_entries(list: RepoListView, paths: Seq<Seq<char>>, p: Seq<char>)
    ensures
        ({
            let after = list.sync_paths(paths);
            &&& after.repos.take(kept(list.repos, paths).len() as int) == kept(list.repos, paths)
            &&& after.expanded.contains(p) <==> list.expanded.contains(p) && !gone(
                list.repos,
                paths,
            ).contains(p)
            &&& after.expanded_stashes.contains(p) <==> list.expanded_stashes.contains(p) && !gone(
                list.repos,
                paths,
            ).contains(p)
            &&& unknown(paths, list.repos).contains(p) <==> paths.contains(p) && (forall|k: int|
                0 <= k < list.repos.len() ==> (#[trigger] list.repos[k]).path != p)
            &&& gone(list.repos, paths).contains(p) <==> !paths.contains(p) && (exists|k: int|
                0 <= k < list.repos.len() && (#[trigger] list.repos[k]).path == p)
            &&& after.state == list.state
        }),
{
    law_difference_is_exact(list, paths, p);
    let after = list.sync_paths(paths);
    assert(after.repos.take(kept(list.repos, paths).len() as int) =~= kept(list.repos, paths));
}

/// An entry stays in the list when the list is brought in step exactly if its path was
/// found, and the entries that stay keep their order.
pub proof fn law_kept_entries_keep_their_order(
    repos: Seq<RepoEntryView>,
    entry: RepoEntryView,
    paths: Seq<Seq<char>>,
)
    ensures
        paths.contains(entry.path) ==> kept(repos.push(entry), paths) == kept(repos, paths).push(
            entry,
        ),
        !paths.contains(entry.path) ==> kept(repos.push(entry), paths) == kept(repos, paths),
        kept(Seq::empty(), paths) == Seq::<RepoEntryView>::empty(),
{
    assert(repos.push(entry).drop_last() =~= repos);
}

/// A repository that is new in the list is known by its path and by the name of its
/// directory, and nothing else is known of it.
pub proof fn law_new_entries(dir: Seq<char>, name: Seq<char>, roots: Seq<Seq<char>>)
    requires
        crate::laws::places::plain(name),
    ensures
        ({
            let path = dir + seq!['/'] + name;
            let entry = crate::repo_list::new_entry(path, roots);
            &&& entry.path == path
            &&& entry.name == name
            &&& entry.status is None
            &&& !entry.git_op
        }),
{
    crate::laws::places::law_paths_lead_through_their_names(dir, name);
}

/// Drawn, the list fills its area under its title, its border shows whether it has the
/// keys, and every row in sight is there, a worktree by its branch and a stash by its
/// message.
pub proof fn law_picture_of_the_list(list: RepoListView, k: int)
    requires
        0 <= k < list.display_rows.len(),
    ensures
        ({
            let picture = list.picture();
            &&& picture.area == list.render_area
            &&& picture.title == " Repositories "@
            &&& picture.selection_bg == list.theme.repo_list.selection_bg
            &&& list.focused ==> picture.border == list.theme.repo_list.border_focused
            &&& !list.focused ==> picture.border == list.theme.repo_list.border_unfocused
            &&& picture.rows.len() == list.display_rows.len()
            &&& picture.rows[k].row == list.display_rows[k]
            &&& list.display_rows[k] matches DisplayRow::Worktree(i, w)
                ==> list.repos[i as int].status is Some ==> picture.rows[k].text
                == list.repos[i as int].status->0.worktree_info[w as int].branch
            &&& list.display_rows[k] matches DisplayRow::Stash(i, s)
                ==> list.repos[i as int].status is Some ==> picture.rows[k].text
                == list.repos[i as int].status->0.stashes[s as int].message
        }),
{
}

} // verus!
