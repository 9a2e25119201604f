//! Which repository, worktree or submodule the panels show.
use vstd::prelude::*;
use vstd::string::*;

use crate::action::ActionView;
use crate::app::{ActiveWorktreeView, AppView, FocusPanel, SortOrder};
use crate::app::effect::EffectView;
use crate::laws::{lemma_listed, lemma_unlisted, listed_at, row_selected, unlisted};
use crate::laws::diff::{lemma_before_submodule, no_submodule_at, submodule_is_at};
use crate::repo_list::{DisplayRow, RepoEntryView, RepoListView};
use crate::status::{graph_outdated, FileEntryView, RepoStatusView, SubmoduleState};

verus! {

/// The changed files of a repository, as far as its state is known.
pub open spec fn known_files(entry: RepoEntryView) -> Seq<FileEntryView> {
    if entry.status is Some {
        entry.status->0.files
    } else {
        Seq::empty()
    }
}

/// Behind some effects, the files of repository `i` are shown, and then a build of its
/// graph is asked for where the graph has one to ask for.
pub open spec fn shown_behind(
    before: Seq<EffectView>,
    app: AppView,
    i: int,
) -> Seq<EffectView> {
    let entry = app.repos.repos[i];
    let shown = before.push(
        EffectView::SetFiles { files: known_files(entry), name: entry.name, id: entry.path },
    );
    match app.graph.load_repo(entry.path, entry.name).1 {
        Some(load) => shown.push(EffectView::Load(load)),
        None => shown,
    }
}

/// Selecting a repository shows its files and its graph, in that order, after the menu
/// is put away; no worktree or submodule is shown any more.
pub proof fn law_selected_repository_is_shown(app: AppView, id: Seq<char>, i: int)
    requires
        listed_at(app.repos, i, id),
    ensures
        ({
            let after = app.select_repo(id);
            &&& after.outbox == shown_behind(
                app.outbox.push(EffectView::HideContextMenu),
                app,
                i,
            ).push(EffectView::GithubTouchSelection)
            &&& after.graph == app.graph.load_repo(id, app.repos.repos[i].name).0
            &&& after.graph.repo_path == Some(id)
            &&& after.active_worktree is None
            &&& after.repos == RepoListView { state: after.repos.state, ..app.repos }
            &&& after.tracking == app.tracking
        }),
        ({
            let after = app.focus_repo_details(id);
            &&& after.outbox == shown_behind(
                app.outbox.push(EffectView::HideContextMenu),
                app,
                i,
            ).push(EffectView::GithubTouchSelection)
            &&& after.graph == app.graph.load_repo(id, app.repos.repos[i].name).0
            &&& after.graph.repo_path == Some(id)
            &&& after.active_worktree is None
            &&& after.repos == app.repos
        }),
{
    lemma_listed(app.repos, i, id);
    reveal(AppView::emit);
    reveal(AppView::leave_worktree);
    reveal(AppView::show_files);
    reveal(AppView::load_graph);
    reveal(AppView::open_details);
    reveal(AppView::select_row_of);
    reveal(AppView::select_repo);
    reveal(AppView::focus_repo_details);
}

/// Selecting a repository moves the selection of the list to its own row. The rows are
/// those to be shown, and can be counted.
pub proof fn law_selected_repository_is_marked(app: AppView, id: Seq<char>, i: int)
    requires
        listed_at(app.repos, i, id),
        app.repos.wf(),
        app.repos.display_rows.len() <= usize::MAX,
    ensures
        row_selected(app.select_repo(id).repos) == Some(
            DisplayRow::Repo(i as usize),
        ),
{
    lemma_listed(app.repos, i, id);
    reveal(AppView::emit);
    reveal(AppView::leave_worktree);
    reveal(AppView::show_files);
    reveal(AppView::load_graph);
    reveal(AppView::open_details);
    reveal(AppView::select_row_of);
    reveal(AppView::select_repo);
    app.repos.lemma_wf();
    crate::repo_list::lemma_own_row(app.repos, i as usize);
}

/// A path that is not in the list shows nothing: only the menu is put away.
pub proof fn law_unlisted_repository_is_not_shown(app: AppView, id: Seq<char>)
    requires
        unlisted(app.repos, id),
    ensures
        app.select_repo(id) == (AppView {
            active_worktree: None,
            outbox: app.outbox.push(EffectView::HideContextMenu).push(
                EffectView::GithubTouchSelection,
            ),
            ..app
        }),
        app.focus_repo_details(id) == (AppView {
            active_worktree: None,
            outbox: app.outbox.push(EffectView::HideContextMenu).push(
                EffectView::GithubTouchSelection,
            ),
            ..app
        }),
{
    lemma_unlisted(app.repos, id);
    reveal(AppView::emit);
    reveal(AppView::leave_worktree);
    reveal(AppView::open_details);
    reveal(AppView::select_row_of);
    reveal(AppView::select_repo);
    reveal(AppView::focus_repo_details);
}

/// A worktree that is selected is shown at its own path, under the name of its
/// repository and its branch.
pub proof fn law_selected_worktree_is_shown(
    app: AppView,
    repo_id: Seq<char>,
    worktree_path: Seq<char>,
    worktree_branch: Seq<char>,
    i: int,
)
    requires
        listed_at(app.repos, i, repo_id),
    ensures
        ({
            let name = app.repos.repos[i].name + ":"@ + worktree_branch;
            app.select_worktree(repo_id, worktree_path, worktree_branch) == AppView {
                active_worktree: Some(
                    ActiveWorktreeView {
                        path: worktree_path,
                        repo_id: repo_id,
                        display_name: name,
                    },
                ),
                outbox: app.outbox.push(
                    EffectView::OpenPathContext {
                        path: worktree_path,
                        repo_id: repo_id,
                        display_name: name,
                    },
                ).push(EffectView::GithubTouchSelection),
                ..app
            }
        }),
{
    lemma_listed(app.repos, i, repo_id);
    reveal(AppView::emit);
    reveal(AppView::activate_path);
    reveal(AppView::select_worktree);
}

/// A submodule that is selected is shown at its path below the repository, under the
/// name of the repository and its own path; one that is not initialized is refused
/// with an error.
pub proof fn law_selected_submodule_is_shown(
    app: AppView,
    repo_id: Seq<char>,
    sub_path: Seq<char>,
    i: int,
    s: int,
)
    requires
        listed_at(app.repos, i, repo_id),
        repo_id.len() > 0,
        repo_id.last() != '/',
        sub_path.len() > 0,
        sub_path[0] != '/',
        submodule_is_at(app.repos.repos[i], s, sub_path) || no_submodule_at(
            app.repos.repos[i],
            sub_path,
        ),
    ensures
        ({
            let after = app.select_submodule(repo_id, sub_path);
            let path = repo_id + "/"@ + sub_path;
            let name = app.repos.repos[i].name + "/"@ + sub_path;
            let refused = submodule_is_at(app.repos.repos[i], s, sub_path)
                && app.repos.repos[i].status->0.submodules[s].state == Some(
                SubmoduleState::Uninitialized,
            );
            if refused {
                after == AppView {
                    outbox: app.outbox.push(
                        EffectView::Send(
                            ActionView::Error(
                                "Submodule "@ + sub_path + " is not initialized"@,
                            ),
                        ),
                    ),
                    ..app
                }
            } else {
                after == AppView {
                    active_worktree: Some(
                        ActiveWorktreeView { path, repo_id: repo_id, display_name: name },
                    ),
                    outbox: app.outbox.push(
                        EffectView::OpenPathContext {
                            path,
                            repo_id: repo_id,
                            display_name: name,
                        },
                    ).push(EffectView::GithubTouchSelection),
                    ..app
                }
            }
        }),
{
    lemma_listed(app.repos, i, repo_id);
    if app.repos.repos[i].status is Some {
        let subs = app.repos.repos[i].status->0.submodules;
        if submodule_is_at(app.repos.repos[i], s, sub_path) {
            lemma_before_submodule(subs, sub_path, s);
        } else {
            lemma_before_submodule(subs, sub_path, subs.len() as int);
        }
    }
    reveal(AppView::emit);
    reveal(AppView::activate_path);
    reveal(AppView::select_submodule);
}

/// Changed files of a worktree are shown while that worktree is shown, and dropped
/// otherwise.
pub proof fn law_files_of_the_shown_worktree(
    app: AppView,
    repo_id: Seq<char>,
    worktree_path: Seq<char>,
    name: Seq<char>,
    changes: Seq<FileEntryView>,
)
    ensures
        app.worktree_files_loaded(repo_id, worktree_path, name, changes) == (AppView {
            outbox: if app.active_worktree is Some && app.active_worktree->0.path
                == worktree_path {
                app.outbox.push(
                    EffectView::SetFiles {
                        files: changes,
                        name: name,
                        id: repo_id,
                    },
                )
            } else {
                app.outbox
            },
            ..app
        }),
{
    reveal(AppView::emit);
    reveal(AppView::worktree_files_loaded);
}

/// A new state of the repository whose row is selected, while no worktree or submodule
/// is shown, shows its files anew, and its graph where that is out of date; a new state
/// of any other repository shows nothing. Nothing changed meanwhile.
pub proof fn law_new_state_is_shown(
    app: AppView,
    id: Seq<char>,
    status: RepoStatusView,
    now: u128,
    i: int,
)
    requires
        listed_at(app.repos, i, id),
        !app.tracking.dirty.contains(id),
    ensures
        ({
            let after = app.repo_status_updated(id, status, now);
            let chosen = match row_selected(after.repos) {
                Some(DisplayRow::Repo(k)) => k == i,
                Some(DisplayRow::Worktree(k, _)) => k == i,
                Some(DisplayRow::Stash(k, _)) => k == i,
                None => false,
            };
            let shown = app.outbox.push(
                EffectView::SetFiles {
                    files: status.files,
                    name: app.repos.repos[i].name,
                    id: id,
                },
            );
            let (graph, load) = app.graph.outdated(id, app.repos.repos[i].name);
            let outdated = graph_outdated(
                app.repos.repos[i].status,
                status,
                app.graph.options.branch_filter,
            );
            if !chosen || app.active_worktree is Some {
                after.outbox == app.outbox && after.graph == app.graph
            } else if outdated {
                &&& after.graph == graph
                &&& after.outbox == if load is Some {
                    shown.push(EffectView::Load(load->0))
                } else {
                    shown
                }
            } else {
                after.outbox == shown && after.graph == app.graph
            }
        }),
{
    lemma_listed(app.repos, i, id);
    reveal(AppView::emit);
    reveal(AppView::with_status);
    reveal(AppView::show_files);
    reveal(AppView::outdate_graph);
    reveal(AppView::show_status);
    reveal(AppView::take_status);
    reveal(AppView::repo_status_updated);
}

/// Showing the graph puts the keys on it. The graph is that of the worktree or submodule
/// that is shown; without one a selected worktree is selected anew, and of a selected
/// repository, or a stash of it, the graph is loaded.
pub proof fn law_graph_of_the_selection_is_shown(app: AppView)
    ensures
        ({
            let after = app.show_git_graph();
            let hidden = app.outbox.push(EffectView::HideContextMenu);
            &&& after.focus == FocusPanel::Graph
            &&& app.active_worktree is Some ==> after.graph == app.graph && after.outbox
                == hidden.push(
                EffectView::RefreshPathContext {
                    path: app.active_worktree->0.path,
                    repo_id: app.active_worktree->0.repo_id,
                    display_name: app.active_worktree->0.display_name,
                },
            )
            &&& app.active_worktree is None ==> match row_selected(app.repos) {
                Some(DisplayRow::Worktree(i, w)) => app.repos.repos[i as int].status is Some ==> {
                    let worktree = app.repos.repos[i as int].status->0.worktree_info[w as int];
                    after.graph == app.graph && after.outbox == hidden.push(
                        EffectView::Send(
                            ActionView::SelectWorktree {
                                repo_id: app.repos.repos[i as int].path,
                                worktree_path: worktree.path,
                                worktree_branch: worktree.branch,
                            },
                        ),
                    )
                },
                Some(DisplayRow::Repo(i)) => after.graph == app.graph.load_repo(
                    app.repos.repos[i as int].path,
                    app.repos.repos[i as int].name,
                ).0,
                Some(DisplayRow::Stash(i, _)) => after.graph == app.graph.load_repo(
                    app.repos.repos[i as int].path,
                    app.repos.repos[i as int].name,
                ).0,
                None => after.graph == app.graph && after.outbox == hidden,
            }
        }),
        app.show_file_list() == (AppView { focus: FocusPanel::Changes, ..app }),
{
    reveal(AppView::emit);
    reveal(AppView::refresh_active_worktree);
    reveal(AppView::load_graph);
    reveal(AppView::show_selected_graph);
    reveal(AppView::with_graph_focused);
    reveal(AppView::show_git_graph);
    reveal(AppView::show_file_list);
}

/// Cycling the order turns names first into changed ones first and back; the list is
/// then sorted that way.
pub proof fn law_order_is_cycled(app: AppView)
    ensures
        ({
            let after = app.cycle_sort_order();
            &&& app.sort_order == SortOrder::Alphabetical ==> after.sort_order
                == SortOrder::DirtyFirst && after.repos == app.repos.sorted(true)
            &&& app.sort_order == SortOrder::DirtyFirst ==> after.sort_order
                == SortOrder::Alphabetical && after.repos == app.repos.sorted(false)
            &&& after.config == app.config
            &&& after.tracking == app.tracking
        }),
{
    reveal(AppView::emit);
    reveal(AppView::with_other_order);
    reveal(AppView::sort_repos);
    reveal(AppView::refresh_active_worktree);
    reveal(AppView::show_files);
    reveal(AppView::load_graph);
    reveal(AppView::sync_selection);
    reveal(AppView::cycle_sort_order);
}

} // verus!
