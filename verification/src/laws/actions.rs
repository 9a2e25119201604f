//! Which operation carries out an action.
use vstd::prelude::*;

use crate::action::Action;
use crate::app::AppView;
use crate::app::effect::EffectView;

verus! {

/// The action is one about the graph.
spec fn of_the_graph(action: Action) -> bool {
    match action {
        Action::GraphLoaded { .. } => true,
        Action::GraphFilterBranchesLoaded { .. } => true,
        Action::DiffStatsLoaded { .. } => true,
        Action::GraphError { .. } => true,
        Action::GraphLoadAborted { .. } => true,
        Action::OpenGraphFilters => true,
        Action::OpenGraphContextMenu => true,
        Action::OpenGraphCommitFiles => true,
        Action::OpenGraphSearch => true,
        Action::ToggleGraphCollapse => true,
        Action::ExpandAllGraphBranches => true,
        Action::SetGraphFilters(_) => true,
        Action::SetGraphFirstParent(_) => true,
        Action::ResetGraphFilters => true,
        Action::ShowCommitFiles { .. } => true,
        Action::CommitFilesLoaded { .. } => true,
        Action::ShowCommitDiff { .. } => true,
        Action::CommitDiffLoaded { .. } => true,
        _ => false,
    }
}

/// The action is one about files, git, the list, messages and themes.
spec fn of_the_rest(action: Action) -> bool {
    match action {
        Action::ShowContextMenu { .. } => true,
        Action::DiscardFile { .. } => true,
        Action::ChangeFile { .. } => true,
        Action::CopyPath(_) => true,
        Action::GitTransfer { .. } => true,
        Action::GitSubmodules { .. } => true,
        Action::GitOpComplete { .. } => true,
        Action::ShowDiff { .. } => true,
        Action::DiffLoaded { .. } => true,
        Action::AddRepo { .. } => true,
        Action::RemoveRepo(_) => true,
        Action::CycleSortOrder => true,
        Action::RescanRepos => true,
        Action::ReposRescanned(_) => true,
        Action::DiscoverNewRepos(_) => true,
        Action::UpdateAvailable(_) => true,
        Action::Error(_) => true,
        Action::PreviewTheme { .. } => true,
        Action::CommitTheme { .. } => true,
        Action::ThemeSaved { .. } => true,
        Action::CancelThemePreview { .. } => true,
        Action::HideContextMenu => true,
        Action::SelectNextRepo => true,
        Action::SelectPrevRepo => true,
        _ => false,
    }
}

/// Another part of the program handles the action.
pub open spec fn of_others(action: Action) -> bool {
    match action {
        Action::Resize { .. } => true,
        Action::OpenSelected => true,
        Action::ReviewSelected => true,
        Action::RunKeybinding(_) => true,
        Action::OpenNewWorktree(_) => true,
        Action::OpenFile { .. } => true,
        Action::GotoSessionSelected => true,
        Action::GotoSession(_) => true,
        Action::GotoSessionPicker(_) => true,
        Action::ShowFileContextMenu { .. } => true,
        Action::RevealFile { .. } => true,
        Action::OpenAddRepo => true,
        Action::GithubSelectionSettled(_) => true,
        Action::OpenUrl(_) => true,
        Action::ShowGithubItem { .. } => true,
        Action::CycleGithubStateFilter => true,
        Action::OpenThemePicker => true,
        _ => false,
    }
}

proof fn lemma_on_the_graph(app: AppView, action: Action, now: u128)
    ensures
        of_the_graph(action) ==> app.step_graph(action) == Some(app.step(action, now)),
{
    reveal(AppView::step);
    assert(of_the_graph(action) ==> app.step_graph(action) is Some) by {
        reveal(AppView::step_graph);
    }
}

proof fn lemma_on_the_rest(app: AppView, action: Action, now: u128)
    ensures
        of_the_rest(action) || of_others(action) ==> app.step_rest(action, now) == app.step(
            action,
            now,
        ),
{
    reveal(AppView::step);
    assert(of_the_rest(action) || of_others(action) ==> app.step_graph(action) is None) by {
        reveal(AppView::step_graph);
    }
}

/// Each action about a place, a query, a pick or the clipboard is carried out by its own
/// operation, at the place that it names.
pub proof fn law_actions_on_places(app: AppView, action: Action, now: u128)
    ensures
        match action {
            Action::Quit => app.step(action, now) == app.quit(),
            Action::CopyText(text) => app.step(action, now) == app.copy_to_clipboard(text@),
            Action::ClipboardReplied(reply) => app.step(action, now)
                == app.clipboard_replied(reply, now),
            Action::SelectRepo(id) => app.step(action, now) == app.select_repo(id@),
            Action::FocusRepoDetails(id) => app.step(action, now) == app.focus_repo_details(id@),
            Action::SelectWorktree { repo_id, worktree_path, worktree_branch } => {
                app.step(action, now) == app.select_worktree(
                    repo_id@,
                    worktree_path@,
                    worktree_branch@,
                )
            },
            Action::SelectSubmodule { repo_id, sub_path } => app.step(action, now)
                == app.select_submodule(repo_id@, sub_path@),
            Action::WorktreeFilesLoaded { repo_id, worktree_path, name, changes } => {
                app.step(action, now) == app.worktree_files_loaded(
                    repo_id@,
                    worktree_path@,
                    name@,
                    changes.deep_view(),
                )
            },
            Action::StatusQueryDone(id) => app.step(action, now) == app.status_query_done(id@, now),
            Action::RepoStatusUpdated { id, status } => app.step(action, now)
                == app.repo_status_updated(id@, status@, now),
            Action::RefreshAll => app.step(action, now) == app.refresh_first(app.repos.repos.len()),
            Action::PollLocal => app.step(action, now) == app.poll_local(),
            Action::PollFetch => app.step(action, now) == app.poll_fetch(),
            Action::RefreshRepo(id) => app.step(action, now) == app.refresh_repo(id@, now),
            Action::RefreshRepoAfterCooldown(id) => app.step(action, now)
                == app.refresh_after_cooldown(id@, now),
            Action::ShowGitGraph => app.step(action, now) == app.show_git_graph(),
            Action::ShowFileList => app.step(action, now) == app.show_file_list(),
            Action::OpenAt(id) => app.step(action, now) == app.launch_at(id@, false),
            Action::ReviewAt(id) => app.step(action, now) == app.launch_at(id@, true),
            Action::CreateWorktree { repo, branch, new_path } => app.step(action, now)
                == app.create_worktree(repo@, branch@, new_path@),
            Action::RemoveWorktreeSelected => app.step(action, now)
                == app.remove_worktree_selected(),
            Action::RemoveWorktreeAt(id) => app.step(action, now) == app.remove_worktree_at(id@),
            Action::RemoveWorktree { repo, worktree_path } => app.step(action, now)
                == app.remove_worktree(repo@, worktree_path@),
            Action::LiveSessionsLoaded(panes) => app.step(action, now)
                == app.live_sessions_loaded(panes.deep_view()),
            Action::PickerChose(value) => app.step(action, now) == app.picker_chose(value@),
            Action::PickerCancel => app.step(action, now) == app.picker_cancel(),
            _ => true,
        },
{
    reveal(AppView::step);
}

/// Each action about the graph is carried out by its own operation, with what came along.
pub proof fn law_actions_on_the_graph(app: AppView, action: Action, now: u128)
    ensures
        match action {
            Action::GraphLoaded { generation, rows, segments } => app.step(action, now)
                == app.graph_loaded(generation, rows.deep_view(), segments.deep_view()),
            Action::GraphFilterBranchesLoaded { generation, branches } => app.step(action, now)
                == app.filter_branches_loaded(generation, branches.deep_view()),
            Action::DiffStatsLoaded { generation, stats } => app.step(action, now)
                == app.diff_stats_loaded(generation, stats@),
            Action::GraphError { generation, message } => app.step(action, now)
                == app.graph_error(generation, message@),
            Action::GraphLoadAborted { generation } => app.step(action, now)
                == app.graph_load_aborted(generation),
            Action::OpenGraphFilters => app.step(action, now) == app.open_graph_filters(),
            Action::OpenGraphContextMenu => app.step(action, now) == app.open_graph_context_menu(),
            Action::OpenGraphCommitFiles => app.step(action, now) == app.open_graph_commit_files(),
            Action::OpenGraphSearch => app.step(action, now) == app.open_graph_search(),
            Action::ToggleGraphCollapse => app.step(action, now) == app.toggle_graph_collapse(),
            Action::ExpandAllGraphBranches => app.step(action, now)
                == app.expand_all_graph_branches(),
            Action::SetGraphFilters(filters) => app.step(action, now)
                == app.set_graph_filters(filters.deep_view()),
            Action::SetGraphFirstParent(enabled) => app.step(action, now)
                == app.set_graph_first_parent(enabled),
            Action::ResetGraphFilters => app.step(action, now) == app.reset_graph_filters(),
            Action::ShowCommitFiles { repo_path, oid } => app.step(action, now)
                == app.show_commit_files(repo_path@, oid@),
            Action::CommitFilesLoaded { generation, oid, message, files } => app.step(action, now)
                == app.commit_files_loaded(generation, oid@, message@, files.deep_view()),
            Action::ShowCommitDiff { repo_path, oid, file_path } => app.step(action, now)
                == app.show_commit_diff(repo_path@, oid@, file_path@),
            Action::CommitDiffLoaded { generation, content } => app.step(action, now)
                == app.commit_diff_loaded(generation, content@),
            _ => true,
        },
{
    reveal(AppView::step_graph);
    lemma_on_the_graph(app, action, now);
}

/// Each action about files, git, the list, messages and themes is carried out by its own
/// operation, with what came along.
pub proof fn law_actions_on_the_rest(app: AppView, action: Action, now: u128)
    ensures
        match action {
            Action::ShowContextMenu { id, row, col, is_worktree } => app.step(action, now)
                == app.show_context_menu(id@, row, col, is_worktree),
            Action::DiscardFile { id, path, is_untracked } => app.step(action, now)
                == app.discard_file(id@, path@, is_untracked),
            Action::ChangeFile { id, path, change, dir } => app.step(action, now)
                == app.change_file(id@, path@, change, dir.deep_view()),
            Action::CopyPath(id) => app.step(action, now) == app.copy_path(id@),
            Action::GitTransfer { id, transfer } => app.step(action, now)
                == app.git_transfer(id@, transfer),
            Action::GitSubmodules { id, operation } => app.step(action, now)
                == app.git_submodules(id@, operation),
            Action::GitOpComplete { id, message } => app.step(action, now)
                == app.git_op_complete(id@, message@, now),
            Action::ShowDiff { id, file_path, generation } => app.step(action, now)
                == app.show_diff(id@, file_path@, generation),
            Action::DiffLoaded { generation, current, content } => app.step(action, now)
                == app.diff_loaded(generation, current, content@),
            Action::AddRepo { path, has_dot_git, has_head } => app.step(action, now)
                == app.add_repo(path@, has_dot_git, has_head),
            Action::RemoveRepo(id) => app.step(action, now) == app.remove_repo(id@),
            Action::CycleSortOrder => app.step(action, now) == app.cycle_sort_order(),
            Action::RescanRepos => app.step(action, now) == app.rescan_repos(),
            Action::ReposRescanned(paths) => app.step(action, now)
                == app.repos_rescanned(paths.deep_view()),
            Action::DiscoverNewRepos(paths) => app.step(action, now)
                == app.discover_new_repos(paths.deep_view(), now),
            Action::UpdateAvailable(version) => app.step(action, now)
                == app.update_available(version@),
            Action::Error(text) => app.step(action, now) == app.error(text@, now),
            Action::PreviewTheme { name, loaded } => app.step(action, now)
                == app.preview_theme(name@, loaded),
            Action::CommitTheme { name, loaded } => app.step(action, now)
                == app.commit_theme(name@, loaded, now),
            Action::ThemeSaved { name, failure } => app.step(action, now)
                == app.theme_saved(name@, failure.deep_view(), now),
            Action::CancelThemePreview { snapshot, original_name } => app.step(action, now)
                == app.cancel_theme_preview(snapshot, original_name.deep_view()),
            _ => true,
        },
{
    reveal(AppView::step_rest);
    lemma_on_the_rest(app, action, now);
}

/// A tick has old messages cleared, a frame has the screen drawn, and a menu that is to go
/// is hidden; nothing else comes of these.
pub proof fn law_ticks_and_frames_only_emit(app: AppView, now: u128)
    ensures
        app.step(Action::Tick, now) == (AppView {
            outbox: app.outbox.push(EffectView::ClearExpiredMessages),
            ..app
        }),
        app.step(Action::Render, now) == (AppView {
            outbox: app.outbox.push(EffectView::Draw),
            ..app
        }),
        app.step(Action::HideContextMenu, now) == (AppView {
            outbox: app.outbox.push(EffectView::HideContextMenu),
            ..app
        }),
{
    assert(app.step(Action::Tick, now) == app.emit(EffectView::ClearExpiredMessages)) by {
        reveal(AppView::step);
    }
    assert(app.step(Action::Render, now) == app.emit(EffectView::Draw)) by {
        reveal(AppView::step);
    }
    lemma_on_the_rest(app, Action::HideContextMenu, now);
    assert(app.step_rest(Action::HideContextMenu, now) == app.emit(
        EffectView::HideContextMenu,
    )) by {
        reveal(AppView::step_rest);
    }
    reveal(AppView::emit);
}

/// What other parts of the program handle is handed to them as it came, and nothing else
/// happens.
pub proof fn law_what_others_handle_is_handed_on(app: AppView, action: Action, now: u128)
    requires
        of_others(action),
    ensures
        app.step(action, now) == (AppView {
            outbox: app.outbox.push(EffectView::Forward(action)),
            ..app
        }),
{
    lemma_on_the_rest(app, action, now);
    assert(app.step_rest(action, now) == app.pass_on(action)) by {
        reveal(AppView::step_rest);
    }
    assert(app.pass_on(action) == app.emit(EffectView::Forward(action))) by {
        reveal(AppView::pass_on);
    }
    reveal(AppView::emit);
}

/// Asked to, the list selects its next row or the one before, and nothing else happens.
pub proof fn law_the_list_is_stepped_through(app: AppView, now: u128)
    ensures
        app.step(Action::SelectNextRepo, now) == (AppView {
            repos: app.repos.select_next(),
            ..app
        }),
        app.step(Action::SelectPrevRepo, now) == (AppView {
            repos: app.repos.select_prev(),
            ..app
        }),
{
    lemma_on_the_rest(app, Action::SelectNextRepo, now);
    lemma_on_the_rest(app, Action::SelectPrevRepo, now);
    assert(app.step_rest(Action::SelectNextRepo, now) == app.pass_on(Action::SelectNextRepo)) by {
        reveal(AppView::step_rest);
    }
    assert(app.step_rest(Action::SelectPrevRepo, now) == app.pass_on(Action::SelectPrevRepo)) by {
        reveal(AppView::step_rest);
    }
    reveal(AppView::pass_on);
    reveal(AppView::with_updated_list);
}

} // verus!
