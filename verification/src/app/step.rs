//! What follows on each action.
use vstd::prelude::*;
use vstd::string::*;
use crate::action::Action;
use crate::app::effect::{Effect, EffectView};
use crate::app::{App, AppView, FocusPanel};
use crate::git_graph::segments_fit;
use crate::repo_list::RepoListView;

verus! {

/// Another part of the program handles this action.
pub open spec fn is_forwarded(action: Action) -> bool {
    match action {
        Action::Resize { .. } => true,
        Action::OpenSelected => true,
        Action::ReviewSelected => true,
        Action::RunKeybinding(_) => true,
        Action::OpenNewWorktree(_) => true,
        Action::OpenFile { .. } => true,
        Action::GotoSessionSelected => true,
        Action::GotoSession(_) => true,
        Action::GotoSessionPicker(_) => true,
        Action::ShowFileContextMenu { .. } => true,
        Action::RevealFile { .. } => true,
        Action::OpenAddRepo => true,
        Action::GithubSelectionSettled(_) => true,
        Action::OpenUrl(_) => true,
        Action::ShowGithubItem { .. } => true,
        Action::CycleGithubStateFilter => true,
        Action::OpenThemePicker => true,
        _ => false,
    }
}

/// Whether another part of the program handles an action.
fn forwards(action: &Action) -> (r: bool)
    ensures
        r == is_forwarded(*action),
{
    match action {
        Action::Resize { .. } => true,
        Action::OpenSelected => true,
        Action::ReviewSelected => true,
        Action::RunKeybinding(_) => true,
        Action::OpenNewWorktree(_) => true,
        Action::OpenFile { .. } => true,
        Action::GotoSessionSelected => true,
        Action::GotoSession(_) => true,
        Action::GotoSessionPicker(_) => true,
        Action::ShowFileContextMenu { .. } => true,
        Action::RevealFile { .. } => true,
        Action::OpenAddRepo => true,
        Action::GithubSelectionSettled(_) => true,
        Action::OpenUrl(_) => true,
        Action::ShowGithubItem { .. } => true,
        Action::CycleGithubStateFilter => true,
        Action::OpenThemePicker => true,
        _ => false,
    }
}

impl AppView {
    /// The program is to end.
    #[verifier::opaque]
    pub open spec fn quit(self) -> AppView {
        AppView { should_quit: true, ..self }
    }

    /// The changes panel takes the keys.
    #[verifier::opaque]
    pub open spec fn show_file_list(self) -> AppView {
        AppView { focus: FocusPanel::Changes, ..self }
    }

    /// The directories with terminal sessions are known.
    #[verifier::opaque]
    pub open spec fn live_sessions_loaded(self, panes: Seq<Seq<char>>) -> AppView {
        AppView {
            liveness_probe_in_flight: false,
            repos: RepoListView { live_panes: panes, ..self.repos },
            ..self
        }
    }

    /// There is a newer version.
    #[verifier::opaque]
    pub open spec fn update_available(self, version: Seq<char>) -> AppView {
        AppView { update_version: Some(version), ..self }
    }

    /// The search of the graph is opened.
    #[verifier::opaque]
    pub open spec fn open_graph_search(self) -> AppView {
        AppView { graph: self.graph.open_search(), ..self }
    }

    /// The selected branch of the graph is collapsed or expanded.
    #[verifier::opaque]
    pub open spec fn toggle_graph_collapse(self) -> AppView {
        AppView { graph: self.graph.toggle_collapse_selected(), ..self }
    }

    /// All branches of the graph are expanded.
    #[verifier::opaque]
    pub open spec fn expand_all_graph_branches(self) -> AppView {
        AppView { graph: self.graph.expand_all_branches(), ..self }
    }

    /// The list handles an action; what it would do next is not done.
    #[verifier::opaque]
    pub open spec fn with_updated_list(self, action: Action) -> AppView {
        AppView { repos: self.repos.updated(action).0, ..self }
    }

    /// What is left is handed to the part it is for, or to the list.
    #[verifier::opaque]
    pub open spec fn pass_on(self, action: Action) -> AppView {
        if is_forwarded(action) {
            self.emit(EffectView::Forward(action))
        } else {
            self.with_updated_list(action)
        }
    }

    /// An action can be handled: rows and branches fit each other, and the ids in a
    /// diff can be cut.
    pub open spec fn accepts(self, action: Action) -> bool {
        match action {
            Action::GraphLoaded { rows, segments, .. } => segments_fit(
                segments.deep_view(),
                rows@.len(),
            ),
            Action::ShowDiff { id, file_path, .. } => self.can_diff(id@, file_path@),
            _ => true,
        }
    }

    /// What follows on an action of the graph panel.
    #[verifier::opaque]
    pub open spec fn step_graph(self, action: Action) -> Option<AppView> {
        match action {
            Action::GraphLoaded { generation, rows, segments } => Some(
                self.graph_loaded(generation, rows.deep_view(), segments.deep_view()),
            ),
            Action::GraphFilterBranchesLoaded { generation, branches } => Some(
                self.filter_branches_loaded(generation, branches.deep_view()),
            ),
            Action::DiffStatsLoaded { generation, stats } => Some(
                self.diff_stats_loaded(generation, stats@),
            ),
            Action::GraphError { generation, message } => Some(
                self.graph_error(generation, message@),
            ),
            Action::GraphLoadAborted { generation } => Some(self.graph_load_aborted(generation)),
            Action::OpenGraphFilters => Some(self.open_graph_filters()),
            Action::OpenGraphContextMenu => Some(self.open_graph_context_menu()),
            Action::OpenGraphCommitFiles => Some(self.open_graph_commit_files()),
            Action::OpenGraphSearch => Some(self.open_graph_search()),
            Action::ToggleGraphCollapse => Some(self.toggle_graph_collapse()),
            Action::ExpandAllGraphBranches => Some(self.expand_all_graph_branches()),
            Action::SetGraphFilters(filters) => Some(self.set_graph_filters(filters.deep_view())),
            Action::SetGraphFirstParent(enabled) => Some(self.set_graph_first_parent(enabled)),
            Action::ResetGraphFilters => Some(self.reset_graph_filters()),
            Action::ShowCommitFiles { repo_path, oid } => Some(
                self.show_commit_files(repo_path@, oid@),
            ),
            Action::CommitFilesLoaded { generation, oid, message, files } => Some(
                self.commit_files_loaded(generation, oid@, message@, files.deep_view()),
            ),
            Action::ShowCommitDiff { repo_path, oid, file_path } => Some(
                self.show_commit_diff(repo_path@, oid@, file_path@),
            ),
            Action::CommitDiffLoaded { generation, content } => Some(
                self.commit_diff_loaded(generation, content@),
            ),
            _ => None,
        }
    }

    /// What follows on an action about files, repositories, messages and themes.
    #[verifier::opaque]
    pub open spec fn step_rest(self, action: Action, now: u128) -> AppView {
        match action {
            Action::ShowContextMenu { id, row, col, is_worktree } => self.show_context_menu(
                id@,
                row,
                col,
                is_worktree,
            ),
            Action::HideContextMenu => self.emit(EffectView::HideContextMenu),
            Action::DiscardFile { id, path, is_untracked } => self.discard_file(
                id@,
                path@,
                is_untracked,
            ),
            Action::ChangeFile { id, path, change, dir } => self.change_file(
                id@,
                path@,
                change,
                dir.deep_view(),
            ),
            Action::CopyPath(id) => self.copy_path(id@),
            Action::GitTransfer { id, transfer } => self.git_transfer(id@, transfer),
            Action::GitSubmodules { id, operation } => self.git_submodules(id@, operation),
            Action::GitOpComplete { id, message } => self.git_op_complete(id@, message@, now),
            Action::ShowDiff { id, file_path, generation } => self.show_diff(
                id@,
                file_path@,
                generation,
            ),
            Action::DiffLoaded { generation, current, content } => self.diff_loaded(
                generation,
                current,
                content@,
            ),
            Action::AddRepo { path, has_dot_git, has_head } => self.add_repo(
                path@,
                has_dot_git,
                has_head,
            ),
            Action::RemoveRepo(id) => self.remove_repo(id@),
            Action::CycleSortOrder => self.cycle_sort_order(),
            Action::RescanRepos => self.rescan_repos(),
            Action::ReposRescanned(paths) => self.repos_rescanned(paths.deep_view()),
            Action::DiscoverNewRepos(paths) => self.discover_new_repos(paths.deep_view(), now),
            Action::UpdateAvailable(version) => self.update_available(version@),
            Action::Error(text) => self.error(text@, now),
            Action::PreviewTheme { name, loaded } => self.preview_theme(name@, loaded),
            Action::CommitTheme { name, loaded } => self.commit_theme(name@, loaded, now),
            Action::ThemeSaved { name, failure } => self.theme_saved(
                name@,
                failure.deep_view(),
                now,
            ),
            Action::CancelThemePreview { snapshot, original_name } => self.cancel_theme_preview(
                snapshot,
                original_name.deep_view(),
            ),
            other => self.pass_on(other),
        }
    }

    /// What follows on an action.
    #[verifier::opaque]
    pub open spec fn step(self, action: Action, now: u128) -> AppView {
        match action {
            Action::Quit => self.quit(),
            Action::Tick => self.emit(EffectView::ClearExpiredMessages),
            Action::Render => self.emit(EffectView::Draw),
            Action::CopyText(text) => self.copy_to_clipboard(text@),
            Action::ClipboardReplied(reply) => self.clipboard_replied(reply, now),
            Action::SelectRepo(id) => self.select_repo(id@),
            Action::FocusRepoDetails(id) => self.focus_repo_details(id@),
            Action::SelectWorktree { repo_id, worktree_path, worktree_branch } =>
                self.select_worktree(repo_id@, worktree_path@, worktree_branch@),
            Action::SelectSubmodule { repo_id, sub_path } => self.select_submodule(
                repo_id@,
                sub_path@,
            ),
            Action::WorktreeFilesLoaded { repo_id, worktree_path, name, changes } =>
                self.worktree_files_loaded(repo_id@, worktree_path@, name@, changes.deep_view()),
            Action::StatusQueryDone(id) => self.status_query_done(id@, now),
            Action::RepoStatusUpdated { id, status } => self.repo_status_updated(
                id@,
                status@,
                now,
            ),
            Action::RefreshAll => self.refresh_first(self.repos.repos.len()),
            Action::PollLocal => self.poll_local(),
            Action::PollFetch => self.poll_fetch(),
            Action::RefreshRepo(id) => self.refresh_repo(id@, now),
            Action::RefreshRepoAfterCooldown(id) => self.refresh_after_cooldown(id@, now),
            Action::ShowGitGraph => self.show_git_graph(),
            Action::ShowFileList => self.show_file_list(),
            Action::OpenAt(id) => self.launch_at(id@, false),
            Action::ReviewAt(id) => self.launch_at(id@, true),
            Action::CreateWorktree { repo, branch, new_path } => self.create_worktree(
                repo@,
                branch@,
                new_path@,
            ),
            Action::RemoveWorktreeSelected => self.remove_worktree_selected(),
            Action::RemoveWorktreeAt(id) => self.remove_worktree_at(id@),
            Action::RemoveWorktree { repo, worktree_path } => self.remove_worktree(
                repo@,
                worktree_path@,
            ),
            Action::LiveSessionsLoaded(panes) => self.live_sessions_loaded(panes.deep_view()),
            Action::PickerChose(value) => self.picker_chose(value@),
            Action::PickerCancel => self.picker_cancel(),
            other => match self.step_graph(other) {
                Some(stepped) => stepped,
                None => self.step_rest(other, now),
            },
        }
    }
}

impl App {
    /// Has the program end.
    fn quit(&mut self)
        requires
            old(self)@.wf(),
        ensures
            final(self)@ == old(self)@.quit(),
            final(self)@.wf(),
    {
        proof {
            reveal(AppView::quit);
        }
        self.should_quit = true;
    }

    /// Gives the keys to the changes panel.
    fn show_file_list(&mut self)
        requires
            old(self)@.wf(),
        ensures
            final(self)@ == old(self)@.show_file_list(),
            final(self)@.wf(),
    {
        proof {
            reveal(AppView::show_file_list);
        }
        self.focus = FocusPanel::Changes;
    }

    /// Notes the directories with terminal sessions.
    fn live_sessions_loaded(&mut self, panes: Vec<String>)
        requires
            old(self)@.wf(),
        ensures
            final(self)@ == old(self)@.live_sessions_loaded(panes.deep_view()),
            final(self)@.wf(),
    {
        proof {
            reveal(AppView::live_sessions_loaded);
        }
        self.liveness_probe_in_flight = false;
        self.repo_list.set_live_panes(panes);
    }

    /// Notes that there is a newer version.
    fn update_available(&mut self, version: String)
        requires
            old(self)@.wf(),
        ensures
            final(self)@ == old(self)@.update_available(version@),
            final(self)@.wf(),
    {
        proof {
            reveal(AppView::update_available);
        }
        self.update_version = Some(version);
    }

    /// Opens the search of the graph.
    fn open_graph_search(&mut self)
        requires
            old(self)@.wf(),
        ensures
            final(self)@ == old(self)@.open_graph_search(),
            final(self)@.wf(),
    {
        proof {
            reveal(AppView::open_graph_search);
        }
        self.git_graph.open_search();
    }

    /// Collapses or expands the selected branch of the graph.
    fn toggle_graph_collapse(&mut self)
        requires
            old(self)@.wf(),
        ensures
            final(self)@ == old(self)@.toggle_graph_collapse(),
            final(self)@.wf(),
    {
        proof {
            reveal(AppView::toggle_graph_collapse);
        }
        self.git_graph.toggle_selected_branch();
    }

    /// Expands all branches of the graph.
    fn expand_all_graph_branches(&mut self)
        requires
            old(self)@.wf(),
        ensures
            final(self)@ == old(self)@.expand_all_graph_branches(),
            final(self)@.wf(),
    {
        proof {
            reveal(AppView::expand_all_graph_branches);
        }
        self.git_graph.expand_all();
    }

    /// Lets the list handle an action.
    fn update_list(&mut self, action: Action)
        requires
            old(self)@.wf(),
        ensures
            final(self)@ == old(self)@.with_updated_list(action),
            final(self)@.wf(),
    {
        proof {
            reveal(AppView::with_updated_list);
        }
        let _ = self.repo_list.update(action);
    }

    /// Hands an action on.
    fn pass_on(&mut self, action: Action)
        requires
            old(self)@.wf(),
        ensures
            final(self)@ == old(self)@.pass_on(action),
            final(self)@.wf(),
    {
        proof {
            reveal(AppView::pass_on);
        }
        if forwards(&action) {
            self.emit(Effect::Forward(action));
        } else {
            self.update_list(action);
        }
    }

    /// Handles an action of the graph panel, or gives it back.
    fn handle_graph_action(&mut self, action: Action) -> (r: Option<Action>)
        requires
            old(self)@.wf(),
            old(self)@.graph.can_count(),
            old(self)@.accepts(action),
        ensures
            match old(self)@.step_graph(action) {
                Some(stepped) => r is None && final(self)@ == stepped,
                None => r == Some(action) && final(self)@ == old(self)@,
            },
            final(self)@.wf(),
    {
        proof {
            reveal(AppView::step_graph);
        }
        match action {
            Action::GraphLoaded { generation, rows, segments } => {
                self.graph_loaded(generation, rows, segments);
            },
            Action::GraphFilterBranchesLoaded { generation, branches } => {
                self.filter_branches_loaded(generation, branches);
            },
            Action::DiffStatsLoaded { generation, stats } => {
                self.diff_stats_loaded(generation, stats);
            },
            Action::GraphError { generation, message } => {
                self.graph_error(generation, message);
            },
            Action::GraphLoadAborted { generation } => {
                self.graph_load_aborted(generation);
            },
            Action::OpenGraphFilters => {
                self.open_graph_filters();
            },
            Action::OpenGraphContextMenu => {
                self.open_graph_context_menu();
            },
            Action::OpenGraphCommitFiles => {
                self.open_graph_commit_files();
            },
            Action::OpenGraphSearch => {
                self.open_graph_search();
            },
            Action::ToggleGraphCollapse => {
                self.toggle_graph_collapse();
            },
            Action::ExpandAllGraphBranches => {
                self.expand_all_graph_branches();
            },
            Action::SetGraphFilters(filters) => {
                self.set_graph_filters(filters);
            },
            Action::SetGraphFirstParent(enabled) => {
                self.set_graph_first_parent(enabled);
            },
            Action::ResetGraphFilters => {
                self.reset_graph_filters();
            },
            Action::ShowCommitFiles { repo_path, oid } => {
                self.show_commit_files(repo_path, oid);
            },
            Action::CommitFilesLoaded { generation, oid, message, files } => {
                self.commit_files_loaded(generation, oid, message, files);
            },
            Action::ShowCommitDiff { repo_path, oid, file_path } => {
                self.show_commit_diff(repo_path, oid, file_path);
            },
            Action::CommitDiffLoaded { generation, content } => {
                self.commit_diff_loaded(generation, content);
            },
            other => {
                return Some(other);
            },
        }
        None
    }

    /// Handles an action about files, repositories, messages and themes.
    fn handle_action_rest(&mut self, action: Action, now: u128)
        requires
            old(self)@.wf(),
            old(self)@.graph.can_count(),
            old(self)@.accepts(action),
        ensures
            final(self)@ == old(self)@.step_rest(action, now),
            final(self)@.wf(),
    {
        proof {
            reveal(AppView::step_rest);
        }
        match action {
            Action::ShowContextMenu { id, row, col, is_worktree } => {
                self.show_context_menu(id, row, col, is_worktree);
            },
            Action::HideContextMenu => {
                self.emit(Effect::HideContextMenu);
            },
            Action::DiscardFile { id, path, is_untracked } => {
                self.discard_file(id, path, is_untracked);
            },
            Action::ChangeFile { id, path, change, dir } => {
                self.change_file(id, path.as_str(), change, dir);
            },
            Action::CopyPath(id) => {
                self.copy_path(&id);
            },
            Action::GitTransfer { id, transfer } => {
                self.git_transfer(&id, transfer);
            },
            Action::GitSubmodules { id, operation } => {
                self.git_submodules(&id, operation);
            },
            Action::GitOpComplete { id, message } => {
                self.git_op_complete(&id, message, now);
            },
            Action::ShowDiff { id, file_path, generation } => {
                self.show_diff(&id, file_path.as_str(), generation);
            },
            Action::DiffLoaded { generation, current, content } => {
                self.diff_loaded(generation, current, content);
            },
            Action::AddRepo { path, has_dot_git, has_head } => {
                self.add_repo(path, has_dot_git, has_head);
            },
            Action::RemoveRepo(id) => {
                self.remove_repo(&id);
            },
            Action::CycleSortOrder => {
                self.cycle_sort_order();
            },
            Action::RescanRepos => {
                self.rescan_repos();
            },
            Action::ReposRescanned(paths) => {
                self.repos_rescanned(paths);
            },
            Action::DiscoverNewRepos(paths) => {
                self.discover_new_repos(paths, now);
            },
            Action::UpdateAvailable(version) => {
                self.update_available(version);
            },
            Action::Error(text) => {
                self.error(text.as_str(), now);
            },
            Action::PreviewTheme { name, loaded } => {
                self.preview_theme(name, loaded);
            },
            Action::CommitTheme { name, loaded } => {
                self.commit_theme(name, loaded, now);
            },
            Action::ThemeSaved { name, failure } => {
                self.theme_saved(name.as_str(), failure, now);
            },
            Action::CancelThemePreview { snapshot, original_name } => {
                self.cancel_theme_preview(snapshot, original_name);
            },
            other => {
                self.pass_on(other);
            },
        }
    }

    /// Handles an action, leaving what is to be done outside in the outbox.
    fn take_action(&mut self, action: Action, now: u128)
        requires
            old(self)@.wf(),
            old(self)@.graph.can_count(),
            old(self)@.accepts(action),
        ensures
            final(self)@ == old(self)@.step(action, now),
            final(self)@.wf(),
    {
        proof {
            reveal(AppView::step);
        }
        match action {
            Action::Quit => {
                self.quit();
            },
            Action::Tick => {
                self.emit(Effect::ClearExpiredMessages);
            },
            Action::Render => {
                self.emit(Effect::Draw);
            },
            Action::CopyText(text) => {
                self.copy_to_clipboard(text);
            },
            Action::ClipboardReplied(reply) => {
                self.clipboard_replied(reply, now);
            },
            Action::SelectRepo(id) => {
                self.select_repo(&id);
            },
            Action::FocusRepoDetails(id) => {
                self.focus_repo_details(&id);
            },
            Action::SelectWorktree { repo_id, worktree_path, worktree_branch } => {
                self.select_worktree(&repo_id, worktree_path, worktree_branch.as_str());
            },
            Action::SelectSubmodule { repo_id, sub_path } => {
                self.select_submodule(&repo_id, sub_path.as_str());
            },
            Action::WorktreeFilesLoaded { repo_id, worktree_path, name, changes } => {
                self.worktree_files_loaded(
                    &repo_id,
                    worktree_path.as_str(),
                    name.as_str(),
                    changes,
                );
            },
            Action::StatusQueryDone(id) => {
                self.status_query_done(&id, now);
            },
            Action::RepoStatusUpdated { id, status } => {
                self.repo_status_updated(&id, status, now);
            },
            Action::RefreshAll => {
                self.refresh_all();
            },
            Action::PollLocal => {
                self.poll_local();
            },
            Action::PollFetch => {
                self.poll_fetch();
            },
            Action::RefreshRepo(id) => {
                self.refresh_repo(&id, now);
            },
            Action::RefreshRepoAfterCooldown(id) => {
                self.refresh_after_cooldown(&id, now);
            },
            Action::ShowGitGraph => {
                self.show_git_graph();
            },
            Action::ShowFileList => {
                self.show_file_list();
            },
            Action::OpenAt(id) => {
                self.launch_at(&id, false);
            },
            Action::ReviewAt(id) => {
                self.launch_at(&id, true);
            },
            Action::CreateWorktree { repo, branch, new_path } => {
                self.create_worktree(repo, branch.as_str(), new_path.as_str());
            },
            Action::RemoveWorktreeSelected => {
                self.remove_worktree_selected();
            },
            Action::RemoveWorktreeAt(id) => {
                self.remove_worktree_at(&id);
            },
            Action::RemoveWorktree { repo, worktree_path } => {
                self.remove_worktree(repo, worktree_path.as_str());
            },
            Action::LiveSessionsLoaded(panes) => {
                self.live_sessions_loaded(panes);
            },
            Action::PickerChose(value) => {
                self.picker_chose(value);
            },
            Action::PickerCancel => {
                self.picker_cancel();
            },
            other => {
                if let Some(rest) = self.handle_graph_action(other) {
                    self.handle_action_rest(rest, now);
                }
            },
        }
    }

    /// What is to be done outside, and nothing left of it here.
    pub(crate) fn take_outbox(&mut self) -> (r: Vec<Effect>)
        requires
            old(self)@.wf(),
        ensures
            r.deep_view() == old(self)@.outbox,
            final(self)@ == (AppView { outbox: Seq::empty(), ..old(self)@ }),
            final(self)@.wf(),
    {
        let mut out: Vec<Effect> = Vec::new();
        std::mem::swap(&mut out, &mut self.outbox);
        assert(self.outbox.deep_view() =~= Seq::<EffectView>::empty());
        out
    }

    /// Handles an action at the time `now`, and says what is to be done outside.
    pub fn handle_action(&mut self, action: Action, now: u128) -> (r: Vec<Effect>)
        requires
            old(self)@.ready(),
            old(self)@.accepts(action),
        ensures
            r.deep_view() == old(self)@.step(action, now).outbox,
            final(self)@ == (AppView {
                outbox: Seq::empty(),
                ..old(self)@.step(action, now)
            }),
            final(self)@.wf(),
    {
        self.take_action(action, now);
        self.take_outbox()
    }
}

} // verus!
