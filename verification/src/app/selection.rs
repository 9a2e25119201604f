//! Which repository, worktree or submodule is shown.
use vstd::prelude::*;
use vstd::string::*;
use crate::action::{Action, ActionView};
use crate::app::effect::{Effect, EffectView};
use crate::app::{ActiveWorktree, ActiveWorktreeView, App, AppView, FocusPanel, SortOrder};
use crate::paths::{join, joined};
use crate::repo_list::{
    law_every_repository_has_a_row, law_lookup_finds_the_first,
    law_row_of_a_repository_selects_it, RepoEntry, RepoEntryView,
};
use crate::status::{FileEntry, RepoId, SubmoduleInfoView, SubmoduleState};
use crate::text::concat3;

verus! {

/// How many submodules stand before the one with this path.
pub open spec fn before_submodule(subs: Seq<SubmoduleInfoView>, path: Seq<char>) -> nat
    decreases subs.len(),
{
    if subs.len() == 0 || subs[0].path == path {
        0
    } else {
        1 + before_submodule(subs.drop_first(), path)
    }
}

/// The submodule of a repository at this path.
pub open spec fn submodule_at(entry: RepoEntryView, path: Seq<char>) -> Option<SubmoduleInfoView> {
    match entry.status {
        Some(status) => {
            let i = before_submodule(status.submodules, path) as int;
            if i < status.submodules.len() {
                Some(status.submodules[i])
            } else {
                None
            }
        },
        None => None,
    }
}

impl AppView {
    /// No worktree or submodule is shown.
    #[verifier::opaque]
    pub open spec fn leave_worktree(self) -> AppView {
        AppView { active_worktree: None, ..self }
    }

    /// Showing the files and the graph of a repository, if it is in the list.
    #[verifier::opaque]
    pub open spec fn open_details(self, id: Seq<char>) -> AppView {
        match self.repos.resolve_index(id) {
            Some(i) => {
                let entry = self.repos.repos[i as int];
                self.show_files(i as int, id).load_graph(entry.path, entry.name)
            },
            None => self,
        }
    }

    /// The row of a repository selected, if it is in the list.
    #[verifier::opaque]
    pub open spec fn select_row_of(self, id: Seq<char>) -> AppView {
        match self.repos.resolve_index(id) {
            Some(i) => AppView { repos: self.repos.select_repo_row(i as int), ..self },
            None => self,
        }
    }

    /// Selecting a repository: its row in the list, its files and its graph.
    #[verifier::opaque]
    pub open spec fn select_repo(self, id: Seq<char>) -> AppView {
        let opened = self.emit(EffectView::HideContextMenu).leave_worktree().open_details(id);
        opened.select_row_of(id).emit(EffectView::GithubTouchSelection)
    }

    /// Showing the details of a repository while the selection stays where it is.
    #[verifier::opaque]
    pub open spec fn focus_repo_details(self, id: Seq<char>) -> AppView {
        self.emit(EffectView::HideContextMenu).leave_worktree().open_details(id).emit(
            EffectView::GithubTouchSelection,
        )
    }

    /// Showing the changes and the graph of a worktree or submodule.
    #[verifier::opaque]
    pub open spec fn activate_path(
        self,
        path: Seq<char>,
        repo_id: Seq<char>,
        display_name: Seq<char>,
    ) -> AppView {
        AppView {
            active_worktree: Some(ActiveWorktreeView { path, repo_id, display_name }),
            ..self
        }.emit(EffectView::OpenPathContext { path, repo_id, display_name }).emit(
            EffectView::GithubTouchSelection,
        )
    }

    /// The name of a repository, empty where it is not in the list.
    pub open spec fn name_of_repo(self, id: Seq<char>) -> Seq<char> {
        match self.repos.resolve_index(id) {
            Some(i) => self.repos.repos[i as int].name,
            None => Seq::empty(),
        }
    }

    /// Selecting a worktree, which is shown under its repository and its branch.
    #[verifier::opaque]
    pub open spec fn select_worktree(
        self,
        repo_id: Seq<char>,
        path: Seq<char>,
        branch: Seq<char>,
    ) -> AppView {
        self.activate_path(path, repo_id, self.name_of_repo(repo_id) + ":"@ + branch)
    }

    /// Selecting a submodule, which is shown under its repository and its path.
    /// One that is not initialized cannot be shown.
    #[verifier::opaque]
    pub open spec fn select_submodule(self, repo_id: Seq<char>, sub_path: Seq<char>) -> AppView {
        match self.repos.resolve_index(repo_id) {
            Some(i) => {
                let entry = self.repos.repos[i as int];
                if submodule_at(entry, sub_path) matches Some(sub) && sub.state == Some(
                    SubmoduleState::Uninitialized,
                ) {
                    self.emit(
                        EffectView::Send(
                            ActionView::Error(
                                "Submodule "@ + sub_path + " is not initialized"@,
                            ),
                        ),
                    )
                } else {
                    self.activate_path(
                        joined(entry.path, sub_path),
                        repo_id,
                        entry.name + "/"@ + sub_path,
                    )
                }
            },
            None => self,
        }
    }

    /// Showing the files and the graph of the selection.
    #[verifier::opaque]
    pub open spec fn sync_selection(self) -> AppView {
        let touched = self.emit(EffectView::GithubTouchSelection);
        if self.active_worktree is Some {
            touched.refresh_active_worktree()
        } else {
            match self.repos.selected_index() {
                Some(i) if i < self.repos.repos.len() => {
                    let entry = self.repos.repos[i as int];
                    touched.show_files(i as int, entry.path).load_graph(entry.path, entry.name)
                },
                _ => touched,
            }
        }
    }

    /// The list sorted, its first repository selected.
    #[verifier::opaque]
    pub open spec fn sort_repos(self) -> AppView {
        AppView {
            repos: self.repos.sorted(self.sort_order == SortOrder::DirtyFirst),
            ..self
        }
    }

    /// The list is to be in the other order.
    #[verifier::opaque]
    pub open spec fn with_other_order(self) -> AppView {
        AppView { sort_order: self.sort_order.other(), ..self }
    }

    /// The other order.
    #[verifier::opaque]
    pub open spec fn cycle_sort_order(self) -> AppView {
        self.with_other_order().sort_repos().sync_selection()
    }

    /// Showing the graph of the worktree or repository that is selected.
    #[verifier::opaque]
    pub open spec fn show_selected_graph(self) -> AppView {
        match self.repos.selected_worktree() {
            Some((repo_id, worktree)) => self.emit(
                EffectView::Send(
                    ActionView::SelectWorktree {
                        repo_id,
                        worktree_path: worktree.path,
                        worktree_branch: worktree.branch,
                    },
                ),
            ),
            None => match self.repos.selected_index() {
                Some(i) => self.load_graph(
                    self.repos.repos[i as int].path,
                    self.repos.repos[i as int].name,
                ),
                None => self,
            },
        }
    }

    /// The graph takes the keys.
    #[verifier::opaque]
    pub open spec fn with_graph_focused(self) -> AppView {
        AppView { focus: FocusPanel::Graph, ..self }
    }

    /// Showing the graph of the selection anew: of the worktree or submodule that
    /// is shown, or else of the worktree or repository that is selected.
    #[verifier::opaque]
    pub open spec fn show_git_graph(self) -> AppView {
        let hidden = self.emit(EffectView::HideContextMenu);
        let shown = if self.active_worktree is Some {
            hidden.refresh_active_worktree()
        } else {
            hidden.show_selected_graph()
        };
        shown.with_graph_focused()
    }

    /// The changes of a worktree arrive, if it is still the one that is shown.
    #[verifier::opaque]
    pub open spec fn worktree_files_loaded(
        self,
        repo_id: Seq<char>,
        path: Seq<char>,
        name: Seq<char>,
        files: Seq<crate::status::FileEntryView>,
    ) -> AppView {
        if self.active_worktree matches Some(w) && w.path == path {
            self.emit(EffectView::SetFiles { files, name, id: repo_id })
        } else {
            self
        }
    }
}

impl App {
    /// Shows no worktree or submodule any more.
    pub(crate) fn leave_worktree(&mut self)
        requires
            old(self)@.wf(),
        ensures
            final(self)@ == old(self)@.leave_worktree(),
            final(self)@.repos == old(self)@.repos,
            final(self)@.graph == old(self)@.graph,
            final(self)@.wf(),
    {
        proof {
            reveal(AppView::leave_worktree);
        }
        self.active_worktree = None;
    }

    /// Shows the files and the graph of a repository.
    fn open_details(&mut self, id: &RepoId)
        requires
            old(self)@.wf(),
            old(self)@.graph.can_count(),
        ensures
            final(self)@ == old(self)@.open_details(id@),
            final(self)@.wf(),
    {
        proof {
            reveal(AppView::open_details);
        }
        if let Some(idx) = self.repo_list.resolve_index(id) {
            let path = self.repo_list.entry(idx).path.clone();
            let name = self.repo_list.entry(idx).name.clone();
            self.show_files(idx, id);
            self.load_graph(path, name.as_str());
        }
    }

    /// Selects the row of a repository, if it is in the list.
    pub(crate) fn select_row_of(&mut self, id: &RepoId)
        requires
            old(self)@.wf(),
        ensures
            final(self)@ == old(self)@.select_row_of(id@),
            final(self)@.graph == old(self)@.graph,
            final(self)@.wf(),
    {
        proof {
            reveal(AppView::select_row_of);
        }
        if let Some(idx) = self.repo_list.resolve_index(id) {
            self.repo_list.select_repo_row(idx);
        }
    }

    /// Selects a repository.
    pub fn select_repo(&mut self, id: &RepoId)
        requires
            old(self)@.wf(),
            old(self)@.graph.can_count(),
        ensures
            final(self)@ == old(self)@.select_repo(id@),
            final(self)@.wf(),
    {
        proof {
            reveal(AppView::select_repo);
        }
        self.emit(Effect::HideContextMenu);
        self.leave_worktree();
        self.open_details(id);
        self.select_row_of(id);
        self.emit(Effect::GithubTouchSelection);
    }

    /// Shows the details of a repository.
    pub fn focus_repo_details(&mut self, id: &RepoId)
        requires
            old(self)@.wf(),
            old(self)@.graph.can_count(),
        ensures
            final(self)@ == old(self)@.focus_repo_details(id@),
            final(self)@.wf(),
    {
        proof {
            reveal(AppView::focus_repo_details);
        }
        self.emit(Effect::HideContextMenu);
        self.leave_worktree();
        self.open_details(id);
        self.emit(Effect::GithubTouchSelection);
    }

    /// Shows the changes and the graph of a worktree or submodule.
    fn activate_path(&mut self, path: String, repo_id: &RepoId, display_name: String)
        requires
            old(self)@.wf(),
        ensures
            final(self)@ == old(self)@.activate_path(path@, repo_id@, display_name@),
            final(self)@.wf(),
    {
        proof {
            reveal(AppView::activate_path);
        }
        self.active_worktree =
        Some(
            ActiveWorktree {
                path: path.clone(),
                repo_id: repo_id.clone(),
                display_name: display_name.clone(),
            },
        );
        self.emit(Effect::OpenPathContext { path, repo_id: repo_id.clone(), display_name });
        self.emit(Effect::GithubTouchSelection);
    }

    /// Selects a worktree.
    pub fn select_worktree(&mut self, repo_id: &RepoId, path: String, branch: &str)
        requires
            old(self)@.wf(),
        ensures
            final(self)@ == old(self)@.select_worktree(repo_id@, path@, branch@),
            final(self)@.wf(),
    {
        proof {
            reveal(AppView::select_worktree);
        }
        let repo_name = match self.repo_list.resolve_index(repo_id) {
            Some(i) => {
                self.repo_list.entry(i).name.clone()
            },
            None => String::new(),
        };
        assert(repo_name@ =~= self@.name_of_repo(repo_id@));
        let display_name = concat3(repo_name.as_str(), ":", branch);
        self.activate_path(path, repo_id, display_name);
    }

    /// Whether a submodule is known not to be initialized.
    fn is_uninitialized(&self, idx: usize, sub_path: &str) -> (r: bool)
        requires
            idx < self@.repos.repos.len(),
        ensures
            r == (submodule_at(self@.repos.repos[idx as int], sub_path@) matches Some(sub)
                && sub.state == Some(SubmoduleState::Uninitialized)),
    {
        let entry = self.repo_list.entry(idx);
        match find_submodule(entry, sub_path) {
            Some(k) => match &entry.status {
                Some(status) => {
                    assert(submodule_at(entry.deep_view(), sub_path@) == Some(
                        status.submodules@[k as int].deep_view(),
                    ));
                    match status.submodules[k].state {
                        Some(SubmoduleState::Uninitialized) => true,
                        _ => false,
                    }
                },
                None => false,
            },
            None => false,
        }
    }

    /// Selects a submodule.
    pub fn select_submodule(&mut self, repo_id: &RepoId, sub_path: &str)
        requires
            old(self)@.wf(),
        ensures
            final(self)@ == old(self)@.select_submodule(repo_id@, sub_path@),
            final(self)@.wf(),
    {
        proof {
            reveal(AppView::select_submodule);
        }
        let idx: usize = match self.repo_list.resolve_index(repo_id) {
            Some(i) => i,
            None => return,
        };
        if self.is_uninitialized(idx, sub_path) {
            let message = concat3("Submodule ", sub_path, " is not initialized");
            self.emit(Effect::Send(Action::Error(message)));
        } else {
            let path = join(self.repo_list.entry(idx).path.as_str(), sub_path);
            let display_name = concat3(self.repo_list.entry(idx).name.as_str(), "/", sub_path);
            self.activate_path(path, repo_id, display_name);
        }
    }

    /// Shows the files and the graph of the selection.
    pub fn sync_selection(&mut self)
        requires
            old(self)@.wf(),
            old(self)@.graph.can_count(),
        ensures
            final(self)@ == old(self)@.sync_selection(),
            final(self)@.wf(),
    {
        proof {
            reveal(AppView::sync_selection);
        }
        self.emit(Effect::GithubTouchSelection);
        if self.active_worktree.is_some() {
            self.refresh_active_worktree();
            return;
        }
        if let Some(idx) = self.repo_list.selected_index() {
            if idx < self.repo_list.len() {
                let path = self.repo_list.entry(idx).path.clone();
                let name = self.repo_list.entry(idx).name.clone();
                let id = RepoId(path.clone());
                self.show_files(idx, &id);
                self.load_graph(path, name.as_str());
            }
        }
    }

    /// Sorts the list, and selects its first repository.
    pub fn sort_repos(&mut self)
        requires
            old(self)@.wf(),
        ensures
            final(self)@ == old(self)@.sort_repos(),
            final(self)@.graph == old(self)@.graph,
            final(self)@.wf(),
    {
        proof {
            reveal(AppView::sort_repos);
        }
        let dirty_first = self.sort_order == SortOrder::DirtyFirst;
        self.repo_list.sort(dirty_first);
    }

    /// Takes the other order.
    fn flip_order(&mut self)
        requires
            old(self)@.wf(),
        ensures
            final(self)@ == old(self)@.with_other_order(),
            final(self)@.graph == old(self)@.graph,
            final(self)@.wf(),
    {
        proof {
            reveal(AppView::with_other_order);
        }
        self.sort_order = self.sort_order.next();
    }

    /// Goes on to the other order.
    pub fn cycle_sort_order(&mut self)
        requires
            old(self)@.wf(),
            old(self)@.graph.can_count(),
        ensures
            final(self)@ == old(self)@.cycle_sort_order(),
            final(self)@.wf(),
    {
        proof {
            reveal(AppView::cycle_sort_order);
        }
        self.flip_order();
        self.sort_repos();
        self.sync_selection();
    }

    /// Shows the graph of the worktree or repository that is selected.
    fn show_selected_graph(&mut self)
        requires
            old(self)@.wf(),
            old(self)@.graph.can_count(),
        ensures
            final(self)@ == old(self)@.show_selected_graph(),
            final(self)@.wf(),
    {
        proof {
            reveal(AppView::show_selected_graph);
        }
        let worktree = match self.repo_list.selected_worktree() {
            Some((repo_id, wt)) => Some((repo_id, wt.path.clone(), wt.branch.clone())),
            None => None,
        };
        if let Some((repo_id, worktree_path, worktree_branch)) = worktree {
            self.emit(
                Effect::Send(Action::SelectWorktree { repo_id, worktree_path, worktree_branch }),
            );
            return;
        }
        let repo = match self.repo_list.selected_repo() {
            Some(entry) => Some((entry.path.clone(), entry.name.clone())),
            None => None,
        };
        if let Some((path, name)) = repo {
            self.load_graph(path, name.as_str());
        }
    }

    /// Gives the keys to the graph.
    fn focus_graph(&mut self)
        requires
            old(self)@.wf(),
        ensures
            final(self)@ == old(self)@.with_graph_focused(),
            final(self)@.wf(),
    {
        proof {
            reveal(AppView::with_graph_focused);
        }
        self.focus = FocusPanel::Graph;
    }

    /// Shows the graph of the selection anew.
    pub fn show_git_graph(&mut self)
        requires
            old(self)@.wf(),
            old(self)@.graph.can_count(),
        ensures
            final(self)@ == old(self)@.show_git_graph(),
            final(self)@.wf(),
    {
        proof {
            reveal(AppView::show_git_graph);
        }
        self.emit(Effect::HideContextMenu);
        if self.active_worktree.is_some() {
            self.refresh_active_worktree();
        } else {
            self.show_selected_graph();
        }
        self.focus_graph();
    }

    /// Shows the changes of a worktree, if it is still the one that is shown.
    pub fn worktree_files_loaded(
        &mut self,
        repo_id: &RepoId,
        path: &str,
        name: &str,
        files: Vec<FileEntry>,
    )
        requires
            old(self)@.wf(),
        ensures
            final(self)@ == old(self)@.worktree_files_loaded(
                repo_id@,
                path@,
                name@,
                files.deep_view(),
            ),
            final(self)@.wf(),
    {
        proof {
            reveal(AppView::worktree_files_loaded);
        }
        let is_shown = match &self.active_worktree {
            Some(w) => crate::text::same_text(w.path.as_str(), path),
            None => false,
        };
        if is_shown {
            self.emit(
                Effect::SetFiles { files, name: String::from_str(name), id: repo_id.clone() },
            );
        }
    }
}

/// The number of the submodule of a repository at this path.
pub(crate) fn find_submodule(entry: &RepoEntry, path: &str) -> (r: Option<usize>)
    ensures
        match r {
            Some(k) => entry.status is Some && k < entry.status->0.submodules@.len()
                && submodule_at(entry.deep_view(), path@) == Some(
                entry.status->0.submodules@[k as int].deep_view(),
            ),
            None => submodule_at(entry.deep_view(), path@) is None,
        },
{
    let status = match &entry.status {
        Some(s) => s,
        None => return None,
    };
    let key = String::from_str(path);
    let ghost subs = status.submodules.deep_view();
    assert(entry.deep_view().status == Some(status@));
    let mut k: usize = 0;
    assert(subs.skip(0) =~= subs);
    while k < status.submodules.len()
        invariant
            k <= status.submodules@.len(),
            subs == status.submodules.deep_view(),
            entry.status is Some,
            entry.status->0 == *status,
            entry.deep_view().status == Some(status@),
            status@.submodules == subs,
            key@ == path@,
            before_submodule(subs, path@) == k + before_submodule(subs.skip(k as int), path@),
        decreases status.submodules@.len() - k,
    {
        assert(subs[k as int] == status.submodules@[k as int].deep_view());
        assert(subs.skip(k as int)[0] == subs[k as int]);
        assert(subs.skip(k as int).drop_first() =~= subs.skip(k + 1));
        if status.submodules[k].path == key {
            assert(before_submodule(subs.skip(k as int), path@) == 0);
            return Some(k);
        }
        k = k + 1;
    }
    None
}

// ---------------------------------------------------------------------------
// Laws
// ---------------------------------------------------------------------------

/// A worktree or submodule that is shown stays shown: neither a new order nor
/// showing the graph anew puts the repository in its place, and a new state of
/// its repository does not replace its files.
pub proof fn law_active_worktree_owns_the_panels(
    app: AppView,
    id: Seq<char>,
    status: crate::status::RepoStatusView,
)
    requires
        app.active_worktree is Some,
    ensures
        app.sync_selection().graph == app.graph,
        app.sync_selection().active_worktree == app.active_worktree,
        app.show_git_graph().graph == app.graph,
        app.take_status(id, status).graph == app.graph,
        app.take_status(id, status).outbox == app.outbox,
{
    reveal(AppView::refresh_active_worktree);
    reveal(AppView::with_status);
    reveal(AppView::emit);
    reveal(AppView::sync_selection);
    reveal(AppView::with_graph_focused);
    reveal(AppView::show_git_graph);
    reveal(AppView::take_status);
}

/// Selecting a repository in the list shows it: it is the selected one, and the
/// graph is its own; a worktree or submodule that was shown is shown no more.
pub proof fn law_selecting_shows_the_repository(app: App, id: Seq<char>)
    requires
        app@.wf(),
        app@.repos.resolve_index(id) is Some,
    ensures
        app@.select_repo(id).repos.selected_index() == app@.repos.resolve_index(id),
        app@.select_repo(id).graph.repo_path == Some(id),
        app@.select_repo(id).active_worktree is None,
{
    reveal(AppView::emit);
    reveal(AppView::leave_worktree);
    reveal(AppView::show_files);
    reveal(AppView::load_graph);
    reveal(AppView::open_details);
    reveal(AppView::select_row_of);
    reveal(AppView::select_repo);
    app.repo_list.lemma_rows();
    law_every_repository_has_a_row(app@.repos);
    law_lookup_finds_the_first(app@.repos, id);
    law_row_of_a_repository_selects_it(app@.repos, app@.repos.resolve_index(id)->0);
}

/// Showing the details of a repository leaves the list as it is, so that the
/// selection can stay on a row below it.
pub proof fn law_details_leave_the_list(app: AppView, id: Seq<char>)
    ensures
        app.focus_repo_details(id).repos == app.repos,
        app.focus_repo_details(id).active_worktree is None,
{
    reveal(AppView::emit);
    reveal(AppView::leave_worktree);
    reveal(AppView::show_files);
    reveal(AppView::load_graph);
    reveal(AppView::open_details);
    reveal(AppView::focus_repo_details);
}

} // verus!
