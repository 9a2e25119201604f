//! Repositories that come and go.
use vstd::prelude::*;
use vstd::string::*;
use crate::action::{Action, ActionView};
use crate::app::effect::{Effect, EffectView};
use crate::app::tracking::TrackingView;
use crate::app::{App, AppView};
use crate::config::{add_text, remove_text, with_text, without_text, ConfigView};
use crate::repo_list::sort::{law_sorted_entries, sorted_entries};
use crate::repo_list::sync::{
    gone, law_difference_is_exact, law_sync_is_idempotent, listed, unknown, SyncDiff,
};
use crate::repo_list::{
    law_every_repository_has_a_row, law_lookup_finds_the_first,
    law_row_of_a_repository_selects_it, make_entry, new_entry, RepoEntryView, RepoList,
    RepoListView,
};
use crate::status::RepoId;
use crate::text::{copy_texts, same_text};

verus! {

/// The paths of some repositories.
pub open spec fn paths_of(entries: Seq<RepoEntryView>) -> Seq<Seq<char>> {
    Seq::new(entries.len(), |i: int| entries[i].path)
}

/// Git data lies at a path: a `.git`, or, in a bare repository, a `HEAD`.
pub open spec fn has_git_data(has_dot_git: bool, has_head: bool) -> bool {
    has_dot_git || has_head
}

/// Whether a path can be added as a repository, by what was seen there.
pub fn is_repository(has_dot_git: bool, has_head: bool) -> (r: bool)
    ensures
        r == has_git_data(has_dot_git, has_head),
{
    has_dot_git || has_head
}

impl AppView {
    /// Watching the repositories and the root directories anew, once changes can
    /// be reported.
    #[verifier::opaque]
    pub open spec fn rebuild_watcher(self) -> AppView {
        if self.watching {
            self.emit(
                EffectView::Watch {
                    repo_paths: paths_of(self.repos.repos),
                    root_dirs: self.config.root_dirs,
                    debounce_ms: self.config.debounce_ms,
                    exclude_dirs: self.config.watch_exclude_dirs,
                    worktree_dirs: self.config.watch_worktree_dirs,
                },
            )
        } else {
            self
        }
    }

    /// A repository pinned.
    #[verifier::opaque]
    pub open spec fn with_pinned(self, path: Seq<char>) -> AppView {
        AppView {
            config: ConfigView {
                pinned_repos: with_text(self.config.pinned_repos, path),
                ..self.config
            },
            ..self
        }
    }

    /// A repository at the end of the list.
    #[verifier::opaque]
    pub open spec fn with_new_repo(self, path: Seq<char>) -> AppView {
        AppView {
            repos: self.repos.push_repo(new_entry(path, self.config.root_dirs)),
            ..self
        }
    }

    /// Adding a repository that the user names: it is pinned, listed, queried and
    /// selected. A path without git data is passed over.
    #[verifier::opaque]
    pub open spec fn add_repo(
        self,
        path: Seq<char>,
        has_dot_git: bool,
        has_head: bool,
    ) -> AppView {
        let hidden = self.emit(EffectView::HidePathInput);
        if has_git_data(has_dot_git, has_head) {
            hidden.with_pinned(path).emit(EffectView::SaveConfig).with_new_repo(path).emit(
                EffectView::Send(ActionView::RefreshRepo(path)),
            ).emit(EffectView::Send(ActionView::SelectRepo(path)))
        } else {
            hidden
        }
    }

    /// A repository neither pinned nor found again: its name is excluded.
    #[verifier::opaque]
    pub open spec fn with_excluded(self, entry: RepoEntryView) -> AppView {
        AppView {
            config: ConfigView {
                pinned_repos: without_text(self.config.pinned_repos, entry.path),
                excluded_repos: with_text(self.config.excluded_repos, entry.name),
                ..self.config
            },
            ..self
        }
    }

    /// A repository not in the list any more.
    #[verifier::opaque]
    pub open spec fn without_repo(self, i: int) -> AppView {
        AppView { repos: self.repos.remove_repo(i), ..self }
    }

    /// What is shown when repository `i` of before has gone: the one that is
    /// selected now, or nothing.
    #[verifier::opaque]
    pub open spec fn show_next_repo(self, next: int) -> AppView {
        if self.repos.repos.len() == 0 {
            self.emit(
                EffectView::SetFiles { files: Seq::empty(), name: Seq::empty(), id: Seq::empty() },
            )
        } else {
            self.emit(EffectView::Send(ActionView::SelectRepo(self.repos.repos[next].path)))
        }
    }

    /// Removing a repository from the list, for good.
    #[verifier::opaque]
    pub open spec fn remove_repo(self, id: Seq<char>) -> AppView {
        match self.repos.resolve_index(id) {
            Some(i) => self.with_tracking(self.tracking.forgotten(id)).with_excluded(
                self.repos.repos[i as int],
            ).emit(EffectView::SaveConfig).without_repo(i as int).show_next_repo(
                self.repos.next_after_removal(i as int),
            ),
            None => self,
        }
    }

    /// Nothing that was excluded or queried counts any more.
    #[verifier::opaque]
    pub open spec fn with_nothing_excluded(self) -> AppView {
        AppView {
            tracking: TrackingView::nothing(),
            config: ConfigView { excluded_repos: Seq::empty(), ..self.config },
            ..self
        }
    }

    /// Looking for all repositories anew.
    #[verifier::opaque]
    pub open spec fn rescan_repos(self) -> AppView {
        self.with_nothing_excluded().emit(EffectView::SaveConfig).emit(EffectView::Rescan)
    }

    /// A new list.
    #[verifier::opaque]
    pub open spec fn with_new_list(self, paths: Seq<Seq<char>>) -> AppView {
        AppView {
            repos: RepoListView {
                connected: true,
                ..RepoListView::fresh(paths, self.config.root_dirs, self.theme)
            },
            ..self
        }
    }

    /// All repositories were looked for anew.
    #[verifier::opaque]
    pub open spec fn repos_rescanned(self, paths: Seq<Seq<char>>) -> AppView {
        self.with_new_list(paths).rebuild_watcher().emit(
            EffectView::Send(ActionView::PollLocal),
        ).sort_repos().sync_selection()
    }

    /// Nothing is known of one of the repositories that are gone any more.
    #[verifier::opaque]
    pub open spec fn forget_repo(self, path: Seq<char>) -> AppView {
        let forgotten = self.with_tracking(self.tracking.forgotten(path));
        if self.active_worktree matches Some(w) && w.repo_id == path {
            forgotten.leave_worktree()
        } else {
            forgotten
        }
    }

    /// Nothing is known of the first `n` of some repositories any more.
    pub open spec fn forget_first(self, paths: Seq<Seq<char>>, n: nat) -> AppView
        decreases n,
    {
        if n == 0 {
            self
        } else {
            self.forget_first(paths, (n - 1) as nat).forget_repo(paths[n - 1])
        }
    }

    /// The first `n` of some repositories are to be queried.
    pub open spec fn announce_first(self, paths: Seq<Seq<char>>, n: nat) -> AppView
        decreases n,
    {
        if n == 0 {
            self
        } else {
            self.announce_first(paths, (n - 1) as nat).emit(
                EffectView::Send(ActionView::RefreshRepo(paths[n - 1])),
            )
        }
    }

    /// The path of the repository that is selected.
    pub open spec fn selected_path(self) -> Option<Seq<char>> {
        match self.repos.selected_index() {
            Some(i) => Some(self.repos.repos[i as int].path),
            None => None,
        }
    }

    /// The repository with this path selected again, if it is still there.
    pub open spec fn reselect(self, path: Option<Seq<char>>) -> AppView {
        match path {
            Some(path) => self.select_row_of(path),
            None => self,
        }
    }

    /// The search for new repositories is over.
    pub open spec fn discovery_done(self, now: u128) -> AppView {
        AppView { discovery_pending: false, last_discovery: Some(now), ..self }
    }

    /// The list in step with what was found.
    #[verifier::opaque]
    pub open spec fn with_found(self, paths: Seq<Seq<char>>) -> AppView {
        AppView { repos: self.repos.sync_paths(paths), ..self }
    }

    /// The list is connected.
    #[verifier::opaque]
    pub open spec fn with_connected_list(self) -> AppView {
        AppView { repos: RepoListView { connected: true, ..self.repos }, ..self }
    }

    /// What follows when the list has changed: what is gone is forgotten, what is
    /// new is queried, and the selection stays where it was as far as it can.
    #[verifier::opaque]
    pub open spec fn repos_changed(
        self,
        added: Seq<Seq<char>>,
        removed: Seq<Seq<char>>,
        selected: Option<Seq<char>>,
    ) -> AppView {
        self.with_connected_list().emit(EffectView::PruneGithub(removed)).forget_first(
            removed,
            removed.len(),
        ).sort_repos().reselect(selected).rebuild_watcher().announce_first(
            added,
            added.len(),
        ).sync_selection()
    }

    /// New repositories were looked for. If those in the list are those that were
    /// found, nothing follows.
    #[verifier::opaque]
    pub open spec fn discover_new_repos(self, paths: Seq<Seq<char>>, now: u128) -> AppView {
        let done = self.discovery_done(now);
        let added = unknown(paths, self.repos.repos);
        let removed = gone(self.repos.repos, paths);
        let found = done.with_found(paths);
        if added.len() == 0 && removed.len() == 0 {
            found
        } else {
            found.repos_changed(added, removed, self.selected_path())
        }
    }

    /// Something was created or removed in a root directory: new repositories are
    /// looked for at once, or, during the cooldown, once when it is over.
    #[verifier::opaque]
    pub open spec fn repos_root_changed(self, now: u128) -> AppView {
        let cooldown = (self.config.discovery_cooldown_secs * 1_000_000_000) as u128;
        match crate::app::tracking::refresh_due(self.last_discovery, now, cooldown) {
            crate::app::tracking::RefreshDecision::Now => AppView {
                last_discovery: Some(now),
                discovery_pending: false,
                ..self
            }.emit(EffectView::Discover),
            crate::app::tracking::RefreshDecision::Later(wait) => if self.discovery_pending {
                self
            } else {
                AppView { discovery_pending: true, ..self }.emit(EffectView::DiscoverLater(wait))
            },
        }
    }
}

impl App {
    /// The paths of the repositories in the list.
    fn repo_paths(&self) -> (r: Vec<String>)
        ensures
            r.deep_view() == paths_of(self@.repos.repos),
    {
        let ghost want = paths_of(self@.repos.repos);
        let total: usize = self.repo_list.len();
        let mut out: Vec<String> = Vec::new();
        let mut i: usize = 0;
        while i < total
            invariant
                i <= total,
                total == self@.repos.repos.len(),
                want == paths_of(self@.repos.repos),
                out.deep_view() =~= want.take(i as int),
            decreases total - i,
        {
            let ghost before = out.deep_view();
            let path = self.repo_list.entry(i).path.clone();
            out.push(path);
            assert(out.deep_view() =~= before.push(path@));
            i = i + 1;
        }
        assert(out.deep_view() =~= want);
        out
    }

    /// Watches the repositories and the root directories anew.
    pub fn rebuild_watcher(&mut self)
        requires
            old(self)@.wf(),
        ensures
            final(self)@ == old(self)@.rebuild_watcher(),
            final(self)@.repos == old(self)@.repos,
            final(self)@.graph == old(self)@.graph,
            final(self)@.wf(),
    {
        proof {
            reveal(AppView::rebuild_watcher);
        }
        if !self.watching {
            return;
        }
        let repo_paths = self.repo_paths();
        let root_dirs = copy_texts(&self.config.root_dirs);
        let exclude_dirs = copy_texts(&self.config.watch_exclude_dirs);
        let debounce_ms: u64 = self.config.debounce_ms;
        let worktree_dirs = self.config.watch_worktree_dirs;
        self.emit(
            Effect::Watch { repo_paths, root_dirs, debounce_ms, exclude_dirs, worktree_dirs },
        );
    }

    /// Pins a repository.
    fn pin(&mut self, path: String)
        requires
            old(self)@.wf(),
        ensures
            final(self)@ == old(self)@.with_pinned(path@),
            final(self)@.repos == old(self)@.repos,
            final(self)@.graph == old(self)@.graph,
            final(self)@.wf(),
    {
        proof {
            reveal(AppView::with_pinned);
        }
        self.config.add_pinned_repo(path);
    }

    /// Puts a repository at the end of the list.
    fn list_new_repo(&mut self, path: String)
        requires
            old(self)@.wf(),
        ensures
            final(self)@ == old(self)@.with_new_repo(path@),
            final(self)@.wf(),
    {
        proof {
            reveal(AppView::with_new_repo);
        }
        let entry = make_entry(path, &self.config.root_dirs);
        self.repo_list.push_repo(entry);
    }

    /// Adds a repository that the user names.
    pub fn add_repo(&mut self, path: String, has_dot_git: bool, has_head: bool)
        requires
            old(self)@.wf(),
        ensures
            final(self)@ == old(self)@.add_repo(path@, has_dot_git, has_head),
            final(self)@.wf(),
    {
        proof {
            reveal(AppView::add_repo);
        }
        self.emit(Effect::HidePathInput);
        if is_repository(has_dot_git, has_head) {
            self.pin(path.clone());
            self.emit(Effect::SaveConfig);
            self.list_new_repo(path.clone());
            self.emit(Effect::Send(Action::RefreshRepo(RepoId(path.clone()))));
            self.emit(Effect::Send(Action::SelectRepo(RepoId(path))));
        }
    }

    /// Neither pins nor finds a repository again.
    fn exclude(&mut self, path: &str, name: String, Ghost(entry): Ghost<RepoEntryView>)
        requires
            old(self)@.wf(),
            entry.path == path@,
            entry.name == name@,
        ensures
            final(self)@ == old(self)@.with_excluded(entry),
            final(self)@.repos == old(self)@.repos,
            final(self)@.graph == old(self)@.graph,
            final(self)@.wf(),
    {
        proof {
            reveal(AppView::with_excluded);
        }
        self.config.pinned_repos = remove_text(&self.config.pinned_repos, path);
        add_text(&mut self.config.excluded_repos, name);
    }

    /// Takes a repository out of the list.
    fn unlist(&mut self, idx: usize)
        requires
            old(self)@.wf(),
            idx < old(self)@.repos.repos.len(),
        ensures
            final(self)@ == old(self)@.without_repo(idx as int),
            final(self)@.repos.repos.len() == old(self)@.repos.repos.len() - 1,
            final(self)@.graph == old(self)@.graph,
            final(self)@.wf(),
    {
        proof {
            reveal(AppView::without_repo);
        }
        self.repo_list.remove_repo(idx);
    }

    /// Shows what is selected now that a repository has gone.
    fn show_next_repo(&mut self, next: usize)
        requires
            old(self)@.wf(),
            old(self)@.repos.repos.len() > 0 ==> next < old(self)@.repos.repos.len(),
        ensures
            final(self)@ == old(self)@.show_next_repo(next as int),
            final(self)@.wf(),
    {
        proof {
            reveal(AppView::show_next_repo);
        }
        if self.repo_list.len() == 0 {
            let files: Vec<crate::status::FileEntry> = Vec::new();
            assert(files.deep_view() =~= Seq::<crate::status::FileEntryView>::empty());
            let name = String::new();
            let id = RepoId(String::new());
            assert(name@ =~= Seq::<char>::empty());
            self.emit(Effect::SetFiles { files, name, id });
        } else {
            let id = RepoId(self.repo_list.entry(next).path.clone());
            self.emit(Effect::Send(Action::SelectRepo(id)));
        }
    }

    /// Forgets the queries of a repository.
    fn forget_queries(&mut self, path: &str)
        requires
            old(self)@.wf(),
        ensures
            final(self)@ == old(self)@.with_tracking(old(self)@.tracking.forgotten(path@)),
            final(self)@.wf(),
    {
        self.tracking.forget(path);
    }

    /// Removes a repository from the list.
    pub fn remove_repo(&mut self, id: &RepoId)
        requires
            old(self)@.wf(),
        ensures
            final(self)@ == old(self)@.remove_repo(id@),
            final(self)@.wf(),
    {
        proof {
            reveal(AppView::remove_repo);
        }
        let idx: usize = match self.repo_list.resolve_index(id) {
            Some(i) => i,
            None => return,
        };
        let total: usize = self.repo_list.len();
        let path = self.repo_list.entry(idx).path.clone();
        let name = self.repo_list.entry(idx).name.clone();
        let next: usize = if idx < total - 1 {
            idx
        } else if total > 1 {
            total - 2
        } else {
            0
        };
        let ghost entry = self@.repos.repos[idx as int];
        self.forget_queries(id.0.as_str());
        self.exclude(path.as_str(), name, Ghost(entry));
        self.emit(Effect::SaveConfig);
        self.unlist(idx);
        self.show_next_repo(next);
    }

    /// Forgets all queries, and what is excluded.
    fn forget_all(&mut self)
        requires
            old(self)@.wf(),
        ensures
            final(self)@ == old(self)@.with_nothing_excluded(),
            final(self)@.wf(),
    {
        proof {
            reveal(AppView::with_nothing_excluded);
        }
        self.tracking.clear();
        self.config.excluded_repos.clear();
        assert(self.config.excluded_repos.deep_view() =~= Seq::<Seq<char>>::empty());
    }

    /// Looks for all repositories anew.
    pub fn rescan_repos(&mut self)
        requires
            old(self)@.wf(),
        ensures
            final(self)@ == old(self)@.rescan_repos(),
            final(self)@.wf(),
    {
        proof {
            reveal(AppView::rescan_repos);
        }
        self.forget_all();
        self.emit(Effect::SaveConfig);
        self.emit(Effect::Rescan);
    }

    /// Makes a new list.
    fn replace_list(&mut self, paths: Vec<String>)
        requires
            old(self)@.wf(),
        ensures
            final(self)@ == old(self)@.with_new_list(paths.deep_view()),
            final(self)@.graph == old(self)@.graph,
            final(self)@.wf(),
    {
        proof {
            reveal(AppView::with_new_list);
        }
        let roots = copy_texts(&self.config.root_dirs);
        let mut list = RepoList::new(paths, roots, self.theme);
        list.register_action_handler();
        self.repo_list = list;
    }

    /// Takes the repositories that were found anew.
    pub fn repos_rescanned(&mut self, paths: Vec<String>)
        requires
            old(self)@.wf(),
            old(self)@.graph.can_count(),
        ensures
            final(self)@ == old(self)@.repos_rescanned(paths.deep_view()),
            final(self)@.wf(),
    {
        proof {
            reveal(AppView::repos_rescanned);
        }
        self.replace_list(paths);
        self.rebuild_watcher();
        self.emit(Effect::Send(Action::PollLocal));
        self.sort_repos();
        self.sync_selection();
    }

    /// Forgets a repository that is gone.
    fn forget_repo(&mut self, path: &str)
        requires
            old(self)@.wf(),
        ensures
            final(self)@ == old(self)@.forget_repo(path@),
            final(self)@.repos == old(self)@.repos,
            final(self)@.graph == old(self)@.graph,
            final(self)@.wf(),
    {
        proof {
            reveal(AppView::forget_repo);
        }
        let is_shown = match &self.active_worktree {
            Some(w) => same_text(w.repo_id.0.as_str(), path),
            None => false,
        };
        self.forget_queries(path);
        if is_shown {
            self.leave_worktree();
        }
    }

    /// Forgets the repositories that are gone.
    fn forget_repos(&mut self, paths: &Vec<String>)
        requires
            old(self)@.wf(),
        ensures
            final(self)@ == old(self)@.forget_first(paths.deep_view(), paths@.len()),
            final(self)@.repos == old(self)@.repos,
            final(self)@.graph == old(self)@.graph,
            final(self)@.wf(),
    {
        let ghost s = self@;
        let ghost all = paths.deep_view();
        let mut i: usize = 0;
        while i < paths.len()
            invariant
                i <= paths@.len(),
                all == paths.deep_view(),
                self@ == s.forget_first(all, i as nat),
                self@.repos == s.repos,
                self@.graph == s.graph,
                self@.wf(),
            decreases paths@.len() - i,
        {
            assert(all[i as int] == paths@[i as int]@);
            self.forget_repo(paths[i].as_str());
            i = i + 1;
        }
    }

    /// Has the repositories queried that are new.
    fn announce_repos(&mut self, paths: &Vec<String>)
        requires
            old(self)@.wf(),
        ensures
            final(self)@ == old(self)@.announce_first(paths.deep_view(), paths@.len()),
            final(self)@.repos == old(self)@.repos,
            final(self)@.graph == old(self)@.graph,
            final(self)@.wf(),
    {
        let ghost s = self@;
        let ghost all = paths.deep_view();
        let mut i: usize = 0;
        while i < paths.len()
            invariant
                i <= paths@.len(),
                all == paths.deep_view(),
                self@ == s.announce_first(all, i as nat),
                self@.repos == s.repos,
                self@.graph == s.graph,
                self@.wf(),
            decreases paths@.len() - i,
        {
            assert(all[i as int] == paths@[i as int]@);
            let id = RepoId(paths[i].clone());
            self.emit(Effect::Send(Action::RefreshRepo(id)));
            i = i + 1;
        }
    }

    /// Selects a repository again.
    fn reselect(&mut self, path: &Option<String>)
        requires
            old(self)@.wf(),
        ensures
            final(self)@ == old(self)@.reselect(path.deep_view()),
            final(self)@.graph == old(self)@.graph,
            final(self)@.wf(),
    {
        if let Some(path) = path {
            let id = RepoId(path.clone());
            self.select_row_of(&id);
        }
    }

    /// Connects the list.
    fn connect_list(&mut self)
        requires
            old(self)@.wf(),
        ensures
            final(self)@ == old(self)@.with_connected_list(),
            final(self)@.graph == old(self)@.graph,
            final(self)@.wf(),
    {
        proof {
            reveal(AppView::with_connected_list);
        }
        self.repo_list.register_action_handler();
    }

    /// Does what follows when the list has changed.
    fn repos_changed(&mut self, diff: SyncDiff, selected: Option<String>)
        requires
            old(self)@.wf(),
            old(self)@.graph.can_count(),
        ensures
            final(self)@ == old(self)@.repos_changed(
                diff.added.deep_view(),
                diff.removed.deep_view(),
                selected.deep_view(),
            ),
            final(self)@.wf(),
    {
        proof {
            reveal(AppView::repos_changed);
        }
        self.connect_list();
        self.emit(Effect::PruneGithub(copy_texts(&diff.removed)));
        self.forget_repos(&diff.removed);
        self.sort_repos();
        self.reselect(&selected);
        self.rebuild_watcher();
        self.announce_repos(&diff.added);
        self.sync_selection();
    }

    /// The path of the repository that is selected.
    pub(crate) fn selected_path(&self) -> (r: Option<String>)
        requires
            self@.wf(),
        ensures
            r.deep_view() == self@.selected_path(),
    {
        match self.repo_list.selected_repo() {
            Some(entry) => Some(entry.path.clone()),
            None => None,
        }
    }

    /// Brings the list in step with what was found.
    fn take_found(&mut self, paths: Vec<String>) -> (r: SyncDiff)
        requires
            old(self)@.wf(),
        ensures
            final(self)@ == old(self)@.with_found(paths.deep_view()),
            r.added.deep_view() == unknown(paths.deep_view(), old(self)@.repos.repos),
            r.removed.deep_view() == gone(old(self)@.repos.repos, paths.deep_view()),
            final(self)@.graph == old(self)@.graph,
            final(self)@.wf(),
    {
        proof {
            reveal(AppView::with_found);
        }
        self.repo_list.sync_paths(paths)
    }

    /// Takes the repositories that a search for new ones found.
    pub fn discover_new_repos(&mut self, paths: Vec<String>, now: u128)
        requires
            old(self)@.wf(),
            old(self)@.graph.can_count(),
        ensures
            final(self)@ == old(self)@.discover_new_repos(paths.deep_view(), now),
            final(self)@.wf(),
    {
        proof {
            reveal(AppView::discover_new_repos);
        }
        let selected = self.selected_path();
        self.note_discovery(Some(now), false);
        let diff = self.take_found(paths);
        if !diff.is_empty() {
            self.repos_changed(diff, selected);
        }
    }

    /// Notes when new repositories were looked for, and whether they will be.
    fn note_discovery(&mut self, last: Option<u128>, pending: bool)
        requires
            old(self)@.wf(),
        ensures
            final(self)@ == (AppView {
                last_discovery: last,
                discovery_pending: pending,
                ..old(self)@
            }),
            final(self)@.wf(),
    {
        self.last_discovery = last;
        self.discovery_pending = pending;
    }

    /// Handles a change in a root directory.
    pub fn repos_root_changed(&mut self, now: u128)
        requires
            old(self)@.wf(),
        ensures
            final(self)@ == old(self)@.repos_root_changed(now),
            final(self)@.wf(),
    {
        proof {
            reveal(AppView::repos_root_changed);
        }
        let cooldown: u128 = self.config.discovery_cooldown_secs as u128 * 1_000_000_000;
        match crate::app::tracking::refresh_decision(self.last_discovery, now, cooldown) {
            crate::app::tracking::RefreshDecision::Now => {
                self.note_discovery(Some(now), false);
                self.emit(Effect::Discover);
            },
            crate::app::tracking::RefreshDecision::Later(wait) => {
                if !self.discovery_pending {
                    self.note_discovery(self.last_discovery, true);
                    self.emit(Effect::DiscoverLater(wait));
                }
            },
        }
    }
}

// ---------------------------------------------------------------------------
// Laws
// ---------------------------------------------------------------------------

/// During the cooldown at most one search for new repositories is put off,
/// however much changes in the root directories.
pub proof fn law_one_discovery_is_put_off(app: AppView, first: u128, second: u128)
    requires
        app.discovery_pending,
        app.repos_root_changed(first) == app,
    ensures
        app.repos_root_changed(second).outbox.len() <= app.outbox.len() + 1,
        app.repos_root_changed(second) != app ==> app.repos_root_changed(second).outbox
            == app.outbox.push(EffectView::Discover) && !app.repos_root_changed(
            second,
        ).discovery_pending,
{
    reveal(AppView::emit);
    reveal(AppView::repos_root_changed);
}

/// A removed repository leaves no trace: it is neither queried nor pinned any
/// more, and its name is excluded.
pub proof fn law_removed_repository_is_forgotten(app: AppView, id: Seq<char>)
    requires
        app.repos.resolve_index(id) is Some,
    ensures
        ({
            let after = app.remove_repo(id);
            let entry = app.repos.repos[app.repos.resolve_index(id)->0 as int];
            &&& !after.tracking.pending.contains(id)
            &&& !after.tracking.dirty.contains(id)
            &&& !after.tracking.scheduled.contains(id)
            &&& after.tracking.last_of(id) is None
            &&& !after.config.pinned_repos.contains(entry.path)
            &&& after.config.excluded_repos.contains(entry.name)
        }),
{
    reveal(AppView::with_excluded);
    reveal(AppView::without_repo);
    reveal(AppView::show_next_repo);
    reveal(AppView::emit);
    reveal(AppView::remove_repo);
    let entry = app.repos.repos[app.repos.resolve_index(id)->0 as int];
    lemma_without_text(app.config.pinned_repos, entry.path);
    if !app.config.excluded_repos.contains(entry.name) {
        let more = app.config.excluded_repos.push(entry.name);
        assert(more[app.config.excluded_repos.len() as int] == entry.name);
    }
}

proof fn lemma_without_text(list: Seq<Seq<char>>, text: Seq<char>)
    ensures
        !without_text(list, text).contains(text),
    decreases list.len(),
{
    if list.len() > 0 {
        lemma_without_text(list.drop_last(), text);
        let before = without_text(list.drop_last(), text);
        let now = without_text(list, text);
        if now.contains(text) {
            let i = choose|i: int| 0 <= i < now.len() && now[i] == text;
            if i < before.len() {
                assert(before[i] == text);
            }
        }
    }
}

/// A search that finds exactly the repositories in the list starts nothing and
/// changes nothing but the time of the last search.
pub proof fn law_discovery_without_news(app: AppView, paths: Seq<Seq<char>>, now: u128)
    requires
        app.repos.wf(),
        forall|p: Seq<char>| #[trigger]
            crate::repo_list::sync::listed(app.repos.repos, p) <==> paths.contains(p),
    ensures
        app.discover_new_repos(paths, now) == app.discovery_done(now),
{
    reveal(AppView::with_found);
    reveal(AppView::emit);
    reveal(AppView::discover_new_repos);
    crate::repo_list::sync::law_sync_keeps_what_is_there(app.repos, paths);
}

proof fn lemma_forget_first(app: AppView, paths: Seq<Seq<char>>, n: nat)
    requires
        n <= paths.len(),
    ensures
        app.forget_first(paths, n).repos == app.repos,
        app.forget_first(paths, n).config == app.config,
        app.forget_first(paths, n).sort_order == app.sort_order,
        forall|q: Seq<char>|
            !paths.contains(q) ==> #[trigger] same_tracking(
                app.forget_first(paths, n).tracking,
                app.tracking,
                q,
            ),
    decreases n,
{
    if n > 0 {
        lemma_forget_first(app, paths, (n - 1) as nat);
        reveal(AppView::forget_repo);
        reveal(AppView::leave_worktree);
        assert(paths.contains(paths[n - 1]));
        let before = app.forget_first(paths, (n - 1) as nat);
        assert forall|q: Seq<char>| !paths.contains(q) implies #[trigger] same_tracking(
            app.forget_first(paths, n).tracking,
            app.tracking,
            q,
        ) by {
            assert(same_tracking(before.tracking, app.tracking, q));
        }
    }
}

proof fn lemma_shown_anew(app: AppView, added: Seq<Seq<char>>)
    ensures
        ({
            let after = app.rebuild_watcher().announce_first(added, added.len()).sync_selection();
            &&& after.repos == app.repos
            &&& after.config == app.config
            &&& after.tracking == app.tracking
        }),
{
    let watched = app.rebuild_watcher();
    assert(watched.repos == app.repos && watched.config == app.config && watched.tracking
        == app.tracking) by {
        reveal(AppView::rebuild_watcher);
        reveal(AppView::emit);
    }
    lemma_announce_first(watched, added, added.len());
    let told = watched.announce_first(added, added.len());
    reveal(AppView::sync_selection);
    reveal(AppView::refresh_active_worktree);
    reveal(AppView::show_files);
    reveal(AppView::load_graph);
    reveal(AppView::emit);
}

proof fn lemma_announce_first(app: AppView, paths: Seq<Seq<char>>, n: nat)
    ensures
        app.announce_first(paths, n) == (AppView {
            outbox: app.announce_first(paths, n).outbox,
            ..app
        }),
    decreases n,
{
    if n > 0 {
        lemma_announce_first(app, paths, (n - 1) as nat);
        reveal(AppView::emit);
    }
}

/// The same is known of the queries of a repository.
pub open spec fn same_tracking(a: TrackingView, b: TrackingView, id: Seq<char>) -> bool {
    &&& a.pending.contains(id) == b.pending.contains(id)
    &&& a.dirty.contains(id) == b.dirty.contains(id)
    &&& a.scheduled.contains(id) == b.scheduled.contains(id)
    &&& a.last_of(id) == b.last_of(id)
}

/// A search for new repositories changes neither what is excluded nor what is
/// known of the queries of the repositories that are still there.
pub proof fn law_discovery_keeps_what_is_known(
    app: AppView,
    paths: Seq<Seq<char>>,
    now: u128,
    q: Seq<char>,
)
    requires
        paths.contains(q),
    ensures
        app.discover_new_repos(paths, now).config == app.config,
        same_tracking(app.discover_new_repos(paths, now).tracking, app.tracking, q),
{
    reveal(AppView::discover_new_repos);
    reveal(AppView::with_found);
    let removed = gone(app.repos.repos, paths);
    let added = unknown(paths, app.repos.repos);
    if added.len() > 0 || removed.len() > 0 {
        law_difference_is_exact(app.repos, paths, q);
        reveal(AppView::repos_changed);
        reveal(AppView::with_connected_list);
        reveal(AppView::emit);
        reveal(AppView::sort_repos);
        reveal(AppView::select_row_of);
        let found = app.discovery_done(now).with_found(paths);
        let told = found.with_connected_list().emit(EffectView::PruneGithub(removed));
        lemma_forget_first(told, removed, removed.len());
        let sorted = told.forget_first(removed, removed.len()).sort_repos();
        lemma_shown_anew(sorted.reselect(app.selected_path()), added);
        assert(same_tracking(
            told.forget_first(removed, removed.len()).tracking,
            told.tracking,
            q,
        ));
    }
}

/// A search for new repositories leaves the selection on the repository that was
/// selected, if it is still there. The rows that are then shown can be counted.
pub proof fn law_discovery_keeps_the_selection(
    app: AppView,
    paths: Seq<Seq<char>>,
    now: u128,
    p: Seq<char>,
)
    requires
        app.repos.wf(),
        app.selected_path() == Some(p),
        paths.contains(p),
        app.discover_new_repos(paths, now).repos.display_rows.len() <= usize::MAX,
        app.repos.selected_index() matches Some(i) && i < app.repos.repos.len(),
    ensures
        app.discover_new_repos(paths, now).selected_path() == Some(p),
{
    let removed = gone(app.repos.repos, paths);
    let added = unknown(paths, app.repos.repos);
    reveal(AppView::discover_new_repos);
    if added.len() == 0 && removed.len() == 0 {
        assert forall|q: Seq<char>| #[trigger] listed(app.repos.repos, q) <==> paths.contains(
            q,
        ) by {
            law_difference_is_exact(app.repos, paths, q);
        }
        law_discovery_without_news(app, paths, now);
    } else {
        law_sync_is_idempotent(app.repos, paths);
        reveal(AppView::with_found);
        reveal(AppView::repos_changed);
        reveal(AppView::with_connected_list);
        reveal(AppView::emit);
        reveal(AppView::sort_repos);
        reveal(AppView::select_row_of);
        let found = app.discovery_done(now).with_found(paths);
        let told = found.with_connected_list().emit(EffectView::PruneGithub(removed));
        lemma_forget_first(told, removed, removed.len());
        let forgotten = told.forget_first(removed, removed.len());
        let sorted = forgotten.sort_repos();
        lemma_shown_anew(sorted.reselect(Some(p)), added);
        let dirty_first = forgotten.sort_order == crate::app::SortOrder::DirtyFirst;
        let entries = forgotten.repos.repos;
        law_sorted_entries(entries, dirty_first);
        assert(listed(entries, p));
        let k = choose|k: int| 0 <= k < entries.len() && (#[trigger] entries[k]).path == p;
        assert(entries.contains(entries[k]));
        let list = sorted.repos;
        assert(list.repos == sorted_entries(entries, dirty_first));
        assert(list.repos.contains(entries[k]));
        assert(listed(list.repos, p));
        assert(list.display_rows == list.shown_rows());
        law_every_repository_has_a_row(list);
        law_lookup_finds_the_first(list, p);
        law_row_of_a_repository_selects_it(list, list.resolve_index(p)->0);
    }
}

} // verus!
