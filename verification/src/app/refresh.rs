//! When repositories are queried.
use vstd::prelude::*;
use vstd::string::*;
use crate::app::effect::{Effect, EffectView};
use crate::app::tracking::{refresh_decision, refresh_due, RefreshDecision, TrackingView};
use crate::app::{App, AppView};
use crate::repo_list::{RepoEntryView, RepoListView};
use crate::status::{
    graph_outdated, graph_status_changed, FileEntry, FileEntryView, RepoId, RepoStatus,
    RepoStatusView,
};

verus! {

/// How many nanoseconds some milliseconds are.
pub open spec fn millis(ms: u64) -> u128 {
    (ms * 1_000_000) as u128
}

/// The changed files of a repository, none where its state is not known.
pub open spec fn files_of(entry: RepoEntryView) -> Seq<FileEntryView> {
    match entry.status {
        Some(status) => status.files,
        None => Seq::empty(),
    }
}

impl AppView {
    /// Querying a repository at once, if it is in the list.
    #[verifier::opaque]
    pub open spec fn spawn_refresh_query(self, id: Seq<char>) -> AppView {
        match self.repos.resolve_index(id) {
            Some(_) => self.with_tracking(self.tracking.started(id)).emit(
                EffectView::QueryStatus { id, path: id, fetch: false, announce: false },
            ),
            None => self,
        }
    }

    /// The program with other tracking.
    pub open spec fn with_tracking(self, tracking: TrackingView) -> AppView {
        AppView { tracking, ..self }
    }

    /// When the query of a repository is due.
    pub open spec fn due(self, id: Seq<char>, now: u128) -> RefreshDecision {
        refresh_due(self.tracking.last_of(id), now, millis(self.config.refresh_cooldown_ms))
    }

    /// Querying a repository when it is due. While it is being queried the change
    /// is kept in mind; during the cooldown one query is put off, however often
    /// it is asked for.
    #[verifier::opaque]
    pub open spec fn schedule_refresh(self, id: Seq<char>, now: u128) -> AppView {
        if self.tracking.pending.contains(id) {
            self.with_tracking(self.tracking.marked(id))
        } else {
            match self.due(id, now) {
                RefreshDecision::Now => self.with_tracking(
                    self.tracking.taken_up(id),
                ).spawn_refresh_query(id),
                RefreshDecision::Later(wait) => if self.tracking.scheduled.contains(id) {
                    self
                } else {
                    self.with_tracking(self.tracking.put_off(id)).emit(
                        EffectView::RefreshLater { id, wait },
                    )
                },
            }
        }
    }

    /// A repository on disk has changed; a worktree stands for its repository.
    #[verifier::opaque]
    pub open spec fn refresh_repo(self, id: Seq<char>, now: u128) -> AppView {
        match self.repos.resolve_target(id) {
            Some(target) => self.schedule_refresh(
                self.repos.repos[target.parent_index as int].path,
                now,
            ),
            None => self.schedule_refresh(id, now),
        }
    }

    /// The cooldown of a query that was put off is over.
    #[verifier::opaque]
    pub open spec fn refresh_after_cooldown(self, id: Seq<char>, now: u128) -> AppView {
        if self.tracking.scheduled.contains(id) {
            self.with_tracking(self.tracking.taken_up(id)).schedule_refresh(id, now)
        } else {
            self
        }
    }

    /// The operation that runs in a repository is over.
    #[verifier::opaque]
    pub open spec fn end_git_op(self, id: Seq<char>) -> AppView {
        match self.repos.resolve_index(id) {
            Some(i) => AppView { repos: self.repos.set_git_op(i as int, false), ..self },
            None => self,
        }
    }

    /// A query has ended without a state.
    #[verifier::opaque]
    pub open spec fn status_query_done(self, id: Seq<char>, now: u128) -> AppView {
        let ended = self.with_tracking(self.tracking.finished(id, now)).end_git_op(id);
        if self.tracking.dirty.contains(id) {
            ended.schedule_refresh(id, now)
        } else {
            ended
        }
    }

    /// Showing the changed files of repository `i`.
    #[verifier::opaque]
    pub open spec fn show_files(self, i: int, id: Seq<char>) -> AppView {
        let entry = self.repos.repos[i];
        self.emit(EffectView::SetFiles { files: files_of(entry), name: entry.name, id })
    }

    /// The files of repository `i` shown anew, and its graph if it is out of date.
    #[verifier::opaque]
    pub open spec fn show_status(self, i: int, id: Seq<char>, outdated: bool) -> AppView {
        let entry = self.repos.repos[i];
        let shown = self.show_files(i, id);
        if outdated {
            shown.outdate_graph(entry.path, entry.name)
        } else {
            shown
        }
    }

    /// Repository `i` is the selected one, and no worktree or submodule is shown.
    pub open spec fn shows(self, i: usize) -> bool {
        self.repos.selected_index() == Some(i) && self.active_worktree is None
    }

    /// The graph is out of date for a new state of repository `i`.
    pub open spec fn is_outdated(self, i: usize, status: RepoStatusView) -> bool {
        graph_outdated(
            self.repos.repos[i as int].status,
            status,
            self.graph.options.branch_filter,
        )
    }

    /// The new state of repository `i` in the list.
    #[verifier::opaque]
    pub open spec fn with_status(self, i: usize, status: RepoStatusView) -> AppView {
        AppView { repos: self.repos.update_status(i as int, status), ..self }
    }

    /// The new state of a repository, if it is in the list. If it is the selected
    /// one, and no worktree or submodule is shown, its files and its graph are
    /// shown anew.
    #[verifier::opaque]
    pub open spec fn take_status(self, id: Seq<char>, status: RepoStatusView) -> AppView {
        match self.repos.resolve_index(id) {
            Some(i) => {
                let updated = self.with_status(i, status);
                if updated.shows(i) {
                    updated.show_status(i as int, id, self.is_outdated(i, status))
                } else {
                    updated
                }
            },
            None => self,
        }
    }

    /// A query has ended with a state.
    #[verifier::opaque]
    pub open spec fn repo_status_updated(
        self,
        id: Seq<char>,
        status: RepoStatusView,
        now: u128,
    ) -> AppView {
        let taken = self.with_tracking(self.tracking.finished(id, now)).take_status(id, status);
        if self.tracking.dirty.contains(id) {
            taken.schedule_refresh(id, now)
        } else {
            taken
        }
    }

    /// All of the first `n` repositories queried, with a fetch, for the user to
    /// see.
    pub open spec fn refresh_first(self, n: nat) -> AppView
        decreases n,
    {
        if n == 0 {
            self
        } else {
            let before = self.refresh_first((n - 1) as nat);
            let path = self.repos.repos[n - 1].path;
            AppView {
                repos: before.repos.set_git_op(n - 1, true),
                tracking: before.tracking.started(path),
                ..before
            }.emit(EffectView::QueryStatus { id: path, path, fetch: true, announce: true })
        }
    }

    /// Repository `i` queried, unless it is being queried or an operation runs in
    /// it.
    #[verifier::opaque]
    pub open spec fn poll_one(self, fetch: bool, i: int) -> AppView {
        let entry = self.repos.repos[i];
        if entry.git_op || self.tracking.pending.contains(entry.path) {
            self
        } else {
            self.with_tracking(self.tracking.started(entry.path)).emit(
                EffectView::QueryStatus {
                    id: entry.path,
                    path: entry.path,
                    fetch,
                    announce: false,
                },
            )
        }
    }

    /// The first `n` repositories queried, one after the other.
    pub open spec fn poll_first(self, fetch: bool, n: nat) -> AppView
        decreases n,
    {
        if n == 0 {
            self
        } else {
            self.poll_first(fetch, (n - 1) as nat).poll_one(fetch, n - 1)
        }
    }

    /// Querying the worktree or submodule that is shown, if one is.
    #[verifier::opaque]
    pub open spec fn refresh_active_worktree(self) -> AppView {
        match self.active_worktree {
            Some(w) => self.emit(
                EffectView::RefreshPathContext {
                    path: w.path,
                    repo_id: w.repo_id,
                    display_name: w.display_name,
                },
            ),
            None => self,
        }
    }

    /// Looking for terminal sessions, unless that is being done.
    #[verifier::opaque]
    pub open spec fn probe_liveness(self) -> AppView {
        if self.config.show_liveness && !self.liveness_probe_in_flight {
            AppView { liveness_probe_in_flight: true, ..self }.emit(EffectView::ProbeLiveness)
        } else {
            self
        }
    }

    /// The regular look at all repositories.
    #[verifier::opaque]
    pub open spec fn poll_local(self) -> AppView {
        let probed = self.probe_liveness();
        probed.poll_first(false, probed.repos.repos.len()).refresh_active_worktree()
    }

    /// The regular fetch of all repositories.
    #[verifier::opaque]
    pub open spec fn poll_fetch(self) -> AppView {
        self.poll_first(true, self.repos.repos.len())
    }
}

/// A copy of some changed files.
pub(crate) fn copy_files(files: &Vec<FileEntry>) -> (r: Vec<FileEntry>)
    ensures
        r.deep_view() == files.deep_view(),
{
    let r = files.clone();
    assert(r.deep_view() =~= files.deep_view());
    r
}

impl App {
    /// Queries a repository at once.
    fn spawn_refresh_query(&mut self, id: &RepoId)
        requires
            old(self)@.wf(),
        ensures
            final(self)@ == old(self)@.spawn_refresh_query(id@),
            final(self)@.repos == old(self)@.repos,
            final(self)@.graph == old(self)@.graph,
            final(self)@.wf(),
    {
        proof {
            reveal(AppView::spawn_refresh_query);
        }
        if self.repo_list.resolve_index(id).is_some() {
            self.start_query(id);
            self.emit(
                Effect::QueryStatus {
                    id: id.clone(),
                    path: id.0.clone(),
                    fetch: false,
                    announce: false,
                },
            );
        }
    }

    /// When the query of a repository is due.
    fn decide(&self, id: &RepoId, now: u128) -> (r: RefreshDecision)
        ensures
            r == self@.due(id@, now),
    {
        let cooldown: u128 = self.config.refresh_cooldown_ms as u128 * 1_000_000;
        assert(cooldown == millis(self.config.refresh_cooldown_ms));
        let last = self.tracking.last_refresh_of(id.0.as_str());
        refresh_decision(last, now, cooldown)
    }

    /// Keeps in mind that a repository has changed.
    fn mark_dirty(&mut self, id: &RepoId)
        requires
            old(self)@.wf(),
        ensures
            final(self)@ == old(self)@.with_tracking(old(self)@.tracking.marked(id@)),
            final(self)@.wf(),
    {
        self.tracking.mark(id);
    }

    /// Puts the query of a repository off no more.
    fn take_up_refresh(&mut self, id: &RepoId)
        requires
            old(self)@.wf(),
        ensures
            final(self)@ == old(self)@.with_tracking(old(self)@.tracking.taken_up(id@)),
            final(self)@.wf(),
    {
        self.tracking.take_up(id);
    }

    /// Puts the query of a repository off.
    fn put_off_refresh(&mut self, id: &RepoId)
        requires
            old(self)@.wf(),
        ensures
            final(self)@ == old(self)@.with_tracking(old(self)@.tracking.put_off(id@)),
            final(self)@.wf(),
    {
        self.tracking.put_off(id);
    }

    /// Notes that a repository is being queried.
    fn start_query(&mut self, id: &RepoId)
        requires
            old(self)@.wf(),
        ensures
            final(self)@ == old(self)@.with_tracking(old(self)@.tracking.started(id@)),
            final(self)@.wf(),
    {
        self.tracking.start(id);
    }

    /// Notes that the query of a repository has ended, and says whether it changed
    /// meanwhile.
    fn finish_query(&mut self, id: &RepoId, now: u128) -> (r: bool)
        requires
            old(self)@.wf(),
        ensures
            final(self)@ == old(self)@.with_tracking(old(self)@.tracking.finished(id@, now)),
            r == old(self)@.tracking.dirty.contains(id@),
            final(self)@.wf(),
    {
        self.tracking.finish(id, now)
    }

    /// Notes that repository `i` is being queried for the user to see.
    fn start_refresh(&mut self, i: usize, id: &RepoId)
        requires
            old(self)@.wf(),
            i < old(self)@.repos.repos.len(),
        ensures
            final(self)@ == (AppView {
                repos: old(self)@.repos.set_git_op(i as int, true),
                tracking: old(self)@.tracking.started(id@),
                ..old(self)@
            }),
            final(self)@.wf(),
    {
        self.repo_list.set_git_op(i, true);
        self.tracking.start(id);
    }

    /// Queries a repository when it is due.
    pub fn schedule_refresh(&mut self, id: &RepoId, now: u128)
        requires
            old(self)@.wf(),
        ensures
            final(self)@ == old(self)@.schedule_refresh(id@, now),
            final(self)@.wf(),
    {
        proof {
            reveal(AppView::schedule_refresh);
        }
        if self.tracking.is_pending(id) {
            self.mark_dirty(id);
            return;
        }
        match self.decide(id, now) {
            RefreshDecision::Now => {
                self.take_up_refresh(id);
                self.spawn_refresh_query(id);
            },
            RefreshDecision::Later(wait) => {
                if !self.tracking.is_scheduled(id) {
                    self.put_off_refresh(id);
                    self.emit(Effect::RefreshLater { id: id.clone(), wait });
                }
            },
        }
    }

    /// Handles a change of a repository on disk.
    pub fn refresh_repo(&mut self, id: &RepoId, now: u128)
        requires
            old(self)@.wf(),
        ensures
            final(self)@ == old(self)@.refresh_repo(id@, now),
            final(self)@.wf(),
    {
        proof {
            reveal(AppView::refresh_repo);
        }
        match self.repo_list.resolve_target(id) {
            Some(target) => {
                let parent = RepoId(self.repo_list.entry(target.parent_index).path.clone());
                self.schedule_refresh(&parent, now);
            },
            None => {
                self.schedule_refresh(id, now);
            },
        }
    }

    /// Handles the end of a cooldown.
    pub fn refresh_after_cooldown(&mut self, id: &RepoId, now: u128)
        requires
            old(self)@.wf(),
        ensures
            final(self)@ == old(self)@.refresh_after_cooldown(id@, now),
            final(self)@.wf(),
    {
        proof {
            reveal(AppView::refresh_after_cooldown);
        }
        if self.tracking.is_scheduled(id) {
            self.take_up_refresh(id);
            self.schedule_refresh(id, now);
        }
    }

    /// Ends the operation that runs in a repository.
    fn end_git_op(&mut self, id: &RepoId)
        requires
            old(self)@.wf(),
        ensures
            final(self)@ == old(self)@.end_git_op(id@),
            final(self)@.graph == old(self)@.graph,
            final(self)@.config == old(self)@.config,
            final(self)@.wf(),
    {
        proof {
            reveal(AppView::end_git_op);
        }
        if let Some(idx) = self.repo_list.resolve_index(id) {
            self.repo_list.set_git_op(idx, false);
        }
    }

    /// Handles the end of a query without a state.
    pub fn status_query_done(&mut self, id: &RepoId, now: u128)
        requires
            old(self)@.wf(),
        ensures
            final(self)@ == old(self)@.status_query_done(id@, now),
            final(self)@.wf(),
    {
        proof {
            reveal(AppView::status_query_done);
        }
        let is_dirty = self.finish_query(id, now);
        self.end_git_op(id);
        if is_dirty {
            self.schedule_refresh(id, now);
        }
    }

    /// Shows the changed files of a repository.
    pub(crate) fn show_files(&mut self, idx: usize, id: &RepoId)
        requires
            old(self)@.wf(),
            idx < old(self)@.repos.repos.len(),
        ensures
            final(self)@ == old(self)@.show_files(idx as int, id@),
            final(self)@.repos == old(self)@.repos,
            final(self)@.graph == old(self)@.graph,
            final(self)@.active_worktree == old(self)@.active_worktree,
            final(self)@.wf(),
    {
        proof {
            reveal(AppView::show_files);
        }
        let entry = self.repo_list.entry(idx);
        let files = match &entry.status {
            Some(status) => copy_files(&status.files),
            None => Vec::new(),
        };
        assert(files.deep_view() =~= files_of(entry.deep_view()));
        let name = entry.name.clone();
        self.emit(Effect::SetFiles { files, name, id: id.clone() });
    }

    /// Shows the files of a repository anew, and its graph if it is out of date.
    fn show_status(&mut self, idx: usize, id: &RepoId, outdated: bool)
        requires
            old(self)@.wf(),
            old(self)@.graph.can_count(),
            idx < old(self)@.repos.repos.len(),
        ensures
            final(self)@ == old(self)@.show_status(idx as int, id@, outdated),
            final(self)@.wf(),
    {
        proof {
            reveal(AppView::show_status);
        }
        self.show_files(idx, id);
        if outdated {
            let path = self.repo_list.entry(idx).path.clone();
            let name = self.repo_list.entry(idx).name.clone();
            self.outdate_graph(path, name.as_str());
        }
    }

    /// Whether the graph is out of date for the new state of a repository.
    fn is_outdated(&self, idx: usize, status: &RepoStatus) -> (r: bool)
        requires
            idx < self@.repos.repos.len(),
        ensures
            r == self@.is_outdated(idx, status@),
    {
        let filter = self.git_graph.branch_filter();
        graph_status_changed(self.repo_list.entry(idx).status.as_ref(), status, filter)
    }

    /// Whether a repository is the selected one, and no worktree or submodule is
    /// shown.
    fn shows(&self, idx: usize) -> (r: bool)
        ensures
            r == self@.shows(idx),
    {
        match self.repo_list.selected_index() {
            Some(i) => i == idx && self.active_worktree.is_none(),
            None => false,
        }
    }

    /// Notes the new state of a repository.
    fn set_status(&mut self, idx: usize, status: RepoStatus)
        requires
            old(self)@.wf(),
            idx < old(self)@.repos.repos.len(),
        ensures
            final(self)@ == old(self)@.with_status(idx, status@),
            final(self)@.repos.repos.len() == old(self)@.repos.repos.len(),
            final(self)@.graph == old(self)@.graph,
            final(self)@.active_worktree == old(self)@.active_worktree,
            final(self)@.wf(),
    {
        proof {
            reveal(AppView::with_status);
        }
        self.repo_list.update_status(idx, status);
    }

    /// Takes the new state of a repository, if it is in the list.
    fn take_status(&mut self, id: &RepoId, status: RepoStatus)
        requires
            old(self)@.wf(),
            old(self)@.graph.can_count(),
        ensures
            final(self)@ == old(self)@.take_status(id@, status@),
            final(self)@.wf(),
    {
        proof {
            reveal(AppView::take_status);
        }
        let idx: usize = match self.repo_list.resolve_index(id) {
            Some(i) => i,
            None => return,
        };
        let outdated = self.is_outdated(idx, &status);
        self.set_status(idx, status);
        if self.shows(idx) {
            self.show_status(idx, id, outdated);
        }
    }

    /// Handles the end of a query with a state.
    pub fn repo_status_updated(&mut self, id: &RepoId, status: RepoStatus, now: u128)
        requires
            old(self)@.wf(),
            old(self)@.graph.can_count(),
        ensures
            final(self)@ == old(self)@.repo_status_updated(id@, status@, now),
            final(self)@.wf(),
    {
        proof {
            reveal(AppView::repo_status_updated);
        }
        let is_dirty = self.finish_query(id, now);
        self.take_status(id, status);
        if is_dirty {
            self.schedule_refresh(id, now);
        }
    }

    /// Queries all repositories for the user to see.
    pub fn refresh_all(&mut self)
        requires
            old(self)@.wf(),
        ensures
            final(self)@ == old(self)@.refresh_first(old(self)@.repos.repos.len()),
            final(self)@.wf(),
    {
        let ghost s = self@;
        let total: usize = self.repo_list.len();
        let mut i: usize = 0;
        while i < total
            invariant
                i <= total,
                total == s.repos.repos.len(),
                self@ == s.refresh_first(i as nat),
                self@.wf(),
            decreases total - i,
        {
            proof {
                lemma_refresh_keeps_paths(s, i as nat);
            }
            let path = self.repo_list.entry(i).path.clone();
            let id = RepoId(path.clone());
            self.start_refresh(i, &id);
            self.emit(Effect::QueryStatus { id, path, fetch: true, announce: true });
            i = i + 1;
        }
    }

    /// Queries a repository, unless it is being queried or an operation runs in
    /// it.
    fn poll_one(&mut self, fetch: bool, i: usize)
        requires
            old(self)@.wf(),
            i < old(self)@.repos.repos.len(),
        ensures
            final(self)@ == old(self)@.poll_one(fetch, i as int),
            final(self)@.repos == old(self)@.repos,
            final(self)@.wf(),
    {
        proof {
            reveal(AppView::poll_one);
        }
        let path = self.repo_list.entry(i).path.clone();
        let id = RepoId(path.clone());
        if !self.repo_list.entry(i).git_op && !self.tracking.is_pending(&id) {
            self.start_query(&id);
            self.emit(Effect::QueryStatus { id, path, fetch, announce: false });
        }
    }

    /// Queries the repositories that are not being queried.
    fn poll(&mut self, fetch: bool)
        requires
            old(self)@.wf(),
        ensures
            final(self)@ == old(self)@.poll_first(fetch, old(self)@.repos.repos.len()),
            final(self)@.wf(),
    {
        let ghost s = self@;
        let total: usize = self.repo_list.len();
        let mut i: usize = 0;
        while i < total
            invariant
                i <= total,
                total == s.repos.repos.len(),
                self@ == s.poll_first(fetch, i as nat),
                self@.repos == s.repos,
                self@.wf(),
            decreases total - i,
        {
            self.poll_one(fetch, i);
            i = i + 1;
        }
    }

    /// Queries the worktree or submodule that is shown.
    pub(crate) fn refresh_active_worktree(&mut self)
        requires
            old(self)@.wf(),
        ensures
            final(self)@ == old(self)@.refresh_active_worktree(),
            final(self)@.repos == old(self)@.repos,
            final(self)@.graph == old(self)@.graph,
            final(self)@.wf(),
    {
        proof {
            reveal(AppView::refresh_active_worktree);
        }
        if let Some(w) = &self.active_worktree {
            let path = w.path.clone();
            let repo_id = w.repo_id.clone();
            let display_name = w.display_name.clone();
            self.emit(Effect::RefreshPathContext { path, repo_id, display_name });
        }
    }

    /// Looks for terminal sessions, unless that is being done.
    fn probe_liveness(&mut self)
        requires
            old(self)@.wf(),
        ensures
            final(self)@ == old(self)@.probe_liveness(),
            final(self)@.repos == old(self)@.repos,
            final(self)@.wf(),
    {
        proof {
            reveal(AppView::probe_liveness);
        }
        if self.config.show_liveness && !self.liveness_probe_in_flight {
            self.liveness_probe_in_flight = true;
            self.emit(Effect::ProbeLiveness);
        }
    }

    /// Does the regular look at all repositories.
    pub fn poll_local(&mut self)
        requires
            old(self)@.wf(),
        ensures
            final(self)@ == old(self)@.poll_local(),
            final(self)@.wf(),
    {
        proof {
            reveal(AppView::poll_local);
        }
        self.probe_liveness();
        self.poll(false);
        self.refresh_active_worktree();
    }

    /// Does the regular fetch of all repositories.
    pub fn poll_fetch(&mut self)
        requires
            old(self)@.wf(),
        ensures
            final(self)@ == old(self)@.poll_fetch(),
            final(self)@.wf(),
    {
        proof {
            reveal(AppView::poll_fetch);
        }
        self.poll(true);
    }
}

proof fn lemma_refresh_keeps_paths(app: AppView, n: nat)
    requires
        n <= app.repos.repos.len(),
    ensures
        app.refresh_first(n).repos.repos.len() == app.repos.repos.len(),
        forall|i: int|
            0 <= i < app.repos.repos.len() ==> (#[trigger] app.refresh_first(
                n,
            ).repos.repos[i]).path == app.repos.repos[i].path,
    decreases n,
{
    reveal(AppView::emit);
    if n > 0 {
        lemma_refresh_keeps_paths(app, (n - 1) as nat);
        let before = app.refresh_first((n - 1) as nat);
        assert forall|i: int| 0 <= i < app.repos.repos.len() implies (#[trigger] app.refresh_first(
            n,
        ).repos.repos[i]).path == app.repos.repos[i].path by {
            assert(before.repos.repos[i].path == app.repos.repos[i].path);
        }
    }
}

// ---------------------------------------------------------------------------
// Laws
// ---------------------------------------------------------------------------

/// A change that is reported while a repository is being queried is not lost:
/// when the query ends, with or without a state, a refresh is asked for, either
/// at once or for when the cooldown is over.
pub proof fn law_change_during_query_is_kept(app: AppView, id: Seq<char>, at: u128, now: u128)
    requires
        app.tracking.pending.contains(id),
        app.repos.resolve_index(id) is Some,
    ensures
        ({
            let marked = app.schedule_refresh(id, at);
            let done = marked.status_query_done(id, now);
            &&& marked.outbox == app.outbox
            &&& done.tracking.pending.contains(id) || done.tracking.scheduled.contains(id)
            &&& !done.tracking.dirty.contains(id)
        }),
{
    reveal(AppView::spawn_refresh_query);
    reveal(AppView::end_git_op);
    reveal(AppView::emit);
    reveal(AppView::schedule_refresh);
    reveal(AppView::status_query_done);
    let marked = app.schedule_refresh(id, at);
    let ended = marked.with_tracking(marked.tracking.finished(id, now));
    lemma_git_op_keeps_index(ended.repos, id);
}

proof fn lemma_git_op_keeps_index(list: RepoListView, id: Seq<char>)
    requires
        list.resolve_index(id) is Some,
    ensures
        list.set_git_op(list.resolve_index(id)->0 as int, false).resolve_index(id)
            == list.resolve_index(id),
{
    let i = list.resolve_index(id)->0 as int;
    let after = list.set_git_op(i, false);
    crate::repo_list::lemma_same_paths(list.repos, after.repos, id);
}

/// However often a refresh is asked for during a query, one mark stands for all
/// of them, and nothing is started.
pub proof fn law_refreshes_coalesce_during_query(
    app: AppView,
    id: Seq<char>,
    first: u128,
    second: u128,
)
    requires
        app.tracking.pending.contains(id),
    ensures
        app.schedule_refresh(id, first).schedule_refresh(id, second) == app.schedule_refresh(
            id,
            first,
        ),
        app.schedule_refresh(id, first).outbox == app.outbox,
{
    reveal(AppView::emit);
    reveal(AppView::schedule_refresh);
    let once = app.schedule_refresh(id, first);
    assert(once.tracking.dirty.insert(id) =~= once.tracking.dirty);
}

/// During the cooldown at most one query is put off: once one is, asking again
/// changes nothing until the cooldown is over.
pub proof fn law_one_refresh_is_put_off(app: AppView, id: Seq<char>, first: u128, second: u128)
    requires
        !app.tracking.pending.contains(id),
        app.due(id, first) is Later,
        app.due(id, second) is Later,
    ensures
        app.schedule_refresh(id, first).schedule_refresh(id, second) == app.schedule_refresh(
            id,
            first,
        ),
        app.schedule_refresh(id, first).tracking.scheduled.contains(id),
{
    reveal(AppView::spawn_refresh_query);
    reveal(AppView::emit);
    reveal(AppView::schedule_refresh);
}

/// A refresh of a repository that is not in the list starts no query.
pub proof fn law_unknown_repository_is_not_queried(app: AppView, id: Seq<char>, now: u128)
    requires
        app.repos.resolve_index(id) is None,
        app.tracking.last_of(id) is None,
    ensures
        app.schedule_refresh(id, now).outbox == app.outbox,
        app.schedule_refresh(id, now).tracking.pending == app.tracking.pending,
{
    reveal(AppView::spawn_refresh_query);
    reveal(AppView::emit);
    reveal(AppView::schedule_refresh);
}

/// No repository is queried twice at a time: a poll, like a refresh, starts no
/// query of one that is being queried, nor of one in which an operation runs.
pub proof fn law_poll_starts_no_second_query(app: AppView, fetch: bool, n: nat)
    requires
        n <= app.repos.repos.len(),
    ensures
        forall|k: int|
            app.outbox.len() <= k < app.poll_first(fetch, n).outbox.len()
                ==> (#[trigger] app.poll_first(fetch, n).outbox[k] matches EffectView::QueryStatus {
                id,
                path,
                fetch: f,
                announce,
            } && !app.tracking.pending.contains(id) && id == path && f == fetch && !announce
                && app.poll_first(fetch, n).tracking.pending.contains(id)),
        app.poll_first(fetch, n).outbox.len() >= app.outbox.len(),
        forall|p: Seq<char>| #[trigger]
            app.tracking.pending.contains(p) ==> app.poll_first(
                fetch,
                n,
            ).tracking.pending.contains(p),
        app.poll_first(fetch, n).repos == app.repos,
    decreases n,
{
    reveal(AppView::poll_one);
    reveal(AppView::emit);
    if n > 0 {
        law_poll_starts_no_second_query(app, fetch, (n - 1) as nat);
        let before = app.poll_first(fetch, (n - 1) as nat);
        let after = app.poll_first(fetch, n);
        assert(after == before.poll_one(fetch, n - 1));
        assert forall|k: int| app.outbox.len() <= k < after.outbox.len() implies (
        #[trigger] after.outbox[k] matches EffectView::QueryStatus {
            id,
            path,
            fetch: f,
            announce,
        } && !app.tracking.pending.contains(id) && id == path && f == fetch && !announce
            && after.tracking.pending.contains(id)) by {
            if k < before.outbox.len() {
                assert(after.outbox[k] == before.outbox[k]);
            }
        }
    }
}

/// After a regular look at all repositories each of them is being queried, or an
/// operation runs in it.
pub proof fn law_poll_reaches_every_repository(app: AppView, fetch: bool, n: nat, i: int)
    requires
        0 <= i < n <= app.repos.repos.len(),
    ensures
        app.repos.repos[i].git_op || app.poll_first(fetch, n).tracking.pending.contains(
            app.repos.repos[i].path,
        ),
    decreases n,
{
    reveal(AppView::poll_one);
    reveal(AppView::emit);
    law_poll_starts_no_second_query(app, fetch, (n - 1) as nat);
    if i < n - 1 {
        law_poll_reaches_every_repository(app, fetch, (n - 1) as nat, i);
    }
}

} // verus!
