//! The list of repositories: what it holds, and what is selected in it.
use vstd::prelude::*;
use vstd::string::*;
use vstd::hash_set::StringHashSet;
use crate::paths::{file_name, name_of};
use crate::repo_list::label::{display_path, shown_path};
use crate::screen::{ListState, Rect, Theme};
use crate::status::{
    RepoId, RepoStatus, RepoStatusView, WorktreeEntry, WorktreeEntryView,
};

pub mod input;
pub mod label;
pub mod render;
pub mod sort;
pub mod sync;

verus! {

/// A repository in the list.
pub struct RepoEntry {
    pub path: String,
    pub name: String,
    /// How the path is shown.
    pub display: String,
    pub status: Option<RepoStatus>,
    /// Whether a git operation of the user's runs in it.
    pub git_op: bool,
}

/// What an entry holds.
#[verifier::ext_equal]
pub struct RepoEntryView {
    pub path: Seq<char>,
    pub name: Seq<char>,
    pub display: Seq<char>,
    pub status: Option<RepoStatusView>,
    pub git_op: bool,
}

impl DeepView for RepoEntry {
    type V = RepoEntryView;

    open spec fn deep_view(&self) -> RepoEntryView {
        RepoEntryView {
            path: self.path@,
            name: self.name@,
            display: self.display@,
            status: self.status.deep_view(),
            git_op: self.git_op,
        }
    }
}

/// A row of the list: a repository, or a worktree or a stash of one.
#[derive(Clone, Copy, PartialEq, Eq, Structural, Debug)]
pub enum DisplayRow {
    Repo(usize),
    Worktree(usize, usize),
    Stash(usize, usize),
}

/// The list of repositories.
pub struct RepoList {
    pub repos: Vec<RepoEntry>,
    pub display_rows: Vec<DisplayRow>,
    /// The repositories whose worktrees are shown.
    pub expanded_repos: StringHashSet,
    /// The repositories whose stashes are shown.
    pub expanded_stashes: StringHashSet,
    pub state: ListState,
    pub render_area: Rect,
    pub focused: bool,
    /// Whether there is someone to answer requests.
    pub connected: bool,
    /// The directories from which paths are shown.
    pub roots: Vec<String>,
    /// The directories in which a terminal session runs.
    pub live_panes: Vec<String>,
    pub theme: Theme,
}

/// What the list holds.
#[verifier::ext_equal]
pub struct RepoListView {
    pub repos: Seq<RepoEntryView>,
    pub display_rows: Seq<DisplayRow>,
    pub expanded: Set<Seq<char>>,
    pub expanded_stashes: Set<Seq<char>>,
    pub state: ListState,
    pub render_area: Rect,
    pub focused: bool,
    pub connected: bool,
    pub roots: Seq<Seq<char>>,
    pub live_panes: Seq<Seq<char>>,
    pub theme: Theme,
}

impl View for RepoList {
    type V = RepoListView;

    open spec fn view(&self) -> RepoListView {
        RepoListView {
            repos: self.repos.deep_view(),
            display_rows: self.display_rows@,
            expanded: self.expanded_repos@,
            expanded_stashes: self.expanded_stashes@,
            state: self.state,
            render_area: self.render_area,
            focused: self.focused,
            connected: self.connected,
            roots: self.roots.deep_view(),
            live_panes: self.live_panes.deep_view(),
            theme: self.theme,
        }
    }
}

// ---------------------------------------------------------------------------
// Rows
// ---------------------------------------------------------------------------

/// The worktrees of a repository, none where its state is not known.
pub open spec fn worktrees(entry: RepoEntryView) -> Seq<WorktreeEntryView> {
    match entry.status {
        Some(status) => status.worktree_info,
        None => Seq::empty(),
    }
}

/// How many stashes a repository is known to have.
pub open spec fn stash_count(entry: RepoEntryView) -> nat {
    match entry.status {
        Some(status) => status.stashes.len(),
        None => 0,
    }
}

/// The rows of repository `i`: itself, its worktrees if they are shown, and its
/// stashes if they are.
pub open spec fn rows_of_repo(
    entry: RepoEntryView,
    i: int,
    with_worktrees: bool,
    with_stashes: bool,
) -> Seq<DisplayRow> {
    let worktree_rows = if with_worktrees {
        Seq::new(worktrees(entry).len(), |w: int| DisplayRow::Worktree(i as usize, w as usize))
    } else {
        Seq::empty()
    };
    let stash_rows = if with_stashes {
        Seq::new(stash_count(entry), |s: int| DisplayRow::Stash(i as usize, s as usize))
    } else {
        Seq::empty()
    };
    seq![DisplayRow::Repo(i as usize)] + worktree_rows + stash_rows
}

/// The rows of the first `n` repositories.
pub open spec fn rows_upto(
    repos: Seq<RepoEntryView>,
    expanded: Set<Seq<char>>,
    stashes: Set<Seq<char>>,
    n: nat,
) -> Seq<DisplayRow>
    decreases n,
{
    if n == 0 {
        Seq::empty()
    } else {
        let entry = repos[n - 1];
        rows_upto(repos, expanded, stashes, (n - 1) as nat) + rows_of_repo(
            entry,
            n - 1,
            expanded.contains(entry.path),
            stashes.contains(entry.path),
        )
    }
}

/// What a row stands for exists.
pub open spec fn row_fits(repos: Seq<RepoEntryView>, row: DisplayRow) -> bool {
    match row {
        DisplayRow::Repo(i) => i < repos.len(),
        DisplayRow::Worktree(i, w) => i < repos.len() && w < worktrees(repos[i as int]).len(),
        DisplayRow::Stash(i, s) => i < repos.len() && s < stash_count(repos[i as int]),
    }
}

/// The repository that a row belongs to.
pub open spec fn repo_of_row(row: DisplayRow) -> usize {
    match row {
        DisplayRow::Repo(i) => i,
        DisplayRow::Worktree(i, _) => i,
        DisplayRow::Stash(i, _) => i,
    }
}

/// How many rows stand before `row`.
pub open spec fn before_row(rows: Seq<DisplayRow>, row: DisplayRow) -> nat
    decreases rows.len(),
{
    if rows.len() == 0 || rows[0] == row {
        0
    } else {
        1 + before_row(rows.drop_first(), row)
    }
}

/// How many repositories stand before the one with this path.
pub open spec fn before_path(repos: Seq<RepoEntryView>, path: Seq<char>) -> nat
    decreases repos.len(),
{
    if repos.len() == 0 || repos[0].path == path {
        0
    } else {
        1 + before_path(repos.drop_first(), path)
    }
}

/// How many worktrees stand before the one with this path.
pub open spec fn before_worktree(infos: Seq<WorktreeEntryView>, path: Seq<char>) -> nat
    decreases infos.len(),
{
    if infos.len() == 0 || infos[0].path == path {
        0
    } else {
        1 + before_worktree(infos.drop_first(), path)
    }
}

/// How many repositories stand before the one with a worktree at this path.
pub open spec fn before_owner(repos: Seq<RepoEntryView>, path: Seq<char>) -> nat
    decreases repos.len(),
{
    if repos.len() == 0 || before_worktree(worktrees(repos[0]), path) < worktrees(repos[0]).len() {
        0
    } else {
        1 + before_owner(repos.drop_first(), path)
    }
}

/// Where a git operation runs, and what is known of that place.
pub struct Target {
    pub exec_path: String,
    pub branch: String,
    pub ahead: usize,
    pub behind: usize,
    pub has_submodules: bool,
    /// The repository in whose row the operation is shown.
    pub parent_index: usize,
}

/// What a target holds.
#[verifier::ext_equal]
pub struct TargetView {
    pub exec_path: Seq<char>,
    pub branch: Seq<char>,
    pub ahead: usize,
    pub behind: usize,
    pub has_submodules: bool,
    pub parent_index: usize,
}

impl DeepView for Target {
    type V = TargetView;

    open spec fn deep_view(&self) -> TargetView {
        TargetView {
            exec_path: self.exec_path@,
            branch: self.branch@,
            ahead: self.ahead,
            behind: self.behind,
            has_submodules: self.has_submodules,
            parent_index: self.parent_index,
        }
    }
}

/// The name of a repository: that of its directory, or else its path.
pub open spec fn repo_name(path: Seq<char>) -> Seq<char> {
    match name_of(path) {
        Some(name) => name,
        None => path,
    }
}

/// A repository of which nothing is known but its path.
pub open spec fn new_entry(path: Seq<char>, roots: Seq<Seq<char>>) -> RepoEntryView {
    RepoEntryView {
        path,
        name: repo_name(path),
        display: shown_path(path, roots),
        status: None,
        git_op: false,
    }
}

impl RepoListView {
    /// A list of repositories of which nothing is known yet, the first selected.
    pub open spec fn fresh(
        paths: Seq<Seq<char>>,
        roots: Seq<Seq<char>>,
        theme: Theme,
    ) -> RepoListView {
        RepoListView {
            repos: Seq::new(paths.len(), |i: int| new_entry(paths[i], roots)),
            display_rows: Seq::empty(),
            expanded: Set::empty(),
            expanded_stashes: Set::empty(),
            state: if paths.len() > 0 {
                ListState::initial().selecting(Some(0))
            } else {
                ListState::initial()
            },
            render_area: Rect::nowhere(),
            focused: false,
            connected: false,
            roots,
            live_panes: Seq::empty(),
            theme,
        }.refreshed()
    }

    /// The rows that are to be shown.
    pub open spec fn shown_rows(self) -> Seq<DisplayRow> {
        rows_upto(self.repos, self.expanded, self.expanded_stashes, self.repos.len())
    }

    /// What holds of the list between any two calls: the rows are those to be
    /// shown.
    pub open spec fn fits_together(self) -> bool {
        &&& self.state.in_bounds()
        &&& self.display_rows =~= self.shown_rows()
    }

    /// The list fits together.
    pub closed spec fn wf(self) -> bool {
        self.fits_together()
    }

    /// What `wf` stands for.
    pub proof fn lemma_wf(self)
        ensures
            self.wf() == self.fits_together(),
    {
    }

    /// The list with its rows as they are to be shown.
    pub open spec fn refreshed(self) -> RepoListView {
        RepoListView { display_rows: self.shown_rows(), ..self }
    }

    /// The row that is selected, where one is.
    pub open spec fn selected_row(self) -> Option<DisplayRow> {
        match self.state.selected {
            Some(i) if i < self.display_rows.len() => Some(self.display_rows[i as int]),
            _ => None,
        }
    }

    /// The repository that the selected row belongs to.
    pub open spec fn selected_index(self) -> Option<usize> {
        match self.selected_row() {
            Some(row) => Some(repo_of_row(row)),
            None => None,
        }
    }

    /// The repository with this path.
    pub open spec fn resolve_index(self, path: Seq<char>) -> Option<usize> {
        let i = before_path(self.repos, path);
        if i < self.repos.len() {
            Some(i as usize)
        } else {
            None
        }
    }

    /// The repository and the worktree at this path.
    pub open spec fn resolve_worktree(self, path: Seq<char>) -> Option<(int, int)> {
        let i = before_owner(self.repos, path) as int;
        if i < self.repos.len() {
            Some((i, before_worktree(worktrees(self.repos[i]), path) as int))
        } else {
            None
        }
    }

    /// The place with this path: a repository, or else a worktree, which counts
    /// as one without submodules.
    pub open spec fn resolve_target(self, path: Seq<char>) -> Option<TargetView> {
        match self.resolve_index(path) {
            Some(i) => {
                let entry = self.repos[i as int];
                Some(
                    match entry.status {
                        Some(status) => TargetView {
                            exec_path: entry.path,
                            branch: status.branch,
                            ahead: status.ahead,
                            behind: status.behind,
                            has_submodules: status.has_submodules,
                            parent_index: i,
                        },
                        None => TargetView {
                            exec_path: entry.path,
                            branch: Seq::empty(),
                            ahead: 0,
                            behind: 0,
                            has_submodules: false,
                            parent_index: i,
                        },
                    },
                )
            },
            None => match self.resolve_worktree(path) {
                Some((i, w)) => {
                    let worktree = worktrees(self.repos[i])[w];
                    Some(
                        TargetView {
                            exec_path: worktree.path,
                            branch: worktree.branch,
                            ahead: worktree.ahead,
                            behind: worktree.behind,
                            has_submodules: false,
                            parent_index: i as usize,
                        },
                    )
                },
                None => None,
            },
        }
    }

    /// The selected worktree, with the path of its repository.
    pub open spec fn selected_worktree(self) -> Option<(Seq<char>, WorktreeEntryView)> {
        match self.selected_row() {
            Some(DisplayRow::Worktree(i, w)) => Some(
                (self.repos[i as int].path, worktrees(self.repos[i as int])[w as int]),
            ),
            _ => None,
        }
    }

    /// The repository, the path and the branch of the worktree at this path.
    pub open spec fn worktree_remove_target(self, path: Seq<char>) -> Option<
        (Seq<char>, Seq<char>, Seq<char>),
    > {
        match self.resolve_worktree(path) {
            Some((i, w)) => {
                let worktree = worktrees(self.repos[i])[w];
                Some((self.repos[i].path, worktree.path, worktree.branch))
            },
            None => None,
        }
    }

    /// Selecting the row of repository `i`.
    pub open spec fn select_repo_row(self, i: int) -> RepoListView {
        let at = before_row(self.display_rows, DisplayRow::Repo(i as usize));
        if at < self.display_rows.len() {
            RepoListView { state: self.state.selecting(Some(at as usize)), ..self }
        } else {
            self
        }
    }

    /// The new state of repository `i`, which ends the operation that ran in it.
    pub open spec fn update_status(self, i: int, status: RepoStatusView) -> RepoListView {
        RepoListView {
            repos: self.repos.update(
                i,
                RepoEntryView { status: Some(status), git_op: false, ..self.repos[i] },
            ),
            ..self
        }.refreshed()
    }

    /// A repository at the end of the list.
    pub open spec fn push_repo(self, entry: RepoEntryView) -> RepoListView {
        RepoListView { repos: self.repos.push(entry), ..self }.refreshed()
    }

    /// The place at which the selection goes on when repository `i` is taken out.
    pub open spec fn next_after_removal(self, i: int) -> int {
        if i < self.repos.len() - 1 {
            i
        } else if self.repos.len() > 1 {
            self.repos.len() - 2
        } else {
            0
        }
    }

    /// The list without repository `i`: the next one is selected, or the last
    /// one, and with none left nothing is.
    pub open spec fn remove_repo(self, i: int) -> RepoListView {
        let rest = RepoListView { repos: self.repos.remove(i), ..self }.refreshed();
        if rest.repos.len() == 0 {
            RepoListView { state: rest.state.selecting(None), ..rest }
        } else {
            rest.select_repo_row(self.next_after_removal(i))
        }
    }

    /// Whether a git operation runs in repository `i`.
    pub open spec fn set_git_op(self, i: int, running: bool) -> RepoListView {
        RepoListView {
            repos: self.repos.update(i, RepoEntryView { git_op: running, ..self.repos[i] }),
            ..self
        }
    }
}

pub proof fn lemma_rows_upto(
    repos: Seq<RepoEntryView>,
    expanded: Set<Seq<char>>,
    stashes: Set<Seq<char>>,
    n: nat,
)
    requires
        n <= repos.len() <= usize::MAX,
        forall|i: int|
            0 <= i < repos.len() ==> worktrees(#[trigger] repos[i]).len() <= usize::MAX
                && stash_count(repos[i]) <= usize::MAX,
    ensures
        forall|k: int|
            0 <= k < rows_upto(repos, expanded, stashes, n).len() ==> row_fits(
                repos,
                #[trigger] rows_upto(repos, expanded, stashes, n)[k],
            ),
        forall|i: int|
            0 <= i < n ==> #[trigger] rows_upto(repos, expanded, stashes, n).contains(
                DisplayRow::Repo(i as usize),
            ),
    decreases n,
{
    if n > 0 {
        lemma_rows_upto(repos, expanded, stashes, (n - 1) as nat);
        let before = rows_upto(repos, expanded, stashes, (n - 1) as nat);
        let entry = repos[n - 1];
        let own = rows_of_repo(
            entry,
            n - 1,
            expanded.contains(entry.path),
            stashes.contains(entry.path),
        );
        let all = rows_upto(repos, expanded, stashes, n);
        assert forall|k: int| 0 <= k < all.len() implies row_fits(repos, #[trigger] all[k]) by {
            if k < before.len() {
                assert(all[k] == before[k]);
            } else {
                assert(all[k] == own[k - before.len()]);
            }
        }
        assert forall|i: int| 0 <= i < n implies #[trigger] all.contains(
            DisplayRow::Repo(i as usize),
        ) by {
            if i < n - 1 {
                assert(before.contains(DisplayRow::Repo(i as usize)));
                let k = choose|k: int|
                    0 <= k < before.len() && before[k] == DisplayRow::Repo(i as usize);
                assert(all[k] == DisplayRow::Repo(i as usize));
            } else {
                assert(all[before.len() as int] == DisplayRow::Repo(i as usize));
            }
        }
    }
}

proof fn lemma_before_path(repos: Seq<RepoEntryView>, path: Seq<char>)
    ensures
        before_path(repos, path) <= repos.len(),
        before_path(repos, path) < repos.len() ==> repos[before_path(repos, path) as int].path
            == path,
        forall|i: int| 0 <= i < before_path(repos, path) ==> (#[trigger] repos[i]).path != path,
    decreases repos.len(),
{
    if repos.len() > 0 && repos[0].path != path {
        let rest = repos.drop_first();
        lemma_before_path(rest, path);
        assert forall|i: int| 0 <= i < before_path(repos, path) implies (#[trigger] repos[i]).path
            != path by {
            if i > 0 {
                assert(rest[i - 1] == repos[i]);
            }
        }
    }
}

proof fn lemma_before_path_is(repos: Seq<RepoEntryView>, path: Seq<char>, n: nat)
    requires
        n <= repos.len(),
        forall|i: int| 0 <= i < n ==> (#[trigger] repos[i]).path != path,
        n < repos.len() ==> repos[n as int].path == path,
    ensures
        before_path(repos, path) == n,
{
    lemma_before_path(repos, path);
    let m = before_path(repos, path);
    if m < n {
        assert(repos[m as int].path != path);
    }
    if n < m {
        assert(repos[n as int].path != path);
    }
}

/// Lists with the same paths find a path at the same place.
pub proof fn lemma_same_paths(a: Seq<RepoEntryView>, b: Seq<RepoEntryView>, path: Seq<char>)
    requires
        a.len() == b.len(),
        forall|i: int| 0 <= i < a.len() ==> (#[trigger] a[i]).path == b[i].path,
    ensures
        before_path(a, path) == before_path(b, path),
{
    lemma_before_path(a, path);
    let n = before_path(a, path);
    assert forall|i: int| 0 <= i < n implies (#[trigger] b[i]).path != path by {
        assert(a[i].path == b[i].path);
    }
    if n < a.len() {
        assert(a[n as int].path == b[n as int].path);
    }
    lemma_before_path_is(b, path, n);
}

impl RepoList {
    /// The view of the rows is bounded by the machine: what rows stand for exists,
    /// and every repository has a row.
    pub proof fn lemma_rows(&self)
        requires
            self@.wf(),
        ensures
            self@.display_rows.len() <= usize::MAX,
            forall|k: int|
                0 <= k < self@.display_rows.len() ==> row_fits(
                    self@.repos,
                    #[trigger] self@.display_rows[k],
                ),
            forall|i: int|
                0 <= i < self@.repos.len() ==> #[trigger] self@.display_rows.contains(
                    DisplayRow::Repo(i as usize),
                ),
    {
        let repos = self@.repos;
        assert(self.repos.len() == repos.len());
        assert(self.display_rows.len() == self@.display_rows.len());
        assert forall|i: int| 0 <= i < repos.len() implies worktrees(#[trigger] repos[i]).len()
            <= usize::MAX && stash_count(repos[i]) <= usize::MAX by {
            assert(repos[i] == self.repos@[i].deep_view());
            if let Some(status) = self.repos@[i].status {
                assert(status.worktree_info.len() == status.worktree_info.deep_view().len());
                assert(status.stashes.len() == status.stashes.deep_view().len());
            }
        }
        lemma_rows_upto(repos, self@.expanded, self@.expanded_stashes, repos.len());
    }

    /// A list of repositories of which nothing is known yet, the first selected.
    pub fn new(paths: Vec<String>, roots: Vec<String>, theme: Theme) -> (r: RepoList)
        ensures
            r@ == RepoListView::fresh(paths.deep_view(), roots.deep_view(), theme),
            r@.wf(),
    {
        let ghost want = Seq::new(
            paths@.len(),
            |i: int| new_entry(paths.deep_view()[i], roots.deep_view()),
        );
        let mut repos: Vec<RepoEntry> = Vec::new();
        let mut i: usize = 0;
        while i < paths.len()
            invariant
                i <= paths@.len(),
                want == Seq::new(
                    paths@.len(),
                    |i: int| new_entry(paths.deep_view()[i], roots.deep_view()),
                ),
                repos.deep_view() =~= want.take(i as int),
            decreases paths@.len() - i,
        {
            let ghost before = repos.deep_view();
            let entry = make_entry(paths[i].clone(), &roots);
            assert(paths.deep_view()[i as int] == paths@[i as int]@);
            assert(entry.deep_view() == want[i as int]);
            repos.push(entry);
            assert(repos.deep_view() =~= before.push(entry.deep_view()));
            i = i + 1;
        }
        assert(repos.deep_view() =~= want);
        let mut state = ListState::new();
        if repos.len() > 0 {
            state.select(Some(0));
        }
        let mut list = RepoList {
            repos,
            display_rows: Vec::new(),
            expanded_repos: StringHashSet::new(),
            expanded_stashes: StringHashSet::new(),
            state,
            render_area: Rect::empty(),
            focused: false,
            connected: false,
            roots,
            live_panes: Vec::new(),
            theme,
        };
        list.rebuild_display_rows();
        list
    }

    /// How many repositories are in the list.
    pub fn len(&self) -> (r: usize)
        ensures
            r == self@.repos.len(),
    {
        self.repos.len()
    }

    /// Repository `idx`.
    pub fn entry(&self, idx: usize) -> (r: &RepoEntry)
        requires
            idx < self@.repos.len(),
        ensures
            r.deep_view() == self@.repos[idx as int],
    {
        &self.repos[idx]
    }

    /// From now on there is someone to answer requests.
    pub fn register_action_handler(&mut self)
        ensures
            final(self)@ == (RepoListView { connected: true, ..old(self)@ }),
            old(self)@.wf() ==> final(self)@.wf(),
    {
        self.connected = true;
    }

    /// Changes the colours.
    pub fn set_theme(&mut self, theme: Theme)
        ensures
            final(self)@ == (RepoListView { theme, ..old(self)@ }),
            old(self)@.wf() ==> final(self)@.wf(),
    {
        self.theme = theme;
    }

    /// Notes the directories in which a terminal session runs.
    pub fn set_live_panes(&mut self, panes: Vec<String>)
        ensures
            final(self)@ == (RepoListView { live_panes: panes.deep_view(), ..old(self)@ }),
            old(self)@.wf() ==> final(self)@.wf(),
    {
        self.live_panes = panes;
    }

    /// Works out the rows anew.
    pub fn rebuild_display_rows(&mut self)
        ensures
            final(self)@ == old(self)@.refreshed(),
            old(self)@.state.in_bounds() ==> final(self)@.wf(),
    {
        let ghost s = self@;
        let mut rows: Vec<DisplayRow> = Vec::new();
        let mut i: usize = 0;
        while i < self.repos.len()
            invariant
                i <= self.repos@.len(),
                s == self@,
                rows@ =~= rows_upto(s.repos, s.expanded, s.expanded_stashes, i as nat),
            decreases self.repos@.len() - i,
        {
            let entry = &self.repos[i];
            let ghost view = entry.deep_view();
            let ghost before = rows@;
            assert(s.repos[i as int] == view);
            rows.push(DisplayRow::Repo(i));
            let with_worktrees = self.expanded_repos.contains(entry.path.as_str());
            let with_stashes = self.expanded_stashes.contains(entry.path.as_str());
            let ghost own = rows_of_repo(view, i as int, with_worktrees, with_stashes);
            let ghost worktree_rows = Seq::new(
                worktrees(view).len(),
                |w: int| DisplayRow::Worktree(i, w as usize),
            );
            let ghost stash_rows = Seq::new(
                stash_count(view),
                |w: int| DisplayRow::Stash(i, w as usize),
            );
            if let Some(status) = &entry.status {
                if with_worktrees {
                    let mut w: usize = 0;
                    while w < status.worktree_info.len()
                        invariant
                            w <= status.worktree_info@.len(),
                            worktrees(view).len() == status.worktree_info@.len(),
                            worktree_rows == Seq::new(
                                worktrees(view).len(),
                                |w: int| DisplayRow::Worktree(i, w as usize),
                            ),
                            rows@ =~= before.push(DisplayRow::Repo(i)) + worktree_rows.take(
                                w as int,
                            ),
                        decreases status.worktree_info@.len() - w,
                    {
                        rows.push(DisplayRow::Worktree(i, w));
                        w = w + 1;
                    }
                }
                let ghost so_far = rows@;
                if with_stashes {
                    let mut k: usize = 0;
                    while k < status.stashes.len()
                        invariant
                            k <= status.stashes@.len(),
                            stash_count(view) == status.stashes@.len(),
                            stash_rows == Seq::new(
                                stash_count(view),
                                |w: int| DisplayRow::Stash(i, w as usize),
                            ),
                            rows@ =~= so_far + stash_rows.take(k as int),
                        decreases status.stashes@.len() - k,
                    {
                        rows.push(DisplayRow::Stash(i, k));
                        k = k + 1;
                    }
                }
            }
            assert(rows@ =~= before + own);
            i = i + 1;
        }
        self.display_rows = rows;
    }

    /// The repository with this path.
    pub fn resolve_index(&self, id: &RepoId) -> (r: Option<usize>)
        ensures
            r == self@.resolve_index(id@),
            r matches Some(i) ==> i < self@.repos.len(),
    {
        let mut i: usize = 0;
        while i < self.repos.len()
            invariant
                i <= self.repos@.len(),
                forall|k: int| 0 <= k < i ==> (#[trigger] self@.repos[k]).path != id@,
            decreases self.repos@.len() - i,
        {
            assert(self@.repos[i as int] == self.repos@[i as int].deep_view());
            if self.repos[i].path == id.0 {
                proof {
                    lemma_before_path_is(self@.repos, id@, i as nat);
                }
                return Some(i);
            }
            i = i + 1;
        }
        proof {
            lemma_before_path_is(self@.repos, id@, i as nat);
        }
        None
    }

    /// The worktree at this path: its repository and its number there.
    fn resolve_worktree(&self, id: &RepoId) -> (r: Option<(usize, usize)>)
        ensures
            match r {
                Some((i, w)) => self@.resolve_worktree(id@) == Some((i as int, w as int)) && i
                    < self@.repos.len() && w < worktrees(self@.repos[i as int]).len()
                    && self.repos@[i as int].status is Some,
                None => self@.resolve_worktree(id@) is None,
            },
    {
        let ghost repos = self@.repos;
        let mut i: usize = 0;
        assert(repos.skip(0) =~= repos);
        while i < self.repos.len()
            invariant
                i <= self.repos@.len(),
                repos == self@.repos,
                before_owner(repos, id@) == i + before_owner(repos.skip(i as int), id@),
            decreases self.repos@.len() - i,
        {
            assert(repos[i as int] == self.repos@[i as int].deep_view());
            let ghost infos = worktrees(repos[i as int]);
            assert(repos.skip(i as int)[0] == repos[i as int]);
            assert(repos.skip(i as int).drop_first() =~= repos.skip(i + 1));
            if let Some(status) = &self.repos[i].status {
                let mut w: usize = 0;
                assert(infos.skip(0) =~= infos);
                while w < status.worktree_info.len()
                    invariant
                        i < self.repos@.len(),
                        w <= status.worktree_info@.len(),
                        infos == status.worktree_info.deep_view(),
                        repos == self@.repos,
                        infos == worktrees(repos[i as int]),
                        self.repos@[i as int].status is Some,
                        before_owner(repos, id@) == i + before_owner(repos.skip(i as int), id@),
                        repos.skip(i as int)[0] == repos[i as int],
                        before_worktree(infos, id@) == w + before_worktree(
                            infos.skip(w as int),
                            id@,
                        ),
                    decreases status.worktree_info@.len() - w,
                {
                    assert(infos[w as int] == status.worktree_info@[w as int].deep_view());
                    assert(infos.skip(w as int)[0] == infos[w as int]);
                    assert(infos.skip(w as int).drop_first() =~= infos.skip(w + 1));
                    if status.worktree_info[w].path == id.0 {
                        assert(before_worktree(infos.skip(w as int), id@) == 0);
                        assert(before_owner(repos.skip(i as int), id@) == 0);
                        return Some((i, w));
                    }
                    w = w + 1;
                }
            }
            i = i + 1;
        }
        None
    }

    /// The place with this path.
    pub fn resolve_target(&self, id: &RepoId) -> (r: Option<Target>)
        ensures
            r.deep_view() == self@.resolve_target(id@),
            r matches Some(target) ==> target.parent_index < self@.repos.len(),
    {
        if let Some(i) = self.resolve_index(id) {
            let entry = &self.repos[i];
            assert(self@.repos[i as int] == entry.deep_view());
            return match &entry.status {
                Some(status) => Some(
                    Target {
                        exec_path: entry.path.clone(),
                        branch: status.branch.clone(),
                        ahead: status.ahead,
                        behind: status.behind,
                        has_submodules: status.has_submodules,
                        parent_index: i,
                    },
                ),
                None => Some(
                    Target {
                        exec_path: entry.path.clone(),
                        branch: String::new(),
                        ahead: 0,
                        behind: 0,
                        has_submodules: false,
                        parent_index: i,
                    },
                ),
            };
        }
        let (i, w): (usize, usize) = match self.resolve_worktree(id) {
            Some(at) => at,
            None => return None,
        };
        assert(self@.repos[i as int] == self.repos@[i as int].deep_view());
        match &self.repos[i].status {
            Some(status) => {
                let worktree = &status.worktree_info[w];
                assert(worktrees(self@.repos[i as int])[w as int] == worktree.deep_view());
                Some(
                    Target {
                        exec_path: worktree.path.clone(),
                        branch: worktree.branch.clone(),
                        ahead: worktree.ahead,
                        behind: worktree.behind,
                        has_submodules: false,
                        parent_index: i,
                    },
                )
            },
            None => None,
        }
    }

    /// The row that is selected.
    fn selected_row(&self) -> (r: Option<DisplayRow>)
        ensures
            r == self@.selected_row(),
    {
        match self.state.selected {
            Some(i) => if i < self.display_rows.len() {
                Some(self.display_rows[i])
            } else {
                None
            },
            None => None,
        }
    }

    /// The repository that the selected row belongs to.
    pub fn selected_index(&self) -> (r: Option<usize>)
        ensures
            r == self@.selected_index(),
    {
        match self.selected_row() {
            Some(DisplayRow::Repo(i)) => Some(i),
            Some(DisplayRow::Worktree(i, _)) => Some(i),
            Some(DisplayRow::Stash(i, _)) => Some(i),
            None => None,
        }
    }

    /// The repository that the selected row belongs to.
    pub fn selected_repo(&self) -> (r: Option<&RepoEntry>)
        requires
            self@.wf(),
        ensures
            match r {
                Some(entry) => self@.selected_index() matches Some(i) && i < self@.repos.len()
                    && entry.deep_view() == self@.repos[i as int],
                None => self@.selected_index() is None,
            },
    {
        proof {
            self.lemma_rows();
        }
        match self.selected_index() {
            Some(i) => Some(&self.repos[i]),
            None => None,
        }
    }

    /// The selected worktree, with its repository.
    pub fn selected_worktree(&self) -> (r: Option<(RepoId, &WorktreeEntry)>)
        requires
            self@.wf(),
        ensures
            match r {
                Some((id, worktree)) => self@.selected_worktree() == Some(
                    (id@, worktree.deep_view()),
                ),
                None => self@.selected_worktree() is None,
            },
    {
        proof {
            self.lemma_rows();
        }
        match self.selected_row() {
            Some(DisplayRow::Worktree(i, w)) => {
                let ghost row = DisplayRow::Worktree(i, w);
                assert(row_fits(self@.repos, row));
                let entry = &self.repos[i];
                assert(self@.repos[i as int] == entry.deep_view());
                match &entry.status {
                    Some(status) => {
                        let worktree = &status.worktree_info[w];
                        assert(worktrees(self@.repos[i as int])[w as int] == worktree.deep_view());
                        Some((RepoId(entry.path.clone()), worktree))
                    },
                    None => None,
                }
            },
            _ => None,
        }
    }

    /// The repository, the path and the branch of the worktree at this path.
    pub fn worktree_remove_target(&self, id: &RepoId) -> (r: Option<(String, String, String)>)
        ensures
            r.deep_view() == self@.worktree_remove_target(id@),
    {
        let (i, w): (usize, usize) = match self.resolve_worktree(id) {
            Some(at) => at,
            None => return None,
        };
        assert(self@.repos[i as int] == self.repos@[i as int].deep_view());
        match &self.repos[i].status {
            Some(status) => {
                let worktree = &status.worktree_info[w];
                assert(worktrees(self@.repos[i as int])[w as int] == worktree.deep_view());
                Some((self.repos[i].path.clone(), worktree.path.clone(), worktree.branch.clone()))
            },
            None => None,
        }
    }

    /// Selects the row of repository `idx`.
    pub fn select_repo_row(&mut self, idx: usize)
        requires
            old(self)@.wf(),
        ensures
            final(self)@ == old(self)@.select_repo_row(idx as int),
            final(self)@.wf(),
    {
        let ghost rows = self@.display_rows;
        let ghost s = self@;
        let mut k: usize = 0;
        let total: usize = self.display_rows.len();
        assert(rows.skip(0) =~= rows);
        while k < total
            invariant
                k <= total,
                total == self.display_rows@.len(),
                s == self@,
                s == old(self)@,
                s.wf(),
                rows == s.display_rows,
                before_row(rows, DisplayRow::Repo(idx)) == k + before_row(
                    rows.skip(k as int),
                    DisplayRow::Repo(idx),
                ),
            decreases total - k,
        {
            assert(rows.skip(k as int)[0] == rows[k as int]);
            assert(rows.skip(k as int).drop_first() =~= rows.skip(k + 1));
            if self.display_rows[k] == DisplayRow::Repo(idx) {
                assert(before_row(rows.skip(k as int), DisplayRow::Repo(idx)) == 0);
                assert(k < usize::MAX);
                self.state.select(Some(k));
                return;
            }
            k = k + 1;
        }
    }

    /// Notes the new state of a repository.
    pub fn update_status(&mut self, idx: usize, status: RepoStatus)
        requires
            old(self)@.wf(),
            idx < old(self)@.repos.len(),
        ensures
            final(self)@ == old(self)@.update_status(idx as int, status@),
            final(self)@.wf(),
    {
        let ghost s = self@;
        self.repos[idx].status = Some(status);
        self.repos[idx].git_op = false;
        assert(self@.repos =~= s.repos.update(
            idx as int,
            RepoEntryView { status: Some(status@), git_op: false, ..s.repos[idx as int] },
        ));
        self.rebuild_display_rows();
    }

    /// Puts a repository at the end of the list.
    pub fn push_repo(&mut self, entry: RepoEntry)
        requires
            old(self)@.wf(),
        ensures
            final(self)@ == old(self)@.push_repo(entry.deep_view()),
            final(self)@.wf(),
    {
        let ghost s = self@;
        self.repos.push(entry);
        assert(self@.repos =~= s.repos.push(entry.deep_view()));
        self.rebuild_display_rows();
    }

    /// Takes a repository out of the list; with the last one the selection goes.
    pub fn remove_repo(&mut self, idx: usize)
        requires
            old(self)@.wf(),
            idx < old(self)@.repos.len(),
        ensures
            final(self)@ == old(self)@.remove_repo(idx as int),
            final(self)@.wf(),
    {
        let ghost s = self@;
        let removed = self.repos.remove(idx);
        assert(self@.repos =~= s.repos.remove(idx as int));
        self.rebuild_display_rows();
        if self.repos.len() == 0 {
            self.state.select(None);
        } else {
            let at: usize = if idx < self.repos.len() {
                idx
            } else {
                self.repos.len() - 1
            };
            self.select_repo_row(at);
        }
    }

    /// Notes whether a git operation runs in a repository.
    pub fn set_git_op(&mut self, idx: usize, running: bool)
        requires
            old(self)@.wf(),
            idx < old(self)@.repos.len(),
        ensures
            final(self)@ == old(self)@.set_git_op(idx as int, running),
            final(self)@.wf(),
    {
        let ghost s = self@;
        self.repos[idx].git_op = running;
        proof {
            assert(self@.repos =~= s.repos.update(
                idx as int,
                RepoEntryView { git_op: running, ..s.repos[idx as int] },
            ));
            lemma_rows_keep(s, self@, s.repos.len());
        }
    }
}

/// The rows do not depend on what runs in the repositories.
proof fn lemma_rows_keep(a: RepoListView, b: RepoListView, n: nat)
    requires
        a.repos.len() == b.repos.len(),
        n <= a.repos.len(),
        a.expanded == b.expanded,
        a.expanded_stashes == b.expanded_stashes,
        forall|i: int|
            0 <= i < a.repos.len() ==> (#[trigger] a.repos[i]).path == b.repos[i].path
                && a.repos[i].status == b.repos[i].status,
    ensures
        rows_upto(a.repos, a.expanded, a.expanded_stashes, n) == rows_upto(
            b.repos,
            b.expanded,
            b.expanded_stashes,
            n,
        ),
    decreases n,
{
    if n > 0 {
        lemma_rows_keep(a, b, (n - 1) as nat);
        assert(a.repos[n - 1].path == b.repos[n - 1].path);
    }
}

/// A repository of which nothing is known but its path.
pub fn make_entry(path: String, roots: &Vec<String>) -> (r: RepoEntry)
    ensures
        r.deep_view() == new_entry(path@, roots.deep_view()),
{
    let name = match file_name(path.as_str()) {
        Some(name) => name,
        None => path.clone(),
    };
    let display = display_path(path.as_str(), roots);
    RepoEntry { path, name, display, status: None, git_op: false }
}

/// Looking a path up finds the first repository with that path, and finds none
/// only where there is none.
pub proof fn law_lookup_finds_the_first(list: RepoListView, path: Seq<char>)
    requires
        list.repos.len() <= usize::MAX,
    ensures
        match list.resolve_index(path) {
            Some(i) => i < list.repos.len() && list.repos[i as int].path == path && forall|k: int|
                0 <= k < i ==> (#[trigger] list.repos[k]).path != path,
            None => forall|k: int|
                0 <= k < list.repos.len() ==> (#[trigger] list.repos[k]).path != path,
        },
{
    lemma_before_path(list.repos, path);
}

proof fn lemma_before_row(rows: Seq<DisplayRow>, row: DisplayRow)
    ensures
        rows.contains(row) ==> before_row(rows, row) < rows.len() && rows[before_row(
            rows,
            row,
        ) as int] == row,
    decreases rows.len(),
{
    if rows.contains(row) && rows[0] != row {
        let k = choose|k: int| 0 <= k < rows.len() && rows[k] == row;
        assert(rows.drop_first()[k - 1] == row);
        lemma_before_row(rows.drop_first(), row);
    }
}

proof fn lemma_repo_rows(
    repos: Seq<RepoEntryView>,
    expanded: Set<Seq<char>>,
    stashes: Set<Seq<char>>,
    n: nat,
    i: int,
)
    requires
        0 <= i < n <= repos.len(),
    ensures
        n <= rows_upto(repos, expanded, stashes, n).len(),
        rows_upto(repos, expanded, stashes, n).contains(DisplayRow::Repo(i as usize)),
    decreases n,
{
    let before = rows_upto(repos, expanded, stashes, (n - 1) as nat);
    let all = rows_upto(repos, expanded, stashes, n);
    if n > 1 {
        let earlier = if i < n - 1 {
            i
        } else {
            0
        };
        lemma_repo_rows(repos, expanded, stashes, (n - 1) as nat, earlier);
    }
    if i < n - 1 {
        let k = choose|k: int| 0 <= k < before.len() && before[k] == DisplayRow::Repo(i as usize);
        assert(all[k] == before[k]);
    } else {
        assert(all[before.len() as int] == DisplayRow::Repo(i as usize));
    }
}

/// The row that is selected with a repository is its own.
pub(crate) proof fn lemma_own_row(list: RepoListView, i: usize)
    requires
        list.display_rows == list.shown_rows(),
        list.display_rows.len() <= usize::MAX,
        i < list.repos.len(),
    ensures
        list.select_repo_row(i as int).selected_row() == Some(DisplayRow::Repo(i)),
{
    lemma_repo_rows(list.repos, list.expanded, list.expanded_stashes, list.repos.len(), i as int);
    lemma_before_row(list.display_rows, DisplayRow::Repo(i));
}

/// Selecting the row of a repository selects that repository, and nothing else in
/// the list changes. The rows are those to be shown, and can be counted.
pub proof fn law_row_of_a_repository_selects_it(list: RepoListView, i: usize)
    requires
        list.display_rows == list.shown_rows(),
        list.display_rows.len() <= usize::MAX,
        i < list.repos.len(),
    ensures
        list.select_repo_row(i as int).selected_index() == Some(i),
        list.select_repo_row(i as int) == (RepoListView {
            state: list.select_repo_row(i as int).state,
            ..list
        }),
{
    lemma_repo_rows(
        list.repos,
        list.expanded,
        list.expanded_stashes,
        list.repos.len(),
        i as int,
    );
    lemma_before_row(list.display_rows, DisplayRow::Repo(i));
}

/// Every repository has a row: there are at least as many rows as repositories.
pub proof fn law_every_repository_has_a_row(list: RepoListView)
    ensures
        list.wf() ==> list.display_rows == list.shown_rows(),
        list.repos.len() <= list.shown_rows().len(),
{
    if list.repos.len() > 0 {
        lemma_repo_rows(list.repos, list.expanded, list.expanded_stashes, list.repos.len(), 0);
    }
}

} // verus!
