//! What the program does outside of itself.
use vstd::prelude::*;
use vstd::string::*;
use crate::action::{Action, ActionView};
use crate::git_graph::{LoadRequest, LoadRequestView};
use crate::model::{GraphFilters, GraphFiltersView};
use crate::screen::Theme;
use crate::status::{FileEntry, FileEntryView, RepoId};

verus! {

/// A launch that waits for a placement to be chosen.
pub struct PendingLaunch {
    pub dir: String,
    pub command: Option<String>,
    pub base: Option<String>,
    pub label: String,
}

/// What a waiting launch holds.
#[verifier::ext_equal]
pub struct PendingLaunchView {
    pub dir: Seq<char>,
    pub command: Option<Seq<char>>,
    pub base: Option<Seq<char>>,
    pub label: Seq<char>,
}

impl DeepView for PendingLaunch {
    type V = PendingLaunchView;

    open spec fn deep_view(&self) -> PendingLaunchView {
        PendingLaunchView {
            dir: self.dir@,
            command: self.command.deep_view(),
            base: self.base.deep_view(),
            label: self.label@,
        }
    }
}

/// Something to be done outside, in the order in which it is asked for.
pub enum Effect {
    /// Queue an action.
    Send(Action),
    /// Let another part of the program handle an action.
    Forward(Action),
    /// Draw the screen.
    Draw,
    /// Drop the messages that have stood long enough.
    ClearExpiredMessages,
    /// Put a text on the clipboard, through a new connection if `connect`.
    CopyToClipboard { text: String, connect: bool },
    HideContextMenu,
    /// Show these changed files.
    SetFiles { files: Vec<FileEntry>, name: String, id: RepoId },
    GithubTouchSelection,
    /// Build the graph.
    Load(LoadRequest),
    /// Show the changes and the graph of a worktree or submodule.
    OpenPathContext { path: String, repo_id: RepoId, display_name: String },
    /// Query the changes of the worktree or submodule that is shown.
    RefreshPathContext { path: String, repo_id: RepoId, display_name: String },
    /// Query the state of a repository, with a fetch before it if `fetch`; a
    /// failure is shown if `announce`.
    QueryStatus { id: RepoId, path: String, fetch: bool, announce: bool },
    /// Ask for a refresh after some nanoseconds.
    RefreshLater { id: RepoId, wait: u128 },
    ProbeLiveness,
    LaunchOpen(String),
    LaunchReview(String),
    /// Run git in a repository.
    RepoGitOp { repo: String, args: Vec<String> },
    /// Run git for a file.
    FileGitOp { dir: String, id: RepoId, args: Vec<String> },
    /// Run git in `dir`, and report for repository `id`.
    RunGit { dir: String, id: RepoId, args: Vec<String> },
    ConfirmRemoveWorktree { repo: String, worktree_path: String, branch: String },
    ConfirmDiscard { message: String, id: RepoId, path: String, is_untracked: bool },
    HidePicker,
    ResumeLaunch { launch: PendingLaunch, placement: String },
    GotoSession(String),
    ShowGraphFilters {
        filters: GraphFilters,
        branches: Vec<String>,
        authors: Vec<String>,
        first_parent: bool,
    },
    HideGraphFilters,
    ShowGraphMenu {
        full_hash: String,
        short_hash: String,
        message: String,
        first_parent: bool,
        can_toggle: bool,
    },
    ShowMenu {
        id: RepoId,
        col: u16,
        row: u16,
        ahead: usize,
        behind: usize,
        has_submodules: bool,
        is_worktree: bool,
    },
    /// Write to the terminal.
    WriteTerminal(String),
    /// Get the changes in a submodule, to be shown under `header`.
    SubmoduleDiff { dir: String, header: String, generation: u64 },
    /// Get the commits of a submodule in `range`, to be shown under `header`.
    SubmoduleLog { dir: String, header: String, range: String, generation: u64 },
    /// Get the changes of a file.
    FileDiff { dir: String, file: String, generation: u64 },
    /// Show a diff.
    SetDiff(String),
    ListCommitFiles { repo_path: String, oid: String, generation: u64 },
    GetCommitDiff { repo_path: String, oid: String, file_path: String, generation: u64 },
    HidePathInput,
    /// Save the configuration; a failure is only noted.
    SaveConfig,
    /// Save the configuration, and report what became of it.
    SaveTheme(String),
    /// Look for repositories, in place of those listed.
    Rescan,
    /// Look for new repositories.
    Discover,
    /// Look for new repositories after some nanoseconds.
    DiscoverLater(u128),
    /// Watch these repositories and directories.
    Watch {
        repo_paths: Vec<String>,
        root_dirs: Vec<String>,
        debounce_ms: u64,
        exclude_dirs: Vec<String>,
        worktree_dirs: bool,
    },
    /// Forget what is known of these repositories on GitHub.
    PruneGithub(Vec<String>),
    CheckForUpdates,
    /// Use these colours everywhere.
    ApplyTheme(Theme),
    HideThemePicker,
}

/// What an effect holds.
#[verifier::ext_equal]
pub enum EffectView {
    Send(ActionView),
    Forward(Action),
    Draw,
    ClearExpiredMessages,
    CopyToClipboard { text: Seq<char>, connect: bool },
    HideContextMenu,
    SetFiles { files: Seq<FileEntryView>, name: Seq<char>, id: Seq<char> },
    GithubTouchSelection,
    Load(LoadRequestView),
    OpenPathContext { path: Seq<char>, repo_id: Seq<char>, display_name: Seq<char> },
    RefreshPathContext { path: Seq<char>, repo_id: Seq<char>, display_name: Seq<char> },
    QueryStatus { id: Seq<char>, path: Seq<char>, fetch: bool, announce: bool },
    RefreshLater { id: Seq<char>, wait: u128 },
    ProbeLiveness,
    LaunchOpen(Seq<char>),
    LaunchReview(Seq<char>),
    RepoGitOp { repo: Seq<char>, args: Seq<Seq<char>> },
    FileGitOp { dir: Seq<char>, id: Seq<char>, args: Seq<Seq<char>> },
    RunGit { dir: Seq<char>, id: Seq<char>, args: Seq<Seq<char>> },
    ConfirmRemoveWorktree { repo: Seq<char>, worktree_path: Seq<char>, branch: Seq<char> },
    ConfirmDiscard { message: Seq<char>, id: Seq<char>, path: Seq<char>, is_untracked: bool },
    HidePicker,
    ResumeLaunch { launch: PendingLaunchView, placement: Seq<char> },
    GotoSession(Seq<char>),
    ShowGraphFilters {
        filters: GraphFiltersView,
        branches: Seq<Seq<char>>,
        authors: Seq<Seq<char>>,
        first_parent: bool,
    },
    HideGraphFilters,
    ShowGraphMenu {
        full_hash: Seq<char>,
        short_hash: Seq<char>,
        message: Seq<char>,
        first_parent: bool,
        can_toggle: bool,
    },
    ShowMenu {
        id: Seq<char>,
        col: u16,
        row: u16,
        ahead: usize,
        behind: usize,
        has_submodules: bool,
        is_worktree: bool,
    },
    WriteTerminal(Seq<char>),
    SubmoduleDiff { dir: Seq<char>, header: Seq<char>, generation: u64 },
    SubmoduleLog { dir: Seq<char>, header: Seq<char>, range: Seq<char>, generation: u64 },
    FileDiff { dir: Seq<char>, file: Seq<char>, generation: u64 },
    SetDiff(Seq<char>),
    ListCommitFiles { repo_path: Seq<char>, oid: Seq<char>, generation: u64 },
    GetCommitDiff {
        repo_path: Seq<char>,
        oid: Seq<char>,
        file_path: Seq<char>,
        generation: u64,
    },
    HidePathInput,
    SaveConfig,
    SaveTheme(Seq<char>),
    Rescan,
    Discover,
    DiscoverLater(u128),
    Watch {
        repo_paths: Seq<Seq<char>>,
        root_dirs: Seq<Seq<char>>,
        debounce_ms: u64,
        exclude_dirs: Seq<Seq<char>>,
        worktree_dirs: bool,
    },
    PruneGithub(Seq<Seq<char>>),
    CheckForUpdates,
    ApplyTheme(Theme),
    HideThemePicker,
}

impl DeepView for Effect {
    type V = EffectView;

    open spec fn deep_view(&self) -> EffectView {
        match *self {
            Effect::Send(action) => EffectView::Send(action.deep_view()),
            Effect::Forward(action) => EffectView::Forward(action),
            Effect::Draw => EffectView::Draw,
            Effect::ClearExpiredMessages => EffectView::ClearExpiredMessages,
            Effect::CopyToClipboard { text, connect } => EffectView::CopyToClipboard {
                text: text@,
                connect,
            },
            Effect::HideContextMenu => EffectView::HideContextMenu,
            Effect::SetFiles { files, name, id } => EffectView::SetFiles {
                files: files.deep_view(),
                name: name@,
                id: id@,
            },
            Effect::GithubTouchSelection => EffectView::GithubTouchSelection,
            Effect::Load(load) => EffectView::Load(load.deep_view()),
            Effect::OpenPathContext { path, repo_id, display_name } =>
                EffectView::OpenPathContext {
                    path: path@,
                    repo_id: repo_id@,
                    display_name: display_name@,
                },
            Effect::RefreshPathContext { path, repo_id, display_name } =>
                EffectView::RefreshPathContext {
                    path: path@,
                    repo_id: repo_id@,
                    display_name: display_name@,
                },
            Effect::QueryStatus { id, path, fetch, announce } => EffectView::QueryStatus {
                id: id@,
                path: path@,
                fetch,
                announce,
            },
            Effect::RefreshLater { id, wait } => EffectView::RefreshLater { id: id@, wait },
            Effect::ProbeLiveness => EffectView::ProbeLiveness,
            Effect::LaunchOpen(path) => EffectView::LaunchOpen(path@),
            Effect::LaunchReview(path) => EffectView::LaunchReview(path@),
            Effect::RepoGitOp { repo, args } => EffectView::RepoGitOp {
                repo: repo@,
                args: args.deep_view(),
            },
            Effect::FileGitOp { dir, id, args } => EffectView::FileGitOp {
                dir: dir@,
                id: id@,
                args: args.deep_view(),
            },
            Effect::RunGit { dir, id, args } => EffectView::RunGit {
                dir: dir@,
                id: id@,
                args: args.deep_view(),
            },
            Effect::ConfirmRemoveWorktree { repo, worktree_path, branch } =>
                EffectView::ConfirmRemoveWorktree {
                    repo: repo@,
                    worktree_path: worktree_path@,
                    branch: branch@,
                },
            Effect::ConfirmDiscard { message, id, path, is_untracked } =>
                EffectView::ConfirmDiscard {
                    message: message@,
                    id: id@,
                    path: path@,
                    is_untracked,
                },
            Effect::HidePicker => EffectView::HidePicker,
            Effect::ResumeLaunch { launch, placement } => EffectView::ResumeLaunch {
                launch: launch.deep_view(),
                placement: placement@,
            },
            Effect::GotoSession(session) => EffectView::GotoSession(session@),
            Effect::ShowGraphFilters { filters, branches, authors, first_parent } =>
                EffectView::ShowGraphFilters {
                    filters: filters.deep_view(),
                    branches: branches.deep_view(),
                    authors: authors.deep_view(),
                    first_parent,
                },
            Effect::HideGraphFilters => EffectView::HideGraphFilters,
            Effect::ShowGraphMenu { full_hash, short_hash, message, first_parent, can_toggle } =>
                EffectView::ShowGraphMenu {
                    full_hash: full_hash@,
                    short_hash: short_hash@,
                    message: message@,
                    first_parent,
                    can_toggle,
                },
            Effect::ShowMenu { id, col, row, ahead, behind, has_submodules, is_worktree } =>
                EffectView::ShowMenu {
                    id: id@,
                    col,
                    row,
                    ahead,
                    behind,
                    has_submodules,
                    is_worktree,
                },
            Effect::WriteTerminal(text) => EffectView::WriteTerminal(text@),
            Effect::SubmoduleDiff { dir, header, generation } => EffectView::SubmoduleDiff {
                dir: dir@,
                header: header@,
                generation,
            },
            Effect::SubmoduleLog { dir, header, range, generation } => EffectView::SubmoduleLog {
                dir: dir@,
                header: header@,
                range: range@,
                generation,
            },
            Effect::FileDiff { dir, file, generation } => EffectView::FileDiff {
                dir: dir@,
                file: file@,
                generation,
            },
            Effect::SetDiff(content) => EffectView::SetDiff(content@),
            Effect::ListCommitFiles { repo_path, oid, generation } =>
                EffectView::ListCommitFiles { repo_path: repo_path@, oid: oid@, generation },
            Effect::GetCommitDiff { repo_path, oid, file_path, generation } =>
                EffectView::GetCommitDiff {
                    repo_path: repo_path@,
                    oid: oid@,
                    file_path: file_path@,
                    generation,
                },
            Effect::HidePathInput => EffectView::HidePathInput,
            Effect::SaveConfig => EffectView::SaveConfig,
            Effect::SaveTheme(name) => EffectView::SaveTheme(name@),
            Effect::Rescan => EffectView::Rescan,
            Effect::Discover => EffectView::Discover,
            Effect::DiscoverLater(wait) => EffectView::DiscoverLater(wait),
            Effect::Watch { repo_paths, root_dirs, debounce_ms, exclude_dirs, worktree_dirs } =>
                EffectView::Watch {
                    repo_paths: repo_paths.deep_view(),
                    root_dirs: root_dirs.deep_view(),
                    debounce_ms,
                    exclude_dirs: exclude_dirs.deep_view(),
                    worktree_dirs,
                },
            Effect::PruneGithub(paths) => EffectView::PruneGithub(paths.deep_view()),
            Effect::CheckForUpdates => EffectView::CheckForUpdates,
            Effect::ApplyTheme(theme) => EffectView::ApplyTheme(theme),
            Effect::HideThemePicker => EffectView::HideThemePicker,
        }
    }
}

} // verus!
