//! What the parts of the program tell each other.
use vstd::prelude::*;
use vstd::string::*;
use crate::model::{
    BranchSegment, BranchSegmentView, DiffStat, GraphFilters, GraphRow, GraphRowView, Oid,
};
use crate::screen::Theme;
use crate::status::{FileEntry, RepoId, RepoStatus};

verus! {

/// Something to be done, or something that has happened outside.
pub enum Action {
    Quit,
    Tick,
    Render,
    Resize { width: u16, height: u16 },
    CopyText(String),
    /// What became of a text that was to go to the clipboard.
    ClipboardReplied(ClipboardReply),
    SelectRepo(RepoId),
    FocusRepoDetails(RepoId),
    SelectWorktree { repo_id: RepoId, worktree_path: String, worktree_branch: String },
    SelectSubmodule { repo_id: RepoId, sub_path: String },
    WorktreeFilesLoaded {
        repo_id: RepoId,
        worktree_path: String,
        name: String,
        changes: Vec<FileEntry>,
    },
    StatusQueryDone(RepoId),
    RepoStatusUpdated { id: RepoId, status: RepoStatus },
    RefreshAll,
    PollLocal,
    PollFetch,
    RefreshRepo(RepoId),
    RefreshRepoAfterCooldown(RepoId),
    ShowGitGraph,
    ShowFileList,
    OpenSelected,
    OpenAt(RepoId),
    ReviewSelected,
    ReviewAt(RepoId),
    RunKeybinding(usize),
    OpenNewWorktree(RepoId),
    OpenFile { id: RepoId, path: String },
    GotoSessionSelected,
    GotoSession(String),
    GotoSessionPicker(RepoId),
    /// `new_path` is where the configuration puts the worktree of `branch`.
    CreateWorktree { repo: String, branch: String, new_path: String },
    RemoveWorktreeSelected,
    RemoveWorktreeAt(RepoId),
    RemoveWorktree { repo: String, worktree_path: String },
    LiveSessionsLoaded(Vec<String>),
    PickerChose(String),
    PickerCancel,
    /// `segments` are the branches off the trunk of `rows`.
    GraphLoaded { generation: u64, rows: Vec<GraphRow>, segments: Vec<BranchSegment> },
    GraphFilterBranchesLoaded { generation: u64, branches: Vec<String> },
    DiffStatsLoaded { generation: u64, stats: Vec<(Oid, DiffStat)> },
    GraphError { generation: u64, message: String },
    GraphLoadAborted { generation: u64 },
    OpenGraphFilters,
    OpenGraphContextMenu,
    OpenGraphCommitFiles,
    OpenGraphSearch,
    ToggleGraphCollapse,
    ExpandAllGraphBranches,
    SetGraphFilters(GraphFilters),
    SetGraphFirstParent(bool),
    ResetGraphFilters,
    ShowContextMenu { id: RepoId, row: u16, col: u16, is_worktree: bool },
    HideContextMenu,
    ShowFileContextMenu {
        id: RepoId,
        path: String,
        row: u16,
        col: u16,
        staged: bool,
        unstaged: bool,
        is_untracked: bool,
        is_submodule: bool,
    },
    RevealFile { id: RepoId, path: String },
    DiscardFile { id: RepoId, path: String, is_untracked: bool },
    /// A change to one file; `dir` is where git runs, if the file's repository
    /// is known.
    ChangeFile { id: RepoId, path: String, change: FileChange, dir: Option<String> },
    CopyPath(RepoId),
    GitTransfer { id: RepoId, transfer: Transfer },
    GitSubmodules { id: RepoId, operation: SubmoduleOperation },
    GitOpComplete { id: RepoId, message: String },
    /// `generation` numbers the diffs that were asked for.
    ShowDiff { id: RepoId, file_path: String, generation: u64 },
    /// `current` is the number of the diff that was asked for last.
    DiffLoaded { generation: u64, current: u64, content: String },
    ShowCommitFiles { repo_path: String, oid: String },
    CommitFilesLoaded {
        generation: u64,
        oid: String,
        message: String,
        files: Vec<(String, String)>,
    },
    ShowCommitDiff { repo_path: String, oid: String, file_path: String },
    CommitDiffLoaded { generation: u64, content: String },
    OpenAddRepo,
    /// `has_dot_git` and `has_head` tell whether there is a `.git` or a `HEAD` at
    /// `path`.
    AddRepo { path: String, has_dot_git: bool, has_head: bool },
    RemoveRepo(RepoId),
    CycleSortOrder,
    RescanRepos,
    /// The repositories that a rescan found.
    ReposRescanned(Vec<String>),
    /// The repositories that a search for new ones found.
    DiscoverNewRepos(Vec<String>),
    UpdateAvailable(String),
    GithubSelectionSettled(u64),
    OpenUrl(String),
    ShowGithubItem { url: String, is_pr: bool, generation: u64 },
    CycleGithubStateFilter,
    Error(String),
    OpenThemePicker,
    PreviewTheme { name: String, loaded: Result<Theme, String> },
    CommitTheme { name: String, loaded: Result<Theme, String> },
    /// What became of the configuration saved for a committed theme.
    ThemeSaved { name: String, failure: Option<String> },
    /// The theme and its name from before the preview.
    CancelThemePreview { snapshot: Option<Theme>, original_name: Option<String> },
    SelectNextRepo,
    SelectPrevRepo,
}

/// What the system clipboard answered.
pub enum ClipboardReply {
    /// There is no clipboard to connect to.
    NoBackend,
    /// The text was taken.
    Copied,
    /// The clipboard refused, with a reason.
    Failed(String),
}

/// A change to one file.
#[derive(Clone, Copy, PartialEq, Eq, Structural, Debug)]
pub enum FileChange {
    Stage,
    Unstage,
    DiscardUntracked,
    DiscardTracked,
}

/// An exchange with the remote repository.
#[derive(Clone, Copy, PartialEq, Eq, Structural, Debug)]
pub enum Transfer {
    Push,
    Pull,
    PullRebase,
    PullSubmodules,
}

/// An operation on all submodules.
#[derive(Clone, Copy, PartialEq, Eq, Structural, Debug)]
pub enum SubmoduleOperation {
    Update,
    Sync,
    UpdateLatest,
}

/// What an action that the program sends itself holds. Those that only come from
/// outside are not told apart.
#[verifier::ext_equal]
pub enum ActionView {
    Render,
    SelectRepo(Seq<char>),
    FocusRepoDetails(Seq<char>),
    SelectWorktree {
        repo_id: Seq<char>,
        worktree_path: Seq<char>,
        worktree_branch: Seq<char>,
    },
    StatusQueryDone(Seq<char>),
    PollLocal,
    PollFetch,
    Quit,
    Tick,
    Resize { width: u16, height: u16 },
    RefreshRepo(Seq<char>),
    RefreshRepoAfterCooldown(Seq<char>),
    GraphLoadAborted { generation: u64 },
    GraphError { generation: u64, message: Seq<char> },
    GraphFilterBranchesLoaded { generation: u64, branches: Seq<Seq<char>> },
    GraphLoaded { generation: u64, rows: Seq<GraphRowView>, segments: Seq<BranchSegmentView> },
    DiffStatsLoaded { generation: u64, stats: Seq<(Oid, DiffStat)> },
    OpenGraphContextMenu,
    ShowContextMenu { id: Seq<char>, row: u16, col: u16, is_worktree: bool },
    GitOpComplete { id: Seq<char>, message: Seq<char> },
    ShowCommitFiles { repo_path: Seq<char>, oid: Seq<char> },
    ShowCommitDiff { repo_path: Seq<char>, oid: Seq<char>, file_path: Seq<char> },
    Error(Seq<char>),
    FromOutside,
}

impl DeepView for Action {
    type V = ActionView;

    open spec fn deep_view(&self) -> ActionView {
        match *self {
            Action::Render => ActionView::Render,
            Action::SelectRepo(id) => ActionView::SelectRepo(id@),
            Action::FocusRepoDetails(id) => ActionView::FocusRepoDetails(id@),
            Action::SelectWorktree { repo_id, worktree_path, worktree_branch } =>
                ActionView::SelectWorktree {
                    repo_id: repo_id@,
                    worktree_path: worktree_path@,
                    worktree_branch: worktree_branch@,
                },
            Action::StatusQueryDone(id) => ActionView::StatusQueryDone(id@),
            Action::PollLocal => ActionView::PollLocal,
            Action::PollFetch => ActionView::PollFetch,
            Action::Quit => ActionView::Quit,
            Action::Tick => ActionView::Tick,
            Action::Resize { width, height } => ActionView::Resize { width, height },
            Action::RefreshRepo(id) => ActionView::RefreshRepo(id@),
            Action::RefreshRepoAfterCooldown(id) => ActionView::RefreshRepoAfterCooldown(id@),
            Action::GraphLoadAborted { generation } => ActionView::GraphLoadAborted { generation },
            Action::GraphError { generation, message } => ActionView::GraphError {
                generation,
                message: message@,
            },
            Action::GraphFilterBranchesLoaded { generation, branches } =>
                ActionView::GraphFilterBranchesLoaded { generation, branches: branches.deep_view() },
            Action::GraphLoaded { generation, rows, segments } => ActionView::GraphLoaded {
                generation,
                rows: rows.deep_view(),
                segments: segments.deep_view(),
            },
            Action::DiffStatsLoaded { generation, stats } => ActionView::DiffStatsLoaded {
                generation,
                stats: stats@,
            },
            Action::OpenGraphContextMenu => ActionView::OpenGraphContextMenu,
            Action::ShowContextMenu { id, row, col, is_worktree } => ActionView::ShowContextMenu {
                id: id@,
                row,
                col,
                is_worktree,
            },
            Action::GitOpComplete { id, message } => ActionView::GitOpComplete {
                id: id@,
                message: message@,
            },
            Action::ShowCommitFiles { repo_path, oid } => ActionView::ShowCommitFiles {
                repo_path: repo_path@,
                oid: oid@,
            },
            Action::ShowCommitDiff { repo_path, oid, file_path } => ActionView::ShowCommitDiff {
                repo_path: repo_path@,
                oid: oid@,
                file_path: file_path@,
            },
            Action::Error(message) => ActionView::Error(message@),
            _ => ActionView::FromOutside,
        }
    }
}

} // verus!
