//! What is known of a repository's working state.
use vstd::prelude::*;
use vstd::string::*;
use crate::model::BranchFilter;
use crate::text::same_optional;

verus! {

/// A repository, named by its path.
pub struct RepoId(pub String);

impl View for RepoId {
    type V = Seq<char>;

    open spec fn view(&self) -> Seq<char> {
        self.0@
    }
}

impl DeepView for RepoId {
    type V = Seq<char>;

    open spec fn deep_view(&self) -> Seq<char> {
        self.0@
    }
}

impl Clone for RepoId {
    fn clone(&self) -> (r: RepoId)
        ensures
            r == *self,
    {
        RepoId(self.0.clone())
    }
}

/// A changed file.
pub struct FileEntry {
    pub status: String,
    pub path: String,
}

/// What a changed file's entry holds.
#[verifier::ext_equal]
pub struct FileEntryView {
    pub status: Seq<char>,
    pub path: Seq<char>,
}

impl DeepView for FileEntry {
    type V = FileEntryView;

    open spec fn deep_view(&self) -> FileEntryView {
        FileEntryView { status: self.status@, path: self.path@ }
    }
}

impl Clone for FileEntry {
    fn clone(&self) -> (r: FileEntry)
        ensures
            r.deep_view() == self.deep_view(),
    {
        FileEntry { status: self.status.clone(), path: self.path.clone() }
    }
}

/// A linked worktree of a repository.
pub struct WorktreeEntry {
    pub name: String,
    pub path: String,
    pub branch: String,
    pub ahead: usize,
    pub behind: usize,
    pub is_dirty: bool,
    pub file_count: usize,
    pub has_dirty_submodules: bool,
    pub has_unpushed_submodules: bool,
}

/// What a worktree's entry holds.
#[verifier::ext_equal]
pub struct WorktreeEntryView {
    pub name: Seq<char>,
    pub path: Seq<char>,
    pub branch: Seq<char>,
    pub ahead: usize,
    pub behind: usize,
    pub is_dirty: bool,
    pub file_count: usize,
    pub has_dirty_submodules: bool,
    pub has_unpushed_submodules: bool,
}

impl DeepView for WorktreeEntry {
    type V = WorktreeEntryView;

    open spec fn deep_view(&self) -> WorktreeEntryView {
        WorktreeEntryView {
            name: self.name@,
            path: self.path@,
            branch: self.branch@,
            ahead: self.ahead,
            behind: self.behind,
            is_dirty: self.is_dirty,
            file_count: self.file_count,
            has_dirty_submodules: self.has_dirty_submodules,
            has_unpushed_submodules: self.has_unpushed_submodules,
        }
    }
}

/// A stash of a repository.
pub struct StashEntry {
    pub index: usize,
    pub message: String,
    pub oid: String,
}

/// What a stash's entry holds.
#[verifier::ext_equal]
pub struct StashEntryView {
    pub index: usize,
    pub message: Seq<char>,
    pub oid: Seq<char>,
}

impl DeepView for StashEntry {
    type V = StashEntryView;

    open spec fn deep_view(&self) -> StashEntryView {
        StashEntryView { index: self.index, message: self.message@, oid: self.oid@ }
    }
}

/// What differs in a submodule.
#[derive(Clone, Copy, PartialEq, Eq, Structural, Debug)]
pub enum SubmoduleState {
    Modified,
    Dirty,
    Uninitialized,
}

/// A submodule of a repository.
pub struct SubmoduleInfo {
    pub path: String,
    pub state: Option<SubmoduleState>,
    pub head_oid: Option<String>,
    pub workdir_oid: Option<String>,
}

/// What a submodule's entry holds.
#[verifier::ext_equal]
pub struct SubmoduleInfoView {
    pub path: Seq<char>,
    pub state: Option<SubmoduleState>,
    pub head_oid: Option<Seq<char>>,
    pub workdir_oid: Option<Seq<char>>,
}

impl DeepView for SubmoduleInfo {
    type V = SubmoduleInfoView;

    open spec fn deep_view(&self) -> SubmoduleInfoView {
        SubmoduleInfoView {
            path: self.path@,
            state: self.state,
            head_oid: self.head_oid.deep_view(),
            workdir_oid: self.workdir_oid.deep_view(),
        }
    }
}

/// A summary of where the references of a repository point, one number for each
/// kind.
#[derive(Clone, Copy, PartialEq, Eq, Structural, Debug)]
pub struct RefsFingerprint {
    pub local: u64,
    pub remote: u64,
    pub tags: u64,
}

/// The working state of a repository.
pub struct RepoStatus {
    pub branch: String,
    pub head_oid: Option<String>,
    pub files: Vec<FileEntry>,
    pub ahead: usize,
    pub behind: usize,
    pub is_dirty: bool,
    pub worktree_info: Vec<WorktreeEntry>,
    pub has_submodules: bool,
    pub submodules: Vec<SubmoduleInfo>,
    pub has_dirty_submodules: bool,
    pub has_unpushed_submodules: bool,
    pub fetch_failed: bool,
    pub stashes: Vec<StashEntry>,
    pub refs: RefsFingerprint,
}

/// What a working state holds.
#[verifier::ext_equal]
pub struct RepoStatusView {
    pub branch: Seq<char>,
    pub head_oid: Option<Seq<char>>,
    pub files: Seq<FileEntryView>,
    pub ahead: usize,
    pub behind: usize,
    pub is_dirty: bool,
    pub worktree_info: Seq<WorktreeEntryView>,
    pub has_submodules: bool,
    pub submodules: Seq<SubmoduleInfoView>,
    pub has_dirty_submodules: bool,
    pub has_unpushed_submodules: bool,
    pub fetch_failed: bool,
    pub stashes: Seq<StashEntryView>,
    pub refs: RefsFingerprint,
}

impl View for RepoStatus {
    type V = RepoStatusView;

    open spec fn view(&self) -> RepoStatusView {
        RepoStatusView {
            branch: self.branch@,
            head_oid: self.head_oid.deep_view(),
            files: self.files.deep_view(),
            ahead: self.ahead,
            behind: self.behind,
            is_dirty: self.is_dirty,
            worktree_info: self.worktree_info.deep_view(),
            has_submodules: self.has_submodules,
            submodules: self.submodules.deep_view(),
            has_dirty_submodules: self.has_dirty_submodules,
            has_unpushed_submodules: self.has_unpushed_submodules,
            fetch_failed: self.fetch_failed,
            stashes: self.stashes.deep_view(),
            refs: self.refs,
        }
    }
}

impl DeepView for RepoStatus {
    type V = RepoStatusView;

    open spec fn deep_view(&self) -> RepoStatusView {
        self@
    }
}

/// The ids of a list of stashes.
pub open spec fn stash_ids(stashes: Seq<StashEntryView>) -> Seq<Seq<char>> {
    Seq::new(stashes.len(), |i: int| stashes[i].oid)
}

/// Whether the references that a graph is built from, under a filter, point
/// elsewhere than before. Under `HeadOnly` no reference but `HEAD` counts.
pub open spec fn refs_moved(a: RefsFingerprint, b: RefsFingerprint, filter: BranchFilter) -> bool {
    match filter {
        BranchFilter::All => a != b,
        BranchFilter::Local => a.local != b.local || a.tags != b.tags,
        BranchFilter::Remote => a.remote != b.remote || a.tags != b.tags,
        BranchFilter::HeadOnly => false,
    }
}

/// Whether a graph built for the state `previous` is out of date for `next`: a
/// reference that it shows has moved, or the branch, `HEAD`, the distance from
/// upstream or the stashes are others. Without a previous state it is.
pub open spec fn graph_outdated(
    previous: Option<RepoStatusView>,
    next: RepoStatusView,
    filter: BranchFilter,
) -> bool {
    match previous {
        None => true,
        Some(p) => {
            ||| refs_moved(p.refs, next.refs, filter)
            ||| p.branch != next.branch
            ||| p.head_oid != next.head_oid
            ||| p.ahead != next.ahead
            ||| p.behind != next.behind
            ||| stash_ids(p.stashes) != stash_ids(next.stashes)
        },
    }
}

/// Whether two lists of stashes have the same ids.
fn same_stashes(a: &Vec<StashEntry>, b: &Vec<StashEntry>) -> (r: bool)
    ensures
        r == (stash_ids(a.deep_view()) == stash_ids(b.deep_view())),
{
    let ghost x = stash_ids(a.deep_view());
    let ghost y = stash_ids(b.deep_view());
    if a.len() != b.len() {
        assert(x.len() != y.len());
        return false;
    }
    let mut i: usize = 0;
    while i < a.len()
        invariant
            x == stash_ids(a.deep_view()),
            y == stash_ids(b.deep_view()),
            a@.len() == b@.len(),
            i <= a@.len(),
            forall|j: int| 0 <= j < i ==> #[trigger] x[j] == y[j],
        decreases a@.len() - i,
    {
        if a[i].oid != b[i].oid {
            assert(x[i as int] != y[i as int]);
            return false;
        }
        i = i + 1;
    }
    assert(x =~= y);
    true
}

/// Whether the graph has to be built again when a repository's state becomes
/// `next`.
pub fn graph_status_changed(
    previous: Option<&RepoStatus>,
    next: &RepoStatus,
    filter: BranchFilter,
) -> (r: bool)
    ensures
        r == graph_outdated(previous.deep_view(), next@, filter),
{
    let previous = match previous {
        Some(p) => p,
        None => return true,
    };
    let refs_changed = match filter {
        BranchFilter::All => previous.refs != next.refs,
        BranchFilter::Local => previous.refs.local != next.refs.local || previous.refs.tags
            != next.refs.tags,
        BranchFilter::Remote => previous.refs.remote != next.refs.remote || previous.refs.tags
            != next.refs.tags,
        BranchFilter::HeadOnly => false,
    };
    refs_changed || previous.branch != next.branch || !same_optional(
        &previous.head_oid,
        &next.head_oid,
    ) || previous.ahead != next.ahead || previous.behind != next.behind || !same_stashes(
        &previous.stashes,
        &next.stashes,
    )
}

/// A state that did not change calls for no new graph.
pub proof fn law_same_state_keeps_graph(status: RepoStatusView, filter: BranchFilter)
    ensures
        !graph_outdated(Some(status), status, filter),
{
}

/// A fetch that moves only remote references calls for no new graph where only
/// local branches are shown, and a moved local reference calls for none where
/// only remote branches are shown.
pub proof fn law_filter_scopes_references(
    status: RepoStatusView,
    next: RepoStatusView,
    moved: u64,
)
    ensures
        !graph_outdated(
            Some(status),
            RepoStatusView { refs: RefsFingerprint { remote: moved, ..status.refs }, ..status },
            BranchFilter::Local,
        ),
        !graph_outdated(
            Some(status),
            RepoStatusView { refs: RefsFingerprint { local: moved, ..status.refs }, ..status },
            BranchFilter::Remote,
        ),
        !graph_outdated(
            Some(status),
            RepoStatusView { refs: next.refs, ..status },
            BranchFilter::HeadOnly,
        ),
{
}

/// One filter shows all that another shows, and perhaps more.
pub open spec fn wider(a: BranchFilter, b: BranchFilter) -> bool {
    a == b || a == BranchFilter::All || b == BranchFilter::HeadOnly
}

/// Comparing two states comes to the same either way round, and a wider filter sees
/// at least the changes that a narrower one sees.
pub proof fn law_wider_filters_see_more(
    a: RepoStatusView,
    b: RepoStatusView,
    wide: BranchFilter,
    narrow: BranchFilter,
)
    ensures
        graph_outdated(Some(a), b, narrow) == graph_outdated(Some(b), a, narrow),
        wider(wide, narrow) && graph_outdated(Some(a), b, narrow) ==> graph_outdated(
            Some(a),
            b,
            wide,
        ),
{
}

} // verus!
