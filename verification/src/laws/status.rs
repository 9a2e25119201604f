//! When the graph is out of date.
use vstd::prelude::*;

use crate::model::BranchFilter;
use crate::status::{graph_outdated, stash_ids, RepoStatusView};

verus! {

/// The same stashes lie in two repositories, in the same order.
pub open spec fn same_stashes(a: RepoStatusView, b: RepoStatusView) -> bool {
    &&& a.stashes.len() == b.stashes.len()
    &&& forall|k: int| 0 <= k < a.stashes.len() ==> (#[trigger] a.stashes[k]).oid == b.stashes[k].oid
}

/// A graph of local branches is shown.
pub open spec fn shows_local(filter: BranchFilter) -> bool {
    filter == BranchFilter::All || filter == BranchFilter::Local
}

/// A graph of remote branches is shown.
pub open spec fn shows_remote(filter: BranchFilter) -> bool {
    filter == BranchFilter::All || filter == BranchFilter::Remote
}

/// Whatever the graph shows calls for a new graph when it changes: another commit or
/// branch at `HEAD`, another distance from upstream, other stashes, and moved local
/// branches, remote branches or tags where they are shown. Without a state to compare
/// with there is always a new graph.
pub proof fn law_what_is_shown_outdates_the_graph(
    previous: RepoStatusView,
    next: RepoStatusView,
    filter: BranchFilter,
)
    ensures
        previous.head_oid != next.head_oid ==> graph_outdated(Some(previous), next, filter),
        previous.branch != next.branch ==> graph_outdated(Some(previous), next, filter),
        previous.ahead != next.ahead ==> graph_outdated(Some(previous), next, filter),
        previous.behind != next.behind ==> graph_outdated(Some(previous), next, filter),
        !same_stashes(previous, next) ==> graph_outdated(Some(previous), next, filter),
        previous.refs.local != next.refs.local && shows_local(filter) ==> graph_outdated(
            Some(previous),
            next,
            filter,
        ),
        previous.refs.remote != next.refs.remote && shows_remote(filter) ==> graph_outdated(
            Some(previous),
            next,
            filter,
        ),
        previous.refs.tags != next.refs.tags && filter != BranchFilter::HeadOnly
            ==> graph_outdated(Some(previous), next, filter),
        graph_outdated(None, next, filter),
{
    let (a, b) = (stash_ids(previous.stashes), stash_ids(next.stashes));
    if a == b && !same_stashes(previous, next) {
        assert(a.len() == previous.stashes.len() && b.len() == next.stashes.len());
        let k = choose|k: int|
            0 <= k < previous.stashes.len() && (#[trigger] previous.stashes[k]).oid
                != next.stashes[k].oid;
        assert(a[k] == previous.stashes[k].oid && b[k] == next.stashes[k].oid);
    }
}

/// Nothing else does: where all of that is the same, the graph stays, whatever became
/// of the files, the worktrees and the submodules.
pub proof fn law_nothing_else_outdates_the_graph(
    previous: RepoStatusView,
    next: RepoStatusView,
    filter: BranchFilter,
)
    requires
        previous.head_oid == next.head_oid,
        previous.branch == next.branch,
        previous.ahead == next.ahead,
        previous.behind == next.behind,
        same_stashes(previous, next),
        shows_local(filter) ==> previous.refs.local == next.refs.local,
        shows_remote(filter) ==> previous.refs.remote == next.refs.remote,
        filter != BranchFilter::HeadOnly ==> previous.refs.tags == next.refs.tags,
    ensures
        !graph_outdated(Some(previous), next, filter),
{
    assert(stash_ids(previous.stashes) =~= stash_ids(next.stashes));
}

} // verus!
