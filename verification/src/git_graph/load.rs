//! Builds of the graph in the background: what they report, and what holds of
//! loading as a whole.
use vstd::prelude::*;
use vstd::string::*;
use crate::action::{Action, ActionView};
use crate::git_graph::rows::with_known_stats;
use crate::git_graph::{GraphView, LoadRequest, LoadRequestView, MAX_CONSECUTIVE_ABORTS};
use crate::model::{
    BranchSegment, BranchSegmentView, DiffStat, GraphFiltersView, GraphRow, GraphRowView, Oid,
};
use crate::text::concat2;

verus! {

/// Watches over a build: unless it is completed, its end is reported as an abort.
pub struct GraphLoadGuard {
    pub generation: u64,
    pub completed: bool,
}

impl GraphLoadGuard {
    /// The guard of a build that has not reported yet.
    pub fn new(generation: u64) -> (r: GraphLoadGuard)
        ensures
            r == (GraphLoadGuard { generation, completed: false }),
    {
        GraphLoadGuard { generation, completed: false }
    }

    /// The build has reported its end.
    pub fn complete(&mut self)
        ensures
            *final(self) == (GraphLoadGuard { completed: true, ..*old(self) }),
    {
        self.completed = true;
    }

    /// What is to be reported when the guard goes away.
    pub open spec fn last_words(self) -> Option<ActionView> {
        if self.completed {
            None
        } else {
            Some(ActionView::GraphLoadAborted { generation: self.generation })
        }
    }

    /// What is to be reported when the guard goes away.
    pub fn on_drop(&self) -> (r: Option<Action>)
        ensures
            r.deep_view() == self.last_words(),
    {
        if !self.completed {
            Some(Action::GraphLoadAborted { generation: self.generation })
        } else {
            None
        }
    }
}

/// The end of a build: what it reports, and for which commits the changed lines
/// are to be counted next.
pub struct BuildReport {
    pub action: Action,
    pub stats_for: Option<Vec<Oid>>,
}

/// The ids of the commits in some rows.
pub open spec fn ids_of(rows: Seq<GraphRowView>) -> Seq<Oid> {
    Seq::new(rows.len(), |i: int| rows[i].oid)
}

impl LoadRequest {
    /// Reports the branch names that were found; a failure is passed over.
    pub fn branches_report(&self, found: Result<Vec<String>, String>) -> (r: Option<Action>)
        ensures
            r.deep_view() == match found {
                Ok(branches) => Some(
                    ActionView::GraphFilterBranchesLoaded {
                        generation: self.generation,
                        branches: branches.deep_view(),
                    },
                ),
                Err(_) => None,
            },
    {
        match found {
            Ok(branches) => Some(
                Action::GraphFilterBranchesLoaded { generation: self.generation, branches },
            ),
            Err(_) => None,
        }
    }

    /// Reports the rows that were built, or why none were, and completes the
    /// guard. Lines are counted only where they are to be shown.
    pub fn build_report(
        &self,
        guard: &mut GraphLoadGuard,
        built: Result<(Vec<GraphRow>, Vec<BranchSegment>), String>,
    ) -> (r: BuildReport)
        ensures
            final(guard).completed,
            final(guard).generation == old(guard).generation,
            r.action.deep_view() == match built {
                Ok((rows, segments)) => ActionView::GraphLoaded {
                    generation: self.generation,
                    rows: rows.deep_view(),
                    segments: segments.deep_view(),
                },
                Err(e) => ActionView::GraphError {
                    generation: self.generation,
                    message: "Failed to load graph: "@ + e@,
                },
            },
            match r.stats_for {
                Some(ids) => self.options.show_stats && built is Ok && ids@ == ids_of(
                    built->Ok_0.0.deep_view(),
                ),
                None => !self.options.show_stats || built is Err,
            },
    {
        guard.complete();
        match built {
            Ok((rows, segments)) => {
                let stats_for = if self.options.show_stats {
                    let ghost want = ids_of(rows.deep_view());
                    let mut ids: Vec<Oid> = Vec::new();
                    let mut i: usize = 0;
                    while i < rows.len()
                        invariant
                            i <= rows@.len(),
                            want == ids_of(rows.deep_view()),
                            ids@ =~= want.take(i as int),
                        decreases rows@.len() - i,
                    {
                        assert(want[i as int] == rows@[i as int].oid);
                        ids.push(rows[i].oid);
                        i = i + 1;
                    }
                    assert(ids@ =~= want);
                    Some(ids)
                } else {
                    None
                };
                BuildReport {
                    action: Action::GraphLoaded { generation: self.generation, rows, segments },
                    stats_for,
                }
            },
            Err(e) => BuildReport {
                action: Action::GraphError {
                    generation: self.generation,
                    message: concat2("Failed to load graph: ", e.as_str()),
                },
                stats_for: None,
            },
        }
    }

    /// Reports the counted lines; a failure is passed over.
    pub fn stats_report(&self, counted: Result<Vec<(Oid, DiffStat)>, String>) -> (r: Option<
        Action,
    >)
        ensures
            r.deep_view() == match counted {
                Ok(stats) => Some(
                    ActionView::DiffStatsLoaded { generation: self.generation, stats: stats@ },
                ),
                Err(_) => None,
            },
    {
        match counted {
            Ok(stats) => Some(Action::DiffStatsLoaded { generation: self.generation, stats }),
            Err(_) => None,
        }
    }
}

// ---------------------------------------------------------------------------
// Laws of loading
// ---------------------------------------------------------------------------

/// While a build runs, loading the same repository any number of times asks for
/// no other build and leaves the panel as loading it once does.
pub proof fn law_loads_coalesce(
    graph: GraphView,
    path: Seq<char>,
    first: Seq<char>,
    second: Seq<char>,
)
    requires
        graph.load_in_flight,
        graph.repo_path == Some(path),
    ensures
        graph.load_repo(path, first).1 is None,
        graph.load_repo(path, first).0.load_repo(path, second) == graph.load_repo(path, first),
{
}

/// Loads that were put off during a build are made up for by one build when the
/// rows arrive, and a second arrival asks for nothing.
pub proof fn law_put_off_loads_are_done_once(
    graph: GraphView,
    path: Seq<char>,
    name: Seq<char>,
    rows: Seq<GraphRowView>,
    segments: Seq<BranchSegmentView>,
)
    requires
        graph.load_in_flight,
        graph.connected,
        graph.repo_path == Some(path),
    ensures
        ({
            let waiting = graph.load_repo(path, name).0;
            let (reloading, load) = waiting.set_rows(rows, segments);
            &&& load == Some(
                LoadRequestView {
                    generation: (graph.load_generation + 1) as u64,
                    path,
                    options: graph.options,
                },
            )
            &&& reloading.load_in_flight
            &&& reloading.set_rows(rows, segments).1 is None
        }),
{
}

/// Loading the same repository again keeps the rows, the selection, what is
/// collapsed and the filter values until the new rows arrive.
pub proof fn law_reload_keeps_rows(graph: GraphView)
    ensures
        ({
            let again = graph.reload_graph().0;
            &&& again.display_rows() == graph.display_rows()
            &&& again.state == graph.state
            &&& again.collapsed == graph.collapsed
            &&& again.detail == graph.detail
            &&& again.loading == graph.loading
            &&& again.filter_branches == graph.filter_branches
            &&& again.filter_authors == graph.filter_authors
        }),
{
}

/// Opening another repository leaves nothing of the one before: no rows, no
/// selection, no detail, no search, no filter values, no pending reload.
pub proof fn law_another_repository_starts_afresh(
    graph: GraphView,
    path: Seq<char>,
    name: Seq<char>,
)
    requires
        graph.repo_path != Some(path),
    ensures
        ({
            let opened = graph.load_repo(path, name).0;
            &&& opened.repo_path == Some(path)
            &&& opened.loading
            &&& opened.display_rows() == Seq::<GraphRowView>::empty()
            &&& opened.state.selected is None
            &&& opened.detail is None
            &&& opened.search == crate::git_graph::search::SearchView::blank()
            &&& opened.collapsed == Set::<Seq<char>>::empty()
            &&& opened.filter_branches == Seq::<Seq<char>>::empty()
            &&& opened.filter_authors == Seq::<Seq<char>>::empty()
            &&& !opened.needs_reload
            &&& opened.consecutive_aborts == 0
        }),
{
}

/// Every build asked for has a number of its own, higher than all before.
pub proof fn law_builds_are_numbered(graph: GraphView, path: Seq<char>, name: Seq<char>)
    requires
        graph.load_generation < u64::MAX,
    ensures
        graph.load_repo(path, name).0.load_generation >= graph.load_generation,
        graph.load_repo(path, name).1 matches Some(load) ==> {
            &&& load.generation == graph.load_repo(path, name).0.load_generation
            &&& load.generation > graph.load_generation
        },
{
}

/// How many builds are started again when `n` builds in a row end without a
/// report and a reload is pending each time.
pub open spec fn restarts(graph: GraphView, n: nat) -> nat
    decreases n,
{
    if n == 0 {
        0
    } else {
        let (after, load) = GraphView { needs_reload: true, ..graph }.abort_load();
        (if load is Some {
            1nat
        } else {
            0nat
        }) + restarts(after, (n - 1) as nat)
    }
}

/// Builds that keep ending without a report are started again a bounded number
/// of times, however many of them there are.
pub proof fn law_restarts_are_bounded(graph: GraphView, n: nat)
    ensures
        restarts(graph, n) <= MAX_CONSECUTIVE_ABORTS,
        graph.consecutive_aborts <= MAX_CONSECUTIVE_ABORTS ==> restarts(graph, n)
            <= MAX_CONSECUTIVE_ABORTS - graph.consecutive_aborts,
        graph.consecutive_aborts > MAX_CONSECUTIVE_ABORTS ==> restarts(graph, n) == 0,
    decreases n,
{
    if n > 0 {
        let after = GraphView { needs_reload: true, ..graph }.abort_load().0;
        law_restarts_are_bounded(after, (n - 1) as nat);
    }
}

/// A build that ends without a report is never left running: the panel stops
/// waiting, keeps its rows, and either starts one build for a pending reload or
/// says that it gave up.
pub proof fn law_abort_releases_the_panel(graph: GraphView)
    requires
        graph.load_in_flight,
    ensures
        ({
            let (after, load) = graph.abort_load();
            &&& after.load_in_flight == (load is Some)
            &&& !after.loading
            &&& after.display_rows() == graph.display_rows()
            &&& !after.needs_reload
            &&& graph.consecutive_aborts >= MAX_CONSECUTIVE_ABORTS ==> load is None
                && after.error == Some("Graph build failed repeatedly"@)
            &&& graph.needs_reload && graph.connected && graph.repo_path is Some
                && graph.consecutive_aborts < MAX_CONSECUTIVE_ABORTS ==> load is Some
        }),
{
}

/// An abort that is reported when no build runs changes nothing.
pub proof fn law_stray_abort_changes_nothing(graph: GraphView)
    requires
        !graph.load_in_flight,
    ensures
        graph.abort_load() == (graph, None::<LoadRequestView>),
{
}

/// Rows that arrive end the row of aborted builds.
pub proof fn law_success_resets_aborts(
    graph: GraphView,
    rows: Seq<GraphRowView>,
    segments: Seq<BranchSegmentView>,
)
    ensures
        graph.set_rows(rows, segments).0.consecutive_aborts == 0,
        graph.set_rows(rows, segments).0.all_rows == with_known_stats(graph.all_rows, rows),
{
}

/// A build reports its end exactly once: after a report the guard has nothing to
/// say, and without one it reports an abort under the number of the build.
pub proof fn law_build_ends_once(guard: GraphLoadGuard)
    ensures
        guard.completed <==> guard.last_words() is None,
        !guard.completed ==> guard.last_words() == Some(
            ActionView::GraphLoadAborted { generation: guard.generation },
        ),
{
}

/// Setting the filters that are already set changes nothing and asks for no
/// build.
pub proof fn law_same_filters_change_nothing(graph: GraphView, filters: GraphFiltersView)
    ensures
        graph.set_filters(graph.options.filters) == (graph, None::<LoadRequestView>),
        ({
            let set = graph.set_filters(filters).0;
            set.set_filters(filters) == (set, None::<LoadRequestView>)
        }),
{
}

} // verus!
