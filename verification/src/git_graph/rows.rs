//! What arrives for the graph, and what it is asked to show.
use vstd::prelude::*;
use vstd::string::*;
use crate::git_graph::collapse::segment_map;
use crate::git_graph::search::SearchView;
use crate::git_graph::{segments_fit, GitGraph, GraphView, LoadRequest, LoadRequestView};
use crate::model::{
    BranchLabelView, BranchSegment, BranchSegmentView, DiffStat, GraphFilters, GraphFiltersView,
    GraphOptionsView, GraphRow, GraphRowView, Oid,
};
use crate::names::{ascending, lemma_with_names, with_names};

verus! {

/// The line counts of commit `oid` in `rows`, from the last row that has any.
pub open spec fn known_stat(rows: Seq<GraphRowView>, oid: Oid) -> Option<DiffStat>
    decreases rows.len(),
{
    if rows.len() == 0 {
        None
    } else if rows.last().oid == oid && rows.last().diff_stat is Some {
        rows.last().diff_stat
    } else {
        known_stat(rows.drop_last(), oid)
    }
}

/// New rows with the line counts of the old ones where they have none.
pub open spec fn with_known_stats(
    old_rows: Seq<GraphRowView>,
    rows: Seq<GraphRowView>,
) -> Seq<GraphRowView> {
    Seq::new(
        rows.len(),
        |i: int|
            GraphRowView {
                diff_stat: if rows[i].diff_stat is Some {
                    rows[i].diff_stat
                } else {
                    known_stat(old_rows, rows[i].oid)
                },
                ..rows[i]
            },
    )
}

/// The line counts that a report gives for commit `oid`; the last ones count.
pub open spec fn reported_stat(stats: Seq<(Oid, DiffStat)>, oid: Oid) -> Option<DiffStat>
    decreases stats.len(),
{
    if stats.len() == 0 {
        None
    } else if stats.last().0 == oid {
        Some(stats.last().1)
    } else {
        reported_stat(stats.drop_last(), oid)
    }
}

/// Rows with the line counts that a report gives for them.
pub open spec fn with_reported_stats(
    rows: Seq<GraphRowView>,
    stats: Seq<(Oid, DiffStat)>,
) -> Seq<GraphRowView> {
    Seq::new(
        rows.len(),
        |i: int|
            GraphRowView {
                diff_stat: match reported_stat(stats, rows[i].oid) {
                    Some(stat) => Some(stat),
                    None => rows[i].diff_stat,
                },
                ..rows[i]
            },
    )
}

/// The names of branches among some labels: tags and stashes are left out.
pub open spec fn branch_names_in(labels: Seq<BranchLabelView>) -> Seq<Seq<char>>
    decreases labels.len(),
{
    if labels.len() == 0 {
        Seq::empty()
    } else {
        let before = branch_names_in(labels.drop_last());
        if labels.last().is_tag || labels.last().is_stash {
            before
        } else {
            before.push(labels.last().name)
        }
    }
}

/// The names of branches that stand beside some rows.
pub open spec fn branch_names(rows: Seq<GraphRowView>) -> Seq<Seq<char>>
    decreases rows.len(),
{
    if rows.len() == 0 {
        Seq::empty()
    } else {
        branch_names(rows.drop_last()) + branch_names_in(rows.last().labels)
    }
}

/// The authors of some rows.
pub open spec fn authors(rows: Seq<GraphRowView>) -> Seq<Seq<char>> {
    Seq::new(rows.len(), |i: int| rows[i].author)
}

impl GraphView {
    /// The selection stays where it was, as far as there are rows; with nothing
    /// selected it goes to the first row.
    pub open spec fn keep_selection(self, previous: Option<usize>) -> GraphView {
        let len = self.display_rows().len();
        if len == 0 {
            self
        } else {
            let index: usize = match previous {
                Some(i) => if i < len {
                    i
                } else {
                    (len - 1) as usize
                },
                None => 0,
            };
            GraphView { state: self.state.selecting(Some(index)), ..self }
        }
    }

    /// The panel with new rows and what is known of them.
    pub open spec fn with_rows(
        self,
        rows: Seq<GraphRowView>,
        segments: Seq<BranchSegmentView>,
    ) -> GraphView {
        let all_rows = with_known_stats(self.all_rows, rows);
        GraphView {
            filter_branches: with_names(self.filter_branches, branch_names(all_rows)),
            filter_authors: with_names(self.filter_authors, authors(all_rows)),
            all_rows,
            loading: false,
            load_in_flight: false,
            consecutive_aborts: 0,
            segments,
            row_to_segment: segment_map(segments, all_rows.len()),
            ..self
        }.recompute_collapsed_rows().keep_selection(self.state.selected)
    }

    /// The end of a build that found rows.
    pub open spec fn set_rows(
        self,
        rows: Seq<GraphRowView>,
        segments: Seq<BranchSegmentView>,
    ) -> (GraphView, Option<LoadRequestView>) {
        self.with_rows(rows, segments).take_reload()
    }

    /// Line counts that arrive after the rows.
    pub open spec fn set_diff_stats(self, stats: Seq<(Oid, DiffStat)>) -> GraphView {
        GraphView {
            all_rows: with_reported_stats(self.all_rows, stats),
            ..self
        }.recompute_collapsed_rows()
    }

    /// Other filters: branches are expanded, the search ends, and the graph is
    /// built again. The same filters change nothing.
    pub open spec fn set_filters(self, filters: GraphFiltersView) -> (
        GraphView,
        Option<LoadRequestView>,
    ) {
        if self.options.filters == filters {
            (self, None)
        } else {
            GraphView {
                options: GraphOptionsView { filters, ..self.options },
                collapsed: Set::empty(),
                search: SearchView::blank(),
                ..self
            }.reload_graph()
        }
    }

    /// Following only first parents, or not: a change builds the graph again.
    pub open spec fn set_first_parent(self, enabled: bool) -> (
        GraphView,
        Option<LoadRequestView>,
    ) {
        if self.options.first_parent == enabled {
            (self, None)
        } else {
            GraphView {
                options: GraphOptionsView { first_parent: enabled, ..self.options },
                ..self
            }.reload_graph()
        }
    }
}

/// The line counts of commit `oid` in `rows`.
fn find_stat(rows: &Vec<GraphRow>, oid: Oid) -> (r: Option<DiffStat>)
    ensures
        r == known_stat(rows.deep_view(), oid),
{
    let ghost all = rows.deep_view();
    let mut i: usize = rows.len();
    assert(all.take(i as int) =~= all);
    while i > 0
        invariant
            all == rows.deep_view(),
            i <= rows@.len(),
            known_stat(all.take(i as int), oid) == known_stat(all, oid),
        decreases i,
    {
        i = i - 1;
        assert(all.take(i + 1).last() == rows@[i as int].deep_view());
        assert(all.take(i + 1).drop_last() =~= all.take(i as int));
        if rows[i].oid == oid && rows[i].diff_stat.is_some() {
            return rows[i].diff_stat;
        }
    }
    None
}

/// The line counts that a report gives for commit `oid`.
fn find_report(stats: &Vec<(Oid, DiffStat)>, oid: Oid) -> (r: Option<DiffStat>)
    ensures
        r == reported_stat(stats@, oid),
{
    let mut i: usize = stats.len();
    assert(stats@.take(i as int) =~= stats@);
    while i > 0
        invariant
            i <= stats@.len(),
            reported_stat(stats@.take(i as int), oid) == reported_stat(stats@, oid),
        decreases i,
    {
        i = i - 1;
        assert(stats@.take(i + 1).last() == stats@[i as int]);
        assert(stats@.take(i + 1).drop_last() =~= stats@.take(i as int));
        if stats[i].0 == oid {
            return Some(stats[i].1);
        }
    }
    None
}

/// The names of branches that stand beside some rows.
fn list_branch_names(rows: &Vec<GraphRow>) -> (r: Vec<String>)
    ensures
        r.deep_view() == branch_names(rows.deep_view()),
{
    let ghost all = rows.deep_view();
    let mut out: Vec<String> = Vec::new();
    let mut i: usize = 0;
    assert(out.deep_view() =~= branch_names(all.take(0)));
    while i < rows.len()
        invariant
            all == rows.deep_view(),
            i <= rows@.len(),
            out.deep_view() == branch_names(all.take(i as int)),
        decreases rows@.len() - i,
    {
        let labels = &rows[i].labels;
        let ghost marks = labels.deep_view();
        let ghost before = out.deep_view();
        let mut k: usize = 0;
        assert(out.deep_view() =~= before + branch_names_in(marks.take(0)));
        while k < labels.len()
            invariant
                marks == labels.deep_view(),
                k <= labels@.len(),
                out.deep_view() == before + branch_names_in(marks.take(k as int)),
            decreases labels@.len() - k,
        {
            let ghost mid = out.deep_view();
            assert(marks.take(k + 1).last() == labels@[k as int].deep_view());
            assert(marks.take(k + 1).drop_last() =~= marks.take(k as int));
            if !labels[k].is_tag && !labels[k].is_stash {
                out.push(labels[k].name.clone());
                assert(out.deep_view() =~= mid.push(labels@[k as int].name@));
            }
            k = k + 1;
            assert(out.deep_view() =~= before + branch_names_in(marks.take(k as int)));
        }
        assert(marks.take(marks.len() as int) =~= marks);
        assert(all.take(i + 1).last() == rows@[i as int].deep_view());
        assert(all.take(i + 1).drop_last() =~= all.take(i as int));
        i = i + 1;
    }
    assert(all.take(all.len() as int) =~= all);
    out
}

/// The authors of some rows.
fn list_authors(rows: &Vec<GraphRow>) -> (r: Vec<String>)
    ensures
        r.deep_view() == authors(rows.deep_view()),
{
    let mut out: Vec<String> = Vec::new();
    let mut i: usize = 0;
    while i < rows.len()
        invariant
            i <= rows@.len(),
            out@.len() == i,
            forall|k: int| 0 <= k < i ==> (#[trigger] out@[k])@ == rows@[k].author@,
        decreases rows@.len() - i,
    {
        out.push(rows[i].author.clone());
        i = i + 1;
    }
    assert(out.deep_view() =~= authors(rows.deep_view()));
    out
}

impl GitGraph {
    /// Ends a build with the rows found and the branches off their trunk.
    pub fn set_rows(&mut self, rows: Vec<GraphRow>, segments: Vec<BranchSegment>) -> (r: Option<
        LoadRequest,
    >)
        requires
            old(self)@.wf(),
            old(self)@.load_generation < u64::MAX,
            segments_fit(segments.deep_view(), rows@.len()),
        ensures
            (final(self)@, r.deep_view()) == old(self)@.set_rows(
                rows.deep_view(),
                segments.deep_view(),
            ),
            final(self)@.wf(),
    {
        let prev_selected = self.state.selected;
        let mut rows = rows;
        let ghost given = rows.deep_view();
        let mut i: usize = 0;
        while i < rows.len()
            invariant
                *self == *old(self),
                rows@.len() == given.len(),
                i <= rows@.len(),
                forall|k: int|
                    i <= k < rows@.len() ==> (#[trigger] rows@[k]).deep_view() == given[k],
                forall|k: int|
                    0 <= k < i ==> (#[trigger] rows@[k]).deep_view() == with_known_stats(
                        self@.all_rows,
                        given,
                    )[k],
            decreases rows@.len() - i,
        {
            let ghost before = rows@;
            if rows[i].diff_stat.is_none() {
                let stat = find_stat(&self.all_rows, rows[i].oid);
                rows[i].diff_stat = stat;
            }
            assert(before[i as int].deep_view() == given[i as int]);
            assert(rows@[i as int].deep_view() =~= with_known_stats(
                self@.all_rows,
                given,
            )[i as int]);
            i = i + 1;
        }
        let ghost all = with_known_stats(old(self)@.all_rows, given);
        assert(rows.deep_view() =~= all);
        proof {
            lemma_with_names(self@.filter_branches, branch_names(all));
            lemma_with_names(self@.filter_authors, authors(all));
        }
        self.filter_branches.insert_all(list_branch_names(&rows));
        self.filter_authors.insert_all(list_authors(&rows));
        self.all_rows = rows;
        self.loading = false;
        self.load_in_flight = false;
        self.consecutive_aborts = 0;
        self.recompute_segments(segments);
        self.recompute_collapsed_rows();
        let len: usize = self.display_rows().len();
        assert(len == self@.display_rows().len());
        if len > 0 {
            let idx: usize = match prev_selected {
                Some(i) => if i < len {
                    i
                } else {
                    len - 1
                },
                None => 0,
            };
            self.state.select(Some(idx));
        }
        assert(self@ =~= old(self)@.with_rows(given, segments.deep_view()));
        self.take_reload()
    }

    /// Adds branches to those that can be filtered by.
    pub fn set_filter_branches(&mut self, branches: Vec<String>)
        requires
            old(self)@.wf(),
        ensures
            final(self)@ == (GraphView {
                filter_branches: with_names(old(self)@.filter_branches, branches.deep_view()),
                ..old(self)@
            }),
            final(self)@.wf(),
    {
        proof {
            lemma_with_names(self@.filter_branches, branches.deep_view());
        }
        self.filter_branches.insert_all(branches);
    }

    /// Records line counts.
    pub fn set_diff_stats(&mut self, stats: Vec<(Oid, DiffStat)>)
        requires
            old(self)@.wf(),
        ensures
            final(self)@ == old(self)@.set_diff_stats(stats@),
            final(self)@.wf(),
    {
        let ghost given = self@.all_rows;
        let mut i: usize = 0;
        while i < self.all_rows.len()
            invariant
                self@ == (GraphView { all_rows: self@.all_rows, ..old(self)@ }),
                given == old(self)@.all_rows,
                self.all_rows@.len() == given.len(),
                i <= self.all_rows@.len(),
                forall|k: int|
                    i <= k < given.len() ==> (#[trigger] self.all_rows@[k]).deep_view()
                        == given[k],
                forall|k: int|
                    0 <= k < i ==> (#[trigger] self.all_rows@[k]).deep_view()
                        == with_reported_stats(given, stats@)[k],
            decreases self.all_rows@.len() - i,
        {
            let ghost before = self.all_rows@;
            assert(before[i as int].deep_view() == given[i as int]);
            if let Some(stat) = find_report(&stats, self.all_rows[i].oid) {
                self.all_rows[i].diff_stat = Some(stat);
            }
            assert(self.all_rows@[i as int].deep_view() =~= with_reported_stats(
                given,
                stats@,
            )[i as int]);
            i = i + 1;
        }
        assert(self@.all_rows =~= with_reported_stats(given, stats@));
        self.recompute_collapsed_rows();
    }

    /// Changes the filters.
    pub fn set_filters(&mut self, filters: GraphFilters) -> (r: Option<LoadRequest>)
        requires
            old(self)@.wf(),
            old(self)@.load_generation < u64::MAX,
        ensures
            (final(self)@, r.deep_view()) == old(self)@.set_filters(filters.deep_view()),
            final(self)@.wf(),
    {
        if self.graph_options.filters.same(&filters) {
            return None;
        }
        self.graph_options.filters = filters;
        self.collapsed_branches.clear();
        self.search.clear();
        self.reload_graph()
    }

    /// Follows only first parents, or all.
    pub fn set_first_parent(&mut self, enabled: bool) -> (r: Option<LoadRequest>)
        requires
            old(self)@.wf(),
            old(self)@.load_generation < u64::MAX,
        ensures
            (final(self)@, r.deep_view()) == old(self)@.set_first_parent(enabled),
            final(self)@.wf(),
    {
        if self.graph_options.first_parent != enabled {
            self.graph_options.first_parent = enabled;
            self.reload_graph()
        } else {
            None
        }
    }
}

// ---------------------------------------------------------------------------
// Laws
// ---------------------------------------------------------------------------

/// Where new rows are shown, one of them is selected: the same place as before,
/// if there still is such a row.
pub proof fn law_selection_stays_in_range(
    graph: GraphView,
    rows: Seq<GraphRowView>,
    segments: Seq<BranchSegmentView>,
)
    ensures
        ({
            let after = graph.with_rows(rows, segments);
            let shown = after.display_rows().len();
            &&& shown > 0 ==> after.state.selected is Some && after.state.selected->0 < shown
            &&& graph.state.selected is Some && graph.state.selected->0 < shown
                ==> after.state.selected == graph.state.selected
        }),
{
}

proof fn lemma_known_stat(rows: Seq<GraphRowView>, oid: Oid)
    ensures
        match known_stat(rows, oid) {
            Some(stat) => exists|j: int|
                0 <= j < rows.len() && (#[trigger] rows[j]).oid == oid && rows[j].diff_stat
                    == Some(stat),
            None => forall|j: int|
                0 <= j < rows.len() && (#[trigger] rows[j]).oid == oid ==> rows[j].diff_stat
                    is None,
        },
    decreases rows.len(),
{
    if rows.len() > 0 {
        let init = rows.drop_last();
        lemma_known_stat(init, oid);
        if rows.last().oid == oid && rows.last().diff_stat is Some {
            assert(rows[rows.len() - 1].diff_stat == known_stat(rows, oid));
        } else {
            match known_stat(init, oid) {
                Some(stat) => {
                    let j = choose|j: int|
                        0 <= j < init.len() && (#[trigger] init[j]).oid == oid && init[j].diff_stat
                            == Some(stat);
                    assert(rows[j] == init[j]);
                },
                None => {
                    assert forall|j: int|
                        0 <= j < rows.len() && (#[trigger] rows[j]).oid == oid implies rows[j].diff_stat
                        is None by {
                        if j < rows.len() - 1 {
                            assert(init[j] == rows[j]);
                        }
                    }
                },
            }
        }
    }
}

/// Line counts are not lost when the graph is built again: a new row without them
/// has those of an old row of the same commit, if there are any, and all else in
/// the new rows is as it was built.
pub proof fn law_line_counts_are_kept(
    graph: GraphView,
    rows: Seq<GraphRowView>,
    segments: Seq<BranchSegmentView>,
    i: int,
)
    requires
        0 <= i < rows.len(),
    ensures
        ({
            let after = graph.with_rows(rows, segments).all_rows;
            &&& after.len() == rows.len()
            &&& after[i] == GraphRowView { diff_stat: after[i].diff_stat, ..rows[i] }
            &&& rows[i].diff_stat is Some ==> after[i].diff_stat == rows[i].diff_stat
            &&& rows[i].diff_stat is None ==> match after[i].diff_stat {
                Some(stat) => exists|j: int|
                    0 <= j < graph.all_rows.len() && (#[trigger] graph.all_rows[j]).oid
                        == rows[i].oid && graph.all_rows[j].diff_stat == Some(stat),
                None => forall|j: int|
                    0 <= j < graph.all_rows.len() && (#[trigger] graph.all_rows[j]).oid
                        == rows[i].oid ==> graph.all_rows[j].diff_stat is None,
            }
        }),
{
    lemma_known_stat(graph.all_rows, rows[i].oid);
}

/// What was once seen can be chosen in the filters from then on: names stay, the
/// authors of new rows join them, and all stand in order.
pub proof fn law_seen_names_stay(
    graph: GraphView,
    rows: Seq<GraphRowView>,
    segments: Seq<BranchSegmentView>,
    name: Seq<char>,
    i: int,
)
    requires
        graph.wf(),
        0 <= i < rows.len(),
    ensures
        ({
            let after = graph.with_rows(rows, segments);
            &&& graph.filter_branches.contains(name) ==> after.filter_branches.contains(name)
            &&& graph.filter_authors.contains(name) ==> after.filter_authors.contains(name)
            &&& after.filter_authors.contains(rows[i].author)
            &&& ascending(after.filter_branches)
            &&& ascending(after.filter_authors)
        }),
{
    let all_rows = with_known_stats(graph.all_rows, rows);
    lemma_with_names(graph.filter_branches, branch_names(all_rows));
    lemma_with_names(graph.filter_authors, authors(all_rows));
    assert(authors(all_rows)[i] == rows[i].author);
}

} // verus!
