//! What is reported to the graph, and what is chosen for it.
use vstd::prelude::*;

use crate::action::ActionView;
use crate::app::AppView;
use crate::app::effect::EffectView;
use crate::git_graph::{GraphView, LoadRequestView};
use crate::git_graph::rows::{authors, branch_names, branch_names_in, with_known_stats};
use crate::model::{
    BranchLabelView, BranchSegmentView, DiffStat, GraphFiltersView, GraphRowView, Oid,
};

verus! {

/// The graph takes a step: a build that it asks for is asked for, and nothing else in
/// the program changes.
pub open spec fn graph_steps(
    before: AppView,
    after: AppView,
    graph: GraphView,
    load: Option<LoadRequestView>,
) -> bool {
    after == AppView {
        graph,
        outbox: if load is Some {
            before.outbox.push(EffectView::Load(load->0))
        } else {
            before.outbox
        },
        ..before
    }
}

proof fn lemma_with_graph(app: AppView, step: (GraphView, Option<LoadRequestView>))
    ensures
        graph_steps(app, app.with_graph(step), step.0, step.1),
{
    reveal(AppView::emit);
}

/// What a build reports is taken by the graph if it is the last one that was asked for:
/// rows, branch names, line counts, an error, or an end without a report.
pub proof fn law_last_build_is_taken(
    app: AppView,
    generation: u64,
    rows: Seq<GraphRowView>,
    segments: Seq<BranchSegmentView>,
    message: Seq<char>,
)
    requires
        generation == app.graph.load_generation,
    ensures
        ({
            let taken = app.graph.set_rows(rows, segments);
            graph_steps(
                app,
                app.graph_loaded(generation, rows, segments),
                taken.0,
                taken.1,
            )
        }),
        app.graph_error(generation, message) == (AppView {
            graph: GraphView {
                error: Some(message),
                loading: false,
                load_in_flight: false,
                ..app.graph
            },
            ..app
        }),
        ({
            let ended = app.graph.abort_load();
            graph_steps(
                app,
                app.graph_load_aborted(generation),
                ended.0,
                ended.1,
            )
        }),
{
    lemma_with_graph(app, app.graph.set_rows(rows, segments));
    lemma_with_graph(app, app.graph.abort_load());
    reveal(AppView::graph_loaded);
    reveal(AppView::graph_error);
    reveal(AppView::graph_load_aborted);
}

/// The same of branch names and line counts that a build reports.
pub proof fn law_last_build_tells_more(
    app: AppView,
    generation: u64,
    branches: Seq<Seq<char>>,
    stats: Seq<(Oid, DiffStat)>,
    name: Seq<char>,
)
    requires
        generation == app.graph.load_generation,
        app.graph.wf(),
    ensures
        ({
            let after = app.filter_branches_loaded(generation, branches);
            &&& after.graph.filter_branches.contains(name)
                <==> app.graph.filter_branches.contains(name) || branches.contains(name)
            &&& after == AppView {
                graph: GraphView { filter_branches: after.graph.filter_branches, ..app.graph },
                ..app
            }
        }),
        app.diff_stats_loaded(generation, stats) == (AppView {
            graph: app.graph.set_diff_stats(stats),
            ..app
        }),
{
    app.graph.lemma_wf();
    crate::names::lemma_with_names(app.graph.filter_branches, branches);
    reveal(AppView::emit);
    reveal(AppView::filter_branches_loaded);
    reveal(AppView::diff_stats_loaded);
}

/// What a build reports that is not the last one is dropped.
pub proof fn law_late_builds_are_dropped(
    app: AppView,
    generation: u64,
    rows: Seq<GraphRowView>,
    segments: Seq<BranchSegmentView>,
    message: Seq<char>,
)
    requires
        generation != app.graph.load_generation,
    ensures
        app.graph_loaded(generation, rows, segments) == app,
        app.graph_error(generation, message) == app,
        app.graph_load_aborted(generation) == app,
{
    reveal(AppView::graph_loaded);
    reveal(AppView::graph_error);
    reveal(AppView::graph_load_aborted);
}

/// The same of branch names and line counts.
pub proof fn law_late_reports_are_dropped(
    app: AppView,
    generation: u64,
    branches: Seq<Seq<char>>,
    stats: Seq<(Oid, DiffStat)>,
)
    requires
        generation != app.graph.load_generation,
    ensures
        app.filter_branches_loaded(generation, branches) == app,
        app.diff_stats_loaded(generation, stats) == app,
{
    reveal(AppView::filter_branches_loaded);
    reveal(AppView::diff_stats_loaded);
}

/// Files and diffs of a commit that were not asked for last are dropped; the diff that
/// was is shown.
pub proof fn law_late_details_are_dropped(
    app: AppView,
    generation: u64,
    oid: Seq<char>,
    message: Seq<char>,
    files: Seq<(Seq<char>, Seq<char>)>,
)
    ensures
        generation != app.graph.detail_generation ==> app.commit_files_loaded(
            generation,
            oid,
            message,
            files,
        ) == app,
        app.commit_diff_loaded(generation, message) == (AppView {
            graph: if generation == app.graph.detail_generation {
                app.graph.set_commit_diff(message)
            } else {
                app.graph
            },
            ..app
        }),
{
    reveal(AppView::commit_files_loaded);
    reveal(AppView::commit_diff_loaded);
}

/// The files of a commit that arrive open its detail, and the diff of the first of them
/// is asked for at once.
pub proof fn law_first_diff_comes_with_the_files(
    app: AppView,
    generation: u64,
    oid: Seq<char>,
    message: Seq<char>,
    files: Seq<(Seq<char>, Seq<char>)>,
)
    requires
        generation == app.graph.detail_generation < u64::MAX,
        files.len() > 0,
        app.graph.repo_path is Some,
    ensures
        ({
            let after = app.commit_files_loaded(generation, oid, message, files);
            &&& after.outbox == app.outbox.push(
                EffectView::Send(
                    ActionView::ShowCommitDiff {
                        repo_path: app.graph.repo_path->0,
                        oid: oid,
                        file_path: files[0].1,
                    },
                ),
            )
            &&& after.graph.detail is Some
            &&& after.graph.detail->0.files == files
            &&& after.graph.detail->0.file_state.selected == Some(0usize)
            &&& after.graph.detail_generation == generation + 1
        }),
{
    reveal(AppView::emit);
    reveal(AppView::commit_files_loaded);
    assert(files[0] == (files[0].0, files[0].1));
}

/// The menu of a commit is that of the selected row, and the choice of filters shows the
/// filters, the branches and the authors of the graph.
pub proof fn law_graph_menus(app: AppView, k: int)
    ensures
        ({
            let rows = crate::laws::search::in_sight(app.graph);
            &&& app.graph.state.selected == Some(k as usize) && 0 <= k < rows.len() <= usize::MAX
                ==> app.open_graph_context_menu() == AppView {
                outbox: app.outbox.push(EffectView::HideGraphFilters).push(
                    EffectView::ShowGraphMenu {
                        full_hash: rows[k].oid.text(),
                        short_hash: rows[k].short_id,
                        message: rows[k].message,
                        first_parent: app.graph.options.first_parent,
                        can_toggle: app.graph.can_toggle(),
                    },
                ),
                ..app
            }
            &&& app.graph.state.selected is None ==> app.open_graph_context_menu()
                == app
        }),
        app.open_graph_filters() == (AppView {
            outbox: app.outbox.push(
                EffectView::ShowGraphFilters {
                    filters: app.graph.options.filters,
                    branches: app.graph.filter_branches,
                    authors: app.graph.filter_authors,
                    first_parent: app.graph.options.first_parent,
                },
            ),
            ..app
        }),
{
    crate::laws::search::lemma_in_sight(app.graph);
    reveal(AppView::emit);
    reveal(AppView::open_graph_context_menu);
    reveal(AppView::open_graph_filters);
}

/// Actions of the graph menu do what the keys of the panel do.
pub proof fn law_graph_actions_reach_the_graph(app: AppView)
    ensures
        app.open_graph_search() == (AppView {
            graph: app.graph.open_search(),
            ..app
        }),
        app.toggle_graph_collapse() == (AppView {
            graph: app.graph.toggle_collapse_selected(),
            ..app
        }),
        app.expand_all_graph_branches() == (AppView {
            graph: app.graph.expand_all_branches(),
            ..app
        }),
        ({
            let (graph, asked) = app.graph.try_show_commit_files();
            app.open_graph_commit_files() == AppView {
                graph,
                outbox: if asked is Some {
                    app.outbox.push(EffectView::Send(asked->0))
                } else {
                    app.outbox
                },
                ..app
            }
        }),
{
    reveal(AppView::emit);
    reveal(AppView::open_graph_search);
    reveal(AppView::toggle_graph_collapse);
    reveal(AppView::expand_all_graph_branches);
    reveal(AppView::open_graph_commit_files);
}

/// Filters are set as chosen, and what is then to be built is asked for.
pub proof fn law_chosen_filters_are_set(app: AppView, filters: GraphFiltersView)
    ensures
        ({
            let set = app.graph.set_filters(filters);
            graph_steps(app, app.set_graph_filters(filters), set.0, set.1)
        }),
{
    lemma_with_graph(app, app.graph.set_filters(filters));
    reveal(AppView::set_graph_filters);
}

/// First parents only are followed, or all, as chosen.
pub proof fn law_chosen_parents_are_followed(app: AppView, enabled: bool)
    ensures
        ({
            let set = app.graph.set_first_parent(enabled);
            graph_steps(app, app.set_graph_first_parent(enabled), set.0, set.1)
        }),
{
    lemma_with_graph(app, app.graph.set_first_parent(enabled));
    reveal(AppView::set_graph_first_parent);
}

proof fn lemma_filters_set(graph: GraphView, filters: GraphFiltersView, enabled: bool)
    ensures
        graph.set_filters(filters).0.options.filters == filters,
        graph.set_first_parent(enabled).0.options.first_parent == enabled,
        graph.set_first_parent(enabled).0.options.filters == graph.options.filters,
{
}

/// Resetting the filters lets everything through and follows all parents.
pub proof fn law_filters_are_reset(app: AppView)
    ensures
        ({
            let after = app.reset_graph_filters();
            &&& after.graph.options.filters.branches is None
            &&& after.graph.options.filters.authors is None
            &&& !after.graph.options.first_parent
        }),
{
    let open = GraphFiltersView::everything();
    let first = app.set_graph_filters(open);
    assert(first.graph == app.graph.set_filters(open).0) by {
        reveal(AppView::set_graph_filters);
        lemma_with_graph(app, app.graph.set_filters(open));
    }
    let second = first.set_graph_first_parent(false);
    assert(second.graph == first.graph.set_first_parent(false).0) by {
        reveal(AppView::set_graph_first_parent);
        lemma_with_graph(first, first.graph.set_first_parent(false));
    }
    lemma_filters_set(app.graph, open, false);
    lemma_filters_set(first.graph, open, false);
    reveal(AppView::reset_graph_filters);
}

/// A branch of this name stands beside one of some rows.
pub open spec fn names_branch(rows: Seq<GraphRowView>, name: Seq<char>) -> bool {
    exists|r: int, l: int| #[trigger] branch_label_at(rows, r, l, name)
}

/// Label `l` of row `r` is a branch of this name, and neither a tag nor a stash.
pub open spec fn branch_label_at(
    rows: Seq<GraphRowView>,
    r: int,
    l: int,
    name: Seq<char>,
) -> bool {
    &&& 0 <= r < rows.len()
    &&& 0 <= l < rows[r].labels.len()
    &&& rows[r].labels[l].name == name
    &&& !rows[r].labels[l].is_tag
    &&& !rows[r].labels[l].is_stash
}

proof fn lemma_labels(labels: Seq<BranchLabelView>, name: Seq<char>)
    ensures
        branch_names_in(labels).contains(name) <==> exists|l: int|
            0 <= l < labels.len() && (#[trigger] labels[l]).name == name && !labels[l].is_tag
                && !labels[l].is_stash,
    decreases labels.len(),
{
    if labels.len() > 0 {
        let init = labels.drop_last();
        let before = branch_names_in(init);
        lemma_labels(init, name);
        let all = branch_names_in(labels);
        let last = labels.last();
        if all.contains(name) {
            let k = choose|k: int| 0 <= k < all.len() && all[k] == name;
            if k < before.len() {
                assert(before[k] == name);
                assert(before.contains(name));
                let l = choose|l: int|
                    0 <= l < init.len() && (#[trigger] init[l]).name == name && !init[l].is_tag
                        && !init[l].is_stash;
                assert(labels[l] == init[l]);
            } else {
                assert(labels[labels.len() - 1].name == name);
            }
        }
        if exists|l: int|
            0 <= l < labels.len() && (#[trigger] labels[l]).name == name && !labels[l].is_tag
                && !labels[l].is_stash {
            let l = choose|l: int|
                0 <= l < labels.len() && (#[trigger] labels[l]).name == name && !labels[l].is_tag
                    && !labels[l].is_stash;
            if l < init.len() {
                assert(init[l] == labels[l]);
                assert(before.contains(name));
                let k = choose|k: int| 0 <= k < before.len() && before[k] == name;
                assert(all[k] == name);
            } else {
                assert(all[before.len() as int] == name);
            }
        }
    }
}

proof fn lemma_branches(rows: Seq<GraphRowView>, name: Seq<char>)
    ensures
        branch_names(rows).contains(name) <==> names_branch(rows, name),
    decreases rows.len(),
{
    if rows.len() > 0 {
        let init = rows.drop_last();
        let end = rows.len() - 1;
        let before = branch_names(init);
        let own = branch_names_in(rows.last().labels);
        let all = branch_names(rows);
        lemma_branches(init, name);
        lemma_labels(rows.last().labels, name);
        assert(all == before + own);
        if all.contains(name) {
            let k = choose|k: int| 0 <= k < all.len() && all[k] == name;
            if k < before.len() {
                assert(before[k] == name);
                assert(before.contains(name));
                let (r, l) = choose|r: int, l: int| #[trigger] branch_label_at(init, r, l, name);
                assert(rows[r] == init[r]);
                assert(branch_label_at(rows, r, l, name));
            } else {
                assert(own[k - before.len()] == name);
                assert(own.contains(name));
                let labels = rows.last().labels;
                let l = choose|l: int|
                    0 <= l < labels.len() && (#[trigger] labels[l]).name == name
                        && !labels[l].is_tag && !labels[l].is_stash;
                assert(branch_label_at(rows, end, l, name));
            }
        }
        if names_branch(rows, name) {
            let (r, l) = choose|r: int, l: int| #[trigger] branch_label_at(rows, r, l, name);
            if r < end {
                assert(rows[r] == init[r]);
                assert(branch_label_at(init, r, l, name));
                assert(before.contains(name));
                let k = choose|k: int| 0 <= k < before.len() && before[k] == name;
                assert(all[k] == name);
            } else {
                let labels = rows.last().labels;
                assert(labels[l].name == name);
                assert(own.contains(name));
                let k = choose|k: int| 0 <= k < own.len() && own[k] == name;
                assert(all[before.len() + k] == name);
            }
        }
    }
}

/// The branches and authors that can be chosen in the filters are those that could be
/// before, and those of the rows that arrive; tags and stashes are no branches.
pub proof fn law_rows_bring_their_names(
    graph: GraphView,
    rows: Seq<GraphRowView>,
    segments: Seq<BranchSegmentView>,
    name: Seq<char>,
)
    requires
        graph.wf(),
    ensures
        ({
            let after = graph.with_rows(rows, segments);
            &&& after.filter_branches.contains(name) <==> graph.filter_branches.contains(name)
                || names_branch(rows, name)
            &&& after.filter_authors.contains(name) <==> graph.filter_authors.contains(name) || (
            exists|r: int| 0 <= r < rows.len() && (#[trigger] rows[r]).author == name)
        }),
{
    graph.lemma_wf();
    let known = with_known_stats(graph.all_rows, rows);
    crate::names::lemma_with_names(graph.filter_branches, branch_names(known));
    crate::names::lemma_with_names(graph.filter_authors, authors(known));
    lemma_branches(known, name);
    if names_branch(known, name) {
        let (r, l) = choose|r: int, l: int| #[trigger] branch_label_at(known, r, l, name);
        assert(branch_label_at(rows, r, l, name));
    }
    if names_branch(rows, name) {
        let (r, l) = choose|r: int, l: int| #[trigger] branch_label_at(rows, r, l, name);
        assert(branch_label_at(known, r, l, name));
    }
    if authors(known).contains(name) {
        let r = choose|r: int| 0 <= r < known.len() && authors(known)[r] == name;
        assert(rows[r].author == name);
    }
    if exists|r: int| 0 <= r < rows.len() && (#[trigger] rows[r]).author == name {
        let r = choose|r: int| 0 <= r < rows.len() && (#[trigger] rows[r]).author == name;
        assert(authors(known)[r] == name);
    }
}

/// Where rows arrive, the row at the place that was selected is selected: the last row
/// where there are fewer, and the first where nothing was selected.
pub proof fn law_selected_place_is_kept(
    graph: GraphView,
    rows: Seq<GraphRowView>,
    segments: Seq<BranchSegmentView>,
)
    ensures
        ({
            let after = graph.with_rows(rows, segments);
            let n = after.display_rows().len();
            &&& n > 0 && graph.state.selected is None ==> after.state.selected == Some(0usize)
            &&& graph.state.selected is Some && graph.state.selected->0 < n
                ==> after.state.selected == graph.state.selected
            &&& 0 < n <= usize::MAX && graph.state.selected is Some && graph.state.selected->0 >= n
                ==> after.state.selected == Some((n - 1) as usize)
            &&& n > 0 ==> after.state.offset == graph.state.offset
        }),
{
}

} // verus!
