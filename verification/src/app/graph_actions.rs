//! What happens to the graph panel.
use vstd::prelude::*;
use vstd::string::*;
use crate::action::{Action, ActionView};
use crate::app::effect::{Effect, EffectView};
use crate::app::{App, AppView};
use crate::git_graph::detail::law_first_file_is_asked_for;
use crate::git_graph::{segments_fit, GraphView, LoadRequest};
use crate::model::{
    BranchSegment, BranchSegmentView, DiffStat, GraphFilters, GraphFiltersView, GraphRow,
    GraphRowView, Oid,
};
use crate::names::with_names;

verus! {

impl AppView {
    /// The program with another graph.
    pub open spec fn with_graph_only(self, graph: GraphView) -> AppView {
        AppView { graph, ..self }
    }

    /// Rows arrive; those of a build that is not the last one are dropped.
    #[verifier::opaque]
    pub open spec fn graph_loaded(
        self,
        generation: u64,
        rows: Seq<GraphRowView>,
        segments: Seq<BranchSegmentView>,
    ) -> AppView {
        if generation == self.graph.load_generation {
            self.with_graph(self.graph.set_rows(rows, segments))
        } else {
            self
        }
    }

    /// Branch names arrive; those of a build that is not the last one are dropped.
    #[verifier::opaque]
    pub open spec fn filter_branches_loaded(
        self,
        generation: u64,
        branches: Seq<Seq<char>>,
    ) -> AppView {
        if generation == self.graph.load_generation {
            self.with_graph_only(
                GraphView {
                    filter_branches: with_names(self.graph.filter_branches, branches),
                    ..self.graph
                },
            )
        } else {
            self
        }
    }

    /// Line counts arrive; those of a build that is not the last one are dropped.
    #[verifier::opaque]
    pub open spec fn diff_stats_loaded(
        self,
        generation: u64,
        stats: Seq<(Oid, DiffStat)>,
    ) -> AppView {
        if generation == self.graph.load_generation {
            self.with_graph_only(self.graph.set_diff_stats(stats))
        } else {
            self
        }
    }

    /// A build has failed; one that is not the last one is passed over, so that it
    /// cannot spoil the present graph.
    #[verifier::opaque]
    pub open spec fn graph_error(self, generation: u64, message: Seq<char>) -> AppView {
        if generation == self.graph.load_generation {
            self.with_graph_only(self.graph.set_error(message))
        } else {
            self
        }
    }

    /// A build ended without a report; one that is not the last one is passed
    /// over.
    #[verifier::opaque]
    pub open spec fn graph_load_aborted(self, generation: u64) -> AppView {
        if generation == self.graph.load_generation {
            self.with_graph(self.graph.abort_load())
        } else {
            self
        }
    }

    /// The files of a commit arrive, and the diff of the first of them is asked
    /// for; files that were not asked for last are dropped.
    #[verifier::opaque]
    pub open spec fn commit_files_loaded(
        self,
        generation: u64,
        oid: Seq<char>,
        message: Seq<char>,
        files: Seq<(Seq<char>, Seq<char>)>,
    ) -> AppView {
        if generation == self.graph.detail_generation {
            let (graph, action) = self.graph.set_commit_files(
                oid,
                message,
                files,
            ).try_show_commit_diff();
            let shown = self.with_graph_only(graph);
            match action {
                Some(action) => shown.emit(EffectView::Send(action)),
                None => shown,
            }
        } else {
            self
        }
    }

    /// The diff of a commit's file arrives; one that was not asked for last is
    /// dropped.
    #[verifier::opaque]
    pub open spec fn commit_diff_loaded(self, generation: u64, content: Seq<char>) -> AppView {
        if generation == self.graph.detail_generation {
            self.with_graph_only(self.graph.set_commit_diff(content))
        } else {
            self
        }
    }

    /// The choice of branches and authors.
    #[verifier::opaque]
    pub open spec fn open_graph_filters(self) -> AppView {
        self.emit(
            EffectView::ShowGraphFilters {
                filters: self.graph.options.filters,
                branches: self.graph.filter_branches,
                authors: self.graph.filter_authors,
                first_parent: self.graph.options.first_parent,
            },
        )
    }

    /// The menu of the selected commit.
    #[verifier::opaque]
    pub open spec fn open_graph_context_menu(self) -> AppView {
        match self.graph.selected_row() {
            Some(row) => self.emit(EffectView::HideGraphFilters).emit(
                EffectView::ShowGraphMenu {
                    full_hash: row.oid.text(),
                    short_hash: row.short_id,
                    message: row.message,
                    first_parent: self.graph.options.first_parent,
                    can_toggle: self.graph.can_toggle(),
                },
            ),
            None => self,
        }
    }

    /// The files of the selected commit.
    #[verifier::opaque]
    pub open spec fn open_graph_commit_files(self) -> AppView {
        let (graph, action) = self.graph.try_show_commit_files();
        let asked = self.with_graph_only(graph);
        match action {
            Some(action) => asked.emit(EffectView::Send(action)),
            None => asked,
        }
    }

    /// Other filters.
    #[verifier::opaque]
    pub open spec fn set_graph_filters(self, filters: GraphFiltersView) -> AppView {
        self.with_graph(self.graph.set_filters(filters))
    }

    /// First parents only, or all parents.
    #[verifier::opaque]
    pub open spec fn set_graph_first_parent(self, enabled: bool) -> AppView {
        self.with_graph(self.graph.set_first_parent(enabled))
    }

    /// No filters, and all parents.
    #[verifier::opaque]
    pub open spec fn reset_graph_filters(self) -> AppView {
        self.set_graph_filters(GraphFiltersView::everything()).set_graph_first_parent(false)
    }
}

impl App {
    /// Shows the rows of a build.
    fn take_rows(&mut self, rows: Vec<GraphRow>, segments: Vec<BranchSegment>) -> (load: Option<LoadRequest>)
        requires
            old(self)@.wf(),
            old(self)@.graph.load_generation < u64::MAX,
            segments_fit(segments.deep_view(), rows@.len()),
        ensures
            final(self)@ == old(self)@.with_graph_only(old(self)@.graph.set_rows(rows.deep_view(), segments.deep_view()).0),
            load.deep_view() == old(self)@.graph.set_rows(rows.deep_view(), segments.deep_view()).1,
            final(self)@.wf(),
    {
        self.git_graph.set_rows(rows, segments)
    }

    /// Gives up a build.
    fn abort_build(&mut self) -> (load: Option<LoadRequest>)
        requires
            old(self)@.wf(),
            old(self)@.graph.load_generation < u64::MAX,
        ensures
            final(self)@ == old(self)@.with_graph_only(old(self)@.graph.abort_load().0),
            load.deep_view() == old(self)@.graph.abort_load().1,
            final(self)@.wf(),
    {
        self.git_graph.abort_load()
    }

    /// Lets the panel use other filters.
    fn change_filters(&mut self, filters: GraphFilters) -> (load: Option<LoadRequest>)
        requires
            old(self)@.wf(),
            old(self)@.graph.load_generation < u64::MAX,
        ensures
            final(self)@ == old(self)@.with_graph_only(old(self)@.graph.set_filters(filters.deep_view()).0),
            load.deep_view() == old(self)@.graph.set_filters(filters.deep_view()).1,
            final(self)@.wf(),
    {
        self.git_graph.set_filters(filters)
    }

    /// Lets the panel follow first parents only, or all.
    fn change_first_parent(&mut self, enabled: bool) -> (load: Option<LoadRequest>)
        requires
            old(self)@.wf(),
            old(self)@.graph.load_generation < u64::MAX,
        ensures
            final(self)@ == old(self)@.with_graph_only(old(self)@.graph.set_first_parent(enabled).0),
            load.deep_view() == old(self)@.graph.set_first_parent(enabled).1,
            final(self)@.wf(),
    {
        self.git_graph.set_first_parent(enabled)
    }

    /// Takes the rows of a build.
    pub fn graph_loaded(
        &mut self,
        generation: u64,
        rows: Vec<GraphRow>,
        segments: Vec<BranchSegment>,
    )
        requires
            old(self)@.wf(),
            old(self)@.graph.can_count(),
            segments_fit(segments.deep_view(), rows@.len()),
        ensures
            final(self)@ == old(self)@.graph_loaded(
                generation,
                rows.deep_view(),
                segments.deep_view(),
            ),
            final(self)@.wf(),
    {
        proof {
            reveal(AppView::graph_loaded);
        }
        if generation == self.git_graph.current_generation() {
            let load = self.take_rows(rows, segments);
            self.emit_load(load);
        }
    }

    /// Takes the branch names that a build found.
    pub fn filter_branches_loaded(&mut self, generation: u64, branches: Vec<String>)
        requires
            old(self)@.wf(),
        ensures
            final(self)@ == old(self)@.filter_branches_loaded(generation, branches.deep_view()),
            final(self)@.wf(),
    {
        proof {
            reveal(AppView::filter_branches_loaded);
        }
        if generation == self.git_graph.current_generation() {
            self.git_graph.set_filter_branches(branches);
        }
    }

    /// Takes the line counts of a build.
    pub fn diff_stats_loaded(&mut self, generation: u64, stats: Vec<(Oid, DiffStat)>)
        requires
            old(self)@.wf(),
        ensures
            final(self)@ == old(self)@.diff_stats_loaded(generation, stats@),
            final(self)@.wf(),
    {
        proof {
            reveal(AppView::diff_stats_loaded);
        }
        if generation == self.git_graph.current_generation() {
            self.git_graph.set_diff_stats(stats);
        }
    }

    /// Takes the failure of a build.
    pub fn graph_error(&mut self, generation: u64, message: String)
        requires
            old(self)@.wf(),
        ensures
            final(self)@ == old(self)@.graph_error(generation, message@),
            final(self)@.wf(),
    {
        proof {
            reveal(AppView::graph_error);
        }
        if generation == self.git_graph.current_generation() {
            self.git_graph.set_error(message);
        }
    }

    /// Takes the end of a build without a report.
    pub fn graph_load_aborted(&mut self, generation: u64)
        requires
            old(self)@.wf(),
            old(self)@.graph.can_count(),
        ensures
            final(self)@ == old(self)@.graph_load_aborted(generation),
            final(self)@.wf(),
    {
        proof {
            reveal(AppView::graph_load_aborted);
        }
        if generation == self.git_graph.current_generation() {
            let load = self.abort_build();
            self.emit_load(load);
        }
    }

    /// Opens the detail of a commit, and gives the question for the diff of its
    /// first file.
    fn open_commit_files(
        &mut self,
        oid: String,
        message: String,
        files: Vec<(String, String)>,
    ) -> (asked: Option<Action>)
        requires
            old(self)@.wf(),
            old(self)@.graph.can_count(),
        ensures
            ({
                let step = old(self)@.graph.set_commit_files(
                    oid@,
                    message@,
                    files.deep_view(),
                ).try_show_commit_diff();
                &&& final(self)@ == old(self)@.with_graph_only(step.0)
                &&& asked.deep_view() == step.1
            }),
            final(self)@.wf(),
    {
        self.git_graph.set_commit_files(oid, message, files);
        self.git_graph.try_show_commit_diff()
    }

    /// Takes the files of a commit.
    pub fn commit_files_loaded(
        &mut self,
        generation: u64,
        oid: String,
        message: String,
        files: Vec<(String, String)>,
    )
        requires
            old(self)@.wf(),
            old(self)@.graph.can_count(),
        ensures
            final(self)@ == old(self)@.commit_files_loaded(
                generation,
                oid@,
                message@,
                files.deep_view(),
            ),
            final(self)@.wf(),
    {
        proof {
            reveal(AppView::commit_files_loaded);
        }
        if generation == self.git_graph.current_detail_generation() {
            let asked = self.open_commit_files(oid, message, files);
            if let Some(action) = asked {
                self.emit(Effect::Send(action));
            }
        }
    }

    /// Takes the diff of a commit's file.
    pub fn commit_diff_loaded(&mut self, generation: u64, content: String)
        requires
            old(self)@.wf(),
        ensures
            final(self)@ == old(self)@.commit_diff_loaded(generation, content@),
            final(self)@.wf(),
    {
        proof {
            reveal(AppView::commit_diff_loaded);
        }
        if generation == self.git_graph.current_detail_generation() {
            self.git_graph.set_commit_diff(content);
        }
    }

    /// Shows the choice of branches and authors.
    pub fn open_graph_filters(&mut self)
        requires
            old(self)@.wf(),
        ensures
            final(self)@ == old(self)@.open_graph_filters(),
            final(self)@.wf(),
    {
        proof {
            reveal(AppView::open_graph_filters);
        }
        let filters = self.git_graph.filters();
        let branches = self.git_graph.filter_branches();
        let authors = self.git_graph.filter_authors();
        let first_parent = self.git_graph.first_parent();
        self.emit(Effect::ShowGraphFilters { filters, branches, authors, first_parent });
    }

    /// Shows the menu of the selected commit.
    pub fn open_graph_context_menu(&mut self)
        requires
            old(self)@.wf(),
        ensures
            final(self)@ == old(self)@.open_graph_context_menu(),
            final(self)@.wf(),
    {
        proof {
            reveal(AppView::open_graph_context_menu);
        }
        let first_parent = self.git_graph.first_parent();
        let can_toggle = self.git_graph.can_toggle_selected_branch();
        if let Some((full_hash, short_hash, message)) =
            self.git_graph.selected_commit_menu_data() {
            self.emit(Effect::HideGraphFilters);
            self.emit(
                Effect::ShowGraphMenu { full_hash, short_hash, message, first_parent, can_toggle },
            );
        }
    }

    /// Lets the panel wait for the files of the selected commit, and gives the
    /// question.
    fn ask_commit_files(&mut self) -> (asked: Option<Action>)
        requires
            old(self)@.wf(),
            old(self)@.graph.can_count(),
        ensures
            final(self)@ == old(self)@.with_graph_only(old(self)@.graph.try_show_commit_files().0),
            asked.deep_view() == old(self)@.graph.try_show_commit_files().1,
            final(self)@.wf(),
    {
        self.git_graph.open_selected_commit_files()
    }

    /// Asks for the files of the selected commit.
    pub fn open_graph_commit_files(&mut self)
        requires
            old(self)@.wf(),
            old(self)@.graph.can_count(),
        ensures
            final(self)@ == old(self)@.open_graph_commit_files(),
            final(self)@.wf(),
    {
        proof {
            reveal(AppView::open_graph_commit_files);
        }
        let asked = self.ask_commit_files();
        if let Some(action) = asked {
            self.emit(Effect::Send(action));
        }
    }

    /// Sets other filters.
    pub fn set_graph_filters(&mut self, filters: GraphFilters)
        requires
            old(self)@.wf(),
            old(self)@.graph.load_generation < u64::MAX,
        ensures
            final(self)@ == old(self)@.set_graph_filters(filters.deep_view()),
            final(self)@.graph == old(self)@.graph.set_filters(filters.deep_view()).0,
            final(self)@.wf(),
    {
        proof {
            reveal(AppView::set_graph_filters);
        }
        let load = self.change_filters(filters);
        self.emit_load(load);
    }

    /// Follows first parents only, or all parents.
    pub fn set_graph_first_parent(&mut self, enabled: bool)
        requires
            old(self)@.wf(),
            old(self)@.graph.load_generation < u64::MAX,
        ensures
            final(self)@ == old(self)@.set_graph_first_parent(enabled),
            final(self)@.wf(),
    {
        proof {
            reveal(AppView::set_graph_first_parent);
        }
        let load = self.change_first_parent(enabled);
        self.emit_load(load);
    }

    /// Sets no filters, and follows all parents.
    pub fn reset_graph_filters(&mut self)
        requires
            old(self)@.wf(),
            old(self)@.graph.can_count(),
        ensures
            final(self)@ == old(self)@.reset_graph_filters(),
            final(self)@.wf(),
    {
        proof {
            reveal(AppView::reset_graph_filters);
        }
        self.set_graph_filters(GraphFilters::new());
        self.set_graph_first_parent(false);
    }
}

// ---------------------------------------------------------------------------
// Laws
// ---------------------------------------------------------------------------

/// What a build reports that is not the last one asked for changes nothing, so
/// that the graph of one repository never shows what was found in another.
pub proof fn law_stale_builds_change_nothing(
    app: AppView,
    generation: u64,
    rows: Seq<GraphRowView>,
    segments: Seq<BranchSegmentView>,
    branches: Seq<Seq<char>>,
    stats: Seq<(Oid, DiffStat)>,
    message: Seq<char>,
)
    requires
        generation != app.graph.load_generation,
    ensures
        app.graph_loaded(generation, rows, segments) == app,
        app.filter_branches_loaded(generation, branches) == app,
        app.diff_stats_loaded(generation, stats) == app,
        app.graph_error(generation, message) == app,
        app.graph_load_aborted(generation) == app,
{
    reveal(AppView::graph_loaded);
    reveal(AppView::filter_branches_loaded);
    reveal(AppView::diff_stats_loaded);
    reveal(AppView::graph_error);
    reveal(AppView::graph_load_aborted);
}

/// Files and diffs of a commit that were not asked for last change nothing.
pub proof fn law_stale_details_change_nothing(
    app: AppView,
    generation: u64,
    oid: Seq<char>,
    message: Seq<char>,
    files: Seq<(Seq<char>, Seq<char>)>,
    content: Seq<char>,
)
    requires
        generation != app.graph.detail_generation,
    ensures
        app.commit_files_loaded(generation, oid, message, files) == app,
        app.commit_diff_loaded(generation, content) == app,
{
    reveal(AppView::commit_files_loaded);
    reveal(AppView::commit_diff_loaded);
}

/// When the files of a commit arrive that was asked for last, the first of them is
/// highlighted, and its diff is asked for without a further key or click.
pub proof fn law_highlighted_diff_is_asked_for(
    app: AppView,
    oid: Seq<char>,
    message: Seq<char>,
    files: Seq<(Seq<char>, Seq<char>)>,
)
    requires
        files.len() > 0,
        app.graph.repo_path is Some,
    ensures
        ({
            let after = app.commit_files_loaded(app.graph.detail_generation, oid, message, files);
            &&& after.graph.detail is Some
            &&& after.graph.detail->0.selected_path() == Some(files[0].1)
            &&& after.outbox == app.outbox.push(
                EffectView::Send(
                    ActionView::ShowCommitDiff {
                        repo_path: app.graph.repo_path->0,
                        oid,
                        file_path: files[0].1,
                    },
                ),
            )
        }),
{
    reveal(AppView::commit_files_loaded);
    reveal(AppView::emit);
    law_first_file_is_asked_for(app.graph, oid, message, files);
}

} // verus!
