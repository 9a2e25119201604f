//! The panel that shows the commit graph of one repository: what it holds, and
//! how it is loaded.
use vstd::prelude::*;
use vstd::string::*;
use vstd::hash_set::StringHashSet;
use crate::model::{
    BranchFilter, BranchSegment, BranchSegmentView, GraphFilters, GraphOptions, GraphOptionsView,
    GraphRow, GraphRowView,
};
use crate::names::{ascending, NameSet};
use crate::screen::{ListState, Rect, Theme};

pub mod collapse;
pub mod detail;
pub mod draw;
pub mod input;
pub mod load;
pub mod rows;
pub mod search;

use crate::git_graph::search::{SearchState, SearchView};

verus! {

/// The files of the commit that is looked at, and the diff of one of them.
pub struct CommitDetail {
    pub oid: String,
    pub message: String,
    /// Each file's status and path.
    pub files: Vec<(String, String)>,
    pub file_state: ListState,
    pub diff_content: Option<String>,
    pub diff_scroll: u16,
    pub msg_scroll: u16,
    /// Where the commit message was drawn.
    pub msg_area: Rect,
    /// Where the list of files was drawn.
    pub file_list_area: Rect,
}

/// What the detail of a commit holds.
#[verifier::ext_equal]
pub struct DetailView {
    pub oid: Seq<char>,
    pub message: Seq<char>,
    pub files: Seq<(Seq<char>, Seq<char>)>,
    pub file_state: ListState,
    pub diff_content: Option<Seq<char>>,
    pub diff_scroll: u16,
    pub msg_scroll: u16,
    pub msg_area: Rect,
    pub file_list_area: Rect,
}

impl DeepView for CommitDetail {
    type V = DetailView;

    open spec fn deep_view(&self) -> DetailView {
        DetailView {
            oid: self.oid@,
            message: self.message@,
            files: self.files.deep_view(),
            file_state: self.file_state,
            diff_content: self.diff_content.deep_view(),
            diff_scroll: self.diff_scroll,
            msg_scroll: self.msg_scroll,
            msg_area: self.msg_area,
            file_list_area: self.file_list_area,
        }
    }
}

/// How many aborted builds in a row are followed by another try before the
/// panel gives up and shows an error.
pub const MAX_CONSECUTIVE_ABORTS: u8 = 2;

/// The graph panel.
pub struct GitGraph {
    /// The rows shown while branches are collapsed.
    pub rows: Vec<GraphRow>,
    /// All rows of the graph.
    pub all_rows: Vec<GraphRow>,
    /// The branches and authors that were seen in this repository. They stay
    /// when a filter hides them, so that they can be chosen again.
    pub filter_branches: NameSet,
    pub filter_authors: NameSet,
    /// The branches that are collapsed.
    pub collapsed_branches: StringHashSet,
    /// The branches off the main trunk.
    pub segments: Vec<BranchSegment>,
    /// For each row of `all_rows` its branch, or `None` on the main trunk.
    pub row_to_segment: Vec<Option<usize>>,
    pub state: ListState,
    pub repo_name: String,
    pub repo_path: Option<String>,
    pub loading: bool,
    pub error: Option<String>,
    pub focused: bool,
    /// Whether there is someone to answer requests.
    pub connected: bool,
    pub render_area: Rect,
    pub graph_list_area: Rect,
    pub files_area: Rect,
    pub diff_area: Rect,
    pub commit_detail: Option<CommitDetail>,
    pub graph_options: GraphOptions,
    pub search: SearchState,
    /// How many characters the rows are scrolled to the left.
    pub h_scroll: usize,
    pub horizontal_layout: bool,
    /// A reload to be done when the present build, or look at a commit, ends.
    pub needs_reload: bool,
    /// Whether a build for the present repository is running.
    pub load_in_flight: bool,
    /// How many builds in a row were aborted.
    pub consecutive_aborts: u8,
    /// The number of the last build that was asked for.
    pub load_generation: u64,
    /// The number of the last commit detail that was asked for.
    pub detail_generation: u64,
    pub theme: Theme,
}

/// What the graph panel holds.
#[verifier::ext_equal]
pub struct GraphView {
    pub rows: Seq<GraphRowView>,
    pub all_rows: Seq<GraphRowView>,
    pub filter_branches: Seq<Seq<char>>,
    pub filter_authors: Seq<Seq<char>>,
    pub collapsed: Set<Seq<char>>,
    pub segments: Seq<BranchSegmentView>,
    pub row_to_segment: Seq<Option<usize>>,
    pub state: ListState,
    pub repo_name: Seq<char>,
    pub repo_path: Option<Seq<char>>,
    pub loading: bool,
    pub error: Option<Seq<char>>,
    pub focused: bool,
    pub connected: bool,
    pub render_area: Rect,
    pub graph_list_area: Rect,
    pub files_area: Rect,
    pub diff_area: Rect,
    pub detail: Option<DetailView>,
    pub options: GraphOptionsView,
    pub search: SearchView,
    pub h_scroll: usize,
    pub horizontal_layout: bool,
    pub needs_reload: bool,
    pub load_in_flight: bool,
    pub consecutive_aborts: u8,
    pub load_generation: u64,
    pub detail_generation: u64,
    pub theme: Theme,
}

impl View for GitGraph {
    type V = GraphView;

    open spec fn view(&self) -> GraphView {
        GraphView {
            rows: self.rows.deep_view(),
            all_rows: self.all_rows.deep_view(),
            filter_branches: self.filter_branches@,
            filter_authors: self.filter_authors@,
            collapsed: self.collapsed_branches@,
            segments: self.segments.deep_view(),
            row_to_segment: self.row_to_segment@,
            state: self.state,
            repo_name: self.repo_name@,
            repo_path: self.repo_path.deep_view(),
            loading: self.loading,
            error: self.error.deep_view(),
            focused: self.focused,
            connected: self.connected,
            render_area: self.render_area,
            graph_list_area: self.graph_list_area,
            files_area: self.files_area,
            diff_area: self.diff_area,
            detail: self.commit_detail.deep_view(),
            options: self.graph_options.deep_view(),
            search: self.search.deep_view(),
            h_scroll: self.h_scroll,
            horizontal_layout: self.horizontal_layout,
            needs_reload: self.needs_reload,
            load_in_flight: self.load_in_flight,
            consecutive_aborts: self.consecutive_aborts,
            load_generation: self.load_generation,
            detail_generation: self.detail_generation,
            theme: self.theme,
        }
    }
}

/// A build of the graph that is to run in the background.
pub struct LoadRequest {
    /// Results that come back carry this number.
    pub generation: u64,
    pub path: String,
    pub options: GraphOptions,
}

/// What a request holds.
#[verifier::ext_equal]
pub struct LoadRequestView {
    pub generation: u64,
    pub path: Seq<char>,
    pub options: GraphOptionsView,
}

impl DeepView for LoadRequest {
    type V = LoadRequestView;

    open spec fn deep_view(&self) -> LoadRequestView {
        LoadRequestView {
            generation: self.generation,
            path: self.path@,
            options: self.options.deep_view(),
        }
    }
}

/// Every segment has rows, for a branch is made of them, and all of them are among
/// the first `count`. That none is empty is asked for here once, so that any branch
/// can be collapsed later.
pub open spec fn segments_fit(segments: Seq<BranchSegmentView>, count: nat) -> bool {
    forall|s: int|
        0 <= s < segments.len() ==> {
            &&& (#[trigger] segments[s]).row_indices.len() > 0
            &&& forall|k: int|
                0 <= k < segments[s].row_indices.len() ==> (#[trigger] segments[s].row_indices[k])
                    < count
        }
}

impl GraphView {
    /// What holds of the panel between any two calls: indices are in bounds,
    /// the rows know their branches, the rows shown are those that the collapsed
    /// branches leave, and the filter values stand in order.
    pub open spec fn fits_together(self) -> bool {
        &&& self.state.in_bounds()
        &&& self.detail matches Some(d) ==> d.file_state.in_bounds()
        &&& self.search.wf()
        &&& segments_fit(self.segments, self.all_rows.len())
        &&& self.row_to_segment =~= collapse::segment_map(self.segments, self.all_rows.len())
        &&& !self.collapsed.is_empty() ==> self.rows =~= collapse::shown_rows(
            self.all_rows,
            self.segments,
            self.collapsed,
            self.all_rows.len(),
        )
        &&& ascending(self.filter_branches)
        &&& ascending(self.filter_authors)
    }

    /// The panel fits together.
    pub closed spec fn wf(self) -> bool {
        self.fits_together()
    }

    /// What `wf` stands for.
    pub proof fn lemma_wf(self)
        ensures
            self.wf() == self.fits_together(),
    {
    }

    /// A panel that shows nothing yet.
    pub open spec fn fresh(theme: Theme, options: GraphOptionsView) -> GraphView {
        GraphView {
            rows: Seq::empty(),
            all_rows: Seq::empty(),
            filter_branches: Seq::empty(),
            filter_authors: Seq::empty(),
            collapsed: Set::empty(),
            segments: Seq::empty(),
            row_to_segment: Seq::empty(),
            state: ListState::initial(),
            repo_name: Seq::empty(),
            repo_path: None,
            loading: false,
            error: None,
            focused: false,
            connected: false,
            render_area: Rect::nowhere(),
            graph_list_area: Rect::nowhere(),
            files_area: Rect::nowhere(),
            diff_area: Rect::nowhere(),
            detail: None,
            options,
            search: SearchView::blank(),
            h_scroll: 0,
            horizontal_layout: false,
            needs_reload: false,
            load_in_flight: false,
            consecutive_aborts: 0,
            load_generation: 0,
            detail_generation: 0,
            theme,
        }
    }

    /// The numbers of builds and details can still grow.
    pub open spec fn can_count(self) -> bool {
        self.load_generation < u64::MAX - 1 && self.detail_generation < u64::MAX
    }

    /// The rows that are shown.
    pub open spec fn display_rows(self) -> Seq<GraphRowView> {
        if self.collapsed.is_empty() {
            self.all_rows
        } else {
            self.rows
        }
    }

    /// The row that is selected, where one is.
    pub open spec fn selected_row(self) -> Option<GraphRowView> {
        match self.state.selected {
            Some(i) if i < self.display_rows().len() => Some(self.display_rows()[i as int]),
            _ => None,
        }
    }

    /// The panel as it is opened on another repository: nothing of the old one
    /// is left.
    pub open spec fn opened_on(self, path: Seq<char>, name: Seq<char>) -> GraphView {
        GraphView {
            repo_name: name,
            repo_path: Some(path),
            error: None,
            loading: true,
            rows: Seq::empty(),
            all_rows: Seq::empty(),
            state: self.state.selecting(None),
            detail: None,
            needs_reload: false,
            consecutive_aborts: 0,
            search: SearchView::blank(),
            filter_branches: Seq::empty(),
            filter_authors: Seq::empty(),
            collapsed: Set::empty(),
            segments: Seq::empty(),
            row_to_segment: Seq::empty(),
            ..self
        }
    }

    /// Loading a repository. While a build of the same repository runs, the
    /// load waits for it. Otherwise a build is asked for under a new number; the
    /// rows of the same repository stay until it is done, those of another
    /// repository go at once.
    pub open spec fn load_repo(self, path: Seq<char>, name: Seq<char>) -> (
        GraphView,
        Option<LoadRequestView>,
    ) {
        let same = self.repo_path == Some(path);
        if same && self.load_in_flight {
            (GraphView { needs_reload: true, ..self }, None)
        } else {
            let opened = if same {
                GraphView { repo_name: name, error: None, ..self }
            } else {
                self.opened_on(path, name)
            };
            if !self.connected {
                (opened, None)
            } else {
                let generation = (self.load_generation + 1) as u64;
                (
                    GraphView { load_in_flight: true, load_generation: generation, ..opened },
                    Some(LoadRequestView { generation, path, options: self.options }),
                )
            }
        }
    }

    /// Loading the present repository again.
    pub open spec fn reload_graph(self) -> (GraphView, Option<LoadRequestView>) {
        match self.repo_path {
            Some(path) => self.load_repo(path, self.repo_name),
            None => (self, None),
        }
    }

    /// Doing a reload that was put off.
    pub open spec fn take_reload(self) -> (GraphView, Option<LoadRequestView>) {
        if self.needs_reload {
            GraphView { needs_reload: false, ..self }.reload_graph()
        } else {
            (self, None)
        }
    }

    /// The graph is out of date: it is built anew, or will be when the look at a
    /// commit ends.
    pub open spec fn outdated(self, path: Seq<char>, name: Seq<char>) -> (
        GraphView,
        Option<LoadRequestView>,
    ) {
        if self.detail is Some {
            (GraphView { needs_reload: true, ..self }, None)
        } else {
            self.load_repo(path, name)
        }
    }

    /// The end of a build that reported an error.
    pub open spec fn set_error(self, message: Seq<char>) -> GraphView {
        GraphView { error: Some(message), loading: false, load_in_flight: false, ..self }
    }

    /// The end of a build that reported nothing. If none is running, nothing
    /// happens. Otherwise the rows stay, and a reload that was put off is done,
    /// unless too many builds in a row ended so: then it is dropped, and an
    /// error is shown.
    pub open spec fn abort_load(self) -> (GraphView, Option<LoadRequestView>) {
        if !self.load_in_flight {
            (self, None)
        } else {
            let aborts: u8 = if self.consecutive_aborts < u8::MAX {
                (self.consecutive_aborts + 1) as u8
            } else {
                u8::MAX
            };
            let ended = GraphView {
                load_in_flight: false,
                loading: false,
                consecutive_aborts: aborts,
                ..self
            };
            if aborts > MAX_CONSECUTIVE_ABORTS {
                (
                    GraphView {
                        needs_reload: false,
                        error: Some("Graph build failed repeatedly"@),
                        ..ended
                    },
                    None,
                )
            } else {
                ended.take_reload()
            }
        }
    }
}

impl GitGraph {
    /// A panel that shows nothing yet.
    pub fn new(theme: Theme, graph_options: GraphOptions) -> (r: GitGraph)
        ensures
            r@ == GraphView::fresh(theme, graph_options.deep_view()),
            r@.wf(),
            r@.can_count(),
    {
        GitGraph {
            rows: Vec::new(),
            all_rows: Vec::new(),
            filter_branches: NameSet::new(),
            filter_authors: NameSet::new(),
            collapsed_branches: StringHashSet::new(),
            segments: Vec::new(),
            row_to_segment: Vec::new(),
            state: ListState::new(),
            repo_name: String::new(),
            repo_path: None,
            loading: false,
            error: None,
            focused: false,
            connected: false,
            render_area: Rect::empty(),
            graph_list_area: Rect::empty(),
            files_area: Rect::empty(),
            diff_area: Rect::empty(),
            commit_detail: None,
            graph_options,
            search: SearchState::new(),
            h_scroll: 0,
            horizontal_layout: false,
            needs_reload: false,
            load_in_flight: false,
            consecutive_aborts: 0,
            load_generation: 0,
            detail_generation: 0,
            theme,
        }
    }

    /// Changes the colours.
    pub fn set_theme(&mut self, theme: Theme)
        ensures
            final(self)@ == (GraphView { theme, ..old(self)@ }),
            old(self)@.wf() ==> final(self)@.wf(),
    {
        self.theme = theme;
    }

    /// From now on there is someone to answer requests.
    pub fn register_action_handler(&mut self)
        ensures
            final(self)@ == (GraphView { connected: true, ..old(self)@ }),
            old(self)@.wf() ==> final(self)@.wf(),
    {
        self.connected = true;
    }

    /// Loads a repository, and says which build is to run for it.
    pub fn load_repo(&mut self, path: String, repo_name: &str) -> (r: Option<LoadRequest>)
        requires
            old(self)@.wf(),
            old(self)@.load_generation < u64::MAX,
        ensures
            (final(self)@, r.deep_view()) == old(self)@.load_repo(path@, repo_name@),
            final(self)@.wf(),
    {
        let is_same_repo = match &self.repo_path {
            Some(p) => *p == path,
            None => false,
        };

        if is_same_repo && self.load_in_flight {
            self.needs_reload = true;
            return None;
        }
        self.repo_name = String::from_str(repo_name);
        self.repo_path = Some(path.clone());
        self.error = None;

        // Rows of the same repository stay until the new ones come.
        if !is_same_repo {
            self.loading = true;
            self.rows.clear();
            self.all_rows.clear();
            self.state.select(None);
            self.commit_detail = None;
            self.needs_reload = false;
            self.consecutive_aborts = 0;
            self.search.clear();
            self.filter_branches.clear();
            self.filter_authors.clear();
            self.collapsed_branches.clear();
            self.segments.clear();
            self.row_to_segment.clear();
        }
        if !self.connected {
            return None;
        }
        self.load_in_flight = true;
        self.load_generation = self.load_generation + 1;
        Some(
            LoadRequest {
                generation: self.load_generation,
                path,
                options: self.graph_options.clone(),
            },
        )
    }

    /// Loads the present repository again.
    pub fn reload_graph(&mut self) -> (r: Option<LoadRequest>)
        requires
            old(self)@.wf(),
            old(self)@.load_generation < u64::MAX,
        ensures
            (final(self)@, r.deep_view()) == old(self)@.reload_graph(),
            final(self)@.wf(),
    {
        let path = match &self.repo_path {
            Some(p) => p.clone(),
            None => return None,
        };
        let name = self.repo_name.clone();
        self.load_repo(path, name.as_str())
    }

    /// Does a reload that was put off.
    pub fn take_reload(&mut self) -> (r: Option<LoadRequest>)
        requires
            old(self)@.wf(),
            old(self)@.load_generation < u64::MAX,
        ensures
            (final(self)@, r.deep_view()) == old(self)@.take_reload(),
            final(self)@.wf(),
    {
        if self.needs_reload {
            self.needs_reload = false;
            self.reload_graph()
        } else {
            None
        }
    }

    /// Ends a build with an error.
    pub fn set_error(&mut self, msg: String)
        ensures
            final(self)@ == old(self)@.set_error(msg@),
            old(self)@.wf() ==> final(self)@.wf(),
    {
        self.error = Some(msg);
        self.loading = false;
        self.load_in_flight = false;
    }

    /// Ends a build that reported nothing.
    pub fn abort_load(&mut self) -> (r: Option<LoadRequest>)
        requires
            old(self)@.wf(),
            old(self)@.load_generation < u64::MAX,
        ensures
            (final(self)@, r.deep_view()) == old(self)@.abort_load(),
            final(self)@.wf(),
    {
        if !self.load_in_flight {
            return None;
        }
        self.load_in_flight = false;
        self.loading = false;
        self.consecutive_aborts = self.consecutive_aborts.saturating_add(1);

        if self.consecutive_aborts > MAX_CONSECUTIVE_ABORTS {
            self.needs_reload = false;
            self.error = Some(String::from_str("Graph build failed repeatedly"));
            return None;
        }
        self.take_reload()
    }

    /// Puts a reload off until the look at a commit ends.
    pub fn set_needs_reload(&mut self)
        ensures
            final(self)@ == (GraphView { needs_reload: true, ..old(self)@ }),
            old(self)@.wf() ==> final(self)@.wf(),
    {
        self.needs_reload = true;
    }

    /// Builds the graph anew, or puts that off until the look at a commit ends.
    pub fn outdated(&mut self, path: String, repo_name: &str) -> (r: Option<LoadRequest>)
        requires
            old(self)@.wf(),
            old(self)@.load_generation < u64::MAX,
        ensures
            (final(self)@, r.deep_view()) == old(self)@.outdated(path@, repo_name@),
            final(self)@.wf(),
    {
        if self.has_detail() {
            self.set_needs_reload();
            None
        } else {
            self.load_repo(path, repo_name)
        }
    }

    /// The number of the last build that was asked for.
    pub fn current_generation(&self) -> (r: u64)
        ensures
            r == self@.load_generation,
    {
        self.load_generation
    }

    /// The number of the last commit detail that was asked for.
    pub fn current_detail_generation(&self) -> (r: u64)
        ensures
            r == self@.detail_generation,
    {
        self.detail_generation
    }

    /// Whether a commit is looked at.
    pub fn has_detail(&self) -> (r: bool)
        ensures
            r == (self@.detail is Some),
    {
        self.commit_detail.is_some()
    }

    /// Which branches the graph is built from.
    pub fn branch_filter(&self) -> (r: BranchFilter)
        ensures
            r == self@.options.branch_filter,
    {
        self.graph_options.branch_filter
    }

    /// The present filters.
    pub fn filters(&self) -> (r: GraphFilters)
        ensures
            r.deep_view() == self@.options.filters,
    {
        self.graph_options.filters.clone()
    }

    /// The branches seen in this repository, in order.
    pub fn filter_branches(&self) -> (r: Vec<String>)
        ensures
            r.deep_view() == self@.filter_branches,
    {
        self.filter_branches.to_list()
    }

    /// The authors seen in this repository, in order.
    pub fn filter_authors(&self) -> (r: Vec<String>)
        ensures
            r.deep_view() == self@.filter_authors,
    {
        self.filter_authors.to_list()
    }

    /// Whether only first parents are followed.
    pub fn first_parent(&self) -> (r: bool)
        ensures
            r == self@.options.first_parent,
    {
        self.graph_options.first_parent
    }
}

} // verus!
