//! The program as a whole: what it holds, and how it answers to what happens.
//!
//! What is to be done outside (queries, git, the screen, the clipboard) is asked
//! for by effects, in order; what comes of it is told by actions.
use vstd::prelude::*;
use vstd::string::*;
use crate::app::effect::{Effect, EffectView, PendingLaunch, PendingLaunchView};
use crate::app::tracking::{Tracking, TrackingView};
use crate::config::{Config, ConfigView};
use crate::git_graph::{GitGraph, GraphView, LoadRequest, LoadRequestView};
use crate::model::{GraphFilters, GraphFiltersView, GraphOptions, GraphOptionsView};
use crate::repo_list::{RepoList, RepoListView};
use crate::screen::Theme;
use crate::status::RepoId;
use crate::text::copy_texts;

pub mod diff;
pub mod effect;
pub mod events;
pub mod git_ops;
pub mod graph_actions;
pub mod messages;
pub mod refresh;
pub mod repos;
pub mod selection;
pub mod step;
pub mod tracking;

verus! {

/// The panel that keys go to.
#[derive(Clone, Copy, PartialEq, Eq, Structural, Debug)]
pub enum FocusPanel {
    Repos,
    Changes,
    Graph,
    GitHub,
}

/// How the repositories are sorted.
#[derive(Clone, Copy, PartialEq, Eq, Structural, Debug)]
pub enum SortOrder {
    Alphabetical,
    DirtyFirst,
}

impl SortOrder {
    /// The other order.
    pub open spec fn other(self) -> SortOrder {
        match self {
            SortOrder::Alphabetical => SortOrder::DirtyFirst,
            SortOrder::DirtyFirst => SortOrder::Alphabetical,
        }
    }

    /// The next order.
    pub fn next(self) -> (r: SortOrder)
        ensures
            r == self.other(),
    {
        match self {
            SortOrder::Alphabetical => SortOrder::DirtyFirst,
            SortOrder::DirtyFirst => SortOrder::Alphabetical,
        }
    }

    /// How the order is shown.
    pub fn label(self) -> (r: &'static str)
        ensures
            r@ == match self {
                SortOrder::Alphabetical => "A-Z"@,
                SortOrder::DirtyFirst => "Dirty"@,
            },
    {
        match self {
            SortOrder::Alphabetical => "A-Z",
            SortOrder::DirtyFirst => "Dirty",
        }
    }
}

/// Going on twice leads back to the same order.
pub proof fn law_orders_alternate(order: SortOrder)
    ensures
        order.other() != order,
        order.other().other() == order,
{
}

/// The worktree or submodule whose changes and graph are shown.
pub struct ActiveWorktree {
    pub path: String,
    pub repo_id: RepoId,
    pub display_name: String,
}

/// What an active worktree holds.
#[verifier::ext_equal]
pub struct ActiveWorktreeView {
    pub path: Seq<char>,
    pub repo_id: Seq<char>,
    pub display_name: Seq<char>,
}

impl DeepView for ActiveWorktree {
    type V = ActiveWorktreeView;

    open spec fn deep_view(&self) -> ActiveWorktreeView {
        ActiveWorktreeView {
            path: self.path@,
            repo_id: self.repo_id@,
            display_name: self.display_name@,
        }
    }
}

/// What is being picked.
pub enum PendingPick {
    /// Where a launch is placed.
    Launch(PendingLaunch),
    /// The session to go to.
    GotoSession,
}

/// What a pending pick holds.
#[verifier::ext_equal]
pub enum PendingPickView {
    Launch(PendingLaunchView),
    GotoSession,
}

impl DeepView for PendingPick {
    type V = PendingPickView;

    open spec fn deep_view(&self) -> PendingPickView {
        match *self {
            PendingPick::Launch(launch) => PendingPickView::Launch(launch.deep_view()),
            PendingPick::GotoSession => PendingPickView::GotoSession,
        }
    }
}

/// A message to the user, and when it was set.
pub struct Message {
    pub text: String,
    pub at: u128,
}

/// What a message holds.
#[verifier::ext_equal]
pub struct MessageView {
    pub text: Seq<char>,
    pub at: u128,
}

impl DeepView for Message {
    type V = MessageView;

    open spec fn deep_view(&self) -> MessageView {
        MessageView { text: self.text@, at: self.at }
    }
}

/// The program. Times are nanoseconds since it was started.
pub struct App {
    pub config: Config,
    pub should_quit: bool,
    pub repo_list: RepoList,
    pub git_graph: GitGraph,
    pub pending_pick: Option<PendingPick>,
    pub focus: FocusPanel,
    pub sort_order: SortOrder,
    pub error_message: Option<Message>,
    pub success_message: Option<Message>,
    /// Whether there is a connection to the clipboard. It is kept, so that what
    /// was copied stays there.
    pub clipboard_connected: bool,
    /// The newer version that there is.
    pub update_version: Option<String>,
    /// The queries of the repositories' states.
    pub tracking: Tracking,
    pub active_worktree: Option<ActiveWorktree>,
    pub liveness_probe_in_flight: bool,
    pub theme: Theme,
    /// Whether changes on disk can be reported.
    pub watching: bool,
    /// When new repositories were last looked for.
    pub last_discovery: Option<u128>,
    /// Whether new repositories will be looked for later.
    pub discovery_pending: bool,
    /// What is to be done outside.
    pub outbox: Vec<Effect>,
}

/// What the program holds.
pub struct AppView {
    pub config: ConfigView,
    pub should_quit: bool,
    pub repos: RepoListView,
    pub graph: GraphView,
    pub pending_pick: Option<PendingPickView>,
    pub focus: FocusPanel,
    pub sort_order: SortOrder,
    pub error_message: Option<MessageView>,
    pub success_message: Option<MessageView>,
    pub clipboard_connected: bool,
    pub update_version: Option<Seq<char>>,
    pub tracking: TrackingView,
    pub active_worktree: Option<ActiveWorktreeView>,
    pub liveness_probe_in_flight: bool,
    pub theme: Theme,
    pub watching: bool,
    pub last_discovery: Option<u128>,
    pub discovery_pending: bool,
    pub outbox: Seq<EffectView>,
}

impl View for App {
    type V = AppView;

    open spec fn view(&self) -> AppView {
        AppView {
            config: self.config@,
            should_quit: self.should_quit,
            repos: self.repo_list@,
            graph: self.git_graph@,
            pending_pick: self.pending_pick.deep_view(),
            focus: self.focus,
            sort_order: self.sort_order,
            error_message: self.error_message.deep_view(),
            success_message: self.success_message.deep_view(),
            clipboard_connected: self.clipboard_connected,
            update_version: self.update_version.deep_view(),
            tracking: self.tracking@,
            active_worktree: self.active_worktree.deep_view(),
            liveness_probe_in_flight: self.liveness_probe_in_flight,
            theme: self.theme,
            watching: self.watching,
            last_discovery: self.last_discovery,
            discovery_pending: self.discovery_pending,
            outbox: self.outbox.deep_view(),
        }
    }
}

impl AppView {
    /// What holds of the program between any two calls.
    pub open spec fn wf(self) -> bool {
        self.repos.wf() && self.graph.wf()
    }

    /// The program can take an action: nothing is left to be done outside, and
    /// the numbers of builds can still grow.
    pub open spec fn ready(self) -> bool {
        self.wf() && self.graph.can_count() && self.outbox.len() == 0
    }

    /// Something is to be done outside.
    #[verifier::opaque]
    pub open spec fn emit(self, effect: EffectView) -> AppView {
        AppView { outbox: self.outbox.push(effect), ..self }
    }

    /// A graph, with a build that is to run if there is one.
    pub open spec fn with_graph(self, step: (GraphView, Option<LoadRequestView>)) -> AppView {
        let changed = AppView { graph: step.0, ..self };
        match step.1 {
            Some(load) => changed.emit(EffectView::Load(load)),
            None => changed,
        }
    }

    /// Loading the graph of a repository.
    #[verifier::opaque]
    pub open spec fn load_graph(self, path: Seq<char>, name: Seq<char>) -> AppView {
        self.with_graph(self.graph.load_repo(path, name))
    }

    /// The graph of a repository is out of date.
    #[verifier::opaque]
    pub open spec fn outdate_graph(self, path: Seq<char>, name: Seq<char>) -> AppView {
        self.with_graph(self.graph.outdated(path, name))
    }

    /// An error for the user.
    #[verifier::opaque]
    pub open spec fn with_error(self, text: Seq<char>, now: u128) -> AppView {
        AppView { error_message: Some(MessageView { text, at: now }), ..self }
    }

    /// A success for the user.
    #[verifier::opaque]
    pub open spec fn with_success(self, text: Seq<char>, now: u128) -> AppView {
        AppView { success_message: Some(MessageView { text, at: now }), ..self }
    }

    /// The program as it starts, with the repositories that were discovered.
    pub open spec fn initial(config: ConfigView, paths: Seq<Seq<char>>) -> AppView {
        AppView {
            config,
            should_quit: false,
            repos: RepoListView::fresh(paths, config.root_dirs, config.theme),
            graph: GraphView::fresh(config.theme, AppView::first_options(config)),
            pending_pick: None,
            focus: FocusPanel::Repos,
            sort_order: SortOrder::Alphabetical,
            error_message: None,
            success_message: None,
            clipboard_connected: false,
            update_version: None,
            tracking: TrackingView::nothing(),
            active_worktree: None,
            liveness_probe_in_flight: false,
            theme: config.theme,
            watching: false,
            last_discovery: None,
            discovery_pending: false,
            outbox: Seq::empty(),
        }
    }

    /// The options that the graph starts with.
    pub open spec fn first_options(config: ConfigView) -> GraphOptionsView {
        GraphOptionsView {
            branch_filter: config.branches,
            label_max_len: config.label_max_len,
            first_parent: false,
            show_stats: config.show_stats,
            filters: GraphFiltersView::everything(),
        }
    }
}

impl App {
    /// The program as it starts, with the repositories that were discovered.
    pub fn new(config: Config, repo_paths: Vec<String>) -> (r: App)
        ensures
            r@ == AppView::initial(config@, repo_paths.deep_view()),
            r@.ready(),
    {
        let theme = config.theme;
        let options = GraphOptions {
            branch_filter: config.branches,
            label_max_len: config.label_max_len,
            first_parent: false,
            show_stats: config.show_stats,
            filters: GraphFilters::new(),
        };
        let roots = copy_texts(&config.root_dirs);
        let outbox: Vec<Effect> = Vec::new();
        assert(outbox.deep_view() =~= Seq::<EffectView>::empty());
        App {
            should_quit: false,
            repo_list: RepoList::new(repo_paths, roots, theme),
            git_graph: GitGraph::new(theme, options),
            pending_pick: None,
            focus: FocusPanel::Repos,
            sort_order: SortOrder::Alphabetical,
            error_message: None,
            success_message: None,
            clipboard_connected: false,
            update_version: None,
            tracking: Tracking::new(),
            active_worktree: None,
            liveness_probe_in_flight: false,
            theme,
            watching: false,
            last_discovery: None,
            discovery_pending: false,
            outbox,
            config,
        }
    }

    /// Asks for something to be done outside.
    pub(crate) fn emit(&mut self, effect: Effect)
        ensures
            final(self)@ == old(self)@.emit(effect.deep_view()),
            final(self)@.config == old(self)@.config,
            final(self)@.repos == old(self)@.repos,
            final(self)@.graph == old(self)@.graph,
            final(self)@.tracking == old(self)@.tracking,
            final(self)@.active_worktree == old(self)@.active_worktree,
    {
        proof {
            reveal(AppView::emit);
        }
        self.outbox.push(effect);
        assert(self.outbox.deep_view() =~= old(self).outbox.deep_view().push(effect.deep_view()));
    }

    /// Asks for a build, if there is one to run.
    pub(crate) fn emit_load(&mut self, load: Option<LoadRequest>)
        ensures
            final(self)@ == old(self)@.with_graph((old(self)@.graph, load.deep_view())),
            final(self)@.repos == old(self)@.repos,
            final(self)@.graph == old(self)@.graph,
    {
        if let Some(load) = load {
            self.emit(Effect::Load(load));
        }
    }

    /// Loads the graph of a repository.
    pub(crate) fn load_graph(&mut self, path: String, name: &str)
        requires
            old(self)@.wf(),
            old(self)@.graph.can_count(),
        ensures
            final(self)@ == old(self)@.load_graph(path@, name@),
            final(self)@.repos == old(self)@.repos,
            final(self)@.wf(),
    {
        proof {
            reveal(AppView::load_graph);
        }
        let load = self.git_graph.load_repo(path, name);
        self.emit_load(load);
    }

    /// Loads the graph of a repository anew, now or later.
    pub(crate) fn outdate_graph(&mut self, path: String, name: &str)
        requires
            old(self)@.wf(),
            old(self)@.graph.can_count(),
        ensures
            final(self)@ == old(self)@.outdate_graph(path@, name@),
            final(self)@.repos == old(self)@.repos,
            final(self)@.wf(),
    {
        proof {
            reveal(AppView::outdate_graph);
        }
        let load = self.git_graph.outdated(path, name);
        self.emit_load(load);
    }

    /// Shows an error to the user.
    pub(crate) fn show_error(&mut self, text: String, now: u128)
        ensures
            final(self)@ == old(self)@.with_error(text@, now),
            final(self)@.repos == old(self)@.repos,
            final(self)@.graph == old(self)@.graph,
            final(self)@.active_worktree == old(self)@.active_worktree,
    {
        proof {
            reveal(AppView::with_error);
        }
        self.error_message = Some(Message { text, at: now });
    }

    /// Shows a success to the user.
    pub(crate) fn show_success(&mut self, text: String, now: u128)
        ensures
            final(self)@ == old(self)@.with_success(text@, now),
            final(self)@.repos == old(self)@.repos,
            final(self)@.graph == old(self)@.graph,
            final(self)@.active_worktree == old(self)@.active_worktree,
    {
        proof {
            reveal(AppView::with_success);
        }
        self.success_message = Some(Message { text, at: now });
    }
}

} // verus!
