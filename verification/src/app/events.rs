//! The start of the program, and what comes from the terminal and the disk.
use vstd::prelude::*;
use vstd::string::*;
use crate::action::{Action, ActionView};
use crate::app::effect::{Effect, EffectView};
use crate::app::{App, AppView};
use crate::git_graph::GraphView;
use crate::repo_list::RepoListView;
use crate::status::RepoId;

verus! {

/// Something that happens outside. Keys, the mouse and pasted text go to the
/// panels.
pub enum Event {
    Quit,
    /// `has_pending_actions` tells whether actions wait to be handled.
    Tick { has_pending_actions: bool },
    Render,
    Resize { width: u16, height: u16 },
    /// Something in the repository with this path changed on disk.
    RepoChanged(String),
    /// Something was created or removed in a root directory.
    ReposRootChanged,
    PollLocal,
    PollFetch,
    FocusGained,
    Other,
}

impl AppView {
    /// Both panels can ask for something, and changes on disk can be reported.
    #[verifier::opaque]
    pub open spec fn connected(self) -> AppView {
        AppView {
            repos: RepoListView { connected: true, ..self.repos },
            graph: GraphView { connected: true, ..self.graph },
            ..self
        }
    }

    /// Changes on disk can be reported.
    #[verifier::opaque]
    pub open spec fn with_watching(self) -> AppView {
        AppView { watching: true, ..self }
    }

    /// Looking for a newer version, if that is wanted.
    #[verifier::opaque]
    pub open spec fn check_for_updates(self) -> AppView {
        if self.config.check_for_updates {
            self.emit(EffectView::CheckForUpdates)
        } else {
            self
        }
    }

    /// Telling the user once if git cannot be run.
    #[verifier::opaque]
    pub open spec fn warn_without_git(self, git_available: bool) -> AppView {
        if git_available {
            self
        } else {
            self.emit(
                EffectView::Send(
                    ActionView::Error(
                        "git not found on PATH: viewing works, but fetch/pull and submodule actions need git"@,
                    ),
                ),
            )
        }
    }

    /// The start: everything is connected, the repositories are queried and
    /// watched, and the first of them is shown.
    #[verifier::opaque]
    pub open spec fn started(self, git_available: bool) -> AppView {
        self.connected().emit(
            EffectView::Send(ActionView::PollLocal),
        ).with_watching().rebuild_watcher().check_for_updates().warn_without_git(
            git_available,
        ).sync_selection()
    }

    /// The terminal is in front again: the selected repository may have changed.
    #[verifier::opaque]
    pub open spec fn focus_gained(self) -> AppView {
        match self.selected_path() {
            Some(path) => self.emit(EffectView::Send(ActionView::RefreshRepo(path))),
            None => self,
        }
    }

    /// Time goes on; what waits is drawn.
    #[verifier::opaque]
    pub open spec fn tick(self, has_pending_actions: bool) -> AppView {
        let ticked = self.emit(EffectView::Send(ActionView::Tick));
        if has_pending_actions {
            ticked.emit(EffectView::Send(ActionView::Render))
        } else {
            ticked
        }
    }

    /// What follows on an event.
    pub open spec fn on_event(self, event: Event, now: u128) -> AppView {
        match event {
            Event::Quit => self.emit(EffectView::Send(ActionView::Quit)),
            Event::Tick { has_pending_actions } => self.tick(has_pending_actions),
            Event::Render => self.emit(EffectView::Send(ActionView::Render)),
            Event::Resize { width, height } => self.emit(
                EffectView::Send(ActionView::Resize { width, height }),
            ),
            Event::RepoChanged(path) => self.emit(
                EffectView::Send(ActionView::RefreshRepo(path@)),
            ),
            Event::ReposRootChanged => self.repos_root_changed(now),
            Event::PollLocal => self.emit(EffectView::Send(ActionView::PollLocal)),
            Event::PollFetch => self.emit(EffectView::Send(ActionView::PollFetch)),
            Event::FocusGained => self.focus_gained(),
            Event::Other => self,
        }
    }
}

impl App {
    /// Connects both panels.
    fn connect(&mut self)
        requires
            old(self)@.wf(),
            old(self)@.graph.can_count(),
        ensures
            final(self)@ == old(self)@.connected(),
            final(self)@.graph.can_count(),
            final(self)@.wf(),
    {
        proof {
            reveal(AppView::connected);
        }
        self.repo_list.register_action_handler();
        self.git_graph.register_action_handler();
    }

    /// Has changes on disk reported.
    fn start_watching(&mut self)
        requires
            old(self)@.wf(),
        ensures
            final(self)@ == old(self)@.with_watching(),
            final(self)@.graph == old(self)@.graph,
            final(self)@.wf(),
    {
        proof {
            reveal(AppView::with_watching);
        }
        self.watching = true;
    }

    /// Looks for a newer version.
    fn check_for_updates(&mut self)
        requires
            old(self)@.wf(),
        ensures
            final(self)@ == old(self)@.check_for_updates(),
            final(self)@.graph == old(self)@.graph,
            final(self)@.wf(),
    {
        proof {
            reveal(AppView::check_for_updates);
        }
        if self.config.check_for_updates {
            self.emit(Effect::CheckForUpdates);
        }
    }

    /// Tells the user if git cannot be run.
    fn warn_without_git(&mut self, git_available: bool)
        requires
            old(self)@.wf(),
        ensures
            final(self)@ == old(self)@.warn_without_git(git_available),
            final(self)@.graph == old(self)@.graph,
            final(self)@.wf(),
    {
        proof {
            reveal(AppView::warn_without_git);
        }
        if !git_available {
            let message = String::from_str(
                "git not found on PATH: viewing works, but fetch/pull and submodule actions need git",
            );
            self.emit(Effect::Send(Action::Error(message)));
        }
    }

    /// Starts the program, and says what is to be done outside.
    pub fn start(&mut self, git_available: bool) -> (r: Vec<Effect>)
        requires
            old(self)@.ready(),
        ensures
            r.deep_view() == old(self)@.started(git_available).outbox,
            final(self)@ == (AppView {
                outbox: Seq::empty(),
                ..old(self)@.started(git_available)
            }),
            final(self)@.wf(),
    {
        proof {
            reveal(AppView::started);
        }
        self.connect();
        self.emit(Effect::Send(Action::PollLocal));
        self.start_watching();
        self.rebuild_watcher();
        self.check_for_updates();
        self.warn_without_git(git_available);
        self.sync_selection();
        self.take_outbox()
    }

    /// Handles the terminal being in front again.
    fn focus_gained(&mut self)
        requires
            old(self)@.wf(),
        ensures
            final(self)@ == old(self)@.focus_gained(),
            final(self)@.wf(),
    {
        proof {
            reveal(AppView::focus_gained);
        }
        if let Some(path) = self.selected_path() {
            self.emit(Effect::Send(Action::RefreshRepo(RepoId(path))));
        }
    }

    /// Handles the passing of time.
    fn tick(&mut self, has_pending_actions: bool)
        requires
            old(self)@.wf(),
        ensures
            final(self)@ == old(self)@.tick(has_pending_actions),
            final(self)@.wf(),
    {
        proof {
            reveal(AppView::tick);
        }
        self.emit(Effect::Send(Action::Tick));
        if has_pending_actions {
            self.emit(Effect::Send(Action::Render));
        }
    }

    /// Handles an event, leaving what is to be done outside in the outbox.
    fn take_event(&mut self, event: Event, now: u128)
        requires
            old(self)@.wf(),
        ensures
            final(self)@ == old(self)@.on_event(event, now),
            final(self)@.wf(),
    {
        match event {
            Event::Quit => {
                self.emit(Effect::Send(Action::Quit));
            },
            Event::Tick { has_pending_actions } => {
                self.tick(has_pending_actions);
            },
            Event::Render => {
                self.emit(Effect::Send(Action::Render));
            },
            Event::Resize { width, height } => {
                self.emit(Effect::Send(Action::Resize { width, height }));
            },
            Event::RepoChanged(path) => {
                self.emit(Effect::Send(Action::RefreshRepo(RepoId(path))));
            },
            Event::ReposRootChanged => {
                self.repos_root_changed(now);
            },
            Event::PollLocal => {
                self.emit(Effect::Send(Action::PollLocal));
            },
            Event::PollFetch => {
                self.emit(Effect::Send(Action::PollFetch));
            },
            Event::FocusGained => {
                self.focus_gained();
            },
            Event::Other => {},
        }
    }

    /// Handles an event at the time `now`, and says what is to be done outside.
    pub fn handle_event(&mut self, event: Event, now: u128) -> (r: Vec<Effect>)
        requires
            old(self)@.ready(),
        ensures
            r.deep_view() == old(self)@.on_event(event, now).outbox,
            final(self)@ == (AppView { outbox: Seq::empty(), ..old(self)@.on_event(event, now) }),
            final(self)@.wf(),
    {
        self.take_event(event, now);
        self.take_outbox()
    }
}

} // verus!
