//! Which repositories are being queried, and which are to be queried again.
use vstd::prelude::*;
use vstd::string::*;
use vstd::hash_map::StringHashMap;
use vstd::hash_set::StringHashSet;
use crate::action::{Action, ActionView};
use crate::status::{RepoId, RepoStatus};
use crate::text::concat2;

verus! {

/// When a refresh is due.
#[derive(Clone, Copy, PartialEq, Eq, Structural, Debug)]
pub enum RefreshDecision {
    Now,
    /// After some nanoseconds.
    Later(u128),
}

/// When a refresh is due: at once, or when `cooldown` has passed since the last
/// one.
pub open spec fn refresh_due(last: Option<u128>, now: u128, cooldown: u128) -> RefreshDecision {
    match last {
        Some(last) => {
            let elapsed = if now > last {
                now - last
            } else {
                0
            };
            if elapsed < cooldown {
                RefreshDecision::Later((cooldown - elapsed) as u128)
            } else {
                RefreshDecision::Now
            }
        },
        None => RefreshDecision::Now,
    }
}

/// When a refresh is due.
pub fn refresh_decision(last: Option<u128>, now: u128, cooldown: u128) -> (r: RefreshDecision)
    ensures
        r == refresh_due(last, now, cooldown),
{
    if let Some(last) = last {
        let elapsed: u128 = if now > last {
            now - last
        } else {
            0
        };
        if elapsed < cooldown {
            return RefreshDecision::Later(cooldown - elapsed);
        }
    }
    RefreshDecision::Now
}

/// A refresh that was put off is due when the wait is over and not before: the
/// wait ends the cooldown exactly.
pub proof fn law_wait_ends_the_cooldown(last: u128, now: u128, cooldown: u128)
    requires
        last <= now,
        last + cooldown <= u128::MAX,
    ensures
        refresh_due(Some(last), now, cooldown) matches RefreshDecision::Later(wait) ==> {
            &&& 0 < wait <= cooldown
            &&& now + wait == last + cooldown
            &&& refresh_due(Some(last), (now + wait) as u128, cooldown) == RefreshDecision::Now
            &&& forall|t: u128|
                now <= t < now + wait ==> #[trigger] refresh_due(Some(last), t, cooldown)
                    is Later
        },
        refresh_due(Some(last), now, cooldown) == RefreshDecision::Now <==> now >= last + cooldown,
        refresh_due(None, now, cooldown) == RefreshDecision::Now,
{
}

/// The queries of the repositories' states.
pub struct Tracking {
    /// The repositories that are being queried.
    pub pending_status: StringHashSet,
    /// Those that changed meanwhile.
    pub dirty_repos: StringHashSet,
    /// When each repository was last queried.
    pub last_refresh: StringHashMap<u128>,
    /// The repositories that will be queried later.
    pub refresh_scheduled: StringHashSet,
}

/// What the tracking holds.
#[verifier::ext_equal]
pub struct TrackingView {
    pub pending: Set<Seq<char>>,
    pub dirty: Set<Seq<char>>,
    pub last: Map<Seq<char>, u128>,
    pub scheduled: Set<Seq<char>>,
}

impl View for Tracking {
    type V = TrackingView;

    open spec fn view(&self) -> TrackingView {
        TrackingView {
            pending: self.pending_status@,
            dirty: self.dirty_repos@,
            last: self.last_refresh@,
            scheduled: self.refresh_scheduled@,
        }
    }
}

impl TrackingView {
    /// Nothing was queried.
    pub open spec fn nothing() -> TrackingView {
        TrackingView {
            pending: Set::empty(),
            dirty: Set::empty(),
            last: Map::empty(),
            scheduled: Set::empty(),
        }
    }

    /// A repository is being queried.
    pub open spec fn started(self, id: Seq<char>) -> TrackingView {
        TrackingView { pending: self.pending.insert(id), ..self }
    }

    /// A query has ended.
    pub open spec fn finished(self, id: Seq<char>, now: u128) -> TrackingView {
        TrackingView {
            pending: self.pending.remove(id),
            dirty: self.dirty.remove(id),
            last: self.last.insert(id, now),
            ..self
        }
    }

    /// A repository changed while it is being queried.
    pub open spec fn marked(self, id: Seq<char>) -> TrackingView {
        TrackingView { dirty: self.dirty.insert(id), ..self }
    }

    /// A query is put off.
    pub open spec fn put_off(self, id: Seq<char>) -> TrackingView {
        TrackingView { scheduled: self.scheduled.insert(id), ..self }
    }

    /// No query is put off any more.
    pub open spec fn taken_up(self, id: Seq<char>) -> TrackingView {
        TrackingView { scheduled: self.scheduled.remove(id), ..self }
    }

    /// Nothing is known of a repository any more.
    pub open spec fn forgotten(self, id: Seq<char>) -> TrackingView {
        TrackingView {
            pending: self.pending.remove(id),
            dirty: self.dirty.remove(id),
            last: self.last.remove(id),
            scheduled: self.scheduled.remove(id),
        }
    }

    /// When a repository was last queried.
    pub open spec fn last_of(self, id: Seq<char>) -> Option<u128> {
        if self.last.contains_key(id) {
            Some(self.last[id])
        } else {
            None
        }
    }
}

impl Tracking {
    /// Nothing was queried.
    pub fn new() -> (r: Tracking)
        ensures
            r@ == TrackingView::nothing(),
    {
        Tracking {
            pending_status: StringHashSet::new(),
            dirty_repos: StringHashSet::new(),
            last_refresh: StringHashMap::new(),
            refresh_scheduled: StringHashSet::new(),
        }
    }

    /// Forgets everything.
    pub fn clear(&mut self)
        ensures
            final(self)@ == TrackingView::nothing(),
    {
        self.pending_status.clear();
        self.dirty_repos.clear();
        self.last_refresh.clear();
        self.refresh_scheduled.clear();
    }

    /// Notes that a repository is being queried.
    pub fn start(&mut self, id: &RepoId)
        ensures
            final(self)@ == old(self)@.started(id@),
    {
        self.pending_status.insert(id.0.clone());
    }

    /// Notes that a query has ended, and says whether the repository changed
    /// meanwhile.
    pub fn finish(&mut self, id: &RepoId, now: u128) -> (r: bool)
        ensures
            final(self)@ == old(self)@.finished(id@, now),
            r == old(self)@.dirty.contains(id@),
    {
        self.pending_status.remove(id.0.as_str());
        self.last_refresh.insert(id.0.clone(), now);
        self.dirty_repos.remove(id.0.as_str())
    }

    /// Whether a repository is being queried.
    pub fn is_pending(&self, id: &RepoId) -> (r: bool)
        ensures
            r == self@.pending.contains(id@),
    {
        self.pending_status.contains(id.0.as_str())
    }

    /// Whether a query is put off.
    pub fn is_scheduled(&self, id: &RepoId) -> (r: bool)
        ensures
            r == self@.scheduled.contains(id@),
    {
        self.refresh_scheduled.contains(id.0.as_str())
    }

    /// Notes that a repository changed while it is being queried.
    pub fn mark(&mut self, id: &RepoId)
        ensures
            final(self)@ == old(self)@.marked(id@),
    {
        self.dirty_repos.insert(id.0.clone());
    }

    /// Notes that a query is put off.
    pub fn put_off(&mut self, id: &RepoId)
        ensures
            final(self)@ == old(self)@.put_off(id@),
    {
        self.refresh_scheduled.insert(id.0.clone());
    }

    /// Notes that no query is put off any more.
    pub fn take_up(&mut self, id: &RepoId)
        ensures
            final(self)@ == old(self)@.taken_up(id@),
    {
        self.refresh_scheduled.remove(id.0.as_str());
    }

    /// Forgets a repository.
    pub fn forget(&mut self, id: &str)
        ensures
            final(self)@ == old(self)@.forgotten(id@),
    {
        self.pending_status.remove(id);
        self.dirty_repos.remove(id);
        self.last_refresh.remove(id);
        self.refresh_scheduled.remove(id);
    }

    /// When a repository was last queried.
    pub fn last_refresh_of(&self, id: &str) -> (r: Option<u128>)
        ensures
            r == self@.last_of(id@),
    {
        match self.last_refresh.get(id) {
            Some(t) => Some(*t),
            None => None,
        }
    }
}

// ---------------------------------------------------------------------------
// Queries and operations in the background
// ---------------------------------------------------------------------------

/// Watches over a query: unless it is completed, its end is reported.
pub struct StatusGuard {
    pub id: RepoId,
    pub completed: bool,
}

impl StatusGuard {
    /// The guard of a query that has not reported yet.
    pub fn new(id: RepoId) -> (r: StatusGuard)
        ensures
            r == (StatusGuard { id, completed: false }),
    {
        StatusGuard { id, completed: false }
    }

    /// The query has reported.
    pub fn complete(&mut self)
        ensures
            *final(self) == (StatusGuard { completed: true, ..*old(self) }),
    {
        self.completed = true;
    }

    /// What is to be reported when the guard goes away.
    pub open spec fn last_words(self) -> Option<ActionView> {
        if self.completed {
            None
        } else {
            Some(ActionView::StatusQueryDone(self.id@))
        }
    }

    /// What is to be reported when the guard goes away.
    pub fn on_drop(&self) -> (r: Option<Action>)
        ensures
            r.deep_view() == self.last_words(),
    {
        if !self.completed {
            Some(Action::StatusQueryDone(self.id.clone()))
        } else {
            None
        }
    }
}

/// Watches over a git operation: unless it is completed, a refresh is asked for,
/// which ends the operation in the list.
pub struct GitOpGuard {
    pub id: RepoId,
    pub completed: bool,
}

impl GitOpGuard {
    /// The guard of an operation that has not reported yet.
    pub fn new(id: RepoId) -> (r: GitOpGuard)
        ensures
            r == (GitOpGuard { id, completed: false }),
    {
        GitOpGuard { id, completed: false }
    }

    /// The operation has reported.
    pub fn complete(&mut self)
        ensures
            *final(self) == (GitOpGuard { completed: true, ..*old(self) }),
    {
        self.completed = true;
    }

    /// What is to be reported when the guard goes away.
    pub open spec fn last_words(self) -> Option<ActionView> {
        if self.completed {
            None
        } else {
            Some(ActionView::RefreshRepo(self.id@))
        }
    }

    /// What is to be reported when the guard goes away.
    pub fn on_drop(&self) -> (r: Option<Action>)
        ensures
            r.deep_view() == self.last_words(),
    {
        if !self.completed {
            Some(Action::RefreshRepo(self.id.clone()))
        } else {
            None
        }
    }
}

/// A query and an operation report their end exactly once: a guard speaks only
/// where nothing was reported, and then of its own repository.
pub proof fn law_guards_speak_once(status: StatusGuard, op: GitOpGuard)
    ensures
        status.completed <==> status.last_words() is None,
        op.completed <==> op.last_words() is None,
        !status.completed ==> status.last_words() == Some(
            ActionView::StatusQueryDone(status.id@),
        ),
        !op.completed ==> op.last_words() == Some(ActionView::RefreshRepo(op.id@)),
{
}

/// Reports what a query found, and completes its guard. A failure ends the query,
/// and is shown if it is to be announced.
pub fn query_report(
    guard: &mut StatusGuard,
    found: Result<RepoStatus, String>,
    announce: bool,
) -> (r: Vec<Action>)
    ensures
        final(guard).completed,
        final(guard).id == old(guard).id,
        match found {
            Ok(status) => r@ == seq![Action::RepoStatusUpdated { id: old(guard).id, status }],
            Err(e) => r.deep_view() == if announce {
                seq![
                    ActionView::StatusQueryDone(old(guard).id@),
                    ActionView::Error("Failed to query: "@ + e@),
                ]
            } else {
                seq![ActionView::StatusQueryDone(old(guard).id@)]
            },
        },
{
    let mut out: Vec<Action> = Vec::new();
    guard.complete();
    match found {
        Ok(status) => {
            out.push(Action::RepoStatusUpdated { id: guard.id.clone(), status });
            assert(out@ =~= seq![Action::RepoStatusUpdated { id: guard.id, status }]);
        },
        Err(e) => {
            out.push(Action::StatusQueryDone(guard.id.clone()));
            if announce {
                out.push(Action::Error(concat2("Failed to query: ", e.as_str())));
                assert(out.deep_view() =~= seq![
                    ActionView::StatusQueryDone(guard.id@),
                    ActionView::Error("Failed to query: "@ + e@),
                ]);
            } else {
                assert(out.deep_view() =~= seq![ActionView::StatusQueryDone(guard.id@)]);
            }
        },
    }
    out
}

} // verus!
