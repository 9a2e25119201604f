//! When the repositories are queried.
use vstd::prelude::*;

use crate::app::AppView;
use crate::app::effect::EffectView;
use crate::app::tracking::TrackingView;
use crate::laws::{lemma_listed, lemma_worktree, listed_at, worktree_at};
use crate::repo_list::{RepoEntryView, RepoListView};
use crate::status::RepoStatusView;

verus! {

/// The query of a repository without a fetch, of which the user is told nothing.
pub open spec fn quiet_query(path: Seq<char>) -> EffectView {
    EffectView::QueryStatus { id: path, path, fetch: false, announce: false }
}

/// The cooldown of a repository that was last queried at `last` is over.
pub open spec fn cooled_down(app: AppView, path: Seq<char>, now: u128) -> bool {
    app.tracking.last.contains_key(path) ==> now >= app.tracking.last[path]
        && now - app.tracking.last[path] >= app.config.refresh_cooldown_ms * 1_000_000
}

/// A change in a repository, or in a worktree of it, has the repository at `path`
/// queried: at once, if it is not being queried and the cooldown is over.
pub open spec fn queries_now(before: AppView, after: AppView, path: Seq<char>) -> bool {
    &&& after.outbox == before.outbox.push(quiet_query(path))
    &&& after.tracking.pending == before.tracking.pending.insert(path)
    &&& after.tracking.dirty == before.tracking.dirty
    &&& after.tracking.last == before.tracking.last
    &&& !after.tracking.scheduled.contains(path)
    &&& after == AppView { outbox: after.outbox, tracking: after.tracking, ..before }
}

/// During a query nothing is asked for, and the change is kept in mind.
pub open spec fn keeps_in_mind(before: AppView, after: AppView, path: Seq<char>) -> bool {
    after == AppView {
        tracking: TrackingView { dirty: before.tracking.dirty.insert(path), ..before.tracking },
        ..before
    }
}

/// During the cooldown one refresh is asked for, for when it is over.
pub open spec fn puts_off(before: AppView, after: AppView, path: Seq<char>, now: u128) -> bool {
    if before.tracking.scheduled.contains(path) {
        after == before
    } else {
        &&& after.tracking == TrackingView {
            scheduled: before.tracking.scheduled.insert(path),
            ..before.tracking
        }
        &&& after.outbox.len() == before.outbox.len() + 1
        &&& after.outbox.drop_last() == before.outbox
        &&& after.outbox.last() matches EffectView::RefreshLater { id, wait } && id == path && (
        before.tracking.last[path] <= now ==> now + wait == before.tracking.last[path]
            + before.config.refresh_cooldown_ms * 1_000_000)
        &&& after == AppView { outbox: after.outbox, tracking: after.tracking, ..before }
    }
}

/// What follows on a change of the repository at `path`.
pub open spec fn refreshes(before: AppView, after: AppView, path: Seq<char>, now: u128) -> bool {
    if before.tracking.pending.contains(path) {
        keeps_in_mind(before, after, path)
    } else if cooled_down(before, path, now) {
        queries_now(before, after, path)
    } else {
        puts_off(before, after, path, now)
    }
}

proof fn lemma_schedule(app: AppView, i: int, path: Seq<char>, now: u128)
    requires
        listed_at(app.repos, i, path),
        app.tracking.last.contains_key(path) ==> app.tracking.last[path] <= now,
    ensures
        refreshes(app, app.schedule_refresh(path, now), path, now),
{
    lemma_listed(app.repos, i, path);
    reveal(AppView::emit);
    reveal(AppView::spawn_refresh_query);
    reveal(AppView::schedule_refresh);
    let after = app.schedule_refresh(path, now);
    assert(app.config.refresh_cooldown_ms * 1_000_000 <= u128::MAX) by (nonlinear_arith);
    if !app.tracking.pending.contains(path) && !cooled_down(app, path, now)
        && !app.tracking.scheduled.contains(path) {
        assert(after.outbox.drop_last() =~= app.outbox);
    }
}

/// A change of a repository on disk has that repository queried; a change in a worktree
/// has the repository queried that it belongs to. The last query is not of the future.
pub proof fn law_changes_lead_to_queries(app: AppView, id: Seq<char>, now: u128, i: int, w: int)
    ensures
        listed_at(app.repos, i, id) && (app.tracking.last.contains_key(id)
            ==> app.tracking.last[id] <= now) ==> refreshes(
            app,
            app.refresh_repo(id, now),
            id,
            now,
        ),
        worktree_at(app.repos, i, w, id) && listed_at(app.repos, i, app.repos.repos[i].path) && (
        app.tracking.last.contains_key(app.repos.repos[i].path)
            ==> app.tracking.last[app.repos.repos[i].path] <= now) ==> refreshes(
            app,
            app.refresh_repo(id, now),
            app.repos.repos[i].path,
            now,
        ),
{
    reveal(AppView::refresh_repo);
    if listed_at(app.repos, i, id) {
        lemma_listed(app.repos, i, id);
        if app.tracking.last.contains_key(id) ==> app.tracking.last[id] <= now {
            lemma_schedule(app, i, id, now);
        }
    }
    if worktree_at(app.repos, i, w, id) && listed_at(app.repos, i, app.repos.repos[i].path) {
        lemma_worktree(app.repos, i, w, id);
        if app.tracking.last.contains_key(app.repos.repos[i].path)
            ==> app.tracking.last[app.repos.repos[i].path] <= now {
            lemma_schedule(app, i, app.repos.repos[i].path, now);
        }
    }
}

/// A refresh that was put off is made up for when its time has come, and only then.
pub proof fn law_put_off_refreshes_are_made_up_for(app: AppView, id: Seq<char>, now: u128, i: int)
    requires
        listed_at(app.repos, i, id),
        app.tracking.last.contains_key(id) ==> app.tracking.last[id] <= now,
    ensures
        ({
            let after = app.refresh_after_cooldown(id, now);
            &&& !app.tracking.scheduled.contains(id) ==> after == app
            &&& app.tracking.scheduled.contains(id) ==> refreshes(
                AppView {
                    tracking: TrackingView {
                        scheduled: app.tracking.scheduled.remove(id),
                        ..app.tracking
                    },
                    ..app
                },
                after,
                id,
                now,
            )
        }),
{
    reveal(AppView::refresh_after_cooldown);
    let taken = AppView {
        tracking: TrackingView { scheduled: app.tracking.scheduled.remove(id), ..app.tracking },
        ..app
    };
    lemma_schedule(taken, i, id, now);
}

/// A query that ends without a state leaves the state of its repository as it was and
/// ends the sign of a running operation; it counts as the last query, and a change that
/// came meanwhile has the repository queried again.
pub proof fn law_failed_queries_end(app: AppView, id: Seq<char>, now: u128, i: int)
    requires
        listed_at(app.repos, i, id),
    ensures
        ({
            let after = app.status_query_done(id, now);
            &&& after.repos == RepoListView {
                repos: app.repos.repos.update(
                    i,
                    RepoEntryView { git_op: false, ..app.repos.repos[i] },
                ),
                ..app.repos
            }
            &&& after.tracking.last.contains_key(id) && after.tracking.last[id] == now
            &&& !after.tracking.dirty.contains(id)
            &&& after.graph == app.graph
            &&& !app.tracking.dirty.contains(id) ==> !after.tracking.pending.contains(id)
                && after.outbox == app.outbox
            &&& app.tracking.dirty.contains(id) && app.config.refresh_cooldown_ms == 0
                ==> after.outbox == app.outbox.push(quiet_query(id))
            &&& app.tracking.dirty.contains(id) && app.config.refresh_cooldown_ms > 0
                && !app.tracking.scheduled.contains(id) ==> after.outbox == app.outbox.push(
                EffectView::RefreshLater {
                    id: id,
                    wait: (app.config.refresh_cooldown_ms * 1_000_000) as u128,
                },
            )
        }),
{
    lemma_listed(app.repos, i, id);
    reveal(AppView::emit);
    reveal(AppView::end_git_op);
    reveal(AppView::spawn_refresh_query);
    reveal(AppView::schedule_refresh);
    reveal(AppView::status_query_done);
    let ended = AppView {
        repos: RepoListView {
            repos: app.repos.repos.update(i, RepoEntryView { git_op: false, ..app.repos.repos[i] }),
            ..app.repos
        },
        tracking: app.tracking.finished(id, now),
        ..app
    };
    assert(listed_at(ended.repos, i, id)) by {
        assert forall|k: int| 0 <= k < i implies (#[trigger] ended.repos.repos[k]).path != id by {
            assert(app.repos.repos[k].path != id);
        }
    }
    lemma_listed(ended.repos, i, id);
    assert(ended.tracking.last[id] == now);
    assert(app.config.refresh_cooldown_ms * 1_000_000 <= u128::MAX) by (nonlinear_arith);
}

/// A query that ends with a state gives that state to its repository, and to no other;
/// the sign of a running operation goes, and it counts as the last query.
pub proof fn law_states_go_to_their_repository(
    app: AppView,
    id: Seq<char>,
    status: RepoStatusView,
    now: u128,
    i: int,
)
    requires
        listed_at(app.repos, i, id),
    ensures
        ({
            let after = app.repo_status_updated(id, status, now);
            &&& after.repos.repos == app.repos.repos.update(
                i,
                RepoEntryView { status: Some(status), git_op: false, ..app.repos.repos[i] },
            )
            &&& after.tracking.last.contains_key(id) && after.tracking.last[id] == now
            &&& !after.tracking.dirty.contains(id)
            &&& after.repos.expanded == app.repos.expanded
            &&& after.repos.expanded_stashes == app.repos.expanded_stashes
            &&& after.repos.state == app.repos.state
            &&& after.active_worktree == app.active_worktree
            &&& after.config == app.config
        }),
{
    lemma_listed(app.repos, i, id);
    reveal(AppView::emit);
    reveal(AppView::with_status);
    reveal(AppView::show_files);
    reveal(AppView::outdate_graph);
    reveal(AppView::show_status);
    reveal(AppView::take_status);
    reveal(AppView::spawn_refresh_query);
    reveal(AppView::schedule_refresh);
    reveal(AppView::repo_status_updated);
}

/// A refresh that the user asks for queries every repository in the list, with a fetch,
/// in the order of the list, and tells of failures; each then shows that it runs.
pub proof fn law_all_are_refreshed(app: AppView, k: int)
    requires
        0 <= k < app.repos.repos.len(),
    ensures
        ({
            let after = app.refresh_first(app.repos.repos.len());
            let path = app.repos.repos[k].path;
            &&& after.outbox.len() == app.outbox.len() + app.repos.repos.len()
            &&& after.outbox[app.outbox.len() + k] == EffectView::QueryStatus {
                id: path,
                path,
                fetch: true,
                announce: true,
            }
            &&& after.outbox.take(app.outbox.len() as int) == app.outbox
            &&& after.tracking.pending.contains(path)
            &&& after.repos.repos.len() == app.repos.repos.len()
            &&& after.repos.repos[k] == RepoEntryView { git_op: true, ..app.repos.repos[k] }
            &&& after.graph == app.graph
        }),
{
    lemma_refresh_first(app, app.repos.repos.len());
    let after = app.refresh_first(app.repos.repos.len());
    assert(after.outbox.take(app.outbox.len() as int) =~= app.outbox);
}

proof fn lemma_refresh_first(app: AppView, n: nat)
    requires
        n <= app.repos.repos.len(),
    ensures
        ({
            let after = app.refresh_first(n);
            &&& after.outbox.len() == app.outbox.len() + n
            &&& forall|j: int| 0 <= j < app.outbox.len() ==> #[trigger] after.outbox[j]
                == app.outbox[j]
            &&& forall|j: int|
                app.outbox.len() <= j < after.outbox.len() ==> #[trigger] after.outbox[j]
                    == (EffectView::QueryStatus {
                    id: app.repos.repos[j - app.outbox.len()].path,
                    path: app.repos.repos[j - app.outbox.len()].path,
                    fetch: true,
                    announce: true,
                })
            &&& forall|k: int|
                0 <= k < n ==> after.tracking.pending.contains(
                    (#[trigger] app.repos.repos[k]).path,
                )
            &&& after.repos.repos.len() == app.repos.repos.len()
            &&& forall|k: int|
                0 <= k < app.repos.repos.len() ==> (#[trigger] after.repos.repos[k]) == if k < n {
                    RepoEntryView { git_op: true, ..app.repos.repos[k] }
                } else {
                    app.repos.repos[k]
                }
            &&& after.graph == app.graph
        }),
    decreases n,
{
    reveal(AppView::emit);
    if n > 0 {
        lemma_refresh_first(app, (n - 1) as nat);
    }
}

/// The regular look, and the regular fetch, query every repository that is neither
/// being queried nor has an operation running in it, and no other; a fetch fetches, a
/// look does not, and neither tells of failures.
pub proof fn law_polls_query_the_idle(app: AppView, k: int)
    requires
        0 <= k < app.repos.repos.len(),
        forall|a: int, b: int|
            0 <= a < b < app.repos.repos.len() ==> (#[trigger] app.repos.repos[a]).path != (
            #[trigger] app.repos.repos[b]).path,
    ensures
        ({
            let look = app.poll_local();
            let fetch = app.poll_fetch();
            let entry = app.repos.repos[k];
            let idle = !entry.git_op && !app.tracking.pending.contains(entry.path);
            &&& idle <==> fetch.outbox.skip(app.outbox.len() as int).contains(
                EffectView::QueryStatus {
                    id: entry.path,
                    path: entry.path,
                    fetch: true,
                    announce: false,
                },
            )
            &&& idle <==> look.outbox.skip(app.outbox.len() as int).contains(
                quiet_query(entry.path),
            )
            &&& idle ==> fetch.tracking.pending.contains(entry.path)
                && look.tracking.pending.contains(entry.path)
            &&& fetch.repos == app.repos && look.repos == app.repos
            &&& fetch.graph == app.graph && look.graph == app.graph
        }),
{
    reveal(AppView::emit);
    reveal(AppView::probe_liveness);
    reveal(AppView::refresh_active_worktree);
    reveal(AppView::poll_local);
    reveal(AppView::poll_fetch);
    let n = app.repos.repos.len();
    let start = app.outbox.len() as int;
    lemma_poll(app, true, n, k);
    let fetch = app.poll_fetch();
    let asked = EffectView::QueryStatus {
        id: app.repos.repos[k].path,
        path: app.repos.repos[k].path,
        fetch: true,
        announce: false,
    };
    lemma_skip(app.outbox, fetch.outbox, asked);
    let probed = app.probe_liveness();
    lemma_poll(probed, false, n, k);
    let polled = probed.poll_first(false, n);
    let look = app.poll_local();
    let quiet = quiet_query(app.repos.repos[k].path);
    lemma_skip(app.outbox, look.outbox, quiet);
    assert forall|j: int| 0 <= j < app.outbox.len() implies #[trigger] look.outbox[j]
        == app.outbox[j] by {
        assert(polled.outbox[j] == probed.outbox[j]);
    }
    if exists|j: int| start <= j < look.outbox.len() && look.outbox[j] == quiet {
        let j = choose|j: int| start <= j < look.outbox.len() && look.outbox[j] == quiet;
        if j < probed.outbox.len() {
            assert(polled.outbox[j] == probed.outbox[j]);
        } else {
            assert(j < polled.outbox.len());
            assert(polled.outbox[j] == quiet);
        }
    }
    if exists|j: int|
        probed.outbox.len() <= j < polled.outbox.len() && #[trigger] polled.outbox[j] == quiet {
        let j = choose|j: int|
            probed.outbox.len() <= j < polled.outbox.len() && #[trigger] polled.outbox[j] == quiet;
        assert(look.outbox[j] == quiet);
    }
}

proof fn lemma_skip(before: Seq<EffectView>, after: Seq<EffectView>, e: EffectView)
    requires
        before.len() <= after.len(),
    ensures
        after.skip(before.len() as int).contains(e) <==> exists|j: int|
            before.len() <= j < after.len() && #[trigger] after[j] == e,
{
    let rest = after.skip(before.len() as int);
    if rest.contains(e) {
        let j = choose|j: int| 0 <= j < rest.len() && rest[j] == e;
        assert(after[before.len() + j] == e);
    }
    if exists|j: int| before.len() <= j < after.len() && #[trigger] after[j] == e {
        let j = choose|j: int| before.len() <= j < after.len() && #[trigger] after[j] == e;
        assert(rest[j - before.len()] == e);
    }
}

proof fn lemma_poll(app: AppView, fetch: bool, n: nat, k: int)
    requires
        0 <= k < app.repos.repos.len(),
        n <= app.repos.repos.len(),
        forall|a: int, b: int|
            0 <= a < b < app.repos.repos.len() ==> (#[trigger] app.repos.repos[a]).path != (
            #[trigger] app.repos.repos[b]).path,
    ensures
        ({
            let after = app.poll_first(fetch, n);
            let entry = app.repos.repos[k];
            let idle = !entry.git_op && !app.tracking.pending.contains(entry.path);
            &&& after.outbox.len() >= app.outbox.len()
            &&& forall|j: int| 0 <= j < app.outbox.len() ==> #[trigger] after.outbox[j]
                == app.outbox[j]
            &&& (k < n && idle) <==> exists|j: int|
                app.outbox.len() <= j < after.outbox.len() && #[trigger] after.outbox[j] == (
                EffectView::QueryStatus {
                    id: entry.path,
                    path: entry.path,
                    fetch,
                    announce: false,
                })
            &&& forall|j: int|
                app.outbox.len() <= j < after.outbox.len() ==> (
                #[trigger] after.outbox[j]) is QueryStatus
            &&& after.tracking.pending.contains(entry.path) <==> app.tracking.pending.contains(
                entry.path,
            ) || k < n && idle
            &&& after == AppView { outbox: after.outbox, tracking: after.tracking, ..app }
        }),
    decreases n,
{
    reveal(AppView::emit);
    reveal(AppView::poll_one);
    if n > 0 {
        lemma_poll(app, fetch, (n - 1) as nat, k);
        lemma_poll(app, fetch, (n - 1) as nat, n - 1);
        let before = app.poll_first(fetch, (n - 1) as nat);
        let after = app.poll_first(fetch, n);
        let entry = app.repos.repos[k];
        let e = EffectView::QueryStatus { id: entry.path, path: entry.path, fetch, announce: false };
        if k != n - 1 {
            assert(app.repos.repos[k].path != app.repos.repos[n - 1].path);
        }
        if exists|j: int| app.outbox.len() <= j < before.outbox.len() && #[trigger] before.outbox[j]
            == e {
            let j = choose|j: int|
                app.outbox.len() <= j < before.outbox.len() && #[trigger] before.outbox[j] == e;
            assert(after.outbox[j] == e);
        }
        if exists|j: int| app.outbox.len() <= j < after.outbox.len() && #[trigger] after.outbox[j]
            == e {
            let j = choose|j: int|
                app.outbox.len() <= j < after.outbox.len() && #[trigger] after.outbox[j] == e;
            if j < before.outbox.len() {
                assert(before.outbox[j] == e);
            }
        }
        if k == n - 1 && !entry.git_op && !app.tracking.pending.contains(entry.path) {
            assert(after.outbox[before.outbox.len() as int] == e);
        }
        assert forall|j: int| 0 <= j < app.outbox.len() implies #[trigger] after.outbox[j]
            == app.outbox[j] by {
            assert(before.outbox[j] == app.outbox[j]);
        }
        assert forall|j: int| app.outbox.len() <= j < after.outbox.len() implies (
        #[trigger] after.outbox[j]) is QueryStatus by {
            if j < before.outbox.len() {
                assert(before.outbox[j] is QueryStatus);
            }
        }
    }
}

/// The regular look also looks for terminal sessions, if that is wanted and not being
/// done, and at the worktree or submodule that is shown.
pub proof fn law_looks_take_in_what_is_shown(app: AppView)
    requires
        app.repos.repos.len() == 0,
    ensures
        ({
            let look = app.poll_local();
            let wanted = app.config.show_liveness && !app.liveness_probe_in_flight;
            let probed = if wanted {
                app.outbox.push(EffectView::ProbeLiveness)
            } else {
                app.outbox
            };
            &&& look.outbox == match app.active_worktree {
                Some(shown) => probed.push(
                    EffectView::RefreshPathContext {
                        path: shown.path,
                        repo_id: shown.repo_id,
                        display_name: shown.display_name,
                    },
                ),
                None => probed,
            }
            &&& look.liveness_probe_in_flight == (app.liveness_probe_in_flight
                || app.config.show_liveness)
        }),
{
    reveal(AppView::emit);
    reveal(AppView::probe_liveness);
    reveal(AppView::refresh_active_worktree);
    reveal(AppView::poll_local);
}

} // verus!
