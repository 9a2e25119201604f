//! Repositories that are added, removed and found.
use vstd::prelude::*;

use crate::action::ActionView;
use crate::app::AppView;
use crate::app::effect::EffectView;
use crate::app::events::Event;
use crate::app::tracking::TrackingView;
use crate::config::ConfigView;
use crate::laws::{lemma_listed, lemma_unlisted, listed_at, unlisted};
use crate::repo_list::{RepoEntryView, RepoListView};
use crate::repo_list::sort::{law_sorted_entries, sorted_entries};
use crate::repo_list::sync::{
    gone, kept, law_difference_is_exact, law_sync_is_idempotent, listed, unknown,
};

verus! {

/// A repository that the user adds is pinned, saved, put at the end of the list with
/// nothing known of it, refreshed and selected. Without git data at its path, only the
/// input is put away.
pub proof fn law_added_repository_is_listed(
    app: AppView,
    path: Seq<char>,
    has_dot_git: bool,
    has_head: bool,
)
    ensures
        ({
            let after = app.add_repo(path, has_dot_git, has_head);
            let hidden = app.outbox.push(EffectView::HidePathInput);
            if has_dot_git || has_head {
                &&& after.outbox == hidden.push(EffectView::SaveConfig).push(
                    EffectView::Send(ActionView::RefreshRepo(path)),
                ).push(EffectView::Send(ActionView::SelectRepo(path)))
                &&& after.config.pinned_repos == if app.config.pinned_repos.contains(path) {
                    app.config.pinned_repos
                } else {
                    app.config.pinned_repos.push(path)
                }
                &&& after.config == ConfigView {
                    pinned_repos: after.config.pinned_repos,
                    ..app.config
                }
                &&& after.repos.repos.len() == app.repos.repos.len() + 1
                &&& after.repos.repos.drop_last() == app.repos.repos
                &&& after.repos.repos.last().path == path
                &&& after.repos.repos.last().status is None
                &&& !after.repos.repos.last().git_op
                &&& after.graph == app.graph
                &&& after.tracking == app.tracking
            } else {
                after == AppView { outbox: hidden, ..app }
            }
        }),
{
    reveal(AppView::emit);
    reveal(AppView::with_pinned);
    reveal(AppView::with_new_repo);
    reveal(AppView::add_repo);
    let after = app.add_repo(path, has_dot_git, has_head);
    if has_dot_git || has_head {
        assert(after.repos.repos.drop_last() =~= app.repos.repos);
    }
}

/// A repository that the user removes leaves the list and nothing is known of its
/// queries any more; it is not pinned, its name is excluded, and that is saved. The
/// repository that then stands in its place, or else the last one, is selected; with
/// none left no files are shown.
pub proof fn law_removed_repository_is_gone(app: AppView, id: Seq<char>, i: int)
    requires
        listed_at(app.repos, i, id),
    ensures
        ({
            let after = app.remove_repo(id);
            let entry = app.repos.repos[i];
            let rest = app.repos.repos.remove(i);
            let saved = app.outbox.push(EffectView::SaveConfig);
            &&& after.repos.repos == rest
            &&& !after.config.pinned_repos.contains(id)
            &&& after.config.excluded_repos == if app.config.excluded_repos.contains(entry.name) {
                app.config.excluded_repos
            } else {
                app.config.excluded_repos.push(entry.name)
            }
            &&& after.config == ConfigView {
                pinned_repos: after.config.pinned_repos,
                excluded_repos: after.config.excluded_repos,
                ..app.config
            }
            &&& after.tracking.pending == app.tracking.pending.remove(id)
            &&& after.tracking.dirty == app.tracking.dirty.remove(id)
            &&& after.tracking.scheduled == app.tracking.scheduled.remove(id)
            &&& after.tracking.last == app.tracking.last.remove(id)
            &&& after.graph == app.graph
            &&& rest.len() == 0 ==> after.repos.state.selected is None && after.outbox
                == saved.push(
                EffectView::SetFiles { files: Seq::empty(), name: Seq::empty(), id: Seq::empty() },
            )
            &&& 0 <= i < rest.len() ==> after.outbox == saved.push(
                EffectView::Send(ActionView::SelectRepo(rest[i].path)),
            )
            &&& i == rest.len() && rest.len() > 0 ==> after.outbox == saved.push(
                EffectView::Send(ActionView::SelectRepo(rest.last().path)),
            )
        }),
{
    lemma_listed(app.repos, i, id);
    reveal(AppView::emit);
    reveal(AppView::with_excluded);
    reveal(AppView::without_repo);
    reveal(AppView::show_next_repo);
    reveal(AppView::remove_repo);
    crate::laws::texts::law_texts_join_and_leave_lists(
        app.config.pinned_repos,
        id,
        app.repos.repos[i].name,
    );
}

/// Removing what is not in the list does nothing.
pub proof fn law_nothing_unlisted_is_removed(app: AppView, id: Seq<char>)
    requires
        unlisted(app.repos, id),
    ensures
        app.remove_repo(id) == app,
{
    lemma_unlisted(app.repos, id);
    reveal(AppView::remove_repo);
}

/// A rescan that the user asks for excludes nothing any more, forgets all queries, saves
/// that, and looks for all repositories.
pub proof fn law_rescan_starts_afresh(app: AppView)
    ensures
        app.rescan_repos() == (AppView {
            tracking: TrackingView {
                pending: Set::empty(),
                dirty: Set::empty(),
                last: Map::empty(),
                scheduled: Set::empty(),
            },
            config: ConfigView { excluded_repos: Seq::empty(), ..app.config },
            outbox: app.outbox.push(EffectView::SaveConfig).push(EffectView::Rescan),
            ..app
        }),
{
    reveal(AppView::emit);
    reveal(AppView::with_nothing_excluded);
    reveal(AppView::rescan_repos);
}

/// What a rescan found is the list from then on: exactly those repositories, sorted,
/// none of them with a known state, watched and queried.
pub proof fn law_rescan_makes_the_list(app: AppView, paths: Seq<Seq<char>>, p: Seq<char>)
    requires
        app.watching,
    ensures
        ({
            let after = app.repos_rescanned(paths);
            &&& after.repos.repos.len() == paths.len()
            &&& listed(after.repos.repos, p) <==> paths.contains(p)
            &&& forall|k: int|
                0 <= k < after.repos.repos.len() ==> (
                #[trigger] after.repos.repos[k]).status is None
            &&& after.outbox.len() >= app.outbox.len() + 2
            &&& after.outbox[app.outbox.len() as int] == EffectView::Watch {
                repo_paths: paths,
                root_dirs: app.config.root_dirs,
                debounce_ms: app.config.debounce_ms,
                exclude_dirs: app.config.watch_exclude_dirs,
                worktree_dirs: app.config.watch_worktree_dirs,
            }
            &&& after.outbox[app.outbox.len() as int + 1] == EffectView::Send(ActionView::PollLocal)
            &&& after.config == app.config
        }),
{
    let found = paths;
    let renewed = app.with_new_list(found);
    let first = RepoListView {
        connected: true,
        ..RepoListView::fresh(found, app.config.root_dirs, app.theme)
    };
    assert(renewed == AppView { repos: first, ..app }) by {
        reveal(AppView::with_new_list);
    }
    let told = renewed.rebuild_watcher().emit(EffectView::Send(ActionView::PollLocal));
    assert(told == AppView { outbox: told.outbox, ..renewed } && told.outbox.len()
        == app.outbox.len() + 2 && told.outbox[app.outbox.len() as int] == (EffectView::Watch {
        repo_paths: found,
        root_dirs: app.config.root_dirs,
        debounce_ms: app.config.debounce_ms,
        exclude_dirs: app.config.watch_exclude_dirs,
        worktree_dirs: app.config.watch_worktree_dirs,
    }) && told.outbox[app.outbox.len() as int + 1] == EffectView::Send(ActionView::PollLocal)) by {
        reveal(AppView::emit);
        reveal(AppView::rebuild_watcher);
        assert(crate::app::repos::paths_of(first.repos) =~= found);
    }
    let dirty_first = app.sort_order == crate::app::SortOrder::DirtyFirst;
    let sorted = told.sort_repos();
    assert(sorted.repos.repos == crate::repo_list::sort::sorted_entries(
        first.repos,
        dirty_first,
    ) && sorted.outbox == told.outbox && sorted.config == app.config) by {
        reveal(AppView::sort_repos);
    }
    law_sorted_entries(first.repos, dirty_first);
    let after = sorted.sync_selection();
    lemma_sync_selection(sorted);
    assert(app.repos_rescanned(found) == after) by {
        reveal(AppView::repos_rescanned);
    }
    assert forall|k: int| 0 <= k < after.repos.repos.len() implies (
    #[trigger] after.repos.repos[k]).status is None by {
        let e = after.repos.repos[k];
        assert(sorted.repos.repos.contains(e));
        assert(first.repos.contains(e));
        let j = choose|j: int| 0 <= j < first.repos.len() && first.repos[j] == e;
        assert(first.repos[j].status is None);
    }
    if listed(after.repos.repos, p) {
        let k = choose|k: int|
            0 <= k < after.repos.repos.len() && (#[trigger] after.repos.repos[k]).path == p;
        let e = after.repos.repos[k];
        assert(sorted.repos.repos.contains(e));
        assert(first.repos.contains(e));
        let j = choose|j: int| 0 <= j < first.repos.len() && first.repos[j] == e;
        assert(found[j] == p);
    }
    if found.contains(p) {
        let j = choose|j: int| 0 <= j < found.len() && found[j] == p;
        let e = first.repos[j];
        assert(e.path == p);
        assert(first.repos.contains(e));
        assert(sorted.repos.repos.contains(e));
        let k = choose|k: int| 0 <= k < sorted.repos.repos.len() && sorted.repos.repos[k] == e;
        assert(after.repos.repos[k].path == p);
    }
}

pub(crate) proof fn lemma_sync_selection(app: AppView)
    ensures
        ({
            let after = app.sync_selection();
            &&& after.repos == app.repos
            &&& after.config == app.config
            &&& after.tracking == app.tracking
            &&& after.active_worktree == app.active_worktree
            &&& after.outbox.len() > app.outbox.len()
            &&& forall|j: int| 0 <= j < app.outbox.len() ==> #[trigger] after.outbox[j]
                == app.outbox[j]
        }),
{
    reveal(AppView::emit);
    reveal(AppView::refresh_active_worktree);
    reveal(AppView::show_files);
    reveal(AppView::load_graph);
    reveal(AppView::sync_selection);
}

/// The program knows the same repositories and configuration, is as far with its search
/// for new ones, and has more to do at most.
spec fn goes_on(before: AppView, after: AppView) -> bool {
    &&& after.repos.repos == before.repos.repos
    &&& after.config == before.config
    &&& after.last_discovery == before.last_discovery
    &&& after.discovery_pending == before.discovery_pending
    &&& after.sort_order == before.sort_order
    &&& after.outbox.len() >= before.outbox.len()
    &&& forall|j: int| 0 <= j < before.outbox.len() ==> #[trigger] after.outbox[j]
        == before.outbox[j]
}

proof fn lemma_forgotten(app: AppView, paths: Seq<Seq<char>>, n: nat)
    requires
        n <= paths.len(),
    ensures
        goes_on(app, app.forget_first(paths, n)),
    decreases n,
{
    if n > 0 {
        lemma_forgotten(app, paths, (n - 1) as nat);
        reveal(AppView::forget_repo);
        reveal(AppView::leave_worktree);
    }
}

proof fn lemma_announced(app: AppView, paths: Seq<Seq<char>>, n: nat)
    requires
        n <= paths.len(),
    ensures
        ({
            let after = app.announce_first(paths, n);
            &&& goes_on(app, after)
            &&& after.outbox.len() == app.outbox.len() + n
            &&& forall|j: int|
                app.outbox.len() <= j < after.outbox.len() ==> #[trigger] after.outbox[j]
                    == EffectView::Send(ActionView::RefreshRepo(paths[j - app.outbox.len()]))
        }),
    decreases n,
{
    if n > 0 {
        lemma_announced(app, paths, (n - 1) as nat);
        reveal(AppView::emit);
    }
}

proof fn lemma_selection_goes_on(app: AppView)
    ensures
        goes_on(app, app.sync_selection()),
{
    reveal(AppView::emit);
    reveal(AppView::refresh_active_worktree);
    reveal(AppView::show_files);
    reveal(AppView::load_graph);
    reveal(AppView::sync_selection);
}

proof fn lemma_changed_list(
    app: AppView,
    added: Seq<Seq<char>>,
    removed: Seq<Seq<char>>,
    selected: Option<Seq<char>>,
)
    ensures
        ({
            let after = app.repos_changed(added, removed, selected);
            let dirty_first = app.sort_order == crate::app::SortOrder::DirtyFirst;
            &&& after.repos.repos == sorted_entries(app.repos.repos, dirty_first)
            &&& after.config == app.config
            &&& after.last_discovery == app.last_discovery
            &&& after.discovery_pending == app.discovery_pending
            &&& forall|p: Seq<char>|
                added.contains(p) ==> #[trigger] after.outbox.contains(
                    EffectView::Send(ActionView::RefreshRepo(p)),
                )
        }),
{
    let a = app.with_connected_list().emit(EffectView::PruneGithub(removed));
    assert(goes_on(app, a)) by {
        reveal(AppView::with_connected_list);
        reveal(AppView::emit);
    }
    let b = a.forget_first(removed, removed.len());
    lemma_forgotten(a, removed, removed.len());
    let c = b.sort_repos();
    assert(c == AppView { repos: c.repos, ..b } && c.repos.repos == sorted_entries(
        b.repos.repos,
        b.sort_order == crate::app::SortOrder::DirtyFirst,
    )) by {
        reveal(AppView::sort_repos);
    }
    let d = c.reselect(selected);
    assert(goes_on(c, d)) by {
        reveal(AppView::select_row_of);
    }
    let e = d.rebuild_watcher();
    assert(goes_on(d, e)) by {
        reveal(AppView::rebuild_watcher);
        reveal(AppView::emit);
    }
    let f = e.announce_first(added, added.len());
    lemma_announced(e, added, added.len());
    let g = f.sync_selection();
    lemma_selection_goes_on(f);
    assert(app.repos_changed(added, removed, selected) == g) by {
        reveal(AppView::repos_changed);
    }
    assert forall|p: Seq<char>| added.contains(p) implies #[trigger] g.outbox.contains(
        EffectView::Send(ActionView::RefreshRepo(p)),
    ) by {
        let k = choose|k: int| 0 <= k < added.len() && added[k] == p;
        assert(f.outbox[e.outbox.len() + k] == EffectView::Send(ActionView::RefreshRepo(p)));
        assert(g.outbox[e.outbox.len() + k] == EffectView::Send(ActionView::RefreshRepo(p)));
    }
}

proof fn lemma_kept_entry(repos: Seq<RepoEntryView>, paths: Seq<Seq<char>>, e: RepoEntryView)
    requires
        repos.contains(e),
        paths.contains(e.path),
    ensures
        kept(repos, paths).contains(e),
    decreases repos.len(),
{
    let front = repos.drop_last();
    let before = kept(front, paths);
    if repos.last() == e {
        assert(kept(repos, paths) == before.push(e));
        assert(before.push(e)[before.len() as int] == e);
    } else {
        let k = choose|k: int| 0 <= k < repos.len() && repos[k] == e;
        assert(front[k] == e);
        lemma_kept_entry(front, paths, e);
        let j = choose|j: int| 0 <= j < before.len() && before[j] == e;
        assert(kept(repos, paths)[j] == e);
    }
}

/// After a search for new repositories the list holds exactly those that were found. One
/// that was there keeps its state, and each that was not is to be queried.
pub proof fn law_search_brings_the_list_in_step(
    app: AppView,
    paths: Seq<Seq<char>>,
    now: u128,
    p: Seq<char>,
)
    ensures
        ({
            let after = app.discover_new_repos(paths, now);
            &&& listed(after.repos.repos, p) <==> paths.contains(p)
            &&& after.last_discovery == Some(now)
            &&& !after.discovery_pending
            &&& after.config == app.config
            &&& forall|e: RepoEntryView|
                app.repos.repos.contains(e) && paths.contains(e.path)
                    ==> #[trigger] after.repos.repos.contains(e)
            &&& paths.contains(p) && !listed(app.repos.repos, p) ==> after.outbox.contains(
                EffectView::Send(ActionView::RefreshRepo(p)),
            )
        }),
{
    let synced = app.repos.sync_paths(paths);
    let after = app.discover_new_repos(paths, now);
    let dirty_first = app.sort_order == crate::app::SortOrder::DirtyFirst;
    let added = unknown(paths, app.repos.repos);
    let removed = gone(app.repos.repos, paths);
    let found = app.discovery_done(now).with_found(paths);
    assert(found == AppView { repos: synced, ..app.discovery_done(now) }) by {
        reveal(AppView::with_found);
    }
    lemma_changed_list(found, added, removed, app.selected_path());
    law_difference_is_exact(app.repos, paths, p);
    law_sync_is_idempotent(app.repos, paths);
    law_sorted_entries(synced.repos, dirty_first);
    assert(after == found || after == found.repos_changed(added, removed, app.selected_path())) by {
        reveal(AppView::discover_new_repos);
    }
    assert(added.len() > 0 ==> after == found.repos_changed(added, removed, app.selected_path()))
        by {
        reveal(AppView::discover_new_repos);
    }
    lemma_same_paths(synced.repos, sorted_entries(synced.repos, dirty_first), p);
    assert forall|e: RepoEntryView|
        app.repos.repos.contains(e) && paths.contains(
            e.path,
        ) implies #[trigger] after.repos.repos.contains(e) by {
        lemma_kept_entry(app.repos.repos, paths, e);
        let stay = kept(app.repos.repos, paths);
        let j = choose|j: int| 0 <= j < stay.len() && stay[j] == e;
        assert(synced.repos[j] == e);
        assert(synced.repos.contains(e));
    }
}

proof fn lemma_same_paths(a: Seq<RepoEntryView>, b: Seq<RepoEntryView>, p: Seq<char>)
    requires
        forall|e: RepoEntryView| #[trigger] a.contains(e) <==> b.contains(e),
    ensures
        listed(a, p) <==> listed(b, p),
{
    if listed(a, p) {
        let k = choose|k: int| 0 <= k < a.len() && (#[trigger] a[k]).path == p;
        assert(a.contains(a[k]));
        let j = choose|j: int| 0 <= j < b.len() && b[j] == a[k];
        assert(b[j].path == p);
    }
    if listed(b, p) {
        let k = choose|k: int| 0 <= k < b.len() && (#[trigger] b[k]).path == p;
        assert(b.contains(b[k]) && a.contains(b[k]));
        let j = choose|j: int| 0 <= j < a.len() && a[j] == b[k];
        assert(a[j].path == p);
    }
}

/// A change in a root directory looks for new repositories at once, or, within the
/// cooldown in seconds, once when it is over.
pub proof fn law_root_changes_lead_to_a_search(app: AppView, now: u128)
    requires
        app.last_discovery is Some ==> app.last_discovery->0 <= now,
    ensures
        ({
            let after = app.on_event(Event::ReposRootChanged, now);
            let cooldown = app.config.discovery_cooldown_secs * 1_000_000_000;
            if app.last_discovery is None || now - app.last_discovery->0 >= cooldown {
                after == AppView {
                    last_discovery: Some(now),
                    discovery_pending: false,
                    outbox: app.outbox.push(EffectView::Discover),
                    ..app
                }
            } else if app.discovery_pending {
                after == app
            } else {
                after == AppView {
                    discovery_pending: true,
                    outbox: app.outbox.push(
                        EffectView::DiscoverLater(
                            (app.last_discovery->0 + cooldown - now) as u128,
                        ),
                    ),
                    ..app
                }
            }
        }),
{
    reveal(AppView::emit);
    reveal(AppView::repos_root_changed);
    assert(app.config.discovery_cooldown_secs * 1_000_000_000 <= u128::MAX) by (nonlinear_arith);
}

} // verus!
