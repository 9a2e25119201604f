//! The diffs that are asked for and shown.
use vstd::prelude::*;
use vstd::string::*;

use crate::app::AppView;
use crate::app::diff::short_id;
use crate::app::effect::EffectView;
use crate::app::selection::before_submodule;
use crate::laws::{lemma_listed, lemma_unlisted, listed_at, unlisted};
use crate::repo_list::RepoEntryView;
use crate::status::{SubmoduleInfoView, SubmoduleState};

verus! {

/// No submodule of a repository lies at this path.
pub open spec fn no_submodule_at(entry: RepoEntryView, path: Seq<char>) -> bool {
    entry.status is Some ==> forall|k: int|
        0 <= k < entry.status->0.submodules.len() ==> (
        #[trigger] entry.status->0.submodules[k]).path != path
}

/// Submodule `s` of a repository is the first one at this path.
pub open spec fn submodule_is_at(entry: RepoEntryView, s: int, path: Seq<char>) -> bool {
    &&& entry.status is Some
    &&& 0 <= s < entry.status->0.submodules.len()
    &&& entry.status->0.submodules[s].path == path
    &&& forall|k: int| 0 <= k < s ==> (#[trigger] entry.status->0.submodules[k]).path != path
}

pub(crate) proof fn lemma_before_submodule(
    subs: Seq<SubmoduleInfoView>,
    path: Seq<char>,
    s: int,
)
    requires
        0 <= s <= subs.len(),
        s < subs.len() ==> subs[s].path == path,
        forall|k: int| 0 <= k < s ==> (#[trigger] subs[k]).path != path,
    ensures
        before_submodule(subs, path) == s,
    decreases subs.len(),
{
    if subs.len() > 0 && s > 0 {
        let rest = subs.drop_first();
        assert(subs[0].path != path);
        assert forall|k: int| 0 <= k < s - 1 implies (#[trigger] rest[k]).path != path by {
            assert(rest[k] == subs[k + 1]);
        }
        lemma_before_submodule(rest, path, s - 1);
    }
}

/// The diff of a changed file is taken where the file is looked at: in the worktree
/// or submodule that is shown, and only without one in the repository.
pub proof fn law_file_diff_is_taken_where_it_is_shown(
    app: AppView,
    id: Seq<char>,
    file_path: Seq<char>,
    generation: u64,
    i: int,
)
    requires
        listed_at(app.repos, i, id),
        no_submodule_at(app.repos.repos[i], file_path),
    ensures
        app.show_diff(id, file_path, generation) == (AppView {
            outbox: app.outbox.push(
                EffectView::FileDiff {
                    dir: match app.active_worktree {
                        Some(shown) => shown.path,
                        None => id,
                    },
                    file: file_path,
                    generation,
                },
            ),
            ..app
        }),
{
    lemma_listed(app.repos, i, id);
    if app.repos.repos[i].status is Some {
        let subs = app.repos.repos[i].status->0.submodules;
        lemma_before_submodule(subs, file_path, subs.len() as int);
    }
    reveal(AppView::emit);
    reveal(AppView::show_diff);
}

/// The diff of a submodule is taken in the submodule: its uncommitted changes where
/// it has some, or where its commit is not known to have moved; else the commits
/// from the recorded one to the present one.
pub proof fn law_submodule_diff_is_taken_in_it(
    app: AppView,
    id: Seq<char>,
    file_path: Seq<char>,
    generation: u64,
    i: int,
    s: int,
)
    requires
        listed_at(app.repos, i, id),
        submodule_is_at(app.repos.repos[i], s, file_path),
        id.len() > 0,
        id.last() != '/',
        file_path.len() > 0,
        file_path[0] != '/',
    ensures
        ({
            let sub = app.repos.repos[i].status->0.submodules[s];
            let after = app.show_diff(id, file_path, generation);
            let moved = sub.head_oid is Some && sub.workdir_oid is Some && sub.head_oid->0.len()
                > 0 && sub.workdir_oid->0.len() > 0 && sub.head_oid != sub.workdir_oid;
            &&& after == AppView { outbox: after.outbox, ..app }
            &&& after.outbox.len() == app.outbox.len() + 1
            &&& after.outbox.drop_last() == app.outbox
            &&& if moved && sub.state != Some(SubmoduleState::Dirty) {
                after.outbox.last() matches EffectView::SubmoduleLog {
                    dir,
                    header,
                    range,
                    generation: under,
                } && dir == id + "/"@ + file_path && range == sub.head_oid->0 + ".."@
                    + sub.workdir_oid->0 && under == generation && header == "Submodule "@
                    + short_id(sub.head_oid->0) + " → "@ + short_id(sub.workdir_oid->0) + "\n"@
                    + Seq::new(40, |k: int| '─') + "\n"@
            } else {
                after.outbox.last() matches EffectView::SubmoduleDiff {
                    dir,
                    header,
                    generation: under,
                } && dir == id + "/"@ + file_path && under == generation && header
                    == "Submodule "@ + file_path + " ("@ + match sub.state {
                    Some(SubmoduleState::Dirty) => "uncommitted changes"@,
                    Some(SubmoduleState::Uninitialized) => "not initialized"@,
                    Some(SubmoduleState::Modified) => "modified"@,
                    None => "unpushed"@,
                } + ")\n"@ + Seq::new(40, |k: int| '─') + "\n"@
            }
        }),
{
    lemma_listed(app.repos, i, id);
    lemma_before_submodule(app.repos.repos[i].status->0.submodules, file_path, s);
    reveal(AppView::emit);
    reveal(AppView::show_diff);
    let after = app.show_diff(id, file_path, generation);
    assert(after.outbox.drop_last() =~= app.outbox);
    assert(crate::app::diff::rule() =~= Seq::new(40, |k: int| '─'));
}

/// No diff is asked for in a repository that is not in the list.
pub proof fn law_no_diff_of_the_unknown(
    app: AppView,
    id: Seq<char>,
    file_path: Seq<char>,
    generation: u64,
)
    requires
        unlisted(app.repos, id),
    ensures
        app.show_diff(id, file_path, generation) == app,
{
    lemma_unlisted(app.repos, id);
    reveal(AppView::show_diff);
}

/// A diff that arrives is shown as it is if it was asked for last, and dropped
/// otherwise.
pub proof fn law_diffs_are_shown_or_dropped(
    app: AppView,
    generation: u64,
    current: u64,
    content: Seq<char>,
)
    ensures
        app.diff_loaded(generation, current, content) == (AppView {
            outbox: if generation == current {
                app.outbox.push(EffectView::SetDiff(content))
            } else {
                app.outbox
            },
            ..app
        }),
{
    reveal(AppView::emit);
    reveal(AppView::diff_loaded);
}

/// The files of a commit, and the diff of one of them, are asked for in the
/// repository of the commit, under the number of the last look at a commit.
pub proof fn law_commits_are_asked_about(
    app: AppView,
    repo_path: Seq<char>,
    oid: Seq<char>,
    file_path: Seq<char>,
)
    ensures
        app.show_commit_files(repo_path, oid) == (AppView {
            outbox: app.outbox.push(
                EffectView::ListCommitFiles {
                    repo_path: repo_path,
                    oid: oid,
                    generation: app.graph.detail_generation,
                },
            ),
            ..app
        }),
        app.show_commit_diff(repo_path, oid, file_path) == (AppView {
            outbox: app.outbox.push(
                EffectView::GetCommitDiff {
                    repo_path: repo_path,
                    oid: oid,
                    file_path: file_path,
                    generation: app.graph.detail_generation,
                },
            ),
            ..app
        }),
{
    reveal(AppView::emit);
    reveal(AppView::show_commit_files);
    reveal(AppView::show_commit_diff);
}

} // verus!
