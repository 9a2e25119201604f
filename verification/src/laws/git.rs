//! Git operations: where git runs, with which words, and what is reported.
use vstd::prelude::*;
use vstd::string::*;

use crate::action::{ActionView, FileChange, SubmoduleOperation, Transfer};
use crate::app::AppView;
use crate::app::effect::EffectView;
use crate::app::git_ops::{git_report_of, GitOutcome};
use crate::laws::{
    lemma_listed, lemma_nowhere, lemma_unlisted, lemma_worktree, listed_at, nowhere, row_selected,
    unlisted, worktree_at,
};
use crate::paths::parts;
use crate::repo_list::{DisplayRow, RepoEntryView, RepoListView};

verus! {

/// The words that tell git which way commits go.
pub open spec fn transfer_words(transfer: Transfer) -> Seq<Seq<char>> {
    match transfer {
        Transfer::Push => seq!["push"@],
        Transfer::Pull => seq!["pull"@],
        Transfer::PullRebase => seq!["pull"@, "--rebase"@],
        Transfer::PullSubmodules => seq!["pull"@, "--recurse-submodules"@],
    }
}

/// The words behind them for a branch: where it is taken from, unless there is none.
pub open spec fn branch_words(branch: Seq<char>) -> Seq<Seq<char>> {
    if branch == ""@ || branch == "(no branch)"@ {
        Seq::empty()
    } else {
        seq!["origin"@, branch]
    }
}

/// Beside the effects, only the sign of a running operation in the row of
/// repository `i` differs, and it is there.
pub open spec fn only_marked(before: AppView, after: AppView, i: int) -> bool {
    after == AppView {
        repos: RepoListView {
            repos: before.repos.repos.update(
                i,
                RepoEntryView { git_op: true, ..before.repos.repos[i] },
            ),
            ..before.repos
        },
        outbox: after.outbox,
        ..before
    }
}

/// Pushing or pulling a repository runs git in its own directory, for its own
/// branch.
pub proof fn law_transfer_runs_in_the_repository(
    app: AppView,
    id: Seq<char>,
    transfer: Transfer,
    i: int,
)
    requires
        listed_at(app.repos, i, id),
    ensures
        ({
            let after = app.git_transfer(id, transfer);
            let branch = match app.repos.repos[i].status {
                Some(status) => status.branch,
                None => ""@,
            };
            &&& after.outbox == app.outbox.push(
                EffectView::RunGit {
                    dir: id,
                    id: id,
                    args: transfer_words(transfer) + branch_words(branch),
                },
            )
            &&& only_marked(app, after, i)
        }),
{
    lemma_listed(app.repos, i, id);
    reveal(AppView::emit);
    reveal(AppView::start_git_op);
    reveal(AppView::git_transfer);
    reveal_strlit("");
    let after = app.git_transfer(id, transfer);
    let branch = match app.repos.repos[i].status {
        Some(status) => status.branch,
        None => ""@,
    };
    if branch.len() == 0 {
        assert(branch =~= ""@);
    }
    assert(after.outbox.last()->RunGit_args =~= transfer_words(transfer) + branch_words(branch));
}

/// Pushing or pulling a worktree runs git in the worktree's own directory, for the
/// worktree's own branch; the repository that it belongs to shows that it runs, and
/// is the one that is refreshed.
pub proof fn law_transfer_runs_in_the_worktree(
    app: AppView,
    id: Seq<char>,
    transfer: Transfer,
    i: int,
    w: int,
)
    requires
        worktree_at(app.repos, i, w, id),
    ensures
        ({
            let after = app.git_transfer(id, transfer);
            &&& after.outbox == app.outbox.push(
                EffectView::RunGit {
                    dir: id,
                    id: app.repos.repos[i].path,
                    args: transfer_words(transfer) + branch_words(
                        app.repos.repos[i].status->0.worktree_info[w].branch,
                    ),
                },
            )
            &&& only_marked(app, after, i)
        }),
{
    lemma_worktree(app.repos, i, w, id);
    reveal(AppView::emit);
    reveal(AppView::start_git_op);
    reveal(AppView::git_transfer);
    reveal_strlit("");
    let after = app.git_transfer(id, transfer);
    let branch = app.repos.repos[i].status->0.worktree_info[w].branch;
    if branch.len() == 0 {
        assert(branch =~= ""@);
    }
    assert(after.outbox.last()->RunGit_args =~= transfer_words(transfer) + branch_words(branch));
}

/// Nothing is done for a path at which nothing lies.
pub proof fn law_nothing_runs_nowhere(
    app: AppView,
    id: Seq<char>,
    transfer: Transfer,
    row: u16,
    col: u16,
    is_worktree: bool,
)
    requires
        nowhere(app.repos, id),
    ensures
        app.git_transfer(id, transfer) == app,
        app.copy_path(id) == app,
        app.launch_at(id, false) == app,
        app.launch_at(id, true) == app,
        app.remove_worktree_at(id) == app,
        app.show_context_menu(id, row, col, is_worktree) == app,
{
    lemma_nowhere(app.repos, id);
    reveal(AppView::git_transfer);
    reveal(AppView::copy_path);
    reveal(AppView::launch_at);
    reveal(AppView::remove_worktree_at);
    reveal(AppView::show_context_menu);
}

/// The submodules of a repository are updated, set anew or brought to the latest
/// commits where the repository lies.
pub proof fn law_submodules_are_dealt_with(
    app: AppView,
    id: Seq<char>,
    operation: SubmoduleOperation,
    i: int,
)
    ensures
        listed_at(app.repos, i, id) ==> {
            let after = app.git_submodules(id, operation);
            &&& after.outbox == app.outbox.push(
                EffectView::RunGit {
                    dir: id,
                    id: id,
                    args: match operation {
                        SubmoduleOperation::Update => seq![
                            "submodule"@,
                            "update"@,
                            "--init"@,
                            "--recursive"@,
                        ],
                        SubmoduleOperation::Sync => seq!["submodule"@, "sync"@],
                        SubmoduleOperation::UpdateLatest => seq![
                            "submodule"@,
                            "foreach"@,
                            "git"@,
                            "pull"@,
                            "origin"@,
                            "HEAD"@,
                        ],
                    },
                },
            )
            &&& only_marked(app, after, i)
        },
        unlisted(app.repos, id) ==> app.git_submodules(id, operation) == app,
{
    reveal(AppView::emit);
    reveal(AppView::start_git_op);
    reveal(AppView::git_submodules);
    if listed_at(app.repos, i, id) {
        lemma_listed(app.repos, i, id);
    }
    if unlisted(app.repos, id) {
        lemma_unlisted(app.repos, id);
    }
}

/// A file is staged, unstaged or discarded where it lies; a change without a known
/// place does nothing. Every path stands behind `--`.
pub proof fn law_files_are_changed_in_place(
    app: AppView,
    id: Seq<char>,
    path: Seq<char>,
    change: FileChange,
    dir: Seq<char>,
)
    ensures
        app.change_file(id, path, change, Some(dir))
            == (AppView {
            outbox: app.outbox.push(
                EffectView::FileGitOp {
                    dir: dir,
                    id: id,
                    args: match change {
                        FileChange::Stage => seq!["add"@, "-A"@, "--"@, path],
                        FileChange::Unstage => seq!["reset"@, "-q"@, "--"@, path],
                        FileChange::DiscardUntracked => seq!["clean"@, "-fdq"@, "--"@, path],
                        FileChange::DiscardTracked => seq![
                            "restore"@,
                            "--staged"@,
                            "--worktree"@,
                            "--"@,
                            path,
                        ],
                    },
                },
            ),
            ..app
        }),
        app.change_file(id, path, change, None) == app,
{
    reveal(AppView::emit);
    reveal(AppView::change_file);
    let after = app.change_file(id, path, change, Some(dir));
    assert(after.outbox.last()->FileGitOp_args =~= match change {
        FileChange::Stage => seq!["add"@, "-A"@, "--"@, path],
        FileChange::Unstage => seq!["reset"@, "-q"@, "--"@, path],
        FileChange::DiscardUntracked => seq!["clean"@, "-fdq"@, "--"@, path],
        FileChange::DiscardTracked => seq![
            "restore"@,
            "--staged"@,
            "--worktree"@,
            "--"@,
            path,
        ],
    });
}

/// Discarding is asked about before it is done: the question names the file, and
/// says which of the two kinds of discarding it is.
pub proof fn law_discarding_is_asked_about(
    app: AppView,
    id: Seq<char>,
    path: Seq<char>,
    is_untracked: bool,
)
    ensures
        ({
            let names = parts(path);
            let name = if names.len() == 0 || names.last() == "."@ || names.last() == ".."@ {
                path
            } else {
                names.last()
            };
            app.discard_file(id, path, is_untracked) == AppView {
                outbox: app.outbox.push(
                    EffectView::ConfirmDiscard {
                        message: if is_untracked {
                            "Delete untracked '"@ + name + "'? This cannot be undone."@
                        } else {
                            "Discard changes to '"@ + name + "'? This cannot be undone."@
                        },
                        id: id,
                        path: path,
                        is_untracked,
                    },
                ),
                ..app
            }
        }),
{
    reveal(AppView::emit);
    reveal(AppView::discard_file);
}

/// A worktree is made for a new branch, at the path it is given; a name that git
/// would take for an option is refused with an error, and nothing is run.
pub proof fn law_worktrees_are_made(
    app: AppView,
    repo: Seq<char>,
    branch: Seq<char>,
    new_path: Seq<char>,
)
    ensures
        app.create_worktree(repo, branch, new_path) == (AppView {
            outbox: app.outbox.push(
                if branch.len() > 0 && branch[0] == '-' {
                    EffectView::Send(ActionView::Error("branch name cannot start with '-'"@))
                } else {
                    EffectView::RepoGitOp {
                        repo: repo,
                        args: seq!["worktree"@, "add"@, "-b"@, branch, "--"@, new_path],
                    }
                },
            ),
            ..app
        }),
{
    reveal(AppView::emit);
    reveal(AppView::create_worktree);
    reveal_strlit("-");
    if branch.len() > 0 && branch[0] == '-' {
        assert(branch.take(1) =~= "-"@);
    }
    if crate::text::begins_with(branch, "-"@) {
        assert(branch.take(1)[0] == "-"@[0]);
    }
}

/// A worktree is removed from its repository, and is shown no more if it was; any
/// other that is shown stays.
pub proof fn law_worktrees_are_removed(
    app: AppView,
    repo: Seq<char>,
    worktree_path: Seq<char>,
)
    ensures
        app.remove_worktree(repo, worktree_path) == (AppView {
            outbox: app.outbox.push(
                EffectView::RepoGitOp {
                    repo: repo,
                    args: seq!["worktree"@, "remove"@, "--"@, worktree_path],
                },
            ),
            active_worktree: if app.active_worktree is Some && app.active_worktree->0.path
                == worktree_path {
                None
            } else {
                app.active_worktree
            },
            ..app
        }),
{
    reveal(AppView::emit);
    reveal(AppView::leave_worktree);
    reveal(AppView::remove_worktree);
}

/// Before a worktree is removed the user is asked about that very worktree: the one
/// at the path, or the one whose row is selected.
pub proof fn law_removal_is_asked_about(app: AppView, id: Seq<char>, i: int, w: int)
    ensures
        worktree_at(app.repos, i, w, id) ==> app.remove_worktree_at(id)
            == (AppView {
            outbox: app.outbox.push(
                EffectView::ConfirmRemoveWorktree {
                    repo: app.repos.repos[i].path,
                    worktree_path: id,
                    branch: app.repos.repos[i].status->0.worktree_info[w].branch,
                },
            ),
            ..app
        }),
        row_selected(app.repos) matches Some(DisplayRow::Worktree(r, v)) ==> app.repos.repos[r as int].status
            is Some ==> app.remove_worktree_selected() == (AppView {
            outbox: app.outbox.push(
                EffectView::ConfirmRemoveWorktree {
                    repo: app.repos.repos[r as int].path,
                    worktree_path:
                        app.repos.repos[r as int].status->0.worktree_info[v as int].path,
                    branch: app.repos.repos[r as int].status->0.worktree_info[v as int].branch,
                },
            ),
            ..app
        }),
        !(row_selected(app.repos) is Some && row_selected(app.repos)->0 is Worktree)
            ==> app.remove_worktree_selected() == app,
{
    reveal(AppView::emit);
    reveal(AppView::remove_worktree_at);
    reveal(AppView::remove_worktree_selected);
    if worktree_at(app.repos, i, w, id) {
        lemma_worktree(app.repos, i, w, id);
    }
}

/// A path is copied through the terminal, and a place is opened or reviewed, where
/// it lies: a repository's at its own path, a worktree's at its own.
pub proof fn law_places_are_opened_where_they_lie(
    app: AppView,
    id: Seq<char>,
    i: int,
    w: int,
)
    requires
        listed_at(app.repos, i, id) || worktree_at(app.repos, i, w, id),
    ensures
        app.copy_path(id) == (AppView {
            outbox: app.outbox.push(
                EffectView::WriteTerminal(
                    "\x1b]52;c;"@ + crate::base64::encoded(vstd::utf8::encode_utf8(id))
                        + "\x1b\\"@,
                ),
            ),
            ..app
        }),
        app.launch_at(id, false) == (AppView {
            outbox: app.outbox.push(EffectView::LaunchOpen(id)),
            ..app
        }),
        app.launch_at(id, true) == (AppView {
            outbox: app.outbox.push(EffectView::LaunchReview(id)),
            ..app
        }),
{
    reveal(AppView::emit);
    reveal(AppView::copy_path);
    reveal(AppView::launch_at);
    if listed_at(app.repos, i, id) {
        lemma_listed(app.repos, i, id);
    } else {
        lemma_worktree(app.repos, i, w, id);
    }
}

/// The menu of a place says how far that very place is ahead and behind: a
/// repository by its own state, a worktree by its own; only a repository has
/// submodules.
pub proof fn law_menu_is_of_the_place(
    app: AppView,
    id: Seq<char>,
    row: u16,
    col: u16,
    is_worktree: bool,
    i: int,
    w: int,
)
    ensures
        worktree_at(app.repos, i, w, id) ==> app.show_context_menu(id, row, col, is_worktree) == (AppView {
            outbox: app.outbox.push(
                EffectView::ShowMenu {
                    id: id,
                    col,
                    row,
                    ahead: app.repos.repos[i].status->0.worktree_info[w].ahead,
                    behind: app.repos.repos[i].status->0.worktree_info[w].behind,
                    has_submodules: false,
                    is_worktree,
                },
            ),
            ..app
        }),
        listed_at(app.repos, i, id) ==> app.show_context_menu(id, row, col, is_worktree) == (AppView {
            outbox: app.outbox.push(
                match app.repos.repos[i].status {
                    Some(status) => EffectView::ShowMenu {
                        id: id,
                        col,
                        row,
                        ahead: status.ahead,
                        behind: status.behind,
                        has_submodules: status.has_submodules,
                        is_worktree,
                    },
                    None => EffectView::ShowMenu {
                        id: id,
                        col,
                        row,
                        ahead: 0,
                        behind: 0,
                        has_submodules: false,
                        is_worktree,
                    },
                },
            ),
            ..app
        }),
{
    reveal(AppView::emit);
    reveal(AppView::show_context_menu);
    if worktree_at(app.repos, i, w, id) {
        lemma_worktree(app.repos, i, w, id);
    }
    if listed_at(app.repos, i, id) {
        lemma_listed(app.repos, i, id);
    }
}

/// When a git command has succeeded, the user is told, its repository is refreshed,
/// and so is the worktree or submodule that is shown, if it belongs to that
/// repository.
pub proof fn law_success_is_told_and_refreshed(
    app: AppView,
    id: Seq<char>,
    message: Seq<char>,
    now: u128,
)
    ensures
        ({
            let after = app.git_op_complete(id, message, now);
            let refresh = EffectView::Send(ActionView::RefreshRepo(id));
            &&& after.success_message is Some
            &&& after.success_message->0.text == message
            &&& after.success_message->0.at == now
            &&& after.error_message == app.error_message
            &&& after.outbox == match app.active_worktree {
                Some(shown) if shown.repo_id == id => app.outbox.push(refresh).push(
                    EffectView::RefreshPathContext {
                        path: shown.path,
                        repo_id: id,
                        display_name: shown.display_name,
                    },
                ),
                _ => app.outbox.push(refresh),
            }
            &&& after.repos == app.repos
            &&& after.graph == app.graph
        }),
{
    reveal(AppView::emit);
    reveal(AppView::with_success);
    reveal(AppView::refresh_active_worktree);
    reveal(AppView::git_op_complete);
}

/// A git command reports its outcome for its repository: a success in one message,
/// a failure as an error and a refresh.
pub proof fn law_outcomes_are_reported(
    id: Seq<char>,
    args: Seq<Seq<char>>,
    word: Seq<char>,
    reason: String,
)
    ensures
        git_report_of(id, args, GitOutcome::NotRun(reason)).len() == 2,
        git_report_of(id, args, GitOutcome::Failed(reason)).len() == 2,
        git_report_of(id, args, GitOutcome::NotRun(reason))[1] == ActionView::RefreshRepo(id),
        git_report_of(id, args, GitOutcome::Failed(reason))[1] == ActionView::RefreshRepo(id),
        git_report_of(id, seq![word], GitOutcome::Succeeded) == seq![
            ActionView::GitOpComplete { id, message: "git "@ + word + " succeeded"@ },
        ],
        git_report_of(id, seq![word], GitOutcome::NotRun(reason))[0] == ActionView::Error(
            "git "@ + word + " failed: "@ + reason@,
        ),
{
}

} // verus!
