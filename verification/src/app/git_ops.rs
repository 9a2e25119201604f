//! Git operations that the user asks for.
use vstd::prelude::*;
use vstd::string::*;
use vstd::utf8::encode_utf8;
use crate::action::{Action, ActionView, FileChange, SubmoduleOperation, Transfer};
use crate::app::effect::{Effect, EffectView};
use crate::app::tracking::GitOpGuard;
use crate::app::{App, AppView};
use crate::base64::{base64_encode, encoded};
use crate::paths::{file_name, name_of};
use crate::status::RepoId;
use crate::text::{
    begins_with, concat2, concat3, lines, lines_of, same_text, starts_with, trim, trimmed,
};

verus! {

/// The arguments for git to exchange commits with `origin`. The branch is named,
/// where there is one, so that it works without an upstream.
pub open spec fn transfer_args(transfer: Transfer, branch: Seq<char>) -> Seq<Seq<char>> {
    let verb = match transfer {
        Transfer::Push => seq!["push"@],
        Transfer::Pull => seq!["pull"@],
        Transfer::PullRebase => seq!["pull"@, "--rebase"@],
        Transfer::PullSubmodules => seq!["pull"@, "--recurse-submodules"@],
    };
    if branch.len() > 0 && branch != "(no branch)"@ {
        verb.push("origin"@).push(branch)
    } else {
        verb
    }
}

/// The arguments for git to deal with the submodules.
pub open spec fn submodule_args(operation: SubmoduleOperation) -> Seq<Seq<char>> {
    match operation {
        SubmoduleOperation::Update => seq![
            "submodule"@,
            "update"@,
            "--init"@,
            "--recursive"@,
        ],
        SubmoduleOperation::Sync => seq!["submodule"@, "sync"@],
        SubmoduleOperation::UpdateLatest => seq![
            "submodule"@,
            "foreach"@,
            "git"@,
            "pull"@,
            "origin"@,
            "HEAD"@,
        ],
    }
}

/// The arguments for git to change a file; the path stands behind `--`, so that
/// it is never taken for an option.
pub open spec fn change_args(change: FileChange, path: Seq<char>) -> Seq<Seq<char>> {
    let verb = match change {
        FileChange::Stage => seq!["add"@, "-A"@],
        FileChange::Unstage => seq!["reset"@, "-q"@],
        FileChange::DiscardUntracked => seq!["clean"@, "-fdq"@],
        FileChange::DiscardTracked => seq!["restore"@, "--staged"@, "--worktree"@],
    };
    verb.push("--"@).push(path)
}

/// The arguments for git to make a worktree for a new branch.
pub open spec fn add_worktree_args(branch: Seq<char>, path: Seq<char>) -> Seq<Seq<char>> {
    seq!["worktree"@, "add"@, "-b"@, branch, "--"@, path]
}

/// The arguments for git to remove a worktree.
pub open spec fn remove_worktree_args(path: Seq<char>) -> Seq<Seq<char>> {
    seq!["worktree"@, "remove"@, "--"@, path]
}

/// Words with spaces between them.
pub open spec fn spaced(words: Seq<Seq<char>>) -> Seq<char>
    decreases words.len(),
{
    if words.len() == 0 {
        Seq::empty()
    } else if words.len() == 1 {
        words[0]
    } else {
        spaced(words.drop_last()) + " "@ + words.last()
    }
}

/// The first line that is not blank, without the white space around it.
pub open spec fn first_line(all: Seq<Seq<char>>) -> Seq<char>
    decreases all.len(),
{
    if all.len() == 0 {
        trimmed("unknown error"@)
    } else if trimmed(all[0]).len() > 0 {
        trimmed(all[0])
    } else {
        first_line(all.drop_first())
    }
}

/// What became of a git command.
pub enum GitOutcome {
    Succeeded,
    /// It failed, and wrote this to its standard error.
    Failed(String),
    /// It could not be run, for this reason.
    NotRun(String),
}

/// What is reported of a git command for repository `id`.
pub open spec fn git_report_of(
    id: Seq<char>,
    args: Seq<Seq<char>>,
    outcome: GitOutcome,
) -> Seq<ActionView> {
    match outcome {
        GitOutcome::Succeeded => seq![
            ActionView::GitOpComplete { id, message: "git "@ + spaced(args) + " succeeded"@ },
        ],
        GitOutcome::Failed(stderr) => seq![
            ActionView::Error(
                "git "@ + spaced(args) + " failed: "@ + first_line(lines_of(stderr@)),
            ),
            ActionView::RefreshRepo(id),
        ],
        GitOutcome::NotRun(reason) => seq![
            ActionView::Error("git "@ + spaced(args) + " failed: "@ + reason@),
            ActionView::RefreshRepo(id),
        ],
    }
}

/// The question before changes to a file are discarded.
pub open spec fn discard_question(path: Seq<char>, is_untracked: bool) -> Seq<char> {
    let name = match name_of(path) {
        Some(name) => name,
        None => path,
    };
    if is_untracked {
        "Delete untracked '"@ + name + "'? This cannot be undone."@
    } else {
        "Discard changes to '"@ + name + "'? This cannot be undone."@
    }
}

/// The sequence with which a terminal puts a text on the clipboard.
pub open spec fn clipboard_sequence(text: Seq<char>) -> Seq<char> {
    "\x1b]52;c;"@ + encoded(encode_utf8(text)) + "\x1b\\"@
}

impl AppView {
    /// Making a worktree for a new branch. A name that git would take for an
    /// option is refused.
    #[verifier::opaque]
    pub open spec fn create_worktree(
        self,
        repo: Seq<char>,
        branch: Seq<char>,
        new_path: Seq<char>,
    ) -> AppView {
        if begins_with(branch, "-"@) {
            self.emit(
                EffectView::Send(ActionView::Error("branch name cannot start with '-'"@)),
            )
        } else {
            self.emit(EffectView::RepoGitOp { repo, args: add_worktree_args(branch, new_path) })
        }
    }

    /// Asking before the selected worktree is removed.
    #[verifier::opaque]
    pub open spec fn remove_worktree_selected(self) -> AppView {
        match self.repos.selected_worktree() {
            Some((repo, worktree)) => self.emit(
                EffectView::ConfirmRemoveWorktree {
                    repo,
                    worktree_path: worktree.path,
                    branch: worktree.branch,
                },
            ),
            None => self,
        }
    }

    /// Asking before the worktree at a path is removed.
    #[verifier::opaque]
    pub open spec fn remove_worktree_at(self, id: Seq<char>) -> AppView {
        match self.repos.worktree_remove_target(id) {
            Some((repo, worktree_path, branch)) => self.emit(
                EffectView::ConfirmRemoveWorktree { repo, worktree_path, branch },
            ),
            None => self,
        }
    }

    /// Removing a worktree. If it is the one that is shown, it is shown no more.
    #[verifier::opaque]
    pub open spec fn remove_worktree(self, repo: Seq<char>, path: Seq<char>) -> AppView {
        let left = if self.active_worktree matches Some(w) && w.path == path {
            self.leave_worktree()
        } else {
            self
        };
        left.emit(EffectView::RepoGitOp { repo, args: remove_worktree_args(path) })
    }

    /// Asking before changes to a file are discarded.
    #[verifier::opaque]
    pub open spec fn discard_file(
        self,
        id: Seq<char>,
        path: Seq<char>,
        is_untracked: bool,
    ) -> AppView {
        self.emit(
            EffectView::ConfirmDiscard {
                message: discard_question(path, is_untracked),
                id,
                path,
                is_untracked,
            },
        )
    }

    /// Changing a file, if it is known where.
    #[verifier::opaque]
    pub open spec fn change_file(
        self,
        id: Seq<char>,
        path: Seq<char>,
        change: FileChange,
        dir: Option<Seq<char>>,
    ) -> AppView {
        match dir {
            Some(dir) => self.emit(
                EffectView::FileGitOp { dir, id, args: change_args(change, path) },
            ),
            None => self,
        }
    }

    /// Copying the path of a repository or worktree through the terminal.
    #[verifier::opaque]
    pub open spec fn copy_path(self, id: Seq<char>) -> AppView {
        match self.repos.resolve_target(id) {
            Some(target) => self.emit(
                EffectView::WriteTerminal(clipboard_sequence(target.exec_path)),
            ),
            None => self,
        }
    }

    /// Repository `i` shows that an operation runs in it.
    #[verifier::opaque]
    pub open spec fn start_git_op(self, i: int) -> AppView {
        AppView { repos: self.repos.set_git_op(i, true), ..self }
    }

    /// Exchanging commits: git runs where the target is, and the repository it
    /// belongs to shows that it runs.
    #[verifier::opaque]
    pub open spec fn git_transfer(self, id: Seq<char>, transfer: Transfer) -> AppView {
        match self.repos.resolve_target(id) {
            Some(target) => self.start_git_op(target.parent_index as int).emit(
                EffectView::RunGit {
                    dir: target.exec_path,
                    id: self.repos.repos[target.parent_index as int].path,
                    args: transfer_args(transfer, target.branch),
                },
            ),
            None => self,
        }
    }

    /// An operation on the submodules of a repository.
    #[verifier::opaque]
    pub open spec fn git_submodules(
        self,
        id: Seq<char>,
        operation: SubmoduleOperation,
    ) -> AppView {
        match self.repos.resolve_index(id) {
            Some(i) => self.start_git_op(i as int).emit(
                EffectView::RunGit {
                    dir: self.repos.repos[i as int].path,
                    id,
                    args: submodule_args(operation),
                },
            ),
            None => self,
        }
    }

    /// An operation has succeeded: the repository is refreshed, and so is the
    /// worktree that is shown if it belongs to it.
    #[verifier::opaque]
    pub open spec fn git_op_complete(
        self,
        id: Seq<char>,
        message: Seq<char>,
        now: u128,
    ) -> AppView {
        let told = self.with_success(message, now).emit(
            EffectView::Send(ActionView::RefreshRepo(id)),
        );
        if self.active_worktree matches Some(w) && w.repo_id == id {
            told.refresh_active_worktree()
        } else {
            told
        }
    }

    /// Opening a repository or worktree in an editor, or for a review.
    #[verifier::opaque]
    pub open spec fn launch_at(self, id: Seq<char>, review: bool) -> AppView {
        match self.repos.resolve_target(id) {
            Some(target) => self.emit(
                if review {
                    EffectView::LaunchReview(target.exec_path)
                } else {
                    EffectView::LaunchOpen(target.exec_path)
                },
            ),
            None => self,
        }
    }

    /// The menu of a repository or worktree.
    #[verifier::opaque]
    pub open spec fn show_context_menu(
        self,
        id: Seq<char>,
        row: u16,
        col: u16,
        is_worktree: bool,
    ) -> AppView {
        match self.repos.resolve_target(id) {
            Some(target) => self.emit(
                EffectView::ShowMenu {
                    id,
                    col,
                    row,
                    ahead: target.ahead,
                    behind: target.behind,
                    has_submodules: target.has_submodules,
                    is_worktree,
                },
            ),
            None => self,
        }
    }
}

// ---------------------------------------------------------------------------
// Working it out
// ---------------------------------------------------------------------------

/// Puts a word behind some words.
pub(crate) fn push_word(words: &mut Vec<String>, word: &str)
    ensures
        final(words).deep_view() == old(words).deep_view().push(word@),
{
    words.push(String::from_str(word));
    assert(words.deep_view() =~= old(words).deep_view().push(word@));
}

/// The arguments for git to exchange commits.
pub fn args_for_transfer(transfer: Transfer, branch: &str) -> (r: Vec<String>)
    ensures
        r.deep_view() == transfer_args(transfer, branch@),
{
    let mut args: Vec<String> = Vec::new();
    match transfer {
        Transfer::Push => {
            push_word(&mut args, "push");
        },
        Transfer::Pull => {
            push_word(&mut args, "pull");
        },
        Transfer::PullRebase => {
            push_word(&mut args, "pull");
            push_word(&mut args, "--rebase");
        },
        Transfer::PullSubmodules => {
            push_word(&mut args, "pull");
            push_word(&mut args, "--recurse-submodules");
        },
    }
    if !branch.is_empty() && !same_text(branch, "(no branch)") {
        push_word(&mut args, "origin");
        push_word(&mut args, branch);
    }
    assert(args.deep_view() =~= transfer_args(transfer, branch@));
    args
}

/// The arguments for git to deal with the submodules.
pub fn args_for_submodules(operation: SubmoduleOperation) -> (r: Vec<String>)
    ensures
        r.deep_view() == submodule_args(operation),
{
    let mut args: Vec<String> = Vec::new();
    push_word(&mut args, "submodule");
    match operation {
        SubmoduleOperation::Update => {
            push_word(&mut args, "update");
            push_word(&mut args, "--init");
            push_word(&mut args, "--recursive");
        },
        SubmoduleOperation::Sync => {
            push_word(&mut args, "sync");
        },
        SubmoduleOperation::UpdateLatest => {
            push_word(&mut args, "foreach");
            push_word(&mut args, "git");
            push_word(&mut args, "pull");
            push_word(&mut args, "origin");
            push_word(&mut args, "HEAD");
        },
    }
    assert(args.deep_view() =~= submodule_args(operation));
    args
}

/// The arguments for git to change a file.
pub fn args_for_change(change: FileChange, path: &str) -> (r: Vec<String>)
    ensures
        r.deep_view() == change_args(change, path@),
{
    let mut args: Vec<String> = Vec::new();
    match change {
        FileChange::Stage => {
            push_word(&mut args, "add");
            push_word(&mut args, "-A");
        },
        FileChange::Unstage => {
            push_word(&mut args, "reset");
            push_word(&mut args, "-q");
        },
        FileChange::DiscardUntracked => {
            push_word(&mut args, "clean");
            push_word(&mut args, "-fdq");
        },
        FileChange::DiscardTracked => {
            push_word(&mut args, "restore");
            push_word(&mut args, "--staged");
            push_word(&mut args, "--worktree");
        },
    }
    push_word(&mut args, "--");
    push_word(&mut args, path);
    assert(args.deep_view() =~= change_args(change, path@));
    args
}

fn args_for_add_worktree(branch: &str, path: &str) -> (r: Vec<String>)
    ensures
        r.deep_view() == add_worktree_args(branch@, path@),
{
    let mut args: Vec<String> = Vec::new();
    push_word(&mut args, "worktree");
    push_word(&mut args, "add");
    push_word(&mut args, "-b");
    push_word(&mut args, branch);
    push_word(&mut args, "--");
    push_word(&mut args, path);
    assert(args.deep_view() =~= add_worktree_args(branch@, path@));
    args
}

fn args_for_remove_worktree(path: &str) -> (r: Vec<String>)
    ensures
        r.deep_view() == remove_worktree_args(path@),
{
    let mut args: Vec<String> = Vec::new();
    push_word(&mut args, "worktree");
    push_word(&mut args, "remove");
    push_word(&mut args, "--");
    push_word(&mut args, path);
    assert(args.deep_view() =~= remove_worktree_args(path@));
    args
}

/// Words with spaces between them.
fn join_words(words: &Vec<String>) -> (r: String)
    ensures
        r@ == spaced(words.deep_view()),
{
    let ghost all = words.deep_view();
    let mut out = String::new();
    let mut i: usize = 0;
    assert(all.take(0) =~= Seq::<Seq<char>>::empty());
    assert(out@ =~= spaced(all.take(0)));
    while i < words.len()
        invariant
            i <= words@.len(),
            all == words.deep_view(),
            out@ == spaced(all.take(i as int)),
        decreases words@.len() - i,
    {
        let ghost more = all.take(i + 1);
        assert(more.drop_last() =~= all.take(i as int));
        assert(more.last() == words@[i as int]@);
        if i > 0 {
            out.append(" ");
        }
        out.append(words[i].as_str());
        assert(out@ =~= spaced(more)) by {
            if i == 0 {
                assert(more.len() == 1);
                assert(more[0] == words@[0]@);
            }
        }
        i = i + 1;
    }
    assert(all.take(all.len() as int) =~= all);
    out
}

/// The first line that is not blank.
fn first_nonblank_line(text: &str) -> (r: String)
    ensures
        r@ == first_line(lines_of(text@)),
{
    let all = lines(text);
    let ghost view = all.deep_view();
    let mut i: usize = 0;
    assert(view.skip(0) =~= view);
    while i < all.len()
        invariant
            i <= all@.len(),
            view == all.deep_view(),
            view == lines_of(text@),
            first_line(view) == first_line(view.skip(i as int)),
        decreases all@.len() - i,
    {
        assert(view.skip(i as int)[0] == all@[i as int]@);
        assert(view.skip(i as int).drop_first() =~= view.skip(i + 1));
        let line = trim(all[i].as_str());
        if !line.as_str().is_empty() {
            return line;
        }
        i = i + 1;
    }
    trim("unknown error")
}

/// Reports what became of a git command, and completes its guard.
pub fn git_report(guard: &mut GitOpGuard, args: &Vec<String>, outcome: GitOutcome) -> (r: Vec<
    Action,
>)
    ensures
        final(guard).completed,
        final(guard).id == old(guard).id,
        r.deep_view() == git_report_of(old(guard).id@, args.deep_view(), outcome),
{
    guard.complete();
    let mut out: Vec<Action> = Vec::new();
    let command = concat2("git ", join_words(args).as_str());
    let ghost want = git_report_of(guard.id@, args.deep_view(), outcome);
    match outcome {
        GitOutcome::Succeeded => {
            let message = concat2(command.as_str(), " succeeded");
            out.push(Action::GitOpComplete { id: guard.id.clone(), message });
            assert(out.deep_view() =~= want);
        },
        GitOutcome::Failed(stderr) => {
            let line = first_nonblank_line(stderr.as_str());
            out.push(Action::Error(concat3(command.as_str(), " failed: ", line.as_str())));
            out.push(Action::RefreshRepo(guard.id.clone()));
            assert(out.deep_view() =~= want);
        },
        GitOutcome::NotRun(reason) => {
            out.push(Action::Error(concat3(command.as_str(), " failed: ", reason.as_str())));
            out.push(Action::RefreshRepo(guard.id.clone()));
            assert(out.deep_view() =~= want);
        },
    }
    out
}

impl App {
    /// Makes a worktree for a new branch.
    pub fn create_worktree(&mut self, repo: String, branch: &str, new_path: &str)
        requires
            old(self)@.wf(),
        ensures
            final(self)@ == old(self)@.create_worktree(repo@, branch@, new_path@),
            final(self)@.wf(),
    {
        proof {
            reveal(AppView::create_worktree);
        }
        if starts_with(branch, "-") {
            let message = String::from_str("branch name cannot start with '-'");
            self.emit(Effect::Send(Action::Error(message)));
        } else {
            let args = args_for_add_worktree(branch, new_path);
            self.emit(Effect::RepoGitOp { repo, args });
        }
    }

    /// Asks before the selected worktree is removed.
    pub fn remove_worktree_selected(&mut self)
        requires
            old(self)@.wf(),
        ensures
            final(self)@ == old(self)@.remove_worktree_selected(),
            final(self)@.wf(),
    {
        proof {
            reveal(AppView::remove_worktree_selected);
        }
        let selected = match self.repo_list.selected_worktree() {
            Some((id, worktree)) => Some((id.0, worktree.path.clone(), worktree.branch.clone())),
            None => None,
        };
        if let Some((repo, worktree_path, branch)) = selected {
            self.emit(Effect::ConfirmRemoveWorktree { repo, worktree_path, branch });
        }
    }

    /// Asks before the worktree at a path is removed.
    pub fn remove_worktree_at(&mut self, id: &RepoId)
        requires
            old(self)@.wf(),
        ensures
            final(self)@ == old(self)@.remove_worktree_at(id@),
            final(self)@.wf(),
    {
        proof {
            reveal(AppView::remove_worktree_at);
        }
        if let Some((repo, worktree_path, branch)) = self.repo_list.worktree_remove_target(id) {
            self.emit(Effect::ConfirmRemoveWorktree { repo, worktree_path, branch });
        }
    }

    /// Removes a worktree.
    pub fn remove_worktree(&mut self, repo: String, path: &str)
        requires
            old(self)@.wf(),
        ensures
            final(self)@ == old(self)@.remove_worktree(repo@, path@),
            final(self)@.wf(),
    {
        proof {
            reveal(AppView::remove_worktree);
        }
        let is_shown = match &self.active_worktree {
            Some(w) => same_text(w.path.as_str(), path),
            None => false,
        };
        if is_shown {
            self.leave_worktree();
        }
        let args = args_for_remove_worktree(path);
        self.emit(Effect::RepoGitOp { repo, args });
    }

    /// Asks before changes to a file are discarded.
    pub fn discard_file(&mut self, id: RepoId, path: String, is_untracked: bool)
        requires
            old(self)@.wf(),
        ensures
            final(self)@ == old(self)@.discard_file(id@, path@, is_untracked),
            final(self)@.wf(),
    {
        proof {
            reveal(AppView::discard_file);
        }
        let name = match file_name(path.as_str()) {
            Some(name) => name,
            None => path.clone(),
        };
        let question = if is_untracked {
            "Delete untracked '"
        } else {
            "Discard changes to '"
        };
        let message = concat3(question, name.as_str(), "'? This cannot be undone.");
        self.emit(Effect::ConfirmDiscard { message, id, path, is_untracked });
    }

    /// Changes a file.
    pub fn change_file(
        &mut self,
        id: RepoId,
        path: &str,
        change: FileChange,
        dir: Option<String>,
    )
        requires
            old(self)@.wf(),
        ensures
            final(self)@ == old(self)@.change_file(id@, path@, change, dir.deep_view()),
            final(self)@.wf(),
    {
        proof {
            reveal(AppView::change_file);
        }
        if let Some(dir) = dir {
            let args = args_for_change(change, path);
            self.emit(Effect::FileGitOp { dir, id, args });
        }
    }

    /// Copies the path of a repository or worktree through the terminal.
    pub fn copy_path(&mut self, id: &RepoId)
        requires
            old(self)@.wf(),
        ensures
            final(self)@ == old(self)@.copy_path(id@),
            final(self)@.wf(),
    {
        proof {
            reveal(AppView::copy_path);
        }
        if let Some(target) = self.repo_list.resolve_target(id) {
            let text = base64_encode(target.exec_path.as_str().as_bytes());
            let sequence = concat3("\x1b]52;c;", text.as_str(), "\x1b\\");
            self.emit(Effect::WriteTerminal(sequence));
        }
    }

    /// Shows that an operation runs in a repository.
    fn start_git_op(&mut self, idx: usize)
        requires
            old(self)@.wf(),
            idx < old(self)@.repos.repos.len(),
        ensures
            final(self)@ == old(self)@.start_git_op(idx as int),
            final(self)@.wf(),
    {
        proof {
            reveal(AppView::start_git_op);
        }
        self.repo_list.set_git_op(idx, true);
    }

    /// Exchanges commits.
    pub fn git_transfer(&mut self, id: &RepoId, transfer: Transfer)
        requires
            old(self)@.wf(),
        ensures
            final(self)@ == old(self)@.git_transfer(id@, transfer),
            final(self)@.wf(),
    {
        proof {
            reveal(AppView::git_transfer);
        }
        if let Some(target) = self.repo_list.resolve_target(id) {
            let args = args_for_transfer(transfer, target.branch.as_str());
            let parent = RepoId(self.repo_list.entry(target.parent_index).path.clone());
            self.start_git_op(target.parent_index);
            self.emit(Effect::RunGit { dir: target.exec_path, id: parent, args });
        }
    }

    /// Starts an operation on the submodules of a repository.
    pub fn git_submodules(&mut self, id: &RepoId, operation: SubmoduleOperation)
        requires
            old(self)@.wf(),
        ensures
            final(self)@ == old(self)@.git_submodules(id@, operation),
            final(self)@.wf(),
    {
        proof {
            reveal(AppView::git_submodules);
        }
        if let Some(idx) = self.repo_list.resolve_index(id) {
            let args = args_for_submodules(operation);
            let dir = self.repo_list.entry(idx).path.clone();
            self.start_git_op(idx);
            self.emit(Effect::RunGit { dir, id: id.clone(), args });
        }
    }

    /// Handles the success of an operation.
    pub fn git_op_complete(&mut self, id: &RepoId, message: String, now: u128)
        requires
            old(self)@.wf(),
        ensures
            final(self)@ == old(self)@.git_op_complete(id@, message@, now),
            final(self)@.wf(),
    {
        proof {
            reveal(AppView::git_op_complete);
        }
        self.show_success(message, now);
        self.emit(Effect::Send(Action::RefreshRepo(id.clone())));
        let is_shown = match &self.active_worktree {
            Some(w) => w.repo_id.0 == id.0,
            None => false,
        };
        if is_shown {
            self.refresh_active_worktree();
        }
    }

    /// Opens a repository or worktree in an editor, or for a review.
    pub fn launch_at(&mut self, id: &RepoId, review: bool)
        requires
            old(self)@.wf(),
        ensures
            final(self)@ == old(self)@.launch_at(id@, review),
            final(self)@.wf(),
    {
        proof {
            reveal(AppView::launch_at);
        }
        if let Some(target) = self.repo_list.resolve_target(id) {
            if review {
                self.emit(Effect::LaunchReview(target.exec_path));
            } else {
                self.emit(Effect::LaunchOpen(target.exec_path));
            }
        }
    }

    /// Shows the menu of a repository or worktree.
    pub fn show_context_menu(&mut self, id: RepoId, row: u16, col: u16, is_worktree: bool)
        requires
            old(self)@.wf(),
        ensures
            final(self)@ == old(self)@.show_context_menu(id@, row, col, is_worktree),
            final(self)@.wf(),
    {
        proof {
            reveal(AppView::show_context_menu);
        }
        if let Some(target) = self.repo_list.resolve_target(&id) {
            self.emit(
                Effect::ShowMenu {
                    id,
                    col,
                    row,
                    ahead: target.ahead,
                    behind: target.behind,
                    has_submodules: target.has_submodules,
                    is_worktree,
                },
            );
        }
    }
}

// ---------------------------------------------------------------------------
// Laws
// ---------------------------------------------------------------------------

/// A path that git is given stands behind `--`, so that git never takes it for
/// an option, whatever it begins with.
pub proof fn law_paths_are_no_options(
    change: FileChange,
    branch: Seq<char>,
    path: Seq<char>,
)
    ensures
        change_args(change, path).last() == path,
        change_args(change, path)[change_args(change, path).len() - 2] == "--"@,
        add_worktree_args(branch, path).last() == path,
        add_worktree_args(branch, path)[4] == "--"@,
        remove_worktree_args(path).last() == path,
        remove_worktree_args(path)[2] == "--"@,
{
}

/// What a git command leads to always refreshes its repository, so that the sign
/// of a running operation goes: a failure asks for it at once, and a success when
/// it is handled.
pub proof fn law_operations_end_in_a_refresh(
    app: AppView,
    id: Seq<char>,
    args: Seq<Seq<char>>,
    outcome: GitOutcome,
    message: Seq<char>,
    now: u128,
)
    ensures
        outcome is Succeeded <==> git_report_of(id, args, outcome).len() == 1,
        !(outcome is Succeeded) ==> git_report_of(id, args, outcome).contains(
            ActionView::RefreshRepo(id),
        ),
        app.git_op_complete(id, message, now).outbox.contains(
            EffectView::Send(ActionView::RefreshRepo(id)),
        ),
{
    reveal(AppView::with_success);
    reveal(AppView::refresh_active_worktree);
    reveal(AppView::emit);
    reveal(AppView::git_op_complete);
    let report = git_report_of(id, args, outcome);
    if !(outcome is Succeeded) {
        assert(report[1] == ActionView::RefreshRepo(id));
    }
    let told = app.with_success(message, now).emit(EffectView::Send(ActionView::RefreshRepo(id)));
    let n = app.outbox.len() as int;
    assert(told.outbox[n] == EffectView::Send(ActionView::RefreshRepo(id)));
    assert(app.git_op_complete(id, message, now).outbox[n] == told.outbox[n]);
}

} // verus!
