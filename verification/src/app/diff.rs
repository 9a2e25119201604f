//! The diffs that are shown: of files, of submodules and of commits.
use vstd::prelude::*;
use vstd::string::*;
use vstd::utf8::encode_utf8;
use crate::action::{Action, ActionView};
use crate::app::effect::{Effect, EffectView};
use crate::app::git_ops::push_word;
use crate::app::selection::{find_submodule, submodule_at};
use crate::app::{App, AppView};
use crate::paths::{join, joined};
use crate::status::{RepoId, SubmoduleInfo, SubmoduleInfoView, SubmoduleState};
use crate::text::{byte_len, concat2, cuts_at, first_bytes, take_bytes};

verus! {

/// The first seven bytes of a commit's id, or all of it.
pub open spec fn short_id(oid: Seq<char>) -> Seq<char> {
    if encode_utf8(oid).len() >= 7 {
        first_bytes(oid, 7)
    } else {
        oid
    }
}

/// An id can be cut to seven bytes, where it is that long.
pub open spec fn can_shorten(oid: Seq<char>) -> bool {
    encode_utf8(oid).len() >= 7 ==> cuts_at(oid, 7)
}

/// An optional text, empty where there is none.
pub open spec fn or_empty(text: Option<Seq<char>>) -> Seq<char> {
    match text {
        Some(t) => t,
        None => Seq::empty(),
    }
}

/// The line under a header: forty dashes.
pub open spec fn rule() -> Seq<char> {
    Seq::new(40, |i: int| '─')
}

/// What a submodule's state is called.
pub open spec fn state_label(state: Option<SubmoduleState>) -> Seq<char> {
    match state {
        Some(SubmoduleState::Dirty) => "uncommitted changes"@,
        Some(SubmoduleState::Uninitialized) => "not initialized"@,
        Some(SubmoduleState::Modified) => "modified"@,
        None => "unpushed"@,
    }
}

/// The commit of a submodule differs from the one that is recorded.
pub open spec fn pointer_changed(sub: SubmoduleInfoView) -> bool {
    let recorded = or_empty(sub.head_oid);
    let present = or_empty(sub.workdir_oid);
    recorded.len() > 0 && present.len() > 0 && recorded != present
}

/// What is shown of a submodule: the changes in it, if it has some or its commit
/// is the recorded one; else the commits between the two.
pub open spec fn submodule_effect(
    sub: SubmoduleInfoView,
    dir: Seq<char>,
    path: Seq<char>,
    generation: u64,
) -> EffectView {
    let recorded = or_empty(sub.head_oid);
    let present = or_empty(sub.workdir_oid);
    if sub.state == Some(SubmoduleState::Dirty) || !pointer_changed(sub) {
        EffectView::SubmoduleDiff {
            dir,
            header: "Submodule "@ + path + " ("@ + state_label(sub.state) + ")\n"@ + rule()
                + "\n"@,
            generation,
        }
    } else {
        EffectView::SubmoduleLog {
            dir,
            header: "Submodule "@ + short_id(recorded) + " → "@ + short_id(present) + "\n"@
                + rule() + "\n"@,
            range: recorded + ".."@ + present,
            generation,
        }
    }
}

/// The ids of a submodule can be cut.
pub open spec fn sub_can_shorten(sub: SubmoduleInfoView) -> bool {
    can_shorten(or_empty(sub.head_oid)) && can_shorten(or_empty(sub.workdir_oid))
}

/// What is known of a diff: its text, or that another command has to be asked.
pub enum DiffAnswer {
    Show(String),
    AskAgain,
}

/// What is known of a diff.
#[verifier::ext_equal]
pub enum DiffAnswerView {
    Show(Seq<char>),
    AskAgain,
}

impl DeepView for DiffAnswer {
    type V = DiffAnswerView;

    open spec fn deep_view(&self) -> DiffAnswerView {
        match *self {
            DiffAnswer::Show(text) => DiffAnswerView::Show(text@),
            DiffAnswer::AskAgain => DiffAnswerView::AskAgain,
        }
    }
}

/// A text, or another where it is empty.
pub open spec fn unless_empty(text: Seq<char>, other: Seq<char>) -> Seq<char> {
    if text.len() == 0 {
        other
    } else {
        text
    }
}

/// The arguments for git to show the changes in a submodule.
pub fn args_for_submodule_diff() -> (r: Vec<String>)
    ensures
        r.deep_view() == seq!["diff"@, "HEAD"@],
{
    let mut args: Vec<String> = Vec::new();
    push_word(&mut args, "diff");
    push_word(&mut args, "HEAD");
    assert(args.deep_view() =~= seq!["diff"@, "HEAD"@]);
    args
}

/// The arguments for git to show the status of a submodule.
pub fn args_for_submodule_status() -> (r: Vec<String>)
    ensures
        r.deep_view() == seq!["status"@, "--short"@],
{
    let mut args: Vec<String> = Vec::new();
    push_word(&mut args, "status");
    push_word(&mut args, "--short");
    assert(args.deep_view() =~= seq!["status"@, "--short"@]);
    args
}

/// The arguments for git to show the commits in a range.
pub fn args_for_submodule_log(range: &str) -> (r: Vec<String>)
    ensures
        r.deep_view() == seq!["log"@, "--oneline"@, "--graph"@, range@],
{
    let mut args: Vec<String> = Vec::new();
    push_word(&mut args, "log");
    push_word(&mut args, "--oneline");
    push_word(&mut args, "--graph");
    push_word(&mut args, range);
    assert(args.deep_view() =~= seq!["log"@, "--oneline"@, "--graph"@, range@]);
    args
}

/// The arguments for git to show the changes of a file.
pub fn args_for_file_diff(file: &str) -> (r: Vec<String>)
    ensures
        r.deep_view() == seq!["diff"@, "HEAD"@, "--"@, file@],
{
    let mut args: Vec<String> = Vec::new();
    push_word(&mut args, "diff");
    push_word(&mut args, "HEAD");
    push_word(&mut args, "--");
    push_word(&mut args, file);
    assert(args.deep_view() =~= seq!["diff"@, "HEAD"@, "--"@, file@]);
    args
}

/// The arguments for git to compare a file with nothing.
pub fn args_for_new_file(file: &str) -> (r: Vec<String>)
    ensures
        r.deep_view() == seq!["diff"@, "--no-index"@, "/dev/null"@, file@],
{
    let mut args: Vec<String> = Vec::new();
    push_word(&mut args, "diff");
    push_word(&mut args, "--no-index");
    push_word(&mut args, "/dev/null");
    push_word(&mut args, file);
    assert(args.deep_view() =~= seq!["diff"@, "--no-index"@, "/dev/null"@, file@]);
    args
}

/// What the changes in a submodule are shown as: without any, its status is asked
/// for.
pub fn submodule_diff(header: &str, output: Result<String, String>) -> (r: DiffAnswer)
    ensures
        r.deep_view() == match output {
            Ok(text) => if text@.len() == 0 {
                DiffAnswerView::AskAgain
            } else {
                DiffAnswerView::Show(header@ + text@)
            },
            Err(e) => DiffAnswerView::Show(
                header@ + ("Failed to get submodule diff: "@ + e@),
            ),
        },
{
    match output {
        Ok(text) => if text.as_str().is_empty() {
            DiffAnswer::AskAgain
        } else {
            DiffAnswer::Show(concat2(header, text.as_str()))
        },
        Err(e) => {
            let body = concat2("Failed to get submodule diff: ", e.as_str());
            DiffAnswer::Show(concat2(header, body.as_str()))
        },
    }
}

/// What the status of a submodule is shown as.
pub fn submodule_status(header: &str, output: &str) -> (r: String)
    ensures
        r@ == header@ + unless_empty(output@, "(no changes detected)"@),
{
    if output.is_empty() {
        concat2(header, "(no changes detected)")
    } else {
        concat2(header, output)
    }
}

/// What the commits of a submodule are shown as.
pub fn submodule_log(header: &str, output: Result<String, String>) -> (r: String)
    ensures
        r@ == match output {
            Ok(text) => header@ + unless_empty(text@, "(no commits in range)"@),
            Err(e) => header@ + ("Failed to get submodule log: "@ + e@),
        },
{
    match output {
        Ok(text) => if text.as_str().is_empty() {
            concat2(header, "(no commits in range)")
        } else {
            concat2(header, text.as_str())
        },
        Err(e) => {
            let body = concat2("Failed to get submodule log: ", e.as_str());
            concat2(header, body.as_str())
        },
    }
}

/// What the changes of a file are shown as: without any, it is compared with
/// nothing, for it may be new.
pub fn file_diff(output: Result<String, String>) -> (r: DiffAnswer)
    ensures
        r.deep_view() == match output {
            Ok(text) => if text@.len() == 0 {
                DiffAnswerView::AskAgain
            } else {
                DiffAnswerView::Show(text@)
            },
            Err(e) => DiffAnswerView::Show("Failed to get diff: "@ + e@),
        },
{
    match output {
        Ok(text) => if text.as_str().is_empty() {
            DiffAnswer::AskAgain
        } else {
            DiffAnswer::Show(text)
        },
        Err(e) => DiffAnswer::Show(concat2("Failed to get diff: ", e.as_str())),
    }
}

/// What a file that may be new is shown as.
pub fn new_file_diff(output: String) -> (r: String)
    ensures
        r@ == unless_empty(output@, "(no diff available)"@),
{
    if output.as_str().is_empty() {
        String::from_str("(no diff available)")
    } else {
        output
    }
}

/// Reports the files of a commit, or why there are none.
pub fn commit_files_report(
    generation: u64,
    oid: String,
    listed: Result<(String, Vec<(String, String)>), String>,
) -> (r: Action)
    ensures
        match listed {
            Ok((message, files)) => r == (Action::CommitFilesLoaded {
                generation,
                oid,
                message,
                files,
            }),
            Err(e) => r.deep_view() == ActionView::Error("Failed to list commit files: "@ + e@),
        },
{
    match listed {
        Ok((message, files)) => Action::CommitFilesLoaded { generation, oid, message, files },
        Err(e) => Action::Error(concat2("Failed to list commit files: ", e.as_str())),
    }
}

/// Reports the diff of a commit's file, or why there is none.
pub fn commit_diff_report(generation: u64, found: Result<String, String>) -> (r: Action)
    ensures
        match found {
            Ok(content) => r == (Action::CommitDiffLoaded { generation, content }),
            Err(e) => r.deep_view() == ActionView::Error("Failed to get commit diff: "@ + e@),
        },
{
    match found {
        Ok(content) => Action::CommitDiffLoaded { generation, content },
        Err(e) => Action::Error(concat2("Failed to get commit diff: ", e.as_str())),
    }
}

impl AppView {
    /// Where the diff of a file is taken: in the worktree that is shown, or else
    /// in the repository.
    pub open spec fn diff_dir(self, i: int) -> Seq<char> {
        match self.active_worktree {
            Some(w) => w.path,
            None => self.repos.repos[i].path,
        }
    }

    /// The diff that is asked for, if its submodule's ids can be cut.
    pub open spec fn can_diff(self, id: Seq<char>, file_path: Seq<char>) -> bool {
        self.repos.resolve_index(id) matches Some(i) ==> (submodule_at(
            self.repos.repos[i as int],
            file_path,
        ) matches Some(sub) ==> sub_can_shorten(sub))
    }

    /// The diff of a file, or of a submodule, is asked for.
    #[verifier::opaque]
    pub open spec fn show_diff(
        self,
        id: Seq<char>,
        file_path: Seq<char>,
        generation: u64,
    ) -> AppView {
        match self.repos.resolve_index(id) {
            Some(i) => {
                let entry = self.repos.repos[i as int];
                match submodule_at(entry, file_path) {
                    Some(sub) => self.emit(
                        submodule_effect(
                            sub,
                            joined(entry.path, file_path),
                            file_path,
                            generation,
                        ),
                    ),
                    None => self.emit(
                        EffectView::FileDiff {
                            dir: self.diff_dir(i as int),
                            file: file_path,
                            generation,
                        },
                    ),
                }
            },
            None => self,
        }
    }

    /// A diff arrives; one that was not asked for last is dropped.
    #[verifier::opaque]
    pub open spec fn diff_loaded(
        self,
        generation: u64,
        current: u64,
        content: Seq<char>,
    ) -> AppView {
        if generation == current {
            self.emit(EffectView::SetDiff(content))
        } else {
            self
        }
    }

    /// The files of a commit are asked for, under the present number.
    #[verifier::opaque]
    pub open spec fn show_commit_files(self, repo_path: Seq<char>, oid: Seq<char>) -> AppView {
        self.emit(
            EffectView::ListCommitFiles {
                repo_path,
                oid,
                generation: self.graph.detail_generation,
            },
        )
    }

    /// The diff of a commit's file is asked for, under the present number.
    #[verifier::opaque]
    pub open spec fn show_commit_diff(
        self,
        repo_path: Seq<char>,
        oid: Seq<char>,
        file_path: Seq<char>,
    ) -> AppView {
        self.emit(
            EffectView::GetCommitDiff {
                repo_path,
                oid,
                file_path,
                generation: self.graph.detail_generation,
            },
        )
    }
}

/// An optional text, empty where there is none.
fn text_or_empty(text: &Option<String>) -> (r: String)
    ensures
        r@ == or_empty(text.deep_view()),
{
    match text {
        Some(t) => t.clone(),
        None => {
            let empty = String::new();
            assert(empty@ =~= Seq::<char>::empty());
            empty
        },
    }
}

/// The first seven bytes of an id.
fn shortened(oid: &str) -> (r: String)
    requires
        can_shorten(oid@),
    ensures
        r@ == short_id(oid@),
{
    if byte_len(oid) >= 7 {
        take_bytes(oid, 7)
    } else {
        String::from_str(oid)
    }
}

/// Puts the line under a header.
fn push_rule(out: &mut String)
    ensures
        final(out)@ == old(out)@ + "\n"@ + rule() + "\n"@,
{
    out.append("\n");
    let ghost before = out@;
    let mut i: usize = 0;
    assert(before =~= before + rule().take(0));
    while i < 40
        invariant
            i <= 40,
            out@ =~= before + rule().take(i as int),
        decreases 40 - i,
    {
        out.push('─');
        i = i + 1;
    }
    assert(rule().take(40) =~= rule());
    out.append("\n");
}

/// What a submodule's state is called.
fn label_of(state: Option<SubmoduleState>) -> (r: &'static str)
    ensures
        r@ == state_label(state),
{
    match state {
        Some(SubmoduleState::Dirty) => "uncommitted changes",
        Some(SubmoduleState::Uninitialized) => "not initialized",
        Some(SubmoduleState::Modified) => "modified",
        None => "unpushed",
    }
}

/// What is shown of a submodule.
pub fn plan_submodule(sub: &SubmoduleInfo, dir: String, path: &str, generation: u64) -> (r: Effect)
    requires
        sub_can_shorten(sub.deep_view()),
    ensures
        r.deep_view() == submodule_effect(sub.deep_view(), dir@, path@, generation),
{
    let old_oid = text_or_empty(&sub.head_oid);
    let new_oid = text_or_empty(&sub.workdir_oid);
    let short_old = shortened(old_oid.as_str());
    let short_new = shortened(new_oid.as_str());
    let changed = !old_oid.as_str().is_empty() && !new_oid.as_str().is_empty() && old_oid
        != new_oid;
    let is_dirty = match sub.state {
        Some(SubmoduleState::Dirty) => true,
        _ => false,
    };
    let mut header = String::from_str("Submodule ");
    if is_dirty || !changed {
        header.append(path);
        header.append(" (");
        header.append(label_of(sub.state));
        header.append(")");
        push_rule(&mut header);
        proof {
            reveal_strlit(")\n");
            reveal_strlit(")");
            reveal_strlit("\n");
            assert(")\n"@ =~= ")"@ + "\n"@);
        }
        assert(header@ =~= "Submodule "@ + path@ + " ("@ + state_label(sub.state) + ")\n"@ + rule()
            + "\n"@);
        Effect::SubmoduleDiff { dir, header, generation }
    } else {
        header.append(short_old.as_str());
        header.append(" → ");
        header.append(short_new.as_str());
        push_rule(&mut header);
        let mut range = old_oid;
        range.append("..");
        range.append(new_oid.as_str());
        Effect::SubmoduleLog { dir, header, range, generation }
    }
}

impl App {
    /// Where the diff of a file is taken.
    fn diff_dir(&self, idx: usize) -> (r: String)
        requires
            idx < self@.repos.repos.len(),
        ensures
            r@ == self@.diff_dir(idx as int),
    {
        match &self.active_worktree {
            Some(w) => w.path.clone(),
            None => self.repo_list.entry(idx).path.clone(),
        }
    }

    /// What is to be asked for to show a diff.
    fn plan_diff(&self, idx: usize, file_path: &str, generation: u64) -> (r: Effect)
        requires
            idx < self@.repos.repos.len(),
            submodule_at(self@.repos.repos[idx as int], file_path@) matches Some(sub)
                ==> sub_can_shorten(sub),
        ensures
            r.deep_view() == match submodule_at(self@.repos.repos[idx as int], file_path@) {
                Some(sub) => submodule_effect(
                    sub,
                    joined(self@.repos.repos[idx as int].path, file_path@),
                    file_path@,
                    generation,
                ),
                None => EffectView::FileDiff {
                    dir: self@.diff_dir(idx as int),
                    file: file_path@,
                    generation,
                },
            },
    {
        let entry = self.repo_list.entry(idx);
        if let Some(k) = find_submodule(entry, file_path) {
            if let Some(status) = &entry.status {
                let dir = join(entry.path.as_str(), file_path);
                return plan_submodule(&status.submodules[k], dir, file_path, generation);
            }
        }
        Effect::FileDiff { dir: self.diff_dir(idx), file: String::from_str(file_path), generation }
    }

    /// Asks for the diff of a file or of a submodule.
    pub fn show_diff(&mut self, id: &RepoId, file_path: &str, generation: u64)
        requires
            old(self)@.wf(),
            old(self)@.can_diff(id@, file_path@),
        ensures
            final(self)@ == old(self)@.show_diff(id@, file_path@, generation),
            final(self)@.wf(),
    {
        proof {
            reveal(AppView::show_diff);
        }
        if let Some(idx) = self.repo_list.resolve_index(id) {
            let effect = self.plan_diff(idx, file_path, generation);
            self.emit(effect);
        }
    }

    /// Shows a diff, if it is the one that was asked for last.
    pub fn diff_loaded(&mut self, generation: u64, current: u64, content: String)
        requires
            old(self)@.wf(),
        ensures
            final(self)@ == old(self)@.diff_loaded(generation, current, content@),
            final(self)@.wf(),
    {
        proof {
            reveal(AppView::diff_loaded);
        }
        if generation == current {
            self.emit(Effect::SetDiff(content));
        }
    }

    /// Asks for the files of a commit.
    pub fn show_commit_files(&mut self, repo_path: String, oid: String)
        requires
            old(self)@.wf(),
        ensures
            final(self)@ == old(self)@.show_commit_files(repo_path@, oid@),
            final(self)@.wf(),
    {
        proof {
            reveal(AppView::show_commit_files);
        }
        let generation: u64 = self.git_graph.current_detail_generation();
        self.emit(Effect::ListCommitFiles { repo_path, oid, generation });
    }

    /// Asks for the diff of a commit's file.
    pub fn show_commit_diff(&mut self, repo_path: String, oid: String, file_path: String)
        requires
            old(self)@.wf(),
        ensures
            final(self)@ == old(self)@.show_commit_diff(repo_path@, oid@, file_path@),
            final(self)@.wf(),
    {
        proof {
            reveal(AppView::show_commit_diff);
        }
        let generation: u64 = self.git_graph.current_detail_generation();
        self.emit(Effect::GetCommitDiff { repo_path, oid, file_path, generation });
    }
}

} // verus!
