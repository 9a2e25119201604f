//! Looking at one commit: its files, and the diff of one of them.
use vstd::prelude::*;
use vstd::string::*;
use crate::action::{Action, ActionView};
use crate::git_graph::{CommitDetail, DetailView, GitGraph, GraphView};
use crate::screen::{ListState, Rect};
use crate::text::concat3;

verus! {

impl DetailView {
    /// The detail of a commit as it is opened: the first file is selected.
    pub open spec fn opened(
        oid: Seq<char>,
        message: Seq<char>,
        files: Seq<(Seq<char>, Seq<char>)>,
    ) -> DetailView {
        DetailView {
            oid,
            message,
            files,
            file_state: if files.len() > 0 {
                ListState::initial().selecting(Some(0))
            } else {
                ListState::initial()
            },
            diff_content: None,
            diff_scroll: 0,
            msg_scroll: 0,
            msg_area: Rect::nowhere(),
            file_list_area: Rect::nowhere(),
        }
    }

    /// The path of the selected file, where one is selected.
    pub open spec fn selected_path(self) -> Option<Seq<char>> {
        match self.file_state.selected {
            Some(i) if i < self.files.len() => Some(self.files[i as int].1),
            _ => None,
        }
    }
}

impl GraphView {
    /// The files of a commit arrive.
    pub open spec fn set_commit_files(
        self,
        oid: Seq<char>,
        message: Seq<char>,
        files: Seq<(Seq<char>, Seq<char>)>,
    ) -> GraphView {
        GraphView { detail: Some(DetailView::opened(oid, message, files)), ..self }
    }

    /// The diff of a file arrives; without a commit to look at it is dropped.
    pub open spec fn set_commit_diff(self, content: Seq<char>) -> GraphView {
        match self.detail {
            Some(d) => GraphView {
                detail: Some(DetailView { diff_content: Some(content), diff_scroll: 0, ..d }),
                ..self
            },
            None => self,
        }
    }

    /// Asking for the files of the selected commit, under a new number.
    pub open spec fn try_show_commit_files(self) -> (GraphView, Option<ActionView>) {
        match (self.selected_row(), self.repo_path) {
            (Some(row), Some(repo_path)) => (
                GraphView {
                    detail_generation: (self.detail_generation + 1) as u64,
                    ..self
                },
                Some(ActionView::ShowCommitFiles { repo_path, oid: row.oid.text() }),
            ),
            _ => (self, None),
        }
    }

    /// Asking for the diff of the selected file, under a new number.
    pub open spec fn try_show_commit_diff(self) -> (GraphView, Option<ActionView>) {
        match self.detail {
            Some(d) => match (d.selected_path(), self.repo_path) {
                (Some(file_path), Some(repo_path)) => (
                    GraphView {
                        detail_generation: (self.detail_generation + 1) as u64,
                        ..self
                    },
                    Some(ActionView::ShowCommitDiff { repo_path, oid: d.oid, file_path }),
                ),
                _ => (self, None),
            },
            None => (self, None),
        }
    }

    /// The text that stands for the selection: the path of the selected file, or
    /// else the short id and the message of the selected commit.
    pub open spec fn selected_text(self) -> Option<Seq<char>> {
        match self.detail {
            Some(d) if d.selected_path() is Some => d.selected_path(),
            _ => match self.selected_row() {
                Some(row) => Some(row.short_id + " "@ + row.message),
                None => None,
            },
        }
    }
}

impl GitGraph {
    /// Opens the detail of a commit.
    pub fn set_commit_files(&mut self, oid: String, message: String, files: Vec<(String, String)>)
        requires
            old(self)@.wf(),
        ensures
            final(self)@ == old(self)@.set_commit_files(oid@, message@, files.deep_view()),
            final(self)@.wf(),
    {
        let mut file_state = ListState::new();
        if !files.is_empty() {
            file_state.select(Some(0));
        }
        self.commit_detail =
        Some(
            CommitDetail {
                oid,
                message,
                files,
                file_state,
                diff_content: None,
                diff_scroll: 0,
                msg_scroll: 0,
                msg_area: Rect::empty(),
                file_list_area: Rect::empty(),
            },
        );
    }

    /// Shows the diff of a file.
    pub fn set_commit_diff(&mut self, content: String)
        requires
            old(self)@.wf(),
        ensures
            final(self)@ == old(self)@.set_commit_diff(content@),
            final(self)@.wf(),
    {
        if let Some(detail) = &mut self.commit_detail {
            detail.diff_content = Some(content);
            detail.diff_scroll = 0;
        }
    }

    /// Asks for the files of the selected commit.
    pub fn try_show_commit_files(&mut self) -> (r: Option<Action>)
        requires
            old(self)@.wf(),
            old(self)@.detail_generation < u64::MAX,
        ensures
            (final(self)@, r.deep_view()) == old(self)@.try_show_commit_files(),
            final(self)@.wf(),
    {
        let idx: usize = match self.state.selected {
            Some(i) => i,
            None => return None,
        };
        let rows = self.display_rows();
        if idx >= rows.len() {
            return None;
        }
        assert(rows.deep_view()[idx as int] == rows@[idx as int].deep_view());
        let oid = rows[idx].oid.to_text();
        let repo_path = match &self.repo_path {
            Some(p) => p.clone(),
            None => return None,
        };
        self.detail_generation = self.detail_generation + 1;
        Some(Action::ShowCommitFiles { repo_path, oid })
    }

    /// Asks for the files of the selected commit.
    pub fn open_selected_commit_files(&mut self) -> (r: Option<Action>)
        requires
            old(self)@.wf(),
            old(self)@.detail_generation < u64::MAX,
        ensures
            (final(self)@, r.deep_view()) == old(self)@.try_show_commit_files(),
            final(self)@.wf(),
    {
        self.try_show_commit_files()
    }

    /// Asks for the diff of the selected file.
    pub fn try_show_commit_diff(&mut self) -> (r: Option<Action>)
        requires
            old(self)@.wf(),
            old(self)@.detail_generation < u64::MAX,
        ensures
            (final(self)@, r.deep_view()) == old(self)@.try_show_commit_diff(),
            final(self)@.wf(),
    {
        let detail = match &self.commit_detail {
            Some(d) => d,
            None => return None,
        };
        let file_idx: usize = match detail.file_state.selected {
            Some(i) => i,
            None => return None,
        };
        if file_idx >= detail.files.len() {
            return None;
        }
        assert(detail.files.deep_view()[file_idx as int] == detail.files@[
            file_idx as int
        ].deep_view());
        let file_path = detail.files[file_idx].1.clone();
        let oid = detail.oid.clone();
        let repo_path = match &self.repo_path {
            Some(p) => p.clone(),
            None => return None,
        };
        self.detail_generation = self.detail_generation + 1;
        Some(Action::ShowCommitDiff { repo_path, oid, file_path })
    }

    /// The id, the short id and the message of the selected commit.
    pub fn selected_commit_menu_data(&self) -> (r: Option<(String, String, String)>)
        ensures
            r.deep_view() == match self@.selected_row() {
                Some(row) => Some((row.oid.text(), row.short_id, row.message)),
                None => None,
            },
    {
        let idx: usize = match self.state.selected {
            Some(i) => i,
            None => return None,
        };
        let rows = self.display_rows();
        if idx >= rows.len() {
            return None;
        }
        let row = &rows[idx];
        assert(rows.deep_view()[idx as int] == row.deep_view());
        Some((row.oid.to_text(), row.short_id.clone(), row.message.clone()))
    }

    /// The text that stands for the selection.
    pub fn selected_text(&self) -> (r: Option<String>)
        ensures
            r.deep_view() == self@.selected_text(),
    {
        if let Some(detail) = &self.commit_detail {
            if let Some(idx) = detail.file_state.selected {
                if idx < detail.files.len() {
                    assert(detail.files.deep_view()[idx as int] == detail.files@[
                        idx as int
                    ].deep_view());
                    return Some(detail.files[idx].1.clone());
                }
            }
        }
        let idx: usize = match self.state.selected {
            Some(i) => i,
            None => return None,
        };
        let rows = self.display_rows();
        if idx >= rows.len() {
            return None;
        }
        let row = &rows[idx];
        assert(rows.deep_view()[idx as int] == row.deep_view());
        Some(concat3(row.short_id.as_str(), " ", row.message.as_str()))
    }
}

/// When the files of a commit have arrived, the first of them is selected: asking
/// for a diff asks for that of the first file.
pub proof fn law_first_file_is_asked_for(
    graph: GraphView,
    oid: Seq<char>,
    message: Seq<char>,
    files: Seq<(Seq<char>, Seq<char>)>,
)
    requires
        files.len() > 0,
        graph.repo_path is Some,
    ensures
        graph.set_commit_files(oid, message, files).try_show_commit_diff().1 == Some(
            ActionView::ShowCommitDiff {
                repo_path: graph.repo_path->0,
                oid,
                file_path: files[0].1,
            },
        ),
{
}

} // verus!
