//! Keys and mouse on the list of repositories.
use vstd::prelude::*;
use vstd::string::*;
use crate::action::{Action, ActionView};
use crate::repo_list::label::{ellipsized, name_room, rendered_name};
use crate::repo_list::render::{columns_of, indicator_columns, inner_width};
use crate::repo_list::{
    repo_of_row, row_fits, stash_count, worktrees, DisplayRow, RepoList, RepoListView,
};
use crate::screen::{Key, Mouse, MouseKind};
use crate::status::RepoId;

verus! {

/// A column lies in a range, if there is one.
pub open spec fn in_range(range: Option<(u16, u16)>, column: u16) -> bool {
    range matches Some((from, to)) && from <= column < to
}

/// The set with `key` in it or out of it, the other way round than before.
pub open spec fn toggled(set: Set<Seq<char>>, key: Seq<char>) -> Set<Seq<char>> {
    if set.contains(key) {
        set.remove(key)
    } else {
        set.insert(key)
    }
}

impl RepoListView {
    /// The next row selected.
    pub open spec fn select_next(self) -> RepoListView {
        RepoListView { state: self.state.stepped_down(self.display_rows.len()), ..self }
    }

    /// The previous row selected.
    pub open spec fn select_prev(self) -> RepoListView {
        RepoListView { state: self.state.stepped_up(self.display_rows.len()), ..self }
    }

    /// The worktrees of the selected repository shown, or not shown any more; its
    /// own row is then selected.
    pub open spec fn toggle_expand(self) -> RepoListView {
        match self.selected_index() {
            Some(i) if worktrees(self.repos[i as int]).len() > 0 => RepoListView {
                expanded: toggled(self.expanded, self.repos[i as int].path),
                ..self
            }.refreshed().select_repo_row(i as int),
            _ => self,
        }
    }

    /// The stashes of the selected repository shown, or not shown any more; its
    /// own row is then selected.
    pub open spec fn toggle_stash_expand(self) -> RepoListView {
        match self.selected_index() {
            Some(i) if stash_count(self.repos[i as int]) > 0 => RepoListView {
                expanded_stashes: toggled(self.expanded_stashes, self.repos[i as int].path),
                ..self
            }.refreshed().select_repo_row(i as int),
            _ => self,
        }
    }

    /// What selecting the selected row leads to: a repository and a worktree are
    /// opened, and a stash shows the details of its repository.
    pub open spec fn selection_action(self) -> Option<ActionView> {
        match self.selected_row() {
            Some(DisplayRow::Repo(i)) => Some(ActionView::SelectRepo(self.repos[i as int].path)),
            Some(DisplayRow::Worktree(i, w)) => {
                let worktree = worktrees(self.repos[i as int])[w as int];
                Some(
                    ActionView::SelectWorktree {
                        repo_id: self.repos[i as int].path,
                        worktree_path: worktree.path,
                        worktree_branch: worktree.branch,
                    },
                )
            },
            Some(DisplayRow::Stash(i, _)) => Some(
                ActionView::FocusRepoDetails(self.repos[i as int].path),
            ),
            None => None,
        }
    }

    /// A list, and what its selection leads to.
    pub open spec fn with_selection_action(self) -> (RepoListView, Option<ActionView>) {
        (self, self.selection_action())
    }

    /// A key on the list.
    pub open spec fn key_event(self, key: Key) -> (RepoListView, Option<ActionView>) {
        if key == Key::Char('j') || key == Key::Down {
            self.select_next().with_selection_action()
        } else if key == Key::Char('k') || key == Key::Up {
            self.select_prev().with_selection_action()
        } else if key == Key::Char('w') {
            self.toggle_expand().with_selection_action()
        } else if key == Key::Char('S') {
            self.toggle_stash_expand().with_selection_action()
        } else {
            (self, None)
        }
    }

    /// The row at a cell, in the list drawn with a border.
    pub open spec fn row_hit(self, column: u16, row: u16) -> Option<int> {
        let area = self.render_area;
        if area.x <= column < area.x + area.width && row > area.y && row - area.y - 1
            + self.state.offset < self.display_rows.len() {
            Some(row - area.y - 1 + self.state.offset)
        } else {
            None
        }
    }

    /// Clicks can be placed: the borders of the list have coordinates.
    pub open spec fn clickable(self) -> bool {
        &&& self.render_area.y < u16::MAX
        &&& self.render_area.x + self.render_area.width <= u16::MAX
    }

    /// The columns of the indicators in the row of repository `i`.
    pub open spec fn indicators(self, i: int) -> crate::repo_list::render::IndicatorColumns {
        let name = ellipsized(
            self.repos[i].display,
            name_room(inner_width(self.render_area)),
        );
        columns_of(self.repos[i], (self.render_area.x + 1) as u16, name.len() as u16)
    }

    /// A click on the row of repository `i` while it is selected: on an indicator
    /// it shows or hides what that counts; elsewhere the worktrees, or else the
    /// stashes. Without either it selects the row.
    pub open spec fn click_selected(self, i: int, column: u16) -> RepoListView {
        let cols = self.indicators(i);
        if in_range(cols.stash, column) {
            self.toggle_stash_expand()
        } else if in_range(cols.worktree, column) {
            self.toggle_expand()
        } else if worktrees(self.repos[i]).len() > 0 {
            self.toggle_expand()
        } else if stash_count(self.repos[i]) > 0 {
            self.toggle_stash_expand()
        } else {
            self
        }
    }

    /// A left click.
    pub open spec fn left_click(self, column: u16, row: u16) -> (RepoListView, Option<ActionView>) {
        match self.row_hit(column, row) {
            Some(k) => {
                let selected = RepoListView { state: self.state.selecting(Some(k as usize)), ..self };
                if self.state.selected == Some(k as usize) {
                    match self.display_rows[k] {
                        DisplayRow::Repo(i) if self.repos[i as int].status is Some =>
                            self.click_selected(i as int, column).with_selection_action(),
                        _ => selected.with_selection_action(),
                    }
                } else {
                    selected.with_selection_action()
                }
            },
            None => (self, None),
        }
    }

    /// A right click selects a row and asks for the menu of a repository or of a
    /// worktree, for which it is the worktree's own path that counts.
    pub open spec fn right_click(self, column: u16, row: u16) -> (
        RepoListView,
        Option<ActionView>,
    ) {
        match self.row_hit(column, row) {
            Some(k) => {
                let selected = RepoListView { state: self.state.selecting(Some(k as usize)), ..self };
                let menu = match self.display_rows[k] {
                    DisplayRow::Repo(i) => Some(
                        ActionView::ShowContextMenu {
                            id: self.repos[i as int].path,
                            row,
                            col: column,
                            is_worktree: false,
                        },
                    ),
                    DisplayRow::Worktree(i, w) => Some(
                        ActionView::ShowContextMenu {
                            id: worktrees(self.repos[i as int])[w as int].path,
                            row,
                            col: column,
                            is_worktree: true,
                        },
                    ),
                    DisplayRow::Stash(_, _) => None,
                };
                (selected, menu)
            },
            None => (self, None),
        }
    }

    /// The mouse on the list.
    pub open spec fn mouse_event(self, mouse: Mouse) -> (RepoListView, Option<ActionView>) {
        match mouse.kind {
            MouseKind::LeftDown => self.left_click(mouse.column, mouse.row),
            MouseKind::RightDown => self.right_click(mouse.column, mouse.row),
            MouseKind::ScrollUp => self.select_prev().with_selection_action(),
            MouseKind::ScrollDown => self.select_next().with_selection_action(),
            _ => (self, None),
        }
    }

    /// What the list does of its own when something happens.
    pub open spec fn updated(self, action: Action) -> (RepoListView, Option<ActionView>) {
        match action {
            Action::SelectNextRepo => self.select_next().with_selection_action(),
            Action::SelectPrevRepo => self.select_prev().with_selection_action(),
            Action::RepoStatusUpdated { id, status } => (
                match self.resolve_index(id@) {
                    Some(i) => self.update_status(i as int, status@),
                    None => self,
                },
                None,
            ),
            _ => (self, None),
        }
    }
}

impl RepoList {
    /// Selects the next row.
    pub fn select_next(&mut self)
        requires
            old(self)@.wf(),
        ensures
            final(self)@ == old(self)@.select_next(),
            final(self)@.wf(),
    {
        let len: usize = self.display_rows.len();
        self.state.step_down(len);
    }

    /// Selects the previous row.
    pub fn select_prev(&mut self)
        requires
            old(self)@.wf(),
        ensures
            final(self)@ == old(self)@.select_prev(),
            final(self)@.wf(),
    {
        let len: usize = self.display_rows.len();
        self.state.step_up(len);
    }

    /// Shows or hides the worktrees of the selected repository.
    pub fn toggle_expand(&mut self)
        requires
            old(self)@.wf(),
        ensures
            final(self)@ == old(self)@.toggle_expand(),
            final(self)@.wf(),
    {
        proof {
            self.lemma_rows();
        }
        let idx: usize = match self.selected_index() {
            Some(i) => i,
            None => return,
        };
        assert(self@.repos[idx as int] == self.repos@[idx as int].deep_view());
        let has_worktrees = match &self.repos[idx].status {
            Some(status) => !status.worktree_info.is_empty(),
            None => false,
        };
        if !has_worktrees {
            return;
        }
        let path = self.repos[idx].path.clone();
        if self.expanded_repos.contains(path.as_str()) {
            self.expanded_repos.remove(path.as_str());
        } else {
            self.expanded_repos.insert(path);
        }
        self.rebuild_display_rows();
        self.select_repo_row(idx);
    }

    /// Shows or hides the stashes of the selected repository.
    pub fn toggle_stash_expand(&mut self)
        requires
            old(self)@.wf(),
        ensures
            final(self)@ == old(self)@.toggle_stash_expand(),
            final(self)@.wf(),
    {
        proof {
            self.lemma_rows();
        }
        let idx: usize = match self.selected_index() {
            Some(i) => i,
            None => return,
        };
        assert(self@.repos[idx as int] == self.repos@[idx as int].deep_view());
        let has_stashes = match &self.repos[idx].status {
            Some(status) => !status.stashes.is_empty(),
            None => false,
        };
        if !has_stashes {
            return;
        }
        let path = self.repos[idx].path.clone();
        if self.expanded_stashes.contains(path.as_str()) {
            self.expanded_stashes.remove(path.as_str());
        } else {
            self.expanded_stashes.insert(path);
        }
        self.rebuild_display_rows();
        self.select_repo_row(idx);
    }

    /// What selecting the selected row leads to.
    pub fn emit_selection_action(&self) -> (r: Option<Action>)
        requires
            self@.wf(),
        ensures
            r.deep_view() == self@.selection_action(),
    {
        proof {
            self.lemma_rows();
        }
        let at: usize = match self.state.selected {
            Some(i) => i,
            None => return None,
        };
        if at >= self.display_rows.len() {
            return None;
        }
        let row = self.display_rows[at];
        assert(row_fits(self@.repos, self@.display_rows[at as int]));
        assert(self@.repos[repo_of_row(row) as int] == self.repos@[repo_of_row(
            row,
        ) as int].deep_view());
        match row {
            DisplayRow::Repo(i) => Some(Action::SelectRepo(RepoId(self.repos[i].path.clone()))),
            DisplayRow::Worktree(i, w) => {
                let entry = &self.repos[i];
                match &entry.status {
                    Some(status) => {
                        let worktree = &status.worktree_info[w];
                        assert(worktrees(self@.repos[i as int])[w as int] == worktree.deep_view());
                        Some(
                            Action::SelectWorktree {
                                repo_id: RepoId(entry.path.clone()),
                                worktree_path: worktree.path.clone(),
                                worktree_branch: worktree.branch.clone(),
                            },
                        )
                    },
                    None => None,
                }
            },
            DisplayRow::Stash(i, _) => Some(
                Action::FocusRepoDetails(RepoId(self.repos[i].path.clone())),
            ),
        }
    }

    /// Handles a key on the list.
    pub fn handle_key_event(&mut self, key: Key) -> (r: Option<Action>)
        requires
            old(self)@.wf(),
        ensures
            (final(self)@, r.deep_view()) == old(self)@.key_event(key),
            final(self)@.wf(),
    {
        match key {
            Key::Char('j') | Key::Down => {
                self.select_next();
            },
            Key::Char('k') | Key::Up => {
                self.select_prev();
            },
            Key::Char('w') => {
                self.toggle_expand();
            },
            Key::Char('S') => {
                self.toggle_stash_expand();
            },
            _ => {
                return None;
            },
        }
        self.emit_selection_action()
    }

    /// The row at a cell.
    fn hit_row(&self, column: u16, row: u16) -> (r: Option<usize>)
        requires
            self@.wf(),
            self@.clickable(),
        ensures
            match r {
                Some(k) => self@.row_hit(column, row) == Some(k as int) && k
                    < self@.display_rows.len(),
                None => self@.row_hit(column, row) is None,
            },
    {
        let content_y: u16 = self.render_area.y + 1;
        if column >= self.render_area.x && column < self.render_area.x + self.render_area.width
            && row >= content_y {
            let idx: usize = (row - content_y) as usize + self.state.offset;
            if idx < self.display_rows.len() {
                return Some(idx);
            }
        }
        None
    }

    /// Handles a click on the selected row of repository `i`; without anything to
    /// show or hide it does nothing.
    fn click_selected(&mut self, i: usize, column: u16)
        requires
            old(self)@.wf(),
            old(self)@.clickable(),
            i < old(self)@.repos.len(),
            old(self).render_area.width > 0,
        ensures
            final(self)@ == old(self)@.click_selected(i as int, column),
            final(self)@.wf(),
    {
        assert(self@.repos[i as int] == self.repos@[i as int].deep_view());
        let base_x: u16 = self.render_area.x + 1;
        let inner: u16 = self.render_area.width.saturating_sub(2);
        let name = rendered_name(&self.repos[i], inner);
        let name_width: u16 = name.as_str().unicode_len() as u16;
        let cols = indicator_columns(&self.repos[i], base_x, name_width);
        assert(cols == self@.indicators(i as int));
        let clicked_stash = match cols.stash {
            Some((s, e)) => column >= s && column < e,
            None => false,
        };
        if clicked_stash {
            self.toggle_stash_expand();
            return;
        }
        let clicked_worktree = match cols.worktree {
            Some((s, e)) => column >= s && column < e,
            None => false,
        };
        if clicked_worktree {
            self.toggle_expand();
            return;
        }
        let has_worktrees = match &self.repos[i].status {
            Some(status) => !status.worktree_info.is_empty(),
            None => false,
        };
        if has_worktrees {
            self.toggle_expand();
            return;
        }
        let has_stashes = match &self.repos[i].status {
            Some(status) => !status.stashes.is_empty(),
            None => false,
        };
        if has_stashes {
            self.toggle_stash_expand();
        }
    }

    /// Handles a left click.
    fn left_click(&mut self, column: u16, row: u16) -> (r: Option<Action>)
        requires
            old(self)@.wf(),
            old(self)@.clickable(),
        ensures
            (final(self)@, r.deep_view()) == old(self)@.left_click(column, row),
            final(self)@.wf(),
    {
        proof {
            self.lemma_rows();
        }
        let idx: usize = match self.hit_row(column, row) {
            Some(k) => k,
            None => return None,
        };
        let is_selected = match self.state.selected {
            Some(k) => k == idx,
            None => false,
        };
        if is_selected {
            if let DisplayRow::Repo(i) = self.display_rows[idx] {
                assert(row_fits(self@.repos, self@.display_rows[idx as int]));
                assert(self@.repos[i as int] == self.repos@[i as int].deep_view());
                if self.repos[i].status.is_some() {
                    self.click_selected(i, column);
                    return self.emit_selection_action();
                }
            }
        }
        self.state.select(Some(idx));
        self.emit_selection_action()
    }

    /// Handles a right click.
    fn right_click(&mut self, column: u16, row: u16) -> (r: Option<Action>)
        requires
            old(self)@.wf(),
            old(self)@.clickable(),
        ensures
            (final(self)@, r.deep_view()) == old(self)@.right_click(column, row),
            final(self)@.wf(),
    {
        proof {
            self.lemma_rows();
        }
        let idx: usize = match self.hit_row(column, row) {
            Some(k) => k,
            None => return None,
        };
        self.state.select(Some(idx));
        let shown = self.display_rows[idx];
        assert(row_fits(self@.repos, self@.display_rows[idx as int]));
        assert(self@.repos[repo_of_row(shown) as int] == self.repos@[repo_of_row(
            shown,
        ) as int].deep_view());
        match shown {
            DisplayRow::Repo(i) => Some(
                Action::ShowContextMenu {
                    id: RepoId(self.repos[i].path.clone()),
                    row,
                    col: column,
                    is_worktree: false,
                },
            ),
            DisplayRow::Worktree(i, w) => match &self.repos[i].status {
                Some(status) => {
                    let worktree = &status.worktree_info[w];
                    assert(worktrees(self@.repos[i as int])[w as int] == worktree.deep_view());
                    Some(
                        Action::ShowContextMenu {
                            id: RepoId(worktree.path.clone()),
                            row,
                            col: column,
                            is_worktree: true,
                        },
                    )
                },
                None => None,
            },
            DisplayRow::Stash(_, _) => None,
        }
    }

    /// Handles the mouse on the list.
    pub fn handle_mouse_event(&mut self, mouse: Mouse) -> (r: Option<Action>)
        requires
            old(self)@.wf(),
            mouse.kind == MouseKind::LeftDown || mouse.kind == MouseKind::RightDown ==> old(
                self,
            )@.clickable(),
        ensures
            (final(self)@, r.deep_view()) == old(self)@.mouse_event(mouse),
            final(self)@.wf(),
    {
        match mouse.kind {
            MouseKind::LeftDown => self.left_click(mouse.column, mouse.row),
            MouseKind::RightDown => self.right_click(mouse.column, mouse.row),
            MouseKind::ScrollUp => {
                self.select_prev();
                self.emit_selection_action()
            },
            MouseKind::ScrollDown => {
                self.select_next();
                self.emit_selection_action()
            },
            _ => None,
        }
    }

    /// Does what the list does of its own when something happens.
    pub fn update(&mut self, action: Action) -> (r: Option<Action>)
        requires
            old(self)@.wf(),
        ensures
            (final(self)@, r.deep_view()) == old(self)@.updated(action),
            final(self)@.wf(),
    {
        match action {
            Action::SelectNextRepo => {
                self.select_next();
                self.emit_selection_action()
            },
            Action::SelectPrevRepo => {
                self.select_prev();
                self.emit_selection_action()
            },
            Action::RepoStatusUpdated { id, status } => {
                if let Some(idx) = self.resolve_index(&id) {
                    self.update_status(idx, status);
                }
                None
            },
            _ => None,
        }
    }
}

} // verus!
