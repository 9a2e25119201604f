//! Keys and mouse on the graph panel.
use vstd::prelude::*;
use vstd::string::*;
use crate::action::{Action, ActionView};
use crate::git_graph::{
    CommitDetail, DetailView, GitGraph, GraphView, LoadRequest, LoadRequestView,
};
use crate::model::GraphOptionsView;
use crate::screen::{Key, ListState, Mouse, MouseKind, Rect};

verus! {

/// What a key or the mouse leads to: an action, and a build that is to run.
pub struct Reaction {
    pub action: Option<Action>,
    pub load: Option<LoadRequest>,
}

/// What a reaction holds, and the panel after it.
#[verifier::ext_equal]
pub struct ReactionView {
    pub graph: GraphView,
    pub action: Option<ActionView>,
    pub load: Option<LoadRequestView>,
}

/// One more, cut off at the last number there is.
pub open spec fn scrolled_on(n: u16) -> u16 {
    if n < u16::MAX {
        (n + 1) as u16
    } else {
        n
    }
}

/// One less, cut off at zero.
pub open spec fn scrolled_back(n: u16) -> u16 {
    if n > 0 {
        (n - 1) as u16
    } else {
        n
    }
}

/// A click in row `row` of a list that is drawn in `area` with a border hits
/// this entry of `len`, if any.
pub open spec fn entry_hit(area: Rect, row: u16, state: ListState, len: nat) -> Option<usize> {
    if row > area.y && row - area.y - 1 + state.offset < len {
        Some((row - area.y - 1 + state.offset) as usize)
    } else {
        None
    }
}

/// The entry of a list that a click hits.
pub(crate) fn hit_entry(area: &Rect, row: u16, state: &ListState, len: usize) -> (r: Option<usize>)
    requires
        state.in_bounds(),
    ensures
        r == entry_hit(*area, row, *state, len as nat),
{
    if row > area.y {
        let idx: usize = (row - area.y - 1) as usize + state.offset;
        if idx < len {
            return Some(idx);
        }
    }
    None
}

impl DetailView {
    /// The next or the previous file selected.
    pub open spec fn with_step(self, down: bool) -> DetailView {
        DetailView {
            file_state: if down {
                self.file_state.stepped_down(self.files.len())
            } else {
                self.file_state.stepped_up(self.files.len())
            },
            ..self
        }
    }

    /// A key while the diff is open: it can be closed and scrolled.
    pub open spec fn key_in_diff(self, key: Key) -> DetailView {
        if key == Key::Esc || key == Key::Char('h') || key == Key::Left {
            DetailView { diff_content: None, diff_scroll: 0, ..self }
        } else if key == Key::Char('j') || key == Key::Down {
            DetailView { diff_scroll: scrolled_on(self.diff_scroll), ..self }
        } else if key == Key::Char('k') || key == Key::Up {
            DetailView { diff_scroll: scrolled_back(self.diff_scroll), ..self }
        } else {
            self
        }
    }

    /// The wheel over the diff, where `over_diff` tells, over the message or over
    /// the files. Elsewhere it is not for the detail.
    pub open spec fn wheel(self, over_diff: bool, column: u16, row: u16, down: bool) -> Option<
        DetailView,
    > {
        if over_diff && self.diff_content is Some {
            Some(
                DetailView {
                    diff_scroll: if down {
                        scrolled_on(self.diff_scroll)
                    } else {
                        scrolled_back(self.diff_scroll)
                    },
                    ..self
                },
            )
        } else if self.msg_area.covers(column, row) {
            Some(
                DetailView {
                    msg_scroll: if down {
                        scrolled_on(self.msg_scroll)
                    } else {
                        scrolled_back(self.msg_scroll)
                    },
                    ..self
                },
            )
        } else if self.file_list_area.covers(column, row) && self.files.len() > 0 {
            Some(self.with_step(down))
        } else {
            None
        }
    }
}

impl CommitDetail {
    /// Selects the next or the previous file.
    fn step(&mut self, down: bool)
        requires
            old(self).deep_view().file_state.in_bounds(),
        ensures
            final(self).deep_view() == old(self).deep_view().with_step(down),
            final(self).deep_view().file_state.in_bounds(),
    {
        let len: usize = self.files.len();
        if down {
            self.file_state.step_down(len);
        } else {
            self.file_state.step_up(len);
        }
    }

    /// Handles a key while the diff is open.
    fn key_in_diff(&mut self, key: Key)
        ensures
            final(self).deep_view() == old(self).deep_view().key_in_diff(key),
    {
        match key {
            Key::Esc | Key::Char('h') | Key::Left => {
                self.diff_content = None;
                self.diff_scroll = 0;
            },
            Key::Char('j') | Key::Down => {
                self.diff_scroll = self.diff_scroll.saturating_add(1);
            },
            Key::Char('k') | Key::Up => {
                self.diff_scroll = self.diff_scroll.saturating_sub(1);
            },
            _ => {},
        }
    }

    /// Turns the wheel, and says whether it was for the detail.
    fn wheel(&mut self, over_diff: bool, column: u16, row: u16, down: bool) -> (r: bool)
        requires
            old(self).deep_view().file_state.in_bounds(),
        ensures
            match old(self).deep_view().wheel(over_diff, column, row, down) {
                Some(d) => r && final(self).deep_view() == d,
                None => !r && final(self).deep_view() == old(self).deep_view(),
            },
            final(self).deep_view().file_state.in_bounds(),
    {
        if over_diff && self.diff_content.is_some() {
            self.diff_scroll = if down {
                self.diff_scroll.saturating_add(1)
            } else {
                self.diff_scroll.saturating_sub(1)
            };
            return true;
        }
        if self.msg_area.contains(column, row) {
            self.msg_scroll = if down {
                self.msg_scroll.saturating_add(1)
            } else {
                self.msg_scroll.saturating_sub(1)
            };
            return true;
        }
        if self.file_list_area.contains(column, row) && !self.files.is_empty() {
            self.step(down);
            return true;
        }
        false
    }
}

impl GraphView {
    /// Nothing happens.
    pub open spec fn unmoved(self) -> ReactionView {
        ReactionView { graph: self, action: None, load: None }
    }

    /// The next row selected.
    pub open spec fn select_next(self) -> GraphView {
        GraphView { state: self.state.stepped_down(self.display_rows().len()), ..self }
    }

    /// The previous row selected.
    pub open spec fn select_prev(self) -> GraphView {
        GraphView { state: self.state.stepped_up(self.display_rows().len()), ..self }
    }

    /// The rows moved sideways by four characters.
    pub open spec fn scrolled_sideways(self, right: bool) -> GraphView {
        GraphView {
            h_scroll: if right {
                if self.h_scroll + 4 <= usize::MAX {
                    (self.h_scroll + 4) as usize
                } else {
                    usize::MAX
                }
            } else if self.h_scroll >= 4 {
                (self.h_scroll - 4) as usize
            } else {
                0
            },
            ..self
        }
    }

    /// Leaving the commit that is looked at, with the reload that was put off.
    pub open spec fn leave_detail(self) -> (GraphView, Option<LoadRequestView>) {
        GraphView { detail: None, ..self }.take_reload()
    }

    /// Asking for the diff of the file that is now selected.
    pub open spec fn with_file_shown(self, detail: DetailView) -> ReactionView {
        let (graph, action) = GraphView { detail: Some(detail), ..self }.try_show_commit_diff();
        ReactionView { graph, action, load: None }
    }

    /// A key while the files `d` of a commit are open: the commit can be left,
    /// and each file that is selected is asked for.
    pub open spec fn key_in_files(self, d: DetailView, key: Key) -> ReactionView {
        if key == Key::Esc {
            let (graph, load) = self.leave_detail();
            ReactionView { graph, action: None, load }
        } else if key == Key::Char('j') || key == Key::Down {
            self.with_file_shown(d.with_step(true))
        } else if key == Key::Char('k') || key == Key::Up {
            self.with_file_shown(d.with_step(false))
        } else if key == Key::Enter {
            self.with_file_shown(d)
        } else {
            self.unmoved()
        }
    }

    /// First parents only are followed, or all parents again.
    pub open spec fn with_first_parent_flipped(self) -> GraphView {
        GraphView {
            options: GraphOptionsView {
                first_parent: !self.options.first_parent,
                ..self.options
            },
            ..self
        }
    }

    /// A key in the list of commits.
    pub open spec fn key_in_list(self, key: Key) -> ReactionView {
        if key == Key::Char('n') {
            self.search_next().unmoved()
        } else if key == Key::Char('N') {
            self.search_prev().unmoved()
        } else if key == Key::Char('/') {
            self.open_search().unmoved()
        } else if key == Key::Char('j') || key == Key::Down {
            self.select_next().unmoved()
        } else if key == Key::Char('k') || key == Key::Up {
            self.select_prev().unmoved()
        } else if key == Key::Enter {
            let (graph, action) = self.try_show_commit_files();
            ReactionView { graph, action, load: None }
        } else if key == Key::Char('f') {
            let (graph, load) = self.with_first_parent_flipped().reload_graph();
            ReactionView { graph, action: None, load }
        } else if key == Key::Char('c') {
            self.toggle_collapse_selected().unmoved()
        } else if key == Key::Char('H') {
            self.expand_all_branches().unmoved()
        } else if key == Key::Char('l') || key == Key::Right {
            self.scrolled_sideways(true).unmoved()
        } else if key == Key::Char('h') || key == Key::Left {
            self.scrolled_sideways(false).unmoved()
        } else {
            self.unmoved()
        }
    }

    /// A key on the panel goes to the diff, the files or the list of commits,
    /// whichever is on top.
    pub open spec fn key_event(self, key: Key) -> ReactionView {
        match self.detail {
            Some(d) => if d.diff_content is Some {
                GraphView { detail: Some(d.key_in_diff(key)), ..self }.unmoved()
            } else {
                self.key_in_files(d, key)
            },
            None => self.key_in_list(key),
        }
    }

    /// The commit that a click in row `row` of the screen hits.
    pub open spec fn commit_hit(self, row: u16) -> Option<usize> {
        entry_hit(self.graph_list_area, row, self.state, self.display_rows().len())
    }

    /// The commit at `index` selected.
    pub open spec fn with_selected(self, index: usize) -> GraphView {
        GraphView { state: self.state.selecting(Some(index)), ..self }
    }

    /// The detail with the file selected that a click hits.
    pub open spec fn file_hit(self, column: u16, row: u16) -> Option<DetailView> {
        match self.detail {
            Some(d) if d.file_list_area.covers(column, row) => match entry_hit(
                d.file_list_area,
                row,
                d.file_state,
                d.files.len(),
            ) {
                Some(index) => Some(
                    DetailView { file_state: d.file_state.selecting(Some(index)), ..d },
                ),
                None => None,
            },
            _ => None,
        }
    }

    /// A left click: on a commit it selects it and asks for its files, leaving
    /// the one looked at; on a file it selects it and asks for its diff.
    pub open spec fn left_click(self, column: u16, row: u16) -> ReactionView {
        if self.graph_list_area.covers(column, row) {
            match self.commit_hit(row) {
                Some(index) => {
                    let (left, load) = self.with_selected(index).leave_detail();
                    let (graph, action) = left.try_show_commit_files();
                    ReactionView { graph, action, load }
                },
                None => self.unmoved(),
            }
        } else {
            match self.file_hit(column, row) {
                Some(detail) => self.with_file_shown(detail),
                None => self.unmoved(),
            }
        }
    }

    /// A right click on a commit selects it and asks for its menu.
    pub open spec fn right_click(self, column: u16, row: u16) -> ReactionView {
        match self.commit_hit(row) {
            Some(index) if self.graph_list_area.covers(column, row) => ReactionView {
                graph: self.with_selected(index),
                action: Some(ActionView::OpenGraphContextMenu),
                load: None,
            },
            _ => self.unmoved(),
        }
    }

    /// The wheel over the diff, the message or the files.
    pub open spec fn wheel_in_detail(self, column: u16, row: u16, down: bool) -> Option<
        GraphView,
    > {
        match self.detail {
            Some(d) => match d.wheel(self.diff_area.covers(column, row), column, row, down) {
                Some(turned) => Some(GraphView { detail: Some(turned), ..self }),
                None => None,
            },
            None => None,
        }
    }

    /// The wheel moves what is under the pointer: the diff, the message, the
    /// files, or else the list of commits.
    pub open spec fn wheel(self, column: u16, row: u16, down: bool) -> GraphView {
        match self.wheel_in_detail(column, row, down) {
            Some(graph) => graph,
            None => if down {
                self.select_next()
            } else {
                self.select_prev()
            },
        }
    }

    /// The mouse on the panel.
    pub open spec fn mouse_event(self, mouse: Mouse) -> ReactionView {
        match mouse.kind {
            MouseKind::LeftDown => self.left_click(mouse.column, mouse.row),
            MouseKind::RightDown => self.right_click(mouse.column, mouse.row),
            MouseKind::ScrollUp => self.wheel(mouse.column, mouse.row, false).unmoved(),
            MouseKind::ScrollDown => self.wheel(mouse.column, mouse.row, true).unmoved(),
            MouseKind::ScrollLeft => self.scrolled_sideways(false).unmoved(),
            MouseKind::ScrollRight => self.scrolled_sideways(true).unmoved(),
            MouseKind::Other => self.unmoved(),
        }
    }
}

impl GitGraph {
    /// Selects the next row.
    pub fn select_next(&mut self)
        requires
            old(self)@.wf(),
        ensures
            final(self)@ == old(self)@.select_next(),
            final(self)@.wf(),
    {
        let len: usize = self.display_rows().len();
        assert(len == self@.display_rows().len());
        self.state.step_down(len);
    }

    /// Selects the previous row.
    pub fn select_prev(&mut self)
        requires
            old(self)@.wf(),
        ensures
            final(self)@ == old(self)@.select_prev(),
            final(self)@.wf(),
    {
        let len: usize = self.display_rows().len();
        assert(len == self@.display_rows().len());
        self.state.step_up(len);
    }

    /// Moves the rows sideways.
    fn scroll_sideways(&mut self, right: bool)
        requires
            old(self)@.wf(),
        ensures
            final(self)@ == old(self)@.scrolled_sideways(right),
            final(self)@.wf(),
    {
        if right {
            self.h_scroll = self.h_scroll.saturating_add(4);
        } else {
            self.h_scroll = self.h_scroll.saturating_sub(4);
        }
    }

    /// Leaves the commit that is looked at.
    fn leave_detail(&mut self) -> (r: Option<LoadRequest>)
        requires
            old(self)@.wf(),
            old(self)@.load_generation < u64::MAX,
        ensures
            (final(self)@, r.deep_view()) == old(self)@.leave_detail(),
            final(self)@.wf(),
    {
        self.commit_detail = None;
        self.take_reload()
    }

    /// Selects the next or the previous file.
    fn step_file(&mut self, down: bool)
        requires
            old(self)@.wf(),
            old(self)@.detail is Some,
        ensures
            final(self)@ == (GraphView {
                detail: Some((old(self)@.detail->0).with_step(down)),
                ..old(self)@
            }),
            final(self)@.wf(),
    {
        if let Some(detail) = &mut self.commit_detail {
            detail.step(down);
        }
    }

    /// Handles a key while the files of a commit are open.
    fn key_in_files(&mut self, key: Key) -> (r: Reaction)
        requires
            old(self)@.wf(),
            old(self)@.can_count(),
            old(self)@.detail is Some,
        ensures
            (ReactionView {
                graph: final(self)@,
                action: r.action.deep_view(),
                load: r.load.deep_view(),
            }) == old(self)@.key_in_files(old(self)@.detail->0, key),
            final(self)@.wf(),
    {
        match key {
            Key::Esc => {
                let load = self.leave_detail();
                Reaction { action: None, load }
            },
            Key::Char('j') | Key::Down => {
                self.step_file(true);
                let action = self.try_show_commit_diff();
                Reaction { action, load: None }
            },
            Key::Char('k') | Key::Up => {
                self.step_file(false);
                let action = self.try_show_commit_diff();
                Reaction { action, load: None }
            },
            Key::Enter => {
                let action = self.try_show_commit_diff();
                Reaction { action, load: None }
            },
            _ => Reaction { action: None, load: None },
        }
    }

    /// Follows first parents only, or all parents again.
    fn flip_first_parent(&mut self)
        requires
            old(self)@.wf(),
        ensures
            final(self)@ == old(self)@.with_first_parent_flipped(),
            final(self)@.wf(),
    {
        self.graph_options.first_parent = !self.graph_options.first_parent;
    }

    /// Handles a key in the list of commits.
    fn key_in_list(&mut self, key: Key) -> (r: Reaction)
        requires
            old(self)@.wf(),
            old(self)@.can_count(),
        ensures
            (ReactionView {
                graph: final(self)@,
                action: r.action.deep_view(),
                load: r.load.deep_view(),
            }) == old(self)@.key_in_list(key),
            final(self)@.wf(),
    {
        match key {
            Key::Char('n') => {
                self.search_next();
            },
            Key::Char('N') => {
                self.search_prev();
            },
            Key::Char('/') => {
                self.open_search();
            },
            Key::Char('j') | Key::Down => {
                self.select_next();
            },
            Key::Char('k') | Key::Up => {
                self.select_prev();
            },
            Key::Enter => {
                let action = self.try_show_commit_files();
                return Reaction { action, load: None };
            },
            Key::Char('f') => {
                self.flip_first_parent();
                let load = self.reload_graph();
                return Reaction { action: None, load };
            },
            Key::Char('c') => {
                self.toggle_collapse_selected();
            },
            Key::Char('H') => {
                self.expand_all_branches();
            },
            Key::Char('l') | Key::Right => {
                self.scroll_sideways(true);
            },
            Key::Char('h') | Key::Left => {
                self.scroll_sideways(false);
            },
            _ => {},
        }
        Reaction { action: None, load: None }
    }

    /// Handles a key while a diff is open.
    fn key_in_open_diff(&mut self, key: Key)
        requires
            old(self)@.wf(),
            old(self)@.detail is Some,
        ensures
            final(self)@ == (GraphView {
                detail: Some((old(self)@.detail->0).key_in_diff(key)),
                ..old(self)@
            }),
            final(self)@.wf(),
    {
        if let Some(detail) = &mut self.commit_detail {
            detail.key_in_diff(key);
        }
    }

    /// Handles a key on the panel.
    pub fn handle_key_event(&mut self, key: Key) -> (r: Reaction)
        requires
            old(self)@.wf(),
            old(self)@.can_count(),
        ensures
            (ReactionView {
                graph: final(self)@,
                action: r.action.deep_view(),
                load: r.load.deep_view(),
            }) == old(self)@.key_event(key),
            final(self)@.wf(),
    {
        let in_diff = match &self.commit_detail {
            Some(detail) => detail.diff_content.is_some(),
            None => return self.key_in_list(key),
        };
        if !in_diff {
            return self.key_in_files(key);
        }
        self.key_in_open_diff(key);
        Reaction { action: None, load: None }
    }

    /// Turns the wheel over the detail, and says whether it was for that.
    fn wheel_in_detail(&mut self, column: u16, row: u16, down: bool) -> (r: bool)
        requires
            old(self)@.wf(),
        ensures
            match old(self)@.wheel_in_detail(column, row, down) {
                Some(graph) => r && final(self)@ == graph,
                None => !r && final(self)@ == old(self)@,
            },
            final(self)@.wf(),
    {
        let over_diff = self.diff_area.contains(column, row);
        match &mut self.commit_detail {
            Some(detail) => detail.wheel(over_diff, column, row, down),
            None => false,
        }
    }

    /// Turns the wheel over a cell.
    fn turn_wheel(&mut self, column: u16, row: u16, down: bool)
        requires
            old(self)@.wf(),
        ensures
            final(self)@ == old(self)@.wheel(column, row, down),
            final(self)@.wf(),
    {
        if self.wheel_in_detail(column, row, down) {
            return;
        }
        if down {
            self.select_next();
        } else {
            self.select_prev();
        }
    }

    /// Selects the commit at a cell of the list, if there is one.
    fn select_at(&mut self, row: u16) -> (r: bool)
        requires
            old(self)@.wf(),
        ensures
            match old(self)@.commit_hit(row) {
                Some(index) => r && final(self)@ == old(self)@.with_selected(index),
                None => !r && final(self)@ == old(self)@,
            },
            final(self)@.wf(),
    {
        let len: usize = self.display_rows().len();
        assert(len == self@.display_rows().len());
        match hit_entry(&self.graph_list_area, row, &self.state, len) {
            Some(idx) => {
                self.state.select(Some(idx));
                true
            },
            None => false,
        }
    }

    /// Selects the file at a cell of the list of files, if there is one.
    fn select_file_at(&mut self, column: u16, row: u16) -> (r: bool)
        requires
            old(self)@.wf(),
        ensures
            match old(self)@.file_hit(column, row) {
                Some(detail) => r && final(self)@ == (GraphView {
                    detail: Some(detail),
                    ..old(self)@
                }),
                None => !r && final(self)@ == old(self)@,
            },
            final(self)@.wf(),
    {
        if let Some(detail) = &mut self.commit_detail {
            if detail.file_list_area.contains(column, row) {
                let len: usize = detail.files.len();
                if let Some(idx) = hit_entry(
                    &detail.file_list_area,
                    row,
                    &detail.file_state,
                    len,
                ) {
                    detail.file_state.select(Some(idx));
                    return true;
                }
            }
        }
        false
    }

    /// Handles a left click.
    fn left_click(&mut self, column: u16, row: u16) -> (r: Reaction)
        requires
            old(self)@.wf(),
            old(self)@.can_count(),
        ensures
            (ReactionView {
                graph: final(self)@,
                action: r.action.deep_view(),
                load: r.load.deep_view(),
            }) == old(self)@.left_click(column, row),
            final(self)@.wf(),
    {
        if self.graph_list_area.contains(column, row) {
            if self.select_at(row) {
                let load = self.leave_detail();
                let action = self.try_show_commit_files();
                return Reaction { action, load };
            }
            return Reaction { action: None, load: None };
        }
        if self.select_file_at(column, row) {
            let action = self.try_show_commit_diff();
            return Reaction { action, load: None };
        }
        Reaction { action: None, load: None }
    }

    /// Handles a right click.
    fn right_click(&mut self, column: u16, row: u16) -> (r: Reaction)
        requires
            old(self)@.wf(),
        ensures
            (ReactionView {
                graph: final(self)@,
                action: r.action.deep_view(),
                load: r.load.deep_view(),
            }) == old(self)@.right_click(column, row),
            final(self)@.wf(),
    {
        if self.graph_list_area.contains(column, row) && self.select_at(row) {
            return Reaction { action: Some(Action::OpenGraphContextMenu), load: None };
        }
        Reaction { action: None, load: None }
    }

    /// Handles the mouse on the panel.
    pub fn handle_mouse_event(&mut self, mouse: Mouse) -> (r: Reaction)
        requires
            old(self)@.wf(),
            old(self)@.can_count(),
        ensures
            (ReactionView {
                graph: final(self)@,
                action: r.action.deep_view(),
                load: r.load.deep_view(),
            }) == old(self)@.mouse_event(mouse),
            final(self)@.wf(),
    {
        match mouse.kind {
            MouseKind::LeftDown => {
                return self.left_click(mouse.column, mouse.row);
            },
            MouseKind::RightDown => {
                return self.right_click(mouse.column, mouse.row);
            },
            MouseKind::ScrollUp => {
                self.turn_wheel(mouse.column, mouse.row, false);
            },
            MouseKind::ScrollDown => {
                self.turn_wheel(mouse.column, mouse.row, true);
            },
            MouseKind::ScrollLeft => {
                self.scroll_sideways(false);
            },
            MouseKind::ScrollRight => {
                self.scroll_sideways(true);
            },
            MouseKind::Other => {},
        }
        Reaction { action: None, load: None }
    }
}

} // verus!
