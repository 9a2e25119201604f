//! Places on the screen, what is selected in a list, and what the user does.
use vstd::prelude::*;
use ratatui::layout;

verus! {

/// A rectangle of screen cells.
#[derive(Clone, Copy, PartialEq, Eq, Structural, Debug)]
pub struct Rect {
    pub x: u16,
    pub y: u16,
    pub width: u16,
    pub height: u16,
}

/// The sum of two coordinates, cut off at the last one there is.
pub open spec fn capped(a: u16, b: u16) -> u16 {
    if a + b > u16::MAX {
        u16::MAX
    } else {
        (a + b) as u16
    }
}

impl Rect {
    /// The rectangle without cells at the origin.
    pub open spec fn nowhere() -> Rect {
        Rect { x: 0, y: 0, width: 0, height: 0 }
    }

    /// The rectangle at `x`, `y`, cut off at the last coordinate there is.
    pub fn new(x: u16, y: u16, width: u16, height: u16) -> (r: Rect)
        ensures
            r == (Rect {
                x,
                y,
                width: (capped(x, width) - x) as u16,
                height: (capped(y, height) - y) as u16,
            }),
    {
        Rect { x, y, width: x.saturating_add(width) - x, height: y.saturating_add(height) - y }
    }

    /// The rectangle without cells.
    pub fn empty() -> (r: Rect)
        ensures
            r == Rect::nowhere(),
    {
        Rect { x: 0, y: 0, width: 0, height: 0 }
    }

    /// The cell at `column`, `row` lies in the rectangle.
    pub open spec fn covers(self, column: u16, row: u16) -> bool {
        self.x <= column < capped(self.x, self.width) && self.y <= row < capped(
            self.y,
            self.height,
        )
    }

    /// Whether the cell at `column`, `row` lies in the rectangle.
    pub fn contains(&self, column: u16, row: u16) -> (r: bool)
        ensures
            r == self.covers(column, row),
    {
        column >= self.x && column < self.x.saturating_add(self.width) && row >= self.y && row
            < self.y.saturating_add(self.height)
    }
}

/// Which way an area is divided.
#[derive(Clone, Copy, PartialEq, Eq, Structural, Debug)]
pub enum Direction {
    Horizontal,
    Vertical,
}

/// How large a part of a divided area is to be.
#[derive(Clone, Copy, PartialEq, Eq, Structural, Debug)]
pub enum Constraint {
    Percentage(u16),
    Length(u16),
    Min(u16),
}

/// How many cells an area has along a direction, as far as there are coordinates.
pub open spec fn length(direction: Direction, area: Rect) -> int {
    match direction {
        Direction::Horizontal => capped(area.x, area.width) - area.x,
        Direction::Vertical => capped(area.y, area.height) - area.y,
    }
}

/// How many percent the first `n` constraints ask for.
pub open spec fn percent(constraints: Seq<Constraint>, n: nat) -> nat
    decreases n,
{
    if n == 0 {
        0
    } else {
        percent(constraints, (n - 1) as nat) + match constraints[n - 1] {
            Constraint::Percentage(p) => p as nat,
            _ => 0,
        }
    }
}

/// The constraints are percentages, and not more than the whole is asked for.
pub open spec fn shares(constraints: Seq<Constraint>) -> bool {
    &&& forall|i: int| 0 <= i < constraints.len() ==> (#[trigger] constraints[i]) is Percentage
    &&& percent(constraints, constraints.len()) <= 100
}

/// The cell at which the first `n` shares of `len` cells end, rounded to the
/// nearest one.
pub open spec fn share_end(constraints: Seq<Constraint>, len: int, n: nat) -> int {
    (len * percent(constraints, n) + 50) / 100
}

/// How many of `len` cells go to a part of length `h` that comes before one of at
/// least `m`: what the second leaves, as far as that is asked for.
pub open spec fn leading_length(h: int, m: int, len: int) -> int {
    let left = if m < len {
        len - m
    } else {
        0
    };
    if h < left {
        h
    } else {
        left
    }
}

/// The cells of an area from number `a` up to number `b` along a direction.
pub open spec fn slice(area: Rect, direction: Direction, a: int, b: int) -> Rect {
    match direction {
        Direction::Horizontal => Rect { x: (area.x + a) as u16, width: (b - a) as u16, ..area },
        Direction::Vertical => Rect { y: (area.y + a) as u16, height: (b - a) as u16, ..area },
    }
}

/// The shares of an area: they follow on one another from its beginning, each up
/// to the cell nearest to its end.
pub open spec fn shared(
    area: Rect,
    direction: Direction,
    constraints: Seq<Constraint>,
) -> Seq<Rect> {
    let len = length(direction, area);
    Seq::new(
        constraints.len(),
        |i: int|
            slice(
                area,
                direction,
                share_end(constraints, len, i as nat),
                share_end(constraints, len, (i + 1) as nat),
            ),
    )
}

/// An area in two: a part of length `h`, and behind it one of at least `m`, which
/// has precedence and takes all that is left.
pub open spec fn in_two(area: Rect, direction: Direction, h: u16, m: u16) -> Seq<Rect> {
    let len = length(direction, area);
    let first = leading_length(h as int, m as int, len);
    seq![slice(area, direction, 0, first), slice(area, direction, first, len)]
}

/// `parts` comes of dividing `area` under `constraints`. There is one part for each
/// of them, each goes right across the area, and none reaches out of it. Shares
/// divide it in one way only, and so do a length and a minimum.
pub open spec fn divides(
    area: Rect,
    direction: Direction,
    constraints: Seq<Constraint>,
    parts: Seq<Rect>,
) -> bool {
    &&& parts.len() == constraints.len()
    &&& forall|i: int|
        0 <= i < parts.len() ==> {
            let part = #[trigger] parts[i];
            match direction {
                Direction::Horizontal => {
                    &&& part.y == area.y && part.height == area.height
                    &&& area.x <= part.x
                    &&& part.x + part.width <= capped(area.x, area.width)
                },
                Direction::Vertical => {
                    &&& part.x == area.x && part.width == area.width
                    &&& area.y <= part.y
                    &&& part.y + part.height <= capped(area.y, area.height)
                },
            }
        }
    &&& shares(constraints) ==> parts == shared(area, direction, constraints)
    &&& constraints.len() == 2 ==> match (constraints[0], constraints[1]) {
        (Constraint::Length(h), Constraint::Min(m)) => m <= i16::MAX ==> parts == in_two(
            area,
            direction,
            h,
            m,
        ),
        _ => true,
    }
}

/// Calls `Layout::split` of `ratatui` on a default layout with this direction and
/// these constraints. The solver is required to keep every border of a part inside
/// the area. Where percentages ask for no more than the whole, they can all be met
/// together with the spacing of nothing between and before the parts, which is
/// stronger than they are; each border is then rounded to the nearest cell. Of a
/// length and a minimum the minimum is stronger, and it grows into what the length
/// leaves. Of other constraints, which need not go together, nothing more is said
/// than that the parts lie inside.
#[verifier::external_body]
pub(crate) fn split(direction: Direction, constraints: &Vec<Constraint>, area: Rect) -> (r: Vec<
    Rect,
>)
    ensures
        divides(area, direction, constraints@, r@),
{
    let sizes = constraints.iter().map(|c| match *c {
        Constraint::Percentage(n) => layout::Constraint::Percentage(n),
        Constraint::Length(n) => layout::Constraint::Length(n),
        Constraint::Min(n) => layout::Constraint::Min(n),
    });
    let direction = match direction {
        Direction::Horizontal => layout::Direction::Horizontal,
        Direction::Vertical => layout::Direction::Vertical,
    };
    let Rect { x, y, width, height } = area;
    let parts = layout::Layout::default().direction(direction).constraints(sizes).split(
        layout::Rect { x, y, width, height },
    );
    parts.iter().map(|p| Rect { x: p.x, y: p.y, width: p.width, height: p.height }).collect()
}

/// What is selected in a list, and which entry is drawn first.
#[derive(Clone, Copy, PartialEq, Eq, Structural, Debug)]
pub struct ListState {
    pub selected: Option<usize>,
    pub offset: usize,
}

impl ListState {
    /// Nothing selected, drawn from the start.
    pub open spec fn initial() -> ListState {
        ListState { selected: None, offset: 0 }
    }

    /// The state after selecting `index`; selecting nothing also goes back to
    /// the start.
    pub open spec fn selecting(self, index: Option<usize>) -> ListState {
        ListState {
            selected: index,
            offset: if index is None {
                0
            } else {
                self.offset
            },
        }
    }

    /// The indices leave room for one step and for a screen of rows.
    pub open spec fn in_bounds(self) -> bool {
        &&& self.selected matches Some(i) ==> i < usize::MAX
        &&& self.offset + u16::MAX <= usize::MAX
    }

    /// The selection one entry further down in a list of `len` entries: the
    /// first entry where nothing is selected, and no further than the last.
    pub open spec fn stepped_down(self, len: nat) -> ListState {
        if len == 0 {
            self
        } else {
            self.selecting(
                Some(
                    match self.selected {
                        Some(i) => if i + 1 < len {
                            (i + 1) as usize
                        } else {
                            (len - 1) as usize
                        },
                        None => 0usize,
                    },
                ),
            )
        }
    }

    /// The selection one entry further up in a list of `len` entries: the first
    /// entry where nothing is selected.
    pub open spec fn stepped_up(self, len: nat) -> ListState {
        if len == 0 {
            self
        } else {
            self.selecting(
                Some(
                    match self.selected {
                        Some(i) => if i > 0 {
                            (i - 1) as usize
                        } else {
                            0usize
                        },
                        None => 0usize,
                    },
                ),
            )
        }
    }

    /// Nothing selected.
    pub fn new() -> (r: ListState)
        ensures
            r == ListState::initial(),
    {
        ListState { selected: None, offset: 0 }
    }

    /// Selects `index`.
    pub fn select(&mut self, index: Option<usize>)
        ensures
            *final(self) == old(self).selecting(index),
    {
        self.selected = index;
        if index.is_none() {
            self.offset = 0;
        }
    }

    /// Moves the selection down by one in a list of `len` entries.
    pub fn step_down(&mut self, len: usize)
        requires
            old(self).in_bounds(),
        ensures
            *final(self) == old(self).stepped_down(len as nat),
    {
        if len == 0 {
            return;
        }
        let i: usize = match self.selected {
            Some(i) => if i + 1 < len {
                i + 1
            } else {
                len - 1
            },
            None => 0,
        };
        self.select(Some(i));
    }

    /// Moves the selection up by one in a list of `len` entries.
    pub fn step_up(&mut self, len: usize)
        ensures
            *final(self) == old(self).stepped_up(len as nat),
    {
        if len == 0 {
            return;
        }
        let i: usize = match self.selected {
            Some(i) => i.saturating_sub(1),
            None => 0,
        };
        self.select(Some(i));
    }
}

/// A step down or up in a list with entries leaves an entry of it selected, if
/// an entry of it, or nothing, was selected before.
pub proof fn law_steps_stay_in_list(state: ListState, len: nat)
    requires
        len > 0,
        len <= usize::MAX,
        state.selected matches Some(i) ==> i < len,
    ensures
        state.stepped_down(len).selected matches Some(i) && i < len,
        state.stepped_up(len).selected matches Some(i) && i < len,
{
}

/// A key that the user presses.
#[derive(Clone, Copy, PartialEq, Eq, Structural, Debug)]
pub enum Key {
    Esc,
    Enter,
    Backspace,
    Up,
    Down,
    Left,
    Right,
    Char(char),
    Other,
}

/// What the mouse does.
#[derive(Clone, Copy, PartialEq, Eq, Structural, Debug)]
pub enum MouseKind {
    LeftDown,
    RightDown,
    ScrollUp,
    ScrollDown,
    ScrollLeft,
    ScrollRight,
    Other,
}

/// A mouse event in a screen cell.
#[derive(Clone, Copy, PartialEq, Eq, Structural, Debug)]
pub struct Mouse {
    pub kind: MouseKind,
    pub column: u16,
    pub row: u16,
}

/// A colour of the terminal.
#[derive(Clone, Copy, PartialEq, Eq, Structural, Debug)]
pub enum Color {
    Reset,
    Black,
    Red,
    Green,
    Yellow,
    Blue,
    Magenta,
    Cyan,
    Gray,
    DarkGray,
    LightRed,
    LightGreen,
    LightYellow,
    LightBlue,
    LightMagenta,
    LightCyan,
    White,
    Rgb(u8, u8, u8),
    Indexed(u8),
}

/// The colours of the graph panel.
#[derive(Clone, Copy, PartialEq, Eq, Structural, Debug)]
pub struct GraphTheme {
    pub border_focused: Color,
    pub border_unfocused: Color,
    pub loading: Color,
    pub error_text: Color,
    pub empty: Color,
    pub dimmed: Color,
    pub collapsed_message: Color,
    pub commit_id: Color,
    pub merge_message: Color,
    pub commit_message: Color,
    pub time: Color,
    pub addition: Color,
    pub deletion: Color,
    pub selection_bg: Color,
    pub commit_msg_border: Color,
    pub commit_msg_text: Color,
    pub commit_files_border: Color,
    pub commit_files_empty: Color,
    pub commit_files_status_modified: Color,
    pub commit_files_status_added: Color,
    pub commit_files_status_deleted: Color,
    pub commit_files_status_renamed: Color,
    pub commit_files_status_other: Color,
    pub commit_files_path: Color,
    pub commit_diff_border: Color,
    pub commit_diff_added: Color,
    pub commit_diff_removed: Color,
    pub commit_diff_hunk: Color,
    pub commit_diff_meta: Color,
    pub commit_diff_context: Color,
    pub search_overlay_fg: Color,
    pub search_overlay_bg: Color,
}

/// The colours of the repository list.
#[derive(Clone, Copy, PartialEq, Eq, Structural, Debug)]
pub struct RepoListTheme {
    pub border_focused: Color,
    pub border_unfocused: Color,
    pub selection_bg: Color,
}

/// The colours of the panels.
#[derive(Clone, Copy, PartialEq, Eq, Structural, Debug)]
pub struct Theme {
    pub graph: GraphTheme,
    pub repo_list: RepoListTheme,
}

} // verus!
