//! What the graph panel shows, and where.
use vstd::prelude::*;
use vstd::string::*;
use vstd::utf8::encode_utf8;
use crate::git_graph::{CommitDetail, DetailView, GitGraph, GraphView};
use crate::model::GraphRowView;
use crate::screen::{
    in_two, length, percent, shared, shares, slice, split, Color, Constraint, Direction,
    GraphTheme, Rect,
};
use crate::text::{
    byte_len, cuts_at, decimal, first_bytes, lines, lines_of, number, push_number, same_text,
    starts_with, take_bytes, begins_with,
};

verus! {

/// How a piece of text is set.
#[derive(Clone, Copy, PartialEq, Eq, Structural, Debug)]
pub enum Emphasis {
    Plain,
    Bold,
    Italic,
}

/// A piece of a row.
pub enum Piece {
    /// The lanes of the graph, in their own colours or all in one.
    Lanes { recolor: Option<Color> },
    Text { text: String, color: Color, emphasis: Emphasis },
    /// The labels of the commit, each cut to `max_len`.
    Labels { max_len: usize },
    /// The author, in the colour that goes with the name or in this one.
    Author { text: String, tint: Option<Color> },
    /// The age of the commit.
    Age { color: Color },
}

/// What a piece holds.
#[verifier::ext_equal]
pub enum PieceView {
    Lanes { recolor: Option<Color> },
    Text { text: Seq<char>, color: Color, emphasis: Emphasis },
    Labels { max_len: usize },
    Author { text: Seq<char>, tint: Option<Color> },
    Age { color: Color },
}

impl DeepView for Piece {
    type V = PieceView;

    open spec fn deep_view(&self) -> PieceView {
        match *self {
            Piece::Lanes { recolor } => PieceView::Lanes { recolor },
            Piece::Text { text, color, emphasis } => PieceView::Text {
                text: text@,
                color,
                emphasis,
            },
            Piece::Labels { max_len } => PieceView::Labels { max_len },
            Piece::Author { text, tint } => PieceView::Author { text: text@, tint },
            Piece::Age { color } => PieceView::Age { color },
        }
    }
}

/// What stands inside the border of the list of commits.
pub enum ListBody {
    /// A remark in place of the commits.
    Remark { text: String, color: Color },
    /// The commits; each row is shown from character `h_scroll` on, as far as
    /// `max_width` goes.
    Rows { rows: Vec<Vec<Piece>>, h_scroll: usize, max_width: usize, selection_bg: Color },
}

/// What the body of the list holds.
#[verifier::ext_equal]
pub enum ListBodyView {
    Remark { text: Seq<char>, color: Color },
    Rows { rows: Seq<Seq<PieceView>>, h_scroll: usize, max_width: usize, selection_bg: Color },
}

impl DeepView for ListBody {
    type V = ListBodyView;

    open spec fn deep_view(&self) -> ListBodyView {
        match *self {
            ListBody::Remark { text, color } => ListBodyView::Remark { text: text@, color },
            ListBody::Rows { rows, h_scroll, max_width, selection_bg } => ListBodyView::Rows {
                rows: rows.deep_view(),
                h_scroll,
                max_width,
                selection_bg,
            },
        }
    }
}

/// The list of commits as it is shown.
pub struct ListPicture {
    pub area: Rect,
    pub title: String,
    pub border: Color,
    pub body: ListBody,
}

/// What the picture of the list holds.
#[verifier::ext_equal]
pub struct ListPictureView {
    pub area: Rect,
    pub title: Seq<char>,
    pub border: Color,
    pub body: ListBodyView,
}

impl DeepView for ListPicture {
    type V = ListPictureView;

    open spec fn deep_view(&self) -> ListPictureView {
        ListPictureView {
            area: self.area,
            title: self.title@,
            border: self.border,
            body: self.body.deep_view(),
        }
    }
}

/// A line of text in one colour.
pub struct ColoredLine {
    pub text: String,
    pub color: Color,
}

/// What a line holds.
#[verifier::ext_equal]
pub struct ColoredLineView {
    pub text: Seq<char>,
    pub color: Color,
}

impl DeepView for ColoredLine {
    type V = ColoredLineView;

    open spec fn deep_view(&self) -> ColoredLineView {
        ColoredLineView { text: self.text@, color: self.color }
    }
}

/// A file of a commit: its status, in a colour of its own, and its path.
pub struct FileLine {
    pub label: String,
    pub label_color: Color,
    pub path: String,
}

/// What a file's line holds.
#[verifier::ext_equal]
pub struct FileLineView {
    pub label: Seq<char>,
    pub label_color: Color,
    pub path: Seq<char>,
}

impl DeepView for FileLine {
    type V = FileLineView;

    open spec fn deep_view(&self) -> FileLineView {
        FileLineView { label: self.label@, label_color: self.label_color, path: self.path@ }
    }
}

/// The files of a commit as they are shown, under its message.
pub struct FilesPicture {
    pub title: String,
    pub msg_area: Rect,
    pub message: String,
    pub msg_scroll: u16,
    pub list_area: Rect,
    /// The files, or else what stands in place of them.
    pub files: Vec<FileLine>,
    pub remark: Option<String>,
}

/// What the picture of the files holds.
#[verifier::ext_equal]
pub struct FilesPictureView {
    pub title: Seq<char>,
    pub msg_area: Rect,
    pub message: Seq<char>,
    pub msg_scroll: u16,
    pub list_area: Rect,
    pub files: Seq<FileLineView>,
    pub remark: Option<Seq<char>>,
}

impl DeepView for FilesPicture {
    type V = FilesPictureView;

    open spec fn deep_view(&self) -> FilesPictureView {
        FilesPictureView {
            title: self.title@,
            msg_area: self.msg_area,
            message: self.message@,
            msg_scroll: self.msg_scroll,
            list_area: self.list_area,
            files: self.files.deep_view(),
            remark: self.remark.deep_view(),
        }
    }
}

/// The diff of a file as it is shown.
pub struct DiffPicture {
    pub area: Rect,
    pub title: String,
    pub lines: Vec<ColoredLine>,
    pub scroll: u16,
}

/// What the picture of the diff holds.
#[verifier::ext_equal]
pub struct DiffPictureView {
    pub area: Rect,
    pub title: Seq<char>,
    pub lines: Seq<ColoredLineView>,
    pub scroll: u16,
}

impl DeepView for DiffPicture {
    type V = DiffPictureView;

    open spec fn deep_view(&self) -> DiffPictureView {
        DiffPictureView {
            area: self.area,
            title: self.title@,
            lines: self.lines.deep_view(),
            scroll: self.scroll,
        }
    }
}

/// What is typed into the search, on top of the list.
pub struct Overlay {
    pub area: Rect,
    pub text: String,
}

/// What the overlay holds.
#[verifier::ext_equal]
pub struct OverlayView {
    pub area: Rect,
    pub text: Seq<char>,
}

impl DeepView for Overlay {
    type V = OverlayView;

    open spec fn deep_view(&self) -> OverlayView {
        OverlayView { area: self.area, text: self.text@ }
    }
}

/// All that the panel shows.
pub struct Picture {
    pub list: ListPicture,
    pub files: Option<FilesPicture>,
    pub diff: Option<DiffPicture>,
    pub overlay: Option<Overlay>,
}

/// What the picture holds.
#[verifier::ext_equal]
pub struct PictureView {
    pub list: ListPictureView,
    pub files: Option<FilesPictureView>,
    pub diff: Option<DiffPictureView>,
    pub overlay: Option<OverlayView>,
}

impl DeepView for Picture {
    type V = PictureView;

    open spec fn deep_view(&self) -> PictureView {
        PictureView {
            list: self.list.deep_view(),
            files: self.files.deep_view(),
            diff: self.diff.deep_view(),
            overlay: self.overlay.deep_view(),
        }
    }
}

// ---------------------------------------------------------------------------
// What is shown
// ---------------------------------------------------------------------------

/// How many of the names seen a filter lets through.
pub open spec fn filter_part(what: Seq<char>, chosen: nat, seen: nat) -> Seq<char> {
    what + decimal(chosen) + "/"@ + decimal(seen)
}

/// The colour of a file's status.
pub open spec fn status_color(status: Seq<char>, theme: GraphTheme) -> Color {
    if status == "M"@ {
        theme.commit_files_status_modified
    } else if status == "A"@ {
        theme.commit_files_status_added
    } else if status == "D"@ {
        theme.commit_files_status_deleted
    } else if status == "R"@ {
        theme.commit_files_status_renamed
    } else {
        theme.commit_files_status_other
    }
}

/// The colour of a line of a diff, which goes by how the line begins.
pub open spec fn diff_line_color(line: Seq<char>, theme: GraphTheme) -> Color {
    if begins_with(line, "+"@) && !begins_with(line, "+++"@) {
        theme.commit_diff_added
    } else if begins_with(line, "-"@) && !begins_with(line, "---"@) {
        theme.commit_diff_removed
    } else if begins_with(line, "@@"@) {
        theme.commit_diff_hunk
    } else if begins_with(line, "diff "@) || begins_with(line, "index "@) {
        theme.commit_diff_meta
    } else {
        theme.commit_diff_context
    }
}

/// How many bytes of a commit's id stand in a title.
pub open spec fn title_cut(oid: Seq<char>) -> int {
    if encode_utf8(oid).len() < 7 {
        encode_utf8(oid).len() as int
    } else {
        7
    }
}

/// How many lines a message takes: one at least.
pub open spec fn message_lines(message: Seq<char>) -> nat {
    if lines_of(message).len() == 0 {
        1
    } else {
        lines_of(message).len()
    }
}

/// How many rows are given to a message in an area of this height: two more than
/// its lines, up to a third of the area, but from three to eight in any case.
pub open spec fn message_height(message: Seq<char>, height: u16) -> u16 {
    let wanted = (message_lines(message) as u16) + 2;
    let fitting = if wanted < height / 3 {
        wanted
    } else {
        (height / 3) as int
    };
    if fitting < 3 {
        3
    } else if fitting > 8 {
        8
    } else {
        fitting as u16
    }
}

impl DetailView {
    /// The title can be worked out: the id can be cut.
    pub open spec fn drawable(self) -> bool {
        cuts_at(self.oid, title_cut(self.oid))
    }

    /// The files of the commit as they are shown.
    pub open spec fn files_picture(self, theme: GraphTheme) -> FilesPictureView {
        FilesPictureView {
            title: " Files — "@ + first_bytes(self.oid, title_cut(self.oid)) + " "@,
            msg_area: self.msg_area,
            message: self.message,
            msg_scroll: self.msg_scroll,
            list_area: self.file_list_area,
            files: Seq::new(
                self.files.len(),
                |i: int|
                    FileLineView {
                        label: " "@ + self.files[i].0 + " "@,
                        label_color: status_color(self.files[i].0, theme),
                        path: self.files[i].1,
                    },
            ),
            remark: if self.files.len() == 0 {
                Some("No files changed"@)
            } else {
                None
            },
        }
    }

    /// The lines of the diff as they are shown.
    pub open spec fn diff_lines(self, theme: GraphTheme) -> Seq<ColoredLineView> {
        let all = lines_of(self.diff_content->0);
        Seq::new(
            all.len(),
            |i: int| ColoredLineView { text: all[i], color: diff_line_color(all[i], theme) },
        )
    }
}

impl GraphView {
    /// What the filters let through, in words.
    pub open spec fn filter_summary(self) -> Option<Seq<char>> {
        let branches = self.options.filters.branches;
        let authors = self.options.filters.authors;
        let b = filter_part("branches "@, branches->0.len(), self.filter_branches.len());
        let a = filter_part("authors "@, authors->0.len(), self.filter_authors.len());
        if branches is Some && authors is Some {
            Some(" ["@ + b + ", "@ + a + "]"@)
        } else if branches is Some {
            Some(" ["@ + b + "]"@)
        } else if authors is Some {
            Some(" ["@ + a + "]"@)
        } else {
            None
        }
    }

    /// The title of the list: the repository, what is left out, and the filters.
    pub open spec fn list_title(self) -> Seq<char> {
        let mode = if self.options.first_parent {
            " [1st-parent]"@
        } else {
            Seq::empty()
        };
        let collapsed = if self.collapsed.len() > 0 {
            " ("@ + decimal(self.collapsed.len()) + " collapsed)"@
        } else {
            Seq::empty()
        };
        let summary = match self.filter_summary() {
            Some(s) => s,
            None => Seq::empty(),
        };
        " Git Graph — "@ + self.repo_name + mode + collapsed + " "@ + summary
    }

    /// Row `i` does not match the search under way.
    pub open spec fn dimmed(self, i: int) -> bool {
        self.search.input.len() > 0 && self.search.matches.len() > 0
            && !self.search.matches.contains(i as usize)
    }

    /// The pieces of row `i`, which is `row`.
    pub open spec fn row_pieces(self, i: int, row: GraphRowView) -> Seq<PieceView> {
        let t = self.theme.graph;
        let dim = self.dimmed(i);
        if row.collapsed is Some {
            seq![
                PieceView::Lanes { recolor: Some(t.dimmed) },
                PieceView::Text {
                    text: row.message,
                    color: t.collapsed_message,
                    emphasis: Emphasis::Italic,
                },
            ]
        } else if dim {
            seq![
                PieceView::Lanes { recolor: Some(t.dimmed) },
                PieceView::Text {
                    text: row.short_id + " "@,
                    color: t.dimmed,
                    emphasis: Emphasis::Plain,
                },
                PieceView::Text { text: row.message, color: t.dimmed, emphasis: Emphasis::Plain },
                PieceView::Author { text: "  — "@ + row.author, tint: Some(t.dimmed) },
                PieceView::Age { color: t.time },
            ]
        } else {
            let plain = seq![
                PieceView::Lanes { recolor: None },
                PieceView::Text {
                    text: row.short_id + " "@,
                    color: t.commit_id,
                    emphasis: Emphasis::Bold,
                },
                PieceView::Labels { max_len: self.options.label_max_len },
                PieceView::Text {
                    text: row.message,
                    color: if row.is_merge {
                        t.merge_message
                    } else {
                        t.commit_message
                    },
                    emphasis: Emphasis::Plain,
                },
                PieceView::Author { text: "  — "@ + row.author, tint: None },
                PieceView::Age { color: t.time },
            ];
            let added = match row.diff_stat {
                Some(stat) if stat.additions > 0 => seq![
                    PieceView::Text {
                        text: " +"@ + decimal(stat.additions as nat),
                        color: t.addition,
                        emphasis: Emphasis::Plain,
                    },
                ],
                _ => Seq::empty(),
            };
            let removed = match row.diff_stat {
                Some(stat) if stat.deletions > 0 => seq![
                    PieceView::Text {
                        text: " -"@ + decimal(stat.deletions as nat),
                        color: t.deletion,
                        emphasis: Emphasis::Plain,
                    },
                ],
                _ => Seq::empty(),
            };
            plain + added + removed
        }
    }

    /// What stands inside the border of the list: a remark while the graph
    /// loads, after an error and where there are no commits; else the commits.
    pub open spec fn list_body(self) -> ListBodyView {
        let t = self.theme.graph;
        let shown = self.display_rows();
        if self.loading {
            ListBodyView::Remark { text: "Loading graph..."@, color: t.loading }
        } else if self.error is Some {
            ListBodyView::Remark { text: self.error->0, color: t.error_text }
        } else if shown.len() == 0 {
            ListBodyView::Remark { text: "No commits"@, color: t.empty }
        } else {
            let width = self.graph_list_area.width;
            ListBodyView::Rows {
                rows: Seq::new(shown.len(), |i: int| self.row_pieces(i, shown[i])),
                h_scroll: self.h_scroll,
                max_width: if width >= 2 {
                    (width - 2) as usize
                } else {
                    0
                },
                selection_bg: t.selection_bg,
            }
        }
    }

    /// The list of commits as it is shown.
    pub open spec fn list_picture(self) -> ListPictureView {
        ListPictureView {
            area: self.graph_list_area,
            title: self.list_title(),
            border: if self.focused && self.detail is None {
                self.theme.graph.border_focused
            } else {
                self.theme.graph.border_unfocused
            },
            body: self.list_body(),
        }
    }

    /// What is typed into the search, and which of how many matches is reached.
    pub open spec fn overlay_text(self) -> Seq<char> {
        let reached: nat = match self.search.current_match {
            Some(i) => (i + 1) as nat,
            None => 0,
        };
        let info = if self.search.input.len() == 0 {
            Seq::empty()
        } else {
            " "@ + decimal(reached) + "/"@ + decimal(self.search.matches.len())
        };
        " / "@ + self.search.input + info + " "@
    }

    /// The place of the search, in the last row of the list, can be worked out.
    pub open spec fn overlay_fits(self, y: u16, height: u16) -> bool {
        self.search.visible ==> {
            &&& y + height - 1 <= u16::MAX
            &&& (encode_utf8(self.overlay_text()).len() as u16) + 2 <= u16::MAX
        }
    }

    /// Where the search is shown.
    pub open spec fn overlay_area(self) -> Rect {
        let list = self.graph_list_area;
        let wanted = (encode_utf8(self.overlay_text()).len() as u16) + 2;
        let y = if list.height > 0 {
            (list.y + list.height - 1) as u16
        } else {
            list.y
        };
        let width = if wanted < list.width {
            wanted as u16
        } else {
            list.width
        };
        Rect {
            x: list.x,
            y,
            width: (crate::screen::capped(list.x, width) - list.x) as u16,
            height: (crate::screen::capped(y, 1) - y) as u16,
        }
    }

    /// All that the panel shows, in the areas that it has.
    pub open spec fn picture(self) -> PictureView {
        PictureView {
            list: self.list_picture(),
            files: match self.detail {
                Some(d) => Some(d.files_picture(self.theme.graph)),
                None => None,
            },
            diff: match self.detail {
                Some(d) if d.diff_content is Some => Some(
                    DiffPictureView {
                        area: self.diff_area,
                        title: " Commit Diff (Esc to close) "@,
                        lines: d.diff_lines(self.theme.graph),
                        scroll: d.diff_scroll,
                    },
                ),
                _ => None,
            },
            overlay: if self.search.visible {
                Some(OverlayView { area: self.overlay_area(), text: self.overlay_text() })
            } else {
                None
            },
        }
    }

    // -----------------------------------------------------------------------
    // Where it is shown
    // -----------------------------------------------------------------------

    /// Which way the panel is divided while a commit is looked at.
    pub open spec fn direction(self) -> Direction {
        if self.horizontal_layout {
            Direction::Vertical
        } else {
            Direction::Horizontal
        }
    }

    /// How the panel is divided while a commit is looked at: half and half, or
    /// in three parts when a diff is open.
    pub open spec fn panel_constraints(self) -> Seq<Constraint> {
        if self.detail matches Some(d) && d.diff_content is Some {
            seq![
                Constraint::Percentage(40),
                Constraint::Percentage(25),
                Constraint::Percentage(35),
            ]
        } else {
            seq![Constraint::Percentage(50), Constraint::Percentage(50)]
        }
    }

    /// The parts of the panel while a commit is looked at: for the graph, for the
    /// files and, where one is open, for the diff.
    pub open spec fn chunks(self, area: Rect) -> Seq<Rect> {
        shared(area, self.direction(), self.panel_constraints())
    }

    /// The parts for the message and for the list of files.
    pub open spec fn file_parts(self, area: Rect) -> Seq<Rect> {
        let files = self.chunks(area)[1];
        in_two(files, Direction::Vertical, message_height(self.detail->0.message, files.height), 3)
    }

    /// The panel in `area`, divided into `chunks` and `parts`.
    pub open spec fn arranged(self, area: Rect, chunks: Seq<Rect>, parts: Seq<Rect>) -> GraphView {
        match self.detail {
            Some(d) => GraphView {
                render_area: area,
                graph_list_area: chunks[0],
                files_area: chunks[1],
                diff_area: if d.diff_content is Some {
                    chunks[2]
                } else {
                    Rect::nowhere()
                },
                detail: Some(
                    DetailView { msg_area: parts[0], file_list_area: parts[1], ..d },
                ),
                ..self
            },
            None => GraphView {
                render_area: area,
                graph_list_area: area,
                files_area: Rect::nowhere(),
                diff_area: Rect::nowhere(),
                ..self
            },
        }
    }
}

// ---------------------------------------------------------------------------
// Working it out
// ---------------------------------------------------------------------------

fn push_piece(pieces: &mut Vec<Piece>, piece: Piece)
    ensures
        final(pieces).deep_view() == old(pieces).deep_view().push(piece.deep_view()),
{
    pieces.push(piece);
    assert(pieces.deep_view() =~= old(pieces).deep_view().push(piece.deep_view()));
}

fn plain_text(text: String, color: Color) -> (r: Piece)
    ensures
        r.deep_view() == (PieceView::Text { text: text@, color, emphasis: Emphasis::Plain }),
{
    Piece::Text { text, color, emphasis: Emphasis::Plain }
}

/// A sign and a number behind it.
fn signed(sign: &str, n: usize) -> (r: String)
    ensures
        r@ == sign@ + decimal(n as nat),
{
    let mut out = String::from_str(sign);
    push_number(&mut out, n as u64);
    out
}

fn filter_count(what: &str, chosen: usize, seen: usize) -> (r: String)
    ensures
        r@ == filter_part(what@, chosen as nat, seen as nat),
{
    let mut out = String::from_str(what);
    push_number(&mut out, chosen as u64);
    out.append("/");
    push_number(&mut out, seen as u64);
    out
}

/// Whether `list` holds `n`.
fn holds(list: &Vec<usize>, n: usize) -> (r: bool)
    ensures
        r == list@.contains(n),
{
    let mut i: usize = 0;
    while i < list.len()
        invariant
            i <= list@.len(),
            forall|j: int| 0 <= j < i ==> list@[j] != n,
        decreases list@.len() - i,
    {
        if list[i] == n {
            return true;
        }
        i = i + 1;
    }
    false
}

/// The colour of a file's status.
pub fn color_of_status(status: &str, theme: &GraphTheme) -> (r: Color)
    ensures
        r == status_color(status@, *theme),
{
    if same_text(status, "M") {
        theme.commit_files_status_modified
    } else if same_text(status, "A") {
        theme.commit_files_status_added
    } else if same_text(status, "D") {
        theme.commit_files_status_deleted
    } else if same_text(status, "R") {
        theme.commit_files_status_renamed
    } else {
        theme.commit_files_status_other
    }
}

/// The colour of a line of a diff.
pub fn color_of_diff_line(line: &str, theme: &GraphTheme) -> (r: Color)
    ensures
        r == diff_line_color(line@, *theme),
{
    if starts_with(line, "+") && !starts_with(line, "+++") {
        theme.commit_diff_added
    } else if starts_with(line, "-") && !starts_with(line, "---") {
        theme.commit_diff_removed
    } else if starts_with(line, "@@") {
        theme.commit_diff_hunk
    } else if starts_with(line, "diff ") || starts_with(line, "index ") {
        theme.commit_diff_meta
    } else {
        theme.commit_diff_context
    }
}

/// How a message of a commit and the list of its files share a part of the panel:
/// the message takes its lines and a border, as far as a third of the height and
/// eight rows go, and the list the rest.
pub fn files_layout(message: &str, height: u16) -> (r: Vec<Constraint>)
    ensures
        r@ == seq![Constraint::Length(message_height(message@, height)), Constraint::Min(3)],
{
    let all = lines(message);
    let count: usize = if all.len() == 0 {
        1
    } else {
        all.len()
    };
    assert(count == message_lines(message@));
    let wanted: u32 = count as u16 as u32 + 2;
    let third: u32 = height as u32 / 3;
    let fitting: u32 = if wanted < third {
        wanted
    } else {
        third
    };
    let rows: u16 = if fitting < 3 {
        3
    } else if fitting > 8 {
        8
    } else {
        fitting as u16
    };
    let r = vec![Constraint::Length(rows), Constraint::Min(3)];
    assert(r@ =~= seq![Constraint::Length(rows), Constraint::Min(3)]);
    r
}

impl CommitDetail {
    /// The files of the commit as they are shown.
    fn draw_commit_files(&self, theme: &GraphTheme) -> (r: FilesPicture)
        requires
            self.deep_view().drawable(),
        ensures
            r.deep_view() == self.deep_view().files_picture(*theme),
    {
        let id_len: usize = byte_len(self.oid.as_str());
        let cut: usize = if id_len < 7 {
            id_len
        } else {
            7
        };
        let mut title = String::from_str(" Files — ");
        let id = take_bytes(self.oid.as_str(), cut);
        title.append(id.as_str());
        title.append(" ");
        let ghost want = self.deep_view().files_picture(*theme);
        let mut out: Vec<FileLine> = Vec::new();
        let mut i: usize = 0;
        while i < self.files.len()
            invariant
                i <= self.files@.len(),
                want == self.deep_view().files_picture(*theme),
                out.deep_view() =~= want.files.take(i as int),
            decreases self.files@.len() - i,
        {
            let file = &self.files[i];
            let mut label = String::from_str(" ");
            label.append(file.0.as_str());
            label.append(" ");
            let label_color = color_of_status(file.0.as_str(), theme);
            let line = FileLine { label, label_color, path: file.1.clone() };
            let ghost before = out.deep_view();
            assert(self.files.deep_view()[i as int] == file.deep_view());
            assert(line.deep_view() == want.files[i as int]);
            out.push(line);
            assert(out.deep_view() =~= before.push(line.deep_view()));
            i = i + 1;
        }
        FilesPicture {
            title,
            msg_area: self.msg_area,
            message: self.message.clone(),
            msg_scroll: self.msg_scroll,
            list_area: self.file_list_area,
            remark: if self.files.len() == 0 {
                Some(String::from_str("No files changed"))
            } else {
                None
            },
            files: out,
        }
    }

    /// The diff as it is shown.
    fn draw_commit_diff(&self, area: Rect, theme: &GraphTheme) -> (r: Option<DiffPicture>)
        ensures
            r.deep_view() == if self.deep_view().diff_content is Some {
                Some(
                    DiffPictureView {
                        area,
                        title: " Commit Diff (Esc to close) "@,
                        lines: self.deep_view().diff_lines(*theme),
                        scroll: self.diff_scroll,
                    },
                )
            } else {
                None
            },
    {
        let content = match &self.diff_content {
            Some(c) => c,
            None => return None,
        };
        let all = lines(content.as_str());
        let ghost want = self.deep_view().diff_lines(*theme);
        let mut out: Vec<ColoredLine> = Vec::new();
        let mut i: usize = 0;
        while i < all.len()
            invariant
                i <= all@.len(),
                want == self.deep_view().diff_lines(*theme),
                self.deep_view().diff_content is Some,
                all.deep_view() == lines_of(self.deep_view().diff_content->0),
                out.deep_view() =~= want.take(i as int),
            decreases all@.len() - i,
        {
            let color = color_of_diff_line(all[i].as_str(), theme);
            let line = ColoredLine { text: all[i].clone(), color };
            let ghost before = out.deep_view();
            assert(all.deep_view()[i as int] == all@[i as int]@);
            assert(line.deep_view() == want[i as int]);
            out.push(line);
            assert(out.deep_view() =~= before.push(line.deep_view()));
            i = i + 1;
        }
        Some(
            DiffPicture {
                area,
                title: String::from_str(" Commit Diff (Esc to close) "),
                lines: out,
                scroll: self.diff_scroll,
            },
        )
    }
}

impl GitGraph {
    /// What the filters let through, in words.
    pub fn filter_summary(&self) -> (r: Option<String>)
        ensures
            r.deep_view() == self@.filter_summary(),
    {
        let mut out = String::from_str(" [");
        let mut some = false;
        if let Some(branches) = &self.graph_options.filters.branches {
            let part = filter_count("branches ", branches.len(), self.filter_branches.len());
            out.append(part.as_str());
            some = true;
        }
        if let Some(authors) = &self.graph_options.filters.authors {
            if some {
                out.append(", ");
            }
            let part = filter_count("authors ", authors.len(), self.filter_authors.len());
            out.append(part.as_str());
            some = true;
        }
        if !some {
            return None;
        }
        out.append("]");
        Some(out)
    }

    /// The title of the list.
    fn list_title(&self) -> (r: String)
        ensures
            r@ == self@.list_title(),
    {
        let mut title = String::from_str(" Git Graph — ");
        title.append(self.repo_name.as_str());
        if self.graph_options.first_parent {
            title.append(" [1st-parent]");
        }
        let count: usize = self.collapsed_branches.len();
        if count > 0 {
            title.append(" (");
            push_number(&mut title, count as u64);
            title.append(" collapsed)");
        }
        title.append(" ");
        if let Some(summary) = self.filter_summary() {
            title.append(summary.as_str());
        }
        assert(title@ =~= self@.list_title());
        title
    }

    /// The pieces of row `i` of those shown.
    fn row_pieces(&self, i: usize) -> (r: Vec<Piece>)
        requires
            i < self@.display_rows().len(),
        ensures
            r.deep_view() == self@.row_pieces(i as int, self@.display_rows()[i as int]),
    {
        let rows = self.display_rows();
        let row = &rows[i];
        assert(rows.deep_view()[i as int] == row.deep_view());
        let t = &self.theme.graph;
        let has_search = !self.search.input.as_str().is_empty() && self.search.matches.len() > 0;
        let dimmed = has_search && !holds(&self.search.matches, i);
        let mut out: Vec<Piece> = Vec::new();
        if row.collapsed.is_some() {
            push_piece(&mut out, Piece::Lanes { recolor: Some(t.dimmed) });
            push_piece(
                &mut out,
                Piece::Text {
                    text: row.message.clone(),
                    color: t.collapsed_message,
                    emphasis: Emphasis::Italic,
                },
            );
            assert(out.deep_view() =~= self@.row_pieces(i as int, row.deep_view()));
            return out;
        }
        let mut id = row.short_id.clone();
        id.append(" ");
        let mut author = String::from_str("  — ");
        author.append(row.author.as_str());
        if dimmed {
            push_piece(&mut out, Piece::Lanes { recolor: Some(t.dimmed) });
            push_piece(&mut out, plain_text(id, t.dimmed));
            push_piece(&mut out, plain_text(row.message.clone(), t.dimmed));
            push_piece(&mut out, Piece::Author { text: author, tint: Some(t.dimmed) });
            push_piece(&mut out, Piece::Age { color: t.time });
            assert(out.deep_view() =~= self@.row_pieces(i as int, row.deep_view()));
            return out;
        }
        push_piece(&mut out, Piece::Lanes { recolor: None });
        push_piece(
            &mut out,
            Piece::Text { text: id, color: t.commit_id, emphasis: Emphasis::Bold },
        );
        push_piece(&mut out, Piece::Labels { max_len: self.graph_options.label_max_len });
        let msg_color = if row.is_merge {
            t.merge_message
        } else {
            t.commit_message
        };
        push_piece(&mut out, plain_text(row.message.clone(), msg_color));
        push_piece(&mut out, Piece::Author { text: author, tint: None });
        push_piece(&mut out, Piece::Age { color: t.time });
        if let Some(stat) = row.diff_stat {
            if stat.additions > 0 {
                push_piece(&mut out, plain_text(signed(" +", stat.additions), t.addition));
            }
            if stat.deletions > 0 {
                push_piece(&mut out, plain_text(signed(" -", stat.deletions), t.deletion));
            }
        }
        assert(out.deep_view() =~= self@.row_pieces(i as int, row.deep_view()));
        out
    }

    /// What stands inside the border of the list.
    fn list_body(&self) -> (r: ListBody)
        ensures
            r.deep_view() == self@.list_body(),
    {
        let t = &self.theme.graph;
        if self.loading {
            return ListBody::Remark {
                text: String::from_str("Loading graph..."),
                color: t.loading,
            };
        }
        if let Some(err) = &self.error {
            return ListBody::Remark { text: err.clone(), color: t.error_text };
        }
        let len: usize = self.display_rows().len();
        assert(len == self@.display_rows().len());
        if len == 0 {
            return ListBody::Remark { text: String::from_str("No commits"), color: t.empty };
        }
        let ghost want = Seq::new(
            len as nat,
            |i: int| self@.row_pieces(i, self@.display_rows()[i]),
        );
        let mut rows: Vec<Vec<Piece>> = Vec::new();
        let mut i: usize = 0;
        while i < len
            invariant
                i <= len,
                len == self@.display_rows().len(),
                want == Seq::new(
                    len as nat,
                    |i: int| self@.row_pieces(i, self@.display_rows()[i]),
                ),
                rows.deep_view() =~= want.take(i as int),
            decreases len - i,
        {
            let pieces = self.row_pieces(i);
            let ghost before = rows.deep_view();
            assert(pieces.deep_view() == want[i as int]);
            rows.push(pieces);
            assert(rows.deep_view() =~= before.push(pieces.deep_view()));
            i = i + 1;
        }
        assert(rows.deep_view() =~= want);
        ListBody::Rows {
            rows,
            h_scroll: self.h_scroll,
            max_width: self.graph_list_area.width.saturating_sub(2) as usize,
            selection_bg: t.selection_bg,
        }
    }

    /// The list of commits as it is shown.
    pub fn draw_graph_list(&self) -> (r: ListPicture)
        ensures
            r.deep_view() == self@.list_picture(),
    {
        let border = if self.focused && self.commit_detail.is_none() {
            self.theme.graph.border_focused
        } else {
            self.theme.graph.border_unfocused
        };
        ListPicture {
            area: self.graph_list_area,
            title: self.list_title(),
            border,
            body: self.list_body(),
        }
    }

    /// The search as it is shown.
    fn draw_overlay(&self) -> (r: Overlay)
        requires
            self@.wf(),
            self@.search.visible,
            self@.overlay_fits(self.graph_list_area.y, self.graph_list_area.height),
        ensures
            r.deep_view() == (OverlayView {
                area: self@.overlay_area(),
                text: self@.overlay_text(),
            }),
    {
        let mut text = String::from_str(" / ");
        text.append(self.search.input.as_str());
        let total: usize = self.search.matches.len();
        if !self.search.input.as_str().is_empty() {
            let current: usize = match self.search.current_match {
                Some(i) => i + 1,
                None => 0,
            };
            text.append(" ");
            push_number(&mut text, current as u64);
            text.append("/");
            push_number(&mut text, total as u64);
        }
        text.append(" ");
        assert(text@ =~= self@.overlay_text());
        let wanted: u16 = byte_len(text.as_str()) as u16 + 2;
        let list = &self.graph_list_area;
        let width: u16 = if wanted < list.width {
            wanted
        } else {
            list.width
        };
        let area = Rect::new(list.x, list.y + list.height.saturating_sub(1), width, 1);
        Overlay { area, text }
    }

    /// Gives the panel and its parts their places.
    pub fn arrange(&mut self, area: Rect, chunks: &Vec<Rect>, parts: &Vec<Rect>)
        requires
            old(self)@.wf(),
            old(self)@.detail matches Some(d) ==> chunks@.len() == (if d.diff_content is Some {
                3nat
            } else {
                2
            }) && parts@.len() == 2,
        ensures
            final(self)@ == old(self)@.arranged(area, chunks@, parts@),
            final(self)@.wf(),
    {
        self.render_area = area;
        match &mut self.commit_detail {
            Some(detail) => {
                self.graph_list_area = chunks[0];
                self.files_area = chunks[1];
                self.diff_area = if detail.diff_content.is_some() {
                    chunks[2]
                } else {
                    Rect::empty()
                };
                detail.msg_area = parts[0];
                detail.file_list_area = parts[1];
            },
            None => {
                self.graph_list_area = area;
                self.files_area = Rect::empty();
                self.diff_area = Rect::empty();
            },
        }
    }

    /// All that the panel shows, in the areas that it has.
    pub fn picture(&self) -> (r: Picture)
        requires
            self@.wf(),
            self@.overlay_fits(self.graph_list_area.y, self.graph_list_area.height),
            self@.detail matches Some(d) ==> d.drawable(),
        ensures
            r.deep_view() == self@.picture(),
    {
        let list = self.draw_graph_list();
        let theme = &self.theme.graph;
        let files = match &self.commit_detail {
            Some(detail) => Some(detail.draw_commit_files(theme)),
            None => None,
        };
        let diff = match &self.commit_detail {
            Some(detail) => detail.draw_commit_diff(self.diff_area, theme),
            None => None,
        };
        let overlay = if self.search.visible {
            Some(self.draw_overlay())
        } else {
            None
        };
        Picture { list, files, diff, overlay }
    }

    /// Which way the panel is divided while a commit is looked at.
    pub fn panel_direction(&self) -> (r: Direction)
        ensures
            r == self@.direction(),
    {
        if self.horizontal_layout {
            Direction::Vertical
        } else {
            Direction::Horizontal
        }
    }

    /// How the panel is divided while a commit is looked at.
    pub fn panel_layout(&self) -> (r: Vec<Constraint>)
        ensures
            r@ == self@.panel_constraints(),
    {
        let with_diff = match &self.commit_detail {
            Some(detail) => detail.diff_content.is_some(),
            None => false,
        };
        let r = if with_diff {
            vec![
                Constraint::Percentage(40),
                Constraint::Percentage(25),
                Constraint::Percentage(35),
            ]
        } else {
            vec![Constraint::Percentage(50), Constraint::Percentage(50)]
        };
        assert(r@ =~= self@.panel_constraints());
        r
    }

    /// Divides `area` among the parts of the panel, and says what they show.
    pub fn draw(&mut self, area: Rect) -> (r: Picture)
        requires
            old(self)@.wf(),
            old(self)@.overlay_fits(area.y, area.height),
            old(self)@.detail matches Some(d) ==> d.drawable(),
        ensures
            final(self)@ == old(self)@.arranged(
                area,
                old(self)@.chunks(area),
                old(self)@.file_parts(area),
            ),
            r.deep_view() == final(self)@.picture(),
            final(self)@.wf(),
    {
        let mut chunks: Vec<Rect> = Vec::new();
        let mut parts: Vec<Rect> = Vec::new();
        if let Some(detail) = &self.commit_detail {
            let constraints = self.panel_layout();
            chunks = split(self.panel_direction(), &constraints, area);
            let rows = files_layout(detail.message.as_str(), chunks[1].height);
            parts = split(Direction::Vertical, &rows, chunks[1]);
            proof {
                reveal_with_fuel(percent, 4);
                assert(shares(constraints@));
                assert(parts@ == self@.file_parts(area));
            }
        }
        self.arrange(area, &chunks, &parts);
        self.picture()
    }
}

/// While a commit is looked at, the panel is divided half and half, or 40, 25 and 35
/// percent when a diff is open, each border at the nearest cell: the parts follow
/// on one another and fill the area.
pub proof fn law_panels_share_the_area(graph: GraphView, area: Rect)
    requires
        graph.detail is Some,
    ensures
        ({
            let way = graph.direction();
            let len = length(way, area);
            graph.chunks(area) == if graph.detail->0.diff_content is Some {
                let first = (40 * len + 50) / 100;
                let second = (65 * len + 50) / 100;
                seq![
                    slice(area, way, 0, first),
                    slice(area, way, first, second),
                    slice(area, way, second, len),
                ]
            } else {
                let half = (50 * len + 50) / 100;
                seq![slice(area, way, 0, half), slice(area, way, half, len)]
            }
        }),
{
    reveal_with_fuel(percent, 4);
    let len = length(graph.direction(), area);
    assert((len * 0 + 50) / 100 == 0);
    assert((len * 100 + 50) / 100 == len);
    assert(len * 40 == 40 * len && len * 65 == 65 * len && len * 50 == 50 * len);
    if graph.detail->0.diff_content is Some {
        let c = graph.panel_constraints();
        assert(percent(c, 0) == 0 && percent(c, 1) == 40 && percent(c, 2) == 65 && percent(c, 3)
            == 100);
    } else {
        let c = graph.panel_constraints();
        assert(percent(c, 0) == 0 && percent(c, 1) == 50 && percent(c, 2) == 100);
    }
}

} // verus!
