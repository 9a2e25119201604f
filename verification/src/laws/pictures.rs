//! What is drawn: texts, colours and areas.
use vstd::prelude::*;
use vstd::string::*;
use vstd::utf8::*;

use crate::app::diff::short_id;
use crate::git_graph::{DetailView, GraphView};
use crate::git_graph::draw::{
    diff_line_color, message_height, status_color, Emphasis, ListBodyView, PieceView,
};
use crate::model::GraphRowView;
use crate::repo_list::RepoEntryView;
use crate::repo_list::render::repo_row;
use crate::screen::{Direction, GraphTheme, Rect};
use crate::text::{decimal, first_bytes, lines_of};

verus! {

/// A changed file is marked by what was done to it: modified, added, deleted, renamed,
/// or something else.
pub proof fn law_files_are_marked_by_status(status: Seq<char>, theme: GraphTheme)
    ensures
        status_color("M"@, theme) == theme.commit_files_status_modified,
        status_color("A"@, theme) == theme.commit_files_status_added,
        status_color("D"@, theme) == theme.commit_files_status_deleted,
        status_color("R"@, theme) == theme.commit_files_status_renamed,
        status != seq!['M'] && status != seq!['A'] && status != seq!['D'] && status != seq!['R']
            ==> status_color(status, theme) == theme.commit_files_status_other,
{
    reveal_strlit("M");
    reveal_strlit("A");
    reveal_strlit("D");
    reveal_strlit("R");
    assert("M"@ =~= seq!['M'] && "A"@ =~= seq!['A'] && "D"@ =~= seq!['D'] && "R"@ =~= seq!['R']);
    assert("M"@[0] != "A"@[0] && "M"@[0] != "D"@[0] && "M"@[0] != "R"@[0]);
    assert("A"@[0] != "D"@[0] && "A"@[0] != "R"@[0] && "D"@[0] != "R"@[0]);
}

/// A line of a diff has the colour of what it tells: a line that came or went, unless it
/// names a file; the head of a hunk; and lines of the surroundings.
pub proof fn law_diff_lines_are_colored(line: Seq<char>, theme: GraphTheme)
    requires
        line.len() >= 3,
    ensures
        line[0] == '+' && !(line[1] == '+' && line[2] == '+') ==> diff_line_color(line, theme)
            == theme.commit_diff_added,
        line[0] == '-' && !(line[1] == '-' && line[2] == '-') ==> diff_line_color(line, theme)
            == theme.commit_diff_removed,
        line[0] == '@' && line[1] == '@' ==> diff_line_color(line, theme) == theme.commit_diff_hunk,
        line.len() >= 5 && line.take(5) == "diff "@ ==> diff_line_color(line, theme)
            == theme.commit_diff_meta,
        line.len() >= 6 && line.take(6) == "index "@ ==> diff_line_color(line, theme)
            == theme.commit_diff_meta,
        line[0] == ' ' ==> diff_line_color(line, theme) == theme.commit_diff_context,
        line[0] == line[1] && line[1] == line[2] && (line[0] == '+' || line[0] == '-')
            ==> diff_line_color(line, theme) == theme.commit_diff_context,
{
    reveal_strlit("+");
    reveal_strlit("-");
    reveal_strlit("+++");
    reveal_strlit("---");
    reveal_strlit("@@");
    reveal_strlit("diff ");
    reveal_strlit("index ");
    assert(line.take(1) =~= seq![line[0]]);
    assert(line.take(2) =~= seq![line[0], line[1]]);
    assert(line.take(3) =~= seq![line[0], line[1], line[2]]);
    assert("+"@ =~= seq!['+'] && "-"@ =~= seq!['-'] && "@@"@ =~= seq!['@', '@']);
    assert("+++"@ =~= seq!['+', '+', '+'] && "---"@ =~= seq!['-', '-', '-']);
    assert(seq![line[0]][0] == line[0]);
    assert(seq![line[0], line[1]][0] == line[0] && seq![line[0], line[1]][1] == line[1]);
    assert(seq![line[0], line[1], line[2]][0] == line[0] && seq![line[0], line[1], line[2]][1]
        == line[1] && seq![line[0], line[1], line[2]][2] == line[2]);
    if line.len() >= 5 {
        assert(line.take(5)[0] == line[0]);
        assert("diff "@[0] == 'd');
    }
    if line.len() >= 6 {
        assert(line.take(6)[0] == line[0]);
        assert("index "@[0] == 'i');
    }
}

/// A line of one character that came or went has its colour too, and an empty line that
/// of the surroundings.
pub proof fn law_short_diff_lines_are_colored(theme: GraphTheme)
    ensures
        diff_line_color(seq!['+'], theme) == theme.commit_diff_added,
        diff_line_color(seq!['-'], theme) == theme.commit_diff_removed,
        diff_line_color(Seq::empty(), theme) == theme.commit_diff_context,
{
    reveal_strlit("+");
    reveal_strlit("-");
    reveal_strlit("+++");
    reveal_strlit("---");
    reveal_strlit("@@");
    reveal_strlit("diff ");
    reveal_strlit("index ");
    assert(seq!['+'].take(1) =~= "+"@);
    assert(seq!['-'].take(1) =~= "-"@);
    assert(seq!['-'].take(1)[0] != "+"@[0]);
}

/// The bytes of an id of plain characters are its characters.
pub proof fn law_plain_ids_are_cut_by_characters(oid: Seq<char>, n: int)
    requires
        is_ascii_chars(oid),
        0 <= n <= oid.len(),
    ensures
        first_bytes(oid, n) == oid.take(n),
        encode_utf8(oid).len() == oid.len(),
{
    is_ascii_chars_encode_utf8(oid);
    is_ascii_chars_encode_utf8(oid.take(n));
    assert forall|i: int| 0 <= i < n implies encode_utf8(oid)[i] == #[trigger] encode_utf8(
        oid.take(n),
    )[i] by {
        assert(oid[i] == oid.take(n)[i]);
    }
    assert(encode_utf8(oid).subrange(0, n) =~= encode_utf8(oid.take(n)));
    encode_utf8_decode_utf8(oid.take(n));
}

/// A commit is called by the first seven characters of its id; an id that is shorter is
/// given whole.
pub proof fn law_commits_are_called_by_short_ids(oid: Seq<char>)
    requires
        is_ascii_chars(oid),
    ensures
        oid.len() >= 7 ==> short_id(oid) == oid.take(7),
        oid.len() < 7 ==> short_id(oid) == oid,
{
    is_ascii_chars_encode_utf8(oid);
    if oid.len() >= 7 {
        law_plain_ids_are_cut_by_characters(oid, 7);
    }
}

/// The files of a commit are shown under its short id and below its message, each with
/// its status and its path, and where there are none that is said.
pub proof fn law_files_of_a_commit_are_shown(detail: DetailView, theme: GraphTheme, k: int)
    requires
        is_ascii_chars(detail.oid),
    ensures
        ({
            let picture = detail.files_picture(theme);
            let id = if detail.oid.len() < 7 {
                detail.oid
            } else {
                detail.oid.take(7)
            };
            &&& picture.title == " Files — "@ + id + " "@
            &&& picture.message == detail.message
            &&& picture.msg_scroll == detail.msg_scroll
            &&& picture.msg_area == detail.msg_area
            &&& picture.list_area == detail.file_list_area
            &&& picture.files.len() == detail.files.len()
            &&& 0 <= k < detail.files.len() ==> {
                &&& picture.files[k].path == detail.files[k].1
                &&& picture.files[k].label == " "@ + detail.files[k].0 + " "@
                &&& picture.files[k].label_color == status_color(detail.files[k].0, theme)
            }
            &&& detail.files.len() == 0 ==> picture.remark == Some("No files changed"@)
            &&& detail.files.len() > 0 ==> picture.remark is None
        }),
{
    is_ascii_chars_encode_utf8(detail.oid);
    if detail.oid.len() >= 7 {
        law_plain_ids_are_cut_by_characters(detail.oid, 7);
    } else {
        law_plain_ids_are_cut_by_characters(detail.oid, detail.oid.len() as int);
        assert(detail.oid.take(detail.oid.len() as int) =~= detail.oid);
    }
}

/// Each part of the panel is shown exactly when there is something in it: the files while
/// a commit is looked at, the diff while one is open, line by line, and the search while
/// it is open.
pub proof fn law_parts_are_shown_when_open(graph: GraphView, k: int)
    ensures
        ({
            let picture = graph.picture();
            &&& picture.files is Some <==> graph.detail is Some
            &&& picture.diff is Some <==> graph.detail is Some && graph.detail->0.diff_content
                is Some
            &&& picture.overlay is Some <==> graph.search.visible
            &&& picture.list.area == graph.graph_list_area
            &&& picture.list.border == if graph.focused && graph.detail is None {
                graph.theme.graph.border_focused
            } else {
                graph.theme.graph.border_unfocused
            }
            &&& picture.files is Some ==> picture.files->0 == graph.detail->0.files_picture(
                graph.theme.graph,
            )
            &&& picture.diff is Some ==> {
                let lines = lines_of(graph.detail->0.diff_content->0);
                &&& picture.diff->0.area == graph.diff_area
                &&& picture.diff->0.scroll == graph.detail->0.diff_scroll
                &&& picture.diff->0.lines.len() == lines.len()
                &&& 0 <= k < lines.len() ==> picture.diff->0.lines[k].text == lines[k]
                    && picture.diff->0.lines[k].color == diff_line_color(
                    lines[k],
                    graph.theme.graph,
                )
            }
        }),
{
}

/// Inside the border stands a remark while the graph is being built, the error after one,
/// and a remark where there are no commits; else there is a line for every row.
pub proof fn law_list_shows_rows_or_a_remark(graph: GraphView, k: int)
    ensures
        ({
            let body = graph.picture().list.body;
            let t = graph.theme.graph;
            let rows = graph.display_rows();
            &&& graph.loading ==> body == (ListBodyView::Remark {
                text: "Loading graph..."@,
                color: t.loading,
            })
            &&& !graph.loading && graph.error is Some ==> body == (ListBodyView::Remark {
                text: graph.error->0,
                color: t.error_text,
            })
            &&& !graph.loading && graph.error is None && rows.len() == 0 ==> body == (
            ListBodyView::Remark { text: "No commits"@, color: t.empty })
            &&& !graph.loading && graph.error is None && rows.len() > 0 ==> {
                &&& body is Rows
                &&& body->rows.len() == rows.len()
                &&& body->h_scroll == graph.h_scroll
                &&& body->selection_bg == t.selection_bg
                &&& graph.graph_list_area.width >= 2 ==> body->max_width
                    == graph.graph_list_area.width - 2
                &&& 0 <= k < rows.len() ==> body->rows[k] == graph.row_pieces(k, rows[k])
            }
        }),
{
}

/// The row of a commit shows its lanes, its id, its labels, its message, its author and
/// its age, and how many lines came and went, where some did.
pub proof fn law_row_of_a_commit(graph: GraphView, i: int, row: GraphRowView)
    requires
        row.collapsed is None,
        graph.search.input.len() == 0 || graph.search.matches.len() == 0
            || graph.search.matches.contains(i as usize),
    ensures
        ({
            let pieces = graph.row_pieces(i, row);
            let t = graph.theme.graph;
            let came = row.diff_stat is Some && row.diff_stat->0.additions > 0;
            let went = row.diff_stat is Some && row.diff_stat->0.deletions > 0;
            &&& pieces.len() == 6 + (if came {
                1int
            } else {
                0
            }) + (if went {
                1int
            } else {
                0
            })
            &&& pieces[0] == (PieceView::Lanes { recolor: None })
            &&& pieces[1] == (PieceView::Text {
                text: row.short_id + " "@,
                color: t.commit_id,
                emphasis: Emphasis::Bold,
            })
            &&& pieces[2] == (PieceView::Labels { max_len: graph.options.label_max_len })
            &&& pieces[3] == (PieceView::Text {
                text: row.message,
                color: if row.is_merge {
                    t.merge_message
                } else {
                    t.commit_message
                },
                emphasis: Emphasis::Plain,
            })
            &&& pieces[4] == (PieceView::Author { text: "  — "@ + row.author, tint: None })
            &&& pieces[5] == (PieceView::Age { color: t.time })
            &&& came ==> pieces[6] == (PieceView::Text {
                text: " +"@ + decimal(row.diff_stat->0.additions as nat),
                color: t.addition,
                emphasis: Emphasis::Plain,
            })
            &&& went ==> pieces.last() == (PieceView::Text {
                text: " -"@ + decimal(row.diff_stat->0.deletions as nat),
                color: t.deletion,
                emphasis: Emphasis::Plain,
            })
        }),
{
}

/// A commit that a search does not find is dimmed, and a branch that is collapsed is one
/// dim row with its message.
pub proof fn law_other_rows_are_dimmed(graph: GraphView, i: int, row: GraphRowView)
    ensures
        ({
            let pieces = graph.row_pieces(i, row);
            let t = graph.theme.graph;
            let missed = graph.search.input.len() > 0 && graph.search.matches.len() > 0
                && !graph.search.matches.contains(i as usize);
            &&& row.collapsed is Some ==> pieces == seq![
                PieceView::Lanes { recolor: Some(t.dimmed) },
                PieceView::Text {
                    text: row.message,
                    color: t.collapsed_message,
                    emphasis: Emphasis::Italic,
                },
            ]
            &&& row.collapsed is None && missed ==> pieces == seq![
                PieceView::Lanes { recolor: Some(t.dimmed) },
                PieceView::Text {
                    text: row.short_id + " "@,
                    color: t.dimmed,
                    emphasis: Emphasis::Plain,
                },
                PieceView::Text { text: row.message, color: t.dimmed, emphasis: Emphasis::Plain },
                PieceView::Author { text: "  — "@ + row.author, tint: Some(t.dimmed) },
                PieceView::Age { color: t.time },
            ]
        }),
{
}

/// The title names the repository, and tells of first parents, of how many branches are
/// collapsed, and of how many of the names seen the filters let through.
pub proof fn law_title_tells_what_is_left_out(graph: GraphView)
    ensures
        ({
            let filters = graph.options.filters;
            let branches = "branches "@ + decimal(filters.branches->0.len()) + "/"@ + decimal(
                graph.filter_branches.len(),
            );
            let authors = "authors "@ + decimal(filters.authors->0.len()) + "/"@ + decimal(
                graph.filter_authors.len(),
            );
            graph.picture().list.title == " Git Graph — "@ + graph.repo_name + (
            if graph.options.first_parent {
                " [1st-parent]"@
            } else {
                Seq::empty()
            }) + (if graph.collapsed.len() == 0 {
                Seq::empty()
            } else {
                " ("@ + decimal(graph.collapsed.len()) + " collapsed)"@
            }) + " "@ + (match (filters.branches, filters.authors) {
                (Some(_), Some(_)) => " ["@ + branches + ", "@ + authors + "]"@,
                (Some(_), None) => " ["@ + branches + "]"@,
                (None, Some(_)) => " ["@ + authors + "]"@,
                (None, None) => Seq::empty(),
            })
        }),
{
}

/// The search stands in the last row of the list, at its left end, no wider than the
/// list, and shows what is typed and which of how many matches is reached.
pub proof fn law_search_stands_below_the_list(graph: GraphView)
    requires
        graph.search.visible,
        graph.graph_list_area.height > 0,
        graph.graph_list_area.y + graph.graph_list_area.height <= u16::MAX,
        graph.graph_list_area.x + graph.graph_list_area.width <= u16::MAX,
    ensures
        ({
            let overlay = graph.picture().overlay->0;
            let list = graph.graph_list_area;
            let reached: nat = match graph.search.current_match {
                Some(i) => (i + 1) as nat,
                None => 0,
            };
            &&& overlay.area.y == list.y + list.height - 1
            &&& overlay.area.height == 1
            &&& overlay.area.x == list.x
            &&& overlay.area.width <= list.width
            &&& graph.search.input.len() == 0 ==> overlay.text == " / "@ + Seq::empty()
                + Seq::empty() + " "@
            &&& graph.search.input.len() > 0 ==> overlay.text == " / "@ + graph.search.input + (
            " "@ + decimal(reached) + "/"@ + decimal(graph.search.matches.len())) + " "@
        }),
{
    if graph.search.input.len() == 0 {
        assert(graph.search.input =~= Seq::<char>::empty());
    }
}

/// A message has from three to eight rows: two more than it has lines, where these do not
/// take more than a third of the height.
pub proof fn law_messages_have_three_to_eight_rows(message: Seq<char>, height: u16)
    requires
        lines_of(message).len() <= 1000,
    ensures
        ({
            let rows = message_height(message, height);
            let wanted = if lines_of(message).len() == 0 {
                3nat
            } else {
                lines_of(message).len() + 2
            };
            &&& 3 <= rows <= 8
            &&& wanted <= 8 && wanted < height / 3 ==> rows == wanted
            &&& 3 <= height / 3 <= 8 && height / 3 <= wanted ==> rows == height / 3
            &&& height / 3 >= 8 && wanted >= 8 ==> rows == 8
            &&& height / 3 < 3 ==> rows == 3
        }),
{
}

/// While a commit is looked at the parts of the panel follow on one another without a
/// gap: below each other in the horizontal layout, and else side by side. Without a
/// commit the list has all of the area.
pub proof fn law_parts_follow_on_one_another(
    graph: GraphView,
    area: Rect,
    chunks: Seq<Rect>,
    parts: Seq<Rect>,
)
    requires
        area.x + area.width <= u16::MAX,
        area.y + area.height <= u16::MAX,
    ensures
        ({
            let after = graph.arranged(area, chunks, parts);
            let own = graph.chunks(area);
            let open = graph.detail is Some && graph.detail->0.diff_content is Some;
            &&& after.render_area == area
            &&& graph.detail is None ==> after.graph_list_area == area
            &&& graph.detail is Some ==> {
                &&& after.graph_list_area == chunks[0]
                &&& after.files_area == chunks[1]
                &&& open ==> after.diff_area == chunks[2]
                &&& !open ==> after.diff_area.width == 0 && after.diff_area.height == 0
                &&& after.detail->0.msg_area == parts[0]
                &&& after.detail->0.file_list_area == parts[1]
                &&& own.len() == if open {
                    3nat
                } else {
                    2nat
                }
            }
            &&& graph.detail is Some && graph.horizontal_layout ==> {
                &&& own[0].y == area.y && own[0].x == area.x && own[0].width == area.width
                &&& own[1].y == own[0].y + own[0].height && own[1].width == area.width
                &&& open ==> own[2].y == own[1].y + own[1].height && own[2].y + own[2].height
                    == area.y + area.height
                &&& !open ==> own[1].y + own[1].height == area.y + area.height
            }
            &&& graph.detail is Some && !graph.horizontal_layout ==> {
                &&& own[0].x == area.x && own[0].y == area.y && own[0].height == area.height
                &&& own[1].x == own[0].x + own[0].width && own[1].height == area.height
                &&& open ==> own[2].x == own[1].x + own[1].width && own[2].x + own[2].width
                    == area.x + area.width
                &&& !open ==> own[1].x + own[1].width == area.x + area.width
            }
        }),
{
    if graph.detail is Some {
        crate::git_graph::draw::law_panels_share_the_area(graph, area);
        assert(graph.horizontal_layout ==> graph.direction() == Direction::Vertical);
        assert(!graph.horizontal_layout ==> graph.direction() == Direction::Horizontal);
    }
}

/// The message of a commit stands right above its files, in the part of the panel that
/// they share: the message has the rows that it is given, as long as three are left for
/// the files, and the files have all that is left.
pub proof fn law_message_stands_above_the_files(graph: GraphView, area: Rect)
    requires
        graph.detail is Some,
        graph.chunks(area)[1].y + graph.chunks(area)[1].height <= u16::MAX,
    ensures
        ({
            let files = graph.chunks(area)[1];
            let parts = graph.file_parts(area);
            let given = message_height(graph.detail->0.message, files.height);
            &&& parts.len() == 2
            &&& parts[0].x == files.x && parts[0].width == files.width
            &&& parts[1].x == files.x && parts[1].width == files.width
            &&& parts[0].y == files.y
            &&& parts[1].y == parts[0].y + parts[0].height
            &&& parts[1].y + parts[1].height == files.y + files.height
            &&& files.height >= given + 3 ==> parts[0].height == given
            &&& 3 <= files.height < given + 3 ==> parts[1].height == 3
        }),
{
}

/// The row of a repository shows, one after the other: whether something runs in it or it
/// has changes, its name, its branch in twelve columns at least, and how many commits it
/// is ahead and behind and how many stashes and worktrees it has, where it has some. Of a
/// repository whose state is not known only the name is shown.
pub proof fn law_row_of_a_repository(entry: RepoEntryView, name: Seq<char>)
    ensures
        ({
            let sign = if entry.git_op {
                "~ "@
            } else if entry.status is Some && entry.status->0.is_dirty {
                "* "@
            } else {
                "  "@
            };
            let row = repo_row(entry, name);
            let s = entry.status->0;
            &&& entry.status is None ==> row == sign + name + " ..."@
            &&& entry.status is Some && s.branch.len() >= 12 && s.ahead == 0 && s.behind == 0
                && s.stashes.len() == 0 && s.worktree_info.len() == 0 ==> row == sign + name
                + s.branch + " "@
            &&& entry.status is Some && s.branch.len() >= 12 && s.ahead > 0 && s.behind > 0
                && s.stashes.len() > 0 && s.worktree_info.len() > 0 ==> row == sign + name
                + s.branch + " "@ + ("↑"@ + decimal(s.ahead as nat) + " "@) + ("↓"@ + decimal(
                s.behind as nat,
            ) + " "@) + ("▶$"@ + decimal(s.stashes.len()) + " "@) + ("▶"@ + decimal(
                s.worktree_info.len(),
            ) + " "@)
            &&& entry.status is Some && s.branch.len() < 12 ==> row.skip(
                sign.len() + name.len() + 12 - s.branch.len(),
            ).take(s.branch.len() as int) == s.branch
        }),
{
    reveal_strlit(" ");
    let row = repo_row(entry, name);
    if entry.status is Some {
        let s = entry.status->0;
        assert(s.ahead == 0 && s.behind == 0 && s.stashes.len() == 0 && s.worktree_info.len() == 0
            && s.branch.len() >= 12 ==> row =~= crate::repo_list::render::marker(entry) + name
            + s.branch + " "@);
        if s.branch.len() < 12 {
            let n = crate::repo_list::render::marker(entry).len() + name.len() + 12
                - s.branch.len();
            assert(row.skip(n).take(s.branch.len() as int) =~= s.branch);
        }
    }
}

} // verus!
