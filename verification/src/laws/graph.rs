//! The graph panel: its keys, the mouse, its builds and its rows.
use vstd::prelude::*;
use vstd::string::*;

use crate::action::ActionView;
use crate::git_graph::{DetailView, GraphView, LoadRequestView};
use crate::git_graph::input::ReactionView;
use crate::laws::search::{in_sight, lemma_in_sight};
use crate::model::{
    BranchSegmentView, DiffStat, GraphFiltersView, GraphOptionsView, GraphRowView, Oid,
};
use crate::screen::{Key, Mouse, MouseKind, Rect};

verus! {

/// A cell lies in an area.
pub open spec fn lies_in(area: Rect, column: u16, row: u16) -> bool {
    area.x <= column < area.x + area.width && area.y <= row < area.y + area.height
}

/// An area ends inside the coordinates there are.
pub open spec fn on_screen(area: Rect) -> bool {
    area.x + area.width <= u16::MAX && area.y + area.height <= u16::MAX
}

/// The selection in a list of `n` entries moves one entry down: no further than to
/// the last, and to the first where nothing was selected.
pub open spec fn one_down(selected: Option<usize>, n: nat) -> Option<usize> {
    if n == 0 {
        selected
    } else if selected is None {
        Some(0)
    } else if selected->0 + 1 < n {
        Some((selected->0 + 1) as usize)
    } else {
        Some((n - 1) as usize)
    }
}

/// The selection in a list of `n` entries moves one entry up: no further than to the
/// first.
pub open spec fn one_up(selected: Option<usize>, n: nat) -> Option<usize> {
    if n == 0 {
        selected
    } else if selected is None || selected->0 == 0 {
        Some(0)
    } else {
        Some((selected->0 - 1) as usize)
    }
}

/// A reaction that asks for nothing and changes nothing but the selection.
pub open spec fn selects(before: GraphView, r: ReactionView, selected: Option<usize>) -> bool {
    &&& r.action is None
    &&& r.load is None
    &&& r.graph.state.selected == selected
    &&& r.graph.state.offset == before.state.offset
    &&& r.graph == GraphView { state: r.graph.state, ..before }
}

/// In the list of commits `j` and the down key select the next commit, `k` and the up
/// key the one before.
pub proof fn law_keys_select_commits(graph: GraphView)
    requires
        graph.detail is None,
        in_sight(graph).len() <= usize::MAX,
    ensures
        ({
            let n = in_sight(graph).len();
            &&& selects(graph, graph.key_event(Key::Down), one_down(graph.state.selected, n))
            &&& selects(graph, graph.key_event(Key::Char('j')), one_down(graph.state.selected, n))
            &&& selects(graph, graph.key_event(Key::Up), one_up(graph.state.selected, n))
            &&& selects(graph, graph.key_event(Key::Char('k')), one_up(graph.state.selected, n))
        }),
{
    lemma_in_sight(graph);
}

/// Enter on a commit asks for its files, under a new number; without a commit or a
/// repository it does nothing.
pub proof fn law_enter_opens_the_commit(graph: GraphView)
    requires
        graph.detail is None,
        graph.detail_generation < u64::MAX,
    ensures
        ({
            let r = graph.key_event(Key::Enter);
            let hit = graph.state.selected is Some && graph.state.selected->0 < in_sight(
                graph,
            ).len() && graph.repo_path is Some;
            if hit {
                &&& r.action == Some(
                    ActionView::ShowCommitFiles {
                        repo_path: graph.repo_path->0,
                        oid: in_sight(graph)[graph.state.selected->0 as int].oid.text(),
                    },
                )
                &&& r.load is None
                &&& r.graph.detail_generation == graph.detail_generation + 1
                &&& r.graph == GraphView {
                    detail_generation: r.graph.detail_generation,
                    ..graph
                }
            } else {
                r.graph == graph && r.action is None && r.load is None
            }
        }),
{
    lemma_in_sight(graph);
}

/// `l` and the right key move the rows four characters to the left, `h` and the left
/// key back again; so does the wheel sideways.
pub proof fn law_rows_move_sideways(graph: GraphView, mouse: Mouse)
    requires
        graph.detail is None,
        graph.h_scroll <= usize::MAX - 4,
    ensures
        graph.key_event(Key::Right).graph == (GraphView {
            h_scroll: (graph.h_scroll + 4) as usize,
            ..graph
        }),
        graph.key_event(Key::Char('l')).graph == graph.key_event(Key::Right).graph,
        graph.key_event(Key::Left).graph == (GraphView {
            h_scroll: if graph.h_scroll < 4 {
                0
            } else {
                (graph.h_scroll - 4) as usize
            },
            ..graph
        }),
        graph.key_event(Key::Char('h')).graph == graph.key_event(Key::Left).graph,
        mouse.kind == MouseKind::ScrollRight ==> graph.mouse_event(mouse).graph
            == graph.key_event(Key::Right).graph,
        mouse.kind == MouseKind::ScrollLeft ==> graph.mouse_event(mouse).graph
            == graph.key_event(Key::Left).graph,
{
}

/// `f` follows first parents only, or all again, and has the graph of the same
/// repository built anew that way.
pub proof fn law_first_parents_are_flipped(graph: GraphView)
    requires
        graph.detail is None,
        graph.connected,
        graph.repo_path is Some,
        !graph.load_in_flight,
        graph.load_generation < u64::MAX,
    ensures
        ({
            let r = graph.key_event(Key::Char('f'));
            &&& r.graph.options.first_parent == !graph.options.first_parent
            &&& r.action is None
            &&& r.load == Some(
                LoadRequestView {
                    generation: (graph.load_generation + 1) as u64,
                    path: graph.repo_path->0,
                    options: GraphOptionsView {
                        first_parent: !graph.options.first_parent,
                        ..graph.options
                    },
                },
            )
        }),
{
}

/// Only these keys do anything in the list of commits.
pub proof fn law_other_keys_do_nothing(graph: GraphView, c: char)
    requires
        graph.detail is None,
        !seq!['n', 'N', '/', 'j', 'k', 'f', 'c', 'H', 'l', 'h'].contains(c),
    ensures
        graph.key_event(Key::Char(c)) == (ReactionView { graph, action: None, load: None }),
        graph.key_event(Key::Esc) == (ReactionView { graph, action: None, load: None }),
        graph.key_event(Key::Backspace) == (ReactionView { graph, action: None, load: None }),
{
    let keys = seq!['n', 'N', '/', 'j', 'k', 'f', 'c', 'H', 'l', 'h'];
    assert(keys[0] == 'n' && keys[1] == 'N' && keys[2] == '/' && keys[3] == 'j' && keys[4] == 'k'
        && keys[5] == 'f' && keys[6] == 'c' && keys[7] == 'H' && keys[8] == 'l' && keys[9] == 'h');
}

/// With the diff of a file open, Escape closes the diff and leaves the files open,
/// and the keys up and down scroll it by a line.
pub proof fn law_keys_in_the_diff(graph: GraphView, d: DetailView)
    requires
        graph.detail == Some(d),
        d.diff_content is Some,
    ensures
        ({
            let closed = GraphView {
                detail: Some(DetailView { diff_content: None, diff_scroll: 0, ..d }),
                ..graph
            };
            let down = GraphView {
                detail: Some(
                    DetailView {
                        diff_scroll: if d.diff_scroll == u16::MAX {
                            u16::MAX
                        } else {
                            (d.diff_scroll + 1) as u16
                        },
                        ..d
                    },
                ),
                ..graph
            };
            let up = GraphView {
                detail: Some(
                    DetailView {
                        diff_scroll: if d.diff_scroll == 0 {
                            0
                        } else {
                            (d.diff_scroll - 1) as u16
                        },
                        ..d
                    },
                ),
                ..graph
            };
            &&& graph.key_event(Key::Esc).graph == closed
            &&& graph.key_event(Key::Left).graph == closed
            &&& graph.key_event(Key::Char('h')).graph == closed
            &&& graph.key_event(Key::Down).graph == down
            &&& graph.key_event(Key::Char('j')).graph == down
            &&& graph.key_event(Key::Up).graph == up
            &&& graph.key_event(Key::Char('k')).graph == up
            &&& graph.key_event(Key::Enter).graph == graph
            &&& graph.key_event(Key::Esc).action is None
            &&& graph.key_event(Key::Down).action is None
        }),
{
}

/// The diff of file `i` is asked for, in the repository and for the commit that is
/// looked at, under a new number.
pub open spec fn asks_for_file(before: GraphView, d: DetailView, r: ReactionView, i: int) -> bool {
    &&& r.action == Some(
        ActionView::ShowCommitDiff {
            repo_path: before.repo_path->0,
            oid: d.oid,
            file_path: d.files[i].1,
        },
    )
    &&& r.load is None
    &&& r.graph.detail_generation == before.detail_generation + 1
    &&& r.graph.detail is Some
    &&& r.graph.detail->0.file_state.selected == Some(i as usize)
    &&& r.graph.detail->0 == DetailView { file_state: r.graph.detail->0.file_state, ..d }
    &&& r.graph == GraphView {
        detail: r.graph.detail,
        detail_generation: r.graph.detail_generation,
        ..before
    }
}

/// Among the files of a commit the keys up and down select the next file, and each
/// time the diff of the file that is then selected is asked for; Enter asks for that
/// of the selected one.
pub proof fn law_keys_in_the_files(graph: GraphView, d: DetailView, i: usize)
    requires
        graph.detail == Some(d),
        d.diff_content is None,
        d.files.len() <= usize::MAX,
        d.file_state.selected == Some(i),
        i < d.files.len(),
        graph.repo_path is Some,
        graph.detail_generation < u64::MAX,
    ensures
        ({
            let down = if i + 1 < d.files.len() {
                i + 1
            } else {
                i as int
            };
            let up = if i > 0 {
                i - 1
            } else {
                0
            };
            &&& asks_for_file(graph, d, graph.key_event(Key::Down), down)
            &&& asks_for_file(graph, d, graph.key_event(Key::Char('j')), down)
            &&& asks_for_file(graph, d, graph.key_event(Key::Up), up)
            &&& asks_for_file(graph, d, graph.key_event(Key::Char('k')), up)
            &&& asks_for_file(graph, d, graph.key_event(Key::Enter), i as int)
        }),
{
}

/// Escape leaves the commit that is looked at; a build that was put off for that is
/// then asked for.
pub proof fn law_escape_leaves_the_commit(graph: GraphView, d: DetailView)
    requires
        graph.detail == Some(d),
        d.diff_content is None,
        graph.load_generation < u64::MAX,
    ensures
        ({
            let r = graph.key_event(Key::Esc);
            &&& r.graph.detail is None
            &&& r.action is None
            &&& r.graph.all_rows == graph.all_rows
            &&& r.graph.state == graph.state
            &&& !graph.needs_reload ==> r.load is None && r.graph == GraphView {
                detail: None,
                ..graph
            }
            &&& graph.needs_reload && graph.connected && graph.repo_path is Some
                && !graph.load_in_flight ==> r.load == Some(
                LoadRequestView {
                    generation: (graph.load_generation + 1) as u64,
                    path: graph.repo_path->0,
                    options: graph.options,
                },
            )
        }),
{
}

/// The entry that stands in row `row` of the screen, in a list with a border that is
/// scrolled by `offset` entries.
pub open spec fn entry_in_row(area: Rect, row: u16, offset: usize) -> int {
    row - area.y - 1 + offset
}

/// A left click on a commit selects it, leaves the one that was looked at, and asks
/// for its files; on the border or below the last commit it does nothing.
pub proof fn law_click_opens_the_commit(graph: GraphView, column: u16, row: u16)
    requires
        on_screen(graph.graph_list_area),
        lies_in(graph.graph_list_area, column, row),
        in_sight(graph).len() <= usize::MAX,
        graph.detail_generation < u64::MAX,
        !graph.needs_reload,
    ensures
        ({
            let r = graph.mouse_event(Mouse { kind: MouseKind::LeftDown, column, row });
            let at = entry_in_row(graph.graph_list_area, row, graph.state.offset);
            if row > graph.graph_list_area.y && at < in_sight(graph).len() {
                &&& r.graph.state.selected == Some(at as usize)
                &&& r.graph.detail is None
                &&& r.load is None
                &&& graph.repo_path is Some ==> r.action == Some(
                    ActionView::ShowCommitFiles {
                        repo_path: graph.repo_path->0,
                        oid: in_sight(graph)[at].oid.text(),
                    },
                ) && r.graph.detail_generation == graph.detail_generation + 1
                &&& r.graph == GraphView {
                    state: r.graph.state,
                    detail: None,
                    detail_generation: r.graph.detail_generation,
                    ..graph
                }
            } else {
                r == ReactionView { graph, action: None, load: None }
            }
        }),
{
    lemma_in_sight(graph);
    let at = entry_in_row(graph.graph_list_area, row, graph.state.offset);
    if row > graph.graph_list_area.y && at < in_sight(graph).len() {
        lemma_in_sight(graph.with_selected(at as usize));
    }
}

/// A left click on a file of the commit that is looked at selects that file and asks
/// for its diff.
pub proof fn law_click_opens_the_file(graph: GraphView, d: DetailView, column: u16, row: u16)
    requires
        graph.detail == Some(d),
        !lies_in(graph.graph_list_area, column, row),
        on_screen(graph.graph_list_area),
        on_screen(d.file_list_area),
        lies_in(d.file_list_area, column, row),
        d.files.len() <= usize::MAX,
        graph.repo_path is Some,
        graph.detail_generation < u64::MAX,
    ensures
        ({
            let r = graph.mouse_event(Mouse { kind: MouseKind::LeftDown, column, row });
            let at = entry_in_row(d.file_list_area, row, d.file_state.offset);
            if row > d.file_list_area.y && at < d.files.len() {
                asks_for_file(graph, d, r, at)
            } else {
                r == ReactionView { graph, action: None, load: None }
            }
        }),
{
}

/// A right click on a commit selects it and asks for its menu.
pub proof fn law_right_click_asks_for_the_menu(graph: GraphView, column: u16, row: u16)
    requires
        in_sight(graph).len() <= usize::MAX,
        on_screen(graph.graph_list_area),
    ensures
        ({
            let r = graph.mouse_event(Mouse { kind: MouseKind::RightDown, column, row });
            let at = entry_in_row(graph.graph_list_area, row, graph.state.offset);
            if lies_in(graph.graph_list_area, column, row) && row > graph.graph_list_area.y && at
                < in_sight(graph).len() {
                &&& r.action == Some(ActionView::OpenGraphContextMenu)
                &&& r.load is None
                &&& r.graph.state.selected == Some(at as usize)
                &&& r.graph == GraphView { state: r.graph.state, ..graph }
            } else {
                r == ReactionView { graph, action: None, load: None }
            }
        }),
{
    lemma_in_sight(graph);
}

/// The wheel over the list of commits, while none is looked at, moves the selection
/// by one commit.
pub proof fn law_wheel_selects_commits(graph: GraphView, column: u16, row: u16)
    requires
        graph.detail is None,
        in_sight(graph).len() <= usize::MAX,
    ensures
        selects(
            graph,
            graph.mouse_event(Mouse { kind: MouseKind::ScrollDown, column, row }),
            one_down(graph.state.selected, in_sight(graph).len()),
        ),
        selects(
            graph,
            graph.mouse_event(Mouse { kind: MouseKind::ScrollUp, column, row }),
            one_up(graph.state.selected, in_sight(graph).len()),
        ),
{
    lemma_in_sight(graph);
}

/// The wheel turns what lies under the pointer: the diff that is open, else the
/// message, else the files; the list of commits then stays as it is.
pub proof fn law_wheel_turns_what_is_under_it(
    graph: GraphView,
    d: DetailView,
    column: u16,
    row: u16,
)
    requires
        graph.detail == Some(d),
        d.files.len() <= usize::MAX,
        on_screen(graph.diff_area),
        on_screen(d.msg_area),
        on_screen(d.file_list_area),
    ensures
        ({
            let down = graph.mouse_event(Mouse { kind: MouseKind::ScrollDown, column, row });
            let up = graph.mouse_event(Mouse { kind: MouseKind::ScrollUp, column, row });
            let over_diff = lies_in(graph.diff_area, column, row) && d.diff_content is Some;
            let over_message = lies_in(d.msg_area, column, row);
            let over_files = lies_in(d.file_list_area, column, row) && d.files.len() > 0;
            &&& down.action is None && down.load is None && up.action is None && up.load is None
            &&& over_diff ==> {
                &&& down.graph.detail->0.diff_scroll == if d.diff_scroll < u16::MAX {
                    d.diff_scroll + 1
                } else {
                    d.diff_scroll as int
                }
                &&& up.graph.detail->0.diff_scroll == if d.diff_scroll > 0 {
                    d.diff_scroll - 1
                } else {
                    0
                }
                &&& down.graph.state == graph.state && up.graph.state == graph.state
                &&& down.graph.detail->0.file_state == d.file_state
            }
            &&& !(lies_in(graph.diff_area, column, row)) && over_message ==> {
                &&& down.graph.detail->0.msg_scroll == if d.msg_scroll < u16::MAX {
                    d.msg_scroll + 1
                } else {
                    d.msg_scroll as int
                }
                &&& up.graph.detail->0.msg_scroll == if d.msg_scroll > 0 {
                    d.msg_scroll - 1
                } else {
                    0
                }
                &&& down.graph.state == graph.state && up.graph.state == graph.state
            }
            &&& d.diff_content is None && !over_message && over_files ==> {
                &&& down.graph.detail->0.file_state.selected == one_down(
                    d.file_state.selected,
                    d.files.len(),
                )
                &&& up.graph.detail->0.file_state.selected == one_up(
                    d.file_state.selected,
                    d.files.len(),
                )
                &&& down.graph.state == graph.state && up.graph.state == graph.state
            }
        }),
{
}

/// A cell is counted to an area exactly where it lies in it, for areas inside the
/// coordinates there are.
pub proof fn law_cells_lie_in_areas(area: Rect, column: u16, row: u16)
    requires
        on_screen(area),
    ensures
        area.covers(column, row) == lies_in(area, column, row),
{
}

/// A build is asked for with the path of the repository, the present options and the
/// next number, unless one for that repository runs or nobody can be asked.
pub proof fn law_builds_are_asked_for(graph: GraphView, path: Seq<char>, name: Seq<char>)
    requires
        graph.load_generation < u64::MAX,
    ensures
        ({
            let (after, load) = graph.load_repo(path, name);
            let runs = graph.repo_path == Some(path) && graph.load_in_flight;
            &&& !runs && graph.connected ==> {
                &&& load == Some(
                    LoadRequestView {
                        generation: (graph.load_generation + 1) as u64,
                        path,
                        options: graph.options,
                    },
                )
                &&& after.load_in_flight
                &&& after.load_generation == graph.load_generation + 1
            }
            &&& runs || !graph.connected ==> load is None && after.load_generation
                == graph.load_generation
            &&& runs ==> after == GraphView { needs_reload: true, ..graph }
            &&& !runs ==> after.repo_path == Some(path) && after.repo_name == name
                && after.error is None
            &&& after.options == graph.options
        }),
{
}

/// An outdated graph is built anew at once, or, while a commit is looked at, later.
pub proof fn law_outdated_graph_waits_for_the_commit(
    graph: GraphView,
    path: Seq<char>,
    name: Seq<char>,
)
    ensures
        graph.detail is Some ==> graph.outdated(path, name) == (
            GraphView { needs_reload: true, ..graph },
            None::<LoadRequestView>,
        ),
        graph.detail is None ==> graph.outdated(path, name) == graph.load_repo(path, name),
{
}

/// Rows that arrive end the build; the branches that come with them are those of the
/// panel, and each row knows a branch that has it, or that none has.
pub proof fn law_rows_arrive_with_their_branches(
    graph: GraphView,
    rows: Seq<GraphRowView>,
    segments: Seq<BranchSegmentView>,
    r: int,
)
    requires
        0 <= r < rows.len() <= usize::MAX,
        segments.len() <= usize::MAX,
    ensures
        ({
            let after = graph.with_rows(rows, segments);
            &&& !after.loading && !after.load_in_flight && after.consecutive_aborts == 0
            &&& after.segments == segments
            &&& after.collapsed == graph.collapsed
            &&& after.repo_path == graph.repo_path
            &&& after.needs_reload == graph.needs_reload
            &&& after.row_to_segment.len() == rows.len()
            &&& match after.row_to_segment[r] {
                Some(s) => s < segments.len() && segments[s as int].row_indices.contains(
                    r as usize,
                ),
                None => forall|s: int|
                    0 <= s < segments.len() ==> !(
                    #[trigger] segments[s]).row_indices.contains(r as usize),
            }
        }),
{
    crate::git_graph::collapse::lemma_segment_of(segments, r);
}

/// Line counts that arrive go to the rows of their commits, the last report of a
/// commit counting; other rows keep what they had.
pub proof fn law_line_counts_go_to_their_commits(
    graph: GraphView,
    stats: Seq<(Oid, DiffStat)>,
    i: int,
)
    requires
        0 <= i < graph.all_rows.len(),
    ensures
        ({
            let after = graph.set_diff_stats(stats);
            let row = graph.all_rows[i];
            &&& after.all_rows.len() == graph.all_rows.len()
            &&& after.all_rows[i] == GraphRowView { diff_stat: after.all_rows[i].diff_stat, ..row }
            &&& (forall|k: int| 0 <= k < stats.len() ==> (#[trigger] stats[k]).0 != row.oid)
                ==> after.all_rows[i].diff_stat == row.diff_stat
            &&& forall|k: int|
                0 <= k < stats.len() && (#[trigger] stats[k]).0 == row.oid && (forall|m: int|
                    k < m < stats.len() ==> (#[trigger] stats[m]).0 != row.oid)
                    ==> after.all_rows[i].diff_stat == Some(stats[k].1)
        }),
{
    let row = graph.all_rows[i];
    lemma_reported(stats, row.oid);
}

proof fn lemma_reported(stats: Seq<(Oid, DiffStat)>, oid: Oid)
    ensures
        (forall|k: int| 0 <= k < stats.len() ==> (#[trigger] stats[k]).0 != oid)
            ==> crate::git_graph::rows::reported_stat(stats, oid) is None,
        forall|k: int|
            0 <= k < stats.len() && (#[trigger] stats[k]).0 == oid && (forall|m: int|
                k < m < stats.len() ==> (#[trigger] stats[m]).0 != oid)
                ==> crate::git_graph::rows::reported_stat(stats, oid) == Some(stats[k].1),
    decreases stats.len(),
{
    if stats.len() > 0 {
        let init = stats.drop_last();
        let end = stats.len() - 1;
        lemma_reported(init, oid);
        if forall|k: int| 0 <= k < stats.len() ==> (#[trigger] stats[k]).0 != oid {
            assert(stats[end].0 != oid);
            assert forall|k: int| 0 <= k < init.len() implies (#[trigger] init[k]).0 != oid by {
                assert(init[k] == stats[k]);
            }
        }
        assert forall|k: int|
            0 <= k < stats.len() && (#[trigger] stats[k]).0 == oid && (forall|m: int|
                k < m < stats.len() ==> (
                #[trigger] stats[m]).0 != oid) implies crate::git_graph::rows::reported_stat(
            stats,
            oid,
        ) == Some(stats[k].1) by {
            if k < end {
                assert(stats[end].0 != oid);
                assert(init[k] == stats[k]);
                assert forall|m: int| k < m < init.len() implies (#[trigger] init[m]).0 != oid by {
                    assert(init[m] == stats[m]);
                }
            }
        }
    }
}

/// Other filters are taken over, all branches are expanded and the search ends, and
/// the graph is built anew under them.
pub proof fn law_filters_are_taken_over(graph: GraphView, filters: GraphFiltersView)
    requires
        graph.options.filters != filters,
        graph.load_generation < u64::MAX,
    ensures
        ({
            let (after, load) = graph.set_filters(filters);
            &&& after.options == GraphOptionsView { filters, ..graph.options }
            &&& after.collapsed == Set::<Seq<char>>::empty()
            &&& after.search.matches.len() == 0 && after.search.input.len() == 0
                && !after.search.visible
            &&& graph.connected && graph.repo_path is Some && !graph.load_in_flight ==> load
                == Some(
                LoadRequestView {
                    generation: (graph.load_generation + 1) as u64,
                    path: graph.repo_path->0,
                    options: GraphOptionsView { filters, ..graph.options },
                },
            )
            &&& graph.load_in_flight && graph.repo_path is Some ==> load is None
                && after.needs_reload
        }),
{
}

/// Following first parents only is set as asked for, and a change of it has the graph
/// built anew.
pub proof fn law_first_parent_is_set(graph: GraphView, enabled: bool)
    requires
        graph.load_generation < u64::MAX,
    ensures
        ({
            let (after, load) = graph.set_first_parent(enabled);
            &&& after.options == GraphOptionsView { first_parent: enabled, ..graph.options }
            &&& enabled == graph.options.first_parent ==> after == graph && load is None
            &&& enabled != graph.options.first_parent && graph.connected && graph.repo_path
                is Some && !graph.load_in_flight ==> load == Some(
                LoadRequestView {
                    generation: (graph.load_generation + 1) as u64,
                    path: graph.repo_path->0,
                    options: GraphOptionsView { first_parent: enabled, ..graph.options },
                },
            )
        }),
{
}

/// A build that failed shows its error and is over; the rows stay.
pub proof fn law_error_ends_the_build(graph: GraphView, message: Seq<char>)
    ensures
        graph.set_error(message) == (GraphView {
            error: Some(message),
            loading: false,
            load_in_flight: false,
            ..graph
        }),
{
}

/// Two builds in a row may end without a report and be made up for; the third gives
/// up with an error.
pub proof fn law_third_abort_gives_up(graph: GraphView)
    requires
        graph.load_in_flight,
        graph.load_generation < u64::MAX,
    ensures
        ({
            let (after, load) = graph.abort_load();
            &&& graph.consecutive_aborts < 2 && graph.needs_reload && graph.connected
                && graph.repo_path is Some ==> load == Some(
                LoadRequestView {
                    generation: (graph.load_generation + 1) as u64,
                    path: graph.repo_path->0,
                    options: graph.options,
                },
            )
            &&& graph.consecutive_aborts < 2 ==> after.consecutive_aborts
                == graph.consecutive_aborts + 1
            &&& graph.consecutive_aborts < 2 && !graph.needs_reload ==> after.error == graph.error
            &&& graph.consecutive_aborts >= 2 ==> load is None && after.error is Some
                && !after.needs_reload && !after.load_in_flight && !after.loading
        }),
{
}

/// The files of a commit are shown with the first one selected and no diff open; the
/// diff of a file is shown from its beginning while a commit is looked at.
pub proof fn law_details_are_opened(
    graph: GraphView,
    oid: Seq<char>,
    message: Seq<char>,
    files: Seq<(Seq<char>, Seq<char>)>,
    content: Seq<char>,
)
    ensures
        ({
            let open = graph.set_commit_files(oid, message, files);
            let d = open.detail->0;
            &&& open == GraphView { detail: open.detail, ..graph }
            &&& open.detail is Some
            &&& d.oid == oid && d.message == message && d.files == files
            &&& d.file_state.selected == if files.len() > 0 {
                Some(0usize)
            } else {
                None
            }
            &&& d.diff_content is None && d.diff_scroll == 0 && d.msg_scroll == 0
        }),
        graph.detail is None ==> graph.set_commit_diff(content) == graph,
        graph.detail is Some ==> graph.set_commit_diff(content) == (GraphView {
            detail: Some(
                DetailView { diff_content: Some(content), diff_scroll: 0, ..graph.detail->0 },
            ),
            ..graph
        }),
{
}

/// What is copied of the selection is the path of the selected file, or else the short
/// id and the message of the selected commit.
pub proof fn law_selection_can_be_copied(graph: GraphView, i: usize)
    requires
        graph.state.selected == Some(i),
        i < in_sight(graph).len(),
    ensures
        graph.detail is None ==> graph.selected_text() == Some(
            in_sight(graph)[i as int].short_id + " "@ + in_sight(graph)[i as int].message,
        ),
        graph.detail is Some && graph.detail->0.file_state.selected is Some
            && graph.detail->0.file_state.selected->0 < graph.detail->0.files.len()
            ==> graph.selected_text() == Some(
            graph.detail->0.files[graph.detail->0.file_state.selected->0 as int].1,
        ),
{
    lemma_in_sight(graph);
}

} // verus!
