//! Collapsing the branches of the graph.
use vstd::prelude::*;
use vstd::string::*;

use crate::git_graph::GraphView;
use crate::git_graph::collapse::{
    is_hidden, lemma_segment_of, lemma_tip_at, shown_for, shown_rows, tip_at,
};
use crate::laws::search::{in_sight, lemma_in_sight};
use crate::model::{BranchSegmentView, GraphRowView};
use crate::screen::Key;
use crate::text::decimal;

verus! {

/// Row `i` of the graph belongs to branch `s`, and that branch is collapsed.
pub open spec fn put_away(graph: GraphView, i: int, s: int) -> bool {
    &&& 0 <= s < graph.segments.len()
    &&& graph.segments[s].row_indices.contains(i as usize)
    &&& graph.collapsed.contains(graph.segments[s].id)
}

/// Row `i` belongs to no collapsed branch.
pub open spec fn left_alone(graph: GraphView, i: int) -> bool {
    forall|s: int| !#[trigger] put_away(graph, i, s)
}

/// A row stands for a branch: it names it, says how many commits it hides, keeps the
/// place of the branch's tip in the graph, and shows nothing else of the tip.
pub open spec fn stands_for(
    row: GraphRowView,
    tip: GraphRowView,
    branch: BranchSegmentView,
) -> bool {
    row == GraphRowView {
        message: "\u{25b6} "@ + branch.display_name + " ("@ + decimal(branch.row_indices.len())
            + " commits)"@,
        short_id: Seq::empty(),
        author: Seq::empty(),
        labels: Seq::empty(),
        diff_stat: None,
        collapsed: Some((branch.id, branch.row_indices.len() as usize)),
        ..tip
    }
}

/// Row `k` in sight is row `from[k]` of the graph, or stands for a collapsed branch
/// whose tip that is.
pub open spec fn comes_from(graph: GraphView, from: Seq<int>, k: int) -> bool {
    let i = from[k];
    &&& 0 <= i < graph.all_rows.len()
    &&& if left_alone(graph, i) {
        in_sight(graph)[k] == graph.all_rows[i]
    } else {
        exists|s: int| #[trigger]
            put_away(graph, i, s) && graph.segments[s].row_indices[0] == i && stands_for(
                in_sight(graph)[k],
                graph.all_rows[i],
                graph.segments[s],
            )
    }
}

/// The rows in sight come from rows of the graph, in the order of the graph: all rows
/// that belong to no collapsed branch are among them, and so is the tip of every
/// collapsed branch, and nothing else.
pub open spec fn sight_comes_from(graph: GraphView, from: Seq<int>) -> bool {
    &&& from.len() == in_sight(graph).len()
    &&& forall|a: int, b: int| 0 <= a < b < from.len() ==> (#[trigger] from[a]) < (#[trigger] from[b])
    &&& forall|k: int| 0 <= k < from.len() ==> #[trigger] comes_from(graph, from, k)
    &&& forall|i: int|
        0 <= i < graph.all_rows.len() && #[trigger] left_alone(graph, i) ==> from.contains(i)
    &&& forall|i: int, s: int| #[trigger]
        put_away(graph, i, s) && graph.segments[s].row_indices[0] == i && 0 <= i
            < graph.all_rows.len() ==> from.contains(i)
}

spec fn origins(graph: GraphView, n: nat) -> Seq<int>
    decreases n,
{
    if n == 0 {
        Seq::empty()
    } else {
        let before = origins(graph, (n - 1) as nat);
        if shown_for(graph.all_rows, graph.segments, graph.collapsed, n - 1).len() == 0 {
            before
        } else {
            before.push(n - 1)
        }
    }
}

proof fn lemma_hidden(graph: GraphView, i: int)
    ensures
        is_hidden(graph.segments, graph.collapsed, i) == !left_alone(graph, i),
{
    if is_hidden(graph.segments, graph.collapsed, i) {
        let s = choose|s: int|
            0 <= s < graph.segments.len() && graph.collapsed.contains(
                (#[trigger] graph.segments[s]).id,
            ) && graph.segments[s].row_indices.contains(i as usize);
        assert(put_away(graph, i, s));
    }
    if !left_alone(graph, i) {
        let s = choose|s: int| #[trigger] put_away(graph, i, s);
        assert(graph.collapsed.contains(graph.segments[s].id));
    }
}

proof fn lemma_shown(graph: GraphView, i: int)
    requires
        graph.wf(),
        0 <= i < graph.all_rows.len() <= usize::MAX,
    ensures
        ({
            let shown = shown_for(graph.all_rows, graph.segments, graph.collapsed, i);
            &&& shown.len() <= 1
            &&& left_alone(graph, i) ==> shown == seq![graph.all_rows[i]]
            &&& !left_alone(graph, i) && shown.len() == 1 ==> exists|s: int| #[trigger]
                put_away(graph, i, s) && graph.segments[s].row_indices[0] == i && stands_for(
                    shown[0],
                    graph.all_rows[i],
                    graph.segments[s],
                )
            &&& forall|s: int| #[trigger]
                put_away(graph, i, s) && graph.segments[s].row_indices[0] == i ==> shown.len() == 1
        }),
{
    graph.lemma_wf();
    lemma_hidden(graph, i);
    lemma_tip_at(graph.segments, graph.collapsed, i);
    let shown = shown_for(graph.all_rows, graph.segments, graph.collapsed, i);
    if !left_alone(graph, i) && shown.len() == 1 {
        let branch = tip_at(graph.segments, graph.collapsed, i)->0;
        let s = choose|s: int| 0 <= s < graph.segments.len() && graph.segments[s] == branch;
        assert(graph.segments[s].row_indices.len() > 0);
        assert(graph.segments[s].row_indices[0] == i);
        assert(graph.segments[s].row_indices.contains(i as usize));
        assert(put_away(graph, i, s));
        assert(stands_for(shown[0], graph.all_rows[i], graph.segments[s]));
    }
    assert forall|s: int| #[trigger]
        put_away(graph, i, s) && graph.segments[s].row_indices[0] == i implies shown.len() == 1 by {
        assert(!left_alone(graph, i));
        assert(graph.collapsed.contains(graph.segments[s].id));
    }
}

proof fn lemma_origins(graph: GraphView, n: nat)
    requires
        graph.wf(),
        n <= graph.all_rows.len() <= usize::MAX,
    ensures
        ({
            let from = origins(graph, n);
            let rows = shown_rows(graph.all_rows, graph.segments, graph.collapsed, n);
            &&& from.len() == rows.len()
            &&& forall|a: int, b: int|
                0 <= a < b < from.len() ==> (#[trigger] from[a]) < (#[trigger] from[b])
            &&& forall|k: int| 0 <= k < from.len() ==> 0 <= (#[trigger] from[k]) < n
            &&& forall|k: int|
                0 <= k < from.len() ==> shown_for(
                    graph.all_rows,
                    graph.segments,
                    graph.collapsed,
                    #[trigger] from[k],
                ) == seq![rows[k]]
            &&& forall|i: int|
                0 <= i < n && (#[trigger] shown_for(
                    graph.all_rows,
                    graph.segments,
                    graph.collapsed,
                    i,
                )).len() == 1 ==> from.contains(i)
        }),
    decreases n,
{
    if n > 0 {
        lemma_origins(graph, (n - 1) as nat);
        lemma_shown(graph, n - 1);
        let before = origins(graph, (n - 1) as nat);
        let rows_before = shown_rows(graph.all_rows, graph.segments, graph.collapsed, (n - 1) as nat);
        let last = shown_for(graph.all_rows, graph.segments, graph.collapsed, n - 1);
        let from = origins(graph, n);
        let rows = shown_rows(graph.all_rows, graph.segments, graph.collapsed, n);
        assert(rows == rows_before + last);
        assert forall|k: int| 0 <= k < from.len() implies shown_for(
            graph.all_rows,
            graph.segments,
            graph.collapsed,
            #[trigger] from[k],
        ) == seq![rows[k]] by {
            if k < before.len() {
                assert(from[k] == before[k]);
                assert(rows[k] == rows_before[k]);
            } else {
                assert(last =~= seq![rows[k]]);
            }
        }
        assert forall|i: int|
            0 <= i < n && (#[trigger] shown_for(
                graph.all_rows,
                graph.segments,
                graph.collapsed,
                i,
            )).len() == 1 implies from.contains(i) by {
            if i < n - 1 {
                assert(before.contains(i));
                let k = choose|k: int| 0 <= k < before.len() && before[k] == i;
                assert(from[k] == i);
            } else {
                assert(from[before.len() as int] == i);
            }
        }
    }
}

/// With branches collapsed, what is in sight are all other commits and one row for
/// every collapsed branch where its tip was, in the order of the graph.
pub proof fn law_collapsed_branches_leave_one_row(graph: GraphView)
    requires
        graph.wf(),
        graph.collapsed != Set::<Seq<char>>::empty(),
        graph.all_rows.len() <= usize::MAX,
    ensures
        exists|from: Seq<int>| sight_comes_from(graph, from),
{
    graph.lemma_wf();
    lemma_in_sight(graph);
    let n = graph.all_rows.len();
    let from = origins(graph, n);
    lemma_origins(graph, n);
    assert(in_sight(graph) == shown_rows(graph.all_rows, graph.segments, graph.collapsed, n));
    assert forall|k: int| 0 <= k < from.len() implies #[trigger] comes_from(graph, from, k) by {
        let i = from[k];
        lemma_shown(graph, i);
        let shown = shown_for(graph.all_rows, graph.segments, graph.collapsed, i);
        assert(shown == seq![in_sight(graph)[k]]);
        assert(shown[0] == in_sight(graph)[k]);
    }
    assert forall|i: int| 0 <= i < n && #[trigger] left_alone(graph, i) implies from.contains(i) by {
        lemma_shown(graph, i);
    }
    assert forall|i: int, s: int| #[trigger]
        put_away(graph, i, s) && graph.segments[s].row_indices[0] == i && 0 <= i
            < n implies from.contains(i) by {
        lemma_shown(graph, i);
    }
    assert(sight_comes_from(graph, from));
}

/// Row `r` is the first one of the commit that is selected in row `k` in sight, which
/// does not stand for a branch.
pub open spec fn commit_selected(graph: GraphView, k: int, r: int) -> bool {
    &&& graph.state.selected == Some(k as usize)
    &&& 0 <= k < in_sight(graph).len() <= usize::MAX
    &&& in_sight(graph)[k].collapsed is None
    &&& 0 <= r < graph.all_rows.len() <= usize::MAX
    &&& graph.all_rows[r].oid == in_sight(graph)[k].oid
    &&& forall|j: int| 0 <= j < r ==> (#[trigger] graph.all_rows[j]).oid != in_sight(graph)[k].oid
}

proof fn lemma_first_row(graph: GraphView, k: int, r: int)
    requires
        commit_selected(graph, k, r),
    ensures
        crate::git_graph::collapse::rows_before(graph.all_rows, in_sight(graph)[k].oid) == r,
{
    assert forall|j: int| 0 <= j < r implies (#[trigger] graph.all_rows[j]).oid
        != graph.all_rows[r].oid by {}
    crate::git_graph::collapse::lemma_rows_before(graph.all_rows, r);
}

/// Toggling a selected commit collapses the branch that has it; on the trunk, which
/// no branch has, it changes nothing. The key for it is `c`.
pub proof fn law_toggling_collapses_the_branch(graph: GraphView, k: int, r: int, s: int)
    requires
        graph.wf(),
        commit_selected(graph, k, r),
        graph.segments.len() <= usize::MAX,
    ensures
        0 <= s < graph.segments.len() && graph.segments[s].row_indices.contains(r as usize) && (
        forall|t: int|
            0 <= t < graph.segments.len() && (
            #[trigger] graph.segments[t]).row_indices.contains(r as usize) ==> t == s) ==> {
            let after = graph.toggle_collapse_selected();
            &&& after.collapsed == graph.collapsed.insert(graph.segments[s].id)
            &&& after == GraphView { collapsed: after.collapsed, rows: after.rows, ..graph }
        },
        (forall|t: int|
            0 <= t < graph.segments.len() ==> !(
            #[trigger] graph.segments[t]).row_indices.contains(r as usize))
            ==> graph.toggle_collapse_selected() == graph,
        graph.detail is None ==> graph.key_event(Key::Char('c')).graph
            == graph.toggle_collapse_selected(),
{
    graph.lemma_wf();
    lemma_in_sight(graph);
    lemma_first_row(graph, k, r);
    lemma_segment_of(graph.segments, r);
}

/// Toggling the row that stands for a branch expands that branch alone.
pub proof fn law_toggling_expands_the_branch(graph: GraphView, k: int)
    requires
        graph.state.selected == Some(k as usize),
        0 <= k < in_sight(graph).len() <= usize::MAX,
        in_sight(graph)[k].collapsed is Some,
    ensures
        ({
            let after = graph.toggle_collapse_selected();
            &&& after.collapsed == graph.collapsed.remove((in_sight(graph)[k].collapsed->0).0)
            &&& after == GraphView { collapsed: after.collapsed, rows: after.rows, ..graph }
        }),
{
    lemma_in_sight(graph);
}

/// Expanding all branches brings all rows in sight. The key for it is `H`.
pub proof fn law_all_branches_are_expanded(graph: GraphView)
    ensures
        in_sight(graph.expand_all_branches()) == graph.all_rows,
        graph.expand_all_branches().collapsed == Set::<Seq<char>>::empty(),
        graph.expand_all_branches().state == graph.state,
        graph.detail is None ==> graph.key_event(Key::Char('H')).graph
            == graph.expand_all_branches(),
{
    if graph.collapsed.is_empty() {
        assert(graph.collapsed =~= Set::<Seq<char>>::empty());
    }
}

} // verus!
