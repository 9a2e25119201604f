//! Collapsing branches of the graph: the commits of a branch off the trunk give
//! way to one placeholder where its tip was.
use vstd::prelude::*;
use vstd::string::*;
use crate::git_graph::{GitGraph, GraphView};
use crate::model::{BranchSegment, BranchSegmentView, GraphRow, GraphRowView, Oid};
use crate::text::{decimal, number};

verus! {

/// The last of `segments` that lists row `r`.
pub open spec fn segment_of(segments: Seq<BranchSegmentView>, r: int) -> Option<usize>
    decreases segments.len(),
{
    if segments.len() == 0 {
        None
    } else if segments.last().row_indices.contains(r as usize) {
        Some((segments.len() - 1) as usize)
    } else {
        segment_of(segments.drop_last(), r)
    }
}

/// For each of `count` rows its branch.
pub open spec fn segment_map(segments: Seq<BranchSegmentView>, count: nat) -> Seq<Option<usize>> {
    Seq::new(count, |r: int| segment_of(segments, r))
}

/// A row's branch is one of the segments.
pub proof fn lemma_segment_of(segments: Seq<BranchSegmentView>, r: int)
    requires
        segments.len() <= usize::MAX,
    ensures
        segment_of(segments, r) matches Some(s) ==> s < segments.len()
            && segments[s as int].row_indices.contains(r as usize),
        segment_of(segments, r) is None ==> forall|s: int|
            0 <= s < segments.len() ==> !(#[trigger] segments[s]).row_indices.contains(r as usize),
    decreases segments.len(),
{
    if segments.len() > 0 && !segments.last().row_indices.contains(r as usize) {
        lemma_segment_of(segments.drop_last(), r);
        assert forall|s: int| 0 <= s < segments.len() && segment_of(segments, r) is None implies !(
        #[trigger] segments[s]).row_indices.contains(r as usize) by {
            if s < segments.len() - 1 {
                assert(segments.drop_last()[s] == segments[s]);
            }
        }
    }
}

/// Row `i` belongs to a collapsed branch.
pub open spec fn is_hidden(
    segments: Seq<BranchSegmentView>,
    collapsed: Set<Seq<char>>,
    i: int,
) -> bool {
    exists|s: int|
        0 <= s < segments.len() && collapsed.contains((#[trigger] segments[s]).id)
            && segments[s].row_indices.contains(i as usize)
}

/// The first collapsed branch that has its tip at row `i`.
pub open spec fn tip_at(
    segments: Seq<BranchSegmentView>,
    collapsed: Set<Seq<char>>,
    i: int,
) -> Option<BranchSegmentView>
    decreases segments.len(),
{
    if segments.len() == 0 {
        None
    } else if collapsed.contains(segments[0].id) && segments[0].row_indices[0] == i {
        Some(segments[0])
    } else {
        tip_at(segments.drop_first(), collapsed, i)
    }
}

/// What a placeholder says.
pub open spec fn placeholder_text(name: Seq<char>, count: nat) -> Seq<char> {
    "\u{25b6} "@ + name + " ("@ + decimal(count) + " commits)"@
}

/// The placeholder for a branch whose tip is `row`: it keeps the row's place in
/// the graph, and says which branch it stands for and how many commits it hides.
pub open spec fn placeholder(row: GraphRowView, segment: BranchSegmentView) -> GraphRowView {
    GraphRowView {
        message: placeholder_text(segment.display_name, segment.row_indices.len()),
        short_id: Seq::empty(),
        author: Seq::empty(),
        labels: Seq::empty(),
        diff_stat: None,
        collapsed: Some((segment.id, segment.row_indices.len() as usize)),
        ..row
    }
}

/// What is shown for row `i`: the row itself, or, in a collapsed branch, a
/// placeholder at the tip and nothing elsewhere.
pub open spec fn shown_for(
    all: Seq<GraphRowView>,
    segments: Seq<BranchSegmentView>,
    collapsed: Set<Seq<char>>,
    i: int,
) -> Seq<GraphRowView> {
    if is_hidden(segments, collapsed, i) {
        match tip_at(segments, collapsed, i) {
            Some(segment) => seq![placeholder(all[i], segment)],
            None => Seq::empty(),
        }
    } else {
        seq![all[i]]
    }
}

/// What is shown for the first `n` rows.
pub open spec fn shown_rows(
    all: Seq<GraphRowView>,
    segments: Seq<BranchSegmentView>,
    collapsed: Set<Seq<char>>,
    n: nat,
) -> Seq<GraphRowView>
    decreases n,
{
    if n == 0 {
        Seq::empty()
    } else {
        shown_rows(all, segments, collapsed, (n - 1) as nat) + shown_for(
            all,
            segments,
            collapsed,
            n - 1,
        )
    }
}

/// How many rows stand before the first one of commit `oid`.
pub open spec fn rows_before(rows: Seq<GraphRowView>, oid: Oid) -> nat
    decreases rows.len(),
{
    if rows.len() == 0 || rows[0].oid == oid {
        0
    } else {
        1 + rows_before(rows.drop_first(), oid)
    }
}

/// The branch of the first row of commit `oid`; on the trunk there is none.
pub open spec fn branch_of_commit(graph: GraphView, oid: Oid) -> Option<BranchSegmentView> {
    let at = rows_before(graph.all_rows, oid);
    if at < graph.all_rows.len() {
        match graph.row_to_segment[at as int] {
            Some(s) => Some(graph.segments[s as int]),
            None => None,
        }
    } else {
        None
    }
}

impl GraphView {
    /// The rows shown are those that the collapsed branches leave.
    pub open spec fn recompute_collapsed_rows(self) -> GraphView {
        GraphView {
            rows: if self.collapsed.is_empty() {
                Seq::empty()
            } else {
                shown_rows(self.all_rows, self.segments, self.collapsed, self.all_rows.len())
            },
            ..self
        }
    }

    /// A selected placeholder is expanded, and the branch of a selected commit
    /// is collapsed; on the trunk nothing happens.
    pub open spec fn toggle_collapse_selected(self) -> GraphView {
        match self.selected_row() {
            None => self,
            Some(row) => match row.collapsed {
                Some(key) => GraphView {
                    collapsed: self.collapsed.remove(key.0),
                    ..self
                }.recompute_collapsed_rows(),
                None => match branch_of_commit(self, row.oid) {
                    Some(segment) => GraphView {
                        collapsed: self.collapsed.insert(segment.id),
                        ..self
                    }.recompute_collapsed_rows(),
                    None => self,
                },
            },
        }
    }

    /// The selected row is a placeholder or a commit off the trunk.
    pub open spec fn can_toggle(self) -> bool {
        self.selected_row() matches Some(row) && (row.collapsed is Some || branch_of_commit(
            self,
            row.oid,
        ) is Some)
    }

    /// All branches are expanded.
    pub open spec fn expand_all_branches(self) -> GraphView {
        if self.collapsed.is_empty() {
            self
        } else {
            GraphView { collapsed: Set::empty(), ..self }.recompute_collapsed_rows()
        }
    }
}

/// The first row of commit `oid`.
fn position_of(rows: &Vec<GraphRow>, oid: Oid) -> (r: Option<usize>)
    ensures
        match r {
            Some(i) => i < rows@.len() && i == rows_before(rows.deep_view(), oid),
            None => rows_before(rows.deep_view(), oid) == rows@.len(),
        },
{
    let ghost all = rows.deep_view();
    let mut i: usize = 0;
    assert(all.skip(0) =~= all);
    while i < rows.len()
        invariant
            all == rows.deep_view(),
            i <= rows@.len(),
            rows_before(all, oid) == i + rows_before(all.skip(i as int), oid),
        decreases rows@.len() - i,
    {
        assert(all.skip(i as int)[0] == all[i as int]);
        if rows[i].oid == oid {
            return Some(i);
        }
        assert(all.skip(i as int).drop_first() =~= all.skip(i + 1));
        i = i + 1;
    }
    None
}

/// Whether a list holds a row number.
fn lists_row(indices: &Vec<usize>, row: usize) -> (r: bool)
    ensures
        r == indices@.contains(row),
{
    let mut i: usize = 0;
    while i < indices.len()
        invariant
            i <= indices@.len(),
            forall|k: int| 0 <= k < i ==> indices@[k] != row,
        decreases indices@.len() - i,
    {
        if indices[i] == row {
            return true;
        }
        i = i + 1;
    }
    false
}

impl GitGraph {
    /// The rows that are shown.
    pub fn display_rows(&self) -> (r: &Vec<GraphRow>)
        ensures
            r.deep_view() == self@.display_rows(),
    {
        if self.collapsed_branches.is_empty() {
            &self.all_rows
        } else {
            &self.rows
        }
    }

    /// Records for each row its branch.
    pub(crate) fn recompute_segments(&mut self, segments: Vec<BranchSegment>)
        requires
            crate::git_graph::segments_fit(segments.deep_view(), old(self)@.all_rows.len()),
        ensures
            final(self)@ == (GraphView {
                segments: segments.deep_view(),
                row_to_segment: segment_map(segments.deep_view(), old(self)@.all_rows.len()),
                ..old(self)@
            }),
    {
        let count: usize = self.all_rows.len();
        let ghost all = segments.deep_view();
        let mut map: Vec<Option<usize>> = Vec::new();
        let mut r: usize = 0;
        while r < count
            invariant
                r <= count,
                map@.len() == r,
                forall|k: int| 0 <= k < r ==> map@[k] is None,
            decreases count - r,
        {
            map.push(None);
            r = r + 1;
        }
        let mut s: usize = 0;
        assert(all.take(0) =~= Seq::<BranchSegmentView>::empty());
        assert(map@ =~= segment_map(all.take(0), count as nat));
        while s < segments.len()
            invariant
                all == segments.deep_view(),
                crate::git_graph::segments_fit(all, count as nat),
                s <= segments@.len(),
                map@ == segment_map(all.take(s as int), count as nat),
            decreases segments@.len() - s,
        {
            let ghost before = map@;
            let indices = &segments[s].row_indices;
            assert(all[s as int].row_indices == indices@);
            let mut k: usize = 0;
            while k < indices.len()
                invariant
                    indices@ == all[s as int].row_indices,
                    s < all.len(),
                    crate::git_graph::segments_fit(all, count as nat),
                    k <= indices@.len(),
                    map@.len() == count,
                    before.len() == count,
                    forall|q: int|
                        0 <= q < count ==> #[trigger] map@[q] == if indices@.take(
                            k as int,
                        ).contains(q as usize) {
                            Some(s)
                        } else {
                            before[q]
                        },
                decreases indices@.len() - k,
            {
                let row: usize = indices[k];
                assert(all[s as int].row_indices[k as int] < count);
                let ghost mid = map@;
                map.set(row, Some(s));
                proof {
                    assert forall|q: int| 0 <= q < count implies #[trigger] map@[q]
                        == if indices@.take(k + 1).contains(q as usize) {
                        Some(s)
                    } else {
                        before[q]
                    } by {
                        let small = indices@.take(k as int);
                        let large = indices@.take(k + 1);
                        assert(large =~= small.push(row));
                        assert(mid[q] == if small.contains(q as usize) {
                            Some(s)
                        } else {
                            before[q]
                        });
                        if q == row {
                            assert(large[k as int] == q as usize);
                        } else if large.contains(q as usize) {
                            let m = choose|m: int| 0 <= m < large.len() && large[m] == q as usize;
                            assert(small[m] == q as usize);
                        } else if small.contains(q as usize) {
                            let m = choose|m: int| 0 <= m < small.len() && small[m] == q as usize;
                            assert(large[m] == q as usize);
                        }
                    }
                }
                k = k + 1;
            }
            proof {
                assert(indices@.take(indices@.len() as int) =~= indices@);
                let next = all.take(s + 1);
                assert(next.last() == all[s as int]);
                assert(next.drop_last() =~= all.take(s as int));
                assert(map@ =~= segment_map(next, count as nat));
            }
            s = s + 1;
        }
        assert(all.take(all.len() as int) =~= all);
        self.segments = segments;
        self.row_to_segment = map;
    }

    /// Whether row `i` belongs to a collapsed branch.
    fn row_is_hidden(&self, i: usize) -> (r: bool)
        ensures
            r == is_hidden(self@.segments, self@.collapsed, i as int),
    {
        let mut s: usize = 0;
        while s < self.segments.len()
            invariant
                s <= self.segments@.len(),
                forall|q: int|
                    0 <= q < s ==> !(self@.collapsed.contains((#[trigger] self@.segments[q]).id)
                        && self@.segments[q].row_indices.contains(i)),
            decreases self.segments@.len() - s,
        {
            assert(self@.segments[s as int] == self.segments@[s as int].deep_view());
            if self.collapsed_branches.contains(self.segments[s].id.as_str()) && lists_row(
                &self.segments[s].row_indices,
                i,
            ) {
                return true;
            }
            s = s + 1;
        }
        false
    }

    /// The first collapsed branch that has its tip at row `i`.
    fn branch_with_tip(&self, i: usize) -> (r: Option<usize>)
        requires
            crate::git_graph::segments_fit(self@.segments, self@.all_rows.len()),
        ensures
            match r {
                Some(s) => s < self.segments@.len() && tip_at(
                    self@.segments,
                    self@.collapsed,
                    i as int,
                ) == Some(self@.segments[s as int]),
                None => tip_at(self@.segments, self@.collapsed, i as int) is None,
            },
    {
        let ghost all = self@.segments;
        let mut s: usize = 0;
        assert(all.skip(0) =~= all);
        while s < self.segments.len()
            invariant
                all == self@.segments,
                crate::git_graph::segments_fit(all, self@.all_rows.len()),
                s <= self.segments@.len(),
                tip_at(all, self@.collapsed, i as int) == tip_at(
                    all.skip(s as int),
                    self@.collapsed,
                    i as int,
                ),
            decreases self.segments@.len() - s,
        {
            assert(all.skip(s as int)[0] == all[s as int]);
            assert(all[s as int] == self.segments@[s as int].deep_view());
            if self.collapsed_branches.contains(self.segments[s].id.as_str())
                && self.segments[s].row_indices[0] == i {
                return Some(s);
            }
            assert(all.skip(s as int).drop_first() =~= all.skip(s + 1));
            s = s + 1;
        }
        None
    }

    /// Computes the rows that the collapsed branches leave.
    pub fn recompute_collapsed_rows(&mut self)
        requires
            crate::git_graph::segments_fit(old(self)@.segments, old(self)@.all_rows.len()),
        ensures
            final(self)@ == old(self)@.recompute_collapsed_rows(),
    {
        if self.collapsed_branches.is_empty() {
            self.rows.clear();
            return;
        }
        let mut rows: Vec<GraphRow> = Vec::new();
        let mut i: usize = 0;
        while i < self.all_rows.len()
            invariant
                *self == *old(self),
                crate::git_graph::segments_fit(self@.segments, self@.all_rows.len()),
                i <= self.all_rows@.len(),
                rows.deep_view() == shown_rows(
                    self@.all_rows,
                    self@.segments,
                    self@.collapsed,
                    i as nat,
                ),
            decreases self.all_rows@.len() - i,
        {
            let ghost before = rows.deep_view();
            assert(self@.all_rows[i as int] == self.all_rows@[i as int].deep_view());
            if self.row_is_hidden(i) {
                match self.branch_with_tip(i) {
                    Some(s) => {
                        let segment = &self.segments[s];
                        assert(self@.segments[s as int] == segment.deep_view());
                        let count: usize = segment.row_indices.len();
                        let mut message = String::from_str("\u{25b6} ");
                        message.append(segment.display_name.as_str());
                        message.append(" (");
                        message.append(number(count).as_str());
                        message.append(" commits)");
                        let mut row = self.all_rows[i].clone();
                        row.message = message;
                        row.short_id = String::new();
                        row.author = String::new();
                        row.labels = Vec::new();
                        row.diff_stat = None;
                        row.collapsed = Some((segment.id.clone(), count));
                        assert(row.deep_view() =~= placeholder(
                            self@.all_rows[i as int],
                            self@.segments[s as int],
                        ));
                        rows.push(row);
                        assert(rows.deep_view() =~= before.push(row.deep_view()));
                    },
                    None => {},
                }
            } else {
                let row = self.all_rows[i].clone();
                rows.push(row);
                assert(rows.deep_view() =~= before.push(row.deep_view()));
            }
            i = i + 1;
            assert(rows.deep_view() =~= shown_rows(
                self@.all_rows,
                self@.segments,
                self@.collapsed,
                i as nat,
            ));
        }
        self.rows = rows;
    }

    /// Expands the selected placeholder, or collapses the branch of the selected
    /// commit.
    pub fn toggle_collapse_selected(&mut self)
        requires
            old(self)@.wf(),
        ensures
            final(self)@ == old(self)@.toggle_collapse_selected(),
            final(self)@.wf(),
    {
        let idx: usize = match self.state.selected {
            Some(i) => i,
            None => return,
        };
        let rows = self.display_rows();
        if idx >= rows.len() {
            return;
        }
        let row = &rows[idx];
        assert(rows.deep_view()[idx as int] == row.deep_view());
        let collapsed_key: Option<String> = match &row.collapsed {
            Some(c) => Some(c.0.clone()),
            None => None,
        };
        let row_oid: Oid = row.oid;
        if let Some(key) = collapsed_key {
            self.collapsed_branches.remove(key.as_str());
            self.recompute_collapsed_rows();
            return;
        }
        let all_idx: usize = match position_of(&self.all_rows, row_oid) {
            Some(i) => i,
            None => return,
        };
        let seg_idx: usize = match self.row_to_segment[all_idx] {
            Some(s) => s,
            None => return,
        };
        proof {
            assert(self.segments.len() == self@.segments.len());
            lemma_segment_of(self@.segments, all_idx as int);
        }
        assert(self@.segments[seg_idx as int] == self.segments@[seg_idx as int].deep_view());
        let id = self.segments[seg_idx].id.clone();
        self.collapsed_branches.insert(id);
        self.recompute_collapsed_rows();
    }

    /// Expands all branches.
    pub fn expand_all_branches(&mut self)
        requires
            old(self)@.wf(),
        ensures
            final(self)@ == old(self)@.expand_all_branches(),
            final(self)@.wf(),
    {
        if self.collapsed_branches.is_empty() {
            return;
        }
        self.collapsed_branches.clear();
        self.recompute_collapsed_rows();
    }

    /// Expands the selected placeholder, or collapses the branch of the selected
    /// commit.
    pub fn toggle_selected_branch(&mut self)
        requires
            old(self)@.wf(),
        ensures
            final(self)@ == old(self)@.toggle_collapse_selected(),
            final(self)@.wf(),
    {
        self.toggle_collapse_selected();
    }

    /// Expands all branches.
    pub fn expand_all(&mut self)
        requires
            old(self)@.wf(),
        ensures
            final(self)@ == old(self)@.expand_all_branches(),
            final(self)@.wf(),
    {
        self.expand_all_branches();
    }

    /// Whether the selected row is a placeholder or a commit off the trunk.
    pub fn can_toggle_selected_branch(&self) -> (r: bool)
        requires
            self@.wf(),
        ensures
            r == self@.can_toggle(),
    {
        let idx: usize = match self.state.selected {
            Some(i) => i,
            None => return false,
        };
        let rows = self.display_rows();
        if idx >= rows.len() {
            return false;
        }
        let row = &rows[idx];
        assert(rows.deep_view()[idx as int] == row.deep_view());
        if row.collapsed.is_some() {
            return true;
        }
        match position_of(&self.all_rows, row.oid) {
            Some(i) => self.row_to_segment[i].is_some(),
            None => false,
        }
    }
}

/// With all branches expanded, the rows shown are all rows.
pub proof fn law_expanding_all_shows_all(graph: GraphView)
    ensures
        graph.expand_all_branches().display_rows() == graph.all_rows,
        graph.expand_all_branches().all_rows == graph.all_rows,
{
}

/// A commit on the trunk cannot be collapsed.
pub proof fn law_trunk_is_not_collapsible(graph: GraphView)
    requires
        graph.selected_row() matches Some(row) && row.collapsed is None && branch_of_commit(
            graph,
            row.oid,
        ) is None,
    ensures
        graph.toggle_collapse_selected() == graph,
{
}

/// Where toggling a commit has collapsed its branch, toggling the placeholder that
/// then stands for it brings back what was collapsed and what was shown.
pub proof fn law_expanding_undoes_collapsing(
    graph: GraphView,
    segment: BranchSegmentView,
    at: usize,
)
    requires
        graph.wf(),
        graph.selected_row() matches Some(row) && row.collapsed is None && branch_of_commit(
            graph,
            row.oid,
        ) == Some(segment),
        graph.toggle_collapse_selected().collapsed != graph.collapsed,
        at < graph.toggle_collapse_selected().display_rows().len(),
        graph.toggle_collapse_selected().display_rows()[at as int].collapsed matches Some(c) && c.0
            == segment.id,
    ensures
        ({
            let collapsed = graph.toggle_collapse_selected();
            let there = GraphView { state: collapsed.state.selecting(Some(at)), ..collapsed };
            let back = there.toggle_collapse_selected();
            &&& back.collapsed == graph.collapsed
            &&& back.display_rows() == graph.display_rows()
            &&& back.all_rows == graph.all_rows
        }),
{
    let collapsed = graph.toggle_collapse_selected();
    let there = GraphView { state: collapsed.state.selecting(Some(at)), ..collapsed };
    let back = there.toggle_collapse_selected();
    assert(collapsed.collapsed == graph.collapsed.insert(segment.id));
    assert(!graph.collapsed.contains(segment.id)) by {
        if graph.collapsed.contains(segment.id) {
            assert(graph.collapsed.insert(segment.id) =~= graph.collapsed);
        }
    }
    assert(!collapsed.collapsed.is_empty()) by {
        assert(collapsed.collapsed.contains(segment.id));
    }
    assert(there.selected_row() == Some(collapsed.display_rows()[at as int]));
    assert(back.collapsed =~= graph.collapsed);
}

/// A row outside the collapsed branches is shown as it is.
pub proof fn lemma_visible_row_is_shown(
    all: Seq<GraphRowView>,
    segments: Seq<BranchSegmentView>,
    collapsed: Set<Seq<char>>,
    n: nat,
    i: int,
)
    requires
        n <= all.len(),
        0 <= i < n,
    ensures
        forall|row: GraphRowView|
            shown_for(all, segments, collapsed, i).contains(row) ==> #[trigger] shown_rows(
                all,
                segments,
                collapsed,
                n,
            ).contains(row),
    decreases n,
{
    let before = shown_rows(all, segments, collapsed, (n - 1) as nat);
    let last = shown_for(all, segments, collapsed, n - 1);
    let now = shown_rows(all, segments, collapsed, n);
    if i < n - 1 {
        lemma_visible_row_is_shown(all, segments, collapsed, (n - 1) as nat, i);
    }
    assert forall|row: GraphRowView|
        shown_for(all, segments, collapsed, i).contains(row) implies #[trigger] now.contains(
        row,
    ) by {
        if i < n - 1 {
            assert(before.contains(row));
            let k = choose|k: int| 0 <= k < before.len() && before[k] == row;
            assert(now[k] == row);
        } else {
            let k = choose|k: int| 0 <= k < last.len() && last[k] == row;
            assert(now[before.len() + k] == row);
        }
    }
}

/// Whatever is shown is a row outside the collapsed branches, or the placeholder
/// of a collapsed branch.
pub proof fn lemma_shown_row_origin(
    all: Seq<GraphRowView>,
    segments: Seq<BranchSegmentView>,
    collapsed: Set<Seq<char>>,
    n: nat,
    row: GraphRowView,
)
    requires
        n <= all.len(),
        shown_rows(all, segments, collapsed, n).contains(row),
    ensures
        exists|i: int|
            0 <= i < n && (#[trigger] shown_for(all, segments, collapsed, i)).contains(row),
    decreases n,
{
    let before = shown_rows(all, segments, collapsed, (n - 1) as nat);
    let last = shown_for(all, segments, collapsed, n - 1);
    let now = shown_rows(all, segments, collapsed, n);
    let k = choose|k: int| 0 <= k < now.len() && now[k] == row;
    if k < before.len() {
        assert(before[k] == row);
        lemma_shown_row_origin(all, segments, collapsed, (n - 1) as nat, row);
        let i = choose|i: int|
            0 <= i < n - 1 && (#[trigger] shown_for(all, segments, collapsed, i)).contains(row);
        assert(shown_for(all, segments, collapsed, i).contains(row));
    } else {
        assert(last[k - before.len()] == row);
        assert(shown_for(all, segments, collapsed, n - 1).contains(row));
    }
}

/// A placeholder at a tip stands for a collapsed branch with that tip.
pub proof fn lemma_tip_at(
    segments: Seq<BranchSegmentView>,
    collapsed: Set<Seq<char>>,
    i: int,
)
    ensures
        tip_at(segments, collapsed, i) matches Some(segment) ==> segments.contains(segment)
            && collapsed.contains(segment.id) && segment.row_indices[0] == i,
        tip_at(segments, collapsed, i) is None ==> forall|s: int|
            0 <= s < segments.len() && collapsed.contains((#[trigger] segments[s]).id)
                ==> segments[s].row_indices[0] != i,
    decreases segments.len(),
{
    if segments.len() > 0 && !(collapsed.contains(segments[0].id) && segments[0].row_indices[0]
        == i) {
        let rest = segments.drop_first();
        lemma_tip_at(rest, collapsed, i);
        if let Some(segment) = tip_at(rest, collapsed, i) {
            let k = choose|k: int| 0 <= k < rest.len() && rest[k] == segment;
            assert(segments[k + 1] == segment);
        }
        assert forall|s: int|
            0 <= s < segments.len() && collapsed.contains((#[trigger] segments[s]).id) && tip_at(
                segments,
                collapsed,
                i,
            ) is None implies segments[s].row_indices[0] != i by {
            if s > 0 {
                assert(rest[s - 1] == segments[s]);
            }
        }
    } else if segments.len() > 0 {
        assert(segments[0] == segments[0]);
    }
}

/// While branches are collapsed, a commit outside them is shown as it is, and
/// nothing is shown but such commits and placeholders of collapsed branches.
pub proof fn law_collapsing_hides_only_collapsed_branches(graph: GraphView)
    requires
        graph.wf(),
        !graph.collapsed.is_empty(),
    ensures
        forall|i: int|
            0 <= i < graph.all_rows.len() && !is_hidden(graph.segments, graph.collapsed, i)
                ==> graph.display_rows().contains(#[trigger] graph.all_rows[i]),
        forall|row: GraphRowView| #[trigger]
            graph.display_rows().contains(row) ==> (exists|i: int|
                0 <= i < graph.all_rows.len() && !is_hidden(graph.segments, graph.collapsed, i)
                    && row == #[trigger] graph.all_rows[i]) || (exists|s: int|
                0 <= s < graph.segments.len() && graph.collapsed.contains(
                    (#[trigger] graph.segments[s]).id,
                ) && row == placeholder(
                    graph.all_rows[graph.segments[s].row_indices[0] as int],
                    graph.segments[s],
                )),
{
    let all = graph.all_rows;
    let segments = graph.segments;
    let collapsed = graph.collapsed;
    assert forall|i: int|
        0 <= i < all.len() && !is_hidden(segments, collapsed, i) implies graph.display_rows().contains(
        #[trigger] all[i],
    ) by {
        lemma_visible_row_is_shown(all, segments, collapsed, all.len(), i);
        assert(shown_for(all, segments, collapsed, i)[0] == all[i]);
    }
    assert forall|row: GraphRowView| #[trigger] graph.display_rows().contains(row) implies (exists|
        i: int,
    |
        0 <= i < all.len() && !is_hidden(segments, collapsed, i) && row == #[trigger] all[i]) || (
    exists|s: int|
        0 <= s < segments.len() && collapsed.contains((#[trigger] segments[s]).id) && row
            == placeholder(all[segments[s].row_indices[0] as int], segments[s])) by {
        lemma_shown_row_origin(all, segments, collapsed, all.len(), row);
        let i = choose|i: int|
            0 <= i < all.len() && (#[trigger] shown_for(all, segments, collapsed, i)).contains(row);
        lemma_tip_at(segments, collapsed, i);
        if is_hidden(segments, collapsed, i) {
            let segment = tip_at(segments, collapsed, i)->0;
            assert(shown_for(all, segments, collapsed, i) =~= seq![placeholder(all[i], segment)]);
            let s = choose|s: int| 0 <= s < segments.len() && segments[s] == segment;
            assert(segments[s].row_indices[0] == i);
        } else {
            assert(row == all[i]);
        }
    }
}

/// A collapsed branch is shown as a placeholder that counts its commits, where
/// no other branch has the same tip.
pub proof fn law_collapsed_branch_has_placeholder(graph: GraphView, s: int)
    requires
        graph.wf(),
        0 <= s < graph.segments.len(),
        graph.collapsed.contains(graph.segments[s].id),
        forall|other: int|
            0 <= other < graph.segments.len() && other != s ==> (
            #[trigger] graph.segments[other]).row_indices[0] != graph.segments[s].row_indices[0],
    ensures
        graph.display_rows().contains(
            placeholder(
                graph.all_rows[graph.segments[s].row_indices[0] as int],
                graph.segments[s],
            ),
        ),
{
    let all = graph.all_rows;
    let segment = graph.segments[s];
    let tip = segment.row_indices[0] as int;
    assert(!graph.collapsed.is_empty());
    assert(segment.row_indices[0] < all.len());
    assert(segment.row_indices.contains(tip as usize));
    assert(is_hidden(graph.segments, graph.collapsed, tip));
    lemma_tip_at(graph.segments, graph.collapsed, tip);
    let found = tip_at(graph.segments, graph.collapsed, tip)->0;
    let k = choose|k: int| 0 <= k < graph.segments.len() && graph.segments[k] == found;
    assert(k == s);
    lemma_visible_row_is_shown(all, graph.segments, graph.collapsed, all.len(), tip);
    assert(shown_for(all, graph.segments, graph.collapsed, tip)[0] == placeholder(
        all[tip],
        segment,
    ));
}

pub(crate) proof fn lemma_rows_before(rows: Seq<GraphRowView>, i: int)
    requires
        0 <= i < rows.len(),
        forall|j: int| 0 <= j < i ==> (#[trigger] rows[j]).oid != rows[i].oid,
    ensures
        rows_before(rows, rows[i].oid) == i,
    decreases rows.len(),
{
    if i > 0 {
        let rest = rows.drop_first();
        assert(rows[0].oid != rows[i].oid);
        assert forall|j: int| 0 <= j < i - 1 implies (#[trigger] rest[j]).oid != rest[i - 1].oid by {
            assert(rest[j] == rows[j + 1]);
        }
        lemma_rows_before(rest, i - 1);
    }
}

/// A branch can be toggled exactly when toggling changes what is collapsed, where
/// the commits have ids of their own and the selected row did not come marked as a
/// placeholder. The rows and branches can be counted.
pub proof fn law_toggling_changes_what_can_be_toggled(graph: GraphView)
    requires
        graph.wf(),
        graph.all_rows.len() <= usize::MAX,
        graph.segments.len() <= usize::MAX,
        forall|i: int, j: int|
            0 <= i < j < graph.all_rows.len() ==> (#[trigger] graph.all_rows[i]).oid != (
            #[trigger] graph.all_rows[j]).oid,
        graph.selected_row() is Some && graph.all_rows.contains(graph.selected_row()->0)
            ==> (graph.selected_row()->0).collapsed is None,
    ensures
        graph.can_toggle() <==> graph.toggle_collapse_selected().collapsed != graph.collapsed,
{
    if let Some(row) = graph.selected_row() {
        let at = graph.state.selected->0 as int;
        assert(graph.display_rows()[at] == row);
        assert(graph.display_rows().contains(row));
        if graph.collapsed.is_empty() {
            assert(graph.all_rows[at] == row);
            if let Some(segment) = branch_of_commit(graph, row.oid) {
                assert(graph.collapsed.insert(segment.id).contains(segment.id));
            }
        } else {
            law_collapsing_hides_only_collapsed_branches(graph);
            if row.collapsed is Some {
                let s = choose|s: int|
                    0 <= s < graph.segments.len() && graph.collapsed.contains(
                        (#[trigger] graph.segments[s]).id,
                    ) && row == placeholder(
                        graph.all_rows[graph.segments[s].row_indices[0] as int],
                        graph.segments[s],
                    );
                assert(graph.collapsed.contains((row.collapsed->0).0));
                assert(!graph.collapsed.remove((row.collapsed->0).0).contains((row.collapsed->0).0));
            } else {
                let i = choose|i: int|
                    0 <= i < graph.all_rows.len() && !is_hidden(graph.segments, graph.collapsed, i)
                        && row == #[trigger] graph.all_rows[i];
                lemma_rows_before(graph.all_rows, i);
                lemma_segment_of(graph.segments, i);
                if let Some(segment) = branch_of_commit(graph, row.oid) {
                    let s = graph.row_to_segment[i]->0 as int;
                    assert(graph.segments[s] == segment);
                    assert(!graph.collapsed.contains(segment.id));
                    assert(graph.collapsed.insert(segment.id).contains(segment.id));
                }
            }
        }
    }
}

} // verus!
