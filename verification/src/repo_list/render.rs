//! What the list of repositories shows, and where.
use vstd::prelude::*;
use vstd::string::*;
use crate::repo_list::label::{ellipsized, name_room, rendered_name};
use crate::repo_list::{
    row_fits, stash_count, worktrees, DisplayRow, RepoEntry, RepoEntryView, RepoList,
    RepoListView,
};
use crate::screen::{capped, Color, Rect};
use crate::status::RepoStatusView;
use crate::text::{decimal, number_width, push_number};

verus! {

/// The columns of the stash and worktree indicators of a row, from the first to
/// behind the last; `None` for one that is not shown.
#[derive(Clone, Copy, PartialEq, Eq, Debug)]
pub struct IndicatorColumns {
    pub stash: Option<(u16, u16)>,
    pub worktree: Option<(u16, u16)>,
}

/// How many columns a branch takes: twelve at least, and one behind it.
pub open spec fn branch_width(branch: Seq<char>) -> u16 {
    (if branch.len() < 12 {
        13usize
    } else if branch.len() < usize::MAX {
        (branch.len() + 1) as usize
    } else {
        usize::MAX
    }) as u16
}

/// How many columns a count with a sign before and a space behind it takes, if it
/// is shown.
pub open spec fn count_width(n: usize) -> u16 {
    if n > 0 {
        (2 + decimal(n as nat).len()) as u16
    } else {
        0
    }
}

/// The first column behind the marker, the name, the branch and the counts of
/// commits ahead and behind.
pub open spec fn indicators_start(status: RepoStatusView, base_x: u16, name_width: u16) -> u16 {
    capped(
        capped(
            capped(capped(capped(base_x, 2), name_width), branch_width(status.branch)),
            count_width(status.ahead),
        ),
        count_width(status.behind),
    )
}

/// The columns of the indicators of a row that begins at `base_x` and whose name
/// takes `name_width` columns: that of the stashes comes first, that of the
/// worktrees behind it.
pub open spec fn columns_of(entry: RepoEntryView, base_x: u16, name_width: u16) -> IndicatorColumns {
    match entry.status {
        None => IndicatorColumns { stash: None, worktree: None },
        Some(status) => {
            let start = indicators_start(status, base_x, name_width);
            let stash_width = (3 + decimal(status.stashes.len()).len()) as u16;
            let worktree_width = (2 + decimal(status.worktree_info.len()).len()) as u16;
            let stash_end = if status.stashes.len() > 0 {
                capped(start, stash_width)
            } else {
                start
            };
            IndicatorColumns {
                stash: if status.stashes.len() > 0 {
                    Some((start, stash_end))
                } else {
                    None
                },
                worktree: if status.worktree_info.len() > 0 {
                    Some((stash_end, capped(stash_end, worktree_width)))
                } else {
                    None
                },
            }
        },
    }
}

/// The columns of the indicators of a repository's row.
pub fn indicator_columns(entry: &RepoEntry, base_x: u16, name_width: u16) -> (r: IndicatorColumns)
    ensures
        r == columns_of(entry.deep_view(), base_x, name_width),
{
    let mut col: u16 = base_x;
    col = col.saturating_add(2);
    col = col.saturating_add(name_width);
    let mut out = IndicatorColumns { stash: None, worktree: None };
    let status = match &entry.status {
        Some(s) => s,
        None => return out,
    };
    let branch_len: usize = status.branch.as_str().unicode_len();
    let wide: usize = if branch_len < 12 {
        13
    } else {
        branch_len.saturating_add(1)
    };
    assert(branch_len == status.branch@.len());
    let branch: u16 = wide as u16;
    assert(branch == branch_width(status.branch@));
    col = col.saturating_add(branch);
    if status.ahead > 0 {
        col = col.saturating_add(2 + number_width(status.ahead));
    }
    if status.behind > 0 {
        col = col.saturating_add(2 + number_width(status.behind));
    }
    if !status.stashes.is_empty() {
        let start: u16 = col;
        let width: u16 = 3 + number_width(status.stashes.len());
        out.stash = Some((start, start.saturating_add(width)));
        col = col.saturating_add(width);
    }
    if !status.worktree_info.is_empty() {
        let start: u16 = col;
        let width: u16 = 2 + number_width(status.worktree_info.len());
        out.worktree = Some((start, start.saturating_add(width)));
    }
    out
}

/// The indicators do not overlap: that of the worktrees begins where that of the
/// stashes ends, and neither begins before the name ends.
pub proof fn law_indicators_are_adjacent(entry: RepoEntryView, base_x: u16, name_width: u16)
    ensures
        ({
            let cols = columns_of(entry, base_x, name_width);
            &&& cols.stash matches Some((s, e)) ==> capped(capped(base_x, 2), name_width) <= s <= e
            &&& cols.worktree matches Some((s, e)) ==> capped(capped(base_x, 2), name_width) <= s
                <= e
            &&& cols.stash is Some && cols.worktree is Some ==> (cols.stash->0).1
                == (cols.worktree->0).0
            &&& cols.stash is Some <==> stash_count(entry) > 0
            &&& cols.worktree is Some <==> worktrees(entry).len() > 0
        }),
{
}

/// The sign before a name: of an operation that runs, of changes, or none.
pub open spec fn marker(entry: RepoEntryView) -> Seq<char> {
    if entry.git_op {
        "~ "@
    } else if entry.status matches Some(status) && status.is_dirty {
        "* "@
    } else {
        "  "@
    }
}

/// A branch with spaces before it, up to twelve columns.
pub open spec fn padded(branch: Seq<char>) -> Seq<char> {
    if branch.len() < 12 {
        Seq::new((12 - branch.len()) as nat, |i: int| ' ') + branch
    } else {
        branch
    }
}

/// A count with a sign before and a space behind it, if there is anything to
/// count.
pub open spec fn counted(sign: Seq<char>, n: nat) -> Seq<char> {
    if n > 0 {
        sign + decimal(n) + " "@
    } else {
        Seq::empty()
    }
}

/// What stands before the indicators: the marker, the name, the branch and the
/// counts of commits ahead and behind.
pub open spec fn before_indicators(
    entry: RepoEntryView,
    status: RepoStatusView,
    name: Seq<char>,
) -> Seq<char> {
    marker(entry) + name + padded(status.branch) + " "@ + counted("↑"@, status.ahead as nat)
        + counted("↓"@, status.behind as nat)
}

/// The row of a repository that is shown under this name; what is not known yet
/// is shown as dots.
pub open spec fn repo_row(entry: RepoEntryView, name: Seq<char>) -> Seq<char> {
    match entry.status {
        Some(status) => before_indicators(entry, status, name) + counted(
            "▶$"@,
            status.stashes.len(),
        ) + counted("▶"@, status.worktree_info.len()),
        None => marker(entry) + name + " ..."@,
    }
}

/// Puts a count behind a text.
fn push_count(out: &mut String, sign: &str, n: usize)
    ensures
        final(out)@ == old(out)@ + counted(sign@, n as nat),
{
    if n > 0 {
        out.append(sign);
        push_number(out, n as u64);
        out.append(" ");
        assert(out@ =~= old(out)@ + counted(sign@, n as nat));
    } else {
        assert(out@ =~= old(out)@ + counted(sign@, n as nat));
    }
}

/// Puts a branch behind a text.
fn push_padded(out: &mut String, branch: &str)
    ensures
        final(out)@ == old(out)@ + padded(branch@),
{
    let len: usize = branch.unicode_len();
    let mut k: usize = len;
    let ghost given = out@;
    while k < 12
        invariant
            len <= k,
            len < 12 ==> k <= 12,
            len >= 12 ==> k == len,
            out@ =~= given + Seq::new((k - len) as nat, |i: int| ' '),
        decreases 12 - k,
    {
        out.push(' ');
        k = k + 1;
    }
    out.append(branch);
    assert(out@ =~= given + padded(branch@));
}

/// The row of a repository that is shown under this name.
pub fn repo_row_text(entry: &RepoEntry, name: &str) -> (r: String)
    ensures
        r@ == repo_row(entry.deep_view(), name@),
{
    let dirty = match &entry.status {
        Some(status) => status.is_dirty,
        None => false,
    };
    let mut out = if entry.git_op {
        String::from_str("~ ")
    } else if dirty {
        String::from_str("* ")
    } else {
        String::from_str("  ")
    };
    out.append(name);
    match &entry.status {
        Some(status) => {
            push_padded(&mut out, status.branch.as_str());
            out.append(" ");
            push_count(&mut out, "↑", status.ahead);
            push_count(&mut out, "↓", status.behind);
            push_count(&mut out, "▶$", status.stashes.len());
            push_count(&mut out, "▶", status.worktree_info.len());
        },
        None => {
            out.append(" ...");
        },
    }
    out
}

/// A click finds what is shown: in the columns that are given for an indicator
/// stand its sign and its count, where the row ends inside the columns there are.
pub proof fn law_indicators_stand_in_their_columns(
    entry: RepoEntryView,
    name: Seq<char>,
    base_x: u16,
)
    requires
        base_x + repo_row(entry, name).len() <= u16::MAX,
    ensures
        ({
            let cols = columns_of(entry, base_x, name.len() as u16);
            let row = repo_row(entry, name);
            &&& cols.stash matches Some((from, to)) ==> row.subrange(from - base_x, to - base_x)
                == counted("▶$"@, stash_count(entry))
            &&& cols.worktree matches Some((from, to)) ==> row.subrange(
                from - base_x,
                to - base_x,
            ) == counted("▶"@, worktrees(entry).len())
        }),
{
    reveal_strlit("~ ");
    reveal_strlit("* ");
    reveal_strlit("  ");
    reveal_strlit(" ");
    reveal_strlit("↑");
    reveal_strlit("↓");
    reveal_strlit("▶$");
    reveal_strlit("▶");
    if let Some(status) = entry.status {
        let cols = columns_of(entry, base_x, name.len() as u16);
        let row = repo_row(entry, name);
        let before = before_indicators(entry, status, name);
        let stashes = counted("▶$"@, status.stashes.len());
        let trees = counted("▶"@, status.worktree_info.len());
        assert(row == before + stashes + trees);
        assert(marker(entry).len() == 2);
        assert(padded(status.branch).len() + 1 == branch_width(status.branch));
        assert(counted("↑"@, status.ahead as nat).len() == count_width(status.ahead));
        assert(counted("↓"@, status.behind as nat).len() == count_width(status.behind));
        assert(indicators_start(status, base_x, name.len() as u16) == base_x + before.len());
        assert(row.subrange(before.len() as int, (before.len() + stashes.len()) as int)
            =~= stashes);
        assert(row.subrange((before.len() + stashes.len()) as int, row.len() as int) =~= trees);
    }
}

/// A row of the list as it is shown: what it stands for, and its text.
pub struct ListRow {
    pub row: DisplayRow,
    pub text: String,
}

/// What a row holds.
#[verifier::ext_equal]
pub struct ListRowView {
    pub row: DisplayRow,
    pub text: Seq<char>,
}

impl DeepView for ListRow {
    type V = ListRowView;

    open spec fn deep_view(&self) -> ListRowView {
        ListRowView { row: self.row, text: self.text@ }
    }
}

/// The list as it is shown.
pub struct RepoListPicture {
    pub area: Rect,
    pub title: String,
    pub border: Color,
    pub selection_bg: Color,
    pub rows: Vec<ListRow>,
}

/// What the picture of the list holds.
#[verifier::ext_equal]
pub struct RepoListPictureView {
    pub area: Rect,
    pub title: Seq<char>,
    pub border: Color,
    pub selection_bg: Color,
    pub rows: Seq<ListRowView>,
}

impl DeepView for RepoListPicture {
    type V = RepoListPictureView;

    open spec fn deep_view(&self) -> RepoListPictureView {
        RepoListPictureView {
            area: self.area,
            title: self.title@,
            border: self.border,
            selection_bg: self.selection_bg,
            rows: self.rows.deep_view(),
        }
    }
}

/// The width between the borders of an area.
pub open spec fn inner_width(area: Rect) -> u16 {
    if area.width >= 2 {
        (area.width - 2) as u16
    } else {
        0
    }
}

impl RepoListView {
    /// The text of a row: that of a repository under its name, cut to the width,
    /// the branch of a worktree, the message of a stash.
    pub open spec fn row_text(self, row: DisplayRow) -> Seq<char> {
        match row {
            DisplayRow::Repo(i) => repo_row(
                self.repos[i as int],
                ellipsized(
                    self.repos[i as int].display,
                    name_room(inner_width(self.render_area)),
                ),
            ),
            DisplayRow::Worktree(i, w) => worktrees(self.repos[i as int])[w as int].branch,
            DisplayRow::Stash(i, s) => self.repos[i as int].status->0.stashes[s as int].message,
        }
    }

    /// The list as it is shown.
    pub open spec fn picture(self) -> RepoListPictureView {
        RepoListPictureView {
            area: self.render_area,
            title: " Repositories "@,
            border: if self.focused {
                self.theme.repo_list.border_focused
            } else {
                self.theme.repo_list.border_unfocused
            },
            selection_bg: self.theme.repo_list.selection_bg,
            rows: Seq::new(
                self.display_rows.len(),
                |k: int|
                    ListRowView {
                        row: self.display_rows[k],
                        text: self.row_text(self.display_rows[k]),
                    },
            ),
        }
    }
}

impl RepoList {
    /// The text of a row.
    fn row_text(&self, row: DisplayRow) -> (r: String)
        requires
            row_fits(self@.repos, row),
        ensures
            r@ == self@.row_text(row),
    {
        match row {
            DisplayRow::Repo(i) => {
                assert(self@.repos[i as int] == self.repos@[i as int].deep_view());
                let inner: u16 = self.render_area.width.saturating_sub(2);
                let name = rendered_name(&self.repos[i], inner);
                repo_row_text(&self.repos[i], name.as_str())
            },
            DisplayRow::Worktree(i, w) => {
                assert(self@.repos[i as int] == self.repos@[i as int].deep_view());
                match &self.repos[i].status {
                    Some(status) => {
                        assert(worktrees(self@.repos[i as int])[w as int]
                            == status.worktree_info@[w as int].deep_view());
                        status.worktree_info[w].branch.clone()
                    },
                    None => String::new(),
                }
            },
            DisplayRow::Stash(i, s) => {
                assert(self@.repos[i as int] == self.repos@[i as int].deep_view());
                match &self.repos[i].status {
                    Some(status) => {
                        assert(self@.repos[i as int].status->0.stashes[s as int]
                            == status.stashes@[s as int].deep_view());
                        status.stashes[s].message.clone()
                    },
                    None => String::new(),
                }
            },
        }
    }

    /// Gives the list its place, and says what it shows there.
    pub fn draw(&mut self, area: Rect) -> (r: RepoListPicture)
        requires
            old(self)@.state.in_bounds(),
        ensures
            final(self)@ == (RepoListView { render_area: area, ..old(self)@ }).refreshed(),
            final(self)@.wf(),
            r.deep_view() == final(self)@.picture(),
    {
        self.render_area = area;
        self.rebuild_display_rows();
        proof {
            self.lemma_rows();
        }
        let ghost want = self@.picture().rows;
        let mut rows: Vec<ListRow> = Vec::new();
        let mut k: usize = 0;
        while k < self.display_rows.len()
            invariant
                k <= self.display_rows@.len(),
                want == self@.picture().rows,
                forall|j: int|
                    0 <= j < self@.display_rows.len() ==> row_fits(
                        self@.repos,
                        #[trigger] self@.display_rows[j],
                    ),
                rows.deep_view() =~= want.take(k as int),
            decreases self.display_rows@.len() - k,
        {
            let row = self.display_rows[k];
            assert(self@.display_rows[k as int] == row);
            let ghost before = rows.deep_view();
            let line = ListRow { row, text: self.row_text(row) };
            assert(line.deep_view() == want[k as int]);
            rows.push(line);
            assert(rows.deep_view() =~= before.push(line.deep_view()));
            k = k + 1;
        }
        assert(rows.deep_view() =~= want);
        let border = if self.focused {
            self.theme.repo_list.border_focused
        } else {
            self.theme.repo_list.border_unfocused
        };
        RepoListPicture {
            area,
            title: String::from_str(" Repositories "),
            border,
            selection_bg: self.theme.repo_list.selection_bg,
            rows,
        }
    }
}

} // verus!
