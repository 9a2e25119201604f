//! Commits as the graph shows them, and what the graph is asked to show.
use vstd::prelude::*;
use vstd::string::*;
use crate::names::NameSet;

verus! {

/// The id of a commit: its twenty bytes, the first sixteen and the last four,
/// each read as a number with the most significant byte first.
#[derive(Clone, Copy, PartialEq, Eq, Structural, Debug)]
pub struct Oid {
    pub hi: u128,
    pub lo: u32,
}

/// The character for one hexadecimal digit.
pub open spec fn hex_digit(d: nat) -> char {
    if d < 10 {
        crate::text::digit(d)
    } else if d == 10 {
        'a'
    } else if d == 11 {
        'b'
    } else if d == 12 {
        'c'
    } else if d == 13 {
        'd'
    } else if d == 14 {
        'e'
    } else {
        'f'
    }
}

/// The last `width` hexadecimal digits of a number.
pub open spec fn hex(n: nat, width: nat) -> Seq<char>
    decreases width,
{
    if width == 0 {
        Seq::empty()
    } else {
        hex(n / 16, (width - 1) as nat).push(hex_digit(n % 16))
    }
}

impl Oid {
    /// The id in hexadecimal: forty digits.
    pub open spec fn text(self) -> Seq<char> {
        hex(self.hi as nat, 32) + hex(self.lo as nat, 8)
    }

    /// Calls `to_string` on the `git2::Oid` of these bytes, which writes them as
    /// forty lower-case hexadecimal digits.
    #[verifier::external_body]
    pub(crate) fn to_text(&self) -> (r: String)
        ensures
            r@ == self.text(),
    {
        let mut bytes = [0u8; 20];
        bytes[..16].copy_from_slice(&self.hi.to_be_bytes());
        bytes[16..].copy_from_slice(&self.lo.to_be_bytes());
        git2::Oid::from_bytes(&bytes).unwrap().to_string()
    }
}

/// How many lines a commit adds and deletes.
#[derive(Clone, Copy, PartialEq, Eq, Structural, Debug)]
pub struct DiffStat {
    pub additions: usize,
    pub deletions: usize,
}

/// A name that stands beside a commit.
pub struct BranchLabel {
    pub name: String,
    pub is_head: bool,
    pub is_remote: bool,
    pub is_worktree: bool,
    pub is_tag: bool,
    pub is_stash: bool,
}

/// What a label holds.
#[verifier::ext_equal]
pub struct BranchLabelView {
    pub name: Seq<char>,
    pub is_head: bool,
    pub is_remote: bool,
    pub is_worktree: bool,
    pub is_tag: bool,
    pub is_stash: bool,
}

impl DeepView for BranchLabel {
    type V = BranchLabelView;

    open spec fn deep_view(&self) -> BranchLabelView {
        BranchLabelView {
            name: self.name@,
            is_head: self.is_head,
            is_remote: self.is_remote,
            is_worktree: self.is_worktree,
            is_tag: self.is_tag,
            is_stash: self.is_stash,
        }
    }
}

impl Clone for BranchLabel {
    fn clone(&self) -> (r: BranchLabel)
        ensures
            r.deep_view() == self.deep_view(),
    {
        BranchLabel {
            name: self.name.clone(),
            is_head: self.is_head,
            is_remote: self.is_remote,
            is_worktree: self.is_worktree,
            is_tag: self.is_tag,
            is_stash: self.is_stash,
        }
    }
}

/// One row of the graph: a commit, or a placeholder for the commits of a
/// collapsed branch. The lanes drawn beside a row are found by its id.
pub struct GraphRow {
    pub commit_col: usize,
    pub oid: Oid,
    pub short_id: String,
    pub message: String,
    pub author: String,
    pub time: i64,
    pub labels: Vec<BranchLabel>,
    pub is_merge: bool,
    pub parent_oids: Vec<Oid>,
    pub diff_stat: Option<DiffStat>,
    /// The branch that a placeholder stands for, and how many commits it hides.
    pub collapsed: Option<(String, usize)>,
}

/// What a row holds.
#[verifier::ext_equal]
pub struct GraphRowView {
    pub commit_col: usize,
    pub oid: Oid,
    pub short_id: Seq<char>,
    pub message: Seq<char>,
    pub author: Seq<char>,
    pub time: i64,
    pub labels: Seq<BranchLabelView>,
    pub is_merge: bool,
    pub parent_oids: Seq<Oid>,
    pub diff_stat: Option<DiffStat>,
    pub collapsed: Option<(Seq<char>, usize)>,
}

impl DeepView for GraphRow {
    type V = GraphRowView;

    open spec fn deep_view(&self) -> GraphRowView {
        GraphRowView {
            commit_col: self.commit_col,
            oid: self.oid,
            short_id: self.short_id@,
            message: self.message@,
            author: self.author@,
            time: self.time,
            labels: self.labels.deep_view(),
            is_merge: self.is_merge,
            parent_oids: self.parent_oids@,
            diff_stat: self.diff_stat,
            collapsed: self.collapsed.deep_view(),
        }
    }
}

impl Clone for GraphRow {
    fn clone(&self) -> (r: GraphRow)
        ensures
            r.deep_view() == self.deep_view(),
    {
        let labels = self.labels.clone();
        assert(labels.deep_view() =~= self.labels.deep_view());
        let parent_oids = self.parent_oids.clone();
        assert(parent_oids@ =~= self.parent_oids@);
        let collapsed = match &self.collapsed {
            Some(c) => Some((c.0.clone(), c.1)),
            None => None,
        };
        GraphRow {
            commit_col: self.commit_col,
            oid: self.oid,
            short_id: self.short_id.clone(),
            message: self.message.clone(),
            author: self.author.clone(),
            time: self.time,
            labels,
            is_merge: self.is_merge,
            parent_oids,
            diff_stat: self.diff_stat,
            collapsed,
        }
    }
}

/// A branch off the main trunk: the rows of its commits, the tip first.
pub struct BranchSegment {
    pub id: String,
    pub display_name: String,
    pub row_indices: Vec<usize>,
}

/// What a branch segment holds.
#[verifier::ext_equal]
pub struct BranchSegmentView {
    pub id: Seq<char>,
    pub display_name: Seq<char>,
    pub row_indices: Seq<usize>,
}

impl DeepView for BranchSegment {
    type V = BranchSegmentView;

    open spec fn deep_view(&self) -> BranchSegmentView {
        BranchSegmentView {
            id: self.id@,
            display_name: self.display_name@,
            row_indices: self.row_indices@,
        }
    }
}

/// Which branches the graph is built from.
#[derive(Clone, Copy, PartialEq, Eq, Structural, Debug)]
pub enum BranchFilter {
    All,
    Local,
    Remote,
    /// Only what `HEAD` leads to.
    HeadOnly,
}

/// The branches and authors that the graph is limited to, where it is.
pub struct GraphFilters {
    pub branches: Option<NameSet>,
    pub authors: Option<NameSet>,
}

/// What the filters hold.
#[verifier::ext_equal]
pub struct GraphFiltersView {
    pub branches: Option<Seq<Seq<char>>>,
    pub authors: Option<Seq<Seq<char>>>,
}

impl DeepView for GraphFilters {
    type V = GraphFiltersView;

    open spec fn deep_view(&self) -> GraphFiltersView {
        GraphFiltersView {
            branches: self.branches.deep_view(),
            authors: self.authors.deep_view(),
        }
    }
}

/// Whether two optional sets of names are the same.
fn same_names(a: &Option<NameSet>, b: &Option<NameSet>) -> (r: bool)
    ensures
        r == (a.deep_view() == b.deep_view()),
{
    match (a, b) {
        (Some(x), Some(y)) => x.same(y),
        (None, None) => true,
        _ => false,
    }
}

fn copy_names(a: &Option<NameSet>) -> (r: Option<NameSet>)
    ensures
        r.deep_view() == a.deep_view(),
{
    match a {
        Some(x) => Some(x.clone()),
        None => None,
    }
}

impl Clone for GraphFilters {
    fn clone(&self) -> (r: GraphFilters)
        ensures
            r.deep_view() == self.deep_view(),
    {
        GraphFilters { branches: copy_names(&self.branches), authors: copy_names(&self.authors) }
    }
}

impl GraphFiltersView {
    /// Nothing is filtered out.
    pub open spec fn everything() -> GraphFiltersView {
        GraphFiltersView { branches: None, authors: None }
    }
}

impl GraphFilters {
    /// Filters that let everything through.
    pub fn new() -> (r: GraphFilters)
        ensures
            r.deep_view() == GraphFiltersView::everything(),
    {
        GraphFilters { branches: None, authors: None }
    }

    /// Whether two filters let the same through.
    pub fn same(&self, other: &GraphFilters) -> (r: bool)
        ensures
            r == (self.deep_view() == other.deep_view()),
    {
        same_names(&self.branches, &other.branches) && same_names(&self.authors, &other.authors)
    }
}

/// How the graph is built and drawn.
pub struct GraphOptions {
    pub branch_filter: BranchFilter,
    pub label_max_len: usize,
    pub first_parent: bool,
    pub show_stats: bool,
    pub filters: GraphFilters,
}

/// What the options hold.
#[verifier::ext_equal]
pub struct GraphOptionsView {
    pub branch_filter: BranchFilter,
    pub label_max_len: usize,
    pub first_parent: bool,
    pub show_stats: bool,
    pub filters: GraphFiltersView,
}

impl DeepView for GraphOptions {
    type V = GraphOptionsView;

    open spec fn deep_view(&self) -> GraphOptionsView {
        GraphOptionsView {
            branch_filter: self.branch_filter,
            label_max_len: self.label_max_len,
            first_parent: self.first_parent,
            show_stats: self.show_stats,
            filters: self.filters.deep_view(),
        }
    }
}

impl Clone for GraphOptions {
    fn clone(&self) -> (r: GraphOptions)
        ensures
            r.deep_view() == self.deep_view(),
    {
        GraphOptions {
            branch_filter: self.branch_filter,
            label_max_len: self.label_max_len,
            first_parent: self.first_parent,
            show_stats: self.show_stats,
            filters: self.filters.clone(),
        }
    }
}

} // verus!
