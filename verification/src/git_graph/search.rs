//! Searching the graph.
use vstd::prelude::*;
use vstd::string::*;
use crate::action::Action;
use crate::git_graph::{GitGraph, GraphView};
use crate::model::{GraphRow, GraphRowView};
use crate::screen::Key;
use crate::text::{contains_text, lowercase, occurs, to_lowercase};

verus! {

/// The search that is under way.
pub struct SearchState {
    pub visible: bool,
    pub input: String,
    /// The rows found.
    pub matches: Vec<usize>,
    /// Which of the matches is the present one.
    pub current_match: Option<usize>,
}

/// What a search holds.
#[verifier::ext_equal]
pub struct SearchView {
    pub visible: bool,
    pub input: Seq<char>,
    pub matches: Seq<usize>,
    pub current_match: Option<usize>,
}

impl DeepView for SearchState {
    type V = SearchView;

    open spec fn deep_view(&self) -> SearchView {
        SearchView {
            visible: self.visible,
            input: self.input@,
            matches: self.matches@,
            current_match: self.current_match,
        }
    }
}

impl SearchView {
    /// No search.
    pub open spec fn blank() -> SearchView {
        SearchView {
            visible: false,
            input: Seq::empty(),
            matches: Seq::empty(),
            current_match: None,
        }
    }

    /// The present match is one of the matches, and these are row numbers.
    pub open spec fn wf(self) -> bool {
        &&& self.current_match matches Some(i) ==> i < self.matches.len()
        &&& forall|k: int|
            0 <= k < self.matches.len() ==> (#[trigger] self.matches[k]) < usize::MAX
    }
}

impl SearchState {
    /// No search.
    pub fn new() -> (r: SearchState)
        ensures
            r.deep_view() == SearchView::blank(),
    {
        SearchState {
            visible: false,
            input: String::new(),
            matches: Vec::new(),
            current_match: None,
        }
    }

    /// Ends the search and forgets it.
    pub fn clear(&mut self)
        ensures
            final(self).deep_view() == SearchView::blank(),
    {
        self.visible = false;
        self.input.clear();
        self.matches.clear();
        self.current_match = None;
    }
}

/// A row is found by a query in lower case: its message, author or short id, put
/// in lower case, holds the query.
pub open spec fn row_found(row: GraphRowView, query: Seq<char>) -> bool {
    ||| occurs(query, lowercase(row.message))
    ||| occurs(query, lowercase(row.author))
    ||| occurs(query, lowercase(row.short_id))
}

/// The numbers, in order, of those of the first `n` rows that a query finds.
pub open spec fn found_rows(rows: Seq<GraphRowView>, query: Seq<char>, n: nat) -> Seq<usize>
    decreases n,
{
    if n == 0 {
        Seq::empty()
    } else {
        let before = found_rows(rows, query, (n - 1) as nat);
        if row_found(rows[n - 1], query) {
            before.push((n - 1) as usize)
        } else {
            before
        }
    }
}

impl GraphView {
    /// The matches are the rows shown that the input finds; the first of them is
    /// the present one. Without input there are none.
    pub open spec fn update_search_matches(self) -> GraphView {
        let matches = if self.search.input.len() == 0 {
            Seq::empty()
        } else {
            found_rows(
                self.display_rows(),
                lowercase(self.search.input),
                self.display_rows().len(),
            )
        };
        GraphView {
            search: SearchView {
                matches,
                current_match: if matches.len() > 0 {
                    Some(0)
                } else {
                    None
                },
                ..self.search
            },
            ..self
        }
    }

    /// Going to the match with number `m`.
    pub open spec fn at_match(self, m: usize) -> GraphView {
        GraphView {
            search: SearchView { current_match: Some(m), ..self.search },
            state: self.state.selecting(Some(self.search.matches[m as int])),
            ..self
        }
    }

    /// Going to the next match, from the last one to the first.
    pub open spec fn search_next(self) -> GraphView {
        let len = self.search.matches.len();
        if len == 0 {
            self
        } else {
            self.at_match(
                match self.search.current_match {
                    Some(i) => if i + 1 == len {
                        0
                    } else {
                        (i + 1) as usize
                    },
                    None => 0,
                },
            )
        }
    }

    /// Going to the match before, from the first one to the last.
    pub open spec fn search_prev(self) -> GraphView {
        let len = self.search.matches.len();
        if len == 0 {
            self
        } else {
            self.at_match(
                match self.search.current_match {
                    Some(i) => if i == 0 {
                        (len - 1) as usize
                    } else {
                        (i - 1) as usize
                    },
                    None => (len - 1) as usize,
                },
            )
        }
    }

    /// Opening an empty search.
    pub open spec fn open_search(self) -> GraphView {
        GraphView { search: SearchView { visible: true, ..SearchView::blank() }, ..self }
    }

    /// A key pressed while the search is open.
    pub open spec fn search_key(self, key: Key) -> GraphView {
        match key {
            Key::Esc => GraphView {
                search: SearchView { visible: false, ..self.search },
                ..self
            },
            Key::Enter => {
                let closed = GraphView {
                    search: SearchView { visible: false, ..self.search },
                    ..self
                };
                if self.search.matches.len() > 0 {
                    closed.at_match(0)
                } else {
                    closed
                }
            },
            Key::Backspace => GraphView {
                search: SearchView {
                    input: if self.search.input.len() > 0 {
                        self.search.input.drop_last()
                    } else {
                        self.search.input
                    },
                    ..self.search
                },
                ..self
            }.update_search_matches(),
            Key::Char(c) => GraphView {
                search: SearchView { input: self.search.input.push(c), ..self.search },
                ..self
            }.update_search_matches(),
            _ => self,
        }
    }
}

/// Whether a query stands in the message, the author or the short id of a row, all
/// of them in lower case.
pub fn found_in(query: &str, message: &str, author: &str, short_id: &str) -> (r: bool)
    ensures
        r == (occurs(query@, message@) || occurs(query@, author@) || occurs(query@, short_id@)),
{
    contains_text(message, query) || contains_text(author, query) || contains_text(
        short_id,
        query,
    )
}

/// Whether a row is found by a query in lower case.
fn row_matches(row: &GraphRow, query: &str) -> (r: bool)
    ensures
        r == row_found(row.deep_view(), query@),
{
    let message = to_lowercase(row.message.as_str());
    let author = to_lowercase(row.author.as_str());
    let short_id = to_lowercase(row.short_id.as_str());
    found_in(query, message.as_str(), author.as_str(), short_id.as_str())
}

/// The rows found are given in ascending order, and are all that the query finds.
pub proof fn lemma_found_rows(rows: Seq<GraphRowView>, query: Seq<char>, n: nat)
    requires
        n <= rows.len(),
        n <= usize::MAX,
    ensures
        forall|a: int, b: int|
            0 <= a < b < found_rows(rows, query, n).len() ==> (#[trigger] found_rows(
                rows,
                query,
                n,
            )[a]) < (#[trigger] found_rows(rows, query, n)[b]),
        forall|k: int|
            0 <= k < found_rows(rows, query, n).len() ==> (#[trigger] found_rows(
                rows,
                query,
                n,
            )[k]) < n,
        forall|i: usize| #[trigger]
            found_rows(rows, query, n).contains(i) <==> i < n && row_found(rows[i as int], query),
    decreases n,
{
    if n > 0 {
        let before = found_rows(rows, query, (n - 1) as nat);
        let now = found_rows(rows, query, n);
        lemma_found_rows(rows, query, (n - 1) as nat);
        assert forall|i: usize| #[trigger] now.contains(i) <==> i < n && row_found(
            rows[i as int],
            query,
        ) by {
            assert(before.contains(i) <==> i < n - 1 && row_found(rows[i as int], query));
            if before.contains(i) {
                let k = choose|k: int| 0 <= k < before.len() && before[k] == i;
                assert(now[k] == i);
            }
            if now.contains(i) {
                let k = choose|k: int| 0 <= k < now.len() && now[k] == i;
                if k < before.len() {
                    assert(before[k] == i);
                }
            }
            if i == n - 1 && row_found(rows[i as int], query) {
                assert(now[before.len() as int] == i);
            }
        }
    }
}

impl GitGraph {
    /// Looks for the input in the rows shown.
    pub fn update_search_matches(&mut self)
        requires
            old(self)@.wf(),
        ensures
            final(self)@ == old(self)@.update_search_matches(),
            final(self)@.wf(),
    {
        self.search.current_match = None;
        if self.search.input.as_str().is_empty() {
            self.search.matches.clear();
            return;
        }
        let query = to_lowercase(self.search.input.as_str());
        let mut matches: Vec<usize> = Vec::new();
        let rows = self.display_rows();
        let ghost all = rows.deep_view();
        let mut i: usize = 0;
        while i < rows.len()
            invariant
                all == rows.deep_view(),
                i <= rows@.len(),
                matches@ == found_rows(all, query@, i as nat),
            decreases rows@.len() - i,
        {
            assert(all[i as int] == rows@[i as int].deep_view());
            if row_matches(&rows[i], query.as_str()) {
                matches.push(i);
            }
            i = i + 1;
        }
        proof {
            assert(rows.len() == all.len());
            lemma_found_rows(all, query@, all.len());
        }
        if !matches.is_empty() {
            self.search.current_match = Some(0);
        }
        self.search.matches = matches;
    }

    /// Goes to match `m`.
    fn go_to_match(&mut self, m: usize)
        requires
            old(self)@.wf(),
            m < old(self)@.search.matches.len(),
        ensures
            final(self)@ == old(self)@.at_match(m),
            final(self)@.wf(),
    {
        let row: usize = self.search.matches[m];
        assert(self@.search.matches[m as int] == row);
        self.search.current_match = Some(m);
        self.state.select(Some(row));
    }

    /// Goes to the next match.
    pub fn search_next(&mut self)
        requires
            old(self)@.wf(),
        ensures
            final(self)@ == old(self)@.search_next(),
            final(self)@.wf(),
    {
        if self.search.matches.is_empty() {
            return;
        }
        let len: usize = self.search.matches.len();
        let next: usize = match self.search.current_match {
            Some(i) => if i + 1 == len {
                0
            } else {
                i + 1
            },
            None => 0,
        };
        self.go_to_match(next);
    }

    /// Goes to the match before.
    pub fn search_prev(&mut self)
        requires
            old(self)@.wf(),
        ensures
            final(self)@ == old(self)@.search_prev(),
            final(self)@.wf(),
    {
        if self.search.matches.is_empty() {
            return;
        }
        let len: usize = self.search.matches.len();
        let prev: usize = match self.search.current_match {
            Some(i) => if i == 0 {
                len - 1
            } else {
                i - 1
            },
            None => len - 1,
        };
        self.go_to_match(prev);
    }

    /// Opens an empty search.
    pub fn open_search(&mut self)
        ensures
            final(self)@ == old(self)@.open_search(),
            old(self)@.wf() ==> final(self)@.wf(),
    {
        self.search.visible = true;
        self.search.input.clear();
        self.search.matches.clear();
        self.search.current_match = None;
    }

    /// Whether the search is open.
    pub fn search_visible(&self) -> (r: bool)
        ensures
            r == self@.search.visible,
    {
        self.search.visible
    }

    /// Handles a key while the search is open. No key asks for an action.
    pub fn handle_search_key(&mut self, key: Key) -> (r: Option<Action>)
        requires
            old(self)@.wf(),
        ensures
            final(self)@ == old(self)@.search_key(key),
            final(self)@.wf(),
            r is None,
    {
        match key {
            Key::Esc => {
                self.search.visible = false;
            },
            Key::Enter => {
                self.search.visible = false;
                if !self.search.matches.is_empty() {
                    self.search.current_match = Some(0);
                    self.state.select(Some(self.search.matches[0]));
                }
            },
            Key::Backspace => {
                self.search.input.pop();
                self.update_search_matches();
            },
            Key::Char(c) => {
                self.search.input.push(c);
                self.update_search_matches();
            },
            _ => {},
        }
        None
    }
}

/// The matches of a search are, in ascending order, exactly the rows shown whose
/// message, author or short id holds the input, upper and lower case alike.
pub proof fn law_matches_are_the_rows_found(graph: GraphView, i: usize)
    requires
        graph.search.input.len() > 0,
        graph.display_rows().len() <= usize::MAX,
    ensures
        graph.update_search_matches().search.matches.contains(i) <==> i
            < graph.display_rows().len() && row_found(
            graph.display_rows()[i as int],
            lowercase(graph.search.input),
        ),
        forall|a: int, b: int|
            0 <= a < b < graph.update_search_matches().search.matches.len() ==> (
            #[trigger] graph.update_search_matches().search.matches[a]) < (
            #[trigger] graph.update_search_matches().search.matches[b]),
{
    lemma_found_rows(
        graph.display_rows(),
        lowercase(graph.search.input),
        graph.display_rows().len(),
    );
}

/// An empty input finds nothing.
pub proof fn law_empty_input_finds_nothing(graph: GraphView)
    requires
        graph.search.input.len() == 0,
    ensures
        graph.update_search_matches().search.matches.len() == 0,
        graph.update_search_matches().search.current_match is None,
{
}

/// Going on to the next match and back again returns to the match it started
/// from, and so does going back and on.
pub proof fn law_next_and_previous_match_cancel(graph: GraphView)
    requires
        graph.wf(),
        graph.search.matches.len() <= usize::MAX,
        graph.search.current_match is Some,
    ensures
        graph.search_next().search_prev() == graph.at_match(graph.search.current_match->0),
        graph.search_prev().search_next() == graph.at_match(graph.search.current_match->0),
{
}

} // verus!
