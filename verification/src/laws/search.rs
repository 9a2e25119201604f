//! Searching the graph.
use vstd::prelude::*;

use crate::git_graph::GraphView;
use crate::git_graph::search::{lemma_found_rows, SearchView};
use crate::model::GraphRowView;
use crate::screen::Key;
use crate::text::lowercase;

verus! {

/// Some text stands somewhere in another.
pub open spec fn stands_in(part: Seq<char>, whole: Seq<char>) -> bool {
    exists|i: int|
        0 <= i <= whole.len() - part.len() && #[trigger] whole.subrange(i, i + part.len()) == part
}

/// A row is meant by what is typed: it stands in the message, in the author or in the
/// short id, upper and lower case being the same.
pub open spec fn meant(row: GraphRowView, typed: Seq<char>) -> bool {
    ||| stands_in(lowercase(typed), lowercase(row.message))
    ||| stands_in(lowercase(typed), lowercase(row.author))
    ||| stands_in(lowercase(typed), lowercase(row.short_id))
}

/// The rows in sight: all of them, unless branches are collapsed.
pub open spec fn in_sight(graph: GraphView) -> Seq<GraphRowView> {
    if graph.collapsed == Set::<Seq<char>>::empty() {
        graph.all_rows
    } else {
        graph.rows
    }
}

pub(crate) proof fn lemma_in_sight(graph: GraphView)
    ensures
        in_sight(graph) == graph.display_rows(),
{
    if graph.collapsed.is_empty() {
        assert(graph.collapsed =~= Set::<Seq<char>>::empty());
    }
}

proof fn lemma_stands_in(part: Seq<char>, whole: Seq<char>)
    ensures
        stands_in(part, whole) == crate::text::occurs(part, whole),
{
    if stands_in(part, whole) {
        let i = choose|i: int|
            0 <= i <= whole.len() - part.len() && #[trigger] whole.subrange(i, i + part.len())
                == part;
        assert(crate::text::occurs_at(part, whole, i));
    }
    if crate::text::occurs(part, whole) {
        let i = choose|i: int| crate::text::occurs_at(part, whole, i);
        assert(whole.subrange(i, i + part.len()) == part);
    }
}

/// With the search open, typing a character adds it at the end, and finds exactly
/// the rows in sight that are meant, from the top down; the first of them is the
/// present one. The rows can be counted.
pub proof fn law_typing_finds_what_is_meant(graph: GraphView, c: char, i: usize)
    requires
        in_sight(graph).len() <= usize::MAX,
    ensures
        ({
            let after = graph.search_key(Key::Char(c));
            let found = after.search.matches;
            &&& after.search.input == graph.search.input.push(c)
            &&& after.search.visible == graph.search.visible
            &&& found.contains(i) <==> i < in_sight(graph).len() && meant(
                in_sight(graph)[i as int],
                graph.search.input.push(c),
            )
            &&& forall|a: int, b: int|
                0 <= a < b < found.len() ==> (#[trigger] found[a]) < (#[trigger] found[b])
            &&& after.search.current_match == if found.len() > 0 {
                Some(0usize)
            } else {
                None
            }
            &&& after == GraphView { search: after.search, ..graph }
        }),
{
    let typed = graph.search.input.push(c);
    let query = lowercase(typed);
    lemma_in_sight(graph);
    lemma_found_rows(in_sight(graph), query, in_sight(graph).len());
    if i < in_sight(graph).len() {
        let row = in_sight(graph)[i as int];
        lemma_stands_in(query, lowercase(row.message));
        lemma_stands_in(query, lowercase(row.author));
        lemma_stands_in(query, lowercase(row.short_id));
    }
}

/// Backspace takes the last character back, and finds what is meant by the rest;
/// with nothing typed nothing is found.
pub proof fn law_backspace_takes_back(graph: GraphView, i: usize)
    requires
        in_sight(graph).len() <= usize::MAX,
    ensures
        ({
            let after = graph.search_key(Key::Backspace);
            let found = after.search.matches;
            &&& graph.search.input.len() > 0 ==> after.search.input
                == graph.search.input.drop_last()
            &&& graph.search.input.len() == 0 ==> after.search.input == graph.search.input
            &&& after.search.input.len() == 0 ==> found.len() == 0
                && after.search.current_match is None
            &&& after.search.input.len() > 0 ==> (found.contains(i) <==> i < in_sight(graph).len()
                && meant(in_sight(graph)[i as int], after.search.input))
            &&& found.len() > 0 ==> after.search.current_match == Some(0usize)
            &&& after == GraphView { search: after.search, ..graph }
        }),
{
    let after = graph.search_key(Key::Backspace);
    let query = lowercase(after.search.input);
    lemma_in_sight(graph);
    lemma_found_rows(in_sight(graph), query, in_sight(graph).len());
    if i < in_sight(graph).len() {
        let row = in_sight(graph)[i as int];
        lemma_stands_in(query, lowercase(row.message));
        lemma_stands_in(query, lowercase(row.author));
        lemma_stands_in(query, lowercase(row.short_id));
    }
}

/// Typing one character and taking it back searches for the same as before.
pub proof fn law_backspace_undoes_typing(graph: GraphView, c: char)
    ensures
        graph.search_key(Key::Char(c)).search_key(Key::Backspace).search.input
            == graph.search.input,
{
    assert(graph.search.input.push(c).drop_last() =~= graph.search.input);
}

/// Enter closes the search and goes to the first match; Escape closes it, and both
/// keep what was typed and found.
pub proof fn law_search_is_confirmed_or_left(graph: GraphView)
    ensures
        ({
            let entered = graph.search_key(Key::Enter);
            let left = graph.search_key(Key::Esc);
            &&& !entered.search.visible && !left.search.visible
            &&& entered.search.input == graph.search.input
            &&& entered.search.matches == graph.search.matches
            &&& graph.search.matches.len() > 0 ==> entered.search.current_match == Some(0usize)
                && entered.state.selected == Some(graph.search.matches[0])
            &&& graph.search.matches.len() == 0 ==> entered.state == graph.state
            &&& left == GraphView {
                search: SearchView { visible: false, ..graph.search },
                ..graph
            }
        }),
{
}

/// Opening a search starts it anew: it is shown, nothing is typed, and nothing found.
/// In the list of commits `/` opens it, and `n` and `N` step through it.
pub proof fn law_search_opens_empty(graph: GraphView)
    ensures
        graph.open_search() == (GraphView {
            search: SearchView {
                visible: true,
                input: Seq::empty(),
                matches: Seq::empty(),
                current_match: None,
            },
            ..graph
        }),
        graph.detail is None ==> graph.key_event(Key::Char('/')).graph == graph.open_search(),
        graph.detail is None ==> graph.key_event(Key::Char('n')).graph == graph.search_next(),
        graph.detail is None ==> graph.key_event(Key::Char('N')).graph == graph.search_prev(),
{
}

/// Other keys change nothing in an open search.
pub proof fn law_other_keys_leave_the_search(graph: GraphView)
    ensures
        graph.search_key(Key::Up) == graph,
        graph.search_key(Key::Down) == graph,
        graph.search_key(Key::Left) == graph,
        graph.search_key(Key::Right) == graph,
        graph.search_key(Key::Other) == graph,
{
}

/// The next match is the next one further down, and after the last the first; the
/// match before is the next one further up, and before the first the last. The row
/// of the match is selected, and nothing else changes.
pub proof fn law_matches_are_stepped_through(graph: GraphView, i: usize)
    requires
        graph.search.matches.len() <= usize::MAX,
        graph.search.current_match == Some(i),
        i < graph.search.matches.len(),
    ensures
        ({
            let last = graph.search.matches.len() - 1;
            let next = graph.search_next();
            let prev = graph.search_prev();
            &&& i < last ==> next.search.current_match == Some((i + 1) as usize)
                && next.state.selected == Some(graph.search.matches[i + 1])
            &&& i == last ==> next.search.current_match == Some(0usize) && next.state.selected
                == Some(graph.search.matches[0])
            &&& i > 0 ==> prev.search.current_match == Some((i - 1) as usize)
                && prev.state.selected == Some(graph.search.matches[i - 1])
            &&& i == 0 ==> prev.search.current_match == Some(last as usize)
                && prev.state.selected == Some(graph.search.matches[last])
            &&& next.search.matches == graph.search.matches
            &&& prev.search.matches == graph.search.matches
            &&& next == GraphView { search: next.search, state: next.state, ..graph }
            &&& prev == GraphView { search: prev.search, state: prev.state, ..graph }
            &&& next.search == SearchView { current_match: next.search.current_match, ..graph.search }
            &&& prev.search == SearchView { current_match: prev.search.current_match, ..graph.search }
        }),
{
}

/// Without a present match the next one is the first and the one before is the last;
/// where nothing was found, nothing changes.
pub proof fn law_stepping_starts_at_an_end(graph: GraphView)
    requires
        graph.search.matches.len() <= usize::MAX,
        graph.search.current_match is None,
    ensures
        graph.search.matches.len() > 0 ==> graph.search_next().search.current_match == Some(0usize)
            && graph.search_next().state.selected == Some(graph.search.matches[0]),
        graph.search.matches.len() > 0 ==> graph.search_prev().search.current_match == Some(
            (graph.search.matches.len() - 1) as usize,
        ) && graph.search_prev().state.selected == Some(graph.search.matches.last()),
        graph.search.matches.len() == 0 ==> graph.search_next() == graph && graph.search_prev()
            == graph,
{
}

} // verus!
