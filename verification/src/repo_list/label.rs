//! How repositories are named in the list.
use vstd::prelude::*;
use vstd::string::*;
use crate::paths::{below, is_under, lies_under, relative_to};
use crate::repo_list::{repo_name, RepoEntry};
use crate::text::{before_char, chars_of, lemma_before_char, string_of};

verus! {

/// How a path is shown: relative to the first of the roots that it lies below,
/// else by its name.
pub open spec fn shown_path(path: Seq<char>, roots: Seq<Seq<char>>) -> Seq<char>
    decreases roots.len(),
{
    if roots.len() == 0 {
        repo_name(path)
    } else if lies_under(path, roots[0]) && below(path, roots[0]).len() > 0 {
        below(path, roots[0])
    } else {
        shown_path(path, roots.drop_first())
    }
}

/// How a path is shown.
pub fn display_path(path: &str, roots: &Vec<String>) -> (r: String)
    ensures
        r@ == shown_path(path@, roots.deep_view()),
{
    let ghost all = roots.deep_view();
    let mut i: usize = 0;
    assert(all.skip(0) =~= all);
    while i < roots.len()
        invariant
            i <= roots@.len(),
            all == roots.deep_view(),
            shown_path(path@, all) == shown_path(path@, all.skip(i as int)),
        decreases roots@.len() - i,
    {
        let root = &roots[i];
        assert(all.skip(i as int)[0] == root@);
        assert(all.skip(i as int).drop_first() =~= all.skip(i + 1));
        if is_under(path, root.as_str()) {
            let rel = relative_to(path, root.as_str());
            if !rel.as_str().is_empty() {
                return rel;
            }
        }
        i = i + 1;
    }
    match crate::paths::file_name(path) {
        Some(name) => name,
        None => String::from_str(path),
    }
}

/// What stands behind the last slash.
pub open spec fn tail_of(s: Seq<char>) -> Seq<char>
    decreases s.len(),
{
    let i = before_char(s, '/') as int;
    if i < s.len() {
        tail_of(s.skip(i + 1))
    } else {
        s
    }
}

/// A path cut to `max` characters: its first and last names with an ellipsis
/// between them, else only the last name, else only the beginning.
pub open spec fn ellipsized(s: Seq<char>, max: nat) -> Seq<char> {
    let slash = before_char(s, '/') as int;
    let both = s.take(slash) + "/…/"@ + tail_of(s);
    let tail = "…/"@ + tail_of(s);
    if s.len() <= max {
        s
    } else if max == 0 {
        Seq::empty()
    } else if slash < s.len() && both.len() <= max {
        both
    } else if slash < s.len() && tail.len() <= max {
        tail
    } else {
        s.take(max - 1) + "…"@
    }
}

/// The cut path is no longer than asked for, and a path that fits is not cut.
pub proof fn law_ellipsized_fits(s: Seq<char>, max: nat)
    ensures
        ellipsized(s, max).len() <= max,
        s.len() <= max ==> ellipsized(s, max) == s,
{
    reveal_strlit("…");
}

proof fn lemma_tail(s: Seq<char>, from: int)
    requires
        0 <= from <= s.len(),
        forall|k: int| from <= k < s.len() ==> s[k] != '/',
        from > 0 ==> s[from - 1] == '/',
    ensures
        tail_of(s) == s.skip(from),
    decreases s.len(),
{
    let i = before_char(s, '/') as int;
    lemma_before_char(s, '/');
    if i < s.len() {
        assert(i < from);
        let rest = s.skip(i + 1);
        lemma_tail(rest, from - i - 1);
        assert(rest.skip(from - i - 1) =~= s.skip(from));
    } else {
        assert(from == 0);
        assert(s.skip(0) =~= s);
    }
}

/// A path cut to `max` characters.
pub fn middle_ellipsize(s: &str, max: usize) -> (r: String)
    ensures
        r@ == ellipsized(s@, max as nat),
{
    let v = chars_of(s);
    let total: usize = v.len();
    if total <= max {
        return String::from_str(s);
    }
    if max == 0 {
        return String::new();
    }
    let mut first: usize = 0;
    while first < total && v[first] != '/'
        invariant
            first <= total,
            total == v@.len(),
            forall|k: int| 0 <= k < first ==> v@[k] != '/',
        ensures
            first <= total,
            forall|k: int| 0 <= k < first ==> v@[k] != '/',
            first < total ==> v@[first as int] == '/',
        decreases total - first,
    {
        first = first + 1;
    }
    proof {
        lemma_before_char(s@, '/');
        assert(before_char(s@, '/') == first);
        reveal_strlit("/…/");
        reveal_strlit("…/");
        reveal_strlit("…");
    }
    if first < total {
        let mut last: usize = total;
        while last > 0 && v[last - 1] != '/'
            invariant
                last <= total,
                total == v@.len(),
                forall|k: int| last <= k < total ==> v@[k] != '/',
            ensures
                last <= total,
                forall|k: int| last <= k < total ==> v@[k] != '/',
                last > 0 ==> v@[last - 1] == '/',
            decreases last,
        {
            last = last - 1;
        }
        let tail_len: usize = total - last;
        proof {
            lemma_tail(s@, last as int);
            assert(last > first);
        }
        let tail = string_of(&v, last, total);
        assert(tail@ =~= tail_of(s@));
        if max >= 3 && first <= max - 3 && tail_len <= max - 3 - first {
            let mut out = string_of(&v, 0, first);
            assert(out@ =~= s@.take(first as int));
            out.append("/…/");
            out.append(tail.as_str());
            return out;
        }
        assert((s@.take(first as int) + "/…/"@ + tail_of(s@)).len() == first + 3 + tail_len);
        if 1 < max && tail_len <= max - 2 {
            let mut out = String::from_str("…/");
            out.append(tail.as_str());
            return out;
        }
    }
    let mut out = string_of(&v, 0, max - 1);
    assert(out@ =~= s@.take(max - 1));
    out.append("…");
    out
}

/// How many characters of a row are left for a name behind the marker.
pub open spec fn name_room(inner_width: u16) -> nat {
    if inner_width >= 2 {
        (inner_width - 2) as nat
    } else {
        0
    }
}

/// The name of a repository as it is shown in a row of this width.
pub fn rendered_name(entry: &RepoEntry, inner_width: u16) -> (r: String)
    ensures
        r@ == ellipsized(entry.display@, name_room(inner_width)),
{
    middle_ellipsize(entry.display.as_str(), inner_width.saturating_sub(2) as usize)
}

} // verus!
