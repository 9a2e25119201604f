//! Paths, taken apart at their slashes.
use vstd::prelude::*;
use vstd::string::*;
use crate::text::{before_char, chars_of, lemma_before_char, same_text, string_of};

verus! {

/// What stands between the slashes of a path.
pub open spec fn segments(s: Seq<char>) -> Seq<Seq<char>>
    decreases s.len(),
{
    let i = before_char(s, '/') as int;
    if i < s.len() {
        seq![s.take(i)] + segments(s.skip(i + 1))
    } else {
        seq![s]
    }
}

/// A segment counts: it is not empty, and no `.` but at the start of the path.
pub open spec fn counts(first: bool, segment: Seq<char>) -> bool {
    segment.len() > 0 && (first || segment != "."@)
}

/// The segments that count, of which the first is the first of the path if `first`.
pub open spec fn counting(segments: Seq<Seq<char>>, first: bool) -> Seq<Seq<char>>
    decreases segments.len(),
{
    if segments.len() == 0 {
        Seq::empty()
    } else if counts(first, segments[0]) {
        seq![segments[0]] + counting(segments.drop_first(), false)
    } else {
        counting(segments.drop_first(), false)
    }
}

/// The names that a path leads through.
pub open spec fn parts(path: Seq<char>) -> Seq<Seq<char>> {
    counting(segments(path), true)
}

/// A path that begins at the root of the file system.
pub open spec fn absolute(path: Seq<char>) -> bool {
    path.len() > 0 && path[0] == '/'
}

/// Names with slashes between them.
pub open spec fn slashed(names: Seq<Seq<char>>) -> Seq<char>
    decreases names.len(),
{
    if names.len() == 0 {
        Seq::empty()
    } else if names.len() == 1 {
        names[0]
    } else {
        names[0] + "/"@ + slashed(names.drop_first())
    }
}

pub(crate) proof fn lemma_slashed_push(names: Seq<Seq<char>>, name: Seq<char>)
    requires
        names.len() > 0,
    ensures
        slashed(names.push(name)) == slashed(names) + "/"@ + name,
    decreases names.len(),
{
    let longer = names.push(name);
    if names.len() == 1 {
        assert(longer.drop_first() =~= seq![name]);
        assert(slashed(seq![name]) == name);
    } else {
        lemma_slashed_push(names.drop_first(), name);
        assert(longer.drop_first() =~= names.drop_first().push(name));
        assert(slashed(longer) =~= slashed(names) + "/"@ + name);
    }
}

/// The path through some names.
pub open spec fn built(from_root: bool, names: Seq<Seq<char>>) -> Seq<char> {
    if from_root {
        "/"@ + slashed(names)
    } else {
        slashed(names)
    }
}

/// A path as it is written without needless slashes and dots.
pub open spec fn normal(path: Seq<char>) -> Seq<char> {
    built(absolute(path), parts(path))
}

/// `path` seen from `base`: `path` itself where it is absolute.
pub open spec fn joined(base: Seq<char>, path: Seq<char>) -> Seq<char> {
    if absolute(path) || base.len() == 0 {
        path
    } else if base.last() == '/' {
        base + path
    } else {
        base + "/"@ + path
    }
}

/// The name that a path ends in, unless it ends in dots or has none.
pub open spec fn name_of(path: Seq<char>) -> Option<Seq<char>> {
    let names = parts(path);
    if names.len() == 0 || names.last() == "."@ || names.last() == ".."@ {
        None
    } else {
        Some(names.last())
    }
}

/// The path without the name it ends in.
pub open spec fn parent_of(path: Seq<char>) -> Option<Seq<char>> {
    let names = parts(path);
    if names.len() == 0 {
        None
    } else {
        Some(built(absolute(path), names.drop_last()))
    }
}

/// `path` leads through all of `root`, name by name.
pub open spec fn lies_under(path: Seq<char>, root: Seq<char>) -> bool {
    let names = parts(root);
    &&& absolute(root) || names.len() > 0 ==> absolute(path) == absolute(root)
    &&& names.len() <= parts(path).len()
    &&& parts(path).take(names.len() as int) == names
}

/// One of the names of `path`, from number `from` on, is `name`.
pub open spec fn leads_through(path: Seq<char>, name: Seq<char>, from: nat) -> bool {
    exists|k: int| from <= k < parts(path).len() && #[trigger] parts(path)[k] == name
}

/// What is left of `path` below `root`.
pub open spec fn below(path: Seq<char>, root: Seq<char>) -> Seq<char> {
    slashed(parts(path).skip(parts(root).len() as int))
}

/// The names that a path leads through.
pub fn parts_of(path: &str) -> (r: Vec<String>)
    ensures
        r.deep_view() == parts(path@),
{
    let v = chars_of(path);
    let mut out: Vec<String> = Vec::new();
    let mut start: usize = 0;
    let mut i: usize = 0;
    let mut first = true;
    assert(v@.skip(0) =~= v@);
    assert(out.deep_view() + counting(segments(v@), true) =~= parts(path@));
    while i <= v.len()
        invariant
            v@ == path@,
            start <= i <= v@.len() + 1,
            start <= v@.len() || i == v@.len() + 1,
            forall|k: int| start <= k < i && k < v@.len() ==> v@[k] != '/',
            i <= v@.len() ==> out.deep_view() + counting(
                segments(v@.skip(start as int)),
                first,
            ) == parts(path@),
            i == v@.len() + 1 ==> out.deep_view() == parts(path@),
        decreases v@.len() + 1 - i,
    {
        if i == v.len() || v[i] == '/' {
            let ghost rest = v@.skip(start as int);
            let ghost before = out.deep_view();
            let name = string_of(&v, start, i);
            proof {
                lemma_before_char(rest, '/');
                assert forall|k: int| 0 <= k < i - start implies rest[k] != '/' by {
                    assert(rest[k] == v@[start + k]);
                }
                if i < v@.len() {
                    assert(rest[i - start] == '/');
                }
                assert(before_char(rest, '/') == i - start);
                assert(rest.take(i - start) =~= name@);
                if i < v@.len() {
                    assert(rest.skip(i - start + 1) =~= v@.skip(i + 1));
                    assert(segments(rest) =~= seq![name@] + segments(v@.skip(i + 1)));
                } else {
                    assert(name@ =~= rest);
                    assert(segments(rest) =~= seq![name@]);
                }
                assert(segments(rest)[0] == name@);
                if i < v@.len() {
                    assert(segments(rest).drop_first() =~= segments(v@.skip(i + 1)));
                } else {
                    assert(segments(rest).drop_first() =~= Seq::<Seq<char>>::empty());
                }
            }
            let at_end = i == v.len();
            let kept = !name.as_str().is_empty() && (first || !same_text(name.as_str(), "."));
            assert(kept == counts(first, name@));
            if kept {
                out.push(name);
                assert(out.deep_view() =~= before.push(name@));
            }
            first = false;
            proof {
                if at_end {
                    assert(counting(Seq::<Seq<char>>::empty(), false) =~= Seq::<Seq<char>>::empty());
                    assert(out.deep_view() =~= parts(path@));
                } else {
                    assert(out.deep_view() + counting(segments(v@.skip(i + 1)), false)
                        =~= parts(path@));
                }
            }
            if at_end {
                return out;
            }
            start = i + 1;
        }
        i = i + 1;
    }
    out
}

/// Whether a path begins at the root of the file system.
pub fn is_absolute(path: &str) -> (r: bool)
    ensures
        r == absolute(path@),
{
    let v = chars_of(path);
    v.len() > 0 && v[0] == '/'
}

/// The path through the names `from..to` of `names`.
fn build(from_root: bool, names: &Vec<String>, from: usize, to: usize) -> (r: String)
    requires
        from <= to <= names@.len(),
    ensures
        r@ == built(from_root, names.deep_view().subrange(from as int, to as int)),
{
    let mut out = if from_root {
        String::from_str("/")
    } else {
        String::new()
    };
    let ghost all = names.deep_view();
    let ghost lead = out@;
    let mut i: usize = from;
    assert(all.subrange(from as int, from as int) =~= Seq::<Seq<char>>::empty());
    assert(lead + slashed(Seq::empty()) =~= lead);
    while i < to
        invariant
            from <= i <= to <= names@.len(),
            all == names.deep_view(),
            out@ == lead + slashed(all.subrange(from as int, i as int)),
        decreases to - i,
    {
        let ghost done = all.subrange(from as int, i as int);
        let ghost more = all.subrange(from as int, i + 1);
        assert(more.drop_last() =~= done);
        assert(more.last() == names@[i as int]@);
        if i > from {
            out.append("/");
        }
        out.append(names[i].as_str());
        assert(out@ =~= lead + slashed(more)) by {
            if i == from {
                assert(more.len() == 1);
                assert(done =~= Seq::<Seq<char>>::empty());
            } else {
                lemma_slashed_push(done, more.last());
                assert(more =~= done.push(more.last()));
            }
        }
        i = i + 1;
    }
    assert(out@ =~= built(from_root, all.subrange(from as int, to as int)));
    out
}

/// A path without needless slashes and dots.
pub fn normal_path(path: &str) -> (r: String)
    ensures
        r@ == normal(path@),
{
    let names = parts_of(path);
    let r = build(is_absolute(path), &names, 0, names.len());
    assert(names.deep_view().subrange(0, names@.len() as int) =~= names.deep_view());
    r
}

/// `path` seen from `base`.
pub fn join(base: &str, path: &str) -> (r: String)
    ensures
        r@ == joined(base@, path@),
{
    let b = chars_of(base);
    if is_absolute(path) || b.len() == 0 {
        return String::from_str(path);
    }
    let mut out = String::from_str(base);
    if b[b.len() - 1] != '/' {
        out.append("/");
    }
    out.append(path);
    out
}

/// Whether one of the names of `path`, from number `from` on, is `name`.
pub fn has_name(path: &str, name: &str, from: usize) -> (r: bool)
    ensures
        r == leads_through(path@, name@, from as nat),
{
    let names = parts_of(path);
    let mut i: usize = from;
    while i < names.len()
        invariant
            from <= i,
            names.deep_view() == parts(path@),
            forall|k: int| from <= k < i && k < names@.len() ==> #[trigger] parts(path@)[k] != name@,
        decreases names@.len() - i,
    {
        assert(parts(path@)[i as int] == names@[i as int]@);
        if same_text(names[i].as_str(), name) {
            return true;
        }
        i = i + 1;
    }
    false
}

/// The name that a path ends in.
pub fn file_name(path: &str) -> (r: Option<String>)
    ensures
        r.deep_view() == name_of(path@),
{
    let names = parts_of(path);
    if names.len() == 0 {
        return None;
    }
    let last = &names[names.len() - 1];
    assert(last@ == parts(path@).last());
    if same_text(last.as_str(), ".") || same_text(last.as_str(), "..") {
        None
    } else {
        Some(last.clone())
    }
}

/// The path without the name it ends in.
pub fn parent(path: &str) -> (r: Option<String>)
    ensures
        r.deep_view() == parent_of(path@),
{
    let names = parts_of(path);
    if names.len() == 0 {
        return None;
    }
    let r = build(is_absolute(path), &names, 0, names.len() - 1);
    assert(names.deep_view().subrange(0, names@.len() - 1) =~= names.deep_view().drop_last());
    Some(r)
}

/// Whether `path` leads through all of `root`.
pub fn is_under(path: &str, root: &str) -> (r: bool)
    ensures
        r == lies_under(path@, root@),
{
    let names = parts_of(path);
    let wanted = parts_of(root);
    let from_root = is_absolute(root);
    if (from_root || wanted.len() > 0) && is_absolute(path) != from_root {
        return false;
    }
    if wanted.len() > names.len() {
        return false;
    }
    let mut i: usize = 0;
    while i < wanted.len()
        invariant
            i <= wanted@.len() <= names@.len(),
            names.deep_view() == parts(path@),
            wanted.deep_view() == parts(root@),
            forall|k: int| 0 <= k < i ==> #[trigger] parts(path@)[k] == parts(root@)[k],
        decreases wanted@.len() - i,
    {
        assert(names@[i as int]@ == parts(path@)[i as int]);
        assert(wanted@[i as int]@ == parts(root@)[i as int]);
        if names[i] != wanted[i] {
            assert(parts(path@).take(wanted@.len() as int)[i as int] != parts(root@)[i as int]);
            return false;
        }
        i = i + 1;
    }
    assert(parts(path@).take(wanted@.len() as int) =~= parts(root@));
    true
}

/// What is left of `path` below `root`.
pub fn relative_to(path: &str, root: &str) -> (r: String)
    requires
        lies_under(path@, root@),
    ensures
        r@ == below(path@, root@),
{
    let names = parts_of(path);
    let wanted = parts_of(root);
    let r = build(false, &names, wanted.len(), names.len());
    assert(names.deep_view().subrange(wanted@.len() as int, names@.len() as int)
        =~= names.deep_view().skip(wanted@.len() as int));
    r
}

// ---------------------------------------------------------------------------
// Normal form
// ---------------------------------------------------------------------------

/// A name between slashes that counts.
spec fn proper(name: Seq<char>) -> bool {
    name.len() > 0 && !name.contains('/')
}

/// Names as they come of taking a path apart.
spec fn proper_names(names: Seq<Seq<char>>, from_root: bool) -> bool {
    &&& forall|i: int| 0 <= i < names.len() ==> proper(#[trigger] names[i])
    &&& forall|i: int|
        0 <= i < names.len() && (i > 0 || from_root) ==> #[trigger] names[i] != "."@
}

proof fn lemma_segments(s: Seq<char>)
    ensures
        segments(s).len() > 0,
        forall|i: int| 0 <= i < segments(s).len() ==> !(#[trigger] segments(s)[i]).contains('/'),
        absolute(s) ==> segments(s)[0].len() == 0,
    decreases s.len(),
{
    let i = before_char(s, '/') as int;
    lemma_before_char(s, '/');
    if i < s.len() {
        let tail = s.skip(i + 1);
        lemma_segments(tail);
        assert forall|k: int| 0 <= k < segments(s).len() implies !(#[trigger] segments(
            s,
        )[k]).contains('/') by {
            if k > 0 {
                assert(segments(s)[k] == segments(tail)[k - 1]);
            } else {
                assert(segments(s)[0] == s.take(i));
            }
        }
    }
}

proof fn lemma_counting(all: Seq<Seq<char>>, first: bool)
    requires
        forall|i: int| 0 <= i < all.len() ==> !(#[trigger] all[i]).contains('/'),
    ensures
        proper_names(counting(all, first), !first || all.len() == 0 || all[0].len() == 0),
    decreases all.len(),
{
    if all.len() > 0 {
        let tail = all.drop_first();
        assert forall|i: int| 0 <= i < tail.len() implies !(#[trigger] tail[i]).contains('/') by {
            assert(tail[i] == all[i + 1]);
        }
        lemma_counting(tail, false);
        let rest = counting(tail, false);
        let names = counting(all, first);
        if counts(first, all[0]) {
            assert forall|i: int| 0 <= i < names.len() implies proper(#[trigger] names[i]) by {
                if i > 0 {
                    assert(names[i] == rest[i - 1]);
                }
            }
            assert forall|i: int|
                0 <= i < names.len() && (i > 0 || !first) implies #[trigger] names[i] != "."@ by {
                if i > 0 {
                    assert(names[i] == rest[i - 1]);
                }
            }
        }
    }
}

proof fn lemma_parts_proper(path: Seq<char>)
    ensures
        proper_names(parts(path), absolute(path)),
{
    lemma_segments(path);
    lemma_counting(segments(path), true);
}

proof fn lemma_segments_of_slashed(names: Seq<Seq<char>>)
    requires
        names.len() > 0,
        forall|i: int| 0 <= i < names.len() ==> !(#[trigger] names[i]).contains('/'),
    ensures
        segments(slashed(names)) == names,
    decreases names.len(),
{
    reveal_strlit("/");
    let s = slashed(names);
    lemma_before_char(s, '/');
    if names.len() == 1 {
        assert(before_char(s, '/') == s.len()) by {
            if before_char(s, '/') < s.len() {
                assert(names[0].contains('/'));
            }
        }
        assert(segments(s) =~= names);
    } else {
        let head = names[0];
        let tail = names.drop_first();
        assert forall|i: int| 0 <= i < tail.len() implies !(#[trigger] tail[i]).contains('/') by {
            assert(tail[i] == names[i + 1]);
        }
        lemma_segments_of_slashed(tail);
        assert(s[head.len() as int] == '/');
        assert forall|k: int| 0 <= k < head.len() implies s[k] != '/' by {
            assert(s[k] == head[k]);
            assert(head.contains(head[k]));
        }
        assert(before_char(s, '/') == head.len());
        assert(s.take(head.len() as int) =~= head);
        assert(s.skip((head.len() + 1) as int) =~= slashed(tail));
        assert(segments(s) =~= names);
    }
}

proof fn lemma_counting_proper(names: Seq<Seq<char>>, first: bool)
    requires
        proper_names(names, !first),
    ensures
        counting(names, first) == names,
    decreases names.len(),
{
    if names.len() > 0 {
        let tail = names.drop_first();
        assert(proper(names[0]));
        assert forall|i: int| 0 <= i < tail.len() implies proper(#[trigger] tail[i]) by {
            assert(tail[i] == names[i + 1]);
        }
        assert forall|i: int| 0 <= i < tail.len() implies #[trigger] tail[i] != "."@ by {
            assert(tail[i] == names[i + 1]);
        }
        lemma_counting_proper(tail, false);
        assert(counting(names, first) =~= names);
    } else {
        assert(counting(names, first) =~= names);
    }
}

proof fn lemma_parts_of_built(names: Seq<Seq<char>>, from_root: bool)
    requires
        proper_names(names, from_root),
    ensures
        parts(built(from_root, names)) == names,
        absolute(built(from_root, names)) == from_root,
{
    reveal_strlit("/");
    let s = slashed(names);
    let path = built(from_root, names);
    assert forall|i: int| 0 <= i < names.len() implies !(#[trigger] names[i]).contains('/') by {
        assert(proper(names[i]));
    }
    if names.len() > 0 {
        lemma_segments_of_slashed(names);
        assert(proper(names[0]));
        assert(s[0] == names[0][0]);
        assert(names[0].contains(names[0][0]));
    }
    if from_root {
        lemma_before_char(path, '/');
        assert(path[0] == '/');
        assert(before_char(path, '/') == 0);
        assert(path.take(0) =~= Seq::<char>::empty());
        assert(path.skip(1) =~= s);
        let all = segments(path);
        assert(all =~= seq![Seq::<char>::empty()] + segments(s));
        assert(all.drop_first() =~= segments(s));
        assert(counting(all, true) == counting(segments(s), false));
        if names.len() == 0 {
            lemma_before_char(s, '/');
            assert(segments(s) =~= seq![s]);
            assert(segments(s).drop_first() =~= Seq::<Seq<char>>::empty());
            assert(counting(Seq::empty(), false) =~= names);
            assert(counting(segments(s), false) =~= names);
        } else {
            lemma_counting_proper(names, false);
        }
    } else if names.len() == 0 {
        assert(path =~= Seq::<char>::empty());
        lemma_before_char(path, '/');
        assert(segments(path) =~= seq![path]);
        assert(segments(path).drop_first() =~= Seq::<Seq<char>>::empty());
        assert(counting(Seq::empty(), false) =~= names);
        assert(counting(segments(path), true) =~= names);
    } else {
        lemma_counting_proper(names, true);
    }
}

/// The normal form of a path leads through the same names, and is its own normal
/// form: two paths in normal form that lead through the same names from the same
/// place are the same text.
pub proof fn law_normal_form(path: Seq<char>, other: Seq<char>)
    ensures
        parts(normal(path)) == parts(path),
        absolute(normal(path)) == absolute(path),
        normal(normal(path)) == normal(path),
        parts(path) == parts(other) && absolute(path) == absolute(other) ==> normal(path)
            == normal(other),
{
    lemma_parts_proper(path);
    lemma_parts_of_built(parts(path), absolute(path));
}

} // verus!
