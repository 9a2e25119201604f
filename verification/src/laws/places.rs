//! Paths.
use vstd::prelude::*;
use vstd::string::*;

use crate::paths::{
    absolute, below, counting, counts, joined, lemma_slashed_push, lies_under, name_of, normal,
    parent_of, parts, segments, slashed,
};
use crate::repo_list::label::{ellipsized, shown_path, tail_of};
use crate::text::{before_char, lemma_before_char};

verus! {

/// A name that can be a part of a path.
pub open spec fn plain(name: Seq<char>) -> bool {
    name.len() > 0 && !name.contains('/') && name != "."@ && name != ".."@
}

proof fn lemma_segments_push(path: Seq<char>, name: Seq<char>)
    requires
        !name.contains('/'),
    ensures
        segments(path + seq!['/'] + name) == segments(path).push(name),
    decreases path.len(),
{
    let whole = path + seq!['/'] + name;
    lemma_before_char(path, '/');
    lemma_before_char(whole, '/');
    let i = before_char(path, '/') as int;
    let j = before_char(whole, '/') as int;
    if i < path.len() {
        assert(whole[i] == '/');
        assert(path[i] == '/');
        if j < i {
            assert(whole[j] == path[j]);
        }
        assert(j == i);
        lemma_segments_push(path.skip(i + 1), name);
        assert(whole.skip(i + 1) =~= path.skip(i + 1) + seq!['/'] + name);
        assert(whole.take(i) =~= path.take(i));
        assert(segments(whole) =~= segments(path).push(name));
    } else {
        let n = path.len() as int;
        assert(whole[n] == '/');
        if j < n {
            assert(whole[j] == path[j]);
        }
        assert(j == n);
        assert(whole.take(n) =~= path);
        assert(whole.skip(n + 1) =~= name);
        lemma_before_char(name, '/');
        let k = before_char(name, '/') as int;
        if k < name.len() {
            assert(name[k] == '/');
            assert(name.contains('/'));
        }
        assert(segments(name) =~= seq![name]);
        assert(segments(path) =~= seq![path]);
        assert(segments(whole) =~= seq![path, name]);
        assert(segments(path).push(name) =~= seq![path, name]);
    }
}

proof fn lemma_counting_push(all: Seq<Seq<char>>, name: Seq<char>, first: bool)
    requires
        all.len() > 0,
    ensures
        counting(all.push(name), first) == if counts(false, name) {
            counting(all, first).push(name)
        } else {
            counting(all, first)
        },
    decreases all.len(),
{
    let longer = all.push(name);
    assert(longer.drop_first() =~= all.drop_first().push(name));
    assert(longer[0] == all[0]);
    if all.len() == 1 {
        let one = seq![name];
        assert(longer.drop_first() =~= one);
        assert(one.drop_first() =~= Seq::<Seq<char>>::empty());
        assert(all.drop_first() =~= Seq::<Seq<char>>::empty());
        assert(counting(Seq::<Seq<char>>::empty(), false) =~= Seq::<Seq<char>>::empty());
        assert(counting(one, false) =~= if counts(false, name) {
            one
        } else {
            Seq::empty()
        });
        assert(counting(longer, first) =~= if counts(false, name) {
            counting(all, first).push(name)
        } else {
            counting(all, first)
        });
    } else {
        lemma_counting_push(all.drop_first(), name, false);
        assert(counting(longer, first) =~= if counts(false, name) {
            counting(all, first).push(name)
        } else {
            counting(all, first)
        });
    }
}

/// A path leads through its names one after the other; slashes that are doubled or at
/// the end, and dots behind a slash, lead nowhere else. The name at the end is the
/// name of the path, and without it the path is that of the directory.
pub proof fn law_paths_lead_through_their_names(path: Seq<char>, name: Seq<char>)
    ensures
        plain(name) ==> parts(path + seq!['/'] + name) == parts(path).push(name),
        parts(path + seq!['/']) == parts(path),
        parts(path + seq!['/', '.']) == parts(path),
        plain(name) ==> name_of(path + seq!['/'] + name) == Some(name),
        plain(name) && path.len() > 0 ==> parent_of(path + seq!['/'] + name) == Some(normal(path)),
        plain(name) ==> parts(name) == seq![name],
        parts(Seq::empty()) == Seq::<Seq<char>>::empty(),
        parts(seq!['/']) == Seq::<Seq<char>>::empty(),
{
    reveal_strlit(".");
    let none = Seq::<char>::empty();
    lemma_segments_push(path, none);
    assert(path + seq!['/'] + none =~= path + seq!['/']);
    assert(segments(path).len() > 0) by {
        lemma_before_char(path, '/');
    }
    lemma_counting_push(segments(path), none, true);
    let dot = seq!['.'];
    assert(dot =~= "."@);
    lemma_segments_push(path, dot);
    assert(path + seq!['/'] + dot =~= path + seq!['/', '.']);
    lemma_counting_push(segments(path), dot, true);
    lemma_single(none);
    let root = seq!['/'];
    lemma_segments_push(none, none);
    assert(none + seq!['/'] + none =~= root);
    lemma_counting_push(segments(none), none, true);
    if plain(name) {
        lemma_segments_push(path, name);
        lemma_counting_push(segments(path), name, true);
        let whole = path + seq!['/'] + name;
        assert(parts(whole).drop_last() =~= parts(path));
        lemma_single(name);
        if path.len() > 0 {
            assert(absolute(whole) == absolute(path));
        }
    }
}

proof fn lemma_single(name: Seq<char>)
    requires
        !name.contains('/'),
    ensures
        parts(name) == if name.len() > 0 {
            seq![name]
        } else {
            Seq::empty()
        },
        segments(name) == seq![name],
{
    lemma_before_char(name, '/');
    let k = before_char(name, '/') as int;
    if k < name.len() {
        assert(name[k] == '/');
        assert(name.contains('/'));
    }
    assert(segments(name) =~= seq![name]);
    assert(segments(name).drop_first() =~= Seq::<Seq<char>>::empty());
    assert(counting(Seq::<Seq<char>>::empty(), false) =~= Seq::<Seq<char>>::empty());
    assert(parts(name) =~= if name.len() > 0 {
        seq![name]
    } else {
        Seq::empty()
    });
}

/// In normal form there is one slash before every name, and before the first only in
/// an absolute path.
pub proof fn law_normal_form_has_single_slashes(path: Seq<char>, name: Seq<char>)
    requires
        plain(name),
    ensures
        parts(path).len() > 0 ==> normal(path + seq!['/'] + name) == normal(path) + seq!['/']
            + name,
        normal(seq!['/'] + name) == seq!['/'] + name,
        normal(name) == name,
        normal(path + seq!['/']) == if path.len() > 0 {
            normal(path)
        } else {
            seq!['/']
        },
{
    reveal_strlit("/");
    assert("/"@ =~= seq!['/']);
    law_paths_lead_through_their_names(path, name);
    let whole = path + seq!['/'] + name;
    if parts(path).len() > 0 {
        assert(path.len() > 0);
        assert(absolute(whole) == absolute(path));
        lemma_slashed_push(parts(path), name);
        assert(normal(whole) =~= normal(path) + seq!['/'] + name);
    }
    let none = Seq::<char>::empty();
    law_paths_lead_through_their_names(none, name);
    assert(none + seq!['/'] + name =~= seq!['/'] + name);
    assert(none.push('/') =~= seq!['/']);
    assert(parts(seq!['/'] + name) =~= seq![name]);
    assert(slashed(seq![name]) == name);
    assert(name.contains(name[0]));
    if path.len() == 0 {
        assert(path + seq!['/'] =~= seq!['/']);
        assert(slashed(Seq::<Seq<char>>::empty()) =~= Seq::<char>::empty());
        assert(normal(path + seq!['/']) =~= seq!['/']);
    } else {
        assert(absolute(path + seq!['/']) == absolute(path));
    }
}

/// A relative path is taken from a directory with one slash between them, an absolute
/// one is itself.
pub proof fn law_paths_are_joined(base: Seq<char>, path: Seq<char>)
    ensures
        path.len() > 0 && path[0] == '/' ==> joined(base, path) == path,
        (path.len() == 0 || path[0] != '/') && base.len() > 0 && base.last() != '/' ==> joined(
            base,
            path,
        ) == base + seq!['/'] + path,
        (path.len() == 0 || path[0] != '/') && base.len() > 0 && base.last() == '/' ==> joined(
            base,
            path,
        ) == base + path,
{
    reveal_strlit("/");
    assert("/"@ =~= seq!['/']);
}

/// A path lies under a root exactly when the names of the root come first in it, from
/// the same beginning; what is left below the root are the names behind them.
pub proof fn law_paths_lie_under_roots(root: Seq<char>, path: Seq<char>, name: Seq<char>)
    requires
        root.len() > 0,
    ensures
        lies_under(root, root),
        plain(name) && lies_under(path, root) && path.len() > 0 ==> lies_under(
            path + seq!['/'] + name,
            root,
        ),
        plain(name) ==> !lies_under(root, root + seq!['/'] + name),
        lies_under(path, root) ==> parts(path).len() >= parts(root).len() && forall|k: int|
            0 <= k < parts(root).len() ==> #[trigger] parts(root)[k] == parts(path)[k],
        plain(name) ==> below(root + seq!['/'] + name, root) == name,
{
    law_paths_lead_through_their_names(path, name);
    law_paths_lead_through_their_names(root, name);
    assert(parts(root).take(parts(root).len() as int) =~= parts(root));
    if plain(name) && lies_under(path, root) && path.len() > 0 {
        let whole = path + seq!['/'] + name;
        assert(absolute(whole) == absolute(path));
        assert(parts(whole).take(parts(root).len() as int) =~= parts(path).take(
            parts(root).len() as int,
        ));
    }
    if lies_under(path, root) {
        assert forall|k: int| 0 <= k < parts(root).len() implies #[trigger] parts(root)[k]
            == parts(path)[k] by {
            assert(parts(path).take(parts(root).len() as int)[k] == parts(path)[k]);
        }
    }
    if plain(name) {
        let whole = root + seq!['/'] + name;
        assert(parts(whole).skip(parts(root).len() as int) =~= seq![name]);
        assert(slashed(seq![name]) == name);
    }
}

/// A repository right below a root is shown by its name, one further below by the path
/// from there, and one outside all roots by its name.
pub proof fn law_paths_are_shown_from_their_root(
    root: Seq<char>,
    dir: Seq<char>,
    name: Seq<char>,
)
    requires
        root.len() > 0,
        plain(dir),
        plain(name),
    ensures
        shown_path(root + seq!['/'] + name, seq![root]) == name,
        shown_path(root + seq!['/'] + dir + seq!['/'] + name, seq![root]) == dir + seq!['/']
            + name,
        shown_path(root + seq!['/'] + name, Seq::empty()) == name,
{
    reveal_strlit("/");
    assert("/"@ =~= seq!['/']);
    reveal_with_fuel(shown_path, 2);
    law_paths_lie_under_roots(root, root, name);
    law_paths_lie_under_roots(root, root, dir);
    let inner = root + seq!['/'] + dir;
    law_paths_lie_under_roots(root, inner, name);
    law_paths_lead_through_their_names(root, name);
    law_paths_lead_through_their_names(root, dir);
    law_paths_lead_through_their_names(inner, name);
    let whole = inner + seq!['/'] + name;
    assert(seq![root][0] == root);
    assert(parts(whole).skip(parts(root).len() as int) =~= seq![dir, name]);
    let two = seq![dir, name];
    assert(two.drop_first() =~= seq![name]);
    assert(slashed(seq![name]) == name);
    assert(two[0] == dir);
    assert(slashed(two) == dir + "/"@ + slashed(two.drop_first()));
}

/// Of several roots the first that a repository lies below counts; one that lies below
/// none is shown by its name.
pub proof fn law_first_root_counts(path: Seq<char>, roots: Seq<Seq<char>>, k: int)
    requires
        0 <= k <= roots.len(),
        k < roots.len() ==> lies_under(path, roots[k]) && below(path, roots[k]).len() > 0,
        forall|j: int|
            0 <= j < k ==> !lies_under(path, #[trigger] roots[j]) || below(path, roots[j]).len()
                == 0,
    ensures
        k < roots.len() ==> shown_path(path, roots) == below(path, roots[k]),
        k == roots.len() ==> shown_path(path, roots) == crate::repo_list::repo_name(path),
    decreases k,
{
    if k > 0 {
        let rest = roots.drop_first();
        assert(!lies_under(path, roots[0]) || below(path, roots[0]).len() == 0);
        assert forall|j: int| 0 <= j < k - 1 implies !lies_under(path, #[trigger] rest[j])
            || below(path, rest[j]).len() == 0 by {
            assert(rest[j] == roots[j + 1]);
        }
        if k < roots.len() {
            assert(rest[k - 1] == roots[k]);
        }
        law_first_root_counts(path, rest, k - 1);
    }
}

/// A path that is too long is cut to its first and its last name with an ellipsis
/// between them, if that fits; else to the last name behind an ellipsis, if that fits;
/// else to its beginning and an ellipsis.
pub proof fn law_long_paths_keep_their_ends(
    head: Seq<char>,
    middle: Seq<char>,
    tail: Seq<char>,
    max: nat,
)
    requires
        !head.contains('/'),
        !tail.contains('/'),
        max > 0,
    ensures
        ({
            let path = head + seq!['/'] + middle + seq!['/'] + tail;
            let cut = ellipsized(path, max);
            &&& path.len() <= max ==> cut == path
            &&& path.len() > max && head.len() + 3 + tail.len() <= max ==> cut == head + "/…/"@
                + tail
            &&& path.len() > max && head.len() + 3 + tail.len() > max && 2 + tail.len() <= max
                ==> cut == "…/"@ + tail
            &&& path.len() > max && 2 + tail.len() > max ==> cut == path.take(max - 1) + "…"@
        }),
{
    reveal_strlit("/…/");
    reveal_strlit("…/");
    let path = head + seq!['/'] + middle + seq!['/'] + tail;
    let n = head.len() as int;
    lemma_before_char(path, '/');
    let i = before_char(path, '/') as int;
    assert(path[n] == '/');
    if i < n {
        assert(path[i] == head[i]);
        assert(head.contains(head[i]));
    }
    assert(i == n);
    assert(path.take(n) =~= head);
    let start = head + seq!['/'] + middle;
    lemma_tail(start, tail);
    assert(path =~= start + seq!['/'] + tail);
}

proof fn lemma_tail(start: Seq<char>, tail: Seq<char>)
    requires
        !tail.contains('/'),
    ensures
        tail_of(start + seq!['/'] + tail) == tail,
        tail_of(tail) == tail,
    decreases start.len(),
{
    let whole = start + seq!['/'] + tail;
    let n = start.len() as int;
    lemma_before_char(tail, '/');
    let k = before_char(tail, '/') as int;
    if k < tail.len() {
        assert(tail[k] == '/');
        assert(tail.contains('/'));
    }
    lemma_before_char(whole, '/');
    let i = before_char(whole, '/') as int;
    assert(whole[n] == '/');
    assert(i <= n);
    reveal_with_fuel(tail_of, 2);
    assert(tail_of(tail) == tail);
    if i == n {
        assert(whole.skip(n + 1) =~= tail);
        assert(tail_of(whole) == tail_of(whole.skip(n + 1)));
    } else {
        assert(whole.skip(i + 1) =~= start.skip(i + 1) + seq!['/'] + tail);
        lemma_tail(start.skip(i + 1), tail);
    }
}

} // verus!
