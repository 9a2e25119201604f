//! Stable sorting by keys.
use vstd::prelude::*;
use crate::names::{
    lemma_precedes_irreflexive, lemma_precedes_total, lemma_precedes_transitive, precedes,
    text_precedes,
};

verus! {

/// What an entry is sorted by: first whether it is put behind the others, then a
/// text.
pub struct SortKey {
    pub late: bool,
    pub text: Vec<char>,
}

/// What a key holds.
#[verifier::ext_equal]
pub struct KeyView {
    pub late: bool,
    pub text: Seq<char>,
}

impl DeepView for SortKey {
    type V = KeyView;

    open spec fn deep_view(&self) -> KeyView {
        KeyView { late: self.late, text: self.text@ }
    }
}

/// Key `a` comes before key `b`.
pub open spec fn key_before(a: KeyView, b: KeyView) -> bool {
    if a.late != b.late {
        b.late
    } else {
        precedes(a.text, b.text)
    }
}

/// How many entries at the head of `rest` come before entry `i`.
pub open spec fn place(keys: Seq<KeyView>, rest: Seq<int>, i: int) -> int
    decreases rest.len(),
{
    if rest.len() == 0 || !key_before(keys[rest[0]], keys[i]) {
        0
    } else {
        1 + place(keys, rest.drop_first(), i)
    }
}

/// The entries from `i` on in order: each stands before those behind it that do
/// not come before it.
pub open spec fn order_from(keys: Seq<KeyView>, i: int) -> Seq<int>
    decreases keys.len() - i,
{
    if i >= keys.len() {
        Seq::empty()
    } else {
        let rest = order_from(keys, i + 1);
        rest.insert(place(keys, rest, i), i)
    }
}

/// The entries in order: at each place the number of the entry that stands there.
pub open spec fn order(keys: Seq<KeyView>) -> Seq<int> {
    order_from(keys, 0)
}

/// Some entries in the order of their keys.
pub open spec fn in_order<T>(entries: Seq<T>, keys: Seq<KeyView>) -> Seq<T> {
    Seq::new(entries.len(), |j: int| entries[order(keys)[j]])
}

/// `a` may stand before `b`: by its key, or with the same key by its number.
pub open spec fn stands_before(keys: Seq<KeyView>, a: int, b: int) -> bool {
    key_before(keys[a], keys[b]) || keys[a] == keys[b] && a < b
}

proof fn lemma_key_transitive(a: KeyView, b: KeyView, c: KeyView)
    requires
        key_before(a, b),
        key_before(b, c),
    ensures
        key_before(a, c),
{
    if a.late == b.late && b.late == c.late {
        lemma_precedes_transitive(a.text, b.text, c.text);
    }
}

proof fn lemma_key_total(a: KeyView, b: KeyView)
    ensures
        a == b || key_before(a, b) || key_before(b, a),
        !(key_before(a, b) && a == b),
{
    lemma_precedes_total(a.text, b.text);
    lemma_precedes_irreflexive(a.text);
    if a.late == b.late && a.text == b.text {
        assert(a =~= b);
    }
}

/// Of two keys not both come before the other.
pub proof fn lemma_keys_asymmetric(a: KeyView, b: KeyView)
    ensures
        !(key_before(a, b) && key_before(b, a)),
        a == b ==> !key_before(a, b),
{
    lemma_key_total(a, a);
    if key_before(a, b) && key_before(b, a) {
        lemma_key_transitive(a, b, a);
    }
}

proof fn lemma_place(keys: Seq<KeyView>, rest: Seq<int>, i: int)
    ensures
        0 <= place(keys, rest, i) <= rest.len(),
        forall|k: int| 0 <= k < place(keys, rest, i) ==> key_before(keys[#[trigger] rest[k]], keys[i]),
        place(keys, rest, i) < rest.len() ==> !key_before(
            keys[rest[place(keys, rest, i)]],
            keys[i],
        ),
    decreases rest.len(),
{
    if rest.len() > 0 && key_before(keys[rest[0]], keys[i]) {
        let tail = rest.drop_first();
        lemma_place(keys, tail, i);
        assert forall|k: int| 0 <= k < place(keys, rest, i) implies key_before(
            keys[#[trigger] rest[k]],
            keys[i],
        ) by {
            if k > 0 {
                assert(tail[k - 1] == rest[k]);
            }
        }
    }
}

/// What holds of the entries from `i` on in order.
spec fn ordered_from(keys: Seq<KeyView>, i: int, o: Seq<int>) -> bool {
    &&& o.len() == keys.len() - i
    &&& forall|k: int| 0 <= k < o.len() ==> i <= #[trigger] o[k] < keys.len()
    &&& forall|a: int, b: int|
        0 <= a < b < o.len() ==> stands_before(keys, #[trigger] o[a], #[trigger] o[b])
}

proof fn lemma_order_from(keys: Seq<KeyView>, i: int)
    requires
        0 <= i <= keys.len(),
    ensures
        ordered_from(keys, i, order_from(keys, i)),
    decreases keys.len() - i,
{
    if i < keys.len() {
        let rest = order_from(keys, i + 1);
        lemma_order_from(keys, i + 1);
        lemma_place(keys, rest, i);
        let p = place(keys, rest, i);
        let o = rest.insert(p, i);
        assert forall|k: int| 0 <= k < o.len() implies i <= #[trigger] o[k] < keys.len() by {
            if k < p {
                assert(o[k] == rest[k]);
            } else if k > p {
                assert(o[k] == rest[k - 1]);
            }
        }
        assert forall|a: int, b: int| 0 <= a < b < o.len() implies stands_before(
            keys,
            #[trigger] o[a],
            #[trigger] o[b],
        ) by {
            let x = if a < p {
                rest[a]
            } else if a == p {
                i
            } else {
                rest[a - 1]
            };
            let y = if b < p {
                rest[b]
            } else if b == p {
                i
            } else {
                rest[b - 1]
            };
            assert(o[a] == x && o[b] == y);
            if a == p {
                // Behind `i` stands what does not come before it.
                let z = rest[p];
                lemma_key_total(keys[z], keys[i]);
                if b - 1 > p {
                    assert(stands_before(keys, z, y));
                    if key_before(keys[z], keys[y]) && key_before(keys[i], keys[z]) {
                        lemma_key_transitive(keys[i], keys[z], keys[y]);
                    }
                }
            }
        }
    }
}

proof fn lemma_covers_from(keys: Seq<KeyView>, from: int, i: int)
    requires
        0 <= from <= i < keys.len(),
    ensures
        order_from(keys, from).contains(i),
    decreases keys.len() - from,
{
    let rest = order_from(keys, from + 1);
    lemma_place(keys, rest, from);
    let p = place(keys, rest, from);
    let o = order_from(keys, from);
    if i == from {
        assert(o[p] == i);
    } else {
        lemma_covers_from(keys, from + 1, i);
        let k = choose|k: int| 0 <= k < rest.len() && rest[k] == i;
        if k < p {
            assert(o[k] == i);
        } else {
            assert(o[k + 1] == i);
        }
    }
}

/// Every entry has a place.
pub proof fn lemma_order_covers(keys: Seq<KeyView>, i: int)
    requires
        0 <= i < keys.len(),
    ensures
        order(keys).contains(i),
{
    lemma_covers_from(keys, 0, i);
}

/// Sorting loses nothing and keeps apart what was apart: each entry has exactly
/// one place. Entries stand by their keys, and entries with the same key as they
/// stood before.
pub proof fn law_sorting_is_stable(keys: Seq<KeyView>)
    ensures
        order(keys).len() == keys.len(),
        forall|k: int| 0 <= k < keys.len() ==> 0 <= #[trigger] order(keys)[k] < keys.len(),
        forall|a: int, b: int|
            0 <= a < b < keys.len() ==> stands_before(
                keys,
                #[trigger] order(keys)[a],
                #[trigger] order(keys)[b],
            ),
        order(keys).no_duplicates(),
{
    lemma_order_from(keys, 0);
    let o = order(keys);
    assert forall|a: int, b: int| 0 <= a < b < o.len() implies o[a] != o[b] by {
        assert(stands_before(keys, o[a], o[b]));
        lemma_key_total(keys[o[a]], keys[o[b]]);
    }
}

/// Whether key `a` comes before key `b`.
fn comes_before(a: &SortKey, b: &SortKey) -> (r: bool)
    ensures
        r == key_before(a.deep_view(), b.deep_view()),
{
    if a.late != b.late {
        b.late
    } else {
        text_precedes(&a.text, &b.text)
    }
}

/// The order of some keys.
pub fn stable_order(keys: &Vec<SortKey>) -> (r: Vec<usize>)
    ensures
        r@.len() == order(keys.deep_view()).len(),
        forall|j: int| 0 <= j < r@.len() ==> #[trigger] r@[j] as int == order(keys.deep_view())[j],
{
    let ghost all = keys.deep_view();
    let mut out: Vec<usize> = Vec::new();
    let mut i: usize = keys.len();
    while i > 0
        invariant
            i <= keys@.len(),
            all == keys.deep_view(),
            out@.len() == order_from(all, i as int).len(),
            forall|j: int|
                0 <= j < out@.len() ==> #[trigger] out@[j] as int == order_from(all, i as int)[j],
        decreases i,
    {
        let ghost rest = order_from(all, i as int);
        proof {
            lemma_order_from(all, i as int);
        }
        i = i - 1;
        let mut p: usize = 0;
        let total: usize = out.len();
        assert(rest.skip(0) =~= rest);
        while p < total && comes_before(&keys[out[p]], &keys[i])
            invariant
                i < keys@.len(),
                all == keys.deep_view(),
                total == out@.len() == rest.len(),
                p <= total,
                forall|j: int| 0 <= j < out@.len() ==> #[trigger] out@[j] as int == rest[j],
                forall|j: int| 0 <= j < rest.len() ==> 0 <= #[trigger] rest[j] < all.len(),
                place(all, rest, i as int) == p + place(all, rest.skip(p as int), i as int),
            ensures
                place(all, rest, i as int) == p,
            decreases total - p,
        {
            assert(rest.skip(p as int).drop_first() =~= rest.skip(p + 1));
            assert(rest.skip(p as int)[0] == rest[p as int]);
            p = p + 1;
        }
        let ghost before = out@;
        out.insert(p, i);
        assert(order_from(all, i as int) == rest.insert(p as int, i as int));
        assert forall|j: int| 0 <= j < out@.len() implies #[trigger] out@[j] as int == order_from(
            all,
            i as int,
        )[j] by {
            if j < p {
                assert(before[j] as int == rest[j]);
            } else if j > p {
                assert(before[j - 1] as int == rest[j - 1]);
            }
        }
    }
    out
}

/// Puts some entries in the order of their keys.
pub fn sort_by_keys<T>(entries: Vec<T>, keys: &Vec<SortKey>) -> (r: Vec<T>)
    requires
        entries@.len() == keys@.len(),
    ensures
        r@ == in_order(entries@, keys.deep_view()),
{
    let ghost all = keys.deep_view();
    let ghost given = entries@;
    proof {
        law_sorting_is_stable(all);
    }
    let at = stable_order(keys);
    let mut slots: Vec<Option<T>> = Vec::new();
    for entry in it: entries
        invariant
            it.seq() == given,
            slots@.len() == it.index(),
            forall|j: int| 0 <= j < slots@.len() ==> #[trigger] slots@[j] == Some(given[j]),
    {
        slots.push(Some(entry));
    }
    let mut out: Vec<T> = Vec::new();
    let mut j: usize = 0;
    while j < at.len()
        invariant
            j <= at@.len(),
            at@.len() == given.len() == slots@.len() == order(all).len() == all.len(),
            forall|k: int| 0 <= k < at@.len() ==> #[trigger] at@[k] as int == order(all)[k],
            forall|k: int| 0 <= k < all.len() ==> 0 <= #[trigger] order(all)[k] < all.len(),
            order(all).no_duplicates(),
            forall|k: int|
                j <= k < at@.len() ==> slots@[#[trigger] order(all)[k]] == Some(
                    given[order(all)[k]],
                ),
            out@ =~= in_order(given, all).take(j as int),
        decreases at@.len() - j,
    {
        let p: usize = at[j];
        assert(p as int == order(all)[j as int]);
        let ghost before = slots@;
        let mut taken: Option<T> = None;
        std::mem::swap(&mut taken, &mut slots[p]);
        assert(taken == Some(given[p as int]));
        if let Some(entry) = taken {
            out.push(entry);
        }
        assert forall|k: int| j + 1 <= k < at@.len() implies slots@[#[trigger] order(all)[k]]
            == Some(given[order(all)[k]]) by {
            assert(order(all)[k] != order(all)[j as int]);
        }
        j = j + 1;
    }
    assert(out@ =~= in_order(given, all));
    out
}

} // verus!
