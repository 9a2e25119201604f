//! Texts: lines, numbers, white space and the order of names.
use vstd::prelude::*;

use crate::base64::{encoded, quad, symbol, triple};
use crate::config::{with_text, without_text};
use crate::names::{lemma_precedes_irreflexive, precedes};
use crate::order::{key_before, KeyView};
use crate::text::{
    before_char, begins_with, decimal, digit, lemma_before_char, lines_of, occurs, occurs_at,
    trim_end, trim_start, trimmed, whitespace,
};

verus! {

/// Text `b` stands before `a` where they first differ, or is a beginning of it.
pub open spec fn first_difference(a: Seq<char>, b: Seq<char>, i: int) -> bool {
    &&& 0 <= i <= a.len() && i < b.len()
    &&& forall|k: int| 0 <= k < i ==> #[trigger] a[k] == b[k]
    &&& i == a.len() || a[i] < b[i]
}

/// Names are ordered as in a dictionary, character by character: the first difference
/// decides, and a beginning comes before what it begins.
pub proof fn law_names_are_ordered_by_their_characters(a: Seq<char>, b: Seq<char>, i: int)
    ensures
        first_difference(a, b, i) ==> precedes(a, b),
        first_difference(b, a, i) ==> !precedes(a, b),
        a == b ==> !precedes(a, b),
    decreases a.len(),
{
    lemma_precedes_irreflexive(a);
    if a.len() > 0 && b.len() > 0 {
        let (c, d) = (a.drop_first(), b.drop_first());
        if first_difference(a, b, i) {
            if i > 0 {
                assert(a[0] == b[0]);
                assert forall|k: int| 0 <= k < i - 1 implies #[trigger] c[k] == d[k] by {
                    assert(c[k] == a[k + 1] && d[k] == b[k + 1]);
                }
                assert(first_difference(c, d, i - 1));
            }
            law_names_are_ordered_by_their_characters(c, d, i - 1);
        } else if first_difference(b, a, i) {
            if i > 0 {
                assert(b[0] == a[0]);
                assert forall|k: int| 0 <= k < i - 1 implies #[trigger] d[k] == c[k] by {
                    assert(c[k] == a[k + 1] && d[k] == b[k + 1]);
                }
                assert(first_difference(d, c, i - 1));
            }
            law_names_are_ordered_by_their_characters(c, d, i - 1);
        }
    }
}

/// Of two keys the one that is not late comes first; with both late, or neither, their
/// texts decide.
pub proof fn law_late_keys_come_last(a: KeyView, b: KeyView)
    ensures
        !a.late && b.late ==> key_before(a, b) && !key_before(b, a),
        a.late == b.late ==> key_before(a, b) == precedes(a.text, b.text),
{
}

/// What a numeral stands for.
pub open spec fn value_of(text: Seq<char>) -> nat
    decreases text.len(),
{
    if text.len() == 0 {
        0
    } else {
        10 * value_of(text.drop_last()) + (text.last() as int - 48) as nat
    }
}

/// A number is written in digits, as short as can be, and stands for itself.
pub proof fn law_numbers_are_written_in_digits(n: nat)
    ensures
        value_of(decimal(n)) == n,
        decimal(n).len() > 0,
        forall|i: int| 0 <= i < decimal(n).len() ==> '0' <= #[trigger] decimal(n)[i] <= '9',
        decimal(n).len() > 1 ==> decimal(n)[0] != '0',
        n > 0 ==> decimal(n)[0] != '0',
    decreases n,
{
    if n >= 10 {
        law_numbers_are_written_in_digits(n / 10);
        assert(decimal(n).drop_last() =~= decimal(n / 10));
        assert(decimal(n)[0] == decimal(n / 10)[0]);
        assert forall|i: int| 0 <= i < decimal(n).len() implies '0' <= #[trigger] decimal(n)[i]
            <= '9' by {
            if i < decimal(n / 10).len() {
                assert(decimal(n)[i] == decimal(n / 10)[i]);
            }
        }
    } else {
        let text = decimal(n);
        assert(text =~= seq![digit(n)]);
        assert(text.drop_last() =~= Seq::<char>::empty());
        assert(value_of(text.drop_last()) == 0);
    }
}

/// There is no white space at the ends of a trimmed text, and nothing but white space
/// was taken off.
pub proof fn law_trimming_takes_white_space_off(s: Seq<char>)
    ensures
        exists|i: int, j: int|
            0 <= i <= j <= s.len() && trimmed(s) == #[trigger] s.subrange(i, j) && (forall|k: int|
                0 <= k < s.len() && (k < i || j <= k) ==> whitespace(#[trigger] s[k])),
        trimmed(s).len() > 0 ==> !whitespace(trimmed(s)[0]) && !whitespace(trimmed(s).last()),
{
    let t = trim_start(s);
    let i = lemma_trim_start(s);
    let m = lemma_trim_end(t);
    assert(t == s.skip(i));
    assert(t.take(m) =~= s.subrange(i, i + m));
    assert forall|k: int| 0 <= k < s.len() && (k < i || i + m <= k) implies whitespace(
        #[trigger] s[k],
    ) by {
        if k >= i + m {
            assert(t[k - i] == s[k]);
        }
    }
    assert(trimmed(s) == s.subrange(i, i + m));
    if m > 0 {
        assert(trimmed(s)[0] == t[0]);
    }
}

proof fn lemma_trim_start(s: Seq<char>) -> (i: int)
    ensures
        0 <= i <= s.len(),
        trim_start(s) == s.skip(i),
        forall|k: int| 0 <= k < i ==> whitespace(#[trigger] s[k]),
        i < s.len() ==> !whitespace(s[i]),
    decreases s.len(),
{
    if s.len() > 0 && whitespace(s[0]) {
        let j = lemma_trim_start(s.drop_first());
        assert(s.drop_first().skip(j) =~= s.skip(j + 1));
        assert forall|k: int| 0 <= k < j + 1 implies whitespace(#[trigger] s[k]) by {
            if k > 0 {
                assert(s.drop_first()[k - 1] == s[k]);
            }
        }
        j + 1
    } else {
        assert(s.skip(0) =~= s);
        0
    }
}

proof fn lemma_trim_end(s: Seq<char>) -> (m: int)
    ensures
        0 <= m <= s.len(),
        trim_end(s) == s.take(m),
        forall|k: int| m <= k < s.len() ==> whitespace(#[trigger] s[k]),
        m > 0 ==> !whitespace(s[m - 1]),
    decreases s.len(),
{
    if s.len() > 0 && whitespace(s.last()) {
        let m = lemma_trim_end(s.drop_last());
        assert(s.drop_last().take(m) =~= s.take(m));
        assert forall|k: int| m <= k < s.len() implies whitespace(#[trigger] s[k]) by {
            if k < s.len() - 1 {
                assert(s.drop_last()[k] == s[k]);
            }
        }
        m
    } else {
        assert(s.take(s.len() as int) =~= s);
        s.len() as int
    }
}

/// A text begins with another, or another stands in it, where it can be taken apart
/// so.
pub proof fn law_texts_stand_in_texts(before: Seq<char>, part: Seq<char>, after: Seq<char>)
    ensures
        occurs(part, before + part + after),
        begins_with(part + after, part),
        begins_with(part, after) ==> part == after + part.skip(after.len() as int),
        after.len() > part.len() ==> !occurs(after, part) && !begins_with(part, after),
{
    let whole = before + part + after;
    let at = before.len() as int;
    assert(whole.subrange(at, at + part.len()) =~= part);
    assert(occurs_at(part, whole, at));
    assert((part + after).take(part.len() as int) =~= part);
    if begins_with(part, after) {
        assert(part =~= after + part.skip(after.len() as int));
    }
}

/// A text is taken apart at its line feeds, and a carriage return before one goes with
/// it; a line feed at the end begins no further line.
pub proof fn law_lines_end_at_line_feeds(line: Seq<char>, rest: Seq<char>)
    requires
        !line.contains('\n'),
    ensures
        line.len() == 0 || line.last() != '\r' ==> lines_of(line + seq!['\n'] + rest)
            == seq![line] + lines_of(rest),
        lines_of(line + seq!['\r', '\n'] + rest) == seq![line] + lines_of(rest),
        line.len() > 0 ==> lines_of(line) == seq![line],
        lines_of(Seq::empty()) == Seq::<Seq<char>>::empty(),
{
    let a = line + seq!['\n'] + rest;
    let n = line.len() as int;
    lemma_before(a, '\n', n);
    assert(a.take(n) =~= line);
    assert(a.skip(n + 1) =~= rest);
    let b = line + seq!['\r', '\n'] + rest;
    lemma_before(b, '\n', n + 1);
    assert(b.take(n + 1) =~= line.push('\r'));
    assert(b.take(n + 1).drop_last() =~= line);
    assert(b.skip(n + 2) =~= rest);
    lemma_before_char(line, '\n');
    let k = before_char(line, '\n') as int;
    if k < line.len() {
        assert(line[k] == '\n');
        assert(line.contains('\n'));
    }
    if line.len() > 0 {
        assert(lines_of(line) == seq![line]);
    }
}

proof fn lemma_before(s: Seq<char>, c: char, n: int)
    requires
        0 <= n < s.len(),
        s[n] == c,
        forall|k: int| 0 <= k < n ==> #[trigger] s[k] != c,
    ensures
        before_char(s, c) == n,
{
    lemma_before_char(s, c);
    let m = before_char(s, c) as int;
    if m < n {
        assert(s[m] == c);
    } else if n < m {
        assert(s[n] != c);
    }
}

/// A text is put at the end of a list that does not have it, and taken out wherever it
/// stands; nothing else in the list changes its place among the rest.
pub proof fn law_texts_join_and_leave_lists(
    list: Seq<Seq<char>>,
    text: Seq<char>,
    other: Seq<char>,
)
    ensures
        with_text(list, text).contains(text),
        !list.contains(text) ==> with_text(list, text) == list.push(text),
        list.contains(text) ==> with_text(list, text) == list,
        !without_text(list, text).contains(text),
        other != text ==> without_text(list, text).contains(other) == list.contains(other),
        !list.contains(text) ==> without_text(list.push(text), text) == list,
        other != text ==> without_text(list.push(other), text) == without_text(
            list,
            text,
        ).push(other),
    decreases list.len(),
{
    if !list.contains(text) {
        assert(list.push(text)[list.len() as int] == text);
    }
    assert(list.push(text).drop_last() =~= list);
    assert(list.push(other).drop_last() =~= list);
    lemma_without(list, text, other);
}

proof fn lemma_without(list: Seq<Seq<char>>, text: Seq<char>, other: Seq<char>)
    ensures
        !without_text(list, text).contains(text),
        other != text ==> without_text(list, text).contains(other) == list.contains(other),
        !list.contains(text) ==> without_text(list, text) == list,
    decreases list.len(),
{
    if list.len() > 0 {
        let init = list.drop_last();
        let last = list.last();
        lemma_without(init, text, other);
        let before = without_text(init, text);
        let now = without_text(list, text);
        assert(list =~= init.push(last));
        assert forall|t: Seq<char>| list.contains(t) <==> init.contains(t) || t == last by {
            if init.contains(t) {
                let k = choose|k: int| 0 <= k < init.len() && init[k] == t;
                assert(list[k] == t);
            }
            if list.contains(t) {
                let k = choose|k: int| 0 <= k < list.len() && list[k] == t;
                if k < init.len() {
                    assert(init[k] == t);
                }
            }
            assert(list[list.len() - 1] == last);
        }
        if last != text {
            assert forall|t: Seq<char>| now.contains(t) <==> before.contains(t) || t == last by {
                if before.contains(t) {
                    let k = choose|k: int| 0 <= k < before.len() && before[k] == t;
                    assert(now[k] == t);
                }
                if now.contains(t) {
                    let k = choose|k: int| 0 <= k < now.len() && now[k] == t;
                    if k < before.len() {
                        assert(before[k] == t);
                    }
                }
                assert(now[before.len() as int] == last);
            }
        }
    }
}

/// The characters of base64 are the capital letters, the small ones, the digits, `+` and
/// `/`, in this order.
pub proof fn law_symbols_are_in_order(v: int)
    ensures
        0 <= v < 26 ==> symbol(v) as int == 'A' as int + v,
        26 <= v < 52 ==> symbol(v) as int == 'a' as int + (v - 26),
        52 <= v < 62 ==> symbol(v) as int == '0' as int + (v - 52),
        v == 62 ==> symbol(v) == '+',
        v == 63 ==> symbol(v) == '/',
{
}

proof fn lemma_quad(a: int, b: int, c: int)
    requires
        0 <= a < 256,
        0 <= b < 256,
        0 <= c < 256,
    ensures
        quad(65536 * a + 256 * b + c) == seq![
            symbol(a / 4),
            symbol(a % 4 * 16 + b / 16),
            symbol(b % 16 * 4 + c / 64),
            symbol(c % 64),
        ],
{
    let n = 65536 * a + 256 * b + c;
    let (a1, a0) = (a / 4, a % 4);
    let (b1, b0) = (b / 16, b % 16);
    let (c1, c0) = (c / 64, c % 64);
    assert(n == 262144 * a1 + (65536 * a0 + 256 * b + c));
    assert(n / 262144 == a1);
    assert(n == 4096 * (64 * a1 + 16 * a0 + b1) + (256 * b0 + c));
    assert(n / 4096 == 64 * a1 + (16 * a0 + b1));
    assert(n / 4096 % 64 == 16 * a0 + b1);
    assert(n == 64 * (64 * (64 * a1 + 16 * a0 + b1) + (4 * b0 + c1)) + c0);
    assert(n / 64 == 64 * (64 * a1 + 16 * a0 + b1) + (4 * b0 + c1));
    assert(n / 64 % 64 == 4 * b0 + c1);
    assert(n % 64 == c0);
}

/// Three bytes become four characters of six bits each, the highest bits first. Bits that
/// are missing at the end count as zeros, and characters without any bits are `=`.
pub proof fn law_bytes_become_characters(data: Seq<u8>, a: u8, b: u8, c: u8)
    ensures
        encoded(seq![a, b, c] + data) == seq![
            symbol(a as int / 4),
            symbol(a as int % 4 * 16 + b as int / 16),
            symbol(b as int % 16 * 4 + c as int / 64),
            symbol(c as int % 64),
        ] + encoded(data),
        encoded(seq![a, b]) == seq![
            symbol(a as int / 4),
            symbol(a as int % 4 * 16 + b as int / 16),
            symbol(b as int % 16 * 4),
            '=',
        ],
        encoded(seq![a]) == seq![symbol(a as int / 4), symbol(a as int % 4 * 16), '=', '='],
        encoded(Seq::empty()) == Seq::<char>::empty(),
{
    let whole = seq![a, b, c] + data;
    assert(whole.take(3) =~= seq![a, b, c]);
    assert(whole.skip(3) =~= data);
    lemma_quad(a as int, b as int, c as int);
    lemma_quad(a as int, b as int, 0);
    lemma_quad(a as int, 0, 0);
    assert(triple(seq![a, b, c]) == 65536 * a + 256 * b + c);
    assert(triple(seq![a, b]) == 65536 * a + 256 * b);
    assert(triple(seq![a]) == 65536 * a);
    assert(encoded(seq![a, b]) =~= seq![
        symbol(a as int / 4),
        symbol(a as int % 4 * 16 + b as int / 16),
        symbol(b as int % 16 * 4),
        '=',
    ]);
    assert(encoded(seq![a]) =~= seq![symbol(a as int / 4), symbol(a as int % 4 * 16), '=', '=']);
}

} // verus!
