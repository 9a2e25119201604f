//! Sets of names, kept in order.
use vstd::prelude::*;
use vstd::string::*;
use crate::text::chars_of;

verus! {

/// The order of texts: by the first character in which they differ, a text
/// coming after what it begins with.
pub open spec fn precedes(a: Seq<char>, b: Seq<char>) -> bool
    decreases a.len(),
{
    if b.len() == 0 {
        false
    } else if a.len() == 0 {
        true
    } else if a[0] != b[0] {
        a[0] < b[0]
    } else {
        precedes(a.drop_first(), b.drop_first())
    }
}

/// No text precedes itself.
pub proof fn lemma_precedes_irreflexive(a: Seq<char>)
    ensures
        !precedes(a, a),
    decreases a.len(),
{
    if a.len() > 0 {
        lemma_precedes_irreflexive(a.drop_first());
    }
}

/// The order is transitive.
pub proof fn lemma_precedes_transitive(a: Seq<char>, b: Seq<char>, c: Seq<char>)
    requires
        precedes(a, b),
        precedes(b, c),
    ensures
        precedes(a, c),
    decreases a.len(),
{
    if a.len() > 0 && b.len() > 0 && c.len() > 0 && a[0] == b[0] && b[0] == c[0] {
        lemma_precedes_transitive(a.drop_first(), b.drop_first(), c.drop_first());
    }
}

/// Of two different texts one precedes the other.
pub proof fn lemma_precedes_total(a: Seq<char>, b: Seq<char>)
    ensures
        a == b || precedes(a, b) || precedes(b, a),
    decreases a.len(),
{
    if a.len() == 0 && b.len() == 0 {
        assert(a =~= b);
    } else if a.len() > 0 && b.len() > 0 && a[0] == b[0] {
        lemma_precedes_total(a.drop_first(), b.drop_first());
        if a.drop_first() == b.drop_first() {
            assert(a =~= seq![a[0]] + a.drop_first());
            assert(b =~= seq![b[0]] + b.drop_first());
        }
    }
}

/// Whether `a` comes before `b`.
pub fn text_precedes(a: &Vec<char>, b: &Vec<char>) -> (r: bool)
    ensures
        r == precedes(a@, b@),
{
    let mut i: usize = 0;
    assert(a@.skip(0) =~= a@);
    assert(b@.skip(0) =~= b@);
    while i < a.len() && i < b.len()
        invariant
            i <= a@.len(),
            i <= b@.len(),
            precedes(a@, b@) == precedes(a@.skip(i as int), b@.skip(i as int)),
        decreases a@.len() - i,
    {
        if a[i] != b[i] {
            return a[i] < b[i];
        }
        assert(a@.skip(i as int).drop_first() =~= a@.skip(i + 1));
        assert(b@.skip(i as int).drop_first() =~= b@.skip(i + 1));
        i = i + 1;
    }
    i < b.len()
}

/// Each text comes before all that follow it.
pub open spec fn ascending(s: Seq<Seq<char>>) -> bool {
    forall|i: int, j: int| 0 <= i < j < s.len() ==> precedes(#[trigger] s[i], #[trigger] s[j])
}

/// `s` with `name` put in its place, unless it is there.
pub open spec fn with_name(s: Seq<Seq<char>>, name: Seq<char>) -> Seq<Seq<char>>
    decreases s.len(),
{
    if s.len() == 0 {
        seq![name]
    } else if s[0] == name {
        s
    } else if precedes(name, s[0]) {
        seq![name] + s
    } else {
        seq![s[0]] + with_name(s.drop_first(), name)
    }
}

/// `s` with each of `names` put in its place, from the first to the last.
pub open spec fn with_names(s: Seq<Seq<char>>, names: Seq<Seq<char>>) -> Seq<Seq<char>>
    decreases names.len(),
{
    if names.len() == 0 {
        s
    } else {
        with_name(with_names(s, names.drop_last()), names.last())
    }
}

/// Putting a name in its place keeps the order and adds that name alone.
pub proof fn lemma_with_name(s: Seq<Seq<char>>, name: Seq<char>)
    requires
        ascending(s),
    ensures
        ascending(with_name(s, name)),
        forall|n: Seq<char>| #[trigger]
            with_name(s, name).contains(n) <==> s.contains(n) || n == name,
    decreases s.len(),
{
    let r = with_name(s, name);
    if s.len() == 0 {
        assert(r[0] == name);
    } else if s[0] == name {
    } else if precedes(name, s[0]) {
        assert forall|i: int, j: int| 0 <= i < j < r.len() implies precedes(
            #[trigger] r[i],
            #[trigger] r[j],
        ) by {
            if i == 0 && j > 1 {
                assert(r[j] == s[j - 1]);
                lemma_precedes_transitive(name, s[0], s[j - 1]);
            }
        }
        assert forall|n: Seq<char>| #[trigger] r.contains(n) <==> s.contains(n) || n == name by {
            assert(r[0] == name);
            if s.contains(n) {
                let k = choose|k: int| 0 <= k < s.len() && s[k] == n;
                assert(r[k + 1] == n);
            }
            if r.contains(n) {
                let k = choose|k: int| 0 <= k < r.len() && r[k] == n;
                assert(k == 0 || s[k - 1] == n);
            }
        }
    } else {
        let rest = s.drop_first();
        let inner = with_name(rest, name);
        lemma_with_name(rest, name);
        lemma_precedes_total(name, s[0]);
        assert forall|i: int, j: int| 0 <= i < j < r.len() implies precedes(
            #[trigger] r[i],
            #[trigger] r[j],
        ) by {
            assert(r[j] == inner[j - 1]);
            if i == 0 {
                assert(inner.contains(inner[j - 1]));
                if inner[j - 1] != name {
                    let k = choose|k: int| 0 <= k < rest.len() && rest[k] == inner[j - 1];
                    assert(rest[k] == s[k + 1]);
                }
            } else {
                assert(r[i] == inner[i - 1]);
            }
        }
        assert forall|n: Seq<char>| #[trigger] r.contains(n) <==> s.contains(n) || n == name by {
            assert(r[0] == s[0]);
            if s.contains(n) {
                let k = choose|k: int| 0 <= k < s.len() && s[k] == n;
                if k > 0 {
                    assert(rest[k - 1] == n);
                }
            }
            if inner.contains(n) {
                let k = choose|k: int| 0 <= k < inner.len() && inner[k] == n;
                assert(r[k + 1] == n);
            }
            if r.contains(n) {
                let k = choose|k: int| 0 <= k < r.len() && r[k] == n;
                if k > 0 {
                    assert(inner[k - 1] == n);
                }
                if rest.contains(n) {
                    let m = choose|m: int| 0 <= m < rest.len() && rest[m] == n;
                    assert(s[m + 1] == n);
                }
            }
        }
    }
}

/// Putting names in their places keeps the order and adds those names alone.
pub proof fn lemma_with_names(s: Seq<Seq<char>>, names: Seq<Seq<char>>)
    requires
        ascending(s),
    ensures
        ascending(with_names(s, names)),
        forall|n: Seq<char>| #[trigger]
            with_names(s, names).contains(n) <==> s.contains(n) || names.contains(n),
    decreases names.len(),
{
    if names.len() > 0 {
        let init = names.drop_last();
        lemma_with_names(s, init);
        lemma_with_name(with_names(s, init), names.last());
        assert forall|n: Seq<char>| #[trigger] with_names(s, names).contains(n) <==> s.contains(n)
            || names.contains(n) by {
            if names.contains(n) {
                let k = choose|k: int| 0 <= k < names.len() && names[k] == n;
                if k < init.len() {
                    assert(init[k] == n);
                }
            }
            if init.contains(n) {
                let k = choose|k: int| 0 <= k < init.len() && init[k] == n;
                assert(names[k] == n);
            }
            if n == names.last() {
                assert(names[names.len() - 1] == n);
            }
        }
    }
}

/// A set of names that hands them out in order, each once.
pub struct NameSet {
    names: Vec<String>,
}

impl View for NameSet {
    type V = Seq<Seq<char>>;

    /// The names in ascending order.
    closed spec fn view(&self) -> Seq<Seq<char>> {
        self.names.deep_view()
    }
}

impl DeepView for NameSet {
    type V = Seq<Seq<char>>;

    open spec fn deep_view(&self) -> Seq<Seq<char>> {
        self@
    }
}

impl Clone for NameSet {
    fn clone(&self) -> (r: NameSet)
        ensures
            r@ == self@,
    {
        NameSet { names: crate::text::copy_texts(&self.names) }
    }
}

impl NameSet {
    /// A set without names.
    pub fn new() -> (r: NameSet)
        ensures
            r@ == Seq::<Seq<char>>::empty(),
    {
        let r = NameSet { names: Vec::new() };
        assert(r@ =~= Seq::<Seq<char>>::empty());
        r
    }

    /// How many names there are.
    pub fn len(&self) -> (r: usize)
        ensures
            r == self@.len(),
    {
        self.names.len()
    }

    /// The names in order.
    pub fn to_list(&self) -> (r: Vec<String>)
        ensures
            r.deep_view() == self@,
    {
        crate::text::copy_texts(&self.names)
    }

    /// Forgets all names.
    pub fn clear(&mut self)
        ensures
            final(self)@ == Seq::<Seq<char>>::empty(),
    {
        self.names.clear();
        assert(self@ =~= Seq::<Seq<char>>::empty());
    }

    /// Whether two sets hold the same names.
    pub fn same(&self, other: &NameSet) -> (r: bool)
        ensures
            r == (self@ == other@),
    {
        if self.names.len() != other.names.len() {
            assert(self@.len() != other@.len());
            return false;
        }
        let mut i: usize = 0;
        while i < self.names.len()
            invariant
                self.names@.len() == other.names@.len(),
                i <= self.names@.len(),
                forall|j: int| 0 <= j < i ==> #[trigger] self@[j] == other@[j],
            decreases self.names@.len() - i,
        {
            if self.names[i] != other.names[i] {
                assert(self@[i as int] != other@[i as int]);
                return false;
            }
            i = i + 1;
        }
        assert(self@ =~= other@);
        true
    }

    /// Puts a name in its place, unless it is there.
    pub fn insert(&mut self, name: String)
        ensures
            final(self)@ == with_name(old(self)@, name@),
    {
        let key = chars_of(name.as_str());
        let mut i: usize = 0;
        let ghost s = self@;
        assert(s.skip(0) =~= s);
        assert(s.take(0) + with_name(s.skip(0), name@) =~= with_name(s, name@));
        while i < self.names.len()
            invariant
                self@ == s,
                s == old(self)@,
                key@ == name@,
                i <= s.len(),
                s.len() == self.names@.len(),
                s.take(i as int) + with_name(s.skip(i as int), name@) == with_name(s, name@),
            decreases s.len() - i,
        {
            let ghost rest = s.skip(i as int);
            assert(rest[0] == s[i as int]);
            if self.names[i] == name {
                assert(s.take(i as int) + rest =~= s);
                return;
            }
            let here = chars_of(self.names[i].as_str());
            if text_precedes(&key, &here) {
                self.names.insert(i, name);
                assert(self@ =~= s.insert(i as int, name@));
                assert(self@ =~= s.take(i as int) + (seq![name@] + rest));
                return;
            }
            proof {
                assert(rest.drop_first() =~= s.skip(i + 1));
                assert(s.take(i as int) + (seq![rest[0]] + with_name(s.skip(i + 1), name@))
                    =~= s.take(i + 1) + with_name(s.skip(i + 1), name@));
            }
            i = i + 1;
        }
        self.names.push(name);
        assert(s.skip(s.len() as int) =~= Seq::<Seq<char>>::empty());
        assert(self@ =~= s.take(i as int) + seq![name@]);
    }

    /// Puts each of a list of names in its place.
    pub fn insert_all(&mut self, names: Vec<String>)
        ensures
            final(self)@ == with_names(old(self)@, names.deep_view()),
    {
        let mut i: usize = 0;
        let ghost all = names.deep_view();
        assert(all.take(0) =~= Seq::<Seq<char>>::empty());
        while i < names.len()
            invariant
                all == names.deep_view(),
                i <= names@.len(),
                self@ == with_names(old(self)@, all.take(i as int)),
            decreases names@.len() - i,
        {
            self.insert(names[i].clone());
            assert(all.take(i + 1).drop_last() =~= all.take(i as int));
            i = i + 1;
        }
        assert(all.take(all.len() as int) =~= all);
    }
}

} // verus!
