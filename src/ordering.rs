//! Lexicographic order on character sequences, used to emit the header's
//! include directives and slice wrappers in a reproducible order.

use vstd::prelude::*;
use vstd::string::*;

verus! {

/// `a` sorts strictly before `b`, comparing from position `i` on.
pub open spec fn lex_lt_from(a: Seq<char>, b: Seq<char>, i: int) -> bool
    decreases a.len() - i,
{
    if i >= a.len() {
        i < b.len()
    } else if i >= b.len() {
        false
    } else if a[i] != b[i] {
        (a[i] as int) < (b[i] as int)
    } else {
        lex_lt_from(a, b, i + 1)
    }
}

/// Strict lexicographic order by code point; a proper prefix sorts first.
pub open spec fn lex_lt(a: Seq<char>, b: Seq<char>) -> bool {
    lex_lt_from(a, b, 0)
}

proof fn lemma_lex_lt_from_irreflexive(a: Seq<char>, i: int)
    requires
        0 <= i,
    ensures
        !lex_lt_from(a, a, i),
    decreases a.len() - i,
{
    if i < a.len() {
        lemma_lex_lt_from_irreflexive(a, i + 1);
    }
}

proof fn lemma_lex_lt_from_transitive(a: Seq<char>, b: Seq<char>, c: Seq<char>, i: int)
    requires
        0 <= i,
        lex_lt_from(a, b, i),
        lex_lt_from(b, c, i),
    ensures
        lex_lt_from(a, c, i),
    decreases a.len() - i,
{
    if i < a.len() && i < b.len() && i < c.len() && a[i] == b[i] && b[i] == c[i] {
        lemma_lex_lt_from_transitive(a, b, c, i + 1);
    }
}

proof fn lemma_lex_lt_from_total(a: Seq<char>, b: Seq<char>, i: int)
    requires
        0 <= i <= a.len(),
        i <= b.len(),
        !lex_lt_from(a, b, i),
        !lex_lt_from(b, a, i),
    ensures
        a.subrange(i, a.len() as int) =~= b.subrange(i, b.len() as int),
    decreases a.len() - i,
{
    if i < a.len() && i < b.len() {
        if a[i] == b[i] {
            lemma_lex_lt_from_total(a, b, i + 1);
            assert(a.subrange(i, a.len() as int) =~= seq![a[i]] + a.subrange(i + 1, a.len() as int));
            assert(b.subrange(i, b.len() as int) =~= seq![b[i]] + b.subrange(i + 1, b.len() as int));
        } else {
            assert((a[i] as int) != (b[i] as int));
        }
    }
}

/// The order is irreflexive.
pub proof fn lemma_lex_lt_irreflexive(a: Seq<char>)
    ensures
        !lex_lt(a, a),
{
    lemma_lex_lt_from_irreflexive(a, 0);
}

/// The order is transitive.
pub proof fn lemma_lex_lt_transitive(a: Seq<char>, b: Seq<char>, c: Seq<char>)
    requires
        lex_lt(a, b),
        lex_lt(b, c),
    ensures
        lex_lt(a, c),
{
    lemma_lex_lt_from_transitive(a, b, c, 0);
}

/// Any two distinct sequences are ordered one way or the other.
pub proof fn lemma_lex_lt_total(a: Seq<char>, b: Seq<char>)
    requires
        a != b,
    ensures
        lex_lt(a, b) || lex_lt(b, a),
{
    if !lex_lt(a, b) && !lex_lt(b, a) {
        lemma_lex_lt_from_total(a, b, 0);
        assert(a =~= a.subrange(0, a.len() as int));
        assert(b =~= b.subrange(0, b.len() as int));
    }
}

/// Compares two strings in the order `lex_lt`.
pub fn str_lt(a: &str, b: &str) -> (r: bool)
    ensures
        r == lex_lt(a@, b@),
{
    let a_len = a.unicode_len();
    let b_len = b.unicode_len();
    let mut i: usize = 0;
    while i < a_len && i < b_len
        invariant
            a_len == a@.len(),
            b_len == b@.len(),
            i <= a_len,
            i <= b_len,
            lex_lt(a@, b@) == lex_lt_from(a@, b@, i as int),
        decreases a_len - i,
    {
        let ca = a.get_char(i);
        let cb = b.get_char(i);
        if ca != cb {
            return (ca as u32) < (cb as u32);
        }
        i = i + 1;
    }
    i == a_len && i < b_len
}

} // verus!

verus! {

/// Every element sorts strictly before every later one; in particular no
/// element appears twice.
pub open spec fn strictly_sorted(l: Seq<Seq<char>>) -> bool {
    forall|i: int, j: int| 0 <= i < j < l.len() ==> lex_lt(#[trigger] l[i], #[trigger] l[j])
}

/// The elements of `s` in ascending order, each once.
pub open spec fn sorted_listing(s: Set<Seq<char>>) -> Seq<Seq<char>> {
    choose|l: Seq<Seq<char>>| strictly_sorted(l) && l.to_set() == s
}

/// Two ascending listings of the same set are the same listing: the order in
/// which elements were discovered never shows in the result.
pub proof fn lemma_sorted_listing_unique(l1: Seq<Seq<char>>, l2: Seq<Seq<char>>)
    requires
        strictly_sorted(l1),
        strictly_sorted(l2),
        l1.to_set() == l2.to_set(),
    ensures
        l1 == l2,
    decreases l1.len(),
{
    if l1.len() == 0 {
        if l2.len() > 0 {
            assert(l2.to_set().contains(l2[0]));
        }
        assert(l2 =~= l1);
    } else {
        assert(l1.to_set().contains(l1[0]));
        assert(l2.len() > 0);
        assert(l2.to_set().contains(l2[0]));
        let j = choose|j: int| 0 <= j < l2.len() && l2[j] == l1[0];
        let k = choose|k: int| 0 <= k < l1.len() && l1[k] == l2[0];
        if j > 0 {
            assert(lex_lt(l2[0], l2[j]));
            if k > 0 {
                assert(lex_lt(l1[0], l1[k]));
                lemma_lex_lt_transitive(l1[0], l2[0], l1[0]);
            }
            lemma_lex_lt_irreflexive(l1[0]);
        }
        assert(l1[0] == l2[0]);
        let t1 = l1.drop_first();
        let t2 = l2.drop_first();
        assert(strictly_sorted(t1)) by {
            assert forall|a: int, b: int| 0 <= a < b < t1.len() implies lex_lt(t1[a], t1[b]) by {
                assert(t1[a] == l1[a + 1] && t1[b] == l1[b + 1]);
            }
        }
        assert(strictly_sorted(t2)) by {
            assert forall|a: int, b: int| 0 <= a < b < t2.len() implies lex_lt(t2[a], t2[b]) by {
                assert(t2[a] == l2[a + 1] && t2[b] == l2[b + 1]);
            }
        }
        assert(t1.to_set() =~= t2.to_set()) by {
            assert forall|x: Seq<char>| t1.to_set().contains(x) implies t2.to_set().contains(x) by {
                let a = choose|a: int| 0 <= a < t1.len() && t1[a] == x;
                assert(l1[a + 1] == x);
                assert(lex_lt(l1[0], x));
                if x == l2[0] {
                    lemma_lex_lt_irreflexive(x);
                }
                assert(l2.to_set().contains(x));
                let b = choose|b: int| 0 <= b < l2.len() && l2[b] == x;
                assert(b > 0);
                assert(t2[b - 1] == x);
            }
            assert forall|x: Seq<char>| t2.to_set().contains(x) implies t1.to_set().contains(x) by {
                let a = choose|a: int| 0 <= a < t2.len() && t2[a] == x;
                assert(l2[a + 1] == x);
                assert(lex_lt(l2[0], x));
                if x == l1[0] {
                    lemma_lex_lt_irreflexive(x);
                }
                assert(l1.to_set().contains(x));
                let b = choose|b: int| 0 <= b < l1.len() && l1[b] == x;
                assert(b > 0);
                assert(t1[b - 1] == x);
            }
        }
        lemma_sorted_listing_unique(t1, t2);
        assert(l1 =~= seq![l1[0]] + t1);
        assert(l2 =~= seq![l2[0]] + t2);
    }
}

/// An ascending listing of `s` is the listing of `s`.
pub proof fn lemma_sorted_listing_of(l: Seq<Seq<char>>, s: Set<Seq<char>>)
    requires
        strictly_sorted(l),
        l.to_set() == s,
    ensures
        sorted_listing(s) == l,
{
    let c = sorted_listing(s);
    assert(strictly_sorted(c) && c.to_set() == s);
    lemma_sorted_listing_unique(c, l);
}

/// Putting `s` where it belongs keeps a listing ascending.
pub proof fn lemma_insert_keeps_sorted(before: Seq<Seq<char>>, i: int, s: Seq<char>)
    requires
        strictly_sorted(before),
        0 <= i <= before.len(),
        forall|k: int| 0 <= k < i ==> lex_lt(#[trigger] before[k], s),
        i < before.len() ==> lex_lt(s, before[i]),
    ensures
        strictly_sorted(before.insert(i, s)),
        before.insert(i, s).to_set() == before.to_set().insert(s),
{
    let after = before.insert(i, s);
    assert(strictly_sorted(after)) by {
        assert forall|a: int, b: int| 0 <= a < b < after.len() implies lex_lt(
            after[a],
            after[b],
        ) by {
            if b < i {
                assert(after[a] == before[a] && after[b] == before[b]);
            } else if b == i {
                assert(after[a] == before[a]);
            } else {
                assert(after[b] == before[b - 1]);
                if a < i {
                    assert(after[a] == before[a]);
                } else if a == i {
                    if b - 1 > i {
                        lemma_lex_lt_transitive(s, before[i], before[b - 1]);
                    }
                } else {
                    assert(after[a] == before[a - 1]);
                }
            }
        }
    }
    assert(after.to_set() =~= before.to_set().insert(s)) by {
        assert forall|x: Seq<char>| after.to_set().contains(x) implies before.to_set().insert(
            s,
        ).contains(x) by {
            let a = choose|a: int| 0 <= a < after.len() && after[a] == x;
            if a < i {
                assert(before[a] == x);
            } else if a > i {
                assert(before[a - 1] == x);
            }
        }
        assert forall|x: Seq<char>| before.to_set().insert(s).contains(x) implies after.to_set().contains(
            x,
        ) by {
            if x == s {
                assert(after[i] == x);
            } else {
                let a = choose|a: int| 0 <= a < before.len() && before[a] == x;
                if a < i {
                    assert(after[a] == x);
                } else {
                    assert(after[a + 1] == x);
                }
            }
        }
    }
}

proof fn lemma_insert_position(l: Seq<Seq<char>>, x: Seq<char>) -> (i: int)
    requires
        strictly_sorted(l),
        !l.contains(x),
    ensures
        0 <= i <= l.len(),
        forall|k: int| 0 <= k < i ==> lex_lt(#[trigger] l[k], x),
        i < l.len() ==> lex_lt(x, l[i]),
    decreases l.len(),
{
    if l.len() == 0 {
        0
    } else {
        let p = l.drop_last();
        assert(strictly_sorted(p)) by {
            assert forall|a: int, b: int| 0 <= a < b < p.len() implies lex_lt(p[a], p[b]) by {
                assert(p[a] == l[a] && p[b] == l[b]);
            }
        }
        assert(!p.contains(x)) by {
            if p.contains(x) {
                let a = choose|a: int| 0 <= a < p.len() && p[a] == x;
                assert(l[a] == x);
            }
        }
        let j = lemma_insert_position(p, x);
        let last = l.len() - 1;
        if lex_lt(l[last], x) {
            assert forall|k: int| 0 <= k < l.len() implies lex_lt(#[trigger] l[k], x) by {
                if k < last {
                    lemma_lex_lt_transitive(l[k], l[last], x);
                }
            }
            l.len() as int
        } else {
            assert(l[last] != x);
            lemma_lex_lt_total(l[last], x);
            assert forall|k: int| 0 <= k < j implies lex_lt(#[trigger] l[k], x) by {
                assert(p[k] == l[k]);
                assert(lex_lt(p[k], x));
            }
            if j < p.len() {
                assert(p[j] == l[j]);
            }
            j
        }
    }
}

/// Every finite set has an ascending listing.
pub proof fn lemma_sorted_listing_exists(s: Set<Seq<char>>)
    requires
        s.finite(),
    ensures
        strictly_sorted(sorted_listing(s)),
        sorted_listing(s).to_set() == s,
    decreases s.len(),
{
    if s.len() == 0 {
        s.lemma_len0_is_empty();
        let l = Seq::<Seq<char>>::empty();
        assert(l.to_set() =~= s);
        lemma_sorted_listing_of(l, s);
    } else {
        let x = s.choose();
        if !s.contains(x) {
            assert(s =~= Set::<Seq<char>>::empty());
        }
        let r = s.remove(x);
        lemma_sorted_listing_exists(r);
        let l = sorted_listing(r);
        assert(!l.contains(x)) by {
            if l.contains(x) {
                assert(l.to_set().contains(x));
            }
        }
        let i = lemma_insert_position(l, x);
        lemma_insert_keeps_sorted(l, i, x);
        assert(r.insert(x) =~= s);
        lemma_sorted_listing_of(l.insert(i, x), s);
    }
}

/// In an ascending listing each element of the set stands exactly once.
pub proof fn lemma_listed_once(l: Seq<Seq<char>>, x: Seq<char>)
    requires
        strictly_sorted(l),
        l.to_set().contains(x),
    ensures
        exists|i: int| 0 <= i < l.len() && l[i] == x,
        forall|i: int, j: int| 0 <= i < l.len() && 0 <= j < l.len() && l[i] == x && l[j] == x ==> i == j,
{
    assert forall|i: int, j: int| 0 <= i < l.len() && 0 <= j < l.len() && l[i] == x && l[j] == x implies i == j by {
        if i < j {
            assert(lex_lt(l[i], l[j]));
            lemma_lex_lt_irreflexive(x);
        } else if j < i {
            assert(lex_lt(l[j], l[i]));
            lemma_lex_lt_irreflexive(x);
        }
    }
}

/// A set of strings kept as an ascending vector without repeats.
pub struct SortedStrings {
    pub items: Vec<String>,
}

impl SortedStrings {
    pub open spec fn listing(&self) -> Seq<Seq<char>> {
        self.items@.map_values(|s: String| s@)
    }

    pub open spec fn wf(&self) -> bool {
        strictly_sorted(self.listing())
    }

    pub open spec fn view(&self) -> Set<Seq<char>> {
        self.listing().to_set()
    }

    pub fn new() -> (r: SortedStrings)
        ensures
            r.wf(),
            r.view() == Set::<Seq<char>>::empty(),
    {
        let r = SortedStrings { items: Vec::new() };
        assert(r.listing() =~= Seq::<Seq<char>>::empty());
        assert(r.view() =~= Set::<Seq<char>>::empty());
        r
    }

    /// Adds `s`; adding an element already present changes nothing.
    pub fn insert(&mut self, s: String)
        requires
            old(self).wf(),
        ensures
            final(self).wf(),
            final(self).view() == old(self).view().insert(s@),
    {
        let ghost before = self.listing();
        let mut i: usize = 0;
        while i < self.items.len() && str_lt(self.items[i].as_str(), s.as_str())
            invariant
                i <= self.items.len(),
                self.listing() == before,
                strictly_sorted(before),
                forall|k: int| 0 <= k < i ==> lex_lt(#[trigger] before[k], s@),
            decreases self.items.len() - i,
        {
            i = i + 1;
        }
        if i < self.items.len() && self.items[i] == s {
            assert(before[i as int] == s@);
            assert(self.view() =~= before.to_set().insert(s@));
            return;
        }
        proof {
            if i < self.items.len() {
                assert(!lex_lt(before[i as int], s@));
                lemma_lex_lt_total(before[i as int], s@);
            }
        }
        proof {
            lemma_insert_keeps_sorted(before, i as int, s@);
        }
        self.items.insert(i, s);
        assert(self.listing() =~= before.insert(i as int, s@));
    }
}

} // verus!
