//! Lexicographic order on text (by Unicode scalar value, which is also the
//! byte order of UTF-8), and sorted duplicate-free string collections.
use vstd::prelude::*;
use crate::text::{chars_of, str_eq};
use crate::scope::texts;

verus! {

/// `a` sorts strictly before `b`.
pub open spec fn text_lt(a: Seq<char>, b: Seq<char>) -> bool
    decreases a.len(),
{
    if a.len() == 0 {
        b.len() > 0
    } else if b.len() == 0 {
        false
    } else if a[0] != b[0] {
        (a[0] as int) < (b[0] as int)
    } else {
        text_lt(a.drop_first(), b.drop_first())
    }
}

/// Each entry sorts strictly before every later one (so there are no duplicates).
pub open spec fn strictly_sorted(s: Seq<Seq<char>>) -> bool {
    forall|i: int, j: int| 0 <= i < j < s.len() ==> text_lt(#[trigger] s[i], #[trigger] s[j])
}

pub proof fn lemma_text_lt_irreflexive(a: Seq<char>)
    ensures
        !text_lt(a, a),
    decreases a.len(),
{
    if a.len() > 0 {
        lemma_text_lt_irreflexive(a.drop_first());
    }
}

pub proof fn lemma_text_lt_transitive(a: Seq<char>, b: Seq<char>, c: Seq<char>)
    requires
        text_lt(a, b),
        text_lt(b, c),
    ensures
        text_lt(a, c),
    decreases a.len(),
{
    if a.len() > 0 && b.len() > 0 && c.len() > 0 {
        if a[0] == b[0] && b[0] == c[0] {
            lemma_text_lt_transitive(a.drop_first(), b.drop_first(), c.drop_first());
        }
    }
}

pub proof fn lemma_text_lt_total(a: Seq<char>, b: Seq<char>)
    ensures
        a == b || text_lt(a, b) || text_lt(b, a),
    decreases a.len(),
{
    if a.len() > 0 && b.len() > 0 {
        if a[0] == b[0] {
            lemma_text_lt_total(a.drop_first(), b.drop_first());
            if a.drop_first() == b.drop_first() {
                assert(a =~= seq![a[0]] + a.drop_first());
                assert(b =~= seq![b[0]] + b.drop_first());
            }
        } else {
        }
    } else if a.len() == 0 && b.len() == 0 {
        assert(a =~= b);
    }
}

pub proof fn lemma_text_lt_asymmetric(a: Seq<char>, b: Seq<char>)
    requires
        text_lt(a, b),
    ensures
        !text_lt(b, a),
{
    if text_lt(b, a) {
        lemma_text_lt_transitive(a, b, a);
        lemma_text_lt_irreflexive(a);
    }
}

/// Whether `a` sorts strictly before `b`.
pub fn text_less(a: &str, b: &str) -> (r: bool)
    ensures
        r == text_lt(a@, b@),
{
    let x = chars_of(a);
    let y = chars_of(b);
    let mut i: usize = 0;
    assert(a@.subrange(0, a@.len() as int) =~= a@);
    assert(b@.subrange(0, b@.len() as int) =~= b@);
    while i < x.len() && i < y.len()
        invariant
            i <= x@.len(),
            i <= y@.len(),
            x@ == a@,
            y@ == b@,
            text_lt(a@, b@) == text_lt(a@.subrange(i as int, a@.len() as int), b@.subrange(
                i as int,
                b@.len() as int,
            )),
        decreases x@.len() - i,
    {
        let ghost sa = a@.subrange(i as int, a@.len() as int);
        let ghost sb = b@.subrange(i as int, b@.len() as int);
        assert(sa[0] == x@[i as int]);
        assert(sb[0] == y@[i as int]);
        if x[i] != y[i] {
            return x[i] < y[i];
        }
        assert(sa.drop_first() =~= a@.subrange(i + 1, a@.len() as int));
        assert(sb.drop_first() =~= b@.subrange(i + 1, b@.len() as int));
        i = i + 1;
    }
    i < y.len()
}

/// The set of entries of `s`.
pub open spec fn same_entries(a: Seq<Seq<char>>, b: Seq<Seq<char>>) -> bool {
    forall|x: Seq<char>| #[trigger] a.contains(x) <==> b.contains(x)
}

/// The sorted, duplicate-free list of the entries of `a` and `b`.
pub open spec fn sorted_union(a: Seq<Seq<char>>, b: Seq<Seq<char>>) -> Seq<Seq<char>> {
    choose|s: Seq<Seq<char>>|
        strictly_sorted(s) && forall|x: Seq<char>| #[trigger] s.contains(x) <==> (a.contains(x) || b.contains(x))
}

/// Two strictly sorted lists with the same entries are equal.
pub proof fn lemma_sorted_unique(a: Seq<Seq<char>>, b: Seq<Seq<char>>)
    requires
        strictly_sorted(a),
        strictly_sorted(b),
        same_entries(a, b),
    ensures
        a == b,
    decreases a.len(),
{
    if a.len() == 0 {
        if b.len() > 0 {
            assert(b.contains(b[0]));
            assert(a.contains(b[0]));
        }
        assert(a =~= b);
    } else if b.len() == 0 {
        assert(a.contains(a[0]));
        assert(b.contains(a[0]));
    } else {
        // the first entries are the least of each list, so they coincide
        assert(a.contains(a[0]));
        assert(b.contains(a[0]));
        assert(b.contains(b[0]));
        assert(a.contains(b[0]));
        let i = choose|i: int| 0 <= i < b.len() && b[i] == a[0];
        let j = choose|j: int| 0 <= j < a.len() && a[j] == b[0];
        if a[0] != b[0] {
            assert(i > 0);
            assert(j > 0);
            assert(text_lt(b[0], b[i]));
            assert(text_lt(a[0], a[j]));
            lemma_text_lt_asymmetric(b[0], a[0]);
        }
        let ra = a.drop_first();
        let rb = b.drop_first();
        assert forall|k: int, l: int| 0 <= k < l < ra.len() implies text_lt(#[trigger] ra[k], #[trigger] ra[l]) by {
            assert(ra[k] == a[k + 1] && ra[l] == a[l + 1]);
        }
        assert forall|k: int, l: int| 0 <= k < l < rb.len() implies text_lt(#[trigger] rb[k], #[trigger] rb[l]) by {
            assert(rb[k] == b[k + 1] && rb[l] == b[l + 1]);
        }
        assert forall|x: Seq<char>| #[trigger] ra.contains(x) <==> rb.contains(x) by {
            if ra.contains(x) {
                let k = choose|k: int| 0 <= k < ra.len() && ra[k] == x;
                assert(a[k + 1] == x);
                assert(text_lt(a[0], x));
                lemma_text_lt_irreflexive(x);
                assert(a.contains(x));
                assert(b.contains(x));
                let l = choose|l: int| 0 <= l < b.len() && b[l] == x;
                assert(l != 0);
                assert(rb[l - 1] == x);
            }
            if rb.contains(x) {
                let k = choose|k: int| 0 <= k < rb.len() && rb[k] == x;
                assert(b[k + 1] == x);
                assert(text_lt(b[0], x));
                lemma_text_lt_irreflexive(x);
                assert(b.contains(x));
                assert(a.contains(x));
                let l = choose|l: int| 0 <= l < a.len() && a[l] == x;
                assert(l != 0);
                assert(ra[l - 1] == x);
            }
        }
        lemma_sorted_unique(ra, rb);
        assert(a =~= seq![a[0]] + ra);
        assert(b =~= seq![b[0]] + rb);
    }
}

/// Some strictly sorted list holds exactly the entries of `a` and `b`.
pub proof fn lemma_sorted_union_exists(a: Seq<Seq<char>>, b: Seq<Seq<char>>)
    ensures
        exists|s: Seq<Seq<char>>|
            strictly_sorted(s) && forall|x: Seq<char>| #[trigger] s.contains(x) <==> (a.contains(x) || b.contains(x)),
    decreases a.len() + b.len(),
{
    if a.len() == 0 && b.len() == 0 {
        let s = Seq::<Seq<char>>::empty();
        assert(strictly_sorted(s));
        assert forall|x: Seq<char>| #[trigger] s.contains(x) <==> (a.contains(x) || b.contains(x)) by {}
    } else if a.len() > 0 {
        lemma_sorted_union_exists(a.drop_last(), b);
        let s0 = choose|s: Seq<Seq<char>>|
            strictly_sorted(s) && forall|x: Seq<char>| #[trigger] s.contains(x) <==> (a.drop_last().contains(x) || b.contains(x));
        let s1 = sorted_insert(s0, a.last());
        assert forall|x: Seq<char>| #[trigger] s1.contains(x) <==> (a.contains(x) || b.contains(x)) by {
            if a.contains(x) && x != a.last() {
                let j = choose|j: int| 0 <= j < a.len() && a[j] == x;
                assert(a.drop_last()[j] == x);
            }
            if a.drop_last().contains(x) {
                let j = choose|j: int| 0 <= j < a.drop_last().len() && a.drop_last()[j] == x;
                assert(a[j] == x);
            }
            if x == a.last() {
                assert(a[a.len() - 1] == x);
            }
        }
    } else {
        lemma_sorted_union_exists(a, b.drop_last());
        let s0 = choose|s: Seq<Seq<char>>|
            strictly_sorted(s) && forall|x: Seq<char>| #[trigger] s.contains(x) <==> (a.contains(x) || b.drop_last().contains(x));
        let s1 = sorted_insert(s0, b.last());
        assert forall|x: Seq<char>| #[trigger] s1.contains(x) <==> (a.contains(x) || b.contains(x)) by {
            if b.contains(x) && x != b.last() {
                let j = choose|j: int| 0 <= j < b.len() && b[j] == x;
                assert(b.drop_last()[j] == x);
            }
            if b.drop_last().contains(x) {
                let j = choose|j: int| 0 <= j < b.drop_last().len() && b.drop_last()[j] == x;
                assert(b[j] == x);
            }
            if x == b.last() {
                assert(b[b.len() - 1] == x);
            }
        }
    }
}

/// Inserting one entry into a strictly sorted list, in the mathematical world.
proof fn sorted_insert(s: Seq<Seq<char>>, v: Seq<char>) -> (r: Seq<Seq<char>>)
    requires
        strictly_sorted(s),
    ensures
        strictly_sorted(r),
        forall|x: Seq<char>| #[trigger] r.contains(x) <==> (s.contains(x) || x == v),
    decreases s.len(),
{
    if s.len() == 0 {
        let r = seq![v];
        assert(r[0] == v);
        assert(r.contains(v));
        assert forall|x: Seq<char>| #[trigger] r.contains(x) <==> (s.contains(x) || x == v) by {
            if r.contains(x) {
                let j = choose|j: int| 0 <= j < r.len() && r[j] == x;
            }
        }
        r
    } else {
        lemma_text_lt_total(s[0], v);
        if s[0] == v {
            assert forall|x: Seq<char>| #[trigger] s.contains(x) <==> (s.contains(x) || x == v) by {
                if x == v { assert(s[0] == x); }
            }
            s
        } else if text_lt(v, s[0]) {
            let r = seq![v] + s;
            assert forall|a: int, b: int| 0 <= a < b < r.len() implies text_lt(#[trigger] r[a], #[trigger] r[b]) by {
                if a == 0 {
                    assert(r[b] == s[b - 1]);
                    if b - 1 > 0 {
                        lemma_text_lt_transitive(v, s[0], s[b - 1]);
                    }
                } else {
                    assert(r[a] == s[a - 1] && r[b] == s[b - 1]);
                }
            }
            assert forall|x: Seq<char>| #[trigger] r.contains(x) <==> (s.contains(x) || x == v) by {
                if r.contains(x) {
                    let j = choose|j: int| 0 <= j < r.len() && r[j] == x;
                    if j > 0 { assert(s[j - 1] == x); }
                }
                if s.contains(x) {
                    let j = choose|j: int| 0 <= j < s.len() && s[j] == x;
                    assert(r[j + 1] == x);
                }
                if x == v { assert(r[0] == x); }
            }
            r
        } else {
            let tail = s.drop_first();
            assert forall|a: int, b: int| 0 <= a < b < tail.len() implies text_lt(#[trigger] tail[a], #[trigger] tail[b]) by {
                assert(tail[a] == s[a + 1] && tail[b] == s[b + 1]);
            }
            let t = sorted_insert(tail, v);
            let r = seq![s[0]] + t;
            assert forall|a: int, b: int| 0 <= a < b < r.len() implies text_lt(#[trigger] r[a], #[trigger] r[b]) by {
                if a == 0 {
                    assert(r[b] == t[b - 1]);
                    assert(t.contains(t[b - 1]));
                    if t[b - 1] != v {
                        assert(tail.contains(t[b - 1]));
                        let j = choose|j: int| 0 <= j < tail.len() && tail[j] == t[b - 1];
                        assert(s[j + 1] == t[b - 1]);
                    }
                } else {
                    assert(r[a] == t[a - 1] && r[b] == t[b - 1]);
                }
            }
            assert forall|x: Seq<char>| #[trigger] r.contains(x) <==> (s.contains(x) || x == v) by {
                if r.contains(x) {
                    let j = choose|j: int| 0 <= j < r.len() && r[j] == x;
                    if j > 0 {
                        assert(t[j - 1] == x);
                        assert(t.contains(x));
                        if x != v {
                            let k = choose|k: int| 0 <= k < tail.len() && tail[k] == x;
                            assert(s[k + 1] == x);
                        }
                    }
                }
                if s.contains(x) {
                    let j = choose|j: int| 0 <= j < s.len() && s[j] == x;
                    if j == 0 {
                        assert(r[0] == x);
                    } else {
                        assert(tail[j - 1] == x);
                        assert(tail.contains(x));
                        assert(t.contains(x));
                        let k = choose|k: int| 0 <= k < t.len() && t[k] == x;
                        assert(r[k + 1] == x);
                    }
                }
                if x == v {
                    assert(t.contains(x));
                    let k = choose|k: int| 0 <= k < t.len() && t[k] == x;
                    assert(r[k + 1] == x);
                }
            }
            r
        }
    }
}

/// A strictly sorted list holding exactly the entries of `a` and `b` is their sorted union.
pub proof fn lemma_is_sorted_union(s: Seq<Seq<char>>, a: Seq<Seq<char>>, b: Seq<Seq<char>>)
    requires
        strictly_sorted(s),
        forall|x: Seq<char>| #[trigger] s.contains(x) <==> (a.contains(x) || b.contains(x)),
    ensures
        s == sorted_union(a, b),
{
    let u = sorted_union(a, b);
    assert(strictly_sorted(u) && forall|x: Seq<char>| #[trigger] u.contains(x) <==> (a.contains(x) || b.contains(x)));
    lemma_sorted_unique(s, u);
}

/// Adds `value` to a strictly sorted list unless it is already present.
pub fn insert_sorted_unique(list: &mut Vec<String>, value: &String)
    requires
        strictly_sorted(texts(old(list)@)),
    ensures
        strictly_sorted(texts(final(list)@)),
        forall|s: Seq<char>| #[trigger] texts(final(list)@).contains(s) <==> (texts(old(list)@).contains(s) || s == value@),
{
    let ghost before = texts(list@);
    let mut i: usize = 0;
    let mut found = false;
    while !found && i < list.len()
        invariant
            i <= list@.len(),
            list@ == old(list)@,
            before == texts(list@),
            strictly_sorted(before),
            forall|j: int| 0 <= j < i ==> text_lt(#[trigger] before[j], value@),
            found ==> i < list@.len() && !text_lt(before[i as int], value@),
        decreases list@.len() - i + (if found { 0int } else { 1int }),
    {
        assert(before[i as int] == list@[i as int]@);
        if !text_less(list[i].as_str(), value.as_str()) {
            found = true;
        } else {
            i = i + 1;
        }
    }
    if i < list.len() && str_eq(list[i].as_str(), value.as_str()) {
        assert(before[i as int] == value@);
        assert forall|s: Seq<char>| #[trigger] texts(list@).contains(s) <==> (before.contains(s) || s == value@) by {
            if s == value@ {
                assert(before[i as int] == s);
            }
        }
        return;
    }
    // value is not present; every entry from i on sorts after it
    proof {
        if i < list@.len() {
            assert(before[i as int] == list@[i as int]@);
            assert(!text_lt(before[i as int], value@));
            lemma_text_lt_total(before[i as int], value@);
            assert(text_lt(value@, before[i as int]));
        }
    }
    list.insert(i, value.clone());
    let ghost after = texts(list@);
    assert(after =~= before.insert(i as int, value@));
    assert forall|a: int, b: int| 0 <= a < b < after.len() implies text_lt(#[trigger] after[a], #[trigger] after[b]) by {
        if b < i {
            assert(after[a] == before[a] && after[b] == before[b]);
        } else if b == i {
            assert(after[a] == before[a]);
        } else if a == i {
            assert(after[b] == before[b - 1]);
            if b - 1 > i {
                lemma_text_lt_transitive(value@, before[i as int], before[b - 1]);
            }
        } else if a < i {
            assert(after[a] == before[a] && after[b] == before[b - 1]);
        } else {
            assert(after[a] == before[a - 1] && after[b] == before[b - 1]);
        }
    }
    assert forall|s: Seq<char>| #[trigger] after.contains(s) <==> (before.contains(s) || s == value@) by {
        if s == value@ {
            assert(after[i as int] == s);
        }
        if before.contains(s) {
            let j = choose|j: int| 0 <= j < before.len() && before[j] == s;
            if j < i {
                assert(after[j] == s);
            } else {
                assert(after[j + 1] == s);
            }
        }
        if after.contains(s) {
            let j = choose|j: int| 0 <= j < after.len() && after[j] == s;
            if j < i {
                assert(before[j] == s);
            } else if j > i {
                assert(before[j - 1] == s);
            }
        }
    }
}

/// The sorted, duplicate-free union of two string lists.
pub fn union_strings(left: &[String], right: &[String]) -> (r: Vec<String>)
    ensures
        texts(r@) == sorted_union(texts(left@), texts(right@)),
        strictly_sorted(texts(r@)),
        forall|s: Seq<char>| #[trigger] texts(r@).contains(s) <==> (texts(left@).contains(s) || texts(right@).contains(s)),
{
    let mut out: Vec<String> = Vec::new();
    let mut i: usize = 0;
    while i < left.len()
        invariant
            i <= left@.len(),
            strictly_sorted(texts(out@)),
            forall|s: Seq<char>| #[trigger] texts(out@).contains(s) <==> texts(left@).subrange(0, i as int).contains(s),
        decreases left@.len() - i,
    {
        insert_sorted_unique(&mut out, &left[i]);
        proof {
            let ghost next = texts(left@).subrange(0, i + 1);
            assert(next =~= texts(left@).subrange(0, i as int).push(left@[i as int]@));
            assert forall|s: Seq<char>| #[trigger] texts(out@).contains(s) <==> next.contains(s) by {
                if next.contains(s) && s != left@[i as int]@ {
                    let j = choose|j: int| 0 <= j < next.len() && next[j] == s;
                    assert(texts(left@).subrange(0, i as int)[j] == s);
                }
                if texts(left@).subrange(0, i as int).contains(s) {
                    let j = choose|j: int| 0 <= j < i && texts(left@).subrange(0, i as int)[j] == s;
                    assert(next[j] == s);
                }
                if s == left@[i as int]@ {
                    assert(next[i as int] == s);
                }
            }
        }
        i = i + 1;
    }
    assert(texts(left@).subrange(0, left@.len() as int) =~= texts(left@));
    let mut k: usize = 0;
    while k < right.len()
        invariant
            k <= right@.len(),
            strictly_sorted(texts(out@)),
            forall|s: Seq<char>| #[trigger] texts(out@).contains(s) <==> (texts(left@).contains(s)
                || texts(right@).subrange(0, k as int).contains(s)),
        decreases right@.len() - k,
    {
        insert_sorted_unique(&mut out, &right[k]);
        proof {
            let ghost next = texts(right@).subrange(0, k + 1);
            assert(next =~= texts(right@).subrange(0, k as int).push(right@[k as int]@));
            assert forall|s: Seq<char>| #[trigger] texts(out@).contains(s) <==> (texts(left@).contains(s) || next.contains(s)) by {
                if next.contains(s) && s != right@[k as int]@ {
                    let j = choose|j: int| 0 <= j < next.len() && next[j] == s;
                    assert(texts(right@).subrange(0, k as int)[j] == s);
                }
                if texts(right@).subrange(0, k as int).contains(s) {
                    let j = choose|j: int| 0 <= j < k && texts(right@).subrange(0, k as int)[j] == s;
                    assert(next[j] == s);
                }
                if s == right@[k as int]@ {
                    assert(next[k as int] == s);
                }
            }
        }
        k = k + 1;
    }
    assert(texts(right@).subrange(0, right@.len() as int) =~= texts(right@));
    proof {
        lemma_is_sorted_union(texts(out@), texts(left@), texts(right@));
    }
    out
}

} // verus!
