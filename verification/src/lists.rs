//! Searching and ordering of lists.

use vstd::prelude::*;

verus! {

/// The index of the first element that satisfies `p`, or the length of the list.
pub open spec fn first_index<T>(s: Seq<T>, p: spec_fn(T) -> bool) -> int
    decreases s.len(),
{
    if s.len() == 0 {
        0
    } else if p(s[0]) {
        0
    } else {
        1 + first_index(s.drop_first(), p)
    }
}

/// An index whose element satisfies `p`, with none before it that does, is the first one.
pub proof fn lemma_first_index<T>(s: Seq<T>, p: spec_fn(T) -> bool, k: int)
    requires
        0 <= k <= s.len(),
        forall|i: int| 0 <= i < k ==> !p(#[trigger] s[i]),
        k < s.len() ==> p(s[k]),
    ensures
        first_index(s, p) == k,
    decreases k,
{
    if k > 0 {
        assert(!p(s[0]));
        let t = s.drop_first();
        assert forall|i: int| 0 <= i < k - 1 implies !p(#[trigger] t[i]) by {
            assert(t[i] == s[i + 1]);
        }
        assert(k < s.len() ==> t[k - 1] == s[k]);
        lemma_first_index(t, p, k - 1);
    }
}

/// Where `first_index` points, and what stands before it.
pub proof fn lemma_first_index_found<T>(s: Seq<T>, p: spec_fn(T) -> bool)
    ensures
        0 <= first_index(s, p) <= s.len(),
        first_index(s, p) < s.len() ==> p(s[first_index(s, p)]),
        forall|i: int| 0 <= i < first_index(s, p) ==> !p(#[trigger] s[i]),
    decreases s.len(),
{
    if s.len() > 0 && !p(s[0]) {
        lemma_first_index_found(s.drop_first(), p);
        assert forall|i: int| 0 <= i < first_index(s, p) implies !p(#[trigger] s[i]) by {
            if i > 0 {
                assert(s.drop_first()[i - 1] == s[i]);
            }
        }
    }
}

/// Values with an order that a list can be sorted by.
pub trait Ranked: Sized {
    /// `self` may stand before `other`.
    spec fn ranks_before(self, other: Self) -> bool;

    /// Whether `self` may stand before `other`.
    fn not_after(&self, other: &Self) -> (r: bool)
        ensures
            r == self.ranks_before(*other),
    ;

    /// Of two values, one may stand before the other.
    proof fn total(a: Self, b: Self)
        ensures
            a.ranks_before(b) || b.ranks_before(a),
    ;

    /// The order is transitive.
    proof fn transitive(a: Self, b: Self, c: Self)
        requires
            a.ranks_before(b),
            b.ranks_before(c),
        ensures
            a.ranks_before(c),
    ;
}

/// `s` with `x` added behind everything that may stand before it, counted from the end.
pub open spec fn inserted<T: Ranked>(s: Seq<T>, x: T) -> Seq<T>
    decreases s.len(),
{
    if s.len() == 0 || s.last().ranks_before(x) {
        s.push(x)
    } else {
        inserted(s.drop_last(), x).push(s.last())
    }
}

/// The elements of `s` in order; equal ones keep the order that they have in `s`.
pub open spec fn ordered<T: Ranked>(s: Seq<T>) -> Seq<T>
    decreases s.len(),
{
    if s.len() == 0 {
        s
    } else {
        inserted(ordered(s.drop_last()), s.last())
    }
}

/// No element of `s` stands behind one that it has to come before.
pub open spec fn is_ordered<T: Ranked>(s: Seq<T>) -> bool {
    forall|i: int, j: int| 0 <= i < j < s.len() ==> (#[trigger] s[i]).ranks_before(#[trigger] s[j])
}

proof fn lemma_inserted<T: Ranked>(s: Seq<T>, x: T)
    requires
        is_ordered(s),
    ensures
        is_ordered(inserted(s, x)),
        inserted(s, x).to_multiset() == s.to_multiset().insert(x),
        inserted(s, x).len() == s.len() + 1,
        forall|y: T|
            #![trigger inserted(s, x).contains(y)]
            inserted(s, x).contains(y) ==> y == x || s.contains(y),
    decreases s.len(),
{
    broadcast use vstd::seq_lib::group_to_multiset_ensures;

    let r = inserted(s, x);
    if s.len() == 0 || s.last().ranks_before(x) {
        assert forall|i: int, j: int| 0 <= i < j < r.len() implies (#[trigger] r[i]).ranks_before(
            #[trigger] r[j],
        ) by {
            if j == s.len() {
                if i < s.len() - 1 {
                    T::transitive(s[i], s.last(), x);
                }
            }
        }
        assert forall|y: T| #![trigger r.contains(y)] r.contains(y) implies y == x || s.contains(
            y,
        ) by {
            let k = choose|k: int| 0 <= k < r.len() && r[k] == y;
            if k < s.len() {
                assert(s[k] == y);
            }
        }
    } else {
        let t = s.drop_last();
        lemma_inserted(t, x);
        let q = inserted(t, x);
        T::total(s.last(), x);
        assert forall|i: int, j: int| 0 <= i < j < r.len() implies (#[trigger] r[i]).ranks_before(
            #[trigger] r[j],
        ) by {
            if j == q.len() {
                assert(q.contains(q[i]));
                if q[i] != x {
                    let k = choose|k: int| 0 <= k < t.len() && t[k] == q[i];
                    assert(s[k] == q[i]);
                }
            }
        }
        assert(s =~= t.push(s.last()));
        assert(r.to_multiset() =~= s.to_multiset().insert(x));
        assert forall|y: T| #![trigger r.contains(y)] r.contains(y) implies y == x || s.contains(
            y,
        ) by {
            let k = choose|k: int| 0 <= k < r.len() && r[k] == y;
            if k < q.len() {
                assert(q.contains(q[k]));
                if y != x {
                    let m = choose|m: int| 0 <= m < t.len() && t[m] == y;
                    assert(s[m] == y);
                }
            } else {
                assert(s[s.len() - 1] == y);
            }
        }
    }
}

/// Sorting a list orders it and keeps exactly its elements.
pub proof fn law_ordered<T: Ranked>(s: Seq<T>)
    ensures
        is_ordered(ordered(s)),
        ordered(s).to_multiset() == s.to_multiset(),
        ordered(s).len() == s.len(),
    decreases s.len(),
{
    broadcast use vstd::seq_lib::group_to_multiset_ensures;

    if s.len() > 0 {
        let t = s.drop_last();
        law_ordered(t);
        lemma_inserted(ordered(t), s.last());
        assert(s =~= t.push(s.last()));
    }
}

fn insert_ranked<T: Ranked>(v: &mut Vec<T>, x: T)
    requires
        old(v).len() < usize::MAX,
    ensures
        final(v)@ == inserted(old(v)@, x),
{
    let ghost s = v@;
    let mut k: usize = v.len();
    proof {
        assert(s.take(k as int) =~= s);
        assert(inserted(s, x) + s.skip(k as int) =~= inserted(s, x));
    }
    while k > 0 && !v[k - 1].not_after(&x)
        invariant
            k <= v.len(),
            v@ == s,
            inserted(s, x) == inserted(s.take(k as int), x) + s.skip(k as int),
        decreases k,
    {
        proof {
            let t = s.take(k as int);
            assert(t.last() == s[k - 1]);
            assert(t.drop_last() =~= s.take(k - 1));
            assert(inserted(s.take(k - 1), x).push(s[k - 1]) + s.skip(k as int) =~= inserted(
                s.take(k - 1),
                x,
            ) + s.skip(k - 1));
        }
        k = k - 1;
    }
    proof {
        let t = s.take(k as int);
        assert(inserted(t, x) == t.push(x)) by {
            if k > 0 {
                assert(t.last() == s[k - 1]);
            }
        }
        assert(s.insert(k as int, x) =~= t.push(x) + s.skip(k as int));
    }
    v.insert(k, x);
}

/// Sorts a list; equal elements keep their order.
pub fn stable_sort<T: Ranked>(items: Vec<T>) -> (r: Vec<T>)
    ensures
        r@ == ordered(items@),
{
    let ghost s = items@;
    let n: usize = items.len();
    let mut rest = items;
    let mut reversed: Vec<T> = Vec::new();
    while rest.len() > 0
        invariant
            s.len() == n,
            s.len() == rest@.len() + reversed@.len(),
            rest@ == s.take(rest@.len() as int),
            reversed@ == s.skip(rest@.len() as int).reverse(),
        decreases rest.len(),
    {
        let ghost before = rest@;
        match rest.pop() {
            Some(x) => {
                reversed.push(x);
                assert(s.skip(rest@.len() as int).reverse() =~= s.skip(
                    before.len() as int,
                ).reverse().push(x));
            },
            None => {},
        }
    }
    let mut out: Vec<T> = Vec::new();
    assert(s.skip(0) =~= s);
    assert(s.take(0) =~= out@);
    while reversed.len() > 0
        invariant
            s.len() == out@.len() + reversed@.len(),
            s.len() == n,
            reversed@ == s.skip(out@.len() as int).reverse(),
            out@ == ordered(s.take(out@.len() as int)),
            ordered(s.take(out@.len() as int)).len() == out@.len(),
        decreases reversed.len(),
    {
        let ghost m = out@.len() as int;
        let ghost before = reversed@;
        match reversed.pop() {
            Some(x) => {
                proof {
                    assert(before.last() == s[m]);
                    assert(s.take(m + 1).drop_last() =~= s.take(m));
                    assert(s.take(m + 1).last() == s[m]);
                    assert(s.skip(m + 1).reverse() =~= before.drop_last());
                    law_ordered(s.take(m + 1));
                }
                insert_ranked(&mut out, x);
            },
            None => {},
        }
    }
    assert(s.take(out@.len() as int) =~= s);
    out
}

/// Filtering keeps what satisfies the condition, and nothing else.
pub proof fn law_filtered_members<T>(s: Seq<T>, keep: spec_fn(T) -> bool, x: T)
    ensures
        s.filter(keep).contains(x) <==> s.contains(x) && keep(x),
    decreases s.len(),
{
    reveal(Seq::filter);
    if s.len() > 0 {
        let rest = s.drop_last();
        law_filtered_members(rest, keep, x);
        let kept = rest.filter(keep);
        let all = s.filter(keep);
        if all.contains(x) {
            let i = all.index_of(x);
            if i < kept.len() {
                assert(kept[i] == x);
                assert(s[rest.index_of(x)] == x);
            } else {
                assert(s[s.len() - 1] == x);
            }
        }
        if s.contains(x) && keep(x) {
            let i = s.index_of(x);
            if i < rest.len() {
                assert(rest[i] == x);
                assert(all[kept.index_of(x)] == x);
            } else {
                assert(all[kept.len() as int] == x);
            }
        }
    }
}

/// The first index points at the first element that satisfies the condition, and behind the end
/// where there is none.
pub proof fn law_first_index<T>(s: Seq<T>, p: spec_fn(T) -> bool, i: int)
    requires
        0 <= i < s.len(),
    ensures
        0 <= first_index(s, p) <= s.len(),
        p(s[i]) ==> first_index(s, p) <= i && p(s[first_index(s, p)]),
        i < first_index(s, p) ==> !p(s[i]),
{
    lemma_first_index_found(s, p);
}

} // verus!
