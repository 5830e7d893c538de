//! Stable sorting by a total preorder on keys, as `slice::sort_by` does it.

use vstd::prelude::*;

verus! {

/// Values ordered by a key: a total, transitive "not after" relation.
pub trait SortKey: Sized {
    /// `self` may come before `other` (its key is not greater).
    spec fn key_le(self, other: Self) -> bool;

    proof fn lemma_key_total(a: Self, b: Self)
        ensures
            a.key_le(b) || b.key_le(a),
    ;

    proof fn lemma_key_transitive(a: Self, b: Self, c: Self)
        requires
            a.key_le(b),
            b.key_le(c),
        ensures
            a.key_le(c),
    ;

    /// Executable comparison of keys.
    fn precedes(&self, other: &Self) -> (r: bool)
        ensures
            r == self.key_le(*other),
    ;
}

/// Inserts `x` into `s` in front of the first element whose key is not
/// smaller than that of `x`.
pub open spec fn insert_sorted<T: SortKey>(x: T, s: Seq<T>) -> Seq<T>
    decreases s.len(),
{
    if s.len() == 0 {
        seq![x]
    } else if x.key_le(s[0]) {
        seq![x] + s
    } else {
        seq![s[0]] + insert_sorted(x, s.drop_first())
    }
}

/// The stable sort of `s`: ordered by key, and elements with equal keys
/// in their order in `s`.
pub open spec fn stable_sorted<T: SortKey>(s: Seq<T>) -> Seq<T>
    decreases s.len(),
{
    if s.len() == 0 {
        s
    } else {
        insert_sorted(s[0], stable_sorted(s.drop_first()))
    }
}

/// Every element's key is not greater than the keys of those after it.
pub open spec fn sorted_by_key<T: SortKey>(s: Seq<T>) -> bool {
    forall|i: int, j: int| 0 <= i < j < s.len() ==> #[trigger] s[i].key_le(#[trigger] s[j])
}

/// Two values have the same key.
pub open spec fn same_key<T: SortKey>(a: T, b: T) -> bool {
    a.key_le(b) && b.key_le(a)
}

/// The elements of `s` whose key equals that of `k`, in their order in `s`.
pub open spec fn with_key_of<T: SortKey>(s: Seq<T>, k: T) -> Seq<T>
    decreases s.len(),
{
    if s.len() == 0 {
        s
    } else if same_key(s[0], k) {
        seq![s[0]] + with_key_of(s.drop_first(), k)
    } else {
        with_key_of(s.drop_first(), k)
    }
}

proof fn lemma_insert_sorted_props<T: SortKey>(x: T, s: Seq<T>)
    requires
        sorted_by_key(s),
    ensures
        sorted_by_key(insert_sorted(x, s)),
        insert_sorted(x, s).to_multiset() == s.to_multiset().insert(x),
        insert_sorted(x, s).len() == s.len() + 1,
    decreases s.len(),
{
    broadcast use vstd::multiset::group_multiset_axioms;
    broadcast use vstd::seq_lib::group_to_multiset_ensures;

    let r = insert_sorted(x, s);
    if s.len() == 0 {
        assert(r =~= seq![x]);
        assert(seq![x] =~= Seq::<T>::empty().push(x));
    } else if x.key_le(s[0]) {
        assert forall|i: int, j: int| 0 <= i < j < r.len() implies #[trigger] r[i].key_le(
            #[trigger] r[j],
        ) by {
            if i == 0 {
                if j > 1 {
                    assert(s[0].key_le(s[j - 1]));
                    T::lemma_key_transitive(x, s[0], s[j - 1]);
                }
            } else {
                assert(s[i - 1].key_le(s[j - 1]));
            }
        }
        vstd::seq_lib::lemma_multiset_commutative(seq![x], s);
        assert(seq![x] =~= Seq::<T>::empty().push(x));
    } else {
        let t = s.drop_first();
        assert forall|i: int, j: int| 0 <= i < j < t.len() implies #[trigger] t[i].key_le(
            #[trigger] t[j],
        ) by {
            assert(s[i + 1].key_le(s[j + 1]));
        }
        lemma_insert_sorted_props(x, t);
        let u = insert_sorted(x, t);
        T::lemma_key_total(x, s[0]);
        assert(r == seq![s[0]] + u);
        assert forall|i: int, j: int| 0 <= i < j < r.len() implies #[trigger] r[i].key_le(
            #[trigger] r[j],
        ) by {
            if i == 0 {
                // every element of u is x or an element of t
                assert(u.to_multiset().count(u[j - 1]) > 0);
                assert(t.to_multiset().insert(x).count(u[j - 1]) > 0);
                if u[j - 1] != x {
                    assert(t.to_multiset().count(u[j - 1]) > 0);
                    assert(t.contains(u[j - 1]));
                    let k = choose|k: int| 0 <= k < t.len() && t[k] == u[j - 1];
                    assert(s[0].key_le(s[k + 1]));
                }
            } else {
                assert(u[i - 1].key_le(u[j - 1]));
            }
        }
        vstd::seq_lib::lemma_multiset_commutative(seq![s[0]], u);
        vstd::seq_lib::lemma_multiset_commutative(seq![s[0]], t);
        assert(s =~= seq![s[0]] + t);
    }
}

/// The stable sort is ordered by key and holds the same elements.
pub proof fn lemma_stable_sorted_props<T: SortKey>(s: Seq<T>)
    ensures
        sorted_by_key(stable_sorted(s)),
        stable_sorted(s).to_multiset() == s.to_multiset(),
        stable_sorted(s).len() == s.len(),
    decreases s.len(),
{
    broadcast use vstd::multiset::group_multiset_axioms;
    broadcast use vstd::seq_lib::group_to_multiset_ensures;

    if s.len() > 0 {
        lemma_stable_sorted_props(s.drop_first());
        lemma_insert_sorted_props(s[0], stable_sorted(s.drop_first()));
        vstd::seq_lib::lemma_multiset_commutative(seq![s[0]], s.drop_first());
        assert(s =~= seq![s[0]] + s.drop_first());
        assert(seq![s[0]] =~= Seq::<T>::empty().push(s[0]));
    }
}

proof fn lemma_insert_sorted_keeps_key_order<T: SortKey>(x: T, s: Seq<T>, k: T)
    ensures
        with_key_of(insert_sorted(x, s), k) == (if same_key(x, k) {
            seq![x] + with_key_of(s, k)
        } else {
            with_key_of(s, k)
        }),
    decreases s.len(),
{
    if s.len() == 0 {
        assert(insert_sorted(x, s).drop_first() =~= s);
    } else if x.key_le(s[0]) {
        assert((seq![x] + s).drop_first() =~= s);
    } else {
        let t = s.drop_first();
        lemma_insert_sorted_keeps_key_order(x, t, k);
        let r = seq![s[0]] + insert_sorted(x, t);
        assert(r.drop_first() =~= insert_sorted(x, t));
        if same_key(x, k) && same_key(s[0], k) {
            // s[0] would have the key of x, but x is strictly after s[0]
            T::lemma_key_transitive(x, k, s[0]);
            assert(false);
        }
        if same_key(x, k) {
            assert(seq![x] + with_key_of(s, k) == seq![x] + with_key_of(t, k));
        } else if same_key(s[0], k) {
            assert(with_key_of(r, k) =~= seq![s[0]] + with_key_of(insert_sorted(x, t), k));
        }
    }
}

/// Stability: among elements with equal keys the sort keeps their input
/// order.
pub proof fn lemma_stable_sorted_keeps_equal_keys<T: SortKey>(s: Seq<T>, k: T)
    ensures
        with_key_of(stable_sorted(s), k) == with_key_of(s, k),
    decreases s.len(),
{
    if s.len() > 0 {
        lemma_stable_sorted_keeps_equal_keys(s.drop_first(), k);
        lemma_insert_sorted_keeps_key_order(s[0], stable_sorted(s.drop_first()), k);
    }
}

/// Sorting data that is already in order changes nothing.
pub proof fn lemma_sorted_unchanged<T: SortKey>(s: Seq<T>)
    requires
        sorted_by_key(s),
    ensures
        stable_sorted(s) == s,
    decreases s.len(),
{
    if s.len() > 0 {
        let t = s.drop_first();
        assert forall|i: int, j: int| 0 <= i < j < t.len() implies #[trigger] t[i].key_le(
            #[trigger] t[j],
        ) by {
            assert(s[i + 1].key_le(s[j + 1]));
        }
        lemma_sorted_unchanged(t);
        if t.len() > 0 {
            assert(s[0].key_le(s[1]));
        }
        assert(insert_sorted(s[0], t) =~= s);
    }
}

/// Sorting twice gives what sorting once gives.
pub proof fn lemma_sort_idempotent<T: SortKey>(s: Seq<T>)
    ensures
        stable_sorted(stable_sorted(s)) == stable_sorted(s),
{
    lemma_stable_sorted_props(s);
    lemma_sorted_unchanged(stable_sorted(s));
}

proof fn lemma_insert_at_first_not_smaller<T: SortKey>(x: T, s: Seq<T>, p: int)
    requires
        0 <= p <= s.len(),
        forall|j: int| 0 <= j < p ==> !x.key_le(#[trigger] s[j]),
        p < s.len() ==> x.key_le(s[p]),
    ensures
        insert_sorted(x, s) == s.insert(p, x),
    decreases s.len(),
{
    if s.len() == 0 {
        assert(s.insert(p, x) =~= seq![x]);
    } else if p == 0 {
        assert(s.insert(0, x) =~= seq![x] + s);
    } else {
        let t = s.drop_first();
        assert forall|j: int| 0 <= j < p - 1 implies !x.key_le(#[trigger] t[j]) by {
            assert(t[j] == s[j + 1]);
        }
        lemma_insert_at_first_not_smaller(x, t, p - 1);
        assert(s.insert(p, x) =~= seq![s[0]] + t.insert(p - 1, x));
    }
}

/// Sorts `v` stably by key, as `sort_by` with a key comparison does.
pub fn stable_sort<T: SortKey>(v: &mut Vec<T>)
    ensures
        final(v)@ == stable_sorted(old(v)@),
        sorted_by_key(final(v)@),
        final(v)@.to_multiset() == old(v)@.to_multiset(),
{
    let ghost orig = v@;
    let mut out: Vec<T> = Vec::new();
    while v.len() > 0
        invariant
            v@.len() <= orig.len(),
            v@ == orig.subrange(0, v@.len() as int),
            out@ == stable_sorted(orig.subrange(v@.len() as int, orig.len() as int)),
        decreases v@.len(),
    {
        let ghost before = v@.len() as int;
        let popped = v.pop();
        match popped {
            Some(x) => {
                let ghost rest = orig.subrange(before, orig.len() as int);
                let ghost whole = orig.subrange(before - 1, orig.len() as int);
                assert(whole[0] == x);
                assert(whole.drop_first() =~= rest);
                let mut p: usize = 0;
                while p < out.len() && !x.precedes(&out[p])
                    invariant
                        p <= out@.len(),
                        forall|j: int| 0 <= j < p ==> !x.key_le(#[trigger] out@[j]),
                    decreases out@.len() - p,
                {
                    p = p + 1;
                }
                proof {
                    lemma_insert_at_first_not_smaller(x, out@, p as int);
                }
                out.insert(p, x);
                assert(v@ =~= orig.subrange(0, v@.len() as int));
            },
            None => {},
        }
    }
    assert(orig.subrange(0, orig.len() as int) =~= orig);
    *v = out;
    proof {
        lemma_stable_sorted_props(orig);
    }
}

} // verus!
