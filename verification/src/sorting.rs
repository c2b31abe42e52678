//! Stable sorting by an unsigned key, in either direction.
//!
//! The sorted sequence is defined by insertion: each element in turn is
//! placed behind every element already present that may stay in front of it.
//! Elements with equal keys therefore keep the order in which they came.

use vstd::prelude::*;

verus! {

/// A value that is ordered by an unsigned key.
pub trait Keyed {
    /// The key by which the value is ordered.
    spec fn key(&self) -> u64;

    /// Reads the key.
    fn key_value(&self) -> (k: u64)
        ensures
            k == self.key(),
    ;
}

/// Whether an element with key `a` may stay in front of a later element with key `x`.
pub open spec fn stays_before(a: u64, x: u64, descending: bool) -> bool {
    if descending {
        a >= x
    } else {
        a <= x
    }
}

/// `s` with `x` placed behind the last element that may stay in front of it.
pub open spec fn insert_by_key<T>(s: Seq<T>, x: T, key: spec_fn(T) -> u64, descending: bool) -> Seq<T>
    decreases s.len(),
{
    if s.len() == 0 {
        seq![x]
    } else if stays_before(key(s.last()), key(x), descending) {
        s.push(x)
    } else {
        insert_by_key(s.drop_last(), x, key, descending).push(s.last())
    }
}

/// The elements of `s` in key order; equal keys keep the order in which they came.
pub open spec fn stable_sort<T>(s: Seq<T>, key: spec_fn(T) -> u64, descending: bool) -> Seq<T>
    decreases s.len(),
{
    if s.len() == 0 {
        s
    } else {
        insert_by_key(stable_sort(s.drop_last(), key, descending), s.last(), key, descending)
    }
}

/// Every element may stay in front of every later one.
pub open spec fn in_key_order<T>(s: Seq<T>, key: spec_fn(T) -> u64, descending: bool) -> bool {
    forall|i: int, j: int|
        0 <= i < j < s.len() ==> stays_before(key(#[trigger] s[i]), key(#[trigger] s[j]), descending)
}

/// Inserting at the index found by scanning back from the end gives `insert_by_key`.
pub proof fn lemma_insert_position<T>(s: Seq<T>, x: T, key: spec_fn(T) -> u64, descending: bool, j: int)
    requires
        0 <= j <= s.len(),
        j > 0 ==> stays_before(key(s[j - 1]), key(x), descending),
        forall|m: int| j <= m < s.len() ==> !stays_before(key(#[trigger] s[m]), key(x), descending),
    ensures
        insert_by_key(s, x, key, descending) == s.take(j).push(x) + s.skip(j),
    decreases s.len() - j,
{
    if j == s.len() {
        assert(s.take(j) =~= s);
        assert(s.take(j).push(x) + s.skip(j) =~= s.push(x));
        if s.len() > 0 {
            assert(s.last() == s[j - 1]);
        }
    } else {
        let t = s.drop_last();
        assert(!stays_before(key(s[s.len() - 1]), key(x), descending));
        assert forall|m: int| j <= m < t.len() implies !stays_before(
            key(#[trigger] t[m]),
            key(x),
            descending,
        ) by {
            assert(t[m] == s[m]);
        }
        if j > 0 {
            assert(t[j - 1] == s[j - 1]);
        }
        lemma_insert_position(t, x, key, descending, j);
        assert(t.take(j) =~= s.take(j));
        assert((t.take(j).push(x) + t.skip(j)).push(s.last()) =~= s.take(j).push(x) + s.skip(j));
    }
}

/// Insertion keeps the length plus one and the elements.
pub proof fn lemma_insert_contents<T>(s: Seq<T>, x: T, key: spec_fn(T) -> u64, descending: bool)
    ensures
        insert_by_key(s, x, key, descending).len() == s.len() + 1,
        insert_by_key(s, x, key, descending).to_multiset() == s.to_multiset().insert(x),
    decreases s.len(),
{
    broadcast use vstd::seq_lib::group_to_multiset_ensures;

    if s.len() == 0 {
        assert(seq![x] =~= s.push(x));
    } else if stays_before(key(s.last()), key(x), descending) {
    } else {
        lemma_insert_contents(s.drop_last(), x, key, descending);
        assert(s.drop_last().push(s.last()) =~= s);
        assert(s.drop_last().to_multiset().insert(s.last()) =~= s.to_multiset());
        assert(s.drop_last().to_multiset().insert(x).insert(s.last()) =~= s.to_multiset().insert(
            x,
        ));
    }
}

/// Insertion into a sequence in key order leaves it in key order.
pub proof fn lemma_insert_ordered<T>(s: Seq<T>, x: T, key: spec_fn(T) -> u64, descending: bool)
    requires
        in_key_order(s, key, descending),
    ensures
        in_key_order(insert_by_key(s, x, key, descending), key, descending),
        forall|i: int|
            0 <= i < insert_by_key(s, x, key, descending).len() ==> (#[trigger] insert_by_key(s,
                x, key, descending)[i] == x || s.contains(insert_by_key(s, x, key, descending)[i])),
    decreases s.len(),
{
    let r = insert_by_key(s, x, key, descending);
    if s.len() == 0 {
    } else if stays_before(key(s.last()), key(x), descending) {
        assert forall|i: int, j: int| 0 <= i < j < r.len() implies stays_before(
            key(#[trigger] r[i]),
            key(#[trigger] r[j]),
            descending,
        ) by {
            if j == s.len() {
                if i < s.len() - 1 {
                    assert(stays_before(key(s[i]), key(s[s.len() - 1]), descending));
                }
            }
        }
        assert forall|i: int| 0 <= i < r.len() implies (#[trigger] r[i] == x || s.contains(r[i])) by {
            if i < s.len() {
                assert(s[i] == r[i]);
            }
        }
    } else {
        let t = s.drop_last();
        assert forall|i: int, j: int| 0 <= i < j < t.len() implies stays_before(
            key(#[trigger] t[i]),
            key(#[trigger] t[j]),
            descending,
        ) by {
            assert(t[i] == s[i] && t[j] == s[j]);
        }
        lemma_insert_ordered(t, x, key, descending);
        lemma_insert_contents(t, x, key, descending);
        let u = insert_by_key(t, x, key, descending);
        assert forall|i: int, j: int| 0 <= i < j < r.len() implies stays_before(
            key(#[trigger] r[i]),
            key(#[trigger] r[j]),
            descending,
        ) by {
            if j == r.len() - 1 {
                assert(r[i] == u[i]);
                if u[i] == x {
                } else {
                    assert(t.contains(u[i]));
                    let k = choose|k: int| 0 <= k < t.len() && t[k] == u[i];
                    assert(s[k] == t[k]);
                    assert(stays_before(key(s[k]), key(s[s.len() - 1]), descending));
                }
            } else {
                assert(r[i] == u[i] && r[j] == u[j]);
            }
        }
        assert forall|i: int| 0 <= i < r.len() implies (#[trigger] r[i] == x || s.contains(r[i])) by {
            if i < u.len() {
                assert(r[i] == u[i]);
                if u[i] != x {
                    let k = choose|k: int| 0 <= k < t.len() && t[k] == u[i];
                    assert(s[k] == t[k]);
                }
            } else {
                assert(r[i] == s[s.len() - 1]);
            }
        }
    }
}

/// The sorted sequence is in key order, and holds the elements of `s`,
/// each as often as `s` does.
pub proof fn lemma_stable_sort<T>(s: Seq<T>, key: spec_fn(T) -> u64, descending: bool)
    ensures
        in_key_order(stable_sort(s, key, descending), key, descending),
        stable_sort(s, key, descending).len() == s.len(),
        stable_sort(s, key, descending).to_multiset() == s.to_multiset(),
    decreases s.len(),
{
    broadcast use vstd::seq_lib::group_to_multiset_ensures;

    if s.len() == 0 {
    } else {
        let t = s.drop_last();
        lemma_stable_sort(t, key, descending);
        lemma_insert_ordered(stable_sort(t, key, descending), s.last(), key, descending);
        lemma_insert_contents(stable_sort(t, key, descending), s.last(), key, descending);
        assert(t.push(s.last()) =~= s);
    }
}

/// Every element of the sorted sequence is an element of `s`, and the other way round.
pub proof fn lemma_sort_members<T>(s: Seq<T>, key: spec_fn(T) -> u64, descending: bool)
    ensures
        forall|i: int|
            0 <= i < stable_sort(s, key, descending).len() ==> s.contains(
                #[trigger] stable_sort(s, key, descending)[i],
            ),
        forall|j: int| 0 <= j < s.len() ==> stable_sort(s, key, descending).contains(#[trigger] s[j]),
{
    broadcast use vstd::seq_lib::group_to_multiset_ensures;

    lemma_stable_sort(s, key, descending);
    let sorted = stable_sort(s, key, descending);
    assert forall|i: int| 0 <= i < sorted.len() implies s.contains(#[trigger] sorted[i]) by {
        assert(sorted.to_multiset().count(sorted[i]) > 0);
    }
    assert forall|j: int| 0 <= j < s.len() implies sorted.contains(#[trigger] s[j]) by {
        assert(s.to_multiset().count(s[j]) > 0);
    }
}

/// Sorting the images under `f` gives the images of the sorted elements,
/// where `f` keeps the keys.
pub proof fn lemma_insert_commutes<A, B>(
    s: Seq<A>,
    x: A,
    f: spec_fn(A) -> B,
    ka: spec_fn(A) -> u64,
    kb: spec_fn(B) -> u64,
    descending: bool,
)
    requires
        forall|a: A| #[trigger] ka(a) == kb(f(a)),
    ensures
        insert_by_key(s, x, ka, descending).map_values(f) == insert_by_key(
            s.map_values(f),
            f(x),
            kb,
            descending,
        ),
    decreases s.len(),
{
    let m = s.map_values(f);
    if s.len() == 0 {
        assert(seq![x].map_values(f) =~= seq![f(x)]);
    } else {
        assert(m.last() == f(s.last()));
        assert(ka(s.last()) == kb(f(s.last())));
        assert(ka(x) == kb(f(x)));
        if stays_before(ka(s.last()), ka(x), descending) {
            assert(s.push(x).map_values(f) =~= m.push(f(x)));
        } else {
            lemma_insert_commutes(s.drop_last(), x, f, ka, kb, descending);
            assert(m.drop_last() =~= s.drop_last().map_values(f));
            let r = insert_by_key(s.drop_last(), x, ka, descending);
            assert(r.push(s.last()).map_values(f) =~= r.map_values(f).push(f(s.last())));
        }
    }
}

/// Sorting commutes with a map that keeps the keys.
pub proof fn lemma_sort_commutes<A, B>(
    s: Seq<A>,
    f: spec_fn(A) -> B,
    ka: spec_fn(A) -> u64,
    kb: spec_fn(B) -> u64,
    descending: bool,
)
    requires
        forall|a: A| #[trigger] ka(a) == kb(f(a)),
    ensures
        stable_sort(s, ka, descending).map_values(f) == stable_sort(s.map_values(f), kb, descending),
    decreases s.len(),
{
    let m = s.map_values(f);
    if s.len() == 0 {
        assert(s.map_values(f) =~= m);
        assert(stable_sort(s, ka, descending).map_values(f) =~= stable_sort(m, kb, descending));
    } else {
        lemma_sort_commutes(s.drop_last(), f, ka, kb, descending);
        assert(m.drop_last() =~= s.drop_last().map_values(f));
        assert(m.last() == f(s.last()));
        lemma_insert_commutes(
            stable_sort(s.drop_last(), ka, descending),
            s.last(),
            f,
            ka,
            kb,
            descending,
        );
    }
}

/// The key function of a keyed type.
pub open spec fn key_of<T: Keyed>() -> spec_fn(T) -> u64 {
    |t: T| t.key()
}

/// Whether an element with key `a` may stay in front of a later one with key `x`.
pub fn may_stay_before(a: u64, x: u64, descending: bool) -> (r: bool)
    ensures
        r == stays_before(a, x, descending),
{
    if descending {
        a >= x
    } else {
        a <= x
    }
}

/// Sorts `v` by key, stably.
pub fn sort_by_key<T: Keyed>(v: &mut Vec<T>, descending: bool)
    ensures
        final(v)@ == stable_sort(old(v)@, key_of::<T>(), descending),
{
    let ghost orig = v@;
    let n = v.len();
    let mut i: usize = 0;
    while i < n
        invariant
            n == orig.len(),
            v@.len() == n,
            i <= n,
            v@.take(i as int) == stable_sort(orig.take(i as int), key_of::<T>(), descending),
            v@.skip(i as int) == orig.skip(i as int),
        decreases n - i,
    {
        let ghost before = v@;
        assert(before[i as int] == before.skip(i as int)[0]);
        let x = v.remove(i);
        let k = x.key_value();
        let mut j: usize = i;
        loop
            invariant
                j <= i,
                i < n,
                v@ == before.remove(i as int),
                before.len() == n,
                k == x.key(),
                forall|m: int| j <= m < i ==> !stays_before(#[trigger] v@[m].key(), k, descending),
            ensures
                j > 0 ==> stays_before(v@[j - 1].key(), k, descending),
            decreases j,
        {
            if j == 0 {
                break ;
            }
            let a = v[j - 1].key_value();
            if may_stay_before(a, k, descending) {
                break ;
            }
            j -= 1;
        }
        v.insert(j, x);
        proof {
            let key = key_of::<T>();
            let s = before.take(i as int);
            assert(before.remove(i as int).take(i as int) =~= s);
            assert forall|m: int| j <= m < s.len() implies !stays_before(
                key(#[trigger] s[m]),
                key(x),
                descending,
            ) by {
                assert(s[m] == before.remove(i as int)[m]);
            }
            if j > 0 {
                assert(s[j - 1] == before.remove(i as int)[j - 1]);
            }
            lemma_insert_position(s, x, key, descending, j as int);
            assert(v@.take(i + 1) =~= s.take(j as int).push(x) + s.skip(j as int));
            assert(orig.take(i + 1).drop_last() =~= orig.take(i as int));
            assert(orig.take(i + 1).last() == orig[i as int]);
            assert(x == orig.skip(i as int)[0]);
            assert(v@.skip(i + 1) =~= orig.skip(i + 1)) by {
                let a = v@.skip(i + 1);
                let b = orig.skip(i + 1);
                assert forall|m: int| 0 <= m < n - i - 1 implies #[trigger] a[m] == b[m] by {
                    assert(v@[i + 1 + m] == before.remove(i as int)[i + m]);
                    assert(before[i + 1 + m] == before.skip(i as int)[m + 1]);
                }
            }
        }
        i += 1;
    }
    proof {
        assert(v@.take(n as int) =~= v@);
        assert(orig.take(n as int) =~= orig);
    }
}

} // verus!
