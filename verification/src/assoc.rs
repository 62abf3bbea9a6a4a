//! Association lists keyed by text: the mathematical model shared by the guest-side and the
//! native-side header collections.

use vstd::prelude::*;

verus! {

/// An ordered list of `(name, value)` pairs.
pub type Pairs<V> = Seq<(Seq<char>, V)>;

/// Index of the first pair named `k`, if there is one.
pub open spec fn position<V>(s: Pairs<V>, k: Seq<char>) -> Option<int>
    decreases s.len(),
{
    if s.len() == 0 {
        None
    } else {
        match position(s.drop_last(), k) {
            Some(i) => Some(i),
            None => if s.last().0 == k {
                Some(s.len() - 1)
            } else {
                None
            },
        }
    }
}

/// The value stored under `k`, if any.
pub open spec fn lookup<V>(s: Pairs<V>, k: Seq<char>) -> Option<V> {
    match position(s, k) {
        Some(i) => Some(s[i].1),
        None => None,
    }
}

/// `s` after writing `v` under `k`: an existing pair of that name is overwritten in place,
/// otherwise the pair is appended.
pub open spec fn put<V>(s: Pairs<V>, k: Seq<char>, v: V) -> Pairs<V> {
    match position(s, k) {
        Some(i) => s.update(i, (k, v)),
        None => s.push((k, v)),
    }
}

/// No two pairs share a name.
pub open spec fn distinct<V>(s: Pairs<V>) -> bool {
    forall|i: int, j: int| 0 <= i < j < s.len() ==> (#[trigger] s[i]).0 != (#[trigger] s[j]).0
}

/// What [`position`] returns is the least index holding the name, and `None` means that no
/// pair holds it.
pub proof fn lemma_position<V>(s: Pairs<V>, k: Seq<char>)
    ensures
        match position(s, k) {
            Some(i) => 0 <= i < s.len() && s[i].0 == k && forall|j: int|
                0 <= j < i ==> (#[trigger] s[j]).0 != k,
            None => forall|j: int| 0 <= j < s.len() ==> (#[trigger] s[j]).0 != k,
        },
    decreases s.len(),
{
    if s.len() > 0 {
        lemma_position(s.drop_last(), k);
        assert(forall|j: int| 0 <= j < s.len() - 1 ==> s.drop_last()[j] == s[j]);
    }
}

/// An index that holds the name, with no earlier one, is the position.
pub proof fn lemma_position_is<V>(s: Pairs<V>, k: Seq<char>, i: int)
    requires
        0 <= i < s.len(),
        s[i].0 == k,
        forall|j: int| 0 <= j < i ==> (#[trigger] s[j]).0 != k,
    ensures
        position(s, k) == Some(i),
{
    lemma_position(s, k);
}

/// A name that no pair holds has no position.
pub proof fn lemma_position_none<V>(s: Pairs<V>, k: Seq<char>)
    requires
        forall|j: int| 0 <= j < s.len() ==> (#[trigger] s[j]).0 != k,
    ensures
        position(s, k) is None,
{
    lemma_position(s, k);
}

/// Writing keeps names distinct, stores the value, and leaves every other name as it was.
pub proof fn lemma_put<V>(s: Pairs<V>, k: Seq<char>, v: V)
    ensures
        distinct(s) ==> distinct(put(s, k, v)),
        lookup(put(s, k, v), k) == Some(v),
        forall|other: Seq<char>| other != k ==> lookup(put(s, k, v), other) == lookup(s, other),
{
    let t = put(s, k, v);
    lemma_position(s, k);
    match position(s, k) {
        Some(i) => {
            lemma_position_is(t, k, i);
        },
        None => {
            lemma_position_is(t, k, s.len() as int);
        },
    }
    assert forall|other: Seq<char>| other != k implies lookup(t, other) == lookup(s, other) by {
        lemma_position(s, other);
        match position(s, other) {
            Some(j) => {
                lemma_position_is(t, other, j);
            },
            None => {
                lemma_position_none(t, other);
            },
        }
    }
}

/// `s` without the pairs named `k`, the others in their order.
pub open spec fn without<V>(s: Pairs<V>, k: Seq<char>) -> Pairs<V>
    decreases s.len(),
{
    if s.len() == 0 {
        Seq::empty()
    } else if s.last().0 == k {
        without(s.drop_last(), k)
    } else {
        without(s.drop_last(), k).push(s.last())
    }
}

/// `s` after replacing every pair named `k` by the one pair `(k, v)`: it stands where the
/// first of them stood, or at the end where there was none.
pub open spec fn replace<V>(s: Pairs<V>, k: Seq<char>, v: V) -> Pairs<V> {
    match position(s, k) {
        Some(i) => s.take(i).push((k, v)) + without(s.skip(i + 1), k),
        None => s.push((k, v)),
    }
}

/// Nothing named `k` is left in `without(s, k)`.
pub proof fn lemma_without_has_none<V>(s: Pairs<V>, k: Seq<char>)
    ensures
        forall|j: int| 0 <= j < without(s, k).len() ==> (#[trigger] without(s, k)[j]).0 != k,
    decreases s.len(),
{
    if s.len() > 0 {
        let head = without(s.drop_last(), k);
        lemma_without_has_none(s.drop_last(), k);
        assert forall|j: int| 0 <= j < without(s, k).len() implies (#[trigger] without(s, k)[j]).0
            != k by {
            if j < head.len() {
                assert(without(s, k)[j] == head[j]);
            }
        }
    }
}

/// Where nothing is named `k`, nothing is taken out.
pub proof fn lemma_without_same<V>(s: Pairs<V>, k: Seq<char>)
    requires
        forall|j: int| 0 <= j < s.len() ==> (#[trigger] s[j]).0 != k,
    ensures
        without(s, k) == s,
    decreases s.len(),
{
    if s.len() > 0 {
        let head = s.drop_last();
        assert forall|j: int| 0 <= j < head.len() implies (#[trigger] head[j]).0 != k by {
            assert(head[j] == s[j]);
        }
        lemma_without_same(head, k);
        assert(s[s.len() - 1] == s.last());
        assert(head.push(s.last()) =~= s);
    } else {
        assert(s =~= Seq::empty());
    }
}

/// After replacing, exactly one pair is named `k`, and it holds the value; in a list with
/// distinct names, replacing is the same as writing.
pub proof fn lemma_replace<V>(s: Pairs<V>, k: Seq<char>, v: V)
    ensures
        lookup(replace(s, k, v), k) == Some(v),
        forall|j: int|
            0 <= j < replace(s, k, v).len() && (#[trigger] replace(s, k, v)[j]).0 == k ==> position(
                replace(s, k, v),
                k,
            ) == Some(j),
        distinct(s) ==> replace(s, k, v) == put(s, k, v),
{
    let r = replace(s, k, v);
    lemma_position(s, k);
    match position(s, k) {
        Some(i) => {
            let tail = s.skip(i + 1);
            let rest = without(tail, k);
            lemma_without_has_none(tail, k);
            assert(r[i] == (k, v));
            assert forall|j: int| 0 <= j < r.len() && j != i implies (#[trigger] r[j]).0 != k by {
                if j < i {
                    assert(r[j] == s[j]);
                } else {
                    assert(r[j] == rest[j - i - 1]);
                }
            }
            lemma_position_is(r, k, i);
            if distinct(s) {
                assert forall|j: int| 0 <= j < tail.len() implies (#[trigger] tail[j]).0 != k by {
                    assert(tail[j] == s[i + 1 + j]);
                    assert(s[i].0 != s[i + 1 + j].0);
                }
                lemma_without_same(tail, k);
                assert(r =~= s.update(i, (k, v)));
            }
        },
        None => {
            lemma_position_is(r, k, s.len() as int);
            assert forall|j: int| 0 <= j < r.len() && j != s.len() implies (#[trigger] r[j]).0
                != k by {
                assert(r[j] == s[j]);
            }
        },
    }
}

} // verus!
