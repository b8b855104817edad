//! Sequences whose items are found by a textual key: branches by name, file
//! entries by path. An item put into such a sequence replaces the first item with
//! its key, in place, or goes to the end.

use vstd::prelude::*;

verus! {

/// An item that is found by a key.
pub trait Keyed {
    /// The key of this item.
    spec fn key(self) -> Seq<char>;
}

/// Index of the first item of `s` at or after `from` whose key is `k`; `s.len()`
/// when there is none.
pub open spec fn key_pos_from<T: Keyed>(s: Seq<T>, k: Seq<char>, from: int) -> int
    decreases s.len() - from,
{
    if from < 0 || from >= s.len() {
        s.len() as int
    } else if s[from].key() == k {
        from
    } else {
        key_pos_from(s, k, from + 1)
    }
}

/// Index of the first item of `s` whose key is `k`; `s.len()` when there is none.
pub open spec fn key_pos<T: Keyed>(s: Seq<T>, k: Seq<char>) -> int {
    key_pos_from(s, k, 0)
}

/// Whether some item of `s` has the key `k`.
pub open spec fn has_key<T: Keyed>(s: Seq<T>, k: Seq<char>) -> bool {
    key_pos(s, k) < s.len()
}

/// No two items of `s` have the same key.
pub open spec fn unique_keys<T: Keyed>(s: Seq<T>) -> bool {
    forall|i: int, j: int| 0 <= i < j < s.len() ==> (#[trigger] s[i]).key() != (#[trigger] s[j]).key()
}

/// `x` in place of the first item with its key, or at the end.
pub open spec fn put<T: Keyed>(s: Seq<T>, x: T) -> Seq<T> {
    let at = key_pos(s, x.key());
    if at < s.len() {
        s.update(at, x)
    } else {
        s.push(x)
    }
}

/// Every item of `xs` put into `acc`, first to last.
pub open spec fn put_all<T: Keyed>(acc: Seq<T>, xs: Seq<T>) -> Seq<T>
    decreases xs.len(),
{
    if xs.len() == 0 {
        acc
    } else {
        put_all(put(acc, xs[0]), xs.drop_first())
    }
}

/// `s` with one item per key: each key keeps the place of its first item and the
/// value of its last.
pub open spec fn keyed<T: Keyed>(s: Seq<T>) -> Seq<T> {
    put_all(Seq::<T>::empty(), s)
}

/// `s` with the same keys at the same places as `base`, possibly followed by
/// more.
pub open spec fn extends_keys<T: Keyed>(s: Seq<T>, base: Seq<T>) -> bool {
    &&& s.len() >= base.len()
    &&& forall|i: int| 0 <= i < base.len() ==> (#[trigger] s[i]).key() == base[i].key()
}

/// What `key_pos_from` returns is in range, holds the key, and follows no item
/// with the key.
pub proof fn lemma_key_pos_from<T: Keyed>(s: Seq<T>, k: Seq<char>, from: int)
    requires
        0 <= from <= s.len(),
    ensures
        from <= key_pos_from(s, k, from) <= s.len(),
        key_pos_from(s, k, from) < s.len() ==> s[key_pos_from(s, k, from)].key() == k,
        forall|j: int| from <= j < key_pos_from(s, k, from) ==> (#[trigger] s[j]).key() != k,
    decreases s.len() - from,
{
    if from < s.len() && s[from].key() != k {
        lemma_key_pos_from(s, k, from + 1);
    }
}

/// A place that holds the key and follows no item with the key is what
/// `key_pos_from` returns.
pub proof fn lemma_key_pos_is<T: Keyed>(s: Seq<T>, k: Seq<char>, from: int, at: int)
    requires
        0 <= from <= at <= s.len(),
        at < s.len() ==> s[at].key() == k,
        forall|j: int| from <= j < at ==> (#[trigger] s[j]).key() != k,
    ensures
        key_pos_from(s, k, from) == at,
    decreases at - from,
{
    if from < at {
        lemma_key_pos_is(s, k, from + 1, at);
    }
}

/// Putting an item keeps the keys unique and keeps every key at its place.
pub proof fn lemma_put<T: Keyed>(s: Seq<T>, x: T)
    requires
        unique_keys(s),
    ensures
        unique_keys(put(s, x)),
        extends_keys(put(s, x), s),
        has_key(put(s, x), x.key()),
{
    lemma_key_pos_from(s, x.key(), 0);
    let at = key_pos(s, x.key());
    let t = put(s, x);
    assert forall|i: int, j: int| 0 <= i < j < t.len() implies (#[trigger] t[i]).key() != (
    #[trigger] t[j]).key() by {
        if at < s.len() {
            assert(t[i].key() == s[i].key());
            assert(t[j].key() == s[j].key());
        } else {
            if j < s.len() {
                assert(t[i] == s[i] && t[j] == s[j]);
            } else {
                assert(t[i] == s[i]);
            }
        }
    }
    assert forall|i: int| 0 <= i < s.len() implies (#[trigger] t[i]).key() == s[i].key() by {}
    if at < s.len() {
        lemma_key_pos_is(t, x.key(), 0, at);
    } else {
        lemma_key_pos_is(t, x.key(), 0, s.len() as int);
    }
}

/// Putting a run of items keeps the keys unique and keeps every key at its place.
pub proof fn lemma_put_all<T: Keyed>(acc: Seq<T>, xs: Seq<T>)
    requires
        unique_keys(acc),
    ensures
        unique_keys(put_all(acc, xs)),
        extends_keys(put_all(acc, xs), acc),
    decreases xs.len(),
{
    if xs.len() > 0 {
        lemma_put(acc, xs[0]);
        let next = put(acc, xs[0]);
        lemma_put_all(next, xs.drop_first());
        let out = put_all(next, xs.drop_first());
        assert forall|i: int| 0 <= i < acc.len() implies (#[trigger] out[i]).key()
            == acc[i].key() by {
            assert(out[i].key() == next[i].key());
        }
    }
}

/// The state of `base` after the first `n` items of `goal` were put into it,
/// where `goal` has the keys of `base` at the same places.
pub open spec fn partly_put<T: Keyed>(base: Seq<T>, goal: Seq<T>, n: int) -> Seq<T> {
    if n <= base.len() {
        goal.take(n) + base.skip(n)
    } else {
        goal.take(n)
    }
}

proof fn lemma_put_all_onto_self_from<T: Keyed>(base: Seq<T>, goal: Seq<T>, n: int)
    requires
        unique_keys(goal),
        extends_keys(goal, base),
        0 <= n <= goal.len(),
    ensures
        put_all(partly_put(base, goal, n), goal.skip(n)) == goal,
    decreases goal.len() - n,
{
    let acc = partly_put(base, goal, n);
    let rest = goal.skip(n);
    if n == goal.len() {
        assert(acc =~= goal);
        assert(rest.len() == 0);
    } else {
        let x = goal[n];
        assert(rest[0] == x);
        assert(rest.drop_first() =~= goal.skip(n + 1));
        assert forall|j: int| 0 <= j < n implies (#[trigger] acc[j]).key() != x.key() by {
            assert(acc[j] == goal[j]);
        }
        if n < base.len() {
            assert(acc[n] == base[n]);
            assert(goal[n].key() == base[n].key());
            lemma_key_pos_is(acc, x.key(), 0, n);
            assert(put(acc, x) =~= partly_put(base, goal, n + 1));
        } else {
            assert(acc.len() == n);
            lemma_key_pos_is(acc, x.key(), 0, n);
            assert(put(acc, x) =~= partly_put(base, goal, n + 1));
        }
        lemma_put_all_onto_self_from(base, goal, n + 1);
    }
}

/// Putting the items of `goal` into `base` gives `goal`, where `goal` has unique
/// keys and has the keys of `base` at the same places.
pub proof fn lemma_put_all_onto_self<T: Keyed>(base: Seq<T>, goal: Seq<T>)
    requires
        unique_keys(goal),
        extends_keys(goal, base),
    ensures
        put_all(base, goal) == goal,
{
    lemma_put_all_onto_self_from(base, goal, 0);
    assert(partly_put(base, goal, 0) =~= base);
    assert(goal.skip(0) =~= goal);
}

/// A sequence with unique keys is its own keyed form.
pub proof fn lemma_keyed_of_unique<T: Keyed>(s: Seq<T>)
    requires
        unique_keys(s),
    ensures
        keyed(s) == s,
{
    lemma_put_all_onto_self(Seq::<T>::empty(), s);
}

/// The keyed form of any sequence has unique keys.
pub proof fn lemma_keyed_unique<T: Keyed>(s: Seq<T>)
    ensures
        unique_keys(keyed(s)),
{
    lemma_put_all(Seq::<T>::empty(), s);
}

/// Every item of a sequence after a run of puts came from the sequence or from
/// the run.
pub proof fn lemma_put_all_members<T: Keyed>(acc: Seq<T>, xs: Seq<T>)
    ensures
        forall|i: int|
            0 <= i < put_all(acc, xs).len() ==> acc.contains(#[trigger] put_all(acc, xs)[i])
                || xs.contains(put_all(acc, xs)[i]),
    decreases xs.len(),
{
    if xs.len() > 0 {
        let next = put(acc, xs[0]);
        lemma_put_all_members(next, xs.drop_first());
        let out = put_all(acc, xs);
        let rest = xs.drop_first();
        assert(out == put_all(next, rest));
        assert forall|i: int| 0 <= i < out.len() implies acc.contains(#[trigger] out[i])
            || xs.contains(out[i]) by {
            let x = out[i];
            assert(next.contains(put_all(next, rest)[i]) || rest.contains(put_all(next, rest)[i]));
            if next.contains(x) {
                let j = choose|j: int| 0 <= j < next.len() && next[j] == x;
                if x == xs[0] {
                    assert(xs.contains(x));
                } else {
                    lemma_key_pos_from(acc, xs[0].key(), 0);
                    assert(acc[j] == x);
                    assert(acc.contains(x));
                }
            } else {
                let j = choose|j: int| 0 <= j < rest.len() && rest[j] == x;
                assert(xs[j + 1] == x);
                assert(xs.contains(x));
            }
        }
    }
}


/// `s` without the items whose key is `k`.
pub open spec fn without_key<T: Keyed>(s: Seq<T>, k: Seq<char>) -> Seq<T>
    decreases s.len(),
{
    if s.len() == 0 {
        Seq::empty()
    } else {
        let rest = without_key(s.drop_last(), k);
        if s.last().key() == k {
            rest
        } else {
            rest.push(s.last())
        }
    }
}

} // verus!
