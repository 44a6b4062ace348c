//! Left folds that stop at the first error, and association lists keyed by ids.

use vstd::prelude::*;

verus! {

/// Applies `step` to each item in order, starting from `init`, and stops with
/// the first error.
pub open spec fn fold_results<S, A, E>(items: Seq<A>, init: S, step: spec_fn(S, A) -> Result<S, E>) -> Result<S, E>
    decreases items.len(),
{
    if items.len() == 0 {
        Ok(init)
    } else {
        match fold_results(items.drop_last(), init, step) {
            Ok(s) => step(s, items.last()),
            Err(e) => Err(e),
        }
    }
}

/// One more item: the fold of the first `n + 1` items continues the fold of the first `n`.
pub proof fn lemma_fold_results_step<S, A, E>(items: Seq<A>, init: S, step: spec_fn(S, A) -> Result<S, E>, n: int)
    requires
        0 <= n < items.len(),
    ensures
        fold_results(items.take(n + 1), init, step) == (match fold_results(items.take(n), init, step) {
            Ok(s) => step(s, items[n]),
            Err(e) => Err(e),
        }),
{
    assert(items.take(n + 1).drop_last() =~= items.take(n));
    assert(items.take(n + 1).last() == items[n]);
}

/// An error stops the fold: once the first `n` items fail, all of them fail the same way.
pub proof fn lemma_fold_results_error_stays<S, A, E>(items: Seq<A>, init: S, step: spec_fn(S, A) -> Result<S, E>, n: int)
    requires
        0 <= n <= items.len(),
        fold_results(items.take(n), init, step) is Err,
    ensures
        fold_results(items, init, step) == fold_results(items.take(n), init, step),
    decreases items.len() - n,
{
    if n == items.len() {
        assert(items.take(n) =~= items);
    } else {
        lemma_fold_results_step(items, init, step, n);
        lemma_fold_results_error_stays(items, init, step, n + 1);
    }
}

/// The whole sequence is its own prefix of full length.
pub proof fn lemma_take_all<A>(items: Seq<A>)
    ensures
        items.take(items.len() as int) == items,
{
    assert(items.take(items.len() as int) =~= items);
}

/// No id occurs twice.
pub open spec fn keys_distinct<V>(s: Seq<(i32, V)>) -> bool {
    forall|i: int, j: int| 0 <= i < j < s.len() ==> s[i].0 != s[j].0
}

/// Whether an entry has the id.
pub open spec fn has_key<V>(s: Seq<(i32, V)>, k: i32) -> bool {
    exists|i: int| 0 <= i < s.len() && s[i].0 == k
}

/// The position of the entry with the id.
pub open spec fn key_index<V>(s: Seq<(i32, V)>, k: i32) -> int {
    choose|i: int| 0 <= i < s.len() && s[i].0 == k
}

/// The value stored under an id.
pub open spec fn assoc_get<V>(s: Seq<(i32, V)>, k: i32) -> Option<V> {
    if has_key(s, k) {
        Some(s[key_index(s, k)].1)
    } else {
        None
    }
}

/// Stores `v` under `k`: replaces the entry with that id in place, or appends one.
pub open spec fn assoc_insert<V>(s: Seq<(i32, V)>, k: i32, v: V) -> Seq<(i32, V)> {
    if has_key(s, k) {
        s.update(key_index(s, k), (k, v))
    } else {
        s.push((k, v))
    }
}

/// Finds the position of the entry with the id.
pub fn assoc_find<V>(s: &Vec<(i32, V)>, k: i32) -> (r: Option<usize>)
    requires
        keys_distinct(s@),
    ensures
        r is Some <==> has_key(s@, k),
        r matches Some(i) ==> i == key_index(s@, k) && i < s@.len() && s@[i as int].0 == k,
{
    let mut i: usize = 0;
    while i < s.len()
        invariant
            i <= s@.len(),
            keys_distinct(s@),
            forall|j: int| 0 <= j < i ==> s@[j].0 != k,
        decreases s@.len() - i,
    {
        if s[i].0 == k {
            assert(has_key(s@, k));
            let ghost c = key_index(s@, k);
            assert(c == i as int);
            return Some(i);
        }
        i = i + 1;
    }
    None
}

/// Stores `v` under `k`, keeping ids distinct.
pub fn assoc_insert_exec<V: Copy>(s: &mut Vec<(i32, V)>, k: i32, v: V)
    requires
        keys_distinct(old(s)@),
    ensures
        final(s)@ == assoc_insert(old(s)@, k, v),
        keys_distinct(final(s)@),
        forall|j: int| 0 <= j < final(s)@.len() ==> final(s)@[j] == (k, v) || (j < old(s)@.len() && final(s)@[j] == old(s)@[j]),
{
    match assoc_find(s, k) {
        Some(i) => {
            s.set(i, (k, v));
        },
        None => {
            s.push((k, v));
        },
    }
}

/// Whether a vector holds a value.
pub fn contains_u16(v: &Vec<u16>, x: u16) -> (r: bool)
    ensures
        r == v@.contains(x),
{
    let mut i: usize = 0;
    while i < v.len()
        invariant
            i <= v@.len(),
            forall|j: int| 0 <= j < i ==> v@[j] != x,
        decreases v@.len() - i,
    {
        if v[i] == x {
            assert(v@[i as int] == x);
            return true;
        }
        i = i + 1;
    }
    false
}

/// Appending an entry with a new id: that id now maps to the entry's value,
/// every other id maps as before.
pub proof fn lemma_assoc_get_push<V>(s: Seq<(i32, V)>, k: i32, v: V, i: i32)
    requires
        keys_distinct(s.push((k, v))),
    ensures
        assoc_get(s.push((k, v)), i) == (if i == k { Some(v) } else { assoc_get(s, i) }),
{
    let t = s.push((k, v));
    if i == k {
        assert(t[s.len() as int].0 == k);
        assert(has_key(t, k));
        let c = key_index(t, k);
        assert(c == s.len());
    } else {
        if has_key(t, i) {
            let c = key_index(t, i);
            assert(c < s.len());
            assert(t[c] == s[c]);
            assert(has_key(s, i));
            let d = key_index(s, i);
            assert(t[d] == s[d]);
            assert(c == d);
        } else {
            assert forall|j: int| 0 <= j < s.len() implies s[j].0 != i by {
                assert(t[j] == s[j]);
            }
        }
    }
}

/// The prefixes of a sequence with distinct ids have distinct ids.
pub proof fn lemma_keys_distinct_take<V>(s: Seq<(i32, V)>, n: int)
    requires
        keys_distinct(s),
        0 <= n <= s.len(),
    ensures
        keys_distinct(s.take(n)),
{
}

/// Storing under an id keeps ids distinct and every other entry in place.
pub proof fn lemma_assoc_insert_entries<V>(s: Seq<(i32, V)>, k: i32, v: V)
    requires
        keys_distinct(s),
    ensures
        keys_distinct(assoc_insert(s, k, v)),
        assoc_insert(s, k, v).len() >= s.len(),
        forall|j: int| 0 <= j < assoc_insert(s, k, v).len() ==> (#[trigger] assoc_insert(s, k, v)[j] == (k, v) || (
        j < s.len() && assoc_insert(s, k, v)[j] == s[j])),
{
}

/// A property kept by every successful step holds of a successful fold.
pub proof fn lemma_fold_results_invariant<S, A, E>(
    items: Seq<A>,
    init: S,
    step: spec_fn(S, A) -> Result<S, E>,
    inv: spec_fn(S) -> bool,
)
    requires
        inv(init),
        forall|s: S, a: A| inv(s) && (#[trigger] step(s, a)) is Ok ==> inv(step(s, a)->Ok_0),
    ensures
        fold_results(items, init, step) is Ok ==> inv(fold_results(items, init, step)->Ok_0),
    decreases items.len(),
{
    if items.len() > 0 {
        lemma_fold_results_invariant(items.drop_last(), init, step, inv);
    }
}

} // verus!
