//! The `lru` crate's cache, as the library uses it: keyed by `u64`, holding
//! either a `u64` or a triple of `u64`s.
//!
//! Each cache's contents are named as the sequence of its entries from the
//! most to the least recently used, and its capacity as a number. The
//! wrappers below state, over those names, what each call does, as the
//! crate's source (version 0.7) shows it: `put` moves an existing key to the
//! front with its new value, and otherwise adds the key at the front after
//! dropping the least recently used entry when the cache is full (a cache of
//! capacity zero keeps nothing); `peek` reads without reordering; `pop`
//! removes a key.

use vstd::prelude::*;
use lru::LruCache;

verus! {

/// `lru::LruCache`, opaque: its contents are known through the names below.
#[verifier::external_type_specification]
#[verifier::external_body]
#[verifier::reject_recursive_types(K)]
#[verifier::reject_recursive_types(V)]
#[verifier::reject_recursive_types(S)]
pub struct ExLruCache<K, V, S>(LruCache<K, V, S>);

/// The hasher that `LruCache` uses by default.
#[verifier::external_type_specification]
#[verifier::external_body]
pub struct ExDefaultHasher(lru::DefaultHasher);

/// No key occurs twice.
pub open spec fn keys_distinct<V>(e: Seq<(u64, V)>) -> bool {
    forall|i: int, j: int| 0 <= i < j < e.len() ==> #[trigger] e[i].0 != #[trigger] e[j].0
}

/// What every cache satisfies: distinct keys, and no more entries than its
/// capacity.
pub open spec fn lru_wf<V>(e: Seq<(u64, V)>, cap: nat) -> bool {
    keys_distinct(e) && e.len() <= cap
}

/// The value stored under `k`, if any.
pub open spec fn lru_lookup<V>(e: Seq<(u64, V)>, k: u64) -> Option<V>
    decreases e.len(),
{
    if e.len() == 0 {
        None
    } else if e[0].0 == k {
        Some(e[0].1)
    } else {
        lru_lookup(e.drop_first(), k)
    }
}

/// The entries without the one stored under `k`, order kept.
pub open spec fn lru_without<V>(e: Seq<(u64, V)>, k: u64) -> Seq<(u64, V)>
    decreases e.len(),
{
    if e.len() == 0 {
        e
    } else if e[0].0 == k {
        lru_without(e.drop_first(), k)
    } else {
        seq![e[0]] + lru_without(e.drop_first(), k)
    }
}

/// The entries after `put(k, v)` on a cache of capacity `cap`.
pub open spec fn lru_after_put<V>(e: Seq<(u64, V)>, cap: nat, k: u64, v: V) -> Seq<(u64, V)> {
    if lru_lookup(e, k) is Some {
        seq![(k, v)] + lru_without(e, k)
    } else if cap == 0 {
        e
    } else if e.len() >= cap {
        seq![(k, v)] + e.drop_last()
    } else {
        seq![(k, v)] + e
    }
}

/// Removing a key leaves it absent, keeps every other key's value, keeps
/// keys distinct and never adds entries.
pub proof fn lemma_without<V>(e: Seq<(u64, V)>, k: u64)
    requires
        keys_distinct(e),
    ensures
        lru_lookup(lru_without(e, k), k) is None,
        forall|k2: u64| k2 != k ==> lru_lookup(lru_without(e, k), k2) == lru_lookup(e, k2),
        keys_distinct(lru_without(e, k)),
        lru_without(e, k).len() <= e.len(),
        lru_lookup(e, k) is Some ==> lru_without(e, k).len() + 1 == e.len(),
        lru_lookup(e, k) is None ==> lru_without(e, k) == e,
        forall|k2: u64| lru_lookup(lru_without(e, k), k2) is Some ==> lru_lookup(e, k2) is Some,
    decreases e.len(),
{
    if e.len() > 0 {
        let t = e.drop_first();
        assert(keys_distinct(t)) by {
            assert forall|i: int, j: int| 0 <= i < j < t.len() implies #[trigger] t[i].0 != #[trigger] t[j].0 by {
                assert(t[i] == e[i + 1] && t[j] == e[j + 1]);
            }
        }
        lemma_without(t, k);
        lemma_lookup_absent(e, e[0].0);
        if e[0].0 != k {
            let w = lru_without(e, k);
            let wt = lru_without(t, k);
            assert(w == seq![e[0]] + wt);
            assert(w.drop_first() =~= wt);
            assert(lru_lookup(wt, e[0].0) is None);
            lemma_lookup_absent_inv(wt, e[0].0);
            assert(w[0] == e[0]);
            assert forall|k2: u64| k2 != k implies lru_lookup(w, k2) == lru_lookup(e, k2) by {
                assert(w.len() > 0);
                if k2 != e[0].0 {
                    assert(lru_lookup(w, k2) == lru_lookup(wt, k2));
                    assert(lru_lookup(e, k2) == lru_lookup(t, k2));
                } else {
                    assert(lru_lookup(w, k2) == Some(e[0].1));
                }
            }
            assert forall|k2: u64| lru_lookup(w, k2) is Some implies lru_lookup(e, k2) is Some by {
                if k2 != e[0].0 {
                    assert(lru_lookup(w, k2) == lru_lookup(wt, k2));
                }
            }
            assert(keys_distinct(w)) by {
                assert forall|i: int, j: int| 0 <= i < j < w.len() implies #[trigger] w[i].0 != #[trigger] w[j].0 by {
                    if i == 0 {
                        assert(w[j] == wt[j - 1]);
                    } else {
                        assert(w[i] == wt[i - 1] && w[j] == wt[j - 1]);
                    }
                }
            }
        } else {
            assert(lru_lookup(t, k) is None);
            assert(lru_without(e, k) == lru_without(t, k));
            assert forall|k2: u64| lru_lookup(lru_without(e, k), k2) is Some implies lru_lookup(
                e,
                k2,
            ) is Some by {
                if k2 != k {
                    assert(lru_lookup(e, k2) == lru_lookup(t, k2));
                }
            }
        }
    }
}

/// A key that occurs in no entry has no value.
pub proof fn lemma_lookup_absent<V>(e: Seq<(u64, V)>, k: u64)
    requires
        keys_distinct(e),
        e.len() > 0,
        e[0].0 == k,
    ensures
        lru_lookup(e.drop_first(), k) is None,
{
    let t = e.drop_first();
    assert forall|i: int| 0 <= i < t.len() implies #[trigger] t[i].0 != k by {
        assert(t[i] == e[i + 1]);
    }
    lemma_lookup_none_when_absent(t, k);
}

/// `lru_lookup` finds nothing when no entry carries the key.
pub proof fn lemma_lookup_none_when_absent<V>(e: Seq<(u64, V)>, k: u64)
    requires
        forall|i: int| 0 <= i < e.len() ==> #[trigger] e[i].0 != k,
    ensures
        lru_lookup(e, k) is None,
    decreases e.len(),
{
    if e.len() > 0 {
        let t = e.drop_first();
        assert forall|i: int| 0 <= i < t.len() implies #[trigger] t[i].0 != k by {
            assert(t[i] == e[i + 1]);
        }
        lemma_lookup_none_when_absent(t, k);
    }
}

/// When `lru_lookup` finds nothing, no entry carries the key.
pub proof fn lemma_lookup_absent_inv<V>(e: Seq<(u64, V)>, k: u64)
    requires
        lru_lookup(e, k) is None,
    ensures
        forall|i: int| 0 <= i < e.len() ==> #[trigger] e[i].0 != k,
    decreases e.len(),
{
    if e.len() > 0 {
        let t = e.drop_first();
        lemma_lookup_absent_inv(t, k);
        assert forall|i: int| 0 <= i < e.len() implies #[trigger] e[i].0 != k by {
            if i > 0 {
                assert(e[i] == t[i - 1]);
            }
        }
    }
}

/// Looking a key up in an entry list with a new entry in front.
pub proof fn lemma_lookup_cons<V>(x: Seq<(u64, V)>, k: u64, v: V, k2: u64)
    ensures
        lru_lookup(seq![(k, v)] + x, k2) == (if k2 == k {
            Some(v)
        } else {
            lru_lookup(x, k2)
        }),
{
    assert((seq![(k, v)] + x).drop_first() =~= x);
}

/// A new entry in front keeps keys distinct when its key is absent.
pub proof fn lemma_distinct_cons<V>(x: Seq<(u64, V)>, k: u64, v: V)
    requires
        keys_distinct(x),
        lru_lookup(x, k) is None,
    ensures
        keys_distinct(seq![(k, v)] + x),
{
    lemma_lookup_absent_inv(x, k);
    let w = seq![(k, v)] + x;
    assert forall|i: int, j: int| 0 <= i < j < w.len() implies #[trigger] w[i].0 != #[trigger] w[j].0 by {
        if i == 0 {
            assert(w[j] == x[j - 1]);
        } else {
            assert(w[i] == x[i - 1] && w[j] == x[j - 1]);
        }
    }
}

/// Dropping the last entry forgets its key and keeps every other one.
pub proof fn lemma_lookup_drop_last<V>(e: Seq<(u64, V)>)
    requires
        keys_distinct(e),
        e.len() > 0,
    ensures
        lru_lookup(e.drop_last(), e.last().0) is None,
        forall|k2: u64| k2 != e.last().0 ==> lru_lookup(e.drop_last(), k2) == lru_lookup(e, k2),
        keys_distinct(e.drop_last()),
    decreases e.len(),
{
    let d = e.drop_last();
    assert forall|i: int| 0 <= i < d.len() implies #[trigger] d[i].0 != e.last().0 by {
        assert(d[i] == e[i]);
    }
    lemma_lookup_none_when_absent(d, e.last().0);
    assert(keys_distinct(d)) by {
        assert forall|i: int, j: int| 0 <= i < j < d.len() implies #[trigger] d[i].0 != #[trigger] d[j].0 by {
            assert(d[i] == e[i] && d[j] == e[j]);
        }
    }
    if e.len() > 1 {
        let t = e.drop_first();
        assert(keys_distinct(t)) by {
            assert forall|i: int, j: int| 0 <= i < j < t.len() implies #[trigger] t[i].0 != #[trigger] t[j].0 by {
                assert(t[i] == e[i + 1] && t[j] == e[j + 1]);
            }
        }
        lemma_lookup_drop_last(t);
        assert(d.drop_first() =~= t.drop_last());
        assert(t.last() == e.last());
        assert forall|k2: u64| k2 != e.last().0 implies lru_lookup(d, k2) == lru_lookup(e, k2) by {
            assert(d[0] == e[0]);
            assert(d.len() > 0);
            if e[0].0 != k2 {
                assert(lru_lookup(d, k2) == lru_lookup(d.drop_first(), k2));
                assert(lru_lookup(t.drop_last(), k2) == lru_lookup(t, k2));
                assert(lru_lookup(e, k2) == lru_lookup(t, k2));
            }
        }
    } else {
        assert forall|k2: u64| k2 != e.last().0 implies lru_lookup(d, k2) == lru_lookup(e, k2) by {
            assert(e.drop_first().len() == 0);
            assert(d.len() == 0);
            assert(e[0] == e.last());
            assert(lru_lookup(e, k2) == lru_lookup(e.drop_first(), k2));
        }
    }
}

/// What `put` does to the entries, key by key: the cache stays well
/// formed, the key reads back as the value just put (unless the capacity is
/// zero), and every other key keeps its value or, when a new key entered a
/// full cache, only the least recently used one is dropped.
pub proof fn lemma_after_put<V>(e: Seq<(u64, V)>, cap: nat, k: u64, v: V)
    requires
        lru_wf(e, cap),
    ensures
        lru_wf(lru_after_put(e, cap, k, v), cap),
        cap > 0 ==> lru_lookup(lru_after_put(e, cap, k, v), k) == Some(v),
        forall|k2: u64|
            k2 != k && (lru_lookup(e, k) is Some || e.len() < cap) ==> lru_lookup(
                #[trigger] lru_after_put(e, cap, k, v),
                k2,
            ) == lru_lookup(e, k2),
        forall|k2: u64|
            k2 != k && lru_lookup(lru_after_put(e, cap, k, v), k2) is Some ==> lru_lookup(
                lru_after_put(e, cap, k, v),
                k2,
            ) == lru_lookup(e, k2),
        lru_lookup(e, k) is None && cap > 0 && e.len() == cap ==> lru_lookup(
            lru_after_put(e, cap, k, v),
            e.last().0,
        ) is None && lru_after_put(e, cap, k, v).len() == cap,
{
    let a = lru_after_put(e, cap, k, v);
    if lru_lookup(e, k) is Some {
        lemma_without(e, k);
        lemma_distinct_cons(lru_without(e, k), k, v);
        assert forall|k2: u64| #[trigger] lru_lookup(a, k2) == (if k2 == k {
            Some(v)
        } else {
            lru_lookup(e, k2)
        }) by {
            lemma_lookup_cons(lru_without(e, k), k, v, k2);
        }
    } else if cap == 0 {
    } else if e.len() >= cap {
        lemma_lookup_drop_last(e);
        let last = e.last().0;
        assert(last != k) by {
            lemma_lookup_absent_inv(e, k);
            assert(e[e.len() - 1].0 != k);
        }
        assert(lru_lookup(e.drop_last(), k) is None) by {
            lemma_lookup_absent_inv(e, k);
            assert forall|i: int| 0 <= i < e.drop_last().len() implies #[trigger] e.drop_last()[i].0
                != k by {
                assert(e.drop_last()[i] == e[i]);
            }
            lemma_lookup_none_when_absent(e.drop_last(), k);
        }
        lemma_distinct_cons(e.drop_last(), k, v);
        assert forall|k2: u64| #[trigger] lru_lookup(a, k2) == (if k2 == k {
            Some(v)
        } else if k2 == last {
            None
        } else {
            lru_lookup(e, k2)
        }) by {
            lemma_lookup_cons(e.drop_last(), k, v, k2);
        }
    } else {
        lemma_distinct_cons(e, k, v);
        assert forall|k2: u64| #[trigger] lru_lookup(a, k2) == (if k2 == k {
            Some(v)
        } else {
            lru_lookup(e, k2)
        }) by {
            lemma_lookup_cons(e, k, v, k2);
        }
    }
}

/// Entries of an `LruCache<u64, u64>`, most recently used first.
pub uninterp spec fn word_lru_entries(c: LruCache<u64, u64>) -> Seq<(u64, u64)>;

/// Capacity an `LruCache<u64, u64>` was made with.
pub uninterp spec fn word_lru_cap(c: LruCache<u64, u64>) -> nat;

/// Entries of an `LruCache<u64, (u64, u64, u64)>`, most recently used first.
pub uninterp spec fn triple_lru_entries(c: LruCache<u64, (u64, u64, u64)>) -> Seq<(u64, (u64, u64, u64))>;

/// Capacity an `LruCache<u64, (u64, u64, u64)>` was made with.
pub uninterp spec fn triple_lru_cap(c: LruCache<u64, (u64, u64, u64)>) -> nat;

/// `LruCache::new`: an empty cache of capacity `cap`.
#[verifier::external_body]
pub(crate) fn word_lru_new(cap: usize) -> (c: LruCache<u64, u64>)
    ensures
        word_lru_entries(c) == Seq::<(u64, u64)>::empty(),
        word_lru_cap(c) == cap,
{
    LruCache::new(cap)
}

/// `LruCache::put`: returns the value the key held before, and updates the
/// entries as `lru_after_put` says; the capacity is kept.
#[verifier::external_body]
pub(crate) fn word_lru_put(c: &mut LruCache<u64, u64>, k: u64, v: u64) -> (r: Option<u64>)
    requires
        lru_wf(word_lru_entries(*old(c)), word_lru_cap(*old(c))),
    ensures
        r == lru_lookup(word_lru_entries(*old(c)), k),
        word_lru_entries(*final(c)) == lru_after_put(
            word_lru_entries(*old(c)),
            word_lru_cap(*old(c)),
            k,
            v,
        ),
        word_lru_cap(*final(c)) == word_lru_cap(*old(c)),
{
    c.put(k, v)
}

/// `LruCache::peek`: the value under `k`, with no change to the cache.
#[verifier::external_body]
pub(crate) fn word_lru_peek(c: &LruCache<u64, u64>, k: u64) -> (r: Option<u64>)
    requires
        lru_wf(word_lru_entries(*c), word_lru_cap(*c)),
    ensures
        r == lru_lookup(word_lru_entries(*c), k),
{
    c.peek(&k).copied()
}

/// `LruCache::new`: an empty cache of capacity `cap`.
#[verifier::external_body]
pub(crate) fn triple_lru_new(cap: usize) -> (c: LruCache<u64, (u64, u64, u64)>)
    ensures
        triple_lru_entries(c) == Seq::<(u64, (u64, u64, u64))>::empty(),
        triple_lru_cap(c) == cap,
{
    LruCache::new(cap)
}

/// `LruCache::put`: returns the value the key held before, and updates the
/// entries as `lru_after_put` says; the capacity is kept.
#[verifier::external_body]
pub(crate) fn triple_lru_put(
    c: &mut LruCache<u64, (u64, u64, u64)>,
    k: u64,
    v: (u64, u64, u64),
) -> (r: Option<(u64, u64, u64)>)
    requires
        lru_wf(triple_lru_entries(*old(c)), triple_lru_cap(*old(c))),
    ensures
        r == lru_lookup(triple_lru_entries(*old(c)), k),
        triple_lru_entries(*final(c)) == lru_after_put(
            triple_lru_entries(*old(c)),
            triple_lru_cap(*old(c)),
            k,
            v,
        ),
        triple_lru_cap(*final(c)) == triple_lru_cap(*old(c)),
{
    c.put(k, v)
}

/// `LruCache::peek`: the value under `k`, with no change to the cache.
#[verifier::external_body]
pub(crate) fn triple_lru_peek(c: &LruCache<u64, (u64, u64, u64)>, k: u64) -> (r: Option<
    (u64, u64, u64),
>)
    requires
        lru_wf(triple_lru_entries(*c), triple_lru_cap(*c)),
    ensures
        r == lru_lookup(triple_lru_entries(*c), k),
{
    c.peek(&k).copied()
}

/// `LruCache::pop`: removes the entry under `k` and returns its value; the
/// other entries keep their order, the capacity is kept.
#[verifier::external_body]
pub(crate) fn triple_lru_pop(c: &mut LruCache<u64, (u64, u64, u64)>, k: u64) -> (r: Option<
    (u64, u64, u64),
>)
    requires
        lru_wf(triple_lru_entries(*old(c)), triple_lru_cap(*old(c))),
    ensures
        r == lru_lookup(triple_lru_entries(*old(c)), k),
        triple_lru_entries(*final(c)) == lru_without(triple_lru_entries(*old(c)), k),
        triple_lru_cap(*final(c)) == triple_lru_cap(*old(c)),
{
    c.pop(&k)
}

} // verus!
