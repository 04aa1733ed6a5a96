//! A small keyed store: a vector of (key, value) entries read by first
//! match on the key, as the in-memory caches of the changes views use it.

use vstd::prelude::*;
use crate::text::{chars_of, has_prefix, same_text, starts_with};

verus! {

/// The value of the first entry whose key is `key`.
pub open spec fn lookup_keyed<T>(v: Seq<(String, T)>, key: Seq<char>) -> Option<T>
    decreases v.len(),
{
    if v.len() == 0 {
        None
    } else {
        let prior = lookup_keyed(v.drop_last(), key);
        if prior is Some {
            prior
        } else if v.last().0@ == key {
            Some(v.last().1)
        } else {
            None
        }
    }
}

/// A found entry stays the answer however many entries follow.
pub proof fn lemma_lookup_prefix<T>(v: Seq<(String, T)>, key: Seq<char>, n: int, m: int)
    requires
        0 <= n <= m <= v.len(),
        lookup_keyed(v.take(n), key) is Some,
    ensures
        lookup_keyed(v.take(m), key) == lookup_keyed(v.take(n), key),
    decreases m - n,
{
    if m > n {
        lemma_lookup_prefix(v, key, n, m - 1);
        assert(v.take(m).drop_last() =~= v.take(m - 1));
    }
}

/// The index of the first entry with key `key`, if any.
pub fn find_key<T>(v: &Vec<(String, T)>, key: &str) -> (r: Option<usize>)
    ensures
        match r {
            Some(i) => i < v@.len() && v@[i as int].0@ == key@ && lookup_keyed(v@, key@) == Some(
                v@[i as int].1,
            ),
            None => lookup_keyed(v@, key@) is None,
        },
{
    let mut i: usize = 0;
    assert(v@.take(0) =~= Seq::<(String, T)>::empty());
    while i < v.len()
        invariant
            i <= v@.len(),
            lookup_keyed(v@.take(i as int), key@) is None,
        decreases v@.len() - i,
    {
        assert(v@.take(i + 1).drop_last() =~= v@.take(i as int));
        if same_text(v[i].0.as_str(), key) {
            proof {
                lemma_lookup_prefix(v@, key@, i + 1, v@.len() as int);
                assert(v@.take(v@.len() as int) =~= v@);
            }
            return Some(i);
        }
        i = i + 1;
    }
    assert(v@.take(i as int) =~= v@);
    None
}

/// `v` without the entries whose key satisfies `gone`: every key that is
/// gone reads as absent, every other reads as before.
pub open spec fn without_keys<T>(
    old: Seq<(String, T)>,
    new: Seq<(String, T)>,
    gone: spec_fn(Seq<char>) -> bool,
) -> bool {
    forall|k: Seq<char>|
        #[trigger] lookup_keyed(new, k) == (if gone(k) {
            None
        } else {
            lookup_keyed(old, k)
        })
}

/// Whether a key is exactly `key`.
pub open spec fn key_is(key: Seq<char>) -> spec_fn(Seq<char>) -> bool {
    |k: Seq<char>| k == key
}

/// Whether a key begins with `prefix`.
pub open spec fn key_starts(prefix: Seq<char>) -> spec_fn(Seq<char>) -> bool {
    |k: Seq<char>| starts_with(k, prefix)
}

/// Remove the entries whose key matches: exactly `key` (`prefix` false),
/// or begins with `key` (`prefix` true).
pub fn remove_keys<T>(v: Vec<(String, T)>, key: &str, prefix: bool) -> (r: Vec<(String, T)>)
    ensures
        without_keys(
            v@,
            r@,
            if prefix {
                key_starts(key@)
            } else {
                key_is(key@)
            },
        ),
{
    let ghost gone = if prefix {
        key_starts(key@)
    } else {
        key_is(key@)
    };
    let ghost orig = v@;
    let kc = chars_of(key);
    let mut rest = v;
    let n = rest.len();
    let mut r: Vec<(String, T)> = Vec::new();
    let mut i: usize = 0;
    assert(orig.take(0) =~= Seq::<(String, T)>::empty());
    assert(orig.skip(0) =~= orig);
    while rest.len() > 0
        invariant
            i <= orig.len(),
            orig.len() == n,
            rest@ == orig.skip(i as int),
            kc@ == key@,
            gone == (if prefix {
                key_starts(key@)
            } else {
                key_is(key@)
            }),
            forall|k: Seq<char>|
                #[trigger] lookup_keyed(r@, k) == (if gone(k) {
                    None
                } else {
                    lookup_keyed(orig.take(i as int), k)
                }),
        decreases rest@.len(),
    {
        let e = rest.remove(0);
        let ghost pre = r@;
        assert(orig[i as int] == e);
        assert(orig.take(i + 1).drop_last() =~= orig.take(i as int));
        assert(orig.skip(i + 1) =~= orig.skip(i as int).drop_first());
        let ec = chars_of(e.0.as_str());
        let drop = if prefix {
            has_prefix(&ec, &kc)
        } else {
            same_text(e.0.as_str(), key)
        };
        assert(drop == gone(e.0@));
        if !drop {
            r.push(e);
            assert forall|k: Seq<char>| #[trigger]
                lookup_keyed(r@, k) == (if gone(k) {
                    None
                } else {
                    lookup_keyed(orig.take(i + 1), k)
                }) by {
                assert(r@.drop_last() =~= pre);
                assert(lookup_keyed(pre, k) == (if gone(k) {
                    None
                } else {
                    lookup_keyed(orig.take(i as int), k)
                }));
                if gone(k) {
                    assert(e.0@ != k);
                }
            }
        } else {
            assert forall|k: Seq<char>| #[trigger]
                lookup_keyed(r@, k) == (if gone(k) {
                    None
                } else {
                    lookup_keyed(orig.take(i + 1), k)
                }) by {
                assert(lookup_keyed(pre, k) == (if gone(k) {
                    None
                } else {
                    lookup_keyed(orig.take(i as int), k)
                }));
                if !gone(k) {
                    assert(e.0@ != k);
                }
            }
        }
        i = i + 1;
    }
    assert(orig.take(i as int) =~= orig);
    r
}

/// Set the value under `key`, replacing an earlier one.
pub fn put_keyed<T>(v: Vec<(String, T)>, key: String, value: T) -> (r: Vec<(String, T)>)
    ensures
        lookup_keyed(r@, key@) == Some(value),
        forall|k: Seq<char>| k != key@ ==> #[trigger] lookup_keyed(r@, k) == lookup_keyed(v@, k),
{
    let mut r = remove_keys(v, key.as_str(), false);
    let ghost pre = r@;
    assert(lookup_keyed(pre, key@) is None) by {
        assert(key_is(key@)(key@));
    }
    r.push((key, value));
    assert(r@.drop_last() =~= pre);
    assert forall|k: Seq<char>| k != key@ implies #[trigger] lookup_keyed(r@, k) == lookup_keyed(
        v@,
        k,
    ) by {
        assert(!key_is(key@)(k));
        assert(lookup_keyed(pre, k) == lookup_keyed(v@, k));
    }
    r
}

} // verus!
