//! The `lru` crate's cache, as the UDP session table uses it: keys and
//! values are 64-bit integers, and the cache's contents are described by
//! the list of its entries from the most to the least recently used.
use lru::LruCache;
use vstd::prelude::*;

verus! {

#[verifier::external_type_specification]
#[verifier::external_body]
#[verifier::reject_recursive_types(K)]
#[verifier::reject_recursive_types(V)]
#[verifier::reject_recursive_types(S)]
pub struct ExLruCache<K, V, S>(LruCache<K, V, S>);

#[verifier::external_type_specification]
#[verifier::external_body]
pub struct ExLruDefaultHasher(lru::DefaultHasher);

/// The entries of a cache, from the most recently used to the least.
pub uninterp spec fn lru_entries(c: LruCache<u64, u64>) -> Seq<(u64, u64)>;

/// The capacity a cache was made with.
pub uninterp spec fn lru_cap(c: LruCache<u64, u64>) -> nat;

/// The position of the entry for `k` in `s`, or -1 when there is none.
pub open spec fn key_index(s: Seq<(u64, u64)>, k: u64) -> int {
    if exists|i: int| 0 <= i < s.len() && s[i].0 == k {
        choose|i: int| 0 <= i < s.len() && s[i].0 == k
    } else {
        -1
    }
}

/// Whether `s` holds an entry for `k`.
pub open spec fn has_key(s: Seq<(u64, u64)>, k: u64) -> bool {
    exists|i: int| 0 <= i < s.len() && s[i].0 == k
}

/// No two entries of `s` share a key.
pub open spec fn distinct_keys(s: Seq<(u64, u64)>) -> bool {
    forall|i: int, j: int| 0 <= i < s.len() && 0 <= j < s.len() && i != j ==> s[i].0 != s[j].0
}

/// Makes an empty cache with `lru::LruCache::new`.
#[verifier::external_body]
pub(crate) fn lru_new(cap: usize) -> (r: LruCache<u64, u64>)
    ensures
        lru_entries(r) == Seq::<(u64, u64)>::empty(),
        lru_cap(r) == cap,
{
    LruCache::new(cap)
}

/// Tests for a key with `lru::LruCache::contains`, which leaves the order
/// of the entries unchanged.
#[verifier::external_body]
pub(crate) fn lru_contains(c: &LruCache<u64, u64>, k: u64) -> (r: bool)
    ensures
        r == has_key(lru_entries(*c), k),
{
    c.contains(&k)
}

/// The number of entries, with `lru::LruCache::len`.
#[verifier::external_body]
pub(crate) fn lru_len(c: &LruCache<u64, u64>) -> (r: usize)
    ensures
        r == lru_entries(*c).len(),
{
    c.len()
}

/// The capacity, with `lru::LruCache::cap`.
#[verifier::external_body]
pub(crate) fn lru_capacity(c: &LruCache<u64, u64>) -> (r: usize)
    ensures
        r == lru_cap(*c),
{
    c.cap()
}

/// The least recently used entry, with `lru::LruCache::peek_lru`, which
/// leaves the order unchanged.
#[verifier::external_body]
pub(crate) fn lru_peek_lru(c: &LruCache<u64, u64>) -> (r: Option<(u64, u64)>)
    ensures
        lru_entries(*c).len() == 0 ==> r is None,
        lru_entries(*c).len() > 0 ==> r == Some(lru_entries(*c).last()),
{
    c.peek_lru().map(|(k, v)| (*k, *v))
}

/// Looks a key up with `lru::LruCache::get`, which moves a found entry to
/// the front and leaves the cache unchanged otherwise.
#[verifier::external_body]
pub(crate) fn lru_get(c: &mut LruCache<u64, u64>, k: u64) -> (r: Option<u64>)
    ensures
        lru_cap(*final(c)) == lru_cap(*old(c)),
        !has_key(lru_entries(*old(c)), k) ==> r is None && lru_entries(*final(c)) == lru_entries(
            *old(c),
        ),
        has_key(lru_entries(*old(c)), k) ==> r == Some(
            lru_entries(*old(c))[key_index(lru_entries(*old(c)), k)].1,
        ),
        has_key(lru_entries(*old(c)), k) ==> lru_entries(*final(c)) == seq![
            lru_entries(*old(c))[key_index(lru_entries(*old(c)), k)],
        ] + lru_entries(*old(c)).remove(key_index(lru_entries(*old(c)), k)),
{
    c.get(&k).copied()
}

/// Inserts with `lru::LruCache::put`: an existing entry for the key gets
/// the new value and moves to the front (its old value is returned); a new
/// key goes to the front, after the least recently used entry is dropped
/// when the cache is full; a cache of capacity 0 stays empty.
#[verifier::external_body]
pub(crate) fn lru_put(c: &mut LruCache<u64, u64>, k: u64, v: u64) -> (r: Option<u64>)
    ensures
        lru_cap(*final(c)) == lru_cap(*old(c)),
        has_key(lru_entries(*old(c)), k) ==> r == Some(
            lru_entries(*old(c))[key_index(lru_entries(*old(c)), k)].1,
        ),
        has_key(lru_entries(*old(c)), k) ==> lru_entries(*final(c)) == seq![(k, v)] + lru_entries(
            *old(c),
        ).remove(key_index(lru_entries(*old(c)), k)),
        !has_key(lru_entries(*old(c)), k) ==> r is None,
        !has_key(lru_entries(*old(c)), k) && lru_cap(*old(c)) == 0 ==> lru_entries(*final(c))
            == lru_entries(*old(c)),
        !has_key(lru_entries(*old(c)), k) && lru_cap(*old(c)) > 0 && lru_entries(*old(c)).len()
            == lru_cap(*old(c)) ==> lru_entries(*final(c)) == seq![(k, v)] + lru_entries(
            *old(c),
        ).drop_last(),
        !has_key(lru_entries(*old(c)), k) && lru_cap(*old(c)) > 0 && lru_entries(*old(c)).len()
            != lru_cap(*old(c)) ==> lru_entries(*final(c)) == seq![(k, v)] + lru_entries(*old(c)),
{
    c.put(k, v)
}

/// Removes a key with `lru::LruCache::pop`, returning its value; the other
/// entries keep their order.
#[verifier::external_body]
pub(crate) fn lru_pop(c: &mut LruCache<u64, u64>, k: u64) -> (r: Option<u64>)
    ensures
        lru_cap(*final(c)) == lru_cap(*old(c)),
        !has_key(lru_entries(*old(c)), k) ==> r is None && lru_entries(*final(c)) == lru_entries(
            *old(c),
        ),
        has_key(lru_entries(*old(c)), k) ==> r == Some(
            lru_entries(*old(c))[key_index(lru_entries(*old(c)), k)].1,
        ),
        has_key(lru_entries(*old(c)), k) ==> lru_entries(*final(c)) == lru_entries(*old(c)).remove(
            key_index(lru_entries(*old(c)), k),
        ),
{
    c.pop(&k)
}

} // verus!
