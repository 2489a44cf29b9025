//! The bounded most-recently-used caches of the `uluru` crate, as the stack
//! uses them: what each cache holds is the sequence of its entries, most
//! recently used first.

use vstd::prelude::*;
use uluru::LRUCache;

verus! {

/// The capacity of the stack's caches.
pub const CACHE_CAPACITY: usize = 32;

#[verifier::external_type_specification]
#[verifier::external_body]
#[verifier::reject_recursive_types(T)]
pub struct ExLRUCache<T, const N: usize>(LRUCache<T, N>);

/// The entries of a network replay cache, most recently used first: source,
/// sequence and low 16 bits of the IV index.
pub uninterp spec fn network_entries(c: LRUCache<(u16, u32, u16), 32>) -> Seq<(u16, u32, u16)>;

/// The entries of an upper transport replay cache, most recently used first:
/// source, sequence, low 16 bits of the IV index, acknowledgement bits and
/// their first sequence number.
pub uninterp spec fn upper_entries(c: LRUCache<(u16, u32, u16, u32, u16), 32>) -> Seq<(u16, u32, u16, u32, u16)>;

/// The entries of a relay message cache, most recently used first: source
/// and hash of the transport PDU.
pub uninterp spec fn message_entries(c: LRUCache<(u16, u64), 32>) -> Seq<(u16, u64)>;

/// Inserting into a cache: the new entry comes first; a full cache drops its
/// least recently used (last) entry.
pub open spec fn lru_insert<T>(s: Seq<T>, v: T) -> Seq<T> {
    if s.len() >= 32 {
        seq![v] + s.drop_last()
    } else {
        seq![v] + s
    }
}

/// Moving entry `i` to the front.
pub open spec fn lru_touch<T>(s: Seq<T>, i: int) -> Seq<T> {
    seq![s[i]] + s.remove(i)
}

/// The first entry of a network or upper cache from `src`.
pub open spec fn first_with_src<T>(s: Seq<T>, key: spec_fn(T) -> u16, src: u16) -> Option<int> {
    if exists|i: int| 0 <= i < s.len() && key(#[trigger] s[i]) == src {
        Some(choose|i: int| 0 <= i < s.len() && key(#[trigger] s[i]) == src && forall|j: int| 0 <= j < i ==> key(s[j]) != src)
    } else {
        None
    }
}

/// Whether a network entry is from `src`.
pub(crate) fn network_entry_is_from(e: &(u16, u32, u16), src: u16) -> (r: bool)
    ensures
        r == (e.0 == src),
{
    e.0 == src
}

/// Whether an upper entry is from `src`.
pub(crate) fn upper_entry_is_from(e: &(u16, u32, u16, u32, u16), src: u16) -> (r: bool)
    ensures
        r == (e.0 == src),
{
    e.0 == src
}

/// Whether a message entry is `(src, hash)`.
pub(crate) fn message_entry_is(e: &(u16, u64), src: u16, hash: u64) -> (r: bool)
    ensures
        r == (e.0 == src && e.1 == hash),
{
    e.0 == src && e.1 == hash
}

/// `LRUCache::new` (through `Default`): an empty cache.
#[verifier::external_body]
pub(crate) fn new_network_cache() -> (c: LRUCache<(u16, u32, u16), 32>)
    ensures
        network_entries(c) == Seq::<(u16, u32, u16)>::empty(),
{
    LRUCache::default()
}

/// `LRUCache::find` with a predicate on the source: the first entry, in most
/// recently used order, from `src` is moved to the front and returned; with
/// none, the cache is unchanged.
#[verifier::external_body]
pub(crate) fn network_find(c: &mut LRUCache<(u16, u32, u16), 32>, src: u16) -> (r: Option<(u16, u32, u16)>)
    ensures
        match first_with_src(network_entries(*old(c)), |e: (u16, u32, u16)| e.0, src) {
            Some(i) => r == Some(network_entries(*old(c))[i])
                && network_entries(*final(c)) == lru_touch(network_entries(*old(c)), i),
            None => r is None && network_entries(*final(c)) == network_entries(*old(c)),
        },
{
    c.find(|e| network_entry_is_from(e, src)).map(|e| *e)
}

/// `LRUCache::front_mut`, written to: the front entry becomes `v`.
#[verifier::external_body]
pub(crate) fn network_set_front(c: &mut LRUCache<(u16, u32, u16), 32>, v: (u16, u32, u16))
    requires
        network_entries(*old(c)).len() > 0,
    ensures
        network_entries(*final(c)) == network_entries(*old(c)).update(0, v),
{
    if let Some(front) = c.front_mut() {
        *front = v;
    }
}

/// `LRUCache::insert`: `v` comes first; a full cache drops its last entry.
#[verifier::external_body]
pub(crate) fn network_insert(c: &mut LRUCache<(u16, u32, u16), 32>, v: (u16, u32, u16))
    requires
        network_entries(*old(c)).len() <= 32,
    ensures
        network_entries(*final(c)) == lru_insert(network_entries(*old(c)), v),
{
    c.insert(v);
}

/// `LRUCache::new` (through `Default`): an empty cache.
#[verifier::external_body]
pub(crate) fn new_upper_cache() -> (c: LRUCache<(u16, u32, u16, u32, u16), 32>)
    ensures
        upper_entries(c) == Seq::<(u16, u32, u16, u32, u16)>::empty(),
{
    LRUCache::default()
}

/// `LRUCache::find` with a predicate on the source: the first entry, in most
/// recently used order, from `src` is moved to the front and returned; with
/// none, the cache is unchanged.
#[verifier::external_body]
pub(crate) fn upper_find(c: &mut LRUCache<(u16, u32, u16, u32, u16), 32>, src: u16) -> (r: Option<(u16, u32, u16, u32, u16)>)
    ensures
        match first_with_src(upper_entries(*old(c)), |e: (u16, u32, u16, u32, u16)| e.0, src) {
            Some(i) => r == Some(upper_entries(*old(c))[i])
                && upper_entries(*final(c)) == lru_touch(upper_entries(*old(c)), i),
            None => r is None && upper_entries(*final(c)) == upper_entries(*old(c)),
        },
{
    c.find(|e| upper_entry_is_from(e, src)).map(|e| *e)
}

/// `LRUCache::front_mut`, written to: the front entry becomes `v`.
#[verifier::external_body]
pub(crate) fn upper_set_front(c: &mut LRUCache<(u16, u32, u16, u32, u16), 32>, v: (u16, u32, u16, u32, u16))
    requires
        upper_entries(*old(c)).len() > 0,
    ensures
        upper_entries(*final(c)) == upper_entries(*old(c)).update(0, v),
{
    if let Some(front) = c.front_mut() {
        *front = v;
    }
}

/// `LRUCache::insert`: `v` comes first; a full cache drops its last entry.
#[verifier::external_body]
pub(crate) fn upper_insert(c: &mut LRUCache<(u16, u32, u16, u32, u16), 32>, v: (u16, u32, u16, u32, u16))
    requires
        upper_entries(*old(c)).len() <= 32,
    ensures
        upper_entries(*final(c)) == lru_insert(upper_entries(*old(c)), v),
{
    c.insert(v);
}

/// `LRUCache::new` (through `Default`): an empty cache.
#[verifier::external_body]
pub(crate) fn new_message_cache() -> (c: LRUCache<(u16, u64), 32>)
    ensures
        message_entries(c) == Seq::<(u16, u64)>::empty(),
{
    LRUCache::default()
}

/// `LRUCache::find` with a predicate on source and hash, reporting whether an
/// entry matched: the first matching entry, in most recently used order, is
/// moved to the front; with none, the cache is unchanged.
#[verifier::external_body]
pub(crate) fn message_find(c: &mut LRUCache<(u16, u64), 32>, src: u16, hash: u64) -> (r: bool)
    ensures
        r == (exists|i: int| 0 <= i < message_entries(*old(c)).len() && #[trigger] message_entries(*old(c))[i] == (src, hash)),
        r ==> message_entries(*final(c)) == lru_touch(
            message_entries(*old(c)),
            choose|i: int| 0 <= i < message_entries(*old(c)).len() && #[trigger] message_entries(*old(c))[i] == (src, hash)
                && forall|j: int| 0 <= j < i ==> message_entries(*old(c))[j] != (src, hash),
        ),
        !r ==> message_entries(*final(c)) == message_entries(*old(c)),
{
    c.find(|e| message_entry_is(e, src, hash)).is_some()
}

/// `LRUCache::insert`: `v` comes first; a full cache drops its last entry.
#[verifier::external_body]
pub(crate) fn message_insert(c: &mut LRUCache<(u16, u64), 32>, v: (u16, u64))
    requires
        message_entries(*old(c)).len() <= 32,
    ensures
        message_entries(*final(c)) == lru_insert(message_entries(*old(c)), v),
{
    c.insert(v);
}

} // verus!
