//! The bounded recently-seen cache: a least-recently-used map from a
//! transaction id to the time it was first validated.

use lru::LruCache;
use std::num::NonZeroUsize;
use vstd::prelude::*;

verus! {

/// `lru::LruCache`, taken as it is: nothing of its inside is known here but
/// what the functions below say of it.
#[verifier::external_type_specification]
#[verifier::external_body]
#[verifier::reject_recursive_types(K)]
#[verifier::reject_recursive_types(V)]
#[verifier::reject_recursive_types(S)]
pub struct ExLruCache<K, V, S>(LruCache<K, V, S>);

/// `lru::DefaultHasher`, the hasher that a cache has where none is chosen.
#[verifier::external_type_specification]
#[verifier::external_body]
pub struct ExCacheHasher(lru::DefaultHasher);

/// What a cache holds: its entries, the most recently inserted first.
pub uninterp spec fn lru_entries(cache: LruCache<String, u64>) -> Seq<(Seq<char>, u64)>;

/// The number of entries a cache was made to hold at most.
pub uninterp spec fn lru_capacity(cache: LruCache<String, u64>) -> nat;

/// The position of the first entry with the given key, or the length of
/// the sequence where no entry has it.
pub open spec fn key_position(entries: Seq<(Seq<char>, u64)>, key: Seq<char>) -> int
    decreases entries.len(),
{
    if entries.len() == 0 {
        0
    } else if entries[0].0 == key {
        0
    } else {
        1 + key_position(entries.drop_first(), key)
    }
}

/// The value stored under a key, if any.
pub open spec fn entry_value(entries: Seq<(Seq<char>, u64)>, key: Seq<char>) -> Option<u64> {
    let at = key_position(entries, key);
    if at < entries.len() {
        Some(entries[at].1)
    } else {
        None
    }
}

/// The entries after a key has been put with a value: the pair moves to the
/// front; an older pair with that key is replaced, and otherwise, where the
/// cache is full, the entry at the back leaves.
pub open spec fn entries_after_put(
    entries: Seq<(Seq<char>, u64)>,
    capacity: nat,
    key: Seq<char>,
    value: u64,
) -> Seq<(Seq<char>, u64)> {
    let at = key_position(entries, key);
    if at < entries.len() {
        seq![(key, value)] + entries.remove(at)
    } else if entries.len() == capacity {
        seq![(key, value)] + entries.drop_last()
    } else {
        seq![(key, value)] + entries
    }
}

/// `LruCache::new` with a capacity that is not zero: the cache is empty and
/// holds at most `capacity` entries. The table for that many entries is
/// allocated at once; that the machine has the memory is not part of the
/// contract.
#[verifier::external_body]
pub(crate) fn lru_new(capacity: usize) -> (cache: LruCache<String, u64>)
    requires
        capacity > 0,
    ensures
        lru_entries(cache) == Seq::<(Seq<char>, u64)>::empty(),
        lru_capacity(cache) == capacity,
{
    LruCache::new(NonZeroUsize::new(capacity).unwrap())
}

/// `LruCache::peek`: the value under the key, without touching the order.
#[verifier::external_body]
pub(crate) fn lru_peek(cache: &LruCache<String, u64>, key: &str) -> (found: Option<u64>)
    ensures
        found == entry_value(lru_entries(*cache), key@),
{
    cache.peek(key).copied()
}

/// `LruCache::put`: the pair becomes the most recent entry; an entry with
/// the same key is replaced, else the least recent entry of a full cache is
/// dropped. The capacity stays. The result is the value replaced, if any.
#[verifier::external_body]
pub(crate) fn lru_put(cache: &mut LruCache<String, u64>, key: String, value: u64) -> (replaced: Option<u64>)
    ensures
        lru_entries(*final(cache)) == entries_after_put(
            lru_entries(*old(cache)),
            lru_capacity(*old(cache)),
            key@,
            value,
        ),
        lru_capacity(*final(cache)) == lru_capacity(*old(cache)),
        replaced == entry_value(lru_entries(*old(cache)), key@),
{
    cache.put(key, value)
}

/// No two entries have the same key.
pub open spec fn keys_distinct(entries: Seq<(Seq<char>, u64)>) -> bool {
    forall|i: int, j: int|
        0 <= i < j < entries.len() ==> (#[trigger] entries[i]).0 != (#[trigger] entries[j]).0
}

/// The entries are those of a cache of the given capacity: no more than it
/// holds, and no key twice.
pub open spec fn fits_cache(entries: Seq<(Seq<char>, u64)>, capacity: nat) -> bool {
    capacity > 0 && entries.len() <= capacity && keys_distinct(entries)
}

/// Where a key is found, it is the key of the entry at its position and of
/// none before it; where it is not found, no entry has it.
pub proof fn key_position_is_first(entries: Seq<(Seq<char>, u64)>, key: Seq<char>)
    ensures
        0 <= key_position(entries, key) <= entries.len(),
        key_position(entries, key) < entries.len() ==> entries[key_position(entries, key)].0
            == key,
        forall|j: int| 0 <= j < key_position(entries, key) ==> (#[trigger] entries[j]).0 != key,
    decreases entries.len(),
{
    if entries.len() > 0 && entries[0].0 != key {
        let rest = entries.drop_first();
        key_position_is_first(rest, key);
        assert forall|j: int| 0 <= j < key_position(entries, key) implies (#[trigger] entries[j]).0
            != key by {
            if j > 0 {
                assert(rest[j - 1] == entries[j]);
            }
        }
    }
}

/// Putting a key keeps a cache within its capacity and its keys distinct.
pub proof fn put_fits_cache(
    entries: Seq<(Seq<char>, u64)>,
    capacity: nat,
    key: Seq<char>,
    value: u64,
)
    requires
        fits_cache(entries, capacity),
    ensures
        fits_cache(entries_after_put(entries, capacity, key, value), capacity),
{
    key_position_is_first(entries, key);
    let at = key_position(entries, key);
    let after = entries_after_put(entries, capacity, key, value);
    let kept = if at < entries.len() {
        entries.remove(at)
    } else if entries.len() == capacity {
        entries.drop_last()
    } else {
        entries
    };
    assert(after =~= seq![(key, value)] + kept);
    assert forall|i: int| 0 <= i < kept.len() implies (#[trigger] kept[i]).0 != key by {
        if at < entries.len() {
            if i < at {
                assert(kept[i] == entries[i]);
            } else {
                assert(kept[i] == entries[i + 1]);
            }
        } else {
            assert(kept[i] == entries[i]);
        }
    }
    assert forall|i: int, j: int| 0 <= i < j < kept.len() implies (#[trigger] kept[i]).0
        != (#[trigger] kept[j]).0 by {
        if at < entries.len() {
            let si = if i < at {
                i
            } else {
                i + 1
            };
            let sj = if j < at {
                j
            } else {
                j + 1
            };
            assert(kept[i] == entries[si]);
            assert(kept[j] == entries[sj]);
        } else {
            assert(kept[i] == entries[i]);
            assert(kept[j] == entries[j]);
        }
    }
    assert forall|i: int, j: int| 0 <= i < j < after.len() implies (#[trigger] after[i]).0
        != (#[trigger] after[j]).0 by {
        assert(after[j] == kept[j - 1]);
        if i > 0 {
            assert(after[i] == kept[i - 1]);
        }
    }
}

/// The first entry with a key stands at the key's position.
pub proof fn first_match_is_position(entries: Seq<(Seq<char>, u64)>, key: Seq<char>, at: int)
    requires
        0 <= at < entries.len(),
        entries[at].0 == key,
        forall|j: int| 0 <= j < at ==> (#[trigger] entries[j]).0 != key,
    ensures
        key_position(entries, key) == at,
    decreases entries.len(),
{
    if at > 0 {
        let rest = entries.drop_first();
        assert(entries[0].0 != key);
        assert(rest[at - 1] == entries[at]);
        assert forall|j: int| 0 <= j < at - 1 implies (#[trigger] rest[j]).0 != key by {
            assert(rest[j] == entries[j + 1]);
        }
        first_match_is_position(rest, key, at - 1);
    }
}

/// No entry has the key: it is not found.
pub proof fn no_match_is_not_found(entries: Seq<(Seq<char>, u64)>, key: Seq<char>)
    requires
        forall|j: int| 0 <= j < entries.len() ==> (#[trigger] entries[j]).0 != key,
    ensures
        key_position(entries, key) == entries.len(),
    decreases entries.len(),
{
    if entries.len() > 0 {
        let rest = entries.drop_first();
        assert(entries[0].0 != key);
        assert forall|j: int| 0 <= j < rest.len() implies (#[trigger] rest[j]).0 != key by {
            assert(rest[j] == entries[j + 1]);
        }
        no_match_is_not_found(rest, key);
    }
}

/// Putting one key leaves the entry of another as it was, unless that
/// other entry is the one that a full cache drops: the entry at the back,
/// when the key that is put is new.
pub proof fn put_keeps_other_entries(
    entries: Seq<(Seq<char>, u64)>,
    capacity: nat,
    key: Seq<char>,
    value: u64,
    other: Seq<char>,
)
    requires
        fits_cache(entries, capacity),
        other != key,
        entry_value(entries, key) is Some || entries.len() < capacity || key_position(
            entries,
            other,
        ) != entries.len() - 1,
    ensures
        entry_value(entries_after_put(entries, capacity, key, value), other) == entry_value(
            entries,
            other,
        ),
{
    key_position_is_first(entries, key);
    key_position_is_first(entries, other);
    let at = key_position(entries, key);
    let found = key_position(entries, other);
    let after = entries_after_put(entries, capacity, key, value);
    assert(after[0] == (key, value));
    if found < entries.len() {
        let moved = if at < entries.len() && found < at {
            found + 1
        } else if at < entries.len() {
            found
        } else {
            found + 1
        };
        assert(after[moved] == entries[found]);
        assert forall|j: int| 0 <= j < moved implies (#[trigger] after[j]).0 != other by {
            if j > 0 {
                if at < entries.len() {
                    if j - 1 < at {
                        assert(after[j] == entries[j - 1]);
                    } else {
                        assert(after[j] == entries[j]);
                    }
                } else {
                    assert(after[j] == entries[j - 1]);
                }
            }
        }
        first_match_is_position(after, other, moved);
    } else {
        assert forall|j: int| 0 <= j < after.len() implies (#[trigger] after[j]).0 != other by {
            if j > 0 {
                if at < entries.len() {
                    if j - 1 < at {
                        assert(after[j] == entries[j - 1]);
                    } else {
                        assert(after[j] == entries[j]);
                    }
                } else {
                    assert(after[j] == entries[j - 1]);
                }
            }
        }
        no_match_is_not_found(after, other);
    }
}

} // verus!
