//! The revocation store: a key-value store whose entries may expire. The
//! services record in it which issued tokens are still good.

use vstd::prelude::*;
use vstd::string::*;

use crate::text::str_eq;

verus! {

/// What the store holds under one key: a value, and the instant from which
/// the entry is gone, if it has one (seconds since the Unix epoch).
#[derive(Clone, Copy, Debug, PartialEq, Eq, Structural)]
pub struct CacheEntry {
    pub value: i32,
    pub expires_at: Option<i64>,
}

/// The contents of a store: keys to entries, expired ones included.
pub type CacheView = Map<Seq<char>, CacheEntry>;

/// Whether an entry is still there at the instant `now`.
pub open spec fn entry_live(e: CacheEntry, now: i64) -> bool {
    match e.expires_at {
        Some(t) => now < t,
        None => true,
    }
}

/// The value that a reader finds under `key` at the instant `now`.
pub open spec fn live_value(entries: CacheView, key: Seq<char>, now: i64) -> Option<i32> {
    if entries.contains_key(key) && entry_live(entries[key], now) {
        Some(entries[key].value)
    } else {
        None
    }
}

/// The instant `seconds` after `now`, or the last instant there is.
pub open spec fn expiry(now: i64, seconds: usize) -> i64 {
    if now + seconds > i64::MAX {
        i64::MAX
    } else {
        (now + seconds) as i64
    }
}

/// The expiry that an overwrite of `key` at the instant `now` keeps: that of
/// the entry that is there, and none where no entry is there.
pub open spec fn kept_expiry(entries: CacheView, key: Seq<char>, now: i64) -> Option<i64> {
    if entries.contains_key(key) && entry_live(entries[key], now) {
        entries[key].expires_at
    } else {
        None
    }
}

/// The store after `key` was set to `value`, never to expire.
pub open spec fn after_set(entries: CacheView, key: Seq<char>, value: i32) -> CacheView {
    entries.insert(key, CacheEntry { value, expires_at: None })
}

/// What asking for the expiry of `key` at the instant `now` tells: the
/// instant from which the entry is gone; -1 for an entry that never expires;
/// -2 where no entry is there.
pub open spec fn expire_time(entries: CacheView, key: Seq<char>, now: i64) -> i64 {
    if entries.contains_key(key) && entry_live(entries[key], now) {
        match entries[key].expires_at {
            Some(t) => t,
            None => -1i64,
        }
    } else {
        -2i64
    }
}

/// The store after `key` was set to `value` for `seconds` from `now`.
pub open spec fn after_set_and_expire(
    entries: CacheView,
    key: Seq<char>,
    value: i32,
    seconds: usize,
    now: i64,
) -> CacheView {
    entries.insert(key, CacheEntry { value, expires_at: Some(expiry(now, seconds)) })
}

/// The store after `key` was overwritten with `value` at the instant `now`,
/// its expiry kept.
pub open spec fn after_set_keepttl(
    entries: CacheView,
    key: Seq<char>,
    value: i32,
    now: i64,
) -> CacheView {
    entries.insert(key, CacheEntry { value, expires_at: kept_expiry(entries, key, now) })
}

/// A value that was set to expire is found until it expires, and not
/// after.
pub proof fn lemma_set_value_lives_until_expiry(
    entries: CacheView,
    key: Seq<char>,
    value: i32,
    seconds: usize,
    now: i64,
    later: i64,
)
    ensures
        live_value(after_set_and_expire(entries, key, value, seconds, now), key, later) == if later
            < expiry(now, seconds) {
            Some(value)
        } else {
            None
        },
{
}

/// An overwrite that keeps the expiry changes the value that is found, and
/// not until when it is found: an entry that was there at the instant of the
/// overwrite is found exactly as long as before.
pub proof fn lemma_overwrite_keeps_lifetime(
    entries: CacheView,
    key: Seq<char>,
    value: i32,
    now: i64,
    later: i64,
)
    requires
        live_value(entries, key, now) is Some,
        now <= later,
    ensures
        live_value(after_set_keepttl(entries, key, value, now), key, later) == if live_value(
            entries,
            key,
            later,
        ) is Some {
            Some(value)
        } else {
            None
        },
{
}

/// Setting or overwriting one key changes what is found under no other.
pub proof fn lemma_other_keys_are_untouched(
    entries: CacheView,
    key: Seq<char>,
    value: i32,
    seconds: usize,
    now: i64,
    other: Seq<char>,
    later: i64,
)
    requires
        other != key,
    ensures
        live_value(after_set_and_expire(entries, key, value, seconds, now), other, later)
            == live_value(entries, other, later),
        live_value(after_set_keepttl(entries, key, value, now), other, later) == live_value(
            entries,
            other,
            later,
        ),
{
}

/// The instant `seconds` after `now`, or the last instant there is.
pub fn expiry_of(now: i64, seconds: usize) -> (r: i64)
    ensures
        r == expiry(now, seconds),
{
    let wide: i128 = now as i128 + seconds as i128;
    if wide > i64::MAX as i128 {
        i64::MAX
    } else {
        wide as i64
    }
}

/// A key-value store with expiry. Every operation is told the instant at
/// which it happens.
///
/// The contracts speak of the contents of the store, which a verified
/// implementation defines. One that is written outside verified code keeps
/// the default, of which nothing is known, and answers for the contracts
/// itself.
pub trait RevocationStore {
    /// The contents of the store.
    open spec fn entries(&self) -> CacheView {
        arbitrary()
    }

    /// The value under `key`, unless it has expired.
    fn get(&self, key: &str, now: i64) -> (r: Option<i32>)
        ensures
            r == live_value(self.entries(), key@, now),
    ;

    /// The instant from which the entry under `key` is gone; -1 for an entry
    /// that never expires; -2 where no entry is there.
    fn get_expiretime(&self, key: &str, now: i64) -> (r: i64)
        ensures
            r == expire_time(self.entries(), key@, now),
    ;

    /// Sets `key` to `value`, never to expire.
    fn set(&mut self, key: &str, value: i32)
        ensures
            final(self).entries() == after_set(old(self).entries(), key@, value),
    ;

    /// Sets `key` to `value`, to expire `seconds` from `now`.
    fn set_and_expire(&mut self, key: &str, value: i32, seconds: usize, now: i64)
        ensures
            final(self).entries() == after_set_and_expire(
                old(self).entries(),
                key@,
                value,
                seconds,
                now,
            ),
    ;

    /// Overwrites `key` with `value` and keeps its expiry.
    fn set_keepttl(&mut self, key: &str, value: i32, now: i64)
        ensures
            final(self).entries() == after_set_keepttl(old(self).entries(), key@, value, now),
    ;
}

/// One slot of the in-memory store.
struct Slot {
    key: String,
    entry: CacheEntry,
}

/// A revocation store in memory.
pub struct MemoryCache {
    slots: Vec<Slot>,
}

/// Whether no two slots share a key.
spec fn distinct_keys(slots: Seq<Slot>) -> bool {
    forall|i: int, j: int|
        0 <= i < slots.len() && 0 <= j < slots.len() && i != j ==> (#[trigger] slots[i]).key@ != (
        #[trigger] slots[j]).key@
}

/// Whether some slot has the key.
spec fn has_key(slots: Seq<Slot>, key: Seq<char>) -> bool {
    exists|i: int| 0 <= i < slots.len() && (#[trigger] slots[i]).key@ == key
}

/// The index of a slot with the key.
spec fn slot_of(slots: Seq<Slot>, key: Seq<char>) -> int {
    choose|i: int| 0 <= i < slots.len() && (#[trigger] slots[i]).key@ == key
}

/// The contents that a list of slots stands for.
spec fn slots_view(slots: Seq<Slot>) -> CacheView {
    Map::new(|k: Seq<char>| has_key(slots, k), |k: Seq<char>| slots[slot_of(slots, k)].entry)
}

proof fn lemma_slot_found(slots: Seq<Slot>, i: int)
    requires
        distinct_keys(slots),
        0 <= i < slots.len(),
    ensures
        has_key(slots, slots[i].key@),
        slot_of(slots, slots[i].key@) == i,
        slots_view(slots).contains_key(slots[i].key@),
        slots_view(slots)[slots[i].key@] == slots[i].entry,
{
    let k = slots[i].key@;
    assert(has_key(slots, k));
    let j = slot_of(slots, k);
    assert(0 <= j < slots.len() && slots[j].key@ == k);
    if i != j {
        assert(slots[i].key@ != slots[j].key@);
    }
}

impl MemoryCache {
    #[verifier::type_invariant]
    spec fn well_formed(self) -> bool {
        distinct_keys(self.slots@)
    }

    /// An empty store.
    pub fn new() -> (r: MemoryCache)
        ensures
            r.entries() == Map::<Seq<char>, CacheEntry>::empty(),
    {
        let r = MemoryCache { slots: Vec::new() };
        assert(r.entries() =~= Map::<Seq<char>, CacheEntry>::empty());
        r
    }

    /// The number of keys in the store, expired ones included.
    pub fn len(&self) -> (r: usize)
        ensures
            r == self.entries().dom().len(),
            self.entries().dom().finite(),
    {
        proof {
            use_type_invariant(self);
            lemma_slots_dom(self.slots@);
        }
        self.slots.len()
    }

    /// The index of the slot that holds `key`.
    fn position(&self, key: &str) -> (r: Option<usize>)
        ensures
            match r {
                Some(i) => i < self.slots@.len() && self.slots@[i as int].key@ == key@,
                None => !has_key(self.slots@, key@),
            },
    {
        let mut i: usize = 0;
        while i < self.slots.len()
            invariant
                0 <= i <= self.slots@.len(),
                forall|j: int| 0 <= j < i ==> (#[trigger] self.slots@[j]).key@ != key@,
            decreases self.slots@.len() - i,
        {
            if str_eq(self.slots[i].key.as_str(), key) {
                return Some(i);
            }
            i = i + 1;
        }
        None
    }

    /// Puts `entry` under `key`.
    fn put(&mut self, key: &str, entry: CacheEntry)
        ensures
            final(self).entries() == old(self).entries().insert(key@, entry),
    {
        proof {
            use_type_invariant(&*self);
        }
        let ghost before = self.slots@;
        let found = self.position(key);
        let mut slots: Vec<Slot> = Vec::new();
        std::mem::swap(&mut slots, &mut self.slots);
        match found {
            Some(i) => {
                let slot = Slot { key: slots[i].key.clone(), entry };
                slots.set(i, slot);
                proof {
                    let after = slots@;
                    assert(distinct_keys(after)) by {
                        assert forall|a: int, b: int|
                            0 <= a < after.len() && 0 <= b < after.len() && a != b implies (
                        #[trigger] after[a]).key@ != (#[trigger] after[b]).key@ by {
                            assert(after[a].key@ == before[a].key@);
                            assert(after[b].key@ == before[b].key@);
                        }
                    }
                    assert forall|k: Seq<char>| has_key(after, k) == has_key(before, k) by {
                        if has_key(after, k) {
                            let j = slot_of(after, k);
                            assert(before[j].key@ == k);
                        }
                        if has_key(before, k) {
                            let j = slot_of(before, k);
                            assert(after[j].key@ == k);
                        }
                    }
                    lemma_slot_found(before, i as int);
                    assert forall|k: Seq<char>| has_key(after, k) implies #[trigger] slots_view(
                        after,
                    )[k] == slots_view(before).insert(key@, entry)[k] by {
                        let j = slot_of(after, k);
                        lemma_slot_found(after, j);
                        lemma_slot_found(before, j);
                    }
                    assert(slots_view(after) =~= slots_view(before).insert(key@, entry));
                }
            },
            None => {
                slots.push(Slot { key: key.to_owned(), entry });
                proof {
                    let after = slots@;
                    let n = before.len() as int;
                    assert(distinct_keys(after)) by {
                        assert forall|a: int, b: int|
                            0 <= a < after.len() && 0 <= b < after.len() && a != b implies (
                        #[trigger] after[a]).key@ != (#[trigger] after[b]).key@ by {
                            if a < n {
                                assert(after[a] == before[a]);
                            }
                            if b < n {
                                assert(after[b] == before[b]);
                            }
                        }
                    }
                    assert forall|k: Seq<char>| has_key(after, k) == (has_key(before, k) || k
                        == key@) by {
                        if has_key(after, k) {
                            let j = slot_of(after, k);
                            if j < n {
                                assert(before[j].key@ == k);
                            }
                        }
                        if has_key(before, k) {
                            let j = slot_of(before, k);
                            assert(after[j].key@ == k);
                        }
                        if k == key@ {
                            assert(after[n].key@ == k);
                        }
                    }
                    assert forall|k: Seq<char>| has_key(after, k) implies #[trigger] slots_view(
                        after,
                    )[k] == slots_view(before).insert(key@, entry)[k] by {
                        let j = slot_of(after, k);
                        lemma_slot_found(after, j);
                        if j < n {
                            assert(after[j] == before[j]);
                            lemma_slot_found(before, j);
                        }
                    }
                    assert(slots_view(after) =~= slots_view(before).insert(key@, entry));
                }
            },
        }
        self.slots = slots;
    }
}

/// The keys of the view are as many as the slots.
proof fn lemma_slots_dom(slots: Seq<Slot>)
    requires
        distinct_keys(slots),
    ensures
        slots_view(slots).dom().finite(),
        slots_view(slots).dom().len() == slots.len(),
    decreases slots.len(),
{
    if slots.len() == 0 {
        assert(slots_view(slots).dom() =~= Set::<Seq<char>>::empty());
    } else {
        let rest = slots.drop_last();
        let last = slots.last();
        assert(distinct_keys(rest)) by {
            assert forall|a: int, b: int|
                0 <= a < rest.len() && 0 <= b < rest.len() && a != b implies (
            #[trigger] rest[a]).key@ != (#[trigger] rest[b]).key@ by {
                assert(rest[a] == slots[a]);
                assert(rest[b] == slots[b]);
            }
        }
        lemma_slots_dom(rest);
        assert(!has_key(rest, last.key@)) by {
            if has_key(rest, last.key@) {
                let j = slot_of(rest, last.key@);
                assert(rest[j] == slots[j]);
                assert(slots[j].key@ != slots[slots.len() - 1].key@);
            }
        }
        assert(slots_view(slots).dom() =~= slots_view(rest).dom().insert(last.key@)) by {
            assert forall|k: Seq<char>| has_key(slots, k) == (has_key(rest, k) || k
                == last.key@) by {
                if has_key(slots, k) {
                    let j = slot_of(slots, k);
                    if j < rest.len() {
                        assert(rest[j].key@ == k);
                    }
                }
                if has_key(rest, k) {
                    let j = slot_of(rest, k);
                    assert(slots[j].key@ == k);
                }
                if k == last.key@ {
                    assert(slots[slots.len() - 1].key@ == k);
                }
            }
        }
    }
}

impl RevocationStore for MemoryCache {
    closed spec fn entries(&self) -> CacheView {
        slots_view(self.slots@)
    }

    fn get(&self, key: &str, now: i64) -> (r: Option<i32>) {
        proof {
            use_type_invariant(self);
        }
        match self.position(key) {
            Some(i) => {
                proof {
                    lemma_slot_found(self.slots@, i as int);
                }
                let entry = self.slots[i].entry;
                let live = match entry.expires_at {
                    Some(t) => now < t,
                    None => true,
                };
                if live {
                    Some(entry.value)
                } else {
                    None
                }
            },
            None => None,
        }
    }

    fn get_expiretime(&self, key: &str, now: i64) -> (r: i64) {
        proof {
            use_type_invariant(self);
        }
        match self.position(key) {
            Some(i) => {
                proof {
                    lemma_slot_found(self.slots@, i as int);
                }
                match self.slots[i].entry.expires_at {
                    Some(t) => if now < t {
                        t
                    } else {
                        -2
                    },
                    None => -1,
                }
            },
            None => -2,
        }
    }

    fn set(&mut self, key: &str, value: i32) {
        self.put(key, CacheEntry { value, expires_at: None });
    }

    fn set_and_expire(&mut self, key: &str, value: i32, seconds: usize, now: i64) {
        let expires_at = Some(expiry_of(now, seconds));
        self.put(key, CacheEntry { value, expires_at });
    }

    fn set_keepttl(&mut self, key: &str, value: i32, now: i64) {
        proof {
            use_type_invariant(&*self);
        }
        let expires_at = match self.position(key) {
            Some(i) => {
                proof {
                    lemma_slot_found(self.slots@, i as int);
                }
                let entry = self.slots[i].entry;
                match entry.expires_at {
                    Some(t) => if now < t {
                        Some(t)
                    } else {
                        None
                    },
                    None => None,
                }
            },
            None => None,
        };
        self.put(key, CacheEntry { value, expires_at });
    }
}

/// The value under `key`; or, where none is found, the value that `make`
/// gives, which is then set, never to expire.
pub fn get_or_set<C: RevocationStore, F: FnOnce() -> i32>(
    cache: &mut C,
    key: &str,
    now: i64,
    make: F,
) -> (r: i32)
    requires
        make.requires(()),
    ensures
        match live_value(old(cache).entries(), key@, now) {
            Some(value) => r == value && final(cache).entries() == old(cache).entries(),
            None => make.ensures((), r) && final(cache).entries() == after_set(
                old(cache).entries(),
                key@,
                r,
            ),
        },
{
    match cache.get(key, now) {
        Some(value) => value,
        None => {
            let value = make();
            cache.set(key, value);
            value
        },
    }
}

} // verus!
