//! The discipline of the one-time-code cache, held in memory: entries expire,
//! a write replaces what is there, and an entry that is gone reads as one that
//! never was. The service that backs the cache in production keeps to the same
//! discipline; this model says what it is, and stands in for the service
//! where none is at hand.

use crate::flow::{Action, ActionView, Event, EventView};
use vstd::prelude::*;

verus! {

/// What the cache holds: for each key its value and the second at which the
/// entry expires.
pub type CacheModel = Map<Seq<char>, (Seq<char>, u64)>;

/// The second at which an entry written at `now` for `ttl_seconds` expires.
/// An entry with no time to live expires at once; the exchanges of this
/// library never ask for one.
pub open spec fn expiry(now: u64, ttl_seconds: i32) -> u64 {
    if ttl_seconds <= 0 {
        now
    } else if now + ttl_seconds > u64::MAX {
        u64::MAX
    } else {
        (now + ttl_seconds) as u64
    }
}

/// What a read of `key` yields at second `now`: the value, where there is an
/// entry and it has not expired.
pub open spec fn live(model: CacheModel, key: Seq<char>, now: u64) -> Option<Seq<char>> {
    if model.dom().contains(key) && now < model[key].1 {
        Some(model[key].0)
    } else {
        None
    }
}

/// One entry of the cache.
#[derive(Debug, Clone, PartialEq, Eq)]
pub struct CacheEntry {
    key: String,
    value: String,
    expires_at: u64,
}

/// An expiring key-value store in memory.
#[derive(Debug, Clone, PartialEq, Eq)]
pub struct CodeCache {
    entries: Vec<CacheEntry>,
}

/// The entry at index `i` is the one under `key`.
spec fn holds(entries: Seq<CacheEntry>, key: Seq<char>, i: int) -> bool {
    0 <= i < entries.len() && entries[i].key@ == key
}

/// No two entries share a key.
spec fn distinct(entries: Seq<CacheEntry>) -> bool {
    forall|i: int, j: int|
        0 <= i < j < entries.len() ==> #[trigger] entries[i].key@ != #[trigger] entries[j].key@
}

/// The map that a list of entries stands for.
spec fn model_of(entries: Seq<CacheEntry>) -> CacheModel {
    Map::new(
        |key: Seq<char>| exists|i: int| holds(entries, key, i),
        |key: Seq<char>|
            {
                let i = choose|i: int| holds(entries, key, i);
                (entries[i].value@, entries[i].expires_at)
            },
    )
}

/// Under distinct keys, the map holds each entry under its key.
proof fn lemma_model_at(entries: Seq<CacheEntry>, i: int)
    requires
        distinct(entries),
        0 <= i < entries.len(),
    ensures
        model_of(entries).dom().contains(entries[i].key@),
        model_of(entries)[entries[i].key@] == (entries[i].value@, entries[i].expires_at),
{
    let key = entries[i].key@;
    assert(holds(entries, key, i));
    let j = choose|j: int| holds(entries, key, j);
    assert(holds(entries, key, j));
    if j < i {
        assert(entries[j].key@ != entries[i].key@);
    } else if i < j {
        assert(entries[i].key@ != entries[j].key@);
    }
}

/// A key that no entry has is not in the map.
proof fn lemma_model_without(entries: Seq<CacheEntry>, key: Seq<char>)
    requires
        forall|i: int| 0 <= i < entries.len() ==> (#[trigger] entries[i]).key@ != key,
    ensures
        !model_of(entries).dom().contains(key),
{
    if model_of(entries).dom().contains(key) {
        let i = choose|i: int| holds(entries, key, i);
        assert(holds(entries, key, i));
        assert(entries[i].key@ != key);
    }
}

impl View for CodeCache {
    type V = CacheModel;

    closed spec fn view(&self) -> CacheModel {
        model_of(self.entries@)
    }
}

impl CodeCache {
    /// The invariant of the cache: no two entries share a key.
    pub closed spec fn wf(&self) -> bool {
        distinct(self.entries@)
    }

    /// An empty cache.
    pub fn new() -> (cache: Self)
        ensures
            cache.wf(),
            cache@ == Map::<Seq<char>, (Seq<char>, u64)>::empty(),
    {
        let cache = CodeCache { entries: Vec::new() };
        proof {
            assert(model_of(cache.entries@) =~= Map::<Seq<char>, (Seq<char>, u64)>::empty()) by {
                assert forall|key: Seq<char>| !model_of(cache.entries@).dom().contains(key) by {
                    lemma_model_without(cache.entries@, key);
                }
            }
        }
        cache
    }

    /// The index of the entry under `key`, if there is one.
    fn position(&self, key: &String) -> (found: Option<usize>)
        ensures
            match found {
                Some(i) => holds(self.entries@, key@, i as int),
                None => forall|i: int|
                    0 <= i < self.entries@.len() ==> (#[trigger] self.entries@[i]).key@ != key@,
            },
    {
        let mut i: usize = 0;
        while i < self.entries.len()
            invariant
                i <= self.entries@.len(),
                forall|k: int| 0 <= k < i ==> (#[trigger] self.entries@[k]).key@ != key@,
            decreases self.entries@.len() - i,
        {
            if self.entries[i].key == *key {
                return Some(i);
            }
            i = i + 1;
        }
        None
    }

    /// Reads the entry under `key` at second `now`.
    pub fn get(&self, key: &str, now: u64) -> (out: Option<String>)
        requires
            self.wf(),
        ensures
            match out {
                Some(value) => live(self@, key@, now) == Some(value@),
                None => live(self@, key@, now) is None,
            },
    {
        let wanted = String::from_str(key);
        match self.position(&wanted) {
            Some(i) => {
                proof {
                    lemma_model_at(self.entries@, i as int);
                }
                if now < self.entries[i].expires_at {
                    Some(self.entries[i].value.clone())
                } else {
                    None
                }
            },
            None => {
                proof {
                    lemma_model_without(self.entries@, key@);
                }
                None
            },
        }
    }

    /// Writes an entry at second `now`, over any that is there under the key,
    /// to expire after `ttl_seconds`.
    pub fn put(&mut self, key: &str, value: &str, ttl_seconds: i32, now: u64)
        requires
            old(self).wf(),
        ensures
            final(self).wf(),
            final(self)@ == old(self)@.insert(key@, (value@, expiry(now, ttl_seconds))),
    {
        let expires_at = if ttl_seconds <= 0 {
            now
        } else {
            now.saturating_add(ttl_seconds as u64)
        };
        let entry = CacheEntry {
            key: String::from_str(key),
            value: String::from_str(value),
            expires_at,
        };
        let ghost before = self.entries@;
        let ghost written = (value@, expiry(now, ttl_seconds));
        match self.position(&entry.key) {
            Some(i) => {
                self.entries.set(i, entry);
                proof {
                    let after = self.entries@;
                    assert forall|a: int, b: int| 0 <= a < b < after.len() implies after[a].key@
                        != after[b].key@ by {
                        assert(after[a].key@ == before[a].key@);
                        assert(after[b].key@ == before[b].key@);
                    }
                    assert forall|k: Seq<char>|
                        model_of(after).dom().contains(k) <==> model_of(before).insert(
                            key@,
                            written,
                        ).dom().contains(k) by {
                        if model_of(after).dom().contains(k) {
                            let j = choose|j: int| holds(after, k, j);
                            assert(holds(before, k, j));
                        }
                        if model_of(before).dom().contains(k) {
                            let j = choose|j: int| holds(before, k, j);
                            assert(holds(after, k, j));
                        }
                        if k == key@ {
                            assert(holds(after, k, i as int));
                        }
                    }
                    assert forall|k: Seq<char>| model_of(after).dom().contains(k) implies model_of(
                        after,
                    )[k] == model_of(before).insert(key@, written)[k] by {
                        let j = choose|j: int| holds(after, k, j);
                        lemma_model_at(after, j);
                        if k != key@ {
                            assert(holds(before, k, j));
                            lemma_model_at(before, j);
                        } else {
                            lemma_model_at(after, i as int);
                        }
                    }
                    assert(model_of(after) =~= model_of(before).insert(key@, written));
                }
            },
            None => {
                self.entries.push(entry);
                proof {
                    let after = self.entries@;
                    let last = after.len() - 1;
                    assert forall|a: int, b: int| 0 <= a < b < after.len() implies after[a].key@
                        != after[b].key@ by {
                        if b < last {
                            assert(after[a] == before[a] && after[b] == before[b]);
                        } else {
                            assert(after[a] == before[a]);
                        }
                    }
                    assert forall|k: Seq<char>|
                        model_of(after).dom().contains(k) <==> model_of(before).insert(
                            key@,
                            written,
                        ).dom().contains(k) by {
                        if model_of(after).dom().contains(k) {
                            let j = choose|j: int| holds(after, k, j);
                            if j < last {
                                assert(holds(before, k, j));
                            }
                        }
                        if model_of(before).dom().contains(k) {
                            let j = choose|j: int| holds(before, k, j);
                            assert(holds(after, k, j));
                        }
                        if k == key@ {
                            assert(holds(after, k, last));
                        }
                    }
                    assert forall|k: Seq<char>| model_of(after).dom().contains(k) implies model_of(
                        after,
                    )[k] == model_of(before).insert(key@, written)[k] by {
                        let j = choose|j: int| holds(after, k, j);
                        lemma_model_at(after, j);
                        if k != key@ {
                            assert(holds(before, k, j));
                            lemma_model_at(before, j);
                        } else {
                            lemma_model_at(after, last);
                        }
                    }
                    assert(model_of(after) =~= model_of(before).insert(key@, written));
                }
            },
        }
    }

    /// Removes the entry under `key`, if there is one.
    pub fn remove(&mut self, key: &str)
        requires
            old(self).wf(),
        ensures
            final(self).wf(),
            final(self)@ == old(self)@.remove(key@),
    {
        let wanted = String::from_str(key);
        let ghost before = self.entries@;
        match self.position(&wanted) {
            Some(i) => {
                self.entries.remove(i);
                proof {
                    let after = self.entries@;
                    assert forall|a: int| 0 <= a < after.len() implies after[a] == before[if a
                        < i {
                        a
                    } else {
                        a + 1
                    }] by {}
                    assert forall|a: int, b: int| 0 <= a < b < after.len() implies after[a].key@
                        != after[b].key@ by {
                        let a0 = if a < i { a } else { a + 1 };
                        let b0 = if b < i { b } else { b + 1 };
                        assert(after[a] == before[a0] && after[b] == before[b0]);
                    }
                    assert forall|a: int| 0 <= a < after.len() implies (#[trigger] after[a]).key@
                        != key@ by {
                        let a0 = if a < i { a } else { a + 1 };
                        assert(after[a] == before[a0]);
                        if a0 < i {
                            assert(before[a0].key@ != before[i as int].key@);
                        } else {
                            assert(before[i as int].key@ != before[a0].key@);
                        }
                    }
                    lemma_model_without(after, key@);
                    assert forall|k: Seq<char>|
                        model_of(after).dom().contains(k) <==> model_of(before).remove(
                            key@,
                        ).dom().contains(k) by {
                        if model_of(after).dom().contains(k) {
                            let j = choose|j: int| holds(after, k, j);
                            let j0 = if j < i { j } else { j + 1 };
                            assert(after[j] == before[j0]);
                            assert(holds(before, k, j0));
                        }
                        if model_of(before).dom().contains(k) && k != key@ {
                            let j0 = choose|j: int| holds(before, k, j);
                            let j = if j0 < i { j0 } else { j0 - 1 };
                            assert(after[j] == before[j0]);
                            assert(holds(after, k, j));
                        }
                    }
                    assert forall|k: Seq<char>| model_of(after).dom().contains(k) implies model_of(
                        after,
                    )[k] == model_of(before).remove(key@)[k] by {
                        let j = choose|j: int| holds(after, k, j);
                        let j0 = if j < i { j } else { j + 1 };
                        assert(after[j] == before[j0]);
                        lemma_model_at(after, j);
                        lemma_model_at(before, j0);
                    }
                    assert(model_of(after) =~= model_of(before).remove(key@));
                }
            },
            None => {
                proof {
                    lemma_model_without(before, key@);
                    assert(model_of(before) =~= model_of(before).remove(key@));
                }
            },
        }
    }
}

/// What the cache does on an action at second `now`, and the event it
/// answers with. An action that is not for the cache leaves it as it is and
/// gets no answer.
pub open spec fn performed(model: CacheModel, action: ActionView, now: u64) -> (
    CacheModel,
    Option<EventView>,
) {
    match action {
        ActionView::CacheGet { key } => (model, Some(EventView::Cached(live(model, key, now)))),
        ActionView::CachePut { key, value, ttl_seconds } => (
            model.insert(key, (value, expiry(now, ttl_seconds))),
            Some(EventView::Stored),
        ),
        ActionView::CacheDelete { key } => (model.remove(key), Some(EventView::Deleted)),
        _ => (model, None),
    }
}

impl CodeCache {
    /// Carries out an action on the cache at second `now`.
    pub fn perform(&mut self, action: &Action, now: u64) -> (event: Option<Event>)
        requires
            old(self).wf(),
        ensures
            final(self).wf(),
            final(self)@ == performed(old(self)@, action@, now).0,
            match event {
                Some(e) => performed(old(self)@, action@, now).1 == Some(e@),
                None => performed(old(self)@, action@, now).1 is None,
            },
    {
        match action {
            Action::CacheGet { key } => Some(Event::Cached(self.get(key.as_str(), now))),
            Action::CachePut { key, value, ttl_seconds } => {
                self.put(key.as_str(), value.as_str(), *ttl_seconds, now);
                Some(Event::Stored)
            },
            Action::CacheDelete { key } => {
                self.remove(key.as_str());
                Some(Event::Deleted)
            },
            _ => None,
        }
    }
}

/// An entry can be read back with the value written until its time to live
/// has passed, and not from then on. (The seconds are counted in sixty-four
/// bits; the law speaks of entries that expire within them.)
pub proof fn lemma_entry_expires(
    model: CacheModel,
    key: Seq<char>,
    value: Seq<char>,
    ttl_seconds: i32,
    now: u64,
    later: u64,
)
    requires
        now <= later,
        now + ttl_seconds <= u64::MAX,
    ensures
        later < now + ttl_seconds ==> live(
            model.insert(key, (value, expiry(now, ttl_seconds))),
            key,
            later,
        ) == Some(value),
        later >= now + ttl_seconds ==> live(
            model.insert(key, (value, expiry(now, ttl_seconds))),
            key,
            later,
        ) is None,
{
}

/// The last write wins: of two writes under one key only the second can be
/// read, and a write under one key leaves every other key as it was.
pub proof fn lemma_last_write_wins(
    model: CacheModel,
    key: Seq<char>,
    first: (Seq<char>, u64),
    second: (Seq<char>, u64),
    other: Seq<char>,
    now: u64,
)
    ensures
        model.insert(key, first).insert(key, second) == model.insert(key, second),
        other != key ==> live(model.insert(key, second), other, now) == live(model, other, now),
{
    assert(model.insert(key, first).insert(key, second) =~= model.insert(key, second));
}

/// An entry that was removed reads as one that never was, and removing it
/// leaves every other key as it was.
pub proof fn lemma_removed_is_absent(model: CacheModel, key: Seq<char>, other: Seq<char>, now: u64)
    ensures
        live(model.remove(key), key, now) is None,
        other != key ==> live(model.remove(key), other, now) == live(model, other, now),
{
}

} // verus!
