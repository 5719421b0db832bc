//! Bounded FIFO cache of armored-block sightings.
//!
//! Sightings are kept in insertion order up to a fixed capacity; when a
//! new sighting would exceed it, the oldest entries leave first.
//! Duplicate fingerprints are neither coalesced nor refreshed: each
//! sighting ages out independently.

use std::collections::VecDeque;
use vstd::prelude::*;

use crate::text::str_eq;

verus! {

/// Model of one sighting: the fingerprint and the raw armored block.
pub struct SightingModel {
    pub id: Seq<char>,
    pub block: Seq<char>,
}

/// One observed occurrence of an armored block in an inbound event.
#[derive(Debug)]
pub struct Sighting {
    pub id: String,
    pub block: String,
}

impl View for Sighting {
    type V = SightingModel;

    open spec fn view(&self) -> SightingModel {
        SightingModel { id: self.id@, block: self.block@ }
    }
}

impl Clone for Sighting {
    fn clone(&self) -> (r: Self)
        ensures
            r@ == self@,
    {
        Sighting { id: self.id.clone(), block: self.block.clone() }
    }
}

/// Most sightings the cache retains at once.
pub const INBOX_CAPACITY: usize = 50;

/// What recording a sighting leaves in the cache: the sighting appended
/// at the tail, with just enough of the head evicted to stay within
/// capacity.
pub open spec fn spec_record(cache: Seq<SightingModel>, m: SightingModel) -> Seq<SightingModel> {
    let grown = cache.push(m);
    if grown.len() > INBOX_CAPACITY {
        grown.skip(grown.len() - INBOX_CAPACITY)
    } else {
        grown
    }
}

/// The block of the oldest sighting whose fingerprint is `id`, if any.
pub open spec fn spec_find(cache: Seq<SightingModel>, id: Seq<char>) -> Option<Seq<char>>
    decreases cache.len(),
{
    if cache.len() == 0 {
        None
    } else if cache.first().id == id {
        Some(cache.first().block)
    } else {
        spec_find(cache.drop_first(), id)
    }
}

/// Recording grows the cache by one until the capacity is reached and
/// holds it there afterwards: the cache never exceeds its bound.
pub proof fn lemma_record_len(cache: Seq<SightingModel>, m: SightingModel)
    requires
        cache.len() <= INBOX_CAPACITY,
    ensures
        spec_record(cache, m).len() == if cache.len() < INBOX_CAPACITY {
            cache.len() + 1
        } else {
            INBOX_CAPACITY as nat
        },
{
}

/// Eviction is strict FIFO: recording into a full cache drops exactly
/// the oldest sighting and appends the new one at the tail, keeping the
/// relative order of everything in between.
pub proof fn lemma_record_full_evicts_oldest(cache: Seq<SightingModel>, m: SightingModel)
    requires
        cache.len() == INBOX_CAPACITY,
    ensures
        spec_record(cache, m) == cache.drop_first().push(m),
{
    assert(spec_record(cache, m) =~= cache.drop_first().push(m));
}

/// Below capacity, recording is a plain append: nothing is evicted.
pub proof fn lemma_record_appends_below_capacity(cache: Seq<SightingModel>, m: SightingModel)
    requires
        cache.len() < INBOX_CAPACITY,
    ensures
        spec_record(cache, m) == cache.push(m),
{
}

/// Bounded FIFO store of sightings, insertion-ordered, deduplicated
/// only by eviction.
pub struct InboxCache {
    entries: VecDeque<Sighting>,
}

/// The models of a sequence of sightings, in order.
pub open spec fn views_of(s: Seq<Sighting>) -> Seq<SightingModel> {
    Seq::new(s.len(), |i: int| s[i]@)
}

impl View for InboxCache {
    type V = Seq<SightingModel>;

    closed spec fn view(&self) -> Seq<SightingModel> {
        views_of(self.entries@)
    }
}

impl InboxCache {
    /// An empty cache.
    pub fn new() -> (r: InboxCache)
        ensures
            r@ == Seq::<SightingModel>::empty(),
    {
        let r = InboxCache { entries: VecDeque::new() };
        assert(r@ =~= Seq::<SightingModel>::empty());
        r
    }

    /// How many sightings are cached.
    pub fn len(&self) -> (r: usize)
        ensures
            r == self@.len(),
    {
        self.entries.len()
    }

    /// Whether the cache holds no sighting.
    pub fn is_empty(&self) -> (r: bool)
        ensures
            r == (self@.len() == 0),
    {
        self.entries.len() == 0
    }

    /// Append a sighting at the tail, evicting from the head once the
    /// capacity is exceeded.
    pub fn record(&mut self, id: String, block: String)
        ensures
            final(self)@ == spec_record(old(self)@, SightingModel { id: id@, block: block@ }),
            final(self)@.len() <= INBOX_CAPACITY || final(self)@.len() == old(self)@.len() + 1,
    {
        let ghost m = SightingModel { id: id@, block: block@ };
        self.entries.push_back(Sighting { id, block });
        let ghost grown = old(self)@.push(m);
        proof {
            assert(self@ =~= grown);
        }
        while self.entries.len() > INBOX_CAPACITY
            invariant
                grown.len() >= self@.len(),
                self@ == grown.skip(grown.len() - self@.len()),
                self@.len() >= INBOX_CAPACITY || self@ == grown,
            decreases self.entries@.len(),
        {
            let ghost before = self@;
            let _ = self.entries.pop_front();
            proof {
                assert(self@ =~= before.drop_first());
                assert(self@ =~= grown.skip(grown.len() - self@.len()));
            }
        }
        proof {
            if grown.len() > INBOX_CAPACITY {
                assert(self@.len() == INBOX_CAPACITY);
            } else {
                assert(self@ =~= grown);
            }
        }
    }

    /// All cached sightings, oldest first.
    pub fn list(&self) -> (r: Vec<Sighting>)
        ensures
            views_of(r@) == self@,
    {
        let mut r: Vec<Sighting> = Vec::new();
        let n = self.entries.len();
        let mut i: usize = 0;
        while i < n
            invariant
                n == self@.len(),
                i <= n,
                views_of(r@) =~= self@.take(i as int),
            decreases n - i,
        {
            let ghost r_before = r@;
            let item = self.entries[i].clone();
            let ghost item_model = item@;
            assert(item_model == self@[i as int]);
            r.push(item);
            proof {
                assert(views_of(r_before).len() == r_before.len());
                assert(views_of(r_before).len() == self@.take(i as int).len());
                assert(r_before.len() == i);
                assert(r@.len() == i + 1);
                assert forall|k: int| 0 <= k < i + 1 implies views_of(r@)[k] == self@.take(
                    i + 1,
                )[k] by {
                    if k < i {
                        assert(r@[k] == r_before[k]);
                        assert(views_of(r_before)[k] == self@.take(i as int)[k]);
                    } else {
                        assert(r@[k]@ == item_model);
                    }
                }
                assert(views_of(r@) =~= self@.take(i + 1));
            }
            i += 1;
        }
        proof {
            assert(self@.take(n as int) =~= self@);
        }
        r
    }

    /// The block of the oldest sighting with fingerprint `id`, or
    /// nothing when the fingerprint was never recorded (or has been
    /// evicted).  The oldest match wins when duplicates exist.
    pub fn find(&self, id: &str) -> (r: Option<String>)
        ensures
            match r {
                Some(b) => spec_find(self@, id@) == Some(b@),
                None => spec_find(self@, id@) is None,
            },
    {
        let n = self.entries.len();
        let mut i: usize = 0;
        proof {
            assert(self@.skip(0) =~= self@);
        }
        while i < n
            invariant
                n == self@.len(),
                i <= n,
                spec_find(self@, id@) == spec_find(self@.skip(i as int), id@),
            decreases n - i,
        {
            proof {
                assert(self@.skip(i as int).first() == self@[i as int]);
                assert(self@.skip(i as int).drop_first() =~= self@.skip(i + 1));
            }
            if str_eq(self.entries[i].id.as_str(), id) {
                return Some(self.entries[i].block.clone());
            }
            i += 1;
        }
        proof {
            assert(self@.skip(n as int) =~= Seq::<SightingModel>::empty());
        }
        None
    }

    /// The most recent sighting, or nothing when the cache is empty.
    pub fn latest(&self) -> (r: Option<Sighting>)
        ensures
            match r {
                Some(s) => self@.len() > 0 && s@ == self@.last(),
                None => self@.len() == 0,
            },
    {
        let n = self.entries.len();
        if n == 0 {
            None
        } else {
            Some(self.entries[n - 1].clone())
        }
    }
}


} // verus!
