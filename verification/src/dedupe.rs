//! The in-memory cache of message ids that were already looked at.
//!
//! The cache keeps ids in the order in which they were first seen and
//! never holds an id twice. It is bounded: once it has grown past its
//! limit, compaction drops the oldest entries.

use vstd::prelude::*;

verus! {

/// Compaction sets in once the cache holds more than this many ids.
pub const CACHE_LIMIT: usize = 1000;

/// How many of the oldest ids compaction drops.
pub const CACHE_EVICT: usize = 500;

/// The ids that were already looked at, oldest first.
#[derive(Clone, Debug, PartialEq, Eq)]
pub struct DedupeCache {
    entries: Vec<String>,
}

/// `ids` with `id` added at the end, unless it is there already.
pub open spec fn remember(ids: Seq<Seq<char>>, id: Seq<char>) -> Seq<Seq<char>> {
    if ids.contains(id) {
        ids
    } else {
        ids.push(id)
    }
}

/// `ids` after compaction: without its oldest entries, if it has grown
/// past the limit.
pub open spec fn compacted(ids: Seq<Seq<char>>) -> Seq<Seq<char>> {
    if ids.len() > CACHE_LIMIT {
        ids.subrange(CACHE_EVICT as int, ids.len() as int)
    } else {
        ids
    }
}

impl View for DedupeCache {
    type V = Seq<Seq<char>>;

    closed spec fn view(&self) -> Seq<Seq<char>> {
        self.entries.deep_view()
    }
}

impl DedupeCache {
    /// An empty cache.
    pub fn new() -> (r: DedupeCache)
        ensures
            r@ == Seq::<Seq<char>>::empty(),
    {
        let r = DedupeCache { entries: Vec::new() };
        assert(r@ =~= Seq::<Seq<char>>::empty());
        r
    }

    /// How many ids the cache holds.
    pub fn len(&self) -> (r: usize)
        ensures
            r == self@.len(),
    {
        self.entries.len()
    }

    /// Whether `id` is in the cache.
    pub fn contains(&self, id: &str) -> (r: bool)
        ensures
            r == self@.contains(id@),
    {
        let wanted = id.to_owned();
        let mut i: usize = 0;
        while i < self.entries.len()
            invariant
                i <= self.entries.len(),
                wanted@ == id@,
                self@ == self.entries.deep_view(),
                forall|k: int| 0 <= k < i ==> self@[k] != id@,
            decreases self.entries.len() - i,
        {
            if self.entries[i] == wanted {
                assert(self@[i as int] == id@);
                return true;
            }
            i += 1;
        }
        false
    }

    /// Adds `id` as the most recent entry, unless it is there already. A
    /// cache that held no id twice still holds none twice.
    pub fn insert(&mut self, id: String)
        ensures
            old(self)@.no_duplicates() ==> final(self)@.no_duplicates(),
            final(self)@ == remember(old(self)@, id@),
    {
        if !self.contains(id.as_str()) {
            let ghost before = self@;
            self.entries.push(id);
            assert(self@ =~= before.push(id@));
        }
    }

    /// Drops the oldest entries if the cache has grown past its limit. A
    /// cache that held no id twice still holds none twice.
    pub fn compact(&mut self)
        ensures
            old(self)@.no_duplicates() ==> final(self)@.no_duplicates(),
            final(self)@ == compacted(old(self)@),
    {
        let n: usize = self.entries.len();
        if n > CACHE_LIMIT {
            let ghost before = self@;
            let kept = self.entries.split_off(CACHE_EVICT);
            self.entries = kept;
            assert(self@ =~= before.subrange(CACHE_EVICT as int, n as int));
        }
    }
}

/// After an id was added it is in the cache, and adding it again changes
/// nothing.
pub proof fn lemma_remember_is_idempotent(ids: Seq<Seq<char>>, id: Seq<char>)
    ensures
        remember(ids, id).contains(id),
        remember(remember(ids, id), id) == remember(ids, id),
{
    if !ids.contains(id) {
        assert(ids.push(id)[ids.len() as int] == id);
    }
}

/// Compaction leaves a cache within its limit where it was at most
/// `CACHE_EVICT` entries past it, and keeps the entries it keeps in
/// order.
pub proof fn lemma_compacted_bound(ids: Seq<Seq<char>>)
    requires
        ids.len() <= CACHE_LIMIT + CACHE_EVICT,
    ensures
        compacted(ids).len() <= CACHE_LIMIT,
{
}

} // verus!
