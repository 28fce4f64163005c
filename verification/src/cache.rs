//! Memory of the points whose membership was already decided.
//!
//! A result is stored under the iteration threshold that it was computed
//! with and the bit patterns of the two coordinates of its point. Two
//! queries meet in one entry exactly when their thresholds are equal and
//! their coordinates agree bit for bit, so a result never answers for
//! another threshold. An entry, once stored, is never removed and never
//! changed.

use crate::shared_map::{
    entries_of, shared_map_get, shared_map_insert, shared_map_new, CacheKey,
};
use dashmap::DashMap;
use std::collections::hash_map::RandomState;
use vstd::prelude::*;

verus! {

/// The entries after `inside` was offered for `key`: a key that has a
/// result keeps it, a new key gets `inside`.
pub open spec fn with_result(entries: Map<CacheKey, bool>, key: CacheKey, inside: bool) -> Map<
    CacheKey,
    bool,
> {
    if entries.contains_key(key) {
        entries
    } else {
        entries.insert(key, inside)
    }
}

/// Every entry of `earlier` is an entry of `later`, with the same result.
pub open spec fn kept_in(earlier: Map<CacheKey, bool>, later: Map<CacheKey, bool>) -> bool {
    forall|key: CacheKey| #[trigger]
        earlier.contains_key(key) ==> later.contains_key(key) && later[key] == earlier[key]
}

/// Every entry holds what `member` says of its threshold and point.
pub open spec fn agrees_with(entries: Map<CacheKey, bool>, member: spec_fn(CacheKey) -> bool) -> bool {
    forall|key: CacheKey| #[trigger] entries.contains_key(key) ==> entries[key] == member(key)
}

/// The answer of the cache for one point.
#[derive(Clone, Copy, Debug, PartialEq, Eq)]
pub struct Membership {
    /// Whether the point stays inside the set.
    pub inside: bool,
    /// Whether the answer was found in the cache.
    pub cached: bool,
}

/// The membership results of the points seen so far.
pub struct MembershipCache {
    map: DashMap<CacheKey, bool, RandomState>,
}

impl View for MembershipCache {
    type V = Map<CacheKey, bool>;

    closed spec fn view(&self) -> Map<CacheKey, bool> {
        entries_of(self.map)
    }
}

impl MembershipCache {
    /// A cache without entries.
    pub fn new() -> (cache: MembershipCache)
        ensures
            cache@ == Map::<CacheKey, bool>::empty(),
    {
        MembershipCache { map: shared_map_new() }
    }

    /// The result stored for the point `(x0, y0)` at `threshold`, if there
    /// is one.
    pub fn lookup(&self, threshold: usize, x0: u64, y0: u64) -> (known: Option<bool>)
        ensures
            known == (if self@.contains_key((threshold, x0, y0)) {
                Some(self@[(threshold, x0, y0)])
            } else {
                None::<bool>
            }),
    {
        shared_map_get(&self.map, (threshold, x0, y0))
    }

    /// Stores `inside` as the result for the point `(x0, y0)` at
    /// `threshold`, unless a result is stored for it already: that one
    /// stays. No other entry is touched.
    pub fn record(&mut self, threshold: usize, x0: u64, y0: u64, inside: bool)
        ensures
            final(self)@ == with_result(old(self)@, (threshold, x0, y0), inside),
            final(self)@.contains_key((threshold, x0, y0)),
            kept_in(old(self)@, final(self)@),
    {
        if shared_map_get(&self.map, (threshold, x0, y0)).is_none() {
            let _ = shared_map_insert(&mut self.map, (threshold, x0, y0), inside);
        }
    }

    /// Membership of the point `(x0, y0)` at `threshold` by way of the
    /// cache: a stored result is used as it is and `evaluate` is not
    /// called; otherwise `evaluate` decides, and its result is stored.
    /// Every entry that the cache held stays as it was.
    ///
    /// Where the cache holds only results of a function `member` and
    /// `evaluate` computes `member` at the threshold and the point, the
    /// result is `member` at the threshold and the point, found or not, and
    /// the cache still holds only results of `member`.
    pub fn membership<F: FnOnce() -> bool>(
        &mut self,
        threshold: usize,
        x0: u64,
        y0: u64,
        evaluate: F,
    ) -> (found: Membership)
        requires
            evaluate.requires(()),
        ensures
            found.cached == old(self)@.contains_key((threshold, x0, y0)),
            found.cached ==> found.inside == old(self)@[(threshold, x0, y0)],
            !found.cached ==> evaluate.ensures((), found.inside),
            final(self)@ == with_result(old(self)@, (threshold, x0, y0), found.inside),
            final(self)@.contains_key((threshold, x0, y0)),
            final(self)@[(threshold, x0, y0)] == found.inside,
            kept_in(old(self)@, final(self)@),
            forall|member: spec_fn(CacheKey) -> bool|
                #![trigger agrees_with(old(self)@, member)]
                agrees_with(old(self)@, member) && (forall|inside: bool|
                    evaluate.ensures((), inside) ==> inside == member((threshold, x0, y0)))
                    ==> found.inside == member((threshold, x0, y0)) && agrees_with(
                    final(self)@,
                    member,
                ),
    {
        match self.lookup(threshold, x0, y0) {
            Some(inside) => Membership { inside, cached: true },
            None => {
                let inside = evaluate();
                self.record(threshold, x0, y0, inside);
                Membership { inside, cached: false }
            },
        }
    }
}

/// Entries accumulate over the life of a cache: what it held at some
/// earlier time, and still held before a result was offered, it holds
/// afterwards, with the same results.
pub proof fn lemma_entries_accumulate(
    earlier: Map<CacheKey, bool>,
    before: Map<CacheKey, bool>,
    key: CacheKey,
    inside: bool,
)
    requires
        kept_in(earlier, before),
    ensures
        kept_in(earlier, with_result(before, key, inside)),
        with_result(before, key, inside).contains_key(key),
{
    assert forall|k: CacheKey| #[trigger] earlier.contains_key(k) implies with_result(
        before,
        key,
        inside,
    ).contains_key(k) && with_result(before, key, inside)[k] == earlier[k] by {
        assert(before.contains_key(k));
    }
}

/// A cache that holds only results of `member` is transparent: the result
/// stored for a point at a threshold is what `member` says of them, so the
/// cached and the direct evaluation agree; and the cache holds only results
/// of `member` after one more of them was offered.
pub proof fn lemma_cache_transparent(
    entries: Map<CacheKey, bool>,
    member: spec_fn(CacheKey) -> bool,
    key: CacheKey,
)
    requires
        agrees_with(entries, member),
    ensures
        entries.contains_key(key) ==> entries[key] == member(key),
        agrees_with(with_result(entries, key, member(key)), member),
{
}

/// A cache without entries holds only results of `member`, whatever
/// `member` is.
pub proof fn lemma_empty_cache_agrees(member: spec_fn(CacheKey) -> bool)
    ensures
        agrees_with(Map::<CacheKey, bool>::empty(), member),
{
}

} // verus!
