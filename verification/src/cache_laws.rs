//! Laws of the cache store, proved once and for all over its model.
//!
//! Each proof function here states one observable guarantee of the store in
//! terms of the model transitions [`spec_set`], [`spec_invalidate`],
//! [`spec_reset`] and [`spec_sweep`], and the observation [`spec_get`] —
//! exactly the spec functions the executable operations are proved against.

use crate::cache::{
    spec_get, spec_invalidate, spec_reset, spec_set, spec_sweep, spec_ttl, tag_of, CacheModel,
    CacheTag, CacheValueModel,
};
use vstd::prelude::*;

verus! {

/// A read of an absent key misses, whatever the tag and the clock; in
/// particular a key never written — absent in the initial model and kept
/// absent by every operation other than a write of that very key (see
/// [`lemma_absence_preserved`]) — always reads as nothing.
pub proof fn lemma_get_miss_when_absent(m: CacheModel, k: Seq<char>, t: CacheTag, now: u64)
    requires
        !m.entries.contains_key(k),
    ensures
        spec_get(m, k, t, now) is None,
{
}

/// No operation but a write of `k` itself gives `k` an entry: writes of other
/// keys, invalidations, mark resets and sweep passes all keep it absent.
pub proof fn lemma_absence_preserved(
    m: CacheModel,
    k: Seq<char>,
    k2: Seq<char>,
    v: CacheValueModel,
    ttl: Option<u64>,
    now: u64,
)
    requires
        !m.entries.contains_key(k),
        k2 != k,
    ensures
        !spec_set(m, k2, v, ttl, now).entries.contains_key(k),
        !spec_invalidate(m, k2).entries.contains_key(k),
        !spec_reset(m, k2).entries.contains_key(k),
        !spec_sweep(m).entries.contains_key(k),
{
}

/// Immediately after a write with a positive duration, a read of the same key
/// under the stored tag returns exactly the written value — whatever entry or
/// staleness mark the key had before.
pub proof fn lemma_set_then_get(
    m: CacheModel,
    k: Seq<char>,
    v: CacheValueModel,
    ttl: Option<u64>,
    now: u64,
)
    requires
        spec_ttl(ttl, m.default_ttl) > 0,
        now + spec_ttl(ttl, m.default_ttl) <= u64::MAX,
    ensures
        spec_get(spec_set(m, k, v, ttl, now), k, tag_of(v), now) == Some(v),
{
}

/// Once the write's duration has fully elapsed, a read of the key misses,
/// whatever tag it asks for.
pub proof fn lemma_get_miss_after_expiry(
    m: CacheModel,
    k: Seq<char>,
    v: CacheValueModel,
    ttl: Option<u64>,
    now: u64,
    later: u64,
    t: CacheTag,
)
    requires
        now + spec_ttl(ttl, m.default_ttl) <= u64::MAX,
        later >= now + spec_ttl(ttl, m.default_ttl),
    ensures
        spec_get(spec_set(m, k, v, ttl, now), k, t, later) is None,
{
}

/// After an invalidation, a read of the key misses — even when its entry's
/// deadline has not elapsed — until the next write of that key.
pub proof fn lemma_invalidate_then_get(m: CacheModel, k: Seq<char>, t: CacheTag, now: u64)
    ensures
        spec_get(spec_invalidate(m, k), k, t, now) is None,
{
}

/// A write supersedes an invalidation: writing after marking the key stale
/// clears the mark, so an immediate read returns the new value.
pub proof fn lemma_set_clears_staleness(
    m: CacheModel,
    k: Seq<char>,
    v: CacheValueModel,
    ttl: Option<u64>,
    now: u64,
)
    requires
        spec_ttl(ttl, m.default_ttl) > 0,
        now + spec_ttl(ttl, m.default_ttl) <= u64::MAX,
    ensures
        spec_get(spec_set(spec_invalidate(m, k), k, v, ttl, now), k, tag_of(v), now) == Some(v),
{
    lemma_set_then_get(spec_invalidate(m, k), k, v, ttl, now);
}

/// Invalidating twice in a row leaves the very state one invalidation leaves.
pub proof fn lemma_invalidate_idempotent(m: CacheModel, k: Seq<char>)
    ensures
        spec_invalidate(spec_invalidate(m, k), k) == spec_invalidate(m, k),
{
    assert(m.stale.insert(k).insert(k) =~= m.stale.insert(k));
    assert(spec_invalidate(spec_invalidate(m, k), k) =~= spec_invalidate(m, k));
}

/// A read asking for a tag other than the stored one misses; a mismatched
/// type is a plain miss, never a fault.
pub proof fn lemma_get_miss_on_type_mismatch(m: CacheModel, k: Seq<char>, t: CacheTag, now: u64)
    requires
        m.entries.contains_key(k),
        t != tag_of(m.entries[k].value),
    ensures
        spec_get(m, k, t, now) is None,
{
}

/// The model after writing each value of `vals` in turn under one key.
pub open spec fn spec_set_all(
    m: CacheModel,
    k: Seq<char>,
    vals: Seq<CacheValueModel>,
    ttl: Option<u64>,
    now: u64,
) -> CacheModel
    decreases vals.len(),
{
    if vals.len() == 0 {
        m
    } else {
        spec_set(spec_set_all(m, k, vals.drop_last(), ttl, now), k, vals.last(), ttl, now)
    }
}

/// Writes never touch the default duration.
pub proof fn lemma_set_all_keeps_default_ttl(
    m: CacheModel,
    k: Seq<char>,
    vals: Seq<CacheValueModel>,
    ttl: Option<u64>,
    now: u64,
)
    ensures
        spec_set_all(m, k, vals, ttl, now).default_ttl == m.default_ttl,
    decreases vals.len(),
{
    if vals.len() > 0 {
        lemma_set_all_keeps_default_ttl(m, k, vals.drop_last(), ttl, now);
    }
}

/// However many writes of one key run in turn — in whatever order a race was
/// serialised — the store holds one consistent entry: a read returns exactly
/// the value of the write that completed last.
pub proof fn lemma_last_write_wins(
    m: CacheModel,
    k: Seq<char>,
    vals: Seq<CacheValueModel>,
    ttl: Option<u64>,
    now: u64,
)
    requires
        vals.len() > 0,
        spec_ttl(ttl, m.default_ttl) > 0,
        now + spec_ttl(ttl, m.default_ttl) <= u64::MAX,
    ensures
        spec_get(spec_set_all(m, k, vals, ttl, now), k, tag_of(vals.last()), now) == Some(
            vals.last(),
        ),
{
    let prev = spec_set_all(m, k, vals.drop_last(), ttl, now);
    lemma_set_all_keeps_default_ttl(m, k, vals.drop_last(), ttl, now);
    lemma_set_then_get(prev, k, vals.last(), ttl, now);
}

/// Write, invalidate, sweep: the sweep removes the entry, and the key then
/// accepts a fresh write exactly as an untouched key would.
pub proof fn lemma_sweep_reclaims_invalidated(
    m: CacheModel,
    k: Seq<char>,
    v: CacheValueModel,
    ttl: Option<u64>,
    now: u64,
    v2: CacheValueModel,
    ttl2: Option<u64>,
    now2: u64,
)
    requires
        spec_ttl(ttl2, m.default_ttl) > 0,
        now2 + spec_ttl(ttl2, m.default_ttl) <= u64::MAX,
    ensures
        !spec_sweep(spec_invalidate(spec_set(m, k, v, ttl, now), k)).entries.contains_key(k),
        spec_get(
            spec_set(
                spec_sweep(spec_invalidate(spec_set(m, k, v, ttl, now), k)),
                k,
                v2,
                ttl2,
                now2,
            ),
            k,
            tag_of(v2),
            now2,
        ) == Some(v2),
{
    let swept = spec_sweep(spec_invalidate(spec_set(m, k, v, ttl, now), k));
    lemma_set_then_get(swept, k, v2, ttl2, now2);
}

} // verus!
