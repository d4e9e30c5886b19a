//! Behaviour of the cache store, exercised on concrete values.

use htmx_rs_template::cache::{
    get_from_cache, invalidate_cache, set_to_cache, CacheState, CacheStats, CacheTag, CacheValue,
    GetOutcome, DEFAULT_CACHE_TTL_MILLIS,
};
use htmx_rs_template::todos::Todo;

fn todo(id: i64, title: &str, completed: bool) -> Todo {
    Todo { id, title: title.to_string(), completed }
}

#[test]
fn get_before_any_set_is_none() {
    let cache = CacheState::new();
    assert_eq!(cache.get("never-written", CacheTag::Int, 0), None);
    assert_eq!(cache.get("never-written", CacheTag::Text, 123_456), None);
}

#[test]
fn get_right_after_set_returns_the_value() {
    let mut cache = CacheState::new();
    cache.set("answer", CacheValue::Int(42), Some(1_000), 10);
    assert_eq!(cache.get("answer", CacheTag::Int, 10), Some(CacheValue::Int(42)));
}

#[test]
fn get_after_ttl_elapsed_is_none() {
    let mut cache = CacheState::new();
    cache.set("answer", CacheValue::Int(42), Some(1_000), 10);
    assert_eq!(cache.get("answer", CacheTag::Int, 1_010), None);
    assert_eq!(cache.get("answer", CacheTag::Int, 5_000), None);
}

#[test]
fn get_just_before_deadline_still_hits() {
    let mut cache = CacheState::new();
    cache.set("answer", CacheValue::Int(42), Some(1_000), 10);
    assert_eq!(cache.get("answer", CacheTag::Int, 1_009), Some(CacheValue::Int(42)));
}

#[test]
fn invalidate_forces_a_miss_before_the_deadline() {
    let mut cache = CacheState::new();
    cache.set("fresh", CacheValue::Int(7), Some(1_000_000), 0);
    assert_eq!(cache.get("fresh", CacheTag::Int, 1), Some(CacheValue::Int(7)));
    cache.invalidate("fresh");
    assert_eq!(cache.get("fresh", CacheTag::Int, 1), None);
}

#[test]
fn set_after_invalidate_clears_staleness() {
    let mut cache = CacheState::new();
    cache.set("k", CacheValue::Int(1), Some(1_000), 0);
    cache.invalidate("k");
    cache.set("k", CacheValue::Int(2), Some(1_000), 5);
    assert_eq!(cache.get("k", CacheTag::Int, 5), Some(CacheValue::Int(2)));
}

#[test]
fn invalidate_twice_equals_invalidate_once() {
    let mut once = CacheState::new();
    let mut twice = CacheState::new();
    once.set("k", CacheValue::Int(1), Some(1_000), 0);
    twice.set("k", CacheValue::Int(1), Some(1_000), 0);
    once.invalidate("k");
    twice.invalidate("k");
    twice.invalidate("k");
    assert_eq!(once.get("k", CacheTag::Int, 0), twice.get("k", CacheTag::Int, 0));
    assert_eq!(once.is_invalid("k"), twice.is_invalid("k"));
    assert_eq!(once.entry_count(), twice.entry_count());
    once.set("k", CacheValue::Int(9), Some(1_000), 1);
    twice.set("k", CacheValue::Int(9), Some(1_000), 1);
    assert_eq!(once.get("k", CacheTag::Int, 1), twice.get("k", CacheTag::Int, 1));
}

#[test]
fn type_mismatch_is_a_miss_not_a_crash() {
    let mut cache = CacheState::new();
    cache.set("k", CacheValue::Int(42), Some(1_000), 0);
    assert_eq!(cache.get("k", CacheTag::Text, 0), None);
    assert_eq!(cache.get("k", CacheTag::Int, 0), Some(CacheValue::Int(42)));
}

#[test]
fn serialized_racing_sets_leave_exactly_the_last_value() {
    let mut cache = CacheState::new();
    let n: i64 = 16;
    for i in 0..n {
        cache.set("k", CacheValue::Int(i), Some(1_000), 0);
    }
    let got = cache.get("k", CacheTag::Int, 0);
    let mut winners = 0;
    for i in 0..n {
        if got == Some(CacheValue::Int(i)) {
            winners += 1;
        }
    }
    assert_eq!(winners, 1);
    assert_eq!(got, Some(CacheValue::Int(n - 1)));
}

#[test]
fn sweep_removes_invalidated_entry_and_key_stays_usable() {
    let mut cache = CacheState::new();
    cache.set("k", CacheValue::Int(1), Some(1_000_000), 0);
    assert!(cache.has_entry("k"));
    assert_eq!(cache.entry_count(), 1);
    cache.invalidate("k");
    cache.cleanup_expired();
    assert!(!cache.has_entry("k"));
    assert_eq!(cache.entry_count(), 0);
    cache.set("k", CacheValue::Int(2), Some(1_000), 10);
    assert_eq!(cache.get("k", CacheTag::Int, 10), Some(CacheValue::Int(2)));
}

#[test]
fn sweep_on_empty_store_and_empty_stale_set_is_a_noop() {
    let mut cache = CacheState::new();
    cache.cleanup_expired();
    assert_eq!(cache.entry_count(), 0);
    cache.set("a", CacheValue::Int(1), Some(1_000), 0);
    cache.cleanup_expired();
    assert_eq!(cache.entry_count(), 1);
    assert_eq!(cache.get("a", CacheTag::Int, 0), Some(CacheValue::Int(1)));
}

#[test]
fn sweep_leaves_the_stale_mark_in_place() {
    let mut cache = CacheState::new();
    cache.set("k", CacheValue::Int(1), Some(1_000), 0);
    cache.invalidate("k");
    cache.cleanup_expired();
    assert!(cache.is_invalid("k"));
    assert_eq!(cache.get("k", CacheTag::Int, 0), None);
}

#[test]
fn todos_end_to_end_scenario() {
    let mut cache = CacheState::new();
    let now0: u64 = 0;
    let item_a = todo(1, "write the report", false);
    cache.set(
        "todos",
        CacheValue::Todos(vec![item_a.clone()]),
        Some(900_000),
        now0,
    );
    assert_eq!(
        cache.get("todos", CacheTag::Todos, now0 + 5),
        Some(CacheValue::Todos(vec![item_a.clone()]))
    );

    // An external write path inserts item B and invalidates the key.
    let item_b = todo(2, "send the report", false);
    cache.invalidate("todos");
    assert_eq!(cache.get("todos", CacheTag::Todos, now0 + 10), None);

    // The recomputation path stores the new list.
    cache.set(
        "todos",
        CacheValue::Todos(vec![item_a.clone(), item_b.clone()]),
        Some(900_000),
        now0 + 20,
    );
    assert_eq!(
        cache.get("todos", CacheTag::Todos, now0 + 25),
        Some(CacheValue::Todos(vec![item_a, item_b]))
    );
}

#[test]
fn free_functions_mirror_the_methods() {
    let mut cache = CacheState::new();
    set_to_cache(&mut cache, "k", CacheValue::Text("v".to_string()), None, 0);
    assert_eq!(
        get_from_cache(&cache, "k", CacheTag::Text, 1),
        Some(CacheValue::Text("v".to_string()))
    );
    // The default duration applies when the write names none.
    assert_eq!(cache.get_default_duration(), DEFAULT_CACHE_TTL_MILLIS);
    assert_eq!(get_from_cache(&cache, "k", CacheTag::Text, DEFAULT_CACHE_TTL_MILLIS), None);
    invalidate_cache(&mut cache, "k");
    assert_eq!(get_from_cache(&cache, "k", CacheTag::Text, 1), None);
}

#[test]
fn write_without_duration_lives_for_the_default() {
    let mut cache = CacheState::new();
    cache.set("k", CacheValue::Int(5), None, 100);
    assert_eq!(
        cache.get("k", CacheTag::Int, 100 + DEFAULT_CACHE_TTL_MILLIS - 1),
        Some(CacheValue::Int(5))
    );
    assert_eq!(cache.get("k", CacheTag::Int, 100 + DEFAULT_CACHE_TTL_MILLIS), None);
}

#[test]
fn miss_reasons_are_reported_in_check_order() {
    let mut cache = CacheState::new();
    assert_eq!(cache.get_with_reason("k", CacheTag::Int, 0).1, GetOutcome::MissNotFound);
    cache.set("k", CacheValue::Int(1), Some(100), 0);
    assert_eq!(cache.get_with_reason("k", CacheTag::Int, 0).1, GetOutcome::Hit);
    assert_eq!(cache.get_with_reason("k", CacheTag::Text, 0).1, GetOutcome::MissTypeMismatch);
    assert_eq!(cache.get_with_reason("k", CacheTag::Int, 100).1, GetOutcome::MissExpired);
    cache.invalidate("k");
    assert_eq!(cache.get_with_reason("k", CacheTag::Int, 0).1, GetOutcome::MissStale);
}

#[test]
fn stats_count_each_outcome_under_its_own_counter() {
    let mut stats = CacheStats::new();
    stats.record_get(GetOutcome::Hit);
    stats.record_get(GetOutcome::Hit);
    stats.record_get(GetOutcome::MissNotFound);
    stats.record_get(GetOutcome::MissExpired);
    stats.record_get(GetOutcome::MissStale);
    stats.record_get(GetOutcome::MissTypeMismatch);
    stats.record_set();
    stats.record_invalidation();
    assert_eq!(stats.hits, 2);
    assert_eq!(stats.misses_not_found, 1);
    assert_eq!(stats.misses_expired, 1);
    assert_eq!(stats.misses_stale, 1);
    assert_eq!(stats.sets, 1);
    assert_eq!(stats.invalidations, 1);
}

#[test]
fn overwriting_an_existing_key_keeps_one_entry() {
    let mut cache = CacheState::new();
    cache.set("k", CacheValue::Int(1), Some(1_000), 0);
    cache.set("k", CacheValue::Int(2), Some(1_000), 0);
    assert_eq!(cache.entry_count(), 1);
    assert_eq!(cache.get("k", CacheTag::Int, 0), Some(CacheValue::Int(2)));
}

#[test]
fn distinct_keys_are_independent() {
    let mut cache = CacheState::new();
    cache.set("a", CacheValue::Int(1), Some(1_000), 0);
    cache.set("b", CacheValue::Int(2), Some(1_000), 0);
    cache.invalidate("a");
    assert_eq!(cache.get("a", CacheTag::Int, 0), None);
    assert_eq!(cache.get("b", CacheTag::Int, 0), Some(CacheValue::Int(2)));
    assert_eq!(cache.entry_count(), 2);
}
