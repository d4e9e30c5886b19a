//! The page cache, the landing plugin, migrations and health reporting.

use htmx_rs_template::db::{migrations, pending_migrations};
use htmx_rs_template::landing::{LandingConfig, LandingPlugin, Stats};
use htmx_rs_template::monitoring::{health_check_response, status_is_success};
use htmx_rs_template::pages::{invalidate_todo_cache, invalidate_user_cache, CacheManager};
use htmx_rs_template::todos::{build_todo_stats, count_completed, count_pending, Todo};
use htmx_rs_template::users::{build_search_results, User};

fn todo(id: i64, title: &str, completed: bool) -> Todo {
    Todo { id, title: title.to_string(), completed }
}

fn user(id: i64, name: &str, email: &str) -> User {
    User { id, name: name.to_string(), email: email.to_string() }
}

#[test]
fn page_cache_starts_empty() {
    let manager = CacheManager::new();
    assert!(manager.cached_todos(0).is_none());
    assert!(manager.cached_users(0).is_none());
}

#[test]
fn page_cache_serves_fresh_todos_and_expires() {
    let mut manager = CacheManager::new();
    let list = vec![todo(1, "a", true), todo(2, "b", false)];
    let completed = count_completed(&list);
    let pending = count_pending(&list);
    assert_eq!((completed, pending), (1, 1));
    manager.store_todos(list, completed, pending, 1_000);
    let hit = manager.cached_todos(1_500).expect("fresh slot should hit");
    assert_eq!(hit.0.len(), 2);
    assert_eq!(hit.0[0], todo(1, "a", true));
    assert_eq!((hit.1, hit.2), (1, 1));
    // One refresh duration later the slot no longer answers.
    assert!(manager.cached_todos(61_000).is_none());
}

#[test]
fn page_cache_invalidate_empties_one_slot_only() {
    let mut manager = CacheManager::new();
    manager.store_todos(vec![todo(1, "a", false)], 0, 1, 0);
    manager.store_users(vec![user(1, "ada", "ada@example.com")], 0);
    invalidate_todo_cache(&mut manager);
    assert!(manager.cached_todos(0).is_none());
    assert!(manager.cached_users(0).is_some());
    invalidate_user_cache(&mut manager);
    assert!(manager.cached_users(0).is_none());
}

#[test]
fn page_cache_users_round_trip() {
    let mut manager = CacheManager::new();
    let people = vec![user(1, "ada", "ada@example.com"), user(2, "bob", "bob@example.com")];
    manager.store_users(people.clone(), 10);
    assert_eq!(manager.cached_users(20), Some(people));
}

#[test]
fn landing_defaults_and_builders() {
    let config = LandingConfig::default();
    assert_eq!(config.title, "HTMX Rust 模板");
    assert_eq!(config.features.len(), 3);
    let plugin = LandingPlugin::new()
        .with_title("My site".to_string())
        .with_subtitle("Hand made".to_string());
    assert_eq!(plugin.config.title, "My site");
    assert_eq!(plugin.config.subtitle, "Hand made");
    assert_eq!(plugin.config.features.len(), 3);
    let stats = Stats::default();
    assert_eq!(
        (stats.user_count, stats.project_count, stats.satisfaction),
        (1000, 500, 98)
    );
}

#[test]
fn pending_migrations_follow_the_recorded_version() {
    let all = migrations();
    assert_eq!(all.len(), 2);
    let fresh = pending_migrations(&all, 0);
    assert_eq!(fresh.len(), 2);
    assert_eq!(fresh[0].version, 1);
    assert_eq!(fresh[1].version, 2);
    let half = pending_migrations(&all, 1);
    assert_eq!(half.len(), 1);
    assert_eq!(half[0].version, 2);
    assert!(pending_migrations(&all, 2).is_empty());
}

#[test]
fn health_report_reflects_the_database_probe() {
    let up = health_check_response("1.2.3".to_string(), 77, true);
    assert_eq!(up.status, "ok");
    assert_eq!(up.version, "1.2.3");
    assert_eq!(up.uptime, 77);
    assert_eq!(up.database, "ok");
    let down = health_check_response("1.2.3".to_string(), 78, false);
    assert_eq!(down.database, "error");
}

#[test]
fn request_counters_class_responses_by_leading_digit() {
    assert!(status_is_success(200));
    assert!(status_is_success(204));
    assert!(status_is_success(299));
    assert!(!status_is_success(301));
    assert!(!status_is_success(404));
    assert!(!status_is_success(500));
}

#[test]
fn todo_stats_fill_in_the_pending_count() {
    let stats = build_todo_stats(5, 2);
    assert_eq!(stats.total_count, 5);
    assert_eq!(stats.completed_count, 2);
    assert_eq!(stats.pending_count, 3);
}

#[test]
fn search_results_carry_paging_and_ordinals() {
    let found = vec![user(13, "m", "m@example.com"), user(14, "n", "n@example.com")];
    let r = build_search_results(found, "ex".to_string(), 2, 12, 25);
    assert_eq!(r.users.len(), 2);
    assert_eq!(r.query, "ex");
    assert_eq!(r.pagination.total_pages, 3);
    assert!(r.pagination.has_prev);
    assert!(r.pagination.has_next);
    assert_eq!((r.start_item, r.end_item), (13, 14));
    assert_eq!(r.base_url, "/block/users/search");
    assert_eq!(r.target, "#search-results");
}
