use axum_sessions_core::cache::SessionCache;
use axum_sessions_core::manager::{Resolution, SessionStore};
use axum_sessions_core::record::{offset_instant, SessionConfig, SessionRecord};
use axum_sessions_core::sweep::SweepScheduler;
use std::collections::HashMap;

const X: &str = "a1a2a3a4-b1b2-c1c2-d1d2-d3d4d5d6d7d8";
const X_ID: u128 = 0xa1a2a3a4b1b2c1c2d1d2d3d4d5d6d7d8;

fn config() -> SessionConfig {
    SessionConfig { cookie_name: "session".to_string(), lifespan: 10_000, memory_lifespan: 1_000 }
}

fn record(id: u128, expires: i64, autoremove: i64) -> SessionRecord {
    let mut data = HashMap::new();
    data.insert("user".to_string(), "ada".to_string());
    SessionRecord { id, data, expires, destroy: false, autoremove }
}

fn minted(r: Resolution) -> (u128, String, bool, bool) {
    match r {
        Resolution::Minted { id, cookie, swept_cache, cleanup_store } => {
            (id, cookie, swept_cache, cleanup_store)
        }
        _ => panic!("expected a minted identifier"),
    }
}

#[test]
fn request_without_cookie_gets_new_identifier() {
    let mut store = SessionStore::new(config());
    let (id, cookie, _, _) = minted(store.resolve_at(None, 5_000));
    assert_eq!(cookie, uuid::Uuid::from_u128(id).to_string());
    assert_eq!(cookie.len(), 36);
    let rec = store.cache.lookup(id).unwrap();
    assert!(rec.data.is_empty());
    assert_eq!(rec.id, id);
    assert_eq!(rec.expires, 15_000);
    assert_eq!(rec.autoremove, 6_000);
    assert!(!rec.destroy);
}

#[test]
fn valid_cached_session_is_extended_without_cookie() {
    let mut store = SessionStore::new(config());
    store.cache.insert(record(X_ID, 5_000, 2_500));
    match store.resolve_at(Some(X), 2_000) {
        Resolution::Cached { id } => assert_eq!(id, X_ID),
        _ => panic!("expected the cached session"),
    }
    let rec = store.cache.lookup(X_ID).unwrap();
    assert_eq!(rec.expires, 12_000);
    assert_eq!(rec.autoremove, 3_000);
    assert!(rec.expires > 5_000 && rec.autoremove > 2_500);
    assert_eq!(rec.data.get("user").map(|s| s.as_str()), Some("ada"));
}

#[test]
fn stored_session_is_rehydrated_with_cookie() {
    let mut store = SessionStore::new(config());
    match store.resolve_at(Some(X), 2_000) {
        Resolution::NeedsLoad { id } => assert_eq!(id, X_ID),
        _ => panic!("expected a load from the backing store"),
    }
    let cookie = store.complete_load_at(X_ID, Some(record(X_ID, 9_000, 2_800)), 2_000);
    assert_eq!(cookie, X);
    let rec = store.cache.lookup(X_ID).unwrap();
    assert_eq!(rec.data.get("user").map(|s| s.as_str()), Some("ada"));
    assert_eq!(rec.expires, 9_000);
    assert_eq!(rec.autoremove, 3_000);
}

#[test]
fn expired_cached_session_is_emptied() {
    let mut store = SessionStore::new(config());
    store.cache.insert(record(X_ID, 1_000, 4_000));
    assert!(matches!(store.resolve_at(Some(X), 2_000), Resolution::Cached { .. }));
    let rec = store.cache.lookup(X_ID).unwrap();
    assert!(rec.data.is_empty());
    assert_eq!(rec.expires, 12_000);
    assert_eq!(rec.autoremove, 3_000);
}

#[test]
fn session_is_not_reset_before_it_expires() {
    let mut store = SessionStore::new(config());
    store.cache.insert(record(X_ID, 2_000, 4_000));
    store.resolve_at(Some(X), 2_000);
    assert_eq!(store.cache.lookup(X_ID).unwrap().data.len(), 1);
}

#[test]
fn destroyed_session_is_emptied() {
    let mut store = SessionStore::new(config());
    let mut rec = record(X_ID, 50_000, 4_000);
    rec.destroy = true;
    store.cache.insert(rec);
    store.resolve_at(Some(X), 2_000);
    let rec = store.cache.lookup(X_ID).unwrap();
    assert!(rec.data.is_empty());
    assert!(!rec.destroy);
}

#[test]
fn malformed_cookie_mints_identifier() {
    let mut store = SessionStore::new(config());
    let (id, _, _, _) = minted(store.resolve_at(Some("not-an-identifier"), 0));
    assert!(store.cache.contains(id));
    let (id2, _, _, _) = minted(store.resolve_at(Some(""), 0));
    assert_ne!(id, id2);
}

#[test]
fn stale_loaded_record_is_replaced_by_fresh_one() {
    let mut store = SessionStore::new(config());
    let cookie = store.complete_load_at(X_ID, Some(record(7, 1_000, 1_500)), 2_000);
    assert_eq!(cookie, X);
    let rec = store.cache.lookup(X_ID).unwrap();
    assert!(rec.data.is_empty());
    assert_eq!(rec.id, X_ID);
    assert_eq!(rec.expires, 12_000);
    assert_eq!(rec.autoremove, 3_000);
}

#[test]
fn destroyed_loaded_record_is_replaced_by_fresh_one() {
    let mut store = SessionStore::new(config());
    let mut rec = record(X_ID, 50_000, 4_000);
    rec.destroy = true;
    store.complete_load_at(X_ID, Some(rec), 2_000);
    let rec = store.cache.lookup(X_ID).unwrap();
    assert!(rec.data.is_empty());
    assert!(!rec.destroy);
}

#[test]
fn failed_load_gives_fresh_record() {
    let mut store = SessionStore::new(config());
    store.complete_load_at(X_ID, None, 2_000);
    let rec = store.cache.lookup(X_ID).unwrap();
    assert!(rec.data.is_empty());
    assert_eq!(rec.expires, 12_000);
}

#[test]
fn cache_sweep_removes_exactly_due_records() {
    let mut cache = SessionCache::new();
    cache.insert(record(1, 0, 100));
    cache.insert(record(2, 0, 200));
    cache.insert(record(3, 0, 300));
    cache.sweep(200);
    assert!(!cache.contains(1));
    assert!(!cache.contains(2));
    assert!(cache.contains(3));
    cache.insert(record(4, 0, 400));
    cache.sweep(299);
    assert!(cache.contains(3));
    assert!(cache.contains(4));
}

#[test]
fn minting_sweeps_at_most_once_per_memory_interval() {
    let mut store = SessionStore::new(config());
    store.cache.insert(record(1, 0, 900));
    let (_, _, first, cleanup) = minted(store.resolve_at(None, 1_000));
    assert!(first);
    assert!(cleanup);
    assert!(!store.cache.contains(1));
    store.cache.insert(record(2, 0, 1_200));
    let (_, _, second, cleanup2) = minted(store.resolve_at(None, 1_500));
    assert!(!second);
    assert!(!cleanup2);
    assert!(store.cache.contains(2));
    let (_, _, third, _) = minted(store.resolve_at(None, 2_000));
    assert!(third);
    assert!(!store.cache.contains(2));
}

#[test]
fn timers_run_independently() {
    let mut timers = SweepScheduler::new();
    assert!(timers.cache_sweep_due(0, 10));
    assert!(timers.store_sweep_due(0, 100));
    assert!(!timers.cache_sweep_due(5, 10));
    assert!(timers.cache_sweep_due(10, 10));
    assert!(!timers.store_sweep_due(10, 100));
    assert_eq!(timers.next_cache_sweep, 20);
    assert_eq!(timers.next_store_sweep, 100);
}

#[test]
fn saved_record_reloads_unchanged() {
    let mut first = SessionStore::new(config());
    first.cache.insert(record(X_ID, 9_000, 2_500));
    let saved = first.finalize(X_ID).unwrap();
    assert_eq!(saved.data, first.cache.lookup(X_ID).unwrap().data);
    let mut second = SessionStore::new(config());
    second.complete_load_at(X_ID, Some(saved), 3_000);
    let rec = second.cache.lookup(X_ID).unwrap();
    assert_eq!(rec.data.get("user").map(|s| s.as_str()), Some("ada"));
    assert_eq!(rec.expires, 9_000);
}

#[test]
fn finalize_of_unknown_identifier_is_none() {
    let store = SessionStore::new(config());
    assert!(store.finalize(X_ID).is_none());
}

#[test]
fn deadlines_saturate() {
    assert_eq!(offset_instant(i64::MAX - 1, 10), i64::MAX);
    assert_eq!(offset_instant(i64::MIN + 1, -10), i64::MIN);
    assert_eq!(offset_instant(5, 7), 12);
    assert_eq!(offset_instant(5, -7), -2);
}

#[test]
fn resolve_reads_the_clock() {
    let mut store = SessionStore::new(config());
    let (now, r) = store.resolve(None);
    assert!(now > 1_600_000_000_000);
    let (id, _, _, _) = minted(r);
    assert_eq!(store.cache.lookup(id).unwrap().expires, now + 10_000);
    let (later, cookie) = store.complete_load(X_ID, None);
    assert!(later >= now);
    assert_eq!(cookie, X);
}

#[test]
fn session_contents_can_be_replaced() {
    let mut cache = SessionCache::new();
    cache.insert(record(X_ID, 5_000, 2_000));
    let mut data = HashMap::new();
    data.insert("theme".to_string(), "dark".to_string());
    assert!(cache.set_data(X_ID, data));
    let rec = cache.lookup(X_ID).unwrap();
    assert_eq!(rec.data.get("theme").map(|s| s.as_str()), Some("dark"));
    assert!(rec.data.get("user").is_none());
    assert_eq!(rec.expires, 5_000);
    assert!(!cache.set_data(7, HashMap::new()));
}

#[test]
fn destroy_flag_empties_on_next_request() {
    let mut store = SessionStore::new(config());
    store.cache.insert(record(X_ID, 50_000, 4_000));
    assert!(store.cache.set_destroy(X_ID, true));
    assert_eq!(store.cache.lookup(X_ID).unwrap().data.len(), 1);
    store.resolve_at(Some(X), 2_000);
    assert!(store.cache.lookup(X_ID).unwrap().data.is_empty());
    assert!(!store.cache.set_destroy(7, true));
}

#[test]
fn destroyed_session_is_emptied_only_once() {
    let mut store = SessionStore::new(config());
    let mut rec = record(X_ID, 50_000, 4_000);
    rec.destroy = true;
    store.cache.insert(rec);
    store.resolve_at(Some(X), 2_000);
    let mut data = HashMap::new();
    data.insert("user".to_string(), "grace".to_string());
    assert!(store.cache.set_data(X_ID, data));
    store.resolve_at(Some(X), 2_500);
    let rec = store.cache.lookup(X_ID).unwrap();
    assert_eq!(rec.data.get("user").map(|s| s.as_str()), Some("grace"));
}

#[test]
fn load_keeps_record_installed_meanwhile() {
    let mut store = SessionStore::new(config());
    assert!(matches!(store.resolve_at(Some(X), 2_000), Resolution::NeedsLoad { .. }));
    store.cache.insert(record(X_ID, 8_000, 2_500));
    let mut loaded = record(X_ID, 9_000, 2_800);
    loaded.data.insert("user".to_string(), "other".to_string());
    let cookie = store.complete_load_at(X_ID, Some(loaded), 3_000);
    assert_eq!(cookie, X);
    let rec = store.cache.lookup(X_ID).unwrap();
    assert_eq!(rec.data.get("user").map(|s| s.as_str()), Some("ada"));
    assert_eq!(rec.expires, 13_000);
    assert_eq!(rec.autoremove, 4_000);
}

#[test]
fn minted_cookie_names_the_same_session() {
    let mut store = SessionStore::new(config());
    let (id, cookie, _, _) = minted(store.resolve_at(None, 1_000));
    match store.resolve_at(Some(&cookie), 1_500) {
        Resolution::Cached { id: again } => assert_eq!(again, id),
        _ => panic!("expected the cached session"),
    }
}
