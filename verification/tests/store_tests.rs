//! Tests for the bounded store: ceilings, first-in first-out eviction,
//! lookups, filtered views and the uniqueness sets.

use xkippo::log_analyzer::LogAnalyzer;
use xkippo::models::{EventType, LogEntry};
use xkippo::settings::Config;
use xkippo::store::{Store, StoreError};

fn entry(a: &LogAnalyzer, json: &str) -> LogEntry {
    a.parse_log_entry(json).expect("test line must parse")
}

fn connect_line(session: &str, src_ip: &str) -> String {
    format!(
        r#"{{"eventid":"cowrie.session.connect","timestamp":"2024-01-01T00:00:00Z","session":"{}","src_ip":"{}"}}"#,
        session, src_ip
    )
}

#[test]
fn store_never_exceeds_its_ceilings() {
    let a = LogAnalyzer::new();
    let mut config = Config::default();
    config.filter.max_logs = 5;
    config.filter.max_sessions = 3;
    let mut store = Store::new(&config).unwrap();
    for i in 0..20 {
        let e = entry(&a, &connect_line(&format!("s{}", i), "1.2.3.4"));
        store.add_log_entry(e).unwrap();
        assert!(store.get_log_entry_count() <= 5);
    }
    assert_eq!(store.get_log_entry_count(), 5);

    let mgr = xkippo::session_manager::SessionManager::new(&config).unwrap();
    for i in 0..10 {
        let e = entry(&a, &connect_line(&format!("s{}", i), "1.2.3.4"));
        mgr.process_log_entry(&mut store, &e).unwrap();
        assert!(store.get_session_count() <= 3);
    }
    assert_eq!(store.get_session_count(), 3);
}

#[test]
fn fifo_eviction_drops_the_oldest() {
    let a = LogAnalyzer::new();
    let mut config = Config::default();
    config.filter.max_logs = 3;
    let mut store = Store::new(&config).unwrap();
    let mut ids: Vec<String> = Vec::new();
    for i in 0..4 {
        let e = entry(&a, &connect_line(&format!("s{}", i), "9.9.9.9"));
        ids.push(e.id.clone());
        store.add_log_entry(e).unwrap();
    }
    // the first-inserted entry is gone, the other three remain by id
    assert!(store.get_log_entry(&ids[0]).is_none());
    for id in &ids[1..] {
        assert!(store.get_log_entry(id).is_some());
    }
    // chronological order is kept
    let all = store.get_log_entries();
    assert_eq!(all.len(), 3);
    assert_eq!(all[0].id, ids[1]);
    assert_eq!(all[1].id, ids[2]);
    assert_eq!(all[2].id, ids[3]);
}

#[test]
fn update_session_requires_presence() {
    let a = LogAnalyzer::new();
    let config = Config::default();
    let mut store = Store::new(&config).unwrap();
    let mgr = xkippo::session_manager::SessionManager::new(&config).unwrap();
    let e = entry(&a, &connect_line("s1", "1.2.3.4"));
    let s = xkippo::session_manager::create_session_from_log_entry("ghostly", &e).unwrap();
    assert_eq!(store.update_session(s), Err(StoreError::NotFound));
    mgr.process_log_entry(&mut store, &e).unwrap();
    let s2 = xkippo::session_manager::create_session_from_log_entry("s1", &e).unwrap();
    assert_eq!(store.update_session(s2), Ok(()));
}

#[test]
fn filtered_views_select_the_right_entries() {
    let a = LogAnalyzer::new();
    let config = Config::default();
    let mut store = Store::new(&config).unwrap();
    let lines = [
        r#"{"eventid":"cowrie.session.connect","timestamp":"2024-01-01T00:00:00Z","session":"s1","src_ip":"1.1.1.1"}"#,
        r#"{"eventid":"cowrie.login.success","timestamp":"2024-01-01T00:01:00Z","session":"s1","src_ip":"1.1.1.1","username":"root","password":"123456"}"#,
        r#"{"eventid":"cowrie.command.input","timestamp":"2024-01-01T00:02:00Z","session":"s2","src_ip":"2.2.2.2","input":"ls -la"}"#,
    ];
    for line in lines {
        store.add_log_entry(entry(&a, line)).unwrap();
    }
    assert_eq!(store.get_log_entries_by_session("s1").len(), 2);
    assert_eq!(store.get_log_entries_by_session("s2").len(), 1);
    assert_eq!(store.get_log_entries_by_source_ip("1.1.1.1").len(), 2);
    assert_eq!(store.get_log_entries_by_username("root").len(), 1);
    assert_eq!(
        store
            .get_log_entries_by_event_type(&EventType::Command)
            .len(),
        1
    );
    // inclusive time range in epoch milliseconds
    let t0 = 1704067200000i64; // the first line's instant
    assert_eq!(store.get_log_entries_by_time_range(t0, t0 + 60_000).len(), 2);
    assert_eq!(store.get_log_entries_by_time_range(t0 + 1, t0 + 59_999).len(), 0);
}

#[test]
fn keyword_search_honors_case_sensitivity() {
    let a = LogAnalyzer::new();
    let config = Config::default();
    let mut store = Store::new(&config).unwrap();
    let line = r#"{"eventid":"cowrie.command.input","timestamp":"2024-01-01T00:00:00Z","session":"s1","input":"WGET http://evil"}"#;
    store.add_log_entry(entry(&a, line)).unwrap();
    assert_eq!(store.search_log_entries("wget", false).len(), 1);
    assert_eq!(store.search_log_entries("wget", true).len(), 0);
    assert_eq!(store.search_log_entries("WGET", true).len(), 1);
    assert_eq!(store.search_log_entries("curl", false).len(), 0);
}

#[test]
fn uniqueness_sets_accumulate_without_duplicates() {
    let a = LogAnalyzer::new();
    let config = Config::default();
    let mut store = Store::new(&config).unwrap();
    let l1 = r#"{"eventid":"cowrie.login.failed","timestamp":"2024-01-01T00:00:00Z","session":"s1","src_ip":"1.1.1.1","username":"root","password":"a"}"#;
    let l2 = r#"{"eventid":"cowrie.login.failed","timestamp":"2024-01-01T00:00:01Z","session":"s1","src_ip":"1.1.1.1","username":"root","password":"b"}"#;
    store.add_log_entry(entry(&a, l1)).unwrap();
    store.add_log_entry(entry(&a, l2)).unwrap();
    assert_eq!(store.get_unique_source_ips().len(), 1);
    assert_eq!(store.get_unique_usernames().len(), 1);
    assert_eq!(store.get_unique_passwords().len(), 2);
    // eviction never shrinks the sets
    let mut capped = Config::default();
    capped.filter.max_logs = 1;
    let mut small = Store::new(&capped).unwrap();
    small.add_log_entry(entry(&a, l1)).unwrap();
    small.add_log_entry(entry(&a, l2)).unwrap();
    assert_eq!(small.get_log_entry_count(), 1);
    assert_eq!(small.get_unique_passwords().len(), 2);
}

#[test]
fn clear_empties_everything() {
    let a = LogAnalyzer::new();
    let config = Config::default();
    let mut store = Store::new(&config).unwrap();
    store
        .add_log_entry(entry(&a, &connect_line("s1", "1.2.3.4")))
        .unwrap();
    store.clear();
    assert_eq!(store.get_log_entry_count(), 0);
    assert_eq!(store.get_session_count(), 0);
    assert_eq!(store.get_unique_source_ips().len(), 0);
    assert!(store.get_log_entries().is_empty());
}
