//! Tests for the formatting helpers, the watcher decisions, the error
//! messages and the configuration defaults.

use xkippo::errors::AppError;
use xkippo::helpers::{format_bytes, format_duration, percentage};
use xkippo::log_watcher::{TailAction, determine_start_time, tail_action};
use xkippo::models::EventType;
use xkippo::settings::Config;

#[test]
fn format_bytes_matches_expected_values() {
    assert_eq!(format_bytes(0), "0 bytes");
    assert_eq!(format_bytes(1023), "1023 bytes");
    assert_eq!(format_bytes(1024), "1.00 KB");
    assert_eq!(format_bytes(1536), "1.50 KB");
    assert_eq!(format_bytes(10 * 1024 * 1024), "10.00 MB");
    assert_eq!(format_bytes(5 * 1024 * 1024 * 1024 + 512 * 1024 * 1024), "5.50 GB");
    assert_eq!(format_bytes(1048575), "1024.00 KB");
}

#[test]
fn format_duration_matches_expected_values() {
    assert_eq!(format_duration(0), "0s");
    assert_eq!(format_duration(59), "59s");
    assert_eq!(format_duration(60), "1m 0s");
    assert_eq!(format_duration(3661), "1h 1m 1s");
    assert_eq!(format_duration(90061), "1d 1h 1m 1s");
    assert_eq!(format_duration(86400), "1d 0h 0m 0s");
}

#[test]
fn percentage_handles_empty_totals() {
    assert_eq!(percentage(0, 0), 0);
    assert_eq!(percentage(1, 4), 25);
    assert_eq!(percentage(2, 3), 66);
    assert_eq!(percentage(3, 3), 100);
}

#[test]
fn tail_decisions_cover_growth_truncation_and_stasis() {
    assert_eq!(tail_action(100, 100), TailAction::NoChange);
    assert_eq!(tail_action(100, 150), TailAction::ReadFrom { offset: 100, len: 50 });
    // a smaller file was rotated: read it from the start
    assert_eq!(tail_action(100, 40), TailAction::ReadFrom { offset: 0, len: 40 });
    assert_eq!(tail_action(100, 0), TailAction::NoChange);
    assert_eq!(tail_action(0, 10), TailAction::ReadFrom { offset: 0, len: 10 });
}

#[test]
fn backlog_window_start() {
    // zero hours means the whole history
    assert_eq!(determine_start_time(0, 1704067200000), 0);
    // twenty-four hours before now
    assert_eq!(
        determine_start_time(24, 1704067200000),
        1704067200000 - 24 * 3600 * 1000
    );
}

#[test]
fn event_type_display_names() {
    assert_eq!(EventType::Connect.display_name(), "Connect");
    assert_eq!(EventType::LoginAttempt.display_name(), "Login Attempt");
    assert_eq!(EventType::TCPForward.display_name(), "TCP Forward");
    assert_eq!(EventType::Unknown.display_name(), "Unknown");
}

#[test]
fn error_messages_carry_their_details() {
    assert_eq!(
        AppError::IoError("open failed".to_string()).message(),
        "IO Error: open failed"
    );
    assert_eq!(
        AppError::PluginInitError("geo".to_string(), "no database".to_string()).message(),
        "Plugin 'geo' Initialization Error: no database"
    );
    assert_eq!(AppError::Other("boom".to_string()).message(), "Error: boom");
}

#[test]
fn configuration_defaults_match_documentation() {
    let c = Config::default();
    assert_eq!(c.filter.max_logs, 10000);
    assert_eq!(c.filter.max_sessions, 1000);
    assert_eq!(c.honeypot.history_hours, 24);
    assert_eq!(c.honeypot.name, "Cowrie Honeypot");
    assert!(c.alert.enabled);
    assert!(!c.threat_intel.enabled);
    assert_eq!(c.rules.min_risk_score, 50);
    let app_cfg = xkippo::app_config::Config::default();
    assert_eq!(app_cfg.general.max_sessions, 1000);
    assert_eq!(app_cfg.connection.port, 2222);
    assert_eq!(app_cfg.ui.theme, "dark");
}

#[test]
fn plugin_hooks_succeed() {
    assert!(xkippo::plugins::BuiltInPlugins::initialize().is_ok());
    assert!(xkippo::plugins::register_defaults().is_ok());
}

#[test]
fn threat_intel_lookup_respects_the_toggle() {
    let mut cfg = Config::default();
    cfg.threat_intel.enabled = true;
    let mut enhanced = xkippo::enhanced_log_analyzer::EnhancedLogAnalyzer::new(&cfg);
    assert!(enhanced.get_threat_intel("112.85.42.2").is_none());
    enhanced.load_threat_intel(7).unwrap();
    let hit = enhanced.get_threat_intel("112.85.42.2").expect("example record expected");
    assert_eq!(hit.score, 90);
    assert_eq!(hit.last_seen, Some(7));
    assert!(enhanced.get_threat_intel("8.8.8.8").is_none());

    // a hostile source raises the enhanced score: 90/5 + 10 for the labels
    let a = xkippo::log_analyzer::LogAnalyzer::new();
    let line = r#"{"eventid":"cowrie.session.connect","timestamp":"2024-01-01T00:00:00Z","session":"s1","src_ip":"112.85.42.2"}"#;
    let e = a.parse_log_entry(line).unwrap();
    let s = xkippo::session_manager::create_session_from_log_entry("s1", &e).unwrap();
    assert_eq!(enhanced.analyze_session_risk(&s), 28);

    // with the feature disabled nothing is loaded
    let mut quiet = xkippo::enhanced_log_analyzer::EnhancedLogAnalyzer::new(&Config::default());
    quiet.load_threat_intel(7).unwrap();
    assert!(quiet.get_threat_intel("112.85.42.2").is_none());
}
