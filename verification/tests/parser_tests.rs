//! Tests for the line parser: minimal lines, error cases, field
//! extraction, and cross-checks against independent implementations.

use xkippo::json::{JsonValue, get_bool_field, get_str_field, get_u64_field, parse_json};
use xkippo::log_analyzer::{LogAnalyzer, ParseError};
use xkippo::models::{EventType, FileTransferDirection};

#[test]
fn minimal_line_parses_and_reproduces_raw() {
    let a = LogAnalyzer::new();
    let line = r#"{"eventid":"cowrie.session.connect","timestamp":"2024-01-01T00:00:00Z"}"#;
    let entry = a.parse_log_entry(line).expect("minimal line must parse");
    assert_eq!(entry.event_type, EventType::Connect);
    // the raw value reproduces the input JSON
    match &entry.raw {
        JsonValue::Obj(fields) => {
            assert_eq!(fields.len(), 2);
            assert_eq!(fields[0].0, "eventid");
            assert_eq!(fields[1].0, "timestamp");
        }
        _ => panic!("raw must be the parsed object"),
    }
    assert_eq!(
        get_str_field(&entry.raw, "eventid").as_deref(),
        Some("cowrie.session.connect")
    );
    assert_eq!(
        get_str_field(&entry.raw, "timestamp").as_deref(),
        Some("2024-01-01T00:00:00Z")
    );
    // a fresh identifier is generated: hyphenated, 36 characters
    assert_eq!(entry.id.chars().count(), 36);
}

#[test]
fn missing_eventid_fails() {
    let a = LogAnalyzer::new();
    let line = r#"{"timestamp":"2024-01-01T00:00:00Z"}"#;
    assert_eq!(a.parse_log_entry(line).unwrap_err(), ParseError::MissingField);
}

#[test]
fn missing_timestamp_fails() {
    let a = LogAnalyzer::new();
    let line = r#"{"eventid":"cowrie.session.connect"}"#;
    assert_eq!(a.parse_log_entry(line).unwrap_err(), ParseError::MissingField);
}

#[test]
fn non_string_eventid_fails() {
    let a = LogAnalyzer::new();
    let line = r#"{"eventid":7,"timestamp":"2024-01-01T00:00:00Z"}"#;
    assert_eq!(a.parse_log_entry(line).unwrap_err(), ParseError::MissingField);
}

#[test]
fn malformed_json_fails() {
    let a = LogAnalyzer::new();
    assert_eq!(a.parse_log_entry("not json").unwrap_err(), ParseError::MalformedJson);
    assert_eq!(a.parse_log_entry("{\"a\":").unwrap_err(), ParseError::MalformedJson);
    assert_eq!(a.parse_log_entry("").unwrap_err(), ParseError::MalformedJson);
}

#[test]
fn bad_timestamp_fails() {
    let a = LogAnalyzer::new();
    let line = r#"{"eventid":"cowrie.session.connect","timestamp":"yesterday"}"#;
    assert_eq!(a.parse_log_entry(line).unwrap_err(), ParseError::BadTimestamp);
    let line2 = r#"{"eventid":"cowrie.session.connect","timestamp":"2024-13-01T00:00:00Z"}"#;
    assert_eq!(a.parse_log_entry(line2).unwrap_err(), ParseError::BadTimestamp);
}

#[test]
fn unknown_event_type_is_not_an_error() {
    let a = LogAnalyzer::new();
    let line = r#"{"eventid":"cowrie.something.new","timestamp":"2024-01-01T00:00:00Z"}"#;
    let entry = a.parse_log_entry(line).unwrap();
    assert_eq!(entry.event_type, EventType::Unknown);
}

#[test]
fn ports_accept_numbers_and_numeric_strings() {
    let a = LogAnalyzer::new();
    let line = r#"{"eventid":"cowrie.session.connect","timestamp":"2024-01-01T00:00:00Z","src_port":"2222","dst_port":22}"#;
    let entry = a.parse_log_entry(line).unwrap();
    assert_eq!(entry.src_port, Some(2222));
    assert_eq!(entry.dst_port, Some(22));
}

#[test]
fn extra_fields_are_preserved() {
    let a = LogAnalyzer::new();
    let line = r#"{"eventid":"cowrie.client.version","timestamp":"2024-01-01T00:00:00Z","session":"s1","version":"SSH-2.0-OpenSSH","sensor":"hp1"}"#;
    let entry = a.parse_log_entry(line).unwrap();
    assert_eq!(entry.session.as_deref(), Some("s1"));
    // consumed keys are gone, unknown ones stay in order
    assert_eq!(entry.fields.len(), 2);
    assert_eq!(entry.fields[0].0, "version");
    assert_eq!(entry.fields[1].0, "sensor");
}

#[test]
fn file_info_extraction_requires_filename() {
    let a = LogAnalyzer::new();
    let with = r#"{"eventid":"cowrie.session.file_download","timestamp":"2024-01-01T00:00:00Z","filename":"x.sh","shasum":"ab12","outfile":"/tmp/x"}"#;
    let entry = a.parse_log_entry(with).unwrap();
    let f = entry.file.expect("file descriptor expected");
    assert_eq!(f.filename, "x.sh");
    assert_eq!(f.direction, FileTransferDirection::Download);
    assert_eq!(f.local_path.as_deref(), Some("/tmp/x"));
    assert_eq!(f.shasum.as_deref(), Some("ab12"));
    assert!(!f.is_executable); // the basic parser leaves heuristics off

    let without = r#"{"eventid":"cowrie.session.file_download","timestamp":"2024-01-01T00:00:00Z"}"#;
    let entry2 = a.parse_log_entry(without).unwrap();
    assert!(entry2.file.is_none());
    assert_eq!(entry2.event_type, EventType::FileDownload);
}

#[test]
fn enhanced_parser_flags_executables_and_suspicious_hashes() {
    let cfg = xkippo::settings::Config::default();
    let a = xkippo::enhanced_log_analyzer::EnhancedLogAnalyzer::new(&cfg);
    let line = r#"{"eventid":"cowrie.session.file_upload","timestamp":"2024-01-01T00:00:00Z","filename":"bot.sh","shasum":"e3b0"}"#;
    let entry = a.parse_log_entry(line).unwrap();
    let f = entry.file.unwrap();
    assert_eq!(f.direction, FileTransferDirection::Upload);
    assert!(f.is_executable);
    assert!(f.is_malware);
}

#[test]
fn json_parser_agrees_with_serde_json() {
    let samples = [
        r#"{"a":1,"b":[true,false,null],"c":"x\ny"}"#,
        r#"  {"nested":{"k":"v"},"n":-12.5e3}  "#,
        r#""just a string""#,
        r#"[1,2,3,{"k":[]}]"#,
        r#"{"u":"\u0041\u00e9\ud83d\ude00"}"#,
        r#"{"a":1,}"#,
        r#"{"a" 1}"#,
        r#"[1 2]"#,
        r#"{"a":01}"#,
        r#"nul"#,
        "\"unterminated",
        "\"bad escape \\q\"",
        "\"lone surrogate \\ud800\"",
    ];
    for line in samples {
        let mine = parse_json(line).is_some();
        let theirs = serde_json::from_str::<serde_json::Value>(line).is_ok();
        assert_eq!(mine, theirs, "disagreement on {:?}", line);
    }
}

#[test]
fn json_values_decode_as_expected() {
    let v = parse_json(r#"{"s":"a\u0041b","n":42,"t":true,"nested":{"x":"y"},"dup":1,"dup":2}"#)
        .unwrap();
    assert_eq!(get_str_field(&v, "s").as_deref(), Some("aAb"));
    assert_eq!(get_u64_field(&v, "n"), Some(42));
    assert_eq!(get_bool_field(&v, "t"), Some(true));
    assert_eq!(get_str_field(&v, "missing"), None);
    // of duplicate keys the last wins, as in a map built by insertion
    assert_eq!(get_u64_field(&v, "dup"), Some(2));
    // numeric strings parse as numbers where a number is asked for
    let v2 = parse_json(r#"{"p":"8080","q":"+7","bad":"x","frac":1.5,"neg":-3}"#).unwrap();
    assert_eq!(get_u64_field(&v2, "p"), Some(8080));
    assert_eq!(get_u64_field(&v2, "q"), Some(7));
    assert_eq!(get_u64_field(&v2, "bad"), None);
    assert_eq!(get_u64_field(&v2, "frac"), None);
    assert_eq!(get_u64_field(&v2, "neg"), None);
}

#[test]
fn timestamps_agree_with_chrono() {
    let samples = [
        "2024-01-01T00:00:00Z",
        "2024-02-29T12:34:56.789Z",
        "1969-12-31T23:59:59Z",
        "2024-06-15T08:00:00+05:30",
        "2024-06-15T08:00:00-11:00",
        "2024-06-15t08:00:00z",
        "0001-01-01T00:00:00Z",
        "9999-12-31T23:59:59.999999Z",
    ];
    let a = LogAnalyzer::new();
    for ts in samples {
        let line = format!(
            r#"{{"eventid":"cowrie.session.connect","timestamp":"{}"}}"#,
            ts
        );
        let entry = a.parse_log_entry(&line).unwrap();
        let expected = chrono::DateTime::parse_from_rfc3339(ts)
            .unwrap()
            .timestamp_millis();
        assert_eq!(entry.timestamp, expected, "disagreement on {:?}", ts);
    }
}

#[test]
fn invalid_timestamps_rejected_like_chrono() {
    let bad = [
        "2024-01-01",
        "2024-01-32T00:00:00Z",
        "2023-02-29T00:00:00Z",
        "2024-01-01T24:00:00Z",
        "2024-01-01T00:60:00Z",
        "2024-01-01T00:00:00",
        "2024-01-01T00:00:00+24:00",
    ];
    for ts in bad {
        assert!(
            chrono::DateTime::parse_from_rfc3339(ts).is_err(),
            "chrono accepts {:?}",
            ts
        );
        let a = LogAnalyzer::new();
        let line = format!(
            r#"{{"eventid":"cowrie.session.connect","timestamp":"{}"}}"#,
            ts
        );
        assert_eq!(a.parse_log_entry(&line).unwrap_err(), ParseError::BadTimestamp);
    }
}

#[test]
fn event_table_matches_taxonomy() {
    let a = LogAnalyzer::new();
    let cases = [
        ("cowrie.session.connect", EventType::Connect),
        ("cowrie.session.closed", EventType::Disconnect),
        ("cowrie.login.success", EventType::LoginSuccess),
        ("cowrie.login.failed", EventType::LoginFailed),
        ("cowrie.client.kex", EventType::Connect),
        ("cowrie.client.version", EventType::Connect),
        ("cowrie.command.input", EventType::Command),
        ("cowrie.command.success", EventType::Command),
        ("cowrie.session.file_download", EventType::FileDownload),
        ("cowrie.session.file_upload", EventType::FileUpload),
        ("cowrie.client.fingerprint", EventType::KeyAuth),
        ("cowrie.direct-tcpip.request", EventType::TCPForward),
        ("cowrie.direct-tcpip.data", EventType::TCPForward),
    ];
    for (name, expected) in cases {
        let line = format!(
            r#"{{"eventid":"{}","timestamp":"2024-01-01T00:00:00Z"}}"#,
            name
        );
        assert_eq!(a.parse_log_entry(&line).unwrap().event_type, expected);
    }
}
