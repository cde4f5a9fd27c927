//! Analyzes and parses log entries from the Cowrie honeypot: one JSON line
//! becomes one normalized `LogEntry`, and sessions are scored for risk.

use vstd::prelude::*;

use crate::json::{
    JsonV, JsonValue, get_bool_field, get_str_field, get_u64_field, json_bool_field,
    json_str_field, json_u64_field, parse_json, spec_parse_json, view_json, view_obj,
    lemma_view_obj,
};
use crate::models::{
    Command, CommandV, EventType, FileTransfer, FileTransferV, LogEntry, Session, SessionV,
    opt_file_view, opt_str_view,
};
use crate::text::{contains_seq, lower_seq, str_to_chars, string_contains, to_ascii_lower};
use crate::timestamp::{parse_rfc3339_millis, spec_parse_rfc3339};

verus! {

/// Why a log line could not be parsed.
#[derive(Debug, Clone, Copy, PartialEq, Eq, Structural)]
pub enum ParseError {
    /// The line is not valid JSON.
    MalformedJson,
    /// The event-type or timestamp member is absent or not a string.
    MissingField,
    /// The timestamp member is not a valid RFC 3339 string.
    BadTimestamp,
}

/// The fixed mapping from wire event names to the closed taxonomy.
pub open spec fn event_table() -> Seq<(Seq<char>, EventType)> {
    seq![
        ("cowrie.session.connect"@, EventType::Connect),
        ("cowrie.session.closed"@, EventType::Disconnect),
        ("cowrie.login.success"@, EventType::LoginSuccess),
        ("cowrie.login.failed"@, EventType::LoginFailed),
        ("cowrie.client.kex"@, EventType::Connect),
        ("cowrie.client.version"@, EventType::Connect),
        ("cowrie.command.input"@, EventType::Command),
        ("cowrie.command.success"@, EventType::Command),
        ("cowrie.session.file_download"@, EventType::FileDownload),
        ("cowrie.session.file_upload"@, EventType::FileUpload),
        ("cowrie.client.fingerprint"@, EventType::KeyAuth),
        ("cowrie.direct-tcpip.request"@, EventType::TCPForward),
        ("cowrie.direct-tcpip.data"@, EventType::TCPForward),
    ]
}

/// Look an event name up in a table; unrecognized names are `Unknown`.
pub open spec fn lookup_event(table: Seq<(Seq<char>, EventType)>, name: Seq<char>) -> EventType
    decreases table.len(),
{
    if table.len() == 0 {
        EventType::Unknown
    } else if table[0].0 == name {
        table[0].1
    } else {
        lookup_event(table.drop_first(), name)
    }
}

/// The event type a wire event name resolves to.
pub open spec fn resolve_event(name: Seq<char>) -> EventType {
    lookup_event(event_table(), name)
}

/// The view of an executable event-name table.
pub open spec fn table_view(v: Seq<(String, EventType)>) -> Seq<(Seq<char>, EventType)> {
    v.map_values(|p: (String, EventType)| (p.0@, p.1))
}

/// A key the parser consumes into a named member of `LogEntry`.
pub open spec fn is_reserved_key(k: Seq<char>) -> bool {
    ||| k == "id"@
    ||| k == "timestamp"@
    ||| k == "eventid"@
    ||| k == "session"@
    ||| k == "src_ip"@
    ||| k == "src_port"@
    ||| k == "dst_ip"@
    ||| k == "dst_port"@
    ||| k == "username"@
    ||| k == "password"@
    ||| k == "input"@
}

/// The members of an object that are not consumed into named fields,
/// keeping their order.
pub open spec fn filter_extra(fs: Seq<(Seq<char>, JsonV)>) -> Seq<(Seq<char>, JsonV)>
    decreases fs.len(),
{
    if fs.len() == 0 {
        Seq::empty()
    } else if is_reserved_key(fs[0].0) {
        filter_extra(fs.drop_first())
    } else {
        seq![fs[0]] + filter_extra(fs.drop_first())
    }
}

/// The open field map a parsed value contributes to a log entry.
pub open spec fn spec_extra_fields(v: JsonV) -> Seq<(Seq<char>, JsonV)> {
    match v {
        JsonV::Obj(fs) => filter_extra(fs),
        _ => Seq::empty(),
    }
}

/// `s` ends with the suffix `suf`.
pub open spec fn ends_with(s: Seq<char>, suf: Seq<char>) -> bool {
    suf.len() <= s.len() && s.subrange(s.len() - suf.len(), s.len() as int) == suf
}

/// A file name that is executable by extension.
pub open spec fn is_executable_name(f: Seq<char>) -> bool {
    ||| ends_with(f, ".sh"@)
    ||| ends_with(f, ".bin"@)
    ||| ends_with(f, ".elf"@)
    ||| ends_with(f, ".exe"@)
}

/// A content hash that the enhanced analyzer's placeholder heuristic marks
/// as suspicious.
pub open spec fn is_suspicious_hash(h: Option<Seq<char>>) -> bool {
    match h {
        Some(t) => t.len() > 0 && (t[0] == 'e' || t[0] == 'a'),
        None => false,
    }
}

/// The file descriptor a parsed value contributes, for upload and download
/// events that carry a file name.  The enhanced analyzer also fills in the
/// heuristic executable and malware flags.
pub open spec fn spec_file_info(v: JsonV, et: EventType, ts: i64, enhanced: bool) -> Option<
    FileTransferV,
> {
    if et == EventType::FileUpload || et == EventType::FileDownload {
        match json_str_field(v, "filename"@) {
            None => None,
            Some(fname) => Some(
                FileTransferV {
                    filename: fname,
                    local_path: json_str_field(v, "outfile"@),
                    size: None,
                    shasum: json_str_field(v, "shasum"@),
                    timestamp: ts,
                    direction: if et == EventType::FileUpload {
                        crate::models::FileTransferDirection::Upload
                    } else {
                        crate::models::FileTransferDirection::Download
                    },
                    mime_type: None,
                    is_executable: enhanced && is_executable_name(fname),
                    is_malware: enhanced && is_suspicious_hash(json_str_field(v, "shasum"@)),
                },
            ),
        }
    } else {
        None
    }
}

/// The error, if any, that parsing the given line must produce.
pub open spec fn spec_parse_error(s: Seq<char>) -> Option<ParseError> {
    match spec_parse_json(s) {
        None => Some(ParseError::MalformedJson),
        Some(v) => if json_str_field(v, "eventid"@) is None {
            Some(ParseError::MissingField)
        } else if json_str_field(v, "timestamp"@) is None {
            Some(ParseError::MissingField)
        } else if spec_parse_rfc3339(json_str_field(v, "timestamp"@)->0) is None {
            Some(ParseError::BadTimestamp)
        } else {
            None
        },
    }
}

/// A port member: a numeric field truncated to sixteen bits.
pub open spec fn port_of(o: Option<u64>) -> Option<u16> {
    match o {
        Some(n) => Some(n as u16),
        None => None,
    }
}

/// Every field of a successfully parsed entry, determined by the line's
/// JSON value `v` (the identifier alone is freshly generated).
pub open spec fn entry_matches(e: crate::models::LogEntryV, v: JsonV, enhanced: bool) -> bool {
    let ts = spec_parse_rfc3339(json_str_field(v, "timestamp"@)->0)->0;
    let et = resolve_event(json_str_field(v, "eventid"@)->0);
    &&& e.timestamp == ts
    &&& e.event_type == et
    &&& e.session == json_str_field(v, "session"@)
    &&& e.src_ip == json_str_field(v, "src_ip"@)
    &&& e.src_port == port_of(json_u64_field(v, "src_port"@))
    &&& e.dst_ip == json_str_field(v, "dst_ip"@)
    &&& e.dst_port == port_of(json_u64_field(v, "dst_port"@))
    &&& e.username == json_str_field(v, "username"@)
    &&& e.password == json_str_field(v, "password"@)
    &&& e.command == json_str_field(v, "input"@)
    &&& e.file == spec_file_info(v, et, ts, enhanced)
    &&& e.fields == spec_extra_fields(v)
    &&& e.raw == v
    &&& e.id.len() == 36
}

/// Relies on `uuid::Uuid::new_v4` and the hyphenated form its `Display`
/// renders through `to_string`: a fresh random version-4 identifier, always
/// 36 characters long.
#[verifier::external_body]
fn new_entry_id() -> (r: String)
    ensures
        r@.len() == 36,
{
    uuid::Uuid::new_v4().to_string()
}

/// Appending one member commutes with taking member views.
proof fn lemma_view_obj_push(a: Seq<(String, JsonValue)>, kv: (String, JsonValue))
    ensures
        view_obj(a.push(kv)) == view_obj(a) + seq![(kv.0@, view_json(kv.1))],
    decreases a.len(),
{
    if a.len() == 0 {
        assert(a.push(kv)[0] == kv);
        assert(a.push(kv).drop_first() =~= Seq::<(String, JsonValue)>::empty());
        assert(view_obj(a.push(kv).drop_first()) == Seq::<(Seq<char>, JsonV)>::empty());
        assert(view_obj(a) == Seq::<(Seq<char>, JsonV)>::empty());
        assert(view_obj(a.push(kv)) =~= view_obj(a) + seq![(kv.0@, view_json(kv.1))]);
    } else {
        assert(a.push(kv)[0] == a[0]);
        assert(a.push(kv).drop_first() =~= a.drop_first().push(kv));
        lemma_view_obj_push(a.drop_first(), kv);
        assert(view_obj(a.push(kv)) == seq![(a[0].0@, view_json(a[0].1))] + view_obj(
            a.drop_first().push(kv),
        ));
        assert(view_obj(a) == seq![(a[0].0@, view_json(a[0].1))] + view_obj(a.drop_first()));
        assert(view_obj(a.push(kv)) =~= view_obj(a) + seq![(kv.0@, view_json(kv.1))]);
    }
}

/// Whether `k` is one of the keys consumed into named members.
fn is_reserved_exec(k: &str) -> (r: bool)
    ensures
        r == is_reserved_key(k@),
{
    crate::text::str_eq(k, "id") || crate::text::str_eq(k, "timestamp") || crate::text::str_eq(
        k,
        "eventid",
    ) || crate::text::str_eq(k, "session") || crate::text::str_eq(k, "src_ip")
        || crate::text::str_eq(k, "src_port") || crate::text::str_eq(k, "dst_ip")
        || crate::text::str_eq(k, "dst_port") || crate::text::str_eq(k, "username")
        || crate::text::str_eq(k, "password") || crate::text::str_eq(k, "input")
}

/// Take the open field map out of a parsed value: every member whose key is
/// not consumed into a named field, in order.
fn take_extra_fields(v: JsonValue) -> (r: Vec<(String, JsonValue)>)
    ensures
        view_obj(r@) == spec_extra_fields(view_json(v)),
{
    let ghost target = spec_extra_fields(view_json(v));
    match v {
        JsonValue::Obj(fields) => {
            let mut rest = fields;
            let mut out: Vec<(String, JsonValue)> = Vec::new();
            proof {
                assert(view_obj(out@) =~= Seq::<(Seq<char>, JsonV)>::empty());
                assert(target == view_obj(out@) + filter_extra(view_obj(rest@)));
            }
            while rest.len() > 0
                invariant
                    target == view_obj(out@) + filter_extra(view_obj(rest@)),
                decreases rest@.len(),
            {
                let ghost old_rest = rest@;
                let ghost old_out = out@;
                let kv = rest.remove(0);
                let ghost gkv = kv;
                let ghost p = (gkv.0@, view_json(gkv.1));
                proof {
                    assert(old_rest.drop_first() =~= rest@);
                    assert(view_obj(old_rest) == seq![p] + view_obj(rest@));
                    assert(view_obj(old_rest)[0] == p);
                    assert(view_obj(old_rest).drop_first() =~= view_obj(rest@));
                }
                if !is_reserved_exec(kv.0.as_str()) {
                    out.push(kv);
                    proof {
                        lemma_view_obj_push(old_out, gkv);
                        assert(filter_extra(view_obj(old_rest)) == seq![p] + filter_extra(
                            view_obj(rest@),
                        ));
                        assert(view_obj(old_out) + filter_extra(view_obj(old_rest)) =~= view_obj(
                            out@,
                        ) + filter_extra(view_obj(rest@)));
                    }
                } else {
                    proof {
                        assert(filter_extra(view_obj(old_rest)) == filter_extra(view_obj(rest@)));
                    }
                }
            }
            proof {
                assert(view_obj(rest@) =~= Seq::<(Seq<char>, JsonV)>::empty());
                assert(target =~= view_obj(out@));
            }
            out
        },
        _ => {
            let out: Vec<(String, JsonValue)> = Vec::new();
            proof {
                assert(view_obj(out@) =~= Seq::<(Seq<char>, JsonV)>::empty());
            }
            out
        },
    }
}

/// `s` ends with `suf`, checked by direct comparison.
pub fn ends_with_exec(s: &String, suf: &str) -> (r: bool)
    ensures
        r == ends_with(s@, suf@),
{
    let chars = crate::text::str_to_chars(s.as_str());
    let m = suf.unicode_len();
    if m > chars.len() {
        return false;
    }
    let at = chars.len() - m;
    let r = crate::text::matches_at(&chars, suf, at);
    proof {
        assert(crate::text::occurs_at(s@, suf@, s@.len() - suf@.len()) == ends_with(s@, suf@));
    }
    r
}

/// The file descriptor attached to upload and download events.
fn extract_file_info(value: &JsonValue, et: EventType, ts: i64, enhanced: bool) -> (r: Option<
    FileTransfer,
>)
    ensures
        opt_file_view(r) == spec_file_info(value@, et, ts, enhanced),
{
    if !(matches!(et, EventType::FileUpload) || matches!(et, EventType::FileDownload)) {
        return None;
    }
    let filename = match get_str_field(value, "filename") {
        None => {
            return None;
        },
        Some(f) => f,
    };
    let shasum = get_str_field(value, "shasum");
    let is_executable = enhanced && (ends_with_exec(&filename, ".sh") || ends_with_exec(
        &filename,
        ".bin",
    ) || ends_with_exec(&filename, ".elf") || ends_with_exec(&filename, ".exe"));
    let is_malware = enhanced && (match &shasum {
        Some(h) => {
            let hc = crate::text::str_to_chars(h.as_str());
            hc.len() > 0 && (hc[0] == 'e' || hc[0] == 'a')
        },
        None => false,
    });
    Some(
        FileTransfer {
            filename,
            local_path: get_str_field(value, "outfile"),
            size: None,
            shasum,
            timestamp: ts,
            direction: if matches!(et, EventType::FileUpload) {
                crate::models::FileTransferDirection::Upload
            } else {
                crate::models::FileTransferDirection::Download
            },
            mime_type: None,
            is_executable,
            is_malware,
        },
    )
}

/// Analyzes and parses log entries from the honeypot's wire format.
pub struct LogAnalyzer {
    /// Mapping of wire event names to the closed taxonomy.
    event_type_mapping: Vec<(String, EventType)>,
}

impl LogAnalyzer {
    /// The analyzer carries exactly the fixed event table.
    pub closed spec fn wf(&self) -> bool {
        table_view(self.event_type_mapping@) == event_table()
    }

    /// Create a new log analyzer holding the event-name table.
    pub fn new() -> (r: Self)
        ensures
            r.wf(),
    {
        LogAnalyzer { event_type_mapping: LogAnalyzer::new_event_table() }
    }

    /// Build the fixed event-name table.
    pub(crate) fn new_event_table() -> (r: Vec<(String, EventType)>)
        ensures
            table_view(r@) == event_table(),
    {
        let mut m: Vec<(String, EventType)> = Vec::new();
        m.push((String::from_str("cowrie.session.connect"), EventType::Connect));
        m.push((String::from_str("cowrie.session.closed"), EventType::Disconnect));
        m.push((String::from_str("cowrie.login.success"), EventType::LoginSuccess));
        m.push((String::from_str("cowrie.login.failed"), EventType::LoginFailed));
        m.push((String::from_str("cowrie.client.kex"), EventType::Connect));
        m.push((String::from_str("cowrie.client.version"), EventType::Connect));
        m.push((String::from_str("cowrie.command.input"), EventType::Command));
        m.push((String::from_str("cowrie.command.success"), EventType::Command));
        m.push((String::from_str("cowrie.session.file_download"), EventType::FileDownload));
        m.push((String::from_str("cowrie.session.file_upload"), EventType::FileUpload));
        m.push((String::from_str("cowrie.client.fingerprint"), EventType::KeyAuth));
        m.push((String::from_str("cowrie.direct-tcpip.request"), EventType::TCPForward));
        m.push((String::from_str("cowrie.direct-tcpip.data"), EventType::TCPForward));
        proof {
            assert(table_view(m@) =~= event_table());
        }
        m
    }

    /// Parse one JSON log line into a normalized log entry.
    ///
    /// Fails with `MalformedJson` exactly when the line is not one JSON
    /// text; with `MissingField` exactly when the event-type or timestamp
    /// member is absent or not a string; with `BadTimestamp` exactly when
    /// the timestamp is not a well-formed RFC 3339 string.  On success
    /// every field of the entry is the one the line's JSON value carries.
    pub fn parse_log_entry(&self, line: &str) -> (r: Result<LogEntry, ParseError>)
        requires
            self.wf(),
        ensures
            r is Err <==> spec_parse_error(line@) is Some,
            r matches Err(e) ==> Some(e) == spec_parse_error(line@),
            r matches Ok(entry) ==> spec_parse_json(line@) matches Some(v) && entry_matches(
                entry@,
                v,
                false,
            ),
    {
        parse_entry_core(&self.event_type_mapping, line, false)
    }

    /// Analyze a session for potential malicious activity.
    ///
    /// The score is exactly `basic_session_risk` of the session's state:
    /// additive factors for a successful login, for commands and suspicious
    /// command content, and for transferred files, capped at 100.
    pub fn analyze_session_risk(&self, session: &Session) -> (r: u8)
        ensures
            r == basic_session_risk(session@),
            r <= 100,
    {
        session_risk_score(session)
    }
}

/// The basic risk score of a session, exactly `basic_session_risk` of its
/// state: additive factors for a successful login, for commands and their
/// content, and for transferred files, capped at 100.
pub fn session_risk_score(session: &Session) -> (r: u8)
    ensures
        r == basic_session_risk(session@),
        r <= 100,
{
    let mut score: u32 = 0;
    if let Some(user) = &session.user {
        if user.login_success {
            score = 10;
        }
    }
    if session.commands.len() > 0 {
        score = score + 20;
        let n = session.commands.len();
        let ghost cmds = session@.commands;
        let mut i: usize = 0;
        proof {
            assert(cmds.take(0) =~= Seq::<CommandV>::empty());
        }
        while i < n
            invariant
                i <= n,
                n == session.commands@.len(),
                cmds == session@.commands,
                cmds.len() == n,
                forall|k: int| 0 <= k < n ==> cmds[k] == session.commands@[k]@,
                score == cap100(
                    base_factors(session@) + basic_commands_score(cmds.take(i as int)),
                ),
                score <= 100,
            decreases n - i,
        {
            let ghost old_take = cmds.take(i as int);
            let d = basic_command_points(&session.commands[i]);
            proof {
                lemma_basic_commands_score_nonneg(old_take);
                assert(cmds.take(i as int + 1).drop_last() =~= old_take);
                assert(cmds.take(i as int + 1).last() == cmds[i as int]);
            }
            score = score + d;
            if score > 100 {
                score = 100;
            }
            i = i + 1;
        }
        proof {
            assert(cmds.take(n as int) =~= cmds);
        }
    }
    if session.files.len() > 0 {
        score = score + 30;
        if score > 100 {
            score = 100;
        }
    }
    proof {
        lemma_basic_commands_score_nonneg(session@.commands);
    }
    score as u8
}

/// A value capped at 100.
pub open spec fn cap100(x: int) -> int {
    if x > 100 {
        100
    } else {
        x
    }
}

/// The risk points one command contributes under the basic rules.
pub open spec fn basic_command_score(c: Seq<char>) -> int {
    let lc = lower_seq(c);
    (if contains_seq(lc, "wget"@) || contains_seq(lc, "curl"@) || contains_seq(lc, "tftp"@) {
        10int
    } else {
        0int
    }) + (if contains_seq(lc, "/tmp"@) || contains_seq(lc, "/var/tmp"@) || contains_seq(
        lc,
        "/dev/shm"@,
    ) {
        5int
    } else {
        0int
    }) + (if contains_seq(lc, "chmod"@) && contains_seq(lc, "777"@) {
        15int
    } else {
        0int
    }) + (if contains_seq(lc, "busybox"@) || contains_seq(lc, "xmrig"@) || contains_seq(
        lc,
        "mirai"@,
    ) || contains_seq(lc, "ddos"@) {
        25int
    } else {
        0int
    })
}

/// The risk points of a command sequence under the basic rules.
pub open spec fn basic_commands_score(cs: Seq<CommandV>) -> int
    decreases cs.len(),
{
    if cs.len() == 0 {
        0
    } else {
        basic_commands_score(cs.drop_last()) + basic_command_score(cs.last().command)
    }
}

/// Command scores never subtract.
pub proof fn lemma_basic_commands_score_nonneg(cs: Seq<CommandV>)
    ensures
        basic_commands_score(cs) >= 0,
    decreases cs.len(),
{
    if cs.len() > 0 {
        lemma_basic_commands_score_nonneg(cs.drop_last());
    }
}

/// The flat factors of the basic risk score: login, any commands, any files.
pub open spec fn base_factors(s: SessionV) -> int {
    (if s.user matches Some(u) && u.login_success {
        10int
    } else {
        0int
    }) + (if s.commands.len() > 0 {
        20int
    } else {
        0int
    })
}

/// The basic risk score of a session: additive factors, capped at 100.
pub open spec fn basic_session_risk(s: SessionV) -> int {
    cap100(
        cap100(
            base_factors(s) + if s.commands.len() > 0 {
                basic_commands_score(s.commands)
            } else {
                0int
            },
        ) + if s.files.len() > 0 {
            30int
        } else {
            0int
        },
    )
}

/// The risk points one command contributes, computed over its text.
fn basic_command_points(c: &Command) -> (r: u32)
    ensures
        r == basic_command_score(c@.command),
        r <= 55,
{
    let lc = to_ascii_lower(&c.command);
    let mut pts: u32 = 0;
    if string_contains(&lc, "wget") || string_contains(&lc, "curl") || string_contains(
        &lc,
        "tftp",
    ) {
        pts = pts + 10;
    }
    if string_contains(&lc, "/tmp") || string_contains(&lc, "/var/tmp") || string_contains(
        &lc,
        "/dev/shm",
    ) {
        pts = pts + 5;
    }
    if string_contains(&lc, "chmod") && string_contains(&lc, "777") {
        pts = pts + 15;
    }
    if string_contains(&lc, "busybox") || string_contains(&lc, "xmrig") || string_contains(
        &lc,
        "mirai",
    ) || string_contains(&lc, "ddos") {
        pts = pts + 25;
    }
    pts
}

/// The shared body of the two analyzers' line parsers.
pub(crate) fn parse_entry_core(table: &Vec<(String, EventType)>, line: &str, enhanced: bool) -> (r: Result<
    LogEntry,
    ParseError,
>)
    requires
        table_view(table@) == event_table(),
    ensures
        r is Err <==> spec_parse_error(line@) is Some,
        r matches Err(e) ==> Some(e) == spec_parse_error(line@),
        r matches Ok(entry) ==> spec_parse_json(line@) matches Some(v) && entry_matches(
            entry@,
            v,
            enhanced,
        ),
{
    let value = match parse_json(line) {
        None => {
            return Err(ParseError::MalformedJson);
        },
        Some(v) => v,
    };
    let eventid = match get_str_field(&value, "eventid") {
        None => {
            return Err(ParseError::MissingField);
        },
        Some(t) => t,
    };
    let ts_str = match get_str_field(&value, "timestamp") {
        None => {
            return Err(ParseError::MissingField);
        },
        Some(t) => t,
    };
    let ts_chars = str_to_chars(ts_str.as_str());
    let ts = match parse_rfc3339_millis(&ts_chars) {
        None => {
            return Err(ParseError::BadTimestamp);
        },
        Some(t) => t,
    };
    let event_type = resolve_in_table(table, &eventid);
    let file = extract_file_info(&value, event_type, ts, enhanced);
    let value_again = match parse_json(line) {
        None => {
            proof {
                assert(false);
            }
            return Err(ParseError::MalformedJson);
        },
        Some(v) => v,
    };
    let fields = take_extra_fields(value_again);
    let id = new_entry_id();
    let entry = LogEntry {
        id,
        timestamp: ts,
        event_type,
        session: get_str_field(&value, "session"),
        src_ip: get_str_field(&value, "src_ip"),
        src_port: match get_u64_field(&value, "src_port") {
            Some(n) => Some(n as u16),
            None => None,
        },
        dst_ip: get_str_field(&value, "dst_ip"),
        dst_port: match get_u64_field(&value, "dst_port") {
            Some(n) => Some(n as u16),
            None => None,
        },
        username: get_str_field(&value, "username"),
        password: get_str_field(&value, "password"),
        command: get_str_field(&value, "input"),
        file,
        fields,
        raw: value,
    };
    Ok(entry)
}

/// Resolve a wire event name against a table holding the fixed mapping.
fn resolve_in_table(table: &Vec<(String, EventType)>, name: &String) -> (r: EventType)
    requires
        table_view(table@) == event_table(),
    ensures
        r == resolve_event(name@),
{
    let n = table.len();
    let ghost tv = table_view(table@);
    proof {
        assert(tv.skip(0) =~= tv);
        assert(forall|k: int|
            0 <= k < table@.len() ==> tv[k] == (table@[k].0@, table@[k].1));
    }
    let mut i: usize = 0;
    while i < n
        invariant
            i <= n,
            n == table@.len(),
            tv == table_view(table@),
            tv.len() == n,
            forall|k: int| 0 <= k < n ==> tv[k] == (table@[k].0@, table@[k].1),
            tv == event_table(),
            lookup_event(event_table(), name@) == lookup_event(tv.skip(i as int), name@),
        decreases n - i,
    {
        proof {
            assert(tv.skip(i as int)[0] == tv[i as int]);
            assert(tv.skip(i as int).drop_first() =~= tv.skip(i as int + 1));
        }
        if crate::text::str_eq(table[i].0.as_str(), name.as_str()) {
            return table[i].1;
        }
        i = i + 1;
    }
    proof {
        assert(tv.skip(n as int).len() == 0);
    }
    EventType::Unknown
}

} // verus!