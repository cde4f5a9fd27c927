//! Manages honeypot sessions: one state machine per connection id, driven
//! by the stream of log entries, with timeout-based finalization.
//!
//! A session is created on the first entry naming an unseen id, updated on
//! every later entry for that id, closed by a disconnect event or by the
//! periodic timeout sweep, and evicted from the store only by capacity.

use vstd::prelude::*;

use crate::json::{JsonV, JsonValue, obj_lookup};
use crate::log_analyzer::{basic_session_risk, session_risk_score};
use crate::models::{
    Command, CommandV, EventType, FileTransfer, LogEntry, LogEntryV, Session, SessionV, User,
    UserV, opt_str_view,
};
use crate::settings::Config;
use crate::store::{Store, StoreError, evict_count, session_index};

verus! {

/// The session timeout in seconds: a session with no disconnect is closed
/// by the sweep once it is older than this.
pub const SESSION_TIMEOUT_SECS: u64 = 1800;

/// A string member of an entry's open field map, the last of its key.
pub open spec fn fields_str(fields: Seq<(Seq<char>, JsonV)>, key: Seq<char>) -> Option<
    Seq<char>,
> {
    match obj_lookup(fields, key) {
        Some(JsonV::Str(t)) => Some(t),
        _ => None,
    }
}

/// A boolean member of an entry's open field map, the last of its key.
pub open spec fn fields_bool(fields: Seq<(Seq<char>, JsonV)>, key: Seq<char>) -> Option<bool> {
    match obj_lookup(fields, key) {
        Some(JsonV::Bool(b)) => Some(b),
        _ => None,
    }
}

/// Whole seconds of a millisecond difference, truncated toward zero.
pub open spec fn whole_seconds(diff: int) -> int {
    if diff >= 0 {
        diff / 1000
    } else {
        -((-diff) / 1000)
    }
}

/// The transport label derived from the destination port.
pub open spec fn protocol_of_port(port: u16) -> Seq<char> {
    if port == 22 || port == 2222 {
        "SSH"@
    } else if port == 23 || port == 2223 {
        "Telnet"@
    } else {
        "Unknown"@
    }
}

/// The session constructed for an unseen connection id from its first
/// entry, with fields defaulted where the entry does not carry them.
pub open spec fn spec_create_session(sid: Seq<char>, e: LogEntryV) -> SessionV {
    SessionV {
        id: sid,
        start_time: e.timestamp,
        end_time: None,
        src_ip: match e.src_ip {
            Some(ip) => ip,
            None => "0.0.0.0"@,
        },
        src_port: match e.src_port {
            Some(p) => p,
            None => 0,
        },
        dst_ip: match e.dst_ip {
            Some(ip) => ip,
            None => "0.0.0.0"@,
        },
        dst_port: match e.dst_port {
            Some(p) => p,
            None => 0,
        },
        protocol: protocol_of_port(
            match e.dst_port {
                Some(p) => p,
                None => 0,
            },
        ),
        client_version: None,
        user: None,
        duration: None,
        commands: Seq::empty(),
        files: Seq::empty(),
        geo_location: None,
        tty_log: None,
        shasum: None,
        is_malicious: false,
        malicious_score: 0,
    }
}

/// The sticky authentication rule: a login-like event replaces the user
/// record only when none exists yet, or when it is a success and the
/// existing record is not.
pub open spec fn auth_replaces(user: Option<UserV>, success: bool) -> bool {
    user is None || (success && !user->0.login_success)
}

/// One entry's effect on the named session's fields, before rescoring.
pub open spec fn spec_apply_event(s: SessionV, e: LogEntryV) -> SessionV {
    let stepped = if e.event_type == EventType::Connect {
        SessionV {
            src_ip: match e.src_ip {
                Some(ip) => ip,
                None => s.src_ip,
            },
            src_port: match e.src_port {
                Some(p) => p,
                None => s.src_port,
            },
            dst_ip: match e.dst_ip {
                Some(ip) => ip,
                None => s.dst_ip,
            },
            dst_port: match e.dst_port {
                Some(p) => p,
                None => s.dst_port,
            },
            client_version: match fields_str(e.fields, "version"@) {
                Some(v) => Some(v),
                None => s.client_version,
            },
            ..s
        }
    } else if e.event_type == EventType::Disconnect {
        SessionV {
            end_time: Some(e.timestamp),
            duration: Some(whole_seconds(e.timestamp - s.start_time) as u64),
            ..s
        }
    } else if e.event_type == EventType::LoginAttempt || e.event_type == EventType::LoginSuccess
        || e.event_type == EventType::LoginFailed {
        let success = e.event_type == EventType::LoginSuccess;
        if auth_replaces(s.user, success) {
            SessionV {
                user: Some(
                    UserV {
                        username: match e.username {
                            Some(u) => u,
                            None => Seq::empty(),
                        },
                        password: e.password,
                        key_fingerprint: None,
                        login_success: success,
                        login_time: e.timestamp,
                    },
                ),
                ..s
            }
        } else {
            s
        }
    } else if e.event_type == EventType::KeyAuth {
        let success = match fields_bool(e.fields, "success"@) {
            Some(b) => b,
            None => false,
        };
        if auth_replaces(s.user, success) {
            SessionV {
                user: Some(
                    UserV {
                        username: match e.username {
                            Some(u) => u,
                            None => Seq::empty(),
                        },
                        password: None,
                        key_fingerprint: fields_str(e.fields, "fingerprint"@),
                        login_success: success,
                        login_time: e.timestamp,
                    },
                ),
                ..s
            }
        } else {
            s
        }
    } else if e.event_type == EventType::Command {
        match e.command {
            Some(cmd) => SessionV {
                commands: s.commands.push(
                    CommandV {
                        command: cmd,
                        timestamp: e.timestamp,
                        success: match fields_bool(e.fields, "success"@) {
                            Some(b) => b,
                            None => true,
                        },
                        output: fields_str(e.fields, "output"@),
                    },
                ),
                ..s
            },
            None => s,
        }
    } else if e.event_type == EventType::FileUpload || e.event_type == EventType::FileDownload {
        match e.file {
            Some(f) => SessionV { files: s.files.push(f), ..s },
            None => s,
        }
    } else {
        s
    };
    SessionV {
        tty_log: match fields_str(e.fields, "ttylog"@) {
            Some(t) => Some(t),
            None => stepped.tty_log,
        },
        shasum: match fields_str(e.fields, "shasum"@) {
            Some(t) => Some(t),
            None => stepped.shasum,
        },
        ..stepped
    }
}

/// A session with its risk score freshly recomputed.
pub open spec fn rescored(s: SessionV) -> SessionV {
    SessionV { malicious_score: basic_session_risk(s) as u8, ..s }
}

/// The session state an entry leaves in the store for its connection id:
/// the existing session updated, or a new one constructed first, in either
/// case rescored.
pub open spec fn spec_process_entry(ss: Seq<SessionV>, e: LogEntryV, cap: int) -> Seq<SessionV> {
    match e.session {
        None => ss,
        Some(sid) => {
            let idx = session_index(ss, sid);
            if idx >= 0 {
                ss.update(idx, rescored(spec_apply_event(ss[idx], e)))
            } else {
                let created = rescored(spec_apply_event(spec_create_session(sid, e), e));
                (ss + seq![created]).skip(evict_count(ss.len() as int + 1, cap))
            }
        },
    }
}

/// A session the sweep must close: still open, and started longer ago than
/// the timeout allows.
pub open spec fn timed_out(s: SessionV, now: i64, timeout_secs: u64) -> bool {
    s.end_time is None && (whole_seconds(now - s.start_time) as u64) > timeout_secs
}

/// A session closed by the sweep at the given instant.
pub open spec fn swept_closed(s: SessionV, now: i64) -> SessionV {
    SessionV {
        end_time: Some(now),
        duration: Some(whole_seconds(now - s.start_time) as u64),
        ..s
    }
}

/// The whole store's sessions after one sweep tick.
pub open spec fn spec_sweep(ss: Seq<SessionV>, now: i64, timeout_secs: u64) -> Seq<SessionV> {
    Seq::new(
        ss.len(),
        |i: int|
            if timed_out(ss[i], now, timeout_secs) {
                swept_closed(ss[i], now)
            } else {
                ss[i]
            },
    )
}

/// Whole seconds between two instants, truncated toward zero, as the
/// unsigned value the session records carry.
fn duration_secs(end: i64, start: i64) -> (r: u64)
    ensures
        r == whole_seconds(end - start) as u64,
{
    let diff: i128 = (end as i128) - (start as i128);
    if diff >= 0 {
        #[verifier::truncate]
        ((diff / 1000) as u64)
    } else {
        #[verifier::truncate]
        ((-((-diff) / 1000)) as u64)
    }
}

/// The value of the last member of a field map with the given key.
fn fields_get<'a>(fields: &'a Vec<(String, JsonValue)>, key: &str) -> (r: Option<&'a JsonValue>)
    ensures
        r matches Some(x) ==> obj_lookup(crate::json::view_obj(fields@), key@) == Some(
            crate::json::view_json(*x),
        ),
        r is None ==> obj_lookup(crate::json::view_obj(fields@), key@) is None,
{
    proof {
        crate::json::lemma_view_obj(fields@);
        assert(crate::json::view_obj(fields@).take(fields@.len() as int) =~= crate::json::view_obj(
            fields@,
        ));
    }
    let ghost whole = crate::json::view_obj(fields@);
    let mut idx = fields.len();
    while idx > 0
        invariant
            idx <= fields@.len(),
            whole == crate::json::view_obj(fields@),
            whole.len() == fields@.len(),
            forall|i: int|
                0 <= i < fields@.len() ==> whole[i] == (
                fields@[i].0@,
                crate::json::view_json(fields@[i].1),
                ),
            obj_lookup(whole, key@) == obj_lookup(whole.take(idx as int), key@),
        decreases idx,
    {
        idx = idx - 1;
        proof {
            assert(whole.take(idx + 1).last() == whole[idx as int]);
            assert(whole.take(idx + 1).drop_last() =~= whole.take(idx as int));
        }
        if crate::text::str_eq(fields[idx].0.as_str(), key) {
            proof {
                assert(whole[idx as int] == (fields@[idx as int].0@, crate::json::view_json(
                    fields@[idx as int].1,
                )));
                assert(whole.take(idx as int + 1).last().0 == key@);
                assert(obj_lookup(whole.take(idx as int + 1), key@) == Some(
                    whole.take(idx as int + 1).last().1,
                ));
            }
            return Some(&fields[idx].1);
        }
    }
    proof {
        assert(whole.take(0) =~= Seq::<(Seq<char>, JsonV)>::empty());
    }
    None
}

/// The last string member of the open field map under the given key.
fn get_fields_str(fields: &Vec<(String, JsonValue)>, key: &str) -> (r: Option<String>)
    ensures
        opt_str_view(r) == fields_str(crate::json::view_obj(fields@), key@),
{
    match fields_get(fields, key) {
        Some(JsonValue::Str(t)) => Some(t.clone()),
        _ => None,
    }
}

/// The last boolean member of the open field map under the given key.
fn get_fields_bool(fields: &Vec<(String, JsonValue)>, key: &str) -> (r: Option<bool>)
    ensures
        r == fields_bool(crate::json::view_obj(fields@), key@),
{
    match fields_get(fields, key) {
        Some(JsonValue::Bool(b)) => Some(*b),
        _ => None,
    }
}

/// Construct the session for an unseen connection id from its first entry.
pub fn create_session_from_log_entry(session_id: &str, entry: &LogEntry) -> (r: Result<
    Session,
    StoreError,
>)
    ensures
        r is Ok,
        r matches Ok(s) ==> s@ == spec_create_session(session_id@, entry@),
{
    let src_ip = match &entry.src_ip {
        Some(ip) => ip.clone(),
        None => String::from_str("0.0.0.0"),
    };
    let src_port = match entry.src_port {
        Some(p) => p,
        None => 0,
    };
    let dst_ip = match &entry.dst_ip {
        Some(ip) => ip.clone(),
        None => String::from_str("0.0.0.0"),
    };
    let dst_port = match entry.dst_port {
        Some(p) => p,
        None => 0,
    };
    let protocol = if dst_port == 22 || dst_port == 2222 {
        String::from_str("SSH")
    } else if dst_port == 23 || dst_port == 2223 {
        String::from_str("Telnet")
    } else {
        String::from_str("Unknown")
    };
    let commands: Vec<Command> = Vec::new();
    let files: Vec<FileTransfer> = Vec::new();
    proof {
        assert(commands@.map_values(|c: Command| c@) =~= Seq::<CommandV>::empty());
        assert(files@.map_values(|f: FileTransfer| f@) =~= Seq::<
            crate::models::FileTransferV,
        >::empty());
    }
    Ok(
        Session {
            id: String::from_str(session_id),
            start_time: entry.timestamp,
            end_time: None,
            src_ip,
            src_port,
            dst_ip,
            dst_port,
            protocol,
            client_version: None,
            user: None,
            duration: None,
            commands,
            files,
            geo_location: None,
            tty_log: None,
            shasum: None,
            is_malicious: false,
            malicious_score: 0,
        },
    )
}

/// Update a session in place with the data one entry carries for it.
pub fn update_session_from_log_entry(session: &mut Session, entry: &LogEntry)
    ensures
        final(session)@ == spec_apply_event(old(session)@, entry@),
{
    match entry.event_type {
        EventType::Connect => {
            match &entry.src_ip {
                Some(ip) => {
                    session.src_ip = ip.clone();
                },
                None => (),
            }
            match entry.src_port {
                Some(p) => {
                    session.src_port = p;
                },
                None => (),
            }
            match &entry.dst_ip {
                Some(ip) => {
                    session.dst_ip = ip.clone();
                },
                None => (),
            }
            match entry.dst_port {
                Some(p) => {
                    session.dst_port = p;
                },
                None => (),
            }
            match get_fields_str(&entry.fields, "version") {
                Some(v) => {
                    session.client_version = Some(v);
                },
                None => (),
            }
        },
        EventType::Disconnect => {
            session.end_time = Some(entry.timestamp);
            session.duration = Some(duration_secs(entry.timestamp, session.start_time));
        },
        EventType::LoginAttempt | EventType::LoginSuccess | EventType::LoginFailed => {
            let success = matches!(entry.event_type, EventType::LoginSuccess);
            let replace = match &session.user {
                None => true,
                Some(u) => success && !u.login_success,
            };
            if replace {
                session.user = Some(
                    User {
                        username: match &entry.username {
                            Some(u) => u.clone(),
                            None => String::new(),
                        },
                        password: crate::models::clone_opt_string(&entry.password),
                        key_fingerprint: None,
                        login_success: success,
                        login_time: entry.timestamp,
                    },
                );
            }
        },
        EventType::KeyAuth => {
            let success = match get_fields_bool(&entry.fields, "success") {
                Some(b) => b,
                None => false,
            };
            let replace = match &session.user {
                None => true,
                Some(u) => success && !u.login_success,
            };
            if replace {
                session.user = Some(
                    User {
                        username: match &entry.username {
                            Some(u) => u.clone(),
                            None => String::new(),
                        },
                        password: None,
                        key_fingerprint: get_fields_str(&entry.fields, "fingerprint"),
                        login_success: success,
                        login_time: entry.timestamp,
                    },
                );
            }
        },
        EventType::Command => {
            match &entry.command {
                Some(cmd) => {
                    let success = match get_fields_bool(&entry.fields, "success") {
                        Some(b) => b,
                        None => true,
                    };
                    let output = get_fields_str(&entry.fields, "output");
                    let ghost pre_cmds = session.commands@;
                    session.commands.push(
                        Command {
                            command: cmd.clone(),
                            timestamp: entry.timestamp,
                            success,
                            output,
                        },
                    );
                    proof {
                        assert(session.commands@.map_values(|c: Command| c@)
                            =~= pre_cmds.map_values(|c: Command| c@).push(
                            session.commands@.last()@,
                        ));
                    }
                },
                None => (),
            }
        },
        EventType::FileUpload | EventType::FileDownload => {
            match &entry.file {
                Some(f) => {
                    let ghost pre_files = session.files@;
                    session.files.push(f.clone());
                    proof {
                        assert(session.files@.map_values(|x: FileTransfer| x@)
                            =~= pre_files.map_values(|x: FileTransfer| x@).push(
                            session.files@.last()@,
                        ));
                    }
                },
                None => (),
            }
        },
        _ => (),
    }
    match get_fields_str(&entry.fields, "ttylog") {
        Some(t) => {
            session.tty_log = Some(t);
        },
        None => (),
    }
    match get_fields_str(&entry.fields, "shasum") {
        Some(t) => {
            session.shasum = Some(t);
        },
        None => (),
    }
}

/// Manages honeypot sessions against a store of resident state.
pub struct SessionManager {
    /// Session timeout in seconds.
    session_timeout: u64,
}

impl SessionManager {
    /// The timeout the sweep applies, in seconds.
    pub closed spec fn timeout_secs(&self) -> u64 {
        self.session_timeout
    }

    /// Create a new session manager with the default session timeout.
    pub fn new(config: &Config) -> (r: Result<Self, StoreError>)
        ensures
            r is Ok,
            r matches Ok(m) ==> m.timeout_secs() == SESSION_TIMEOUT_SECS,
    {
        let _ = config;
        Ok(SessionManager { session_timeout: 30 * 60 })
    }

    /// Process one log entry: construct or update the session its
    /// connection id names, rescore it, write it back, and hand the updated
    /// session out for publication.  Entries without a connection id leave
    /// the store unchanged.
    pub fn process_log_entry(&self, store: &mut Store, entry: &LogEntry) -> (r: Result<
        Option<Session>,
        StoreError,
    >)
        ensures
            r is Ok,
            final(store).sess() == spec_process_entry(
                old(store).sess(),
                entry@,
                old(store).cap_sessions(),
            ),
            final(store).logs() == old(store).logs(),
            final(store).cap_logs() == old(store).cap_logs(),
            final(store).cap_sessions() == old(store).cap_sessions(),
            old(store).wf() ==> final(store).wf(),
            r matches Ok(Some(s)) ==> entry@.session is Some && s@ == rescored(
                spec_apply_event(
                    {
                        let idx = session_index(old(store).sess(), entry@.session->0);
                        if idx >= 0 {
                            old(store).sess()[idx]
                        } else {
                            spec_create_session(entry@.session->0, entry@)
                        }
                    },
                    entry@,
                ),
            ),
            r matches Ok(None) ==> entry@.session is None && *final(store) == *old(store),
    {
        let session_id = match &entry.session {
            Some(id) => id,
            None => {
                return Ok(None);
            },
        };
        let mut session: Session = match store.get_session(session_id.as_str()) {
            Some(existing) => existing.clone(),
            None => create_session_from_log_entry(session_id.as_str(), entry)?,
        };
        update_session_from_log_entry(&mut session, entry);
        session.malicious_score = session_risk_score(&session);
        let updated = session.clone();
        match store.get_session(session_id.as_str()) {
            Some(_) => {
                let res = store.update_session(session);
                proof {
                    crate::store::lemma_session_index(old(store).sess(), entry@.session->0);
                }
                match res {
                    Ok(_) => (),
                    Err(_) => {
                        proof {
                            assert(false);
                        }
                    },
                }
            },
            None => {
                let _ = store.add_session(session);
                proof {
                    crate::store::lemma_session_index(old(store).sess(), entry@.session->0);
                }
            },
        }
        Ok(Some(updated))
    }

    /// Close every open session older than the timeout: set its end time to
    /// `now`, record its duration, write it back, and return the sessions
    /// that were closed, oldest first, for publication.
    pub fn check_session_timeouts(&self, store: &mut Store, now: i64) -> (r: Result<
        Vec<Session>,
        StoreError,
    >)
        ensures
            r is Ok,
            final(store).sess() == spec_sweep(old(store).sess(), now, self.timeout_secs()),
            final(store).logs() == old(store).logs(),
            final(store).cap_logs() == old(store).cap_logs(),
            final(store).cap_sessions() == old(store).cap_sessions(),
            old(store).wf() ==> final(store).wf(),
            r matches Ok(closed) ==> closed@.map_values(|s: Session| s@) == old(
                store,
            ).sess().filter(|s: SessionV| timed_out(s, now, self.timeout_secs())).map_values(
                |s: SessionV| swept_closed(s, now),
            ),
    {
        let mut closed: Vec<Session> = Vec::new();
        let ghost pre = store.sess();
        let n = store.get_session_count();
        let mut i: usize = 0;
        proof {
            reveal(Seq::filter);
            assert(pre.take(0) =~= Seq::<SessionV>::empty());
            assert(spec_sweep(pre, now, self.timeout_secs()).len() == pre.len());
        }
        while i < n
            invariant
                i <= n,
                n == store.sess().len(),
                store.sess().len() == pre.len(),
                store.cap_logs() == old(store).cap_logs(),
                store.cap_sessions() == old(store).cap_sessions(),
                store.logs() == old(store).logs(),
                store.ips_set() == old(store).ips_set(),
                store.usernames_set() == old(store).usernames_set(),
                store.passwords_set() == old(store).passwords_set(),
                pre == old(store).sess(),
                forall|k: int|
                    0 <= k < i ==> store.sess()[k] == spec_sweep(
                        pre,
                        now,
                        self.timeout_secs(),
                    )[k],
                forall|k: int| i <= k < n ==> store.sess()[k] == pre[k],
                closed@.map_values(|s: Session| s@) == pre.take(i as int).filter(
                    |s: SessionV| timed_out(s, now, self.timeout_secs()),
                ).map_values(|s: SessionV| swept_closed(s, now)),
            decreases n - i,
        {
            let ghost gi = i as int;
            proof {
                reveal(Seq::filter);
                assert(pre.take(gi + 1).drop_last() =~= pre.take(gi));
                assert(pre.take(gi + 1).last() == pre[gi]);
            }
            let is_open_timed_out = {
                let s = store.get_session_at(i);
                match s.end_time {
                    None => duration_secs(now, s.start_time) > self.session_timeout,
                    Some(_) => false,
                }
            };
            if is_open_timed_out {
                let mut updated = {
                    let s = store.get_session_at(i);
                    s.clone()
                };
                updated.end_time = Some(now);
                updated.duration = Some(duration_secs(now, updated.start_time));
                proof {
                    assert(updated@ == swept_closed(pre[gi], now));
                }
                let ghost pre_closed = closed@;
                closed.push(updated.clone());
                proof {
                    assert(closed@.map_values(|s: Session| s@) =~= pre_closed.map_values(
                        |s: Session| s@,
                    ).push(swept_closed(pre[gi], now)));
                }
                store.set_session_at(i, updated);
            }
            i = i + 1;
        }
        proof {
            assert(pre.take(n as int) =~= pre);
            assert(store.sess() =~= spec_sweep(pre, now, self.timeout_secs()));
        }
        Ok(closed)
    }
}

} // verus!
