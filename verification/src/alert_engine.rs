//! Alert engine: evaluates the fixed rule set over incoming log entries
//! and session updates, and keeps the generated alerts until they are
//! acknowledged and cleared.
//!
//! Addresses are compared textually: the engine treats the configured
//! allow and deny lists and the set of already-seen sources as sets of
//! address strings.

use vstd::prelude::*;

use crate::models::{EventType, LogEntry, LogEntryV, Session, SessionV, opt_str_view};
use crate::settings::AlertConfig;
use crate::store::StoreError;
use crate::text::{contains_seq, dec_rep, lower_seq, str_eq, string_contains, to_ascii_lower,
    u64_to_string};

verus! {

/// Alert types that can be triggered.
#[derive(Debug)]
pub enum AlertType {
    /// Successful login
    SuccessfulLogin { session_id: String, username: String, src_ip: String },
    /// File upload
    FileUpload { session_id: String, filename: String, shasum: Option<String> },
    /// Suspicious command
    SuspiciousCommand { session_id: String, command: String },
    /// New source IP
    NewSourceIp { ip: String },
    /// Blacklisted IP
    BlacklistedIp { ip: String },
    /// High risk activity
    HighRiskActivity { session_id: String, risk_score: u8, reason: String },
}

/// The mathematical view of an alert's tagged variant.
pub enum AlertTypeV {
    SuccessfulLogin { session_id: Seq<char>, username: Seq<char>, src_ip: Seq<char> },
    FileUpload { session_id: Seq<char>, filename: Seq<char>, shasum: Option<Seq<char>> },
    SuspiciousCommand { session_id: Seq<char>, command: Seq<char> },
    NewSourceIp { ip: Seq<char> },
    BlacklistedIp { ip: Seq<char> },
    HighRiskActivity { session_id: Seq<char>, risk_score: u8, reason: Seq<char> },
}

impl View for AlertType {
    type V = AlertTypeV;

    open spec fn view(&self) -> AlertTypeV {
        match self {
            AlertType::SuccessfulLogin { session_id, username, src_ip } => {
                AlertTypeV::SuccessfulLogin {
                    session_id: session_id@,
                    username: username@,
                    src_ip: src_ip@,
                }
            },
            AlertType::FileUpload { session_id, filename, shasum } => {
                AlertTypeV::FileUpload {
                    session_id: session_id@,
                    filename: filename@,
                    shasum: opt_str_view(*shasum),
                }
            },
            AlertType::SuspiciousCommand { session_id, command } => {
                AlertTypeV::SuspiciousCommand { session_id: session_id@, command: command@ }
            },
            AlertType::NewSourceIp { ip } => AlertTypeV::NewSourceIp { ip: ip@ },
            AlertType::BlacklistedIp { ip } => AlertTypeV::BlacklistedIp { ip: ip@ },
            AlertType::HighRiskActivity { session_id, risk_score, reason } => {
                AlertTypeV::HighRiskActivity {
                    session_id: session_id@,
                    risk_score: *risk_score,
                    reason: reason@,
                }
            },
        }
    }
}

/// Alert notification.
#[derive(Debug)]
pub struct Alert {
    /// Alert type
    pub alert_type: AlertType,
    /// When the alert was generated, milliseconds since the Unix epoch
    pub timestamp: i64,
    /// Is this alert acknowledged
    pub acknowledged: bool,
    /// Alert message
    pub message: String,
}

/// The mathematical view of an alert.
pub struct AlertV {
    pub alert_type: AlertTypeV,
    pub timestamp: i64,
    pub acknowledged: bool,
    pub message: Seq<char>,
}

impl View for Alert {
    type V = AlertV;

    open spec fn view(&self) -> AlertV {
        AlertV {
            alert_type: self.alert_type@,
            timestamp: self.timestamp,
            acknowledged: self.acknowledged,
            message: self.message@,
        }
    }
}

/// The human-readable message each alert variant carries.
pub open spec fn spec_alert_message(t: AlertTypeV) -> Seq<char> {
    match t {
        AlertTypeV::SuccessfulLogin { username, src_ip, .. } => {
            "Successful login for user '"@ + username + "' from "@ + src_ip
        },
        AlertTypeV::FileUpload { filename, shasum, .. } => {
            match shasum {
                Some(h) => "File uploaded: "@ + filename + " (SHA256: "@ + h + ")"@,
                None => "File uploaded: "@ + filename,
            }
        },
        AlertTypeV::SuspiciousCommand { command, .. } => "Suspicious command: "@ + command,
        AlertTypeV::NewSourceIp { ip } => "New source IP detected: "@ + ip,
        AlertTypeV::BlacklistedIp { ip } => "Connection from blacklisted IP: "@ + ip,
        AlertTypeV::HighRiskActivity { risk_score, reason, .. } => {
            "High risk activity detected (Score: "@ + dec_rep(risk_score as nat) + "): "@
                + reason
        },
    }
}

/// A string is a member of a list of strings.
pub open spec fn in_string_list(l: Seq<Seq<char>>, s: Seq<char>) -> bool {
    exists|i: int| 0 <= i < l.len() && l[i] == s
}

/// The view of a list of strings.
pub open spec fn string_list_view(v: Seq<String>) -> Seq<Seq<char>> {
    v.map_values(|s: String| s@)
}

/// Whether the command matches one of the configured trigger substrings.
pub open spec fn command_triggers(cmd: Seq<char>, triggers: Seq<Seq<char>>) -> bool {
    exists|i: int| 0 <= i < triggers.len() && contains_seq(cmd, triggers[i])
}

/// The alert variants one log entry triggers under a configuration and a
/// set of already-seen source addresses, in evaluation order: successful
/// login, file upload, configured command substring, new source address,
/// and deny-listed address.
pub open spec fn spec_entry_alert_types(
    cfg: &AlertConfig,
    known: Seq<Seq<char>>,
    e: LogEntryV,
) -> Seq<AlertTypeV> {
    (if cfg.on_successful_login && e.event_type == EventType::LoginSuccess && e.session is Some
        && e.username is Some && e.src_ip is Some {
        seq![
            AlertTypeV::SuccessfulLogin {
                session_id: e.session->0,
                username: e.username->0,
                src_ip: e.src_ip->0,
            },
        ]
    } else {
        Seq::<AlertTypeV>::empty()
    }) + (if cfg.on_file_upload && e.event_type == EventType::FileUpload && e.session is Some
        && e.file is Some {
        seq![
            AlertTypeV::FileUpload {
                session_id: e.session->0,
                filename: e.file->0.filename,
                shasum: e.file->0.shasum,
            },
        ]
    } else {
        Seq::<AlertTypeV>::empty()
    }) + (if e.event_type == EventType::Command && e.session is Some && e.command is Some
        && command_triggers(e.command->0, string_list_view(cfg.on_commands@)) {
        seq![AlertTypeV::SuspiciousCommand { session_id: e.session->0, command: e.command->0 }]
    } else {
        Seq::<AlertTypeV>::empty()
    }) + (if cfg.on_new_source_ip && e.src_ip is Some && !in_string_list(known, e.src_ip->0) {
        seq![AlertTypeV::NewSourceIp { ip: e.src_ip->0 }]
    } else {
        Seq::<AlertTypeV>::empty()
    }) + (if e.src_ip is Some && in_string_list(string_list_view(cfg.ip_blacklist@), e.src_ip->0)
        && !in_string_list(string_list_view(cfg.ip_whitelist@), e.src_ip->0) {
        seq![AlertTypeV::BlacklistedIp { ip: e.src_ip->0 }]
    } else {
        Seq::<AlertTypeV>::empty()
    })
}

/// The alert record a variant becomes at a given instant.
pub open spec fn alert_of(t: AlertTypeV, now: i64) -> AlertV {
    AlertV { alert_type: t, timestamp: now, acknowledged: false, message: spec_alert_message(t) }
}

/// The source addresses remembered after one entry: its address is added
/// when new-address detection is on and it was not yet known.
pub open spec fn spec_known_after(
    cfg: &AlertConfig,
    known: Seq<Seq<char>>,
    e: LogEntryV,
) -> Seq<Seq<char>> {
    if cfg.on_new_source_ip && e.src_ip is Some && !in_string_list(known, e.src_ip->0) {
        known.push(e.src_ip->0)
    } else {
        known
    }
}

/// Alert engine that monitors events and generates alerts.
pub struct AlertEngine {
    /// Alert configuration.
    config: AlertConfig,
    /// Source addresses already seen.
    known_ips: Vec<String>,
    /// Generated alerts.
    alerts: Vec<Alert>,
}

impl AlertEngine {
    /// The alerts generated so far, oldest first.
    pub closed spec fn alerts_view(&self) -> Seq<AlertV> {
        self.alerts@.map_values(|a: Alert| a@)
    }

    /// The source addresses the engine has already seen.
    pub closed spec fn known(&self) -> Seq<Seq<char>> {
        string_list_view(self.known_ips@)
    }

    /// The configuration the engine applies.
    pub closed spec fn cfg(&self) -> &AlertConfig {
        &self.config
    }

    /// Create a new alert engine with the given configuration.
    pub fn new(config: AlertConfig) -> (r: Self)
        ensures
            r.alerts_view().len() == 0,
            r.known().len() == 0,
            *r.cfg() == config,
    {
        let r = AlertEngine { config, known_ips: Vec::new(), alerts: Vec::new() };
        proof {
            assert(r.alerts_view() =~= Seq::<AlertV>::empty());
            assert(r.known() =~= Seq::<Seq<char>>::empty());
        }
        r
    }

    /// Record an alert: build its message and append it, unacknowledged,
    /// stamped with the given instant.
    pub fn trigger_alert(&mut self, alert_type: AlertType, now: i64)
        ensures
            final(self).alerts_view() == old(self).alerts_view().push(
                AlertV {
                    alert_type: alert_type@,
                    timestamp: now,
                    acknowledged: false,
                    message: spec_alert_message(alert_type@),
                },
            ),
            final(self).known() == old(self).known(),
            *final(self).cfg() == *old(self).cfg(),
    {
        let message = build_alert_message(&alert_type);
        let ghost pre = self.alerts@;
        self.alerts.push(Alert { alert_type, timestamp: now, acknowledged: false, message });
        proof {
            assert(self.alerts_view() =~= pre.map_values(|a: Alert| a@).push(
                self.alerts@.last()@,
            ));
        }
    }

    /// Evaluate one log entry against the rule set, appending exactly the
    /// alerts it triggers, in order, stamped with the given instant, and
    /// remembering its source address.  Nothing happens while alerting is
    /// disabled.
    pub fn process_log_entry(&mut self, entry: &LogEntry, now: i64)
        ensures
            *final(self).cfg() == *old(self).cfg(),
            !old(self).cfg().enabled ==> *final(self) == *old(self),
            old(self).cfg().enabled ==> final(self).alerts_view() == old(self).alerts_view()
                + spec_entry_alert_types(old(self).cfg(), old(self).known(), entry@).map_values(
                |t: AlertTypeV| alert_of(t, now),
            ),
            old(self).cfg().enabled ==> final(self).known() == spec_known_after(
                old(self).cfg(),
                old(self).known(),
                entry@,
            ),
    {
        if !self.config.enabled {
            return ;
        }
        let ghost expected = spec_entry_alert_types(old(self).cfg(), old(self).known(), entry@);
        // successful login
        if self.config.on_successful_login && matches!(entry.event_type, EventType::LoginSuccess)
        {
            match (&entry.session, &entry.username, &entry.src_ip) {
                (Some(session_id), Some(username), Some(src_ip)) => {
                    let at = AlertType::SuccessfulLogin {
                        session_id: session_id.clone(),
                        username: username.clone(),
                        src_ip: src_ip.clone(),
                    };
                    self.trigger_alert(at, now);
                },
                _ => (),
            }
        }
        // file upload
        if self.config.on_file_upload && matches!(entry.event_type, EventType::FileUpload) {
            match (&entry.session, &entry.file) {
                (Some(session_id), Some(file)) => {
                    let at = AlertType::FileUpload {
                        session_id: session_id.clone(),
                        filename: file.filename.clone(),
                        shasum: crate::models::clone_opt_string(&file.shasum),
                    };
                    self.trigger_alert(at, now);
                },
                _ => (),
            }
        }
        // configured command substrings
        if matches!(entry.event_type, EventType::Command) {
            match (&entry.session, &entry.command) {
                (Some(session_id), Some(command)) => {
                    let n = self.config.on_commands.len();
                    let mut i: usize = 0;
                    let mut hit = false;
                    while i < n && !hit
                        invariant
                            i <= n,
                            n == self.config.on_commands@.len(),
                            hit ==> command_triggers(
                                command@,
                                string_list_view(self.config.on_commands@),
                            ),
                            !hit ==> forall|q: int|
                                0 <= q < i ==> !contains_seq(
                                    command@,
                                    #[trigger] string_list_view(self.config.on_commands@)[q],
                                ),
                        decreases n - i, (if hit { 0int } else { 1int }),
                    {
                        let ghost gi = i as int;
                        if string_contains(command, self.config.on_commands[i].as_str()) {
                            proof {
                                assert(string_list_view(self.config.on_commands@)[gi]
                                    == self.config.on_commands@[gi]@);
                            }
                            hit = true;
                        } else {
                            proof {
                                assert(string_list_view(self.config.on_commands@)[gi]
                                    == self.config.on_commands@[gi]@);
                            }
                            i = i + 1;
                        }
                    }
                    proof {
                        assert(hit == command_triggers(
                            command@,
                            string_list_view(self.config.on_commands@),
                        ));
                    }
                    if hit {
                        let at = AlertType::SuspiciousCommand {
                            session_id: session_id.clone(),
                            command: command.clone(),
                        };
                        self.trigger_alert(at, now);
                    }
                },
                _ => (),
            }
        }
        // new source address
        if self.config.on_new_source_ip {
            match &entry.src_ip {
                Some(src_ip) => {
                    if !string_in_list(&self.known_ips, src_ip.as_str()) {
                        self.known_ips.push(src_ip.clone());
                        let at = AlertType::NewSourceIp { ip: src_ip.clone() };
                        self.trigger_alert(at, now);
                    }
                },
                None => (),
            }
        }
        // deny list, unless also on the allow list
        match &entry.src_ip {
            Some(src_ip) => {
                if string_in_list(&self.config.ip_blacklist, src_ip.as_str())
                    && !string_in_list(&self.config.ip_whitelist, src_ip.as_str()) {
                    let at = AlertType::BlacklistedIp { ip: src_ip.clone() };
                    self.trigger_alert(at, now);
                }
            },
            None => (),
        }
        proof {
            assert(self.alerts_view() =~= old(self).alerts_view() + expected.map_values(
                |t: AlertTypeV| alert_of(t, now),
            ));
        }
    }

    /// Evaluate one session update: sessions scored 80 or above raise a
    /// high-risk alert carrying the derived reason.
    pub fn process_session_update(&mut self, session: &Session, now: i64)
        ensures
            *final(self).cfg() == *old(self).cfg(),
            final(self).known() == old(self).known(),
            !old(self).cfg().enabled || session@.malicious_score < 80 ==> *final(self)
                == *old(self),
            old(self).cfg().enabled && session@.malicious_score >= 80
                ==> final(self).alerts_view() == old(self).alerts_view().push(
                AlertV {
                    alert_type: AlertTypeV::HighRiskActivity {
                        session_id: session@.id,
                        risk_score: session@.malicious_score,
                        reason: spec_risk_reason(session@),
                    },
                    timestamp: now,
                    acknowledged: false,
                    message: spec_alert_message(
                        AlertTypeV::HighRiskActivity {
                            session_id: session@.id,
                            risk_score: session@.malicious_score,
                            reason: spec_risk_reason(session@),
                        },
                    ),
                },
            ),
    {
        if !self.config.enabled {
            return ;
        }
        if session.malicious_score >= 80 {
            let reason = determine_risk_reason(session);
            let at = AlertType::HighRiskActivity {
                session_id: session.id.clone(),
                risk_score: session.malicious_score,
                reason,
            };
            self.trigger_alert(at, now);
        }
    }

    /// All alerts generated so far.
    pub fn get_alerts(&self) -> (r: &Vec<Alert>)
        ensures
            r@.map_values(|a: Alert| a@) == self.alerts_view(),
    {
        &self.alerts
    }

    /// Acknowledge the alert at the given position, failing when there is
    /// none.
    pub fn acknowledge_alert(&mut self, index: usize) -> (r: Result<(), StoreError>)
        ensures
            r is Ok <==> index < old(self).alerts_view().len(),
            r is Ok ==> final(self).alerts_view() == old(self).alerts_view().update(
                index as int,
                AlertV { acknowledged: true, ..old(self).alerts_view()[index as int] },
            ),
            r is Err ==> *final(self) == *old(self),
            *final(self).cfg() == *old(self).cfg(),
            final(self).known() == old(self).known(),
    {
        if index < self.alerts.len() {
            let mut a = take_alert(&mut self.alerts, index);
            a.acknowledged = true;
            put_alert(&mut self.alerts, index, a);
            proof {
                assert(self.alerts_view() =~= old(self).alerts_view().update(
                    index as int,
                    AlertV { acknowledged: true, ..old(self).alerts_view()[index as int] },
                ));
            }
            Ok(())
        } else {
            Err(StoreError::NotFound)
        }
    }

    /// Drop every acknowledged alert, keeping the rest in order.
    pub fn clear_acknowledged_alerts(&mut self)
        ensures
            final(self).alerts_view() == old(self).alerts_view().filter(
                |a: AlertV| !a.acknowledged,
            ),
            *final(self).cfg() == *old(self).cfg(),
            final(self).known() == old(self).known(),
    {
        let ghost pre = self.alerts_view();
        let mut kept: Vec<Alert> = Vec::new();
        proof {
            reveal(Seq::filter);
            assert(pre.take(0) =~= Seq::<AlertV>::empty());
        }
        let n = self.alerts.len();
        let mut i: usize = 0;
        while i < n
            invariant
                i <= n,
                n == self.alerts@.len(),
                pre == self.alerts_view(),
                pre.len() == n,
                kept@.map_values(|a: Alert| a@) == pre.take(i as int).filter(
                    |a: AlertV| !a.acknowledged,
                ),
            decreases n - i,
        {
            let ghost gi = i as int;
            proof {
                reveal(Seq::filter);
                assert(pre[gi] == self.alerts@[gi]@);
                assert(pre.take(gi + 1).drop_last() =~= pre.take(gi));
                assert(pre.take(gi + 1).last() == pre[gi]);
            }
            if !self.alerts[i].acknowledged {
                let ghost prek = kept@;
                let a = clone_alert(&self.alerts[i]);
                kept.push(a);
                proof {
                    assert(kept@.map_values(|x: Alert| x@) =~= prek.map_values(
                        |x: Alert| x@,
                    ).push(pre[gi]));
                }
            }
            i = i + 1;
        }
        proof {
            assert(pre.take(n as int) =~= pre);
        }
        self.alerts = kept;
    }

    /// Drop every alert.
    pub fn clear_all_alerts(&mut self)
        ensures
            final(self).alerts_view().len() == 0,
            *final(self).cfg() == *old(self).cfg(),
            final(self).known() == old(self).known(),
    {
        self.alerts = Vec::new();
        proof {
            assert(self.alerts_view() =~= Seq::<AlertV>::empty());
        }
    }
}

/// Why a session was deemed high risk, from its own state: the factors
/// that apply, joined with commas, or a fixed fallback when none does.
pub open spec fn spec_risk_reason(s: SessionV) -> Seq<char> {
    let parts = spec_reason_parts(s);
    if parts.len() == 0 {
        "Unknown high risk activity"@
    } else {
        join_comma(parts)
    }
}

/// A command whose text names one of the suspicious tool tokens.
pub open spec fn is_suspicious_command(c: Seq<char>) -> bool {
    let lc = lower_seq(c);
    ||| contains_seq(lc, "wget"@)
    ||| contains_seq(lc, "curl"@)
    ||| contains_seq(lc, "tftp"@)
    ||| contains_seq(lc, "chmod"@)
    ||| contains_seq(lc, "busybox"@)
    ||| contains_seq(lc, "xmrig"@)
    ||| contains_seq(lc, "mirai"@)
    ||| contains_seq(lc, "ddos"@)
}

/// How many of the session's commands are suspicious.
pub open spec fn suspicious_command_count(cs: Seq<crate::models::CommandV>) -> int
    decreases cs.len(),
{
    if cs.len() == 0 {
        0
    } else {
        suspicious_command_count(cs.drop_last()) + (if is_suspicious_command(
            cs.last().command,
        ) {
            1int
        } else {
            0int
        })
    }
}

/// The count is between zero and the number of commands.
pub proof fn lemma_suspicious_count_bounds(cs: Seq<crate::models::CommandV>)
    ensures
        0 <= suspicious_command_count(cs) <= cs.len(),
    decreases cs.len(),
{
    if cs.len() > 0 {
        lemma_suspicious_count_bounds(cs.drop_last());
    }
}

/// Strings joined with a comma and a space.
pub open spec fn join_comma(parts: Seq<Seq<char>>) -> Seq<char>
    decreases parts.len(),
{
    if parts.len() == 0 {
        Seq::empty()
    } else if parts.len() == 1 {
        parts[0]
    } else {
        join_comma(parts.drop_last()) + ", "@ + parts.last()
    }
}

/// Derive the reason text for a high-risk session.
pub fn determine_risk_reason(session: &Session) -> (r: String)
    ensures
        r@ == spec_risk_reason(session@),
{
    let mut parts: Vec<String> = Vec::new();
    let login = match &session.user {
        Some(u) => u.login_success,
        None => false,
    };
    if login {
        parts.push(String::from_str("Successful login"));
    }
    if session.commands.len() > 0 {
        let ghost cmds = session@.commands;
        let n = session.commands.len();
        let mut count: u64 = 0;
        let mut i: usize = 0;
        proof {
            assert(cmds.take(0) =~= Seq::<crate::models::CommandV>::empty());
        }
        while i < n
            invariant
                i <= n,
                n == session.commands@.len(),
                cmds == session@.commands,
                cmds.len() == n,
                forall|k: int| 0 <= k < n ==> cmds[k] == session.commands@[k]@,
                count == suspicious_command_count(cmds.take(i as int)),
                count <= i,
            decreases n - i,
        {
            let ghost old_take = cmds.take(i as int);
            let lc = to_ascii_lower(&session.commands[i].command);
            let hit = string_contains(&lc, "wget") || string_contains(&lc, "curl")
                || string_contains(&lc, "tftp") || string_contains(&lc, "chmod")
                || string_contains(&lc, "busybox") || string_contains(&lc, "xmrig")
                || string_contains(&lc, "mirai") || string_contains(&lc, "ddos");
            proof {
                lemma_suspicious_count_bounds(old_take);
                assert(cmds.take(i as int + 1).drop_last() =~= old_take);
                assert(cmds.take(i as int + 1).last() == cmds[i as int]);
                assert(hit == is_suspicious_command(cmds[i as int].command));
            }
            if hit {
                count = count + 1;
            }
            i = i + 1;
        }
        proof {
            assert(cmds.take(n as int) =~= cmds);
        }
        if count > 0 {
            let mut part = u64_to_string(count);
            part.append(" suspicious commands");
            parts.push(part);
        }
    }
    if session.files.len() > 0 {
        let nf = session.files.len();
        let mut part = u64_to_string(nf as u64);
        part.append(" files transferred");
        parts.push(part);
    }
    proof {
        assert(parts@.map_values(|p: String| p@) =~= spec_reason_parts(session@));
    }
    if parts.len() == 0 {
        String::from_str("Unknown high risk activity")
    } else {
        let mut out = parts[0].clone();
        let n = parts.len();
        let mut i: usize = 1;
        while i < n
            invariant
                1 <= i <= n,
                n == parts@.len(),
                out@ == join_comma(parts@.map_values(|p: String| p@).take(i as int)),
            decreases n - i,
        {
            let ghost m = parts@.map_values(|p: String| p@);
            proof {
                assert(m.take(i as int + 1).drop_last() =~= m.take(i as int));
                assert(m.take(i as int + 1).last() == m[i as int]);
            }
            out.append(", ");
            out.append(parts[i].as_str());
            i = i + 1;
        }
        proof {
            assert(parts@.map_values(|p: String| p@).take(n as int) =~= parts@.map_values(
                |p: String| p@,
            ));
        }
        out
    }
}

/// The list of reason parts, in order.
pub open spec fn spec_reason_parts(s: SessionV) -> Seq<Seq<char>> {
    (if s.user matches Some(u) && u.login_success {
        seq!["Successful login"@]
    } else {
        Seq::<Seq<char>>::empty()
    }) + (if s.commands.len() > 0 && suspicious_command_count(s.commands) > 0 {
        seq![dec_rep(suspicious_command_count(s.commands) as nat) + " suspicious commands"@]
    } else {
        Seq::<Seq<char>>::empty()
    }) + (if s.files.len() > 0 {
        seq![dec_rep(s.files.len() as nat) + " files transferred"@]
    } else {
        Seq::<Seq<char>>::empty()
    })
}

/// Whether `s` occurs as one of the strings of `l`.
fn string_in_list(l: &Vec<String>, s: &str) -> (r: bool)
    ensures
        r == in_string_list(string_list_view(l@), s@),
{
    let n = l.len();
    let mut i: usize = 0;
    while i < n
        invariant
            i <= n,
            n == l@.len(),
            forall|k: int| 0 <= k < i ==> l@[k]@ != s@,
        decreases n - i,
    {
        if str_eq(l[i].as_str(), s) {
            proof {
                assert(string_list_view(l@)[i as int] == s@);
            }
            return true;
        }
        i = i + 1;
    }
    proof {
        assert(forall|k: int|
            0 <= k < l@.len() ==> string_list_view(l@)[k] == l@[k]@);
    }
    false
}

/// Build the message text an alert variant carries.
fn build_alert_message(t: &AlertType) -> (r: String)
    ensures
        r@ == spec_alert_message(t@),
{
    match t {
        AlertType::SuccessfulLogin { username, src_ip, .. } => {
            let mut m = String::from_str("Successful login for user '");
            m.append(username.as_str());
            m.append("' from ");
            m.append(src_ip.as_str());
            m
        },
        AlertType::FileUpload { filename, shasum, .. } => {
            match shasum {
                Some(h) => {
                    let mut m = String::from_str("File uploaded: ");
                    m.append(filename.as_str());
                    m.append(" (SHA256: ");
                    m.append(h.as_str());
                    m.append(")");
                    m
                },
                None => {
                    let mut m = String::from_str("File uploaded: ");
                    m.append(filename.as_str());
                    m
                },
            }
        },
        AlertType::SuspiciousCommand { command, .. } => {
            let mut m = String::from_str("Suspicious command: ");
            m.append(command.as_str());
            m
        },
        AlertType::NewSourceIp { ip } => {
            let mut m = String::from_str("New source IP detected: ");
            m.append(ip.as_str());
            m
        },
        AlertType::BlacklistedIp { ip } => {
            let mut m = String::from_str("Connection from blacklisted IP: ");
            m.append(ip.as_str());
            m
        },
        AlertType::HighRiskActivity { risk_score, reason, .. } => {
            let mut m = String::from_str("High risk activity detected (Score: ");
            let score_text = u64_to_string(*risk_score as u64);
            m.append(score_text.as_str());
            m.append("): ");
            m.append(reason.as_str());
            m
        },
    }
}

/// Clone one alert, keeping its view.
fn clone_alert(a: &Alert) -> (r: Alert)
    ensures
        r@ == a@,
{
    let alert_type = match &a.alert_type {
        AlertType::SuccessfulLogin { session_id, username, src_ip } => {
            AlertType::SuccessfulLogin {
                session_id: session_id.clone(),
                username: username.clone(),
                src_ip: src_ip.clone(),
            }
        },
        AlertType::FileUpload { session_id, filename, shasum } => {
            AlertType::FileUpload {
                session_id: session_id.clone(),
                filename: filename.clone(),
                shasum: crate::models::clone_opt_string(shasum),
            }
        },
        AlertType::SuspiciousCommand { session_id, command } => {
            AlertType::SuspiciousCommand {
                session_id: session_id.clone(),
                command: command.clone(),
            }
        },
        AlertType::NewSourceIp { ip } => AlertType::NewSourceIp { ip: ip.clone() },
        AlertType::BlacklistedIp { ip } => AlertType::BlacklistedIp { ip: ip.clone() },
        AlertType::HighRiskActivity { session_id, risk_score, reason } => {
            AlertType::HighRiskActivity {
                session_id: session_id.clone(),
                risk_score: *risk_score,
                reason: reason.clone(),
            }
        },
    };
    Alert {
        alert_type,
        timestamp: a.timestamp,
        acknowledged: a.acknowledged,
        message: a.message.clone(),
    }
}

/// Take the alert at a position out of the list, to give it back updated.
fn take_alert(alerts: &mut Vec<Alert>, index: usize) -> (r: Alert)
    requires
        index < old(alerts)@.len(),
    ensures
        r == old(alerts)@[index as int],
        final(alerts)@ == old(alerts)@.remove(index as int),
{
    alerts.remove(index)
}

/// Put an updated alert back at its position.
fn put_alert(alerts: &mut Vec<Alert>, index: usize, a: Alert)
    requires
        index <= old(alerts)@.len(),
    ensures
        final(alerts)@ == old(alerts)@.insert(index as int, a),
{
    alerts.insert(index, a)
}

} // verus!
