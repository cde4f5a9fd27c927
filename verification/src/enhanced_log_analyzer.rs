//! Enhanced analyzer for honeypot logs: the same line parser with
//! heuristic file flags, a rule set for malicious command patterns, and a
//! risk scorer that also consults threat intelligence.

use vstd::prelude::*;

use crate::log_analyzer::{
    LogAnalyzer, ParseError, entry_matches, spec_parse_error, table_view, event_table,
};
use crate::json::spec_parse_json;
use crate::models::{Command, CommandV, EventType, FileTransferV, LogEntry, Session, SessionV, opt_str_view};
use crate::patterns::{Tok, build_malicious_patterns, command_is_malicious, malicious_patterns,
    any_pattern_matches};
use crate::settings::Config;
use crate::text::{contains_seq, lower_seq, str_eq, str_to_chars, string_contains,
    to_ascii_lower};

verus! {

/// Threat intelligence data for an IP address.
#[derive(Debug)]
pub struct ThreatIntelData {
    /// IP address
    pub ip: String,
    /// Threat score (0-100)
    pub score: u8,
    /// Threat classification labels
    pub labels: Vec<String>,
    /// Last seen, milliseconds since the Unix epoch
    pub last_seen: Option<i64>,
    /// First seen, milliseconds since the Unix epoch
    pub first_seen: Option<i64>,
    /// Source of the threat intel
    pub source: String,
}

/// The mathematical view of a threat intelligence record.
pub struct ThreatIntelDataV {
    pub ip: Seq<char>,
    pub score: u8,
    pub labels: Seq<Seq<char>>,
    pub last_seen: Option<i64>,
    pub first_seen: Option<i64>,
    pub source: Seq<char>,
}

impl View for ThreatIntelData {
    type V = ThreatIntelDataV;

    open spec fn view(&self) -> ThreatIntelDataV {
        ThreatIntelDataV {
            ip: self.ip@,
            score: self.score,
            labels: self.labels@.map_values(|s: String| s@),
            last_seen: self.last_seen,
            first_seen: self.first_seen,
            source: self.source@,
        }
    }
}

/// Geographic and ASN data for an IP, with coordinates in microdegrees.
#[derive(Debug)]
pub struct GeoData {
    /// IP address
    pub ip: String,
    /// Country code
    pub country_code: String,
    /// Country name
    pub country_name: String,
    /// City name
    pub city: Option<String>,
    /// Latitude in microdegrees
    pub latitude_udeg: Option<i64>,
    /// Longitude in microdegrees
    pub longitude_udeg: Option<i64>,
    /// ASN number
    pub asn: Option<String>,
    /// ISP/Organization name
    pub org: Option<String>,
}

/// The labels that mark an address as actively hostile infrastructure.
pub open spec fn has_hostile_label(labels: Seq<Seq<char>>) -> bool {
    exists|i: int|
        0 <= i < labels.len() && (labels[i] == "malware"@ || labels[i] == "c2"@ || labels[i]
            == "botnet"@)
}

/// The points threat intelligence contributes for a source address: a
/// fifth of the intel score, and ten more for hostile labels.
pub open spec fn intel_points(intel: Option<ThreatIntelDataV>) -> int {
    match intel {
        Some(t) => (t.score / 5) as int + (if has_hostile_label(t.labels) {
            10int
        } else {
            0int
        }),
        None => 0,
    }
}

/// The points one command contributes under the enhanced rules.
pub open spec fn enhanced_command_score(c: Seq<char>) -> int {
    let lc = lower_seq(c);
    (if command_is_malicious(c) {
        20int
    } else {
        0int
    }) + (if contains_seq(lc, "wget"@) || contains_seq(lc, "curl"@) || contains_seq(
        lc,
        "tftp"@,
    ) {
        10int
    } else {
        0int
    }) + (if contains_seq(lc, "/tmp"@) || contains_seq(lc, "/var/tmp"@) || contains_seq(
        lc,
        "/dev/shm"@,
    ) {
        5int
    } else {
        0int
    }) + (if contains_seq(lc, "chmod"@) && (contains_seq(lc, "+x"@) || contains_seq(
        lc,
        "777"@,
    )) {
        15int
    } else {
        0int
    }) + (if contains_seq(lc, "busybox"@) || contains_seq(lc, "xmrig"@) || contains_seq(
        lc,
        "mirai"@,
    ) || contains_seq(lc, "ddos"@) {
        25int
    } else {
        0int
    }) + (if (contains_seq(lc, "bash"@) && contains_seq(lc, "dev/tcp"@)) || (contains_seq(
        lc,
        "nc"@,
    ) && contains_seq(lc, "-e"@)) {
        30int
    } else {
        0int
    })
}

/// The points of a command sequence under the enhanced rules.
pub open spec fn enhanced_commands_score(cs: Seq<CommandV>) -> int
    decreases cs.len(),
{
    if cs.len() == 0 {
        0
    } else {
        enhanced_commands_score(cs.drop_last()) + enhanced_command_score(cs.last().command)
    }
}

/// Enhanced command scores never subtract.
pub proof fn lemma_enhanced_commands_score_nonneg(cs: Seq<CommandV>)
    ensures
        enhanced_commands_score(cs) >= 0,
    decreases cs.len(),
{
    if cs.len() > 0 {
        lemma_enhanced_commands_score_nonneg(cs.drop_last());
    }
}

/// The bonus for how much interaction a session saw.
pub open spec fn command_count_bonus(n: int) -> int {
    if n > 20 {
        10
    } else if n > 10 {
        5
    } else {
        0
    }
}

/// The points one transferred file contributes.
pub open spec fn file_score(f: FileTransferV) -> int {
    (if f.is_executable {
        10int
    } else {
        0int
    }) + (if f.is_malware {
        30int
    } else {
        0int
    })
}

/// The points of a file sequence.
pub open spec fn files_score(fs: Seq<FileTransferV>) -> int
    decreases fs.len(),
{
    if fs.len() == 0 {
        0
    } else {
        files_score(fs.drop_last()) + file_score(fs.last())
    }
}

/// File scores never subtract.
pub proof fn lemma_files_score_nonneg(fs: Seq<FileTransferV>)
    ensures
        files_score(fs) >= 0,
    decreases fs.len(),
{
    if fs.len() > 0 {
        lemma_files_score_nonneg(fs.drop_last());
    }
}

/// The enhanced risk score of a session given the threat intelligence for
/// its source address: additive factors, capped at 100.
pub open spec fn enhanced_session_risk(s: SessionV, intel: Option<ThreatIntelDataV>) -> int {
    crate::log_analyzer::cap100(
        (if s.user matches Some(u) && u.login_success {
            10int
        } else {
            0int
        }) + intel_points(intel) + (if s.commands.len() > 0 {
            5 + command_count_bonus(s.commands.len() as int) + enhanced_commands_score(s.commands)
        } else {
            0int
        }) + (if s.files.len() > 0 {
            10 + files_score(s.files)
        } else {
            0int
        }),
    )
}

/// Adding a non-negative amount commutes with capping stepwise.
pub proof fn lemma_cap_add(a: int, d: int)
    requires
        d >= 0,
    ensures
        crate::log_analyzer::cap100(crate::log_analyzer::cap100(a) + d)
            == crate::log_analyzer::cap100(a + d),
{
}

/// The points threat intelligence contributes, computed.
fn intel_points_exec(intel: Option<&ThreatIntelData>) -> (r: u32)
    ensures
        r == intel_points(
            match intel {
                Some(t) => Some(t@),
                None => None,
            },
        ),
        r <= 61,
{
    match intel {
        Some(t) => {
            let mut pts: u32 = (t.score / 5) as u32;
            let mut hostile = false;
            let n = t.labels.len();
            let mut i: usize = 0;
            while i < n
                invariant
                    i <= n,
                    n == t.labels@.len(),
                    t@.labels.len() == n,
                    forall|k: int| 0 <= k < n ==> t@.labels[k] == t.labels@[k]@,
                    hostile <==> exists|k: int|
                        0 <= k < i && (t@.labels[k] == "malware"@ || t@.labels[k] == "c2"@
                            || t@.labels[k] == "botnet"@),
                decreases n - i,
            {
                let ghost gi = i as int;
                if str_eq(t.labels[i].as_str(), "malware") || str_eq(t.labels[i].as_str(), "c2")
                    || str_eq(t.labels[i].as_str(), "botnet") {
                    proof {
                        assert(t@.labels[gi] == t.labels@[gi]@);
                    }
                    hostile = true;
                }
                i = i + 1;
            }
            proof {
                assert(hostile == has_hostile_label(t@.labels));
            }
            if hostile {
                pts = pts + 10;
            }
            pts
        },
        None => 0,
    }
}

/// The points one command contributes, computed over its text.
fn enhanced_command_points(patterns: &Vec<Vec<Tok>>, c: &Command) -> (r: u32)
    requires
        patterns@.len() == malicious_patterns().len(),
        forall|p: int| 0 <= p < patterns@.len() ==> patterns@[p]@ == malicious_patterns()[p],
    ensures
        r == enhanced_command_score(c@.command),
        r <= 105,
{
    let lc = to_ascii_lower(&c.command);
    let chars = str_to_chars(c.command.as_str());
    let mut pts: u32 = 0;
    if any_pattern_matches(patterns, &chars) {
        pts = pts + 20;
    }
    if string_contains(&lc, "wget") || string_contains(&lc, "curl") || string_contains(
        &lc,
        "tftp",
    ) {
        pts = pts + 10;
    }
    if string_contains(&lc, "/tmp") || string_contains(&lc, "/var/tmp") || string_contains(
        &lc,
        "/dev/shm",
    ) {
        pts = pts + 5;
    }
    if string_contains(&lc, "chmod") && (string_contains(&lc, "+x") || string_contains(
        &lc,
        "777",
    )) {
        pts = pts + 15;
    }
    if string_contains(&lc, "busybox") || string_contains(&lc, "xmrig") || string_contains(
        &lc,
        "mirai",
    ) || string_contains(&lc, "ddos") {
        pts = pts + 25;
    }
    if (string_contains(&lc, "bash") && string_contains(&lc, "dev/tcp")) || (string_contains(
        &lc,
        "nc",
    ) && string_contains(&lc, "-e")) {
        pts = pts + 30;
    }
    pts
}

/// Enhanced analyzer with threat intelligence and a malicious-pattern set.
pub struct EnhancedLogAnalyzer {
    /// Mapping of wire event names to the closed taxonomy.
    event_type_mapping: Vec<(String, EventType)>,
    /// The malicious command rule set.
    malicious_cmd_patterns: Vec<Vec<Tok>>,
    /// Known indicator-of-compromise IPs.
    known_ioc_ips: Vec<String>,
    /// Whether threat intelligence is enabled.
    threat_intel_enabled: bool,
    /// The configured threat intelligence feeds.
    threat_intel_feeds: Vec<String>,
    /// Threat intelligence records, keyed by source address.
    threat_intel: Vec<(String, ThreatIntelData)>,
    /// Geographic data cache, keyed by source address.
    geo_data_cache: Vec<(String, GeoData)>,
}

impl EnhancedLogAnalyzer {
    /// The analyzer carries the fixed event table and the full rule set.
    pub closed spec fn wf(&self) -> bool {
        &&& table_view(self.event_type_mapping@) == event_table()
        &&& self.malicious_cmd_patterns@.len() == malicious_patterns().len()
        &&& forall|p: int|
            0 <= p < self.malicious_cmd_patterns@.len()
                ==> self.malicious_cmd_patterns@[p]@ == malicious_patterns()[p]
    }

    /// The threat intelligence records the analyzer holds, in load order.
    pub closed spec fn intel_records(&self) -> Seq<(Seq<char>, ThreatIntelDataV)> {
        self.threat_intel@.map_values(|p: (String, ThreatIntelData)| (p.0@, p.1@))
    }

    /// The record held for an address; of duplicate keys the last wins.
    pub closed spec fn intel_for(&self, ip: Seq<char>) -> Option<ThreatIntelDataV> {
        intel_lookup(self.intel_records(), ip)
    }

    /// Whether the threat intelligence feature is enabled.
    pub closed spec fn intel_enabled(&self) -> bool {
        self.threat_intel_enabled
    }

    /// Create a new enhanced log analyzer.
    pub fn new(config: &Config) -> (r: Self)
        ensures
            r.wf(),
            forall|ip: Seq<char>| r.intel_for(ip) is None,
    {
        let table = LogAnalyzer::new_event_table();
        let patterns = build_malicious_patterns();
        let mut feeds: Vec<String> = Vec::new();
        let n = config.threat_intel.feeds.len();
        let mut i: usize = 0;
        while i < n
            invariant
                i <= n,
                n == config.threat_intel.feeds@.len(),
            decreases n - i,
        {
            feeds.push(config.threat_intel.feeds[i].clone());
            i = i + 1;
        }
        let r = EnhancedLogAnalyzer {
            event_type_mapping: table,
            malicious_cmd_patterns: patterns,
            known_ioc_ips: Vec::new(),
            threat_intel_enabled: config.threat_intel.enabled,
            threat_intel_feeds: feeds,
            threat_intel: Vec::new(),
            geo_data_cache: Vec::new(),
        };
        proof {
            assert(r.threat_intel@.map_values(|p: (String, ThreatIntelData)| (p.0@, p.1@))
                =~= Seq::<(Seq<char>, ThreatIntelDataV)>::empty());
        }
        r
    }

    /// Whether a command matches the malicious-pattern rule set.
    pub fn is_command_malicious(&self, cmd: &str) -> (r: bool)
        requires
            self.wf(),
        ensures
            r == command_is_malicious(cmd@),
    {
        let chars = str_to_chars(cmd);
        any_pattern_matches(&self.malicious_cmd_patterns, &chars)
    }

    /// The threat intelligence record for an address, if one is held.
    pub fn get_threat_intel(&self, ip: &str) -> (r: Option<&ThreatIntelData>)
        ensures
            r matches Some(t) ==> self.intel_for(ip@) == Some(t@),
            r is None ==> self.intel_for(ip@) is None,
    {
        let ghost m = self.threat_intel@.map_values(
            |p: (String, ThreatIntelData)| (p.0@, p.1@),
        );
        let mut idx = self.threat_intel.len();
        proof {
            assert(m.take(self.threat_intel@.len() as int) =~= m);
        }
        while idx > 0
            invariant
                idx <= self.threat_intel@.len(),
                m == self.threat_intel@.map_values(|p: (String, ThreatIntelData)| (p.0@, p.1@)),
                m.len() == self.threat_intel@.len(),
                intel_lookup(m, ip@) == intel_lookup(m.take(idx as int), ip@),
            decreases idx,
        {
            idx = idx - 1;
            proof {
                assert(m.take(idx + 1).last() == m[idx as int]);
                assert(m.take(idx + 1).drop_last() =~= m.take(idx as int));
                assert(m[idx as int] == (self.threat_intel@[idx as int].0@, self.threat_intel@[
                    idx as int].1@));
            }
            if str_eq(self.threat_intel[idx].0.as_str(), ip) {
                return Some(&self.threat_intel[idx].1);
            }
        }
        proof {
            assert(m.take(0) =~= Seq::<(Seq<char>, ThreatIntelDataV)>::empty());
        }
        None
    }

    /// Load threat intelligence.  The configured feeds are external network
    /// sources; here only the fixed example records are installed, and
    /// nothing at all when the feature is disabled.  The caller supplies
    /// the current instant the records are stamped with.
    pub fn load_threat_intel(&mut self, now: i64) -> (r: Result<(), crate::store::StoreError>)
        requires
            old(self).wf(),
        ensures
            r is Ok,
            final(self).wf(),
            final(self).intel_enabled() == old(self).intel_enabled(),
            !old(self).intel_enabled() ==> *final(self) == *old(self),
            old(self).intel_enabled() ==> final(self).intel_records() == old(
                self,
            ).intel_records() + example_intel_records(now),
    {
        if !self.threat_intel_enabled {
            return Ok(());
        }
        self.add_example_threat_intel(now);
        Ok(())
    }

    /// Install the fixed example threat intelligence records.
    fn add_example_threat_intel(&mut self, now: i64)
        requires
            old(self).wf(),
        ensures
            final(self).wf(),
            final(self).threat_intel_enabled == old(self).threat_intel_enabled,
            final(self).intel_records() == old(self).intel_records() + example_intel_records(
                now,
            ),
    {
        let mut l1: Vec<String> = Vec::new();
        l1.push(String::from_str("scanner"));
        l1.push(String::from_str("bruteforce"));
        l1.push(String::from_str("malware"));
        let ghost gl1 = l1@;
        let e1 = example_intel("185.156.73.54", 85, l1, "AbuseIPDB", now);
        self.threat_intel.push(e1);
        let mut l2: Vec<String> = Vec::new();
        l2.push(String::from_str("botnet"));
        l2.push(String::from_str("c2"));
        l2.push(String::from_str("scanner"));
        let ghost gl2 = l2@;
        let e2 = example_intel("112.85.42.2", 90, l2, "Feodo Tracker", now);
        self.threat_intel.push(e2);
        let mut l3: Vec<String> = Vec::new();
        l3.push(String::from_str("ransomware"));
        l3.push(String::from_str("malware"));
        let ghost gl3 = l3@;
        let e3 = example_intel("45.227.255.206", 75, l3, "Blocklist.de", now);
        self.threat_intel.push(e3);
        let mut l4: Vec<String> = Vec::new();
        l4.push(String::from_str("scanner"));
        l4.push(String::from_str("bruteforce"));
        let ghost gl4 = l4@;
        let e4 = example_intel("193.142.146.78", 60, l4, "AlienVault", now);
        self.threat_intel.push(e4);
        proof {
            assert(gl1.map_values(|s: String| s@) =~= seq!["scanner"@, "bruteforce"@, "malware"@]);
            assert(gl2.map_values(|s: String| s@) =~= seq!["botnet"@, "c2"@, "scanner"@]);
            assert(gl3.map_values(|s: String| s@) =~= seq!["ransomware"@, "malware"@]);
            assert(gl4.map_values(|s: String| s@) =~= seq!["scanner"@, "bruteforce"@]);
            assert(self.intel_records() =~= old(self).intel_records() + example_intel_records(
                now,
            ));
        }
    }

    /// Parse one JSON log line with the enhanced file heuristics.
    pub fn parse_log_entry(&self, line: &str) -> (r: Result<LogEntry, ParseError>)
        requires
            self.wf(),
        ensures
            r is Err <==> spec_parse_error(line@) is Some,
            r matches Err(e) ==> Some(e) == spec_parse_error(line@),
            r matches Ok(entry) ==> spec_parse_json(line@) matches Some(v) && entry_matches(
                entry@,
                v,
                true,
            ),
    {
        crate::log_analyzer::parse_entry_core(&self.event_type_mapping, line, true)
    }

    /// Analyze a session with the enhanced rules: exactly
    /// `enhanced_session_risk` of its state and the threat intelligence
    /// held for its source address.
    pub fn analyze_session_risk(&self, session: &Session) -> (r: u8)
        requires
            self.wf(),
        ensures
            r == enhanced_session_risk(session@, self.intel_for_entry(session@)),
            r <= 100,
    {
        let ghost intel = self.intel_for_entry(session@);
        let mut score: u32 = 0;
        if let Some(user) = &session.user {
            if user.login_success {
                score = 10;
            }
        }
        let looked_up = self.get_threat_intel(session.src_ip.as_str());
        let ipts = intel_points_exec(looked_up);
        score = score + ipts;
        if score > 100 {
            score = 100;
        }
        let ghost base = (if session@.user matches Some(u) && u.login_success {
            10int
        } else {
            0int
        }) + intel_points(intel);
        proof {
            lemma_cap_add(0, base);
            assert(score == crate::log_analyzer::cap100(base));
        }
        if session.commands.len() > 0 {
            let count_bonus: u32 = if session.commands.len() > 20 {
                10
            } else if session.commands.len() > 10 {
                5
            } else {
                0
            };
            let d0 = 5 + count_bonus;
            proof {
                lemma_cap_add(base, d0 as int);
            }
            score = score + d0;
            if score > 100 {
                score = 100;
            }
            let n = session.commands.len();
            let ghost cmds = session@.commands;
            let mut i: usize = 0;
            proof {
                assert(cmds.take(0) =~= Seq::<CommandV>::empty());
            }
            while i < n
                invariant
                    i <= n,
                    n == session.commands@.len(),
                    cmds == session@.commands,
                    cmds.len() == n,
                    forall|k: int| 0 <= k < n ==> cmds[k] == session.commands@[k]@,
                    self.wf(),
                    base == (if session@.user matches Some(u) && u.login_success {
                        10int
                    } else {
                        0int
                    }) + intel_points(intel),
                    score == crate::log_analyzer::cap100(
                        base + 5 + command_count_bonus(n as int) + enhanced_commands_score(
                            cmds.take(i as int),
                        ),
                    ),
                    score <= 100,
                decreases n - i,
            {
                let ghost old_take = cmds.take(i as int);
                let d = enhanced_command_points(&self.malicious_cmd_patterns, &session.commands[
                    i]);
                proof {
                    lemma_enhanced_commands_score_nonneg(old_take);
                    assert(cmds.take(i as int + 1).drop_last() =~= old_take);
                    assert(cmds.take(i as int + 1).last() == cmds[i as int]);
                    lemma_cap_add(
                        base + 5 + command_count_bonus(n as int) + enhanced_commands_score(
                            old_take,
                        ),
                        d as int,
                    );
                }
                score = score + d;
                if score > 100 {
                    score = 100;
                }
                i = i + 1;
            }
            proof {
                assert(cmds.take(n as int) =~= cmds);
            }
        }
        let ghost mid = base + (if session@.commands.len() > 0 {
            5 + command_count_bonus(session@.commands.len() as int) + enhanced_commands_score(
                session@.commands,
            )
        } else {
            0int
        });
        proof {
            assert(score == crate::log_analyzer::cap100(mid));
        }
        if session.files.len() > 0 {
            proof {
                lemma_cap_add(mid, 10);
            }
            score = score + 10;
            if score > 100 {
                score = 100;
            }
            let n = session.files.len();
            let ghost fls = session@.files;
            let mut j: usize = 0;
            proof {
                assert(fls.take(0) =~= Seq::<FileTransferV>::empty());
            }
            while j < n
                invariant
                    j <= n,
                    n == session.files@.len(),
                    fls == session@.files,
                    fls.len() == n,
                    forall|k: int| 0 <= k < n ==> fls[k] == session.files@[k]@,
                    score == crate::log_analyzer::cap100(
                        mid + 10 + files_score(fls.take(j as int)),
                    ),
                    score <= 100,
                decreases n - j,
            {
                let ghost old_take = fls.take(j as int);
                let f = &session.files[j];
                let d: u32 = (if f.is_executable {
                    10
                } else {
                    0
                }) + (if f.is_malware {
                    30
                } else {
                    0
                });
                proof {
                    lemma_files_score_nonneg(old_take);
                    assert(fls.take(j as int + 1).drop_last() =~= old_take);
                    assert(fls.take(j as int + 1).last() == fls[j as int]);
                    assert(d == file_score(fls[j as int]));
                    lemma_cap_add(mid + 10 + files_score(old_take), d as int);
                }
                score = score + d;
                if score > 100 {
                    score = 100;
                }
                j = j + 1;
            }
            proof {
                assert(fls.take(n as int) =~= fls);
            }
        }
        proof {
            lemma_enhanced_commands_score_nonneg(session@.commands);
            lemma_files_score_nonneg(session@.files);
        }
        score as u8
    }

    /// The threat intelligence the scorer consults for a session: the
    /// record held for its source address.
    pub open spec fn intel_for_entry(&self, s: SessionV) -> Option<ThreatIntelDataV> {
        self.intel_for(s.src_ip)
    }
}

/// The record a threat lookup finds: the last one keyed by the address.
pub open spec fn intel_lookup(m: Seq<(Seq<char>, ThreatIntelDataV)>, ip: Seq<char>) -> Option<
    ThreatIntelDataV,
>
    decreases m.len(),
{
    if m.len() == 0 {
        None
    } else if m.last().0 == ip {
        Some(m.last().1)
    } else {
        intel_lookup(m.drop_last(), ip)
    }
}

/// The fixed example threat intelligence records, stamped at an instant.
pub open spec fn example_intel_records(now: i64) -> Seq<(Seq<char>, ThreatIntelDataV)> {
    seq![
        (
            "185.156.73.54"@,
            ThreatIntelDataV {
                ip: "185.156.73.54"@,
                score: 85,
                labels: seq!["scanner"@, "bruteforce"@, "malware"@],
                last_seen: Some(now),
                first_seen: Some(now),
                source: "AbuseIPDB"@,
            },
        ),
        (
            "112.85.42.2"@,
            ThreatIntelDataV {
                ip: "112.85.42.2"@,
                score: 90,
                labels: seq!["botnet"@, "c2"@, "scanner"@],
                last_seen: Some(now),
                first_seen: Some(now),
                source: "Feodo Tracker"@,
            },
        ),
        (
            "45.227.255.206"@,
            ThreatIntelDataV {
                ip: "45.227.255.206"@,
                score: 75,
                labels: seq!["ransomware"@, "malware"@],
                last_seen: Some(now),
                first_seen: Some(now),
                source: "Blocklist.de"@,
            },
        ),
        (
            "193.142.146.78"@,
            ThreatIntelDataV {
                ip: "193.142.146.78"@,
                score: 60,
                labels: seq!["scanner"@, "bruteforce"@],
                last_seen: Some(now),
                first_seen: Some(now),
                source: "AlienVault"@,
            },
        ),
    ]
}

/// Build one example threat intelligence record.
fn example_intel(ip: &str, score: u8, labels: Vec<String>, source: &str, now: i64) -> (r: (
    String,
    ThreatIntelData,
))
    ensures
        r.0@ == ip@,
        r.1@ == (ThreatIntelDataV {
            ip: ip@,
            score,
            labels: labels@.map_values(|s: String| s@),
            last_seen: Some(now),
            first_seen: Some(now),
            source: source@,
        }),
{
    (
        String::from_str(ip),
        ThreatIntelData {
            ip: String::from_str(ip),
            score,
            labels,
            last_seen: Some(now),
            first_seen: Some(now),
            source: String::from_str(source),
        },
    )
}

/// The session's commands joined into one text, separated by `; `.
pub open spec fn joined_commands(cs: Seq<CommandV>) -> Seq<char>
    decreases cs.len(),
{
    if cs.len() == 0 {
        Seq::empty()
    } else if cs.len() == 1 {
        cs[0].command
    } else {
        joined_commands(cs.drop_last()) + "; "@ + cs.last().command
    }
}

/// The malware family a session's command text points to, if any: the
/// fixed fingerprints checked in order.
pub open spec fn spec_malware_family(cs: Seq<CommandV>) -> Option<Seq<char>> {
    let joined = joined_commands(cs);
    if contains_seq(joined, "busybox"@) && contains_seq(joined, "wget"@) && contains_seq(
        joined,
        "chmod +x"@,
    ) {
        Some("Mirai-like"@)
    } else if contains_seq(joined, "xmrig"@) || contains_seq(joined, "monero"@) || contains_seq(
        joined,
        "cryptonight"@,
    ) {
        Some("Crypto Miner"@)
    } else if contains_seq(joined, "/dev/tcp"@) && contains_seq(joined, "sh -i"@) {
        Some("Reverse Shell"@)
    } else {
        None
    }
}

impl EnhancedLogAnalyzer {
    /// Detect whether a session's command text matches a known malware
    /// family's fingerprint.
    pub fn detect_malware_family(&self, session: &Session) -> (r: Option<String>)
        ensures
            opt_str_view(r) == spec_malware_family(session@.commands),
    {
        let ghost cmds = session@.commands;
        let mut joined = String::new();
        let n = session.commands.len();
        let mut i: usize = 0;
        proof {
            assert(cmds.take(0) =~= Seq::<CommandV>::empty());
        }
        while i < n
            invariant
                i <= n,
                n == session.commands@.len(),
                cmds == session@.commands,
                cmds.len() == n,
                forall|k: int| 0 <= k < n ==> cmds[k] == session.commands@[k]@,
                joined@ == joined_commands(cmds.take(i as int)),
            decreases n - i,
        {
            proof {
                assert(cmds.take(i as int + 1).drop_last() =~= cmds.take(i as int));
                assert(cmds.take(i as int + 1).last() == cmds[i as int]);
            }
            if i > 0 {
                joined.append("; ");
            }
            joined.append(session.commands[i].command.as_str());
            i = i + 1;
        }
        proof {
            assert(cmds.take(n as int) =~= cmds);
        }
        if string_contains(&joined, "busybox") && string_contains(&joined, "wget")
            && string_contains(&joined, "chmod +x") {
            Some(String::from_str("Mirai-like"))
        } else if string_contains(&joined, "xmrig") || string_contains(&joined, "monero")
            || string_contains(&joined, "cryptonight") {
            Some(String::from_str("Crypto Miner"))
        } else if string_contains(&joined, "/dev/tcp") && string_contains(&joined, "sh -i") {
            Some(String::from_str("Reverse Shell"))
        } else {
            None
        }
    }
}

/// The views of a list of sessions.
pub open spec fn sessions_view(v: Seq<Session>) -> Seq<SessionV> {
    v.map_values(|s: Session| s@)
}

/// The sessions of a list that came from one source address.
pub open spec fn campaign_group(sv: Seq<SessionV>, ip: Seq<char>) -> Seq<SessionV> {
    sv.filter(|s: SessionV| s.src_ip == ip)
}

/// The first whitespace-separated token of a command, or the fixed
/// fallback when there is none.
pub open spec fn first_token(c: Seq<char>) -> Seq<char> {
    let a = crate::json::spec_skip_ws(c, 0);
    if a >= c.len() {
        "unknown"@
    } else {
        c.subrange(a, token_end(c, a))
    }
}

/// The index just past the token starting at `i`.
pub open spec fn token_end(s: Seq<char>, i: int) -> int
    decreases s.len() - i,
{
    if 0 <= i < s.len() && !crate::json::is_json_ws(s[i]) {
        token_end(s, i + 1)
    } else {
        i
    }
}

/// The command pattern one session contributes: the first token of its
/// first command, when it ran any.
pub open spec fn pattern_of(s: SessionV) -> Option<Seq<char>> {
    if s.commands.len() == 0 {
        None
    } else {
        Some(first_token(s.commands[0].command))
    }
}

/// The ids of the sessions whose first command starts with the token.
pub open spec fn pattern_ids(sv: Seq<SessionV>, tok: Seq<char>) -> Seq<Seq<char>> {
    sv.filter(|s: SessionV| pattern_of(s) == Some(tok)).map_values(|s: SessionV| s.id)
}

/// A token's end is within bounds and past its start.
pub proof fn lemma_token_end(s: Seq<char>, i: int)
    ensures
        i <= token_end(s, i),
        0 <= i <= s.len() ==> token_end(s, i) <= s.len(),
    decreases s.len() - i,
{
    if 0 <= i < s.len() && !crate::json::is_json_ws(s[i]) {
        lemma_token_end(s, i + 1);
    }
}

impl EnhancedLogAnalyzer {
    /// Group sessions by source address: every address with more than one
    /// session, each with all of its sessions in input order, each
    /// address reported once.
    pub fn identify_campaigns<'a>(&self, sessions: &'a Vec<Session>) -> (r: Vec<
        (String, Vec<&'a Session>),
    >)
        ensures
            forall|k: int|
                0 <= k < r@.len() ==> (#[trigger] r@[k]).1@.map_values(|s: &Session| s@)
                    == campaign_group(sessions_view(sessions@), r@[k].0@) && r@[k].1@.len() > 1,
            forall|k1: int, k2: int| 0 <= k1 < k2 < r@.len() ==> r@[k1].0@ != r@[k2].0@,
            forall|j: int|
                0 <= j < sessions@.len() && campaign_group(
                    sessions_view(sessions@),
                    (#[trigger] sessions@[j])@.src_ip,
                ).len() > 1 ==> exists|k: int| 0 <= k < r@.len() && r@[k].0@ == sessions@[j]@.src_ip,
    {
        let ghost sv = sessions_view(sessions@);
        let mut out: Vec<(String, Vec<&'a Session>)> = Vec::new();
        let n = sessions.len();
        let mut j: usize = 0;
        while j < n
            invariant
                j <= n,
                n == sessions@.len(),
                sv == sessions_view(sessions@),
                sv.len() == n,
                forall|i: int| 0 <= i < n ==> sv[i] == sessions@[i]@,
                forall|k: int|
                    0 <= k < out@.len() ==> (#[trigger] out@[k]).1@.map_values(|s: &Session| s@)
                        == campaign_group(sv, out@[k].0@) && out@[k].1@.len() > 1,
                forall|k1: int, k2: int| 0 <= k1 < k2 < out@.len() ==> out@[k1].0@ != out@[k2].0@,
                forall|i: int|
                    0 <= i < j && campaign_group(sv, (#[trigger] sessions@[i])@.src_ip).len() > 1
                        ==> exists|k: int|
                        0 <= k < out@.len() && out@[k].0@ == sessions@[i]@.src_ip,
            decreases n - j,
        {
            let ip = &sessions[j].src_ip;
            let mut seen = false;
            let m = out.len();
            let mut k: usize = 0;
            while k < m
                invariant
                    k <= m,
                    m == out@.len(),
                    seen <==> exists|q: int| 0 <= q < k && out@[q].0@ == ip@,
                decreases m - k,
            {
                if str_eq(out[k].0.as_str(), ip.as_str()) {
                    seen = true;
                }
                k = k + 1;
            }
            if !seen {
                let mut group: Vec<&'a Session> = Vec::new();
                let ghost gip = ip@;
                let mut i: usize = 0;
                proof {
                    reveal(Seq::filter);
                    assert(sv.take(0) =~= Seq::<SessionV>::empty());
                }
                while i < n
                    invariant
                        i <= n,
                        n == sessions@.len(),
                        sv == sessions_view(sessions@),
                        sv.len() == n,
                        forall|q: int| 0 <= q < n ==> sv[q] == sessions@[q]@,
                        gip == ip@,
                        group@.map_values(|s: &Session| s@) == campaign_group(
                            sv.take(i as int),
                            gip,
                        ),
                    decreases n - i,
                {
                    let ghost gi = i as int;
                    proof {
                        reveal(Seq::filter);
                        assert(sv.take(gi + 1).drop_last() =~= sv.take(gi));
                        assert(sv.take(gi + 1).last() == sv[gi]);
                    }
                    if str_eq(sessions[i].src_ip.as_str(), ip.as_str()) {
                        let ghost pre = group@;
                        group.push(&sessions[i]);
                        proof {
                            assert(group@.map_values(|s: &Session| s@) =~= pre.map_values(
                                |s: &Session| s@,
                            ).push(sv[gi]));
                        }
                    }
                    i = i + 1;
                }
                proof {
                    assert(sv.take(n as int) =~= sv);
                }
                if group.len() > 1 {
                    let ghost pre_out = out@;
                    out.push((ip.clone(), group));
                    proof {
                        assert(out@[out@.len() - 1].0@ == gip);
                        assert(forall|k2: int|
                            0 <= k2 < pre_out.len() ==> out@[k2] == pre_out[k2]);
                    }
                }
            }
            j = j + 1;
        }
        out
    }

    /// Correlate sessions by the first token of their first command: every
    /// token that more than one session starts with, with those sessions'
    /// ids in input order.
    pub fn correlate_command_patterns(&self, sessions: &Vec<Session>) -> (r: Vec<
        (String, Vec<String>),
    >)
        ensures
            forall|k: int|
                0 <= k < r@.len() ==> (#[trigger] r@[k]).1@.map_values(|s: String| s@)
                    == pattern_ids(sessions_view(sessions@), r@[k].0@) && r@[k].1@.len() > 1,
            forall|k1: int, k2: int| 0 <= k1 < k2 < r@.len() ==> r@[k1].0@ != r@[k2].0@,
    {
        let ghost sv = sessions_view(sessions@);
        let mut out: Vec<(String, Vec<String>)> = Vec::new();
        let n = sessions.len();
        let mut j: usize = 0;
        while j < n
            invariant
                j <= n,
                n == sessions@.len(),
                sv == sessions_view(sessions@),
                sv.len() == n,
                forall|i: int| 0 <= i < n ==> sv[i] == sessions@[i]@,
                forall|k: int|
                    0 <= k < out@.len() ==> (#[trigger] out@[k]).1@.map_values(|s: String| s@)
                        == pattern_ids(sv, out@[k].0@) && out@[k].1@.len() > 1,
                forall|k1: int, k2: int| 0 <= k1 < k2 < out@.len() ==> out@[k1].0@ != out@[k2].0@,
            decreases n - j,
        {
            if sessions[j].commands.len() > 0 {
                let tok = first_token_exec(&sessions[j].commands[0].command);
                let ghost gtok = tok@;
                let mut seen = false;
                let m = out.len();
                let mut k: usize = 0;
                while k < m
                    invariant
                        k <= m,
                        m == out@.len(),
                        seen <==> exists|q: int| 0 <= q < k && out@[q].0@ == gtok,
                        gtok == tok@,
                    decreases m - k,
                {
                    if str_eq(out[k].0.as_str(), tok.as_str()) {
                        seen = true;
                    }
                    k = k + 1;
                }
                if !seen {
                    let mut ids: Vec<String> = Vec::new();
                    let mut i: usize = 0;
                    proof {
                        reveal(Seq::filter);
                        assert(sv.take(0) =~= Seq::<SessionV>::empty());
                        assert(ids@.map_values(|s: String| s@) =~= pattern_ids(
                            sv.take(0),
                            gtok,
                        ));
                    }
                    while i < n
                        invariant
                            i <= n,
                            n == sessions@.len(),
                            sv == sessions_view(sessions@),
                            sv.len() == n,
                            forall|q: int| 0 <= q < n ==> sv[q] == sessions@[q]@,
                            gtok == tok@,
                            ids@.map_values(|s: String| s@) == pattern_ids(
                                sv.take(i as int),
                                gtok,
                            ),
                        decreases n - i,
                    {
                        let ghost gi = i as int;
                        proof {
                            reveal(Seq::filter);
                            assert(sv.take(gi + 1).drop_last() =~= sv.take(gi));
                            assert(sv.take(gi + 1).last() == sv[gi]);
                        }
                        let matches_tok = if sessions[i].commands.len() > 0 {
                            let t2 = first_token_exec(&sessions[i].commands[0].command);
                            str_eq(t2.as_str(), tok.as_str())
                        } else {
                            false
                        };
                        proof {
                            assert(matches_tok == (pattern_of(sv[gi]) == Some(gtok)));
                        }
                        if matches_tok {
                            let ghost pre = ids@;
                            ids.push(sessions[i].id.clone());
                            proof {
                                reveal(Seq::filter);
                                assert(sv.take(gi + 1).filter(
                                    |s: SessionV| pattern_of(s) == Some(gtok),
                                ) =~= sv.take(gi).filter(
                                    |s: SessionV| pattern_of(s) == Some(gtok),
                                ).push(sv[gi]));
                                assert(ids@.map_values(|s: String| s@) =~= pre.map_values(
                                    |s: String| s@,
                                ).push(sv[gi].id));
                                assert(pattern_ids(sv.take(gi + 1), gtok) =~= pattern_ids(
                                    sv.take(gi),
                                    gtok,
                                ).push(sv[gi].id));
                            }
                        } else {
                            proof {
                                reveal(Seq::filter);
                                assert(sv.take(gi + 1).filter(
                                    |s: SessionV| pattern_of(s) == Some(gtok),
                                ) =~= sv.take(gi).filter(
                                    |s: SessionV| pattern_of(s) == Some(gtok),
                                ));
                                assert(ids@.map_values(|s: String| s@) =~= pattern_ids(
                                    sv.take(gi + 1),
                                    gtok,
                                ));
                            }
                        }
                        i = i + 1;
                    }
                    proof {
                        assert(sv.take(n as int) =~= sv);
                    }
                    if ids.len() > 1 {
                        let ghost pre_out = out@;
                        out.push((tok, ids));
                        proof {
                            assert(out@[out@.len() - 1].0@ == gtok);
                            assert(forall|k2: int|
                                0 <= k2 < pre_out.len() ==> out@[k2] == pre_out[k2]);
                        }
                    }
                }
            }
            j = j + 1;
        }
        out
    }
}

/// The first whitespace-separated token of a command.
fn first_token_exec(c: &String) -> (r: String)
    ensures
        r@ == first_token(c@),
{
    let chars = str_to_chars(c.as_str());
    let a = crate::json::skip_ws(&chars, 0);
    if a >= chars.len() {
        String::from_str("unknown")
    } else {
        let mut e = a;
        while e < chars.len() && !(chars[e] == ' ' || chars[e] == '\t' || chars[e] == '\n'
            || chars[e] == '\r')
            invariant
                a <= e <= chars@.len(),
                chars@ == c@,
                token_end(c@, a as int) == token_end(c@, e as int),
            decreases chars@.len() - e,
        {
            e = e + 1;
        }
        proof {
            lemma_token_end(c@, e as int);
            assert(token_end(c@, e as int) == e as int);
        }
        let mut out = String::new();
        let mut i = a;
        while i < e
            invariant
                a <= i <= e <= chars@.len(),
                chars@ == c@,
                out@ == c@.subrange(a as int, i as int),
            decreases e - i,
        {
            crate::text::push_char(&mut out, chars[i]);
            i = i + 1;
            proof {
                assert(out@ =~= c@.subrange(a as int, i as int));
            }
        }
        out
    }
}

} // verus!
