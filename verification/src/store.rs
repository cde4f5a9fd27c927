//! In-memory data store for honeypot data: bounded, indexed collections of
//! log entries and sessions with chronological (first-in, first-out)
//! eviction, filtered views, and incrementally maintained uniqueness sets.

use vstd::prelude::*;
use vstd::seq_lib::*;

use crate::models::{EventType, LogEntry, LogEntryV, Session, SessionV, opt_str_view};
use crate::settings::Config;
use crate::text::{contains_seq, lower_seq, str_eq, string_contains, to_ascii_lower};

verus! {

/// Why a store operation failed.
#[derive(Debug, Clone, Copy, PartialEq, Eq, Structural)]
pub enum StoreError {
    /// The session to update is not resident.
    NotFound,
}

/// The position of the first session with the given id, or -1.
pub open spec fn session_index(ss: Seq<SessionV>, id: Seq<char>) -> int
    decreases ss.len(),
{
    if ss.len() == 0 {
        -1
    } else if ss[0].id == id {
        0
    } else {
        let r = session_index(ss.drop_first(), id);
        if r < 0 {
            -1
        } else {
            r + 1
        }
    }
}

/// The position of the first log entry with the given id, or -1.
pub open spec fn entry_index(es: Seq<LogEntryV>, id: Seq<char>) -> int
    decreases es.len(),
{
    if es.len() == 0 {
        -1
    } else if es[0].id == id {
        0
    } else {
        let r = entry_index(es.drop_first(), id);
        if r < 0 {
            -1
        } else {
            r + 1
        }
    }
}

/// A found index is in range and names the id it was sought by.
pub proof fn lemma_session_index(ss: Seq<SessionV>, id: Seq<char>)
    ensures
        session_index(ss, id) >= 0 ==> session_index(ss, id) < ss.len() && ss[session_index(
            ss,
            id,
        )].id == id,
        session_index(ss, id) < 0 ==> forall|i: int| 0 <= i < ss.len() ==> ss[i].id != id,
    decreases ss.len(),
{
    if ss.len() > 0 && ss[0].id != id {
        lemma_session_index(ss.drop_first(), id);
        if session_index(ss, id) < 0 {
            assert forall|i: int| 1 <= i < ss.len() implies ss[i].id != id by {
                assert(ss.drop_first()[i - 1] == ss[i]);
            }
        }
    }
}

/// A found index is in range and names the id it was sought by.
pub proof fn lemma_entry_index(es: Seq<LogEntryV>, id: Seq<char>)
    ensures
        entry_index(es, id) >= 0 ==> entry_index(es, id) < es.len() && es[entry_index(
            es,
            id,
        )].id == id,
        entry_index(es, id) < 0 ==> forall|i: int| 0 <= i < es.len() ==> es[i].id != id,
    decreases es.len(),
{
    if es.len() > 0 && es[0].id != id {
        lemma_entry_index(es.drop_first(), id);
        if entry_index(es, id) < 0 {
            assert forall|i: int| 1 <= i < es.len() implies es[i].id != id by {
                assert(es.drop_first()[i - 1] == es[i]);
            }
        }
    }
}

/// How many elements eviction removes from the front of a collection of the
/// given length under the given ceiling.
pub open spec fn evict_count(len: int, cap: int) -> int {
    if len > cap {
        len - cap
    } else {
        0
    }
}

/// One of the entry's text fields contains the keyword, with or without
/// regard to case.
pub open spec fn entry_matches_keyword(e: LogEntryV, kw: Seq<char>, case_sensitive: bool) -> bool {
    ||| field_matches_keyword(e.command, kw, case_sensitive)
    ||| field_matches_keyword(e.username, kw, case_sensitive)
    ||| field_matches_keyword(e.password, kw, case_sensitive)
}

/// An optional text field contains the keyword.
pub open spec fn field_matches_keyword(o: Option<Seq<char>>, kw: Seq<char>, case_sensitive: bool) -> bool {
    match o {
        Some(t) => if case_sensitive {
            contains_seq(t, kw)
        } else {
            contains_seq(lower_seq(t), lower_seq(kw))
        },
        None => false,
    }
}

/// In-memory data store for honeypot data.
pub struct Store {
    /// Log entries in chronological (insertion) order.
    log_entries: Vec<LogEntry>,
    /// Sessions in chronological (insertion) order.
    sessions: Vec<Session>,
    /// Maximum number of log entries to keep.
    max_logs: usize,
    /// Maximum number of sessions to track.
    max_sessions: usize,
    /// Unique source IPs seen.
    unique_ips: Vec<String>,
    /// Unique usernames seen.
    unique_usernames: Vec<String>,
    /// Unique passwords seen.
    unique_passwords: Vec<String>,
}

impl Store {
    /// The resident log entries, oldest first.
    pub closed spec fn logs(&self) -> Seq<LogEntryV> {
        self.log_entries@.map_values(|e: LogEntry| e@)
    }

    /// The resident sessions, oldest first.
    pub closed spec fn sess(&self) -> Seq<SessionV> {
        self.sessions@.map_values(|s: Session| s@)
    }

    /// The ceiling on resident log entries.
    pub closed spec fn cap_logs(&self) -> int {
        self.max_logs as int
    }

    /// The ceiling on resident sessions.
    pub closed spec fn cap_sessions(&self) -> int {
        self.max_sessions as int
    }

    /// The set of source IPs ever ingested.
    pub closed spec fn ips_set(&self) -> Set<Seq<char>> {
        self.unique_ips@.map_values(|s: String| s@).to_set()
    }

    /// The set of usernames ever ingested.
    pub closed spec fn usernames_set(&self) -> Set<Seq<char>> {
        self.unique_usernames@.map_values(|s: String| s@).to_set()
    }

    /// The set of passwords ever ingested.
    pub closed spec fn passwords_set(&self) -> Set<Seq<char>> {
        self.unique_passwords@.map_values(|s: String| s@).to_set()
    }

    /// The store respects its ceilings.
    pub open spec fn wf(&self) -> bool {
        self.logs().len() <= self.cap_logs() && self.sess().len() <= self.cap_sessions()
    }

    /// Create a new data store with the configured ceilings.
    pub fn new(config: &Config) -> (r: Result<Self, StoreError>)
        ensures
            r matches Ok(s) ==> {
                &&& s.wf()
                &&& s.logs().len() == 0
                &&& s.sess().len() == 0
                &&& s.ips_set() =~= Set::<Seq<char>>::empty()
                &&& s.usernames_set() =~= Set::<Seq<char>>::empty()
                &&& s.passwords_set() =~= Set::<Seq<char>>::empty()
                &&& s.cap_logs() == config.filter.max_logs
                &&& s.cap_sessions() == config.filter.max_sessions
            },
            r is Ok,
    {
        let store = Store {
            log_entries: Vec::new(),
            sessions: Vec::new(),
            max_logs: config.filter.max_logs,
            max_sessions: config.filter.max_sessions,
            unique_ips: Vec::new(),
            unique_usernames: Vec::new(),
            unique_passwords: Vec::new(),
        };
        proof {
            assert(store.logs() =~= Seq::<LogEntryV>::empty());
            assert(store.sess() =~= Seq::<SessionV>::empty());
            assert(store.unique_ips@.map_values(|s: String| s@) =~= Seq::<Seq<char>>::empty());
            assert(store.unique_usernames@.map_values(|s: String| s@) =~= Seq::<
                Seq<char>,
            >::empty());
            assert(store.unique_passwords@.map_values(|s: String| s@) =~= Seq::<
                Seq<char>,
            >::empty());
        }
        Ok(store)
    }

    /// Add a new log entry: track its unique values, append it in
    /// chronological order, and evict the oldest entries beyond the ceiling.
    pub fn add_log_entry(&mut self, entry: LogEntry) -> (r: Result<(), StoreError>)
        ensures
            r is Ok,
            final(self).logs() == (old(self).logs() + seq![entry@]).skip(
                evict_count(old(self).logs().len() as int + 1, old(self).cap_logs()),
            ),
            old(self).wf() ==> final(self).wf(),
            final(self).sess() == old(self).sess(),
            final(self).cap_logs() == old(self).cap_logs(),
            final(self).cap_sessions() == old(self).cap_sessions(),
            final(self).ips_set() =~= (match entry@.src_ip {
                Some(ip) => old(self).ips_set().insert(ip),
                None => old(self).ips_set(),
            }),
            final(self).usernames_set() =~= (match entry@.username {
                Some(u) => old(self).usernames_set().insert(u),
                None => old(self).usernames_set(),
            }),
            final(self).passwords_set() =~= (match entry@.password {
                Some(p) => old(self).passwords_set().insert(p),
                None => old(self).passwords_set(),
            }),
    {
        match &entry.src_ip {
            Some(ip) => insert_unique(&mut self.unique_ips, ip),
            None => (),
        }
        match &entry.username {
            Some(u) => insert_unique(&mut self.unique_usernames, u),
            None => (),
        }
        match &entry.password {
            Some(p) => insert_unique(&mut self.unique_passwords, p),
            None => (),
        }
        let ghost with_new = old(self).logs() + seq![entry@];
        self.log_entries.push(entry);
        proof {
            assert(self.logs() =~= with_new);
        }
        // prune the oldest entries beyond the ceiling
        let n_now = self.log_entries.len();
        let ghost before = self.logs();
        let ghost ips_after = self.unique_ips@;
        let ghost users_after = self.unique_usernames@;
        let ghost passwords_after = self.unique_passwords@;
        let mut removed: usize = 0;
        while self.log_entries.len() > self.max_logs
            invariant
                before == with_new,
                before.len() == n_now,
                removed <= before.len(),
                self.logs() == before.skip(removed as int),
                removed > 0 ==> before.len() - removed >= self.max_logs,
                self.sessions == old(self).sessions,
                self.max_logs == old(self).max_logs,
                self.max_sessions == old(self).max_sessions,
                self.unique_ips@ == ips_after,
                self.unique_usernames@ == users_after,
                self.unique_passwords@ == passwords_after,
            decreases self.log_entries@.len(),
        {
            let ghost pre = self.logs();
            self.log_entries.remove(0);
            removed = removed + 1;
            proof {
                assert(self.logs() =~= pre.drop_first());
                assert(pre.drop_first() =~= before.skip(removed as int));
            }
        }
        proof {
            assert(removed as int == evict_count(with_new.len() as int, self.cap_logs()));
        }
        Ok(())
    }

    /// Get a log entry by ID: the first resident entry carrying it.
    pub fn get_log_entry(&self, id: &str) -> (r: Option<&LogEntry>)
        ensures
            r matches Some(e) ==> entry_index(self.logs(), id@) >= 0 && e@ == self.logs()[
                entry_index(self.logs(), id@)],
            r is None ==> entry_index(self.logs(), id@) < 0,
    {
        let ghost es = self.logs();
        proof {
            assert(es.skip(0) =~= es);
        }
        let n = self.log_entries.len();
        let mut i: usize = 0;
        while i < n
            invariant
                i <= n,
                n == self.log_entries@.len(),
                es == self.logs(),
                es.len() == n,
                entry_index(es, id@) == spec_index_shift(entry_index(es.skip(i as int), id@), i as int),
            decreases n - i,
        {
            proof {
                assert(es.skip(i as int)[0] == es[i as int]);
                assert(es.skip(i as int).drop_first() =~= es.skip(i as int + 1));
            }
            if str_eq(self.log_entries[i].id.as_str(), id) {
                return Some(&self.log_entries[i]);
            }
            i = i + 1;
        }
        proof {
            assert(es.skip(n as int).len() == 0);
        }
        None
    }

    /// Get a session by ID: the first resident session carrying it.
    pub fn get_session(&self, id: &str) -> (r: Option<&Session>)
        ensures
            r matches Some(s) ==> session_index(self.sess(), id@) >= 0 && s@ == self.sess()[
                session_index(self.sess(), id@)],
            r is None ==> session_index(self.sess(), id@) < 0,
    {
        let ghost ss = self.sess();
        proof {
            assert(ss.skip(0) =~= ss);
        }
        let n = self.sessions.len();
        let mut i: usize = 0;
        while i < n
            invariant
                i <= n,
                n == self.sessions@.len(),
                ss == self.sess(),
                ss.len() == n,
                session_index(ss, id@) == spec_index_shift(
                    session_index(ss.skip(i as int), id@),
                    i as int,
                ),
            decreases n - i,
        {
            proof {
                assert(ss.skip(i as int)[0] == ss[i as int]);
                assert(ss.skip(i as int).drop_first() =~= ss.skip(i as int + 1));
            }
            if str_eq(self.sessions[i].id.as_str(), id) {
                return Some(&self.sessions[i]);
            }
            i = i + 1;
        }
        proof {
            assert(ss.skip(n as int).len() == 0);
        }
        None
    }

    /// Add a new session: append it in chronological order (replacing in
    /// place if its id is already resident) and evict beyond the ceiling.
    pub fn add_session(&mut self, session: Session) -> (r: Result<(), StoreError>)
        ensures
            r is Ok,
            final(self).logs() == old(self).logs(),
            final(self).cap_logs() == old(self).cap_logs(),
            final(self).cap_sessions() == old(self).cap_sessions(),
            final(self).ips_set() == old(self).ips_set(),
            final(self).usernames_set() == old(self).usernames_set(),
            final(self).passwords_set() == old(self).passwords_set(),
            session_index(old(self).sess(), session@.id) >= 0 ==> final(self).sess() == old(
                self,
            ).sess().update(session_index(old(self).sess(), session@.id), session@),
            session_index(old(self).sess(), session@.id) < 0 ==> final(self).sess() == (old(
                self,
            ).sess() + seq![session@]).skip(
                evict_count(old(self).sess().len() as int + 1, old(self).cap_sessions()),
            ),
            old(self).wf() ==> final(self).wf(),
    {
        let ghost pre = self.sess();
        proof {
            lemma_session_index(pre, session@.id);
        }
        match self.find_session_slot(&session.id) {
            Some(i) => {
                let ghost gi = i as int;
                self.sessions.set(i, session);
                proof {
                    assert(self.sess() =~= pre.update(gi, session@));
                }
                Ok(())
            },
            None => {
                let ghost with_new = pre + seq![session@];
                self.sessions.push(session);
                proof {
                    assert(self.sess() =~= with_new);
                }
                let n_now = self.sessions.len();
                let ghost before = self.sess();
                let mut removed: usize = 0;
                while self.sessions.len() > self.max_sessions
                    invariant
                        before == with_new,
                        before.len() == n_now,
                        removed <= before.len(),
                        self.sess() == before.skip(removed as int),
                        self.log_entries == old(self).log_entries,
                        self.max_logs == old(self).max_logs,
                        self.max_sessions == old(self).max_sessions,
                        self.unique_ips == old(self).unique_ips,
                        self.unique_usernames == old(self).unique_usernames,
                        self.unique_passwords == old(self).unique_passwords,
                        removed > 0 ==> before.len() - removed >= self.max_sessions,
                    decreases self.sessions@.len(),
                {
                    let ghost pre2 = self.sess();
                    self.sessions.remove(0);
                    removed = removed + 1;
                    proof {
                        assert(self.sess() =~= pre2.drop_first());
                        assert(pre2.drop_first() =~= before.skip(removed as int));
                    }
                }
                proof {
                    assert(removed as int == evict_count(
                        with_new.len() as int,
                        self.cap_sessions(),
                    ));
                }
                Ok(())
            },
        }
    }

    /// Update an existing session, failing with `NotFound` exactly when no
    /// resident session carries its id.
    pub fn update_session(&mut self, session: Session) -> (r: Result<(), StoreError>)
        ensures
            r is Ok <==> session_index(old(self).sess(), session@.id) >= 0,
            r matches Err(e) ==> e == StoreError::NotFound && *final(self) == *old(self),
            r is Ok ==> final(self).sess() == old(self).sess().update(
                session_index(old(self).sess(), session@.id),
                session@,
            ),
            final(self).logs() == old(self).logs(),
            final(self).cap_logs() == old(self).cap_logs(),
            final(self).cap_sessions() == old(self).cap_sessions(),
            final(self).ips_set() == old(self).ips_set(),
            final(self).usernames_set() == old(self).usernames_set(),
            final(self).passwords_set() == old(self).passwords_set(),
            old(self).wf() ==> final(self).wf(),
    {
        let ghost pre = self.sess();
        match self.find_session_slot(&session.id) {
            Some(i) => {
                let ghost gi = i as int;
                self.sessions.set(i, session);
                proof {
                    assert(self.sess() =~= pre.update(gi, session@));
                }
                Ok(())
            },
            None => Err(StoreError::NotFound),
        }
    }

    /// The position of the first resident session with the given id.
    fn find_session_slot(&self, id: &String) -> (r: Option<usize>)
        ensures
            r matches Some(i) ==> session_index(self.sess(), id@) == i && i < self.sess().len(),
            r is None ==> session_index(self.sess(), id@) < 0,
    {
        let ghost ss = self.sess();
        proof {
            assert(ss.skip(0) =~= ss);
        }
        let n = self.sessions.len();
        let mut i: usize = 0;
        while i < n
            invariant
                i <= n,
                n == self.sessions@.len(),
                ss == self.sess(),
                ss.len() == n,
                session_index(ss, id@) == spec_index_shift(
                    session_index(ss.skip(i as int), id@),
                    i as int,
                ),
            decreases n - i,
        {
            proof {
                assert(ss.skip(i as int)[0] == ss[i as int]);
                assert(ss.skip(i as int).drop_first() =~= ss.skip(i as int + 1));
            }
            if str_eq(self.sessions[i].id.as_str(), id.as_str()) {
                return Some(i);
            }
            i = i + 1;
        }
        proof {
            assert(ss.skip(n as int).len() == 0);
        }
        None
    }

    /// Total number of resident log entries.
    pub fn get_log_entry_count(&self) -> (r: usize)
        ensures
            r == self.logs().len(),
    {
        self.log_entries.len()
    }

    /// Total number of resident sessions.
    pub fn get_session_count(&self) -> (r: usize)
        ensures
            r == self.sess().len(),
    {
        self.sessions.len()
    }

    /// All resident log entries in chronological order.
    pub fn get_log_entries(&self) -> (r: Vec<&LogEntry>)
        ensures
            r@.len() == self.logs().len(),
            forall|k: int| 0 <= k < r@.len() ==> r@[k]@ == self.logs()[k],
    {
        let mut out: Vec<&LogEntry> = Vec::new();
        let n = self.log_entries.len();
        let mut i: usize = 0;
        while i < n
            invariant
                i <= n,
                n == self.log_entries@.len(),
                out@.len() == i,
                forall|k: int| 0 <= k < i ==> out@[k]@ == self.logs()[k],
            decreases n - i,
        {
            out.push(&self.log_entries[i]);
            i = i + 1;
        }
        out
    }

    /// All resident sessions in chronological order.
    pub fn get_sessions(&self) -> (r: Vec<&Session>)
        ensures
            r@.len() == self.sess().len(),
            forall|k: int| 0 <= k < r@.len() ==> r@[k]@ == self.sess()[k],
    {
        let mut out: Vec<&Session> = Vec::new();
        let n = self.sessions.len();
        let mut i: usize = 0;
        while i < n
            invariant
                i <= n,
                n == self.sessions@.len(),
                out@.len() == i,
                forall|k: int| 0 <= k < i ==> out@[k]@ == self.sess()[k],
            decreases n - i,
        {
            out.push(&self.sessions[i]);
            i = i + 1;
        }
        out
    }

    /// Clear all data.
    pub fn clear(&mut self)
        ensures
            final(self).logs().len() == 0,
            final(self).sess().len() == 0,
            final(self).ips_set() =~= Set::<Seq<char>>::empty(),
            final(self).usernames_set() =~= Set::<Seq<char>>::empty(),
            final(self).passwords_set() =~= Set::<Seq<char>>::empty(),
            final(self).cap_logs() == old(self).cap_logs(),
            final(self).cap_sessions() == old(self).cap_sessions(),
            final(self).wf(),
    {
        self.log_entries = Vec::new();
        self.sessions = Vec::new();
        self.unique_ips = Vec::new();
        self.unique_usernames = Vec::new();
        self.unique_passwords = Vec::new();
        proof {
            assert(self.logs() =~= Seq::<LogEntryV>::empty());
            assert(self.sess() =~= Seq::<SessionV>::empty());
            assert(self.unique_ips@.map_values(|s: String| s@) =~= Seq::<Seq<char>>::empty());
            assert(self.unique_usernames@.map_values(|s: String| s@) =~= Seq::<
                Seq<char>,
            >::empty());
            assert(self.unique_passwords@.map_values(|s: String| s@) =~= Seq::<
                Seq<char>,
            >::empty());
        }
    }

    /// Log entries belonging to the given session, in chronological order.
    pub fn get_log_entries_by_session(&self, session_id: &str) -> (r: Vec<&LogEntry>)
        ensures
            r@.map_values(|e: &LogEntry| e@) == self.logs().filter(
                |e: LogEntryV| e.session == Some(session_id@),
            ),
    {
        let mut out: Vec<&LogEntry> = Vec::new();
        let n = self.log_entries.len();
        let mut i: usize = 0;
        proof {
            reveal(Seq::filter);
            assert(self.logs().take(0) =~= Seq::<LogEntryV>::empty());
        }
        while i < n
            invariant
                i <= n,
                n == self.log_entries@.len(),
                out@.map_values(|e: &LogEntry| e@) == self.logs().take(i as int).filter(
                    |e: LogEntryV| e.session == Some(session_id@),
                ),
            decreases n - i,
        {
            let e = &self.log_entries[i];
            let m = match &e.session {
                Some(s) => crate::text::str_eq(s.as_str(), session_id),
                None => false,
            };
            let ghost gi = i as int;
            proof {
                reveal(Seq::filter);
                assert(self.logs()[gi] == self.log_entries@[gi]@);
                assert(self.logs().take(gi + 1).drop_last() =~= self.logs().take(gi));
                assert(self.logs().take(gi + 1).last() == self.logs()[gi]);
            }
            if m {
                let ghost pre = out@;
                out.push(e);
                proof {
                    assert(out@.map_values(|x: &LogEntry| x@) =~= pre.map_values(
                        |x: &LogEntry| x@,
                    ).push(self.logs()[gi]));
                }
            }
            i = i + 1;
        }
        proof {
            assert(self.logs().take(n as int) =~= self.logs());
        }
        out
    }

    /// Log entries of the given event type, in chronological order.
    pub fn get_log_entries_by_event_type(&self, event_type: &EventType) -> (r: Vec<&LogEntry>)
        ensures
            r@.map_values(|e: &LogEntry| e@) == self.logs().filter(
                |e: LogEntryV| e.event_type == *event_type,
            ),
    {
        let mut out: Vec<&LogEntry> = Vec::new();
        let n = self.log_entries.len();
        let mut i: usize = 0;
        proof {
            reveal(Seq::filter);
            assert(self.logs().take(0) =~= Seq::<LogEntryV>::empty());
        }
        while i < n
            invariant
                i <= n,
                n == self.log_entries@.len(),
                out@.map_values(|e: &LogEntry| e@) == self.logs().take(i as int).filter(
                    |e: LogEntryV| e.event_type == *event_type,
                ),
            decreases n - i,
        {
            let e = &self.log_entries[i];
            let m = (e.event_type == *event_type);
            let ghost gi = i as int;
            proof {
                reveal(Seq::filter);
                assert(self.logs()[gi] == self.log_entries@[gi]@);
                assert(self.logs().take(gi + 1).drop_last() =~= self.logs().take(gi));
                assert(self.logs().take(gi + 1).last() == self.logs()[gi]);
            }
            if m {
                let ghost pre = out@;
                out.push(e);
                proof {
                    assert(out@.map_values(|x: &LogEntry| x@) =~= pre.map_values(
                        |x: &LogEntry| x@,
                    ).push(self.logs()[gi]));
                }
            }
            i = i + 1;
        }
        proof {
            assert(self.logs().take(n as int) =~= self.logs());
        }
        out
    }

    /// Log entries whose timestamp lies in the inclusive range.
    pub fn get_log_entries_by_time_range(&self, start: i64, end: i64) -> (r: Vec<&LogEntry>)
        ensures
            r@.map_values(|e: &LogEntry| e@) == self.logs().filter(
                |e: LogEntryV| start <= e.timestamp && e.timestamp <= end,
            ),
    {
        let mut out: Vec<&LogEntry> = Vec::new();
        let n = self.log_entries.len();
        let mut i: usize = 0;
        proof {
            reveal(Seq::filter);
            assert(self.logs().take(0) =~= Seq::<LogEntryV>::empty());
        }
        while i < n
            invariant
                i <= n,
                n == self.log_entries@.len(),
                out@.map_values(|e: &LogEntry| e@) == self.logs().take(i as int).filter(
                    |e: LogEntryV| start <= e.timestamp && e.timestamp <= end,
                ),
            decreases n - i,
        {
            let e = &self.log_entries[i];
            let m = (start <= e.timestamp && e.timestamp <= end);
            let ghost gi = i as int;
            proof {
                reveal(Seq::filter);
                assert(self.logs()[gi] == self.log_entries@[gi]@);
                assert(self.logs().take(gi + 1).drop_last() =~= self.logs().take(gi));
                assert(self.logs().take(gi + 1).last() == self.logs()[gi]);
            }
            if m {
                let ghost pre = out@;
                out.push(e);
                proof {
                    assert(out@.map_values(|x: &LogEntry| x@) =~= pre.map_values(
                        |x: &LogEntry| x@,
                    ).push(self.logs()[gi]));
                }
            }
            i = i + 1;
        }
        proof {
            assert(self.logs().take(n as int) =~= self.logs());
        }
        out
    }

    /// Log entries from the given source IP, in chronological order.
    pub fn get_log_entries_by_source_ip(&self, src_ip: &str) -> (r: Vec<&LogEntry>)
        ensures
            r@.map_values(|e: &LogEntry| e@) == self.logs().filter(
                |e: LogEntryV| e.src_ip == Some(src_ip@),
            ),
    {
        let mut out: Vec<&LogEntry> = Vec::new();
        let n = self.log_entries.len();
        let mut i: usize = 0;
        proof {
            reveal(Seq::filter);
            assert(self.logs().take(0) =~= Seq::<LogEntryV>::empty());
        }
        while i < n
            invariant
                i <= n,
                n == self.log_entries@.len(),
                out@.map_values(|e: &LogEntry| e@) == self.logs().take(i as int).filter(
                    |e: LogEntryV| e.src_ip == Some(src_ip@),
                ),
            decreases n - i,
        {
            let e = &self.log_entries[i];
            let m = match &e.src_ip {
                Some(s) => crate::text::str_eq(s.as_str(), src_ip),
                None => false,
            };
            let ghost gi = i as int;
            proof {
                reveal(Seq::filter);
                assert(self.logs()[gi] == self.log_entries@[gi]@);
                assert(self.logs().take(gi + 1).drop_last() =~= self.logs().take(gi));
                assert(self.logs().take(gi + 1).last() == self.logs()[gi]);
            }
            if m {
                let ghost pre = out@;
                out.push(e);
                proof {
                    assert(out@.map_values(|x: &LogEntry| x@) =~= pre.map_values(
                        |x: &LogEntry| x@,
                    ).push(self.logs()[gi]));
                }
            }
            i = i + 1;
        }
        proof {
            assert(self.logs().take(n as int) =~= self.logs());
        }
        out
    }

    /// Log entries naming the given username, in chronological order.
    pub fn get_log_entries_by_username(&self, username: &str) -> (r: Vec<&LogEntry>)
        ensures
            r@.map_values(|e: &LogEntry| e@) == self.logs().filter(
                |e: LogEntryV| e.username == Some(username@),
            ),
    {
        let mut out: Vec<&LogEntry> = Vec::new();
        let n = self.log_entries.len();
        let mut i: usize = 0;
        proof {
            reveal(Seq::filter);
            assert(self.logs().take(0) =~= Seq::<LogEntryV>::empty());
        }
        while i < n
            invariant
                i <= n,
                n == self.log_entries@.len(),
                out@.map_values(|e: &LogEntry| e@) == self.logs().take(i as int).filter(
                    |e: LogEntryV| e.username == Some(username@),
                ),
            decreases n - i,
        {
            let e = &self.log_entries[i];
            let m = match &e.username {
                Some(s) => crate::text::str_eq(s.as_str(), username),
                None => false,
            };
            let ghost gi = i as int;
            proof {
                reveal(Seq::filter);
                assert(self.logs()[gi] == self.log_entries@[gi]@);
                assert(self.logs().take(gi + 1).drop_last() =~= self.logs().take(gi));
                assert(self.logs().take(gi + 1).last() == self.logs()[gi]);
            }
            if m {
                let ghost pre = out@;
                out.push(e);
                proof {
                    assert(out@.map_values(|x: &LogEntry| x@) =~= pre.map_values(
                        |x: &LogEntry| x@,
                    ).push(self.logs()[gi]));
                }
            }
            i = i + 1;
        }
        proof {
            assert(self.logs().take(n as int) =~= self.logs());
        }
        out
    }

    /// Sessions whose end time is unset, in chronological order.
    pub fn get_active_sessions(&self) -> (r: Vec<&Session>)
        ensures
            r@.map_values(|e: &Session| e@) == self.sess().filter(
                |e: SessionV| e.end_time is None,
            ),
    {
        let mut out: Vec<&Session> = Vec::new();
        let n = self.sessions.len();
        let mut i: usize = 0;
        proof {
            reveal(Seq::filter);
            assert(self.sess().take(0) =~= Seq::<SessionV>::empty());
        }
        while i < n
            invariant
                i <= n,
                n == self.sessions@.len(),
                out@.map_values(|e: &Session| e@) == self.sess().take(i as int).filter(
                    |e: SessionV| e.end_time is None,
                ),
            decreases n - i,
        {
            let e = &self.sessions[i];
            let m = e.end_time.is_none();
            let ghost gi = i as int;
            proof {
                reveal(Seq::filter);
                assert(self.sess()[gi] == self.sessions@[gi]@);
                assert(self.sess().take(gi + 1).drop_last() =~= self.sess().take(gi));
                assert(self.sess().take(gi + 1).last() == self.sess()[gi]);
            }
            if m {
                let ghost pre = out@;
                out.push(e);
                proof {
                    assert(out@.map_values(|x: &Session| x@) =~= pre.map_values(
                        |x: &Session| x@,
                    ).push(self.sess()[gi]));
                }
            }
            i = i + 1;
        }
        proof {
            assert(self.sess().take(n as int) =~= self.sess());
        }
        out
    }

    /// Sessions from the given source IP, in chronological order.
    pub fn get_sessions_by_source_ip(&self, src_ip: &str) -> (r: Vec<&Session>)
        ensures
            r@.map_values(|e: &Session| e@) == self.sess().filter(
                |e: SessionV| e.src_ip == src_ip@,
            ),
    {
        let mut out: Vec<&Session> = Vec::new();
        let n = self.sessions.len();
        let mut i: usize = 0;
        proof {
            reveal(Seq::filter);
            assert(self.sess().take(0) =~= Seq::<SessionV>::empty());
        }
        while i < n
            invariant
                i <= n,
                n == self.sessions@.len(),
                out@.map_values(|e: &Session| e@) == self.sess().take(i as int).filter(
                    |e: SessionV| e.src_ip == src_ip@,
                ),
            decreases n - i,
        {
            let e = &self.sessions[i];
            let m = crate::text::str_eq(e.src_ip.as_str(), src_ip);
            let ghost gi = i as int;
            proof {
                reveal(Seq::filter);
                assert(self.sess()[gi] == self.sessions@[gi]@);
                assert(self.sess().take(gi + 1).drop_last() =~= self.sess().take(gi));
                assert(self.sess().take(gi + 1).last() == self.sess()[gi]);
            }
            if m {
                let ghost pre = out@;
                out.push(e);
                proof {
                    assert(out@.map_values(|x: &Session| x@) =~= pre.map_values(
                        |x: &Session| x@,
                    ).push(self.sess()[gi]));
                }
            }
            i = i + 1;
        }
        proof {
            assert(self.sess().take(n as int) =~= self.sess());
        }
        out
    }

    /// Sessions whose user carries the given username.
    pub fn get_sessions_by_username(&self, username: &str) -> (r: Vec<&Session>)
        ensures
            r@.map_values(|e: &Session| e@) == self.sess().filter(
                |e: SessionV| e.user matches Some(u) && u.username == username@,
            ),
    {
        let mut out: Vec<&Session> = Vec::new();
        let n = self.sessions.len();
        let mut i: usize = 0;
        proof {
            reveal(Seq::filter);
            assert(self.sess().take(0) =~= Seq::<SessionV>::empty());
        }
        while i < n
            invariant
                i <= n,
                n == self.sessions@.len(),
                out@.map_values(|e: &Session| e@) == self.sess().take(i as int).filter(
                    |e: SessionV| e.user matches Some(u) && u.username == username@,
                ),
            decreases n - i,
        {
            let e = &self.sessions[i];
            let m = match &e.user {
                Some(u) => crate::text::str_eq(u.username.as_str(), username),
                None => false,
            };
            let ghost gi = i as int;
            proof {
                reveal(Seq::filter);
                assert(self.sess()[gi] == self.sessions@[gi]@);
                assert(self.sess().take(gi + 1).drop_last() =~= self.sess().take(gi));
                assert(self.sess().take(gi + 1).last() == self.sess()[gi]);
            }
            if m {
                let ghost pre = out@;
                out.push(e);
                proof {
                    assert(out@.map_values(|x: &Session| x@) =~= pre.map_values(
                        |x: &Session| x@,
                    ).push(self.sess()[gi]));
                }
            }
            i = i + 1;
        }
        proof {
            assert(self.sess().take(n as int) =~= self.sess());
        }
        out
    }

    /// Sessions that started, or ended, inside the inclusive range.
    pub fn get_sessions_by_time_range(&self, start: i64, end: i64) -> (r: Vec<&Session>)
        ensures
            r@.map_values(|e: &Session| e@) == self.sess().filter(
                |e: SessionV| (start <= e.start_time && e.start_time <= end) || (e.end_time matches Some(t) && start <= t && t <= end),
            ),
    {
        let mut out: Vec<&Session> = Vec::new();
        let n = self.sessions.len();
        let mut i: usize = 0;
        proof {
            reveal(Seq::filter);
            assert(self.sess().take(0) =~= Seq::<SessionV>::empty());
        }
        while i < n
            invariant
                i <= n,
                n == self.sessions@.len(),
                out@.map_values(|e: &Session| e@) == self.sess().take(i as int).filter(
                    |e: SessionV| (start <= e.start_time && e.start_time <= end) || (e.end_time matches Some(t) && start <= t && t <= end),
                ),
            decreases n - i,
        {
            let e = &self.sessions[i];
            let m = ((start <= e.start_time && e.start_time <= end) || (match e.end_time {
                Some(t) => start <= t && t <= end,
                None => false,
            }));
            let ghost gi = i as int;
            proof {
                reveal(Seq::filter);
                assert(self.sess()[gi] == self.sessions@[gi]@);
                assert(self.sess().take(gi + 1).drop_last() =~= self.sess().take(gi));
                assert(self.sess().take(gi + 1).last() == self.sess()[gi]);
            }
            if m {
                let ghost pre = out@;
                out.push(e);
                proof {
                    assert(out@.map_values(|x: &Session| x@) =~= pre.map_values(
                        |x: &Session| x@,
                    ).push(self.sess()[gi]));
                }
            }
            i = i + 1;
        }
        proof {
            assert(self.sess().take(n as int) =~= self.sess());
        }
        out
    }

    /// Log entries whose command, username or password text contains the keyword, with or without regard to case.
    pub fn search_log_entries(&self, keyword: &str, case_sensitive: bool) -> (r: Vec<&LogEntry>)
        ensures
            r@.map_values(|e: &LogEntry| e@) == self.logs().filter(
                |e: LogEntryV| entry_matches_keyword(e, keyword@, case_sensitive),
            ),
    {
        let mut out: Vec<&LogEntry> = Vec::new();
        let n = self.log_entries.len();
        let mut i: usize = 0;
        proof {
            reveal(Seq::filter);
            assert(self.logs().take(0) =~= Seq::<LogEntryV>::empty());
        }
        while i < n
            invariant
                i <= n,
                n == self.log_entries@.len(),
                out@.map_values(|e: &LogEntry| e@) == self.logs().take(i as int).filter(
                    |e: LogEntryV| entry_matches_keyword(e, keyword@, case_sensitive),
                ),
            decreases n - i,
        {
            let e = &self.log_entries[i];
            let m = entry_keyword_check(e, keyword, case_sensitive);
            let ghost gi = i as int;
            proof {
                reveal(Seq::filter);
                assert(self.logs()[gi] == self.log_entries@[gi]@);
                assert(self.logs().take(gi + 1).drop_last() =~= self.logs().take(gi));
                assert(self.logs().take(gi + 1).last() == self.logs()[gi]);
            }
            if m {
                let ghost pre = out@;
                out.push(e);
                proof {
                    assert(out@.map_values(|x: &LogEntry| x@) =~= pre.map_values(
                        |x: &LogEntry| x@,
                    ).push(self.logs()[gi]));
                }
            }
            i = i + 1;
        }
        proof {
            assert(self.logs().take(n as int) =~= self.logs());
        }
        out
    }

    /// The resident session at the given chronological position.
    pub fn get_session_at(&self, i: usize) -> (r: &Session)
        requires
            i < self.sess().len(),
        ensures
            r@ == self.sess()[i as int],
    {
        &self.sessions[i]
    }

    /// Replace the resident session at the given chronological position.
    pub fn set_session_at(&mut self, i: usize, s: Session)
        requires
            i < old(self).sess().len(),
        ensures
            final(self).sess() == old(self).sess().update(i as int, s@),
            final(self).logs() == old(self).logs(),
            final(self).cap_logs() == old(self).cap_logs(),
            final(self).cap_sessions() == old(self).cap_sessions(),
            final(self).ips_set() == old(self).ips_set(),
            final(self).usernames_set() == old(self).usernames_set(),
            final(self).passwords_set() == old(self).passwords_set(),
            old(self).wf() ==> final(self).wf(),
    {
        self.sessions.set(i, s);
        proof {
            assert(self.sess() =~= old(self).sess().update(i as int, s@));
        }
    }

    /// The unique source IPs seen by the store.
    pub fn get_unique_source_ips(&self) -> (r: &Vec<String>)
        ensures
            r@.map_values(|s: String| s@).to_set() == self.ips_set(),
    {
        &self.unique_ips
    }

    /// The unique usernames seen by the store.
    pub fn get_unique_usernames(&self) -> (r: &Vec<String>)
        ensures
            r@.map_values(|s: String| s@).to_set() == self.usernames_set(),
    {
        &self.unique_usernames
    }

    /// The unique passwords seen by the store.
    pub fn get_unique_passwords(&self) -> (r: &Vec<String>)
        ensures
            r@.map_values(|s: String| s@).to_set() == self.passwords_set(),
    {
        &self.unique_passwords
    }
}


/// Whether one of the entry's text fields contains the keyword.
fn entry_keyword_check(e: &LogEntry, keyword: &str, case_sensitive: bool) -> (r: bool)
    ensures
        r == entry_matches_keyword(e@, keyword@, case_sensitive),
{
    field_keyword_check(&e.command, keyword, case_sensitive) || field_keyword_check(
        &e.username,
        keyword,
        case_sensitive,
    ) || field_keyword_check(&e.password, keyword, case_sensitive)
}

/// Whether an optional text field contains the keyword.
fn field_keyword_check(o: &Option<String>, keyword: &str, case_sensitive: bool) -> (r: bool)
    ensures
        r == field_matches_keyword(opt_str_view(*o), keyword@, case_sensitive),
{
    match o {
        Some(s) => {
            if case_sensitive {
                string_contains(s, keyword)
            } else {
                let low = to_ascii_lower(s);
                let kw = String::from_str(keyword);
                let kw_low = to_ascii_lower(&kw);
                string_contains(&low, kw_low.as_str())
            }
        },
        None => false,
    }
}

/// Shift a relative find result by an offset, keeping "not found".
pub open spec fn spec_index_shift(rel: int, off: int) -> int {
    if rel < 0 {
        -1
    } else {
        rel + off
    }
}

/// Append a string to a set-like vector unless it is already present.
fn insert_unique(v: &mut Vec<String>, s: &String)
    ensures
        final(v)@.map_values(|x: String| x@).to_set() =~= old(v)@.map_values(
            |x: String| x@,
        ).to_set().insert(s@),
{
    let n = v.len();
    let mut i: usize = 0;
    while i < n
        invariant
            i <= n,
            n == v@.len(),
            forall|k: int| 0 <= k < i ==> v@[k]@ != s@,
        decreases n - i,
    {
        if str_eq(v[i].as_str(), s.as_str()) {
            proof {
                let m = v@.map_values(|x: String| x@);
                assert(m[i as int] == s@);
                assert(m.to_set().contains(s@)) by {
                    assert(m.contains(s@));
                }
                assert(m.to_set() =~= m.to_set().insert(s@));
            }
            return;
        }
        i = i + 1;
    }
    let ghost pre = v@;
    v.push(s.clone());
    proof {
        let m0 = pre.map_values(|x: String| x@);
        let m1 = v@.map_values(|x: String| x@);
        assert(m1 =~= m0.push(s@));
        assert forall|t: Seq<char>| m1.to_set().contains(t) <==> m0.to_set().contains(t) || t
            == s@ by {
            if m1.to_set().contains(t) {
                assert(m1.contains(t));
                let j = choose|j: int| 0 <= j < m1.len() && m1[j] == t;
                if j < m0.len() {
                    assert(m0[j] == t);
                    assert(m0.contains(t));
                }
            }
            if m0.to_set().contains(t) {
                assert(m0.contains(t));
                let j = choose|j: int| 0 <= j < m0.len() && m0[j] == t;
                assert(m1[j] == t);
                assert(m1.contains(t));
            }
            if t == s@ {
                assert(m1[m1.len() - 1] == t);
                assert(m1.contains(t));
            }
        }
        assert(m1.to_set() =~= m0.to_set().insert(s@));
    }
}

} // verus!
