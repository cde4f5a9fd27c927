//! The library's global laws: properties that relate several functions,
//! stated over the same specifications their contracts use, and proved
//! here once and for all.

use vstd::prelude::*;

use crate::enhanced_log_analyzer::{
    ThreatIntelDataV, enhanced_session_risk, lemma_enhanced_commands_score_nonneg,
    lemma_files_score_nonneg,
};
use crate::json::{json_str_field, spec_parse_json};
use crate::log_analyzer::{
    ParseError, basic_session_risk, lemma_basic_commands_score_nonneg, spec_parse_error,
};
use crate::models::{EventType, LogEntryV, SessionV};
use crate::session_manager::{spec_apply_event, spec_process_entry, spec_sweep, swept_closed,
    timed_out};
use crate::store::{entry_index, evict_count, lemma_entry_index, session_index};
use crate::timestamp::spec_parse_rfc3339;

verus! {

/// A line that is one JSON text with a string event type and a
/// well-formed timestamp always parses: no error is produced, and a
/// successfully parsed entry's raw value is exactly the line's JSON value.
pub proof fn lemma_minimal_line_parses(s: Seq<char>, e: LogEntryV)
    requires
        spec_parse_json(s) is Some,
        json_str_field(spec_parse_json(s)->0, "eventid"@) is Some,
        json_str_field(spec_parse_json(s)->0, "timestamp"@) is Some,
        spec_parse_rfc3339(json_str_field(spec_parse_json(s)->0, "timestamp"@)->0) is Some,
        crate::log_analyzer::entry_matches(e, spec_parse_json(s)->0, false) || crate::log_analyzer::entry_matches(
            e,
            spec_parse_json(s)->0,
            true,
        ),
    ensures
        spec_parse_error(s) is None,
        e.raw == spec_parse_json(s)->0,
{
}

/// A line missing the event-type or timestamp member fails with
/// `MissingField`; a line that is not JSON fails with `MalformedJson`; a
/// line whose timestamp member is present but not a well-formed RFC 3339
/// string fails with `BadTimestamp`.  No entry is produced in any of
/// these cases.
pub proof fn lemma_bad_line_fails(s: Seq<char>)
    ensures
        spec_parse_json(s) is None ==> spec_parse_error(s) == Some(ParseError::MalformedJson),
        spec_parse_json(s) matches Some(v) && (json_str_field(v, "eventid"@) is None
            || json_str_field(v, "timestamp"@) is None) ==> spec_parse_error(s) == Some(
            ParseError::MissingField,
        ),
        spec_parse_json(s) matches Some(v) && json_str_field(v, "eventid"@) is Some
            && json_str_field(v, "timestamp"@) is Some && spec_parse_rfc3339(
            json_str_field(v, "timestamp"@)->0,
        ) is None ==> spec_parse_error(s) == Some(ParseError::BadTimestamp),
{
}

/// The session state after a replayed entry sequence, starting from the
/// given state.
pub open spec fn apply_entries(ss: Seq<SessionV>, es: Seq<LogEntryV>, cap: int) -> Seq<
    SessionV,
>
    decreases es.len(),
{
    if es.len() == 0 {
        ss
    } else {
        apply_entries(spec_process_entry(ss, es[0], cap), es.drop_first(), cap)
    }
}

/// Feeding the same entry sequence, in the same order, into two fresh
/// aggregators produces identical session state both times: the state
/// after a replay is a function of the sequence alone.
pub proof fn lemma_replay_deterministic(
    es: Seq<LogEntryV>,
    cap: int,
    s1: Seq<SessionV>,
    s2: Seq<SessionV>,
)
    requires
        s1 == apply_entries(Seq::empty(), es, cap),
        s2 == apply_entries(Seq::empty(), es, cap),
    ensures
        s1 == s2,
{
}

/// One abstract store insertion.
pub enum StoreOp {
    /// Insert a log entry.
    AddLog(LogEntryV),
    /// Insert a session.
    AddSession(SessionV),
}

/// The store's two collections, abstractly.
pub struct StoreStateV {
    /// The resident log entries, oldest first.
    pub logs: Seq<LogEntryV>,
    /// The resident sessions, oldest first.
    pub sessions: Seq<SessionV>,
}

/// The store's collections after a sequence of insertions, under the
/// given ceilings: exactly the states the store's insert operations leave.
pub open spec fn store_after(
    state: StoreStateV,
    ops: Seq<StoreOp>,
    log_cap: int,
    session_cap: int,
) -> StoreStateV
    decreases ops.len(),
{
    if ops.len() == 0 {
        state
    } else {
        let next = store_step(state, ops[0], log_cap, session_cap);
        store_after(next, ops.drop_first(), log_cap, session_cap)
    }
}

/// One insertion's effect on the store's collections.
pub open spec fn store_step(
    state: StoreStateV,
    op: StoreOp,
    log_cap: int,
    session_cap: int,
) -> StoreStateV {
    match op {
        StoreOp::AddLog(e) => StoreStateV {
            logs: (state.logs + seq![e]).skip(evict_count(state.logs.len() as int + 1, log_cap)),
            ..state
        },
        StoreOp::AddSession(s) => {
            let idx = session_index(state.sessions, s.id);
            if idx >= 0 {
                StoreStateV { sessions: state.sessions.update(idx, s), ..state }
            } else {
                StoreStateV {
                    sessions: (state.sessions + seq![s]).skip(
                        evict_count(state.sessions.len() as int + 1, session_cap),
                    ),
                    ..state
                }
            }
        },
    }
}

/// After any number of insertions into a store that respected its
/// ceilings, both collections still respect them.
pub proof fn lemma_store_size_bounded(
    state: StoreStateV,
    ops: Seq<StoreOp>,
    log_cap: int,
    session_cap: int,
)
    requires
        state.logs.len() <= log_cap,
        state.sessions.len() <= session_cap,
    ensures
        store_after(state, ops, log_cap, session_cap).logs.len() <= log_cap,
        store_after(state, ops, log_cap, session_cap).sessions.len() <= session_cap,
    decreases ops.len(),
{
    if ops.len() > 0 {
        let next = store_step(state, ops[0], log_cap, session_cap);
        match ops[0] {
            StoreOp::AddLog(e) => {
            },
            StoreOp::AddSession(s) => {
                crate::store::lemma_session_index(state.sessions, s.id);
            },
        }
        lemma_store_size_bounded(next, ops.drop_first(), log_cap, session_cap);
    }
}

/// The first entry carrying an id is found at its position when no
/// earlier entry carries the same id.
pub proof fn lemma_entry_index_first(es: Seq<LogEntryV>, j: int)
    requires
        0 <= j < es.len(),
        forall|i: int| 0 <= i < j ==> es[i].id != es[j].id,
    ensures
        entry_index(es, es[j].id) == j,
    decreases es.len(),
{
    if j > 0 {
        assert(es[0].id != es[j].id);
        assert(forall|i: int|
            0 <= i < j - 1 ==> es.drop_first()[i] == es[i + 1] && es[i + 1].id != es[j].id);
        lemma_entry_index_first(es.drop_first(), j - 1);
    }
}

/// First-in, first-out eviction: inserting one more entry into a full
/// store of distinct ids drops exactly the entry with the earliest
/// insertion order; every other entry, and the new one, remains
/// retrievable by its id at its shifted position.
pub proof fn lemma_fifo_eviction(ls: Seq<LogEntryV>, e: LogEntryV, cap: int)
    requires
        ls.len() == cap,
        cap >= 1,
        forall|i: int, j: int| 0 <= i < j < ls.len() ==> ls[i].id != ls[j].id,
        forall|i: int| 0 <= i < ls.len() ==> ls[i].id != e.id,
    ensures
        ({
            let after = (ls + seq![e]).skip(evict_count(ls.len() as int + 1, cap));
            &&& after =~= ls.drop_first() + seq![e]
            &&& entry_index(after, ls[0].id) < 0
            &&& forall|k: int|
                1 <= k < cap ==> entry_index(after, ls[k].id) == k - 1 && after[k - 1] == ls[k]
            &&& entry_index(after, e.id) == cap - 1 && after[cap - 1] == e
        }),
{
    let after = (ls + seq![e]).skip(evict_count(ls.len() as int + 1, cap));
    assert(after =~= ls.drop_first() + seq![e]);
    lemma_entry_index(after, ls[0].id);
    if entry_index(after, ls[0].id) >= 0 {
        let i = entry_index(after, ls[0].id);
        assert(after[i].id == ls[0].id);
        if i < cap - 1 {
            assert(after[i] == ls[i + 1]);
            assert(false);
        } else {
            assert(after[i] == e);
            assert(false);
        }
    }
    assert forall|k: int| 1 <= k < cap implies entry_index(after, ls[k].id) == k - 1 && after[k
        - 1] == ls[k] by {
        assert(after[k - 1] == ls[k]);
        assert forall|i: int| 0 <= i < k - 1 implies #[trigger] after[i].id != after[k - 1].id by {
            assert(after[i] == ls[i + 1]);
        }
        lemma_entry_index_first(after, k - 1);
    }
    assert(after[cap - 1] == e);
    assert forall|i: int| 0 <= i < cap - 1 implies #[trigger] after[i].id != e.id by {
        assert(after[i] == ls[i + 1]);
    }
    lemma_entry_index_first(after, cap - 1);
}

/// The basic risk score lies between zero and one hundred, for every
/// session state.
pub proof fn lemma_basic_risk_bounds(s: SessionV)
    ensures
        0 <= basic_session_risk(s) <= 100,
{
    lemma_basic_commands_score_nonneg(s.commands);
}

/// The enhanced risk score lies between zero and one hundred, for every
/// session state and every threat-intelligence outcome.
pub proof fn lemma_enhanced_risk_bounds(s: SessionV, intel: Option<ThreatIntelDataV>)
    ensures
        0 <= enhanced_session_risk(s, intel) <= 100,
{
    lemma_enhanced_commands_score_nonneg(s.commands);
    lemma_files_score_nonneg(s.files);
}

/// Sticky authentication: once a session's record reflects a successful
/// login, a later failed or merely attempted login — for any user —
/// leaves that record unchanged; a later success after failures does
/// replace it.
pub proof fn lemma_sticky_auth(s: SessionV, e: LogEntryV)
    requires
        s.user matches Some(u) && u.login_success,
        e.event_type == EventType::LoginFailed || e.event_type == EventType::LoginAttempt
            || e.event_type == EventType::KeyAuth && crate::session_manager::fields_bool(
            e.fields,
            "success"@,
        ) != Some(true),
    ensures
        spec_apply_event(s, e).user == s.user,
{
}

/// A success arriving after failures replaces the record: the session
/// then reflects the successful login.
pub proof fn lemma_success_replaces_failure(s: SessionV, e: LogEntryV)
    requires
        s.user matches Some(u) && !u.login_success,
        e.event_type == EventType::LoginSuccess,
    ensures
        spec_apply_event(s, e).user matches Some(u2) && u2.login_success && u2.username == (
        match e.username {
            Some(n) => n,
            None => Seq::empty(),
        }),
{
}

/// Timeout finalization: a session with no disconnect whose start lies
/// further in the past than the timeout is closed by the sweep — its end
/// time is set to the sweep instant — and it no longer counts as active.
pub proof fn lemma_timeout_finalization(ss: Seq<SessionV>, i: int, now: i64, timeout_secs: u64)
    requires
        0 <= i < ss.len(),
        timed_out(ss[i], now, timeout_secs),
    ensures
        spec_sweep(ss, now, timeout_secs)[i] == swept_closed(ss[i], now),
        spec_sweep(ss, now, timeout_secs)[i].end_time == Some(now),
        !(spec_sweep(ss, now, timeout_secs)[i].end_time is None),
{
}

} // verus!
