//! The decisions of the log-file watcher: where to start reading in
//! history, and how to react to a file's new size.  The file system work
//! itself — watching, opening and reading — belongs to the surrounding
//! program, which feeds sizes and offsets in and performs the plans that
//! come out.

use vstd::prelude::*;

use crate::settings::Config;

verus! {

/// What to do after the watched file's size changed.
#[derive(Debug, Clone, Copy, PartialEq, Eq, Structural)]
pub enum TailAction {
    /// Nothing new to read.
    NoChange,
    /// Read the given number of bytes from the current offset, then stand
    /// at the new offset.
    ReadFrom { offset: u64, len: u64 },
}

/// The start of the backlog window: zero configured hours means the whole
/// history, otherwise only entries newer than that many hours before now.
pub open spec fn spec_start_time(history_hours: u32, now: i64) -> i64 {
    if history_hours == 0 {
        0
    } else {
        (now - (history_hours as int) * 3600000) as i64
    }
}

/// Determine the start of the backlog window for replay.
pub fn determine_start_time(history_hours: u32, now: i64) -> (r: i64)
    ensures
        r == spec_start_time(history_hours, now),
{
    if history_hours == 0 {
        0
    } else {
        let span: i64 = (history_hours as i64) * 3600000;
        #[verifier::truncate]
        let r = ((now as i128 - span as i128) as i64);
        r
    }
}

/// Whether a replayed entry passes the backlog filter.
pub fn passes_backlog(entry_timestamp: i64, start_time: i64) -> (r: bool)
    ensures
        r == (entry_timestamp >= start_time),
{
    entry_timestamp >= start_time
}

/// The plan for a tail step, given the last read offset and the file's
/// new size.
pub open spec fn spec_tail_action(offset: u64, new_size: u64) -> TailAction {
    if new_size < offset {
        // the file was rotated or truncated: start over
        if new_size > 0 {
            TailAction::ReadFrom { offset: 0, len: new_size }
        } else {
            TailAction::NoChange
        }
    } else if new_size > offset {
        TailAction::ReadFrom { offset, len: (new_size - offset) as u64 }
    } else {
        TailAction::NoChange
    }
}

/// Decide the tail step: a smaller file was rotated or truncated and is
/// re-read from its start; a larger one is read from the old offset; an
/// unchanged one is left alone.  Either way the caller's next offset is
/// the new size.
pub fn tail_action(offset: u64, new_size: u64) -> (r: TailAction)
    ensures
        r == spec_tail_action(offset, new_size),
{
    if new_size < offset {
        if new_size > 0 {
            TailAction::ReadFrom { offset: 0, len: new_size }
        } else {
            TailAction::NoChange
        }
    } else if new_size > offset {
        TailAction::ReadFrom { offset, len: new_size - offset }
    } else {
        TailAction::NoChange
    }
}

/// Whether a notification about `changed` concerns the watched path.
pub fn is_relevant_path(changed: &String, watched: &String) -> (r: bool)
    ensures
        r == (changed@ == watched@),
{
    crate::text::str_eq(changed.as_str(), watched.as_str())
}

/// The well-known honeypot log locations that are probed when automatic
/// detection is on.
pub open spec fn spec_well_known_paths() -> Seq<Seq<char>> {
    seq![
        "/var/log/cowrie/cowrie.json"@,
        "/opt/cowrie/var/log/cowrie/cowrie.json"@,
        "/home/cowrie/cowrie/var/log/cowrie/cowrie.json"@,
        "/usr/local/cowrie/var/log/cowrie/cowrie.json"@,
    ]
}

/// The log paths to try, in order: the configured ones, and — when none
/// are configured or automatic detection is on — the well-known locations,
/// which the caller still has to probe for existence.
pub open spec fn spec_log_path_candidates(c: &Config) -> Seq<Seq<char>> {
    let configured = match c.honeypot.log_paths {
        Some(ps) => ps@.map_values(|p: String| p@),
        None => Seq::<Seq<char>>::empty(),
    };
    if configured.len() == 0 || c.honeypot.auto_detect {
        configured + spec_well_known_paths()
    } else {
        configured
    }
}

/// List the log paths to try, configured ones first.
pub fn log_path_candidates(config: &Config) -> (r: Vec<String>)
    ensures
        r@.map_values(|p: String| p@) == spec_log_path_candidates(config),
{
    let mut out: Vec<String> = Vec::new();
    match &config.honeypot.log_paths {
        Some(ps) => {
            let n = ps.len();
            let mut i: usize = 0;
            while i < n
                invariant
                    i <= n,
                    n == ps@.len(),
                    out@.len() == i,
                    forall|k: int| 0 <= k < i ==> out@[k]@ == ps@[k]@,
                decreases n - i,
            {
                out.push(ps[i].clone());
                i = i + 1;
            }
        },
        None => (),
    }
    let ghost configured = out@.map_values(|p: String| p@);
    proof {
        assert(configured =~= (match config.honeypot.log_paths {
            Some(ps) => ps@.map_values(|p: String| p@),
            None => Seq::<Seq<char>>::empty(),
        }));
    }
    if out.len() == 0 || config.honeypot.auto_detect {
        out.push(String::from_str("/var/log/cowrie/cowrie.json"));
        out.push(String::from_str("/opt/cowrie/var/log/cowrie/cowrie.json"));
        out.push(String::from_str("/home/cowrie/cowrie/var/log/cowrie/cowrie.json"));
        out.push(String::from_str("/usr/local/cowrie/var/log/cowrie/cowrie.json"));
        proof {
            assert(out@.map_values(|p: String| p@) =~= configured + spec_well_known_paths());
        }
    }
    out
}

} // verus!
