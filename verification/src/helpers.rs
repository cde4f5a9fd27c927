//! Small formatting helpers shared by the presentation layer.

use vstd::prelude::*;

use crate::text::{dec_rep, u64_to_string};

verus! {

/// Bytes per kibibyte.
pub const BYTES_KB: u64 = 1024;

/// Bytes per mebibyte.
pub const BYTES_MB: u64 = 1048576;

/// Bytes per gibibyte.
pub const BYTES_GB: u64 = 1073741824;

/// The quantity scaled by a unit, in hundredths, rounded half up.
pub open spec fn scaled_hundredths(bytes: u64, unit: u64) -> int {
    (bytes * 100 + (unit as int) / 2) / (unit as int)
}

/// The text of a two-decimal quantity: the whole part, a point, and the
/// zero-padded fraction.
pub open spec fn two_decimals(h: int) -> Seq<char> {
    dec_rep((h / 100) as nat) + "."@ + (if h % 100 < 10 {
        "0"@
    } else {
        Seq::empty()
    }) + dec_rep((h % 100) as nat)
}

/// What `format_bytes` renders: the size scaled to the largest unit it
/// reaches, with two decimals, or plain bytes below one kibibyte.
pub open spec fn spec_format_bytes(bytes: u64) -> Seq<char> {
    if bytes >= BYTES_GB {
        two_decimals(scaled_hundredths(bytes, BYTES_GB)) + " GB"@
    } else if bytes >= BYTES_MB {
        two_decimals(scaled_hundredths(bytes, BYTES_MB)) + " MB"@
    } else if bytes >= BYTES_KB {
        two_decimals(scaled_hundredths(bytes, BYTES_KB)) + " KB"@
    } else {
        dec_rep(bytes as nat) + " bytes"@
    }
}

/// Render a two-decimal scaled quantity.
fn format_two_decimals(bytes: u64, unit: u64) -> (r: String)
    requires
        unit == 1024 || unit == 1048576 || unit == 1073741824,
    ensures
        r@ == two_decimals(scaled_hundredths(bytes, unit)),
{
    let numer: u128 = (bytes as u128) * 100 + (unit as u128) / 2;
    let q: u128 = numer / (unit as u128);
    proof {
        assert(numer < (unit as u128) * 0x10000000000000000) by (nonlinear_arith)
            requires
                numer <= (0xffffffffffffffffu128) * 100 + (unit as u128) / 2,
                1024 <= unit <= 1073741824,
        ;
        assert(q < 0x10000000000000000) by (nonlinear_arith)
            requires
                numer < (unit as u128) * 0x10000000000000000,
                q == numer / (unit as u128),
                unit >= 1024,
        ;
    }
    let h: u64 = q as u64;
    proof {
        assert(h == scaled_hundredths(bytes, unit));
    }
    let mut out = u64_to_string(h / 100);
    out.append(".");
    if h % 100 < 10 {
        out.append("0");
    }
    let frac = u64_to_string(h % 100);
    out.append(frac.as_str());
    proof {
        assert(out@ =~= two_decimals(scaled_hundredths(bytes, unit)));
    }
    out
}

/// Format bytes to a human-readable size with binary units.
pub fn format_bytes(bytes: u64) -> (r: String)
    ensures
        r@ == spec_format_bytes(bytes),
{
    if bytes >= BYTES_GB {
        let mut out = format_two_decimals(bytes, BYTES_GB);
        out.append(" GB");
        out
    } else if bytes >= BYTES_MB {
        let mut out = format_two_decimals(bytes, BYTES_MB);
        out.append(" MB");
        out
    } else if bytes >= BYTES_KB {
        let mut out = format_two_decimals(bytes, BYTES_KB);
        out.append(" KB");
        out
    } else {
        let mut out = u64_to_string(bytes);
        out.append(" bytes");
        out
    }
}

/// What `format_duration` renders: days, hours, minutes and seconds, the
/// larger units only once they are reached.
pub open spec fn spec_format_duration(seconds: u64) -> Seq<char> {
    let d = seconds / 86400;
    let h = (seconds % 86400) / 3600;
    let m = (seconds % 3600) / 60;
    let s = seconds % 60;
    if d > 0 {
        dec_rep(d as nat) + "d "@ + dec_rep(h as nat) + "h "@ + dec_rep(m as nat) + "m "@
            + dec_rep(s as nat) + "s"@
    } else if h > 0 {
        dec_rep(h as nat) + "h "@ + dec_rep(m as nat) + "m "@ + dec_rep(s as nat) + "s"@
    } else if m > 0 {
        dec_rep(m as nat) + "m "@ + dec_rep(s as nat) + "s"@
    } else {
        dec_rep(s as nat) + "s"@
    }
}

/// Format a duration in seconds to a human-readable string.
pub fn format_duration(seconds: u64) -> (r: String)
    ensures
        r@ == spec_format_duration(seconds),
{
    let days = seconds / 86400;
    let hours = (seconds % 86400) / 3600;
    let minutes = (seconds % 3600) / 60;
    let secs = seconds % 60;
    if days > 0 {
        let mut out = u64_to_string(days);
        out.append("d ");
        let hs = u64_to_string(hours);
        out.append(hs.as_str());
        out.append("h ");
        let ms = u64_to_string(minutes);
        out.append(ms.as_str());
        out.append("m ");
        let ss = u64_to_string(secs);
        out.append(ss.as_str());
        out.append("s");
        proof {
            assert(out@ =~= spec_format_duration(seconds));
        }
        out
    } else if hours > 0 {
        let mut out = u64_to_string(hours);
        out.append("h ");
        let ms = u64_to_string(minutes);
        out.append(ms.as_str());
        out.append("m ");
        let ss = u64_to_string(secs);
        out.append(ss.as_str());
        out.append("s");
        proof {
            assert(out@ =~= spec_format_duration(seconds));
        }
        out
    } else if minutes > 0 {
        let mut out = u64_to_string(minutes);
        out.append("m ");
        let ss = u64_to_string(secs);
        out.append(ss.as_str());
        out.append("s");
        proof {
            assert(out@ =~= spec_format_duration(seconds));
        }
        out
    } else {
        let mut out = u64_to_string(secs);
        out.append("s");
        proof {
            assert(out@ =~= spec_format_duration(seconds));
        }
        out
    }
}

/// The activity labels one session shows — a successful login, file
/// transfers, and how much command activity — joined with commas, or the
/// fixed fallback when it shows none.
pub open spec fn spec_risk_activities(s: crate::models::SessionV) -> Seq<char> {
    let parts = (if s.user matches Some(u) && u.login_success {
        seq!["Login"@]
    } else {
        Seq::<Seq<char>>::empty()
    }) + (if s.files.len() > 0 {
        seq!["Files"@]
    } else {
        Seq::<Seq<char>>::empty()
    }) + (if s.commands.len() > 10 {
        seq!["Many cmds"@]
    } else if s.commands.len() > 0 {
        seq!["Commands"@]
    } else {
        Seq::<Seq<char>>::empty()
    });
    if parts.len() == 0 {
        "None"@
    } else {
        crate::alert_engine::join_comma(parts)
    }
}

/// Summarize a session's risk-relevant activities as a short label list.
pub fn risk_activities(session: &crate::models::Session) -> (r: String)
    ensures
        r@ == spec_risk_activities(session@),
{
    let mut parts: Vec<String> = Vec::new();
    let login = match &session.user {
        Some(u) => u.login_success,
        None => false,
    };
    if login {
        parts.push(String::from_str("Login"));
    }
    if session.files.len() > 0 {
        parts.push(String::from_str("Files"));
    }
    if session.commands.len() > 10 {
        parts.push(String::from_str("Many cmds"));
    } else if session.commands.len() > 0 {
        parts.push(String::from_str("Commands"));
    }
    let ghost expected = (if session@.user matches Some(u) && u.login_success {
        seq!["Login"@]
    } else {
        Seq::<Seq<char>>::empty()
    }) + (if session@.files.len() > 0 {
        seq!["Files"@]
    } else {
        Seq::<Seq<char>>::empty()
    }) + (if session@.commands.len() > 10 {
        seq!["Many cmds"@]
    } else if session@.commands.len() > 0 {
        seq!["Commands"@]
    } else {
        Seq::<Seq<char>>::empty()
    });
    proof {
        assert(parts@.map_values(|p: String| p@) =~= expected);
    }
    if parts.len() == 0 {
        String::from_str("None")
    } else {
        let mut out = parts[0].clone();
        let n = parts.len();
        let mut i: usize = 1;
        while i < n
            invariant
                1 <= i <= n,
                n == parts@.len(),
                out@ == crate::alert_engine::join_comma(
                    parts@.map_values(|p: String| p@).take(i as int),
                ),
            decreases n - i,
        {
            let ghost m = parts@.map_values(|p: String| p@);
            proof {
                assert(m.take(i as int + 1).drop_last() =~= m.take(i as int));
                assert(m.take(i as int + 1).last() == m[i as int]);
            }
            out.append(", ");
            out.append(parts[i].as_str());
            i = i + 1;
        }
        proof {
            assert(parts@.map_values(|p: String| p@).take(n as int) =~= parts@.map_values(
                |p: String| p@,
            ));
        }
        out
    }
}

/// Integer percentage of `part` out of `total`, zero when `total` is zero.
pub fn percentage(part: usize, total: usize) -> (r: usize)
    requires
        part * 100 <= usize::MAX,
    ensures
        total == 0 ==> r == 0,
        total != 0 ==> r == (part as int * 100) / total as int,
{
    if total == 0 {
        0
    } else {
        (part * 100) / total
    }
}

} // verus!
