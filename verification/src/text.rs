//! Character-level text utilities: conversion between `&str`, `Vec<char>`
//! and `String`, equality and containment over character sequences, ASCII
//! case folding, and decimal rendering and parsing of integers.

use vstd::prelude::*;

verus! {

/// Relies on `String::push`: appends exactly the given character.
#[verifier::external_body]
pub fn push_char(s: &mut String, c: char)
    ensures
        final(s)@ == old(s)@.push(c),
{
    s.push(c)
}

/// The characters of `s`, in order, as a vector.
pub fn str_to_chars(s: &str) -> (v: Vec<char>)
    ensures
        v@ == s@,
{
    let n = s.unicode_len();
    let mut v: Vec<char> = Vec::new();
    let mut i: usize = 0;
    while i < n
        invariant
            i <= n,
            n == s@.len(),
            v@ == s@.subrange(0, i as int),
        decreases n - i,
    {
        let c = s.get_char(i);
        v.push(c);
        i = i + 1;
        proof {
            assert(v@ =~= s@.subrange(0, i as int));
        }
    }
    proof {
        assert(s@.subrange(0, n as int) =~= s@);
    }
    v
}

/// A `String` holding exactly the characters of `v`.
pub fn chars_to_string(v: &Vec<char>) -> (s: String)
    ensures
        s@ == v@,
{
    let mut s = String::new();
    let mut i: usize = 0;
    while i < v.len()
        invariant
            i <= v@.len(),
            s@ == v@.subrange(0, i as int),
        decreases v@.len() - i,
    {
        push_char(&mut s, v[i]);
        i = i + 1;
        proof {
            assert(s@ =~= v@.subrange(0, i as int));
        }
    }
    proof {
        assert(v@.subrange(0, v@.len() as int) =~= v@);
    }
    s
}

/// Character-wise equality of two string slices.
pub fn str_eq(a: &str, b: &str) -> (r: bool)
    ensures
        r == (a@ == b@),
{
    let na = a.unicode_len();
    let nb = b.unicode_len();
    if na != nb {
        return false;
    }
    let mut i: usize = 0;
    while i < na
        invariant
            i <= na,
            na == a@.len(),
            na == b@.len(),
            forall|j: int| 0 <= j < i ==> a@[j] == b@[j],
        decreases na - i,
    {
        if a.get_char(i) != b.get_char(i) {
            return false;
        }
        i = i + 1;
    }
    proof {
        assert(a@ =~= b@);
    }
    true
}

/// ASCII lower-casing of one character; everything outside `A`..`Z` is kept.
pub open spec fn lower_char(c: char) -> char {
    if 'A' <= c && c <= 'Z' {
        ((c as u32) + 32) as char
    } else {
        c
    }
}

/// ASCII lower-casing of a character sequence.
pub open spec fn lower_seq(s: Seq<char>) -> Seq<char> {
    s.map_values(|c: char| lower_char(c))
}

/// Lower-case `s` character by character, folding only the ASCII range.
pub fn to_ascii_lower(s: &String) -> (r: String)
    ensures
        r@ == lower_seq(s@),
{
    let slice = s.as_str();
    let n = slice.unicode_len();
    let mut out = String::new();
    let mut i: usize = 0;
    while i < n
        invariant
            i <= n,
            n == slice@.len(),
            slice@ == s@,
            out@ == lower_seq(s@).subrange(0, i as int),
        decreases n - i,
    {
        let c = slice.get_char(i);
        let lc: char = if 'A' <= c && c <= 'Z' {
            proof {
                assert('A' as u32 <= c as u32 <= 'Z' as u32);
            }
            (((c as u32) + 32) as u8) as char
        } else {
            c
        };
        assert(lc == lower_char(s@[i as int]));
        push_char(&mut out, lc);
        i = i + 1;
        proof {
            assert(out@ =~= lower_seq(s@).subrange(0, i as int));
        }
    }
    proof {
        assert(lower_seq(s@).subrange(0, n as int) =~= lower_seq(s@));
    }
    out
}

/// `needle` occurs contiguously in `hay` starting at index `i`.
pub open spec fn occurs_at(hay: Seq<char>, needle: Seq<char>, i: int) -> bool {
    0 <= i && i + needle.len() <= hay.len() && hay.subrange(i, i + needle.len() as int)
        == needle
}

/// `needle` occurs contiguously somewhere in `hay`.
pub open spec fn contains_seq(hay: Seq<char>, needle: Seq<char>) -> bool {
    exists|i: int| occurs_at(hay, needle, i)
}

/// Whether `needle` occurs at position `i` of `hay`, by direct comparison.
pub fn matches_at(hay: &Vec<char>, needle: &str, i: usize) -> (r: bool)
    requires
        i + needle@.len() <= hay@.len(),
    ensures
        r == occurs_at(hay@, needle@, i as int),
{
    let hn = hay.len();
    let m = needle.unicode_len();
    let mut j: usize = 0;
    while j < m
        invariant
            j <= m,
            m == needle@.len(),
            i + m <= hay@.len(),
            hn == hay@.len(),
            forall|k: int| 0 <= k < j ==> hay@[i + k] == needle@[k],
        decreases m - j,
    {
        if hay[i + j] != needle.get_char(j) {
            proof {
                assert(hay@.subrange(i as int, i + needle@.len() as int)[j as int]
                    != needle@[j as int]);
            }
            return false;
        }
        j = j + 1;
    }
    proof {
        assert(hay@.subrange(i as int, i + needle@.len() as int) =~= needle@);
    }
    true
}

/// Substring search: does `needle` occur anywhere in `hay`?
pub fn contains_chars(hay: &Vec<char>, needle: &str) -> (r: bool)
    ensures
        r == contains_seq(hay@, needle@),
{
    let m = needle.unicode_len();
    if m > hay.len() {
        proof {
            assert(forall|i: int| !occurs_at(hay@, needle@, i));
        }
        return false;
    }
    let mut i: usize = 0;
    let last = hay.len() - m;
    loop
        invariant
            i <= last,
            last == hay@.len() - needle@.len(),
            m == needle@.len(),
            m <= hay@.len(),
            forall|k: int| 0 <= k < i ==> !occurs_at(hay@, needle@, k),
        ensures
            forall|k: int| 0 <= k <= last ==> !occurs_at(hay@, needle@, k),
        decreases last - i,
    {
        if matches_at(hay, needle, i) {
            return true;
        }
        if i == last {
            break;
        }
        i = i + 1;
    }
    proof {
        assert(forall|k: int| occurs_at(hay@, needle@, k) ==> 0 <= k <= last);
    }
    false
}

/// Substring search over a `String`.
pub fn string_contains(hay: &String, needle: &str) -> (r: bool)
    ensures
        r == contains_seq(hay@, needle@),
{
    let chars = str_to_chars(hay.as_str());
    contains_chars(&chars, needle)
}

/// The decimal digit character for a value below ten.
pub open spec fn digit_char(d: int) -> char {
    ((48 + d) as u32) as char
}

/// The decimal representation of a natural number, most significant digit
/// first, with no leading zeros (zero itself is rendered as one digit).
pub open spec fn dec_rep(n: nat) -> Seq<char>
    decreases n,
{
    if n < 10 {
        seq![digit_char(n as int)]
    } else {
        dec_rep(n / 10).push(digit_char((n % 10) as int))
    }
}

/// Render `n` in decimal.
pub fn u64_to_string(n: u64) -> (s: String)
    ensures
        s@ == dec_rep(n as nat),
{
    let mut rev_digits: Vec<char> = Vec::new();
    let mut cur: u64 = n;
    loop
        invariant
            rev_digits@.len() == 0 ==> cur == n,
            rev_digits@.len() > 0 && cur > 0 ==> dec_rep(n as nat) == dec_rep(cur as nat)
                + rev_digits@.reverse(),
            rev_digits@.len() > 0 && cur == 0 ==> dec_rep(n as nat) == rev_digits@.reverse(),
        ensures
            dec_rep(n as nat) == rev_digits@.reverse(),
        decreases cur, (if rev_digits@.len() == 0 { 1int } else { 0int }),
    {
        if cur == 0 && rev_digits.len() > 0 {
            break;
        }
        let ghost old_cur = cur;
        let ghost old_rev = rev_digits@;
        let d: u8 = (cur % 10) as u8;
        let c: char = (48 + d) as char;
        proof {
            assert(c == digit_char((cur % 10) as int));
        }
        rev_digits.push(c);
        cur = cur / 10;
        proof {
            assert(dec_rep(old_cur as nat) == if old_cur < 10 {
                seq![digit_char((old_cur % 10) as int)]
            } else {
                dec_rep((old_cur / 10) as nat).push(digit_char((old_cur % 10) as int))
            });
            if cur > 0 {
                assert(dec_rep(old_cur as nat) + old_rev.reverse() =~= dec_rep(cur as nat)
                    + rev_digits@.reverse());
            } else {
                assert(dec_rep(old_cur as nat) + old_rev.reverse() =~= rev_digits@.reverse());
            }
        }
    }
    let mut out: Vec<char> = Vec::new();
    let total = rev_digits.len();
    let mut i: usize = 0;
    while i < total
        invariant
            i <= total,
            total == rev_digits@.len(),
            out@.len() == i,
            forall|k: int| 0 <= k < i ==> out@[k] == rev_digits@[total - 1 - k],
        decreases total - i,
    {
        out.push(rev_digits[total - 1 - i]);
        i = i + 1;
    }
    proof {
        assert(out@ =~= rev_digits@.reverse());
    }
    chars_to_string(&out)
}

/// The numeric value of a sequence of decimal digit characters.
pub open spec fn dec_value(s: Seq<char>) -> int
    decreases s.len(),
{
    if s.len() == 0 {
        0
    } else {
        dec_value(s.drop_last()) * 10 + (s.last() as int - 48)
    }
}

/// Every character of `s` is a decimal digit.
pub open spec fn all_digits(s: Seq<char>) -> bool {
    forall|i: int| 0 <= i < s.len() ==> '0' <= #[trigger] s[i] && s[i] <= '9'
}

/// A digit string has a non-negative value.
pub proof fn lemma_dec_value_nonneg(s: Seq<char>)
    requires
        all_digits(s),
    ensures
        dec_value(s) >= 0,
    decreases s.len(),
{
    if s.len() > 0 {
        assert(all_digits(s.drop_last())) by {
            assert(forall|i: int| 0 <= i < s.len() - 1 ==> s.drop_last()[i] == s[i]);
        }
        lemma_dec_value_nonneg(s.drop_last());
    }
}

/// Extending a digit string never lowers its value.
pub proof fn lemma_dec_value_prefix(s: Seq<char>, k: int)
    requires
        all_digits(s),
        0 <= k <= s.len(),
    ensures
        dec_value(s.take(k)) <= dec_value(s),
    decreases s.len() - k,
{
    if k < s.len() {
        assert(all_digits(s.take(k))) by {
            assert(forall|i: int| 0 <= i < k ==> s.take(k)[i] == s[i]);
        }
        lemma_dec_value_nonneg(s.take(k));
        assert(s.take(k + 1).drop_last() =~= s.take(k));
        assert(dec_value(s.take(k + 1)) == dec_value(s.take(k)) * 10 + (s[k] as int - 48));
        lemma_dec_value_prefix(s, k + 1);
    } else {
        assert(s.take(k) =~= s);
    }
}

/// Parse the digits of `v` from `from` to the end as a `u64`: the value, if
/// every remaining character is a digit and the value fits.
pub fn chars_to_u64(v: &Vec<char>, from: usize) -> (r: Option<u64>)
    requires
        from <= v@.len(),
    ensures
        r matches Some(n) ==> {
            let tail = v@.skip(from as int);
            tail.len() > 0 && all_digits(tail) && dec_value(tail) == n
        },
        r is None ==> {
            let tail = v@.skip(from as int);
            !(tail.len() > 0 && all_digits(tail) && dec_value(tail) <= u64::MAX)
        },
{
    let ghost tail = v@.skip(from as int);
    if from == v.len() {
        return None;
    }
    let mut acc: u64 = 0;
    let mut k = from;
    while k < v.len()
        invariant
            from <= k <= v@.len(),
            tail == v@.skip(from as int),
            all_digits(tail.take(k - from)),
            acc == dec_value(tail.take(k - from)),
        decreases v@.len() - k,
    {
        let c = v[k];
        if !('0' <= c && c <= '9') {
            proof {
                assert(tail[k - from] == c);
                assert(!all_digits(tail));
            }
            return None;
        }
        let d: u64 = ((c as u32) - 48) as u64;
        proof {
            assert(tail.take(k + 1 - from).drop_last() =~= tail.take(k - from));
            assert(tail.take(k + 1 - from).last() == c);
        }
        let next = match acc.checked_mul(10) {
            Some(m) => m.checked_add(d),
            None => None,
        };
        match next {
            Some(n2) => {
                acc = n2;
            },
            None => {
                proof {
                    assert(dec_value(tail.take(k + 1 - from)) > u64::MAX);
                    assert(all_digits(tail.take(k + 1 - from))) by {
                        assert(forall|i: int|
                            0 <= i < k + 1 - from ==> tail.take(k + 1 - from)[i] == tail[i]);
                    }
                    if all_digits(tail) {
                        lemma_dec_value_prefix(tail, k + 1 - from);
                    }
                }
                return None;
            },
        }
        k = k + 1;
    }
    proof {
        assert(tail.take(v@.len() - from) =~= tail);
    }
    Some(acc)
}

/// The value of a decimal digit string, if that is what `s` holds and the
/// value fits a `u64`.
pub open spec fn spec_digits_u64(s: Seq<char>) -> Option<u64> {
    if s.len() > 0 && all_digits(s) && dec_value(s) <= u64::MAX {
        Some(dec_value(s) as u64)
    } else {
        None
    }
}

/// The value of a decimal string with an optional leading `+`, as `u64`.
pub open spec fn spec_plus_digits_u64(s: Seq<char>) -> Option<u64> {
    if s.len() > 0 && s[0] == '+' {
        spec_digits_u64(s.skip(1))
    } else {
        spec_digits_u64(s)
    }
}

/// Parse a string of decimal digits as a `u64`.
pub fn string_as_u64(s: &String) -> (r: Option<u64>)
    ensures
        r == spec_digits_u64(s@),
{
    let chars = str_to_chars(s.as_str());
    proof {
        assert(chars@.skip(0) =~= s@);
    }
    chars_to_u64(&chars, 0)
}

/// Parse a string as Rust's `u64` parser would: optional `+`, then digits.
pub fn string_parse_u64(s: &String) -> (r: Option<u64>)
    ensures
        r == spec_plus_digits_u64(s@),
{
    let chars = str_to_chars(s.as_str());
    if chars.len() > 0 && chars[0] == '+' {
        proof {
            assert(chars@.skip(1) =~= s@.skip(1));
        }
        chars_to_u64(&chars, 1)
    } else {
        proof {
            assert(chars@.skip(0) =~= s@);
        }
        chars_to_u64(&chars, 0)
    }
}

} // verus!
