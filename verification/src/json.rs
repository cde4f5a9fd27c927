//! JSON values and a verified parser for one-line JSON texts.
//!
//! The honeypot's wire format is one JSON object per line.  The grammar is
//! defined here as a family of specification-level parsing functions over
//! character sequences; the executable parser is proved to return exactly
//! what those functions describe.  Numbers are kept as their literal text,
//! so no information is lost and no floating point is involved.

use vstd::prelude::*;

use crate::text::{occurs_at, push_char};

verus! {

/// Mathematical model of a JSON value.
pub enum JsonV {
    Null,
    Bool(bool),
    /// A number, as the literal text that appeared in the input.
    Num(Seq<char>),
    Str(Seq<char>),
    Arr(Seq<JsonV>),
    Obj(Seq<(Seq<char>, JsonV)>),
}

/// A JSON value as parsed from one log line.
#[derive(Debug)]
pub enum JsonValue {
    Null,
    Bool(bool),
    /// A number, kept as its literal text.
    Num(String),
    Str(String),
    Arr(Vec<JsonValue>),
    Obj(Vec<(String, JsonValue)>),
}

/// The mathematical value of a parsed JSON tree.
pub open spec fn view_json(v: JsonValue) -> JsonV
    decreases v, 1int,
{
    match v {
        JsonValue::Null => JsonV::Null,
        JsonValue::Bool(b) => JsonV::Bool(b),
        JsonValue::Num(s) => JsonV::Num(s@),
        JsonValue::Str(s) => JsonV::Str(s@),
        JsonValue::Arr(items) => JsonV::Arr(view_arr(items@)),
        JsonValue::Obj(fields) => JsonV::Obj(view_obj(fields@)),
    }
}

/// The mathematical values of a sequence of parsed JSON trees.
pub open spec fn view_arr(items: Seq<JsonValue>) -> Seq<JsonV>
    decreases items, 0int,
{
    if items.len() == 0 {
        Seq::empty()
    } else {
        seq![view_json(items[0])] + view_arr(items.drop_first())
    }
}

/// The mathematical values of a sequence of parsed JSON object members.
pub open spec fn view_obj(fields: Seq<(String, JsonValue)>) -> Seq<(Seq<char>, JsonV)>
    decreases fields, 0int,
{
    if fields.len() == 0 {
        Seq::empty()
    } else {
        seq![(fields[0].0@, view_json(fields[0].1))] + view_obj(fields.drop_first())
    }
}

/// `view_arr` maps the view of each element, position by position.
pub proof fn lemma_view_arr(items: Seq<JsonValue>)
    ensures
        view_arr(items).len() == items.len(),
        forall|i: int| 0 <= i < items.len() ==> view_arr(items)[i] == view_json(items[i]),
    decreases items.len(),
{
    if items.len() > 0 {
        lemma_view_arr(items.drop_first());
    }
}

/// `view_obj` maps each member to its key's and value's views, in order.
pub proof fn lemma_view_obj(fields: Seq<(String, JsonValue)>)
    ensures
        view_obj(fields).len() == fields.len(),
        forall|i: int|
            0 <= i < fields.len() ==> view_obj(fields)[i] == (
            fields[i].0@,
            view_json(fields[i].1),
            ),
    decreases fields.len(),
{
    if fields.len() > 0 {
        lemma_view_obj(fields.drop_first());
    }
}

impl View for JsonValue {
    type V = JsonV;

    open spec fn view(&self) -> JsonV {
        view_json(*self)
    }
}

/// JSON insignificant whitespace.
pub open spec fn is_json_ws(c: char) -> bool {
    c == ' ' || c == '\t' || c == '\n' || c == '\r'
}

/// A decimal digit.
pub open spec fn is_digit(c: char) -> bool {
    '0' <= c && c <= '9'
}

/// The index of the first non-whitespace character at or after `i`.
pub open spec fn spec_skip_ws(s: Seq<char>, i: int) -> int
    decreases s.len() - i,
{
    if i < s.len() && is_json_ws(s[i]) {
        spec_skip_ws(s, i + 1)
    } else {
        i
    }
}

/// Whitespace skipping stays within the bounds it was given.
pub proof fn lemma_skip_ws(s: Seq<char>, i: int)
    ensures
        i <= spec_skip_ws(s, i),
        i <= s.len() ==> spec_skip_ws(s, i) <= s.len(),
    decreases s.len() - i,
{
    if i < s.len() && is_json_ws(s[i]) {
        lemma_skip_ws(s, i + 1);
    }
}

/// The index of the first non-digit character at or after `i`.
pub open spec fn spec_skip_digits(s: Seq<char>, i: int) -> int
    decreases s.len() - i,
{
    if i < s.len() && is_digit(s[i]) {
        spec_skip_digits(s, i + 1)
    } else {
        i
    }
}

/// Digit skipping stays within the bounds it was given.
pub proof fn lemma_skip_digits(s: Seq<char>, i: int)
    ensures
        i <= spec_skip_digits(s, i),
        i <= s.len() ==> spec_skip_digits(s, i) <= s.len(),
    decreases s.len() - i,
{
    if i < s.len() && is_digit(s[i]) {
        lemma_skip_digits(s, i + 1);
    }
}

/// The value of a hexadecimal digit, or -1 for any other character.
pub open spec fn hex_val(c: char) -> int {
    if '0' <= c && c <= '9' {
        c as int - 48
    } else if 'a' <= c && c <= 'f' {
        c as int - 87
    } else if 'A' <= c && c <= 'F' {
        c as int - 55
    } else {
        -1
    }
}

/// The character produced by a single-character escape, if it is one.
pub open spec fn escape_of(c: char) -> Option<char> {
    if c == '"' {
        Some('"')
    } else if c == '\\' {
        Some('\\')
    } else if c == '/' {
        Some('/')
    } else if c == 'b' {
        Some(8u8 as char)
    } else if c == 'f' {
        Some(12u8 as char)
    } else if c == 'n' {
        Some('\n')
    } else if c == 'r' {
        Some('\r')
    } else if c == 't' {
        Some('\t')
    } else {
        None
    }
}

/// Four hexadecimal digits starting at `i`, as a code unit; meaningful only
/// when `spec_four_hex(s, i)` holds.
pub open spec fn spec_hex4_val(s: Seq<char>, i: int) -> int {
    hex_val(s[i]) * 0x1000 + hex_val(s[i + 1]) * 0x100 + hex_val(s[i + 2]) * 0x10 + hex_val(
        s[i + 3],
    )
}

/// There are four hexadecimal digits starting at `i`.
pub open spec fn spec_four_hex(s: Seq<char>, i: int) -> bool {
    &&& i + 4 <= s.len()
    &&& hex_val(s[i]) >= 0
    &&& hex_val(s[i + 1]) >= 0
    &&& hex_val(s[i + 2]) >= 0
    &&& hex_val(s[i + 3]) >= 0
}

/// One escape sequence starting at `i`, where `s[i]` is the backslash: the
/// character it denotes and the index just past the escape.
pub open spec fn spec_escape_at(s: Seq<char>, i: int) -> Option<(char, int)> {
    if i + 1 >= s.len() {
        None
    } else if s[i + 1] == 'u' {
        if spec_four_hex(s, i + 2) {
            let code = spec_hex4_val(s, i + 2);
            if 0xD800 <= code < 0xDC00 {
                // a high surrogate must be followed by an escaped low one
                if i + 12 <= s.len() && s[i + 6] == '\\' && s[i + 7] == 'u' && spec_four_hex(
                    s,
                    i + 8,
                ) {
                    let lo = spec_hex4_val(s, i + 8);
                    if 0xDC00 <= lo < 0xE000 {
                        let scalar = 0x10000 + (code - 0xD800) * 0x400 + (lo - 0xDC00);
                        Some((scalar as char, i + 12))
                    } else {
                        None
                    }
                } else {
                    None
                }
            } else if 0xDC00 <= code < 0xE000 {
                // a lone low surrogate is malformed
                None
            } else {
                Some((code as char, i + 6))
            }
        } else {
            None
        }
    } else {
        match escape_of(s[i + 1]) {
            Some(c) => Some((c, i + 2)),
            None => None,
        }
    }
}

/// The remainder of a JSON string literal starting at `i` (just after the
/// opening quote or after the characters already accumulated in `acc`):
/// the accumulated characters and the index just past the closing quote.
pub open spec fn spec_parse_string(s: Seq<char>, i: int, acc: Seq<char>) -> Option<
    (Seq<char>, int),
>
    decreases s.len() - i,
{
    if i < 0 || i >= s.len() {
        None
    } else if s[i] == '"' {
        Some((acc, i + 1))
    } else if s[i] == '\\' {
        match spec_escape_at(s, i) {
            None => None,
            Some((c, j)) => if j <= i || j > s.len() {
                None
            } else {
                spec_parse_string(s, j, acc.push(c))
            },
        }
    } else if (s[i] as u32) < 0x20 {
        // unescaped control characters are malformed
        None
    } else {
        spec_parse_string(s, i + 1, acc.push(s[i]))
    }
}

/// A parsed string ends past where it started and within the input.
pub proof fn lemma_parse_string(s: Seq<char>, i: int, acc: Seq<char>)
    ensures
        spec_parse_string(s, i, acc) matches Some(r) ==> i < r.1 <= s.len(),
    decreases s.len() - i,
{
    if 0 <= i < s.len() {
        if s[i] == '\\' {
            if spec_escape_at(s, i) is Some {
                let (c, j) = spec_escape_at(s, i)->0;
                if i < j <= s.len() {
                    lemma_parse_string(s, j, acc.push(c));
                }
            }
        } else if s[i] != '"' && (s[i] as u32) >= 0x20 {
            lemma_parse_string(s, i + 1, acc.push(s[i]));
        }
    }
}

/// The end of the integer part of a number starting at `i` (after any sign):
/// either a single zero or a nonzero digit followed by more digits.
pub open spec fn spec_int_end(s: Seq<char>, i: int) -> Option<int> {
    if 0 <= i < s.len() && is_digit(s[i]) {
        if s[i] == '0' {
            Some(i + 1)
        } else {
            Some(spec_skip_digits(s, i))
        }
    } else {
        None
    }
}

/// The end of the optional fraction part starting at `i`.
pub open spec fn spec_frac_end(s: Seq<char>, i: int) -> Option<int> {
    if 0 <= i < s.len() && s[i] == '.' {
        if spec_skip_digits(s, i + 1) > i + 1 {
            Some(spec_skip_digits(s, i + 1))
        } else {
            None
        }
    } else {
        Some(i)
    }
}

/// The end of the optional exponent part starting at `i`.
pub open spec fn spec_exp_end(s: Seq<char>, i: int) -> Option<int> {
    if 0 <= i < s.len() && (s[i] == 'e' || s[i] == 'E') {
        let k = if i + 1 < s.len() && (s[i + 1] == '+' || s[i + 1] == '-') {
            i + 2
        } else {
            i + 1
        };
        if spec_skip_digits(s, k) > k {
            Some(spec_skip_digits(s, k))
        } else {
            None
        }
    } else {
        Some(i)
    }
}

/// A JSON number starting at `i`: its literal text and the index past it.
pub open spec fn spec_parse_number(s: Seq<char>, i: int) -> Option<(JsonV, int)> {
    if i < 0 {
        None
    } else {
        let i0 = if i < s.len() && s[i] == '-' {
            i + 1
        } else {
            i
        };
        match spec_int_end(s, i0) {
            None => None,
            Some(i1) => match spec_frac_end(s, i1) {
                None => None,
                Some(i2) => match spec_exp_end(s, i2) {
                    None => None,
                    Some(i3) => Some((JsonV::Num(s.subrange(i, i3)), i3)),
                },
            },
        }
    }
}

/// A JSON value starting at exactly position `i` (no leading whitespace),
/// and the index just past it.
pub open spec fn spec_parse_value(s: Seq<char>, i: int) -> Option<(JsonV, int)>
    decreases s.len() - i, 0int,
{
    if i < 0 || i >= s.len() {
        None
    } else if s[i] == 'n' {
        if occurs_at(s, "null"@, i) {
            Some((JsonV::Null, i + 4))
        } else {
            None
        }
    } else if s[i] == 't' {
        if occurs_at(s, "true"@, i) {
            Some((JsonV::Bool(true), i + 4))
        } else {
            None
        }
    } else if s[i] == 'f' {
        if occurs_at(s, "false"@, i) {
            Some((JsonV::Bool(false), i + 5))
        } else {
            None
        }
    } else if s[i] == '"' {
        match spec_parse_string(s, i + 1, Seq::empty()) {
            Some((t, j)) => Some((JsonV::Str(t), j)),
            None => None,
        }
    } else if s[i] == '[' {
        spec_parse_array(s, i + 1)
    } else if s[i] == '{' {
        spec_parse_object(s, i + 1)
    } else if s[i] == '-' || is_digit(s[i]) {
        spec_parse_number(s, i)
    } else {
        None
    }
}

/// The body of an array, starting just after `[`.
pub open spec fn spec_parse_array(s: Seq<char>, i: int) -> Option<(JsonV, int)>
    decreases s.len() - i, 2int,
{
    if i < 0 || i > s.len() {
        None
    } else {
        let j = spec_skip_ws(s, i);
        proof {
            lemma_skip_ws(s, i);
        }
        if j < s.len() && s[j] == ']' {
            Some((JsonV::Arr(Seq::empty()), j + 1))
        } else {
            match spec_parse_array_items(s, i) {
                Some((items, e)) => Some((JsonV::Arr(items), e)),
                None => None,
            }
        }
    }
}

/// One or more comma-separated array elements starting at `i`, up to and
/// including the closing `]`.
pub open spec fn spec_parse_array_items(s: Seq<char>, i: int) -> Option<(Seq<JsonV>, int)>
    decreases s.len() - i, 1int,
{
    if i < 0 || i > s.len() {
        None
    } else {
        let j = spec_skip_ws(s, i);
        proof {
            lemma_skip_ws(s, i);
        }
        match spec_parse_value(s, j) {
            None => None,
            Some((v, k)) => if k <= j || k > s.len() {
                None
            } else {
                let m = spec_skip_ws(s, k);
                proof {
                    lemma_skip_ws(s, k);
                }
                if m >= s.len() {
                    None
                } else if s[m] == ']' {
                    Some((seq![v], m + 1))
                } else if s[m] == ',' {
                    match spec_parse_array_items(s, m + 1) {
                        None => None,
                        Some((rest, e)) => Some((seq![v] + rest, e)),
                    }
                } else {
                    None
                }
            },
        }
    }
}

/// The body of an object, starting just after `{`.
pub open spec fn spec_parse_object(s: Seq<char>, i: int) -> Option<(JsonV, int)>
    decreases s.len() - i, 2int,
{
    if i < 0 || i > s.len() {
        None
    } else {
        let j = spec_skip_ws(s, i);
        proof {
            lemma_skip_ws(s, i);
        }
        if j < s.len() && s[j] == '}' {
            Some((JsonV::Obj(Seq::empty()), j + 1))
        } else {
            match spec_parse_object_items(s, i) {
                Some((fields, e)) => Some((JsonV::Obj(fields), e)),
                None => None,
            }
        }
    }
}

/// One or more comma-separated object members starting at `i`, up to and
/// including the closing `}`.
pub open spec fn spec_parse_object_items(s: Seq<char>, i: int) -> Option<
    (Seq<(Seq<char>, JsonV)>, int),
>
    decreases s.len() - i, 1int,
{
    if i < 0 || i > s.len() {
        None
    } else {
        let j = spec_skip_ws(s, i);
        proof {
            lemma_skip_ws(s, i);
        }
        if j >= s.len() || s[j] != '"' {
            None
        } else {
            match spec_parse_string(s, j + 1, Seq::empty()) {
                None => None,
                Some((key, k)) => if k <= j || k > s.len() {
                    None
                } else {
                    let m = spec_skip_ws(s, k);
                    proof {
                        lemma_skip_ws(s, k);
                    }
                    if m >= s.len() || s[m] != ':' {
                        None
                    } else {
                        match spec_parse_value(s, m + 1) {
                            None => None,
                            Some((v, e)) => if e <= m || e > s.len() {
                                None
                            } else {
                                let p = spec_skip_ws(s, e);
                                proof {
                                    lemma_skip_ws(s, e);
                                }
                                if p >= s.len() {
                                    None
                                } else if s[p] == '}' {
                                    Some((seq![(key, v)], p + 1))
                                } else if s[p] == ',' {
                                    match spec_parse_object_items(s, p + 1) {
                                        None => None,
                                        Some((rest, e2)) => Some((seq![(key, v)] + rest, e2)),
                                    }
                                } else {
                                    None
                                }
                            },
                        }
                    }
                },
            }
        }
    }
}

/// A complete JSON text: one value, possibly surrounded by whitespace,
/// spanning the whole input.
pub open spec fn spec_parse_json(s: Seq<char>) -> Option<JsonV> {
    let j = spec_skip_ws(s, 0);
    match spec_parse_value(s, j) {
        None => None,
        Some((v, k)) => if spec_skip_ws(s, k) == s.len() {
            Some(v)
        } else {
            None
        },
    }
}

/// Prepending one element commutes with taking views of a value sequence.
pub proof fn lemma_view_arr_cons(x: JsonValue, rest: Seq<JsonValue>)
    ensures
        view_arr(seq![x] + rest) == seq![view_json(x)] + view_arr(rest),
{
    let whole = seq![x] + rest;
    assert(whole.drop_first() =~= rest);
    assert(view_arr(whole) =~= seq![view_json(x)] + view_arr(rest));
}

/// Prepending one member commutes with taking views of a member sequence.
pub proof fn lemma_view_obj_cons(kv: (String, JsonValue), rest: Seq<(String, JsonValue)>)
    ensures
        view_obj(seq![kv] + rest) == seq![(kv.0@, view_json(kv.1))] + view_obj(rest),
{
    let whole = seq![kv] + rest;
    assert(whole.drop_first() =~= rest);
    assert(view_obj(whole) =~= seq![(kv.0@, view_json(kv.1))] + view_obj(rest));
}

/// Relies on `char::from_u32`: `Some` exactly for Unicode scalar values,
/// i.e. all code points outside the surrogate range, and then the returned
/// character has the given code.
#[verifier::external_body]
fn char_from_u32(u: u32) -> (r: Option<char>)
    ensures
        r is Some <==> (u < 0xD800 || (0xE000 <= u && u <= 0x10FFFF)),
        r matches Some(c) ==> c as u32 == u,
{
    char::from_u32(u)
}

/// The index of the first non-whitespace character at or after `i`.
pub fn skip_ws(v: &Vec<char>, i: usize) -> (j: usize)
    requires
        i <= v@.len(),
    ensures
        j == spec_skip_ws(v@, i as int),
        i <= j <= v@.len(),
{
    let mut k = i;
    while k < v.len() && (v[k] == ' ' || v[k] == '\t' || v[k] == '\n' || v[k] == '\r')
        invariant
            i <= k <= v@.len(),
            spec_skip_ws(v@, i as int) == spec_skip_ws(v@, k as int),
        decreases v@.len() - k,
    {
        k = k + 1;
    }
    k
}

/// The index of the first non-digit character at or after `i`.
pub fn skip_digits(v: &Vec<char>, i: usize) -> (j: usize)
    requires
        i <= v@.len(),
    ensures
        j == spec_skip_digits(v@, i as int),
        i <= j <= v@.len(),
{
    let mut k = i;
    while k < v.len() && '0' <= v[k] && v[k] <= '9'
        invariant
            i <= k <= v@.len(),
            spec_skip_digits(v@, i as int) == spec_skip_digits(v@, k as int),
        decreases v@.len() - k,
    {
        k = k + 1;
    }
    k
}

/// The value of one hexadecimal digit character, if it is one.
fn hex_digit(c: char) -> (r: Option<u8>)
    ensures
        r is Some <==> hex_val(c) >= 0,
        r matches Some(d) ==> d == hex_val(c),
{
    let u = c as u32;
    if 48 <= u && u <= 57 {
        Some((u - 48) as u8)
    } else if 97 <= u && u <= 102 {
        Some((u - 87) as u8)
    } else if 65 <= u && u <= 70 {
        Some((u - 55) as u8)
    } else {
        None
    }
}

/// Four hexadecimal digits starting at `i`, as one code unit.
fn hex4(v: &Vec<char>, i: usize) -> (r: Option<u32>)
    requires
        i <= v@.len(),
    ensures
        r is Some <==> spec_four_hex(v@, i as int),
        r matches Some(u) ==> u == spec_hex4_val(v@, i as int) && u < 0x10000,
{
    if v.len() < 4 || i > v.len() - 4 {
        return None;
    }
    let d0 = hex_digit(v[i]);
    let d1 = hex_digit(v[i + 1]);
    let d2 = hex_digit(v[i + 2]);
    let d3 = hex_digit(v[i + 3]);
    match (d0, d1, d2, d3) {
        (Some(a), Some(b), Some(c), Some(d)) => Some(
            (a as u32) * 0x1000 + (b as u32) * 0x100 + (c as u32) * 0x10 + (d as u32),
        ),
        _ => None,
    }
}

/// The characters `v[a..b]` as a `String`.
fn chars_substring(v: &Vec<char>, a: usize, b: usize) -> (s: String)
    requires
        a <= b <= v@.len(),
    ensures
        s@ == v@.subrange(a as int, b as int),
{
    let mut s = String::new();
    let mut k = a;
    while k < b
        invariant
            a <= k <= b <= v@.len(),
            s@ == v@.subrange(a as int, k as int),
        decreases b - k,
    {
        push_char(&mut s, v[k]);
        k = k + 1;
        proof {
            assert(s@ =~= v@.subrange(a as int, k as int));
        }
    }
    s
}

/// Decode one escape sequence starting at the backslash at `i`.
fn escape_at(v: &Vec<char>, i: usize) -> (r: Option<(char, usize)>)
    requires
        i < v@.len(),
    ensures
        r matches Some(t) ==> spec_escape_at(v@, i as int) == Some((t.0, t.1 as int)) && i < t.1
            <= v@.len(),
        r is None ==> spec_escape_at(v@, i as int) is None,
{
    if v.len() - i <= 1 {
        return None;
    }
    let e = v[i + 1];
    if e == 'u' {
        match hex4(v, i + 2) {
            None => None,
            Some(code) => {
                if 0xD800 <= code && code < 0xDC00 {
                    if v.len() - i >= 12 && v[i + 6] == '\\' && v[i + 7] == 'u' {
                        match hex4(v, i + 8) {
                            None => None,
                            Some(lo) => {
                                if 0xDC00 <= lo && lo < 0xE000 {
                                    let scalar = 0x10000 + (code - 0xD800) * 0x400 + (lo - 0xDC00);
                                    match char_from_u32(scalar) {
                                        Some(c2) => {
                                            proof {
                                                vstd::utf8::char_u32_cast(c2, scalar);
                                            }
                                            Some((c2, i + 12))
                                        },
                                        None => {
                                            proof {
                                                assert(false);
                                            }
                                            None
                                        },
                                    }
                                } else {
                                    None
                                }
                            },
                        }
                    } else {
                        None
                    }
                } else if 0xDC00 <= code && code < 0xE000 {
                    None
                } else {
                    match char_from_u32(code) {
                        Some(c2) => {
                            proof {
                                vstd::utf8::char_u32_cast(c2, code);
                            }
                            Some((c2, i + 6))
                        },
                        None => {
                            proof {
                                assert(false);
                            }
                            None
                        },
                    }
                }
            },
        }
    } else {
        let esc: Option<char> = if e == '"' {
            Some('"')
        } else if e == '\\' {
            Some('\\')
        } else if e == '/' {
            Some('/')
        } else if e == 'b' {
            Some(8u8 as char)
        } else if e == 'f' {
            Some(12u8 as char)
        } else if e == 'n' {
            Some('\n')
        } else if e == 'r' {
            Some('\r')
        } else if e == 't' {
            Some('\t')
        } else {
            None
        };
        proof {
            assert(esc == escape_of(v@[i as int + 1]));
        }
        match esc {
            Some(c2) => Some((c2, i + 2)),
            None => None,
        }
    }
}

/// Parse the remainder of a string literal starting at `i`, just after the
/// opening quote.
#[verifier::rlimit(100)]
fn parse_string_at(v: &Vec<char>, i: usize) -> (r: Option<(String, usize)>)
    requires
        i <= v@.len(),
    ensures
        r matches Some(t) ==> spec_parse_string(v@, i as int, Seq::empty()) == Some(
            (t.0@, t.1 as int),
        ) && i < t.1 <= v@.len(),
        r is None ==> spec_parse_string(v@, i as int, Seq::empty()) is None,
{
    let mut out = String::new();
    let mut k = i;
    loop
        invariant
            i <= k <= v@.len(),
            spec_parse_string(v@, i as int, Seq::empty()) == spec_parse_string(
                v@,
                k as int,
                out@,
            ),
        decreases v@.len() - k,
    {
        if k >= v.len() {
            return None;
        }
        let c = v[k];
        if c == '"' {
            return Some((out, k + 1));
        }
        if c == '\\' {
            match escape_at(v, k) {
                None => {
                    return None;
                },
                Some((c2, j)) => {
                    push_char(&mut out, c2);
                    k = j;
                },
            }
        } else if (c as u32) < 0x20 {
            return None;
        } else {
            push_char(&mut out, c);
            k = k + 1;
        }
    }
}

/// Parse a number starting at `i`, returning its literal text.
fn parse_number_at(v: &Vec<char>, i: usize) -> (r: Option<(String, usize)>)
    requires
        i <= v@.len(),
    ensures
        r matches Some(t) ==> spec_parse_number(v@, i as int) == Some(
            (JsonV::Num(t.0@), t.1 as int),
        ) && i < t.1 <= v@.len(),
        r is None ==> spec_parse_number(v@, i as int) is None,
{
    let i0 = if i < v.len() && v[i] == '-' {
        i + 1
    } else {
        i
    };
    if i0 >= v.len() || v[i0] < '0' || v[i0] > '9' {
        return None;
    }
    let i1 = if v[i0] == '0' {
        i0 + 1
    } else {
        skip_digits(v, i0)
    };
    proof {
        lemma_skip_digits(v@, i0 as int + 1);
        assert(spec_int_end(v@, i0 as int) == Some(i1 as int));
        assert(i1 > i0);
    }
    let i2 = if i1 < v.len() && v[i1] == '.' {
        let d = skip_digits(v, i1 + 1);
        if d == i1 + 1 {
            return None;
        }
        d
    } else {
        i1
    };
    proof {
        assert(spec_frac_end(v@, i1 as int) == Some(i2 as int));
    }
    let i3 = if i2 < v.len() && (v[i2] == 'e' || v[i2] == 'E') {
        let start = if i2 + 1 < v.len() && (v[i2 + 1] == '+' || v[i2 + 1] == '-') {
            i2 + 2
        } else {
            i2 + 1
        };
        let d = skip_digits(v, start);
        if d == start {
            return None;
        }
        d
    } else {
        i2
    };
    proof {
        assert(spec_exp_end(v@, i2 as int) == Some(i3 as int));
    }
    let text = chars_substring(v, i, i3);
    Some((text, i3))
}

/// Parse one JSON value starting at exactly position `i`.
pub fn parse_value_at(v: &Vec<char>, i: usize) -> (r: Option<(JsonValue, usize)>)
    requires
        i <= v@.len(),
    ensures
        r matches Some(t) ==> spec_parse_value(v@, i as int) == Some((t.0@, t.1 as int)) && i
            < t.1 <= v@.len(),
        r is None ==> spec_parse_value(v@, i as int) is None,
    decreases v@.len() - i, 0int,
{
    proof {
        reveal_strlit("null");
        reveal_strlit("true");
        reveal_strlit("false");
    }
    if i >= v.len() {
        return None;
    }
    let c = v[i];
    if c == 'n' {
        if v.len() - i >= 4 && crate::text::matches_at(v, "null", i) {
            Some((JsonValue::Null, i + 4))
        } else {
            None
        }
    } else if c == 't' {
        if v.len() - i >= 4 && crate::text::matches_at(v, "true", i) {
            Some((JsonValue::Bool(true), i + 4))
        } else {
            None
        }
    } else if c == 'f' {
        if v.len() - i >= 5 && crate::text::matches_at(v, "false", i) {
            Some((JsonValue::Bool(false), i + 5))
        } else {
            None
        }
    } else if c == '"' {
        match parse_string_at(v, i + 1) {
            Some((t, j)) => Some((JsonValue::Str(t), j)),
            None => None,
        }
    } else if c == '[' {
        match parse_array_at(v, i + 1) {
            Some((items, j)) => Some((JsonValue::Arr(items), j)),
            None => None,
        }
    } else if c == '{' {
        match parse_object_at(v, i + 1) {
            Some((fields, j)) => Some((JsonValue::Obj(fields), j)),
            None => None,
        }
    } else if c == '-' || ('0' <= c && c <= '9') {
        match parse_number_at(v, i) {
            Some((t, j)) => Some((JsonValue::Num(t), j)),
            None => None,
        }
    } else {
        None
    }
}

/// Parse an array body starting just after `[`.
fn parse_array_at(v: &Vec<char>, i: usize) -> (r: Option<(Vec<JsonValue>, usize)>)
    requires
        i <= v@.len(),
    ensures
        r matches Some(t) ==> spec_parse_array(v@, i as int) == Some(
            (JsonV::Arr(view_arr(t.0@)), t.1 as int),
        ) && i < t.1 <= v@.len(),
        r is None ==> spec_parse_array(v@, i as int) is None,
    decreases v@.len() - i, 2int,
{
    let j = skip_ws(v, i);
    if j < v.len() && v[j] == ']' {
        let items: Vec<JsonValue> = Vec::new();
        proof {
            assert(view_arr(items@) =~= Seq::<JsonV>::empty());
        }
        Some((items, j + 1))
    } else {
        match parse_array_items(v, i) {
            Some((items, e)) => Some((items, e)),
            None => None,
        }
    }
}

/// Parse one or more comma-separated array elements up to the closing `]`.
fn parse_array_items(v: &Vec<char>, i: usize) -> (r: Option<(Vec<JsonValue>, usize)>)
    requires
        i <= v@.len(),
    ensures
        r matches Some(t) ==> spec_parse_array_items(v@, i as int) == Some(
            (view_arr(t.0@), t.1 as int),
        ) && i < t.1 <= v@.len(),
        r is None ==> spec_parse_array_items(v@, i as int) is None,
    decreases v@.len() - i, 1int,
{
    let j = skip_ws(v, i);
    match parse_value_at(v, j) {
        None => None,
        Some((val, k)) => {
            let m = skip_ws(v, k);
            if m >= v.len() {
                None
            } else if v[m] == ']' {
                let mut items: Vec<JsonValue> = Vec::new();
                items.push(val);
                proof {
                    assert(items@ =~= seq![val] + Seq::<JsonValue>::empty());
                    lemma_view_arr_cons(val, Seq::empty());
                    assert(view_arr(items@) =~= seq![view_json(val)]);
                }
                Some((items, m + 1))
            } else if v[m] == ',' {
                match parse_array_items(v, m + 1) {
                    None => None,
                    Some((mut rest, e)) => {
                        let ghost grest = rest@;
                        proof {
                            lemma_view_arr_cons(val, grest);
                        }
                        rest.insert(0, val);
                        proof {
                            assert(rest@ =~= seq![val] + grest);
                        }
                        Some((rest, e))
                    },
                }
            } else {
                None
            }
        },
    }
}

/// Parse an object body starting just after `{`.
fn parse_object_at(v: &Vec<char>, i: usize) -> (r: Option<(Vec<(String, JsonValue)>, usize)>)
    requires
        i <= v@.len(),
    ensures
        r matches Some(t) ==> spec_parse_object(v@, i as int) == Some(
            (JsonV::Obj(view_obj(t.0@)), t.1 as int),
        ) && i < t.1 <= v@.len(),
        r is None ==> spec_parse_object(v@, i as int) is None,
    decreases v@.len() - i, 2int,
{
    let j = skip_ws(v, i);
    if j < v.len() && v[j] == '}' {
        let fields: Vec<(String, JsonValue)> = Vec::new();
        proof {
            assert(view_obj(fields@) =~= Seq::<(Seq<char>, JsonV)>::empty());
        }
        Some((fields, j + 1))
    } else {
        match parse_object_items(v, i) {
            Some((fields, e)) => Some((fields, e)),
            None => None,
        }
    }
}

/// Parse one or more comma-separated object members up to the closing `}`.
fn parse_object_items(v: &Vec<char>, i: usize) -> (r: Option<
    (Vec<(String, JsonValue)>, usize),
>)
    requires
        i <= v@.len(),
    ensures
        r matches Some(t) ==> spec_parse_object_items(v@, i as int) == Some(
            (view_obj(t.0@), t.1 as int),
        ) && i < t.1 <= v@.len(),
        r is None ==> spec_parse_object_items(v@, i as int) is None,
    decreases v@.len() - i, 1int,
{
    let j = skip_ws(v, i);
    if j >= v.len() || v[j] != '"' {
        return None;
    }
    match parse_string_at(v, j + 1) {
        None => None,
        Some((key, k)) => {
            let m = skip_ws(v, k);
            if m >= v.len() || v[m] != ':' {
                return None;
            }
            match parse_value_at(v, m + 1) {
                None => None,
                Some((val, e)) => {
                    let p = skip_ws(v, e);
                    if p >= v.len() {
                        None
                    } else if v[p] == '}' {
                        let mut fields: Vec<(String, JsonValue)> = Vec::new();
                        let ghost gkey = key@;
                        fields.push((key, val));
                        proof {
                            assert(fields@ =~= seq![fields@[0]] + Seq::<
                                (String, JsonValue),
                            >::empty());
                            lemma_view_obj_cons(fields@[0], Seq::empty());
                            assert(view_obj(fields@) =~= seq![(gkey, view_json(val))]);
                        }
                        Some((fields, p + 1))
                    } else if v[p] == ',' {
                        match parse_object_items(v, p + 1) {
                            None => None,
                            Some((mut rest, e2)) => {
                                let ghost grest = rest@;
                                let pair = (key, val);
                                let ghost gpair = pair;
                                proof {
                                    lemma_view_obj_cons(gpair, grest);
                                }
                                rest.insert(0, pair);
                                proof {
                                    assert(rest@ =~= seq![gpair] + grest);
                                }
                                Some((rest, e2))
                            },
                        }
                    } else {
                        None
                    }
                },
            }
        },
    }
}

/// Parse one complete JSON text.
pub fn parse_json(s: &str) -> (r: Option<JsonValue>)
    ensures
        r matches Some(val) ==> spec_parse_json(s@) == Some(val@),
        r is None ==> spec_parse_json(s@) is None,
{
    let v = crate::text::str_to_chars(s);
    let j = skip_ws(&v, 0);
    match parse_value_at(&v, j) {
        None => None,
        Some((val, k)) => {
            let e = skip_ws(&v, k);
            if e == v.len() {
                Some(val)
            } else {
                None
            }
        },
    }
}

/// The value of the last member with the given key, if any; the last wins,
/// as it does when duplicate keys overwrite one another in a map.
pub open spec fn obj_lookup(fields: Seq<(Seq<char>, JsonV)>, key: Seq<char>) -> Option<JsonV>
    decreases fields.len(),
{
    if fields.len() == 0 {
        None
    } else if fields.last().0 == key {
        Some(fields.last().1)
    } else {
        obj_lookup(fields.drop_last(), key)
    }
}

/// The member named `key` of `v`, when `v` is an object.
pub open spec fn json_field(v: JsonV, key: Seq<char>) -> Option<JsonV> {
    match v {
        JsonV::Obj(fields) => obj_lookup(fields, key),
        _ => None,
    }
}

/// The character content of member `key`, when present and a string.
pub open spec fn json_str_field(v: JsonV, key: Seq<char>) -> Option<Seq<char>> {
    match json_field(v, key) {
        Some(JsonV::Str(t)) => Some(t),
        _ => None,
    }
}

/// The value of member `key`, when present and a boolean.
pub open spec fn json_bool_field(v: JsonV, key: Seq<char>) -> Option<bool> {
    match json_field(v, key) {
        Some(JsonV::Bool(b)) => Some(b),
        _ => None,
    }
}

/// A numeric member read as `u64`: either a JSON number whose text is a
/// plain run of digits whose value fits, or a string holding an optional
/// `+` and such a run.
pub open spec fn json_u64_field(v: JsonV, key: Seq<char>) -> Option<u64> {
    match json_field(v, key) {
        Some(JsonV::Num(raw)) => crate::text::spec_digits_u64(raw),
        Some(JsonV::Str(t)) => crate::text::spec_plus_digits_u64(t),
        _ => None,
    }
}

/// Look a member up by key; of duplicate keys the last wins.
pub fn get_field<'a>(v: &'a JsonValue, key: &str) -> (r: Option<&'a JsonValue>)
    ensures
        r matches Some(x) ==> json_field(v@, key@) == Some(x@),
        r is None ==> json_field(v@, key@) is None,
{
    match v {
        JsonValue::Obj(fields) => {
            proof {
                lemma_view_obj(fields@);
                assert(view_obj(fields@).take(fields@.len() as int) =~= view_obj(fields@));
                assert(view_json(*v) == JsonV::Obj(view_obj(fields@)));
            }
            let ghost whole = view_obj(fields@);
            let mut idx = fields.len();
            while idx > 0
                invariant
                    idx <= fields@.len(),
                    whole == view_obj(fields@),
                    v@ == JsonV::Obj(whole),
                    json_field(v@, key@) == obj_lookup(whole, key@),
                    whole.len() == fields@.len(),
                    forall|i: int|
                        0 <= i < fields@.len() ==> whole[i] == (
                        fields@[i].0@,
                        view_json(fields@[i].1),
                        ),
                    obj_lookup(whole, key@) == obj_lookup(whole.take(idx as int), key@),
                decreases idx,
            {
                idx = idx - 1;
                proof {
                    assert(whole.take(idx + 1).last() == whole[idx as int]);
                    assert(whole.take(idx + 1).drop_last() =~= whole.take(idx as int));
                }
                if crate::text::str_eq(fields[idx].0.as_str(), key) {
                    proof {
                        assert(v@ == JsonV::Obj(whole));
                        assert(json_field(v@, key@) == obj_lookup(whole, key@));
                        assert(whole[idx as int] == (fields@[idx as int].0@, view_json(
                            fields@[idx as int].1,
                        )));
                        assert(whole.take(idx as int + 1).last().0 == key@);
                        assert(obj_lookup(whole.take(idx as int + 1), key@) == Some(
                            whole.take(idx as int + 1).last().1,
                        ));
                    }
                    return Some(&fields[idx].1);
                }
            }
            proof {
                assert(whole.take(0) =~= Seq::<(Seq<char>, JsonV)>::empty());
            }
            None
        },
        _ => None,
    }
}

/// The string content of a member, cloned out of the tree.
pub fn get_str_field(v: &JsonValue, key: &str) -> (r: Option<String>)
    ensures
        r matches Some(t) ==> json_str_field(v@, key@) == Some(t@),
        r is None ==> json_str_field(v@, key@) is None,
{
    match get_field(v, key) {
        Some(JsonValue::Str(t)) => Some(t.clone()),
        _ => None,
    }
}

/// The boolean value of a member.
pub fn get_bool_field(v: &JsonValue, key: &str) -> (r: Option<bool>)
    ensures
        r == json_bool_field(v@, key@),
{
    match get_field(v, key) {
        Some(JsonValue::Bool(b)) => Some(*b),
        _ => None,
    }
}

/// A numeric member as `u64`, from a number or a numeric string.
pub fn get_u64_field(v: &JsonValue, key: &str) -> (r: Option<u64>)
    ensures
        r == json_u64_field(v@, key@),
{
    match get_field(v, key) {
        Some(JsonValue::Num(raw)) => crate::text::string_as_u64(raw),
        Some(JsonValue::Str(t)) => crate::text::string_parse_u64(t),
        _ => None,
    }
}

} // verus!
