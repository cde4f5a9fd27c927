//! The detection rule set for malicious command patterns: reverse shells,
//! droppers and flood tools, written as character-class token patterns and
//! matched by a verified backtracking matcher.

use vstd::prelude::*;

use crate::json::is_digit;

verus! {

/// A character class a pattern token can require.
#[derive(Debug, Clone, Copy, PartialEq, Eq, Structural)]
pub enum TokKind {
    /// Exactly the given character.
    Lit(char),
    /// A decimal digit.
    Digit,
    /// ASCII whitespace.
    Space,
    /// Any character but a line break.
    AnyChar,
}

/// One pattern token: one occurrence of a class, or zero or more.
#[derive(Debug, Clone, Copy, PartialEq, Eq, Structural)]
pub enum Tok {
    /// Exactly one character of the class.
    One(TokKind),
    /// Zero or more characters of the class.
    Star(TokKind),
}

/// Whether a character belongs to a class.
pub open spec fn class_match(k: TokKind, c: char) -> bool {
    match k {
        TokKind::Lit(l) => c == l,
        TokKind::Digit => is_digit(c),
        TokKind::Space => c == ' ' || c == '\t' || c == '\n' || c == '\r' || c == 11u8 as char
            || c == 12u8 as char,
        TokKind::AnyChar => c != '\n',
    }
}

/// The tokens starting at `ti` match some stretch of `s` starting exactly
/// at position `i`.
pub open spec fn matches_toks(toks: Seq<Tok>, s: Seq<char>, i: int) -> bool
    decreases s.len() - i, toks.len(),
{
    if toks.len() == 0 {
        true
    } else {
        match toks[0] {
            Tok::One(k) => 0 <= i < s.len() && class_match(k, s[i]) && matches_toks(
                toks.drop_first(),
                s,
                i + 1,
            ),
            Tok::Star(k) => matches_toks(toks.drop_first(), s, i) || (0 <= i < s.len()
                && class_match(k, s[i]) && matches_toks(toks, s, i + 1)),
        }
    }
}

/// The pattern matches somewhere in `s`.
pub open spec fn toks_search(toks: Seq<Tok>, s: Seq<char>) -> bool {
    exists|i: int| 0 <= i <= s.len() && matches_toks(toks, s, i)
}

/// Whether a character belongs to a class, decided.
fn class_match_exec(k: TokKind, c: char) -> (r: bool)
    ensures
        r == class_match(k, c),
{
    match k {
        TokKind::Lit(l) => c == l,
        TokKind::Digit => '0' <= c && c <= '9',
        TokKind::Space => c == ' ' || c == '\t' || c == '\n' || c == '\r' || c == 11u8 as char
            || c == 12u8 as char,
        TokKind::AnyChar => c != '\n',
    }
}

/// Match the tokens from `ti` on against `s` starting exactly at `i`.
fn matches_toks_at(toks: &Vec<Tok>, ti: usize, s: &Vec<char>, i: usize) -> (r: bool)
    requires
        ti <= toks@.len(),
        i <= s@.len(),
    ensures
        r == matches_toks(toks@.skip(ti as int), s@, i as int),
    decreases s@.len() - i, toks@.len() - ti,
{
    proof {
        assert(toks@.skip(ti as int).len() == toks@.len() - ti);
    }
    if ti == toks.len() {
        return true;
    }
    proof {
        assert(toks@.skip(ti as int)[0] == toks@[ti as int]);
        assert(toks@.skip(ti as int).drop_first() =~= toks@.skip(ti as int + 1));
    }
    match toks[ti] {
        Tok::One(k) => i < s.len() && class_match_exec(k, s[i]) && matches_toks_at(
            toks,
            ti + 1,
            s,
            i + 1,
        ),
        Tok::Star(k) => {
            if matches_toks_at(toks, ti + 1, s, i) {
                true
            } else if i < s.len() && class_match_exec(k, s[i]) {
                matches_toks_at(toks, ti, s, i + 1)
            } else {
                false
            }
        },
    }
}

/// Search `s` for a match of the whole pattern at any position.
pub fn search_pattern(toks: &Vec<Tok>, s: &Vec<char>) -> (r: bool)
    ensures
        r == toks_search(toks@, s@),
{
    let mut i: usize = 0;
    proof {
        assert(toks@.skip(0) =~= toks@);
    }
    loop
        invariant
            i <= s@.len(),
            forall|k: int| 0 <= k < i ==> !matches_toks(toks@, s@, k),
        ensures
            forall|k: int| 0 <= k <= s@.len() ==> !matches_toks(toks@, s@, k),
        decreases s@.len() - i,
    {
        proof {
            assert(toks@.skip(0) =~= toks@);
        }
        if matches_toks_at(toks, 0, s, i) {
            proof {
                assert(matches_toks(toks@, s@, i as int));
            }
            return true;
        }
        if i == s.len() {
            break;
        }
        i = i + 1;
    }
    false
}

/// Rule: wget piped to a shell.
pub open spec fn pattern_1() -> Seq<Tok> {
    seq![
        Tok::One(TokKind::Lit('w')),
        Tok::One(TokKind::Lit('g')),
        Tok::One(TokKind::Lit('e')),
        Tok::One(TokKind::Lit('t')),
        Tok::One(TokKind::Space),
        Tok::Star(TokKind::Space),
        Tok::One(TokKind::AnyChar),
        Tok::Star(TokKind::AnyChar),
        Tok::One(TokKind::Space),
        Tok::Star(TokKind::Space),
        Tok::One(TokKind::Lit('|')),
        Tok::Star(TokKind::Space),
        Tok::One(TokKind::Lit('s')),
        Tok::One(TokKind::Lit('h')),
    ]
}

/// Rule: curl piped to a shell.
pub open spec fn pattern_2() -> Seq<Tok> {
    seq![
        Tok::One(TokKind::Lit('c')),
        Tok::One(TokKind::Lit('u')),
        Tok::One(TokKind::Lit('r')),
        Tok::One(TokKind::Lit('l')),
        Tok::One(TokKind::Space),
        Tok::Star(TokKind::Space),
        Tok::One(TokKind::AnyChar),
        Tok::Star(TokKind::AnyChar),
        Tok::One(TokKind::Space),
        Tok::Star(TokKind::Space),
        Tok::One(TokKind::Lit('|')),
        Tok::Star(TokKind::Space),
        Tok::One(TokKind::Lit('s')),
        Tok::One(TokKind::Lit('h')),
    ]
}

/// Rule: bash reverse shell via /dev/tcp.
pub open spec fn pattern_3() -> Seq<Tok> {
    seq![
        Tok::One(TokKind::Lit('/')),
        Tok::One(TokKind::Lit('d')),
        Tok::One(TokKind::Lit('e')),
        Tok::One(TokKind::Lit('v')),
        Tok::One(TokKind::Lit('/')),
        Tok::One(TokKind::Lit('t')),
        Tok::One(TokKind::Lit('c')),
        Tok::One(TokKind::Lit('p')),
        Tok::One(TokKind::Lit('/')),
        Tok::One(TokKind::Digit),
        Tok::Star(TokKind::Digit),
        Tok::One(TokKind::Lit('.')),
        Tok::One(TokKind::Digit),
        Tok::Star(TokKind::Digit),
        Tok::One(TokKind::Lit('.')),
        Tok::One(TokKind::Digit),
        Tok::Star(TokKind::Digit),
        Tok::One(TokKind::Lit('.')),
        Tok::One(TokKind::Digit),
        Tok::Star(TokKind::Digit),
        Tok::One(TokKind::Lit('/')),
        Tok::One(TokKind::Digit),
        Tok::Star(TokKind::Digit),
    ]
}

/// Rule: python reverse shell (socket).
pub open spec fn pattern_4() -> Seq<Tok> {
    seq![
        Tok::One(TokKind::Lit('p')),
        Tok::One(TokKind::Lit('y')),
        Tok::One(TokKind::Lit('t')),
        Tok::One(TokKind::Lit('h')),
        Tok::One(TokKind::Lit('o')),
        Tok::One(TokKind::Lit('n')),
        Tok::One(TokKind::Space),
        Tok::Star(TokKind::Space),
        Tok::One(TokKind::Lit('-')),
        Tok::One(TokKind::Lit('c')),
        Tok::One(TokKind::Space),
        Tok::Star(TokKind::Space),
        Tok::One(TokKind::Lit('\'')),
        Tok::Star(TokKind::AnyChar),
        Tok::One(TokKind::Lit('s')),
        Tok::One(TokKind::Lit('o')),
        Tok::One(TokKind::Lit('c')),
        Tok::One(TokKind::Lit('k')),
        Tok::One(TokKind::Lit('e')),
        Tok::One(TokKind::Lit('t')),
        Tok::One(TokKind::Lit('\'')),
    ]
}

/// Rule: python reverse shell (connect).
pub open spec fn pattern_5() -> Seq<Tok> {
    seq![
        Tok::One(TokKind::Lit('p')),
        Tok::One(TokKind::Lit('y')),
        Tok::One(TokKind::Lit('t')),
        Tok::One(TokKind::Lit('h')),
        Tok::One(TokKind::Lit('o')),
        Tok::One(TokKind::Lit('n')),
        Tok::One(TokKind::Space),
        Tok::Star(TokKind::Space),
        Tok::One(TokKind::Lit('-')),
        Tok::One(TokKind::Lit('c')),
        Tok::One(TokKind::Space),
        Tok::Star(TokKind::Space),
        Tok::One(TokKind::Lit('\'')),
        Tok::Star(TokKind::AnyChar),
        Tok::One(TokKind::Lit('c')),
        Tok::One(TokKind::Lit('o')),
        Tok::One(TokKind::Lit('n')),
        Tok::One(TokKind::Lit('n')),
        Tok::One(TokKind::Lit('e')),
        Tok::One(TokKind::Lit('c')),
        Tok::One(TokKind::Lit('t')),
        Tok::One(TokKind::Lit('\'')),
    ]
}

/// Rule: netcat with -e.
pub open spec fn pattern_6() -> Seq<Tok> {
    seq![
        Tok::One(TokKind::Lit('n')),
        Tok::One(TokKind::Lit('c')),
        Tok::One(TokKind::Space),
        Tok::Star(TokKind::Space),
        Tok::One(TokKind::Lit('-')),
        Tok::One(TokKind::Lit('e')),
        Tok::One(TokKind::Space),
        Tok::Star(TokKind::Space),
    ]
}

/// Rule: netcat with -c.
pub open spec fn pattern_7() -> Seq<Tok> {
    seq![
        Tok::One(TokKind::Lit('n')),
        Tok::One(TokKind::Lit('c')),
        Tok::One(TokKind::Space),
        Tok::Star(TokKind::Space),
        Tok::One(TokKind::Lit('-')),
        Tok::One(TokKind::Lit('c')),
        Tok::One(TokKind::Space),
        Tok::Star(TokKind::Space),
    ]
}

/// Rule: busybox tftp download.
pub open spec fn pattern_8() -> Seq<Tok> {
    seq![
        Tok::One(TokKind::Lit('b')),
        Tok::One(TokKind::Lit('u')),
        Tok::One(TokKind::Lit('s')),
        Tok::One(TokKind::Lit('y')),
        Tok::One(TokKind::Lit('b')),
        Tok::One(TokKind::Lit('o')),
        Tok::One(TokKind::Lit('x')),
        Tok::One(TokKind::Space),
        Tok::Star(TokKind::Space),
        Tok::One(TokKind::Lit('t')),
        Tok::One(TokKind::Lit('f')),
        Tok::One(TokKind::Lit('t')),
        Tok::One(TokKind::Lit('p')),
    ]
}

/// Rule: make a file executable.
pub open spec fn pattern_9() -> Seq<Tok> {
    seq![
        Tok::One(TokKind::Lit('c')),
        Tok::One(TokKind::Lit('h')),
        Tok::One(TokKind::Lit('m')),
        Tok::One(TokKind::Lit('o')),
        Tok::One(TokKind::Lit('d')),
        Tok::One(TokKind::Space),
        Tok::Star(TokKind::Space),
        Tok::One(TokKind::Lit('+')),
        Tok::One(TokKind::Lit('x')),
    ]
}

/// Rule: dd flood.
pub open spec fn pattern_10() -> Seq<Tok> {
    seq![
        Tok::One(TokKind::Lit('d')),
        Tok::One(TokKind::Lit('d')),
        Tok::One(TokKind::Space),
        Tok::Star(TokKind::Space),
        Tok::One(TokKind::Lit('b')),
        Tok::One(TokKind::Lit('s')),
        Tok::One(TokKind::Lit('=')),
        Tok::One(TokKind::Digit),
        Tok::Star(TokKind::Digit),
        Tok::One(TokKind::Space),
        Tok::Star(TokKind::Space),
        Tok::One(TokKind::Lit('c')),
        Tok::One(TokKind::Lit('o')),
        Tok::One(TokKind::Lit('u')),
        Tok::One(TokKind::Lit('n')),
        Tok::One(TokKind::Lit('t')),
        Tok::One(TokKind::Lit('=')),
        Tok::One(TokKind::Digit),
        Tok::Star(TokKind::Digit),
        Tok::One(TokKind::Space),
        Tok::Star(TokKind::Space),
        Tok::One(TokKind::Lit('i')),
        Tok::One(TokKind::Lit('f')),
        Tok::One(TokKind::Lit('=')),
        Tok::One(TokKind::Lit('/')),
        Tok::One(TokKind::Lit('d')),
        Tok::One(TokKind::Lit('e')),
        Tok::One(TokKind::Lit('v')),
        Tok::One(TokKind::Lit('/')),
        Tok::One(TokKind::Lit('z')),
        Tok::One(TokKind::Lit('e')),
        Tok::One(TokKind::Lit('r')),
        Tok::One(TokKind::Lit('o')),
    ]
}

/// Rule: ping flood (-f).
pub open spec fn pattern_11() -> Seq<Tok> {
    seq![
        Tok::One(TokKind::Lit('p')),
        Tok::One(TokKind::Lit('i')),
        Tok::One(TokKind::Lit('n')),
        Tok::One(TokKind::Lit('g')),
        Tok::One(TokKind::Space),
        Tok::Star(TokKind::Space),
        Tok::One(TokKind::Lit('-')),
        Tok::One(TokKind::Lit('f')),
    ]
}

/// Rule: ping flood (-t).
pub open spec fn pattern_12() -> Seq<Tok> {
    seq![
        Tok::One(TokKind::Lit('p')),
        Tok::One(TokKind::Lit('i')),
        Tok::One(TokKind::Lit('n')),
        Tok::One(TokKind::Lit('g')),
        Tok::One(TokKind::Space),
        Tok::Star(TokKind::Space),
        Tok::One(TokKind::Lit('-')),
        Tok::One(TokKind::Lit('t')),
    ]
}

/// Rule: ping with a huge payload.
pub open spec fn pattern_13() -> Seq<Tok> {
    seq![
        Tok::One(TokKind::Lit('p')),
        Tok::One(TokKind::Lit('i')),
        Tok::One(TokKind::Lit('n')),
        Tok::One(TokKind::Lit('g')),
        Tok::One(TokKind::Space),
        Tok::Star(TokKind::Space),
        Tok::One(TokKind::Lit('-')),
        Tok::One(TokKind::Lit('s')),
        Tok::One(TokKind::Space),
        Tok::Star(TokKind::Space),
        Tok::One(TokKind::Digit),
        Tok::One(TokKind::Digit),
        Tok::One(TokKind::Digit),
        Tok::One(TokKind::Digit),
        Tok::Star(TokKind::Digit),
    ]
}

/// Build the rule: wget piped to a shell.
fn build_pattern_1() -> (r: Vec<Tok>)
    ensures
        r@ == pattern_1(),
{
    let mut p: Vec<Tok> = Vec::new();
    p.push(Tok::One(TokKind::Lit('w')));
    p.push(Tok::One(TokKind::Lit('g')));
    p.push(Tok::One(TokKind::Lit('e')));
    p.push(Tok::One(TokKind::Lit('t')));
    p.push(Tok::One(TokKind::Space));
    p.push(Tok::Star(TokKind::Space));
    p.push(Tok::One(TokKind::AnyChar));
    p.push(Tok::Star(TokKind::AnyChar));
    p.push(Tok::One(TokKind::Space));
    p.push(Tok::Star(TokKind::Space));
    p.push(Tok::One(TokKind::Lit('|')));
    p.push(Tok::Star(TokKind::Space));
    p.push(Tok::One(TokKind::Lit('s')));
    p.push(Tok::One(TokKind::Lit('h')));
    proof {
        assert(p@ =~= pattern_1());
    }
    p
}

/// Build the rule: curl piped to a shell.
fn build_pattern_2() -> (r: Vec<Tok>)
    ensures
        r@ == pattern_2(),
{
    let mut p: Vec<Tok> = Vec::new();
    p.push(Tok::One(TokKind::Lit('c')));
    p.push(Tok::One(TokKind::Lit('u')));
    p.push(Tok::One(TokKind::Lit('r')));
    p.push(Tok::One(TokKind::Lit('l')));
    p.push(Tok::One(TokKind::Space));
    p.push(Tok::Star(TokKind::Space));
    p.push(Tok::One(TokKind::AnyChar));
    p.push(Tok::Star(TokKind::AnyChar));
    p.push(Tok::One(TokKind::Space));
    p.push(Tok::Star(TokKind::Space));
    p.push(Tok::One(TokKind::Lit('|')));
    p.push(Tok::Star(TokKind::Space));
    p.push(Tok::One(TokKind::Lit('s')));
    p.push(Tok::One(TokKind::Lit('h')));
    proof {
        assert(p@ =~= pattern_2());
    }
    p
}

/// Build the rule: bash reverse shell via /dev/tcp.
fn build_pattern_3() -> (r: Vec<Tok>)
    ensures
        r@ == pattern_3(),
{
    let mut p: Vec<Tok> = Vec::new();
    p.push(Tok::One(TokKind::Lit('/')));
    p.push(Tok::One(TokKind::Lit('d')));
    p.push(Tok::One(TokKind::Lit('e')));
    p.push(Tok::One(TokKind::Lit('v')));
    p.push(Tok::One(TokKind::Lit('/')));
    p.push(Tok::One(TokKind::Lit('t')));
    p.push(Tok::One(TokKind::Lit('c')));
    p.push(Tok::One(TokKind::Lit('p')));
    p.push(Tok::One(TokKind::Lit('/')));
    p.push(Tok::One(TokKind::Digit));
    p.push(Tok::Star(TokKind::Digit));
    p.push(Tok::One(TokKind::Lit('.')));
    p.push(Tok::One(TokKind::Digit));
    p.push(Tok::Star(TokKind::Digit));
    p.push(Tok::One(TokKind::Lit('.')));
    p.push(Tok::One(TokKind::Digit));
    p.push(Tok::Star(TokKind::Digit));
    p.push(Tok::One(TokKind::Lit('.')));
    p.push(Tok::One(TokKind::Digit));
    p.push(Tok::Star(TokKind::Digit));
    p.push(Tok::One(TokKind::Lit('/')));
    p.push(Tok::One(TokKind::Digit));
    p.push(Tok::Star(TokKind::Digit));
    proof {
        assert(p@ =~= pattern_3());
    }
    p
}

/// Build the rule: python reverse shell (socket).
fn build_pattern_4() -> (r: Vec<Tok>)
    ensures
        r@ == pattern_4(),
{
    let mut p: Vec<Tok> = Vec::new();
    p.push(Tok::One(TokKind::Lit('p')));
    p.push(Tok::One(TokKind::Lit('y')));
    p.push(Tok::One(TokKind::Lit('t')));
    p.push(Tok::One(TokKind::Lit('h')));
    p.push(Tok::One(TokKind::Lit('o')));
    p.push(Tok::One(TokKind::Lit('n')));
    p.push(Tok::One(TokKind::Space));
    p.push(Tok::Star(TokKind::Space));
    p.push(Tok::One(TokKind::Lit('-')));
    p.push(Tok::One(TokKind::Lit('c')));
    p.push(Tok::One(TokKind::Space));
    p.push(Tok::Star(TokKind::Space));
    p.push(Tok::One(TokKind::Lit('\'')));
    p.push(Tok::Star(TokKind::AnyChar));
    p.push(Tok::One(TokKind::Lit('s')));
    p.push(Tok::One(TokKind::Lit('o')));
    p.push(Tok::One(TokKind::Lit('c')));
    p.push(Tok::One(TokKind::Lit('k')));
    p.push(Tok::One(TokKind::Lit('e')));
    p.push(Tok::One(TokKind::Lit('t')));
    p.push(Tok::One(TokKind::Lit('\'')));
    proof {
        assert(p@ =~= pattern_4());
    }
    p
}

/// Build the rule: python reverse shell (connect).
fn build_pattern_5() -> (r: Vec<Tok>)
    ensures
        r@ == pattern_5(),
{
    let mut p: Vec<Tok> = Vec::new();
    p.push(Tok::One(TokKind::Lit('p')));
    p.push(Tok::One(TokKind::Lit('y')));
    p.push(Tok::One(TokKind::Lit('t')));
    p.push(Tok::One(TokKind::Lit('h')));
    p.push(Tok::One(TokKind::Lit('o')));
    p.push(Tok::One(TokKind::Lit('n')));
    p.push(Tok::One(TokKind::Space));
    p.push(Tok::Star(TokKind::Space));
    p.push(Tok::One(TokKind::Lit('-')));
    p.push(Tok::One(TokKind::Lit('c')));
    p.push(Tok::One(TokKind::Space));
    p.push(Tok::Star(TokKind::Space));
    p.push(Tok::One(TokKind::Lit('\'')));
    p.push(Tok::Star(TokKind::AnyChar));
    p.push(Tok::One(TokKind::Lit('c')));
    p.push(Tok::One(TokKind::Lit('o')));
    p.push(Tok::One(TokKind::Lit('n')));
    p.push(Tok::One(TokKind::Lit('n')));
    p.push(Tok::One(TokKind::Lit('e')));
    p.push(Tok::One(TokKind::Lit('c')));
    p.push(Tok::One(TokKind::Lit('t')));
    p.push(Tok::One(TokKind::Lit('\'')));
    proof {
        assert(p@ =~= pattern_5());
    }
    p
}

/// Build the rule: netcat with -e.
fn build_pattern_6() -> (r: Vec<Tok>)
    ensures
        r@ == pattern_6(),
{
    let mut p: Vec<Tok> = Vec::new();
    p.push(Tok::One(TokKind::Lit('n')));
    p.push(Tok::One(TokKind::Lit('c')));
    p.push(Tok::One(TokKind::Space));
    p.push(Tok::Star(TokKind::Space));
    p.push(Tok::One(TokKind::Lit('-')));
    p.push(Tok::One(TokKind::Lit('e')));
    p.push(Tok::One(TokKind::Space));
    p.push(Tok::Star(TokKind::Space));
    proof {
        assert(p@ =~= pattern_6());
    }
    p
}

/// Build the rule: netcat with -c.
fn build_pattern_7() -> (r: Vec<Tok>)
    ensures
        r@ == pattern_7(),
{
    let mut p: Vec<Tok> = Vec::new();
    p.push(Tok::One(TokKind::Lit('n')));
    p.push(Tok::One(TokKind::Lit('c')));
    p.push(Tok::One(TokKind::Space));
    p.push(Tok::Star(TokKind::Space));
    p.push(Tok::One(TokKind::Lit('-')));
    p.push(Tok::One(TokKind::Lit('c')));
    p.push(Tok::One(TokKind::Space));
    p.push(Tok::Star(TokKind::Space));
    proof {
        assert(p@ =~= pattern_7());
    }
    p
}

/// Build the rule: busybox tftp download.
fn build_pattern_8() -> (r: Vec<Tok>)
    ensures
        r@ == pattern_8(),
{
    let mut p: Vec<Tok> = Vec::new();
    p.push(Tok::One(TokKind::Lit('b')));
    p.push(Tok::One(TokKind::Lit('u')));
    p.push(Tok::One(TokKind::Lit('s')));
    p.push(Tok::One(TokKind::Lit('y')));
    p.push(Tok::One(TokKind::Lit('b')));
    p.push(Tok::One(TokKind::Lit('o')));
    p.push(Tok::One(TokKind::Lit('x')));
    p.push(Tok::One(TokKind::Space));
    p.push(Tok::Star(TokKind::Space));
    p.push(Tok::One(TokKind::Lit('t')));
    p.push(Tok::One(TokKind::Lit('f')));
    p.push(Tok::One(TokKind::Lit('t')));
    p.push(Tok::One(TokKind::Lit('p')));
    proof {
        assert(p@ =~= pattern_8());
    }
    p
}

/// Build the rule: make a file executable.
fn build_pattern_9() -> (r: Vec<Tok>)
    ensures
        r@ == pattern_9(),
{
    let mut p: Vec<Tok> = Vec::new();
    p.push(Tok::One(TokKind::Lit('c')));
    p.push(Tok::One(TokKind::Lit('h')));
    p.push(Tok::One(TokKind::Lit('m')));
    p.push(Tok::One(TokKind::Lit('o')));
    p.push(Tok::One(TokKind::Lit('d')));
    p.push(Tok::One(TokKind::Space));
    p.push(Tok::Star(TokKind::Space));
    p.push(Tok::One(TokKind::Lit('+')));
    p.push(Tok::One(TokKind::Lit('x')));
    proof {
        assert(p@ =~= pattern_9());
    }
    p
}

/// Build the rule: dd flood.
fn build_pattern_10() -> (r: Vec<Tok>)
    ensures
        r@ == pattern_10(),
{
    let mut p: Vec<Tok> = Vec::new();
    p.push(Tok::One(TokKind::Lit('d')));
    p.push(Tok::One(TokKind::Lit('d')));
    p.push(Tok::One(TokKind::Space));
    p.push(Tok::Star(TokKind::Space));
    p.push(Tok::One(TokKind::Lit('b')));
    p.push(Tok::One(TokKind::Lit('s')));
    p.push(Tok::One(TokKind::Lit('=')));
    p.push(Tok::One(TokKind::Digit));
    p.push(Tok::Star(TokKind::Digit));
    p.push(Tok::One(TokKind::Space));
    p.push(Tok::Star(TokKind::Space));
    p.push(Tok::One(TokKind::Lit('c')));
    p.push(Tok::One(TokKind::Lit('o')));
    p.push(Tok::One(TokKind::Lit('u')));
    p.push(Tok::One(TokKind::Lit('n')));
    p.push(Tok::One(TokKind::Lit('t')));
    p.push(Tok::One(TokKind::Lit('=')));
    p.push(Tok::One(TokKind::Digit));
    p.push(Tok::Star(TokKind::Digit));
    p.push(Tok::One(TokKind::Space));
    p.push(Tok::Star(TokKind::Space));
    p.push(Tok::One(TokKind::Lit('i')));
    p.push(Tok::One(TokKind::Lit('f')));
    p.push(Tok::One(TokKind::Lit('=')));
    p.push(Tok::One(TokKind::Lit('/')));
    p.push(Tok::One(TokKind::Lit('d')));
    p.push(Tok::One(TokKind::Lit('e')));
    p.push(Tok::One(TokKind::Lit('v')));
    p.push(Tok::One(TokKind::Lit('/')));
    p.push(Tok::One(TokKind::Lit('z')));
    p.push(Tok::One(TokKind::Lit('e')));
    p.push(Tok::One(TokKind::Lit('r')));
    p.push(Tok::One(TokKind::Lit('o')));
    proof {
        assert(p@ =~= pattern_10());
    }
    p
}

/// Build the rule: ping flood (-f).
fn build_pattern_11() -> (r: Vec<Tok>)
    ensures
        r@ == pattern_11(),
{
    let mut p: Vec<Tok> = Vec::new();
    p.push(Tok::One(TokKind::Lit('p')));
    p.push(Tok::One(TokKind::Lit('i')));
    p.push(Tok::One(TokKind::Lit('n')));
    p.push(Tok::One(TokKind::Lit('g')));
    p.push(Tok::One(TokKind::Space));
    p.push(Tok::Star(TokKind::Space));
    p.push(Tok::One(TokKind::Lit('-')));
    p.push(Tok::One(TokKind::Lit('f')));
    proof {
        assert(p@ =~= pattern_11());
    }
    p
}

/// Build the rule: ping flood (-t).
fn build_pattern_12() -> (r: Vec<Tok>)
    ensures
        r@ == pattern_12(),
{
    let mut p: Vec<Tok> = Vec::new();
    p.push(Tok::One(TokKind::Lit('p')));
    p.push(Tok::One(TokKind::Lit('i')));
    p.push(Tok::One(TokKind::Lit('n')));
    p.push(Tok::One(TokKind::Lit('g')));
    p.push(Tok::One(TokKind::Space));
    p.push(Tok::Star(TokKind::Space));
    p.push(Tok::One(TokKind::Lit('-')));
    p.push(Tok::One(TokKind::Lit('t')));
    proof {
        assert(p@ =~= pattern_12());
    }
    p
}

/// Build the rule: ping with a huge payload.
fn build_pattern_13() -> (r: Vec<Tok>)
    ensures
        r@ == pattern_13(),
{
    let mut p: Vec<Tok> = Vec::new();
    p.push(Tok::One(TokKind::Lit('p')));
    p.push(Tok::One(TokKind::Lit('i')));
    p.push(Tok::One(TokKind::Lit('n')));
    p.push(Tok::One(TokKind::Lit('g')));
    p.push(Tok::One(TokKind::Space));
    p.push(Tok::Star(TokKind::Space));
    p.push(Tok::One(TokKind::Lit('-')));
    p.push(Tok::One(TokKind::Lit('s')));
    p.push(Tok::One(TokKind::Space));
    p.push(Tok::Star(TokKind::Space));
    p.push(Tok::One(TokKind::Digit));
    p.push(Tok::One(TokKind::Digit));
    p.push(Tok::One(TokKind::Digit));
    p.push(Tok::One(TokKind::Digit));
    p.push(Tok::Star(TokKind::Digit));
    proof {
        assert(p@ =~= pattern_13());
    }
    p
}

/// The whole rule set, in order.
pub open spec fn malicious_patterns() -> Seq<Seq<Tok>> {
    seq![
        pattern_1(),
        pattern_2(),
        pattern_3(),
        pattern_4(),
        pattern_5(),
        pattern_6(),
        pattern_7(),
        pattern_8(),
        pattern_9(),
        pattern_10(),
        pattern_11(),
        pattern_12(),
        pattern_13(),
    ]
}

/// A command that matches at least one rule of the set.
pub open spec fn command_is_malicious(c: Seq<char>) -> bool {
    exists|p: int| 0 <= p < malicious_patterns().len() && toks_search(malicious_patterns()[p], c)
}

/// Build the whole rule set.
pub fn build_malicious_patterns() -> (r: Vec<Vec<Tok>>)
    ensures
        r@.len() == malicious_patterns().len(),
        forall|p: int| 0 <= p < r@.len() ==> r@[p]@ == malicious_patterns()[p],
{
    let mut r: Vec<Vec<Tok>> = Vec::new();
    r.push(build_pattern_1());
    r.push(build_pattern_2());
    r.push(build_pattern_3());
    r.push(build_pattern_4());
    r.push(build_pattern_5());
    r.push(build_pattern_6());
    r.push(build_pattern_7());
    r.push(build_pattern_8());
    r.push(build_pattern_9());
    r.push(build_pattern_10());
    r.push(build_pattern_11());
    r.push(build_pattern_12());
    r.push(build_pattern_13());
    r
}

/// Search every rule of a built set against one command.
pub fn any_pattern_matches(patterns: &Vec<Vec<Tok>>, s: &Vec<char>) -> (r: bool)
    requires
        patterns@.len() == malicious_patterns().len(),
        forall|p: int| 0 <= p < patterns@.len() ==> patterns@[p]@ == malicious_patterns()[p],
    ensures
        r == command_is_malicious(s@),
{
    let mut p: usize = 0;
    loop
        invariant
            p <= patterns@.len(),
            patterns@.len() == malicious_patterns().len(),
            forall|q: int| 0 <= q < patterns@.len() ==> patterns@[q]@ == malicious_patterns()[q],
            forall|q: int| 0 <= q < p ==> !toks_search(malicious_patterns()[q], s@),
        ensures
            forall|q: int|
                0 <= q < malicious_patterns().len() ==> !toks_search(malicious_patterns()[q], s@),
        decreases patterns@.len() - p,
    {
        if p == patterns.len() {
            break;
        }
        if search_pattern(&patterns[p], s) {
            return true;
        }
        p = p + 1;
    }
    false
}

} // verus!
