//! What a line typed into the input bar asks for, and the checks on the
//! numbers typed into the settings popups.
use vstd::prelude::*;

use crate::input::InputMode;
use crate::text::{chars_of, parse_unsigned, string_of, unsigned_of, word_is};

verus! {

/// The characters with the Unicode `White_Space` property, as
/// `char::is_whitespace` reads them.
pub open spec fn is_white_space(c: char) -> bool {
    let u = c as u32;
    (0x09 <= u && u <= 0x0d) || u == 0x20 || u == 0x85 || u == 0xa0 || u == 0x1680 || (0x2000 <= u
        && u <= 0x200a) || u == 0x2028 || u == 0x2029 || u == 0x202f || u == 0x205f || u == 0x3000
}

pub open spec fn trim_start(s: Seq<char>) -> Seq<char>
    decreases s.len(),
{
    if s.len() > 0 && is_white_space(s[0]) {
        trim_start(s.drop_first())
    } else {
        s
    }
}

pub open spec fn trim_end(s: Seq<char>) -> Seq<char>
    decreases s.len(),
{
    if s.len() > 0 && is_white_space(s.last()) {
        trim_end(s.drop_last())
    } else {
        s
    }
}

/// `s` without white space at either end.
pub open spec fn trimmed(s: Seq<char>) -> Seq<char> {
    trim_end(trim_start(s))
}

fn white_space(c: char) -> (r: bool)
    ensures
        r == is_white_space(c),
{
    let u = c as u32;
    (0x09 <= u && u <= 0x0d) || u == 0x20 || u == 0x85 || u == 0xa0 || u == 0x1680 || (0x2000 <= u
        && u <= 0x200a) || u == 0x2028 || u == 0x2029 || u == 0x202f || u == 0x205f || u == 0x3000
}

/// The characters of `s` without white space at either end.
fn trim_chars(s: &Vec<char>, from: usize) -> (r: Vec<char>)
    requires
        from <= s@.len(),
    ensures
        r@ == trimmed(s@.subrange(from as int, s@.len() as int)),
{
    let n = s.len();
    let mut a: usize = from;
    while a < n && white_space(s[a])
        invariant
            from <= a <= n,
            n == s@.len(),
            trim_start(s@.subrange(from as int, n as int)) == trim_start(s@.subrange(a as int, n as int)),
        decreases n - a,
    {
        assert(s@.subrange(a as int, n as int).drop_first() =~= s@.subrange(a + 1, n as int));
        a = a + 1;
    }
    let mut b: usize = n;
    while b > a && white_space(s[b - 1])
        invariant
            a <= b <= n,
            n == s@.len(),
            trim_end(s@.subrange(a as int, n as int)) == trim_end(s@.subrange(a as int, b as int)),
        decreases b,
    {
        assert(s@.subrange(a as int, b as int).drop_last() =~= s@.subrange(a as int, b - 1));
        b = b - 1;
    }
    let mut out: Vec<char> = Vec::new();
    let mut k: usize = a;
    while k < b
        invariant
            a <= k <= b <= n,
            n == s@.len(),
            out@ == s@.subrange(a as int, k as int),
        decreases b - k,
    {
        out.push(s[k]);
        k = k + 1;
        assert(out@ =~= s@.subrange(a as int, k as int));
    }
    out
}

/// `s` without white space at either end.
pub fn trim(s: &str) -> (r: String)
    ensures
        r@ == trimmed(s@),
{
    let cs = chars_of(s);
    assert(cs@.subrange(0, cs@.len() as int) =~= cs@);
    string_of(&trim_chars(&cs, 0))
}

/// What submitting the input line asks for.
#[derive(Debug, Clone, PartialEq)]
pub enum Submit {
    Nothing,
    /// Load the position of this FEN.
    LoadFen(String),
    /// Start typing a game.
    EnterPgn,
    /// Play this move, given in SAN.
    PlayMove(String),
    /// One more line of the game being typed.
    AddPgnLine(String),
    /// The game being typed is complete.
    FinishPgn,
}

pub enum SubmitModel {
    Nothing,
    LoadFen(Seq<char>),
    EnterPgn,
    PlayMove(Seq<char>),
    AddPgnLine(Seq<char>),
    FinishPgn,
}

impl View for Submit {
    type V = SubmitModel;

    open spec fn view(&self) -> SubmitModel {
        match self {
            Submit::Nothing => SubmitModel::Nothing,
            Submit::LoadFen(f) => SubmitModel::LoadFen(f@),
            Submit::EnterPgn => SubmitModel::EnterPgn,
            Submit::PlayMove(m) => SubmitModel::PlayMove(m@),
            Submit::AddPgnLine(l) => SubmitModel::AddPgnLine(l@),
            Submit::FinishPgn => SubmitModel::FinishPgn,
        }
    }
}

pub open spec fn fen_prefix() -> Seq<char> {
    seq![':', 'f', 'e', 'n', ' ']
}

pub open spec fn has_fen_prefix(t: Seq<char>) -> bool {
    t.len() >= 5 && t.subrange(0, 5) == fen_prefix()
}

/// What the line `t`, typed in `mode`, asks for. In the command line a line
/// is a FEN command (`:fen <FEN>`), `:pgn`, or a move; in FEN mode the
/// `:fen ` in front is optional; in PGN mode an empty line ends the game.
pub open spec fn submit_of(mode: InputMode, t: Seq<char>) -> SubmitModel {
    match mode {
        InputMode::Pgn => if t.len() == 0 {
            SubmitModel::FinishPgn
        } else {
            SubmitModel::AddPgnLine(t)
        },
        InputMode::Fen => {
            let f = trimmed(
                if has_fen_prefix(t) {
                    t.subrange(5, t.len() as int)
                } else {
                    t
                },
            );
            if f.len() == 0 {
                SubmitModel::Nothing
            } else {
                SubmitModel::LoadFen(f)
            }
        },
        _ => if t.len() == 0 {
            SubmitModel::Nothing
        } else if has_fen_prefix(t) {
            SubmitModel::LoadFen(trimmed(t.subrange(5, t.len() as int)))
        } else if t == ":pgn"@ {
            SubmitModel::EnterPgn
        } else {
            SubmitModel::PlayMove(t)
        },
    }
}

fn starts_with_fen(t: &Vec<char>) -> (r: bool)
    ensures
        r == has_fen_prefix(t@),
{
    let r = t.len() >= 5 && t[0] == ':' && t[1] == 'f' && t[2] == 'e' && t[3] == 'n' && t[4] == ' ';
    if t.len() >= 5 {
        assert(r == (t@.subrange(0, 5) =~= fen_prefix()));
    }
    r
}

/// What the line `text`, typed in `mode`, asks for.
pub fn submit_action(mode: InputMode, text: &str) -> (r: Submit)
    ensures
        r@ == submit_of(mode, text@),
{
    let t = chars_of(text);
    match mode {
        InputMode::Pgn => {
            if t.len() == 0 {
                Submit::FinishPgn
            } else {
                Submit::AddPgnLine(string_of(&t))
            }
        },
        InputMode::Fen => {
            let from: usize = if starts_with_fen(&t) {
                5
            } else {
                0
            };
            assert(t@.subrange(0, t@.len() as int) =~= t@);
            let f = trim_chars(&t, from);
            if f.len() == 0 {
                Submit::Nothing
            } else {
                Submit::LoadFen(string_of(&f))
            }
        },
        _ => {
            if t.len() == 0 {
                Submit::Nothing
            } else if starts_with_fen(&t) {
                Submit::LoadFen(string_of(&trim_chars(&t, 5)))
            } else if word_is(&t, ":pgn") {
                Submit::EnterPgn
            } else {
                Submit::PlayMove(string_of(&t))
            }
        },
    }
}

/// Why a number typed into a settings popup was refused.
#[derive(Debug, Clone, Copy, PartialEq, Eq, Structural)]
pub enum SettingError {
    /// The text is not a number.
    NotANumber,
    /// The number is outside the range allowed.
    OutOfRange,
}

/// The `u32` a text spells as `u32::from_str` reads it: digits, with an
/// optional `+` in front.
pub open spec fn u32_of(s: Seq<char>) -> Option<nat> {
    if s.len() > 0 && s[0] == '+' {
        unsigned_of(s.subrange(1, s.len() as int), 0xffff_ffff)
    } else {
        unsigned_of(s, 0xffff_ffff)
    }
}

/// A setting typed as text: a number from 1 to `max`.
pub open spec fn setting_of(s: Seq<char>, max: u32) -> Result<u32, SettingError> {
    match u32_of(s) {
        None => Err(SettingError::NotANumber),
        Some(v) => if 1 <= v && v <= max {
            Ok(v as u32)
        } else {
            Err(SettingError::OutOfRange)
        },
    }
}

/// Reads a setting typed as text, a number from 1 to `max`.
pub fn parse_setting(input: &str, max: u32) -> (r: Result<u32, SettingError>)
    ensures
        r == setting_of(input@, max),
{
    let t = chars_of(input);
    let v = if t.len() > 0 && t[0] == '+' {
        parse_unsigned(&t, 1, 0xffff_ffff)
    } else {
        assert(t@.subrange(0, t@.len() as int) =~= t@);
        parse_unsigned(&t, 0, 0xffff_ffff)
    };
    match v {
        None => Err(SettingError::NotANumber),
        Some(n) => if 1 <= n && n <= max as u64 {
            Ok(n as u32)
        } else {
            Err(SettingError::OutOfRange)
        },
    }
}

/// A search depth typed as text: 1 to 100.
pub fn parse_depth(input: &str) -> (r: Result<u32, SettingError>)
    ensures
        r == setting_of(input@, 100),
{
    parse_setting(input, 100)
}

/// A number of lines typed as text: 1 to 10.
pub fn parse_multipv(input: &str) -> (r: Result<u32, SettingError>)
    ensures
        r == setting_of(input@, 10),
{
    parse_setting(input, 10)
}

} // verus!
