//! The moves of a game written in PGN: tags, comments, variations, move
//! numbers, results and annotation marks are left out.
use vstd::prelude::*;

use crate::text::{chars_of, split_words, string_of, view_strings, view_words, word_is, words};

verus! {

pub open spec fn starts_with(w: Seq<char>, c: char) -> bool {
    w.len() > 0 && w[0] == c
}

pub open spec fn ends_with(w: Seq<char>, c: char) -> bool {
    w.len() > 0 && w.last() == c
}

/// `w` without the copies of `c` at its end.
pub open spec fn trim_end(w: Seq<char>, c: char) -> Seq<char>
    decreases w.len(),
{
    if ends_with(w, c) {
        trim_end(w.drop_last(), c)
    } else {
        w
    }
}

/// A move without its annotation marks (`!`, `?`, check and mate signs).
pub open spec fn clean_move(w: Seq<char>) -> Seq<char> {
    trim_end(trim_end(trim_end(trim_end(w, '!'), '?'), '+'), '#')
}

pub open spec fn is_result(w: Seq<char>) -> bool {
    w == "1-0"@ || w == "0-1"@ || w == "1/2-1/2"@ || w == "*"@
}

/// Reading state: inside a comment, and how many variations were opened
/// and closed.
pub struct ReadState {
    pub in_comment: bool,
    pub opened: nat,
    pub closed: nat,
}

/// The state after word `w`, and the move it gives, if any.
pub open spec fn step(s: ReadState, w: Seq<char>) -> (ReadState, Option<Seq<char>>) {
    if starts_with(w, '[') {
        (s, None)
    } else {
        let in_comment = s.in_comment || starts_with(w, '{');
        if ends_with(w, '}') {
            (ReadState { in_comment: false, ..s }, None)
        } else if in_comment {
            (ReadState { in_comment: true, ..s }, None)
        } else {
            let opened = if starts_with(w, '(') {
                s.opened + 1
            } else {
                s.opened
            };
            let s2 = ReadState { in_comment: false, opened, closed: s.closed };
            if ends_with(w, ')') {
                (ReadState { closed: s.closed + 1, ..s2 }, None)
            } else if opened > s.closed {
                (s2, None)
            } else if ends_with(w, '.') || w == "..."@ || is_result(w) || clean_move(w).len() == 0 {
                (s2, None)
            } else {
                (s2, Some(clean_move(w)))
            }
        }
    }
}

/// The moves of the words `ws`, read from state `s`.
pub open spec fn moves_from(s: ReadState, ws: Seq<Seq<char>>) -> Seq<Seq<char>>
    decreases ws.len(),
{
    if ws.len() == 0 {
        seq![]
    } else {
        let (s2, m) = step(s, ws[0]);
        (match m {
            Some(x) => seq![x],
            None => seq![],
        }) + moves_from(s2, ws.drop_first())
    }
}

pub open spec fn start_state() -> ReadState {
    ReadState { in_comment: false, opened: 0, closed: 0 }
}

/// The moves of a PGN text, in order.
pub open spec fn pgn_moves(text: Seq<char>) -> Seq<Seq<char>> {
    moves_from(start_state(), words(text))
}

fn first_is(w: &Vec<char>, c: char) -> (r: bool)
    ensures
        r == starts_with(w@, c),
{
    w.len() > 0 && w[0] == c
}

fn last_is(w: &Vec<char>, c: char) -> (r: bool)
    ensures
        r == ends_with(w@, c),
{
    w.len() > 0 && w[w.len() - 1] == c
}

fn trim_end_exec(w: &mut Vec<char>, c: char)
    ensures
        final(w)@ == trim_end(old(w)@, c),
{
    while w.len() > 0 && w[w.len() - 1] == c
        invariant
            trim_end(w@, c) == trim_end(old(w)@, c),
        decreases w@.len(),
    {
        let ghost before = w@;
        w.pop();
        assert(w@ =~= before.drop_last());
    }
}

proof fn lemma_moves_unfold(s: ReadState, ws: Seq<Seq<char>>, i: int)
    requires
        0 <= i < ws.len(),
    ensures
        moves_from(s, ws.subrange(i, ws.len() as int)) == (match step(s, ws[i]).1 {
            Some(x) => seq![x],
            None => seq![],
        }) + moves_from(step(s, ws[i]).0, ws.subrange(i + 1, ws.len() as int)),
{
    assert(ws.subrange(i, ws.len() as int).drop_first() =~= ws.subrange(i + 1, ws.len() as int));
}

/// The moves of a game in PGN, in the order played.
pub fn movetext_moves(pgn: &str) -> (r: Vec<String>)
    ensures
        view_strings(r@) == pgn_moves(pgn@),
{
    let cs = chars_of(pgn);
    let t = split_words(&cs);
    let ghost tv = view_words(t@);
    let mut out: Vec<String> = Vec::new();
    let mut in_comment = false;
    let mut opened: usize = 0;
    let mut closed: usize = 0;
    let mut i: usize = 0;
    assert(tv.subrange(0, tv.len() as int) =~= tv);
    while i < t.len()
        invariant
            tv == view_words(t@),
            tv == words(pgn@),
            i <= t@.len(),
            opened <= i,
            closed <= i,
            view_strings(out@) + moves_from(
                ReadState { in_comment, opened: opened as nat, closed: closed as nat },
                tv.subrange(i as int, tv.len() as int),
            ) == pgn_moves(pgn@),
        decreases t@.len() - i,
    {
        let ghost s = ReadState { in_comment, opened: opened as nat, closed: closed as nat };
        proof {
            lemma_moves_unfold(s, tv, i as int);
        }
        let ghost before = view_strings(out@);
        let w = &t[i];
        assert(tv[i as int] == w@);
        let mut emitted: Option<String> = None;
        if first_is(w, '[') {
        } else {
            let ic = in_comment || first_is(w, '{');
            if last_is(w, '}') {
                in_comment = false;
            } else if ic {
                in_comment = true;
            } else {
                in_comment = false;
                if first_is(w, '(') {
                    opened = opened + 1;
                }
                if last_is(w, ')') {
                    closed = closed + 1;
                } else if opened > closed {
                } else if last_is(w, '.') || word_is(w, "...") || word_is(w, "1-0") || word_is(
                    w,
                    "0-1",
                ) || word_is(w, "1/2-1/2") || word_is(w, "*") {
                } else {
                    let mut m = w.clone();
                    assert(m@ == w@);
                    trim_end_exec(&mut m, '!');
                    trim_end_exec(&mut m, '?');
                    trim_end_exec(&mut m, '+');
                    trim_end_exec(&mut m, '#');
                    if m.len() > 0 {
                        emitted = Some(string_of(&m));
                    }
                }
            }
        }
        let ghost em = step(s, w@).1;
        match emitted {
            Some(x) => {
                assert(em == Some(x@));
                out.push(x);
                assert(view_strings(out@) =~= before + seq![em->0]);
            },
            None => {
                assert(em is None);
                assert(view_strings(out@) =~= before + seq![]);
            },
        }
        assert(step(s, w@).0 == ReadState { in_comment, opened: opened as nat, closed: closed as nat });
        i = i + 1;
    }
    assert(tv.subrange(i as int, tv.len() as int) =~= Seq::<Seq<char>>::empty());
    assert(view_strings(out@) + seq![] =~= view_strings(out@));
    out
}

} // verus!
