//! Decoding of the engine's output lines into events, and the text of a score.
use vstd::prelude::*;

use crate::text::{
    chars_of, decimal_chars, decimal_of, digit_char, join_range, join_words, parse_signed,
    parse_unsigned, push_all, signed_of, split_words, string_of, unsigned_of, view_strings,
    view_words, word_is, words,
};

verus! {

/// One `info` report of the engine. Every field is optional; `multipv` is
/// the 1-based rank of the line the report belongs to.
#[derive(Debug, Clone)]
pub struct AnalysisInfo {
    pub depth: Option<u32>,
    pub seldepth: Option<u32>,
    /// Score in centipawns (positive = white advantage).
    pub score_cp: Option<i32>,
    /// Mate in N moves (positive = white mates).
    pub score_mate: Option<i32>,
    pub nodes: Option<u64>,
    pub nps: Option<u64>,
    pub time_ms: Option<u64>,
    pub multipv: Option<u32>,
    /// Principal variation, in the engine's own move notation.
    pub pv: Vec<String>,
    /// Hash table usage, per mille.
    pub hashfull: Option<u32>,
}

/// The mathematical content of an [`AnalysisInfo`].
pub struct InfoModel {
    pub depth: Option<u32>,
    pub seldepth: Option<u32>,
    pub score_cp: Option<i32>,
    pub score_mate: Option<i32>,
    pub nodes: Option<u64>,
    pub nps: Option<u64>,
    pub time_ms: Option<u64>,
    pub multipv: Option<u32>,
    pub pv: Seq<Seq<char>>,
    pub hashfull: Option<u32>,
}

impl View for AnalysisInfo {
    type V = InfoModel;

    open spec fn view(&self) -> InfoModel {
        InfoModel {
            depth: self.depth,
            seldepth: self.seldepth,
            score_cp: self.score_cp,
            score_mate: self.score_mate,
            nodes: self.nodes,
            nps: self.nps,
            time_ms: self.time_ms,
            multipv: self.multipv,
            pv: view_strings(self.pv@),
            hashfull: self.hashfull,
        }
    }
}

/// A report with no field set: the placeholder of a line not yet seen.
pub open spec fn empty_info() -> InfoModel {
    InfoModel {
        depth: None,
        seldepth: None,
        score_cp: None,
        score_mate: None,
        nodes: None,
        nps: None,
        time_ms: None,
        multipv: None,
        pv: seq![],
        hashfull: None,
    }
}

impl Default for AnalysisInfo {
    fn default() -> (r: AnalysisInfo)
        ensures
            r@ == empty_info(),
    {
        let r = AnalysisInfo {
            depth: None,
            seldepth: None,
            score_cp: None,
            score_mate: None,
            nodes: None,
            nps: None,
            time_ms: None,
            multipv: None,
            pv: Vec::new(),
            hashfull: None,
        };
        assert(view_strings(r.pv@) =~= seq![]);
        r
    }
}

/// The engine's final answer to a search.
#[derive(Debug, Clone)]
pub struct BestMove {
    pub best_move: String,
    pub ponder: Option<String>,
}

/// A message from the engine.
#[derive(Debug, Clone)]
pub enum EngineEvent {
    /// The engine finished the handshake (`uciok`) or answered `isready`.
    Ready,
    Info(AnalysisInfo),
    /// The search is over.
    BestMove(BestMove),
    Error(String),
    Id { name: Option<String>, author: Option<String> },
    /// The engine advertised an option of this name.
    Option(String),
}

pub enum EventModel {
    Ready,
    Info(InfoModel),
    BestMove(Seq<char>, Option<Seq<char>>),
    Error(Seq<char>),
    Id(Option<Seq<char>>, Option<Seq<char>>),
    OptionName(Seq<char>),
}

pub open spec fn opt_view(o: Option<String>) -> Option<Seq<char>> {
    match o {
        Some(s) => Some(s@),
        None => None,
    }
}

impl View for EngineEvent {
    type V = EventModel;

    open spec fn view(&self) -> EventModel {
        match self {
            EngineEvent::Ready => EventModel::Ready,
            EngineEvent::Info(i) => EventModel::Info(i@),
            EngineEvent::BestMove(b) => EventModel::BestMove(b.best_move@, opt_view(b.ponder)),
            EngineEvent::Error(e) => EventModel::Error(e@),
            EngineEvent::Id { name, author } => EventModel::Id(opt_view(*name), opt_view(*author)),
            EngineEvent::Option(n) => EventModel::OptionName(n@),
        }
    }
}

pub open spec fn event_view(e: Option<EngineEvent>) -> Option<EventModel> {
    match e {
        Some(ev) => Some(ev@),
        None => None,
    }
}

/// The words that start an attribute of an `info` line; a principal
/// variation runs up to the next of them.
pub open spec fn is_info_keyword(w: Seq<char>) -> bool {
    w == "depth"@ || w == "seldepth"@ || w == "time"@ || w == "nodes"@ || w == "pv"@ || w
        == "multipv"@ || w == "score"@ || w == "currmove"@ || w == "currmovenumber"@ || w
        == "hashfull"@ || w == "nps"@ || w == "tbhits"@ || w == "sbhits"@ || w == "cpuload"@
        || w == "string"@ || w == "refutation"@ || w == "currline"@
}

/// First index from `j` on that holds an attribute keyword, or the end.
pub open spec fn pv_end(t: Seq<Seq<char>>, j: int) -> int
    decreases t.len() - j,
{
    if j < 0 || j >= t.len() || is_info_keyword(t[j]) {
        j
    } else {
        pv_end(t, j + 1)
    }
}

/// A numeric attribute `k v`, applied to `a`; `None` where `k` names no
/// numeric attribute or `v` is not a number in its range.
pub open spec fn numeric_attr(k: Seq<char>, v: Seq<char>, a: InfoModel) -> Option<InfoModel> {
    let m32: nat = 0xffff_ffff;
    let m64: nat = 0xffff_ffff_ffff_ffff;
    if k == "depth"@ {
        match unsigned_of(v, m32) {
            Some(n) => Some(InfoModel { depth: Some(n as u32), ..a }),
            None => None,
        }
    } else if k == "seldepth"@ {
        match unsigned_of(v, m32) {
            Some(n) => Some(InfoModel { seldepth: Some(n as u32), ..a }),
            None => None,
        }
    } else if k == "nodes"@ {
        match unsigned_of(v, m64) {
            Some(n) => Some(InfoModel { nodes: Some(n as u64), ..a }),
            None => None,
        }
    } else if k == "nps"@ {
        match unsigned_of(v, m64) {
            Some(n) => Some(InfoModel { nps: Some(n as u64), ..a }),
            None => None,
        }
    } else if k == "time"@ {
        match unsigned_of(v, m64) {
            Some(n) => Some(InfoModel { time_ms: Some(n as u64), ..a }),
            None => None,
        }
    } else if k == "multipv"@ {
        match unsigned_of(v, m32) {
            Some(n) => Some(InfoModel { multipv: Some(n as u32), ..a }),
            None => None,
        }
    } else if k == "hashfull"@ {
        match unsigned_of(v, m32) {
            Some(n) => Some(InfoModel { hashfull: Some(n as u32), ..a }),
            None => None,
        }
    } else {
        None
    }
}

/// `score cp N` or `score mate N` at `t[i..]`, applied to `a`: the one kind
/// of score is set and the other cleared.
pub open spec fn score_attr(t: Seq<Seq<char>>, i: int, a: InfoModel) -> Option<InfoModel> {
    if 0 <= i && i + 2 < t.len() && t[i] == "score"@ {
        match signed_of(t[i + 2]) {
            Some(v) => if t[i + 1] == "cp"@ {
                Some(InfoModel { score_cp: Some(v as i32), score_mate: None, ..a })
            } else if t[i + 1] == "mate"@ {
                Some(InfoModel { score_cp: None, score_mate: Some(v as i32), ..a })
            } else {
                None
            },
            None => None,
        }
    } else {
        None
    }
}

/// The attributes of an `info` line from word `i` on, applied to `a` in
/// order. A word that starts no attribute it can read is skipped; `string`
/// makes the rest of the line a comment.
pub open spec fn info_from(t: Seq<Seq<char>>, i: int, a: InfoModel) -> InfoModel
    decreases t.len() - i,
{
    if i < 0 || i >= t.len() {
        a
    } else if t[i] == "string"@ {
        a
    } else if t[i] == "pv"@ {
        let j = pv_end(t, i + 1);
        if i < j <= t.len() {
            info_from(t, j, InfoModel { pv: t.subrange(i + 1, j), ..a })
        } else {
            a
        }
    } else if score_attr(t, i, a) is Some {
        info_from(t, i + 3, score_attr(t, i, a)->0)
    } else if i + 1 < t.len() && numeric_attr(t[i], t[i + 1], a) is Some {
        info_from(t, i + 2, numeric_attr(t[i], t[i + 1], a)->0)
    } else {
        info_from(t, i + 1, a)
    }
}

/// First index from `j` on that holds the word `w`, or the end.
pub open spec fn find_word(t: Seq<Seq<char>>, j: int, w: Seq<char>) -> int
    decreases t.len() - j,
{
    if j < 0 || j >= t.len() {
        t.len() as int
    } else if t[j] == w {
        j
    } else {
        find_word(t, j + 1, w)
    }
}

/// The event a line of words stands for, if any.
pub open spec fn decode_words(t: Seq<Seq<char>>) -> Option<EventModel> {
    if t.len() == 0 {
        None
    } else if t[0] == "uciok"@ || t[0] == "readyok"@ {
        if t.len() == 1 {
            Some(EventModel::Ready)
        } else {
            None
        }
    } else if t[0] == "id"@ {
        if t.len() >= 3 && t[1] == "name"@ {
            Some(EventModel::Id(Some(join_words(t.subrange(2, t.len() as int))), None))
        } else if t.len() >= 3 && t[1] == "author"@ {
            Some(EventModel::Id(None, Some(join_words(t.subrange(2, t.len() as int)))))
        } else {
            None
        }
    } else if t[0] == "info"@ {
        Some(EventModel::Info(info_from(t, 1, empty_info())))
    } else if t[0] == "bestmove"@ {
        if t.len() >= 2 {
            Some(
                EventModel::BestMove(
                    t[1],
                    if t.len() >= 4 && t[2] == "ponder"@ {
                        Some(t[3])
                    } else {
                        None
                    },
                ),
            )
        } else {
            None
        }
    } else if t[0] == "option"@ {
        if t.len() >= 4 && t[1] == "name"@ && find_word(t, 3, "type"@) < t.len() {
            Some(EventModel::OptionName(join_words(t.subrange(2, find_word(t, 3, "type"@)))))
        } else {
            None
        }
    } else {
        None
    }
}

/// The event an output line of the engine stands for, if any.
pub open spec fn decode_spec(line: Seq<char>) -> Option<EventModel> {
    decode_words(words(line))
}

fn is_keyword(w: &Vec<char>) -> (r: bool)
    ensures
        r == is_info_keyword(w@),
{
    word_is(w, "depth") || word_is(w, "seldepth") || word_is(w, "time") || word_is(w, "nodes")
        || word_is(w, "pv") || word_is(w, "multipv") || word_is(w, "score") || word_is(
        w,
        "currmove",
    ) || word_is(w, "currmovenumber") || word_is(w, "hashfull") || word_is(w, "nps")
        || word_is(w, "tbhits") || word_is(w, "sbhits") || word_is(w, "cpuload") || word_is(
        w,
        "string",
    ) || word_is(w, "refutation") || word_is(w, "currline")
}

proof fn lemma_pv_end_range(t: Seq<Seq<char>>, j: int)
    requires
        0 <= j <= t.len(),
    ensures
        j <= pv_end(t, j) <= t.len(),
    decreases t.len() - j,
{
    if j < t.len() && !is_info_keyword(t[j]) {
        lemma_pv_end_range(t, j + 1);
    }
}

fn find_pv_end(t: &Vec<Vec<char>>, j: usize) -> (r: usize)
    requires
        j <= t@.len(),
    ensures
        r == pv_end(view_words(t@), j as int),
        j <= r <= t@.len(),
{
    let ghost tv = view_words(t@);
    let mut k: usize = j;
    while k < t.len() && !is_keyword(&t[k])
        invariant
            j <= k <= t@.len(),
            tv == view_words(t@),
            pv_end(tv, j as int) == pv_end(tv, k as int),
        decreases t@.len() - k,
    {
        k = k + 1;
    }
    k
}

fn strings_of_range(t: &Vec<Vec<char>>, from: usize, to: usize) -> (r: Vec<String>)
    requires
        from <= to <= t@.len(),
    ensures
        view_strings(r@) == view_words(t@).subrange(from as int, to as int),
{
    let mut out: Vec<String> = Vec::new();
    let mut k: usize = from;
    while k < to
        invariant
            from <= k <= to <= t@.len(),
            view_strings(out@) == view_words(t@).subrange(from as int, k as int),
        decreases to - k,
    {
        let s = string_of(&t[k]);
        let ghost before = view_strings(out@);
        out.push(s);
        assert(view_words(t@)[k as int] == t@[k as int]@);
        assert(view_strings(out@) =~= before.push(s@));
        assert(view_strings(out@) =~= view_words(t@).subrange(from as int, k + 1));
        k = k + 1;
    }
    out
}

/// Applies the numeric attribute `k v` to `info`, where `k` names one.
fn apply_numeric(k: &Vec<char>, v: &Vec<char>, info: &mut AnalysisInfo) -> (r: bool)
    ensures
        r == numeric_attr(k@, v@, old(info)@) is Some,
        r ==> final(info)@ == numeric_attr(k@, v@, old(info)@)->0,
        !r ==> *final(info) == *old(info),
{
    assert(v@.subrange(0, v@.len() as int) =~= v@);
    if word_is(k, "depth") {
        match parse_unsigned(v, 0, 0xffff_ffff) {
            Some(n) => {
                info.depth = Some(n as u32);
                true
            },
            None => false,
        }
    } else if word_is(k, "seldepth") {
        match parse_unsigned(v, 0, 0xffff_ffff) {
            Some(n) => {
                info.seldepth = Some(n as u32);
                true
            },
            None => false,
        }
    } else if word_is(k, "nodes") {
        match parse_unsigned(v, 0, 0xffff_ffff_ffff_ffff) {
            Some(n) => {
                info.nodes = Some(n);
                true
            },
            None => false,
        }
    } else if word_is(k, "nps") {
        match parse_unsigned(v, 0, 0xffff_ffff_ffff_ffff) {
            Some(n) => {
                info.nps = Some(n);
                true
            },
            None => false,
        }
    } else if word_is(k, "time") {
        match parse_unsigned(v, 0, 0xffff_ffff_ffff_ffff) {
            Some(n) => {
                info.time_ms = Some(n);
                true
            },
            None => false,
        }
    } else if word_is(k, "multipv") {
        match parse_unsigned(v, 0, 0xffff_ffff) {
            Some(n) => {
                info.multipv = Some(n as u32);
                true
            },
            None => false,
        }
    } else if word_is(k, "hashfull") {
        match parse_unsigned(v, 0, 0xffff_ffff) {
            Some(n) => {
                info.hashfull = Some(n as u32);
                true
            },
            None => false,
        }
    } else {
        false
    }
}

/// Applies `score cp N` / `score mate N` at `t[i..]` to `info`, where it stands there.
fn apply_score(t: &Vec<Vec<char>>, i: usize, info: &mut AnalysisInfo) -> (r: bool)
    requires
        i < t@.len(),
    ensures
        r == score_attr(view_words(t@), i as int, old(info)@) is Some,
        r ==> final(info)@ == score_attr(view_words(t@), i as int, old(info)@)->0,
        !r ==> *final(info) == *old(info),
{
    if t.len() > 2 && i < t.len() - 2 && word_is(&t[i], "score") {
        match parse_signed(&t[i + 2]) {
            Some(v) => {
                if word_is(&t[i + 1], "cp") {
                    info.score_cp = Some(v);
                    info.score_mate = None;
                    true
                } else if word_is(&t[i + 1], "mate") {
                    info.score_cp = None;
                    info.score_mate = Some(v);
                    true
                } else {
                    false
                }
            },
            None => false,
        }
    } else {
        false
    }
}

/// Reads the attributes of an `info` line from word `start` on.
pub fn parse_info(t: &Vec<Vec<char>>, start: usize) -> (r: AnalysisInfo)
    requires
        start <= t@.len(),
    ensures
        r@ == info_from(view_words(t@), start as int, empty_info()),
{
    let ghost tv = view_words(t@);
    let mut info = AnalysisInfo::default();
    let mut i: usize = start;
    while i < t.len()
        invariant
            i <= t@.len(),
            tv == view_words(t@),
            info_from(tv, i as int, info@) == info_from(tv, start as int, empty_info()),
        decreases t@.len() - i,
    {
        if word_is(&t[i], "string") {
            return info;
        } else if word_is(&t[i], "pv") {
            let j = find_pv_end(t, i + 1);
            info.pv = strings_of_range(t, i + 1, j);
            i = j;
        } else if apply_score(t, i, &mut info) {
            i = i + 3;
        } else if i + 1 < t.len() && apply_numeric(&t[i], &t[i + 1], &mut info) {
            i = i + 2;
        } else {
            i = i + 1;
        }
    }
    info
}

/// Finds the word `w` in `t` from index `j` on.
fn find_type(t: &Vec<Vec<char>>, j: usize) -> (r: usize)
    requires
        j <= t@.len(),
    ensures
        r == find_word(view_words(t@), j as int, "type"@),
        j <= r <= t@.len(),
{
    let ghost tv = view_words(t@);
    let mut k: usize = j;
    while k < t.len() && !word_is(&t[k], "type")
        invariant
            j <= k <= t@.len(),
            tv == view_words(t@),
            find_word(tv, j as int, "type"@) == find_word(tv, k as int, "type"@),
        decreases t@.len() - k,
    {
        k = k + 1;
    }
    k
}

/// The event a line of words stands for, if any.
pub fn decode_word_list(t: &Vec<Vec<char>>) -> (r: Option<EngineEvent>)
    ensures
        event_view(r) == decode_words(view_words(t@)),
{
    let ghost tv = view_words(t@);
    let n = t.len();
    if n == 0 {
        return None;
    }
    if word_is(&t[0], "uciok") || word_is(&t[0], "readyok") {
        if n == 1 {
            Some(EngineEvent::Ready)
        } else {
            None
        }
    } else if word_is(&t[0], "id") {
        if n >= 3 && word_is(&t[1], "name") {
            let name = string_of(&join_range(t, 2, n));
            Some(EngineEvent::Id { name: Some(name), author: None })
        } else if n >= 3 && word_is(&t[1], "author") {
            let author = string_of(&join_range(t, 2, n));
            Some(EngineEvent::Id { name: None, author: Some(author) })
        } else {
            None
        }
    } else if word_is(&t[0], "info") {
        Some(EngineEvent::Info(parse_info(t, 1)))
    } else if word_is(&t[0], "bestmove") {
        if n >= 2 {
            let ponder = if n >= 4 && word_is(&t[2], "ponder") {
                Some(string_of(&t[3]))
            } else {
                None
            };
            Some(EngineEvent::BestMove(BestMove { best_move: string_of(&t[1]), ponder }))
        } else {
            None
        }
    } else if word_is(&t[0], "option") {
        if n >= 4 && word_is(&t[1], "name") {
            let k = find_type(t, 3);
            if k < n {
                Some(EngineEvent::Option(string_of(&join_range(t, 2, k))))
            } else {
                None
            }
        } else {
            None
        }
    } else {
        None
    }
}

/// Decodes one output line of the engine. Blank, unknown and malformed
/// lines give no event.
pub fn decode_line(line: &str) -> (r: Option<EngineEvent>)
    ensures
        event_view(r) == decode_spec(line@),
{
    let cs = chars_of(line);
    let ws = split_words(&cs);
    decode_word_list(&ws)
}

/// The text of a score: `M3` / `-M2` for a mate, `+0.34` / `-1.20` for
/// centipawns, `---` for none. A mate wins over centipawns.
pub open spec fn score_text(cp: Option<i32>, mate: Option<i32>) -> Seq<char> {
    match mate {
        Some(m) => if m > 0 {
            seq!['M'] + decimal_of(m as nat)
        } else {
            seq!['-', 'M'] + decimal_of((-m) as nat)
        },
        None => match cp {
            Some(c) => {
                let a: nat = if c >= 0 {
                    c as nat
                } else {
                    (-c) as nat
                };
                (if c >= 0 {
                    seq!['+']
                } else {
                    seq!['-']
                }) + decimal_of(a / 100) + seq!['.', digit_char((a % 100) / 10), digit_char(a % 10)]
            },
            None => seq!['-', '-', '-'],
        },
    }
}

/// The principal variation read from `t[i..]` is the one `a` had, or a run
/// of consecutive words of `t`.
pub proof fn lemma_info_pv_is_run(t: Seq<Seq<char>>, i: int, a: InfoModel)
    ensures
        info_from(t, i, a).pv == a.pv || exists|x: int, y: int|
            0 <= x <= y <= t.len() && info_from(t, i, a).pv == #[trigger] t.subrange(x, y),
    decreases t.len() - i,
{
    if i < 0 || i >= t.len() || t[i] == "string"@ {
    } else if t[i] == "pv"@ {
        let j = pv_end(t, i + 1);
        if i < j <= t.len() {
            let a2 = InfoModel { pv: t.subrange(i + 1, j), ..a };
            lemma_info_pv_is_run(t, j, a2);
            if info_from(t, j, a2).pv == a2.pv {
                assert(0 <= i + 1 <= j <= t.len() && info_from(t, i, a).pv == t.subrange(i + 1, j));
            }
        }
    } else if score_attr(t, i, a) is Some {
        lemma_info_pv_is_run(t, i + 3, score_attr(t, i, a)->0);
    } else if i + 1 < t.len() && numeric_attr(t[i], t[i + 1], a) is Some {
        lemma_info_pv_is_run(t, i + 2, numeric_attr(t[i], t[i + 1], a)->0);
    } else {
        lemma_info_pv_is_run(t, i + 1, a);
    }
}

proof fn lemma_pv_end_no_keyword(t: Seq<Seq<char>>, j: int)
    requires
        0 <= j <= t.len(),
        forall|k: int| j <= k < t.len() ==> !is_info_keyword(#[trigger] t[k]),
    ensures
        pv_end(t, j) == t.len(),
    decreases t.len() - j,
{
    if j < t.len() {
        lemma_pv_end_no_keyword(t, j + 1);
    }
}

/// An `info pv m1 m2 ...` line whose moves are no attribute keywords
/// decodes to a report whose principal variation is exactly those moves,
/// in order, each unchanged.
pub proof fn pv_line_gives_its_moves(moves: Seq<Seq<char>>)
    requires
        forall|k: int| 0 <= k < moves.len() ==> !is_info_keyword(#[trigger] moves[k]),
    ensures
        decode_words(seq!["info"@, "pv"@] + moves) matches Some(EventModel::Info(m)) && m.pv
            == moves,
{
    let t = seq!["info"@, "pv"@] + moves;
    reveal_strlit("info");
    reveal_strlit("pv");
    reveal_strlit("string");
    reveal_strlit("uciok");
    reveal_strlit("readyok");
    reveal_strlit("id");
    assert(t[0] == "info"@);
    assert(t[1] == "pv"@);
    assert(t[1] != "string"@);
    assert(t[0] != "uciok"@);
    assert(t[0] != "readyok"@);
    assert(t[0] != "id"@);
    assert forall|k: int| 2 <= k < t.len() implies !is_info_keyword(#[trigger] t[k]) by {
        assert(t[k] == moves[k - 2]);
    }
    lemma_pv_end_no_keyword(t, 2);
    let a2 = InfoModel { pv: t.subrange(2, t.len() as int), ..empty_info() };
    assert(info_from(t, 1, empty_info()) == info_from(t, t.len() as int, a2));
    assert(t.subrange(2, t.len() as int) =~= moves);
}

fn small_digit(d: u64) -> (c: char)
    requires
        d < 10,
    ensures
        c == digit_char(d as nat),
{
    let v = decimal_chars(d);
    assert(v@ == seq![digit_char(d as nat)]);
    v[0]
}

/// Formats a score for display.
pub fn format_score(cp: Option<i32>, mate: Option<i32>) -> (r: String)
    ensures
        r@ == score_text(cp, mate),
{
    let mut out: Vec<char> = Vec::new();
    match mate {
        Some(m) => {
            if m > 0 {
                out.push('M');
                push_all(&mut out, &decimal_chars(m as u64));
            } else {
                out.push('-');
                out.push('M');
                push_all(&mut out, &decimal_chars((0 - (m as i64)) as u64));
            }
        },
        None => match cp {
            Some(c) => {
                let a: u64 = if c >= 0 {
                    c as u64
                } else {
                    (0 - (c as i64)) as u64
                };
                out.push(if c >= 0 {
                    '+'
                } else {
                    '-'
                });
                push_all(&mut out, &decimal_chars(a / 100));
                out.push('.');
                out.push(small_digit((a % 100) / 10));
                out.push(small_digit(a % 10));
            },
            None => {
                out.push('-');
                out.push('-');
                out.push('-');
            },
        },
    }
    assert(out@ =~= score_text(cp, mate));
    string_of(&out)
}

} // verus!
