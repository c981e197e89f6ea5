//! The client side of the engine protocol: the handshake, the analyzing
//! flag, and the text of each command. Writing the commands to the engine
//! and reading its output is left to the caller.
use vstd::prelude::*;

use crate::protocol::{opt_view, EngineEvent};
use crate::text::{decimal_chars, decimal_of, join_words, push_str, string_of, view_strings};

verus! {

/// Where the client stands in its life.
#[derive(Debug, Clone, Copy, PartialEq, Eq, Structural)]
pub enum Phase {
    /// `uci` sent, waiting for `uciok`.
    Handshaking,
    Ready,
    /// `quit` sent.
    Closed,
}

/// Why an engine could not be used.
#[derive(Debug, Clone, Copy, PartialEq, Eq, Structural)]
pub enum EngineError {
    /// The executable could not be started.
    Launch,
    /// No `uciok` within the time allowed.
    HandshakeTimeout,
    /// The engine's output ended during the handshake.
    Terminated,
    /// A command could not be written.
    Io,
}

/// What one poll of the engine's output queue gave.
#[derive(Debug, Clone)]
pub enum Poll {
    Event(EngineEvent),
    /// Nothing arrived within the poll interval.
    Empty,
    /// The output has ended for good.
    Disconnected,
}

/// Outcome of one step of the handshake.
#[derive(Debug, Clone, Copy, PartialEq, Eq, Structural)]
pub enum HandshakeStep {
    Done,
    Waiting,
    Failed(EngineError),
}

/// State of the client of one engine process.
#[derive(Debug)]
pub struct Engine {
    analyzing: bool,
    phase: Phase,
    name: Option<String>,
    author: Option<String>,
}

pub struct EngineModel {
    pub analyzing: bool,
    pub phase: Phase,
    pub name: Option<Seq<char>>,
    pub author: Option<Seq<char>>,
}

impl View for Engine {
    type V = EngineModel;

    closed spec fn view(&self) -> EngineModel {
        EngineModel {
            analyzing: self.analyzing,
            phase: self.phase,
            name: opt_view(self.name),
            author: opt_view(self.author),
        }
    }
}

/// The text of `go depth N`.
pub open spec fn go_depth_text(depth: u32) -> Seq<char> {
    "go depth "@ + decimal_of(depth as nat)
}

/// The command a search to `depth` sends from state `s`: always the same,
/// whether or not a search runs already.
pub open spec fn go_output(s: EngineModel, depth: u32) -> Seq<char> {
    go_depth_text(depth)
}

/// The state after a search is started.
pub open spec fn started(s: EngineModel) -> EngineModel {
    EngineModel { analyzing: true, ..s }
}

/// The state after `stop`: no longer analyzing.
pub open spec fn stopped(s: EngineModel) -> EngineModel {
    EngineModel { analyzing: false, ..s }
}

/// The command `stop` sends: `stop` while a search runs, nothing otherwise.
pub open spec fn stop_output(s: EngineModel) -> Option<Seq<char>> {
    if s.analyzing {
        Some("stop"@)
    } else {
        None
    }
}

/// The state after an event is received: a best move ends the search.
pub open spec fn after_event(s: EngineModel, e: EngineEvent) -> EngineModel {
    match e {
        EngineEvent::BestMove(_) => EngineModel { analyzing: false, ..s },
        _ => s,
    }
}

/// `new` where it is set, `old` otherwise.
pub open spec fn keep_or<T>(old: Option<T>, new: Option<T>) -> Option<T> {
    if new is Some {
        new
    } else {
        old
    }
}

/// The state after one handshake poll.
pub open spec fn handshake_state(s: EngineModel, p: Poll) -> EngineModel {
    match p {
        Poll::Event(EngineEvent::Ready) => EngineModel { phase: Phase::Ready, ..s },
        Poll::Event(EngineEvent::Id { name, author }) => EngineModel {
            name: keep_or(s.name, opt_view(name)),
            author: keep_or(s.author, opt_view(author)),
            ..s
        },
        _ => s,
    }
}

/// The outcome of one handshake poll made `elapsed_ms` after the start,
/// out of `timeout_ms` allowed.
pub open spec fn handshake_outcome(p: Poll, elapsed_ms: u64, timeout_ms: u64) -> HandshakeStep {
    match p {
        Poll::Event(EngineEvent::Ready) => HandshakeStep::Done,
        Poll::Disconnected => HandshakeStep::Failed(EngineError::Terminated),
        _ => if elapsed_ms >= timeout_ms {
            HandshakeStep::Failed(EngineError::HandshakeTimeout)
        } else {
            HandshakeStep::Waiting
        },
    }
}

/// The text of `position ...`: a FEN or the initial position, then the moves.
pub open spec fn position_text(fen: Option<Seq<char>>, moves: Seq<Seq<char>>) -> Seq<char> {
    (match fen {
        Some(f) => "position fen "@ + f,
        None => "position startpos"@,
    }) + (if moves.len() == 0 {
        seq![]
    } else {
        " moves "@ + join_words(moves)
    })
}

pub open spec fn str_opt_view(o: Option<&str>) -> Option<Seq<char>> {
    match o {
        Some(s) => Some(s@),
        None => None,
    }
}

fn text_of(lit: &str) -> (r: String)
    ensures
        r@ == lit@,
{
    let mut v: Vec<char> = Vec::new();
    push_str(&mut v, lit);
    assert(v@ =~= lit@);
    string_of(&v)
}

impl Engine {
    /// A client that has sent `uci` and waits for the engine's answer.
    pub fn new() -> (r: Engine)
        ensures
            r@ == (EngineModel { analyzing: false, phase: Phase::Handshaking, name: None, author: None }),
    {
        Engine { analyzing: false, phase: Phase::Handshaking, name: None, author: None }
    }

    /// The command that opens the handshake.
    pub fn uci_command() -> (r: String)
        ensures
            r@ == "uci"@,
    {
        text_of("uci")
    }

    pub fn phase(&self) -> (r: Phase)
        ensures
            r == self@.phase,
    {
        self.phase
    }

    /// Name the engine gave for itself during the handshake.
    pub fn name(&self) -> (r: &Option<String>)
        ensures
            opt_view(*r) == self@.name,
    {
        &self.name
    }

    /// Author the engine named during the handshake.
    pub fn author(&self) -> (r: &Option<String>)
        ensures
            opt_view(*r) == self@.author,
    {
        &self.author
    }

    /// Whether a search runs.
    pub fn is_analyzing(&self) -> (r: bool)
        ensures
            r == self@.analyzing,
    {
        self.analyzing
    }

    /// One poll of the handshake: `Ready` ends it, an `Id` is recorded, an
    /// ended output fails it; otherwise it fails once `elapsed_ms` reaches
    /// `timeout_ms` and goes on before.
    pub fn handshake(&mut self, poll: Poll, elapsed_ms: u64, timeout_ms: u64) -> (r: HandshakeStep)
        ensures
            r == handshake_outcome(poll, elapsed_ms, timeout_ms),
            final(self)@ == handshake_state(old(self)@, poll),
    {
        match poll {
            Poll::Event(EngineEvent::Ready) => {
                self.phase = Phase::Ready;
                return HandshakeStep::Done;
            },
            Poll::Event(EngineEvent::Id { name, author }) => {
                if name.is_some() {
                    self.name = name;
                }
                if author.is_some() {
                    self.author = author;
                }
            },
            Poll::Disconnected => {
                return HandshakeStep::Failed(EngineError::Terminated);
            },
            _ => {},
        }
        if elapsed_ms >= timeout_ms {
            HandshakeStep::Failed(EngineError::HandshakeTimeout)
        } else {
            HandshakeStep::Waiting
        }
    }

    /// `setoption name <name> value <value>`; no answer is awaited.
    pub fn set_option(&self, name: &str, value: &str) -> (r: String)
        ensures
            r@ == "setoption name "@ + name@ + " value "@ + value@,
    {
        let mut v: Vec<char> = Vec::new();
        push_str(&mut v, "setoption name ");
        push_str(&mut v, name);
        push_str(&mut v, " value ");
        push_str(&mut v, value);
        assert(v@ =~= "setoption name "@ + name@ + " value "@ + value@);
        string_of(&v)
    }

    /// `position fen <fen>` or `position startpos`, then ` moves ...` where
    /// there are moves.
    pub fn set_position(&self, fen: Option<&str>, moves: &[String]) -> (r: String)
        ensures
            r@ == position_text(str_opt_view(fen), view_strings(moves@)),
    {
        let mut v: Vec<char> = Vec::new();
        match fen {
            Some(f) => {
                push_str(&mut v, "position fen ");
                push_str(&mut v, f);
            },
            None => {
                push_str(&mut v, "position startpos");
            },
        }
        let ghost head = v@;
        let n = moves.len();
        if n > 0 {
            push_str(&mut v, " moves ");
            let ghost mid = v@;
            let mut i: usize = 0;
            while i < n
                invariant
                    n == moves@.len(),
                    i <= n,
                    v@ == mid + join_words(view_strings(moves@).subrange(0, i as int)),
                decreases n - i,
            {
                let ghost pre = view_strings(moves@).subrange(0, i as int);
                let ghost next = view_strings(moves@).subrange(0, i + 1);
                assert(next.drop_last() =~= pre);
                if i > 0 {
                    v.push(' ');
                }
                push_str(&mut v, moves[i].as_str());
                assert(next.last() == moves@[i as int]@);
                assert(v@ =~= mid + join_words(next));
                i = i + 1;
            }
            assert(view_strings(moves@).subrange(0, n as int) =~= view_strings(moves@));
        }
        assert(v@ =~= position_text(str_opt_view(fen), view_strings(moves@)));
        string_of(&v)
    }

    /// Starts a search with no limit.
    pub fn go_infinite(&mut self) -> (r: String)
        ensures
            r@ == "go infinite"@,
            final(self)@ == started(old(self)@),
    {
        self.analyzing = true;
        text_of("go infinite")
    }

    /// Starts a search to the given depth. A search already running is not
    /// stopped first: each call gives its own command.
    pub fn go_depth(&mut self, depth: u32) -> (r: String)
        ensures
            r@ == go_output(old(self)@, depth),
            final(self)@ == started(old(self)@),
    {
        self.analyzing = true;
        let mut v: Vec<char> = Vec::new();
        push_str(&mut v, "go depth ");
        let d = decimal_chars(depth as u64);
        let mut i: usize = 0;
        let ghost head = v@;
        while i < d.len()
            invariant
                i <= d@.len(),
                v@ == head + d@.subrange(0, i as int),
            decreases d@.len() - i,
        {
            v.push(d[i]);
            i = i + 1;
            assert(v@ =~= head + d@.subrange(0, i as int));
        }
        assert(d@.subrange(0, d@.len() as int) =~= d@);
        string_of(&v)
    }

    /// Stops the running search; does nothing where none runs.
    pub fn stop(&mut self) -> (r: Option<String>)
        ensures
            opt_view(r) == stop_output(old(self)@),
            final(self)@ == stopped(old(self)@),
    {
        if self.analyzing {
            self.analyzing = false;
            Some(text_of("stop"))
        } else {
            None
        }
    }

    /// Takes note of an event received from the engine.
    pub fn on_event(&mut self, event: &EngineEvent)
        ensures
            final(self)@ == after_event(old(self)@, *event),
    {
        if let EngineEvent::BestMove(_) = event {
            self.analyzing = false;
        }
    }

    /// `ucinewgame`.
    pub fn new_game(&self) -> (r: String)
        ensures
            r@ == "ucinewgame"@,
    {
        text_of("ucinewgame")
    }

    /// `quit`; the client is closed from then on.
    pub fn quit(&mut self) -> (r: String)
        ensures
            r@ == "quit"@,
            final(self)@ == (EngineModel { phase: Phase::Closed, ..old(self)@ }),
    {
        self.phase = Phase::Closed;
        text_of("quit")
    }
}

/// Stopping twice in a row sends one `stop` at most, and none the second time.
pub proof fn stop_twice_sends_once(s: EngineModel)
    ensures
        stop_output(stopped(s)) is None,
        stop_output(s) is Some <==> s.analyzing,
        stopped(stopped(s)) == stopped(s),
{
}

/// Two searches started in a row send two commands, in order, each the
/// full `go depth` command: the second is neither merged with the first nor
/// dropped.
pub proof fn go_twice_sends_twice(s: EngineModel, depth: u32)
    ensures
        seq![go_output(s, depth), go_output(started(s), depth)] == seq![
            go_depth_text(depth),
            go_depth_text(depth),
        ],
        go_depth_text(depth).len() > 0,
        started(started(s)).analyzing,
{
    reveal_strlit("go depth ");
}

/// A best move received while a search runs ends it.
pub proof fn best_move_ends_search(s: EngineModel, e: EngineEvent)
    requires
        e is BestMove,
    ensures
        !after_event(s, e).analyzing,
{
}

/// An engine that never answers fails the handshake with a timeout once the
/// time allowed has passed, and is waited for until then.
pub proof fn silent_engine_times_out(elapsed_ms: u64, timeout_ms: u64)
    ensures
        handshake_outcome(Poll::Empty, elapsed_ms, timeout_ms) == (if elapsed_ms >= timeout_ms {
            HandshakeStep::Failed(EngineError::HandshakeTimeout)
        } else {
            HandshakeStep::Waiting
        }),
        elapsed_ms >= timeout_ms ==> handshake_outcome(Poll::Empty, elapsed_ms, timeout_ms)
            != HandshakeStep::Waiting,
{
}

} // verus!
