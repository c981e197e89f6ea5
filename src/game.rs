//! A game: the position it started from, the moves played, and the place
//! in that history being looked at. Chess rules are shakmaty's; positions
//! and moves are its values, carried through unopened.
use vstd::prelude::*;

use shakmaty::fen::Fen;
use shakmaty::san::San;
use shakmaty::uci::UciMove;
use shakmaty::{Chess, Color, Move, Piece, Role, Square};

use crate::config::PieceStyle;
use crate::protocol::opt_view;
use crate::text::{push_str, string_of};

verus! {

/// shakmaty's chess position, carried through unopened.
#[verifier::external_type_specification]
#[verifier::external_body]
pub struct ExChess(Chess);

/// shakmaty's move, carried through unopened.
#[verifier::external_type_specification]
#[verifier::external_body]
pub struct ExMove(Move);

/// shakmaty's square, handed to `Board::piece_at`.
#[verifier::external_type_specification]
#[verifier::external_body]
pub struct ExSquare(Square);

/// shakmaty's piece, as `Board::piece_at` gives it.
#[verifier::external_type_specification]
#[verifier::external_body]
pub struct ExPiece(Piece);

/// shakmaty's colour, handed to `Board::by_color`.
#[verifier::external_type_specification]
#[verifier::external_body]
pub struct ExColor(Color);

/// shakmaty's role, handed to `Board::by_role`.
#[verifier::external_type_specification]
#[verifier::external_body]
pub struct ExRole(Role);

/// shakmaty's parsed FEN, between reading it and setting up its position.
#[verifier::external_type_specification]
#[verifier::external_body]
pub struct ExFen(Fen);

/// shakmaty's parsed SAN move, between reading it and finding its move.
#[verifier::external_type_specification]
#[verifier::external_body]
pub struct ExSan(San);

/// shakmaty's parsed move in the engine's notation.
#[verifier::external_type_specification]
#[verifier::external_body]
pub struct ExUciMove(UciMove);

/// A side of the board.
#[derive(Debug, Clone, Copy, PartialEq, Eq, Structural)]
pub enum Side {
    White,
    Black,
}

/// The kind of a piece.
#[derive(Debug, Clone, Copy, PartialEq, Eq, Structural)]
pub enum PieceKind {
    King,
    Queen,
    Rook,
    Bishop,
    Knight,
    Pawn,
}

/// How a finished game ended.
#[derive(Debug, Clone, Copy, PartialEq, Eq, Structural)]
pub enum GameResult {
    Win(Side),
    Draw,
}

/// Why a position or a move was refused.
#[derive(Debug, Clone, Copy, PartialEq, Eq, Structural)]
pub enum GameError {
    /// The text is not a FEN.
    InvalidFen,
    /// The FEN describes no legal position.
    InvalidPosition,
    /// The text is not a move in standard algebraic notation.
    InvalidSan,
    /// The move cannot be played in the position.
    IllegalMove,
}

/// Relies on `Default for Chess`: the standard initial position.
#[verifier::external_body]
fn initial_position() -> (r: Chess) {
    Chess::default()
}

/// Relies on `Clone for Chess`: a copy of the position.
#[verifier::external_body]
fn copy_position(p: &Chess) -> (r: Chess) {
    p.clone()
}

/// Relies on `FromStr for Fen`: `None` where the text is no FEN.
#[verifier::external_body]
fn read_fen(s: &str) -> (r: Option<Fen>) {
    s.parse::<Fen>().ok()
}

/// Relies on `Fen::into_position` in standard castling mode: `None` where
/// the FEN describes no legal position.
#[verifier::external_body]
fn fen_position(f: Fen) -> (r: Option<Chess>) {
    f.into_position(shakmaty::CastlingMode::Standard).ok()
}

/// Relies on `Fen::from_position` (legal en passant squares only) and its
/// `Display`: the FEN of the position.
#[verifier::external_body]
fn fen_text(p: &Chess) -> (r: String) {
    Fen::from_position(p, shakmaty::EnPassantMode::Legal).to_string()
}

/// Relies on `FromStr for San`: `None` where the text is no SAN move.
#[verifier::external_body]
fn read_san(s: &str) -> (r: Option<San>) {
    s.parse::<San>().ok()
}

/// Relies on `San::to_move`: the legal move the SAN names in the position.
#[verifier::external_body]
fn san_move(san: San, p: &Chess) -> (r: Option<Move>) {
    san.to_move(p).ok()
}

/// Relies on `FromStr for UciMove`: `None` where the text is no move in
/// the engine's notation.
#[verifier::external_body]
fn read_uci(s: &str) -> (r: Option<UciMove>) {
    s.parse::<UciMove>().ok()
}

/// Relies on `UciMove::to_move`: the legal move it names in the position.
#[verifier::external_body]
fn uci_move(u: UciMove, p: &Chess) -> (r: Option<Move>) {
    u.to_move(p).ok()
}

/// Relies on `Position::play`: the position after the move, `None` where
/// it is illegal.
#[verifier::external_body]
fn play_move(p: &Chess, m: Move) -> (r: Option<Chess>) {
    shakmaty::Position::play(p.clone(), m).ok()
}

/// Relies on `San::from_move` and its `Display`: the move in SAN.
#[verifier::external_body]
fn san_text(p: &Chess, m: Move) -> (r: String) {
    San::from_move(p, m).to_string()
}

/// Relies on `Position::turn`: the side to move.
#[verifier::external_body]
fn side_to_move(p: &Chess) -> (r: Side) {
    match shakmaty::Position::turn(p) {
        shakmaty::Color::White => Side::White,
        shakmaty::Color::Black => Side::Black,
    }
}

/// Relies on `Board::piece_at`: the piece on the square, if any.
#[verifier::external_body]
fn piece_on(p: &Chess, sq: Square) -> (r: Option<Piece>) {
    shakmaty::Position::board(p).piece_at(sq)
}

/// Relies on `Position::legal_moves`: the legal moves of the position.
#[verifier::external_body]
fn legal_moves_of(p: &Chess) -> (r: Vec<Move>) {
    shakmaty::Position::legal_moves(p).into_iter().collect()
}

/// Relies on `Position::is_game_over`.
#[verifier::external_body]
fn game_over(p: &Chess) -> (r: bool) {
    shakmaty::Position::is_game_over(p)
}

/// Relies on `Position::outcome`: how the game ended, if it did.
#[verifier::external_body]
fn outcome_of(p: &Chess) -> (r: Option<GameResult>) {
    match shakmaty::Position::outcome(p) {
        Some(shakmaty::Outcome::Decisive { winner: shakmaty::Color::White }) => Some(
            GameResult::Win(Side::White),
        ),
        Some(shakmaty::Outcome::Decisive { winner: shakmaty::Color::Black }) => Some(
            GameResult::Win(Side::Black),
        ),
        Some(shakmaty::Outcome::Draw) => Some(GameResult::Draw),
        None => None,
    }
}

/// Relies on shakmaty's `Color` enum: its variant for the side.
#[verifier::external_body]
fn color_of(side: Side) -> (r: Color) {
    match side {
        Side::White => Color::White,
        Side::Black => Color::Black,
    }
}

/// Relies on shakmaty's `Role` enum: its variant for the kind.
#[verifier::external_body]
fn role_of(kind: PieceKind) -> (r: Role) {
    match kind {
        PieceKind::King => Role::King,
        PieceKind::Queen => Role::Queen,
        PieceKind::Rook => Role::Rook,
        PieceKind::Bishop => Role::Bishop,
        PieceKind::Knight => Role::Knight,
        PieceKind::Pawn => Role::Pawn,
    }
}

/// Relies on the `color` field of shakmaty's `Piece`: the side it belongs to.
#[verifier::external_body]
fn piece_side(p: Piece) -> (r: Side) {
    match p.color {
        Color::White => Side::White,
        Color::Black => Side::Black,
    }
}

/// Relies on the `role` field of shakmaty's `Piece`: its kind.
#[verifier::external_body]
fn piece_kind(p: Piece) -> (r: PieceKind) {
    match p.role {
        Role::King => PieceKind::King,
        Role::Queen => PieceKind::Queen,
        Role::Rook => PieceKind::Rook,
        Role::Bishop => PieceKind::Bishop,
        Role::Knight => PieceKind::Knight,
        Role::Pawn => PieceKind::Pawn,
    }
}

/// Relies on `Board::by_color`, `Board::by_role` and `Bitboard::count`: the
/// number of pieces of a colour and role, a count of squares and so at most 64.
#[verifier::external_body]
fn count_pieces(p: &Chess, color: Color, role: Role) -> (r: u32)
    ensures
        r <= 64,
{
    let board = shakmaty::Position::board(p);
    board.by_color(color).intersect(board.by_role(role)).count() as u32
}

/// Material value of each kind taken into account, in centipawns, in the
/// order queen, rook, bishop, knight, pawn.
pub open spec fn kind_value(k: int) -> int {
    if k == 0 {
        900
    } else if k == 1 {
        500
    } else if k == 2 {
        330
    } else if k == 3 {
        320
    } else {
        100
    }
}

/// How many of each kind a side starts with, in the same order.
pub open spec fn kind_start(k: int) -> nat {
    if k == 0 {
        1
    } else if k == 4 {
        8
    } else {
        2
    }
}

pub open spec fn kind_at(k: int) -> PieceKind {
    if k == 0 {
        PieceKind::Queen
    } else if k == 1 {
        PieceKind::Rook
    } else if k == 2 {
        PieceKind::Bishop
    } else if k == 3 {
        PieceKind::Knight
    } else {
        PieceKind::Pawn
    }
}

/// Material balance over the kinds `0..k` (positive: white is ahead).
pub open spec fn balance_upto(white: Seq<u32>, black: Seq<u32>, k: int) -> int
    decreases k,
{
    if k <= 0 {
        0
    } else {
        balance_upto(white, black, k - 1) + (white[k - 1] - black[k - 1]) * kind_value(k - 1)
    }
}

/// The pieces missing from a side with `counts` on the board, kinds `0..k`,
/// each kind repeated as often as it is missing.
pub open spec fn missing_upto(counts: Seq<u32>, k: int) -> Seq<PieceKind>
    decreases k,
{
    if k <= 0 {
        seq![]
    } else {
        let n: nat = if kind_start(k - 1) > counts[k - 1] {
            (kind_start(k - 1) - counts[k - 1]) as nat
        } else {
            0
        };
        missing_upto(counts, k - 1) + Seq::new(n, |_i: int| kind_at(k - 1))
    }
}

fn kind_of(k: usize) -> (r: PieceKind)
    ensures
        r == kind_at(k as int),
{
    if k == 0 {
        PieceKind::Queen
    } else if k == 1 {
        PieceKind::Rook
    } else if k == 2 {
        PieceKind::Bishop
    } else if k == 3 {
        PieceKind::Knight
    } else {
        PieceKind::Pawn
    }
}

/// Material balance in centipawns from the piece counts of each side, in
/// the order queen, rook, bishop, knight, pawn; kings do not count.
pub fn balance_of(white: &[u32; 5], black: &[u32; 5]) -> (r: i32)
    requires
        forall|k: int| 0 <= k < 5 ==> white@[k] <= 64 && black@[k] <= 64,
    ensures
        r == balance_upto(white@, black@, 5),
{
    let values: [i32; 5] = [900, 500, 330, 320, 100];
    let mut total: i32 = 0;
    let mut k: usize = 0;
    while k < 5
        invariant
            k <= 5,
            values@ == seq![900i32, 500, 330, 320, 100],
            forall|j: int| 0 <= j < 5 ==> white@[j] <= 64 && black@[j] <= 64,
            total == balance_upto(white@, black@, k as int),
            -(k as int) * 57600 <= total <= (k as int) * 57600,
        decreases 5 - k,
    {
        assert(values@[k as int] == kind_value(k as int));
        let d: i32 = white[k] as i32 - black[k] as i32;
        assert(-57600 <= d * values@[k as int] <= 57600) by (nonlinear_arith)
            requires
                -64 <= d <= 64,
                100 <= values@[k as int] <= 900,
        ;
        total = total + d * values[k];
        k = k + 1;
    }
    total
}

/// The pieces missing from a side with these counts on the board, kinds in
/// the order queen, rook, bishop, knight, pawn, each as often as it is missing.
pub fn missing_of(counts: &[u32; 5]) -> (r: Vec<PieceKind>)
    ensures
        r@ == missing_upto(counts@, 5),
{
    let starts: [u32; 5] = [1, 2, 2, 2, 8];
    let mut out: Vec<PieceKind> = Vec::new();
    let mut k: usize = 0;
    while k < 5
        invariant
            k <= 5,
            starts@ == seq![1u32, 2, 2, 2, 8],
            out@ == missing_upto(counts@, k as int),
        decreases 5 - k,
    {
        assert(starts@[k as int] == kind_start(k as int));
        let n: u32 = starts[k].saturating_sub(counts[k]);
        let kind = kind_of(k);
        let ghost base = out@;
        let mut i: u32 = 0;
        while i < n
            invariant
                i <= n,
                out@ == base + Seq::new(i as nat, |_j: int| kind),
            decreases n - i,
        {
            out.push(kind);
            i = i + 1;
            assert(out@ =~= base + Seq::new(i as nat, |_j: int| kind));
        }
        assert(out@ =~= missing_upto(counts@, k + 1));
        k = k + 1;
    }
    out
}

/// Rows of the move list from the moves `e` (each with whether white made
/// it), with `pending` a white move waiting for its reply and `num` the
/// number of the current row. A black move ends a row (opened with `...`
/// where white's move is not there); a white move with no reply ends the list.
pub open spec fn rows_from(e: Seq<(Seq<char>, bool)>, pending: Option<Seq<char>>, num: nat) -> Seq<
    (nat, Seq<char>, Option<Seq<char>>),
>
    decreases e.len(),
{
    if e.len() == 0 {
        match pending {
            Some(w) => seq![(num, w, None)],
            None => seq![],
        }
    } else if e[0].1 {
        rows_from(e.drop_first(), Some(e[0].0), num)
    } else {
        seq![(
            num,
            match pending {
                Some(w) => w,
                None => "..."@,
            },
            Some(e[0].0),
        )] + rows_from(e.drop_first(), None, num + 1)
    }
}

pub open spec fn view_entries(e: Seq<(String, bool)>) -> Seq<(Seq<char>, bool)> {
    e.map_values(|p: (String, bool)| (p.0@, p.1))
}

pub open spec fn view_rows(r: Seq<(usize, String, Option<String>)>) -> Seq<
    (nat, Seq<char>, Option<Seq<char>>),
> {
    r.map_values(|x: (usize, String, Option<String>)| (x.0 as nat, x.1@, opt_view(x.2)))
}

/// Pairs the moves, each given in SAN with whether white made it, into
/// numbered rows of a white and a black move.
pub fn pair_moves(entries: &Vec<(String, bool)>) -> (r: Vec<(usize, String, Option<String>)>)
    requires
        entries@.len() < usize::MAX,
    ensures
        view_rows(r@) == rows_from(view_entries(entries@), None, 1),
{
    let ghost e = view_entries(entries@);
    let mut out: Vec<(usize, String, Option<String>)> = Vec::new();
    let mut pending: Option<String> = None;
    let mut num: usize = 1;
    let mut i: usize = 0;
    assert(e.subrange(0, e.len() as int) =~= e);
    while i < entries.len()
        invariant
            e == view_entries(entries@),
            entries@.len() < usize::MAX,
            i <= entries@.len(),
            1 <= num <= i + 1,
            view_rows(out@) + rows_from(e.subrange(i as int, e.len() as int), opt_view(pending), num as nat)
                == rows_from(e, None, 1),
        decreases entries@.len() - i,
    {
        let ghost rest = e.subrange(i as int, e.len() as int);
        assert(rest.drop_first() =~= e.subrange(i + 1, e.len() as int));
        assert(rest[0] == (entries@[i as int].0@, entries@[i as int].1));
        let ghost before = view_rows(out@);
        let san = entries[i].0.clone();
        if entries[i].1 {
            pending = Some(san);
        } else {
            let white = match pending {
                Some(w) => w,
                None => String::from_str("..."),
            };
            let row = (num, white, Some(san));
            out.push(row);
            assert(view_rows(out@) =~= before + seq![(num as nat, row.1@, Some(san@))]);
            pending = None;
            num = num + 1;
        }
        i = i + 1;
    }
    let ghost before = view_rows(out@);
    assert(e.subrange(i as int, e.len() as int) =~= Seq::<(Seq<char>, bool)>::empty());
    match pending {
        Some(w) => {
            let row = (num, w, None);
            out.push(row);
            assert(view_rows(out@) =~= before + seq![(num as nat, row.1@, None::<Seq<char>>)]);
        },
        None => {
            assert(before + seq![] =~= before);
        },
    }
    out
}

/// A game and its history. `current_index` is the number of moves played
/// to reach the position looked at: 0 is the start, the length of the
/// history the latest position.
#[derive(Debug)]
pub struct Game {
    initial_position: Chess,
    position: Chess,
    moves: Vec<Move>,
    current_index: usize,
}

impl Game {
    /// The moves played, in order.
    pub closed spec fn history(&self) -> Seq<Move> {
        self.moves@
    }

    /// How many moves of the history lead to the position looked at.
    pub closed spec fn index(&self) -> nat {
        self.current_index as nat
    }

    /// The index stays within the history.
    #[verifier::type_invariant]
    spec fn wf(&self) -> bool {
        self.current_index <= self.moves@.len()
    }

    /// A game at the standard initial position.
    pub fn new() -> (r: Game)
        ensures
            r.history().len() == 0,
            r.index() == 0,
    {
        Game {
            initial_position: initial_position(),
            position: initial_position(),
            moves: Vec::new(),
            current_index: 0,
        }
    }

    /// A game from the position a FEN describes.
    pub fn from_fen(fen: &str) -> (r: Result<Game, GameError>)
        ensures
            r is Ok ==> r->Ok_0.history().len() == 0 && r->Ok_0.index() == 0,
            r is Err ==> r->Err_0 == GameError::InvalidFen || r->Err_0 == GameError::InvalidPosition,
    {
        let f = match read_fen(fen) {
            Some(f) => f,
            None => return Err(GameError::InvalidFen),
        };
        let position = match fen_position(f) {
            Some(p) => p,
            None => return Err(GameError::InvalidPosition),
        };
        Ok(Game {
            initial_position: copy_position(&position),
            position,
            moves: Vec::new(),
            current_index: 0,
        })
    }

    /// The FEN of the position looked at.
    pub fn to_fen(&self) -> String {
        fen_text(&self.position)
    }

    pub fn position(&self) -> &Chess {
        &self.position
    }

    pub fn turn(&self) -> Side {
        side_to_move(&self.position)
    }

    pub fn piece_at(&self, square: Square) -> Option<Piece> {
        piece_on(&self.position, square)
    }

    pub fn legal_moves(&self) -> Vec<Move> {
        legal_moves_of(&self.position)
    }

    /// Plays a move given in SAN.
    pub fn make_move_san(&mut self, san_str: &str) -> (r: Result<Move, GameError>)
        ensures
            r is Ok ==> final(self).history() == old(self).history().subrange(
                0,
                old(self).index() as int,
            ).push(r->Ok_0) && final(self).index() == final(self).history().len(),
            r is Err ==> final(self).index() == old(self).index() && (final(self).history()
                == old(self).history() || final(self).history() == old(self).history().subrange(
                0,
                old(self).index() as int,
            )),
            r is Err ==> r->Err_0 == GameError::InvalidSan || r->Err_0 == GameError::IllegalMove,
    {
        proof {
            use_type_invariant(&*self);
        }
        let san = match read_san(san_str) {
            Some(s) => s,
            None => return Err(GameError::InvalidSan),
        };
        let m = match san_move(san, &self.position) {
            Some(m) => m,
            None => return Err(GameError::IllegalMove),
        };
        match self.make_move(m) {
            Ok(()) => Ok(m),
            Err(e) => Err(e),
        }
    }

    /// Plays a move from the position looked at; the moves after it in the
    /// history are dropped first.
    pub fn make_move(&mut self, m: Move) -> (r: Result<(), GameError>)
        ensures
            r is Ok ==> final(self).history() == old(self).history().subrange(
                0,
                old(self).index() as int,
            ).push(m) && final(self).index() == final(self).history().len(),
            r is Err ==> r->Err_0 == GameError::IllegalMove && final(self).index() == old(
                self,
            ).index() && final(self).history() == old(self).history().subrange(
                0,
                old(self).index() as int,
            ),
    {
        proof {
            use_type_invariant(&*self);
        }
        let keep = self.current_index;
        let mut moves: Vec<Move> = Vec::new();
        self.current_index = 0;
        std::mem::swap(&mut moves, &mut self.moves);
        if keep < moves.len() {
            moves.truncate(keep);
        }
        assert(moves@ =~= old(self).moves@.subrange(0, keep as int));
        match play_move(&self.position, m) {
            Some(p) => {
                self.position = p;
                moves.push(m);
                let n = moves.len();
                self.moves = moves;
                self.current_index = n;
                Ok(())
            },
            None => {
                self.moves = moves;
                self.current_index = keep;
                Err(GameError::IllegalMove)
            },
        }
    }

    pub fn moves(&self) -> (r: &[Move])
        ensures
            r@ == self.history(),
    {
        self.moves.as_slice()
    }

    pub fn current_index(&self) -> (r: usize)
        ensures
            r == self.index(),
    {
        self.current_index
    }

    pub fn is_at_start(&self) -> (r: bool)
        ensures
            r == (self.index() == 0),
    {
        self.current_index == 0
    }

    pub fn is_at_end(&self) -> (r: bool)
        ensures
            r == (self.index() == self.history().len()),
    {
        self.current_index == self.moves.len()
    }

    /// One move back, where there is one.
    pub fn go_back(&mut self) -> (r: bool)
        ensures
            r == (old(self).index() > 0),
            final(self).index() == if r {
                old(self).index() - 1 as int
            } else {
                old(self).index() as int
            },
            final(self).history() == old(self).history(),
    {
        proof {
            use_type_invariant(&*self);
        }
        if self.current_index > 0 {
            self.current_index = self.current_index - 1;
            self.rebuild_position();
            true
        } else {
            false
        }
    }

    /// One move forward, where there is one.
    pub fn go_forward(&mut self) -> (r: bool)
        ensures
            r == (old(self).index() < old(self).history().len()),
            final(self).index() == if r {
                old(self).index() + 1 as int
            } else {
                old(self).index() as int
            },
            final(self).history() == old(self).history(),
    {
        proof {
            use_type_invariant(&*self);
        }
        if self.current_index < self.moves.len() {
            self.current_index = self.current_index + 1;
            self.rebuild_position();
            true
        } else {
            false
        }
    }

    pub fn go_to_start(&mut self)
        ensures
            final(self).index() == 0,
            final(self).history() == old(self).history(),
    {
        self.current_index = 0;
        self.rebuild_position();
    }

    pub fn go_to_end(&mut self)
        ensures
            final(self).index() == old(self).history().len(),
            final(self).history() == old(self).history(),
    {
        self.current_index = self.moves.len();
        self.rebuild_position();
    }

    /// Replays the history up to the index from the initial position.
    fn rebuild_position(&mut self)
        ensures
            final(self).history() == old(self).history(),
            final(self).index() == old(self).index(),
    {
        proof {
            use_type_invariant(&*self);
        }
        let mut pos = copy_position(&self.initial_position);
        let mut i: usize = 0;
        while i < self.current_index
            invariant
                self.current_index <= self.moves@.len(),
                i <= self.current_index,
            decreases self.current_index - i,
        {
            match play_move(&pos, self.moves[i]) {
                Some(p) => pos = p,
                None => break,
            }
            i = i + 1;
        }
        self.position = pos;
    }

    /// The move that led to the position looked at.
    pub fn last_move(&self) -> (r: Option<&Move>)
        ensures
            r is Some <==> self.index() > 0,
            r is Some ==> *r->0 == self.history()[self.index() - 1],
    {
        proof {
            use_type_invariant(self);
        }
        if self.current_index > 0 {
            Some(&self.moves[self.current_index - 1])
        } else {
            None
        }
    }

    /// Back to a new game at the initial position.
    pub fn reset(&mut self)
        ensures
            final(self).history().len() == 0,
            final(self).index() == 0,
    {
        *self = Game::new();
    }

    /// A new game from a FEN; the game is left as it was where the FEN is refused.
    pub fn load_fen(&mut self, fen: &str) -> (r: Result<(), GameError>)
        ensures
            r is Ok ==> final(self).history().len() == 0 && final(self).index() == 0,
            r is Err ==> *final(self) == *old(self),
    {
        match Game::from_fen(fen) {
            Ok(g) => {
                *self = g;
                Ok(())
            },
            Err(e) => Err(e),
        }
    }

    /// A move in SAN, as played from `position`.
    pub fn move_to_san(&self, m: &Move, position: &Chess) -> String {
        san_text(position, *m)
    }

    /// The move list in numbered rows, each of a white and a black move.
    pub fn formatted_moves(&self) -> Vec<(usize, String, Option<String>)> {
        let mut entries: Vec<(String, bool)> = Vec::new();
        let mut pos = copy_position(&self.initial_position);
        let mut i: usize = 0;
        while i < self.moves.len()
            invariant
                i <= self.moves@.len(),
                entries@.len() == i,
            decreases self.moves@.len() - i,
        {
            let m = self.moves[i];
            let san = san_text(&pos, m);
            let white = match side_to_move(&pos) {
                Side::White => true,
                Side::Black => false,
            };
            match play_move(&pos, m) {
                Some(p) => pos = p,
                None => break,
            }
            entries.push((san, white));
            i = i + 1;
        }
        if entries.len() < usize::MAX {
            pair_moves(&entries)
        } else {
            Vec::new()
        }
    }

    pub fn is_game_over(&self) -> bool {
        game_over(&self.position)
    }

    pub fn outcome(&self) -> Option<GameResult> {
        outcome_of(&self.position)
    }

    /// Plays a move given in the engine's notation.
    pub fn make_move_uci(&mut self, uci: &str) -> (r: Result<Move, GameError>)
        ensures
            r is Ok ==> final(self).history() == old(self).history().subrange(
                0,
                old(self).index() as int,
            ).push(r->Ok_0) && final(self).index() == final(self).history().len(),
            r is Err ==> r->Err_0 == GameError::IllegalMove && final(self).index() == old(
                self,
            ).index() && (final(self).history() == old(self).history() || final(self).history()
                == old(self).history().subrange(0, old(self).index() as int)),
    {
        proof {
            use_type_invariant(&*self);
        }
        let u = match read_uci(uci) {
            Some(u) => u,
            None => return Err(GameError::IllegalMove),
        };
        let m = match uci_move(u, &self.position) {
            Some(m) => m,
            None => return Err(GameError::IllegalMove),
        };
        match self.make_move(m) {
            Ok(()) => Ok(m),
            Err(e) => Err(e),
        }
    }

    fn counts(&self, side: Side) -> (r: [u32; 5])
        ensures
            forall|k: int| 0 <= k < 5 ==> r@[k] <= 64,
    {
        let c = color_of(side);
        [
            count_pieces(&self.position, c, role_of(PieceKind::Queen)),
            count_pieces(&self.position, c, role_of(PieceKind::Rook)),
            count_pieces(&self.position, c, role_of(PieceKind::Bishop)),
            count_pieces(&self.position, c, role_of(PieceKind::Knight)),
            count_pieces(&self.position, c, role_of(PieceKind::Pawn)),
        ]
    }

    /// (pieces white has taken, pieces black has taken), going by what is
    /// missing from each side's starting set.
    pub fn captured_pieces(&self) -> (Vec<PieceKind>, Vec<PieceKind>) {
        let white = self.counts(Side::White);
        let black = self.counts(Side::Black);
        (missing_of(&black), missing_of(&white))
    }

    /// Material advantage in centipawns (positive: white is ahead).
    pub fn material_balance(&self) -> i32 {
        let white = self.counts(Side::White);
        let black = self.counts(Side::Black);
        balance_of(&white, &black)
    }
}

/// The moves given in the engine's notation, in SAN, played one after the
/// other from `position`; the list stops before the first move that is not
/// legal there.
pub fn uci_to_san(position: &Chess, uci_moves: &[String]) -> (r: Vec<String>)
    ensures
        r@.len() <= uci_moves@.len(),
{
    let mut pos = copy_position(position);
    let mut out: Vec<String> = Vec::new();
    let mut i: usize = 0;
    while i < uci_moves.len()
        invariant
            i <= uci_moves@.len(),
            out@.len() == i,
        decreases uci_moves@.len() - i,
    {
        let u = match read_uci(uci_moves[i].as_str()) {
            Some(u) => u,
            None => break,
        };
        let m = match uci_move(u, &pos) {
            Some(m) => m,
            None => break,
        };
        let san = san_text(&pos, m);
        match play_move(&pos, m) {
            Some(p) => pos = p,
            None => break,
        }
        out.push(san);
        i = i + 1;
    }
    out
}

/// The Unicode chess symbol of a piece.
pub open spec fn unicode_symbol(side: Side, kind: PieceKind) -> char {
    match (side, kind) {
        (Side::White, PieceKind::King) => '♔',
        (Side::White, PieceKind::Queen) => '♕',
        (Side::White, PieceKind::Rook) => '♖',
        (Side::White, PieceKind::Bishop) => '♗',
        (Side::White, PieceKind::Knight) => '♘',
        (Side::White, PieceKind::Pawn) => '♙',
        (Side::Black, PieceKind::King) => '♚',
        (Side::Black, PieceKind::Queen) => '♛',
        (Side::Black, PieceKind::Rook) => '♜',
        (Side::Black, PieceKind::Bishop) => '♝',
        (Side::Black, PieceKind::Knight) => '♞',
        (Side::Black, PieceKind::Pawn) => '♟',
    }
}

/// The Nerd Font icon of a kind of piece; both sides share it.
pub open spec fn nerd_symbol(kind: PieceKind) -> char {
    match kind {
        PieceKind::King => '\u{f0857}',
        PieceKind::Queen => '\u{f085a}',
        PieceKind::Rook => '\u{f085b}',
        PieceKind::Bishop => '\u{f085c}',
        PieceKind::Knight => '\u{f0858}',
        PieceKind::Pawn => '\u{f0859}',
    }
}

/// The letter of a piece: upper case for white, lower case for black.
pub open spec fn ascii_symbol(side: Side, kind: PieceKind) -> char {
    match (side, kind) {
        (Side::White, PieceKind::King) => 'K',
        (Side::White, PieceKind::Queen) => 'Q',
        (Side::White, PieceKind::Rook) => 'R',
        (Side::White, PieceKind::Bishop) => 'B',
        (Side::White, PieceKind::Knight) => 'N',
        (Side::White, PieceKind::Pawn) => 'P',
        (Side::Black, PieceKind::King) => 'k',
        (Side::Black, PieceKind::Queen) => 'q',
        (Side::Black, PieceKind::Rook) => 'r',
        (Side::Black, PieceKind::Bishop) => 'b',
        (Side::Black, PieceKind::Knight) => 'n',
        (Side::Black, PieceKind::Pawn) => 'p',
    }
}

pub open spec fn symbol_of(side: Side, kind: PieceKind, style: PieceStyle) -> char {
    match style {
        PieceStyle::Unicode => unicode_symbol(side, kind),
        PieceStyle::NerdFont => nerd_symbol(kind),
        PieceStyle::Ascii => ascii_symbol(side, kind),
    }
}

/// The character a piece of `side` and `kind` is drawn with in `style`.
pub fn piece_symbol(side: Side, kind: PieceKind, style: PieceStyle) -> (r: char)
    ensures
        r == symbol_of(side, kind, style),
{
    match style {
        PieceStyle::Unicode => piece_to_unicode(side, kind),
        PieceStyle::NerdFont => piece_to_nerd_font(kind),
        PieceStyle::Ascii => piece_to_ascii(side, kind),
    }
}

pub fn piece_to_unicode(side: Side, kind: PieceKind) -> (r: char)
    ensures
        r == unicode_symbol(side, kind),
{
    match (side, kind) {
        (Side::White, PieceKind::King) => '♔',
        (Side::White, PieceKind::Queen) => '♕',
        (Side::White, PieceKind::Rook) => '♖',
        (Side::White, PieceKind::Bishop) => '♗',
        (Side::White, PieceKind::Knight) => '♘',
        (Side::White, PieceKind::Pawn) => '♙',
        (Side::Black, PieceKind::King) => '♚',
        (Side::Black, PieceKind::Queen) => '♛',
        (Side::Black, PieceKind::Rook) => '♜',
        (Side::Black, PieceKind::Bishop) => '♝',
        (Side::Black, PieceKind::Knight) => '♞',
        (Side::Black, PieceKind::Pawn) => '♟',
    }
}

pub fn piece_to_nerd_font(kind: PieceKind) -> (r: char)
    ensures
        r == nerd_symbol(kind),
{
    match kind {
        PieceKind::King => '\u{f0857}',
        PieceKind::Queen => '\u{f085a}',
        PieceKind::Rook => '\u{f085b}',
        PieceKind::Bishop => '\u{f085c}',
        PieceKind::Knight => '\u{f0858}',
        PieceKind::Pawn => '\u{f0859}',
    }
}

pub fn piece_to_ascii(side: Side, kind: PieceKind) -> (r: char)
    ensures
        r == ascii_symbol(side, kind),
{
    let c = match kind {
        PieceKind::King => 'K',
        PieceKind::Queen => 'Q',
        PieceKind::Rook => 'R',
        PieceKind::Bishop => 'B',
        PieceKind::Knight => 'N',
        PieceKind::Pawn => 'P',
    };
    match side {
        Side::White => c,
        Side::Black => ((c as u8) + 32) as char,
    }
}

/// The character a piece is drawn with in `style`.
pub fn piece_to_char(piece: Piece, style: PieceStyle) -> (r: char) {
    piece_symbol(piece_side(piece), piece_kind(piece), style)
}

pub open spec fn side_name(side: Side) -> Seq<char> {
    match side {
        Side::White => "White"@,
        Side::Black => "Black"@,
    }
}

/// The status line under the board: who won, a draw, or whose move it is.
pub open spec fn status_of(turn: Side, over: bool, outcome: Option<GameResult>) -> Seq<char> {
    if over && outcome is Some {
        match outcome->0 {
            GameResult::Win(Side::White) => "White wins!"@,
            GameResult::Win(Side::Black) => "Black wins!"@,
            GameResult::Draw => "Draw"@,
        }
    } else {
        side_name(turn) + " to move"@
    }
}

/// The status line under the board.
pub fn status_text(turn: Side, over: bool, outcome: Option<GameResult>) -> (r: String)
    ensures
        r@ == status_of(turn, over, outcome),
{
    let mut v: Vec<char> = Vec::new();
    if over && outcome.is_some() {
        match outcome {
            Some(GameResult::Win(Side::White)) => push_str(&mut v, "White wins!"),
            Some(GameResult::Win(Side::Black)) => push_str(&mut v, "Black wins!"),
            Some(GameResult::Draw) => push_str(&mut v, "Draw"),
            None => {},
        }
    } else {
        match turn {
            Side::White => push_str(&mut v, "White"),
            Side::Black => push_str(&mut v, "Black"),
        }
        push_str(&mut v, " to move");
    }
    assert(v@ =~= status_of(turn, over, outcome));
    string_of(&v)
}

} // verus!
