//! Settings of the engine and of the board display.
use vstd::prelude::*;

use crate::engine::Engine;
use crate::protocol::opt_view;
use crate::text::{chars_of, decimal_chars, decimal_of, push_all, string_of, view_strings, word_is};

verus! {

/// How pieces are drawn.
#[derive(Debug, Clone, Copy, PartialEq, Eq, Structural, Default)]
pub enum PieceStyle {
    /// The chess symbols of Unicode.
    #[default]
    Unicode,
    /// Icons of a Nerd Font.
    NerdFont,
    /// Letters (K, Q, R, B, N, P).
    Ascii,
}

/// What the engine is started with.
#[derive(Debug, Clone)]
pub struct EngineConfig {
    /// Path of the engine executable (`None`: look it up on the search path).
    pub path: Option<String>,
    /// Search depth.
    pub depth: u32,
    /// Number of best lines to show.
    pub multipv: u32,
    /// CPU threads for the search.
    pub threads: u32,
    /// Hash table size in MB.
    pub hash: u32,
    /// Draw avoidance (-100 to 100).
    pub contempt: i32,
}

/// How the board is shown.
#[derive(Debug, Clone)]
pub struct UiConfig {
    /// View the board from black's side.
    pub flip_board: bool,
    pub show_coordinates: bool,
    pub highlight_last_move: bool,
    /// Piece style by name: "unicode", "nerd" or "ascii".
    pub piece_style: String,
}

#[derive(Debug, Clone)]
pub struct Config {
    pub engine: EngineConfig,
    pub ui: UiConfig,
}

/// The name of the piece style used where none is given.
pub fn default_piece_style() -> (r: String)
    ensures
        r@ == "nerd"@,
{
    String::from_str("nerd")
}

impl Default for EngineConfig {
    fn default() -> (r: EngineConfig)
        ensures
            r.path is None,
            r.depth == 20,
            r.multipv == 3,
            r.threads == 4,
            r.hash == 256,
            r.contempt == 0,
    {
        EngineConfig { path: None, depth: 20, multipv: 3, threads: 4, hash: 256, contempt: 0 }
    }
}

impl Default for UiConfig {
    fn default() -> (r: UiConfig)
        ensures
            !r.flip_board,
            r.show_coordinates,
            r.highlight_last_move,
            r.piece_style@ == "nerd"@,
    {
        UiConfig {
            flip_board: false,
            show_coordinates: true,
            highlight_last_move: true,
            piece_style: default_piece_style(),
        }
    }
}

impl Default for Config {
    fn default() -> (r: Config)
        ensures
            r.engine.path is None,
            r.engine.depth == 20,
            r.engine.multipv == 3,
            r.engine.threads == 4,
            r.engine.hash == 256,
            r.engine.contempt == 0,
            !r.ui.flip_board,
            r.ui.show_coordinates,
            r.ui.highlight_last_move,
            r.ui.piece_style@ == "nerd"@,
    {
        Config { engine: EngineConfig::default(), ui: UiConfig::default() }
    }
}

/// The lowercase form of a text, as `str::to_lowercase` gives it.
pub uninterp spec fn lower_of(s: Seq<char>) -> Seq<char>;

/// Relies on `str::to_lowercase`: its result depends on the characters of
/// `s` alone.
#[verifier::external_body]
fn lowercase(s: &str) -> (r: String)
    ensures
        r@ == lower_of(s@),
{
    s.to_lowercase()
}

/// The style a lowercase name stands for; an unknown name gives Nerd Font icons.
pub open spec fn style_named(n: Seq<char>) -> PieceStyle {
    if n == "unicode"@ {
        PieceStyle::Unicode
    } else if n == "nerd"@ || n == "nerdfont"@ || n == "nerd_font"@ {
        PieceStyle::NerdFont
    } else if n == "ascii"@ || n == "letter"@ || n == "letters"@ {
        PieceStyle::Ascii
    } else {
        PieceStyle::NerdFont
    }
}

impl PieceStyle {
    /// The style a lowercase name stands for.
    pub fn from_name(name: &str) -> (r: PieceStyle)
        ensures
            r == style_named(name@),
    {
        let n = chars_of(name);
        if word_is(&n, "unicode") {
            PieceStyle::Unicode
        } else if word_is(&n, "nerd") || word_is(&n, "nerdfont") || word_is(&n, "nerd_font") {
            PieceStyle::NerdFont
        } else if word_is(&n, "ascii") || word_is(&n, "letter") || word_is(&n, "letters") {
            PieceStyle::Ascii
        } else {
            PieceStyle::NerdFont
        }
    }
}

impl UiConfig {
    /// The piece style named in the settings, in any case.
    pub fn get_piece_style(&self) -> (r: PieceStyle)
        ensures
            r == style_named(lower_of(self.piece_style@)),
    {
        let lower = lowercase(self.piece_style.as_str());
        PieceStyle::from_name(lower.as_str())
    }
}

/// Relies on `which::which`: looks an executable up on the search path. What
/// it finds depends on the machine, so nothing is promised of it.
#[verifier::external_body]
fn find_executable(name: &str) -> (r: Option<String>) {
    which::which(name).ok().map(|p| p.to_string_lossy().to_string())
}

impl Config {
    /// The engine's executable: the configured path where there is one,
    /// else whatever the search path holds under the name `stockfish`.
    pub fn stockfish_path(&self) -> (r: Option<String>)
        ensures
            self.engine.path is Some ==> opt_view(r) == opt_view(self.engine.path),
    {
        match &self.engine.path {
            Some(p) => Some(p.clone()),
            None => find_executable("stockfish"),
        }
    }
}

/// Decimal notation of a signed number, with `-` in front where negative.
pub open spec fn signed_decimal(v: i32) -> Seq<char> {
    if v < 0 {
        seq!['-'] + decimal_of((-v) as nat)
    } else {
        decimal_of(v as nat)
    }
}

pub open spec fn setoption_text(name: Seq<char>, value: Seq<char>) -> Seq<char> {
    "setoption name "@ + name + " value "@ + value
}

fn signed_text(v: i32) -> (r: String)
    ensures
        r@ == signed_decimal(v),
{
    let mut out: Vec<char> = Vec::new();
    if v < 0 {
        out.push('-');
        push_all(&mut out, &decimal_chars((0 - (v as i64)) as u64));
    } else {
        push_all(&mut out, &decimal_chars(v as u64));
    }
    assert(out@ =~= signed_decimal(v));
    string_of(&out)
}

fn unsigned_text(v: u32) -> (r: String)
    ensures
        r@ == decimal_of(v as nat),
{
    string_of(&decimal_chars(v as u64))
}

impl EngineConfig {
    /// The options sent to a new engine, in order: the number of lines,
    /// threads, hash size and contempt.
    pub fn setup_commands(&self, engine: &Engine) -> (r: Vec<String>)
        ensures
            view_strings(r@) == seq![
                setoption_text("MultiPV"@, decimal_of(self.multipv as nat)),
                setoption_text("Threads"@, decimal_of(self.threads as nat)),
                setoption_text("Hash"@, decimal_of(self.hash as nat)),
                setoption_text("Contempt"@, signed_decimal(self.contempt)),
            ],
    {
        let mut out: Vec<String> = Vec::new();
        out.push(engine.set_option("MultiPV", unsigned_text(self.multipv).as_str()));
        out.push(engine.set_option("Threads", unsigned_text(self.threads).as_str()));
        out.push(engine.set_option("Hash", unsigned_text(self.hash).as_str()));
        out.push(engine.set_option("Contempt", signed_text(self.contempt).as_str()));
        assert(view_strings(out@) =~= seq![
            setoption_text("MultiPV"@, decimal_of(self.multipv as nat)),
            setoption_text("Threads"@, decimal_of(self.threads as nat)),
            setoption_text("Hash"@, decimal_of(self.hash as nat)),
            setoption_text("Contempt"@, signed_decimal(self.contempt)),
        ]);
        out
    }
}

} // verus!
