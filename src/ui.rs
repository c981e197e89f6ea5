//! What the panels and popups of the screen show, and where a popup goes.
use vstd::prelude::*;

use crate::input::InputState;
use crate::text::{join_words, push_str, string_of, view_strings};

verus! {

/// The popup over the main screen, with the digits typed into it.
#[derive(Debug, Clone, PartialEq)]
pub enum Popup {
    /// No popup is open.
    Hidden,
    Help,
    Import,
    Depth(String),
    MultiPV(String),
}

/// A rectangle of terminal cells.
#[derive(Debug, Clone, Copy, PartialEq, Eq, Structural)]
pub struct Area {
    pub x: u16,
    pub y: u16,
    pub width: u16,
    pub height: u16,
}

/// `percent` of `len`, rounded down.
pub open spec fn share(len: u16, percent: u16) -> int {
    (len as int * percent as int) / 100
}

/// The list of shortcuts.
#[derive(Debug)]
pub struct HelpPopup;

impl HelpPopup {
    pub fn new() -> (r: HelpPopup) {
        HelpPopup
    }

    /// The area of `percent_x` by `percent_y` percent of `r`, centred in it.
    pub fn centered_rect(percent_x: u16, percent_y: u16, r: Area) -> (c: Area)
        requires
            percent_x <= 100,
            percent_y <= 100,
            r.x + r.width <= u16::MAX,
            r.y + r.height <= u16::MAX,
        ensures
            c.width == share(r.width, percent_x),
            c.height == share(r.height, percent_y),
            c.x == r.x + (r.width - share(r.width, percent_x)) / 2,
            c.y == r.y + (r.height - share(r.height, percent_y)) / 2,
    {
        let pw = r.width as u32;
        let ph = r.height as u32;
        assert(pw * percent_x as u32 <= 6553500 && pw * (percent_x as u32) / 100 <= pw) by (nonlinear_arith)
            requires
                percent_x <= 100,
                pw <= 65535,
        ;
        assert(ph * percent_y as u32 <= 6553500 && ph * (percent_y as u32) / 100 <= ph) by (nonlinear_arith)
            requires
                percent_y <= 100,
                ph <= 65535,
        ;
        let w = (pw * percent_x as u32 / 100) as u16;
        let h = (ph * percent_y as u32 / 100) as u16;
        Area { x: r.x + (r.width - w) / 2, y: r.y + (r.height - h) / 2, width: w, height: h }
    }
}

/// Asks for a new search depth.
#[derive(Debug)]
pub struct DepthPopup {
    current_depth: u32,
    input: String,
}

impl DepthPopup {
    pub fn new(current_depth: u32, input: &str) -> (r: DepthPopup)
        ensures
            r.current_depth() == current_depth,
            r.input_view() == input@,
    {
        DepthPopup { current_depth, input: String::from_str(input) }
    }

    pub closed spec fn current_depth(&self) -> u32 {
        self.current_depth
    }

    pub closed spec fn input_view(&self) -> Seq<char> {
        self.input@
    }

    /// The depth searched now.
    pub fn depth(&self) -> (r: u32)
        ensures
            r == self.current_depth(),
    {
        self.current_depth
    }

    /// The digits typed so far.
    pub fn input(&self) -> (r: &str)
        ensures
            r@ == self.input_view(),
    {
        self.input.as_str()
    }
}

/// Asks for a new number of lines.
#[derive(Debug)]
pub struct MultiPVPopup {
    current_multipv: u32,
    input: String,
}

impl MultiPVPopup {
    pub fn new(current_multipv: u32, input: &str) -> (r: MultiPVPopup)
        ensures
            r.current_multipv() == current_multipv,
            r.input_view() == input@,
    {
        MultiPVPopup { current_multipv, input: String::from_str(input) }
    }

    pub closed spec fn current_multipv(&self) -> u32 {
        self.current_multipv
    }

    pub closed spec fn input_view(&self) -> Seq<char> {
        self.input@
    }

    /// The number of lines shown now.
    pub fn multipv(&self) -> (r: u32)
        ensures
            r == self.current_multipv(),
    {
        self.current_multipv
    }

    /// The digits typed so far.
    pub fn input(&self) -> (r: &str)
        ensures
            r@ == self.input_view(),
    {
        self.input.as_str()
    }
}

/// Offers the ways to load a position.
#[derive(Debug)]
pub struct ImportPopup;

impl ImportPopup {
    pub fn new() -> (r: ImportPopup) {
        ImportPopup
    }
}

/// The input line as shown.
pub struct InputWidget<'a> {
    state: &'a InputState,
}

impl<'a> InputWidget<'a> {
    pub fn new(state: &'a InputState) -> (r: InputWidget<'a>)
        ensures
            r.state() == state,
    {
        InputWidget { state }
    }

    pub closed spec fn state(&self) -> &'a InputState {
        self.state
    }

    /// The input line shown.
    pub fn input(&self) -> (r: &'a InputState)
        ensures
            r == self.state(),
    {
        self.state
    }
}

/// The bar of shortcuts at the foot of the screen.
#[derive(Debug)]
pub struct HelpBarWidget {
    show_input_help: bool,
}

impl HelpBarWidget {
    /// `show_input_help`: show the keys of the input line rather than the shortcuts.
    pub fn new(show_input_help: bool) -> (r: HelpBarWidget)
        ensures
            r.input_help() == show_input_help,
    {
        HelpBarWidget { show_input_help }
    }

    pub closed spec fn input_help(&self) -> bool {
        self.show_input_help
    }

    pub fn shows_input_help(&self) -> (r: bool)
        ensures
            r == self.input_help(),
    {
        self.show_input_help
    }
}

/// The principal variation as shown: its first six moves with one space
/// between each two, cut to 24 characters and `...` where longer.
pub open spec fn pv_summary_text(moves: Seq<Seq<char>>) -> Seq<char> {
    let shown = join_words(if moves.len() > 6 {
        moves.subrange(0, 6)
    } else {
        moves
    });
    if shown.len() > 24 {
        shown.subrange(0, 24) + "..."@
    } else {
        shown
    }
}

/// The principal variation as shown in the analysis panel.
pub fn pv_summary(moves: &[String]) -> (r: String)
    ensures
        r@ == pv_summary_text(view_strings(moves@)),
{
    let ghost all = view_strings(moves@);
    let n: usize = if moves.len() > 6 {
        6
    } else {
        moves.len()
    };
    let ghost ms = if moves@.len() > 6 {
        all.subrange(0, 6)
    } else {
        all
    };
    assert(ms =~= all.subrange(0, n as int));
    let mut v: Vec<char> = Vec::new();
    let mut i: usize = 0;
    assert(all.subrange(0, 0) =~= Seq::<Seq<char>>::empty());
    while i < n
        invariant
            n <= moves@.len(),
            i <= n,
            all == view_strings(moves@),
            v@ == join_words(all.subrange(0, i as int)),
        decreases n - i,
    {
        let ghost pre = all.subrange(0, i as int);
        let ghost next = all.subrange(0, i + 1);
        assert(next.drop_last() =~= pre);
        if i > 0 {
            v.push(' ');
        }
        push_str(&mut v, moves[i].as_str());
        assert(next.last() == moves@[i as int]@);
        assert(v@ =~= join_words(next));
        i = i + 1;
    }
    if v.len() > 24 {
        let mut w: Vec<char> = Vec::new();
        let mut k: usize = 0;
        while k < 24
            invariant
                k <= 24 < v@.len(),
                w@ == v@.subrange(0, k as int),
            decreases 24 - k,
        {
            w.push(v[k]);
            k = k + 1;
            assert(w@ =~= v@.subrange(0, k as int));
        }
        push_str(&mut w, "...");
        string_of(&w)
    } else {
        string_of(&v)
    }
}

/// Rows of the move list above the one holding the move at `current_idx`:
/// the leading rows whose white move comes before it.
pub open spec fn rows_before(nums: Seq<usize>, current_idx: usize) -> nat
    decreases nums.len(),
{
    if nums.len() > 0 && (nums[0] - 1) * 2 + 1 < current_idx {
        1 + rows_before(nums.drop_first(), current_idx)
    } else {
        0
    }
}

/// The first row of the move list shown, so that the current move stays in
/// view of `visible_height` rows.
pub open spec fn scroll_of(nums: Seq<usize>, current_idx: usize, visible_height: usize, total_lines: usize) -> int {
    let line = rows_before(nums, current_idx);
    let s: int = if line >= visible_height {
        if line >= visible_height / 2 {
            line - visible_height / 2
        } else {
            0
        }
    } else {
        0
    };
    let cap: int = if total_lines >= visible_height {
        total_lines - visible_height
    } else {
        0
    };
    if s < cap {
        s
    } else {
        cap
    }
}

/// The first row of the move list to show; `nums` are the row numbers.
pub fn scroll_offset(nums: &[usize], current_idx: usize, visible_height: usize, total_lines: usize) -> (r: usize)
    ensures
        r == scroll_of(nums@, current_idx, visible_height, total_lines),
{
    let mut line: usize = 0;
    assert(nums@.subrange(0, nums@.len() as int) =~= nums@);
    while line < nums.len() && nums[line] <= current_idx / 2
        invariant
            line <= nums@.len(),
            rows_before(nums@, current_idx) == line + rows_before(
                nums@.subrange(line as int, nums@.len() as int),
                current_idx,
            ),
        decreases nums@.len() - line,
    {
        let ghost rest = nums@.subrange(line as int, nums@.len() as int);
        assert(rest.drop_first() =~= nums@.subrange(line + 1, nums@.len() as int));
        assert(((rest[0] - 1) * 2 + 1 < current_idx) == (rest[0] <= current_idx / 2));
        line = line + 1;
    }
    proof {
        let rest = nums@.subrange(line as int, nums@.len() as int);
        if line < nums@.len() {
            assert(((rest[0] - 1) * 2 + 1 < current_idx) == (rest[0] <= current_idx / 2));
        }
    }
    let s = if line >= visible_height {
        line.saturating_sub(visible_height / 2)
    } else {
        0
    };
    let cap = total_lines.saturating_sub(visible_height);
    if s < cap {
        s
    } else {
        cap
    }
}

} // verus!
