//! The aggregate of a running search: the best line found for each rank,
//! and the latest search statistics.
use vstd::prelude::*;

use crate::protocol::{
    decode_spec, empty_info, info_from, lemma_info_pv_is_run, AnalysisInfo, EventModel, InfoModel,
};
use crate::text::words;

verus! {

/// What is known of the current search.
#[derive(Debug, Clone)]
pub struct AnalysisState {
    /// Depth the search is asked to reach.
    pub target_depth: u32,
    /// One entry per rank (index = rank - 1); ranks not reported yet hold a
    /// placeholder with no field set.
    pub lines: Vec<AnalysisInfo>,
    pub is_running: bool,
    pub is_paused: bool,
    /// Latest node count, whatever line it came with.
    pub nodes: Option<u64>,
    /// Latest nodes per second.
    pub nps: Option<u64>,
    /// Latest hash usage, per mille.
    pub hashfull: Option<u32>,
}

pub open spec fn view_infos(v: Seq<AnalysisInfo>) -> Seq<InfoModel> {
    v.map_values(|i: AnalysisInfo| i@)
}

/// Slot of a report: its rank minus one, rank 1 where it gives none.
pub open spec fn line_index(m: InfoModel) -> nat {
    match m.multipv {
        Some(r) => if r == 0 {
            0
        } else {
            (r - 1) as nat
        },
        None => 0,
    }
}

/// `lines`, extended with placeholders so that it holds index `idx`.
pub open spec fn grown(lines: Seq<InfoModel>, idx: nat) -> Seq<InfoModel> {
    if idx < lines.len() {
        lines
    } else {
        lines + Seq::new((idx + 1 - lines.len()) as nat, |_k: int| empty_info())
    }
}

/// The lines after report `m`: a report with a principal variation replaces
/// the slot of its rank; one without leaves the lines as they are.
pub open spec fn lines_after(lines: Seq<InfoModel>, m: InfoModel) -> Seq<InfoModel> {
    if m.pv.len() == 0 {
        lines
    } else {
        grown(lines, line_index(m)).update(line_index(m) as int, m)
    }
}

/// `new` where it is set, `old` otherwise.
pub open spec fn latest<T>(old: Option<T>, new: Option<T>) -> Option<T> {
    if new is Some {
        new
    } else {
        old
    }
}

impl AnalysisState {
    pub open spec fn lines_view(&self) -> Seq<InfoModel> {
        view_infos(self.lines@)
    }

    pub fn new(target_depth: u32) -> (r: AnalysisState)
        ensures
            r.target_depth == target_depth,
            r.lines@.len() == 0,
            !r.is_running,
            !r.is_paused,
            r.nodes is None,
            r.nps is None,
            r.hashfull is None,
    {
        AnalysisState {
            target_depth,
            lines: Vec::new(),
            is_running: false,
            is_paused: false,
            nodes: None,
            nps: None,
            hashfull: None,
        }
    }

    /// Takes in one report. Its statistics always land; its line lands only
    /// where it carries a principal variation.
    pub fn update(&mut self, info: AnalysisInfo)
        ensures
            final(self).lines_view() == lines_after(old(self).lines_view(), info@),
            final(self).nodes == latest(old(self).nodes, info.nodes),
            final(self).nps == latest(old(self).nps, info.nps),
            final(self).hashfull == latest(old(self).hashfull, info.hashfull),
            final(self).target_depth == old(self).target_depth,
            final(self).is_running == old(self).is_running,
            final(self).is_paused == old(self).is_paused,
    {
        if info.nodes.is_some() {
            self.nodes = info.nodes;
        }
        if info.nps.is_some() {
            self.nps = info.nps;
        }
        if info.hashfull.is_some() {
            self.hashfull = info.hashfull;
        }
        let idx: usize = match info.multipv {
            Some(r) => if r == 0 {
                0
            } else {
                (r - 1) as usize
            },
            None => 0,
        };
        if info.pv.len() > 0 {
            let ghost old_lines = self.lines_view();
            let ghost m = info@;
            let ghost before_loop = *self;
            while self.lines.len() <= idx
                invariant
                    self.nodes == before_loop.nodes,
                    self.nps == before_loop.nps,
                    self.hashfull == before_loop.hashfull,
                    self.target_depth == before_loop.target_depth,
                    self.is_running == before_loop.is_running,
                    self.is_paused == before_loop.is_paused,
                    idx == line_index(m),
                    self.lines_view().len() <= idx + 1 || self.lines_view().len() == old_lines.len(),
                    old_lines.len() <= idx ==> self.lines_view() == old_lines + Seq::new(
                        (self.lines_view().len() - old_lines.len()) as nat,
                        |_k: int| empty_info(),
                    ),
                    old_lines.len() > idx ==> self.lines_view() == old_lines,
                decreases idx + 1 - self.lines@.len(),
            {
                let ghost before = self.lines_view();
                self.lines.push(AnalysisInfo::default());
                assert(self.lines_view() =~= before.push(empty_info()));
                assert(self.lines_view() =~= old_lines + Seq::new(
                    (self.lines_view().len() - old_lines.len()) as nat,
                    |_k: int| empty_info(),
                ));
            }
            assert(self.lines_view() =~= grown(old_lines, idx as nat));
            self.lines.set(idx, info);
            assert(self.lines_view() =~= grown(old_lines, idx as nat).update(idx as int, m));
        }
    }

    /// The engine's best line so far: the slot of rank 1, if any line was
    /// reported.
    pub fn top_line(&self) -> (r: Option<&AnalysisInfo>)
        ensures
            r is Some <==> self.lines@.len() > 0,
            r is Some ==> r->0@ == self.lines_view()[0],
    {
        if self.lines.len() > 0 {
            Some(&self.lines[0])
        } else {
            None
        }
    }

    /// The lines shown for the first `count` ranks: the slot of each rank
    /// where the array holds one, `None` (a placeholder) past its end.
    pub fn ranked_lines(&self, count: usize) -> (r: Vec<Option<&AnalysisInfo>>)
        ensures
            r@.len() == count,
            forall|k: int|
                0 <= k < count && k < self.lines@.len() ==> #[trigger] r@[k] is Some && r@[k]->0@
                    == self.lines_view()[k],
            forall|k: int| 0 <= k < count && k >= self.lines@.len() ==> #[trigger] r@[k] is None,
    {
        let mut out: Vec<Option<&AnalysisInfo>> = Vec::new();
        let mut k: usize = 0;
        while k < count
            invariant
                k <= count,
                out@.len() == k,
                forall|j: int|
                    0 <= j < k && j < self.lines@.len() ==> #[trigger] out@[j] is Some && out@[j]->0@
                        == self.lines_view()[j],
                forall|j: int| 0 <= j < k && j >= self.lines@.len() ==> #[trigger] out@[j] is None,
            decreases count - k,
        {
            if k < self.lines.len() {
                out.push(Some(&self.lines[k]));
            } else {
                out.push(None);
            }
            k = k + 1;
        }
        out
    }

    /// Forgets the lines and statistics of the previous search.
    pub fn clear(&mut self)
        ensures
            final(self).lines@.len() == 0,
            final(self).nodes is None,
            final(self).nps is None,
            final(self).hashfull is None,
            final(self).target_depth == old(self).target_depth,
            final(self).is_running == old(self).is_running,
            final(self).is_paused == old(self).is_paused,
    {
        self.lines.clear();
        self.nodes = None;
        self.nps = None;
        self.hashfull = None;
    }
}

/// A report with a principal variation for rank `r` fills slot `r - 1`:
/// the lines grow to hold it, slots below that were never reported hold
/// placeholders, and every other slot is kept.
pub proof fn report_fills_its_slot(lines: Seq<InfoModel>, m: InfoModel)
    requires
        m.pv.len() > 0,
    ensures
        lines_after(lines, m).len() == if line_index(m) < lines.len() {
            lines.len()
        } else {
            line_index(m) + 1
        },
        lines_after(lines, m)[line_index(m) as int] == m,
        forall|k: int|
            0 <= k < lines.len() && k != line_index(m) ==> #[trigger] lines_after(lines, m)[k]
                == lines[k],
        forall|k: int|
            lines.len() <= k < line_index(m) ==> #[trigger] lines_after(lines, m)[k]
                == empty_info(),
{
}

/// A report without a principal variation leaves the lines as they are.
pub proof fn report_without_pv_keeps_lines(lines: Seq<InfoModel>, m: InfoModel)
    requires
        m.pv.len() == 0,
    ensures
        lines_after(lines, m) == lines,
{
}

/// The moves of a principal variation go through unchanged: decoding takes
/// them as consecutive words of the line, and the aggregate stores them as
/// decoded.
pub proof fn pv_passes_through(line: Seq<char>, lines: Seq<InfoModel>, m: InfoModel)
    requires
        decode_spec(line) == Some(EventModel::Info(m)),
        m.pv.len() > 0,
    ensures
        exists|x: int, y: int|
            0 <= x <= y <= words(line).len() && m.pv == #[trigger] words(line).subrange(x, y),
        lines_after(lines, m)[line_index(m) as int].pv == m.pv,
{
    let t = words(line);
    lemma_info_pv_is_run(t, 1, empty_info());
    assert(m == info_from(t, 1, empty_info()));
}

} // verus!
