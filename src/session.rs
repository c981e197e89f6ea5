//! When to start, stop and pause a search, and where the engine's events go.
//! Each operation returns the commands to write to the engine, in order.
use vstd::prelude::*;

use crate::analysis::{latest, lines_after, AnalysisState};
use crate::engine::{
    after_event, go_depth_text, position_text, started, stop_output, stopped, Engine, EngineModel,
};
use crate::protocol::EngineEvent;
use crate::text::view_strings;

verus! {

/// The search of the host's current position: the engine, if one is
/// attached, and what it reported.
#[derive(Debug)]
pub struct Session {
    pub analysis: AnalysisState,
    pub engine: Option<Engine>,
}

pub open spec fn engine_view(e: Option<Engine>) -> Option<EngineModel> {
    match e {
        Some(x) => Some(x@),
        None => None,
    }
}

pub open spec fn opt_seq(o: Option<Seq<char>>) -> Seq<Seq<char>> {
    match o {
        Some(c) => seq![c],
        None => seq![],
    }
}

/// Commands that start a search of `fen` to `depth` from engine state `s`.
pub open spec fn start_commands(s: EngineModel, fen: Seq<char>, depth: u32) -> Seq<Seq<char>> {
    opt_seq(stop_output(s)) + seq![position_text(Some(fen), seq![]), go_depth_text(depth)]
}

fn push_opt(cmds: &mut Vec<String>, c: Option<String>)
    ensures
        view_strings(final(cmds)@) == view_strings(old(cmds)@) + opt_seq(
            crate::protocol::opt_view(c),
        ),
{
    let ghost before = view_strings(cmds@);
    match c {
        Some(s) => {
            cmds.push(s);
            assert(view_strings(cmds@) =~= before + seq![s@]);
        },
        None => {
            assert(before + seq![] =~= before);
        },
    }
}

impl Session {
    pub fn new(engine: Option<Engine>, target_depth: u32) -> (r: Session)
        ensures
            r.engine == engine,
            r.analysis.target_depth == target_depth,
            r.analysis.lines@.len() == 0,
            !r.analysis.is_running,
            !r.analysis.is_paused,
    {
        Session { analysis: AnalysisState::new(target_depth), engine }
    }

    /// Restarts the search on `fen`: stops the running one, wipes what it
    /// reported, sets the position and searches to the target depth. Does
    /// nothing without an engine.
    pub fn start_analysis(&mut self, fen: &str) -> (r: Vec<String>)
        ensures
            old(self).engine is None ==> r@.len() == 0 && *final(self) == *old(self),
            old(self).engine is Some ==> {
                let e = old(self).engine->0@;
                &&& view_strings(r@) == start_commands(e, fen@, old(self).analysis.target_depth)
                &&& engine_view(final(self).engine) == Some(started(stopped(e)))
                &&& final(self).analysis.lines@.len() == 0
                &&& final(self).analysis.nodes is None
                &&& final(self).analysis.nps is None
                &&& final(self).analysis.hashfull is None
                &&& final(self).analysis.is_running
                &&& !final(self).analysis.is_paused
                &&& final(self).analysis.target_depth == old(self).analysis.target_depth
            },
    {
        let mut cmds: Vec<String> = Vec::new();
        match &mut self.engine {
            Some(engine) => {
                let s = engine.stop();
                push_opt(&mut cmds, s);
                self.analysis.clear();
                self.analysis.is_running = true;
                self.analysis.is_paused = false;
                let empty: Vec<String> = Vec::new();
                let ghost c0 = view_strings(cmds@);
                cmds.push(engine.set_position(Some(fen), empty.as_slice()));
                cmds.push(engine.go_depth(self.analysis.target_depth));
                assert(view_strings(empty@) =~= seq![]);
                assert(view_strings(cmds@) =~= c0 + seq![
                    position_text(Some(fen@), seq![]),
                    go_depth_text(self.analysis.target_depth),
                ]);
            },
            None => {},
        }
        cmds
    }

    /// Stops the search. Does nothing without an engine.
    pub fn stop_analysis(&mut self) -> (r: Vec<String>)
        ensures
            old(self).engine is None ==> r@.len() == 0 && *final(self) == *old(self),
            old(self).engine is Some ==> {
                let e = old(self).engine->0@;
                &&& view_strings(r@) == opt_seq(stop_output(e))
                &&& engine_view(final(self).engine) == Some(stopped(e))
                &&& !final(self).analysis.is_running
                &&& final(self).analysis.is_paused == old(self).analysis.is_paused
                &&& final(self).analysis.lines == old(self).analysis.lines
                &&& final(self).analysis.nodes == old(self).analysis.nodes
                &&& final(self).analysis.nps == old(self).analysis.nps
                &&& final(self).analysis.hashfull == old(self).analysis.hashfull
                &&& final(self).analysis.target_depth == old(self).analysis.target_depth
            },
    {
        let mut cmds: Vec<String> = Vec::new();
        match &mut self.engine {
            Some(engine) => {
                let s = engine.stop();
                push_opt(&mut cmds, s);
                self.analysis.is_running = false;
            },
            None => {},
        }
        cmds
    }

    /// Pauses a running analysis, or resumes a paused one on `fen`.
    pub fn toggle_pause(&mut self, fen: &str) -> (r: Vec<String>)
        ensures
            final(self).analysis.is_paused == !old(self).analysis.is_paused,
            old(self).engine is Some && !old(self).analysis.is_paused ==> {
                &&& view_strings(r@) == opt_seq(stop_output(old(self).engine->0@))
                &&& engine_view(final(self).engine) == Some(stopped(old(self).engine->0@))
                &&& !final(self).analysis.is_running
            },
            !old(self).analysis.is_paused ==> {
                &&& final(self).analysis.lines == old(self).analysis.lines
                &&& final(self).analysis.nodes == old(self).analysis.nodes
                &&& final(self).analysis.nps == old(self).analysis.nps
                &&& final(self).analysis.hashfull == old(self).analysis.hashfull
            },
            final(self).analysis.target_depth == old(self).analysis.target_depth,
            old(self).engine is Some && old(self).analysis.is_paused ==> {
                let e = old(self).engine->0@;
                &&& view_strings(r@) == start_commands(e, fen@, old(self).analysis.target_depth)
                &&& engine_view(final(self).engine) == Some(started(stopped(e)))
                &&& final(self).analysis.is_running
                &&& final(self).analysis.lines@.len() == 0
            },
            old(self).engine is None ==> r@.len() == 0 && final(self).engine == old(self).engine,
    {
        if self.analysis.is_paused {
            let cmds = self.start_analysis(fen);
            self.analysis.is_paused = false;
            cmds
        } else {
            let cmds = self.stop_analysis();
            self.analysis.is_paused = true;
            cmds
        }
    }

    /// Takes in an event of the engine: a report goes to the analysis, a
    /// best move ends the search. Ignored without an engine.
    pub fn handle_event(&mut self, event: EngineEvent)
        ensures
            old(self).engine is None ==> *final(self) == *old(self),
            old(self).engine is Some ==> {
                &&& engine_view(final(self).engine) == Some(
                    after_event(old(self).engine->0@, event),
                )
                &&& final(self).analysis.lines_view() == (match event {
                    EngineEvent::Info(i) => lines_after(old(self).analysis.lines_view(), i@),
                    _ => old(self).analysis.lines_view(),
                })
                &&& final(self).analysis.is_running == (match event {
                    EngineEvent::BestMove(_) => false,
                    _ => old(self).analysis.is_running,
                })
                &&& final(self).analysis.nodes == (match event {
                    EngineEvent::Info(i) => latest(old(self).analysis.nodes, i.nodes),
                    _ => old(self).analysis.nodes,
                })
                &&& final(self).analysis.nps == (match event {
                    EngineEvent::Info(i) => latest(old(self).analysis.nps, i.nps),
                    _ => old(self).analysis.nps,
                })
                &&& final(self).analysis.hashfull == (match event {
                    EngineEvent::Info(i) => latest(old(self).analysis.hashfull, i.hashfull),
                    _ => old(self).analysis.hashfull,
                })
                &&& final(self).analysis.target_depth == old(self).analysis.target_depth
                &&& final(self).analysis.is_paused == old(self).analysis.is_paused
            },
    {
        match &mut self.engine {
            Some(engine) => {
                engine.on_event(&event);
                match event {
                    EngineEvent::Info(info) => {
                        self.analysis.update(info);
                    },
                    EngineEvent::BestMove(_) => {
                        self.analysis.is_running = false;
                    },
                    _ => {},
                }
            },
            None => {},
        }
    }
}

} // verus!
