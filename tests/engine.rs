use lazychess::engine::{Engine, EngineError, HandshakeStep, Phase, Poll};
use lazychess::protocol::{decode_line, EngineEvent};
use lazychess::session::Session;

fn event(line: &str) -> EngineEvent {
    decode_line(line).expect("a decodable line")
}

#[test]
fn stop_twice_sends_one_stop() {
    let mut e = Engine::new();
    let mut sent: Vec<String> = Vec::new();
    sent.push(e.go_depth(10));
    if let Some(c) = e.stop() {
        sent.push(c);
    }
    if let Some(c) = e.stop() {
        sent.push(c);
    }
    assert_eq!(sent, vec!["go depth 10".to_string(), "stop".to_string()]);
    assert!(!e.is_analyzing());
}

#[test]
fn silent_engine_times_out() {
    let mut e = Engine::new();
    assert_eq!(e.handshake(Poll::Empty, 0, 5000), HandshakeStep::Waiting);
    assert_eq!(e.handshake(Poll::Empty, 4999, 5000), HandshakeStep::Waiting);
    assert_eq!(
        e.handshake(Poll::Empty, 5000, 5000),
        HandshakeStep::Failed(EngineError::HandshakeTimeout)
    );
    assert_eq!(e.phase(), Phase::Handshaking);
}

#[test]
fn handshake_collects_id_then_ready() {
    let mut e = Engine::new();
    assert_eq!(Engine::uci_command(), "uci");
    assert_eq!(e.handshake(Poll::Event(event("id name Fish 1")), 10, 5000), HandshakeStep::Waiting);
    assert_eq!(e.handshake(Poll::Event(event("id author Someone")), 20, 5000), HandshakeStep::Waiting);
    assert_eq!(
        e.handshake(Poll::Event(event("option name Hash type spin")), 30, 5000),
        HandshakeStep::Waiting
    );
    assert_eq!(e.handshake(Poll::Event(event("uciok")), 40, 5000), HandshakeStep::Done);
    assert_eq!(e.phase(), Phase::Ready);
    assert_eq!(e.name().as_deref(), Some("Fish 1"));
    assert_eq!(e.author().as_deref(), Some("Someone"));
}

#[test]
fn handshake_fails_when_output_ends() {
    let mut e = Engine::new();
    assert_eq!(
        e.handshake(Poll::Disconnected, 0, 5000),
        HandshakeStep::Failed(EngineError::Terminated)
    );
}

#[test]
fn bestmove_ends_analysis() {
    let mut e = Engine::new();
    e.go_infinite();
    assert!(e.is_analyzing());
    e.on_event(&event("info depth 3 pv e2e4"));
    assert!(e.is_analyzing());
    e.on_event(&event("bestmove e2e4"));
    assert!(!e.is_analyzing());
    assert_eq!(e.stop(), None);
}

#[test]
fn go_depth_twice_sends_two_commands() {
    let mut e = Engine::new();
    let first = e.go_depth(10);
    let second = e.go_depth(10);
    assert_eq!(first, "go depth 10");
    assert_eq!(second, "go depth 10");
    assert!(e.is_analyzing());
}

#[test]
fn command_texts() {
    let mut e = Engine::new();
    assert_eq!(e.set_option("MultiPV", "3"), "setoption name MultiPV value 3");
    assert_eq!(e.set_position(None, &[]), "position startpos");
    assert_eq!(
        e.set_position(None, &["e2e4".to_string(), "e7e5".to_string()]),
        "position startpos moves e2e4 e7e5"
    );
    assert_eq!(
        e.set_position(Some("8/8/8/8/8/8/8/K6k w - - 0 1"), &[]),
        "position fen 8/8/8/8/8/8/8/K6k w - - 0 1"
    );
    assert_eq!(e.go_infinite(), "go infinite");
    assert_eq!(e.go_depth(0), "go depth 0");
    assert_eq!(e.go_depth(4294967295), "go depth 4294967295");
    assert_eq!(e.new_game(), "ucinewgame");
    assert_eq!(e.quit(), "quit");
    assert_eq!(e.phase(), Phase::Closed);
}

#[test]
fn session_start_stop_and_events() {
    let mut s = Session::new(Some(Engine::new()), 12);
    let fen = "rnbqkbnr/pppppppp/8/8/4P3/8/PPPP1PPP/RNBQKBNR b KQkq - 0 1";
    let cmds = s.start_analysis(fen);
    assert_eq!(cmds, vec![format!("position fen {}", fen), "go depth 12".to_string()]);
    assert!(s.analysis.is_running);
    s.handle_event(event("info depth 5 score cp 20 pv e7e5 nodes 50"));
    assert_eq!(s.analysis.lines.len(), 1);
    assert_eq!(s.analysis.nodes, Some(50));
    let again = s.start_analysis(fen);
    assert_eq!(
        again,
        vec!["stop".to_string(), format!("position fen {}", fen), "go depth 12".to_string()]
    );
    assert!(s.analysis.lines.is_empty());
    assert_eq!(s.analysis.nodes, None);
    s.handle_event(event("bestmove e7e5"));
    assert!(!s.analysis.is_running);
    assert!(!s.engine.as_ref().unwrap().is_analyzing());
    assert!(s.stop_analysis().is_empty());
}

#[test]
fn session_pause_and_resume() {
    let mut s = Session::new(Some(Engine::new()), 8);
    s.start_analysis("k7/8/8/8/8/8/8/K7 w - - 0 1");
    let paused = s.toggle_pause("k7/8/8/8/8/8/8/K7 w - - 0 1");
    assert_eq!(paused, vec!["stop".to_string()]);
    assert!(s.analysis.is_paused);
    assert!(!s.analysis.is_running);
    let resumed = s.toggle_pause("k7/8/8/8/8/8/8/K7 w - - 0 1");
    assert_eq!(
        resumed,
        vec!["position fen k7/8/8/8/8/8/8/K7 w - - 0 1".to_string(), "go depth 8".to_string()]
    );
    assert!(!s.analysis.is_paused);
    assert!(s.analysis.is_running);
}

#[test]
fn session_without_engine_does_nothing() {
    let mut s = Session::new(None, 8);
    assert!(s.start_analysis("k7/8/8/8/8/8/8/K7 w - - 0 1").is_empty());
    assert!(!s.analysis.is_running);
    s.handle_event(event("info depth 1 pv a2a3"));
    assert!(s.analysis.lines.is_empty());
    assert!(s.stop_analysis().is_empty());
}

#[test]
fn session_events_keep_stats_and_pause_keeps_lines() {
    let mut s = Session::new(Some(Engine::new()), 6);
    s.start_analysis("k7/8/8/8/8/8/8/K7 w - - 0 1");
    s.handle_event(event("info depth 2 pv a1a2 nodes 10 nps 20 hashfull 3"));
    s.handle_event(event("info nodes 11"));
    assert_eq!((s.analysis.nodes, s.analysis.nps, s.analysis.hashfull), (Some(11), Some(20), Some(3)));
    s.handle_event(event("readyok"));
    assert_eq!(s.analysis.nodes, Some(11));
    assert_eq!(s.analysis.target_depth, 6);
    s.toggle_pause("k7/8/8/8/8/8/8/K7 w - - 0 1");
    assert!(s.analysis.is_paused);
    assert_eq!(s.analysis.lines.len(), 1);
    assert_eq!(s.analysis.nodes, Some(11));
}
