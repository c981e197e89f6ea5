use lazychess::analysis::AnalysisState;
use lazychess::protocol::{decode_line, format_score, AnalysisInfo, EngineEvent};

fn info_of(line: &str) -> AnalysisInfo {
    match decode_line(line) {
        Some(EngineEvent::Info(i)) => i,
        other => panic!("expected an info event, got {:?}", other),
    }
}

#[test]
fn info_without_pv_updates_stats_only() {
    let info = info_of("info depth 12 score cp 34 nodes 1000");
    assert_eq!(info.depth, Some(12));
    assert_eq!(info.score_cp, Some(34));
    assert_eq!(info.score_mate, None);
    assert_eq!(info.nodes, Some(1000));
    assert!(info.pv.is_empty());
    let mut st = AnalysisState::new(20);
    st.clear();
    st.update(info);
    assert_eq!(st.nodes, Some(1000));
    assert!(st.lines.is_empty());
}

#[test]
fn multipv_two_leaves_placeholder_at_rank_one() {
    let info = info_of("info multipv 2 pv e2e4 e7e5");
    let mut st = AnalysisState::new(20);
    st.clear();
    st.update(info);
    assert!(st.lines.len() >= 2);
    assert!(st.lines[0].pv.is_empty());
    assert_eq!(st.lines[0].depth, None);
    assert_eq!(st.lines[0].multipv, None);
    assert_eq!(st.lines[1].multipv, Some(2));
    assert_eq!(st.lines[1].pv, vec!["e2e4".to_string(), "e7e5".to_string()]);
}

#[test]
fn rank_three_first_grows_to_three() {
    let mut st = AnalysisState::new(20);
    st.update(info_of("info depth 5 multipv 3 score cp -12 pv d2d4"));
    assert_eq!(st.lines.len(), 3);
    assert!(st.lines[0].pv.is_empty());
    assert!(st.lines[1].pv.is_empty());
    assert_eq!(st.lines[2].pv, vec!["d2d4".to_string()]);
    assert_eq!(st.lines[2].score_cp, Some(-12));
}

#[test]
fn pv_tokens_pass_through_unchanged() {
    let info = info_of("info depth 3 pv e7e8q O-O a1a2 nodes 77");
    let decoded = info.pv.clone();
    assert_eq!(decoded, vec!["e7e8q".to_string(), "O-O".to_string(), "a1a2".to_string()]);
    assert_eq!(info.nodes, Some(77));
    let mut st = AnalysisState::new(20);
    st.update(info);
    assert_eq!(st.lines[0].pv, decoded);
}

#[test]
fn full_info_line() {
    let info = info_of(
        "info depth 20 seldepth 28 multipv 1 score mate -3 nodes 123456 nps 987654 hashfull 512 tbhits 0 time 1500 pv g1f3 d7d5",
    );
    assert_eq!(info.depth, Some(20));
    assert_eq!(info.seldepth, Some(28));
    assert_eq!(info.multipv, Some(1));
    assert_eq!(info.score_mate, Some(-3));
    assert_eq!(info.score_cp, None);
    assert_eq!(info.nodes, Some(123456));
    assert_eq!(info.nps, Some(987654));
    assert_eq!(info.hashfull, Some(512));
    assert_eq!(info.time_ms, Some(1500));
    assert_eq!(info.pv, vec!["g1f3".to_string(), "d7d5".to_string()]);
}

#[test]
fn unknown_attribute_is_skipped() {
    let info = info_of("info currmove e2e4 currmovenumber 1 depth 7 wibble nodes 9");
    assert_eq!(info.depth, Some(7));
    assert_eq!(info.nodes, Some(9));
}

#[test]
fn bad_number_is_skipped() {
    let info = info_of("info depth x12 nodes 99999999999999999999999 nps 5");
    assert_eq!(info.depth, None);
    assert_eq!(info.nodes, None);
    assert_eq!(info.nps, Some(5));
}

#[test]
fn info_string_is_a_comment() {
    let info = info_of("info string depth 9");
    assert_eq!(info.depth, None);
}

#[test]
fn ready_lines() {
    assert!(matches!(decode_line("uciok"), Some(EngineEvent::Ready)));
    assert!(matches!(decode_line("readyok"), Some(EngineEvent::Ready)));
    assert!(matches!(decode_line("  readyok \r"), Some(EngineEvent::Ready)));
}

#[test]
fn id_lines() {
    match decode_line("id name Stockfish 16.1") {
        Some(EngineEvent::Id { name, author }) => {
            assert_eq!(name.as_deref(), Some("Stockfish 16.1"));
            assert_eq!(author, None);
        }
        other => panic!("{:?}", other),
    }
    match decode_line("id author the  Stockfish developers") {
        Some(EngineEvent::Id { name, author }) => {
            assert_eq!(name, None);
            assert_eq!(author.as_deref(), Some("the Stockfish developers"));
        }
        other => panic!("{:?}", other),
    }
}

#[test]
fn bestmove_lines() {
    match decode_line("bestmove e2e4") {
        Some(EngineEvent::BestMove(b)) => {
            assert_eq!(b.best_move, "e2e4");
            assert_eq!(b.ponder, None);
        }
        other => panic!("{:?}", other),
    }
    match decode_line("bestmove e2e4 ponder e7e5") {
        Some(EngineEvent::BestMove(b)) => {
            assert_eq!(b.best_move, "e2e4");
            assert_eq!(b.ponder.as_deref(), Some("e7e5"));
        }
        other => panic!("{:?}", other),
    }
}

#[test]
fn option_lines() {
    match decode_line("option name Clear Hash type button") {
        Some(EngineEvent::Option(n)) => assert_eq!(n, "Clear Hash"),
        other => panic!("{:?}", other),
    }
    match decode_line("option name MultiPV type spin default 1 min 1 max 500") {
        Some(EngineEvent::Option(n)) => assert_eq!(n, "MultiPV"),
        other => panic!("{:?}", other),
    }
    assert!(decode_line("option name Hash").is_none());
}

#[test]
fn undecodable_lines_give_nothing() {
    assert!(decode_line("").is_none());
    assert!(decode_line("   ").is_none());
    assert!(decode_line("Stockfish 16 by the Stockfish developers").is_none());
    assert!(decode_line("bestmove").is_none());
    assert!(decode_line("id").is_none());
    assert!(decode_line("uciok now").is_none());
}

#[test]
fn stats_always_land() {
    let mut st = AnalysisState::new(20);
    st.update(info_of("info depth 1 pv e2e4 nodes 10 nps 100 hashfull 3"));
    st.update(info_of("info nodes 20"));
    assert_eq!(st.nodes, Some(20));
    assert_eq!(st.nps, Some(100));
    assert_eq!(st.hashfull, Some(3));
    assert_eq!(st.lines.len(), 1);
    assert_eq!(st.lines[0].depth, Some(1));
    st.update(info_of("info multipv 0 depth 4 pv d2d4"));
    assert_eq!(st.lines.len(), 1);
    assert_eq!(st.lines[0].depth, Some(4));
    st.clear();
    assert!(st.lines.is_empty());
    assert_eq!(st.nodes, None);
    assert_eq!(st.nps, None);
    assert_eq!(st.hashfull, None);
    assert_eq!(st.target_depth, 20);
}

#[test]
fn score_texts() {
    assert_eq!(format_score(Some(34), None), "+0.34");
    assert_eq!(format_score(Some(0), None), "+0.00");
    assert_eq!(format_score(Some(-5), None), "-0.05");
    assert_eq!(format_score(Some(-120), None), "-1.20");
    assert_eq!(format_score(Some(1234), None), "+12.34");
    assert_eq!(format_score(Some(50), Some(3)), "M3");
    assert_eq!(format_score(None, Some(-2)), "-M2");
    assert_eq!(format_score(None, Some(0)), "-M0");
    assert_eq!(format_score(None, None), "---");
    assert_eq!(format_score(None, Some(i32::MIN)), "-M2147483648");
}

#[test]
fn top_line_is_rank_one() {
    let mut st = AnalysisState::new(10);
    assert!(st.top_line().is_none());
    st.update(info_of("info multipv 2 depth 4 pv e2e4"));
    assert!(st.top_line().unwrap().pv.is_empty());
    st.update(info_of("info multipv 1 depth 6 pv d2d4"));
    assert_eq!(st.top_line().unwrap().depth, Some(6));
}

#[test]
fn ranked_lines_fill_with_placeholders() {
    let mut st = AnalysisState::new(10);
    st.update(info_of("info multipv 2 depth 4 pv e2e4"));
    let r = st.ranked_lines(3);
    assert_eq!(r.len(), 3);
    assert!(r[0].unwrap().pv.is_empty());
    assert_eq!(r[1].unwrap().pv, vec!["e2e4".to_string()]);
    assert!(r[2].is_none());
    assert_eq!(st.ranked_lines(1).len(), 1);
}
