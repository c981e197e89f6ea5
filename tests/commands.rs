use lazychess::commands::{parse_depth, parse_multipv, submit_action, trim, SettingError, Submit};
use lazychess::game::{uci_to_san, Game, GameError};
use lazychess::input::InputMode;

#[test]
fn command_line_submissions() {
    assert_eq!(submit_action(InputMode::Command, ""), Submit::Nothing);
    assert_eq!(
        submit_action(InputMode::Command, ":fen  8/8/8/8/8/8/8/K6k w - - 0 1 "),
        Submit::LoadFen("8/8/8/8/8/8/8/K6k w - - 0 1".to_string())
    );
    assert_eq!(submit_action(InputMode::Command, ":pgn"), Submit::EnterPgn);
    assert_eq!(submit_action(InputMode::Normal, "Nf3"), Submit::PlayMove("Nf3".to_string()));
    assert_eq!(submit_action(InputMode::Command, ":fen"), Submit::PlayMove(":fen".to_string()));
}

#[test]
fn fen_and_pgn_submissions() {
    assert_eq!(
        submit_action(InputMode::Fen, ":fen k7/8/8/8/8/8/8/K7 w - - 0 1"),
        Submit::LoadFen("k7/8/8/8/8/8/8/K7 w - - 0 1".to_string())
    );
    assert_eq!(
        submit_action(InputMode::Fen, "\tk7/8/8/8/8/8/8/K7 w - - 0 1\u{3000}"),
        Submit::LoadFen("k7/8/8/8/8/8/8/K7 w - - 0 1".to_string())
    );
    assert_eq!(submit_action(InputMode::Fen, ":fen   "), Submit::Nothing);
    assert_eq!(submit_action(InputMode::Pgn, ""), Submit::FinishPgn);
    assert_eq!(submit_action(InputMode::Pgn, "1. e4 e5"), Submit::AddPgnLine("1. e4 e5".to_string()));
}

#[test]
fn trimming() {
    assert_eq!(trim("  a b \n"), "a b");
    assert_eq!(trim("\u{a0}x\u{2003}"), "x");
    assert_eq!(trim(" \t "), "");
    assert_eq!(trim(""), "");
}

#[test]
fn settings() {
    assert_eq!(parse_depth("20"), Ok(20));
    assert_eq!(parse_depth("100"), Ok(100));
    assert_eq!(parse_depth("101"), Err(SettingError::OutOfRange));
    assert_eq!(parse_depth("0"), Err(SettingError::OutOfRange));
    assert_eq!(parse_depth(""), Err(SettingError::NotANumber));
    assert_eq!(parse_depth("4294967296"), Err(SettingError::NotANumber));
    assert_eq!(parse_depth("4294967295"), Err(SettingError::OutOfRange));
    assert_eq!(parse_depth("+7"), Ok(7));
    assert_eq!(parse_multipv("10"), Ok(10));
    assert_eq!(parse_multipv("11"), Err(SettingError::OutOfRange));
    assert_eq!(parse_multipv("x"), Err(SettingError::NotANumber));
}

#[test]
fn engine_moves_on_the_board() {
    let mut g = Game::new();
    let pv = vec!["e2e4".to_string(), "e7e5".to_string(), "g1f3".to_string(), "a1a8".to_string(), "b8c6".to_string()];
    assert_eq!(uci_to_san(g.position(), &pv), vec!["e4", "e5", "Nf3"]);
    g.make_move_uci("e2e4").unwrap();
    assert_eq!(g.current_index(), 1);
    assert_eq!(g.make_move_uci("e2e4").unwrap_err(), GameError::IllegalMove);
    assert_eq!(g.make_move_uci("nonsense").unwrap_err(), GameError::IllegalMove);
}
