use lazychess::config::{default_piece_style, Config, PieceStyle, UiConfig};
use lazychess::input::{InputMode, InputState};
use lazychess::pgn::movetext_moves;
use lazychess::ui::{Area, DepthPopup, HelpBarWidget, HelpPopup, InputWidget, MultiPVPopup};

#[test]
fn typing_and_editing() {
    let mut s = InputState::default();
    s.enter_command_mode();
    assert_eq!(s.mode, InputMode::Command);
    for c in "Nf3".chars() {
        s.insert(c);
    }
    assert_eq!(s.buffer, "Nf3");
    assert_eq!(s.cursor, 3);
    s.move_left();
    s.backspace();
    assert_eq!(s.buffer, "N3");
    assert_eq!(s.cursor, 1);
    s.insert('é');
    s.insert('x');
    assert_eq!(s.buffer, "Néx3");
    s.move_start();
    s.delete();
    assert_eq!(s.buffer, "éx3");
    s.move_end();
    assert_eq!(s.cursor, 3);
    s.move_right();
    assert_eq!(s.cursor, 3);
    s.delete();
    assert_eq!(s.buffer, "éx3");
    s.move_start();
    s.move_left();
    s.backspace();
    assert_eq!(s.cursor, 0);
    assert_eq!(s.buffer, "éx3");
    let taken = s.take();
    assert_eq!(taken, "éx3");
    assert_eq!(s.buffer, "");
    assert_eq!(s.cursor, 0);
    assert!(s.is_input_mode());
}

#[test]
fn messages_replace_each_other() {
    let mut s = InputState::default();
    s.set_error("bad");
    assert_eq!(s.error.as_deref(), Some("bad"));
    s.set_message("good");
    assert_eq!(s.message.as_deref(), Some("good"));
    assert_eq!(s.error, None);
    s.insert('a');
    assert_eq!(s.message, None);
}

#[test]
fn modes() {
    let mut s = InputState::default();
    assert!(!s.is_input_mode());
    s.enter_fen_mode();
    assert_eq!(s.buffer, ":fen ");
    assert_eq!(s.cursor, 5);
    s.enter_pgn_mode();
    assert_eq!(s.mode, InputMode::Pgn);
    assert_eq!(s.buffer, "");
    s.pgn_buffer.push("1. e4".to_string());
    s.exit_mode();
    assert_eq!(s.mode, InputMode::Normal);
    assert!(s.pgn_buffer.is_empty());
    s.insert('z');
    s.clear();
    assert_eq!(s.buffer, "");
}

#[test]
fn piece_styles() {
    let mut ui = UiConfig::default();
    assert_eq!(ui.piece_style, default_piece_style());
    assert_eq!(ui.get_piece_style(), PieceStyle::NerdFont);
    ui.piece_style = "UniCode".to_string();
    assert_eq!(ui.get_piece_style(), PieceStyle::Unicode);
    ui.piece_style = "LETTERS".to_string();
    assert_eq!(ui.get_piece_style(), PieceStyle::Ascii);
    ui.piece_style = "fancy".to_string();
    assert_eq!(ui.get_piece_style(), PieceStyle::NerdFont);
    assert_eq!(PieceStyle::from_name("ascii"), PieceStyle::Ascii);
    assert_eq!(PieceStyle::from_name("ASCII"), PieceStyle::NerdFont);
}

#[test]
fn default_config() {
    let c = Config::default();
    assert_eq!(c.engine.path, None);
    assert_eq!(c.engine.depth, 20);
    assert_eq!(c.engine.multipv, 3);
    assert_eq!(c.engine.threads, 4);
    assert_eq!(c.engine.hash, 256);
    assert_eq!(c.engine.contempt, 0);
    assert!(!c.ui.flip_board);
    assert!(c.ui.show_coordinates);
    assert!(c.ui.highlight_last_move);
    let mut c2 = c.clone();
    c2.engine.path = Some("/opt/engine".to_string());
    assert_eq!(c2.stockfish_path().as_deref(), Some("/opt/engine"));
}

#[test]
fn popup_geometry() {
    let r = Area { x: 0, y: 0, width: 100, height: 50 };
    assert_eq!(HelpPopup::centered_rect(60, 80, r), Area { x: 20, y: 5, width: 60, height: 40 });
    let r2 = Area { x: 3, y: 1, width: 81, height: 25 };
    assert_eq!(HelpPopup::centered_rect(30, 30, r2), Area { x: 31, y: 10, width: 24, height: 7 });
    let big = Area { x: 0, y: 0, width: 65535, height: 1000 };
    assert_eq!(HelpPopup::centered_rect(100, 0, big), Area { x: 0, y: 500, width: 65535, height: 0 });
}

#[test]
fn popups_and_widgets_hold_their_values() {
    let d = DepthPopup::new(20, "1");
    assert_eq!(d.depth(), 20);
    assert_eq!(d.input(), "1");
    let m = MultiPVPopup::new(3, "");
    assert_eq!(m.multipv(), 3);
    assert_eq!(m.input(), "");
    let s = InputState::default();
    let w = InputWidget::new(&s);
    assert_eq!(w.input().cursor, 0);
    assert!(HelpBarWidget::new(true).shows_input_help());
}

#[test]
fn pgn_movetext() {
    let pgn = "[Event]\n[Site]\n\n1. e4 e5 2. Nf3 {a comment here} Nc6 (2... d6 3. d4) 3. Bb5?! a6!? 4. Bxc6+ dxc6 5. O-O# 1-0";
    assert_eq!(
        movetext_moves(pgn),
        vec!["e4", "e5", "Nf3", "Nc6", "Bb5", "a6!", "Bxc6", "dxc6", "O-O"]
    );
    assert_eq!(movetext_moves("[Event \"Casual\"] e4"), vec!["\"Casual\"]", "e4"]);
    assert!(movetext_moves("").is_empty());
    assert_eq!(movetext_moves("1... e5 *"), vec!["e5"]);
    assert_eq!(movetext_moves("{one} e4 {two words} d5"), vec!["e4", "d5"]);
}

#[test]
fn engine_setup_commands() {
    let mut c = Config::default();
    c.engine.contempt = -25;
    let e = lazychess::engine::Engine::new();
    assert_eq!(
        c.engine.setup_commands(&e),
        vec![
            "setoption name MultiPV value 3".to_string(),
            "setoption name Threads value 4".to_string(),
            "setoption name Hash value 256".to_string(),
            "setoption name Contempt value -25".to_string(),
        ]
    );
}

#[test]
fn cursor_moves_keep_the_rest() {
    let mut s = InputState::default();
    s.enter_command_mode();
    s.insert('a');
    s.set_error("x");
    s.move_left();
    s.move_right();
    s.move_right();
    assert_eq!(s.cursor, 1);
    assert_eq!(s.error.as_deref(), Some("x"));
    assert_eq!(s.mode, InputMode::Command);
    s.cursor = 9;
    s.move_right();
    assert_eq!(s.cursor, 1);
    s.cursor = 9;
    s.delete();
    assert_eq!(s.buffer, "a");
}
