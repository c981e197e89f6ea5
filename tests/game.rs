use lazychess::config::PieceStyle;
use lazychess::game::{
    balance_of, missing_of, pair_moves, piece_symbol, piece_to_ascii, piece_to_char,
    piece_to_nerd_font, piece_to_unicode, Game, GameError, GameResult, PieceKind, Side,
};
use shakmaty::{Color, Piece, Role};

const START: &str = "rnbqkbnr/pppppppp/8/8/8/8/PPPPPPPP/RNBQKBNR w KQkq - 0 1";

#[test]
fn new_game_is_at_start() {
    let g = Game::new();
    assert_eq!(g.to_fen(), START);
    assert_eq!(g.turn(), Side::White);
    assert!(g.is_at_start());
    assert!(g.is_at_end());
    assert_eq!(g.legal_moves().len(), 20);
    assert!(g.last_move().is_none());
    assert_eq!(g.material_balance(), 0);
    let (w, b) = g.captured_pieces();
    assert!(w.is_empty() && b.is_empty());
}

#[test]
fn moves_and_navigation() {
    let mut g = Game::new();
    g.make_move_san("e4").unwrap();
    g.make_move_san("e5").unwrap();
    g.make_move_san("Nf3").unwrap();
    assert_eq!(g.current_index(), 3);
    assert_eq!(g.turn(), Side::Black);
    assert!(g.go_back());
    assert_eq!(g.current_index(), 2);
    assert_eq!(g.to_fen(), "rnbqkbnr/pppp1ppp/8/4p3/4P3/8/PPPP1PPP/RNBQKBNR w KQkq - 0 2");
    assert!(g.go_forward());
    assert!(!g.go_forward());
    g.go_to_start();
    assert_eq!(g.to_fen(), START);
    assert!(!g.go_back());
    g.go_to_end();
    assert_eq!(g.current_index(), 3);
    g.go_back();
    g.go_back();
    g.make_move_san("d5").unwrap();
    assert_eq!(g.moves().len(), 2);
    assert!(g.is_at_end());
    let rows = g.formatted_moves();
    assert_eq!(rows, vec![(1, "e4".to_string(), Some("d5".to_string()))]);
}

#[test]
fn refused_moves_and_fens() {
    let mut g = Game::new();
    assert_eq!(g.make_move_san("e5").unwrap_err(), GameError::IllegalMove);
    assert_eq!(g.make_move_san("zz9").unwrap_err(), GameError::InvalidSan);
    assert_eq!(Game::from_fen("not a fen").unwrap_err(), GameError::InvalidFen);
    assert_eq!(g.load_fen("8/8/8/8/8/8/8/8 w - - 0 1").unwrap_err(), GameError::InvalidPosition);
    assert_eq!(g.to_fen(), START);
}

#[test]
fn fen_game_black_first_and_outcome() {
    let mut g = Game::from_fen("rnbqkbnr/pppp1ppp/8/4p3/6P1/5P2/PPPPP2P/RNBQKBNR b KQkq - 0 2").unwrap();
    g.make_move_san("Qh4#").unwrap();
    assert!(g.is_game_over());
    assert_eq!(g.outcome(), Some(GameResult::Win(Side::Black)));
    let rows = g.formatted_moves();
    assert_eq!(rows, vec![(1, "...".to_string(), Some("Qh4".to_string()))]);
}

#[test]
fn material_and_captures() {
    let g = Game::from_fen("4k3/8/8/8/8/8/1P6/4K2R w - - 0 1").unwrap();
    assert_eq!(g.material_balance(), 500 + 100);
    let (white_took, black_took) = g.captured_pieces();
    assert_eq!(white_took.len(), 15);
    assert_eq!(white_took[0], PieceKind::Queen);
    assert_eq!(black_took.len(), 1 + 1 + 2 + 2 + 7);
    assert_eq!(black_took[0], PieceKind::Queen);
    assert_eq!(black_took[1], PieceKind::Rook);
}

#[test]
fn balance_and_missing_from_counts() {
    assert_eq!(balance_of(&[1, 2, 2, 2, 8], &[1, 2, 2, 2, 8]), 0);
    assert_eq!(balance_of(&[1, 2, 2, 2, 8], &[0, 2, 1, 2, 7]), 900 + 330 + 100);
    assert_eq!(balance_of(&[0, 0, 0, 0, 0], &[1, 0, 0, 1, 0]), -1220);
    assert_eq!(
        missing_of(&[0, 1, 2, 2, 6]),
        vec![PieceKind::Queen, PieceKind::Rook, PieceKind::Pawn, PieceKind::Pawn]
    );
    assert!(missing_of(&[2, 3, 2, 2, 9]).is_empty());
}

#[test]
fn pairing_rows() {
    let e = vec![
        ("e4".to_string(), true),
        ("e5".to_string(), false),
        ("Nf3".to_string(), true),
    ];
    assert_eq!(
        pair_moves(&e),
        vec![(1, "e4".to_string(), Some("e5".to_string())), (2, "Nf3".to_string(), None)]
    );
    let black_first = vec![("e5".to_string(), false), ("Nf3".to_string(), true)];
    assert_eq!(
        pair_moves(&black_first),
        vec![(1, "...".to_string(), Some("e5".to_string())), (2, "Nf3".to_string(), None)]
    );
    assert!(pair_moves(&Vec::new()).is_empty());
}

#[test]
fn piece_symbols() {
    assert_eq!(piece_to_unicode(Side::White, PieceKind::King), '♔');
    assert_eq!(piece_to_unicode(Side::Black, PieceKind::Pawn), '♟');
    assert_eq!(piece_to_nerd_font(PieceKind::Knight), '\u{f0858}');
    assert_eq!(piece_to_ascii(Side::White, PieceKind::Knight), 'N');
    assert_eq!(piece_to_ascii(Side::Black, PieceKind::Queen), 'q');
    assert_eq!(piece_symbol(Side::Black, PieceKind::Rook, PieceStyle::Ascii), 'r');
    let p = Piece { color: Color::Black, role: Role::Bishop };
    assert_eq!(piece_to_char(p, PieceStyle::Unicode), '♝');
    assert_eq!(piece_to_char(p, PieceStyle::Ascii), 'b');
    assert_eq!(piece_to_char(p, PieceStyle::NerdFont), '\u{f085c}');
}
