use stockfish_chess::game::{GameError, GameOutcome, GameState, PlayerColor};

#[test]
fn test_new_game() {
    let game = GameState::new();
    assert_eq!(game.turn(), PlayerColor::White);
    assert_eq!(game.outcome(), GameOutcome::InProgress);
    assert!(!game.is_check());
}

#[test]
fn test_make_move() {
    let mut game = GameState::new();
    let result = game.make_move_san("e4");
    assert!(result.is_ok());
    assert_eq!(game.turn(), PlayerColor::Black);
}

#[test]
fn test_navigation() {
    let mut game = GameState::new();

    game.make_move_san("e4").unwrap();
    game.make_move_san("e5").unwrap();
    game.make_move_san("Nf3").unwrap();

    assert_eq!(game.current_index(), 3);

    game.go_back().unwrap();
    assert_eq!(game.current_index(), 2);

    game.go_forward().unwrap();
    assert_eq!(game.current_index(), 3);

    game.go_to_start();
    assert_eq!(game.current_index(), 0);

    game.go_to_end();
    assert_eq!(game.current_index(), 3);
}

#[test]
fn test_scholars_mate() {
    let mut game = GameState::new();
    game.make_move_san("e4").unwrap();
    game.make_move_san("e5").unwrap();
    game.make_move_san("Qh5").unwrap();
    game.make_move_san("Nc6").unwrap();
    game.make_move_san("Bc4").unwrap();
    game.make_move_san("Nf6").unwrap();
    game.make_move_san("Qxf7").unwrap();

    assert_eq!(game.outcome(), GameOutcome::Checkmate(PlayerColor::White));
}

#[test]
fn move_records_carry_san_uci_and_fen() {
    let mut game = GameState::new();
    let rec = game.make_move_uci("g1f3").unwrap();
    assert_eq!(rec.san, "Nf3");
    assert_eq!(rec.uci, "g1f3");
    assert_eq!(rec.resulting_fen, "rnbqkbnr/pppppppp/8/8/8/5N2/PPPPPPPP/RNBQKB1R b KQkq - 1 1");
    assert_eq!(game.fen(), rec.resulting_fen);
}

#[test]
fn invalid_moves_are_rejected() {
    let mut game = GameState::new();
    assert!(matches!(game.make_move_san("Ke2"), Err(GameError::InvalidMove(t)) if t == "Ke2"));
    assert!(matches!(game.make_move_uci("e2e5"), Err(GameError::InvalidMove(_))));
    assert_eq!(game.current_index(), 0);
    assert_eq!(game.position_count(), 1);
}

#[test]
fn navigation_errors_at_the_ends() {
    let mut game = GameState::new();
    assert!(matches!(game.go_back(), Err(GameError::NoPreviousPosition)));
    assert!(matches!(game.go_forward(), Err(GameError::NoNextPosition)));
    assert!(matches!(game.go_to_position(1), Err(GameError::InvalidMove(_))));
    assert!(!game.can_go_back());
    assert!(!game.can_go_forward());
}

#[test]
fn a_move_from_an_earlier_position_drops_the_later_ones() {
    let mut game = GameState::new();
    game.make_move_san("e4").unwrap();
    game.make_move_san("e5").unwrap();
    game.go_back().unwrap();
    game.make_move_san("c5").unwrap();
    assert_eq!(game.position_count(), 3);
    assert_eq!(game.current_index(), 2);
    let sans: Vec<&str> = game.move_history().iter().map(|m| m.san.as_str()).collect();
    assert_eq!(sans, vec!["e4", "c5"]);
    assert_eq!(game.last_move().unwrap().san, "c5");
}

#[test]
fn from_fen_reads_a_position_and_rejects_garbage() {
    let game = GameState::from_fen("8/8/8/8/8/8/8/K6k w - - 0 1").unwrap();
    assert_eq!(game.outcome(), GameOutcome::InsufficientMaterial);
    assert!(matches!(GameState::from_fen("not a fen"), Err(GameError::InvalidFen(_))));
}

#[test]
fn threefold_repetition_is_detected() {
    let mut game = GameState::new();
    for san in ["Nf3", "Nf6", "Ng1", "Ng8", "Nf3", "Nf6", "Ng1", "Ng8"] {
        game.make_move_san(san).unwrap();
    }
    assert_eq!(game.outcome(), GameOutcome::ThreefoldRepetition);
    assert!(matches!(game.make_move_san("e4"), Err(GameError::GameOver)));
}

#[test]
fn pieces_and_kings_are_found() {
    let game = GameState::new();
    assert_eq!(game.all_pieces().len(), 32);
    assert_eq!(game.legal_moves().len(), 20);
    assert_eq!(game.legal_moves_for_square(shakmaty::Square::G1).len(), 2);
    assert_eq!(game.king_square(PlayerColor::Black), Some(shakmaty::Square::E8));
    assert!(game.piece_at(shakmaty::Square::E4).is_none());
}

#[test]
fn last_move_squares_follow_the_uci_text() {
    let mut game = GameState::new();
    assert!(game.last_move_squares().is_none());
    game.make_move_san("e4").unwrap();
    assert_eq!(game.last_move_squares(), Some((shakmaty::Square::E2, shakmaty::Square::E4)));
}

#[test]
fn game_error_messages() {
    assert_eq!(GameError::InvalidMove("x".to_string()).message(), "Invalid move: x");
    assert_eq!(GameError::GameOver.message(), "Game is already over");
    assert_eq!(GameError::NoNextPosition.message(), "No next position");
}

#[test]
fn default_game_is_a_new_game() {
    let game = GameState::default();
    assert_eq!(game.current_index(), 0);
    assert_eq!(game.position_count(), 1);
    assert!(game.move_history().is_empty());
}
