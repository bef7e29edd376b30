use stockfish_chess::app_state::AppMode;
use stockfish_chess::game::{GameOutcome, GameState, PlayerColor};
use stockfish_chess::session::{engine_should_move, export_game_pgn, game_pgn, result_text};

#[test]
fn engine_moves_only_on_its_turn_in_a_running_game() {
    let go = GameOutcome::InProgress;
    assert!(engine_should_move(AppMode::Game, go, PlayerColor::Black, PlayerColor::White, true, false));
    assert!(!engine_should_move(AppMode::Game, go, PlayerColor::White, PlayerColor::White, true, false));
    assert!(!engine_should_move(AppMode::Analysis, go, PlayerColor::Black, PlayerColor::White, true, false));
    assert!(!engine_should_move(AppMode::Game, go, PlayerColor::Black, PlayerColor::White, false, false));
    assert!(!engine_should_move(AppMode::Game, go, PlayerColor::Black, PlayerColor::White, true, true));
    assert!(!engine_should_move(
        AppMode::Game,
        GameOutcome::Stalemate,
        PlayerColor::Black,
        PlayerColor::White,
        true,
        false
    ));
}

#[test]
fn results_and_game_pgn() {
    assert_eq!(result_text(GameOutcome::Checkmate(PlayerColor::Black)), "0-1");
    assert_eq!(result_text(GameOutcome::FiftyMoveRule), "1/2-1/2");
    let mut game = GameState::new();
    for san in ["e4", "e5", "Qh5", "Nc6", "Bc4", "Nf6", "Qxf7"] {
        game.make_move_san(san).unwrap();
    }
    let pgn = game_pgn(game.move_history(), game.outcome(), "2024.05.06");
    assert_eq!(
        pgn,
        "[Event \"Stockfish Chess Game\"]\n[Site \"Local\"]\n[Date \"2024.05.06\"]\n[Round \"-\"]\n[White \"Player\"]\n[Black \"Stockfish\"]\n[Result \"1-0\"]\n\n1. e4 e5 2. Qh5 Nc6 3. Bc4 Nf6 4. Qxf7 1-0\n"
    );
    let today = export_game_pgn(&game);
    assert!(today.starts_with("[Event \"Stockfish Chess Game\"]\n[Site \"Local\"]\n[Date \""));
    assert!(today.ends_with("4. Qxf7 1-0\n"));
}
