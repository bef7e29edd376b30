use stockfish_chess::app_state::{AppMode, AppState};
use stockfish_chess::difficulty::DifficultyLevel;
use stockfish_chess::game::PlayerColor;
use stockfish_chess::theme::{Rgba, Theme};

#[test]
fn themes_and_colors() {
    assert_eq!(Theme::all().len(), 4);
    assert_eq!(Theme::ChessCom.label(), "Chess.com");
    assert_eq!(Theme::default(), Theme::Classic);
    assert_eq!(Theme::Dark.light_square(), Rgba { r: 100, g: 100, b: 100, a: 255 });
    assert_eq!(Theme::ChessCom.dark_square(), Rgba { r: 118, g: 150, b: 86, a: 255 });
    assert_eq!(Theme::Lichess.coordinate_color_light(), Theme::Lichess.dark_square());
    assert_eq!(Theme::Classic.legal_move_dot(), Rgba { r: 0, g: 0, b: 0, a: 40 });
    assert_eq!(Theme::Dark.selected_square(), Rgba { r: 130, g: 151, b: 105, a: 255 });
    assert_eq!(Theme::ChessCom.last_move_highlight(), Rgba { r: 247, g: 247, b: 105, a: 255 });
}

#[test]
fn default_settings() {
    let s = AppState::default();
    assert_eq!(s.difficulty, DifficultyLevel::Casual);
    assert_eq!(s.theme, Theme::Classic);
    assert_eq!(s.player_color, PlayerColor::White);
    assert!(!s.flipped);
    assert_eq!(s.mode, AppMode::Game);
    assert_eq!(AppMode::default(), AppMode::Game);
}
