//! The application's persisted settings and the actions its panels report.

use vstd::prelude::*;
use crate::difficulty::DifficultyLevel;
use crate::game::PlayerColor;
use crate::theme::Theme;

verus! {

#[derive(Debug, Clone, Copy, PartialEq, Eq, Structural)]
pub enum AppMode {
    Game,
    Analysis,
    Study,
}

impl Default for AppMode {
    fn default() -> (r: AppMode)
        ensures
            r == AppMode::Game,
    {
        AppMode::Game
    }
}

/// Settings kept between sessions.
#[derive(Debug, Clone, Copy, PartialEq, Eq, Structural)]
pub struct AppState {
    pub difficulty: DifficultyLevel,
    pub theme: Theme,
    pub player_color: PlayerColor,
    pub flipped: bool,
    pub mode: AppMode,
}

impl Default for AppState {
    fn default() -> (r: AppState)
        ensures
            r == (AppState {
                difficulty: DifficultyLevel::Casual,
                theme: Theme::Classic,
                player_color: PlayerColor::White,
                flipped: false,
                mode: AppMode::Game,
            }),
    {
        AppState {
            difficulty: DifficultyLevel::Casual,
            theme: Theme::Classic,
            player_color: PlayerColor::White,
            flipped: false,
            mode: AppMode::Game,
        }
    }
}

/// What the game controls ask for.
#[derive(Debug, Clone, Copy, PartialEq, Eq, Structural)]
pub enum ControlAction {
    NewGame,
    FlipBoard,
    SetDifficulty(DifficultyLevel),
    SetTheme(Theme),
    SetPlayerColor(PlayerColor),
    Resign,
    OfferDraw,
    Undo,
}

/// Navigation asked for from the study panel.
#[derive(Debug, Clone)]
pub enum StudyNavAction {
    /// Go to the position at this path of child indices.
    GoToPosition(Vec<usize>),
}

} // verus!
