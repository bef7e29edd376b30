//! Decisions of a playing session: when the engine is to move, and the game as PGN.

use vstd::prelude::*;
use crate::app_state::AppMode;
use crate::clock::local_date_dotted;
use crate::game::{GameOutcome, GameState, MoveModel, MoveRecord, PlayerColor};
use crate::study::movetext;
use crate::text::u64_to_decimal;

verus! {

/// The engine moves in a game that goes on, on its own turn, once it is ready and
/// not already searching.
pub open spec fn engine_turn(
    mode: AppMode,
    outcome: GameOutcome,
    turn: PlayerColor,
    player: PlayerColor,
    ready: bool,
    thinking: bool,
) -> bool {
    mode == AppMode::Game && outcome == GameOutcome::InProgress && turn != player && ready
        && !thinking
}

/// Whether to ask the engine for a move now.
pub fn engine_should_move(
    mode: AppMode,
    outcome: GameOutcome,
    turn: PlayerColor,
    player: PlayerColor,
    ready: bool,
    thinking: bool,
) -> (r: bool)
    ensures
        r == engine_turn(mode, outcome, turn, player, ready, thinking),
{
    if mode != AppMode::Game || outcome != GameOutcome::InProgress {
        return false;
    }
    turn == player.opponent() && ready && !thinking
}

pub open spec fn result_of(outcome: GameOutcome) -> Seq<char> {
    match outcome {
        GameOutcome::Checkmate(PlayerColor::White) => "1-0"@,
        GameOutcome::Checkmate(PlayerColor::Black) => "0-1"@,
        GameOutcome::InProgress => "*"@,
        _ => "1/2-1/2"@,
    }
}

/// The PGN result token of an outcome.
pub fn result_text(outcome: GameOutcome) -> (r: &'static str)
    ensures
        r@ == result_of(outcome),
{
    match outcome {
        GameOutcome::Checkmate(PlayerColor::White) => "1-0",
        GameOutcome::Checkmate(PlayerColor::Black) => "0-1",
        GameOutcome::InProgress => "*",
        _ => "1/2-1/2",
    }
}

pub open spec fn sans(history: Seq<MoveModel>) -> Seq<Seq<char>> {
    history.map_values(|m: MoveModel| m.san)
}

/// A game in PGN, played on `date`, between the player and the engine.
pub open spec fn game_pgn_text(history: Seq<MoveModel>, outcome: GameOutcome, date: Seq<char>) -> Seq<char> {
    let result = result_of(outcome);
    "[Event \"Stockfish Chess Game\"]\n"@ + "[Site \"Local\"]\n"@ + "[Date \""@ + date
        + "\"]\n"@ + "[Round \"-\"]\n"@ + "[White \"Player\"]\n"@ + "[Black \"Stockfish\"]\n"@
        + "[Result \""@ + result + "\"]\n"@ + "\n"@ + movetext(
        sans(history),
        history.len() as int,
    ) + result + "\n"@
}

/// Writes the moves of a game, with its outcome and date, in PGN.
pub fn game_pgn(history: &[MoveRecord], outcome: GameOutcome, date: &str) -> (r: String)
    ensures
        r@ == game_pgn_text(history@.map_values(|m: MoveRecord| m@), outcome, date@),
{
    let ghost hv = history@.map_values(|m: MoveRecord| m@);
    let ghost sv = sans(hv);
    let result = result_text(outcome);
    let mut pgn = String::from_str("[Event \"Stockfish Chess Game\"]\n");
    pgn.append("[Site \"Local\"]\n");
    pgn.append("[Date \"");
    pgn.append(date);
    pgn.append("\"]\n");
    pgn.append("[Round \"-\"]\n");
    pgn.append("[White \"Player\"]\n");
    pgn.append("[Black \"Stockfish\"]\n");
    pgn.append("[Result \"");
    pgn.append(result);
    pgn.append("\"]\n");
    pgn.append("\n");
    let ghost head = pgn@;
    let n = history.len();
    let mut i: usize = 0;
    while i < n
        invariant
            n == history@.len(),
            hv == history@.map_values(|m: MoveRecord| m@),
            sv == sans(hv),
            i <= n,
            pgn@ == head + movetext(sv, i as int),
        decreases n - i,
    {
        let ghost before = pgn@;
        if i % 2 == 0 {
            pgn.append(u64_to_decimal((i / 2 + 1) as u64).as_str());
            pgn.append(". ");
        }
        assert(sv[i as int] == history@[i as int].san@);
        pgn.append(history[i].san.as_str());
        pgn.append(" ");
        assert(pgn@ =~= head + movetext(sv, i as int + 1));
        i = i + 1;
    }
    pgn.append(result);
    pgn.append("\n");
    assert(pgn@ =~= game_pgn_text(hv, outcome, date@));
    pgn
}

/// The game as PGN, dated today, with the game's outcome at the viewed position.
pub fn export_game_pgn(game: &GameState) -> (r: String)
    requires
        game.wf(),
    ensures
        exists|outcome: GameOutcome, date: Seq<char>|
            r@ == #[trigger] game_pgn_text(game.spec_history(), outcome, date),
{
    let date = local_date_dotted();
    game_pgn(game.move_history(), game.outcome(), date.as_str())
}

} // verus!
