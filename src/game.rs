//! Plain game data shared with the rest of the application.

use vstd::prelude::*;
use std::hash::{Hash, Hasher};
use shakmaty::{CastlingMode, CastlingSide, EnPassantMode, Position};

verus! {

#[derive(Debug, Clone, Copy, PartialEq, Eq, Structural)]
pub enum PlayerColor {
    White,
    Black,
}

impl PlayerColor {
    pub fn opponent(&self) -> (r: PlayerColor)
        ensures
            r != *self,
    {
        match self {
            PlayerColor::White => PlayerColor::Black,
            PlayerColor::Black => PlayerColor::White,
        }
    }
}

/// How a game stands.
#[derive(Debug, Clone, Copy, PartialEq, Eq, Structural)]
pub enum GameOutcome {
    /// Won by the given color.
    Checkmate(PlayerColor),
    Stalemate,
    InsufficientMaterial,
    ThreefoldRepetition,
    FiftyMoveRule,
    InProgress,
}

#[derive(Debug, Clone)]
pub enum GameError {
    InvalidMove(String),
    InvalidFen(String),
    GameOver,
    NoPreviousPosition,
    NoNextPosition,
}

/// A move as recorded in a game or a study.
#[derive(Debug, Clone)]
pub struct MoveRecord {
    pub san: String,
    pub uci: String,
    pub resulting_fen: String,
}

pub struct MoveModel {
    pub san: Seq<char>,
    pub uci: Seq<char>,
    pub resulting_fen: Seq<char>,
}

impl View for MoveRecord {
    type V = MoveModel;

    open spec fn view(&self) -> MoveModel {
        MoveModel { san: self.san@, uci: self.uci@, resulting_fen: self.resulting_fen@ }
    }
}

impl MoveRecord {
    /// A copy with the same texts.
    pub fn duplicate(&self) -> (r: MoveRecord)
        ensures
            r@ == self@,
    {
        MoveRecord {
            san: self.san.clone(),
            uci: self.uci.clone(),
            resulting_fen: self.resulting_fen.clone(),
        }
    }
}

impl GameError {
    /// The error as a sentence.
    pub fn message(&self) -> (r: String)
        ensures
            r@ == match self {
                GameError::InvalidMove(m) => "Invalid move: "@ + m@,
                GameError::InvalidFen(m) => "Invalid FEN: "@ + m@,
                GameError::GameOver => "Game is already over"@,
                GameError::NoPreviousPosition => "No previous position"@,
                GameError::NoNextPosition => "No next position"@,
            },
    {
        match self {
            GameError::InvalidMove(m) => {
                let mut s = String::from_str("Invalid move: ");
                s.append(m.as_str());
                s
            },
            GameError::InvalidFen(m) => {
                let mut s = String::from_str("Invalid FEN: ");
                s.append(m.as_str());
                s
            },
            GameError::GameOver => String::from_str("Game is already over"),
            GameError::NoPreviousPosition => String::from_str("No previous position"),
            GameError::NoNextPosition => String::from_str("No next position"),
        }
    }
}

#[verifier::external_type_specification]
#[verifier::external_body]
pub struct ExChess(shakmaty::Chess);

#[verifier::external_type_specification]
#[verifier::external_body]
pub struct ExMove(shakmaty::Move);

#[verifier::external_type_specification]
#[verifier::external_body]
pub struct ExSquare(shakmaty::Square);

#[verifier::external_type_specification]
#[verifier::external_body]
pub struct ExRole(shakmaty::Role);

#[verifier::external_type_specification]
#[verifier::external_body]
pub struct ExColor(shakmaty::Color);

/// Relies on `Chess::default`: the standard starting position.
#[verifier::external_body]
fn starting_position() -> shakmaty::Chess {
    shakmaty::Chess::default()
}

/// Relies on `Fen::from_str` and `Fen::into_position` with standard castling: the
/// position a FEN describes, or the parser's or the validator's error, as text.
#[verifier::external_body]
fn position_from_fen(fen: &str) -> Result<shakmaty::Chess, String> {
    match fen.parse::<shakmaty::fen::Fen>() {
        Ok(f) => f.into_position(CastlingMode::Standard).map_err(|e| format!("{:?}", e)),
        Err(e) => Err(format!("{:?}", e)),
    }
}

/// Relies on `Fen::from_position` (en passant squares only where a capture is
/// legal) and its `Display`: the FEN of a position.
#[verifier::external_body]
fn fen_of(pos: &shakmaty::Chess) -> String {
    shakmaty::fen::Fen::from_position(pos.clone(), EnPassantMode::Legal).to_string()
}

/// Relies on `Position::turn`: the side to move.
#[verifier::external_body]
fn side_to_move(pos: &shakmaty::Chess) -> PlayerColor {
    match pos.turn() {
        shakmaty::Color::White => PlayerColor::White,
        shakmaty::Color::Black => PlayerColor::Black,
    }
}

/// Relies on `Position::is_check`.
#[verifier::external_body]
fn in_check(pos: &shakmaty::Chess) -> bool {
    pos.is_check()
}

/// Relies on `Position::is_checkmate`.
#[verifier::external_body]
fn in_checkmate(pos: &shakmaty::Chess) -> bool {
    pos.is_checkmate()
}

/// Relies on `Position::is_stalemate`.
#[verifier::external_body]
fn in_stalemate(pos: &shakmaty::Chess) -> bool {
    pos.is_stalemate()
}

/// Relies on `Position::is_insufficient_material`.
#[verifier::external_body]
fn material_insufficient(pos: &shakmaty::Chess) -> bool {
    pos.is_insufficient_material()
}

/// Relies on `Position::halfmoves`: plies since the last capture or pawn move.
#[verifier::external_body]
fn halfmove_clock(pos: &shakmaty::Chess) -> u32 {
    pos.halfmoves()
}

/// Relies on the `Hash` impls of shakmaty's board, color and square, fed to std's
/// `DefaultHasher::new` (whose keys are fixed): a digest of what makes two
/// positions the same for repetition.
#[verifier::external_body]
fn position_digest(pos: &shakmaty::Chess) -> u64 {
    let mut h = std::collections::hash_map::DefaultHasher::new();
    let c = pos.castles();
    let white = shakmaty::Color::White;
    let black = shakmaty::Color::Black;
    pos.board().hash(&mut h);
    pos.turn().hash(&mut h);
    c.has(white, CastlingSide::KingSide).hash(&mut h);
    c.has(white, CastlingSide::QueenSide).hash(&mut h);
    c.has(black, CastlingSide::KingSide).hash(&mut h);
    c.has(black, CastlingSide::QueenSide).hash(&mut h);
    pos.ep_square(EnPassantMode::Legal).hash(&mut h);
    h.finish()
}

/// Relies on `Position::legal_moves`.
#[verifier::external_body]
fn legal_moves_of(pos: &shakmaty::Chess) -> Vec<shakmaty::Move> {
    pos.legal_moves().into_iter().collect()
}

/// Relies on `Move::from` and `Square`'s `==`: whether the move starts on `sq`.
#[verifier::external_body]
fn starts_on(m: &shakmaty::Move, sq: shakmaty::Square) -> bool {
    m.from() == Some(sq)
}

/// Relies on `Move`'s `==`.
#[verifier::external_body]
fn same_move(a: &shakmaty::Move, b: &shakmaty::Move) -> bool {
    a == b
}

/// Relies on `Move`'s `Clone`.
#[verifier::external_body]
fn copy_move(m: &shakmaty::Move) -> shakmaty::Move {
    m.clone()
}

/// Relies on `San::from_str` and `San::to_move`: the move a SAN text names in
/// the position, if it parses and names a legal move.
#[verifier::external_body]
fn move_from_san(pos: &shakmaty::Chess, text: &str) -> Option<shakmaty::Move> {
    text.parse::<shakmaty::san::San>().ok().and_then(|san| san.to_move(pos).ok())
}

/// Relies on `UciMove::from_str` and `UciMove::to_move`: the move a UCI text names
/// in the position, if it parses and names a legal move.
#[verifier::external_body]
fn move_from_uci(pos: &shakmaty::Chess, text: &str) -> Option<shakmaty::Move> {
    text.parse::<shakmaty::uci::UciMove>().ok().and_then(|uci| uci.to_move(pos).ok())
}

/// Relies on `San::from_move` and its `Display`: the move in SAN.
#[verifier::external_body]
fn san_of(pos: &shakmaty::Chess, m: &shakmaty::Move) -> String {
    shakmaty::san::San::from_move(pos, m).to_string()
}

/// Relies on `UciMove::from_move` with standard castling and its `Display`: the
/// move in UCI notation.
#[verifier::external_body]
fn uci_of(m: &shakmaty::Move) -> String {
    shakmaty::uci::UciMove::from_move(m, CastlingMode::Standard).to_string()
}

/// Relies on `Position::play`: the position after a legal move, else the error as
/// text.
#[verifier::external_body]
fn play_move(pos: &shakmaty::Chess, m: &shakmaty::Move) -> Result<shakmaty::Chess, String> {
    pos.clone().play(m).map_err(|e| format!("{:?}", e))
}

/// Relies on `Board::piece_at`: the role and color of the piece on `sq`.
#[verifier::external_body]
fn piece_on(pos: &shakmaty::Chess, sq: shakmaty::Square) -> Option<(shakmaty::Role, shakmaty::Color)> {
    pos.board().piece_at(sq).map(|p| (p.role, p.color))
}

/// Relies on `Square::ALL`: the 64 squares, a1 first.
#[verifier::external_body]
fn every_square() -> Vec<shakmaty::Square> {
    shakmaty::Square::ALL.to_vec()
}

/// Relies on `Board::king_of`: the square of the king of a color.
#[verifier::external_body]
fn king_of(pos: &shakmaty::Chess, color: PlayerColor) -> Option<shakmaty::Square> {
    let c = match color {
        PlayerColor::White => shakmaty::Color::White,
        PlayerColor::Black => shakmaty::Color::Black,
    };
    pos.board().king_of(c)
}

/// Relies on `UciMove::from_str`: the origin and target of a UCI text that
/// describes an ordinary move.
#[verifier::external_body]
fn uci_squares(text: &str) -> Option<(shakmaty::Square, shakmaty::Square)> {
    match text.parse::<shakmaty::uci::UciMove>() {
        Ok(shakmaty::uci::UciMove::Normal { from, to, .. }) => Some((from, to)),
        _ => None,
    }
}

/// The outcome from what the position shows, checked in this order: checkmate
/// (won by the side not to move), stalemate, insufficient material, a third
/// occurrence of the position, then fifty moves without capture or pawn move.
pub open spec fn outcome_from(
    checkmate: bool,
    turn: PlayerColor,
    stalemate: bool,
    insufficient: bool,
    occurrences: nat,
    halfmoves: u32,
) -> GameOutcome {
    if checkmate {
        GameOutcome::Checkmate(
            match turn {
                PlayerColor::White => PlayerColor::Black,
                PlayerColor::Black => PlayerColor::White,
            },
        )
    } else if stalemate {
        GameOutcome::Stalemate
    } else if insufficient {
        GameOutcome::InsufficientMaterial
    } else if occurrences >= 3 {
        GameOutcome::ThreefoldRepetition
    } else if halfmoves >= 100 {
        GameOutcome::FiftyMoveRule
    } else {
        GameOutcome::InProgress
    }
}

/// Decides a game's outcome from the facts of its current position.
pub fn classify_outcome(
    checkmate: bool,
    turn: PlayerColor,
    stalemate: bool,
    insufficient: bool,
    occurrences: usize,
    halfmoves: u32,
) -> (r: GameOutcome)
    ensures
        r == outcome_from(checkmate, turn, stalemate, insufficient, occurrences as nat, halfmoves),
{
    if checkmate {
        GameOutcome::Checkmate(turn.opponent())
    } else if stalemate {
        GameOutcome::Stalemate
    } else if insufficient {
        GameOutcome::InsufficientMaterial
    } else if occurrences >= 3 {
        GameOutcome::ThreefoldRepetition
    } else if halfmoves >= 100 {
        GameOutcome::FiftyMoveRule
    } else {
        GameOutcome::InProgress
    }
}

/// How often `h` occurs among the first `k` digests.
pub open spec fn occurrences(hashes: Seq<u64>, k: int, h: u64) -> nat
    decreases k,
{
    if k <= 0 || k > hashes.len() {
        0
    } else {
        occurrences(hashes, k - 1, h) + if hashes[k - 1] == h {
            1nat
        } else {
            0nat
        }
    }
}

struct PositionState {
    position: shakmaty::Chess,
    hash: u64,
}

/// A game: its positions from the start, the moves between them, and the position
/// being viewed, which may lie before the last.
pub struct GameState {
    positions: Vec<PositionState>,
    move_history: Vec<MoveRecord>,
    current_index: usize,
}

impl Default for GameState {
    fn default() -> (r: GameState)
        ensures
            r.wf(),
            r.spec_position_count() == 1,
            r.spec_current_index() == 0,
            r.spec_history().len() == 0,
    {
        GameState::new()
    }
}

impl GameState {
    /// Positions are never empty, one move lies between each two, and the viewed
    /// one exists.
    pub closed spec fn wf(&self) -> bool {
        &&& self.positions.len() >= 1
        &&& self.move_history.len() + 1 == self.positions.len()
        &&& self.current_index < self.positions.len()
    }

    pub closed spec fn spec_position_count(&self) -> nat {
        self.positions.len() as nat
    }

    pub closed spec fn spec_current_index(&self) -> nat {
        self.current_index as nat
    }

    pub closed spec fn spec_history(&self) -> Seq<MoveModel> {
        self.move_history@.map_values(|m: MoveRecord| m@)
    }

    pub closed spec fn spec_hashes(&self) -> Seq<u64> {
        self.positions@.map_values(|p: PositionState| p.hash)
    }

    fn single(position: shakmaty::Chess) -> (r: GameState)
        ensures
            r.wf(),
            r.spec_position_count() == 1,
            r.spec_current_index() == 0,
            r.spec_history().len() == 0,
    {
        let hash = position_digest(&position);
        let mut positions: Vec<PositionState> = Vec::new();
        positions.push(PositionState { position, hash });
        GameState { positions, move_history: Vec::new(), current_index: 0 }
    }

    /// A game at the standard starting position.
    pub fn new() -> (r: GameState)
        ensures
            r.wf(),
            r.spec_position_count() == 1,
            r.spec_current_index() == 0,
            r.spec_history().len() == 0,
    {
        GameState::single(starting_position())
    }

    /// A game from the position a FEN describes; `InvalidFen` where it does not
    /// parse or is no legal position.
    pub fn from_fen(fen: &str) -> (r: Result<GameState, GameError>)
        ensures
            match r {
                Ok(g) => g.wf() && g.spec_position_count() == 1 && g.spec_current_index() == 0
                    && g.spec_history().len() == 0,
                Err(e) => e is InvalidFen,
            },
    {
        match position_from_fen(fen) {
            Ok(position) => Ok(GameState::single(position)),
            Err(msg) => Err(GameError::InvalidFen(msg)),
        }
    }

    fn current_position(&self) -> (r: &shakmaty::Chess)
        requires
            self.wf(),
    {
        &self.positions[self.current_index].position
    }

    pub fn fen(&self) -> String
        requires
            self.wf(),
    {
        fen_of(self.current_position())
    }

    pub fn turn(&self) -> PlayerColor
        requires
            self.wf(),
    {
        side_to_move(self.current_position())
    }

    pub fn is_check(&self) -> bool
        requires
            self.wf(),
    {
        in_check(self.current_position())
    }

    /// How often the viewed position has occurred up to and including now.
    fn repetitions(&self) -> (r: usize)
        requires
            self.wf(),
        ensures
            r as nat == occurrences(
                self.spec_hashes(),
                self.spec_current_index() + 1 as int,
                self.spec_hashes()[self.spec_current_index() as int],
            ),
    {
        let ghost hs = self.spec_hashes();
        let h = self.positions[self.current_index].hash;
        assert(hs[self.current_index as int] == h);
        let end = self.current_index + 1;
        let mut count: usize = 0;
        let mut i: usize = 0;
        while i < end
            invariant
                self.wf(),
                end == self.current_index + 1,
                hs == self.spec_hashes(),
                i <= end,
                count <= i,
                count as nat == occurrences(hs, i as int, h),
            decreases end - i,
        {
            assert(hs[i as int] == self.positions[i as int].hash);
            if self.positions[i].hash == h {
                count = count + 1;
            }
            i = i + 1;
        }
        count
    }

    /// The game's outcome at the viewed position. A repetition counts only the
    /// positions up to the viewed one.
    pub fn outcome(&self) -> (r: GameOutcome)
        requires
            self.wf(),
        ensures
            exists|checkmate: bool, turn: PlayerColor, stalemate: bool, insufficient: bool, halfmoves: u32|
                r == #[trigger] outcome_from(
                    checkmate,
                    turn,
                    stalemate,
                    insufficient,
                    occurrences(
                        self.spec_hashes(),
                        self.spec_current_index() + 1 as int,
                        self.spec_hashes()[self.spec_current_index() as int],
                    ),
                    halfmoves,
                ),
    {
        let pos = self.current_position();
        let checkmate = in_checkmate(pos);
        let turn = side_to_move(pos);
        let stalemate = in_stalemate(pos);
        let insufficient = material_insufficient(pos);
        let reps = self.repetitions();
        let halfmoves = halfmove_clock(pos);
        classify_outcome(checkmate, turn, stalemate, insufficient, reps, halfmoves)
    }

    pub fn legal_moves(&self) -> Vec<shakmaty::Move>
        requires
            self.wf(),
    {
        legal_moves_of(self.current_position())
    }

    /// The legal moves that start on `square`, in the order of `legal_moves`.
    pub fn legal_moves_for_square(&self, square: shakmaty::Square) -> Vec<shakmaty::Move>
        requires
            self.wf(),
    {
        let all = self.legal_moves();
        let mut out: Vec<shakmaty::Move> = Vec::new();
        let mut i: usize = 0;
        while i < all.len()
            decreases all.len() - i,
        {
            if starts_on(&all[i], square) {
                out.push(copy_move(&all[i]));
            }
            i = i + 1;
        }
        out
    }

    /// Plays a move given in SAN. `GameOver` where the game has ended,
    /// `InvalidMove` with the text where it names no legal move.
    pub fn make_move_san(&mut self, san_str: &str) -> (r: Result<MoveRecord, GameError>)
        requires
            old(self).wf(),
        ensures
            final(self).wf(),
            r is Ok ==> final(self).spec_history() == old(self).spec_history().subrange(
                0,
                old(self).spec_current_index() as int,
            ).push(r->Ok_0@) && final(self).spec_current_index() == old(self).spec_current_index() + 1
                && final(self).spec_position_count() == old(self).spec_current_index() + 2,
            r is Err ==> final(self).spec_history() == old(self).spec_history()
                && final(self).spec_current_index() == old(self).spec_current_index()
                && final(self).spec_position_count() == old(self).spec_position_count(),
            r is Err ==> r->Err_0 is GameOver || r->Err_0 is InvalidMove,
    {
        if self.outcome() != GameOutcome::InProgress {
            return Err(GameError::GameOver);
        }
        match move_from_san(self.current_position(), san_str) {
            Some(m) => self.make_move(m),
            None => Err(GameError::InvalidMove(san_str.to_owned())),
        }
    }

    /// Plays a move given in UCI notation. `GameOver` where the game has ended,
    /// `InvalidMove` with the text where it names no legal move.
    pub fn make_move_uci(&mut self, uci_str: &str) -> (r: Result<MoveRecord, GameError>)
        requires
            old(self).wf(),
        ensures
            final(self).wf(),
            r is Ok ==> final(self).spec_history() == old(self).spec_history().subrange(
                0,
                old(self).spec_current_index() as int,
            ).push(r->Ok_0@) && final(self).spec_current_index() == old(self).spec_current_index() + 1
                && final(self).spec_position_count() == old(self).spec_current_index() + 2,
            r is Err ==> final(self).spec_history() == old(self).spec_history()
                && final(self).spec_current_index() == old(self).spec_current_index()
                && final(self).spec_position_count() == old(self).spec_position_count(),
            r is Err ==> r->Err_0 is GameOver || r->Err_0 is InvalidMove,
    {
        if self.outcome() != GameOutcome::InProgress {
            return Err(GameError::GameOver);
        }
        match move_from_uci(self.current_position(), uci_str) {
            Some(m) => self.make_move(m),
            None => Err(GameError::InvalidMove(uci_str.to_owned())),
        }
    }

    /// Plays `m` at the viewed position. Moves after it are dropped first: the new
    /// move starts a new continuation. `GameOver` where the game has ended,
    /// `InvalidMove` where `m` is not legal.
    pub fn make_move(&mut self, m: shakmaty::Move) -> (r: Result<MoveRecord, GameError>)
        requires
            old(self).wf(),
        ensures
            final(self).wf(),
            r is Ok ==> final(self).spec_history() == old(self).spec_history().subrange(
                0,
                old(self).spec_current_index() as int,
            ).push(r->Ok_0@) && final(self).spec_current_index() == old(self).spec_current_index() + 1
                && final(self).spec_position_count() == old(self).spec_current_index() + 2,
            r is Err ==> final(self).spec_history() == old(self).spec_history()
                && final(self).spec_current_index() == old(self).spec_current_index()
                && final(self).spec_position_count() == old(self).spec_position_count(),
            r is Err ==> r->Err_0 is GameOver || r->Err_0 is InvalidMove,
    {
        if self.outcome() != GameOutcome::InProgress {
            return Err(GameError::GameOver);
        }
        let legal = self.legal_moves();
        let mut found: bool = false;
        let mut i: usize = 0;
        while i < legal.len() && !found
            decreases legal.len() - i,
        {
            if same_move(&legal[i], &m) {
                found = true;
            }
            i = i + 1;
        }
        if !found {
            return Err(GameError::InvalidMove(uci_of(&m)));
        }
        self.apply_move(m)
    }

    fn apply_move(&mut self, m: shakmaty::Move) -> (r: Result<MoveRecord, GameError>)
        requires
            old(self).wf(),
        ensures
            final(self).wf(),
            r is Ok ==> final(self).spec_history() == old(self).spec_history().subrange(
                0,
                old(self).spec_current_index() as int,
            ).push(r->Ok_0@) && final(self).spec_current_index() == old(self).spec_current_index() + 1
                && final(self).spec_position_count() == old(self).spec_current_index() + 2,
            r is Err ==> final(self).spec_history() == old(self).spec_history()
                && final(self).spec_current_index() == old(self).spec_current_index()
                && final(self).spec_position_count() == old(self).spec_position_count(),
            r is Err ==> r->Err_0 is InvalidMove,
    {
        let san = san_of(self.current_position(), &m);
        let uci = uci_of(&m);
        let new_position = match play_move(self.current_position(), &m) {
            Ok(p) => p,
            Err(msg) => {
                return Err(GameError::InvalidMove(msg));
            },
        };
        let resulting_fen = fen_of(&new_position);
        let hash = position_digest(&new_position);
        let ghost before = self.spec_history();
        let cur = self.current_index;
        if cur < self.positions.len() - 1 {
            self.positions.truncate(cur + 1);
            self.move_history.truncate(cur);
        }
        assert(self.spec_history() =~= before.subrange(0, cur as int));
        self.positions.push(PositionState { position: new_position, hash });
        self.current_index = cur + 1;
        let record = MoveRecord { san, uci, resulting_fen };
        let copy = record.duplicate();
        self.move_history.push(record);
        assert(self.spec_history() =~= before.subrange(0, cur as int).push(copy@));
        Ok(copy)
    }

    /// Steps back one position; `NoPreviousPosition` at the first.
    pub fn go_back(&mut self) -> (r: Result<(), GameError>)
        requires
            old(self).wf(),
        ensures
            final(self).wf(),
            r is Ok <==> old(self).spec_current_index() > 0,
            r is Err ==> r->Err_0 is NoPreviousPosition,
            final(self).spec_current_index() == if r is Ok {
                (old(self).spec_current_index() - 1) as nat
            } else {
                old(self).spec_current_index()
            },
            final(self).spec_position_count() == old(self).spec_position_count(),
            final(self).spec_history() == old(self).spec_history(),
    {
        if self.current_index == 0 {
            return Err(GameError::NoPreviousPosition);
        }
        self.current_index = self.current_index - 1;
        Ok(())
    }

    /// Steps forward one position; `NoNextPosition` at the last.
    pub fn go_forward(&mut self) -> (r: Result<(), GameError>)
        requires
            old(self).wf(),
        ensures
            final(self).wf(),
            r is Ok <==> old(self).spec_current_index() + 1 < old(self).spec_position_count(),
            r is Err ==> r->Err_0 is NoNextPosition,
            final(self).spec_current_index() == if r is Ok {
                old(self).spec_current_index() + 1
            } else {
                old(self).spec_current_index()
            },
            final(self).spec_position_count() == old(self).spec_position_count(),
            final(self).spec_history() == old(self).spec_history(),
    {
        if self.current_index >= self.positions.len() - 1 {
            return Err(GameError::NoNextPosition);
        }
        self.current_index = self.current_index + 1;
        Ok(())
    }

    /// Views position `index` (0 is the start); `InvalidMove` where there is none.
    pub fn go_to_position(&mut self, index: usize) -> (r: Result<(), GameError>)
        requires
            old(self).wf(),
        ensures
            final(self).wf(),
            r is Ok <==> index < old(self).spec_position_count(),
            r is Err ==> r->Err_0 is InvalidMove,
            final(self).spec_current_index() == if r is Ok {
                index as nat
            } else {
                old(self).spec_current_index()
            },
            final(self).spec_position_count() == old(self).spec_position_count(),
            final(self).spec_history() == old(self).spec_history(),
    {
        if index >= self.positions.len() {
            return Err(GameError::InvalidMove(String::from_str("Position index out of range")));
        }
        self.current_index = index;
        Ok(())
    }

    pub fn go_to_start(&mut self)
        requires
            old(self).wf(),
        ensures
            final(self).wf(),
            final(self).spec_current_index() == 0,
            final(self).spec_position_count() == old(self).spec_position_count(),
            final(self).spec_history() == old(self).spec_history(),
    {
        self.current_index = 0;
    }

    pub fn go_to_end(&mut self)
        requires
            old(self).wf(),
        ensures
            final(self).wf(),
            final(self).spec_current_index() + 1 == old(self).spec_position_count(),
            final(self).spec_position_count() == old(self).spec_position_count(),
            final(self).spec_history() == old(self).spec_history(),
    {
        self.current_index = self.positions.len() - 1;
    }

    pub fn can_go_back(&self) -> (r: bool)
        requires
            self.wf(),
        ensures
            r == (self.spec_current_index() > 0),
    {
        self.current_index > 0
    }

    pub fn can_go_forward(&self) -> (r: bool)
        requires
            self.wf(),
        ensures
            r == (self.spec_current_index() + 1 < self.spec_position_count()),
    {
        self.current_index < self.positions.len() - 1
    }

    pub fn current_index(&self) -> (r: usize)
        ensures
            r == self.spec_current_index(),
    {
        self.current_index
    }

    pub fn position_count(&self) -> (r: usize)
        ensures
            r == self.spec_position_count(),
    {
        self.positions.len()
    }

    /// The moves played, first to last, including those after the viewed position.
    pub fn move_history(&self) -> (r: &[MoveRecord])
        ensures
            r@.map_values(|m: MoveRecord| m@) == self.spec_history(),
    {
        self.move_history.as_slice()
    }

    pub fn piece_at(&self, square: shakmaty::Square) -> Option<(shakmaty::Role, shakmaty::Color)>
        requires
            self.wf(),
    {
        piece_on(self.current_position(), square)
    }

    /// Every occupied square with its piece, a1 first.
    pub fn all_pieces(&self) -> Vec<(shakmaty::Square, shakmaty::Role, shakmaty::Color)>
        requires
            self.wf(),
    {
        let squares = every_square();
        let mut out: Vec<(shakmaty::Square, shakmaty::Role, shakmaty::Color)> = Vec::new();
        let mut i: usize = 0;
        while i < squares.len()
            invariant
                self.wf(),
            decreases squares.len() - i,
        {
            let sq = squares[i];
            match self.piece_at(sq) {
                Some((role, color)) => out.push((sq, role, color)),
                None => {},
            }
            i = i + 1;
        }
        out
    }

    /// Back to a new game at the starting position.
    pub fn reset(&mut self)
        ensures
            final(self).wf(),
            final(self).spec_position_count() == 1,
            final(self).spec_current_index() == 0,
            final(self).spec_history().len() == 0,
    {
        *self = GameState::new();
    }

    /// The move that led to the viewed position; `None` at the start.
    pub fn last_move(&self) -> (r: Option<&MoveRecord>)
        requires
            self.wf(),
        ensures
            match r {
                Some(m) => self.spec_current_index() > 0 && m@ == self.spec_history()[self.spec_current_index() - 1],
                None => self.spec_current_index() == 0,
            },
    {
        if self.current_index == 0 || self.current_index > self.move_history.len() {
            return None;
        }
        Some(&self.move_history[self.current_index - 1])
    }

    /// Origin and target square of the move that led to the viewed position.
    pub fn last_move_squares(&self) -> (r: Option<(shakmaty::Square, shakmaty::Square)>)
        requires
            self.wf(),
        ensures
            self.spec_current_index() == 0 ==> r is None,
    {
        match self.last_move() {
            Some(record) => uci_squares(record.uci.as_str()),
            None => None,
        }
    }

    pub fn king_square(&self, color: PlayerColor) -> Option<shakmaty::Square>
        requires
            self.wf(),
    {
        king_of(self.current_position(), color)
    }
}

} // verus!
