//! The persisted entities and request/result values of the service, as
//! plain data: times are seconds since the epoch, statuses and results are
//! enums with fixed storage texts.

use vstd::prelude::*;

verus! {

/// The lifecycle state of a game. A game is created `Active` and turns
/// `Finished` exactly once, the moment a terminal position is detected.
#[derive(Clone, Copy, PartialEq, Eq, Structural, Debug)]
pub enum GameStatus {
    Active,
    Finished,
}

impl GameStatus {
    /// The storage text of the status.
    pub fn as_text(self) -> (r: &'static str)
        ensures
            self is Active ==> r@ == "active"@,
            self is Finished ==> r@ == "finished"@,
    {
        match self {
            GameStatus::Active => "active",
            GameStatus::Finished => "finished",
        }
    }
}

/// The outcome of a finished game.
#[derive(Clone, Copy, PartialEq, Eq, Structural, Debug)]
pub enum GameResult {
    WinWhite,
    WinBlack,
    Draw,
}

impl GameResult {
    /// The storage text of the result.
    pub fn as_text(self) -> (r: &'static str)
        ensures
            self is WinWhite ==> r@ == "white"@,
            self is WinBlack ==> r@ == "black"@,
            self is Draw ==> r@ == "draw"@,
    {
        match self {
            GameResult::WinWhite => "white",
            GameResult::WinBlack => "black",
            GameResult::Draw => "draw",
        }
    }
}

/// One persisted match: the position it stands at, its difficulty, its
/// lifecycle state, and its timers.
#[derive(Debug)]
pub struct Game {
    pub id: String,
    pub user_id: String,
    /// The difficulty level, one to twenty.
    pub difficulty: i32,
    /// The current position, FEN-encoded.
    pub fen: String,
    pub status: GameStatus,
    /// The outcome, set exactly when the game finished.
    pub result: Option<GameResult>,
    /// Seconds since the epoch.
    pub created_at: i64,
    pub start_time: Option<i64>,
    pub end_time: Option<i64>,
    pub duration_seconds: Option<i32>,
    /// Accepted half-moves, both sides counted.
    pub moves_count: i32,
}

/// The request to create a game.
#[derive(Debug)]
pub struct NewGameInput {
    pub user_id: String,
    pub difficulty: i32,
}

/// The request to play one move in a game.
#[derive(Debug)]
pub struct MakeMoveInput {
    pub game_id: String,
    pub player_move: String,
}

/// The consolidated answer to one move exchange.
#[derive(Debug)]
pub struct GameMoveResult {
    pub game: Game,
    /// The opponent's move, or `none` when the game ended on the human's
    /// move.
    pub stockfish_move: String,
    pub game_over: bool,
    pub winner: Option<String>,
    pub move_time_ms: Option<i64>,
    pub total_time_seconds: Option<i32>,
}

/// A player, with aggregate statistics.
#[derive(Debug)]
pub struct User {
    pub id: String,
    pub username: String,
    pub total_games: i32,
    pub games_won: i32,
    /// Seconds since the epoch.
    pub created_at: i64,
    pub total_play_time_seconds: Option<i32>,
    pub current_streak: Option<i32>,
    pub best_streak: Option<i32>,
    pub estimated_elo: Option<i32>,
}

/// A player's personal best for one difficulty level.
#[derive(Debug)]
pub struct UserRecord {
    pub id: String,
    pub user_id: String,
    pub difficulty: i32,
    pub best_time_seconds: i32,
    pub moves_count: i32,
    /// Seconds since the epoch.
    pub achieved_at: Option<i64>,
}

/// A player's aggregate numbers at one difficulty level.
#[derive(Debug)]
pub struct UserLevelStats {
    pub id: String,
    pub user_id: String,
    pub difficulty: i32,
    pub games_played: i32,
    pub games_won: i32,
    pub total_time_seconds: i32,
    pub average_time_seconds: i32,
    pub total_moves: i32,
    pub average_moves: i32,
}

/// A player with all their records and per-level statistics.
#[derive(Debug)]
pub struct UserProfile {
    pub user: User,
    pub records: Vec<UserRecord>,
    pub level_stats: Vec<UserLevelStats>,
}

/// A winning game, as leaderboards list it.
#[derive(Debug)]
pub struct Score {
    pub id: String,
    pub user_id: String,
    pub game_id: String,
    pub difficulty: i32,
    pub duration_seconds: i32,
    /// Seconds since the epoch.
    pub created_at: i64,
}

/// A player's best time at one difficulty level.
#[derive(Debug)]
pub struct UserBestTime {
    pub user_id: String,
    pub difficulty: i32,
    pub best_time_seconds: i32,
    /// Seconds since the epoch.
    pub achieved_at: i64,
}

/// The canonical starting position.
pub open spec fn spec_starting_fen() -> Seq<char> {
    "rnbqkbnr/pppppppp/8/8/8/8/PPPPPPPP/RNBQKBNR w KQkq - 0 1"@
}

/// The canonical starting position, as a new game's FEN.
pub fn starting_fen() -> (r: String)
    ensures
        r@ == spec_starting_fen(),
{
    String::from_str("rnbqkbnr/pppppppp/8/8/8/8/PPPPPPPP/RNBQKBNR w KQkq - 0 1")
}

/// Relies on `uuid::Uuid::new_v4` and its hyphenated rendering:
/// thirty-six characters. Nothing more is promised of a random identifier.
#[verifier::external_body]
pub(crate) fn fresh_uuid_string() -> (r: String)
    ensures
        r@.len() == 36,
{
    uuid::Uuid::new_v4().to_string()
}

} // verus!
