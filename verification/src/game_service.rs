//! One move exchange on a persisted game: validate and apply the human's
//! move, detect the end, and — when the game goes on — apply the opponent's
//! chosen reply and detect the end again. Storage and the engine subprocess
//! stay with the caller, which loads the game before and saves it after;
//! every decision in between is made here.

use vstd::prelude::*;
use crate::errors::MoveError;
use crate::models::{
    Game, GameStatus, GameResult, NewGameInput, GameMoveResult, starting_fen, spec_starting_fen,
    fresh_uuid_string,
};
use crate::chess_service::ChessService;
use crate::rules::{fen_parses, spec_is_legal, spec_apply_move, status_of_fen, TerminalState, Side};

verus! {

/// Drives move exchanges and game lifecycles.
pub struct GameService;

/// What the stats recorder is told once a game has finished.
#[derive(Debug)]
pub struct StatsUpdate {
    pub user_id: String,
    pub difficulty: i32,
    pub duration_seconds: i32,
    pub moves_count: i32,
    /// Whether the human, playing White, won.
    pub won: bool,
}

/// What one half of a move exchange ended in.
#[derive(Debug)]
pub enum MoveExchangeStep {
    /// The game finished on this move. The recorder note is present
    /// exactly when the game carried a start time.
    Finished { stats: Option<StatsUpdate> },
    /// The game goes on; the opponent's reply is owed next.
    AwaitOpponent,
}

/// The recorded result a terminal state maps to: the mated side's opponent
/// wins, stalemate is a draw.
pub open spec fn spec_result_of(t: TerminalState) -> Option<GameResult> {
    match t {
        TerminalState::Ongoing => None,
        TerminalState::Stalemate => Some(GameResult::Draw),
        TerminalState::Checkmate(Side::White) => Some(GameResult::WinWhite),
        TerminalState::Checkmate(Side::Black) => Some(GameResult::WinBlack),
    }
}

/// The storage text of a result.
pub open spec fn spec_result_text(r: GameResult) -> Seq<char> {
    match r {
        GameResult::WinWhite => "white"@,
        GameResult::WinBlack => "black"@,
        GameResult::Draw => "draw"@,
    }
}

/// The clock values under which durations fit the stored width.
pub open spec fn spec_clock_ok(g: Game, now: int) -> bool {
    match g.start_time {
        Some(s) => s <= now && now - s <= 0x7FFF_FFFF,
        None => true,
    }
}

/// How a game advances when one legal move is applied at time `now`: the
/// position moves forward, the move counter grows by one, and on a terminal
/// position the game finishes — status, result, end time and duration set,
/// all in the same step. Identity and timer fields never change.
pub open spec fn spec_advanced(old_g: Game, new_g: Game, mv: Seq<char>, now: int) -> bool {
    let f2 = spec_apply_move(old_g.fen@, mv);
    let t = status_of_fen(f2);
    &&& new_g.fen@ == f2
    &&& new_g.moves_count == old_g.moves_count + 1
    &&& new_g.id == old_g.id
    &&& new_g.user_id == old_g.user_id
    &&& new_g.difficulty == old_g.difficulty
    &&& new_g.created_at == old_g.created_at
    &&& new_g.start_time == old_g.start_time
    &&& if t is Ongoing {
        &&& new_g.status == old_g.status
        &&& new_g.result == old_g.result
        &&& new_g.end_time == old_g.end_time
        &&& new_g.duration_seconds == old_g.duration_seconds
    } else {
        &&& new_g.status == GameStatus::Finished
        &&& new_g.result == spec_result_of(t)
        &&& (new_g.end_time matches Some(e) && e as int == now)
        &&& match old_g.start_time {
            Some(s) => new_g.duration_seconds matches Some(d) && d as int == now - s,
            None => new_g.duration_seconds == old_g.duration_seconds,
        }
    }
}

/// What a correct recorder note for a finished game holds.
pub open spec fn spec_stats_for(old_g: Game, st: StatsUpdate, t: TerminalState, now: int) -> bool {
    &&& st.user_id == old_g.user_id
    &&& st.difficulty == old_g.difficulty
    &&& st.moves_count == old_g.moves_count + 1
    &&& (old_g.start_time matches Some(s) && st.duration_seconds as int == now - s)
    &&& st.won == (spec_result_of(t) == Some(GameResult::WinWhite))
}

impl GameService {
    /// A new active game at the starting position, with a fresh identifier
    /// and its clock started.
    pub fn create_game(input: NewGameInput, now: i64) -> (g: Game)
        ensures
            g.id@.len() == 36,
            g.user_id == input.user_id,
            g.difficulty == input.difficulty,
            g.fen@ == spec_starting_fen(),
            g.status is Active,
            g.result is None,
            g.created_at == now,
            g.start_time == Some(now),
            g.end_time is None,
            g.duration_seconds is None,
            g.moves_count == 0,
    {
        Game {
            id: fresh_uuid_string(),
            user_id: input.user_id,
            difficulty: input.difficulty,
            fen: starting_fen(),
            status: GameStatus::Active,
            result: None,
            created_at: now,
            start_time: Some(now),
            end_time: None,
            duration_seconds: None,
            moves_count: 0,
        }
    }

    /// Applies one move to an active game: advances the position and the
    /// counter, and finishes the game if the new position is terminal. On
    /// any error the game is untouched.
    fn step_move(game: &mut Game, mv: &str, now: i64) -> (r: Result<Option<StatsUpdate>, MoveError>)
        requires
            spec_clock_ok(*old(game), now as int),
            old(game).moves_count < 0x7FFF_FFFF,
        ensures
            !fen_parses(old(game).fen@) ==> r == Err::<Option<StatsUpdate>, MoveError>(
                MoveError::InvalidPosition,
            ) && *final(game) == *old(game),
            fen_parses(old(game).fen@) && !spec_is_legal(old(game).fen@, mv@) ==> r == Err::<
                Option<StatsUpdate>,
                MoveError,
            >(MoveError::IllegalMove) && *final(game) == *old(game),
            fen_parses(old(game).fen@) && spec_is_legal(old(game).fen@, mv@) ==> {
                let t = status_of_fen(spec_apply_move(old(game).fen@, mv@));
                &&& spec_advanced(*old(game), *final(game), mv@, now as int)
                &&& r is Ok
                &&& (r matches Ok(stats) ==> {
                    &&& (stats is Some <==> !(t is Ongoing) && old(game).start_time is Some)
                    &&& (stats matches Some(st) ==> spec_stats_for(*old(game), st, t, now as int))
                })
            },
    {
        let new_fen = match ChessService::make_move(game.fen.as_str(), mv) {
            Ok(f) => f,
            Err(e) => {
                return Err(e);
            },
        };
        let t = match ChessService::terminal_state(new_fen.as_str()) {
            Ok(t) => t,
            Err(e) => {
                proof {
                    // an applied position parses again, so this cannot happen
                    assert(false);
                }
                return Err(e);
            },
        };
        game.fen = new_fen;
        game.moves_count = game.moves_count + 1;
        match t {
            TerminalState::Ongoing => Ok(None),
            _ => {
                game.status = GameStatus::Finished;
                game.result = match t {
                    TerminalState::Stalemate => Some(GameResult::Draw),
                    TerminalState::Checkmate(Side::White) => Some(GameResult::WinWhite),
                    _ => Some(GameResult::WinBlack),
                };
                game.end_time = Some(now);
                match game.start_time {
                    Some(s) => {
                        let d = now - s;
                        let d32 = d as i32;
                        game.duration_seconds = Some(d32);
                        let won = match game.result {
                            Some(GameResult::WinWhite) => true,
                            _ => false,
                        };
                        Ok(
                            Some(
                                StatsUpdate {
                                    user_id: game.user_id.clone(),
                                    difficulty: game.difficulty,
                                    duration_seconds: d32,
                                    moves_count: game.moves_count,
                                    won,
                                },
                            ),
                        )
                    },
                    None => Ok(None),
                }
            },
        }
    }

    /// The human's half of a move exchange. A game that is not active
    /// rejects the submission untouched; an unparseable position or an
    /// illegal move is reported untouched; otherwise the move is applied,
    /// the counter grows, and either the game finishes here or the
    /// opponent's reply is owed.
    pub fn make_move(game: &mut Game, player_move: &str, now: i64) -> (r: Result<
        MoveExchangeStep,
        MoveError,
    >)
        requires
            spec_clock_ok(*old(game), now as int),
            old(game).moves_count < 0x7FFF_FFFF,
        ensures
            !(old(game).status is Active) ==> r == Err::<MoveExchangeStep, MoveError>(
                MoveError::GameAlreadyFinished,
            ) && *final(game) == *old(game),
            old(game).status is Active && !fen_parses(old(game).fen@) ==> r == Err::<
                MoveExchangeStep,
                MoveError,
            >(MoveError::InvalidPosition) && *final(game) == *old(game),
            old(game).status is Active && fen_parses(old(game).fen@) && !spec_is_legal(
                old(game).fen@,
                player_move@,
            ) ==> r == Err::<MoveExchangeStep, MoveError>(MoveError::IllegalMove) && *final(game)
                == *old(game),
            old(game).status is Active && fen_parses(old(game).fen@) && spec_is_legal(
                old(game).fen@,
                player_move@,
            ) ==> {
                let t = status_of_fen(spec_apply_move(old(game).fen@, player_move@));
                &&& spec_advanced(*old(game), *final(game), player_move@, now as int)
                &&& (t is Ongoing ==> r == Ok::<MoveExchangeStep, MoveError>(
                    MoveExchangeStep::AwaitOpponent,
                ))
                &&& (!(t is Ongoing) ==> (r matches Ok(MoveExchangeStep::Finished { stats }) && {
                    &&& (stats is Some <==> old(game).start_time is Some)
                    &&& (stats matches Some(st) ==> spec_stats_for(*old(game), st, t, now as int))
                }))
            },
    {
        match game.status {
            GameStatus::Finished => Err(MoveError::GameAlreadyFinished),
            GameStatus::Active => {
                match Self::step_move(game, player_move, now) {
                    Err(e) => Err(e),
                    Ok(stats) => {
                        match game.status {
                            GameStatus::Finished => Ok(MoveExchangeStep::Finished { stats }),
                            GameStatus::Active => Ok(MoveExchangeStep::AwaitOpponent),
                        }
                    },
                }
            },
        }
    }

    /// The opponent's half of a move exchange: applies the chosen reply to
    /// the game and finishes it if the reply ends it. The reply is checked
    /// like any move; a game not active is rejected untouched.
    pub fn complete_move(game: &mut Game, engine_move: &str, now: i64) -> (r: Result<
        Option<StatsUpdate>,
        MoveError,
    >)
        requires
            spec_clock_ok(*old(game), now as int),
            old(game).moves_count < 0x7FFF_FFFF,
        ensures
            !(old(game).status is Active) ==> r == Err::<Option<StatsUpdate>, MoveError>(
                MoveError::GameAlreadyFinished,
            ) && *final(game) == *old(game),
            old(game).status is Active && !fen_parses(old(game).fen@) ==> r == Err::<
                Option<StatsUpdate>,
                MoveError,
            >(MoveError::InvalidPosition) && *final(game) == *old(game),
            old(game).status is Active && fen_parses(old(game).fen@) && !spec_is_legal(
                old(game).fen@,
                engine_move@,
            ) ==> r == Err::<Option<StatsUpdate>, MoveError>(MoveError::IllegalMove) && *final(game)
                == *old(game),
            old(game).status is Active && fen_parses(old(game).fen@) && spec_is_legal(
                old(game).fen@,
                engine_move@,
            ) ==> {
                let t = status_of_fen(spec_apply_move(old(game).fen@, engine_move@));
                &&& spec_advanced(*old(game), *final(game), engine_move@, now as int)
                &&& r is Ok
                &&& (r matches Ok(stats) ==> {
                    &&& (stats is Some <==> !(t is Ongoing) && old(game).start_time is Some)
                    &&& (stats matches Some(st) ==> spec_stats_for(*old(game), st, t, now as int))
                })
            },
    {
        match game.status {
            GameStatus::Finished => Err(MoveError::GameAlreadyFinished),
            GameStatus::Active => Self::step_move(game, engine_move, now),
        }
    }

    /// An exact copy of a game value.
    pub fn copy_game(g: &Game) -> (r: Game)
        ensures
            r == *g,
    {
        Game {
            id: g.id.clone(),
            user_id: g.user_id.clone(),
            difficulty: g.difficulty,
            fen: g.fen.clone(),
            status: g.status,
            result: g.result,
            created_at: g.created_at,
            start_time: g.start_time,
            end_time: g.end_time,
            duration_seconds: g.duration_seconds,
            moves_count: g.moves_count,
        }
    }

    /// The consolidated answer of one exchange: the updated game, the
    /// opponent's move text, the game-over flag, the winner text, and the
    /// elapsed seconds since the game started.
    pub fn move_result(game: &Game, stockfish_move: String, now: i64) -> (r: GameMoveResult)
        requires
            spec_clock_ok(*game, now as int),
        ensures
            r.game == *game,
            r.stockfish_move == stockfish_move,
            r.game_over == (game.status is Finished),
            (r.winner is Some <==> game.result is Some),
            (game.result matches Some(res) ==> r.winner matches Some(w) && w@ == spec_result_text(
                res,
            )),
            r.move_time_ms is None,
            (r.total_time_seconds is Some <==> game.start_time is Some),
            (game.start_time matches Some(s) ==> r.total_time_seconds matches Some(d) && d as int
                == now - s),
    {
        let winner: Option<String> = match game.result {
            None => None,
            Some(res) => Some(String::from_str(res.as_text())),
        };
        let total_time_seconds: Option<i32> = match game.start_time {
            None => None,
            Some(s) => Some((now - s) as i32),
        };
        GameMoveResult {
            game_over: match game.status {
                GameStatus::Finished => true,
                GameStatus::Active => false,
            },
            game: Self::copy_game(game),
            stockfish_move,
            winner,
            move_time_ms: None,
            total_time_seconds,
        }
    }
}

} // verus!
