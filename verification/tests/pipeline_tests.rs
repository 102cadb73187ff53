use chess_backend::errors::MoveError;
use chess_backend::game_service::{GameService, MoveExchangeStep};
use chess_backend::models::{Game, GameResult, GameStatus, NewGameInput};
use chess_backend::stockfish_service::{SearchState, StockfishService};

const START: &str = "rnbqkbnr/pppppppp/8/8/8/8/PPPPPPPP/RNBQKBNR w KQkq - 0 1";
const MATE_IN_ONE: &str = "r1bqkbnr/pppp1ppp/2n5/4p3/2B1P3/5Q2/PPPP1PPP/RNB1K1NR w KQkq - 4 4";

fn new_game(difficulty: i32) -> Game {
    GameService::create_game(
        NewGameInput { user_id: "user-1".to_string(), difficulty },
        1_000,
    )
}

fn game_at(fen: &str, difficulty: i32) -> Game {
    let mut g = new_game(difficulty);
    g.fen = fen.to_string();
    g
}

#[test]
fn create_game_starts_active_at_the_starting_position() {
    let g = new_game(7);
    assert_eq!(g.id.len(), 36);
    assert_eq!(g.user_id, "user-1");
    assert_eq!(g.difficulty, 7);
    assert_eq!(g.fen, START);
    assert_eq!(g.status, GameStatus::Active);
    assert_eq!(g.result, None);
    assert_eq!(g.created_at, 1_000);
    assert_eq!(g.start_time, Some(1_000));
    assert_eq!(g.end_time, None);
    assert_eq!(g.duration_seconds, None);
    assert_eq!(g.moves_count, 0);
}

#[test]
fn human_move_advances_the_game_and_awaits_the_opponent() {
    let mut g = new_game(5);
    let step = GameService::make_move(&mut g, "e2e4", 1_010).unwrap();
    assert!(matches!(step, MoveExchangeStep::AwaitOpponent));
    assert_eq!(g.moves_count, 1);
    assert_eq!(g.status, GameStatus::Active);
    assert_eq!(g.result, None);
    assert_eq!(g.end_time, None);
    assert_eq!(g.fen.split(' ').nth(1), Some("b"));
    assert_eq!(g.fen.split(' ').nth(3), Some("e3"));
}

#[test]
fn single_square_pawn_advance_leaves_no_en_passant_target() {
    let mut g = new_game(5);
    GameService::make_move(&mut g, "e2e3", 1_010).unwrap();
    assert_eq!(g.fen.split(' ').nth(3), Some("-"));
}

#[test]
fn two_square_pawn_advance_sets_the_en_passant_target() {
    let mut g = new_game(5);
    GameService::make_move(&mut g, "d2d4", 1_010).unwrap();
    assert_eq!(g.fen.split(' ').nth(3), Some("d3"));
}

#[test]
fn moving_the_opponents_piece_is_an_illegal_move_and_changes_nothing() {
    let mut g = new_game(5);
    let before_fen = g.fen.clone();
    let r = GameService::make_move(&mut g, "e7e5", 1_010);
    assert_eq!(r.unwrap_err(), MoveError::IllegalMove);
    assert_eq!(g.fen, before_fen);
    assert_eq!(g.moves_count, 0);
    assert_eq!(g.status, GameStatus::Active);
    assert_eq!(g.end_time, None);
}

#[test]
fn unparseable_position_is_rejected_untouched() {
    let mut g = game_at("garbage", 5);
    let r = GameService::make_move(&mut g, "e2e4", 1_010);
    assert_eq!(r.unwrap_err(), MoveError::InvalidPosition);
    assert_eq!(g.fen, "garbage");
    assert_eq!(g.moves_count, 0);
}

#[test]
fn mating_move_finishes_the_game_with_the_mover_as_winner() {
    let mut g = game_at(MATE_IN_ONE, 5);
    let step = GameService::make_move(&mut g, "f3f7", 1_060).unwrap();
    match step {
        MoveExchangeStep::Finished { stats } => {
            let st = stats.expect("the game carried a start time");
            assert_eq!(st.user_id, "user-1");
            assert_eq!(st.difficulty, 5);
            assert_eq!(st.duration_seconds, 60);
            assert_eq!(st.moves_count, 1);
            assert!(st.won);
        }
        MoveExchangeStep::AwaitOpponent => panic!("the game must finish on the mate"),
    }
    assert_eq!(g.status, GameStatus::Finished);
    assert_eq!(g.result, Some(GameResult::WinWhite));
    assert_eq!(g.end_time, Some(1_060));
    assert_eq!(g.duration_seconds, Some(60));
    assert_eq!(g.moves_count, 1);
}

#[test]
fn second_submission_after_the_finish_is_rejected_unchanged() {
    let mut g = game_at(MATE_IN_ONE, 5);
    GameService::make_move(&mut g, "f3f7", 1_060).unwrap();
    let fen_after = g.fen.clone();
    let r = GameService::make_move(&mut g, "e7e5", 1_070);
    assert_eq!(r.unwrap_err(), MoveError::GameAlreadyFinished);
    assert_eq!(g.fen, fen_after);
    assert_eq!(g.moves_count, 1);
    assert_eq!(g.status, GameStatus::Finished);
    assert_eq!(g.end_time, Some(1_060));
}

#[test]
fn opponent_reply_advances_the_game_again() {
    let mut g = new_game(5);
    GameService::make_move(&mut g, "e2e4", 1_010).unwrap();
    let stats = GameService::complete_move(&mut g, "e7e5", 1_011).unwrap();
    assert!(stats.is_none());
    assert_eq!(g.moves_count, 2);
    assert_eq!(g.status, GameStatus::Active);
    assert_eq!(g.fen.split(' ').nth(1), Some("w"));
    assert_eq!(g.fen.split(' ').nth(3), Some("e6"));
}

#[test]
fn exchange_with_engine_absent_still_produces_a_legal_reply() {
    // No engine process answered: the search report is empty, and the
    // fallback still hands back a legal move that completes the exchange.
    let mut g = new_game(3);
    let step = GameService::make_move(&mut g, "e2e4", 1_010).unwrap();
    assert!(matches!(step, MoveExchangeStep::AwaitOpponent));
    let empty_report = SearchState::new();
    let reply = StockfishService::choose_from_search(&g.fen, g.difficulty, &empty_report)
        .expect("the fallback must produce a move");
    let stats = GameService::complete_move(&mut g, &reply, 1_011).unwrap();
    assert!(stats.is_none());
    assert_eq!(g.moves_count, 2);
    assert_eq!(g.status, GameStatus::Active);
}

#[test]
fn complete_move_on_a_finished_game_is_rejected() {
    let mut g = game_at(MATE_IN_ONE, 5);
    GameService::make_move(&mut g, "f3f7", 1_060).unwrap();
    assert_eq!(
        GameService::complete_move(&mut g, "e8f7", 1_061).unwrap_err(),
        MoveError::GameAlreadyFinished
    );
}

#[test]
fn move_result_assembles_the_consolidated_answer() {
    let mut g = game_at(MATE_IN_ONE, 5);
    GameService::make_move(&mut g, "f3f7", 1_060).unwrap();
    let r = GameService::move_result(&g, "none".to_string(), 1_065);
    assert_eq!(r.game.fen, g.fen);
    assert_eq!(r.game.moves_count, 1);
    assert_eq!(r.stockfish_move, "none");
    assert!(r.game_over);
    assert_eq!(r.winner.as_deref(), Some("white"));
    assert_eq!(r.move_time_ms, None);
    assert_eq!(r.total_time_seconds, Some(65));
}

#[test]
fn move_result_on_an_ongoing_game_has_no_winner() {
    let mut g = new_game(5);
    GameService::make_move(&mut g, "e2e4", 1_010).unwrap();
    let r = GameService::move_result(&g, "e7e5".to_string(), 1_012);
    assert!(!r.game_over);
    assert_eq!(r.winner, None);
    assert_eq!(r.total_time_seconds, Some(12));
}

#[test]
fn stalemate_finishes_the_game_as_a_draw() {
    // White to move; the queen's arrival on f7 leaves Black stalemated.
    let fen = "7k/8/6K1/8/8/5Q2/8/8 w - - 0 1";
    let mut g = game_at(fen, 5);
    let step = GameService::make_move(&mut g, "f3f7", 1_030).unwrap();
    match step {
        MoveExchangeStep::Finished { stats } => {
            let st = stats.expect("the game carried a start time");
            assert!(!st.won);
        }
        MoveExchangeStep::AwaitOpponent => panic!("the stalemate must finish the game"),
    }
    assert_eq!(g.status, GameStatus::Finished);
    assert_eq!(g.result, Some(GameResult::Draw));
}
