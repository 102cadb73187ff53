use chess_backend::chess_service::ChessService;
use chess_backend::errors::MoveError;
use chess_backend::rules::{Side, TerminalState};

const START: &str = "rnbqkbnr/pppppppp/8/8/8/8/PPPPPPPP/RNBQKBNR w KQkq - 0 1";

fn ep_field(fen: &str) -> String {
    fen.split(' ').nth(3).unwrap().to_string()
}

#[test]
fn single_pawn_advance_leaves_no_en_passant_target() {
    let after = ChessService::make_move(START, "e2e3").unwrap();
    assert_eq!(ep_field(&after), "-");
}

#[test]
fn double_pawn_advance_sets_en_passant_target_behind_pawn() {
    let after = ChessService::make_move(START, "d2d4").unwrap();
    assert_eq!(ep_field(&after), "d3");
}

#[test]
fn black_double_pawn_advance_sets_en_passant_target() {
    let after_white = ChessService::make_move(START, "e2e4").unwrap();
    assert_eq!(ep_field(&after_white), "e3");
    let after_black = ChessService::make_move(&after_white, "g7g5").unwrap();
    assert_eq!(ep_field(&after_black), "g6");
}

#[test]
fn knight_move_leaves_no_en_passant_target() {
    let after = ChessService::make_move(START, "g1f3").unwrap();
    assert_eq!(ep_field(&after), "-");
}

#[test]
fn applied_position_round_trips_through_parse() {
    let after = ChessService::make_move(START, "d2d4").unwrap();
    let parsed = ChessService::parse_position(&after).unwrap();
    assert_eq!(parsed, after);
    let after2 = ChessService::make_move(&after, "g8f6").unwrap();
    let parsed2 = ChessService::parse_position(&after2).unwrap();
    assert_eq!(parsed2, after2);
}

#[test]
fn recomputed_en_passant_target_allows_the_capture() {
    // A black pawn already stands on e4; after White's double advance d2d4
    // the en-passant capture e4xd3 must be legal in the produced position.
    let fen = "rnbqkbnr/pppp1ppp/8/8/4p3/8/PPPPPPPP/RNBQKBNR w KQkq - 0 3";
    let after = ChessService::make_move(fen, "d2d4").unwrap();
    assert_eq!(ep_field(&after), "d3");
    let moves = ChessService::get_legal_moves(&after).unwrap();
    assert!(moves.iter().any(|m| m == "e4d3"));
}

#[test]
fn make_move_rejects_unparseable_position() {
    assert_eq!(
        ChessService::make_move("not a position", "e2e4"),
        Err(MoveError::InvalidPosition)
    );
}

#[test]
fn make_move_rejects_illegal_move() {
    assert_eq!(ChessService::make_move(START, "e2e5"), Err(MoveError::IllegalMove));
}

#[test]
fn make_move_rejects_malformed_move_text() {
    assert_eq!(ChessService::make_move(START, "xx"), Err(MoveError::IllegalMove));
    assert_eq!(ChessService::make_move(START, "e2e4qq"), Err(MoveError::IllegalMove));
}

#[test]
fn promotion_move_applies() {
    let fen = "8/4P1k1/8/8/8/8/8/4K3 w - - 0 1";
    let after = ChessService::make_move(fen, "e7e8q").unwrap();
    assert!(after.starts_with("4Q3/"));
    assert_eq!(
        ChessService::make_move(fen, "e7e8x"),
        Err(MoveError::IllegalMove)
    );
}

#[test]
fn parse_move_accepts_legal_and_rejects_illegal() {
    assert_eq!(ChessService::parse_move(START, "e2e4"), Ok(()));
    assert_eq!(ChessService::parse_move(START, "e2e5"), Err(MoveError::IllegalMove));
    assert_eq!(
        ChessService::parse_move("garbage", "e2e4"),
        Err(MoveError::InvalidPosition)
    );
}

#[test]
fn parse_position_rejects_garbage() {
    assert_eq!(
        ChessService::parse_position("garbage"),
        Err(MoveError::InvalidPosition)
    );
    assert_eq!(ChessService::parse_position(START).unwrap(), START);
}

#[test]
fn checkmate_names_the_side_not_to_move() {
    // After the fool's mate White stands checkmated: Black wins.
    let mated = "rnb1kbnr/pppp1ppp/8/4p3/6Pq/5P2/PPPPP2P/RNBQKBNR w KQkq - 1 3";
    assert_eq!(
        ChessService::terminal_state(mated).unwrap(),
        TerminalState::Checkmate(Side::Black)
    );
    let (over, winner) = ChessService::check_game_over(mated);
    assert!(over);
    assert_eq!(winner.as_deref(), Some("black"));
}

#[test]
fn mate_in_one_position_ends_in_checkmate_for_the_mover() {
    // Scholar's mate: White to move plays f3f7 and the mated side's
    // opponent — White — wins.
    let fen = "r1bqkbnr/pppp1ppp/2n5/4p3/2B1P3/5Q2/PPPP1PPP/RNB1K1NR w KQkq - 4 4";
    let after = ChessService::make_move(fen, "f3f7").unwrap();
    assert_eq!(
        ChessService::terminal_state(&after).unwrap(),
        TerminalState::Checkmate(Side::White)
    );
    let (over, winner) = ChessService::check_game_over(&after);
    assert!(over);
    assert_eq!(winner.as_deref(), Some("white"));
}

#[test]
fn stalemate_reads_as_draw() {
    let fen = "7k/5Q2/6K1/8/8/8/8/8 b - - 0 1";
    assert_eq!(
        ChessService::terminal_state(fen).unwrap(),
        TerminalState::Stalemate
    );
    let (over, winner) = ChessService::check_game_over(fen);
    assert!(over);
    assert_eq!(winner.as_deref(), Some("draw"));
}

#[test]
fn ongoing_position_is_not_over() {
    assert_eq!(
        ChessService::terminal_state(START).unwrap(),
        TerminalState::Ongoing
    );
    assert_eq!(ChessService::check_game_over(START), (false, None));
    assert_eq!(ChessService::check_game_over("garbage"), (false, None));
    assert_eq!(
        ChessService::check_game_status("garbage"),
        Err(MoveError::InvalidPosition)
    );
    assert_eq!(
        ChessService::check_game_status(START).unwrap(),
        (false, None)
    );
}

#[test]
fn starting_position_has_twenty_legal_moves() {
    let moves = ChessService::get_legal_moves(START).unwrap();
    assert_eq!(moves.len(), 20);
    assert!(moves.iter().any(|m| m == "e2e4"));
    assert!(moves.iter().any(|m| m == "g1f3"));
    assert_eq!(
        ChessService::get_legal_moves("garbage"),
        Err(MoveError::InvalidPosition)
    );
}

#[test]
fn errors_carry_their_user_facing_texts() {
    assert_eq!(MoveError::InvalidPosition.message(), "invalid position");
    assert_eq!(MoveError::IllegalMove.message(), "illegal move");
    assert_eq!(MoveError::GameAlreadyFinished.message(), "game is not active");
    assert_eq!(MoveError::EngineUnavailable.message(), "engine unavailable");
    assert_eq!(MoveError::PersistenceError.message(), "persistence error");
}

#[test]
fn piece_at_square_names_the_piece() {
    assert_eq!(
        ChessService::get_piece_at_square(START, "e2").as_deref(),
        Some("pawn")
    );
    assert_eq!(
        ChessService::get_piece_at_square(START, "d1").as_deref(),
        Some("queen")
    );
    assert_eq!(
        ChessService::get_piece_at_square(START, "e8").as_deref(),
        Some("king")
    );
    assert_eq!(ChessService::get_piece_at_square(START, "e4"), None);
    assert_eq!(ChessService::get_piece_at_square(START, "z9"), None);
    assert_eq!(ChessService::get_piece_at_square("garbage", "e2"), None);
}
