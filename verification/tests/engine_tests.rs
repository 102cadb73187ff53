use chess_backend::errors::MoveError;
use chess_backend::stockfish_service::{
    parse_engine_line, EngineLine, SearchState, StockfishService, WeaknessChoice,
};

const START: &str = "rnbqkbnr/pppppppp/8/8/8/8/PPPPPPPP/RNBQKBNR w KQkq - 0 1";
const MATED: &str = "rnb1kbnr/pppp1ppp/8/4p3/6Pq/5P2/PPPPP2P/RNBQKBNR w KQkq - 1 3";

#[test]
fn extract_score_reads_the_centipawn_token() {
    assert_eq!(
        StockfishService::extract_score(
            "info depth 10 seldepth 2 multipv 1 score cp 35 nodes 100 pv e2e4 e7e5"
        ),
        Some(35)
    );
    assert_eq!(
        StockfishService::extract_score("info multipv 2 score cp -250 pv d2d4"),
        Some(-250)
    );
}

#[test]
fn extract_score_ignores_lines_without_a_centipawn_score() {
    assert_eq!(StockfishService::extract_score("info score mate 3 pv h5f7"), None);
    assert_eq!(StockfishService::extract_score("bestmove e2e4"), None);
    assert_eq!(StockfishService::extract_score(""), None);
    assert_eq!(
        StockfishService::extract_score("info multipv 1 score cp 99999999999 pv e2e4"),
        None
    );
}

#[test]
fn parse_engine_line_classifies_ranked_reports() {
    let line = "info depth 8 multipv 3 score cp -42 nodes 5 pv g1f3 b8c6";
    match parse_engine_line(line) {
        EngineLine::Ranked { mv, score } => {
            assert_eq!(mv, "g1f3");
            assert_eq!(score, -42);
        }
        _ => panic!("expected a ranked line"),
    }
}

#[test]
fn parse_engine_line_classifies_best_and_ready_lines() {
    match parse_engine_line("bestmove e2e4 ponder e7e5") {
        EngineLine::Best { played } => assert_eq!(played.as_deref(), Some("e2e4")),
        _ => panic!("expected the final report"),
    }
    match parse_engine_line("bestmove") {
        EngineLine::Best { played } => assert_eq!(played, None),
        _ => panic!("expected the final report"),
    }
    assert!(matches!(
        parse_engine_line("readyok"),
        EngineLine::Ready
    ));
    assert!(matches!(
        parse_engine_line("uciok"),
        EngineLine::Ready
    ));
}

#[test]
fn parse_engine_line_skips_noise() {
    assert!(matches!(
        parse_engine_line("id name SomeEngine"),
        EngineLine::Other
    ));
    // No multipv marker: not a ranked alternative-line report.
    assert!(matches!(
        parse_engine_line("info depth 1 score cp 10 pv e2e4"),
        EngineLine::Other
    ));
    // The first move of the variation is too short to be a move.
    assert!(matches!(
        parse_engine_line("info multipv 1 score cp 10 pv e2"),
        EngineLine::Other
    ));
    assert!(matches!(parse_engine_line(""), EngineLine::Other));
}

#[test]
fn search_state_collects_candidates_blunders_and_the_final_report() {
    let mut state = SearchState::new();
    state.step("info depth 9 multipv 1 score cp 31 pv e2e4 e7e5");
    state.step("id name noise");
    state.step("info depth 9 multipv 2 score cp -321 pv a2a3 d7d5");
    state.step("bestmove e2e4 ponder e7e5");
    state.step("info depth 9 multipv 3 score cp 12 pv d2d4");
    assert_eq!(state.all_moves.len(), 2);
    assert_eq!(state.all_moves[0], ("e2e4".to_string(), 31));
    assert_eq!(state.all_moves[1], ("a2a3".to_string(), -321));
    assert_eq!(state.bad_moves, vec!["a2a3".to_string()]);
    assert_eq!(state.best.as_deref(), Some("e2e4"));
    assert!(state.done);
}

#[test]
fn search_state_keeps_scores_at_the_blunder_limit_out_of_the_blunder_set() {
    let mut state = SearchState::new();
    state.step("info multipv 1 score cp -200 pv e2e4");
    state.step("info multipv 2 score cp -201 pv d2d4");
    assert_eq!(state.all_moves.len(), 2);
    assert_eq!(state.bad_moves, vec!["d2d4".to_string()]);
}

#[test]
fn difficulty_profile_matches_the_weakening_table() {
    let p1 = StockfishService::difficulty_profile(1);
    assert_eq!(
        (p1.skill_level, p1.time_limit_ms, p1.random_move_millis, p1.blunder_millis),
        (-20, 1, 950, 900)
    );
    let p10 = StockfishService::difficulty_profile(10);
    assert_eq!(
        (p10.skill_level, p10.time_limit_ms, p10.random_move_millis, p10.blunder_millis),
        (0, 150, 200, 100)
    );
    let p20 = StockfishService::difficulty_profile(20);
    assert_eq!(
        (p20.skill_level, p20.time_limit_ms, p20.random_move_millis, p20.blunder_millis),
        (20, 200, 0, 0)
    );
    let out_of_range = StockfishService::difficulty_profile(42);
    assert_eq!(out_of_range, p20);
}

#[test]
fn top_difficulty_always_keeps_the_engine_best_move() {
    let p = StockfishService::difficulty_profile(20);
    for roll in [0u32, 1, 499, 999] {
        let c = StockfishService::weakness_choice(
            20,
            8,
            3,
            p.random_move_millis,
            p.blunder_millis,
            roll,
            999 - roll,
        );
        assert_eq!(c, WeaknessChoice::UseBest);
    }
    let all = vec![("a2a3".to_string(), -5), ("g1f3".to_string(), 20)];
    let bad = vec!["a2a3".to_string()];
    for _ in 0..50 {
        let chosen = StockfishService::apply_weakness(
            "e2e4".to_string(),
            &all,
            &bad,
            p.random_move_millis,
            p.blunder_millis,
            20,
        );
        assert_eq!(chosen, "e2e4");
    }
}

#[test]
fn lowest_difficulty_mostly_replaces_the_engine_best_move() {
    // The engine's designated move is not among the weak candidates here,
    // so every weakened pick differs from it.
    let p = StockfishService::difficulty_profile(1);
    let all = vec![
        ("a2a3".to_string(), -10),
        ("b2b3".to_string(), -40),
        ("h2h4".to_string(), -350),
        ("g2g4".to_string(), -500),
    ];
    let bad = vec!["h2h4".to_string(), "g2g4".to_string()];
    let trials = 200;
    let mut differing = 0;
    for _ in 0..trials {
        let chosen = StockfishService::apply_weakness(
            "e2e4".to_string(),
            &all,
            &bad,
            p.random_move_millis,
            p.blunder_millis,
            1,
        );
        if chosen != "e2e4" {
            differing += 1;
        }
    }
    assert!(differing as f64 > 0.8 * trials as f64);
}

#[test]
fn weakness_choice_follows_the_branch_order() {
    // Low tier, blunder draw under the threshold: blunder.
    assert_eq!(
        StockfishService::weakness_choice(1, 5, 2, 950, 900, 899, 999),
        WeaknessChoice::FromBlunders
    );
    // Low tier, blunder draw over the threshold, random draw under: any.
    assert_eq!(
        StockfishService::weakness_choice(3, 5, 2, 850, 700, 700, 0),
        WeaknessChoice::FromAny
    );
    // No blunders collected: the blunder branch cannot fire.
    assert_eq!(
        StockfishService::weakness_choice(1, 5, 0, 950, 900, 0, 0),
        WeaknessChoice::FromAny
    );
    // Middle tier: the bottom window.
    assert_eq!(
        StockfishService::weakness_choice(8, 5, 0, 300, 200, 0, 299),
        WeaknessChoice::FromBottom
    );
    // Upper-middle tier with enough candidates: the top window.
    assert_eq!(
        StockfishService::weakness_choice(12, 5, 0, 120, 60, 0, 119),
        WeaknessChoice::FromWindow
    );
    // Upper-middle tier with a short list: keep the best move.
    assert_eq!(
        StockfishService::weakness_choice(12, 3, 0, 120, 60, 0, 119),
        WeaknessChoice::UseBest
    );
    // Draw over the threshold: keep the best move.
    assert_eq!(
        StockfishService::weakness_choice(8, 5, 0, 300, 200, 0, 300),
        WeaknessChoice::UseBest
    );
}

#[test]
fn should_try_random_first_only_at_low_difficulties() {
    assert!(StockfishService::should_try_random_first(1, 949));
    assert!(!StockfishService::should_try_random_first(1, 950));
    assert!(StockfishService::should_try_random_first(5, 749));
    assert!(!StockfishService::should_try_random_first(6, 0));
    assert!(!StockfishService::should_try_random_first(20, 0));
}

#[test]
fn random_legal_move_is_legal() {
    for _ in 0..20 {
        let mv = StockfishService::get_random_legal_move(START).unwrap();
        assert!(chess_backend::chess_service::ChessService::parse_move(START, &mv).is_ok());
    }
    assert_eq!(
        StockfishService::get_random_legal_move(MATED),
        Err(MoveError::EngineUnavailable)
    );
    assert_eq!(
        StockfishService::get_random_legal_move("garbage"),
        Err(MoveError::InvalidPosition)
    );
}

#[test]
fn best_from_report_takes_the_last_highest_score() {
    assert_eq!(StockfishService::best_from_report(&vec![]), None);
    let all = vec![
        ("a2a3".to_string(), 10),
        ("g1f3".to_string(), 30),
        ("e2e4".to_string(), 30),
        ("b2b3".to_string(), -5),
    ];
    assert_eq!(StockfishService::best_from_report(&all).as_deref(), Some("e2e4"));
}

#[test]
fn choose_from_search_uses_the_report_when_there_is_one() {
    let mut state = SearchState::new();
    state.step("info multipv 1 score cp 20 pv e2e4 e7e5");
    state.step("bestmove e2e4");
    let chosen = StockfishService::choose_from_search(START, 20, &state).unwrap();
    assert_eq!(chosen, "e2e4");
}

#[test]
fn choose_from_search_falls_back_to_a_random_legal_move() {
    let empty = SearchState::new();
    let chosen = StockfishService::choose_from_search(START, 10, &empty).unwrap();
    assert!(chess_backend::chess_service::ChessService::parse_move(START, &chosen).is_ok());
}

#[test]
fn choose_from_search_reports_engine_unavailable_only_when_all_fails() {
    let empty = SearchState::new();
    assert_eq!(
        StockfishService::choose_from_search(MATED, 10, &empty),
        Err(MoveError::EngineUnavailable)
    );
    assert_eq!(
        StockfishService::choose_from_search("garbage", 10, &empty),
        Err(MoveError::EngineUnavailable)
    );
}

#[test]
fn protocol_lines_are_the_uci_conversation() {
    let init = StockfishService::uci_init_lines();
    assert_eq!(init, vec!["uci\n".to_string(), "isready\n".to_string()]);

    let low = StockfishService::configure_lines(3);
    assert_eq!(
        low,
        vec![
            "setoption name Skill Level value -15\n".to_string(),
            "setoption name UCI_LimitStrength value true\n".to_string(),
            "setoption name UCI_Elo value 300\n".to_string(),
            "setoption name MultiPV value 20\n".to_string(),
            "isready\n".to_string(),
        ]
    );

    let mid = StockfishService::configure_lines(12);
    assert_eq!(
        mid,
        vec![
            "setoption name Skill Level value 4\n".to_string(),
            "setoption name MultiPV value 20\n".to_string(),
            "isready\n".to_string(),
        ]
    );

    let top = StockfishService::configure_lines(16);
    assert_eq!(
        top,
        vec![
            "setoption name Skill Level value 12\n".to_string(),
            "isready\n".to_string(),
        ]
    );

    let one = StockfishService::configure_lines(1);
    assert_eq!(one[2], "setoption name UCI_Elo value 100\n");

    let search = StockfishService::search_lines(START, 200);
    assert_eq!(search[0], format!("position fen {}\n", START));
    assert_eq!(search[1], "go movetime 200\n");

    let eval = StockfishService::eval_lines(START, 10);
    assert_eq!(eval[0], format!("position fen {}\n", START));
    assert_eq!(eval[1], "go depth 10\n");

    assert_eq!(StockfishService::quit_line(), "quit\n");
}
