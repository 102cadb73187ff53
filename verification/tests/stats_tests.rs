use chess_backend::models::{User, UserLevelStats, UserRecord};
use chess_backend::stats_service::StatsService;
use chess_backend::user_service::UserService;

fn level(difficulty: i32, games_played: i32, games_won: i32) -> UserLevelStats {
    UserLevelStats {
        id: format!("level-{}", difficulty),
        user_id: "user-1".to_string(),
        difficulty,
        games_played,
        games_won,
        total_time_seconds: 0,
        average_time_seconds: 0,
        total_moves: 0,
        average_moves: 0,
    }
}

#[test]
fn new_players_start_at_the_base_rating() {
    assert_eq!(StatsService::estimate_player_elo(&vec![]), 800);
}

#[test]
fn rating_follows_the_highest_level_won_at_least_half_the_time() {
    let stats = vec![
        level(5, 4, 3),   // three quarters won, but 500 is below the base
        level(12, 4, 2),  // exactly half won: counts, 1200
        level(13, 4, 1),  // a quarter won: does not count
    ];
    assert_eq!(StatsService::estimate_player_elo(&stats), 1_200);
}

#[test]
fn rating_ignores_levels_without_games() {
    let stats = vec![level(20, 0, 0), level(9, 1, 1)];
    assert_eq!(StatsService::estimate_player_elo(&stats), 900);
}

#[test]
fn a_win_updates_play_time_streaks_and_level_numbers() {
    let mut user = UserService::create_user("ada".to_string(), 50);
    user.current_streak = Some(2);
    user.best_streak = Some(2);
    let mut lv = level(5, 3, 1);
    lv.total_time_seconds = 300;
    lv.total_moves = 90;
    StatsService::update_game_stats(&mut user, &mut lv, 120, 30, true);
    assert_eq!(user.total_play_time_seconds, Some(120));
    assert_eq!(user.current_streak, Some(3));
    assert_eq!(user.best_streak, Some(3));
    assert_eq!(lv.games_played, 4);
    assert_eq!(lv.games_won, 2);
    assert_eq!(lv.total_time_seconds, 420);
    assert_eq!(lv.total_moves, 120);
    assert_eq!(lv.average_time_seconds, 105);
    assert_eq!(lv.average_moves, 30);
}

#[test]
fn a_loss_resets_the_streak_and_keeps_the_best() {
    let mut user = UserService::create_user("ada".to_string(), 50);
    user.current_streak = Some(4);
    user.best_streak = Some(6);
    user.total_play_time_seconds = Some(1_000);
    let mut lv = level(5, 1, 1);
    StatsService::update_game_stats(&mut user, &mut lv, 60, 10, false);
    assert_eq!(user.total_play_time_seconds, Some(1_060));
    assert_eq!(user.current_streak, Some(0));
    assert_eq!(user.best_streak, Some(6));
    assert_eq!(lv.games_played, 2);
    assert_eq!(lv.games_won, 1);
}

#[test]
fn unset_counters_read_as_zero() {
    let mut user = UserService::create_user("ada".to_string(), 50);
    user.total_play_time_seconds = None;
    user.current_streak = None;
    user.best_streak = None;
    let mut lv = level(3, 0, 0);
    StatsService::update_game_stats(&mut user, &mut lv, 45, 8, true);
    assert_eq!(user.total_play_time_seconds, Some(45));
    assert_eq!(user.current_streak, Some(1));
    assert_eq!(user.best_streak, Some(1));
    assert_eq!(lv.average_time_seconds, 45);
    assert_eq!(lv.average_moves, 8);
}

#[test]
fn a_first_win_always_sets_a_record() {
    assert!(StatsService::is_new_record(None, 600));
    assert!(StatsService::is_new_record(Some(300), 299));
    assert!(!StatsService::is_new_record(Some(300), 300));
    assert!(!StatsService::is_new_record(Some(300), 301));
}

#[test]
fn personal_record_updates_only_on_a_faster_completion() {
    let mut record: Option<UserRecord> = None;
    StatsService::update_personal_record(
        &mut record,
        "rec-1".to_string(),
        "user-1".to_string(),
        5,
        300,
        40,
        2_000,
    );
    let first = record.as_ref().unwrap();
    assert_eq!(first.id, "rec-1");
    assert_eq!(first.best_time_seconds, 300);
    assert_eq!(first.moves_count, 40);
    assert_eq!(first.achieved_at, Some(2_000));

    StatsService::update_personal_record(
        &mut record,
        "rec-2".to_string(),
        "user-1".to_string(),
        5,
        250,
        35,
        3_000,
    );
    let better = record.as_ref().unwrap();
    assert_eq!(better.id, "rec-1");
    assert_eq!(better.best_time_seconds, 250);
    assert_eq!(better.moves_count, 35);
    assert_eq!(better.achieved_at, Some(3_000));

    StatsService::update_personal_record(
        &mut record,
        "rec-3".to_string(),
        "user-1".to_string(),
        5,
        400,
        20,
        4_000,
    );
    let unchanged = record.as_ref().unwrap();
    assert_eq!(unchanged.best_time_seconds, 250);
    assert_eq!(unchanged.achieved_at, Some(3_000));
}

#[test]
fn profiles_hold_the_rows_they_were_assembled_from() {
    let user = UserService::create_user("ada".to_string(), 50);
    let records = vec![];
    let level_stats = vec![level(5, 2, 1)];
    let profile = StatsService::get_user_profile(user, records, level_stats);
    assert_eq!(profile.user.username, "ada");
    assert!(profile.records.is_empty());
    assert_eq!(profile.level_stats.len(), 1);
}

#[test]
fn created_users_carry_the_default_statistics() {
    let u = UserService::create_user("grace".to_string(), 77);
    assert_eq!(u.id.len(), 36);
    assert_eq!(u.username, "grace");
    assert_eq!(u.total_games, 0);
    assert_eq!(u.games_won, 0);
    assert_eq!(u.created_at, 77);
    assert_eq!(u.total_play_time_seconds, Some(0));
    assert_eq!(u.current_streak, Some(0));
    assert_eq!(u.best_streak, Some(0));
    assert_eq!(u.estimated_elo, Some(800));
}
