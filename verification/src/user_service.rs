//! Creating players.

use vstd::prelude::*;
use crate::models::{User, fresh_uuid_string};

verus! {

/// Creates players with their default statistics.
pub struct UserService;

impl UserService {
    /// A new player: no games, zeroed counters, and the base rating
    /// estimate of eight hundred.
    pub fn create_user(username: String, now: i64) -> (u: User)
        ensures
            u.id@.len() == 36,
            u.username == username,
            u.total_games == 0,
            u.games_won == 0,
            u.created_at == now,
            u.total_play_time_seconds == Some(0i32),
            u.current_streak == Some(0i32),
            u.best_streak == Some(0i32),
            u.estimated_elo == Some(800i32),
    {
        User {
            id: fresh_uuid_string(),
            username,
            total_games: 0,
            games_won: 0,
            created_at: now,
            total_play_time_seconds: Some(0),
            current_streak: Some(0),
            best_streak: Some(0),
            estimated_elo: Some(800),
        }
    }
}

} // verus!
