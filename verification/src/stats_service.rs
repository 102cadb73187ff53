//! Aggregate player statistics: what one finished game does to a player's
//! totals and streaks, to their per-level numbers, and to their personal
//! record, and how a rating is estimated from the per-level numbers. The
//! rows live in storage; the caller loads them, lets these functions
//! compute the new values, and writes them back.

use vstd::prelude::*;
use crate::models::{User, UserRecord, UserLevelStats, UserProfile};

verus! {

/// Computes the statistics updates that follow from finished games.
pub struct StatsService;

/// The rating estimate from per-level numbers, folded left to right: the
/// base is eight hundred, and each level played with a win rate of at least
/// one half raises the estimate to one hundred points per level.
pub open spec fn spec_elo_from(stats: Seq<UserLevelStats>, i: int) -> int
    decreases i,
{
    if i <= 0 {
        800
    } else {
        let prev = spec_elo_from(stats, i - 1);
        let s = stats[i - 1];
        if s.games_played > 0 && s.games_won * 2 >= s.games_played && s.difficulty * 100 > prev {
            s.difficulty * 100
        } else {
            prev
        }
    }
}

pub proof fn lemma_elo_bounds(stats: Seq<UserLevelStats>, i: int)
    requires
        forall|j: int| 0 <= j < stats.len() ==> (#[trigger] stats[j]).difficulty <= 20,
        0 <= i <= stats.len(),
    ensures
        800 <= spec_elo_from(stats, i) <= 2000,
    decreases i,
{
    if i > 0 {
        lemma_elo_bounds(stats, i - 1);
    }
}

impl StatsService {
    /// The estimated rating of a player: eight hundred as the base, raised
    /// to one hundred points per difficulty level for every level the
    /// player has won at least half of their games at.
    pub fn estimate_player_elo(stats: &Vec<UserLevelStats>) -> (r: i32)
        requires
            forall|j: int| 0 <= j < stats@.len() ==> (#[trigger] stats@[j]).difficulty <= 20,
        ensures
            r as int == spec_elo_from(stats@, stats@.len() as int),
            800 <= r <= 2000,
    {
        let mut elo: i32 = 800;
        let mut i: usize = 0;
        while i < stats.len()
            invariant
                i <= stats@.len(),
                forall|j: int| 0 <= j < stats@.len() ==> (#[trigger] stats@[j]).difficulty <= 20,
                elo as int == spec_elo_from(stats@, i as int),
                800 <= elo <= 2000,
            decreases stats@.len() - i,
        {
            proof {
                lemma_elo_bounds(stats@, i as int);
            }
            let s = &stats[i];
            if s.games_played > 0 && (s.games_won as i64) * 2 >= (s.games_played as i64) {
                let level_elo: i64 = (s.difficulty as i64) * 100;
                if level_elo > elo as i64 {
                    elo = level_elo as i32;
                }
            }
            i += 1;
        }
        elo
    }

    /// What one finished game does to the player's aggregates and to the
    /// per-level numbers: play time grows by the game's duration; a win
    /// lengthens the streak and may set a new best streak, a loss resets
    /// the streak; the level's counters and averages take the game in.
    pub fn update_game_stats(
        user: &mut User,
        level: &mut UserLevelStats,
        duration_seconds: i32,
        moves_count: i32,
        won: bool,
    )
        requires
            0 <= duration_seconds,
            0 <= moves_count,
            spec_or_zero(old(user).total_play_time_seconds) + duration_seconds <= 0x7FFF_FFFF,
            spec_or_zero(old(user).current_streak) < 0x7FFF_FFFF,
            0 <= old(level).games_played < 0x7FFF_FFFF,
            0 <= old(level).games_won < 0x7FFF_FFFF,
            0 <= old(level).total_time_seconds,
            old(level).total_time_seconds + duration_seconds <= 0x7FFF_FFFF,
            0 <= old(level).total_moves,
            old(level).total_moves + moves_count <= 0x7FFF_FFFF,
        ensures
            (final(user).total_play_time_seconds matches Some(t) && t == spec_or_zero(
                old(user).total_play_time_seconds,
            ) + duration_seconds),
            won ==> (final(user).current_streak matches Some(c) && c == spec_or_zero(
                old(user).current_streak,
            ) + 1),
            won ==> (final(user).best_streak matches Some(b) && b == spec_max(
                spec_or_zero(old(user).best_streak),
                spec_or_zero(old(user).current_streak) + 1,
            )),
            !won ==> final(user).current_streak == Some(0i32) && final(user).best_streak
                == old(user).best_streak,
            final(user).id == old(user).id,
            final(user).username == old(user).username,
            final(user).total_games == old(user).total_games,
            final(user).games_won == old(user).games_won,
            final(user).created_at == old(user).created_at,
            final(user).estimated_elo == old(user).estimated_elo,
            final(level).games_played == old(level).games_played + 1,
            final(level).games_won == old(level).games_won + (if won {
                1int
            } else {
                0int
            }),
            final(level).total_time_seconds == old(level).total_time_seconds + duration_seconds,
            final(level).total_moves == old(level).total_moves + moves_count,
            final(level).average_time_seconds as int == (old(level).total_time_seconds
                + duration_seconds) as int / (old(level).games_played + 1) as int,
            final(level).average_moves as int == (old(level).total_moves + moves_count) as int / (
            old(level).games_played + 1) as int,
            final(level).id == old(level).id,
            final(level).user_id == old(level).user_id,
            final(level).difficulty == old(level).difficulty,
    {
        let old_play = match user.total_play_time_seconds {
            Some(t) => t,
            None => 0,
        };
        user.total_play_time_seconds = Some(old_play + duration_seconds);
        if won {
            let old_cur = match user.current_streak {
                Some(c) => c,
                None => 0,
            };
            let old_best = match user.best_streak {
                Some(b) => b,
                None => 0,
            };
            let new_cur = old_cur + 1;
            user.current_streak = Some(new_cur);
            user.best_streak = Some(
                if old_best >= new_cur {
                    old_best
                } else {
                    new_cur
                },
            );
        } else {
            user.current_streak = Some(0);
        }
        level.games_played = level.games_played + 1;
        if won {
            level.games_won = level.games_won + 1;
        }
        level.total_time_seconds = level.total_time_seconds + duration_seconds;
        level.total_moves = level.total_moves + moves_count;
        level.average_time_seconds = level.total_time_seconds / level.games_played;
        level.average_moves = level.total_moves / level.games_played;
    }

    /// Whether a finished winning game sets a new personal record: always
    /// on the first win at the level, and otherwise exactly on a faster
    /// completion.
    pub fn is_new_record(current_best: Option<i32>, duration_seconds: i32) -> (r: bool)
        ensures
            r == match current_best {
                Some(b) => duration_seconds < b,
                None => true,
            },
    {
        match current_best {
            Some(b) => duration_seconds < b,
            None => true,
        }
    }

    /// What one winning game does to the personal record for its level: a
    /// first or faster completion replaces time, move count and date, and
    /// keeps the row's identity; a slower one changes nothing.
    pub fn update_personal_record(
        record: &mut Option<UserRecord>,
        fresh_id: String,
        user_id: String,
        difficulty: i32,
        duration_seconds: i32,
        moves_count: i32,
        now: i64,
    )
        ensures
            match *old(record) {
                None => *final(record) matches Some(r) && r.id == fresh_id && r.user_id == user_id
                    && r.difficulty == difficulty && r.best_time_seconds == duration_seconds
                    && r.moves_count == moves_count && r.achieved_at == Some(now),
                Some(prev) => if duration_seconds < prev.best_time_seconds {
                    *final(record) matches Some(r) && r.id == prev.id && r.user_id == prev.user_id
                        && r.difficulty == prev.difficulty && r.best_time_seconds
                        == duration_seconds && r.moves_count == moves_count && r.achieved_at
                        == Some(now)
                } else {
                    *final(record) == *old(record)
                },
            },
    {
        match record {
            None => {
                *record = Some(
                    UserRecord {
                        id: fresh_id,
                        user_id,
                        difficulty,
                        best_time_seconds: duration_seconds,
                        moves_count,
                        achieved_at: Some(now),
                    },
                );
            },
            Some(prev) => {
                if duration_seconds < prev.best_time_seconds {
                    prev.best_time_seconds = duration_seconds;
                    prev.moves_count = moves_count;
                    prev.achieved_at = Some(now);
                }
            },
        }
    }

    /// A player's full profile, assembled from their row, their records and
    /// their per-level numbers.
    pub fn get_user_profile(user: User, records: Vec<UserRecord>, level_stats: Vec<UserLevelStats>)
        -> (r: UserProfile)
        ensures
            r.user == user,
            r.records == records,
            r.level_stats == level_stats,
    {
        UserProfile { user, records, level_stats }
    }
}

/// An optional counter, read as zero when unset.
pub open spec fn spec_or_zero(v: Option<i32>) -> int {
    match v {
        Some(x) => x as int,
        None => 0,
    }
}

pub open spec fn spec_max(a: int, b: int) -> int {
    if a >= b {
        a
    } else {
        b
    }
}

} // verus!
