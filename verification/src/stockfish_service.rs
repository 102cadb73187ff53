//! The engine client's verifiable core: the difficulty table, the tagged
//! parser for the engine's line protocol, the per-line fold that collects
//! candidate moves, the command texts sent to the engine, and the weakening
//! policy that degrades the engine's choice to the target difficulty.
//!
//! The subprocess itself — spawning, writing these command texts, reading
//! lines under a deadline, and tearing the process down — is outside this
//! library; its driver feeds every received line to [`SearchState::step`]
//! and hands the collected report back to the selection functions here.

use vstd::prelude::*;
use crate::errors::MoveError;
use crate::chess_service::ChessService;
use crate::rules::{fen_parses, legal_move_list, spec_is_legal};
use crate::text::{
    spec_tokens, spec_parse_int, str_eq_str, tokenize, parse_i32, views_of, spec_dec,
    spec_dec_signed, u64_dec_string, i64_dec_string,
};

verus! {

/// A candidate's score at or below this centipawn value counts as a blunder.
pub const BLUNDER_SCORE_LIMIT: i32 = -200;

/// The per-level engine settings: the engine's skill option, the search
/// time budget, and the two weakening probabilities in thousandths.
#[derive(Clone, Copy, PartialEq, Eq, Structural, Debug)]
pub struct DifficultyProfile {
    /// The engine's skill-level option value; negative values weaken it
    /// below its normal minimum.
    pub skill_level: i32,
    /// The search budget handed to the engine, in milliseconds.
    pub time_limit_ms: u32,
    /// Chance in thousandths that a random candidate replaces the engine's
    /// choice.
    pub random_move_millis: u32,
    /// Chance in thousandths that a blunder replaces the engine's choice.
    pub blunder_millis: u32,
}

/// The canonical weakening table, keyed by difficulty level. Levels outside
/// 1..=20 read as the strongest setting. At the top level both probabilities
/// are zero, so the engine's designated best move is always kept.
pub open spec fn spec_profile(difficulty: int) -> DifficultyProfile {
    if difficulty == 1 {
        DifficultyProfile { skill_level: -20i32, time_limit_ms: 1u32, random_move_millis: 950u32, blunder_millis: 900u32 }
    } else if difficulty == 2 {
        DifficultyProfile { skill_level: -18i32, time_limit_ms: 1u32, random_move_millis: 900u32, blunder_millis: 800u32 }
    } else if difficulty == 3 {
        DifficultyProfile { skill_level: -15i32, time_limit_ms: 2u32, random_move_millis: 850u32, blunder_millis: 700u32 }
    } else if difficulty == 4 {
        DifficultyProfile { skill_level: -12i32, time_limit_ms: 5u32, random_move_millis: 800u32, blunder_millis: 600u32 }
    } else if difficulty == 5 {
        DifficultyProfile { skill_level: -10i32, time_limit_ms: 10u32, random_move_millis: 750u32, blunder_millis: 500u32 }
    } else if difficulty == 6 {
        DifficultyProfile { skill_level: -8i32, time_limit_ms: 25u32, random_move_millis: 400u32, blunder_millis: 300u32 }
    } else if difficulty == 7 {
        DifficultyProfile { skill_level: -5i32, time_limit_ms: 50u32, random_move_millis: 350u32, blunder_millis: 250u32 }
    } else if difficulty == 8 {
        DifficultyProfile { skill_level: -3i32, time_limit_ms: 75u32, random_move_millis: 300u32, blunder_millis: 200u32 }
    } else if difficulty == 9 {
        DifficultyProfile { skill_level: -1i32, time_limit_ms: 100u32, random_move_millis: 250u32, blunder_millis: 150u32 }
    } else if difficulty == 10 {
        DifficultyProfile { skill_level: 0i32, time_limit_ms: 150u32, random_move_millis: 200u32, blunder_millis: 100u32 }
    } else if difficulty == 11 {
        DifficultyProfile { skill_level: 2i32, time_limit_ms: 200u32, random_move_millis: 150u32, blunder_millis: 80u32 }
    } else if difficulty == 12 {
        DifficultyProfile { skill_level: 4i32, time_limit_ms: 300u32, random_move_millis: 120u32, blunder_millis: 60u32 }
    } else if difficulty == 13 {
        DifficultyProfile { skill_level: 6i32, time_limit_ms: 400u32, random_move_millis: 100u32, blunder_millis: 40u32 }
    } else if difficulty == 14 {
        DifficultyProfile { skill_level: 8i32, time_limit_ms: 500u32, random_move_millis: 80u32, blunder_millis: 30u32 }
    } else if difficulty == 15 {
        DifficultyProfile { skill_level: 10i32, time_limit_ms: 750u32, random_move_millis: 60u32, blunder_millis: 20u32 }
    } else if difficulty == 16 {
        DifficultyProfile { skill_level: 12i32, time_limit_ms: 450u32, random_move_millis: 40u32, blunder_millis: 10u32 }
    } else if difficulty == 17 {
        DifficultyProfile { skill_level: 14i32, time_limit_ms: 350u32, random_move_millis: 20u32, blunder_millis: 5u32 }
    } else if difficulty == 18 {
        DifficultyProfile { skill_level: 16i32, time_limit_ms: 300u32, random_move_millis: 10u32, blunder_millis: 2u32 }
    } else if difficulty == 19 {
        DifficultyProfile { skill_level: 18i32, time_limit_ms: 250u32, random_move_millis: 5u32, blunder_millis: 0u32 }
    } else {
        DifficultyProfile { skill_level: 20i32, time_limit_ms: 200u32, random_move_millis: 0u32, blunder_millis: 0u32 }
    }
}

/// Interfaces the library's logic with the external engine: profiles,
/// protocol texts, line parsing, and the weakening policy.
pub struct StockfishService;

impl StockfishService {
    /// The weakening profile for a difficulty level.
    pub fn difficulty_profile(difficulty: i32) -> (r: DifficultyProfile)
        ensures
            r == spec_profile(difficulty as int),
            r.random_move_millis <= 1000,
            r.blunder_millis <= 1000,
            r.time_limit_ms >= 1,
    {
        match difficulty {
            1 => DifficultyProfile { skill_level: -20, time_limit_ms: 1, random_move_millis: 950, blunder_millis: 900 },
            2 => DifficultyProfile { skill_level: -18, time_limit_ms: 1, random_move_millis: 900, blunder_millis: 800 },
            3 => DifficultyProfile { skill_level: -15, time_limit_ms: 2, random_move_millis: 850, blunder_millis: 700 },
            4 => DifficultyProfile { skill_level: -12, time_limit_ms: 5, random_move_millis: 800, blunder_millis: 600 },
            5 => DifficultyProfile { skill_level: -10, time_limit_ms: 10, random_move_millis: 750, blunder_millis: 500 },
            6 => DifficultyProfile { skill_level: -8, time_limit_ms: 25, random_move_millis: 400, blunder_millis: 300 },
            7 => DifficultyProfile { skill_level: -5, time_limit_ms: 50, random_move_millis: 350, blunder_millis: 250 },
            8 => DifficultyProfile { skill_level: -3, time_limit_ms: 75, random_move_millis: 300, blunder_millis: 200 },
            9 => DifficultyProfile { skill_level: -1, time_limit_ms: 100, random_move_millis: 250, blunder_millis: 150 },
            10 => DifficultyProfile { skill_level: 0, time_limit_ms: 150, random_move_millis: 200, blunder_millis: 100 },
            11 => DifficultyProfile { skill_level: 2, time_limit_ms: 200, random_move_millis: 150, blunder_millis: 80 },
            12 => DifficultyProfile { skill_level: 4, time_limit_ms: 300, random_move_millis: 120, blunder_millis: 60 },
            13 => DifficultyProfile { skill_level: 6, time_limit_ms: 400, random_move_millis: 100, blunder_millis: 40 },
            14 => DifficultyProfile { skill_level: 8, time_limit_ms: 500, random_move_millis: 80, blunder_millis: 30 },
            15 => DifficultyProfile { skill_level: 10, time_limit_ms: 750, random_move_millis: 60, blunder_millis: 20 },
            16 => DifficultyProfile { skill_level: 12, time_limit_ms: 450, random_move_millis: 40, blunder_millis: 10 },
            17 => DifficultyProfile { skill_level: 14, time_limit_ms: 350, random_move_millis: 20, blunder_millis: 5 },
            18 => DifficultyProfile { skill_level: 16, time_limit_ms: 300, random_move_millis: 10, blunder_millis: 2 },
            19 => DifficultyProfile { skill_level: 18, time_limit_ms: 250, random_move_millis: 5, blunder_millis: 0 },
            _ => DifficultyProfile { skill_level: 20, time_limit_ms: 200, random_move_millis: 0, blunder_millis: 0 },
        }
    }

    /// Lower difficulties draw weaker settings in the table: going up a
    /// level never raises either probability.
    pub proof fn lemma_weaker_is_more_random(d: int)
        requires
            1 <= d <= 19,
        ensures
            spec_profile(d).random_move_millis >= spec_profile(d + 1).random_move_millis,
            spec_profile(d).blunder_millis >= spec_profile(d + 1).blunder_millis,
    {
    }

    /// The centipawn score reported on an engine output line: the token
    /// after the first `score cp` pair, when it is a decimal number that
    /// fits an `i32`.
    pub fn extract_score(line: &str) -> (r: Option<i32>)
        ensures
            r is Some <==> spec_score_in_range(line@),
            r matches Some(v) ==> Some(v as int) == spec_extract_score(line@),
    {
        let tokens = tokenize(line);
        let n = tokens.len();
        let mut i: usize = 0;
        while i < n
            invariant
                i <= n,
                n == tokens@.len(),
                views_of(tokens@) == spec_tokens(line@),
                spec_score_from(spec_tokens(line@), 0) == spec_score_from(
                    spec_tokens(line@),
                    i as int,
                ),
            decreases n - i,
        {
            proof {
                assert(tokens@[i as int]@ == spec_tokens(line@)[i as int]);
            }
            if i + 1 < n && str_eq_str(tokens[i].as_str(), "score") && str_eq_str(
                tokens[i + 1].as_str(),
                "cp",
            ) {
                if i + 2 < n {
                    proof {
                        assert(tokens@[i + 2]@ == spec_tokens(line@)[i + 2]);
                    }
                    return parse_i32(tokens[i + 2].as_str());
                } else {
                    return None;
                }
            }
            proof {
                if i + 1 < n {
                    assert(tokens@[i + 1]@ == spec_tokens(line@)[i + 1]);
                }
            }
            i += 1;
        }
        None
    }
}

/// The first `score cp` pair at or after position `i` in the token list,
/// and the in-range value after it, if any.
pub open spec fn spec_score_from(t: Seq<Seq<char>>, i: int) -> Option<int>
    decreases t.len() - i,
{
    if i < 0 || i + 1 >= t.len() {
        None
    } else if t[i] == "score"@ && t[i + 1] == "cp"@ {
        if i + 2 < t.len() {
            match spec_parse_int(t[i + 2]) {
                Some(v) => if -0x8000_0000 <= v <= 0x7FFF_FFFF {
                    Some(v)
                } else {
                    None
                },
                None => None,
            }
        } else {
            None
        }
    } else {
        spec_score_from(t, i + 1)
    }
}

/// The centipawn score an engine output line reports.
pub open spec fn spec_extract_score(line: Seq<char>) -> Option<int> {
    spec_score_from(spec_tokens(line), 0)
}

pub open spec fn spec_score_in_range(line: Seq<char>) -> bool {
    spec_extract_score(line) is Some
}

/// Whether the token list carries a `multipv` marker, the sign of a ranked
/// alternative-line report.
pub open spec fn spec_has_multipv(t: Seq<Seq<char>>) -> bool {
    exists|i: int| 0 <= i < t.len() && t[i] == "multipv"@
}

/// The move after the first `pv` token: the first move of the reported
/// principal variation, when it is at least four characters long.
pub open spec fn spec_pv_move_from(t: Seq<Seq<char>>, i: int) -> Option<Seq<char>>
    decreases t.len() - i,
{
    if i < 0 || i >= t.len() {
        None
    } else if t[i] == "pv"@ {
        if i + 1 < t.len() && t[i + 1].len() >= 4 {
            Some(t[i + 1])
        } else {
            None
        }
    } else {
        spec_pv_move_from(t, i + 1)
    }
}

/// The candidate move a ranked report line carries, if it is one.
pub open spec fn spec_ranked_move(line: Seq<char>) -> Option<Seq<char>> {
    if spec_has_multipv(spec_tokens(line)) {
        spec_pv_move_from(spec_tokens(line), 0)
    } else {
        None
    }
}

/// Whether the line is the engine's final `bestmove` report.
pub open spec fn spec_line_is_best(line: Seq<char>) -> bool {
    spec_tokens(line).len() >= 1 && spec_tokens(line)[0] == "bestmove"@
}

/// The move named on a `bestmove` line, when one follows the keyword.
pub open spec fn spec_best_move(line: Seq<char>) -> Option<Seq<char>> {
    if spec_tokens(line).len() >= 2 {
        Some(spec_tokens(line)[1])
    } else {
        None
    }
}

/// Whether the line is a readiness acknowledgment of the handshake.
pub open spec fn spec_line_is_ready(line: Seq<char>) -> bool {
    spec_tokens(line).len() >= 1 && (spec_tokens(line)[0] == "readyok"@ || spec_tokens(line)[0]
        == "uciok"@)
}

/// One line of engine output, classified: a readiness acknowledgment, a
/// ranked candidate report, the final best-move report, or noise.
pub enum EngineLine {
    Ready,
    Ranked { mv: String, score: i32 },
    Best { played: Option<String> },
    Other,
}

/// Classifies one line of engine output. Precedence: a `bestmove` line
/// first, then a readiness acknowledgment, then a ranked report; everything
/// else is noise and is skipped.
pub fn parse_engine_line(line: &str) -> (r: EngineLine)
    ensures
        r is Best <==> spec_line_is_best(line@),
        r matches EngineLine::Best { played } ==> (played is Some <==> spec_best_move(line@)
            is Some) && (played matches Some(m) ==> m@ == spec_best_move(line@).unwrap()),
        r is Ready <==> !spec_line_is_best(line@) && spec_line_is_ready(line@),
        r is Ranked <==> !spec_line_is_best(line@) && !spec_line_is_ready(line@)
            && spec_ranked_move(line@) is Some,
        r matches EngineLine::Ranked { mv, score } ==> mv@ == spec_ranked_move(line@).unwrap()
            && score as int == spec_line_score(line@),
{
    let tokens = tokenize(line);
    let n = tokens.len();
    if n == 0 {
        return EngineLine::Other;
    }
    let ghost t = spec_tokens(line@);
    proof {
        assert(tokens@[0]@ == t[0]);
    }
    if str_eq_str(tokens[0].as_str(), "bestmove") {
        if n >= 2 {
            proof {
                assert(tokens@[1]@ == t[1]);
            }
            return EngineLine::Best { played: Some(tokens[1].clone()) };
        }
        return EngineLine::Best { played: None };
    }
    if str_eq_str(tokens[0].as_str(), "readyok") || str_eq_str(tokens[0].as_str(), "uciok") {
        return EngineLine::Ready;
    }
    let mut has_multipv = false;
    let mut i: usize = 0;
    while i < n
        invariant
            i <= n,
            n >= 1,
            n == tokens@.len(),
            t == spec_tokens(line@),
            views_of(tokens@) == t,
            !spec_line_is_best(line@),
            !spec_line_is_ready(line@),
            has_multipv <==> exists|j: int| 0 <= j < i && t[j] == "multipv"@,
        decreases n - i,
    {
        proof {
            assert(tokens@[i as int]@ == t[i as int]);
        }
        if str_eq_str(tokens[i].as_str(), "multipv") {
            has_multipv = true;
            proof {
                assert(t[i as int] == "multipv"@);
            }
            i = n;
        } else {
            i += 1;
        }
    }
    if !has_multipv {
        proof {
            assert(!spec_has_multipv(t));
        }
        return EngineLine::Other;
    }
    let mut j: usize = 0;
    while j < n
        invariant
            j <= n,
            n >= 1,
            n == tokens@.len(),
            t == spec_tokens(line@),
            views_of(tokens@) == t,
            !spec_line_is_best(line@),
            !spec_line_is_ready(line@),
            spec_has_multipv(t),
            spec_pv_move_from(t, 0) == spec_pv_move_from(t, j as int),
        decreases n - j,
    {
        proof {
            assert(tokens@[j as int]@ == t[j as int]);
        }
        if str_eq_str(tokens[j].as_str(), "pv") {
            if j + 1 < n && tokens[j + 1].as_str().unicode_len() >= 4 {
                proof {
                    assert(tokens@[j + 1]@ == t[j + 1]);
                }
                let score = match StockfishService::extract_score(line) {
                    Some(v) => v,
                    None => 0,
                };
                return EngineLine::Ranked { mv: tokens[j + 1].clone(), score };
            }
            proof {
                if j + 1 < n {
                    assert(tokens@[j + 1]@ == t[j + 1]);
                }
            }
            return EngineLine::Other;
        }
        j += 1;
    }
    EngineLine::Other
}

/// The running collection of one search conversation: every ranked
/// candidate seen so far, the subset classified as blunders, and the
/// engine's final choice once its report arrived.
pub struct SearchState {
    /// Every candidate reported so far, with its score, in report order.
    pub all_moves: Vec<(String, i32)>,
    /// The candidates whose score was at or below the blunder limit.
    pub bad_moves: Vec<String>,
    /// The move of the final `bestmove` report, once seen.
    pub best: Option<String>,
    /// Whether the final report arrived; nothing changes afterwards.
    pub done: bool,
}

impl SearchState {
    /// An empty collection, ready for the first output line.
    pub fn new() -> (r: SearchState)
        ensures
            r.all_moves@ =~= Seq::<(String, i32)>::empty(),
            r.bad_moves@ =~= Seq::<String>::empty(),
            r.best is None,
            !r.done,
    {
        SearchState { all_moves: Vec::new(), bad_moves: Vec::new(), best: None, done: false }
    }

    /// Folds one line of engine output into the collection: a ranked report
    /// appends a candidate (and a blunder when its score is low enough), the
    /// final report records the chosen move and closes the collection, and
    /// every other line changes nothing.
    pub fn step(&mut self, line: &str)
        ensures
            old(self).done ==> *final(self) == *old(self),
            (!old(self).done && spec_line_is_best(line@)) ==> {
                &&& final(self).done
                &&& final(self).all_moves == old(self).all_moves
                &&& final(self).bad_moves == old(self).bad_moves
                &&& match spec_best_move(line@) {
                    Some(m) => final(self).best matches Some(b) && b@ == m,
                    None => final(self).best == old(self).best,
                }
            },
            (!old(self).done && !spec_line_is_best(line@) && !spec_line_is_ready(line@)
                && spec_ranked_move(line@) is Some) ==> {
                &&& !final(self).done
                &&& final(self).best == old(self).best
                &&& final(self).all_moves@.len() == old(self).all_moves@.len() + 1
                &&& final(self).all_moves@.drop_last() == old(self).all_moves@
                &&& final(self).all_moves@.last().0@ == spec_ranked_move(line@).unwrap()
                &&& final(self).all_moves@.last().1 as int == spec_line_score(line@)
                &&& if spec_line_score(line@) < BLUNDER_SCORE_LIMIT as int {
                    &&& final(self).bad_moves@.len() == old(self).bad_moves@.len() + 1
                    &&& final(self).bad_moves@.drop_last() == old(self).bad_moves@
                    &&& final(self).bad_moves@.last()@ == spec_ranked_move(line@).unwrap()
                } else {
                    final(self).bad_moves == old(self).bad_moves
                }
            },
            (!old(self).done && !spec_line_is_best(line@) && (spec_ranked_move(line@) is None
                || spec_line_is_ready(line@))) ==> *final(self) == *old(self),
    {
        if self.done {
            return ;
        }
        match parse_engine_line(line) {
            EngineLine::Best { played } => {
                match played {
                    Some(m) => {
                        self.best = Some(m);
                    },
                    None => {},
                }
                self.done = true;
            },
            EngineLine::Ranked { mv, score } => {
                let blunder = score < BLUNDER_SCORE_LIMIT;
                if blunder {
                    self.bad_moves.push(mv.clone());
                }
                self.all_moves.push((mv, score));
                proof {
                    assert(final(self).all_moves@.drop_last() =~= old(self).all_moves@);
                    if spec_line_score(line@) < BLUNDER_SCORE_LIMIT as int {
                        assert(final(self).bad_moves@.drop_last() =~= old(self).bad_moves@);
                    }
                }
            },
            EngineLine::Ready => {},
            EngineLine::Other => {},
        }
    }
}

/// The target rating for the strength limit at low-to-mid difficulties:
/// one hundred points per level, and never below one hundred.
pub open spec fn spec_target_elo(d: int) -> int {
    if d * 100 > 100 {
        d * 100
    } else {
        100
    }
}

/// The strength-configuration conversation for a difficulty level: the
/// skill option always; the strength limit and target rating for low-to-mid
/// levels; a request for twenty ranked lines below the top tier; and a
/// readiness check to close.
pub open spec fn spec_configure_lines(d: int) -> Seq<Seq<char>> {
    let skill = "setoption name Skill Level value "@ + spec_dec_signed(
        spec_profile(d).skill_level as int,
    ) + "\n"@;
    let with_strength = if d <= 10 {
        seq![
            skill,
            "setoption name UCI_LimitStrength value true\n"@,
            "setoption name UCI_Elo value "@ + spec_dec(spec_target_elo(d)) + "\n"@,
        ]
    } else {
        seq![skill]
    };
    let with_multipv = if d <= 15 {
        with_strength + seq!["setoption name MultiPV value 20\n"@]
    } else {
        with_strength
    };
    with_multipv + seq!["isready\n"@]
}

impl StockfishService {
    /// The protocol-initialization conversation: announce the protocol and
    /// check readiness.
    pub fn uci_init_lines() -> (r: Vec<String>)
        ensures
            r@.len() == 2,
            r@[0]@ == "uci\n"@,
            r@[1]@ == "isready\n"@,
    {
        let mut v: Vec<String> = Vec::new();
        v.push(String::from_str("uci\n"));
        v.push(String::from_str("isready\n"));
        v
    }

    /// The strength-configuration conversation for a difficulty level.
    pub fn configure_lines(difficulty: i32) -> (r: Vec<String>)
        ensures
            views_of(r@) == spec_configure_lines(difficulty as int),
    {
        let profile = Self::difficulty_profile(difficulty);
        let mut v: Vec<String> = Vec::new();
        let mut skill = String::from_str("setoption name Skill Level value ");
        let digits = i64_dec_string(profile.skill_level as i64);
        skill.append(digits.as_str());
        skill.append("\n");
        v.push(skill);
        if difficulty <= 10 {
            v.push(String::from_str("setoption name UCI_LimitStrength value true\n"));
            let e: i64 = (difficulty as i64) * 100;
            let elo: u64 = if e > 100 {
                e as u64
            } else {
                100
            };
            let mut elo_line = String::from_str("setoption name UCI_Elo value ");
            let elo_digits = u64_dec_string(elo);
            elo_line.append(elo_digits.as_str());
            elo_line.append("\n");
            v.push(elo_line);
        }
        if difficulty <= 15 {
            v.push(String::from_str("setoption name MultiPV value 20\n"));
        }
        v.push(String::from_str("isready\n"));
        proof {
            assert(views_of(v@) =~~= spec_configure_lines(difficulty as int));
        }
        v
    }

    /// The position-and-search conversation: set the position, then search
    /// under the budget in milliseconds.
    pub fn search_lines(fen: &str, time_limit_ms: u32) -> (r: Vec<String>)
        ensures
            r@.len() == 2,
            r@[0]@ == "position fen "@ + fen@ + "\n"@,
            r@[1]@ == "go movetime "@ + spec_dec(time_limit_ms as int) + "\n"@,
    {
        let mut v: Vec<String> = Vec::new();
        let mut pos = String::from_str("position fen ");
        pos.append(fen);
        pos.append("\n");
        v.push(pos);
        let mut go = String::from_str("go movetime ");
        let digits = u64_dec_string(time_limit_ms as u64);
        go.append(digits.as_str());
        go.append("\n");
        v.push(go);
        v
    }

    /// The position-and-evaluation conversation: set the position, then
    /// search to a fixed low depth, for passive evaluation only.
    pub fn eval_lines(fen: &str, depth: u32) -> (r: Vec<String>)
        ensures
            r@.len() == 2,
            r@[0]@ == "position fen "@ + fen@ + "\n"@,
            r@[1]@ == "go depth "@ + spec_dec(depth as int) + "\n"@,
    {
        let mut v: Vec<String> = Vec::new();
        let mut pos = String::from_str("position fen ");
        pos.append(fen);
        pos.append("\n");
        v.push(pos);
        let mut go = String::from_str("go depth ");
        let digits = u64_dec_string(depth as u64);
        go.append(digits.as_str());
        go.append("\n");
        v.push(go);
        v
    }

    /// The shutdown command, sent on every exit path.
    pub fn quit_line() -> (r: String)
        ensures
            r@ == "quit\n"@,
    {
        String::from_str("quit\n")
    }
}

/// Relies on `rand::rngs::StdRng::from_entropy` and `rand::Rng::gen_range`:
/// the draw lies in the requested range; nothing more is promised of a
/// random value.
#[verifier::external_body]
fn draw_millis() -> (r: u32)
    ensures
        r < 1000,
{
    let mut rng = <rand::rngs::StdRng as rand::SeedableRng>::from_entropy();
    rand::Rng::gen_range(&mut rng, 0..1000u32)
}

/// Relies on `rand::rngs::StdRng::from_entropy` and `rand::Rng::gen_range`:
/// the draw lies in the requested range; nothing more is promised of a
/// random value.
#[verifier::external_body]
fn draw_index(n: usize) -> (r: usize)
    requires
        n >= 1,
    ensures
        r < n,
{
    let mut rng = <rand::rngs::StdRng as rand::SeedableRng>::from_entropy();
    rand::Rng::gen_range(&mut rng, 0..n)
}

/// Which pool the weakened selection draws from.
#[derive(Clone, Copy, PartialEq, Eq, Structural, Debug)]
pub enum WeaknessChoice {
    /// Keep the engine's designated best move.
    UseBest,
    /// Draw uniformly from the blunder set.
    FromBlunders,
    /// Draw uniformly from all candidates.
    FromAny,
    /// Draw uniformly from the bottom seven tenths of the ranked list.
    FromBottom,
    /// Draw uniformly from the top six tenths, excluding the single best.
    FromWindow,
}

/// The selection branch, decided by one blunder draw and one random-move
/// draw, both in thousandths. Lower tiers blunder outright, low tiers roam
/// over every candidate, middle tiers over the weak end of the ranking,
/// upper-middle tiers over the strong end short of the best, and the top
/// tier keeps the engine's move.
pub open spec fn spec_weakness_choice(
    difficulty: int,
    n_all: int,
    n_bad: int,
    random_millis: int,
    blunder_millis: int,
    blunder_roll: int,
    random_roll: int,
) -> WeaknessChoice {
    if difficulty <= 3 && n_bad > 0 && blunder_roll < blunder_millis {
        WeaknessChoice::FromBlunders
    } else if difficulty <= 5 && n_all > 0 && random_roll < random_millis {
        WeaknessChoice::FromAny
    } else if difficulty <= 10 && n_all > 0 && random_roll < random_millis {
        WeaknessChoice::FromBottom
    } else if difficulty <= 15 && n_all > 3 && random_roll < random_millis {
        WeaknessChoice::FromWindow
    } else {
        WeaknessChoice::UseBest
    }
}

/// When both probabilities are zero — as they are at the top difficulty —
/// no draw can leave the engine's designated best move.
pub proof fn lemma_top_tier_keeps_best(
    difficulty: int,
    n_all: int,
    n_bad: int,
    blunder_roll: int,
    random_roll: int,
)
    requires
        blunder_roll >= 0,
        random_roll >= 0,
        spec_profile(difficulty).random_move_millis == 0,
        spec_profile(difficulty).blunder_millis == 0,
    ensures
        spec_weakness_choice(
            difficulty,
            n_all,
            n_bad,
            spec_profile(difficulty).random_move_millis as int,
            spec_profile(difficulty).blunder_millis as int,
            blunder_roll,
            random_roll,
        ) == WeaknessChoice::UseBest,
{
}

/// The start of the bottom selection window: three tenths of the list
/// length, rounded down.
pub open spec fn spec_bottom_start(n: int) -> int {
    n * 3 / 10
}

/// The end of the top selection window: six tenths of the list length,
/// rounded down, but at least three, and never past the end.
pub open spec fn spec_window_end(n: int) -> int {
    if n * 6 / 10 > 3 {
        if n * 6 / 10 < n {
            n * 6 / 10
        } else {
            n
        }
    } else {
        if 3 < n {
            3
        } else {
            n
        }
    }
}

impl StockfishService {
    /// The selection branch for one pair of draws.
    pub fn weakness_choice(
        difficulty: i32,
        n_all: usize,
        n_bad: usize,
        random_millis: u32,
        blunder_millis: u32,
        blunder_roll: u32,
        random_roll: u32,
    ) -> (r: WeaknessChoice)
        ensures
            r == spec_weakness_choice(
                difficulty as int,
                n_all as int,
                n_bad as int,
                random_millis as int,
                blunder_millis as int,
                blunder_roll as int,
                random_roll as int,
            ),
    {
        if difficulty <= 3 && n_bad > 0 && blunder_roll < blunder_millis {
            WeaknessChoice::FromBlunders
        } else if difficulty <= 5 && n_all > 0 && random_roll < random_millis {
            WeaknessChoice::FromAny
        } else if difficulty <= 10 && n_all > 0 && random_roll < random_millis {
            WeaknessChoice::FromBottom
        } else if difficulty <= 15 && n_all > 3 && random_roll < random_millis {
            WeaknessChoice::FromWindow
        } else {
            WeaknessChoice::UseBest
        }
    }

    /// Applies the weakening policy to the engine's designated best move:
    /// draws once for a blunder and once for a random move, and replaces
    /// the best move by a draw from the branch's pool. With both
    /// probabilities at zero the best move is always kept; whatever the
    /// draws, the result is the best move or a reported candidate.
    pub fn apply_weakness(
        best_move: String,
        all_moves: &Vec<(String, i32)>,
        bad_moves: &Vec<String>,
        random_millis: u32,
        blunder_millis: u32,
        difficulty: i32,
    ) -> (r: String)
        ensures
            random_millis == 0 && blunder_millis == 0 ==> r == best_move,
            r == best_move || (difficulty <= 3 && exists|i: int|
                0 <= i < bad_moves@.len() && (#[trigger] bad_moves@[i])@ == r@) || (difficulty <= 5
                && exists|i: int|
                0 <= i < all_moves@.len() && (#[trigger] all_moves@[i]).0@ == r@) || (difficulty
                <= 10 && exists|i: int|
                spec_bottom_start(all_moves@.len() as int) <= i < all_moves@.len() && (
                #[trigger] all_moves@[i]).0@ == r@) || (difficulty <= 15 && all_moves@.len() > 3
                && exists|i: int|
                1 <= i < spec_window_end(all_moves@.len() as int) && (#[trigger] all_moves@[i]).0@
                    == r@),
    {
        let blunder_roll = draw_millis();
        let random_roll = draw_millis();
        let n = all_moves.len();
        match Self::weakness_choice(
            difficulty,
            n,
            bad_moves.len(),
            random_millis,
            blunder_millis,
            blunder_roll,
            random_roll,
        ) {
            WeaknessChoice::UseBest => best_move,
            WeaknessChoice::FromBlunders => {
                let i = draw_index(bad_moves.len());
                bad_moves[i].clone()
            },
            WeaknessChoice::FromAny => {
                let i = draw_index(n);
                all_moves[i].0.clone()
            },
            WeaknessChoice::FromBottom => {
                let lo: usize = ((n as u128) * 3 / 10) as usize;
                proof {
                    assert((n as int) * 3 / 10 < n as int) by (nonlinear_arith)
                        requires
                            n as int >= 1,
                    ;
                    assert(lo == (n as int) * 3 / 10);
                }
                let i = lo + draw_index(n - lo);
                all_moves[i].0.clone()
            },
            WeaknessChoice::FromWindow => {
                let six: usize = ((n as u128) * 6 / 10) as usize;
                proof {
                    assert((n as int) * 6 / 10 < n as int) by (nonlinear_arith)
                        requires
                            n as int >= 1,
                    ;
                    assert(six == (n as int) * 6 / 10);
                }
                let hi: usize = if six > 3 {
                    six
                } else {
                    3
                };
                let hi: usize = if hi < n {
                    hi
                } else {
                    n
                };
                let i = 1 + draw_index(hi - 1);
                all_moves[i].0.clone()
            },
        }
    }

    /// Whether the pre-search draw already decides on a plain random legal
    /// move: only at the low difficulties, with the tier's random-move
    /// probability.
    pub fn should_try_random_first(difficulty: i32, roll: u32) -> (r: bool)
        ensures
            r == (difficulty <= 5 && (roll as int) < spec_profile(
                difficulty as int,
            ).random_move_millis as int),
    {
        let profile = Self::difficulty_profile(difficulty);
        difficulty <= 5 && roll < profile.random_move_millis
    }

    /// One draw in thousandths, for the pre-search decision.
    pub fn pre_search_roll() -> (r: u32)
        ensures
            r < 1000,
    {
        draw_millis()
    }

    /// A uniformly drawn legal move of the position, for the low-difficulty
    /// shortcut and as the fallback when the engine reported nothing.
    pub fn get_random_legal_move(fen: &str) -> (r: Result<String, MoveError>)
        ensures
            r is Ok <==> fen_parses(fen@) && legal_move_list(fen@).len() > 0,
            !fen_parses(fen@) ==> r == Err::<String, MoveError>(MoveError::InvalidPosition),
            fen_parses(fen@) && legal_move_list(fen@).len() == 0 ==> r == Err::<
                String,
                MoveError,
            >(MoveError::EngineUnavailable),
            r matches Ok(m) ==> spec_is_legal(fen@, m@),
    {
        match ChessService::get_legal_moves(fen) {
            Err(e) => Err(e),
            Ok(moves) => {
                if moves.len() == 0 {
                    Err(MoveError::EngineUnavailable)
                } else {
                    let i = draw_index(moves.len());
                    Ok(moves[i].clone())
                }
            },
        }
    }

    /// The engine's effective choice from a search report: its explicit
    /// final report if one arrived, else the highest-scoring collected
    /// candidate (the last one on ties, as the report order left it).
    pub fn best_from_report(all_moves: &Vec<(String, i32)>) -> (r: Option<String>)
        ensures
            r is Some <==> all_moves@.len() > 0,
            r matches Some(m) ==> exists|i: int|
                0 <= i < all_moves@.len() && (#[trigger] all_moves@[i]).0 == m && forall|j: int|
                    0 <= j < all_moves@.len() ==> (#[trigger] all_moves@[j]).1 <= all_moves@[i].1,
    {
        if all_moves.len() == 0 {
            return None;
        }
        let mut bi: usize = 0;
        let mut j: usize = 1;
        while j < all_moves.len()
            invariant
                1 <= j <= all_moves@.len(),
                bi < j,
                forall|k: int| 0 <= k < j ==> (#[trigger] all_moves@[k]).1 <= all_moves@[bi as int].1,
            decreases all_moves@.len() - j,
        {
            if all_moves[j].1 >= all_moves[bi].1 {
                bi = j;
            }
            j += 1;
        }
        Some(all_moves[bi].0.clone())
    }

    /// The opponent's move for one search report: weakens the engine's
    /// choice when there is one, and otherwise falls back to a uniformly
    /// drawn legal move. `EngineUnavailable` is reported only when the
    /// engine offered nothing and the fallback found no legal move either
    /// (or the position itself is unreadable).
    pub fn choose_from_search(fen: &str, difficulty: i32, state: &SearchState) -> (r: Result<
        String,
        MoveError,
    >)
        ensures
            state.best is Some || state.all_moves@.len() > 0 ==> r is Ok,
            state.best matches Some(b) ==> ((spec_profile(difficulty as int).random_move_millis
                == 0 && spec_profile(difficulty as int).blunder_millis == 0) ==> r == Ok::<
                String,
                MoveError,
            >(b)),
            state.best is None && state.all_moves@.len() == 0 ==> {
                &&& (r is Ok <==> fen_parses(fen@) && legal_move_list(fen@).len() > 0)
                &&& (r is Err ==> r == Err::<String, MoveError>(MoveError::EngineUnavailable))
                &&& (r matches Ok(m) ==> spec_is_legal(fen@, m@))
            },
            r matches Ok(m) ==> {
                ||| state.best matches Some(b) && m == b
                ||| exists|i: int|
                    0 <= i < state.all_moves@.len() && (#[trigger] state.all_moves@[i]).0@ == m@
                ||| exists|i: int|
                    0 <= i < state.bad_moves@.len() && (#[trigger] state.bad_moves@[i])@ == m@
                ||| spec_is_legal(fen@, m@)
            },
    {
        let profile = Self::difficulty_profile(difficulty);
        let engine_choice: Option<String> = match &state.best {
            Some(b) => Some(b.clone()),
            None => Self::best_from_report(&state.all_moves),
        };
        match engine_choice {
            Some(bm) => Ok(
                Self::apply_weakness(
                    bm,
                    &state.all_moves,
                    &state.bad_moves,
                    profile.random_move_millis,
                    profile.blunder_millis,
                    difficulty,
                ),
            ),
            None => {
                match Self::get_random_legal_move(fen) {
                    Ok(m) => Ok(m),
                    Err(_) => Err(MoveError::EngineUnavailable),
                }
            },
        }
    }
}

/// The score a collected candidate is recorded with: the reported score, or
/// zero when the line carries none.
pub open spec fn spec_line_score(line: Seq<char>) -> int {
    match spec_extract_score(line) {
        Some(v) => v,
        None => 0,
    }
}

} // verus!
