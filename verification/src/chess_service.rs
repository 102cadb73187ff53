//! The rules engine's public face: validating a submitted move, applying it
//! to a FEN position, listing legal moves, and classifying terminal states.

use vstd::prelude::*;
use crate::errors::MoveError;
use crate::rules::{
    fen_parses, legal_move_list, end_kind_of, white_to_move, piece_on_square, spec_is_legal,
    spec_apply_move, status_of_fen, is_double_pawn_push, two_rank_jump, ep_square_text,
    coord_move_text, valid_square_text, Side, PieceKind, EndKind, TerminalState, fen_ok,
    board_end_kind, board_white_to_move, move_is_legal, legal_moves_text, apply_move_text,
    piece_at_text,
};
use crate::text::{
    split_spaces, views_of, digit_char_exec, split_fields, join_fields, push_char,
    lemma_split_spaces_space_free, lemma_split_join_spaces,
};

verus! {

/// The winner text a terminal position maps to: the mated side's opponent,
/// or `draw` for stalemate.
pub open spec fn winner_text(fen: Seq<char>) -> Option<Seq<char>> {
    match end_kind_of(fen) {
        EndKind::Ongoing => None,
        EndKind::Stalemate => Some("draw"@),
        EndKind::Checkmate => Some(
            if white_to_move(fen) {
                "black"@
            } else {
                "white"@
            },
        ),
    }
}

/// The display name of a piece kind.
pub open spec fn piece_name(k: PieceKind) -> Seq<char> {
    match k {
        PieceKind::Pawn => "pawn"@,
        PieceKind::Knight => "knight"@,
        PieceKind::Bishop => "bishop"@,
        PieceKind::Rook => "rook"@,
        PieceKind::Queen => "queen"@,
        PieceKind::King => "king"@,
    }
}

/// Validates and applies moves on FEN positions and classifies the results.
/// Pure rules logic: no clock, no process, no storage.
pub struct ChessService;

impl ChessService {
    /// Validates an encoded position and returns it: the identity on every
    /// parseable FEN text, and `InvalidPosition` on everything else. With
    /// `make_move`'s guarantee that an applied position parses again, a
    /// position produced by `make_move` round-trips through this function
    /// unchanged.
    pub fn parse_position(fen: &str) -> (r: Result<String, MoveError>)
        ensures
            r is Ok <==> fen_parses(fen@),
            !fen_parses(fen@) ==> r == Err::<String, MoveError>(MoveError::InvalidPosition),
            r matches Ok(p) ==> p@ == fen@,
    {
        if fen_ok(fen) {
            Ok(String::from_str(fen))
        } else {
            Err(MoveError::InvalidPosition)
        }
    }

    /// Checks that a submitted move text is well-formed and legal at the
    /// position.
    pub fn parse_move(fen: &str, move_str: &str) -> (r: Result<(), MoveError>)
        ensures
            r == if !fen_parses(fen@) {
                Err::<(), MoveError>(MoveError::InvalidPosition)
            } else if !spec_is_legal(fen@, move_str@) {
                Err::<(), MoveError>(MoveError::IllegalMove)
            } else {
                Ok::<(), MoveError>(())
            },
    {
        if !fen_ok(fen) {
            return Err(MoveError::InvalidPosition);
        }
        let n = move_str.unicode_len();
        if !(n == 4 || n == 5) {
            return Err(MoveError::IllegalMove);
        }
        if n == 5 {
            let c = move_str.get_char(4);
            if !(c == 'q' || c == 'r' || c == 'b' || c == 'n') {
                return Err(MoveError::IllegalMove);
            }
        }
        if move_is_legal(fen, move_str) {
            Ok(())
        } else {
            Err(MoveError::IllegalMove)
        }
    }

    /// The square a double pawn advance jumped over, or `None` for every
    /// other move.
    fn en_passant_target(move_str: &str, piece: Option<PieceKind>) -> (r: Option<String>)
        requires
            coord_move_text(move_str@),
        ensures
            r is Some <==> piece == Some(PieceKind::Pawn) && two_rank_jump(move_str@),
            r matches Some(s) ==> s@ == ep_square_text(move_str@),
    {
        match piece {
            Some(PieceKind::Pawn) => {
                let fr = move_str.get_char(1) as u32;
                let tr = move_str.get_char(3) as u32;
                let diff = if fr >= tr {
                    fr - tr
                } else {
                    tr - fr
                };
                if diff == 2 {
                    let mid = (fr + tr) / 2;
                    let mut s = String::new();
                    push_char(&mut s, move_str.get_char(0));
                    push_char(&mut s, digit_char_exec((mid - 48) as u64));
                    proof {
                        assert(s@ =~= ep_square_text(move_str@));
                    }
                    Some(s)
                } else {
                    None
                }
            },
            _ => None,
        }
    }

    /// Applies a move to a position. Rejects an unparseable position, then a
    /// malformed or illegal move, and otherwise returns the new FEN, whose
    /// en-passant field is recomputed: after a double pawn advance it names
    /// the square jumped over, after every other move it is `-`. The
    /// returned text always parses again, so a returned position
    /// round-trips through `parse`.
    pub fn make_move(fen: &str, move_str: &str) -> (r: Result<String, MoveError>)
        ensures
            r is Ok <==> fen_parses(fen@) && spec_is_legal(fen@, move_str@),
            !fen_parses(fen@) ==> r == Err::<String, MoveError>(MoveError::InvalidPosition),
            fen_parses(fen@) && !spec_is_legal(fen@, move_str@) ==> r == Err::<
                String,
                MoveError,
            >(MoveError::IllegalMove),
            r matches Ok(out) ==> out@ == spec_apply_move(fen@, move_str@),
            r matches Ok(out) ==> fen_parses(out@),
            r matches Ok(out) ==> split_spaces(out@).len() == 6,
            r matches Ok(out) ==> (if is_double_pawn_push(fen@, move_str@) {
                split_spaces(out@)[3] == ep_square_text(move_str@)
            } else {
                split_spaces(out@)[3] == seq!['-']
            }),
    {
        if !fen_ok(fen) {
            return Err(MoveError::InvalidPosition);
        }
        let n = move_str.unicode_len();
        if !(n == 4 || n == 5) {
            return Err(MoveError::IllegalMove);
        }
        if n == 5 {
            let c = move_str.get_char(4);
            if !(c == 'q' || c == 'r' || c == 'b' || c == 'n') {
                return Err(MoveError::IllegalMove);
            }
        }
        if !move_is_legal(fen, move_str) {
            return Err(MoveError::IllegalMove);
        }
        let mut from_sq = String::new();
        push_char(&mut from_sq, move_str.get_char(0));
        push_char(&mut from_sq, move_str.get_char(1));
        proof {
            assert(from_sq@ =~= move_str@.take(2));
        }
        let piece = piece_at_text(fen, from_sq.as_str());
        let raw = apply_move_text(fen, move_str);
        match Self::en_passant_target(move_str, piece) {
            Some(ep) => {
                let mut fields = split_fields(raw.as_str());
                proof {
                    assert(fields@.len() == views_of(fields@).len());
                }
                fields.set(3, ep);
                let out = join_fields(&fields);
                proof {
                    let parts = split_spaces(raw@).update(3, ep_square_text(move_str@));
                    assert(views_of(fields@) =~~= parts);
                    lemma_split_spaces_space_free(raw@);
                    assert(!ep_square_text(move_str@).contains(' ')) by {
                        let e = ep_square_text(move_str@);
                        assert(e.contains(' ') <==> exists|k: int|
                            0 <= k < e.len() && e[k] == ' ');
                    }
                    assert(forall|i: int| 0 <= i < parts.len() ==> !(#[trigger] parts[i]).contains(
                        ' ',
                    ));
                    lemma_split_join_spaces(parts);
                }
                Ok(out)
            },
            None => Ok(raw),
        }
    }

    /// Classifies a position: whether the game is over and, if it is, the
    /// winner text (`white`, `black`, or `draw`, the mated side's opponent
    /// winning). An unparseable position reads as not over, as the original
    /// storage rows may hold nothing better.
    pub fn check_game_over(fen: &str) -> (r: (bool, Option<String>))
        ensures
            !fen_parses(fen@) ==> r.0 == false && r.1 is None,
            fen_parses(fen@) ==> r.0 == (end_kind_of(fen@) != EndKind::Ongoing),
            fen_parses(fen@) ==> (r.1 is Some <==> winner_text(fen@) is Some),
            fen_parses(fen@) ==> (r.1 matches Some(w) ==> w@ == winner_text(fen@).unwrap()),
    {
        if !fen_ok(fen) {
            return (false, None);
        }
        match board_end_kind(fen) {
            EndKind::Ongoing => (false, None),
            EndKind::Stalemate => (true, Some(String::from_str("draw"))),
            EndKind::Checkmate => {
                if board_white_to_move(fen) {
                    (true, Some(String::from_str("black")))
                } else {
                    (true, Some(String::from_str("white")))
                }
            },
        }
    }

    /// As `check_game_over`, but an unparseable position is an error.
    pub fn check_game_status(fen: &str) -> (r: Result<(bool, Option<String>), MoveError>)
        ensures
            r is Ok <==> fen_parses(fen@),
            !fen_parses(fen@) ==> r == Err::<(bool, Option<String>), MoveError>(
                MoveError::InvalidPosition,
            ),
            r matches Ok(v) ==> v.0 == (end_kind_of(fen@) != EndKind::Ongoing),
            r matches Ok(v) ==> (v.1 is Some <==> winner_text(fen@) is Some),
            r matches Ok(v) ==> (v.1 matches Some(w) ==> w@ == winner_text(fen@).unwrap()),
    {
        if !fen_ok(fen) {
            return Err(MoveError::InvalidPosition);
        }
        Ok(Self::check_game_over(fen))
    }

    /// The terminal state of a position, with the winner named.
    pub fn terminal_state(fen: &str) -> (r: Result<TerminalState, MoveError>)
        ensures
            r is Ok <==> fen_parses(fen@),
            !fen_parses(fen@) ==> r == Err::<TerminalState, MoveError>(MoveError::InvalidPosition),
            r matches Ok(t) ==> t == status_of_fen(fen@),
    {
        if !fen_ok(fen) {
            return Err(MoveError::InvalidPosition);
        }
        match board_end_kind(fen) {
            EndKind::Ongoing => Ok(TerminalState::Ongoing),
            EndKind::Stalemate => Ok(TerminalState::Stalemate),
            EndKind::Checkmate => {
                if board_white_to_move(fen) {
                    Ok(TerminalState::Checkmate(Side::Black))
                } else {
                    Ok(TerminalState::Checkmate(Side::White))
                }
            },
        }
    }

    /// All legal moves of the position, as coordinate texts, in the move
    /// generator's deterministic order.
    pub fn get_legal_moves(fen: &str) -> (r: Result<Vec<String>, MoveError>)
        ensures
            r is Ok <==> fen_parses(fen@),
            !fen_parses(fen@) ==> r == Err::<Vec<String>, MoveError>(MoveError::InvalidPosition),
            r matches Ok(v) ==> views_of(v@) == legal_move_list(fen@),
            r matches Ok(v) ==> forall|i: int|
                0 <= i < v@.len() ==> spec_is_legal(fen@, #[trigger] v@[i]@),
    {
        if !fen_ok(fen) {
            return Err(MoveError::InvalidPosition);
        }
        let v = legal_moves_text(fen);
        proof {
            assert forall|i: int| 0 <= i < v@.len() implies spec_is_legal(
                fen@,
                #[trigger] v@[i]@,
            ) by {
                assert(views_of(v@)[i] == v@[i]@);
                assert(legal_move_list(fen@).contains(v@[i]@));
            }
        }
        Ok(v)
    }

    /// The name of the piece on a square, `None` for an empty square, a
    /// malformed square text, or an unparseable position.
    pub fn get_piece_at_square(fen: &str, square_notation: &str) -> (r: Option<String>)
        ensures
            !fen_parses(fen@) ==> r is None,
            !valid_square_text(square_notation@) ==> r is None,
            fen_parses(fen@) && valid_square_text(square_notation@) ==> (r is Some
                <==> piece_on_square(fen@, square_notation@) is Some),
            fen_parses(fen@) && valid_square_text(square_notation@) ==> (r matches Some(s) ==> s@
                == piece_name(piece_on_square(fen@, square_notation@).unwrap())),
    {
        if !fen_ok(fen) {
            return None;
        }
        if square_notation.unicode_len() != 2 {
            return None;
        }
        let f = square_notation.get_char(0);
        let k = square_notation.get_char(1);
        if !('a' <= f && f <= 'h' && '1' <= k && k <= '8') {
            return None;
        }
        match piece_at_text(fen, square_notation) {
            None => None,
            Some(PieceKind::Pawn) => Some(String::from_str("pawn")),
            Some(PieceKind::Knight) => Some(String::from_str("knight")),
            Some(PieceKind::Bishop) => Some(String::from_str("bishop")),
            Some(PieceKind::Rook) => Some(String::from_str("rook")),
            Some(PieceKind::Queen) => Some(String::from_str("queen")),
            Some(PieceKind::King) => Some(String::from_str("king")),
        }
    }
}

} // verus!
