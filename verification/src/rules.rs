//! The rules layer: positions are FEN strings, moves are coordinate texts
//! such as `e2e4` or `e7e8q`, and the `chess` crate decides parsing,
//! legality, application and terminal status behind trusted wrappers. The
//! en-passant field of an applied move's FEN is recomputed here, in verified
//! code, because the crate's own serialization does not write the standard
//! skipped-square value.

use vstd::prelude::*;
use crate::text::{split_spaces, join_spaces, views_of, digit_char};

verus! {

/// One of the two players.
#[derive(Clone, Copy, PartialEq, Eq, Structural, Debug)]
pub enum Side {
    White,
    Black,
}

/// The kind of piece standing on a square.
#[derive(Clone, Copy, PartialEq, Eq, Structural, Debug)]
pub enum PieceKind {
    Pawn,
    Knight,
    Bishop,
    Rook,
    Queen,
    King,
}

/// The raw classification of a position, before the winner is named.
#[derive(Clone, Copy, PartialEq, Eq, Structural, Debug)]
pub enum EndKind {
    Ongoing,
    Checkmate,
    Stalemate,
}

/// The terminal classification of a position. `Checkmate` names the winner:
/// the side that is *not* to move, since the side to move has no legal
/// answer and stands in check.
#[derive(Clone, Copy, PartialEq, Eq, Structural, Debug)]
pub enum TerminalState {
    Ongoing,
    Checkmate(Side),
    Stalemate,
}

// ---------------------------------------------------------------------------
// What the `chess` crate computes, by name. Each name stands for the result
// of one call on given texts; the trusted wrappers below apply them.
// ---------------------------------------------------------------------------

/// Whether `chess::Board::from_str` accepts the text as a position.
pub uninterp spec fn fen_parses(fen: Seq<char>) -> bool;

/// The legal moves of the position, as the coordinate texts that
/// `chess::MoveGen::new_legal` yields, in its (deterministic) order.
pub uninterp spec fn legal_move_list(fen: Seq<char>) -> Seq<Seq<char>>;

/// The FEN text that the `chess` crate serializes after applying the move.
pub uninterp spec fn fen_after_move(fen: Seq<char>, mv: Seq<char>) -> Seq<char>;

/// The raw status of the position, from `chess::Board::status`.
pub uninterp spec fn end_kind_of(fen: Seq<char>) -> EndKind;

/// Whether White is to move, from `chess::Board::side_to_move`.
pub uninterp spec fn white_to_move(fen: Seq<char>) -> bool;

/// The piece on a square, from `chess::Board::piece_on`.
pub uninterp spec fn piece_on_square(fen: Seq<char>, sq: Seq<char>) -> Option<PieceKind>;

// ---------------------------------------------------------------------------
// The move-text model.
// ---------------------------------------------------------------------------

pub open spec fn is_file_char(c: char) -> bool {
    'a' <= c && c <= 'h'
}

pub open spec fn is_rank_char(c: char) -> bool {
    '1' <= c && c <= '8'
}

/// The numeric rank a rank character denotes.
pub open spec fn rank_of(c: char) -> int {
    c as int - '0' as int
}

/// A text that names a square, such as `e4`.
pub open spec fn valid_square_text(s: Seq<char>) -> bool {
    s.len() == 2 && is_file_char(s[0]) && is_rank_char(s[1])
}

/// A text that starts with a source square and a destination square.
pub open spec fn coord_move_text(m: Seq<char>) -> bool {
    m.len() >= 4 && is_file_char(m[0]) && is_rank_char(m[1]) && is_file_char(m[2]) && is_rank_char(
        m[3],
    )
}

/// A move text accepted for play: two squares, plus at most one promotion
/// character.
pub open spec fn playable_move_text(m: Seq<char>) -> bool {
    m.len() == 4 || (m.len() == 5 && promo_char(m[4]))
}

/// A piece letter a pawn may promote to.
pub open spec fn promo_char(c: char) -> bool {
    c == 'q' || c == 'r' || c == 'b' || c == 'n'
}

/// Whether the move jumps two ranks, the shape of a double pawn advance.
pub open spec fn two_rank_jump(m: Seq<char>) -> bool {
    rank_of(m[1]) - rank_of(m[3]) == 2 || rank_of(m[3]) - rank_of(m[1]) == 2
}

/// The square a double pawn advance jumped over: the source file with the
/// rank between source and destination.
pub open spec fn ep_square_text(m: Seq<char>) -> Seq<char> {
    seq![m[0], digit_char((rank_of(m[1]) + rank_of(m[3])) / 2)]
}

/// Whether applying `mv` to `fen` moves a pawn two ranks.
pub open spec fn is_double_pawn_push(fen: Seq<char>, mv: Seq<char>) -> bool {
    piece_on_square(fen, mv.take(2)) == Some(PieceKind::Pawn) && two_rank_jump(mv)
}

/// A move text is legal at a position when it has the playable shape and the
/// move generator lists it.
pub open spec fn spec_is_legal(fen: Seq<char>, mv: Seq<char>) -> bool {
    playable_move_text(mv) && legal_move_list(fen).contains(mv)
}

/// What applying a legal move returns: the crate's serialization, with the
/// en-passant field rewritten to the skipped square after a double pawn
/// advance.
pub open spec fn spec_apply_move(fen: Seq<char>, mv: Seq<char>) -> Seq<char> {
    let raw = fen_after_move(fen, mv);
    if is_double_pawn_push(fen, mv) {
        join_spaces(split_spaces(raw).update(3, ep_square_text(mv)))
    } else {
        raw
    }
}

/// The terminal state of a position, with the winner named by the convention
/// above: the mated side's opponent wins.
pub open spec fn status_of_fen(fen: Seq<char>) -> TerminalState {
    match end_kind_of(fen) {
        EndKind::Ongoing => TerminalState::Ongoing,
        EndKind::Stalemate => TerminalState::Stalemate,
        EndKind::Checkmate => TerminalState::Checkmate(
            if white_to_move(fen) {
                Side::Black
            } else {
                Side::White
            },
        ),
    }
}

// ---------------------------------------------------------------------------
// Trusted wrappers around the `chess` crate.
// ---------------------------------------------------------------------------

/// Relies on `chess::Board::from_str`: it accepts a FEN text or reports an
/// error, and accepts exactly the texts it accepts every time it is asked.
#[verifier::external_body]
pub(crate) fn fen_ok(fen: &str) -> (b: bool)
    ensures
        b == fen_parses(fen@),
{
    <chess::Board as core::str::FromStr>::from_str(fen).is_ok()
}

/// Relies on `chess::Board::status`: zero legal moves means stalemate, or
/// checkmate when the side to move stands in check; otherwise the game goes
/// on.
#[verifier::external_body]
pub(crate) fn board_end_kind(fen: &str) -> (r: EndKind)
    requires
        fen_parses(fen@),
    ensures
        r == end_kind_of(fen@),
{
    let board = <chess::Board as core::str::FromStr>::from_str(fen).unwrap();
    match board.status() {
        chess::BoardStatus::Ongoing => EndKind::Ongoing,
        chess::BoardStatus::Checkmate => EndKind::Checkmate,
        chess::BoardStatus::Stalemate => EndKind::Stalemate,
    }
}

/// Relies on `chess::Board::side_to_move`.
#[verifier::external_body]
pub(crate) fn board_white_to_move(fen: &str) -> (b: bool)
    requires
        fen_parses(fen@),
    ensures
        b == white_to_move(fen@),
{
    let board = <chess::Board as core::str::FromStr>::from_str(fen).unwrap();
    board.side_to_move() == chess::Color::White
}

/// Relies on `chess::ChessMove::from_str` and `chess::Board::legal`: a move
/// is legal exactly when `MoveGen::new_legal` lists it, and for a text of
/// two squares plus at most one promotion letter the parsed move renders
/// back to the same text, so legality coincides with membership in the
/// rendered move list. A text the move parser rejects is never legal. When
/// the answer is yes, the parser has checked that the first four characters
/// name two squares.
#[verifier::external_body]
pub(crate) fn move_is_legal(fen: &str, mv: &str) -> (b: bool)
    requires
        fen_parses(fen@),
        playable_move_text(mv@),
    ensures
        b == legal_move_list(fen@).contains(mv@),
        b ==> coord_move_text(mv@),
{
    let board = <chess::Board as core::str::FromStr>::from_str(fen).unwrap();
    match <chess::ChessMove as core::str::FromStr>::from_str(mv) {
        Ok(m) => board.legal(m),
        Err(_) => false,
    }
}

/// Relies on `chess::MoveGen::new_legal` and `chess::ChessMove`'s rendering:
/// each legal move renders as its source square, its destination square and,
/// for a promotion, one trailing piece letter.
#[verifier::external_body]
pub(crate) fn legal_moves_text(fen: &str) -> (r: Vec<String>)
    requires
        fen_parses(fen@),
    ensures
        views_of(r@) == legal_move_list(fen@),
        forall|i: int|
            0 <= i < r@.len() ==> playable_move_text(#[trigger] r@[i]@) && coord_move_text(
                r@[i]@,
            ),
{
    let board = <chess::Board as core::str::FromStr>::from_str(fen).unwrap();
    chess::MoveGen::new_legal(&board).map(|m| m.to_string()).collect()
}

/// Relies on `chess::Board::make_move_new` and the FEN serialization of
/// `chess::BoardBuilder`: the output is six non-empty space-separated
/// fields; its fourth field is `-` unless the move was a double pawn
/// advance; the serialization of a reachable position parses again; and the
/// parser, which takes the en-passant field as a hint that it checks against
/// the board, also accepts the output when that field is replaced by the
/// square a double pawn advance jumped over.
#[verifier::external_body]
pub(crate) fn apply_move_text(fen: &str, mv: &str) -> (r: String)
    requires
        fen_parses(fen@),
        playable_move_text(mv@),
        legal_move_list(fen@).contains(mv@),
    ensures
        r@ == fen_after_move(fen@, mv@),
        fen_parses(r@),
        split_spaces(r@).len() == 6,
        forall|i: int| 0 <= i < 6 ==> (#[trigger] split_spaces(r@)[i]).len() >= 1,
        !is_double_pawn_push(fen@, mv@) ==> split_spaces(r@)[3] == seq!['-'],
        is_double_pawn_push(fen@, mv@) ==> fen_parses(
            join_spaces(split_spaces(r@).update(3, ep_square_text(mv@))),
        ),
{
    let board = <chess::Board as core::str::FromStr>::from_str(fen).unwrap();
    let m = <chess::ChessMove as core::str::FromStr>::from_str(mv).unwrap();
    board.make_move_new(m).to_string()
}

/// Relies on `chess::Board::piece_on` and `chess::Square::from_str`.
#[verifier::external_body]
pub(crate) fn piece_at_text(fen: &str, sq: &str) -> (r: Option<PieceKind>)
    requires
        fen_parses(fen@),
        valid_square_text(sq@),
    ensures
        r == piece_on_square(fen@, sq@),
{
    let board = <chess::Board as core::str::FromStr>::from_str(fen).unwrap();
    let square = <chess::Square as core::str::FromStr>::from_str(sq).unwrap();
    match board.piece_on(square) {
        None => None,
        Some(chess::Piece::Pawn) => Some(PieceKind::Pawn),
        Some(chess::Piece::Knight) => Some(PieceKind::Knight),
        Some(chess::Piece::Bishop) => Some(PieceKind::Bishop),
        Some(chess::Piece::Rook) => Some(PieceKind::Rook),
        Some(chess::Piece::Queen) => Some(PieceKind::Queen),
        Some(chess::Piece::King) => Some(PieceKind::King),
    }
}

} // verus!
