//! The error taxonomy of the move-processing pipeline.

use vstd::prelude::*;

verus! {

/// Everything that can go wrong while a move exchange is processed.
#[derive(Clone, Copy, PartialEq, Eq, Structural, Debug)]
pub enum MoveError {
    /// The encoded position could not be parsed.
    InvalidPosition,
    /// The submitted move is malformed or fails the legality check.
    IllegalMove,
    /// A move was submitted for a game that is no longer active.
    GameAlreadyFinished,
    /// The engine could not be reached and the random fallback failed too.
    EngineUnavailable,
    /// A storage collaborator reported a failure.
    PersistenceError,
}

impl MoveError {
    /// A short text for callers that surface the error to users.
    pub fn message(self) -> (r: &'static str)
        ensures
            self is InvalidPosition ==> r@ == "invalid position"@,
            self is IllegalMove ==> r@ == "illegal move"@,
            self is GameAlreadyFinished ==> r@ == "game is not active"@,
            self is EngineUnavailable ==> r@ == "engine unavailable"@,
            self is PersistenceError ==> r@ == "persistence error"@,
    {
        match self {
            MoveError::InvalidPosition => "invalid position",
            MoveError::IllegalMove => "illegal move",
            MoveError::GameAlreadyFinished => "game is not active",
            MoveError::EngineUnavailable => "engine unavailable",
            MoveError::PersistenceError => "persistence error",
        }
    }
}

} // verus!
