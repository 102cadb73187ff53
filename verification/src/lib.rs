//! A turn-based chess backend core: rules checks and move application on
//! FEN-encoded positions through the `chess` crate, a difficulty policy that
//! deliberately weakens an external engine's choice, and the move-exchange
//! pipeline that drives a persisted game from one submitted move to one
//! consistent result.

pub mod chess_service;
pub mod errors;
pub mod game_service;
pub mod models;
pub mod rules;
pub mod stats_service;
pub mod stockfish_service;
pub mod text;
pub mod user_service;
