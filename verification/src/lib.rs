//! Verified game logic of Le Word, a five-letter word puzzle with a daily
//! board and a replay board.

pub mod score;
pub mod text;
pub mod board;
pub mod state;
pub mod laws;
