//! Rules engine of a falling-block puzzle game: the playing field, the
//! active piece, piece generation, movement and rotation legality, line
//! clearing, scoring, and the hold mechanic. Rendering and input belong to
//! the host application, which drives the engine through `Tetris`.

pub mod bag;
pub mod board;
pub mod menu;
pub mod tetris;
pub mod tetromino;
pub mod tetromino_type;
