//! Frame-by-frame move logic of two fighters: the decisions that the game
//! asks of a fighter each frame and at each of its status scripts, taken
//! from plain observations of the fighter and answered with the requests
//! that the game is to carry out, in order.
pub mod common;
pub mod dolly;
pub mod samus;
pub mod samus_status;
