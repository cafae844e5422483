//! Rules of small arcade games on an integer plane.
//!
//! - [`geometry`]: axis-aligned rectangles, velocities and their overlap.
//! - [`collision`]: resolving a moving rectangle against a resting one.
//! - [`arkanoid`]: paddle, ball and bricks, and the frame of a brick-breaking
//!   game built on the two modules above.
//! - [`snake`]: the snake on its grid, the award, and the frame of the game.
//! - [`tictactoe`]: the board, the moves and the verdict.
//! - [`highscore`]: the best score, read from text and kept up to date.
//!
//! Every function states what it returns and changes over a mathematical
//! model of its arguments. Drawing, keys and files are left to the caller.

pub mod arkanoid;
pub mod collision;
pub mod geometry;
pub mod highscore;
mod random;
pub mod snake;
pub mod tictactoe;
