//! A verified game-state core for a two-player 3x3 board game.
//!
//! The library models the board, the turn state machine, move validation,
//! win and draw detection, and the notifications a match emits when its
//! state changes. Presentation concerns (rendering, input picking, timers)
//! are left to the host application; it feeds cell choices in through the
//! engine and renders the returned events.

pub mod board;
pub mod data;
pub mod engine;
pub mod laws;
