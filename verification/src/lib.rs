//! A small grid-movement game engine: a single entity moves across a
//! bounded, toroidally wrapping square grid one cell per tick, grows when it
//! reaches a target cell, and shrinks back to a baseline length when it runs
//! into its own trail.
//!
//! The engine is time-gated: callers feed elapsed milliseconds into
//! [`do_game_move`], and a movement fires once the accumulated time reaches
//! the tick threshold. A driver that paces its own calls simply passes at
//! least the threshold each call.

pub mod game;
pub mod grid;

pub use game::do_game_move;
pub use game::Game;
pub use game::BASELINE_CAPACITY;
pub use game::TICK_THRESHOLD_MS;
pub use grid::get_next_loc;
pub use grid::Direction;
pub use grid::Location;
