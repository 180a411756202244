//! A falling-block puzzle engine, specified and verified.
//!
//! - `piece`, `pieces`: piece definitions and the catalog of the seven
//!   standard pieces.
//! - `bag_manager`: the seven-bag randomizer.
//! - `grid`: the playfield, with collision, placement and line clearing.
//! - `gravity`: level progression, fall intervals and scoring.
//! - `rules`: the rules of play as functions on the state of a game.
//! - `game_state`: the state machine that plays by these rules.
//! - `clock`: the wall clock in ticks.
//! - `menu`, `high_score_manager`, `text`, `utils`: what surrounds a game.

pub mod bag_manager;
pub mod block;
pub mod clock;
pub mod game_state;
pub mod gravity;
pub mod grid;
pub mod high_score_manager;
pub mod menu;
pub mod piece;
pub mod pieces;
pub mod rules;
pub mod text;
pub mod utils;
