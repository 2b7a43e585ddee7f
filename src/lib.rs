//! Simulation core of a top-down arcade survival game: a ship facing one of
//! four directions turns to block hazards that approach from the four sides.

pub mod direction;
pub mod hazard;
pub mod satellite;
mod random;
pub mod spawner;
pub mod ledger;
pub mod game;
