//! Simulation core of a tick-driven resource economy.
//!
//! Players own workers that gather raw resources; resources pay for the
//! production of further workers and are sold on a market whose prices drift
//! after every sale. All time is counted in ticks.

pub mod resource;
pub mod production;
pub mod player;
pub mod sell;
pub mod game_state;
pub mod input;
pub mod visualization;
pub mod client;
