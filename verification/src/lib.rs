//! Two-player, turn-based tactical combat on a toroidal grid.
//!
//! The crate is organised around the battle simulation core: toroidal
//! position and direction arithmetic, a dense board index, unit and
//! projectile state, the spell catalog with its targeting predicates,
//! and the orchestrator that validates moves against a depth-bounded
//! reachability computation.

pub mod battle;
pub mod board;
pub mod controller;
pub mod effects;
pub mod errors;
pub mod helper;
pub mod message;
pub mod model;
pub mod position;
pub mod projectile;
pub mod spell;
pub mod targeting;
pub mod wizard;
