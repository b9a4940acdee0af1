//! Simulation core of a top-down action game: status effects, weapons,
//! enemies, projectiles and the per-frame tick that composes them.
mod dice;
pub mod geometry;
pub mod status;
pub mod enemy;
pub mod projectile;
pub mod weapon;
pub mod player;
pub mod game_state;
pub mod laws;
pub mod pickups;
