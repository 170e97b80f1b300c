//! Game rules of a small space shooter: the screen flow between game states,
//! the typewriter story screens, wave and checkpoint progress, ship input,
//! shot bookkeeping, laser damage, scoring and the star field layout.

pub mod state;
pub mod screens;
pub mod waves;
pub mod story;
pub mod enemy;
pub mod ship;
pub mod score;
pub mod stars;
