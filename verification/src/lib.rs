//! Rules of a small nuclear-reactor operator game: the game-state machine,
//! the turbine economy, purchases, warnings, the tutorial script and the
//! text shown on the gauges, all over fixed-point integer quantities.
pub mod game_state;
pub mod text;
pub mod simulation;
pub mod refuel_animation;
pub mod uranek;
pub mod tutorial;
pub mod gauges;
pub mod display;
pub mod audio;
pub mod buttons;
pub mod scene;
mod random;
