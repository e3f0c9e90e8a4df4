//! Depth-ordering of overlapping 2D sprites.
//!
//! Each depth-ordered entity carries an integer rank; every simulation tick
//! projects that rank onto the depth axis of the entity's spatial position,
//! and a discrete input trigger advances every rank in lockstep modulo a
//! fixed cycle length, rotating which sprite draws in front.

pub mod components;
pub mod laws;
pub mod scene;
pub mod session;
pub mod system;
pub mod world;

pub use components::Spatial;
pub use components::SpriteOrder;
pub use session::GameState;
pub use system::SpriteOrderSystem;
pub use world::ConfigError;
pub use world::World;
