//! Core gameplay rules of a minimal top-down 2D shooter: a player sprite
//! moves on four axes, fires directional projectiles, and projectiles
//! animate and despawn after a travel limit.
//!
//! All quantities are integers in a fixed-point encoding so that every
//! update rule is exact: distances are stored in micro-units (one game
//! unit is `SUBUNIT` micro-units) and elapsed time in micro-seconds.
//! Speeds in game units per second then equal micro-units per
//! micro-second, so a displacement is a plain product `speed * dt`.
//!
//! The crate is a pure state-transition library: an embedding program owns
//! the window, input polling and rendering, and drives [`world::World::tick`]
//! once per frame with the polled key state and the frame's elapsed time.

pub mod units;
pub mod direction;
pub mod player;
pub mod bullet;
pub mod world;
