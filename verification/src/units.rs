//! Fixed-point units and the tuning constants of the game.
//!
//! Distances are stored in micro-units: `SUBUNIT` micro-units make one
//! game unit. Time is measured in micro-seconds. A speed given in game
//! units per second is numerically the same in micro-units per
//! micro-second, so per-frame displacements are exact integer products.

use vstd::prelude::*;

verus! {

/// Micro-units per game unit (and micro-seconds per second).
pub const SUBUNIT: u64 = 1_000_000;

/// Player movement speed, in game units per second.
pub const PLAYER_SPEED: u64 = 300;

/// Side length of the player sprite, in game units.
pub const PLAYER_SIZE: u64 = 64;

/// Projectile speed, in game units per second.
pub const BULLET_SPEED: u64 = 600;

/// A projectile is despawned once its cumulative travel distance exceeds
/// this bound (350 game units), in micro-units.
pub const BULLET_MAX_TRAVEL: u64 = 350_000_000;

/// Period of the projectile animation timer (0.1 seconds), in
/// micro-seconds.
pub const ANIMATION_INTERVAL: u64 = 100_000;

/// Largest elapsed time a single update accepts, in micro-seconds
/// (1000 seconds). The bound keeps every per-frame product far from the
/// integer limits.
pub const MAX_DT: u64 = 1_000_000_000;

/// Coordinates handed to an update must lie within this bound, in
/// micro-units, so that one frame of movement cannot overflow an `i64`.
pub const POS_LIMIT: i64 = 9_000_000_000_000_000_000;

/// Numerator of the rational constant approximating `1 / sqrt(2)` from
/// below; used to scale diagonal movement so that it is never faster
/// than axis-aligned movement.
pub const DIAG_NUM: u64 = 707_106;

/// Denominator of the rational constant approximating `1 / sqrt(2)`.
pub const DIAG_DEN: u64 = 1_000_000;

} // verus!
