//! The four axis-aligned facings and their unit vectors.

use vstd::prelude::*;

verus! {

/// An axis-aligned facing. The player always has one; a projectile is
/// given one at creation and keeps it until despawn.
#[derive(Clone, Copy, Debug, PartialEq, Eq, Structural)]
pub enum Direction {
    Up,
    Down,
    Left,
    Right,
}

impl Direction {
    /// Horizontal component of the unit vector this facing maps to:
    /// `Left = -1`, `Right = 1`, otherwise `0`.
    pub open spec fn spec_dx(self) -> int {
        match self {
            Direction::Left => -1,
            Direction::Right => 1,
            _ => 0,
        }
    }

    /// Vertical component of the unit vector this facing maps to:
    /// `Up = 1`, `Down = -1`, otherwise `0`.
    pub open spec fn spec_dy(self) -> int {
        match self {
            Direction::Up => 1,
            Direction::Down => -1,
            _ => 0,
        }
    }

    /// Horizontal component of the unit vector, as a machine integer.
    pub fn dx(self) -> (r: i64)
        ensures
            r == self.spec_dx(),
    {
        match self {
            Direction::Left => -1,
            Direction::Right => 1,
            _ => 0,
        }
    }

    /// Vertical component of the unit vector, as a machine integer.
    pub fn dy(self) -> (r: i64)
        ensures
            r == self.spec_dy(),
    {
        match self {
            Direction::Up => 1,
            Direction::Down => -1,
            _ => 0,
        }
    }
}

} // verus!
