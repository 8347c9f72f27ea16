//! The player entity and the movement rules applied to it each frame.

use vstd::prelude::*;

use crate::direction::Direction;
use crate::units::{DIAG_DEN, DIAG_NUM, MAX_DT, PLAYER_SPEED, POS_LIMIT};

verus! {

/// The directional and fire keys as polled for one frame. Each flag is
/// true while the key (or its alternate binding) is held.
#[derive(Clone, Copy, Debug, PartialEq, Eq, Structural)]
pub struct InputState {
    pub left: bool,
    pub right: bool,
    pub up: bool,
    pub down: bool,
    pub fire: bool,
}

/// The player: a position in micro-units and the facing the next shot
/// will use.
#[derive(Clone, Copy, Debug, PartialEq, Eq, Structural)]
pub struct Player {
    pub x: i64,
    pub y: i64,
    pub direction: Direction,
}

/// The facing after one frame of input: the held directions are tested
/// in the fixed order Left, Right, Up, Down, and each held one
/// overwrites the facing, so the last-tested held direction wins; with
/// no direction held the facing is unchanged.
pub open spec fn facing_after(d: Direction, input: InputState) -> Direction {
    if input.down {
        Direction::Down
    } else if input.up {
        Direction::Up
    } else if input.right {
        Direction::Right
    } else if input.left {
        Direction::Left
    } else {
        d
    }
}

/// Sum of the unit contributions of two opposing held keys: -1, 0 or 1.
pub open spec fn axis_sum(neg: bool, pos: bool) -> int {
    (if pos { 1int } else { 0int }) - (if neg { 1int } else { 0int })
}

/// A movement magnitude scaled for diagonal motion: `m` multiplied by
/// the rational approximation of `1 / sqrt(2)`, rounded toward zero.
pub open spec fn diag_scaled(m: int) -> int {
    (m * DIAG_NUM) / (DIAG_DEN as int)
}

/// Horizontal movement of the player in one frame of length `dt`, in
/// micro-units: zero when the horizontal key sum cancels, the full
/// `PLAYER_SPEED * dt` when only the horizontal axis is active, and the
/// diagonally scaled magnitude when both axes are active.
pub open spec fn move_dx(input: InputState, dt: int) -> int {
    let sx = axis_sum(input.left, input.right);
    let sy = axis_sum(input.down, input.up);
    if sx == 0 {
        0
    } else if sy == 0 {
        sx * (PLAYER_SPEED * dt)
    } else {
        sx * diag_scaled(PLAYER_SPEED * dt)
    }
}

/// Vertical movement of the player in one frame of length `dt`, in
/// micro-units; symmetric to [`move_dx`].
pub open spec fn move_dy(input: InputState, dt: int) -> int {
    let sx = axis_sum(input.left, input.right);
    let sy = axis_sum(input.down, input.up);
    if sy == 0 {
        0
    } else if sx == 0 {
        sy * (PLAYER_SPEED * dt)
    } else {
        sy * diag_scaled(PLAYER_SPEED * dt)
    }
}

/// The player after one frame: facing per [`facing_after`], position
/// shifted by the frame's movement vector.
pub open spec fn player_after(p: Player, input: InputState, dt: int) -> Player {
    Player {
        x: (p.x + move_dx(input, dt)) as i64,
        y: (p.y + move_dy(input, dt)) as i64,
        direction: facing_after(p.direction, input),
    }
}

impl Player {
    /// Applies one frame of input: updates the facing, then moves the
    /// position by the normalized movement vector scaled by
    /// `PLAYER_SPEED * dt`.
    pub fn update(&mut self, input: &InputState, dt: u64)
        requires
            dt <= MAX_DT,
            -POS_LIMIT <= old(self).x <= POS_LIMIT,
            -POS_LIMIT <= old(self).y <= POS_LIMIT,
        ensures
            *final(self) == player_after(*old(self), *input, dt as int),
            final(self).x == old(self).x + move_dx(*input, dt as int),
            final(self).y == old(self).y + move_dy(*input, dt as int),
    {
        let mut sx: i64 = 0;
        let mut sy: i64 = 0;
        if input.left {
            sx = sx - 1;
            self.direction = Direction::Left;
        }
        if input.right {
            sx = sx + 1;
            self.direction = Direction::Right;
        }
        if input.up {
            sy = sy + 1;
            self.direction = Direction::Up;
        }
        if input.down {
            sy = sy - 1;
            self.direction = Direction::Down;
        }
        let m: u64 = PLAYER_SPEED * dt;
        if sx != 0 || sy != 0 {
            let step: i64 = if sx != 0 && sy != 0 {
                ((m * DIAG_NUM) / DIAG_DEN) as i64
            } else {
                m as i64
            };
            proof {
                lemma_diag_scaled_bounds(m as int);
            }
            if sx == 1 {
                self.x = self.x + step;
            } else if sx == -1 {
                self.x = self.x - step;
            }
            if sy == 1 {
                self.y = self.y + step;
            } else if sy == -1 {
                self.y = self.y - step;
            }
        }
    }
}

/// The diagonally scaled magnitude is nonnegative and no larger than
/// the magnitude itself.
pub proof fn lemma_diag_scaled_bounds(m: int)
    requires
        0 <= m,
    ensures
        0 <= diag_scaled(m) <= m,
{
    assert(0 <= (m * DIAG_NUM) / (DIAG_DEN as int) <= m) by (nonlinear_arith)
        requires
            0 <= m,
    ;
}

/// Twice the square of the diagonally scaled magnitude stays within the
/// square of the magnitude: the scale factor approximates `1 / sqrt(2)`
/// from below, so diagonal motion is never faster than axis-aligned
/// motion.
pub proof fn lemma_diag_scaled_square(m: int)
    requires
        0 <= m,
    ensures
        2 * diag_scaled(m) * diag_scaled(m) <= m * m,
{
    let q = diag_scaled(m);
    assert(0 <= q && q * (DIAG_DEN as int) <= m * (DIAG_NUM as int)) by (nonlinear_arith)
        requires
            0 <= m,
            q == (m * DIAG_NUM) / (DIAG_DEN as int),
    ;
    assert(2 * q * q <= m * m) by (nonlinear_arith)
        requires
            0 <= q,
            0 <= m,
            q * (DIAG_DEN as int) <= m * (DIAG_NUM as int),
    ;
}

/// For every elapsed time and every combination of held direction keys,
/// one frame moves the player by a vector whose squared magnitude is at
/// most `(PLAYER_SPEED * dt)` squared; the bound is met exactly when
/// exactly one axis is active, and the movement is zero when no
/// direction key is held.
pub proof fn lemma_player_speed_bound(input: InputState, dt: int)
    requires
        0 <= dt,
    ensures
        move_dx(input, dt) * move_dx(input, dt) + move_dy(input, dt) * move_dy(input, dt) <= (
        PLAYER_SPEED * dt) * (PLAYER_SPEED * dt),
        axis_sum(input.left, input.right) != 0 && axis_sum(input.down, input.up) == 0 ==> move_dx(
            input,
            dt,
        ) * move_dx(input, dt) + move_dy(input, dt) * move_dy(input, dt) == (PLAYER_SPEED * dt) * (
        PLAYER_SPEED * dt),
        axis_sum(input.left, input.right) == 0 && axis_sum(input.down, input.up) != 0 ==> move_dx(
            input,
            dt,
        ) * move_dx(input, dt) + move_dy(input, dt) * move_dy(input, dt) == (PLAYER_SPEED * dt) * (
        PLAYER_SPEED * dt),
        !input.left && !input.right && !input.up && !input.down ==> move_dx(input, dt) == 0
            && move_dy(input, dt) == 0,
{
    let sx = axis_sum(input.left, input.right);
    let sy = axis_sum(input.down, input.up);
    let m = PLAYER_SPEED * dt;
    let q = diag_scaled(m);
    lemma_diag_scaled_bounds(m);
    lemma_diag_scaled_square(m);
    assert(sx == -1 || sx == 0 || sx == 1);
    assert(sy == -1 || sy == 0 || sy == 1);
    if sx == 0 && sy == 0 {
        assert(move_dx(input, dt) == 0 && move_dy(input, dt) == 0);
        assert(0 <= m * m) by (nonlinear_arith)
            requires
                0 <= m,
        ;
    } else if sy == 0 {
        assert(move_dx(input, dt) == sx * m && move_dy(input, dt) == 0);
        assert((sx * m) * (sx * m) == m * m) by (nonlinear_arith)
            requires
                sx == -1 || sx == 1,
        ;
    } else if sx == 0 {
        assert(move_dy(input, dt) == sy * m && move_dx(input, dt) == 0);
        assert((sy * m) * (sy * m) == m * m) by (nonlinear_arith)
            requires
                sy == -1 || sy == 1,
        ;
    } else {
        assert(move_dx(input, dt) == sx * q && move_dy(input, dt) == sy * q);
        assert((sx * q) * (sx * q) == q * q && (sy * q) * (sy * q) == q * q) by (nonlinear_arith)
            requires
                sx == -1 || sx == 1,
                sy == -1 || sy == 1,
        ;
        assert(q * q + q * q == 2 * q * q) by (nonlinear_arith);
    }
}

} // verus!
