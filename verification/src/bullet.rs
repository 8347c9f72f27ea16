//! Projectiles: motion, travel accounting, expiry, and sprite animation.

use vstd::prelude::*;

use crate::direction::Direction;
use crate::units::{ANIMATION_INTERVAL, BULLET_MAX_TRAVEL, BULLET_SPEED, SUBUNIT};

verus! {

/// A repeating countdown driving the projectile's sprite animation:
/// `elapsed` micro-seconds have passed since the last completed
/// `ANIMATION_INTERVAL` period.
#[derive(Clone, Copy, Debug, PartialEq, Eq, Structural)]
pub struct AnimationTimer {
    pub elapsed: u64,
}

/// A projectile: a stable identifier, a position in micro-units, the
/// facing fixed at creation, the cyclic animation frame index, the
/// sprite frame currently shown, the cumulative travel distance in
/// micro-units, and the animation timer.
#[derive(Clone, Copy, Debug, PartialEq, Eq, Structural)]
pub struct Bullet {
    pub id: u64,
    pub x: i64,
    pub y: i64,
    pub direction: Direction,
    pub animation_index: u8,
    pub sprite_index: u8,
    pub travel_distance: u64,
    pub timer: AnimationTimer,
}

/// Travel distance added by one frame of length `dt`: a constant one
/// game unit plus the distance covered at `BULLET_SPEED`. The constant
/// offset is added every frame regardless of elapsed time.
pub open spec fn travel_step(dt: int) -> int {
    SUBUNIT + BULLET_SPEED * dt
}

/// Whether a cumulative travel distance is past the despawn bound
/// (strictly beyond `BULLET_MAX_TRAVEL`).
pub open spec fn expires(travel: int) -> bool {
    travel > BULLET_MAX_TRAVEL
}

/// The next animation frame index: 0, 1 and 2 in a cycle.
pub open spec fn next_frame(i: int) -> int {
    if i == 2 {
        0
    } else {
        i + 1
    }
}

/// Whether a timer completes at least one `ANIMATION_INTERVAL` period
/// during a frame of length `dt`.
pub open spec fn timer_completes(t: AnimationTimer, dt: int) -> bool {
    t.elapsed + dt >= ANIMATION_INTERVAL
}

/// How many `ANIMATION_INTERVAL` periods a timer completes during a
/// frame of length `dt`. A long frame can complete several.
pub open spec fn completed_periods(t: AnimationTimer, dt: int) -> int {
    (t.elapsed + dt) / (ANIMATION_INTERVAL as int)
}

/// The frame index after advancing `n` steps of the three-frame cycle
/// from index `i`: one step per completed animation period.
pub open spec fn frame_after(i: int, n: int) -> int {
    (i + n) % 3
}

/// A projectile as just created: travel distance zero, animation frame
/// index zero, a fresh timer, and the sprite initially showing frame 1.
/// The one-frame mismatch between the shown sprite frame and the
/// tracked index is kept as designed: the first completed animation
/// period overwrites the sprite with the tracked index.
pub open spec fn spawned_bullet(x: i64, y: i64, d: Direction, id: u64) -> Bullet {
    Bullet {
        id: id,
        x: x,
        y: y,
        direction: d,
        animation_index: 0,
        sprite_index: 1,
        travel_distance: 0,
        timer: AnimationTimer { elapsed: 0 },
    }
}

/// A projectile after one frame of motion: the position advances by
/// `BULLET_SPEED * dt` along the unit vector of its fixed facing, and
/// the travel distance grows by [`travel_step`]. Nothing else changes.
pub open spec fn bullet_after_motion(b: Bullet, dt: int) -> Bullet {
    Bullet {
        x: (b.x + b.direction.spec_dx() * (BULLET_SPEED * dt)) as i64,
        y: (b.y + b.direction.spec_dy() * (BULLET_SPEED * dt)) as i64,
        travel_distance: (b.travel_distance + travel_step(dt)) as u64,
        ..b
    }
}

/// A projectile after one frame of animation: the timer advances by
/// `dt` and wraps modulo its repeating period; the frame index
/// advances one step of the 0, 1, 2 cycle for each period the frame
/// completed, and when at least one completed, the shown sprite frame
/// is set to the new index. Motion fields are untouched.
pub open spec fn bullet_after_animation(b: Bullet, dt: int) -> Bullet {
    let e = b.timer.elapsed + dt;
    let n = e / (ANIMATION_INTERVAL as int);
    if n >= 1 {
        Bullet {
            animation_index: frame_after(b.animation_index as int, n) as u8,
            sprite_index: frame_after(b.animation_index as int, n) as u8,
            timer: AnimationTimer { elapsed: (e % (ANIMATION_INTERVAL as int)) as u64 },
            ..b
        }
    } else {
        Bullet { timer: AnimationTimer { elapsed: e as u64 }, ..b }
    }
}

/// Well-formedness of a projectile: the frame index and the shown
/// sprite frame lie in the three-frame cycle and the timer holds less
/// than one full period.
pub open spec fn bullet_wf(b: Bullet) -> bool {
    &&& b.animation_index <= 2
    &&& b.sprite_index <= 2
    &&& b.timer.elapsed < ANIMATION_INTERVAL
}

/// One frame's travel increment is strictly positive — at least one
/// game unit — for every nonnegative elapsed time, so a live
/// projectile's travel distance strictly increases every frame.
pub proof fn lemma_travel_step_positive(dt: int)
    requires
        0 <= dt,
    ensures
        travel_step(dt) >= SUBUNIT,
        travel_step(dt) > 0,
{
}

/// The frame index cycle: starting inside {0, 1, 2} it stays inside,
/// and it advances 0 to 1, 1 to 2, 2 back to 0.
pub proof fn lemma_frame_cycle(i: int)
    requires
        0 <= i <= 2,
    ensures
        0 <= next_frame(i) <= 2,
        next_frame(0) == 1,
        next_frame(1) == 2,
        next_frame(2) == 0,
{
}

/// Each completed animation period advances the frame index exactly
/// one step of the cycle: advancing by `n + 1` periods is one
/// [`next_frame`] step past advancing by `n`.
pub proof fn lemma_frame_advances_once_per_period(i: int, n: int)
    requires
        0 <= i,
        0 <= n,
    ensures
        frame_after(i, 0) == i % 3,
        frame_after(i, n + 1) == next_frame(frame_after(i, n)),
{
    vstd::arithmetic::div_mod::lemma_add_mod_noop(i + n, 1, 3);
    vstd::arithmetic::div_mod::lemma_mod_bound(i + n, 3);
}

/// A frame of animation advances the frame index exactly once per
/// period the timer completed during the frame — zero or several — and
/// leaves everything but the timer unchanged when none completed;
/// well-formedness is preserved.
pub proof fn lemma_animation_advances(b: Bullet, dt: int)
    requires
        bullet_wf(b),
        0 <= dt,
    ensures
        bullet_after_animation(b, dt).animation_index == frame_after(
            b.animation_index as int,
            completed_periods(b.timer, dt),
        ),
        timer_completes(b.timer, dt) <==> completed_periods(b.timer, dt) >= 1,
        timer_completes(b.timer, dt) ==> bullet_after_animation(b, dt).sprite_index
            == bullet_after_animation(b, dt).animation_index,
        !timer_completes(b.timer, dt) ==> bullet_after_animation(b, dt) == (Bullet {
            timer: AnimationTimer { elapsed: (b.timer.elapsed + dt) as u64 },
            ..b
        }),
        bullet_wf(bullet_after_animation(b, dt)),
{
    let e = b.timer.elapsed + dt;
    let n = e / (ANIMATION_INTERVAL as int);
    if n >= 1 {
        vstd::arithmetic::div_mod::lemma_mod_bound(b.animation_index + n, 3);
        vstd::arithmetic::div_mod::lemma_mod_bound(e, ANIMATION_INTERVAL as int);
    } else {
        vstd::arithmetic::div_mod::lemma_small_mod(b.animation_index as nat, 3);
    }
}

/// A projectile's facing is unchanged by motion and by animation: once
/// set at creation it is identical on every subsequent frame.
pub proof fn lemma_facing_immutable(b: Bullet, dt: int)
    ensures
        bullet_after_motion(b, dt).direction == b.direction,
        bullet_after_animation(b, dt).direction == b.direction,
        bullet_after_motion(b, dt).id == b.id,
        bullet_after_animation(b, dt).id == b.id,
{
}

/// A projectile created at travel distance zero and stepped with a
/// fixed elapsed time `dt` has travel `k * travel_step(dt)` after `k`
/// frames; if `n` is the first frame count whose cumulative travel
/// passes the bound, the projectile is not expired after any earlier
/// frame and expired after frame `n` — it is destroyed exactly on that
/// frame.
pub proof fn lemma_first_expiry(dt: int, n: int)
    requires
        0 <= dt,
        1 <= n,
        (n - 1) * travel_step(dt) <= BULLET_MAX_TRAVEL,
        n * travel_step(dt) > BULLET_MAX_TRAVEL,
    ensures
        forall|k: int| 0 <= k < n ==> !expires(#[trigger] (k * travel_step(dt))),
        expires(n * travel_step(dt)),
{
    let s = travel_step(dt);
    assert forall|k: int| 0 <= k < n implies !expires(#[trigger] (k * s)) by {
        vstd::arithmetic::mul::lemma_mul_inequality(k, n - 1, s);
    }
}

} // verus!
