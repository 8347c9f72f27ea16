//! The entity store and the four per-frame update passes.
//!
//! A [`World`] owns the single player and every live projectile. An
//! embedding program drives [`World::tick`] once per rendered frame
//! with the polled key state and the frame's elapsed time; the tick
//! runs the player pass, the motion pass, the expiry sweep and the
//! animation pass, in that fixed order.

use vstd::prelude::*;

use crate::bullet::{
    bullet_after_animation, bullet_after_motion, bullet_wf, expires, spawned_bullet,
    AnimationTimer, Bullet,
};
use crate::direction::Direction;
use crate::player::{facing_after, player_after, InputState, Player};
use crate::units::{
    ANIMATION_INTERVAL, BULLET_MAX_TRAVEL, BULLET_SPEED, MAX_DT, POS_LIMIT, SUBUNIT,
};

verus! {

/// The entity store: exactly one player, the live projectiles in
/// creation order, and the identifier the next projectile will receive.
pub struct World {
    pub player: Player,
    pub bullets: Vec<Bullet>,
    pub next_id: u64,
}

/// The projectile store right after the player pass of one frame: the
/// old store, plus — if the fire key is held — one projectile spawned
/// at the player's pre-movement position with the frame's updated
/// facing and the next free identifier.
pub open spec fn bullets_after_player_pass(w: World, input: InputState) -> Seq<Bullet> {
    if input.fire {
        w.bullets@.push(
            spawned_bullet(w.player.x, w.player.y, facing_after(w.player.direction, input), w.next_id),
        )
    } else {
        w.bullets@
    }
}

/// The projectile store at the end of one full frame: the store after
/// the player pass, with every projectile moved one frame, the expired
/// ones removed, and the survivors animated one frame. A projectile
/// fired this frame is included in this frame's later passes.
pub open spec fn tick_bullets(w: World, input: InputState, dt: int) -> Seq<Bullet> {
    remove_expired(
        bullets_after_player_pass(w, input).map_values(|b: Bullet| bullet_after_motion(b, dt)),
    ).map_values(|b: Bullet| bullet_after_animation(b, dt))
}

/// Facing is immutable across a whole frame: every projectile alive at
/// the end of a frame entered the frame's sweep passes — as a survivor
/// of the previous frame or as this frame's spawn — with the same
/// identifier and the same facing; no pass rewrites a facing.
pub proof fn lemma_tick_facing_immutable(w: World, input: InputState, dt: int)
    ensures
        forall|j: int|
            0 <= j < tick_bullets(w, input, dt).len() ==> exists|i: int|
                0 <= i < bullets_after_player_pass(w, input).len() && (
                #[trigger] tick_bullets(w, input, dt)[j]).id == bullets_after_player_pass(
                    w,
                    input,
                )[i].id && tick_bullets(w, input, dt)[j].direction == bullets_after_player_pass(
                    w,
                    input,
                )[i].direction,
{
    let bap = bullets_after_player_pass(w, input);
    let moved = bap.map_values(|b: Bullet| bullet_after_motion(b, dt));
    let surv = remove_expired(moved);
    lemma_remove_expired_props(moved);
    assert forall|j: int| 0 <= j < tick_bullets(w, input, dt).len() implies exists|i: int|
        0 <= i < bap.len() && (#[trigger] tick_bullets(w, input, dt)[j]).id == bap[i].id
            && tick_bullets(w, input, dt)[j].direction == bap[i].direction by {
        assert(tick_bullets(w, input, dt)[j] == bullet_after_animation(surv[j], dt));
        assert(moved.contains(surv[j]));
        let k = choose|k: int| 0 <= k < moved.len() && moved[k] == surv[j];
        assert(moved[k] == bullet_after_motion(bap[k], dt));
        assert(0 <= k < bap.len() && tick_bullets(w, input, dt)[j].id == bap[k].id && tick_bullets(
            w,
            input,
            dt,
        )[j].direction == bap[k].direction);
    }
}

/// The live projectiles of `s` with the expired ones removed, in their
/// original order.
pub open spec fn remove_expired(s: Seq<Bullet>) -> Seq<Bullet>
    decreases s.len(),
{
    if s.len() == 0 {
        Seq::empty()
    } else if expires(s[0].travel_distance as int) {
        remove_expired(s.drop_first())
    } else {
        seq![s[0]] + remove_expired(s.drop_first())
    }
}

/// Every projectile kept by [`remove_expired`] is one of the input
/// projectiles and is not expired, and every input projectile that is
/// not expired is kept.
pub proof fn lemma_remove_expired_props(s: Seq<Bullet>)
    ensures
        forall|j: int|
            0 <= j < remove_expired(s).len() ==> s.contains(#[trigger] remove_expired(s)[j]),
        forall|j: int|
            0 <= j < remove_expired(s).len() ==> !expires(
                (#[trigger] remove_expired(s)[j]).travel_distance as int,
            ),
        forall|i: int|
            0 <= i < s.len() && !expires((#[trigger] s[i]).travel_distance as int)
                ==> remove_expired(s).contains(s[i]),
    decreases s.len(),
{
    if s.len() == 0 {
    } else {
        let rest = s.drop_first();
        lemma_remove_expired_props(rest);
        assert forall|i: int|
            0 <= i < s.len() && !expires((#[trigger] s[i]).travel_distance as int)
                implies remove_expired(s).contains(s[i]) by {
            if i == 0 {
                assert(remove_expired(s)[0] == s[0]);
            } else {
                assert(rest[i - 1] == s[i]);
                assert(rest.contains(s[i]));
                let j = choose|j: int| 0 <= j < remove_expired(rest).len() && remove_expired(rest)[j] == s[i];
                if expires(s[0].travel_distance as int) {
                    assert(remove_expired(s)[j] == s[i]);
                } else {
                    assert(remove_expired(s)[j + 1] == s[i]);
                }
            }
        }
        assert forall|j: int|
            0 <= j < remove_expired(s).len() implies s.contains(#[trigger] remove_expired(s)[j])
                && !expires(remove_expired(s)[j].travel_distance as int) by {
            if expires(s[0].travel_distance as int) {
                assert(remove_expired(s)[j] == remove_expired(rest)[j]);
                assert(rest.contains(remove_expired(rest)[j]));
                let i = choose|i: int| 0 <= i < rest.len() && rest[i] == remove_expired(s)[j];
                assert(s[i + 1] == rest[i]);
            } else {
                if j == 0 {
                    assert(remove_expired(s)[0] == s[0]);
                } else {
                    assert(remove_expired(s)[j] == remove_expired(rest)[j - 1]);
                    assert(rest.contains(remove_expired(rest)[j - 1]));
                    let i = choose|i: int| 0 <= i < rest.len() && rest[i] == remove_expired(s)[j];
                    assert(s[i + 1] == rest[i]);
                }
            }
        }
    }
}

impl World {
    /// Well-formedness: every live projectile is well formed and has an
    /// identifier below the next one to be handed out.
    pub open spec fn wf(self) -> bool {
        &&& forall|i: int| 0 <= i < self.bullets@.len() ==> bullet_wf(#[trigger] self.bullets@[i])
        &&& forall|i: int|
            0 <= i < self.bullets@.len() ==> (#[trigger] self.bullets@[i]).id < self.next_id
    }

    /// Every live projectile's travel distance is within the despawn
    /// bound; holds at every tick boundary, because the expiry sweep
    /// removed the ones beyond it.
    pub open spec fn travel_within(self) -> bool {
        forall|i: int|
            0 <= i < self.bullets@.len() ==> !expires(
                (#[trigger] self.bullets@[i]).travel_distance as int,
            )
    }

    /// Every projectile coordinate is within `POS_LIMIT`, so that one
    /// frame of motion cannot overflow.
    pub open spec fn bullets_in_bounds(self) -> bool {
        forall|i: int|
            0 <= i < self.bullets@.len() ==> -POS_LIMIT <= (#[trigger] self.bullets@[i]).x
                <= POS_LIMIT && -POS_LIMIT <= self.bullets@[i].y <= POS_LIMIT
    }

    /// Every coordinate in the store is within `POS_LIMIT`, so that one
    /// frame of movement cannot overflow.
    pub open spec fn in_bounds(self) -> bool {
        &&& -POS_LIMIT <= self.player.x <= POS_LIMIT
        &&& -POS_LIMIT <= self.player.y <= POS_LIMIT
        &&& self.bullets_in_bounds()
    }

    /// Creates the store at startup: the player at the given position
    /// facing up, no projectiles.
    pub fn new(x: i64, y: i64) -> (w: World)
        ensures
            w.player == (Player { x: x, y: y, direction: Direction::Up }),
            w.bullets@.len() == 0,
            w.next_id == 0,
            w.wf(),
            w.travel_within(),
    {
        World {
            player: Player { x: x, y: y, direction: Direction::Up },
            bullets: Vec::new(),
            next_id: 0,
        }
    }

    /// Creates a projectile at the given position with the given fixed
    /// facing and appends it to the store. The new projectile starts at
    /// travel distance zero with a fresh animation timer.
    pub fn shoot(&mut self, x: i64, y: i64, direction: Direction)
        requires
            old(self).next_id < u64::MAX,
        ensures
            final(self).player == old(self).player,
            final(self).bullets@ == old(self).bullets@.push(
                spawned_bullet(x, y, direction, old(self).next_id),
            ),
            final(self).next_id == old(self).next_id + 1,
            old(self).wf() ==> final(self).wf(),
            old(self).travel_within() ==> final(self).travel_within(),
    {
        let b = Bullet {
            id: self.next_id,
            x: x,
            y: y,
            direction: direction,
            animation_index: 0,
            sprite_index: 1,
            travel_distance: 0,
            timer: AnimationTimer { elapsed: 0 },
        };
        self.bullets.push(b);
        self.next_id = self.next_id + 1;
    }

    /// The player pass: the held direction keys set the facing and
    /// accumulate a movement vector; if the fire key is held, a
    /// projectile is created at the player's pre-movement position with
    /// the updated facing (one per frame the key is held — there is no
    /// cooldown); finally the movement vector, normalized so diagonal
    /// motion is no faster than axis-aligned motion, moves the player
    /// by `PLAYER_SPEED * dt`.
    pub fn handle_player_movement(&mut self, input: &InputState, dt: u64)
        requires
            dt <= MAX_DT,
            -POS_LIMIT <= old(self).player.x <= POS_LIMIT,
            -POS_LIMIT <= old(self).player.y <= POS_LIMIT,
            old(self).next_id < u64::MAX,
        ensures
            final(self).player == player_after(old(self).player, *input, dt as int),
            input.fire ==> final(self).bullets@ == old(self).bullets@.push(
                spawned_bullet(
                    old(self).player.x,
                    old(self).player.y,
                    facing_after(old(self).player.direction, *input),
                    old(self).next_id,
                ),
            ) && final(self).next_id == old(self).next_id + 1,
            !input.fire ==> final(self).bullets@ == old(self).bullets@ && final(self).next_id == old(
                self,
            ).next_id,
            old(self).wf() ==> final(self).wf(),
            old(self).travel_within() ==> final(self).travel_within(),
    {
        let mut p = self.player;
        p.update(input, dt);
        self.player.direction = p.direction;
        if input.fire {
            let px = self.player.x;
            let py = self.player.y;
            let d = self.player.direction;
            self.shoot(px, py, d);
        }
        self.player = p;
    }

    /// The motion pass: every live projectile advances by
    /// `BULLET_SPEED * dt` along its fixed facing, and its travel
    /// distance grows by one game unit plus the distance covered —
    /// strictly more than before, every frame. Projectiles are
    /// independent: each is updated from its own state alone.
    #[verifier::loop_isolation(false)]
    pub fn update_bullets(&mut self, dt: u64)
        requires
            dt <= MAX_DT,
            old(self).travel_within(),
            old(self).bullets_in_bounds(),
        ensures
            final(self).bullets@.len() == old(self).bullets@.len(),
            forall|i: int|
                0 <= i < old(self).bullets@.len() ==> final(self).bullets@[i]
                    == bullet_after_motion(#[trigger] old(self).bullets@[i], dt as int),
            final(self).player == old(self).player,
            final(self).next_id == old(self).next_id,
            old(self).wf() ==> final(self).wf(),
    {
        let mut out: Vec<Bullet> = Vec::new();
        let n = self.bullets.len();
        let mut i: usize = 0;
        while i < n
            invariant
                i <= n,
                out@.len() == i,
                forall|j: int|
                    0 <= j < i ==> out@[j] == bullet_after_motion(
                        #[trigger] self.bullets@[j],
                        dt as int,
                    ),
            decreases n - i,
        {
            let b = self.bullets[i];
            let step: u64 = BULLET_SPEED * dt;
            let istep: i64 = step as i64;
            let nx: i64;
            let ny: i64;
            match b.direction {
                Direction::Up => {
                    nx = b.x;
                    ny = b.y + istep;
                },
                Direction::Down => {
                    nx = b.x;
                    ny = b.y - istep;
                },
                Direction::Left => {
                    nx = b.x - istep;
                    ny = b.y;
                },
                Direction::Right => {
                    nx = b.x + istep;
                    ny = b.y;
                },
            }
            let t2: u64 = b.travel_distance + (SUBUNIT + step);
            out.push(
                Bullet {
                    x: nx,
                    y: ny,
                    travel_distance: t2,
                    ..b
                },
            );
            i = i + 1;
        }
        self.bullets = out;
        proof {
            if old(self).wf() {
                assert forall|j: int| 0 <= j < self.bullets@.len() implies bullet_wf(
                    #[trigger] self.bullets@[j],
                ) && self.bullets@[j].id < self.next_id by {
                    assert(bullet_wf(old(self).bullets@[j]) && old(self).bullets@[j].id < old(
                        self,
                    ).next_id);
                }
            }
        }
    }

    /// The expiry sweep: removes every projectile whose cumulative
    /// travel distance is strictly beyond `BULLET_MAX_TRAVEL`,
    /// immediately and in the same frame; the survivors keep their
    /// order and are untouched.
    #[verifier::loop_isolation(false)]
    pub fn despawn_bullet(&mut self)
        ensures
            final(self).bullets@ == remove_expired(old(self).bullets@),
            final(self).player == old(self).player,
            final(self).next_id == old(self).next_id,
            final(self).travel_within(),
            old(self).wf() ==> final(self).wf(),
    {
        let ghost s = self.bullets@;
        let mut out: Vec<Bullet> = Vec::new();
        let n = self.bullets.len();
        let mut i: usize = 0;
        proof {
            assert(s.subrange(0, n as int) =~= s);
            assert(Seq::<Bullet>::empty() + remove_expired(s) =~= remove_expired(s));
        }
        while i < n
            invariant
                i <= n,
                remove_expired(s) == out@ + remove_expired(s.subrange(i as int, n as int)),
            decreases n - i,
        {
            let b = self.bullets[i];
            proof {
                let tail = s.subrange(i as int, n as int);
                assert(tail.len() > 0 && tail[0] == s[i as int]);
                assert(tail.drop_first() =~= s.subrange(i as int + 1, n as int));
                if !expires(b.travel_distance as int) {
                    assert(out@ + (seq![b] + remove_expired(s.subrange(i as int + 1, n as int)))
                        =~= out@.push(b) + remove_expired(s.subrange(i as int + 1, n as int)));
                }
            }
            if b.travel_distance <= BULLET_MAX_TRAVEL {
                out.push(b);
            }
            i = i + 1;
        }
        proof {
            assert(s.subrange(n as int, n as int) =~= Seq::<Bullet>::empty());
            assert(out@ + Seq::<Bullet>::empty() =~= out@);
            lemma_remove_expired_props(s);
        }
        self.bullets = out;
        proof {
            assert forall|j: int| 0 <= j < self.bullets@.len() implies !expires(
                (#[trigger] self.bullets@[j]).travel_distance as int,
            ) by {
                assert(s.contains(self.bullets@[j]));
            }
            if old(self).wf() {
                assert forall|j: int| 0 <= j < self.bullets@.len() implies bullet_wf(
                    #[trigger] self.bullets@[j],
                ) && self.bullets@[j].id < self.next_id by {
                    assert(s.contains(self.bullets@[j]));
                    let k = choose|k: int| 0 <= k < s.len() && s[k] == self.bullets@[j];
                    assert(bullet_wf(s[k]) && s[k].id < old(self).next_id);
                }
            }
        }
    }

    /// The animation pass: each projectile's timer advances by `dt`
    /// and wraps modulo its repeating period; the frame index advances
    /// one step of the 0, 1, 2 cycle for each period the frame
    /// completed, and when at least one completed, the shown sprite
    /// frame is set to the new index. Independent of motion and
    /// expiry.
    #[verifier::loop_isolation(false)]
    pub fn animate_bullet(&mut self, dt: u64)
        requires
            dt <= MAX_DT,
            old(self).wf(),
        ensures
            final(self).bullets@.len() == old(self).bullets@.len(),
            forall|i: int|
                0 <= i < old(self).bullets@.len() ==> final(self).bullets@[i]
                    == bullet_after_animation(#[trigger] old(self).bullets@[i], dt as int),
            final(self).player == old(self).player,
            final(self).next_id == old(self).next_id,
            final(self).wf(),
            old(self).travel_within() ==> final(self).travel_within(),
    {
        let mut out: Vec<Bullet> = Vec::new();
        let n = self.bullets.len();
        let mut i: usize = 0;
        while i < n
            invariant
                i <= n,
                out@.len() == i,
                forall|j: int|
                    0 <= j < i ==> out@[j] == bullet_after_animation(
                        #[trigger] self.bullets@[j],
                        dt as int,
                    ),
            decreases n - i,
        {
            let mut b = self.bullets[i];
            let e: u64 = b.timer.elapsed + dt;
            if e >= ANIMATION_INTERVAL {
                let n: u64 = e / ANIMATION_INTERVAL;
                let idx: u8 = (b.animation_index + (n % 3) as u8) % 3;
                proof {
                    vstd::arithmetic::div_mod::lemma_add_mod_noop(
                        b.animation_index as int,
                        n as int,
                        3,
                    );
                    vstd::arithmetic::div_mod::lemma_small_mod(b.animation_index as nat, 3);
                }
                b.animation_index = idx;
                b.sprite_index = idx;
                b.timer.elapsed = e % ANIMATION_INTERVAL;
            } else {
                b.timer.elapsed = e;
            }
            out.push(b);
            i = i + 1;
        }
        self.bullets = out;
        proof {
            assert forall|j: int| 0 <= j < self.bullets@.len() implies bullet_wf(
                #[trigger] self.bullets@[j],
            ) && self.bullets@[j].id < self.next_id && (old(self).travel_within() ==> !expires(
                self.bullets@[j].travel_distance as int,
            )) by {
                assert(bullet_wf(old(self).bullets@[j]) && old(self).bullets@[j].id < old(
                    self,
                ).next_id);
            }
        }
    }

    /// One full frame: the player pass (facing, firing, movement), the
    /// motion pass, the expiry sweep, and the animation pass, in that
    /// fixed order. An expired projectile is removed before the
    /// animation pass, so it receives no final animation step; a
    /// projectile fired this frame is advanced by this frame's later
    /// passes.
    pub fn tick(&mut self, input: &InputState, dt: u64)
        requires
            dt <= MAX_DT,
            old(self).wf(),
            old(self).travel_within(),
            old(self).in_bounds(),
            old(self).next_id < u64::MAX,
        ensures
            final(self).player == player_after(old(self).player, *input, dt as int),
            final(self).bullets@ == tick_bullets(*old(self), *input, dt as int),
            input.fire ==> final(self).next_id == old(self).next_id + 1,
            !input.fire ==> final(self).next_id == old(self).next_id,
            final(self).wf(),
            final(self).travel_within(),
    {
        let ghost w0 = *old(self);
        self.handle_player_movement(input, dt);
        proof {
            assert(self.bullets@ =~= bullets_after_player_pass(w0, *input));
            assert forall|i: int| 0 <= i < self.bullets@.len() implies -POS_LIMIT <= (
            #[trigger] self.bullets@[i]).x <= POS_LIMIT && -POS_LIMIT <= self.bullets@[i].y
                <= POS_LIMIT by {
                if i < w0.bullets@.len() {
                    assert(self.bullets@[i] == w0.bullets@[i]);
                }
            }
        }
        let ghost s1 = self.bullets@;
        self.update_bullets(dt);
        proof {
            assert(self.bullets@ =~= s1.map_values(|b: Bullet| bullet_after_motion(b, dt as int)));
        }
        self.despawn_bullet();
        let ghost s3 = self.bullets@;
        self.animate_bullet(dt);
        proof {
            assert(self.bullets@ =~= s3.map_values(
                |b: Bullet| bullet_after_animation(b, dt as int),
            ));
        }
    }
}

} // verus!
