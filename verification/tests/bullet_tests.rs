use topdown_shooter::bullet::{AnimationTimer, Bullet};
use topdown_shooter::direction::Direction;
use topdown_shooter::player::{InputState, Player};
use topdown_shooter::world::World;

fn fire_only() -> InputState {
    InputState { left: false, right: false, up: false, down: false, fire: true }
}

fn idle() -> InputState {
    InputState { left: false, right: false, up: false, down: false, fire: false }
}

fn world_with_bullet(travel: u64) -> World {
    World {
        player: Player { x: 0, y: 0, direction: Direction::Up },
        bullets: vec![Bullet {
            id: 0,
            x: 0,
            y: 0,
            direction: Direction::Up,
            animation_index: 0,
            sprite_index: 1,
            travel_distance: travel,
            timer: AnimationTimer { elapsed: 0 },
        }],
        next_id: 1,
    }
}

#[test]
fn shoot_spawns_bullet_with_initial_state() {
    let mut w = World::new(0, 0);
    w.shoot(11, 22, Direction::Left);
    assert_eq!(w.bullets.len(), 1);
    let b = &w.bullets[0];
    assert_eq!(b.id, 0);
    assert_eq!(b.x, 11);
    assert_eq!(b.y, 22);
    assert_eq!(b.direction, Direction::Left);
    assert_eq!(b.travel_distance, 0);
    assert_eq!(b.timer.elapsed, 0);
    // the tracked frame index starts at 0 while the shown sprite frame
    // starts at 1; the first completed period aligns them
    assert_eq!(b.animation_index, 0);
    assert_eq!(b.sprite_index, 1);
    assert_eq!(w.next_id, 1);
}

#[test]
fn holding_fire_spawns_every_frame() {
    let mut w = World::new(0, 0);
    for _ in 0..3 {
        w.tick(&fire_only(), 1_000);
    }
    assert_eq!(w.bullets.len(), 3);
    assert_eq!(w.bullets[0].id, 0);
    assert_eq!(w.bullets[1].id, 1);
    assert_eq!(w.bullets[2].id, 2);
}

#[test]
fn shot_uses_pre_movement_position_and_updated_facing() {
    let mut w = World::new(0, 0);
    let input = InputState { left: false, right: true, up: false, down: false, fire: true };
    w.tick(&input, 10_000);
    // the player moved 3_000_000 micro-units, but the shot left from
    // the pre-movement position and then flew 600 * 10_000 itself
    assert_eq!(w.player.x, 3_000_000);
    assert_eq!(w.bullets.len(), 1);
    assert_eq!(w.bullets[0].direction, Direction::Right);
    assert_eq!(w.bullets[0].x, 6_000_000);
    assert_eq!(w.bullets[0].y, 0);
}

#[test]
fn travel_grows_by_unit_plus_speed_times_dt() {
    let mut w = world_with_bullet(0);
    w.update_bullets(10_000);
    // 1_000_000 + 600 * 10_000
    assert_eq!(w.bullets[0].travel_distance, 7_000_000);
    w.update_bullets(10_000);
    assert_eq!(w.bullets[0].travel_distance, 14_000_000);
    assert_eq!(w.bullets[0].y, 12_000_000);
    assert_eq!(w.bullets[0].x, 0);
}

#[test]
fn travel_grows_even_with_zero_elapsed_time() {
    let mut w = world_with_bullet(0);
    w.update_bullets(0);
    assert_eq!(w.bullets[0].travel_distance, 1_000_000);
    assert_eq!(w.bullets[0].y, 0);
}

#[test]
fn despawn_keeps_travel_at_limit_and_removes_strictly_beyond() {
    let mut at_limit = world_with_bullet(350_000_000);
    at_limit.despawn_bullet();
    assert_eq!(at_limit.bullets.len(), 1);

    let mut beyond = world_with_bullet(350_000_001);
    beyond.despawn_bullet();
    assert_eq!(beyond.bullets.len(), 0);
}

#[test]
fn despawn_keeps_survivor_order() {
    let mut w = world_with_bullet(350_000_001);
    let mut keep_a = w.bullets[0];
    keep_a.id = 1;
    keep_a.travel_distance = 5;
    let mut keep_b = keep_a;
    keep_b.id = 2;
    keep_b.travel_distance = 7;
    w.bullets.push(keep_a);
    w.bullets.push(keep_b);
    w.next_id = 3;
    w.despawn_bullet();
    assert_eq!(w.bullets.len(), 2);
    assert_eq!(w.bullets[0].id, 1);
    assert_eq!(w.bullets[1].id, 2);
}

#[test]
fn bullet_expires_on_first_frame_past_limit() {
    // one frame's travel step at dt = 16_667 is 11_000_200; the
    // cumulative travel first exceeds 350_000_000 on frame 32
    let mut w = world_with_bullet(0);
    for k in 1..=31u64 {
        w.update_bullets(16_667);
        w.despawn_bullet();
        assert_eq!(w.bullets.len(), 1);
        assert_eq!(w.bullets[0].travel_distance, k * 11_000_200);
    }
    w.update_bullets(16_667);
    w.despawn_bullet();
    assert_eq!(w.bullets.len(), 0);
}

#[test]
fn animation_cycles_through_three_frames() {
    let mut w = world_with_bullet(0);
    let expected = [1u8, 2, 0, 1, 2, 0];
    for frame in expected {
        w.animate_bullet(100_000);
        assert_eq!(w.bullets[0].animation_index, frame);
        assert_eq!(w.bullets[0].sprite_index, frame);
        assert_eq!(w.bullets[0].timer.elapsed, 0);
    }
}

#[test]
fn animation_advances_only_on_completed_interval() {
    let mut w = world_with_bullet(0);
    w.animate_bullet(99_999);
    assert_eq!(w.bullets[0].animation_index, 0);
    assert_eq!(w.bullets[0].sprite_index, 1);
    assert_eq!(w.bullets[0].timer.elapsed, 99_999);
    w.animate_bullet(1);
    assert_eq!(w.bullets[0].animation_index, 1);
    assert_eq!(w.bullets[0].sprite_index, 1);
    assert_eq!(w.bullets[0].timer.elapsed, 0);
}

#[test]
fn animation_timer_wraps_modulo_interval() {
    let mut w = world_with_bullet(0);
    w.animate_bullet(130_000);
    assert_eq!(w.bullets[0].animation_index, 1);
    assert_eq!(w.bullets[0].timer.elapsed, 30_000);
}

#[test]
fn long_frame_advances_once_per_completed_interval() {
    // a frame spanning two 0.1 s intervals advances the index twice
    let mut w = world_with_bullet(0);
    w.animate_bullet(230_000);
    assert_eq!(w.bullets[0].animation_index, 2);
    assert_eq!(w.bullets[0].sprite_index, 2);
    assert_eq!(w.bullets[0].timer.elapsed, 30_000);
    // three more completed intervals wrap the cycle: (2 + 3) % 3 = 2
    w.animate_bullet(300_000);
    assert_eq!(w.bullets[0].animation_index, 2);
    assert_eq!(w.bullets[0].timer.elapsed, 30_000);
}

#[test]
fn four_intervals_in_one_frame_wrap_the_cycle() {
    let mut w = world_with_bullet(0);
    // elapsed 0 + 410_000 completes four intervals: (0 + 4) % 3 = 1
    w.animate_bullet(410_000);
    assert_eq!(w.bullets[0].animation_index, 1);
    assert_eq!(w.bullets[0].sprite_index, 1);
    assert_eq!(w.bullets[0].timer.elapsed, 10_000);
}

#[test]
fn facing_never_changes_while_alive() {
    let mut w = World::new(0, 0);
    let input = InputState { left: true, right: false, up: false, down: false, fire: true };
    w.tick(&input, 1_000);
    assert_eq!(w.bullets[0].direction, Direction::Left);
    for _ in 0..50 {
        w.tick(&idle(), 16_667);
        for b in &w.bullets {
            assert_eq!(b.direction, Direction::Left);
        }
    }
}

#[test]
fn scenario_fire_up_until_expiry() {
    // fire once facing up from (0, 0); the shot flies until its
    // cumulative travel first exceeds the limit, then is gone
    let mut w = World::new(0, 0);
    w.tick(&fire_only(), 16_667);
    // the new projectile was already swept this frame
    assert_eq!(w.bullets.len(), 1);
    assert_eq!(w.bullets[0].direction, Direction::Up);
    assert_eq!(w.bullets[0].travel_distance, 11_000_200);
    for _ in 2..=31u64 {
        w.tick(&idle(), 16_667);
    }
    assert_eq!(w.bullets.len(), 1);
    assert_eq!(w.bullets[0].id, 0);
    assert_eq!(w.bullets[0].travel_distance, 31 * 11_000_200);
    assert_eq!(w.bullets[0].y, 31 * 10_000_200);
    w.tick(&idle(), 16_667);
    assert!(w.bullets.iter().all(|b| b.id != 0));
    assert_eq!(w.bullets.len(), 0);
}
