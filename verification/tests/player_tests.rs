use topdown_shooter::direction::Direction;
use topdown_shooter::player::InputState;
use topdown_shooter::world::World;

fn keys(left: bool, right: bool, up: bool, down: bool) -> InputState {
    InputState { left, right, up, down, fire: false }
}

#[test]
fn player_moves_right_at_axis_speed() {
    let mut w = World::new(0, 0);
    w.tick(&keys(false, true, false, false), 10_000);
    // 300 units/s for 10_000 micro-seconds: 3_000_000 micro-units
    assert_eq!(w.player.x, 3_000_000);
    assert_eq!(w.player.y, 0);
    assert_eq!(w.player.direction, Direction::Right);
}

#[test]
fn player_moves_up_at_axis_speed() {
    let mut w = World::new(0, 0);
    w.tick(&keys(false, false, true, false), 10_000);
    assert_eq!(w.player.x, 0);
    assert_eq!(w.player.y, 3_000_000);
    assert_eq!(w.player.direction, Direction::Up);
}

#[test]
fn diagonal_movement_is_normalized() {
    let mut w = World::new(0, 0);
    w.tick(&keys(false, true, true, false), 10_000);
    // each axis gets 3_000_000 * 707_106 / 1_000_000 micro-units
    assert_eq!(w.player.x, 2_121_318);
    assert_eq!(w.player.y, 2_121_318);
    // never faster than axis-aligned movement
    let m: i128 = 3_000_000;
    let d: i128 = 2_121_318;
    assert!(2 * d * d <= m * m);
}

#[test]
fn opposing_keys_cancel_but_set_facing() {
    let mut w = World::new(5, 7);
    w.tick(&keys(true, true, false, false), 10_000);
    assert_eq!(w.player.x, 5);
    assert_eq!(w.player.y, 7);
    // Right is tested after Left, so it wins the tie
    assert_eq!(w.player.direction, Direction::Right);
}

#[test]
fn all_keys_held_last_tested_direction_wins() {
    let mut w = World::new(0, 0);
    w.tick(&keys(true, true, true, true), 10_000);
    assert_eq!(w.player.x, 0);
    assert_eq!(w.player.y, 0);
    // the fixed test order is Left, Right, Up, Down
    assert_eq!(w.player.direction, Direction::Down);
}

#[test]
fn no_keys_no_movement_facing_kept() {
    let mut w = World::new(1, 2);
    w.tick(&keys(false, true, false, false), 1_000);
    let x = w.player.x;
    w.tick(&keys(false, false, false, false), 50_000);
    assert_eq!(w.player.x, x);
    assert_eq!(w.player.y, 2);
    assert_eq!(w.player.direction, Direction::Right);
}

#[test]
fn zero_elapsed_time_moves_nothing() {
    let mut w = World::new(3, 4);
    w.tick(&keys(false, true, false, false), 0);
    assert_eq!(w.player.x, 3);
    assert_eq!(w.player.y, 4);
}

#[test]
fn scenario_hold_right_for_one_second() {
    // start at (100, 100) game units, hold Right for 60 frames of
    // ~1/60 s: the player ends about 300 units to the right
    let mut w = World::new(100_000_000, 100_000_000);
    for _ in 0..60 {
        w.tick(&keys(false, true, false, false), 16_667);
    }
    // 60 frames * 300 * 16_667 micro-units = 300_006_000
    assert_eq!(w.player.x, 400_006_000);
    assert_eq!(w.player.y, 100_000_000);
    assert_eq!(w.player.direction, Direction::Right);
    assert_eq!(w.bullets.len(), 0);
}
