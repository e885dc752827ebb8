use platformer::geometry::{BoundingSize, Position, Velocity};
use platformer::player::{Jumps, Platform, Player, JUMP_COUNT};
use platformer::systems::{
    gravity_system, horizontal_movement, jump_system, position_system, GRAVITY_ACCELERATION,
    HORIZONTAL_ACCELERATION, JUMP_IMPULSE, MAX_HORIZONTAL_VELOCITY,
};
use platformer::walk::WalkState;

/// Position steps in one world unit.
const UNIT: i64 = 1_000_000_000_000;

fn player_at(x: i64, y: i64) -> Player {
    Player::new(Position { x, y }, BoundingSize { half_width: 2, half_height: 5 })
}

fn platform(x: i64, y: i64, half_width: u64, half_height: u64) -> Platform {
    Platform { position: Position { x, y }, size: BoundingSize { half_width, half_height } }
}

#[test]
fn the_constants_are_those_of_the_game() {
    assert_eq!(JUMP_COUNT, 3);
    assert_eq!(GRAVITY_ACCELERATION, -20);
    assert_eq!(HORIZONTAL_ACCELERATION, 10);
    assert_eq!(MAX_HORIZONTAL_VELOCITY, 50_000_000);
    assert_eq!(JUMP_IMPULSE, 40_000_000);
}

#[test]
fn a_new_player_is_at_rest() {
    let player = player_at(3, -4);
    assert_eq!(player.position, Position { x: 3, y: -4 });
    assert_eq!(player.velocity, Velocity { x: 0, y: 0 });
    assert_eq!(player.size, BoundingSize { half_width: 2, half_height: 5 });
    assert_eq!(player.jumps.remaining(), 3);
    assert_eq!(player.walk_loop.state(), WalkState::Standing);
}

#[test]
fn gravity_accumulates_frame_by_frame() {
    let mut player = player_at(0, 0);
    let platforms = Vec::new();
    let mut last = player.velocity.y;
    for n in 1..=100i64 {
        gravity_system(&mut player, &platforms, 16_667);
        assert_eq!(player.velocity.y, n * -20 * 16_667);
        assert!(player.velocity.y < last);
        last = player.velocity.y;
    }
    assert_eq!(player.velocity.y, -33_334_000);
    assert_eq!(player.position, Position { x: 0, y: 0 });
    assert_eq!(player.jumps.remaining(), 3);
}

#[test]
fn gravity_over_no_time_changes_nothing() {
    let mut player = player_at(0, 0);
    player.velocity.y = 7;
    gravity_system(&mut player, &Vec::new(), 0);
    assert_eq!(player.velocity.y, 7);
}

#[test]
fn gravity_passes_platforms_that_are_not_met() {
    let mut player = player_at(0, 100);
    let platforms = vec![platform(0, 0, 10, 5), platform(50, 100, 10, 5)];
    gravity_system(&mut player, &platforms, 1_000);
    assert_eq!(player.velocity.y, -20_000);
    assert_eq!(player.position, Position { x: 0, y: 100 });
}

#[test]
fn falling_speed_stops_at_the_end_of_the_range() {
    let mut player = player_at(0, 0);
    player.velocity.y = i64::MIN + 10;
    gravity_system(&mut player, &Vec::new(), 1);
    assert_eq!(player.velocity.y, i64::MIN);
    gravity_system(&mut player, &Vec::new(), u32::MAX);
    assert_eq!(player.velocity.y, i64::MIN);
}

#[test]
fn landing_sets_the_player_flush_on_the_platform() {
    let mut player = player_at(0, 9);
    player.velocity.y = -123_456;
    let platforms = vec![platform(0, 0, 10, 5)];
    gravity_system(&mut player, &platforms, 16_667);
    // bottom edge of the player on the top edge of the platform
    assert_eq!(player.position.y - 5, 0 + 5);
    assert_eq!(player.position, Position { x: 0, y: 10 });
    assert_eq!(player.velocity.y, 0);
}

#[test]
fn landing_in_world_units_is_exact() {
    // a player 27 by 52 units that has sunk a third of a unit into a
    // platform whose top edge is at -76 units
    let mut player = Player::new(
        Position { x: 0, y: -50 * UNIT - UNIT / 3 },
        BoundingSize { half_width: 13_500_000_000_000, half_height: 26 * UNIT as u64 },
    );
    player.velocity.y = -9 * 1_000_000;
    let platforms = vec![platform(0, -86 * UNIT, 200 * UNIT as u64, 10 * UNIT as u64)];
    gravity_system(&mut player, &platforms, 16_667);
    assert_eq!(player.position.y, -50 * UNIT);
    assert_eq!(player.position.y - 26 * UNIT, -86 * UNIT + 10 * UNIT);
    assert_eq!(player.velocity.y, 0);
}

#[test]
fn landing_suppresses_gravity_for_the_frame() {
    let mut player = player_at(0, 9);
    let platforms = vec![platform(0, 0, 10, 5)];
    gravity_system(&mut player, &platforms, 1_000_000);
    assert_eq!(player.velocity.y, 0);
}

#[test]
fn a_player_at_rest_on_a_platform_is_pulled_again() {
    let mut player = player_at(0, 10);
    let platforms = vec![platform(0, 0, 10, 5)];
    gravity_system(&mut player, &platforms, 1_000);
    assert_eq!(player.position.y, 10);
    assert_eq!(player.velocity.y, -20_000);
}

#[test]
fn landing_restores_the_jump_budget_whatever_it_was() {
    for remaining in 0..=3usize {
        let mut player = player_at(0, 9);
        player.jumps = Jumps::with_remaining(remaining).unwrap();
        gravity_system(&mut player, &vec![platform(0, 0, 10, 5)], 1_000);
        assert_eq!(player.jumps.remaining(), 3);
    }
}

#[test]
fn without_a_landing_the_jump_budget_is_kept() {
    for remaining in 0..=3usize {
        let mut player = player_at(0, 100);
        player.jumps = Jumps::with_remaining(remaining).unwrap();
        gravity_system(&mut player, &vec![platform(0, 0, 10, 5)], 1_000);
        assert_eq!(player.jumps.remaining(), remaining);
    }
}

#[test]
fn only_a_landing_from_above_is_answered() {
    // from below
    let mut player = player_at(0, -9);
    gravity_system(&mut player, &vec![platform(0, 0, 10, 5)], 1_000);
    assert_eq!(player.position, Position { x: 0, y: -9 });
    assert_eq!(player.velocity.y, -20_000);
    // from the left
    let mut player = player_at(-11, 0);
    gravity_system(&mut player, &vec![platform(0, 0, 10, 5)], 1_000);
    assert_eq!(player.position, Position { x: -11, y: 0 });
    assert_eq!(player.velocity.y, -20_000);
    // from the right
    let mut player = player_at(11, 0);
    gravity_system(&mut player, &vec![platform(0, 0, 10, 5)], 1_000);
    assert_eq!(player.position, Position { x: 11, y: 0 });
    assert_eq!(player.velocity.y, -20_000);
}

#[test]
fn of_several_landings_the_last_decides() {
    // both platforms are met by the player as it stands at first
    let platforms = vec![platform(0, 0, 10, 5), platform(0, 1, 10, 5)];
    let mut player = player_at(0, 9);
    gravity_system(&mut player, &platforms, 1_000);
    assert_eq!(player.position.y, 11);
    assert_eq!(player.velocity.y, 0);
}

#[test]
fn a_later_platform_is_tested_against_the_player_as_it_was_set_down() {
    // set down on the higher platform first, the player no longer meets
    // the lower one
    let platforms = vec![platform(0, 1, 10, 5), platform(0, 0, 10, 5)];
    let mut player = player_at(0, 9);
    gravity_system(&mut player, &platforms, 1_000);
    assert_eq!(player.position.y, 11);
    // set down on a platform, the player comes to meet one that it did
    // not meet before
    let platforms = vec![platform(0, 0, 10, 5), platform(0, 12, 10, 5)];
    let mut player = player_at(0, 9);
    gravity_system(&mut player, &platforms, 1_000);
    assert_eq!(player.position.y, 10);
    let platforms = vec![platform(0, 0, 10, 5), platform(0, 4, 10, 2)];
    let mut player = player_at(0, 6);
    gravity_system(&mut player, &platforms, 1_000);
    assert_eq!(player.position.y, 11);
}

#[test]
fn landing_at_the_end_of_the_range_stops_there() {
    let mut player = Player::new(
        Position { x: 0, y: i64::MAX - 1 },
        BoundingSize { half_width: 2, half_height: 5 },
    );
    let platforms = vec![platform(0, i64::MAX - 8, 10, 5)];
    gravity_system(&mut player, &platforms, 1_000);
    assert_eq!(player.position.y, i64::MAX);
    assert_eq!(player.velocity.y, 0);
}

#[test]
fn holding_right_accelerates_up_to_the_limit() {
    let mut player = player_at(0, 0);
    horizontal_movement(&mut player, 1_000_000, false, true);
    assert_eq!(player.velocity.x, 10_000_000);
    for n in 2..=5i64 {
        horizontal_movement(&mut player, 1_000_000, false, true);
        assert_eq!(player.velocity.x, n * 10_000_000);
    }
    assert_eq!(player.velocity.x, MAX_HORIZONTAL_VELOCITY);
    for _ in 0..10 {
        horizontal_movement(&mut player, 1_000_000, false, true);
        assert_eq!(player.velocity.x, 50_000_000);
    }
}

#[test]
fn the_limit_is_never_exceeded() {
    let mut player = player_at(0, 0);
    for _ in 0..400 {
        horizontal_movement(&mut player, 16_667, false, true);
        assert!(player.velocity.x <= MAX_HORIZONTAL_VELOCITY);
    }
    assert_eq!(player.velocity.x, 50_000_000);
    horizontal_movement(&mut player, u32::MAX, false, true);
    assert_eq!(player.velocity.x, 50_000_000);
    for _ in 0..800 {
        horizontal_movement(&mut player, 16_667, true, false);
        assert!(player.velocity.x >= -MAX_HORIZONTAL_VELOCITY);
    }
    assert_eq!(player.velocity.x, -50_000_000);
}

#[test]
fn holding_left_accelerates_to_the_left() {
    let mut player = player_at(0, 0);
    horizontal_movement(&mut player, 16_667, true, false);
    assert_eq!(player.velocity.x, -166_670);
    horizontal_movement(&mut player, 16_667, true, false);
    assert_eq!(player.velocity.x, -333_340);
}

#[test]
fn releasing_the_keys_stops_the_player_dead() {
    let mut player = player_at(0, 0);
    for _ in 0..10 {
        horizontal_movement(&mut player, 16_667, false, true);
    }
    assert_eq!(player.velocity.x, 1_666_700);
    horizontal_movement(&mut player, 16_667, false, false);
    assert_eq!(player.velocity.x, 0);
    assert_eq!(player.walk_loop.state(), WalkState::Standing);
}

#[test]
fn a_speed_beyond_the_limit_is_brought_back() {
    let mut player = player_at(0, 0);
    player.velocity.x = i64::MAX;
    horizontal_movement(&mut player, u32::MAX, false, true);
    assert_eq!(player.velocity.x, 50_000_000);
    player.velocity.x = i64::MIN;
    horizontal_movement(&mut player, u32::MAX, true, false);
    assert_eq!(player.velocity.x, -50_000_000);
    player.velocity.x = i64::MIN;
    horizontal_movement(&mut player, 1, false, true);
    assert_eq!(player.velocity.x, -50_000_000);
}

#[test]
fn moving_right_drives_the_walk_cycle() {
    let mut player = player_at(0, 0);
    horizontal_movement(&mut player, 50_000, false, true);
    assert_eq!(player.walk_loop.state(), WalkState::Walking(0));
    horizontal_movement(&mut player, 50_000, false, true);
    assert_eq!(player.walk_loop.state(), WalkState::Walking(0));
    horizontal_movement(&mut player, 50_000, false, true);
    assert_eq!(player.walk_loop.state(), WalkState::Walking(1));
}

#[test]
fn moving_left_leaves_the_walk_cycle_alone() {
    let mut player = player_at(0, 0);
    horizontal_movement(&mut player, 100_000, true, false);
    assert_eq!(player.walk_loop.state(), WalkState::Standing);
    horizontal_movement(&mut player, 100_000, false, true);
    horizontal_movement(&mut player, 100_000, false, true);
    assert_eq!(player.walk_loop.state(), WalkState::Walking(1));
    for _ in 0..5 {
        horizontal_movement(&mut player, 100_000, true, false);
        assert_eq!(player.walk_loop.state(), WalkState::Walking(1));
    }
}

#[test]
fn with_both_keys_held_right_wins() {
    let mut player = player_at(0, 0);
    horizontal_movement(&mut player, 1_000, true, true);
    assert_eq!(player.velocity.x, 10_000);
    assert_eq!(player.walk_loop.state(), WalkState::Walking(0));
}

#[test]
fn the_movement_step_touches_nothing_else() {
    let mut player = player_at(3, 4);
    player.velocity.y = -77;
    horizontal_movement(&mut player, 1_000, false, true);
    assert_eq!(player.position, Position { x: 3, y: 4 });
    assert_eq!(player.velocity.y, -77);
    assert_eq!(player.jumps.remaining(), 3);
}

#[test]
fn three_jumps_and_no_more() {
    let mut player = player_at(0, 0);
    player.velocity.y = -5_000_000;
    jump_system(&mut player, true);
    assert_eq!(player.jumps.remaining(), 2);
    assert_eq!(player.velocity.y, 35_000_000);
    jump_system(&mut player, true);
    assert_eq!(player.jumps.remaining(), 1);
    assert_eq!(player.velocity.y, 75_000_000);
    jump_system(&mut player, true);
    assert_eq!(player.jumps.remaining(), 0);
    assert_eq!(player.velocity.y, 115_000_000);
    jump_system(&mut player, true);
    assert_eq!(player.jumps.remaining(), 0);
    assert_eq!(player.velocity.y, 115_000_000);
}

#[test]
fn no_jump_without_a_press() {
    let mut player = player_at(0, 0);
    jump_system(&mut player, false);
    assert_eq!(player.jumps.remaining(), 3);
    assert_eq!(player.velocity.y, 0);
}

#[test]
fn a_jump_adds_to_the_velocity_that_is_there() {
    let mut player = player_at(0, 0);
    player.velocity.y = -60_000_000;
    jump_system(&mut player, true);
    assert_eq!(player.velocity.y, -20_000_000);
    player.velocity.y = i64::MAX - 1;
    jump_system(&mut player, true);
    assert_eq!(player.velocity.y, i64::MAX);
    assert_eq!(player.jumps.remaining(), 1);
}

#[test]
fn position_follows_velocity() {
    let mut player = player_at(100, -50);
    player.velocity = Velocity { x: 3, y: -7 };
    position_system(&mut player, 16_667);
    assert_eq!(player.position, Position { x: 100 + 3 * 16_667, y: -50 - 7 * 16_667 });
    assert_eq!(player.position, Position { x: 50_101, y: -116_719 });
    assert_eq!(player.velocity, Velocity { x: 3, y: -7 });
}

#[test]
fn a_unit_per_second_covers_a_unit_in_a_second() {
    let mut player = player_at(0, 0);
    player.velocity = Velocity { x: 1_000_000, y: -2_000_000 };
    position_system(&mut player, 1_000_000);
    assert_eq!(player.position, Position { x: UNIT, y: -2 * UNIT });
}

#[test]
fn position_over_no_time_stays() {
    let mut player = player_at(100, -50);
    player.velocity = Velocity { x: i64::MAX, y: i64::MIN };
    position_system(&mut player, 0);
    assert_eq!(player.position, Position { x: 100, y: -50 });
}

#[test]
fn position_stops_at_the_ends_of_the_range() {
    let mut player = player_at(i64::MAX - 5, i64::MIN + 5);
    player.velocity = Velocity { x: 2, y: -2 };
    position_system(&mut player, 3);
    assert_eq!(player.position, Position { x: i64::MAX, y: i64::MIN });
    player.velocity = Velocity { x: i64::MIN, y: i64::MAX };
    position_system(&mut player, u32::MAX);
    assert_eq!(player.position, Position { x: i64::MIN, y: i64::MAX });
}

#[test]
fn the_jump_budget_cannot_be_made_too_large() {
    assert!(Jumps::with_remaining(4).is_none());
    assert!(Jumps::with_remaining(usize::MAX).is_none());
    assert_eq!(Jumps::with_remaining(3).unwrap().remaining(), 3);
    assert_eq!(Jumps::with_remaining(0).unwrap().remaining(), 0);
    assert_eq!(Jumps::full().remaining(), 3);
}

#[test]
fn spending_and_replenishing_the_budget() {
    let mut jumps = Jumps::full();
    assert!(jumps.spend());
    assert!(jumps.spend());
    assert!(jumps.spend());
    assert!(!jumps.spend());
    assert_eq!(jumps.remaining(), 0);
    jumps.replenish();
    assert_eq!(jumps.remaining(), 3);
}
