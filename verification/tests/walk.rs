use platformer::walk::{WalkLoop, WalkState, IDLE_SPRITE_INDEX, WALK_FRAMES, WALK_PERIOD_MICROS};

#[test]
fn a_new_cycle_stands() {
    let walk = WalkLoop::new();
    assert_eq!(walk.state(), WalkState::Standing);
    assert_eq!(walk.sprite_index(), IDLE_SPRITE_INDEX);
    assert_eq!(IDLE_SPRITE_INDEX, 8);
    assert_eq!(WALK_FRAMES, 8);
    assert_eq!(WALK_PERIOD_MICROS, 100_000);
}

#[test]
fn the_default_cycle_stands() {
    let mut walk = WalkLoop::default();
    assert_eq!(walk.state(), WalkState::Standing);
    walk.increment(100_000);
    assert_eq!(walk.state(), WalkState::Walking(0));
    walk.increment(100_000);
    assert_eq!(walk.state(), WalkState::Walking(1));
}

#[test]
fn the_first_step_shows_the_first_frame_at_once() {
    let mut walk = WalkLoop::new();
    walk.increment(1);
    assert_eq!(walk.state(), WalkState::Walking(0));
    let mut walk = WalkLoop::new();
    walk.increment(0);
    assert_eq!(walk.state(), WalkState::Walking(0));
    let mut walk = WalkLoop::new();
    walk.increment(u32::MAX);
    assert_eq!(walk.state(), WalkState::Walking(0));
}

#[test]
fn the_frame_waits_for_a_full_period() {
    let mut walk = WalkLoop::new();
    walk.increment(16_000);
    assert_eq!(walk.state(), WalkState::Walking(0));
    walk.increment(99_999);
    assert_eq!(walk.state(), WalkState::Walking(0));
    walk.increment(1);
    assert_eq!(walk.state(), WalkState::Walking(1));
}

#[test]
fn the_first_step_accumulates_no_time() {
    let mut walk = WalkLoop::new();
    walk.increment(99_999);
    assert_eq!(walk.state(), WalkState::Walking(0));
    walk.increment(1);
    assert_eq!(walk.state(), WalkState::Walking(0));
    walk.increment(99_999);
    assert_eq!(walk.state(), WalkState::Walking(1));
}

#[test]
fn full_periods_show_the_frames_in_order_and_wrap() {
    let mut walk = WalkLoop::new();
    walk.increment(100_000);
    let mut seen = Vec::new();
    seen.push(walk.state());
    for _ in 0..17 {
        walk.increment(100_000);
        seen.push(walk.state());
    }
    let expected: Vec<WalkState> =
        (0..18u32).map(|i| WalkState::Walking(i % 8)).collect();
    assert_eq!(seen, expected);
}

#[test]
fn the_time_starts_over_with_each_frame() {
    let mut walk = WalkLoop::new();
    walk.increment(0);
    // 60 ms steps: the accumulated time is 60, 120 -> 0, 60, 120 -> 0, 60, 120 -> 0
    let expected = [0, 1, 1, 2, 2, 3];
    for frame in expected {
        walk.increment(60_000);
        assert_eq!(walk.state(), WalkState::Walking(frame));
    }
}

#[test]
fn what_is_left_over_of_a_step_is_dropped() {
    let mut walk = WalkLoop::new();
    walk.increment(0);
    walk.increment(150_000);
    assert_eq!(walk.state(), WalkState::Walking(1));
    walk.increment(60_000);
    assert_eq!(walk.state(), WalkState::Walking(1));
    walk.increment(39_999);
    assert_eq!(walk.state(), WalkState::Walking(1));
    walk.increment(1);
    assert_eq!(walk.state(), WalkState::Walking(2));
}

#[test]
fn a_long_step_advances_one_frame_only() {
    let mut walk = WalkLoop::new();
    walk.increment(0);
    walk.increment(350_000);
    assert_eq!(walk.state(), WalkState::Walking(1));
    // nothing was kept
    walk.increment(99_999);
    assert_eq!(walk.state(), WalkState::Walking(1));
    walk.increment(1);
    assert_eq!(walk.state(), WalkState::Walking(2));
}

#[test]
fn the_longest_step_is_taken() {
    let mut walk = WalkLoop::new();
    walk.increment(0);
    walk.increment(u32::MAX);
    assert_eq!(walk.state(), WalkState::Walking(1));
    walk.increment(99_999);
    assert_eq!(walk.state(), WalkState::Walking(1));
    walk.increment(1);
    assert_eq!(walk.state(), WalkState::Walking(2));
}

#[test]
fn stop_returns_to_standing_from_any_frame() {
    for steps in 0..10 {
        let mut walk = WalkLoop::new();
        for _ in 0..steps {
            walk.increment(100_000);
        }
        walk.stop();
        assert_eq!(walk.state(), WalkState::Standing);
        assert_eq!(walk.sprite_index(), 8);
    }
}

#[test]
fn after_a_stop_the_cycle_starts_over() {
    let mut walk = WalkLoop::new();
    for _ in 0..4 {
        walk.increment(100_000);
    }
    assert_eq!(walk.state(), WalkState::Walking(3));
    walk.stop();
    walk.increment(100_000);
    assert_eq!(walk.state(), WalkState::Walking(0));
    walk.increment(100_000);
    assert_eq!(walk.state(), WalkState::Walking(1));
}

#[test]
fn a_stop_keeps_the_accumulated_time() {
    let mut walk = WalkLoop::new();
    walk.increment(0);
    walk.increment(70_000);
    walk.stop();
    walk.increment(0);
    assert_eq!(walk.state(), WalkState::Walking(0));
    walk.increment(30_000);
    assert_eq!(walk.state(), WalkState::Walking(1));
}

#[test]
fn the_sprite_is_the_frame_while_walking() {
    let mut walk = WalkLoop::new();
    walk.increment(0);
    for frame in 0..8u32 {
        assert_eq!(walk.sprite_index(), frame);
        walk.increment(100_000);
    }
    assert_eq!(walk.sprite_index(), 0);
}
