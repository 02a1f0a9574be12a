use game_core::{
    circ_dist, movement_factors, player_turn, rotate_heading, signed_delta, turn_toward,
    RepeatingTimer, FULL_TURN, HALF_TURN,
};

#[test]
fn signed_delta_picks_the_short_way() {
    // 10 degrees to 350 degrees: 20 degrees clockwise, not 340 counterclockwise
    assert_eq!(signed_delta(10_000, 350_000), -20_000);
    assert_eq!(signed_delta(350_000, 10_000), 20_000);
    assert_eq!(signed_delta(90_000, 90_000), 0);
    // exactly opposite: the counterclockwise direction is chosen
    assert_eq!(signed_delta(0, HALF_TURN), HALF_TURN as i32);
}

#[test]
fn circ_dist_wraps() {
    assert_eq!(circ_dist(350_000, 10_000), 20_000);
    assert_eq!(circ_dist(0, HALF_TURN), HALF_TURN);
    assert_eq!(circ_dist(123_456, 123_456), 0);
}

#[test]
fn turn_toward_caps_the_step_and_reaches_the_goal() {
    // far goal: move exactly the cap toward it
    assert_eq!(turn_toward(0, 90_000, 30_000), 30_000);
    // goal within the cap: land on it
    assert_eq!(turn_toward(10_000, 350_000, 30_000), 350_000);
    // shorter way crosses zero going clockwise
    assert_eq!(turn_toward(10_000, 300_000, 30_000), 340_000);
}

#[test]
fn repeated_turns_converge() {
    let mut heading = 0;
    let target = 170_000;
    for _ in 0..6 {
        heading = turn_toward(heading, target, 30_000);
    }
    assert_eq!(heading, target);
    assert_eq!(turn_toward(heading, target, 30_000), target);
}

#[test]
fn rotate_heading_wraps_both_ways() {
    assert_eq!(rotate_heading(350_000, 20_000), 10_000);
    assert_eq!(rotate_heading(10_000, -20_000), 350_000);
    assert_eq!(rotate_heading(90_000, 0), 90_000);
    assert_eq!(rotate_heading(0, FULL_TURN as i32), 0);
}

#[test]
fn keyboard_factors_cancel() {
    assert_eq!(movement_factors(true, false, true), (1, 1));
    assert_eq!(movement_factors(false, true, false), (-1, 0));
    assert_eq!(movement_factors(true, true, true), (0, 1));
    assert_eq!(movement_factors(false, false, false), (0, 0));
}

#[test]
fn player_turn_follows_the_keys() {
    assert_eq!(player_turn(0, true, false, 5_000), 5_000);
    assert_eq!(player_turn(0, false, true, 5_000), 355_000);
    assert_eq!(player_turn(0, true, true, 5_000), 0);
}

#[test]
fn repeating_timer_wraps_like_the_spawn_clock() {
    let mut t = RepeatingTimer::new(5_000);
    assert!(!t.tick(3_000));
    assert_eq!(t.elapsed, 3_000);
    assert!(t.tick(2_000));
    assert_eq!(t.elapsed, 0);
    // a long tick swallows whole periods and wraps
    assert!(t.tick(12_500));
    assert_eq!(t.elapsed, 2_500);
}
