//! Bounded-turn seek steering on integer headings.
//!
//! The shooter's enemies rotate toward a goal (the player, or a fixed point)
//! at a capped angular rate and then advance along their new forward vector.
//! Here a heading is an angle in millidegrees, in `[0, FULL_TURN)`, measured
//! counterclockwise; the caller converts the engine's rotation into that unit
//! and back. `turn_toward` is the rotation-limited step: it turns by at most
//! `max_turn` millidegrees in whichever direction is shorter, and reaches the
//! goal exactly when the remaining angle is within the cap.

use vstd::prelude::*;

verus! {

/// Millidegrees in a full turn.
pub const FULL_TURN: u32 = 360_000;

/// Millidegrees in half a turn.
pub const HALF_TURN: u32 = 180_000;

/// A heading is normalized into `[0, FULL_TURN)`.
pub open spec fn angle_wf(a: u32) -> bool {
    a < FULL_TURN
}

/// The shortest signed rotation that carries `from` onto `to`, in
/// `(-HALF_TURN, HALF_TURN]`: positive counterclockwise. When the goal lies
/// exactly half a turn away the counterclockwise direction is chosen.
pub open spec fn spec_signed_delta(from: u32, to: u32) -> int {
    let d = if to >= from {
        to - from
    } else {
        to + FULL_TURN - from
    };
    if d > HALF_TURN as int {
        d - FULL_TURN as int
    } else {
        d
    }
}

/// The circular distance between two headings, in `[0, HALF_TURN]`.
pub open spec fn spec_circ_dist(a: u32, b: u32) -> int {
    let d = spec_signed_delta(a, b);
    if d < 0 {
        -d
    } else {
        d
    }
}

/// Fold an angle that drifted at most one turn out of range back into
/// `[0, FULL_TURN)`.
pub open spec fn spec_norm_angle(a: int) -> int {
    if a < 0 {
        a + FULL_TURN as int
    } else if a >= FULL_TURN as int {
        a - FULL_TURN as int
    } else {
        a
    }
}

/// The signed step a bounded turn takes: the shortest rotation toward the
/// goal, clamped to `max_turn` in magnitude.
pub open spec fn spec_turn_step(from: u32, to: u32, max_turn: u32) -> int {
    let d = spec_signed_delta(from, to);
    if d < -(max_turn as int) {
        -(max_turn as int)
    } else if d > max_turn as int {
        max_turn as int
    } else {
        d
    }
}

/// The heading after one bounded turn toward `to`.
pub open spec fn spec_turn_toward(from: u32, to: u32, max_turn: u32) -> int {
    spec_norm_angle(from as int + spec_turn_step(from, to, max_turn))
}

/// The shortest signed rotation between two headings.
pub fn signed_delta(from: u32, to: u32) -> (d: i32)
    requires
        angle_wf(from),
        angle_wf(to),
    ensures
        d == spec_signed_delta(from, to),
        -(HALF_TURN as int) < d <= HALF_TURN as int,
{
    let raw: i32 = if to >= from {
        (to - from) as i32
    } else {
        (to + FULL_TURN - from) as i32
    };
    if raw > HALF_TURN as i32 {
        raw - FULL_TURN as i32
    } else {
        raw
    }
}

/// The circular distance between two headings.
pub fn circ_dist(a: u32, b: u32) -> (d: u32)
    requires
        angle_wf(a),
        angle_wf(b),
    ensures
        d == spec_circ_dist(a, b),
        d <= HALF_TURN,
{
    let s = signed_delta(a, b);
    if s < 0 {
        (-s) as u32
    } else {
        s as u32
    }
}

/// Rotate a heading by a signed amount of at most one turn, wrapping back
/// into `[0, FULL_TURN)`. This is the player's manual rotation: the input
/// factor picks the sign and the rotation speed times the frame time gives
/// the magnitude.
pub fn rotate_heading(heading: u32, step: i32) -> (h: u32)
    requires
        angle_wf(heading),
        -(FULL_TURN as int) <= step <= FULL_TURN as int,
    ensures
        angle_wf(h),
        h == spec_norm_angle(heading as int + step),
{
    let sum: i64 = heading as i64 + step as i64;
    if sum < 0 {
        (sum + FULL_TURN as i64) as u32
    } else if sum >= FULL_TURN as i64 {
        (sum - FULL_TURN as i64) as u32
    } else {
        sum as u32
    }
}

/// One rotation-limited seek step: turn from `heading` toward `target` by at
/// most `max_turn` millidegrees, in whichever direction is shorter. The
/// remaining angle to the goal shrinks by exactly `max_turn`, or reaches
/// zero when the goal was already within the cap.
pub fn turn_toward(heading: u32, target: u32, max_turn: u32) -> (h: u32)
    requires
        angle_wf(heading),
        angle_wf(target),
    ensures
        angle_wf(h),
        h == spec_turn_toward(heading, target, max_turn),
        spec_circ_dist(heading, target) <= max_turn ==> h == target,
        spec_circ_dist(h, target) == if spec_circ_dist(heading, target) <= max_turn as int {
            0int
        } else {
            spec_circ_dist(heading, target) - max_turn
        },
{
    let d = signed_delta(heading, target);
    let capped_max: i32 = if max_turn > HALF_TURN {
        HALF_TURN as i32
    } else {
        max_turn as i32
    };
    let step: i32 = if d < -capped_max {
        -capped_max
    } else if d > capped_max {
        capped_max
    } else {
        d
    };
    let h = rotate_heading(heading, step);
    proof {
        lemma_turn_toward_correct(heading, target, max_turn, step as int, h as int);
    }
    h
}

/// Turning by the clamped shortest step lands where `spec_turn_toward` says,
/// and eats exactly `min(max_turn, distance)` of the remaining angle.
proof fn lemma_turn_toward_correct(heading: u32, target: u32, max_turn: u32, step: int, h: int)
    requires
        angle_wf(heading),
        angle_wf(target),
        step == spec_turn_step(heading, target, max_turn),
        h == spec_norm_angle(heading as int + step),
        0 <= h < FULL_TURN as int,
    ensures
        h == spec_turn_toward(heading, target, max_turn),
        spec_circ_dist(heading, target) <= max_turn ==> h == target,
        spec_circ_dist(h as u32, target) == if spec_circ_dist(heading, target) <= max_turn as int {
            0int
        } else {
            spec_circ_dist(heading, target) - max_turn
        },
{
    let d = spec_signed_delta(heading, target);
    assert(spec_signed_delta(h as u32, target) == d - step);
}

/// The player's manual rotation for one frame: the left and right keys give
/// the turn direction (they cancel when both are held) and `turn_amount` is
/// the rotation speed times the frame time, in millidegrees.
pub fn player_turn(heading: u32, left: bool, right: bool, turn_amount: u32) -> (h: u32)
    requires
        angle_wf(heading),
        turn_amount <= FULL_TURN,
    ensures
        angle_wf(h),
        h == spec_norm_angle(
            heading + ((if left { 1int } else { 0int }) - (if right { 1int } else { 0int }))
                * turn_amount,
        ),
{
    let step: i32 = if left && !right {
        turn_amount as i32
    } else if right && !left {
        -(turn_amount as i32)
    } else {
        0
    };
    proof {
        let f = (if left { 1int } else { 0int }) - (if right { 1int } else { 0int });
        assert(f == 1 ==> f * turn_amount == turn_amount);
        assert(f == -1 ==> f * turn_amount == -(turn_amount as int));
        assert(f == 0 ==> f * turn_amount == 0);
    }
    rotate_heading(heading, step)
}

/// Keyboard state mapped to steering factors, exactly as the player-movement
/// system reads it: turning left and right cancel, thrust is all or nothing.
pub fn movement_factors(left: bool, right: bool, thrust: bool) -> (r: (i32, i32))
    ensures
        r.0 == (if left { 1int } else { 0int }) - (if right { 1int } else { 0int }),
        r.1 == if thrust { 1int } else { 0int },
{
    let rot: i32 = (if left { 1 } else { 0 }) - (if right { 1 } else { 0 });
    let mov: i32 = if thrust { 1 } else { 0 };
    (rot, mov)
}

} // verus!
