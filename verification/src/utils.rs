//! Angle arithmetic shared by the control mapper.
//!
//! Angles are in hundredths of a degree, normalised to the half-open range
//! `(-HALF_TURN, HALF_TURN]`, matching a physics engine rotation read back as
//! an angle in `(-pi, pi]`.

use vstd::prelude::*;

use crate::constants::HALF_TURN;
use crate::constants::QUARTER_TURN;

verus! {

/// True of an angle the control mapper accepts: at most half a turn away
/// from upright on either side.
pub open spec fn spec_angle_in_range(angle: int) -> bool {
    -HALF_TURN <= angle <= HALF_TURN
}

/// The same facing turned by half a turn, normalised back into
/// `(-HALF_TURN, HALF_TURN]`.
pub open spec fn spec_turn_around(angle: int) -> int {
    if angle > 0 {
        angle - HALF_TURN
    } else {
        angle + HALF_TURN
    }
}

/// Turns a facing by half a turn.
pub fn turn_around(angle: i32) -> (r: i32)
    requires
        spec_angle_in_range(angle as int),
    ensures
        r == spec_turn_around(angle as int),
        spec_angle_in_range(r as int),
{
    if angle > 0 {
        angle - HALF_TURN
    } else {
        angle + HALF_TURN
    }
}

/// The facing a boost impulse is applied along, given the chassis rotation:
/// the rotation itself while it is within a quarter turn of upright, and the
/// half-turned facing once it is past a quarter turn either way, so that the
/// boost always pushes toward the nose the vehicle visually faces.
pub open spec fn spec_boost_heading(angle: int) -> int {
    if angle > QUARTER_TURN || angle < -QUARTER_TURN {
        spec_turn_around(angle)
    } else {
        angle
    }
}

/// Computes the boost facing for a chassis rotation.
pub fn boost_heading(angle: i32) -> (r: i32)
    requires
        spec_angle_in_range(angle as int),
    ensures
        r == spec_boost_heading(angle as int),
        spec_angle_in_range(r as int),
{
    if angle > QUARTER_TURN || angle < -QUARTER_TURN {
        turn_around(angle)
    } else {
        angle
    }
}

/// The boost facing keeps the untransformed rotation exactly on rotations
/// within a quarter turn of upright, boundary included, and is the half-turn
/// flip exactly on rotations past a quarter turn either way.
pub proof fn lemma_boost_heading_branches(angle: int)
    requires
        spec_angle_in_range(angle),
    ensures
        -QUARTER_TURN <= angle <= QUARTER_TURN ==> spec_boost_heading(angle) == angle,
        angle > QUARTER_TURN || angle < -QUARTER_TURN ==> spec_boost_heading(angle)
            == spec_turn_around(angle),
{
}

} // verus!
