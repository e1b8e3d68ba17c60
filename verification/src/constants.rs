//! Fixed tuning values of the vehicle rig.
//!
//! The model works on plain integers. Lengths are in hundredths of a metre,
//! angles in hundredths of a degree, and the damping / mass / friction
//! parameters are scaled by one hundred. Torque and impulse magnitudes are
//! unit-free tuning numbers handed through to the physics engine unchanged.

use vstd::prelude::*;

verus! {

/// Which way a turn command points.
#[derive(Clone, Copy, PartialEq, Eq, Structural, Debug)]
pub enum Side {
    Left,
    Right,
}

/// Chassis box height, hundredths of a metre.
pub const HEIGHT: i64 = 160;
/// Chassis box length, hundredths of a metre.
pub const LENGTH: i64 = 1000;
/// Wheel disc radius, hundredths of a metre.
pub const WHEEL_RADIUS: i64 = 180;
/// Front wheel pin point, relative to the chassis centre.
pub const WHEEL_FRONT_X_OFFSET: i64 = 340;
/// Front wheel pin point, relative to the chassis centre.
pub const WHEEL_FRONT_Y_OFFSET: i64 = 0;
/// Back wheel pin point, relative to the chassis centre.
pub const WHEEL_BACK_X_OFFSET: i64 = -340;
/// Back wheel pin point, relative to the chassis centre.
pub const WHEEL_BACK_Y_OFFSET: i64 = 0;

/// Linear damping of every rig body, hundredths.
pub const LINEAR_DAMPING: i64 = 50;
/// Angular damping of every rig body, hundredths.
pub const ANGULAR_DAMPING: i64 = 500;
/// Extra mass given to every rig body so that behaviour does not depend on
/// collider-derived mass, hundredths of a mass unit.
pub const ADDITIONAL_MASS: i64 = 5000;
/// Contact friction of a wheel collider, hundredths.
pub const WHEEL_FRICTION: i64 = 800;
/// Contact friction of the chassis collider, hundredths (the engine default).
pub const CHASSIS_FRICTION: i64 = 50;

/// Rolling torque applied to each wheel while a turn command is held on the
/// ground.
pub const DRIVE_TORQUE: i64 = 5000;
/// Torque impulse applied to the chassis while a turn command is held in the
/// air.
pub const SPIN_TORQUE: i64 = 100;
/// Impulse applied along the chassis facing by a boost command. Negative:
/// the facing axis is the rotated down axis of a y-down world.
pub const BOOST_FORCE: i64 = -300;
/// Vertical component of the jump impulse. Negative is up in a y-down world.
pub const JUMP_IMPULSE_Y: i64 = -6000;
/// Horizontal component of the jump impulse.
pub const JUMP_IMPULSE_X: i64 = 0;

/// A quarter turn, hundredths of a degree.
pub const QUARTER_TURN: i32 = 9000;
/// A half turn, hundredths of a degree.
pub const HALF_TURN: i32 = 18000;

/// Largest coordinate magnitude the rig planner accepts, hundredths of a
/// metre. Far beyond any arena; keeps every planned offset inside `i64`.
pub const MAX_COORD: i64 = 1000000000;

/// The sign a turn side gives to a torque.
pub open spec fn spec_side_sign(side: Side) -> int {
    match side {
        Side::Left => -1,
        Side::Right => 1,
    }
}

/// Returns the torque sign of a turn side.
pub fn side_sign(side: Side) -> (r: i64)
    ensures
        r == spec_side_sign(side),
{
    match side {
        Side::Left => -1,
        Side::Right => 1,
    }
}

} // verus!
