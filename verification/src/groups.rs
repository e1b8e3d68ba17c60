//! The collision filtering scheme of the rig.
//!
//! Every collider carries a membership mask and a filter mask, and the
//! physics engine lets two colliders touch only when each one's memberships
//! share a bit with the other's filter. The masks chosen here keep the three
//! vehicle parts from ever touching one another, let only the chassis hull
//! reach the ball, and let every moving piece rest on the ground and walls.

use vstd::prelude::*;

verus! {

/// Membership bit of the ground and the walls (their masks are all-bits by
/// default; this is the bit the vehicle filters name them by).
pub const SURFACE_BIT: u32 = 0b0001;
/// Membership mask of the chassis hull.
pub const CHASSIS_MEMBERSHIPS: u32 = 0b0100;
/// Filter mask of the chassis hull: surfaces, other chassis hulls, the ball.
pub const CHASSIS_FILTER: u32 = 0b1101;
/// Membership mask of a wheel.
pub const WHEEL_MEMBERSHIPS: u32 = 0b0010;
/// Filter mask of a wheel: surfaces only.
pub const WHEEL_FILTER: u32 = 0b0001;
/// Membership mask of the ball.
pub const BALL_MEMBERSHIPS: u32 = 0b1000;
/// Filter mask of the ball: surfaces, chassis hulls, other balls.
pub const BALL_FILTER: u32 = 0b1101;

/// A collider's interaction masks: the groups it belongs to and the groups
/// it accepts contacts with.
#[derive(Clone, Copy, PartialEq, Eq, Structural, Debug)]
pub struct CollisionGroups {
    /// Groups this collider is a member of, one bit per group.
    pub memberships: u32,
    /// Groups this collider accepts contacts with, one bit per group.
    pub filter: u32,
}

/// The pairwise filter rule of the physics engine: a contact between two
/// colliders is allowed exactly when each one's memberships share a bit with
/// the other's filter.
pub open spec fn spec_allows_interaction(a: CollisionGroups, b: CollisionGroups) -> bool {
    (a.memberships & b.filter) != 0 && (b.memberships & a.filter) != 0
}

impl CollisionGroups {
    /// Applies the pairwise filter rule.
    pub fn allows_interaction(&self, other: &CollisionGroups) -> (r: bool)
        ensures
            r == spec_allows_interaction(*self, *other),
    {
        (self.memberships & other.filter) != 0 && (other.memberships & self.filter) != 0
    }
}

/// The masks of the chassis hull.
pub open spec fn spec_chassis_groups() -> CollisionGroups {
    CollisionGroups { memberships: CHASSIS_MEMBERSHIPS, filter: CHASSIS_FILTER }
}

/// The masks of a wheel.
pub open spec fn spec_wheel_groups() -> CollisionGroups {
    CollisionGroups { memberships: WHEEL_MEMBERSHIPS, filter: WHEEL_FILTER }
}

/// The masks of the ball.
pub open spec fn spec_ball_groups() -> CollisionGroups {
    CollisionGroups { memberships: BALL_MEMBERSHIPS, filter: BALL_FILTER }
}

/// The masks of the ground and the walls: members of the surface group,
/// accepting everything, as the engine's default masks do.
pub open spec fn spec_surface_groups() -> CollisionGroups {
    CollisionGroups { memberships: u32::MAX, filter: u32::MAX }
}

/// Returns the masks of the chassis hull.
pub fn chassis_groups() -> (r: CollisionGroups)
    ensures
        r == spec_chassis_groups(),
{
    CollisionGroups { memberships: CHASSIS_MEMBERSHIPS, filter: CHASSIS_FILTER }
}

/// Returns the masks of a wheel.
pub fn wheel_groups() -> (r: CollisionGroups)
    ensures
        r == spec_wheel_groups(),
{
    CollisionGroups { memberships: WHEEL_MEMBERSHIPS, filter: WHEEL_FILTER }
}

/// Returns the masks of the ball.
pub fn ball_groups() -> (r: CollisionGroups)
    ensures
        r == spec_ball_groups(),
{
    CollisionGroups { memberships: BALL_MEMBERSHIPS, filter: BALL_FILTER }
}

/// Returns the masks of the ground and the walls.
pub fn surface_groups() -> (r: CollisionGroups)
    ensures
        r == spec_surface_groups(),
{
    CollisionGroups { memberships: u32::MAX, filter: u32::MAX }
}

/// No two parts of the vehicle can ever touch one another: the filter rule
/// refuses the chassis against a wheel and a wheel against the other wheel,
/// however close the engine resolves them.
pub proof fn lemma_vehicle_parts_never_self_collide()
    ensures
        !spec_allows_interaction(spec_chassis_groups(), spec_wheel_groups()),
        !spec_allows_interaction(spec_wheel_groups(), spec_wheel_groups()),
{
    assert(0b0010u32 & 0b1101u32 == 0) by (bit_vector);
    assert(0b0010u32 & 0b0001u32 == 0) by (bit_vector);
}

/// Ball contact force reaches the vehicle only through the chassis hull: the
/// filter rule allows chassis against ball and refuses wheel against ball.
pub proof fn lemma_ball_touches_chassis_only()
    ensures
        spec_allows_interaction(spec_chassis_groups(), spec_ball_groups()),
        !spec_allows_interaction(spec_wheel_groups(), spec_ball_groups()),
{
    assert(0b0100u32 & 0b1101u32 != 0) by (bit_vector);
    assert(0b1000u32 & 0b1101u32 != 0) by (bit_vector);
    assert(0b1000u32 & 0b0001u32 == 0) by (bit_vector);
}

/// Every moving piece can rest on the ground and the walls: the filter rule
/// allows the chassis, the wheels and the ball against a surface.
pub proof fn lemma_everything_touches_surfaces()
    ensures
        spec_allows_interaction(spec_chassis_groups(), spec_surface_groups()),
        spec_allows_interaction(spec_wheel_groups(), spec_surface_groups()),
        spec_allows_interaction(spec_ball_groups(), spec_surface_groups()),
{
    assert(0b0100u32 & 0xffffffffu32 != 0) by (bit_vector);
    assert(0xffffffffu32 & 0b1101u32 != 0) by (bit_vector);
    assert(0b0010u32 & 0xffffffffu32 != 0) by (bit_vector);
    assert(0xffffffffu32 & 0b0001u32 != 0) by (bit_vector);
    assert(0b1000u32 & 0xffffffffu32 != 0) by (bit_vector);
}

} // verus!
