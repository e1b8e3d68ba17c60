//! The vehicle rig and its control and state model.
//!
//! A car is three linked rigid bodies: a box chassis and two disc wheels
//! pinned to it by point constraints. The physics engine owns the bodies;
//! the car owns only tokens into it. Planning the rig, classifying the car
//! as grounded or airborne from wheel contacts, and mapping player commands
//! to physics actions all happen here, on plain values.

use vstd::prelude::*;

use crate::constants::ADDITIONAL_MASS;
use crate::constants::ANGULAR_DAMPING;
use crate::constants::BOOST_FORCE;
use crate::constants::CHASSIS_FRICTION;
use crate::constants::DRIVE_TORQUE;
use crate::constants::HEIGHT;
use crate::constants::JUMP_IMPULSE_X;
use crate::constants::JUMP_IMPULSE_Y;
use crate::constants::LENGTH;
use crate::constants::LINEAR_DAMPING;
use crate::constants::MAX_COORD;
use crate::constants::QUARTER_TURN;
use crate::constants::SPIN_TORQUE;
use crate::constants::Side;
use crate::constants::WHEEL_BACK_X_OFFSET;
use crate::constants::WHEEL_BACK_Y_OFFSET;
use crate::constants::WHEEL_FRICTION;
use crate::constants::WHEEL_FRONT_X_OFFSET;
use crate::constants::WHEEL_FRONT_Y_OFFSET;
use crate::constants::WHEEL_RADIUS;
use crate::constants::spec_side_sign;
use crate::constants::side_sign;
use crate::groups::CollisionGroups;
use crate::groups::chassis_groups;
use crate::groups::spec_chassis_groups;
use crate::groups::spec_wheel_groups;
use crate::groups::wheel_groups;
use crate::physics::BodyRef;
use crate::physics::ColliderRef;
use crate::physics::JointRef;
use crate::physics::contact_pair_active;
use crate::physics::spec_pair_active;
use crate::utils::boost_heading;
use crate::utils::spec_angle_in_range;
use crate::utils::spec_boost_heading;
use crate::utils::spec_turn_around;

verus! {

/// A 2D vector of the simulation space, hundredths of a metre.
#[derive(Clone, Copy, PartialEq, Eq, Structural, Debug)]
pub struct Vec2 {
    /// Horizontal component; positive points right.
    pub x: i64,
    /// Vertical component; positive points down.
    pub y: i64,
}

/// Componentwise sum, exact under the coordinate bound.
pub open spec fn spec_vadd(a: Vec2, b: Vec2) -> Vec2 {
    Vec2 { x: (a.x + b.x) as i64, y: (a.y + b.y) as i64 }
}

/// True of a vector every planner input must satisfy: both coordinates
/// within the coordinate bound, so that adding a wheel offset cannot
/// overflow.
pub open spec fn spec_in_bounds(v: Vec2) -> bool {
    &&& -MAX_COORD <= v.x <= MAX_COORD
    &&& -MAX_COORD <= v.y <= MAX_COORD
}

impl Vec2 {
    /// Adds two vectors.
    pub fn vadd(self, other: Vec2) -> (r: Vec2)
        requires
            spec_in_bounds(self),
            spec_in_bounds(other),
        ensures
            r == spec_vadd(self, other),
            r.x == self.x + other.x,
            r.y == self.y + other.y,
    {
        Vec2 { x: self.x + other.x, y: self.y + other.y }
    }
}

/// The vehicle's two-state ground/air classification.
#[derive(Clone, Copy, PartialEq, Eq, Structural, Debug)]
pub enum CarStates {
    /// At least one wheel is off the ground.
    Air,
    /// Both wheels are in active contact with the ground.
    Ground,
}

/// The closed set of part roles a car is made of.
#[derive(Clone, Copy, PartialEq, Eq, Structural, Debug)]
pub enum CarComponents {
    /// The front wheel.
    WheelFront,
    /// The back wheel.
    WheelBack,
    /// The chassis hull.
    CarBody,
}

/// Which kind of part to plan or build.
#[derive(Clone, Copy, PartialEq, Eq, Structural, Debug)]
pub enum SelectPart {
    /// The box-shaped chassis.
    Body,
    /// A disc-shaped wheel.
    Wheel,
}

/// One physical part of the car: the engine tokens of its rigid body and of
/// its single collider, and the constraint pinning it, once one exists.
#[derive(Clone, Copy, Debug)]
pub enum CarPart {
    /// The chassis hull.
    Body {
        /// Token of the part's rigid body.
        body_handle: BodyRef,
        /// Token of the part's collider.
        coll_handle: ColliderRef,
        /// Token of the constraint pinning this part, if any.
        joint_handle: Option<JointRef>,
    },
    /// A wheel.
    Wheel {
        /// Token of the part's rigid body.
        body_handle: BodyRef,
        /// Token of the part's collider.
        coll_handle: ColliderRef,
        /// Token of the constraint pinning this part, if any.
        joint_handle: Option<JointRef>,
    },
}

impl CarPart {
    /// The part's rigid-body token.
    pub open spec fn spec_body_handle(self) -> BodyRef {
        match self {
            CarPart::Body { body_handle, .. } => body_handle,
            CarPart::Wheel { body_handle, .. } => body_handle,
        }
    }

    /// The part's collider token.
    pub open spec fn spec_coll_handle(self) -> ColliderRef {
        match self {
            CarPart::Body { coll_handle, .. } => coll_handle,
            CarPart::Wheel { coll_handle, .. } => coll_handle,
        }
    }

    /// Builds the part record of a freshly inserted body and collider, not
    /// yet pinned by any constraint.
    pub fn new(shape: SelectPart, body_handle: BodyRef, coll_handle: ColliderRef) -> (r: CarPart)
        ensures
            r == spec_new_part(shape, body_handle, coll_handle),
    {
        match shape {
            SelectPart::Body => CarPart::Body { body_handle, coll_handle, joint_handle: None },
            SelectPart::Wheel => CarPart::Wheel { body_handle, coll_handle, joint_handle: None },
        }
    }

    /// Returns the part's rigid-body token.
    pub fn get_body_handle(&self) -> (r: BodyRef)
        ensures
            r == self.spec_body_handle(),
    {
        match self {
            CarPart::Body { body_handle, .. } => *body_handle,
            CarPart::Wheel { body_handle, .. } => *body_handle,
        }
    }

    /// Returns the part's collider token.
    pub fn get_coll_handle(&self) -> (r: ColliderRef)
        ensures
            r == self.spec_coll_handle(),
    {
        match self {
            CarPart::Body { coll_handle, .. } => *coll_handle,
            CarPart::Wheel { coll_handle, .. } => *coll_handle,
        }
    }
}

/// The part record `CarPart::new` builds: the variant follows the shape, the
/// tokens are stored as given, and no constraint is attached yet.
pub open spec fn spec_new_part(
    shape: SelectPart,
    body_handle: BodyRef,
    coll_handle: ColliderRef,
) -> CarPart {
    match shape {
        SelectPart::Body => CarPart::Body { body_handle, coll_handle, joint_handle: None },
        SelectPart::Wheel => CarPart::Wheel { body_handle, coll_handle, joint_handle: None },
    }
}

/// The collider shape of a planned part.
#[derive(Clone, Copy, PartialEq, Eq, Structural, Debug)]
pub enum PartShape {
    /// A rectangle given by its half-extents.
    Cuboid {
        /// Half of the box length, hundredths of a metre.
        half_length: i64,
        /// Half of the box height, hundredths of a metre.
        half_height: i64,
    },
    /// A disc given by its radius.
    Ball {
        /// The disc radius, hundredths of a metre.
        radius: i64,
    },
}

/// Everything the physics engine must be told to create one part: a dynamic
/// body at a position with damping and extra mass, and one collider with a
/// shape, friction and interaction masks.
#[derive(Clone, Copy, PartialEq, Eq, Structural, Debug)]
pub struct PartPlan {
    /// World position the body spawns at.
    pub position: Vec2,
    /// Shape of the part's single collider.
    pub shape: PartShape,
    /// Interaction masks of the collider.
    pub groups: CollisionGroups,
    /// Linear damping of the body, hundredths.
    pub linear_damping: i64,
    /// Angular damping of the body, hundredths.
    pub angular_damping: i64,
    /// Extra mass of the body, hundredths of a mass unit.
    pub additional_mass: i64,
    /// Contact friction of the collider, hundredths.
    pub friction: i64,
}

/// The plan of one part. A body part becomes a box of the given half-extents
/// with the chassis masks; a wheel becomes a disc whose radius is the first
/// half-extent, with the wheel masks and the wheel friction. Every part gets
/// the same damping and extra mass.
pub open spec fn spec_plan_part(shape: SelectPart, position: Vec2, half_extents: Vec2) -> PartPlan {
    match shape {
        SelectPart::Body => PartPlan {
            position,
            shape: PartShape::Cuboid { half_length: half_extents.x, half_height: half_extents.y },
            groups: spec_chassis_groups(),
            linear_damping: LINEAR_DAMPING,
            angular_damping: ANGULAR_DAMPING,
            additional_mass: ADDITIONAL_MASS,
            friction: CHASSIS_FRICTION,
        },
        SelectPart::Wheel => PartPlan {
            position,
            shape: PartShape::Ball { radius: half_extents.x },
            groups: spec_wheel_groups(),
            linear_damping: LINEAR_DAMPING,
            angular_damping: ANGULAR_DAMPING,
            additional_mass: ADDITIONAL_MASS,
            friction: WHEEL_FRICTION,
        },
    }
}

/// Plans one part of the rig.
pub fn plan_part(shape: SelectPart, position: Vec2, half_extents: Vec2) -> (r: PartPlan)
    ensures
        r == spec_plan_part(shape, position, half_extents),
{
    match shape {
        SelectPart::Body => PartPlan {
            position,
            shape: PartShape::Cuboid { half_length: half_extents.x, half_height: half_extents.y },
            groups: chassis_groups(),
            linear_damping: LINEAR_DAMPING,
            angular_damping: ANGULAR_DAMPING,
            additional_mass: ADDITIONAL_MASS,
            friction: CHASSIS_FRICTION,
        },
        SelectPart::Wheel => PartPlan {
            position,
            shape: PartShape::Ball { radius: half_extents.x },
            groups: wheel_groups(),
            linear_damping: LINEAR_DAMPING,
            angular_damping: ANGULAR_DAMPING,
            additional_mass: ADDITIONAL_MASS,
            friction: WHEEL_FRICTION,
        },
    }
}

/// One point constraint of the rig: a local point of the wheel body pinned
/// to a local point of the chassis body, free to rotate about the pin.
#[derive(Clone, Copy, PartialEq, Eq, Structural, Debug)]
pub struct JointPlan {
    /// The pinned local point of the wheel: its body origin.
    pub wheel_anchor: Vec2,
    /// The pinned local point of the chassis: the wheel's designed offset.
    pub chassis_anchor: Vec2,
}

/// Everything the physics engine must be told to assemble one car: three
/// parts, then one point constraint per wheel, inserted after both bodies of
/// the constraint exist.
#[derive(Clone, Copy, PartialEq, Eq, Structural, Debug)]
pub struct RigPlan {
    /// The chassis part.
    pub chassis: PartPlan,
    /// The front wheel part.
    pub wheel_front: PartPlan,
    /// The back wheel part.
    pub wheel_back: PartPlan,
    /// The constraint pinning the front wheel to the chassis.
    pub front_joint: JointPlan,
    /// The constraint pinning the back wheel to the chassis.
    pub back_joint: JointPlan,
}

/// The front wheel's designed offset from the chassis centre.
pub open spec fn spec_front_offset() -> Vec2 {
    Vec2 { x: WHEEL_FRONT_X_OFFSET, y: WHEEL_FRONT_Y_OFFSET }
}

/// The back wheel's designed offset from the chassis centre.
pub open spec fn spec_back_offset() -> Vec2 {
    Vec2 { x: WHEEL_BACK_X_OFFSET, y: WHEEL_BACK_Y_OFFSET }
}

/// The full rig plan of a car spawned at a position: the chassis box at the
/// spawn point, each wheel disc at the spawn point plus its fixed offset,
/// and each wheel's origin pinned to that same offset on the chassis.
pub open spec fn spec_plan_rig(spawn: Vec2) -> RigPlan {
    RigPlan {
        chassis: spec_plan_part(
            SelectPart::Body,
            spawn,
            Vec2 { x: (LENGTH / 2) as i64, y: (HEIGHT / 2) as i64 },
        ),
        wheel_front: spec_plan_part(
            SelectPart::Wheel,
            spec_vadd(spawn, spec_front_offset()),
            Vec2 { x: WHEEL_RADIUS, y: 0 },
        ),
        wheel_back: spec_plan_part(
            SelectPart::Wheel,
            spec_vadd(spawn, spec_back_offset()),
            Vec2 { x: WHEEL_RADIUS, y: 0 },
        ),
        front_joint: JointPlan { wheel_anchor: Vec2 { x: 0, y: 0 }, chassis_anchor: spec_front_offset() },
        back_joint: JointPlan { wheel_anchor: Vec2 { x: 0, y: 0 }, chassis_anchor: spec_back_offset() },
    }
}

/// Plans the whole rig for a spawn position.
pub fn plan_rig(spawn: Vec2) -> (r: RigPlan)
    requires
        spec_in_bounds(spawn),
    ensures
        r == spec_plan_rig(spawn),
{
    let chassis = plan_part(SelectPart::Body, spawn, Vec2 { x: LENGTH / 2, y: HEIGHT / 2 });

    let front_offset = Vec2 { x: WHEEL_FRONT_X_OFFSET, y: WHEEL_FRONT_Y_OFFSET };
    let wheel_front_position = spawn.vadd(front_offset);
    let wheel_front = plan_part(
        SelectPart::Wheel,
        wheel_front_position,
        Vec2 { x: WHEEL_RADIUS, y: 0 },
    );

    let back_offset = Vec2 { x: WHEEL_BACK_X_OFFSET, y: WHEEL_BACK_Y_OFFSET };
    let wheel_back_position = spawn.vadd(back_offset);
    let wheel_back = plan_part(
        SelectPart::Wheel,
        wheel_back_position,
        Vec2 { x: WHEEL_RADIUS, y: 0 },
    );

    RigPlan {
        chassis,
        wheel_front,
        wheel_back,
        front_joint: JointPlan { wheel_anchor: Vec2 { x: 0, y: 0 }, chassis_anchor: front_offset },
        back_joint: JointPlan { wheel_anchor: Vec2 { x: 0, y: 0 }, chassis_anchor: back_offset },
    }
}

/// The planner puts the chassis exactly at the spawn point and each wheel
/// exactly at the spawn point plus its fixed configured offset, and pins
/// each wheel's origin to that same offset on the chassis.
pub proof fn lemma_rig_geometry(spawn: Vec2)
    requires
        spec_in_bounds(spawn),
    ensures
        spec_plan_rig(spawn).chassis.position == spawn,
        spec_plan_rig(spawn).wheel_front.position.x == spawn.x + WHEEL_FRONT_X_OFFSET,
        spec_plan_rig(spawn).wheel_front.position.y == spawn.y + WHEEL_FRONT_Y_OFFSET,
        spec_plan_rig(spawn).wheel_back.position.x == spawn.x + WHEEL_BACK_X_OFFSET,
        spec_plan_rig(spawn).wheel_back.position.y == spawn.y + WHEEL_BACK_Y_OFFSET,
        spec_plan_rig(spawn).front_joint.chassis_anchor == spec_front_offset(),
        spec_plan_rig(spawn).back_joint.chassis_anchor == spec_back_offset(),
        spec_plan_rig(spawn).front_joint.wheel_anchor == (Vec2 { x: 0, y: 0 }),
        spec_plan_rig(spawn).back_joint.wheel_anchor == (Vec2 { x: 0, y: 0 }),
{
}

/// The engine tokens of one freshly created part: its rigid body and its
/// single collider.
#[derive(Clone, Copy, PartialEq, Eq, Structural, Debug)]
pub struct PartHandles {
    /// Token of the part's rigid body.
    pub body: BodyRef,
    /// Token of the part's collider.
    pub collider: ColliderRef,
}

/// The assembled vehicle: its last-known position, its three parts keyed by
/// role, the two wheel constraints it keeps for lifetime bookkeeping, and
/// its ground/air state.
pub struct Car {
    position: Vec2,
    car_body: CarPart,
    wheel_front: CarPart,
    wheel_back: CarPart,
    joint_handles: Vec<JointRef>,
    state: CarStates,
}

impl Car {
    /// The car's ground/air state.
    pub closed spec fn spec_state(&self) -> CarStates {
        self.state
    }

    /// The car's last-known position.
    pub closed spec fn spec_position(&self) -> Vec2 {
        self.position
    }

    /// The part filling a role.
    pub closed spec fn spec_part(&self, component: CarComponents) -> CarPart {
        match component {
            CarComponents::WheelFront => self.wheel_front,
            CarComponents::WheelBack => self.wheel_back,
            CarComponents::CarBody => self.car_body,
        }
    }

    /// The wheel constraints the car keeps for lifetime bookkeeping.
    pub closed spec fn spec_joint_handles(&self) -> Seq<JointRef> {
        self.joint_handles@
    }

    /// Well-formedness: each role is filled by a part of its kind, and both
    /// wheel constraints are recorded.
    pub closed spec fn wf(&self) -> bool {
        &&& self.car_body is Body
        &&& self.wheel_front is Wheel
        &&& self.wheel_back is Wheel
        &&& self.joint_handles@.len() == 2
    }

    /// Assembles the car once the engine has created all three parts and
    /// both wheel constraints, per the rig plan of the spawn position. The
    /// car starts grounded.
    pub fn new(
        position: Vec2,
        chassis: PartHandles,
        wheel_front: PartHandles,
        wheel_back: PartHandles,
        front_joint: JointRef,
        back_joint: JointRef,
    ) -> (car: Car)
        ensures
            car.wf(),
            car.spec_state() == CarStates::Ground,
            car.spec_position() == position,
            car.spec_part(CarComponents::CarBody) == spec_new_part(
                SelectPart::Body,
                chassis.body,
                chassis.collider,
            ),
            car.spec_part(CarComponents::WheelFront) == spec_new_part(
                SelectPart::Wheel,
                wheel_front.body,
                wheel_front.collider,
            ),
            car.spec_part(CarComponents::WheelBack) == spec_new_part(
                SelectPart::Wheel,
                wheel_back.body,
                wheel_back.collider,
            ),
            car.spec_joint_handles() == seq![front_joint, back_joint],
    {
        let car_body = CarPart::new(SelectPart::Body, chassis.body, chassis.collider);
        let wheel_front_part = CarPart::new(SelectPart::Wheel, wheel_front.body, wheel_front.collider);
        let wheel_back_part = CarPart::new(SelectPart::Wheel, wheel_back.body, wheel_back.collider);

        let mut joint_handles: Vec<JointRef> = Vec::new();
        joint_handles.push(front_joint);
        joint_handles.push(back_joint);

        let car = Car {
            position,
            car_body,
            wheel_front: wheel_front_part,
            wheel_back: wheel_back_part,
            joint_handles,
            state: CarStates::Ground,
        };
        proof {
            assert(car.joint_handles@ =~= seq![front_joint, back_joint]);
        }
        car
    }

    /// Returns the part filling a role.
    pub fn get_part(&self, component: CarComponents) -> (r: &CarPart)
        ensures
            *r == self.spec_part(component),
    {
        match component {
            CarComponents::WheelFront => &self.wheel_front,
            CarComponents::WheelBack => &self.wheel_back,
            CarComponents::CarBody => &self.car_body,
        }
    }

    /// Returns the car's current ground/air state.
    pub fn get_car_state(&self) -> (r: CarStates)
        ensures
            r == self.spec_state(),
    {
        self.state
    }

    /// Writes the state the classifier derived. Everything else about the
    /// car is untouched.
    pub fn set_car_state(&mut self, new_state: CarStates)
        ensures
            final(self).spec_state() == new_state,
            final(self).spec_position() == old(self).spec_position(),
            forall|c: CarComponents| final(self).spec_part(c) == old(self).spec_part(c),
            final(self).spec_joint_handles() == old(self).spec_joint_handles(),
            final(self).wf() == old(self).wf(),
    {
        self.state = new_state;
    }

    /// Asks the narrow phase whether both wheels are in active contact with
    /// the given collider: true exactly when the contact classification of
    /// the two wheel contacts is grounded.
    pub fn query_wheels_collision(
        &self,
        other_coll_handle: ColliderRef,
        narrow_phase: &rapier2d::geometry::NarrowPhase,
    ) -> (r: bool)
        ensures
            r == (spec_pair_active(
                *narrow_phase,
                self.spec_part(CarComponents::WheelFront).spec_coll_handle(),
                other_coll_handle,
            ) && spec_pair_active(
                *narrow_phase,
                self.spec_part(CarComponents::WheelBack).spec_coll_handle(),
                other_coll_handle,
            )),
            r == (spec_classify(
                spec_pair_active(
                    *narrow_phase,
                    self.spec_part(CarComponents::WheelFront).spec_coll_handle(),
                    other_coll_handle,
                ),
                spec_pair_active(
                    *narrow_phase,
                    self.spec_part(CarComponents::WheelBack).spec_coll_handle(),
                    other_coll_handle,
                ),
            ) == CarStates::Ground),
    {
        let wheel_front_coll = self.get_part(CarComponents::WheelFront).get_coll_handle();
        let wheel_back_coll = self.get_part(CarComponents::WheelBack).get_coll_handle();

        let front_contact = contact_pair_active(narrow_phase, wheel_front_coll, other_coll_handle);
        let back_contact = contact_pair_active(narrow_phase, wheel_back_coll, other_coll_handle);

        let state = classify_contacts(front_contact, back_contact);
        state == CarStates::Ground
    }
}

/// One physics action a control command asks the engine to perform. Actions
/// are fire-and-forget per tick: a held command re-issues its actions every
/// tick, rather than edge-triggering once.
#[derive(Clone, Copy, PartialEq, Eq, Structural, Debug)]
pub enum CarAction {
    /// Apply a continuous torque to a body for this tick.
    Torque {
        /// The body to push.
        body: BodyRef,
        /// Signed torque magnitude.
        torque: i64,
    },
    /// Apply a one-shot impulse with a fixed world-space vector.
    Impulse {
        /// The body to push.
        body: BodyRef,
        /// Horizontal impulse component.
        x: i64,
        /// Vertical impulse component; negative is up.
        y: i64,
    },
    /// Apply a one-shot torque impulse.
    TorqueImpulse {
        /// The body to push.
        body: BodyRef,
        /// Signed torque impulse magnitude.
        torque: i64,
    },
    /// Apply a one-shot impulse along a facing: the unit down axis rotated
    /// by the heading, scaled by the force.
    DirectedImpulse {
        /// The body to push.
        body: BodyRef,
        /// Signed impulse magnitude along the facing.
        force: i64,
        /// The facing, hundredths of a degree.
        heading: i32,
    },
}

/// The command vocabulary the input layer hands the control mapper.
#[derive(Clone, Copy, PartialEq, Eq, Structural, Debug)]
pub enum Command {
    /// Drive on the ground, rotate in the air.
    Turn(Side),
    /// Hop off the ground; nothing in the air.
    Jump,
    /// Push along the chassis facing, in either state.
    Boost,
    /// Diagnostic: torque impulse on the chassis, in either state.
    Spin(Side),
}

/// The actions of a drive command: the same rolling torque on both wheel
/// bodies, producing motion through wheel-ground friction.
pub open spec fn spec_drive_actions(car: Car, torque: i64) -> Seq<CarAction> {
    seq![
        CarAction::Torque {
            body: car.spec_part(CarComponents::WheelFront).spec_body_handle(),
            torque,
        },
        CarAction::Torque {
            body: car.spec_part(CarComponents::WheelBack).spec_body_handle(),
            torque,
        },
    ]
}

/// The action of a jump command: a single fixed upward impulse on the
/// chassis while grounded, and nothing while airborne.
pub open spec fn spec_jump_action(car: Car) -> Option<CarAction> {
    match car.spec_state() {
        CarStates::Ground => Some(
            CarAction::Impulse {
                body: car.spec_part(CarComponents::CarBody).spec_body_handle(),
                x: JUMP_IMPULSE_X,
                y: JUMP_IMPULSE_Y,
            },
        ),
        CarStates::Air => None,
    }
}

/// The action of a boost command: an impulse on the chassis along the boost
/// facing of its current rotation, scaled by the force. Independent of the
/// ground/air state.
pub open spec fn spec_boost_action(car: Car, force: i64, chassis_angle: i32) -> CarAction {
    CarAction::DirectedImpulse {
        body: car.spec_part(CarComponents::CarBody).spec_body_handle(),
        force,
        heading: spec_boost_heading(chassis_angle as int) as i32,
    }
}

/// The action of a spin command: a torque impulse on the chassis.
pub open spec fn spec_spin_action(car: Car, torque: i64) -> CarAction {
    CarAction::TorqueImpulse {
        body: car.spec_part(CarComponents::CarBody).spec_body_handle(),
        torque,
    }
}

/// The actions of one command under the current state: a turn drives the
/// wheels on the ground and spins the chassis in the air, a jump fires only
/// on the ground, and boost and spin ignore the state.
pub open spec fn spec_control(car: Car, command: Command, chassis_angle: i32) -> Seq<CarAction> {
    match command {
        Command::Turn(side) => match car.spec_state() {
            CarStates::Ground => spec_drive_actions(
                car,
                (spec_side_sign(side) * DRIVE_TORQUE) as i64,
            ),
            CarStates::Air => seq![
                spec_spin_action(car, (spec_side_sign(side) * SPIN_TORQUE) as i64),
            ],
        },
        Command::Jump => match spec_jump_action(car) {
            Some(action) => seq![action],
            None => Seq::empty(),
        },
        Command::Boost => seq![spec_boost_action(car, BOOST_FORCE, chassis_angle)],
        Command::Spin(side) => seq![
            spec_spin_action(car, (spec_side_sign(side) * SPIN_TORQUE) as i64),
        ],
    }
}

impl Car {
    /// Asks for the same rolling torque on both wheel bodies: the grounded
    /// drive. Meant to be re-issued every tick while the command is held.
    pub fn drive(&self, torque: i64) -> (actions: Vec<CarAction>)
        ensures
            actions@ == spec_drive_actions(*self, torque),
    {
        let mut actions: Vec<CarAction> = Vec::new();

        let wheel_front_body = self.get_part(CarComponents::WheelFront).get_body_handle();
        actions.push(CarAction::Torque { body: wheel_front_body, torque });

        let wheel_back_body = self.get_part(CarComponents::WheelBack).get_body_handle();
        actions.push(CarAction::Torque { body: wheel_back_body, torque });

        proof {
            assert(actions@ =~= spec_drive_actions(*self, torque));
        }
        actions
    }

    /// Asks for the single fixed upward impulse on the chassis while the
    /// car is grounded; while airborne a jump has no effect, however often
    /// it is requested.
    pub fn jump(&self) -> (action: Option<CarAction>)
        ensures
            action == spec_jump_action(*self),
    {
        match self.state {
            CarStates::Ground => {
                let body = self.get_part(CarComponents::CarBody).get_body_handle();
                Some(CarAction::Impulse { body, x: JUMP_IMPULSE_X, y: JUMP_IMPULSE_Y })
            },
            CarStates::Air => None,
        }
    }

    /// Asks for an impulse on the chassis along its current facing, scaled
    /// by the force. The facing is the chassis rotation while within a
    /// quarter turn of upright, and the half-turned rotation once past it.
    pub fn boost(&self, force: i64, chassis_angle: i32) -> (action: CarAction)
        requires
            spec_angle_in_range(chassis_angle as int),
        ensures
            action == spec_boost_action(*self, force, chassis_angle),
    {
        let body = self.get_part(CarComponents::CarBody).get_body_handle();
        let heading = boost_heading(chassis_angle);
        CarAction::DirectedImpulse { body, force, heading }
    }

    /// Asks for a torque impulse on the chassis: in-air rotational control,
    /// and the diagnostic spin.
    pub fn spin(&self, torque: i64) -> (action: CarAction)
        ensures
            action == spec_spin_action(*self, torque),
    {
        let body = self.get_part(CarComponents::CarBody).get_body_handle();
        CarAction::TorqueImpulse { body, torque }
    }

    /// Maps one held command to this tick's physics actions, conditioned on
    /// the current ground/air state.
    pub fn control(&self, command: Command, chassis_angle: i32) -> (actions: Vec<CarAction>)
        requires
            spec_angle_in_range(chassis_angle as int),
        ensures
            actions@ == spec_control(*self, command, chassis_angle),
    {
        match command {
            Command::Turn(side) => {
                if self.get_car_state() == CarStates::Ground {
                    self.drive(side_sign(side) * DRIVE_TORQUE)
                } else {
                    let mut actions: Vec<CarAction> = Vec::new();
                    actions.push(self.spin(side_sign(side) * SPIN_TORQUE));
                    proof {
                        assert(actions@ =~= spec_control(*self, command, chassis_angle));
                    }
                    actions
                }
            },
            Command::Jump => {
                let mut actions: Vec<CarAction> = Vec::new();
                match self.jump() {
                    Some(action) => {
                        actions.push(action);
                    },
                    None => {},
                }
                proof {
                    assert(actions@ =~= spec_control(*self, command, chassis_angle));
                }
                actions
            },
            Command::Boost => {
                let mut actions: Vec<CarAction> = Vec::new();
                actions.push(self.boost(BOOST_FORCE, chassis_angle));
                proof {
                    assert(actions@ =~= spec_control(*self, command, chassis_angle));
                }
                actions
            },
            Command::Spin(side) => {
                let mut actions: Vec<CarAction> = Vec::new();
                actions.push(self.spin(side_sign(side) * SPIN_TORQUE));
                proof {
                    assert(actions@ =~= spec_control(*self, command, chassis_angle));
                }
                actions
            },
        }
    }
}

/// Jump is a ground-only one-shot: grounded it yields exactly one upward
/// impulse on the chassis body, airborne it yields nothing, so re-requesting
/// it every tick while airborne has no effect.
pub proof fn lemma_jump_ground_only(car: Car)
    ensures
        car.spec_state() == CarStates::Ground ==> spec_jump_action(car) == Some(
            CarAction::Impulse {
                body: car.spec_part(CarComponents::CarBody).spec_body_handle(),
                x: JUMP_IMPULSE_X,
                y: JUMP_IMPULSE_Y,
            },
        ),
        car.spec_state() == CarStates::Air ==> spec_jump_action(car) is None,
        car.spec_state() == CarStates::Air ==> spec_control(car, Command::Jump, 0)
            == Seq::<CarAction>::empty(),
{
}

/// Boost pushes along the untransformed rotation while the chassis is within
/// a quarter turn of upright, boundary included, and along the half-turned
/// facing once the rotation is past a quarter turn either way; the impulse
/// magnitude is the force, in either state.
pub proof fn lemma_boost_facing(car: Car, force: i64, chassis_angle: i32)
    requires
        spec_angle_in_range(chassis_angle as int),
    ensures
        -QUARTER_TURN <= chassis_angle <= QUARTER_TURN ==> spec_boost_action(
            car,
            force,
            chassis_angle,
        ) == (CarAction::DirectedImpulse {
            body: car.spec_part(CarComponents::CarBody).spec_body_handle(),
            force,
            heading: chassis_angle,
        }),
        chassis_angle > QUARTER_TURN || chassis_angle < -QUARTER_TURN ==> spec_boost_action(
            car,
            force,
            chassis_angle,
        ) == (CarAction::DirectedImpulse {
            body: car.spec_part(CarComponents::CarBody).spec_body_handle(),
            force,
            heading: spec_turn_around(chassis_angle as int) as i32,
        }),
{
}

/// The ground/air classification of the two wheel-ground contact flags:
/// grounded exactly when both wheels report an active contact, airborne
/// otherwise.
pub open spec fn spec_classify(front_contact: bool, back_contact: bool) -> CarStates {
    if front_contact && back_contact {
        CarStates::Ground
    } else {
        CarStates::Air
    }
}

/// Classifies the vehicle from the two wheel-ground contact flags.
pub fn classify_contacts(front_contact: bool, back_contact: bool) -> (r: CarStates)
    ensures
        r == spec_classify(front_contact, back_contact),
{
    if front_contact && back_contact {
        CarStates::Ground
    } else {
        CarStates::Air
    }
}

/// The state is always exactly one of grounded and airborne; there is no
/// third state.
pub proof fn lemma_state_total(state: CarStates)
    ensures
        state == CarStates::Ground || state == CarStates::Air,
        !(state == CarStates::Ground && state == CarStates::Air),
{
}

/// Classification is a pure function of the two contact flags: equal flags
/// always classify the same way, however often it is re-run.
pub proof fn lemma_classification_pure(f1: bool, b1: bool, f2: bool, b2: bool)
    requires
        f1 == f2,
        b1 == b2,
    ensures
        spec_classify(f1, b1) == spec_classify(f2, b2),
{
}

/// Classification yields grounded exactly when both contacts are active,
/// and airborne exactly when either is absent or inactive.
pub proof fn lemma_classification_of_contacts(front_contact: bool, back_contact: bool)
    ensures
        spec_classify(front_contact, back_contact) == CarStates::Ground <==> (front_contact
            && back_contact),
        spec_classify(front_contact, back_contact) == CarStates::Air <==> !(front_contact
            && back_contact),
{
}

} // verus!
