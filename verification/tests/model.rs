//! Tests of the pure vehicle model: rig planning, collision masks, the
//! ground/air classifier, and the control mapper.

use boink::car::Car;
use boink::car::CarAction;
use boink::car::CarComponents;
use boink::car::CarPart;
use boink::car::CarStates;
use boink::car::Command;
use boink::car::PartHandles;
use boink::car::PartShape;
use boink::car::SelectPart;
use boink::car::Vec2;
use boink::car::classify_contacts;
use boink::car::plan_part;
use boink::car::plan_rig;
use boink::constants::Side;
use boink::groups::ball_groups;
use boink::groups::chassis_groups;
use boink::groups::surface_groups;
use boink::groups::wheel_groups;
use boink::physics::BodyRef;
use boink::physics::ColliderRef;
use boink::physics::JointRef;
use boink::utils::boost_heading;
use boink::utils::turn_around;

fn handles(n: u32) -> PartHandles {
    PartHandles {
        body: BodyRef { index: n, generation: 7 },
        collider: ColliderRef { index: n + 100, generation: 7 },
    }
}

fn sample_car() -> Car {
    Car::new(
        Vec2 { x: 2625, y: 3600 },
        handles(0),
        handles(1),
        handles(2),
        JointRef { index: 0, generation: 1 },
        JointRef { index: 1, generation: 1 },
    )
}

#[test]
fn classifier_truth_table() {
    assert_eq!(classify_contacts(true, true), CarStates::Ground);
    assert_eq!(classify_contacts(true, false), CarStates::Air);
    assert_eq!(classify_contacts(false, true), CarStates::Air);
    assert_eq!(classify_contacts(false, false), CarStates::Air);
}

#[test]
fn classifier_is_idempotent() {
    for &(f, b) in &[(true, true), (true, false), (false, true), (false, false)] {
        assert_eq!(classify_contacts(f, b), classify_contacts(f, b));
    }
}

#[test]
fn turn_around_flips_half_turn() {
    assert_eq!(turn_around(0), 18000);
    assert_eq!(turn_around(18000), 0);
    assert_eq!(turn_around(-18000), 0);
    assert_eq!(turn_around(9000), -9000);
    assert_eq!(turn_around(-9000), 9000);
    assert_eq!(turn_around(17000), -1000);
}

#[test]
fn boost_heading_inside_quarter_turn_keeps_rotation() {
    assert_eq!(boost_heading(0), 0);
    assert_eq!(boost_heading(8999), 8999);
    assert_eq!(boost_heading(9000), 9000);
    assert_eq!(boost_heading(-8999), -8999);
    assert_eq!(boost_heading(-9000), -9000);
}

#[test]
fn boost_heading_past_quarter_turn_flips() {
    assert_eq!(boost_heading(9001), -8999);
    assert_eq!(boost_heading(-9001), 8999);
    assert_eq!(boost_heading(18000), 0);
    assert_eq!(boost_heading(-18000), 0);
    assert_eq!(boost_heading(13500), -4500);
}

#[test]
fn rig_plan_places_wheels_at_offsets() {
    let spawn = Vec2 { x: 2625, y: 3600 };
    let plan = plan_rig(spawn);
    assert_eq!(plan.chassis.position, spawn);
    assert_eq!(plan.wheel_front.position, Vec2 { x: 2965, y: 3600 });
    assert_eq!(plan.wheel_back.position, Vec2 { x: 2285, y: 3600 });
    assert_eq!(plan.front_joint.wheel_anchor, Vec2 { x: 0, y: 0 });
    assert_eq!(plan.front_joint.chassis_anchor, Vec2 { x: 340, y: 0 });
    assert_eq!(plan.back_joint.wheel_anchor, Vec2 { x: 0, y: 0 });
    assert_eq!(plan.back_joint.chassis_anchor, Vec2 { x: -340, y: 0 });
}

#[test]
fn rig_plan_shapes_and_tuning() {
    let plan = plan_rig(Vec2 { x: 0, y: 0 });
    assert_eq!(
        plan.chassis.shape,
        PartShape::Cuboid { half_length: 500, half_height: 80 }
    );
    assert_eq!(plan.wheel_front.shape, PartShape::Ball { radius: 180 });
    assert_eq!(plan.wheel_back.shape, PartShape::Ball { radius: 180 });
    assert!(plan.chassis.linear_damping > 0);
    assert!(plan.chassis.angular_damping > 0);
    assert!(plan.wheel_front.additional_mass > 0);
    assert_eq!(plan.wheel_front.friction, 800);
    assert_eq!(plan.chassis.groups, chassis_groups());
    assert_eq!(plan.wheel_front.groups, wheel_groups());
    assert_eq!(plan.wheel_back.groups, wheel_groups());
}

#[test]
fn part_plan_follows_shape() {
    let cuboid = plan_part(
        SelectPart::Body,
        Vec2 { x: 1, y: 2 },
        Vec2 { x: 500, y: 80 },
    );
    assert_eq!(cuboid.shape, PartShape::Cuboid { half_length: 500, half_height: 80 });
    assert_eq!(cuboid.groups, chassis_groups());

    let disc = plan_part(
        SelectPart::Wheel,
        Vec2 { x: 1, y: 2 },
        Vec2 { x: 180, y: 0 },
    );
    assert_eq!(disc.shape, PartShape::Ball { radius: 180 });
    assert_eq!(disc.groups, wheel_groups());
}

#[test]
fn vehicle_parts_never_allow_self_collision() {
    let chassis = chassis_groups();
    let wheel = wheel_groups();
    assert!(!chassis.allows_interaction(&wheel));
    assert!(!wheel.allows_interaction(&chassis));
    assert!(!wheel.allows_interaction(&wheel));
}

#[test]
fn ball_reaches_chassis_but_not_wheels() {
    let ball = ball_groups();
    assert!(chassis_groups().allows_interaction(&ball));
    assert!(ball.allows_interaction(&chassis_groups()));
    assert!(!wheel_groups().allows_interaction(&ball));
    assert!(!ball.allows_interaction(&wheel_groups()));
}

#[test]
fn every_piece_rests_on_surfaces() {
    let surface = surface_groups();
    assert!(chassis_groups().allows_interaction(&surface));
    assert!(wheel_groups().allows_interaction(&surface));
    assert!(ball_groups().allows_interaction(&surface));
}

#[test]
fn fresh_car_is_grounded_with_given_handles() {
    let car = sample_car();
    assert_eq!(car.get_car_state(), CarStates::Ground);

    let chassis = car.get_part(CarComponents::CarBody);
    assert!(matches!(chassis, CarPart::Body { .. }));
    assert_eq!(chassis.get_body_handle(), BodyRef { index: 0, generation: 7 });
    assert_eq!(chassis.get_coll_handle(), ColliderRef { index: 100, generation: 7 });

    let front = car.get_part(CarComponents::WheelFront);
    assert!(matches!(front, CarPart::Wheel { .. }));
    assert_eq!(front.get_body_handle(), BodyRef { index: 1, generation: 7 });

    let back = car.get_part(CarComponents::WheelBack);
    assert!(matches!(back, CarPart::Wheel { .. }));
    assert_eq!(back.get_coll_handle(), ColliderRef { index: 102, generation: 7 });
}

#[test]
fn state_is_written_by_classifier_result() {
    let mut car = sample_car();
    car.set_car_state(CarStates::Air);
    assert_eq!(car.get_car_state(), CarStates::Air);
    car.set_car_state(CarStates::Ground);
    assert_eq!(car.get_car_state(), CarStates::Ground);
}

#[test]
fn drive_torques_both_wheels() {
    let car = sample_car();
    let actions = car.drive(500);
    assert_eq!(
        actions,
        vec![
            CarAction::Torque { body: BodyRef { index: 1, generation: 7 }, torque: 500 },
            CarAction::Torque { body: BodyRef { index: 2, generation: 7 }, torque: 500 },
        ]
    );
}

#[test]
fn jump_fires_only_on_the_ground() {
    let mut car = sample_car();
    assert_eq!(
        car.jump(),
        Some(CarAction::Impulse { body: BodyRef { index: 0, generation: 7 }, x: 0, y: -6000 })
    );

    car.set_car_state(CarStates::Air);
    assert_eq!(car.jump(), None);
    // Re-requesting every tick while airborne stays a no-op.
    assert_eq!(car.jump(), None);
    assert_eq!(car.jump(), None);

    car.set_car_state(CarStates::Ground);
    assert!(car.jump().is_some());
}

#[test]
fn boost_action_flips_facing_past_quarter_turn() {
    let car = sample_car();
    let chassis_body = BodyRef { index: 0, generation: 7 };

    let inside = car.boost(-300, 8999);
    assert_eq!(
        inside,
        CarAction::DirectedImpulse { body: chassis_body, force: -300, heading: 8999 }
    );
    let boundary = car.boost(-300, -9000);
    assert_eq!(
        boundary,
        CarAction::DirectedImpulse { body: chassis_body, force: -300, heading: -9000 }
    );
    let outside = car.boost(-300, 9001);
    assert_eq!(
        outside,
        CarAction::DirectedImpulse { body: chassis_body, force: -300, heading: -8999 }
    );
    let outside_neg = car.boost(-300, -9001);
    assert_eq!(
        outside_neg,
        CarAction::DirectedImpulse { body: chassis_body, force: -300, heading: 8999 }
    );
}

#[test]
fn spin_torques_the_chassis() {
    let car = sample_car();
    assert_eq!(
        car.spin(100),
        CarAction::TorqueImpulse { body: BodyRef { index: 0, generation: 7 }, torque: 100 }
    );
}

#[test]
fn control_turn_drives_on_ground_and_spins_in_air() {
    let mut car = sample_car();

    let grounded = car.control(Command::Turn(Side::Right), 0);
    assert_eq!(
        grounded,
        vec![
            CarAction::Torque { body: BodyRef { index: 1, generation: 7 }, torque: 5000 },
            CarAction::Torque { body: BodyRef { index: 2, generation: 7 }, torque: 5000 },
        ]
    );
    let grounded_left = car.control(Command::Turn(Side::Left), 0);
    assert_eq!(
        grounded_left,
        vec![
            CarAction::Torque { body: BodyRef { index: 1, generation: 7 }, torque: -5000 },
            CarAction::Torque { body: BodyRef { index: 2, generation: 7 }, torque: -5000 },
        ]
    );

    car.set_car_state(CarStates::Air);
    let airborne = car.control(Command::Turn(Side::Right), 0);
    assert_eq!(
        airborne,
        vec![CarAction::TorqueImpulse { body: BodyRef { index: 0, generation: 7 }, torque: 100 }]
    );
    let airborne_left = car.control(Command::Turn(Side::Left), 0);
    assert_eq!(
        airborne_left,
        vec![CarAction::TorqueImpulse { body: BodyRef { index: 0, generation: 7 }, torque: -100 }]
    );
}

#[test]
fn control_jump_and_boost_and_spin() {
    let mut car = sample_car();

    let jump = car.control(Command::Jump, 0);
    assert_eq!(
        jump,
        vec![CarAction::Impulse { body: BodyRef { index: 0, generation: 7 }, x: 0, y: -6000 }]
    );

    car.set_car_state(CarStates::Air);
    let jump_air = car.control(Command::Jump, 0);
    assert_eq!(jump_air, vec![]);

    let boost = car.control(Command::Boost, 13500);
    assert_eq!(
        boost,
        vec![CarAction::DirectedImpulse {
            body: BodyRef { index: 0, generation: 7 },
            force: -300,
            heading: -4500,
        }]
    );

    let spin = car.control(Command::Spin(Side::Left), 0);
    assert_eq!(
        spin,
        vec![CarAction::TorqueImpulse { body: BodyRef { index: 0, generation: 7 }, torque: -100 }]
    );
}
