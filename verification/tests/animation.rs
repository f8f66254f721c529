use scene_demo::game::{
    animate_entity, animate_object, bounce_phase_microrad, vertical_position, Rotating, Transform,
    FULL_TURN_PICORAD, QUARTER_TURN_MICRORAD,
};

/// The scaled sine the host would hand in for a phase in microradians.
fn sin_milli_of_phase(phase_microrad: u64) -> i64 {
    let phase = phase_microrad as f64 / 1_000_000.0;
    let scaled = (phase.sin() * 1000.0).round() as i64;
    scaled.clamp(-1000, 1000)
}

#[test]
fn at_time_zero_height_is_initial_height() {
    let phase = bounce_phase_microrad(0);
    assert_eq!(phase, 0);
    assert_eq!(sin_milli_of_phase(phase), 0);
    assert_eq!(vertical_position(500_000, 0), 500_000);
    assert_eq!(vertical_position(-123_456, 0), -123_456);
}

#[test]
fn bounce_scenario_near_two_thirds_height() {
    // initial_height 0.5 units, elapsed (pi/3)/3 seconds: the phase is
    // pi/3, its sine is 0.8660..., and the height comes out at 0.6299
    // units, exactly 629_900 micro-units in the scaled model.
    let elapsed_us: u64 = 349_065;
    let phase = bounce_phase_microrad(elapsed_us);
    assert_eq!(phase, 1_047_195);
    let sin_milli = sin_milli_of_phase(phase);
    assert_eq!(sin_milli, 866);
    assert_eq!(vertical_position(500_000, sin_milli), 629_900);
}

#[test]
fn lowest_point_of_the_bounce() {
    assert_eq!(vertical_position(500_000, -1000), 350_000);
    assert_eq!(vertical_position(500_000, 1000), 650_000);
}

#[test]
fn yaw_advances_by_quarter_turn_per_second() {
    let mut pose = Transform::from_xyz(0, 0, 0);
    let rotating = Rotating { initial_height: 500_000 };
    // Two seconds in one frame: half a turn.
    animate_entity(&mut pose, &rotating, 2_000_000, 0);
    assert_eq!(pose.yaw_picorad, 2_000_000 * QUARTER_TURN_MICRORAD);
    assert_eq!(pose.y, 500_000);
    assert_eq!((pose.x, pose.z), (0, 0));
}

#[test]
fn yaw_wraps_after_a_full_turn() {
    let mut pose = Transform::from_xyz(0, 0, 0);
    let rotating = Rotating { initial_height: 0 };
    // Four seconds at a quarter turn per second: one full turn, back to
    // the starting yaw.
    animate_entity(&mut pose, &rotating, 4_000_000, 0);
    assert_eq!(pose.yaw_picorad, 0);
    assert_eq!(4_000_000 * QUARTER_TURN_MICRORAD, FULL_TURN_PICORAD);
}

#[test]
fn height_does_not_depend_on_frame_delta() {
    let rotating = Rotating { initial_height: 500_000 };
    let mut short_frame = Transform::from_xyz(0, 0, 0);
    let mut long_frame = Transform::from_xyz(0, 0, 0);
    animate_entity(&mut short_frame, &rotating, 1_000, 866);
    animate_entity(&mut long_frame, &rotating, 900_000, 866);
    assert_eq!(short_frame.y, long_frame.y);
    assert_eq!(short_frame.y, 629_900);
}

#[test]
fn every_tagged_entity_is_animated() {
    let mut entities = vec![
        (Transform::from_xyz(0, 0, 0), Rotating { initial_height: 500_000 }),
        (Transform::from_xyz(1_000_000, 0, -1_000_000), Rotating { initial_height: 0 }),
    ];
    animate_object(&mut entities, 1_000_000, -500);
    assert_eq!(entities[0].0.yaw_picorad, 1_000_000 * QUARTER_TURN_MICRORAD);
    assert_eq!(entities[0].0.y, 500_000 - 75_000);
    assert_eq!(entities[1].0.yaw_picorad, 1_000_000 * QUARTER_TURN_MICRORAD);
    assert_eq!(entities[1].0.y, -75_000);
    assert_eq!(entities[1].0.x, 1_000_000);
    assert_eq!(entities[1].0.z, -1_000_000);
}
