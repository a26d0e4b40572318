use marble_run::control::{
    marble_control_system, steer, steering, KeyState, Velocity, CONTROL_FORCE,
};
use marble_run::vector::Vec3;

fn rolling() -> Velocity {
    Velocity { linvel: Vec3::new(1_250, -3_400, 2_000), angvel: Vec3::new(7, 8, 9) }
}

#[test]
fn left_alone_steers_positive() {
    assert_eq!(steering(KeyState { left: true, right: false }, 5_000), 5_000);
}

#[test]
fn right_alone_steers_negative() {
    assert_eq!(steering(KeyState { left: false, right: true }, 5_000), -5_000);
}

#[test]
fn both_keys_cancel() {
    assert_eq!(steering(KeyState { left: true, right: true }, 5_000), 0);
}

#[test]
fn no_key_gives_zero() {
    assert_eq!(steering(KeyState { left: false, right: false }, 5_000), 0);
}

#[test]
fn both_keys_cancel_at_extreme_force() {
    assert_eq!(steering(KeyState { left: true, right: true }, i64::MIN), 0);
    assert_eq!(steering(KeyState { left: true, right: false }, i64::MIN), i64::MIN);
    assert_eq!(steering(KeyState { left: false, right: true }, i64::MAX), -i64::MAX);
}

#[test]
fn steer_keeps_vertical_and_forward_velocity() {
    for left in [false, true] {
        for right in [false, true] {
            let out = steer(rolling(), KeyState { left, right }, 5_000);
            assert_eq!(out.linvel.y, -3_400);
            assert_eq!(out.linvel.z, 2_000);
            assert_eq!(out.angvel, Vec3::new(7, 8, 9));
        }
    }
}

#[test]
fn steer_overrides_previous_lateral_velocity() {
    let out = steer(rolling(), KeyState { left: false, right: false }, 5_000);
    assert_eq!(out.linvel, Vec3::new(0, -3_400, 2_000));
    let out = steer(rolling(), KeyState { left: true, right: false }, 5_000);
    assert_eq!(out.linvel, Vec3::new(5_000, -3_400, 2_000));
}

#[test]
fn steer_twice_is_steer_once() {
    let keys = KeyState { left: false, right: true };
    let once = steer(rolling(), keys, 5_000);
    assert_eq!(steer(once, keys, 5_000), once);
}

#[test]
fn control_system_steers_the_single_marble() {
    let mut marbles = vec![rolling()];
    marble_control_system(KeyState { left: false, right: true }, 5_000, &mut marbles);
    assert_eq!(
        marbles,
        vec![Velocity { linvel: Vec3::new(-5_000, -3_400, 2_000), angvel: Vec3::new(7, 8, 9) }]
    );
}

#[test]
fn control_system_without_marble_does_nothing() {
    let mut marbles: Vec<Velocity> = Vec::new();
    marble_control_system(KeyState { left: true, right: false }, 5_000, &mut marbles);
    assert!(marbles.is_empty());
}

#[test]
fn control_system_with_two_marbles_does_nothing() {
    let mut marbles = vec![rolling(), rolling()];
    marble_control_system(KeyState { left: true, right: false }, 5_000, &mut marbles);
    assert_eq!(marbles, vec![rolling(), rolling()]);
}

#[test]
fn standard_control_force_is_five() {
    assert_eq!(CONTROL_FORCE, 5_000);
    assert_eq!(steering(KeyState { left: true, right: false }, CONTROL_FORCE), 5_000);
}
