use marble_run::camera::{camera_follow_system, CameraRig};
use marble_run::control::{marble_control_system, KeyState, Velocity};
use marble_run::scene::{setup_scene, SceneConfig, TimestepMode};
use marble_run::vector::Vec3;

#[test]
fn standard_scene_places_marble_camera_and_gravity() {
    let scene = setup_scene(&SceneConfig::default());
    assert_eq!(scene.marble.position, Vec3::new(0, 2_000, -8_000));
    assert_eq!(scene.marble.velocity.linvel, Vec3::new(0, 0, 2_000));
    assert_eq!(scene.marble.velocity.angvel, Vec3::new(0, 0, 0));
    assert_eq!(scene.marble.radius, 300);
    assert_eq!(scene.marble.density, 1_000);
    assert_eq!(scene.marble.friction, 400);
    assert_eq!(scene.marble.restitution, 300);
    assert_eq!(scene.camera.position, Vec3::new(0, 6_000, -18_000));
    assert_eq!(scene.camera.look_at, Vec3::new(0, 0, 5_000));
    assert_eq!(scene.world.gravity, Vec3::new(0, -9_810, 0));
    assert_eq!(
        scene.world.timestep,
        TimestepMode::Variable { min_steps_per_second: 60, time_scale: 1_000, substeps: 1 }
    );
    assert!(scene.world.physics_active);
    assert!(scene.world.queries_active);
    assert_eq!(scene.world.shape_subdivision, 10);
    assert!(!scene.world.update_from_poses);
}

#[test]
fn standard_scene_builds_the_sloped_channel() {
    let scene = setup_scene(&SceneConfig::default());
    assert_eq!(scene.track.floor.slope_angle, 5_000);
    assert_eq!(scene.track.left_wall.doubled_center, Vec3::new(-8_200, 800, 0));
    assert_eq!(scene.track.right_wall.doubled_center, Vec3::new(8_200, 800, 0));
    assert_eq!(scene.track.floor.friction, Some(700));
}

#[test]
fn setup_follows_the_configuration() {
    let mut config = SceneConfig::default();
    config.track.width = 10_000;
    config.marble.position = Vec3::new(1, 2, 3);
    config.camera_position = Vec3::new(4, 5, 6);
    config.world.timestep = TimestepMode::Fixed { steps_per_second: 120, substeps: 2 };
    let scene = setup_scene(&config);
    assert_eq!(scene.track.right_wall.doubled_center.x, 10_200);
    assert_eq!(scene.marble.position, Vec3::new(1, 2, 3));
    assert_eq!(scene.camera.position, Vec3::new(4, 5, 6));
    assert_eq!(scene.world.timestep, TimestepMode::Fixed { steps_per_second: 120, substeps: 2 });
}

// One second of frames with no key held. The physics step is stood in for by
// a frictionless slide down the slope; the systems under test are the
// controller and the camera.
#[test]
fn marble_rolls_downhill_with_no_lateral_velocity() {
    let scene = setup_scene(&SceneConfig::default());
    let slope = (scene.track.floor.slope_angle as f64 / 1_000.0).to_radians();
    let downhill = -(scene.world.gravity.y as f64) * slope.sin() * slope.cos();
    let mut position = scene.marble.position;
    let mut velocities: Vec<Velocity> = vec![scene.marble.velocity];
    let none_held = KeyState { left: false, right: false };
    let dt = 1.0 / 60.0;
    for _ in 0..60 {
        let v = &mut velocities[0];
        v.linvel.z += (downhill * dt).round() as i64;
        position.x += (v.linvel.x as f64 * dt).round() as i64;
        position.z += (v.linvel.z as f64 * dt).round() as i64;
        let before = velocities[0];
        marble_control_system(none_held, 5_000, &mut velocities);
        assert_eq!(velocities[0].linvel.x, 0);
        assert_eq!(velocities[0].linvel.y, before.linvel.y);
        assert_eq!(velocities[0].linvel.z, before.linvel.z);
    }
    assert!(position.z > scene.marble.position.z);
    assert_eq!(position.x, 0);
    assert_eq!(velocities[0].linvel.x, 0);
    assert!(velocities[0].linvel.z > scene.marble.velocity.linvel.z);
}

#[test]
fn systems_without_a_marble_change_nothing() {
    let scene = setup_scene(&SceneConfig::default());
    let rig = CameraRig {
        height: 5_000,
        trail: -9_000,
        smoothing_rate: 10_000,
        look_drop: 2_000,
        look_ahead: 10_000,
    };
    let mut velocities: Vec<Velocity> = Vec::new();
    let cameras: Vec<Vec3> = vec![scene.camera.position];
    for _ in 0..10 {
        marble_control_system(KeyState { left: false, right: true }, i64::MIN, &mut velocities);
        assert_eq!(camera_follow_system(&rig, 16_667, &cameras, &Vec::new()), None);
    }
    assert!(velocities.is_empty());
    assert_eq!(cameras, vec![scene.camera.position]);
}
