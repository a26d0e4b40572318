//! One-time assembly of the world: the channel, the marble at its start, the
//! camera behind and above it, and the physics parameters.

use vstd::prelude::*;
use crate::camera::CameraPose;
use crate::control::Velocity;
use crate::track::{build_track, track_of, Track, TrackParams};
use crate::vector::Vec3;

verus! {

/// The marble as it enters the world. Lengths are in thousandths of a world
/// unit; density, friction and restitution in thousandths.
#[derive(Clone, Copy, Debug, PartialEq, Eq, Structural)]
pub struct MarbleSpawn {
    /// Starting position.
    pub position: Vec3,
    /// Starting velocity.
    pub velocity: Velocity,
    /// Radius of the sphere and of its collider.
    pub radius: u32,
    /// Mass density.
    pub density: u32,
    /// Friction coefficient.
    pub friction: u32,
    /// Restitution coefficient.
    pub restitution: u32,
}

/// How the physics step follows the frame clock.
#[derive(Clone, Copy, Debug, PartialEq, Eq, Structural)]
pub enum TimestepMode {
    /// Every step advances by one `steps_per_second`-th of a second.
    Fixed {
        /// Steps per second.
        steps_per_second: u32,
        /// Substeps per step.
        substeps: u32,
    },
    /// Each step advances by the frame time, at most by one
    /// `min_steps_per_second`-th of a second.
    Variable {
        /// The reciprocal of the longest step, per second.
        min_steps_per_second: u32,
        /// Simulated time per real time, in thousandths.
        time_scale: u32,
        /// Substeps per step.
        substeps: u32,
    },
}

/// Parameters of the world that hold for the whole session.
#[derive(Clone, Copy, Debug, PartialEq, Eq, Structural)]
pub struct WorldParams {
    /// Acceleration of gravity, in thousandths of a world unit per second squared.
    pub gravity: Vec3,
    /// Physics step mode.
    pub timestep: TimestepMode,
    /// Whether bodies are simulated.
    pub physics_active: bool,
    /// Whether scene queries are kept up to date.
    pub queries_active: bool,
    /// Into how many pieces along each angle a round shape is cut when it is
    /// scaled unevenly.
    pub shape_subdivision: u32,
    /// Whether a pose set from outside always reaches the engine.
    pub update_from_poses: bool,
}

/// Everything the bootstrap is configured with.
#[derive(Clone, Copy, Debug, PartialEq, Eq, Structural)]
pub struct SceneConfig {
    /// Dimensions of the channel.
    pub track: TrackParams,
    /// The marble at its start.
    pub marble: MarbleSpawn,
    /// Position of the camera at its start.
    pub camera_position: Vec3,
    /// The point the camera faces at its start.
    pub camera_look_at: Vec3,
    /// World parameters.
    pub world: WorldParams,
}

/// The assembled world, ready to be handed to the physics engine and the
/// renderer.
#[derive(Clone, Copy, Debug, PartialEq, Eq, Structural)]
pub struct Scene {
    /// The channel.
    pub track: Track,
    /// The marble.
    pub marble: MarbleSpawn,
    /// The camera.
    pub camera: CameraPose,
    /// World parameters.
    pub world: WorldParams,
}

/// The standard scene: a channel 8 wide and 2000 long sloping by 5 degrees,
/// the marble at `(0, 2, -8)` with a small push down the track, the camera at
/// `(0, 6, -18)` facing `(0, 0, 5)`, gravity of 9.81 straight down, and a
/// physics step that follows the frame clock up to a sixtieth of a second.
pub open spec fn standard_config() -> SceneConfig {
    SceneConfig {
        track: TrackParams {
            width: 8_000,
            depth: 2_000_000,
            floor_thickness: 300,
            wall_height: 800,
            wall_thickness: 200,
            slope_angle: 5_000,
            floor_friction: Some(700u32),
            wall_friction: None,
        },
        marble: MarbleSpawn {
            position: Vec3 { x: 0, y: 2_000, z: (-8_000) as i64 },
            velocity: Velocity {
                linvel: Vec3 { x: 0, y: 0, z: 2_000 },
                angvel: Vec3 { x: 0, y: 0, z: 0 },
            },
            radius: 300,
            density: 1_000,
            friction: 400,
            restitution: 300,
        },
        camera_position: Vec3 { x: 0, y: 6_000, z: (-18_000) as i64 },
        camera_look_at: Vec3 { x: 0, y: 0, z: 5_000 },
        world: WorldParams {
            gravity: Vec3 { x: 0, y: (-9_810) as i64, z: 0 },
            timestep: TimestepMode::Variable {
                min_steps_per_second: 60,
                time_scale: 1_000,
                substeps: 1,
            },
            physics_active: true,
            queries_active: true,
            shape_subdivision: 10,
            update_from_poses: false,
        },
    }
}

/// The steepest slope, in thousandths of a degree, that [`clears_floor`]
/// speaks of. Up to it the tangent of the slope is at most a tenth and its
/// cosine at least ten elevenths.
pub const GENTLE_SLOPE: i32 = 5_700;

/// Whether the marble starts clear of the sloped floor, on the middle or the
/// uphill half of a gently sloped track. The top face of a floor tilted by
/// an angle `a` lies, at a forward coordinate `z` on the uphill half, at a
/// height of `floor_thickness / (2 cos a) - z tan a`, and a sphere is clear of
/// it when its centre is higher than that by more than `radius / cos a`. With
/// the two bounds on a gentle slope this holds when the centre is higher than
/// a tenth of the distance uphill plus eleven tenths of half the floor's
/// thickness and the radius.
pub open spec fn clears_floor(config: SceneConfig) -> bool {
    &&& 0 <= config.track.slope_angle <= GENTLE_SLOPE
    &&& config.marble.position.z <= 0
    &&& 20 * config.marble.position.y > -2 * config.marble.position.z + 11 * (
    config.track.floor_thickness + 2 * config.marble.radius)
}

/// Whether a configuration sets up a run down the track: the marble starts
/// over the middle line, clear of the sloped floor, with a push down the
/// track and none to a side; the camera starts behind and above the marble
/// and faces down the track; gravity pulls straight down; and the physics
/// step has a positive rate.
pub open spec fn ready_to_roll(config: SceneConfig) -> bool {
    &&& config.marble.position.x == 0
    &&& clears_floor(config)
    &&& config.marble.velocity.linvel.x == 0
    &&& config.marble.velocity.linvel.z > 0
    &&& config.track.slope_angle > 0
    &&& config.camera_position.z < config.marble.position.z
    &&& config.camera_position.y > config.marble.position.y
    &&& config.camera_look_at.z > config.camera_position.z
    &&& config.world.gravity.x == 0
    &&& config.world.gravity.y < 0
    &&& config.world.gravity.z == 0
    &&& match config.world.timestep {
        TimestepMode::Fixed { steps_per_second, substeps } => steps_per_second > 0 && substeps
            > 0,
        TimestepMode::Variable { min_steps_per_second, time_scale, substeps } => {
            min_steps_per_second > 0 && time_scale > 0 && substeps > 0
        },
    }
}

/// The scene that a configuration describes.
pub open spec fn scene_of(config: SceneConfig) -> Scene {
    Scene {
        track: track_of(config.track),
        marble: config.marble,
        camera: CameraPose { position: config.camera_position, look_at: config.camera_look_at },
        world: config.world,
    }
}

impl Default for SceneConfig {
    /// The standard scene.
    fn default() -> (config: SceneConfig)
        ensures
            config == standard_config(),
            ready_to_roll(config),
    {
        SceneConfig {
            track: TrackParams {
                width: 8_000,
                depth: 2_000_000,
                floor_thickness: 300,
                wall_height: 800,
                wall_thickness: 200,
                slope_angle: 5_000,
                floor_friction: Some(700),
                wall_friction: None,
            },
            marble: MarbleSpawn {
                position: Vec3 { x: 0, y: 2_000, z: -8_000 },
                velocity: Velocity {
                    linvel: Vec3 { x: 0, y: 0, z: 2_000 },
                    angvel: Vec3 { x: 0, y: 0, z: 0 },
                },
                radius: 300,
                density: 1_000,
                friction: 400,
                restitution: 300,
            },
            camera_position: Vec3 { x: 0, y: 6_000, z: -18_000 },
            camera_look_at: Vec3 { x: 0, y: 0, z: 5_000 },
            world: WorldParams {
                gravity: Vec3 { x: 0, y: -9_810, z: 0 },
                timestep: TimestepMode::Variable {
                    min_steps_per_second: 60,
                    time_scale: 1_000,
                    substeps: 1,
                },
                physics_active: true,
                queries_active: true,
                shape_subdivision: 10,
                update_from_poses: false,
            },
        }
    }
}

/// Assembles the world: builds the channel and places the marble, the camera
/// and the world parameters as configured.
pub fn setup_scene(config: &SceneConfig) -> (scene: Scene)
    ensures
        scene == scene_of(*config),
        scene.track == track_of(config.track),
        scene.marble == config.marble,
        scene.camera.position == config.camera_position,
        scene.camera.look_at == config.camera_look_at,
        scene.world == config.world,
{
    Scene {
        track: build_track(&config.track),
        marble: config.marble,
        camera: CameraPose { position: config.camera_position, look_at: config.camera_look_at },
        world: config.world,
    }
}

} // verus!
