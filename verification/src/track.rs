//! The channel the marble rolls down: a floor and two side walls that share
//! one slope.

use vstd::prelude::*;
use crate::vector::Vec3;

verus! {

/// Dimensions of the channel. Lengths are in thousandths of a world unit, the
/// slope in thousandths of a degree, friction in thousandths.
#[derive(Clone, Copy, Debug, PartialEq, Eq, Structural)]
pub struct TrackParams {
    /// Lateral extent of the floor.
    pub width: u32,
    /// Extent of floor and walls along the track.
    pub depth: u32,
    /// Vertical extent of the floor.
    pub floor_thickness: u32,
    /// Vertical extent of each wall.
    pub wall_height: u32,
    /// Lateral extent of each wall.
    pub wall_thickness: u32,
    /// Rotation of the whole channel about the lateral axis.
    pub slope_angle: i32,
    /// Friction coefficient of the floor, if it has one.
    pub floor_friction: Option<u32>,
    /// Friction coefficient of the walls, if they have one.
    pub wall_friction: Option<u32>,
}

/// Size of a box along the three axes.
#[derive(Clone, Copy, Debug, PartialEq, Eq, Structural)]
pub struct Extents {
    /// Lateral size.
    pub x: u32,
    /// Vertical size.
    pub y: u32,
    /// Size along the track.
    pub z: u32,
}

/// One immovable box of the channel.
#[derive(Clone, Copy, Debug, PartialEq, Eq, Structural)]
pub struct TrackSegment {
    /// Twice the centre of the box, in thousandths: the centre itself may
    /// fall on a half thousandth.
    pub doubled_center: Vec3,
    /// Rotation about the lateral axis, in thousandths of a degree.
    pub slope_angle: i32,
    /// Full size of the box before rotation.
    pub extents: Extents,
    /// Friction coefficient, if one is configured.
    pub friction: Option<u32>,
}

/// The three boxes of the channel.
#[derive(Clone, Copy, Debug, PartialEq, Eq, Structural)]
pub struct Track {
    /// The bottom of the channel.
    pub floor: TrackSegment,
    /// The wall on the negative lateral side.
    pub left_wall: TrackSegment,
    /// The wall on the positive lateral side.
    pub right_wall: TrackSegment,
}

/// Twice the lateral distance from the middle of the floor to the middle of
/// a wall, which is half the floor's width plus half the wall's thickness.
pub open spec fn doubled_wall_offset(params: TrackParams) -> int {
    params.width + params.wall_thickness
}

/// The floor: centred at the origin, `width` by `floor_thickness` by `depth`.
pub open spec fn floor_of(params: TrackParams) -> TrackSegment {
    TrackSegment {
        doubled_center: Vec3 { x: 0, y: 0, z: 0 },
        slope_angle: params.slope_angle,
        extents: Extents { x: params.width, y: params.floor_thickness, z: params.depth },
        friction: params.floor_friction,
    }
}

/// A wall whose centre lies at half of `doubled_x` laterally and at half its
/// own height, `wall_thickness` by `wall_height` by `depth`.
pub open spec fn wall_of(params: TrackParams, doubled_x: int) -> TrackSegment {
    TrackSegment {
        doubled_center: Vec3 { x: doubled_x as i64, y: params.wall_height as i64, z: 0 },
        slope_angle: params.slope_angle,
        extents: Extents { x: params.wall_thickness, y: params.wall_height, z: params.depth },
        friction: params.wall_friction,
    }
}

/// The channel for `params`.
pub open spec fn track_of(params: TrackParams) -> Track {
    Track {
        floor: floor_of(params),
        left_wall: wall_of(params, -doubled_wall_offset(params)),
        right_wall: wall_of(params, doubled_wall_offset(params)),
    }
}

/// Builds the floor and the two walls of the channel.
pub fn build_track(params: &TrackParams) -> (track: Track)
    ensures
        track == track_of(*params),
        track.left_wall.doubled_center.x == -(params.width + params.wall_thickness),
        track.right_wall.doubled_center.x == params.width + params.wall_thickness,
        track.left_wall.doubled_center.y == params.wall_height,
        track.right_wall.doubled_center.y == params.wall_height,
        track.left_wall.slope_angle == track.floor.slope_angle,
        track.right_wall.slope_angle == track.floor.slope_angle,
        track.floor.slope_angle == params.slope_angle,
{
    let offset: i64 = params.width as i64 + params.wall_thickness as i64;
    let wall_y: i64 = params.wall_height as i64;
    let wall_extents = Extents {
        x: params.wall_thickness,
        y: params.wall_height,
        z: params.depth,
    };
    Track {
        floor: TrackSegment {
            doubled_center: Vec3 { x: 0, y: 0, z: 0 },
            slope_angle: params.slope_angle,
            extents: Extents { x: params.width, y: params.floor_thickness, z: params.depth },
            friction: params.floor_friction,
        },
        left_wall: TrackSegment {
            doubled_center: Vec3 { x: -offset, y: wall_y, z: 0 },
            slope_angle: params.slope_angle,
            extents: wall_extents,
            friction: params.wall_friction,
        },
        right_wall: TrackSegment {
            doubled_center: Vec3 { x: offset, y: wall_y, z: 0 },
            slope_angle: params.slope_angle,
            extents: wall_extents,
            friction: params.wall_friction,
        },
    }
}

/// Twice the lateral coordinate of the face of a segment on its negative side.
pub open spec fn doubled_near_face(segment: TrackSegment) -> int {
    segment.doubled_center.x - segment.extents.x
}

/// Twice the lateral coordinate of the face of a segment on its positive side.
pub open spec fn doubled_far_face(segment: TrackSegment) -> int {
    segment.doubled_center.x + segment.extents.x
}

/// The channel is a symmetric trough: the walls mirror each other about the
/// middle of the floor, have the same size, and all three boxes share the
/// floor's slope.
pub proof fn lemma_track_symmetric(params: TrackParams)
    ensures
        track_of(params).left_wall.doubled_center.x == -track_of(
            params,
        ).right_wall.doubled_center.x,
        track_of(params).left_wall.doubled_center.y == track_of(params).right_wall.doubled_center.y,
        track_of(params).left_wall.doubled_center.z == track_of(params).right_wall.doubled_center.z,
        track_of(params).left_wall.extents == track_of(params).right_wall.extents,
        track_of(params).left_wall.slope_angle == track_of(params).floor.slope_angle,
        track_of(params).right_wall.slope_angle == track_of(params).floor.slope_angle,
        track_of(params).floor.doubled_center == (Vec3 { x: 0, y: 0, z: 0 }),
{
}

/// The clear channel is exactly as wide as the floor: the inner face of each
/// wall lies on the floor's edge, with no gap beside the floor and no overlap
/// onto it, and every wall is centred at half its own height.
pub proof fn lemma_channel_is_floor_wide(params: TrackParams)
    ensures
        doubled_far_face(track_of(params).left_wall) == doubled_near_face(track_of(params).floor),
        doubled_near_face(track_of(params).right_wall) == doubled_far_face(track_of(params).floor),
        doubled_near_face(track_of(params).right_wall) - doubled_far_face(
            track_of(params).left_wall,
        ) == 2 * params.width,
        track_of(params).right_wall.doubled_center.x - track_of(params).left_wall.doubled_center.x
            - 2 * params.wall_thickness == 2 * params.width,
        track_of(params).left_wall.doubled_center.y == params.wall_height,
        track_of(params).right_wall.doubled_center.y == params.wall_height,
{
}

} // verus!
