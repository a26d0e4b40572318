//! The trailing camera: where it wants to be, how it closes in on that place,
//! and where it looks.
//!
//! The camera follows the marble's lateral and forward position at a fixed
//! height and distance, approaches that place by first-order smoothing, and
//! always looks ahead along the track from wherever it is.
//!
//! A smoothing step is exact. It takes positions in thousandths of a world
//! unit and gives the new position in parts of a thousandth, [`FACTOR_ONE`]
//! parts to the thousandth, which is the resolution of the smoothing factor.

use vstd::prelude::*;
use crate::vector::{FineVec3, Point, Vec3};

verus! {

/// The number of parts that make a whole smoothing factor.
pub const FACTOR_ONE: u32 = 1_000_000_000;

/// A fraction between zero and one, in parts of [`FACTOR_ONE`].
#[derive(Clone, Copy, Debug, PartialEq, Eq, Structural)]
pub struct Factor {
    /// Numerator over [`FACTOR_ONE`].
    pub parts: u32,
}

impl Factor {
    /// The fraction is at most one.
    pub open spec fn wf(self) -> bool {
        self.parts <= FACTOR_ONE
    }
}

/// Fixed geometry and responsiveness of the trailing camera.
#[derive(Clone, Copy, Debug, PartialEq, Eq, Structural)]
pub struct CameraRig {
    /// Vertical offset of the camera's place from the marble.
    pub height: i64,
    /// Forward offset of the camera's place from the marble; negative is behind.
    pub trail: i64,
    /// Smoothing rate, in thousandths per second.
    pub smoothing_rate: i64,
    /// How far below its own height the camera looks.
    pub look_drop: i64,
    /// How far ahead of its own position the camera looks.
    pub look_ahead: i64,
}

/// The standard rig: 5 above and 9 behind the marble, a smoothing rate of 10
/// per second, looking 2 down and 10 ahead.
pub open spec fn standard_rig() -> CameraRig {
    CameraRig {
        height: 5_000,
        trail: (-9_000) as i64,
        smoothing_rate: 10_000,
        look_drop: 2_000,
        look_ahead: 10_000,
    }
}

impl Default for CameraRig {
    /// The standard rig.
    fn default() -> (rig: CameraRig)
        ensures
            rig == standard_rig(),
    {
        CameraRig {
            height: 5_000,
            trail: -9_000,
            smoothing_rate: 10_000,
            look_drop: 2_000,
            look_ahead: 10_000,
        }
    }
}

/// Position of the camera and the point it faces after a smoothing step, in
/// parts of a thousandth, with the vertical axis up.
#[derive(Clone, Copy, Debug, PartialEq, Eq, Structural)]
pub struct FinePose {
    /// Where the camera is.
    pub position: FineVec3,
    /// The point the camera is oriented towards.
    pub look_at: FineVec3,
}

/// Position of the camera and the point it faces, with the vertical axis up.
#[derive(Clone, Copy, Debug, PartialEq, Eq, Structural)]
pub struct CameraPose {
    /// Where the camera is.
    pub position: Vec3,
    /// The point the camera is oriented towards.
    pub look_at: Vec3,
}

/// `v` limited to the range from `lo` to `hi`.
pub open spec fn clamp(v: int, lo: int, hi: int) -> int {
    if v < lo {
        lo
    } else if v > hi {
        hi
    } else {
        v
    }
}

/// The smoothing factor for one frame: rate times elapsed time, limited to
/// the range from zero to one. The rate is in thousandths per second and the
/// time in microseconds, so their product counts parts of [`FACTOR_ONE`].
pub open spec fn factor_for(smoothing_rate: i64, delta_micros: u64) -> Factor {
    Factor { parts: clamp(smoothing_rate * delta_micros, 0, FACTOR_ONE as int) as u32 }
}

/// One coordinate after a smoothing step from `current` towards `target`,
/// both in thousandths: `current` plus the fraction `factor` of the way to
/// `target`, in parts of a thousandth.
pub open spec fn approach(current: int, target: int, factor: Factor) -> int {
    current * FACTOR_ONE + (target - current) * factor.parts
}

/// A point given in thousandths, in parts of a thousandth.
pub open spec fn in_parts(p: Point) -> Point {
    p.scaled(FACTOR_ONE as int)
}

/// The place the camera wants to be: level with the marble laterally, at a
/// fixed height above it and a fixed distance along the track from it.
pub open spec fn place_for(marble: Point, rig: CameraRig) -> Point {
    Point { x: marble.x, y: marble.y + rig.height, z: marble.z + rig.trail }
}

/// The position, in parts, after a smoothing step from `current` towards
/// `target`, both in thousandths.
pub open spec fn smoothed(current: Point, target: Point, factor: Factor) -> Point {
    Point {
        x: approach(current.x, target.x, factor),
        y: approach(current.y, target.y, factor),
        z: approach(current.z, target.z, factor),
    }
}

/// The point a camera at `position` looks at, both in parts: straight ahead
/// and slightly down from itself, never off to a side.
pub open spec fn look_point(position: Point, rig: CameraRig) -> Point {
    Point {
        x: position.x,
        y: position.y - rig.look_drop * FACTOR_ONE,
        z: position.z + rig.look_ahead * FACTOR_ONE,
    }
}

/// Position and look point of the camera, in parts, after one frame of
/// following from `camera` with the marble at `marble`, both in thousandths.
pub open spec fn followed(
    camera: Point,
    marble: Point,
    rig: CameraRig,
    delta_micros: u64,
) -> (Point, Point) {
    let position = smoothed(
        camera,
        place_for(marble, rig),
        factor_for(rig.smoothing_rate, delta_micros),
    );
    (position, look_point(position, rig))
}

/// Whether the camera's place for a marble is within machine range.
pub open spec fn in_range(rig: CameraRig, marble: Vec3) -> bool {
    place_for(marble@, rig).representable()
}

/// What a frame of following gives for the cameras and marbles that are
/// there: with a single camera and a single marble the pose given by
/// [`followed`]; with any other number of either, nothing.
pub open spec fn following(
    cameras: Seq<Vec3>,
    marbles: Seq<Vec3>,
    rig: CameraRig,
    delta_micros: u64,
) -> Option<(Point, Point)> {
    if cameras.len() == 1 && marbles.len() == 1 {
        Some(followed(cameras[0]@, marbles[0]@, rig, delta_micros))
    } else {
        None
    }
}

/// The distance between two coordinates.
pub open spec fn gap(a: int, b: int) -> int {
    if a >= b {
        a - b
    } else {
        b - a
    }
}

/// The direction a camera faces: from its position to its look point.
pub open spec fn facing(pose: (Point, Point)) -> Point {
    pose.1.minus(pose.0)
}

/// The part of a distance that a step covers lies between nothing and the
/// whole, and what it leaves is the distance times the rest of the factor.
pub proof fn lemma_step_bounds(distance: int, factor: Factor)
    requires
        factor.wf(),
    ensures
        distance >= 0 ==> 0 <= distance * factor.parts <= distance * FACTOR_ONE,
        distance <= 0 ==> distance * FACTOR_ONE <= distance * factor.parts <= 0,
        distance * FACTOR_ONE - distance * factor.parts == distance * (FACTOR_ONE - factor.parts),
        distance > 0 && factor.parts > 0 ==> distance * factor.parts > 0,
        distance < 0 && factor.parts > 0 ==> distance * factor.parts < 0,
        factor.parts == 0 ==> distance * factor.parts == 0,
{
    let p = factor.parts as int;
    let q = 1_000_000_000 - p;
    assert(distance >= 0 ==> 0 <= distance * p <= distance * 1_000_000_000) by (nonlinear_arith)
        requires
            0 <= p <= 1_000_000_000,
    ;
    assert(distance <= 0 ==> distance * 1_000_000_000 <= distance * p <= 0) by (nonlinear_arith)
        requires
            0 <= p <= 1_000_000_000,
    ;
    assert(distance * 1_000_000_000 - distance * p == distance * q) by (nonlinear_arith)
        requires
            q == 1_000_000_000 - p,
    ;
    assert(distance > 0 && p > 0 ==> distance * p > 0) by (nonlinear_arith);
    assert(distance < 0 && p > 0 ==> distance * p < 0) by (nonlinear_arith);
    assert(p == 0 ==> distance * p == 0) by (nonlinear_arith);
}

/// A machine word of thousandths, counted in parts, is far inside the range
/// of a double word.
proof fn lemma_word_in_parts(v: i64)
    ensures
        -0x8000_0000_0000_0000 * 1_000_000_000 <= v * FACTOR_ONE <= 0x8000_0000_0000_0000
            * 1_000_000_000,
{
    let w = v as int;
    assert(-0x8000_0000_0000_0000 * 1_000_000_000 <= w * 1_000_000_000 <= 0x8000_0000_0000_0000
        * 1_000_000_000) by (nonlinear_arith)
        requires
            -0x8000_0000_0000_0000 <= w <= 0x8000_0000_0000_0000,
    ;
}

/// A smoothing step lands between where the camera was and where it wants to
/// be, both included.
pub proof fn lemma_approach_between(current: int, target: int, factor: Factor)
    requires
        factor.wf(),
    ensures
        current <= target ==> current * FACTOR_ONE <= approach(current, target, factor) <= target
            * FACTOR_ONE,
        target <= current ==> target * FACTOR_ONE <= approach(current, target, factor) <= current
            * FACTOR_ONE,
{
    lemma_step_bounds(target - current, factor);
}

/// Computes the smoothing factor for a frame that took `delta_micros`.
pub fn smoothing_factor(smoothing_rate: i64, delta_micros: u64) -> (factor: Factor)
    ensures
        factor == factor_for(smoothing_rate, delta_micros),
        factor.wf(),
        smoothing_rate * delta_micros <= 0 ==> factor.parts == 0,
        smoothing_rate * delta_micros >= FACTOR_ONE ==> factor.parts == FACTOR_ONE,
        0 <= smoothing_rate * delta_micros <= FACTOR_ONE ==> factor.parts == smoothing_rate
            * delta_micros,
{
    if smoothing_rate <= 0 {
        assert(smoothing_rate * delta_micros <= 0) by (nonlinear_arith)
            requires
                smoothing_rate <= 0,
                delta_micros >= 0,
        ;
        return Factor { parts: 0 };
    }
    assert(0 <= smoothing_rate * delta_micros <= 0x7fff_ffff_ffff_ffff * 0xffff_ffff_ffff_ffff)
        by (nonlinear_arith)
        requires
            0 < smoothing_rate <= 0x7fff_ffff_ffff_ffff,
            0 <= delta_micros <= 0xffff_ffff_ffff_ffff,
    ;
    let product: u128 = (smoothing_rate as u128) * (delta_micros as u128);
    if product >= FACTOR_ONE as u128 {
        Factor { parts: FACTOR_ONE }
    } else {
        Factor { parts: product as u32 }
    }
}

/// Moves one coordinate a smoothing step from `current` towards `target`.
/// The two are in thousandths, the result in parts of a thousandth.
pub fn approach_axis(current: i64, target: i64, factor: Factor) -> (next: i128)
    requires
        factor.wf(),
    ensures
        next == approach(current as int, target as int, factor),
        next - current * FACTOR_ONE == (target - current) * factor.parts,
{
    let distance: i128 = target as i128 - current as i128;
    proof {
        lemma_step_bounds(distance as int, factor);
        lemma_word_in_parts(current);
    }
    let start: i128 = current as i128 * (FACTOR_ONE as i128);
    let step: i128 = distance * (factor.parts as i128);
    start + step
}

/// Moves a position a smoothing step from `current` towards `target`. The
/// two are in thousandths, the result in parts of a thousandth.
pub fn smooth(current: Vec3, target: Vec3, factor: Factor) -> (next: FineVec3)
    requires
        factor.wf(),
    ensures
        next@ == smoothed(current@, target@, factor),
{
    FineVec3 {
        x: approach_axis(current.x, target.x, factor),
        y: approach_axis(current.y, target.y, factor),
        z: approach_axis(current.z, target.z, factor),
    }
}

/// Computes the place the camera wants to be for a marble at `marble`.
pub fn camera_place(marble: Vec3, rig: &CameraRig) -> (place: Vec3)
    requires
        in_range(*rig, marble),
    ensures
        place@ == place_for(marble@, *rig),
{
    Vec3 { x: marble.x, y: marble.y + rig.height, z: marble.z + rig.trail }
}

/// Computes the point a camera at `position` looks at, both in parts.
pub fn look_target(position: FineVec3, rig: &CameraRig) -> (target: FineVec3)
    requires
        look_point(position@, *rig).representable_wide(),
    ensures
        target@ == look_point(position@, *rig),
{
    proof {
        lemma_word_in_parts(rig.look_drop);
        lemma_word_in_parts(rig.look_ahead);
    }
    let drop: i128 = rig.look_drop as i128 * (FACTOR_ONE as i128);
    let ahead: i128 = rig.look_ahead as i128 * (FACTOR_ONE as i128);
    FineVec3 { x: position.x, y: position.y - drop, z: position.z + ahead }
}

/// Tells whether the camera's place for a marble is within machine range.
pub fn can_follow(rig: &CameraRig, marble: Vec3) -> (ok: bool)
    ensures
        ok == in_range(*rig, marble),
{
    let place_y: i128 = marble.y as i128 + rig.height as i128;
    let place_z: i128 = marble.z as i128 + rig.trail as i128;
    fits_word(place_y) && fits_word(place_z)
}

/// Tells whether `v` fits a 64-bit signed word.
fn fits_word(v: i128) -> (ok: bool)
    ensures
        ok == (i64::MIN <= v <= i64::MAX),
{
    i64::MIN as i128 <= v && v <= i64::MAX as i128
}

/// One frame of following for a single camera at `camera` and a single
/// marble: the new position is a smoothing step towards the camera's place,
/// and the camera is turned to look ahead from that new position.
pub fn follow(camera: Vec3, marble: Vec3, rig: &CameraRig, delta_micros: u64) -> (next: FinePose)
    requires
        in_range(*rig, marble),
    ensures
        (next.position@, next.look_at@) == followed(camera@, marble@, *rig, delta_micros),
        next.look_at@.minus(next.position@) == (Point {
            x: 0,
            y: -rig.look_drop * FACTOR_ONE,
            z: rig.look_ahead * FACTOR_ONE,
        }),
{
    let place = camera_place(marble, rig);
    let factor = smoothing_factor(rig.smoothing_rate, delta_micros);
    let position = smooth(camera, place, factor);
    proof {
        lemma_approach_between(camera@.y, place@.y, factor);
        lemma_approach_between(camera@.z, place@.z, factor);
    }
    let look_at = look_target(position, rig);
    FinePose { position, look_at }
}

/// The per-frame camera system. `cameras` holds the position of every camera
/// tagged as following, `marbles` the position of every body tagged as the
/// marble. With exactly one of each, the result is the camera's pose after a
/// smoothing step, looking ahead; otherwise there is nothing to write.
pub fn camera_follow_system(
    rig: &CameraRig,
    delta_micros: u64,
    cameras: &Vec<Vec3>,
    marbles: &Vec<Vec3>,
) -> (next: Option<FinePose>)
    requires
        cameras.len() == 1 && marbles.len() == 1 ==> in_range(*rig, marbles[0]),
    ensures
        next is Some <==> cameras.len() == 1 && marbles.len() == 1,
        match next {
            Some(pose) => following(cameras@, marbles@, *rig, delta_micros) == Some(
                (pose.position@, pose.look_at@),
            ),
            None => following(cameras@, marbles@, *rig, delta_micros) is None,
        },
{
    if cameras.len() == 1 && marbles.len() == 1 {
        Some(follow(cameras[0], marbles[0], rig, delta_micros))
    } else {
        None
    }
}

/// A smoothing step leaves of the distance to the target, along an axis, the
/// distance times the rest of the factor.
pub proof fn lemma_approach_gap(current: int, target: int, factor: Factor)
    requires
        factor.wf(),
    ensures
        gap(approach(current, target, factor), target * FACTOR_ONE) == gap(current, target) * (
        FACTOR_ONE - factor.parts),
        gap(approach(current, target, factor), target * FACTOR_ONE) <= gap(current, target)
            * FACTOR_ONE,
        factor.parts > 0 && current != target ==> gap(
            approach(current, target, factor),
            target * FACTOR_ONE,
        ) < gap(current, target) * FACTOR_ONE,
        factor.parts == FACTOR_ONE ==> approach(current, target, factor) == target * FACTOR_ONE,
        factor.parts == 0 ==> approach(current, target, factor) == current * FACTOR_ONE,
{
    lemma_step_bounds(target - current, factor);
    lemma_step_bounds(current - target, factor);
    let p = factor.parts as int;
    assert((current - target) * p == -((target - current) * p)) by (nonlinear_arith);
    assert(p == 1_000_000_000 ==> (target - current) * p == (target - current) * 1_000_000_000);
}

/// Of two distances, the shorter has the smaller square.
proof fn lemma_square_grows(d: int, e: int, a: int, b: int)
    requires
        gap(a, 0) == d,
        gap(b, 0) == e,
        d <= e,
    ensures
        a * a <= b * b,
        d < e ==> a * a < b * b,
{
    assert(a * a == d * d) by (nonlinear_arith)
        requires
            a == d || a == -d,
    ;
    assert(b * b == e * e) by (nonlinear_arith)
        requires
            b == e || b == -e,
    ;
    assert(d * d <= e * e && (d < e ==> d * d < e * e)) by (nonlinear_arith)
        requires
            0 <= d <= e,
    ;
}

/// Smoothing is at rest at its fixed point: a camera that is at its target
/// stays there, whatever the factor.
pub proof fn lemma_smoothing_fixed_point(position: Point, factor: Factor)
    ensures
        smoothed(position, position, factor) == in_parts(position),
{
    assert(0 * factor.parts == 0) by (nonlinear_arith);
}

/// While rate times elapsed time is below one, a step never takes the
/// camera farther from its target, on any axis or in Euclidean distance, and
/// never past it; when the product is also above zero and the camera is not
/// yet at the target, the step brings it strictly closer.
pub proof fn lemma_smoothing_closes_in(
    current: Point,
    target: Point,
    smoothing_rate: i64,
    delta_micros: u64,
)
    requires
        smoothing_rate * delta_micros < FACTOR_ONE,
    ensures
        ({
            let next = smoothed(current, target, factor_for(smoothing_rate, delta_micros));
            let from = in_parts(current);
            let to = in_parts(target);
            &&& gap(next.x, to.x) <= gap(from.x, to.x)
            &&& gap(next.y, to.y) <= gap(from.y, to.y)
            &&& gap(next.z, to.z) <= gap(from.z, to.z)
            &&& gap(next.x, from.x) <= gap(from.x, to.x)
            &&& gap(next.y, from.y) <= gap(from.y, to.y)
            &&& gap(next.z, from.z) <= gap(from.z, to.z)
            &&& next.distance_squared(to) <= from.distance_squared(to)
            &&& 0 < smoothing_rate * delta_micros && current != target ==> next.distance_squared(
                to,
            ) < from.distance_squared(to)
        }),
{
    let factor = factor_for(smoothing_rate, delta_micros);
    let next = smoothed(current, target, factor);
    let from = in_parts(current);
    let to = in_parts(target);
    lemma_approach_gap(current.x, target.x, factor);
    lemma_approach_gap(current.y, target.y, factor);
    lemma_approach_gap(current.z, target.z, factor);
    lemma_approach_between(current.x, target.x, factor);
    lemma_approach_between(current.y, target.y, factor);
    lemma_approach_between(current.z, target.z, factor);
    lemma_square_grows(gap(next.x, to.x), gap(from.x, to.x), next.x - to.x, from.x - to.x);
    lemma_square_grows(gap(next.y, to.y), gap(from.y, to.y), next.y - to.y, from.y - to.y);
    lemma_square_grows(gap(next.z, to.z), gap(from.z, to.z), next.z - to.z, from.z - to.z);
}

/// Once rate times elapsed time reaches one, a step puts the camera exactly
/// on its target: the factor is limited to one and the step does not overshoot.
pub proof fn lemma_smoothing_clamped(
    current: Point,
    target: Point,
    smoothing_rate: i64,
    delta_micros: u64,
)
    requires
        smoothing_rate * delta_micros >= FACTOR_ONE,
    ensures
        smoothed(current, target, factor_for(smoothing_rate, delta_micros)) == in_parts(target),
{
    let factor = factor_for(smoothing_rate, delta_micros);
    lemma_approach_gap(current.x, target.x, factor);
    lemma_approach_gap(current.y, target.y, factor);
    lemma_approach_gap(current.z, target.z, factor);
}

/// A larger product of rate and elapsed time pulls the camera at least as
/// close to its target in one step, on every axis.
pub proof fn lemma_faster_smoothing_pulls_closer(
    current: Point,
    target: Point,
    rate_a: i64,
    delta_a: u64,
    rate_b: i64,
    delta_b: u64,
)
    requires
        rate_a * delta_a <= rate_b * delta_b,
    ensures
        ({
            let slow = smoothed(current, target, factor_for(rate_a, delta_a));
            let fast = smoothed(current, target, factor_for(rate_b, delta_b));
            let to = in_parts(target);
            &&& gap(fast.x, to.x) <= gap(slow.x, to.x)
            &&& gap(fast.y, to.y) <= gap(slow.y, to.y)
            &&& gap(fast.z, to.z) <= gap(slow.z, to.z)
        }),
{
    let a = factor_for(rate_a, delta_a);
    let b = factor_for(rate_b, delta_b);
    lemma_rest_shrinks(gap(current.x, target.x), a, b);
    lemma_rest_shrinks(gap(current.y, target.y), a, b);
    lemma_rest_shrinks(gap(current.z, target.z), a, b);
    lemma_approach_gap(current.x, target.x, a);
    lemma_approach_gap(current.y, target.y, a);
    lemma_approach_gap(current.z, target.z, a);
    lemma_approach_gap(current.x, target.x, b);
    lemma_approach_gap(current.y, target.y, b);
    lemma_approach_gap(current.z, target.z, b);
}

/// Of the same distance a larger factor leaves no more.
proof fn lemma_rest_shrinks(distance: int, a: Factor, b: Factor)
    requires
        0 <= distance,
        a.parts <= b.parts,
    ensures
        distance * (FACTOR_ONE - b.parts) <= distance * (FACTOR_ONE - a.parts),
{
    let p = 1_000_000_000 - a.parts as int;
    let q = 1_000_000_000 - b.parts as int;
    assert(distance * q <= distance * p) by (nonlinear_arith)
        requires
            0 <= distance,
            q <= p,
    ;
}

/// A step carries a difference between two targets over in proportion: the
/// positions it gives differ by the factor times the difference of the
/// targets, so with a factor above zero different targets give different
/// positions, in the same order.
pub proof fn lemma_approach_proportional(current: int, low: int, high: int, factor: Factor)
    ensures
        approach(current, high, factor) - approach(current, low, factor) == (high - low)
            * factor.parts,
        low < high && factor.parts > 0 ==> approach(current, low, factor) < approach(
            current,
            high,
            factor,
        ),
        low <= high ==> approach(current, low, factor) <= approach(current, high, factor),
{
    let p = factor.parts as int;
    assert((high - current) * p - (low - current) * p == (high - low) * p) by (nonlinear_arith);
    assert(low < high && p > 0 ==> (high - low) * p > 0) by (nonlinear_arith);
    assert(low <= high ==> (high - low) * p >= 0) by (nonlinear_arith)
        requires
            p >= 0,
    ;
}

/// The direction the camera faces depends on nothing but the rig: it is the
/// same for any two marble positions, in particular for two that differ only
/// laterally, and it has no lateral component. Moving the marble sideways
/// moves the camera sideways by the factor times as much, which is some
/// movement whenever rate times elapsed time is above zero, and leaves the
/// camera's height, its forward position and its heading alone.
pub proof fn lemma_facing_ignores_lateral(
    camera: Point,
    marble_a: Point,
    marble_b: Point,
    rig: CameraRig,
    delta_micros: u64,
)
    ensures
        facing(followed(camera, marble_a, rig, delta_micros)) == facing(
            followed(camera, marble_b, rig, delta_micros),
        ),
        facing(followed(camera, marble_a, rig, delta_micros)) == (Point {
            x: 0,
            y: -rig.look_drop * FACTOR_ONE,
            z: rig.look_ahead * FACTOR_ONE,
        }),
        marble_a.y == marble_b.y ==> followed(camera, marble_a, rig, delta_micros).0.y
            == followed(camera, marble_b, rig, delta_micros).0.y,
        marble_a.z == marble_b.z ==> followed(camera, marble_a, rig, delta_micros).0.z
            == followed(camera, marble_b, rig, delta_micros).0.z,
        followed(camera, marble_a, rig, delta_micros).0.x - followed(
            camera,
            marble_b,
            rig,
            delta_micros,
        ).0.x == (marble_a.x - marble_b.x) * factor_for(rig.smoothing_rate, delta_micros).parts,
        marble_a.x != marble_b.x && rig.smoothing_rate * delta_micros > 0 ==> followed(
            camera,
            marble_a,
            rig,
            delta_micros,
        ).0.x != followed(camera, marble_b, rig, delta_micros).0.x,
{
    let factor = factor_for(rig.smoothing_rate, delta_micros);
    lemma_approach_proportional(camera.x, marble_b.x, marble_a.x, factor);
    lemma_approach_proportional(camera.x, marble_a.x, marble_b.x, factor);
}

} // verus!
