//! Steering: from the held direction keys to the marble's lateral velocity.
//!
//! Steering is a direct override of the lateral velocity component. The
//! vertical and forward components belong to the physics step and are never
//! written here.

use vstd::prelude::*;
use crate::vector::Vec3;

verus! {

/// The standard strength of steering: a lateral velocity of 5 per second.
pub const CONTROL_FORCE: i64 = 5_000;

/// Which of the two steering keys are held during a frame.
#[derive(Clone, Copy, Debug, PartialEq, Eq, Structural)]
pub struct KeyState {
    /// "Steer left" is held.
    pub left: bool,
    /// "Steer right" is held.
    pub right: bool,
}

/// Linear and angular velocity of a rigid body.
#[derive(Clone, Copy, Debug, PartialEq, Eq, Structural)]
pub struct Velocity {
    /// Linear velocity.
    pub linvel: Vec3,
    /// Angular velocity.
    pub angvel: Vec3,
}

/// The lateral velocity that a key state asks for: `+control_force` for left
/// alone, `-control_force` for right alone, zero when both or neither are held.
pub open spec fn lateral_velocity(keys: KeyState, control_force: i64) -> int {
    if keys.left && !keys.right {
        control_force as int
    } else if keys.right && !keys.left {
        -(control_force as int)
    } else {
        0
    }
}

/// Whether the lateral velocity for `keys` is representable. It always is,
/// except for the negation of the least `i64`.
pub open spec fn steerable(keys: KeyState, control_force: i64) -> bool {
    keys.right && !keys.left ==> control_force > i64::MIN
}

/// The velocity after steering: the lateral linear component is replaced,
/// everything else is kept.
pub open spec fn steered(velocity: Velocity, keys: KeyState, control_force: i64) -> Velocity {
    Velocity {
        linvel: Vec3 {
            x: lateral_velocity(keys, control_force) as i64,
            y: velocity.linvel.y,
            z: velocity.linvel.z,
        },
        angvel: velocity.angvel,
    }
}

/// What the control system leaves in the set of bodies tagged as the marble:
/// a single marble is steered, anything else is left as it was.
pub open spec fn controlled(marbles: Seq<Velocity>, keys: KeyState, control_force: i64) -> Seq<
    Velocity,
> {
    if marbles.len() == 1 {
        seq![steered(marbles[0], keys, control_force)]
    } else {
        marbles
    }
}

/// Computes the lateral velocity for the held keys.
pub fn steering(keys: KeyState, control_force: i64) -> (lateral: i64)
    requires
        steerable(keys, control_force),
    ensures
        lateral == lateral_velocity(keys, control_force),
{
    let mut lateral: i64 = 0;
    if keys.left {
        lateral = lateral + control_force;
    }
    if keys.right {
        lateral = lateral - control_force;
    }
    lateral
}

/// Overrides the lateral component of `velocity` with the steering input.
pub fn steer(velocity: Velocity, keys: KeyState, control_force: i64) -> (out: Velocity)
    requires
        steerable(keys, control_force),
    ensures
        out == steered(velocity, keys, control_force),
        out.linvel.x == lateral_velocity(keys, control_force),
        out.linvel.y == velocity.linvel.y,
        out.linvel.z == velocity.linvel.z,
        out.angvel == velocity.angvel,
{
    let lateral = steering(keys, control_force);
    Velocity {
        linvel: Vec3 { x: lateral, y: velocity.linvel.y, z: velocity.linvel.z },
        angvel: velocity.angvel,
    }
}

/// The per-frame control system. `marbles` holds the velocity of every body
/// tagged as the marble. With exactly one, its lateral velocity is overridden;
/// with none or several, nothing is written.
pub fn marble_control_system(keys: KeyState, control_force: i64, marbles: &mut Vec<Velocity>)
    requires
        old(marbles).len() == 1 ==> steerable(keys, control_force),
    ensures
        final(marbles)@ == controlled(old(marbles)@, keys, control_force),
        old(marbles).len() != 1 ==> final(marbles)@ == old(marbles)@,
        final(marbles).len() == old(marbles).len(),
{
    if marbles.len() == 1 {
        let next = steer(marbles[0], keys, control_force);
        marbles.set(0, next);
        assert(marbles@ =~= seq![next]);
    }
}

/// Steering reads nothing but the keys: whatever the marble's velocity, the
/// lateral component afterwards is the one the keys ask for, and the vertical
/// and forward components and the spin are the ones it had.
pub proof fn lemma_steering_touches_lateral_only(
    velocity: Velocity,
    keys: KeyState,
    control_force: i64,
)
    requires
        steerable(keys, control_force),
    ensures
        keys.left && !keys.right ==> steered(velocity, keys, control_force).linvel.x
            == control_force,
        keys.right && !keys.left ==> steered(velocity, keys, control_force).linvel.x
            == -control_force,
        keys.left == keys.right ==> steered(velocity, keys, control_force).linvel.x == 0,
        steered(velocity, keys, control_force).linvel.y == velocity.linvel.y,
        steered(velocity, keys, control_force).linvel.z == velocity.linvel.z,
        steered(velocity, keys, control_force).angvel == velocity.angvel,
{
}

/// Steering twice with the same keys is the same as steering once.
pub proof fn lemma_steering_idempotent(velocity: Velocity, keys: KeyState, control_force: i64)
    requires
        steerable(keys, control_force),
    ensures
        steered(steered(velocity, keys, control_force), keys, control_force) == steered(
            velocity,
            keys,
            control_force,
        ),
{
}

} // verus!
