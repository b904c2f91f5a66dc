//! Third pass: keeping a body inside the field.

use vstd::prelude::*;
use crate::body::{same_body, Marble};
use crate::config::PhysicsConfig;
use crate::scalar::{below, difference, functional, negation, number, product, sum, Scalar};

verus! {

/// A velocity component thrown back by a wall: turned round and scaled by
/// `wall_bounce`.
pub open spec fn reflected<S: Scalar>(velocity: S, wall_bounce: S) -> S {
    product(velocity, negation(wall_bounce))
}

/// Position and velocity on one axis after the low wall, at 0: a body that
/// reaches below 0 is set to touch the wall, and is thrown back if it was
/// moving towards it.
pub open spec fn off_low_wall<S: Scalar>(at: S, velocity: S, radius: S, wall_bounce: S) -> (S, S) {
    if below(difference(at, radius), number(0)) {
        (
            radius,
            if below(velocity, number(0)) {
                reflected(velocity, wall_bounce)
            } else {
                velocity
            },
        )
    } else {
        (at, velocity)
    }
}

/// Position and velocity on one axis after the high wall, at `extent`: a
/// body that reaches beyond `extent` is set to touch the wall, and is
/// thrown back if it was moving towards it.
pub open spec fn off_high_wall<S: Scalar>(
    at: S,
    velocity: S,
    radius: S,
    extent: S,
    wall_bounce: S,
) -> (S, S) {
    if below(extent, sum(at, radius)) {
        (
            difference(extent, radius),
            if below(number(0), velocity) {
                reflected(velocity, wall_bounce)
            } else {
                velocity
            },
        )
    } else {
        (at, velocity)
    }
}

/// Position and velocity on one axis after both walls: the low wall
/// first, then the high wall on what the low wall left.
pub open spec fn held<S: Scalar>(at: S, velocity: S, radius: S, extent: S, wall_bounce: S) -> (
    S,
    S,
) {
    let low = off_low_wall(at, velocity, radius, wall_bounce);
    off_high_wall(low.0, low.1, radius, extent, wall_bounce)
}

/// The body after the third pass: held between the walls of the field on
/// the x axis and on the y axis.
pub open spec fn contained<S: Scalar>(config: PhysicsConfig<S>, body: Marble<S>) -> Marble<S> {
    let across = held(body.x, body.vx, body.radius, config.field_width, config.wall_bounce);
    let along = held(body.y, body.vy, body.radius, config.field_height, config.wall_bounce);
    Marble {
        x: across.0,
        y: along.0,
        vx: across.1,
        vy: along.1,
        radius: body.radius,
        mass: body.mass,
    }
}

/// Holds one axis of a body between 0 and `extent`.
fn hold<S: Scalar>(at: S, velocity: S, radius: S, extent: S, wall_bounce: S) -> (r: (S, S))
    ensures
        functional::<S>() ==> r == held(at, velocity, radius, extent, wall_bounce),
{
    let mut at = at;
    let mut velocity = velocity;
    if at.minus(radius).less(S::from_int(0)) {
        at = radius;
        if velocity.less(S::from_int(0)) {
            velocity = velocity.times(wall_bounce.negated());
        }
    }
    if extent.less(at.plus(radius)) {
        at = extent.minus(radius);
        if S::from_int(0).less(velocity) {
            velocity = velocity.times(wall_bounce.negated());
        }
    }
    (at, velocity)
}

/// Runs the third pass on one body.
pub fn contain<S: Scalar>(config: &PhysicsConfig<S>, body: &Marble<S>) -> (kept: Marble<S>)
    ensures
        same_body(*body, kept),
        functional::<S>() ==> kept == contained(*config, *body),
{
    let (x, vx) = hold(body.x, body.vx, body.radius, config.field_width, config.wall_bounce);
    let (y, vy) = hold(body.y, body.vy, body.radius, config.field_height, config.wall_bounce);
    Marble { x, y, vx, vy, radius: body.radius, mass: body.mass }
}

} // verus!
