//! First pass: damping, speed limits and the move along the velocity.

use vstd::prelude::*;
use crate::body::{same_body, Marble};
use crate::config::PhysicsConfig;
use crate::scalar::{
    alike, below, functional, number, product, quotient, raised, square_root, sum, Scalar,
};

verus! {

/// The factor that one step of length `dt` applies to every velocity:
/// `damping ^ (60 dt)` where `damping < 1`, else 1. The configured damping
/// is the factor of one sixtieth of a time unit.
pub open spec fn damping_factor<S: Scalar>(config: PhysicsConfig<S>, dt: S) -> S {
    if below(config.damping, number(1)) {
        raised(config.damping, product(dt, number(60)))
    } else {
        number(1)
    }
}

/// The vector `v` times `k`.
pub open spec fn scaled<S: Scalar>(v: (S, S), k: S) -> (S, S) {
    (product(v.0, k), product(v.1, k))
}

/// The length of the vector `v`.
pub open spec fn magnitude<S: Scalar>(v: (S, S)) -> S {
    square_root(sum(product(v.0, v.0), product(v.1, v.1)))
}

/// Damping: the velocity times `factor`, left as it is where the factor
/// is 1.
pub open spec fn damped<S: Scalar>(v: (S, S), factor: S) -> (S, S) {
    if alike(factor, number(1)) {
        v
    } else {
        scaled(v, factor)
    }
}

/// Speed floor: a velocity of speed above 0 and below `min_speed` is
/// stretched by `min_speed / speed`. A body at rest stays at rest.
pub open spec fn floored<S: Scalar>(v: (S, S), speed: S, min_speed: S) -> (S, S) {
    if below(number(0), speed) && below(speed, min_speed) {
        scaled(v, quotient(min_speed, speed))
    } else {
        v
    }
}

/// Speed ceiling: a velocity of speed above `max_speed` is shortened by
/// `max_speed / speed`.
pub open spec fn capped<S: Scalar>(v: (S, S), speed: S, max_speed: S) -> (S, S) {
    if below(max_speed, speed) {
        scaled(v, quotient(max_speed, speed))
    } else {
        v
    }
}

/// The velocity that a body moves with in this step: damped, then held to
/// the floor, then to the ceiling. Floor and ceiling both go by the speed
/// after damping.
pub open spec fn conditioned<S: Scalar>(config: PhysicsConfig<S>, factor: S, v: (S, S)) -> (S, S) {
    let slowed = damped(v, factor);
    let speed = magnitude(slowed);
    capped(floored(slowed, speed, config.min_speed), speed, config.max_speed)
}

/// The body after the first pass: its velocity conditioned, its position
/// moved by that velocity times `dt`.
pub open spec fn advanced<S: Scalar>(
    config: PhysicsConfig<S>,
    factor: S,
    dt: S,
    body: Marble<S>,
) -> Marble<S> {
    let v = conditioned(config, factor, (body.vx, body.vy));
    Marble {
        x: sum(body.x, product(v.0, dt)),
        y: sum(body.y, product(v.1, dt)),
        vx: v.0,
        vy: v.1,
        radius: body.radius,
        mass: body.mass,
    }
}

/// Computes the damping factor of one step.
pub fn step_damping<S: Scalar>(config: &PhysicsConfig<S>, dt: S) -> (factor: S)
    ensures
        functional::<S>() ==> factor == damping_factor(*config, dt),
{
    if config.damping.less(S::from_int(1)) {
        config.damping.power(dt.times(S::from_int(60)))
    } else {
        S::from_int(1)
    }
}

/// Runs the first pass on one body.
pub fn advance<S: Scalar>(config: &PhysicsConfig<S>, factor: S, dt: S, body: &Marble<S>) -> (moved:
    Marble<S>)
    ensures
        same_body(*body, moved),
        functional::<S>() ==> moved == advanced(*config, factor, dt, *body),
{
    let mut vx = body.vx;
    let mut vy = body.vy;
    if !factor.equals(S::from_int(1)) {
        vx = vx.times(factor);
        vy = vy.times(factor);
    }
    let speed = vx.times(vx).plus(vy.times(vy)).root();
    if S::from_int(0).less(speed) && speed.less(config.min_speed) {
        let scale = config.min_speed.over(speed);
        vx = vx.times(scale);
        vy = vy.times(scale);
    }
    if config.max_speed.less(speed) {
        let scale = config.max_speed.over(speed);
        vx = vx.times(scale);
        vy = vy.times(scale);
    }
    Marble {
        x: body.x.plus(vx.times(dt)),
        y: body.y.plus(vy.times(dt)),
        vx,
        vy,
        radius: body.radius,
        mass: body.mass,
    }
}

} // verus!
