//! What holds of every step, for every number type.
//!
//! The laws are stated over the spec functions that the contracts of the
//! stepper use. Some hold as they stand. Others hold where the numbers at
//! hand are computed exactly, and say so in a hypothesis that names the few
//! comparisons and results they rest on: arithmetic that rounds meets such
//! a hypothesis for most inputs and fails it for some.

use vstd::prelude::*;
use crate::body::{same_bodies, Marble};
use crate::collide::{exchanging, overlapping, separated, settled, settled_along};
use crate::config::PhysicsConfig;
use crate::contain::contained;
use crate::integrate::{conditioned, damped, damping_factor, magnitude, scaled};
use crate::pairs::{lemma_pairs_exact, pairs};
use crate::scalar::{alike, below, difference, number, product, quotient, sum, Scalar};
use crate::world::{confined, integrated, stepped, WorldState};

verus! {

/// Determinism: a step is a function of the world and of `dt`. Worlds that
/// hold the same bodies under the same configuration hold the same bodies
/// after a step of the same length.
pub proof fn lemma_step_is_determined<S: Scalar>(one: WorldState<S>, other: WorldState<S>, dt: S)
    requires
        one.bodies == other.bodies,
        one.config == other.config,
    ensures
        stepped(one.config, dt, one.bodies) == stepped(other.config, dt, other.bodies),
{
}

/// Every entry of `order` names two different bodies of `n`, the lower
/// index first.
pub open spec fn within(order: Seq<(int, int)>, n: int) -> bool {
    forall|k: int| 0 <= k < order.len() ==> 0 <= (#[trigger] order[k]).0 < order[k].1 < n
}

/// Resolving one pair writes to the two bodies of the pair and to no
/// other, changes no radius and no mass, and changes nothing at all where
/// the two do not overlap.
pub proof fn lemma_settled_is_local<S: Scalar>(
    config: PhysicsConfig<S>,
    bodies: Seq<Marble<S>>,
    i: int,
    j: int,
)
    requires
        0 <= i < j < bodies.len(),
    ensures
        same_bodies(bodies, settled(config, bodies, i, j)),
        forall|k: int|
            0 <= k < bodies.len() && k != i && k != j ==> settled(config, bodies, i, j)[k]
                == bodies[k],
        !overlapping(bodies[i], bodies[j]) ==> settled(config, bodies, i, j) == bodies,
{
}

/// A contact without impulse puts no energy in: where the relative
/// velocity of two bodies along their normal is not below 0, resolving the
/// pair changes the velocity of no body. Only the positions of the two are
/// corrected, and only where the two overlap.
pub proof fn lemma_contact_without_impulse_keeps_velocity<S: Scalar>(
    config: PhysicsConfig<S>,
    bodies: Seq<Marble<S>>,
    i: int,
    j: int,
)
    requires
        0 <= i < j < bodies.len(),
        !exchanging(bodies[i], bodies[j]),
    ensures
        forall|k: int|
            0 <= k < bodies.len() ==> {
                &&& (#[trigger] settled(config, bodies, i, j)[k]).vx == bodies[k].vx
                &&& settled(config, bodies, i, j)[k].vy == bodies[k].vy
            },
{
}

/// Resolving pairs one after the other changes neither the number of
/// bodies nor any radius or mass.
pub proof fn lemma_settled_along_keeps_bodies<S: Scalar>(
    config: PhysicsConfig<S>,
    bodies: Seq<Marble<S>>,
    order: Seq<(int, int)>,
)
    requires
        within(order, bodies.len() as int),
    ensures
        same_bodies(bodies, settled_along(config, bodies, order)),
    decreases order.len(),
{
    if order.len() > 0 {
        let earlier = order.drop_last();
        lemma_settled_along_keeps_bodies(config, bodies, earlier);
        lemma_settled_is_local(
            config,
            settled_along(config, bodies, earlier),
            order.last().0,
            order.last().1,
        );
    }
}

/// Where no two bodies overlap, resolving pairs changes nothing.
pub proof fn lemma_settled_along_apart<S: Scalar>(
    config: PhysicsConfig<S>,
    bodies: Seq<Marble<S>>,
    order: Seq<(int, int)>,
)
    requires
        within(order, bodies.len() as int),
        forall|i: int, j: int|
            0 <= i < j < bodies.len() ==> !#[trigger] overlapping(bodies[i], bodies[j]),
    ensures
        settled_along(config, bodies, order) == bodies,
    decreases order.len(),
{
    if order.len() > 0 {
        lemma_settled_along_apart(config, bodies, order.drop_last());
    }
}

/// A step changes neither the number of bodies nor their order, and no
/// radius and no mass.
pub proof fn lemma_step_keeps_bodies<S: Scalar>(
    config: PhysicsConfig<S>,
    dt: S,
    bodies: Seq<Marble<S>>,
)
    ensures
        same_bodies(bodies, stepped(config, dt, bodies)),
{
    // the first and the third pass keep radius and mass body by body; so
    // does the second, pair by pair
    let moved = integrated(config, dt, bodies);
    lemma_pairs_exact(moved.len() as int);
    lemma_settled_along_keeps_bodies(config, moved, pairs(moved.len() as int));
}

/// The speed limits are measured exactly on the velocity `slowed`: the
/// comparisons among its speed and the two limits are those of an order,
/// and where a limit applies, stretching the velocity to the limit gives a
/// velocity of that speed. Exact arithmetic has this for every velocity
/// that moves; rounding can miss a limit by the last digit, and a value
/// that compares with nothing has no place in an order.
pub open spec fn limits_measure_exactly<S: Scalar>(config: PhysicsConfig<S>, slowed: (S, S)) -> bool {
    let speed = magnitude(slowed);
    let floor = config.min_speed;
    let ceiling = config.max_speed;
    &&& !below(floor, floor)
    &&& !below(ceiling, ceiling)
    &&& !(below(speed, floor) && below(floor, speed))
    &&& below(ceiling, speed) ==> below(ceiling, floor) || below(floor, speed)
    &&& below(speed, floor) ==> magnitude(scaled(slowed, quotient(floor, speed))) == floor
    &&& below(ceiling, speed) ==> magnitude(scaled(slowed, quotient(ceiling, speed))) == ceiling
}

/// Speed limits. With `min_speed <= max_speed`, a velocity whose speed
/// after damping is above 0, and on which the limits are measured exactly,
/// leaves the first pass with a speed from `min_speed` to `max_speed`.
pub proof fn lemma_conditioned_speed_within_limits<S: Scalar>(
    config: PhysicsConfig<S>,
    factor: S,
    v: (S, S),
)
    requires
        !below(config.max_speed, config.min_speed),
        below(number(0), magnitude(damped(v, factor))),
        limits_measure_exactly(config, damped(v, factor)),
    ensures
        !below(magnitude(conditioned(config, factor, v)), config.min_speed),
        !below(config.max_speed, magnitude(conditioned(config, factor, v))),
{
}

/// Speed limits after the first pass: what
/// `lemma_conditioned_speed_within_limits` says of one velocity holds of
/// each body of a world.
pub proof fn lemma_integrated_speed_within_limits<S: Scalar>(
    config: PhysicsConfig<S>,
    dt: S,
    bodies: Seq<Marble<S>>,
    i: int,
)
    requires
        0 <= i < bodies.len(),
        !below(config.max_speed, config.min_speed),
        below(
            number(0),
            magnitude(damped((bodies[i].vx, bodies[i].vy), damping_factor(config, dt))),
        ),
        limits_measure_exactly(
            config,
            damped((bodies[i].vx, bodies[i].vy), damping_factor(config, dt)),
        ),
    ensures
        ({
            let moved = integrated(config, dt, bodies)[i];
            &&& !below(magnitude((moved.vx, moved.vy)), config.min_speed)
            &&& !below(config.max_speed, magnitude((moved.vx, moved.vy)))
        }),
{
    lemma_conditioned_speed_within_limits(
        config,
        damping_factor(config, dt),
        (bodies[i].vx, bodies[i].vy),
    );
}

/// The walls of one axis are measured exactly on a body at `at`: the
/// third pass, which compares `at - radius` with 0 and `at + radius` with
/// `extent`, sees the body reach beyond a wall wherever `at` is below
/// `radius` or above `extent - radius`. Exact arithmetic has this;
/// rounding can lose the last digit of a sum, and a value that compares
/// with nothing has no place in an order.
pub open spec fn walls_measure_exactly<S: Scalar>(at: S, radius: S, extent: S) -> bool {
    let far = difference(extent, radius);
    &&& !below(radius, radius)
    &&& !below(far, far)
    &&& below(at, radius) ==> below(difference(at, radius), number(0))
    &&& below(far, at) ==> below(extent, sum(at, radius))
}

/// The body lies inside the field: `radius <= x <= field_width - radius`
/// and `radius <= y <= field_height - radius`.
pub open spec fn inside<S: Scalar>(config: PhysicsConfig<S>, body: Marble<S>) -> bool {
    &&& !below(body.x, body.radius)
    &&& !below(difference(config.field_width, body.radius), body.x)
    &&& !below(body.y, body.radius)
    &&& !below(difference(config.field_height, body.radius), body.y)
}

/// The field has room for the body: `radius <= field_width - radius` and
/// `radius <= field_height - radius`.
pub open spec fn fits<S: Scalar>(config: PhysicsConfig<S>, body: Marble<S>) -> bool {
    &&& !below(difference(config.field_width, body.radius), body.radius)
    &&& !below(difference(config.field_height, body.radius), body.radius)
}

/// Containment. The third pass leaves a body inside the field where the
/// field has room for it and the walls are measured exactly on it.
pub proof fn lemma_contained_is_inside<S: Scalar>(config: PhysicsConfig<S>, body: Marble<S>)
    requires
        fits(config, body),
        walls_measure_exactly(body.x, body.radius, config.field_width),
        walls_measure_exactly(body.y, body.radius, config.field_height),
    ensures
        inside(config, contained(config, body)),
{
}

/// Containment after a step. A body is inside the field after a step
/// where the field has room for it and the walls are measured exactly on
/// it as the third pass finds it.
pub proof fn lemma_step_ends_inside<S: Scalar>(
    config: PhysicsConfig<S>,
    dt: S,
    bodies: Seq<Marble<S>>,
    i: int,
)
    requires
        0 <= i < bodies.len(),
        fits(config, bodies[i]),
        ({
            let found = separated(config, integrated(config, dt, bodies))[i];
            &&& walls_measure_exactly(found.x, found.radius, config.field_width)
            &&& walls_measure_exactly(found.y, found.radius, config.field_height)
        }),
    ensures
        inside(config, stepped(config, dt, bodies)[i]),
{
    // the body has its radius still when the third pass finds it, so the
    // field has room for it there too
    let moved = integrated(config, dt, bodies);
    lemma_pairs_exact(moved.len() as int);
    lemma_settled_along_keeps_bodies(config, moved, pairs(moved.len() as int));
    lemma_contained_is_inside(config, separated(config, moved)[i]);
}

/// The first pass has nothing to do on the body: damping over `dt` is 1,
/// the speed is 0 or within its limits, and `dt` times the velocity adds
/// nothing to the position, as with a `dt` of 0.
pub open spec fn unmoved<S: Scalar>(config: PhysicsConfig<S>, dt: S, body: Marble<S>) -> bool {
    let speed = magnitude((body.vx, body.vy));
    &&& alike(damping_factor(config, dt), number(1))
    &&& !(below(number(0), speed) && below(speed, config.min_speed))
    &&& !below(config.max_speed, speed)
    &&& sum(body.x, product(body.vx, dt)) == body.x
    &&& sum(body.y, product(body.vy, dt)) == body.y
}

/// The third pass has nothing to do on the body: it finds it beyond no
/// wall.
pub open spec fn clear_of_walls<S: Scalar>(config: PhysicsConfig<S>, body: Marble<S>) -> bool {
    &&& !below(difference(body.x, body.radius), number(0))
    &&& !below(config.field_width, sum(body.x, body.radius))
    &&& !below(difference(body.y, body.radius), number(0))
    &&& !below(config.field_height, sum(body.y, body.radius))
}

/// A step that has nothing to do changes nothing: where the first pass
/// moves no body, no two bodies overlap and every body is clear of the
/// walls, the bodies after the step are the bodies before it. A second
/// such step changes nothing either.
pub proof fn lemma_step_at_rest<S: Scalar>(config: PhysicsConfig<S>, dt: S, bodies: Seq<Marble<S>>)
    requires
        forall|i: int| 0 <= i < bodies.len() ==> unmoved(config, dt, #[trigger] bodies[i]),
        forall|i: int, j: int|
            0 <= i < j < bodies.len() ==> !#[trigger] overlapping(bodies[i], bodies[j]),
        forall|i: int| 0 <= i < bodies.len() ==> clear_of_walls(config, #[trigger] bodies[i]),
    ensures
        stepped(config, dt, bodies) == bodies,
{
    // pass by pass: each leaves the bodies as it found them
    assert(integrated(config, dt, bodies) =~= bodies);
    lemma_pairs_exact(bodies.len() as int);
    lemma_settled_along_apart(config, bodies, pairs(bodies.len() as int));
    assert(confined(config, bodies) =~= bodies);
}

} // verus!
