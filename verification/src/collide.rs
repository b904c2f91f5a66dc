//! Second pass: contact between two bodies, and all pairs in their order.

use vstd::prelude::*;
use crate::body::{same_body, Marble};
use crate::config::PhysicsConfig;
use crate::pairs::pairs;
use crate::scalar::{
    below, difference, functional, maximum, number, product, quotient, square_root, sum, Scalar,
};

verus! {

/// The least distance that two centers are taken to have: 1/1000. It keeps
/// the division by the distance defined where two centers coincide.
pub open spec fn least_distance<S: Scalar>() -> S {
    quotient(number(1), number(1000))
}

/// One half: the share of a correction that each body of a pair takes, and
/// the margin added to every overlap.
pub open spec fn half<S: Scalar>() -> S {
    quotient(number(1), number(2))
}

/// The vector from the center of `a` to the center of `b`.
pub open spec fn offset<S: Scalar>(a: Marble<S>, b: Marble<S>) -> (S, S) {
    (difference(b.x, a.x), difference(b.y, a.y))
}

/// The square of the distance between the two centers.
pub open spec fn squared_distance<S: Scalar>(a: Marble<S>, b: Marble<S>) -> S {
    let d = offset(a, b);
    sum(product(d.0, d.0), product(d.1, d.1))
}

/// The distance at which the two bodies touch: the sum of their radii.
pub open spec fn reach<S: Scalar>(a: Marble<S>, b: Marble<S>) -> S {
    sum(a.radius, b.radius)
}

/// The two bodies overlap: their centers are closer than their reach. The
/// squares are compared.
pub open spec fn overlapping<S: Scalar>(a: Marble<S>, b: Marble<S>) -> bool {
    below(squared_distance(a, b), product(reach(a, b), reach(a, b)))
}

/// The distance between the two centers, and not less than
/// `least_distance`.
pub open spec fn distance<S: Scalar>(a: Marble<S>, b: Marble<S>) -> S {
    maximum(square_root(squared_distance(a, b)), least_distance())
}

/// The contact normal: the offset from `a` to `b` over the distance.
pub open spec fn normal<S: Scalar>(a: Marble<S>, b: Marble<S>) -> (S, S) {
    let d = offset(a, b);
    (quotient(d.0, distance(a, b)), quotient(d.1, distance(a, b)))
}

/// The velocity of `a` relative to `b`, taken along the normal.
pub open spec fn relative_velocity<S: Scalar>(a: Marble<S>, b: Marble<S>) -> S {
    let n = normal(a, b);
    sum(product(difference(a.vx, b.vx), n.0), product(difference(a.vy, b.vy), n.1))
}

/// An impulse is exchanged: the relative velocity is below 0.
pub open spec fn exchanging<S: Scalar>(a: Marble<S>, b: Marble<S>) -> bool {
    below(relative_velocity(a, b), number(0))
}

/// The impulse per unit of mass:
/// `(1 + restitution) * relative_velocity / (mass_a + mass_b)`.
pub open spec fn impulse<S: Scalar>(config: PhysicsConfig<S>, a: Marble<S>, b: Marble<S>) -> S {
    quotient(
        product(sum(number(1), config.restitution), relative_velocity(a, b)),
        sum(a.mass, b.mass),
    )
}

/// The velocities of `a` and `b` after contact. Where an impulse is
/// exchanged, `a` loses `impulse * mass_b` along the normal and `b` gains
/// `impulse * mass_a`; where none is, both velocities stay.
pub open spec fn rebound<S: Scalar>(config: PhysicsConfig<S>, a: Marble<S>, b: Marble<S>) -> (
    (S, S),
    (S, S),
) {
    if exchanging(a, b) {
        let n = normal(a, b);
        let on_a = product(impulse(config, a, b), b.mass);
        let on_b = product(impulse(config, a, b), a.mass);
        (
            (difference(a.vx, product(on_a, n.0)), difference(a.vy, product(on_a, n.1))),
            (sum(b.vx, product(on_b, n.0)), sum(b.vy, product(on_b, n.1))),
        )
    } else {
        ((a.vx, a.vy), (b.vx, b.vy))
    }
}

/// How far each body is pushed along the normal: half of the overlap,
/// where the overlap is `reach - distance` and a margin of one half.
pub open spec fn push<S: Scalar>(a: Marble<S>, b: Marble<S>) -> (S, S) {
    let n = normal(a, b);
    let overlap = sum(difference(reach(a, b), distance(a, b)), half());
    (product(product(n.0, overlap), half()), product(product(n.1, overlap), half()))
}

/// Two overlapping bodies after their contact is resolved: the velocities
/// rebound, and `a` is pushed back along the normal as far as `b` is pushed
/// forward.
pub open spec fn resolved<S: Scalar>(config: PhysicsConfig<S>, a: Marble<S>, b: Marble<S>) -> (
    Marble<S>,
    Marble<S>,
) {
    let (va, vb) = rebound(config, a, b);
    let by = push(a, b);
    (
        Marble {
            x: difference(a.x, by.0),
            y: difference(a.y, by.1),
            vx: va.0,
            vy: va.1,
            radius: a.radius,
            mass: a.mass,
        },
        Marble {
            x: sum(b.x, by.0),
            y: sum(b.y, by.1),
            vx: vb.0,
            vy: vb.1,
            radius: b.radius,
            mass: b.mass,
        },
    )
}

/// What contact makes of two bodies: nothing where they do not overlap,
/// else the two bodies resolved.
pub open spec fn contact<S: Scalar>(config: PhysicsConfig<S>, a: Marble<S>, b: Marble<S>) -> Option<
    (Marble<S>, Marble<S>),
> {
    if overlapping(a, b) {
        Some(resolved(config, a, b))
    } else {
        None
    }
}

/// The bodies once the pair `(i, j)` has been dealt with: as before where
/// the two do not overlap, else with the two resolved bodies in their
/// places. No other body is touched.
pub open spec fn settled<S: Scalar>(
    config: PhysicsConfig<S>,
    bodies: Seq<Marble<S>>,
    i: int,
    j: int,
) -> Seq<Marble<S>> {
    match contact(config, bodies[i], bodies[j]) {
        None => bodies,
        Some((a, b)) => bodies.update(i, a).update(j, b),
    }
}

/// The bodies once the pairs of `order` have been dealt with one after
/// the other, each on what the pairs before it left.
pub open spec fn settled_along<S: Scalar>(
    config: PhysicsConfig<S>,
    bodies: Seq<Marble<S>>,
    order: Seq<(int, int)>,
) -> Seq<Marble<S>>
    decreases order.len(),
{
    if order.len() == 0 {
        bodies
    } else {
        settled(
            config,
            settled_along(config, bodies, order.drop_last()),
            order.last().0,
            order.last().1,
        )
    }
}

/// The bodies after the second pass: every pair dealt with once, in the
/// order of `pairs`.
pub open spec fn separated<S: Scalar>(config: PhysicsConfig<S>, bodies: Seq<Marble<S>>) -> Seq<
    Marble<S>,
> {
    settled_along(config, bodies, pairs(bodies.len() as int))
}

/// Resolves the contact of two bodies: `None` where they do not overlap,
/// else both bodies as contact leaves them.
pub fn resolve<S: Scalar>(config: &PhysicsConfig<S>, a: &Marble<S>, b: &Marble<S>) -> (outcome:
    Option<(Marble<S>, Marble<S>)>)
    ensures
        outcome matches Some((first, second)) ==> same_body(*a, first) && same_body(*b, second),
        functional::<S>() ==> outcome == contact(*config, *a, *b),
{
    let dx = b.x.minus(a.x);
    let dy = b.y.minus(a.y);
    let dist_sq = dx.times(dx).plus(dy.times(dy));
    let min_dist = a.radius.plus(b.radius);
    if dist_sq.less(min_dist.times(min_dist)) {
        let mut first = *a;
        let mut second = *b;
        let dist = dist_sq.root().larger(S::from_int(1).over(S::from_int(1000)));
        let nx = dx.over(dist);
        let ny = dy.over(dist);
        let relative = a.vx.minus(b.vx).times(nx).plus(a.vy.minus(b.vy).times(ny));
        if relative.less(S::from_int(0)) {
            let impulse = S::from_int(1).plus(config.restitution).times(relative).over(
                a.mass.plus(b.mass),
            );
            first.vx = a.vx.minus(impulse.times(b.mass).times(nx));
            first.vy = a.vy.minus(impulse.times(b.mass).times(ny));
            second.vx = b.vx.plus(impulse.times(a.mass).times(nx));
            second.vy = b.vy.plus(impulse.times(a.mass).times(ny));
        }
        let half = S::from_int(1).over(S::from_int(2));
        let overlap = min_dist.minus(dist).plus(half);
        first.x = a.x.minus(nx.times(overlap).times(half));
        first.y = a.y.minus(ny.times(overlap).times(half));
        second.x = b.x.plus(nx.times(overlap).times(half));
        second.y = b.y.plus(ny.times(overlap).times(half));
        Some((first, second))
    } else {
        None
    }
}

} // verus!
