//! Bodies, and what a step never changes of them.

use vstd::prelude::*;

verus! {

/// A circular body: where it is, how it moves, how large and how heavy it
/// is. Nothing is asked of the values: a radius or a mass that is not
/// positive is computed with like any other.
#[derive(Clone, Copy, Debug)]
pub struct Marble<S> {
    /// Center, x axis.
    pub x: S,
    /// Center, y axis.
    pub y: S,
    /// Velocity, x axis.
    pub vx: S,
    /// Velocity, y axis.
    pub vy: S,
    pub radius: S,
    pub mass: S,
}

/// Two bodies of one radius and one mass: what a step leaves of a body
/// whatever else it does to it.
pub open spec fn same_body<S>(before: Marble<S>, after: Marble<S>) -> bool {
    after.radius == before.radius && after.mass == before.mass
}

/// Two body sequences of one length whose bodies agree, index by index, in
/// radius and mass.
pub open spec fn same_bodies<S>(before: Seq<Marble<S>>, after: Seq<Marble<S>>) -> bool {
    &&& after.len() == before.len()
    &&& forall|i: int| 0 <= i < before.len() ==> same_body(before[i], #[trigger] after[i])
}

} // verus!
