//! The world: bodies under one configuration, and the step that advances
//! them.

use vstd::prelude::*;
use crate::body::{same_bodies, Marble};
use crate::collide::{resolve, separated, settled_along};
use crate::config::PhysicsConfig;
use crate::contain::{contain, contained};
use crate::integrate::{advance, advanced, damping_factor, step_damping};
use crate::pairs::{row, rows, visited};
use crate::scalar::{functional, Scalar};

verus! {

/// What a world holds: its bodies in index order, and its configuration.
pub struct WorldState<S> {
    pub bodies: Seq<Marble<S>>,
    pub config: PhysicsConfig<S>,
}

/// The bodies after the first pass of a step of length `dt`: each one
/// advanced, all with the one damping factor of the step.
pub open spec fn integrated<S: Scalar>(
    config: PhysicsConfig<S>,
    dt: S,
    bodies: Seq<Marble<S>>,
) -> Seq<Marble<S>> {
    bodies.map_values(|body: Marble<S>| advanced(config, damping_factor(config, dt), dt, body))
}

/// The bodies after the third pass: each one contained.
pub open spec fn confined<S: Scalar>(config: PhysicsConfig<S>, bodies: Seq<Marble<S>>) -> Seq<
    Marble<S>,
> {
    bodies.map_values(|body: Marble<S>| contained(config, body))
}

/// The bodies after one step of length `dt`: integrated, then separated,
/// then confined, each pass on what the one before it left.
pub open spec fn stepped<S: Scalar>(
    config: PhysicsConfig<S>,
    dt: S,
    bodies: Seq<Marble<S>>,
) -> Seq<Marble<S>> {
    confined(config, separated(config, integrated(config, dt, bodies)))
}

/// Bodies in a field. Bodies are appended by the caller, moved in place by
/// stepping, and removed only all at once.
pub struct PhysicsWorld<S> {
    marbles: Vec<Marble<S>>,
    config: PhysicsConfig<S>,
}

impl<S> View for PhysicsWorld<S> {
    type V = WorldState<S>;

    closed spec fn view(&self) -> WorldState<S> {
        WorldState { bodies: self.marbles@, config: self.config }
    }
}

impl<S> PhysicsWorld<S> {
    /// An empty world under `config`.
    pub fn new(config: PhysicsConfig<S>) -> (world: PhysicsWorld<S>)
        ensures
            world@.bodies == Seq::<Marble<S>>::empty(),
            world@.config == config,
    {
        PhysicsWorld { marbles: Vec::new(), config }
    }

    /// Appends one body; the bodies already there keep their indices.
    pub fn add_marble(&mut self, x: S, y: S, vx: S, vy: S, radius: S, mass: S)
        ensures
            final(self)@.bodies == old(self)@.bodies.push(Marble { x, y, vx, vy, radius, mass }),
            final(self)@.config == old(self)@.config,
    {
        self.marbles.push(Marble { x, y, vx, vy, radius, mass });
    }

    /// Removes every body.
    pub fn clear_marbles(&mut self)
        ensures
            final(self)@.bodies == Seq::<Marble<S>>::empty(),
            final(self)@.config == old(self)@.config,
    {
        self.marbles.clear();
    }

    /// Replaces the configuration as a whole; the bodies stay as they are.
    /// The next step runs under the new configuration.
    pub fn update_config(&mut self, config: PhysicsConfig<S>)
        ensures
            final(self)@.config == config,
            final(self)@.bodies == old(self)@.bodies,
    {
        self.config = config;
    }

    /// The number of bodies.
    pub fn get_marbles_len(&self) -> (len: usize)
        ensures
            len == self@.bodies.len(),
    {
        self.marbles.len()
    }

    /// The bodies in index order, borrowed from the world: the world cannot
    /// be changed while the borrow is in use.
    pub fn marbles(&self) -> (bodies: &[Marble<S>])
        ensures
            bodies@ == self@.bodies,
    {
        self.marbles.as_slice()
    }

    /// The configuration in force.
    pub fn config(&self) -> (config: &PhysicsConfig<S>)
        ensures
            *config == self@.config,
    {
        &self.config
    }
}

impl<S: Scalar> PhysicsWorld<S> {
    /// First pass: advances every body by `dt`.
    pub fn integrate(&mut self, dt: S)
        ensures
            final(self)@.config == old(self)@.config,
            same_bodies(old(self)@.bodies, final(self)@.bodies),
            functional::<S>() ==> final(self)@.bodies == integrated(
                old(self)@.config,
                dt,
                old(self)@.bodies,
            ),
    {
        let factor = step_damping(&self.config, dt);
        let n: usize = self.marbles.len();
        let mut i: usize = 0;
        while i < n
            invariant
                i <= n,
                n == self.marbles@.len(),
                self.config == old(self).config,
                same_bodies(old(self).marbles@, self.marbles@),
                functional::<S>() ==> factor == damping_factor(self.config, dt),
                forall|k: int| i <= k < n ==> self.marbles@[k] == old(self).marbles@[k],
                functional::<S>() ==> forall|k: int|
                    0 <= k < i ==> #[trigger] self.marbles@[k] == advanced(
                        self.config,
                        factor,
                        dt,
                        old(self).marbles@[k],
                    ),
            decreases n - i,
        {
            let moved = advance(&self.config, factor, dt, &self.marbles[i]);
            self.marbles[i] = moved;
            i = i + 1;
        }
    }

    /// Second pass: resolves the contact of every pair of bodies, in the
    /// order of `pairs`. What one pair leaves is what the next pair finds.
    pub fn collide(&mut self)
        ensures
            final(self)@.config == old(self)@.config,
            same_bodies(old(self)@.bodies, final(self)@.bodies),
            functional::<S>() ==> final(self)@.bodies == separated(
                old(self)@.config,
                old(self)@.bodies,
            ),
    {
        let n: usize = self.marbles.len();
        let mut i: usize = 0;
        while i < n
            invariant
                i <= n,
                n == self.marbles@.len(),
                self.config == old(self).config,
                same_bodies(old(self).marbles@, self.marbles@),
                functional::<S>() ==> self.marbles@ == settled_along(
                    self.config,
                    old(self).marbles@,
                    rows(n as int, i as int),
                ),
            decreases n - i,
        {
            let mut j: usize = i + 1;
            while j < n
                invariant
                    i < j <= n,
                    n == self.marbles@.len(),
                    self.config == old(self).config,
                    same_bodies(old(self).marbles@, self.marbles@),
                    functional::<S>() ==> self.marbles@ == settled_along(
                        self.config,
                        old(self).marbles@,
                        visited(n as int, i as int, j as int),
                    ),
                decreases n - j,
            {
                let outcome = resolve(&self.config, &self.marbles[i], &self.marbles[j]);
                match outcome {
                    None => {},
                    Some((first, second)) => {
                        self.marbles[i] = first;
                        self.marbles[j] = second;
                    },
                }
                proof {
                    // the pairs seen so far are the pairs seen before this one, and this one
                    assert(visited(n as int, i as int, j + 1).drop_last() =~= visited(
                        n as int,
                        i as int,
                        j as int,
                    ));
                }
                j = j + 1;
            }
            proof {
                // the row of body i is complete
                assert(row(n as int, i as int).take(n - i - 1) =~= row(n as int, i as int));
            }
            i = i + 1;
        }
    }

    /// Third pass: holds every body inside the field.
    pub fn confine(&mut self)
        ensures
            final(self)@.config == old(self)@.config,
            same_bodies(old(self)@.bodies, final(self)@.bodies),
            functional::<S>() ==> final(self)@.bodies == confined(
                old(self)@.config,
                old(self)@.bodies,
            ),
    {
        let n: usize = self.marbles.len();
        let mut i: usize = 0;
        while i < n
            invariant
                i <= n,
                n == self.marbles@.len(),
                self.config == old(self).config,
                same_bodies(old(self).marbles@, self.marbles@),
                forall|k: int| i <= k < n ==> self.marbles@[k] == old(self).marbles@[k],
                functional::<S>() ==> forall|k: int|
                    0 <= k < i ==> #[trigger] self.marbles@[k] == contained(
                        self.config,
                        old(self).marbles@[k],
                    ),
            decreases n - i,
        {
            let kept = contain(&self.config, &self.marbles[i]);
            self.marbles[i] = kept;
            i = i + 1;
        }
    }

    /// Advances the world by one step of length `dt`: every body is moved,
    /// then every pair in contact is resolved, then every body is held
    /// inside the field.
    ///
    /// The number of bodies, their order, their radii and their masses are
    /// as before, and so is the configuration. `dt` is taken as it is:
    /// nothing is asked of it.
    pub fn step(&mut self, dt: S)
        ensures
            final(self)@.config == old(self)@.config,
            same_bodies(old(self)@.bodies, final(self)@.bodies),
            functional::<S>() ==> final(self)@.bodies == stepped(
                old(self)@.config,
                dt,
                old(self)@.bodies,
            ),
    {
        self.integrate(dt);
        self.collide();
        self.confine();
    }
}

} // verus!
