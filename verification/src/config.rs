//! The field and the physical constants that one step runs under.

use vstd::prelude::*;

verus! {

/// Field size and physical constants. The value is taken as given: nothing
/// is validated, and a world swaps it only as a whole.
#[derive(Clone, Copy, Debug)]
pub struct PhysicsConfig<S> {
    /// The field reaches from 0 to `field_width` on the x axis.
    pub field_width: S,
    /// The field reaches from 0 to `field_height` on the y axis.
    pub field_height: S,
    /// The factor that a velocity keeps over one sixtieth of a time unit;
    /// 1 or more switches damping off.
    pub damping: S,
    /// How much of the relative velocity a contact gives back.
    pub restitution: S,
    /// How much of its velocity a body keeps when a wall throws it back.
    pub wall_bounce: S,
    /// The least speed of a body that moves.
    pub min_speed: S,
    /// The greatest speed of a body.
    pub max_speed: S,
}

impl<S> PhysicsConfig<S> {
    /// The configuration with these seven values, none of them looked at.
    pub fn new(
        field_width: S,
        field_height: S,
        damping: S,
        restitution: S,
        wall_bounce: S,
        min_speed: S,
        max_speed: S,
    ) -> (config: PhysicsConfig<S>)
        ensures
            config == (PhysicsConfig {
                field_width,
                field_height,
                damping,
                restitution,
                wall_bounce,
                min_speed,
                max_speed,
            }),
    {
        PhysicsConfig {
            field_width,
            field_height,
            damping,
            restitution,
            wall_bounce,
            min_speed,
            max_speed,
        }
    }
}

} // verus!
