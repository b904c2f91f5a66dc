//! A fixed-timestep stepper for circular bodies in a rectangular field.
//!
//! A [`PhysicsWorld`] holds bodies and one configuration. A step advances
//! every body in three passes: [`integrate`] conditions each velocity and
//! moves each body along it, [`collide`] resolves the contact of every pair
//! of bodies in a fixed order ([`pairs`]), and [`contain`] holds each body
//! inside the field.
//!
//! The stepper computes in any number type that implements [`Scalar`]. It
//! never looks inside a number: it only calls the operations of the type, in
//! one fixed order. Every result is stated over those operations
//! ([`scalar`]), and [`laws`] holds what follows for every such type.

pub mod body;
pub mod collide;
pub mod config;
pub mod contain;
pub mod integrate;
pub mod laws;
pub mod pairs;
pub mod scalar;
pub mod world;

pub use body::Marble;
pub use config::PhysicsConfig;
pub use scalar::Scalar;
pub use world::{PhysicsWorld, WorldState};
