//! A seeded pseudo-random number generator for the systems of an
//! entity-component application.
//!
//! A [`RngPlugin`] carries an optional seed, a text or a number, and publishes
//! it into the application's shared configuration, modelled by [`Resources`].
//! Every system then builds an [`Rng`] of its own from that configuration, so
//! that the numbers a system draws do not depend on the order in which the
//! systems run. The contracts state the handle's starting state as a function
//! of the configured seed alone, and every draw as a function of the state.

pub mod generator;
pub mod laws;
pub mod rng;
pub mod seed;

pub use rand::Rng as _;
pub use rng::Rng;
pub use seed::{Resources, RngPlugin, Seed, SeedView};
