//! Core of a small artificial-life simulation.
//!
//! Critters and food live on a plane that wraps around at its edges. Critters
//! move at the velocity they were born with and pay for every unit of
//! distance with health; a critter that touches food takes the health the
//! food holds; whatever has no health left is removed.
//!
//! A world is generated once, from a master seed, and then advanced tick by
//! tick: the integrator in `motion` moves the critters, the resolver in
//! `contact` handles the contacts reported for the tick, and the sweep in
//! `mortality` removes the dead. Rendering, contact detection and the clock
//! are somebody else's business: the core is handed elapsed times, bounds and
//! contact events, and hands back what changed.
//!
//! All quantities are fixed-point numbers in millionths, so that a run can be
//! repeated exactly anywhere.

pub mod angle;
pub mod args;
pub mod contact;
pub mod critters;
pub mod entity;
pub mod fixed;
pub mod food;
pub mod mortality;
pub mod motion;
pub mod store;
pub mod stream;
pub mod world;
