//! A fixed-point model of an object that falls toward the Earth under
//! gravity and the drag of the air.
//!
//! The fall is integrated by the forward-Euler method with a fixed time
//! step. Every quantity is an integer count of a fixed unit (see [`units`]),
//! so that each function has an exact value, stated in its contract, and a
//! fall is the same on every machine.
//!
//! - [`atmosphere`]: the density of the air at an altitude.
//! - [`gravity`]: Newton's law and the mass of the Earth below an altitude.
//! - [`drag`]: the drag of the air on a cube.
//! - [`config`]: the parameters of a fall and their validation.
//! - [`integrator`]: one step of the fall, and the tests that end a fall and
//!   pick the steps to report.
//! - [`simulation`]: the fall as a whole.
//!
//! One thing is left to the caller. Below sea level the air density is the
//! sea-level density times a power with the exponent 5.25588, which has no
//! exact value in integers. There [`atmosphere::density`] hands back the
//! base of the power and a run stops; the caller raises the base to the
//! power and goes on with [`simulation::resume`]. A fall that ends at the
//! surface never comes there.

pub mod atmosphere;
pub mod config;
pub mod drag;
pub mod gravity;
pub mod integrator;
pub mod simulation;
pub mod units;
