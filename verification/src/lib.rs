//! A collection of fixed-step solving techniques for general Ordinary
//! Differential Equations (ODEs).
//!
//! The solvers are written with generics such that they can be applied in
//! many scenarios.  ODEs are accepted in the form `f(y, dy, t, p)`: a
//! fallible evaluation function that fills the derivative `dy` from the
//! current state `y`, the time `t` and the parameters `p`.
//!
//! Every solver and driver states its behaviour as a contract over the
//! abstract operations of the scalar and state types, so that what a step
//! computes, which snapshots a driver records, and when each error is
//! reported are all verified properties.

/// Traits and objects common to every ODE problem.
pub mod concepts;

/// Generic implementations of the solving algorithms.
pub mod solvers;

/// Driver functions meant to be called directly.
pub mod methods;

/// Re-exports which should suffice to solve any ODE.
pub mod prelude;

