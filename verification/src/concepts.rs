/// Error taxonomy of the solving process.
pub mod errors;

/// An exact fixed-point decimal scalar and a vector of such scalars.
pub mod fixed_decimal;

/// Scalar, state and right-hand-side abstractions, and the problem definition.
pub mod ode_def;

/// The stepper abstractions: fixed-step and adaptive advance.
pub mod steppers;
