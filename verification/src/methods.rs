/// Helper to construct a stepper from the solver enumeration.
pub mod helper_functions;

/// The time-series driver functions.
pub mod time_series;
