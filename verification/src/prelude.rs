pub use crate::concepts::errors::{CalcError, SolvingError};
pub use crate::concepts::fixed_decimal::{FixedDecimal, FixedVector};
pub use crate::concepts::ode_def::{
    DuplicableType, ElementIterableType, FloatLikeType, MathVecLikeType, OdeDefinition, OdeRhsAdd,
    OdeRhsIter,
};
pub use crate::concepts::steppers::{AdaptiveStepper, Stepper};
pub use crate::methods::helper_functions::get_fixed_step_stepper;
pub use crate::methods::time_series::{
    solve_ode_time_series_minimal_step_add, solve_ode_time_series_minimal_step_iter,
    solve_ode_time_series_single_step_add, solve_ode_time_series_single_step_iter,
};
pub use crate::solvers::fixed_step::{Euler, FixedStepSolvers, FixedStepStepper, RK4};
