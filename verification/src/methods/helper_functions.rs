use vstd::prelude::*;

use crate::concepts::ode_def::{DuplicableType, OdeDefinition};
use crate::solvers::fixed_step::{Euler, FixedStepSolvers, FixedStepStepper, RK4};

verus! {

/// Initializes a fixed-step stepper from the chosen algorithm.
///
/// Helper function to obtain a ready stepper from the enumeration of
/// fixed-step solvers; the stepper runs the requested algorithm and
/// advances with the right-hand side of the given problem definition.
pub fn get_fixed_step_stepper<I, F, P, R>(
    solver_type: FixedStepSolvers,
    ode_def: OdeDefinition<I, F, R>,
) -> (stepper: FixedStepStepper<I, F, P, R>)
    where
        I: DuplicableType,
    ensures
        stepper.kind() == solver_type,
        stepper.rhs() == ode_def.func,
{
    match solver_type {
        FixedStepSolvers::Euler => FixedStepStepper::Euler(Euler::from(ode_def)),
        FixedStepSolvers::Rk4 => FixedStepStepper::Rk4(RK4::from(ode_def)),
    }
}

} // verus!
