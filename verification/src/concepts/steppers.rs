use vstd::prelude::*;

use crate::concepts::errors::CalcError;
use crate::concepts::ode_def::{
    DuplicableType, ElementIterableType, FloatLikeType, MathVecLikeType, OdeRhsAdd, OdeRhsIter,
    rhs_keeps_len,
};

verus! {

/// Incremental advance of an ODE state to the next time step.
///
/// A stepper is bound to one right-hand side, taken from the problem
/// definition it was constructed from and named by [`Stepper::rhs`].  It
/// offers the advance under the two state models:
///
/// * [`Stepper::do_step_iter`] updates the state element by element and
///   asks for the iterable model.  It intrinsically assumes that repeated
///   iteration of the state visits the same elements in the same order,
///   which is the contract of
///   [`ElementIterableType`](crate::concepts::ode_def::ElementIterableType).
/// * [`Stepper::do_step_add`] treats the state as one additive object and
///   asks for the algebraic model.
///
/// What one advance computes is named by the two specification functions:
/// each implementation defines them as its algorithm, stated over the
/// abstract scalar and state operations, and the methods' contracts pin the
/// updated state to them.  An advance may instead report the error of a
/// failed right-hand-side evaluation, with its message intact; the state is
/// then not trusted to hold a meaningful value.
pub trait Stepper<I, F, P, R>: Sized {
    /// The right-hand side this stepper advances with.
    spec fn rhs(&self) -> R;

    /// The elements of the state one element-wise advance produces from the
    /// elements `ys` at time `t` with step `dt`, or the error it reports.
    spec fn step_iter_spec(&self, ys: Seq<F>, t: F, dt: F, p: P) -> Result<Seq<F>, CalcError>
        where
            F: FloatLikeType,
            R: OdeRhsIter<I, F, P>,
    ;

    /// The state one whole-object advance produces from the state `y` at
    /// time `t` with step `dt`, or the error it reports.
    spec fn step_add_spec(&self, y: I, t: F, dt: F, p: P) -> Result<I, CalcError>
        where
            I: MathVecLikeType<F>,
            F: FloatLikeType,
            R: OdeRhsAdd<I, F, P>,
    ;

    fn do_step_iter(&mut self, y: &mut I, t: &F, dt: &F, p: &P) -> (result: Result<(), CalcError>)
        where
            I: ElementIterableType<F> + DuplicableType,
            F: FloatLikeType,
            R: OdeRhsIter<I, F, P>,
        requires
            rhs_keeps_len::<I, F, P, R>(old(self).rhs()),
        ensures
            final(self).rhs() == old(self).rhs(),
            match old(self).step_iter_spec(old(y).elems(), *t, *dt, *p) {
                Ok(ys) => result is Ok && final(y).elems() == ys,
                Err(e) => result is Err && (result matches Err(e2) && e2@ == e@),
            },
    ;

    fn do_step_add(&mut self, y: &mut I, t: &F, dt: &F, p: &P) -> (result: Result<(), CalcError>)
        where
            I: MathVecLikeType<F>,
            F: FloatLikeType,
            R: OdeRhsAdd<I, F, P>,
        ensures
            final(self).rhs() == old(self).rhs(),
            match old(self).step_add_spec(*old(y), *t, *dt, *p) {
                Ok(y2) => result is Ok && *final(y) == y2,
                Err(e) => result is Err && (result matches Err(e2) && e2@ == e@),
            },
    ;
}

/// Incremental advance that may in addition suggest the size of the next
/// step.
///
/// This is the interface for steppers that control their own step size; a
/// successful advance hands back `Some` suggested next step or `None` where
/// the stepper has no opinion.  No step-size-control algorithm is
/// implemented here: the trait is declared for callers that want to plug
/// one in.
pub trait AdaptiveStepper<I, F, P, R>: Sized {
    fn do_step_iter(&mut self, y: &mut I, t: &F, dt: &F, p: &P) -> Result<Option<F>, CalcError>
        where
            I: ElementIterableType<F> + DuplicableType,
            F: FloatLikeType,
            R: OdeRhsIter<I, F, P>,
    ;

    fn do_step_add(&mut self, y: &mut I, t: &F, dt: &F, p: &P) -> Result<Option<F>, CalcError>
        where
            I: MathVecLikeType<F>,
            F: FloatLikeType,
            R: OdeRhsAdd<I, F, P>,
    ;
}

} // verus!
