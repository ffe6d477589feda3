use vstd::prelude::*;

use crate::concepts::errors::CalcError;

verus! {

/// Scalar field of the integration: the type of the time variable and of a
/// state's elements.
///
/// This allows arbitrary scalar representations (single, double or extended
/// precision, and in theory even exact decimal fractions) to numerically
/// integrate an ODE.  Each arithmetic operation comes in two parts: an
/// abstract specification function that names the operation's result, and an
/// executable method whose contract ties it to that name.  The contracts of
/// the steppers and drivers are stated purely over the specification
/// functions, so two runs over equal inputs are pinned to equal results.
///
/// Since some algorithms require constants, the type must be able to map at
/// least from small integers into itself (`1/2` and `1/6` are built from
/// such constants).
///
/// The bounded sub-stepping driver repeatedly advances a time `t` towards a
/// target by `min(dt_max, target - t)`.  Whether that walk finishes is a
/// property of the scalar type, so the trait asks each implementation for a
/// measure, [`FloatLikeType::substeps_to`], together with a proof
/// obligation, [`FloatLikeType::lemma_substep_progress`], that a positive
/// sub-step strictly shrinks the measure.
pub trait FloatLikeType: Sized + Copy {
    /// The result of `self + other`.
    spec fn add_spec(self, other: Self) -> Self;

    /// The result of `self - other`.
    spec fn sub_spec(self, other: Self) -> Self;

    /// The result of `self * other`.
    spec fn mul_spec(self, other: Self) -> Self;

    /// The result of `self / other`.
    spec fn div_spec(self, other: Self) -> Self;

    /// The result of `-self`.
    spec fn neg_spec(self) -> Self;

    /// Whether `self` is ordered strictly below `other`.
    spec fn lt_spec(self, other: Self) -> bool;

    /// The scalar standing for the small integer `n`.
    spec fn from_small_int_spec(n: i8) -> Self;

    /// How many sub-steps of size at most `dt_max` the walk from `self` to
    /// `target` may still take.
    spec fn substeps_to(self, target: Self, dt_max: Self) -> u64;

    fn add(self, other: Self) -> (result: Self)
        ensures
            result == self.add_spec(other),
    ;

    fn sub(self, other: Self) -> (result: Self)
        ensures
            result == self.sub_spec(other),
    ;

    fn mul(self, other: Self) -> (result: Self)
        ensures
            result == self.mul_spec(other),
    ;

    fn div(self, other: Self) -> (result: Self)
        ensures
            result == self.div_spec(other),
    ;

    fn neg(self) -> (result: Self)
        ensures
            result == self.neg_spec(),
    ;

    fn lt(self, other: Self) -> (result: bool)
        ensures
            result == self.lt_spec(other),
    ;

    fn from_small_int(n: i8) -> (result: Self)
        ensures
            result == Self::from_small_int_spec(n),
    ;

    /// A positive sub-step of the remaining distance capped at `dt_max`,
    /// taken below the target, strictly shrinks the sub-step measure; the
    /// bounded sub-stepping driver rests its termination on this.
    proof fn lemma_substep_progress(self, target: Self, dt_max: Self, dtau: Self)
        requires
            self.lt_spec(target),
            dtau == if target.sub_spec(self).lt_spec(dt_max) {
                target.sub_spec(self)
            } else {
                dt_max
            },
            Self::from_small_int_spec(0).lt_spec(dtau),
        ensures
            self.add_spec(dtau).substeps_to(target, dt_max) < self.substeps_to(target, dt_max),
    ;
}

/// The sub-step the bounded driver takes at time `t` on its way to
/// `target`: the remaining distance, capped at `dt_max`.
pub open spec fn substep_size<F: FloatLikeType>(t: F, target: F, dt_max: F) -> F {
    let remaining = target.sub_spec(t);
    if remaining.lt_spec(dt_max) {
        remaining
    } else {
        dt_max
    }
}

/// A state type that can hand out an independent copy of itself.
///
/// The drivers clone the initial state into their result sequence and clone
/// the running state into every recorded snapshot; the steppers clone the
/// initial state once into their scratch buffers.
pub trait DuplicableType: Sized {
    fn duplicate(&self) -> (copy: Self)
        ensures
            copy == *self,
    ;
}

/// Abstract mathematical additive (vector-like) object.
///
/// This represents a type similar to a vector in a vector space: it can be
/// added to itself and scaled by a scalar of the field `F`, always yielding
/// the same type.  States of this kind are advanced by whole-object
/// arithmetic, without visiting individual elements.  As for the scalars,
/// each operation is split into a specification function and an executable
/// method tied to it.
pub trait MathVecLikeType<F>: DuplicableType {
    /// The result of `self + other`.
    spec fn add_spec(self, other: Self) -> Self;

    /// The result of scaling `v` by the scalar `factor`.
    spec fn scale_spec(factor: F, v: Self) -> Self;

    fn add(self, other: Self) -> (result: Self)
        ensures
            result == self.add_spec(other),
    ;

    fn add_assign(&mut self, other: Self)
        ensures
            *final(self) == old(self).add_spec(other),
    ;

    fn scale(factor: F, v: Self) -> (result: Self)
        ensures
            result == Self::scale_spec(factor, v),
    ;
}

/// A state whose scalar elements can be visited in a stable order.
///
/// This models fixed arrays, growable vectors, matrices — anything whose
/// elements can be read and written in lockstep with a derivative buffer.
/// The abstract view of such a state is the sequence of its elements,
/// [`ElementIterableType::elems`]; the element count and order must be
/// stable across calls, which is why writing one position updates exactly
/// that position of the view.
pub trait ElementIterableType<F>: Sized {
    /// The state's elements, in visitation order.
    spec fn elems(&self) -> Seq<F>;

    fn elem_count(&self) -> (count: usize)
        ensures
            count == self.elems().len(),
    ;

    fn elem_at(&self, index: usize) -> (element: F)
        where
            F: Copy,
        requires
            index < self.elems().len(),
        ensures
            element == self.elems()[index as int],
    ;

    fn set_elem(&mut self, index: usize, element: F)
        requires
            index < old(self).elems().len(),
        ensures
            final(self).elems() == old(self).elems().update(index as int, element),
    ;
}

/// Right-hand side of an ODE for additive (whole-object) states.
///
/// The evaluation writes the derivative of `y` at time `t` under the
/// parameters `p` into `dy`, or reports a [`CalcError`].  Which of the two
/// happens, and which derivative or message comes out, is named by
/// [`OdeRhsAdd::rhs_spec`]: the function must behave as a pure function of
/// `(y, t, p)`, so that repeated evaluation at the same point is repeatable.
pub trait OdeRhsAdd<I, F, P> {
    /// The derivative at `(y, t, p)`, or the error reported there.
    spec fn rhs_spec(&self, y: I, t: F, p: P) -> Result<I, CalcError>;

    fn eval(&self, y: &I, dy: &mut I, t: &F, p: &P) -> (result: Result<(), CalcError>)
        ensures
            match self.rhs_spec(*y, *t, *p) {
                Ok(d) => result is Ok && *final(dy) == d,
                Err(e) => result is Err && (result matches Err(e2) && e2@ == e@),
            },
    ;
}

/// Right-hand side of an ODE for element-wise iterable states.
///
/// The evaluation reads the elements of `y` and fills the elements of `dy`
/// with the derivative, or reports a [`CalcError`].  The result is named by
/// [`OdeRhsIter::rhs_elems_spec`] as a pure function of the element
/// sequence of `y`, the time and the parameters: the derivative may depend
/// on nothing else, which is what lets a stepper reuse one derivative
/// buffer for states of equal shape.
pub trait OdeRhsIter<I, F, P> {
    /// The derivative elements at `(ys, t, p)`, or the error reported there.
    spec fn rhs_elems_spec(&self, ys: Seq<F>, t: F, p: P) -> Result<Seq<F>, CalcError>;

    fn eval(&self, y: &I, dy: &mut I, t: &F, p: &P) -> (result: Result<(), CalcError>)
        where
            I: ElementIterableType<F>,
        ensures
            match self.rhs_elems_spec(y.elems(), *t, *p) {
                Ok(ds) => result is Ok && final(dy).elems() == ds,
                Err(e) => result is Err && (result matches Err(e2) && e2@ == e@),
            },
    ;
}

/// The iterable model asks for a derivative of the state's own shape: an
/// evaluation that succeeds hands back as many elements as it was given.
/// The element-wise steppers and drivers require this of their right-hand
/// side.
pub open spec fn rhs_keeps_len<I, F, P, R: OdeRhsIter<I, F, P>>(rhs: R) -> bool {
    forall|ys: Seq<F>, t: F, p: P|
        (#[trigger] rhs.rhs_elems_spec(ys, t, p)) matches Ok(ds) ==> ds.len() == ys.len()
}

/// Definition of an ODE initial-value problem.
///
/// An Ordinary Differential Equation is defined by
/// `dy/dt = f(y, t, p)`, `y(t0) = y0`:
/// the right-hand side `func` together with the initial state `y0` and the
/// initial time `t0`.  A stepper is constructed from this bundle; it takes
/// the evaluation function with it and sizes its scratch buffers after the
/// initial state.
pub struct OdeDefinition<I, F, R> {
    /// Initial state `y0`.
    pub y0: I,
    /// Initial time `t0`.
    pub t0: F,
    /// Right-hand side `f` of the ODE.
    pub func: R,
}

} // verus!
