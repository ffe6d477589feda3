use vstd::prelude::*;

use core::marker::PhantomData;

use crate::concepts::errors::CalcError;
use crate::concepts::ode_def::{
    DuplicableType, ElementIterableType, FloatLikeType, MathVecLikeType, OdeDefinition, OdeRhsAdd,
    OdeRhsIter, rhs_keeps_len,
};
use crate::concepts::steppers::Stepper;

verus! {

/// The available fixed-step solving algorithms.
#[derive(Clone, Copy, Debug)]
pub enum FixedStepSolvers {
    /// Explicit Euler: first order, one evaluation per step.
    Euler,
    /// Classical Runge-Kutta: fourth order, four evaluations per step.
    Rk4,
}

/// Each derivative element scaled by `factor`: the element sequence of a
/// stage variable `k = dt * f(...)`.
pub open spec fn scale_seq<F: FloatLikeType>(factor: F, ds: Seq<F>) -> Seq<F> {
    Seq::new(ds.len(), |j: int| factor.mul_spec(ds[j]))
}

/// Element-wise `ys + factor * ks`, for sequences of equal length: the
/// elements of an intermediate stage state.
pub open spec fn saxpy_seq<F: FloatLikeType>(ys: Seq<F>, factor: F, ks: Seq<F>) -> Seq<F> {
    Seq::new(ys.len(), |j: int| ys[j].add_spec(factor.mul_spec(ks[j])))
}

/// Element-wise `ys + ks`, for sequences of equal length.
pub open spec fn add_seq<F: FloatLikeType>(ys: Seq<F>, ks: Seq<F>) -> Seq<F> {
    Seq::new(ys.len(), |j: int| ys[j].add_spec(ks[j]))
}

/// Element-wise Runge-Kutta combination
/// `ys + factor * (k1 + 2*k2 + 2*k3 + k4)`, for sequences of equal length.
pub open spec fn rk4_combine_seq<F: FloatLikeType>(
    ys: Seq<F>,
    factor: F,
    k1s: Seq<F>,
    k2s: Seq<F>,
    k3s: Seq<F>,
    k4s: Seq<F>,
) -> Seq<F> {
    let two = F::from_small_int_spec(2);
    Seq::new(
        ys.len(),
        |j: int|
            ys[j].add_spec(
                factor.mul_spec(
                    k1s[j].add_spec(two.mul_spec(k2s[j])).add_spec(two.mul_spec(k3s[j])).add_spec(
                        k4s[j],
                    ),
                ),
            ),
    )
}

/// One element-wise Euler step from the elements `ys`:
/// `ys + dt * f(ys, t, p)`, or the error of the evaluation.
pub open spec fn euler_step_iter_spec<I, F: FloatLikeType, P, R: OdeRhsIter<I, F, P>>(
    rhs: R,
    ys: Seq<F>,
    t: F,
    dt: F,
    p: P,
) -> Result<Seq<F>, CalcError> {
    match rhs.rhs_elems_spec(ys, t, p) {
        Ok(ds) => Ok(saxpy_seq(ys, dt, ds)),
        Err(e) => Err(e),
    }
}

/// One whole-object Euler step from the state `y`:
/// `y + dt * f(y, t, p)`, or the error of the evaluation.
pub open spec fn euler_step_add_spec<I: MathVecLikeType<F>, F: FloatLikeType, P, R: OdeRhsAdd<
    I,
    F,
    P,
>>(rhs: R, y: I, t: F, dt: F, p: P) -> Result<I, CalcError> {
    match rhs.rhs_spec(y, t, p) {
        Ok(d) => Ok(y.add_spec(I::scale_spec(dt, d))),
        Err(e) => Err(e),
    }
}

/// One element-wise classical Runge-Kutta step from the elements `ys`, or
/// the error of the first evaluation that fails.  With `half = 1/2`, the
/// four stages are taken at `(ys, t)`, `(ys + half*k1, t + half*dt)`,
/// `(ys + half*k2, t + half*dt)` and `(ys + k3, t + dt)`, each stage scaled
/// by `dt`, and combined as `ys + (half/3) * (k1 + 2*k2 + 2*k3 + k4)`.
pub open spec fn rk4_step_iter_spec<I, F: FloatLikeType, P, R: OdeRhsIter<I, F, P>>(
    rhs: R,
    ys: Seq<F>,
    t: F,
    dt: F,
    p: P,
) -> Result<Seq<F>, CalcError> {
    let half = F::from_small_int_spec(1).div_spec(F::from_small_int_spec(2));
    let tm = t.add_spec(half.mul_spec(dt));
    let te = t.add_spec(dt);
    match rhs.rhs_elems_spec(ys, t, p) {
        Err(e) => Err(e),
        Ok(d1) => {
            let k1s = scale_seq(dt, d1);
            match rhs.rhs_elems_spec(saxpy_seq(ys, half, k1s), tm, p) {
                Err(e) => Err(e),
                Ok(d2) => {
                    let k2s = scale_seq(dt, d2);
                    match rhs.rhs_elems_spec(saxpy_seq(ys, half, k2s), tm, p) {
                        Err(e) => Err(e),
                        Ok(d3) => {
                            let k3s = scale_seq(dt, d3);
                            match rhs.rhs_elems_spec(add_seq(ys, k3s), te, p) {
                                Err(e) => Err(e),
                                Ok(d4) => {
                                    let k4s = scale_seq(dt, d4);
                                    Ok(
                                        rk4_combine_seq(
                                            ys,
                                            half.div_spec(F::from_small_int_spec(3)),
                                            k1s,
                                            k2s,
                                            k3s,
                                            k4s,
                                        ),
                                    )
                                },
                            }
                        },
                    }
                },
            }
        },
    }
}

/// One whole-object classical Runge-Kutta step from the state `y`, or the
/// error of the first evaluation that fails; the same four stages and
/// combination as the element-wise form, over whole-object arithmetic.
pub open spec fn rk4_step_add_spec<I: MathVecLikeType<F>, F: FloatLikeType, P, R: OdeRhsAdd<
    I,
    F,
    P,
>>(rhs: R, y: I, t: F, dt: F, p: P) -> Result<I, CalcError> {
    let half = F::from_small_int_spec(1).div_spec(F::from_small_int_spec(2));
    let two = F::from_small_int_spec(2);
    let tm = t.add_spec(half.mul_spec(dt));
    let te = t.add_spec(dt);
    match rhs.rhs_spec(y, t, p) {
        Err(e) => Err(e),
        Ok(d1) => {
            let k1 = I::scale_spec(dt, d1);
            match rhs.rhs_spec(y.add_spec(I::scale_spec(half, k1)), tm, p) {
                Err(e) => Err(e),
                Ok(d2) => {
                    let k2 = I::scale_spec(dt, d2);
                    match rhs.rhs_spec(y.add_spec(I::scale_spec(half, k2)), tm, p) {
                        Err(e) => Err(e),
                        Ok(d3) => {
                            let k3 = I::scale_spec(dt, d3);
                            match rhs.rhs_spec(y.add_spec(k3), te, p) {
                                Err(e) => Err(e),
                                Ok(d4) => {
                                    let k4 = I::scale_spec(dt, d4);
                                    Ok(
                                        y.add_spec(
                                            I::scale_spec(
                                                half.div_spec(F::from_small_int_spec(3)),
                                                k1.add_spec(I::scale_spec(two, k2)).add_spec(
                                                    I::scale_spec(two, k3),
                                                ).add_spec(k4),
                                            ),
                                        ),
                                    )
                                },
                            }
                        },
                    }
                },
            }
        },
    }
}

/// The element-wise step of the chosen algorithm.
pub open spec fn solver_step_iter_spec<I, F: FloatLikeType, P, R: OdeRhsIter<I, F, P>>(
    kind: FixedStepSolvers,
    rhs: R,
    ys: Seq<F>,
    t: F,
    dt: F,
    p: P,
) -> Result<Seq<F>, CalcError> {
    match kind {
        FixedStepSolvers::Euler => euler_step_iter_spec::<I, F, P, R>(rhs, ys, t, dt, p),
        FixedStepSolvers::Rk4 => rk4_step_iter_spec::<I, F, P, R>(rhs, ys, t, dt, p),
    }
}

/// The whole-object step of the chosen algorithm.
pub open spec fn solver_step_add_spec<I: MathVecLikeType<F>, F: FloatLikeType, P, R: OdeRhsAdd<
    I,
    F,
    P,
>>(kind: FixedStepSolvers, rhs: R, y: I, t: F, dt: F, p: P) -> Result<I, CalcError> {
    match kind {
        FixedStepSolvers::Euler => euler_step_add_spec(rhs, y, t, dt, p),
        FixedStepSolvers::Rk4 => rk4_step_add_spec(rhs, y, t, dt, p),
    }
}

/// Euler stepper.
///
/// This stepper is meant as a baseline and one that should generally not be
/// used: it advances with `y1 = y0 + dt * f(y0, t, p)`, which is exact only
/// to first order.  It owns one derivative buffer, allocated once at
/// construction and reused by every step.
pub struct Euler<I, F, P, R> {
    ode_def: OdeDefinition<I, F, R>,
    dy: I,
    params_marker: PhantomData<P>,
}

impl<I, F, P, R> Euler<I, F, P, R> {
    /// Creates an Euler stepper from an [`OdeDefinition`], cloning the
    /// initial state once into the derivative buffer.
    pub fn from(input: OdeDefinition<I, F, R>) -> (stepper: Self)
        where
            I: DuplicableType,
        ensures
            stepper.rhs() == input.func,
    {
        let dy = input.y0.duplicate();
        Euler { ode_def: input, dy, params_marker: PhantomData }
    }
}

impl<I, F, P, R> Stepper<I, F, P, R> for Euler<I, F, P, R> {
    closed spec fn rhs(&self) -> R {
        self.ode_def.func
    }

    open spec fn step_iter_spec(&self, ys: Seq<F>, t: F, dt: F, p: P) -> Result<Seq<F>, CalcError>
        where
            F: FloatLikeType,
            R: OdeRhsIter<I, F, P>,
    {
        euler_step_iter_spec::<I, F, P, R>(self.rhs(), ys, t, dt, p)
    }

    open spec fn step_add_spec(&self, y: I, t: F, dt: F, p: P) -> Result<I, CalcError>
        where
            I: MathVecLikeType<F>,
            F: FloatLikeType,
            R: OdeRhsAdd<I, F, P>,
    {
        euler_step_add_spec(self.rhs(), y, t, dt, p)
    }

    fn do_step_iter(&mut self, y: &mut I, t: &F, dt: &F, p: &P) -> (result: Result<(), CalcError>)
        where
            I: ElementIterableType<F> + DuplicableType,
            F: FloatLikeType,
            R: OdeRhsIter<I, F, P>,
    {
        let ghost rhs0: R = self.ode_def.func;
        let ghost ys0: Seq<F> = y.elems();
        match self.ode_def.func.eval(y, &mut self.dy, t, p) {
            Ok(()) => {},
            Err(e) => {
                return Err(e);
            },
        }
        let ghost ds: Seq<F> = self.dy.elems();
        let n = y.elem_count();
        let mut i: usize = 0;
        while i < n
            invariant
                i <= n,
                n == ys0.len(),
                ds.len() == n,
                self.ode_def.func == rhs0,
                self.dy.elems() == ds,
                y.elems().len() == n,
                forall|j: int| 0 <= j < i ==> y.elems()[j] == ys0[j].add_spec(dt.mul_spec(ds[j])),
                forall|j: int| i <= j < n ==> y.elems()[j] == ys0[j],
            decreases n - i,
        {
            let yi = y.elem_at(i);
            let di = self.dy.elem_at(i);
            y.set_elem(i, yi.add(dt.mul(di)));
            i += 1;
        }
        proof {
            assert(y.elems() =~= saxpy_seq(ys0, *dt, ds));
        }
        Ok(())
    }

    fn do_step_add(&mut self, y: &mut I, t: &F, dt: &F, p: &P) -> (result: Result<(), CalcError>)
        where
            I: MathVecLikeType<F>,
            F: FloatLikeType,
            R: OdeRhsAdd<I, F, P>,
    {
        match self.ode_def.func.eval(y, &mut self.dy, t, p) {
            Ok(()) => {},
            Err(e) => {
                return Err(e);
            },
        }
        y.add_assign(I::scale(*dt, self.dy.duplicate()));
        Ok(())
    }
}

/// Runge-Kutta 4th order stepper.
///
/// The classical scheme first computes the stage variables
/// `k1 = dt*f(y, t, p)`, `k2 = dt*f(y + k1/2, t + dt/2, p)`,
/// `k3 = dt*f(y + k2/2, t + dt/2, p)`, `k4 = dt*f(y + k3, t + dt, p)`
/// and finally combines them with `y1 = y + (1/6)*(k1 + 2*k2 + 2*k3 + k4)`.
///
/// The four stage buffers, the derivative buffer and the intermediate-state
/// buffer are allocated once at construction, sized after the initial
/// state, and reused for the stepper's whole lifetime: a step allocates
/// nothing as long as the advanced state keeps the shape of the initial
/// one.
pub struct RK4<I, F, P, R> {
    ode_def: OdeDefinition<I, F, R>,
    k1: I,
    k2: I,
    k3: I,
    k4: I,
    dy: I,
    ym: I,
    params_marker: PhantomData<P>,
}

impl<I, F, P, R> RK4<I, F, P, R> {
    /// Creates an RK4 stepper from an [`OdeDefinition`], cloning the
    /// initial state once into each scratch buffer.
    pub fn from(input: OdeDefinition<I, F, R>) -> (stepper: Self)
        where
            I: DuplicableType,
        ensures
            stepper.rhs() == input.func,
    {
        let dy = input.y0.duplicate();
        RK4 {
            k1: dy.duplicate(),
            k2: dy.duplicate(),
            k3: dy.duplicate(),
            k4: dy.duplicate(),
            ym: dy.duplicate(),
            dy,
            ode_def: input,
            params_marker: PhantomData,
        }
    }
}

/// Fills `buf` with `factor * src`, element by element, giving it the shape
/// of `src` first if its own differs (the one case in which this
/// allocates).
fn scale_into<I, F>(buf: &mut I, factor: F, src: &I)
    where
        I: ElementIterableType<F> + DuplicableType,
        F: FloatLikeType,
    ensures
        final(buf).elems() == scale_seq(factor, src.elems()),
{
    let n = src.elem_count();
    if buf.elem_count() != n {
        *buf = src.duplicate();
    }
    let mut i: usize = 0;
    while i < n
        invariant
            i <= n,
            n == src.elems().len(),
            buf.elems().len() == n,
            forall|j: int| 0 <= j < i ==> buf.elems()[j] == factor.mul_spec(src.elems()[j]),
        decreases n - i,
    {
        buf.set_elem(i, factor.mul(src.elem_at(i)));
        i += 1;
    }
    proof {
        assert(buf.elems() =~= scale_seq(factor, src.elems()));
    }
}

/// Fills `buf` with `ys + factor * ks`, element by element, giving it the
/// shape of `ys` first if its own differs.
fn saxpy_into<I, F>(buf: &mut I, ys: &I, factor: F, ks: &I)
    where
        I: ElementIterableType<F> + DuplicableType,
        F: FloatLikeType,
    requires
        ks.elems().len() == ys.elems().len(),
    ensures
        final(buf).elems() == saxpy_seq(ys.elems(), factor, ks.elems()),
{
    let n = ys.elem_count();
    if buf.elem_count() != n {
        *buf = ys.duplicate();
    }
    let mut i: usize = 0;
    while i < n
        invariant
            i <= n,
            n == ys.elems().len(),
            ks.elems().len() == n,
            buf.elems().len() == n,
            forall|j: int|
                0 <= j < i ==> buf.elems()[j] == ys.elems()[j].add_spec(
                    factor.mul_spec(ks.elems()[j]),
                ),
        decreases n - i,
    {
        buf.set_elem(i, ys.elem_at(i).add(factor.mul(ks.elem_at(i))));
        i += 1;
    }
    proof {
        assert(buf.elems() =~= saxpy_seq(ys.elems(), factor, ks.elems()));
    }
}

/// Fills `buf` with `ys + ks`, element by element, giving it the shape of
/// `ys` first if its own differs.
fn add_elems_into<I, F>(buf: &mut I, ys: &I, ks: &I)
    where
        I: ElementIterableType<F> + DuplicableType,
        F: FloatLikeType,
    requires
        ks.elems().len() == ys.elems().len(),
    ensures
        final(buf).elems() == add_seq(ys.elems(), ks.elems()),
{
    let n = ys.elem_count();
    if buf.elem_count() != n {
        *buf = ys.duplicate();
    }
    let mut i: usize = 0;
    while i < n
        invariant
            i <= n,
            n == ys.elems().len(),
            ks.elems().len() == n,
            buf.elems().len() == n,
            forall|j: int| 0 <= j < i ==> buf.elems()[j] == ys.elems()[j].add_spec(ks.elems()[j]),
        decreases n - i,
    {
        buf.set_elem(i, ys.elem_at(i).add(ks.elem_at(i)));
        i += 1;
    }
    proof {
        assert(buf.elems() =~= add_seq(ys.elems(), ks.elems()));
    }
}

impl<I, F, P, R> Stepper<I, F, P, R> for RK4<I, F, P, R> {
    closed spec fn rhs(&self) -> R {
        self.ode_def.func
    }

    open spec fn step_iter_spec(&self, ys: Seq<F>, t: F, dt: F, p: P) -> Result<Seq<F>, CalcError>
        where
            F: FloatLikeType,
            R: OdeRhsIter<I, F, P>,
    {
        rk4_step_iter_spec::<I, F, P, R>(self.rhs(), ys, t, dt, p)
    }

    open spec fn step_add_spec(&self, y: I, t: F, dt: F, p: P) -> Result<I, CalcError>
        where
            I: MathVecLikeType<F>,
            F: FloatLikeType,
            R: OdeRhsAdd<I, F, P>,
    {
        rk4_step_add_spec(self.rhs(), y, t, dt, p)
    }

    fn do_step_iter(&mut self, y: &mut I, t: &F, dt: &F, p: &P) -> (result: Result<(), CalcError>)
        where
            I: ElementIterableType<F> + DuplicableType,
            F: FloatLikeType,
            R: OdeRhsIter<I, F, P>,
    {
        let ghost ys0: Seq<F> = y.elems();
        let half = F::from_small_int(1).div(F::from_small_int(2));
        let tm = t.add(half.mul(*dt));
        let te = t.add(*dt);
        match self.ode_def.func.eval(y, &mut self.dy, t, p) {
            Ok(()) => {},
            Err(e) => {
                return Err(e);
            },
        }
        scale_into(&mut self.k1, *dt, &self.dy);
        saxpy_into(&mut self.ym, y, half, &self.k1);
        match self.ode_def.func.eval(&self.ym, &mut self.dy, &tm, p) {
            Ok(()) => {},
            Err(e) => {
                return Err(e);
            },
        }
        scale_into(&mut self.k2, *dt, &self.dy);
        saxpy_into(&mut self.ym, y, half, &self.k2);
        match self.ode_def.func.eval(&self.ym, &mut self.dy, &tm, p) {
            Ok(()) => {},
            Err(e) => {
                return Err(e);
            },
        }
        scale_into(&mut self.k3, *dt, &self.dy);
        add_elems_into(&mut self.ym, y, &self.k3);
        match self.ode_def.func.eval(&self.ym, &mut self.dy, &te, p) {
            Ok(()) => {},
            Err(e) => {
                return Err(e);
            },
        }
        scale_into(&mut self.k4, *dt, &self.dy);
        let factor = half.div(F::from_small_int(3));
        let two = F::from_small_int(2);
        let n = y.elem_count();
        let mut i: usize = 0;
        while i < n
            invariant
                i <= n,
                n == ys0.len(),
                self.k1.elems().len() == n,
                self.k2.elems().len() == n,
                self.k3.elems().len() == n,
                self.k4.elems().len() == n,
                y.elems().len() == n,
                forall|j: int|
                    0 <= j < i ==> y.elems()[j] == ys0[j].add_spec(
                        factor.mul_spec(
                            self.k1.elems()[j].add_spec(two.mul_spec(self.k2.elems()[j])).add_spec(
                                two.mul_spec(self.k3.elems()[j]),
                            ).add_spec(self.k4.elems()[j]),
                        ),
                    ),
                forall|j: int| i <= j < n ==> y.elems()[j] == ys0[j],
            decreases n - i,
        {
            let combined = self.k1.elem_at(i).add(two.mul(self.k2.elem_at(i))).add(
                two.mul(self.k3.elem_at(i)),
            ).add(self.k4.elem_at(i));
            y.set_elem(i, y.elem_at(i).add(factor.mul(combined)));
            i += 1;
        }
        proof {
            assert(y.elems() =~= rk4_combine_seq(
                ys0,
                factor,
                self.k1.elems(),
                self.k2.elems(),
                self.k3.elems(),
                self.k4.elems(),
            ));
        }
        Ok(())
    }

    fn do_step_add(&mut self, y: &mut I, t: &F, dt: &F, p: &P) -> (result: Result<(), CalcError>)
        where
            I: MathVecLikeType<F>,
            F: FloatLikeType,
            R: OdeRhsAdd<I, F, P>,
    {
        let half = F::from_small_int(1).div(F::from_small_int(2));
        let two = F::from_small_int(2);
        let tm = t.add(half.mul(*dt));
        let te = t.add(*dt);
        match self.ode_def.func.eval(y, &mut self.dy, t, p) {
            Ok(()) => {},
            Err(e) => {
                return Err(e);
            },
        }
        self.k1 = I::scale(*dt, self.dy.duplicate());
        self.ym = y.duplicate().add(I::scale(half, self.k1.duplicate()));
        match self.ode_def.func.eval(&self.ym, &mut self.dy, &tm, p) {
            Ok(()) => {},
            Err(e) => {
                return Err(e);
            },
        }
        self.k2 = I::scale(*dt, self.dy.duplicate());
        self.ym = y.duplicate().add(I::scale(half, self.k2.duplicate()));
        match self.ode_def.func.eval(&self.ym, &mut self.dy, &tm, p) {
            Ok(()) => {},
            Err(e) => {
                return Err(e);
            },
        }
        self.k3 = I::scale(*dt, self.dy.duplicate());
        self.ym = y.duplicate().add(self.k3.duplicate());
        match self.ode_def.func.eval(&self.ym, &mut self.dy, &te, p) {
            Ok(()) => {},
            Err(e) => {
                return Err(e);
            },
        }
        self.k4 = I::scale(*dt, self.dy.duplicate());
        let combined = self.k1.duplicate().add(I::scale(two, self.k2.duplicate())).add(
            I::scale(two, self.k3.duplicate()),
        ).add(self.k4.duplicate());
        y.add_assign(I::scale(half.div(F::from_small_int(3)), combined));
        Ok(())
    }
}

/// A fixed-step stepper selected at run time from [`FixedStepSolvers`].
///
/// The drivers hold their stepper through this type; which algorithm it
/// runs is named by [`FixedStepStepper::kind`], and the right-hand side it
/// advances with by [`FixedStepStepper::rhs`].
pub enum FixedStepStepper<I, F, P, R> {
    /// An Euler stepper.
    Euler(Euler<I, F, P, R>),
    /// An RK4 stepper.
    Rk4(RK4<I, F, P, R>),
}

impl<I, F, P, R> FixedStepStepper<I, F, P, R> {
    /// The algorithm this stepper runs.
    pub open spec fn kind(&self) -> FixedStepSolvers {
        match self {
            FixedStepStepper::Euler(_) => FixedStepSolvers::Euler,
            FixedStepStepper::Rk4(_) => FixedStepSolvers::Rk4,
        }
    }

    /// The right-hand side this stepper advances with.
    pub open spec fn rhs(&self) -> R {
        match self {
            FixedStepStepper::Euler(stepper) => stepper.rhs(),
            FixedStepStepper::Rk4(stepper) => stepper.rhs(),
        }
    }

    /// Advances `y` element-wise by one step of the selected algorithm.
    pub fn do_step_iter(&mut self, y: &mut I, t: &F, dt: &F, p: &P) -> (result: Result<
        (),
        CalcError,
    >)
        where
            I: ElementIterableType<F> + DuplicableType,
            F: FloatLikeType,
            R: OdeRhsIter<I, F, P>,
        requires
            rhs_keeps_len::<I, F, P, R>(old(self).rhs()),
        ensures
            final(self).kind() == old(self).kind(),
            final(self).rhs() == old(self).rhs(),
            match solver_step_iter_spec(
                old(self).kind(),
                old(self).rhs(),
                old(y).elems(),
                *t,
                *dt,
                *p,
            ) {
                Ok(ys) => result is Ok && final(y).elems() == ys,
                Err(e) => result is Err && (result matches Err(e2) && e2@ == e@),
            },
    {
        match self {
            FixedStepStepper::Euler(stepper) => stepper.do_step_iter(y, t, dt, p),
            FixedStepStepper::Rk4(stepper) => stepper.do_step_iter(y, t, dt, p),
        }
    }

    /// Advances `y` as one additive object by one step of the selected
    /// algorithm.
    pub fn do_step_add(&mut self, y: &mut I, t: &F, dt: &F, p: &P) -> (result: Result<
        (),
        CalcError,
    >)
        where
            I: MathVecLikeType<F>,
            F: FloatLikeType,
            R: OdeRhsAdd<I, F, P>,
        ensures
            final(self).kind() == old(self).kind(),
            final(self).rhs() == old(self).rhs(),
            match solver_step_add_spec(
                old(self).kind(),
                old(self).rhs(),
                *old(y),
                *t,
                *dt,
                *p,
            ) {
                Ok(y2) => result is Ok && *final(y) == y2,
                Err(e) => result is Err && (result matches Err(e2) && e2@ == e@),
            },
    {
        match self {
            FixedStepStepper::Euler(stepper) => stepper.do_step_add(y, t, dt, p),
            FixedStepStepper::Rk4(stepper) => stepper.do_step_add(y, t, dt, p),
        }
    }
}

/// Construction is idempotent for Euler: two Euler steppers built around
/// equal right-hand sides take identical element-wise steps on identical
/// `(ys, t, dt, p)` inputs.
pub proof fn lemma_euler_step_iter_deterministic<I, F: FloatLikeType, P, R: OdeRhsIter<I, F, P>>(
    s1: Euler<I, F, P, R>,
    s2: Euler<I, F, P, R>,
    ys: Seq<F>,
    t: F,
    dt: F,
    p: P,
)
    requires
        s1.rhs() == s2.rhs(),
    ensures
        s1.step_iter_spec(ys, t, dt, p) == s2.step_iter_spec(ys, t, dt, p),
{
}

/// Construction is idempotent for RK4: two RK4 steppers built around equal
/// right-hand sides take identical element-wise steps on identical
/// `(ys, t, dt, p)` inputs.
pub proof fn lemma_rk4_step_iter_deterministic<I, F: FloatLikeType, P, R: OdeRhsIter<I, F, P>>(
    s1: RK4<I, F, P, R>,
    s2: RK4<I, F, P, R>,
    ys: Seq<F>,
    t: F,
    dt: F,
    p: P,
)
    requires
        s1.rhs() == s2.rhs(),
    ensures
        s1.step_iter_spec(ys, t, dt, p) == s2.step_iter_spec(ys, t, dt, p),
{
}

/// Construction is idempotent for Euler: two Euler steppers built around
/// equal right-hand sides take identical whole-object steps on identical
/// `(y, t, dt, p)` inputs.
pub proof fn lemma_euler_step_add_deterministic<I: MathVecLikeType<F>, F: FloatLikeType, P, R: OdeRhsAdd<I, F, P>>(
    s1: Euler<I, F, P, R>,
    s2: Euler<I, F, P, R>,
    y: I,
    t: F,
    dt: F,
    p: P,
)
    requires
        s1.rhs() == s2.rhs(),
    ensures
        s1.step_add_spec(y, t, dt, p) == s2.step_add_spec(y, t, dt, p),
{
}

/// Construction is idempotent for RK4: two RK4 steppers built around equal
/// right-hand sides take identical whole-object steps on identical
/// `(y, t, dt, p)` inputs.
pub proof fn lemma_rk4_step_add_deterministic<I: MathVecLikeType<F>, F: FloatLikeType, P, R: OdeRhsAdd<I, F, P>>(
    s1: RK4<I, F, P, R>,
    s2: RK4<I, F, P, R>,
    y: I,
    t: F,
    dt: F,
    p: P,
)
    requires
        s1.rhs() == s2.rhs(),
    ensures
        s1.step_add_spec(y, t, dt, p) == s2.step_add_spec(y, t, dt, p),
{
}

} // verus!
