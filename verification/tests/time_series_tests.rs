use ode_integrate::concepts::errors::{CalcError, SolvingError};
use ode_integrate::concepts::ode_def::{
    DuplicableType, ElementIterableType, FloatLikeType, MathVecLikeType, OdeDefinition, OdeRhsAdd,
    OdeRhsIter,
};
use ode_integrate::concepts::steppers::Stepper;
use ode_integrate::methods::time_series::{
    solve_ode_time_series_minimal_step_add, solve_ode_time_series_minimal_step_iter,
    solve_ode_time_series_single_step_add, solve_ode_time_series_single_step_iter,
};
use ode_integrate::solvers::fixed_step::{Euler, FixedStepSolvers, RK4};
use vstd::prelude::Seq;

#[derive(Clone, Copy, PartialEq, Debug)]
struct Sc(f64);

impl FloatLikeType for Sc {
    fn add_spec(self, _: Self) -> Self {
        unreachable!()
    }
    fn sub_spec(self, _: Self) -> Self {
        unreachable!()
    }
    fn mul_spec(self, _: Self) -> Self {
        unreachable!()
    }
    fn div_spec(self, _: Self) -> Self {
        unreachable!()
    }
    fn neg_spec(self) -> Self {
        unreachable!()
    }
    fn lt_spec(self, _: Self) -> bool {
        unreachable!()
    }
    fn from_small_int_spec(_: i8) -> Self {
        unreachable!()
    }
    fn substeps_to(self, _: Self, _: Self) -> u64 {
        unreachable!()
    }
    fn lemma_substep_progress(self, _: Self, _: Self, _: Self) {}
    fn add(self, other: Self) -> Self {
        Sc(self.0 + other.0)
    }
    fn sub(self, other: Self) -> Self {
        Sc(self.0 - other.0)
    }
    fn mul(self, other: Self) -> Self {
        Sc(self.0 * other.0)
    }
    fn div(self, other: Self) -> Self {
        Sc(self.0 / other.0)
    }
    fn neg(self) -> Self {
        Sc(-self.0)
    }
    fn lt(self, other: Self) -> bool {
        self.0 < other.0
    }
    fn from_small_int(n: i8) -> Self {
        Sc(n as f64)
    }
}

impl DuplicableType for Sc {
    fn duplicate(&self) -> Self {
        *self
    }
}

impl MathVecLikeType<Sc> for Sc {
    fn add_spec(self, _: Self) -> Self {
        unreachable!()
    }
    fn scale_spec(_: Sc, _: Self) -> Self {
        unreachable!()
    }
    fn add(self, other: Self) -> Self {
        Sc(self.0 + other.0)
    }
    fn add_assign(&mut self, other: Self) {
        self.0 += other.0;
    }
    fn scale(factor: Sc, v: Self) -> Self {
        Sc(factor.0 * v.0)
    }
}

#[derive(Clone, PartialEq, Debug)]
struct VecF(Vec<Sc>);

impl DuplicableType for VecF {
    fn duplicate(&self) -> Self {
        VecF(self.0.clone())
    }
}

impl ElementIterableType<Sc> for VecF {
    fn elems(&self) -> Seq<Sc> {
        unreachable!()
    }
    fn elem_count(&self) -> usize {
        self.0.len()
    }
    fn elem_at(&self, index: usize) -> Sc {
        self.0[index]
    }
    fn set_elem(&mut self, index: usize, element: Sc) {
        self.0[index] = element;
    }
}

/// f(y, t, p) = -p * y, the exponential decay problem.
struct RhsDecay;

impl OdeRhsAdd<Sc, Sc, Sc> for RhsDecay {
    fn rhs_spec(&self, _: Sc, _: Sc, _: Sc) -> Result<Sc, CalcError> {
        unreachable!()
    }
    fn eval(&self, y: &Sc, dy: &mut Sc, _t: &Sc, p: &Sc) -> Result<(), CalcError> {
        dy.0 = -p.0 * y.0;
        Ok(())
    }
}

struct RhsDecayIter;

impl OdeRhsIter<VecF, Sc, Sc> for RhsDecayIter {
    fn rhs_elems_spec(&self, _: Seq<Sc>, _: Sc, _: Sc) -> Result<Seq<Sc>, CalcError> {
        unreachable!()
    }
    fn eval(&self, y: &VecF, dy: &mut VecF, _t: &Sc, p: &Sc) -> Result<(), CalcError> {
        for (yi, dyi) in y.0.iter().zip(dy.0.iter_mut()) {
            dyi.0 = -p.0 * yi.0;
        }
        Ok(())
    }
}

/// A right-hand side that always reports a failure.
struct RhsFailing;

impl OdeRhsAdd<Sc, Sc, Sc> for RhsFailing {
    fn rhs_spec(&self, _: Sc, _: Sc, _: Sc) -> Result<Sc, CalcError> {
        unreachable!()
    }
    fn eval(&self, _y: &Sc, _dy: &mut Sc, _t: &Sc, _p: &Sc) -> Result<(), CalcError> {
        Err(CalcError::from(String::from("numerical singularity")))
    }
}

struct RhsFailingIter;

impl OdeRhsIter<VecF, Sc, Sc> for RhsFailingIter {
    fn rhs_elems_spec(&self, _: Seq<Sc>, _: Sc, _: Sc) -> Result<Seq<Sc>, CalcError> {
        unreachable!()
    }
    fn eval(&self, _y: &VecF, _dy: &mut VecF, _t: &Sc, _p: &Sc) -> Result<(), CalcError> {
        Err(CalcError::from(String::from("numerical singularity")))
    }
}

fn times(values: &[f64]) -> Vec<Sc> {
    values.iter().map(|v| Sc(*v)).collect()
}

fn grid(n: usize, dt: f64) -> Vec<Sc> {
    (0..=n).map(|k| Sc(k as f64 * dt)).collect()
}

#[test]
fn monotonic_time_returns_error_single_add() {
    let res = solve_ode_time_series_single_step_add(
        &Sc(10.0),
        &times(&[0.0, 1.0, 0.5]),
        RhsDecay,
        &Sc(2.0),
        FixedStepSolvers::Rk4,
    );
    let err = res.err().expect("a decreasing time sequence must be rejected");
    assert_eq!(err.message().as_str(), "Time steps need to be increasing");
}

#[test]
fn monotonic_time_returns_error_single_iter() {
    let res = solve_ode_time_series_single_step_iter(
        &VecF(vec![Sc(1.0), Sc(2.0)]),
        &times(&[0.0, 1.0, 0.5]),
        RhsDecayIter,
        &Sc(2.0),
        FixedStepSolvers::Euler,
    );
    let err = res.err().expect("a decreasing time sequence must be rejected");
    assert_eq!(err.message().as_str(), "Time steps need to be increasing");
}

#[test]
fn too_few_time_points_single_add() {
    for ts in [times(&[]), times(&[0.7])] {
        let res =
            solve_ode_time_series_single_step_add(&Sc(1.0), &ts, RhsDecay, &Sc(2.0), FixedStepSolvers::Euler);
        let err = res.err().expect("fewer than two time points must be rejected");
        assert_eq!(err.message().as_str(), "Did not supply enough time steps.");
    }
}

#[test]
fn too_few_time_points_minimal_add() {
    for ts in [times(&[]), times(&[0.7])] {
        let res = solve_ode_time_series_minimal_step_add(
            &Sc(1.0),
            &ts,
            RhsDecay,
            &Sc(2.0),
            FixedStepSolvers::Rk4,
            &Sc(0.01),
        );
        let err = res.err().expect("fewer than two time points must be rejected");
        assert_eq!(err.message().as_str(), "Did not supply enough time steps.");
    }
}

#[test]
fn too_few_time_points_iter() {
    for ts in [times(&[]), times(&[0.7])] {
        let y0 = VecF(vec![Sc(1.0)]);
        let res = solve_ode_time_series_single_step_iter(
            &y0,
            &ts,
            RhsDecayIter,
            &Sc(2.0),
            FixedStepSolvers::Euler,
        );
        assert_eq!(res.err().unwrap().message().as_str(), "Did not supply enough time steps.");
        let res = solve_ode_time_series_minimal_step_iter(
            &y0,
            &ts,
            RhsDecayIter,
            &Sc(2.0),
            FixedStepSolvers::Rk4,
            &Sc(0.01),
        );
        assert_eq!(res.err().unwrap().message().as_str(), "Did not supply enough time steps.");
    }
}

#[test]
fn error_propagation_single_add() {
    let res = solve_ode_time_series_single_step_add(
        &Sc(10.0),
        &times(&[0.0, 0.5, 1.0]),
        RhsFailing,
        &Sc(2.0),
        FixedStepSolvers::Rk4,
    );
    let err = res.err().expect("a failing evaluation must stop the driver");
    assert_eq!(err.message().as_str(), "numerical singularity");
}

#[test]
fn error_propagation_minimal_add() {
    let res = solve_ode_time_series_minimal_step_add(
        &Sc(10.0),
        &times(&[0.0, 0.5]),
        RhsFailing,
        &Sc(2.0),
        FixedStepSolvers::Euler,
        &Sc(0.1),
    );
    let err = res.err().expect("a failing evaluation must stop the driver");
    assert_eq!(err.message().as_str(), "numerical singularity");
}

#[test]
fn error_propagation_iter() {
    let res = solve_ode_time_series_single_step_iter(
        &VecF(vec![Sc(10.0), Sc(20.0)]),
        &times(&[0.0, 0.5]),
        RhsFailingIter,
        &Sc(2.0),
        FixedStepSolvers::Rk4,
    );
    assert_eq!(res.err().unwrap().message().as_str(), "numerical singularity");
}

#[test]
fn calc_error_conversions() {
    let calc = CalcError::from(String::from("out of domain"));
    assert_eq!(calc.message().as_str(), "out of domain");
    let solving = SolvingError::from(calc);
    assert_eq!(solving.message().as_str(), "out of domain");
    let direct = SolvingError::from(String::from("no result"));
    assert_eq!(direct.message().as_str(), "no result");
    let built = CalcError::new(String::from("division by zero"));
    assert_eq!(built.message().as_str(), "division by zero");
    let built = SolvingError::new(String::from("stalled"));
    assert_eq!(built.message().as_str(), "stalled");
}

#[test]
fn euler_single_step_exact_value() {
    let y0 = 10.0f64;
    let p = 2.0f64;
    let dt = 0.25f64;
    let res = solve_ode_time_series_single_step_add(
        &Sc(y0),
        &times(&[0.0, dt]),
        RhsDecay,
        &Sc(p),
        FixedStepSolvers::Euler,
    )
    .unwrap();
    assert_eq!(res.len(), 2);
    assert_eq!(res[0], Sc(y0));
    let expected = y0 + dt * (-p * y0);
    assert_eq!(res[1].0.to_bits(), expected.to_bits());
}

/// One classical Runge-Kutta step on f(y) = -p*y, written out with the
/// same scalar operations the stepper performs.
fn rk4_decay_step(y: f64, dt: f64, p: f64) -> f64 {
    let half = 1.0f64 / 2.0f64;
    let two = 2.0f64;
    let three = 3.0f64;
    let k1 = dt * (-p * y);
    let k2 = dt * (-p * (y + half * k1));
    let k3 = dt * (-p * (y + half * k2));
    let k4 = dt * (-p * (y + k3));
    y + (half / three) * (k1 + two * k2 + two * k3 + k4)
}

#[test]
fn rk4_single_step_exact_value() {
    let y0 = 10.0f64;
    let p = 2.0f64;
    let dt = 0.25f64;
    let res = solve_ode_time_series_single_step_add(
        &Sc(y0),
        &times(&[0.0, dt]),
        RhsDecay,
        &Sc(p),
        FixedStepSolvers::Rk4,
    )
    .unwrap();
    assert_eq!(res.len(), 2);
    assert_eq!(res[1].0.to_bits(), rk4_decay_step(y0, dt, p).to_bits());
}

#[test]
fn euler_iter_single_step_exact_values() {
    let p = 2.0f64;
    let dt = 0.125f64;
    let y0 = VecF(vec![Sc(1.0), Sc(2.0), Sc(3.0)]);
    let res = solve_ode_time_series_single_step_iter(
        &y0,
        &times(&[0.0, dt]),
        RhsDecayIter,
        &Sc(p),
        FixedStepSolvers::Euler,
    )
    .unwrap();
    assert_eq!(res.len(), 2);
    assert_eq!(res[0], y0);
    for (start, end) in y0.0.iter().zip(res[1].0.iter()) {
        let expected = start.0 + dt * (-p * start.0);
        assert_eq!(end.0.to_bits(), expected.to_bits());
    }
}

#[test]
fn rk4_iter_runs_all_four_stages() {
    // On a one-element state the element-wise RK4 must agree exactly with
    // the whole-object RK4, which performs the full four-stage scheme.
    let p = 1.5f64;
    let dt = 0.125f64;
    let y0 = 7.5f64;
    let res_iter = solve_ode_time_series_single_step_iter(
        &VecF(vec![Sc(y0)]),
        &times(&[0.0, dt]),
        RhsDecayIter,
        &Sc(p),
        FixedStepSolvers::Rk4,
    )
    .unwrap();
    let res_add = solve_ode_time_series_single_step_add(
        &Sc(y0),
        &times(&[0.0, dt]),
        RhsDecay,
        &Sc(p),
        FixedStepSolvers::Rk4,
    )
    .unwrap();
    assert_eq!(res_iter[1].0[0].0.to_bits(), res_add[1].0.to_bits());
    assert_eq!(res_add[1].0.to_bits(), rk4_decay_step(y0, dt, p).to_bits());
}

#[test]
fn substepping_lands_exactly_on_boundary() {
    let y0 = 10.0f64;
    let p = 2.0f64;
    let dt_max = 0.03f64;
    let res = solve_ode_time_series_minimal_step_add(
        &Sc(y0),
        &times(&[0.0, 0.1]),
        RhsDecay,
        &Sc(p),
        FixedStepSolvers::Rk4,
        &Sc(dt_max),
    )
    .unwrap();
    assert_eq!(res.len(), 2);

    // Replay the walk the driver takes: steps of at most dt_max, the last
    // one exactly the remaining distance.
    let ode_def = OdeDefinition { y0: Sc(y0), t0: Sc(0.0), func: RhsDecay };
    let mut rk4 = RK4::from(ode_def);
    let mut y = Sc(y0);
    let mut t = 0.0f64;
    let mut sub_steps = 0;
    while t < 0.1 {
        let remaining = 0.1 - t;
        let dtau = if remaining < dt_max { remaining } else { dt_max };
        rk4.do_step_add(&mut y, &Sc(t), &Sc(dtau), &Sc(p)).unwrap();
        t += dtau;
        sub_steps += 1;
    }
    // No residual fractional step is left over and there is no overshoot:
    // the walk stops exactly on the requested boundary.
    assert_eq!(t.to_bits(), 0.1f64.to_bits());
    assert_eq!(sub_steps, 4);
    assert_eq!(res[1].0.to_bits(), y.0.to_bits());
}

#[test]
fn substepping_with_large_bound_matches_single_step() {
    // A bound wider than the interval makes the sub-stepping a no-op: the
    // minimal-step driver then produces exactly the single-step result.
    let y0 = 10.0f64;
    let p = 2.0f64;
    let res_minimal = solve_ode_time_series_minimal_step_add(
        &Sc(y0),
        &times(&[0.0, 0.1]),
        RhsDecay,
        &Sc(p),
        FixedStepSolvers::Rk4,
        &Sc(0.2),
    )
    .unwrap();
    let res_single = solve_ode_time_series_single_step_add(
        &Sc(y0),
        &times(&[0.0, 0.1]),
        RhsDecay,
        &Sc(p),
        FixedStepSolvers::Rk4,
    )
    .unwrap();
    assert_eq!(res_minimal.len(), res_single.len());
    for (a, b) in res_minimal.iter().zip(res_single.iter()) {
        assert_eq!(a.0.to_bits(), b.0.to_bits());
    }
}

fn decay_error_at_end(solver: FixedStepSolvers, y0: f64, p: f64, steps: usize, dt: f64) -> f64 {
    let res =
        solve_ode_time_series_single_step_add(&Sc(y0), &grid(steps, dt), RhsDecay, &Sc(p), solver)
            .unwrap();
    let t_end = steps as f64 * dt;
    let exact = y0 * (-p * t_end).exp();
    (res[steps].0 - exact).abs()
}

#[test]
fn rk4_linear_decay_accuracy() {
    let y0 = 93.3477397479f64;
    let p = 1.7946939332f64;
    let err = decay_error_at_end(FixedStepSolvers::Rk4, y0, p, 100, 0.005);
    assert!(err < 1e-6, "RK4 end-point error too large: {err}");
}

#[test]
fn rk4_order_beats_euler_when_halving() {
    let y0 = 93.3477397479f64;
    let p = 1.7946939332f64;
    // Same final time, half the step: a fourth-order method gains about
    // a factor sixteen, far more than Euler's factor two.
    let err_coarse = decay_error_at_end(FixedStepSolvers::Rk4, y0, p, 25, 0.02);
    let err_fine = decay_error_at_end(FixedStepSolvers::Rk4, y0, p, 50, 0.01);
    assert!(err_coarse > 1e-12);
    assert!(err_fine < err_coarse / 8.0, "coarse {err_coarse}, fine {err_fine}");
}

#[test]
fn euler_order_one_convergence() {
    let y0 = 93.3477397479f64;
    let p = 1.7946939332f64;
    let err_coarse = decay_error_at_end(FixedStepSolvers::Euler, y0, p, 50, 0.01);
    let err_fine = decay_error_at_end(FixedStepSolvers::Euler, y0, p, 100, 0.005);
    let ratio = err_coarse / err_fine;
    assert!(1.7 < ratio && ratio < 2.3, "halving dt should roughly halve the error: {ratio}");
}

#[test]
fn idempotent_construction_gives_identical_trajectories() {
    let y0 = Sc(42.5);
    let t0 = Sc(0.0);
    let p = Sc(1.25);
    let dt = Sc(0.01);
    let mut first = RK4::from(OdeDefinition { y0, t0, func: RhsDecay });
    let mut second = RK4::from(OdeDefinition { y0, t0, func: RhsDecay });
    let mut y_first = y0;
    let mut y_second = y0;
    let mut t = t0;
    for _ in 0..50 {
        first.do_step_add(&mut y_first, &t, &dt, &p).unwrap();
        second.do_step_add(&mut y_second, &t, &dt, &p).unwrap();
        assert_eq!(y_first.0.to_bits(), y_second.0.to_bits());
        t.0 += dt.0;
    }
    let mut euler_first = Euler::from(OdeDefinition { y0, t0, func: RhsDecay });
    let mut euler_second = Euler::from(OdeDefinition { y0, t0, func: RhsDecay });
    y_first = y0;
    y_second = y0;
    t = t0;
    for _ in 0..50 {
        euler_first.do_step_add(&mut y_first, &t, &dt, &p).unwrap();
        euler_second.do_step_add(&mut y_second, &t, &dt, &p).unwrap();
        assert_eq!(y_first.0.to_bits(), y_second.0.to_bits());
        t.0 += dt.0;
    }
}

#[test]
fn minimal_step_iter_matches_minimal_step_add() {
    let p = 2.0f64;
    let y0 = 10.0f64;
    let res_iter = solve_ode_time_series_minimal_step_iter(
        &VecF(vec![Sc(y0)]),
        &times(&[0.0, 0.1, 0.25]),
        RhsDecayIter,
        &Sc(p),
        FixedStepSolvers::Rk4,
        &Sc(0.03),
    )
    .unwrap();
    let res_add = solve_ode_time_series_minimal_step_add(
        &Sc(y0),
        &times(&[0.0, 0.1, 0.25]),
        RhsDecay,
        &Sc(p),
        FixedStepSolvers::Rk4,
        &Sc(0.03),
    )
    .unwrap();
    assert_eq!(res_iter.len(), res_add.len());
    for (a, b) in res_iter.iter().zip(res_add.iter()) {
        assert_eq!(a.0.len(), 1);
        assert_eq!(a.0[0].0.to_bits(), b.0.to_bits());
    }
}

#[test]
fn equal_time_points_give_zero_width_step() {
    // A repeated time point is not decreasing: the driver takes one step
    // of width zero there, which leaves the decaying state unchanged.
    let y0 = 10.0f64;
    let p = 2.0f64;
    let res = solve_ode_time_series_single_step_add(
        &Sc(y0),
        &times(&[0.0, 0.5, 0.5]),
        RhsDecay,
        &Sc(p),
        FixedStepSolvers::Euler,
    )
    .unwrap();
    assert_eq!(res.len(), 3);
    assert_eq!(res[2].0.to_bits(), res[1].0.to_bits());
}

#[test]
fn minimal_step_skips_decreasing_interval() {
    // The bounded sub-stepping driver never enters an interval whose end
    // lies at or before its start: the state is recorded there unchanged.
    let y0 = 10.0f64;
    let p = 2.0f64;
    let res = solve_ode_time_series_minimal_step_add(
        &Sc(y0),
        &times(&[0.0, 1.0, 0.5]),
        RhsDecay,
        &Sc(p),
        FixedStepSolvers::Rk4,
        &Sc(0.3),
    )
    .unwrap();
    assert_eq!(res.len(), 3);
    assert_eq!(res[2].0.to_bits(), res[1].0.to_bits());
}

#[test]
fn zero_sub_step_bound_is_rejected() {
    // A sub-step bound of zero can never reach the next time point; the
    // driver reports it instead of spinning.
    let res = solve_ode_time_series_minimal_step_add(
        &Sc(10.0),
        &times(&[0.0, 0.1]),
        RhsDecay,
        &Sc(2.0),
        FixedStepSolvers::Euler,
        &Sc(0.0),
    );
    assert_eq!(res.err().unwrap().message().as_str(), "Time steps need to be increasing");
}

#[test]
fn negative_sub_step_bound_is_rejected() {
    let res = solve_ode_time_series_minimal_step_add(
        &Sc(10.0),
        &times(&[0.0, 0.1]),
        RhsDecay,
        &Sc(2.0),
        FixedStepSolvers::Euler,
        &Sc(-0.5),
    );
    assert_eq!(res.err().unwrap().message().as_str(), "Time steps need to be increasing");
}
