use ode_integrate::concepts::errors::CalcError;
use ode_integrate::concepts::ode_def::{
    DuplicableType, FloatLikeType, MathVecLikeType, OdeDefinition, OdeRhsAdd,
};
use ode_integrate::concepts::steppers::Stepper;
use ode_integrate::solvers::fixed_step::RK4;

#[derive(Clone, Copy, PartialEq, Debug)]
struct Sc(f64);

impl FloatLikeType for Sc {
    fn add_spec(self, _: Self) -> Self {
        unreachable!()
    }
    fn sub_spec(self, _: Self) -> Self {
        unreachable!()
    }
    fn mul_spec(self, _: Self) -> Self {
        unreachable!()
    }
    fn div_spec(self, _: Self) -> Self {
        unreachable!()
    }
    fn neg_spec(self) -> Self {
        unreachable!()
    }
    fn lt_spec(self, _: Self) -> bool {
        unreachable!()
    }
    fn from_small_int_spec(_: i8) -> Self {
        unreachable!()
    }
    fn substeps_to(self, _: Self, _: Self) -> u64 {
        unreachable!()
    }
    fn lemma_substep_progress(self, _: Self, _: Self, _: Self) {}
    fn add(self, other: Self) -> Self {
        Sc(self.0 + other.0)
    }
    fn sub(self, other: Self) -> Self {
        Sc(self.0 - other.0)
    }
    fn mul(self, other: Self) -> Self {
        Sc(self.0 * other.0)
    }
    fn div(self, other: Self) -> Self {
        Sc(self.0 / other.0)
    }
    fn neg(self) -> Self {
        Sc(-self.0)
    }
    fn lt(self, other: Self) -> bool {
        self.0 < other.0
    }
    fn from_small_int(n: i8) -> Self {
        Sc(n as f64)
    }
}

impl DuplicableType for Sc {
    fn duplicate(&self) -> Self {
        *self
    }
}

impl MathVecLikeType<Sc> for Sc {
    fn add_spec(self, _: Self) -> Self {
        unreachable!()
    }
    fn scale_spec(_: Sc, _: Self) -> Self {
        unreachable!()
    }
    fn add(self, other: Self) -> Self {
        Sc(self.0 + other.0)
    }
    fn add_assign(&mut self, other: Self) {
        self.0 += other.0;
    }
    fn scale(factor: Sc, v: Self) -> Self {
        Sc(factor.0 * v.0)
    }
}

/// Exact solution of the exponential decay differential equation depending
/// on the initial value: y(t) = y0 * exp(-p * t).
fn exponential_decay_f64_exact(y0: &f64, t: &f64, p: &f64) -> f64 {
    y0 * (-p * t).exp()
}

/// ODE right hand side of the exponential decay, f(y, t, p) = -p * y.
struct RhsExpDecay;

impl OdeRhsAdd<Sc, Sc, Sc> for RhsExpDecay {
    fn rhs_spec(&self, _: Sc, _: Sc, _: Sc) -> Result<Sc, CalcError> {
        unreachable!()
    }
    fn eval(&self, y: &Sc, dy: &mut Sc, _t: &Sc, p: &Sc) -> Result<(), CalcError> {
        dy.0 = -p.0 * y.0;
        Ok(())
    }
}

/// Approximate float comparison: within `epsilon` absolutely, or within
/// four units in the last place for same-signed values.
fn ulps_eq_f64(a: f64, b: f64, epsilon: f64) -> bool {
    if (a - b).abs() <= epsilon {
        return true;
    }
    if a.is_sign_positive() != b.is_sign_positive() {
        return a == b;
    }
    let a_bits = a.to_bits() as i64;
    let b_bits = b.to_bits() as i64;
    (a_bits - b_bits).abs() <= 4
}

#[test]
fn exponential_decay_f64() {
    // Define initial parameters for exponential decay
    let x0 = 93.3477397479;
    let mut x = Sc(x0);

    // Dummy variables to store previous results and variables for error estimate
    let mut x_prev = Sc(0.0);
    let mut x_pprev;
    let mut x_double_step;

    // Decay parameter
    let p = Sc(1.7946939332);

    // Time definitions
    let mut t = Sc(0.0);
    let dt = Sc(0.005);
    let iter = 100;

    // Solver type
    let ode_def = OdeDefinition { y0: Sc(x0), t0: t, func: RhsExpDecay };
    let mut rk4 = RK4::from(ode_def);

    // Solve the ode numerically and test at each step difference to exact result
    for n in 1..iter {
        // Do the numerical integration
        rk4.do_step_add(&mut x, &t, &dt, &p).unwrap();

        // Error-Estimate:
        // Additionally integrate from two steps previously in a larger step 2*dt
        // and compare results
        x_pprev = x_prev;
        x_prev = x;
        if n > 2 {
            // Integrate the variable x_double_step with double the stepsize 2.0*dt
            // from the result of the second last calculation
            // such that the new value is at the same time point as the current one.
            x_double_step = x_pprev;
            rk4.do_step_add(&mut x_double_step, &t, &Sc(2.0 * dt.0), &p).unwrap();

            // Actually calculate the error estimate
            let e = (x_pprev.0 - x_double_step.0) / 30.0;

            // Calculate the exact result
            let y = exponential_decay_f64_exact(&x0, &(t.0 + dt.0), &p.0);

            // Check if the difference is smaller than the error
            assert!(ulps_eq_f64(y, x.0, e));
        }
        t.0 += dt.0;
    }
}
