use ode_integrate::concepts::errors::CalcError;
use ode_integrate::concepts::fixed_decimal::{FixedDecimal, FixedVector, MICROS_PER_UNIT};
use ode_integrate::concepts::ode_def::{ElementIterableType, FloatLikeType, OdeRhsAdd};
use ode_integrate::methods::time_series::{
    solve_ode_time_series_minimal_step_add, solve_ode_time_series_single_step_add,
};
use ode_integrate::solvers::fixed_step::FixedStepSolvers;

fn fd(micros: i64) -> FixedDecimal {
    FixedDecimal { micros }
}

/// f(y, t, p) = -p * y over exact decimals.
struct RhsDecayFixed;

impl OdeRhsAdd<FixedDecimal, FixedDecimal, FixedDecimal> for RhsDecayFixed {
    fn rhs_spec(
        &self,
        _: FixedDecimal,
        _: FixedDecimal,
        _: FixedDecimal,
    ) -> Result<FixedDecimal, CalcError> {
        unreachable!()
    }
    fn eval(
        &self,
        y: &FixedDecimal,
        dy: &mut FixedDecimal,
        _t: &FixedDecimal,
        p: &FixedDecimal,
    ) -> Result<(), CalcError> {
        *dy = FloatLikeType::mul(FloatLikeType::neg(*p), *y);
        Ok(())
    }
}

#[test]
fn fixed_decimal_arithmetic_is_exact() {
    assert_eq!(MICROS_PER_UNIT, 1_000_000);
    assert_eq!(FloatLikeType::add(fd(1_500_000), fd(2_250_000)), fd(3_750_000));
    assert_eq!(FloatLikeType::sub(fd(1_500_000), fd(2_250_000)), fd(-750_000));
    assert_eq!(FloatLikeType::mul(fd(1_500_000), fd(2_000_000)), fd(3_000_000));
    assert_eq!(FloatLikeType::mul(fd(-1_500_000), fd(2_000_000)), fd(-3_000_000));
    assert_eq!(FloatLikeType::div(fd(3_000_000), fd(2_000_000)), fd(1_500_000));
    assert_eq!(FloatLikeType::neg(fd(5)), fd(-5));
    assert_eq!(FixedDecimal::from_small_int(3), fd(3_000_000));
    assert!(FloatLikeType::lt(fd(-1), fd(0)));
    assert!(!FloatLikeType::lt(fd(0), fd(0)));
}

#[test]
fn fixed_decimal_rounds_towards_zero() {
    // 1/3 and -1/3 truncate symmetrically.
    assert_eq!(FloatLikeType::div(fd(1_000_000), fd(3_000_000)), fd(333_333));
    assert_eq!(FloatLikeType::div(fd(-1_000_000), fd(3_000_000)), fd(-333_333));
    // A product below one micro-unit truncates to zero from both sides.
    assert_eq!(FloatLikeType::mul(fd(1), fd(1)), fd(0));
    assert_eq!(FloatLikeType::mul(fd(-1), fd(1)), fd(0));
}

#[test]
fn fixed_decimal_saturates_and_guards_division() {
    assert_eq!(FloatLikeType::add(fd(i64::MAX), fd(1)), fd(i64::MAX));
    assert_eq!(FloatLikeType::add(fd(i64::MIN), fd(-1)), fd(i64::MIN));
    assert_eq!(FloatLikeType::sub(fd(i64::MIN), fd(1)), fd(i64::MIN));
    assert_eq!(FloatLikeType::mul(fd(i64::MAX), fd(i64::MAX)), fd(i64::MAX));
    assert_eq!(FloatLikeType::mul(fd(i64::MAX), fd(i64::MIN)), fd(i64::MIN));
    assert_eq!(FloatLikeType::neg(fd(i64::MIN)), fd(i64::MAX));
    assert_eq!(FloatLikeType::div(fd(1_000_000), fd(0)), fd(0));
}

#[test]
fn fixed_decimal_euler_drive_is_exact() {
    // dy/dt = -p*y with p = 0.5 and steps of 0.5: each Euler step takes
    // y to y * (1 - 0.25), exactly representable in micro-units.
    let y0 = fd(10 * MICROS_PER_UNIT);
    let p = fd(500_000);
    let ts = vec![fd(0), fd(500_000), fd(1_000_000)];
    let res =
        solve_ode_time_series_single_step_add(&y0, &ts, RhsDecayFixed, &p, FixedStepSolvers::Euler)
            .unwrap();
    assert_eq!(res, vec![fd(10_000_000), fd(7_500_000), fd(5_625_000)]);
}

#[test]
fn fixed_decimal_substepping_is_exact() {
    // Sub-steps of at most 0.2 across [0, 0.5]: three steps of 0.2, 0.2
    // and 0.1, each exact in micro-units, landing exactly on 0.5.
    let y0 = fd(10 * MICROS_PER_UNIT);
    let p = fd(500_000);
    let ts = vec![fd(0), fd(500_000)];
    let res = solve_ode_time_series_minimal_step_add(
        &y0,
        &ts,
        RhsDecayFixed,
        &p,
        FixedStepSolvers::Euler,
        &fd(200_000),
    )
    .unwrap();
    assert_eq!(res, vec![fd(10_000_000), fd(7_695_000)]);
}

#[test]
fn fixed_vector_elements_are_stable() {
    let mut v = FixedVector { components: vec![fd(1), fd(2), fd(3)] };
    assert_eq!(v.elem_count(), 3);
    assert_eq!(v.elem_at(1), fd(2));
    v.set_elem(1, fd(20));
    assert_eq!(v.elem_at(0), fd(1));
    assert_eq!(v.elem_at(1), fd(20));
    assert_eq!(v.elem_at(2), fd(3));
    assert_eq!(v.elem_count(), 3);
}
