use vstd::prelude::*;

use crate::concepts::errors::{CalcError, SolvingError};
use crate::concepts::ode_def::{
    rhs_keeps_len, DuplicableType, ElementIterableType, FloatLikeType, MathVecLikeType,
    OdeDefinition, OdeRhsAdd, OdeRhsIter,
};
use crate::concepts::ode_def::substep_size;
use crate::methods::helper_functions::get_fixed_step_stepper;
use crate::solvers::fixed_step::{solver_step_add_spec, solver_step_iter_spec, FixedStepSolvers};

verus! {

broadcast use crate::concepts::errors::lemma_solving_error_from_calc;

/// The message reported when fewer than two time points are supplied.
pub open spec fn msg_not_enough_time_steps() -> Seq<char> {
    "Did not supply enough time steps."@
}

/// The message reported when the requested time sequence decreases.
pub open spec fn msg_time_not_increasing() -> Seq<char> {
    "Time steps need to be increasing"@
}

/// The element snapshots the single-step driver records after time point
/// `i`, under the element-wise model: one solver step per interval, each
/// interval `[ts[j], ts[j+1]]` crossed with the step `ts[j+1] - ts[j]`.
/// Driving fails on the first negative step, or with the message of the
/// first failing evaluation, and the remaining intervals are not entered.
pub open spec fn drive_single_iter<I, F: FloatLikeType, P, R: OdeRhsIter<I, F, P>>(
    kind: FixedStepSolvers,
    rhs: R,
    ys: Seq<F>,
    ts: Seq<F>,
    i: int,
    p: P,
) -> Result<Seq<Seq<F>>, Seq<char>>
    decreases ts.len() - i,
{
    if i < 0 || i + 1 >= ts.len() {
        Ok(Seq::empty())
    } else {
        let dt = ts[i + 1].sub_spec(ts[i]);
        if dt.lt_spec(F::from_small_int_spec(0)) {
            Err(msg_time_not_increasing())
        } else {
            match solver_step_iter_spec::<I, F, P, R>(kind, rhs, ys, ts[i], dt, p) {
                Err(e) => Err(e@),
                Ok(ys2) => match drive_single_iter::<I, F, P, R>(kind, rhs, ys2, ts, i + 1, p) {
                    Ok(states) => Ok(seq![ys2] + states),
                    Err(m) => Err(m),
                },
            }
        }
    }
}

/// What the element-wise single-step driver returns: the initial elements
/// followed by one element snapshot per further time point, or the message
/// of the failure that stopped it.  Fewer than two time points are refused.
pub open spec fn solve_single_step_iter_spec<I, F: FloatLikeType, P, R: OdeRhsIter<I, F, P>>(
    kind: FixedStepSolvers,
    rhs: R,
    ys0: Seq<F>,
    ts: Seq<F>,
    p: P,
) -> Result<Seq<Seq<F>>, Seq<char>> {
    if ts.len() < 2 {
        Err(msg_not_enough_time_steps())
    } else {
        match drive_single_iter::<I, F, P, R>(kind, rhs, ys0, ts, 0, p) {
            Ok(states) => Ok(seq![ys0] + states),
            Err(m) => Err(m),
        }
    }
}

/// Solves an ODE for the given time points with single steps in between,
/// under the element-wise model.
///
/// For time points `t_0, ..., t_n` the corresponding intervals are crossed
/// with `dt_i = t_{i+1} - t_i` each in exactly one step of the selected
/// solver, and the state is recorded at every time point, the initial one
/// included.  The recorded snapshots' elements, or the failure that
/// stopped the drive, are exactly [`solve_single_step_iter_spec`] of the
/// inputs.
#[verifier::loop_isolation(false)]
pub fn solve_ode_time_series_single_step_iter<I, F, P, R>(
    y0: &I,
    t_series: &Vec<F>,
    rhs: R,
    p: &P,
    solver_type: FixedStepSolvers,
) -> (result: Result<Vec<I>, SolvingError>)
    where
        I: ElementIterableType<F> + DuplicableType,
        F: FloatLikeType,
        R: OdeRhsIter<I, F, P>,
    requires
        rhs_keeps_len::<I, F, P, R>(rhs),
    ensures
        match solve_single_step_iter_spec::<I, F, P, R>(
            solver_type,
            rhs,
            y0.elems(),
            t_series@,
            *p,
        ) {
            Ok(trajs) => result matches Ok(v) && v@.len() == trajs.len() && v@[0] == *y0 && forall|
                j: int,
            | 0 <= j < trajs.len() ==> (#[trigger] v@[j]).elems() == trajs[j],
            Err(m) => result matches Err(e) && e@ == m,
        },
{
    let ghost rhs0: R = rhs;
    let ghost ts: Seq<F> = t_series@;
    if t_series.len() < 2 {
        proof {
            reveal_strlit("Did not supply enough time steps.");
        }
        return Err(SolvingError::new("Did not supply enough time steps.".to_owned()));
    }
    let t0 = t_series[0];
    let ode_def = OdeDefinition { y0: y0.duplicate(), t0, func: rhs };
    let mut stepper = get_fixed_step_stepper(solver_type, ode_def);
    let mut y = y0.duplicate();
    let mut y_res: Vec<I> = Vec::new();
    y_res.push(y0.duplicate());
    let ghost mut traj: Seq<Seq<F>> = Seq::empty();
    proof {
        let d0 = drive_single_iter::<I, F, P, R>(solver_type, rhs0, y0.elems(), ts, 0, *p);
        if d0 is Ok {
            assert(traj + d0->Ok_0 =~= d0->Ok_0);
        }
    }
    let mut i: usize = 1;
    while i < t_series.len()
        invariant
            1 <= i <= ts.len(),
            stepper.kind() == solver_type,
            stepper.rhs() == rhs0,
            y_res@.len() == i,
            y_res@[0] == *y0,
            traj.len() == i - 1,
            forall|j: int| 1 <= j < i ==> (#[trigger] y_res@[j]).elems() == traj[j - 1],
            match drive_single_iter::<I, F, P, R>(
                solver_type,
                rhs0,
                y.elems(),
                ts,
                i as int - 1,
                *p,
            ) {
                Ok(states) => drive_single_iter::<I, F, P, R>(
                    solver_type,
                    rhs0,
                    y0.elems(),
                    ts,
                    0,
                    *p,
                ) == Ok::<Seq<Seq<F>>, Seq<char>>(traj + states),
                Err(m) => drive_single_iter::<I, F, P, R>(
                    solver_type,
                    rhs0,
                    y0.elems(),
                    ts,
                    0,
                    *p,
                ) == Err::<Seq<Seq<F>>, Seq<char>>(m),
            },
        decreases ts.len() - i,
    {
        let dt = t_series[i].sub(t_series[i - 1]);
        if dt.lt(F::from_small_int(0)) {
            proof {
                reveal_strlit("Time steps need to be increasing");
                assert(drive_single_iter::<I, F, P, R>(
                    solver_type,
                    rhs0,
                    y.elems(),
                    ts,
                    i as int - 1,
                    *p,
                ) == Err::<Seq<Seq<F>>, Seq<char>>(msg_time_not_increasing()));
            }
            return Err(SolvingError::new("Time steps need to be increasing".to_owned()));
        }
        let t_prev = t_series[i - 1];
        let ghost y_pre: I = y;
        match stepper.do_step_iter(&mut y, &t_prev, &dt, p) {
            Ok(()) => {},
            Err(e) => {
                proof {
                    assert(drive_single_iter::<I, F, P, R>(
                        solver_type,
                        rhs0,
                        y_pre.elems(),
                        ts,
                        i as int - 1,
                        *p,
                    ) == Err::<Seq<Seq<F>>, Seq<char>>(e@));
                }
                return Err(SolvingError::from(e));
            },
        }
        y_res.push(y.duplicate());
        proof {
            let rest = drive_single_iter::<I, F, P, R>(solver_type, rhs0, y.elems(), ts, i as int, *p);
            if rest is Ok {
                assert((traj + seq![y.elems()]) + rest->Ok_0 =~= traj + (seq![y.elems()]
                    + rest->Ok_0));
            }
            traj = traj + seq![y.elems()];
        }
        i += 1;
    }
    proof {
        assert(drive_single_iter::<I, F, P, R>(solver_type, rhs0, y.elems(), ts, i as int - 1, *p)
            == Ok::<Seq<Seq<F>>, Seq<char>>(Seq::empty()));
        assert(traj + Seq::<Seq<F>>::empty() =~= traj);
        assert(y_res@[0].elems() == (seq![y0.elems()] + traj)[0]);
        assert forall|j: int| 0 <= j < 1 + traj.len() implies (#[trigger] y_res@[j]).elems() == (
        seq![y0.elems()] + traj)[j] by {
            if j >= 1 {
                assert(y_res@[j].elems() == traj[j - 1]);
            }
        }
    }
    Ok(y_res)
}

/// The snapshots the single-step driver records after time point `i`, under
/// the whole-object model: one solver step per interval, each interval
/// `[ts[j], ts[j+1]]` crossed with the step `ts[j+1] - ts[j]`.  Driving
/// fails on the first negative step, or with the message of the first
/// failing evaluation, and the remaining intervals are not entered.
pub open spec fn drive_single_add<I: MathVecLikeType<F>, F: FloatLikeType, P, R: OdeRhsAdd<
    I,
    F,
    P,
>>(kind: FixedStepSolvers, rhs: R, y: I, ts: Seq<F>, i: int, p: P) -> Result<Seq<I>, Seq<char>>
    decreases ts.len() - i,
{
    if i < 0 || i + 1 >= ts.len() {
        Ok(Seq::empty())
    } else {
        let dt = ts[i + 1].sub_spec(ts[i]);
        if dt.lt_spec(F::from_small_int_spec(0)) {
            Err(msg_time_not_increasing())
        } else {
            match solver_step_add_spec(kind, rhs, y, ts[i], dt, p) {
                Err(e) => Err(e@),
                Ok(y2) => match drive_single_add(kind, rhs, y2, ts, i + 1, p) {
                    Ok(states) => Ok(seq![y2] + states),
                    Err(m) => Err(m),
                },
            }
        }
    }
}

/// What the whole-object single-step driver returns: the initial state
/// followed by one snapshot per further time point, or the message of the
/// failure that stopped it.  Fewer than two time points are refused.
pub open spec fn solve_single_step_add_spec<I: MathVecLikeType<F>, F: FloatLikeType, P, R: OdeRhsAdd<
    I,
    F,
    P,
>>(kind: FixedStepSolvers, rhs: R, y0: I, ts: Seq<F>, p: P) -> Result<Seq<I>, Seq<char>> {
    if ts.len() < 2 {
        Err(msg_not_enough_time_steps())
    } else {
        match drive_single_add(kind, rhs, y0, ts, 0, p) {
            Ok(states) => Ok(seq![y0] + states),
            Err(m) => Err(m),
        }
    }
}

/// Solves an ODE for the given time points with single steps in between,
/// under the whole-object model.
///
/// For time points `t_0, ..., t_n` the corresponding intervals are crossed
/// with `dt_i = t_{i+1} - t_i` each in exactly one step of the selected
/// solver, and the state is recorded at every time point, the initial one
/// included.  The returned sequence, or the failure that stopped the
/// drive, is exactly [`solve_single_step_add_spec`] of the inputs.
#[verifier::loop_isolation(false)]
pub fn solve_ode_time_series_single_step_add<I, F, P, R>(
    y0: &I,
    t_series: &Vec<F>,
    rhs: R,
    p: &P,
    solver_type: FixedStepSolvers,
) -> (result: Result<Vec<I>, SolvingError>)
    where
        I: MathVecLikeType<F>,
        F: FloatLikeType,
        R: OdeRhsAdd<I, F, P>,
    ensures
        match solve_single_step_add_spec(solver_type, rhs, *y0, t_series@, *p) {
            Ok(states) => result matches Ok(v) && v@ == states,
            Err(m) => result matches Err(e) && e@ == m,
        },
{
    let ghost rhs0: R = rhs;
    let ghost ts: Seq<F> = t_series@;
    if t_series.len() < 2 {
        proof {
            reveal_strlit("Did not supply enough time steps.");
        }
        return Err(SolvingError::new("Did not supply enough time steps.".to_owned()));
    }
    let t0 = t_series[0];
    let ode_def = OdeDefinition { y0: y0.duplicate(), t0, func: rhs };
    let mut stepper = get_fixed_step_stepper(solver_type, ode_def);
    let mut y = y0.duplicate();
    let mut y_res: Vec<I> = Vec::new();
    y_res.push(y0.duplicate());
    proof {
        let d0 = drive_single_add(solver_type, rhs0, *y0, ts, 0, *p);
        if d0 is Ok {
            assert(y_res@.skip(1) + d0->Ok_0 =~= d0->Ok_0);
        }
    }
    let mut i: usize = 1;
    while i < t_series.len()
        invariant
            1 <= i <= ts.len(),
            2 <= ts.len(),
            t_series@ == ts,
            stepper.kind() == solver_type,
            stepper.rhs() == rhs0,
            y_res@.len() == i,
            y_res@[0] == *y0,
            match drive_single_add(solver_type, rhs0, y, ts, i as int - 1, *p) {
                Ok(states) => drive_single_add(solver_type, rhs0, *y0, ts, 0, *p) == Ok::<
                    Seq<I>,
                    Seq<char>,
                >(y_res@.skip(1) + states),
                Err(m) => drive_single_add(solver_type, rhs0, *y0, ts, 0, *p) == Err::<
                    Seq<I>,
                    Seq<char>,
                >(m),
            },
        decreases ts.len() - i,
    {
        let dt = t_series[i].sub(t_series[i - 1]);
        if dt.lt(F::from_small_int(0)) {
            proof {
                reveal_strlit("Time steps need to be increasing");
                assert(drive_single_add(solver_type, rhs0, y, ts, i as int - 1, *p) == Err::<
                    Seq<I>,
                    Seq<char>,
                >(msg_time_not_increasing()));
            }
            return Err(SolvingError::new("Time steps need to be increasing".to_owned()));
        }
        let t_prev = t_series[i - 1];
        let ghost y_pre: I = y;
        let ghost y_res_prev: Seq<I> = y_res@;
        match stepper.do_step_add(&mut y, &t_prev, &dt, p) {
            Ok(()) => {},
            Err(e) => {
                proof {
                    assert(drive_single_add(solver_type, rhs0, y_pre, ts, i as int - 1, *p)
                        == Err::<Seq<I>, Seq<char>>(e@));
                }
                return Err(SolvingError::from(e));
            },
        }
        y_res.push(y.duplicate());
        proof {
            assert(y_res@.skip(1) =~= y_res_prev.skip(1) + seq![y]);
            let rest = drive_single_add(solver_type, rhs0, y, ts, i as int, *p);
            if rest is Ok {
                assert((y_res_prev.skip(1) + seq![y]) + rest->Ok_0 =~= y_res_prev.skip(1) + (
                seq![y] + rest->Ok_0));
            }
        }
        i += 1;
    }
    proof {
        assert(drive_single_add(solver_type, rhs0, y, ts, i as int - 1, *p) == Ok::<
            Seq<I>,
            Seq<char>,
        >(Seq::empty()));
        assert(y_res@.skip(1) + Seq::<I>::empty() =~= y_res@.skip(1));
        assert(seq![*y0] + y_res@.skip(1) =~= y_res@);
    }
    Ok(y_res)
}

/// The elements and time the bounded sub-stepping walk reaches from
/// `(ys, t)`, under the element-wise model: while `t` lies below `t_next`,
/// one solver step of size `min(dt_max, t_next - t)` is taken and `t`
/// advances by that amount.  A sub-step that is not positive cannot make
/// progress and is reported as a non-increasing time step; a failing
/// evaluation stops the walk with its message.
pub open spec fn substep_iter<I, F: FloatLikeType, P, R: OdeRhsIter<I, F, P>>(
    kind: FixedStepSolvers,
    rhs: R,
    ys: Seq<F>,
    t: F,
    t_next: F,
    dt_max: F,
    p: P,
) -> Result<(Seq<F>, F), Seq<char>>
    decreases t.substeps_to(t_next, dt_max),
{
    if !t.lt_spec(t_next) {
        Ok((ys, t))
    } else {
        let dtau = substep_size(t, t_next, dt_max);
        if !F::from_small_int_spec(0).lt_spec(dtau) {
            Err(msg_time_not_increasing())
        } else {
            match solver_step_iter_spec::<I, F, P, R>(kind, rhs, ys, t, dtau, p) {
                Err(e) => Err(e@),
                Ok(ys2) => {
                    proof {
                        t.lemma_substep_progress(t_next, dt_max, dtau);
                    }
                    substep_iter::<I, F, P, R>(kind, rhs, ys2, t.add_spec(dtau), t_next, dt_max, p)
                },
            }
        }
    }
}

/// The element snapshots the bounded sub-stepping driver records after
/// time point `i`, under the element-wise model: each interval
/// `[ts[j], ts[j+1]]` is crossed by the sub-stepping walk, and the
/// elements reached are recorded at `ts[j+1]`.
pub open spec fn drive_minimal_iter<I, F: FloatLikeType, P, R: OdeRhsIter<I, F, P>>(
    kind: FixedStepSolvers,
    rhs: R,
    ys: Seq<F>,
    ts: Seq<F>,
    i: int,
    dt_max: F,
    p: P,
) -> Result<Seq<Seq<F>>, Seq<char>>
    decreases ts.len() - i,
{
    if i < 0 || i + 1 >= ts.len() {
        Ok(Seq::empty())
    } else {
        match substep_iter::<I, F, P, R>(kind, rhs, ys, ts[i], ts[i + 1], dt_max, p) {
            Err(m) => Err(m),
            Ok((ys2, _t2)) => match drive_minimal_iter::<I, F, P, R>(
                kind,
                rhs,
                ys2,
                ts,
                i + 1,
                dt_max,
                p,
            ) {
                Ok(states) => Ok(seq![ys2] + states),
                Err(m) => Err(m),
            },
        }
    }
}

/// What the element-wise bounded sub-stepping driver returns: the initial
/// elements followed by one element snapshot per further time point, or
/// the message of the failure that stopped it.  Fewer than two time
/// points are refused.
pub open spec fn solve_minimal_step_iter_spec<I, F: FloatLikeType, P, R: OdeRhsIter<I, F, P>>(
    kind: FixedStepSolvers,
    rhs: R,
    ys0: Seq<F>,
    ts: Seq<F>,
    dt_max: F,
    p: P,
) -> Result<Seq<Seq<F>>, Seq<char>> {
    if ts.len() < 2 {
        Err(msg_not_enough_time_steps())
    } else {
        match drive_minimal_iter::<I, F, P, R>(kind, rhs, ys0, ts, 0, dt_max, p) {
            Ok(states) => Ok(seq![ys0] + states),
            Err(m) => Err(m),
        }
    }
}

/// Solves an ODE for the given time points with bounded sub-stepping in
/// between, under the element-wise model.
///
/// Within each interval `[t_i, t_{i+1}]` the driver advances repeatedly
/// with step size `min(dt, t_{i+1} - t)` until it reaches `t_{i+1}`, and
/// records the state there; `dt` bounds the local truncation error
/// independently of how coarse the requested output times are.  The state
/// is recorded at every time point, the initial one included.  The
/// recorded snapshots' elements, or the failure that stopped the drive,
/// are exactly [`solve_minimal_step_iter_spec`] of the inputs.
#[verifier::loop_isolation(false)]
pub fn solve_ode_time_series_minimal_step_iter<I, F, P, R>(
    y0: &I,
    t_series: &Vec<F>,
    rhs: R,
    p: &P,
    solver_type: FixedStepSolvers,
    dt: &F,
) -> (result: Result<Vec<I>, SolvingError>)
    where
        I: ElementIterableType<F> + DuplicableType,
        F: FloatLikeType,
        R: OdeRhsIter<I, F, P>,
    requires
        rhs_keeps_len::<I, F, P, R>(rhs),
    ensures
        match solve_minimal_step_iter_spec::<I, F, P, R>(
            solver_type,
            rhs,
            y0.elems(),
            t_series@,
            *dt,
            *p,
        ) {
            Ok(trajs) => result matches Ok(v) && v@.len() == trajs.len() && v@[0] == *y0 && forall|
                j: int,
            | 0 <= j < trajs.len() ==> (#[trigger] v@[j]).elems() == trajs[j],
            Err(m) => result matches Err(e) && e@ == m,
        },
{
    let ghost rhs0: R = rhs;
    let ghost ts: Seq<F> = t_series@;
    if t_series.len() < 2 {
        proof {
            reveal_strlit("Did not supply enough time steps.");
        }
        return Err(SolvingError::new("Did not supply enough time steps.".to_owned()));
    }
    let t0 = t_series[0];
    let ode_def = OdeDefinition { y0: y0.duplicate(), t0, func: rhs };
    let mut stepper = get_fixed_step_stepper(solver_type, ode_def);
    let mut y = y0.duplicate();
    let mut y_res: Vec<I> = Vec::new();
    y_res.push(y0.duplicate());
    let ghost mut traj: Seq<Seq<F>> = Seq::empty();
    proof {
        let d0 = drive_minimal_iter::<I, F, P, R>(solver_type, rhs0, y0.elems(), ts, 0, *dt, *p);
        if d0 is Ok {
            assert(traj + d0->Ok_0 =~= d0->Ok_0);
        }
    }
    let mut i: usize = 1;
    while i < t_series.len()
        invariant
            1 <= i <= ts.len(),
            stepper.kind() == solver_type,
            stepper.rhs() == rhs0,
            y_res@.len() == i,
            y_res@[0] == *y0,
            traj.len() == i - 1,
            forall|j: int| 1 <= j < i ==> (#[trigger] y_res@[j]).elems() == traj[j - 1],
            match drive_minimal_iter::<I, F, P, R>(
                solver_type,
                rhs0,
                y.elems(),
                ts,
                i as int - 1,
                *dt,
                *p,
            ) {
                Ok(states) => drive_minimal_iter::<I, F, P, R>(
                    solver_type,
                    rhs0,
                    y0.elems(),
                    ts,
                    0,
                    *dt,
                    *p,
                ) == Ok::<Seq<Seq<F>>, Seq<char>>(traj + states),
                Err(m) => drive_minimal_iter::<I, F, P, R>(
                    solver_type,
                    rhs0,
                    y0.elems(),
                    ts,
                    0,
                    *dt,
                    *p,
                ) == Err::<Seq<Seq<F>>, Seq<char>>(m),
            },
        decreases ts.len() - i,
    {
        let t_next = t_series[i];
        let mut t = t_series[i - 1];
        let ghost ys_start: Seq<F> = y.elems();
        while t.lt(t_next)
            invariant
                stepper.kind() == solver_type,
                stepper.rhs() == rhs0,
                substep_iter::<I, F, P, R>(
                    solver_type,
                    rhs0,
                    ys_start,
                    ts[i as int - 1],
                    ts[i as int],
                    *dt,
                    *p,
                ) == substep_iter::<I, F, P, R>(
                    solver_type,
                    rhs0,
                    y.elems(),
                    t,
                    ts[i as int],
                    *dt,
                    *p,
                ),
            decreases t.substeps_to(t_next, *dt),
        {
            let remaining = t_next.sub(t);
            let dtau = if remaining.lt(*dt) {
                remaining
            } else {
                *dt
            };
            if !F::from_small_int(0).lt(dtau) {
                proof {
                    reveal_strlit("Time steps need to be increasing");
                    assert(substep_iter::<I, F, P, R>(
                        solver_type,
                        rhs0,
                        y.elems(),
                        t,
                        ts[i as int],
                        *dt,
                        *p,
                    ) == Err::<(Seq<F>, F), Seq<char>>(msg_time_not_increasing()));
                    assert(drive_minimal_iter::<I, F, P, R>(
                        solver_type,
                        rhs0,
                        ys_start,
                        ts,
                        i as int - 1,
                        *dt,
                        *p,
                    ) == Err::<Seq<Seq<F>>, Seq<char>>(msg_time_not_increasing()));
                }
                return Err(SolvingError::new("Time steps need to be increasing".to_owned()));
            }
            let ghost ys_pre: Seq<F> = y.elems();
            let ghost t_pre: F = t;
            match stepper.do_step_iter(&mut y, &t, &dtau, p) {
                Ok(()) => {},
                Err(e) => {
                    proof {
                        assert(substep_iter::<I, F, P, R>(
                            solver_type,
                            rhs0,
                            ys_pre,
                            t_pre,
                            ts[i as int],
                            *dt,
                            *p,
                        ) == Err::<(Seq<F>, F), Seq<char>>(e@));
                        assert(drive_minimal_iter::<I, F, P, R>(
                            solver_type,
                            rhs0,
                            ys_start,
                            ts,
                            i as int - 1,
                            *dt,
                            *p,
                        ) == Err::<Seq<Seq<F>>, Seq<char>>(e@));
                    }
                    return Err(SolvingError::from(e));
                },
            }
            proof {
                t_pre.lemma_substep_progress(ts[i as int], *dt, dtau);
            }
            t = t.add(dtau);
        }
        y_res.push(y.duplicate());
        proof {
            assert(substep_iter::<I, F, P, R>(
                solver_type,
                rhs0,
                ys_start,
                ts[i as int - 1],
                ts[i as int],
                *dt,
                *p,
            ) == Ok::<(Seq<F>, F), Seq<char>>((y.elems(), t)));
            let rest = drive_minimal_iter::<I, F, P, R>(solver_type, rhs0, y.elems(), ts, i as int, *dt, *p);
            if rest is Ok {
                assert((traj + seq![y.elems()]) + rest->Ok_0 =~= traj + (seq![y.elems()]
                    + rest->Ok_0));
            }
            traj = traj + seq![y.elems()];
        }
        i += 1;
    }
    proof {
        assert(drive_minimal_iter::<I, F, P, R>(solver_type, rhs0, y.elems(), ts, i as int - 1, *dt, *p)
            == Ok::<Seq<Seq<F>>, Seq<char>>(Seq::empty()));
        assert(traj + Seq::<Seq<F>>::empty() =~= traj);
        assert(y_res@[0].elems() == (seq![y0.elems()] + traj)[0]);
        assert forall|j: int| 0 <= j < 1 + traj.len() implies (#[trigger] y_res@[j]).elems() == (
        seq![y0.elems()] + traj)[j] by {
            if j >= 1 {
                assert(y_res@[j].elems() == traj[j - 1]);
            }
        }
    }
    Ok(y_res)
}

/// The state and time the bounded sub-stepping walk reaches from `(y, t)`,
/// under the whole-object model: while `t` lies below `t_next`, one solver
/// step of size `min(dt_max, t_next - t)` is taken and `t` advances by
/// that amount.  A sub-step that is not positive cannot make progress and
/// is reported as a non-increasing time step; a failing evaluation stops
/// the walk with its message.
pub open spec fn substep_add<I: MathVecLikeType<F>, F: FloatLikeType, P, R: OdeRhsAdd<I, F, P>>(
    kind: FixedStepSolvers,
    rhs: R,
    y: I,
    t: F,
    t_next: F,
    dt_max: F,
    p: P,
) -> Result<(I, F), Seq<char>>
    decreases t.substeps_to(t_next, dt_max),
{
    if !t.lt_spec(t_next) {
        Ok((y, t))
    } else {
        let dtau = substep_size(t, t_next, dt_max);
        if !F::from_small_int_spec(0).lt_spec(dtau) {
            Err(msg_time_not_increasing())
        } else {
            match solver_step_add_spec(kind, rhs, y, t, dtau, p) {
                Err(e) => Err(e@),
                Ok(y2) => {
                    proof {
                        t.lemma_substep_progress(t_next, dt_max, dtau);
                    }
                    substep_add(kind, rhs, y2, t.add_spec(dtau), t_next, dt_max, p)
                },
            }
        }
    }
}

/// The snapshots the bounded sub-stepping driver records after time point
/// `i`, under the whole-object model: each interval `[ts[j], ts[j+1]]` is
/// crossed by the sub-stepping walk, and the state reached is recorded at
/// `ts[j+1]`.
pub open spec fn drive_minimal_add<I: MathVecLikeType<F>, F: FloatLikeType, P, R: OdeRhsAdd<
    I,
    F,
    P,
>>(kind: FixedStepSolvers, rhs: R, y: I, ts: Seq<F>, i: int, dt_max: F, p: P) -> Result<
    Seq<I>,
    Seq<char>,
>
    decreases ts.len() - i,
{
    if i < 0 || i + 1 >= ts.len() {
        Ok(Seq::empty())
    } else {
        match substep_add(kind, rhs, y, ts[i], ts[i + 1], dt_max, p) {
            Err(m) => Err(m),
            Ok((y2, _t2)) => match drive_minimal_add(kind, rhs, y2, ts, i + 1, dt_max, p) {
                Ok(states) => Ok(seq![y2] + states),
                Err(m) => Err(m),
            },
        }
    }
}

/// What the whole-object bounded sub-stepping driver returns: the initial
/// state followed by one snapshot per further time point, or the message
/// of the failure that stopped it.  Fewer than two time points are
/// refused.
pub open spec fn solve_minimal_step_add_spec<I: MathVecLikeType<F>, F: FloatLikeType, P, R: OdeRhsAdd<
    I,
    F,
    P,
>>(kind: FixedStepSolvers, rhs: R, y0: I, ts: Seq<F>, dt_max: F, p: P) -> Result<
    Seq<I>,
    Seq<char>,
> {
    if ts.len() < 2 {
        Err(msg_not_enough_time_steps())
    } else {
        match drive_minimal_add(kind, rhs, y0, ts, 0, dt_max, p) {
            Ok(states) => Ok(seq![y0] + states),
            Err(m) => Err(m),
        }
    }
}

/// Solves an ODE for the given time points with bounded sub-stepping in
/// between, under the whole-object model.
///
/// Within each interval `[t_i, t_{i+1}]` the driver advances repeatedly
/// with step size `min(dt, t_{i+1} - t)` until it reaches `t_{i+1}`, and
/// records the state there; `dt` bounds the local truncation error
/// independently of how coarse the requested output times are.  The state
/// is recorded at every time point, the initial one included.  The
/// returned sequence, or the failure that stopped the drive, is exactly
/// [`solve_minimal_step_add_spec`] of the inputs.
#[verifier::loop_isolation(false)]
pub fn solve_ode_time_series_minimal_step_add<I, F, P, R>(
    y0: &I,
    t_series: &Vec<F>,
    rhs: R,
    p: &P,
    solver_type: FixedStepSolvers,
    dt: &F,
) -> (result: Result<Vec<I>, SolvingError>)
    where
        I: MathVecLikeType<F>,
        F: FloatLikeType,
        R: OdeRhsAdd<I, F, P>,
    ensures
        match solve_minimal_step_add_spec(solver_type, rhs, *y0, t_series@, *dt, *p) {
            Ok(states) => result matches Ok(v) && v@ == states,
            Err(m) => result matches Err(e) && e@ == m,
        },
{
    let ghost rhs0: R = rhs;
    let ghost ts: Seq<F> = t_series@;
    if t_series.len() < 2 {
        proof {
            reveal_strlit("Did not supply enough time steps.");
        }
        return Err(SolvingError::new("Did not supply enough time steps.".to_owned()));
    }
    let t0 = t_series[0];
    let ode_def = OdeDefinition { y0: y0.duplicate(), t0, func: rhs };
    let mut stepper = get_fixed_step_stepper(solver_type, ode_def);
    let mut y = y0.duplicate();
    let mut y_res: Vec<I> = Vec::new();
    y_res.push(y0.duplicate());
    proof {
        let d0 = drive_minimal_add(solver_type, rhs0, *y0, ts, 0, *dt, *p);
        if d0 is Ok {
            assert(y_res@.skip(1) + d0->Ok_0 =~= d0->Ok_0);
        }
    }
    let mut i: usize = 1;
    while i < t_series.len()
        invariant
            1 <= i <= ts.len(),
            stepper.kind() == solver_type,
            stepper.rhs() == rhs0,
            y_res@.len() == i,
            y_res@[0] == *y0,
            match drive_minimal_add(solver_type, rhs0, y, ts, i as int - 1, *dt, *p) {
                Ok(states) => drive_minimal_add(solver_type, rhs0, *y0, ts, 0, *dt, *p) == Ok::<
                    Seq<I>,
                    Seq<char>,
                >(y_res@.skip(1) + states),
                Err(m) => drive_minimal_add(solver_type, rhs0, *y0, ts, 0, *dt, *p) == Err::<
                    Seq<I>,
                    Seq<char>,
                >(m),
            },
        decreases ts.len() - i,
    {
        let t_next = t_series[i];
        let mut t = t_series[i - 1];
        let ghost y_start: I = y;
        while t.lt(t_next)
            invariant
                stepper.kind() == solver_type,
                stepper.rhs() == rhs0,
                substep_add(solver_type, rhs0, y_start, ts[i as int - 1], ts[i as int], *dt, *p)
                    == substep_add(solver_type, rhs0, y, t, ts[i as int], *dt, *p),
            decreases t.substeps_to(t_next, *dt),
        {
            let remaining = t_next.sub(t);
            let dtau = if remaining.lt(*dt) {
                remaining
            } else {
                *dt
            };
            if !F::from_small_int(0).lt(dtau) {
                proof {
                    reveal_strlit("Time steps need to be increasing");
                    assert(substep_add(solver_type, rhs0, y, t, ts[i as int], *dt, *p) == Err::<
                        (I, F),
                        Seq<char>,
                    >(msg_time_not_increasing()));
                    assert(drive_minimal_add(solver_type, rhs0, y_start, ts, i as int - 1, *dt, *p)
                        == Err::<Seq<I>, Seq<char>>(msg_time_not_increasing()));
                }
                return Err(SolvingError::new("Time steps need to be increasing".to_owned()));
            }
            let ghost y_pre: I = y;
            let ghost t_pre: F = t;
            match stepper.do_step_add(&mut y, &t, &dtau, p) {
                Ok(()) => {},
                Err(e) => {
                    proof {
                        assert(substep_add(solver_type, rhs0, y_pre, t_pre, ts[i as int], *dt, *p)
                            == Err::<(I, F), Seq<char>>(e@));
                        assert(drive_minimal_add(
                            solver_type,
                            rhs0,
                            y_start,
                            ts,
                            i as int - 1,
                            *dt,
                            *p,
                        ) == Err::<Seq<I>, Seq<char>>(e@));
                    }
                    return Err(SolvingError::from(e));
                },
            }
            proof {
                t_pre.lemma_substep_progress(ts[i as int], *dt, dtau);
            }
            t = t.add(dtau);
        }
        let ghost y_res_prev: Seq<I> = y_res@;
        y_res.push(y.duplicate());
        proof {
            assert(substep_add(solver_type, rhs0, y_start, ts[i as int - 1], ts[i as int], *dt, *p)
                == Ok::<(I, F), Seq<char>>((y, t)));
            assert(y_res@.skip(1) =~= y_res_prev.skip(1) + seq![y]);
            let rest = drive_minimal_add(solver_type, rhs0, y, ts, i as int, *dt, *p);
            if rest is Ok {
                assert((y_res_prev.skip(1) + seq![y]) + rest->Ok_0 =~= y_res_prev.skip(1) + (
                seq![y] + rest->Ok_0));
            }
        }
        i += 1;
    }
    proof {
        assert(drive_minimal_add(solver_type, rhs0, y, ts, i as int - 1, *dt, *p) == Ok::<
            Seq<I>,
            Seq<char>,
        >(Seq::empty()));
        assert(y_res@.skip(1) + Seq::<I>::empty() =~= y_res@.skip(1));
        assert(seq![*y0] + y_res@.skip(1) =~= y_res@);
    }
    Ok(y_res)
}

/// No residual sub-step is left over: when the whole-object sub-stepping
/// walk finishes, the time it reaches is not below its target, so no part
/// of the interval remains to be crossed.
pub proof fn lemma_substep_add_reaches_target<I: MathVecLikeType<F>, F: FloatLikeType, P, R: OdeRhsAdd<I, F, P>>(
    kind: FixedStepSolvers,
    rhs: R,
    y: I,
    t: F,
    t_next: F,
    dt_max: F,
    p: P,
)
    requires
        substep_add(kind, rhs, y, t, t_next, dt_max, p) is Ok,
    ensures
        !substep_add(kind, rhs, y, t, t_next, dt_max, p)->Ok_0.1.lt_spec(t_next),
    decreases t.substeps_to(t_next, dt_max),
{
    if t.lt_spec(t_next) {
        let dtau = substep_size(t, t_next, dt_max);
        match solver_step_add_spec(kind, rhs, y, t, dtau, p) {
            Err(_) => {},
            Ok(y2) => {
                t.lemma_substep_progress(t_next, dt_max, dtau);
                lemma_substep_add_reaches_target(
                    kind,
                    rhs,
                    y2,
                    t.add_spec(dtau),
                    t_next,
                    dt_max,
                    p,
                );
            },
        }
    }
}

/// No residual sub-step is left over: when the element-wise sub-stepping
/// walk finishes, the time it reaches is not below its target, so no part
/// of the interval remains to be crossed.
pub proof fn lemma_substep_iter_reaches_target<I, F: FloatLikeType, P, R: OdeRhsIter<I, F, P>>(
    kind: FixedStepSolvers,
    rhs: R,
    ys: Seq<F>,
    t: F,
    t_next: F,
    dt_max: F,
    p: P,
)
    requires
        substep_iter::<I, F, P, R>(kind, rhs, ys, t, t_next, dt_max, p) is Ok,
    ensures
        !substep_iter::<I, F, P, R>(kind, rhs, ys, t, t_next, dt_max, p)->Ok_0.1.lt_spec(t_next),
    decreases t.substeps_to(t_next, dt_max),
{
    if t.lt_spec(t_next) {
        let dtau = substep_size(t, t_next, dt_max);
        match solver_step_iter_spec::<I, F, P, R>(kind, rhs, ys, t, dtau, p) {
            Err(_) => {},
            Ok(ys2) => {
                t.lemma_substep_progress(t_next, dt_max, dtau);
                lemma_substep_iter_reaches_target::<I, F, P, R>(
                    kind,
                    rhs,
                    ys2,
                    t.add_spec(dtau),
                    t_next,
                    dt_max,
                    p,
                );
            },
        }
    }
}

/// Whether the interval `[ts[i], ts[i+1]]` is crossed by one positive
/// sub-step under the bound `dt_max`: the interval ascends, its width
/// stays below the bound, and adding the width to its start reaches its
/// end.  Exact scalars satisfy the last point outright; floating-point
/// scalars satisfy it when the subtraction and the addition round to the
/// exact results, as they do on ordinary grids.
pub open spec fn single_substep_reaches<F: FloatLikeType>(ts: Seq<F>, dt_max: F, i: int) -> bool {
    let width = ts[i + 1].sub_spec(ts[i]);
    &&& ts[i].lt_spec(ts[i + 1])
    &&& width.lt_spec(dt_max)
    &&& F::from_small_int_spec(0).lt_spec(width)
    &&& !width.lt_spec(F::from_small_int_spec(0))
    &&& !ts[i].add_spec(width).lt_spec(ts[i + 1])
}

proof fn lemma_drive_minimal_add_noop<I: MathVecLikeType<F>, F: FloatLikeType, P, R: OdeRhsAdd<I, F, P>>(
    kind: FixedStepSolvers,
    rhs: R,
    y: I,
    ts: Seq<F>,
    i: int,
    dt_max: F,
    p: P,
)
    requires
        0 <= i,
        forall|j: int| 0 <= j < ts.len() - 1 ==> #[trigger] single_substep_reaches(ts, dt_max, j),
    ensures
        drive_minimal_add(kind, rhs, y, ts, i, dt_max, p) == drive_single_add(
            kind,
            rhs,
            y,
            ts,
            i,
            p,
        ),
    decreases ts.len() - i,
{
    if i + 1 < ts.len() {
        assert(single_substep_reaches(ts, dt_max, i));
        let width = ts[i + 1].sub_spec(ts[i]);
        match solver_step_add_spec(kind, rhs, y, ts[i], width, p) {
            Err(_) => {},
            Ok(y2) => {
                assert(substep_add(kind, rhs, y2, ts[i].add_spec(width), ts[i + 1], dt_max, p)
                    == Ok::<(I, F), Seq<char>>((y2, ts[i].add_spec(width))));
                lemma_drive_minimal_add_noop(kind, rhs, y2, ts, i + 1, dt_max, p);
            },
        }
    }
}

/// Sub-stepping with a wide enough bound is a no-op: where every interval
/// of the time series is crossed by one positive sub-step under the bound
/// `dt_max`, the whole-object bounded sub-stepping driver produces exactly
/// the single-step driver's result.
pub proof fn lemma_minimal_step_add_noop_matches_single_step<I: MathVecLikeType<F>, F: FloatLikeType, P, R: OdeRhsAdd<I, F, P>>(
    kind: FixedStepSolvers,
    rhs: R,
    y0: I,
    ts: Seq<F>,
    dt_max: F,
    p: P,
)
    requires
        forall|j: int| 0 <= j < ts.len() - 1 ==> #[trigger] single_substep_reaches(ts, dt_max, j),
    ensures
        solve_minimal_step_add_spec(kind, rhs, y0, ts, dt_max, p) == solve_single_step_add_spec(
            kind,
            rhs,
            y0,
            ts,
            p,
        ),
{
    if ts.len() >= 2 {
        lemma_drive_minimal_add_noop(kind, rhs, y0, ts, 0, dt_max, p);
    }
}

proof fn lemma_drive_minimal_iter_noop<I, F: FloatLikeType, P, R: OdeRhsIter<I, F, P>>(
    kind: FixedStepSolvers,
    rhs: R,
    ys: Seq<F>,
    ts: Seq<F>,
    i: int,
    dt_max: F,
    p: P,
)
    requires
        0 <= i,
        forall|j: int| 0 <= j < ts.len() - 1 ==> #[trigger] single_substep_reaches(ts, dt_max, j),
    ensures
        drive_minimal_iter::<I, F, P, R>(kind, rhs, ys, ts, i, dt_max, p) == drive_single_iter::<
            I,
            F,
            P,
            R,
        >(kind, rhs, ys, ts, i, p),
    decreases ts.len() - i,
{
    if i + 1 < ts.len() {
        assert(single_substep_reaches(ts, dt_max, i));
        let width = ts[i + 1].sub_spec(ts[i]);
        match solver_step_iter_spec::<I, F, P, R>(kind, rhs, ys, ts[i], width, p) {
            Err(_) => {},
            Ok(ys2) => {
                assert(substep_iter::<I, F, P, R>(
                    kind,
                    rhs,
                    ys2,
                    ts[i].add_spec(width),
                    ts[i + 1],
                    dt_max,
                    p,
                ) == Ok::<(Seq<F>, F), Seq<char>>((ys2, ts[i].add_spec(width))));
                lemma_drive_minimal_iter_noop::<I, F, P, R>(kind, rhs, ys2, ts, i + 1, dt_max, p);
            },
        }
    }
}

/// Sub-stepping with a wide enough bound is a no-op: where every interval
/// of the time series is crossed by one positive sub-step under the bound
/// `dt_max`, the element-wise bounded sub-stepping driver produces exactly
/// the single-step driver's result.
pub proof fn lemma_minimal_step_iter_noop_matches_single_step<I, F: FloatLikeType, P, R: OdeRhsIter<I, F, P>>(
    kind: FixedStepSolvers,
    rhs: R,
    ys0: Seq<F>,
    ts: Seq<F>,
    dt_max: F,
    p: P,
)
    requires
        forall|j: int| 0 <= j < ts.len() - 1 ==> #[trigger] single_substep_reaches(ts, dt_max, j),
    ensures
        solve_minimal_step_iter_spec::<I, F, P, R>(kind, rhs, ys0, ts, dt_max, p)
            == solve_single_step_iter_spec::<I, F, P, R>(kind, rhs, ys0, ts, p),
{
    if ts.len() >= 2 {
        lemma_drive_minimal_iter_noop::<I, F, P, R>(kind, rhs, ys0, ts, 0, dt_max, p);
    }
}

/// Minimum time points: with fewer than two time points the whole-object
/// single-step driver reports a failure rather than a trajectory.
pub proof fn lemma_single_step_add_needs_two_points<I: MathVecLikeType<F>, F: FloatLikeType, P, R: OdeRhsAdd<I, F, P>>(
    kind: FixedStepSolvers,
    rhs: R,
    y0: I,
    ts: Seq<F>,
    p: P,
)
    requires
        ts.len() < 2,
    ensures
        solve_single_step_add_spec(kind, rhs, y0, ts, p) == Err::<Seq<I>, Seq<char>>(
            msg_not_enough_time_steps(),
        ),
{
}

/// Minimum time points: with fewer than two time points the element-wise
/// single-step driver reports a failure rather than a trajectory.
pub proof fn lemma_single_step_iter_needs_two_points<I, F: FloatLikeType, P, R: OdeRhsIter<I, F, P>>(
    kind: FixedStepSolvers,
    rhs: R,
    ys0: Seq<F>,
    ts: Seq<F>,
    p: P,
)
    requires
        ts.len() < 2,
    ensures
        solve_single_step_iter_spec::<I, F, P, R>(kind, rhs, ys0, ts, p) == Err::<
            Seq<Seq<F>>,
            Seq<char>,
        >(msg_not_enough_time_steps()),
{
}

/// Minimum time points: with fewer than two time points the whole-object
/// bounded sub-stepping driver reports a failure rather than a trajectory.
pub proof fn lemma_minimal_step_add_needs_two_points<I: MathVecLikeType<F>, F: FloatLikeType, P, R: OdeRhsAdd<I, F, P>>(
    kind: FixedStepSolvers,
    rhs: R,
    y0: I,
    ts: Seq<F>,
    dt_max: F,
    p: P,
)
    requires
        ts.len() < 2,
    ensures
        solve_minimal_step_add_spec(kind, rhs, y0, ts, dt_max, p) == Err::<Seq<I>, Seq<char>>(
            msg_not_enough_time_steps(),
        ),
{
}

/// Minimum time points: with fewer than two time points the element-wise
/// bounded sub-stepping driver reports a failure rather than a trajectory.
pub proof fn lemma_minimal_step_iter_needs_two_points<I, F: FloatLikeType, P, R: OdeRhsIter<I, F, P>>(
    kind: FixedStepSolvers,
    rhs: R,
    ys0: Seq<F>,
    ts: Seq<F>,
    dt_max: F,
    p: P,
)
    requires
        ts.len() < 2,
    ensures
        solve_minimal_step_iter_spec::<I, F, P, R>(kind, rhs, ys0, ts, dt_max, p) == Err::<
            Seq<Seq<F>>,
            Seq<char>,
        >(msg_not_enough_time_steps()),
{
}

proof fn lemma_drive_single_add_ok_nonneg<I: MathVecLikeType<F>, F: FloatLikeType, P, R: OdeRhsAdd<I, F, P>>(
    kind: FixedStepSolvers,
    rhs: R,
    y: I,
    ts: Seq<F>,
    i: int,
    p: P,
)
    requires
        0 <= i,
        drive_single_add(kind, rhs, y, ts, i, p) is Ok,
    ensures
        forall|j: int|
            i <= j < ts.len() - 1 ==> !((#[trigger] ts[j + 1].sub_spec(ts[j])).lt_spec(
                F::from_small_int_spec(0),
            )),
    decreases ts.len() - i,
{
    if i + 1 < ts.len() {
        let dt = ts[i + 1].sub_spec(ts[i]);
        let step = solver_step_add_spec(kind, rhs, y, ts[i], dt, p);
        assert(step is Ok);
        lemma_drive_single_add_ok_nonneg(kind, rhs, step->Ok_0, ts, i + 1, p);
    }
}

/// Monotonic time check: a time sequence that decreases somewhere cannot
/// give the whole-object single-step driver a trajectory; it reports a
/// failure instead.
pub proof fn lemma_single_step_add_monotonic_time_check<I: MathVecLikeType<F>, F: FloatLikeType, P, R: OdeRhsAdd<I, F, P>>(
    kind: FixedStepSolvers,
    rhs: R,
    y0: I,
    ts: Seq<F>,
    p: P,
    j: int,
)
    requires
        0 <= j < ts.len() - 1,
        ts[j + 1].sub_spec(ts[j]).lt_spec(F::from_small_int_spec(0)),
    ensures
        solve_single_step_add_spec(kind, rhs, y0, ts, p) is Err,
{
    if solve_single_step_add_spec(kind, rhs, y0, ts, p) is Ok {
        lemma_drive_single_add_ok_nonneg(kind, rhs, y0, ts, 0, p);
        assert(false);
    }
}

proof fn lemma_drive_single_iter_ok_nonneg<I, F: FloatLikeType, P, R: OdeRhsIter<I, F, P>>(
    kind: FixedStepSolvers,
    rhs: R,
    ys: Seq<F>,
    ts: Seq<F>,
    i: int,
    p: P,
)
    requires
        0 <= i,
        drive_single_iter::<I, F, P, R>(kind, rhs, ys, ts, i, p) is Ok,
    ensures
        forall|j: int|
            i <= j < ts.len() - 1 ==> !((#[trigger] ts[j + 1].sub_spec(ts[j])).lt_spec(
                F::from_small_int_spec(0),
            )),
    decreases ts.len() - i,
{
    if i + 1 < ts.len() {
        let dt = ts[i + 1].sub_spec(ts[i]);
        let step = solver_step_iter_spec::<I, F, P, R>(kind, rhs, ys, ts[i], dt, p);
        assert(step is Ok);
        lemma_drive_single_iter_ok_nonneg::<I, F, P, R>(kind, rhs, step->Ok_0, ts, i + 1, p);
    }
}

/// Monotonic time check: a time sequence that decreases somewhere cannot
/// give the element-wise single-step driver a trajectory; it reports a
/// failure instead.
pub proof fn lemma_single_step_iter_monotonic_time_check<I, F: FloatLikeType, P, R: OdeRhsIter<I, F, P>>(
    kind: FixedStepSolvers,
    rhs: R,
    ys0: Seq<F>,
    ts: Seq<F>,
    p: P,
    j: int,
)
    requires
        0 <= j < ts.len() - 1,
        ts[j + 1].sub_spec(ts[j]).lt_spec(F::from_small_int_spec(0)),
    ensures
        solve_single_step_iter_spec::<I, F, P, R>(kind, rhs, ys0, ts, p) is Err,
{
    if solve_single_step_iter_spec::<I, F, P, R>(kind, rhs, ys0, ts, p) is Ok {
        lemma_drive_single_iter_ok_nonneg::<I, F, P, R>(kind, rhs, ys0, ts, 0, p);
        assert(false);
    }
}

/// Error propagation: an evaluation that fails at the first requested
/// point stops the whole-object single-step driver at once, and the
/// failure it reports carries the evaluation's own message.
pub proof fn lemma_single_step_add_propagates_eval_error<I: MathVecLikeType<F>, F: FloatLikeType, P, R: OdeRhsAdd<I, F, P>>(
    kind: FixedStepSolvers,
    rhs: R,
    y0: I,
    ts: Seq<F>,
    p: P,
    e: CalcError,
)
    requires
        2 <= ts.len(),
        !(ts[1].sub_spec(ts[0]).lt_spec(F::from_small_int_spec(0))),
        rhs.rhs_spec(y0, ts[0], p) == Err::<I, CalcError>(e),
    ensures
        solve_single_step_add_spec(kind, rhs, y0, ts, p) == Err::<Seq<I>, Seq<char>>(e@),
{
}

/// Error propagation: an evaluation that fails at the first requested
/// point stops the element-wise single-step driver at once, and the
/// failure it reports carries the evaluation's own message.
pub proof fn lemma_single_step_iter_propagates_eval_error<I, F: FloatLikeType, P, R: OdeRhsIter<I, F, P>>(
    kind: FixedStepSolvers,
    rhs: R,
    ys0: Seq<F>,
    ts: Seq<F>,
    p: P,
    e: CalcError,
)
    requires
        2 <= ts.len(),
        !(ts[1].sub_spec(ts[0]).lt_spec(F::from_small_int_spec(0))),
        rhs.rhs_elems_spec(ys0, ts[0], p) == Err::<Seq<F>, CalcError>(e),
    ensures
        solve_single_step_iter_spec::<I, F, P, R>(kind, rhs, ys0, ts, p) == Err::<
            Seq<Seq<F>>,
            Seq<char>,
        >(e@),
{
}

/// Error propagation: an evaluation that fails on the first sub-step stops
/// the whole-object bounded sub-stepping driver at once, and the failure
/// it reports carries the evaluation's own message.
pub proof fn lemma_minimal_step_add_propagates_eval_error<I: MathVecLikeType<F>, F: FloatLikeType, P, R: OdeRhsAdd<I, F, P>>(
    kind: FixedStepSolvers,
    rhs: R,
    y0: I,
    ts: Seq<F>,
    dt_max: F,
    p: P,
    e: CalcError,
)
    requires
        2 <= ts.len(),
        ts[0].lt_spec(ts[1]),
        F::from_small_int_spec(0).lt_spec(substep_size(ts[0], ts[1], dt_max)),
        rhs.rhs_spec(y0, ts[0], p) == Err::<I, CalcError>(e),
    ensures
        solve_minimal_step_add_spec(kind, rhs, y0, ts, dt_max, p) == Err::<Seq<I>, Seq<char>>(e@),
{
}

/// Error propagation: an evaluation that fails on the first sub-step stops
/// the element-wise bounded sub-stepping driver at once, and the failure
/// it reports carries the evaluation's own message.
pub proof fn lemma_minimal_step_iter_propagates_eval_error<I, F: FloatLikeType, P, R: OdeRhsIter<I, F, P>>(
    kind: FixedStepSolvers,
    rhs: R,
    ys0: Seq<F>,
    ts: Seq<F>,
    dt_max: F,
    p: P,
    e: CalcError,
)
    requires
        2 <= ts.len(),
        ts[0].lt_spec(ts[1]),
        F::from_small_int_spec(0).lt_spec(substep_size(ts[0], ts[1], dt_max)),
        rhs.rhs_elems_spec(ys0, ts[0], p) == Err::<Seq<F>, CalcError>(e),
    ensures
        solve_minimal_step_iter_spec::<I, F, P, R>(kind, rhs, ys0, ts, dt_max, p) == Err::<
            Seq<Seq<F>>,
            Seq<char>,
        >(e@),
{
}

/// Determinism: the whole-object single-step driver's outcome is a
/// function of its inputs, so two results obtained from equal problems,
/// equal time points, equal parameters and the same solver are equal.
pub proof fn lemma_single_step_add_deterministic<I: MathVecLikeType<F>, F: FloatLikeType, P, R: OdeRhsAdd<I, F, P>>(
    kind: FixedStepSolvers,
    rhs: R,
    y0: I,
    ts: Seq<F>,
    p: P,
    r1: Result<Seq<I>, Seq<char>>,
    r2: Result<Seq<I>, Seq<char>>,
)
    requires
        r1 == solve_single_step_add_spec(kind, rhs, y0, ts, p),
        r2 == solve_single_step_add_spec(kind, rhs, y0, ts, p),
    ensures
        r1 == r2,
{
}

/// Determinism: the whole-object bounded sub-stepping driver's outcome is
/// a function of its inputs, so two results obtained from equal problems,
/// equal time points, equal parameters, the same bound and the same
/// solver are equal.
pub proof fn lemma_minimal_step_add_deterministic<I: MathVecLikeType<F>, F: FloatLikeType, P, R: OdeRhsAdd<I, F, P>>(
    kind: FixedStepSolvers,
    rhs: R,
    y0: I,
    ts: Seq<F>,
    dt_max: F,
    p: P,
    r1: Result<Seq<I>, Seq<char>>,
    r2: Result<Seq<I>, Seq<char>>,
)
    requires
        r1 == solve_minimal_step_add_spec(kind, rhs, y0, ts, dt_max, p),
        r2 == solve_minimal_step_add_spec(kind, rhs, y0, ts, dt_max, p),
    ensures
        r1 == r2,
{
}

/// Determinism: the element-wise single-step driver's outcome is a
/// function of its inputs, so two results obtained from equal problems,
/// equal time points, equal parameters and the same solver are equal.
pub proof fn lemma_single_step_iter_deterministic<I, F: FloatLikeType, P, R: OdeRhsIter<I, F, P>>(
    kind: FixedStepSolvers,
    rhs: R,
    ys0: Seq<F>,
    ts: Seq<F>,
    p: P,
    r1: Result<Seq<Seq<F>>, Seq<char>>,
    r2: Result<Seq<Seq<F>>, Seq<char>>,
)
    requires
        r1 == solve_single_step_iter_spec::<I, F, P, R>(kind, rhs, ys0, ts, p),
        r2 == solve_single_step_iter_spec::<I, F, P, R>(kind, rhs, ys0, ts, p),
    ensures
        r1 == r2,
{
}

/// Determinism: the element-wise bounded sub-stepping driver's outcome is
/// a function of its inputs, so two results obtained from equal problems,
/// equal time points, equal parameters, the same bound and the same
/// solver are equal.
pub proof fn lemma_minimal_step_iter_deterministic<I, F: FloatLikeType, P, R: OdeRhsIter<I, F, P>>(
    kind: FixedStepSolvers,
    rhs: R,
    ys0: Seq<F>,
    ts: Seq<F>,
    dt_max: F,
    p: P,
    r1: Result<Seq<Seq<F>>, Seq<char>>,
    r2: Result<Seq<Seq<F>>, Seq<char>>,
)
    requires
        r1 == solve_minimal_step_iter_spec::<I, F, P, R>(kind, rhs, ys0, ts, dt_max, p),
        r2 == solve_minimal_step_iter_spec::<I, F, P, R>(kind, rhs, ys0, ts, dt_max, p),
    ensures
        r1 == r2,
{
}

proof fn lemma_drive_single_iter_len<I, F: FloatLikeType, P, R: OdeRhsIter<I, F, P>>(
    kind: FixedStepSolvers,
    rhs: R,
    ys: Seq<F>,
    ts: Seq<F>,
    i: int,
    p: P,
)
    requires
        0 <= i < ts.len(),
        drive_single_iter::<I, F, P, R>(kind, rhs, ys, ts, i, p) is Ok,
    ensures
        drive_single_iter::<I, F, P, R>(kind, rhs, ys, ts, i, p)->Ok_0.len() == ts.len() - 1 - i,
    decreases ts.len() - i,
{
    if i + 1 < ts.len() {
        let dt = ts[i + 1].sub_spec(ts[i]);
        let step = solver_step_iter_spec::<I, F, P, R>(kind, rhs, ys, ts[i], dt, p);
        lemma_drive_single_iter_len::<I, F, P, R>(kind, rhs, step->Ok_0, ts, i + 1, p);
    }
}

/// Every requested time point gets its snapshot: a trajectory of the
/// element-wise single-step driver holds exactly one element snapshot per
/// time point, the unmodified initial elements first.
pub proof fn lemma_single_step_iter_records_every_point<I, F: FloatLikeType, P, R: OdeRhsIter<I, F, P>>(
    kind: FixedStepSolvers,
    rhs: R,
    ys0: Seq<F>,
    ts: Seq<F>,
    p: P,
)
    requires
        solve_single_step_iter_spec::<I, F, P, R>(kind, rhs, ys0, ts, p) is Ok,
    ensures
        solve_single_step_iter_spec::<I, F, P, R>(kind, rhs, ys0, ts, p)->Ok_0.len() == ts.len(),
        solve_single_step_iter_spec::<I, F, P, R>(kind, rhs, ys0, ts, p)->Ok_0[0] == ys0,
{
    lemma_drive_single_iter_len::<I, F, P, R>(kind, rhs, ys0, ts, 0, p);
}

proof fn lemma_drive_minimal_iter_len<I, F: FloatLikeType, P, R: OdeRhsIter<I, F, P>>(
    kind: FixedStepSolvers,
    rhs: R,
    ys: Seq<F>,
    ts: Seq<F>,
    i: int,
    dt_max: F,
    p: P,
)
    requires
        0 <= i < ts.len(),
        drive_minimal_iter::<I, F, P, R>(kind, rhs, ys, ts, i, dt_max, p) is Ok,
    ensures
        drive_minimal_iter::<I, F, P, R>(kind, rhs, ys, ts, i, dt_max, p)->Ok_0.len() == ts.len()
            - 1 - i,
    decreases ts.len() - i,
{
    if i + 1 < ts.len() {
        let walk = substep_iter::<I, F, P, R>(kind, rhs, ys, ts[i], ts[i + 1], dt_max, p);
        lemma_drive_minimal_iter_len::<I, F, P, R>(kind, rhs, walk->Ok_0.0, ts, i + 1, dt_max, p);
    }
}

/// Every requested time point gets its snapshot: a trajectory of the
/// element-wise bounded sub-stepping driver holds exactly one element
/// snapshot per time point, the unmodified initial elements first.
pub proof fn lemma_minimal_step_iter_records_every_point<I, F: FloatLikeType, P, R: OdeRhsIter<I, F, P>>(
    kind: FixedStepSolvers,
    rhs: R,
    ys0: Seq<F>,
    ts: Seq<F>,
    dt_max: F,
    p: P,
)
    requires
        solve_minimal_step_iter_spec::<I, F, P, R>(kind, rhs, ys0, ts, dt_max, p) is Ok,
    ensures
        solve_minimal_step_iter_spec::<I, F, P, R>(kind, rhs, ys0, ts, dt_max, p)->Ok_0.len()
            == ts.len(),
        solve_minimal_step_iter_spec::<I, F, P, R>(kind, rhs, ys0, ts, dt_max, p)->Ok_0[0] == ys0,
{
    lemma_drive_minimal_iter_len::<I, F, P, R>(kind, rhs, ys0, ts, 0, dt_max, p);
}

proof fn lemma_drive_single_add_len<I: MathVecLikeType<F>, F: FloatLikeType, P, R: OdeRhsAdd<I, F, P>>(
    kind: FixedStepSolvers,
    rhs: R,
    y: I,
    ts: Seq<F>,
    i: int,
    p: P,
)
    requires
        0 <= i < ts.len(),
        drive_single_add(kind, rhs, y, ts, i, p) is Ok,
    ensures
        drive_single_add(kind, rhs, y, ts, i, p)->Ok_0.len() == ts.len() - 1 - i,
    decreases ts.len() - i,
{
    if i + 1 < ts.len() {
        let dt = ts[i + 1].sub_spec(ts[i]);
        let step = solver_step_add_spec(kind, rhs, y, ts[i], dt, p);
        lemma_drive_single_add_len(kind, rhs, step->Ok_0, ts, i + 1, p);
    }
}

/// Every requested time point gets its snapshot: a trajectory of the
/// whole-object single-step driver holds exactly one state per time
/// point, the unmodified initial state first.
pub proof fn lemma_single_step_add_records_every_point<I: MathVecLikeType<F>, F: FloatLikeType, P, R: OdeRhsAdd<I, F, P>>(
    kind: FixedStepSolvers,
    rhs: R,
    y0: I,
    ts: Seq<F>,
    p: P,
)
    requires
        solve_single_step_add_spec(kind, rhs, y0, ts, p) is Ok,
    ensures
        solve_single_step_add_spec(kind, rhs, y0, ts, p)->Ok_0.len() == ts.len(),
        solve_single_step_add_spec(kind, rhs, y0, ts, p)->Ok_0[0] == y0,
{
    lemma_drive_single_add_len(kind, rhs, y0, ts, 0, p);
}

proof fn lemma_drive_minimal_add_len<I: MathVecLikeType<F>, F: FloatLikeType, P, R: OdeRhsAdd<I, F, P>>(
    kind: FixedStepSolvers,
    rhs: R,
    y: I,
    ts: Seq<F>,
    i: int,
    dt_max: F,
    p: P,
)
    requires
        0 <= i < ts.len(),
        drive_minimal_add(kind, rhs, y, ts, i, dt_max, p) is Ok,
    ensures
        drive_minimal_add(kind, rhs, y, ts, i, dt_max, p)->Ok_0.len() == ts.len() - 1 - i,
    decreases ts.len() - i,
{
    if i + 1 < ts.len() {
        let walk = substep_add(kind, rhs, y, ts[i], ts[i + 1], dt_max, p);
        lemma_drive_minimal_add_len(kind, rhs, walk->Ok_0.0, ts, i + 1, dt_max, p);
    }
}

/// Every requested time point gets its snapshot: a trajectory of the
/// whole-object bounded sub-stepping driver holds exactly one state per
/// time point, the unmodified initial state first.
pub proof fn lemma_minimal_step_add_records_every_point<I: MathVecLikeType<F>, F: FloatLikeType, P, R: OdeRhsAdd<I, F, P>>(
    kind: FixedStepSolvers,
    rhs: R,
    y0: I,
    ts: Seq<F>,
    dt_max: F,
    p: P,
)
    requires
        solve_minimal_step_add_spec(kind, rhs, y0, ts, dt_max, p) is Ok,
    ensures
        solve_minimal_step_add_spec(kind, rhs, y0, ts, dt_max, p)->Ok_0.len() == ts.len(),
        solve_minimal_step_add_spec(kind, rhs, y0, ts, dt_max, p)->Ok_0[0] == y0,
{
    lemma_drive_minimal_add_len(kind, rhs, y0, ts, 0, dt_max, p);
}

} // verus!
