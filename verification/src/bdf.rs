//! The variable-order, variable-step BDF/NDF integrator.
//!
//! Each step predicts the new solution from the difference history, corrects
//! it by a Newton solve on the implicit step equation, tests the weighted
//! norm of the correction against one, and on acceptance commits the history
//! update and consults the order-and-step controller. Newton failures
//! refresh the Jacobian and then shrink the step; error-test failures shrink
//! the step by the classical factor; the step size falling below a minimum
//! is fatal. On acceptance the root finder scans the step and a pending stop
//! time may clip it.

use vstd::prelude::*;

use crate::bdf_callable::{compute_psi, BdfCallable};
use crate::bdf_state::{interpolate_from_diff, sp_interp, BdfState, MAX_ORDER};
use crate::convergence::{Convergence, ConvergenceStatus};
use crate::equations::OdeEquations;
use crate::error::DiffsolError;
use crate::jacobian_update::{JacobianUpdate, SolverState};
use crate::linear_solver::LinearSolver;
use crate::matrix::{sp_dot, DenseMat, Matrix, MatrixCommon};
use crate::newton::NewtonNonlinearSolver;
use crate::op::{LinearOp, NonLinearOp, Op};
use crate::problem::OdeSolverProblem;
use crate::root::RootFinder;
use crate::scalar::Scalar;
use crate::vector::{weighted_sq_norm, Vector, VectorCommon};

verus! {

/// The Newton iteration budget per implicit solve.
pub const NEWTON_MAXITER: usize = 4;

/// How many attempts one step may spend on Newton and error-test retries
/// before it gives up with a step-size failure. Each error-test retry
/// shrinks the step, so for any practical scalar the minimum step size is
/// reached long before this budget.
pub const MAX_STEP_ATTEMPTS: usize = 100000;

/// What stopped a step.
#[derive(Clone, Copy, Debug)]
pub enum OdeSolverStopReason<T> {
    /// An ordinary internal step was taken.
    InternalTimestep,
    /// An event function changed sign; the root time is attached.
    RootFound(T),
    /// The step landed on the stop time.
    TstopReached,
}

/// Aggregate counts of the work done by an integrator. The setups counter
/// counts every factorization of the iteration matrix.
#[derive(Clone, Debug, PartialEq, Eq, Structural)]
pub struct BdfStatistics {
    pub number_of_linear_solver_setups: usize,
    pub number_of_steps: usize,
    pub number_of_error_test_failures: usize,
    pub number_of_nonlinear_solver_iterations: usize,
    pub number_of_nonlinear_solver_fails: usize,
}

impl BdfStatistics {
    pub fn new() -> (r: Self)
        ensures
            r.number_of_linear_solver_setups == 0,
            r.number_of_steps == 0,
            r.number_of_error_test_failures == 0,
            r.number_of_nonlinear_solver_iterations == 0,
            r.number_of_nonlinear_solver_fails == 0,
    {
        BdfStatistics {
            number_of_linear_solver_setups: 0,
            number_of_steps: 0,
            number_of_error_test_failures: 0,
            number_of_nonlinear_solver_iterations: 0,
            number_of_nonlinear_solver_fails: 0,
        }
    }
}

impl Default for BdfStatistics {
    fn default() -> (r: Self)
        ensures
            r == (BdfStatistics {
                number_of_linear_solver_setups: 0,
                number_of_steps: 0,
                number_of_error_test_failures: 0,
                number_of_nonlinear_solver_iterations: 0,
                number_of_nonlinear_solver_fails: 0,
            }),
    {
        Self::new()
    }
}

/// `c + 1` when it fits, `c` otherwise: counters never wrap.
fn saturating_inc(c: usize) -> (r: usize)
    ensures
        c < usize::MAX ==> r == c + 1,
        c == usize::MAX ==> r == c,
{
    if c < usize::MAX {
        c + 1
    } else {
        c
    }
}

/// `c + d` clamped at the top of the range.
fn saturating_add(c: usize, d: usize) -> (r: usize)
    ensures
        c <= r,
        c + d <= usize::MAX ==> r == c + d,
{
    if c <= usize::MAX - d {
        c + d
    } else {
        usize::MAX
    }
}

/// The NDF shift `kappa` for each order, from the classical table.
pub open spec fn sp_kappa<T: Scalar>(i: int) -> T {
    if i == 1 {
        T::sp_ratio(-1850, 10000)
    } else if i == 2 {
        T::sp_ratio(-1, 9)
    } else if i == 3 {
        T::sp_ratio(-823, 10000)
    } else if i == 4 {
        T::sp_ratio(-415, 10000)
    } else {
        T::sp_zero()
    }
}

/// `gamma[i] = gamma[i-1] + 1/i`, from zero.
pub open spec fn sp_gamma<T: Scalar>(i: int) -> T
    decreases i,
{
    if i <= 0 {
        T::sp_zero()
    } else {
        sp_gamma::<T>(i - 1).sp_add(T::sp_one().sp_div(T::sp_ratio(i, 1)))
    }
}

/// `alpha[i] = 1 / ((1 - kappa[i]) * gamma[i])`, with `alpha[0] = 0`.
pub open spec fn sp_alpha<T: Scalar>(i: int) -> T {
    if i <= 0 {
        T::sp_zero()
    } else {
        T::sp_one().sp_div(T::sp_one().sp_sub(sp_kappa::<T>(i)).sp_mul(sp_gamma::<T>(i)))
    }
}

/// The squared error constant `(kappa[i] * gamma[i] + 1/(i+1))^2`, with one
/// at index zero.
pub open spec fn sp_error_const2<T: Scalar>(i: int) -> T {
    if i <= 0 {
        T::sp_one()
    } else {
        let e = sp_kappa::<T>(i).sp_mul(sp_gamma::<T>(i)).sp_add(
            T::sp_one().sp_div(T::sp_ratio(i + 1, 1)),
        );
        e.sp_mul(e)
    }
}

/// Entry `(i, j)` of the step-size-change matrix `R(order, factor)`:
/// row zero is all ones, column zero is zero below the first row, and
/// `R[i, j] = R[i-1, j] * (i - 1 - factor * j) / i` otherwise.
pub open spec fn sp_r_entry<T: Scalar>(factor: T, i: int, j: int) -> T
    decreases i,
{
    if i <= 0 {
        T::sp_one()
    } else if j == 0 {
        T::sp_zero()
    } else {
        sp_r_entry(factor, i - 1, j).sp_mul(
            T::sp_ratio(i, 1).sp_sub(T::sp_one()).sp_sub(factor.sp_mul(T::sp_ratio(j, 1))).sp_div(
                T::sp_ratio(i, 1),
            ),
        )
    }
}

/// The sum `1*cols[0][i] + ... + 1*cols[m][i]` of the first `m+1` history
/// columns, summed left to right from zero.
pub open spec fn sp_history_sum<T: Scalar>(cols: Seq<Seq<T>>, m: int, i: int) -> T
    decreases m + 1,
{
    if m < 0 {
        T::sp_zero()
    } else {
        sp_history_sum(cols, m - 1, i).sp_add(T::sp_one().sp_mul(cols[m][i]))
    }
}

/// The smallest step size the integrator tolerates: `(1/10)^32`.
pub open spec fn sp_min_timestep<T: Scalar>() -> T {
    T::sp_ratio(1, 10).sp_powi(32)
}

/// Column `j` of the applied step-size-change transform `R(factor) * U`
/// on `n` history columns, where `U = R(1)`.
pub open spec fn sp_ru_column<T: Scalar>(factor: T, n: int, j: int) -> Seq<T> {
    Seq::new(
        n as nat,
        |k: int|
            sp_dot(
                Seq::new(n as nat, |q: int| sp_r_entry(factor, k, q)),
                Seq::new(n as nat, |q: int| sp_r_entry(T::sp_one(), q, j)),
            ),
    )
}

/// `acc` plus the first `m` sensitivity error contributions, summed left to
/// right: term `c` is the weighted squared norm of `deltas[c]` against
/// `ss[c]`, scaled by `ec2`.
pub open spec fn sp_sens_err_acc<V: Vector>(
    acc: V::T,
    deltas: Seq<V>,
    ss: Seq<V>,
    atol: Seq<V::T>,
    rtol: V::T,
    ec2: V::T,
    m: int,
) -> V::T
    decreases m,
{
    if m <= 0 {
        acc
    } else {
        sp_sens_err_acc(acc, deltas, ss, atol, rtol, ec2, m - 1).sp_add(
            weighted_sq_norm(deltas[m - 1].vals(), ss[m - 1].vals(), atol, rtol).sp_mul(ec2),
        )
    }
}

/// The weighted squared error norm of a candidate correction, averaged over
/// the error-controlled channels: the solution channel always, the
/// integrated output when `out_in_ec`, and every sensitivity column when
/// `sens_in_ec`.
pub open spec fn sp_error_norm<V: Vector>(
    y_delta: Seq<V::T>,
    y: Seq<V::T>,
    atol: Seq<V::T>,
    rtol: V::T,
    out_in_ec: bool,
    g_delta: Seq<V::T>,
    g: Seq<V::T>,
    out_atol: Seq<V::T>,
    out_rtol: V::T,
    sens_in_ec: bool,
    s_deltas: Seq<V>,
    ss: Seq<V>,
    sens_atol: Seq<V::T>,
    sens_rtol: V::T,
    order: int,
) -> V::T {
    let ec2 = sp_error_const2::<V::T>(order);
    let base = weighted_sq_norm(y_delta, y, atol, rtol).sp_mul(ec2);
    let with_out = if out_in_ec {
        base.sp_add(weighted_sq_norm(g_delta, g, out_atol, out_rtol).sp_mul(ec2))
    } else {
        base
    };
    let total = if sens_in_ec {
        sp_sens_err_acc(with_out, s_deltas, ss, sens_atol, sens_rtol, ec2, s_deltas.len() as int)
    } else {
        with_out
    };
    let ncontrib = 1 + (if out_in_ec {
        1int
    } else {
        0int
    }) + (if sens_in_ec {
        s_deltas.len() as int
    } else {
        0int
    });
    total.sp_div(V::T::sp_ratio(ncontrib, 1))
}

/// `acc` plus the first `m` sensitivity error contributions drawn from the
/// history: term `c` uses column `col` of `sdiffs[c]` against `ss[c]`,
/// scaled by `ec2`.
pub open spec fn sp_sens_hist_acc<V: Vector>(
    acc: V::T,
    sdiffs: Seq<DenseMat<V>>,
    ss: Seq<V>,
    atol: Seq<V::T>,
    rtol: V::T,
    ec2: V::T,
    col: int,
    m: int,
) -> V::T
    decreases m,
{
    if m <= 0 {
        acc
    } else {
        sp_sens_hist_acc(acc, sdiffs, ss, atol, rtol, ec2, col, m - 1).sp_add(
            weighted_sq_norm(sdiffs[m - 1].sp_columns()[col], ss[m - 1].vals(), atol, rtol).sp_mul(
                ec2,
            ),
        )
    }
}

/// The roundoff window around the current time: `100 * epsilon * (|t| + |h|)`.
pub open spec fn sp_troundoff<T: Scalar>(t: T, h: T) -> T {
    T::sp_ratio(100, 1).sp_mul(T::sp_epsilon()).sp_mul(t.sp_abs().sp_add(h.sp_abs()))
}

/// Whether the solver has landed on the stop time, within roundoff.
pub open spec fn sp_at_tstop<T: Scalar>(t: T, h: T, tstop: T) -> bool {
    t.sp_sub(tstop).sp_abs().sp_le(sp_troundoff(t, h))
}

/// Whether the stop time lies strictly behind the current time in the
/// direction of integration, beyond roundoff.
pub open spec fn sp_tstop_behind<T: Scalar>(t: T, h: T, tstop: T) -> bool {
    (T::sp_zero().sp_lt(h) && tstop.sp_lt(t.sp_sub(sp_troundoff(t, h)))) || (h.sp_lt(
        T::sp_zero(),
    ) && t.sp_add(sp_troundoff(t, h)).sp_lt(tstop))
}

/// Whether the next step from `t` with step `h` would pass the stop time by
/// more than roundoff.
pub open spec fn sp_tstop_overshoot<T: Scalar>(t: T, h: T, tstop: T) -> bool {
    (T::sp_zero().sp_lt(h) && tstop.sp_add(sp_troundoff(t, h)).sp_lt(t.sp_add(h))) || (h.sp_lt(
        T::sp_zero(),
    ) && t.sp_add(h).sp_lt(tstop.sp_sub(sp_troundoff(t, h))))
}

/// Whether `t` lies beyond the current time in the direction of
/// integration.
pub open spec fn sp_interp_beyond<T: Scalar>(t: T, state_t: T, h: T) -> bool {
    if T::sp_zero().sp_lt(h) {
        state_t.sp_lt(t)
    } else {
        t.sp_lt(state_t)
    }
}

/// Whether `t` lies before the start of the last step, outside the interval
/// the history interpolates.
pub open spec fn sp_interp_before<T: Scalar>(t: T, state_t: T, h: T) -> bool {
    if T::sp_zero().sp_lt(h) {
        t.sp_lt(state_t.sp_sub(h))
    } else {
        state_t.sp_sub(h).sp_lt(t)
    }
}

/// The variable-order BDF/NDF integrator over a borrowed problem, with an
/// injected linear solver.
pub struct Bdf<'a, Eqn, LS> where
    Eqn: OdeEquations,
    LS: LinearSolver<T = Eqn::T, V = Eqn::V, M = Eqn::M>,
 {
    pub ode_problem: &'a OdeSolverProblem<Eqn>,
    pub nonlinear_solver: NewtonNonlinearSolver<Eqn::V, LS>,
    pub op: BdfCallable<'a, Eqn>,
    pub state: BdfState<Eqn::V>,
    pub y_delta: Eqn::V,
    pub g_delta: Eqn::V,
    pub y_predict: Eqn::V,
    pub t_predict: Eqn::T,
    pub s_predict: Eqn::V,
    pub s_deltas: Vec<Eqn::V>,
    pub iter_matrix: Eqn::M,
    pub n_equal_steps: usize,
    pub u: DenseMat<Eqn::V>,
    pub alpha: Vec<Eqn::T>,
    pub gamma: Vec<Eqn::T>,
    pub error_const2: Vec<Eqn::T>,
    pub statistics: BdfStatistics,
    pub tstop: Option<Eqn::T>,
    pub root_finder: Option<RootFinder<Eqn::V>>,
    pub is_state_modified: bool,
    pub jacobian_update: JacobianUpdate<Eqn::T>,
    pub sens_error_control: bool,
    /// The weighted error norm of the last accepted correction.
    pub last_error_norm: Ghost<Eqn::T>,
    /// The step size of the last accepted step.
    pub last_accepted_h: Ghost<Eqn::T>,
    /// The first difference column as committed by the last accepted step.
    pub last_history_column: Ghost<Seq<Eqn::T>>,
    /// The equal-order success count the order controller saw after the
    /// last accepted step.
    pub last_equal_steps: Ghost<usize>,
    /// The step size in force when the pending stop time was last examined.
    pub tstop_check_h: Ghost<Eqn::T>,
}

impl<'a, Eqn, LS> Bdf<'a, Eqn, LS> where
    Eqn: OdeEquations,
    LS: LinearSolver<T = Eqn::T, V = Eqn::V, M = Eqn::M>,
 {
    /// Everything agrees with the problem's dimensions, and the coefficient
    /// tables hold the NDF values.
    pub open spec fn sp_wf(&self) -> bool {
        let n = self.ode_problem.eqn.sp_nstates();
        let nout = self.ode_problem.eqn.sp_nout();
        let naug = self.s_deltas@.len();
        &&& self.ode_problem.sp_wf()
        &&& self.op.sp_wf()
        &&& self.op.eqn == &self.ode_problem.eqn
        &&& self.state.sp_wf(n, nout, naug)
        &&& self.nonlinear_solver.sp_wf(n)
        &&& self.nonlinear_solver.convergence.sp_max_iter() == NEWTON_MAXITER
        &&& self.y_delta.vals().len() == n
        &&& self.y_predict.vals().len() == n
        &&& self.s_predict.vals().len() == n
        &&& self.g_delta.vals().len() == nout
        &&& (forall|i: int| 0 <= i < naug ==> (#[trigger] self.s_deltas@[i]).vals().len() == n)
        &&& self.iter_matrix.sp_nrows() == n
        &&& self.iter_matrix.sp_ncols() == n
        &&& self.alpha@.len() == MAX_ORDER + 1
        &&& self.gamma@.len() == MAX_ORDER + 1
        &&& self.error_const2@.len() == MAX_ORDER + 1
        &&& (forall|i: int|
            0 <= i <= MAX_ORDER ==> #[trigger] self.alpha@[i] == sp_alpha::<Eqn::T>(i))
        &&& (forall|i: int|
            0 <= i <= MAX_ORDER ==> #[trigger] self.gamma@[i] == sp_gamma::<Eqn::T>(i))
        &&& (forall|i: int|
            0 <= i <= MAX_ORDER ==> #[trigger] self.error_const2@[i] == sp_error_const2::<
                Eqn::T,
            >(i))
        &&& self.u.wf()
        &&& self.u.sp_nrows() == self.state.order + 1
        &&& self.u.sp_ncols() == self.state.order + 1
        &&& (forall|i: int, j: int|
            0 <= i <= self.state.order && 0 <= j <= self.state.order
                ==> #[trigger] self.u.sp_columns()[j][i] == sp_r_entry::<Eqn::T>(
                Eqn::T::sp_one(),
                i,
                j,
            ))
        &&& (self.sens_error_control ==> self.ode_problem.sens_rtol is Some
            && self.ode_problem.sens_atol is Some)
        &&& (self.root_finder matches Some(rf) ==> rf.g_prev.vals().len()
            == self.ode_problem.eqn.sp_nroots())
        &&& (self.ode_problem.eqn.sp_has_root() <==> self.root_finder is Some)
    }

    /// Builds the change-of-step-size matrix `R(order, factor)`, entry by
    /// entry.
    #[verifier::loop_isolation(false)]
    pub fn compute_r(order: usize, factor: Eqn::T) -> (r: DenseMat<Eqn::V>)
        requires
            order <= MAX_ORDER,
        ensures
            r.wf(),
            r.sp_nrows() == order + 1,
            r.sp_ncols() == order + 1,
            forall|i: int, j: int|
                0 <= i <= order && 0 <= j <= order ==> #[trigger] r.sp_columns()[j][i]
                    == sp_r_entry::<Eqn::T>(factor, i, j),
    {
        let np = order + 1;
        let mut r = DenseMat::<Eqn::V>::new_zeros(np, np);
        // row zero is all ones
        let mut j: usize = 0;
        while j < np
            invariant
                j <= np,
                np == order + 1,
                r.wf(),
                r.sp_nrows() == np,
                r.sp_ncols() == np,
                forall|q: int| 0 <= q < j ==> #[trigger] r.sp_columns()[q][0] == Eqn::T::sp_one(),
                forall|q: int, i: int|
                    0 <= q < np && 1 <= i < np ==> #[trigger] r.sp_columns()[q][i]
                        == Eqn::T::sp_zero(),
            decreases np - j,
        {
            proof {
                r.lemma_wf_columns();
            }
            r.set(0, j, Eqn::T::one());
            proof {
                r.lemma_wf_columns();
            }
            j = j + 1;
        }
        // the recurrence, row by row, skipping the zero column
        let mut i: usize = 1;
        while i < np
            invariant
                1 <= i <= np,
                np == order + 1,
                np <= MAX_ORDER + 1,
                r.wf(),
                r.sp_nrows() == np,
                r.sp_ncols() == np,
                forall|q: int, p: int|
                    0 <= q < np && 0 <= p < i ==> #[trigger] r.sp_columns()[q][p] == sp_r_entry::<
                        Eqn::T,
                    >(factor, p, q),
                forall|q: int, p: int|
                    1 <= q < np && i <= p < np ==> #[trigger] r.sp_columns()[q][p]
                        == Eqn::T::sp_zero(),
                forall|p: int|
                    i <= p < np ==> #[trigger] r.sp_columns()[0][p] == Eqn::T::sp_zero(),
            decreases np - i,
        {
            let mut j: usize = 1;
            while j < np
                invariant
                    1 <= i < np,
                    1 <= j <= np,
                    np == order + 1,
                    np <= MAX_ORDER + 1,
                    r.wf(),
                    r.sp_nrows() == np,
                    r.sp_ncols() == np,
                    forall|q: int, p: int|
                        0 <= q < np && 0 <= p < i ==> #[trigger] r.sp_columns()[q][p]
                            == sp_r_entry::<Eqn::T>(factor, p, q),
                    forall|q: int|
                        1 <= q < j ==> #[trigger] r.sp_columns()[q][i as int] == sp_r_entry::<
                            Eqn::T,
                        >(factor, i as int, q),
                    forall|q: int, p: int|
                        1 <= q < np && i < p < np ==> #[trigger] r.sp_columns()[q][p]
                            == Eqn::T::sp_zero(),
                    forall|q: int|
                        j <= q < np ==> #[trigger] r.sp_columns()[q][i as int]
                            == Eqn::T::sp_zero(),
                    forall|p: int|
                        i <= p < np ==> #[trigger] r.sp_columns()[0][p] == Eqn::T::sp_zero(),
                decreases np - j,
            {
                proof {
                    r.lemma_wf_columns();
                }
                let i_t = Eqn::T::from_index(i);
                let j_t = Eqn::T::from_index(j);
                let prev = r.get(i - 1, j);
                let value = prev.mul(i_t.sub(Eqn::T::one()).sub(factor.mul(j_t)).div(i_t));
                r.set(i, j, value);
                proof {
                    r.lemma_wf_columns();
                }
                j = j + 1;
            }
            i = i + 1;
        }
        r
    }

    /// Refreshes the Jacobian, or only the factorization of the iteration
    /// matrix, as the reuse policy decides for the prefactor `c` and the
    /// phase `state`.
    fn jacobian_updates(&mut self, c: Eqn::T, phase: SolverState)
        requires
            old(self).sp_wf(),
        ensures
            final(self).sp_wf(),
            final(self).ode_problem == old(self).ode_problem,
            final(self).s_deltas@.len() == old(self).s_deltas@.len(),
            final(self).state == old(self).state,
            final(self).statistics.number_of_linear_solver_setups
                >= old(self).statistics.number_of_linear_solver_setups,
            final(self).statistics.number_of_steps == old(self).statistics.number_of_steps,
            final(self).statistics.number_of_error_test_failures
                == old(self).statistics.number_of_error_test_failures,
            final(self).tstop == old(self).tstop,
            final(self).last_error_norm == old(self).last_error_norm,
            final(self).last_accepted_h == old(self).last_accepted_h,
            final(self).last_history_column == old(self).last_history_column,
            final(self).last_equal_steps == old(self).last_equal_steps,
            final(self).tstop_check_h == old(self).tstop_check_h,
            final(self).sens_error_control == old(self).sens_error_control,
            final(self).n_equal_steps == old(self).n_equal_steps,
            final(self).is_state_modified == old(self).is_state_modified,
            final(self).op.c == old(self).op.c,
            final(self).op.psi == old(self).op.psi,
            final(self).op.y0 == old(self).op.y0,
            final(self).t_predict == old(self).t_predict,
            final(self).y_predict == old(self).y_predict,
            final(self).y_delta == old(self).y_delta,
            final(self).s_deltas == old(self).s_deltas,
            final(self).g_delta == old(self).g_delta,
            final(self).statistics.number_of_nonlinear_solver_iterations
                == old(self).statistics.number_of_nonlinear_solver_iterations,
            final(self).statistics.number_of_nonlinear_solver_fails
                == old(self).statistics.number_of_nonlinear_solver_fails,
    {
        if self.jacobian_update.check_rhs_jacobian_update(c, &phase) {
            self.op.set_jacobian_is_stale();
            self.op.write_iteration_matrix(&self.state.y, self.state.t, &mut self.iter_matrix);
            let _ = self.nonlinear_solver.reset_jacobian(&self.iter_matrix);
            self.jacobian_update.update_rhs_jacobian();
            self.jacobian_update.update_jacobian(c);
            self.statistics.number_of_linear_solver_setups = saturating_inc(
                self.statistics.number_of_linear_solver_setups,
            );
        } else if self.jacobian_update.check_jacobian_update(c, &phase) {
            self.op.write_iteration_matrix(&self.state.y, self.state.t, &mut self.iter_matrix);
            let _ = self.nonlinear_solver.reset_jacobian(&self.iter_matrix);
            self.jacobian_update.update_jacobian(c);
            self.statistics.number_of_linear_solver_setups = saturating_inc(
                self.statistics.number_of_linear_solver_setups,
            );
        }
    }

    /// Rescales every difference history for a step-size change by `factor`
    /// and installs the new step size. A step below the minimum is fatal and
    /// leaves the solver untouched; otherwise the first `order+1` columns of
    /// every history carry the `R(order, factor) * U` transform, which
    /// preserves the interpolation semantics of the history.
    #[verifier::loop_isolation(false)]
    #[verifier::rlimit(100)]
    fn update_step_size(&mut self, factor: Eqn::T) -> (r: Result<Eqn::T, DiffsolError>)
        requires
            old(self).sp_wf(),
        ensures
            final(self).sp_wf(),
            final(self).ode_problem == old(self).ode_problem,
            final(self).s_deltas@.len() == old(self).s_deltas@.len(),
            final(self).state.order == old(self).state.order,
            final(self).state.t == old(self).state.t,
            final(self).state.y == old(self).state.y,
            final(self).state.dy == old(self).state.dy,
            final(self).state.s == old(self).state.s,
            final(self).state.g == old(self).state.g,
            r is Err <==> factor.sp_mul(old(self).state.h).sp_abs().sp_lt(
                sp_min_timestep::<Eqn::T>(),
            ),
            r matches Err(e) ==> e == DiffsolError::StepSizeTooSmall && *final(self) == *old(self),
            r matches Ok(h) ==> h == factor.sp_mul(old(self).state.h) && final(self).state.h == h
                && final(self).n_equal_steps == 0 && final(self).op.c == h.sp_mul(
                sp_alpha::<Eqn::T>(old(self).state.order as int),
            ),
            r is Ok ==> (forall|j: int, i: int|
                0 <= j <= old(self).state.order && 0 <= i < old(self).state.diff.sp_nrows()
                    ==> #[trigger] final(self).state.diff.sp_columns()[j][i] == sp_dot(
                    old(self).state.diff.sp_row(i, old(self).state.order + 1),
                    sp_ru_column::<Eqn::T>(factor, old(self).state.order + 1, j),
                )),
            r is Ok ==> (forall|j: int|
                old(self).state.order < j < old(self).state.diff.sp_ncols()
                    ==> #[trigger] final(self).state.diff.sp_columns()[j] == old(self).state.diff.sp_columns()[j]),
            r is Ok && old(self).ode_problem.integrate_out ==> (forall|j: int, i: int|
                0 <= j <= old(self).state.order && 0 <= i < old(self).state.gdiff.sp_nrows()
                    ==> #[trigger] final(self).state.gdiff.sp_columns()[j][i] == sp_dot(
                    old(self).state.gdiff.sp_row(i, old(self).state.order + 1),
                    sp_ru_column::<Eqn::T>(factor, old(self).state.order + 1, j),
                )),
            r is Ok && !old(self).ode_problem.integrate_out ==> final(self).state.gdiff == old(self).state.gdiff,
            r is Ok ==> (forall|c: int, j: int, i: int|
                0 <= c < old(self).state.sdiff@.len() && 0 <= j <= old(self).state.order && 0 <= i
                    < old(self).state.sdiff@[c].sp_nrows() ==> (#[trigger] final(self).state.sdiff@[c].sp_columns()[j][i]) == sp_dot(
                    old(self).state.sdiff@[c].sp_row(i, old(self).state.order + 1),
                    sp_ru_column::<Eqn::T>(factor, old(self).state.order + 1, j),
                )),
            final(self).statistics == old(self).statistics,
            final(self).tstop == old(self).tstop,
            final(self).last_error_norm == old(self).last_error_norm,
            final(self).last_accepted_h == old(self).last_accepted_h,
            final(self).last_history_column == old(self).last_history_column,
            final(self).last_equal_steps == old(self).last_equal_steps,
            final(self).tstop_check_h == old(self).tstop_check_h,
            final(self).sens_error_control == old(self).sens_error_control,
            final(self).is_state_modified == old(self).is_state_modified,
            final(self).t_predict == old(self).t_predict,
            final(self).y_predict == old(self).y_predict,
            final(self).y_delta == old(self).y_delta,
            final(self).g_delta == old(self).g_delta,
            final(self).s_deltas == old(self).s_deltas,
    {
        let new_h = factor.mul(self.state.h);

        // a step below the minimum is fatal, before anything moves
        let min_timestep = Eqn::T::ratio(1, 10).powi(32);
        if new_h.abs().lt(min_timestep) {
            return Err(DiffsolError::StepSizeTooSmall);
        }
        self.n_equal_steps = 0;

        let order = self.state.order;
        let np = order + 1;
        let r = Self::compute_r(order, factor);
        let ru = r.mat_mul(&self.u);
        proof {
            r.lemma_wf_columns();
            self.u.lemma_wf_columns();
            ru.lemma_wf_columns();
            assert forall|j: int|
                0 <= j < np implies #[trigger] ru.sp_columns()[j] == sp_ru_column::<Eqn::T>(
                factor,
                np as int,
                j,
            ) by {
                assert forall|k: int|
                    0 <= k < np implies #[trigger] ru.sp_columns()[j][k] == sp_ru_column::<
                    Eqn::T,
                >(factor, np as int, j)[k] by {
                    assert(r.sp_row(k, np as int) =~= Seq::new(
                        np as nat,
                        |q: int| sp_r_entry(factor, k, q),
                    ));
                    assert(self.u.sp_columns()[j] =~= Seq::new(
                        np as nat,
                        |q: int| sp_r_entry(Eqn::T::sp_one(), q, j),
                    ));
                }
                assert(ru.sp_columns()[j] =~= sp_ru_column::<Eqn::T>(factor, np as int, j));
            }
        }
        proof {
            self.state.diff.lemma_wf_columns();
        }
        self.state.diff.rescale_block(&ru, np);
        let naug = self.state.sdiff.len();
        let mut new_sdiff: Vec<DenseMat<Eqn::V>> = Vec::new();
        let mut i: usize = 0;
        while i < naug
            invariant
                i <= naug,
                new_sdiff@.len() == i,
                forall|k: int|
                    0 <= k < i ==> (#[trigger] new_sdiff@[k]).wf() && new_sdiff@[k].sp_nrows()
                        == self.state.sdiff@[k].sp_nrows() && new_sdiff@[k].sp_ncols()
                        == self.state.sdiff@[k].sp_ncols(),
                forall|k: int, j: int, q: int|
                    0 <= k < i && 0 <= j < np && 0 <= q < self.state.sdiff@[k].sp_nrows() ==> (
                    #[trigger] new_sdiff@[k].sp_columns()[j][q]) == sp_dot(
                        self.state.sdiff@[k].sp_row(q, np as int),
                        sp_ru_column::<Eqn::T>(factor, np as int, j),
                    ),
            decreases naug - i,
        {
            let mut m = self.state.sdiff[i].clone_mat();
            proof {
                m.lemma_wf_transfer(&self.state.sdiff[i as int]);
                assert forall|q: int|
                    0 <= q < m.sp_nrows() implies #[trigger] m.sp_row(q, np as int)
                    == self.state.sdiff@[i as int].sp_row(q, np as int) by {
                    assert(m.sp_row(q, np as int) =~= self.state.sdiff@[i as int].sp_row(
                        q,
                        np as int,
                    ));
                }
            }
            m.rescale_block(&ru, np);
            new_sdiff.push(m);
            i = i + 1;
        }
        self.state.sdiff = new_sdiff;
        if self.ode_problem.integrate_out {
            proof {
                self.state.gdiff.lemma_wf_columns();
            }
            self.state.gdiff.rescale_block(&ru, np);
        }

        self.op.set_c(new_h, self.alpha[order]);
        self.state.h = new_h;
        Ok(new_h)
    }

    /// Commits the accepted correction `d` into the history: column
    /// `order+2` receives `d - diff[:,order+1]`, column `order+1` receives
    /// `d`, and each earlier column accumulates its successor, so that
    /// column 0 becomes the old prediction plus the correction.
    #[verifier::loop_isolation(false)]
    fn update_diff(order: usize, d: &Eqn::V, diff: &mut DenseMat<Eqn::V>)
        requires
            order <= MAX_ORDER,
            old(diff).wf(),
            old(diff).sp_nrows() == d.vals().len(),
            old(diff).sp_ncols() == MAX_ORDER + 3,
        ensures
            final(diff).wf(),
            final(diff).sp_nrows() == old(diff).sp_nrows(),
            final(diff).sp_ncols() == old(diff).sp_ncols(),
            final(diff).sp_columns()[order + 1] == d.vals(),
            final(diff).sp_columns()[order + 2] == Seq::new(
                d.vals().len(),
                |q: int| d.vals()[q].sp_sub(old(diff).sp_columns()[order + 1][q]),
            ),
            forall|i: int|
                0 <= i <= order ==> #[trigger] final(diff).sp_columns()[i]
                    == crate::vector::axpy_seq(
                    Eqn::T::sp_one(),
                    final(diff).sp_columns()[i + 1],
                    Eqn::T::sp_one(),
                    old(diff).sp_columns()[i],
                ),
    {
        let mut tmp = d.clone_vec();
        proof {
            diff.lemma_wf_columns();
        }
        let c1 = diff.column_clone(order + 1);
        tmp.sub_assign(&c1);
        diff.set_col(order + 2, &tmp);
        diff.set_col(order + 1, d);
        let mut i: usize = order + 1;
        while i > 0
            invariant
                i <= order + 1,
                order + 2 < diff.sp_ncols(),
                diff.wf(),
                diff.sp_nrows() == old(diff).sp_nrows(),
                diff.sp_ncols() == old(diff).sp_ncols(),
                diff.sp_columns()[order + 1] == d.vals(),
                diff.sp_columns()[order + 2] == Seq::new(
                    d.vals().len(),
                    |q: int| d.vals()[q].sp_sub(old(diff).sp_columns()[order + 1][q]),
                ),
                forall|q: int|
                    i <= q <= order ==> #[trigger] diff.sp_columns()[q]
                        == crate::vector::axpy_seq(
                        Eqn::T::sp_one(),
                        diff.sp_columns()[q + 1],
                        Eqn::T::sp_one(),
                        old(diff).sp_columns()[q],
                    ),
                forall|q: int|
                    0 <= q < i ==> #[trigger] diff.sp_columns()[q] == old(diff).sp_columns()[q],
            decreases i,
        {
            i = i - 1;
            diff.column_axpy(Eqn::T::one(), i + 1, Eqn::T::one(), i);
        }
    }

    /// Sums the first `order+1` history columns into `y_predict`.
    #[verifier::loop_isolation(false)]
    fn predict_using_diff(y_predict: &mut Eqn::V, diff: &DenseMat<Eqn::V>, order: usize)
        requires
            order <= MAX_ORDER,
            order < diff.sp_ncols(),
            diff.wf(),
            diff.sp_nrows() == old(y_predict).vals().len(),
        ensures
            final(y_predict).vals().len() == old(y_predict).vals().len(),
            forall|i: int|
                0 <= i < old(y_predict).vals().len() ==> #[trigger] final(y_predict).vals()[i]
                    == sp_history_sum(diff.sp_columns(), order as int, i),
    {
        y_predict.fill(Eqn::T::zero());
        let mut m: usize = 0;
        while m <= order
            invariant
                m <= order + 1,
                order < diff.sp_ncols(),
                diff.wf(),
                diff.sp_nrows() == y_predict.vals().len(),
                forall|i: int|
                    0 <= i < y_predict.vals().len() ==> #[trigger] y_predict.vals()[i]
                        == sp_history_sum(diff.sp_columns(), m - 1, i),
            decreases order + 1 - m,
        {
            diff.add_scaled_column_to(m, Eqn::T::one(), y_predict);
            m = m + 1;
        }
    }

    /// Predicts the new solution and time and installs the prediction and
    /// its history contribution on the residual.
    fn predict_forward(&mut self)
        requires
            old(self).sp_wf(),
        ensures
            final(self).sp_wf(),
            final(self).ode_problem == old(self).ode_problem,
            final(self).s_deltas@.len() == old(self).s_deltas@.len(),
            final(self).state == old(self).state,
            final(self).statistics == old(self).statistics,
            final(self).tstop == old(self).tstop,
            final(self).last_error_norm == old(self).last_error_norm,
            final(self).last_accepted_h == old(self).last_accepted_h,
            final(self).last_history_column == old(self).last_history_column,
            final(self).last_equal_steps == old(self).last_equal_steps,
            final(self).tstop_check_h == old(self).tstop_check_h,
            final(self).sens_error_control == old(self).sens_error_control,
            final(self).n_equal_steps == old(self).n_equal_steps,
            final(self).is_state_modified == old(self).is_state_modified,
            final(self).t_predict == old(self).state.t.sp_add(old(self).state.h),
            forall|i: int|
                0 <= i < old(self).y_predict.vals().len() ==> #[trigger] final(self).y_predict.vals()[i] == sp_history_sum(
                    old(self).state.diff.sp_columns(),
                    old(self).state.order as int,
                    i,
                ),
            final(self).op.c == old(self).op.c,
            final(self).s_deltas == old(self).s_deltas,
            final(self).g_delta == old(self).g_delta,
            final(self).y_delta == old(self).y_delta,
    {
        let order = self.state.order;
        Self::predict_using_diff(&mut self.y_predict, &self.state.diff, order);
        self.op.set_psi_and_y0(&self.state.diff, &self.gamma, &self.alpha, order, &self.y_predict);
        self.t_predict = self.state.t.add(self.state.h);
    }

    /// The weighted squared error norm of the candidate correction, averaged
    /// over the error-controlled channels: the solution channel always, the
    /// integrated output when it takes part in the error control, and every
    /// sensitivity column when those do.
    #[verifier::loop_isolation(false)]
    #[verifier::rlimit(100)]
    fn error_control(&self) -> (r: Eqn::T)
        requires
            self.sp_wf(),
        ensures
            self.s_deltas@.len() + 2 <= usize::MAX ==> r == sp_error_norm::<Eqn::V>(
                self.y_delta.vals(),
                self.state.y.vals(),
                self.ode_problem.atol.vals(),
                self.ode_problem.rtol,
                self.ode_problem.integrate_out && self.ode_problem.eqn.sp_has_out()
                    && self.ode_problem.out_rtol is Some && self.ode_problem.out_atol is Some,
                self.g_delta.vals(),
                self.state.g.vals(),
                self.ode_problem.out_atol.unwrap().vals(),
                self.ode_problem.out_rtol.unwrap(),
                self.s_deltas@.len() > 0 && self.sens_error_control,
                self.s_deltas@,
                self.state.s@,
                self.ode_problem.sens_atol.unwrap().vals(),
                self.ode_problem.sens_rtol.unwrap(),
                self.state.order as int,
            ),
    {
        let state = &self.state;
        let order = state.order;
        let output_in_error_control = self.ode_problem.output_in_error_control();
        let naug = self.s_deltas.len();
        let integrate_sens = naug > 0;
        let sens_in_error_control = integrate_sens && self.sens_error_control;

        let mut error_norm = self.y_delta.squared_norm(
            &state.y,
            &self.ode_problem.atol,
            self.ode_problem.rtol,
        ).mul(self.error_const2[order]);
        let mut ncontrib: usize = 1;
        if output_in_error_control {
            if let Some(out_atol) = &self.ode_problem.out_atol {
                if let Some(out_rtol) = self.ode_problem.out_rtol {
                    error_norm = error_norm.add(
                        self.g_delta.squared_norm(&state.g, out_atol, out_rtol).mul(
                            self.error_const2[order],
                        ),
                    );
                    ncontrib = saturating_inc(ncontrib);
                }
            }
        }
        if sens_in_error_control {
            if let Some(sens_atol) = &self.ode_problem.sens_atol {
                if let Some(sens_rtol) = self.ode_problem.sens_rtol {
                    let ghost acc0 = error_norm;
                    let mut i: usize = 0;
                    while i < naug
                        invariant
                            i <= naug,
                            self.sp_wf(),
                            naug == self.s_deltas@.len(),
                            self.ode_problem.sens_atol == Some(*sens_atol),
                            self.ode_problem.sens_rtol == Some(sens_rtol),
                            sens_atol.vals().len() == self.ode_problem.eqn.sp_nstates(),
                            order == self.state.order,
                            order <= MAX_ORDER,
                            error_norm == sp_sens_err_acc(
                                acc0,
                                self.s_deltas@,
                                self.state.s@,
                                sens_atol.vals(),
                                sens_rtol,
                                sp_error_const2::<Eqn::T>(order as int),
                                i as int,
                            ),
                        decreases naug - i,
                    {
                        error_norm = error_norm.add(
                            self.s_deltas[i].squared_norm(&state.s[i], sens_atol, sens_rtol).mul(
                                self.error_const2[order],
                            ),
                        );
                        i = i + 1;
                    }
                    ncontrib = saturating_add(ncontrib, naug);
                }
            }
        }
        error_norm.div(Eqn::T::from_index(ncontrib))
    }

    /// The weighted squared error norm the history predicts for running at
    /// `order_check`, using the matching difference column of each
    /// error-controlled channel.
    #[verifier::loop_isolation(false)]
    #[verifier::rlimit(100)]
    fn predict_error_control(&self, order_check: usize) -> (r: Eqn::T)
        requires
            self.sp_wf(),
            1 <= order_check <= MAX_ORDER,
        ensures
            self.s_deltas@.len() + 2 <= usize::MAX ==> r == ({
                let out_in_ec = self.ode_problem.integrate_out
                    && self.ode_problem.eqn.sp_has_out() && self.ode_problem.out_rtol is Some
                    && self.ode_problem.out_atol is Some;
                let sens_in_ec = self.s_deltas@.len() > 0 && self.sens_error_control;
                let base = weighted_sq_norm(
                    self.state.diff.sp_columns()[order_check + 1],
                    self.state.y.vals(),
                    self.ode_problem.atol.vals(),
                    self.ode_problem.rtol,
                ).sp_mul(sp_error_const2::<Eqn::T>(order_check as int));
                let with_out = if out_in_ec {
                    base.sp_add(
                        weighted_sq_norm(
                            self.state.gdiff.sp_columns()[order_check + 1],
                            self.state.g.vals(),
                            self.ode_problem.out_atol.unwrap().vals(),
                            self.ode_problem.out_rtol.unwrap(),
                        ).sp_mul(sp_error_const2::<Eqn::T>(order_check as int)),
                    )
                } else {
                    base
                };
                let total = if sens_in_ec {
                    sp_sens_hist_acc(
                        with_out,
                        self.state.sdiff@,
                        self.state.s@,
                        self.ode_problem.sens_atol.unwrap().vals(),
                        self.ode_problem.sens_rtol.unwrap(),
                        sp_error_const2::<Eqn::T>(order_check as int),
                        order_check + 1,
                        self.state.sdiff@.len() as int,
                    )
                } else {
                    with_out
                };
                let ncontrib = 1 + (if out_in_ec {
                    1int
                } else {
                    0int
                }) + (if sens_in_ec {
                    self.s_deltas@.len() as int
                } else {
                    0int
                });
                total.sp_div(Eqn::T::sp_ratio(ncontrib, 1))
            }),
    {
        let state = &self.state;
        let output_in_error_control = self.ode_problem.output_in_error_control();
        let naug = self.s_deltas.len();
        let integrate_sens = naug > 0;
        let sens_in_error_control = integrate_sens && self.sens_error_control;

        proof {
            state.diff.lemma_wf_columns();
            state.gdiff.lemma_wf_columns();
        }
        let dcol = state.diff.column_clone(order_check + 1);
        let mut error_norm = dcol.squared_norm(
            &state.y,
            &self.ode_problem.atol,
            self.ode_problem.rtol,
        ).mul(self.error_const2[order_check]);
        let mut ncontrib: usize = 1;
        if output_in_error_control {
            if let Some(out_atol) = &self.ode_problem.out_atol {
                if let Some(out_rtol) = self.ode_problem.out_rtol {
                    let gcol = state.gdiff.column_clone(order_check + 1);
                    error_norm = error_norm.add(
                        gcol.squared_norm(&state.g, out_atol, out_rtol).mul(
                            self.error_const2[order_check],
                        ),
                    );
                    ncontrib = saturating_inc(ncontrib);
                }
            }
        }
        if sens_in_error_control {
            if let Some(sens_atol) = &self.ode_problem.sens_atol {
                if let Some(sens_rtol) = self.ode_problem.sens_rtol {
                    let ghost acc0 = error_norm;
                    let mut i: usize = 0;
                    while i < naug
                        invariant
                            i <= naug,
                            self.sp_wf(),
                            naug == self.s_deltas@.len(),
                            self.ode_problem.sens_atol == Some(*sens_atol),
                            self.ode_problem.sens_rtol == Some(sens_rtol),
                            sens_atol.vals().len() == self.ode_problem.eqn.sp_nstates(),
                            1 <= order_check <= MAX_ORDER,
                            error_norm == sp_sens_hist_acc(
                                acc0,
                                self.state.sdiff@,
                                self.state.s@,
                                sens_atol.vals(),
                                sens_rtol,
                                sp_error_const2::<Eqn::T>(order_check as int),
                                order_check + 1,
                                i as int,
                            ),
                        decreases naug - i,
                    {
                        proof {
                            self.state.sdiff@[i as int].lemma_wf_columns();
                        }
                        let scol = self.state.sdiff[i].column_clone(order_check + 1);
                        error_norm = error_norm.add(
                            scol.squared_norm(&state.s[i], sens_atol, sens_rtol).mul(
                                self.error_const2[order_check],
                            ),
                        );
                        i = i + 1;
                    }
                    ncontrib = saturating_add(ncontrib, naug);
                }
            }
        }
        error_norm.div(Eqn::T::from_index(ncontrib))
    }
}

impl<'a, Eqn, LS> Bdf<'a, Eqn, LS> where
    Eqn: OdeEquations,
    LS: LinearSolver<T = Eqn::T, V = Eqn::V, M = Eqn::M>,
 {
    /// Assembles an integrator for `problem` starting from `state`, with the
    /// injected linear solver: builds the NDF coefficient tables, checks the
    /// state against the problem, and factors a first iteration matrix.
    #[verifier::loop_isolation(false)]
    pub fn new(
        problem: &'a OdeSolverProblem<Eqn>,
        state: BdfState<Eqn::V>,
        linear_solver: LS,
    ) -> (r: Result<Self, DiffsolError>)
        requires
            problem.sp_wf(),
        ensures
            r matches Ok(bdf) ==> bdf.sp_wf() && bdf.state == state && bdf.statistics == (BdfStatistics {
                number_of_linear_solver_setups: 0,
                number_of_steps: 0,
                number_of_error_test_failures: 0,
                number_of_nonlinear_solver_iterations: 0,
                number_of_nonlinear_solver_fails: 0,
            }) && bdf.ode_problem == problem && bdf.s_deltas@.len() == state.s@.len()
                && !bdf.sens_error_control,
            r matches Err(e) ==> e == DiffsolError::InconsistentState,
            r is Err <==> !state.sp_wf(
                problem.eqn.sp_nstates(),
                problem.eqn.sp_nout(),
                state.s@.len(),
            ),
    {
        let nstates = problem.eqn.rhs().nstates();
        let nout = if let Some(o) = problem.eqn.out() {
            o.nout()
        } else {
            0
        };

        // the NDF coefficient tables for orders up to MAX_ORDER
        let mut kappa: Vec<Eqn::T> = Vec::new();
        kappa.push(Eqn::T::zero());
        kappa.push(Eqn::T::ratio(-1850, 10000));
        kappa.push(Eqn::T::ratio(-1, 9));
        kappa.push(Eqn::T::ratio(-823, 10000));
        kappa.push(Eqn::T::ratio(-415, 10000));
        kappa.push(Eqn::T::zero());
        proof {
            assert forall|i: int| 0 <= i <= MAX_ORDER implies #[trigger] kappa@[i]
                == sp_kappa::<Eqn::T>(i) by {
            }
        }
        let mut alpha: Vec<Eqn::T> = Vec::new();
        let mut gamma: Vec<Eqn::T> = Vec::new();
        let mut error_const2: Vec<Eqn::T> = Vec::new();
        alpha.push(Eqn::T::zero());
        gamma.push(Eqn::T::zero());
        error_const2.push(Eqn::T::one());
        let mut i: usize = 1;
        while i <= MAX_ORDER
            invariant
                1 <= i <= MAX_ORDER + 1,
                kappa@.len() == MAX_ORDER + 1,
                forall|k: int| 0 <= k <= MAX_ORDER ==> #[trigger] kappa@[k] == sp_kappa::<
                    Eqn::T,
                >(k),
                alpha@.len() == i,
                gamma@.len() == i,
                error_const2@.len() == i,
                forall|k: int| 0 <= k < i ==> #[trigger] alpha@[k] == sp_alpha::<Eqn::T>(k),
                forall|k: int| 0 <= k < i ==> #[trigger] gamma@[k] == sp_gamma::<Eqn::T>(k),
                forall|k: int| 0 <= k < i ==> #[trigger] error_const2@[k] == sp_error_const2::<
                    Eqn::T,
                >(k),
            decreases MAX_ORDER + 1 - i,
        {
            let i_t = Eqn::T::from_index(i);
            let one_over_i = Eqn::T::one().div(i_t);
            let one_over_i_plus_one = Eqn::T::one().div(Eqn::T::from_index(i + 1));
            let g = gamma[i - 1].add(one_over_i);
            gamma.push(g);
            alpha.push(Eqn::T::one().div(Eqn::T::one().sub(kappa[i]).mul(g)));
            let e = kappa[i].mul(g).add(one_over_i_plus_one);
            error_const2.push(e.mul(e));
            proof {
                assert(Eqn::T::sp_ratio(i + 1 as int, 1) == Eqn::T::sp_ratio(i as int + 1, 1));
            }
            i = i + 1;
        }

        // the state must match the problem
        if state.y.len() != nstates || state.dy.len() != nstates {
            return Err(DiffsolError::InconsistentState);
        }
        if state.g.len() != nout || state.dg.len() != nout {
            return Err(DiffsolError::InconsistentState);
        }
        if state.order < 1 || state.order > MAX_ORDER {
            return Err(DiffsolError::InconsistentState);
        }
        if state.diff.nrows() != nstates || state.diff.ncols() != MAX_ORDER + 3 {
            return Err(DiffsolError::InconsistentState);
        }
        if state.gdiff.nrows() != nout || state.gdiff.ncols() != MAX_ORDER + 3 {
            return Err(DiffsolError::InconsistentState);
        }
        let naug = state.s.len();
        if state.ds.len() != naug || state.sdiff.len() != naug {
            return Err(DiffsolError::InconsistentState);
        }
        let mut k: usize = 0;
        while k < naug
            invariant
                k <= naug,
                naug == state.s@.len(),
                naug == state.ds@.len(),
                naug == state.sdiff@.len(),
                forall|q: int| 0 <= q < k ==> (#[trigger] state.s@[q]).vals().len() == nstates,
                forall|q: int| 0 <= q < k ==> (#[trigger] state.ds@[q]).vals().len() == nstates,
                forall|q: int|
                    0 <= q < k ==> (#[trigger] state.sdiff@[q]).wf() && state.sdiff@[q].sp_nrows()
                        == nstates && state.sdiff@[q].sp_ncols() == MAX_ORDER + 3,
            decreases naug - k,
        {
            if state.s[k].len() != nstates || state.ds[k].len() != nstates {
                return Err(DiffsolError::InconsistentState);
            }
            if state.sdiff[k].nrows() != nstates || state.sdiff[k].ncols() != MAX_ORDER + 3 {
                return Err(DiffsolError::InconsistentState);
            }
            if !DenseMat::check_wf(&state.sdiff[k]) {
                return Err(DiffsolError::InconsistentState);
            }
            k = k + 1;
        }
        if !DenseMat::check_wf(&state.diff) || !DenseMat::check_wf(&state.gdiff) {
            return Err(DiffsolError::InconsistentState);
        }

        // the residual and its first factorization
        let mut op = BdfCallable::new(&problem.eqn);
        op.set_c(state.h, alpha[state.order]);
        let mut nonlinear_solver = NewtonNonlinearSolver::new(
            linear_solver,
            problem.rtol,
            problem.atol.clone_vec(),
            NEWTON_MAXITER,
        );
        let mut iter_matrix = Eqn::M::zeros(nstates, nstates);
        op.write_iteration_matrix(&state.y, state.t, &mut iter_matrix);
        let _ = nonlinear_solver.reset_jacobian(&iter_matrix);
        let mut jacobian_update = JacobianUpdate::new();
        jacobian_update.update_rhs_jacobian();
        jacobian_update.update_jacobian(op.c);

        // the root finder, armed at the initial point
        let root_finder = if let Some(root_op) = problem.eqn.root() {
            let mut rf = RootFinder::new(root_op.nout());
            rf.init(root_op, &state.y, state.t);
            Some(rf)
        } else {
            None
        };

        let u = Self::compute_r(state.order, Eqn::T::one());
        let mut s_deltas: Vec<Eqn::V> = Vec::new();
        let mut k: usize = 0;
        while k < naug
            invariant
                k <= naug,
                s_deltas@.len() == k,
                forall|q: int| 0 <= q < k ==> (#[trigger] s_deltas@[q]).vals().len() == nstates,
            decreases naug - k,
        {
            s_deltas.push(Eqn::V::zeros(nstates));
            k = k + 1;
        }

        Ok(
            Bdf {
                ode_problem: problem,
                nonlinear_solver,
                op,
                state,
                y_delta: Eqn::V::zeros(nstates),
                g_delta: Eqn::V::zeros(nout),
                y_predict: Eqn::V::zeros(nstates),
                t_predict: Eqn::T::zero(),
                s_predict: Eqn::V::zeros(nstates),
                s_deltas,
                iter_matrix,
                n_equal_steps: 0,
                u,
                alpha,
                gamma,
                error_const2,
                statistics: BdfStatistics::new(),
                tstop: None,
                root_finder,
                is_state_modified: false,
                jacobian_update,
                sens_error_control: false,
                last_error_norm: Ghost(Eqn::T::sp_one()),
                last_accepted_h: Ghost(Eqn::T::sp_zero()),
                last_history_column: Ghost(Seq::empty()),
                last_equal_steps: Ghost(0),
                tstop_check_h: Ghost(Eqn::T::sp_zero()),
            },
        )
    }

    /// Assembles an integrator that also carries the forward-sensitivity
    /// columns of `state` through every step. By default the sensitivities
    /// do not take part in the error control.
    pub fn new_augmented(
        state: BdfState<Eqn::V>,
        problem: &'a OdeSolverProblem<Eqn>,
        linear_solver: LS,
    ) -> (r: Result<Self, DiffsolError>)
        requires
            problem.sp_wf(),
        ensures
            r matches Ok(bdf) ==> bdf.sp_wf() && bdf.state == state && bdf.statistics == (BdfStatistics {
                number_of_linear_solver_setups: 0,
                number_of_steps: 0,
                number_of_error_test_failures: 0,
                number_of_nonlinear_solver_iterations: 0,
                number_of_nonlinear_solver_fails: 0,
            }),
            r matches Err(e) ==> e == DiffsolError::InconsistentState,
            r is Err <==> !state.sp_wf(
                problem.eqn.sp_nstates(),
                problem.eqn.sp_nout(),
                state.s@.len(),
            ),
    {
        Self::new(problem, state, linear_solver)
    }

    pub fn get_statistics(&self) -> (r: &BdfStatistics)
        ensures
            r == &self.statistics,
    {
        &self.statistics
    }

    pub fn order(&self) -> (r: usize)
        ensures
            r == self.state.order,
    {
        self.state.order
    }

    /// Replaces the state; the next step will reinitialise the history to
    /// first order. Reading the state back returns exactly what was set.
    pub fn set_state(&mut self, state: BdfState<Eqn::V>)
        ensures
            final(self).state == state,
            final(self).is_state_modified,
            final(self).statistics == old(self).statistics,
            final(self).tstop == old(self).tstop,
    {
        self.state = state;
        self.is_state_modified = true;
    }

    pub fn state(&self) -> (r: &BdfState<Eqn::V>)
        ensures
            r == &self.state,
    {
        &self.state
    }

    pub fn into_state(self) -> (r: BdfState<Eqn::V>)
        ensures
            r == self.state,
    {
        self.state
    }

    /// Mutable access to the state; the next step will reinitialise the
    /// history to first order.
    pub fn state_mut(&mut self) -> (r: &mut BdfState<Eqn::V>)
        ensures
            *r == old(self).state,
            final(self).state == *final(r),
            final(self).is_state_modified,
            final(self).statistics == old(self).statistics,
            final(self).tstop == old(self).tstop,
    {
        self.is_state_modified = true;
        &mut self.state
    }

    pub fn problem(&self) -> (r: &'a OdeSolverProblem<Eqn>)
        ensures
            r == self.ode_problem,
    {
        self.ode_problem
    }

    /// Refreshes the Jacobian so the copy carries a current factorization,
    /// then clones the state.
    pub fn checkpoint(&mut self) -> (r: BdfState<Eqn::V>)
        requires
            old(self).sp_wf(),
        ensures
            final(self).sp_wf(),
            final(self).state == old(self).state,
            r.y.vals() == old(self).state.y.vals(),
            r.dy.vals() == old(self).state.dy.vals(),
            r.g.vals() == old(self).state.g.vals(),
            r.dg.vals() == old(self).state.dg.vals(),
            r.t == old(self).state.t,
            r.h == old(self).state.h,
            r.order == old(self).state.order,
            r.diff.sp_columns() == old(self).state.diff.sp_columns(),
            r.gdiff.sp_columns() == old(self).state.gdiff.sp_columns(),
            r.s@.len() == old(self).state.s@.len(),
            r.ds@.len() == old(self).state.ds@.len(),
            r.sdiff@.len() == old(self).state.sdiff@.len(),
            forall|c: int|
                0 <= c < old(self).state.s@.len() ==> (#[trigger] r.s@[c]).vals() == old(self).state.s@[c].vals(),
            forall|c: int|
                0 <= c < old(self).state.ds@.len() ==> (#[trigger] r.ds@[c]).vals() == old(self).state.ds@[c].vals(),
            forall|c: int|
                0 <= c < old(self).state.sdiff@.len() ==> (#[trigger] r.sdiff@[c]).sp_columns()
                    == old(self).state.sdiff@[c].sp_columns(),
    {
        let order = self.state.order;
        let c = self.state.h.mul(self.alpha[order]);
        self.jacobian_updates(c, SolverState::Checkpoint);
        self.state.clone_state()
    }

    /// Evaluates the interpolating polynomial of the history at `t`.
    ///
    /// While the state was replaced by hand only `t` equal to the state time
    /// is served, with the state's own value. Otherwise `t` must lie inside
    /// the last accepted step: a time beyond the current time in the
    /// direction of integration, or before the step start, is refused and
    /// the solver is left intact.
    pub fn interpolate(&self, t: Eqn::T) -> (r: Result<Eqn::V, DiffsolError>)
        requires
            self.sp_wf(),
        ensures
            self.is_state_modified && t.sp_eq(self.state.t) ==> (r matches Ok(v) && v.vals()
                == self.state.y.vals()),
            self.is_state_modified && !t.sp_eq(self.state.t) ==> r == Err::<
                Eqn::V,
                _,
            >(DiffsolError::InterpolationTimeOutsideCurrentStep),
            !self.is_state_modified ==> ({
                if sp_interp_beyond(t, self.state.t, self.state.h) {
                    r == Err::<Eqn::V, _>(DiffsolError::InterpolationTimeAfterCurrentTime)
                } else if sp_interp_before(t, self.state.t, self.state.h) {
                    r == Err::<Eqn::V, _>(DiffsolError::InterpolationTimeOutsideCurrentStep)
                } else {
                    (r matches Ok(v) && v.vals().len() == self.state.y.vals().len() && (forall|
                        i: int,
                    |
                        0 <= i < self.state.y.vals().len() ==> #[trigger] v.vals()[i] == sp_interp(
                            self.state.diff.sp_columns(),
                            t,
                            self.state.t,
                            self.state.h,
                            self.state.order as int,
                            i,
                        )))
                }
            }),
    {
        let state = &self.state;
        if self.is_state_modified {
            if t.eq_val(state.t) {
                return Ok(state.y.clone_vec());
            } else {
                return Err(DiffsolError::InterpolationTimeOutsideCurrentStep);
            }
        }
        let is_forward = Eqn::T::zero().lt(state.h);
        if (is_forward && state.t.lt(t)) || (!is_forward && t.lt(state.t)) {
            return Err(DiffsolError::InterpolationTimeAfterCurrentTime);
        }
        let start = state.t.sub(state.h);
        if (is_forward && t.lt(start)) || (!is_forward && start.lt(t)) {
            return Err(DiffsolError::InterpolationTimeOutsideCurrentStep);
        }
        Ok(interpolate_from_diff(t, &state.diff, state.t, state.h, state.order))
    }

    /// Evaluates the interpolating polynomial of the output history at `t`,
    /// under the same rules as `interpolate`.
    pub fn interpolate_out(&self, t: Eqn::T) -> (r: Result<Eqn::V, DiffsolError>)
        requires
            self.sp_wf(),
        ensures
            self.is_state_modified && t.sp_eq(self.state.t) ==> (r matches Ok(v) && v.vals()
                == self.state.g.vals()),
            self.is_state_modified && !t.sp_eq(self.state.t) ==> r == Err::<
                Eqn::V,
                _,
            >(DiffsolError::InterpolationTimeOutsideCurrentStep),
            !self.is_state_modified ==> ({
                if sp_interp_beyond(t, self.state.t, self.state.h) {
                    r == Err::<Eqn::V, _>(DiffsolError::InterpolationTimeAfterCurrentTime)
                } else if sp_interp_before(t, self.state.t, self.state.h) {
                    r == Err::<Eqn::V, _>(DiffsolError::InterpolationTimeOutsideCurrentStep)
                } else {
                    (r matches Ok(v) && v.vals().len() == self.state.g.vals().len() && (forall|
                        i: int,
                    |
                        0 <= i < self.state.g.vals().len() ==> #[trigger] v.vals()[i] == sp_interp(
                            self.state.gdiff.sp_columns(),
                            t,
                            self.state.t,
                            self.state.h,
                            self.state.order as int,
                            i,
                        )))
                }
            }),
    {
        let state = &self.state;
        if self.is_state_modified {
            if t.eq_val(state.t) {
                return Ok(state.g.clone_vec());
            } else {
                return Err(DiffsolError::InterpolationTimeOutsideCurrentStep);
            }
        }
        let is_forward = Eqn::T::zero().lt(state.h);
        if (is_forward && state.t.lt(t)) || (!is_forward && t.lt(state.t)) {
            return Err(DiffsolError::InterpolationTimeAfterCurrentTime);
        }
        let start = state.t.sub(state.h);
        if (is_forward && t.lt(start)) || (!is_forward && start.lt(t)) {
            return Err(DiffsolError::InterpolationTimeOutsideCurrentStep);
        }
        Ok(interpolate_from_diff(t, &state.gdiff, state.t, state.h, state.order))
    }

    /// Evaluates the interpolating polynomial of every sensitivity history at
    /// `t`, under the same rules as `interpolate`.
    #[verifier::loop_isolation(false)]
    pub fn interpolate_sens(&self, t: Eqn::T) -> (r: Result<Vec<Eqn::V>, DiffsolError>)
        requires
            self.sp_wf(),
        ensures
            self.is_state_modified && t.sp_eq(self.state.t) ==> (r matches Ok(v) && v@.len()
                == self.state.s@.len() && (forall|c: int|
                0 <= c < self.state.s@.len() ==> (#[trigger] v@[c]).vals()
                    == self.state.s@[c].vals())),
            self.is_state_modified && !t.sp_eq(self.state.t) ==> r == Err::<
                Vec<Eqn::V>,
                _,
            >(DiffsolError::InterpolationTimeOutsideCurrentStep),
            !self.is_state_modified ==> ({
                if sp_interp_beyond(t, self.state.t, self.state.h) {
                    r == Err::<Vec<Eqn::V>, _>(DiffsolError::InterpolationTimeAfterCurrentTime)
                } else if sp_interp_before(t, self.state.t, self.state.h) {
                    r == Err::<Vec<Eqn::V>, _>(DiffsolError::InterpolationTimeOutsideCurrentStep)
                } else {
                    (r matches Ok(v) && v@.len() == self.state.s@.len() && (forall|c: int, i: int|
                        0 <= c < self.state.s@.len() && 0 <= i
                            < self.ode_problem.eqn.sp_nstates() ==> (#[trigger] v@[c].vals()[i])
                            == sp_interp(
                            self.state.sdiff@[c].sp_columns(),
                            t,
                            self.state.t,
                            self.state.h,
                            self.state.order as int,
                            i,
                        )))
                }
            }),
    {
        let state = &self.state;
        if self.is_state_modified {
            if t.eq_val(state.t) {
                let mut s: Vec<Eqn::V> = Vec::new();
                let mut i: usize = 0;
                while i < state.s.len()
                    invariant
                        i <= state.s@.len(),
                        s@.len() == i,
                        forall|c: int|
                            0 <= c < i ==> (#[trigger] s@[c]).vals() == state.s@[c].vals(),
                    decreases state.s@.len() - i,
                {
                    s.push(state.s[i].clone_vec());
                    i = i + 1;
                }
                return Ok(s);
            } else {
                return Err(DiffsolError::InterpolationTimeOutsideCurrentStep);
            }
        }
        let is_forward = Eqn::T::zero().lt(state.h);
        if (is_forward && state.t.lt(t)) || (!is_forward && t.lt(state.t)) {
            return Err(DiffsolError::InterpolationTimeAfterCurrentTime);
        }
        let start = state.t.sub(state.h);
        if (is_forward && t.lt(start)) || (!is_forward && start.lt(t)) {
            return Err(DiffsolError::InterpolationTimeOutsideCurrentStep);
        }
        let nstates = self.ode_problem.eqn.rhs().nstates();
        let mut s: Vec<Eqn::V> = Vec::new();
        let mut i: usize = 0;
        while i < state.sdiff.len()
            invariant
                i <= state.sdiff@.len(),
                s@.len() == i,
                forall|c: int, q: int|
                    0 <= c < i && 0 <= q < nstates ==> (#[trigger] s@[c].vals()[q]) == sp_interp(
                        state.sdiff@[c].sp_columns(),
                        t,
                        state.t,
                        state.h,
                        state.order as int,
                        q,
                    ),
            decreases state.sdiff@.len() - i,
        {
            s.push(interpolate_from_diff(t, &state.sdiff[i], state.t, state.h, state.order));
            i = i + 1;
        }
        Ok(s)
    }

    /// Handles a pending stop time: reports arrival within roundoff of it,
    /// rejects one strictly behind the current time, and otherwise clips the
    /// next step so it lands on it.
    fn handle_tstop(&mut self, tstop: Eqn::T) -> (r: Result<
        Option<OdeSolverStopReason<Eqn::T>>,
        DiffsolError,
    >)
        requires
            old(self).sp_wf(),
        ensures
            final(self).sp_wf(),
            final(self).ode_problem == old(self).ode_problem,
            final(self).s_deltas@.len() == old(self).s_deltas@.len(),
            final(self).statistics == old(self).statistics,
            final(self).last_error_norm == old(self).last_error_norm,
            final(self).last_accepted_h == old(self).last_accepted_h,
            final(self).last_history_column == old(self).last_history_column,
            final(self).last_equal_steps == old(self).last_equal_steps,
            final(self).tstop_check_h == old(self).tstop_check_h,
            final(self).sens_error_control == old(self).sens_error_control,
            final(self).is_state_modified == old(self).is_state_modified,
            final(self).state.order == old(self).state.order,
            final(self).state.t == old(self).state.t,
            final(self).state.y == old(self).state.y,
            final(self).state.dy == old(self).state.dy,
            final(self).state.g == old(self).state.g,
            final(self).state.s == old(self).state.s,
            r matches Ok(Some(reason)) <==> sp_at_tstop(
                old(self).state.t,
                old(self).state.h,
                tstop,
            ),
            r matches Ok(Some(reason)) ==> (reason is TstopReached && final(self).tstop is None),
            r is Err <==> (!sp_at_tstop(old(self).state.t, old(self).state.h, tstop)
                && sp_tstop_behind(old(self).state.t, old(self).state.h, tstop)),
            r matches Err(e) ==> (e == DiffsolError::StopTimeBeforeCurrentTime
                && final(self).tstop is None && final(self).state == old(self).state),
            r matches Ok(None) ==> final(self).tstop == old(self).tstop,
            r matches Ok(None) ==> ({
                let t = old(self).state.t;
                let h = old(self).state.h;
                let factor = tstop.sp_sub(t).sp_div(h);
                if sp_tstop_overshoot(t, h, tstop) && !factor.sp_mul(h).sp_abs().sp_lt(
                    sp_min_timestep::<Eqn::T>(),
                ) {
                    final(self).state.h == factor.sp_mul(h)
                } else {
                    final(self).state.h == h
                }
            }),
    {
        let state_t = self.state.t;
        let state_h = self.state.h;
        let troundoff = Eqn::T::ratio(100, 1).mul(Eqn::T::epsilon()).mul(
            state_t.abs().add(state_h.abs()),
        );
        // at the stop time already?
        if state_t.sub(tstop).abs().le(troundoff) {
            self.tstop = None;
            return Ok(Some(OdeSolverStopReason::TstopReached));
        }
        // behind the current time in the direction of integration?
        let zero = Eqn::T::zero();
        if (zero.lt(state_h) && tstop.lt(state_t.sub(troundoff))) || (state_h.lt(zero)
            && state_t.add(troundoff).lt(tstop)) {
            self.tstop = None;
            return Err(DiffsolError::StopTimeBeforeCurrentTime);
        }
        // clip the next step so it lands on the stop time; a clip below the
        // minimum step size is caught by the step's own error test
        if (zero.lt(state_h) && tstop.add(troundoff).lt(state_t.add(state_h))) || (state_h.lt(
            zero,
        ) && state_t.add(state_h).lt(tstop.sub(troundoff))) {
            let factor = tstop.sub(state_t).div(state_h);
            let _ = self.update_step_size(factor);
        }
        Ok(None)
    }

    /// Sets the stop time for the integration. A stop time within roundoff
    /// of or behind the current time is refused and cleared.
    pub fn set_stop_time(&mut self, tstop: Eqn::T) -> (r: Result<(), DiffsolError>)
        requires
            old(self).sp_wf(),
        ensures
            final(self).sp_wf(),
            final(self).ode_problem == old(self).ode_problem,
            final(self).s_deltas@.len() == old(self).s_deltas@.len(),
            final(self).statistics == old(self).statistics,
            final(self).last_error_norm == old(self).last_error_norm,
            final(self).last_accepted_h == old(self).last_accepted_h,
            final(self).last_history_column == old(self).last_history_column,
            final(self).last_equal_steps == old(self).last_equal_steps,
            final(self).tstop_check_h == old(self).tstop_check_h,
            final(self).sens_error_control == old(self).sens_error_control,
            final(self).state.t == old(self).state.t,
            final(self).state.y == old(self).state.y,
            final(self).state.dy == old(self).state.dy,
            final(self).state.g == old(self).state.g,
            final(self).state.s == old(self).state.s,
            final(self).state.order == old(self).state.order,
            final(self).is_state_modified == old(self).is_state_modified,
            r is Ok <==> (!sp_at_tstop(old(self).state.t, old(self).state.h, tstop)
                && !sp_tstop_behind(old(self).state.t, old(self).state.h, tstop)),
            r matches Ok(_) ==> final(self).tstop == Some(tstop),
            r matches Err(e) ==> e == DiffsolError::StopTimeBeforeCurrentTime
                && final(self).tstop is None,
    {
        self.tstop = Some(tstop);
        match self.handle_tstop(tstop) {
            Err(e) => Err(e),
            Ok(Some(_)) => {
                self.tstop = None;
                Err(DiffsolError::StopTimeBeforeCurrentTime)
            },
            Ok(None) => {
                self.tstop = Some(tstop);
                Ok(())
            },
        }
    }

    /// Resets the history to first order after the state was replaced by
    /// hand.
    fn initialise_to_first_order(&mut self)
        requires
            old(self).sp_wf(),
        ensures
            final(self).sp_wf(),
            final(self).ode_problem == old(self).ode_problem,
            final(self).s_deltas@.len() == old(self).s_deltas@.len(),
            final(self).state.order == 1,
            final(self).n_equal_steps == 0,
            !final(self).is_state_modified,
            final(self).state.t == old(self).state.t,
            final(self).state.h == old(self).state.h,
            final(self).state.y == old(self).state.y,
            final(self).state.dy == old(self).state.dy,
            final(self).state.g == old(self).state.g,
            final(self).state.s == old(self).state.s,
            final(self).statistics == old(self).statistics,
            final(self).tstop == old(self).tstop,
            final(self).last_error_norm == old(self).last_error_norm,
            final(self).last_accepted_h == old(self).last_accepted_h,
            final(self).last_history_column == old(self).last_history_column,
            final(self).last_equal_steps == old(self).last_equal_steps,
            final(self).tstop_check_h == old(self).tstop_check_h,
            final(self).sens_error_control == old(self).sens_error_control,
    {
        self.n_equal_steps = 0;
        self.state.initialise_diff_to_first_order();
        if self.ode_problem.integrate_out {
            self.state.initialise_gdiff_to_first_order();
        }
        self.state.initialise_sdiff_to_first_order();
        self.u = Self::compute_r(1, Eqn::T::one());
        self.is_state_modified = false;
    }
}

impl<'a, Eqn, LS> Bdf<'a, Eqn, LS> where
    Eqn: OdeEquations,
    LS: LinearSolver<T = Eqn::T, V = Eqn::V, M = Eqn::M>,
 {
    /// Evaluates the output map at the prediction and forms the BDF update
    /// of the integrated-output channel.
    #[verifier::loop_isolation(false)]
    fn calculate_output_delta(&mut self)
        requires
            old(self).sp_wf(),
            old(self).y_predict.vals().len() == old(self).ode_problem.eqn.sp_nstates(),
        ensures
            final(self).sp_wf(),
            final(self).ode_problem == old(self).ode_problem,
            final(self).s_deltas@.len() == old(self).s_deltas@.len(),
            final(self).state.y == old(self).state.y,
            final(self).state.dy == old(self).state.dy,
            final(self).state.t == old(self).state.t,
            final(self).state.h == old(self).state.h,
            final(self).state.g == old(self).state.g,
            final(self).state.order == old(self).state.order,
            final(self).state.diff == old(self).state.diff,
            final(self).state.gdiff == old(self).state.gdiff,
            final(self).state.s == old(self).state.s,
            final(self).state.sdiff == old(self).state.sdiff,
            final(self).y_delta == old(self).y_delta,
            final(self).s_deltas == old(self).s_deltas,
            final(self).y_predict == old(self).y_predict,
            final(self).t_predict == old(self).t_predict,
            final(self).op == old(self).op,
            final(self).statistics == old(self).statistics,
            final(self).tstop == old(self).tstop,
            final(self).root_finder == old(self).root_finder,
            final(self).n_equal_steps == old(self).n_equal_steps,
            final(self).is_state_modified == old(self).is_state_modified,
            final(self).last_error_norm == old(self).last_error_norm,
            final(self).last_accepted_h == old(self).last_accepted_h,
            final(self).last_history_column == old(self).last_history_column,
            final(self).last_equal_steps == old(self).last_equal_steps,
            final(self).tstop_check_h == old(self).tstop_check_h,
            final(self).sens_error_control == old(self).sens_error_control,
            final(self).nonlinear_solver == old(self).nonlinear_solver,
    {
        let problem = self.ode_problem;
        let order = self.state.order;
        if let Some(out) = problem.eqn.out() {
            out.call_inplace(&self.y_predict, self.t_predict, &mut self.state.dg);
            self.op.integrate_out(
                &self.state.dg,
                &self.state.gdiff,
                &self.gamma,
                &self.alpha,
                order,
                &mut self.g_delta,
            );
        }
    }

    /// Commits the accepted deltas into every difference history, and
    /// accumulates the integrated output.
    #[verifier::loop_isolation(false)]
    fn update_differences_and_integrate_out(&mut self)
        requires
            old(self).sp_wf(),
        ensures
            final(self).sp_wf(),
            final(self).ode_problem == old(self).ode_problem,
            final(self).s_deltas@.len() == old(self).s_deltas@.len(),
            final(self).state.y == old(self).state.y,
            final(self).state.dy == old(self).state.dy,
            final(self).state.t == old(self).state.t,
            final(self).state.h == old(self).state.h,
            final(self).state.order == old(self).state.order,
            final(self).state.s == old(self).state.s,
            final(self).state.diff.sp_columns()[old(self).state.order + 1] == old(self).y_delta.vals(),
            forall|i: int|
                0 <= i <= old(self).state.order ==> #[trigger] final(self).state.diff.sp_columns()[i]
                    == crate::vector::axpy_seq(
                    Eqn::T::sp_one(),
                    final(self).state.diff.sp_columns()[i + 1],
                    Eqn::T::sp_one(),
                    old(self).state.diff.sp_columns()[i],
                ),
            final(self).y_delta == old(self).y_delta,
            final(self).g_delta == old(self).g_delta,
            final(self).s_deltas == old(self).s_deltas,
            final(self).y_predict == old(self).y_predict,
            final(self).t_predict == old(self).t_predict,
            final(self).op == old(self).op,
            final(self).statistics == old(self).statistics,
            final(self).tstop == old(self).tstop,
            final(self).n_equal_steps == old(self).n_equal_steps,
            final(self).is_state_modified == old(self).is_state_modified,
            final(self).last_error_norm == old(self).last_error_norm,
            final(self).last_accepted_h == old(self).last_accepted_h,
            final(self).last_history_column == old(self).last_history_column,
            final(self).last_equal_steps == old(self).last_equal_steps,
            final(self).tstop_check_h == old(self).tstop_check_h,
            final(self).sens_error_control == old(self).sens_error_control,
            final(self).nonlinear_solver == old(self).nonlinear_solver,
    {
        let order = self.state.order;
        Self::update_diff(order, &self.y_delta, &mut self.state.diff);

        if self.ode_problem.integrate_out {
            Self::predict_using_diff(&mut self.state.g, &self.state.gdiff, order);
            self.state.g.add_assign(&self.g_delta);
            Self::update_diff(order, &self.g_delta, &mut self.state.gdiff);
        }

        let naug = self.s_deltas.len();
        let mut new_sdiff: Vec<DenseMat<Eqn::V>> = Vec::new();
        let mut i: usize = 0;
        while i < naug
            invariant
                i <= naug,
                new_sdiff@.len() == i,
                forall|k: int|
                    0 <= k < i ==> (#[trigger] new_sdiff@[k]).wf() && new_sdiff@[k].sp_nrows()
                        == self.state.sdiff@[k].sp_nrows() && new_sdiff@[k].sp_ncols()
                        == self.state.sdiff@[k].sp_ncols(),
            decreases naug - i,
        {
            let mut m = self.state.sdiff[i].clone_mat();
            proof {
                m.lemma_wf_transfer(&self.state.sdiff[i as int]);
            }
            Self::update_diff(order, &self.s_deltas[i], &mut m);
            new_sdiff.push(m);
            i = i + 1;
        }
        self.state.sdiff = new_sdiff;
    }

    /// Solves the discretised sensitivity equations, one Newton run per
    /// parameter, against the already-factored iteration matrix.
    #[verifier::loop_isolation(false)]
    fn sensitivity_solve(&mut self, t_new: Eqn::T) -> (r: Result<(), DiffsolError>)
        requires
            old(self).sp_wf(),
        ensures
            final(self).sp_wf(),
            final(self).ode_problem == old(self).ode_problem,
            final(self).s_deltas@.len() == old(self).s_deltas@.len(),
            final(self).state.y == old(self).state.y,
            final(self).state.dy == old(self).state.dy,
            final(self).state.t == old(self).state.t,
            final(self).state.h == old(self).state.h,
            final(self).state.order == old(self).state.order,
            final(self).state.diff == old(self).state.diff,
            final(self).state.gdiff == old(self).state.gdiff,
            final(self).state.sdiff == old(self).state.sdiff,
            final(self).state.g == old(self).state.g,
            final(self).y_delta == old(self).y_delta,
            final(self).g_delta == old(self).g_delta,
            final(self).y_predict == old(self).y_predict,
            final(self).t_predict == old(self).t_predict,
            final(self).op == old(self).op,
            final(self).tstop == old(self).tstop,
            final(self).root_finder == old(self).root_finder,
            final(self).n_equal_steps == old(self).n_equal_steps,
            final(self).is_state_modified == old(self).is_state_modified,
            final(self).last_error_norm == old(self).last_error_norm,
            final(self).last_accepted_h == old(self).last_accepted_h,
            final(self).last_history_column == old(self).last_history_column,
            final(self).last_equal_steps == old(self).last_equal_steps,
            final(self).tstop_check_h == old(self).tstop_check_h,
            final(self).sens_error_control == old(self).sens_error_control,
            final(self).statistics.number_of_steps == old(self).statistics.number_of_steps,
            final(self).statistics.number_of_error_test_failures == old(self).statistics.number_of_error_test_failures,
            final(self).statistics.number_of_linear_solver_setups == old(self).statistics.number_of_linear_solver_setups,
            final(self).statistics.number_of_nonlinear_solver_fails == old(self).statistics.number_of_nonlinear_solver_fails,
            final(self).statistics.number_of_nonlinear_solver_iterations >= old(self).statistics.number_of_nonlinear_solver_iterations,
            r matches Err(e) ==> e == DiffsolError::SensitivitySolveFailed,
            old(self).s_deltas@.len() != old(self).ode_problem.eqn.sp_nparams() ==> r is Err,
            r is Ok ==> (forall|c: int, q: int|
                0 <= c < old(self).s_deltas@.len() && 0 <= q
                    < old(self).ode_problem.eqn.sp_nstates()
                    ==> #[trigger] final(self).s_deltas@[c].vals()[q]
                    == final(self).state.s@[c].vals()[q].sp_sub(
                    sp_history_sum(
                        final(self).state.sdiff@[c].sp_columns(),
                        final(self).state.order as int,
                        q,
                    ),
                )),
    {
        let problem = self.ode_problem;
        let naug = self.s_deltas.len();
        let nparams = problem.eqn.rhs().nparams();
        let nstates = problem.eqn.rhs().nstates();
        if naug != nparams {
            return Err(DiffsolError::SensitivitySolveFailed);
        }
        let order = self.state.order;
        let c = self.op.c;
        let mut e_i = Eqn::V::zeros(nparams);
        let mut i: usize = 0;
        while i < naug
            invariant
                i <= naug,
                self.sp_wf(),
                naug == self.s_deltas@.len(),
                naug == nparams,
                nparams == problem.eqn.sp_nparams(),
                nstates == problem.eqn.sp_nstates(),
                e_i.vals().len() == nparams,
                problem == self.ode_problem,
                order == self.state.order,
                self.state.y == old(self).state.y,
                self.state.dy == old(self).state.dy,
                self.state.t == old(self).state.t,
                self.state.h == old(self).state.h,
                self.state.order == old(self).state.order,
                self.state.diff == old(self).state.diff,
                self.state.gdiff == old(self).state.gdiff,
                self.state.sdiff == old(self).state.sdiff,
                self.state.g == old(self).state.g,
                self.y_delta == old(self).y_delta,
                self.g_delta == old(self).g_delta,
                self.y_predict == old(self).y_predict,
                self.t_predict == old(self).t_predict,
                self.op == old(self).op,
                self.tstop == old(self).tstop,
                self.root_finder == old(self).root_finder,
                self.n_equal_steps == old(self).n_equal_steps,
                self.is_state_modified == old(self).is_state_modified,
                self.last_error_norm == old(self).last_error_norm,
                self.last_accepted_h == old(self).last_accepted_h,
                self.last_history_column == old(self).last_history_column,
                self.last_equal_steps == old(self).last_equal_steps,
                self.tstop_check_h == old(self).tstop_check_h,
                self.sens_error_control == old(self).sens_error_control,
                self.statistics.number_of_steps == old(self).statistics.number_of_steps,
                self.statistics.number_of_error_test_failures == old(self).statistics.number_of_error_test_failures,
                self.statistics.number_of_linear_solver_setups == old(self).statistics.number_of_linear_solver_setups,
                self.statistics.number_of_nonlinear_solver_fails == old(self).statistics.number_of_nonlinear_solver_fails,
                self.statistics.number_of_nonlinear_solver_iterations >= old(self).statistics.number_of_nonlinear_solver_iterations,
                forall|c: int, q: int|
                    0 <= c < i && 0 <= q < nstates ==> #[trigger] self.s_deltas@[c].vals()[q]
                        == self.state.s@[c].vals()[q].sp_sub(
                        sp_history_sum(
                            self.state.sdiff@[c].sp_columns(),
                            self.state.order as int,
                            q,
                        ),
                    ),
            decreases naug - i,
        {
            proof {
                assert(self.state.sdiff@[i as int].wf());
            }
            Self::predict_using_diff(&mut self.s_predict, &self.state.sdiff[i], order);
            let psi = compute_psi(&self.state.sdiff[i], &self.gamma, &self.alpha, order);
            e_i.set(i, Eqn::T::one());

            let mut s_new = self.s_predict.clone_vec();
            let mut conv = Convergence::<Eqn::V>::new(
                problem.rtol,
                problem.atol.clone_vec(),
                NEWTON_MAXITER,
            );
            let mut done = false;
            let mut converged = false;
            while !done
                invariant
                    self.sp_wf(),
                    conv.wf(),
                    !done ==> conv.sp_iter() < conv.sp_max_iter(),
                    conv.sp_atol().len() == nstates,
                    nstates == problem.eqn.sp_nstates(),
                    nparams == problem.eqn.sp_nparams(),
                    problem == self.ode_problem,
                    e_i.vals().len() == nparams,
                    s_new.vals().len() == nstates,
                    psi.vals().len() == nstates,
                    self.s_predict.vals().len() == nstates,
                    self.y_predict == old(self).y_predict,
                decreases (if done {
                    0int
                } else {
                    1int
                }) + (conv.sp_max_iter() - conv.sp_iter()),
            {
                // residual: M * (s - s0 + psi) - c * (J * s + dF/dp * e_i)
                let mut fy = Eqn::V::zeros(nstates);
                problem.eqn.rhs().jac_mul_inplace(&self.y_predict, t_new, &s_new, &mut fy);
                let mut fp = Eqn::V::zeros(nstates);
                problem.eqn.rhs().sens_mul_inplace(&self.y_predict, t_new, &e_i, &mut fp);
                fy.add_assign(&fp);
                let mut tmp = s_new.clone_vec();
                tmp.sub_assign(&self.s_predict);
                tmp.add_assign(&psi);
                let mut mt = Eqn::V::zeros(nstates);
                match problem.eqn.mass() {
                    Some(mass) => {
                        mass.gemv(t_new, Eqn::T::one(), &tmp, Eqn::T::zero(), &mut mt);
                    },
                    None => {
                        mt.copy_from(&tmp);
                    },
                }
                fy.scale_mut(c.neg());
                fy.add_assign(&mt);
                let mut delta = fy;
                if self.nonlinear_solver.solve_linearised_in_place(&mut delta).is_err() {
                    done = true;
                } else {
                    s_new.sub_assign(&delta);
                    match conv.check_new_iteration(&mut delta, &s_new) {
                        ConvergenceStatus::Converged => {
                            done = true;
                            converged = true;
                        },
                        ConvergenceStatus::Diverged => {
                            done = true;
                        },
                        ConvergenceStatus::MaximumIterations => {
                            done = true;
                        },
                        ConvergenceStatus::Continue => {
                        },
                    }
                }
            }
            self.statistics.number_of_nonlinear_solver_iterations = saturating_add(
                self.statistics.number_of_nonlinear_solver_iterations,
                conv.niter(),
            );
            if !converged {
                return Err(DiffsolError::SensitivitySolveFailed);
            }
            let mut sd = s_new.clone_vec();
            sd.sub_assign(&self.s_predict);
            self.s_deltas[i] = sd;
            let slot = &mut self.state.s[i];
            slot.copy_from(&s_new);
            e_i.set(i, Eqn::T::zero());
            i = i + 1;
        }
        Ok(())
    }
}

impl<'a, Eqn, LS> Bdf<'a, Eqn, LS> where
    Eqn: OdeEquations,
    LS: LinearSolver<T = Eqn::T, V = Eqn::V, M = Eqn::M>,
 {

    /// After enough equal steps, weighs the error the history predicts for
    /// one order lower and one higher against the current order, moves to
    /// the best of the three, and rescales the step accordingly. The order
    /// never moves unless more than `order` consecutive equal-order steps
    /// succeeded, and then by at most one; a requested step change that
    /// would fall below the minimum step size is dropped (the retry path
    /// raises that failure where a step cannot proceed at all).
    pub fn order_and_step_control(&mut self, safety: Eqn::T, error_norm: Eqn::T)
        requires
            old(self).sp_wf(),
        ensures
            final(self).sp_wf(),
            final(self).ode_problem == old(self).ode_problem,
            final(self).s_deltas@.len() == old(self).s_deltas@.len(),
            final(self).statistics.number_of_steps == old(self).statistics.number_of_steps,
            final(self).statistics.number_of_error_test_failures == old(
                self,
            ).statistics.number_of_error_test_failures,
            final(self).statistics.number_of_nonlinear_solver_iterations == old(
                self,
            ).statistics.number_of_nonlinear_solver_iterations,
            final(self).statistics.number_of_nonlinear_solver_fails == old(
                self,
            ).statistics.number_of_nonlinear_solver_fails,
            final(self).statistics.number_of_linear_solver_setups >= old(
                self,
            ).statistics.number_of_linear_solver_setups,
            final(self).last_error_norm == old(self).last_error_norm,
            final(self).last_accepted_h == old(self).last_accepted_h,
            final(self).last_history_column == old(self).last_history_column,
            final(self).last_equal_steps == old(self).last_equal_steps,
            final(self).tstop_check_h == old(self).tstop_check_h,
            final(self).sens_error_control == old(self).sens_error_control,
            final(self).state.t == old(self).state.t,
            final(self).state.y == old(self).state.y,
            final(self).state.dy == old(self).state.dy,
            final(self).state.g == old(self).state.g,
            final(self).state.s == old(self).state.s,
            final(self).y_predict == old(self).y_predict,
            final(self).y_delta == old(self).y_delta,
            final(self).g_delta == old(self).g_delta,
            final(self).s_deltas == old(self).s_deltas,
            final(self).tstop == old(self).tstop,
            final(self).is_state_modified == old(self).is_state_modified,
            old(self).n_equal_steps <= old(self).state.order ==> final(self).state.order == old(self).state.order,
            final(self).state.order <= old(self).state.order + 1,
            old(self).state.order <= final(self).state.order + 1,
    {
        if self.n_equal_steps > self.state.order {
            let order = self.state.order;
            let error_m_norm = if order > 1 {
                self.predict_error_control(order - 1)
            } else {
                Eqn::T::infinity()
            };
            let error_p_norm = if order < MAX_ORDER {
                self.predict_error_control(order + 1)
            } else {
                Eqn::T::infinity()
            };
            let f0 = error_m_norm.pow(Eqn::T::ratio(-1, 2 * (order as i64)));
            let f1 = error_norm.pow(Eqn::T::ratio(-1, 2 * (order as i64 + 1)));
            let f2 = error_p_norm.pow(Eqn::T::ratio(-1, 2 * (order as i64 + 2)));

            // the largest factor wins; on a tie the higher order wins
            let mut max_index: usize = 1;
            let mut best = f1;
            if order > 1 && best.le(f0) {
                max_index = 0;
                best = f0;
            }
            if best.le(f1) {
                max_index = 1;
                best = f1;
            }
            if order < MAX_ORDER && best.le(f2) {
                max_index = 2;
                best = f2;
            }

            let new_order = if max_index == 0 {
                order - 1
            } else if max_index == 2 {
                order + 1
            } else {
                order
            };
            self.state.order = new_order;
            if max_index != 1 {
                self.u = Self::compute_r(new_order, Eqn::T::one());
            }

            let mut factor = safety.mul(best);
            let max_factor = Eqn::T::ratio(21, 10);
            let min_factor = Eqn::T::ratio(1, 2);
            if max_factor.lt(factor) {
                factor = max_factor;
            }
            if factor.lt(min_factor) {
                factor = min_factor;
            }
            let max_threshold = Eqn::T::ratio(2, 1);
            let min_threshold = Eqn::T::ratio(9, 10);
            if !factor.lt(max_threshold) || factor.lt(min_threshold) || max_index != 1 {
                match self.update_step_size(factor) {
                    Ok(new_h) => {
                        self.jacobian_updates(
                            new_h.mul(self.alpha[new_order]),
                            SolverState::StepSuccess,
                        );
                    },
                    Err(_) => {},
                }
            }
        }
    }

    /// After an accepted step, reports arrival at (or passage of) the
    /// pending stop time, and otherwise clips the next step to land on it.
    fn advance_tstop(&mut self, tstop: Eqn::T) -> (r: Option<OdeSolverStopReason<Eqn::T>>)
        requires
            old(self).sp_wf(),
        ensures
            final(self).sp_wf(),
            final(self).ode_problem == old(self).ode_problem,
            final(self).s_deltas@.len() == old(self).s_deltas@.len(),
            final(self).statistics == old(self).statistics,
            final(self).last_error_norm == old(self).last_error_norm,
            final(self).last_accepted_h == old(self).last_accepted_h,
            final(self).last_history_column == old(self).last_history_column,
            final(self).last_equal_steps == old(self).last_equal_steps,
            final(self).tstop_check_h == old(self).tstop_check_h,
            final(self).sens_error_control == old(self).sens_error_control,
            final(self).is_state_modified == old(self).is_state_modified,
            final(self).state.order == old(self).state.order,
            final(self).state.t == old(self).state.t,
            final(self).state.y == old(self).state.y,
            final(self).state.dy == old(self).state.dy,
            final(self).state.g == old(self).state.g,
            final(self).state.s == old(self).state.s,
            final(self).y_predict == old(self).y_predict,
            final(self).y_delta == old(self).y_delta,
            final(self).g_delta == old(self).g_delta,
            final(self).s_deltas == old(self).s_deltas,
            r is Some <==> (sp_at_tstop(old(self).state.t, old(self).state.h, tstop)
                || sp_tstop_behind(old(self).state.t, old(self).state.h, tstop)),
            r matches Some(reason) ==> (reason is TstopReached && final(self).tstop is None
                && final(self).state.h == old(self).state.h),
            r is None ==> final(self).tstop == old(self).tstop,
            r is None ==> ({
                let t = old(self).state.t;
                let h = old(self).state.h;
                let factor = tstop.sp_sub(t).sp_div(h);
                if sp_tstop_overshoot(t, h, tstop) && !factor.sp_mul(h).sp_abs().sp_lt(
                    sp_min_timestep::<Eqn::T>(),
                ) {
                    final(self).state.h == factor.sp_mul(h)
                } else {
                    final(self).state.h == h
                }
            }),
    {
        let state_t = self.state.t;
        let state_h = self.state.h;
        let troundoff = Eqn::T::ratio(100, 1).mul(Eqn::T::epsilon()).mul(
            state_t.abs().add(state_h.abs()),
        );
        let zero = Eqn::T::zero();
        let at = state_t.sub(tstop).abs().le(troundoff);
        let behind = (zero.lt(state_h) && tstop.lt(state_t.sub(troundoff))) || (state_h.lt(zero)
            && state_t.add(troundoff).lt(tstop));
        if at || behind {
            // the step landed on the stop time, or a clipped step passed it
            self.tstop = None;
            return Some(OdeSolverStopReason::TstopReached);
        }
        // clip the next step so it lands on the stop time; a clip below the
        // minimum step size is dropped and the next step reports instead
        if (zero.lt(state_h) && tstop.add(troundoff).lt(state_t.add(state_h))) || (state_h.lt(
            zero,
        ) && state_t.add(state_h).lt(tstop.sub(troundoff))) {
            let factor = tstop.sub(state_t).div(state_h);
            let _ = self.update_step_size(factor);
        }
        None
    }

    /// Advances the state by one internal step.
    ///
    /// The step is accepted only when the weighted error norm of its final
    /// correction is at most one (recorded in `last_error_norm`); a Newton
    /// failure refreshes the Jacobian and then shrinks the step by three
    /// tenths, an error-test failure shrinks the step by the classical
    /// factor, and a step below the minimum size is fatal. After acceptance
    /// the history is committed, the order controller may move one order up
    /// or down, the root finder scans the step, and a pending stop time may
    /// end the integration.
    #[verifier::rlimit(100)]
    pub fn step(&mut self) -> (r: Result<OdeSolverStopReason<Eqn::T>, DiffsolError>)
        requires
            old(self).sp_wf(),
        ensures
            final(self).sp_wf(),
            r matches Ok(_) ==> final(self).last_error_norm@.sp_le(Eqn::T::sp_one()),
            r matches Ok(_) && old(self).s_deltas@.len() + 2 <= usize::MAX ==> final(self).last_error_norm@
                == sp_error_norm::<Eqn::V>(
                final(self).y_delta.vals(),
                old(self).state.y.vals(),
                old(self).ode_problem.atol.vals(),
                old(self).ode_problem.rtol,
                old(self).ode_problem.integrate_out && old(self).ode_problem.eqn.sp_has_out()
                    && old(self).ode_problem.out_rtol is Some
                    && old(self).ode_problem.out_atol is Some,
                final(self).g_delta.vals(),
                old(self).state.g.vals(),
                old(self).ode_problem.out_atol.unwrap().vals(),
                old(self).ode_problem.out_rtol.unwrap(),
                final(self).s_deltas@.len() > 0 && final(self).sens_error_control,
                final(self).s_deltas@,
                final(self).state.s@,
                old(self).ode_problem.sens_atol.unwrap().vals(),
                old(self).ode_problem.sens_rtol.unwrap(),
                (if old(self).is_state_modified {
                    1int
                } else {
                    old(self).state.order as int
                }),
            ),
            r matches Ok(_) ==> final(self).state.order <= (if old(self).is_state_modified {
                1int
            } else {
                old(self).state.order as int
            }) + 1,
            r matches Ok(_) ==> (if old(self).is_state_modified {
                1int
            } else {
                old(self).state.order as int
            }) <= final(self).state.order + 1,
            r matches Ok(_) ==> (final(self).state.order == (if old(self).is_state_modified {
                1int
            } else {
                old(self).state.order as int
            }) || final(self).last_equal_steps@ > (if old(self).is_state_modified {
                1int
            } else {
                old(self).state.order as int
            })),
            r matches Ok(_) && old(self).statistics.number_of_steps < usize::MAX ==> final(self).statistics.number_of_steps == old(self).statistics.number_of_steps + 1,
            final(self).statistics.number_of_steps >= old(self).statistics.number_of_steps,
            final(self).statistics.number_of_error_test_failures >= old(self).statistics.number_of_error_test_failures,
            final(self).statistics.number_of_nonlinear_solver_iterations >= old(self).statistics.number_of_nonlinear_solver_iterations,
            final(self).statistics.number_of_nonlinear_solver_fails >= old(self).statistics.number_of_nonlinear_solver_fails,
            final(self).statistics.number_of_linear_solver_setups >= old(self).statistics.number_of_linear_solver_setups,
            r matches Ok(_) ==> final(self).state.t == old(self).state.t.sp_add(final(self).last_accepted_h@),
            r matches Ok(_) ==> (forall|i: int|
                0 <= i < final(self).y_predict.vals().len() ==> #[trigger] final(self).state.y.vals()[i]
                    == final(self).y_predict.vals()[i].sp_add(final(self).y_delta.vals()[i])),
            r matches Ok(_) ==> (forall|i: int|
                0 <= i < final(self).state.dy.vals().len() ==> #[trigger] final(self).state.dy.vals()[i]
                    == Eqn::T::sp_one().sp_div(final(self).last_accepted_h@).sp_mul(
                    final(self).last_history_column@[i],
                )),
            r is Err ==> final(self).state.t == old(self).state.t && final(self).state.y == old(self).state.y
                && final(self).state.dy == old(self).state.dy
                && final(self).statistics.number_of_steps == old(self).statistics.number_of_steps,
            r matches Ok(_) ==> !final(self).is_state_modified,
            r matches Ok(reason) && reason is TstopReached ==> (final(self).tstop is None && old(self).tstop is Some
                && (sp_at_tstop(final(self).state.t, final(self).state.h, old(self).tstop.unwrap())
                    || sp_tstop_behind(final(self).state.t, final(self).state.h, old(self).tstop.unwrap()))),
            r matches Ok(reason) && reason is InternalTimestep && old(self).tstop is Some ==> (
                !sp_at_tstop(final(self).state.t, final(self).tstop_check_h@, old(self).tstop.unwrap())
                && !sp_tstop_behind(final(self).state.t, final(self).tstop_check_h@, old(self).tstop.unwrap())),
            (r == Err::<OdeSolverStopReason<Eqn::T>, DiffsolError>(
                DiffsolError::StopTimeBeforeCurrentTime,
            )) <==> (old(self).is_state_modified && old(self).tstop is Some && (sp_at_tstop(
                old(self).state.t,
                old(self).state.h,
                old(self).tstop.unwrap(),
            ) || sp_tstop_behind(
                old(self).state.t,
                old(self).state.h,
                old(self).tstop.unwrap(),
            ))),
            r matches Err(e) ==> e == DiffsolError::StepSizeTooSmall || e
                == DiffsolError::StopTimeBeforeCurrentTime,
    {
        let problem = self.ode_problem;
        let integrate_out = problem.integrate_out;
        let output_in_error_control = problem.output_in_error_control();
        let integrate_sens = self.s_deltas.len() > 0;

        let mut convergence_fail = false;

        if self.is_state_modified {
            // revalidate a pending stop time before anything moves
            if let Some(t_stop) = self.tstop {
                let state_t = self.state.t;
                let state_h = self.state.h;
                let troundoff = Eqn::T::ratio(100, 1).mul(Eqn::T::epsilon()).mul(
                    state_t.abs().add(state_h.abs()),
                );
                let zero = Eqn::T::zero();
                if state_t.sub(t_stop).abs().le(troundoff) || (zero.lt(state_h) && t_stop.lt(
                    state_t.sub(troundoff),
                )) || (state_h.lt(zero) && state_t.add(troundoff).lt(t_stop)) {
                    self.tstop = None;
                    return Err(DiffsolError::StopTimeBeforeCurrentTime);
                }
            }
            // re-arm the root finder at the replaced state
            if let Some(root_op) = problem.eqn.root() {
                if let Some(rf) = self.root_finder.as_mut() {
                    rf.init(root_op, &self.state.y, self.state.t);
                }
            }
            // and restart the history at first order, re-clipping to the
            // stop time over the rebuilt history
            self.initialise_to_first_order();
            if let Some(t_stop) = self.tstop {
                match self.set_stop_time(t_stop) {
                    Ok(_) => {},
                    Err(e) => {
                        return Err(e);
                    },
                }
            }
        }

        self.predict_forward();
        let ghost order_entry = self.state.order;

        // retry until the error test passes; every retry shrinks the step,
        // so the minimum step size bounds this loop long before the budget
        let mut safety = Eqn::T::one();
        let mut error_norm = Eqn::T::one();
        let mut accepted = false;
        let mut attempts: usize = 0;
        while !accepted && attempts < MAX_STEP_ATTEMPTS
            invariant
                self.sp_wf(),
                self.statistics.number_of_steps == old(self).statistics.number_of_steps,
                self.statistics.number_of_error_test_failures >= old(self).statistics.number_of_error_test_failures,
                self.statistics.number_of_nonlinear_solver_iterations >= old(self).statistics.number_of_nonlinear_solver_iterations,
                self.statistics.number_of_nonlinear_solver_fails >= old(self).statistics.number_of_nonlinear_solver_fails,
                self.statistics.number_of_linear_solver_setups >= old(self).statistics.number_of_linear_solver_setups,
                self.state.t == old(self).state.t,
                self.state.y == old(self).state.y,
                self.state.dy == old(self).state.dy,
                self.t_predict == self.state.t.sp_add(self.state.h),
                accepted ==> self.last_error_norm@.sp_le(Eqn::T::sp_one()),
                accepted ==> self.t_predict == self.state.t.sp_add(self.last_accepted_h@),
                self.state.g == old(self).state.g,
                accepted && old(self).s_deltas@.len() + 2 <= usize::MAX ==> self.last_error_norm@
                    == sp_error_norm::<Eqn::V>(
                    self.y_delta.vals(),
                    old(self).state.y.vals(),
                    old(self).ode_problem.atol.vals(),
                    old(self).ode_problem.rtol,
                    old(self).ode_problem.integrate_out && old(self).ode_problem.eqn.sp_has_out()
                        && old(self).ode_problem.out_rtol is Some
                        && old(self).ode_problem.out_atol is Some,
                    self.g_delta.vals(),
                    old(self).state.g.vals(),
                    old(self).ode_problem.out_atol.unwrap().vals(),
                    old(self).ode_problem.out_rtol.unwrap(),
                    self.s_deltas@.len() > 0 && self.sens_error_control,
                    self.s_deltas@,
                    self.state.s@,
                    old(self).ode_problem.sens_atol.unwrap().vals(),
                    old(self).ode_problem.sens_rtol.unwrap(),
                    order_entry as int,
                ),
                attempts <= MAX_STEP_ATTEMPTS,
                integrate_sens == (self.s_deltas@.len() > 0),
                self.s_deltas@.len() == old(self).s_deltas@.len(),
                problem == self.ode_problem,
                self.ode_problem == old(self).ode_problem,
                self.state.order == order_entry,
                order_entry == (if old(self).is_state_modified {
                    1int
                } else {
                    old(self).state.order as int
                }),
                accepted ==> self.state.h == self.last_accepted_h@,
                !self.is_state_modified,
                self.tstop == old(self).tstop,
                !(old(self).is_state_modified && old(self).tstop is Some && (sp_at_tstop(
                    old(self).state.t,
                    old(self).state.h,
                    old(self).tstop.unwrap(),
                ) || sp_tstop_behind(
                    old(self).state.t,
                    old(self).state.h,
                    old(self).tstop.unwrap(),
                ))),
            decreases MAX_STEP_ATTEMPTS - attempts,
        {
            attempts = attempts + 1;
            let order = self.state.order;
            self.y_delta.copy_from(&self.y_predict);

            // solve the implicit step equation from the prediction
            let solve_result = self.nonlinear_solver.solve_in_place(
                &self.op,
                &mut self.y_delta,
                self.t_predict,
                &self.y_predict,
            );
            self.statistics.number_of_nonlinear_solver_iterations = saturating_add(
                self.statistics.number_of_nonlinear_solver_iterations,
                self.nonlinear_solver.convergence().niter(),
            );

            let mut solve_ok = solve_result.is_ok();
            if solve_ok {
                // the correction is the solution minus the prediction
                self.y_delta.sub_assign(&self.y_predict);
                if integrate_out && output_in_error_control {
                    self.calculate_output_delta();
                }
                if integrate_sens {
                    if self.sensitivity_solve(self.t_predict).is_err() {
                        solve_ok = false;
                    }
                }
            }

            if !solve_ok {
                self.statistics.number_of_nonlinear_solver_fails = saturating_inc(
                    self.statistics.number_of_nonlinear_solver_fails,
                );
                if convergence_fail {
                    // the Jacobian was already refreshed: shrink the step
                    let new_h = match self.update_step_size(Eqn::T::ratio(3, 10)) {
                        Ok(h) => h,
                        Err(e) => {
                            return Err(e);
                        },
                    };
                    let order_now = self.state.order;
                    self.jacobian_updates(
                        new_h.mul(self.alpha[order_now]),
                        SolverState::SecondConvergenceFail,
                    );
                    self.predict_forward();
                } else {
                    // refresh the Jacobian and retry the same prediction
                    let order_now = self.state.order;
                    self.jacobian_updates(
                        self.state.h.mul(self.alpha[order_now]),
                        SolverState::FirstConvergenceFail,
                    );
                    convergence_fail = true;
                }
                continue ;
            }

            error_norm = self.error_control();

            // the safety factor rewards a cheap Newton solve
            let maxiter = Eqn::T::from_index(self.nonlinear_solver.convergence().max_iter());
            let niter = Eqn::T::from_index(self.nonlinear_solver.convergence().niter());
            let two = Eqn::T::ratio(2, 1);
            safety = Eqn::T::ratio(9, 10).mul(
                two.mul(maxiter).add(Eqn::T::one()).div(two.mul(maxiter).add(niter)),
            );

            if error_norm.le(Eqn::T::one()) {
                self.last_error_norm = Ghost(error_norm);
                self.last_accepted_h = Ghost(self.state.h);
                accepted = true;
            } else {
                // rejected: shrink the step by the classical factor
                let exponent = Eqn::T::ratio(-1, 2 * (order as i64 + 1));
                let mut factor = safety.mul(error_norm.pow(exponent));
                let min_factor = Eqn::T::ratio(1, 2);
                if factor.lt(min_factor) {
                    factor = min_factor;
                }
                let new_h = match self.update_step_size(factor) {
                    Ok(h) => h,
                    Err(e) => {
                        return Err(e);
                    },
                };
                let order_now = self.state.order;
                self.jacobian_updates(
                    new_h.mul(self.alpha[order_now]),
                    SolverState::ErrorTestFail,
                );
                self.predict_forward();
                self.statistics.number_of_error_test_failures = saturating_inc(
                    self.statistics.number_of_error_test_failures,
                );
            }
        }
        if !accepted {
            return Err(DiffsolError::StepSizeTooSmall);
        }

        // commit the accepted step
        self.update_differences_and_integrate_out();
        {
            self.state.y.copy_from(&self.y_predict);
            self.state.y.add_assign(&self.y_delta);
            self.state.t = self.t_predict;
            proof {
                self.state.diff.lemma_wf_columns();
            }
            let c1 = self.state.diff.column_clone(1);
            self.state.dy.copy_from(&c1);
            self.state.dy.scale_mut(Eqn::T::one().div(self.state.h));
        }
        self.last_history_column = Ghost(self.state.diff.sp_columns()[1]);
        self.statistics.number_of_steps = saturating_inc(self.statistics.number_of_steps);
        self.n_equal_steps = saturating_inc(self.n_equal_steps);

        self.last_equal_steps = Ghost(self.n_equal_steps);
        self.order_and_step_control(safety, error_norm);

        // scan the accepted step for roots
        if let Some(root_op) = problem.eqn.root() {
            if let Some(rf) = self.root_finder.as_mut() {
                let found = rf.check_root(
                    root_op,
                    &self.state.diff,
                    self.state.t,
                    self.state.h,
                    self.state.order,
                    &self.state.y,
                    self.state.t,
                );
                if let Some(root) = found {
                    return Ok(OdeSolverStopReason::RootFound(root));
                }
            }
        }

        self.tstop_check_h = Ghost(self.state.h);
        if let Some(tstop) = self.tstop {
            if let Some(reason) = self.advance_tstop(tstop) {
                return Ok(reason);
            }
        }

        Ok(OdeSolverStopReason::InternalTimestep)
    }
}

} // verus!
