//! The Newton nonlinear solver.
//!
//! Solves `G(x) = 0` for a supplied residual operator by iterating
//! `delta = A^-1 * G(x); x <- x - delta` against a factorization `A` of the
//! residual's iteration matrix that is owned by the injected linear solver
//! and persists across calls. The convergence controller terminates each
//! solve; on failure the call reports an error and leaves the factorization
//! untouched.

use vstd::prelude::*;

use crate::convergence::{Convergence, ConvergenceStatus};
use crate::scalar::Scalar;
use crate::error::DiffsolError;
use crate::linear_solver::LinearSolver;
use crate::matrix::MatrixCommon;
use crate::op::{NonLinearOp, Op};
use crate::vector::{Vector, VectorCommon};

verus! {

/// A Newton iteration on a residual operator, owning the convergence
/// controller and the injected linear solver.
#[verifier::reject_recursive_types(V)]
pub struct NewtonNonlinearSolver<V: Vector, LS: LinearSolver<T = V::T, V = V>> {
    pub convergence: Convergence<V>,
    pub linear_solver: LS,
    /// Whether the last solve ended with the controller judging the
    /// iteration converged.
    pub last_solve_converged: Ghost<bool>,
    /// The correction the controller judged last.
    pub last_correction: Ghost<Seq<V::T>>,
    /// The iterate the controller judged the correction against.
    pub last_iterate: Ghost<Seq<V::T>>,
}

impl<V: Vector, LS: LinearSolver<T = V::T, V = V>> NewtonNonlinearSolver<V, LS> {
    /// The controller is in a usable shape for a problem of `n` states.
    pub open spec fn sp_wf(&self, n: nat) -> bool {
        self.convergence.wf() && self.convergence.sp_atol().len() == n
    }

    pub fn new(linear_solver: LS, rtol: V::T, atol: V, max_iter: usize) -> (r: Self)
        requires
            1 <= max_iter <= 0x7fff_ffff,
        ensures
            r.sp_wf(atol.vals().len()),
            r.convergence.sp_max_iter() == max_iter,
    {
        NewtonNonlinearSolver {
            convergence: Convergence::new(rtol, atol, max_iter),
            linear_solver,
            last_solve_converged: Ghost(false),
            last_correction: Ghost(Seq::empty()),
            last_iterate: Ghost(Seq::empty()),
        }
    }

    pub fn convergence(&self) -> (r: &Convergence<V>)
        ensures
            r == &self.convergence,
    {
        &self.convergence
    }

    /// Replaces the stored factorization with one of the given iteration
    /// matrix. A singular matrix is reported and the previous factorization
    /// is lost.
    pub fn reset_jacobian(&mut self, m: &LS::M) -> (r: Result<(), DiffsolError>)
        requires
            m.sp_nrows() == m.sp_ncols(),
        ensures
            final(self).convergence == old(self).convergence,
    {
        self.linear_solver.set_linearisation(m)
    }

    /// Solves against the stored factorization alone: `b <- A^-1 * b`.
    pub fn solve_linearised_in_place(&self, b: &mut V) -> (r: Result<(), DiffsolError>)
        ensures
            final(b).vals().len() == old(b).vals().len(),
            r matches Err(e) ==> e == DiffsolError::LinearSolveFailure,
    {
        self.linear_solver.solve_in_place(b)
    }

    /// Newton-iterates `x` from the starting point `x0` until the
    /// convergence controller stops the iteration.
    ///
    /// Returns `Ok` exactly when the controller judged the iteration
    /// converged; a divergence or an exhausted iteration budget is
    /// `NewtonDidNotConverge`, and a failed linear solve is
    /// `LinearSolveFailure`. The controller's iteration counter is left at
    /// the number of iterations spent, for the step policy to read.
    pub fn solve_in_place<C: NonLinearOp<T = V::T, V = V>>(
        &mut self,
        op: &C,
        x: &mut V,
        t: V::T,
        x0: &V,
    ) -> (r: Result<(), DiffsolError>)
        requires
            op.sp_op_wf(),
            op.sp_nout() == op.sp_nstates(),
            old(self).sp_wf(op.sp_nstates()),
            old(x).vals().len() == op.sp_nstates(),
            x0.vals().len() == op.sp_nstates(),
        ensures
            final(self).sp_wf(op.sp_nstates()),
            final(self).convergence.sp_rtol() == old(self).convergence.sp_rtol(),
            final(self).convergence.sp_atol() == old(self).convergence.sp_atol(),
            final(self).convergence.sp_max_iter() == old(self).convergence.sp_max_iter(),
            final(x).vals().len() == old(x).vals().len(),
            r is Ok <==> final(self).last_solve_converged@,
            r is Ok ==> ({
                let norm = crate::vector::weighted_sq_norm(
                    final(self).last_correction@,
                    final(self).last_iterate@,
                    final(self).convergence.sp_atol(),
                    final(self).convergence.sp_rtol(),
                ).sp_sqrt();
                final(self).last_iterate@ == final(x).vals() && (norm.sp_le(V::T::sp_epsilon())
                    || (final(self).convergence.sp_old_norm() is Some && ({
                    let rate = norm.sp_div(final(self).convergence.sp_old_norm().unwrap());
                    !V::T::sp_one().sp_le(rate) && rate.sp_div(
                        V::T::sp_one().sp_sub(rate),
                    ).sp_mul(norm).sp_lt(final(self).convergence.sp_tol())
                })))
            }),
            r matches Err(e) ==> e == DiffsolError::NewtonDidNotConverge || e
                == DiffsolError::LinearSolveFailure,
    {
        let n = op.nstates();
        x.copy_from(x0);
        self.convergence.reset();
        self.last_solve_converged = Ghost(false);
        let mut delta = V::zeros(n);
        loop
            invariant
                op.sp_op_wf(),
                op.sp_nout() == op.sp_nstates(),
                n == op.sp_nstates(),
                self.convergence.wf(),
                self.convergence.sp_iter() < self.convergence.sp_max_iter(),
                self.convergence.sp_atol().len() == n,
                self.convergence.sp_rtol() == old(self).convergence.sp_rtol(),
                self.convergence.sp_atol() == old(self).convergence.sp_atol(),
                self.convergence.sp_max_iter() == old(self).convergence.sp_max_iter(),
                x.vals().len() == n,
                old(x).vals().len() == n,
                delta.vals().len() == n,
                !self.last_solve_converged@,
            decreases self.convergence.sp_max_iter() - self.convergence.sp_iter(),
        {
            op.call_inplace(x, t, &mut delta);
            let solve_result = self.linear_solver.solve_in_place(&mut delta);
            if let Err(e) = solve_result {
                return Err(e);
            }
            x.sub_assign(&delta);
            self.last_correction = Ghost(delta.vals());
            self.last_iterate = Ghost(x.vals());
            match self.convergence.check_new_iteration(&mut delta, x) {
                ConvergenceStatus::Converged => {
                    self.last_solve_converged = Ghost(true);
                    return Ok(());
                },
                ConvergenceStatus::Diverged => {
                    return Err(DiffsolError::NewtonDidNotConverge);
                },
                ConvergenceStatus::MaximumIterations => {
                    return Err(DiffsolError::NewtonDidNotConverge);
                },
                ConvergenceStatus::Continue => {
                },
            }
        }
    }
}

} // verus!
