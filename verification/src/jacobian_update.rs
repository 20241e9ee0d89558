//! The Jacobian-reuse policy.
//!
//! Factoring the iteration matrix `M - c * J` dominates the cost of large
//! stiff systems, so the solver re-evaluates the Jacobian `J` and re-factors
//! the matrix only on material change. The full Jacobian is refreshed after
//! two consecutive Newton convergence failures, at a checkpoint, while no
//! Jacobian is known yet, or when the BDF prefactor `c = h * alpha_k` has
//! moved by more than a relative threshold since the last refresh; the
//! factorization alone is renewed on a second, tighter threshold.

use vstd::prelude::*;

use crate::scalar::Scalar;

verus! {

/// Where in the step the policy is being consulted.
#[derive(Clone, Copy, Debug, PartialEq, Eq, Structural)]
pub enum SolverState {
    /// Newton failed to converge once at this step.
    FirstConvergenceFail,
    /// Newton failed again after the Jacobian was already refreshed.
    SecondConvergenceFail,
    /// The step failed the error test.
    ErrorTestFail,
    /// The step was accepted.
    StepSuccess,
    /// A checkpoint is being taken.
    Checkpoint,
}

/// The relative movement of `c` against a threshold:
/// `|c / c_prev - 1| > threshold`.
pub open spec fn sp_c_moved<T: Scalar>(c: T, c_prev: T, threshold: T) -> bool {
    threshold.sp_lt(c.sp_div(c_prev).sp_sub(T::sp_one()).sp_abs())
}

/// Decides, per step, whether to refresh the Jacobian or re-factor the
/// iteration matrix. `c_prev` is the prefactor at the last factorization.
pub struct JacobianUpdate<T: Scalar> {
    pub c_prev: T,
    pub rhs_jacobian_known: bool,
}

impl<T: Scalar> JacobianUpdate<T> {
    /// The relative change in `c` above which the Jacobian is refreshed,
    /// as a ratio: three tenths.
    pub fn threshold_rhs_jacobian() -> (r: T)
        ensures
            r == T::sp_ratio(3, 10),
    {
        T::ratio(3, 10)
    }

    /// The tighter relative change in `c` above which the iteration matrix
    /// is re-factored, as a ratio: one fifth.
    pub fn threshold_iteration_matrix() -> (r: T)
        ensures
            r == T::sp_ratio(1, 5),
    {
        T::ratio(1, 5)
    }

    pub fn new() -> (r: Self)
        ensures
            !r.rhs_jacobian_known,
    {
        JacobianUpdate { c_prev: T::one(), rhs_jacobian_known: false }
    }

    /// Whether the full right-hand-side Jacobian must be re-evaluated.
    pub fn check_rhs_jacobian_update(&self, c: T, state: &SolverState) -> (r: bool)
        ensures
            r == (!self.rhs_jacobian_known || *state == SolverState::SecondConvergenceFail
                || *state == SolverState::Checkpoint || sp_c_moved(
                c,
                self.c_prev,
                T::sp_ratio(3, 10),
            )),
    {
        if !self.rhs_jacobian_known {
            return true;
        }
        if matches!(state, SolverState::SecondConvergenceFail) {
            return true;
        }
        if matches!(state, SolverState::Checkpoint) {
            return true;
        }
        let moved = c.div(self.c_prev).sub(T::one()).abs();
        Self::threshold_rhs_jacobian().lt(moved)
    }

    /// Whether the iteration matrix must be re-factored even though the
    /// Jacobian is kept.
    pub fn check_jacobian_update(&self, c: T, state: &SolverState) -> (r: bool)
        ensures
            r == (*state == SolverState::SecondConvergenceFail || sp_c_moved(
                c,
                self.c_prev,
                T::sp_ratio(1, 5),
            )),
    {
        if matches!(state, SolverState::SecondConvergenceFail) {
            return true;
        }
        let moved = c.div(self.c_prev).sub(T::one()).abs();
        Self::threshold_iteration_matrix().lt(moved)
    }

    /// Records that the iteration matrix was factored at prefactor `c`.
    pub fn update_jacobian(&mut self, c: T)
        ensures
            *final(self) == (JacobianUpdate {
                c_prev: c,
                rhs_jacobian_known: old(self).rhs_jacobian_known,
            }),
    {
        self.c_prev = c;
    }

    /// Records that the right-hand-side Jacobian was re-evaluated.
    pub fn update_rhs_jacobian(&mut self)
        ensures
            *final(self) == (JacobianUpdate { c_prev: old(self).c_prev, rhs_jacobian_known: true }),
    {
        self.rhs_jacobian_known = true;
    }
}

impl<T: Scalar> Default for JacobianUpdate<T> {
    /// Starts with no Jacobian known.
    fn default() -> (r: Self)
        ensures
            !r.rhs_jacobian_known,
    {
        Self::new()
    }
}

} // verus!
