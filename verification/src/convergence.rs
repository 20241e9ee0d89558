//! The Newton convergence controller.
//!
//! Per iteration it is given the latest correction and the current iterate,
//! computes the weighted norm, and decides whether the iteration has
//! converged, diverged, may continue, or has exhausted its budget. The
//! decision rule is the classical one for implicit multistep methods: stop
//! when the Dahlquist rate estimate predicts the remaining error is below a
//! tolerance derived from the problem's relative tolerance.

use vstd::prelude::*;

use crate::scalar::Scalar;
use crate::vector::{weighted_sq_norm, Vector, VectorCommon};

verus! {

/// The verdict on one Newton iteration.
#[derive(Clone, Copy, Debug, PartialEq, Eq, Structural)]
pub enum ConvergenceStatus {
    Converged,
    Diverged,
    Continue,
    MaximumIterations,
}

/// The tolerance the controller tests against:
/// `clamp(0.5 * rtol^0.5, 10 * epsilon / rtol, 0.03)`.
pub open spec fn sp_newton_tol<T: Scalar>(rtol: T) -> T {
    let minimum_tol = T::sp_ratio(10, 1).sp_mul(T::sp_epsilon()).sp_div(rtol);
    let maximum_tol = T::sp_ratio(3, 100);
    let tol = T::sp_ratio(1, 2).sp_mul(rtol.sp_pow(T::sp_ratio(1, 2)));
    let tol = if maximum_tol.sp_lt(tol) {
        maximum_tol
    } else {
        tol
    };
    if tol.sp_lt(minimum_tol) {
        minimum_tol
    } else {
        tol
    }
}

/// Newton stop/diverge decisions with rate estimation.
pub struct Convergence<V: Vector> {
    pub rtol: V::T,
    pub atol: V,
    pub tol: V::T,
    pub max_iter: usize,
    pub iter: usize,
    pub old_norm: Option<V::T>,
}

impl<V: Vector> Convergence<V> {
    pub open spec fn sp_rtol(&self) -> V::T {
        self.rtol
    }

    pub open spec fn sp_atol(&self) -> Seq<V::T> {
        self.atol.vals()
    }

    pub open spec fn sp_tol(&self) -> V::T {
        self.tol
    }

    pub open spec fn sp_max_iter(&self) -> usize {
        self.max_iter
    }

    pub open spec fn sp_iter(&self) -> usize {
        self.iter
    }

    pub open spec fn sp_old_norm(&self) -> Option<V::T> {
        self.old_norm
    }

    /// The iteration counter never passes its budget.
    pub open spec fn wf(&self) -> bool {
        self.iter <= self.max_iter && self.max_iter <= 0x7fff_ffff && 1 <= self.max_iter
    }

    pub fn new(rtol: V::T, atol: V, max_iter: usize) -> (r: Self)
        requires
            1 <= max_iter <= 0x7fff_ffff,
        ensures
            r.wf(),
            r.sp_rtol() == rtol,
            r.sp_atol() == atol.vals(),
            r.sp_tol() == sp_newton_tol(rtol),
            r.sp_max_iter() == max_iter,
            r.sp_iter() == 0,
            r.sp_old_norm() is None,
    {
        let minimum_tol = V::T::ratio(10, 1).mul(V::T::epsilon()).div(rtol);
        let maximum_tol = V::T::ratio(3, 100);
        let mut tol = V::T::ratio(1, 2).mul(rtol.pow(V::T::ratio(1, 2)));
        if maximum_tol.lt(tol) {
            tol = maximum_tol;
        }
        if tol.lt(minimum_tol) {
            tol = minimum_tol;
        }
        Convergence { rtol, atol, tol, max_iter, iter: 0, old_norm: None }
    }

    pub fn niter(&self) -> (r: usize)
        ensures
            r == self.sp_iter(),
    {
        self.iter
    }

    pub fn max_iter(&self) -> (r: usize)
        ensures
            r == self.sp_max_iter(),
    {
        self.max_iter
    }

    pub fn set_max_iter(&mut self, max_iter: usize)
        requires
            1 <= max_iter <= 0x7fff_ffff,
            old(self).sp_iter() <= max_iter,
        ensures
            final(self).wf(),
            *final(self) == (Convergence { max_iter, ..*old(self) }),
    {
        self.max_iter = max_iter;
    }

    pub fn reset(&mut self)
        requires
            old(self).wf(),
        ensures
            final(self).wf(),
            *final(self) == (Convergence { iter: 0, old_norm: None, ..*old(self) }),
    {
        self.iter = 0;
        self.old_norm = None;
    }

    /// Judges the latest correction `dy` against the current iterate `y`.
    ///
    /// With `eta` the weighted norm of `dy`: converged at once when `eta` is
    /// below machine epsilon; with a previous norm recorded and
    /// `rate = eta / eta_prev`, diverged when the rate reaches one, converged
    /// when `rate / (1 - rate) * eta` is below the tolerance, and diverged
    /// when the rate predicts the remaining allowed iterations cannot reach
    /// it; otherwise the norm is recorded and the iteration may continue
    /// until the budget is spent.
    pub fn check_new_iteration(&mut self, dy: &mut V, y: &V) -> (r: ConvergenceStatus)
        requires
            old(self).wf(),
            old(self).sp_iter() < old(self).sp_max_iter(),
            old(dy).vals().len() == y.vals().len(),
            old(self).sp_atol().len() == y.vals().len(),
        ensures
            final(self).wf(),
            *final(dy) == *old(dy),
            ({
                let norm = weighted_sq_norm(
                    old(dy).vals(),
                    y.vals(),
                    old(self).sp_atol(),
                    old(self).sp_rtol(),
                ).sp_sqrt();
                let unchanged = *final(self) == *old(self);
                let advanced = *final(self) == (Convergence {
                    iter: (old(self).sp_iter() + 1) as usize,
                    old_norm: Some(norm),
                    ..*old(self)
                });
                if norm.sp_le(V::T::sp_epsilon()) {
                    r == ConvergenceStatus::Converged && unchanged
                } else if old(self).sp_old_norm() is Some {
                    let old_norm = old(self).sp_old_norm().unwrap();
                    let rate = norm.sp_div(old_norm);
                    if V::T::sp_one().sp_le(rate) {
                        r == ConvergenceStatus::Diverged && unchanged
                    } else if rate.sp_div(V::T::sp_one().sp_sub(rate)).sp_mul(norm).sp_lt(
                        old(self).sp_tol(),
                    ) {
                        r == ConvergenceStatus::Converged && unchanged
                    } else if old(self).sp_tol().sp_lt(
                        rate.sp_powi(
                            old(self).sp_max_iter() - old(self).sp_iter(),
                        ).sp_div(V::T::sp_one().sp_sub(rate)).sp_mul(norm),
                    ) {
                        r == ConvergenceStatus::Diverged && unchanged
                    } else {
                        advanced && r == (if old(self).sp_iter() + 1 >= old(self).sp_max_iter() {
                            ConvergenceStatus::MaximumIterations
                        } else {
                            ConvergenceStatus::Continue
                        })
                    }
                } else {
                    advanced && r == (if old(self).sp_iter() + 1 >= old(self).sp_max_iter() {
                        ConvergenceStatus::MaximumIterations
                    } else {
                        ConvergenceStatus::Continue
                    })
                }
            }),
            r == ConvergenceStatus::Continue ==> final(self).sp_iter() < final(self).sp_max_iter(),
    {
        let norm = dy.squared_norm(y, &self.atol, self.rtol).sqrt();
        // a vanishing correction converges at once
        if norm.le(V::T::epsilon()) {
            return ConvergenceStatus::Converged;
        }
        if let Some(old_norm) = self.old_norm {
            let rate = norm.div(old_norm);
            if V::T::one().le(rate) {
                return ConvergenceStatus::Diverged;
            }
            // converged when the rate estimate bounds the remaining error
            if rate.div(V::T::one().sub(rate)).mul(norm).lt(self.tol) {
                return ConvergenceStatus::Converged;
            }
            // diverged when the remaining allowed iterations cannot reach the
            // tolerance at the current rate
            let remaining = self.max_iter - self.iter;
            if self.tol.lt(rate.powi(remaining as i32).div(V::T::one().sub(rate)).mul(norm)) {
                return ConvergenceStatus::Diverged;
            }
        }
        self.iter = self.iter + 1;
        self.old_norm = Some(norm);
        if self.iter >= self.max_iter {
            ConvergenceStatus::MaximumIterations
        } else {
            ConvergenceStatus::Continue
        }
    }
}

} // verus!
