//! Root (event) detection across an accepted step.
//!
//! The finder keeps the event vector observed at the end of the previous
//! step. After a step moves the state from `t_prev` to `t_now`, it evaluates
//! the event vector again; for every component whose sign changed it bisects
//! the interval, sampling the integrator's interpolant, until the bracket is
//! below a tolerance, and reports the earliest root found.

use vstd::prelude::*;

use crate::bdf_state::interpolate_from_diff;
use crate::matrix::{DenseMat, MatrixCommon};
use crate::op::{NonLinearOp, Op};
use crate::scalar::Scalar;
use crate::vector::{Vector, VectorCommon};

verus! {

/// The bisection budget: with a bracket halving each round, far more than
/// enough to reach the tolerance for any practical scalar.
const MAX_BISECTIONS: usize = 128;

/// Watches a user-supplied event vector for sign changes.
pub struct RootFinder<V: Vector> {
    pub g_prev: V,
    pub t_prev: V::T,
}

impl<V: Vector> RootFinder<V> {
    pub fn new(nroots: usize) -> (r: Self)
        ensures
            r.g_prev.vals().len() == nroots,
    {
        RootFinder { g_prev: V::zeros(nroots), t_prev: V::T::zero() }
    }

    /// Records the event vector at the starting point `(y, t)`.
    pub fn init<R: NonLinearOp<T = V::T, V = V>>(&mut self, root_op: &R, y: &V, t: V::T)
        requires
            root_op.sp_op_wf(),
            y.vals().len() == root_op.sp_nstates(),
            old(self).g_prev.vals().len() == root_op.sp_nout(),
        ensures
            final(self).g_prev.vals().len() == old(self).g_prev.vals().len(),
    {
        let mut g = V::zeros(root_op.nout());
        root_op.call_inplace(y, t, &mut g);
        self.g_prev.copy_from(&g);
        self.t_prev = t;
    }

    /// Scans `[t_prev, t_now]` for sign changes of the event vector at the
    /// new point `(y_new, t_now)`, bisecting on the interpolant of the
    /// history `diff` (ending at `t1` with step `h` and order `order`).
    /// Returns the earliest root found, and re-arms the finder at
    /// `(y_new, t_now)` either way: afterwards `g_prev` holds the event
    /// vector at the new point. A root is reported exactly when some
    /// component's sign product against the previous point is negative.
    #[verifier::loop_isolation(false)]
    pub fn check_root<R: NonLinearOp<T = V::T, V = V>>(
        &mut self,
        root_op: &R,
        diff: &DenseMat<V>,
        t1: V::T,
        h: V::T,
        order: usize,
        y_new: &V,
        t_now: V::T,
    ) -> (r: Option<V::T>)
        requires
            root_op.sp_op_wf(),
            y_new.vals().len() == root_op.sp_nstates(),
            old(self).g_prev.vals().len() == root_op.sp_nout(),
            diff.wf(),
            diff.sp_nrows() == root_op.sp_nstates(),
            order <= crate::bdf_state::MAX_ORDER,
            order < diff.sp_ncols(),
        ensures
            final(self).g_prev.vals().len() == old(self).g_prev.vals().len(),
            final(self).t_prev == t_now,
            r is None ==> (forall|i: int|
                0 <= i < root_op.sp_nout() ==> !((#[trigger] old(self).g_prev.vals()[i]).sp_mul(
                    final(self).g_prev.vals()[i],
                ).sp_lt(V::T::sp_zero()))),
            r is Some ==> (exists|i: int|
                0 <= i < root_op.sp_nout() && (#[trigger] old(self).g_prev.vals()[i]).sp_mul(
                    final(self).g_prev.vals()[i],
                ).sp_lt(V::T::sp_zero())),
    {
        let nroots = root_op.nout();
        let mut g_now = V::zeros(nroots);
        root_op.call_inplace(y_new, t_now, &mut g_now);
        let t_lo_all = self.t_prev;

        let mut best: Option<V::T> = None;
        let mut i: usize = 0;
        while i < nroots
            invariant
                i <= nroots,
                nroots == root_op.sp_nout(),
                root_op.sp_op_wf(),
                diff.wf(),
                diff.sp_nrows() == root_op.sp_nstates(),
                order <= crate::bdf_state::MAX_ORDER,
                order < diff.sp_ncols(),
                g_now.vals().len() == nroots,
                self.g_prev == old(self).g_prev,
                self.g_prev.vals().len() == nroots,
                self.t_prev == old(self).t_prev,
                best is None ==> (forall|q: int|
                    0 <= q < i ==> !((#[trigger] self.g_prev.vals()[q]).sp_mul(
                        g_now.vals()[q],
                    ).sp_lt(V::T::sp_zero()))),
                best is Some ==> (exists|q: int|
                    0 <= q < nroots && (#[trigger] self.g_prev.vals()[q]).sp_mul(
                        g_now.vals()[q],
                    ).sp_lt(V::T::sp_zero())),
            decreases nroots - i,
        {
            let gp = self.g_prev.get(i);
            let gn = g_now.get(i);
            if gp.mul(gn).lt(V::T::zero()) {
                // a sign change: bisect the bracket down to a tolerance
                let mut a = t_lo_all;
                let mut b = t_now;
                let mut ga = gp;
                let mut rounds: usize = 0;
                while rounds < MAX_BISECTIONS
                    invariant
                        i < nroots,
                        root_op.sp_op_wf(),
                        nroots == root_op.sp_nout(),
                        diff.wf(),
                        diff.sp_nrows() == root_op.sp_nstates(),
                        order <= crate::bdf_state::MAX_ORDER,
                        order < diff.sp_ncols(),
                        rounds <= MAX_BISECTIONS,
                    decreases MAX_BISECTIONS - rounds,
                {
                    let tol = V::T::ratio(100, 1).mul(V::T::epsilon()).mul(
                        a.abs().add(b.abs()),
                    );
                    if b.sub(a).abs().le(tol) {
                        break ;
                    }
                    let mid = a.add(b.sub(a).div(V::T::ratio(2, 1)));
                    let y_mid = interpolate_from_diff(mid, diff, t1, h, order);
                    let mut g_mid = V::zeros(nroots);
                    root_op.call_inplace(&y_mid, mid, &mut g_mid);
                    let gm = g_mid.get(i);
                    if ga.mul(gm).lt(V::T::zero()) {
                        b = mid;
                    } else {
                        a = mid;
                        ga = gm;
                    }
                    rounds = rounds + 1;
                }
                let root = b;
                best = match best {
                    Some(prev) => {
                        if root.lt(prev) {
                            Some(root)
                        } else {
                            Some(prev)
                        }
                    },
                    None => Some(root),
                };
            }
            i = i + 1;
        }
        self.g_prev.copy_from(&g_now);
        self.t_prev = t_now;
        best
    }
}

} // verus!
