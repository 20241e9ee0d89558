//! The BDF residual, wrapped as a nonlinear operator.
//!
//! For a predicted value `y0` and a history contribution `psi`, the implicit
//! step equation in Newton form is
//!
//! `G(y) = M * (y - y0 + psi) - c * F(t, y) = 0`
//!
//! where `c = h * alpha_k` is the BDF prefactor; its Jacobian is the
//! iteration matrix `M - c * J`. The callable borrows the equations bundle,
//! carries `c`, `psi` and `y0` across Newton iterations, and caches the
//! right-hand-side Jacobian until it is marked stale.

use vstd::prelude::*;

use crate::equations::OdeEquations;
use crate::bdf_state::MAX_ORDER;
use crate::matrix::{DenseMat, Matrix, MatrixCommon};
use crate::op::{jacobian_by_column_probing, LinearOp, NonLinearOp, Op};
use crate::scalar::Scalar;
use crate::vector::{Vector, VectorCommon};

verus! {

/// The sum `gamma[1] * cols[1][i] + ... + gamma[m] * cols[m][i]`, summed
/// left to right from zero.
pub open spec fn sp_psi_sum<T: Scalar>(cols: Seq<Seq<T>>, gamma: Seq<T>, m: int, i: int) -> T
    decreases m,
{
    if m <= 0 {
        T::sp_zero()
    } else {
        sp_psi_sum(cols, gamma, m - 1, i).sp_add(gamma[m].sp_mul(cols[m][i]))
    }
}

/// The history contribution
/// `psi = alpha[order] * (gamma[1] * diff[:,1] + ... + gamma[order] * diff[:,order])`.
pub fn compute_psi<V: Vector>(
    diff: &DenseMat<V>,
    gamma: &Vec<V::T>,
    alpha: &Vec<V::T>,
    order: usize,
) -> (r: V)
    requires
        diff.wf(),
        order <= MAX_ORDER,
        order + 1 <= diff.sp_ncols(),
        order < gamma@.len(),
        order < alpha@.len(),
    ensures
        r.vals().len() == diff.sp_nrows(),
        forall|i: int|
            0 <= i < diff.sp_nrows() ==> #[trigger] r.vals()[i] == alpha@[order as int].sp_mul(
                sp_psi_sum(diff.sp_columns(), gamma@, order as int, i),
            ),
{
    let n = diff.nrows();
    let mut psi = V::zeros(n);
    let mut m: usize = 1;
    while m <= order
        invariant
            1 <= m <= order + 1,
            order <= MAX_ORDER,
            diff.wf(),
            diff.sp_nrows() == n,
            order + 1 <= diff.sp_ncols(),
            order < gamma@.len(),
            psi.vals().len() == n,
            forall|i: int|
                0 <= i < n ==> #[trigger] psi.vals()[i] == sp_psi_sum(
                    diff.sp_columns(),
                    gamma@,
                    m - 1,
                    i,
                ),
        decreases order + 1 - m,
    {
        diff.add_scaled_column_to(m, gamma[m], &mut psi);
        m = m + 1;
    }
    psi.scale_mut(alpha[order]);
    psi
}

/// The BDF residual `G(y) = M * (y - y0 + psi) - c * F(t, y)`, holding the
/// prefactor, the history contribution, the prediction, and the cached
/// Jacobian.
pub struct BdfCallable<'a, Eqn: OdeEquations> {
    pub eqn: &'a Eqn,
    pub c: Eqn::T,
    pub psi: Eqn::V,
    pub y0: Eqn::V,
    pub rhs_jac: Eqn::M,
    pub mass_matrix: Eqn::M,
    pub jacobian_is_stale: bool,
    pub number_of_jac_evals: usize,
}

impl<'a, Eqn: OdeEquations> BdfCallable<'a, Eqn> {
    /// The bundle is consistent and every buffer matches its state
    /// dimension.
    pub open spec fn sp_wf(&self) -> bool {
        &&& self.eqn.sp_wf()
        &&& self.psi.vals().len() == self.eqn.sp_nstates()
        &&& self.y0.vals().len() == self.eqn.sp_nstates()
        &&& self.rhs_jac.sp_nrows() == self.eqn.sp_nstates()
        &&& self.rhs_jac.sp_ncols() == self.eqn.sp_nstates()
        &&& self.mass_matrix.sp_nrows() == self.eqn.sp_nstates()
        &&& self.mass_matrix.sp_ncols() == self.eqn.sp_nstates()
    }

    pub fn new(eqn: &'a Eqn) -> (r: Self)
        requires
            eqn.sp_wf(),
        ensures
            r.sp_wf(),
            r.eqn == eqn,
            r.number_of_jac_evals == 0,
    {
        let n = eqn.rhs().nstates();
        let identity = Eqn::M::from_diagonal(&Eqn::V::from_element(n, Eqn::T::one()));
        BdfCallable {
            eqn,
            c: Eqn::T::zero(),
            psi: Eqn::V::zeros(n),
            y0: Eqn::V::zeros(n),
            rhs_jac: Eqn::M::zeros(n, n),
            mass_matrix: identity,
            jacobian_is_stale: true,
            number_of_jac_evals: 0,
        }
    }

    /// Sets the prefactor `c = h * alpha_k` for the current step and order.
    pub fn set_c(&mut self, h: Eqn::T, alpha: Eqn::T)
        ensures
            final(self).c == h.sp_mul(alpha),
            *final(self) == (BdfCallable { c: h.sp_mul(alpha), ..*old(self) }),
    {
        self.c = h.mul(alpha);
    }

    /// Sets the prediction `y0` and the history contribution
    /// `psi = alpha_k * (gamma[1] * diff[:,1] + ... + gamma[k] * diff[:,k])`.
    pub fn set_psi_and_y0(
        &mut self,
        diff: &DenseMat<Eqn::V>,
        gamma: &Vec<Eqn::T>,
        alpha: &Vec<Eqn::T>,
        order: usize,
        y0: &Eqn::V,
    )
        requires
            old(self).sp_wf(),
            diff.wf(),
            diff.sp_nrows() == old(self).eqn.sp_nstates(),
            order <= MAX_ORDER,
            order + 1 <= diff.sp_ncols(),
            order < gamma@.len(),
            order < alpha@.len(),
            y0.vals().len() == old(self).eqn.sp_nstates(),
        ensures
            final(self).sp_wf(),
            final(self).eqn == old(self).eqn,
            final(self).c == old(self).c,
            final(self).rhs_jac == old(self).rhs_jac,
            final(self).mass_matrix == old(self).mass_matrix,
            final(self).jacobian_is_stale == old(self).jacobian_is_stale,
            final(self).number_of_jac_evals == old(self).number_of_jac_evals,
            final(self).y0.vals() == y0.vals(),
            forall|i: int|
                0 <= i < old(self).eqn.sp_nstates() ==> #[trigger] final(self).psi.vals()[i]
                    == alpha@[order as int].sp_mul(
                    sp_psi_sum(diff.sp_columns(), gamma@, order as int, i),
                ),
    {
        let n = self.psi.len();
        let mut psi = Eqn::V::zeros(n);
        let mut m: usize = 1;
        while m <= order
            invariant
                1 <= m <= order + 1,
                order <= MAX_ORDER,
                n == old(self).eqn.sp_nstates(),
                diff.wf(),
                diff.sp_nrows() == n,
                order + 1 <= diff.sp_ncols(),
                order < gamma@.len(),
                psi.vals().len() == n,
                forall|i: int|
                    0 <= i < n ==> #[trigger] psi.vals()[i] == sp_psi_sum(
                        diff.sp_columns(),
                        gamma@,
                        m - 1,
                        i,
                    ),
            decreases order + 1 - m,
        {
            diff.add_scaled_column_to(m, gamma[m], &mut psi);
            m = m + 1;
        }
        psi.scale_mut(alpha[order]);
        self.psi = psi;
        self.y0.copy_from(y0);
    }

    /// Marks the cached right-hand-side Jacobian as needing re-evaluation.
    pub fn set_jacobian_is_stale(&mut self)
        ensures
            *final(self) == (BdfCallable { jacobian_is_stale: true, ..*old(self) }),
    {
        self.jacobian_is_stale = true;
    }

    /// How many times the Jacobian was re-evaluated.
    pub fn number_of_jac_evals(&self) -> (r: usize)
        ensures
            r == self.number_of_jac_evals,
    {
        self.number_of_jac_evals
    }

    /// Writes the iteration matrix `M - c * J` into `out`, re-evaluating the
    /// cached Jacobian `J` at `(x, t)` first when it is stale, and the mass
    /// matrix when the problem has a time-dependent one.
    pub fn write_iteration_matrix(&mut self, x: &Eqn::V, t: Eqn::T, out: &mut Eqn::M)
        requires
            old(self).sp_wf(),
            x.vals().len() == old(self).eqn.sp_nstates(),
            old(out).sp_nrows() == old(self).eqn.sp_nstates(),
            old(out).sp_ncols() == old(self).eqn.sp_nstates(),
        ensures
            final(self).sp_wf(),
            final(self).eqn == old(self).eqn,
            final(self).c == old(self).c,
            final(self).psi == old(self).psi,
            final(self).y0 == old(self).y0,
            !final(self).jacobian_is_stale,
            final(self).number_of_jac_evals >= old(self).number_of_jac_evals,
            final(out).sp_nrows() == old(out).sp_nrows(),
            final(out).sp_ncols() == old(out).sp_ncols(),
    {
        if self.jacobian_is_stale {
            self.eqn.rhs().jacobian_inplace(x, t, &mut self.rhs_jac);
            self.jacobian_is_stale = false;
            if self.number_of_jac_evals < usize::MAX {
                self.number_of_jac_evals = self.number_of_jac_evals + 1;
            }
        }
        if let Some(mass) = self.eqn.mass() {
            mass.matrix_inplace(t, &mut self.mass_matrix);
        }
        out.scale_add_and_assign(&self.mass_matrix, self.c.neg(), &self.rhs_jac);
    }

    /// The BDF update for an integrated output channel:
    /// `g_delta = c * dg - psi_g`, with `psi_g` formed from the output
    /// history `gdiff` as in `set_psi_and_y0`.
    pub fn integrate_out(
        &self,
        dg: &Eqn::V,
        gdiff: &DenseMat<Eqn::V>,
        gamma: &Vec<Eqn::T>,
        alpha: &Vec<Eqn::T>,
        order: usize,
        g_delta: &mut Eqn::V,
    )
        requires
            gdiff.wf(),
            gdiff.sp_nrows() == dg.vals().len(),
            order <= MAX_ORDER,
            order + 1 <= gdiff.sp_ncols(),
            order < gamma@.len(),
            order < alpha@.len(),
            old(g_delta).vals().len() == dg.vals().len(),
        ensures
            final(g_delta).vals().len() == old(g_delta).vals().len(),
            forall|i: int|
                0 <= i < dg.vals().len() ==> #[trigger] final(g_delta).vals()[i]
                    == self.c.sp_mul(dg.vals()[i]).sp_sub(
                    alpha@[order as int].sp_mul(
                        sp_psi_sum(gdiff.sp_columns(), gamma@, order as int, i),
                    ),
                ),
    {
        let n = dg.len();
        let mut psi = Eqn::V::zeros(n);
        let mut m: usize = 1;
        while m <= order
            invariant
                1 <= m <= order + 1,
                order <= MAX_ORDER,
                n == dg.vals().len(),
                gdiff.wf(),
                gdiff.sp_nrows() == n,
                order + 1 <= gdiff.sp_ncols(),
                order < gamma@.len(),
                psi.vals().len() == n,
                forall|i: int|
                    0 <= i < n ==> #[trigger] psi.vals()[i] == sp_psi_sum(
                        gdiff.sp_columns(),
                        gamma@,
                        m - 1,
                        i,
                    ),
            decreases order + 1 - m,
        {
            gdiff.add_scaled_column_to(m, gamma[m], &mut psi);
            m = m + 1;
        }
        psi.scale_mut(alpha[order]);
        g_delta.copy_from(dg);
        g_delta.scale_mut(self.c);
        g_delta.sub_assign(&psi);
    }
}

impl<'a, Eqn: OdeEquations> Op for BdfCallable<'a, Eqn> {
    type T = Eqn::T;

    type V = Eqn::V;

    type M = Eqn::M;

    open spec fn sp_op_wf(&self) -> bool {
        self.sp_wf()
    }

    open spec fn sp_nstates(&self) -> nat {
        self.eqn.sp_nstates()
    }

    open spec fn sp_nout(&self) -> nat {
        self.eqn.sp_nstates()
    }

    open spec fn sp_nparams(&self) -> nat {
        self.eqn.sp_nparams()
    }

    fn nstates(&self) -> (r: usize) {
        self.eqn.rhs().nstates()
    }

    fn nout(&self) -> (r: usize) {
        self.eqn.rhs().nstates()
    }

    fn nparams(&self) -> (r: usize) {
        self.eqn.rhs().nparams()
    }

    fn set_params(&mut self, p: std::rc::Rc<Self::V>) {
    }
}

impl<'a, Eqn: OdeEquations> NonLinearOp for BdfCallable<'a, Eqn> {
    /// `y <- M * (x - y0 + psi) - c * F(t, x)`.
    fn call_inplace(&self, x: &Self::V, t: Self::T, y: &mut Self::V) {
        let n = self.psi.len();
        self.eqn.rhs().call_inplace(x, t, y);
        let mut tmp = x.clone_vec();
        tmp.sub_assign(&self.y0);
        tmp.add_assign(&self.psi);
        let mut mt = Eqn::V::zeros(n);
        match self.eqn.mass() {
            Some(mass) => {
                mass.gemv(t, Eqn::T::one(), &tmp, Eqn::T::zero(), &mut mt);
            },
            None => {
                mt.copy_from(&tmp);
            },
        }
        y.scale_mut(self.c.neg());
        y.add_assign(&mt);
    }

    /// `y <- (M - c * J(x, t)) * v`.
    fn jac_mul_inplace(&self, x: &Self::V, t: Self::T, v: &Self::V, y: &mut Self::V) {
        let n = self.psi.len();
        self.eqn.rhs().jac_mul_inplace(x, t, v, y);
        let mut mv = Eqn::V::zeros(n);
        match self.eqn.mass() {
            Some(mass) => {
                mass.gemv(t, Eqn::T::one(), v, Eqn::T::zero(), &mut mv);
            },
            None => {
                mv.copy_from(v);
            },
        }
        y.scale_mut(self.c.neg());
        y.add_assign(&mv);
    }

    /// Writes `M - c * J(x, t)` into `m`, evaluating the Jacobian afresh.
    fn jacobian_inplace(&self, x: &Self::V, t: Self::T, m: &mut Self::M) {
        let n = self.psi.len();
        let mut jac = Eqn::M::zeros(n, n);
        self.eqn.rhs().jacobian_inplace(x, t, &mut jac);
        let mut massm = Eqn::M::from_diagonal(&Eqn::V::from_element(n, Eqn::T::one()));
        if let Some(mass) = self.eqn.mass() {
            mass.matrix_inplace(t, &mut massm);
        }
        m.scale_add_and_assign(&massm, self.c.neg(), &jac);
    }
}

} // verus!
