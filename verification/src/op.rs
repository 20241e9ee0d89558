//! Operator traits: the shapes through which the solver sees the problem.
//!
//! An operator knows its state, output and parameter dimensions. A
//! [`NonLinearOp`] evaluates `F(x, t)` and the Jacobian action `J(x, t) * v`,
//! and can write a full Jacobian into a preallocated matrix; when an
//! implementation has no better way, [`jacobian_by_column_probing`] derives
//! the full Jacobian one column at a time from the Jacobian action alone.
//! A [`LinearOp`] is an operator that is linear in `x` (a mass matrix); a
//! [`ConstantOp`] depends on time alone (an initial condition).

use vstd::prelude::*;

use std::rc::Rc;

use crate::matrix::{Matrix, MatrixCommon};
use crate::scalar::Scalar;
use crate::vector::{Vector, VectorCommon};

verus! {

/// The dimensions every operator carries.
pub trait Op {
    type T: Scalar;

    type V: Vector<T = Self::T>;

    type M: Matrix<T = Self::T, V = Self::V>;

    /// The operator's own consistency condition; every evaluation method
    /// requires it.
    open spec fn sp_op_wf(&self) -> bool {
        arbitrary()
    }

    open spec fn sp_nstates(&self) -> nat {
        arbitrary()
    }

    open spec fn sp_nout(&self) -> nat {
        arbitrary()
    }

    open spec fn sp_nparams(&self) -> nat {
        arbitrary()
    }

    fn nstates(&self) -> (r: usize)
        requires
            self.sp_op_wf(),
        ensures
            r == self.sp_nstates(),
    ;

    fn nout(&self) -> (r: usize)
        requires
            self.sp_op_wf(),
        ensures
            r == self.sp_nout(),
    ;

    fn nparams(&self) -> (r: usize)
        requires
            self.sp_op_wf(),
        ensures
            r == self.sp_nparams(),
    ;

    /// Replaces the shared parameter vector the operator reads.
    fn set_params(&mut self, p: Rc<Self::V>)
        requires
            p.vals().len() == old(self).sp_nparams(),
        ensures
            final(self).sp_op_wf() == old(self).sp_op_wf(),
            final(self).sp_nstates() == old(self).sp_nstates(),
            final(self).sp_nout() == old(self).sp_nout(),
            final(self).sp_nparams() == old(self).sp_nparams(),
    ;
}

/// A nonlinear function `y = F(x, t)` with a Jacobian action.
pub trait NonLinearOp: Op {
    /// `y <- F(x, t)`.
    fn call_inplace(&self, x: &Self::V, t: Self::T, y: &mut Self::V)
        requires
            self.sp_op_wf(),
            x.vals().len() == self.sp_nstates(),
            old(y).vals().len() == self.sp_nout(),
        ensures
            final(y).vals().len() == self.sp_nout(),
    ;

    /// `y <- J(x, t) * v`, the Jacobian action on `v`.
    fn jac_mul_inplace(&self, x: &Self::V, t: Self::T, v: &Self::V, y: &mut Self::V)
        requires
            self.sp_op_wf(),
            x.vals().len() == self.sp_nstates(),
            v.vals().len() == self.sp_nstates(),
            old(y).vals().len() == self.sp_nout(),
        ensures
            final(y).vals().len() == self.sp_nout(),
    ;

    /// Writes the full Jacobian at `(x, t)` into `m`. An implementation
    /// with no analytic matrix derives it by column probing.
    fn jacobian_inplace(&self, x: &Self::V, t: Self::T, m: &mut Self::M)
        requires
            self.sp_op_wf(),
            x.vals().len() == self.sp_nstates(),
            old(m).sp_nrows() == self.sp_nout(),
            old(m).sp_ncols() == self.sp_nstates(),
        ensures
            final(m).sp_nrows() == self.sp_nout(),
            final(m).sp_ncols() == self.sp_nstates(),
    ;

    /// `y <- (d F / d p)(x, t) * v`, the parameter-Jacobian action, for
    /// forward-sensitivity integration. An operator that does not depend on
    /// the parameters reports the zero action.
    fn sens_mul_inplace(&self, x: &Self::V, t: Self::T, v: &Self::V, y: &mut Self::V)
        requires
            self.sp_op_wf(),
            x.vals().len() == self.sp_nstates(),
            v.vals().len() == self.sp_nparams(),
            old(y).vals().len() == self.sp_nout(),
        ensures
            final(y).vals().len() == self.sp_nout(),
    {
        y.fill(Self::T::zero());
    }
}

/// A linear operator `M(t)`: a mass matrix, possibly time-dependent.
pub trait LinearOp: Op {
    /// `y <- alpha * M(t) * x + beta * y`.
    fn gemv(&self, t: Self::T, alpha: Self::T, x: &Self::V, beta: Self::T, y: &mut Self::V)
        requires
            self.sp_op_wf(),
            x.vals().len() == self.sp_nstates(),
            old(y).vals().len() == self.sp_nout(),
        ensures
            final(y).vals().len() == self.sp_nout(),
    ;

    /// Writes the matrix of the operator at time `t` into `m`.
    fn matrix_inplace(&self, t: Self::T, m: &mut Self::M)
        requires
            self.sp_op_wf(),
            old(m).sp_nrows() == self.sp_nout(),
            old(m).sp_ncols() == self.sp_nstates(),
        ensures
            final(m).sp_nrows() == self.sp_nout(),
            final(m).sp_ncols() == self.sp_nstates(),
    ;
}

/// An operator of time alone: an initial-condition function `y0(p, t)`.
pub trait ConstantOp: Op {
    fn call(&self, t: Self::T) -> Self::V
        requires
            self.sp_op_wf(),
    ;

    fn call_inplace(&self, t: Self::T, y: &mut Self::V)
        requires
            self.sp_op_wf(),
        ensures
            final(y).vals().len() == old(y).vals().len(),
    ;

    /// `y <- (d y0 / d p)(t) * v`, the parameter sensitivity of the value.
    fn sens_mul_inplace(&self, t: Self::T, v: &Self::V, y: &mut Self::V)
        requires
            self.sp_op_wf(),
        ensures
            final(y).vals().len() == old(y).vals().len(),
    ;

    fn has_sens(&self) -> bool;
}

/// Derives the full Jacobian of `op` at `(x, t)` by probing one unit vector
/// per column with the Jacobian action, and writing each result into the
/// matching column of `m`.
pub fn jacobian_by_column_probing<C: NonLinearOp>(op: &C, x: &C::V, t: C::T, m: &mut C::M)
    requires
        op.sp_op_wf(),
        x.vals().len() == op.sp_nstates(),
        old(m).sp_nrows() == op.sp_nout(),
        old(m).sp_ncols() == op.sp_nstates(),
    ensures
        final(m).sp_nrows() == op.sp_nout(),
        final(m).sp_ncols() == op.sp_nstates(),
{
    let n = op.nstates();
    let nout = op.nout();
    let mut v = C::V::zeros(n);
    let mut col = C::V::zeros(nout);
    let mut j: usize = 0;
    while j < n
        invariant
            j <= n,
            op.sp_op_wf(),
            n == op.sp_nstates(),
            nout == op.sp_nout(),
            x.vals().len() == n,
            v.vals().len() == n,
            col.vals().len() == nout,
            m.sp_nrows() == nout,
            m.sp_ncols() == n,
        decreases n - j,
    {
        v.set(j, C::T::one());
        op.jac_mul_inplace(x, t, &v, &mut col);
        m.set_column(j, &col);
        v.set(j, C::T::zero());
        j = j + 1;
    }
}

/// The trivial operator: no outputs, no action. It stands in for an absent
/// mass matrix, root function or output map.
pub struct UnitCallable<M: Matrix> {
    pub nstates: usize,
    pub marker: core::marker::PhantomData<M>,
}

impl<M: Matrix> UnitCallable<M> {
    pub fn new(nstates: usize) -> (r: Self)
        ensures
            r.sp_nstates() == nstates,
            r.sp_nout() == nstates,
    {
        UnitCallable { nstates, marker: core::marker::PhantomData }
    }
}

impl<M: Matrix> Op for UnitCallable<M> {
    type T = M::T;

    type V = M::V;

    type M = M;

    open spec fn sp_op_wf(&self) -> bool {
        true
    }

    open spec fn sp_nstates(&self) -> nat {
        self.nstates as nat
    }

    open spec fn sp_nout(&self) -> nat {
        self.nstates as nat
    }

    open spec fn sp_nparams(&self) -> nat {
        0
    }

    fn nstates(&self) -> (r: usize) {
        self.nstates
    }

    fn nout(&self) -> (r: usize) {
        self.nstates
    }

    fn nparams(&self) -> (r: usize) {
        0
    }

    fn set_params(&mut self, p: Rc<Self::V>) {
    }
}

impl<M: Matrix> NonLinearOp for UnitCallable<M> {
    fn call_inplace(&self, x: &Self::V, t: Self::T, y: &mut Self::V) {
        y.fill(M::T::zero());
    }

    fn jac_mul_inplace(&self, x: &Self::V, t: Self::T, v: &Self::V, y: &mut Self::V) {
        y.fill(M::T::zero());
    }

    fn jacobian_inplace(&self, x: &Self::V, t: Self::T, m: &mut Self::M) {
    }
}

impl<M: Matrix> LinearOp for UnitCallable<M> {
    fn gemv(&self, t: Self::T, alpha: Self::T, x: &Self::V, beta: Self::T, y: &mut Self::V) {
        y.scale_mut(beta);
    }

    fn matrix_inplace(&self, t: Self::T, m: &mut Self::M) {
    }
}

/// An initial-condition function given as closures over the parameters: one
/// for the value `y0(p, t)` and one for the action of its parameter
/// sensitivity `(d y0 / d p) * v`.
pub struct ConstantClosureWithSens<M, I, J> where
    M: Matrix,
    I: Fn(&M::V, M::T) -> M::V,
    J: Fn(&M::V, M::T, &M::V) -> M::V,
 {
    pub func: I,
    pub func_sens: J,
    pub nstates: usize,
    pub nout: usize,
    pub nparams: usize,
    pub p: Rc<M::V>,
}

impl<M, I, J> ConstantClosureWithSens<M, I, J> where
    M: Matrix,
    I: Fn(&M::V, M::T) -> M::V,
    J: Fn(&M::V, M::T, &M::V) -> M::V,
 {
    /// Both closures accept every argument.
    pub open spec fn sp_wf(&self) -> bool {
        (forall|p: &M::V, t: M::T| #[trigger] call_requires(self.func, (p, t))) && (forall|
            p: &M::V,
            t: M::T,
            v: &M::V,
        | #[trigger] call_requires(self.func_sens, (p, t, v)))
    }

    pub fn new(func: I, func_sens: J, nstates: usize, nout: usize, p: Rc<M::V>) -> (r: Self)
        requires
            (forall|q: &M::V, t: M::T| #[trigger] call_requires(func, (q, t))),
            (forall|q: &M::V, t: M::T, v: &M::V| #[trigger] call_requires(func_sens, (q, t, v))),
        ensures
            r.sp_wf(),
            r.sp_nstates() == nstates,
            r.sp_nout() == nout,
            r.sp_nparams() == p.vals().len(),
    {
        let nparams = p.len();
        ConstantClosureWithSens { func, func_sens, nstates, nout, nparams, p }
    }
}

impl<M, I, J> Op for ConstantClosureWithSens<M, I, J> where
    M: Matrix,
    I: Fn(&M::V, M::T) -> M::V,
    J: Fn(&M::V, M::T, &M::V) -> M::V,
 {
    type T = M::T;

    type V = M::V;

    type M = M;

    open spec fn sp_op_wf(&self) -> bool {
        self.sp_wf()
    }

    open spec fn sp_nstates(&self) -> nat {
        self.nstates as nat
    }

    open spec fn sp_nout(&self) -> nat {
        self.nout as nat
    }

    open spec fn sp_nparams(&self) -> nat {
        self.nparams as nat
    }

    fn nstates(&self) -> (r: usize) {
        self.nstates
    }

    fn nout(&self) -> (r: usize) {
        self.nout
    }

    fn nparams(&self) -> (r: usize) {
        self.nparams
    }

    fn set_params(&mut self, p: Rc<Self::V>) {
        self.p = p;
        proof {
            assert(self.func == old(self).func);
            assert(self.func_sens == old(self).func_sens);
            assert forall|q: &M::V, t: M::T|
                call_requires(self.func, (q, t)) == call_requires(old(self).func, (q, t)) by {
            }
            assert forall|q: &M::V, t: M::T, v: &M::V|
                call_requires(self.func_sens, (q, t, v)) == call_requires(
                    old(self).func_sens,
                    (q, t, v),
                ) by {
            }
            assert(self.sp_wf() == old(self).sp_wf());
        }
    }
}

impl<M, I, J> ConstantOp for ConstantClosureWithSens<M, I, J> where
    M: Matrix,
    I: Fn(&M::V, M::T) -> M::V,
    J: Fn(&M::V, M::T, &M::V) -> M::V,
 {
    /// The initial value `y0(p, t)`.
    fn call(&self, t: M::T) -> (r: M::V) {
        (self.func)(crate::shared::rc_borrow(&self.p), t)
    }

    /// `y <- y0(p, t)` where the lengths agree; `y` keeps its length.
    fn call_inplace(&self, t: M::T, y: &mut M::V) {
        let r = (self.func)(crate::shared::rc_borrow(&self.p), t);
        if r.len() == y.len() {
            y.copy_from(&r);
        }
    }

    /// `y <- (d y0 / d p)(t) * v` where the lengths agree.
    fn sens_mul_inplace(&self, t: M::T, v: &M::V, y: &mut M::V) {
        let r = (self.func_sens)(crate::shared::rc_borrow(&self.p), t, v);
        if r.len() == y.len() {
            y.copy_from(&r);
        }
    }

    fn has_sens(&self) -> (r: bool) {
        true
    }
}

} // verus!
