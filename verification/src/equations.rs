//! The ODE equations bundle.
//!
//! An implementation of [`OdeEquations`] describes the problem
//! `M(t) * dy/dt = F(t, y)` with `y(t0) = y0(t0)`: a right-hand side
//! operator, an optional mass operator, an optional root (event) operator,
//! an optional output map, and an initial-condition function.
//! [`OdeSolverEquations`] assembles such a bundle from user-supplied
//! operators and an initial-condition closure.

use vstd::prelude::*;

use std::rc::Rc;

use crate::matrix::Matrix;
use crate::op::{LinearOp, NonLinearOp, Op, UnitCallable};
use crate::scalar::Scalar;
use crate::shared::{rc_borrow, rc_clone};
use crate::vector::{Vector, VectorCommon};

verus! {

/// Counts of the work done through an equations bundle.
#[derive(Clone, Debug, PartialEq, Eq, Structural)]
pub struct OdeEquationsStatistics {
    pub number_of_rhs_evals: usize,
    pub number_of_jac_mul_evals: usize,
    pub number_of_mass_evals: usize,
    pub number_of_mass_matrix_evals: usize,
    pub number_of_jacobian_matrix_evals: usize,
}

impl OdeEquationsStatistics {
    pub fn new() -> (r: Self)
        ensures
            r.number_of_rhs_evals == 0,
            r.number_of_jac_mul_evals == 0,
            r.number_of_mass_evals == 0,
            r.number_of_mass_matrix_evals == 0,
            r.number_of_jacobian_matrix_evals == 0,
    {
        OdeEquationsStatistics {
            number_of_rhs_evals: 0,
            number_of_jac_mul_evals: 0,
            number_of_mass_evals: 0,
            number_of_mass_matrix_evals: 0,
            number_of_jacobian_matrix_evals: 0,
        }
    }
}

impl Default for OdeEquationsStatistics {
    fn default() -> (r: Self)
        ensures
            r == (OdeEquationsStatistics {
                number_of_rhs_evals: 0,
                number_of_jac_mul_evals: 0,
                number_of_mass_evals: 0,
                number_of_mass_matrix_evals: 0,
                number_of_jacobian_matrix_evals: 0,
            }),
    {
        Self::new()
    }
}

/// The equations of the problem `M(t) * dy/dt = F(t, y)`, `y(t0) = y0(t0)`.
///
/// `sp_wf` ties the bundle together: the right-hand side is square, and the
/// optional operators share its state dimension. The solver requires it of
/// every problem it is handed.
pub trait OdeEquations {
    type T: Scalar;

    type V: Vector<T = Self::T>;

    type M: Matrix<T = Self::T, V = Self::V>;

    type Rhs: NonLinearOp<T = Self::T, V = Self::V, M = Self::M>;

    type Mass: LinearOp<T = Self::T, V = Self::V, M = Self::M>;

    type Root: NonLinearOp<T = Self::T, V = Self::V, M = Self::M>;

    type Out: NonLinearOp<T = Self::T, V = Self::V, M = Self::M>;

    /// The bundle is consistent: see the ensures of the accessors.
    spec fn sp_wf(&self) -> bool;

    /// The state dimension `n`.
    spec fn sp_nstates(&self) -> nat;

    /// The parameter dimension.
    spec fn sp_nparams(&self) -> nat;

    /// The dimension of the output map, where there is one.
    spec fn sp_nout(&self) -> nat;

    /// Whether the problem has a mass operator.
    spec fn sp_has_mass(&self) -> bool;

    /// Whether the problem has a root (event) operator.
    spec fn sp_has_root(&self) -> bool;

    /// The dimension of the root (event) vector, where there is one.
    spec fn sp_nroots(&self) -> nat;

    /// Whether the problem has an output map.
    spec fn sp_has_out(&self) -> bool;

    /// The right-hand side `F(t, y)`: a square nonlinear operator.
    fn rhs(&self) -> (r: &Self::Rhs)
        requires
            self.sp_wf(),
        ensures
            r.sp_op_wf(),
            r.sp_nstates() == self.sp_nstates(),
            r.sp_nout() == self.sp_nstates(),
            r.sp_nparams() == self.sp_nparams(),
    ;

    /// The mass operator `M(t)`, where the problem has one.
    fn mass(&self) -> (r: Option<&Self::Mass>)
        requires
            self.sp_wf(),
        ensures
            r is Some <==> self.sp_has_mass(),
            r matches Some(m) ==> m.sp_op_wf() && m.sp_nstates() == self.sp_nstates()
                && m.sp_nout() == self.sp_nstates(),
    ;

    /// The root (event) operator, where the problem has one.
    fn root(&self) -> (r: Option<&Self::Root>)
        requires
            self.sp_wf(),
        ensures
            r is Some <==> self.sp_has_root(),
            r matches Some(g) ==> g.sp_op_wf() && g.sp_nstates() == self.sp_nstates()
                && g.sp_nout() == self.sp_nroots(),
    ;

    /// The output map, where the problem has one.
    fn out(&self) -> (r: Option<&Self::Out>)
        requires
            self.sp_wf(),
        ensures
            r is Some <==> self.sp_has_out(),
            r is None ==> self.sp_nout() == 0,
            r matches Some(o) ==> o.sp_op_wf() && o.sp_nstates() == self.sp_nstates()
                && o.sp_nout() == self.sp_nout(),
    ;

    /// The initial condition `y0(t)`. A bundle built from closures cannot
    /// promise the returned length; the solver checks it when a state is
    /// constructed.
    fn init(&self, t: Self::T) -> Self::V
        requires
            self.sp_wf(),
    ;

    /// `y <- (d y0 / d p)(t) * v`, the parameter sensitivity of the initial
    /// condition.
    fn init_sens_mul(&self, t: Self::T, v: &Self::V, y: &mut Self::V)
        requires
            self.sp_wf(),
            v.vals().len() == self.sp_nparams(),
        ensures
            final(y).vals().len() == old(y).vals().len(),
    ;

    /// Whether the mass operator is constant over time.
    fn is_mass_constant(&self) -> bool;

    /// Installs a new parameter vector in every operator of the bundle.
    fn set_params(&mut self, p: Self::V)
        requires
            old(self).sp_wf(),
            p.vals().len() == old(self).sp_nparams(),
        ensures
            final(self).sp_wf(),
            final(self).sp_nstates() == old(self).sp_nstates(),
            final(self).sp_nparams() == old(self).sp_nparams(),
            final(self).sp_nout() == old(self).sp_nout(),
            final(self).sp_has_mass() == old(self).sp_has_mass(),
            final(self).sp_has_root() == old(self).sp_has_root(),
            final(self).sp_has_out() == old(self).sp_has_out(),
    ;
}

/// An equations bundle assembled from user-supplied operators and an
/// initial-condition closure `y0(p, t)`.
#[verifier::reject_recursive_types(M)]
pub struct OdeSolverEquations<M, Rhs, I, Mass = UnitCallable<M>, Root = UnitCallable<M>> where
    M: Matrix,
    Rhs: NonLinearOp<T = M::T, V = M::V, M = M>,
    Mass: LinearOp<T = M::T, V = M::V, M = M>,
    Root: NonLinearOp<T = M::T, V = M::V, M = M>,
    I: Fn(&M::V, M::T) -> M::V,
 {
    pub rhs: Rhs,
    pub mass: Option<Mass>,
    pub root: Option<Root>,
    pub init: I,
    pub p: Rc<M::V>,
    pub mass_is_constant: bool,
}

impl<M, Rhs, Mass, Root, I> OdeSolverEquations<M, Rhs, I, Mass, Root> where
    M: Matrix,
    Rhs: NonLinearOp<T = M::T, V = M::V, M = M>,
    Mass: LinearOp<T = M::T, V = M::V, M = M>,
    Root: NonLinearOp<T = M::T, V = M::V, M = M>,
    I: Fn(&M::V, M::T) -> M::V,
 {
    pub fn new(
        rhs: Rhs,
        mass: Option<Mass>,
        root: Option<Root>,
        init: I,
        p: Rc<M::V>,
        mass_is_constant: bool,
    ) -> (r: Self)
        requires
            (forall|q: &M::V, t: M::T| #[trigger] call_requires(init, (q, t))),
            rhs.sp_op_wf(),
            rhs.sp_nout() == rhs.sp_nstates(),
            rhs.sp_nparams() == p.vals().len(),
            mass matches Some(m) ==> m.sp_op_wf() && m.sp_nstates() == rhs.sp_nstates()
                && m.sp_nout() == rhs.sp_nstates() && m.sp_nparams() == p.vals().len(),
            root matches Some(g) ==> g.sp_op_wf() && g.sp_nstates() == rhs.sp_nstates()
                && g.sp_nparams() == p.vals().len(),
        ensures
            r.sp_wf(),
            r.sp_nstates() == rhs.sp_nstates(),
            r.sp_nparams() == p.vals().len(),
            r == (OdeSolverEquations { rhs, mass, root, init, p, mass_is_constant }),
    {
        OdeSolverEquations { rhs, mass, root, init, p, mass_is_constant }
    }
}

impl<M, Rhs, Mass, Root, I> OdeEquations for OdeSolverEquations<M, Rhs, I, Mass, Root> where
    M: Matrix,
    Rhs: NonLinearOp<T = M::T, V = M::V, M = M>,
    Mass: LinearOp<T = M::T, V = M::V, M = M>,
    Root: NonLinearOp<T = M::T, V = M::V, M = M>,
    I: Fn(&M::V, M::T) -> M::V,
 {
    type T = M::T;

    type V = M::V;

    type M = M;

    type Rhs = Rhs;

    type Mass = Mass;

    type Root = Root;

    type Out = UnitCallable<M>;

    open spec fn sp_wf(&self) -> bool {
        &&& (forall|q: &M::V, t: M::T| #[trigger] call_requires(self.init, (q, t)))
        &&& self.rhs.sp_op_wf()
        &&& self.rhs.sp_nout() == self.rhs.sp_nstates()
        &&& self.rhs.sp_nparams() == self.p.vals().len()
        &&& (self.mass matches Some(m) ==> m.sp_op_wf() && m.sp_nstates()
            == self.rhs.sp_nstates() && m.sp_nout() == self.rhs.sp_nstates()
            && m.sp_nparams() == self.p.vals().len())
        &&& (self.root matches Some(g) ==> g.sp_op_wf() && g.sp_nstates()
            == self.rhs.sp_nstates() && g.sp_nparams() == self.p.vals().len())
    }

    open spec fn sp_nstates(&self) -> nat {
        self.rhs.sp_nstates()
    }

    open spec fn sp_nparams(&self) -> nat {
        self.p.vals().len()
    }

    open spec fn sp_nout(&self) -> nat {
        0
    }

    open spec fn sp_has_mass(&self) -> bool {
        self.mass is Some
    }

    open spec fn sp_has_root(&self) -> bool {
        self.root is Some
    }

    open spec fn sp_nroots(&self) -> nat {
        match self.root {
            Some(g) => g.sp_nout(),
            None => 0,
        }
    }

    open spec fn sp_has_out(&self) -> bool {
        false
    }

    fn rhs(&self) -> (r: &Self::Rhs) {
        &self.rhs
    }

    fn mass(&self) -> (r: Option<&Self::Mass>) {
        self.mass.as_ref()
    }

    fn root(&self) -> (r: Option<&Self::Root>) {
        self.root.as_ref()
    }

    fn out(&self) -> (r: Option<&Self::Out>) {
        None
    }

    fn init(&self, t: Self::T) -> Self::V {
        let p = rc_borrow(&self.p);
        (self.init)(p, t)
    }

    /// A bundle built from a plain initial-condition closure carries no
    /// initial-condition sensitivity: the action is zero.
    fn init_sens_mul(&self, t: Self::T, v: &Self::V, y: &mut Self::V) {
        y.fill(M::T::zero());
    }

    fn is_mass_constant(&self) -> bool {
        self.mass_is_constant
    }

    fn set_params(&mut self, p: Self::V) {
        let p = Rc::new(p);
        self.p = rc_clone(&p);
        self.rhs.set_params(rc_clone(&p));
        if let Some(m) = self.mass.as_mut() {
            m.set_params(rc_clone(&p));
        }
        if let Some(g) = self.root.as_mut() {
            g.set_params(rc_clone(&p));
        }
    }
}

} // verus!
