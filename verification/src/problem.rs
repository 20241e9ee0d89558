//! The ODE problem: an equations bundle with its tolerances, and the
//! solution container used by tests and callers.

use vstd::prelude::*;

use crate::bdf::Bdf;
use crate::bdf_state::{BdfState, MAX_ORDER};
use crate::linear_solver::LinearSolver;
use crate::convergence::Convergence;
use crate::equations::OdeEquations;
use crate::error::DiffsolError;
use crate::matrix::{DenseMat, Matrix, MatrixCommon};
use crate::op::{NonLinearOp, Op};
use crate::scalar::Scalar;
use crate::vector::{Vector, VectorCommon};

verus! {

/// An equations bundle together with the tolerances and initial data of an
/// integration.
pub struct OdeSolverProblem<Eqn: OdeEquations> {
    pub eqn: Eqn,
    pub rtol: Eqn::T,
    pub atol: Eqn::V,
    pub t0: Eqn::T,
    pub h0: Eqn::T,
    pub integrate_out: bool,
    pub sens_rtol: Option<Eqn::T>,
    pub sens_atol: Option<Eqn::V>,
    pub out_rtol: Option<Eqn::T>,
    pub out_atol: Option<Eqn::V>,
    pub param_rtol: Option<Eqn::T>,
    pub param_atol: Option<Eqn::V>,
}

impl<Eqn: OdeEquations> OdeSolverProblem<Eqn> {
    /// The bundle is consistent and every tolerance vector matches its
    /// channel.
    pub open spec fn sp_wf(&self) -> bool {
        &&& self.eqn.sp_wf()
        &&& self.atol.vals().len() == self.eqn.sp_nstates()
        &&& (self.out_atol matches Some(a) ==> a.vals().len() == self.eqn.sp_nout())
        &&& (self.out_rtol is Some ==> self.out_atol is Some)
        &&& (self.sens_atol matches Some(a) ==> a.vals().len() == self.eqn.sp_nstates())
    }

    /// The default relative tolerance, one part in a million.
    pub fn default_rtol() -> (r: Eqn::T)
        ensures
            r == Eqn::T::sp_ratio(1, 1000000),
    {
        Eqn::T::ratio(1, 1000000)
    }

    /// The default absolute tolerance: one part in a million, per state.
    pub fn default_atol(nstates: usize) -> (r: Eqn::V)
        ensures
            r.vals().len() == nstates,
    {
        Eqn::V::from_element(nstates, Eqn::T::ratio(1, 1000000))
    }

    /// Assembles a problem, rejecting tolerance vectors whose length does
    /// not match the equations.
    pub fn new(
        eqn: Eqn,
        rtol: Eqn::T,
        atol: Eqn::V,
        sens_rtol: Option<Eqn::T>,
        sens_atol: Option<Eqn::V>,
        out_rtol: Option<Eqn::T>,
        out_atol: Option<Eqn::V>,
        param_rtol: Option<Eqn::T>,
        param_atol: Option<Eqn::V>,
        t0: Eqn::T,
        h0: Eqn::T,
        integrate_out: bool,
    ) -> (r: Result<Self, DiffsolError>)
        requires
            eqn.sp_wf(),
        ensures
            r matches Ok(p) ==> p.sp_wf() && p == (OdeSolverProblem {
                eqn,
                rtol,
                atol,
                t0,
                h0,
                integrate_out,
                sens_rtol,
                sens_atol,
                out_rtol,
                out_atol,
                param_rtol,
                param_atol,
            }),
            r matches Err(e) ==> e == DiffsolError::InconsistentState,
            r is Err <==> (atol.vals().len() != eqn.sp_nstates() || (sens_atol matches Some(a)
                && a.vals().len() != eqn.sp_nstates()) || (out_atol matches Some(a)
                && a.vals().len() != eqn.sp_nout()) || (out_rtol is Some && out_atol is None)),
    {
        let nstates = eqn.rhs().nstates();
        if atol.len() != nstates {
            return Err(DiffsolError::InconsistentState);
        }
        if let Some(a) = &sens_atol {
            if a.len() != nstates {
                return Err(DiffsolError::InconsistentState);
            }
        }
        let nout = if let Some(o) = eqn.out() {
            o.nout()
        } else {
            0
        };
        if let Some(a) = &out_atol {
            if a.len() != nout {
                return Err(DiffsolError::InconsistentState);
            }
        }
        if out_rtol.is_some() && out_atol.is_none() {
            return Err(DiffsolError::InconsistentState);
        }
        Ok(
            OdeSolverProblem {
                eqn,
                rtol,
                atol,
                t0,
                h0,
                integrate_out,
                sens_rtol,
                sens_atol,
                out_rtol,
                out_atol,
                param_rtol,
                param_atol,
            },
        )
    }

    /// Whether the integrated output takes part in the error control: it
    /// must exist, be integrated, and carry both tolerances.
    pub fn output_in_error_control(&self) -> (r: bool)
        requires
            self.sp_wf(),
        ensures
            r == (self.integrate_out && self.eqn.sp_has_out() && self.out_rtol is Some
                && self.out_atol is Some),
    {
        self.integrate_out && self.eqn.out().is_some() && self.out_rtol.is_some()
            && self.out_atol.is_some()
    }

    /// Installs a new parameter vector; rejects one of the wrong length.
    pub fn set_params(&mut self, p: Eqn::V) -> (r: Result<(), DiffsolError>)
        requires
            old(self).sp_wf(),
        ensures
            final(self).sp_wf(),
            r is Err <==> p.vals().len() != old(self).eqn.sp_nparams(),
            r matches Err(e) ==> e == DiffsolError::InconsistentState && *final(self) == *old(
                self,
            ),
    {
        if p.len() != self.eqn.rhs().nparams() {
            return Err(DiffsolError::InconsistentState);
        }
        self.eqn.set_params(p);
        Ok(())
    }

    /// Builds the starting state for the BDF integrator: the initial
    /// condition, its derivative estimate, and a first-order history.
    pub fn bdf_state(&self) -> (r: Result<BdfState<Eqn::V>, DiffsolError>)
        requires
            self.sp_wf(),
        ensures
            r matches Ok(state) ==> state.sp_wf(
                self.eqn.sp_nstates(),
                self.eqn.sp_nout(),
                0,
            ) && state.t == self.t0 && state.h == self.h0 && state.order == 1
                && state.diff.sp_columns()[0] == state.y.vals() && state.diff.sp_columns()[1]
                == Seq::new(
                state.dy.vals().len(),
                |i: int| state.h.sp_mul(state.dy.vals()[i]),
            ) && state.gdiff.sp_columns()[0] == state.g.vals() && state.gdiff.sp_columns()[1]
                == Seq::new(
                state.dg.vals().len(),
                |i: int| state.h.sp_mul(state.dg.vals()[i]),
            ),
            r matches Err(e) ==> e == DiffsolError::InconsistentState,
    {
        let t = self.t0;
        let h = self.h0;
        let nstates = self.eqn.rhs().nstates();
        let y = self.eqn.init(t);
        if y.len() != nstates {
            return Err(DiffsolError::InconsistentState);
        }
        let mut dy = Eqn::V::zeros(nstates);
        self.eqn.rhs().call_inplace(&y, t, &mut dy);
        let nout = if let Some(o) = self.eqn.out() {
            o.nout()
        } else {
            0
        };
        let mut g = Eqn::V::zeros(nout);
        let mut dg = Eqn::V::zeros(nout);
        if self.integrate_out {
            if let Some(o) = self.eqn.out() {
                o.call_inplace(&y, t, &mut dg);
            }
        }
        let mut state = BdfState {
            y,
            dy,
            g,
            dg,
            s: Vec::new(),
            ds: Vec::new(),
            t,
            h,
            order: 1,
            diff: DenseMat::new_zeros(nstates, MAX_ORDER + 3),
            gdiff: DenseMat::new_zeros(nout, MAX_ORDER + 3),
            sdiff: Vec::new(),
        };
        state.initialise_diff_to_first_order();
        state.initialise_gdiff_to_first_order();
        Ok(state)
    }

    /// Builds the starting state with one sensitivity column per parameter,
    /// each holding the parameter sensitivity of the initial condition and
    /// a first-order history.
    pub fn bdf_state_sens(&self) -> (r: Result<BdfState<Eqn::V>, DiffsolError>)
        requires
            self.sp_wf(),
        ensures
            r matches Ok(state) ==> state.sp_wf(
                self.eqn.sp_nstates(),
                self.eqn.sp_nout(),
                self.eqn.sp_nparams(),
            ) && state.t == self.t0 && state.h == self.h0 && state.order == 1
                && state.diff.sp_columns()[0] == state.y.vals() && state.diff.sp_columns()[1]
                == Seq::new(
                state.dy.vals().len(),
                |i: int| state.h.sp_mul(state.dy.vals()[i]),
            ) && (forall|c: int|
                0 <= c < self.eqn.sp_nparams() ==> (#[trigger] state.sdiff@[c]).sp_columns()[0]
                    == state.s@[c].vals()) && (forall|c: int|
                0 <= c < self.eqn.sp_nparams() ==> (#[trigger] state.sdiff@[c]).sp_columns()[1]
                    == Seq::new(
                    state.ds@[c].vals().len(),
                    |i: int| state.h.sp_mul(state.ds@[c].vals()[i]),
                )),
            r matches Err(e) ==> e == DiffsolError::InconsistentState,
    {
        let mut state = match self.bdf_state() {
            Ok(state) => state,
            Err(e) => {
                return Err(e);
            },
        };
        let t = self.t0;
        let nstates = self.eqn.rhs().nstates();
        let nparams = self.eqn.rhs().nparams();
        let mut s: Vec<Eqn::V> = Vec::new();
        let mut ds: Vec<Eqn::V> = Vec::new();
        let mut sdiff: Vec<DenseMat<Eqn::V>> = Vec::new();
        let mut e_i = Eqn::V::zeros(nparams);
        let mut i: usize = 0;
        while i < nparams
            invariant
                i <= nparams,
                self.sp_wf(),
                nstates == self.eqn.sp_nstates(),
                nparams == self.eqn.sp_nparams(),
                state.y.vals().len() == nstates,
                e_i.vals().len() == nparams,
                s@.len() == i,
                ds@.len() == i,
                sdiff@.len() == i,
                forall|k: int| 0 <= k < i ==> (#[trigger] s@[k]).vals().len() == nstates,
                forall|k: int| 0 <= k < i ==> (#[trigger] ds@[k]).vals().len() == nstates,
                forall|k: int|
                    0 <= k < i ==> (#[trigger] sdiff@[k]).wf() && sdiff@[k].sp_nrows() == nstates
                        && sdiff@[k].sp_ncols() == MAX_ORDER + 3,
            decreases nparams - i,
        {
            e_i.set(i, Eqn::T::one());
            let mut s_i = Eqn::V::zeros(nstates);
            self.eqn.init_sens_mul(t, &e_i, &mut s_i);
            if s_i.len() != nstates {
                return Err(DiffsolError::InconsistentState);
            }
            // ds_i = J(y, t) * s_i + (dF/dp)(y, t) * e_i
            let mut ds_i = Eqn::V::zeros(nstates);
            self.eqn.rhs().jac_mul_inplace(&state.y, t, &s_i, &mut ds_i);
            let mut fp = Eqn::V::zeros(nstates);
            self.eqn.rhs().sens_mul_inplace(&state.y, t, &e_i, &mut fp);
            ds_i.add_assign(&fp);
            e_i.set(i, Eqn::T::zero());
            s.push(s_i);
            ds.push(ds_i);
            sdiff.push(DenseMat::new_zeros(nstates, MAX_ORDER + 3));
            i = i + 1;
        }
        state.s = s;
        state.ds = ds;
        state.sdiff = sdiff;
        state.initialise_sdiff_to_first_order();
        Ok(state)
    }
}

impl<Eqn: OdeEquations> OdeSolverProblem<Eqn> {
    /// Builds a BDF integrator over this problem from the given state, with
    /// the injected linear solver.
    pub fn bdf_solver<LS: LinearSolver<T = Eqn::T, V = Eqn::V, M = Eqn::M>>(
        &self,
        state: BdfState<Eqn::V>,
        linear_solver: LS,
    ) -> (r: Result<Bdf<'_, Eqn, LS>, DiffsolError>)
        requires
            self.sp_wf(),
        ensures
            r matches Ok(bdf) ==> bdf.sp_wf() && bdf.state == state,
            r is Err <==> !state.sp_wf(self.eqn.sp_nstates(), self.eqn.sp_nout(), state.s@.len()),
            r matches Err(e) ==> e == DiffsolError::InconsistentState,
    {
        Bdf::new(self, state, linear_solver)
    }

    /// Builds the starting state and a BDF integrator over it in one call.
    pub fn bdf<LS: LinearSolver<T = Eqn::T, V = Eqn::V, M = Eqn::M>>(
        &self,
        linear_solver: LS,
    ) -> (r: Result<Bdf<'_, Eqn, LS>, DiffsolError>)
        requires
            self.sp_wf(),
        ensures
            r matches Ok(bdf) ==> bdf.sp_wf(),
    {
        let state = match self.bdf_state() {
            Ok(state) => state,
            Err(e) => {
                return Err(e);
            },
        };
        self.bdf_solver(state, linear_solver)
    }

    /// Builds a BDF integrator that carries the forward sensitivities of
    /// `state` through every step.
    pub fn bdf_solver_sens<LS: LinearSolver<T = Eqn::T, V = Eqn::V, M = Eqn::M>>(
        &self,
        state: BdfState<Eqn::V>,
        linear_solver: LS,
    ) -> (r: Result<Bdf<'_, Eqn, LS>, DiffsolError>)
        requires
            self.sp_wf(),
        ensures
            r matches Ok(bdf) ==> bdf.sp_wf() && bdf.state == state,
            r is Err <==> !state.sp_wf(self.eqn.sp_nstates(), self.eqn.sp_nout(), state.s@.len()),
            r matches Err(e) ==> e == DiffsolError::InconsistentState,
    {
        Bdf::new_augmented(state, self, linear_solver)
    }

    /// Builds the sensitivity-carrying starting state and its integrator in
    /// one call.
    pub fn bdf_sens<LS: LinearSolver<T = Eqn::T, V = Eqn::V, M = Eqn::M>>(
        &self,
        linear_solver: LS,
    ) -> (r: Result<Bdf<'_, Eqn, LS>, DiffsolError>)
        requires
            self.sp_wf(),
        ensures
            r matches Ok(bdf) ==> bdf.sp_wf(),
    {
        let state = match self.bdf_state_sens() {
            Ok(state) => state,
            Err(e) => {
                return Err(e);
            },
        };
        self.bdf_solver_sens(state, linear_solver)
    }
}

impl<V: Vector> Convergence<V> {
    /// Builds the controller from a problem's tolerances.
    pub fn new_from_problem<Eqn: OdeEquations<T = V::T, V = V>>(
        problem: &OdeSolverProblem<Eqn>,
        max_iter: usize,
    ) -> (r: Self)
        requires
            1 <= max_iter <= 0x7fff_ffff,
        ensures
            r.wf(),
            r.sp_rtol() == problem.rtol,
            r.sp_atol() == problem.atol.vals(),
            r.sp_max_iter() == max_iter,
            r.sp_iter() == 0,
    {
        Convergence::new(problem.rtol, problem.atol.clone_vec(), max_iter)
    }
}

/// One reported point of a solution.
pub struct OdeSolverSolutionPoint<V: Vector> {
    pub state: V,
    pub t: V::T,
}

/// A time-ordered list of solution points, with the tolerances the points
/// were computed under, and optionally one list per sensitivity column.
pub struct OdeSolverSolution<V: Vector> {
    pub solution_points: Vec<OdeSolverSolutionPoint<V>>,
    pub sens_solution_points: Option<Vec<Vec<OdeSolverSolutionPoint<V>>>>,
    pub rtol: V::T,
    pub atol: V,
    pub negative_time: bool,
}

impl<V: Vector> OdeSolverSolution<V> {
    /// The first index whose point lies past `t` in the direction of
    /// integration, or the length when none does.
    fn get_index(&self, t: V::T) -> (r: usize)
        ensures
            r <= self.solution_points@.len(),
            forall|k: int|
                0 <= k < r ==> !(if self.negative_time {
                    (#[trigger] self.solution_points@[k]).t.sp_lt(t)
                } else {
                    t.sp_lt(self.solution_points@[k].t)
                }),
            r < self.solution_points@.len() ==> (if self.negative_time {
                self.solution_points@[r as int].t.sp_lt(t)
            } else {
                t.sp_lt(self.solution_points@[r as int].t)
            }),
    {
        let n = self.solution_points.len();
        let mut k: usize = 0;
        while k < n
            invariant
                k <= n,
                n == self.solution_points@.len(),
                forall|j: int|
                    0 <= j < k ==> !(if self.negative_time {
                        (#[trigger] self.solution_points@[j]).t.sp_lt(t)
                    } else {
                        t.sp_lt(self.solution_points@[j].t)
                    }),
            decreases n - k,
        {
            let past = if self.negative_time {
                self.solution_points[k].t.lt(t)
            } else {
                t.lt(self.solution_points[k].t)
            };
            if past {
                return k;
            }
            k = k + 1;
        }
        n
    }

    /// Inserts a point at the first index whose time lies past `t` in the
    /// direction of integration, keeping the list ordered by time.
    pub fn push(&mut self, state: V, t: V::T)
        ensures
            final(self).solution_points@.len() == old(self).solution_points@.len() + 1,
            final(self).negative_time == old(self).negative_time,
            final(self).rtol == old(self).rtol,
            final(self).atol == old(self).atol,
            final(self).sens_solution_points == old(self).sens_solution_points,
            exists|k: int|
                0 <= k <= old(self).solution_points@.len() && final(self).solution_points@ == old(
                    self,
                ).solution_points@.insert(k, (OdeSolverSolutionPoint { state, t })) && (forall|
                    q: int,
                |
                    0 <= q < k ==> !(if old(self).negative_time {
                        (#[trigger] old(self).solution_points@[q]).t.sp_lt(t)
                    } else {
                        t.sp_lt(old(self).solution_points@[q].t)
                    })) && (k < old(self).solution_points@.len() ==> (if old(self).negative_time {
                    old(self).solution_points@[k].t.sp_lt(t)
                } else {
                    t.sp_lt(old(self).solution_points@[k].t)
                })),
    {
        let index = self.get_index(t);
        self.solution_points.insert(index, OdeSolverSolutionPoint { state, t });
        proof {
            assert(final(self).solution_points@ == old(self).solution_points@.insert(
                index as int,
                (OdeSolverSolutionPoint { state, t }),
            ));
        }
    }

    /// Inserts a point together with one sensitivity value per column.
    pub fn push_sens(&mut self, state: V, t: V::T, sens: &Vec<V>)
        ensures
            final(self).solution_points@.len() == old(self).solution_points@.len() + 1,
    {
        let index = self.get_index(t);
        self.solution_points.insert(index, OdeSolverSolutionPoint { state, t });
        if self.sens_solution_points.is_none() {
            let mut empty: Vec<Vec<OdeSolverSolutionPoint<V>>> = Vec::new();
            let mut i: usize = 0;
            while i < sens.len()
                invariant
                    i <= sens@.len(),
                decreases sens@.len() - i,
            {
                empty.push(Vec::new());
                i = i + 1;
            }
            self.sens_solution_points = Some(empty);
        }
        if let Some(sp) = self.sens_solution_points.as_mut() {
            let mut i: usize = 0;
            while i < sens.len()
                invariant
                    i <= sens@.len(),
                decreases sens@.len() - i,
            {
                if i < sp.len() {
                    let list = &mut sp[i];
                    let at = if index <= list.len() {
                        index
                    } else {
                        list.len()
                    };
                    list.insert(at, OdeSolverSolutionPoint { state: sens[i].clone_vec(), t });
                }
                i = i + 1;
            }
        }
    }

    /// An empty solution with the given tolerances.
    pub fn new_empty(rtol: V::T, atol: V, negative_time: bool) -> (r: Self)
        ensures
            r.solution_points@.len() == 0,
            r.sens_solution_points is None,
            r.rtol == rtol,
            r.negative_time == negative_time,
    {
        OdeSolverSolution {
            solution_points: Vec::new(),
            sens_solution_points: None,
            rtol,
            atol,
            negative_time,
        }
    }
}

impl<V: Vector> Default for OdeSolverSolution<V> {
    /// An empty, forward-in-time solution with tolerances of one part in a
    /// million.
    fn default() -> (r: Self)
        ensures
            r.solution_points@.len() == 0,
            r.sens_solution_points is None,
            r.rtol == V::T::sp_ratio(1, 1000000),
            !r.negative_time,
    {
        OdeSolverSolution {
            solution_points: Vec::new(),
            sens_solution_points: None,
            rtol: V::T::ratio(1, 1000000),
            atol: V::from_element(1, V::T::ratio(1, 1000000)),
            negative_time: false,
        }
    }
}

} // verus!
