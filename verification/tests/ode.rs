//! End-to-end tests of the BDF solver on a double-precision backend.

use std::rc::Rc;

use diffsol::bdf::{Bdf, OdeSolverStopReason};
use diffsol::error::DiffsolError;
use diffsol::linear_solver::LinearSolver;
use diffsol::matrix::{DenseMat, MatrixCommon};
use diffsol::op::{jacobian_by_column_probing, LinearOp, NonLinearOp, Op, UnitCallable};
use diffsol::problem::OdeSolverProblem;
use diffsol::scalar::Scalar;
use diffsol::equations::OdeSolverEquations;
use diffsol::vector::{DVec, Vector, VectorCommon};

/// The double-precision scalar backend.
#[derive(Clone, Copy, Debug, PartialEq)]
pub struct F(pub f64);

impl Scalar for F {
    fn zero() -> F {
        F(0.0)
    }
    fn one() -> F {
        F(1.0)
    }
    fn add(self, other: F) -> F {
        F(self.0 + other.0)
    }
    fn sub(self, other: F) -> F {
        F(self.0 - other.0)
    }
    fn mul(self, other: F) -> F {
        F(self.0 * other.0)
    }
    fn div(self, other: F) -> F {
        F(self.0 / other.0)
    }
    fn neg(self) -> F {
        F(-self.0)
    }
    fn abs(self) -> F {
        F(self.0.abs())
    }
    fn sqrt(self) -> F {
        F(self.0.sqrt())
    }
    fn pow(self, e: F) -> F {
        F(self.0.powf(e.0))
    }
    fn powi(self, e: i32) -> F {
        F(self.0.powi(e))
    }
    fn eq_val(self, other: F) -> bool {
        self.0 == other.0
    }
    fn lt(self, other: F) -> bool {
        self.0 < other.0
    }
    fn le(self, other: F) -> bool {
        self.0 <= other.0
    }
    fn ratio(num: i64, den: i64) -> F {
        F(num as f64 / den as f64)
    }
    fn from_index(value: usize) -> F {
        F(value as f64)
    }
    fn epsilon() -> F {
        F(f64::EPSILON)
    }
    fn infinity() -> F {
        F(f64::INFINITY)
    }
}

type V = DVec<F>;
type M = DenseMat<V>;
type InitFn = fn(&V, F) -> V;

fn vf(values: &[f64]) -> V {
    let mut data: Vec<F> = Vec::new();
    for &v in values {
        data.push(F(v));
    }
    V::from_vec(data)
}

/// A dense LU factorization with partial pivoting.
pub struct DenseLu {
    factors: Option<(Vec<Vec<f64>>, Vec<usize>)>,
}

impl DenseLu {
    pub fn new() -> Self {
        DenseLu { factors: None }
    }
}

impl LinearSolver for DenseLu {
    type T = F;
    type V = V;
    type M = M;

    fn set_linearisation(&mut self, m: &M) -> Result<(), DiffsolError> {
        let n = m.nrows();
        let mut a: Vec<Vec<f64>> = Vec::new();
        for i in 0..n {
            let mut row = Vec::new();
            for j in 0..n {
                row.push(m.get(i, j).0);
            }
            a.push(row);
        }
        let mut perm: Vec<usize> = (0..n).collect();
        for k in 0..n {
            // partial pivoting
            let mut piv = k;
            for i in k + 1..n {
                if a[i][k].abs() > a[piv][k].abs() {
                    piv = i;
                }
            }
            if a[piv][k] == 0.0 || !a[piv][k].is_finite() {
                self.factors = None;
                return Err(DiffsolError::LinearSolveFailure);
            }
            a.swap(k, piv);
            perm.swap(k, piv);
            for i in k + 1..n {
                let l = a[i][k] / a[k][k];
                a[i][k] = l;
                for j in k + 1..n {
                    let akj = a[k][j];
                    a[i][j] -= l * akj;
                }
            }
        }
        self.factors = Some((a, perm));
        Ok(())
    }

    fn solve_in_place(&self, b: &mut V) -> Result<(), DiffsolError> {
        let (a, perm) = match &self.factors {
            Some(f) => f,
            None => return Err(DiffsolError::LinearSolveFailure),
        };
        let n = a.len();
        if b.len() != n {
            return Err(DiffsolError::LinearSolveFailure);
        }
        let mut x: Vec<f64> = Vec::new();
        for i in 0..n {
            x.push(b.get(perm[i]).0);
        }
        // forward substitution
        for i in 0..n {
            for j in 0..i {
                let xj = x[j];
                x[i] -= a[i][j] * xj;
            }
        }
        // back substitution
        for i in (0..n).rev() {
            for j in i + 1..n {
                let xj = x[j];
                x[i] -= a[i][j] * xj;
            }
            x[i] /= a[i][i];
        }
        for i in 0..n {
            b.set(i, F(x[i]));
        }
        Ok(())
    }
}

/// Exponential decay `F(y) = -k * y` with parameters `p = [k]`.
pub struct DecayRhs {
    pub n: usize,
    pub p: Rc<V>,
}

impl Op for DecayRhs {
    type T = F;
    type V = V;
    type M = M;
    fn nstates(&self) -> usize {
        self.n
    }
    fn nout(&self) -> usize {
        self.n
    }
    fn nparams(&self) -> usize {
        1
    }
    fn set_params(&mut self, p: Rc<V>) {
        self.p = p;
    }
}

impl NonLinearOp for DecayRhs {
    fn call_inplace(&self, x: &V, _t: F, y: &mut V) {
        let k = self.p.as_slice()[0].0;
        for i in 0..self.n {
            y.set(i, F(-k * x.get(i).0));
        }
    }
    fn jac_mul_inplace(&self, _x: &V, _t: F, v: &V, y: &mut V) {
        let k = self.p.as_slice()[0].0;
        for i in 0..self.n {
            y.set(i, F(-k * v.get(i).0));
        }
    }
    fn jacobian_inplace(&self, x: &V, t: F, m: &mut M) {
        jacobian_by_column_probing(self, x, t, m);
    }
    fn sens_mul_inplace(&self, x: &V, _t: F, v: &V, y: &mut V) {
        // dF/dk = -y, one parameter
        for i in 0..self.n {
            y.set(i, F(-x.get(i).0 * v.get(0).0));
        }
    }
}



fn init_ones(_p: &V, _t: F) -> V {
    vf(&[1.0, 1.0])
}

fn decay_problem(k: f64, h0: f64) -> OdeSolverProblem<OdeSolverEquations<M, DecayRhs, InitFn>> {
    let p = Rc::new(vf(&[k]));
    let rhs = DecayRhs { n: 2, p: Rc::clone(&p) };
    let mass: Option<UnitCallable<M>> = None;
    let root: Option<UnitCallable<M>> = None;
    let eqn = OdeSolverEquations::new(rhs, mass, root, init_ones as InitFn, p, true);
    OdeSolverProblem::new(
        eqn,
        F(1e-6),
        vf(&[1e-6, 1e-6]),
        None,
        None,
        None,
        None,
        None,
        None,
        F(0.0),
        F(h0),
        false,
    )
    .unwrap()
}

fn step_until(
    solver: &mut Bdf<'_, OdeSolverEquations<M, DecayRhs, InitFn>, DenseLu>,
    t: f64,
) {
    while solver.state().t.0 < t {
        solver.step().unwrap();
    }
}

#[test]
fn bdf_test_interpolate() {
    let problem = decay_problem(0.1, 0.01);
    let mut solver = problem.bdf(DenseLu::new()).unwrap();
    // interpolation is only served inside the last step
    assert!(solver.interpolate(F(1.0)).is_err());
    step_until(&mut solver, 1.0);
    let t1 = solver.state().t.0;
    let h = solver.state().h.0;
    let tmid = t1 - 0.5 * h;
    let y = solver.interpolate(F(tmid)).unwrap();
    let expect = (-0.1 * tmid).exp();
    assert!((y.get(0).0 - expect).abs() < 1e-5, "y = {}", y.get(0).0);
    // beyond the current time is refused
    assert_eq!(
        solver.interpolate(F(t1 + 1.0)).unwrap_err(),
        DiffsolError::InterpolationTimeAfterCurrentTime
    );
    // and so is a time before the start of the last step
    assert_eq!(
        solver.interpolate(F(t1 - 2.0 * h)).unwrap_err(),
        DiffsolError::InterpolationTimeOutsideCurrentStep
    );
    assert_eq!(
        solver.interpolate_out(F(t1 - 2.0 * h)).unwrap_err(),
        DiffsolError::InterpolationTimeOutsideCurrentStep
    );
}

#[test]
fn bdf_test_nalgebra_exponential_decay() {
    // expected y(10) = exp(-1) in both components
    let problem = decay_problem(0.1, 0.01);
    let mut solver = problem.bdf(DenseLu::new()).unwrap();
    let mut solver_ref = problem.bdf(DenseLu::new()).unwrap();
    solver_ref.set_stop_time(F(10.0)).unwrap();
    loop {
        match solver_ref.step().unwrap() {
            OdeSolverStopReason::TstopReached => break,
            _ => {}
        }
    }
    let y = &solver_ref.state().y;
    let expect = (-1.0f64).exp();
    let tol = 1e-6 + 1e-6 * expect;
    assert!((y.get(0).0 - expect).abs() < tol, "y0 = {}", y.get(0).0);
    assert!((y.get(1).0 - expect).abs() < tol, "y1 = {}", y.get(1).0);
    // and the plain solver reports internal steps
    match solver.step().unwrap() {
        OdeSolverStopReason::InternalTimestep => {}
        _ => panic!("expected an internal step"),
    }
    assert!(solver.get_statistics().number_of_steps == 1);
}

#[test]
fn bdf_test_nalgebra_negative_exponential_decay() {
    // integrate backwards from t=0 with a negative step
    let problem = decay_problem(-0.1, -0.01);
    let mut solver = problem.bdf(DenseLu::new()).unwrap();
    solver.set_stop_time(F(-10.0)).unwrap();
    loop {
        match solver.step().unwrap() {
            OdeSolverStopReason::TstopReached => break,
            _ => {}
        }
    }
    let y = &solver.state().y;
    let expect = (-1.0f64).exp();
    let tol = 1e-6 + 1e-6 * expect;
    assert!((y.get(0).0 - expect).abs() < tol, "y0 = {}", y.get(0).0);
}

#[test]
fn test_tstop_bdf() {
    let problem = decay_problem(0.1, 0.01);
    let mut solver = problem.bdf(DenseLu::new()).unwrap();
    solver.set_stop_time(F(2.5)).unwrap();
    let mut reached = false;
    for _ in 0..10000 {
        match solver.step().unwrap() {
            OdeSolverStopReason::TstopReached => {
                reached = true;
                break;
            }
            _ => {}
        }
    }
    assert!(reached);
    assert!((solver.state().t.0 - 2.5).abs() < 1e-9);
    // a stop time behind the current time is refused
    assert_eq!(
        solver.set_stop_time(F(1.0)).unwrap_err(),
        DiffsolError::StopTimeBeforeCurrentTime
    );
}

#[test]
fn bdf_test_state_mut_exponential_decay() {
    let problem = decay_problem(0.1, 0.01);
    let mut solver = problem.bdf(DenseLu::new()).unwrap();
    step_until(&mut solver, 1.0);
    // replace the state by hand and read it back unchanged
    let mut state = solver.checkpoint();
    state.y.set(0, F(2.0));
    state.y.set(1, F(2.0));
    state.t = F(0.0);
    let t_set = state.t;
    let y0_set = state.y.get(0);
    solver.set_state(state);
    assert_eq!(solver.state().t.0, t_set.0);
    assert_eq!(solver.state().y.get(0).0, y0_set.0);
    assert_eq!(solver.order(), solver.state().order);
    // interpolation at another time is refused while the state is replaced
    assert_eq!(
        solver.interpolate(F(0.5)).unwrap_err(),
        DiffsolError::InterpolationTimeOutsideCurrentStep
    );
    let y_now = solver.interpolate(F(0.0)).unwrap();
    assert_eq!(y_now.get(0).0, 2.0);
    // the next steps integrate from the new state
    solver.set_stop_time(F(10.0)).unwrap();
    loop {
        match solver.step().unwrap() {
            OdeSolverStopReason::TstopReached => break,
            _ => {}
        }
    }
    let expect = 2.0 * (-1.0f64).exp();
    assert!((solver.state().y.get(0).0 - expect).abs() < 1e-4);
}

#[test]
fn bdf_test_checkpointing() {
    let problem = decay_problem(0.1, 0.01);
    let mut solver = problem.bdf(DenseLu::new()).unwrap();
    step_until(&mut solver, 2.0);
    let checkpoint = solver.checkpoint();
    assert_eq!(checkpoint.t.0, solver.state().t.0);
    assert_eq!(checkpoint.y.get(0).0, solver.state().y.get(0).0);
    // a second solver resumed from the checkpoint agrees with the first
    let mut resumed = problem.bdf_solver(checkpoint, DenseLu::new()).unwrap();
    solver.set_stop_time(F(5.0)).unwrap();
    resumed.set_stop_time(F(5.0)).unwrap();
    loop {
        match solver.step().unwrap() {
            OdeSolverStopReason::TstopReached => break,
            _ => {}
        }
    }
    loop {
        match resumed.step().unwrap() {
            OdeSolverStopReason::TstopReached => break,
            _ => {}
        }
    }
    assert!((solver.state().y.get(0).0 - resumed.state().y.get(0).0).abs() < 1e-6);
}

/// The Robertson stiff chemistry problem.
pub struct RobertsonRhs {
    pub p: Rc<V>,
}

impl Op for RobertsonRhs {
    type T = F;
    type V = V;
    type M = M;
    fn nstates(&self) -> usize {
        3
    }
    fn nout(&self) -> usize {
        3
    }
    fn nparams(&self) -> usize {
        0
    }
    fn set_params(&mut self, p: Rc<V>) {
        self.p = p;
    }
}

impl NonLinearOp for RobertsonRhs {
    fn call_inplace(&self, x: &V, _t: F, y: &mut V) {
        let (a, b, c) = (0.04, 1e4, 3e7);
        let (x0, x1, x2) = (x.get(0).0, x.get(1).0, x.get(2).0);
        y.set(0, F(-a * x0 + b * x1 * x2));
        y.set(1, F(a * x0 - b * x1 * x2 - c * x1 * x1));
        y.set(2, F(c * x1 * x1));
    }
    fn jac_mul_inplace(&self, x: &V, _t: F, v: &V, y: &mut V) {
        let (a, b, c) = (0.04, 1e4, 3e7);
        let (x1, x2) = (x.get(1).0, x.get(2).0);
        let (v0, v1, v2) = (v.get(0).0, v.get(1).0, v.get(2).0);
        y.set(0, F(-a * v0 + b * x2 * v1 + b * x1 * v2));
        y.set(1, F(a * v0 - b * x2 * v1 - b * x1 * v2 - 2.0 * c * x1 * v1));
        y.set(2, F(2.0 * c * x1 * v1));
    }
    fn jacobian_inplace(&self, x: &V, t: F, m: &mut M) {
        jacobian_by_column_probing(self, x, t, m);
    }
}

fn init_robertson(_p: &V, _t: F) -> V {
    vf(&[1.0, 0.0, 0.0])
}

#[test]
fn test_bdf_nalgebra_robertson() {
    let p = Rc::new(V::from_vec(Vec::new()));
    let rhs = RobertsonRhs { p: Rc::clone(&p) };
    let mass: Option<UnitCallable<M>> = None;
    let root: Option<UnitCallable<M>> = None;
    let eqn = OdeSolverEquations::new(rhs, mass, root, init_robertson as InitFn, p, true);
    let problem = OdeSolverProblem::new(
        eqn,
        F(1e-8),
        vf(&[1e-8, 1e-12, 1e-8]),
        None,
        None,
        None,
        None,
        None,
        None,
        F(0.0),
        F(1e-6),
        false,
    )
    .unwrap();
    let mut solver = problem.bdf(DenseLu::new()).unwrap();
    solver.set_stop_time(F(1e4)).unwrap();
    let mut steps = 0usize;
    loop {
        match solver.step().unwrap() {
            OdeSolverStopReason::TstopReached => break,
            _ => {}
        }
        // mass conservation holds at every reported point
        let y = &solver.state().y;
        let total = y.get(0).0 + y.get(1).0 + y.get(2).0;
        assert!((total - 1.0).abs() < 1e-8, "sum = {}", total);
        steps += 1;
        assert!(steps < 100000);
    }
    let y = &solver.state().y;
    let total = y.get(0).0 + y.get(1).0 + y.get(2).0;
    assert!((total - 1.0).abs() < 1e-8);
    // the solution has left the initial state and stayed physical
    assert!(y.get(0).0 < 1.0 && y.get(0).0 > 0.0);
}

/// Decay with an algebraic constraint `0 = y2 - y1` under a singular mass
/// matrix `diag(1, 1, 0)`.
pub struct AlgebraicRhs {
    pub p: Rc<V>,
}

impl Op for AlgebraicRhs {
    type T = F;
    type V = V;
    type M = M;
    fn nstates(&self) -> usize {
        3
    }
    fn nout(&self) -> usize {
        3
    }
    fn nparams(&self) -> usize {
        0
    }
    fn set_params(&mut self, p: Rc<V>) {
        self.p = p;
    }
}

impl NonLinearOp for AlgebraicRhs {
    fn call_inplace(&self, x: &V, _t: F, y: &mut V) {
        y.set(0, F(-0.1 * x.get(0).0));
        y.set(1, F(-0.1 * x.get(1).0));
        y.set(2, F(x.get(2).0 - x.get(1).0));
    }
    fn jac_mul_inplace(&self, _x: &V, _t: F, v: &V, y: &mut V) {
        y.set(0, F(-0.1 * v.get(0).0));
        y.set(1, F(-0.1 * v.get(1).0));
        y.set(2, F(v.get(2).0 - v.get(1).0));
    }
    fn jacobian_inplace(&self, x: &V, t: F, m: &mut M) {
        jacobian_by_column_probing(self, x, t, m);
    }
}

/// The singular mass operator `diag(1, 1, 0)`.
pub struct SingularMass {
    pub p: Rc<V>,
}

impl Op for SingularMass {
    type T = F;
    type V = V;
    type M = M;
    fn nstates(&self) -> usize {
        3
    }
    fn nout(&self) -> usize {
        3
    }
    fn nparams(&self) -> usize {
        0
    }
    fn set_params(&mut self, p: Rc<V>) {
        self.p = p;
    }
}

impl LinearOp for SingularMass {
    fn gemv(&self, _t: F, alpha: F, x: &V, beta: F, y: &mut V) {
        let y0 = y.get(0).0;
        let y1 = y.get(1).0;
        let y2 = y.get(2).0;
        y.set(0, F(alpha.0 * x.get(0).0 + beta.0 * y0));
        y.set(1, F(alpha.0 * x.get(1).0 + beta.0 * y1));
        y.set(2, F(beta.0 * y2));
    }
    fn matrix_inplace(&self, _t: F, m: &mut M) {
        m.set(0, 0, F(1.0));
        m.set(1, 1, F(1.0));
        m.set(2, 2, F(0.0));
    }
}

fn init_algebraic(_p: &V, _t: F) -> V {
    vf(&[1.0, 1.0, 1.0])
}

#[test]
fn test_bdf_nalgebra_exponential_decay_algebraic() {
    let p = Rc::new(V::from_vec(Vec::new()));
    let rhs = AlgebraicRhs { p: Rc::clone(&p) };
    let mass = Some(SingularMass { p: Rc::clone(&p) });
    let root: Option<UnitCallable<M>> = None;
    let eqn = OdeSolverEquations::new(rhs, mass, root, init_algebraic as InitFn, p, true);
    let problem = OdeSolverProblem::new(
        eqn,
        F(1e-6),
        vf(&[1e-6, 1e-6, 1e-6]),
        None,
        None,
        None,
        None,
        None,
        None,
        F(0.0),
        F(1e-3),
        false,
    )
    .unwrap();
    let mut solver = problem.bdf(DenseLu::new()).unwrap();
    solver.set_stop_time(F(1.0)).unwrap();
    loop {
        match solver.step().unwrap() {
            OdeSolverStopReason::TstopReached => break,
            _ => {}
        }
    }
    let y = &solver.state().y;
    let expect = (-0.1f64).exp();
    assert!((y.get(1).0 - expect).abs() < 1e-5, "y1 = {}", y.get(1).0);
    // the constraint y2 = y1 is enforced by the implicit solve
    assert!((y.get(2).0 - y.get(1).0).abs() < 1e-5, "y2 = {}", y.get(2).0);
}

/// An event at `y0 = 0.6` for the decay problem.
pub struct DecayRoot {
    pub p: Rc<V>,
}

impl Op for DecayRoot {
    type T = F;
    type V = V;
    type M = M;
    fn nstates(&self) -> usize {
        2
    }
    fn nout(&self) -> usize {
        1
    }
    fn nparams(&self) -> usize {
        0
    }
    fn set_params(&mut self, p: Rc<V>) {
        self.p = p;
    }
}

impl NonLinearOp for DecayRoot {
    fn call_inplace(&self, x: &V, _t: F, y: &mut V) {
        y.set(0, F(x.get(0).0 - 0.6));
    }
    fn jac_mul_inplace(&self, _x: &V, _t: F, v: &V, y: &mut V) {
        y.set(0, v.get(0));
    }
    fn jacobian_inplace(&self, x: &V, t: F, m: &mut M) {
        jacobian_by_column_probing(self, x, t, m);
    }
}

#[test]
fn test_root_finder_bdf() {
    let p = Rc::new(vf(&[0.1]));
    let rhs = DecayRhs { n: 2, p: Rc::clone(&p) };
    let mass: Option<UnitCallable<M>> = None;
    let root = Some(DecayRoot { p: Rc::clone(&p) });
    let eqn = OdeSolverEquations::new(rhs, mass, root, init_ones as InitFn, p, true);
    let problem = OdeSolverProblem::new(
        eqn,
        F(1e-6),
        vf(&[1e-6, 1e-6]),
        None,
        None,
        None,
        None,
        None,
        None,
        F(0.0),
        F(0.01),
        false,
    )
    .unwrap();
    let mut solver = problem.bdf(DenseLu::new()).unwrap();
    let mut root_t = None;
    for _ in 0..100000 {
        match solver.step().unwrap() {
            OdeSolverStopReason::RootFound(t) => {
                root_t = Some(t.0);
                break;
            }
            _ => {}
        }
    }
    let t = root_t.expect("no root found");
    let expect = (1.0f64 / 0.6).ln() / 0.1;
    assert!((t - expect).abs() < 1e-4, "root at {}", t);
    let y = solver.interpolate(F(t)).unwrap();
    assert!((y.get(0).0 - 0.6).abs() < 1e-6, "y[0] = {}", y.get(0).0);
}

#[test]
fn bdf_test_nalgebra_exponential_decay_sens() {
    // forward sensitivity of decay in the rate parameter, against a central
    // finite difference
    let problem = decay_problem(0.1, 0.01);
    let state = problem.bdf_state_sens().unwrap();
    let mut solver = problem.bdf_solver_sens(state, DenseLu::new()).unwrap();
    solver.set_stop_time(F(10.0)).unwrap();
    loop {
        match solver.step().unwrap() {
            OdeSolverStopReason::TstopReached => break,
            _ => {}
        }
    }
    let s = &solver.state().s;
    assert_eq!(s.len(), 1);
    let sens = s[0].get(0).0;
    // the sensitivity history interpolates alongside the solution
    let t1 = solver.state().t.0;
    let h = solver.state().h.0;
    let si = solver.interpolate_sens(F(t1 - 0.5 * h)).unwrap();
    assert_eq!(si.len(), 1);
    let gi = solver.interpolate_out(F(t1 - 0.5 * h)).unwrap();
    assert_eq!(gi.len(), 0);
    // central difference with k +/- 1e-4
    let dk = 1e-4;
    let y_hi = solve_decay_to(0.1 + dk, 10.0);
    let y_lo = solve_decay_to(0.1 - dk, 10.0);
    let fd = (y_hi - y_lo) / (2.0 * dk);
    assert!((sens - fd).abs() < 1e-5, "sens = {}, fd = {}", sens, fd);
}

fn solve_decay_to(k: f64, t: f64) -> f64 {
    let problem = decay_problem(k, 0.01);
    let mut solver = problem.bdf(DenseLu::new()).unwrap();
    solver.set_stop_time(F(t)).unwrap();
    loop {
        match solver.step().unwrap() {
            OdeSolverStopReason::TstopReached => break,
            _ => {}
        }
    }
    solver.state().y.get(0).0
}

#[test]
fn test_order_changes_are_spaced() {
    // the order moves only after more successes than the current order
    let problem = decay_problem(0.1, 0.01);
    let mut solver = problem.bdf(DenseLu::new()).unwrap();
    let mut last_order = solver.order();
    let mut steps_since_change = 0usize;
    for _ in 0..200 {
        solver.step().unwrap();
        let order = solver.order();
        if order != last_order {
            assert!(
                steps_since_change >= last_order,
                "order moved after {} steps at order {}",
                steps_since_change,
                last_order
            );
            last_order = order;
            steps_since_change = 0;
        } else {
            steps_since_change += 1;
        }
        assert!(order >= 1 && order <= 5);
    }
}

#[test]
fn test_step_rejection_keeps_error_bound() {
    // a stiff start forces rejections; each accepted step passed the test
    let problem = decay_problem(50.0, 1.0);
    let mut solver = problem.bdf(DenseLu::new()).unwrap();
    for _ in 0..50 {
        solver.step().unwrap();
    }
    let stats = solver.get_statistics();
    assert_eq!(stats.number_of_steps, 50);
}

/// A right-hand side that never evaluates to a finite value.
pub struct BrokenRhs {
    pub p: Rc<V>,
}

impl Op for BrokenRhs {
    type T = F;
    type V = V;
    type M = M;
    fn nstates(&self) -> usize {
        1
    }
    fn nout(&self) -> usize {
        1
    }
    fn nparams(&self) -> usize {
        0
    }
    fn set_params(&mut self, p: Rc<V>) {
        self.p = p;
    }
}

impl NonLinearOp for BrokenRhs {
    fn call_inplace(&self, _x: &V, _t: F, y: &mut V) {
        y.set(0, F(f64::NAN));
    }
    fn jac_mul_inplace(&self, _x: &V, _t: F, v: &V, y: &mut V) {
        y.set(0, v.get(0));
    }
    fn jacobian_inplace(&self, x: &V, t: F, m: &mut M) {
        jacobian_by_column_probing(self, x, t, m);
    }
}

fn init_one(_p: &V, _t: F) -> V {
    vf(&[1.0])
}

#[test]
fn test_step_size_too_small_is_fatal() {
    let p = Rc::new(V::from_vec(Vec::new()));
    let rhs = BrokenRhs { p: Rc::clone(&p) };
    let mass: Option<UnitCallable<M>> = None;
    let root: Option<UnitCallable<M>> = None;
    let eqn = OdeSolverEquations::new(rhs, mass, root, init_one as InitFn, p, true);
    let problem = OdeSolverProblem::new(
        eqn,
        F(1e-6),
        vf(&[1e-6]),
        None,
        None,
        None,
        None,
        None,
        None,
        F(0.0),
        F(0.1),
        false,
    )
    .unwrap();
    let mut solver = problem.bdf(DenseLu::new()).unwrap();
    assert_eq!(solver.step().unwrap_err(), DiffsolError::StepSizeTooSmall);
}

#[test]
fn test_problem_rejects_wrong_tolerance_length() {
    let p = Rc::new(vf(&[0.1]));
    let rhs = DecayRhs { n: 2, p: Rc::clone(&p) };
    let mass: Option<UnitCallable<M>> = None;
    let root: Option<UnitCallable<M>> = None;
    let eqn = OdeSolverEquations::new(rhs, mass, root, init_ones as InitFn, p, true);
    let r = OdeSolverProblem::new(
        eqn,
        F(1e-6),
        vf(&[1e-6]),
        None,
        None,
        None,
        None,
        None,
        None,
        F(0.0),
        F(0.01),
        false,
    );
    assert!(matches!(r, Err(DiffsolError::InconsistentState)));
}

#[test]
fn test_interpolation_round_trip() {
    // interpolation inside the last step agrees with a reference
    // integration that lands on the same time
    let problem = decay_problem(0.1, 0.01);
    let mut solver = problem.bdf(DenseLu::new()).unwrap();
    step_until(&mut solver, 4.0);
    let t1 = solver.state().t.0;
    let h = solver.state().h.0;
    let tp = t1 - 0.3 * h;
    let yi = solver.interpolate(F(tp)).unwrap();
    let problem_ref = decay_problem(0.1, 0.01);
    let mut reference = problem_ref.bdf(DenseLu::new()).unwrap();
    reference.set_stop_time(F(tp)).unwrap();
    loop {
        match reference.step().unwrap() {
            OdeSolverStopReason::TstopReached => break,
            _ => {}
        }
    }
    let yr = reference.state().y.get(0).0;
    assert!((yi.get(0).0 - yr).abs() < 1e-5, "interp = {}, ref = {}", yi.get(0).0, yr);
}

#[test]
fn test_param_sweep_bdf() {
    // solving with a swept rate matches the analytic decay for each rate
    let mut problem = decay_problem(0.1, 0.01);
    for k10 in 1..10usize {
        let k = k10 as f64 / 10.0;
        problem.set_params(vf(&[k])).unwrap();
        let mut solver = problem.bdf(DenseLu::new()).unwrap();
        solver.set_stop_time(F(2.0)).unwrap();
        loop {
            match solver.step().unwrap() {
                OdeSolverStopReason::TstopReached => break,
                _ => {}
            }
        }
        let expect = (-2.0 * k).exp();
        let got = solver.state().y.get(0).0;
        assert!((got - expect).abs() < 1e-5, "k = {}: got {}", k, got);
    }
}
