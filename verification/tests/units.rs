//! Component tests: equations accessors, the rescaling matrix, Jacobian
//! probing, the convergence controller, the reuse policy, the sparsity
//! pattern, and the solution container.

use std::rc::Rc;

use diffsol::bdf::Bdf;
use diffsol::callable::Callable;
use diffsol::convergence::{Convergence, ConvergenceStatus};
use diffsol::equations::{OdeEquations, OdeEquationsStatistics, OdeSolverEquations};
use diffsol::error::DiffsolError;
use diffsol::jacobian_update::{JacobianUpdate, SolverState};
use diffsol::linear_solver::LinearSolver;
use diffsol::matrix::{DenseMat, Matrix};
use diffsol::op::{
    jacobian_by_column_probing, ConstantClosureWithSens, ConstantOp, LinearOp, NonLinearOp, Op,
    UnitCallable,
};
use diffsol::problem::{OdeSolverProblem, OdeSolverSolution};
use diffsol::scalar::Scalar;
use diffsol::sparsity::SparsityPattern;
use diffsol::vector::{DVec, Vector, VectorCommon};

/// The double-precision scalar backend.
#[derive(Clone, Copy, Debug, PartialEq)]
pub struct F(pub f64);

impl Scalar for F {
    fn zero() -> F {
        F(0.0)
    }
    fn one() -> F {
        F(1.0)
    }
    fn add(self, other: F) -> F {
        F(self.0 + other.0)
    }
    fn sub(self, other: F) -> F {
        F(self.0 - other.0)
    }
    fn mul(self, other: F) -> F {
        F(self.0 * other.0)
    }
    fn div(self, other: F) -> F {
        F(self.0 / other.0)
    }
    fn neg(self) -> F {
        F(-self.0)
    }
    fn abs(self) -> F {
        F(self.0.abs())
    }
    fn sqrt(self) -> F {
        F(self.0.sqrt())
    }
    fn pow(self, e: F) -> F {
        F(self.0.powf(e.0))
    }
    fn powi(self, e: i32) -> F {
        F(self.0.powi(e))
    }
    fn eq_val(self, other: F) -> bool {
        self.0 == other.0
    }
    fn lt(self, other: F) -> bool {
        self.0 < other.0
    }
    fn le(self, other: F) -> bool {
        self.0 <= other.0
    }
    fn ratio(num: i64, den: i64) -> F {
        F(num as f64 / den as f64)
    }
    fn from_index(value: usize) -> F {
        F(value as f64)
    }
    fn epsilon() -> F {
        F(f64::EPSILON)
    }
    fn infinity() -> F {
        F(f64::INFINITY)
    }
}

type V = DVec<F>;
type M = DenseMat<V>;
type InitFn = fn(&V, F) -> V;

fn vf(values: &[f64]) -> V {
    let mut data: Vec<F> = Vec::new();
    for &v in values {
        data.push(F(v));
    }
    V::from_vec(data)
}

/// Exponential decay `F(y) = -k * y` with `p = [k]`.
pub struct DecayRhs {
    pub n: usize,
    pub p: Rc<V>,
}

impl Op for DecayRhs {
    type T = F;
    type V = V;
    type M = M;
    fn nstates(&self) -> usize {
        self.n
    }
    fn nout(&self) -> usize {
        self.n
    }
    fn nparams(&self) -> usize {
        1
    }
    fn set_params(&mut self, p: Rc<V>) {
        self.p = p;
    }
}

impl NonLinearOp for DecayRhs {
    fn call_inplace(&self, x: &V, _t: F, y: &mut V) {
        let k = self.p.as_slice()[0].0;
        for i in 0..self.n {
            y.set(i, F(-k * x.get(i).0));
        }
    }
    fn jac_mul_inplace(&self, _x: &V, _t: F, v: &V, y: &mut V) {
        let k = self.p.as_slice()[0].0;
        for i in 0..self.n {
            y.set(i, F(-k * v.get(i).0));
        }
    }
    fn jacobian_inplace(&self, x: &V, t: F, m: &mut M) {
        jacobian_by_column_probing(self, x, t, m);
    }
}

fn init_ones(_p: &V, _t: F) -> V {
    vf(&[1.0, 1.0])
}

#[test]
fn ode_equation_test() {
    let p = Rc::new(vf(&[0.1]));
    let rhs = DecayRhs { n: 2, p: Rc::clone(&p) };
    let mass: Option<UnitCallable<M>> = None;
    let root: Option<UnitCallable<M>> = None;
    let eqn = OdeSolverEquations::new(rhs, mass, root, init_ones as InitFn, p, true);
    let y = vf(&[1.0, 1.0]);
    let mut rhs_y = V::zeros(2);
    eqn.rhs().call_inplace(&y, F(0.0), &mut rhs_y);
    assert!((rhs_y.get(0).0 - -0.1).abs() < 1e-10);
    assert!((rhs_y.get(1).0 - -0.1).abs() < 1e-10);
    let mut jac_rhs_y = V::zeros(2);
    eqn.rhs().jac_mul_inplace(&y, F(0.0), &y, &mut jac_rhs_y);
    assert!((jac_rhs_y.get(0).0 - -0.1).abs() < 1e-10);
    assert!((jac_rhs_y.get(1).0 - -0.1).abs() < 1e-10);
    assert!(eqn.mass().is_none());
    let mut jac = M::new_zeros(2, 2);
    eqn.rhs().jacobian_inplace(&y, F(0.0), &mut jac);
    assert_eq!(jac.get(0, 0).0, -0.1);
    assert_eq!(jac.get(1, 1).0, -0.1);
    assert_eq!(jac.get(0, 1).0, 0.0);
    assert_eq!(jac.get(1, 0).0, 0.0);
}

/// Decay with the algebraic constraint `0 = y3 - y2` under the mass
/// `diag(1, 1, 0)`.
pub struct AlgebraicRhs {
    pub p: Rc<V>,
}

impl Op for AlgebraicRhs {
    type T = F;
    type V = V;
    type M = M;
    fn nstates(&self) -> usize {
        3
    }
    fn nout(&self) -> usize {
        3
    }
    fn nparams(&self) -> usize {
        0
    }
    fn set_params(&mut self, p: Rc<V>) {
        self.p = p;
    }
}

impl NonLinearOp for AlgebraicRhs {
    fn call_inplace(&self, x: &V, _t: F, y: &mut V) {
        y.set(0, F(-0.1 * x.get(0).0));
        y.set(1, F(-0.1 * x.get(1).0));
        y.set(2, F(x.get(2).0 - x.get(1).0));
    }
    fn jac_mul_inplace(&self, _x: &V, _t: F, v: &V, y: &mut V) {
        y.set(0, F(-0.1 * v.get(0).0));
        y.set(1, F(-0.1 * v.get(1).0));
        y.set(2, F(v.get(2).0 - v.get(1).0));
    }
    fn jacobian_inplace(&self, x: &V, t: F, m: &mut M) {
        jacobian_by_column_probing(self, x, t, m);
    }
}

/// The singular mass operator `diag(1, 1, 0)`.
pub struct SingularMass {
    pub p: Rc<V>,
}

impl Op for SingularMass {
    type T = F;
    type V = V;
    type M = M;
    fn nstates(&self) -> usize {
        3
    }
    fn nout(&self) -> usize {
        3
    }
    fn nparams(&self) -> usize {
        0
    }
    fn set_params(&mut self, p: Rc<V>) {
        self.p = p;
    }
}

impl LinearOp for SingularMass {
    fn gemv(&self, _t: F, alpha: F, x: &V, beta: F, y: &mut V) {
        let y0 = y.get(0).0;
        let y1 = y.get(1).0;
        let y2 = y.get(2).0;
        y.set(0, F(alpha.0 * x.get(0).0 + beta.0 * y0));
        y.set(1, F(alpha.0 * x.get(1).0 + beta.0 * y1));
        y.set(2, F(beta.0 * y2));
    }
    fn matrix_inplace(&self, _t: F, m: &mut M) {
        m.set(0, 0, F(1.0));
        m.set(1, 1, F(1.0));
        m.set(2, 2, F(0.0));
    }
}

fn init_algebraic(_p: &V, _t: F) -> V {
    vf(&[1.0, 1.0, 1.0])
}

#[test]
fn ode_with_mass_test() {
    let p = Rc::new(V::from_vec(Vec::new()));
    let rhs = AlgebraicRhs { p: Rc::clone(&p) };
    let mass = Some(SingularMass { p: Rc::clone(&p) });
    let root: Option<UnitCallable<M>> = None;
    let eqn = OdeSolverEquations::new(rhs, mass, root, init_algebraic as InitFn, p, true);
    let y = vf(&[1.0, 1.0, 1.0]);
    let mut rhs_y = V::zeros(3);
    eqn.rhs().call_inplace(&y, F(0.0), &mut rhs_y);
    assert!((rhs_y.get(0).0 - -0.1).abs() < 1e-10);
    assert!((rhs_y.get(1).0 - -0.1).abs() < 1e-10);
    assert!((rhs_y.get(2).0 - 0.0).abs() < 1e-10);
    let mut jac_rhs_y = V::zeros(3);
    eqn.rhs().jac_mul_inplace(&y, F(0.0), &y, &mut jac_rhs_y);
    assert!((jac_rhs_y.get(2).0 - 0.0).abs() < 1e-10);
    let mut massm = M::new_zeros(3, 3);
    eqn.mass().unwrap().matrix_inplace(F(0.0), &mut massm);
    assert_eq!(massm.get(0, 0).0, 1.0);
    assert_eq!(massm.get(1, 1).0, 1.0);
    assert_eq!(massm.get(2, 2).0, 0.0);
    assert_eq!(massm.get(0, 1).0, 0.0);
    assert_eq!(massm.get(1, 0).0, 0.0);
    assert_eq!(massm.get(0, 2).0, 0.0);
    assert_eq!(massm.get(2, 0).0, 0.0);
    assert_eq!(massm.get(1, 2).0, 0.0);
    assert_eq!(massm.get(2, 1).0, 0.0);
    let mut jac = M::new_zeros(3, 3);
    eqn.rhs().jacobian_inplace(&y, F(0.0), &mut jac);
    assert_eq!(jac.get(0, 0).0, -0.1);
    assert_eq!(jac.get(1, 1).0, -0.1);
    assert_eq!(jac.get(2, 2).0, 1.0);
    assert_eq!(jac.get(0, 1).0, 0.0);
    assert_eq!(jac.get(1, 0).0, 0.0);
    assert_eq!(jac.get(0, 2).0, 0.0);
    assert_eq!(jac.get(2, 0).0, 0.0);
    assert_eq!(jac.get(1, 2).0, 0.0);
    assert_eq!(jac.get(2, 1).0, -1.0);
}

type DecaySolverType = Bdf<'static, OdeSolverEquations<M, DecayRhs, InitFn>, NoLu>;

/// A linear solver that is never consulted, for tests of associated
/// functions.
pub struct NoLu;

impl LinearSolver for NoLu {
    type T = F;
    type V = V;
    type M = M;
    fn set_linearisation(&mut self, _m: &M) -> Result<(), DiffsolError> {
        Err(DiffsolError::LinearSolveFailure)
    }
    fn solve_in_place(&self, _b: &mut V) -> Result<(), DiffsolError> {
        Err(DiffsolError::LinearSolveFailure)
    }
}

#[test]
fn test_rescaling_matrix_is_involutive() {
    // the applied history transform is R(k, rho) * U with U = R(k, 1);
    // composing it with the transform for 1/rho is the identity on the
    // first k+1 columns, up to roundoff
    for k in 1..=5usize {
        let u = DecaySolverType::compute_r(k, F(1.0));
        for &rho in &[0.5f64, 2.0, 1.37] {
            let a = DecaySolverType::compute_r(k, F(rho)).mat_mul(&u);
            let b = DecaySolverType::compute_r(k, F(1.0 / rho)).mat_mul(&u);
            let ab = a.mat_mul(&b);
            for i in 0..=k {
                for j in 0..=k {
                    let expect = if i == j { 1.0 } else { 0.0 };
                    assert!(
                        (ab.get(i, j).0 - expect).abs() < 1e-9,
                        "k={} rho={} ab[{}][{}]={}",
                        k,
                        rho,
                        i,
                        j,
                        ab.get(i, j).0
                    );
                }
            }
        }
        // R(k, 1) has the unit first row and column structure of U
        for j in 0..=k {
            assert_eq!(u.get(0, j).0, 1.0);
        }
        for i in 1..=k {
            assert_eq!(u.get(i, 0).0, 0.0);
        }
    }
}

/// A right-hand side with a dense analytic Jacobian.
pub struct CoupledRhs {
    pub p: Rc<V>,
}

impl Op for CoupledRhs {
    type T = F;
    type V = V;
    type M = M;
    fn nstates(&self) -> usize {
        2
    }
    fn nout(&self) -> usize {
        2
    }
    fn nparams(&self) -> usize {
        0
    }
    fn set_params(&mut self, p: Rc<V>) {
        self.p = p;
    }
}

impl NonLinearOp for CoupledRhs {
    fn call_inplace(&self, x: &V, _t: F, y: &mut V) {
        let (a, b) = (x.get(0).0, x.get(1).0);
        y.set(0, F(-0.5 * a + 0.2 * b));
        y.set(1, F(0.3 * a - 0.7 * b));
    }
    fn jac_mul_inplace(&self, _x: &V, _t: F, v: &V, y: &mut V) {
        let (a, b) = (v.get(0).0, v.get(1).0);
        y.set(0, F(-0.5 * a + 0.2 * b));
        y.set(1, F(0.3 * a - 0.7 * b));
    }
    fn jacobian_inplace(&self, _x: &V, _t: F, m: &mut M) {
        // the analytic matrix, written directly
        m.set(0, 0, F(-0.5));
        m.set(0, 1, F(0.2));
        m.set(1, 0, F(0.3));
        m.set(1, 1, F(-0.7));
    }
}

#[test]
fn test_jacobian_probing_matches_analytic() {
    let p = Rc::new(V::from_vec(Vec::new()));
    let op = CoupledRhs { p };
    let x = vf(&[0.3, -1.2]);
    let mut probed = M::new_zeros(2, 2);
    jacobian_by_column_probing(&op, &x, F(0.0), &mut probed);
    let mut analytic = M::new_zeros(2, 2);
    op.jacobian_inplace(&x, F(0.0), &mut analytic);
    for i in 0..2 {
        for j in 0..2 {
            assert!(
                (probed.get(i, j).0 - analytic.get(i, j).0).abs() < 1e-10,
                "probed[{}][{}] = {}",
                i,
                j,
                probed.get(i, j).0
            );
        }
    }
}

#[test]
fn test_convergence_controller_decisions() {
    // rtol = 1e-6: tol = clamp(0.5e-3, 10 eps / rtol, 0.03) = 5e-4
    let mut conv: Convergence<V> = Convergence::new(F(1e-6), vf(&[1.0]), 4);
    assert_eq!(conv.max_iter(), 4);
    assert_eq!(conv.niter(), 0);
    // a vanishing correction converges at once
    let y = vf(&[0.0]);
    let mut dy = vf(&[0.0]);
    assert!(matches!(conv.check_new_iteration(&mut dy, &y), ConvergenceStatus::Converged));
    // a first finite correction may continue
    let mut dy = vf(&[0.1]);
    assert!(matches!(conv.check_new_iteration(&mut dy, &y), ConvergenceStatus::Continue));
    assert_eq!(conv.niter(), 1);
    // a fast rate converges
    let mut dy = vf(&[1e-9]);
    assert!(matches!(conv.check_new_iteration(&mut dy, &y), ConvergenceStatus::Converged));
    // a growing correction diverges
    conv.reset();
    let mut dy = vf(&[0.1]);
    assert!(matches!(conv.check_new_iteration(&mut dy, &y), ConvergenceStatus::Continue));
    let mut dy = vf(&[0.2]);
    assert!(matches!(conv.check_new_iteration(&mut dy, &y), ConvergenceStatus::Diverged));
    // with a budget of one, a finite first correction exhausts it at once
    let mut tight: Convergence<V> = Convergence::new(F(1e-6), vf(&[1.0]), 1);
    let mut dy = vf(&[0.1]);
    assert!(matches!(
        tight.check_new_iteration(&mut dy, &y),
        ConvergenceStatus::MaximumIterations
    ));
}

#[test]
fn test_jacobian_reuse_policy() {
    let mut policy: JacobianUpdate<F> = JacobianUpdate::new();
    // with no Jacobian known, a refresh is always due
    assert!(policy.check_rhs_jacobian_update(F(1.0), &SolverState::StepSuccess));
    policy.update_rhs_jacobian();
    policy.update_jacobian(F(1.0));
    // a small move in c keeps both the Jacobian and the factorization
    assert!(!policy.check_rhs_jacobian_update(F(1.1), &SolverState::StepSuccess));
    assert!(!policy.check_jacobian_update(F(1.1), &SolverState::StepSuccess));
    // a move past one fifth refactors but keeps the Jacobian
    assert!(!policy.check_rhs_jacobian_update(F(1.25), &SolverState::StepSuccess));
    assert!(policy.check_jacobian_update(F(1.25), &SolverState::StepSuccess));
    // a move past three tenths refreshes the Jacobian
    assert!(policy.check_rhs_jacobian_update(F(1.4), &SolverState::StepSuccess));
    // a second convergence failure always refreshes
    assert!(policy.check_rhs_jacobian_update(F(1.0), &SolverState::SecondConvergenceFail));
    // a checkpoint always refreshes
    assert!(policy.check_rhs_jacobian_update(F(1.0), &SolverState::Checkpoint));
}

#[test]
fn test_sparsity_pattern_diagonal() {
    let p = SparsityPattern::new_diagonal(3);
    assert_eq!(p.nrows(), 3);
    assert_eq!(p.ncols(), 3);
    assert_eq!(p.nnz(), 3);
    for i in 0..3 {
        for j in 0..3 {
            assert_eq!(p.contains(i, j), i == j);
        }
    }
    let idx = p.indices();
    assert_eq!(idx, vec![(0, 0), (1, 1), (2, 2)]);
}

#[test]
fn test_sparsity_pattern_from_indices_and_get_index() {
    // a 3x3 pattern with two entries in column 0 and one in column 2
    let coords = vec![(2usize, 0usize), (0, 0), (1, 2)];
    let p = SparsityPattern::try_from_indices(3, 3, coords).unwrap();
    assert_eq!(p.nnz(), 3);
    assert!(p.contains(0, 0));
    assert!(p.contains(2, 0));
    assert!(p.contains(1, 2));
    assert!(!p.contains(1, 0));
    assert!(!p.contains(0, 1));
    // lanes are sorted, so the offsets bracket each column
    assert_eq!(p.major_offsets(), &vec![0usize, 2, 2, 3]);
    assert_eq!(p.minor_indices(), &vec![0usize, 2, 1]);
    // positions in the value buffer
    let pos = p.get_index(&vec![2usize, 1], &vec![0usize, 2]);
    assert_eq!(pos, vec![1usize, 2]);
    // a coordinate out of range is rejected
    let bad = vec![(3usize, 0usize)];
    assert!(SparsityPattern::try_from_indices(3, 3, bad).is_err());
    // and so is a repeated coordinate
    let dup = vec![(0usize, 0usize), (1, 1), (0, 0)];
    assert!(SparsityPattern::try_from_indices(3, 3, dup).is_err());
}

#[test]
fn test_sparsity_pattern_union() {
    let a = SparsityPattern::try_from_indices(3, 2, vec![(0usize, 0usize), (2, 1)]).unwrap();
    let b = SparsityPattern::try_from_indices(3, 2, vec![(1usize, 0usize), (2, 1)]).unwrap();
    let u = a.union(&b).unwrap();
    assert_eq!(u.nnz(), 3);
    assert!(u.contains(0, 0));
    assert!(u.contains(1, 0));
    assert!(u.contains(2, 1));
    assert!(!u.contains(2, 0));
    // a union of mismatched shapes is rejected
    let c = SparsityPattern::new_diagonal(4);
    assert!(a.union(&c).is_err());
}

#[test]
fn test_solution_points_stay_sorted() {
    let mut sol: OdeSolverSolution<V> = OdeSolverSolution::new_empty(F(1e-6), vf(&[1e-6]), false);
    sol.push(vf(&[1.0]), F(2.0));
    sol.push(vf(&[2.0]), F(1.0));
    sol.push(vf(&[3.0]), F(3.0));
    sol.push(vf(&[4.0]), F(2.5));
    let ts: Vec<f64> = sol.solution_points.iter().map(|p| p.t.0).collect();
    assert_eq!(ts, vec![1.0, 2.0, 2.5, 3.0]);
    // sensitivities are kept alongside
    sol.push_sens(vf(&[5.0]), F(0.5), &vec![vf(&[9.0])]);
    assert_eq!(sol.solution_points[0].t.0, 0.5);
    let sens = sol.sens_solution_points.as_ref().unwrap();
    assert_eq!(sens.len(), 1);
    assert_eq!(sens[0][0].state.get(0).0, 9.0);
}

#[test]
fn test_statistics_start_at_zero() {
    let stats = OdeEquationsStatistics::new();
    assert_eq!(stats.number_of_rhs_evals, 0);
    assert_eq!(stats.number_of_jac_mul_evals, 0);
    assert_eq!(stats.number_of_mass_evals, 0);
    assert_eq!(stats.number_of_mass_matrix_evals, 0);
    assert_eq!(stats.number_of_jacobian_matrix_evals, 0);
    let d = OdeEquationsStatistics::default();
    assert_eq!(d, stats);
}

#[test]
fn test_constant_closure_with_sens() {
    fn value(p: &V, _t: F) -> V {
        let mut data = Vec::new();
        data.push(p.get(0));
        data.push(p.get(0));
        V::from_vec(data)
    }
    fn sens(_p: &V, _t: F, v: &V) -> V {
        let mut data = Vec::new();
        data.push(v.get(0));
        data.push(v.get(0));
        V::from_vec(data)
    }
    type ValueFn = fn(&V, F) -> V;
    type SensFn = fn(&V, F, &V) -> V;
    let p = Rc::new(vf(&[7.0]));
    let op: ConstantClosureWithSens<M, ValueFn, SensFn> =
        ConstantClosureWithSens::new(value as ValueFn, sens as SensFn, 2, 2, p);
    assert_eq!(op.nstates(), 2);
    assert_eq!(op.nout(), 2);
    assert_eq!(op.nparams(), 1);
    assert!(op.has_sens());
    let y = op.call(F(0.0));
    assert_eq!(y.get(0).0, 7.0);
    assert_eq!(y.get(1).0, 7.0);
    let mut out = V::zeros(2);
    op.sens_mul_inplace(F(0.0), &vf(&[2.0]), &mut out);
    assert_eq!(out.get(0).0, 2.0);
    assert_eq!(out.get(1).0, 2.0);
}

#[test]
fn test_default_tolerances() {
    let rtol = OdeSolverProblem::<OdeSolverEquations<M, DecayRhs, InitFn>>::default_rtol();
    assert_eq!(rtol.0, 1e-6);
    let atol = OdeSolverProblem::<OdeSolverEquations<M, DecayRhs, InitFn>>::default_atol(3);
    assert_eq!(atol.len(), 3);
    assert_eq!(atol.get(2).0, 1e-6);
}

#[test]
fn test_set_params_changes_the_problem() {
    let p = Rc::new(vf(&[0.1]));
    let rhs = DecayRhs { n: 2, p: Rc::clone(&p) };
    let mass: Option<UnitCallable<M>> = None;
    let root: Option<UnitCallable<M>> = None;
    let eqn = OdeSolverEquations::new(rhs, mass, root, init_ones as InitFn, p, true);
    let mut problem = OdeSolverProblem::new(
        eqn,
        F(1e-6),
        vf(&[1e-6, 1e-6]),
        None,
        None,
        None,
        None,
        None,
        None,
        F(0.0),
        F(0.01),
        false,
    )
    .unwrap();
    // the wrong parameter length is rejected
    assert!(matches!(problem.set_params(vf(&[0.1, 0.2])), Err(DiffsolError::InconsistentState)));
    // a new rate is visible through the right-hand side
    problem.set_params(vf(&[0.5])).unwrap();
    let mut out = V::zeros(2);
    problem.eqn.rhs().call_inplace(&vf(&[1.0, 1.0]), F(0.0), &mut out);
    assert_eq!(out.get(0).0, -0.5);
}

#[test]
fn test_vector_and_matrix_operations() {
    let mut v = vf(&[1.0, 2.0, 3.0]);
    assert_eq!(v.len(), 3);
    assert!(!v.is_empty());
    v.axpy(F(2.0), &vf(&[1.0, 1.0, 1.0]), F(1.0));
    assert_eq!(v.get(0).0, 3.0);
    assert_eq!(v.get(2).0, 5.0);
    v.scale_mut(F(0.5));
    assert_eq!(v.get(0).0, 1.5);
    let a = v.abs();
    assert_eq!(a.get(0).0, 1.5);
    // the weighted squared norm of the reference formula
    let x = vf(&[2.0]);
    let y = vf(&[1.0]);
    let atol = vf(&[1.0]);
    let n = x.squared_norm(&y, &atol, F(1.0));
    assert!((n.0 - 1.0).abs() < 1e-12);
    // a small matrix product
    let mut m1 = M::new_zeros(2, 2);
    m1.set(0, 0, F(1.0));
    m1.set(0, 1, F(2.0));
    m1.set(1, 0, F(3.0));
    m1.set(1, 1, F(4.0));
    let mut m2 = M::new_zeros(2, 2);
    m2.set(0, 0, F(5.0));
    m2.set(0, 1, F(6.0));
    m2.set(1, 0, F(7.0));
    m2.set(1, 1, F(8.0));
    let prod = m1.mat_mul(&m2);
    assert_eq!(prod.get(0, 0).0, 19.0);
    assert_eq!(prod.get(0, 1).0, 22.0);
    assert_eq!(prod.get(1, 0).0, 43.0);
    assert_eq!(prod.get(1, 1).0, 50.0);
    // triplets naming the same entry are summed
    let t = vec![(0usize, 0usize, F(1.5)), (1, 1, F(2.0)), (0, 0, F(0.5))];
    let mt: M = Matrix::try_from_triplets(2, 2, t).unwrap();
    assert_eq!(mt.get(0, 0).0, 2.0);
    assert_eq!(mt.get(1, 1).0, 2.0);
    assert_eq!(mt.get(0, 1).0, 0.0);
    // a triplet out of range is rejected
    let bad = vec![(2usize, 0usize, F(1.0))];
    assert!(<M as Matrix>::try_from_triplets(2, 2, bad).is_err());
    // the diagonal read inverts the diagonal build
    let d: M = Matrix::from_diagonal(&vf(&[3.0, -4.0]));
    let back: V = Matrix::diagonal(&d);
    assert_eq!(back.get(0).0, 3.0);
    assert_eq!(back.get(1).0, -4.0);
}

/// A fixed two-by-two linear map, as a plain callable.
pub struct PlainMap;

impl Callable for PlainMap {
    type T = F;
    type V = V;
    fn nstates(&self) -> usize {
        2
    }
    fn call(&self, x: &V, y: &mut V) {
        y.set(0, F(2.0 * x.get(0).0));
        y.set(1, F(-3.0 * x.get(1).0));
    }
    fn jacobian_action(&self, _x: &V, v: &V, y: &mut V) {
        y.set(0, F(2.0 * v.get(0).0));
        y.set(1, F(-3.0 * v.get(1).0));
    }
}

#[test]
fn test_callable_jacobian_by_triplets() {
    let op = PlainMap;
    let x = vf(&[1.0, 1.0]);
    let jac: M = op.jacobian(&x).unwrap();
    assert_eq!(jac.get(0, 0).0, 2.0);
    assert_eq!(jac.get(1, 1).0, -3.0);
    assert_eq!(jac.get(0, 1).0, 0.0);
    assert_eq!(jac.get(1, 0).0, 0.0);
}
