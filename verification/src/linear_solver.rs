//! The linear-solver interface: factor once, solve many.
//!
//! The solver core forms the iteration matrix `M - c * J` itself and hands it
//! to an implementation of [`LinearSolver`], which owns the factorization.
//! A singular or absent factorization is reported through the result, never
//! by panicking, so the Newton loop above can treat it as a convergence
//! failure and refresh the Jacobian.

use vstd::prelude::*;

use crate::error::DiffsolError;
use crate::matrix::{Matrix, MatrixCommon};
use crate::vector::{Vector, VectorCommon};

verus! {

/// Factors a matrix and solves against the stored factorization.
pub trait LinearSolver {
    type T: crate::scalar::Scalar;

    type V: Vector<T = Self::T>;

    type M: Matrix<T = Self::T, V = Self::V>;

    /// Factors the given square matrix, replacing any previous
    /// factorization. A singular matrix is reported as
    /// `LinearSolveFailure`.
    fn set_linearisation(&mut self, m: &Self::M) -> (r: Result<(), DiffsolError>)
        requires
            m.sp_nrows() == m.sp_ncols(),
        ensures
            r matches Err(e) ==> e == DiffsolError::LinearSolveFailure,
    ;

    /// Solves `A * x = b` in place against the stored factorization. A
    /// missing factorization or a length mismatch is reported as
    /// `LinearSolveFailure`.
    fn solve_in_place(&self, b: &mut Self::V) -> (r: Result<(), DiffsolError>)
        ensures
            final(b).vals().len() == old(b).vals().len(),
            r matches Err(e) ==> e == DiffsolError::LinearSolveFailure,
    ;
}

} // verus!
