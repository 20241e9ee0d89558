//! A library for solving stiff systems of ordinary differential equations,
//! optionally with a (possibly singular) mass matrix, built around a
//! variable-order, variable-step backward-differentiation-formula (NDF)
//! integrator with Newton iterations on the implicit step equations.
//!
//! The library is generic over the scalar, vector and matrix types through
//! the [`scalar::Scalar`], [`vector::Vector`] and [`matrix::Matrix`] traits;
//! a caller supplies the concrete arithmetic (for example double precision)
//! and a linear solver, and the solver core is verified against the
//! contracts stated on those traits.

pub mod scalar;
pub mod vector;
pub mod matrix;
pub mod error;
pub mod convergence;
pub mod op;
pub mod shared;
pub mod equations;
pub mod linear_solver;
pub mod newton;
pub mod jacobian_update;
pub mod bdf_state;
pub mod bdf_callable;
pub mod root;
pub mod problem;
pub mod bdf;
pub mod sparsity;
pub mod callable;
