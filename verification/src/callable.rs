//! A self-contained nonlinear function with a derivative action.
//!
//! [`Callable`] is the minimal surface for a square nonlinear map: evaluate
//! it, apply its Jacobian to a vector, and — derived from those two alone —
//! assemble its full Jacobian from `(row, column, value)` triplets by probing
//! one unit vector per column and keeping the entries that are not zero.

use vstd::prelude::*;

use crate::matrix::{Matrix, MatrixCommon};
use crate::scalar::Scalar;
use crate::vector::{Vector, VectorCommon};

verus! {

/// A square nonlinear map `y = F(x)` with a Jacobian action.
pub trait Callable {
    type T: Scalar;

    type V: Vector<T = Self::T>;

    /// The state dimension; an implementation outside this crate leaves it
    /// at its default.
    open spec fn sp_nstates(&self) -> nat {
        arbitrary()
    }

    /// An abstract name for the Jacobian action's result on given contents:
    /// what `jacobian_action` writes for `x` and `v`. An implementation
    /// outside this crate leaves it at its default.
    open spec fn sp_action(&self, x: Seq<Self::T>, v: Seq<Self::T>) -> Seq<Self::T> {
        arbitrary()
    }

    fn nstates(&self) -> (r: usize)
        ensures
            r == self.sp_nstates(),
    ;

    /// `y <- F(x)`.
    fn call(&self, x: &Self::V, y: &mut Self::V)
        requires
            x.vals().len() == self.sp_nstates(),
            old(y).vals().len() == self.sp_nstates(),
        ensures
            final(y).vals().len() == self.sp_nstates(),
    ;

    /// `y <- J(x) * v`.
    fn jacobian_action(&self, x: &Self::V, v: &Self::V, y: &mut Self::V)
        requires
            x.vals().len() == self.sp_nstates(),
            v.vals().len() == self.sp_nstates(),
            old(y).vals().len() == self.sp_nstates(),
        ensures
            final(y).vals() == self.sp_action(x.vals(), v.vals()),
            final(y).vals().len() == self.sp_nstates(),
    ;

    /// The full Jacobian at `x`, assembled by probing one unit vector per
    /// column and collecting the nonzero entries as triplets.
    fn jacobian<M: Matrix<T = Self::T, V = Self::V>>(&self, x: &Self::V) -> (r: Result<M, ()>)
        requires
            x.vals().len() == self.sp_nstates(),
        ensures
            r matches Ok(m) ==> m.sp_nrows() == self.sp_nstates() && m.sp_ncols()
                == self.sp_nstates(),
    {
        let n = x.len();
        let mut v = Self::V::zeros(n);
        let mut col = Self::V::zeros(n);
        let mut triplets: Vec<(usize, usize, Self::T)> = Vec::new();
        let mut j: usize = 0;
        while j < n
            invariant
                j <= n,
                n == self.sp_nstates(),
                x.vals().len() == n,
                v.vals().len() == n,
                col.vals().len() == n,
            decreases n - j,
        {
            v.set(j, Self::T::one());
            self.jacobian_action(x, &v, &mut col);
            let mut i: usize = 0;
            while i < n
                invariant
                    i <= n,
                    col.vals().len() == n,
                decreases n - i,
            {
                let entry = col.get(i);
                if !entry.eq_val(Self::T::zero()) {
                    triplets.push((i, j, entry));
                }
                i = i + 1;
            }
            v.set(j, Self::T::zero());
            j = j + 1;
        }
        M::try_from_triplets(n, n, triplets)
    }
}

} // verus!
