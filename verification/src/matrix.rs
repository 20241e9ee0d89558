//! Matrix traits and the dense column-major matrix.
//!
//! [`Matrix`] abstracts the two-dimensional containers that carry Jacobians
//! and mass matrices; [`DenseMat`] is the library's own dense column-major
//! implementation, which also backs the integrator's history of scaled
//! backward differences. The dense history operations (column axpy, the small
//! step-size-change product) carry exact element-level contracts over the
//! abstract scalar operations.

use vstd::prelude::*;

use crate::scalar::Scalar;
use crate::vector::{Vector, VectorCommon};

verus! {

/// Left-to-right dot product of two equal-length sequences.
pub open spec fn sp_dot<T: Scalar>(a: Seq<T>, b: Seq<T>) -> T
    decreases a.len(),
{
    if a.len() == 0 {
        T::sp_zero()
    } else {
        sp_dot(a.drop_last(), b.drop_last()).sp_add(a.last().sp_mul(b.last()))
    }
}

/// `start[i]` plus the first `m` column contributions of a matrix-vector
/// product, summed left to right: term `j` is `alpha * x[j] * cols[j][i]`.
pub open spec fn sp_gemv_acc<T: Scalar>(
    cols: Seq<Seq<T>>,
    alpha: T,
    x: Seq<T>,
    start: Seq<T>,
    m: int,
    i: int,
) -> T
    decreases m,
{
    if m <= 0 {
        start[i]
    } else {
        sp_gemv_acc(cols, alpha, x, start, m - 1, i).sp_add(
            alpha.sp_mul(x[m - 1]).sp_mul(cols[m - 1][i]),
        )
    }
}

/// The sum of the values of the first `k` triplets naming position
/// `(i, j)`, summed left to right from zero.
pub open spec fn sp_triplet_sum<T: Scalar>(
    triplets: Seq<(usize, usize, T)>,
    i: int,
    j: int,
    k: int,
) -> T
    decreases k,
{
    if k <= 0 {
        T::sp_zero()
    } else {
        let prev = sp_triplet_sum(triplets, i, j, k - 1);
        if triplets[k - 1].0 == i && triplets[k - 1].1 == j {
            prev.sp_add(triplets[k - 1].2)
        } else {
            prev
        }
    }
}

/// What every matrix offers: a shape and its contents, column by column.
pub trait MatrixCommon: Sized {
    /// The scalar type of the entries.
    type T: Scalar;

    /// The vector type of columns and of gemv operands.
    type V: Vector<T = Self::T>;

    /// The mathematical contents, as a sequence of dense columns.
    spec fn sp_columns(&self) -> Seq<Seq<Self::T>>;

    spec fn sp_nrows(&self) -> nat;

    spec fn sp_ncols(&self) -> nat;

    fn nrows(&self) -> (r: usize)
        ensures
            r == self.sp_nrows(),
    ;

    fn ncols(&self) -> (r: usize)
        ensures
            r == self.sp_ncols(),
    ;
}

/// A matrix that can carry a Jacobian, a mass matrix, or the iteration
/// matrix `M - c * J`. Implementations may be dense or sparse; the contracts
/// here fix the shapes and what is copied, and each implementation in this
/// library is itself verified against its own exact representation.
pub trait Matrix: MatrixCommon {
    /// An owned copy with the same contents.
    fn clone_mat(&self) -> (r: Self)
        ensures
            r.sp_columns() == self.sp_columns(),
            r.sp_nrows() == self.sp_nrows(),
            r.sp_ncols() == self.sp_ncols(),
    ;

    fn zeros(nrows: usize, ncols: usize) -> (r: Self)
        ensures
            r.sp_nrows() == nrows,
            r.sp_ncols() == ncols,
    ;

    fn copy_from(&mut self, other: &Self)
        requires
            other.sp_nrows() == old(self).sp_nrows(),
            other.sp_ncols() == old(self).sp_ncols(),
        ensures
            final(self).sp_columns() == other.sp_columns(),
            final(self).sp_nrows() == old(self).sp_nrows(),
            final(self).sp_ncols() == old(self).sp_ncols(),
    ;

    /// Overwrites the stored entries of column `j` with the matching entries
    /// of `v` (a sparse implementation writes only its structurally nonzero
    /// positions).
    fn set_column(&mut self, j: usize, v: &Self::V)
        requires
            j < old(self).sp_ncols(),
            v.vals().len() == old(self).sp_nrows(),
        ensures
            final(self).sp_nrows() == old(self).sp_nrows(),
            final(self).sp_ncols() == old(self).sp_ncols(),
    ;

    /// `y <- alpha * self * x + beta * y`.
    fn gemv(&self, alpha: Self::T, x: &Self::V, beta: Self::T, y: &mut Self::V)
        requires
            x.vals().len() == self.sp_ncols(),
            old(y).vals().len() == self.sp_nrows(),
        ensures
            final(y).vals().len() == self.sp_nrows(),
    ;

    /// `self <- x + beta * y`.
    fn scale_add_and_assign(&mut self, x: &Self, beta: Self::T, y: &Self)
        requires
            x.sp_nrows() == old(self).sp_nrows(),
            x.sp_ncols() == old(self).sp_ncols(),
            y.sp_nrows() == old(self).sp_nrows(),
            y.sp_ncols() == old(self).sp_ncols(),
        ensures
            final(self).sp_nrows() == old(self).sp_nrows(),
            final(self).sp_ncols() == old(self).sp_ncols(),
    ;

    /// The square matrix with `v` on its diagonal.
    fn from_diagonal(v: &Self::V) -> (r: Self)
        ensures
            r.sp_nrows() == v.vals().len(),
            r.sp_ncols() == v.vals().len(),
    ;

    /// The diagonal of the matrix, as a vector.
    fn diagonal(&self) -> (r: Self::V)
        ensures
            r.vals().len() == self.sp_nrows(),
    ;

    /// Builds a matrix from `(row, column, value)` triplets; entries not
    /// named are zero. Fails when a triplet lies outside the shape.
    fn try_from_triplets(
        nrows: usize,
        ncols: usize,
        triplets: Vec<(usize, usize, Self::T)>,
    ) -> (r: Result<Self, ()>)
        ensures
            r matches Ok(m) ==> m.sp_nrows() == nrows && m.sp_ncols() == ncols,
    ;
}

/// The library's dense column-major matrix: a boxed sequence of columns.
pub struct DenseMat<V: Vector> {
    cols: Vec<V>,
    nrows: usize,
}

impl<V: Vector> DenseMat<V> {
    /// Every column has the row dimension.
    pub closed spec fn wf(&self) -> bool {
        forall|j: int|
            0 <= j < self.cols@.len() ==> (#[trigger] self.cols@[j]).vals().len() == self.nrows
    }

    /// The row `i`, as a sequence over the first `ncols` columns.
    pub open spec fn sp_row(&self, i: int, ncols: int) -> Seq<V::T> {
        Seq::new(ncols as nat, |k: int| self.sp_columns()[k][i])
    }

    /// A matrix with the same contents and row dimension as a well-formed
    /// one is well-formed.
    pub proof fn lemma_wf_transfer(&self, other: &Self)
        requires
            other.wf(),
            self.sp_columns() == other.sp_columns(),
            self.sp_nrows() == other.sp_nrows(),
            self.sp_ncols() == other.sp_ncols(),
        ensures
            self.wf(),
    {
        assert forall|j: int|
            0 <= j < self.cols@.len() implies (#[trigger] self.cols@[j]).vals().len()
            == self.nrows by {
            assert(self.sp_columns()[j] == self.cols@[j].vals());
            assert(other.sp_columns()[j] == other.cols@[j].vals());
        }
    }

    /// Well-formedness bounds every column's length by the row dimension.
    pub proof fn lemma_wf_columns(&self)
        requires
            self.wf(),
        ensures
            forall|j: int|
                0 <= j < self.sp_ncols() ==> (#[trigger] self.sp_columns()[j]).len()
                    == self.sp_nrows(),
    {
    }

    /// Checks at run time that every column has the row dimension.
    pub fn check_wf(&self) -> (r: bool)
        ensures
            r == self.wf(),
    {
        let m = self.cols.len();
        let mut j: usize = 0;
        while j < m
            invariant
                j <= m,
                m == self.cols@.len(),
                forall|k: int|
                    0 <= k < j ==> (#[trigger] self.cols@[k]).vals().len() == self.nrows,
            decreases m - j,
        {
            if self.cols[j].len() != self.nrows {
                return false;
            }
            j = j + 1;
        }
        true
    }

    pub fn new_zeros(nrows: usize, ncols: usize) -> (r: Self)
        ensures
            r.wf(),
            r.sp_nrows() == nrows,
            r.sp_ncols() == ncols,
            r.sp_columns() == Seq::new(
                ncols as nat,
                |j: int| Seq::new(nrows as nat, |i: int| V::T::sp_zero()),
            ),
    {
        let mut cols: Vec<V> = Vec::new();
        let mut j: usize = 0;
        while j < ncols
            invariant
                j <= ncols,
                cols@.len() == j,
                forall|k: int| 0 <= k < j ==> (#[trigger] cols@[k].vals()) == Seq::new(
                    nrows as nat,
                    |i: int| V::T::sp_zero(),
                ),
            decreases ncols - j,
        {
            cols.push(V::zeros(nrows));
            j = j + 1;
        }
        let r = DenseMat { cols, nrows };
        proof {
            assert(r.sp_columns() =~= Seq::new(
                ncols as nat,
                |j: int| Seq::new(nrows as nat, |i: int| V::T::sp_zero()),
            ));
        }
        r
    }

    pub fn get(&self, i: usize, j: usize) -> (r: V::T)
        requires
            self.wf(),
            j < self.sp_ncols(),
            i < self.sp_nrows(),
        ensures
            r == self.sp_columns()[j as int][i as int],
    {
        self.cols[j].get(i)
    }

    pub fn set(&mut self, i: usize, j: usize, value: V::T)
        requires
            old(self).wf(),
            j < old(self).sp_ncols(),
            i < old(self).sp_nrows(),
        ensures
            final(self).wf(),
            final(self).sp_nrows() == old(self).sp_nrows(),
            final(self).sp_ncols() == old(self).sp_ncols(),
            final(self).sp_columns() == old(self).sp_columns().update(
                j as int,
                old(self).sp_columns()[j as int].update(i as int, value),
            ),
    {
        self.cols[j].set(i, value);
        proof {
            assert(final(self).sp_columns() =~= old(self).sp_columns().update(
                j as int,
                old(self).sp_columns()[j as int].update(i as int, value),
            ));
        }
    }

    /// A borrow of column `j`.
    pub fn col(&self, j: usize) -> (r: &V)
        requires
            self.wf(),
            j < self.sp_ncols(),
        ensures
            r.vals() == self.sp_columns()[j as int],
            r.vals().len() == self.sp_nrows(),
    {
        &self.cols[j]
    }

    /// An owned copy of column `j`.
    pub fn column_clone(&self, j: usize) -> (r: V)
        requires
            self.wf(),
            j < self.sp_ncols(),
        ensures
            r.vals() == self.sp_columns()[j as int],
            r.vals().len() == self.sp_nrows(),
    {
        self.cols[j].clone_vec()
    }

    pub fn set_col(&mut self, j: usize, v: &V)
        requires
            old(self).wf(),
            j < old(self).sp_ncols(),
            v.vals().len() == old(self).sp_nrows(),
        ensures
            final(self).wf(),
            final(self).sp_nrows() == old(self).sp_nrows(),
            final(self).sp_ncols() == old(self).sp_ncols(),
            final(self).sp_columns() == old(self).sp_columns().update(j as int, v.vals()),
    {
        let mut c = V::zeros(self.nrows);
        c.copy_from(v);
        self.cols[j] = c;
        proof {
            assert(final(self).sp_columns() =~= old(self).sp_columns().update(
                j as int,
                v.vals(),
            ));
        }
    }

    /// `column dst <- alpha * column src + beta * column dst`.
    pub fn column_axpy(&mut self, alpha: V::T, src: usize, beta: V::T, dst: usize)
        requires
            old(self).wf(),
            src < old(self).sp_ncols(),
            dst < old(self).sp_ncols(),
        ensures
            final(self).wf(),
            final(self).sp_nrows() == old(self).sp_nrows(),
            final(self).sp_ncols() == old(self).sp_ncols(),
            final(self).sp_columns() == old(self).sp_columns().update(
                dst as int,
                crate::vector::axpy_seq(
                    alpha,
                    old(self).sp_columns()[src as int],
                    beta,
                    old(self).sp_columns()[dst as int],
                ),
            ),
    {
        let s = self.cols[src].clone_vec();
        self.cols[dst].axpy(alpha, &s, beta);
        proof {
            assert(final(self).sp_columns() =~= old(self).sp_columns().update(
                dst as int,
                crate::vector::axpy_seq(
                    alpha,
                    old(self).sp_columns()[src as int],
                    beta,
                    old(self).sp_columns()[dst as int],
                ),
            ));
        }
    }

    /// `y <- y + alpha * column j` (used to sum the history into a
    /// prediction and to evaluate the interpolating polynomial).
    pub fn add_scaled_column_to(&self, j: usize, alpha: V::T, y: &mut V)
        requires
            self.wf(),
            j < self.sp_ncols(),
            old(y).vals().len() == self.sp_nrows(),
        ensures
            final(y).vals() == Seq::new(
                old(y).vals().len(),
                |i: int| old(y).vals()[i].sp_add(alpha.sp_mul(self.sp_columns()[j as int][i])),
            ),
    {
        y.add_scaled(alpha, &self.cols[j]);
    }

    /// The product of two small dense matrices, entry by entry:
    /// `r[i, j] = dot(row i of self, column j of other)`.
    pub fn mat_mul(&self, other: &Self) -> (r: Self)
        requires
            self.wf(),
            other.wf(),
            other.sp_nrows() == self.sp_ncols(),
        ensures
            r.wf(),
            r.sp_nrows() == self.sp_nrows(),
            r.sp_ncols() == other.sp_ncols(),
            forall|i: int, j: int|
                0 <= i < self.sp_nrows() && 0 <= j < other.sp_ncols()
                    ==> #[trigger] r.sp_columns()[j][i] == sp_dot(
                    self.sp_row(i, self.sp_ncols() as int),
                    other.sp_columns()[j],
                ),
    {
        let n = self.nrows;
        let m = self.cols.len();
        let p = other.cols.len();
        let mut r = Self::new_zeros(n, p);
        let mut j: usize = 0;
        while j < p
            invariant
                j <= p,
                r.wf(),
                r.sp_nrows() == n,
                r.sp_ncols() == p,
                self.wf(),
                other.wf(),
                n == self.sp_nrows(),
                m == self.sp_ncols(),
                p == other.sp_ncols(),
                m == other.sp_nrows(),
                forall|jj: int, i: int|
                    0 <= jj < j && 0 <= i < n ==> #[trigger] r.sp_columns()[jj][i] == sp_dot(
                        self.sp_row(i, m as int),
                        other.sp_columns()[jj],
                    ),
            decreases p - j,
        {
            let mut i: usize = 0;
            while i < n
                invariant
                    i <= n,
                    j < p,
                    r.wf(),
                    r.sp_nrows() == n,
                    r.sp_ncols() == p,
                    self.wf(),
                    other.wf(),
                    n == self.sp_nrows(),
                    m == self.sp_ncols(),
                    p == other.sp_ncols(),
                    m == other.sp_nrows(),
                    forall|jj: int, ii: int|
                        0 <= jj < j && 0 <= ii < n ==> #[trigger] r.sp_columns()[jj][ii]
                            == sp_dot(self.sp_row(ii, m as int), other.sp_columns()[jj]),
                    forall|ii: int|
                        0 <= ii < i ==> #[trigger] r.sp_columns()[j as int][ii] == sp_dot(
                            self.sp_row(ii, m as int),
                            other.sp_columns()[j as int],
                        ),
                decreases n - i,
            {
                let mut acc = V::T::zero();
                let mut k: usize = 0;
                while k < m
                    invariant
                        k <= m,
                        i < n,
                        j < p,
                        self.wf(),
                        other.wf(),
                        n == self.sp_nrows(),
                        m == self.sp_ncols(),
                        p == other.sp_ncols(),
                        m == other.sp_nrows(),
                        acc == sp_dot(
                            self.sp_row(i as int, m as int).take(k as int),
                            other.sp_columns()[j as int].take(k as int),
                        ),
                    decreases m - k,
                {
                    proof {
                        other.lemma_wf_columns();
                    }
                    acc = acc.add(self.get(i, k).mul(other.get(k, j)));
                    proof {
                        assert(self.sp_row(i as int, m as int).take(k as int + 1).drop_last()
                            =~= self.sp_row(i as int, m as int).take(k as int));
                        assert(other.sp_columns()[j as int].take(k as int + 1).drop_last()
                            =~= other.sp_columns()[j as int].take(k as int));
                    }
                    k = k + 1;
                }
                proof {
                    other.lemma_wf_columns();
                    assert(self.sp_row(i as int, m as int).take(m as int) =~= self.sp_row(
                        i as int,
                        m as int,
                    ));
                    assert(other.sp_columns()[j as int].take(m as int)
                        =~= other.sp_columns()[j as int]);
                }
                r.set(i, j, acc);
                i = i + 1;
            }
            j = j + 1;
        }
        r
    }

    /// Replaces the first `ncols` columns by the product of that column block
    /// with the `ncols` by `ncols` matrix `ru`; the remaining columns keep
    /// their contents. This is the history rescaling applied when the step
    /// size changes by a factor.
    pub fn rescale_block(&mut self, ru: &Self, ncols: usize)
        requires
            old(self).wf(),
            ru.wf(),
            ncols <= old(self).sp_ncols(),
            ru.sp_nrows() == ncols,
            ru.sp_ncols() == ncols,
        ensures
            final(self).wf(),
            final(self).sp_nrows() == old(self).sp_nrows(),
            final(self).sp_ncols() == old(self).sp_ncols(),
            forall|j: int, i: int|
                0 <= j < ncols && 0 <= i < old(self).sp_nrows()
                    ==> #[trigger] final(self).sp_columns()[j][i] == sp_dot(
                    old(self).sp_row(i, ncols as int),
                    ru.sp_columns()[j],
                ),
            forall|j: int|
                ncols <= j < old(self).sp_ncols() ==> #[trigger] final(self).sp_columns()[j]
                    == old(self).sp_columns()[j],
    {
        let n = self.nrows;
        let mut newcols: Vec<V> = Vec::new();
        let mut j: usize = 0;
        while j < ncols
            invariant
                j <= ncols,
                self == old(self),
                self.wf(),
                ru.wf(),
                n == self.sp_nrows(),
                ncols <= self.sp_ncols(),
                ru.sp_nrows() == ncols,
                ru.sp_ncols() == ncols,
                newcols@.len() == j,
                forall|jj: int, i: int|
                    0 <= jj < j && 0 <= i < n ==> #[trigger] newcols@[jj].vals()[i] == sp_dot(
                        self.sp_row(i, ncols as int),
                        ru.sp_columns()[jj],
                    ),
                forall|jj: int| 0 <= jj < j ==> (#[trigger] newcols@[jj].vals()).len() == n,
            decreases ncols - j,
        {
            let mut c = V::zeros(n);
            let mut i: usize = 0;
            while i < n
                invariant
                    i <= n,
                    j < ncols,
                    self == old(self),
                    self.wf(),
                    ru.wf(),
                    n == self.sp_nrows(),
                    ncols <= self.sp_ncols(),
                    ru.sp_nrows() == ncols,
                    ru.sp_ncols() == ncols,
                    c.vals().len() == n,
                    forall|ii: int|
                        0 <= ii < i ==> #[trigger] c.vals()[ii] == sp_dot(
                            self.sp_row(ii, ncols as int),
                            ru.sp_columns()[j as int],
                        ),
                decreases n - i,
            {
                let mut acc = V::T::zero();
                let mut k: usize = 0;
                while k < ncols
                    invariant
                        k <= ncols,
                        i < n,
                        j < ncols,
                        self == old(self),
                        self.wf(),
                        ru.wf(),
                        n == self.sp_nrows(),
                        ncols <= self.sp_ncols(),
                        ru.sp_nrows() == ncols,
                        ru.sp_ncols() == ncols,
                        acc == sp_dot(
                            self.sp_row(i as int, ncols as int).take(k as int),
                            ru.sp_columns()[j as int].take(k as int),
                        ),
                    decreases ncols - k,
                {
                    proof {
                        ru.lemma_wf_columns();
                    }
                    acc = acc.add(self.get(i, k).mul(ru.get(k, j)));
                    proof {
                        assert(self.sp_row(i as int, ncols as int).take(
                            k as int + 1,
                        ).drop_last() =~= self.sp_row(i as int, ncols as int).take(k as int));
                        assert(ru.sp_columns()[j as int].take(k as int + 1).drop_last()
                            =~= ru.sp_columns()[j as int].take(k as int));
                    }
                    k = k + 1;
                }
                proof {
                    ru.lemma_wf_columns();
                    assert(self.sp_row(i as int, ncols as int).take(ncols as int)
                        =~= self.sp_row(i as int, ncols as int));
                    assert(ru.sp_columns()[j as int].take(ncols as int)
                        =~= ru.sp_columns()[j as int]);
                }
                c.set(i, acc);
                i = i + 1;
            }
            newcols.push(c);
            j = j + 1;
        }
        // write the new columns back, from the last to the first
        let mut jj: usize = ncols;
        while jj > 0
            invariant
                jj <= ncols,
                ncols <= self.sp_ncols(),
                self.wf(),
                self.sp_nrows() == old(self).sp_nrows(),
                self.sp_ncols() == old(self).sp_ncols(),
                ru.wf(),
                ru.sp_nrows() == ncols,
                ru.sp_ncols() == ncols,
                newcols@.len() == jj,
                forall|q: int, i: int|
                    0 <= q < jj && 0 <= i < old(self).sp_nrows()
                        ==> #[trigger] newcols@[q].vals()[i] == sp_dot(
                        old(self).sp_row(i, ncols as int),
                        ru.sp_columns()[q],
                    ),
                forall|q: int| 0 <= q < jj ==> (#[trigger] newcols@[q].vals()).len() == old(
                    self,
                ).sp_nrows(),
                forall|q: int, i: int|
                    jj <= q < ncols && 0 <= i < old(self).sp_nrows()
                        ==> #[trigger] self.sp_columns()[q][i] == sp_dot(
                        old(self).sp_row(i, ncols as int),
                        ru.sp_columns()[q],
                    ),
                forall|q: int|
                    ncols <= q < self.sp_ncols() ==> #[trigger] self.sp_columns()[q] == old(
                        self,
                    ).sp_columns()[q],
            decreases jj,
        {
            jj = jj - 1;
            let c = newcols.pop().unwrap();
            let ghost pre = *self;
            self.cols[jj] = c;
            proof {
                assert forall|q: int|
                    0 <= q < pre.cols@.len() && q != jj implies #[trigger] self.sp_columns()[q]
                        == pre.sp_columns()[q] by {
                    assert(self.sp_columns()[q] == self.cols@[q].vals());
                    assert(pre.sp_columns()[q] == pre.cols@[q].vals());
                }
                assert(self.sp_columns()[jj as int] == c.vals());
            }
        }
    }
}

impl<V: Vector> Clone for DenseMat<V> {
    /// Copies the contents column by column.
    fn clone(&self) -> (r: Self)
        ensures
            r.sp_columns() == self.sp_columns(),
            r.sp_nrows() == self.sp_nrows(),
            r.sp_ncols() == self.sp_ncols(),
    {
        self.clone_mat()
    }
}

impl<V: Vector> MatrixCommon for DenseMat<V> {
    type T = V::T;

    type V = V;

    closed spec fn sp_columns(&self) -> Seq<Seq<V::T>> {
        Seq::new(self.cols@.len(), |j: int| self.cols@[j].vals())
    }

    closed spec fn sp_nrows(&self) -> nat {
        self.nrows as nat
    }

    open spec fn sp_ncols(&self) -> nat {
        self.sp_columns().len()
    }

    fn nrows(&self) -> (r: usize) {
        self.nrows
    }

    fn ncols(&self) -> (r: usize) {
        self.cols.len()
    }
}

impl<V: Vector> Matrix for DenseMat<V> {
    fn clone_mat(&self) -> (r: Self) {
        let n = self.nrows;
        let m = self.cols.len();
        let mut cols: Vec<V> = Vec::new();
        let mut j: usize = 0;
        while j < m
            invariant
                j <= m,
                m == self.sp_ncols(),
                cols@.len() == j,
                forall|k: int| 0 <= k < j ==> (#[trigger] cols@[k].vals())
                    == self.sp_columns()[k],
            decreases m - j,
        {
            cols.push(self.cols[j].clone_vec());
            j = j + 1;
        }
        let r = DenseMat { cols, nrows: n };
        proof {
            assert(r.sp_columns() =~= self.sp_columns());
        }
        r
    }

    fn zeros(nrows: usize, ncols: usize) -> (r: Self) {
        Self::new_zeros(nrows, ncols)
    }

    fn copy_from(&mut self, other: &Self) {
        let m = self.cols.len();
        let mut j: usize = 0;
        while j < m
            invariant
                j <= m,
                m == self.sp_ncols(),
                self.sp_ncols() == other.sp_ncols(),
                self.nrows == old(self).nrows,
                forall|k: int|
                    0 <= k < j ==> #[trigger] self.sp_columns()[k] == other.sp_columns()[k],
            decreases m - j,
        {
            let c = other.cols[j].clone_vec();
            let ghost pre = *self;
            self.cols[j] = c;
            proof {
                assert forall|k: int| 0 <= k < j + 1 implies #[trigger] self.sp_columns()[k]
                    == other.sp_columns()[k] by {
                    assert(self.sp_columns()[k] == self.cols@[k].vals());
                    assert(other.sp_columns()[k] == other.cols@[k].vals());
                    if k < j {
                        assert(pre.sp_columns()[k] == pre.cols@[k].vals());
                    }
                }
            }
            j = j + 1;
        }
        proof {
            assert(final(self).sp_columns() =~= other.sp_columns());
        }
    }

    fn set_column(&mut self, j: usize, v: &Self::V)
        ensures
            final(self).sp_columns() == old(self).sp_columns().update(j as int, v.vals()),
    {
        let mut c = V::zeros(self.nrows);
        c.copy_from(v);
        self.cols[j] = c;
        proof {
            assert(final(self).sp_columns() =~= old(self).sp_columns().update(
                j as int,
                v.vals(),
            ));
        }
    }

    /// For a well-formed matrix, computes exactly
    /// `y[i] <- beta * y[i] + alpha * (x[0] * self[i,0] + ... )`,
    /// column by column.
    #[verifier::loop_isolation(false)]
    fn gemv(&self, alpha: Self::T, x: &Self::V, beta: Self::T, y: &mut Self::V)
        ensures
            self.wf() ==> (forall|i: int|
                0 <= i < old(y).vals().len() ==> #[trigger] final(y).vals()[i] == sp_gemv_acc(
                    self.sp_columns(),
                    alpha,
                    x.vals(),
                    Seq::new(old(y).vals().len(), |q: int| beta.sp_mul(old(y).vals()[q])),
                    self.sp_ncols() as int,
                    i,
                )),
    {
        // y <- beta * y, then accumulate alpha * x_j * column_j
        y.scale_mut(beta);
        let ghost start = y.vals();
        let m = self.cols.len();
        let mut j: usize = 0;
        while j < m
            invariant
                j <= m,
                m == self.sp_ncols(),
                x.vals().len() == m,
                y.vals().len() == self.sp_nrows(),
                self.wf() ==> (forall|i: int|
                    0 <= i < y.vals().len() ==> #[trigger] y.vals()[i] == sp_gemv_acc(
                        self.sp_columns(),
                        alpha,
                        x.vals(),
                        start,
                        j as int,
                        i,
                    )),
            decreases m - j,
        {
            let cj = &self.cols[j];
            if cj.len() == y.len() {
                y.add_scaled(alpha.mul(x.get(j)), cj);
            }
            j = j + 1;
        }
    }

    /// For well-formed operands, computes exactly
    /// `self[i,j] <- x[i,j] + beta * y[i,j]`.
    #[verifier::loop_isolation(false)]
    fn scale_add_and_assign(&mut self, x: &Self, beta: Self::T, y: &Self)
        ensures
            x.wf() && y.wf() ==> final(self).wf(),
            x.wf() && y.wf() ==> (forall|j: int, i: int|
                0 <= j < old(self).sp_ncols() && 0 <= i < old(self).sp_nrows()
                    ==> #[trigger] final(self).sp_columns()[j][i] == x.sp_columns()[j][i].sp_add(
                    beta.sp_mul(y.sp_columns()[j][i]),
                )),
    {
        let m = self.cols.len();
        let mut j: usize = 0;
        while j < m
            invariant
                j <= m,
                m == self.sp_ncols(),
                x.sp_ncols() == m,
                y.sp_ncols() == m,
                self.nrows == old(self).nrows,
                self.sp_ncols() == old(self).sp_ncols(),
                x.wf() && y.wf() ==> (forall|q: int, i: int|
                    0 <= q < j && 0 <= i < old(self).sp_nrows()
                        ==> #[trigger] self.sp_columns()[q][i] == x.sp_columns()[q][i].sp_add(
                        beta.sp_mul(y.sp_columns()[q][i]),
                    )),
                x.wf() && y.wf() ==> (forall|q: int|
                    0 <= q < j ==> (#[trigger] self.sp_columns()[q]).len() == self.sp_nrows()),
            decreases m - j,
        {
            let mut c = x.cols[j].clone_vec();
            let yj = &y.cols[j];
            if c.len() == yj.len() {
                c.add_scaled(beta, yj);
            }
            let ghost pre = *self;
            self.cols[j] = c;
            proof {
                if x.wf() && y.wf() {
                    x.lemma_wf_columns();
                    y.lemma_wf_columns();
                    assert forall|q: int|
                        0 <= q < j + 1 implies (#[trigger] self.sp_columns()[q]).len()
                        == self.sp_nrows() && (forall|i: int|
                        0 <= i < old(self).sp_nrows() ==> #[trigger] self.sp_columns()[q][i]
                            == x.sp_columns()[q][i].sp_add(
                            beta.sp_mul(y.sp_columns()[q][i]),
                        )) by {
                        assert(self.sp_columns()[q] == self.cols@[q].vals());
                        if q < j {
                            assert(pre.sp_columns()[q] == pre.cols@[q].vals());
                        } else {
                            assert(self.cols@[q].vals() == c.vals());
                        }
                    }
                }
            }
            j = j + 1;
        }
        proof {
            if x.wf() && y.wf() {
                assert forall|q: int|
                    0 <= q < self.cols@.len() implies (#[trigger] self.cols@[q]).vals().len()
                    == self.nrows by {
                    assert(self.sp_columns()[q] == self.cols@[q].vals());
                }
            }
        }
    }

    /// The result holds `v` on its diagonal and zero elsewhere.
    #[verifier::loop_isolation(false)]
    fn from_diagonal(v: &Self::V) -> (r: Self)
        ensures
            r.wf(),
            forall|i: int, j: int|
                0 <= i < v.vals().len() && 0 <= j < v.vals().len() ==> #[trigger] r.sp_columns()[
                    j
                ][i] == (if i == j {
                    v.vals()[i]
                } else {
                    V::T::sp_zero()
                }),
    {
        let n = v.len();
        let mut r = Self::new_zeros(n, n);
        let mut j: usize = 0;
        while j < n
            invariant
                j <= n,
                r.wf(),
                r.sp_nrows() == n,
                r.sp_ncols() == n,
                v.vals().len() == n,
                forall|p: int, q: int|
                    0 <= p < n && 0 <= q < n ==> #[trigger] r.sp_columns()[q][p] == (if p == q
                        && p < j {
                        v.vals()[p]
                    } else {
                        V::T::sp_zero()
                    }),
            decreases n - j,
        {
            r.set(j, j, v.get(j));
            j = j + 1;
        }
        r
    }

    /// For a well-formed square matrix, the result holds exactly the
    /// diagonal entries, so it inverts `from_diagonal`.
    #[verifier::loop_isolation(false)]
    fn diagonal(&self) -> (r: Self::V)
        ensures
            self.wf() && self.sp_ncols() == self.sp_nrows() ==> (forall|i: int|
                0 <= i < self.sp_nrows() ==> #[trigger] r.vals()[i] == self.sp_columns()[i][i]),
    {
        let n = self.nrows;
        let mut r = V::zeros(n);
        let mut i: usize = 0;
        while i < n
            invariant
                i <= n,
                n == self.sp_nrows(),
                r.vals().len() == n,
                self.wf() && self.sp_ncols() == self.sp_nrows() ==> (forall|q: int|
                    0 <= q < i ==> #[trigger] r.vals()[q] == self.sp_columns()[q][q]),
            decreases n - i,
        {
            if i < self.cols.len() {
                let ci = &self.cols[i];
                if i < ci.len() {
                    let x = ci.get(i);
                    r.set(i, x);
                }
            }
            i = i + 1;
        }
        r
    }

    /// Entries named by several triplets receive their sum; a triplet out
    /// of range is rejected.
    #[verifier::loop_isolation(false)]
    fn try_from_triplets(
        nrows: usize,
        ncols: usize,
        triplets: Vec<(usize, usize, Self::T)>,
    ) -> (r: Result<Self, ()>)
        ensures
            r is Err <==> (exists|k: int|
                0 <= k < triplets@.len() && ((#[trigger] triplets@[k]).0 >= nrows
                    || triplets@[k].1 >= ncols)),
            r matches Ok(m) ==> (forall|i: int, j: int|
                0 <= i < nrows && 0 <= j < ncols ==> #[trigger] m.sp_columns()[j][i]
                    == sp_triplet_sum(triplets@, i, j, triplets@.len() as int)),
    {
        // every triplet must be in range
        let n = triplets.len();
        let mut k: usize = 0;
        while k < n
            invariant
                k <= n,
                forall|q: int|
                    0 <= q < k ==> (#[trigger] triplets@[q]).0 < nrows && triplets@[q].1 < ncols,
            decreases n - k,
        {
            let (i, j, _v) = triplets[k];
            if i >= nrows || j >= ncols {
                proof {
                    assert(triplets@[k as int].0 >= nrows || triplets@[k as int].1 >= ncols);
                }
                return Err(());
            }
            k = k + 1;
        }
        let mut m = Self::new_zeros(nrows, ncols);
        let mut k: usize = 0;
        while k < n
            invariant
                k <= n,
                m.wf(),
                m.sp_nrows() == nrows,
                m.sp_ncols() == ncols,
                forall|i: int, j: int|
                    0 <= i < nrows && 0 <= j < ncols ==> #[trigger] m.sp_columns()[j][i]
                        == sp_triplet_sum(triplets@, i, j, k as int),
            decreases n - k,
        {
            let (i, j, v) = triplets[k];
            let cur = m.get(i, j);
            m.set(i, j, cur.add(v));
            k = k + 1;
        }
        Ok(m)
    }
}

} // verus!
