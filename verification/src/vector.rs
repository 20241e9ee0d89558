//! Vector traits and the dense column vector.
//!
//! [`VectorCommon`] and [`Vector`] abstract the fixed-length containers the
//! solver works on; [`DVec`] is the library's own dense implementation. Every
//! operation is specified exactly, element by element, over the abstract
//! scalar operations of [`Scalar`], including the weighted squared norm
//! `(1/n) * sum_i (x_i / (a_i + r * |y_i|))^2` that drives both the Newton
//! termination test and the step-error control.

use vstd::prelude::*;

use crate::scalar::Scalar;

verus! {

/// Element-wise `alpha * x + beta * y`.
pub open spec fn axpy_seq<T: Scalar>(alpha: T, x: Seq<T>, beta: T, y: Seq<T>) -> Seq<T> {
    Seq::new(y.len(), |i: int| alpha.sp_mul(x[i]).sp_add(beta.sp_mul(y[i])))
}

/// One term of the weighted squared norm: `(x / (a + r * |y|))^2`.
pub open spec fn wsq_term<T: Scalar>(x: T, y: T, a: T, r: T) -> T {
    let w = x.sp_div(a.sp_add(r.sp_mul(y.sp_abs())));
    w.sp_mul(w)
}

/// Left-to-right sum of the weighted squared terms of three equal-length
/// sequences.
pub open spec fn wsq_sum<T: Scalar>(x: Seq<T>, y: Seq<T>, a: Seq<T>, r: T) -> T
    decreases x.len(),
{
    if x.len() == 0 {
        T::sp_zero()
    } else {
        wsq_sum(x.drop_last(), y.drop_last(), a.drop_last(), r).sp_add(
            wsq_term(x.last(), y.last(), a.last(), r),
        )
    }
}

/// The weighted squared norm `(1/n) * sum_i (x_i / (a_i + r * |y_i|))^2`.
pub open spec fn weighted_sq_norm<T: Scalar>(x: Seq<T>, y: Seq<T>, a: Seq<T>, r: T) -> T {
    wsq_sum(x, y, a, r).sp_div(T::sp_ratio(x.len() as int, 1))
}

/// Left-to-right sum of squares of a sequence.
pub open spec fn sq_sum<T: Scalar>(s: Seq<T>) -> T
    decreases s.len(),
{
    if s.len() == 0 {
        T::sp_zero()
    } else {
        sq_sum(s.drop_last()).sp_add(s.last().sp_mul(s.last()))
    }
}

/// What every vector offers: a length, element reads, and the two norms the
/// solver uses.
pub trait VectorCommon: Sized {
    /// The scalar type of the elements.
    type T: Scalar;

    /// The mathematical contents of the vector.
    spec fn vals(&self) -> Seq<Self::T>;

    fn len(&self) -> (r: usize)
        ensures
            r == self.vals().len(),
    ;

    fn is_empty(&self) -> (r: bool)
        ensures
            r == (self.vals().len() == 0),
    ;

    fn get(&self, i: usize) -> (r: Self::T)
        requires
            i < self.vals().len(),
        ensures
            r == self.vals()[i as int],
    ;

    /// The Euclidean norm.
    fn norm(&self) -> (r: Self::T)
        ensures
            r == sq_sum(self.vals()).sp_sqrt(),
    ;

    /// The weighted squared norm against a reference state `y` with absolute
    /// tolerances `atol` and relative tolerance `rtol`.
    fn squared_norm(&self, y: &Self, atol: &Self, rtol: Self::T) -> (r: Self::T)
        requires
            y.vals().len() == self.vals().len(),
            atol.vals().len() == self.vals().len(),
        ensures
            r == weighted_sq_norm(self.vals(), y.vals(), atol.vals(), rtol),
    ;
}

/// A fixed-length owned vector with the mutating operations of the solver.
pub trait Vector: VectorCommon {
    /// An owned copy with the same contents.
    fn clone_vec(&self) -> (r: Self)
        ensures
            r.vals() == self.vals(),
    ;

    fn from_element(nstates: usize, value: Self::T) -> (r: Self)
        ensures
            r.vals() == Seq::new(nstates as nat, |i: int| value),
    ;

    fn zeros(nstates: usize) -> (r: Self)
        ensures
            r.vals() == Seq::new(nstates as nat, |i: int| Self::T::sp_zero()),
    ;

    fn from_vec(vec: Vec<Self::T>) -> (r: Self)
        ensures
            r.vals() == vec@,
    ;

    fn set(&mut self, i: usize, value: Self::T)
        requires
            i < old(self).vals().len(),
        ensures
            final(self).vals() == old(self).vals().update(i as int, value),
    ;

    fn fill(&mut self, value: Self::T)
        ensures
            final(self).vals() == Seq::new(old(self).vals().len(), |i: int| value),
    ;

    fn copy_from(&mut self, other: &Self)
        requires
            other.vals().len() == old(self).vals().len(),
        ensures
            final(self).vals() == other.vals(),
    ;

    /// `self <- alpha * x + beta * self`.
    fn axpy(&mut self, alpha: Self::T, x: &Self, beta: Self::T)
        requires
            x.vals().len() == old(self).vals().len(),
        ensures
            final(self).vals() == axpy_seq(alpha, x.vals(), beta, old(self).vals()),
    ;

    /// `self <- self + alpha * x`.
    fn add_scaled(&mut self, alpha: Self::T, x: &Self)
        requires
            x.vals().len() == old(self).vals().len(),
        ensures
            final(self).vals() == Seq::new(
                old(self).vals().len(),
                |i: int| old(self).vals()[i].sp_add(alpha.sp_mul(x.vals()[i])),
            ),
    ;

    /// `self <- self - x`.
    fn sub_assign(&mut self, x: &Self)
        requires
            x.vals().len() == old(self).vals().len(),
        ensures
            final(self).vals() == Seq::new(
                old(self).vals().len(),
                |i: int| old(self).vals()[i].sp_sub(x.vals()[i]),
            ),
    ;

    /// `self <- self + x`.
    fn add_assign(&mut self, x: &Self)
        requires
            x.vals().len() == old(self).vals().len(),
        ensures
            final(self).vals() == Seq::new(
                old(self).vals().len(),
                |i: int| old(self).vals()[i].sp_add(x.vals()[i]),
            ),
    ;

    /// `self <- alpha * self`.
    fn scale_mut(&mut self, alpha: Self::T)
        ensures
            final(self).vals() == Seq::new(
                old(self).vals().len(),
                |i: int| alpha.sp_mul(old(self).vals()[i]),
            ),
    ;

    fn add_scalar_mut(&mut self, scalar: Self::T)
        ensures
            final(self).vals() == Seq::new(
                old(self).vals().len(),
                |i: int| old(self).vals()[i].sp_add(scalar),
            ),
    ;

    fn component_mul_assign(&mut self, other: &Self)
        requires
            other.vals().len() == old(self).vals().len(),
        ensures
            final(self).vals() == Seq::new(
                old(self).vals().len(),
                |i: int| old(self).vals()[i].sp_mul(other.vals()[i]),
            ),
    ;

    fn component_div_assign(&mut self, other: &Self)
        requires
            other.vals().len() == old(self).vals().len(),
        ensures
            final(self).vals() == Seq::new(
                old(self).vals().len(),
                |i: int| old(self).vals()[i].sp_div(other.vals()[i]),
            ),
    ;

    /// The element-wise absolute value.
    fn abs(&self) -> (r: Self)
        ensures
            r.vals() == Seq::new(self.vals().len(), |i: int| self.vals()[i].sp_abs()),
    ;
}

/// The library's dense vector: a plain boxed slice of scalars.
#[derive(Debug)]
pub struct DVec<T> {
    data: Vec<T>,
}

impl<T: Scalar> DVec<T> {
    /// The underlying storage, shared with `vals`.
    pub fn as_slice(&self) -> (r: &Vec<T>)
        ensures
            r@ == self.vals(),
    {
        &self.data
    }
}

impl<T: Scalar> Clone for DVec<T> {
    /// Copies the contents element by element.
    fn clone(&self) -> (r: Self)
        ensures
            r.vals() == self.vals(),
    {
        self.clone_vec()
    }
}

impl<T: Scalar> VectorCommon for DVec<T> {
    type T = T;

    closed spec fn vals(&self) -> Seq<T> {
        self.data@
    }

    fn len(&self) -> (r: usize) {
        self.data.len()
    }

    fn is_empty(&self) -> (r: bool) {
        self.data.len() == 0
    }

    fn get(&self, i: usize) -> (r: T) {
        self.data[i]
    }

    fn norm(&self) -> (r: T) {
        let mut acc = T::zero();
        let mut i: usize = 0;
        while i < self.data.len()
            invariant
                i <= self.data.len(),
                acc == sq_sum(self.vals().take(i as int)),
            decreases self.data.len() - i,
        {
            let x = self.data[i];
            acc = acc.add(x.mul(x));
            proof {
                assert(self.vals().take(i as int + 1).drop_last() =~= self.vals().take(i as int));
            }
            i = i + 1;
        }
        proof {
            assert(self.vals().take(self.vals().len() as int) =~= self.vals());
        }
        acc.sqrt()
    }

    fn squared_norm(&self, y: &Self, atol: &Self, rtol: Self::T) -> (r: Self::T) {
        let mut acc = T::zero();
        let mut i: usize = 0;
        let n = self.data.len();
        while i < n
            invariant
                i <= n,
                n == self.vals().len(),
                y.vals().len() == n,
                atol.vals().len() == n,
                acc == wsq_sum(
                    self.vals().take(i as int),
                    y.vals().take(i as int),
                    atol.vals().take(i as int),
                    rtol,
                ),
            decreases n - i,
        {
            let w = self.data[i].div(atol.data[i].add(rtol.mul(y.data[i].abs())));
            acc = acc.add(w.mul(w));
            proof {
                assert(self.vals().take(i as int + 1).drop_last() =~= self.vals().take(i as int));
                assert(y.vals().take(i as int + 1).drop_last() =~= y.vals().take(i as int));
                assert(atol.vals().take(i as int + 1).drop_last() =~= atol.vals().take(i as int));
            }
            i = i + 1;
        }
        proof {
            assert(self.vals().take(n as int) =~= self.vals());
            assert(y.vals().take(n as int) =~= y.vals());
            assert(atol.vals().take(n as int) =~= atol.vals());
        }
        acc.div(T::from_index(n))
    }
}

impl<T: Scalar> Vector for DVec<T> {
    fn clone_vec(&self) -> (r: Self) {
        let n = self.data.len();
        let mut data: Vec<T> = Vec::new();
        let mut i: usize = 0;
        while i < n
            invariant
                i <= n,
                n == self.vals().len(),
                data@ =~= self.vals().take(i as int),
            decreases n - i,
        {
            data.push(self.data[i]);
            i = i + 1;
        }
        proof {
            assert(data@ =~= self.vals());
        }
        DVec { data }
    }

    fn from_element(nstates: usize, value: Self::T) -> (r: Self) {
        let mut data: Vec<T> = Vec::new();
        let mut i: usize = 0;
        while i < nstates
            invariant
                i <= nstates,
                data@ =~= Seq::new(i as nat, |j: int| value),
            decreases nstates - i,
        {
            data.push(value);
            i = i + 1;
        }
        DVec { data }
    }

    fn zeros(nstates: usize) -> (r: Self) {
        Self::from_element(nstates, T::zero())
    }

    fn from_vec(vec: Vec<Self::T>) -> (r: Self) {
        DVec { data: vec }
    }

    fn set(&mut self, i: usize, value: Self::T) {
        self.data[i] = value;
    }

    fn fill(&mut self, value: Self::T) {
        let n = self.data.len();
        let mut i: usize = 0;
        while i < n
            invariant
                i <= n,
                self.vals().len() == n,
                self.vals() =~= Seq::new(n as nat, |j: int| if j < i { value } else { old(self).vals()[j] }),
            decreases n - i,
        {
            self.data[i] = value;
            i = i + 1;
        }
        proof {
            assert(final(self).vals() =~= Seq::new(old(self).vals().len(), |j: int| value));
        }
    }

    fn copy_from(&mut self, other: &Self) {
        let n = self.data.len();
        let mut i: usize = 0;
        while i < n
            invariant
                i <= n,
                self.vals().len() == n,
                other.vals().len() == n,
                forall|j: int| 0 <= j < i ==> self.vals()[j] == other.vals()[j],
            decreases n - i,
        {
            self.data[i] = other.data[i];
            i = i + 1;
        }
        proof {
            assert(final(self).vals() =~= other.vals());
        }
    }

    fn axpy(&mut self, alpha: Self::T, x: &Self, beta: Self::T) {
        let n = self.data.len();
        let mut i: usize = 0;
        while i < n
            invariant
                i <= n,
                self.vals().len() == n,
                x.vals().len() == n,
                forall|j: int| 0 <= j < i ==> self.vals()[j] == alpha.sp_mul(x.vals()[j]).sp_add(
                    beta.sp_mul(old(self).vals()[j]),
                ),
                forall|j: int| i <= j < n ==> self.vals()[j] == old(self).vals()[j],
            decreases n - i,
        {
            self.data[i] = alpha.mul(x.data[i]).add(beta.mul(self.data[i]));
            i = i + 1;
        }
        proof {
            assert(final(self).vals() =~= axpy_seq(alpha, x.vals(), beta, old(self).vals()));
        }
    }

    fn add_scaled(&mut self, alpha: Self::T, x: &Self) {
        let n = self.data.len();
        let mut i: usize = 0;
        while i < n
            invariant
                i <= n,
                self.vals().len() == n,
                x.vals().len() == n,
                forall|j: int| 0 <= j < i ==> self.vals()[j] == old(self).vals()[j].sp_add(
                    alpha.sp_mul(x.vals()[j]),
                ),
                forall|j: int| i <= j < n ==> self.vals()[j] == old(self).vals()[j],
            decreases n - i,
        {
            self.data[i] = self.data[i].add(alpha.mul(x.data[i]));
            i = i + 1;
        }
        proof {
            assert(final(self).vals() =~= Seq::new(
                old(self).vals().len(),
                |j: int| old(self).vals()[j].sp_add(alpha.sp_mul(x.vals()[j])),
            ));
        }
    }

    fn sub_assign(&mut self, x: &Self) {
        let n = self.data.len();
        let mut i: usize = 0;
        while i < n
            invariant
                i <= n,
                self.vals().len() == n,
                x.vals().len() == n,
                forall|j: int| 0 <= j < i ==> self.vals()[j] == old(self).vals()[j].sp_sub(
                    x.vals()[j],
                ),
                forall|j: int| i <= j < n ==> self.vals()[j] == old(self).vals()[j],
            decreases n - i,
        {
            self.data[i] = self.data[i].sub(x.data[i]);
            i = i + 1;
        }
        proof {
            assert(final(self).vals() =~= Seq::new(
                old(self).vals().len(),
                |j: int| old(self).vals()[j].sp_sub(x.vals()[j]),
            ));
        }
    }

    fn add_assign(&mut self, x: &Self) {
        let n = self.data.len();
        let mut i: usize = 0;
        while i < n
            invariant
                i <= n,
                self.vals().len() == n,
                x.vals().len() == n,
                forall|j: int| 0 <= j < i ==> self.vals()[j] == old(self).vals()[j].sp_add(
                    x.vals()[j],
                ),
                forall|j: int| i <= j < n ==> self.vals()[j] == old(self).vals()[j],
            decreases n - i,
        {
            self.data[i] = self.data[i].add(x.data[i]);
            i = i + 1;
        }
        proof {
            assert(final(self).vals() =~= Seq::new(
                old(self).vals().len(),
                |j: int| old(self).vals()[j].sp_add(x.vals()[j]),
            ));
        }
    }

    fn scale_mut(&mut self, alpha: Self::T) {
        let n = self.data.len();
        let mut i: usize = 0;
        while i < n
            invariant
                i <= n,
                self.vals().len() == n,
                forall|j: int| 0 <= j < i ==> self.vals()[j] == alpha.sp_mul(old(self).vals()[j]),
                forall|j: int| i <= j < n ==> self.vals()[j] == old(self).vals()[j],
            decreases n - i,
        {
            self.data[i] = alpha.mul(self.data[i]);
            i = i + 1;
        }
        proof {
            assert(final(self).vals() =~= Seq::new(
                old(self).vals().len(),
                |j: int| alpha.sp_mul(old(self).vals()[j]),
            ));
        }
    }

    fn add_scalar_mut(&mut self, scalar: Self::T) {
        let n = self.data.len();
        let mut i: usize = 0;
        while i < n
            invariant
                i <= n,
                self.vals().len() == n,
                forall|j: int| 0 <= j < i ==> self.vals()[j] == old(self).vals()[j].sp_add(scalar),
                forall|j: int| i <= j < n ==> self.vals()[j] == old(self).vals()[j],
            decreases n - i,
        {
            self.data[i] = self.data[i].add(scalar);
            i = i + 1;
        }
        proof {
            assert(final(self).vals() =~= Seq::new(
                old(self).vals().len(),
                |j: int| old(self).vals()[j].sp_add(scalar),
            ));
        }
    }

    fn component_mul_assign(&mut self, other: &Self) {
        let n = self.data.len();
        let mut i: usize = 0;
        while i < n
            invariant
                i <= n,
                self.vals().len() == n,
                other.vals().len() == n,
                forall|j: int| 0 <= j < i ==> self.vals()[j] == old(self).vals()[j].sp_mul(
                    other.vals()[j],
                ),
                forall|j: int| i <= j < n ==> self.vals()[j] == old(self).vals()[j],
            decreases n - i,
        {
            self.data[i] = self.data[i].mul(other.data[i]);
            i = i + 1;
        }
        proof {
            assert(final(self).vals() =~= Seq::new(
                old(self).vals().len(),
                |j: int| old(self).vals()[j].sp_mul(other.vals()[j]),
            ));
        }
    }

    fn component_div_assign(&mut self, other: &Self) {
        let n = self.data.len();
        let mut i: usize = 0;
        while i < n
            invariant
                i <= n,
                self.vals().len() == n,
                other.vals().len() == n,
                forall|j: int| 0 <= j < i ==> self.vals()[j] == old(self).vals()[j].sp_div(
                    other.vals()[j],
                ),
                forall|j: int| i <= j < n ==> self.vals()[j] == old(self).vals()[j],
            decreases n - i,
        {
            self.data[i] = self.data[i].div(other.data[i]);
            i = i + 1;
        }
        proof {
            assert(final(self).vals() =~= Seq::new(
                old(self).vals().len(),
                |j: int| old(self).vals()[j].sp_div(other.vals()[j]),
            ));
        }
    }

    fn abs(&self) -> (r: Self) {
        let n = self.data.len();
        let mut data: Vec<T> = Vec::new();
        let mut i: usize = 0;
        while i < n
            invariant
                i <= n,
                n == self.vals().len(),
                data@ =~= Seq::new(i as nat, |j: int| self.vals()[j].sp_abs()),
            decreases n - i,
        {
            data.push(self.data[i].abs());
            i = i + 1;
        }
        proof {
            assert(data@ =~= Seq::new(self.vals().len(), |j: int| self.vals()[j].sp_abs()));
        }
        DVec { data }
    }
}

} // verus!
