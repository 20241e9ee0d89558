//! The state of the BDF integrator.
//!
//! Besides the solution `y`, its derivative estimate `dy`, the time `t` and
//! the step `h`, the state carries the integrator's memory: `diff`, a dense
//! matrix whose columns `0..=order+1` hold scaled backward differences of the
//! solution history and whose column `order+2` receives the latest
//! correction. The integrated output `g` and the forward sensitivities `s`
//! keep analogous histories `gdiff` and `sdiff`.

use vstd::prelude::*;

use crate::matrix::{DenseMat, Matrix, MatrixCommon};
use crate::scalar::Scalar;
use crate::vector::{Vector, VectorCommon};

verus! {

/// The highest order the variable-order formula will use.
pub const MAX_ORDER: usize = 5;

/// The time factor of the `m`-th term of the interpolating polynomial of a
/// BDF history ending at `t1` with step `h`:
/// the product over `k < m` of `(t - (t1 - h * k)) / (h * (1 + k))`.
pub open spec fn sp_time_factor<T: Scalar>(t: T, t1: T, h: T, m: int) -> T
    decreases m,
{
    if m <= 0 {
        T::sp_one()
    } else {
        sp_time_factor(t, t1, h, m - 1).sp_mul(
            t.sp_sub(t1.sp_sub(h.sp_mul(T::sp_ratio(m - 1, 1)))).sp_div(
                h.sp_mul(T::sp_one().sp_add(T::sp_ratio(m - 1, 1))),
            ),
        )
    }
}

/// Element `i` of the interpolating polynomial evaluated at `t`, using the
/// first `m + 1` history columns.
pub open spec fn sp_interp<T: Scalar>(
    cols: Seq<Seq<T>>,
    t: T,
    t1: T,
    h: T,
    m: int,
    i: int,
) -> T
    decreases m,
{
    if m <= 0 {
        cols[0][i]
    } else {
        sp_interp(cols, t, t1, h, m - 1, i).sp_add(
            sp_time_factor(t, t1, h, m).sp_mul(cols[m][i]),
        )
    }
}

/// Evaluates the interpolating polynomial of the history `diff` at time `t`,
/// where the history ends at time `t1` with step `h` and order `order`.
pub fn interpolate_from_diff<V: Vector>(
    t: V::T,
    diff: &DenseMat<V>,
    t1: V::T,
    h: V::T,
    order: usize,
) -> (r: V)
    requires
        diff.wf(),
        order <= MAX_ORDER,
        order < diff.sp_ncols(),
    ensures
        r.vals().len() == diff.sp_nrows(),
        forall|i: int|
            0 <= i < diff.sp_nrows() ==> #[trigger] r.vals()[i] == sp_interp(
                diff.sp_columns(),
                t,
                t1,
                h,
                order as int,
                i,
            ),
{
    let mut time_factor = V::T::one();
    let mut out = diff.column_clone(0);
    let mut m: usize = 1;
    while m <= order
        invariant
            1 <= m <= order + 1,
            order <= MAX_ORDER,
            diff.wf(),
            order < diff.sp_ncols(),
            out.vals().len() == diff.sp_nrows(),
            time_factor == sp_time_factor::<V::T>(t, t1, h, m - 1),
            forall|i: int|
                0 <= i < diff.sp_nrows() ==> #[trigger] out.vals()[i] == sp_interp(
                    diff.sp_columns(),
                    t,
                    t1,
                    h,
                    m - 1,
                    i,
                ),
        decreases order + 1 - m,
    {
        let i_t = V::T::from_index(m - 1);
        time_factor = time_factor.mul(
            t.sub(t1.sub(h.mul(i_t))).div(h.mul(V::T::one().add(i_t))),
        );
        diff.add_scaled_column_to(m, time_factor, &mut out);
        m = m + 1;
    }
    out
}

/// The solution, its history of scaled backward differences, and the
/// current time and step.
pub struct BdfState<V: Vector> {
    pub y: V,
    pub dy: V,
    pub g: V,
    pub dg: V,
    pub s: Vec<V>,
    pub ds: Vec<V>,
    pub t: V::T,
    pub h: V::T,
    pub order: usize,
    pub diff: DenseMat<V>,
    pub gdiff: DenseMat<V>,
    pub sdiff: Vec<DenseMat<V>>,
}

impl<V: Vector> BdfState<V> {
    /// The shapes agree with a problem of `nstates` states, `nout` output
    /// channels and `naug` sensitivity columns, and the order is in range.
    pub open spec fn sp_wf(&self, nstates: nat, nout: nat, naug: nat) -> bool {
        &&& self.y.vals().len() == nstates
        &&& self.dy.vals().len() == nstates
        &&& self.g.vals().len() == nout
        &&& self.dg.vals().len() == nout
        &&& 1 <= self.order <= MAX_ORDER
        &&& self.diff.wf()
        &&& self.diff.sp_nrows() == nstates
        &&& self.diff.sp_ncols() == MAX_ORDER + 3
        &&& self.gdiff.wf()
        &&& self.gdiff.sp_nrows() == nout
        &&& self.gdiff.sp_ncols() == MAX_ORDER + 3
        &&& self.s@.len() == naug
        &&& self.ds@.len() == naug
        &&& self.sdiff@.len() == naug
        &&& (forall|i: int| 0 <= i < naug ==> (#[trigger] self.s@[i]).vals().len() == nstates)
        &&& (forall|i: int| 0 <= i < naug ==> (#[trigger] self.ds@[i]).vals().len() == nstates)
        &&& (forall|i: int|
            0 <= i < naug ==> (#[trigger] self.sdiff@[i]).wf() && self.sdiff@[i].sp_nrows()
                == nstates && self.sdiff@[i].sp_ncols() == MAX_ORDER + 3)
    }

    /// An owned copy with the same contents, column by column.
    pub fn clone_state(&self) -> (r: Self)
        ensures
            r.y.vals() == self.y.vals(),
            r.dy.vals() == self.dy.vals(),
            r.g.vals() == self.g.vals(),
            r.dg.vals() == self.dg.vals(),
            r.t == self.t,
            r.h == self.h,
            r.order == self.order,
            r.diff.sp_columns() == self.diff.sp_columns(),
            r.diff.sp_nrows() == self.diff.sp_nrows(),
            r.gdiff.sp_columns() == self.gdiff.sp_columns(),
            r.gdiff.sp_nrows() == self.gdiff.sp_nrows(),
            r.s@.len() == self.s@.len(),
            r.ds@.len() == self.ds@.len(),
            r.sdiff@.len() == self.sdiff@.len(),
            forall|i: int| 0 <= i < self.s@.len() ==> (#[trigger] r.s@[i]).vals()
                == self.s@[i].vals(),
            forall|i: int| 0 <= i < self.ds@.len() ==> (#[trigger] r.ds@[i]).vals()
                == self.ds@[i].vals(),
            forall|i: int|
                0 <= i < self.sdiff@.len() ==> (#[trigger] r.sdiff@[i]).sp_columns()
                    == self.sdiff@[i].sp_columns() && r.sdiff@[i].sp_nrows()
                    == self.sdiff@[i].sp_nrows(),
            self.diff.wf() ==> r.diff.wf(),
            self.gdiff.wf() ==> r.gdiff.wf(),
            forall|i: int|
                0 <= i < self.sdiff@.len() && self.sdiff@[i].wf()
                    ==> (#[trigger] r.sdiff@[i]).wf(),
    {
        let mut s: Vec<V> = Vec::new();
        let mut i: usize = 0;
        while i < self.s.len()
            invariant
                i <= self.s@.len(),
                s@.len() == i,
                forall|k: int| 0 <= k < i ==> (#[trigger] s@[k]).vals() == self.s@[k].vals(),
            decreases self.s@.len() - i,
        {
            s.push(self.s[i].clone_vec());
            i = i + 1;
        }
        let mut ds: Vec<V> = Vec::new();
        let mut i: usize = 0;
        while i < self.ds.len()
            invariant
                i <= self.ds@.len(),
                ds@.len() == i,
                forall|k: int| 0 <= k < i ==> (#[trigger] ds@[k]).vals() == self.ds@[k].vals(),
            decreases self.ds@.len() - i,
        {
            ds.push(self.ds[i].clone_vec());
            i = i + 1;
        }
        let mut sdiff: Vec<DenseMat<V>> = Vec::new();
        let mut i: usize = 0;
        while i < self.sdiff.len()
            invariant
                i <= self.sdiff@.len(),
                sdiff@.len() == i,
                forall|k: int|
                    0 <= k < i ==> (#[trigger] sdiff@[k]).sp_columns()
                        == self.sdiff@[k].sp_columns() && sdiff@[k].sp_nrows()
                        == self.sdiff@[k].sp_nrows() && (self.sdiff@[k].wf() ==> sdiff@[k].wf()),
            decreases self.sdiff@.len() - i,
        {
            let c = self.sdiff[i].clone_mat();
            proof {
                if self.sdiff@[i as int].wf() {
                    c.lemma_wf_transfer(&self.sdiff@[i as int]);
                }
            }
            sdiff.push(c);
            i = i + 1;
        }
        let diff = self.diff.clone_mat();
        let gdiff = self.gdiff.clone_mat();
        proof {
            if self.diff.wf() {
                diff.lemma_wf_transfer(&self.diff);
            }
            if self.gdiff.wf() {
                gdiff.lemma_wf_transfer(&self.gdiff);
            }
        }
        BdfState {
            y: self.y.clone_vec(),
            dy: self.dy.clone_vec(),
            g: self.g.clone_vec(),
            dg: self.dg.clone_vec(),
            s,
            ds,
            t: self.t,
            h: self.h,
            order: self.order,
            diff,
            gdiff,
            sdiff,
        }
    }

    /// Resets the solution history to first order: column 0 of `diff` holds
    /// `y`, column 1 holds `h * dy`.
    pub fn initialise_diff_to_first_order(&mut self)
        requires
            old(self).diff.wf(),
            old(self).diff.sp_nrows() == old(self).y.vals().len(),
            old(self).diff.sp_nrows() == old(self).dy.vals().len(),
            old(self).diff.sp_ncols() >= 2,
        ensures
            final(self).order == 1,
            final(self).y == old(self).y,
            final(self).dy == old(self).dy,
            final(self).g == old(self).g,
            final(self).dg == old(self).dg,
            final(self).s == old(self).s,
            final(self).ds == old(self).ds,
            final(self).t == old(self).t,
            final(self).h == old(self).h,
            final(self).gdiff == old(self).gdiff,
            final(self).sdiff == old(self).sdiff,
            final(self).diff.wf(),
            final(self).diff.sp_nrows() == old(self).diff.sp_nrows(),
            final(self).diff.sp_ncols() == old(self).diff.sp_ncols(),
            final(self).diff.sp_columns()[0] == old(self).y.vals(),
            final(self).diff.sp_columns()[1] == Seq::new(
                old(self).dy.vals().len(),
                |i: int| old(self).h.sp_mul(old(self).dy.vals()[i]),
            ),
            forall|j: int|
                2 <= j < old(self).diff.sp_ncols() ==> final(self).diff.sp_columns()[j] == old(
                    self,
                ).diff.sp_columns()[j],
    {
        self.order = 1;
        let mut hdy = self.dy.clone_vec();
        hdy.scale_mut(self.h);
        self.diff.set_col(0, &self.y);
        self.diff.set_col(1, &hdy);
    }

    /// Resets the output history to first order, in the same shape.
    pub fn initialise_gdiff_to_first_order(&mut self)
        requires
            old(self).gdiff.wf(),
            old(self).gdiff.sp_nrows() == old(self).g.vals().len(),
            old(self).gdiff.sp_nrows() == old(self).dg.vals().len(),
            old(self).gdiff.sp_ncols() >= 2,
        ensures
            final(self).order == old(self).order,
            final(self).y == old(self).y,
            final(self).dy == old(self).dy,
            final(self).g == old(self).g,
            final(self).dg == old(self).dg,
            final(self).s == old(self).s,
            final(self).ds == old(self).ds,
            final(self).t == old(self).t,
            final(self).h == old(self).h,
            final(self).diff == old(self).diff,
            final(self).sdiff == old(self).sdiff,
            final(self).gdiff.wf(),
            final(self).gdiff.sp_nrows() == old(self).gdiff.sp_nrows(),
            final(self).gdiff.sp_ncols() == old(self).gdiff.sp_ncols(),
            final(self).gdiff.sp_columns()[0] == old(self).g.vals(),
            final(self).gdiff.sp_columns()[1] == Seq::new(
                old(self).dg.vals().len(),
                |i: int| old(self).h.sp_mul(old(self).dg.vals()[i]),
            ),
    {
        let mut hdg = self.dg.clone_vec();
        hdg.scale_mut(self.h);
        self.gdiff.set_col(0, &self.g);
        self.gdiff.set_col(1, &hdg);
    }

    /// Resets every sensitivity history to first order, in the same shape.
    pub fn initialise_sdiff_to_first_order(&mut self)
        requires
            old(self).s@.len() == old(self).sdiff@.len(),
            old(self).ds@.len() == old(self).sdiff@.len(),
            forall|i: int|
                0 <= i < old(self).sdiff@.len() ==> (#[trigger] old(self).sdiff@[i]).wf() && old(
                    self,
                ).sdiff@[i].sp_nrows() == old(self).s@[i].vals().len() && old(self).sdiff@[
                    i
                ].sp_nrows() == old(self).ds@[i].vals().len() && old(self).sdiff@[i].sp_ncols()
                    >= 2,
        ensures
            final(self).order == old(self).order,
            final(self).y == old(self).y,
            final(self).dy == old(self).dy,
            final(self).g == old(self).g,
            final(self).dg == old(self).dg,
            final(self).s == old(self).s,
            final(self).ds == old(self).ds,
            final(self).t == old(self).t,
            final(self).h == old(self).h,
            final(self).diff == old(self).diff,
            final(self).gdiff == old(self).gdiff,
            final(self).sdiff@.len() == old(self).sdiff@.len(),
            forall|i: int|
                0 <= i < old(self).sdiff@.len() ==> (#[trigger] final(self).sdiff@[i]).wf()
                    && final(self).sdiff@[i].sp_nrows() == old(self).sdiff@[i].sp_nrows()
                    && final(self).sdiff@[i].sp_ncols() == old(self).sdiff@[i].sp_ncols(),
            forall|i: int|
                0 <= i < old(self).sdiff@.len() ==> (#[trigger] final(self).sdiff@[i]).sp_columns()[0]
                    == old(self).s@[i].vals(),
            forall|i: int|
                0 <= i < old(self).sdiff@.len() ==> (#[trigger] final(self).sdiff@[i]).sp_columns()[1]
                    == Seq::new(
                    old(self).ds@[i].vals().len(),
                    |q: int| old(self).h.sp_mul(old(self).ds@[i].vals()[q]),
                ),
    {
        let n = self.sdiff.len();
        let mut i: usize = 0;
        while i < n
            invariant
                i <= n,
                n == self.sdiff@.len(),
                self.s@.len() == n,
                self.ds@.len() == n,
                self.y == old(self).y,
                self.dy == old(self).dy,
                self.g == old(self).g,
                self.dg == old(self).dg,
                self.s == old(self).s,
                self.ds == old(self).ds,
                self.t == old(self).t,
                self.h == old(self).h,
                self.order == old(self).order,
                self.diff == old(self).diff,
                self.gdiff == old(self).gdiff,
                forall|k: int|
                    0 <= k < n ==> (#[trigger] self.sdiff@[k]).wf() && self.sdiff@[k].sp_nrows()
                        == old(self).sdiff@[k].sp_nrows() && self.sdiff@[k].sp_ncols() == old(
                        self,
                    ).sdiff@[k].sp_ncols() && self.sdiff@[k].sp_nrows()
                        == self.s@[k].vals().len() && self.sdiff@[k].sp_nrows()
                        == self.ds@[k].vals().len() && self.sdiff@[k].sp_ncols() >= 2,
                forall|k: int|
                    0 <= k < i ==> (#[trigger] self.sdiff@[k]).sp_columns()[0]
                        == old(self).s@[k].vals(),
                forall|k: int|
                    0 <= k < i ==> (#[trigger] self.sdiff@[k]).sp_columns()[1] == Seq::new(
                        old(self).ds@[k].vals().len(),
                        |q: int| old(self).h.sp_mul(old(self).ds@[k].vals()[q]),
                    ),
            decreases n - i,
        {
            let mut hds = self.ds[i].clone_vec();
            hds.scale_mut(self.h);
            let si = self.s[i].clone_vec();
            let m = &mut self.sdiff[i];
            m.set_col(0, &si);
            m.set_col(1, &hds);
            i = i + 1;
        }
    }
}

} // verus!
