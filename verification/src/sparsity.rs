//! The sparsity pattern of a compressed-sparse-column matrix.
//!
//! A pattern is a column-major structure: `major_offsets[j]..major_offsets[j+1]`
//! delimits the row indices of column `j` inside `minor_indices`. Patterns
//! are immutable after construction; every lane is strictly increasing. They
//! are used to allocate sparse matrices with a fixed set of stored positions
//! and to scatter finite-difference columns into the value buffer.

use vstd::prelude::*;

verus! {

/// A column-major sparsity pattern: offsets plus row indices.
pub struct SparsityPattern {
    major_offsets: Vec<usize>,
    minor_indices: Vec<usize>,
    minor_dim: usize,
}

impl SparsityPattern {
    /// The offsets, one per column plus a final total.
    pub closed spec fn sp_offsets(&self) -> Seq<usize> {
        self.major_offsets@
    }

    /// The concatenated row indices of all columns.
    pub closed spec fn sp_minors(&self) -> Seq<usize> {
        self.minor_indices@
    }

    /// The number of rows.
    pub closed spec fn sp_minor_dim(&self) -> nat {
        self.minor_dim as nat
    }

    /// The number of columns.
    pub open spec fn sp_major_dim(&self) -> nat {
        (self.sp_offsets().len() - 1) as nat
    }

    /// The stored row indices of column `j`, in increasing order.
    pub open spec fn sp_lane(&self, j: int) -> Seq<usize> {
        self.sp_minors().subrange(self.sp_offsets()[j] as int, self.sp_offsets()[j + 1] as int)
    }

    /// Whether position `(i, j)` is stored.
    pub open spec fn sp_contains(&self, i: int, j: int) -> bool {
        0 <= j < self.sp_major_dim() && exists|k: int|
            0 <= k < self.sp_lane(j).len() && (#[trigger] self.sp_lane(j)[k]) == i
    }

    /// Offsets start at zero, end at the total, never decrease; every row
    /// index is in range and every lane is strictly increasing.
    pub open spec fn wf(&self) -> bool {
        &&& self.sp_offsets().len() >= 1
        &&& self.sp_offsets()[0] == 0
        &&& self.sp_offsets().last() == self.sp_minors().len()
        &&& (forall|j: int|
            0 <= j < self.sp_offsets().len() - 1 ==> #[trigger] self.sp_offsets()[j]
                <= self.sp_offsets()[j + 1])
        &&& (forall|k: int|
            0 <= k < self.sp_minors().len() ==> (#[trigger] self.sp_minors()[k])
                < self.sp_minor_dim())
        &&& (forall|j: int, k: int|
            #![trigger self.sp_offsets()[j], self.sp_minors()[k]]
            0 <= j < self.sp_offsets().len() - 1 && self.sp_offsets()[j] <= k && k + 1
                < self.sp_offsets()[j + 1] ==> self.sp_minors()[k] < self.sp_minors()[k + 1])
    }

    /// A stored position's row index is always below the row dimension.
    pub proof fn lemma_contains_in_range(&self, i: int, j: int)
        requires
            self.wf(),
            self.sp_contains(i, j),
        ensures
            0 <= i < self.sp_minor_dim(),
    {
        self.lemma_offsets_bounded();
        self.lemma_offsets_monotone(j, j + 1);
        let k = choose|k: int|
            0 <= k < self.sp_lane(j).len() && (#[trigger] self.sp_lane(j)[k]) == i;
        assert(self.sp_minors()[self.sp_offsets()[j] + k] == i);
    }

    /// Offsets are bounded by the total number of stored indices.
    pub proof fn lemma_offsets_bounded(&self)
        requires
            self.wf(),
        ensures
            forall|j: int|
                0 <= j < self.sp_offsets().len() ==> (#[trigger] self.sp_offsets()[j])
                    <= self.sp_minors().len(),
    {
        let n = self.sp_offsets().len() as int;
        assert forall|j: int|
            0 <= j < n implies (#[trigger] self.sp_offsets()[j]) <= self.sp_minors().len() by {
            self.lemma_offsets_monotone(j, n - 1);
        }
    }

    /// Offsets never decrease between any two columns.
    pub proof fn lemma_offsets_monotone(&self, a: int, b: int)
        requires
            self.wf(),
            0 <= a <= b < self.sp_offsets().len(),
        ensures
            self.sp_offsets()[a] <= self.sp_offsets()[b],
        decreases b - a,
    {
        if a < b {
            self.lemma_offsets_monotone(a, b - 1);
        }
    }

    /// The number of rows.
    pub fn nrows(&self) -> (r: usize)
        ensures
            r == self.sp_minor_dim(),
    {
        self.minor_dim
    }

    /// The number of columns.
    pub fn ncols(&self) -> (r: usize)
        requires
            self.wf(),
        ensures
            r == self.sp_major_dim(),
    {
        self.major_offsets.len() - 1
    }

    /// A pattern is always sparse storage.
    pub fn is_sparse(&self) -> (r: bool)
        ensures
            r,
    {
        true
    }

    /// The number of stored positions.
    pub fn nnz(&self) -> (r: usize)
        ensures
            r == self.sp_minors().len(),
    {
        self.minor_indices.len()
    }

    /// The offsets, one per column plus a final total.
    pub fn major_offsets(&self) -> (r: &Vec<usize>)
        ensures
            r@ == self.sp_offsets(),
    {
        &self.major_offsets
    }

    /// The concatenated row indices.
    pub fn minor_indices(&self) -> (r: &Vec<usize>)
        ensures
            r@ == self.sp_minors(),
    {
        &self.minor_indices
    }

    /// Whether position `(i, j)` is stored.
    #[verifier::loop_isolation(false)]
    pub fn contains(&self, i: usize, j: usize) -> (r: bool)
        requires
            self.wf(),
            j < self.sp_major_dim(),
        ensures
            r == self.sp_contains(i as int, j as int),
    {
        proof {
            self.lemma_offsets_bounded();
            self.lemma_offsets_monotone(j as int, j as int + 1);
        }
        let noff = self.major_offsets.len();
        let start = self.major_offsets[j];
        let end = self.major_offsets[j + 1];
        let mut k = start;
        while k < end
            invariant
                start <= k <= end,
                forall|q: int|
                    0 <= q < k - start ==> (#[trigger] self.sp_lane(j as int)[q]) != i,
            decreases end - k,
        {
            if self.minor_indices[k] == i {
                proof {
                    assert(self.sp_lane(j as int)[k - start] == i);
                }
                return true;
            }
            k = k + 1;
        }
        proof {
            if self.sp_contains(i as int, j as int) {
                let q = choose|q: int|
                    0 <= q < self.sp_lane(j as int).len() && (#[trigger] self.sp_lane(j as int)[q])
                        == i;
                assert(self.sp_lane(j as int)[q] != i);
            }
        }
        false
    }

    /// The dense positions in the value buffer of the given logical
    /// coordinates. Every coordinate must be a stored position.
    #[verifier::loop_isolation(false)]
    #[verifier::rlimit(100)]
    pub fn get_index(&self, rows: &Vec<usize>, cols: &Vec<usize>) -> (r: Vec<usize>)
        requires
            self.wf(),
            rows@.len() == cols@.len(),
            forall|k: int|
                0 <= k < cols@.len() ==> (#[trigger] cols@[k]) < self.sp_major_dim()
                    && self.sp_contains(rows@[k] as int, cols@[k] as int),
        ensures
            r@.len() == rows@.len(),
            forall|k: int|
                0 <= k < r@.len() ==> self.sp_offsets()[cols@[k] as int] <= (#[trigger] r@[k])
                    && r@[k] < self.sp_offsets()[cols@[k] as int + 1] && self.sp_minors()[
                    r@[k] as int
                ] == rows@[k],
    {
        let mut index: Vec<usize> = Vec::new();
        let n = rows.len();
        let mut k: usize = 0;
        while k < n
            invariant
                k <= n,
                index@.len() == k,
                forall|q: int|
                    0 <= q < k ==> self.sp_offsets()[cols@[q] as int] <= (#[trigger] index@[q])
                        && index@[q] < self.sp_offsets()[cols@[q] as int + 1] && self.sp_minors()[
                        index@[q] as int
                    ] == rows@[q],
            decreases n - k,
        {
            let i = rows[k];
            let j = cols[k];
            proof {
                self.lemma_offsets_bounded();
                self.lemma_offsets_monotone(j as int, j as int + 1);
            }
            let noff = self.major_offsets.len();
            let start = self.major_offsets[j];
            let end = self.major_offsets[j + 1];
            let mut p = start;
            let mut found: Option<usize> = None;
            while p < end
                invariant
                    start <= p <= end,
                    found matches Some(q) ==> start <= q < end && self.sp_minors()[q as int] == i,
                    found is None ==> (forall|q: int|
                        0 <= q < p - start ==> (#[trigger] self.sp_lane(j as int)[q]) != i),
                decreases end - p,
            {
                if self.minor_indices[p] == i {
                    found = Some(p);
                    proof {
                        assert(self.sp_lane(j as int)[p - start] == i);
                    }
                    break ;
                }
                p = p + 1;
            }
            match found {
                Some(q) => {
                    index.push(q);
                },
                None => {
                    proof {
                        let q = choose|q: int|
                            0 <= q < self.sp_lane(j as int).len() && (#[trigger] self.sp_lane(
                                j as int,
                            )[q]) == i;
                        assert(self.sp_lane(j as int)[q] != i);
                    }
                    // unreachable: the coordinate is a stored position
                    index.push(start);
                },
            }
            k = k + 1;
        }
        index
    }

    /// Enumerates the stored positions as `(row, column)` pairs, column by
    /// column: entry `k` carries the `k`-th stored row index and the column
    /// whose lane holds position `k`.
    #[verifier::rlimit(100)]
    #[verifier::loop_isolation(false)]
    pub fn indices(&self) -> (r: Vec<(usize, usize)>)
        requires
            self.wf(),
        ensures
            r@.len() == self.sp_minors().len(),
            forall|k: int|
                0 <= k < r@.len() ==> (#[trigger] r@[k]).0 == self.sp_minors()[k] && r@[k].1
                    < self.sp_major_dim() && self.sp_offsets()[r@[k].1 as int] <= k
                    && k < self.sp_offsets()[r@[k].1 as int + 1],
    {
        let ncols = self.major_offsets.len() - 1;
        let mut out: Vec<(usize, usize)> = Vec::new();
        let mut j: usize = 0;
        proof {
            self.lemma_offsets_bounded();
        }
        while j < ncols
            invariant
                j <= ncols,
                out@.len() == self.sp_offsets()[j as int],
                forall|k: int|
                    0 <= k < out@.len() ==> (#[trigger] out@[k]).0 == self.sp_minors()[k]
                        && out@[k].1 < j && self.sp_offsets()[out@[k].1 as int] <= k
                        && k < self.sp_offsets()[out@[k].1 as int + 1],
            decreases ncols - j,
        {
            proof {
                self.lemma_offsets_monotone(j as int, j as int + 1);
            }
            let noff = self.major_offsets.len();
            let start = self.major_offsets[j];
            let end = self.major_offsets[j + 1];
            let mut k = start;
            while k < end
                invariant
                    start <= k <= end,
                    out@.len() == k,
                    forall|p: int|
                        0 <= p < out@.len() ==> (#[trigger] out@[p]).0 == self.sp_minors()[p]
                            && out@[p].1 <= j && self.sp_offsets()[out@[p].1 as int] <= p
                            && p < self.sp_offsets()[out@[p].1 as int + 1],
                decreases end - k,
            {
                out.push((self.minor_indices[k], j));
                k = k + 1;
            }
            j = j + 1;
        }
        out
    }

    /// The structural union of two patterns of the same shape: position
    /// `(i, j)` is stored in the result exactly when either operand stores
    /// it. Shapes that differ are rejected.
    #[verifier::loop_isolation(false)]
    #[verifier::rlimit(100)]
    pub fn union(&self, other: &Self) -> (r: Result<Self, crate::error::DiffsolError>)
        requires
            self.wf(),
            other.wf(),
        ensures
            r matches Ok(p) ==> p.wf() && p.sp_major_dim() == self.sp_major_dim()
                && p.sp_minor_dim() == self.sp_minor_dim() && (forall|i: usize, j: int|
                (#[trigger] p.sp_contains(i as int, j)) == (self.sp_contains(i as int, j)
                    || other.sp_contains(i as int, j))),
            r matches Err(e) ==> e == crate::error::DiffsolError::InconsistentState,
            r is Err <==> !(self.sp_offsets().len() == other.sp_offsets().len()
                && self.sp_minor_dim() == other.sp_minor_dim()),
    {
        if self.major_offsets.len() != other.major_offsets.len() || self.minor_dim
            != other.minor_dim {
            return Err(crate::error::DiffsolError::InconsistentState);
        }
        let ncols = self.major_offsets.len() - 1;
        let nrows = self.minor_dim;
        let mut lanes: Vec<Vec<usize>> = Vec::new();
        let mut j: usize = 0;
        while j < ncols
            invariant
                j <= ncols,
                ncols == self.sp_major_dim(),
                ncols == other.sp_major_dim(),
                nrows == self.sp_minor_dim(),
                nrows == other.sp_minor_dim(),
                lanes@.len() == j,
                forall|q: int, k: int|
                    0 <= q < j && 0 <= k < lanes@[q]@.len() ==> (#[trigger] lanes@[q]@[k]) < nrows,
                forall|q: int, k: int|
                    0 <= q < j && 0 <= k && k + 1 < lanes@[q]@.len() ==> (#[trigger] lanes@[q]@[k])
                        < lanes@[q]@[k + 1],
                forall|q: int, i: usize|
                    0 <= q < j ==> ((#[trigger] lanes@[q]@.contains(i)) == (self.sp_contains(
                        i as int,
                        q,
                    ) || other.sp_contains(i as int, q))),
            decreases ncols - j,
        {
            let mut lane: Vec<usize> = Vec::new();
            let mut i: usize = 0;
            while i < nrows
                invariant
                    i <= nrows,
                    j < ncols,
                    forall|k: int| 0 <= k < lane@.len() ==> (#[trigger] lane@[k]) < i,
                    forall|k: int|
                        0 <= k && k + 1 < lane@.len() ==> (#[trigger] lane@[k]) < lane@[k + 1],
                    forall|q: usize|
                        (#[trigger] lane@.contains(q)) == (q < i && (self.sp_contains(
                            q as int,
                            j as int,
                        ) || other.sp_contains(q as int, j as int))),
                decreases nrows - i,
            {
                let stored = self.contains(i, j) || other.contains(i, j);
                if stored {
                    let ghost pre = lane@;
                    lane.push(i);
                    proof {
                        assert forall|q: usize| #[trigger]
                            lane@.contains(q) == (q < i + 1 && (self.sp_contains(q as int, j as int)
                                || other.sp_contains(q as int, j as int))) by {
                            if lane@.contains(q) {
                                let w = choose|w: int|
                                    0 <= w < lane@.len() && lane@[w] == q;
                                if w < pre.len() {
                                    assert(pre.contains(q));
                                }
                            }
                            if q < i + 1 && (self.sp_contains(q as int, j as int)
                                || other.sp_contains(q as int, j as int)) {
                                if q < i {
                                    assert(pre.contains(q));
                                    let w = choose|w: int| 0 <= w < pre.len() && pre[w] == q;
                                    assert(lane@[w] == q);
                                } else {
                                    assert(lane@[pre.len() as int] == q);
                                }
                            }
                        }
                    }
                } else {
                    proof {
                        assert forall|q: usize| #[trigger]
                            lane@.contains(q) == (q < i + 1 && (self.sp_contains(q as int, j as int)
                                || other.sp_contains(q as int, j as int))) by {
                        }
                    }
                }
                i = i + 1;
            }
            proof {
                assert forall|i: usize| #[trigger]
                    lane@.contains(i) == (self.sp_contains(i as int, j as int)
                        || other.sp_contains(i as int, j as int)) by {
                    if self.sp_contains(i as int, j as int) {
                        self.lemma_contains_in_range(i as int, j as int);
                    }
                    if other.sp_contains(i as int, j as int) {
                        other.lemma_contains_in_range(i as int, j as int);
                    }
                }
            }
            lanes.push(lane);
            j = j + 1;
        }
        Ok(Self::assemble(lanes, nrows))
    }

    /// Builds a pattern from per-column lanes that are already strictly
    /// increasing and in range.
    #[verifier::loop_isolation(false)]
    #[verifier::rlimit(100)]
    fn assemble(lanes: Vec<Vec<usize>>, nrows: usize) -> (p: Self)
        requires
            forall|q: int, k: int|
                0 <= q < lanes@.len() && 0 <= k < lanes@[q]@.len() ==> (#[trigger] lanes@[q]@[k])
                    < nrows,
            forall|q: int, k: int|
                0 <= q < lanes@.len() && 0 <= k && k + 1 < lanes@[q]@.len() ==> (
                #[trigger] lanes@[q]@[k]) < lanes@[q]@[k + 1],
        ensures
            p.wf(),
            p.sp_major_dim() == lanes@.len(),
            p.sp_minor_dim() == nrows,
            forall|q: int| 0 <= q < lanes@.len() ==> #[trigger] p.sp_lane(q) == lanes@[q]@,
            forall|i: usize, j: int|
                (#[trigger] p.sp_contains(i as int, j)) == (0 <= j < lanes@.len()
                    && lanes@[j]@.contains(i)),
    {
        let ncols = lanes.len();
        let mut major_offsets: Vec<usize> = Vec::new();
        let mut minor_indices: Vec<usize> = Vec::new();
        let mut j: usize = 0;
        while j < ncols
            invariant
                j <= ncols,
                ncols == lanes@.len(),
                major_offsets@.len() == j,
                j == 0 ==> minor_indices@.len() == 0,
                forall|q: int|
                    0 <= q < j ==> (#[trigger] major_offsets@[q]) <= minor_indices@.len(),
                j > 0 ==> major_offsets@[0] == 0,
                forall|q: int|
                    0 <= q && q + 1 < j ==> (#[trigger] major_offsets@[q]) <= major_offsets@[q
                        + 1],
                forall|q: int|
                    0 <= q < j ==> minor_indices@.subrange(
                        major_offsets@[q] as int,
                        (if q + 1 < j {
                            major_offsets@[q + 1] as int
                        } else {
                            minor_indices@.len() as int
                        }),
                    ) == lanes@[q]@,
                forall|k2: int|
                    0 <= k2 < minor_indices@.len() ==> (#[trigger] minor_indices@[k2]) < nrows,
            decreases ncols - j,
        {
            let ghost offs_head = major_offsets@;
            major_offsets.push(minor_indices.len());
            let ghost pre = minor_indices@;
            proof {
                assert(major_offsets@ =~= offs_head.push(pre.len() as usize));
                assert(offs_head.len() == j);
                assert forall|q: int|
                    0 <= q && q + 1 < j + 1 implies (#[trigger] major_offsets@[q])
                    <= major_offsets@[q + 1] by {
                    assert(offs_head.push(pre.len() as usize)[j as int] == pre.len());
                    if q + 1 < j {
                        assert(offs_head.push(pre.len() as usize)[q] == offs_head[q]);
                        assert(offs_head.push(pre.len() as usize)[q + 1] == offs_head[q + 1]);
                    } else {
                        assert(offs_head.push(pre.len() as usize)[q] == offs_head[q]);
                        assert(offs_head[q] <= pre.len());
                    }
                }
                assert forall|q: int|
                    0 <= q < j + 1 implies (#[trigger] major_offsets@[q]) <= pre.len() by {
                    if q < j {
                        assert(offs_head.push(pre.len() as usize)[q] == offs_head[q]);
                    } else {
                        assert(offs_head.push(pre.len() as usize)[q] == pre.len());
                    }
                }
            }
            let ghost offs_after = major_offsets@;
            let lane = &lanes[j];
            let m = lane.len();
            let mut k: usize = 0;
            while k < m
                invariant
                    k <= m,
                    m == lane@.len(),
                    lane@ == lanes@[j as int]@,
                    minor_indices@ == pre + lane@.take(k as int),
                    forall|k2: int|
                        0 <= k2 < minor_indices@.len() ==> (#[trigger] minor_indices@[k2])
                            < nrows,
                decreases m - k,
            {
                minor_indices.push(lane[k]);
                proof {
                    assert(minor_indices@ =~= pre + lane@.take(k as int + 1));
                }
                k = k + 1;
            }
            proof {
                assert(lane@.take(m as int) =~= lane@);
                assert forall|q: int|
                    0 <= q < j + 1 implies minor_indices@.subrange(
                    major_offsets@[q] as int,
                    (if q + 1 < j + 1 {
                        major_offsets@[q + 1] as int
                    } else {
                        minor_indices@.len() as int
                    }),
                ) == lanes@[q]@ by {
                    if q < j {
                        assert(minor_indices@.subrange(
                            major_offsets@[q] as int,
                            (if q + 1 < j {
                                major_offsets@[q + 1] as int
                            } else {
                                pre.len() as int
                            }),
                        ) =~= pre.subrange(
                            major_offsets@[q] as int,
                            (if q + 1 < j {
                                major_offsets@[q + 1] as int
                            } else {
                                pre.len() as int
                            }),
                        ));
                    } else {
                        assert(minor_indices@.subrange(
                            pre.len() as int,
                            minor_indices@.len() as int,
                        ) =~= lane@);
                    }
                }
            }
            proof {
                assert(major_offsets@ == offs_after);
                assert(minor_indices@.len() >= pre.len());
            }
            j = j + 1;
        }
        major_offsets.push(minor_indices.len());
        let p = SparsityPattern { major_offsets, minor_indices, minor_dim: nrows };
        proof {
            assert forall|q: int| 0 <= q < lanes@.len() implies #[trigger] p.sp_lane(q)
                == lanes@[q]@ by {
            }
            assert forall|q: int, k: int|
                #![trigger p.sp_offsets()[q], p.sp_minors()[k]]
                0 <= q < p.sp_offsets().len() - 1 && p.sp_offsets()[q] <= k && k + 1
                    < p.sp_offsets()[q + 1] implies p.sp_minors()[k] < p.sp_minors()[k + 1] by {
                assert(p.sp_lane(q)[k - p.sp_offsets()[q]] == p.sp_minors()[k]);
                assert(p.sp_lane(q)[k + 1 - p.sp_offsets()[q]] == p.sp_minors()[k + 1]);
            }
            assert forall|i: usize, j2: int| #[trigger]
                p.sp_contains(i as int, j2) == (0 <= j2 < lanes@.len()
                    && lanes@[j2]@.contains(i)) by {
                if 0 <= j2 < lanes@.len() {
                    if p.sp_contains(i as int, j2) {
                        let w = choose|w: int|
                            0 <= w < p.sp_lane(j2).len() && (#[trigger] p.sp_lane(j2)[w]) == i;
                        assert(lanes@[j2]@[w] == i);
                    }
                    if lanes@[j2]@.contains(i) {
                        let w = choose|w: int|
                            0 <= w < lanes@[j2]@.len() && lanes@[j2]@[w] == i;
                        assert(p.sp_lane(j2)[w] == i);
                    }
                }
            }
        }
        p
    }

    /// Builds a pattern from `(row, column)` coordinates. A coordinate out
    /// of range or repeated is rejected: every lane of a pattern is strictly
    /// increasing, so a position can be stored only once.
    #[verifier::loop_isolation(false)]
    #[verifier::rlimit(100)]
    pub fn try_from_indices(nrows: usize, ncols: usize, indices: Vec<(usize, usize)>) -> (r:
        Result<Self, crate::error::DiffsolError>)
        ensures
            r matches Ok(p) ==> p.wf() && p.sp_major_dim() == ncols && p.sp_minor_dim() == nrows
                && (forall|i: usize, j: int|
                (#[trigger] p.sp_contains(i as int, j)) == (0 <= j < ncols && indices@.contains(
                    (i, j as usize),
                ))),
            r matches Err(e) ==> e == crate::error::DiffsolError::InconsistentState,
            r is Err <==> ((exists|k: int|
                0 <= k < indices@.len() && ((#[trigger] indices@[k]).0 >= nrows || indices@[k].1
                    >= ncols)) || (exists|k1: int, k2: int|
                #![trigger indices@[k1], indices@[k2]]
                0 <= k1 < k2 < indices@.len() && indices@[k1] == indices@[k2])),
    {
        // every coordinate must be in range
        let n = indices.len();
        let mut k: usize = 0;
        while k < n
            invariant
                k <= n,
                n == indices@.len(),
                forall|q: int|
                    0 <= q < k ==> (#[trigger] indices@[q]).0 < nrows && indices@[q].1 < ncols,
            decreases n - k,
        {
            let (i, j) = indices[k];
            if i >= nrows || j >= ncols {
                proof {
                    assert(indices@[k as int].0 >= nrows || indices@[k as int].1 >= ncols);
                }
                return Err(crate::error::DiffsolError::InconsistentState);
            }
            k = k + 1;
        }
        // a repeated coordinate is rejected
        let mut k: usize = 1;
        while k < n
            invariant
                1 <= k <= n || n == 0,
                n == indices@.len(),
                forall|k1: int, k2: int|
                    #![trigger indices@[k1], indices@[k2]]
                    0 <= k1 < k2 < k ==> indices@[k1] != indices@[k2],
            decreases n - k,
        {
            let (i, j) = indices[k];
            let mut q: usize = 0;
            while q < k
                invariant
                    q <= k,
                    k < n,
                    n == indices@.len(),
                    (i, j) == indices@[k as int],
                    forall|w: int| 0 <= w < q ==> (#[trigger] indices@[w]) != indices@[k as int],
                decreases k - q,
            {
                let (a, b) = indices[q];
                if a == i && b == j {
                    proof {
                        assert(indices@[q as int] == indices@[k as int]);
                    }
                    return Err(crate::error::DiffsolError::InconsistentState);
                }
                q = q + 1;
            }
            k = k + 1;
        }

        let mut lanes: Vec<Vec<usize>> = Vec::new();
        let mut j: usize = 0;
        while j < ncols
            invariant
                j <= ncols,
                lanes@.len() == j,
                forall|q: int|
                    0 <= q < indices@.len() ==> (#[trigger] indices@[q]).0 < nrows
                        && indices@[q].1 < ncols,
                forall|q: int, k2: int|
                    0 <= q < j && 0 <= k2 < lanes@[q]@.len() ==> (#[trigger] lanes@[q]@[k2])
                        < nrows,
                forall|q: int, k2: int|
                    0 <= q < j && 0 <= k2 && k2 + 1 < lanes@[q]@.len() ==> (
                    #[trigger] lanes@[q]@[k2]) < lanes@[q]@[k2 + 1],
                forall|q: int, i: usize|
                    0 <= q < j ==> ((#[trigger] lanes@[q]@.contains(i)) == indices@.contains(
                        (i, q as usize),
                    )),
            decreases ncols - j,
        {
            let mut lane: Vec<usize> = Vec::new();
            let mut i: usize = 0;
            while i < nrows
                invariant
                    i <= nrows,
                    j < ncols,
                    forall|k2: int| 0 <= k2 < lane@.len() ==> (#[trigger] lane@[k2]) < i,
                    forall|k2: int|
                        0 <= k2 && k2 + 1 < lane@.len() ==> (#[trigger] lane@[k2]) < lane@[k2
                            + 1],
                    forall|q: usize|
                        (#[trigger] lane@.contains(q)) == (q < i && indices@.contains(
                            (q, j),
                        )),
                decreases nrows - i,
            {
                let stored = Self::pairs_contain(&indices, i, j);
                if stored {
                    let ghost pre = lane@;
                    lane.push(i);
                    proof {
                        assert forall|q: usize| #[trigger]
                            lane@.contains(q) == (q < i + 1 && indices@.contains((q, j))) by {
                            if lane@.contains(q) {
                                let w = choose|w: int|
                                    0 <= w < lane@.len() && lane@[w] == q;
                                if w < pre.len() {
                                    assert(pre.contains(q));
                                }
                            }
                            if q < i + 1 && indices@.contains((q, j)) {
                                if q < i {
                                    assert(pre.contains(q));
                                    let w = choose|w: int| 0 <= w < pre.len() && pre[w] == q;
                                    assert(lane@[w] == q);
                                } else {
                                    assert(lane@[pre.len() as int] == q);
                                }
                            }
                        }
                    }
                }
                i = i + 1;
            }
            proof {
                assert forall|i: usize| #[trigger]
                    lane@.contains(i) == indices@.contains((i, j)) by {
                    if indices@.contains((i, j)) {
                        let w = choose|w: int|
                            0 <= w < indices@.len() && (#[trigger] indices@[w]) == (i, j);
                    }
                }
            }
            lanes.push(lane);
            j = j + 1;
        }
        let p = Self::assemble(lanes, nrows);
        proof {
            assert forall|i: usize, j2: int| #[trigger]
                p.sp_contains(i as int, j2) == (0 <= j2 < ncols && indices@.contains(
                    (i, j2 as usize),
                )) by {
                if 0 <= j2 < ncols && indices@.contains((i, j2 as usize)) {
                    let w = choose|w: int|
                        0 <= w < indices@.len() && indices@[w] == (i, j2 as usize);
                }
            }
        }
        Ok(p)
    }

    /// Whether the coordinate list names `(i, j)`.
    fn pairs_contain(indices: &Vec<(usize, usize)>, i: usize, j: usize) -> (r: bool)
        ensures
            r == indices@.contains((i, j)),
    {
        let n = indices.len();
        let mut k: usize = 0;
        while k < n
            invariant
                k <= n,
                n == indices@.len(),
                forall|q: int| 0 <= q < k ==> (#[trigger] indices@[q]) != (i, j),
            decreases n - k,
        {
            let (a, b) = indices[k];
            if a == i && b == j {
                proof {
                    assert(indices@[k as int] == (i, j));
                }
                return true;
            }
            k = k + 1;
        }
        proof {
            if indices@.contains((i, j)) {
                let w = choose|w: int| 0 <= w < indices@.len() && indices@[w] == (i, j);
                assert(indices@[w] != (i, j));
            }
        }
        false
    }

    /// The diagonal pattern of size `n`: exactly the positions `(i, i)`.
    #[verifier::loop_isolation(false)]
    pub fn new_diagonal(n: usize) -> (p: Self)
        ensures
            p.wf(),
            p.sp_major_dim() == n,
            p.sp_minor_dim() == n,
            forall|i: usize, j: int|
                (#[trigger] p.sp_contains(i as int, j)) == (0 <= j < n && i == j),
    {
        let mut lanes: Vec<Vec<usize>> = Vec::new();
        let mut j: usize = 0;
        while j < n
            invariant
                j <= n,
                lanes@.len() == j,
                forall|q: int| 0 <= q < j ==> (#[trigger] lanes@[q]@) =~= seq![q as usize],
            decreases n - j,
        {
            let mut lane: Vec<usize> = Vec::new();
            lane.push(j);
            proof {
                assert(lane@ =~= seq![j]);
            }
            lanes.push(lane);
            j = j + 1;
        }
        let p = Self::assemble(lanes, n);
        proof {
            assert forall|i: usize, j2: int| #[trigger]
                p.sp_contains(i as int, j2) == (0 <= j2 < n && i == j2) by {
                if 0 <= j2 < n {
                    assert(lanes@[j2]@ == seq![j2 as usize]);
                    if lanes@[j2]@.contains(i) {
                        let w = choose|w: int|
                            0 <= w < lanes@[j2]@.len() && lanes@[j2]@[w] == i;
                    }
                    if i == j2 {
                        assert(lanes@[j2]@[0] == i);
                    }
                }
            }
        }
        p
    }
}

} // verus!
