//! Fixed-shape dense matrices of binary64 scalars and their operations.

use vstd::prelude::*;

use crate::error::{Dims, MathError};
use crate::scalar::{add_bits, fp_add, fp_mul, mul_bits};

verus! {

use vstd::arithmetic::div_mod::{
    lemma_fundamental_div_mod,
    lemma_mod_bound,
    lemma_multiply_divide_lt,
};

/// A dense `rows x cols` matrix of binary64 scalars, carried as bit
/// patterns in a flat row-major buffer: the element in row `r`, column `c`
/// sits at linear offset `r * cols + c`.
#[derive(Clone, Debug, PartialEq, Eq)]
pub struct Matrix {
    data: Vec<u64>,
    rows: usize,
    cols: usize,
}

/// The element of a row-major buffer is in bounds of the flat buffer.
pub(crate) proof fn lemma_row_major_index(r: int, c: int, rows: int, cols: int)
    requires
        0 <= r < rows,
        0 <= c < cols,
    ensures
        0 <= r * cols + c < rows * cols,
{
    assert(0 <= r * cols + c < rows * cols) by (nonlinear_arith)
        requires
            0 <= r < rows,
            0 <= c < cols,
    ;
}

/// Distinct in-bounds positions have distinct row-major offsets.
pub(crate) proof fn lemma_row_major_injective(r1: int, c1: int, r2: int, c2: int, cols: int)
    requires
        0 <= c1 < cols,
        0 <= c2 < cols,
        0 <= r1,
        0 <= r2,
        r1 * cols + c1 == r2 * cols + c2,
    ensures
        r1 == r2 && c1 == c2,
{
    assert(r1 == r2 && c1 == c2) by (nonlinear_arith)
        requires
            0 <= c1 < cols,
            0 <= c2 < cols,
            0 <= r1,
            0 <= r2,
            r1 * cols + c1 == r2 * cols + c2,
    ;
}

/// `t` is the transpose of `m`: the shape is flipped and `t`'s element in
/// row `c`, column `r` is `m`'s element in row `r`, column `c`.
pub open spec fn is_transpose_of(t: Matrix, m: Matrix) -> bool {
    &&& t.wf()
    &&& t.spec_rows() == m.spec_cols()
    &&& t.spec_cols() == m.spec_rows()
    &&& forall|r: int, c: int|
        0 <= r < m.spec_rows() && 0 <= c < m.spec_cols() ==> t.at(c, r) == m.at(r, c)
}

/// The sum, in index order `k = 0, 1, ...`, of the first `n` products
/// `a[i][k] * b[k][j]`, folded with binary64 addition starting from `+0.0`
/// (bit pattern 0) — exactly the order the standard triple loop computes
/// it in.
pub open spec fn mm_sum(a: Matrix, b: Matrix, i: int, j: int, n: int) -> u64
    decreases n,
{
    if n <= 0 {
        0u64
    } else {
        fp_add(mm_sum(a, b, i, j, n - 1), fp_mul(a.at(i, n - 1), b.at(n - 1, j)))
    }
}

/// The element in row `i`, column `j` of the matrix product `a * b`:
/// the sum over `k` of `a[i][k] * b[k][j]`, accumulated in index order.
pub open spec fn mm_entry(a: Matrix, b: Matrix, i: int, j: int) -> u64 {
    mm_sum(a, b, i, j, a.spec_cols())
}

/// Transposing twice gives back the matrix transposed first, exactly: any
/// matrix standing in the transpose relation to a transpose of `m` has
/// `m`'s shape, every one of `m`'s elements, and therefore the very same
/// flat buffer.
pub proof fn lemma_transpose_involutive(m: Matrix, t: Matrix, u: Matrix)
    requires
        m.wf(),
        is_transpose_of(t, m),
        is_transpose_of(u, t),
    ensures
        u.spec_rows() == m.spec_rows(),
        u.spec_cols() == m.spec_cols(),
        forall|r: int, c: int|
            0 <= r < m.spec_rows() && 0 <= c < m.spec_cols() ==> u.at(r, c) == m.at(r, c),
        u.spec_data() == m.spec_data(),
{
    let rows = m.spec_rows();
    let cols = m.spec_cols();
    assert forall|r: int, c: int|
        0 <= r < rows && 0 <= c < cols implies u.at(r, c) == m.at(r, c) by {
        assert(t.at(c, r) == m.at(r, c));
        assert(u.at(r, c) == t.at(c, r));
    }
    assert(u.spec_data().len() == rows * cols);
    assert forall|kk: int|
        0 <= kk < rows * cols implies u.spec_data()[kk] == m.spec_data()[kk] by {
        assert(0 < cols) by (nonlinear_arith)
            requires
                0 <= kk < rows * cols,
                0 <= cols,
        ;
        let r = kk / cols;
        let c = kk % cols;
        lemma_mod_bound(kk, cols);
        lemma_fundamental_div_mod(kk, cols);
        lemma_multiply_divide_lt(kk, cols, rows);
        assert(u.at(r, c) == m.at(r, c));
    }
    assert(u.spec_data() =~= m.spec_data());
}

impl Matrix {
    /// The row count.
    pub closed spec fn spec_rows(&self) -> int {
        self.rows as int
    }

    /// The column count.
    pub closed spec fn spec_cols(&self) -> int {
        self.cols as int
    }

    /// The flat row-major buffer.
    pub closed spec fn spec_data(&self) -> Seq<u64> {
        self.data@
    }

    /// Well-formedness: the flat buffer holds exactly `rows * cols`
    /// scalars.  Constructors establish it and every operation preserves it.
    pub open spec fn wf(&self) -> bool {
        self.spec_data().len() == self.spec_rows() * self.spec_cols()
    }

    /// The element in row `r`, column `c` (row-major layout).
    pub open spec fn at(&self, r: int, c: int) -> u64 {
        self.spec_data()[r * self.spec_cols() + c]
    }

    /// Wraps a flat row-major buffer as a `rows x cols` matrix.  Fails with
    /// `ShapeMismatch` exactly when the buffer length is not `rows * cols`.
    pub fn new(data: Vec<u64>, rows: usize, cols: usize) -> (r: Result<Matrix, MathError>)
        ensures
            data@.len() == rows * cols ==> {
                &&& r is Ok
                &&& r->Ok_0.wf()
                &&& r->Ok_0.spec_rows() == rows
                &&& r->Ok_0.spec_cols() == cols
                &&& r->Ok_0.spec_data() == data@
            },
            data@.len() != rows * cols ==> r == Err::<Matrix, MathError>(
                MathError::ShapeMismatch(data@.len() as usize, rows, cols),
            ),
    {
        let len = data.len();
        let fits = match rows.checked_mul(cols) {
            Some(p) => p == len,
            None => false,
        };
        if fits {
            Ok(Matrix { data, rows, cols })
        } else {
            Err(MathError::ShapeMismatch(len, rows, cols))
        }
    }

    /// A `rows x cols` matrix with every element equal to `value`.
    pub fn filled(rows: usize, cols: usize, value: u64) -> (m: Matrix)
        requires
            rows * cols <= usize::MAX,
        ensures
            m.wf(),
            m.spec_rows() == rows,
            m.spec_cols() == cols,
            forall|r: int, c: int|
                0 <= r < rows && 0 <= c < cols ==> m.at(r, c) == value,
    {
        let n = rows * cols;
        let mut data: Vec<u64> = Vec::new();
        let mut k: usize = 0;
        while k < n
            invariant
                k <= n,
                data@.len() == k,
                forall|i: int| 0 <= i < k ==> data@[i] == value,
            decreases n - k,
        {
            data.push(value);
            k = k + 1;
        }
        let m = Matrix { data, rows, cols };
        proof {
            assert forall|r: int, c: int|
                0 <= r < rows && 0 <= c < cols implies m.at(r, c) == value by {
                lemma_row_major_index(r, c, rows as int, cols as int);
            }
        }
        m
    }

    /// The shape, as `(rows, cols)`.
    pub fn dim(&self) -> (d: (usize, usize))
        ensures
            d.0 == self.spec_rows(),
            d.1 == self.spec_cols(),
    {
        (self.rows, self.cols)
    }

    /// The element in row `r`, column `c`.  Fails with `IndexOutOfBounds`
    /// exactly when `r` or `c` is outside the shape.
    pub fn get(&self, r: usize, c: usize) -> (res: Result<u64, MathError>)
        requires
            self.wf(),
        ensures
            r < self.spec_rows() && c < self.spec_cols() ==> res == Ok::<u64, MathError>(
                self.at(r as int, c as int),
            ),
            !(r < self.spec_rows() && c < self.spec_cols()) ==> res == Err::<u64, MathError>(
                MathError::IndexOutOfBounds(
                    r,
                    c,
                    self.spec_rows() as usize,
                    self.spec_cols() as usize,
                ),
            ),
    {
        if r < self.rows && c < self.cols {
            let len = self.data.len();
            proof {
                lemma_row_major_index(r as int, c as int, self.spec_rows(), self.spec_cols());
                assert(r * self.spec_cols() + c < len);
            }
            Ok(self.data[r * self.cols + c])
        } else {
            Err(MathError::IndexOutOfBounds(r, c, self.rows, self.cols))
        }
    }

    /// Writes `v` into row `r`, column `c`, in place — the one mutator.
    /// Fails with `IndexOutOfBounds`, writing nothing, exactly when `r` or
    /// `c` is outside the shape; the shape never changes.
    pub fn set(&mut self, r: usize, c: usize, v: u64) -> (res: Result<(), MathError>)
        requires
            old(self).wf(),
        ensures
            final(self).wf(),
            final(self).spec_rows() == old(self).spec_rows(),
            final(self).spec_cols() == old(self).spec_cols(),
            r < old(self).spec_rows() && c < old(self).spec_cols() ==> {
                &&& res == Ok::<(), MathError>(())
                &&& final(self).at(r as int, c as int) == v
                &&& forall|r2: int, c2: int|
                    0 <= r2 < old(self).spec_rows() && 0 <= c2 < old(self).spec_cols()
                        && !(r2 == r && c2 == c)
                        ==> final(self).at(r2, c2) == old(self).at(r2, c2)
            },
            !(r < old(self).spec_rows() && c < old(self).spec_cols()) ==> {
                &&& res == Err::<(), MathError>(
                    MathError::IndexOutOfBounds(
                        r,
                        c,
                        old(self).spec_rows() as usize,
                        old(self).spec_cols() as usize,
                    ),
                )
                &&& *final(self) == *old(self)
            },
    {
        if r < self.rows && c < self.cols {
            let len = self.data.len();
            proof {
                lemma_row_major_index(r as int, c as int, self.spec_rows(), self.spec_cols());
                assert(r * self.spec_cols() + c < len);
            }
            let idx = r * self.cols + c;
            self.data.set(idx, v);
            proof {
                assert forall|r2: int, c2: int|
                    0 <= r2 < self.spec_rows() && 0 <= c2 < self.spec_cols()
                        && !(r2 == r && c2 == c)
                        implies self.at(r2, c2) == old(self).at(r2, c2) by {
                    lemma_row_major_index(r2, c2, self.spec_rows(), self.spec_cols());
                    if r2 * self.spec_cols() + c2 == r * self.spec_cols() + c {
                        lemma_row_major_injective(r2, c2, r as int, c as int, self.spec_cols());
                    }
                }
            }
            Ok(())
        } else {
            Err(MathError::IndexOutOfBounds(r, c, self.rows, self.cols))
        }
    }

    /// A fresh `cols x rows` matrix whose element in row `c`, column `r` is
    /// this matrix's element in row `r`, column `c`; the source is not
    /// changed.
    pub fn transpose(&self) -> (t: Matrix)
        requires
            self.wf(),
        ensures
            is_transpose_of(t, *self),
    {
        let rows = self.rows;
        let cols = self.cols;
        let len = self.data.len();
        let mut data: Vec<u64> = Vec::new();
        let mut nr: usize = 0;
        while nr < cols
            invariant
                nr <= cols,
                rows == self.spec_rows(),
                cols == self.spec_cols(),
                self.wf(),
                len == self.spec_data().len(),
                data@.len() == nr * rows,
                forall|i: int, j: int|
                    0 <= i < nr && 0 <= j < rows ==> data@[i * rows + j] == self.at(j, i),
            decreases cols - nr,
        {
            let mut nc: usize = 0;
            while nc < rows
                invariant
                    nc <= rows,
                    nr < cols,
                    rows == self.spec_rows(),
                    cols == self.spec_cols(),
                    self.wf(),
                    len == self.spec_data().len(),
                    data@.len() == nr * rows + nc,
                    forall|i: int, j: int|
                        0 <= i < nr && 0 <= j < rows ==> data@[i * rows + j] == self.at(j, i),
                    forall|j: int| 0 <= j < nc ==> data@[nr * rows + j] == self.at(j, nr as int),
                decreases rows - nc,
            {
                proof {
                    lemma_row_major_index(nc as int, nr as int, rows as int, cols as int);
                    assert(nc * cols + nr < len);
                }
                data.push(self.data[nc * cols + nr]);
                nc = nc + 1;
                proof {
                    assert forall|i: int, j: int|
                        0 <= i < nr && 0 <= j < rows implies data@[i * rows + j] == self.at(
                        j,
                        i,
                    ) by {
                        lemma_row_major_index(i, j, nr as int, rows as int);
                    }
                }
            }
            proof {
                assert((nr + 1) * rows == nr * rows + rows) by (nonlinear_arith);
            }
            nr = nr + 1;
            proof {
                assert forall|i: int, j: int|
                    0 <= i < nr && 0 <= j < rows implies data@[i * rows + j] == self.at(j, i) by {
                    lemma_row_major_index(i, j, nr as int, rows as int);
                }
            }
        }
        let t = Matrix { data, rows: cols, cols: rows };
        proof {
            assert forall|r: int, c: int|
                0 <= r < self.spec_rows() && 0 <= c < self.spec_cols() implies t.at(c, r)
                == self.at(r, c) by {
                lemma_row_major_index(c, r, cols as int, rows as int);
            }
        }
        t
    }

    /// The matrix product.  Fails with `DimensionMismatch`, carrying both
    /// shapes, exactly when this matrix's column count differs from
    /// `other`'s row count; otherwise the result has this matrix's row
    /// count, `other`'s column count, and `mm_entry` at every position.
    /// Neither operand is changed.
    pub fn matmul(&self, other: &Matrix) -> (res: Result<Matrix, MathError>)
        requires
            self.wf(),
            other.wf(),
            self.spec_cols() == other.spec_rows() ==> self.spec_rows() * other.spec_cols()
                <= usize::MAX,
        ensures
            self.spec_cols() == other.spec_rows() ==> {
                &&& res is Ok
                &&& res->Ok_0.wf()
                &&& res->Ok_0.spec_rows() == self.spec_rows()
                &&& res->Ok_0.spec_cols() == other.spec_cols()
                &&& forall|i: int, j: int|
                    0 <= i < self.spec_rows() && 0 <= j < other.spec_cols()
                        ==> res->Ok_0.at(i, j) == mm_entry(*self, *other, i, j)
            },
            self.spec_cols() != other.spec_rows() ==> res == Err::<Matrix, MathError>(
                MathError::DimensionMismatch(
                    Dims::Matrix(self.spec_rows() as usize, self.spec_cols() as usize),
                    Dims::Matrix(other.spec_rows() as usize, other.spec_cols() as usize),
                ),
            ),
    {
        let m = self.rows;
        let n = self.cols;
        let p = other.cols;
        if n != other.rows {
            return Err(MathError::DimensionMismatch(
                Dims::Matrix(m, n),
                Dims::Matrix(other.rows, p),
            ));
        }
        let slen = self.data.len();
        let olen = other.data.len();
        let mut data: Vec<u64> = Vec::new();
        let mut i: usize = 0;
        while i < m
            invariant
                i <= m,
                m == self.spec_rows(),
                n == self.spec_cols(),
                n == other.spec_rows(),
                p == other.spec_cols(),
                self.wf(),
                other.wf(),
                slen == self.spec_data().len(),
                olen == other.spec_data().len(),
                m * p <= usize::MAX,
                data@.len() == i * p,
                forall|i2: int, j2: int|
                    0 <= i2 < i && 0 <= j2 < p ==> data@[i2 * p + j2] == mm_entry(
                        *self,
                        *other,
                        i2,
                        j2,
                    ),
            decreases m - i,
        {
            let mut j: usize = 0;
            while j < p
                invariant
                    j <= p,
                    i < m,
                    m == self.spec_rows(),
                    n == self.spec_cols(),
                    n == other.spec_rows(),
                    p == other.spec_cols(),
                    self.wf(),
                    other.wf(),
                    slen == self.spec_data().len(),
                    olen == other.spec_data().len(),
                    m * p <= usize::MAX,
                    data@.len() == i * p + j,
                    forall|i2: int, j2: int|
                        0 <= i2 < i && 0 <= j2 < p ==> data@[i2 * p + j2] == mm_entry(
                            *self,
                            *other,
                            i2,
                            j2,
                        ),
                    forall|j2: int|
                        0 <= j2 < j ==> data@[i * p + j2] == mm_entry(*self, *other, i as int, j2),
                decreases p - j,
            {
                let mut acc: u64 = 0;
                let mut k: usize = 0;
                while k < n
                    invariant
                        k <= n,
                        i < m,
                        j < p,
                        m == self.spec_rows(),
                        n == self.spec_cols(),
                        n == other.spec_rows(),
                        p == other.spec_cols(),
                        self.wf(),
                        other.wf(),
                        slen == self.spec_data().len(),
                        olen == other.spec_data().len(),
                        acc == mm_sum(*self, *other, i as int, j as int, k as int),
                    decreases n - k,
                {
                    proof {
                        lemma_row_major_index(i as int, k as int, m as int, n as int);
                        assert(i * n + k < slen);
                        lemma_row_major_index(k as int, j as int, n as int, p as int);
                        assert(k * p + j < olen);
                    }
                    acc = add_bits(acc, mul_bits(self.data[i * n + k], other.data[k * p + j]));
                    k = k + 1;
                }
                data.push(acc);
                j = j + 1;
                proof {
                    assert forall|i2: int, j2: int|
                        0 <= i2 < i && 0 <= j2 < p implies data@[i2 * p + j2] == mm_entry(
                        *self,
                        *other,
                        i2,
                        j2,
                    ) by {
                        lemma_row_major_index(i2, j2, i as int, p as int);
                    }
                }
            }
            proof {
                assert((i + 1) * p == i * p + p) by (nonlinear_arith);
            }
            i = i + 1;
            proof {
                assert forall|i2: int, j2: int|
                    0 <= i2 < i && 0 <= j2 < p implies data@[i2 * p + j2] == mm_entry(
                    *self,
                    *other,
                    i2,
                    j2,
                ) by {
                    lemma_row_major_index(i2, j2, i as int, p as int);
                }
            }
        }
        let prod = Matrix { data, rows: m, cols: p };
        proof {
            assert forall|i2: int, j2: int|
                0 <= i2 < m && 0 <= j2 < p implies prod.at(i2, j2) == mm_entry(
                *self,
                *other,
                i2,
                j2,
            ) by {
                lemma_row_major_index(i2, j2, m as int, p as int);
            }
        }
        Ok(prod)
    }
}

} // verus!
