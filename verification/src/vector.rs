//! Fixed-length vectors of binary64 scalars and their operations.

use vstd::prelude::*;

use crate::error::{Dims, MathError};
use crate::scalar::{add_bits, fp_add, fp_mul, fp_sqrt, fp_sub, mul_bits, sqrt_bits, sub_bits};

verus! {

/// A fixed-length ordered sequence of binary64 scalars, each carried as its
/// bit pattern.  The length is fixed at construction; every operation that
/// produces a vector returns a fresh one and leaves its operands untouched.
#[derive(Clone, Debug, PartialEq, Eq)]
pub struct VecN {
    data: Vec<u64>,
}

/// The sum, in index order, of the elementwise products of the first `n`
/// elements of `a` and `b`, folded with binary64 addition starting from
/// `+0.0` (bit pattern 0) — exactly the order a standard left-to-right
/// summation computes it in.
pub open spec fn dot_prefix(a: Seq<u64>, b: Seq<u64>, n: int) -> u64
    decreases n,
{
    if n <= 0 {
        0u64
    } else {
        fp_add(dot_prefix(a, b, n - 1), fp_mul(a[n - 1], b[n - 1]))
    }
}

/// The dot product of two equal-length vectors of binary64 scalars.
pub open spec fn spec_dot(a: Seq<u64>, b: Seq<u64>) -> u64 {
    dot_prefix(a, b, a.len() as int)
}

impl View for VecN {
    type V = Seq<u64>;

    closed spec fn view(&self) -> Seq<u64> {
        self.data@
    }
}

impl VecN {
    /// Wraps an ordered sequence of scalars as a vector of that length.
    pub fn new(data: Vec<u64>) -> (v: VecN)
        ensures
            v@ == data@,
    {
        VecN { data }
    }

    /// A vector of length `n` with every element equal to `value`; a zero
    /// length yields the empty vector.
    pub fn filled(n: usize, value: u64) -> (v: VecN)
        ensures
            v@.len() == n,
            forall|i: int| 0 <= i < n ==> v@[i] == value,
    {
        let mut data: Vec<u64> = Vec::new();
        let mut k: usize = 0;
        while k < n
            invariant
                k <= n,
                data@.len() == k,
                forall|i: int| 0 <= i < k ==> data@[i] == value,
            decreases n - k,
        {
            data.push(value);
            k = k + 1;
        }
        VecN { data }
    }

    /// The vector's length.
    pub fn dim(&self) -> (n: usize)
        ensures
            n == self@.len(),
    {
        self.data.len()
    }

    /// The dot product: the sum of elementwise products in index order,
    /// under standard (non-compensated) binary64 summation.  Fails with
    /// `DimensionMismatch` exactly when the lengths differ.
    pub fn dot(&self, other: &VecN) -> (r: Result<u64, MathError>)
        ensures
            self@.len() == other@.len() ==> r == Ok::<u64, MathError>(spec_dot(self@, other@)),
            self@.len() != other@.len() ==> r == Err::<u64, MathError>(
                MathError::DimensionMismatch(
                    Dims::Vector(self@.len() as usize),
                    Dims::Vector(other@.len() as usize),
                ),
            ),
    {
        let n = self.data.len();
        if n != other.data.len() {
            return Err(MathError::DimensionMismatch(
                Dims::Vector(n),
                Dims::Vector(other.data.len()),
            ));
        }
        let mut acc: u64 = 0;
        let mut k: usize = 0;
        while k < n
            invariant
                k <= n,
                n == self@.len(),
                n == other@.len(),
                acc == dot_prefix(self@, other@, k as int),
            decreases n - k,
        {
            acc = add_bits(acc, mul_bits(self.data[k], other.data[k]));
            k = k + 1;
        }
        Ok(acc)
    }

    /// The Euclidean norm: the binary64 square root of `dot(self, self)`.
    pub fn norm(&self) -> (r: u64)
        ensures
            r == fp_sqrt(spec_dot(self@, self@)),
    {
        let d = self.dot(self).unwrap();
        sqrt_bits(d)
    }

    /// Elementwise sum.  Fails with `DimensionMismatch` exactly when the
    /// lengths differ; neither operand is changed.
    pub fn add(&self, other: &VecN) -> (r: Result<VecN, MathError>)
        ensures
            self@.len() == other@.len() ==> {
                &&& r is Ok
                &&& r->Ok_0@.len() == self@.len()
                &&& forall|i: int|
                    0 <= i < self@.len() ==> r->Ok_0@[i] == fp_add(self@[i], other@[i])
            },
            self@.len() != other@.len() ==> r == Err::<VecN, MathError>(
                MathError::DimensionMismatch(
                    Dims::Vector(self@.len() as usize),
                    Dims::Vector(other@.len() as usize),
                ),
            ),
    {
        let n = self.data.len();
        if n != other.data.len() {
            return Err(MathError::DimensionMismatch(
                Dims::Vector(n),
                Dims::Vector(other.data.len()),
            ));
        }
        let mut data: Vec<u64> = Vec::new();
        let mut k: usize = 0;
        while k < n
            invariant
                k <= n,
                n == self@.len(),
                n == other@.len(),
                data@.len() == k,
                forall|i: int| 0 <= i < k ==> data@[i] == fp_add(self@[i], other@[i]),
            decreases n - k,
        {
            data.push(add_bits(self.data[k], other.data[k]));
            k = k + 1;
        }
        Ok(VecN { data })
    }

    /// Elementwise difference.  Fails with `DimensionMismatch` exactly when
    /// the lengths differ; neither operand is changed.
    pub fn sub(&self, other: &VecN) -> (r: Result<VecN, MathError>)
        ensures
            self@.len() == other@.len() ==> {
                &&& r is Ok
                &&& r->Ok_0@.len() == self@.len()
                &&& forall|i: int|
                    0 <= i < self@.len() ==> r->Ok_0@[i] == fp_sub(self@[i], other@[i])
            },
            self@.len() != other@.len() ==> r == Err::<VecN, MathError>(
                MathError::DimensionMismatch(
                    Dims::Vector(self@.len() as usize),
                    Dims::Vector(other@.len() as usize),
                ),
            ),
    {
        let n = self.data.len();
        if n != other.data.len() {
            return Err(MathError::DimensionMismatch(
                Dims::Vector(n),
                Dims::Vector(other.data.len()),
            ));
        }
        let mut data: Vec<u64> = Vec::new();
        let mut k: usize = 0;
        while k < n
            invariant
                k <= n,
                n == self@.len(),
                n == other@.len(),
                data@.len() == k,
                forall|i: int| 0 <= i < k ==> data@[i] == fp_sub(self@[i], other@[i]),
            decreases n - k,
        {
            data.push(sub_bits(self.data[k], other.data[k]));
            k = k + 1;
        }
        Ok(VecN { data })
    }

    /// A fresh vector with every element multiplied by the scalar `s`;
    /// always succeeds, with no dimension check.
    pub fn scale(&self, s: u64) -> (r: VecN)
        ensures
            r@.len() == self@.len(),
            forall|i: int| 0 <= i < self@.len() ==> r@[i] == fp_mul(self@[i], s),
    {
        let n = self.data.len();
        let mut data: Vec<u64> = Vec::new();
        let mut k: usize = 0;
        while k < n
            invariant
                k <= n,
                n == self@.len(),
                data@.len() == k,
                forall|i: int| 0 <= i < k ==> data@[i] == fp_mul(self@[i], s),
            decreases n - k,
        {
            data.push(mul_bits(self.data[k], s));
            k = k + 1;
        }
        VecN { data }
    }
}

} // verus!
