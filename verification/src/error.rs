use vstd::prelude::*;

verus! {

/// The shape of an operand, for diagnostics: a vector is described by its
/// length, a matrix by its row and column counts.
#[derive(Clone, Copy, Debug, PartialEq, Eq, Structural)]
pub enum Dims {
    Vector(usize),
    Matrix(usize, usize),
}

/// Every way an operation of this library can fail.
///
/// Each fallible operation returns one of these instead of panicking, so a
/// caller can branch on the kind of failure.
#[derive(Clone, Copy, Debug, PartialEq, Eq, Structural)]
pub enum MathError {
    /// Two operands of an operation that needs compatible shapes (dot, add,
    /// sub, matmul) did not match; carries both offending shapes.
    DimensionMismatch(Dims, Dims),
    /// A matrix was constructed from a flat buffer whose length does not
    /// equal `rows * cols`; carries the length, the rows and the cols.
    ShapeMismatch(usize, usize, usize),
    /// `get` or `set` was called outside `[0, rows) x [0, cols)`; carries
    /// the requested row and column and the matrix's row and column counts.
    IndexOutOfBounds(usize, usize, usize, usize),
}

} // verus!
