//! Dense numeric vector and matrix primitives over IEEE-754 binary64 scalars.
//!
//! Scalars are carried as their 64-bit patterns (`u64`), since the verifier
//! does not reason about floating-point values; the primitive arithmetic on
//! those patterns is done by a software implementation of IEEE-754 behind a
//! few trusted wrappers, and everything built on top of it is verified.

pub mod error;
pub mod matrix;
pub mod scalar;
pub mod vector;
