//! Calibrated Gaussian noise injection for tabular numeric data.
//!
//! A dataset is an ordered sequence of rows, each row a fixed-length ordered
//! sequence of IEEE-754 binary64 values carried as their bit patterns
//! (`u64`). The library estimates the per-column mean and unbiased sample
//! variance, scales the variance by a caller-supplied noise-to-signal power
//! ratio, and adds one independent zero-mean Gaussian draw per column to
//! every row.
//!
//! Verus cannot reason about floating-point arithmetic, so every arithmetic
//! operation on values goes through `float_bits`, which names the exact
//! IEEE-754 result of each operation and computes it through the
//! `simple-soft-float` crate. All contracts here are stated over those names,
//! so they pin down the shape of every result and the exact sequence of
//! operations that produced each value.

use vstd::prelude::*;

pub mod float_bits;
pub mod noise;
pub mod stats;
pub mod vec_ops;

pub use noise::add_noise;

verus! {

/// Why a dataset was rejected. All four conditions are detected eagerly,
/// before any row is modified, and surfaced to the caller; none of them is
/// recoverable within the library.
#[derive(Clone, Copy, Debug, PartialEq, Eq, Structural)]
pub enum NoiseError {
    /// Zero rows were supplied; statistics are undefined.
    EmptyDataset,
    /// Exactly one row was supplied; the sample variance divides by N - 1.
    InsufficientRows,
    /// Two rows of the same dataset have different lengths.
    ShapeMismatch,
    /// A scaled variance is negative, so the Gaussian standard deviation
    /// is undefined. Raw variance estimates are never negative, so this
    /// means the caller passed a negative ratio.
    InvalidVariance,
}

} // verus!
