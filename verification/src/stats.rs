//! Per-column statistics: the arithmetic mean and the unbiased sample
//! variance of every column of a dataset.
//!
//! The estimator is the classical two-pass algorithm: one pass accumulates
//! the column sums and divides by the row count N, a second pass accumulates
//! the squared deviations from the mean and divides by N - 1. The contracts
//! pin each reported statistic to the exact left-to-right fold of IEEE-754
//! operations the passes perform, through the names of `float_bits`.

use vstd::prelude::*;

use crate::NoiseError;
use crate::float_bits::{ZERO_BITS, add_bits, count_bits, div_bits, f64_from_count, mul_bits,
    sub_bits};
use crate::vec_ops::{vec_add, vec_scalar_div, vec_square_ew, vec_sub};

verus! {

/// The rows of a dataset as a sequence of sequences of binary64 bit
/// patterns.
pub open spec fn rows_of(data: Seq<Vec<u64>>) -> Seq<Seq<u64>> {
    Seq::new(data.len(), |i: int| data[i]@)
}

/// The column count of a dataset: the length of its first row.
pub open spec fn col_count(rows: Seq<Seq<u64>>) -> int {
    if rows.len() == 0 {
        0
    } else {
        rows[0].len() as int
    }
}

/// Whether every row has the column count of the dataset.
pub open spec fn shape_ok(rows: Seq<Seq<u64>>) -> bool {
    forall|i: int| 0 <= i < rows.len() ==> #[trigger] rows[i].len() == col_count(rows)
}

/// The left-to-right IEEE-754 sum of column `j`, started from positive
/// zero: the value of the mean accumulator after all rows were added.
pub open spec fn col_sum(rows: Seq<Seq<u64>>, j: int) -> u64
    decreases rows.len(),
{
    if rows.len() == 0 {
        ZERO_BITS
    } else {
        add_bits(col_sum(rows.drop_last(), j), rows.last()[j])
    }
}

/// The arithmetic mean of column `j`: its sum divided by the row count.
pub open spec fn col_mean(rows: Seq<Seq<u64>>, j: int) -> u64 {
    div_bits(col_sum(rows, j), count_bits(rows.len() as int))
}

/// The squared deviation of the value `x` from the mean `m`.
pub open spec fn sq_dev_bits(x: u64, m: u64) -> u64 {
    mul_bits(sub_bits(x, m), sub_bits(x, m))
}

/// The left-to-right IEEE-754 sum of the squared deviations of column `j`
/// from `m`, started from positive zero.
pub open spec fn col_sq_dev_sum(rows: Seq<Seq<u64>>, m: u64, j: int) -> u64
    decreases rows.len(),
{
    if rows.len() == 0 {
        ZERO_BITS
    } else {
        add_bits(col_sq_dev_sum(rows.drop_last(), m, j), sq_dev_bits(rows.last()[j], m))
    }
}

/// The unbiased sample variance of column `j`: the sum of squared
/// deviations from the column mean, divided by the row count less one.
pub open spec fn col_variance(rows: Seq<Seq<u64>>, j: int) -> u64 {
    div_bits(col_sq_dev_sum(rows, col_mean(rows, j), j), count_bits(rows.len() - 1))
}

/// A vector of `cols` positive zeros, the starting accumulator of both
/// passes.
fn zero_vec(cols: usize) -> (r: Vec<u64>)
    ensures
        r@.len() == cols,
        forall|j: int| 0 <= j < cols ==> r@[j] == ZERO_BITS,
{
    let mut r: Vec<u64> = Vec::new();
    let mut j: usize = 0;
    while j < cols
        invariant
            j <= cols,
            r@.len() == j,
            forall|k: int| 0 <= k < j ==> r@[k] == ZERO_BITS,
        decreases cols - j,
    {
        r.push(0u64);
        j = j + 1;
    }
    r
}

/// A fresh vector with the elements of `x`.
fn copy_row(x: &Vec<u64>) -> (r: Vec<u64>)
    ensures
        r@ == x@,
{
    let mut r: Vec<u64> = Vec::new();
    let mut j: usize = 0;
    while j < x.len()
        invariant
            j <= x@.len(),
            r@ == x@.take(j as int),
        decreases x@.len() - j,
    {
        r.push(x[j]);
        proof {
            assert(x@.take(j + 1 as int) =~= x@.take(j as int).push(x@[j as int]));
        }
        j = j + 1;
    }
    proof {
        assert(x@.take(x@.len() as int) =~= x@);
    }
    r
}

/// Computes the per-column mean and unbiased sample variance of a dataset.
///
/// Succeeds exactly on datasets of at least two rows of equal length, and
/// then reports, for every column, the mean and variance as the exact
/// IEEE-754 folds defined above. A dataset with zero rows, one row, or rows
/// of differing lengths is rejected eagerly, before any arithmetic.
pub fn mean_variance(data: &Vec<Vec<u64>>) -> (res: Result<(Vec<u64>, Vec<u64>), NoiseError>)
    ensures
        match res {
            Ok(mv) => {
                let rows = rows_of(data@);
                &&& rows.len() >= 2
                &&& shape_ok(rows)
                &&& mv.0@.len() == col_count(rows)
                &&& mv.1@.len() == col_count(rows)
                &&& forall|j: int| 0 <= j < col_count(rows) ==> mv.0@[j] == col_mean(rows, j)
                &&& forall|j: int| 0 <= j < col_count(rows) ==> mv.1@[j] == col_variance(rows, j)
            },
            Err(e) => match e {
                NoiseError::EmptyDataset => data@.len() == 0,
                NoiseError::InsufficientRows => data@.len() == 1,
                NoiseError::ShapeMismatch => data@.len() >= 2 && !shape_ok(rows_of(data@)),
                NoiseError::InvalidVariance => false,
            },
        },
{
    let ghost rows = rows_of(data@);
    let n = data.len();
    if n == 0 {
        return Err(NoiseError::EmptyDataset);
    }
    if n == 1 {
        return Err(NoiseError::InsufficientRows);
    }
    let cols = data[0].len();
    let mut i: usize = 1;
    while i < n
        invariant
            rows == rows_of(data@),
            n == rows.len(),
            1 <= i <= n,
            cols == col_count(rows),
            forall|k: int| 0 <= k < i ==> #[trigger] rows[k].len() == cols,
        decreases n - i,
    {
        if data[i].len() != cols {
            proof {
                assert(rows[i as int].len() != col_count(rows));
            }
            return Err(NoiseError::ShapeMismatch);
        }
        i = i + 1;
    }
    assert(shape_ok(rows));

    let mut acc = zero_vec(cols);
    let mut i: usize = 0;
    while i < n
        invariant
            rows == rows_of(data@),
            n == rows.len(),
            i <= n,
            cols == col_count(rows),
            shape_ok(rows),
            acc@.len() == cols,
            forall|j: int| 0 <= j < cols ==> acc@[j] == col_sum(rows.take(i as int), j),
        decreases n - i,
    {
        proof {
            assert(rows[i as int].len() == col_count(rows));
        }
        vec_add(&mut acc, &data[i]);
        proof {
            assert(rows.take(i + 1 as int).drop_last() =~= rows.take(i as int));
            assert(rows.take(i + 1 as int).last() == rows[i as int]);
        }
        i = i + 1;
    }
    proof {
        assert(rows.take(n as int) =~= rows);
    }
    let nb = f64_from_count(n);
    vec_scalar_div(&mut acc, nb);
    let mean = acc;
    assert(forall|j: int| 0 <= j < cols ==> mean@[j] == col_mean(rows, j));

    let mut var = zero_vec(cols);
    let mut i: usize = 0;
    while i < n
        invariant
            rows == rows_of(data@),
            n == rows.len(),
            i <= n,
            cols == col_count(rows),
            shape_ok(rows),
            mean@.len() == cols,
            forall|j: int| 0 <= j < cols ==> mean@[j] == col_mean(rows, j),
            var@.len() == cols,
            forall|j: int| 0 <= j < cols ==>
                var@[j] == col_sq_dev_sum(rows.take(i as int), col_mean(rows, j), j),
        decreases n - i,
    {
        proof {
            assert(rows[i as int].len() == col_count(rows));
        }
        let mut tmp = copy_row(&data[i]);
        vec_sub(&mut tmp, &mean);
        vec_square_ew(&mut tmp);
        vec_add(&mut var, &tmp);
        proof {
            assert(rows.take(i + 1 as int).drop_last() =~= rows.take(i as int));
            assert(rows.take(i + 1 as int).last() == rows[i as int]);
        }
        i = i + 1;
    }
    proof {
        assert(rows.take(n as int) =~= rows);
    }
    let nm1b = f64_from_count(n - 1);
    vec_scalar_div(&mut var, nm1b);

    Ok((mean, var))
}

} // verus!
