//! Elementwise arithmetic over fixed-length vectors of binary64 bit
//! patterns. Every operation works in place on the caller's vector and
//! requires equal-length operands; each contract pins every element of the
//! result to the exact IEEE-754 operation, in operand order, through the
//! names of `float_bits`.

use vstd::prelude::*;

use crate::float_bits::{add_bits, div_bits, f64_add, f64_div, f64_mul, f64_sub, mul_bits,
    sub_bits};

verus! {

/// Elementwise in-place sum: `x[j]` becomes `x[j] + y[j]`.
pub fn vec_add(x: &mut Vec<u64>, y: &Vec<u64>)
    requires
        old(x)@.len() == y@.len(),
    ensures
        final(x)@.len() == old(x)@.len(),
        forall|j: int| 0 <= j < old(x)@.len() ==> final(x)@[j] == add_bits(old(x)@[j], y@[j]),
{
    let n = x.len();
    let mut j: usize = 0;
    while j < n
        invariant
            n == old(x)@.len() == y@.len(),
            j <= n,
            x@.len() == n,
            forall|k: int| 0 <= k < j ==> x@[k] == add_bits(old(x)@[k], y@[k]),
            forall|k: int| j <= k < n ==> x@[k] == old(x)@[k],
        decreases n - j,
    {
        x[j] = f64_add(x[j], y[j]);
        j = j + 1;
    }
}

/// Elementwise in-place difference: `x[j]` becomes `x[j] - y[j]`.
pub fn vec_sub(x: &mut Vec<u64>, y: &Vec<u64>)
    requires
        old(x)@.len() == y@.len(),
    ensures
        final(x)@.len() == old(x)@.len(),
        forall|j: int| 0 <= j < old(x)@.len() ==> final(x)@[j] == sub_bits(old(x)@[j], y@[j]),
{
    let n = x.len();
    let mut j: usize = 0;
    while j < n
        invariant
            n == old(x)@.len() == y@.len(),
            j <= n,
            x@.len() == n,
            forall|k: int| 0 <= k < j ==> x@[k] == sub_bits(old(x)@[k], y@[k]),
            forall|k: int| j <= k < n ==> x@[k] == old(x)@[k],
        decreases n - j,
    {
        x[j] = f64_sub(x[j], y[j]);
        j = j + 1;
    }
}

/// Elementwise in-place square: `x[j]` becomes `x[j] * x[j]`.
pub fn vec_square_ew(x: &mut Vec<u64>)
    ensures
        final(x)@.len() == old(x)@.len(),
        forall|j: int| 0 <= j < old(x)@.len() ==> final(x)@[j] == mul_bits(old(x)@[j], old(x)@[j]),
{
    let n = x.len();
    let mut j: usize = 0;
    while j < n
        invariant
            n == old(x)@.len(),
            j <= n,
            x@.len() == n,
            forall|k: int| 0 <= k < j ==> x@[k] == mul_bits(old(x)@[k], old(x)@[k]),
            forall|k: int| j <= k < n ==> x@[k] == old(x)@[k],
        decreases n - j,
    {
        x[j] = f64_mul(x[j], x[j]);
        j = j + 1;
    }
}

/// Elementwise in-place scaling: `x[j]` becomes `x[j] * k`.
pub fn vec_scalar_mul(x: &mut Vec<u64>, k: u64)
    ensures
        final(x)@.len() == old(x)@.len(),
        forall|j: int| 0 <= j < old(x)@.len() ==> final(x)@[j] == mul_bits(old(x)@[j], k),
{
    let n = x.len();
    let mut j: usize = 0;
    while j < n
        invariant
            n == old(x)@.len(),
            j <= n,
            x@.len() == n,
            forall|m: int| 0 <= m < j ==> x@[m] == mul_bits(old(x)@[m], k),
            forall|m: int| j <= m < n ==> x@[m] == old(x)@[m],
        decreases n - j,
    {
        x[j] = f64_mul(x[j], k);
        j = j + 1;
    }
}

/// Elementwise in-place division: `x[j]` becomes `x[j] / k`. A zero divisor
/// is not guarded here: the quotient is then an infinity or NaN, exactly as
/// IEEE-754 defines it, and callers must keep zero divisors out themselves.
pub fn vec_scalar_div(x: &mut Vec<u64>, k: u64)
    ensures
        final(x)@.len() == old(x)@.len(),
        forall|j: int| 0 <= j < old(x)@.len() ==> final(x)@[j] == div_bits(old(x)@[j], k),
{
    let n = x.len();
    let mut j: usize = 0;
    while j < n
        invariant
            n == old(x)@.len(),
            j <= n,
            x@.len() == n,
            forall|m: int| 0 <= m < j ==> x@[m] == div_bits(old(x)@[m], k),
            forall|m: int| j <= m < n ==> x@[m] == old(x)@[m],
        decreases n - j,
    {
        x[j] = f64_div(x[j], k);
        j = j + 1;
    }
}

} // verus!
