//! Calibrated Gaussian noise: one independent zero-mean distribution per
//! column, and the orchestrator that injects one fresh draw per column into
//! every row of a dataset.
//!
//! A draw from N(0, v) is taken as `sqrt(v) * z` with `z` a draw from the
//! standard normal distribution N(0, 1) — exactly the decomposition rand's
//! own general normal distribution uses. The standard-normal draw is the one
//! value nothing can be promised about: every contract here states what
//! holds whatever bit pattern the generator produced, by quantifying over
//! the drawn values.

use vstd::prelude::*;

use crate::NoiseError;
use crate::float_bits::{add_bits, f64_mul, f64_sqrt, is_negative, is_negative_bits, mul_bits,
    sqrt_bits};
use crate::stats::{col_count, col_variance, mean_variance, rows_of, shape_ok};
use crate::vec_ops::{vec_add, vec_scalar_mul};

verus! {

/// The standard random number generator of the rand crate.
#[verifier::external_type_specification]
#[verifier::external_body]
pub struct ExStdRng(rand::rngs::StdRng);

/// Relies on rand::FromEntropy::from_entropy: a fresh generator seeded from
/// the operating system. Nothing is promised of it.
#[verifier::external_body]
fn entropy_rng() -> rand::rngs::StdRng {
    <rand::rngs::StdRng as rand::FromEntropy>::from_entropy()
}

/// Relies on rand::SeedableRng::seed_from_u64: a generator in the state
/// that the given seed determines. Nothing is promised of it here; that two
/// generators with one seed draw one sequence is rand's own contract.
#[verifier::external_body]
fn seeded_rng(seed: u64) -> rand::rngs::StdRng {
    <rand::rngs::StdRng as rand::SeedableRng>::seed_from_u64(seed)
}

/// Relies on rand's StandardNormal distribution: one independent draw from
/// N(0, 1), returned as the bit pattern of the sampled double. Nothing is
/// promised of the value: every draw may differ.
#[verifier::external_body]
fn draw_standard_normal(rng: &mut rand::rngs::StdRng) -> u64
{
    let z = rand::Rng::sample(rng, rand::distributions::StandardNormal);
    z.to_bits()
}

/// The variance of column `j` scaled by the noise-to-signal power ratio:
/// the variance parameter of the Gaussian noise injected into column `j`.
pub open spec fn scaled_variance(rows: Seq<Seq<u64>>, ratio: u64, j: int) -> u64 {
    mul_bits(col_variance(rows, j), ratio)
}

/// The standard deviation of the noise injected into column `j`.
pub open spec fn noise_std(rows: Seq<Seq<u64>>, ratio: u64, j: int) -> u64 {
    sqrt_bits(scaled_variance(rows, ratio, j))
}

/// Whether `out` is `rows` with one independent draw added to every value:
/// there are standard-normal draws `zs`, one per value, such that every
/// output value is the corresponding input value plus the column's noise
/// standard deviation times the draw. Row count, row order and row length
/// are preserved; only the values change.
pub open spec fn noisy(rows: Seq<Seq<u64>>, ratio: u64, zs: Seq<Seq<u64>>, out: Seq<Seq<u64>>) -> bool {
    &&& zs.len() == rows.len()
    &&& out.len() == rows.len()
    &&& forall|i: int| 0 <= i < rows.len() ==> #[trigger] zs[i].len() == col_count(rows)
    &&& forall|i: int| 0 <= i < rows.len() ==> #[trigger] out[i].len() == col_count(rows)
    &&& forall|i: int, j: int| 0 <= i < rows.len() && 0 <= j < col_count(rows) ==>
            #[trigger] out[i][j] == add_bits(
                rows[i][j],
                mul_bits(noise_std(rows, ratio, j), zs[i][j]),
            )
}

/// Noise injection preserves the dataset's shape: whatever values were
/// drawn, an output that is `rows` with noise added has exactly the row
/// count and the column count of `rows`.
pub proof fn lemma_noisy_preserves_shape(
    rows: Seq<Seq<u64>>,
    ratio: u64,
    zs: Seq<Seq<u64>>,
    out: Seq<Seq<u64>>,
)
    requires
        noisy(rows, ratio, zs, out),
    ensures
        out.len() == rows.len(),
        forall|i: int| 0 <= i < out.len() ==> #[trigger] out[i].len() == col_count(rows),
        shape_ok(rows) ==> shape_ok(out),
{
    if shape_ok(rows) {
        if out.len() > 0 {
            assert(out[0].len() == col_count(rows));
            assert(forall|i: int| 0 <= i < out.len() ==> #[trigger] out[i].len() == col_count(
                out,
            ));
        }
    }
}

/// One independent zero-mean Gaussian distribution per column, each held as
/// the bit pattern of its standard deviation, plus the private generator
/// the draws come from. Constructed once per injection and discarded after
/// the dataset is exhausted.
pub struct NoiseSource {
    std_bits: Vec<u64>,
    rng: rand::rngs::StdRng,
}

/// Whether the standard deviations `stds` calibrate the distributions for
/// the target variances `scaled_var`: no target is negative, and each
/// standard deviation is the square root of its target.
pub open spec fn calibrated(scaled_var: Seq<u64>, stds: Seq<u64>) -> bool {
    &&& forall|j: int| 0 <= j < scaled_var.len() ==> !is_negative_bits(#[trigger] scaled_var[j])
    &&& stds.len() == scaled_var.len()
    &&& forall|j: int| 0 <= j < scaled_var.len() ==> #[trigger] stds[j] == sqrt_bits(scaled_var[j])
}

/// The per-column standard deviations for the target variances, or
/// `InvalidVariance` exactly when some target variance is negative.
fn std_bits_of(scaled_var: &Vec<u64>) -> (res: Result<Vec<u64>, NoiseError>)
    ensures
        match res {
            Ok(stds) => calibrated(scaled_var@, stds@),
            Err(e) => match e {
                NoiseError::InvalidVariance => exists|j: int|
                    0 <= j < scaled_var@.len() && is_negative_bits(#[trigger] scaled_var@[j]),
                _ => false,
            },
        },
{
    let n = scaled_var.len();
    let mut std_bits: Vec<u64> = Vec::new();
    let mut j: usize = 0;
    while j < n
        invariant
            n == scaled_var@.len(),
            j <= n,
            std_bits@.len() == j,
            forall|k: int| 0 <= k < j ==> !is_negative_bits(#[trigger] scaled_var@[k]),
            forall|k: int| 0 <= k < j ==>
                #[trigger] std_bits@[k] == sqrt_bits(scaled_var@[k]),
        decreases n - j,
    {
        let v = scaled_var[j];
        if is_negative(v) {
            return Err(NoiseError::InvalidVariance);
        }
        std_bits.push(f64_sqrt(v));
        j = j + 1;
    }
    Ok(std_bits)
}

impl NoiseSource {
    /// The per-column standard deviations, as bit patterns.
    pub closed spec fn stds(self) -> Seq<u64> {
        self.std_bits@
    }

    /// Builds the per-column distributions from the vector of target
    /// variances: the standard deviation of column `j` is the square root
    /// of `scaled_var[j]`. Fails with `InvalidVariance` exactly when some
    /// target variance is negative, in which case no real standard
    /// deviation exists. The draws come from a fresh generator seeded from
    /// the operating system.
    pub fn new(scaled_var: &Vec<u64>) -> (res: Result<NoiseSource, NoiseError>)
        ensures
            match res {
                Ok(src) => calibrated(scaled_var@, src.stds()),
                Err(e) => match e {
                    NoiseError::InvalidVariance => exists|j: int|
                        0 <= j < scaled_var@.len() && is_negative_bits(#[trigger] scaled_var@[j]),
                    _ => false,
                },
            },
    {
        let std_bits = match std_bits_of(scaled_var) {
            Ok(stds) => stds,
            Err(e) => {
                return Err(e);
            },
        };
        Ok(NoiseSource { std_bits, rng: entropy_rng() })
    }

    /// As `new`, but the draws come from a generator in the state the seed
    /// determines, so that two sources with one seed draw one sequence and
    /// an injection can be reproduced exactly.
    pub fn new_seeded(scaled_var: &Vec<u64>, seed: u64) -> (res: Result<NoiseSource, NoiseError>)
        ensures
            match res {
                Ok(src) => calibrated(scaled_var@, src.stds()),
                Err(e) => match e {
                    NoiseError::InvalidVariance => exists|j: int|
                        0 <= j < scaled_var@.len() && is_negative_bits(#[trigger] scaled_var@[j]),
                    _ => false,
                },
            },
    {
        let std_bits = match std_bits_of(scaled_var) {
            Ok(stds) => stds,
            Err(e) => {
                return Err(e);
            },
        };
        Ok(NoiseSource { std_bits, rng: seeded_rng(seed) })
    }

    /// The per-column standard deviations, for callers that want to see the
    /// calibration.
    pub fn std_devs(&self) -> (r: &Vec<u64>)
        ensures
            r@ == self.stds(),
    {
        &self.std_bits
    }

    /// Draws one noise vector: one fresh independent value per column, in
    /// column order, each the column's standard deviation times a
    /// standard-normal draw.
    pub fn sample(&mut self) -> (noise: Vec<u64>)
        ensures
            final(self).stds() == old(self).stds(),
            noise@.len() == old(self).stds().len(),
            exists|z: Seq<u64>|
                #![trigger z.len()]
                z.len() == noise@.len() && forall|j: int| #![auto] 0 <= j < noise@.len() ==>
                    noise@[j] == mul_bits(old(self).stds()[j], z[j]),
    {
        let ghost stds0 = self.std_bits@;
        let n = self.std_bits.len();
        let mut noise: Vec<u64> = Vec::new();
        let ghost mut zs = Seq::<u64>::empty();
        let mut j: usize = 0;
        while j < n
            invariant
                self.std_bits@ == stds0,
                n == stds0.len(),
                j <= n,
                noise@.len() == j,
                zs.len() == j,
                forall|k: int| #![auto] 0 <= k < j ==> noise@[k] == mul_bits(stds0[k], zs[k]),
            decreases n - j,
        {
            let z = draw_standard_normal(&mut self.rng);
            let s = self.std_bits[j];
            noise.push(f64_mul(s, z));
            proof {
                zs = zs.push(z);
            }
            j = j + 1;
        }
        proof {
            assert(zs.len() == noise@.len() && forall|k: int| #![auto] 0 <= k < noise@.len() ==>
                noise@[k] == mul_bits(stds0[k], zs[k]));
        }
        noise
    }
}

/// Injects independent zero-mean Gaussian noise into every value of the
/// dataset, in place, calibrated per column: the noise variance of a column
/// is its unbiased sample variance times `ratio`.
///
/// Succeeds exactly on datasets of at least two equal-length rows whose
/// scaled variances are all non-negative, and then preserves row count, row
/// order and row length while adding one independent draw to every value.
/// On every failure the dataset is left exactly as it was: `EmptyDataset`
/// for zero rows, `InsufficientRows` for one row, `ShapeMismatch` for rows
/// of differing lengths, and `InvalidVariance` exactly when some column's
/// scaled variance is negative, which only a negative `ratio` can produce.
pub fn add_noise(data: &mut Vec<Vec<u64>>, ratio: u64) -> (res: Result<(), NoiseError>)
    ensures
        match res {
            Ok(()) => {
                let rows = rows_of(old(data)@);
                &&& rows.len() >= 2
                &&& shape_ok(rows)
                &&& forall|j: int| 0 <= j < col_count(rows) ==>
                    !is_negative_bits(scaled_variance(rows, ratio, j))
                &&& exists|zs: Seq<Seq<u64>>| noisy(rows, ratio, zs, rows_of(final(data)@))
            },
            Err(e) => {
                &&& final(data)@ == old(data)@
                &&& match e {
                    NoiseError::EmptyDataset => old(data)@.len() == 0,
                    NoiseError::InsufficientRows => old(data)@.len() == 1,
                    NoiseError::ShapeMismatch => old(data)@.len() >= 2
                        && !shape_ok(rows_of(old(data)@)),
                    NoiseError::InvalidVariance => {
                        let rows = rows_of(old(data)@);
                        &&& rows.len() >= 2
                        &&& shape_ok(rows)
                        &&& exists|j: int| 0 <= j < col_count(rows)
                            && is_negative_bits(#[trigger] scaled_variance(rows, ratio, j))
                    },
                }
            },
        },
{
    let ghost orig = data@;
    let ghost rows = rows_of(orig);
    let mv = match mean_variance(data) {
        Ok(mv) => mv,
        Err(e) => {
            return Err(e);
        },
    };
    let mut var = mv.1;
    let ghost cols = col_count(rows);
    vec_scalar_mul(&mut var, ratio);
    assert(forall|j: int| 0 <= j < cols ==> var@[j] == scaled_variance(rows, ratio, j));
    let mut src = match NoiseSource::new(&var) {
        Ok(src) => src,
        Err(e) => {
            return Err(e);
        },
    };
    let ghost stds = src.stds();
    assert(forall|j: int| 0 <= j < cols ==> stds[j] == noise_std(rows, ratio, j));

    let n = data.len();
    let ghost mut zs_all = Seq::<Seq<u64>>::empty();
    let mut i: usize = 0;
    while i < n
        invariant
            n == orig.len(),
            rows == rows_of(orig),
            cols == col_count(rows),
            shape_ok(rows),
            i <= n,
            data@.len() == n,
            src.stds() == stds,
            stds.len() == cols,
            forall|j: int| 0 <= j < cols ==> #[trigger] stds[j] == noise_std(rows, ratio, j),
            forall|k: int| i <= k < n ==> #[trigger] data@[k] == orig[k],
            zs_all.len() == i,
            forall|k: int| 0 <= k < i ==> #[trigger] zs_all[k].len() == cols,
            forall|k: int| 0 <= k < i ==> #[trigger] data@[k]@.len() == cols,
            forall|k: int, j: int| 0 <= k < i && 0 <= j < cols ==>
                #[trigger] data@[k]@[j] == add_bits(
                    rows[k][j],
                    mul_bits(noise_std(rows, ratio, j), zs_all[k][j]),
                ),
        decreases n - i,
    {
        let noise = src.sample();
        proof {
            assert(rows[i as int].len() == col_count(rows));
            assert(data@[i as int]@ == rows[i as int]);
        }
        vec_add(&mut data[i], &noise);
        proof {
            let z = choose|z: Seq<u64>|
                #![trigger z.len()]
                z.len() == noise@.len() && forall|j: int| #![auto] 0 <= j < noise@.len() ==>
                    noise@[j] == mul_bits(stds[j], z[j]);
            zs_all = zs_all.push(z);
        }
        i = i + 1;
    }
    proof {
        assert(noisy(rows, ratio, zs_all, rows_of(data@)));
    }
    Ok(())
}

} // verus!
