use add_noise::NoiseError;
use add_noise::add_noise;
use add_noise::noise::NoiseSource;
use add_noise::stats::mean_variance;

fn to_bits(rows: &[Vec<f64>]) -> Vec<Vec<u64>> {
    rows.iter().map(|r| r.iter().map(|v| v.to_bits()).collect()).collect()
}

fn to_floats(rows: &[Vec<u64>]) -> Vec<Vec<f64>> {
    rows.iter().map(|r| r.iter().map(|v| f64::from_bits(*v)).collect()).collect()
}

fn base_dataset() -> Vec<Vec<u64>> {
    to_bits(&[vec![1.0, 2.0], vec![3.0, 4.0], vec![5.0, 6.0]])
}

#[test]
fn mean_and_variance_concrete() {
    let data = base_dataset();
    let (mean, var) = mean_variance(&data).unwrap();
    assert_eq!(to_floats(&[mean]), vec![vec![3.0, 4.0]]);
    assert_eq!(to_floats(&[var]), vec![vec![4.0, 4.0]]);
}

#[test]
fn identical_rows_have_zero_variance() {
    let data = to_bits(&[vec![2.0, 4.0], vec![2.0, 4.0], vec![2.0, 4.0]]);
    let (mean, var) = mean_variance(&data).unwrap();
    assert_eq!(to_floats(&[mean]), vec![vec![2.0, 4.0]]);
    assert_eq!(to_floats(&[var]), vec![vec![0.0, 0.0]]);
}

#[test]
fn identical_rows_get_no_noise_at_any_ratio() {
    let original = to_bits(&[vec![2.0, 4.0], vec![2.0, 4.0], vec![2.0, 4.0]]);
    let mut data = original.clone();
    add_noise(&mut data, 3.5f64.to_bits()).unwrap();
    assert_eq!(to_floats(&data), to_floats(&original));
}

#[test]
fn ratio_zero_leaves_dataset_unchanged() {
    let original = base_dataset();
    let mut data = original.clone();
    add_noise(&mut data, 0.0f64.to_bits()).unwrap();
    assert_eq!(to_floats(&data), to_floats(&original));
}

#[test]
fn statistics_reject_empty_and_single_row_datasets() {
    let empty: Vec<Vec<u64>> = Vec::new();
    assert_eq!(mean_variance(&empty).unwrap_err(), NoiseError::EmptyDataset);
    let one_row = to_bits(&[vec![1.0, 2.0]]);
    assert_eq!(mean_variance(&one_row).unwrap_err(), NoiseError::InsufficientRows);
}

#[test]
fn empty_dataset_is_rejected() {
    let mut data: Vec<Vec<u64>> = Vec::new();
    assert_eq!(add_noise(&mut data, 1.0f64.to_bits()), Err(NoiseError::EmptyDataset));
    assert!(data.is_empty());
}

#[test]
fn single_row_is_rejected() {
    let mut data = to_bits(&[vec![1.0, 2.0]]);
    assert_eq!(add_noise(&mut data, 1.0f64.to_bits()), Err(NoiseError::InsufficientRows));
    assert_eq!(to_floats(&data), vec![vec![1.0, 2.0]]);
}

#[test]
fn ragged_rows_are_rejected() {
    let mut data = to_bits(&[vec![1.0, 2.0, 3.0], vec![4.0, 5.0]]);
    assert_eq!(add_noise(&mut data, 1.0f64.to_bits()), Err(NoiseError::ShapeMismatch));
    assert_eq!(to_floats(&data), vec![vec![1.0, 2.0, 3.0], vec![4.0, 5.0]]);
}

#[test]
fn negative_ratio_is_rejected() {
    let mut data = base_dataset();
    assert_eq!(add_noise(&mut data, (-1.0f64).to_bits()), Err(NoiseError::InvalidVariance));
    assert_eq!(to_floats(&data), to_floats(&base_dataset()));
}

#[test]
fn negative_target_variance_is_rejected_at_construction() {
    let scaled = vec![(-1.0f64).to_bits()];
    assert!(matches!(NoiseSource::new(&scaled), Err(NoiseError::InvalidVariance)));
}

#[test]
fn standard_deviation_is_root_of_target_variance() {
    let scaled = vec![4.0f64.to_bits(), 9.0f64.to_bits(), 0.0f64.to_bits()];
    let src = NoiseSource::new(&scaled).unwrap();
    let stds: Vec<f64> = src.std_devs().iter().map(|b| f64::from_bits(*b)).collect();
    assert_eq!(stds, vec![2.0, 3.0, 0.0]);
}

#[test]
fn standard_deviation_rounds_as_hardware_square_root_does() {
    let scaled = vec![2.0f64.to_bits()];
    let src = NoiseSource::new(&scaled).unwrap();
    assert_eq!(f64::from_bits(src.std_devs()[0]), 2.0f64.sqrt());
}

#[test]
fn seeded_sources_draw_identical_sequences() {
    let scaled = vec![1.0f64.to_bits(), 4.0f64.to_bits()];
    let mut a = NoiseSource::new_seeded(&scaled, 42).unwrap();
    let mut b = NoiseSource::new_seeded(&scaled, 42).unwrap();
    for _ in 0..5 {
        assert_eq!(a.sample(), b.sample());
    }
}

#[test]
fn sample_has_one_value_per_column() {
    let scaled = vec![1.0f64.to_bits(), 2.0f64.to_bits()];
    let mut src = NoiseSource::new(&scaled).unwrap();
    assert_eq!(src.sample().len(), 2);
    assert_eq!(src.sample().len(), 2);
}

#[test]
fn rows_of_zero_columns_are_accepted() {
    let mut data: Vec<Vec<u64>> = vec![Vec::new(), Vec::new()];
    let (mean, var) = mean_variance(&data).unwrap();
    assert!(mean.is_empty());
    assert!(var.is_empty());
    add_noise(&mut data, 1.0f64.to_bits()).unwrap();
    assert_eq!(data, vec![Vec::new(), Vec::new()]);
}

#[test]
fn noise_preserves_row_and_column_count() {
    let mut data = base_dataset();
    add_noise(&mut data, 1.0f64.to_bits()).unwrap();
    assert_eq!(data.len(), 3);
    for row in data.iter() {
        assert_eq!(row.len(), 2);
    }
}

#[test]
fn injected_noise_variance_approaches_scaled_variance() {
    // The base columns both have sample variance 4; with ratio 1 the deltas
    // of each column are draws from N(0, 4). Estimate their variance over
    // many independent injections.
    let base = base_dataset();
    let trials = 700;
    let mut deltas: Vec<Vec<f64>> = vec![Vec::new(), Vec::new()];
    for _ in 0..trials {
        let mut data = base.clone();
        add_noise(&mut data, 1.0f64.to_bits()).unwrap();
        for (noisy_row, base_row) in data.iter().zip(base.iter()) {
            for j in 0..2 {
                deltas[j].push(f64::from_bits(noisy_row[j]) - f64::from_bits(base_row[j]));
            }
        }
    }
    for column in deltas.iter() {
        let n = column.len() as f64;
        let mean: f64 = column.iter().sum::<f64>() / n;
        let var: f64 = column.iter().map(|d| (d - mean) * (d - mean)).sum::<f64>() / (n - 1.0);
        assert!(mean.abs() < 0.25, "empirical noise mean {} is not near 0", mean);
        assert!((var - 4.0).abs() < 0.8, "empirical noise variance {} is not near 4", var);
    }
}

#[test]
fn noise_at_ratio_one_perturbs_some_value() {
    // With target variance 4 per column, six draws are all exactly zero
    // with probability 0.
    let mut data = base_dataset();
    add_noise(&mut data, 1.0f64.to_bits()).unwrap();
    assert_ne!(to_floats(&data), to_floats(&base_dataset()));
}
