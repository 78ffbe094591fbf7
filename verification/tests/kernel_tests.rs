use relu_kernels::kernel::relu_scalar;
use relu_kernels::kernel::relu_simd;

fn bits_of(values: &[f32]) -> Vec<u32> {
    values.iter().map(|x| x.to_bits()).collect()
}

/// Float-level reference of the agreed per-lane policy: keep `x` when
/// `x > 0.0`, else `+0.0` (so NaN and `-0.0` both map to `+0.0`).
fn reference_relu_bits(values: &[f32]) -> Vec<u32> {
    values
        .iter()
        .map(|&x| if x > 0.0 { x.to_bits() } else { 0.0f32.to_bits() })
        .collect()
}

#[test]
fn scenario_mixed_signs() {
    let input = bits_of(&[-10.0, -5.0, 0.0, 5.0, 10.0]);
    let expected = bits_of(&[0.0, 0.0, 0.0, 5.0, 10.0]);
    assert_eq!(relu_scalar(&input), expected);
    assert_eq!(relu_simd(&input), expected);
}

#[test]
fn scenario_alternating_length_33() {
    let mut values: Vec<f32> = Vec::new();
    for i in 0..33usize {
        values.push(if i % 2 == 0 { -1.0 } else { 1.0 });
    }
    let mut expected_values: Vec<f32> = Vec::new();
    for i in 0..33usize {
        expected_values.push(if i % 2 == 0 { 0.0 } else { 1.0 });
    }
    let input = bits_of(&values);
    let expected = bits_of(&expected_values);
    assert_eq!(relu_scalar(&input), expected);
    assert_eq!(relu_simd(&input), expected);
}

#[test]
fn boundary_lengths_match_oracle() {
    for &n in &[0usize, 1, 15, 16, 17, 31, 32, 33] {
        let values: Vec<f32> = (0..n).map(|i| (i as f32 % 20.0) - 10.0).collect();
        let input = bits_of(&values);
        let expected = reference_relu_bits(&values);
        let scalar = relu_scalar(&input);
        let simd = relu_simd(&input);
        assert_eq!(scalar, expected, "scalar diverged at length {}", n);
        assert_eq!(simd, expected, "portable diverged at length {}", n);
        assert_eq!(scalar, simd, "tiers diverged at length {}", n);
    }
}

#[test]
fn edge_values_policy() {
    let values = [
        -0.0f32,
        0.0,
        -1e-30,
        1e-30,
        f32::MIN,
        f32::MAX,
        f32::NAN,
        f32::INFINITY,
        f32::NEG_INFINITY,
    ];
    let input = bits_of(&values);
    let expected = vec![
        0.0f32.to_bits(), // -0.0 clamps to +0.0
        0.0f32.to_bits(),
        0.0f32.to_bits(),
        1e-30f32.to_bits(),
        0.0f32.to_bits(),
        f32::MAX.to_bits(),
        0.0f32.to_bits(), // NaN compares false against zero, clamps to +0.0
        f32::INFINITY.to_bits(),
        0.0f32.to_bits(),
    ];
    assert_eq!(expected, reference_relu_bits(&values));
    assert_eq!(relu_scalar(&input), expected);
    assert_eq!(relu_simd(&input), expected);
}

#[test]
fn nan_payloads_and_subnormals() {
    // Quiet NaN, signalling-style NaN, negative NaN, smallest subnormal,
    // largest subnormal, smallest normal, and their negatives.
    let input: Vec<u32> = vec![
        0x7FC0_0000, // quiet NaN
        0x7F80_0001, // NaN with small payload
        0xFFC0_0000, // negative NaN
        0x0000_0001, // smallest positive subnormal
        0x007F_FFFF, // largest positive subnormal
        0x0080_0000, // smallest positive normal
        0x8000_0001, // smallest negative subnormal
        0x8080_0000, // negative normal
    ];
    let expected: Vec<u32> = vec![
        0,
        0,
        0,
        0x0000_0001,
        0x007F_FFFF,
        0x0080_0000,
        0,
        0,
    ];
    assert_eq!(expected, reference_relu_bits(&input.iter().map(|&b| f32::from_bits(b)).collect::<Vec<f32>>()));
    assert_eq!(relu_scalar(&input), expected);
    assert_eq!(relu_simd(&input), expected);
}

#[test]
fn length_preserved_including_empty() {
    let empty: Vec<u32> = Vec::new();
    assert_eq!(relu_scalar(&empty), Vec::<u32>::new());
    assert_eq!(relu_simd(&empty), Vec::<u32>::new());
    let values: Vec<f32> = (0..100).map(|i| (i as f32) - 50.0).collect();
    let input = bits_of(&values);
    assert_eq!(relu_scalar(&input).len(), input.len());
    assert_eq!(relu_simd(&input).len(), input.len());
}

#[test]
fn clamping_is_idempotent() {
    let values: Vec<f32> = (0..50).map(|i| ((i as f32) % 7.0) - 3.5).collect();
    let input = bits_of(&values);
    let once = relu_scalar(&input);
    let twice = relu_scalar(&once);
    assert_eq!(once, twice);
    let once_simd = relu_simd(&input);
    let twice_simd = relu_simd(&once_simd);
    assert_eq!(once_simd, twice_simd);
    assert_eq!(once, once_simd);
}
