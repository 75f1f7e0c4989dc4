use candle_core::{Device, Tensor};
use sqlgen::errors::GenError;
use sqlgen::generator::{DEFAULT_REPEAT_PENALTY_BITS, DEFAULT_SEED};
use sqlgen::sampling::{SamplingPolicy, NEUTRAL_PENALTY_BITS};

#[test]
fn penalty_bit_patterns_match_float_constants() {
    assert_eq!(NEUTRAL_PENALTY_BITS, 1.0f32.to_bits());
    assert_eq!(DEFAULT_REPEAT_PENALTY_BITS, 1.10f32.to_bits());
    assert_eq!(DEFAULT_SEED, 299792458);
}

#[test]
fn neutral_policy_picks_greatest_logit() {
    let mut policy = SamplingPolicy::new(7, NEUTRAL_PENALTY_BITS, 64);
    let logits = Tensor::new(&[1.0f32, 5.0, 2.0], &Device::Cpu).unwrap();
    let history: Vec<u32> = vec![1, 1, 1];
    assert_eq!(policy.sample(&logits, &history).unwrap(), 1);
}

#[test]
fn penalty_suppresses_repeated_token() {
    // With a 1.5 factor the repeated token 0 drops from 5.0 to 3.33 and the
    // runner-up wins; without history the greatest logit still wins.
    let mut policy = SamplingPolicy::new(7, 1.5f32.to_bits(), 64);
    let logits = Tensor::new(&[5.0f32, 4.0], &Device::Cpu).unwrap();
    let repeated: Vec<u32> = vec![0];
    assert_eq!(policy.sample(&logits, &repeated).unwrap(), 1);
    let fresh: Vec<u32> = vec![];
    assert_eq!(policy.sample(&logits, &fresh).unwrap(), 0);
}

#[test]
fn penalty_window_is_bounded() {
    // Token 0 was seen long ago: with a window of 2 only the last two ids
    // count, so the 5.0 logit is left alone.
    let mut policy = SamplingPolicy::new(7, 1.5f32.to_bits(), 2);
    let logits = Tensor::new(&[5.0f32, 4.0], &Device::Cpu).unwrap();
    let history: Vec<u32> = vec![0, 1, 1];
    assert_eq!(policy.sample(&logits, &history).unwrap(), 0);
}

#[test]
fn penalty_moves_logits_toward_less_likely_in_both_signs() {
    let logits = Tensor::new(&[2.0f32, -3.0, 1.0], &Device::Cpu).unwrap();
    let out = candle_transformers::utils::apply_repeat_penalty(&logits, 1.5, &[0u32, 1])
        .unwrap()
        .to_vec1::<f32>()
        .unwrap();
    assert_eq!(out[0], 2.0f32 / 1.5);
    assert_eq!(out[1], -3.0f32 * 1.5);
    assert_eq!(out[2], 1.0f32);
    assert!(out[0] < 2.0 && out[0] > 0.0);
    assert!(out[1] < -3.0);
}

#[test]
fn sampling_reports_runtime_failure() {
    // A rank-2 logits tensor cannot be reduced to one scalar id.
    let mut policy = SamplingPolicy::new(7, NEUTRAL_PENALTY_BITS, 64);
    let logits = Tensor::new(&[[1.0f32, 2.0], [3.0, 4.0]], &Device::Cpu).unwrap();
    let history: Vec<u32> = vec![];
    let err = policy.sample(&logits, &history).unwrap_err();
    assert!(matches!(err, GenError::ModelForward(_)));
}
