use speech_features::config::PitchConfig;
use speech_features::pitch::{best_lag, compute_lag_range};

// Order-preserving integer key of a finite sample value: negative values
// map below positive ones, and a non-value (NaN) maps to the bottom, so it
// never beats the zero of the fallback rule.
fn corr_key(x: f32) -> u64 {
    if x.is_nan() {
        return 0;
    }
    let x: f32 = if x == 0.0 { 0.0 } else { x };
    let b: u32 = x.to_bits();
    let k: u32 = if b & 0x8000_0000 != 0 { !b } else { b | 0x8000_0000 };
    k as u64
}

fn zero_key() -> u64 {
    corr_key(0.0)
}

fn autocorrelation(frame: &[f32], frame_size: usize) -> Vec<f32> {
    let mut out: Vec<f32> = Vec::new();
    for lag in 0..frame_size {
        let mut sum: f32 = 0.0;
        for t in 0..frame.len() - lag {
            sum += frame[t] * frame[t + lag];
        }
        out.push(sum);
    }
    out
}

#[test]
fn lag_range_covers_the_pitch_bounds() {
    let pitch = PitchConfig { min_pitch: 75, max_pitch: 300 };
    assert_eq!(compute_lag_range(44100, &pitch), (147, 588));
    assert_eq!(compute_lag_range(16000, &pitch), (54, 214));
}

#[test]
fn best_lag_picks_the_strongest_positive_correlation() {
    let corr: Vec<u64> = vec![
        corr_key(9.0),
        corr_key(0.5),
        corr_key(3.0),
        corr_key(-2.0),
        corr_key(3.0),
    ];
    // The lag at index 0 is outside the search range; the first of the two
    // maxima wins.
    assert_eq!(best_lag(&corr, 1, 5, zero_key()), 2);
}

#[test]
fn best_lag_falls_back_to_min_lag_without_positive_correlation() {
    let corr: Vec<u64> = vec![corr_key(5.0), corr_key(-1.0), corr_key(0.0), corr_key(-3.0)];
    assert_eq!(best_lag(&corr, 1, 4, zero_key()), 1);
}

#[test]
fn best_lag_ignores_nan_correlations() {
    let corr: Vec<u64> = vec![corr_key(0.0), corr_key(f32::NAN), corr_key(1.5), corr_key(2.5)];
    assert_eq!(best_lag(&corr, 1, 4, zero_key()), 3);
}

#[test]
fn best_lag_with_empty_range_is_min_lag() {
    let corr: Vec<u64> = vec![corr_key(1.0), corr_key(2.0)];
    assert_eq!(best_lag(&corr, 2, 2, zero_key()), 2);
}

#[test]
fn sine_pitch_is_found_within_one_lag_of_resolution() {
    // A pure 200 Hz sine at 16000 Hz: one period is 80 samples, so the
    // reported pitch must sit within one lag bin of 200 Hz.
    let rate: usize = 16000;
    let freq: f32 = 200.0;
    let frame: Vec<f32> = (0..512)
        .map(|t| (2.0 * std::f32::consts::PI * freq * t as f32 / rate as f32).sin())
        .collect();
    let pitch = PitchConfig { min_pitch: 75, max_pitch: 300 };
    let (min_lag, frame_size) = compute_lag_range(rate, &pitch);
    let corr = autocorrelation(&frame, frame_size);
    let keys: Vec<u64> = corr.iter().map(|&c| corr_key(c)).collect();
    let lag: usize = best_lag(&keys, min_lag, frame_size, zero_key());
    let reported: f32 = rate as f32 / lag as f32;
    let lower: f32 = rate as f32 / (lag + 1) as f32;
    let upper: f32 = rate as f32 / (lag - 1) as f32;
    assert!(lower <= freq && freq <= upper, "pitch {} not within a lag of {}", reported, freq);
    assert!((reported - freq).abs() < 3.0);
}
