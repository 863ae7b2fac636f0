//! The configuration surface of the pipeline: an immutable value bundle
//! supplied by the caller before a run, validated once at construction time.
//!
//! Thresholds are held in millionths, so that the whole bundle is made of
//! exact integers; the unverified rim divides by one million where a
//! fractional value is handed to a numeric kernel.

use vstd::prelude::*;
use vstd::arithmetic::div_mod::{lemma_fundamental_div_mod, lemma_div_decreases};
use crate::FeatureError;

verus! {

/// The analytic window applied to every frame before spectral analysis.
#[derive(Clone, Copy, Debug, PartialEq, Eq, Structural)]
pub enum WindowType {
    Hamming,
    Hanning,
}

/// Frame segmentation and windowing parameters.
#[derive(Clone, Copy, Debug, PartialEq, Eq, Structural)]
pub struct PreprocessingConfig {
    /// Length of one frame, in samples.
    pub frame_length: usize,
    /// Distance between the starts of consecutive frames, in samples.
    pub frame_shift: usize,
    pub window_type: WindowType,
    /// Sample rate of the signal, in Hz.
    pub sample_rate: usize,
}

/// Spectral-analysis parameters.
#[derive(Clone, Copy, Debug, PartialEq, Eq, Structural)]
pub struct SpectralConfig {
    /// Number of mel filters, and of cepstral coefficients kept.
    pub n_mfcc: usize,
    /// FFT size; the magnitude spectrum keeps `n_fft / 2 + 1` bins.
    pub n_fft: usize,
}

/// Plausible pitch range for the autocorrelation pitch estimator, in Hz.
#[derive(Clone, Copy, Debug, PartialEq, Eq, Structural)]
pub struct PitchConfig {
    pub min_pitch: usize,
    pub max_pitch: usize,
}

/// Voicing-classifier thresholds, in millionths: a frame is voiced iff its
/// zero-crossing rate is below `zcr_threshold_micros / 1_000_000` and its
/// energy is above `energy_threshold_micros / 1_000_000`.
#[derive(Clone, Copy, Debug, PartialEq, Eq, Structural)]
pub struct FeatureConfig {
    pub zcr_threshold_micros: u64,
    pub energy_threshold_micros: u64,
}

/// The least `n` with `n * d >= a`, for `a >= 0` and `d >= 1`: the ceiling
/// of `a / d`.
pub open spec fn spec_ceil_div(a: int, d: int) -> int {
    if a % d == 0 {
        a / d
    } else {
        a / d + 1
    }
}

/// `spec_ceil_div` really is the ceiling: `c * d` reaches `a`, and one
/// multiple of `d` less does not.
pub proof fn lemma_ceil_div_is_ceiling(a: int, d: int)
    requires
        a >= 0,
        d >= 1,
    ensures
        spec_ceil_div(a, d) >= 0,
        spec_ceil_div(a, d) * d >= a,
        (spec_ceil_div(a, d) - 1) * d < a,
{
    lemma_fundamental_div_mod(a, d);
    let q = a / d;
    let r = a % d;
    assert(a == d * q + r);
    if r == 0 {
        assert(spec_ceil_div(a, d) * d == q * d);
        assert(q * d == d * q) by (nonlinear_arith);
        assert((q - 1) * d == d * q - d) by (nonlinear_arith);
    } else {
        assert(spec_ceil_div(a, d) * d == (q + 1) * d);
        assert((q + 1) * d == d * q + d) by (nonlinear_arith);
        assert(q * d == d * q) by (nonlinear_arith);
    }
}

/// The ceiling of a positive number is positive.
pub proof fn lemma_ceil_div_pos(a: int, d: int)
    requires
        a >= 1,
        d >= 1,
    ensures
        spec_ceil_div(a, d) >= 1,
{
    lemma_ceil_div_is_ceiling(a, d);
    let c = spec_ceil_div(a, d);
    if c == 0 {
        assert(c * d == 0) by (nonlinear_arith)
            requires
                c == 0,
        ;
    }
}

/// The ceiling does not grow when the divisor does.
pub proof fn lemma_ceil_div_denominator_monotone(a: int, d1: int, d2: int)
    requires
        a >= 0,
        1 <= d1 <= d2,
    ensures
        spec_ceil_div(a, d2) <= spec_ceil_div(a, d1),
{
    lemma_ceil_div_is_ceiling(a, d1);
    lemma_ceil_div_is_ceiling(a, d2);
    let c1 = spec_ceil_div(a, d1);
    let c2 = spec_ceil_div(a, d2);
    assert(c1 * d1 <= c1 * d2) by (nonlinear_arith)
        requires
            c1 >= 0,
            d1 <= d2,
    ;
    if c2 > c1 {
        assert(c1 * d2 <= (c2 - 1) * d2) by (nonlinear_arith)
            requires
                c1 <= c2 - 1,
                d2 >= 1,
        ;
    }
}

/// Ceiling division on machine integers.
pub fn ceil_div(a: usize, d: usize) -> (r: usize)
    requires
        d >= 1,
    ensures
        r == spec_ceil_div(a as int, d as int),
{
    let q: usize = a / d;
    if a % d == 0 {
        q
    } else {
        proof {
            assert(d >= 2) by {
                if d == 1 {
                    lemma_fundamental_div_mod(a as int, 1);
                }
            }
            assert(a >= 1) by {
                if a == 0 {
                    lemma_fundamental_div_mod(0, d as int);
                }
            }
            lemma_div_decreases(a as int, d as int);
        }
        q + 1
    }
}

/// The maximum autocorrelation lag searched by the pitch estimator: one
/// period of the lowest pitch of interest, rounded up to whole samples.
pub open spec fn spec_pitch_frame_size(sample_rate: int, pitch: PitchConfig) -> int {
    spec_ceil_div(sample_rate, pitch.min_pitch as int)
}

/// A consistent configuration bundle. Validated once, before the pipeline
/// runs; every stage's preconditions follow from it.
pub open spec fn spec_configs_consistent(
    pre: PreprocessingConfig,
    spectral: SpectralConfig,
    pitch: PitchConfig,
) -> bool {
    &&& pre.frame_length >= 1
    &&& pre.frame_shift >= 1
    &&& pre.sample_rate >= 1
    &&& spectral.n_mfcc >= 1
    &&& spectral.n_fft >= 2
    &&& 1 <= pitch.min_pitch <= pitch.max_pitch
    &&& spec_pitch_frame_size(pre.sample_rate as int, pitch) <= pre.frame_length
}

/// Checks the configuration bundle once, at construction time. A frame
/// shorter than one period of the lowest pitch of interest cannot carry
/// the lag search, so it is rejected here rather than mid-pipeline.
pub fn validate_configs(
    pre: &PreprocessingConfig,
    spectral: &SpectralConfig,
    pitch: &PitchConfig,
) -> (r: Result<(), FeatureError>)
    ensures
        r is Ok <==> spec_configs_consistent(*pre, *spectral, *pitch),
        r matches Err(e) ==> e == FeatureError::ConfigurationInconsistency,
{
    if pre.frame_length < 1 || pre.frame_shift < 1 || pre.sample_rate < 1 {
        return Err(FeatureError::ConfigurationInconsistency);
    }
    if spectral.n_mfcc < 1 || spectral.n_fft < 2 {
        return Err(FeatureError::ConfigurationInconsistency);
    }
    if pitch.min_pitch < 1 || pitch.min_pitch > pitch.max_pitch {
        return Err(FeatureError::ConfigurationInconsistency);
    }
    let frame_size: usize = ceil_div(pre.sample_rate, pitch.min_pitch);
    if frame_size > pre.frame_length {
        return Err(FeatureError::ConfigurationInconsistency);
    }
    Ok(())
}

/// The default configuration bundle of the analyzer: 1024-sample frames
/// shifted by 256 samples under a Hamming window at 44100 Hz, 13 cepstral
/// coefficients over a 512-point FFT, a 75..300 Hz pitch range, and voicing
/// thresholds of 0.5 (zero-crossing rate) and 0.01 (energy).
pub fn get_configs() -> (r: (PreprocessingConfig, SpectralConfig, PitchConfig, FeatureConfig))
    ensures
        r.0 == (PreprocessingConfig {
            frame_length: 1024,
            frame_shift: 256,
            window_type: WindowType::Hamming,
            sample_rate: 44100,
        }),
        r.1 == (SpectralConfig { n_mfcc: 13, n_fft: 512 }),
        r.2 == (PitchConfig { min_pitch: 75, max_pitch: 300 }),
        r.3 == (FeatureConfig { zcr_threshold_micros: 500000, energy_threshold_micros: 10000 }),
        spec_configs_consistent(r.0, r.1, r.2),
{
    let pre = PreprocessingConfig {
        frame_length: 1024,
        frame_shift: 256,
        window_type: WindowType::Hamming,
        sample_rate: 44100,
    };
    let spectral = SpectralConfig { n_mfcc: 13, n_fft: 512 };
    let pitch = PitchConfig { min_pitch: 75, max_pitch: 300 };
    let feature = FeatureConfig { zcr_threshold_micros: 500000, energy_threshold_micros: 10000 };
    proof {
        assert(spec_ceil_div(44100, 75) == 588);
    }
    (pre, spectral, pitch, feature)
}

} // verus!
