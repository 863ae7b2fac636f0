//! Lag selection for the autocorrelation pitch estimator.
//!
//! Per frame, the estimator computes the autocorrelation of the signal at
//! every lag up to one period of the lowest pitch of interest, and reports
//! the lag of the strongest positive correlation within the plausible range.
//! The correlation values are real numbers computed outside the verified
//! core; they are handed in as order-preserving integer keys, so the search
//! itself — range, tie-breaking, fallback — is stated and proved exactly.

use vstd::prelude::*;
use crate::config::{
    ceil_div, lemma_ceil_div_denominator_monotone, lemma_ceil_div_pos, spec_ceil_div, PitchConfig,
};

verus! {

/// The lag range of the search: the least lag is one period of the highest
/// pitch of interest, the greatest is one period of the lowest, both rounded
/// up to whole samples. For a real sample rate and an ordered pitch range
/// the lags are positive and the range is well formed, so the reported
/// pitch — the rate over the chosen lag — is defined.
pub fn compute_lag_range(sample_rate: usize, pitch: &PitchConfig) -> (r: (usize, usize))
    requires
        pitch.min_pitch >= 1,
        pitch.max_pitch >= 1,
    ensures
        r.0 == spec_ceil_div(sample_rate as int, pitch.max_pitch as int),
        r.1 == spec_ceil_div(sample_rate as int, pitch.min_pitch as int),
        sample_rate >= 1 ==> r.0 >= 1,
        pitch.min_pitch <= pitch.max_pitch ==> r.0 <= r.1,
{
    let min_lag: usize = ceil_div(sample_rate, pitch.max_pitch);
    let frame_size: usize = ceil_div(sample_rate, pitch.min_pitch);
    proof {
        if sample_rate >= 1 {
            lemma_ceil_div_pos(sample_rate as int, pitch.max_pitch as int);
        }
        if pitch.min_pitch <= pitch.max_pitch {
            lemma_ceil_div_denominator_monotone(
                sample_rate as int,
                pitch.min_pitch as int,
                pitch.max_pitch as int,
            );
        }
    }
    (min_lag, frame_size)
}

/// What the lag search returns. If some lag in `[min_lag, frame_size)` has
/// a key above `zero_key` (a strictly positive correlation), the result is
/// the first lag attaining the maximum key in that range; otherwise it is
/// `min_lag`, the defined fallback at the highest pitch in range.
pub open spec fn is_best_lag(
    corr: Seq<u64>,
    min_lag: int,
    frame_size: int,
    zero_key: u64,
    r: int,
) -> bool {
    if exists|l: int| min_lag <= l < frame_size && corr[l] > zero_key {
        &&& min_lag <= r < frame_size
        &&& corr[r] > zero_key
        &&& forall|l: int| min_lag <= l < frame_size ==> corr[l] <= corr[r]
        &&& forall|l: int| min_lag <= l < r ==> corr[l] < corr[r]
    } else {
        r == min_lag
    }
}

/// Searches `corr[min_lag .. frame_size)` for the strongest strictly
/// positive correlation, ties broken by the smallest lag; reports `min_lag`
/// when none is positive.
///
/// `corr` holds one key per lag, in an encoding that preserves the order of
/// the underlying correlation values; `zero_key` is the key of zero.
pub fn best_lag(corr: &Vec<u64>, min_lag: usize, frame_size: usize, zero_key: u64) -> (r: usize)
    requires
        frame_size <= corr@.len(),
    ensures
        is_best_lag(corr@, min_lag as int, frame_size as int, zero_key, r as int),
        r == min_lag || (min_lag <= r < frame_size),
{
    if min_lag >= frame_size {
        return min_lag;
    }
    let mut best: usize = min_lag;
    let mut best_key: u64 = zero_key;
    let mut found: bool = false;
    let mut lag: usize = min_lag;
    while lag < frame_size
        invariant
            min_lag <= lag <= frame_size,
            frame_size <= corr@.len(),
            found <==> exists|l: int| min_lag <= l < lag && corr@[l] > zero_key,
            found ==> {
                &&& min_lag <= best < lag
                &&& best_key == corr@[best as int]
                &&& best_key > zero_key
                &&& forall|l: int| min_lag <= l < lag ==> corr@[l] <= best_key
                &&& forall|l: int| min_lag <= l < best ==> corr@[l] < best_key
            },
            !found ==> {
                &&& best == min_lag
                &&& best_key == zero_key
                &&& forall|l: int| min_lag <= l < lag ==> corr@[l] <= zero_key
            },
        decreases frame_size - lag,
    {
        if corr[lag] > best_key {
            best = lag;
            best_key = corr[lag];
            found = true;
        }
        lag = lag + 1;
    }
    best
}

/// Law: the lag the search is specified to return is unique — the
/// first-maximum rule and the fallback pin it down, so the estimator is
/// deterministic.
pub proof fn lemma_best_lag_unique(
    corr: Seq<u64>,
    min_lag: int,
    frame_size: int,
    zero_key: u64,
    r1: int,
    r2: int,
)
    requires
        is_best_lag(corr, min_lag, frame_size, zero_key, r1),
        is_best_lag(corr, min_lag, frame_size, zero_key, r2),
    ensures
        r1 == r2,
{
    if exists|l: int| min_lag <= l < frame_size && corr[l] > zero_key {
        if r1 < r2 {
            assert(corr[r1] < corr[r2]);
            assert(corr[r2] <= corr[r1]);
        }
        if r2 < r1 {
            assert(corr[r2] < corr[r1]);
            assert(corr[r1] <= corr[r2]);
        }
    }
}

} // verus!
