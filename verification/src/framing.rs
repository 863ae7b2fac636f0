//! Frame segmentation: splitting a one-dimensional sample sequence into
//! overlapping, fixed-length frames.
//!
//! Samples are carried as opaque 32-bit words; the framer only moves them,
//! so its whole behaviour is stated and proved over sequences of words.

use vstd::prelude::*;
use vstd::arithmetic::div_mod::{lemma_div_multiples_vanish, lemma_fundamental_div_mod};
use vstd::arithmetic::mul::lemma_mul_inequality;
use crate::FeatureError;

verus! {

/// Number of frames a signal of length `len` yields:
/// `1 + floor((len - frame_length) / frame_shift)`.
pub open spec fn spec_frame_count(len: int, frame_length: int, frame_shift: int) -> int {
    1 + (len - frame_length) / frame_shift
}

/// Row `i` of the frame matrix: the verbatim contiguous slice of the signal
/// starting at `i * frame_shift`.
pub open spec fn spec_frame(signal: Seq<u32>, frame_length: int, frame_shift: int, i: int) -> Seq<
    u32,
> {
    signal.subrange(i * frame_shift, i * frame_shift + frame_length)
}

/// The whole frame matrix, as a sequence of rows. The framer is a pure
/// function of the signal and the two lengths; this spec function is its
/// value, so two runs on equal inputs give equal outputs.
pub open spec fn spec_frames(signal: Seq<u32>, frame_length: int, frame_shift: int) -> Seq<
    Seq<u32>,
> {
    Seq::new(
        spec_frame_count(signal.len() as int, frame_length, frame_shift) as nat,
        |i: int| spec_frame(signal, frame_length, frame_shift, i),
    )
}

/// The mathematical view of a frame matrix held as a vector of rows.
pub open spec fn matrix_view(m: Seq<Vec<u32>>) -> Seq<Seq<u32>> {
    m.map_values(|row: Vec<u32>| row@)
}

/// Splits `signal` into overlapping frames of `frame_length` words, each
/// starting `frame_shift` words after the previous one.
///
/// A signal shorter than one frame is an error: the pipeline must fail
/// rather than produce a zero row count.
pub fn frame_signal(signal: &Vec<u32>, frame_length: usize, frame_shift: usize) -> (r: Result<
    Vec<Vec<u32>>,
    FeatureError,
>)
    requires
        frame_length >= 1,
        frame_shift >= 1,
    ensures
        signal@.len() >= frame_length <==> r is Ok,
        r matches Ok(frames) ==> matrix_view(frames@) == spec_frames(
            signal@,
            frame_length as int,
            frame_shift as int,
        ),
        r matches Err(e) ==> e == FeatureError::InsufficientSamples,
{
    let slen: usize = signal.len();
    if slen < frame_length {
        return Err(FeatureError::InsufficientSamples);
    }
    let avail: usize = slen - frame_length;
    proof {
        lemma_div_nonincreasing_usize(avail as int, frame_shift as int);
    }
    let n_frames: usize = 1 + avail / frame_shift;
    let mut frames: Vec<Vec<u32>> = Vec::new();
    for i in 0..n_frames
        invariant
            frame_length >= 1,
            frame_shift >= 1,
            slen == signal@.len(),
            frame_length <= slen,
            avail == slen - frame_length,
            n_frames == spec_frame_count(signal@.len() as int, frame_length as int, frame_shift as int),
            frames@.len() == i,
            forall|k: int|
                0 <= k < i ==> #[trigger] frames@[k]@ == spec_frame(
                    signal@,
                    frame_length as int,
                    frame_shift as int,
                    k,
                ),
    {
        proof {
            lemma_frame_start_in_bounds(
                signal@.len() as int,
                frame_length as int,
                frame_shift as int,
                i as int,
            );
        }
        let start: usize = i * frame_shift;
        let mut row: Vec<u32> = Vec::new();
        for j in 0..frame_length
            invariant
                slen == signal@.len(),
                start == i * frame_shift,
                start + frame_length <= slen,
                row@.len() == j,
                forall|k: int| 0 <= k < j ==> row@[k] == signal@[start + k],
        {
            row.push(signal[start + j]);
        }
        proof {
            assert(row@ =~= spec_frame(signal@, frame_length as int, frame_shift as int, i as int));
        }
        frames.push(row);
    }
    proof {
        assert(matrix_view(frames@) =~= spec_frames(
            signal@,
            frame_length as int,
            frame_shift as int,
        ));
    }
    Ok(frames)
}

/// Dividing a non-negative number by a positive one does not increase it.
proof fn lemma_div_nonincreasing_usize(x: int, d: int)
    requires
        0 <= x,
        0 < d,
    ensures
        0 <= x / d <= x,
{
    vstd::arithmetic::div_mod::lemma_div_nonincreasing(x, d);
    vstd::arithmetic::div_mod::lemma_div_pos_is_pos(x, d);
}

/// Every frame of the matrix lies inside the signal: row `i` starts at
/// `i * frame_shift` and ends at or before the end of the signal.
pub proof fn lemma_frame_start_in_bounds(len: int, frame_length: int, frame_shift: int, i: int)
    requires
        frame_length >= 1,
        frame_shift >= 1,
        frame_length <= len,
        0 <= i < spec_frame_count(len, frame_length, frame_shift),
    ensures
        0 <= i * frame_shift,
        i * frame_shift + frame_length <= len,
{
    let avail = len - frame_length;
    let q = avail / frame_shift;
    lemma_fundamental_div_mod(avail, frame_shift);
    assert(frame_shift * q <= avail);
    lemma_mul_inequality(i, q, frame_shift);
    vstd::arithmetic::mul::lemma_mul_is_commutative(i, frame_shift);
    vstd::arithmetic::mul::lemma_mul_is_commutative(q, frame_shift);
    vstd::arithmetic::mul::lemma_mul_nonnegative(i, frame_shift);
}

/// Law: for a signal of length `frame_length + k * frame_shift` with
/// `k >= 0`, the framer yields exactly `k + 1` frames, and frame `i` is the
/// verbatim contiguous slice of the signal starting at `i * frame_shift`.
pub proof fn lemma_exact_frame_cover(signal: Seq<u32>, frame_length: int, frame_shift: int, k: int)
    requires
        frame_length >= 1,
        frame_shift >= 1,
        k >= 0,
        signal.len() == frame_length + k * frame_shift,
    ensures
        spec_frames(signal, frame_length, frame_shift).len() == k + 1,
        forall|i: int|
            0 <= i <= k ==> spec_frames(signal, frame_length, frame_shift)[i] == signal.subrange(
                i * frame_shift,
                i * frame_shift + frame_length,
            ),
{
    lemma_div_multiples_vanish(k, frame_shift);
    vstd::arithmetic::mul::lemma_mul_is_commutative(k, frame_shift);
}

} // verus!
