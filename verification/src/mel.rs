//! Geometry of the mel filter bank.
//!
//! The bank is a matrix of triangular filters over the FFT bins. Its
//! boundary bins come from the mel-scale conversion, a real-valued map
//! computed outside the verified core; given those bins, every weight of
//! the bank is an exact rational, and this module builds and characterizes
//! the whole matrix. A weight is carried symbolically — zero, a rising
//! edge `num / den`, or a falling edge `1 - num / den` — so that the rim
//! can evaluate it with the same two operations the filters are defined by.

use vstd::prelude::*;

verus! {

/// One entry of the filter bank.
#[derive(Clone, Copy, Debug, PartialEq, Eq, Structural)]
pub enum MelWeight {
    /// The bin lies outside the filter's triangle: weight 0.
    Zero,
    /// The bin lies on the left edge: weight `num / den`, with `num < den`.
    Rising { num: usize, den: usize },
    /// The bin lies on the right edge, peak included: weight
    /// `1 - num / den`, with `num < den`.
    Falling { num: usize, den: usize },
}

/// The weight of filter `i` at FFT bin `k`, given the boundary bins: the
/// triangle rises over `[bins[i], bins[i+1])`, falls over
/// `[bins[i+1], bins[i+2])`, and is zero elsewhere.
pub open spec fn spec_filter_entry(bins: Seq<usize>, i: int, k: int) -> MelWeight {
    if bins[i] <= k < bins[i + 1] {
        MelWeight::Rising {
            num: (k - bins[i]) as usize,
            den: (bins[i + 1] - bins[i]) as usize,
        }
    } else if bins[i + 1] <= k < bins[i + 2] {
        MelWeight::Falling {
            num: (k - bins[i + 1]) as usize,
            den: (bins[i + 2] - bins[i + 1]) as usize,
        }
    } else {
        MelWeight::Zero
    }
}

/// Boundary bins as the mel conversion yields them: one per filter edge,
/// in nondecreasing order, all within the spectrum width.
pub open spec fn spec_bins_wf(bins: Seq<usize>, n_filters: int, n_bins: int) -> bool {
    &&& bins.len() == n_filters + 2
    &&& forall|a: int| 0 <= a + 1 < bins.len() ==> #[trigger] bins[a] <= bins[a + 1]
    &&& forall|a: int| 0 <= a < bins.len() ==> #[trigger] bins[a] <= n_bins
}

/// A weight whose value is exactly zero.
pub open spec fn weight_is_zero_valued(w: MelWeight) -> bool {
    ||| w is Zero
    ||| (w matches MelWeight::Rising { num, den } && num == 0)
}

/// A weight whose value is exactly one.
pub open spec fn weight_is_unit(w: MelWeight) -> bool {
    w matches MelWeight::Falling { num, den } && num == 0 && den >= 1
}

/// Builds the filter bank: `n_filters` rows of `n_bins` weights, row `i`
/// the triangle with edges at `bins[i]`, peak `bins[i+1]`, end `bins[i+2]`.
pub fn create_mel_filter_bank(bins: &Vec<usize>, n_filters: usize, n_bins: usize) -> (r: Vec<
    Vec<MelWeight>,
>)
    requires
        spec_bins_wf(bins@, n_filters as int, n_bins as int),
    ensures
        r@.len() == n_filters,
        forall|i: int| 0 <= i < n_filters ==> #[trigger] r@[i]@.len() == n_bins,
        forall|i: int, k: int|
            0 <= i < n_filters && 0 <= k < n_bins ==> #[trigger] r@[i]@[k] == spec_filter_entry(
                bins@,
                i,
                k,
            ),
{
    let bins_len: usize = bins.len();
    let mut bank: Vec<Vec<MelWeight>> = Vec::new();
    for i in 0..n_filters
        invariant
            spec_bins_wf(bins@, n_filters as int, n_bins as int),
            bins_len == bins@.len(),
            bank@.len() == i,
            forall|a: int| 0 <= a < i ==> #[trigger] bank@[a]@.len() == n_bins,
            forall|a: int, k: int|
                0 <= a < i && 0 <= k < n_bins ==> #[trigger] bank@[a]@[k] == spec_filter_entry(
                    bins@,
                    a,
                    k,
                ),
    {
        let left: usize = bins[i];
        let center: usize = bins[i + 1];
        let right: usize = bins[i + 2];
        let mut row: Vec<MelWeight> = Vec::new();
        for k in 0..n_bins
            invariant
                left == bins@[i as int],
                center == bins@[i as int + 1],
                right == bins@[i as int + 2],
                left <= center <= right,
                row@.len() == k,
                forall|b: int|
                    0 <= b < k ==> #[trigger] row@[b] == spec_filter_entry(bins@, i as int, b),
        {
            let w: MelWeight = if left <= k && k < center {
                MelWeight::Rising { num: k - left, den: center - left }
            } else if center <= k && k < right {
                MelWeight::Falling { num: k - center, den: right - center }
            } else {
                MelWeight::Zero
            };
            row.push(w);
        }
        bank.push(row);
    }
    bank
}

/// Law: each filter is a triangle over the FFT bins — its value is exactly
/// 1 at its center bin, exactly 0 at its left edge, and 0 at every bin
/// before the left edge or at and beyond the right edge. The peak claim
/// asks the center and right boundary bins to be distinct: when the mel
/// conversion maps them to the same bin, the triangle is degenerate and has
/// no interior.
pub proof fn lemma_mel_filter_shape(bins: Seq<usize>, n_filters: int, n_bins: int, i: int, k: int)
    requires
        spec_bins_wf(bins, n_filters, n_bins),
        0 <= i < n_filters,
        0 <= k,
    ensures
        k == bins[i + 1] && bins[i + 1] < bins[i + 2] ==> weight_is_unit(
            spec_filter_entry(bins, i, k),
        ),
        k == bins[i] && bins[i] < bins[i + 1] ==> weight_is_zero_valued(
            spec_filter_entry(bins, i, k),
        ),
        k < bins[i] || k >= bins[i + 2] ==> spec_filter_entry(bins, i, k) == MelWeight::Zero,
{
    assert(bins[i] <= bins[i + 1]);
    assert(bins[i + 1] <= bins[i + 2]);
}

} // verus!
