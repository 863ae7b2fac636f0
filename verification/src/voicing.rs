//! The counting half of the voicing classifier.
//!
//! Per frame the classifier computes the zero-crossing rate — the number
//! of adjacent sample pairs of opposite sign, divided by the number of
//! pairs — and the frame energy, and thresholds both. Whether one pair is
//! a sign change, and the energy sum, are real-valued questions answered
//! outside the verified core; the count over the frame is proved here.

use vstd::prelude::*;

verus! {

/// How many entries of the sequence are true.
pub open spec fn count_true(s: Seq<bool>) -> int
    decreases s.len(),
{
    if s.len() == 0 {
        0
    } else {
        count_true(s.drop_last()) + if s.last() {
            1int
        } else {
            0int
        }
    }
}

/// The count never exceeds the length of the sequence.
pub proof fn lemma_count_true_bounds(s: Seq<bool>)
    ensures
        0 <= count_true(s) <= s.len(),
    decreases s.len(),
{
    if s.len() > 0 {
        lemma_count_true_bounds(s.drop_last());
    }
}

/// Counts the sign changes of a frame, given one flag per adjacent sample
/// pair saying whether the pair straddles zero. The zero-crossing rate of
/// the frame is this count divided by the number of pairs.
pub fn count_sign_changes(flags: &Vec<bool>) -> (r: usize)
    ensures
        r == count_true(flags@),
        r <= flags@.len(),
{
    proof {
        lemma_count_true_bounds(flags@);
    }
    let mut count: usize = 0;
    let n: usize = flags.len();
    for i in 0..n
        invariant
            n == flags@.len(),
            count == count_true(flags@.subrange(0, i as int)),
            count <= i,
    {
        proof {
            let prefix = flags@.subrange(0, i as int + 1);
            assert(prefix.drop_last() =~= flags@.subrange(0, i as int));
            assert(prefix.last() == flags@[i as int]);
            lemma_count_true_bounds(flags@.subrange(0, i as int));
        }
        if flags[i] {
            count = count + 1;
        }
    }
    proof {
        assert(flags@.subrange(0, flags@.len() as int) =~= flags@);
    }
    count
}

} // verus!
