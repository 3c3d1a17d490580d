//! Choice of the point of a step response at which the tangent is drawn.
use vstd::prelude::*;

use crate::order_key::{
    lemma_magnitude_of_negation, lemma_magnitude_zero_only_at_zero, magnitude, spec_magnitude,
    SIGN_BIT, ZERO_KEY,
};

verus! {

/// The slope whose key is `slope` is known (not NaN) and steeper, in absolute
/// value, than the slope whose magnitude key is `than`.
pub open spec fn is_steeper(slope: Option<u64>, than: u64) -> bool {
    slope matches Some(k) && spec_magnitude(k) > than
}

/// `j` is the first index of a slope of greatest absolute value in `slopes`,
/// and that slope is not zero.
pub open spec fn is_steepest(slopes: Seq<Option<u64>>, j: int) -> bool {
    &&& 0 <= j < slopes.len()
    &&& is_steeper(slopes[j], ZERO_KEY)
    &&& forall|l: int|
        0 <= l < slopes.len() && slopes[l] is Some ==> spec_magnitude(slopes[l]->0)
            <= spec_magnitude(slopes[j]->0)
    &&& forall|l: int|
        0 <= l < j && slopes[l] is Some ==> spec_magnitude(slopes[l]->0) < spec_magnitude(
            slopes[j]->0,
        )
}

/// Sample at which the step response is steepest.
///
/// For a response of `n` samples, `slopes[j]` is the order key of the
/// estimated derivative at sample `j + 1` (the interior samples `1..n-1`),
/// `None` where that estimate is NaN.  The result is the sample index of the
/// first slope of greatest absolute value, or `0` (the first sample) when no
/// slope is steeper than zero.
pub fn steepest_point(slopes: &Vec<Option<u64>>) -> (idx: usize)
    requires
        slopes@.len() < usize::MAX,
    ensures
        idx == 0 <==> forall|l: int|
            0 <= l < slopes@.len() ==> !is_steeper(#[trigger] slopes@[l], ZERO_KEY),
        idx != 0 ==> is_steepest(slopes@, idx - 1),
{
    let mut max_key: u64 = ZERO_KEY;
    let mut idx: usize = 0;
    let mut j: usize = 0;
    while j < slopes.len()
        invariant
            j <= slopes@.len() < usize::MAX,
            max_key >= ZERO_KEY,
            forall|l: int|
                0 <= l < j && slopes@[l] is Some ==> spec_magnitude(#[trigger] slopes@[l]->0)
                    <= max_key,
            idx == 0 ==> max_key == ZERO_KEY,
            idx != 0 ==> {
                &&& idx <= j
                &&& slopes@[idx - 1] is Some
                &&& spec_magnitude(slopes@[idx - 1]->0) == max_key
                &&& max_key > ZERO_KEY
                &&& forall|l: int|
                    0 <= l < idx - 1 && slopes@[l] is Some ==> spec_magnitude(
                        #[trigger] slopes@[l]->0,
                    ) < max_key
            },
        decreases slopes@.len() - j,
    {
        match slopes[j] {
            Some(k) => {
                let m = magnitude(k);
                if m > max_key {
                    max_key = m;
                    idx = j + 1;
                }
            },
            None => {},
        }
        j = j + 1;
    }
    idx
}

/// The point at which the tangent is drawn is determined by the slopes: no
/// two indices are both the first of a steepest slope.
pub proof fn lemma_steepest_is_unique(slopes: Seq<Option<u64>>, i: int, j: int)
    requires
        is_steepest(slopes, i),
        is_steepest(slopes, j),
    ensures
        i == j,
{
    if i < j {
        assert(spec_magnitude(slopes[i]->0) < spec_magnitude(slopes[j]->0));
    } else if j < i {
        assert(spec_magnitude(slopes[j]->0) < spec_magnitude(slopes[i]->0));
    }
}

/// Only the size of a slope counts: a falling response and its mirror image,
/// whose slopes have the same magnitudes, have their steepest slope at the
/// same index.
pub proof fn lemma_steepest_ignores_sign(slopes: Seq<Option<u64>>, mirrored: Seq<Option<u64>>, i: int)
    requires
        slopes.len() == mirrored.len(),
        forall|l: int|
            0 <= l < slopes.len() ==> (#[trigger] slopes[l] is Some) == (mirrored[l] is Some),
        forall|l: int|
            0 <= l < slopes.len() && slopes[l] is Some ==> spec_magnitude(#[trigger] slopes[l]->0)
                == spec_magnitude(mirrored[l]->0),
        is_steepest(slopes, i),
    ensures
        is_steepest(mirrored, i),
{
    assert(slopes[i] is Some);
    assert forall|l: int| 0 <= l < mirrored.len() && mirrored[l] is Some implies spec_magnitude(
        mirrored[l]->0,
    ) <= spec_magnitude(mirrored[i]->0) by {
        assert(slopes[l] is Some);
    }
    assert forall|l: int| 0 <= l < i && mirrored[l] is Some implies spec_magnitude(
        mirrored[l]->0,
    ) < spec_magnitude(mirrored[i]->0) by {
        assert(slopes[l] is Some);
    }
}

/// A response and its mirror image (every slope negated, which complements
/// its key) have their steepest slope at the same index, and either both or
/// neither have a slope steeper than zero.
pub proof fn lemma_steepest_of_mirror(slopes: Seq<Option<u64>>, mirrored: Seq<Option<u64>>)
    requires
        slopes.len() == mirrored.len(),
        forall|l: int|
            0 <= l < slopes.len() ==> #[trigger] mirrored[l] == match slopes[l] {
                Some(k) => Some(!k),
                None => None,
            },
    ensures
        forall|i: int| is_steepest(slopes, i) <==> is_steepest(mirrored, i),
        (forall|l: int| 0 <= l < slopes.len() ==> !is_steeper(#[trigger] slopes[l], ZERO_KEY))
            <==> (forall|l: int|
            0 <= l < mirrored.len() ==> !is_steeper(#[trigger] mirrored[l], ZERO_KEY)),
{
    assert forall|l: int| 0 <= l < slopes.len() implies (#[trigger] slopes[l] is Some) == (
    mirrored[l] is Some) && (slopes[l] is Some ==> spec_magnitude(slopes[l]->0) == spec_magnitude(
        mirrored[l]->0,
    )) by {
        if let Some(k) = slopes[l] {
            lemma_magnitude_of_negation(k);
        }
    }
    assert forall|i: int| is_steepest(slopes, i) implies is_steepest(mirrored, i) by {
        lemma_steepest_ignores_sign(slopes, mirrored, i);
    }
    assert forall|i: int| is_steepest(mirrored, i) implies is_steepest(slopes, i) by {
        assert forall|l: int| 0 <= l < slopes.len() implies (#[trigger] mirrored[l] is Some) == (
        slopes[l] is Some) && (mirrored[l] is Some ==> spec_magnitude(mirrored[l]->0)
            == spec_magnitude(slopes[l]->0)) by {
            assert(slopes[l] is Some == mirrored[l] is Some);
        }
        lemma_steepest_ignores_sign(mirrored, slopes, i);
    }
    if exists|l: int| 0 <= l < slopes.len() && is_steeper(slopes[l], ZERO_KEY) {
        let l = choose|l: int| 0 <= l < slopes.len() && is_steeper(slopes[l], ZERO_KEY);
        assert(is_steeper(mirrored[l], ZERO_KEY));
    }
    if exists|l: int| 0 <= l < mirrored.len() && is_steeper(mirrored[l], ZERO_KEY) {
        let l = choose|l: int| 0 <= l < mirrored.len() && is_steeper(mirrored[l], ZERO_KEY);
        assert(slopes[l] is Some);
        assert(is_steeper(slopes[l], ZERO_KEY));
    }
}

/// Every slope other than zero, rising or falling, is steeper than zero, and
/// of two falling slopes the one with the lower key (the greater descent) is
/// the steeper.
pub proof fn lemma_nonzero_slope_is_steep(k: u64, other: u64)
    requires
        k != ZERO_KEY,
        k != SIGN_BIT - 1,
    ensures
        is_steeper(Some(k), ZERO_KEY),
        k < other < SIGN_BIT ==> is_steeper(Some(k), spec_magnitude(other)),
{
    lemma_magnitude_zero_only_at_zero(k);
    if k < other && other < SIGN_BIT {
        crate::order_key::lemma_magnitude_strictly_monotone(k, other);
    }
}

} // verus!
