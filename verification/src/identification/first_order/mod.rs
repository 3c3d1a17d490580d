//! First-order-plus-dead-time identification methods, and the search for the
//! sample of a step response that lies nearest a given level.
use vstd::prelude::*;

use crate::order_key::{INFINITY_KEY, ZERO_KEY};

pub mod hagglund;
pub mod krishnaswamy;
pub mod smith;
pub mod sundaresan;
pub mod ziegler_nichols;

verus! {

/// A distance that takes part in the search: known (not NaN) and below `+∞`.
pub open spec fn is_finite_distance(distance: Option<u64>) -> bool {
    distance matches Some(k) && k < INFINITY_KEY
}

/// `i` is the first index of a smallest finite distance in `distances`.
pub open spec fn is_closest(distances: Seq<Option<u64>>, i: int) -> bool {
    &&& 0 <= i < distances.len()
    &&& is_finite_distance(distances[i])
    &&& forall|j: int|
        0 <= j < distances.len() && is_finite_distance(distances[j]) ==> distances[i]->0
            <= distances[j]->0
    &&& forall|j: int|
        0 <= j < i && is_finite_distance(distances[j]) ==> distances[i]->0 < distances[j]->0
}

/// Index of the sample that lies nearest a target level.
///
/// `distances[i]` is the order key of `|value_i - target|` for sample `i`,
/// `None` where that distance is NaN.  The result is the first index whose
/// distance is smallest among the finite ones; there is none when no
/// distance is finite.
pub fn closest_index(distances: &Vec<Option<u64>>) -> (r: Option<usize>)
    ensures
        r is None <==> forall|j: int|
            0 <= j < distances@.len() ==> !is_finite_distance(#[trigger] distances@[j]),
        r matches Some(i) ==> is_closest(distances@, i as int),
{
    let mut best: Option<usize> = None;
    let mut best_key: u64 = INFINITY_KEY;
    let mut i: usize = 0;
    while i < distances.len()
        invariant
            i <= distances@.len(),
            best is None ==> best_key == INFINITY_KEY && forall|j: int|
                0 <= j < i ==> !is_finite_distance(#[trigger] distances@[j]),
            best matches Some(b) ==> {
                &&& b < i
                &&& distances@[b as int] == Some(best_key)
                &&& best_key < INFINITY_KEY
                &&& forall|j: int|
                    0 <= j < i && is_finite_distance(#[trigger] distances@[j]) ==> best_key
                        <= distances@[j]->0
                &&& forall|j: int|
                    0 <= j < b && is_finite_distance(#[trigger] distances@[j]) ==> best_key
                        < distances@[j]->0
            },
        decreases distances@.len() - i,
    {
        match distances[i] {
            Some(k) => {
                if k < best_key {
                    best = Some(i);
                    best_key = k;
                }
            },
            None => {},
        }
        i = i + 1;
    }
    best
}

/// The sample that the search picks is determined by the distances: no two
/// indices are both the first of a smallest finite distance.
pub proof fn lemma_closest_is_unique(distances: Seq<Option<u64>>, i: int, j: int)
    requires
        is_closest(distances, i),
        is_closest(distances, j),
    ensures
        i == j,
{
    if i < j {
        assert(distances[i]->0 < distances[j]->0);
    } else if j < i {
        assert(distances[j]->0 < distances[i]->0);
    }
}

/// A sample that lies exactly on the target (distance `0`) is picked when it
/// is the first such sample, distances being absolute values.
pub proof fn lemma_exact_hit_is_closest(distances: Seq<Option<u64>>, i: int)
    requires
        forall|j: int| 0 <= j < distances.len() && distances[j] is Some ==> distances[j]->0 >= ZERO_KEY,
        0 <= i < distances.len(),
        distances[i] == Some(ZERO_KEY),
        forall|j: int| 0 <= j < i ==> distances[j] != Some(ZERO_KEY),
    ensures
        is_closest(distances, i),
{
}

} // verus!
