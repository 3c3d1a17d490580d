//! Smith's second-order method and the lookup in its table of time ratios.
use vstd::prelude::*;

verus! {

/// Order keys of the time ratios `t20 / t60` of Smith's table:
/// 0.255, 0.303, 0.360, 0.441, 0.528, 0.621, 0.693, 0.745 and 0.800.
pub const RATIO_KEYS: [u64; 9] = [
    0xbfd0_51eb_851e_b852,
    0xbfd3_645a_1cac_0831,
    0xbfd7_0a3d_70a3_d70a,
    0xbfdc_3958_1062_4dd3,
    0xbfe0_e560_4189_374c,
    0xbfe3_df3b_645a_1cac,
    0xbfe6_2d0e_5604_1893,
    0xbfe7_d70a_3d70_a3d7,
    0xbfe9_9999_9999_999a,
];

/// Number of rows of Smith's table.
pub const TABLE_LEN: usize = 9;

/// Key of the ratio in row `i` of the table.
pub open spec fn table_ratio(i: int) -> u64 {
    RATIO_KEYS@[i]
}

/// The ratios of the table rise strictly from row to row.
pub proof fn lemma_table_strictly_increasing()
    ensures
        RATIO_KEYS@.len() == TABLE_LEN,
        forall|a: int, b: int| 0 <= a < b < TABLE_LEN ==> table_ratio(a) < table_ratio(b),
{
    assert(RATIO_KEYS@.len() == 9);
    assert(table_ratio(0) < table_ratio(1));
    assert(table_ratio(1) < table_ratio(2));
    assert(table_ratio(2) < table_ratio(3));
    assert(table_ratio(3) < table_ratio(4));
    assert(table_ratio(4) < table_ratio(5));
    assert(table_ratio(5) < table_ratio(6));
    assert(table_ratio(6) < table_ratio(7));
    assert(table_ratio(7) < table_ratio(8));
}

/// Smith's method gives up on a ratio below the first row or above the last
/// row of the table.  A NaN ratio (`None`) is not below nor above anything.
pub open spec fn spec_ratio_out_of_table(ratio: Option<u64>) -> bool {
    ratio matches Some(k) && (k < table_ratio(0) || k > table_ratio(TABLE_LEN - 1))
}

/// `(i0, i1)` are the rows between which `ratio` is interpolated: the row
/// that holds `ratio` itself, twice, when there is one; otherwise the two
/// neighbouring rows with `ratio` below the upper one and, unless the lower
/// one is the first row, above the lower one.
pub open spec fn is_table_bracket(ratio: u64, i0: int, i1: int) -> bool {
    &&& 0 <= i0 <= i1 < TABLE_LEN
    &&& if exists|i: int| 0 <= i < TABLE_LEN && table_ratio(i) == ratio {
        i0 == i1 && table_ratio(i0) == ratio
    } else {
        &&& i1 == i0 + 1
        &&& ratio < table_ratio(i1)
        &&& (i0 == 0 || table_ratio(i0) < ratio)
    }
}

/// Every time ratio that Smith's method accepts (one neither below the first
/// nor above the last row) can be looked up in the table, and the rows that
/// the lookup returns are unique and enclose the ratio.
pub proof fn lemma_accepted_ratio_is_bracketed(ratio: u64)
    requires
        !spec_ratio_out_of_table(Some(ratio)),
    ensures
        table_ratio(0) <= ratio <= table_ratio(TABLE_LEN - 1),
        forall|i0: int, i1: int|
            is_table_bracket(ratio, i0, i1) ==> table_ratio(i0) <= ratio <= table_ratio(i1),
        forall|i0: int, i1: int, j0: int, j1: int|
            is_table_bracket(ratio, i0, i1) && is_table_bracket(ratio, j0, j1) ==> i0 == j0
                && i1 == j1,
{
    lemma_table_strictly_increasing();
    assert forall|i0: int, i1: int|
        is_table_bracket(ratio, i0, i1) implies table_ratio(i0) <= ratio <= table_ratio(i1) by {
        if !(exists|i: int| 0 <= i < TABLE_LEN && table_ratio(i) == ratio) {
            if i0 == 0 {
                assert(table_ratio(0) != ratio);
            }
        }
    }
    assert forall|i0: int, i1: int, j0: int, j1: int|
        is_table_bracket(ratio, i0, i1) && is_table_bracket(ratio, j0, j1) implies i0 == j0
            && i1 == j1 by {
        if !(exists|i: int| 0 <= i < TABLE_LEN && table_ratio(i) == ratio) {
            assert(table_ratio(0) != ratio);
            if i0 < j0 {
                assert(table_ratio(i1) <= table_ratio(j0));
            } else if j0 < i0 {
                assert(table_ratio(j1) <= table_ratio(i0));
            }
        } else {
            if i0 < j0 {
                assert(table_ratio(i0) < table_ratio(j0));
            } else if j0 < i0 {
                assert(table_ratio(j0) < table_ratio(i0));
            }
        }
    }
}

/// Smith's second-order method: the times at 2 %, 20 % and 60 % of the final
/// value give the dead time and, through the table, the damping ratio and the
/// natural frequency.
pub struct Smith;

impl Smith {
    /// Whether the method gives up on the time ratio whose key is `ratio`
    /// (`None` for a NaN ratio).
    pub fn ratio_out_of_table(ratio: Option<u64>) -> (r: bool)
        ensures
            r == spec_ratio_out_of_table(ratio),
    {
        match ratio {
            Some(k) => k < RATIO_KEYS[0] || k > RATIO_KEYS[TABLE_LEN - 1],
            None => false,
        }
    }

    /// Rows of the table between which the ratio whose key is `ratio` is
    /// interpolated.  Ratios above the last row have no rows.
    pub fn table_indexes(ratio: u64) -> (r: (usize, usize))
        requires
            ratio <= table_ratio(TABLE_LEN - 1),
        ensures
            is_table_bracket(ratio, r.0 as int, r.1 as int),
    {
        proof {
            lemma_table_strictly_increasing();
        }
        let mut i: usize = 0;
        while i < TABLE_LEN
            invariant
                i <= TABLE_LEN,
                ratio <= table_ratio(TABLE_LEN - 1),
                RATIO_KEYS@.len() == TABLE_LEN,
                forall|a: int, b: int| 0 <= a < b < TABLE_LEN ==> table_ratio(a) < table_ratio(b),
                forall|j: int| 0 <= j < i ==> table_ratio(j) != ratio,
                forall|j: int| 1 <= j < i ==> table_ratio(j) < ratio,
            decreases TABLE_LEN - i,
        {
            let entry = RATIO_KEYS[i];
            if ratio == entry {
                return (i, i);
            }
            if i > 0 && ratio < entry {
                assert forall|j: int| 0 <= j < TABLE_LEN implies table_ratio(j) != ratio by {
                    if j > i {
                        assert(table_ratio(i as int) < table_ratio(j));
                    }
                }
                return (i - 1, i);
            }
            i = i + 1;
        }
        assert(table_ratio(TABLE_LEN - 1) < ratio);
        (TABLE_LEN - 1, TABLE_LEN - 1)
    }
}

} // verus!
