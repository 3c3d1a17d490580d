use sysident::identification::first_order::closest_index;
use sysident::identification::first_order::hagglund::Hagglund;
use sysident::identification::first_order::krishnaswamy::Krishnaswamy;
use sysident::identification::first_order::smith::Smith as Smith1;
use sysident::identification::first_order::sundaresan::Sundaresan;
use sysident::identification::first_order::ziegler_nichols::ZieglerNichols;
use sysident::identification::second_order::mollenkamp::Mollenkamp;
use sysident::identification::second_order::smith::{Smith as Smith2, RATIO_KEYS, TABLE_LEN};
use sysident::line_equation::steepest_point;
use sysident::order_key::{magnitude, INFINITY_KEY, ZERO_KEY};

/// Order key of a double, `None` for NaN.
fn key(x: f64) -> Option<u64> {
    if x.is_nan() {
        return None;
    }
    let x = if x == 0.0 { 0.0 } else { x };
    let bits = x.to_bits();
    if bits >> 63 == 1 {
        Some(!bits)
    } else {
        Some(bits | (1u64 << 63))
    }
}

fn distances(values: &[f64], target: f64) -> Vec<Option<u64>> {
    values.iter().map(|v| key((v - target).abs())).collect()
}

fn slope_keys(slopes: &[f64]) -> Vec<Option<u64>> {
    slopes.iter().map(|s| key(*s)).collect()
}

#[test]
fn key_constants() {
    assert_eq!(key(0.0), Some(ZERO_KEY));
    assert_eq!(key(-0.0), Some(ZERO_KEY));
    assert_eq!(key(f64::INFINITY), Some(INFINITY_KEY));
    let ratios = [0.255, 0.303, 0.360, 0.441, 0.528, 0.621, 0.693, 0.745, 0.800];
    assert_eq!(RATIO_KEYS.len(), TABLE_LEN);
    for (r, k) in ratios.iter().zip(RATIO_KEYS.iter()) {
        assert_eq!(key(*r), Some(*k));
    }
}

#[test]
fn key_order_follows_number_order() {
    let xs = [f64::NEG_INFINITY, -3.5, -1.0, -1e-300, 0.0, 1e-300, 0.25, 1.0, 7.0, f64::INFINITY];
    for a in xs.iter() {
        for b in xs.iter() {
            assert_eq!(a < b, key(*a).unwrap() < key(*b).unwrap());
            assert_eq!(a == b, key(*a).unwrap() == key(*b).unwrap());
        }
    }
}

#[test]
fn magnitude_of_keys() {
    assert_eq!(magnitude(key(-2.5).unwrap()), key(2.5).unwrap());
    assert_eq!(magnitude(key(3.0).unwrap()), key(3.0).unwrap());
    assert_eq!(magnitude(key(0.0).unwrap()), ZERO_KEY);
    assert_eq!(magnitude(key(f64::NEG_INFINITY).unwrap()), INFINITY_KEY);
}

#[test]
fn closest_picks_nearest_sample() {
    let values = [0.0, 0.2, 0.45, 0.7, 1.0];
    assert_eq!(closest_index(&distances(&values, 0.5)), Some(2));
    assert_eq!(closest_index(&distances(&values, 0.9)), Some(4));
    assert_eq!(closest_index(&distances(&values, -5.0)), Some(0));
}

#[test]
fn closest_prefers_first_on_ties() {
    let values = [0.0, 0.4, 0.6, 0.4];
    assert_eq!(closest_index(&distances(&values, 0.5)), Some(1));
}

#[test]
fn closest_exact_hit_is_first_hit() {
    let values = [0.1, 0.5, 0.3, 0.5];
    assert_eq!(closest_index(&distances(&values, 0.5)), Some(1));
}

#[test]
fn closest_skips_nan_and_infinite() {
    let d = vec![None, key(f64::INFINITY), key(2.0), None, key(1.0)];
    assert_eq!(closest_index(&d), Some(4));
}

#[test]
fn closest_finds_nothing() {
    assert_eq!(closest_index(&vec![]), None);
    assert_eq!(closest_index(&vec![None, None]), None);
    assert_eq!(closest_index(&vec![key(f64::INFINITY), None]), None);
}

#[test]
fn steepest_point_by_magnitude() {
    // slopes at samples 1, 2, 3, 4
    assert_eq!(steepest_point(&slope_keys(&[1.0, -3.0, 2.0, 3.0])), 2);
    assert_eq!(steepest_point(&slope_keys(&[0.5, 1.5, 4.0, 2.0])), 3);
}

#[test]
fn steepest_point_ignores_sign() {
    let rising = slope_keys(&[0.5, 1.5, 4.0, 2.0]);
    let falling = slope_keys(&[-0.5, -1.5, -4.0, -2.0]);
    assert_eq!(steepest_point(&rising), steepest_point(&falling));
}

#[test]
fn steepest_point_defaults_to_first_sample() {
    assert_eq!(steepest_point(&vec![]), 0);
    assert_eq!(steepest_point(&slope_keys(&[0.0, -0.0, 0.0])), 0);
    assert_eq!(steepest_point(&vec![None, None]), 0);
}

#[test]
fn steepest_point_skips_nan() {
    assert_eq!(steepest_point(&vec![key(1.0), None, key(-2.0)]), 3);
}

#[test]
fn table_indexes_on_rows() {
    assert_eq!(Smith2::table_indexes(key(0.255).unwrap()), (0, 0));
    assert_eq!(Smith2::table_indexes(key(0.441).unwrap()), (3, 3));
    assert_eq!(Smith2::table_indexes(key(0.800).unwrap()), (8, 8));
}

#[test]
fn table_indexes_between_rows() {
    assert_eq!(Smith2::table_indexes(key(0.3).unwrap()), (0, 1));
    assert_eq!(Smith2::table_indexes(key(0.5).unwrap()), (3, 4));
    assert_eq!(Smith2::table_indexes(key(0.79).unwrap()), (7, 8));
    assert_eq!(Smith2::table_indexes(key(0.7).unwrap()), (6, 7));
}

#[test]
fn table_indexes_below_first_row() {
    assert_eq!(Smith2::table_indexes(key(0.1).unwrap()), (0, 1));
    assert_eq!(Smith2::table_indexes(key(-1.0).unwrap()), (0, 1));
}

#[test]
fn accepted_ratios_are_enclosed() {
    let mut r = 0.255;
    while r <= 0.8 {
        let k = key(r);
        assert!(!Smith2::ratio_out_of_table(k));
        let (i0, i1) = Smith2::table_indexes(k.unwrap());
        assert!(RATIO_KEYS[i0] <= k.unwrap() && k.unwrap() <= RATIO_KEYS[i1]);
        r += 0.001;
    }
}

#[test]
fn ratio_out_of_table() {
    assert!(Smith2::ratio_out_of_table(key(0.25)));
    assert!(Smith2::ratio_out_of_table(key(0.824)));
    assert!(Smith2::ratio_out_of_table(key(-0.5)));
    assert!(!Smith2::ratio_out_of_table(key(0.255)));
    assert!(!Smith2::ratio_out_of_table(key(0.8)));
    assert!(!Smith2::ratio_out_of_table(key(0.5)));
    assert!(!Smith2::ratio_out_of_table(None));
}

#[test]
fn krishnaswamy_is_sundaresan() {
    let mut k = Krishnaswamy(Sundaresan);
    let _inner: &Sundaresan = k.as_ref();
    let _inner_mut: &mut Sundaresan = k.as_mut();
    let _methods = (Hagglund, Smith1, ZieglerNichols, Mollenkamp, Smith2);
}
