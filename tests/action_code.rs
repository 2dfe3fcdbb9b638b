use rurel::action_code::{decode_action_index, is_greater, is_nan_pattern};

fn bits(v: &[f32]) -> Vec<u32> {
    v.iter().map(|x| x.to_bits()).collect()
}

#[test]
fn decode_picks_largest_score() {
    assert_eq!(decode_action_index(&bits(&[0.1, 0.7, 0.2, 0.3])), 1);
    assert_eq!(decode_action_index(&bits(&[0.0, 0.0, 0.0, 1.0])), 3);
}

#[test]
fn decode_first_maximum_wins_on_ties() {
    assert_eq!(decode_action_index(&bits(&[0.2, 0.9, 0.9, 0.1])), 1);
    assert_eq!(decode_action_index(&bits(&[1.0, 1.0, 1.0, 1.0])), 0);
}

#[test]
fn decode_all_zero_row_is_index_zero() {
    assert_eq!(decode_action_index(&bits(&[0.0, 0.0, 0.0, 0.0])), 0);
    assert_eq!(decode_action_index(&bits(&[-0.0, 0.0, -0.0, 0.0])), 0);
}

#[test]
fn decode_negative_scores_pick_the_largest() {
    assert_eq!(decode_action_index(&bits(&[-3.0, -1.0, -2.0])), 1);
    assert_eq!(decode_action_index(&bits(&[-3.0, -1.0, 0.5])), 2);
    assert_eq!(decode_action_index(&bits(&[-1.0, -1.0])), 0);
}

#[test]
fn decode_never_picks_nan() {
    assert_eq!(decode_action_index(&bits(&[0.4, f32::NAN, 0.2])), 0);
    assert_eq!(decode_action_index(&bits(&[0.1, f32::NAN, 0.2])), 2);
    assert_eq!(decode_action_index(&bits(&[-5.0, -f32::NAN, f32::NAN])), 0);
}

#[test]
fn decode_passes_over_nan_in_first_place() {
    assert_eq!(decode_action_index(&bits(&[f32::NAN, 0.3, 7.0])), 2);
    assert_eq!(decode_action_index(&bits(&[f32::NAN, -2.0, -1.0])), 2);
    assert_eq!(decode_action_index(&bits(&[f32::NAN, f32::NAN, -4.0])), 2);
}

#[test]
fn decode_row_of_only_nan_is_index_zero() {
    assert_eq!(decode_action_index(&bits(&[f32::NAN, f32::NAN])), 0);
}

#[test]
fn decode_agrees_with_a_plain_float_scan() {
    let rows: [[f32; 4]; 6] = [
        [0.25, 0.5, 0.125, 0.5],
        [-0.0, 0.0, 0.0, -0.0],
        [-2.0, -8.0, -1.5, -1.5],
        [3.0, f32::INFINITY, f32::INFINITY, 1.0],
        [f32::NEG_INFINITY, f32::NEG_INFINITY, -1e30, 0.0],
        [1e-45, 0.0, 2e-45, 2e-45],
    ];
    for row in rows.iter() {
        let mut best = 0;
        for i in 1..row.len() {
            if row[i] > row[best] {
                best = i;
            }
        }
        assert_eq!(decode_action_index(&bits(row)), best, "{:?}", row);
    }
}

#[test]
fn decode_handles_infinities() {
    assert_eq!(decode_action_index(&bits(&[1.0, f32::INFINITY, 3.0])), 1);
    assert_eq!(decode_action_index(&bits(&[f32::NEG_INFINITY, 0.25])), 1);
}

#[test]
fn decode_empty_row_is_index_zero() {
    assert_eq!(decode_action_index(&[]), 0);
}

#[test]
fn decode_smallest_positive_subnormal_beats_zero() {
    let tiny = f32::from_bits(1);
    assert_eq!(decode_action_index(&bits(&[0.0, tiny])), 1);
}

#[test]
fn is_greater_agrees_with_float_comparison() {
    let values = [
        0.0f32,
        -0.0,
        1.0,
        -1.0,
        0.5,
        -0.5,
        1e-40,
        -1e-40,
        3.4e38,
        -3.4e38,
        f32::INFINITY,
        f32::NEG_INFINITY,
        f32::NAN,
        -f32::NAN,
        f32::from_bits(0x7fc0_0001),
    ];
    for a in values.iter() {
        for b in values.iter() {
            assert_eq!(is_greater(a.to_bits(), b.to_bits()), a > b, "{} > {}", a, b);
        }
    }
}

#[test]
fn is_nan_pattern_agrees_with_float_nan() {
    let values = [0.0f32, -0.0, 1.0, f32::INFINITY, f32::NEG_INFINITY, f32::NAN, -f32::NAN];
    for v in values.iter() {
        assert_eq!(is_nan_pattern(v.to_bits()), v.is_nan());
    }
    assert!(is_nan_pattern(0x7f80_0001));
    assert!(is_nan_pattern(0xffff_ffff));
    assert!(!is_nan_pattern(0x7f80_0000));
}
