//! Tests of half-up rounding and of decimal truncation — the two
//! distinct numeric steps of every formula.

use aqi::{round, round_fallback, trunc};

#[test]
fn test_round() {
    assert_eq!(round(45, 10), 5);
    assert_eq!(round(1233, 10), 123);
    assert_eq!(round(849, 10), 85);
}

#[test]
fn round_ties_go_up() {
    // 4.5 rounds to 5, 3.5 rounds to 4: away from zero, never to even.
    assert_eq!(round(9, 2), 5);
    assert_eq!(round(7, 2), 4);
    assert_eq!(round(845, 10), 85);
    assert_eq!(round(835, 10), 84);
}

#[test]
fn round_paths_agree() {
    let cases: [(u64, u64); 8] = [
        (45, 10),
        (1233, 10),
        (849, 10),
        (9, 2),
        (7, 2),
        (0, 3),
        (21536, 233),
        (157_754, 949),
    ];
    for (num, den) in cases.iter() {
        assert_eq!(round(*num, *den), round_fallback(*num, *den));
    }
}

#[test]
fn trunc_discards_instead_of_rounding() {
    // 12.3499 truncated to one decimal place is 12.3, not 12.4.
    assert_eq!(trunc(123_499, 1), 123);
    // Even 12.35, which rounding would carry up, truncates to 12.3.
    assert_eq!(trunc(123_500, 1), 123);
}

#[test]
fn trunc_scales() {
    assert_eq!(trunc(129_999, 0), 12);
    assert_eq!(trunc(540, 3), 54);
    assert_eq!(trunc(123_456, 2), 1234);
    assert_eq!(trunc(123_456, 4), 123_456);
}
