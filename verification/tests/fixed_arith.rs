use sim::fixed::{HALF_SCALE, SCALE};
use sim::Fixed;

fn fx(raw: i64) -> Fixed {
    Fixed { raw }
}

#[test]
fn scale_is_one_billion() {
    assert_eq!(SCALE, 1_000_000_000);
    assert_eq!(HALF_SCALE * 2, SCALE);
}

#[test]
fn named_constants() {
    assert_eq!(Fixed::zero(), fx(0));
    assert_eq!(Fixed::one(), fx(1_000_000_000));
    assert_eq!(Fixed::half(), fx(500_000_000));
}

#[test]
fn add_is_exact_inside_the_range() {
    assert_eq!(fx(1_500_000_000).saturating_add(fx(-250_000_000)), fx(1_250_000_000));
    assert_eq!(fx(0).saturating_add(fx(7)), fx(7));
    assert_eq!(fx(i64::MAX - 1).saturating_add(fx(1)), fx(i64::MAX));
    assert_eq!(fx(i64::MIN + 1).saturating_add(fx(-1)), fx(i64::MIN));
}

#[test]
fn add_saturates_at_both_bounds() {
    assert_eq!(fx(i64::MAX).saturating_add(fx(1)), fx(i64::MAX));
    assert_eq!(fx(i64::MAX).saturating_add(fx(i64::MAX)), fx(i64::MAX));
    assert_eq!(fx(i64::MIN).saturating_add(fx(-1)), fx(i64::MIN));
    assert_eq!(fx(i64::MIN).saturating_add(fx(i64::MIN)), fx(i64::MIN));
    assert_eq!(fx(i64::MIN).saturating_add(fx(i64::MAX)), fx(-1));
}

#[test]
fn sub_is_exact_inside_the_range() {
    assert_eq!(fx(30_190_000_000).saturating_sub(fx(190_000_000)), fx(30_000_000_000));
    assert_eq!(fx(0).saturating_sub(fx(9_810_000_000)), fx(-9_810_000_000));
    assert_eq!(fx(-1).saturating_sub(fx(i64::MAX)), fx(i64::MIN));
}

#[test]
fn sub_saturates_at_both_bounds() {
    assert_eq!(fx(i64::MIN).saturating_sub(fx(1)), fx(i64::MIN));
    assert_eq!(fx(i64::MAX).saturating_sub(fx(-1)), fx(i64::MAX));
    assert_eq!(fx(0).saturating_sub(fx(i64::MIN)), fx(i64::MAX));
    assert_eq!(fx(i64::MAX).saturating_sub(fx(i64::MIN)), fx(i64::MAX));
}

#[test]
fn mul_of_exact_decimals() {
    // 40 * 1 = 40
    assert_eq!(fx(40_000_000_000).saturating_mul(fx(1_000_000_000)), fx(40_000_000_000));
    // 0.01 * 0.01 = 0.0001
    assert_eq!(fx(10_000_000).saturating_mul(fx(10_000_000)), fx(100_000));
    // 0.5 * 0.0001 = 0.00005
    assert_eq!(fx(500_000_000).saturating_mul(fx(100_000)), fx(50_000));
    // 30.19 * 0.01 = 0.3019
    assert_eq!(fx(30_190_000_000).saturating_mul(fx(10_000_000)), fx(301_900_000));
    // -2.5 * 4 = -10
    assert_eq!(fx(-2_500_000_000).saturating_mul(fx(4_000_000_000)), fx(-10_000_000_000));
    // -3 * -3 = 9
    assert_eq!(fx(-3_000_000_000).saturating_mul(fx(-3_000_000_000)), fx(9_000_000_000));
}

#[test]
fn mul_by_one_is_the_identity() {
    let samples: [i64; 7] = [0, 1, -1, 123_456_789_012, -987_654_321, i64::MAX, i64::MIN];
    for raw in samples {
        assert_eq!(fx(raw).saturating_mul(Fixed::one()), fx(raw));
        assert_eq!(Fixed::one().saturating_mul(fx(raw)), fx(raw));
    }
}

#[test]
fn mul_by_zero_is_zero() {
    let samples: [i64; 5] = [0, 1, -1, i64::MAX, i64::MIN];
    for raw in samples {
        assert_eq!(fx(raw).saturating_mul(Fixed::zero()), fx(0));
        assert_eq!(Fixed::zero().saturating_mul(fx(raw)), fx(0));
    }
}

#[test]
fn mul_rounds_to_nearest() {
    // 1.4 counts round down, 1.6 counts round up.
    assert_eq!(fx(1_400_000_000).saturating_mul(fx(1)), fx(1));
    assert_eq!(fx(1_600_000_000).saturating_mul(fx(1)), fx(2));
    assert_eq!(fx(-1_400_000_000).saturating_mul(fx(1)), fx(-1));
    assert_eq!(fx(-1_600_000_000).saturating_mul(fx(1)), fx(-2));
    // Less than half a count vanishes.
    assert_eq!(fx(499_999_999).saturating_mul(fx(1)), fx(0));
    assert_eq!(fx(-499_999_999).saturating_mul(fx(1)), fx(0));
    assert_eq!(fx(10_000).saturating_mul(fx(10_000)), fx(0));
}

#[test]
fn mul_rounds_ties_away_from_zero() {
    assert_eq!(fx(1).saturating_mul(Fixed::half()), fx(1));
    assert_eq!(fx(-1).saturating_mul(Fixed::half()), fx(-1));
    assert_eq!(fx(3).saturating_mul(Fixed::half()), fx(2));
    assert_eq!(fx(-3).saturating_mul(Fixed::half()), fx(-2));
    assert_eq!(fx(2).saturating_mul(Fixed::half()), fx(1));
    assert_eq!(fx(1_500_000_000).saturating_mul(fx(-1)), fx(-2));
}

#[test]
fn mul_commutes() {
    let samples: [i64; 6] = [3, -7, 1_234_567_891, -999_999_999, 40_000_000_000, i64::MIN];
    for a in samples {
        for b in samples {
            assert_eq!(fx(a).saturating_mul(fx(b)), fx(b).saturating_mul(fx(a)));
        }
    }
}

#[test]
fn mul_saturates_at_both_bounds() {
    let two: Fixed = fx(2_000_000_000);
    assert_eq!(fx(i64::MAX).saturating_mul(two), fx(i64::MAX));
    assert_eq!(fx(i64::MIN).saturating_mul(two), fx(i64::MIN));
    assert_eq!(fx(i64::MAX).saturating_mul(fx(-2_000_000_000)), fx(i64::MIN));
    assert_eq!(fx(i64::MIN).saturating_mul(fx(i64::MIN)), fx(i64::MAX));
    assert_eq!(fx(i64::MIN).saturating_mul(fx(i64::MAX)), fx(i64::MIN));
    assert_eq!(fx(i64::MAX).saturating_mul(fx(i64::MAX)), fx(i64::MAX));
}

#[test]
fn mul_just_inside_the_range() {
    // i64::MAX counts times one half: 4611686018427387903.5 counts, rounded away from zero.
    assert_eq!(fx(i64::MAX).saturating_mul(Fixed::half()), fx(4_611_686_018_427_387_904));
    assert_eq!(fx(i64::MIN).saturating_mul(Fixed::half()), fx(-4_611_686_018_427_387_904));
    assert_eq!(fx(i64::MIN).saturating_mul(fx(-1_000_000_000)), fx(i64::MAX));
}

#[test]
fn max_picks_the_larger() {
    assert_eq!(fx(3).max(fx(5)), fx(5));
    assert_eq!(fx(5).max(fx(3)), fx(5));
    assert_eq!(fx(-5).max(fx(0)), fx(0));
    assert_eq!(fx(4).max(fx(4)), fx(4));
    assert_eq!(fx(i64::MIN).max(fx(i64::MAX)), fx(i64::MAX));
}

#[test]
fn clamp_limits_to_the_interval() {
    let lo: Fixed = Fixed::zero();
    let hi: Fixed = Fixed::one();
    assert_eq!(fx(1_500_000_000).clamp(lo, hi), hi);
    assert_eq!(fx(-500_000_000).clamp(lo, hi), lo);
    assert_eq!(fx(240_000_000).clamp(lo, hi), fx(240_000_000));
    assert_eq!(lo.clamp(lo, hi), lo);
    assert_eq!(hi.clamp(lo, hi), hi);
    assert_eq!(fx(i64::MAX).clamp(lo, hi), hi);
    assert_eq!(fx(i64::MIN).clamp(lo, hi), lo);
}

#[test]
fn clamp_with_crossed_bounds_prefers_the_lower_bound() {
    let lo: Fixed = fx(10);
    let hi: Fixed = fx(0);
    assert_eq!(fx(5).clamp(lo, hi), lo);
    assert_eq!(fx(-5).clamp(lo, hi), lo);
    assert_eq!(fx(20).clamp(lo, hi), hi);
}
