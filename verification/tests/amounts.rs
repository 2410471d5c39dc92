use gas_donator::wei::{min_top_up, Wei};

fn limbs_of(w: &Wei) -> [u64; 4] {
    w.limbs()
}

#[test]
fn from_u128_splits_into_limbs() {
    let w = Wei::from_u128((7u128 << 64) | 9);
    assert_eq!(limbs_of(&w), [9, 7, 0, 0]);
}

#[test]
fn from_limbs_round_trips() {
    let w = Wei::from_limbs([1, 2, 3, 4]);
    assert_eq!(w.limbs(), [1, 2, 3, 4]);
}

#[test]
fn comparison_reads_high_limbs_first() {
    let small = Wei::from_limbs([u64::MAX, 0, 0, 0]);
    let big = Wei::from_limbs([0, 1, 0, 0]);
    assert!(small.lt(&big));
    assert!(!big.lt(&small));
    assert!(!big.lt(&big));
}

#[test]
fn zero_is_not_positive() {
    assert!(!Wei::zero().is_positive());
    assert!(Wei::from_u64(1).is_positive());
    assert!(Wei::from_limbs([0, 0, 0, 1]).is_positive());
}

#[test]
fn multiplication_is_exact_below_the_modulus() {
    let p = Wei::from_u64(3).wrapping_mul(&Wei::from_u64(5));
    assert_eq!(p.limbs(), [15, 0, 0, 0]);
    let q = Wei::from_u64(u64::MAX).wrapping_mul(&Wei::from_u64(u64::MAX));
    // (2^64 - 1)^2 = 2^128 - 2^65 + 1
    assert_eq!(q.limbs(), [1, u64::MAX - 1, 0, 0]);
}

#[test]
fn multiplication_wraps_at_the_modulus() {
    let half = Wei::from_limbs([0, 0, 1, 0]); // 2^128
    let p = half.wrapping_mul(&half);
    assert_eq!(p.limbs(), [0, 0, 0, 0]);
}

#[test]
fn saturating_sub_stops_at_zero() {
    let a = Wei::from_u64(7);
    let b = Wei::from_u64(5);
    assert_eq!(a.saturating_sub(&b).limbs(), [2, 0, 0, 0]);
    assert_eq!(b.saturating_sub(&a).limbs(), [0, 0, 0, 0]);
    let borrow = Wei::from_limbs([0, 1, 0, 0]).saturating_sub(&Wei::from_u64(1));
    assert_eq!(borrow.limbs(), [u64::MAX, 0, 0, 0]);
}

#[test]
fn min_top_up_is_ten_gwei() {
    let dust = min_top_up();
    assert_eq!(dust.limbs(), [10_000_000_000, 0, 0, 0]);
}
