//! Tests of the 256-bit integer: construction, comparison, carrying addition.

use buy_me_a_coffee::u256::U256;

#[test]
fn zero_and_from_u64() {
    assert_eq!(U256::zero(), U256::from_u64(0));
    assert!(U256::zero().is_zero());
    assert!(!U256::from_u64(1).is_zero());
    assert_eq!(U256::from_u64(42), U256::from_limbs(42, 0, 0, 0));
}

#[test]
fn high_limbs_are_not_zero() {
    assert!(!U256::from_limbs(0, 1, 0, 0).is_zero());
    assert!(!U256::from_limbs(0, 0, 1, 0).is_zero());
    assert!(!U256::from_limbs(0, 0, 0, 1).is_zero());
}

#[test]
fn add_small() {
    let a = U256::from_u64(1500000000000000);
    let b = U256::from_u64(3000000000000000);
    assert_eq!(a.add(&b), U256::from_u64(4500000000000000));
}

#[test]
fn add_carries_across_limbs() {
    let max = u64::MAX;
    // Carry out of the lowest limb.
    assert_eq!(
        U256::from_limbs(max, 0, 0, 0).add(&U256::from_u64(1)),
        U256::from_limbs(0, 1, 0, 0)
    );
    // A carry that ripples through three full limbs.
    assert_eq!(
        U256::from_limbs(max, max, max, 0).add(&U256::from_u64(1)),
        U256::from_limbs(0, 0, 0, 1)
    );
    // Carry into the middle of the number.
    assert_eq!(
        U256::from_limbs(max, 1, 0, 0).add(&U256::from_limbs(1, 2, 0, 0)),
        U256::from_limbs(0, 4, 0, 0)
    );
}

#[test]
fn lt_orders_by_value() {
    let small = U256::from_u64(999999999999999);
    let min = U256::from_u64(1000000000000000);
    assert!(small.lt(&min));
    assert!(!min.lt(&small));
    assert!(!min.lt(&min));

    // A higher limb outweighs any lower ones.
    let high = U256::from_limbs(0, 0, 0, 1);
    let low = U256::from_limbs(u64::MAX, u64::MAX, u64::MAX, 0);
    assert!(low.lt(&high));
    assert!(!high.lt(&low));
}
