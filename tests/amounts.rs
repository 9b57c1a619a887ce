use pay_as_you_go::counter::Counter;
use pay_as_you_go::uint::U256;

const MAX: U256 = U256 { limbs: [u64::MAX; 4] };

#[test]
fn checked_add_carries_and_overflows() {
    let a = U256 { limbs: [u64::MAX, u64::MAX, 0, 0] };
    assert_eq!(a.checked_add(U256::from_u64(1)), Some(U256 { limbs: [0, 0, 1, 0] }));
    assert_eq!(MAX.checked_add(U256::from_u64(1)), None);
    assert_eq!(MAX.checked_add(U256::zero()), Some(MAX));
}

#[test]
fn checked_sub_borrows_and_refuses() {
    let a = U256 { limbs: [0, 0, 1, 0] };
    assert_eq!(a.checked_sub(U256::from_u64(1)), Some(U256 { limbs: [u64::MAX, u64::MAX, 0, 0] }));
    assert_eq!(U256::from_u64(3).checked_sub(U256::from_u64(4)), None);
}

#[test]
fn wrapping_ops() {
    assert_eq!(MAX.wrapping_add(U256::from_u64(2)), U256::from_u64(1));
    assert_eq!(MAX.wrapping_mul(MAX), U256::from_u64(1));
    let two64 = U256 { limbs: [0, 1, 0, 0] };
    assert_eq!(two64.wrapping_mul(two64), U256 { limbs: [0, 0, 1, 0] });
}

#[test]
fn is_zero_looks_at_every_limb() {
    assert!(U256::zero().is_zero());
    assert!(!U256 { limbs: [0, 0, 0, 1] }.is_zero());
}

#[test]
fn counter_operations() {
    let mut c = Counter::new();
    assert_eq!(c.number(), U256::zero());
    c.set_number(U256::from_u64(6));
    c.add_number(U256::from_u64(4));
    assert_eq!(c.number(), U256::from_u64(10));
    c.mul_number(U256::from_u64(7));
    assert_eq!(c.number(), U256::from_u64(70));
    c.increment();
    assert_eq!(c.number(), U256::from_u64(71));
}

#[test]
fn counter_increment_wraps() {
    let mut c = Counter::new();
    c.set_number(MAX);
    c.increment();
    assert_eq!(c.number(), U256::zero());
}
