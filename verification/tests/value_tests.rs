use rwtrace::snippets::{host_env_blobbasefee, stack_push_u256, u256_from_be_slice};
use rwtrace::u256::U256;

#[test]
fn u256_checked_add_carries_across_limbs() {
    let a = U256 { limbs: [u64::MAX, 0, 0, 0] };
    let b = U256::from_u64(1);
    let c = a.checked_add(&b).unwrap();
    assert_eq!(c, U256 { limbs: [0, 1, 0, 0] });
}

#[test]
fn u256_checked_add_detects_overflow() {
    let a = U256 { limbs: [u64::MAX, u64::MAX, u64::MAX, u64::MAX] };
    assert_eq!(a.checked_add(&U256::from_u64(1)), None);
    assert_eq!(a.checked_add(&U256::zero()), Some(a));
}

#[test]
fn u256_checked_sub_borrows_across_limbs() {
    let a = U256 { limbs: [0, 1, 0, 0] };
    let b = U256::from_u64(1);
    let c = a.checked_sub(&b).unwrap();
    assert_eq!(c, U256 { limbs: [u64::MAX, 0, 0, 0] });
    assert_eq!(b.checked_sub(&a), None);
}

#[test]
fn u256_saturating_arithmetic_clamps() {
    let max = U256 { limbs: [u64::MAX, u64::MAX, u64::MAX, u64::MAX] };
    assert_eq!(max.saturating_add(&U256::from_u64(5)), max);
    assert_eq!(U256::from_u64(3).saturating_sub(&U256::from_u64(7)), U256::zero());
    assert_eq!(U256::from_u64(7).saturating_sub(&U256::from_u64(3)), U256::from_u64(4));
}

#[test]
fn u256_comparison_orders_by_value() {
    let small = U256 { limbs: [u64::MAX, 0, 0, 0] };
    let big = U256 { limbs: [0, 0, 0, 1] };
    assert!(small.lt(&big));
    assert!(!big.lt(&small));
    assert!(!small.lt(&small));
    assert!(small.eq_value(&small));
    assert!(!small.eq_value(&big));
}

#[test]
fn u256_le_bytes_round_trip() {
    let a = U256 { limbs: [0x0102030405060708, 9, 10, 0xf0e0d0c0b0a09080] };
    let bytes = a.to_le_bytes();
    assert_eq!(bytes.len(), 32);
    assert_eq!(bytes[0], 8);
    assert_eq!(bytes[7], 1);
    assert_eq!(bytes[8], 9);
    let b = U256::from_le_bytes(&bytes);
    assert_eq!(a, b);
}

#[test]
fn u256_from_be_slice_reads_big_endian() {
    assert_eq!(u256_from_be_slice(&[1, 2]), U256::from_u64(258));
    assert_eq!(u256_from_be_slice(&[]), U256::zero());
    let full = [0xffu8; 32];
    assert_eq!(
        u256_from_be_slice(&full),
        U256 { limbs: [u64::MAX, u64::MAX, u64::MAX, u64::MAX] }
    );
}

#[test]
fn blobbasefee_pushes_zero() {
    let mut stack: Vec<U256> = Vec::new();
    stack_push_u256(&mut stack, U256::from_u64(3));
    host_env_blobbasefee(&mut stack);
    assert_eq!(stack.len(), 2);
    assert_eq!(stack[0], U256::from_u64(3));
    assert_eq!(stack[1], U256::zero());
}
