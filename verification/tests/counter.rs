use wrapped_num::WrappedNum;

#[test]
fn can_create_wrapped_num() {
    let _ = WrappedNum::new(0u8);
}

#[test]
fn returns_number_value() {
    let wn = WrappedNum::new(123u8);
    assert_eq!(123u8, wn.get());
}

#[test]
fn can_wrapped_add() {
    let mut wn = WrappedNum::new(200u8);
    wn.wrapping_add(70u8);
    assert_eq!(14u8, wn.get());
}

#[test]
fn non_wrapped_cmp_works_gt() {
    let left = WrappedNum::new(100u8);
    let mut right = WrappedNum::new(90u8);
    right.wrapping_add(20u8);
    assert!(left < right);
}

#[test]
fn non_wrapped_cmp_works_eq() {
    let left = WrappedNum::new(100u8);
    let mut right = WrappedNum::new(90u8);
    right.wrapping_add(10u8);
    assert!(left == right);
}

#[test]
fn wrapped_cmp_works() {
    let left = WrappedNum::new(200u8);
    let mut right = WrappedNum::new(200u8);
    right.wrapping_add(100u8);
    assert_eq!(44, right.get());
    assert!(left.get() > right.get());
    assert!(left < right);
}

#[test]
fn non_wrapped_negative_cmp_works() {
    let left = WrappedNum::new(-100i8);
    let mut right = WrappedNum::new(-100i8);

    right.wrapping_add(-10i8);
    assert!(left.get() > right.get());
    assert!(left > right);
}

#[test]
fn wrapped_negative_cmp_works() {
    let left = WrappedNum::new(-100i8);
    let mut right = WrappedNum::new(-100i8);

    right.wrapping_add(-100i8);
    assert!(left.get() < right.get());
    assert!(left > right);
}

#[test]
fn wrapping_sub_works() {
    let left = WrappedNum::new(100u8);
    let mut right = WrappedNum::new(100u8);

    right.wrapping_sub(10);
    assert!(left > right);
}

#[test]
fn wrapping_sub_works_opposite() {
    let left = WrappedNum::new(100i8);
    let mut right = WrappedNum::new(100i8);

    right.wrapping_sub(-10);
    assert!(left < right);
}

#[test]
fn repeated_get_returns_same_value() {
    let wn = WrappedNum::new(91u32);
    assert_eq!(91u32, wn.get());
    assert_eq!(91u32, wn.get());
    assert_eq!(wn.get(), wn.get());
}

#[test]
fn new_counter_equals_new_counter() {
    assert!(WrappedNum::new(57i64) == WrappedNum::new(57i64));
    assert!(WrappedNum::new(-3i64) < WrappedNum::new(57i64));
}

#[test]
fn upward_wrap_scenario_u8() {
    let mut wn = WrappedNum::new(200u8);
    wn.wrapping_add(70u8);
    assert_eq!(14u8, wn.get());
    // Same raw value, but one upward wrap recorded: unequal, and greater.
    let fresh = WrappedNum::new(14u8);
    assert!(wn != fresh);
    assert!(wn > fresh);
}

#[test]
fn single_wrap_round_trip() {
    let mut wn = WrappedNum::new(200u8);
    wn.wrapping_add(70u8);
    wn.wrapping_sub(70u8);
    assert_eq!(200u8, wn.get());
    // One wrap up, one wrap back down: the offset is level again.
    assert!(wn == WrappedNum::new(200u8));
}

#[test]
fn downward_wrap_unsigned_compares_less() {
    let mut wn = WrappedNum::new(10u8);
    wn.wrapping_sub(20u8);
    assert_eq!(246u8, wn.get());
    // Raw value grew, but a downward wrap outweighs it.
    assert!(wn < WrappedNum::new(246u8));
    assert!(wn < WrappedNum::new(0u8));
}

#[test]
fn add_sub_symmetry_signed_no_wrap() {
    let mut added = WrappedNum::new(50i8);
    let mut subtracted = WrappedNum::new(50i8);
    added.wrapping_add(-10i8);
    subtracted.wrapping_sub(10i8);
    assert_eq!(40i8, added.get());
    assert!(added == subtracted);
}

#[test]
fn add_sub_symmetry_signed_wrap() {
    let mut added = WrappedNum::new(-100i8);
    let mut subtracted = WrappedNum::new(-100i8);
    added.wrapping_add(-100i8);
    subtracted.wrapping_sub(100i8);
    assert_eq!(56i8, added.get());
    assert!(added == subtracted);
}

#[test]
fn opposite_partial_wraps_cancel() {
    let mut wn = WrappedNum::new(-100i8);
    wn.wrapping_add(-100i8);
    assert_eq!(56i8, wn.get());
    wn.wrapping_add(100i8);
    assert_eq!(-100i8, wn.get());
    // A wrap down and a wrap back up cancel exactly.
    assert!(wn == WrappedNum::new(-100i8));
}

#[test]
fn ordinary_signed_decrease_is_no_wrap() {
    let mut wn = WrappedNum::new(5i8);
    wn.wrapping_add(-1i8);
    assert_eq!(4i8, wn.get());
    assert!(wn == WrappedNum::new(4i8));
}

#[test]
fn zero_delta_changes_nothing() {
    let mut wn = WrappedNum::new(7u8);
    wn.wrapping_add(0u8);
    wn.wrapping_sub(0u8);
    assert_eq!(7u8, wn.get());
    assert!(wn == WrappedNum::new(7u8));
}

#[test]
fn non_wrapping_adds_order_like_integers() {
    let mut bigger = WrappedNum::new(5i16);
    let mut smaller = WrappedNum::new(5i16);
    bigger.wrapping_add(10i16);
    smaller.wrapping_add(3i16);
    assert_eq!(15i16, bigger.get());
    assert_eq!(8i16, smaller.get());
    assert!(smaller < bigger);
}

#[test]
fn u16_boundary_wrap() {
    let mut wn = WrappedNum::new(65530u16);
    wn.wrapping_add(10u16);
    assert_eq!(4u16, wn.get());
    assert!(wn > WrappedNum::new(4u16));
}

#[test]
fn u64_max_wraps_to_zero() {
    let mut wn = WrappedNum::new(u64::MAX);
    wn.wrapping_add(1u64);
    assert_eq!(0u64, wn.get());
    assert!(wn > WrappedNum::new(0u64));
    assert!(wn > WrappedNum::new(u64::MAX));
}

#[test]
fn i32_min_wraps_downward() {
    let mut wn = WrappedNum::new(i32::MIN);
    wn.wrapping_sub(1i32);
    assert_eq!(i32::MAX, wn.get());
    assert!(wn < WrappedNum::new(i32::MIN));
    assert!(wn < WrappedNum::new(i32::MAX));
}

#[test]
fn u32_wrap_via_negative_direction() {
    let mut wn = WrappedNum::new(3u32);
    wn.wrapping_sub(5u32);
    assert_eq!(u32::MAX - 1, wn.get());
    assert!(wn < WrappedNum::new(3u32));
}
