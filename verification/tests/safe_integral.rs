use bf_extension::{to_u32_unsafe, ErrcType, SafeU16, SafeU32, SafeU64};

#[test]
fn a_new_value_is_valid_and_checked() {
    let v = SafeU16::new(7);
    assert!(v.is_valid());
    assert!(!v.is_invalid());
    assert!(v.is_valid_and_checked());
    assert!(v.is_pos());
    assert_eq!(v.get(), 7);
    assert!(!SafeU16::new(0).is_pos());
    assert_eq!(SafeU32::new(9).get(), 9);
    assert!(SafeU32::new(9).is_valid_and_checked());
    assert!(SafeU32::new(9).is_pos());
    assert!(!SafeU32::new(0).is_pos());
    assert_eq!(SafeU64::new(u64::MAX).get(), u64::MAX);
    assert!(SafeU64::new(1).is_pos());
    assert!(!SafeU64::new(0).is_pos());
}

#[test]
fn a_failure_is_poisoned() {
    let v = SafeU16::failure();
    assert!(v.is_invalid());
    assert!(!v.is_valid());
    assert!(!v.is_valid_and_checked());
    let w = SafeU64::failure();
    assert!(w.is_invalid());
    assert!(!w.is_valid());
    assert!(!w.is_valid_and_checked());
}

#[test]
fn the_default_is_a_valid_zero() {
    assert_eq!(SafeU16::default(), SafeU16::new(0));
    assert_eq!(SafeU32::default(), SafeU32::new(0));
    assert_eq!(SafeU64::default(), SafeU64::new(0));
    assert_eq!(SafeU16::magic_1(), SafeU16::new(1));
}

#[test]
fn a_difference_must_be_checked_before_use() {
    let d = SafeU16::new(8).minus(SafeU16::magic_1());
    assert!(d.is_valid());
    assert!(!d.is_valid_and_checked());
    let d = d.checked();
    assert!(d.is_valid_and_checked());
    assert_eq!(d.get(), 7);
}

#[test]
fn a_difference_below_zero_is_poisoned() {
    let d = SafeU16::new(0).minus(SafeU16::magic_1());
    assert!(d.is_invalid());
    let d = SafeU16::failure().minus(SafeU16::new(0));
    assert!(d.is_invalid());
    let d = SafeU16::new(5).minus(SafeU16::failure());
    assert!(d.is_invalid());
    let d = SafeU16::new(5).minus(SafeU16::new(5));
    assert_eq!(d.checked().get(), 0);
}

#[test]
fn the_complement_flips_every_bit_and_keeps_the_flags() {
    assert_eq!(SafeU16::new(0).complement(), SafeU16::new(0xFFFF));
    assert_eq!(SafeU16::new(0x00F0).complement(), SafeU16::new(0xFF0F));
    assert_eq!(SafeU16::new(0x1234).complement().complement(), SafeU16::new(0x1234));
    assert!(SafeU16::failure().complement().is_invalid());
}

#[test]
fn bitwise_operations_keep_a_value_checked_and_spread_poison() {
    let v = SafeU64::new(0x0F0F).bitor(SafeU64::new(0x400000));
    assert!(v.is_valid_and_checked());
    assert_eq!(v.get(), 0x400F0F);
    let v = SafeU64::new(0xFFFF_FFFF_FFFF_FFFF).bitand(SafeU64::new(0xFFBFFFFF));
    assert!(v.is_valid_and_checked());
    assert_eq!(v.get(), 0xFFBFFFFF);
    assert!(SafeU64::failure().bitor(SafeU64::new(1)).is_invalid());
    assert!(SafeU64::new(1).bitand(SafeU64::failure()).is_invalid());
    assert_eq!(SafeU64::new(5).checked(), SafeU64::new(5));
}

#[test]
fn the_unsafe_conversion_keeps_the_low_32_bits() {
    assert_eq!(to_u32_unsafe(SafeU64::new(0x1234_5678_400000FF)), SafeU32::new(0x400000FF));
    assert_eq!(to_u32_unsafe(SafeU64::new(0xFFFF_FFFF_0000_0000)), SafeU32::new(0));
    assert_eq!(to_u32_unsafe(SafeU64::new(7)).get(), 7);
}

#[test]
fn only_success_is_a_success() {
    assert!(ErrcType::Success.success());
    assert!(!ErrcType::Success.failure());
    assert!(ErrcType::Failure.failure());
    assert!(!ErrcType::Failure.success());
    assert!(ErrcType::Unsupported.failure());
    assert!(!ErrcType::Unsupported.success());
}
