use bf_extension::{
    bf_is_page_aligned, bf_is_spec1_supported, bf_page_aligned, bf_syscall_flags,
    bf_syscall_index, bf_syscall_opcode, bf_syscall_opcode_nosig, bf_syscall_sig,
};

#[test]
fn test_bf_is_page_aligned() {
    let addr: u64 = 0x1234567890ABCDEF;
    assert!(!bf_is_page_aligned(addr));
}

#[test]
fn test_bf_page_aligned() {
    let addr: u64 = 0x1234567890ABCDEF;
    let expected: u64 = 0x1234567890ABC000;
    assert_eq!(bf_page_aligned(addr), expected);
}

#[test]
fn test_bf_syscall_sig() {
    let syscall: u64 = 0x1234567890ABCDEF;
    let expected: u64 = 0x1234000000000000;
    assert_eq!(bf_syscall_sig(syscall), expected);
}

#[test]
fn test_bf_syscall_flags() {
    let syscall: u64 = 0x1234567890ABCDEF;
    let expected: u64 = 0x0000567800000000;
    assert_eq!(bf_syscall_flags(syscall), expected);
}

#[test]
fn test_bf_syscall_opcode() {
    let syscall: u64 = 0x1234567890ABCDEF;
    let expected: u64 = 0x1234000090AB0000;
    assert_eq!(bf_syscall_opcode(syscall), expected);
}

#[test]
fn test_bf_syscall_opcode_nosig() {
    let syscall: u64 = 0x1234567890ABCDEF;
    let expected: u64 = 0x0000000090AB0000;
    assert_eq!(bf_syscall_opcode_nosig(syscall), expected);
}

#[test]
fn test_bf_syscall_index() {
    let syscall: u64 = 0x1234567890ABCDEF;
    let expected: u64 = 0x000000000000CDEF;
    assert_eq!(bf_syscall_index(syscall), expected);
}

#[test]
fn test_bf_is_spec1_supported() {
    let ver1: u32 = 0x2;
    let ver2: u32 = 0x80000000;
    assert!(bf_is_spec1_supported(ver1));
    assert!(!bf_is_spec1_supported(ver2));
}

#[test]
fn page_alignment_goes_by_the_low_twelve_bits() {
    assert!(bf_is_page_aligned(0));
    assert!(bf_is_page_aligned(0x1000));
    assert!(bf_is_page_aligned(0xFFFF_FFFF_FFFF_F000));
    assert!(!bf_is_page_aligned(0x1001));
    assert!(!bf_is_page_aligned(0xFFF));
    assert_eq!(bf_page_aligned(0), 0);
    assert_eq!(bf_page_aligned(0xFFF), 0);
    assert_eq!(bf_page_aligned(0x1000), 0x1000);
    assert_eq!(bf_page_aligned(0x1FFF), 0x1000);
    assert_eq!(bf_page_aligned(u64::MAX), 0xFFFF_FFFF_FFFF_F000);
}

#[test]
fn the_fields_of_rax_take_an_opcode_apart() {
    let rax: u64 = 0x6642000000060004;
    assert_eq!(bf_syscall_sig(rax), 0x6642000000000000);
    assert_eq!(bf_syscall_flags(rax), 0);
    assert_eq!(bf_syscall_opcode(rax), 0x6642000000060000);
    assert_eq!(bf_syscall_opcode_nosig(rax), 0x0000000000060000);
    assert_eq!(bf_syscall_index(rax), 0x4);
    assert_eq!(bf_syscall_opcode(rax), bf_syscall_sig(rax) + bf_syscall_opcode_nosig(rax));
}

#[test]
fn version_support_goes_by_bit_one() {
    assert!(!bf_is_spec1_supported(0));
    assert!(!bf_is_spec1_supported(1));
    assert!(bf_is_spec1_supported(2));
    assert!(bf_is_spec1_supported(3));
    assert!(bf_is_spec1_supported(0xFFFF_FFFF));
    assert!(!bf_is_spec1_supported(0xFFFF_FFFD));
}
