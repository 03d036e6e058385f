//! Constants of the syscall ABI and the decoders of the RAX word.

use vstd::prelude::*;

use crate::config::HYPERVISOR_PAGE_SIZE;

verus! {

// Special IDs

/// Sentinel that stands for "no extension, VM, VP, VS or PP".
pub const BF_INVALID_ID: u16 = 0xFFFF;
/// ID of the bootstrap physical processor.
pub const BF_BS_PPID: u16 = 0x0;
/// ID of the root virtual machine.
pub const BF_ROOT_VMID: u16 = 0x0;

// Syscall Status Codes

/// Status: the syscall returned successfully.
pub const BF_STATUS_SUCCESS: u64 = 0x0000000000000000;
/// Status: an unknown error occurred.
pub const BF_STATUS_FAILURE_UNKNOWN: u64 = 0xDEAD000000010001;
/// Status: the provided handle is invalid.
pub const BF_STATUS_FAILURE_INVALID_HANDLE: u64 = 0xDEAD000000020001;
/// Status: the syscall is unsupported.
pub const BF_STATUS_FAILURE_UNSUPPORTED: u64 = 0xDEAD000000040001;
/// Status: the policy engine denied the syscall.
pub const BF_STATUS_INVALID_PERM_DENIED: u64 = 0xDEAD000000010002;
/// Status: input reg0 is invalid.
pub const BF_STATUS_INVALID_INPUT_REG0: u64 = 0xDEAD000000010003;
/// Status: input reg1 is invalid.
pub const BF_STATUS_INVALID_INPUT_REG1: u64 = 0xDEAD000000020003;
/// Status: input reg2 is invalid.
pub const BF_STATUS_INVALID_INPUT_REG2: u64 = 0xDEAD000000040003;
/// Status: input reg3 is invalid.
pub const BF_STATUS_INVALID_INPUT_REG3: u64 = 0xDEAD000000080003;
/// Status: input reg4 is invalid.
pub const BF_STATUS_INVALID_INPUT_REG4: u64 = 0xDEAD000000100003;
/// Status: input reg5 is invalid.
pub const BF_STATUS_INVALID_INPUT_REG5: u64 = 0xDEAD000000200003;
/// Status: output reg0 is invalid.
pub const BF_STATUS_INVALID_OUTPUT_REG0: u64 = 0xDEAD000000400003;
/// Status: output reg1 is invalid.
pub const BF_STATUS_INVALID_OUTPUT_REG1: u64 = 0xDEAD000000800003;
/// Status: output reg2 is invalid.
pub const BF_STATUS_INVALID_OUTPUT_REG2: u64 = 0xDEAD000001000003;
/// Status: output reg3 is invalid.
pub const BF_STATUS_INVALID_OUTPUT_REG3: u64 = 0xDEAD000002000003;
/// Status: output reg4 is invalid.
pub const BF_STATUS_INVALID_OUTPUT_REG4: u64 = 0xDEAD000004000003;
/// Status: output reg5 is invalid.
pub const BF_STATUS_INVALID_OUTPUT_REG5: u64 = 0xDEAD000008000003;

// Syscall Inputs

/// Signature that every syscall carries in RAX.
pub const BF_SYSCALL_SIG_VAL: u64 = 0x6642000000000000;
/// Mask that selects the signature field of RAX.
pub const BF_SYSCALL_SIG_MASK: u64 = 0xFFFF000000000000;
/// Mask that selects the flags field of RAX.
pub const BF_SYSCALL_FLAGS_MASK: u64 = 0x0000FFFF00000000;
/// Mask that selects the opcode field of RAX, signature included.
pub const BF_SYSCALL_OPCODE_MASK: u64 = 0xFFFF0000FFFF0000;
/// Mask that selects the opcode field of RAX, signature excluded.
pub const BF_SYSCALL_OPCODE_NOSIG_MASK: u64 = 0x00000000FFFF0000;
/// Mask that selects the index field of RAX.
pub const BF_SYSCALL_INDEX_MASK: u64 = 0x000000000000FFFF;

// Specification IDs

/// ID of version 1 of the ABI.
pub const BF_SPEC_ID1_VAL: u32 = 0x31236642;
/// Bit that a host sets when it supports version 1 of the ABI.
pub const BF_SPEC_ID1_MASK: u32 = 0x2;
/// All ABI versions that this gateway supports.
pub const BF_ALL_SPECS_SUPPORTED_VAL: u32 = 0x2;
/// Bit that marks a version word as invalid.
pub const BF_INVALID_VERSION: u32 = 0x80000000;

// Syscall Opcodes: Control Support

/// Opcode of `bf_control_op`, signature included.
pub const BF_CONTROL_OP_VAL: u64 = 0x6642000000000000;
/// Opcode of `bf_control_op` without the signature.
pub const BF_CONTROL_OP_NOSIG_VAL: u64 = 0x0000000000000000;

// Syscall Opcodes: Handle Support

/// Opcode of `bf_handle_op`, signature included.
pub const BF_HANDLE_OP_VAL: u64 = 0x6642000000010000;
/// Opcode of `bf_handle_op` without the signature.
pub const BF_HANDLE_OP_NOSIG_VAL: u64 = 0x0000000000010000;

// Syscall Opcodes: Debug Support

/// Opcode of `bf_debug_op`, signature included.
pub const BF_DEBUG_OP_VAL: u64 = 0x6642000000020000;
/// Opcode of `bf_debug_op` without the signature.
pub const BF_DEBUG_OP_NOSIG_VAL: u64 = 0x0000000000020000;

// Syscall Opcodes: Callback Support

/// Opcode of `bf_callback_op`, signature included.
pub const BF_CALLBACK_OP_VAL: u64 = 0x6642000000030000;
/// Opcode of `bf_callback_op` without the signature.
pub const BF_CALLBACK_OP_NOSIG_VAL: u64 = 0x0000000000030000;

// Syscall Opcodes: VM Support

/// Opcode of `bf_vm_op`, signature included.
pub const BF_VM_OP_VAL: u64 = 0x6642000000040000;
/// Opcode of `bf_vm_op` without the signature.
pub const BF_VM_OP_NOSIG_VAL: u64 = 0x0000000000040000;

// Syscall Opcodes: VP Support

/// Opcode of `bf_vp_op`, signature included.
pub const BF_VP_OP_VAL: u64 = 0x6642000000050000;
/// Opcode of `bf_vp_op` without the signature.
pub const BF_VP_OP_NOSIG_VAL: u64 = 0x0000000000050000;

// Syscall Opcodes: VS Support

/// Opcode of `bf_vs_op`, signature included.
pub const BF_VS_OP_VAL: u64 = 0x6642000000060000;
/// Opcode of `bf_vs_op` without the signature.
pub const BF_VS_OP_NOSIG_VAL: u64 = 0x0000000000060000;

// Syscall Opcodes: Intrinsic Support

/// Opcode of `bf_intrinsic_op`, signature included.
pub const BF_INTRINSIC_OP_VAL: u64 = 0x6642000000070000;
/// Opcode of `bf_intrinsic_op` without the signature.
pub const BF_INTRINSIC_OP_NOSIG_VAL: u64 = 0x0000000000070000;

// Syscall Opcodes: Mem Support

/// Opcode of `bf_mem_op`, signature included.
pub const BF_MEM_OP_VAL: u64 = 0x6642000000080000;
/// Opcode of `bf_mem_op` without the signature.
pub const BF_MEM_OP_NOSIG_VAL: u64 = 0x0000000000080000;

// TLS Offsets

/// Offset of `rax` in the TLS block.
pub const TLS_OFFSET_RAX: u64 = 0x800;
/// Offset of `rbx` in the TLS block.
pub const TLS_OFFSET_RBX: u64 = 0x808;
/// Offset of `rcx` in the TLS block.
pub const TLS_OFFSET_RCX: u64 = 0x810;
/// Offset of `rdx` in the TLS block.
pub const TLS_OFFSET_RDX: u64 = 0x818;
/// Offset of `rbp` in the TLS block.
pub const TLS_OFFSET_RBP: u64 = 0x820;
/// Offset of `rsi` in the TLS block.
pub const TLS_OFFSET_RSI: u64 = 0x828;
/// Offset of `rdi` in the TLS block.
pub const TLS_OFFSET_RDI: u64 = 0x830;
/// Offset of `r8` in the TLS block.
pub const TLS_OFFSET_R8: u64 = 0x838;
/// Offset of `r9` in the TLS block.
pub const TLS_OFFSET_R9: u64 = 0x840;
/// Offset of `r10` in the TLS block.
pub const TLS_OFFSET_R10: u64 = 0x848;
/// Offset of `r11` in the TLS block.
pub const TLS_OFFSET_R11: u64 = 0x850;
/// Offset of `r12` in the TLS block.
pub const TLS_OFFSET_R12: u64 = 0x858;
/// Offset of `r13` in the TLS block.
pub const TLS_OFFSET_R13: u64 = 0x860;
/// Offset of `r14` in the TLS block.
pub const TLS_OFFSET_R14: u64 = 0x868;
/// Offset of `r15` in the TLS block.
pub const TLS_OFFSET_R15: u64 = 0x870;
/// Offset of the active `extid` in the TLS block.
pub const TLS_OFFSET_ACTIVE_EXTID: u64 = 0xFF0;
/// Offset of the active `vmid` in the TLS block.
pub const TLS_OFFSET_ACTIVE_VMID: u64 = 0xFF2;
/// Offset of the active `vpid` in the TLS block.
pub const TLS_OFFSET_ACTIVE_VPID: u64 = 0xFF4;
/// Offset of the active `vsid` in the TLS block.
pub const TLS_OFFSET_ACTIVE_VSID: u64 = 0xFF6;
/// Offset of the active `ppid` in the TLS block.
pub const TLS_OFFSET_ACTIVE_PPID: u64 = 0xFF8;
/// Offset of the number of online PPs in the TLS block.
pub const TLS_OFFSET_ONLINE_PPS: u64 = 0xFFA;

// Hypercall Related Constants

/// Sentinel that stands for "no open handle".
pub const BF_INVALID_HANDLE: u64 = 0xFFFFFFFFFFFFFFFF;

// Syscall Indexes

/// Index of `bf_control_op_exit` within its opcode.
pub const BF_CONTROL_OP_EXIT_IDX_VAL: u64 = 0x0000000000000000;
/// Index of `bf_control_op_wait` within its opcode.
pub const BF_CONTROL_OP_WAIT_IDX_VAL: u64 = 0x0000000000000001;
/// Index of `bf_handle_op_open_handle` within its opcode.
pub const BF_HANDLE_OP_OPEN_HANDLE_IDX_VAL: u64 = 0x0000000000000000;
/// Index of `bf_handle_op_close_handle` within its opcode.
pub const BF_HANDLE_OP_CLOSE_HANDLE_IDX_VAL: u64 = 0x0000000000000001;
/// Index of `bf_debug_op_out` within its opcode.
pub const BF_DEBUG_OP_OUT_IDX_VAL: u64 = 0x0000000000000000;
/// Index of `bf_debug_op_dump_vm` within its opcode.
pub const BF_DEBUG_OP_DUMP_VM_IDX_VAL: u64 = 0x0000000000000001;
/// Index of `bf_debug_op_dump_vp` within its opcode.
pub const BF_DEBUG_OP_DUMP_VP_IDX_VAL: u64 = 0x0000000000000002;
/// Index of `bf_debug_op_dump_vs` within its opcode.
pub const BF_DEBUG_OP_DUMP_VS_IDX_VAL: u64 = 0x0000000000000003;
/// Index of `bf_debug_op_dump_vmexit_log` within its opcode.
pub const BF_DEBUG_OP_DUMP_VMEXIT_LOG_IDX_VAL: u64 = 0x0000000000000004;
/// Index of `bf_debug_op_write_c` within its opcode.
pub const BF_DEBUG_OP_WRITE_C_IDX_VAL: u64 = 0x0000000000000005;
/// Index of `bf_debug_op_write_str` within its opcode.
pub const BF_DEBUG_OP_WRITE_STR_IDX_VAL: u64 = 0x0000000000000006;
/// Index of `bf_debug_op_dump_ext` within its opcode.
pub const BF_DEBUG_OP_DUMP_EXT_IDX_VAL: u64 = 0x0000000000000007;
/// Index of `bf_debug_op_dump_page_pool` within its opcode.
pub const BF_DEBUG_OP_DUMP_PAGE_POOL_IDX_VAL: u64 = 0x0000000000000008;
/// Index of `bf_debug_op_dump_huge_pool` within its opcode.
pub const BF_DEBUG_OP_DUMP_HUGE_POOL_IDX_VAL: u64 = 0x0000000000000009;
/// Index of `bf_callback_op_register_bootstrap` within its opcode.
pub const BF_CALLBACK_OP_REGISTER_BOOTSTRAP_IDX_VAL: u64 = 0x0000000000000000;
/// Index of `bf_callback_op_register_vmexit` within its opcode.
pub const BF_CALLBACK_OP_REGISTER_VMEXIT_IDX_VAL: u64 = 0x0000000000000001;
/// Index of `bf_callback_op_register_fail` within its opcode.
pub const BF_CALLBACK_OP_REGISTER_FAIL_IDX_VAL: u64 = 0x0000000000000002;
/// Index of `bf_vm_op_create_vm` within its opcode.
pub const BF_VM_OP_CREATE_VM_IDX_VAL: u64 = 0x0000000000000000;
/// Index of `bf_vm_op_destroy_vm` within its opcode.
pub const BF_VM_OP_DESTROY_VM_IDX_VAL: u64 = 0x0000000000000001;
/// Index of `bf_vm_op_map_direct` within its opcode.
pub const BF_VM_OP_MAP_DIRECT_IDX_VAL: u64 = 0x0000000000000002;
/// Index of `bf_vm_op_unmap_direct` within its opcode.
pub const BF_VM_OP_UNMAP_DIRECT_IDX_VAL: u64 = 0x0000000000000003;
/// Index of `bf_vm_op_unmap_direct_broadcast` within its opcode.
pub const BF_VM_OP_UNMAP_DIRECT_BROADCAST_IDX_VAL: u64 = 0x0000000000000004;
/// Index of `bf_vp_op_create_vp` within its opcode.
pub const BF_VP_OP_CREATE_VP_IDX_VAL: u64 = 0x0000000000000000;
/// Index of `bf_vp_op_destroy_vp` within its opcode.
pub const BF_VP_OP_DESTROY_VP_IDX_VAL: u64 = 0x0000000000000001;
/// Index of `bf_vs_op_create_vs` within its opcode.
pub const BF_VS_OP_CREATE_VS_IDX_VAL: u64 = 0x0000000000000000;
/// Index of `bf_vs_op_destroy_vs` within its opcode.
pub const BF_VS_OP_DESTROY_VS_IDX_VAL: u64 = 0x0000000000000001;
/// Index of `bf_vs_op_init_as_root` within its opcode.
pub const BF_VS_OP_INIT_AS_ROOT_IDX_VAL: u64 = 0x0000000000000002;
/// Index of `bf_vs_op_read_reg` within its opcode.
pub const BF_VS_OP_READ_IDX_VAL: u64 = 0x0000000000000003;
/// Index of `bf_vs_op_write_reg` within its opcode.
pub const BF_VS_OP_WRITE_IDX_VAL: u64 = 0x0000000000000004;
/// Index of `bf_vs_op_run` within its opcode.
pub const BF_VS_OP_RUN_IDX_VAL: u64 = 0x0000000000000005;
/// Index of `bf_vs_op_run_current` within its opcode.
pub const BF_VS_OP_RUN_CURRENT_IDX_VAL: u64 = 0x0000000000000006;
/// Index of `bf_vs_op_advance_ip_and_run` within its opcode.
pub const BF_VS_OP_ADVANCE_IP_AND_RUN_IDX_VAL: u64 = 0x0000000000000007;
/// Index of `bf_vs_op_advance_ip_and_run_current` within its opcode.
pub const BF_VS_OP_ADVANCE_IP_AND_RUN_CURRENT_IDX_VAL: u64 = 0x0000000000000008;
/// Index of `bf_vs_op_promote` within its opcode.
pub const BF_VS_OP_PROMOTE_IDX_VAL: u64 = 0x0000000000000009;
/// Index of `bf_vs_op_clear` within its opcode.
pub const BF_VS_OP_CLEAR_IDX_VAL: u64 = 0x000000000000000A;
/// Index of `bf_vs_op_migrate` within its opcode.
pub const BF_VS_OP_MIGRATE_IDX_VAL: u64 = 0x000000000000000B;
/// Index of `bf_vs_op_set_active` within its opcode.
pub const BF_VS_OP_SET_ACTIVE_IDX_VAL: u64 = 0x000000000000000C;
/// Index of `bf_vs_op_advance_ip_and_set_active` within its opcode.
pub const BF_VS_OP_ADVANCE_IP_AND_SET_ACTIVE_IDX_VAL: u64 = 0x000000000000000D;
/// Index of `bf_intrinsic_op_rdmsr` within its opcode.
pub const BF_INTRINSIC_OP_RDMSR_IDX_VAL: u64 = 0x0000000000000000;
/// Index of `bf_intrinsic_op_wrmsr` within its opcode.
pub const BF_INTRINSIC_OP_WRMSR_IDX_VAL: u64 = 0x0000000000000001;
/// Index of `bf_mem_op_alloc_page` within its opcode.
pub const BF_MEM_OP_ALLOC_PAGE_IDX_VAL: u64 = 0x0000000000000000;
/// Index of `bf_mem_op_free_page` within its opcode.
pub const BF_MEM_OP_FREE_PAGE_IDX_VAL: u64 = 0x0000000000000001;
/// Index of `bf_mem_op_alloc_huge` within its opcode.
pub const BF_MEM_OP_ALLOC_HUGE_IDX_VAL: u64 = 0x0000000000000002;
/// Index of `bf_mem_op_free_huge` within its opcode.
pub const BF_MEM_OP_FREE_HUGE_IDX_VAL: u64 = 0x0000000000000003;

// Page Alignment

/// Returns true if `addr` is a multiple of the page size.
pub fn bf_is_page_aligned(addr: u64) -> (aligned: bool)
    ensures
        aligned == (addr % HYPERVISOR_PAGE_SIZE == 0),
{
    let mask: u64 = HYPERVISOR_PAGE_SIZE - 1;
    assert(addr & 0xFFF == addr % 0x1000) by (bit_vector);
    (addr & mask) == 0
}

/// Returns the start of the page that holds `addr`.
pub fn bf_page_aligned(addr: u64) -> (page: u64)
    ensures
        page == addr - addr % HYPERVISOR_PAGE_SIZE,
        page % HYPERVISOR_PAGE_SIZE == 0,
        page <= addr < page + HYPERVISOR_PAGE_SIZE,
{
    assert(addr & !0xFFFu64 == addr - addr % 0x1000) by (bit_vector);
    assert((addr & !0xFFFu64) % 0x1000 == 0) by (bit_vector);
    addr & !(HYPERVISOR_PAGE_SIZE - 1)
}

// RAX decoders

/// Returns the signature field of a syscall's RAX word: its top 16 bits, in place.
pub fn bf_syscall_sig(rax: u64) -> (sig: u64)
    ensures
        sig == rax & BF_SYSCALL_SIG_MASK,
        sig == (rax / 0x1_0000_0000_0000) * 0x1_0000_0000_0000,
{
    assert(rax & 0xFFFF000000000000 == (rax / 0x1_0000_0000_0000) * 0x1_0000_0000_0000)
        by (bit_vector);
    rax & BF_SYSCALL_SIG_MASK
}

/// Returns the flags field of a syscall's RAX word: bits 32 to 47, in place.
pub fn bf_syscall_flags(rax: u64) -> (flags: u64)
    ensures
        flags == rax & BF_SYSCALL_FLAGS_MASK,
        flags == ((rax / 0x1_0000_0000) % 0x1_0000) * 0x1_0000_0000,
{
    assert(rax & 0x0000FFFF00000000 == ((rax / 0x1_0000_0000) % 0x1_0000) * 0x1_0000_0000)
        by (bit_vector);
    rax & BF_SYSCALL_FLAGS_MASK
}

/// Returns the opcode field of a syscall's RAX word together with its
/// signature: bits 16 to 31 and bits 48 to 63, in place.
pub fn bf_syscall_opcode(rax: u64) -> (opcode: u64)
    ensures
        opcode == rax & BF_SYSCALL_OPCODE_MASK,
        opcode == bf_syscall_sig_of(rax) + bf_syscall_opcode_nosig_of(rax),
{
    assert(rax & 0xFFFF0000FFFF0000 == (rax & 0xFFFF000000000000) + (rax & 0x00000000FFFF0000))
        by (bit_vector);
    rax & BF_SYSCALL_OPCODE_MASK
}

/// Returns the opcode field of a syscall's RAX word without its signature:
/// bits 16 to 31, in place.
pub fn bf_syscall_opcode_nosig(rax: u64) -> (opcode: u64)
    ensures
        opcode == rax & BF_SYSCALL_OPCODE_NOSIG_MASK,
        opcode == ((rax / 0x1_0000) % 0x1_0000) * 0x1_0000,
{
    assert(rax & 0x00000000FFFF0000 == ((rax / 0x1_0000) % 0x1_0000) * 0x1_0000) by (bit_vector);
    rax & BF_SYSCALL_OPCODE_NOSIG_MASK
}

/// Returns the index field of a syscall's RAX word: its low 16 bits.
pub fn bf_syscall_index(rax: u64) -> (index: u64)
    ensures
        index == rax & BF_SYSCALL_INDEX_MASK,
        index == rax % 0x1_0000,
{
    assert(rax & 0x000000000000FFFF == rax % 0x1_0000) by (bit_vector);
    rax & BF_SYSCALL_INDEX_MASK
}

/// The signature field of `rax`, as `bf_syscall_sig` computes it.
pub open spec fn bf_syscall_sig_of(rax: u64) -> u64 {
    rax & BF_SYSCALL_SIG_MASK
}

/// The opcode field of `rax` without its signature, as
/// `bf_syscall_opcode_nosig` computes it.
pub open spec fn bf_syscall_opcode_nosig_of(rax: u64) -> u64 {
    rax & BF_SYSCALL_OPCODE_NOSIG_MASK
}

/// True if the bit for version 1 of the ABI is set in `version`.
pub open spec fn spec_bf_is_spec1_supported(version: u32) -> bool {
    (version / 2) % 2 == 1
}

/// Returns true if a host that reports `version` supports version 1 of the ABI.
#[verifier::when_used_as_spec(spec_bf_is_spec1_supported)]
pub fn bf_is_spec1_supported(version: u32) -> (supported: bool)
    ensures
        supported == spec_bf_is_spec1_supported(version),
        supported == (version & BF_SPEC_ID1_MASK != 0),
{
    assert((version & 0x2 != 0) == ((version / 2) % 2 == 1)) by (bit_vector);
    (version & BF_SPEC_ID1_MASK) != 0
}

} // verus!
