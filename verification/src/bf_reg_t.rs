//! The register index space of a virtual processor state.
//!
//! Each architecture numbers the fields of its control structure from 1
//! upwards. Index 0 stands for a register that the host does not support, and
//! the first index past the table stands for an invalid register. Only the
//! indices that this crate programs are named here.

use vstd::prelude::*;

verus! {

/// The architecture whose control structure the host runs.
#[derive(Clone, Copy, Debug, PartialEq, Eq, Structural)]
pub enum ArchT {
    /// AMD: the control structure is a VMCB.
    AuthenticAmd,
    /// Intel: the control structure is a VMCS.
    GenuineIntel,
}

/// The index that stands for a register the host does not support.
pub const BF_REG_T_UNSUPPORTED: u64 = 0;

/// The first index past the AMD register table.
pub const BF_REG_T_INVALID_AMD: u64 = 116;

/// The first index past the Intel register table.
pub const BF_REG_T_INVALID_INTEL: u64 = 157;

// AMD

/// Instruction intercepts, first word.
pub const BF_REG_T_INTERCEPT_INSTRUCTION1: u64 = 20;

/// Instruction intercepts, second word.
pub const BF_REG_T_INTERCEPT_INSTRUCTION2: u64 = 21;

/// The address space ID of the guest.
pub const BF_REG_T_GUEST_ASID: u64 = 28;

// Intel

/// The virtual processor ID that tags the guest's TLB entries.
pub const BF_REG_T_VIRTUAL_PROCESSOR_IDENTIFIER: u64 = 23;

/// The physical address of the MSR bitmaps.
pub const BF_REG_T_ADDRESS_OF_MSR_BITMAPS: u64 = 38;

/// The VMCS link pointer.
pub const BF_REG_T_VMCS_LINK_POINTER: u64 = 63;

/// The pin-based execution controls.
pub const BF_REG_T_PIN_BASED_VM_EXECUTION_CTLS: u64 = 74;

/// The primary processor-based execution controls.
pub const BF_REG_T_PRIMARY_PROC_BASED_VM_EXECUTION_CTLS: u64 = 75;

/// The VM-exit controls.
pub const BF_REG_T_VMEXIT_CTLS: u64 = 80;

/// The VM-entry controls.
pub const BF_REG_T_VMENTRY_CTLS: u64 = 83;

/// The VM-entry interruption-information field.
pub const BF_REG_T_VMENTRY_INTERRUPT_INFORMATION_FIELD: u64 = 85;

/// The secondary processor-based execution controls.
pub const BF_REG_T_SECONDARY_PROC_BASED_VM_EXECUTION_CTLS: u64 = 89;

/// The first index past the register table of `arch`.
pub open spec fn spec_bf_reg_t_invalid(arch: ArchT) -> u64 {
    match arch {
        ArchT::AuthenticAmd => BF_REG_T_INVALID_AMD,
        ArchT::GenuineIntel => BF_REG_T_INVALID_INTEL,
    }
}

/// Returns the first index past the register table of `arch`.
#[verifier::when_used_as_spec(spec_bf_reg_t_invalid)]
pub fn bf_reg_t_invalid(arch: ArchT) -> (invalid: u64)
    ensures
        invalid == spec_bf_reg_t_invalid(arch),
{
    match arch {
        ArchT::AuthenticAmd => BF_REG_T_INVALID_AMD,
        ArchT::GenuineIntel => BF_REG_T_INVALID_INTEL,
    }
}

/// A register index that a read or a write may name on `arch`: one of the
/// table, which leaves out both reserved values.
pub open spec fn bf_reg_t_is_valid(arch: ArchT, reg: u64) -> bool {
    reg != BF_REG_T_UNSUPPORTED && reg < spec_bf_reg_t_invalid(arch)
}

} // verus!
