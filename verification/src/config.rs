//! Build configuration of the hypervisor that the extension runs under.

use vstd::prelude::*;

verus! {

/// Size of one page of memory, in bytes.
pub const HYPERVISOR_PAGE_SIZE: u64 = 0x1000;

/// Size of the direct map that the host offers to an extension, in bytes.
pub const HYPERVISOR_EXT_DIRECT_MAP_SIZE: u64 = 0x0000_0080_0000_0000;

/// Number of physical processors that the host supports.
pub const HYPERVISOR_MAX_PPS: usize = 64;

/// Number of virtual machines that the host supports.
pub const HYPERVISOR_MAX_VMS: usize = 16;

/// Number of virtual processors that the host supports.
pub const HYPERVISOR_MAX_VPS: usize = 64;

/// Number of virtual processor states that the host supports.
pub const HYPERVISOR_MAX_VSS: usize = 64;

} // verus!
