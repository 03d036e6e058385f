//! Debug operations: what the extension can have printed on the host console.
//!
//! None of them reports anything back.

use vstd::prelude::*;

use crate::bf_syscall_t::BfSyscallT;
use crate::host_gateway::{HostCall, HostGateway};
use crate::safe_integral::{SafeU16, SafeU64};

verus! {

/// Prints `val1` and `val2` on the host console.
pub fn bf_debug_op_out<H: HostGateway>(sys: &mut BfSyscallT<H>, val1: SafeU64, val2: SafeU64)
    requires
        val1.is_valid_and_checked(),
        val2.is_valid_and_checked(),
    ensures
        final(sys).did(*old(sys), HostCall::DebugOut { val1: val1@, val2: val2@ }),
{
    sys.notify(HostCall::DebugOut { val1: val1.get(), val2: val2.get() });
}

/// Prints the state of the VM `vmid` on the host console.
pub fn bf_debug_op_dump_vm<H: HostGateway>(sys: &mut BfSyscallT<H>, vmid: SafeU16)
    requires
        vmid.is_valid_and_checked(),
    ensures
        final(sys).did(*old(sys), HostCall::DebugDumpVm { vmid: vmid@ }),
{
    sys.notify(HostCall::DebugDumpVm { vmid: vmid.get() });
}

/// Prints the state of the VP `vpid` on the host console.
pub fn bf_debug_op_dump_vp<H: HostGateway>(sys: &mut BfSyscallT<H>, vpid: SafeU16)
    requires
        vpid.is_valid_and_checked(),
    ensures
        final(sys).did(*old(sys), HostCall::DebugDumpVp { vpid: vpid@ }),
{
    sys.notify(HostCall::DebugDumpVp { vpid: vpid.get() });
}

/// Prints the state of the VS `vsid` on the host console.
pub fn bf_debug_op_dump_vs<H: HostGateway>(sys: &mut BfSyscallT<H>, vsid: SafeU16)
    requires
        vsid.is_valid_and_checked(),
    ensures
        final(sys).did(*old(sys), HostCall::DebugDumpVs { vsid: vsid@ }),
{
    sys.notify(HostCall::DebugDumpVs { vsid: vsid.get() });
}

/// Prints the log of the most recent VM exits of the PP `ppid` on the host
/// console.
pub fn bf_debug_op_dump_vmexit_log<H: HostGateway>(sys: &mut BfSyscallT<H>, ppid: SafeU16)
    requires
        ppid.is_valid_and_checked(),
    ensures
        final(sys).did(*old(sys), HostCall::DebugDumpVmexitLog { ppid: ppid@ }),
{
    sys.notify(HostCall::DebugDumpVmexitLog { ppid: ppid.get() });
}

/// Prints the character `c` on the host console.
pub fn bf_debug_op_write_c<H: HostGateway>(sys: &mut BfSyscallT<H>, c: u8)
    ensures
        final(sys).did(*old(sys), HostCall::DebugWriteC { c }),
{
    sys.notify(HostCall::DebugWriteC { c });
}

/// Prints the `len` bytes at the address `addr` on the host console.
pub fn bf_debug_op_write_str<H: HostGateway>(sys: &mut BfSyscallT<H>, addr: u64, len: u64)
    ensures
        final(sys).did(*old(sys), HostCall::DebugWriteStr { addr, len }),
{
    sys.notify(HostCall::DebugWriteStr { addr, len });
}

/// Prints the state of the extension `extid` on the host console.
pub fn bf_debug_op_dump_ext<H: HostGateway>(sys: &mut BfSyscallT<H>, extid: SafeU16)
    requires
        extid.is_valid_and_checked(),
    ensures
        final(sys).did(*old(sys), HostCall::DebugDumpExt { extid: extid@ }),
{
    sys.notify(HostCall::DebugDumpExt { extid: extid.get() });
}

/// Prints the statistics of the page pool on the host console.
pub fn bf_debug_op_dump_page_pool<H: HostGateway>(sys: &mut BfSyscallT<H>)
    ensures
        final(sys).did(*old(sys), HostCall::DebugDumpPagePool),
{
    sys.notify(HostCall::DebugDumpPagePool);
}

/// Prints the statistics of the huge pool on the host console.
pub fn bf_debug_op_dump_huge_pool<H: HostGateway>(sys: &mut BfSyscallT<H>)
    ensures
        final(sys).did(*old(sys), HostCall::DebugDumpHugePool),
{
    sys.notify(HostCall::DebugDumpHugePool);
}

} // verus!
