//! The boundary between the extension and its host.
//!
//! Everything that the extension asks of the microkernel, of the thread-local
//! block that the microkernel shares with it, or of the processor itself is
//! one `HostCall`, and everything that comes back is one `HostReply`. Whoever
//! embeds the extension implements `HostGateway`; the rest of this crate is
//! written against that one method and holds for whatever the host answers.

use vstd::prelude::*;

use crate::constants::BF_STATUS_SUCCESS;

verus! {

/// One request that crosses the boundary to the host.
#[derive(Clone, Copy, Debug, PartialEq, Eq, Structural)]
pub enum HostCall {
    /// Read the field at `offset` of the thread-local block.
    TlsLoad { offset: u64 },
    /// Write `val` to the field at `offset` of the thread-local block.
    TlsStore { offset: u64, val: u64 },
    /// Stop the extension.
    ControlExit,
    /// Report that the extension has started and wait for callbacks.
    ControlWait,
    /// Return from a callback and ask for it again.
    ControlAgain,
    /// Open a session for ABI version `version`.
    HandleOpen { version: u32 },
    /// Close the session `hndl`.
    HandleClose { hndl: u64 },
    /// Print two numbers on the host console.
    DebugOut { val1: u64, val2: u64 },
    /// Print the state of a VM on the host console.
    DebugDumpVm { vmid: u16 },
    /// Print the state of a VP on the host console.
    DebugDumpVp { vpid: u16 },
    /// Print the state of a VS on the host console.
    DebugDumpVs { vsid: u16 },
    /// Print the log of recent VM exits of a PP on the host console.
    DebugDumpVmexitLog { ppid: u16 },
    /// Print one character on the host console.
    DebugWriteC { c: u8 },
    /// Print the `len` bytes at address `addr` on the host console.
    DebugWriteStr { addr: u64, len: u64 },
    /// Print the state of an extension on the host console.
    DebugDumpExt { extid: u16 },
    /// Print the statistics of the page pool on the host console.
    DebugDumpPagePool,
    /// Print the statistics of the huge pool on the host console.
    DebugDumpHugePool,
    /// Register the entry point that the host calls to start a PP.
    CallbackRegisterBootstrap { hndl: u64, handler: u64 },
    /// Register the entry point that the host calls on a VM exit.
    CallbackRegisterVmexit { hndl: u64, handler: u64 },
    /// Register the entry point that the host calls on a fast fail.
    CallbackRegisterFail { hndl: u64, handler: u64 },
    /// Create a VM.
    VmCreate { hndl: u64 },
    /// Destroy a VM.
    VmDestroy { hndl: u64, vmid: u16 },
    /// Map the physical address `phys` into the direct map of a VM.
    VmMapDirect { hndl: u64, vmid: u16, phys: u64 },
    /// Unmap the virtual address `virt` from the direct map of a VM.
    VmUnmapDirect { hndl: u64, vmid: u16, virt: u64 },
    /// Unmap the virtual address `virt` from the direct map of a VM on every PP.
    VmUnmapDirectBroadcast { hndl: u64, vmid: u16, virt: u64 },
    /// Flush the TLB entries of a VM.
    VmTlbFlush { hndl: u64, vmid: u16 },
    /// Create a VP and assign it to a VM.
    VpCreate { hndl: u64, vmid: u16 },
    /// Destroy a VP.
    VpDestroy { hndl: u64, vpid: u16 },
    /// Create a VS and assign it to a VP and a PP.
    VsCreate { hndl: u64, vpid: u16, ppid: u16 },
    /// Destroy a VS.
    VsDestroy { hndl: u64, vsid: u16 },
    /// Fill a VS with the state that the loader recorded for its PP.
    VsInitAsRoot { hndl: u64, vsid: u16 },
    /// Read the register `reg` of a VS.
    VsRead { hndl: u64, vsid: u16, reg: u64 },
    /// Write `val` to the register `reg` of a VS.
    VsWrite { hndl: u64, vsid: u16, reg: u64, val: u64 },
    /// Run a VS of a VP of a VM.
    VsRun { hndl: u64, vmid: u16, vpid: u16, vsid: u16 },
    /// Run the active VS.
    VsRunCurrent { hndl: u64 },
    /// Step a VS past the instruction that exited, then run it.
    VsAdvanceIpAndRun { hndl: u64, vmid: u16, vpid: u16, vsid: u16 },
    /// Step the active VS past the instruction that exited, then run it.
    VsAdvanceIpAndRunCurrent { hndl: u64 },
    /// Replace the state of the PP with the state of a VS.
    VsPromote { hndl: u64, vsid: u16 },
    /// Clear the hardware cache of a VS.
    VsClear { hndl: u64, vsid: u16 },
    /// Move a VS to another PP.
    VsMigrate { hndl: u64, vsid: u16, ppid: u16 },
    /// Make a VS of a VP of a VM the active one.
    VsSetActive { hndl: u64, vmid: u16, vpid: u16, vsid: u16 },
    /// Step a VS past the instruction that exited, then make it the active one.
    VsAdvanceIpAndSetActive { hndl: u64, vmid: u16, vpid: u16, vsid: u16 },
    /// Flush the TLB entry of a VS for the guest linear address `gla`.
    VsTlbFlush { hndl: u64, vsid: u16, gla: u64 },
    /// Read a model-specific register.
    IntrinsicRdmsr { hndl: u64, msr: u32 },
    /// Write a model-specific register.
    IntrinsicWrmsr { hndl: u64, msr: u32, val: u64 },
    /// Allocate one page.
    MemAllocPage { hndl: u64 },
    /// Allocate `size` bytes of physically contiguous memory.
    MemAllocHuge { hndl: u64, size: u64 },
    /// Execute the CPUID instruction with these register values.
    Cpuid { rax: u64, rbx: u64, rcx: u64, rdx: u64 },
}

/// What the host hands back for one `HostCall`.
///
/// `status` is the status code of a syscall; calls that are no syscalls
/// (the thread-local block, the console, the control operations, CPUID)
/// report none and the field means nothing for them. `out0` to `out3` are
/// the output registers, of which a call fills as many as it documents.
#[derive(Clone, Copy, Debug, PartialEq, Eq, Structural)]
pub struct HostReply {
    pub status: u64,
    pub out0: u64,
    pub out1: u64,
    pub out2: u64,
    pub out3: u64,
}

/// One call together with the reply that it got.
#[derive(Clone, Copy, Debug, PartialEq, Eq, Structural)]
pub struct Exchange {
    pub call: HostCall,
    pub reply: HostReply,
}

/// The host side of the boundary.
///
/// An implementation performs the call and returns what came back. Nothing
/// is promised of the reply: the gateway inspects every one.
pub trait HostGateway {
    /// Performs `call` and returns what the host answered.
    fn invoke(&mut self, call: HostCall) -> HostReply;
}

impl HostCall {
    /// True for the calls that are syscalls with a status code.
    pub open spec fn reports_status(self) -> bool {
        match self {
            HostCall::TlsLoad { .. } => false,
            HostCall::TlsStore { .. } => false,
            HostCall::ControlExit => false,
            HostCall::ControlWait => false,
            HostCall::ControlAgain => false,
            HostCall::DebugOut { .. } => false,
            HostCall::DebugDumpVm { .. } => false,
            HostCall::DebugDumpVp { .. } => false,
            HostCall::DebugDumpVs { .. } => false,
            HostCall::DebugDumpVmexitLog { .. } => false,
            HostCall::DebugWriteC { .. } => false,
            HostCall::DebugWriteStr { .. } => false,
            HostCall::DebugDumpExt { .. } => false,
            HostCall::DebugDumpPagePool => false,
            HostCall::DebugDumpHugePool => false,
            HostCall::Cpuid { .. } => false,
            _ => true,
        }
    }

    /// True if the call writes the register `reg` of some VS.
    pub open spec fn writes_register(self, reg: u64) -> bool {
        match self {
            HostCall::VsWrite { reg: written, .. } => written == reg,
            _ => false,
        }
    }
}

impl Exchange {
    /// True if the call went through: it reports no status, or the status
    /// that it reported is success.
    pub open spec fn ok(self) -> bool {
        !self.call.reports_status() || self.reply.status == BF_STATUS_SUCCESS
    }
}

/// True if the calls of `xs` are the first calls of `plan`, in order.
pub open spec fn makes(xs: Seq<Exchange>, plan: Seq<HostCall>) -> bool {
    &&& xs.len() <= plan.len()
    &&& forall|i: int| 0 <= i < xs.len() ==> (#[trigger] xs[i]).call == plan[i]
}

/// True if the calls of `xs` are the calls of `plan`, all of them, in order.
pub open spec fn makes_all(xs: Seq<Exchange>, plan: Seq<HostCall>) -> bool {
    xs.len() == plan.len() && makes(xs, plan)
}

/// True if every exchange of `xs` went through.
pub open spec fn all_ok(xs: Seq<Exchange>) -> bool {
    forall|i: int| 0 <= i < xs.len() ==> (#[trigger] xs[i]).ok()
}

/// True if `xs` is what comes of working through `plan` in order and
/// stopping at the first call that does not go through: the calls of `xs`
/// are the first calls of `plan`, all but the last of them went through, and
/// if calls of `plan` are left over, the last one did not.
pub open spec fn follows(xs: Seq<Exchange>, plan: Seq<HostCall>) -> bool {
    &&& makes(xs, plan)
    &&& forall|i: int| 0 <= i < xs.len() - 1 ==> (#[trigger] xs[i]).ok()
    &&& xs.len() < plan.len() ==> xs.len() > 0 && !xs.last().ok()
}

/// True if `xs` is what comes of working through all of `plan` with every
/// call going through.
pub open spec fn completes(xs: Seq<Exchange>, plan: Seq<HostCall>) -> bool {
    makes_all(xs, plan) && all_ok(xs)
}

/// A run that stopped short of completing a plan also follows, and does
/// not complete, every longer plan that starts with it.
pub proof fn lemma_follows_longer_plan(xs: Seq<Exchange>, plan: Seq<HostCall>, more: Seq<HostCall>)
    requires
        follows(xs, plan),
        !completes(xs, plan),
    ensures
        follows(xs, plan + more),
        !completes(xs, plan + more),
        xs.len() > 0,
        !xs.last().ok(),
{
    assert forall|i: int| 0 <= i < xs.len() implies (#[trigger] xs[i]).call == (plan + more)[i] by {
        assert(xs[i].call == plan[i]);
    }
}

/// A run that completes one plan, followed by a run that follows a second
/// plan, follows the two plans in a row, and completes them if and only if
/// the second run completes the second plan.
pub proof fn lemma_follows_in_a_row(
    xs: Seq<Exchange>,
    plan: Seq<HostCall>,
    ys: Seq<Exchange>,
    more: Seq<HostCall>,
)
    requires
        completes(xs, plan),
        follows(ys, more),
    ensures
        follows(xs + ys, plan + more),
        completes(xs + ys, plan + more) <==> completes(ys, more),
{
    let zs = xs + ys;
    assert forall|i: int| 0 <= i < zs.len() implies (#[trigger] zs[i]).call == (plan + more)[i] by {
        if i < xs.len() {
            assert(zs[i] == xs[i]);
        } else {
            assert(zs[i] == ys[i - xs.len()]);
        }
    }
    assert forall|i: int| 0 <= i < zs.len() - 1 implies (#[trigger] zs[i]).ok() by {
        if i < xs.len() {
            assert(zs[i] == xs[i]);
        } else {
            assert(zs[i] == ys[i - xs.len()]);
        }
    }
    if zs.len() < (plan + more).len() {
        assert(zs.last() == ys.last());
    }
    if completes(ys, more) {
        assert forall|i: int| 0 <= i < zs.len() implies (#[trigger] zs[i]).ok() by {
            if i < xs.len() {
                assert(zs[i] == xs[i]);
            } else {
                assert(zs[i] == ys[i - xs.len()]);
            }
        }
    }
    if completes(zs, plan + more) {
        assert forall|i: int| 0 <= i < ys.len() implies (#[trigger] ys[i]).ok() by {
            assert(zs[i + xs.len()] == ys[i]);
        }
    }
}

} // verus!
