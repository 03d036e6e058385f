//! Instructions that the extension executes on its own behalf.

use vstd::prelude::*;

use crate::bf_syscall_t::BfSyscallT;
use crate::host_gateway::{HostCall, HostGateway};
use crate::safe_integral::SafeU64;

verus! {

/// Access to the processor's own instructions.
#[derive(Clone, Copy, Debug)]
pub struct IntrinsicT {}

impl IntrinsicT {
    /// Makes the accessor. It holds nothing.
    pub fn new() -> (ret: Self) {
        IntrinsicT {}
    }

    /// Executes CPUID with the given register values and leaves in each
    /// register what the processor put there.
    pub fn cpuid<H: HostGateway>(
        &self,
        sys: &mut BfSyscallT<H>,
        rax: &mut SafeU64,
        rbx: &mut SafeU64,
        rcx: &mut SafeU64,
        rdx: &mut SafeU64,
    )
        requires
            old(rax).is_valid_and_checked(),
            old(rbx).is_valid_and_checked(),
            old(rcx).is_valid_and_checked(),
            old(rdx).is_valid_and_checked(),
        ensures
            final(sys).did(
                *old(sys),
                HostCall::Cpuid { rax: old(rax)@, rbx: old(rbx)@, rcx: old(rcx)@, rdx: old(rdx)@ },
            ),
            *final(rax) == SafeU64::spec_new(final(sys).answer().out0),
            *final(rbx) == SafeU64::spec_new(final(sys).answer().out1),
            *final(rcx) == SafeU64::spec_new(final(sys).answer().out2),
            *final(rdx) == SafeU64::spec_new(final(sys).answer().out3),
    {
        let reply = sys.cpuid(rax.get(), rbx.get(), rcx.get(), rdx.get());
        *rax = SafeU64::new(reply.out0);
        *rbx = SafeU64::new(reply.out1);
        *rcx = SafeU64::new(reply.out2);
        *rdx = SafeU64::new(reply.out3);
    }
}

} // verus!
