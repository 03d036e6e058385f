//! Start of the global state.

use vstd::prelude::*;

use crate::bf_reg_t::ArchT;
use crate::bf_syscall_t::{spec_addr_of_reply, BfSyscallT};
use crate::constants::BF_STATUS_SUCCESS;
use crate::errc_type::ErrcType;
use crate::gs_t::GsT;
use crate::host_gateway::{Exchange, HostCall, HostGateway, HostReply};
use crate::intrinsic_t::IntrinsicT;
use crate::safe_integral::SafeU64;

verus! {

/// The global state after the host answered the request for the page of the
/// MSR bitmaps with `reply`: the addresses of the page if the host gave
/// one, the state as it was, with a null bitmap address, if not.
pub open spec fn gs_with_msr_bitmap(gs: GsT, reply: HostReply) -> GsT {
    GsT {
        msr_bitmap: spec_addr_of_reply(reply),
        msr_bitmap_phys: if reply.status == BF_STATUS_SUCCESS {
            SafeU64::spec_new(reply.out1)
        } else {
            gs.msr_bitmap_phys
        },
    }
}

/// What `gs_initialize` does, as the exchanges `xs` with the host and the
/// global state before and after show it. On AMD nothing is asked and
/// nothing changes. On Intel the host is asked for one page, which becomes
/// the MSR bitmaps; the result is failure if the host gives none.
pub open spec fn gs_initialized(
    before: GsT,
    arch: ArchT,
    hndl: u64,
    xs: Seq<Exchange>,
    ret: ErrcType,
    after: GsT,
) -> bool {
    match arch {
        ArchT::AuthenticAmd => xs.len() == 0 && ret == ErrcType::Success && after == before,
        ArchT::GenuineIntel => {
            &&& xs.len() == 1
            &&& xs[0].call == HostCall::MemAllocPage { hndl }
            &&& after == gs_with_msr_bitmap(before, xs[0].reply)
            &&& ret == (if after.msr_bitmap != 0 {
                ErrcType::Success
            } else {
                ErrcType::Failure
            })
        },
    }
}

/// Allocates the architecture-global resources of the extension.
pub fn gs_initialize<H: HostGateway>(
    gs: &mut GsT,
    sys: &mut BfSyscallT<H>,
    intrinsic: &IntrinsicT,
) -> (ret: ErrcType)
    requires
        old(gs).wf(),
    ensures
        final(sys).continues(*old(sys)),
        final(sys).same_session(*old(sys)),
        gs_initialized(
            *old(gs),
            old(sys).spec_arch(),
            old(sys).hndl(),
            final(sys).since(*old(sys)),
            ret,
            *final(gs),
        ),
        old(sys).spec_arch() == ArchT::AuthenticAmd ==> *final(sys) == *old(sys),
        final(gs).wf(),
{
    match sys.arch() {
        ArchT::AuthenticAmd => {
            proof {
                BfSyscallT::lemma_since_none(*sys, *old(sys));
            }
            ErrcType::Success
        },
        ArchT::GenuineIntel => {
            let mut phys = gs.msr_bitmap_phys;
            gs.msr_bitmap = sys.bf_mem_op_alloc_page(&mut phys);
            gs.msr_bitmap_phys = phys;
            proof {
                BfSyscallT::lemma_since_one(
                    *sys,
                    *old(sys),
                    HostCall::MemAllocPage { hndl: old(sys).hndl() },
                );
            }
            if gs.msr_bitmap == 0 {
                return ErrcType::Failure;
            }
            ErrcType::Success
        },
    }
}

} // verus!
