//! The dispatcher of the bootstrap callback.

use vstd::prelude::*;

use crate::bf_reg_t::ArchT;
use crate::bf_syscall_t::{is_id_in_range, spec_errc_of_status, spec_id_of_reply, BfSyscallT};
use crate::config::{HYPERVISOR_MAX_PPS, HYPERVISOR_MAX_VPS, HYPERVISOR_MAX_VSS};
use crate::constants::BF_ROOT_VMID;
use crate::errc_type::ErrcType;
use crate::gs_t::GsT;
use crate::host_gateway::{Exchange, HostCall, HostGateway};
use crate::intrinsic_t::IntrinsicT;
use crate::safe_integral::SafeU16;
use crate::tls_initialize::tls_initialize;
use crate::tls_t::TlsT;
use crate::vp_pool_t::{
    vp_pool_allocate, vp_pool_allocate_ret, vp_pool_allocated, vp_pool_is_tagged, VpPoolT,
};
use crate::vp_t::VpView;
use crate::vs_pool_t::{vs_pool_allocate, vs_pool_allocated, vs_pool_is_tagged, VsPoolT};
use crate::vs_t::VsView;

verus! {

/// What `dispatch_bootstrap` does for the PP `ppid`, as the exchanges `xs`
/// with the host and the two pools before and after show it.
///
/// First one VP is allocated for the root VM, which takes the first
/// exchange. If that fails, nothing else happens and the result is failure.
/// Otherwise one VS is allocated for that VP on `ppid`. If that fails, it
/// took the rest of the exchanges and the result is failure. Otherwise the
/// last exchange asks the host to run the new VS of the new VP of the root
/// VM, and the result is the outcome of that call.
pub open spec fn bootstrap_dispatched(
    vps_before: Seq<VpView>,
    vss_before: Seq<VsView>,
    arch: ArchT,
    hndl: u64,
    msr_bitmap_phys: u64,
    ppid: u16,
    xs: Seq<Exchange>,
    ret: ErrcType,
    vps_after: Seq<VpView>,
    vss_after: Seq<VsView>,
) -> bool {
    let vpid = vp_pool_allocate_ret(vps_before, xs[0]);
    let ys = xs.skip(1);
    let vsid = spec_id_of_reply(ys[0].reply, HYPERVISOR_MAX_VSS);
    &&& xs.len() >= 1
    &&& vp_pool_allocated(vps_before, hndl, BF_ROOT_VMID, xs[0], vpid, vps_after)
    &&& if vpid.is_invalid() {
        &&& xs.len() == 1
        &&& ret == ErrcType::Failure
        &&& vss_after == vss_before
    } else {
        ||| {
            &&& vs_pool_allocated(
                vss_before,
                arch,
                hndl,
                msr_bitmap_phys,
                vpid@,
                ppid,
                ys,
                SafeU16::spec_failure(),
                vss_after,
            )
            &&& ret == ErrcType::Failure
        }
        ||| {
            &&& ys.len() >= 2
            &&& vsid.is_valid()
            &&& vs_pool_allocated(
                vss_before,
                arch,
                hndl,
                msr_bitmap_phys,
                vpid@,
                ppid,
                ys.drop_last(),
                vsid,
                vss_after,
            )
            &&& ys.last().call == HostCall::VsRun {
                hndl,
                vmid: BF_ROOT_VMID,
                vpid: vpid@,
                vsid: vsid@,
            }
            &&& ret == spec_errc_of_status(ys.last().reply.status)
        }
    }
}

/// Starts the PP `ppid`: creates one VP for the root VM and one VS for that
/// VP on this PP, and asks the host to run them.
///
/// With a real host the run does not come back. Any result, then, says that
/// the PP could not be started, and it is for the caller to stop the
/// extension.
pub fn dispatch_bootstrap<H: HostGateway>(
    gs: &GsT,
    tls: &mut TlsT,
    sys: &mut BfSyscallT<H>,
    intrinsic: &IntrinsicT,
    vp_pool: &mut VpPoolT,
    vs_pool: &mut VsPoolT,
    ppid: SafeU16,
) -> (ret: ErrcType)
    requires
        is_id_in_range(ppid, HYPERVISOR_MAX_PPS),
        gs.wf(),
        old(vp_pool).wf(),
        vp_pool_is_tagged(old(vp_pool)@),
        old(vs_pool).wf(),
        vs_pool_is_tagged(old(vs_pool)@),
    ensures
        final(vp_pool).wf(),
        vp_pool_is_tagged(final(vp_pool)@),
        final(vs_pool).wf(),
        vs_pool_is_tagged(final(vs_pool)@),
        final(sys).continues(*old(sys)),
        final(sys).same_session(*old(sys)),
        bootstrap_dispatched(
            old(vp_pool)@,
            old(vs_pool)@,
            old(sys).spec_arch(),
            old(sys).hndl(),
            gs.msr_bitmap_phys@,
            ppid@,
            final(sys).since(*old(sys)),
            ret,
            final(vp_pool)@,
            final(vs_pool)@,
        ),
{
    let ret = tls_initialize(tls, sys, intrinsic);
    if !ret.success() {
        return ErrcType::Failure;
    }
    let vmid = SafeU16::new(BF_ROOT_VMID);

    let vpid = vp_pool.allocate(gs, tls, sys, intrinsic, vmid);
    let ghost s1 = *sys;
    proof {
        BfSyscallT::lemma_since_one(
            s1,
            *old(sys),
            HostCall::VpCreate { hndl: old(sys).hndl(), vmid: BF_ROOT_VMID },
        );
    }
    if vpid.is_invalid() {
        return ErrcType::Failure;
    }
    let vsid = vs_pool.allocate(gs, tls, sys, intrinsic, vpid, ppid);
    let ghost s2 = *sys;
    proof {
        BfSyscallT::lemma_since_chain(s2, s1, *old(sys));
        assert(s2.since(*old(sys)).skip(1) =~= s2.since(s1));
    }
    if vsid.is_invalid() {
        return ErrcType::Failure;
    }
    let ret = sys.bf_vs_op_run(vmid, vpid, vsid);
    proof {
        BfSyscallT::lemma_since_step(
            *sys,
            s2,
            *old(sys),
            HostCall::VsRun {
                hndl: old(sys).hndl(),
                vmid: BF_ROOT_VMID,
                vpid: vpid@,
                vsid: vsid@,
            },
        );
        let xs = sys.since(*old(sys));
        let ys = xs.skip(1);
        assert(ys.drop_last() =~= s2.since(s1));
        assert(ys[0] == s2.since(s1)[0]);
    }
    ret
}

/// A bootstrap that reports success has allocated exactly one VP, for the
/// root VM, and exactly one VS, for that VP on the PP `ppid`, and the last
/// thing that it asked of the host was to run them, which the host did not
/// refuse. The VP and the VS are those that the host named in its first two
/// replies.
pub proof fn lemma_bootstrap_success_runs_one_vp_and_one_vs(
    vps_before: Seq<VpView>,
    vss_before: Seq<VsView>,
    arch: ArchT,
    hndl: u64,
    msr_bitmap_phys: u64,
    ppid: u16,
    xs: Seq<Exchange>,
    vps_after: Seq<VpView>,
    vss_after: Seq<VsView>,
)
    requires
        bootstrap_dispatched(
            vps_before,
            vss_before,
            arch,
            hndl,
            msr_bitmap_phys,
            ppid,
            xs,
            ErrcType::Success,
            vps_after,
            vss_after,
        ),
    ensures
        xs.len() >= 3,
        xs[0].call == (HostCall::VpCreate { hndl, vmid: BF_ROOT_VMID }),
        xs[1].call == (HostCall::VsCreate {
            hndl,
            vpid: spec_id_of_reply(xs[0].reply, HYPERVISOR_MAX_VPS)@,
            ppid,
        }),
        xs.last().call == (HostCall::VsRun {
            hndl,
            vmid: BF_ROOT_VMID,
            vpid: spec_id_of_reply(xs[0].reply, HYPERVISOR_MAX_VPS)@,
            vsid: spec_id_of_reply(xs[1].reply, HYPERVISOR_MAX_VSS)@,
        }),
        xs.last().ok(),
        vps_after == vp_pool_allocate(
            vps_before,
            spec_id_of_reply(xs[0].reply, HYPERVISOR_MAX_VPS)@,
            BF_ROOT_VMID,
        ),
        vss_after == vs_pool_allocate(
            vss_before,
            spec_id_of_reply(xs[1].reply, HYPERVISOR_MAX_VSS)@,
            spec_id_of_reply(xs[0].reply, HYPERVISOR_MAX_VPS)@,
            ppid,
        ),
{
    let ys = xs.skip(1);
    assert(ys[0] == xs[1]);
    assert(ys.drop_last()[0] == ys[0]);
    assert(ys.last() == xs.last());
}

} // verus!
