//! The entry points of the extension.
//!
//! The host starts the extension once, through `ext_main_entry`, and from
//! then on calls it back: to start a PP, to handle a VM exit, and when
//! something failed. A callback is meant to end in a run of a VS, which does
//! not come back. One that comes back has failed, and the entry point asks
//! the host to stop the extension.

use vstd::prelude::*;

use crate::bf_control_ops::{bf_control_op_exit, bf_control_op_wait};
use crate::bf_reg_t::ArchT;
use crate::bf_syscall_t::{initialize_ran, BfSyscallT};
use crate::config::{HYPERVISOR_MAX_PPS, HYPERVISOR_MAX_VSS};
use crate::constants::{bf_is_spec1_supported, BF_INVALID_ID};
use crate::dispatch_bootstrap::{bootstrap_dispatched, dispatch_bootstrap};
use crate::dispatch_fail::dispatch_fail;
use crate::dispatch_vmexit::{dispatch_vmexit, vmexit_dispatched};
use crate::errc_type::{ErrcType, EXIT_FAILURE, EXIT_SUCCESS};
use crate::gs_initialize::{gs_initialize, gs_initialized};
use crate::gs_t::GsT;
use crate::host_gateway::{Exchange, HostCall, HostGateway};
use crate::intrinsic_t::IntrinsicT;
use crate::safe_integral::{SafeU16, SafeU32, SafeU64};
use crate::tls_t::TlsT;
use crate::vp_pool_t::{vp_pool_free, vp_pool_is_tagged, vp_pool_unused, VpPoolT};
use crate::vs_pool_t::{vs_pool_free, vs_pool_is_tagged, vs_pool_unused, VsPoolT};

verus! {

/// What `ext_main_entry` does, as the exchanges `xs` with the host show it.
///
/// The gateway is initialized, which takes four exchanges if it works, and
/// the global state after it, which takes what `gs_initialized` says. If
/// both work, the last exchange tells the host that the extension waits for
/// callbacks, and the exit code is success. If either fails, nothing follows
/// it but the request to stop the extension, and the exit code is failure.
pub open spec fn ext_main_ran(
    arch: ArchT,
    version: u32,
    bootstrap_handler: u64,
    vmexit_handler: u64,
    fail_handler: u64,
    gs_before: GsT,
    hndl_before: u64,
    xs: Seq<Exchange>,
    ret: i32,
    gs_after: GsT,
    hndl_after: u64,
) -> bool {
    &&& xs.len() >= 1
    &&& if ret == EXIT_SUCCESS {
        &&& xs.len() >= 5
        &&& initialize_ran(
            version,
            bootstrap_handler,
            vmexit_handler,
            fail_handler,
            hndl_before,
            xs.take(4),
            ErrcType::Success,
            hndl_after,
        )
        &&& gs_initialized(
            gs_before,
            arch,
            hndl_after,
            xs.skip(4).drop_last(),
            ErrcType::Success,
            gs_after,
        )
        &&& xs.last().call == HostCall::ControlWait
    } else {
        &&& ret == EXIT_FAILURE
        &&& xs.last().call == HostCall::ControlExit
        &&& {
            ||| {
                &&& initialize_ran(
                    version,
                    bootstrap_handler,
                    vmexit_handler,
                    fail_handler,
                    hndl_before,
                    xs.drop_last(),
                    if bf_is_spec1_supported(version) {
                        ErrcType::Failure
                    } else {
                        ErrcType::Unsupported
                    },
                    hndl_after,
                )
                &&& gs_after == gs_before
            }
            ||| {
                &&& xs.len() >= 5
                &&& initialize_ran(
                    version,
                    bootstrap_handler,
                    vmexit_handler,
                    fail_handler,
                    hndl_before,
                    xs.take(4),
                    ErrcType::Success,
                    hndl_after,
                )
                &&& gs_initialized(
                    gs_before,
                    arch,
                    hndl_after,
                    xs.skip(4).drop_last(),
                    ErrcType::Failure,
                    gs_after,
                )
            }
        }
    }
}

/// Starts the extension.
///
/// Opens the session with the host and registers the three callbacks,
/// allocates the global state, gives every record of the two pools its ID,
/// and tells the host that the extension waits for callbacks. If the
/// session or the global state cannot be had, the host is asked to stop the
/// extension and the pools stay as they were.
pub fn ext_main_entry<H: HostGateway>(
    gs: &mut GsT,
    tls: &TlsT,
    sys: &mut BfSyscallT<H>,
    intrinsic: &IntrinsicT,
    vp_pool: &mut VpPoolT,
    vs_pool: &mut VsPoolT,
    version: u32,
    bootstrap_handler: u64,
    vmexit_handler: u64,
    fail_handler: u64,
) -> (ret: i32)
    requires
        bootstrap_handler != 0,
        vmexit_handler != 0,
        fail_handler != 0,
        old(gs).wf(),
        old(vp_pool).wf(),
        old(vp_pool)@ == vp_pool_unused(),
        old(vs_pool).wf(),
        old(vs_pool)@ == vs_pool_unused(),
    ensures
        final(sys).continues(*old(sys)),
        ext_main_ran(
            old(sys).spec_arch(),
            version,
            bootstrap_handler,
            vmexit_handler,
            fail_handler,
            *old(gs),
            old(sys).hndl(),
            final(sys).since(*old(sys)),
            ret,
            *final(gs),
            final(sys).hndl(),
        ),
        final(gs).wf(),
        final(vp_pool).wf(),
        final(vs_pool).wf(),
        ret == EXIT_SUCCESS ==> {
            &&& final(vp_pool)@ == vp_pool_free()
            &&& vp_pool_is_tagged(final(vp_pool)@)
            &&& final(vs_pool)@ == vs_pool_free()
            &&& vs_pool_is_tagged(final(vs_pool)@)
        },
        ret != EXIT_SUCCESS ==> {
            &&& *final(vp_pool) == *old(vp_pool)
            &&& *final(vs_pool) == *old(vs_pool)
        },
{
    let ret = sys.initialize(
        SafeU32::new(version),
        bootstrap_handler,
        vmexit_handler,
        fail_handler,
    );
    let ghost s1 = *sys;
    if !ret.success() {
        bf_control_op_exit(sys);
        proof {
            BfSyscallT::lemma_since_step(*sys, s1, *old(sys), HostCall::ControlExit);
            assert(sys.since(*old(sys)).drop_last() =~= s1.since(*old(sys)));
        }
        return EXIT_FAILURE;
    }
    let ret = gs_initialize(gs, sys, intrinsic);
    let ghost s2 = *sys;
    proof {
        BfSyscallT::lemma_since_chain(s2, s1, *old(sys));
    }
    if !ret.success() {
        bf_control_op_exit(sys);
        proof {
            BfSyscallT::lemma_since_step(*sys, s2, *old(sys), HostCall::ControlExit);
            let xs = sys.since(*old(sys));
            assert(xs.take(4) =~= s1.since(*old(sys)));
            assert(xs.skip(4).drop_last() =~= s2.since(s1));
        }
        return EXIT_FAILURE;
    }
    vp_pool.initialize(gs, tls, sys, intrinsic);
    vs_pool.initialize(gs, tls, sys, intrinsic);

    bf_control_op_wait(sys);
    proof {
        BfSyscallT::lemma_since_step(*sys, s2, *old(sys), HostCall::ControlWait);
        let xs = sys.since(*old(sys));
        assert(xs.take(4) =~= s1.since(*old(sys)));
        assert(xs.skip(4).drop_last() =~= s2.since(s1));
    }
    EXIT_SUCCESS
}

/// The bootstrap callback: starts the PP `ppid`.
///
/// Whatever `dispatch_bootstrap` reports, it reports by coming back, which
/// it should not have. The host is asked to stop the extension, and the
/// result is what the dispatcher reported.
pub fn bootstrap_entry<H: HostGateway>(
    gs: &GsT,
    tls: &mut TlsT,
    sys: &mut BfSyscallT<H>,
    intrinsic: &IntrinsicT,
    vp_pool: &mut VpPoolT,
    vs_pool: &mut VsPoolT,
    ppid: u16,
) -> (ret: ErrcType)
    requires
        ppid != BF_INVALID_ID,
        ppid < HYPERVISOR_MAX_PPS,
        gs.wf(),
        old(vp_pool).wf(),
        vp_pool_is_tagged(old(vp_pool)@),
        old(vs_pool).wf(),
        vs_pool_is_tagged(old(vs_pool)@),
    ensures
        final(vp_pool).wf(),
        vp_pool_is_tagged(final(vp_pool)@),
        final(vs_pool).wf(),
        vs_pool_is_tagged(final(vs_pool)@),
        final(sys).continues(*old(sys)),
        final(sys).same_session(*old(sys)),
        final(sys).since(*old(sys)).len() >= 1,
        bootstrap_dispatched(
            old(vp_pool)@,
            old(vs_pool)@,
            old(sys).spec_arch(),
            old(sys).hndl(),
            gs.msr_bitmap_phys@,
            ppid,
            final(sys).since(*old(sys)).drop_last(),
            ret,
            final(vp_pool)@,
            final(vs_pool)@,
        ),
        final(sys).since(*old(sys)).last().call == HostCall::ControlExit,
{
    let ret = dispatch_bootstrap(gs, tls, sys, intrinsic, vp_pool, vs_pool, SafeU16::new(ppid));
    let ghost s1 = *sys;
    bf_control_op_exit(sys);
    proof {
        BfSyscallT::lemma_since_step(*sys, s1, *old(sys), HostCall::ControlExit);
        assert(sys.since(*old(sys)).drop_last() =~= s1.since(*old(sys)));
    }
    ret
}

/// The VM-exit callback: handles one exit of the VS `vsid`.
///
/// Whatever `dispatch_vmexit` reports, it reports by coming back, which it
/// should not have. The host is asked to stop the extension, and the result
/// is what the dispatcher reported.
pub fn vmexit_entry<H: HostGateway>(
    gs: &GsT,
    tls: &TlsT,
    sys: &mut BfSyscallT<H>,
    intrinsic: &IntrinsicT,
    vp_pool: &VpPoolT,
    vs_pool: &VsPoolT,
    vsid: u16,
    exit_reason: u64,
) -> (ret: ErrcType)
    requires
        vsid != BF_INVALID_ID,
        vsid < HYPERVISOR_MAX_VSS,
    ensures
        final(sys).continues(*old(sys)),
        final(sys).same_session(*old(sys)),
        final(sys).since(*old(sys)).len() >= 1,
        vmexit_dispatched(
            old(sys).spec_arch(),
            old(sys).hndl(),
            vsid,
            exit_reason,
            final(sys).since(*old(sys)).drop_last(),
            ret,
        ),
        final(sys).since(*old(sys)).last().call == HostCall::ControlExit,
{
    let ret = dispatch_vmexit(
        gs,
        tls,
        sys,
        intrinsic,
        vp_pool,
        vs_pool,
        SafeU16::new(vsid),
        SafeU64::new(exit_reason),
    );
    let ghost s1 = *sys;
    bf_control_op_exit(sys);
    proof {
        BfSyscallT::lemma_since_step(*sys, s1, *old(sys), HostCall::ControlExit);
        assert(sys.since(*old(sys)).drop_last() =~= s1.since(*old(sys)));
    }
    ret
}

/// The fast-fail callback: the host could not go on, for the reason `errc`,
/// at the address `addr`.
///
/// The dispatcher repairs nothing. The host is asked to stop the extension,
/// and nothing else is asked of it.
pub fn fail_entry<H: HostGateway>(
    gs: &GsT,
    tls: &TlsT,
    sys: &mut BfSyscallT<H>,
    intrinsic: &IntrinsicT,
    vp_pool: &VpPoolT,
    vs_pool: &VsPoolT,
    errc: u64,
    addr: u64,
) -> (ret: ErrcType)
    ensures
        final(sys).did(*old(sys), HostCall::ControlExit),
        ret == ErrcType::Failure,
{
    let ret = dispatch_fail(
        gs,
        tls,
        sys,
        intrinsic,
        vp_pool,
        vs_pool,
        SafeU64::new(errc),
        SafeU64::new(addr),
    );
    bf_control_op_exit(sys);
    ret
}

} // verus!
