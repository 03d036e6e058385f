//! The handler of an NMI that arrived while a guest ran.

use vstd::prelude::*;

use crate::bf_reg_t::{ArchT, BF_REG_T_PRIMARY_PROC_BASED_VM_EXECUTION_CTLS};
use crate::bf_syscall_t::{is_id_in_range, BfSyscallT};
use crate::config::HYPERVISOR_MAX_VSS;
use crate::errc_type::ErrcType;
use crate::gs_t::GsT;
use crate::host_gateway::{
    completes, follows, Exchange, HostCall, HostGateway,
};
use crate::safe_integral::{SafeU16, SafeU64};
use crate::tls_t::TlsT;

verus! {

/// Primary controls: exit as soon as the guest can take an NMI.
pub const VMCS_SET_NMI_WINDOW_EXITING: u64 = 0x400000;

/// The calls that handle an NMI exit of the VS `vsid`, whose primary
/// controls read `ctls`: read the controls, write them back with the
/// NMI-window bit set, run the VS again.
pub open spec fn nmi_plan(hndl: u64, vsid: u16, ctls: u64) -> Seq<HostCall> {
    seq![
        HostCall::VsRead { hndl, vsid, reg: BF_REG_T_PRIMARY_PROC_BASED_VM_EXECUTION_CTLS },
        HostCall::VsWrite {
            hndl,
            vsid,
            reg: BF_REG_T_PRIMARY_PROC_BASED_VM_EXECUTION_CTLS,
            val: ctls | VMCS_SET_NMI_WINDOW_EXITING,
        },
        HostCall::VsRunCurrent { hndl },
    ]
}

/// What `dispatch_vmexit_nmi` does, as the exchanges `xs` with the host show
/// it: the calls of `nmi_plan`, for the controls that the first of them
/// read, up to the first that failed. The result is failure unless even the
/// run came back with success.
pub open spec fn nmi_dispatched(hndl: u64, vsid: u16, xs: Seq<Exchange>, ret: ErrcType) -> bool {
    let plan = nmi_plan(hndl, vsid, xs[0].reply.out0);
    &&& follows(xs, plan)
    &&& ret == (if completes(xs, plan) {
        ErrcType::Success
    } else {
        ErrcType::Failure
    })
}

/// Handles an NMI exit of the VS `vsid`.
///
/// The NMI is not injected here. The handler asks for an exit as soon as the
/// guest can take an NMI, by setting the NMI-window bit in the primary
/// controls, and runs the VS again; the handler of that exit injects it.
/// Nothing else of the VS is touched.
pub fn dispatch_vmexit_nmi<H: HostGateway>(
    gs: &GsT,
    tls: &TlsT,
    sys: &mut BfSyscallT<H>,
    vsid: SafeU16,
) -> (ret: ErrcType)
    requires
        old(sys).spec_arch() == ArchT::GenuineIntel,
        is_id_in_range(vsid, HYPERVISOR_MAX_VSS),
    ensures
        final(sys).continues(*old(sys)),
        final(sys).same_session(*old(sys)),
        nmi_dispatched(old(sys).hndl(), vsid@, final(sys).since(*old(sys)), ret),
{
    let vmcs_set_nmi_window_exiting = SafeU64::new(VMCS_SET_NMI_WINDOW_EXITING);
    let ctls_idx = BF_REG_T_PRIMARY_PROC_BASED_VM_EXECUTION_CTLS;

    let val = sys.bf_vs_op_read(vsid, ctls_idx);
    let ghost s1 = *sys;
    let ghost x0 = sys.journal().last();
    let ghost plan = nmi_plan(old(sys).hndl(), vsid@, x0.reply.out0);
    proof {
        BfSyscallT::lemma_since_one(s1, *old(sys), plan[0]);
    }
    if val.is_invalid() {
        return ErrcType::Failure;
    }
    let val = val.bitor(vmcs_set_nmi_window_exiting);
    let ret = sys.bf_vs_op_write(vsid, ctls_idx, val);
    let ghost s2 = *sys;
    let ghost x1 = sys.journal().last();
    proof {
        BfSyscallT::lemma_since_step(s2, s1, *old(sys), plan[1]);
        assert(s2.since(*old(sys)) =~= seq![x0, x1]);
    }
    if !ret.success() {
        return ErrcType::Failure;
    }
    let ret = sys.bf_vs_op_run_current();
    proof {
        let x2 = sys.journal().last();
        BfSyscallT::lemma_since_step(*sys, s2, *old(sys), plan[2]);
        assert(sys.since(*old(sys)) =~= seq![x0, x1, x2]);
    }
    ret
}

/// Whatever the controls read, handling an NMI exit sets the NMI-window bit
/// in what is written back, and no call of it writes any register but the
/// primary controls: the entry-interrupt field stays as it is.
pub proof fn lemma_nmi_sets_window_and_nothing_else(hndl: u64, vsid: u16, ctls: u64)
    ensures
        nmi_plan(hndl, vsid, ctls)[1] == (HostCall::VsWrite {
            hndl,
            vsid,
            reg: BF_REG_T_PRIMARY_PROC_BASED_VM_EXECUTION_CTLS,
            val: ctls | VMCS_SET_NMI_WINDOW_EXITING,
        }),
        (ctls | VMCS_SET_NMI_WINDOW_EXITING) & VMCS_SET_NMI_WINDOW_EXITING
            == VMCS_SET_NMI_WINDOW_EXITING,
        forall|i: int, reg: u64|
            0 <= i < nmi_plan(hndl, vsid, ctls).len() && #[trigger] nmi_plan(
                hndl,
                vsid,
                ctls,
            )[i].writes_register(reg) ==> reg == BF_REG_T_PRIMARY_PROC_BASED_VM_EXECUTION_CTLS,
{
    assert((ctls | 0x400000) & 0x400000 == 0x400000) by (bit_vector);
}

} // verus!
