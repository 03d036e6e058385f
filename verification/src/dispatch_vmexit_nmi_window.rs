//! The handler of the exit that says the guest can take an NMI now.

use vstd::prelude::*;

use crate::bf_reg_t::{
    ArchT, BF_REG_T_PRIMARY_PROC_BASED_VM_EXECUTION_CTLS,
    BF_REG_T_VMENTRY_INTERRUPT_INFORMATION_FIELD,
};
use crate::bf_syscall_t::{is_id_in_range, BfSyscallT};
use crate::config::HYPERVISOR_MAX_VSS;
use crate::dispatch_vmexit_nmi::VMCS_SET_NMI_WINDOW_EXITING;
use crate::errc_type::ErrcType;
use crate::gs_t::GsT;
use crate::host_gateway::{
    completes, follows, Exchange, HostCall, HostGateway,
};
use crate::safe_integral::{SafeU16, SafeU64};
use crate::tls_t::TlsT;

verus! {

/// The entry-interrupt information that injects an NMI: valid, type NMI,
/// vector 2.
pub const VMCS_NMI_INFO: u64 = 0x80000202;

/// The mask that clears the NMI-window bit of the primary controls, which
/// are 32 bits wide.
pub const VMCS_CLEAR_NMI_WINDOW_EXITING: u64 = 0xFFBFFFFF;

/// The calls that handle an NMI-window exit of the VS `vsid`, whose primary
/// controls read `ctls`: read the controls, write them back with the
/// NMI-window bit cleared, write the NMI into the entry-interrupt field,
/// run the VS again.
pub open spec fn nmi_window_plan(hndl: u64, vsid: u16, ctls: u64) -> Seq<HostCall> {
    seq![
        HostCall::VsRead { hndl, vsid, reg: BF_REG_T_PRIMARY_PROC_BASED_VM_EXECUTION_CTLS },
        HostCall::VsWrite {
            hndl,
            vsid,
            reg: BF_REG_T_PRIMARY_PROC_BASED_VM_EXECUTION_CTLS,
            val: ctls & VMCS_CLEAR_NMI_WINDOW_EXITING,
        },
        HostCall::VsWrite {
            hndl,
            vsid,
            reg: BF_REG_T_VMENTRY_INTERRUPT_INFORMATION_FIELD,
            val: VMCS_NMI_INFO,
        },
        HostCall::VsRunCurrent { hndl },
    ]
}

/// What `dispatch_vmexit_nmi_window` does, as the exchanges `xs` with the
/// host show it: the calls of `nmi_window_plan`, for the controls that the
/// first of them read, up to the first that failed. The result is failure
/// unless even the run came back with success.
pub open spec fn nmi_window_dispatched(
    hndl: u64,
    vsid: u16,
    xs: Seq<Exchange>,
    ret: ErrcType,
) -> bool {
    let plan = nmi_window_plan(hndl, vsid, xs[0].reply.out0);
    &&& follows(xs, plan)
    &&& ret == (if completes(xs, plan) {
        ErrcType::Success
    } else {
        ErrcType::Failure
    })
}

/// Handles an NMI-window exit of the VS `vsid`.
///
/// The exit says that the guest can take an NMI, and it was asked for
/// because one is owed. The handler stops asking, by clearing the NMI-window
/// bit in the primary controls, injects the NMI by writing it into the
/// entry-interrupt field, and runs the VS again.
pub fn dispatch_vmexit_nmi_window<H: HostGateway>(
    gs: &GsT,
    tls: &TlsT,
    sys: &mut BfSyscallT<H>,
    vsid: SafeU16,
) -> (ret: ErrcType)
    requires
        old(sys).spec_arch() == ArchT::GenuineIntel,
        is_id_in_range(vsid, HYPERVISOR_MAX_VSS),
    ensures
        final(sys).continues(*old(sys)),
        final(sys).same_session(*old(sys)),
        nmi_window_dispatched(old(sys).hndl(), vsid@, final(sys).since(*old(sys)), ret),
{
    let nmi_info = SafeU64::new(VMCS_NMI_INFO);
    let vmcs_clear_nmi_window_exiting = SafeU64::new(VMCS_CLEAR_NMI_WINDOW_EXITING);
    let ctls_idx = BF_REG_T_PRIMARY_PROC_BASED_VM_EXECUTION_CTLS;
    let info_idx = BF_REG_T_VMENTRY_INTERRUPT_INFORMATION_FIELD;

    let val = sys.bf_vs_op_read(vsid, ctls_idx);
    let ghost s1 = *sys;
    let ghost x0 = sys.journal().last();
    let ghost plan = nmi_window_plan(old(sys).hndl(), vsid@, x0.reply.out0);
    proof {
        BfSyscallT::lemma_since_one(s1, *old(sys), plan[0]);
    }
    if val.is_invalid() {
        return ErrcType::Failure;
    }
    let val = val.bitand(vmcs_clear_nmi_window_exiting);
    let ret = sys.bf_vs_op_write(vsid, ctls_idx, val);
    let ghost s2 = *sys;
    let ghost x1 = sys.journal().last();
    proof {
        BfSyscallT::lemma_since_step(s2, s1, *old(sys), plan[1]);
        assert(s2.since(*old(sys)) =~= seq![x0, x1]);
    }
    if !ret.success() {
        return ErrcType::Failure;
    }
    let ret = sys.bf_vs_op_write(vsid, info_idx, nmi_info);
    let ghost s3 = *sys;
    let ghost x2 = sys.journal().last();
    proof {
        BfSyscallT::lemma_since_step(s3, s2, *old(sys), plan[2]);
        assert(s3.since(*old(sys)) =~= seq![x0, x1, x2]);
    }
    if !ret.success() {
        return ErrcType::Failure;
    }
    let ret = sys.bf_vs_op_run_current();
    proof {
        let x3 = sys.journal().last();
        BfSyscallT::lemma_since_step(*sys, s3, *old(sys), plan[3]);
        assert(sys.since(*old(sys)) =~= seq![x0, x1, x2, x3]);
    }
    ret
}

/// Whatever the controls read, handling an NMI-window exit clears the
/// NMI-window bit in what is written back, and exactly one call of it
/// writes the entry-interrupt field: the third, with the NMI.
pub proof fn lemma_nmi_window_clears_and_injects_once(hndl: u64, vsid: u16, ctls: u64)
    ensures
        nmi_window_plan(hndl, vsid, ctls)[1] == (HostCall::VsWrite {
            hndl,
            vsid,
            reg: BF_REG_T_PRIMARY_PROC_BASED_VM_EXECUTION_CTLS,
            val: ctls & VMCS_CLEAR_NMI_WINDOW_EXITING,
        }),
        (ctls & VMCS_CLEAR_NMI_WINDOW_EXITING) & VMCS_SET_NMI_WINDOW_EXITING == 0,
        forall|i: int|
            0 <= i < nmi_window_plan(hndl, vsid, ctls).len() && #[trigger] nmi_window_plan(
                hndl,
                vsid,
                ctls,
            )[i].writes_register(BF_REG_T_VMENTRY_INTERRUPT_INFORMATION_FIELD) ==> i == 2,
        nmi_window_plan(hndl, vsid, ctls)[2] == (HostCall::VsWrite {
            hndl,
            vsid,
            reg: BF_REG_T_VMENTRY_INTERRUPT_INFORMATION_FIELD,
            val: VMCS_NMI_INFO,
        }),
{
    assert((ctls & 0xFFBFFFFF) & 0x400000 == 0) by (bit_vector);
}

} // verus!
