//! The dispatcher of VM exits.

use vstd::prelude::*;

use crate::bf_debug_ops::bf_debug_op_dump_vs;
use crate::bf_reg_t::ArchT;
use crate::bf_syscall_t::{is_id_in_range, BfSyscallT};
use crate::config::HYPERVISOR_MAX_VSS;
use crate::dispatch_vmexit_cpuid::{cpuid_dispatched, dispatch_vmexit_cpuid};
use crate::dispatch_vmexit_nmi::{dispatch_vmexit_nmi, nmi_dispatched};
use crate::dispatch_vmexit_nmi_window::{dispatch_vmexit_nmi_window, nmi_window_dispatched};
use crate::errc_type::ErrcType;
use crate::gs_t::GsT;
use crate::host_gateway::{Exchange, HostCall, HostGateway};
use crate::intrinsic_t::IntrinsicT;
use crate::safe_integral::{SafeU16, SafeU64};
use crate::tls_t::TlsT;
use crate::vp_pool_t::VpPoolT;
use crate::vs_pool_t::VsPoolT;

verus! {

/// AMD: the exit code of an intercepted CPUID.
pub const EXIT_REASON_CPUID_AMD: u64 = 0x72;

/// Intel: the exit reason of an exception or an NMI.
pub const EXIT_REASON_NMI: u64 = 0x0;

/// Intel: the exit reason of an open NMI window.
pub const EXIT_REASON_NMI_WINDOW: u64 = 0x8;

/// Intel: the exit reason of a CPUID.
pub const EXIT_REASON_CPUID_INTEL: u64 = 0xA;

/// The handlers that an exit can go to.
#[derive(Clone, Copy, Debug, PartialEq, Eq, Structural)]
pub enum VmexitT {
    /// The guest executed CPUID.
    Cpuid,
    /// An NMI arrived.
    Nmi,
    /// The guest can take an NMI.
    NmiWindow,
    /// No handler takes the exit.
    Unsupported,
}

/// The handler that an exit with the reason `exit_reason` goes to on
/// `arch`.
pub open spec fn spec_vmexit_of(arch: ArchT, exit_reason: u64) -> VmexitT {
    match arch {
        ArchT::AuthenticAmd => if exit_reason == EXIT_REASON_CPUID_AMD {
            VmexitT::Cpuid
        } else {
            VmexitT::Unsupported
        },
        ArchT::GenuineIntel => if exit_reason == EXIT_REASON_NMI {
            VmexitT::Nmi
        } else if exit_reason == EXIT_REASON_NMI_WINDOW {
            VmexitT::NmiWindow
        } else if exit_reason == EXIT_REASON_CPUID_INTEL {
            VmexitT::Cpuid
        } else {
            VmexitT::Unsupported
        },
    }
}

/// Looks up the handler that an exit with the reason `exit_reason` goes to
/// on `arch`.
#[verifier::when_used_as_spec(spec_vmexit_of)]
pub fn vmexit_of(arch: ArchT, exit_reason: u64) -> (ret: VmexitT)
    ensures
        ret == spec_vmexit_of(arch, exit_reason),
{
    match arch {
        ArchT::AuthenticAmd => {
            if exit_reason == EXIT_REASON_CPUID_AMD {
                VmexitT::Cpuid
            } else {
                VmexitT::Unsupported
            }
        },
        ArchT::GenuineIntel => {
            if exit_reason == EXIT_REASON_NMI {
                VmexitT::Nmi
            } else if exit_reason == EXIT_REASON_NMI_WINDOW {
                VmexitT::NmiWindow
            } else if exit_reason == EXIT_REASON_CPUID_INTEL {
                VmexitT::Cpuid
            } else {
                VmexitT::Unsupported
            }
        },
    }
}

/// What `dispatch_vmexit` does, as the exchanges `xs` with the host show
/// it: what the handler of the exit does, or, for an exit that no handler
/// takes, a dump of the VS and a failure.
pub open spec fn vmexit_dispatched(
    arch: ArchT,
    hndl: u64,
    vsid: u16,
    exit_reason: u64,
    xs: Seq<Exchange>,
    ret: ErrcType,
) -> bool {
    match spec_vmexit_of(arch, exit_reason) {
        VmexitT::Cpuid => cpuid_dispatched(hndl, vsid, xs, ret),
        VmexitT::Nmi => nmi_dispatched(hndl, vsid, xs, ret),
        VmexitT::NmiWindow => nmi_window_dispatched(hndl, vsid, xs, ret),
        VmexitT::Unsupported => {
            &&& xs == seq![xs[0]]
            &&& xs[0].call == HostCall::DebugDumpVs { vsid }
            &&& ret == ErrcType::Failure
        },
    }
}

/// Handles one VM exit of the VS `vsid`.
///
/// The exit goes to the handler that `vmexit_of` names for its reason, and
/// the result is the handler's. An exit that no handler takes is answered
/// with a dump of the VS on the host console and a failure; it is for the
/// caller to stop the extension.
pub fn dispatch_vmexit<H: HostGateway>(
    gs: &GsT,
    tls: &TlsT,
    sys: &mut BfSyscallT<H>,
    intrinsic: &IntrinsicT,
    vp_pool: &VpPoolT,
    vs_pool: &VsPoolT,
    vsid: SafeU16,
    exit_reason: SafeU64,
) -> (ret: ErrcType)
    requires
        is_id_in_range(vsid, HYPERVISOR_MAX_VSS),
        exit_reason.is_valid_and_checked(),
    ensures
        final(sys).continues(*old(sys)),
        final(sys).same_session(*old(sys)),
        vmexit_dispatched(
            old(sys).spec_arch(),
            old(sys).hndl(),
            vsid@,
            exit_reason@,
            final(sys).since(*old(sys)),
            ret,
        ),
{
    match vmexit_of(sys.arch(), exit_reason.get()) {
        VmexitT::Cpuid => {
            return dispatch_vmexit_cpuid(gs, tls, sys, intrinsic, vsid);
        },
        VmexitT::Nmi => {
            return dispatch_vmexit_nmi(gs, tls, sys, vsid);
        },
        VmexitT::NmiWindow => {
            return dispatch_vmexit_nmi_window(gs, tls, sys, vsid);
        },
        VmexitT::Unsupported => {},
    }
    bf_debug_op_dump_vs(sys, vsid);
    proof {
        BfSyscallT::lemma_since_one(*sys, *old(sys), HostCall::DebugDumpVs { vsid: vsid@ });
    }
    ErrcType::Failure
}

} // verus!
