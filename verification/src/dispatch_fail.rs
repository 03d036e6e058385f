//! The dispatcher of fast fails.

use vstd::prelude::*;

use crate::bf_syscall_t::BfSyscallT;
use crate::errc_type::ErrcType;
use crate::gs_t::GsT;
use crate::host_gateway::HostGateway;
use crate::intrinsic_t::IntrinsicT;
use crate::safe_integral::SafeU64;
use crate::tls_t::TlsT;
use crate::vp_pool_t::VpPoolT;
use crate::vs_pool_t::VsPoolT;

verus! {

/// Handles a fast fail: the host could not go on with what it was doing for
/// the extension, for the reason `errc`, at the address `addr`.
///
/// There is nothing that this extension could repair. The result is always
/// failure, nothing is asked of the host, and it is for the caller to stop
/// the extension.
pub fn dispatch_fail<H: HostGateway>(
    gs: &GsT,
    tls: &TlsT,
    sys: &BfSyscallT<H>,
    intrinsic: &IntrinsicT,
    vp_pool: &VpPoolT,
    vs_pool: &VsPoolT,
    errc: SafeU64,
    addr: SafeU64,
) -> (ret: ErrcType)
    ensures
        ret == ErrcType::Failure,
{
    ErrcType::Failure
}

} // verus!
