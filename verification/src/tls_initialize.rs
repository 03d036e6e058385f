//! Start of the per-processor state.

use vstd::prelude::*;

use crate::bf_syscall_t::BfSyscallT;
use crate::errc_type::ErrcType;
use crate::host_gateway::HostGateway;
use crate::intrinsic_t::IntrinsicT;
use crate::tls_t::TlsT;

verus! {

/// Initializes the per-processor state of the PP that runs this code. The
/// state is empty, so there is nothing to do and nothing that can fail.
pub fn tls_initialize<H: HostGateway>(
    tls: &TlsT,
    sys: &BfSyscallT<H>,
    intrinsic: &IntrinsicT,
) -> (ret: ErrcType)
    ensures
        ret == ErrcType::Success,
{
    ErrcType::Success
}

} // verus!
