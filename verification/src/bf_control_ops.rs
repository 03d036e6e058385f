//! Control operations: how the extension hands control back to the host.

use vstd::prelude::*;

use crate::bf_syscall_t::BfSyscallT;
use crate::host_gateway::{HostCall, HostGateway};

verus! {

/// Tells the host that the extension is done and must be stopped. The extension
/// asks for this when it cannot go on, and at the end of a callback that came
/// back although it should have run a VS.
pub fn bf_control_op_exit<H: HostGateway>(sys: &mut BfSyscallT<H>)
    ensures
        final(sys).did(*old(sys), HostCall::ControlExit),
{
    sys.notify(HostCall::ControlExit);
}

/// Tells the host that the extension has started and now waits for callbacks.
pub fn bf_control_op_wait<H: HostGateway>(sys: &mut BfSyscallT<H>)
    ensures
        final(sys).did(*old(sys), HostCall::ControlWait),
{
    sys.notify(HostCall::ControlWait);
}

/// Tells the host that the callback is done and that the host may call it
/// again.
pub fn bf_control_op_again<H: HostGateway>(sys: &mut BfSyscallT<H>)
    ensures
        final(sys).did(*old(sys), HostCall::ControlAgain),
{
    sys.notify(HostCall::ControlAgain);
}

} // verus!
