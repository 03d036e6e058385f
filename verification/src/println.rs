//! Text output on the host console.

use vstd::prelude::*;
use vstd::string::StringSliceAdditionalSpecFns;

use crate::bf_debug_ops::bf_debug_op_write_c;
use crate::bf_syscall_t::BfSyscallT;
use crate::host_gateway::{makes_all, HostCall, HostGateway};

verus! {

/// The calls that print the bytes `bytes` on the host console, one call for
/// each byte, in order.
pub open spec fn write_c_calls(bytes: Seq<u8>) -> Seq<HostCall> {
    Seq::new(bytes.len(), |i: int| HostCall::DebugWriteC { c: bytes[i] })
}

/// Writes text to the host console, one byte at a time.
pub struct Writer;

impl Writer {
    /// Prints the bytes of `s` on the host console, in order.
    pub fn write_string<H: HostGateway>(&mut self, sys: &mut BfSyscallT<H>, s: &str)
        ensures
            final(sys).continues(*old(sys)),
            final(sys).same_session(*old(sys)),
            makes_all(final(sys).since(*old(sys)), write_c_calls(s.spec_bytes())),
    {
        let bytes = s.as_bytes();
        let mut i: usize = 0;
        proof {
            BfSyscallT::lemma_since_none(*sys, *old(sys));

        }
        while i < bytes.len()
            invariant
                i <= bytes@.len(),
                sys.continues(*old(sys)),
                sys.same_session(*old(sys)),
                makes_all(sys.since(*old(sys)), write_c_calls(bytes@.take(i as int))),
            decreases bytes@.len() - i,
        {
            let ghost mid = *sys;
            bf_debug_op_write_c(sys, bytes[i]);
            proof {
                BfSyscallT::lemma_since_step(
                    *sys,
                    mid,
                    *old(sys),
                    HostCall::DebugWriteC { c: bytes@[i as int] },
                );
                let x = sys.journal().last();
                assert(write_c_calls(bytes@.take(i + 1)) =~= write_c_calls(
                    bytes@.take(i as int),
                ).push(x.call));
            }
            i = i + 1;
        }
        assert(bytes@.take(i as int) =~= bytes@);
    }
}

/// Prints `args` on the host console.
pub fn _print<H: HostGateway>(sys: &mut BfSyscallT<H>, args: &str)
    ensures
        final(sys).continues(*old(sys)),
        final(sys).same_session(*old(sys)),
        makes_all(final(sys).since(*old(sys)), write_c_calls(args.spec_bytes())),
{
    let mut writer = Writer;
    writer.write_string(sys, args);
}

} // verus!
