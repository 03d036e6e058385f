//! The handler of a CPUID that a guest executed.
//!
//! The loader talks to the extension through CPUID: a leaf that no
//! processor defines, with a command in ECX. Every other CPUID is answered
//! by the processor itself.

use vstd::prelude::*;

use crate::bf_debug_ops::bf_debug_op_dump_page_pool;
use crate::bf_syscall_t::{is_id_in_range, spec_errc_of_status, BfSyscallT};
use crate::config::HYPERVISOR_MAX_VSS;
use crate::constants::{
    TLS_OFFSET_ACTIVE_PPID, TLS_OFFSET_ONLINE_PPS, TLS_OFFSET_RAX, TLS_OFFSET_RBX,
    TLS_OFFSET_RCX, TLS_OFFSET_RDX,
};
use crate::errc_type::ErrcType;
use crate::gs_t::GsT;
use crate::host_gateway::{makes_all, Exchange, HostCall, HostGateway};
use crate::intrinsic_t::IntrinsicT;
use crate::safe_integral::{low_u16, low_u32, to_u32_unsafe, SafeU16, SafeU64};
use crate::tls_t::TlsT;

verus! {

/// The CPUID leaf, in EAX, that carries a command for the extension.
pub const CPUID_COMMAND_EAX: u32 = 0x400000FF;

/// The command, in ECX, that turns the hypervisor off on this PP.
pub const CPUID_COMMAND_ECX_STOP: u32 = 0xBF000000;

/// The command, in ECX, that reports that the root OS now runs in a VM.
pub const CPUID_COMMAND_ECX_REPORT_ON: u32 = 0xBF000001;

/// The command, in ECX, that reports that the root OS is about to leave
/// its VM.
pub const CPUID_COMMAND_ECX_REPORT_OFF: u32 = 0xBF000002;

/// What the guest finds in RAX after a command that worked.
pub const CPUID_COMMAND_RAX_SUCCESS: u64 = 0x0;

/// What the guest finds in RAX after a command that is not known.
pub const CPUID_COMMAND_RAX_FAILURE: u64 = 0x1;

/// The calls that end a command: leave `rax` in the guest's RAX, step past
/// the CPUID and run the guest again.
pub open spec fn cpuid_answer(hndl: u64, rax: u64) -> Seq<HostCall> {
    seq![
        HostCall::TlsStore { offset: TLS_OFFSET_RAX, val: rax },
        HostCall::VsAdvanceIpAndRunCurrent { hndl },
    ]
}

/// True if the PP `ppid` is the last of `online_pps` PPs.
pub open spec fn is_last_online_pp(ppid: u16, online_pps: u16) -> bool {
    online_pps > 0 && ppid == online_pps - 1
}

/// The calls that handle a CPUID exit of the VS `vsid`, given the replies
/// that the host gives in the course of it, which are those of `xs`.
///
/// The guest's RAX and RCX are read first. If EAX is the command leaf, ECX
/// decides. For the stop command the number of online PPs and the ID of
/// this PP are read, the page pool is dumped if this PP is the last one,
/// success is left in the guest's RAX and the VS is promoted. For the two
/// report commands success is left in RAX and the guest runs on. For any
/// other command failure is left in RAX and the guest runs on. If EAX is any
/// other leaf, RBX and RDX are read too, the processor executes CPUID on the
/// four values, its four results are stored back, and the guest runs on.
pub open spec fn cpuid_plan(hndl: u64, vsid: u16, xs: Seq<Exchange>) -> Seq<HostCall> {
    let rax = xs[0].reply.out0;
    let rcx = xs[1].reply.out0;
    let head = seq![
        HostCall::TlsLoad { offset: TLS_OFFSET_RAX },
        HostCall::TlsLoad { offset: TLS_OFFSET_RCX },
    ];
    if low_u32(rax) == CPUID_COMMAND_EAX {
        if low_u32(rcx) == CPUID_COMMAND_ECX_STOP {
            let online_pps = low_u16(xs[2].reply.out0);
            let ppid = low_u16(xs[3].reply.out0);
            head + seq![
                HostCall::TlsLoad { offset: TLS_OFFSET_ONLINE_PPS },
                HostCall::TlsLoad { offset: TLS_OFFSET_ACTIVE_PPID },
            ] + (if is_last_online_pp(ppid, online_pps) {
                seq![HostCall::DebugDumpPagePool]
            } else {
                Seq::<HostCall>::empty()
            }) + seq![
                HostCall::TlsStore { offset: TLS_OFFSET_RAX, val: CPUID_COMMAND_RAX_SUCCESS },
                HostCall::VsPromote { hndl, vsid },
            ]
        } else if low_u32(rcx) == CPUID_COMMAND_ECX_REPORT_ON || low_u32(rcx)
            == CPUID_COMMAND_ECX_REPORT_OFF {
            head + cpuid_answer(hndl, CPUID_COMMAND_RAX_SUCCESS)
        } else {
            head + cpuid_answer(hndl, CPUID_COMMAND_RAX_FAILURE)
        }
    } else {
        let rbx = xs[2].reply.out0;
        let rdx = xs[3].reply.out0;
        let out = xs[4].reply;
        head + seq![
            HostCall::TlsLoad { offset: TLS_OFFSET_RBX },
            HostCall::TlsLoad { offset: TLS_OFFSET_RDX },
            HostCall::Cpuid { rax, rbx, rcx, rdx },
            HostCall::TlsStore { offset: TLS_OFFSET_RAX, val: out.out0 },
            HostCall::TlsStore { offset: TLS_OFFSET_RBX, val: out.out1 },
            HostCall::TlsStore { offset: TLS_OFFSET_RCX, val: out.out2 },
            HostCall::TlsStore { offset: TLS_OFFSET_RDX, val: out.out3 },
            HostCall::VsAdvanceIpAndRunCurrent { hndl },
        ]
    }
}

/// What `dispatch_vmexit_cpuid` does, as the exchanges `xs` with the host
/// show it: the calls of `cpuid_plan`, all of them, and a result that is
/// the outcome of the last one, which promotes or runs the VS.
pub open spec fn cpuid_dispatched(hndl: u64, vsid: u16, xs: Seq<Exchange>, ret: ErrcType) -> bool {
    &&& makes_all(xs, cpuid_plan(hndl, vsid, xs))
    &&& ret == spec_errc_of_status(xs.last().reply.status)
}

/// Handles a CPUID exit of the VS `vsid`.
///
/// See `cpuid_plan` for what is asked of the host. A command that is not
/// known is answered with a failure code in the guest's RAX; it never stops
/// the extension and never reaches the processor.
pub fn dispatch_vmexit_cpuid<H: HostGateway>(
    gs: &GsT,
    tls: &TlsT,
    sys: &mut BfSyscallT<H>,
    intrinsic: &IntrinsicT,
    vsid: SafeU16,
) -> (ret: ErrcType)
    requires
        is_id_in_range(vsid, HYPERVISOR_MAX_VSS),
    ensures
        final(sys).continues(*old(sys)),
        final(sys).same_session(*old(sys)),
        cpuid_dispatched(old(sys).hndl(), vsid@, final(sys).since(*old(sys)), ret),
{
    let ghost hndl = sys.hndl();
    let mut rax = sys.bf_tls_rax();
    let ghost s1 = *sys;
    let ghost x0 = sys.journal().last();
    proof {
        BfSyscallT::lemma_since_one(s1, *old(sys), HostCall::TlsLoad { offset: TLS_OFFSET_RAX });
    }
    let mut rcx = sys.bf_tls_rcx();
    let ghost s2 = *sys;
    let ghost x1 = sys.journal().last();
    proof {
        BfSyscallT::lemma_since_step(
            s2,
            s1,
            *old(sys),
            HostCall::TlsLoad { offset: TLS_OFFSET_RCX },
        );
    }

    if to_u32_unsafe(rax).get() == CPUID_COMMAND_EAX {
        let command = to_u32_unsafe(rcx).get();
        if command == CPUID_COMMAND_ECX_STOP {
            let online_pps = sys.bf_tls_online_pps();
            let ghost s3 = *sys;
            let ghost x2 = sys.journal().last();
            proof {
                BfSyscallT::lemma_since_step(
                    s3,
                    s2,
                    *old(sys),
                    HostCall::TlsLoad { offset: TLS_OFFSET_ONLINE_PPS },
                );
            }
            let ppid = sys.bf_tls_ppid();
            let ghost s4 = *sys;
            let ghost x3 = sys.journal().last();
            proof {
                BfSyscallT::lemma_since_step(
                    s4,
                    s3,
                    *old(sys),
                    HostCall::TlsLoad { offset: TLS_OFFSET_ACTIVE_PPID },
                );
            }
            let last_online_ppid = online_pps.minus(SafeU16::magic_1());
            let ghost dumped: Seq<Exchange>;
            if last_online_ppid.is_valid() && ppid.get() == last_online_ppid.checked().get() {
                bf_debug_op_dump_page_pool(sys);
                proof {
                    BfSyscallT::lemma_since_step(*sys, s4, *old(sys), HostCall::DebugDumpPagePool);
                    dumped = seq![sys.journal().last()];
                }
            } else {
                proof {
                    dumped = Seq::empty();
                }
            }
            let ghost s5 = *sys;
            sys.bf_tls_set_rax(SafeU64::new(CPUID_COMMAND_RAX_SUCCESS));
            let ghost s6 = *sys;
            let ghost x5 = sys.journal().last();
            let ret = sys.bf_vs_op_promote(vsid);
            proof {
                let x6 = sys.journal().last();
                BfSyscallT::lemma_since_step(
                    s6,
                    s5,
                    *old(sys),
                    HostCall::TlsStore { offset: TLS_OFFSET_RAX, val: CPUID_COMMAND_RAX_SUCCESS },
                );
                BfSyscallT::lemma_since_step(
                    *sys,
                    s6,
                    *old(sys),
                    HostCall::VsPromote { hndl, vsid: vsid@ },
                );
                let xs = sys.since(*old(sys));
                assert(xs =~= seq![x0, x1, x2, x3] + dumped + seq![x5, x6]);
                assert(makes_all(xs, cpuid_plan(hndl, vsid@, xs)));
            }
            return ret;
        }
        let answer = if command == CPUID_COMMAND_ECX_REPORT_ON || command
            == CPUID_COMMAND_ECX_REPORT_OFF {
            CPUID_COMMAND_RAX_SUCCESS
        } else {
            CPUID_COMMAND_RAX_FAILURE
        };
        sys.bf_tls_set_rax(SafeU64::new(answer));
        let ghost s3 = *sys;
        let ghost x2 = sys.journal().last();
        let ret = sys.bf_vs_op_advance_ip_and_run_current();
        proof {
            let x3 = sys.journal().last();
            BfSyscallT::lemma_since_step(
                s3,
                s2,
                *old(sys),
                HostCall::TlsStore { offset: TLS_OFFSET_RAX, val: answer },
            );
            BfSyscallT::lemma_since_step(
                *sys,
                s3,
                *old(sys),
                HostCall::VsAdvanceIpAndRunCurrent { hndl },
            );
            let xs = sys.since(*old(sys));
            assert(xs =~= seq![x0, x1, x2, x3]);
            assert(makes_all(xs, cpuid_plan(hndl, vsid@, xs)));
        }
        return ret;
    }
    let mut rbx = sys.bf_tls_rbx();
    let ghost s3 = *sys;
    let ghost x2 = sys.journal().last();
    let mut rdx = sys.bf_tls_rdx();
    let ghost s4 = *sys;
    let ghost x3 = sys.journal().last();
    let ghost asked = HostCall::Cpuid { rax: rax@, rbx: rbx@, rcx: rcx@, rdx: rdx@ };

    intrinsic.cpuid(sys, &mut rax, &mut rbx, &mut rcx, &mut rdx);
    let ghost s5 = *sys;
    let ghost x4 = sys.journal().last();

    sys.bf_tls_set_rax(rax);
    let ghost s6 = *sys;
    let ghost x5 = sys.journal().last();
    sys.bf_tls_set_rbx(rbx);
    let ghost s7 = *sys;
    let ghost x6 = sys.journal().last();
    sys.bf_tls_set_rcx(rcx);
    let ghost s8 = *sys;
    let ghost x7 = sys.journal().last();
    sys.bf_tls_set_rdx(rdx);
    let ghost s9 = *sys;
    let ghost x8 = sys.journal().last();

    let ret = sys.bf_vs_op_advance_ip_and_run_current();
    proof {
        let x9 = sys.journal().last();
        let start = *old(sys);
        BfSyscallT::lemma_since_step(s3, s2, start, HostCall::TlsLoad { offset: TLS_OFFSET_RBX });
        BfSyscallT::lemma_since_step(s4, s3, start, HostCall::TlsLoad { offset: TLS_OFFSET_RDX });
        BfSyscallT::lemma_since_step(s5, s4, start, asked);
        BfSyscallT::lemma_since_step(s6, s5, start, x5.call);
        BfSyscallT::lemma_since_step(s7, s6, start, x6.call);
        BfSyscallT::lemma_since_step(s8, s7, start, x7.call);
        BfSyscallT::lemma_since_step(s9, s8, start, x8.call);
        BfSyscallT::lemma_since_step(*sys, s9, start, HostCall::VsAdvanceIpAndRunCurrent { hndl });
        let xs = sys.since(start);
        assert(xs =~= seq![x0, x1, x2, x3, x4, x5, x6, x7, x8, x9]);
        assert(makes_all(xs, cpuid_plan(hndl, vsid@, xs)));
    }
    ret
}

/// A report command is answered with success: whatever else the registers
/// hold, success is stored in the guest's RAX and the guest is stepped past
/// the CPUID, and nothing else is asked of the host.
pub proof fn lemma_cpuid_report_is_answered_with_success(hndl: u64, vsid: u16, xs: Seq<Exchange>)
    requires
        low_u32(xs[0].reply.out0) == CPUID_COMMAND_EAX,
        low_u32(xs[1].reply.out0) == CPUID_COMMAND_ECX_REPORT_ON || low_u32(xs[1].reply.out0)
            == CPUID_COMMAND_ECX_REPORT_OFF,
    ensures
        cpuid_plan(hndl, vsid, xs) == seq![
            HostCall::TlsLoad { offset: TLS_OFFSET_RAX },
            HostCall::TlsLoad { offset: TLS_OFFSET_RCX },
            HostCall::TlsStore { offset: TLS_OFFSET_RAX, val: CPUID_COMMAND_RAX_SUCCESS },
            HostCall::VsAdvanceIpAndRunCurrent { hndl },
        ],
{
    assert(cpuid_plan(hndl, vsid, xs) =~= seq![
        HostCall::TlsLoad { offset: TLS_OFFSET_RAX },
        HostCall::TlsLoad { offset: TLS_OFFSET_RCX },
        HostCall::TlsStore { offset: TLS_OFFSET_RAX, val: CPUID_COMMAND_RAX_SUCCESS },
        HostCall::VsAdvanceIpAndRunCurrent { hndl },
    ]);
}

/// A command that is not known is answered with failure: failure is stored
/// in the guest's RAX and the guest is stepped past the CPUID. Nothing else
/// is asked of the host; in particular the processor never sees the CPUID.
pub proof fn lemma_cpuid_unknown_command_is_answered_with_failure(
    hndl: u64,
    vsid: u16,
    xs: Seq<Exchange>,
)
    requires
        low_u32(xs[0].reply.out0) == CPUID_COMMAND_EAX,
        low_u32(xs[1].reply.out0) != CPUID_COMMAND_ECX_STOP,
        low_u32(xs[1].reply.out0) != CPUID_COMMAND_ECX_REPORT_ON,
        low_u32(xs[1].reply.out0) != CPUID_COMMAND_ECX_REPORT_OFF,
    ensures
        cpuid_plan(hndl, vsid, xs) == seq![
            HostCall::TlsLoad { offset: TLS_OFFSET_RAX },
            HostCall::TlsLoad { offset: TLS_OFFSET_RCX },
            HostCall::TlsStore { offset: TLS_OFFSET_RAX, val: CPUID_COMMAND_RAX_FAILURE },
            HostCall::VsAdvanceIpAndRunCurrent { hndl },
        ],
{
    assert(cpuid_plan(hndl, vsid, xs) =~= seq![
        HostCall::TlsLoad { offset: TLS_OFFSET_RAX },
        HostCall::TlsLoad { offset: TLS_OFFSET_RCX },
        HostCall::TlsStore { offset: TLS_OFFSET_RAX, val: CPUID_COMMAND_RAX_FAILURE },
        HostCall::VsAdvanceIpAndRunCurrent { hndl },
    ]);
}

} // verus!
