use std::collections::HashMap;

use bf_extension::{
    bootstrap_entry, dispatch_bootstrap, dispatch_fail, dispatch_vmexit, dispatch_vmexit_cpuid,
    dispatch_vmexit_nmi, dispatch_vmexit_nmi_window, ext_main_entry, fail_entry, gs_initialize,
    tls_initialize, vmexit_entry, vmexit_of, ArchT, BfSyscallT, ErrcType, GsT, HostCall,
    HostGateway, HostReply, IntrinsicT, SafeU16, SafeU64, TlsT, VmexitT, VpPoolT, VsPoolT,
    EXIT_FAILURE, EXIT_SUCCESS,
};

const REFUSED: u64 = 0xDEAD000000010001;

/// A host that keeps a thread-local block and the registers of every VS,
/// hands out IDs in order, and refuses the calls whose position in the log
/// is listed in `refuse`.
struct Host {
    log: Vec<HostCall>,
    refuse: Vec<usize>,
    tls: HashMap<u64, u64>,
    regs: HashMap<(u16, u64), u64>,
    next_id: u64,
}

impl Host {
    fn new() -> Self {
        Host {
            log: Vec::new(),
            refuse: Vec::new(),
            tls: HashMap::new(),
            regs: HashMap::new(),
            next_id: 0,
        }
    }

    fn refusing(at: &[usize]) -> Self {
        let mut host = Host::new();
        host.refuse = at.to_vec();
        host
    }
}

impl HostGateway for Host {
    fn invoke(&mut self, call: HostCall) -> HostReply {
        let at = self.log.len();
        self.log.push(call);
        let mut reply = HostReply { status: 0, out0: 0, out1: 0, out2: 0, out3: 0 };
        if self.refuse.contains(&at) {
            reply.status = REFUSED;
            return reply;
        }
        match call {
            HostCall::TlsLoad { offset } => reply.out0 = *self.tls.get(&offset).unwrap_or(&0),
            HostCall::TlsStore { offset, val } => {
                self.tls.insert(offset, val);
            }
            HostCall::HandleOpen { .. } => reply.out0 = 0x42,
            HostCall::VmCreate { .. } | HostCall::VpCreate { .. } | HostCall::VsCreate { .. } => {
                reply.out0 = self.next_id;
                self.next_id += 1;
            }
            HostCall::VsRead { vsid, reg, .. } => {
                reply.out0 = *self.regs.get(&(vsid, reg)).unwrap_or(&0)
            }
            HostCall::VsWrite { vsid, reg, val, .. } => {
                self.regs.insert((vsid, reg), val);
            }
            HostCall::MemAllocPage { .. }
            | HostCall::MemAllocHuge { .. }
            | HostCall::VmMapDirect { .. } => {
                reply.out0 = 0xFFFF_8000_0000_1000;
                reply.out1 = 0x5000;
            }
            HostCall::IntrinsicRdmsr { msr, .. } => reply.out0 = 0xC0FFEE00 + msr as u64,
            HostCall::Cpuid { rax, rbx, rcx, rdx } => {
                reply.out0 = rax + 1;
                reply.out1 = rbx + 2;
                reply.out2 = rcx + 3;
                reply.out3 = rdx + 4;
            }
            _ => {}
        }
        reply
    }
}

const H: u64 = 0xFFFFFFFFFFFFFFFF;
const RAX: u64 = 0x800;
const RBX: u64 = 0x808;
const RCX: u64 = 0x810;
const RDX: u64 = 0x818;
const PPID: u64 = 0xFF8;
const ONLINE_PPS: u64 = 0xFFA;
const CTLS: u64 = 75;
const INFO: u64 = 85;

struct Ext {
    gs: GsT,
    tls: TlsT,
    sys: BfSyscallT<Host>,
    intrinsic: IntrinsicT,
    vp_pool: VpPoolT,
    vs_pool: VsPoolT,
}

fn fresh(host: Host, arch: ArchT) -> Ext {
    Ext {
        gs: GsT::new(),
        tls: TlsT::new(),
        sys: BfSyscallT::new(host, arch),
        intrinsic: IntrinsicT::new(),
        vp_pool: VpPoolT::new(),
        vs_pool: VsPoolT::new(),
    }
}

fn started(host: Host, arch: ArchT) -> Ext {
    let mut e = fresh(host, arch);
    e.gs.msr_bitmap_phys = SafeU64::new(0xB000);
    e.vp_pool.initialize(&e.gs, &e.tls, &e.sys, &e.intrinsic);
    e.vs_pool.initialize(&e.gs, &e.tls, &e.sys, &e.intrinsic);
    e
}

fn id(i: u16) -> SafeU16 {
    SafeU16::new(i)
}

fn guest(rax: u64, rcx: u64) -> Host {
    let mut host = Host::new();
    host.tls.insert(RAX, rax);
    host.tls.insert(RCX, rcx);
    host
}

fn cpuid(e: &mut Ext, vsid: u16) -> ErrcType {
    dispatch_vmexit_cpuid(&e.gs, &e.tls, &mut e.sys, &e.intrinsic, id(vsid))
}

#[test]
fn a_report_on_is_answered_with_success() {
    let mut e = started(guest(0x400000FF, 0xBF000001), ArchT::GenuineIntel);
    assert_eq!(cpuid(&mut e, 1), ErrcType::Success);
    assert_eq!(
        e.sys.host().log,
        vec![
            HostCall::TlsLoad { offset: RAX },
            HostCall::TlsLoad { offset: RCX },
            HostCall::TlsStore { offset: RAX, val: 0 },
            HostCall::VsAdvanceIpAndRunCurrent { hndl: H },
        ]
    );
    assert_eq!(e.sys.host().tls[&RAX], 0);
}

#[test]
fn a_report_off_is_answered_with_success() {
    let mut e = started(guest(0xFFFF_FFFF_400000FF, 0x1_BF000002), ArchT::AuthenticAmd);
    assert_eq!(cpuid(&mut e, 1), ErrcType::Success);
    assert_eq!(
        e.sys.host().log[2..],
        [
            HostCall::TlsStore { offset: RAX, val: 0 },
            HostCall::VsAdvanceIpAndRunCurrent { hndl: H },
        ]
    );
}

#[test]
fn an_unknown_command_is_answered_with_failure_and_the_guest_runs_on() {
    for command in [0xBF000003u64, 0, 0xBF0000FF, 0xFFFFFFFF] {
        let mut e = started(guest(0x400000FF, command), ArchT::GenuineIntel);
        assert_eq!(cpuid(&mut e, 1), ErrcType::Success);
        assert_eq!(
            e.sys.host().log,
            vec![
                HostCall::TlsLoad { offset: RAX },
                HostCall::TlsLoad { offset: RCX },
                HostCall::TlsStore { offset: RAX, val: 1 },
                HostCall::VsAdvanceIpAndRunCurrent { hndl: H },
            ]
        );
        assert_eq!(e.sys.host().tls[&RAX], 1);
    }
}

#[test]
fn a_command_reports_the_failure_of_the_run() {
    let mut host = guest(0x400000FF, 0xBF000001);
    host.refuse = vec![3];
    let mut e = started(host, ArchT::GenuineIntel);
    assert_eq!(cpuid(&mut e, 1), ErrcType::Failure);
    assert_eq!(e.sys.host().log.len(), 4);
}

#[test]
fn a_stop_on_the_last_pp_dumps_the_page_pool_and_promotes() {
    let mut host = guest(0x400000FF, 0xBF000000);
    host.tls.insert(ONLINE_PPS, 4);
    host.tls.insert(PPID, 3);
    let mut e = started(host, ArchT::GenuineIntel);
    assert_eq!(cpuid(&mut e, 3), ErrcType::Success);
    assert_eq!(
        e.sys.host().log,
        vec![
            HostCall::TlsLoad { offset: RAX },
            HostCall::TlsLoad { offset: RCX },
            HostCall::TlsLoad { offset: ONLINE_PPS },
            HostCall::TlsLoad { offset: PPID },
            HostCall::DebugDumpPagePool,
            HostCall::TlsStore { offset: RAX, val: 0 },
            HostCall::VsPromote { hndl: H, vsid: 3 },
        ]
    );
}

#[test]
fn a_stop_on_another_pp_promotes_without_a_dump() {
    for (online, ppid) in [(4u64, 2u64), (4, 0), (0, 0), (0, 0xFFFF), (1, 1)] {
        let mut host = guest(0x400000FF, 0xBF000000);
        host.tls.insert(ONLINE_PPS, online);
        host.tls.insert(PPID, ppid);
        host.refuse = vec![5];
        let mut e = started(host, ArchT::AuthenticAmd);
        assert_eq!(cpuid(&mut e, 2), ErrcType::Failure);
        assert_eq!(
            e.sys.host().log,
            vec![
                HostCall::TlsLoad { offset: RAX },
                HostCall::TlsLoad { offset: RCX },
                HostCall::TlsLoad { offset: ONLINE_PPS },
                HostCall::TlsLoad { offset: PPID },
                HostCall::TlsStore { offset: RAX, val: 0 },
                HostCall::VsPromote { hndl: H, vsid: 2 },
            ]
        );
    }
}

#[test]
fn any_other_leaf_is_answered_by_the_processor() {
    let mut host = guest(0x1, 0x30);
    host.tls.insert(RBX, 0x20);
    host.tls.insert(RDX, 0x40);
    let mut e = started(host, ArchT::GenuineIntel);
    assert_eq!(cpuid(&mut e, 1), ErrcType::Success);
    assert_eq!(
        e.sys.host().log,
        vec![
            HostCall::TlsLoad { offset: RAX },
            HostCall::TlsLoad { offset: RCX },
            HostCall::TlsLoad { offset: RBX },
            HostCall::TlsLoad { offset: RDX },
            HostCall::Cpuid { rax: 0x1, rbx: 0x20, rcx: 0x30, rdx: 0x40 },
            HostCall::TlsStore { offset: RAX, val: 0x2 },
            HostCall::TlsStore { offset: RBX, val: 0x22 },
            HostCall::TlsStore { offset: RCX, val: 0x33 },
            HostCall::TlsStore { offset: RDX, val: 0x44 },
            HostCall::VsAdvanceIpAndRunCurrent { hndl: H },
        ]
    );
}

#[test]
fn the_command_leaf_goes_by_the_low_32_bits_of_rax() {
    let mut e = started(guest(0x1_400000FE, 0xBF000001), ArchT::GenuineIntel);
    assert_eq!(cpuid(&mut e, 1), ErrcType::Success);
    assert_eq!(e.sys.host().log.len(), 10);
    assert_eq!(
        e.sys.host().log[4],
        HostCall::Cpuid { rax: 0x1_400000FE, rbx: 0, rcx: 0xBF000001, rdx: 0 }
    );
}

#[test]
fn an_nmi_sets_the_window_exiting_bit_and_leaves_the_rest() {
    let mut host = Host::new();
    host.regs.insert((2, CTLS), 0x90000000);
    host.regs.insert((2, INFO), 0x1234);
    let mut e = started(host, ArchT::GenuineIntel);
    let ret = dispatch_vmexit_nmi(&e.gs, &e.tls, &mut e.sys, id(2));
    assert_eq!(ret, ErrcType::Success);
    assert_eq!(
        e.sys.host().log,
        vec![
            HostCall::VsRead { hndl: H, vsid: 2, reg: CTLS },
            HostCall::VsWrite { hndl: H, vsid: 2, reg: CTLS, val: 0x90400000 },
            HostCall::VsRunCurrent { hndl: H },
        ]
    );
    assert_eq!(e.sys.host().regs[&(2, INFO)], 0x1234);
}

#[test]
fn an_nmi_window_clears_the_bit_and_injects_the_nmi_once() {
    let mut host = Host::new();
    host.regs.insert((2, CTLS), 0x90000000);
    let mut e = started(host, ArchT::GenuineIntel);
    assert_eq!(dispatch_vmexit_nmi(&e.gs, &e.tls, &mut e.sys, id(2)), ErrcType::Success);
    assert_eq!(e.sys.host().regs[&(2, CTLS)], 0x90400000);
    assert_eq!(dispatch_vmexit_nmi_window(&e.gs, &e.tls, &mut e.sys, id(2)), ErrcType::Success);
    assert_eq!(
        e.sys.host().log[3..],
        [
            HostCall::VsRead { hndl: H, vsid: 2, reg: CTLS },
            HostCall::VsWrite { hndl: H, vsid: 2, reg: CTLS, val: 0x90000000 },
            HostCall::VsWrite { hndl: H, vsid: 2, reg: INFO, val: 0x80000202 },
            HostCall::VsRunCurrent { hndl: H },
        ]
    );
    let injected = e
        .sys
        .host()
        .log
        .iter()
        .filter(|call| matches!(call, HostCall::VsWrite { reg: INFO, .. }))
        .count();
    assert_eq!(injected, 1);
    assert_eq!(e.sys.host().regs[&(2, CTLS)], 0x90000000);
}

#[test]
fn the_nmi_handlers_stop_at_the_first_call_that_the_host_refuses() {
    for refused in 0..3 {
        let mut e = started(Host::refusing(&[refused]), ArchT::GenuineIntel);
        assert_eq!(dispatch_vmexit_nmi(&e.gs, &e.tls, &mut e.sys, id(2)), ErrcType::Failure);
        assert_eq!(e.sys.host().log.len(), refused + 1);
    }
    for refused in 0..4 {
        let mut e = started(Host::refusing(&[refused]), ArchT::GenuineIntel);
        assert_eq!(
            dispatch_vmexit_nmi_window(&e.gs, &e.tls, &mut e.sys, id(2)),
            ErrcType::Failure
        );
        assert_eq!(e.sys.host().log.len(), refused + 1);
    }
}

#[test]
fn an_exit_goes_to_the_handler_of_its_reason() {
    assert_eq!(vmexit_of(ArchT::AuthenticAmd, 0x72), VmexitT::Cpuid);
    assert_eq!(vmexit_of(ArchT::AuthenticAmd, 0x0), VmexitT::Unsupported);
    assert_eq!(vmexit_of(ArchT::AuthenticAmd, 0x8), VmexitT::Unsupported);
    assert_eq!(vmexit_of(ArchT::AuthenticAmd, 0xA), VmexitT::Unsupported);
    assert_eq!(vmexit_of(ArchT::GenuineIntel, 0x0), VmexitT::Nmi);
    assert_eq!(vmexit_of(ArchT::GenuineIntel, 0x8), VmexitT::NmiWindow);
    assert_eq!(vmexit_of(ArchT::GenuineIntel, 0xA), VmexitT::Cpuid);
    assert_eq!(vmexit_of(ArchT::GenuineIntel, 0x72), VmexitT::Unsupported);
    assert_eq!(vmexit_of(ArchT::GenuineIntel, 0x1), VmexitT::Unsupported);
}

fn vmexit(e: &mut Ext, vsid: u16, reason: u64) -> ErrcType {
    dispatch_vmexit(
        &e.gs,
        &e.tls,
        &mut e.sys,
        &e.intrinsic,
        &e.vp_pool,
        &e.vs_pool,
        id(vsid),
        SafeU64::new(reason),
    )
}

#[test]
fn the_dispatcher_hands_the_exit_to_its_handler() {
    let mut e = started(guest(0x400000FF, 0xBF000001), ArchT::AuthenticAmd);
    assert_eq!(vmexit(&mut e, 1, 0x72), ErrcType::Success);
    assert_eq!(e.sys.host().log.len(), 4);
    assert_eq!(e.sys.host().log[3], HostCall::VsAdvanceIpAndRunCurrent { hndl: H });

    let mut e = started(guest(0x400000FF, 0xBF000001), ArchT::GenuineIntel);
    assert_eq!(vmexit(&mut e, 1, 0xA), ErrcType::Success);
    assert_eq!(e.sys.host().log.len(), 4);

    let mut e = started(Host::new(), ArchT::GenuineIntel);
    assert_eq!(vmexit(&mut e, 1, 0x0), ErrcType::Success);
    assert_eq!(
        e.sys.host().log[1],
        HostCall::VsWrite { hndl: H, vsid: 1, reg: CTLS, val: 0x400000 }
    );

    let mut e = started(Host::new(), ArchT::GenuineIntel);
    assert_eq!(vmexit(&mut e, 1, 0x8), ErrcType::Success);
    assert_eq!(
        e.sys.host().log[2],
        HostCall::VsWrite { hndl: H, vsid: 1, reg: INFO, val: 0x80000202 }
    );
}

#[test]
fn an_exit_that_no_handler_takes_dumps_the_vs_and_fails() {
    let mut e = started(Host::new(), ArchT::AuthenticAmd);
    assert_eq!(vmexit(&mut e, 5, 0x0), ErrcType::Failure);
    assert_eq!(e.sys.host().log, vec![HostCall::DebugDumpVs { vsid: 5 }]);
    let mut e = started(Host::new(), ArchT::GenuineIntel);
    assert_eq!(vmexit(&mut e, 6, 0x72), ErrcType::Failure);
    assert_eq!(vmexit(&mut e, 6, u64::MAX), ErrcType::Failure);
    assert_eq!(
        e.sys.host().log,
        vec![HostCall::DebugDumpVs { vsid: 6 }, HostCall::DebugDumpVs { vsid: 6 }]
    );
}

#[test]
fn a_fast_fail_is_never_handled() {
    let e = started(Host::new(), ArchT::GenuineIntel);
    let ret = dispatch_fail(
        &e.gs,
        &e.tls,
        &e.sys,
        &e.intrinsic,
        &e.vp_pool,
        &e.vs_pool,
        SafeU64::new(0xDEAD),
        SafeU64::new(0x1000),
    );
    assert_eq!(ret, ErrcType::Failure);
    assert!(e.sys.host().log.is_empty());
}

fn bootstrap(e: &mut Ext, ppid: u16) -> ErrcType {
    dispatch_bootstrap(
        &e.gs,
        &mut e.tls,
        &mut e.sys,
        &e.intrinsic,
        &mut e.vp_pool,
        &mut e.vs_pool,
        id(ppid),
    )
}

#[test]
fn bootstrap_creates_one_vp_and_one_vs_and_runs_them() {
    let mut host = Host::new();
    host.tls.insert(ONLINE_PPS, 1);
    let mut e = started(host, ArchT::AuthenticAmd);
    assert_eq!(bootstrap(&mut e, 0), ErrcType::Success);
    // The simulated host hands out IDs in order: the VP is 0, the VS is 1.
    assert_eq!(
        e.sys.host().log,
        vec![
            HostCall::VpCreate { hndl: H, vmid: 0 },
            HostCall::VsCreate { hndl: H, vpid: 0, ppid: 0 },
            HostCall::VsWrite { hndl: H, vsid: 1, reg: 28, val: 0x1 },
            HostCall::VsWrite { hndl: H, vsid: 1, reg: 20, val: 0x00040000 },
            HostCall::VsWrite { hndl: H, vsid: 1, reg: 21, val: 0x00000001 },
            HostCall::TlsLoad { offset: ONLINE_PPS },
            HostCall::VsRun { hndl: H, vmid: 0, vpid: 0, vsid: 1 },
        ]
    );
    let allocated_vps: Vec<u16> = (0..64).filter(|i| e.vp_pool.is_allocated(id(*i))).collect();
    let allocated_vss: Vec<u16> = (0..64).filter(|i| e.vs_pool.is_allocated(id(*i))).collect();
    assert_eq!(allocated_vps, vec![0]);
    assert_eq!(allocated_vss, vec![1]);
    assert_eq!(e.vp_pool.assigned_vm(id(0)).get(), 0);
    assert_eq!(e.vs_pool.assigned_vp(id(1)).get(), 0);
    assert_eq!(e.vs_pool.assigned_pp(id(1)).get(), 0);
}

#[test]
fn bootstrap_of_a_root_vs_fills_it_with_the_state_of_its_pp() {
    let mut host = Host::new();
    host.tls.insert(ONLINE_PPS, 2);
    let mut e = started(host, ArchT::GenuineIntel);
    assert_eq!(bootstrap(&mut e, 0), ErrcType::Success);
    // The simulated host names VS 1, which lies below the two online PPs.
    let log = &e.sys.host().log;
    assert_eq!(log[0], HostCall::VpCreate { hndl: H, vmid: 0 });
    assert_eq!(log[1], HostCall::VsCreate { hndl: H, vpid: 0, ppid: 0 });
    assert_eq!(log[9], HostCall::VsWrite { hndl: H, vsid: 1, reg: 38, val: 0xB000 });
    assert_eq!(log[10], HostCall::TlsLoad { offset: ONLINE_PPS });
    assert_eq!(log[11], HostCall::VsInitAsRoot { hndl: H, vsid: 1 });
    assert_eq!(log[12], HostCall::VsRun { hndl: H, vmid: 0, vpid: 0, vsid: 1 });
    assert_eq!(log.len(), 13);
}

#[test]
fn bootstrap_fails_if_the_vp_cannot_be_created() {
    let mut e = started(Host::refusing(&[0]), ArchT::AuthenticAmd);
    assert_eq!(bootstrap(&mut e, 0), ErrcType::Failure);
    assert_eq!(e.sys.host().log, vec![HostCall::VpCreate { hndl: H, vmid: 0 }]);
    assert!(e.vp_pool.is_deallocated(id(0)));
    assert!(e.vs_pool.is_deallocated(id(0)));
}

#[test]
fn bootstrap_fails_if_the_vs_cannot_be_created_or_set_up() {
    let mut e = started(Host::refusing(&[1]), ArchT::AuthenticAmd);
    assert_eq!(bootstrap(&mut e, 3), ErrcType::Failure);
    assert_eq!(e.sys.host().log.len(), 2);
    assert!(e.vp_pool.is_allocated(id(0)));
    for i in 0..64 {
        assert!(e.vs_pool.is_deallocated(id(i)));
    }
    let mut e = started(Host::refusing(&[3]), ArchT::AuthenticAmd);
    assert_eq!(bootstrap(&mut e, 3), ErrcType::Failure);
    assert_eq!(e.sys.host().log.len(), 4);
    for i in 0..64 {
        assert!(e.vs_pool.is_deallocated(id(i)));
    }
}

#[test]
fn bootstrap_reports_a_run_that_the_host_refuses() {
    let mut e = started(Host::refusing(&[6]), ArchT::AuthenticAmd);
    assert_eq!(bootstrap(&mut e, 3), ErrcType::Failure);
    assert_eq!(e.sys.host().log[6], HostCall::VsRun { hndl: H, vmid: 0, vpid: 0, vsid: 1 });
    assert!(e.vp_pool.is_allocated(id(0)));
    assert!(e.vs_pool.is_allocated(id(1)));
}

#[test]
fn the_global_state_is_a_page_on_intel_and_nothing_on_amd() {
    let mut e = fresh(Host::new(), ArchT::GenuineIntel);
    assert_eq!(e.gs.msr_bitmap, 0);
    assert_eq!(e.gs.msr_bitmap_phys, SafeU64::new(0));
    assert_eq!(gs_initialize(&mut e.gs, &mut e.sys, &e.intrinsic), ErrcType::Success);
    assert_eq!(e.gs.msr_bitmap, 0xFFFF_8000_0000_1000);
    assert_eq!(e.gs.msr_bitmap_phys, SafeU64::new(0x5000));
    assert_eq!(e.sys.host().log, vec![HostCall::MemAllocPage { hndl: H }]);

    let mut e = fresh(Host::refusing(&[0]), ArchT::GenuineIntel);
    assert_eq!(gs_initialize(&mut e.gs, &mut e.sys, &e.intrinsic), ErrcType::Failure);
    assert_eq!(e.gs.msr_bitmap, 0);
    assert_eq!(e.gs.msr_bitmap_phys, SafeU64::new(0));

    let mut e = fresh(Host::new(), ArchT::AuthenticAmd);
    assert_eq!(gs_initialize(&mut e.gs, &mut e.sys, &e.intrinsic), ErrcType::Success);
    assert!(e.sys.host().log.is_empty());
    assert_eq!(tls_initialize(&e.tls, &e.sys, &e.intrinsic), ErrcType::Success);
}

fn ext_main(e: &mut Ext, version: u32) -> i32 {
    ext_main_entry(
        &mut e.gs,
        &e.tls,
        &mut e.sys,
        &e.intrinsic,
        &mut e.vp_pool,
        &mut e.vs_pool,
        version,
        0x1000,
        0x2000,
        0x3000,
    )
}

#[test]
fn the_extension_starts_and_waits() {
    let mut e = fresh(Host::new(), ArchT::GenuineIntel);
    assert_eq!(ext_main(&mut e, 0x2), EXIT_SUCCESS);
    assert_eq!(EXIT_SUCCESS, 0);
    assert_eq!(
        e.sys.host().log,
        vec![
            HostCall::HandleOpen { version: 0x31236642 },
            HostCall::CallbackRegisterBootstrap { hndl: 0x42, handler: 0x1000 },
            HostCall::CallbackRegisterVmexit { hndl: 0x42, handler: 0x2000 },
            HostCall::CallbackRegisterFail { hndl: 0x42, handler: 0x3000 },
            HostCall::MemAllocPage { hndl: 0x42 },
            HostCall::ControlWait,
        ]
    );
    assert_eq!(e.gs.msr_bitmap_phys, SafeU64::new(0x5000));
    for i in 0..64 {
        assert_eq!(e.vp_pool.id(id(i)).get(), i);
        assert_eq!(e.vs_pool.id(id(i)).get(), i);
    }
    let mut e = fresh(Host::new(), ArchT::AuthenticAmd);
    assert_eq!(ext_main(&mut e, 0x2), EXIT_SUCCESS);
    assert_eq!(e.sys.host().log.len(), 5);
    assert_eq!(e.sys.host().log[4], HostCall::ControlWait);
}

#[test]
fn the_extension_asks_to_be_stopped_if_it_cannot_start() {
    let mut e = fresh(Host::new(), ArchT::GenuineIntel);
    assert_eq!(ext_main(&mut e, 0x80000000), EXIT_FAILURE);
    assert_eq!(EXIT_FAILURE, 1);
    assert_eq!(e.sys.host().log, vec![HostCall::ControlExit]);
    assert_eq!(e.vp_pool.id(id(0)).get(), 0xFFFF);

    let mut e = fresh(Host::refusing(&[2]), ArchT::GenuineIntel);
    assert_eq!(ext_main(&mut e, 0x2), EXIT_FAILURE);
    assert_eq!(
        e.sys.host().log[2..],
        [
            HostCall::CallbackRegisterVmexit { hndl: 0x42, handler: 0x2000 },
            HostCall::HandleClose { hndl: 0x42 },
            HostCall::ControlExit,
        ]
    );
    assert_eq!(e.sys.handle().get(), H);
    assert_eq!(e.vs_pool.id(id(0)).get(), 0xFFFF);

    let mut e = fresh(Host::refusing(&[4]), ArchT::GenuineIntel);
    assert_eq!(ext_main(&mut e, 0x2), EXIT_FAILURE);
    assert_eq!(
        e.sys.host().log[4..],
        [HostCall::MemAllocPage { hndl: 0x42 }, HostCall::ControlExit]
    );
    assert_eq!(e.vp_pool.id(id(0)).get(), 0xFFFF);
}

#[test]
fn a_callback_that_comes_back_asks_for_the_extension_to_be_stopped() {
    let mut host = Host::new();
    host.tls.insert(ONLINE_PPS, 1);
    let mut e = fresh(host, ArchT::AuthenticAmd);
    assert_eq!(ext_main(&mut e, 0x2), EXIT_SUCCESS);
    let ret = bootstrap_entry(
        &e.gs,
        &mut e.tls,
        &mut e.sys,
        &e.intrinsic,
        &mut e.vp_pool,
        &mut e.vs_pool,
        0,
    );
    assert_eq!(ret, ErrcType::Success);
    let log = &e.sys.host().log;
    assert_eq!(log[log.len() - 2], HostCall::VsRun { hndl: 0x42, vmid: 0, vpid: 0, vsid: 1 });
    assert_eq!(log[log.len() - 1], HostCall::ControlExit);

    let asked = e.sys.host().log.len();
    let ret =
        vmexit_entry(&e.gs, &e.tls, &mut e.sys, &e.intrinsic, &e.vp_pool, &e.vs_pool, 1, 0x1234);
    assert_eq!(ret, ErrcType::Failure);
    assert_eq!(
        e.sys.host().log[asked..],
        [HostCall::DebugDumpVs { vsid: 1 }, HostCall::ControlExit]
    );

    let asked = e.sys.host().log.len();
    let ret = fail_entry(&e.gs, &e.tls, &mut e.sys, &e.intrinsic, &e.vp_pool, &e.vs_pool, 1, 2);
    assert_eq!(ret, ErrcType::Failure);
    assert_eq!(e.sys.host().log[asked..], [HostCall::ControlExit]);
}
