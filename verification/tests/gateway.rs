use std::collections::HashMap;

use bf_extension::bf_syscall_t::{
    addr_of_reply, errc_of_status, id_of_reply, u16_of_reply, value_of_reply,
};
use bf_extension::{
    bf_control_op_again, bf_control_op_exit, bf_control_op_wait, bf_debug_op_dump_ext,
    bf_debug_op_dump_huge_pool, bf_debug_op_dump_page_pool, bf_debug_op_dump_vm,
    bf_debug_op_dump_vmexit_log, bf_debug_op_dump_vp, bf_debug_op_dump_vs, bf_debug_op_out,
    bf_debug_op_write_c, bf_debug_op_write_str, ArchT, BfSyscallT, ErrcType, HostCall,
    HostGateway, HostReply, IntrinsicT, SafeU16, SafeU32, SafeU64, Writer, _print,
};

const REFUSED: u64 = 0xDEAD000000010001;

/// A host that keeps a thread-local block and the registers of every VS,
/// hands out IDs in order, and refuses the calls whose position in the log
/// is listed in `refuse`.
struct Host {
    log: Vec<HostCall>,
    refuse: Vec<usize>,
    tls: HashMap<u64, u64>,
    regs: HashMap<(u16, u64), u64>,
    next_id: u64,
}

impl Host {
    fn new() -> Self {
        Host {
            log: Vec::new(),
            refuse: Vec::new(),
            tls: HashMap::new(),
            regs: HashMap::new(),
            next_id: 0,
        }
    }

    fn refusing(at: &[usize]) -> Self {
        let mut host = Host::new();
        host.refuse = at.to_vec();
        host
    }
}

impl HostGateway for Host {
    fn invoke(&mut self, call: HostCall) -> HostReply {
        let at = self.log.len();
        self.log.push(call);
        let mut reply = HostReply { status: 0, out0: 0, out1: 0, out2: 0, out3: 0 };
        if self.refuse.contains(&at) {
            reply.status = REFUSED;
            return reply;
        }
        match call {
            HostCall::TlsLoad { offset } => reply.out0 = *self.tls.get(&offset).unwrap_or(&0),
            HostCall::TlsStore { offset, val } => {
                self.tls.insert(offset, val);
            }
            HostCall::HandleOpen { .. } => reply.out0 = 0x42,
            HostCall::VmCreate { .. } | HostCall::VpCreate { .. } | HostCall::VsCreate { .. } => {
                reply.out0 = self.next_id;
                self.next_id += 1;
            }
            HostCall::VsRead { vsid, reg, .. } => {
                reply.out0 = *self.regs.get(&(vsid, reg)).unwrap_or(&0)
            }
            HostCall::VsWrite { vsid, reg, val, .. } => {
                self.regs.insert((vsid, reg), val);
            }
            HostCall::MemAllocPage { .. }
            | HostCall::MemAllocHuge { .. }
            | HostCall::VmMapDirect { .. } => {
                reply.out0 = 0xFFFF_8000_0000_1000;
                reply.out1 = 0x5000;
            }
            HostCall::IntrinsicRdmsr { msr, .. } => reply.out0 = 0xC0FFEE00 + msr as u64,
            HostCall::Cpuid { rax, rbx, rcx, rdx } => {
                reply.out0 = rax + 1;
                reply.out1 = rbx + 2;
                reply.out2 = rcx + 3;
                reply.out3 = rdx + 4;
            }
            _ => {}
        }
        reply
    }
}

fn intel(host: Host) -> BfSyscallT<Host> {
    BfSyscallT::new(host, ArchT::GenuineIntel)
}

fn reply(status: u64, out0: u64) -> HostReply {
    HostReply { status, out0, out1: 0, out2: 0, out3: 0 }
}

#[test]
fn tests() {
    let mut sys = intel(Host::new());
    _print(&mut sys, &format!("{}\n", format!("hello world {}\n", 42)));
    let printed: Vec<HostCall> =
        "hello world 42\n\n".bytes().map(|c| HostCall::DebugWriteC { c }).collect();
    assert_eq!(sys.host().log, printed);
}

#[test]
fn the_writer_prints_byte_by_byte() {
    let mut sys = intel(Host::new());
    let mut writer = Writer;
    writer.write_string(&mut sys, "ab");
    writer.write_string(&mut sys, "");
    writer.write_string(&mut sys, "\u{e9}");
    assert_eq!(
        sys.host().log,
        vec![
            HostCall::DebugWriteC { c: 0x61 },
            HostCall::DebugWriteC { c: 0x62 },
            HostCall::DebugWriteC { c: 0xC3 },
            HostCall::DebugWriteC { c: 0xA9 },
        ]
    );
}

#[test]
fn a_new_gateway_holds_no_handle() {
    let sys = intel(Host::new());
    assert_eq!(sys.handle(), SafeU64::new(0xFFFFFFFFFFFFFFFF));
    assert_eq!(sys.arch(), ArchT::GenuineIntel);
    assert!(sys.host().log.is_empty());
}

#[test]
fn initialize_registers_the_three_handlers_in_order() {
    let mut sys = intel(Host::new());
    let ret = sys.initialize(SafeU32::new(0x2), 0x1000, 0x2000, 0x3000);
    assert_eq!(ret, ErrcType::Success);
    assert_eq!(sys.handle().get(), 0x42);
    assert_eq!(
        sys.host().log,
        vec![
            HostCall::HandleOpen { version: 0x31236642 },
            HostCall::CallbackRegisterBootstrap { hndl: 0x42, handler: 0x1000 },
            HostCall::CallbackRegisterVmexit { hndl: 0x42, handler: 0x2000 },
            HostCall::CallbackRegisterFail { hndl: 0x42, handler: 0x3000 },
        ]
    );
}

#[test]
fn initialize_turns_down_an_unsupported_version_without_asking_the_host() {
    let mut sys = intel(Host::new());
    assert_eq!(sys.initialize(SafeU32::new(0x80000000), 1, 2, 3), ErrcType::Unsupported);
    assert_eq!(sys.initialize(SafeU32::new(0), 1, 2, 3), ErrcType::Unsupported);
    assert_eq!(sys.initialize(SafeU32::new(1), 1, 2, 3), ErrcType::Unsupported);
    assert!(sys.host().log.is_empty());
    assert_eq!(sys.handle().get(), 0xFFFFFFFFFFFFFFFF);
}

#[test]
fn initialize_fails_if_the_session_cannot_be_opened() {
    let mut sys = intel(Host::refusing(&[0]));
    assert_eq!(sys.initialize(SafeU32::new(0x2), 1, 2, 3), ErrcType::Failure);
    assert_eq!(sys.host().log, vec![HostCall::HandleOpen { version: 0x31236642 }]);
    assert_eq!(sys.handle().get(), 0xFFFFFFFFFFFFFFFF);
}

#[test]
fn initialize_closes_the_session_if_the_bootstrap_handler_is_refused() {
    let mut sys = intel(Host::refusing(&[1]));
    assert_eq!(sys.initialize(SafeU32::new(0x2), 1, 2, 3), ErrcType::Failure);
    assert_eq!(
        sys.host().log,
        vec![
            HostCall::HandleOpen { version: 0x31236642 },
            HostCall::CallbackRegisterBootstrap { hndl: 0x42, handler: 1 },
            HostCall::HandleClose { hndl: 0x42 },
        ]
    );
    assert_eq!(sys.handle().get(), 0xFFFFFFFFFFFFFFFF);
}

#[test]
fn initialize_closes_the_session_if_the_vmexit_handler_is_refused() {
    let mut sys = intel(Host::refusing(&[2]));
    assert_eq!(sys.initialize(SafeU32::new(0x2), 1, 2, 3), ErrcType::Failure);
    assert_eq!(
        sys.host().log,
        vec![
            HostCall::HandleOpen { version: 0x31236642 },
            HostCall::CallbackRegisterBootstrap { hndl: 0x42, handler: 1 },
            HostCall::CallbackRegisterVmexit { hndl: 0x42, handler: 2 },
            HostCall::HandleClose { hndl: 0x42 },
        ]
    );
    assert_eq!(sys.handle().get(), 0xFFFFFFFFFFFFFFFF);
}

#[test]
fn initialize_closes_the_session_if_the_fail_handler_is_refused() {
    let mut sys = intel(Host::refusing(&[3]));
    assert_eq!(sys.initialize(SafeU32::new(0x2), 1, 2, 3), ErrcType::Failure);
    assert_eq!(
        sys.host().log,
        vec![
            HostCall::HandleOpen { version: 0x31236642 },
            HostCall::CallbackRegisterBootstrap { hndl: 0x42, handler: 1 },
            HostCall::CallbackRegisterVmexit { hndl: 0x42, handler: 2 },
            HostCall::CallbackRegisterFail { hndl: 0x42, handler: 3 },
            HostCall::HandleClose { hndl: 0x42 },
        ]
    );
    assert_eq!(sys.handle().get(), 0xFFFFFFFFFFFFFFFF);
}

#[test]
fn initialize_reports_failure_even_if_the_close_is_refused_too() {
    let mut sys = intel(Host::refusing(&[2, 3]));
    assert_eq!(sys.initialize(SafeU32::new(0x2), 1, 2, 3), ErrcType::Failure);
    assert_eq!(sys.host().log.len(), 4);
    assert_eq!(sys.host().log[3], HostCall::HandleClose { hndl: 0x42 });
    assert_eq!(sys.handle().get(), 0xFFFFFFFFFFFFFFFF);
}

#[test]
fn release_may_be_called_again_and_again() {
    let mut sys = intel(Host::new());
    assert_eq!(sys.initialize(SafeU32::new(0x2), 1, 2, 3), ErrcType::Success);
    sys.release();
    assert_eq!(sys.handle().get(), 0xFFFFFFFFFFFFFFFF);
    sys.release();
    assert_eq!(sys.handle().get(), 0xFFFFFFFFFFFFFFFF);
    assert_eq!(
        sys.host().log[4..],
        [
            HostCall::HandleClose { hndl: 0x42 },
            HostCall::HandleClose { hndl: 0xFFFFFFFFFFFFFFFF },
        ]
    );
}

#[test]
fn a_status_is_success_only_if_it_is_zero() {
    assert_eq!(errc_of_status(0), ErrcType::Success);
    assert_eq!(errc_of_status(0xDEAD000000010001), ErrcType::Failure);
    assert_eq!(errc_of_status(0xDEAD000000020001), ErrcType::Failure);
    assert_eq!(errc_of_status(0xDEAD000000040001), ErrcType::Failure);
    assert_eq!(errc_of_status(0xDEAD000000010002), ErrcType::Failure);
    assert_eq!(errc_of_status(0xDEAD000000010003), ErrcType::Failure);
    assert_eq!(errc_of_status(1), ErrcType::Failure);
}

#[test]
fn an_id_is_taken_from_the_low_16_bits_of_a_successful_reply() {
    assert_eq!(id_of_reply(reply(0, 5), 64), SafeU16::new(5));
    assert_eq!(id_of_reply(reply(0, 0), 64), SafeU16::new(0));
    assert_eq!(id_of_reply(reply(0, 63), 64), SafeU16::new(63));
    assert_eq!(id_of_reply(reply(0, 0xABCD_0000_0005), 64), SafeU16::new(5));
    assert!(id_of_reply(reply(0, 64), 64).is_invalid());
    assert!(id_of_reply(reply(0, 0xFFFF), 64).is_invalid());
    assert!(id_of_reply(reply(0, 0xFFFF), 0x10000).is_invalid());
    assert!(id_of_reply(reply(REFUSED, 5), 64).is_invalid());
    assert_eq!(u16_of_reply(reply(0, 0x1_2345)), 0x2345);
}

#[test]
fn a_value_and_an_address_are_taken_from_a_successful_reply() {
    assert_eq!(value_of_reply(reply(0, 0x1234)), SafeU64::new(0x1234));
    assert!(value_of_reply(reply(REFUSED, 0x1234)).is_invalid());
    assert_eq!(addr_of_reply(reply(0, 0x1234)), 0x1234);
    assert_eq!(addr_of_reply(reply(REFUSED, 0x1234)), 0);
}

#[test]
fn create_calls_return_the_id_that_the_host_names() {
    let mut sys = intel(Host::new());
    assert_eq!(sys.bf_vm_op_create_vm(), SafeU16::new(0));
    assert_eq!(sys.bf_vp_op_create_vp(SafeU16::new(0)), SafeU16::new(1));
    assert_eq!(sys.bf_vs_op_create_vs(SafeU16::new(1), SafeU16::new(3)), SafeU16::new(2));
    let h = 0xFFFFFFFFFFFFFFFF;
    assert_eq!(
        sys.host().log,
        vec![
            HostCall::VmCreate { hndl: h },
            HostCall::VpCreate { hndl: h, vmid: 0 },
            HostCall::VsCreate { hndl: h, vpid: 1, ppid: 3 },
        ]
    );
}

#[test]
fn create_calls_fail_if_the_host_refuses_or_names_an_unusable_id() {
    let mut sys = intel(Host::refusing(&[0, 1, 2]));
    assert!(sys.bf_vm_op_create_vm().is_invalid());
    assert!(sys.bf_vp_op_create_vp(SafeU16::new(0)).is_invalid());
    assert!(sys.bf_vs_op_create_vs(SafeU16::new(0), SafeU16::new(0)).is_invalid());

    let mut host = Host::new();
    host.next_id = 16;
    let mut sys = intel(host);
    assert!(sys.bf_vm_op_create_vm().is_invalid());
    let mut host = Host::new();
    host.next_id = 64;
    let mut sys = intel(host);
    assert!(sys.bf_vp_op_create_vp(SafeU16::new(0)).is_invalid());
    assert!(sys.bf_vs_op_create_vs(SafeU16::new(0), SafeU16::new(0)).is_invalid());
    let mut host = Host::new();
    host.next_id = 0xFFFF;
    let mut sys = intel(host);
    assert!(sys.bf_vm_op_create_vm().is_invalid());
}

#[test]
fn status_calls_hand_their_arguments_to_the_host_and_report_its_status() {
    let mut sys = intel(Host::new());
    assert_eq!(sys.initialize(SafeU32::new(0x2), 1, 2, 3), ErrcType::Success);
    let (vm, vp, vs, pp) = (SafeU16::new(1), SafeU16::new(2), SafeU16::new(3), SafeU16::new(4));
    assert_eq!(sys.bf_vm_op_destroy_vm(vm), ErrcType::Success);
    assert_eq!(sys.bf_vm_op_unmap_direct(vm, 0x9000), ErrcType::Success);
    assert_eq!(sys.bf_vm_op_unmap_direct_broadcast(vm, 0xA000), ErrcType::Success);
    assert_eq!(sys.bf_vm_op_tlb_flush(vm), ErrcType::Success);
    assert_eq!(sys.bf_vp_op_destroy_vp(vp), ErrcType::Success);
    assert_eq!(sys.bf_vs_op_destroy_vs(vs), ErrcType::Success);
    assert_eq!(sys.bf_vs_op_init_as_root(vs), ErrcType::Success);
    assert_eq!(sys.bf_vs_op_write(vs, 75, SafeU64::new(0x77)), ErrcType::Success);
    assert_eq!(sys.bf_vs_op_run(vm, vp, vs), ErrcType::Success);
    assert_eq!(sys.bf_vs_op_run_current(), ErrcType::Success);
    assert_eq!(sys.bf_vs_op_advance_ip_and_run(vm, vp, vs), ErrcType::Success);
    assert_eq!(sys.bf_vs_op_advance_ip_and_run_current(), ErrcType::Success);
    assert_eq!(sys.bf_vs_op_promote(vs), ErrcType::Success);
    assert_eq!(sys.bf_vs_op_clear(vs), ErrcType::Success);
    assert_eq!(sys.bf_vs_op_migrate(vs, pp), ErrcType::Success);
    assert_eq!(sys.bf_vs_op_set_active(vm, vp, vs), ErrcType::Success);
    assert_eq!(sys.bf_vs_op_advance_ip_and_set_active(vm, vp, vs), ErrcType::Success);
    assert_eq!(sys.bf_vs_op_tlb_flush(vs, SafeU64::new(0x4000)), ErrcType::Success);
    assert_eq!(
        sys.bf_intrinsic_op_wrmsr(SafeU32::new(0xC0000080), SafeU64::new(5)),
        ErrcType::Success
    );
    let h = 0x42;
    assert_eq!(
        sys.host().log[4..],
        [
            HostCall::VmDestroy { hndl: h, vmid: 1 },
            HostCall::VmUnmapDirect { hndl: h, vmid: 1, virt: 0x9000 },
            HostCall::VmUnmapDirectBroadcast { hndl: h, vmid: 1, virt: 0xA000 },
            HostCall::VmTlbFlush { hndl: h, vmid: 1 },
            HostCall::VpDestroy { hndl: h, vpid: 2 },
            HostCall::VsDestroy { hndl: h, vsid: 3 },
            HostCall::VsInitAsRoot { hndl: h, vsid: 3 },
            HostCall::VsWrite { hndl: h, vsid: 3, reg: 75, val: 0x77 },
            HostCall::VsRun { hndl: h, vmid: 1, vpid: 2, vsid: 3 },
            HostCall::VsRunCurrent { hndl: h },
            HostCall::VsAdvanceIpAndRun { hndl: h, vmid: 1, vpid: 2, vsid: 3 },
            HostCall::VsAdvanceIpAndRunCurrent { hndl: h },
            HostCall::VsPromote { hndl: h, vsid: 3 },
            HostCall::VsClear { hndl: h, vsid: 3 },
            HostCall::VsMigrate { hndl: h, vsid: 3, ppid: 4 },
            HostCall::VsSetActive { hndl: h, vmid: 1, vpid: 2, vsid: 3 },
            HostCall::VsAdvanceIpAndSetActive { hndl: h, vmid: 1, vpid: 2, vsid: 3 },
            HostCall::VsTlbFlush { hndl: h, vsid: 3, gla: 0x4000 },
            HostCall::IntrinsicWrmsr { hndl: h, msr: 0xC0000080, val: 5 },
        ]
    );
}

#[test]
fn status_calls_report_failure_if_the_host_refuses() {
    let all: Vec<usize> = (0..19).collect();
    let mut sys = intel(Host::refusing(&all));
    let (vm, vp, vs, pp) = (SafeU16::new(1), SafeU16::new(2), SafeU16::new(3), SafeU16::new(4));
    assert_eq!(sys.bf_vm_op_destroy_vm(vm), ErrcType::Failure);
    assert_eq!(sys.bf_vm_op_unmap_direct(vm, 0x9000), ErrcType::Failure);
    assert_eq!(sys.bf_vm_op_unmap_direct_broadcast(vm, 0xA000), ErrcType::Failure);
    assert_eq!(sys.bf_vm_op_tlb_flush(vm), ErrcType::Failure);
    assert_eq!(sys.bf_vp_op_destroy_vp(vp), ErrcType::Failure);
    assert_eq!(sys.bf_vs_op_destroy_vs(vs), ErrcType::Failure);
    assert_eq!(sys.bf_vs_op_init_as_root(vs), ErrcType::Failure);
    assert_eq!(sys.bf_vs_op_write(vs, 75, SafeU64::new(0x77)), ErrcType::Failure);
    assert_eq!(sys.bf_vs_op_run(vm, vp, vs), ErrcType::Failure);
    assert_eq!(sys.bf_vs_op_run_current(), ErrcType::Failure);
    assert_eq!(sys.bf_vs_op_advance_ip_and_run(vm, vp, vs), ErrcType::Failure);
    assert_eq!(sys.bf_vs_op_advance_ip_and_run_current(), ErrcType::Failure);
    assert_eq!(sys.bf_vs_op_promote(vs), ErrcType::Failure);
    assert_eq!(sys.bf_vs_op_clear(vs), ErrcType::Failure);
    assert_eq!(sys.bf_vs_op_migrate(vs, pp), ErrcType::Failure);
    assert_eq!(sys.bf_vs_op_set_active(vm, vp, vs), ErrcType::Failure);
    assert_eq!(sys.bf_vs_op_advance_ip_and_set_active(vm, vp, vs), ErrcType::Failure);
    assert_eq!(sys.bf_vs_op_tlb_flush(vs, SafeU64::new(0x4000)), ErrcType::Failure);
    assert_eq!(sys.bf_intrinsic_op_wrmsr(SafeU32::new(1), SafeU64::new(5)), ErrcType::Failure);
    assert_eq!(sys.host().log.len(), 19);
}

#[test]
fn a_register_reads_what_was_written_to_it() {
    let mut sys = intel(Host::new());
    let vs = SafeU16::new(3);
    assert_eq!(sys.bf_vs_op_write(vs, 75, SafeU64::new(0x77)), ErrcType::Success);
    assert_eq!(sys.bf_vs_op_read(vs, 75), SafeU64::new(0x77));
    assert_eq!(sys.bf_vs_op_read(vs, 76), SafeU64::new(0));
    assert_eq!(sys.bf_intrinsic_op_rdmsr(SafeU32::new(0x10)), SafeU64::new(0xC0FFEE10));
    let h = 0xFFFFFFFFFFFFFFFF;
    assert_eq!(sys.host().log[1], HostCall::VsRead { hndl: h, vsid: 3, reg: 75 });
    assert_eq!(sys.host().log[3], HostCall::IntrinsicRdmsr { hndl: h, msr: 0x10 });
}

#[test]
fn a_read_that_the_host_refuses_is_poisoned() {
    let mut sys = intel(Host::refusing(&[0, 1]));
    assert!(sys.bf_vs_op_read(SafeU16::new(3), 75).is_invalid());
    assert!(sys.bf_intrinsic_op_rdmsr(SafeU32::new(0x10)).is_invalid());
}

#[test]
fn memory_calls_return_the_address_and_leave_the_physical_address() {
    let mut sys = intel(Host::new());
    let h = 0xFFFFFFFFFFFFFFFF;
    let mut phys = SafeU64::new(0);
    assert_eq!(sys.bf_mem_op_alloc_page(&mut phys), 0xFFFF_8000_0000_1000);
    assert_eq!(phys, SafeU64::new(0x5000));
    let mut phys = SafeU64::new(0);
    assert_eq!(sys.bf_mem_op_alloc_huge(SafeU64::new(0x3000), &mut phys), 0xFFFF_8000_0000_1000);
    assert_eq!(phys, SafeU64::new(0x5000));
    assert_eq!(
        sys.bf_vm_op_map_direct(SafeU16::new(1), SafeU64::new(0x7000)),
        0xFFFF_8000_0000_1000
    );
    assert_eq!(
        sys.host().log,
        vec![
            HostCall::MemAllocPage { hndl: h },
            HostCall::MemAllocHuge { hndl: h, size: 0x3000 },
            HostCall::VmMapDirect { hndl: h, vmid: 1, phys: 0x7000 },
        ]
    );
}

#[test]
fn memory_calls_return_null_if_the_host_refuses() {
    let mut sys = intel(Host::refusing(&[0, 1, 2]));
    let mut phys = SafeU64::new(0x1111);
    assert_eq!(sys.bf_mem_op_alloc_page(&mut phys), 0);
    assert_eq!(phys, SafeU64::new(0x1111));
    assert_eq!(sys.bf_mem_op_alloc_huge(SafeU64::new(0x3000), &mut phys), 0);
    assert_eq!(phys, SafeU64::new(0x1111));
    assert_eq!(sys.bf_vm_op_map_direct(SafeU16::new(1), SafeU64::new(0x7000)), 0);
}

#[test]
fn the_thread_local_block_is_read_and_written_at_its_offsets() {
    let mut sys = intel(Host::new());
    sys.bf_tls_set_rax(SafeU64::new(1));
    sys.bf_tls_set_rbx(SafeU64::new(2));
    sys.bf_tls_set_rcx(SafeU64::new(3));
    sys.bf_tls_set_rdx(SafeU64::new(4));
    sys.bf_tls_set_rbp(SafeU64::new(5));
    sys.bf_tls_set_rsi(SafeU64::new(6));
    sys.bf_tls_set_rdi(SafeU64::new(7));
    sys.bf_tls_set_r8(SafeU64::new(8));
    sys.bf_tls_set_r9(SafeU64::new(9));
    sys.bf_tls_set_r10(SafeU64::new(10));
    sys.bf_tls_set_r11(SafeU64::new(11));
    sys.bf_tls_set_r12(SafeU64::new(12));
    sys.bf_tls_set_r13(SafeU64::new(13));
    sys.bf_tls_set_r14(SafeU64::new(14));
    sys.bf_tls_set_r15(SafeU64::new(15));
    let offsets: Vec<u64> = sys
        .host()
        .log
        .iter()
        .map(|call| match call {
            HostCall::TlsStore { offset, .. } => *offset,
            _ => 0,
        })
        .collect();
    assert_eq!(
        offsets,
        vec![
            0x800, 0x808, 0x810, 0x818, 0x820, 0x828, 0x830, 0x838, 0x840, 0x848, 0x850, 0x858,
            0x860, 0x868, 0x870
        ]
    );
    assert_eq!(sys.bf_tls_rax().get(), 1);
    assert_eq!(sys.bf_tls_rbx().get(), 2);
    assert_eq!(sys.bf_tls_rcx().get(), 3);
    assert_eq!(sys.bf_tls_rdx().get(), 4);
    assert_eq!(sys.bf_tls_rbp().get(), 5);
    assert_eq!(sys.bf_tls_rsi().get(), 6);
    assert_eq!(sys.bf_tls_rdi().get(), 7);
    assert_eq!(sys.bf_tls_r8().get(), 8);
    assert_eq!(sys.bf_tls_r9().get(), 9);
    assert_eq!(sys.bf_tls_r10().get(), 10);
    assert_eq!(sys.bf_tls_r11().get(), 11);
    assert_eq!(sys.bf_tls_r12().get(), 12);
    assert_eq!(sys.bf_tls_r13().get(), 13);
    assert_eq!(sys.bf_tls_r14().get(), 14);
    assert_eq!(sys.bf_tls_r15().get(), 15);
}

#[test]
fn the_active_ids_are_the_low_16_bits_of_their_fields() {
    let mut host = Host::new();
    host.tls.insert(0xFF0, 0x1_0001);
    host.tls.insert(0xFF2, 2);
    host.tls.insert(0xFF4, 3);
    host.tls.insert(0xFF6, 4);
    host.tls.insert(0xFF8, 5);
    host.tls.insert(0xFFA, 6);
    let mut sys = intel(host);
    assert_eq!(sys.bf_tls_extid(), SafeU16::new(1));
    assert_eq!(sys.bf_tls_vmid(), SafeU16::new(2));
    assert_eq!(sys.bf_tls_vpid(), SafeU16::new(3));
    assert_eq!(sys.bf_tls_vsid(), SafeU16::new(4));
    assert_eq!(sys.bf_tls_ppid(), SafeU16::new(5));
    assert_eq!(sys.bf_tls_online_pps(), SafeU16::new(6));
    assert_eq!(
        sys.host().log,
        vec![
            HostCall::TlsLoad { offset: 0xFF0 },
            HostCall::TlsLoad { offset: 0xFF2 },
            HostCall::TlsLoad { offset: 0xFF4 },
            HostCall::TlsLoad { offset: 0xFF6 },
            HostCall::TlsLoad { offset: 0xFF8 },
            HostCall::TlsLoad { offset: 0xFFA },
        ]
    );
}

#[test]
fn root_objects_are_those_below_the_number_of_online_pps() {
    let mut host = Host::new();
    host.tls.insert(0xFFA, 4);
    host.tls.insert(0xFF2, 0);
    let mut sys = intel(host);
    assert!(sys.is_vp_a_root_vp(SafeU16::new(0)));
    assert!(sys.is_vp_a_root_vp(SafeU16::new(3)));
    assert!(!sys.is_vp_a_root_vp(SafeU16::new(4)));
    assert!(sys.is_vs_a_root_vs(SafeU16::new(3)));
    assert!(!sys.is_vs_a_root_vs(SafeU16::new(4)));
    assert!(sys.is_the_active_vm_the_root_vm());
    assert!(sys.is_vm_the_root_vm(SafeU16::new(0)));
    assert!(!sys.is_vm_the_root_vm(SafeU16::new(1)));

    let mut host = Host::new();
    host.tls.insert(0xFF2, 1);
    let mut sys = intel(host);
    assert!(!sys.is_the_active_vm_the_root_vm());
    assert!(!sys.is_vs_a_root_vs(SafeU16::new(0)));
}

#[test]
fn cpuid_leaves_the_results_of_the_processor_in_the_registers() {
    let mut sys = intel(Host::new());
    let intrinsic = IntrinsicT::new();
    let (mut rax, mut rbx, mut rcx, mut rdx) =
        (SafeU64::new(10), SafeU64::new(20), SafeU64::new(30), SafeU64::new(40));
    intrinsic.cpuid(&mut sys, &mut rax, &mut rbx, &mut rcx, &mut rdx);
    assert_eq!(sys.host().log, vec![HostCall::Cpuid { rax: 10, rbx: 20, rcx: 30, rdx: 40 }]);
    assert_eq!(
        (rax, rbx, rcx, rdx),
        (SafeU64::new(11), SafeU64::new(22), SafeU64::new(33), SafeU64::new(44))
    );
}

#[test]
fn control_and_debug_operations_reach_the_host() {
    let mut sys = intel(Host::new());
    bf_control_op_exit(&mut sys);
    bf_control_op_wait(&mut sys);
    bf_control_op_again(&mut sys);
    bf_debug_op_out(&mut sys, SafeU64::new(1), SafeU64::new(2));
    bf_debug_op_dump_vm(&mut sys, SafeU16::new(3));
    bf_debug_op_dump_vp(&mut sys, SafeU16::new(4));
    bf_debug_op_dump_vs(&mut sys, SafeU16::new(5));
    bf_debug_op_dump_vmexit_log(&mut sys, SafeU16::new(6));
    bf_debug_op_write_c(&mut sys, 0x41);
    bf_debug_op_write_str(&mut sys, 0x8000, 12);
    bf_debug_op_dump_ext(&mut sys, SafeU16::new(7));
    bf_debug_op_dump_page_pool(&mut sys);
    bf_debug_op_dump_huge_pool(&mut sys);
    assert_eq!(
        sys.host().log,
        vec![
            HostCall::ControlExit,
            HostCall::ControlWait,
            HostCall::ControlAgain,
            HostCall::DebugOut { val1: 1, val2: 2 },
            HostCall::DebugDumpVm { vmid: 3 },
            HostCall::DebugDumpVp { vpid: 4 },
            HostCall::DebugDumpVs { vsid: 5 },
            HostCall::DebugDumpVmexitLog { ppid: 6 },
            HostCall::DebugWriteC { c: 0x41 },
            HostCall::DebugWriteStr { addr: 0x8000, len: 12 },
            HostCall::DebugDumpExt { extid: 7 },
            HostCall::DebugDumpPagePool,
            HostCall::DebugDumpHugePool,
        ]
    );
}
