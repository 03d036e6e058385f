//! The record of one virtual processor state, and what a new VS is
//! programmed with.

use vstd::prelude::*;

use crate::allocated_status_t::AllocatedStatusT;
use crate::bf_reg_t::{
    bf_reg_t_is_valid, ArchT, BF_REG_T_ADDRESS_OF_MSR_BITMAPS, BF_REG_T_GUEST_ASID,
    BF_REG_T_INTERCEPT_INSTRUCTION1, BF_REG_T_INTERCEPT_INSTRUCTION2,
    BF_REG_T_PIN_BASED_VM_EXECUTION_CTLS, BF_REG_T_PRIMARY_PROC_BASED_VM_EXECUTION_CTLS,
    BF_REG_T_SECONDARY_PROC_BASED_VM_EXECUTION_CTLS, BF_REG_T_VIRTUAL_PROCESSOR_IDENTIFIER,
    BF_REG_T_VMCS_LINK_POINTER, BF_REG_T_VMENTRY_CTLS, BF_REG_T_VMEXIT_CTLS,
};
use crate::bf_syscall_t::{is_id_in_range, BfSyscallT};
use crate::config::HYPERVISOR_MAX_VSS;
use crate::constants::{BF_INVALID_ID, TLS_OFFSET_ONLINE_PPS};
use crate::errc_type::ErrcType;
use crate::gs_t::GsT;
use crate::host_gateway::{
    completes, follows, lemma_follows_in_a_row, lemma_follows_longer_plan, Exchange, HostCall,
    HostGateway,
};
use crate::intrinsic_t::IntrinsicT;
use crate::safe_integral::{low_u16, SafeU16, SafeU64};
use crate::tls_t::TlsT;

verus! {

// AMD: what a new VMCB is programmed with

/// The address space ID that every guest runs under.
pub const VMCB_GUEST_ASID: u64 = 0x1;

/// First intercept word: intercept CPUID.
pub const VMCB_INTERCEPT_CPUID: u64 = 0x00040000;

/// Second intercept word: intercept VMRUN.
pub const VMCB_INTERCEPT_VMRUN: u64 = 0x00000001;

// Intel: what a new VMCS is programmed with

/// The virtual processor ID that every guest runs under.
pub const VMCS_VPID: u64 = 0x1;

/// The link pointer of a VMCS that has no shadow.
pub const VMCS_LINK_PTR: u64 = 0xFFFFFFFFFFFFFFFF;

/// Primary controls: use the MSR bitmaps.
pub const VMCS_ENABLE_MSR_BITMAPS: u64 = 0x10000000;

/// Primary controls: activate the secondary controls.
pub const VMCS_ENABLE_PROC2_CTLS: u64 = 0x80000000;

/// Entry controls: the guest runs in IA-32e mode.
pub const VMCS_ENABLE_IA32E_MODE: u64 = 0x00000200;

/// Secondary controls: tag TLB entries with the VPID.
pub const VMCS_ENABLE_VPID: u64 = 0x00000020;

/// Secondary controls: let the guest execute RDTSCP.
pub const VMCS_ENABLE_RDTSCP: u64 = 0x00000008;

/// Secondary controls: let the guest execute INVPCID.
pub const VMCS_ENABLE_INVPCID: u64 = 0x00001000;

/// Secondary controls: let the guest execute XSAVES and XRSTORS.
pub const VMCS_ENABLE_XSAVE: u64 = 0x00100000;

/// Secondary controls: let the guest execute the user wait instructions.
pub const VMCS_ENABLE_UWAIT: u64 = 0x04000000;

/// The registers that a new VS is programmed with, each with its value, in
/// the order in which they are written.
///
/// On AMD: the guest ASID and the two intercept words. On Intel: the VPID,
/// the link pointer, the pin-based, primary, exit, entry and secondary
/// controls, and the address of the MSR bitmaps, `msr_bitmap_phys`.
pub open spec fn vs_defaults(arch: ArchT, msr_bitmap_phys: u64) -> Seq<(u64, u64)> {
    match arch {
        ArchT::AuthenticAmd => seq![
            (BF_REG_T_GUEST_ASID, VMCB_GUEST_ASID),
            (BF_REG_T_INTERCEPT_INSTRUCTION1, VMCB_INTERCEPT_CPUID),
            (BF_REG_T_INTERCEPT_INSTRUCTION2, VMCB_INTERCEPT_VMRUN),
        ],
        ArchT::GenuineIntel => seq![
            (BF_REG_T_VIRTUAL_PROCESSOR_IDENTIFIER, VMCS_VPID),
            (BF_REG_T_VMCS_LINK_POINTER, VMCS_LINK_PTR),
            (BF_REG_T_PIN_BASED_VM_EXECUTION_CTLS, 0u64),
            (
                BF_REG_T_PRIMARY_PROC_BASED_VM_EXECUTION_CTLS,
                VMCS_ENABLE_MSR_BITMAPS | VMCS_ENABLE_PROC2_CTLS,
            ),
            (BF_REG_T_VMEXIT_CTLS, 0u64),
            (BF_REG_T_VMENTRY_CTLS, VMCS_ENABLE_IA32E_MODE),
            (
                BF_REG_T_SECONDARY_PROC_BASED_VM_EXECUTION_CTLS,
                VMCS_ENABLE_VPID | VMCS_ENABLE_RDTSCP | VMCS_ENABLE_INVPCID | VMCS_ENABLE_XSAVE
                    | VMCS_ENABLE_UWAIT,
            ),
            (BF_REG_T_ADDRESS_OF_MSR_BITMAPS, msr_bitmap_phys),
        ],
    }
}

/// The calls that write the registers `writes` of the VS `vsid`, in order.
pub open spec fn write_calls(hndl: u64, vsid: u16, writes: Seq<(u64, u64)>) -> Seq<HostCall> {
    Seq::new(
        writes.len(),
        |i: int| HostCall::VsWrite { hndl, vsid, reg: writes[i].0, val: writes[i].1 },
    )
}

/// The calls that set up the new VS `vsid`: its registers are written, the
/// number of online PPs is read, and if `vsid` lies below that number,
/// `online_pps`, the VS is a root VS and is filled with the state of its PP.
pub open spec fn vs_allocate_plan(
    arch: ArchT,
    hndl: u64,
    vsid: u16,
    msr_bitmap_phys: u64,
    online_pps: u16,
) -> Seq<HostCall> {
    write_calls(hndl, vsid, vs_defaults(arch, msr_bitmap_phys)) + seq![
        HostCall::TlsLoad { offset: TLS_OFFSET_ONLINE_PPS },
    ] + (if vsid < online_pps {
        seq![HostCall::VsInitAsRoot { hndl, vsid }]
    } else {
        Seq::<HostCall>::empty()
    })
}

/// The number of online PPs that the host reported in the course of the
/// exchanges `xs` of a VS set-up: the reply to the call that follows the
/// register writes.
pub open spec fn vs_online_pps_seen(arch: ArchT, xs: Seq<Exchange>) -> u16 {
    low_u16(xs[vs_defaults(arch, 0).len() as int].reply.out0)
}

/// What a VS record says: which VS it stands for, whether that VS exists,
/// and which VP and PP it belongs to.
pub struct VsView {
    /// The ID of the VS, or `BF_INVALID_ID` before the record got one.
    pub id: u16,
    /// Whether the VS exists.
    pub allocated: AllocatedStatusT,
    /// The ID of the VP that the VS was made for, or `BF_INVALID_ID` while
    /// the VS does not exist.
    pub assigned_vp: u16,
    /// The ID of the PP that the VS runs on, or `BF_INVALID_ID` while the VS
    /// does not exist.
    pub assigned_pp: u16,
}

impl VsView {
    /// The record that all-zero memory holds: no ID, not allocated, no
    /// owners.
    pub open spec fn unused() -> VsView {
        VsView::free(BF_INVALID_ID)
    }

    /// The free record of the VS `id`.
    pub open spec fn free(id: u16) -> VsView {
        VsView {
            id,
            allocated: AllocatedStatusT::Deallocated,
            assigned_vp: BF_INVALID_ID,
            assigned_pp: BF_INVALID_ID,
        }
    }

    /// The record after its VS was created for the VP `vpid` on the PP
    /// `ppid`.
    pub open spec fn allocate(self, vpid: u16, ppid: u16) -> VsView {
        VsView {
            id: self.id,
            allocated: AllocatedStatusT::Allocated,
            assigned_vp: vpid,
            assigned_pp: ppid,
        }
    }

    /// The record after its VS was destroyed.
    pub open spec fn deallocate(self) -> VsView {
        VsView::free(self.id)
    }

    /// A record names its owners if and only if it is allocated.
    pub open spec fn wf(self) -> bool {
        &&& (self.allocated == AllocatedStatusT::Allocated) <==> (self.assigned_vp != BF_INVALID_ID)
        &&& (self.allocated == AllocatedStatusT::Allocated) <==> (self.assigned_pp != BF_INVALID_ID)
    }
}

/// What `VsT::allocate` does, as the exchanges `xs` with the host and the
/// record before and after show it: the set-up calls were made in order up
/// to the first that failed; if none failed the record is now allocated to
/// `vpid` and `ppid` and `ret` is its ID; if one did, the record is as it
/// was and `ret` is poisoned.
pub open spec fn vs_allocated(
    before: VsView,
    arch: ArchT,
    hndl: u64,
    msr_bitmap_phys: u64,
    vpid: u16,
    ppid: u16,
    xs: Seq<Exchange>,
    ret: SafeU16,
    after: VsView,
) -> bool {
    let plan = vs_allocate_plan(
        arch,
        hndl,
        before.id,
        msr_bitmap_phys,
        vs_online_pps_seen(arch, xs),
    );
    &&& follows(xs, plan)
    &&& if completes(xs, plan) {
        ret == SafeU16::spec_new(before.id) && after == before.allocate(vpid, ppid)
    } else {
        ret == SafeU16::spec_failure() && after == before
    }
}

/// Returns the registers that a new VS is programmed with.
fn defaults(arch: ArchT, msr_bitmap_phys: u64) -> (writes: Vec<(u64, u64)>)
    ensures
        writes@ == vs_defaults(arch, msr_bitmap_phys),
{
    let writes = match arch {
        ArchT::AuthenticAmd => vec![
            (BF_REG_T_GUEST_ASID, VMCB_GUEST_ASID),
            (BF_REG_T_INTERCEPT_INSTRUCTION1, VMCB_INTERCEPT_CPUID),
            (BF_REG_T_INTERCEPT_INSTRUCTION2, VMCB_INTERCEPT_VMRUN),
        ],
        ArchT::GenuineIntel => {
            let pin_ctls: u64 = 0;
            let proc_ctls: u64 = VMCS_ENABLE_MSR_BITMAPS | VMCS_ENABLE_PROC2_CTLS;
            let exit_ctls: u64 = 0;
            let entry_ctls: u64 = VMCS_ENABLE_IA32E_MODE;
            let proc2_ctls: u64 = VMCS_ENABLE_VPID | VMCS_ENABLE_RDTSCP | VMCS_ENABLE_INVPCID
                | VMCS_ENABLE_XSAVE | VMCS_ENABLE_UWAIT;
            vec![
                (BF_REG_T_VIRTUAL_PROCESSOR_IDENTIFIER, VMCS_VPID),
                (BF_REG_T_VMCS_LINK_POINTER, VMCS_LINK_PTR),
                (BF_REG_T_PIN_BASED_VM_EXECUTION_CTLS, pin_ctls),
                (BF_REG_T_PRIMARY_PROC_BASED_VM_EXECUTION_CTLS, proc_ctls),
                (BF_REG_T_VMEXIT_CTLS, exit_ctls),
                (BF_REG_T_VMENTRY_CTLS, entry_ctls),
                (BF_REG_T_SECONDARY_PROC_BASED_VM_EXECUTION_CTLS, proc2_ctls),
                (BF_REG_T_ADDRESS_OF_MSR_BITMAPS, msr_bitmap_phys),
            ]
        },
    };
    assert(writes@ =~= vs_defaults(arch, msr_bitmap_phys));
    writes
}

/// Writes the registers `writes` of the VS `vsid` in order and stops at the
/// first write that the host refuses.
fn write_registers<H: HostGateway>(
    sys: &mut BfSyscallT<H>,
    vsid: SafeU16,
    writes: &Vec<(u64, u64)>,
) -> (ret: ErrcType)
    requires
        is_id_in_range(vsid, HYPERVISOR_MAX_VSS),
        forall|i: int|
            0 <= i < writes@.len() ==> bf_reg_t_is_valid(
                old(sys).spec_arch(),
                (#[trigger] writes@[i]).0,
            ),
    ensures
        final(sys).continues(*old(sys)),
        final(sys).same_session(*old(sys)),
        follows(final(sys).since(*old(sys)), write_calls(old(sys).hndl(), vsid@, writes@)),
        ret == (if completes(
            final(sys).since(*old(sys)),
            write_calls(old(sys).hndl(), vsid@, writes@),
        ) {
            ErrcType::Success
        } else {
            ErrcType::Failure
        }),
{
    let ghost plan = write_calls(sys.hndl(), vsid@, writes@);
    let mut i: usize = 0;
    proof {
        BfSyscallT::lemma_since_none(*sys, *old(sys));
    }
    while i < writes.len()
        invariant
            i <= writes@.len(),
            is_id_in_range(vsid, HYPERVISOR_MAX_VSS),
            forall|i: int|
                0 <= i < writes@.len() ==> bf_reg_t_is_valid(
                    old(sys).spec_arch(),
                    (#[trigger] writes@[i]).0,
                ),
            plan == write_calls(old(sys).hndl(), vsid@, writes@),
            sys.continues(*old(sys)),
            sys.same_session(*old(sys)),
            completes(sys.since(*old(sys)), plan.take(i as int)),
        decreases writes@.len() - i,
    {
        let ghost mid = *sys;
        let (reg, val) = writes[i];
        let ret = sys.bf_vs_op_write(vsid, reg, SafeU64::new(val));
        proof {
            let x = sys.journal().last();
            BfSyscallT::lemma_since_one(*sys, mid, plan[i as int]);
            BfSyscallT::lemma_since_chain(*sys, mid, *old(sys));
            assert(plan.take(i as int) + seq![plan[i as int]] =~= plan.take(i + 1));
            lemma_follows_in_a_row(
                mid.since(*old(sys)),
                plan.take(i as int),
                seq![x],
                seq![plan[i as int]],
            );
        }
        if !ret.success() {
            proof {
                assert(sys.since(*old(sys))[i as int] == sys.journal().last());
                assert(plan.take(i + 1) + plan.skip(i + 1) =~= plan);
                lemma_follows_longer_plan(sys.since(*old(sys)), plan.take(i + 1), plan.skip(i + 1));
            }
            return ErrcType::Failure;
        }
        i = i + 1;
    }
    proof {
        assert(plan.take(i as int) =~= plan);
    }
    ErrcType::Success
}

/// The record of one VS.
///
/// The IDs are kept as their bitwise complement, so that all-zero memory
/// reads as a record with no ID and no owners.
#[derive(Clone, Copy, Debug)]
pub struct VsT {
    m_id: SafeU16,
    m_allocated: AllocatedStatusT,
    m_assigned_vpid: SafeU16,
    m_assigned_ppid: SafeU16,
}

impl View for VsT {
    type V = VsView;

    closed spec fn view(&self) -> VsView {
        VsView {
            id: !self.m_id.val,
            allocated: self.m_allocated,
            assigned_vp: !self.m_assigned_vpid.val,
            assigned_pp: !self.m_assigned_ppid.val,
        }
    }
}

impl VsT {
    /// The record holds three usable numbers, and names its owners if and
    /// only if it is allocated.
    pub closed spec fn wf(&self) -> bool {
        &&& self.m_id.is_valid_and_checked()
        &&& self.m_assigned_vpid.is_valid_and_checked()
        &&& self.m_assigned_ppid.is_valid_and_checked()
        &&& self@.wf()
    }

    /// Two records that say the same are the same.
    pub proof fn lemma_view_is_all(a: VsT, b: VsT)
        requires
            a.wf(),
            b.wf(),
            a@ == b@,
        ensures
            a == b,
    {
        let x = a.m_id.val;
        let y = b.m_id.val;
        assert(x == y) by (bit_vector)
            requires
                !x == !y,
        ;
        let x = a.m_assigned_vpid.val;
        let y = b.m_assigned_vpid.val;
        assert(x == y) by (bit_vector)
            requires
                !x == !y,
        ;
        let x = a.m_assigned_ppid.val;
        let y = b.m_assigned_ppid.val;
        assert(x == y) by (bit_vector)
            requires
                !x == !y,
        ;
    }

    /// Makes an unused record, which is what all-zero memory holds.
    pub fn new() -> (ret: Self)
        ensures
            ret.wf(),
            ret@ == VsView::unused(),
    {
        assert(!0u16 == 0xFFFFu16) by (bit_vector);
        VsT {
            m_id: SafeU16::new(0),
            m_allocated: AllocatedStatusT::Deallocated,
            m_assigned_vpid: SafeU16::new(0),
            m_assigned_ppid: SafeU16::new(0),
        }
    }

    /// Gives an unused record its ID, which it keeps from then on.
    pub fn initialize<H: HostGateway>(
        &mut self,
        gs: &GsT,
        tls: &TlsT,
        sys: &BfSyscallT<H>,
        intrinsic: &IntrinsicT,
        i: SafeU16,
    )
        requires
            old(self).wf(),
            old(self)@ == VsView::unused(),
            i.is_valid_and_checked(),
            i@ != BF_INVALID_ID,
        ensures
            final(self).wf(),
            final(self)@ == VsView::free(i@),
    {
        self.m_id = i.complement();
    }

    /// Frees the record and takes its ID away. Nothing is asked of the host.
    pub fn release<H: HostGateway>(
        &mut self,
        gs: &GsT,
        tls: &TlsT,
        sys: &BfSyscallT<H>,
        intrinsic: &IntrinsicT,
    )
        requires
            old(self).wf(),
        ensures
            final(self).wf(),
            final(self)@ == VsView::unused(),
    {
        self.deallocate(gs, tls, sys, intrinsic);
        assert(!0u16 == 0xFFFFu16) by (bit_vector);
        self.m_id = SafeU16::default();
    }

    /// Returns the ID of the record.
    pub fn id(&self) -> (ret: SafeU16)
        requires
            self.wf(),
        ensures
            ret == SafeU16::spec_new(self@.id),
    {
        self.m_id.complement()
    }

    /// Sets up the VS of this record, which the host has just created for
    /// the VP `vpid` on the PP `ppid`, and marks the record as allocated.
    ///
    /// The registers of `vs_defaults` are written. Then, if the VS is a
    /// root VS, it is filled with the state that the loader recorded for its
    /// PP. Returns the record's ID. If the host refuses any of this, the
    /// set-up stops there, the record stays free and the result is a
    /// poisoned value.
    pub fn allocate<H: HostGateway>(
        &mut self,
        gs: &GsT,
        tls: &TlsT,
        sys: &mut BfSyscallT<H>,
        intrinsic: &IntrinsicT,
        vpid: SafeU16,
        ppid: SafeU16,
    ) -> (ret: SafeU16)
        requires
            old(self).wf(),
            old(self)@.id != BF_INVALID_ID,
            old(self)@.id < HYPERVISOR_MAX_VSS,
            old(self)@.allocated == AllocatedStatusT::Deallocated,
            vpid.is_valid_and_checked(),
            vpid@ != BF_INVALID_ID,
            ppid.is_valid_and_checked(),
            ppid@ != BF_INVALID_ID,
            gs.wf(),
        ensures
            final(self).wf(),
            final(sys).continues(*old(sys)),
            final(sys).same_session(*old(sys)),
            vs_allocated(
                old(self)@,
                old(sys).spec_arch(),
                old(sys).hndl(),
                gs.msr_bitmap_phys@,
                vpid@,
                ppid@,
                final(sys).since(*old(sys)),
                ret,
                final(self)@,
            ),
            ret.is_invalid() ==> *final(self) == *old(self),
    {
        let id = self.id();
        let ghost arch = sys.spec_arch();
        let ghost hndl = sys.hndl();
        let ghost phys = gs.msr_bitmap_phys@;
        let ghost writes = write_calls(hndl, id@, vs_defaults(arch, phys));
        let ghost load = seq![HostCall::TlsLoad { offset: TLS_OFFSET_ONLINE_PPS }];
        let ghost init = seq![HostCall::VsInitAsRoot { hndl, vsid: id@ }];

        let regs = defaults(sys.arch(), gs.msr_bitmap_phys.get());
        let ret = write_registers(sys, id, &regs);
        let ghost wrote = *sys;
        let ghost xs = sys.since(*old(sys));
        if !ret.success() {
            proof {
                let seen = vs_online_pps_seen(arch, xs);
                let rest = vs_allocate_plan(arch, hndl, id@, phys, seen).skip(writes.len() as int);
                assert(writes + rest =~= vs_allocate_plan(arch, hndl, id@, phys, seen));
                lemma_follows_longer_plan(xs, writes, rest);
            }
            return SafeU16::failure();
        }
        let is_root = sys.is_vs_a_root_vs(id);
        let ghost loaded = *sys;
        let ghost x = sys.journal().last();
        proof {
            BfSyscallT::lemma_since_one(loaded, wrote, load[0]);
            BfSyscallT::lemma_since_chain(loaded, wrote, *old(sys));
            lemma_follows_in_a_row(xs, writes, seq![x], load);
            assert((xs + seq![x])[writes.len() as int] == x);
        }
        if is_root {
            let ret = sys.bf_vs_op_init_as_root(id);
            proof {
                let y = sys.journal().last();
                BfSyscallT::lemma_since_one(*sys, loaded, init[0]);
                BfSyscallT::lemma_since_chain(*sys, loaded, *old(sys));
                lemma_follows_in_a_row(xs + seq![x], writes + load, seq![y], init);
                assert((xs + seq![x] + seq![y])[writes.len() as int] == x);
            }
            if !ret.success() {
                proof {
                    let zs = sys.since(*old(sys));
                    assert(zs[zs.len() - 1] == sys.journal().last());
                }
                return SafeU16::failure();
            }
        } else {
            proof {
                assert(writes + load + Seq::<HostCall>::empty() =~= writes + load);
            }
        }
        self.m_assigned_vpid = vpid.complement();
        self.m_assigned_ppid = ppid.complement();
        self.m_allocated = AllocatedStatusT::Allocated;
        self.id()
    }

    /// Marks the record as free and forgets its owners. A record that is
    /// free already stays as it is.
    pub fn deallocate<H: HostGateway>(
        &mut self,
        gs: &GsT,
        tls: &TlsT,
        sys: &BfSyscallT<H>,
        intrinsic: &IntrinsicT,
    )
        requires
            old(self).wf(),
        ensures
            final(self).wf(),
            final(self)@ == old(self)@.deallocate(),
            old(self)@.allocated == AllocatedStatusT::Deallocated ==> *final(self) == *old(self),
    {
        proof {
            assert(!0u16 == 0xFFFFu16) by (bit_vector);
            if self.m_allocated == AllocatedStatusT::Deallocated {
                let x = self.m_assigned_vpid.val;
                assert(x == 0) by (bit_vector)
                    requires
                        !x == 0xFFFFu16,
                ;
                let x = self.m_assigned_ppid.val;
                assert(x == 0) by (bit_vector)
                    requires
                        !x == 0xFFFFu16,
                ;
            }
        }
        self.m_assigned_ppid = SafeU16::default();
        self.m_assigned_vpid = SafeU16::default();
        self.m_allocated = AllocatedStatusT::Deallocated;
    }

    /// Returns true if the record is allocated.
    pub fn is_allocated(&self) -> (ret: bool)
        ensures
            ret == (self@.allocated == AllocatedStatusT::Allocated),
    {
        self.m_allocated == AllocatedStatusT::Allocated
    }

    /// Returns true if the record is free.
    pub fn is_deallocated(&self) -> (ret: bool)
        ensures
            ret == (self@.allocated == AllocatedStatusT::Deallocated),
    {
        self.m_allocated == AllocatedStatusT::Deallocated
    }

    /// Returns the ID of the VP that the VS was made for, or
    /// `BF_INVALID_ID` if the record is free.
    pub fn assigned_vp(&self) -> (ret: SafeU16)
        requires
            self.wf(),
        ensures
            ret == SafeU16::spec_new(self@.assigned_vp),
            self@.allocated == AllocatedStatusT::Deallocated ==> ret@ == BF_INVALID_ID,
    {
        self.m_assigned_vpid.complement()
    }

    /// Returns the ID of the PP that the VS runs on, or `BF_INVALID_ID` if
    /// the record is free.
    pub fn assigned_pp(&self) -> (ret: SafeU16)
        requires
            self.wf(),
        ensures
            ret == SafeU16::spec_new(self@.assigned_pp),
            self@.allocated == AllocatedStatusT::Deallocated ==> ret@ == BF_INVALID_ID,
    {
        self.m_assigned_ppid.complement()
    }
}

/// Allocating a record and deallocating it again leaves the record free,
/// with no owner and with the ID that it had. If the record was free before,
/// it is as it was.
pub proof fn lemma_vs_allocate_deallocate(vs: VsView, vpid: u16, ppid: u16)
    ensures
        vs.allocate(vpid, ppid).deallocate() == VsView::free(vs.id),
        vs.wf() && vs.allocated == AllocatedStatusT::Deallocated ==> vs.allocate(
            vpid,
            ppid,
        ).deallocate() == vs,
{
}

/// Deallocating a free record changes nothing.
pub proof fn lemma_vs_deallocate_free(vs: VsView)
    requires
        vs.wf(),
        vs.allocated == AllocatedStatusT::Deallocated,
    ensures
        vs.deallocate() == vs,
{
}

} // verus!
