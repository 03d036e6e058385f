//! The record of one virtual processor.

use vstd::prelude::*;

use crate::allocated_status_t::AllocatedStatusT;
use crate::bf_syscall_t::BfSyscallT;
use crate::constants::BF_INVALID_ID;
use crate::gs_t::GsT;
use crate::host_gateway::HostGateway;
use crate::intrinsic_t::IntrinsicT;
use crate::safe_integral::SafeU16;
use crate::tls_t::TlsT;

verus! {

/// What a VP record says: which VP it stands for, whether that VP exists,
/// and which VM owns it.
pub struct VpView {
    /// The ID of the VP, or `BF_INVALID_ID` before the record got one.
    pub id: u16,
    /// Whether the VP exists.
    pub allocated: AllocatedStatusT,
    /// The ID of the VM that the VP was made for, or `BF_INVALID_ID` while
    /// the VP does not exist.
    pub assigned_vm: u16,
}

impl VpView {
    /// The record that all-zero memory holds: no ID, not allocated, no owner.
    pub open spec fn unused() -> VpView {
        VpView {
            id: BF_INVALID_ID,
            allocated: AllocatedStatusT::Deallocated,
            assigned_vm: BF_INVALID_ID,
        }
    }

    /// The free record of the VP `id`.
    pub open spec fn free(id: u16) -> VpView {
        VpView { id, allocated: AllocatedStatusT::Deallocated, assigned_vm: BF_INVALID_ID }
    }

    /// The record after its VP was created for the VM `vmid`.
    pub open spec fn allocate(self, vmid: u16) -> VpView {
        VpView { id: self.id, allocated: AllocatedStatusT::Allocated, assigned_vm: vmid }
    }

    /// The record after its VP was destroyed.
    pub open spec fn deallocate(self) -> VpView {
        VpView::free(self.id)
    }

    /// A record names an owner if and only if it is allocated.
    pub open spec fn wf(self) -> bool {
        (self.allocated == AllocatedStatusT::Allocated) <==> (self.assigned_vm != BF_INVALID_ID)
    }
}

/// The record of one VP.
///
/// The IDs are kept as their bitwise complement, so that all-zero memory
/// reads as a record with no ID and no owner.
#[derive(Clone, Copy, Debug)]
pub struct VpT {
    m_id: SafeU16,
    m_allocated: AllocatedStatusT,
    m_assigned_vmid: SafeU16,
}

impl View for VpT {
    type V = VpView;

    closed spec fn view(&self) -> VpView {
        VpView {
            id: !self.m_id.val,
            allocated: self.m_allocated,
            assigned_vm: !self.m_assigned_vmid.val,
        }
    }
}

impl VpT {
    /// The record holds two usable numbers, and names an owner if and only
    /// if it is allocated.
    pub closed spec fn wf(&self) -> bool {
        &&& self.m_id.is_valid_and_checked()
        &&& self.m_assigned_vmid.is_valid_and_checked()
        &&& self@.wf()
    }

    /// Two records that say the same are the same.
    pub proof fn lemma_view_is_all(a: VpT, b: VpT)
        requires
            a.wf(),
            b.wf(),
            a@ == b@,
        ensures
            a == b,
    {
        let x = a.m_id.val;
        let y = b.m_id.val;
        assert(x == y) by (bit_vector)
            requires
                !x == !y,
        ;
        let x = a.m_assigned_vmid.val;
        let y = b.m_assigned_vmid.val;
        assert(x == y) by (bit_vector)
            requires
                !x == !y,
        ;
    }

    /// Makes an unused record, which is what all-zero memory holds.
    pub fn new() -> (ret: Self)
        ensures
            ret.wf(),
            ret@ == VpView::unused(),
    {
        assert(!0u16 == 0xFFFFu16) by (bit_vector);
        VpT {
            m_id: SafeU16::new(0),
            m_allocated: AllocatedStatusT::Deallocated,
            m_assigned_vmid: SafeU16::new(0),
        }
    }

    /// Gives an unused record its ID, which it keeps from then on.
    pub fn initialize<H: HostGateway>(
        &mut self,
        gs: &GsT,
        tls: &TlsT,
        sys: &BfSyscallT<H>,
        intrinsic: &IntrinsicT,
        i: SafeU16,
    )
        requires
            old(self).wf(),
            old(self)@ == VpView::unused(),
            i.is_valid_and_checked(),
            i@ != BF_INVALID_ID,
        ensures
            final(self).wf(),
            final(self)@ == VpView::free(i@),
    {
        self.m_id = i.complement();
    }

    /// Frees the record and takes its ID away. Nothing is asked of the host.
    pub fn release<H: HostGateway>(
        &mut self,
        gs: &GsT,
        tls: &TlsT,
        sys: &BfSyscallT<H>,
        intrinsic: &IntrinsicT,
    )
        requires
            old(self).wf(),
        ensures
            final(self).wf(),
            final(self)@ == VpView::unused(),
    {
        self.deallocate(gs, tls, sys, intrinsic);
        assert(!0u16 == 0xFFFFu16) by (bit_vector);
        self.m_id = SafeU16::default();
    }

    /// Returns the ID of the record.
    pub fn id(&self) -> (ret: SafeU16)
        requires
            self.wf(),
        ensures
            ret == SafeU16::spec_new(self@.id),
    {
        self.m_id.complement()
    }

    /// Marks the record as allocated to the VM `vmid` and returns the
    /// record's ID.
    pub fn allocate<H: HostGateway>(
        &mut self,
        gs: &GsT,
        tls: &TlsT,
        sys: &BfSyscallT<H>,
        intrinsic: &IntrinsicT,
        vmid: SafeU16,
    ) -> (ret: SafeU16)
        requires
            old(self).wf(),
            old(self)@.id != BF_INVALID_ID,
            old(self)@.allocated == AllocatedStatusT::Deallocated,
            vmid.is_valid_and_checked(),
            vmid@ != BF_INVALID_ID,
        ensures
            final(self).wf(),
            final(self)@ == old(self)@.allocate(vmid@),
            ret == SafeU16::spec_new(old(self)@.id),
    {
        self.m_assigned_vmid = vmid.complement();
        self.m_allocated = AllocatedStatusT::Allocated;
        self.id()
    }

    /// Marks the record as free and forgets its owner. A record that is
    /// free already stays as it is.
    pub fn deallocate<H: HostGateway>(
        &mut self,
        gs: &GsT,
        tls: &TlsT,
        sys: &BfSyscallT<H>,
        intrinsic: &IntrinsicT,
    )
        requires
            old(self).wf(),
        ensures
            final(self).wf(),
            final(self)@ == old(self)@.deallocate(),
            old(self)@.allocated == AllocatedStatusT::Deallocated ==> *final(self) == *old(self),
    {
        proof {
            assert(!0u16 == 0xFFFFu16) by (bit_vector);
            if self.m_allocated == AllocatedStatusT::Deallocated {
                let x = self.m_assigned_vmid.val;
                assert(x == 0) by (bit_vector)
                    requires
                        !x == 0xFFFFu16,
                ;
            }
        }
        self.m_assigned_vmid = SafeU16::default();
        self.m_allocated = AllocatedStatusT::Deallocated;
    }

    /// Returns true if the record is allocated.
    pub fn is_allocated(&self) -> (ret: bool)
        ensures
            ret == (self@.allocated == AllocatedStatusT::Allocated),
    {
        self.m_allocated == AllocatedStatusT::Allocated
    }

    /// Returns true if the record is free.
    pub fn is_deallocated(&self) -> (ret: bool)
        ensures
            ret == (self@.allocated == AllocatedStatusT::Deallocated),
    {
        self.m_allocated == AllocatedStatusT::Deallocated
    }

    /// Returns the ID of the VM that the VP was made for, or
    /// `BF_INVALID_ID` if the record is free.
    pub fn assigned_vm(&self) -> (ret: SafeU16)
        requires
            self.wf(),
        ensures
            ret == SafeU16::spec_new(self@.assigned_vm),
            self@.allocated == AllocatedStatusT::Deallocated ==> ret@ == BF_INVALID_ID,
    {
        self.m_assigned_vmid.complement()
    }
}

/// Allocating a record and deallocating it again leaves the record free,
/// with no owner and with the ID that it had. If the record was free before,
/// it is as it was.
pub proof fn lemma_vp_allocate_deallocate(vp: VpView, vmid: u16)
    ensures
        vp.allocate(vmid).deallocate() == VpView::free(vp.id),
        vp.wf() && vp.allocated == AllocatedStatusT::Deallocated ==> vp.allocate(vmid).deallocate()
            == vp,
{
}

/// Deallocating a free record changes nothing.
pub proof fn lemma_vp_deallocate_free(vp: VpView)
    requires
        vp.wf(),
        vp.allocated == AllocatedStatusT::Deallocated,
    ensures
        vp.deallocate() == vp,
{
}

} // verus!
