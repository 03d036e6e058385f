//! The pool of virtual processors.

use vstd::prelude::*;

use crate::allocated_status_t::AllocatedStatusT;
use crate::bf_syscall_t::{is_id_in_range, spec_errc_of_status, spec_id_of_reply, BfSyscallT};
use crate::config::{HYPERVISOR_MAX_VMS, HYPERVISOR_MAX_VPS};
use crate::constants::BF_INVALID_ID;
use crate::errc_type::ErrcType;
use crate::gs_t::GsT;
use crate::host_gateway::{Exchange, HostCall, HostGateway};
use crate::intrinsic_t::IntrinsicT;
use crate::safe_integral::SafeU16;
use crate::tls_t::TlsT;
use crate::vp_t::{VpT, VpView};

verus! {

/// A pool of VP records of which none has an ID yet.
pub open spec fn vp_pool_unused() -> Seq<VpView> {
    Seq::new(HYPERVISOR_MAX_VPS as nat, |i: int| VpView::unused())
}

/// A pool of free VP records, each with its index as its ID.
pub open spec fn vp_pool_free() -> Seq<VpView> {
    Seq::new(HYPERVISOR_MAX_VPS as nat, |i: int| VpView::free(i as u16))
}

/// True if every record of `pool` has its index as its ID and names an
/// owner if and only if it is allocated.
pub open spec fn vp_pool_is_tagged(pool: Seq<VpView>) -> bool {
    &&& pool.len() == HYPERVISOR_MAX_VPS
    &&& forall|i: int| 0 <= i < pool.len() ==> (#[trigger] pool[i]).id == i && pool[i].wf()
}

/// The pool after the VP `vpid` was allocated to the VM `vmid`.
pub open spec fn vp_pool_allocate(pool: Seq<VpView>, vpid: u16, vmid: u16) -> Seq<VpView> {
    pool.update(vpid as int, pool[vpid as int].allocate(vmid))
}

/// The pool after the VP `vpid` was deallocated.
pub open spec fn vp_pool_deallocate(pool: Seq<VpView>, vpid: u16) -> Seq<VpView> {
    pool.update(vpid as int, pool[vpid as int].deallocate())
}

/// What `VpPoolT::allocate` returns, given the pool before and the exchange
/// `x` in which the host was asked to create a VP: the ID that the host
/// named if it can be used and its record was free, a poisoned value if not.
pub open spec fn vp_pool_allocate_ret(before: Seq<VpView>, x: Exchange) -> SafeU16 {
    let vpid = spec_id_of_reply(x.reply, HYPERVISOR_MAX_VPS);
    if vpid.is_valid() && before[vpid@ as int].allocated == AllocatedStatusT::Deallocated {
        vpid
    } else {
        SafeU16::spec_failure()
    }
}

/// What `VpPoolT::allocate` does, as the exchange `x` with the host and the
/// pool before and after show it: the host was asked to create a VP for the
/// VM `vmid`; if it named a usable VP whose record was free, that record is
/// now allocated to `vmid` and `ret` is its ID; if not, the pool is as it
/// was and `ret` is poisoned.
pub open spec fn vp_pool_allocated(
    before: Seq<VpView>,
    hndl: u64,
    vmid: u16,
    x: Exchange,
    ret: SafeU16,
    after: Seq<VpView>,
) -> bool {
    &&& x.call == HostCall::VpCreate { hndl, vmid }
    &&& ret == vp_pool_allocate_ret(before, x)
    &&& after == (if ret.is_valid() {
        vp_pool_allocate(before, ret@, vmid)
    } else {
        before
    })
}

/// One step in the life of a pool.
pub enum VpPoolOp {
    /// The VP `vpid` is allocated to the VM `vmid`.
    Allocate { vpid: u16, vmid: u16 },
    /// The VP `vpid` is deallocated.
    Deallocate { vpid: u16 },
}

/// The pool after one step. A step that names no record of the pool leaves
/// the pool as it is.
pub open spec fn vp_pool_step(pool: Seq<VpView>, op: VpPoolOp) -> Seq<VpView> {
    match op {
        VpPoolOp::Allocate { vpid, vmid } => if vpid < pool.len() {
            vp_pool_allocate(pool, vpid, vmid)
        } else {
            pool
        },
        VpPoolOp::Deallocate { vpid } => if vpid < pool.len() {
            vp_pool_deallocate(pool, vpid)
        } else {
            pool
        },
    }
}

/// The pool after the steps `ops`, first to last.
pub open spec fn vp_pool_run(pool: Seq<VpView>, ops: Seq<VpPoolOp>) -> Seq<VpView>
    decreases ops.len(),
{
    if ops.len() == 0 {
        pool
    } else {
        vp_pool_step(vp_pool_run(pool, ops.drop_last()), ops.last())
    }
}

/// The pool of VPs: one record for each VP that the host can hold, found by
/// the VP's ID.
pub struct VpPoolT {
    m_pool: [VpT; HYPERVISOR_MAX_VPS],
}

impl View for VpPoolT {
    type V = Seq<VpView>;

    closed spec fn view(&self) -> Seq<VpView> {
        Seq::new(HYPERVISOR_MAX_VPS as nat, |i: int| self.m_pool[i]@)
    }
}

impl VpPoolT {
    /// Every record of the pool is well formed.
    pub closed spec fn wf(&self) -> bool {
        forall|i: int| 0 <= i < HYPERVISOR_MAX_VPS ==> (#[trigger] self.m_pool[i]).wf()
    }

    /// Two pools that say the same are the same.
    pub proof fn lemma_view_is_all(a: VpPoolT, b: VpPoolT)
        requires
            a.wf(),
            b.wf(),
            a@ == b@,
        ensures
            a == b,
    {
        assert forall|i: int| 0 <= i < HYPERVISOR_MAX_VPS implies a.m_pool[i] == b.m_pool[i] by {
            assert(a@[i] == a.m_pool[i]@);
            assert(b@[i] == b.m_pool[i]@);
            VpT::lemma_view_is_all(a.m_pool[i], b.m_pool[i]);
        }
        assert(a.m_pool =~= b.m_pool);
    }

    /// Returns the record of the VP `vpid`, to change it.
    fn get_vp(&mut self, vpid: SafeU16) -> (vp: &mut VpT)
        requires
            vpid.is_valid_and_checked(),
            vpid@ < HYPERVISOR_MAX_VPS,
        ensures
            *vp == old(self).m_pool[vpid@ as int],
            final(self).m_pool@ == old(self).m_pool@.update(vpid@ as int, *final(vp)),
    {
        &mut self.m_pool[vpid.get() as usize]
    }

    /// Returns the record of the VP `vpid`, to read it.
    fn get_vp_const(&self, vpid: SafeU16) -> (vp: &VpT)
        requires
            vpid.is_valid_and_checked(),
            vpid@ < HYPERVISOR_MAX_VPS,
        ensures
            *vp == self.m_pool[vpid@ as int],
    {
        &self.m_pool[vpid.get() as usize]
    }

    /// Makes a pool of unused records, which is what all-zero memory holds.
    pub fn new() -> (ret: Self)
        ensures
            ret.wf(),
            ret@ == vp_pool_unused(),
    {
        let ret = VpPoolT { m_pool: [VpT::new(); HYPERVISOR_MAX_VPS] };
        assert(ret@ =~= vp_pool_unused());
        ret
    }

    /// Gives every record of an unused pool its index as its ID.
    pub fn initialize<H: HostGateway>(
        &mut self,
        gs: &GsT,
        tls: &TlsT,
        sys: &BfSyscallT<H>,
        intrinsic: &IntrinsicT,
    )
        requires
            old(self).wf(),
            old(self)@ == vp_pool_unused(),
        ensures
            final(self).wf(),
            final(self)@ == vp_pool_free(),
            vp_pool_is_tagged(final(self)@),
    {
        assert forall|j: int| 0 <= j < HYPERVISOR_MAX_VPS implies (#[trigger] self.m_pool[j])@
            == VpView::unused() by {
            assert(self@[j] == self.m_pool[j]@);
        }
        let mut i: usize = 0;
        while i < HYPERVISOR_MAX_VPS
            invariant
                i <= HYPERVISOR_MAX_VPS,
                self.wf(),
                forall|j: int|
                    0 <= j < i ==> (#[trigger] self.m_pool[j])@ == VpView::free(j as u16),
                forall|j: int|
                    i <= j < HYPERVISOR_MAX_VPS ==> (#[trigger] self.m_pool[j])@
                        == VpView::unused(),
            decreases HYPERVISOR_MAX_VPS - i,
        {
            let mut vp = self.m_pool[i];
            vp.initialize(gs, tls, sys, intrinsic, SafeU16::new(i as u16));
            self.m_pool[i] = vp;
            i = i + 1;
        }
        assert(self@ =~= vp_pool_free());
    }

    /// Frees every record and takes its ID away. Nothing is asked of the
    /// host: VPs that the host still holds stay with the host.
    pub fn release<H: HostGateway>(
        &mut self,
        gs: &GsT,
        tls: &TlsT,
        sys: &BfSyscallT<H>,
        intrinsic: &IntrinsicT,
    )
        requires
            old(self).wf(),
        ensures
            final(self).wf(),
            final(self)@ == vp_pool_unused(),
    {
        let mut i: usize = 0;
        while i < HYPERVISOR_MAX_VPS
            invariant
                i <= HYPERVISOR_MAX_VPS,
                self.wf(),
                forall|j: int| 0 <= j < i ==> (#[trigger] self.m_pool[j])@ == VpView::unused(),
            decreases HYPERVISOR_MAX_VPS - i,
        {
            let mut vp = self.m_pool[i];
            vp.release(gs, tls, sys, intrinsic);
            self.m_pool[i] = vp;
            i = i + 1;
        }
        assert(self@ =~= vp_pool_unused());
    }

    /// Asks the host to create a VP for the VM `vmid` and allocates the
    /// record of the VP that the host names.
    ///
    /// Returns the ID of the VP. Returns a poisoned value, and leaves the
    /// pool as it was, if the host refuses, if it names a VP that cannot
    /// be, or if it names one whose record is in use.
    pub fn allocate<H: HostGateway>(
        &mut self,
        gs: &GsT,
        tls: &TlsT,
        sys: &mut BfSyscallT<H>,
        intrinsic: &IntrinsicT,
        vmid: SafeU16,
    ) -> (ret: SafeU16)
        requires
            old(self).wf(),
            vp_pool_is_tagged(old(self)@),
            is_id_in_range(vmid, HYPERVISOR_MAX_VMS),
        ensures
            final(self).wf(),
            vp_pool_is_tagged(final(self)@),
            final(sys).did(*old(sys), HostCall::VpCreate { hndl: old(sys).hndl(), vmid: vmid@ }),
            vp_pool_allocated(
                old(self)@,
                old(sys).hndl(),
                vmid@,
                final(sys).journal().last(),
                ret,
                final(self)@,
            ),
            ret.is_invalid() ==> *final(self) == *old(self),
    {
        let vpid = sys.bf_vp_op_create_vp(vmid);
        if vpid.is_invalid() {
            return SafeU16::failure();
        }
        assert(self.m_pool[vpid@ as int]@ == self@[vpid@ as int]);
        let vp = self.get_vp(vpid);
        if vp.is_allocated() {
            assert(self.m_pool =~= old(self).m_pool);
            return SafeU16::failure();
        }
        let ret = vp.allocate(gs, tls, sys, intrinsic, vmid);
        proof {
            assert(self@ =~= vp_pool_allocate(old(self)@, vpid@, vmid@));
            assert forall|i: int| 0 <= i < self@.len() implies (#[trigger] self@[i]).id == i
                && self@[i].wf() by {
                assert(old(self)@[i].wf());
            }
        }
        ret
    }

    /// Deallocates the record of the VP `vpid`.
    ///
    /// If the record is allocated, the host is asked to destroy the VP and
    /// the record is freed, whatever the host answers; the result says what
    /// the host answered. If the record is free already, nothing is asked
    /// of the host, nothing changes, and the result is success.
    pub fn deallocate<H: HostGateway>(
        &mut self,
        gs: &GsT,
        tls: &TlsT,
        sys: &mut BfSyscallT<H>,
        intrinsic: &IntrinsicT,
        vpid: SafeU16,
    ) -> (ret: ErrcType)
        requires
            old(self).wf(),
            vp_pool_is_tagged(old(self)@),
            is_id_in_range(vpid, HYPERVISOR_MAX_VPS),
        ensures
            final(self).wf(),
            vp_pool_is_tagged(final(self)@),
            final(self)@ == vp_pool_deallocate(old(self)@, vpid@),
            old(self)@[vpid@ as int].allocated == AllocatedStatusT::Allocated ==> {
                &&& final(sys).did(
                    *old(sys),
                    HostCall::VpDestroy { hndl: old(sys).hndl(), vpid: vpid@ },
                )
                &&& ret == spec_errc_of_status(final(sys).answer().status)
            },
            old(self)@[vpid@ as int].allocated == AllocatedStatusT::Deallocated ==> {
                &&& *final(sys) == *old(sys)
                &&& *final(self) == *old(self)
                &&& ret == ErrcType::Success
            },
    {
        assert(self.m_pool[vpid@ as int]@ == self@[vpid@ as int]);
        let vp = self.get_vp(vpid);
        if vp.is_allocated() {
            let ret = sys.bf_vp_op_destroy_vp(vpid);
            vp.deallocate(gs, tls, sys, intrinsic);
            proof {
                assert(self@ =~= vp_pool_deallocate(old(self)@, vpid@));
                assert forall|i: int| 0 <= i < self@.len() implies (#[trigger] self@[i]).id == i
                    && self@[i].wf() by {
                    assert(old(self)@[i].wf());
                }
            }
            ret
        } else {
            proof {
                assert(self.m_pool =~= old(self).m_pool);
                assert(old(self)@[vpid@ as int].wf());
                assert(self@ =~= vp_pool_deallocate(old(self)@, vpid@));
            }
            ErrcType::Success
        }
    }

    /// Returns true if the record of the VP `vpid` is allocated.
    pub fn is_allocated(&self, vpid: SafeU16) -> (ret: bool)
        requires
            vpid.is_valid_and_checked(),
            vpid@ < HYPERVISOR_MAX_VPS,
        ensures
            ret == (self@[vpid@ as int].allocated == AllocatedStatusT::Allocated),
    {
        self.get_vp_const(vpid).is_allocated()
    }

    /// Returns true if the record of the VP `vpid` is free.
    pub fn is_deallocated(&self, vpid: SafeU16) -> (ret: bool)
        requires
            vpid.is_valid_and_checked(),
            vpid@ < HYPERVISOR_MAX_VPS,
        ensures
            ret == (self@[vpid@ as int].allocated == AllocatedStatusT::Deallocated),
    {
        self.get_vp_const(vpid).is_deallocated()
    }

    /// Returns the ID of the VM that the VP `vpid` was made for, or
    /// `BF_INVALID_ID` if the record of the VP is free.
    pub fn assigned_vm(&self, vpid: SafeU16) -> (ret: SafeU16)
        requires
            self.wf(),
            vpid.is_valid_and_checked(),
            vpid@ < HYPERVISOR_MAX_VPS,
        ensures
            ret == SafeU16::spec_new(self@[vpid@ as int].assigned_vm),
            self@[vpid@ as int].allocated == AllocatedStatusT::Deallocated ==> ret@
                == BF_INVALID_ID,
    {
        self.get_vp_const(vpid).assigned_vm()
    }

    /// Returns the ID of the record at `vpid`: `vpid` itself once the pool
    /// is initialized, `BF_INVALID_ID` before.
    pub fn id(&self, vpid: SafeU16) -> (ret: SafeU16)
        requires
            self.wf(),
            vpid.is_valid_and_checked(),
            vpid@ < HYPERVISOR_MAX_VPS,
        ensures
            ret == SafeU16::spec_new(self@[vpid@ as int].id),
    {
        self.get_vp_const(vpid).id()
    }
}

/// Allocating a VP and deallocating it again leaves its record free, with
/// no owner and with the ID that it had; every other record is as it was.
/// If the record was free before, the whole pool is as it was.
pub proof fn lemma_vp_pool_allocate_deallocate(pool: Seq<VpView>, vpid: u16, vmid: u16)
    requires
        vpid < pool.len(),
    ensures
        vp_pool_deallocate(vp_pool_allocate(pool, vpid, vmid), vpid) == pool.update(
            vpid as int,
            VpView::free(pool[vpid as int].id),
        ),
        pool[vpid as int].wf() && pool[vpid as int].allocated == AllocatedStatusT::Deallocated
            ==> vp_pool_deallocate(vp_pool_allocate(pool, vpid, vmid), vpid) == pool,
{
    assert(vp_pool_deallocate(vp_pool_allocate(pool, vpid, vmid), vpid) =~= pool.update(
        vpid as int,
        VpView::free(pool[vpid as int].id),
    ));
    if pool[vpid as int].wf() && pool[vpid as int].allocated == AllocatedStatusT::Deallocated {
        assert(pool.update(vpid as int, VpView::free(pool[vpid as int].id)) =~= pool);
    }
}

/// Deallocating a VP that is free changes nothing in the pool.
pub proof fn lemma_vp_pool_deallocate_free(pool: Seq<VpView>, vpid: u16)
    requires
        vpid < pool.len(),
        pool[vpid as int].wf(),
        pool[vpid as int].allocated == AllocatedStatusT::Deallocated,
    ensures
        vp_pool_deallocate(pool, vpid) == pool,
{
    assert(vp_pool_deallocate(pool, vpid) =~= pool);
}

/// No sequence of allocations and deallocations changes the ID of a record:
/// the record at index `i` has the ID that it had at the start.
pub proof fn lemma_vp_pool_ids_never_change(pool: Seq<VpView>, ops: Seq<VpPoolOp>, i: int)
    requires
        0 <= i < pool.len(),
    ensures
        vp_pool_run(pool, ops).len() == pool.len(),
        vp_pool_run(pool, ops)[i].id == pool[i].id,
    decreases ops.len(),
{
    if ops.len() > 0 {
        lemma_vp_pool_ids_never_change(pool, ops.drop_last(), i);
    }
}

} // verus!
