//! The pool of virtual processor states.

use vstd::prelude::*;

use crate::allocated_status_t::AllocatedStatusT;
use crate::bf_reg_t::ArchT;
use crate::bf_syscall_t::{is_id_in_range, spec_errc_of_status, spec_id_of_reply, BfSyscallT};
use crate::config::{HYPERVISOR_MAX_PPS, HYPERVISOR_MAX_VPS, HYPERVISOR_MAX_VSS};
use crate::constants::BF_INVALID_ID;
use crate::errc_type::ErrcType;
use crate::gs_t::GsT;
use crate::host_gateway::{Exchange, HostCall, HostGateway};
use crate::intrinsic_t::IntrinsicT;
use crate::safe_integral::SafeU16;
use crate::tls_t::TlsT;
use crate::vs_t::{vs_allocated, VsT, VsView};

verus! {

/// A pool of VS records of which none has an ID yet.
pub open spec fn vs_pool_unused() -> Seq<VsView> {
    Seq::new(HYPERVISOR_MAX_VSS as nat, |i: int| VsView::unused())
}

/// A pool of free VS records, each with its index as its ID.
pub open spec fn vs_pool_free() -> Seq<VsView> {
    Seq::new(HYPERVISOR_MAX_VSS as nat, |i: int| VsView::free(i as u16))
}

/// True if every record of `pool` has its index as its ID and names its
/// owners if and only if it is allocated.
pub open spec fn vs_pool_is_tagged(pool: Seq<VsView>) -> bool {
    &&& pool.len() == HYPERVISOR_MAX_VSS
    &&& forall|i: int| 0 <= i < pool.len() ==> (#[trigger] pool[i]).id == i && pool[i].wf()
}

/// The pool after the VS `vsid` was allocated to the VP `vpid` on the PP
/// `ppid`.
pub open spec fn vs_pool_allocate(
    pool: Seq<VsView>,
    vsid: u16,
    vpid: u16,
    ppid: u16,
) -> Seq<VsView> {
    pool.update(vsid as int, pool[vsid as int].allocate(vpid, ppid))
}

/// The pool after the VS `vsid` was deallocated.
pub open spec fn vs_pool_deallocate(pool: Seq<VsView>, vsid: u16) -> Seq<VsView> {
    pool.update(vsid as int, pool[vsid as int].deallocate())
}

/// What `VsPoolT::allocate` does, as the exchanges `xs` with the host and
/// the pool before and after show it: the host was asked to create a VS for
/// the VP `vpid` on the PP `ppid`; if it named a usable VS whose record was
/// free, the rest of `xs` is the set-up of that VS, and the pool changed in
/// that one record, as `vs_allocated` says; if not, nothing else was asked,
/// the pool is as it was and `ret` is poisoned.
pub open spec fn vs_pool_allocated(
    before: Seq<VsView>,
    arch: ArchT,
    hndl: u64,
    msr_bitmap_phys: u64,
    vpid: u16,
    ppid: u16,
    xs: Seq<Exchange>,
    ret: SafeU16,
    after: Seq<VsView>,
) -> bool {
    let vsid = spec_id_of_reply(xs[0].reply, HYPERVISOR_MAX_VSS);
    &&& xs.len() >= 1
    &&& xs[0].call == HostCall::VsCreate { hndl, vpid, ppid }
    &&& if vsid.is_valid() && before[vsid@ as int].allocated == AllocatedStatusT::Deallocated {
        &&& vs_allocated(
            before[vsid@ as int],
            arch,
            hndl,
            msr_bitmap_phys,
            vpid,
            ppid,
            xs.skip(1),
            ret,
            after[vsid@ as int],
        )
        &&& after == before.update(vsid@ as int, after[vsid@ as int])
    } else {
        xs.len() == 1 && ret == SafeU16::spec_failure() && after == before
    }
}

/// One step in the life of a pool.
pub enum VsPoolOp {
    /// The VS `vsid` is allocated to the VP `vpid` on the PP `ppid`.
    Allocate { vsid: u16, vpid: u16, ppid: u16 },
    /// The VS `vsid` is deallocated.
    Deallocate { vsid: u16 },
}

/// The pool after one step. A step that names no record of the pool leaves
/// the pool as it is.
pub open spec fn vs_pool_step(pool: Seq<VsView>, op: VsPoolOp) -> Seq<VsView> {
    match op {
        VsPoolOp::Allocate { vsid, vpid, ppid } => if vsid < pool.len() {
            vs_pool_allocate(pool, vsid, vpid, ppid)
        } else {
            pool
        },
        VsPoolOp::Deallocate { vsid } => if vsid < pool.len() {
            vs_pool_deallocate(pool, vsid)
        } else {
            pool
        },
    }
}

/// The pool after the steps `ops`, first to last.
pub open spec fn vs_pool_run(pool: Seq<VsView>, ops: Seq<VsPoolOp>) -> Seq<VsView>
    decreases ops.len(),
{
    if ops.len() == 0 {
        pool
    } else {
        vs_pool_step(vs_pool_run(pool, ops.drop_last()), ops.last())
    }
}

/// The pool of VSs: one record for each VS that the host can hold, found by
/// the VS's ID.
pub struct VsPoolT {
    m_pool: [VsT; HYPERVISOR_MAX_VSS],
}

impl View for VsPoolT {
    type V = Seq<VsView>;

    closed spec fn view(&self) -> Seq<VsView> {
        Seq::new(HYPERVISOR_MAX_VSS as nat, |i: int| self.m_pool[i]@)
    }
}

impl VsPoolT {
    /// Every record of the pool is well formed.
    pub closed spec fn wf(&self) -> bool {
        forall|i: int| 0 <= i < HYPERVISOR_MAX_VSS ==> (#[trigger] self.m_pool[i]).wf()
    }

    /// Two pools that say the same are the same.
    pub proof fn lemma_view_is_all(a: VsPoolT, b: VsPoolT)
        requires
            a.wf(),
            b.wf(),
            a@ == b@,
        ensures
            a == b,
    {
        assert forall|i: int| 0 <= i < HYPERVISOR_MAX_VSS implies a.m_pool[i] == b.m_pool[i] by {
            assert(a@[i] == a.m_pool[i]@);
            assert(b@[i] == b.m_pool[i]@);
            VsT::lemma_view_is_all(a.m_pool[i], b.m_pool[i]);
        }
        assert(a.m_pool =~= b.m_pool);
    }

    /// Returns the record of the VS `vsid`, to change it.
    fn get_vs(&mut self, vsid: SafeU16) -> (vs: &mut VsT)
        requires
            vsid.is_valid_and_checked(),
            vsid@ < HYPERVISOR_MAX_VSS,
        ensures
            *vs == old(self).m_pool[vsid@ as int],
            final(self).m_pool@ == old(self).m_pool@.update(vsid@ as int, *final(vs)),
    {
        &mut self.m_pool[vsid.get() as usize]
    }

    /// Returns the record of the VS `vsid`, to read it.
    fn get_vs_const(&self, vsid: SafeU16) -> (vs: &VsT)
        requires
            vsid.is_valid_and_checked(),
            vsid@ < HYPERVISOR_MAX_VSS,
        ensures
            *vs == self.m_pool[vsid@ as int],
    {
        &self.m_pool[vsid.get() as usize]
    }

    /// Makes a pool of unused records, which is what all-zero memory holds.
    pub fn new() -> (ret: Self)
        ensures
            ret.wf(),
            ret@ == vs_pool_unused(),
    {
        let ret = VsPoolT { m_pool: [VsT::new(); HYPERVISOR_MAX_VSS] };
        assert(ret@ =~= vs_pool_unused());
        ret
    }

    /// Gives every record of an unused pool its index as its ID.
    pub fn initialize<H: HostGateway>(
        &mut self,
        gs: &GsT,
        tls: &TlsT,
        sys: &BfSyscallT<H>,
        intrinsic: &IntrinsicT,
    )
        requires
            old(self).wf(),
            old(self)@ == vs_pool_unused(),
        ensures
            final(self).wf(),
            final(self)@ == vs_pool_free(),
            vs_pool_is_tagged(final(self)@),
    {
        assert forall|j: int| 0 <= j < HYPERVISOR_MAX_VSS implies (#[trigger] self.m_pool[j])@
            == VsView::unused() by {
            assert(self@[j] == self.m_pool[j]@);
        }
        let mut i: usize = 0;
        while i < HYPERVISOR_MAX_VSS
            invariant
                i <= HYPERVISOR_MAX_VSS,
                self.wf(),
                forall|j: int|
                    0 <= j < i ==> (#[trigger] self.m_pool[j])@ == VsView::free(j as u16),
                forall|j: int|
                    i <= j < HYPERVISOR_MAX_VSS ==> (#[trigger] self.m_pool[j])@
                        == VsView::unused(),
            decreases HYPERVISOR_MAX_VSS - i,
        {
            let mut vs = self.m_pool[i];
            vs.initialize(gs, tls, sys, intrinsic, SafeU16::new(i as u16));
            self.m_pool[i] = vs;
            i = i + 1;
        }
        assert(self@ =~= vs_pool_free());
    }

    /// Frees every record and takes its ID away. Nothing is asked of the
    /// host: VSs that the host still holds stay with the host.
    pub fn release<H: HostGateway>(
        &mut self,
        gs: &GsT,
        tls: &TlsT,
        sys: &BfSyscallT<H>,
        intrinsic: &IntrinsicT,
    )
        requires
            old(self).wf(),
        ensures
            final(self).wf(),
            final(self)@ == vs_pool_unused(),
    {
        let mut i: usize = 0;
        while i < HYPERVISOR_MAX_VSS
            invariant
                i <= HYPERVISOR_MAX_VSS,
                self.wf(),
                forall|j: int| 0 <= j < i ==> (#[trigger] self.m_pool[j])@ == VsView::unused(),
            decreases HYPERVISOR_MAX_VSS - i,
        {
            let mut vs = self.m_pool[i];
            vs.release(gs, tls, sys, intrinsic);
            self.m_pool[i] = vs;
            i = i + 1;
        }
        assert(self@ =~= vs_pool_unused());
    }

    /// Asks the host to create a VS for the VP `vpid` on the PP `ppid`, sets
    /// up the VS that the host names and allocates its record.
    ///
    /// Returns the ID of the VS. Returns a poisoned value, and leaves the
    /// pool as it was, if the host refuses, if it names a VS that cannot
    /// be, if it names one whose record is in use, or if it refuses a step
    /// of the set-up.
    pub fn allocate<H: HostGateway>(
        &mut self,
        gs: &GsT,
        tls: &TlsT,
        sys: &mut BfSyscallT<H>,
        intrinsic: &IntrinsicT,
        vpid: SafeU16,
        ppid: SafeU16,
    ) -> (ret: SafeU16)
        requires
            old(self).wf(),
            vs_pool_is_tagged(old(self)@),
            is_id_in_range(vpid, HYPERVISOR_MAX_VPS),
            is_id_in_range(ppid, HYPERVISOR_MAX_PPS),
            gs.wf(),
        ensures
            final(self).wf(),
            vs_pool_is_tagged(final(self)@),
            final(sys).continues(*old(sys)),
            final(sys).same_session(*old(sys)),
            vs_pool_allocated(
                old(self)@,
                old(sys).spec_arch(),
                old(sys).hndl(),
                gs.msr_bitmap_phys@,
                vpid@,
                ppid@,
                final(sys).since(*old(sys)),
                ret,
                final(self)@,
            ),
            ret.is_invalid() ==> *final(self) == *old(self),
            ret.is_valid() ==> ret.is_valid_and_checked() && ret@ < HYPERVISOR_MAX_VSS,
    {
        let vsid = sys.bf_vs_op_create_vs(vpid, ppid);
        let ghost created = *sys;
        proof {
            BfSyscallT::lemma_since_one(
                created,
                *old(sys),
                HostCall::VsCreate { hndl: old(sys).hndl(), vpid: vpid@, ppid: ppid@ },
            );
        }
        if vsid.is_invalid() {
            return SafeU16::failure();
        }
        assert(self.m_pool[vsid@ as int]@ == self@[vsid@ as int]);
        let vs = self.get_vs(vsid);
        if vs.is_allocated() {
            assert(self.m_pool =~= old(self).m_pool);
            return SafeU16::failure();
        }
        let ret = vs.allocate(gs, tls, sys, intrinsic, vpid, ppid);
        proof {
            BfSyscallT::lemma_since_chain(*sys, created, *old(sys));
            let xs = sys.since(*old(sys));
            assert(xs.skip(1) =~= sys.since(created));
            assert(xs[0] == created.since(*old(sys))[0]);
            assert(self@[vsid@ as int] == self.m_pool[vsid@ as int]@);
            assert(self@ =~= old(self)@.update(vsid@ as int, self@[vsid@ as int]));
            assert forall|i: int| 0 <= i < self@.len() implies (#[trigger] self@[i]).id == i
                && self@[i].wf() by {
                assert(old(self)@[i].wf());
            }
            if ret.is_invalid() {
                assert(self.m_pool =~= old(self).m_pool);
            }
        }
        ret
    }

    /// Deallocates the record of the VS `vsid`.
    ///
    /// If the record is allocated, the host is asked to destroy the VS and
    /// the record is freed, whatever the host answers; the result says what
    /// the host answered. If the record is free already, nothing is asked
    /// of the host, nothing changes, and the result is success.
    pub fn deallocate<H: HostGateway>(
        &mut self,
        gs: &GsT,
        tls: &TlsT,
        sys: &mut BfSyscallT<H>,
        intrinsic: &IntrinsicT,
        vsid: SafeU16,
    ) -> (ret: ErrcType)
        requires
            old(self).wf(),
            vs_pool_is_tagged(old(self)@),
            is_id_in_range(vsid, HYPERVISOR_MAX_VSS),
        ensures
            final(self).wf(),
            vs_pool_is_tagged(final(self)@),
            final(self)@ == vs_pool_deallocate(old(self)@, vsid@),
            old(self)@[vsid@ as int].allocated == AllocatedStatusT::Allocated ==> {
                &&& final(sys).did(
                    *old(sys),
                    HostCall::VsDestroy { hndl: old(sys).hndl(), vsid: vsid@ },
                )
                &&& ret == spec_errc_of_status(final(sys).answer().status)
            },
            old(self)@[vsid@ as int].allocated == AllocatedStatusT::Deallocated ==> {
                &&& *final(sys) == *old(sys)
                &&& *final(self) == *old(self)
                &&& ret == ErrcType::Success
            },
    {
        assert(self.m_pool[vsid@ as int]@ == self@[vsid@ as int]);
        let vs = self.get_vs(vsid);
        if vs.is_allocated() {
            let ret = sys.bf_vs_op_destroy_vs(vsid);
            vs.deallocate(gs, tls, sys, intrinsic);
            proof {
                assert(self@ =~= vs_pool_deallocate(old(self)@, vsid@));
                assert forall|i: int| 0 <= i < self@.len() implies (#[trigger] self@[i]).id == i
                    && self@[i].wf() by {
                    assert(old(self)@[i].wf());
                }
            }
            ret
        } else {
            proof {
                assert(self.m_pool =~= old(self).m_pool);
                assert(old(self)@[vsid@ as int].wf());
                assert(self@ =~= vs_pool_deallocate(old(self)@, vsid@));
            }
            ErrcType::Success
        }
    }

    /// Returns true if the record of the VS `vsid` is allocated.
    pub fn is_allocated(&self, vsid: SafeU16) -> (ret: bool)
        requires
            vsid.is_valid_and_checked(),
            vsid@ < HYPERVISOR_MAX_VSS,
        ensures
            ret == (self@[vsid@ as int].allocated == AllocatedStatusT::Allocated),
    {
        self.get_vs_const(vsid).is_allocated()
    }

    /// Returns true if the record of the VS `vsid` is free.
    pub fn is_deallocated(&self, vsid: SafeU16) -> (ret: bool)
        requires
            vsid.is_valid_and_checked(),
            vsid@ < HYPERVISOR_MAX_VSS,
        ensures
            ret == (self@[vsid@ as int].allocated == AllocatedStatusT::Deallocated),
    {
        self.get_vs_const(vsid).is_deallocated()
    }

    /// Returns the ID of the VP that the VS `vsid` was made for, or
    /// `BF_INVALID_ID` if the record of the VS is free.
    pub fn assigned_vp(&self, vsid: SafeU16) -> (ret: SafeU16)
        requires
            self.wf(),
            vsid.is_valid_and_checked(),
            vsid@ < HYPERVISOR_MAX_VSS,
        ensures
            ret == SafeU16::spec_new(self@[vsid@ as int].assigned_vp),
            self@[vsid@ as int].allocated == AllocatedStatusT::Deallocated ==> ret@
                == BF_INVALID_ID,
    {
        self.get_vs_const(vsid).assigned_vp()
    }

    /// Returns the ID of the PP that the VS `vsid` runs on, or
    /// `BF_INVALID_ID` if the record of the VS is free.
    pub fn assigned_pp(&self, vsid: SafeU16) -> (ret: SafeU16)
        requires
            self.wf(),
            vsid.is_valid_and_checked(),
            vsid@ < HYPERVISOR_MAX_VSS,
        ensures
            ret == SafeU16::spec_new(self@[vsid@ as int].assigned_pp),
            self@[vsid@ as int].allocated == AllocatedStatusT::Deallocated ==> ret@
                == BF_INVALID_ID,
    {
        self.get_vs_const(vsid).assigned_pp()
    }

    /// Returns the ID of the record at `vsid`: `vsid` itself once the pool
    /// is initialized, `BF_INVALID_ID` before.
    pub fn id(&self, vsid: SafeU16) -> (ret: SafeU16)
        requires
            self.wf(),
            vsid.is_valid_and_checked(),
            vsid@ < HYPERVISOR_MAX_VSS,
        ensures
            ret == SafeU16::spec_new(self@[vsid@ as int].id),
    {
        self.get_vs_const(vsid).id()
    }
}

/// Allocating a VS and deallocating it again leaves its record free, with
/// no owners and with the ID that it had; every other record is as it was.
/// If the record was free before, the whole pool is as it was.
pub proof fn lemma_vs_pool_allocate_deallocate(pool: Seq<VsView>, vsid: u16, vpid: u16, ppid: u16)
    requires
        vsid < pool.len(),
    ensures
        vs_pool_deallocate(vs_pool_allocate(pool, vsid, vpid, ppid), vsid) == pool.update(
            vsid as int,
            VsView::free(pool[vsid as int].id),
        ),
        pool[vsid as int].wf() && pool[vsid as int].allocated == AllocatedStatusT::Deallocated
            ==> vs_pool_deallocate(vs_pool_allocate(pool, vsid, vpid, ppid), vsid) == pool,
{
    assert(vs_pool_deallocate(vs_pool_allocate(pool, vsid, vpid, ppid), vsid) =~= pool.update(
        vsid as int,
        VsView::free(pool[vsid as int].id),
    ));
    if pool[vsid as int].wf() && pool[vsid as int].allocated == AllocatedStatusT::Deallocated {
        assert(pool.update(vsid as int, VsView::free(pool[vsid as int].id)) =~= pool);
    }
}

/// Deallocating a VS that is free changes nothing in the pool.
pub proof fn lemma_vs_pool_deallocate_free(pool: Seq<VsView>, vsid: u16)
    requires
        vsid < pool.len(),
        pool[vsid as int].wf(),
        pool[vsid as int].allocated == AllocatedStatusT::Deallocated,
    ensures
        vs_pool_deallocate(pool, vsid) == pool,
{
    assert(vs_pool_deallocate(pool, vsid) =~= pool);
}

/// No sequence of allocations and deallocations changes the ID of a record:
/// the record at index `i` has the ID that it had at the start.
pub proof fn lemma_vs_pool_ids_never_change(pool: Seq<VsView>, ops: Seq<VsPoolOp>, i: int)
    requires
        0 <= i < pool.len(),
    ensures
        vs_pool_run(pool, ops).len() == pool.len(),
        vs_pool_run(pool, ops)[i].id == pool[i].id,
    decreases ops.len(),
{
    if ops.len() > 0 {
        lemma_vs_pool_ids_never_change(pool, ops.drop_last(), i);
    }
}

} // verus!
