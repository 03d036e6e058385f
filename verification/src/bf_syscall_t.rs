//! The syscall gateway.
//!
//! `BfSyscallT` is the only path from the extension to its host. It owns the
//! session handle, checks what it is given before it asks the host for
//! anything, and turns each status code into a typed result. Every exchange
//! with the host is entered in a journal that the contracts of this crate
//! speak of: what was asked, in which order, and what came back.

use vstd::prelude::*;

use crate::bf_reg_t::{bf_reg_t_is_valid, ArchT};
use crate::config::{
    HYPERVISOR_EXT_DIRECT_MAP_SIZE, HYPERVISOR_MAX_PPS, HYPERVISOR_MAX_VMS, HYPERVISOR_MAX_VPS,
    HYPERVISOR_MAX_VSS, HYPERVISOR_PAGE_SIZE,
};
use crate::constants::{
    bf_is_spec1_supported, BF_INVALID_HANDLE, BF_INVALID_ID, BF_ROOT_VMID,
    BF_SPEC_ID1_VAL, BF_STATUS_SUCCESS, TLS_OFFSET_ACTIVE_EXTID, TLS_OFFSET_ACTIVE_PPID,
    TLS_OFFSET_ACTIVE_VMID, TLS_OFFSET_ACTIVE_VPID, TLS_OFFSET_ACTIVE_VSID, TLS_OFFSET_ONLINE_PPS,
    TLS_OFFSET_R10, TLS_OFFSET_R11, TLS_OFFSET_R12, TLS_OFFSET_R13, TLS_OFFSET_R14, TLS_OFFSET_R15,
    TLS_OFFSET_R8, TLS_OFFSET_R9, TLS_OFFSET_RAX, TLS_OFFSET_RBP, TLS_OFFSET_RBX, TLS_OFFSET_RCX,
    TLS_OFFSET_RDI, TLS_OFFSET_RDX, TLS_OFFSET_RSI,
};
use crate::errc_type::ErrcType;
use crate::host_gateway::{completes, follows, Exchange, HostCall, HostGateway, HostReply};
use crate::safe_integral::{low_u16, SafeU16, SafeU32, SafeU64};

verus! {

/// The gateway to a host of type `H`.
pub struct BfSyscallT<H: HostGateway> {
    m_hndl: u64,
    m_arch: ArchT,
    m_host: H,
    m_journal: Ghost<Seq<Exchange>>,
}

/// What a status code means to the caller of a syscall.
pub open spec fn spec_errc_of_status(status: u64) -> ErrcType {
    if status == BF_STATUS_SUCCESS {
        ErrcType::Success
    } else {
        ErrcType::Failure
    }
}

/// Maps the status code of a syscall to its outcome: success for the one success
/// code, failure for every other.
#[verifier::when_used_as_spec(spec_errc_of_status)]
pub fn errc_of_status(status: u64) -> (ret: ErrcType)
    ensures
        ret == spec_errc_of_status(status),
{
    if status == BF_STATUS_SUCCESS {
        ErrcType::Success
    } else {
        ErrcType::Failure
    }
}

/// The ID that a create call yields, given the host's reply and the
/// capacity `max` of the kind: the low 16 bits of output register 0 if the
/// status is success and that ID is neither the invalid sentinel nor out of
/// range, a poisoned value otherwise.
pub open spec fn spec_id_of_reply(reply: HostReply, max: usize) -> SafeU16 {
    if reply.status != BF_STATUS_SUCCESS {
        SafeU16::spec_failure()
    } else if low_u16(reply.out0) == BF_INVALID_ID {
        SafeU16::spec_failure()
    } else if low_u16(reply.out0) >= max {
        SafeU16::spec_failure()
    } else {
        SafeU16::spec_new(low_u16(reply.out0))
    }
}

/// Extracts the ID of a newly created object from the host's reply.
#[verifier::when_used_as_spec(spec_id_of_reply)]
pub fn id_of_reply(reply: HostReply, max: usize) -> (ret: SafeU16)
    ensures
        ret == spec_id_of_reply(reply, max),
{
    if reply.status != BF_STATUS_SUCCESS {
        return SafeU16::failure();
    }
    let id: u16 = u16_of_reply(reply);
    if id == BF_INVALID_ID {
        return SafeU16::failure();
    }
    if id as usize >= max {
        return SafeU16::failure();
    }
    SafeU16::new(id)
}

/// Returns the low 16 bits of output register 0, which is where the host
/// leaves a 16-bit result.
pub fn u16_of_reply(reply: HostReply) -> (ret: u16)
    ensures
        ret == low_u16(reply.out0),
{
    let v: u64 = reply.out0;
    assert(v & 0xFFFF == v % 0x1_0000) by (bit_vector);
    (v & 0xFFFF) as u16
}

/// The value that a read yields, given the host's reply: output register 0
/// if the status is success, a poisoned value otherwise.
pub open spec fn spec_value_of_reply(reply: HostReply) -> SafeU64 {
    if reply.status != BF_STATUS_SUCCESS {
        SafeU64::spec_failure()
    } else {
        SafeU64::spec_new(reply.out0)
    }
}

/// Extracts the value that was read from the host's reply.
#[verifier::when_used_as_spec(spec_value_of_reply)]
pub fn value_of_reply(reply: HostReply) -> (ret: SafeU64)
    ensures
        ret == spec_value_of_reply(reply),
{
    if reply.status != BF_STATUS_SUCCESS {
        SafeU64::failure()
    } else {
        SafeU64::new(reply.out0)
    }
}

/// The address that a mapping or an allocation yields, given the host's
/// reply: output register 0 if the status is success, the null address
/// otherwise.
pub open spec fn spec_addr_of_reply(reply: HostReply) -> u64 {
    if reply.status != BF_STATUS_SUCCESS {
        0
    } else {
        reply.out0
    }
}

/// Extracts the address of mapped or allocated memory from the host's reply.
#[verifier::when_used_as_spec(spec_addr_of_reply)]
pub fn addr_of_reply(reply: HostReply) -> (ret: u64)
    ensures
        ret == spec_addr_of_reply(reply),
{
    if reply.status != BF_STATUS_SUCCESS {
        0
    } else {
        reply.out0
    }
}

/// An ID that may be handed to the host: valid, checked, not the invalid
/// sentinel, and below the capacity `max` of its kind.
pub open spec fn is_id_in_range(id: SafeU16, max: usize) -> bool {
    &&& id.is_valid_and_checked()
    &&& id@ != BF_INVALID_ID
    &&& id@ < max
}

/// The four calls that make a session, for the handle `hndl` that the host
/// gave out with the first of them.
pub open spec fn initialize_plan(
    hndl: u64,
    bootstrap_handler: u64,
    vmexit_handler: u64,
    fail_handler: u64,
) -> Seq<HostCall> {
    seq![
        HostCall::HandleOpen { version: BF_SPEC_ID1_VAL },
        HostCall::CallbackRegisterBootstrap { hndl, handler: bootstrap_handler },
        HostCall::CallbackRegisterVmexit { hndl, handler: vmexit_handler },
        HostCall::CallbackRegisterFail { hndl, handler: fail_handler },
    ]
}

/// What the journal shows of an `initialize` that gave up, for the calls
/// `plan` that it set out to make: either the session could not be opened
/// and nothing else was asked, or a registration failed and the last thing
/// asked was to close the session again.
pub open spec fn initialize_gave_up(xs: Seq<Exchange>, plan: Seq<HostCall>) -> bool {
    if xs.len() <= 1 {
        follows(xs, plan) && xs.len() == 1 && !xs[0].ok()
    } else {
        &&& xs.len() >= 3
        &&& follows(xs.drop_last(), plan)
        &&& !xs.drop_last().last().ok()
        &&& xs.last().call == HostCall::HandleClose { hndl: xs[0].reply.out0 }
    }
}

/// What `initialize` does, as the exchanges `xs` with the host show it.
///
/// For a `version` without version 1 of the ABI nothing is asked, the result
/// is `Unsupported` and the handle stays what it was. Otherwise the calls of
/// `initialize_plan` are made up to the first that fails. If none fails the
/// result is success and the gateway holds the handle that the host gave
/// out. If one fails the result is failure, the gateway holds no handle, and
/// a session that was opened has been closed again.
pub open spec fn initialize_ran(
    version: u32,
    bootstrap_handler: u64,
    vmexit_handler: u64,
    fail_handler: u64,
    hndl_before: u64,
    xs: Seq<Exchange>,
    ret: ErrcType,
    hndl_after: u64,
) -> bool {
    let plan = initialize_plan(xs[0].reply.out0, bootstrap_handler, vmexit_handler, fail_handler);
    if !bf_is_spec1_supported(version) {
        &&& ret == ErrcType::Unsupported
        &&& xs.len() == 0
        &&& hndl_after == hndl_before
    } else if xs.len() > 0 && completes(xs, plan) {
        &&& ret == ErrcType::Success
        &&& hndl_after == xs[0].reply.out0
    } else {
        &&& ret == ErrcType::Failure
        &&& hndl_after == BF_INVALID_HANDLE
        &&& initialize_gave_up(xs, plan)
    }
}

/// An `initialize` that fails leaves no session behind: the gateway holds
/// no handle, and if the host had opened a session, the last thing that it
/// was asked was to close that session.
pub proof fn lemma_initialize_failure_releases_the_handle(
    version: u32,
    bootstrap_handler: u64,
    vmexit_handler: u64,
    fail_handler: u64,
    hndl_before: u64,
    xs: Seq<Exchange>,
    hndl_after: u64,
)
    requires
        initialize_ran(
            version,
            bootstrap_handler,
            vmexit_handler,
            fail_handler,
            hndl_before,
            xs,
            ErrcType::Failure,
            hndl_after,
        ),
    ensures
        hndl_after == BF_INVALID_HANDLE,
        xs.len() >= 1,
        xs[0].call == (HostCall::HandleOpen { version: BF_SPEC_ID1_VAL }),
        xs[0].ok() ==> xs.len() >= 3 && xs.last().call == (HostCall::HandleClose {
            hndl: xs[0].reply.out0,
        }),
        !xs[0].ok() ==> xs.len() == 1,
{
    if xs.len() > 1 {
        assert(xs.drop_last()[0] == xs[0]);
    }
}

/// An `initialize` that succeeds has made the four calls of its plan, all
/// of which went through, and holds the handle that the host gave out.
pub proof fn lemma_initialize_success_needs_all_four(
    version: u32,
    bootstrap_handler: u64,
    vmexit_handler: u64,
    fail_handler: u64,
    hndl_before: u64,
    xs: Seq<Exchange>,
    hndl_after: u64,
)
    requires
        initialize_ran(
            version,
            bootstrap_handler,
            vmexit_handler,
            fail_handler,
            hndl_before,
            xs,
            ErrcType::Success,
            hndl_after,
        ),
    ensures
        xs.len() == 4,
        forall|i: int| 0 <= i < 4 ==> (#[trigger] xs[i]).ok(),
        hndl_after == xs[0].reply.out0,
        xs[0].call == (HostCall::HandleOpen { version: BF_SPEC_ID1_VAL }),
        xs[1].call == (HostCall::CallbackRegisterBootstrap {
            hndl: hndl_after,
            handler: bootstrap_handler,
        }),
        xs[2].call == (HostCall::CallbackRegisterVmexit {
            hndl: hndl_after,
            handler: vmexit_handler,
        }),
        xs[3].call == (HostCall::CallbackRegisterFail { hndl: hndl_after, handler: fail_handler }),
{
}

impl<H: HostGateway> BfSyscallT<H> {
    /// Every exchange with the host so far, oldest first.
    pub closed spec fn journal(&self) -> Seq<Exchange> {
        self.m_journal@
    }

    /// The session handle; `BF_INVALID_HANDLE` while no session is open.
    pub closed spec fn hndl(&self) -> u64 {
        self.m_hndl
    }

    /// The architecture that the gateway was made for.
    pub closed spec fn spec_arch(&self) -> ArchT {
        self.m_arch
    }

    /// The host behind the gateway.
    pub closed spec fn spec_host(&self) -> H {
        self.m_host
    }

    /// The reply of the most recent exchange.
    pub open spec fn answer(&self) -> HostReply {
        self.journal().last().reply
    }

    /// True if `self` is `before` with nothing changed but the journal and
    /// the host behind it.
    pub open spec fn same_session(&self, before: Self) -> bool {
        self.hndl() == before.hndl() && self.spec_arch() == before.spec_arch()
    }

    /// True if `self` is `before` after exactly one exchange, which was the
    /// call `call`.
    pub open spec fn did(&self, before: Self, call: HostCall) -> bool {
        &&& self.same_session(before)
        &&& self.journal() == before.journal().push(Exchange { call, reply: self.answer() })
    }

    /// True if `self` is `before` after some exchanges, or none.
    pub open spec fn continues(&self, before: Self) -> bool {
        &&& self.spec_arch() == before.spec_arch()
        &&& before.journal().len() <= self.journal().len()
        &&& self.journal().take(before.journal().len() as int) == before.journal()
    }

    /// The exchanges that `self` has made and `before` had not.
    pub open spec fn since(&self, before: Self) -> Seq<Exchange> {
        self.journal().skip(before.journal().len() as int)
    }

    /// After exactly one exchange, that exchange is all that was made since.
    pub proof fn lemma_since_one(now: Self, before: Self, call: HostCall)
        requires
            now.did(before, call),
        ensures
            now.continues(before),
            now.since(before) == seq![Exchange { call, reply: now.answer() }],
            now.since(before) == seq![now.journal().last()],
    {
        assert(now.journal().take(before.journal().len() as int) =~= before.journal());
        assert(now.since(before) =~= seq![Exchange { call, reply: now.answer() }]);
    }

    /// After no exchange, nothing was made since.
    pub proof fn lemma_since_none(now: Self, before: Self)
        requires
            now.journal() == before.journal(),
            now.spec_arch() == before.spec_arch(),
        ensures
            now.continues(before),
            now.since(before) == Seq::<Exchange>::empty(),
    {
        assert(now.journal().take(before.journal().len() as int) =~= before.journal());
        assert(now.since(before) =~= Seq::<Exchange>::empty());
    }

    /// What was made since the start is what was made up to some point in
    /// between, followed by what was made after it.
    pub proof fn lemma_since_chain(now: Self, between: Self, before: Self)
        requires
            between.continues(before),
            now.continues(between),
        ensures
            now.continues(before),
            now.since(before) == between.since(before) + now.since(between),
    {
        let a = before.journal();
        let b = between.journal();
        let c = now.journal();
        assert(c.take(a.len() as int) =~= b.take(a.len() as int)) by {
            assert(c.take(b.len() as int).take(a.len() as int) =~= c.take(a.len() as int));
        }
        assert(c.skip(a.len() as int) =~= b.skip(a.len() as int) + c.skip(b.len() as int)) by {
            assert forall|i: int| 0 <= i < b.len() - a.len() implies c.skip(a.len() as int)[i]
                == b.skip(a.len() as int)[i] by {
                assert(c.take(b.len() as int)[i + a.len()] == c[i + a.len()]);
            }
        }
    }

    /// One more exchange adds that exchange to what was made since the
    /// start.
    pub proof fn lemma_since_step(now: Self, between: Self, before: Self, call: HostCall)
        requires
            between.continues(before),
            now.did(between, call),
        ensures
            now.continues(before),
            now.since(before) == between.since(before).push(now.journal().last()),
            now.journal().last() == (Exchange { call, reply: now.answer() }),
    {
        Self::lemma_since_one(now, between, call);
        Self::lemma_since_chain(now, between, before);
    }

    /// Makes a gateway to `host` for the architecture `arch`. No session is
    /// open and nothing has been asked of the host.
    pub fn new(host: H, arch: ArchT) -> (ret: Self)
        ensures
            ret.hndl() == BF_INVALID_HANDLE,
            ret.spec_arch() == arch,
            ret.spec_host() == host,
            ret.journal() == Seq::<Exchange>::empty(),
    {
        BfSyscallT {
            m_hndl: BF_INVALID_HANDLE,
            m_arch: arch,
            m_host: host,
            m_journal: Ghost(Seq::empty()),
        }
    }

    /// Returns the architecture that the gateway was made for.
    #[verifier::when_used_as_spec(spec_arch)]
    pub fn arch(&self) -> (ret: ArchT)
        ensures
            ret == self.spec_arch(),
    {
        self.m_arch
    }

    /// Returns the host behind the gateway, for a look at it.
    pub fn host(&self) -> (ret: &H)
        ensures
            *ret == self.spec_host(),
    {
        &self.m_host
    }

    /// Hands `call` to the host, enters the exchange in the journal and
    /// returns the reply.
    fn exchange(&mut self, call: HostCall) -> (reply: HostReply)
        ensures
            final(self).did(*old(self), call),
            final(self).answer() == reply,
    {
        let reply = self.m_host.invoke(call);
        proof {
            self.m_journal = Ghost(self.m_journal@.push(Exchange { call, reply }));
        }
        reply
    }

    /// Returns the handle that is used for syscalls: the one that the host
    /// gave out, or `BF_INVALID_HANDLE` while no session is open.
    pub fn handle(&self) -> (ret: SafeU64)
        ensures
            ret == SafeU64::spec_new(self.hndl()),
    {
        SafeU64::new(self.m_hndl)
    }

    /// Closes the session and forgets its handle. It may be called at any
    /// time and any number of times: the host is asked to close whatever
    /// handle the gateway holds.
    pub fn release(&mut self)
        ensures
            final(self).spec_arch() == old(self).spec_arch(),
            final(self).hndl() == BF_INVALID_HANDLE,
            final(self).journal() == old(self).journal().push(
                Exchange {
                    call: HostCall::HandleClose { hndl: old(self).hndl() },
                    reply: final(self).answer(),
                },
            ),
    {
        let _ = self.exchange(HostCall::HandleClose { hndl: self.m_hndl });
        self.m_hndl = BF_INVALID_HANDLE;
    }

    /// Opens a session with the host and registers the three entry points
    /// that the host calls back.
    ///
    /// A `version` that does not offer version 1 of the ABI is turned down
    /// before anything is asked of the host. Otherwise the session is opened
    /// and the bootstrap, VM-exit and fast-fail handlers are registered, in
    /// that order, and the gateway keeps the handle. Where a registration
    /// fails the session is closed again: the result is success only if all
    /// four calls went through, and after any other result the gateway holds
    /// no handle.
    pub fn initialize(
        &mut self,
        version: SafeU32,
        bootstrap_handler: u64,
        vmexit_handler: u64,
        fail_handler: u64,
    ) -> (ret: ErrcType)
        requires
            version.is_valid_and_checked(),
            bootstrap_handler != 0,
            vmexit_handler != 0,
            fail_handler != 0,
        ensures
            final(self).continues(*old(self)),
            !bf_is_spec1_supported(version@) ==> *final(self) == *old(self),
            initialize_ran(
                version@,
                bootstrap_handler,
                vmexit_handler,
                fail_handler,
                old(self).hndl(),
                final(self).since(*old(self)),
                ret,
                final(self).hndl(),
            ),
    {
        let ghost before = self.m_journal@;
        if !bf_is_spec1_supported(version.get()) {
            proof {
                assert(self.m_journal@.skip(before.len() as int) =~= Seq::<Exchange>::empty());
                assert(self.m_journal@.take(before.len() as int) =~= before);
            }
            return ErrcType::Unsupported;
        }
        let opened = self.exchange(HostCall::HandleOpen { version: BF_SPEC_ID1_VAL });
        let ghost hndl = opened.out0;
        let ghost plan = initialize_plan(hndl, bootstrap_handler, vmexit_handler, fail_handler);
        let ghost x0 = Exchange { call: plan[0], reply: opened };
        if opened.status != BF_STATUS_SUCCESS {
            self.m_hndl = BF_INVALID_HANDLE;
            proof {
                assert(self.m_journal@.take(before.len() as int) =~= before);
                assert(self.m_journal@.skip(before.len() as int) =~= seq![x0]);
            }
            return ErrcType::Failure;
        }
        self.m_hndl = opened.out0;

        let reply = self.exchange(
            HostCall::CallbackRegisterBootstrap { hndl: self.m_hndl, handler: bootstrap_handler },
        );
        let ghost x1 = Exchange { call: plan[1], reply };
        if reply.status != BF_STATUS_SUCCESS {
            self.release();
            proof {
                let x = self.m_journal@.last();
                assert(self.m_journal@.take(before.len() as int) =~= before);
                assert(self.m_journal@.skip(before.len() as int) =~= seq![x0, x1, x]);
                assert(seq![x0, x1, x].drop_last() =~= seq![x0, x1]);
            }
            return ErrcType::Failure;
        }
        let reply = self.exchange(
            HostCall::CallbackRegisterVmexit { hndl: self.m_hndl, handler: vmexit_handler },
        );
        let ghost x2 = Exchange { call: plan[2], reply };
        if reply.status != BF_STATUS_SUCCESS {
            self.release();
            proof {
                let x = self.m_journal@.last();
                assert(self.m_journal@.take(before.len() as int) =~= before);
                assert(self.m_journal@.skip(before.len() as int) =~= seq![x0, x1, x2, x]);
                assert(seq![x0, x1, x2, x].drop_last() =~= seq![x0, x1, x2]);
            }
            return ErrcType::Failure;
        }
        let reply = self.exchange(
            HostCall::CallbackRegisterFail { hndl: self.m_hndl, handler: fail_handler },
        );
        let ghost x3 = Exchange { call: plan[3], reply };
        if reply.status != BF_STATUS_SUCCESS {
            self.release();
            proof {
                let x = self.m_journal@.last();
                assert(self.m_journal@.take(before.len() as int) =~= before);
                assert(self.m_journal@.skip(before.len() as int) =~= seq![x0, x1, x2, x3, x]);
                assert(seq![x0, x1, x2, x3, x].drop_last() =~= seq![x0, x1, x2, x3]);
            }
            return ErrcType::Failure;
        }
        proof {
            assert(self.m_journal@.take(before.len() as int) =~= before);
            assert(self.m_journal@.skip(before.len() as int) =~= seq![x0, x1, x2, x3]);
        }
        ErrcType::Success
    }

    // TLS ops

    /// Returns the value of `rax` in the thread-local block.
    pub fn bf_tls_rax(&mut self) -> (ret: SafeU64)
        ensures
            final(self).did(*old(self), HostCall::TlsLoad { offset: TLS_OFFSET_RAX }),
            ret == SafeU64::spec_new(final(self).answer().out0),
    {
        let reply = self.exchange(HostCall::TlsLoad { offset: TLS_OFFSET_RAX });
        SafeU64::new(reply.out0)
    }

    /// Sets `rax` in the thread-local block to `val`.
    pub fn bf_tls_set_rax(&mut self, val: SafeU64)
        requires
            val.is_valid_and_checked(),
        ensures
            final(self).did(*old(self), HostCall::TlsStore { offset: TLS_OFFSET_RAX, val: val@ }),
    {
        let _ = self.exchange(HostCall::TlsStore { offset: TLS_OFFSET_RAX, val: val.get() });
    }

    /// Returns the value of `rbx` in the thread-local block.
    pub fn bf_tls_rbx(&mut self) -> (ret: SafeU64)
        ensures
            final(self).did(*old(self), HostCall::TlsLoad { offset: TLS_OFFSET_RBX }),
            ret == SafeU64::spec_new(final(self).answer().out0),
    {
        let reply = self.exchange(HostCall::TlsLoad { offset: TLS_OFFSET_RBX });
        SafeU64::new(reply.out0)
    }

    /// Sets `rbx` in the thread-local block to `val`.
    pub fn bf_tls_set_rbx(&mut self, val: SafeU64)
        requires
            val.is_valid_and_checked(),
        ensures
            final(self).did(*old(self), HostCall::TlsStore { offset: TLS_OFFSET_RBX, val: val@ }),
    {
        let _ = self.exchange(HostCall::TlsStore { offset: TLS_OFFSET_RBX, val: val.get() });
    }

    /// Returns the value of `rcx` in the thread-local block.
    pub fn bf_tls_rcx(&mut self) -> (ret: SafeU64)
        ensures
            final(self).did(*old(self), HostCall::TlsLoad { offset: TLS_OFFSET_RCX }),
            ret == SafeU64::spec_new(final(self).answer().out0),
    {
        let reply = self.exchange(HostCall::TlsLoad { offset: TLS_OFFSET_RCX });
        SafeU64::new(reply.out0)
    }

    /// Sets `rcx` in the thread-local block to `val`.
    pub fn bf_tls_set_rcx(&mut self, val: SafeU64)
        requires
            val.is_valid_and_checked(),
        ensures
            final(self).did(*old(self), HostCall::TlsStore { offset: TLS_OFFSET_RCX, val: val@ }),
    {
        let _ = self.exchange(HostCall::TlsStore { offset: TLS_OFFSET_RCX, val: val.get() });
    }

    /// Returns the value of `rdx` in the thread-local block.
    pub fn bf_tls_rdx(&mut self) -> (ret: SafeU64)
        ensures
            final(self).did(*old(self), HostCall::TlsLoad { offset: TLS_OFFSET_RDX }),
            ret == SafeU64::spec_new(final(self).answer().out0),
    {
        let reply = self.exchange(HostCall::TlsLoad { offset: TLS_OFFSET_RDX });
        SafeU64::new(reply.out0)
    }

    /// Sets `rdx` in the thread-local block to `val`.
    pub fn bf_tls_set_rdx(&mut self, val: SafeU64)
        requires
            val.is_valid_and_checked(),
        ensures
            final(self).did(*old(self), HostCall::TlsStore { offset: TLS_OFFSET_RDX, val: val@ }),
    {
        let _ = self.exchange(HostCall::TlsStore { offset: TLS_OFFSET_RDX, val: val.get() });
    }

    /// Returns the value of `rbp` in the thread-local block.
    pub fn bf_tls_rbp(&mut self) -> (ret: SafeU64)
        ensures
            final(self).did(*old(self), HostCall::TlsLoad { offset: TLS_OFFSET_RBP }),
            ret == SafeU64::spec_new(final(self).answer().out0),
    {
        let reply = self.exchange(HostCall::TlsLoad { offset: TLS_OFFSET_RBP });
        SafeU64::new(reply.out0)
    }

    /// Sets `rbp` in the thread-local block to `val`.
    pub fn bf_tls_set_rbp(&mut self, val: SafeU64)
        requires
            val.is_valid_and_checked(),
        ensures
            final(self).did(*old(self), HostCall::TlsStore { offset: TLS_OFFSET_RBP, val: val@ }),
    {
        let _ = self.exchange(HostCall::TlsStore { offset: TLS_OFFSET_RBP, val: val.get() });
    }

    /// Returns the value of `rsi` in the thread-local block.
    pub fn bf_tls_rsi(&mut self) -> (ret: SafeU64)
        ensures
            final(self).did(*old(self), HostCall::TlsLoad { offset: TLS_OFFSET_RSI }),
            ret == SafeU64::spec_new(final(self).answer().out0),
    {
        let reply = self.exchange(HostCall::TlsLoad { offset: TLS_OFFSET_RSI });
        SafeU64::new(reply.out0)
    }

    /// Sets `rsi` in the thread-local block to `val`.
    pub fn bf_tls_set_rsi(&mut self, val: SafeU64)
        requires
            val.is_valid_and_checked(),
        ensures
            final(self).did(*old(self), HostCall::TlsStore { offset: TLS_OFFSET_RSI, val: val@ }),
    {
        let _ = self.exchange(HostCall::TlsStore { offset: TLS_OFFSET_RSI, val: val.get() });
    }

    /// Returns the value of `rdi` in the thread-local block.
    pub fn bf_tls_rdi(&mut self) -> (ret: SafeU64)
        ensures
            final(self).did(*old(self), HostCall::TlsLoad { offset: TLS_OFFSET_RDI }),
            ret == SafeU64::spec_new(final(self).answer().out0),
    {
        let reply = self.exchange(HostCall::TlsLoad { offset: TLS_OFFSET_RDI });
        SafeU64::new(reply.out0)
    }

    /// Sets `rdi` in the thread-local block to `val`.
    pub fn bf_tls_set_rdi(&mut self, val: SafeU64)
        requires
            val.is_valid_and_checked(),
        ensures
            final(self).did(*old(self), HostCall::TlsStore { offset: TLS_OFFSET_RDI, val: val@ }),
    {
        let _ = self.exchange(HostCall::TlsStore { offset: TLS_OFFSET_RDI, val: val.get() });
    }

    /// Returns the value of `r8` in the thread-local block.
    pub fn bf_tls_r8(&mut self) -> (ret: SafeU64)
        ensures
            final(self).did(*old(self), HostCall::TlsLoad { offset: TLS_OFFSET_R8 }),
            ret == SafeU64::spec_new(final(self).answer().out0),
    {
        let reply = self.exchange(HostCall::TlsLoad { offset: TLS_OFFSET_R8 });
        SafeU64::new(reply.out0)
    }

    /// Sets `r8` in the thread-local block to `val`.
    pub fn bf_tls_set_r8(&mut self, val: SafeU64)
        requires
            val.is_valid_and_checked(),
        ensures
            final(self).did(*old(self), HostCall::TlsStore { offset: TLS_OFFSET_R8, val: val@ }),
    {
        let _ = self.exchange(HostCall::TlsStore { offset: TLS_OFFSET_R8, val: val.get() });
    }

    /// Returns the value of `r9` in the thread-local block.
    pub fn bf_tls_r9(&mut self) -> (ret: SafeU64)
        ensures
            final(self).did(*old(self), HostCall::TlsLoad { offset: TLS_OFFSET_R9 }),
            ret == SafeU64::spec_new(final(self).answer().out0),
    {
        let reply = self.exchange(HostCall::TlsLoad { offset: TLS_OFFSET_R9 });
        SafeU64::new(reply.out0)
    }

    /// Sets `r9` in the thread-local block to `val`.
    pub fn bf_tls_set_r9(&mut self, val: SafeU64)
        requires
            val.is_valid_and_checked(),
        ensures
            final(self).did(*old(self), HostCall::TlsStore { offset: TLS_OFFSET_R9, val: val@ }),
    {
        let _ = self.exchange(HostCall::TlsStore { offset: TLS_OFFSET_R9, val: val.get() });
    }

    /// Returns the value of `r10` in the thread-local block.
    pub fn bf_tls_r10(&mut self) -> (ret: SafeU64)
        ensures
            final(self).did(*old(self), HostCall::TlsLoad { offset: TLS_OFFSET_R10 }),
            ret == SafeU64::spec_new(final(self).answer().out0),
    {
        let reply = self.exchange(HostCall::TlsLoad { offset: TLS_OFFSET_R10 });
        SafeU64::new(reply.out0)
    }

    /// Sets `r10` in the thread-local block to `val`.
    pub fn bf_tls_set_r10(&mut self, val: SafeU64)
        requires
            val.is_valid_and_checked(),
        ensures
            final(self).did(*old(self), HostCall::TlsStore { offset: TLS_OFFSET_R10, val: val@ }),
    {
        let _ = self.exchange(HostCall::TlsStore { offset: TLS_OFFSET_R10, val: val.get() });
    }

    /// Returns the value of `r11` in the thread-local block.
    pub fn bf_tls_r11(&mut self) -> (ret: SafeU64)
        ensures
            final(self).did(*old(self), HostCall::TlsLoad { offset: TLS_OFFSET_R11 }),
            ret == SafeU64::spec_new(final(self).answer().out0),
    {
        let reply = self.exchange(HostCall::TlsLoad { offset: TLS_OFFSET_R11 });
        SafeU64::new(reply.out0)
    }

    /// Sets `r11` in the thread-local block to `val`.
    pub fn bf_tls_set_r11(&mut self, val: SafeU64)
        requires
            val.is_valid_and_checked(),
        ensures
            final(self).did(*old(self), HostCall::TlsStore { offset: TLS_OFFSET_R11, val: val@ }),
    {
        let _ = self.exchange(HostCall::TlsStore { offset: TLS_OFFSET_R11, val: val.get() });
    }

    /// Returns the value of `r12` in the thread-local block.
    pub fn bf_tls_r12(&mut self) -> (ret: SafeU64)
        ensures
            final(self).did(*old(self), HostCall::TlsLoad { offset: TLS_OFFSET_R12 }),
            ret == SafeU64::spec_new(final(self).answer().out0),
    {
        let reply = self.exchange(HostCall::TlsLoad { offset: TLS_OFFSET_R12 });
        SafeU64::new(reply.out0)
    }

    /// Sets `r12` in the thread-local block to `val`.
    pub fn bf_tls_set_r12(&mut self, val: SafeU64)
        requires
            val.is_valid_and_checked(),
        ensures
            final(self).did(*old(self), HostCall::TlsStore { offset: TLS_OFFSET_R12, val: val@ }),
    {
        let _ = self.exchange(HostCall::TlsStore { offset: TLS_OFFSET_R12, val: val.get() });
    }

    /// Returns the value of `r13` in the thread-local block.
    pub fn bf_tls_r13(&mut self) -> (ret: SafeU64)
        ensures
            final(self).did(*old(self), HostCall::TlsLoad { offset: TLS_OFFSET_R13 }),
            ret == SafeU64::spec_new(final(self).answer().out0),
    {
        let reply = self.exchange(HostCall::TlsLoad { offset: TLS_OFFSET_R13 });
        SafeU64::new(reply.out0)
    }

    /// Sets `r13` in the thread-local block to `val`.
    pub fn bf_tls_set_r13(&mut self, val: SafeU64)
        requires
            val.is_valid_and_checked(),
        ensures
            final(self).did(*old(self), HostCall::TlsStore { offset: TLS_OFFSET_R13, val: val@ }),
    {
        let _ = self.exchange(HostCall::TlsStore { offset: TLS_OFFSET_R13, val: val.get() });
    }

    /// Returns the value of `r14` in the thread-local block.
    pub fn bf_tls_r14(&mut self) -> (ret: SafeU64)
        ensures
            final(self).did(*old(self), HostCall::TlsLoad { offset: TLS_OFFSET_R14 }),
            ret == SafeU64::spec_new(final(self).answer().out0),
    {
        let reply = self.exchange(HostCall::TlsLoad { offset: TLS_OFFSET_R14 });
        SafeU64::new(reply.out0)
    }

    /// Sets `r14` in the thread-local block to `val`.
    pub fn bf_tls_set_r14(&mut self, val: SafeU64)
        requires
            val.is_valid_and_checked(),
        ensures
            final(self).did(*old(self), HostCall::TlsStore { offset: TLS_OFFSET_R14, val: val@ }),
    {
        let _ = self.exchange(HostCall::TlsStore { offset: TLS_OFFSET_R14, val: val.get() });
    }

    /// Returns the value of `r15` in the thread-local block.
    pub fn bf_tls_r15(&mut self) -> (ret: SafeU64)
        ensures
            final(self).did(*old(self), HostCall::TlsLoad { offset: TLS_OFFSET_R15 }),
            ret == SafeU64::spec_new(final(self).answer().out0),
    {
        let reply = self.exchange(HostCall::TlsLoad { offset: TLS_OFFSET_R15 });
        SafeU64::new(reply.out0)
    }

    /// Sets `r15` in the thread-local block to `val`.
    pub fn bf_tls_set_r15(&mut self, val: SafeU64)
        requires
            val.is_valid_and_checked(),
        ensures
            final(self).did(*old(self), HostCall::TlsStore { offset: TLS_OFFSET_R15, val: val@ }),
    {
        let _ = self.exchange(HostCall::TlsStore { offset: TLS_OFFSET_R15, val: val.get() });
    }

    /// Returns the ID of the active extension, as the thread-local block has it.
    pub fn bf_tls_extid(&mut self) -> (ret: SafeU16)
        ensures
            final(self).did(*old(self), HostCall::TlsLoad { offset: TLS_OFFSET_ACTIVE_EXTID }),
            ret == SafeU16::spec_new(low_u16(final(self).answer().out0)),
    {
        let reply = self.exchange(HostCall::TlsLoad { offset: TLS_OFFSET_ACTIVE_EXTID });
        SafeU16::new(u16_of_reply(reply))
    }

    /// Returns the ID of the active VM, as the thread-local block has it.
    pub fn bf_tls_vmid(&mut self) -> (ret: SafeU16)
        ensures
            final(self).did(*old(self), HostCall::TlsLoad { offset: TLS_OFFSET_ACTIVE_VMID }),
            ret == SafeU16::spec_new(low_u16(final(self).answer().out0)),
    {
        let reply = self.exchange(HostCall::TlsLoad { offset: TLS_OFFSET_ACTIVE_VMID });
        SafeU16::new(u16_of_reply(reply))
    }

    /// Returns the ID of the active VP, as the thread-local block has it.
    pub fn bf_tls_vpid(&mut self) -> (ret: SafeU16)
        ensures
            final(self).did(*old(self), HostCall::TlsLoad { offset: TLS_OFFSET_ACTIVE_VPID }),
            ret == SafeU16::spec_new(low_u16(final(self).answer().out0)),
    {
        let reply = self.exchange(HostCall::TlsLoad { offset: TLS_OFFSET_ACTIVE_VPID });
        SafeU16::new(u16_of_reply(reply))
    }

    /// Returns the ID of the active VS, as the thread-local block has it.
    pub fn bf_tls_vsid(&mut self) -> (ret: SafeU16)
        ensures
            final(self).did(*old(self), HostCall::TlsLoad { offset: TLS_OFFSET_ACTIVE_VSID }),
            ret == SafeU16::spec_new(low_u16(final(self).answer().out0)),
    {
        let reply = self.exchange(HostCall::TlsLoad { offset: TLS_OFFSET_ACTIVE_VSID });
        SafeU16::new(u16_of_reply(reply))
    }

    /// Returns the ID of the PP that runs this code, as the thread-local block has it.
    pub fn bf_tls_ppid(&mut self) -> (ret: SafeU16)
        ensures
            final(self).did(*old(self), HostCall::TlsLoad { offset: TLS_OFFSET_ACTIVE_PPID }),
            ret == SafeU16::spec_new(low_u16(final(self).answer().out0)),
    {
        let reply = self.exchange(HostCall::TlsLoad { offset: TLS_OFFSET_ACTIVE_PPID });
        SafeU16::new(u16_of_reply(reply))
    }

    /// Returns the number of PPs that are online, as the thread-local block has it.
    pub fn bf_tls_online_pps(&mut self) -> (ret: SafeU16)
        ensures
            final(self).did(*old(self), HostCall::TlsLoad { offset: TLS_OFFSET_ONLINE_PPS }),
            ret == SafeU16::spec_new(low_u16(final(self).answer().out0)),
    {
        let reply = self.exchange(HostCall::TlsLoad { offset: TLS_OFFSET_ONLINE_PPS });
        SafeU16::new(u16_of_reply(reply))
    }

    /// Returns true if the active VM is the root VM.
    pub fn is_the_active_vm_the_root_vm(&mut self) -> (ret: bool)
        ensures
            final(self).did(*old(self), HostCall::TlsLoad { offset: TLS_OFFSET_ACTIVE_VMID }),
            ret == (low_u16(final(self).answer().out0) == BF_ROOT_VMID),
    {
        let vmid = self.bf_tls_vmid();
        vmid.get() == BF_ROOT_VMID
    }

    /// Returns true if `vmid` is the ID of the root VM.
    pub fn is_vm_the_root_vm(&self, vmid: SafeU16) -> (ret: bool)
        requires
            vmid.is_valid_and_checked(),
        ensures
            ret == (vmid@ == BF_ROOT_VMID),
    {
        vmid.get() == BF_ROOT_VMID
    }

    /// Returns true if `vpid` is the ID of a root VP: one of those that
    /// stand for the PPs that were running when the host started, and whose
    /// IDs lie below the number of PPs that are online.
    pub fn is_vp_a_root_vp(&mut self, vpid: SafeU16) -> (ret: bool)
        requires
            vpid.is_valid_and_checked(),
        ensures
            final(self).did(*old(self), HostCall::TlsLoad { offset: TLS_OFFSET_ONLINE_PPS }),
            ret == (vpid@ < low_u16(final(self).answer().out0)),
    {
        let online_pps = self.bf_tls_online_pps();
        vpid.get() < online_pps.get()
    }

    /// Returns true if `vsid` is the ID of a root VS: one of those that
    /// stand for the PPs that were running when the host started, and whose
    /// IDs lie below the number of PPs that are online.
    pub fn is_vs_a_root_vs(&mut self, vsid: SafeU16) -> (ret: bool)
        requires
            vsid.is_valid_and_checked(),
        ensures
            final(self).did(*old(self), HostCall::TlsLoad { offset: TLS_OFFSET_ONLINE_PPS }),
            ret == (vsid@ < low_u16(final(self).answer().out0)),
    {
        let online_pps = self.bf_tls_online_pps();
        vsid.get() < online_pps.get()
    }

    // VM ops

    /// Asks the host to create a VM and returns its ID, or a poisoned value if
    /// the host refuses or hands back an ID that cannot be used.
    pub fn bf_vm_op_create_vm(&mut self) -> (ret: SafeU16)
        ensures
            final(self).did(*old(self), HostCall::VmCreate { hndl: old(self).hndl() }),
            ret == spec_id_of_reply(final(self).answer(), HYPERVISOR_MAX_VMS),
    {
        let reply = self.exchange(HostCall::VmCreate { hndl: self.m_hndl });
        id_of_reply(reply, HYPERVISOR_MAX_VMS)
    }

    /// Asks the host to destroy the VM `vmid`.
    pub fn bf_vm_op_destroy_vm(&mut self, vmid: SafeU16) -> (ret: ErrcType)
        requires
            is_id_in_range(vmid, HYPERVISOR_MAX_VMS),
        ensures
            final(self).did(
                *old(self),
                HostCall::VmDestroy { hndl: old(self).hndl(), vmid: vmid@ },
            ),
            ret == spec_errc_of_status(final(self).answer().status),
    {
        let reply = self.exchange(HostCall::VmDestroy { hndl: self.m_hndl, vmid: vmid.get() });
        errc_of_status(reply.status)
    }

    /// Asks the host to map the page at the physical address `phys` into the
    /// direct map of the VM `vmid`. Returns the virtual address of the mapping,
    /// or the null address if the host refuses.
    pub fn bf_vm_op_map_direct(&mut self, vmid: SafeU16, phys: SafeU64) -> (ret: u64)
        requires
            is_id_in_range(vmid, HYPERVISOR_MAX_VMS),
            phys.is_valid_and_checked(),
            phys.is_pos(),
            phys@ < HYPERVISOR_EXT_DIRECT_MAP_SIZE,
            phys@ % HYPERVISOR_PAGE_SIZE == 0,
        ensures
            final(self).did(
                *old(self),
                HostCall::VmMapDirect { hndl: old(self).hndl(), vmid: vmid@, phys: phys@ },
            ),
            ret == spec_addr_of_reply(final(self).answer()),
    {
        let reply = self.exchange(
            HostCall::VmMapDirect { hndl: self.m_hndl, vmid: vmid.get(), phys: phys.get() },
        );
        addr_of_reply(reply)
    }

    /// Asks the host to remove the mapping at the virtual address `virt` from
    /// the direct map of the VM `vmid`, on this PP.
    pub fn bf_vm_op_unmap_direct(&mut self, vmid: SafeU16, virt: u64) -> (ret: ErrcType)
        requires
            is_id_in_range(vmid, HYPERVISOR_MAX_VMS),
        ensures
            final(self).did(
                *old(self),
                HostCall::VmUnmapDirect { hndl: old(self).hndl(), vmid: vmid@, virt },
            ),
            ret == spec_errc_of_status(final(self).answer().status),
    {
        let reply = self.exchange(
            HostCall::VmUnmapDirect { hndl: self.m_hndl, vmid: vmid.get(), virt },
        );
        errc_of_status(reply.status)
    }

    /// Asks the host to remove the mapping at the virtual address `virt` from
    /// the direct map of the VM `vmid`, on every PP.
    pub fn bf_vm_op_unmap_direct_broadcast(&mut self, vmid: SafeU16, virt: u64) -> (ret: ErrcType)
        requires
            is_id_in_range(vmid, HYPERVISOR_MAX_VMS),
        ensures
            final(self).did(
                *old(self),
                HostCall::VmUnmapDirectBroadcast { hndl: old(self).hndl(), vmid: vmid@, virt },
            ),
            ret == spec_errc_of_status(final(self).answer().status),
    {
        let reply = self.exchange(
            HostCall::VmUnmapDirectBroadcast { hndl: self.m_hndl, vmid: vmid.get(), virt },
        );
        errc_of_status(reply.status)
    }

    /// Asks the host to flush the TLB entries of the VM `vmid` on this PP.
    pub fn bf_vm_op_tlb_flush(&mut self, vmid: SafeU16) -> (ret: ErrcType)
        requires
            is_id_in_range(vmid, HYPERVISOR_MAX_VMS),
        ensures
            final(self).did(
                *old(self),
                HostCall::VmTlbFlush { hndl: old(self).hndl(), vmid: vmid@ },
            ),
            ret == spec_errc_of_status(final(self).answer().status),
    {
        let reply = self.exchange(HostCall::VmTlbFlush { hndl: self.m_hndl, vmid: vmid.get() });
        errc_of_status(reply.status)
    }

    // VP ops

    /// Asks the host to create a VP for the VM `vmid` and returns its ID, or a
    /// poisoned value if the host refuses or hands back an ID that cannot be
    /// used.
    pub fn bf_vp_op_create_vp(&mut self, vmid: SafeU16) -> (ret: SafeU16)
        requires
            is_id_in_range(vmid, HYPERVISOR_MAX_VMS),
        ensures
            final(self).did(*old(self), HostCall::VpCreate { hndl: old(self).hndl(), vmid: vmid@ }),
            ret == spec_id_of_reply(final(self).answer(), HYPERVISOR_MAX_VPS),
    {
        let reply = self.exchange(HostCall::VpCreate { hndl: self.m_hndl, vmid: vmid.get() });
        id_of_reply(reply, HYPERVISOR_MAX_VPS)
    }

    /// Asks the host to destroy the VP `vpid`.
    pub fn bf_vp_op_destroy_vp(&mut self, vpid: SafeU16) -> (ret: ErrcType)
        requires
            is_id_in_range(vpid, HYPERVISOR_MAX_VPS),
        ensures
            final(self).did(
                *old(self),
                HostCall::VpDestroy { hndl: old(self).hndl(), vpid: vpid@ },
            ),
            ret == spec_errc_of_status(final(self).answer().status),
    {
        let reply = self.exchange(HostCall::VpDestroy { hndl: self.m_hndl, vpid: vpid.get() });
        errc_of_status(reply.status)
    }

    // VS ops

    /// Asks the host to create a VS for the VP `vpid` on the PP `ppid` and
    /// returns its ID, or a poisoned value if the host refuses or hands back an
    /// ID that cannot be used.
    pub fn bf_vs_op_create_vs(&mut self, vpid: SafeU16, ppid: SafeU16) -> (ret: SafeU16)
        requires
            is_id_in_range(vpid, HYPERVISOR_MAX_VPS),
            is_id_in_range(ppid, HYPERVISOR_MAX_PPS),
        ensures
            final(self).did(
                *old(self),
                HostCall::VsCreate { hndl: old(self).hndl(), vpid: vpid@, ppid: ppid@ },
            ),
            ret == spec_id_of_reply(final(self).answer(), HYPERVISOR_MAX_VSS),
    {
        let reply = self.exchange(
            HostCall::VsCreate { hndl: self.m_hndl, vpid: vpid.get(), ppid: ppid.get() },
        );
        id_of_reply(reply, HYPERVISOR_MAX_VSS)
    }

    /// Asks the host to destroy the VS `vsid`.
    pub fn bf_vs_op_destroy_vs(&mut self, vsid: SafeU16) -> (ret: ErrcType)
        requires
            is_id_in_range(vsid, HYPERVISOR_MAX_VSS),
        ensures
            final(self).did(
                *old(self),
                HostCall::VsDestroy { hndl: old(self).hndl(), vsid: vsid@ },
            ),
            ret == spec_errc_of_status(final(self).answer().status),
    {
        let reply = self.exchange(HostCall::VsDestroy { hndl: self.m_hndl, vsid: vsid.get() });
        errc_of_status(reply.status)
    }

    /// Asks the host to fill the VS `vsid` with the state that the loader
    /// recorded for its PP, so that the VS continues what ran before the host
    /// started.
    pub fn bf_vs_op_init_as_root(&mut self, vsid: SafeU16) -> (ret: ErrcType)
        requires
            is_id_in_range(vsid, HYPERVISOR_MAX_VSS),
        ensures
            final(self).did(
                *old(self),
                HostCall::VsInitAsRoot { hndl: old(self).hndl(), vsid: vsid@ },
            ),
            ret == spec_errc_of_status(final(self).answer().status),
    {
        let reply = self.exchange(HostCall::VsInitAsRoot { hndl: self.m_hndl, vsid: vsid.get() });
        errc_of_status(reply.status)
    }

    /// Reads the register `reg` of the VS `vsid`. Returns its value, or a
    /// poisoned value if the host refuses.
    pub fn bf_vs_op_read(&mut self, vsid: SafeU16, reg: u64) -> (ret: SafeU64)
        requires
            is_id_in_range(vsid, HYPERVISOR_MAX_VSS),
            bf_reg_t_is_valid(old(self).spec_arch(), reg),
        ensures
            final(self).did(
                *old(self),
                HostCall::VsRead { hndl: old(self).hndl(), vsid: vsid@, reg },
            ),
            ret == spec_value_of_reply(final(self).answer()),
    {
        let reply = self.exchange(HostCall::VsRead { hndl: self.m_hndl, vsid: vsid.get(), reg });
        value_of_reply(reply)
    }

    /// Writes `val` to the register `reg` of the VS `vsid`.
    pub fn bf_vs_op_write(&mut self, vsid: SafeU16, reg: u64, val: SafeU64) -> (ret: ErrcType)
        requires
            is_id_in_range(vsid, HYPERVISOR_MAX_VSS),
            bf_reg_t_is_valid(old(self).spec_arch(), reg),
            val.is_valid_and_checked(),
        ensures
            final(self).did(
                *old(self),
                HostCall::VsWrite { hndl: old(self).hndl(), vsid: vsid@, reg, val: val@ },
            ),
            ret == spec_errc_of_status(final(self).answer().status),
    {
        let reply = self.exchange(
            HostCall::VsWrite { hndl: self.m_hndl, vsid: vsid.get(), reg, val: val.get() },
        );
        errc_of_status(reply.status)
    }

    /// Asks the host to run the VS `vsid` of the VP `vpid` of the VM `vmid`.
    /// With a real host the call does not come back unless it failed: whoever
    /// gets a result, of whatever kind, is on an error path.
    pub fn bf_vs_op_run(&mut self, vmid: SafeU16, vpid: SafeU16, vsid: SafeU16) -> (ret: ErrcType)
        requires
            is_id_in_range(vmid, HYPERVISOR_MAX_VMS),
            is_id_in_range(vpid, HYPERVISOR_MAX_VPS),
            is_id_in_range(vsid, HYPERVISOR_MAX_VSS),
        ensures
            final(self).did(
                *old(self),
                HostCall::VsRun { hndl: old(self).hndl(), vmid: vmid@, vpid: vpid@, vsid: vsid@ },
            ),
            ret == spec_errc_of_status(final(self).answer().status),
    {
        let reply = self.exchange(
            HostCall::VsRun {
                hndl: self.m_hndl,
                vmid: vmid.get(),
                vpid: vpid.get(),
                vsid: vsid.get(),
            },
        );
        errc_of_status(reply.status)
    }

    /// Asks the host to run the active VS. With a real host the call does not
    /// come back unless it failed: whoever gets a result, of whatever kind, is
    /// on an error path.
    pub fn bf_vs_op_run_current(&mut self) -> (ret: ErrcType)
        ensures
            final(self).did(*old(self), HostCall::VsRunCurrent { hndl: old(self).hndl() }),
            ret == spec_errc_of_status(final(self).answer().status),
    {
        let reply = self.exchange(HostCall::VsRunCurrent { hndl: self.m_hndl });
        errc_of_status(reply.status)
    }

    /// Asks the host to step the VS `vsid` past the instruction that exited and
    /// to run it for the VP `vpid` of the VM `vmid`. With a real host the call
    /// does not come back unless it failed: whoever gets a result, of whatever
    /// kind, is on an error path.
    pub fn bf_vs_op_advance_ip_and_run(
        &mut self,
        vmid: SafeU16,
        vpid: SafeU16,
        vsid: SafeU16,
    ) -> (ret: ErrcType)
        requires
            is_id_in_range(vmid, HYPERVISOR_MAX_VMS),
            is_id_in_range(vpid, HYPERVISOR_MAX_VPS),
            is_id_in_range(vsid, HYPERVISOR_MAX_VSS),
        ensures
            final(self).did(
                *old(self),
                HostCall::VsAdvanceIpAndRun {
                    hndl: old(self).hndl(),
                    vmid: vmid@,
                    vpid: vpid@,
                    vsid: vsid@,
                },
            ),
            ret == spec_errc_of_status(final(self).answer().status),
    {
        let reply = self.exchange(
            HostCall::VsAdvanceIpAndRun {
                hndl: self.m_hndl,
                vmid: vmid.get(),
                vpid: vpid.get(),
                vsid: vsid.get(),
            },
        );
        errc_of_status(reply.status)
    }

    /// Asks the host to step the active VS past the instruction that exited and
    /// to run it. With a real host the call does not come back unless it
    /// failed: whoever gets a result, of whatever kind, is on an error path.
    pub fn bf_vs_op_advance_ip_and_run_current(&mut self) -> (ret: ErrcType)
        ensures
            final(self).did(
                *old(self),
                HostCall::VsAdvanceIpAndRunCurrent { hndl: old(self).hndl() },
            ),
            ret == spec_errc_of_status(final(self).answer().status),
    {
        let reply = self.exchange(HostCall::VsAdvanceIpAndRunCurrent { hndl: self.m_hndl });
        errc_of_status(reply.status)
    }

    /// Asks the host to replace the state of this PP with the state of the VS
    /// `vsid`, which turns the hypervisor off for this PP. With a real host the
    /// call does not come back unless it failed: whoever gets a result, of
    /// whatever kind, is on an error path.
    pub fn bf_vs_op_promote(&mut self, vsid: SafeU16) -> (ret: ErrcType)
        requires
            is_id_in_range(vsid, HYPERVISOR_MAX_VSS),
        ensures
            final(self).did(
                *old(self),
                HostCall::VsPromote { hndl: old(self).hndl(), vsid: vsid@ },
            ),
            ret == spec_errc_of_status(final(self).answer().status),
    {
        let reply = self.exchange(HostCall::VsPromote { hndl: self.m_hndl, vsid: vsid.get() });
        errc_of_status(reply.status)
    }

    /// Asks the host to clear the hardware cache of the VS `vsid`, so that the
    /// next run loads it afresh.
    pub fn bf_vs_op_clear(&mut self, vsid: SafeU16) -> (ret: ErrcType)
        requires
            is_id_in_range(vsid, HYPERVISOR_MAX_VSS),
        ensures
            final(self).did(*old(self), HostCall::VsClear { hndl: old(self).hndl(), vsid: vsid@ }),
            ret == spec_errc_of_status(final(self).answer().status),
    {
        let reply = self.exchange(HostCall::VsClear { hndl: self.m_hndl, vsid: vsid.get() });
        errc_of_status(reply.status)
    }

    /// Asks the host to move the VS `vsid` to the PP `ppid`. The VS must not be
    /// active on any PP: the caller sees to that, nothing here checks it.
    pub fn bf_vs_op_migrate(&mut self, vsid: SafeU16, ppid: SafeU16) -> (ret: ErrcType)
        requires
            is_id_in_range(vsid, HYPERVISOR_MAX_VSS),
            is_id_in_range(ppid, HYPERVISOR_MAX_PPS),
        ensures
            final(self).did(
                *old(self),
                HostCall::VsMigrate { hndl: old(self).hndl(), vsid: vsid@, ppid: ppid@ },
            ),
            ret == spec_errc_of_status(final(self).answer().status),
    {
        let reply = self.exchange(
            HostCall::VsMigrate { hndl: self.m_hndl, vsid: vsid.get(), ppid: ppid.get() },
        );
        errc_of_status(reply.status)
    }

    /// Asks the host to make the VS `vsid` of the VP `vpid` of the VM `vmid`
    /// the active one, without running it.
    pub fn bf_vs_op_set_active(
        &mut self,
        vmid: SafeU16,
        vpid: SafeU16,
        vsid: SafeU16,
    ) -> (ret: ErrcType)
        requires
            is_id_in_range(vmid, HYPERVISOR_MAX_VMS),
            is_id_in_range(vpid, HYPERVISOR_MAX_VPS),
            is_id_in_range(vsid, HYPERVISOR_MAX_VSS),
        ensures
            final(self).did(
                *old(self),
                HostCall::VsSetActive {
                    hndl: old(self).hndl(),
                    vmid: vmid@,
                    vpid: vpid@,
                    vsid: vsid@,
                },
            ),
            ret == spec_errc_of_status(final(self).answer().status),
    {
        let reply = self.exchange(
            HostCall::VsSetActive {
                hndl: self.m_hndl,
                vmid: vmid.get(),
                vpid: vpid.get(),
                vsid: vsid.get(),
            },
        );
        errc_of_status(reply.status)
    }

    /// Asks the host to step the VS `vsid` past the instruction that exited and
    /// to make it, the VP `vpid` and the VM `vmid` the active ones, without
    /// running it.
    pub fn bf_vs_op_advance_ip_and_set_active(
        &mut self,
        vmid: SafeU16,
        vpid: SafeU16,
        vsid: SafeU16,
    ) -> (ret: ErrcType)
        requires
            is_id_in_range(vmid, HYPERVISOR_MAX_VMS),
            is_id_in_range(vpid, HYPERVISOR_MAX_VPS),
            is_id_in_range(vsid, HYPERVISOR_MAX_VSS),
        ensures
            final(self).did(
                *old(self),
                HostCall::VsAdvanceIpAndSetActive {
                    hndl: old(self).hndl(),
                    vmid: vmid@,
                    vpid: vpid@,
                    vsid: vsid@,
                },
            ),
            ret == spec_errc_of_status(final(self).answer().status),
    {
        let reply = self.exchange(
            HostCall::VsAdvanceIpAndSetActive {
                hndl: self.m_hndl,
                vmid: vmid.get(),
                vpid: vpid.get(),
                vsid: vsid.get(),
            },
        );
        errc_of_status(reply.status)
    }

    /// Asks the host to flush the TLB entry of the VS `vsid` for the page at
    /// the guest linear address `gla`.
    pub fn bf_vs_op_tlb_flush(&mut self, vsid: SafeU16, gla: SafeU64) -> (ret: ErrcType)
        requires
            is_id_in_range(vsid, HYPERVISOR_MAX_VSS),
            gla.is_valid_and_checked(),
            gla.is_pos(),
            gla@ % HYPERVISOR_PAGE_SIZE == 0,
        ensures
            final(self).did(
                *old(self),
                HostCall::VsTlbFlush { hndl: old(self).hndl(), vsid: vsid@, gla: gla@ },
            ),
            ret == spec_errc_of_status(final(self).answer().status),
    {
        let reply = self.exchange(
            HostCall::VsTlbFlush { hndl: self.m_hndl, vsid: vsid.get(), gla: gla.get() },
        );
        errc_of_status(reply.status)
    }

    // Intrinsic ops

    /// Reads the model-specific register `msr`. Returns its value, or a
    /// poisoned value if the host refuses.
    pub fn bf_intrinsic_op_rdmsr(&mut self, msr: SafeU32) -> (ret: SafeU64)
        requires
            msr.is_valid_and_checked(),
            msr.is_pos(),
        ensures
            final(self).did(
                *old(self),
                HostCall::IntrinsicRdmsr { hndl: old(self).hndl(), msr: msr@ },
            ),
            ret == spec_value_of_reply(final(self).answer()),
    {
        let reply = self.exchange(HostCall::IntrinsicRdmsr { hndl: self.m_hndl, msr: msr.get() });
        value_of_reply(reply)
    }

    /// Writes `val` to the model-specific register `msr`.
    pub fn bf_intrinsic_op_wrmsr(&mut self, msr: SafeU32, val: SafeU64) -> (ret: ErrcType)
        requires
            msr.is_valid_and_checked(),
            msr.is_pos(),
            val.is_valid_and_checked(),
        ensures
            final(self).did(
                *old(self),
                HostCall::IntrinsicWrmsr { hndl: old(self).hndl(), msr: msr@, val: val@ },
            ),
            ret == spec_errc_of_status(final(self).answer().status),
    {
        let reply = self.exchange(
            HostCall::IntrinsicWrmsr { hndl: self.m_hndl, msr: msr.get(), val: val.get() },
        );
        errc_of_status(reply.status)
    }

    // Mem ops

    /// Asks the host for one page. Returns the virtual address of the page and
    /// leaves its physical address in `phys`; returns the null address and
    /// leaves `phys` as it was if the host refuses.
    pub fn bf_mem_op_alloc_page(&mut self, phys: &mut SafeU64) -> (ret: u64)
        requires
            old(phys).is_valid_and_checked(),
        ensures
            final(self).did(*old(self), HostCall::MemAllocPage { hndl: old(self).hndl() }),
            ret == spec_addr_of_reply(final(self).answer()),
            *final(phys) == (if final(self).answer().status == BF_STATUS_SUCCESS {
                SafeU64::spec_new(final(self).answer().out1)
            } else {
                *old(phys)
            }),
    {
        let reply = self.exchange(HostCall::MemAllocPage { hndl: self.m_hndl });
        if reply.status == BF_STATUS_SUCCESS {
            *phys = SafeU64::new(reply.out1);
        }
        addr_of_reply(reply)
    }

    /// Asks the host for `size` bytes of physically contiguous memory. Returns
    /// the virtual address of the memory and leaves its physical address in
    /// `phys`; returns the null address and leaves `phys` as it was if the host
    /// refuses.
    pub fn bf_mem_op_alloc_huge(&mut self, size: SafeU64, phys: &mut SafeU64) -> (ret: u64)
        requires
            size.is_valid_and_checked(),
            size.is_pos(),
            size@ % HYPERVISOR_PAGE_SIZE == 0,
            old(phys).is_valid_and_checked(),
        ensures
            final(self).did(
                *old(self),
                HostCall::MemAllocHuge { hndl: old(self).hndl(), size: size@ },
            ),
            ret == spec_addr_of_reply(final(self).answer()),
            *final(phys) == (if final(self).answer().status == BF_STATUS_SUCCESS {
                SafeU64::spec_new(final(self).answer().out1)
            } else {
                *old(phys)
            }),
    {
        let reply = self.exchange(HostCall::MemAllocHuge { hndl: self.m_hndl, size: size.get() });
        if reply.status == BF_STATUS_SUCCESS {
            *phys = SafeU64::new(reply.out1);
        }
        addr_of_reply(reply)
    }

    // Processor and console, for the rest of the crate

    /// Has the processor execute CPUID with the given register values and
    /// returns the reply, whose four output registers hold what the
    /// processor left in `rax`, `rbx`, `rcx` and `rdx`.
    pub(crate) fn cpuid(&mut self, rax: u64, rbx: u64, rcx: u64, rdx: u64) -> (reply: HostReply)
        ensures
            final(self).did(*old(self), HostCall::Cpuid { rax, rbx, rcx, rdx }),
            reply == final(self).answer(),
    {
        self.exchange(HostCall::Cpuid { rax, rbx, rcx, rdx })
    }

    /// Hands a call that reports no status to the host: one of the control
    /// and debug operations.
    pub(crate) fn notify(&mut self, call: HostCall)
        requires
            !call.reports_status(),
        ensures
            final(self).did(*old(self), call),
    {
        let _ = self.exchange(call);
    }
}

} // verus!
