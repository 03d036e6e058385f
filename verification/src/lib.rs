//! The boundary layer of a hypervisor extension.
//!
//! An extension runs on top of a host microkernel and reaches it through a
//! narrow numeric ABI. This crate holds what has to be right at that
//! boundary:
//!
//! - `BfSyscallT`, the syscall gateway. It checks what it is given before it
//!   asks the host for anything, and it turns every status code into a typed
//!   result: a poisoned number, a null address or an error code.
//! - `VpPoolT` and `VsPoolT`, the fixed-capacity pools that track which
//!   virtual processors and virtual processor states exist and who owns
//!   them.
//! - the dispatchers, which handle one bootstrap, one VM exit or one fast
//!   fail, and the entry points that the host calls.
//!
//! # The host
//!
//! The host is whatever implements `HostGateway`: one method that takes a
//! `HostCall` and returns a `HostReply`. Nothing is assumed of the replies.
//! Every function of this crate is verified for every host, and what it
//! promises is promised whatever the host answers.
//!
//! # The journal
//!
//! The gateway keeps a journal of its exchanges with the host: each call
//! with the reply that it got, in order. The journal is ghost state. It is
//! what the contracts speak of when they say what a function asks of the
//! host. A function that makes one call promises `did`: the journal grew by
//! exactly that call. A function that makes several promises that the
//! exchanges since it was called `follow` a plan, which is the list of the
//! calls that it sets out to make: it made them in order and stopped at the
//! first that the host refused. Where what is asked depends on what the
//! host answered before, the plan is a function of those answers.
//!
//! # Validity
//!
//! Numbers travel in `SafeU16`, `SafeU32` and `SafeU64`, which know whether
//! they can be trusted. A function that is handed a poisoned or unchecked
//! number, an ID out of range or a null handler is being misused, and says
//! so in its `requires`. What the host does wrong is never a misuse: it is
//! reported to the caller.

// Every handler is handed the whole state of the extension, whether it
// needs all of it or not.
#![allow(unused_variables)]

pub mod allocated_status_t;
pub mod bf_control_ops;
pub mod bf_debug_ops;
pub mod bf_reg_t;
pub mod bf_syscall_t;
pub mod config;
pub mod constants;
pub mod dispatch_bootstrap;
pub mod dispatch_fail;
pub mod dispatch_vmexit;
pub mod dispatch_vmexit_cpuid;
pub mod dispatch_vmexit_nmi;
pub mod dispatch_vmexit_nmi_window;
pub mod entry;
pub mod errc_type;
pub mod gs_initialize;
pub mod gs_t;
pub mod host_gateway;
pub mod intrinsic_t;
pub mod println;
pub mod safe_integral;
pub mod tls_initialize;
pub mod tls_t;
pub mod vp_pool_t;
pub mod vp_t;
pub mod vs_pool_t;
pub mod vs_t;

pub use allocated_status_t::AllocatedStatusT;
pub use bf_control_ops::{bf_control_op_again, bf_control_op_exit, bf_control_op_wait};
pub use bf_debug_ops::{
    bf_debug_op_dump_ext, bf_debug_op_dump_huge_pool, bf_debug_op_dump_page_pool,
    bf_debug_op_dump_vm, bf_debug_op_dump_vmexit_log, bf_debug_op_dump_vp, bf_debug_op_dump_vs,
    bf_debug_op_out, bf_debug_op_write_c, bf_debug_op_write_str,
};
pub use bf_reg_t::ArchT;
pub use bf_syscall_t::BfSyscallT;
pub use config::{
    HYPERVISOR_EXT_DIRECT_MAP_SIZE, HYPERVISOR_MAX_PPS, HYPERVISOR_MAX_VMS, HYPERVISOR_MAX_VPS,
    HYPERVISOR_MAX_VSS, HYPERVISOR_PAGE_SIZE,
};
pub use constants::{
    bf_is_page_aligned, bf_is_spec1_supported, bf_page_aligned, bf_syscall_flags,
    bf_syscall_index, bf_syscall_opcode, bf_syscall_opcode_nosig, bf_syscall_sig,
};
pub use dispatch_bootstrap::dispatch_bootstrap;
pub use dispatch_fail::dispatch_fail;
pub use dispatch_vmexit::{dispatch_vmexit, vmexit_of, VmexitT};
pub use dispatch_vmexit_cpuid::dispatch_vmexit_cpuid;
pub use dispatch_vmexit_nmi::dispatch_vmexit_nmi;
pub use dispatch_vmexit_nmi_window::dispatch_vmexit_nmi_window;
pub use entry::{bootstrap_entry, ext_main_entry, fail_entry, vmexit_entry};
pub use errc_type::{ErrcType, EXIT_FAILURE, EXIT_SUCCESS};
pub use gs_initialize::gs_initialize;
pub use gs_t::GsT;
pub use host_gateway::{Exchange, HostCall, HostGateway, HostReply};
pub use intrinsic_t::IntrinsicT;
pub use println::{Writer, _print};
pub use safe_integral::{to_u32_unsafe, SafeU16, SafeU32, SafeU64};
pub use tls_initialize::tls_initialize;
pub use tls_t::TlsT;
pub use vp_pool_t::{VpPoolOp, VpPoolT};
pub use vp_t::{VpT, VpView};
pub use vs_pool_t::{VsPoolOp, VsPoolT};
pub use vs_t::{VsT, VsView};
