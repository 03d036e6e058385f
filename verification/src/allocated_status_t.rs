//! Whether a record of a pool is in use.

use vstd::prelude::*;

verus! {

/// The allocation state of a record. Its owner fields mean something only
/// while it is `Allocated`.
#[derive(Clone, Copy, Debug, PartialEq, Eq, Structural)]
pub enum AllocatedStatusT {
    /// The record is free: no host object stands behind it.
    Deallocated,
    /// The record tracks a host object.
    Allocated,
}

} // verus!
