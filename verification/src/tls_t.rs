//! State that the extension keeps for each physical processor.

use vstd::prelude::*;

verus! {

/// The extension's own per-processor state. The handlers of this crate keep
/// nothing between two callbacks, so it is empty; it is handed through every
/// handler so that an extension built on them has a place for what it needs.
#[derive(Clone, Copy, Debug)]
pub struct TlsT {}

impl TlsT {
    /// Makes the per-processor state of a PP that has not started yet.
    pub fn new() -> (ret: Self) {
        TlsT {}
    }
}

} // verus!
