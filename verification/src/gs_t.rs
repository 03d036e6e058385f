//! State that the whole extension shares.

use vstd::prelude::*;

use crate::safe_integral::SafeU64;

verus! {

/// The architecture-global resources of the extension. They are allocated
/// once, when the extension starts, and only read after that.
///
/// On Intel this is the page that backs the MSR bitmaps, which every VS
/// points to. On AMD nothing is needed and the fields stay as `new` made
/// them.
#[derive(Clone, Copy, Debug)]
pub struct GsT {
    /// The virtual address of the MSR bitmaps; null until they are allocated.
    pub msr_bitmap: u64,
    /// The physical address of the MSR bitmaps.
    pub msr_bitmap_phys: SafeU64,
}

impl GsT {
    /// The physical address is a number that may be handed to the host.
    pub open spec fn wf(&self) -> bool {
        self.msr_bitmap_phys.is_valid_and_checked()
    }

    /// Makes the global state of an extension that has allocated nothing.
    pub fn new() -> (ret: Self)
        ensures
            ret.wf(),
            ret.msr_bitmap == 0,
            ret.msr_bitmap_phys == SafeU64::spec_new(0),
    {
        GsT { msr_bitmap: 0, msr_bitmap_phys: SafeU64::new(0) }
    }
}

} // verus!
