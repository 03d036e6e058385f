//! Integers that carry their own validity.
//!
//! Every number that crosses the boundary to the host travels in one of these
//! wrappers. A function that fails returns a poisoned value in place of a
//! number, and a function that takes a number asks for one that is valid and
//! checked.

use vstd::prelude::*;

verus! {

/// A `u16` that remembers whether it can be trusted.
///
/// A value is *poisoned* when the computation that produced it failed, and
/// *unchecked* when it came out of arithmetic that may have failed and nobody
/// has looked yet. Only a value that is neither may be read with `get`.
#[derive(Clone, Copy, Debug, PartialEq, Eq, Structural)]
pub struct SafeU16 {
    pub val: u16,
    pub poisoned: bool,
    pub unchecked: bool,
}

impl View for SafeU16 {
    type V = u16;

    /// The number that the wrapper holds; it means nothing while the wrapper
    /// is poisoned.
    open spec fn view(&self) -> u16 {
        self.val
    }
}

impl SafeU16 {
    /// A wrapper that is neither poisoned nor unchecked holds `val`.
    pub open spec fn spec_new(val: u16) -> Self {
        SafeU16 { val, poisoned: false, unchecked: false }
    }

    /// The poisoned wrapper that functions hand back when they fail.
    pub open spec fn spec_failure() -> Self {
        SafeU16 { val: 0, poisoned: true, unchecked: false }
    }

    pub open spec fn spec_is_valid(&self) -> bool {
        !self.poisoned
    }

    pub open spec fn spec_is_invalid(&self) -> bool {
        self.poisoned
    }

    pub open spec fn spec_is_valid_and_checked(&self) -> bool {
        !self.poisoned && !self.unchecked
    }

    pub open spec fn spec_is_pos(&self) -> bool {
        self.val > 0
    }

    pub open spec fn spec_checked(self) -> Self {
        SafeU16 { val: self.val, poisoned: self.poisoned, unchecked: false }
    }

    /// Wraps `val` as a valid, checked value.
    #[verifier::when_used_as_spec(spec_new)]
    pub fn new(val: u16) -> (ret: Self)
        ensures
            ret == Self::spec_new(val),
    {
        SafeU16 { val, poisoned: false, unchecked: false }
    }

    /// Returns the poisoned value that reports a failure.
    #[verifier::when_used_as_spec(spec_failure)]
    pub fn failure() -> (ret: Self)
        ensures
            ret == Self::spec_failure(),
    {
        SafeU16 { val: 0, poisoned: true, unchecked: false }
    }

    /// Returns a valid, checked 1.
    pub fn magic_1() -> (ret: Self)
        ensures
            ret == Self::spec_new(1),
    {
        Self::new(1)
    }

    /// Returns the number held. The value must be valid and checked.
    pub fn get(&self) -> (val: u16)
        requires
            self.is_valid_and_checked(),
        ensures
            val == self@,
    {
        self.val
    }

    /// Returns true unless the value is poisoned.
    #[verifier::when_used_as_spec(spec_is_valid)]
    pub fn is_valid(&self) -> (ret: bool)
        ensures
            ret == self.spec_is_valid(),
    {
        !self.poisoned
    }

    /// Returns true if the value is poisoned.
    #[verifier::when_used_as_spec(spec_is_invalid)]
    pub fn is_invalid(&self) -> (ret: bool)
        ensures
            ret == self.spec_is_invalid(),
    {
        self.poisoned
    }

    /// Returns true if the value is neither poisoned nor unchecked.
    #[verifier::when_used_as_spec(spec_is_valid_and_checked)]
    pub fn is_valid_and_checked(&self) -> (ret: bool)
        ensures
            ret == self.spec_is_valid_and_checked(),
    {
        !self.poisoned && !self.unchecked
    }

    /// Returns true if the number held is greater than 0. The value must be
    /// valid and checked.
    #[verifier::when_used_as_spec(spec_is_pos)]
    pub fn is_pos(&self) -> (ret: bool)
        requires
            self.is_valid_and_checked(),
        ensures
            ret == self.spec_is_pos(),
    {
        self.val > 0
    }

    /// Marks a value as looked at. The value must not be poisoned: the caller
    /// tests `is_valid` first.
    #[verifier::when_used_as_spec(spec_checked)]
    pub fn checked(self) -> (ret: Self)
        requires
            self.is_valid(),
        ensures
            ret == self.spec_checked(),
            ret.is_valid_and_checked(),
            ret@ == self@,
    {
        SafeU16 { val: self.val, poisoned: self.poisoned, unchecked: false }
    }

    /// Returns the bitwise complement. The flags stay as they are.
    pub fn complement(self) -> (ret: Self)
        ensures
            ret == (SafeU16 { val: !self.val, poisoned: self.poisoned, unchecked: self.unchecked }),
            ret.complement_spec() == self,
    {
        let before: u16 = self.val;
        let val: u16 = !before;
        assert(!val == before) by (bit_vector)
            requires
                val == !before,
        ;
        SafeU16 { val, poisoned: self.poisoned, unchecked: self.unchecked }
    }

    /// The bitwise complement of a value, flags unchanged.
    pub open spec fn complement_spec(self) -> Self {
        SafeU16 { val: !self.val, poisoned: self.poisoned, unchecked: self.unchecked }
    }

    /// What `minus` returns: the difference, unchecked, and poisoned where
    /// an operand was or where the difference would fall below 0.
    pub open spec fn spec_minus(self, rhs: Self) -> Self {
        if self.poisoned || rhs.poisoned || self.val < rhs.val {
            SafeU16 { val: 0, poisoned: true, unchecked: true }
        } else {
            SafeU16 { val: (self.val - rhs.val) as u16, poisoned: false, unchecked: true }
        }
    }

    /// Returns `self - rhs`. The result is unchecked, and poisoned if an
    /// operand was poisoned or the difference does not fit.
    pub fn minus(self, rhs: Self) -> (ret: Self)
        ensures
            ret == self.spec_minus(rhs),
    {
        if self.poisoned || rhs.poisoned || self.val < rhs.val {
            SafeU16 { val: 0, poisoned: true, unchecked: true }
        } else {
            SafeU16 { val: self.val - rhs.val, poisoned: false, unchecked: true }
        }
    }
}

impl Default for SafeU16 {
    /// Returns a valid, checked 0.
    fn default() -> (ret: Self)
        ensures
            ret == SafeU16::spec_new(0),
    {
        SafeU16 { val: 0, poisoned: false, unchecked: false }
    }
}

/// A `u32` that remembers whether it can be trusted.
///
/// A value is *poisoned* when the computation that produced it failed, and
/// *unchecked* when it came out of arithmetic that may have failed and nobody
/// has looked yet. Only a value that is neither may be read with `get`.
#[derive(Clone, Copy, Debug, PartialEq, Eq, Structural)]
pub struct SafeU32 {
    pub val: u32,
    pub poisoned: bool,
    pub unchecked: bool,
}

impl View for SafeU32 {
    type V = u32;

    /// The number that the wrapper holds; it means nothing while the wrapper
    /// is poisoned.
    open spec fn view(&self) -> u32 {
        self.val
    }
}

impl SafeU32 {
    /// A wrapper that is neither poisoned nor unchecked holds `val`.
    pub open spec fn spec_new(val: u32) -> Self {
        SafeU32 { val, poisoned: false, unchecked: false }
    }

    pub open spec fn spec_is_valid_and_checked(&self) -> bool {
        !self.poisoned && !self.unchecked
    }

    pub open spec fn spec_is_pos(&self) -> bool {
        self.val > 0
    }

    /// Wraps `val` as a valid, checked value.
    #[verifier::when_used_as_spec(spec_new)]
    pub fn new(val: u32) -> (ret: Self)
        ensures
            ret == Self::spec_new(val),
    {
        SafeU32 { val, poisoned: false, unchecked: false }
    }

    /// Returns the number held. The value must be valid and checked.
    pub fn get(&self) -> (val: u32)
        requires
            self.is_valid_and_checked(),
        ensures
            val == self@,
    {
        self.val
    }

    /// Returns true if the value is neither poisoned nor unchecked.
    #[verifier::when_used_as_spec(spec_is_valid_and_checked)]
    pub fn is_valid_and_checked(&self) -> (ret: bool)
        ensures
            ret == self.spec_is_valid_and_checked(),
    {
        !self.poisoned && !self.unchecked
    }

    /// Returns true if the number held is greater than 0. The value must be
    /// valid and checked.
    #[verifier::when_used_as_spec(spec_is_pos)]
    pub fn is_pos(&self) -> (ret: bool)
        requires
            self.is_valid_and_checked(),
        ensures
            ret == self.spec_is_pos(),
    {
        self.val > 0
    }
}

impl Default for SafeU32 {
    /// Returns a valid, checked 0.
    fn default() -> (ret: Self)
        ensures
            ret == SafeU32::spec_new(0),
    {
        SafeU32 { val: 0, poisoned: false, unchecked: false }
    }
}

/// A `u64` that remembers whether it can be trusted.
///
/// A value is *poisoned* when the computation that produced it failed, and
/// *unchecked* when it came out of arithmetic that may have failed and nobody
/// has looked yet. Only a value that is neither may be read with `get`.
#[derive(Clone, Copy, Debug, PartialEq, Eq, Structural)]
pub struct SafeU64 {
    pub val: u64,
    pub poisoned: bool,
    pub unchecked: bool,
}

impl View for SafeU64 {
    type V = u64;

    /// The number that the wrapper holds; it means nothing while the wrapper
    /// is poisoned.
    open spec fn view(&self) -> u64 {
        self.val
    }
}

impl SafeU64 {
    /// A wrapper that is neither poisoned nor unchecked holds `val`.
    pub open spec fn spec_new(val: u64) -> Self {
        SafeU64 { val, poisoned: false, unchecked: false }
    }

    /// The poisoned wrapper that functions hand back when they fail.
    pub open spec fn spec_failure() -> Self {
        SafeU64 { val: 0, poisoned: true, unchecked: false }
    }

    pub open spec fn spec_is_valid(&self) -> bool {
        !self.poisoned
    }

    pub open spec fn spec_is_invalid(&self) -> bool {
        self.poisoned
    }

    pub open spec fn spec_is_valid_and_checked(&self) -> bool {
        !self.poisoned && !self.unchecked
    }

    pub open spec fn spec_is_pos(&self) -> bool {
        self.val > 0
    }

    pub open spec fn spec_checked(self) -> Self {
        SafeU64 { val: self.val, poisoned: self.poisoned, unchecked: false }
    }

    /// Wraps `val` as a valid, checked value.
    #[verifier::when_used_as_spec(spec_new)]
    pub fn new(val: u64) -> (ret: Self)
        ensures
            ret == Self::spec_new(val),
    {
        SafeU64 { val, poisoned: false, unchecked: false }
    }

    /// Returns the poisoned value that reports a failure.
    #[verifier::when_used_as_spec(spec_failure)]
    pub fn failure() -> (ret: Self)
        ensures
            ret == Self::spec_failure(),
    {
        SafeU64 { val: 0, poisoned: true, unchecked: false }
    }

    /// Returns the number held. The value must be valid and checked.
    pub fn get(&self) -> (val: u64)
        requires
            self.is_valid_and_checked(),
        ensures
            val == self@,
    {
        self.val
    }

    /// Returns true unless the value is poisoned.
    #[verifier::when_used_as_spec(spec_is_valid)]
    pub fn is_valid(&self) -> (ret: bool)
        ensures
            ret == self.spec_is_valid(),
    {
        !self.poisoned
    }

    /// Returns true if the value is poisoned.
    #[verifier::when_used_as_spec(spec_is_invalid)]
    pub fn is_invalid(&self) -> (ret: bool)
        ensures
            ret == self.spec_is_invalid(),
    {
        self.poisoned
    }

    /// Returns true if the value is neither poisoned nor unchecked.
    #[verifier::when_used_as_spec(spec_is_valid_and_checked)]
    pub fn is_valid_and_checked(&self) -> (ret: bool)
        ensures
            ret == self.spec_is_valid_and_checked(),
    {
        !self.poisoned && !self.unchecked
    }

    /// Returns true if the number held is greater than 0. The value must be
    /// valid and checked.
    #[verifier::when_used_as_spec(spec_is_pos)]
    pub fn is_pos(&self) -> (ret: bool)
        requires
            self.is_valid_and_checked(),
        ensures
            ret == self.spec_is_pos(),
    {
        self.val > 0
    }

    /// Marks a value as looked at. The value must not be poisoned: the caller
    /// tests `is_valid` first.
    #[verifier::when_used_as_spec(spec_checked)]
    pub fn checked(self) -> (ret: Self)
        requires
            self.is_valid(),
        ensures
            ret == self.spec_checked(),
            ret.is_valid_and_checked(),
            ret@ == self@,
    {
        SafeU64 { val: self.val, poisoned: self.poisoned, unchecked: false }
    }

    /// The flags of a result of a bitwise operation on `self` and `rhs`:
    /// poison spreads, and so does the need for a check.
    pub open spec fn spec_bitwise(self, rhs: Self, val: u64) -> Self {
        SafeU64 {
            val,
            poisoned: self.poisoned || rhs.poisoned,
            unchecked: self.unchecked || rhs.unchecked,
        }
    }

    /// Returns the bitwise OR of two values.
    pub fn bitor(self, rhs: Self) -> (ret: Self)
        ensures
            ret == self.spec_bitwise(rhs, self.val | rhs.val),
    {
        SafeU64 {
            val: self.val | rhs.val,
            poisoned: self.poisoned || rhs.poisoned,
            unchecked: self.unchecked || rhs.unchecked,
        }
    }

    /// Returns the bitwise AND of two values.
    pub fn bitand(self, rhs: Self) -> (ret: Self)
        ensures
            ret == self.spec_bitwise(rhs, self.val & rhs.val),
    {
        SafeU64 {
            val: self.val & rhs.val,
            poisoned: self.poisoned || rhs.poisoned,
            unchecked: self.unchecked || rhs.unchecked,
        }
    }
}

impl Default for SafeU64 {
    /// Returns a valid, checked 0.
    fn default() -> (ret: Self)
        ensures
            ret == SafeU64::spec_new(0),
    {
        SafeU64 { val: 0, poisoned: false, unchecked: false }
    }
}

/// The low 32 bits of a 64-bit number.
pub open spec fn low_u32(val: u64) -> u32 {
    (val % 0x1_0000_0000) as u32
}

/// The low 16 bits of a 64-bit number.
pub open spec fn low_u16(val: u64) -> u16 {
    (val % 0x1_0000) as u16
}

/// Returns the low 32 bits of a 64-bit value and drops the rest, flags
/// unchanged.
pub fn to_u32_unsafe(val: SafeU64) -> (ret: SafeU32)
    ensures
        ret == (SafeU32 {
            val: low_u32(val.val),
            poisoned: val.poisoned,
            unchecked: val.unchecked,
        }),
{
    let v: u64 = val.val;
    assert(v & 0xFFFF_FFFF == v % 0x1_0000_0000) by (bit_vector);
    SafeU32 { val: (v & 0xFFFF_FFFF) as u32, poisoned: val.poisoned, unchecked: val.unchecked }
}

} // verus!
