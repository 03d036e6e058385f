//! The outcome of an operation that either works or does not.

use vstd::prelude::*;

verus! {

/// What an operation reports to its caller.
#[derive(Clone, Copy, Debug, PartialEq, Eq, Structural)]
pub enum ErrcType {
    /// The operation did what it was asked to do.
    Success,
    /// The host, or a step of the operation, reported an error.
    Failure,
    /// The operation is not available with this host.
    Unsupported,
}

impl ErrcType {
    pub open spec fn spec_success(&self) -> bool {
        *self == ErrcType::Success
    }

    pub open spec fn spec_failure(&self) -> bool {
        *self != ErrcType::Success
    }

    /// Returns true if the operation worked.
    #[verifier::when_used_as_spec(spec_success)]
    pub fn success(&self) -> (ret: bool)
        ensures
            ret == self.spec_success(),
    {
        matches!(self, ErrcType::Success)
    }

    /// Returns true if the operation did not work, for whatever reason.
    #[verifier::when_used_as_spec(spec_failure)]
    pub fn failure(&self) -> (ret: bool)
        ensures
            ret == self.spec_failure(),
    {
        !matches!(self, ErrcType::Success)
    }
}

/// The exit code of an extension that started.
pub const EXIT_SUCCESS: i32 = 0;

/// The exit code of an extension that could not start.
pub const EXIT_FAILURE: i32 = 1;

} // verus!
