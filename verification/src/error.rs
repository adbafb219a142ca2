//! The one way in which an operation fails.

use vstd::prelude::*;

verus! {

/// A failure that the operating system reported for a call.
#[derive(Clone, Copy, Debug, PartialEq, Eq, Structural)]
pub enum SystemError {
    /// The native call did not succeed; `code` is the error code that the
    /// operating system reported last.
    SystemCallFailure { code: i32 },
}

impl SystemError {
    /// The error code as the operating system gave it.
    pub open spec fn spec_code(self) -> i32 {
        match self {
            SystemError::SystemCallFailure { code } => code,
        }
    }

    /// The error code as the operating system gave it.
    #[verifier::when_used_as_spec(spec_code)]
    pub fn code(self) -> (code: i32)
        ensures
            code == self.spec_code(),
    {
        match self {
            SystemError::SystemCallFailure { code } => code,
        }
    }
}

} // verus!
