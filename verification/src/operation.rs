//! Options shared by every operation that uses member keys.

use vstd::prelude::*;

verus! {

/// Common key-expiration behaviour of an operation.
#[derive(Debug, Clone, Copy, PartialEq, Eq, Structural)]
pub struct OperationOptions {
    allow_expired_key: bool,
}

impl OperationOptions {
    pub closed spec fn allows_expired_key(self) -> bool {
        self.allow_expired_key
    }

    /// Fail-closed options: expired keys are refused.
    pub fn new() -> (o: OperationOptions)
        ensures
            !o.allows_expired_key(),
    {
        OperationOptions { allow_expired_key: false }
    }

    /// Allow or refuse expired keys.
    pub fn with_allow_expired_key(self, allow: bool) -> (o: OperationOptions)
        ensures
            o.allows_expired_key() == allow,
    {
        OperationOptions { allow_expired_key: allow }
    }

    /// Whether expired keys are allowed.
    pub fn allow_expired_key(self) -> (r: bool)
        ensures
            r == self.allows_expired_key(),
    {
        self.allow_expired_key
    }
}

} // verus!
