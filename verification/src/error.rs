//! The error type shared by every fallible operation of the library.

use vstd::prelude::*;

verus! {

/// Which rule an error belongs to.
#[derive(Debug, Clone, Copy, PartialEq, Eq, Structural)]
pub enum ErrorKind {
    InvalidArgument,
    Parse,
    Config,
    Io,
    InvalidOperation,
    NotFound,
    Verification,
}

/// A failure, with the rule it belongs to and a message for the operator.
///
/// A verification failure also carries the code that names the exact check
/// that refused the input (`E_TRUST_REJECTED` and the like).
#[derive(Debug, Clone)]
pub struct Error {
    pub kind: ErrorKind,
    pub code: Option<String>,
    pub message: String,
    /// The recovery route attached to the failure, when one exists.
    pub recovery: Option<String>,
}

pub type Result<T> = core::result::Result<T, Error>;

/// The error `e` is of kind `k`.
pub open spec fn error_is(e: Error, k: ErrorKind) -> bool {
    e.kind == k
}

/// The error `e` is a verification failure with the code `code`.
pub open spec fn verification_error_with(e: Error, code: Seq<char>) -> bool {
    &&& e.kind == ErrorKind::Verification
    &&& e.code matches Some(c) && c@ == code
}

/// The result `r` failed with an error of kind `k`.
pub open spec fn fails_with<T>(r: Result<T>, k: ErrorKind) -> bool {
    r matches Err(e) && e.kind == k
}

/// The recovery route of a local trust store that has to be reset.
pub open spec fn trust_store_reset_required() -> Seq<char> {
    "trust-store-reset-required"@
}

/// The recovery route of a trust store whose signer key is missing.
pub open spec fn trust_signer_key_missing() -> Seq<char> {
    "trust-signer-key-missing"@
}

/// The recovery route of a missing local keystore.
pub open spec fn local_keystore_missing() -> Seq<char> {
    "local-keystore-missing"@
}

/// The recovery route of a local state path that is not safe to use.
pub open spec fn local_state_path_unsafe() -> Seq<char> {
    "local-state-path-unsafe"@
}

/// The error `e` carries the recovery route `route`.
pub open spec fn has_recovery(e: Error, route: Seq<char>) -> bool {
    e.recovery matches Some(r) && r@ == route
}

impl Error {
    /// A local state path that is not safe to use.
    pub fn build_local_state_path_unsafe_error(message: String) -> (e: Error)
        ensures
            e.kind == ErrorKind::InvalidOperation,
            e.code is None,
            e.message@ == message@,
            has_recovery(e, local_state_path_unsafe()),
    {
        Error {
            kind: ErrorKind::InvalidOperation,
            code: None,
            message,
            recovery: Some("local-state-path-unsafe".to_string()),
        }
    }

    /// Whether this error carries the recovery route `route`.
    pub fn recovery_is(&self, route: &str) -> (r: bool)
        ensures
            r == has_recovery(*self, route@),
    {
        match &self.recovery {
            Some(s) => {
                let a = s.clone();
                let b = route.to_string();
                a == b
            },
            None => false,
        }
    }

    pub fn build_invalid_argument_error(message: String) -> (e: Error)
        ensures
            e.kind == ErrorKind::InvalidArgument,
            e.code is None,
            e.message@ == message@,
            e.recovery is None,
    {
        Error { kind: ErrorKind::InvalidArgument, code: None, message, recovery: None }
    }

    pub fn build_parse_error(message: String) -> (e: Error)
        ensures
            e.kind == ErrorKind::Parse,
            e.code is None,
            e.message@ == message@,
            e.recovery is None,
    {
        Error { kind: ErrorKind::Parse, code: None, message, recovery: None }
    }

    pub fn build_config_error(message: String) -> (e: Error)
        ensures
            e.kind == ErrorKind::Config,
            e.code is None,
            e.message@ == message@,
            e.recovery is None,
    {
        Error { kind: ErrorKind::Config, code: None, message, recovery: None }
    }

    pub fn build_io_error(message: String) -> (e: Error)
        ensures
            e.kind == ErrorKind::Io,
            e.code is None,
            e.message@ == message@,
            e.recovery is None,
    {
        Error { kind: ErrorKind::Io, code: None, message, recovery: None }
    }

    pub fn build_invalid_operation_error(message: String) -> (e: Error)
        ensures
            e.kind == ErrorKind::InvalidOperation,
            e.code is None,
            e.message@ == message@,
            e.recovery is None,
    {
        Error { kind: ErrorKind::InvalidOperation, code: None, message, recovery: None }
    }

    pub fn build_not_found_error(message: String) -> (e: Error)
        ensures
            e.kind == ErrorKind::NotFound,
            e.code is None,
            e.message@ == message@,
            e.recovery is None,
    {
        Error { kind: ErrorKind::NotFound, code: None, message, recovery: None }
    }

    pub fn build_verification_error(code: String, message: String) -> (e: Error)
        ensures
            e.kind == ErrorKind::Verification,
            e.code matches Some(c) && c@ == code@,
            e.message@ == message@,
            e.recovery is None,
    {
        Error { kind: ErrorKind::Verification, code: Some(code), message, recovery: None }
    }

    /// A copy of this error.
    pub fn duplicate(&self) -> (e: Error)
        ensures
            e == *self,
    {
        Error {
            kind: self.kind,
            code: match &self.code {
                Some(c) => Some(c.clone()),
                None => None,
            },
            message: self.message.clone(),
            recovery: match &self.recovery {
                Some(r) => Some(r.clone()),
                None => None,
            },
        }
    }

    /// Attach a recovery route.
    pub fn with_recovery(self, recovery: String) -> (e: Error)
        ensures
            e.kind == self.kind,
            e.code == self.code,
            e.message == self.message,
            e.recovery matches Some(r) && r@ == recovery@,
    {
        Error { recovery: Some(recovery), ..self }
    }

    /// The recovery route attached to this error, if any.
    pub fn recovery(&self) -> (r: Option<&str>)
        ensures
            match self.recovery {
                Some(s) => r matches Some(t) && t@ == s@,
                None => r is None,
            },
    {
        match &self.recovery {
            Some(s) => Some(s.as_str()),
            None => None,
        }
    }

    /// The rule this error belongs to.
    pub fn kind(&self) -> (k: ErrorKind)
        ensures
            k == self.kind,
    {
        self.kind
    }

    /// The text shown to the operator.
    pub fn format_user_message(&self) -> (s: String)
        ensures
            s@ == self.message@,
    {
        self.message.clone()
    }
}

} // verus!
