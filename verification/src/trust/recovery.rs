//! Recovery of an invalid local trust store: which failures a reset can
//! recover, when the operator must confirm it, and how failures met while
//! binding the reset are reported.

use vstd::prelude::*;
use crate::error::{
    has_recovery, local_keystore_missing, local_state_path_unsafe, trust_signer_key_missing,
    trust_store_reset_required, Error, ErrorKind, Result,
};
use crate::model::MemberHandle;
use crate::path::{relative_display, DisplayBase};
use crate::text::{owned, push_str};

verus! {

/// Why the local trust store has to be reset.
#[derive(Debug, Clone, Copy, PartialEq, Eq, Structural)]
pub enum TrustStoreResetCause {
    InvalidDocument,
    MissingSignerKey,
}

/// How many approvals a reset would discard. Only a document that still
/// parses can be counted.
#[derive(Debug, Clone, Copy, PartialEq, Eq, Structural)]
pub struct TrustStoreResetLoss {
    pub known_keys: usize,
    pub recipient_sets: usize,
}

/// What one reset did.
#[derive(Debug, Clone)]
pub struct TrustStoreResetOutcome {
    pub path: String,
    /// Whether a stored document was actually removed.
    pub deleted: bool,
}

/// The cause a failure's recovery route names, if a reset can recover it.
pub open spec fn reset_cause_of(e: Error) -> Option<TrustStoreResetCause> {
    if has_recovery(e, trust_store_reset_required()) {
        Some(TrustStoreResetCause::InvalidDocument)
    } else if has_recovery(e, trust_signer_key_missing()) {
        Some(TrustStoreResetCause::MissingSignerKey)
    } else {
        None
    }
}

/// Classify a failure that a reset of the local trust store can recover,
/// by its recovery route alone.
pub fn evaluate_trust_store_reset(error: &Error) -> (r: Option<TrustStoreResetCause>)
    ensures
        r == reset_cause_of(*error),
{
    if error.recovery_is("trust-store-reset-required") {
        Some(TrustStoreResetCause::InvalidDocument)
    } else if error.recovery_is("trust-signer-key-missing") {
        Some(TrustStoreResetCause::MissingSignerKey)
    } else {
        None
    }
}

pub open spec fn confirmation_unavailable_message(e: Error) -> Seq<char> {
    e.message@ + " (caller confirmation is required for trust store reset)"@
}

fn build_confirmation_unavailable_error(error: Error) -> (e: Error)
    ensures
        e.kind == ErrorKind::InvalidOperation,
        e.message@ == confirmation_unavailable_message(error),
{
    let mut message = error.format_user_message();
    push_str(&mut message, " (caller confirmation is required for trust store reset)");
    Error::build_invalid_operation_error(message)
}

/// A reset needs the caller's confirmation; without one, the failure is
/// reported as such.
pub fn require_reset_confirmation(error: Error, confirmation_available: bool) -> (r: Result<Error>)
    ensures
        confirmation_available ==> r == Ok::<Error, Error>(error),
        !confirmation_available ==> (r matches Err(e) && e.kind == ErrorKind::InvalidOperation
            && e.message@ == confirmation_unavailable_message(error)),
{
    if confirmation_available {
        Ok(error)
    } else {
        Err(build_confirmation_unavailable_error(error))
    }
}

/// The failure a reset is offered for, with its cause: a failure no reset
/// recovers is handed back unchanged, and a reset without confirmation is
/// refused.
pub fn build_reset_error(error: Error, confirmation_available: bool) -> (r: Result<
    (Error, TrustStoreResetCause),
>)
    ensures
        reset_cause_of(error) is None ==> r == Err::<(Error, TrustStoreResetCause), Error>(error),
        reset_cause_of(error) matches Some(c) ==> if confirmation_available {
            r == Ok::<(Error, TrustStoreResetCause), Error>((error, c))
        } else {
            r matches Err(e) && e.kind == ErrorKind::InvalidOperation && e.message@
                == confirmation_unavailable_message(error)
        },
{
    let cause = match evaluate_trust_store_reset(&error) {
        Some(c) => c,
        None => {
            return Err(error);
        },
    };
    let error = require_reset_confirmation(error, confirmation_available)?;
    Ok((error, cause))
}

pub open spec fn reset_target_failure_message(blocked: Error, failure: Error) -> Seq<char> {
    blocked.message@ + " The failure it would have reset the store for: "@ + failure.message@
}

/// Keep the failure that prompted the reset offer inside the one that
/// replaced it, keeping an unsafe local state and an I/O fault as what they
/// are.
pub fn build_reset_target_failure_error(blocked: &Error, failure: &Error) -> (e: Error)
    ensures
        e.message@ == reset_target_failure_message(*blocked, *failure),
        has_recovery(*blocked, local_state_path_unsafe()) ==> e.kind == ErrorKind::InvalidOperation
            && has_recovery(e, local_state_path_unsafe()),
        !has_recovery(*blocked, local_state_path_unsafe()) && blocked.kind == ErrorKind::Io ==> e.kind
            == ErrorKind::Io,
        !has_recovery(*blocked, local_state_path_unsafe()) && blocked.kind != ErrorKind::Io ==> e.kind
            == ErrorKind::InvalidOperation && e.recovery is None,
{
    let mut message = blocked.format_user_message();
    push_str(&mut message, " The failure it would have reset the store for: ");
    push_str(&mut message, failure.message.as_str());
    if blocked.recovery_is("local-state-path-unsafe") {
        return Error::build_local_state_path_unsafe_error(message);
    }
    if blocked.kind() == ErrorKind::Io {
        return Error::build_io_error(message);
    }
    Error::build_invalid_operation_error(message)
}

pub open spec fn recovery_conflict_message(shown: Seq<char>) -> Seq<char> {
    "Local trust store '"@ + shown
        + "' changed after the failure that would reset it, so the document to delete is no longer the one that failed. Run the command again."@
}

/// Report a store that moved between the failure and the reset offer.
pub fn build_recovery_conflict_error(base: &DisplayBase, path: &str) -> (e: Error)
    ensures
        e.kind == ErrorKind::InvalidOperation,
        e.message@ == recovery_conflict_message(relative_display(base.cwd(), path@)),
{
    let mut message = owned("Local trust store '");
    push_str(&mut message, base.relative(path).as_str());
    push_str(
        &mut message,
        "' changed after the failure that would reset it, so the document to delete is no longer the one that failed. Run the command again.",
    );
    Error::build_invalid_operation_error(message)
}

/// Report a failure met while binding the reset: an I/O fault or an unsafe
/// local state travels as itself, anything else is the conflict of a store
/// that moved.
pub fn build_reset_conflict_error(error: Error, base: &DisplayBase, path: &str) -> (e: Error)
    ensures
        (error.kind == ErrorKind::Io || has_recovery(error, local_state_path_unsafe())) ==> e
            == error,
        !(error.kind == ErrorKind::Io || has_recovery(error, local_state_path_unsafe())) ==> (e.kind
            == ErrorKind::InvalidOperation && e.message@ == recovery_conflict_message(
            relative_display(base.cwd(), path@),
        )),
{
    if error.kind() == ErrorKind::Io || error.recovery_is("local-state-path-unsafe") {
        return error;
    }
    build_recovery_conflict_error(base, path)
}

/// The name every message about a trust store gives it.
pub fn format_trust_store_name(base: &DisplayBase, path: &str) -> (s: String)
    ensures
        s@ == "Local trust store '"@ + relative_display(base.cwd(), path@) + "'"@,
{
    let mut s = owned("Local trust store '");
    push_str(&mut s, base.relative(path).as_str());
    push_str(&mut s, "'");
    s
}

/// A confirmed plan to reset one local trust store.
#[derive(Debug)]
pub struct TrustStoreResetPlan {
    owner_handle: MemberHandle,
    path: String,
    warning_message: String,
    cause: TrustStoreResetCause,
    loss: Option<TrustStoreResetLoss>,
}

impl TrustStoreResetPlan {
    pub closed spec fn owner_view(self) -> Seq<char> {
        self.owner_handle@
    }

    pub closed spec fn path_view(self) -> Seq<char> {
        self.path@
    }

    pub closed spec fn warning_view(self) -> Seq<char> {
        self.warning_message@
    }

    pub closed spec fn cause_view(self) -> TrustStoreResetCause {
        self.cause
    }

    pub closed spec fn loss_view(self) -> Option<TrustStoreResetLoss> {
        self.loss
    }

    /// The plan for the failure `failure` and its cause, as `build_reset_error`
    /// gave them; the operator is warned with the failure's message.
    pub fn from_failure(
        owner_handle: MemberHandle,
        path: String,
        failure: (Error, TrustStoreResetCause),
        loss: Option<TrustStoreResetLoss>,
    ) -> (p: TrustStoreResetPlan)
        ensures
            p.owner_view() == owner_handle@,
            p.path_view() == path@,
            p.warning_view() == failure.0.message@,
            p.cause_view() == failure.1,
            p.loss_view() == loss,
    {
        let (error, cause) = failure;
        TrustStoreResetPlan {
            owner_handle,
            path,
            warning_message: error.format_user_message(),
            cause,
            loss,
        }
    }

    pub fn path(&self) -> (p: &str)
        ensures
            p@ == self.path_view(),
    {
        self.path.as_str()
    }

    pub fn warning_message(&self) -> (m: &str)
        ensures
            m@ == self.warning_view(),
    {
        self.warning_message.as_str()
    }

    pub fn cause(&self) -> (c: TrustStoreResetCause)
        ensures
            c == self.cause_view(),
    {
        self.cause
    }

    /// How many approvals the deletion would discard, when they can be counted.
    pub fn loss(&self) -> (l: Option<TrustStoreResetLoss>)
        ensures
            l == self.loss_view(),
    {
        self.loss
    }

    /// The member whose trust store the plan resets.
    pub fn owner_handle(&self) -> (h: &MemberHandle)
        ensures
            h@ == self.owner_view(),
    {
        &self.owner_handle
    }

    /// Whether the approvals can be kept another way: a store whose signer
    /// key is merely missing holds intact approvals.
    pub fn has_recovery_route(&self) -> (r: bool)
        ensures
            r == (self.cause_view() == TrustStoreResetCause::MissingSignerKey),
    {
        self.cause == TrustStoreResetCause::MissingSignerKey
    }
}

/// A stored trust store whose bytes would not parse.
pub fn build_unparsable_trust_store_error(message: String) -> (e: Error)
    ensures
        e.kind == ErrorKind::Parse,
        e.message@ == message@,
        has_recovery(e, trust_store_reset_required()),
{
    Error::build_parse_error(message).with_recovery(owned("trust-store-reset-required"))
}

/// A trust store whose signer key the keystore no longer holds.
pub fn build_missing_trust_signer_key_error(message: String) -> (e: Error)
    ensures
        e.kind == ErrorKind::InvalidOperation,
        e.message@ == message@,
        has_recovery(e, trust_signer_key_missing()),
{
    Error::build_invalid_operation_error(message).with_recovery(owned("trust-signer-key-missing"))
}

/// A local keystore that is not there to verify anything against.
pub fn build_local_keystore_missing_error(message: String) -> (e: Error)
    ensures
        e.kind == ErrorKind::InvalidOperation,
        e.message@ == message@,
        has_recovery(e, local_keystore_missing()),
{
    Error::build_invalid_operation_error(message).with_recovery(owned("local-keystore-missing"))
}

/// A failure is offered a reset exactly when its recovery route names one:
/// an unparsable store is reset as an invalid document, a store whose signer
/// key is missing as such, and a missing keystore is never offered a reset.
pub proof fn lemma_reset_follows_recovery_route(e: Error)
    ensures
        has_recovery(e, trust_store_reset_required()) ==> reset_cause_of(e) == Some(
            TrustStoreResetCause::InvalidDocument,
        ),
        has_recovery(e, trust_signer_key_missing()) ==> reset_cause_of(e) == Some(
            TrustStoreResetCause::MissingSignerKey,
        ),
        has_recovery(e, local_keystore_missing()) ==> reset_cause_of(e) is None,
        e.recovery is None ==> reset_cause_of(e) is None,
{
    reveal_strlit("trust-store-reset-required");
    reveal_strlit("trust-signer-key-missing");
    reveal_strlit("local-keystore-missing");
    assert(trust_store_reset_required().len() != trust_signer_key_missing().len());
    assert(trust_store_reset_required().len() != local_keystore_missing().len());
    assert(trust_signer_key_missing()[6] != local_keystore_missing()[6]);
}


/// What executing a purge did to the stored trust document: how many entries
/// it removed, and whether the store was re-signed, which can happen even
/// when nothing was removed.
#[derive(Debug, Clone, Copy, PartialEq, Eq, Structural)]
pub struct PurgeOutcome {
    pub removed: usize,
    pub resigned: bool,
}

} // verus!
