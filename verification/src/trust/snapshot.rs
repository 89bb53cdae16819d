//! Trust state fixed for one write command: the caller's policy values, the
//! trust context they load, and the recipient trust the write must honour.

use vstd::prelude::*;
use crate::error::{ErrorKind, Result};
use crate::model::PublicKeyClaims;
use crate::operation::OperationOptions;
use crate::trust::evaluation::{
    enforce_write_strict_key_checking, recipient_outcome_from_decision, RecipientTrustOutcome,
    StrictKeyChecking, StrictKeyCheckingResolution, TrustDecision,
};
use crate::trust::policy::KnownKey;

verus! {

/// Policy values the caller resolved before invoking a write service.
#[derive(Debug, Clone, Copy)]
pub struct WriteTrustOptions {
    allow_expired_key: bool,
    review_available: bool,
    strict_key_checking: StrictKeyCheckingResolution,
}

impl WriteTrustOptions {
    pub closed spec fn allow_expired_view(self) -> bool {
        self.allow_expired_key
    }

    pub closed spec fn review_view(self) -> bool {
        self.review_available
    }

    pub closed spec fn strict_view(self) -> StrictKeyCheckingResolution {
        self.strict_key_checking
    }

    /// Options for a write; `strict_key_checking` false records an explicit
    /// opt-out, which writes later refuse.
    pub fn new(allow_expired_key: bool, review_available: bool, strict_key_checking: bool) -> (o:
        WriteTrustOptions)
        ensures
            o.allow_expired_view() == allow_expired_key,
            o.review_view() == review_available,
            o.strict_view().value == (if strict_key_checking {
                StrictKeyChecking::Yes
            } else {
                StrictKeyChecking::No
            }),
    {
        let strict_key_checking = if strict_key_checking {
            StrictKeyCheckingResolution::strict()
        } else {
            StrictKeyCheckingResolution::explicit(StrictKeyChecking::No)
        };
        WriteTrustOptions { allow_expired_key, review_available, strict_key_checking }
    }

    pub fn allow_expired_key(self) -> (r: bool)
        ensures
            r == self.allow_expired_view(),
    {
        self.allow_expired_key
    }

    pub fn review_available(self) -> (r: bool)
        ensures
            r == self.review_view(),
    {
        self.review_available
    }

    pub fn strict_key_checking(self) -> (r: StrictKeyCheckingResolution)
        ensures
            r == self.strict_view(),
    {
        self.strict_key_checking
    }

    /// The operation options these policy values imply.
    pub fn operation_options(self) -> (o: OperationOptions)
        ensures
            o.allows_expired_key() == self.allow_expired_view(),
    {
        OperationOptions::new().with_allow_expired_key(self.allow_expired_key)
    }
}

/// Trust state fixed for a single command.
#[derive(Debug, Clone)]
pub struct TrustContext {
    pub known_keys: Vec<KnownKey>,
    /// The signature-verified active member documents.
    pub active_members: Vec<PublicKeyClaims>,
    pub strict_key_checking: StrictKeyCheckingResolution,
    pub review_available: bool,
}

impl TrustContext {
    /// The context for `options` over the loaded trust state.
    pub fn from_options(
        options: WriteTrustOptions,
        known_keys: Vec<KnownKey>,
        active_members: Vec<PublicKeyClaims>,
    ) -> (c: TrustContext)
        ensures
            c.known_keys@ == known_keys@,
            c.active_members@ == active_members@,
            c.strict_key_checking == options.strict_view(),
            c.review_available == options.review_view(),
    {
        TrustContext {
            known_keys,
            active_members,
            strict_key_checking: options.strict_key_checking(),
            review_available: options.review_available(),
        }
    }
}

/// The trust state of one write command, admitted only with strict key
/// checking in force.
#[derive(Debug, Clone)]
pub struct CommandTrustSnapshot {
    trust_ctx: TrustContext,
    workspace_members: Vec<PublicKeyClaims>,
}

impl CommandTrustSnapshot {
    pub closed spec fn context_view(self) -> TrustContext {
        self.trust_ctx
    }

    pub closed spec fn members_view(self) -> Seq<PublicKeyClaims> {
        self.workspace_members@
    }

    /// Fix the trust context and the member set read through the workspace
    /// the command bound to; a context with strict key checking switched off
    /// is refused.
    pub fn from_trust_context(trust_ctx: TrustContext, workspace_members: Vec<PublicKeyClaims>) -> (r:
        Result<CommandTrustSnapshot>)
        ensures
            r is Ok <==> trust_ctx.strict_key_checking.value != StrictKeyChecking::No,
            r matches Err(e) ==> e.kind == ErrorKind::InvalidOperation,
            r matches Ok(s) ==> s.context_view() == trust_ctx && s.members_view()
                == workspace_members@,
    {
        enforce_write_strict_key_checking(trust_ctx.strict_key_checking)?;
        Ok(CommandTrustSnapshot { trust_ctx, workspace_members })
    }

    pub fn trust_context(&self) -> (c: &TrustContext)
        ensures
            *c == self.context_view(),
    {
        &self.trust_ctx
    }

    pub fn workspace_members(&self) -> (m: &[PublicKeyClaims])
        ensures
            m@ == self.members_view(),
    {
        self.workspace_members.as_slice()
    }
}

/// The recipient trust a write must honour, with its expiry warnings.
pub struct WriteRecipientTrustPlan {
    trust_snapshot: CommandTrustSnapshot,
    recipient_trust: RecipientTrustOutcome,
    warnings: Vec<String>,
}

impl WriteRecipientTrustPlan {
    pub closed spec fn snapshot_view(self) -> CommandTrustSnapshot {
        self.trust_snapshot
    }

    pub closed spec fn recipient_trust_view(self) -> RecipientTrustOutcome {
        self.recipient_trust
    }

    pub closed spec fn warnings_view(self) -> Seq<String> {
        self.warnings@
    }

    /// Plan the write's recipient trust from the preflight decision on its
    /// output recipients, as `recipient_outcome_from_decision` rules with the
    /// context's review availability.
    pub fn from_decision(
        trust_snapshot: CommandTrustSnapshot,
        decision: TrustDecision<()>,
        warnings: Vec<String>,
    ) -> (r: Result<WriteRecipientTrustPlan>)
        ensures
            decision is Trusted ==> (r matches Ok(p) && p.recipient_trust_view() is Accepted),
            r matches Ok(p) ==> p.snapshot_view() == trust_snapshot && p.warnings_view()
                == warnings@,
            !trust_snapshot.context_view().review_available && decision is ReviewRequired ==> r
                is Err,
    {
        let review_available = trust_snapshot.trust_context().review_available;
        let recipient_trust = recipient_outcome_from_decision(decision, review_available)?;
        Ok(WriteRecipientTrustPlan { trust_snapshot, recipient_trust, warnings })
    }

    pub fn trust_context(&self) -> (c: &TrustContext)
        ensures
            *c == self.snapshot_view().context_view(),
    {
        self.trust_snapshot.trust_context()
    }

    pub fn workspace_members(&self) -> (m: &[PublicKeyClaims])
        ensures
            m@ == self.snapshot_view().members_view(),
    {
        self.trust_snapshot.workspace_members()
    }

    pub fn recipient_trust(&self) -> (t: &RecipientTrustOutcome)
        ensures
            *t == self.recipient_trust_view(),
    {
        &self.recipient_trust
    }

    pub fn warnings(&self) -> (w: &[String])
        ensures
            w@ == self.warnings_view(),
    {
        self.warnings.as_slice()
    }
}


/// The review of an output's recipient set: the trust context it is decided
/// in, the set, and the label the prompt shows.
pub struct ArtifactRecipientSetReviewInput<'a> {
    pub trust_ctx: &'a TrustContext,
    pub recipient_set: &'a crate::trust::evaluator::RecipientSetSubject,
    pub context_label: &'a str,
}

} // verus!
