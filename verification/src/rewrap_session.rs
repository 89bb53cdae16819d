//! What a rewrap stops on before it may run: the review bound to one
//! artifact, one operation and the trust state it was evaluated against, and
//! the one-shot acceptance of a non-member signer that such a review mints.
//!
//! The rewrap target itself (the directory entry and the file read for the
//! review) belongs to the caller; a review carries it through unchanged as
//! its parameter `P`.

use vstd::prelude::*;
use crate::error::{Error, ErrorKind, Result};
use crate::ids::{new_random_id, random_failure};
use crate::model::{Kid, MemberHandle};
use crate::read::{
    digests_equal, is_target_changed, target_changed, NonMemberReadReview,
    SignerView,
};
use crate::rewrap::RewrapOptions;
use crate::text::owned;
use crate::trust::evaluation::{asks_with_requests, TrustDecision};
use crate::trust::evaluator::{
    same_members, same_state, CurrentMemberSnapshot, ReadTrustReview, TrustPolicyEvaluator,
};
use crate::trust::policy::{
    KnownKeyReview, KnownKeyReviewCandidate, ReadTrustExceptions, TrustReviewRequest,
};

verus! {

/// What kind of artifact a rewrap rewrites.
#[derive(Debug, Clone, Copy, PartialEq, Eq, Structural)]
pub enum RewrapArtifactKind {
    File,
    Kv,
}

/// The operation a rewrap review is bound to: the kind of artifact and the
/// exact rewrap options.
#[derive(Debug, Clone, Copy, PartialEq, Eq, Structural)]
pub struct RewrapOperationBinding {
    pub artifact_kind: RewrapArtifactKind,
    pub options: RewrapOptions,
}

pub open spec fn already_accepted_message() -> Seq<char> {
    "The rewrap non-member review was already accepted"@
}

pub open spec fn no_non_member_message() -> Seq<char> {
    "This rewrap review has no non-member signer"@
}

pub open spec fn signer_changed_message() -> Seq<char> {
    "Reviewed rewrap target or signer changed. Run the command again."@
}

pub open spec fn reused_message() -> Seq<char> {
    "Rewrap non-member acceptance was reused. Run the command again."@
}

pub open spec fn state_changed_message() -> Seq<char> {
    "Rewrap target or trust state changed after review. Run the command again."@
}

pub open spec fn operation_changed_message() -> Seq<char> {
    "Reviewed rewrap artifact or operation changed. Run the command again."@
}

/// Opaque review state for the exact verified non-member signer of a rewrap.
#[derive(Debug)]
pub struct RewrapNonMemberReview {
    review_id: u128,
    digest: [u8; 32],
    operation: RewrapOperationBinding,
    signer: (MemberHandle, Kid),
    candidate: KnownKeyReviewCandidate,
    recipient_handles: Vec<MemberHandle>,
    acceptance_issued: bool,
}

/// `v` is a fresh review of the non-member signer `review` shows, bound to
/// `digest` and the operation, under a review id other than the nil id.
pub open spec fn fresh_review_of(
    v: RewrapNonMemberReview,
    digest: Seq<u8>,
    artifact_kind: RewrapArtifactKind,
    options: RewrapOptions,
    review: NonMemberReadReview,
) -> bool {
    &&& v.digest_view() == digest
    &&& v.operation_view() == (RewrapOperationBinding { artifact_kind, options })
    &&& v.signer_view() == review.identity_view()
    &&& v.candidate_view() == review.candidate_view()
    &&& v.handles_view() == review.handles_view()
    &&& !v.issued()
    &&& v.review_id_view() != 0
}

impl RewrapNonMemberReview {
    pub closed spec fn review_id_view(self) -> u128 {
        self.review_id
    }

    pub closed spec fn digest_view(self) -> Seq<u8> {
        self.digest@
    }

    pub closed spec fn operation_view(self) -> RewrapOperationBinding {
        self.operation
    }

    pub closed spec fn signer_view(self) -> SignerView {
        (self.signer.0@, self.signer.1@)
    }

    pub closed spec fn candidate_view(self) -> KnownKeyReviewCandidate {
        self.candidate
    }

    pub closed spec fn handles_view(self) -> Seq<MemberHandle> {
        self.recipient_handles@
    }

    /// Whether this review already minted its acceptance.
    pub closed spec fn issued(self) -> bool {
        self.acceptance_issued
    }

    /// The review of the non-member signer `review` shows, under a fresh
    /// random review id, bound to `digest` and the operation. It fails only
    /// when no random bytes can be drawn.
    pub fn from_verified(
        digest: [u8; 32],
        artifact_kind: RewrapArtifactKind,
        options: RewrapOptions,
        review: &NonMemberReadReview,
    ) -> (r: Result<RewrapNonMemberReview>)
        ensures
            r matches Ok(v) ==> fresh_review_of(v, digest@, artifact_kind, options, *review),
            r matches Err(e) ==> random_failure(e),
    {
        let review_id = new_random_id()?;
        let handles = review.recipient_handles();
        let mut recipient_handles: Vec<MemberHandle> = Vec::new();
        let mut i: usize = 0;
        while i < handles.len()
            invariant
                i <= handles@.len(),
                recipient_handles@ == handles@.take(i as int),
            decreases handles.len() - i,
        {
            recipient_handles.push(handles[i].duplicate());
            proof {
                assert(recipient_handles@ =~= handles@.take(i + 1));
            }
            i = i + 1;
        }
        proof {
            assert(recipient_handles@ =~= handles@);
        }
        proof {
            crate::ids::lemma_marked_id_is_not_nil(review_id);
        }
        Ok(RewrapNonMemberReview {
            review_id,
            digest,
            operation: RewrapOperationBinding { artifact_kind, options },
            signer: review.identity(),
            candidate: review.candidate().duplicate(),
            recipient_handles,
            acceptance_issued: false,
        })
    }

    /// The cryptographically verified signer candidate, for display.
    pub fn candidate(&self) -> (c: &KnownKeyReviewCandidate)
        ensures
            *c == self.candidate_view(),
    {
        &self.candidate
    }

    /// Display-only recipient handles from the reviewed artifact.
    pub fn recipient_handles(&self) -> (h: &[MemberHandle])
        ensures
            h@ == self.handles_view(),
    {
        self.recipient_handles.as_slice()
    }

    /// Mint the one acceptance of this artifact, operation and signer.
    pub fn accept_non_member(&mut self) -> (r: Result<RewrapAcceptance>)
        ensures
            r is Ok <==> !old(self).issued(),
            final(self).issued(),
            same_review(*old(self), *final(self)),
            r matches Ok(a) ==> minted_by(a, *old(self)),
            r matches Err(e) ==> e.kind == ErrorKind::InvalidOperation && e.message@
                == already_accepted_message(),
    {
        if self.acceptance_issued {
            return Err(
                Error::build_invalid_operation_error(
                    owned("The rewrap non-member review was already accepted"),
                ),
            );
        }
        self.acceptance_issued = true;
        Ok(
            RewrapAcceptance {
                review_id: self.review_id,
                digest: self.digest,
                operation: self.operation,
                signer: (self.signer.0.duplicate(), self.signer.1.duplicate()),
            },
        )
    }
}

/// `after` is `before` with at most its acceptance marked as issued.
pub open spec fn same_review(before: RewrapNonMemberReview, after: RewrapNonMemberReview) -> bool {
    &&& after.review_id_view() == before.review_id_view()
    &&& after.digest_view() == before.digest_view()
    &&& after.operation_view() == before.operation_view()
    &&& after.signer_view() == before.signer_view()
    &&& after.candidate_view() == before.candidate_view()
    &&& after.handles_view() == before.handles_view()
}

/// `a` names exactly the review, artifact, operation and signer of `review`.
pub open spec fn minted_by(a: RewrapAcceptance, review: RewrapNonMemberReview) -> bool {
    &&& a.review_id_view() == review.review_id_view()
    &&& a.digest_view() == review.digest_view()
    &&& a.operation_view() == review.operation_view()
    &&& a.signer_view() == review.signer_view()
}

/// `a` admits the signer `signer` of the artifact `digest` under
/// `operation`; the nil review id admits nothing.
pub open spec fn admits(
    a: RewrapAcceptance,
    digest: Seq<u8>,
    operation: RewrapOperationBinding,
    signer: SignerView,
) -> bool {
    &&& a.review_id_view() != 0
    &&& a.digest_view() == digest
    &&& a.operation_view() == operation
    &&& a.signer_view() == signer
}

/// One call of `accept_non_member` took the review from `before` to
/// `after`, minting an acceptance or not.
pub open spec fn accept_step(before: RewrapNonMemberReview, after: RewrapNonMemberReview, minted: bool) -> bool {
    &&& minted <==> !before.issued()
    &&& after.issued()
    &&& same_review(before, after)
}

/// A rewrap review accepts its non-member signer at most once: after an
/// acceptance was minted, every further call is refused.
pub proof fn lemma_rewrap_acceptance_is_one_shot(
    first: RewrapNonMemberReview,
    second: RewrapNonMemberReview,
    third: RewrapNonMemberReview,
    minted_again: bool,
)
    requires
        accept_step(first, second, true),
        accept_step(second, third, minted_again),
    ensures
        !minted_again,
{
}

/// An acceptance admits exactly what its review showed: the artifact, the
/// operation and the signer of the review that minted it. The nil id admits
/// nothing, and `from_verified` never draws it.
pub proof fn lemma_minted_acceptance_admits_its_signer(
    a: RewrapAcceptance,
    review: RewrapNonMemberReview,
    digest: Seq<u8>,
    operation: RewrapOperationBinding,
    signer: SignerView,
)
    requires
        minted_by(a, review),
    ensures
        admits(a, digest, operation, signer) <==> (review.review_id_view() != 0
            && digest == review.digest_view() && operation == review.operation_view() && signer
            == review.signer_view()),
{
}

/// A one-shot acceptance, minted only from a verified rewrap review.
#[derive(Debug)]
pub struct RewrapAcceptance {
    review_id: u128,
    digest: [u8; 32],
    operation: RewrapOperationBinding,
    signer: (MemberHandle, Kid),
}

impl RewrapAcceptance {
    pub closed spec fn review_id_view(self) -> u128 {
        self.review_id
    }

    pub closed spec fn digest_view(self) -> Seq<u8> {
        self.digest@
    }

    pub closed spec fn operation_view(self) -> RewrapOperationBinding {
        self.operation
    }

    pub closed spec fn signer_view(self) -> SignerView {
        (self.signer.0@, self.signer.1@)
    }

    /// A copy of this acceptance, kept for a later evaluation.
    pub fn duplicate(&self) -> (r: RewrapAcceptance)
        ensures
            r == *self,
    {
        RewrapAcceptance {
            review_id: self.review_id,
            digest: self.digest,
            operation: self.operation,
            signer: (self.signer.0.duplicate(), self.signer.1.duplicate()),
        }
    }

    /// The signer this acceptance admits, provided it was minted for the
    /// artifact `digest`, this operation and the signer `candidate`.
    pub fn validate(
        self,
        digest: [u8; 32],
        artifact_kind: RewrapArtifactKind,
        options: RewrapOptions,
        candidate: &KnownKeyReviewCandidate,
    ) -> (r: Result<(MemberHandle, Kid)>)
        ensures
            r is Ok <==> admits(
                self,
                digest@,
                (RewrapOperationBinding { artifact_kind, options }),
                (candidate.handle_view(), candidate.kid_view()),
            ),
            r matches Ok(s) ==> s.0@ == candidate.handle_view() && s.1@ == candidate.kid_view(),
            r matches Err(e) ==> is_target_changed(e) && e.message@ == signer_changed_message(),
    {
        let handle = candidate.subject_handle().duplicate();
        let kid = candidate.kid().duplicate();
        if self.review_id != 0 && digests_equal(&self.digest, &digest) && self.operation
            == (RewrapOperationBinding { artifact_kind, options }) && self.signer.0.same(&handle)
            && self.signer.1.same(&kid) {
            return Ok((handle, kid));
        }
        Err(target_changed("Reviewed rewrap target or signer changed. Run the command again."))
    }
}

/// The acceptance an evaluation resumes with: `Some(a)` for a usable pair of
/// supplied and retained acceptances, `None` for a refused one. One of the
/// two may be present, and only with the review id the review expects.
pub open spec fn session_acceptance(
    supplied: Option<RewrapAcceptance>,
    retained: Option<RewrapAcceptance>,
    expected: Option<u128>,
) -> Option<Option<RewrapAcceptance>> {
    match (supplied, retained) {
        (None, None) => Some(None),
        (Some(_), Some(_)) => None,
        (Some(a), None) => if expected == Some(a.review_id_view()) {
            Some(Some(a))
        } else {
            None
        },
        (None, Some(a)) => if expected == Some(a.review_id_view()) {
            Some(Some(a))
        } else {
            None
        },
    }
}

/// The acceptance one evaluation of a rewrap runs with.
///
/// An acceptance supplied now and one retained from an earlier evaluation
/// cannot both be used; the one that is used must carry the review id the
/// review expects.
pub fn resolve_session_acceptance(
    supplied: Option<RewrapAcceptance>,
    retained: Option<RewrapAcceptance>,
    expected_review_id: Option<u128>,
) -> (r: Result<Option<RewrapAcceptance>>)
    ensures
        match session_acceptance(supplied, retained, expected_review_id) {
            Some(a) => r == Ok::<Option<RewrapAcceptance>, Error>(a),
            None => r matches Err(e) && is_target_changed(e),
        },
        supplied is Some && retained is Some ==> (r matches Err(e) && e.message@ == reused_message()),
        !(supplied is Some && retained is Some) ==> (r matches Err(e) ==> e.message@
            == state_changed_message()),
{
    let acceptance = match (supplied, retained) {
        (Some(acceptance), None) => acceptance,
        (None, Some(acceptance)) => acceptance,
        (None, None) => {
            return Ok(None);
        },
        (Some(_), Some(_)) => {
            return Err(
                target_changed("Rewrap non-member acceptance was reused. Run the command again."),
            );
        },
    };
    match expected_review_id {
        Some(id) => {
            if id == acceptance.review_id {
                return Ok(Some(acceptance));
            }
        },
        None => {},
    }
    Err(target_changed("Rewrap target or trust state changed after review. Run the command again."))
}

/// Opaque review state bound to one artifact, the exact rewrap options and
/// the trust state it was evaluated against.
pub struct RewrapReview<P> {
    target: P,
    digest: [u8; 32],
    operation: RewrapOperationBinding,
    requests: Vec<TrustReviewRequest>,
    first_request_is_signer: bool,
    non_member: Option<RewrapNonMemberReview>,
    accepted_non_member: Option<RewrapAcceptance>,
    input_state: TrustPolicyEvaluator,
    post_promotion_members: Option<CurrentMemberSnapshot>,
}

/// What a rewrap's evaluation led to: the authorized input, or the review
/// the caller must settle first.
pub enum RewrapSessionDecision<T, P> {
    Authorized(T),
    ReviewRequired(Box<RewrapReview<P>>),
}

/// Where preparing a rewrap's review ends: nothing to review, so the target
/// goes on to authorization, or a review.
pub enum PreparedRewrapReview<P> {
    Ready(P),
    Review(Box<RewrapReview<P>>),
}

/// A review resumes on what was read again: the artifact `digest` and the
/// `operation` it was begun on, the trust state and members it was decided
/// against, and a usable acceptance.
pub open spec fn resumes<P>(
    rv: RewrapReview<P>,
    digest: Seq<u8>,
    operation: RewrapOperationBinding,
    input: TrustPolicyEvaluator,
    live_members: CurrentMemberSnapshot,
    acceptance: Option<RewrapAcceptance>,
) -> bool {
    &&& rv.digest_view() == digest
    &&& rv.operation_view() == operation
    &&& same_state(rv.input_view(), input)
    &&& (rv.post_members_view() matches Some(m) ==> same_members(
        m.members_view(),
        live_members.members_view(),
    ))
    &&& session_acceptance(acceptance, rv.accepted_view(), rv.expected_id()) is Some
}

/// A rewrap resumes only on the artifact and the operation (and so the
/// options) it was begun on; an acceptance supplied while the review already
/// retains one is refused as reused; and a supplied acceptance is honoured
/// only when it carries the review id the review was issued with.
pub proof fn lemma_resume_needs_what_was_reviewed<P>(
    rv: RewrapReview<P>,
    digest: Seq<u8>,
    operation: RewrapOperationBinding,
    input: TrustPolicyEvaluator,
    live_members: CurrentMemberSnapshot,
    acceptance: Option<RewrapAcceptance>,
)
    ensures
        resumes(rv, digest, operation, input, live_members, acceptance) ==> digest
            == rv.digest_view() && operation == rv.operation_view(),
        acceptance is Some && rv.accepted_view() is Some ==> !resumes(
            rv,
            digest,
            operation,
            input,
            live_members,
            acceptance,
        ),
        resumes(rv, digest, operation, input, live_members, acceptance) ==> (acceptance matches Some(
            a,
        ) ==> rv.expected_id() == Some(a.review_id_view())),
{
}

impl<P> RewrapReview<P> {
    pub closed spec fn target_view(self) -> P {
        self.target
    }

    pub closed spec fn digest_view(self) -> Seq<u8> {
        self.digest@
    }

    pub closed spec fn operation_view(self) -> RewrapOperationBinding {
        self.operation
    }

    pub closed spec fn requests_view(self) -> Seq<TrustReviewRequest> {
        self.requests@
    }

    pub closed spec fn signer_first_view(self) -> bool {
        self.first_request_is_signer
    }

    pub closed spec fn non_member_view(self) -> Option<RewrapNonMemberReview> {
        self.non_member
    }

    pub closed spec fn accepted_view(self) -> Option<RewrapAcceptance> {
        self.accepted_non_member
    }

    pub closed spec fn input_view(self) -> TrustPolicyEvaluator {
        self.input_state
    }

    pub closed spec fn post_members_view(self) -> Option<CurrentMemberSnapshot> {
        self.post_promotion_members
    }

    /// The review id an acceptance must carry to resume this review: that
    /// of its non-member review, else that of the acceptance it retained.
    pub open spec fn expected_id(self) -> Option<u128> {
        match self.non_member_view() {
            Some(n) => Some(n.review_id_view()),
            None => match self.accepted_view() {
                Some(a) => Some(a.review_id_view()),
                None => None,
            },
        }
    }

    /// The trust requests to persist before resuming.
    pub fn requests(&self) -> (r: &[TrustReviewRequest])
        ensures
            r@ == self.requests_view(),
    {
        self.requests.as_slice()
    }

    /// Whether the first pending known-key request is about the signer.
    pub fn first_request_is_signer(&self) -> (r: bool)
        ensures
            r == self.signer_first_view(),
    {
        self.first_request_is_signer
    }

    /// The verified non-member signer review, for display.
    pub fn non_member_signer(&self) -> (r: Option<&RewrapNonMemberReview>)
        ensures
            match self.non_member_view() {
                Some(n) => r == Some(&n),
                None => r is None,
            },
    {
        match &self.non_member {
            Some(n) => Some(n),
            None => None,
        }
    }

    /// Replace the trust state a review stands on, after an approval of one
    /// of its requests was persisted.
    pub fn set_input_state(&mut self, input_state: TrustPolicyEvaluator)
        ensures
            final(self).input_view() == input_state,
            final(self).target_view() == old(self).target_view(),
            final(self).digest_view() == old(self).digest_view(),
            final(self).operation_view() == old(self).operation_view(),
            final(self).requests_view() == old(self).requests_view(),
            final(self).signer_first_view() == old(self).signer_first_view(),
            final(self).non_member_view() == old(self).non_member_view(),
            final(self).accepted_view() == old(self).accepted_view(),
            final(self).post_members_view() == old(self).post_members_view(),
    {
        self.input_state = input_state;
    }

    /// Mint one acceptance for the exact signer, artifact and operation.
    pub fn accept_non_member(&mut self) -> (r: Result<RewrapAcceptance>)
        ensures
            r is Ok <==> (old(self).non_member_view() matches Some(n) && !n.issued()),
            old(self).non_member_view() is None ==> (r matches Err(e) && e.kind
                == ErrorKind::InvalidOperation && e.message@ == no_non_member_message()
                && final(self).non_member_view() is None),
            old(self).non_member_view() matches Some(n) ==> (final(self).non_member_view() matches Some(m)
                && m.issued() && same_review(n, m) && match r {
                Ok(a) => minted_by(a, n),
                Err(e) => e.kind == ErrorKind::InvalidOperation && e.message@
                    == already_accepted_message(),
            }),
            final(self).target_view() == old(self).target_view(),
            final(self).digest_view() == old(self).digest_view(),
            final(self).operation_view() == old(self).operation_view(),
            final(self).requests_view() == old(self).requests_view(),
            final(self).accepted_view() == old(self).accepted_view(),
            final(self).input_view() == old(self).input_view(),
            final(self).post_members_view() == old(self).post_members_view(),
    {
        match &mut self.non_member {
            Some(n) => n.accept_non_member(),
            None => Err(
                Error::build_invalid_operation_error(
                    owned("This rewrap review has no non-member signer"),
                ),
            ),
        }
    }

    /// Refuse to resume on another artifact or operation than the reviewed one.
    pub fn validate(&self, digest: [u8; 32], operation: RewrapOperationBinding) -> (r: Result<()>)
        ensures
            r is Ok <==> (self.digest_view() == digest@ && self.operation_view() == operation),
            r matches Err(e) ==> is_target_changed(e) && e.message@ == operation_changed_message(),
    {
        if digests_equal(&self.digest, &digest) && self.operation == operation {
            return Ok(());
        }
        Err(target_changed("Reviewed rewrap artifact or operation changed. Run the command again."))
    }

    /// Refuse to resume once the trust state or the members changed: the
    /// evaluator `input` must decide as the reviewed one did, and the live
    /// members must be those the review saw after promotion.
    pub fn validate_state(
        &self,
        input: &TrustPolicyEvaluator,
        post_promotion_members: &CurrentMemberSnapshot,
    ) -> (r: Result<()>)
        ensures
            r is Ok <==> (same_state(self.input_view(), *input) && (self.post_members_view() matches Some(
                m,
            ) ==> same_members(m.members_view(), post_promotion_members.members_view()))),
            r matches Err(e) ==> is_target_changed(e) && e.message@ == state_changed_message(),
    {
        let input_matches = self.input_state.matches_state(input);
        let post_matches = match &self.post_promotion_members {
            Some(reviewed) => reviewed.same_members_as(post_promotion_members),
            None => true,
        };
        if input_matches && post_matches {
            return Ok(());
        }
        Err(target_changed("Rewrap target or trust state changed after review. Run the command again."))
    }

    /// The review id an acceptance must carry to resume this review.
    pub fn expected_acceptance_review_id(&self) -> (r: Option<u128>)
        ensures
            r == self.expected_id(),
    {
        match &self.non_member {
            Some(review) => Some(review.review_id),
            None => match &self.accepted_non_member {
                Some(acceptance) => Some(acceptance.review_id),
                None => None,
            },
        }
    }

    /// Resume the review on what was read again: the artifact `digest`, the
    /// `operation`, the input evaluator and the live members. On success it
    /// gives back the target and the acceptance the next evaluation runs with.
    pub fn resume(
        self,
        digest: [u8; 32],
        operation: RewrapOperationBinding,
        input: &TrustPolicyEvaluator,
        live_members: &CurrentMemberSnapshot,
        acceptance: Option<RewrapAcceptance>,
    ) -> (r: Result<(P, Option<RewrapAcceptance>)>)
        ensures
            !(self.digest_view() == digest@ && self.operation_view() == operation) ==> (r matches Err(
                e,
            ) && is_target_changed(e) && e.message@ == operation_changed_message()),
            self.digest_view() == digest@ && self.operation_view() == operation && !(same_state(
                self.input_view(),
                *input,
            ) && (self.post_members_view() matches Some(m) ==> same_members(
                m.members_view(),
                live_members.members_view(),
            ))) ==> (r matches Err(e) && is_target_changed(e) && e.message@
                == state_changed_message()),
            r is Ok <==> resumes(self, digest@, operation, *input, *live_members, acceptance),
            r matches Ok(x) ==> x.0 == self.target_view() && Some(x.1) == session_acceptance(
                acceptance,
                self.accepted_view(),
                self.expected_id(),
            ),
            r matches Err(e) ==> is_target_changed(e),
    {
        self.validate(digest, operation)?;
        self.validate_state(input, live_members)?;
        let expected = self.expected_acceptance_review_id();
        let resolved = resolve_session_acceptance(acceptance, self.accepted_non_member, expected)?;
        Ok((self.target, resolved))
    }
}

pub open spec fn signer_trust_changed_message() -> Seq<char> {
    "Reviewed rewrap signer trust changed. Run the command again."@
}

/// The exceptions a rewrap's input is evaluated under.
///
/// Without an acceptance there are none. With one, `input_review` (the
/// input's read review, made with known-key review required and a
/// non-member signer allowed) must still show a non-member signer, and the
/// acceptance must admit exactly that signer of this artifact and operation.
pub fn rewrap_exceptions(
    acceptance: Option<RewrapAcceptance>,
    input_review: Result<ReadTrustReview>,
    digest: [u8; 32],
    artifact_kind: RewrapArtifactKind,
    options: RewrapOptions,
) -> (r: Result<ReadTrustExceptions>)
    ensures
        acceptance is None ==> (r matches Ok(ex) && ex.review_view() == KnownKeyReview::Required
            && ex.accepted_view() is None),
        acceptance matches Some(a) ==> match input_review {
            Err(e) => r == Err::<ReadTrustExceptions, Error>(e),
            Ok(review) => match review.non_member_signer {
                None => r matches Err(e) && is_target_changed(e) && e.message@
                    == signer_trust_changed_message(),
                Some(n) => if admits(
                    a,
                    digest@,
                    (RewrapOperationBinding { artifact_kind, options }),
                    n.identity_view(),
                ) {
                    r matches Ok(ex) && ex.review_view() == KnownKeyReview::Required
                        && ex.accepted_view() == Some(n.identity_view())
                } else {
                    r matches Err(e) && is_target_changed(e) && e.message@
                        == signer_changed_message()
                },
            },
        },
{
    let acceptance = match acceptance {
        Some(a) => a,
        None => {
            return Ok(ReadTrustExceptions::none());
        },
    };
    let review = input_review?;
    let non_member = match &review.non_member_signer {
        Some(n) => n,
        None => {
            return Err(
                target_changed("Reviewed rewrap signer trust changed. Run the command again."),
            );
        },
    };
    let signer = acceptance.validate(digest, artifact_kind, options, non_member.candidate())?;
    Ok(ReadTrustExceptions::none().accepting_non_member(signer.0, signer.1))
}

/// The acceptance a review's own non-member review minted is the one its
/// resumption runs with, when no other acceptance was retained.
pub proof fn lemma_minted_acceptance_resumes<P>(rv: RewrapReview<P>, a: RewrapAcceptance)
    requires
        rv.non_member_view() matches Some(n) && minted_by(a, n),
        rv.accepted_view() is None,
    ensures
        session_acceptance(Some(a), rv.accepted_view(), rv.expected_id()) == Some(Some(a)),
{
}

/// Prepare the review a rewrap shows before it is authorized.
///
/// `input_review` is the read review of the artifact under the input
/// evaluator. A non-member signer to accept is shown alone, under a new
/// review. Otherwise the input's requests (or its recipient check's failure)
/// come first, then `output_requests`, the outcome of checking the output
/// recipients; with nothing pending the target goes on to authorization.
pub fn prepare_review<P>(
    input_review: ReadTrustReview,
    target: P,
    digest: [u8; 32],
    operation: RewrapOperationBinding,
    input_state: TrustPolicyEvaluator,
    post_promotion_members: CurrentMemberSnapshot,
    output_requests: Result<Vec<TrustReviewRequest>>,
) -> (r: Result<PreparedRewrapReview<P>>)
    ensures
        input_review.non_member_signer matches Some(n) ==> (r matches Err(e) && random_failure(e)) || (r matches Ok(PreparedRewrapReview::Review(rv))
            && rv.target_view() == target && rv.digest_view() == digest@ && rv.operation_view()
            == operation && rv.requests_view().len() == 0 && !rv.signer_first_view()
            && rv.accepted_view() is None && rv.input_view() == input_state
            && rv.post_members_view() == Some(post_promotion_members) && (rv.non_member_view() matches Some(
            m,
        ) && !m.issued() && m.digest_view() == digest@ && m.operation_view() == operation
            && m.signer_view() == n.identity_view() && m.candidate_view() == n.candidate_view()
            && m.handles_view() == n.handles_view())),
        input_review.non_member_signer is None ==> match input_review.recipient_error {
            Some(e) => r == Err::<PreparedRewrapReview<P>, Error>(e),
            None => match output_requests {
                Err(e) => r == Err::<PreparedRewrapReview<P>, Error>(e),
                Ok(out) => if input_review.requests@.len() + out@.len() == 0 {
                    r matches Ok(PreparedRewrapReview::Ready(t)) && t == target
                } else {
                    r matches Ok(PreparedRewrapReview::Review(rv)) && rv.target_view() == target
                        && rv.digest_view() == digest@ && rv.operation_view() == operation
                        && rv.requests_view() == input_review.requests@ + out@
                        && rv.signer_first_view() == (input_review.signer_request_count > 0)
                        && rv.non_member_view() is None && rv.accepted_view() is None
                        && rv.input_view() == input_state && rv.post_members_view() == Some(
                        post_promotion_members,
                    )
                },
            },
        },
{
    let first_request_is_signer = input_review.first_request_is_signer();
    if let Some(review) = &input_review.non_member_signer {
        let non_member = RewrapNonMemberReview::from_verified(
            digest,
            operation.artifact_kind,
            operation.options,
            review,
        )?;
        return Ok(
            PreparedRewrapReview::Review(
                Box::new(
                    RewrapReview {
                        target,
                        digest,
                        operation,
                        requests: Vec::new(),
                        first_request_is_signer: false,
                        non_member: Some(non_member),
                        accepted_non_member: None,
                        input_state,
                        post_promotion_members: Some(post_promotion_members),
                    },
                ),
            ),
        );
    }
    let mut requests = input_review.into_recipient_requests()?;
    let mut output = output_requests?;
    let ghost before = requests@;
    let ghost out = output@;
    requests.append(&mut output);
    proof {
        assert(requests@ =~= before + out);
    }
    if requests.len() == 0 {
        return Ok(PreparedRewrapReview::Ready(target));
    }
    Ok(
        PreparedRewrapReview::Review(
            Box::new(
                RewrapReview {
                    target,
                    digest,
                    operation,
                    requests,
                    first_request_is_signer,
                    non_member: None,
                    accepted_non_member: None,
                    input_state,
                    post_promotion_members: Some(post_promotion_members),
                },
            ),
        ),
    )
}

/// The session's answer to one trust decision on a rewrap: an authorized
/// input travels on with its publish target; a review keeps the requests,
/// the retained acceptance and the state they were evaluated against.
pub fn into_session_decision<A, P>(
    decision: TrustDecision<A>,
    digest: [u8; 32],
    operation: RewrapOperationBinding,
    accepted_non_member: Option<RewrapAcceptance>,
    publish_target: P,
    input_state: TrustPolicyEvaluator,
    post_promotion_members: CurrentMemberSnapshot,
) -> (r: Result<RewrapSessionDecision<(A, P), P>>)
    requires
        asks_with_requests(decision),
    ensures
        r matches Ok(RewrapSessionDecision::ReviewRequired(rv)) ==> rv.requests_view().len() > 0,
        match decision {
            TrustDecision::Trusted(a) => r matches Ok(RewrapSessionDecision::Authorized(x)) && x.0
                == a && x.1 == publish_target,
            TrustDecision::ReviewRequired(requests) => r matches Ok(
                RewrapSessionDecision::ReviewRequired(rv),
            ) && rv.target_view() == publish_target && rv.digest_view() == digest@
                && rv.operation_view() == operation && rv.requests_view() == requests@
                && !rv.signer_first_view() && rv.non_member_view() is None && rv.accepted_view()
                == accepted_non_member && rv.input_view() == input_state && rv.post_members_view()
                == Some(post_promotion_members),
        },
{
    match decision {
        TrustDecision::Trusted(authorized) => Ok(
            RewrapSessionDecision::Authorized((authorized, publish_target)),
        ),
        TrustDecision::ReviewRequired(requests) => Ok(
            RewrapSessionDecision::ReviewRequired(
                Box::new(
                    RewrapReview {
                        target: publish_target,
                        digest,
                        operation,
                        requests,
                        first_request_is_signer: false,
                        non_member: None,
                        accepted_non_member,
                        input_state,
                        post_promotion_members: Some(post_promotion_members),
                    },
                ),
            ),
        ),
    }
}

} // verus!
