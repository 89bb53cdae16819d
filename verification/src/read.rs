//! Reading a secret under trust: the value a read was authorized for, the
//! review a read stops on, and the one-shot acceptance of a non-member signer
//! that is bound to the exact review, target and signer it was shown.

use vstd::prelude::*;
use crate::error::{Error, ErrorKind, Result};
use crate::ids::new_random_id;
use crate::model::{text_eq, Kid, MemberHandle};
use crate::text::{owned, push_str};
use crate::trust::evaluation::TrustDecision;
use crate::trust::evaluator::ReadTrustReview;
use crate::trust::policy::{
    KnownKeyReview, KnownKeyReviewCandidate, ReadTrustExceptions, TrustReviewRequest,
};

verus! {

/// A trust-authorized value with the recipient key ids left unresolved by
/// the same evaluation.
pub struct AuthorizedRead<T> {
    value: T,
    unresolved_recipient_kids: Vec<Kid>,
}

impl<T> AuthorizedRead<T> {
    pub closed spec fn value_view(self) -> T {
        self.value
    }

    pub closed spec fn unresolved_view(self) -> Seq<Kid> {
        self.unresolved_recipient_kids@
    }

    pub fn new(value: T, unresolved_recipient_kids: Vec<Kid>) -> (r: AuthorizedRead<T>)
        ensures
            r.value_view() == value,
            r.unresolved_view() == unresolved_recipient_kids@,
    {
        AuthorizedRead { value, unresolved_recipient_kids }
    }

    /// The trust-authorized value.
    pub fn value(&self) -> (v: &T)
        ensures
            *v == self.value_view(),
    {
        &self.value
    }

    /// Consume the result and return the trust-authorized value.
    pub fn into_value(self) -> (v: T)
        ensures
            v == self.value_view(),
    {
        self.value
    }

    /// The recipient key ids left unresolved during authorization.
    pub fn unresolved_recipient_kids(&self) -> (k: &[Kid])
        ensures
            k@ == self.unresolved_view(),
    {
        self.unresolved_recipient_kids.as_slice()
    }
}

/// Displayable identity of a cryptographically verified non-member signer.
#[derive(Debug, Clone)]
pub struct NonMemberReadReview {
    candidate: KnownKeyReviewCandidate,
    recipient_handles: Vec<MemberHandle>,
}

/// The identity an acceptance names: member handle and key id.
pub type SignerView = (Seq<char>, Seq<char>);

impl NonMemberReadReview {
    pub closed spec fn candidate_view(self) -> KnownKeyReviewCandidate {
        self.candidate
    }

    pub closed spec fn handles_view(self) -> Seq<MemberHandle> {
        self.recipient_handles@
    }

    /// The member handle and key id of the signer.
    pub open spec fn identity_view(self) -> SignerView {
        (self.candidate_view().handle_view(), self.candidate_view().kid_view())
    }

    pub fn new(candidate: KnownKeyReviewCandidate, recipient_handles: Vec<MemberHandle>) -> (r:
        NonMemberReadReview)
        ensures
            r.candidate_view() == candidate,
            r.handles_view() == recipient_handles@,
    {
        NonMemberReadReview { candidate, recipient_handles }
    }

    /// The cryptographically verified signer candidate.
    pub fn candidate(&self) -> (c: &KnownKeyReviewCandidate)
        ensures
            *c == self.candidate_view(),
    {
        &self.candidate
    }

    /// Display-only recipient handles captured from the artifact.
    pub fn recipient_handles(&self) -> (h: &[MemberHandle])
        ensures
            h@ == self.handles_view(),
    {
        self.recipient_handles.as_slice()
    }

    pub(crate) fn identity(&self) -> (r: (MemberHandle, Kid))
        ensures
            (r.0@, r.1@) == self.identity_view(),
    {
        (self.candidate.subject_handle().duplicate(), self.candidate.kid().duplicate())
    }
}

/// What kind of target a read reads.
#[derive(Debug, Clone, Copy, PartialEq, Eq, Structural)]
pub enum ReadTargetKind {
    File,
    Kv,
}

/// The read operation a review is bound to: the kind of target and its name.
#[derive(Debug, Clone)]
pub struct ReadOperationBinding {
    pub kind: ReadTargetKind,
    pub name: String,
}

/// Two operation bindings name the same operation.
pub open spec fn same_operation(a: ReadOperationBinding, b: ReadOperationBinding) -> bool {
    a.kind == b.kind && a.name@ == b.name@
}

fn operation_eq(a: &ReadOperationBinding, b: &ReadOperationBinding) -> (r: bool)
    ensures
        r == same_operation(*a, *b),
{
    a.kind == b.kind && text_eq(a.name.as_str(), b.name.as_str())
}

/// The review, target and operation a read review is bound to.
#[derive(Debug, Clone)]
pub struct ReadReviewBinding {
    pub review_id: u128,
    pub digest: [u8; 32],
    pub operation: ReadOperationBinding,
}

impl ReadReviewBinding {
    /// Bind a new review, under a fresh random id, to `digest` and
    /// `operation`; it fails only when no random bytes can be drawn.
    pub fn new(digest: [u8; 32], operation: ReadOperationBinding) -> (r: Result<ReadReviewBinding>)
        ensures
            r matches Ok(b) ==> b.digest@ == digest@ && b.operation == operation && b.review_id != 0,
            r matches Err(e) ==> crate::ids::random_failure(e),
    {
        let review_id = new_random_id()?;
        proof {
            crate::ids::lemma_marked_id_is_not_nil(review_id);
        }
        Ok(ReadReviewBinding { review_id, digest, operation })
    }
}

/// A one-shot acceptance of a non-member signer, minted only by a review.
#[derive(Debug)]
pub struct ReadAcceptance {
    review_id: u128,
    digest: [u8; 32],
    operation: ReadOperationBinding,
    signer: (MemberHandle, Kid),
}

impl ReadAcceptance {
    pub closed spec fn review_id_view(self) -> u128 {
        self.review_id
    }

    pub closed spec fn digest_view(self) -> Seq<u8> {
        self.digest@
    }

    pub closed spec fn operation_view(self) -> ReadOperationBinding {
        self.operation
    }

    pub closed spec fn signer_view(self) -> SignerView {
        (self.signer.0@, self.signer.1@)
    }
}

/// `a` accepts exactly the signer `signer` for the review, target and
/// operation of `binding`.
pub open spec fn acceptance_fits(b: ReadReviewBinding, signer: SignerView, a: ReadAcceptance) -> bool {
    &&& a.review_id_view() == b.review_id
    &&& a.digest_view() == b.digest@
    &&& same_operation(a.operation_view(), b.operation)
    &&& a.signer_view() == signer
}

/// Opaque review state bound to one artifact, operation and signer identity.
///
/// `S` is the retained read source (the opened file, the captured content or
/// the KV name) that a resumed read is evaluated from again.
pub struct ReadReview<S> {
    binding: ReadReviewBinding,
    requests: Vec<TrustReviewRequest>,
    first_request_is_signer: bool,
    non_member_signer: Option<NonMemberReadReview>,
    unresolved_recipient_kids: Vec<Kid>,
    allow_non_member: bool,
    acceptance_issued: bool,
    accepted_non_member: Option<AcceptedNonMember>,
    source: S,
}

impl<S> ReadReview<S> {
    /// This review with its acceptance marked as issued, and nothing else
    /// changed.
    pub closed spec fn marked_issued(self) -> ReadReview<S> {
        ReadReview { acceptance_issued: true, ..self }
    }

    pub closed spec fn binding_view(self) -> ReadReviewBinding {
        self.binding
    }

    pub closed spec fn requests_view(self) -> Seq<TrustReviewRequest> {
        self.requests@
    }

    pub closed spec fn signer_first_view(self) -> bool {
        self.first_request_is_signer
    }

    pub closed spec fn non_member_view(self) -> Option<NonMemberReadReview> {
        self.non_member_signer
    }

    pub closed spec fn unresolved_view(self) -> Seq<Kid> {
        self.unresolved_recipient_kids@
    }

    pub closed spec fn allow_view(self) -> bool {
        self.allow_non_member
    }

    pub closed spec fn accepted_view(self) -> Option<AcceptedNonMember> {
        self.accepted_non_member
    }

    pub closed spec fn source_view(self) -> S {
        self.source
    }

    /// Whether this review already minted its acceptance.
    pub closed spec fn issued(self) -> bool {
        self.acceptance_issued
    }

    /// A review that has minted no acceptance yet.
    pub fn new(
        binding: ReadReviewBinding,
        requests: Vec<TrustReviewRequest>,
        first_request_is_signer: bool,
        non_member_signer: Option<NonMemberReadReview>,
        unresolved_recipient_kids: Vec<Kid>,
        allow_non_member: bool,
        accepted_non_member: Option<AcceptedNonMember>,
        source: S,
    ) -> (r: ReadReview<S>)
        ensures
            r.binding_view() == binding,
            r.requests_view() == requests@,
            r.signer_first_view() == first_request_is_signer,
            r.non_member_view() == non_member_signer,
            r.unresolved_view() == unresolved_recipient_kids@,
            r.allow_view() == allow_non_member,
            r.accepted_view() == accepted_non_member,
            r.source_view() == source,
            !r.issued(),
    {
        ReadReview {
            binding,
            requests,
            first_request_is_signer,
            non_member_signer,
            unresolved_recipient_kids,
            allow_non_member,
            acceptance_issued: false,
            accepted_non_member,
            source,
        }
    }

    /// The read source a resumed read is evaluated from.
    pub fn source(&self) -> (s: &S)
        ensures
            *s == self.source_view(),
    {
        &self.source
    }

    /// Whether the read may offer a non-member signer for acceptance.
    pub fn allow_non_member(&self) -> (r: bool)
        ensures
            r == self.allow_view(),
    {
        self.allow_non_member
    }

    /// The operation a resumed read of the kind `kind` runs again: the
    /// reviewed one, which must be of that kind.
    pub fn resume_operation(&self, kind: ReadTargetKind) -> (r: Result<ReadOperationBinding>)
        ensures
            r is Ok <==> self.binding_view().operation.kind == kind,
            r matches Ok(op) ==> op == self.binding_view().operation,
            r matches Err(e) ==> is_target_changed(e) && e.message@ == "read operation changed"@,
    {
        if self.binding.operation.kind == kind {
            Ok(self.binding.operation.clone_binding())
        } else {
            Err(target_changed("read operation changed"))
        }
    }

    /// The state a resumed read is evaluated with, once the artifact read
    /// again from the source has the reviewed digest: the review's binding,
    /// source and carried acceptance, and `acceptance`, the one the caller
    /// supplies now.
    pub fn resume(self, digest: [u8; 32], acceptance: Option<ReadAcceptance>) -> (r: Result<
        ReadEvaluationState<S>,
    >)
        ensures
            r is Ok <==> self.binding_view().digest@ == digest@,
            r matches Ok(st) ==> st.binding == self.binding_view() && st.source == self.source_view()
                && st.acceptance == acceptance && st.accepted_non_member == self.accepted_view()
                && st.allow_non_member == self.allow_view(),
            r matches Err(e) ==> is_target_changed(e) && e.message@ == "reviewed read target changed"@,
    {
        let operation = self.binding.operation.clone_binding();
        self.validate_target(digest, &operation)?;
        Ok(
            ReadEvaluationState {
                binding: self.binding,
                source: self.source,
                acceptance,
                accepted_non_member: self.accepted_non_member,
                allow_non_member: self.allow_non_member,
            },
        )
    }

    /// The trust requests to resolve before resuming.
    pub fn requests(&self) -> (r: &[TrustReviewRequest])
        ensures
            r@ == self.requests_view(),
    {
        self.requests.as_slice()
    }

    /// Whether the first key review request belongs to the artifact signer.
    pub fn first_request_is_signer(&self) -> (r: bool)
        ensures
            r == self.signer_first_view(),
    {
        self.first_request_is_signer
    }

    /// The verified non-member signer review, when present.
    pub fn non_member_signer(&self) -> (r: Option<&NonMemberReadReview>)
        ensures
            match self.non_member_view() {
                Some(n) => r == Some(&n),
                None => r is None,
            },
    {
        match &self.non_member_signer {
            Some(n) => Some(n),
            None => None,
        }
    }

    /// The artifact's unresolved recipient key ids, for display.
    pub fn unresolved_recipient_kids(&self) -> (k: &[Kid])
        ensures
            k@ == self.unresolved_view(),
    {
        self.unresolved_recipient_kids.as_slice()
    }

    /// Mint the one acceptance of the exact signer this review shows.
    pub fn accept_non_member(&mut self) -> (r: Result<ReadAcceptance>)
        ensures
            accept_step(*old(self), *final(self), r is Ok),
            r matches Ok(a) ==> (old(self).non_member_view() matches Some(n) && acceptance_fits(
                old(self).binding_view(),
                n.identity_view(),
                a,
            )),
            r matches Err(e) ==> e.kind == ErrorKind::InvalidOperation,
    {
        if self.acceptance_issued {
            return Err(
                Error::build_invalid_operation_error(
                    owned("The non-member signer review was already accepted"),
                ),
            );
        }
        let signer = match &self.non_member_signer {
            Some(n) => n.identity(),
            None => {
                return Err(
                    Error::build_invalid_operation_error(
                        owned("This read review has no non-member signer"),
                    ),
                );
            },
        };
        self.acceptance_issued = true;
        Ok(
            ReadAcceptance {
                review_id: self.binding.review_id,
                digest: self.binding.digest,
                operation: self.binding.operation.clone_binding(),
                signer,
            },
        )
    }

    /// Refuse to resume on a target other than the one reviewed.
    pub fn validate_target(&self, digest: [u8; 32], operation: &ReadOperationBinding) -> (r: Result<
        (),
    >)
        ensures
            r is Ok <==> (self.binding_view().digest@ == digest@ && same_operation(
                self.binding_view().operation,
                *operation,
            )),
            r matches Err(e) ==> is_target_changed(e) && e.message@ == "reviewed read target changed"@,
    {
        if digests_equal(&self.binding.digest, &digest) && operation_eq(
            &self.binding.operation,
            operation,
        ) {
            Ok(())
        } else {
            Err(target_changed("reviewed read target changed"))
        }
    }
}

impl ReadOperationBinding {
    /// A copy naming the same operation.
    pub fn clone_binding(&self) -> (r: ReadOperationBinding)
        ensures
            r == *self,
    {
        ReadOperationBinding { kind: self.kind, name: self.name.clone() }
    }
}

/// One call of `accept_non_member` took the review from `before` to `after`:
/// a review mints at most one acceptance, only for a non-member signer, and
/// nothing else about it changes.
pub open spec fn accept_step<S>(before: ReadReview<S>, after: ReadReview<S>, minted: bool) -> bool {
    &&& minted <==> (!before.issued() && before.non_member_view() is Some)
    &&& after.issued() == (before.issued() || minted)
    &&& after.binding_view() == before.binding_view()
    &&& after.non_member_view() == before.non_member_view()
    &&& after.requests_view() == before.requests_view()
    &&& !minted ==> after == before
    &&& minted ==> after == before.marked_issued()
}

/// A review accepts a non-member signer at most once: after an acceptance was
/// minted, every further call is refused.
pub proof fn lemma_acceptance_is_one_shot<S>(
    first: ReadReview<S>,
    second: ReadReview<S>,
    third: ReadReview<S>,
    minted_again: bool,
)
    requires
        accept_step(first, second, true),
        accept_step(second, third, minted_again),
    ensures
        !minted_again,
{
}

pub(crate) fn digests_equal(a: &[u8; 32], b: &[u8; 32]) -> (r: bool)
    ensures
        r == (a@ == b@),
{
    let mut i: usize = 0;
    while i < 32
        invariant
            i <= 32,
            a@.len() == 32,
            b@.len() == 32,
            forall|k: int| 0 <= k < i ==> a@[k] == b@[k],
        decreases 32 - i,
    {
        if a[i] != b[i] {
            return false;
        }
        i = i + 1;
    }
    proof {
        assert(a@ =~= b@);
    }
    true
}

/// The rule code of a review whose target or signer changed.
pub open spec fn trust_target_changed() -> Seq<char> {
    "E_TRUST_TARGET_CHANGED"@
}

/// The error `e` refuses to resume a review because its target changed.
pub open spec fn is_target_changed(e: Error) -> bool {
    e.kind == ErrorKind::Verification && (e.code matches Some(c) && c@ == trust_target_changed())
}

/// The refusal to resume a review whose target or signer changed.
pub(crate) fn target_changed(message: &str) -> (e: Error)
    ensures
        is_target_changed(e),
        e.message@ == message@,
{
    Error::build_verification_error(owned("E_TRUST_TARGET_CHANGED"), owned(message))
}

/// A non-member acceptance carried from one evaluation of a review to the next.
#[derive(Debug)]
pub struct AcceptedNonMember {
    review_id: u128,
    digest: [u8; 32],
    operation: ReadOperationBinding,
    signer: (MemberHandle, Kid),
}

impl AcceptedNonMember {
    pub closed spec fn as_acceptance(self) -> ReadAcceptance {
        ReadAcceptance {
            review_id: self.review_id,
            digest: self.digest,
            operation: self.operation,
            signer: self.signer,
        }
    }

    /// Keep a minted acceptance for later evaluations.
    pub fn from_acceptance(a: ReadAcceptance) -> (r: AcceptedNonMember)
        ensures
            r.as_acceptance() == a,
    {
        AcceptedNonMember {
            review_id: a.review_id,
            digest: a.digest,
            operation: a.operation,
            signer: a.signer,
        }
    }
}

/// Accept `acceptance` only for the review, target and signer it was minted
/// for; a review whose signer is no longer a non-member is refused too.
pub fn validate_acceptance(
    non_member_signer: Option<&NonMemberReadReview>,
    binding: &ReadReviewBinding,
    acceptance: &AcceptedNonMember,
) -> (r: Result<()>)
    ensures
        r is Ok <==> (non_member_signer matches Some(n) && acceptance_fits(
            *binding,
            n.identity_view(),
            acceptance.as_acceptance(),
        )),
        r matches Err(e) ==> is_target_changed(e),
{
    let non_member = match non_member_signer {
        Some(n) => n,
        None => {
            return Err(target_changed("reviewed signer trust changed"));
        },
    };
    let identity = non_member.identity();
    if acceptance.review_id == binding.review_id && digests_equal(
        &acceptance.digest,
        &binding.digest,
    ) && operation_eq(&acceptance.operation, &binding.operation) && acceptance.signer.0.same(
        &identity.0,
    ) && acceptance.signer.1.same(&identity.1) {
        Ok(())
    } else {
        Err(target_changed("reviewed signer or read target changed"))
    }
}

/// The trust exceptions one evaluation of a read runs with, and the
/// acceptance it carries on.
#[derive(Debug)]
pub struct ResolvedExceptions {
    pub exceptions: Option<ReadTrustExceptions>,
    pub accepted_non_member: Option<AcceptedNonMember>,
}

/// The exceptions for one evaluation of a read.
///
/// A fresh acceptance and one carried from an earlier evaluation cannot both
/// be used. Without an acceptance, a read with a non-member signer or pending
/// requests runs with no exceptions; otherwise only the known-key review
/// setting applies. An acceptance must fit the review (`validate_acceptance`)
/// and then admits exactly its signer.
pub fn resolve_exceptions(
    non_member_signer: Option<&NonMemberReadReview>,
    has_requests: bool,
    binding: &ReadReviewBinding,
    acceptance: Option<ReadAcceptance>,
    accepted_non_member: Option<AcceptedNonMember>,
    known_key_review: KnownKeyReview,
) -> (r: Result<ResolvedExceptions>)
    ensures
        acceptance is Some && accepted_non_member is Some ==> (r matches Err(e)
            && is_target_changed(e)),
        r matches Err(e) ==> is_target_changed(e),
        acceptance is None && accepted_non_member is None ==> (r matches Ok(x) && x.accepted_non_member is None
            && if non_member_signer is Some || has_requests {
            x.exceptions is None
        } else {
            x.exceptions matches Some(ex) && ex.review_view() == known_key_review
                && ex.accepted_view() is None
        }),
        (acceptance is Some) != (accepted_non_member is Some) ==> {
            let a = match acceptance {
                Some(a) => a,
                None => accepted_non_member->0.as_acceptance(),
            };
            &&& r is Ok <==> (non_member_signer matches Some(n) && acceptance_fits(
                *binding,
                n.identity_view(),
                a,
            ))
            &&& r matches Ok(x) ==> (x.exceptions matches Some(ex) && ex.review_view()
                == known_key_review && ex.accepted_view() == Some(a.signer_view()))
                && (x.accepted_non_member matches Some(k) && k.as_acceptance() == a)
        },
{
    let accepted = match (acceptance, accepted_non_member) {
        (Some(acceptance), None) => Some(AcceptedNonMember::from_acceptance(acceptance)),
        (None, accepted) => accepted,
        (Some(_), Some(_)) => {
            return Err(target_changed("non-member acceptance was reused"));
        },
    };
    let accepted = match accepted {
        Some(a) => a,
        None => {
            if non_member_signer.is_some() || has_requests {
                return Ok(ResolvedExceptions { exceptions: None, accepted_non_member: None });
            }
            return Ok(
                ResolvedExceptions {
                    exceptions: Some(
                        ReadTrustExceptions::none().with_known_key_review(known_key_review),
                    ),
                    accepted_non_member: None,
                },
            );
        },
    };
    validate_acceptance(non_member_signer, binding, &accepted)?;
    let handle = accepted.signer.0.duplicate();
    let kid = accepted.signer.1.duplicate();
    Ok(
        ResolvedExceptions {
            exceptions: Some(
                ReadTrustExceptions::none().with_known_key_review(
                    known_key_review,
                ).accepting_non_member(handle, kid),
            ),
            accepted_non_member: Some(accepted),
        },
    )
}

/// What one review mints, the same review accepts: an acceptance minted by
/// `accept_non_member` and carried on by `from_acceptance` passes
/// `validate_acceptance` against the binding and signer of that review.
pub proof fn lemma_minted_acceptance_validates(
    binding: ReadReviewBinding,
    signer: NonMemberReadReview,
    minted: ReadAcceptance,
    carried: AcceptedNonMember,
)
    requires
        acceptance_fits(binding, signer.identity_view(), minted),
        carried.as_acceptance() == minted,
    ensures
        acceptance_fits(binding, signer.identity_view(), carried.as_acceptance()),
{
}


/// The three confirmations one read's key trust review asks its caller for:
/// approving an unknown signer key, accepting a non-member signer, and
/// choosing which recipient keys to approve. Carried together so a caller
/// supplies the whole set once.
pub struct ReadTrustConfirmations<ConfirmKnown, ConfirmNonMember, ConfirmRecipients> {
    pub known_key: ConfirmKnown,
    pub non_member_signer: ConfirmNonMember,
    pub recipients: ConfirmRecipients,
}


/// What a read's evaluation led to: the authorized value, or the review the
/// caller must hold first.
pub enum ReadSessionDecision<T, S> {
    Authorized(AuthorizedRead<T>),
    ReviewRequired(Box<ReadReview<S>>),
}

pub open spec fn no_capability_message() -> Seq<char> {
    "Read authorization did not produce a capability"@
}

/// Nothing is left to show: no request is pending, and no non-member signer
/// waits for an acceptance.
pub open spec fn nothing_to_review(preflight: ReadTrustReview, accepted: bool) -> bool {
    preflight.requests@.len() == 0 && (preflight.non_member_signer is None || accepted)
}

/// The review a preflight leaves, when the evaluation issued no read
/// capability.
///
/// Nothing left to review means the evaluation should have authorized the
/// read: the recipient check's failure is reported if there was one, and the
/// missing capability otherwise. A non-member signer still to be accepted
/// hides the other requests until it is; once accepted it is not offered
/// again.
pub fn review_or_continue<T, S>(
    preflight: ReadTrustReview,
    binding: ReadReviewBinding,
    allow_non_member: bool,
    accepted_non_member: Option<AcceptedNonMember>,
    source: S,
) -> (r: Result<ReadSessionDecision<T, S>>)
    ensures
        nothing_to_review(preflight, accepted_non_member is Some) ==> match preflight.recipient_error {
            Some(e) => r == Err::<ReadSessionDecision<T, S>, Error>(e),
            None => r matches Err(e) && e.kind == ErrorKind::InvalidOperation && e.message@
                == no_capability_message(),
        },
        !nothing_to_review(preflight, accepted_non_member is Some) ==> (r matches Ok(
            ReadSessionDecision::ReviewRequired(review),
        ) && reviews_preflight(*review, preflight, binding, allow_non_member, accepted_non_member, source)),
{
    if preflight.requests.len() == 0 && (preflight.non_member_signer.is_none()
        || accepted_non_member.is_some()) {
        return match preflight.recipient_error {
            Some(error) => Err(error),
            None => Err(
                Error::build_invalid_operation_error(
                    owned("Read authorization did not produce a capability"),
                ),
            ),
        };
    }
    Ok(
        ReadSessionDecision::ReviewRequired(
            Box::new(read_review(preflight, binding, allow_non_member, accepted_non_member, source)),
        ),
    )
}

/// `review` is what `preflight` shows its caller: while a non-member signer
/// waits for acceptance only that signer is shown; once it was accepted the
/// requests are shown, and the signer is not offered again.
pub open spec fn reviews_preflight<S>(
    review: ReadReview<S>,
    preflight: ReadTrustReview,
    binding: ReadReviewBinding,
    allow_non_member: bool,
    accepted_non_member: Option<AcceptedNonMember>,
    source: S,
) -> bool {
    let signer_pending = accepted_non_member is None && preflight.non_member_signer is Some;
    &&& review.binding_view() == binding
    &&& !review.issued()
    &&& review.requests_view() == (if signer_pending {
        Seq::empty()
    } else {
        preflight.requests@
    })
    &&& review.signer_first_view() == (!signer_pending && preflight.signer_request_count > 0)
    &&& review.non_member_view() == (if accepted_non_member is Some {
        None
    } else {
        preflight.non_member_signer
    })
    &&& review.unresolved_view() == preflight.unresolved_recipient_kids@
    &&& review.allow_view() == allow_non_member
    &&& review.accepted_view() == accepted_non_member
    &&& review.source_view() == source
}

/// Build the review a preflight shows its caller.
pub fn read_review<S>(
    preflight: ReadTrustReview,
    binding: ReadReviewBinding,
    allow_non_member: bool,
    accepted_non_member: Option<AcceptedNonMember>,
    source: S,
) -> (r: ReadReview<S>)
    ensures
        reviews_preflight(r, preflight, binding, allow_non_member, accepted_non_member, source),
{
    let accepted = accepted_non_member.is_some();
    let signer_pending = !accepted && preflight.non_member_signer.is_some();
    let first_request_is_signer = !signer_pending && preflight.signer_request_count > 0;
    let ReadTrustReview {
        requests,
        signer_request_count: _,
        non_member_signer,
        unresolved_recipient_kids,
        recipient_error: _,
    } = preflight;
    ReadReview::new(
        binding,
        if signer_pending {
            Vec::new()
        } else {
            requests
        },
        first_request_is_signer,
        if accepted {
            None
        } else {
            non_member_signer
        },
        unresolved_recipient_kids,
        allow_non_member,
        accepted_non_member,
        source,
    )
}

/// What one evaluation of a read starts from: the review binding, the read
/// source, an acceptance supplied now and one carried from an earlier
/// evaluation, and whether a non-member signer may be offered.
pub struct ReadEvaluationState<S> {
    pub binding: ReadReviewBinding,
    pub source: S,
    pub acceptance: Option<ReadAcceptance>,
    pub accepted_non_member: Option<AcceptedNonMember>,
    pub allow_non_member: bool,
}

/// A read whose trust policy is to be evaluated under `exceptions`.
pub struct PendingReadEvaluation<S> {
    exceptions: ReadTrustExceptions,
    preflight: ReadTrustReview,
    binding: ReadReviewBinding,
    source: S,
    accepted_non_member: Option<AcceptedNonMember>,
}

impl<S> PendingReadEvaluation<S> {
    pub closed spec fn exceptions_view(self) -> ReadTrustExceptions {
        self.exceptions
    }

    pub closed spec fn preflight_view(self) -> ReadTrustReview {
        self.preflight
    }

    pub closed spec fn binding_view(self) -> ReadReviewBinding {
        self.binding
    }

    pub closed spec fn source_view(self) -> S {
        self.source
    }

    pub closed spec fn accepted_view(self) -> Option<AcceptedNonMember> {
        self.accepted_non_member
    }

    /// The exceptions the trust policy is evaluated under.
    pub fn exceptions(&self) -> (e: &ReadTrustExceptions)
        ensures
            *e == self.exceptions_view(),
    {
        &self.exceptions
    }
}

/// Where the first half of a read's evaluation ends: a decision already, or
/// the trust policy still to evaluate.
pub enum ReadEvaluationPlan<T, S> {
    Decided(ReadSessionDecision<T, S>),
    Evaluate(PendingReadEvaluation<S>),
}

/// The first half of evaluating a read, from its preflight review.
///
/// The acceptances are resolved first (`resolve_exceptions`). Without
/// exceptions to evaluate under, the preflight is shown as a review;
/// otherwise the trust policy is to be evaluated under them.
pub fn plan_read_evaluation<T, S>(
    preflight: ReadTrustReview,
    state: ReadEvaluationState<S>,
    known_key_review: KnownKeyReview,
) -> (r: Result<ReadEvaluationPlan<T, S>>)
    ensures
        state.acceptance is Some && state.accepted_non_member is Some ==> (r matches Err(e)
            && is_target_changed(e)),
        state.acceptance is None && state.accepted_non_member is None ==> if preflight.non_member_signer is Some
            || preflight.requests@.len() > 0 {
            r matches Ok(ReadEvaluationPlan::Decided(ReadSessionDecision::ReviewRequired(review)))
                && reviews_preflight(
                *review,
                preflight,
                state.binding,
                state.allow_non_member,
                None,
                state.source,
            )
        } else {
            r matches Ok(ReadEvaluationPlan::Evaluate(p)) && p.exceptions_view().review_view()
                == known_key_review && p.exceptions_view().accepted_view() is None
                && p.preflight_view() == preflight && p.binding_view() == state.binding
                && p.source_view() == state.source && p.accepted_view() is None
        },
        (state.acceptance is Some) != (state.accepted_non_member is Some) ==> {
            let a = match state.acceptance {
                Some(a) => a,
                None => state.accepted_non_member->0.as_acceptance(),
            };
            &&& r is Ok <==> (preflight.non_member_signer matches Some(n) && acceptance_fits(
                state.binding,
                n.identity_view(),
                a,
            ))
            &&& r matches Ok(plan) ==> (plan matches ReadEvaluationPlan::Evaluate(p)
                && p.exceptions_view().review_view() == known_key_review
                && p.exceptions_view().accepted_view() == Some(a.signer_view())
                && p.preflight_view() == preflight && p.binding_view() == state.binding
                && p.source_view() == state.source && (p.accepted_view() matches Some(k)
                && k.as_acceptance() == a))
            &&& r matches Err(e) ==> is_target_changed(e)
        },
{
    let ReadEvaluationState { binding, source, acceptance, accepted_non_member, allow_non_member } =
        state;
    let resolved = resolve_exceptions(
        preflight.non_member_signer.as_ref(),
        preflight.requests.len() > 0,
        &binding,
        acceptance,
        accepted_non_member,
        known_key_review,
    )?;
    match resolved.exceptions {
        None => {
            let decision = review_or_continue(preflight, binding, allow_non_member, None, source)?;
            Ok(ReadEvaluationPlan::Decided(decision))
        },
        Some(exceptions) => Ok(
            ReadEvaluationPlan::Evaluate(
                PendingReadEvaluation {
                    exceptions,
                    preflight,
                    binding,
                    source,
                    accepted_non_member: resolved.accepted_non_member,
                },
            ),
        ),
    }
}

/// The second half of evaluating a read: `decision` is the trust policy's
/// answer under the pending exceptions, with the authorized value when it
/// trusts the read. A trusted read is authorized with the recipient key ids
/// the preflight left unresolved; otherwise the preflight is shown as a
/// review, which may now offer a non-member signer.
pub fn finish_read_evaluation<T, S>(
    pending: PendingReadEvaluation<S>,
    decision: TrustDecision<T>,
) -> (r: Result<ReadSessionDecision<T, S>>)
    ensures
        match decision {
            TrustDecision::Trusted(v) => r matches Ok(ReadSessionDecision::Authorized(a))
                && a.value_view() == v && a.unresolved_view()
                == pending.preflight_view().unresolved_recipient_kids@,
            TrustDecision::ReviewRequired(_) => {
                let accepted = pending.accepted_view() is Some;
                &&& nothing_to_review(pending.preflight_view(), accepted) ==> match pending.preflight_view().recipient_error {
                    Some(e) => r == Err::<ReadSessionDecision<T, S>, Error>(e),
                    None => r matches Err(e) && e.kind == ErrorKind::InvalidOperation
                        && e.message@ == no_capability_message(),
                }
                &&& !nothing_to_review(pending.preflight_view(), accepted) ==> (r matches Ok(
                    ReadSessionDecision::ReviewRequired(review),
                ) && reviews_preflight(
                    *review,
                    pending.preflight_view(),
                    pending.binding_view(),
                    true,
                    pending.accepted_view(),
                    pending.source_view(),
                ))
            },
        },
{
    let PendingReadEvaluation { exceptions: _, preflight, binding, source, accepted_non_member } =
        pending;
    match decision {
        TrustDecision::Trusted(value) => {
            let unresolved = preflight.unresolved_recipient_kids;
            Ok(ReadSessionDecision::Authorized(AuthorizedRead::new(value, unresolved)))
        },
        TrustDecision::ReviewRequired(_) => review_or_continue(
            preflight,
            binding,
            true,
            accepted_non_member,
            source,
        ),
    }
}

} // verus!
