//! The interactive review of one trust candidate: whether its GitHub binding
//! still has to be checked online, what the check's outcome means for an
//! approval and for a non-member acceptance, and how a refusal is worded.
//!
//! The online lookup itself is the caller's part; its outcome is handed in.

use vstd::prelude::*;
use crate::error::{Error, ErrorKind, Result};
use crate::member::ApprovedKnownKey;
use crate::online::VerifiedGitHubEvidence;
use crate::text::{owned, push_str};
use crate::trust::candidate::{TrustApprovalCandidate, TrustApprovalCandidateBuilder};
use crate::trust::evaluation::{RecipientTrustOutcome, SignerTrustOutcome};

verus! {

/// What an interactive review is deciding.
#[derive(Debug, Clone, Copy, PartialEq, Eq, Structural)]
pub enum InteractiveTrustReviewKind {
    KnownKeyApproval,
    NonMemberAcceptance,
}

/// A candidate with a GitHub binding and no verified evidence yet still has
/// to be checked; one already verified must not be checked again, since a
/// second lookup would replace the evidence the operator was shown.
pub open spec fn needs_check(c: TrustApprovalCandidate) -> bool {
    c.candidate_view().github_account_id_view() is Some && c.evidence_view() is None
}

pub fn needs_online_verification(candidate: &TrustApprovalCandidate) -> (r: bool)
    ensures
        r == needs_check(*candidate),
{
    candidate.github_binding_configured() && !candidate.is_github_verified()
}

pub open spec fn online_success_message() -> Seq<char> {
    "GitHub verification succeeded"@
}

/// The candidate after the online check of its binding: `evidence` is what
/// the lookup found for its service candidate. A candidate with nothing to
/// check is returned as it is.
pub fn verify_trust_candidate_online(
    candidate: &TrustApprovalCandidate,
    evidence: Result<VerifiedGitHubEvidence>,
) -> (r: Result<TrustApprovalCandidate>)
    ensures
        !needs_check(*candidate) ==> r == Ok::<TrustApprovalCandidate, Error>(*candidate),
        needs_check(*candidate) ==> match evidence {
            Err(e) => r == Err::<TrustApprovalCandidate, Error>(e),
            Ok(ev) => r matches Ok(c) && c.candidate_view() == candidate.candidate_view()
                && c.evidence_view() == Some(ev) && c.attempted_view() && c.message_view() == Some(
                online_success_message(),
            ) && c.oob_view(),
        },
{
    if !needs_online_verification(candidate) {
        return Ok(candidate.duplicate());
    }
    let evidence = evidence?;
    Ok(
        TrustApprovalCandidateBuilder::from_known_key_candidate(
            candidate.service_candidate(),
        ).with_online_verification_context(true, Some(owned("GitHub verification succeeded")))
            .with_verified_service_evidence(evidence).build(),
    )
}

pub open spec fn online_verify_required() -> Seq<char> {
    "E_TRUST_ONLINE_VERIFY_REQUIRED"@
}

pub open spec fn online_required_message(c: TrustApprovalCandidate) -> Seq<char> {
    "Online verification required for trust approval of '"@ + c.candidate_view().handle_view()
        + "' ("@ + c.candidate_view().kid_view() + "): "@ + match c.message_view() {
        Some(m) => m,
        None => "online verification did not succeed"@,
    }
}

/// The refusal of an approval whose binding was not verified online.
pub fn build_online_verification_required_error(candidate: &TrustApprovalCandidate) -> (e: Error)
    ensures
        e.kind == ErrorKind::Verification,
        e.code matches Some(c) && c@ == online_verify_required(),
        e.message@ == online_required_message(*candidate),
{
    let mut message = owned("Online verification required for trust approval of '");
    push_str(&mut message, candidate.member_handle().as_str());
    push_str(&mut message, "' (");
    push_str(&mut message, candidate.kid().as_str());
    push_str(&mut message, "): ");
    match candidate.online_verification_message() {
        Some(m) => push_str(&mut message, m),
        None => push_str(&mut message, "online verification did not succeed"),
    }
    Error::build_verification_error(owned("E_TRUST_ONLINE_VERIFY_REQUIRED"), message)
}

/// The candidate to show for confirmation, after the online check of its
/// binding whose outcome is `online`.
///
/// A known-key approval needs verified GitHub evidence: a failed check ends
/// the review, and an unverified outcome is refused. A non-member acceptance
/// may go on without it; a failed check is then recorded on the candidate.
pub fn review_candidate_for_confirmation(
    candidate: &TrustApprovalCandidate,
    review_kind: InteractiveTrustReviewKind,
    online: Result<TrustApprovalCandidate>,
) -> (r: Result<TrustApprovalCandidate>)
    ensures
        !needs_check(*candidate) ==> r == Ok::<TrustApprovalCandidate, Error>(*candidate),
        needs_check(*candidate) && review_kind == InteractiveTrustReviewKind::KnownKeyApproval
            ==> match online {
            Err(e) => r == Err::<TrustApprovalCandidate, Error>(e),
            Ok(c) => if c.evidence_view() is Some {
                r == Ok::<TrustApprovalCandidate, Error>(c)
            } else {
                r matches Err(e) && e.kind == ErrorKind::Verification && (e.code matches Some(code)
                    && code@ == online_verify_required()) && e.message@ == online_required_message(
                    c,
                )
            },
        },
        needs_check(*candidate) && review_kind == InteractiveTrustReviewKind::NonMemberAcceptance
            ==> match online {
            Ok(c) => r == Ok::<TrustApprovalCandidate, Error>(c),
            Err(e) => r matches Ok(c) && c.candidate_view() == candidate.candidate_view()
                && c.evidence_view() is None && c.attempted_view() && c.message_view() == Some(
                e.message@,
            ),
        },
{
    if !needs_online_verification(candidate) {
        return Ok(candidate.duplicate());
    }
    let reviewed = match online {
        Ok(reviewed) => reviewed,
        Err(error) => {
            if review_kind == InteractiveTrustReviewKind::NonMemberAcceptance {
                TrustApprovalCandidateBuilder::from_known_key_candidate(
                    candidate.service_candidate(),
                ).with_online_verification_context(true, Some(error.format_user_message())).build()
            } else {
                return Err(error);
            }
        },
    };
    if reviewed.is_github_verified() {
        return Ok(reviewed);
    }
    if review_kind == InteractiveTrustReviewKind::NonMemberAcceptance {
        return Ok(reviewed);
    }
    Err(build_online_verification_required_error(&reviewed))
}

pub open spec fn rejection_message(
    prefix: Seq<char>,
    subject: Seq<char>,
    c: TrustApprovalCandidate,
) -> Seq<char> {
    prefix + subject + " '"@ + c.candidate_view().handle_view() + "' ("@
        + c.candidate_view().kid_view() + ")"@
}

fn rejection_error(prefix: &str, approval_subject: &str, reviewed: &TrustApprovalCandidate) -> (e:
    Error)
    ensures
        e.kind == ErrorKind::Verification,
        e.code matches Some(c) && c@ == "E_TRUST_REJECTED"@,
        e.message@ == rejection_message(prefix@, approval_subject@, *reviewed),
{
    let mut message = owned(prefix);
    push_str(&mut message, approval_subject);
    push_str(&mut message, " '");
    push_str(&mut message, reviewed.member_handle().as_str());
    push_str(&mut message, "' (");
    push_str(&mut message, reviewed.kid().as_str());
    push_str(&mut message, ")");
    Error::build_verification_error(owned("E_TRUST_REJECTED"), message)
}

/// The operator declined a trust approval.
pub fn build_trust_approval_rejection_error(approval_subject: &str, reviewed: &TrustApprovalCandidate) -> (e:
    Error)
    ensures
        e.kind == ErrorKind::Verification,
        e.code matches Some(c) && c@ == "E_TRUST_REJECTED"@,
        e.message@ == rejection_message(
            "Trust approval rejected for "@,
            approval_subject@,
            *reviewed,
        ),
{
    rejection_error("Trust approval rejected for ", approval_subject, reviewed)
}

/// The operator declined to accept a non-member signer.
pub fn build_non_member_rejection_error(approval_subject: &str, reviewed: &TrustApprovalCandidate) -> (e:
    Error)
    ensures
        e.kind == ErrorKind::Verification,
        e.code matches Some(c) && c@ == "E_TRUST_REJECTED"@,
        e.message@ == rejection_message(
            "Non-member acceptance rejected for "@,
            approval_subject@,
            *reviewed,
        ),
{
    rejection_error("Non-member acceptance rejected for ", approval_subject, reviewed)
}


/// Some candidate of `cs` has the key id `kid`.
pub open spec fn kid_listed(cs: Seq<TrustApprovalCandidate>, kid: Seq<char>) -> bool {
    exists|i: int| 0 <= i < cs.len() && (#[trigger] cs[i]).candidate_view().kid_view() == kid
}

/// `cs` without the candidates whose key id an earlier one already has.
pub open spec fn first_by_kid(cs: Seq<TrustApprovalCandidate>) -> Seq<TrustApprovalCandidate>
    decreases cs.len(),
{
    if cs.len() == 0 {
        Seq::empty()
    } else {
        let prev = first_by_kid(cs.drop_last());
        if kid_listed(prev, cs.last().candidate_view().kid_view()) {
            prev
        } else {
            prev.push(cs.last())
        }
    }
}

/// The candidates a read's key review shows: the signer's key, when it
/// needs approval, then the recipients' keys, each key id once.
pub open spec fn read_key_candidates(signer: SignerTrustOutcome, recipients: RecipientTrustOutcome) -> Seq<
    TrustApprovalCandidate,
> {
    first_by_kid(signer_candidates(signer) + recipient_candidates(recipients))
}

/// The signer's key, when it needs approval.
pub open spec fn signer_candidates(signer: SignerTrustOutcome) -> Seq<TrustApprovalCandidate> {
    match signer {
        SignerTrustOutcome::NeedsKnownKeyApproval(c) => seq![c],
        _ => Seq::empty(),
    }
}

/// The recipients' keys that need approval.
pub open spec fn recipient_candidates(recipients: RecipientTrustOutcome) -> Seq<TrustApprovalCandidate> {
    match recipients {
        RecipientTrustOutcome::NeedsManualApproval(cs) => cs@,
        _ => Seq::empty(),
    }
}

/// Add `candidate` unless one with its key id is already listed.
fn push_unique_candidate(candidates: &mut Vec<TrustApprovalCandidate>, candidate: &TrustApprovalCandidate)
    ensures
        final(candidates)@ == (if kid_listed(old(candidates)@, candidate.candidate_view().kid_view()) {
            old(candidates)@
        } else {
            old(candidates)@.push(*candidate)
        }),
{
    let mut i: usize = 0;
    while i < candidates.len()
        invariant
            i <= candidates@.len(),
            forall|k: int|
                0 <= k < i ==> (#[trigger] candidates@[k]).candidate_view().kid_view()
                    != candidate.candidate_view().kid_view(),
        decreases candidates.len() - i,
    {
        if candidates[i].kid().same(candidate.kid()) {
            return;
        }
        i = i + 1;
    }
    candidates.push(candidate.duplicate());
}

/// The candidates a read's key review shows: the signer's key when it needs
/// approval, then the recipients' keys, each key id once.
pub fn collect_read_key_candidates(
    signer_outcome: &SignerTrustOutcome,
    recipient_outcome: &RecipientTrustOutcome,
) -> (r: Vec<TrustApprovalCandidate>)
    ensures
        r@ == read_key_candidates(*signer_outcome, *recipient_outcome),
{
    let ghost from_signer = signer_candidates(*signer_outcome);
    let ghost from_recipients = recipient_candidates(*recipient_outcome);
    let ghost all = from_signer + from_recipients;
    let mut candidates: Vec<TrustApprovalCandidate> = Vec::new();
    let base: usize = match signer_outcome {
        SignerTrustOutcome::NeedsKnownKeyApproval(_) => 1,
        _ => 0,
    };
    match signer_outcome {
        SignerTrustOutcome::NeedsKnownKeyApproval(candidate) => {
            proof {
                assert(!kid_listed(candidates@, candidate.candidate_view().kid_view()));
            }
            push_unique_candidate(&mut candidates, candidate);
            proof {
                assert(from_signer == seq![*candidate]);
                assert(all.take(1).drop_last() =~= Seq::<TrustApprovalCandidate>::empty());
                assert(all.take(1).last() == *candidate);
                assert(first_by_kid(Seq::<TrustApprovalCandidate>::empty()) == Seq::<
                    TrustApprovalCandidate,
                >::empty());
                assert(!kid_listed(Seq::<TrustApprovalCandidate>::empty(), candidate.candidate_view().kid_view()));
                assert(candidates@ =~= seq![*candidate]);
            }
        },
        _ => {
            proof {
                assert(all.take(0) =~= Seq::<TrustApprovalCandidate>::empty());
            }
        },
    }
    proof {
        assert(candidates@ == first_by_kid(all.take(from_signer.len() as int)));
    }
    match recipient_outcome {
        RecipientTrustOutcome::NeedsManualApproval(recipient_candidates) => {
            let mut i: usize = 0;
            while i < recipient_candidates.len()
                invariant
                    i <= recipient_candidates@.len(),
                    from_recipients == recipient_candidates@,
                    all == from_signer + from_recipients,
                    base == from_signer.len(),
                    candidates@ == first_by_kid(all.take(base + i)),
                decreases recipient_candidates.len() - i,
            {
                proof {
                    assert(all.take(base + i + 1).drop_last() =~= all.take(base + i));
                    assert(all.take(base + i + 1).last() == recipient_candidates@[i as int]);
                }
                push_unique_candidate(&mut candidates, &recipient_candidates[i]);
                i = i + 1;
            }
        },
        _ => {},
    }
    proof {
        assert(all.take(all.len() as int) =~= all);
    }
    candidates
}

/// The recipient outcome of the candidates left to approve.
pub fn build_recipient_key_outcome(candidates: Vec<TrustApprovalCandidate>) -> (r: RecipientTrustOutcome)
    ensures
        candidates@.len() == 0 ==> r is Accepted,
        candidates@.len() > 0 ==> (r matches RecipientTrustOutcome::NeedsManualApproval(cs) && cs@
            == candidates@),
{
    if candidates.len() == 0 {
        RecipientTrustOutcome::Accepted
    } else {
        RecipientTrustOutcome::NeedsManualApproval(candidates)
    }
}

/// An approval in `approved` is for the member and key of `c`.
pub open spec fn approved_in(approved: Seq<ApprovedKnownKey>, c: TrustApprovalCandidate) -> bool {
    exists|j: int|
        0 <= j < approved.len() && (#[trigger] approved[j]).handle_view()
            == c.candidate_view().handle_view() && approved[j].kid_view()
            == c.candidate_view().kid_view()
}

/// Whether one of `approved_keys` approves the member and key of `candidate`.
pub fn is_approved_candidate(candidate: &TrustApprovalCandidate, approved_keys: &[ApprovedKnownKey]) -> (r:
    bool)
    ensures
        r == approved_in(approved_keys@, *candidate),
{
    let mut j: usize = 0;
    while j < approved_keys.len()
        invariant
            j <= approved_keys@.len(),
            forall|k: int|
                0 <= k < j ==> !((#[trigger] approved_keys@[k]).handle_view()
                    == candidate.candidate_view().handle_view() && approved_keys@[k].kid_view()
                    == candidate.candidate_view().kid_view()),
        decreases approved_keys.len() - j,
    {
        if approved_keys[j].member_handle().same(candidate.member_handle()) && approved_keys[j].kid().same(
            candidate.kid(),
        ) {
            return true;
        }
        j = j + 1;
    }
    false
}

/// `cs` without the candidates `approved` already approves, in order.
pub open spec fn not_yet_approved(cs: Seq<TrustApprovalCandidate>, approved: Seq<ApprovedKnownKey>) -> Seq<
    TrustApprovalCandidate,
>
    decreases cs.len(),
{
    if cs.len() == 0 {
        Seq::empty()
    } else {
        let prev = not_yet_approved(cs.drop_last(), approved);
        if approved_in(approved, cs.last()) {
            prev
        } else {
            prev.push(cs.last())
        }
    }
}

/// The recipient outcome a write still has to review once `approved_keys`
/// were approved for its signer.
pub fn build_write_recipient_key_outcome(
    recipient_trust: &RecipientTrustOutcome,
    approved_keys: &[ApprovedKnownKey],
) -> (r: RecipientTrustOutcome)
    ensures
        match *recipient_trust {
            RecipientTrustOutcome::Accepted => r is Accepted,
            RecipientTrustOutcome::NeedsManualApproval(cs) => {
                let left = not_yet_approved(cs@, approved_keys@);
                &&& left.len() == 0 ==> r is Accepted
                &&& left.len() > 0 ==> (r matches RecipientTrustOutcome::NeedsManualApproval(x)
                    && x@ == left)
            },
        },
{
    let candidates = match recipient_trust {
        RecipientTrustOutcome::Accepted => {
            return RecipientTrustOutcome::Accepted;
        },
        RecipientTrustOutcome::NeedsManualApproval(candidates) => candidates,
    };
    let mut left: Vec<TrustApprovalCandidate> = Vec::new();
    let mut i: usize = 0;
    proof {
        assert(candidates@.take(0) =~= Seq::<TrustApprovalCandidate>::empty());
    }
    while i < candidates.len()
        invariant
            i <= candidates@.len(),
            left@ == not_yet_approved(candidates@.take(i as int), approved_keys@),
        decreases candidates.len() - i,
    {
        proof {
            assert(candidates@.take(i + 1).drop_last() =~= candidates@.take(i as int));
            assert(candidates@.take(i + 1).last() == candidates@[i as int]);
        }
        if !is_approved_candidate(&candidates[i], approved_keys) {
            left.push(candidates[i].duplicate());
        }
        i = i + 1;
    }
    proof {
        assert(candidates@.take(candidates@.len() as int) =~= candidates@);
    }
    build_recipient_key_outcome(left)
}

} // verus!
