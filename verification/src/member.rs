//! Approving workspace members into the known keys: which members an
//! approval run targets, what each verification result means for a member,
//! and which approvals may be persisted.

use vstd::prelude::*;
use crate::error::{Error, ErrorKind, Result};
use crate::model::{
    duplicate_opt, text_eq, Kid, MemberHandle, PublicKeyClaims, VerificationResult,
    VerificationStatus, VerifiedGithubIdentity,
};
use crate::online::VerifiedGitHubEvidence;
use crate::rewrap::KnownKeyJudgment;
use crate::text::{owned, push_str};
use crate::trust::candidate::{TrustApprovalCandidate, TrustApprovalCandidateBuilder};
use crate::trust::evaluator::{claims_eq, same_claims};
use crate::trust::policy::{KnownKeyApprovalEvidence, KnownKeyReviewCandidate, TrustApproval};

verus! {

/// What an approval run decided about one member.
#[derive(Debug, Clone)]
pub struct MemberApprovalResult {
    pub member_handle: String,
    pub kid: String,
    pub verified: bool,
    pub approved: bool,
    pub review_required: bool,
    pub already_known: bool,
    pub message: String,
    pub fingerprint: Option<String>,
    pub github_id: Option<u64>,
    pub github_login: Option<String>,
    pub github_binding_configured: bool,
    pub attestor_pub: Option<String>,
    pub verified_github: Option<VerifiedGithubIdentity>,
}

/// A known-key approval an operator may persist, bound to its member and key.
#[derive(Debug, Clone)]
pub struct ApprovedKnownKey {
    member_handle: MemberHandle,
    kid: Kid,
    approval: TrustApproval,
}

impl ApprovedKnownKey {
    pub closed spec fn handle_view(self) -> Seq<char> {
        self.member_handle@
    }

    pub closed spec fn kid_view(self) -> Seq<char> {
        self.kid@
    }

    pub closed spec fn approval_view(self) -> TrustApproval {
        self.approval
    }

    /// The approval of a reviewed candidate, with the attestor key and any
    /// GitHub evidence it was verified with.
    pub fn from_candidate(candidate: &TrustApprovalCandidate) -> (r: Result<ApprovedKnownKey>)
        ensures
            r is Ok <==> crate::trust::policy::evidence_fits(
                candidate.evidence_view(),
                Some(candidate.candidate_view().attestor_view()),
                candidate.candidate_view(),
            ),
            r matches Ok(a) ==> a.handle_view() == candidate.candidate_view().handle_view()
                && a.kid_view() == candidate.candidate_view().kid_view() && (
            a.approval_view() matches TrustApproval::KnownKey(k) && k.candidate_view()
                == candidate.candidate_view() && k.evidence_view().github_view()
                == candidate.evidence_view() && k.evidence_view().attestor_view() == Some(
                candidate.candidate_view().attestor_view(),
            )),
            r matches Err(e) ==> e.kind == ErrorKind::Verification && (e.code matches Some(c) && c@
                == crate::trust::policy::trust_approval_evidence_mismatch()),
    {
        let service_candidate = candidate.service_candidate();
        let mut evidence = KnownKeyApprovalEvidence::none().with_ssh_attestor_public_key(
            owned(service_candidate.ssh_attestor_public_key()),
        );
        match candidate.verified_service_evidence() {
            Some(verified) => {
                evidence = evidence.with_verified_github_account(verified.duplicate());
            },
            None => {},
        }
        let approval = TrustApproval::known_key(service_candidate, evidence)?;
        Ok(
            ApprovedKnownKey {
                member_handle: service_candidate.subject_handle().duplicate(),
                kid: service_candidate.kid().duplicate(),
                approval,
            },
        )
    }

    pub fn kid(&self) -> (k: &Kid)
        ensures
            k@ == self.kid_view(),
    {
        &self.kid
    }

    pub fn member_handle(&self) -> (h: &MemberHandle)
        ensures
            h@ == self.handle_view(),
    {
        &self.member_handle
    }

    pub fn approval(&self) -> (a: &TrustApproval)
        ensures
            *a == self.approval_view(),
    {
        &self.approval
    }
}

/// `i` is the first active member with the handle `handle`.
pub open spec fn first_member(ms: Seq<PublicKeyClaims>, handle: Seq<char>, i: int) -> bool {
    &&& 0 <= i < ms.len()
    &&& ms[i].subject_handle@ == handle
    &&& forall|j: int| 0 <= j < i ==> (#[trigger] ms[j]).subject_handle@ != handle
}

/// Some active member has the handle `handle`.
pub open spec fn has_member(ms: Seq<PublicKeyClaims>, handle: Seq<char>) -> bool {
    exists|i: int| 0 <= i < ms.len() && (#[trigger] ms[i]).subject_handle@ == handle
}

/// The first active member with the handle `member_handle`.
pub fn find_member_public_key<'a>(active_members: &'a [PublicKeyClaims], member_handle: &str) -> (r:
    Option<&'a PublicKeyClaims>)
    ensures
        r is None <==> !has_member(active_members@, member_handle@),
        r matches Some(m) ==> exists|i: int|
            first_member(active_members@, member_handle@, i) && *m == active_members@[i],
{
    let mut i: usize = 0;
    while i < active_members.len()
        invariant
            i <= active_members@.len(),
            forall|j: int| 0 <= j < i ==> (#[trigger] active_members@[j]).subject_handle@ != member_handle@,
        decreases active_members.len() - i,
    {
        if text_eq(active_members[i].subject_handle.as_str(), member_handle) {
            assert(first_member(active_members@, member_handle@, i as int));
            return Some(&active_members[i]);
        }
        i = i + 1;
    }
    None
}

/// `m` is the first active member with the handle `handle`.
pub open spec fn is_first_target(ms: Seq<PublicKeyClaims>, handle: Seq<char>, m: PublicKeyClaims) -> bool {
    exists|i: int| first_member(ms, handle, i) && m == ms[i]
}

/// The members of `ms`, in order, other than `self_handle`.
pub open spec fn others(ms: Seq<PublicKeyClaims>, self_handle: Seq<char>) -> Seq<PublicKeyClaims>
    decreases ms.len(),
{
    if ms.len() == 0 {
        Seq::empty()
    } else {
        let prev = others(ms.drop_last(), self_handle);
        if ms.last().subject_handle@ != self_handle {
            prev.push(ms.last())
        } else {
            prev
        }
    }
}

/// The handle at `i` is refused as a target: it is the operator's own, or no
/// active member has it.
pub open spec fn refused_target(
    ms: Seq<PublicKeyClaims>,
    handles: Seq<String>,
    self_handle: Seq<char>,
    i: int,
) -> bool {
    handles[i]@ == self_handle || !has_member(ms, handles[i]@)
}

pub open spec fn self_approval_message(self_handle: Seq<char>) -> Seq<char> {
    "Self member '"@ + self_handle + "' must not be approved into known_keys"@
}

pub open spec fn member_not_found_message(handle: Seq<char>) -> Seq<char> {
    "Member '"@ + handle + "' not found in active/"@
}

/// The members an approval run targets: every active member but the
/// operator when no handle is named, else each named member in order. Naming
/// the operator, or a handle no active member has, stops the run at the
/// first such handle.
pub fn select_approval_targets(
    active_members: &[PublicKeyClaims],
    member_handles: &[String],
    self_member_handle: &str,
) -> (r: Result<Vec<PublicKeyClaims>>)
    ensures
        member_handles@.len() == 0 ==> (r matches Ok(v) && v@ == others(
            active_members@,
            self_member_handle@,
        )),
        member_handles@.len() > 0 ==> {
            &&& (r is Ok <==> forall|i: int|
                0 <= i < member_handles@.len() ==> !refused_target(
                    active_members@,
                    member_handles@,
                    self_member_handle@,
                    i,
                ))
            &&& r matches Ok(v) ==> v@.len() == member_handles@.len() && forall|k: int|
                0 <= k < v@.len() ==> is_first_target(
                    active_members@,
                    member_handles@[k]@,
                    #[trigger] v@[k],
                )
            &&& forall|i: int|
                0 <= i < member_handles@.len() && refused_target(
                    active_members@,
                    member_handles@,
                    self_member_handle@,
                    i,
                ) && (forall|j: int|
                    0 <= j < i ==> !refused_target(
                        active_members@,
                        member_handles@,
                        self_member_handle@,
                        j,
                    )) ==> if member_handles@[i]@ == self_member_handle@ {
                    r matches Err(e) && e.kind == ErrorKind::InvalidOperation && e.message@
                        == self_approval_message(self_member_handle@)
                } else {
                    r matches Err(e) && e.kind == ErrorKind::NotFound && e.message@
                        == member_not_found_message(member_handles@[i]@)
                }
        },
{
    let ghost ms = active_members@;
    let mut out: Vec<PublicKeyClaims> = Vec::new();
    if member_handles.len() == 0 {
        let mut i: usize = 0;
        proof {
            assert(ms.take(0) =~= Seq::<PublicKeyClaims>::empty());
        }
        while i < active_members.len()
            invariant
                ms == active_members@,
                i <= ms.len(),
                out@ == others(ms.take(i as int), self_member_handle@),
            decreases active_members.len() - i,
        {
            proof {
                assert(ms.take(i + 1).drop_last() =~= ms.take(i as int));
                assert(ms.take(i + 1).last() == ms[i as int]);
            }
            if !text_eq(active_members[i].subject_handle.as_str(), self_member_handle) {
                out.push(active_members[i].duplicate());
            }
            i = i + 1;
        }
        proof {
            assert(ms.take(ms.len() as int) =~= ms);
        }
        return Ok(out);
    }
    let mut k: usize = 0;
    while k < member_handles.len()
        invariant
            ms == active_members@,
            k <= member_handles@.len(),
            member_handles@.len() > 0,
            out@.len() == k,
            forall|j: int|
                0 <= j < k ==> !refused_target(ms, member_handles@, self_member_handle@, j),
            forall|j: int|
                0 <= j < k ==> is_first_target(ms, member_handles@[j]@, #[trigger] out@[j]),
        decreases member_handles.len() - k,
    {
        let handle = member_handles[k].as_str();
        if text_eq(handle, self_member_handle) {
            let mut message = owned("Self member '");
            push_str(&mut message, self_member_handle);
            push_str(&mut message, "' must not be approved into known_keys");
            proof {
                assert(refused_target(ms, member_handles@, self_member_handle@, k as int));
                assert forall|i: int|
                    0 <= i < member_handles@.len() && refused_target(
                        ms,
                        member_handles@,
                        self_member_handle@,
                        i,
                    ) && (forall|j: int|
                        0 <= j < i ==> !refused_target(ms, member_handles@, self_member_handle@, j))
                    implies i == k by {
                    if i > k {
                        assert(!refused_target(ms, member_handles@, self_member_handle@, k as int));
                    }
                }
            }
            return Err(Error::build_invalid_operation_error(message));
        }
        match find_member_public_key(active_members, handle) {
            Some(m) => {
                let ghost before = out@;
                let ghost w = choose|i: int| first_member(ms, handle@, i) && *m == ms[i];
                out.push(m.duplicate());
                proof {
                    assert(first_member(ms, member_handles@[k as int]@, w) && out@[k as int] == ms[w]);
                    assert forall|j: int|
                        0 <= j < k + 1 implies is_first_target(
                            ms,
                            member_handles@[j]@,
                            #[trigger] out@[j],
                        ) by {
                        if j < k {
                            assert(out@[j] == before[j]);
                        } else {
                            assert(first_member(ms, member_handles@[j]@, w) && out@[j] == ms[w]);
                        }
                    }
                }
            },
            None => {
                let mut message = owned("Member '");
                push_str(&mut message, handle);
                push_str(&mut message, "' not found in active/");
                proof {
                    assert(refused_target(ms, member_handles@, self_member_handle@, k as int));
                    assert forall|i: int|
                        0 <= i < member_handles@.len() && refused_target(
                            ms,
                            member_handles@,
                            self_member_handle@,
                            i,
                        ) && (forall|j: int|
                            0 <= j < i ==> !refused_target(
                                ms,
                                member_handles@,
                                self_member_handle@,
                                j,
                            )) implies i == k by {
                        if i > k {
                            assert(!refused_target(ms, member_handles@, self_member_handle@, k as int));
                        }
                    }
                }
                return Err(Error::build_not_found_error(message));
            },
        }
        k = k + 1;
    }
    Ok(out)
}

/// Manual review is allowed only where verification did not fail and, for a
/// member with a GitHub binding, where it succeeded.
pub open spec fn online_check_allows_review(status: VerificationStatus, binding: bool) -> bool {
    status != VerificationStatus::Failed && (!binding || status == VerificationStatus::Verified)
}

pub fn evaluate_candidate_online_verification(vr: &VerificationResult, candidate: &TrustApprovalCandidate) -> (r:
    bool)
    ensures
        r == online_check_allows_review(
            vr.status,
            candidate.candidate_view().github_account_id_view() is Some,
        ),
{
    vr.status != VerificationStatus::Failed && (!candidate.github_binding_configured() || vr.status
        == VerificationStatus::Verified)
}

/// The result entry that shows `candidate` with the given flags and message.
pub open spec fn shows_candidate(
    r: MemberApprovalResult,
    candidate: TrustApprovalCandidate,
    verified: bool,
    review_required: bool,
    already_known: bool,
    message: Seq<char>,
) -> bool {
    &&& r.member_handle@ == candidate.candidate_view().handle_view()
    &&& r.kid@ == candidate.candidate_view().kid_view()
    &&& r.verified == verified
    &&& !r.approved
    &&& r.review_required == review_required
    &&& r.already_known == already_known
    &&& r.message@ == message
    &&& r.github_binding_configured == (candidate.candidate_view().github_account_id_view() is Some)
    &&& r.attestor_pub matches Some(a) && a@ == candidate.candidate_view().attestor_view()
    &&& r.github_id == (match candidate.evidence_view() {
        Some(e) => Some(e.account_view().id_view()),
        None => None,
    })
    &&& (candidate.evidence_view() is Some) == (r.verified_github is Some)
}

pub fn build_member_approval_result_with_message(
    candidate: &TrustApprovalCandidate,
    verified: bool,
    review_required: bool,
    already_known: bool,
    message: String,
) -> (r: MemberApprovalResult)
    ensures
        shows_candidate(r, *candidate, verified, review_required, already_known, message@),
{
    MemberApprovalResult {
        member_handle: owned(candidate.member_handle().as_str()),
        kid: owned(candidate.kid().as_str()),
        verified,
        approved: false,
        review_required,
        already_known,
        message,
        fingerprint: match candidate.fingerprint() {
            Some(f) => Some(owned(f)),
            None => None,
        },
        github_id: candidate.github_id(),
        github_login: match candidate.github_login() {
            Some(l) => Some(owned(l)),
            None => None,
        },
        github_binding_configured: candidate.github_binding_configured(),
        attestor_pub: Some(owned(candidate.attestor_pub())),
        verified_github: match candidate.verified_service_evidence() {
            Some(evidence) => Some(
                VerifiedGithubIdentity {
                    id: evidence.account().id(),
                    login: owned(evidence.account().login()),
                    fingerprint: owned(evidence.fingerprint()),
                    matched_key_id: evidence.matched_key_id(),
                },
            ),
            None => None,
        },
    }
}

pub open spec fn missing_member_message() -> Seq<char> {
    "Member not found in active members"@
}

/// The entry for a verified member that is no longer active.
pub fn build_missing_active_member_approval_result(vr: &VerificationResult) -> (r: MemberApprovalResult)
    ensures
        r.member_handle@ == vr.member_handle@,
        r.kid@.len() == 0,
        !r.verified && !r.approved && !r.review_required && !r.already_known,
        r.message@ == missing_member_message(),
        r.fingerprint == vr.fingerprint,
        r.github_id == (match vr.verified_github {
            Some(a) => Some(a.id),
            None => None,
        }),
        !r.github_binding_configured,
        r.attestor_pub is None,
        r.verified_github is None,
{
    MemberApprovalResult {
        member_handle: vr.member_handle.clone(),
        kid: String::new(),
        verified: false,
        approved: false,
        review_required: false,
        already_known: false,
        message: owned("Member not found in active members"),
        fingerprint: duplicate_opt(&vr.fingerprint),
        github_id: match &vr.verified_github {
            Some(a) => Some(a.id),
            None => None,
        },
        github_login: match &vr.verified_github {
            Some(a) => Some(a.login.clone()),
            None => None,
        },
        github_binding_configured: false,
        attestor_pub: None,
        verified_github: None,
    }
}

pub open spec fn integrity_anomaly_message(e: Error) -> Seq<char> {
    "Integrity anomaly: "@ + e.message@
}

/// The entry for a member whose online check allows review, by the
/// known-keys judgment of its key: a new key needs review, a known one is
/// already known, and a judgment that failed is reported as an integrity
/// anomaly.
pub fn evaluate_candidate_known_key_state(
    vr: &VerificationResult,
    candidate: &TrustApprovalCandidate,
    known_key: Result<KnownKeyJudgment>,
) -> (r: MemberApprovalResult)
    ensures
        match known_key {
            Err(e) => shows_candidate(r, *candidate, true, false, false, integrity_anomaly_message(e)),
            Ok(j) => shows_candidate(
                r,
                *candidate,
                vr.status == VerificationStatus::Verified,
                j == KnownKeyJudgment::New,
                j == KnownKeyJudgment::Existing,
                vr.message@,
            ),
        },
{
    match known_key {
        Err(e) => {
            let mut message = owned("Integrity anomaly: ");
            push_str(&mut message, e.message.as_str());
            build_member_approval_result_with_message(candidate, true, false, false, message)
        },
        Ok(j) => build_member_approval_result_with_message(
            candidate,
            vr.status == VerificationStatus::Verified,
            j == KnownKeyJudgment::New,
            j == KnownKeyJudgment::Existing,
            vr.message.clone(),
        ),
    }
}

pub open spec fn key_expired_message(expires_at: Seq<char>) -> Seq<char> {
    "PublicKey has expired.\nExpires at: "@ + expires_at + "\nRotate the member key before approval."@
}

/// An expired key cannot be approved. `expired` is whether `expires_at` has
/// passed; a key without an expiry never expires.
pub fn enforce_candidate_public_key_active(expires_at: &str, expired: bool) -> (r: Result<()>)
    ensures
        r is Ok <==> (expires_at@.len() == 0 || !expired),
        r matches Err(e) ==> e.kind == ErrorKind::Verification && (e.code matches Some(c) && c@
            == "E_KEY_EXPIRED"@) && e.message@ == key_expired_message(expires_at@),
{
    proof {
        crate::text::lemma_utf8_empty_iff(expires_at@);
    }
    if expires_at.is_empty() || !expired {
        return Ok(());
    }
    let mut message = owned("PublicKey has expired.\nExpires at: ");
    push_str(&mut message, expires_at);
    push_str(&mut message, "\nRotate the member key before approval.");
    Err(Error::build_verification_error(owned("E_KEY_EXPIRED"), message))
}

/// The entry `res` an evaluation gives the member whose key document is
/// `pk`: an online check that forbids review leaves the member unverified
/// with nothing to approve; otherwise the known-keys judgment decides.
pub open spec fn evaluated_entry(
    vr: &VerificationResult,
    pk: PublicKeyClaims,
    known_key: Result<KnownKeyJudgment>,
    res: MemberApprovalResult,
    has_approval: bool,
) -> bool {
    &&& res.member_handle@ == pk.subject_handle@
    &&& res.kid@ == pk.kid@
    &&& !res.approved
    &&& has_approval == res.review_required
    &&& if online_check_allows_review(vr.status, pk.github_account is Some) {
        match known_key {
            Err(e) => res.verified && !res.review_required && !res.already_known && res.message@
                == integrity_anomaly_message(e),
            Ok(j) => res.verified == (vr.status == VerificationStatus::Verified)
                && res.review_required == (j == KnownKeyJudgment::New) && res.already_known == (j
                == KnownKeyJudgment::Existing) && res.message@ == vr.message@,
        }
    } else {
        !res.verified && !res.review_required && !res.already_known && res.message@ == vr.message@
    }
}

/// The GitHub account id a key document binds itself to.
pub open spec fn claimed_github_id(pk: PublicKeyClaims) -> Option<u64> {
    match pk.github_account {
        Some(a) => Some(a.id),
        None => None::<u64>,
    }
}

/// A verified result that fits the key document `pk`: it names the
/// document's member, the account the document claims, and the fingerprint
/// and key it matched.
pub open spec fn result_fits_document(vr: VerificationResult, pk: PublicKeyClaims) -> bool {
    &&& vr.verified_github matches Some(v)
    &&& vr.member_handle@ == pk.subject_handle@
    &&& claimed_github_id(pk) == Some(v.id)
    &&& crate::model::opt_view(vr.fingerprint) == Some(v.fingerprint@)
    &&& vr.matched_key_id == Some(v.matched_key_id)
}

/// The steps before the expiry check succeed for the member whose key
/// document is `pk`: its subject handle is valid and, when the result says
/// it was verified, the result fits the document.
pub open spec fn evaluation_reaches_expiry(vr: VerificationResult, pk: PublicKeyClaims) -> bool {
    &&& crate::validation::is_valid_member_handle(pk.subject_handle@)
    &&& vr.status == VerificationStatus::Verified ==> result_fits_document(vr, pk)
}

/// Evaluate one verification result against the active members snapshot it
/// was produced from.
///
/// A member no longer active gets an entry and no approval. Otherwise the
/// candidate is built from its key document and the result; `expired` says
/// whether the document's expiry has passed, and `known_key` is the
/// known-keys judgment of its key. A member whose online check allows review
/// and whose key is new gets an approval.
pub fn evaluate_candidate_with_snapshot(
    vr: &VerificationResult,
    active_members: &[PublicKeyClaims],
    expires_at: &str,
    expired: bool,
    known_key: Result<KnownKeyJudgment>,
) -> (r: Result<(MemberApprovalResult, Option<ApprovedKnownKey>)>)
    ensures
        r is Ok <==> (!has_member(active_members@, vr.member_handle@) || exists|i: int|
            #![trigger active_members@[i]]
            first_member(active_members@, vr.member_handle@, i) && evaluation_reaches_expiry(
                *vr,
                active_members@[i],
            ) && (expires_at@.len() == 0 || !expired)),
        !has_member(active_members@, vr.member_handle@) ==> (r matches Ok((res, approval))
            && res.message@ == missing_member_message() && approval is None && res.kid@.len() == 0
            && !res.verified && !res.approved && !res.review_required && !res.already_known),
        forall|i: int|
            #![trigger active_members@[i]]
            first_member(active_members@, vr.member_handle@, i) && evaluation_reaches_expiry(
                *vr,
                active_members@[i],
            ) && !(expires_at@.len() == 0 || !expired) ==> (r matches Err(e) && e.kind
                == ErrorKind::Verification && (e.code matches Some(c) && c@ == "E_KEY_EXPIRED"@)
                && e.message@ == key_expired_message(expires_at@)),
        r matches Ok((res, Some(a))) ==> res.review_required && a.kid_view() == res.kid@,
        r matches Ok((res, None)) ==> !res.review_required,
        has_member(active_members@, vr.member_handle@) && !(expires_at@.len() == 0 || !expired)
            ==> r is Err,
        r matches Ok((res, approval)) ==> (has_member(active_members@, vr.member_handle@)
            ==> exists|i: int|
            #![trigger active_members@[i]]
            first_member(active_members@, vr.member_handle@, i) && evaluated_entry(
                vr,
                active_members@[i],
                known_key,
                res,
                approval is Some,
            )),
{
    let pk = match find_member_public_key(active_members, vr.member_handle.as_str()) {
        Some(pk) => pk,
        None => {
            return Ok((build_missing_active_member_approval_result(vr), None));
        },
    };
    let service_candidate = KnownKeyReviewCandidate::from_public_key(
        pk,
        duplicate_opt(&vr.fingerprint),
    )?;
    let evidence = if vr.status == VerificationStatus::Verified {
        Some(VerifiedGitHubEvidence::from_result(&service_candidate, vr.duplicate())?)
    } else {
        None
    };
    let candidate = TrustApprovalCandidateBuilder::from_known_key_candidate(
        &service_candidate,
    ).with_verification_result(vr).with_optional_verified_service_evidence(evidence).build();
    enforce_candidate_public_key_active(expires_at, expired)?;
    if !evaluate_candidate_online_verification(vr, &candidate) {
        return Ok(
            (
                build_member_approval_result_with_message(
                    &candidate,
                    false,
                    false,
                    false,
                    vr.message.clone(),
                ),
                None,
            ),
        );
    }
    let result = evaluate_candidate_known_key_state(vr, &candidate, known_key);
    if result.review_required {
        let approval = ApprovedKnownKey::from_candidate(&candidate)?;
        Ok((result, Some(approval)))
    } else {
        Ok((result, None))
    }
}

/// The key ids of the results the operator approved, in order.
pub open spec fn approved_kids(results: Seq<MemberApprovalResult>) -> Seq<Seq<char>>
    decreases results.len(),
{
    if results.len() == 0 {
        Seq::empty()
    } else {
        let prev = approved_kids(results.drop_last());
        if results.last().approved {
            prev.push(results.last().kid@)
        } else {
            prev
        }
    }
}

/// The key ids of approvals, in order.
pub open spec fn approval_kids(v: Seq<ApprovedKnownKey>) -> Seq<Seq<char>> {
    v.map_values(|a: ApprovedKnownKey| a.kid_view())
}

/// `approvals` holds an approval of the key id `kid`.
pub open spec fn has_approval(approvals: Seq<ApprovedKnownKey>, kid: Seq<char>) -> bool {
    exists|j: int| 0 <= j < approvals.len() && (#[trigger] approvals[j]).kid_view() == kid
}

/// `approvals` with `a` recorded under its key id: it replaces the approval
/// already held for that key id, or is added after the others.
pub open spec fn insert_approval(approvals: Seq<ApprovedKnownKey>, a: ApprovedKnownKey) -> Seq<
    ApprovedKnownKey,
> {
    if has_approval(approvals, a.kid_view()) {
        approvals.update(
            choose|j: int| 0 <= j < approvals.len() && (#[trigger] approvals[j]).kid_view() == a.kid_view(),
            a,
        )
    } else {
        approvals.push(a)
    }
}

/// The approvals an evaluation keeps: one per key id, the last one
/// evaluated for it.
pub open spec fn approvals_of(evals: Seq<Option<ApprovedKnownKey>>) -> Seq<ApprovedKnownKey>
    decreases evals.len(),
{
    if evals.len() == 0 {
        Seq::empty()
    } else {
        let prev = approvals_of(evals.drop_last());
        match evals.last() {
            Some(a) => insert_approval(prev, a),
            None => prev,
        }
    }
}

/// No two approvals share a key id.
pub open spec fn one_approval_per_kid(approvals: Seq<ApprovedKnownKey>) -> bool {
    forall|i: int, j: int|
        0 <= i < j < approvals.len() ==> (#[trigger] approvals[i]).kid_view() != (
        #[trigger] approvals[j]).kid_view()
}

/// Split the evaluated members into the results shown, in order, and the
/// approvals kept for persisting, one per key id (the last one evaluated).
pub fn collect_member_evaluations(evaluated: Vec<(MemberApprovalResult, Option<ApprovedKnownKey>)>) -> (r: (
    Vec<MemberApprovalResult>,
    Vec<ApprovedKnownKey>,
))
    ensures
        r.0@ == evaluated@.map_values(|e: (MemberApprovalResult, Option<ApprovedKnownKey>)| e.0),
        r.1@ == approvals_of(
            evaluated@.map_values(|e: (MemberApprovalResult, Option<ApprovedKnownKey>)| e.1),
        ),
        one_approval_per_kid(r.1@),
{
    let ghost all = evaluated@;
    let ghost firsts = all.map_values(|e: (MemberApprovalResult, Option<ApprovedKnownKey>)| e.0);
    let ghost seconds = all.map_values(|e: (MemberApprovalResult, Option<ApprovedKnownKey>)| e.1);
    let mut evaluated = evaluated;
    let n = evaluated.len();
    let mut results: Vec<MemberApprovalResult> = Vec::new();
    let mut approvals: Vec<ApprovedKnownKey> = Vec::new();
    let mut i: usize = 0;
    proof {
        assert(evaluated@ =~= all.subrange(0, n as int));
        assert(firsts.take(0) =~= results@);
        assert(seconds.take(0) =~= Seq::<Option<ApprovedKnownKey>>::empty());
    }
    while i < n
        invariant
            n == all.len(),
            i <= n,
            firsts == all.map_values(|e: (MemberApprovalResult, Option<ApprovedKnownKey>)| e.0),
            seconds == all.map_values(|e: (MemberApprovalResult, Option<ApprovedKnownKey>)| e.1),
            evaluated@ == all.subrange(i as int, n as int),
            results@ == firsts.take(i as int),
            approvals@ == approvals_of(seconds.take(i as int)),
            one_approval_per_kid(approvals@),
        decreases n - i,
    {
        let (result, approval) = evaluated.remove(0);
        proof {
            assert((result, approval) == all[i as int]);
            assert(evaluated@ =~= all.subrange(i + 1, n as int));
            assert(seconds.take(i + 1).drop_last() =~= seconds.take(i as int));
            assert(seconds.take(i + 1).last() == approval);
        }
        results.push(result);
        proof {
            assert(results@ =~= firsts.take(i + 1));
        }
        match approval {
            Some(a) => {
                let ghost before = approvals@;
                let mut j: usize = 0;
                let mut found: Option<usize> = None;
                while j < approvals.len()
                    invariant
                        j <= approvals@.len(),
                        approvals@ == before,
                        found matches Some(x) ==> x < before.len() && before[x as int].kid_view()
                            == a.kid_view(),
                        found is None ==> forall|m: int|
                            0 <= m < j ==> (#[trigger] before[m]).kid_view() != a.kid_view(),
                    decreases approvals.len() - j,
                {
                    if found.is_none() && approvals[j].kid().same(a.kid()) {
                        found = Some(j);
                    }
                    j = j + 1;
                }
                match found {
                    Some(x) => {
                        proof {
                            let c = choose|c: int| 0 <= c < before.len() && (#[trigger] before[c]).kid_view() == a.kid_view();
                            if c != x as int {
                                if c < x as int {
                                    assert(before[c].kid_view() != before[x as int].kid_view());
                                } else {
                                    assert(before[x as int].kid_view() != before[c].kid_view());
                                }
                            }
                        }
                        approvals.set(x, a);
                        proof {
                            assert(approvals@ == insert_approval(before, a));
                            assert forall|p: int, q: int| 0 <= p < q < approvals@.len() implies (
                            #[trigger] approvals@[p]).kid_view() != (#[trigger] approvals@[q]).kid_view() by {
                                assert(before[p].kid_view() != before[q].kid_view());
                            }
                        }
                    },
                    None => {
                        approvals.push(a);
                        proof {
                            assert(!has_approval(before, a.kid_view()));
                            assert forall|p: int, q: int| 0 <= p < q < approvals@.len() implies (
                            #[trigger] approvals@[p]).kid_view() != (#[trigger] approvals@[q]).kid_view() by {
                                if q == before.len() {
                                    assert(before[p].kid_view() != a.kid_view());
                                } else {
                                    assert(before[p].kid_view() != before[q].kid_view());
                                }
                            }
                        }
                    },
                }
            },
            None => {},
        }
        i = i + 1;
    }
    proof {
        assert(firsts.take(n as int) =~= firsts);
        assert(seconds.take(n as int) =~= seconds);
    }
    (results, approvals)
}

pub open spec fn members_changed_message() -> Seq<char> {
    "Workspace members changed during approval. Run the command again."@
}

/// Refuse to persist approvals once the active members differ from those
/// the approvals were evaluated against: `current` must hold the same
/// documents as `reviewed`, in the same order.
pub fn ensure_members_unchanged(reviewed: &[PublicKeyClaims], current: &[PublicKeyClaims]) -> (r:
    Result<()>)
    ensures
        r is Ok <==> (reviewed@.len() == current@.len() && forall|i: int|
            0 <= i < reviewed@.len() ==> same_claims(#[trigger] reviewed@[i], current@[i])),
        r matches Err(e) ==> e.kind == ErrorKind::Verification && (e.code matches Some(c) && c@
            == "E_TRUST_TARGET_CHANGED"@) && e.message@ == members_changed_message(),
{
    let mut same = reviewed.len() == current.len();
    let mut i: usize = 0;
    while same && i < reviewed.len()
        invariant
            i <= reviewed@.len(),
            same ==> reviewed@.len() == current@.len(),
            same ==> forall|k: int| 0 <= k < i ==> same_claims(#[trigger] reviewed@[k], current@[k]),
            !same ==> !(reviewed@.len() == current@.len() && forall|k: int|
                0 <= k < reviewed@.len() ==> same_claims(#[trigger] reviewed@[k], current@[k])),
        decreases reviewed.len() - i,
    {
        if !claims_eq(&reviewed[i], &current[i]) {
            same = false;
        }
        i = i + 1;
    }
    if same {
        return Ok(());
    }
    Err(
        Error::build_verification_error(
            owned("E_TRUST_TARGET_CHANGED"),
            owned("Workspace members changed during approval. Run the command again."),
        ),
    )
}

/// `a` is the approval `approvals` holds for its member and key id.
pub open spec fn drawn_from(approvals: Seq<ApprovedKnownKey>, a: ApprovedKnownKey) -> bool {
    exists|j: int|
        0 <= j < approvals.len() && (#[trigger] approvals[j]).kid_view() == a.kid_view()
            && approvals[j].handle_view() == a.handle_view()
}

pub open spec fn missing_capability_message() -> Seq<char> {
    "Approved member result has no verified approval capability"@
}

/// The approvals to persist: the approval of each result the operator
/// marked approved, in the order of the results, found by its key id; an
/// approved result without one is refused.
pub fn collect_persistable_approvals(
    results: &[MemberApprovalResult],
    approvals: &[ApprovedKnownKey],
) -> (r: Result<Vec<ApprovedKnownKey>>)
    ensures
        r is Ok <==> forall|i: int|
            0 <= i < results@.len() && (#[trigger] results@[i]).approved ==> has_approval(
                approvals@,
                results@[i].kid@,
            ),
        r matches Ok(v) ==> approval_kids(v@) == approved_kids(results@),
        r matches Ok(v) ==> forall|k: int| 0 <= k < v@.len() ==> drawn_from(approvals@, #[trigger] v@[k]),
        r matches Err(e) ==> e.kind == ErrorKind::InvalidOperation && e.message@
            == missing_capability_message(),
{
    let mut out: Vec<ApprovedKnownKey> = Vec::new();
    let mut i: usize = 0;
    proof {
        assert(results@.take(0) =~= Seq::<MemberApprovalResult>::empty());
        assert(approval_kids(out@) =~= Seq::<Seq<char>>::empty());
    }
    while i < results.len()
        invariant
            i <= results@.len(),
            forall|k: int|
                0 <= k < i && (#[trigger] results@[k]).approved ==> has_approval(
                    approvals@,
                    results@[k].kid@,
                ),
            approval_kids(out@) == approved_kids(results@.take(i as int)),
            forall|k: int| 0 <= k < out@.len() ==> drawn_from(approvals@, #[trigger] out@[k]),
        decreases results.len() - i,
    {
        proof {
            assert(results@.take(i + 1).drop_last() =~= results@.take(i as int));
            assert(results@.take(i + 1).last() == results@[i as int]);
        }
        if results[i].approved {
            let mut j: usize = 0;
            let mut found: Option<usize> = None;
            while j < approvals.len()
                invariant
                    i < results@.len(),
                    j <= approvals@.len(),
                    found matches Some(x) ==> x < approvals@.len() && approvals@[x as int].kid_view()
                        == results@[i as int].kid@,
                    found is None ==> forall|m: int|
                        0 <= m < j ==> (#[trigger] approvals@[m]).kid_view() != results@[i as int].kid@,
                decreases approvals.len() - j,
            {
                if found.is_none() && text_eq(approvals[j].kid().as_str(), results[i].kid.as_str()) {
                    found = Some(j);
                }
                j = j + 1;
            }
            match found {
                Some(x) => {
                    let ghost before = out@;
                    out.push(approvals[x].duplicate());
                    proof {
                        assert(approval_kids(out@) =~= approval_kids(before).push(
                            results@[i as int].kid@,
                        ));
                        assert forall|k: int| 0 <= k < out@.len() implies drawn_from(
                            approvals@,
                            #[trigger] out@[k],
                        ) by {
                            if k < before.len() {
                                assert(out@[k] == before[k]);
                            } else {
                                assert(approvals@[x as int].kid_view() == out@[k].kid_view());
                                assert(approvals@[x as int].handle_view() == out@[k].handle_view());
                            }
                        }
                    }
                },
                None => {
                    proof {
                        assert(!has_approval(approvals@, results@[i as int].kid@));
                    }
                    return Err(
                        Error::build_invalid_operation_error(
                            owned("Approved member result has no verified approval capability"),
                        ),
                    );
                },
            }
        }
        i = i + 1;
    }
    proof {
        assert(results@.take(results@.len() as int) =~= results@);
    }
    Ok(out)
}

impl ApprovedKnownKey {
    fn duplicate(&self) -> (r: ApprovedKnownKey)
        ensures
            r.handle_view() == self.handle_view(),
            r.kid_view() == self.kid_view(),
    {
        ApprovedKnownKey {
            member_handle: self.member_handle.duplicate(),
            kid: self.kid.duplicate(),
            approval: self.approval.clone(),
        }
    }
}


/// What one artifact's verified recipient evidence says: the recipient
/// handles and the warnings its signature check raised.
#[derive(Debug, Clone)]
pub struct ArtifactRecipients {
    pub recipients: Vec<String>,
    pub warnings: Vec<String>,
}

/// Which artifacts still name a member, and what could not be read.
#[derive(Debug, Clone)]
pub struct MemberArtifactScan {
    pub affected_artifacts: Vec<String>,
    pub warnings: Vec<String>,
}

/// The texts of a list of strings.
pub open spec fn texts(v: Seq<String>) -> Seq<Seq<char>> {
    v.map_values(|s: String| s@)
}

/// A failed artifact read that means the signing key expired: every other
/// artifact would fail the same way.
pub open spec fn is_expired_signing_key(e: Error) -> bool {
    e.kind == ErrorKind::Verification && (e.code matches Some(c) && c@ == "E_KEY_EXPIRED"@)
}

fn expired_signing_key(e: &Error) -> (r: bool)
    ensures
        r == is_expired_signing_key(*e),
{
    e.kind == ErrorKind::Verification && match &e.code {
        Some(c) => text_eq(c.as_str(), "E_KEY_EXPIRED"),
        None => false,
    }
}

pub open spec fn artifact_warning(shown_path: Seq<char>, e: Error) -> Seq<char> {
    "Skipping encrypted artifact '"@ + shown_path + "': "@ + e.message@
}

/// The warning for an artifact that could not be read.
pub fn format_artifact_warning(base: &crate::path::DisplayBase, path: &str, error: &Error) -> (s:
    String)
    ensures
        s@ == artifact_warning(crate::path::relative_display(base.cwd(), path@), *error),
{
    let mut s = owned("Skipping encrypted artifact '");
    push_str(&mut s, base.relative(path).as_str());
    push_str(&mut s, "': ");
    push_str(&mut s, error.message.as_str());
    s
}

/// Whether `member_handle` is among `recipients`.
pub fn contains_member(recipients: &[String], member_handle: &str) -> (r: bool)
    ensures
        r == texts(recipients@).contains(member_handle@),
{
    let mut i: usize = 0;
    while i < recipients.len()
        invariant
            i <= recipients@.len(),
            forall|k: int| 0 <= k < i ==> (#[trigger] recipients@[k])@ != member_handle@,
        decreases recipients.len() - i,
    {
        if text_eq(recipients[i].as_str(), member_handle) {
            assert(texts(recipients@)[i as int] == member_handle@);
            return true;
        }
        i = i + 1;
    }
    proof {
        assert forall|k: int| 0 <= k < texts(recipients@).len() implies texts(recipients@)[k]
            != member_handle@ by {
            assert(texts(recipients@)[k] == recipients@[k]@);
        }
    }
    false
}

/// The artifacts, in order, whose recipients name `handle`.
pub open spec fn affected(arts: Seq<(String, Result<ArtifactRecipients>)>, handle: Seq<char>) -> Seq<
    Seq<char>,
>
    decreases arts.len(),
{
    if arts.len() == 0 {
        Seq::empty()
    } else {
        let prev = affected(arts.drop_last(), handle);
        match arts.last().1 {
            Ok(a) => if texts(a.recipients@).contains(handle) {
                prev.push(arts.last().0@)
            } else {
                prev
            },
            Err(_) => prev,
        }
    }
}

/// The warnings the artifacts add, in order: each read artifact's own, and
/// one for each artifact that could not be read.
pub open spec fn scan_warnings(
    cwd: Option<Seq<char>>,
    arts: Seq<(String, Result<ArtifactRecipients>)>,
) -> Seq<Seq<char>>
    decreases arts.len(),
{
    if arts.len() == 0 {
        Seq::empty()
    } else {
        let prev = scan_warnings(cwd, arts.drop_last());
        match arts.last().1 {
            Ok(a) => prev + texts(a.warnings@),
            Err(e) => prev.push(artifact_warning(crate::path::relative_display(cwd, arts.last().0@), e)),
        }
    }
}

/// Find which artifacts still name a member before it is removed.
///
/// `artifacts` holds each listed artifact's path with the outcome of reading
/// its verified recipients. An artifact that cannot be read becomes a warning
/// rather than ending the scan, except for an expired signing key, which
/// every artifact would fail on and which ends it.
pub fn scan_artifacts_for_member(
    listing_warnings: Vec<String>,
    artifacts: &Vec<(String, Result<ArtifactRecipients>)>,
    member_handle: &str,
    base: &crate::path::DisplayBase,
) -> (r: Result<MemberArtifactScan>)
    ensures
        forall|i: int|
            0 <= i < artifacts@.len() && (artifacts@[i].1 matches Err(e) && is_expired_signing_key(e))
                && (forall|j: int|
                0 <= j < i ==> !(#[trigger] artifacts@[j].1 matches Err(e) && is_expired_signing_key(
                    e,
                ))) ==> r == Err::<MemberArtifactScan, Error>(artifacts@[i].1->Err_0),
        (forall|j: int|
            0 <= j < artifacts@.len() ==> !(#[trigger] artifacts@[j].1 matches Err(e)
                && is_expired_signing_key(e))) ==> (r matches Ok(scan) && texts(
            scan.affected_artifacts@,
        ) == affected(artifacts@, member_handle@) && texts(scan.warnings@) == texts(
            listing_warnings@,
        ) + scan_warnings(base.cwd(), artifacts@)),
{
    let ghost arts = artifacts@;
    let mut affected_artifacts: Vec<String> = Vec::new();
    let mut warnings = listing_warnings;
    let ghost listed = texts(warnings@);
    let mut i: usize = 0;
    proof {
        assert(arts.take(0) =~= Seq::<(String, Result<ArtifactRecipients>)>::empty());
        assert(texts(affected_artifacts@) =~= Seq::<Seq<char>>::empty());
        assert(listed + scan_warnings(base.cwd(), arts.take(0)) =~= listed);
    }
    while i < artifacts.len()
        invariant
            arts == artifacts@,
            i <= arts.len(),
            forall|j: int|
                0 <= j < i ==> !(#[trigger] arts[j].1 matches Err(e) && is_expired_signing_key(e)),
            texts(affected_artifacts@) == affected(arts.take(i as int), member_handle@),
            texts(warnings@) == listed + scan_warnings(base.cwd(), arts.take(i as int)),
        decreases artifacts.len() - i,
    {
        proof {
            assert(arts.take(i + 1).drop_last() =~= arts.take(i as int));
            assert(arts.take(i + 1).last() == arts[i as int]);
        }
        let (path, outcome) = &artifacts[i];
        match outcome {
            Ok(scan) => {
                let ghost before = texts(warnings@);
                let mut k: usize = 0;
                while k < scan.warnings.len()
                    invariant
                        k <= scan.warnings@.len(),
                        texts(warnings@) == before + texts(scan.warnings@.take(k as int)),
                    decreases scan.warnings.len() - k,
                {
                    let ghost prev = warnings@;
                    let w = owned(scan.warnings[k].as_str());
                    warnings.push(w);
                    proof {
                        assert(texts(warnings@) =~= texts(prev).push(w@));
                        assert(texts(scan.warnings@.take(k + 1)) =~= texts(
                            scan.warnings@.take(k as int),
                        ).push(scan.warnings@[k as int]@));
                        assert(texts(warnings@) =~= before + texts(scan.warnings@.take(k + 1)));
                    }
                    k = k + 1;
                }
                proof {
                    assert(scan.warnings@.take(scan.warnings@.len() as int) =~= scan.warnings@);
                    assert(texts(warnings@) =~= listed + scan_warnings(base.cwd(), arts.take(i + 1)));
                }
                if contains_member(scan.recipients.as_slice(), member_handle) {
                    affected_artifacts.push(owned(path.as_str()));
                    proof {
                        assert(texts(affected_artifacts@) =~= affected(arts.take(i + 1), member_handle@));
                    }
                }
            },
            Err(error) => {
                if expired_signing_key(error) {
                    proof {
                        assert forall|m: int|
                            #![trigger arts[m]]
                            0 <= m < arts.len() && (arts[m].1 matches Err(e) && is_expired_signing_key(e))
                                && (forall|j: int|
                                0 <= j < m ==> !(#[trigger] arts[j].1 matches Err(e)
                                    && is_expired_signing_key(e))) implies m == i by {
                            if m > i {
                                assert(arts[i as int].1 matches Err(e) && is_expired_signing_key(e));
                            }
                        }
                    }
                    return Err(error.duplicate());
                }
                let ghost before = warnings@;
                let warning = format_artifact_warning(base, path.as_str(), error);
                warnings.push(warning);
                proof {
                    assert(arts.take(i + 1).last().1 == Err::<ArtifactRecipients, Error>(*error));
                    assert(scan_warnings(base.cwd(), arts.take(i + 1)) == scan_warnings(
                        base.cwd(),
                        arts.take(i as int),
                    ).push(warning@));
                    assert(texts(warnings@) =~= texts(before).push(warning@));
                    assert(texts(warnings@) =~= listed + scan_warnings(base.cwd(), arts.take(i + 1)));
                }
            },
        }
        i = i + 1;
    }
    proof {
        assert(arts.take(arts.len() as int) =~= arts);
    }
    Ok(MemberArtifactScan { affected_artifacts, warnings })
}

/// The artifact `x` was read and its recipients name the member `handle`.
pub open spec fn names_member(x: (String, Result<ArtifactRecipients>), handle: Seq<char>) -> bool {
    x.1 matches Ok(a) && exists|k: int| 0 <= k < a.recipients@.len() && (#[trigger] a.recipients@[k])@
        == handle
}

proof fn lemma_texts_contains(v: Seq<String>, handle: Seq<char>)
    ensures
        texts(v).contains(handle) <==> exists|k: int| 0 <= k < v.len() && (#[trigger] v[k])@ == handle,
{
    if texts(v).contains(handle) {
        let k = choose|k: int| 0 <= k < texts(v).len() && texts(v)[k] == handle;
        assert(v[k]@ == handle);
    }
    if exists|k: int| 0 <= k < v.len() && (#[trigger] v[k])@ == handle {
        let k = choose|k: int| 0 <= k < v.len() && (#[trigger] v[k])@ == handle;
        assert(texts(v)[k] == handle);
    }
}

/// Removing a member affects exactly the readable artifacts that name it: the
/// path of every one of them is listed, however many affected artifacts come
/// before it, and every listed path is such an artifact's.
pub proof fn lemma_affected_are_the_artifacts_naming_the_member(
    arts: Seq<(String, Result<ArtifactRecipients>)>,
    handle: Seq<char>,
)
    ensures
        forall|i: int|
            0 <= i < arts.len() && names_member(#[trigger] arts[i], handle) ==> affected(
                arts,
                handle,
            ).contains(arts[i].0@),
        forall|p: Seq<char>|
            #[trigger] affected(arts, handle).contains(p) ==> exists|i: int|
                0 <= i < arts.len() && names_member(#[trigger] arts[i], handle) && arts[i].0@ == p,
    decreases arts.len(),
{
    if arts.len() > 0 {
        let prev = arts.drop_last();
        lemma_affected_are_the_artifacts_naming_the_member(prev, handle);
        let last = arts.last();
        let a_prev = affected(prev, handle);
        let a_all = affected(arts, handle);
        match last.1 {
            Ok(a) => lemma_texts_contains(a.recipients@, handle),
            Err(_) => {},
        }
        assert(a_all == a_prev || a_all == a_prev.push(last.0@));
        assert forall|i: int| 0 <= i < arts.len() && names_member(#[trigger] arts[i], handle) implies a_all.contains(
            arts[i].0@,
        ) by {
            if i == arts.len() - 1 {
                assert(a_all == a_prev.push(last.0@));
                assert(a_all[a_prev.len() as int] == last.0@);
            } else {
                assert(prev[i] == arts[i]);
                let w = choose|w: int| 0 <= w < a_prev.len() && a_prev[w] == arts[i].0@;
                assert(a_all[w] == a_prev[w]);
            }
        }
        assert forall|p: Seq<char>| #[trigger] a_all.contains(p) implies exists|i: int|
            0 <= i < arts.len() && names_member(#[trigger] arts[i], handle) && arts[i].0@ == p by {
            let w = choose|w: int| 0 <= w < a_all.len() && a_all[w] == p;
            if w < a_prev.len() {
                assert(a_all[w] == a_prev[w]);
                assert(a_prev.contains(p));
                let i = choose|i: int| 0 <= i < prev.len() && names_member(#[trigger] prev[i], handle) && prev[i].0@ == p;
                assert(arts[i] == prev[i]);
            } else {
                assert(names_member(arts[arts.len() - 1], handle));
            }
        }
    }
}

/// Scanning two lists of artifacts one after the other affects what scanning
/// each affects, in order: no affected artifact is lost to one found before it.
pub proof fn lemma_affected_splits(
    first: Seq<(String, Result<ArtifactRecipients>)>,
    second: Seq<(String, Result<ArtifactRecipients>)>,
    handle: Seq<char>,
)
    ensures
        affected(first + second, handle) == affected(first, handle) + affected(second, handle),
    decreases second.len(),
{
    if second.len() == 0 {
        assert(first + second =~= first);
        assert(affected(first, handle) + affected(second, handle) =~= affected(first, handle));
    } else {
        lemma_affected_splits(first, second.drop_last(), handle);
        assert((first + second).drop_last() =~= first + second.drop_last());
        assert((first + second).last() == second.last());
        let a = affected(first, handle);
        let b0 = affected(second.drop_last(), handle);
        assert((a + b0).push(second.last().0@) =~= a + b0.push(second.last().0@));
    }
}

/// Approval targets, with no member named, are the active members other than
/// the operator: none has the operator's handle, every other active member is
/// one, and they keep the order of the active members.
pub proof fn lemma_default_targets_are_the_other_members(ms: Seq<PublicKeyClaims>, self_handle: Seq<char>)
    ensures
        forall|k: int|
            0 <= k < others(ms, self_handle).len() ==> (#[trigger] others(ms, self_handle)[k]).subject_handle@
                != self_handle && ms.contains(others(ms, self_handle)[k]),
        forall|i: int|
            0 <= i < ms.len() && (#[trigger] ms[i]).subject_handle@ != self_handle ==> others(
                ms,
                self_handle,
            ).contains(ms[i]),
    decreases ms.len(),
{
    if ms.len() > 0 {
        let prev = ms.drop_last();
        lemma_default_targets_are_the_other_members(prev, self_handle);
        let o_prev = others(prev, self_handle);
        let o_all = others(ms, self_handle);
        let last = ms.last();
        assert(o_all == o_prev || o_all == o_prev.push(last));
        assert forall|k: int| 0 <= k < o_all.len() implies (#[trigger] o_all[k]).subject_handle@
            != self_handle && ms.contains(o_all[k]) by {
            if k < o_prev.len() {
                assert(o_all[k] == o_prev[k]);
                assert(prev.contains(o_prev[k]));
                let j = choose|j: int| 0 <= j < prev.len() && prev[j] == o_prev[k];
                assert(ms[j] == prev[j]);
            } else {
                assert(o_all[k] == last);
                assert(ms[ms.len() - 1] == last);
            }
        }
        assert forall|i: int| 0 <= i < ms.len() && (#[trigger] ms[i]).subject_handle@ != self_handle implies o_all.contains(
            ms[i],
        ) by {
            if i == ms.len() - 1 {
                assert(o_all == o_prev.push(last));
                assert(o_all[o_prev.len() as int] == last);
            } else {
                assert(prev[i] == ms[i]);
                let w = choose|w: int| 0 <= w < o_prev.len() && o_prev[w] == ms[i];
                assert(o_all[w] == o_prev[w]);
            }
        }
    }
}

/// Selecting from two lists of members one after the other gives the
/// selection of each, in order.
pub proof fn lemma_default_targets_split(
    first: Seq<PublicKeyClaims>,
    second: Seq<PublicKeyClaims>,
    self_handle: Seq<char>,
)
    ensures
        others(first + second, self_handle) == others(first, self_handle) + others(second, self_handle),
    decreases second.len(),
{
    if second.len() == 0 {
        assert(first + second =~= first);
        assert(others(first, self_handle) + others(second, self_handle) =~= others(first, self_handle));
    } else {
        lemma_default_targets_split(first, second.drop_last(), self_handle);
        assert((first + second).drop_last() =~= first + second.drop_last());
        assert((first + second).last() == second.last());
        let a = others(first, self_handle);
        let b0 = others(second.drop_last(), self_handle);
        assert((a + b0).push(second.last()) =~= a + b0.push(second.last()));
    }
}

} // verus!
