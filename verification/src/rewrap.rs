//! Rewrap options and the review of incoming members found during a rewrap:
//! offline results are sorted into a report, the report into auto-accepted
//! and manual-review buckets, the manual ones checked online, and only the
//! members the operator accepted are promoted.

use vstd::prelude::*;
use crate::error::{Error, ErrorKind, Result};
use crate::model::{duplicate_opt, text_eq, PublicKeyClaims, VerifiedGithubIdentity};
use crate::online::VerifiedGitHubEvidence;
use crate::operation::OperationOptions;
use crate::text::{owned, push_str};
use crate::trust::candidate::{TrustApprovalCandidate, TrustApprovalCandidateBuilder};
use crate::trust::policy::{
    KnownKeyApprovalEvidence, KnownKeyReviewCandidate, TrustApproval, TrustApprovalOutcome,
};

verus! {

/// Rewrap behaviour bound into one authorization decision.
#[derive(Debug, Clone, Copy, PartialEq, Eq, Structural)]
pub struct RewrapOptions {
    rotate_key: bool,
    clear_disclosure_history: bool,
    operation: OperationOptions,
}

impl RewrapOptions {
    pub closed spec fn rotates_key(self) -> bool {
        self.rotate_key
    }

    pub closed spec fn clears_history(self) -> bool {
        self.clear_disclosure_history
    }

    pub closed spec fn operation_view(self) -> OperationOptions {
        self.operation
    }

    /// Fail-closed rewrap options: no rotation, history kept, expired keys
    /// refused.
    pub fn new() -> (o: RewrapOptions)
        ensures
            !o.rotates_key(),
            !o.clears_history(),
            !o.operation_view().allows_expired_key(),
    {
        RewrapOptions {
            rotate_key: false,
            clear_disclosure_history: false,
            operation: OperationOptions::new(),
        }
    }

    /// Rotate the artifact content key while rewrapping.
    pub fn with_rotate_key(self, rotate_key: bool) -> (o: RewrapOptions)
        ensures
            o.rotates_key() == rotate_key,
            o.clears_history() == self.clears_history(),
            o.operation_view() == self.operation_view(),
    {
        RewrapOptions { rotate_key, ..self }
    }

    /// Remove disclosure history while rewrapping.
    pub fn with_clear_disclosure_history(self, clear: bool) -> (o: RewrapOptions)
        ensures
            o.rotates_key() == self.rotates_key(),
            o.clears_history() == clear,
            o.operation_view() == self.operation_view(),
    {
        RewrapOptions { clear_disclosure_history: clear, ..self }
    }

    /// Apply common key-expiration behaviour.
    pub fn with_operation_options(self, operation: OperationOptions) -> (o: RewrapOptions)
        ensures
            o.rotates_key() == self.rotates_key(),
            o.clears_history() == self.clears_history(),
            o.operation_view() == operation,
    {
        RewrapOptions { operation, ..self }
    }

    pub fn rotate_key(self) -> (r: bool)
        ensures
            r == self.rotates_key(),
    {
        self.rotate_key
    }

    pub fn clear_disclosure_history(self) -> (r: bool)
        ensures
            r == self.clears_history(),
    {
        self.clear_disclosure_history
    }

    pub fn operation_options(self) -> (o: OperationOptions)
        ensures
            o == self.operation_view(),
    {
        self.operation
    }
}

/// Where an incoming member stands after offline and online checks.
#[derive(Debug, Clone, Copy, PartialEq, Eq, Structural)]
pub enum IncomingVerificationCategory {
    BindingConfigured,
    Verified,
    Failed,
    NotConfigured,
}

/// The review state of one incoming member document.
#[derive(Debug, Clone)]
pub struct IncomingVerificationItem {
    pub member_handle: String,
    pub kid: String,
    pub category: IncomingVerificationCategory,
    pub message: String,
    pub fingerprint: Option<String>,
    pub verified_github: Option<VerifiedGithubIdentity>,
    pub verified_service_evidence: Option<VerifiedGitHubEvidence>,
    pub github_binding_configured: bool,
    pub attestor_pub: Option<String>,
}

impl IncomingVerificationItem {
    pub fn duplicate(&self) -> (r: IncomingVerificationItem)
        ensures
            r == *self,
    {
        IncomingVerificationItem {
            member_handle: self.member_handle.clone(),
            kid: self.kid.clone(),
            category: self.category,
            message: self.message.clone(),
            fingerprint: duplicate_opt(&self.fingerprint),
            verified_github: match &self.verified_github {
                Some(v) => Some(v.duplicate()),
                None => None,
            },
            verified_service_evidence: match &self.verified_service_evidence {
                Some(e) => Some(e.duplicate()),
                None => None,
            },
            github_binding_configured: self.github_binding_configured,
            attestor_pub: duplicate_opt(&self.attestor_pub),
        }
    }
}

/// One incoming member document offered for promotion.
#[derive(Debug, Clone)]
pub struct IncomingPromotionCandidate {
    pub review: IncomingVerificationItem,
    /// The exact bytes that were verified and shown, kept for the promotion.
    pub source_content: String,
    /// What the active document this promotion would replace held when the
    /// candidate was read (`None`: there was none). Promotion confirms it
    /// again before it writes.
    pub destination: Option<String>,
    pub public_key: PublicKeyClaims,
}

impl IncomingPromotionCandidate {
    pub fn duplicate(&self) -> (r: IncomingPromotionCandidate)
        ensures
            r == *self,
    {
        IncomingPromotionCandidate {
            review: self.review.duplicate(),
            source_content: self.source_content.clone(),
            destination: duplicate_opt(&self.destination),
            public_key: self.public_key.duplicate(),
        }
    }
}

/// A copy of a list of candidates.
pub fn duplicate_candidates(v: &Vec<IncomingPromotionCandidate>) -> (r: Vec<
    IncomingPromotionCandidate,
>)
    ensures
        r@ == v@,
{
    let mut out: Vec<IncomingPromotionCandidate> = Vec::new();
    let mut i: usize = 0;
    while i < v.len()
        invariant
            i <= v.len(),
            out@ == v@.take(i as int),
        decreases v.len() - i,
    {
        out.push(v[i].duplicate());
        proof {
            assert(out@ =~= v@.take(i + 1));
        }
        i = i + 1;
    }
    proof {
        assert(v@.take(v@.len() as int) =~= v@);
    }
    out
}

/// Incoming members sorted for promotion review.
#[derive(Debug, Clone)]
pub struct IncomingPromotionReviewPlan {
    pub failed_candidates: Vec<IncomingPromotionCandidate>,
    pub auto_accepted_candidates: Vec<IncomingPromotionCandidate>,
    pub prompt_candidates: Vec<IncomingPromotionCandidate>,
}

/// Incoming members sorted by their offline verification result.
#[derive(Debug, Clone)]
pub struct IncomingVerificationReport {
    pub binding_configured: Vec<IncomingPromotionCandidate>,
    pub failed: Vec<IncomingPromotionCandidate>,
    pub not_configured: Vec<IncomingPromotionCandidate>,
}

pub open spec fn binding_configured_message() -> Seq<char> {
    "GitHub binding configured; online verification will run if trust update is required"@
}

pub open spec fn not_configured_message() -> Seq<char> {
    "No binding_claims.github_account configured"@
}

/// The category and message of an incoming document that passed offline
/// verification, by whether it binds a GitHub account.
pub fn build_pending_review_category(binding_configured: bool) -> (r: (IncomingVerificationCategory, String))
    ensures
        binding_configured ==> r.0 == IncomingVerificationCategory::BindingConfigured && r.1@
            == binding_configured_message(),
        !binding_configured ==> r.0 == IncomingVerificationCategory::NotConfigured && r.1@
            == not_configured_message(),
{
    if binding_configured {
        (
            IncomingVerificationCategory::BindingConfigured,
            owned(
                "GitHub binding configured; online verification will run if trust update is required",
            ),
        )
    } else {
        (
            IncomingVerificationCategory::NotConfigured,
            owned("No binding_claims.github_account configured"),
        )
    }
}

pub open spec fn offline_failure_message(e: Error) -> Seq<char> {
    "Offline verification failed: "@ + e.message@
}

/// The candidate an incoming member document makes, from the outcome
/// `verified` of its offline verification; `fingerprint` is the SSH
/// fingerprint of its attestor key where it could be computed.
///
/// A document that failed verification is kept as a failed entry with the
/// reason; one that passed is pending review, by whether it binds a GitHub
/// account.
pub fn build_incoming_candidate(
    public_key: PublicKeyClaims,
    fingerprint: Option<String>,
    source_content: String,
    destination: Option<String>,
    verified: Result<()>,
) -> (r: Result<IncomingPromotionCandidate>)
    ensures
        match verified {
            Err(e) => r matches Ok(c) && c.review.category == IncomingVerificationCategory::Failed
                && c.review.message@ == offline_failure_message(e) && c.review.fingerprint is None
                && c.review.attestor_pub is None,
            Ok(_) => (r is Ok <==> crate::validation::is_valid_member_handle(
                public_key.subject_handle@,
            )) && (r matches Ok(c) ==> (if public_key.github_account is Some {
                c.review.category == IncomingVerificationCategory::BindingConfigured
                    && c.review.message@ == binding_configured_message()
            } else {
                c.review.category == IncomingVerificationCategory::NotConfigured
                    && c.review.message@ == not_configured_message()
            }) && crate::model::opt_view(c.review.fingerprint) == crate::model::opt_view(
                fingerprint,
            ) && (c.review.attestor_pub matches Some(a) && a@ == public_key.attestor_pub@)),
        },
        r matches Err(e) ==> e.kind == ErrorKind::InvalidArgument,
        r matches Ok(c) ==> c.review.member_handle@ == public_key.subject_handle@ && c.review.kid@
            == public_key.kid@ && c.review.verified_github is None
            && c.review.verified_service_evidence is None && c.review.github_binding_configured
            == (public_key.github_account is Some) && c.source_content@ == source_content@
            && c.destination == destination && c.public_key == public_key,
{
    let review = match verified {
        Ok(()) => {
            let candidate = KnownKeyReviewCandidate::from_public_key(&public_key, fingerprint)?;
            let binding = candidate.has_github_binding();
            let (category, message) = build_pending_review_category(binding);
            IncomingVerificationItem {
                member_handle: public_key.subject_handle.clone(),
                kid: public_key.kid.clone(),
                category,
                message,
                fingerprint: match candidate.fingerprint() {
                    Some(f) => Some(owned(f)),
                    None => None,
                },
                verified_github: None,
                verified_service_evidence: None,
                github_binding_configured: binding,
                attestor_pub: Some(owned(candidate.ssh_attestor_public_key())),
            }
        },
        Err(error) => {
            let mut message = owned("Offline verification failed: ");
            push_str(&mut message, error.format_user_message().as_str());
            IncomingVerificationItem {
                member_handle: public_key.subject_handle.clone(),
                kid: public_key.kid.clone(),
                category: IncomingVerificationCategory::Failed,
                message,
                fingerprint: None,
                verified_github: None,
                verified_service_evidence: None,
                github_binding_configured: public_key.github_account.is_some(),
                attestor_pub: None,
            }
        },
    };
    Ok(IncomingPromotionCandidate { review, source_content, destination, public_key })
}

/// The candidates of `cs`, in order, whose category is `category`.
pub open spec fn in_category(
    cs: Seq<IncomingPromotionCandidate>,
    category: IncomingVerificationCategory,
) -> Seq<IncomingPromotionCandidate>
    decreases cs.len(),
{
    if cs.len() == 0 {
        Seq::empty()
    } else {
        let prev = in_category(cs.drop_last(), category);
        if cs.last().review.category == category {
            prev.push(cs.last())
        } else {
            prev
        }
    }
}

/// Sort offline results into a report; no incoming document means no
/// report. A `Verified` result cannot come from offline verification and is
/// not reported.
pub fn build_incoming_report(candidates: &Vec<IncomingPromotionCandidate>) -> (r: Option<
    IncomingVerificationReport,
>)
    ensures
        candidates@.len() == 0 <==> r is None,
        r matches Some(report) ==> {
            &&& report.binding_configured@ == in_category(
                candidates@,
                IncomingVerificationCategory::BindingConfigured,
            )
            &&& report.failed@ == in_category(candidates@, IncomingVerificationCategory::Failed)
            &&& report.not_configured@ == in_category(
                candidates@,
                IncomingVerificationCategory::NotConfigured,
            )
        },
{
    if candidates.len() == 0 {
        return None;
    }
    let mut binding_configured: Vec<IncomingPromotionCandidate> = Vec::new();
    let mut failed: Vec<IncomingPromotionCandidate> = Vec::new();
    let mut not_configured: Vec<IncomingPromotionCandidate> = Vec::new();
    let mut i: usize = 0;
    proof {
        assert(candidates@.take(0) =~= Seq::<IncomingPromotionCandidate>::empty());
    }
    while i < candidates.len()
        invariant
            i <= candidates.len(),
            binding_configured@ == in_category(
                candidates@.take(i as int),
                IncomingVerificationCategory::BindingConfigured,
            ),
            failed@ == in_category(candidates@.take(i as int), IncomingVerificationCategory::Failed),
            not_configured@ == in_category(
                candidates@.take(i as int),
                IncomingVerificationCategory::NotConfigured,
            ),
        decreases candidates.len() - i,
    {
        proof {
            assert(candidates@.take(i + 1).drop_last() =~= candidates@.take(i as int));
            assert(candidates@.take(i + 1).last() == candidates@[i as int]);
        }
        let candidate = candidates[i].duplicate();
        match candidate.review.category {
            IncomingVerificationCategory::BindingConfigured => binding_configured.push(candidate),
            IncomingVerificationCategory::Failed => failed.push(candidate),
            IncomingVerificationCategory::NotConfigured => not_configured.push(candidate),
            IncomingVerificationCategory::Verified => {},
        }
        i = i + 1;
    }
    proof {
        assert(candidates@.take(candidates@.len() as int) =~= candidates@);
    }
    Some(IncomingVerificationReport { binding_configured, failed, not_configured })
}

/// Whether a known-keys entry already vouches for an incoming key.
#[derive(Debug, Clone, Copy, PartialEq, Eq, Structural)]
pub enum KnownKeyJudgment {
    Existing,
    New,
}

/// Where a promotion candidate goes.
#[derive(Debug, Clone, Copy, PartialEq, Eq, Structural)]
pub enum PromotionJudgment {
    /// The operator's own key, matching the local keystore: accepted.
    SelfKey,
    /// A key the known-keys list already holds: accepted.
    Existing,
    /// A key nobody has reviewed: the operator decides.
    New,
}

pub open spec fn self_promotion_mismatch() -> Seq<char> {
    "E_REWRAP_SELF_PROMOTION_MISMATCH"@
}

pub open spec fn self_promotion_mismatch_message(c: IncomingPromotionCandidate) -> Seq<char> {
    "Incoming self key '"@ + c.review.member_handle@ + "' ("@ + c.review.kid@
        + ") did not match local keystore identity"@
}

/// Judge one promotion candidate.
///
/// `known_key` is the known-keys judgment of the candidate's key. When the
/// candidate carries the operator's own handle (`self_member_handle`),
/// `self_identity_matches` says whether its key is one of the local keystore's
/// identities; it is consulted only then. A candidate with the operator's
/// handle and another key is refused, whatever the known keys say.
pub fn promotion_judgment(
    candidate: &IncomingPromotionCandidate,
    known_key: Result<KnownKeyJudgment>,
    self_member_handle: Option<&str>,
    self_identity_matches: Result<bool>,
) -> (r: Result<PromotionJudgment>)
    ensures
        known_key matches Err(e) ==> r == Err::<PromotionJudgment, Error>(e),
        known_key matches Ok(k) ==> if self_member_handle matches Some(h) && h@
            == candidate.review.member_handle@ {
            match self_identity_matches {
                Err(e) => r == Err::<PromotionJudgment, Error>(e),
                Ok(true) => r == Ok::<PromotionJudgment, Error>(PromotionJudgment::SelfKey),
                Ok(false) => r matches Err(e) && e.kind == ErrorKind::Verification && (e.code matches Some(
                    c,
                ) && c@ == self_promotion_mismatch()) && e.message@
                    == self_promotion_mismatch_message(*candidate),
            }
        } else {
            r == Ok::<PromotionJudgment, Error>(
                match k {
                    KnownKeyJudgment::Existing => PromotionJudgment::Existing,
                    KnownKeyJudgment::New => PromotionJudgment::New,
                },
            )
        },
{
    let known = known_key?;
    let is_self = match self_member_handle {
        Some(h) => text_eq(h, candidate.review.member_handle.as_str()),
        None => false,
    };
    if is_self {
        if self_identity_matches? {
            return Ok(PromotionJudgment::SelfKey);
        }
        let mut message = owned("Incoming self key '");
        push_str(&mut message, candidate.review.member_handle.as_str());
        push_str(&mut message, "' (");
        push_str(&mut message, candidate.review.kid.as_str());
        push_str(&mut message, ") did not match local keystore identity");
        return Err(
            Error::build_verification_error(owned("E_REWRAP_SELF_PROMOTION_MISMATCH"), message),
        );
    }
    match known {
        KnownKeyJudgment::Existing => Ok(PromotionJudgment::Existing),
        KnownKeyJudgment::New => Ok(PromotionJudgment::New),
    }
}

pub open spec fn incoming_review_required_message() -> Seq<char> {
    "Trust review is required for incoming members."@
}

/// Incoming members that need a decision can only be promoted where a review
/// can be held.
pub fn require_promotion_review_available(
    prompt_candidates: &Vec<IncomingPromotionCandidate>,
    review_available: bool,
) -> (r: Result<()>)
    ensures
        r is Ok <==> prompt_candidates@.len() == 0 || review_available,
        r matches Err(e) ==> e.kind == ErrorKind::Verification && (e.code matches Some(c) && c@
            == "E_TRUST_REJECTED"@) && e.message@ == incoming_review_required_message(),
{
    if prompt_candidates.len() == 0 || review_available {
        return Ok(());
    }
    Err(
        Error::build_verification_error(
            owned("E_TRUST_REJECTED"),
            owned("Trust review is required for incoming members."),
        ),
    )
}

/// The candidates of the first `n`, in order, judged into the prompt bucket
/// (`prompt`) or the auto-accepted one (`!prompt`).
pub open spec fn judged(
    cs: Seq<IncomingPromotionCandidate>,
    js: Seq<Result<PromotionJudgment>>,
    n: int,
    prompt: bool,
) -> Seq<IncomingPromotionCandidate>
    decreases n,
{
    if n <= 0 {
        Seq::empty()
    } else {
        let prev = judged(cs, js, n - 1, prompt);
        if js[n - 1] matches Ok(j) && (j == PromotionJudgment::New) == prompt {
            prev.push(cs[n - 1])
        } else {
            prev
        }
    }
}

/// The candidates a plan judges: those with a GitHub binding, then those
/// without.
pub open spec fn judged_candidates(report: IncomingVerificationReport) -> Seq<
    IncomingPromotionCandidate,
> {
    report.binding_configured@ + report.not_configured@
}

/// `i` is the first judgment that failed.
pub open spec fn first_failed_judgment(js: Seq<Result<PromotionJudgment>>, i: int) -> bool {
    &&& 0 <= i < js.len()
    &&& js[i] is Err
    &&& forall|j: int| 0 <= j < i ==> (#[trigger] js[j]) is Ok
}

/// Sort the judged candidates of a report into a review plan.
///
/// `judgments` holds, in the order of `judged_candidates`, the
/// `promotion_judgment` of each candidate. The first failed judgment stops
/// the plan; candidates to prompt for stop it too where no review can be
/// held. Offline failures are carried over unchanged.
pub fn build_promotion_review_plan(
    report: &IncomingVerificationReport,
    judgments: &Vec<Result<PromotionJudgment>>,
    review_available: bool,
) -> (r: Result<IncomingPromotionReviewPlan>)
    requires
        judgments@.len() == report.binding_configured@.len() + report.not_configured@.len(),
    ensures
        forall|i: int| first_failed_judgment(judgments@, i) ==> r == Err::<
            IncomingPromotionReviewPlan,
            Error,
        >(judgments@[i]->Err_0),
        (forall|i: int| 0 <= i < judgments@.len() ==> (#[trigger] judgments@[i]) is Ok) ==> {
            let prompt = judged(judged_candidates(*report), judgments@, judgments@.len() as int, true);
            let auto = judged(judged_candidates(*report), judgments@, judgments@.len() as int, false);
            &&& (r is Ok <==> prompt.len() == 0 || review_available)
            &&& r matches Ok(plan) ==> {
                &&& plan.failed_candidates@ == report.failed@
                &&& plan.auto_accepted_candidates@ == auto
                &&& plan.prompt_candidates@ == prompt
            }
            &&& r matches Err(e) ==> e.kind == ErrorKind::Verification && (e.code matches Some(c)
                && c@ == "E_TRUST_REJECTED"@) && e.message@ == incoming_review_required_message()
        },
{
    let ghost cs = judged_candidates(*report);
    let nb = report.binding_configured.len();
    let mut auto: Vec<IncomingPromotionCandidate> = Vec::new();
    let mut prompt: Vec<IncomingPromotionCandidate> = Vec::new();
    let ghost js = judgments@;
    let total = judgments.len();
    let mut i: usize = 0;
    while i < total
        invariant
            total == js.len(),
            judgments@ == js,
            js.len() == report.binding_configured@.len() + report.not_configured@.len(),
            cs == judged_candidates(*report),
            nb == report.binding_configured@.len(),
            i <= js.len(),
            forall|k: int| 0 <= k < i ==> (#[trigger] js[k]) is Ok,
            auto@ == judged(cs, js, i as int, false),
            prompt@ == judged(cs, js, i as int, true),
        decreases total - i,
    {
        let judgment = &judgments[i];
        let candidate = if i < nb {
            report.binding_configured[i].duplicate()
        } else {
            report.not_configured[i - nb].duplicate()
        };
        proof {
            assert(candidate == cs[i as int]);
        }
        match judgment {
            Err(e) => {
                proof {
                    assert(first_failed_judgment(js, i as int));
                    assert forall|k: int| first_failed_judgment(js, k) implies k == i by {
                        if k > i {
                            assert(js[i as int] is Ok);
                        }
                    }
                }
                return Err(e.duplicate());
            },
            Ok(PromotionJudgment::New) => prompt.push(candidate),
            Ok(_) => auto.push(candidate),
        }
        i = i + 1;
    }
    require_promotion_review_available(&prompt, review_available)?;
    Ok(
        IncomingPromotionReviewPlan {
            failed_candidates: duplicate_candidates(&report.failed),
            auto_accepted_candidates: auto,
            prompt_candidates: prompt,
        },
    )
}

/// An incoming member that cannot be offered for promotion.
#[derive(Debug, Clone)]
pub struct PromotionReviewFailure {
    pub member_handle: String,
    pub message: String,
}

/// An incoming member offered for promotion.
#[derive(Debug, Clone)]
pub struct PromotionReviewPrompt {
    pub candidate: TrustApprovalCandidate,
}

/// What a promotion review shows its caller.
#[derive(Debug, Clone)]
pub struct PromotionReviewView {
    pub failed_candidates: Vec<PromotionReviewFailure>,
    pub prompt_candidates: Vec<PromotionReviewPrompt>,
}

/// A promotion review in progress.
pub struct PromotionReviewSession {
    view: PromotionReviewView,
    auto_accepted_candidates: Vec<IncomingPromotionCandidate>,
    prompt_candidates: Vec<IncomingPromotionCandidate>,
}

pub open spec fn online_success_message() -> Seq<char> {
    "GitHub verification succeeded"@
}

/// `candidate` as a successful online verification with `evidence` leaves it.
pub open spec fn verified_online(
    candidate: IncomingPromotionCandidate,
    evidence: VerifiedGitHubEvidence,
    after: IncomingPromotionCandidate,
) -> bool {
    &&& after.source_content == candidate.source_content
    &&& after.destination == candidate.destination
    &&& after.public_key == candidate.public_key
    &&& after.review.member_handle == candidate.review.member_handle
    &&& after.review.kid == candidate.review.kid
    &&& after.review.github_binding_configured == candidate.review.github_binding_configured
    &&& after.review.attestor_pub == candidate.review.attestor_pub
    &&& after.review.category == IncomingVerificationCategory::Verified
    &&& after.review.message@ == online_success_message()
    &&& after.review.fingerprint matches Some(f) && f@ == evidence.fingerprint_view()
    &&& after.review.verified_github matches Some(v) && v.id == evidence.account_view().id_view()
        && v.login@ == evidence.account_view().login_view() && v.fingerprint@
        == evidence.fingerprint_view() && v.matched_key_id == evidence.matched_key_id_view()
    &&& after.review.verified_service_evidence == Some(evidence)
}

/// Apply the outcome of the online check of one candidate: a candidate
/// without a GitHub binding is returned unchanged; for one with a binding,
/// the evidence found (or the failure to find it) is `evidence`.
pub fn evaluate_promotion_candidate_online(
    candidate: &IncomingPromotionCandidate,
    evidence: Result<VerifiedGitHubEvidence>,
) -> (r: Result<IncomingPromotionCandidate>)
    ensures
        !candidate.review.github_binding_configured ==> r == Ok::<
            IncomingPromotionCandidate,
            Error,
        >(*candidate),
        candidate.review.github_binding_configured ==> match evidence {
            Err(e) => r == Err::<IncomingPromotionCandidate, Error>(e),
            Ok(ev) => r matches Ok(after) && verified_online(*candidate, ev, after),
        },
{
    if !candidate.review.github_binding_configured {
        return Ok(candidate.duplicate());
    }
    let evidence = evidence?;
    let verified_github = VerifiedGithubIdentity {
        id: evidence.account().id(),
        login: owned(evidence.account().login()),
        fingerprint: owned(evidence.fingerprint()),
        matched_key_id: evidence.matched_key_id(),
    };
    let mut reviewed = candidate.duplicate();
    reviewed.review.category = IncomingVerificationCategory::Verified;
    reviewed.review.message = owned("GitHub verification succeeded");
    reviewed.review.fingerprint = Some(owned(evidence.fingerprint()));
    reviewed.review.verified_github = Some(verified_github);
    reviewed.review.verified_service_evidence = Some(evidence);
    Ok(reviewed)
}

/// `candidate` as a failed online verification reporting `message` leaves it.
pub open spec fn failed_online(
    candidate: IncomingPromotionCandidate,
    message: Seq<char>,
    after: IncomingPromotionCandidate,
) -> bool {
    &&& after.source_content == candidate.source_content
    &&& after.destination == candidate.destination
    &&& after.public_key == candidate.public_key
    &&& after.review.member_handle == candidate.review.member_handle
    &&& after.review.kid == candidate.review.kid
    &&& after.review.github_binding_configured == candidate.review.github_binding_configured
    &&& after.review.attestor_pub == candidate.review.attestor_pub
    &&& after.review.category == IncomingVerificationCategory::Failed
    &&& after.review.message@ == message
    &&& after.review.fingerprint is None
    &&& after.review.verified_github is None
    &&& after.review.verified_service_evidence is None
}

/// A candidate whose online check failed with `error`: no prompt can offer it.
fn build_online_verification_failure(candidate: &IncomingPromotionCandidate, error: &Error) -> (r:
    IncomingPromotionCandidate)
    ensures
        failed_online(*candidate, error.message@, r),
{
    let mut failed = candidate.duplicate();
    failed.review.category = IncomingVerificationCategory::Failed;
    failed.review.message = error.format_user_message();
    failed.review.fingerprint = None;
    failed.review.verified_github = None;
    failed.review.verified_service_evidence = None;
    failed
}

/// What the online check leaves of a prompt candidate: a candidate without a
/// binding is not checked, and a failed check is folded into a candidate no
/// prompt can offer.
pub open spec fn reviewed_online(
    candidate: IncomingPromotionCandidate,
    online: Result<IncomingPromotionCandidate>,
    after: IncomingPromotionCandidate,
) -> bool {
    if !candidate.review.github_binding_configured {
        after == candidate
    } else {
        match online {
            Ok(r) => after == r,
            Err(e) => failed_online(candidate, e.message@, after),
        }
    }
}

/// A prompt candidate can stand in the review after its online check with
/// `online`: it is set aside as skipped, or its key document's subject handle
/// passes the member handle rules.
pub open spec fn shown_after_check(
    candidate: IncomingPromotionCandidate,
    online: Result<IncomingPromotionCandidate>,
) -> bool {
    if !candidate.review.github_binding_configured {
        skipped(candidate) || crate::validation::is_valid_member_handle(
            candidate.public_key.subject_handle@,
        )
    } else {
        match online {
            Ok(r) => skipped(r) || crate::validation::is_valid_member_handle(
                r.public_key.subject_handle@,
            ),
            Err(_) => true,
        }
    }
}

proof fn lemma_shown_after_check(
    candidate: IncomingPromotionCandidate,
    online: Result<IncomingPromotionCandidate>,
    after: IncomingPromotionCandidate,
)
    requires
        reviewed_online(candidate, online, after),
    ensures
        shown_after_check(candidate, online) <==> (skipped(after)
            || crate::validation::is_valid_member_handle(after.public_key.subject_handle@)),
{
}

fn verify_prompt_candidate(
    candidate: &IncomingPromotionCandidate,
    online: &Result<IncomingPromotionCandidate>,
) -> (r: IncomingPromotionCandidate)
    ensures
        reviewed_online(*candidate, *online, r),
{
    if !candidate.review.github_binding_configured {
        return candidate.duplicate();
    }
    match online {
        Ok(reviewed) => reviewed.duplicate(),
        Err(error) => build_online_verification_failure(candidate, error),
    }
}

/// A reviewed candidate that no prompt may offer: one with a binding that
/// was not verified, or one that failed.
pub open spec fn skipped(c: IncomingPromotionCandidate) -> bool {
    (c.review.github_binding_configured && c.review.category
        != IncomingVerificationCategory::Verified) || c.review.category
        == IncomingVerificationCategory::Failed
}

fn should_skip_prompt_candidate(candidate: &IncomingPromotionCandidate) -> (r: bool)
    ensures
        r == skipped(*candidate),
{
    (candidate.review.github_binding_configured && candidate.review.category
        != IncomingVerificationCategory::Verified) || candidate.review.category
        == IncomingVerificationCategory::Failed
}

/// The failure entry that shows `c`.
pub open spec fn shows_failure(f: PromotionReviewFailure, c: IncomingPromotionCandidate) -> bool {
    f.member_handle == c.review.member_handle && f.message == c.review.message
}

fn build_failed_candidate(candidate: &IncomingPromotionCandidate) -> (f: PromotionReviewFailure)
    ensures
        shows_failure(f, *candidate),
{
    PromotionReviewFailure {
        member_handle: candidate.review.member_handle.clone(),
        message: candidate.review.message.clone(),
    }
}

/// `a` is the approval candidate that presents `c` for review: its verified
/// key, the online context it was checked in, and the evidence it gathered.
pub open spec fn presents_incoming(a: TrustApprovalCandidate, c: IncomingPromotionCandidate) -> bool {
    &&& a.candidate_view().handle_view() == c.public_key.subject_handle@
    &&& a.candidate_view().kid_view() == c.public_key.kid@
    &&& a.candidate_view().attestor_view() == c.public_key.attestor_pub@
    &&& a.attempted_view() == c.review.github_binding_configured
    &&& a.message_view() == Some(c.review.message@)
    &&& a.evidence_view() == c.review.verified_service_evidence
    &&& a.oob_view()
}

/// The approval candidate shown for an incoming member; its subject handle
/// must pass the member handle rules.
pub fn incoming_approval_candidate(candidate: &IncomingPromotionCandidate) -> (r: Result<
    TrustApprovalCandidate,
>)
    ensures
        r is Ok <==> crate::validation::is_valid_member_handle(candidate.public_key.subject_handle@),
        r matches Err(e) ==> e.kind == ErrorKind::InvalidArgument,
        r matches Ok(a) ==> presents_incoming(a, *candidate),
{
    let service_candidate = KnownKeyReviewCandidate::from_public_key(
        &candidate.public_key,
        duplicate_opt(&candidate.review.fingerprint),
    )?;
    let evidence = match &candidate.review.verified_service_evidence {
        Some(e) => Some(e.duplicate()),
        None => None,
    };
    Ok(
        TrustApprovalCandidateBuilder::from_known_key_candidate(
            &service_candidate,
        ).with_online_verification_context(
            candidate.review.github_binding_configured,
            Some(candidate.review.message.clone()),
        ).with_optional_verified_service_evidence(evidence).build(),
    )
}

impl PromotionReviewSession {
    pub closed spec fn view_view(self) -> PromotionReviewView {
        self.view
    }

    pub closed spec fn auto_view(self) -> Seq<IncomingPromotionCandidate> {
        self.auto_accepted_candidates@
    }

    pub closed spec fn prompt_view(self) -> Seq<IncomingPromotionCandidate> {
        self.prompt_candidates@
    }

    /// What the review shows its caller.
    pub fn view(&self) -> (v: &PromotionReviewView)
        ensures
            *v == self.view_view(),
    {
        &self.view
    }
}

/// The session after each prompt candidate of `plan` went through its online
/// check: `failed` shows the offline failures and then the reviewed
/// candidates that were skipped, `prompt` holds the others in order, each
/// shown by one prompt.
pub open spec fn session_reviews(
    plan: IncomingPromotionReviewPlan,
    reviewed: Seq<IncomingPromotionCandidate>,
    s: PromotionReviewSession,
) -> bool {
    &&& s.auto_view() == plan.auto_accepted_candidates@
    &&& s.prompt_view() == reviewed.filter(|c: IncomingPromotionCandidate| !skipped(c))
    &&& s.view_view().prompt_candidates@.len() == s.prompt_view().len()
    &&& forall|k: int|
        0 <= k < s.prompt_view().len() ==> presents_incoming(
            (#[trigger] s.view_view().prompt_candidates@[k]).candidate,
            s.prompt_view()[k],
        )
    &&& s.view_view().failed_candidates@.len() == plan.failed_candidates@.len() + reviewed.filter(
        |c: IncomingPromotionCandidate| skipped(c),
    ).len()
    &&& forall|k: int|
        0 <= k < plan.failed_candidates@.len() ==> shows_failure(
            #[trigger] s.view_view().failed_candidates@[k],
            plan.failed_candidates@[k],
        )
    &&& forall|k: int|
        0 <= k < reviewed.filter(|c: IncomingPromotionCandidate| skipped(c)).len() ==> shows_failure(
            #[trigger] s.view_view().failed_candidates@[plan.failed_candidates@.len() + k],
            reviewed.filter(|c: IncomingPromotionCandidate| skipped(c))[k],
        )
}

/// `s` is the session of `plan` for some outcome of the online checks of its
/// prompt candidates that `online` gives.
pub open spec fn reviewed_session(
    plan: IncomingPromotionReviewPlan,
    online: Seq<Result<IncomingPromotionCandidate>>,
    s: PromotionReviewSession,
) -> bool {
    exists|reviewed: Seq<IncomingPromotionCandidate>|
        #![trigger session_reviews(plan, reviewed, s)]
        reviewed.len() == online.len() && (forall|k: int|
            0 <= k < reviewed.len() ==> reviewed_online(
                plan.prompt_candidates@[k],
                online[k],
                #[trigger] reviewed[k],
            )) && session_reviews(plan, reviewed, s)
}

/// The places, in order, of the candidates among the first `n` of `cs` that
/// have a GitHub binding.
pub open spec fn binding_places(cs: Seq<IncomingPromotionCandidate>, n: int) -> Seq<int>
    decreases n,
{
    if n <= 0 {
        Seq::empty()
    } else {
        let prev = binding_places(cs, n - 1);
        if cs[n - 1].review.github_binding_configured {
            prev.push(n - 1)
        } else {
            prev
        }
    }
}

/// The prompt candidates of a plan that are sent to online verification, by
/// their place among the plan's prompt candidates: exactly those with a
/// GitHub binding, each once, in order. The others need no online result.
pub fn online_verification_targets(review_plan: &IncomingPromotionReviewPlan) -> (r: Vec<usize>)
    ensures
        r@.map_values(|k: usize| k as int) == binding_places(
            review_plan.prompt_candidates@,
            review_plan.prompt_candidates@.len() as int,
        ),
{
    let ghost cs = review_plan.prompt_candidates@;
    let mut out: Vec<usize> = Vec::new();
    let mut i: usize = 0;
    while i < review_plan.prompt_candidates.len()
        invariant
            cs == review_plan.prompt_candidates@,
            i <= cs.len(),
            out@.map_values(|k: usize| k as int) == binding_places(cs, i as int),
        decreases cs.len() - i,
    {
        if review_plan.prompt_candidates[i].review.github_binding_configured {
            let ghost prev = out@;
            out.push(i);
            proof {
                assert(out@.map_values(|k: usize| k as int) =~= prev.map_values(|k: usize| k as int).push(
                    i as int,
                ));
            }
        }
        i = i + 1;
    }
    out
}

/// Open the review of a plan.
///
/// `online` holds, in the order of the plan's prompt candidates, the result
/// of `evaluate_promotion_candidate_online` for each; it is consulted only
/// for candidates with a GitHub binding. A prompt candidate whose subject
/// handle breaks the member handle rules stops the review.
pub fn build_promotion_review_session(
    review_plan: &IncomingPromotionReviewPlan,
    online: &Vec<Result<IncomingPromotionCandidate>>,
) -> (r: Result<PromotionReviewSession>)
    requires
        online@.len() == review_plan.prompt_candidates@.len(),
    ensures
        r is Ok <==> forall|k: int|
            0 <= k < review_plan.prompt_candidates@.len() ==> shown_after_check(
                #[trigger] review_plan.prompt_candidates@[k],
                online@[k],
            ),
        r matches Err(e) ==> e.kind == ErrorKind::InvalidArgument,
        r matches Ok(s) ==> reviewed_session(*review_plan, online@, s),
{
    let mut failed_candidates: Vec<PromotionReviewFailure> = Vec::new();
    let mut j: usize = 0;
    while j < review_plan.failed_candidates.len()
        invariant
            j <= review_plan.failed_candidates.len(),
            failed_candidates@.len() == j,
            forall|k: int|
                0 <= k < j ==> shows_failure(
                    #[trigger] failed_candidates@[k],
                    review_plan.failed_candidates@[k],
                ),
        decreases review_plan.failed_candidates.len() - j,
    {
        failed_candidates.push(build_failed_candidate(&review_plan.failed_candidates[j]));
        j = j + 1;
    }
    let mut prompt_candidates: Vec<IncomingPromotionCandidate> = Vec::new();
    let mut prompt_views: Vec<PromotionReviewPrompt> = Vec::new();
    let ghost results = online@;
    let ghost mut reviewed: Seq<IncomingPromotionCandidate> = Seq::empty();
    let n = review_plan.prompt_candidates.len();
    let mut i: usize = 0;
    while i < n
        invariant
            n == review_plan.prompt_candidates@.len(),
            results.len() == n,
            online@ == results,
            i <= n,
            reviewed.len() == i,
            forall|k: int|
                0 <= k < i ==> shown_after_check(
                    #[trigger] review_plan.prompt_candidates@[k],
                    results[k],
                ),
            forall|k: int|
                0 <= k < i ==> reviewed_online(
                    review_plan.prompt_candidates@[k],
                    results[k],
                    #[trigger] reviewed[k],
                ),
            prompt_candidates@ == reviewed.filter(|c: IncomingPromotionCandidate| !skipped(c)),
            prompt_views@.len() == prompt_candidates@.len(),
            forall|k: int|
                0 <= k < prompt_candidates@.len() ==> presents_incoming(
                    (#[trigger] prompt_views@[k]).candidate,
                    prompt_candidates@[k],
                ),
            failed_candidates@.len() == review_plan.failed_candidates@.len() + reviewed.filter(
                |c: IncomingPromotionCandidate| skipped(c),
            ).len(),
            forall|k: int|
                0 <= k < review_plan.failed_candidates@.len() ==> shows_failure(
                    #[trigger] failed_candidates@[k],
                    review_plan.failed_candidates@[k],
                ),
            forall|k: int|
                0 <= k < reviewed.filter(|c: IncomingPromotionCandidate| skipped(c)).len()
                    ==> shows_failure(
                    #[trigger] failed_candidates@[review_plan.failed_candidates@.len() + k],
                    reviewed.filter(|c: IncomingPromotionCandidate| skipped(c))[k],
                ),
        decreases n - i,
    {
        let candidate = verify_prompt_candidate(&review_plan.prompt_candidates[i], &online[i]);
        let ghost before = reviewed;
        proof {
            reviewed = reviewed.push(candidate);
            assert(reviewed.drop_last() =~= before);
            reveal(Seq::filter);
        }
        proof {
            lemma_shown_after_check(review_plan.prompt_candidates@[i as int], results[i as int], candidate);
        }
        if should_skip_prompt_candidate(&candidate) {
            let ghost prev_failed = failed_candidates@;
            failed_candidates.push(build_failed_candidate(&candidate));
            proof {
                let m = review_plan.failed_candidates@.len();
                let sk = reviewed.filter(|c: IncomingPromotionCandidate| skipped(c));
                let sk0 = before.filter(|c: IncomingPromotionCandidate| skipped(c));
                assert(sk == sk0.push(candidate));
                assert forall|k: int| 0 <= k < m implies shows_failure(
                    #[trigger] failed_candidates@[k],
                    review_plan.failed_candidates@[k],
                ) by {
                    assert(failed_candidates@[k] == prev_failed[k]);
                }
                assert forall|k: int| 0 <= k < sk.len() implies shows_failure(
                    #[trigger] failed_candidates@[m + k],
                    sk[k],
                ) by {
                    if k < sk0.len() {
                        assert(failed_candidates@[m + k] == prev_failed[m + k]);
                    }
                }
            }
        } else {
            proof {
                lemma_shown_after_check(review_plan.prompt_candidates@[i as int], results[i as int], candidate);
            }
            let shown = match incoming_approval_candidate(&candidate) {
                Ok(a) => a,
                Err(e) => {
                    proof {
                        assert(!shown_after_check(review_plan.prompt_candidates@[i as int], online@[i as int]));
                    }
                    return Err(e);
                },
            };
            prompt_views.push(PromotionReviewPrompt { candidate: shown });
            prompt_candidates.push(candidate);
        }
        i = i + 1;
    }
    let session = PromotionReviewSession {
        view: PromotionReviewView { failed_candidates, prompt_candidates: prompt_views },
        auto_accepted_candidates: duplicate_candidates(&review_plan.auto_accepted_candidates),
        prompt_candidates,
    };
    proof {
        assert(session_reviews(*review_plan, reviewed, session));
        assert(reviewed.len() == online@.len());
        assert(forall|k: int|
            0 <= k < reviewed.len() ==> reviewed_online(
                review_plan.prompt_candidates@[k],
                online@[k],
                #[trigger] reviewed[k],
            ));
        assert(reviewed_session(*review_plan, online@, session));
    }
    Ok(session)
}

/// Whether `handle` is one of `handles`.
pub fn handle_listed(handles: &[String], handle: &str) -> (r: bool)
    ensures
        r == exists|k: int| 0 <= k < handles@.len() && (#[trigger] handles@[k])@ == handle@,
{
    let mut k: usize = 0;
    while k < handles.len()
        invariant
            k <= handles.len(),
            forall|j: int| 0 <= j < k ==> (#[trigger] handles@[j])@ != handle@,
        decreases handles.len() - k,
    {
        if text_eq(handles[k].as_str(), handle) {
            return true;
        }
        k = k + 1;
    }
    false
}

/// The member handle of `c` is one of `handles`.
pub open spec fn accepted_by(handles: Seq<String>, c: IncomingPromotionCandidate) -> bool {
    exists|k: int| 0 <= k < handles.len() && (#[trigger] handles[k])@ == c.review.member_handle@
}

/// The GitHub account id the key document of `c` binds itself to.
pub open spec fn claimed_account_id(c: IncomingPromotionCandidate) -> Option<u64> {
    match c.public_key.github_account {
        Some(a) => Some(a.id),
        None => None::<u64>,
    }
}

/// Verified service evidence `e` describes the key document of `c`: the same
/// member, key and attestor, and the account the document binds itself to.
pub open spec fn evidence_describes_document(
    e: VerifiedGitHubEvidence,
    c: IncomingPromotionCandidate,
) -> bool {
    &&& e.handle_view() == c.public_key.subject_handle@
    &&& e.kid_view() == c.public_key.kid@
    &&& e.attestor_view() == c.public_key.attestor_pub@
    &&& claimed_account_id(c) == Some(e.account_view().id_view())
}

/// A promoted candidate can be approved: its subject handle passes the member
/// handle rules, a GitHub binding its document claims is backed by verified
/// evidence, and the evidence it carries describes its document.
pub open spec fn promotion_approvable(c: IncomingPromotionCandidate) -> bool {
    &&& crate::validation::is_valid_member_handle(c.public_key.subject_handle@)
    &&& claimed_account_id(c) is Some ==> c.review.verified_service_evidence is Some
    &&& (c.review.verified_service_evidence matches Some(e) ==> evidence_describes_document(e, c))
}

/// The kind of error approving `c` fails with: an invalid subject handle is
/// an invalid argument, evidence that does not fit is a verification failure.
pub open spec fn promotion_failure_kind(c: IncomingPromotionCandidate) -> ErrorKind {
    if crate::validation::is_valid_member_handle(c.public_key.subject_handle@) {
        ErrorKind::Verification
    } else {
        ErrorKind::InvalidArgument
    }
}

/// `a` is the known-key approval of the document of `c`: it reviews that
/// document's member, key, attestor and claimed account with the fingerprint
/// `c` was shown with, and records the document's attestor key and the
/// verified service evidence of `c` beside it.
pub open spec fn approves_promotion(c: IncomingPromotionCandidate, a: TrustApproval) -> bool {
    a matches TrustApproval::KnownKey(k) && {
        let cand = k.candidate_view();
        &&& cand.handle_view() == c.public_key.subject_handle@
        &&& cand.kid_view() == c.public_key.kid@
        &&& cand.fingerprint_view() == crate::model::opt_view(c.review.fingerprint)
        &&& cand.attestor_view() == c.public_key.attestor_pub@
        &&& cand.github_account_id_view() == claimed_account_id(c)
        &&& k.evidence_view().github_view() == c.review.verified_service_evidence
        &&& k.evidence_view().attestor_view() == Some(c.public_key.attestor_pub@)
    }
}

/// The approval that records trust in a promoted candidate.
fn build_promotion_approval(candidate: &IncomingPromotionCandidate) -> (r: Result<TrustApproval>)
    ensures
        r is Ok <==> promotion_approvable(*candidate),
        r matches Err(e) ==> e.kind == promotion_failure_kind(*candidate),
        r matches Ok(a) ==> approves_promotion(*candidate, a),
{
    let reviewed = KnownKeyReviewCandidate::from_public_key(
        &candidate.public_key,
        duplicate_opt(&candidate.review.fingerprint),
    )?;
    let mut evidence = KnownKeyApprovalEvidence::none().with_ssh_attestor_public_key(
        owned(reviewed.ssh_attestor_public_key()),
    );
    match &candidate.review.verified_service_evidence {
        Some(github) => {
            evidence = evidence.with_verified_github_account(github.duplicate());
        },
        None => {},
    }
    let r = TrustApproval::known_key(&reviewed, evidence);
    proof {
        assert(evidence.github_view() == candidate.review.verified_service_evidence);
        assert(evidence.attestor_view() == Some(candidate.public_key.attestor_pub@));
    }
    r
}

/// Whether the operator accepted a candidate, by its member handle.
pub open spec fn accepts(handles: Seq<String>) -> spec_fn(IncomingPromotionCandidate) -> bool {
    |c: IncomingPromotionCandidate| accepted_by(handles, c)
}

/// The prompted candidates the operator accepted, in order.
pub open spec fn chosen_prompts(
    prompts: Seq<IncomingPromotionCandidate>,
    handles: Seq<String>,
) -> Seq<IncomingPromotionCandidate> {
    prompts.filter(accepts(handles))
}

/// Each of `approvals` approves the candidate at its place in `chosen`, and
/// each of those candidates could be approved.
pub open spec fn approvals_match(
    chosen: Seq<IncomingPromotionCandidate>,
    approvals: Seq<TrustApproval>,
) -> bool {
    &&& approvals.len() == chosen.len()
    &&& forall|k: int|
        0 <= k < approvals.len() ==> promotion_approvable(chosen[k]) && approves_promotion(
            chosen[k],
            #[trigger] approvals[k],
        )
}

/// Appending an approvable candidate with its approval keeps the match.
proof fn lemma_approvals_match_push(
    chosen: Seq<IncomingPromotionCandidate>,
    approvals: Seq<TrustApproval>,
    c: IncomingPromotionCandidate,
    a: TrustApproval,
)
    requires
        approvals_match(chosen, approvals),
        promotion_approvable(c),
        approves_promotion(c, a),
    ensures
        approvals_match(chosen.push(c), approvals.push(a)),
{
    let cs = chosen.push(c);
    let aps = approvals.push(a);
    assert(aps.len() == cs.len());
    assert forall|k: int| 0 <= k < aps.len() implies #[trigger] promotion_approvable(cs[k]) by {
        if k < approvals.len() {
            assert(cs[k] == chosen[k]);
            assert(approves_promotion(chosen[k], approvals[k]));
        }
    }
    assert forall|k: int| 0 <= k < aps.len() implies approves_promotion(
        cs[k],
        #[trigger] aps[k],
    ) by {
        if k < approvals.len() {
            assert(aps[k] == approvals[k]);
            assert(cs[k] == chosen[k]);
            assert(approves_promotion(chosen[k], approvals[k]));
        }
    }
    assert(approvals_match(cs, aps));
}

/// Splitting a filtered sequence at a kept element: what the prefix before it
/// keeps comes first, then that element.
proof fn lemma_filter_keeps_at(
    s: Seq<IncomingPromotionCandidate>,
    i: int,
    p: spec_fn(IncomingPromotionCandidate) -> bool,
)
    requires
        0 <= i < s.len(),
        p(s[i]),
    ensures
        s.take(i).filter(p).len() < s.filter(p).len(),
        s.filter(p)[s.take(i).filter(p).len() as int] == s[i],
        forall|k: int|
            0 <= k < s.take(i).filter(p).len() ==> #[trigger] s.filter(p)[k] == s.take(i).filter(
                p,
            )[k],
{
    let one = seq![s[i]];
    let rest = s.skip(i + 1);
    assert(s =~= s.take(i) + (one + rest));
    Seq::filter_distributes_over_add(s.take(i), one + rest, p);
    Seq::filter_distributes_over_add(one, rest, p);
    reveal_with_fuel(Seq::filter, 2);
    assert(one.drop_last() =~= Seq::<IncomingPromotionCandidate>::empty());
    assert(one.filter(p) =~= one);
}

impl PromotionReviewSession {
    /// The candidates to promote, with the approvals that record trust in
    /// the prompted ones: every auto-accepted candidate, and the prompted
    /// candidates whose member handle the operator accepted, in order. It
    /// fails, with the error of the first accepted candidate that cannot be
    /// approved, when one cannot.
    pub fn into_accepted_candidates_and_approvals(self, accepted_member_handles: &[String]) -> (r:
        Result<(Vec<IncomingPromotionCandidate>, Vec<TrustApproval>)>)
        ensures
            ({
                let chosen = chosen_prompts(self.prompt_view(), accepted_member_handles@);
                &&& r is Ok <==> forall|k: int|
                    0 <= k < chosen.len() ==> promotion_approvable(#[trigger] chosen[k])
                &&& r matches Err(e) ==> exists|k: int|
                    0 <= k < chosen.len() && !promotion_approvable(#[trigger] chosen[k]) && (forall|
                        j: int,
                    | 0 <= j < k ==> promotion_approvable(#[trigger] chosen[j])) && e.kind
                        == promotion_failure_kind(chosen[k])
                &&& r matches Ok((accepted, approvals)) ==> {
                    &&& accepted@ == self.auto_view() + chosen
                    &&& approvals@.len() == chosen.len()
                    &&& forall|k: int|
                        0 <= k < approvals@.len() ==> approves_promotion(
                            chosen[k],
                            #[trigger] approvals@[k],
                        )
                }
            }),
    {
        let ghost prompt_view = self.prompt_view();
        let PromotionReviewSession { view: _, auto_accepted_candidates, prompt_candidates } = self;
        let ghost prompts = prompt_candidates@;
        assert(prompts == prompt_view);
        let ghost handles = accepted_member_handles@;
        let ghost p = accepts(handles);
        let mut accepted = auto_accepted_candidates;
        let ghost auto = accepted@;
        let mut approvals: Vec<TrustApproval> = Vec::new();
        let mut i: usize = 0;
        proof {
            reveal(Seq::filter);
            assert(prompts.take(0) =~= Seq::<IncomingPromotionCandidate>::empty());
            assert(accepted@ =~= auto + prompts.take(0).filter(p));
        }
        while i < prompt_candidates.len()
            invariant
                prompts == prompt_candidates@,
                prompts == prompt_view,
                prompt_view == self.prompt_view(),
                handles == accepted_member_handles@,
                p == accepts(handles),
                i <= prompt_candidates.len(),
                accepted@ == auto + prompts.take(i as int).filter(p),
                approvals_match(prompts.take(i as int).filter(p), approvals@),
            decreases prompt_candidates.len() - i,
        {
            let candidate = &prompt_candidates[i];
            let ghost before = prompts.take(i as int).filter(p);
            proof {
                reveal(Seq::filter);
                assert(prompts.take(i + 1).drop_last() =~= prompts.take(i as int));
                assert(prompts.take(i + 1).last() == prompts[i as int]);
            }
            if handle_listed(accepted_member_handles, candidate.review.member_handle.as_str()) {
                proof {
                    assert(p(prompts[i as int]));
                    lemma_filter_keeps_at(prompts, i as int, p);
                }
                let approval = match build_promotion_approval(candidate) {
                    Ok(a) => a,
                    Err(e) => {
                        proof {
                            let chosen = prompts.filter(p);
                            let k = before.len() as int;
                            assert(chosen[k] == prompts[i as int]);
                            assert forall|j: int| 0 <= j < k implies promotion_approvable(
                                #[trigger] chosen[j],
                            ) by {
                                assert(chosen[j] == before[j]);
                                assert(approves_promotion(before[j], approvals@[j]));
                            }
                            assert(!promotion_approvable(chosen[k]));
                            assert(chosen == chosen_prompts(prompt_view, handles));
                        }
                        return Err(e);
                    },
                };
                let ghost old_approvals = approvals@;
                approvals.push(approval);
                accepted.push(candidate.duplicate());
                proof {
                    assert(accepted_by(handles, prompts[i as int]));
                    let after = prompts.take(i + 1).filter(p);
                    assert(after == before.push(prompts[i as int]));
                    assert(approvals@ == old_approvals.push(approval));
                    lemma_approvals_match_push(before, old_approvals, prompts[i as int], approval);
                    assert(approvals_match(after, approvals@));
                }
            } else {
                proof {
                    assert(!p(prompts[i as int]));
                    assert(prompts.take(i + 1).filter(p) == before);
                }
            }
            i = i + 1;
        }
        proof {
            assert(prompts.take(prompts.len() as int) =~= prompts);
            let chosen = prompts.filter(p);
            assert(approvals_match(chosen, approvals@));
            assert forall|k: int| 0 <= k < chosen.len() implies promotion_approvable(
                #[trigger] chosen[k],
            ) by {
                assert(approves_promotion(chosen[k], approvals@[k]));
            }
        }
        Ok((accepted, approvals))
    }
}

/// Incoming member review bound to the snapshots of one rewrap session.
pub struct RewrapPromotionReview {
    session: PromotionReviewSession,
}

impl RewrapPromotionReview {
    pub closed spec fn session_view(self) -> PromotionReviewSession {
        self.session
    }

    pub fn new(session: PromotionReviewSession) -> (r: RewrapPromotionReview)
        ensures
            r.session_view() == session,
    {
        RewrapPromotionReview { session }
    }

    /// What the review shows its caller.
    pub fn view(&self) -> (v: &PromotionReviewView)
        ensures
            *v == self.session_view().view_view(),
    {
        self.session.view()
    }

    pub fn into_session(self) -> (s: PromotionReviewSession)
        ensures
            s == self.session_view(),
    {
        self.session
    }
}

/// Result of applying reviewed incoming-member promotions.
pub struct RewrapPromotionOutcome {
    promoted_member_handles: Vec<String>,
    trust_outcome: Option<TrustApprovalOutcome>,
}

impl RewrapPromotionOutcome {
    pub closed spec fn promoted_view(self) -> Seq<String> {
        self.promoted_member_handles@
    }

    pub closed spec fn trust_outcome_view(self) -> Option<TrustApprovalOutcome> {
        self.trust_outcome
    }

    pub fn new(promoted_member_handles: Vec<String>, trust_outcome: Option<TrustApprovalOutcome>) -> (r:
        RewrapPromotionOutcome)
        ensures
            r.promoted_view() == promoted_member_handles@,
            r.trust_outcome_view() == trust_outcome,
    {
        RewrapPromotionOutcome { promoted_member_handles, trust_outcome }
    }

    /// The incoming members promoted through the fixed workspace.
    pub fn promoted_member_handles(&self) -> (h: &[String])
        ensures
            h@ == self.promoted_view(),
    {
        self.promoted_member_handles.as_slice()
    }

    /// Diagnostics from persisting promotion trust approvals.
    pub fn trust_outcome(&self) -> (o: Option<&TrustApprovalOutcome>)
        ensures
            match self.trust_outcome_view() {
                Some(t) => o == Some(&t),
                None => o is None,
            },
    {
        match &self.trust_outcome {
            Some(t) => Some(t),
            None => None,
        }
    }
}


/// Only what the operator accepted is promoted: a prompted candidate whose
/// member handle the operator did not accept is not among the candidates
/// `into_accepted_candidates_and_approvals` returns, unless it was also
/// auto-accepted.
pub proof fn lemma_unaccepted_prompt_is_not_promoted(
    auto: Seq<IncomingPromotionCandidate>,
    prompts: Seq<IncomingPromotionCandidate>,
    handles: Seq<String>,
    c: IncomingPromotionCandidate,
)
    requires
        !accepted_by(handles, c),
        !auto.contains(c),
    ensures
        !(auto + prompts.filter(|x: IncomingPromotionCandidate| accepted_by(handles, x))).contains(c),
{
    let chosen = prompts.filter(|x: IncomingPromotionCandidate| accepted_by(handles, x));
    prompts.filter_lemma(|x: IncomingPromotionCandidate| accepted_by(handles, x));
    if (auto + chosen).contains(c) {
        let i = choose|i: int| 0 <= i < (auto + chosen).len() && (auto + chosen)[i] == c;
        if i >= auto.len() {
            assert(chosen[i - auto.len()] == c);
        } else {
            assert(auto[i] == c);
        }
    }
}

} // verus!
