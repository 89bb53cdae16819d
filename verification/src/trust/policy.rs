//! Known-key review candidates, approval evidence and the review requests a
//! trust evaluation hands back instead of prompting.

use vstd::prelude::*;
use crate::error::{Error, ErrorKind, Result};
use crate::model::{duplicate_opt, opt_text_same, opt_view, text_eq, Kid, MemberHandle, PublicKeyClaims};
use crate::online::VerifiedGitHubEvidence;
use crate::text::owned;

verus! {

/// A verified public key presented for known-key review.
#[derive(Debug, Clone)]
pub struct KnownKeyReviewCandidate {
    public_key: PublicKeyClaims,
    subject_handle: MemberHandle,
    kid: Kid,
    fingerprint: Option<String>,
}

impl KnownKeyReviewCandidate {
    pub closed spec fn handle_view(self) -> Seq<char> {
        self.subject_handle@
    }

    pub closed spec fn kid_view(self) -> Seq<char> {
        self.kid@
    }

    pub closed spec fn fingerprint_view(self) -> Option<Seq<char>> {
        opt_view(self.fingerprint)
    }

    pub closed spec fn attestor_view(self) -> Seq<char> {
        self.public_key.attestor_pub@
    }

    pub closed spec fn github_account_id_view(self) -> Option<u64> {
        match self.public_key.github_account {
            Some(account) => Some(account.id),
            None => None,
        }
    }

    /// Present a verified key document for review. The subject handle must
    /// pass the member handle rules; `fingerprint` is the SSH fingerprint of
    /// the attestor key when it could be computed.
    pub fn from_public_key(public_key: &PublicKeyClaims, fingerprint: Option<String>) -> (r: Result<
        KnownKeyReviewCandidate,
    >)
        ensures
            r is Ok <==> crate::validation::is_valid_member_handle(public_key.subject_handle@),
            r matches Err(e) ==> e.kind == ErrorKind::InvalidArgument,
            r matches Ok(c) ==> c.handle_view() == public_key.subject_handle@ && c.kid_view()
                == public_key.kid@ && c.fingerprint_view() == opt_view(fingerprint)
                && c.attestor_view() == public_key.attestor_pub@ && c.github_account_id_view() == (
            match public_key.github_account {
                Some(a) => Some(a.id),
                None => None::<u64>,
            }),
    {
        let subject_handle = MemberHandle::new(public_key.subject_handle.clone())?;
        Ok(
            KnownKeyReviewCandidate {
                public_key: public_key.duplicate(),
                subject_handle,
                kid: Kid::from_verified(public_key.kid.clone()),
                fingerprint,
            },
        )
    }

    /// A copy of this candidate.
    pub fn duplicate(&self) -> (r: KnownKeyReviewCandidate)
        ensures
            r == *self,
    {
        KnownKeyReviewCandidate {
            public_key: self.public_key.duplicate(),
            subject_handle: self.subject_handle.duplicate(),
            kid: self.kid.duplicate(),
            fingerprint: crate::model::duplicate_opt(&self.fingerprint),
        }
    }

    /// The verified subject handle.
    pub fn subject_handle(&self) -> (h: &MemberHandle)
        ensures
            h@ == self.handle_view(),
    {
        &self.subject_handle
    }

    /// The verified key id.
    pub fn kid(&self) -> (k: &Kid)
        ensures
            k@ == self.kid_view(),
    {
        &self.kid
    }

    /// The SSH attestor fingerprint when it could be computed.
    pub fn fingerprint(&self) -> (f: Option<&str>)
        ensures
            match self.fingerprint_view() {
                Some(v) => f matches Some(s) && s@ == v,
                None => f is None,
            },
    {
        match &self.fingerprint {
            Some(f) => Some(f.as_str()),
            None => None,
        }
    }

    /// The SSH attestor public key covered by the verified statement.
    pub fn ssh_attestor_public_key(&self) -> (k: &str)
        ensures
            k@ == self.attestor_view(),
    {
        self.public_key.attestor_pub.as_str()
    }

    /// Whether the verified statement carries a GitHub binding claim.
    pub fn has_github_binding(&self) -> (r: bool)
        ensures
            r == (self.github_account_id_view() is Some),
    {
        self.public_key.github_account.is_some()
    }

    /// The GitHub account id the binding claims, if any.
    pub fn github_account_id(&self) -> (r: Option<u64>)
        ensures
            r == self.github_account_id_view(),
    {
        match &self.public_key.github_account {
            Some(account) => Some(account.id),
            None => None,
        }
    }

    /// The claims of the reviewed key document.
    pub fn public_key(&self) -> (k: &PublicKeyClaims)
        ensures
            k.attestor_pub@ == self.attestor_view(),
    {
        &self.public_key
    }
}

/// Whether a read requires known-key review.
#[derive(Debug, Clone, Copy, PartialEq, Eq, Structural)]
pub enum KnownKeyReview {
    Required,
    Skipped,
}

/// Read controls consumed by one trust evaluation.
#[derive(Debug)]
pub struct ReadTrustExceptions {
    known_key_review: KnownKeyReview,
    accepted_non_member: Option<(MemberHandle, Kid)>,
}

impl ReadTrustExceptions {
    pub closed spec fn review_view(self) -> KnownKeyReview {
        self.known_key_review
    }

    /// Whether this read requires known-key review.
    pub fn known_key_review(&self) -> (r: KnownKeyReview)
        ensures
            r == self.review_view(),
    {
        self.known_key_review
    }

    /// The identity a review accepted as a non-member signer, if any.
    pub closed spec fn accepted_view(self) -> Option<(Seq<char>, Seq<char>)> {
        match self.accepted_non_member {
            Some((h, k)) => Some((h@, k@)),
            None => None,
        }
    }

    /// A fail-closed read policy: review required, nobody accepted.
    pub fn none() -> (e: ReadTrustExceptions)
        ensures
            e.review_view() == KnownKeyReview::Required,
            e.accepted_view() is None,
    {
        ReadTrustExceptions { known_key_review: KnownKeyReview::Required, accepted_non_member: None }
    }

    /// Select whether this read requires known-key review.
    pub fn with_known_key_review(self, review: KnownKeyReview) -> (e: ReadTrustExceptions)
        ensures
            e.review_view() == review,
            e.accepted_view() == self.accepted_view(),
    {
        ReadTrustExceptions { known_key_review: review, ..self }
    }

    /// Accept exactly one session-reviewed non-member signer identity.
    pub fn accepting_non_member(self, member_handle: MemberHandle, kid: Kid) -> (e:
        ReadTrustExceptions)
        ensures
            e.review_view() == self.review_view(),
            e.accepted_view() == Some((member_handle@, kid@)),
    {
        ReadTrustExceptions { accepted_non_member: Some((member_handle, kid)), ..self }
    }

    /// Whether a reviewed non-member signer identity is accepted.
    pub fn has_accepted_non_member(&self) -> (r: bool)
        ensures
            r == (self.accepted_view() is Some),
    {
        self.accepted_non_member.is_some()
    }
}

/// Accept a signer the trust rules rejected as a non-member only when the
/// policy names the exact identity a review already accepted; otherwise the
/// rejection stands.
pub fn accept_reviewed_non_member(
    signer: Option<(&str, &str)>,
    exceptions: &ReadTrustExceptions,
    error: Error,
) -> (r: Result<()>)
    ensures
        r is Ok <==> (signer matches Some((h, k)) && exceptions.accepted_view() == Some(
            (h@, k@),
        )),
        r matches Err(e) ==> e == error,
{
    let (handle, kid) = match signer {
        Some(identity) => identity,
        None => {
            return Err(error);
        },
    };
    let accepted = match &exceptions.accepted_non_member {
        Some((h, k)) => text_eq(h.as_str(), handle) && text_eq(k.as_str(), kid),
        None => false,
    };
    if accepted {
        Ok(())
    } else {
        Err(error)
    }
}

/// The rule code `E_TRUST_APPROVAL_EVIDENCE_MISMATCH`.
pub open spec fn trust_approval_evidence_mismatch() -> Seq<char> {
    "E_TRUST_APPROVAL_EVIDENCE_MISMATCH"@
}

/// Evidence collected while approving a known key.
#[derive(Debug, Clone)]
pub struct KnownKeyApprovalEvidence {
    verified_github: Option<VerifiedGitHubEvidence>,
    ssh_attestor_public_key: Option<String>,
}

/// Whether approval evidence may stand for `candidate`: a candidate with a
/// GitHub binding needs GitHub evidence verified for it, any GitHub evidence
/// must describe it, and a recorded attestor key must be its attestor key.
pub open spec fn evidence_fits(
    github: Option<VerifiedGitHubEvidence>,
    attestor: Option<Seq<char>>,
    candidate: KnownKeyReviewCandidate,
) -> bool {
    &&& candidate.github_account_id_view() is Some ==> (github matches Some(e) && e.describes(
        candidate,
    ))
    &&& (github matches Some(e) ==> e.describes(candidate))
    &&& (attestor matches Some(a) ==> a == candidate.attestor_view())
}

impl KnownKeyApprovalEvidence {
    pub closed spec fn github_view(self) -> Option<VerifiedGitHubEvidence> {
        self.verified_github
    }

    pub closed spec fn attestor_view(self) -> Option<Seq<char>> {
        opt_view(self.ssh_attestor_public_key)
    }

    /// An approval with no recorded external evidence.
    pub fn none() -> (e: KnownKeyApprovalEvidence)
        ensures
            e.github_view() is None,
            e.attestor_view() is None,
    {
        KnownKeyApprovalEvidence { verified_github: None, ssh_attestor_public_key: None }
    }

    /// Record GitHub evidence produced by candidate verification.
    pub fn with_verified_github_account(self, evidence: VerifiedGitHubEvidence) -> (e:
        KnownKeyApprovalEvidence)
        ensures
            e.github_view() == Some(evidence),
            e.attestor_view() == self.attestor_view(),
    {
        KnownKeyApprovalEvidence { verified_github: Some(evidence), ..self }
    }

    /// Record the SSH attestor public key presented during review.
    pub fn with_ssh_attestor_public_key(self, key: String) -> (e: KnownKeyApprovalEvidence)
        ensures
            e.github_view() == self.github_view(),
            e.attestor_view() == Some(key@),
    {
        KnownKeyApprovalEvidence { ssh_attestor_public_key: Some(key), ..self }
    }

    /// Refuse evidence that does not fit the candidate it is meant to approve.
    pub fn validate_for(&self, candidate: &KnownKeyReviewCandidate) -> (r: Result<()>)
        ensures
            r is Ok <==> evidence_fits(self.github_view(), self.attestor_view(), *candidate),
            r matches Err(e) ==> e.kind == ErrorKind::Verification && (e.code matches Some(c) && c@
                == trust_approval_evidence_mismatch()),
    {
        let github_matches = match &self.verified_github {
            Some(evidence) => evidence.matches_candidate(candidate),
            None => false,
        };
        if candidate.has_github_binding() && !github_matches {
            return Err(
                Error::build_verification_error(
                    owned("E_TRUST_APPROVAL_EVIDENCE_MISMATCH"),
                    owned("Known-key approval requires GitHub evidence verified for this candidate"),
                ),
            );
        }
        if self.verified_github.is_some() && !github_matches {
            return Err(
                Error::build_verification_error(
                    owned("E_TRUST_APPROVAL_EVIDENCE_MISMATCH"),
                    owned("GitHub evidence belongs to a different known-key candidate"),
                ),
            );
        }
        let attestor_differs = match &self.ssh_attestor_public_key {
            Some(key) => !text_eq(key.as_str(), candidate.ssh_attestor_public_key()),
            None => false,
        };
        if attestor_differs {
            return Err(
                Error::build_verification_error(
                    owned("E_TRUST_APPROVAL_EVIDENCE_MISMATCH"),
                    owned("SSH attestor evidence differs from the reviewed candidate"),
                ),
            );
        }
        Ok(())
    }

    /// What the trust store records of this evidence, or nothing when there
    /// is none.
    pub fn into_model(self) -> (m: Option<KnownKeyEvidence>)
        ensures
            (self.github_view() is None && self.attestor_view() is None) <==> m is None,
            m matches Some(record) ==> opt_view(record.ssh_attestor_pub) == self.attestor_view() && (
            match self.github_view() {
                Some(e) => record.github_account matches Some(a) && a.id == e.account_view().id_view()
                    && opt_view(a.login) == Some(e.account_view().login_view()),
                None => record.github_account is None,
            }),
    {
        let github_account = match self.verified_github {
            Some(evidence) => {
                let account = evidence.account();
                Some(KnownKeyGithubAccount { id: account.id(), login: Some(owned(account.login())) })
            },
            None => None,
        };
        if github_account.is_none() && self.ssh_attestor_public_key.is_none() {
            return None;
        }
        Some(KnownKeyEvidence { github_account, ssh_attestor_pub: self.ssh_attestor_public_key })
    }
}

/// The GitHub account a known key was approved with.
#[derive(Debug, Clone)]
pub struct KnownKeyGithubAccount {
    pub id: u64,
    pub login: Option<String>,
}

/// The evidence a trust store records beside a known key.
#[derive(Debug, Clone)]
pub struct KnownKeyEvidence {
    pub github_account: Option<KnownKeyGithubAccount>,
    pub ssh_attestor_pub: Option<String>,
}

/// How a known key came to be trusted.
#[derive(Debug, Clone, Copy, PartialEq, Eq, Structural)]
pub enum KnownKeyApprovalVia {
    ManualReview,
}

/// One approved key as the trust store records it.
#[derive(Debug, Clone)]
pub struct KnownKey {
    pub kid: String,
    pub subject_handle: String,
    pub approved_at: String,
    pub approved_via: KnownKeyApprovalVia,
    pub evidence: Option<KnownKeyEvidence>,
}

/// Two evidence records say the same.
pub open spec fn same_evidence(x: KnownKeyEvidence, y: KnownKeyEvidence) -> bool {
    &&& match (x.github_account, y.github_account) {
        (None, None) => true,
        (Some(g), Some(h)) => g.id == h.id && opt_view(g.login) == opt_view(h.login),
        _ => false,
    }
    &&& opt_view(x.ssh_attestor_pub) == opt_view(y.ssh_attestor_pub)
}

/// Two known keys record the same approval.
pub open spec fn same_known_key(a: KnownKey, b: KnownKey) -> bool {
    &&& a.kid@ == b.kid@
    &&& a.subject_handle@ == b.subject_handle@
    &&& a.approved_at@ == b.approved_at@
    &&& a.approved_via == b.approved_via
    &&& match (a.evidence, b.evidence) {
        (None, None) => true,
        (Some(x), Some(y)) => same_evidence(x, y),
        _ => false,
    }
}

impl KnownKeyEvidence {
    /// A copy of this record.
    pub fn duplicate(&self) -> (r: KnownKeyEvidence)
        ensures
            r == *self,
    {
        KnownKeyEvidence {
            github_account: match &self.github_account {
                Some(g) => Some(KnownKeyGithubAccount { id: g.id, login: duplicate_opt(&g.login) }),
                None => None,
            },
            ssh_attestor_pub: duplicate_opt(&self.ssh_attestor_pub),
        }
    }

    /// Whether `other` says the same as this record.
    pub fn same(&self, other: &KnownKeyEvidence) -> (r: bool)
        ensures
            r == same_evidence(*self, *other),
    {
        let accounts = match (&self.github_account, &other.github_account) {
            (None, None) => true,
            (Some(g), Some(h)) => g.id == h.id && opt_text_same(&g.login, &h.login),
            _ => false,
        };
        accounts && opt_text_same(&self.ssh_attestor_pub, &other.ssh_attestor_pub)
    }
}

impl KnownKey {
    /// A copy of this record.
    pub fn duplicate(&self) -> (r: KnownKey)
        ensures
            r == *self,
    {
        KnownKey {
            kid: self.kid.clone(),
            subject_handle: self.subject_handle.clone(),
            approved_at: self.approved_at.clone(),
            approved_via: self.approved_via,
            evidence: match &self.evidence {
                Some(e) => Some(e.duplicate()),
                None => None,
            },
        }
    }

    /// Whether `other` records the same approval.
    pub fn same(&self, other: &KnownKey) -> (r: bool)
        ensures
            r == same_known_key(*self, *other),
    {
        let evidence = match (&self.evidence, &other.evidence) {
            (None, None) => true,
            (Some(x), Some(y)) => x.same(y),
            _ => false,
        };
        text_eq(self.kid.as_str(), other.kid.as_str()) && text_eq(
            self.subject_handle.as_str(),
            other.subject_handle.as_str(),
        ) && text_eq(self.approved_at.as_str(), other.approved_at.as_str())
            && self.approved_via == other.approved_via && evidence
    }
}

/// Review request category.
#[derive(Debug, Clone, Copy, PartialEq, Eq, Structural)]
pub enum TrustReviewKind {
    KnownKey,
    RecipientSet,
    ChangedRecipientSet,
}

/// Display-only recipient identity captured for recipient-set review.
#[derive(Debug, Clone)]
pub struct TrustRecipientHandleHint {
    kid: Kid,
    recipient_handle: MemberHandle,
}

impl TrustRecipientHandleHint {
    pub closed spec fn kid_view(self) -> Seq<char> {
        self.kid@
    }

    pub closed spec fn handle_view(self) -> Seq<char> {
        self.recipient_handle@
    }

    /// A hint naming `recipient_handle` as the holder of `kid`; the handle
    /// must pass the member handle rules.
    pub fn from_model(kid: String, recipient_handle: String) -> (r: Result<TrustRecipientHandleHint>)
        ensures
            r is Ok <==> crate::validation::is_valid_member_handle(recipient_handle@),
            r matches Ok(h) ==> h.kid_view() == kid@ && h.handle_view() == recipient_handle@,
    {
        let handle = MemberHandle::new(recipient_handle)?;
        Ok(TrustRecipientHandleHint { kid: Kid::from_verified(kid), recipient_handle: handle })
    }

    /// The recipient key id.
    pub fn kid(&self) -> (k: &Kid)
        ensures
            k@ == self.kid_view(),
    {
        &self.kid
    }

    /// The recipient member handle.
    pub fn recipient_handle(&self) -> (h: &MemberHandle)
        ensures
            h@ == self.handle_view(),
    {
        &self.recipient_handle
    }
}

/// Review request returned to the caller instead of prompting.
#[derive(Debug, Clone)]
pub struct TrustReviewRequest {
    kind: TrustReviewKind,
    subject_handle: Option<MemberHandle>,
    kid: Option<Kid>,
    known_key_candidate: Option<KnownKeyReviewCandidate>,
    recipient_kids: Vec<Kid>,
    recipient_handle_hints: Vec<TrustRecipientHandleHint>,
}

impl TrustReviewRequest {
    pub closed spec fn kind_view(self) -> TrustReviewKind {
        self.kind
    }

    pub closed spec fn handle_view(self) -> Option<Seq<char>> {
        match self.subject_handle {
            Some(h) => Some(h@),
            None => None,
        }
    }

    pub closed spec fn kid_view(self) -> Option<Seq<char>> {
        match self.kid {
            Some(k) => Some(k@),
            None => None,
        }
    }

    pub closed spec fn candidate_view(self) -> Option<KnownKeyReviewCandidate> {
        self.known_key_candidate
    }

    pub closed spec fn hints_view(self) -> Seq<TrustRecipientHandleHint> {
        self.recipient_handle_hints@
    }

    pub closed spec fn recipient_kids_view(self) -> Seq<Seq<char>> {
        self.recipient_kids@.map_values(|k: Kid| k@)
    }

    /// A known-key review of `candidate`.
    pub fn known_key(candidate: KnownKeyReviewCandidate) -> (r: TrustReviewRequest)
        ensures
            r.kind_view() == TrustReviewKind::KnownKey,
            r.handle_view() == Some(candidate.handle_view()),
            r.kid_view() == Some(candidate.kid_view()),
            r.candidate_view() == Some(candidate),
            r.recipient_kids_view().len() == 0,
    {
        let r = TrustReviewRequest {
            kind: TrustReviewKind::KnownKey,
            subject_handle: Some(candidate.subject_handle().duplicate()),
            kid: Some(candidate.kid().duplicate()),
            known_key_candidate: Some(candidate),
            recipient_kids: Vec::new(),
            recipient_handle_hints: Vec::new(),
        };
        proof {
            assert(r.recipient_kids_view() =~= Seq::<Seq<char>>::empty());
        }
        r
    }

    /// A review of a recipient set (first or changed).
    pub fn recipient_set(
        kind: TrustReviewKind,
        recipient_kids: Vec<Kid>,
        recipient_handle_hints: Vec<TrustRecipientHandleHint>,
    ) -> (r: TrustReviewRequest)
        ensures
            r.kind_view() == kind,
            r.handle_view() is None,
            r.kid_view() is None,
            r.candidate_view() is None,
            r.recipient_kids_view() == recipient_kids@.map_values(|k: Kid| k@),
    {
        TrustReviewRequest {
            kind,
            subject_handle: None,
            kid: None,
            known_key_candidate: None,
            recipient_kids,
            recipient_handle_hints,
        }
    }

    /// The review category.
    pub fn kind(&self) -> (k: TrustReviewKind)
        ensures
            k == self.kind_view(),
    {
        self.kind
    }

    /// The subject of a known-key review.
    pub fn subject_handle(&self) -> (h: Option<&MemberHandle>)
        ensures
            match self.handle_view() {
                Some(v) => h matches Some(x) && x@ == v,
                None => h is None,
            },
    {
        match &self.subject_handle {
            Some(h) => Some(h),
            None => None,
        }
    }

    /// The key id of a known-key review.
    pub fn kid(&self) -> (k: Option<&Kid>)
        ensures
            match self.kid_view() {
                Some(v) => k matches Some(x) && x@ == v,
                None => k is None,
            },
    {
        match &self.kid {
            Some(k) => Some(k),
            None => None,
        }
    }

    /// The verified candidate of a known-key review.
    pub fn known_key_candidate(&self) -> (c: Option<&KnownKeyReviewCandidate>)
        ensures
            match self.candidate_view() {
                Some(v) => c matches Some(x) && *x == v,
                None => c is None,
            },
    {
        match &self.known_key_candidate {
            Some(c) => Some(c),
            None => None,
        }
    }

    /// The recipient key ids of a recipient-set review.
    pub fn recipient_kids(&self) -> (k: &[Kid])
        ensures
            k@.map_values(|x: Kid| x@) == self.recipient_kids_view(),
    {
        self.recipient_kids.as_slice()
    }

    /// The recipient handle hints of a recipient-set review.
    pub fn recipient_handle_hints(&self) -> (h: &[TrustRecipientHandleHint])
        ensures
            h@ == self.hints_view(),
    {
        self.recipient_handle_hints.as_slice()
    }
}

/// `requests` already asks for a known-key review of (`handle`, `kid`).
pub open spec fn has_known_key_request(
    requests: Seq<TrustReviewRequest>,
    handle: Seq<char>,
    kid: Seq<char>,
) -> bool {
    exists|i: int|
        0 <= i < requests.len() && #[trigger] requests[i].kind_view() == TrustReviewKind::KnownKey
            && requests[i].handle_view() == Some(handle) && requests[i].kid_view() == Some(kid)
}

/// What a review request shows: its kind, member, key id and candidate.
pub open spec fn request_entry(r: TrustReviewRequest) -> (
    TrustReviewKind,
    Option<Seq<char>>,
    Option<Seq<char>>,
    Option<KnownKeyReviewCandidate>,
) {
    (r.kind_view(), r.handle_view(), r.kid_view(), r.candidate_view())
}

/// What a list of review requests shows, request by request.
pub open spec fn request_entries(reqs: Seq<TrustReviewRequest>) -> Seq<
    (TrustReviewKind, Option<Seq<char>>, Option<Seq<char>>, Option<KnownKeyReviewCandidate>),
> {
    reqs.map_values(|r: TrustReviewRequest| request_entry(r))
}

/// What the known-key review of `c` shows.
pub open spec fn known_key_entry(c: KnownKeyReviewCandidate) -> (
    TrustReviewKind,
    Option<Seq<char>>,
    Option<Seq<char>>,
    Option<KnownKeyReviewCandidate>,
) {
    (TrustReviewKind::KnownKey, Some(c.handle_view()), Some(c.kid_view()), Some(c))
}

/// The entries hold a known-key review of the member `handle` and key `kid`.
pub open spec fn entries_have_known_key(
    es: Seq<(TrustReviewKind, Option<Seq<char>>, Option<Seq<char>>, Option<KnownKeyReviewCandidate>)>,
    handle: Seq<char>,
    kid: Seq<char>,
) -> bool {
    exists|i: int|
        0 <= i < es.len() && (#[trigger] es[i]).0 == TrustReviewKind::KnownKey && es[i].1 == Some(
            handle,
        ) && es[i].2 == Some(kid)
}

/// The entries after the known-key reviews of `cs` are added in order, each
/// unless one for the same member and key is already pending.
pub open spec fn with_known_key_entries(
    es: Seq<(TrustReviewKind, Option<Seq<char>>, Option<Seq<char>>, Option<KnownKeyReviewCandidate>)>,
    cs: Seq<KnownKeyReviewCandidate>,
) -> Seq<(TrustReviewKind, Option<Seq<char>>, Option<Seq<char>>, Option<KnownKeyReviewCandidate>)>
    decreases cs.len(),
{
    if cs.len() == 0 {
        es
    } else {
        let prev = with_known_key_entries(es, cs.drop_last());
        let c = cs.last();
        if entries_have_known_key(prev, c.handle_view(), c.kid_view()) {
            prev
        } else {
            prev.push(known_key_entry(c))
        }
    }
}

pub proof fn lemma_entries_have_known_key(reqs: Seq<TrustReviewRequest>, handle: Seq<char>, kid: Seq<char>)
    ensures
        has_known_key_request(reqs, handle, kid) <==> entries_have_known_key(
            request_entries(reqs),
            handle,
            kid,
        ),
{
    let es = request_entries(reqs);
    if has_known_key_request(reqs, handle, kid) {
        let i = choose|i: int|
            0 <= i < reqs.len() && #[trigger] reqs[i].kind_view() == TrustReviewKind::KnownKey
                && reqs[i].handle_view() == Some(handle) && reqs[i].kid_view() == Some(kid);
        assert(es[i] == request_entry(reqs[i]));
    }
    if entries_have_known_key(es, handle, kid) {
        let i = choose|i: int|
            0 <= i < es.len() && (#[trigger] es[i]).0 == TrustReviewKind::KnownKey && es[i].1 == Some(
                handle,
            ) && es[i].2 == Some(kid);
        assert(es[i] == request_entry(reqs[i]));
        assert(reqs[i].kind_view() == TrustReviewKind::KnownKey);
    }
}

/// Add a known-key review of `candidate` unless one for the same member and
/// key is already pending.
pub fn push_known_key_review_request(
    requests: &mut Vec<TrustReviewRequest>,
    candidate: KnownKeyReviewCandidate,
)
    ensures
        has_known_key_request(old(requests)@, candidate.handle_view(), candidate.kid_view())
            ==> final(requests)@ == old(requests)@,
        !has_known_key_request(old(requests)@, candidate.handle_view(), candidate.kid_view())
            ==> final(requests)@.len() == old(requests)@.len() + 1 && final(requests)@.take(
            old(requests)@.len() as int,
        ) == old(requests)@ && final(requests)@.last().candidate_view() == Some(candidate)
            && final(requests)@.last().kind_view() == TrustReviewKind::KnownKey
            && request_entry(final(requests)@.last()) == known_key_entry(candidate),
        has_known_key_request(final(requests)@, candidate.handle_view(), candidate.kid_view()),
        request_entries(final(requests)@) == if has_known_key_request(
            old(requests)@,
            candidate.handle_view(),
            candidate.kid_view(),
        ) {
            request_entries(old(requests)@)
        } else {
            request_entries(old(requests)@).push(known_key_entry(candidate))
        },
{
    let mut i: usize = 0;
    while i < requests.len()
        invariant
            i <= requests.len(),
            forall|j: int|
                0 <= j < i ==> !(#[trigger] requests@[j].kind_view() == TrustReviewKind::KnownKey
                    && requests@[j].handle_view() == Some(candidate.handle_view())
                    && requests@[j].kid_view() == Some(candidate.kid_view())),
        decreases requests.len() - i,
    {
        let request = &requests[i];
        let same_handle = match request.subject_handle() {
            Some(h) => h.same(candidate.subject_handle()),
            None => false,
        };
        let same_kid = match request.kid() {
            Some(k) => k.same(candidate.kid()),
            None => false,
        };
        if request.kind() == TrustReviewKind::KnownKey && same_handle && same_kid {
            return;
        }
        i = i + 1;
    }
    let ghost before = requests@;
    requests.push(TrustReviewRequest::known_key(candidate));
    proof {
        assert(requests@.take(before.len() as int) =~= before);
        let last = before.len() as int;
        assert(requests@[last].kind_view() == TrustReviewKind::KnownKey);
        assert(request_entries(requests@) =~= request_entries(before).push(known_key_entry(candidate)));
    }
}

/// Result of applying trust approvals.
#[derive(Debug)]
pub struct TrustApprovalOutcome {
    applied: usize,
    warnings: Vec<String>,
}

impl TrustApprovalOutcome {
    pub fn new(applied: usize, warnings: Vec<String>) -> (o: TrustApprovalOutcome)
        ensures
            o.applied_view() == applied,
            o.warnings_view() == warnings@,
    {
        TrustApprovalOutcome { applied, warnings }
    }

    pub closed spec fn applied_view(self) -> usize {
        self.applied
    }

    pub closed spec fn warnings_view(self) -> Seq<String> {
        self.warnings@
    }

    /// How many approvals changed the stored trust state.
    pub fn applied(&self) -> (n: usize)
        ensures
            n == self.applied_view(),
    {
        self.applied
    }

    /// Permission warnings observed while applying approvals.
    pub fn warnings(&self) -> (w: &[String])
        ensures
            w@ == self.warnings_view(),
    {
        self.warnings.as_slice()
    }

    pub fn into_parts(self) -> (p: (usize, Vec<String>))
        ensures
            p.0 == self.applied_view(),
            p.1@ == self.warnings_view(),
    {
        (self.applied, self.warnings)
    }
}

/// Caller-approved known-key trust update.
#[derive(Debug, Clone)]
pub struct KnownKeyApproval {
    candidate: KnownKeyReviewCandidate,
    evidence: KnownKeyApprovalEvidence,
}

/// Caller-approved trust update.
#[derive(Debug, Clone)]
pub enum TrustApproval {
    KnownKey(KnownKeyApproval),
    RecipientSet {
        sid: u128,
        recipient_kids: Vec<Kid>,
        recipient_handle_hints: Vec<TrustRecipientHandleHint>,
    },
}

impl TrustApproval {
    /// Build a known-key approval, refusing evidence that does not fit the
    /// candidate.
    pub fn known_key(candidate: &KnownKeyReviewCandidate, evidence: KnownKeyApprovalEvidence) -> (r:
        Result<TrustApproval>)
        ensures
            r is Ok <==> evidence_fits(evidence.github_view(), evidence.attestor_view(), *candidate),
            r matches Err(e) ==> e.kind == ErrorKind::Verification && (e.code matches Some(c) && c@
                == trust_approval_evidence_mismatch()),
            r matches Ok(TrustApproval::KnownKey(a)) ==> a.candidate_view() == *candidate
                && a.evidence_view() == evidence,
            r matches Ok(a) ==> a is KnownKey,
    {
        evidence.validate_for(candidate)?;
        Ok(TrustApproval::KnownKey(KnownKeyApproval { candidate: candidate.duplicate(), evidence }))
    }

    /// Build the approval of the recipient set `sid`, carrying its recipient
    /// kids and their handle hints as given; every recipient kid needs its
    /// handle hint.
    pub fn recipient_set(sid: u128, recipient_kids: Vec<Kid>, recipient_handle_hints: Vec<
        TrustRecipientHandleHint,
    >) -> (r: Result<TrustApproval>)
        ensures
            r is Ok <==> recipient_kids@.len() == recipient_handle_hints@.len(),
            r matches Err(e) ==> e.kind == ErrorKind::InvalidArgument && e.message@
                == "recipient handle hints must identify every recipient kid"@,
            r matches Ok(a) ==> (a matches TrustApproval::RecipientSet {
                sid: s,
                recipient_kids: kids,
                recipient_handle_hints: hints,
            } && s == sid && kids@ == recipient_kids@ && hints@ == recipient_handle_hints@),
    {
        if recipient_handle_hints.len() != recipient_kids.len() {
            return Err(
                Error::build_invalid_argument_error(
                    owned("recipient handle hints must identify every recipient kid"),
                ),
            );
        }
        Ok(TrustApproval::RecipientSet { sid, recipient_kids, recipient_handle_hints })
    }
}

impl KnownKeyApproval {
    pub closed spec fn candidate_view(self) -> KnownKeyReviewCandidate {
        self.candidate
    }

    pub closed spec fn evidence_view(self) -> KnownKeyApprovalEvidence {
        self.evidence
    }

    /// The known key the trust store records for this approval.
    pub fn into_known_key(self, approved_at: String) -> (k: KnownKey)
        ensures
            k.kid@ == self.candidate_view().kid_view(),
            k.subject_handle@ == self.candidate_view().handle_view(),
            k.approved_at@ == approved_at@,
            k.approved_via == KnownKeyApprovalVia::ManualReview,
            (k.evidence is None) <==> (self.evidence_view().github_view() is None
                && self.evidence_view().attestor_view() is None),
    {
        let kid = owned(self.candidate.kid().as_str());
        let subject_handle = owned(self.candidate.subject_handle().as_str());
        KnownKey {
            kid,
            subject_handle,
            approved_at,
            approved_via: KnownKeyApprovalVia::ManualReview,
            evidence: self.evidence.into_model(),
        }
    }
}

/// Evidence that verification produced for a candidate is enough to approve
/// that candidate: with the candidate's own attestor key recorded beside it,
/// the approval is accepted.
pub proof fn lemma_verified_evidence_approves(
    candidate: KnownKeyReviewCandidate,
    evidence: VerifiedGitHubEvidence,
)
    requires
        evidence.describes(candidate),
    ensures
        evidence_fits(Some(evidence), Some(candidate.attestor_view()), candidate),
        evidence_fits(Some(evidence), None, candidate),
{
}

/// Evidence about one candidate never approves a candidate for a different
/// member or key.
pub proof fn lemma_evidence_is_bound_to_its_candidate(
    a: KnownKeyReviewCandidate,
    b: KnownKeyReviewCandidate,
    evidence: VerifiedGitHubEvidence,
    attestor: Option<Seq<char>>,
)
    requires
        evidence.describes(a),
        a.handle_view() != b.handle_view() || a.kid_view() != b.kid_view(),
    ensures
        !evidence_fits(Some(evidence), attestor, b),
{
}

/// A candidate that claims a GitHub account is never approved without GitHub
/// evidence.
pub proof fn lemma_binding_requires_github_evidence(
    candidate: KnownKeyReviewCandidate,
    attestor: Option<Seq<char>>,
)
    requires
        candidate.github_account_id_view() is Some,
    ensures
        !evidence_fits(None, attestor, candidate),
{
}

} // verus!
