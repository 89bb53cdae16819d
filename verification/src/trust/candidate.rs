//! A service-verified trust candidate presented to an interactive caller;
//! identity is always projected from the retained service candidate.

use vstd::prelude::*;
use crate::model::{opt_view, GithubAccountClaim, Kid, MemberHandle, PublicKeyClaims, VerificationResult};
use crate::text::owned;
use crate::online::VerifiedGitHubEvidence;
use crate::trust::policy::KnownKeyReviewCandidate;

verus! {

/// Review material for a manual trust decision.
#[derive(Debug, Clone)]
pub struct TrustApprovalCandidate {
    service_candidate: KnownKeyReviewCandidate,
    verified_service_evidence: Option<VerifiedGitHubEvidence>,
    online_verification_attempted: bool,
    online_verification_message: Option<String>,
    pub requires_out_of_band_verification: bool,
}

/// The account id a test candidate's key document binds: the verified
/// account's, else a placeholder when only a binding is configured.
pub open spec fn test_github_account_id(
    verified_github: Option<(u64, String, String, i64)>,
    github_binding_configured: bool,
) -> Option<u64> {
    match verified_github {
        Some(v) => Some(v.0),
        None => if github_binding_configured {
            Some(42)
        } else {
            None
        },
    }
}

impl TrustApprovalCandidate {
    pub closed spec fn candidate_view(self) -> KnownKeyReviewCandidate {
        self.service_candidate
    }

    pub closed spec fn evidence_view(self) -> Option<VerifiedGitHubEvidence> {
        self.verified_service_evidence
    }

    /// Whether the candidate must still be confirmed out of band.
    pub closed spec fn oob_view(self) -> bool {
        self.requires_out_of_band_verification
    }

    pub closed spec fn attempted_view(self) -> bool {
        self.online_verification_attempted
    }

    pub closed spec fn message_view(self) -> Option<Seq<char>> {
        opt_view(self.online_verification_message)
    }

    /// The fingerprint shown for the candidate: the one verification matched,
    /// else the one computed from the attestor key.
    pub open spec fn shown_fingerprint(self) -> Option<Seq<char>> {
        match self.evidence_view() {
            Some(e) => Some(e.fingerprint_view()),
            None => self.candidate_view().fingerprint_view(),
        }
    }

    /// A candidate for tests, with or without a GitHub binding.
    pub fn for_test(service_candidate: &KnownKeyReviewCandidate) -> (c: TrustApprovalCandidate)
        ensures
            c.candidate_view() == *service_candidate,
            c.evidence_view() is None,
            !c.attempted_view(),
            c.message_view() is None,
            c.oob_view(),
    {
        TrustApprovalCandidateBuilder::from_known_key_candidate(service_candidate).build()
    }

    /// A fully specified candidate for review tests. The key document it
    /// reviews binds the verified account when there is one, else a
    /// placeholder account (id 42) when only a binding is configured; the
    /// evidence, when given, is verified for that document.
    pub fn for_test_review(
        member_handle: &str,
        kid: &str,
        fingerprint: Option<String>,
        github_binding_configured: bool,
        verified_github: Option<(u64, String, String, i64)>,
        online_verification_attempted: bool,
        online_verification_message: Option<String>,
        requires_out_of_band_verification: bool,
    ) -> (c: TrustApprovalCandidate)
        requires
            crate::validation::is_valid_member_handle(member_handle@),
        ensures
            c.candidate_view().handle_view() == member_handle@,
            c.candidate_view().kid_view() == kid@,
            c.candidate_view().fingerprint_view() == opt_view(fingerprint),
            c.candidate_view().attestor_view() == "ssh-ed25519 AAAA test"@,
            c.candidate_view().github_account_id_view() == test_github_account_id(
                verified_github,
                github_binding_configured,
            ),
            match verified_github {
                Some(v) => c.evidence_view() matches Some(e) && e.account_view().id_view() == v.0
                    && e.account_view().login_view() == v.1@ && e.fingerprint_view() == v.2@
                    && e.matched_key_id_view() == v.3 && e.describes(c.candidate_view()),
                None => c.evidence_view() is None,
            },
            c.attempted_view() == online_verification_attempted,
            c.message_view() == opt_view(online_verification_message),
            c.oob_view() == requires_out_of_band_verification,
    {
        let github_account_id = match &verified_github {
            Some(v) => Some(v.0),
            None => if github_binding_configured {
                Some(42u64)
            } else {
                None
            },
        };
        let claims = PublicKeyClaims {
            subject_handle: owned(member_handle),
            kid: owned(kid),
            attestor_pub: owned("ssh-ed25519 AAAA test"),
            github_account: match github_account_id {
                Some(id) => Some(GithubAccountClaim { id, login: owned("test-account") }),
                None => None,
            },
        };
        let service_candidate = KnownKeyReviewCandidate::from_public_key(&claims, fingerprint).unwrap();
        let evidence = match verified_github {
            Some(v) => Some(VerifiedGitHubEvidence::for_test(&service_candidate, v.0, v.1, v.2, v.3)),
            None => None,
        };
        let mut candidate = TrustApprovalCandidateBuilder::from_known_key_candidate(
            &service_candidate,
        ).with_optional_verified_service_evidence(evidence).with_online_verification_context(
            online_verification_attempted,
            online_verification_message,
        ).build();
        candidate.requires_out_of_band_verification = requires_out_of_band_verification;
        candidate
    }

    pub fn member_handle(&self) -> (h: &MemberHandle)
        ensures
            h@ == self.candidate_view().handle_view(),
    {
        self.service_candidate.subject_handle()
    }

    pub fn kid(&self) -> (k: &Kid)
        ensures
            k@ == self.candidate_view().kid_view(),
    {
        self.service_candidate.kid()
    }

    pub fn fingerprint(&self) -> (f: Option<&str>)
        ensures
            match self.shown_fingerprint() {
                Some(v) => f matches Some(s) && s@ == v,
                None => f is None,
            },
    {
        match &self.verified_service_evidence {
            Some(evidence) => Some(evidence.fingerprint()),
            None => self.service_candidate.fingerprint(),
        }
    }

    pub fn github_id(&self) -> (r: Option<u64>)
        ensures
            r == (match self.evidence_view() {
                Some(e) => Some(e.account_view().id_view()),
                None => None::<u64>,
            }),
    {
        match &self.verified_service_evidence {
            Some(evidence) => Some(evidence.account().id()),
            None => None,
        }
    }

    pub fn github_login(&self) -> (r: Option<&str>)
        ensures
            match self.evidence_view() {
                Some(e) => r matches Some(s) && s@ == e.account_view().login_view(),
                None => r is None,
            },
    {
        match &self.verified_service_evidence {
            Some(evidence) => Some(evidence.account().login()),
            None => None,
        }
    }

    pub fn attestor_pub(&self) -> (k: &str)
        ensures
            k@ == self.candidate_view().attestor_view(),
    {
        self.service_candidate.ssh_attestor_public_key()
    }

    pub fn github_binding_configured(&self) -> (r: bool)
        ensures
            r == (self.candidate_view().github_account_id_view() is Some),
    {
        self.service_candidate.has_github_binding()
    }

    /// A copy of this candidate.
    pub fn duplicate(&self) -> (r: TrustApprovalCandidate)
        ensures
            r == *self,
    {
        TrustApprovalCandidate {
            service_candidate: self.service_candidate.duplicate(),
            verified_service_evidence: match &self.verified_service_evidence {
                Some(e) => Some(e.duplicate()),
                None => None,
            },
            online_verification_attempted: self.online_verification_attempted,
            online_verification_message: crate::model::duplicate_opt(&self.online_verification_message),
            requires_out_of_band_verification: self.requires_out_of_band_verification,
        }
    }

    pub fn is_github_verified(&self) -> (r: bool)
        ensures
            r == (self.evidence_view() is Some),
    {
        self.verified_service_evidence.is_some()
    }

    pub fn online_verification_attempted(&self) -> (r: bool)
        ensures
            r == self.attempted_view(),
    {
        self.online_verification_attempted
    }

    pub fn online_verification_message(&self) -> (r: Option<&str>)
        ensures
            match self.message_view() {
                Some(v) => r matches Some(s) && s@ == v,
                None => r is None,
            },
    {
        match &self.online_verification_message {
            Some(m) => Some(m.as_str()),
            None => None,
        }
    }

    pub fn service_candidate(&self) -> (c: &KnownKeyReviewCandidate)
        ensures
            *c == self.candidate_view(),
    {
        &self.service_candidate
    }

    pub fn verified_service_evidence(&self) -> (e: Option<&VerifiedGitHubEvidence>)
        ensures
            match self.evidence_view() {
                Some(v) => e matches Some(x) && *x == v,
                None => e is None,
            },
    {
        match &self.verified_service_evidence {
            Some(e) => Some(e),
            None => None,
        }
    }
}

/// Builds a `TrustApprovalCandidate` from a service candidate.
pub struct TrustApprovalCandidateBuilder {
    candidate: TrustApprovalCandidate,
}

impl TrustApprovalCandidateBuilder {
    pub closed spec fn building(self) -> TrustApprovalCandidate {
        self.candidate
    }

    /// Start from a service candidate: no evidence, no online attempt, and
    /// out-of-band verification required.
    pub fn from_known_key_candidate(candidate: &KnownKeyReviewCandidate) -> (b:
        TrustApprovalCandidateBuilder)
        ensures
            b.building().candidate_view() == *candidate,
            b.building().evidence_view() is None,
            !b.building().attempted_view(),
            b.building().message_view() is None,
            b.building().oob_view(),
    {
        TrustApprovalCandidateBuilder {
            candidate: TrustApprovalCandidate {
                service_candidate: candidate.duplicate(),
                verified_service_evidence: None,
                online_verification_attempted: false,
                online_verification_message: None,
                requires_out_of_band_verification: true,
            },
        }
    }

    pub fn with_verified_service_evidence(self, evidence: VerifiedGitHubEvidence) -> (b:
        TrustApprovalCandidateBuilder)
        ensures
            b.building().candidate_view() == self.building().candidate_view(),
            b.building().evidence_view() == Some(evidence),
            b.building().attempted_view() == self.building().attempted_view(),
            b.building().message_view() == self.building().message_view(),
            b.building().oob_view() == self.building().oob_view(),
    {
        let mut b = self;
        b.candidate.verified_service_evidence = Some(evidence);
        b
    }

    pub fn with_optional_verified_service_evidence(self, evidence: Option<VerifiedGitHubEvidence>) -> (b:
        TrustApprovalCandidateBuilder)
        ensures
            b.building().candidate_view() == self.building().candidate_view(),
            b.building().evidence_view() == (match evidence {
                Some(e) => Some(e),
                None => self.building().evidence_view(),
            }),
            b.building().attempted_view() == self.building().attempted_view(),
            b.building().message_view() == self.building().message_view(),
            b.building().oob_view() == self.building().oob_view(),
    {
        match evidence {
            Some(evidence) => self.with_verified_service_evidence(evidence),
            None => self,
        }
    }

    /// Record that online verification ran, with the message it returned.
    pub fn with_verification_result(self, result: &VerificationResult) -> (b:
        TrustApprovalCandidateBuilder)
        ensures
            b.building().candidate_view() == self.building().candidate_view(),
            b.building().evidence_view() == self.building().evidence_view(),
            b.building().attempted_view(),
            b.building().message_view() == Some(result.message@),
            b.building().oob_view()
                == self.building().oob_view(),
    {
        let mut b = self;
        b.candidate.online_verification_attempted = true;
        b.candidate.online_verification_message = Some(result.message.clone());
        b
    }

    pub fn with_online_verification_context(self, attempted: bool, message: Option<String>) -> (b:
        TrustApprovalCandidateBuilder)
        ensures
            b.building().candidate_view() == self.building().candidate_view(),
            b.building().evidence_view() == self.building().evidence_view(),
            b.building().attempted_view() == attempted,
            b.building().message_view() == opt_view(message),
            b.building().oob_view()
                == self.building().oob_view(),
    {
        let mut b = self;
        b.candidate.online_verification_attempted = attempted;
        b.candidate.online_verification_message = message;
        b
    }

    pub fn build(self) -> (c: TrustApprovalCandidate)
        ensures
            c == self.building(),
    {
        self.candidate
    }
}

} // verus!
