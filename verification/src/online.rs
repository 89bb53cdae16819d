//! Online verification results and the evidence a successful GitHub check
//! yields for exactly one reviewed candidate.

use vstd::prelude::*;
use crate::error::{Error, ErrorKind, Result};
use crate::model::{
    opt_view, text_eq, GithubAccountClaim, Kid, MemberHandle, VerificationResult,
    VerificationStatus, VerifiedGithubIdentity,
};
use crate::text::owned;
use crate::trust::policy::KnownKeyReviewCandidate;

verus! {

/// Application-facing online verification status.
#[derive(Debug, Clone, Copy, PartialEq, Eq, Structural)]
pub enum OnlineVerificationStatus {
    /// Online verification is not configured.
    NotConfigured,
    /// Online verification succeeded.
    Verified,
    /// Online verification failed.
    Failed,
}

impl OnlineVerificationStatus {
    /// Whether online verification succeeded.
    pub fn is_verified(self) -> (r: bool)
        ensures
            r == (self == OnlineVerificationStatus::Verified),
    {
        self == OnlineVerificationStatus::Verified
    }

    /// The status a verification outcome maps to, variant for variant.
    pub fn from_status(value: VerificationStatus) -> (s: OnlineVerificationStatus)
        ensures
            s == (match value {
                VerificationStatus::NotConfigured => OnlineVerificationStatus::NotConfigured,
                VerificationStatus::Verified => OnlineVerificationStatus::Verified,
                VerificationStatus::Failed => OnlineVerificationStatus::Failed,
            }),
    {
        match value {
            VerificationStatus::NotConfigured => OnlineVerificationStatus::NotConfigured,
            VerificationStatus::Verified => OnlineVerificationStatus::Verified,
            VerificationStatus::Failed => OnlineVerificationStatus::Failed,
        }
    }
}

/// GitHub account metadata returned by a lookup or a successful verification.
#[derive(Debug, Clone)]
pub struct GitHubAccount {
    id: u64,
    login: String,
}

impl GitHubAccount {
    fn new(id: u64, login: String) -> (a: GitHubAccount)
        ensures
            a.id_view() == id,
            a.login_view() == login@,
    {
        GitHubAccount { id, login }
    }

    pub closed spec fn id_view(self) -> u64 {
        self.id
    }

    pub closed spec fn login_view(self) -> Seq<char> {
        self.login@
    }

    /// The GitHub account id.
    pub fn id(&self) -> (r: u64)
        ensures
            r == self.id_view(),
    {
        self.id
    }

    /// The GitHub login.
    pub fn login(&self) -> (r: &str)
        ensures
            r@ == self.login_view(),
    {
        self.login.as_str()
    }

    /// A copy of this account.
    pub fn duplicate(&self) -> (a: GitHubAccount)
        ensures
            a == *self,
    {
        GitHubAccount { id: self.id, login: self.login.clone() }
    }

    /// The account a lookup returned.
    pub fn from_inner(account: GithubAccountClaim) -> (a: GitHubAccount)
        ensures
            a.id_view() == account.id,
            a.login_view() == account.login@,
    {
        GitHubAccount::new(account.id, account.login)
    }

    /// The wire form a key document records the binding as.
    pub fn to_inner(&self) -> (c: GithubAccountClaim)
        ensures
            c.id == self.id_view(),
            c.login@ == self.login_view(),
    {
        GithubAccountClaim { id: self.id, login: self.login.clone() }
    }
}

/// Blocking GitHub online verification facade.
#[derive(Debug, Clone, Copy)]
pub struct GitHubOnlineVerifier;

impl GitHubOnlineVerifier {
    pub fn new() -> (v: GitHubOnlineVerifier)
        ensures
            v == GitHubOnlineVerifier,
    {
        GitHubOnlineVerifier
    }
}

/// GitHub evidence produced only by a successful verification of one candidate.
#[derive(Debug, Clone)]
pub struct VerifiedGitHubEvidence {
    account: GitHubAccount,
    fingerprint: String,
    matched_key_id: i64,
    subject_handle: MemberHandle,
    kid: Kid,
    ssh_attestor_public_key: String,
}

/// The rule code `E_ONLINE_VERIFICATION_FAILED`.
pub open spec fn online_verification_failed() -> Seq<char> {
    "E_ONLINE_VERIFICATION_FAILED"@
}

/// The rule code `E_ONLINE_VERIFICATION_IDENTITY_MISMATCH`.
pub open spec fn online_verification_identity_mismatch() -> Seq<char> {
    "E_ONLINE_VERIFICATION_IDENTITY_MISMATCH"@
}

/// The rule code `E_ONLINE_VERIFICATION_EVIDENCE_MISMATCH`.
pub open spec fn online_verification_evidence_mismatch() -> Seq<char> {
    "E_ONLINE_VERIFICATION_EVIDENCE_MISMATCH"@
}

/// The code of the first check a verification result fails for `candidate`,
/// or nothing when it is evidence about exactly that candidate.
pub open spec fn evidence_refusal(
    candidate: KnownKeyReviewCandidate,
    result: VerificationResult,
) -> Option<Seq<char>> {
    if result.status != VerificationStatus::Verified {
        Some(online_verification_failed())
    } else {
        match result.verified_github {
            None => Some(online_verification_failed()),
            Some(verified) => if result.member_handle@ != candidate.handle_view() {
                Some(online_verification_identity_mismatch())
            } else if candidate.github_account_id_view() != Some(verified.id) {
                Some(online_verification_identity_mismatch())
            } else if candidate.fingerprint_view() != Some(verified.fingerprint@) {
                Some(online_verification_evidence_mismatch())
            } else if opt_view(result.fingerprint) != Some(verified.fingerprint@) {
                Some(online_verification_evidence_mismatch())
            } else if result.matched_key_id != Some(verified.matched_key_id) {
                Some(online_verification_evidence_mismatch())
            } else {
                None
            },
        }
    }
}

impl VerifiedGitHubEvidence {
    pub closed spec fn account_view(self) -> GitHubAccount {
        self.account
    }

    pub closed spec fn fingerprint_view(self) -> Seq<char> {
        self.fingerprint@
    }

    pub closed spec fn matched_key_id_view(self) -> i64 {
        self.matched_key_id
    }

    pub closed spec fn handle_view(self) -> Seq<char> {
        self.subject_handle@
    }

    pub closed spec fn kid_view(self) -> Seq<char> {
        self.kid@
    }

    pub closed spec fn attestor_view(self) -> Seq<char> {
        self.ssh_attestor_public_key@
    }

    /// The evidence describes `candidate`: the same member, key and attestor,
    /// and the account the candidate's binding claims.
    pub open spec fn describes(self, candidate: KnownKeyReviewCandidate) -> bool {
        &&& self.handle_view() == candidate.handle_view()
        &&& self.kid_view() == candidate.kid_view()
        &&& self.attestor_view() == candidate.attestor_view()
        &&& candidate.github_account_id_view() == Some(self.account_view().id_view())
    }

    /// Evidence built from parts, for tests that need a verified account.
    pub fn for_test(
        candidate: &KnownKeyReviewCandidate,
        id: u64,
        login: String,
        fingerprint: String,
        matched_key_id: i64,
    ) -> (e: VerifiedGitHubEvidence)
        ensures
            e.account_view().id_view() == id,
            e.account_view().login_view() == login@,
            e.fingerprint_view() == fingerprint@,
            e.matched_key_id_view() == matched_key_id,
            e.handle_view() == candidate.handle_view(),
            e.kid_view() == candidate.kid_view(),
            e.attestor_view() == candidate.attestor_view(),
    {
        VerifiedGitHubEvidence {
            account: GitHubAccount::new(id, login),
            fingerprint,
            matched_key_id,
            subject_handle: candidate.subject_handle().duplicate(),
            kid: candidate.kid().duplicate(),
            ssh_attestor_public_key: owned(candidate.ssh_attestor_public_key()),
        }
    }

    /// Turn a verification result into evidence about `candidate`, refusing a
    /// result that failed, carries no verified identity, or describes anything
    /// other than the exact candidate under review.
    pub fn from_result(candidate: &KnownKeyReviewCandidate, result: VerificationResult) -> (r:
        Result<VerifiedGitHubEvidence>)
        ensures
            r is Ok <==> evidence_refusal(*candidate, result) is None,
            r matches Err(e) ==> e.kind == ErrorKind::Verification && (e.code matches Some(c) && Some(
                c@,
            ) == evidence_refusal(*candidate, result)),
            r matches Ok(e) ==> e.describes(*candidate) && (result.verified_github matches Some(
                v,
            ) && e.account_view().id_view() == v.id && e.account_view().login_view() == v.login@
                && e.fingerprint_view() == v.fingerprint@ && e.matched_key_id_view()
                == v.matched_key_id),
    {
        if result.status != VerificationStatus::Verified {
            return Err(Error::build_verification_error(owned("E_ONLINE_VERIFICATION_FAILED"), result.message));
        }
        let verified = match result.verified_github {
            Some(v) => v,
            None => {
                return Err(
                    Error::build_verification_error(
                        owned("E_ONLINE_VERIFICATION_FAILED"),
                        owned(
                            "Successful GitHub verification did not return verified identity evidence",
                        ),
                    ),
                );
            },
        };
        enforce_reviewed_candidate_identity(candidate, result.member_handle.as_str(), &verified)?;
        enforce_result_matches_identity(&result.fingerprint, result.matched_key_id, &verified)?;
        let VerifiedGithubIdentity { id, login, fingerprint, matched_key_id } = verified;
        Ok(
            VerifiedGitHubEvidence {
                account: GitHubAccount::new(id, login),
                fingerprint,
                matched_key_id,
                subject_handle: candidate.subject_handle().duplicate(),
                kid: candidate.kid().duplicate(),
                ssh_attestor_public_key: owned(candidate.ssh_attestor_public_key()),
            },
        )
    }

    /// A copy of this evidence.
    pub fn duplicate(&self) -> (e: VerifiedGitHubEvidence)
        ensures
            e == *self,
    {
        VerifiedGitHubEvidence {
            account: self.account.duplicate(),
            fingerprint: self.fingerprint.clone(),
            matched_key_id: self.matched_key_id,
            subject_handle: self.subject_handle.duplicate(),
            kid: self.kid.duplicate(),
            ssh_attestor_public_key: self.ssh_attestor_public_key.clone(),
        }
    }

    /// The verified GitHub account.
    pub fn account(&self) -> (a: &GitHubAccount)
        ensures
            *a == self.account_view(),
    {
        &self.account
    }

    /// The fingerprint GitHub matched.
    pub fn fingerprint(&self) -> (f: &str)
        ensures
            f@ == self.fingerprint_view(),
    {
        self.fingerprint.as_str()
    }

    /// The id of the matching GitHub SSH key record.
    pub fn matched_key_id(&self) -> (k: i64)
        ensures
            k == self.matched_key_id_view(),
    {
        self.matched_key_id
    }

    /// Whether this evidence describes `candidate`.
    pub fn matches_candidate(&self, candidate: &KnownKeyReviewCandidate) -> (r: bool)
        ensures
            r == self.describes(*candidate),
    {
        self.subject_handle.same(candidate.subject_handle()) && self.kid.same(candidate.kid())
            && text_eq(self.ssh_attestor_public_key.as_str(), candidate.ssh_attestor_public_key())
            && candidate.github_account_id() == Some(self.account.id())
    }
}

/// Refuse evidence that does not describe the exact candidate under review.
fn enforce_reviewed_candidate_identity(
    candidate: &KnownKeyReviewCandidate,
    member_handle: &str,
    verified: &VerifiedGithubIdentity,
) -> (r: Result<()>)
    ensures
        r is Ok <==> member_handle@ == candidate.handle_view()
            && candidate.github_account_id_view() == Some(verified.id)
            && candidate.fingerprint_view() == Some(verified.fingerprint@),
        r matches Err(e) ==> e.kind == ErrorKind::Verification && (e.code matches Some(c) && c@ == (
        if member_handle@ != candidate.handle_view() || candidate.github_account_id_view() != Some(
            verified.id,
        ) {
            online_verification_identity_mismatch()
        } else {
            online_verification_evidence_mismatch()
        })),
{
    if !text_eq(member_handle, candidate.subject_handle().as_str()) {
        return Err(
            Error::build_verification_error(
                owned("E_ONLINE_VERIFICATION_IDENTITY_MISMATCH"),
                owned("GitHub verification result belongs to a different member"),
            ),
        );
    }
    if candidate.github_account_id() != Some(verified.id) {
        return Err(
            Error::build_verification_error(
                owned("E_ONLINE_VERIFICATION_IDENTITY_MISMATCH"),
                owned("Verified GitHub account id differs from the reviewed binding claim"),
            ),
        );
    }
    let same_fingerprint = match candidate.fingerprint() {
        Some(f) => text_eq(f, verified.fingerprint.as_str()),
        None => false,
    };
    if !same_fingerprint {
        return Err(
            build_evidence_mismatch_error(
                "Verified SSH fingerprint differs from the reviewed candidate",
            ),
        );
    }
    Ok(())
}

/// Refuse a result whose own fields disagree with the identity it carries.
fn enforce_result_matches_identity(
    fingerprint: &Option<String>,
    matched_key_id: Option<i64>,
    verified: &VerifiedGithubIdentity,
) -> (r: Result<()>)
    ensures
        r is Ok <==> opt_view(*fingerprint) == Some(verified.fingerprint@) && matched_key_id == Some(
            verified.matched_key_id,
        ),
        r matches Err(e) ==> e.kind == ErrorKind::Verification && (e.code matches Some(c) && c@
            == online_verification_evidence_mismatch()),
{
    let same_fingerprint = match fingerprint {
        Some(f) => text_eq(f.as_str(), verified.fingerprint.as_str()),
        None => false,
    };
    if !same_fingerprint {
        return Err(
            build_evidence_mismatch_error(
                "Verification result fingerprint differs from its verified identity",
            ),
        );
    }
    if matched_key_id != Some(verified.matched_key_id) {
        return Err(
            build_evidence_mismatch_error(
                "Verification result matched key id differs from its verified identity",
            ),
        );
    }
    Ok(())
}

fn build_evidence_mismatch_error(message: &str) -> (e: Error)
    ensures
        e.kind == ErrorKind::Verification,
        e.code matches Some(c) && c@ == online_verification_evidence_mismatch(),
        e.message@ == message@,
{
    Error::build_verification_error(owned("E_ONLINE_VERIFICATION_EVIDENCE_MISMATCH"), owned(message))
}

} // verus!
