//! The identities trust decisions are about: member handles, key ids, the
//! claims a verified public key makes, and what an online check returned.

use vstd::prelude::*;
use crate::error::{ErrorKind, Result};
use crate::validation::{is_valid_member_handle, validate_member_handle};
use crate::text::owned;

verus! {

/// A validated member handle.
#[derive(Debug, Clone)]
pub struct MemberHandle {
    value: String,
}

impl View for MemberHandle {
    type V = Seq<char>;

    closed spec fn view(&self) -> Seq<char> {
        self.value@
    }
}

impl MemberHandle {
    /// A copy holding the same text.
    pub fn duplicate(&self) -> (r: MemberHandle)
        ensures
            r == *self,
    {
        MemberHandle { value: self.value.clone() }
    }

    /// Accept a handle that passes the member handle rules.
    pub fn new(value: String) -> (r: Result<MemberHandle>)
        ensures
            r is Ok <==> is_valid_member_handle(value@),
            r matches Ok(h) ==> h@ == value@,
            r matches Err(e) ==> e.kind == ErrorKind::InvalidArgument,
    {
        validate_member_handle(value.as_str())?;
        Ok(MemberHandle { value })
    }

    pub fn as_str(&self) -> (s: &str)
        ensures
            s@ == self@,
    {
        self.value.as_str()
    }

    pub fn into_string(self) -> (s: String)
        ensures
            s@ == self@,
    {
        self.value
    }

    pub fn same(&self, other: &MemberHandle) -> (r: bool)
        ensures
            r == (self@ == other@),
    {
        self.value == other.value
    }
}

/// A key id taken from a verified key document.
#[derive(Debug, Clone)]
pub struct Kid {
    value: String,
}

impl View for Kid {
    type V = Seq<char>;

    closed spec fn view(&self) -> Seq<char> {
        self.value@
    }
}

impl Kid {
    /// A copy holding the same text.
    pub fn duplicate(&self) -> (r: Kid)
        ensures
            r == *self,
    {
        Kid { value: self.value.clone() }
    }

    /// Hold the key id a verified document states.
    pub fn from_verified(value: String) -> (k: Kid)
        ensures
            k@ == value@,
    {
        Kid { value }
    }

    pub fn as_str(&self) -> (s: &str)
        ensures
            s@ == self@,
    {
        self.value.as_str()
    }

    pub fn into_string(self) -> (s: String)
        ensures
            s@ == self@,
    {
        self.value
    }

    pub fn same(&self, other: &Kid) -> (r: bool)
        ensures
            r == (self@ == other@),
    {
        self.value == other.value
    }
}

/// A GitHub account a key document claims.
#[derive(Debug, Clone)]
pub struct GithubAccountClaim {
    pub id: u64,
    pub login: String,
}

impl GithubAccountClaim {
    /// A copy holding the same account.
    pub fn duplicate(&self) -> (r: GithubAccountClaim)
        ensures
            r == *self,
    {
        GithubAccountClaim { id: self.id, login: self.login.clone() }
    }
}

/// What a signature-verified public key document states about its owner.
#[derive(Debug, Clone)]
pub struct PublicKeyClaims {
    pub subject_handle: String,
    pub kid: String,
    /// The SSH public key that attested the document.
    pub attestor_pub: String,
    /// The GitHub account the document binds itself to, if any.
    pub github_account: Option<GithubAccountClaim>,
}

impl PublicKeyClaims {
    /// A copy stating the same claims.
    pub fn duplicate(&self) -> (r: PublicKeyClaims)
        ensures
            r == *self,
    {
        PublicKeyClaims {
            subject_handle: self.subject_handle.clone(),
            kid: self.kid.clone(),
            attestor_pub: self.attestor_pub.clone(),
            github_account: match &self.github_account {
                Some(a) => Some(a.duplicate()),
                None => None,
            },
        }
    }
}

/// The outcome class of one online verification.
#[derive(Debug, Clone, Copy, PartialEq, Eq, Structural)]
pub enum VerificationStatus {
    NotConfigured,
    Verified,
    Failed,
}

/// The GitHub identity a successful verification established.
#[derive(Debug, Clone)]
pub struct VerifiedGithubIdentity {
    pub id: u64,
    pub login: String,
    pub fingerprint: String,
    pub matched_key_id: i64,
}

impl VerifiedGithubIdentity {
    /// A copy of this identity.
    pub fn duplicate(&self) -> (r: VerifiedGithubIdentity)
        ensures
            r == *self,
    {
        VerifiedGithubIdentity {
            id: self.id,
            login: self.login.clone(),
            fingerprint: self.fingerprint.clone(),
            matched_key_id: self.matched_key_id,
        }
    }
}

/// What an online verification of one key document returned.
#[derive(Debug, Clone)]
pub struct VerificationResult {
    pub member_handle: String,
    pub status: VerificationStatus,
    pub message: String,
    pub fingerprint: Option<String>,
    pub matched_key_id: Option<i64>,
    pub verified_github: Option<VerifiedGithubIdentity>,
}

impl VerificationResult {
    /// A copy of this result.
    pub fn duplicate(&self) -> (r: VerificationResult)
        ensures
            r == *self,
    {
        VerificationResult {
            member_handle: self.member_handle.clone(),
            status: self.status,
            message: self.message.clone(),
            fingerprint: duplicate_opt(&self.fingerprint),
            matched_key_id: self.matched_key_id,
            verified_github: match &self.verified_github {
                Some(v) => Some(v.duplicate()),
                None => None,
            },
        }
    }
}

/// A copy of an optional string.
pub fn duplicate_opt(s: &Option<String>) -> (r: Option<String>)
    ensures
        r == *s,
{
    match s {
        Some(t) => Some(t.clone()),
        None => None,
    }
}

/// Two optional texts are equal.
pub open spec fn opt_text_eq(a: Option<Seq<char>>, b: Option<Seq<char>>) -> bool {
    a == b
}

/// The view of an optional string.
pub open spec fn opt_view(s: Option<String>) -> Option<Seq<char>> {
    match s {
        Some(t) => Some(t@),
        None => None,
    }
}

/// Compare two optional texts.
pub fn opt_text_same(a: &Option<String>, b: &Option<String>) -> (r: bool)
    ensures
        r == (opt_view(*a) == opt_view(*b)),
{
    match (a, b) {
        (Some(x), Some(y)) => text_eq(x.as_str(), y.as_str()),
        (None, None) => true,
        _ => false,
    }
}

/// Compare two texts.
pub fn text_eq(a: &str, b: &str) -> (r: bool)
    ensures
        r == (a@ == b@),
{
    let x = owned(a);
    let y = owned(b);
    x == y
}

} // verus!
