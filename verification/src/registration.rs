//! Types describing one member registration from plan to outcome. They carry
//! validated member and key identities rather than raw strings.

use vstd::prelude::*;
use crate::model::{Kid, MemberHandle};
use crate::online::OnlineVerificationStatus;
use crate::ssh::SshDeterminismStatus;

verus! {

/// What a registration did to the member directory.
#[derive(Debug, Clone, Copy, PartialEq, Eq, Structural)]
pub enum RegistrationResult {
    NewMember,
    Updated,
    AlreadyExists,
    Skipped,
}

/// Whether the registration creates the workspace or joins an existing one.
#[derive(Debug, Clone, Copy, PartialEq, Eq, Structural)]
pub enum RegistrationMode {
    Init,
    Join,
}

/// The key a registration will publish.
#[derive(Debug, Clone)]
pub struct RegistrationKeyPlan {
    resolution: RegistrationKeyPlanResolution,
}

/// How the registration key is obtained.
#[derive(Debug, Clone)]
pub enum RegistrationKeyPlanResolution {
    /// Reuse a key already in the keystore rooted at `keystore_root`.
    UseExisting { kid: Kid, expires_at: String, keystore_root: String },
    /// Generate a new key under the local-state home `home`.
    GenerateNew { home: String },
}

impl RegistrationKeyPlan {
    pub closed spec fn resolution_view(self) -> RegistrationKeyPlanResolution {
        self.resolution
    }

    /// Plan to reuse an existing key.
    pub fn use_existing(kid: Kid, expires_at: String, keystore_root: String) -> (p:
        RegistrationKeyPlan)
        ensures
            p.resolution_view() == (RegistrationKeyPlanResolution::UseExisting {
                kid,
                expires_at,
                keystore_root,
            }),
    {
        RegistrationKeyPlan {
            resolution: RegistrationKeyPlanResolution::UseExisting { kid, expires_at, keystore_root },
        }
    }

    /// Plan to generate a new key.
    pub fn generate_new(home: String) -> (p: RegistrationKeyPlan)
        ensures
            p.resolution_view() == (RegistrationKeyPlanResolution::GenerateNew { home }),
    {
        RegistrationKeyPlan { resolution: RegistrationKeyPlanResolution::GenerateNew { home } }
    }

    /// Whether the plan generates a new key.
    pub fn needs_new_key(&self) -> (r: bool)
        ensures
            r == (self.resolution_view() is GenerateNew),
    {
        match self.resolution {
            RegistrationKeyPlanResolution::GenerateNew { .. } => true,
            RegistrationKeyPlanResolution::UseExisting { .. } => false,
        }
    }

    /// The key id a plan resolved to reuse.
    pub fn existing_kid(&self) -> (k: Option<&Kid>)
        ensures
            match self.resolution_view() {
                RegistrationKeyPlanResolution::UseExisting { kid, .. } => k == Some(&kid),
                RegistrationKeyPlanResolution::GenerateNew { .. } => k is None,
            },
    {
        match &self.resolution {
            RegistrationKeyPlanResolution::UseExisting { kid, .. } => Some(kid),
            RegistrationKeyPlanResolution::GenerateNew { .. } => None,
        }
    }

    pub fn into_resolution(self) -> (r: RegistrationKeyPlanResolution)
        ensures
            r == self.resolution_view(),
    {
        self.resolution
    }
}

/// The member directory a registration writes into.
#[derive(Debug, Clone, Copy, PartialEq, Eq, Structural)]
pub enum RegistrationTarget {
    Active,
    Incoming,
}

/// The workspace-relative directory of each registration target.
pub open spec fn target_directory(target: RegistrationTarget) -> Seq<char> {
    match target {
        RegistrationTarget::Active => "members/active"@,
        RegistrationTarget::Incoming => "members/incoming"@,
    }
}

impl RegistrationTarget {
    /// The workspace-relative directory this target names.
    pub fn directory_name(self) -> (s: &'static str)
        ensures
            s@ == target_directory(self),
    {
        match self {
            RegistrationTarget::Active => "members/active",
            RegistrationTarget::Incoming => "members/incoming",
        }
    }
}

/// How the registering member already stands among the active members.
#[derive(Debug, Clone, Copy, PartialEq, Eq, Structural)]
pub enum ActiveMembershipState {
    /// The member is not active yet.
    Absent,
    SameKey,
    DifferentKey,
}

/// The member and key a registration set up.
#[derive(Debug, Clone)]
pub struct MemberSetupResult {
    pub member_handle: MemberHandle,
    pub key_result: MemberKeySetupResult,
}

impl MemberSetupResult {
    /// The key id of the registered key.
    pub fn kid(&self) -> (k: &Kid)
        ensures
            *k == self.key_result.kid,
    {
        &self.key_result.kid
    }
}

/// The key side of a member setup.
#[derive(Debug, Clone)]
pub struct MemberKeySetupResult {
    pub kid: Kid,
    pub created: bool,
    pub expires_at: String,
    pub ssh_fingerprint: Option<String>,
    pub ssh_determinism: Option<SshDeterminismStatus>,
    pub github_verification: OnlineVerificationStatus,
}

/// A registration ready to be applied to a workspace.
#[derive(Debug, Clone)]
pub struct RegistrationCommand {
    pub mode: RegistrationMode,
    pub workspace_path: String,
    pub setup: MemberSetupResult,
    pub target: RegistrationTarget,
    pub is_new_workspace: bool,
    pub conflict_exists: bool,
    pub active_membership: ActiveMembershipState,
    /// Root of the keystore the key was read from or written to.
    pub keystore_root: String,
}

/// What one applied registration did.
#[derive(Debug, Clone)]
pub struct RegistrationOutcome {
    pub mode: RegistrationMode,
    pub workspace_path: String,
    pub target: RegistrationTarget,
    pub is_new_workspace: bool,
    pub member_handle: MemberHandle,
    pub key_result: MemberKeySetupResult,
    pub result: RegistrationResult,
}

} // verus!
