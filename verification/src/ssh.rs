//! The SSH key that signs on a member's behalf: where candidate keys come
//! from, which signing backend serves them, which key is selected, and what a
//! determinism check means for key generation.
//!
//! Running `ssh-keygen` and `ssh-add` is the caller's part; the decisions taken
//! on what they report are made here.

use vstd::prelude::*;
use crate::error::{Error, ErrorKind, Result};
use crate::model::{duplicate_opt, text_eq};
use crate::text::{contains_seq, contains_text, first_word, first_word_of, owned, push_str};

verus! {

/// How SSH signatures are produced.
#[derive(Debug, Clone, Copy, PartialEq, Eq, Structural)]
pub enum SshSigningMethod {
    SshKeygen,
    SshAgent,
}

/// Outcome of the signature determinism check run before key generation.
#[derive(Debug, Clone)]
pub enum SshDeterminismStatus {
    Skipped,
    Verified,
    Failed { message: String },
}

/// Resolved inputs for locating and using an SSH signing key.
#[derive(Debug, Clone)]
pub struct SshSigningInputs {
    method: SshSigningMethod,
    identity: Option<String>,
    agent_socket: Option<String>,
    ssh_keygen_command: String,
    ssh_add_command: String,
}

impl SshSigningInputs {
    pub closed spec fn method_view(self) -> SshSigningMethod {
        self.method
    }

    pub closed spec fn identity_view(self) -> Option<String> {
        self.identity
    }

    pub closed spec fn agent_socket_view(self) -> Option<String> {
        self.agent_socket
    }

    pub closed spec fn keygen_command_view(self) -> Seq<char> {
        self.ssh_keygen_command@
    }

    pub closed spec fn add_command_view(self) -> Seq<char> {
        self.ssh_add_command@
    }

    /// Bundle the inputs resolved from the command line, environment and
    /// configuration.
    pub fn new(
        method: SshSigningMethod,
        identity: Option<String>,
        agent_socket: Option<String>,
        ssh_keygen_command: String,
        ssh_add_command: String,
    ) -> (r: SshSigningInputs)
        ensures
            r.method_view() == method,
            r.identity_view() == identity,
            r.agent_socket_view() == agent_socket,
            r.keygen_command_view() == ssh_keygen_command@,
            r.add_command_view() == ssh_add_command@,
    {
        SshSigningInputs { method, identity, agent_socket, ssh_keygen_command, ssh_add_command }
    }

    pub fn method(&self) -> (m: SshSigningMethod)
        ensures
            m == self.method_view(),
    {
        self.method
    }

    pub fn identity(&self) -> (p: Option<String>)
        ensures
            p == self.identity_view(),
    {
        duplicate_opt(&self.identity)
    }

    pub fn agent_socket(&self) -> (p: Option<String>)
        ensures
            p == self.agent_socket_view(),
    {
        duplicate_opt(&self.agent_socket)
    }

    pub fn ssh_keygen_command(&self) -> (c: &str)
        ensures
            c@ == self.keygen_command_view(),
    {
        self.ssh_keygen_command.as_str()
    }

    pub fn ssh_add_command(&self) -> (c: &str)
        ensures
            c@ == self.add_command_view(),
    {
        self.ssh_add_command.as_str()
    }
}

/// Public details of one SSH key available to the resolved signing method.
#[derive(Debug, Clone)]
pub struct SshKeyCandidateView {
    pub public_key: String,
    pub fingerprint: String,
    pub comment: String,
}

impl SshKeyCandidateView {
    /// A copy holding the same texts.
    pub fn duplicate(&self) -> (r: SshKeyCandidateView)
        ensures
            r == *self,
    {
        SshKeyCandidateView {
            public_key: self.public_key.clone(),
            fingerprint: self.fingerprint.clone(),
            comment: self.comment.clone(),
        }
    }
}

/// An Ed25519 signature in the raw 64-byte form SSHSIG carries.
#[derive(Clone)]
pub struct SshRawSignature {
    bytes: [u8; 64],
}

impl SshRawSignature {
    pub closed spec fn bytes_view(self) -> Seq<u8> {
        self.bytes@
    }

    /// Build a raw signature from exactly 64 bytes.
    pub fn new(bytes: [u8; 64]) -> (s: SshRawSignature)
        ensures
            s.bytes_view() == bytes@,
    {
        SshRawSignature { bytes }
    }

    /// The raw signature bytes.
    pub fn as_bytes(&self) -> (b: &[u8; 64])
        ensures
            b@ == self.bytes_view(),
    {
        &self.bytes
    }
}

/// A signing backend supplied by the caller.
pub trait SshSignatureBackend {
    /// Sign `message` in the SSHSIG namespace `namespace` with the key
    /// `ssh_pubkey`.
    fn sign_sshsig(&self, namespace: &str, ssh_pubkey: &str, message: &[u8]) -> Result<
        SshRawSignature,
    >;
}

/// Where the candidate keys are read from.
#[derive(Debug, Clone)]
pub enum SshCandidateSource {
    /// The single key whose path the caller named.
    IdentityFile(String),
    /// Every Ed25519 key the agent holds.
    Agent,
}

pub open spec fn identity_required_message() -> Seq<char> {
    "SSH identity is required for ssh-keygen signing"@
}

fn identity_required() -> (e: Error)
    ensures
        e.kind == ErrorKind::Config,
        e.message@ == identity_required_message(),
{
    Error::build_config_error(owned("SSH identity is required for ssh-keygen signing"))
}

/// Where candidate keys come from: the named identity file when there is one,
/// else the agent; `ssh-keygen` signing without an identity is refused.
pub fn ssh_candidate_source(inputs: &SshSigningInputs) -> (r: Result<SshCandidateSource>)
    ensures
        match inputs.identity_view() {
            Some(p) => r matches Ok(SshCandidateSource::IdentityFile(q)) && q == p,
            None => match inputs.method_view() {
                SshSigningMethod::SshAgent => r matches Ok(SshCandidateSource::Agent),
                SshSigningMethod::SshKeygen => r matches Err(e) && e.kind == ErrorKind::Config
                    && e.message@ == identity_required_message(),
            },
        },
{
    match inputs.identity() {
        Some(path) => Ok(SshCandidateSource::IdentityFile(path)),
        None => match inputs.method {
            SshSigningMethod::SshAgent => Ok(SshCandidateSource::Agent),
            SshSigningMethod::SshKeygen => Err(identity_required()),
        },
    }
}

/// What the signing backend is built from.
#[derive(Debug, Clone)]
pub struct SshBackendPlan {
    pub method: SshSigningMethod,
    /// The key file `ssh-keygen` signs with; the agent needs none.
    pub key_path: Option<String>,
    pub agent_socket: Option<String>,
    pub ssh_keygen_command: String,
}

/// The backend the inputs call for: the agent signs with no key file, and
/// `ssh-keygen` signs with the identity file, which it cannot do without.
pub fn backend_descriptor(inputs: &SshSigningInputs) -> (r: Result<SshBackendPlan>)
    ensures
        match inputs.method_view() {
            SshSigningMethod::SshAgent => r matches Ok(p) && p.key_path is None,
            SshSigningMethod::SshKeygen => match inputs.identity_view() {
                Some(path) => r matches Ok(p) && p.key_path == Some(path),
                None => r matches Err(e) && e.kind == ErrorKind::Config && e.message@
                    == identity_required_message(),
            },
        },
        r matches Ok(p) ==> {
            &&& p.method == inputs.method_view()
            &&& p.agent_socket == inputs.agent_socket_view()
            &&& p.ssh_keygen_command@ == inputs.keygen_command_view()
        },
{
    let key_path = match inputs.method {
        SshSigningMethod::SshAgent => None,
        SshSigningMethod::SshKeygen => match inputs.identity() {
            Some(path) => Some(path),
            None => return Err(identity_required()),
        },
    };
    Ok(
        SshBackendPlan {
            method: inputs.method,
            key_path,
            agent_socket: inputs.agent_socket(),
            ssh_keygen_command: owned(inputs.ssh_keygen_command()),
        },
    )
}

pub open spec fn ed25519_key_type() -> Seq<char> {
    "ssh-ed25519"@
}

/// The message that refuses a key of another type; `found` is the key's
/// first word, or `unknown` when it has none.
pub open spec fn unsupported_key_message(public_key: Seq<char>) -> Seq<char> {
    "Only Ed25519 SSH keys are supported. Got: "@ + match first_word(public_key) {
        Some(w) => w,
        None => "unknown"@,
    }
}

/// Accept only an Ed25519 public key line, judged by its first word.
pub fn validate_ed25519_key(public_key: &str) -> (r: Result<()>)
    ensures
        r is Ok <==> first_word(public_key@) == Some(ed25519_key_type()),
        r matches Err(e) ==> e.kind == ErrorKind::InvalidArgument && e.message@
            == unsupported_key_message(public_key@),
{
    let word = first_word_of(public_key);
    let mut message = owned("Only Ed25519 SSH keys are supported. Got: ");
    match word {
        Some(w) => {
            if text_eq(w.as_str(), "ssh-ed25519") {
                return Ok(());
            }
            push_str(&mut message, w.as_str());
        },
        None => {
            push_str(&mut message, "unknown");
        },
    }
    Err(Error::build_invalid_argument_error(message))
}

pub open spec fn non_deterministic_marker() -> Seq<char> {
    "Non-deterministic signature detected: same input produced different signatures"@
}

/// Whether `error` reports that one input produced two signatures.
pub fn is_non_deterministic_signature_error(error: &Error) -> (r: bool)
    ensures
        r == contains_seq(error.message@, non_deterministic_marker()),
{
    contains_text(
        error.message.as_str(),
        "Non-deterministic signature detected: same input produced different signatures",
    )
}

pub open spec fn determinism_failure_message() -> Seq<char> {
    "SSH signature determinism check failed.\nA deterministic SSH key is required for key generation."@
}

/// The determinism status for the outcome of the check: `None` when the check
/// was not run. A non-deterministic signature is a status, not an error;
/// any other failure of the check is passed on.
pub fn check_determinism_status(check: Option<Result<()>>) -> (r: Result<SshDeterminismStatus>)
    ensures
        match check {
            None => r matches Ok(SshDeterminismStatus::Skipped),
            Some(Ok(())) => r matches Ok(SshDeterminismStatus::Verified),
            Some(Err(e)) => if contains_seq(e.message@, non_deterministic_marker()) {
                r matches Ok(SshDeterminismStatus::Failed { message }) && message@
                    == determinism_failure_message()
            } else {
                r == Err::<SshDeterminismStatus, Error>(e)
            },
        },
{
    match check {
        None => Ok(SshDeterminismStatus::Skipped),
        Some(Ok(())) => Ok(SshDeterminismStatus::Verified),
        Some(Err(error)) => {
            if is_non_deterministic_signature_error(&error) {
                Ok(
                    SshDeterminismStatus::Failed {
                        message: owned(
                            "SSH signature determinism check failed.\nA deterministic SSH key is required for key generation.",
                        ),
                    },
                )
            } else {
                Err(error)
            }
        },
    }
}

/// The message for a selected key that no candidate matches.
pub open spec fn missing_selected_key_message(fingerprint: Seq<char>) -> Seq<char> {
    "SSH key for the selected key ("@ + fingerprint
        + ") not found in ssh-agent. Load it with ssh-add or specify with -i"@
}

/// `i` is the first candidate whose fingerprint is `fingerprint`.
pub open spec fn first_with_fingerprint(
    candidates: Seq<SshKeyCandidateView>,
    fingerprint: Seq<char>,
    i: int,
) -> bool {
    &&& 0 <= i < candidates.len()
    &&& candidates[i].fingerprint@ == fingerprint
    &&& forall|j: int| 0 <= j < i ==> candidates[j].fingerprint@ != fingerprint
}

/// Pick the first candidate with the expected fingerprint.
pub fn select_ssh_key_candidate(candidates: &Vec<SshKeyCandidateView>, expected_fingerprint: &str) -> (r:
    Result<SshKeyCandidateView>)
    ensures
        r is Ok <==> exists|i: int|
            0 <= i < candidates@.len() && candidates@[i].fingerprint@ == expected_fingerprint@,
        r matches Ok(c) ==> exists|i: int|
            first_with_fingerprint(candidates@, expected_fingerprint@, i) && c == candidates@[i],
        r matches Err(e) ==> e.kind == ErrorKind::NotFound && e.message@
            == missing_selected_key_message(expected_fingerprint@),
{
    let mut i: usize = 0;
    while i < candidates.len()
        invariant
            i <= candidates.len(),
            forall|j: int| 0 <= j < i ==> candidates@[j].fingerprint@ != expected_fingerprint@,
        decreases candidates.len() - i,
    {
        if text_eq(candidates[i].fingerprint.as_str(), expected_fingerprint) {
            let c = candidates[i].duplicate();
            assert(first_with_fingerprint(candidates@, expected_fingerprint@, i as int));
            return Ok(c);
        }
        i = i + 1;
    }
    let mut message = owned("SSH key for the selected key (");
    push_str(&mut message, expected_fingerprint);
    push_str(
        &mut message,
        ") not found in ssh-agent. Load it with ssh-add or specify with -i",
    );
    Err(Error::build_not_found_error(message))
}

/// The SSH context selected for key generation: the key, its fingerprint, the
/// backend that signs with it and the outcome of the determinism check.
#[derive(Debug, Clone)]
pub struct SshSigningContextResolution {
    pub public_key: String,
    pub fingerprint: String,
    pub backend: SshBackendPlan,
    pub determinism: SshDeterminismStatus,
}

/// Build the signing context for a key returned by candidate resolution.
///
/// `fingerprint` is the key's SHA-256 fingerprint and `determinism_check` the
/// outcome of the determinism check (`None` when it was not asked for). The
/// key must be Ed25519 and the inputs must name a backend; the first refusal
/// in that order is returned.
pub fn build_ssh_signing_context(
    inputs: &SshSigningInputs,
    selected_public_key: &str,
    fingerprint: String,
    determinism_check: Option<Result<()>>,
) -> (r: Result<SshSigningContextResolution>)
    ensures
        first_word(selected_public_key@) != Some(ed25519_key_type()) ==> (r matches Err(e)
            && e.kind == ErrorKind::InvalidArgument && e.message@ == unsupported_key_message(
            selected_public_key@,
        )),
        first_word(selected_public_key@) == Some(ed25519_key_type()) && inputs.method_view()
            == SshSigningMethod::SshKeygen && inputs.identity_view() is None ==> (r matches Err(e)
            && e.kind == ErrorKind::Config),
        r matches Ok(c) ==> {
            &&& c.public_key@ == selected_public_key@
            &&& c.fingerprint@ == fingerprint@
            &&& c.backend.method == inputs.method_view()
            &&& match determinism_check {
                None => c.determinism is Skipped,
                Some(Ok(())) => c.determinism is Verified,
                Some(Err(e)) => c.determinism is Failed && contains_seq(
                    e.message@,
                    non_deterministic_marker(),
                ),
            }
        },
        (first_word(selected_public_key@) == Some(ed25519_key_type()) && !(inputs.method_view()
            == SshSigningMethod::SshKeygen && inputs.identity_view() is None)) ==> match determinism_check {
            Some(Err(e)) => if contains_seq(e.message@, non_deterministic_marker()) {
                r is Ok
            } else {
                r == Err::<SshSigningContextResolution, Error>(e)
            },
            _ => r is Ok,
        },
{
    validate_ed25519_key(selected_public_key)?;
    let backend = backend_descriptor(inputs)?;
    let determinism = check_determinism_status(determinism_check)?;
    Ok(
        SshSigningContextResolution {
            public_key: owned(selected_public_key),
            fingerprint,
            backend,
            determinism,
        },
    )
}

} // verus!
