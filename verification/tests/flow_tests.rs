use kapsaro_core::error::{Error, ErrorKind};
use kapsaro_core::member::{
    build_missing_active_member_approval_result, collect_member_evaluations,
    collect_persistable_approvals, contains_member, ensure_members_unchanged,
    enforce_candidate_public_key_active, evaluate_candidate_with_snapshot,
    scan_artifacts_for_member, select_approval_targets, ArtifactRecipients, MemberApprovalResult,
};
use kapsaro_core::model::{
    GithubAccountClaim, Kid, MemberHandle, PublicKeyClaims, VerificationResult, VerificationStatus,
};
use kapsaro_core::online::VerifiedGitHubEvidence;
use kapsaro_core::path::DisplayBase;
use kapsaro_core::read::{
    finish_read_evaluation, plan_read_evaluation, ReadEvaluationPlan, ReadEvaluationState,
    review_or_continue, ReadSessionDecision,
    resolve_exceptions, validate_acceptance, AcceptedNonMember, AuthorizedRead,
    NonMemberReadReview, ReadOperationBinding, ReadReview, ReadReviewBinding, ReadTargetKind,
};
use kapsaro_core::registration::{RegistrationKeyPlan, RegistrationTarget};
use kapsaro_core::rewrap::{
    build_incoming_candidate, build_incoming_report, build_pending_review_category, build_promotion_review_plan,
    build_promotion_review_session, evaluate_promotion_candidate_online, online_verification_targets,
    promotion_judgment,
    IncomingPromotionCandidate, IncomingVerificationCategory, IncomingVerificationItem,
    KnownKeyJudgment, PromotionJudgment, RewrapOptions,
};
use kapsaro_core::ssh::{
    build_ssh_signing_context, check_determinism_status, select_ssh_key_candidate,
    ssh_candidate_source, validate_ed25519_key, SshCandidateSource, SshDeterminismStatus,
    SshKeyCandidateView, SshRawSignature, SshSigningInputs, SshSigningMethod,
};
use kapsaro_core::trust::evaluation::TrustDecision;
use kapsaro_core::trust::evaluator::ReadTrustReview;
use kapsaro_core::trust::policy::{KnownKeyReview, KnownKeyReviewCandidate, TrustApproval};
use kapsaro_core::rewrap::KnownKeyJudgment as Judgment;

fn claims(handle: &str, kid: &str, github: Option<u64>) -> PublicKeyClaims {
    PublicKeyClaims {
        subject_handle: handle.to_string(),
        kid: kid.to_string(),
        attestor_pub: format!("ssh-ed25519 AAAA{handle}"),
        github_account: github.map(|id| GithubAccountClaim { id, login: format!("gh{id}") }),
    }
}

fn incoming(handle: &str, kid: &str, category: IncomingVerificationCategory, binding: bool) -> IncomingPromotionCandidate {
    IncomingPromotionCandidate {
        review: IncomingVerificationItem {
            member_handle: handle.to_string(),
            kid: kid.to_string(),
            category,
            message: "offline".to_string(),
            fingerprint: Some(format!("SHA256:{kid}")),
            verified_github: None,
            verified_service_evidence: None,
            github_binding_configured: binding,
            attestor_pub: None,
        },
        source_content: "{}".to_string(),
        destination: None,
        public_key: claims(handle, kid, if binding { Some(7) } else { None }),
    }
}

fn binding() -> ReadReviewBinding {
    ReadReviewBinding::new([1u8; 32], ReadOperationBinding { kind: ReadTargetKind::Kv, name: "db".to_string() }).unwrap()
}

fn non_member() -> NonMemberReadReview {
    let c = KnownKeyReviewCandidate::from_public_key(&claims("eve", "K7", None), None).unwrap();
    NonMemberReadReview::new(c, vec![MemberHandle::new("alice".to_string()).unwrap()])
}

#[test]
fn authorized_read_hands_back_its_value() {
    let read = AuthorizedRead::new(41u32, vec![Kid::from_verified("K9".to_string())]);
    assert_eq!(*read.value(), 41);
    assert_eq!(read.unresolved_recipient_kids()[0].as_str(), "K9");
    assert_eq!(read.into_value(), 41);
}

#[test]
fn non_member_acceptance_is_one_shot() {
    let mut review = ReadReview::new(binding(), vec![], false, Some(non_member()), vec![], false, None, "db");
    let accepted = review.accept_non_member().unwrap();
    let again = review.accept_non_member().unwrap_err();
    assert_eq!(again.kind, ErrorKind::InvalidOperation);
    assert_eq!(again.message, "The non-member signer review was already accepted");
    let mut without = ReadReview::new(binding(), vec![], false, None, vec![], false, None, "db");
    assert_eq!(
        without.accept_non_member().unwrap_err().message,
        "This read review has no non-member signer"
    );
    drop(accepted);
}

#[test]
fn minted_acceptance_validates_only_against_its_review() {
    let b = binding();
    let mut review = ReadReview::new(b.clone(), vec![], false, Some(non_member()), vec![], false, None, "db");
    let carried = AcceptedNonMember::from_acceptance(review.accept_non_member().unwrap());
    let nm = non_member();
    assert!(validate_acceptance(Some(&nm), &b, &carried).is_ok());
    let other = binding();
    assert!(validate_acceptance(Some(&nm), &other, &carried).is_err());
    assert!(validate_acceptance(None, &b, &carried).is_err());
}

#[test]
fn read_target_must_not_change() {
    let review = ReadReview::new(binding(), vec![], false, None, vec![], false, None, "db");
    let op = ReadOperationBinding { kind: ReadTargetKind::Kv, name: "db".to_string() };
    assert!(review.validate_target([1u8; 32], &op).is_ok());
    assert!(review.validate_target([2u8; 32], &op).is_err());
    let other = ReadOperationBinding { kind: ReadTargetKind::File, name: "db".to_string() };
    assert!(review.validate_target([1u8; 32], &other).is_err());
}

#[test]
fn exceptions_without_acceptance() {
    let b = binding();
    let r = resolve_exceptions(None, false, &b, None, None, KnownKeyReview::Skipped).unwrap();
    let ex = r.exceptions.unwrap();
    assert_eq!(ex.known_key_review(), KnownKeyReview::Skipped);
    assert!(!ex.has_accepted_non_member());
    let pending = resolve_exceptions(None, true, &b, None, None, KnownKeyReview::Required).unwrap();
    assert!(pending.exceptions.is_none());
}

#[test]
fn exceptions_with_acceptance() {
    let b = binding();
    let nm = non_member();
    let mut review = ReadReview::new(b.clone(), vec![], false, Some(non_member()), vec![], false, None, "db");
    let acceptance = review.accept_non_member().unwrap();
    let r = resolve_exceptions(Some(&nm), false, &b, Some(acceptance), None, KnownKeyReview::Required)
        .unwrap();
    assert!(r.exceptions.unwrap().has_accepted_non_member());
    let carried = r.accepted_non_member.unwrap();
    let mut review2 = ReadReview::new(b.clone(), vec![], false, Some(non_member()), vec![], false, None, "db");
    let second = review2.accept_non_member().unwrap();
    let reused = resolve_exceptions(Some(&nm), false, &b, Some(second), Some(carried), KnownKeyReview::Required);
    let reused = reused.unwrap_err();
    assert_eq!(reused.code.as_deref(), Some("E_TRUST_TARGET_CHANGED"));
    assert_eq!(reused.message, "non-member acceptance was reused");
}

#[test]
fn rewrap_options_are_fail_closed() {
    let o = RewrapOptions::new();
    assert!(!o.rotate_key() && !o.clear_disclosure_history());
    assert!(!o.operation_options().allow_expired_key());
    let o = o.with_rotate_key(true).with_clear_disclosure_history(true);
    assert!(o.rotate_key() && o.clear_disclosure_history());
}

#[test]
fn incoming_report_sorts_by_category() {
    assert!(build_incoming_report(&vec![]).is_none());
    let cs = vec![
        incoming("a", "K1", IncomingVerificationCategory::BindingConfigured, true),
        incoming("b", "K2", IncomingVerificationCategory::Failed, false),
        incoming("c", "K3", IncomingVerificationCategory::NotConfigured, false),
        incoming("d", "K4", IncomingVerificationCategory::Verified, true),
    ];
    let report = build_incoming_report(&cs).unwrap();
    assert_eq!(report.binding_configured.len(), 1);
    assert_eq!(report.failed[0].review.member_handle, "b");
    assert_eq!(report.not_configured[0].review.member_handle, "c");
    let (cat, msg) = build_pending_review_category(false);
    assert_eq!(cat, IncomingVerificationCategory::NotConfigured);
    assert_eq!(msg, "No binding_claims.github_account configured");
}

#[test]
fn promotion_judgments() {
    let c = incoming("alice", "K1", IncomingVerificationCategory::NotConfigured, false);
    assert_eq!(promotion_judgment(&c, Ok(Judgment::New), None, Ok(false)).unwrap(), PromotionJudgment::New);
    assert_eq!(promotion_judgment(&c, Ok(Judgment::Existing), Some("bob"), Ok(false)).unwrap(), PromotionJudgment::Existing);
    assert_eq!(promotion_judgment(&c, Ok(Judgment::New), Some("alice"), Ok(true)).unwrap(), PromotionJudgment::SelfKey);
    let e = promotion_judgment(&c, Ok(Judgment::New), Some("alice"), Ok(false)).unwrap_err();
    assert_eq!(e.code.as_deref(), Some("E_REWRAP_SELF_PROMOTION_MISMATCH"));
    assert_eq!(e.message, "Incoming self key 'alice' (K1) did not match local keystore identity");
    let failed = Error::build_verification_error("E_X".to_string(), "x".to_string());
    assert_eq!(promotion_judgment(&c, Err(failed), None, Ok(true)).unwrap_err().code.as_deref(), Some("E_X"));
}

#[test]
fn promotion_plan_requires_review_for_new_keys() {
    let report = build_incoming_report(&vec![
        incoming("a", "K1", IncomingVerificationCategory::BindingConfigured, true),
        incoming("b", "K2", IncomingVerificationCategory::NotConfigured, false),
    ])
    .unwrap();
    let judged = vec![Ok(PromotionJudgment::New), Ok(PromotionJudgment::Existing)];
    let plan = build_promotion_review_plan(&report, &judged, true).unwrap();
    assert_eq!(plan.prompt_candidates[0].review.member_handle, "a");
    assert_eq!(plan.auto_accepted_candidates[0].review.member_handle, "b");
    let e = build_promotion_review_plan(&report, &judged, false).unwrap_err();
    assert_eq!(e.message, "Trust review is required for incoming members.");
    assert_eq!(e.code.as_deref(), Some("E_TRUST_REJECTED"));
    let auto_only = vec![Ok(PromotionJudgment::SelfKey), Ok(PromotionJudgment::Existing)];
    assert!(build_promotion_review_plan(&report, &auto_only, false).is_ok());
}

#[test]
fn online_failures_fold_into_failed_entries() {
    let report = build_incoming_report(&vec![
        incoming("a", "K1", IncomingVerificationCategory::BindingConfigured, true),
        incoming("b", "K2", IncomingVerificationCategory::NotConfigured, false),
    ])
    .unwrap();
    let judged = vec![Ok(PromotionJudgment::New), Ok(PromotionJudgment::New)];
    let plan = build_promotion_review_plan(&report, &judged, true).unwrap();
    let online = vec![
        Err(Error::build_verification_error("E_ONLINE".to_string(), "github down".to_string())),
        Err(Error::build_io_error("ignored without binding".to_string())),
    ];
    let session = build_promotion_review_session(&plan, &online).unwrap();
    let view = session.view();
    assert_eq!(view.failed_candidates.len(), 1);
    assert_eq!(view.failed_candidates[0].member_handle, "a");
    assert_eq!(view.failed_candidates[0].message, "github down");
    assert_eq!(view.prompt_candidates.len(), 1);
    let (accepted, approvals) = session.into_accepted_candidates_and_approvals(&["b".to_string()]).unwrap();
    assert_eq!(accepted.len(), 1);
    assert_eq!(approvals.len(), 1);
}

#[test]
fn online_success_marks_the_candidate_verified() {
    let c = incoming("a", "K1", IncomingVerificationCategory::BindingConfigured, true);
    let service = KnownKeyReviewCandidate::from_public_key(&c.public_key, None).unwrap();
    let evidence = VerifiedGitHubEvidence::for_test(&service, 7, "gh7".to_string(), "SHA256:gh".to_string(), 3);
    let reviewed = evaluate_promotion_candidate_online(&c, Ok(evidence)).unwrap();
    assert_eq!(reviewed.review.category, IncomingVerificationCategory::Verified);
    assert_eq!(reviewed.review.message, "GitHub verification succeeded");
    assert_eq!(reviewed.review.fingerprint.as_deref(), Some("SHA256:gh"));
    let unbound = incoming("b", "K2", IncomingVerificationCategory::NotConfigured, false);
    let same = evaluate_promotion_candidate_online(&unbound, Err(Error::build_io_error("x".to_string()))).unwrap();
    assert_eq!(same.review.category, IncomingVerificationCategory::NotConfigured);
}

#[test]
fn ssh_candidate_sources() {
    let keygen = SshSigningInputs::new(SshSigningMethod::SshKeygen, None, None, "ssh-keygen".to_string(), "ssh-add".to_string());
    assert_eq!(ssh_candidate_source(&keygen).unwrap_err().message, "SSH identity is required for ssh-keygen signing");
    let agent = SshSigningInputs::new(SshSigningMethod::SshAgent, None, None, "ssh-keygen".to_string(), "ssh-add".to_string());
    assert!(matches!(ssh_candidate_source(&agent).unwrap(), SshCandidateSource::Agent));
    let file = SshSigningInputs::new(SshSigningMethod::SshAgent, Some("/k".to_string()), None, "ssh-keygen".to_string(), "ssh-add".to_string());
    assert!(matches!(ssh_candidate_source(&file).unwrap(), SshCandidateSource::IdentityFile(p) if p == "/k"));
}

#[test]
fn only_ed25519_keys_are_accepted() {
    assert!(validate_ed25519_key("ssh-ed25519 AAAA me@host").is_ok());
    assert_eq!(
        validate_ed25519_key("ssh-rsa AAAA").unwrap_err().message,
        "Only Ed25519 SSH keys are supported. Got: ssh-rsa"
    );
    assert_eq!(
        validate_ed25519_key("   ").unwrap_err().message,
        "Only Ed25519 SSH keys are supported. Got: unknown"
    );
}

#[test]
fn determinism_outcomes() {
    assert!(matches!(check_determinism_status(None).unwrap(), SshDeterminismStatus::Skipped));
    assert!(matches!(check_determinism_status(Some(Ok(()))).unwrap(), SshDeterminismStatus::Verified));
    let nd = Error::build_verification_error(
        "E_SSH".to_string(),
        "Non-deterministic signature detected: same input produced different signatures".to_string(),
    );
    assert!(matches!(check_determinism_status(Some(Err(nd))).unwrap(), SshDeterminismStatus::Failed { .. }));
    let other = Error::build_io_error("agent gone".to_string());
    assert_eq!(check_determinism_status(Some(Err(other))).unwrap_err().message, "agent gone");
}

#[test]
fn signing_context_and_selection() {
    let inputs = SshSigningInputs::new(SshSigningMethod::SshAgent, None, None, "ssh-keygen".to_string(), "ssh-add".to_string());
    let ctx = build_ssh_signing_context(&inputs, "ssh-ed25519 AAAA", "SHA256:x".to_string(), None).unwrap();
    assert_eq!(ctx.fingerprint, "SHA256:x");
    assert!(ctx.backend.key_path.is_none());
    let cands = vec![
        SshKeyCandidateView { public_key: "ssh-ed25519 A".to_string(), fingerprint: "F1".to_string(), comment: "one".to_string() },
        SshKeyCandidateView { public_key: "ssh-ed25519 B".to_string(), fingerprint: "F2".to_string(), comment: "two".to_string() },
    ];
    assert_eq!(select_ssh_key_candidate(&cands, "F2").unwrap().comment, "two");
    assert_eq!(
        select_ssh_key_candidate(&cands, "F9").unwrap_err().message,
        "SSH key for the selected key (F9) not found in ssh-agent. Load it with ssh-add or specify with -i"
    );
    let sig = SshRawSignature::new([9u8; 64]);
    assert_eq!(sig.as_bytes()[63], 9);
}

#[test]
fn registration_types() {
    assert_eq!(RegistrationTarget::Active.directory_name(), "members/active");
    assert_eq!(RegistrationTarget::Incoming.directory_name(), "members/incoming");
    assert!(RegistrationKeyPlan::generate_new("/home".to_string()).needs_new_key());
    let plan = RegistrationKeyPlan::use_existing(Kid::from_verified("K1".to_string()), "2030-01-01T00:00:00Z".to_string(), "/ks".to_string());
    assert!(!plan.needs_new_key());
    assert_eq!(plan.existing_kid().unwrap().as_str(), "K1");
}

fn verification(handle: &str, status: VerificationStatus) -> VerificationResult {
    VerificationResult {
        member_handle: handle.to_string(),
        status,
        message: "checked".to_string(),
        fingerprint: None,
        matched_key_id: None,
        verified_github: None,
    }
}

#[test]
fn approval_targets() {
    let members = vec![claims("alice", "K1", None), claims("bob", "K2", None), claims("carol", "K3", None)];
    let all = select_approval_targets(&members, &[], "alice").unwrap();
    assert_eq!(all.iter().map(|m| m.subject_handle.as_str()).collect::<Vec<_>>(), vec!["bob", "carol"]);
    let named = select_approval_targets(&members, &["carol".to_string()], "alice").unwrap();
    assert_eq!(named[0].kid, "K3");
    let e = select_approval_targets(&members, &["alice".to_string()], "alice").unwrap_err();
    assert_eq!(e.message, "Self member 'alice' must not be approved into known_keys");
    let e = select_approval_targets(&members, &["dave".to_string()], "alice").unwrap_err();
    assert_eq!(e.kind, ErrorKind::NotFound);
    assert_eq!(e.message, "Member 'dave' not found in active/");
}

#[test]
fn member_evaluation() {
    let members = vec![claims("bob", "K2", None)];
    let missing = evaluate_candidate_with_snapshot(&verification("zed", VerificationStatus::NotConfigured), &members, "", false, Ok(Judgment::New)).unwrap();
    assert_eq!(missing.0.message, "Member not found in active members");
    assert!(missing.1.is_none());
    assert!(missing.0.kid.is_empty() && !missing.0.approved && !missing.0.review_required && !missing.0.already_known);
    let (result, approval) = evaluate_candidate_with_snapshot(&verification("bob", VerificationStatus::NotConfigured), &members, "", false, Ok(Judgment::New)).unwrap();
    assert!(result.review_required);
    assert_eq!(approval.unwrap().kid().as_str(), "K2");
    let (known, none) = evaluate_candidate_with_snapshot(&verification("bob", VerificationStatus::NotConfigured), &members, "", false, Ok(KnownKeyJudgment::Existing)).unwrap();
    assert!(known.already_known && none.is_none());
    let failed = evaluate_candidate_with_snapshot(&verification("bob", VerificationStatus::Failed), &members, "", false, Ok(Judgment::New)).unwrap();
    assert!(!failed.0.review_required && failed.1.is_none());
    let anomaly = evaluate_candidate_with_snapshot(&verification("bob", VerificationStatus::NotConfigured), &members, "", false, Err(Error::build_verification_error("E".to_string(), "dup kid".to_string()))).unwrap();
    assert_eq!(anomaly.0.message, "Integrity anomaly: dup kid");
    let expired = evaluate_candidate_with_snapshot(&verification("bob", VerificationStatus::NotConfigured), &members, "2000-01-01T00:00:00Z", true, Ok(Judgment::New)).unwrap_err();
    assert_eq!(expired.code.as_deref(), Some("E_KEY_EXPIRED"));
    assert!(enforce_candidate_public_key_active("", true).is_ok());
    let m = build_missing_active_member_approval_result(&verification("zed", VerificationStatus::Verified));
    assert!(m.kid.is_empty());
}

#[test]
fn persistable_approvals_need_their_capability() {
    let members = vec![claims("bob", "K2", None)];
    let (mut result, approval) = evaluate_candidate_with_snapshot(&verification("bob", VerificationStatus::NotConfigured), &members, "", false, Ok(Judgment::New)).unwrap();
    let approval = approval.unwrap();
    assert!(collect_persistable_approvals(&[result.clone()], &[]).unwrap().is_empty());
    result.approved = true;
    assert_eq!(collect_persistable_approvals(&[result.clone()], &[approval]).unwrap().len(), 1);
    let e = collect_persistable_approvals(&[result], &[]).unwrap_err();
    assert_eq!(e.message, "Approved member result has no verified approval capability");
    let _: Option<MemberApprovalResult> = None;
}

#[test]
fn removal_scan() {
    let base = DisplayBase::from_cwd(Some("/w".to_string()));
    let arts = vec![
        ("/w/secrets/a.enc".to_string(), Ok(ArtifactRecipients { recipients: vec!["bob".to_string()], warnings: vec!["old key".to_string()] })),
        ("/w/secrets/b.enc".to_string(), Err(Error::build_parse_error("broken".to_string()))),
        ("/w/secrets/c.enc".to_string(), Ok(ArtifactRecipients { recipients: vec!["carol".to_string()], warnings: vec![] })),
    ];
    let scan = scan_artifacts_for_member(vec!["listing".to_string()], &arts, "bob", &base).unwrap();
    assert_eq!(scan.affected_artifacts, vec!["/w/secrets/a.enc".to_string()]);
    assert_eq!(scan.warnings, vec![
        "listing".to_string(),
        "old key".to_string(),
        "Skipping encrypted artifact 'secrets/b.enc': broken".to_string(),
    ]);
    let expired = vec![("/w/x.enc".to_string(), Err(Error::build_verification_error("E_KEY_EXPIRED".to_string(), "expired".to_string())))];
    assert_eq!(scan_artifacts_for_member(vec![], &expired, "bob", &base).unwrap_err().message, "expired");
    assert!(contains_member(&["a".to_string(), "bob".to_string()], "bob"));
}

#[test]
fn preflight_without_reviews_issues_no_capability() {
    let empty = ReadTrustReview {
        requests: vec![],
        signer_request_count: 0,
        non_member_signer: None,
        unresolved_recipient_kids: vec![],
        recipient_error: None,
    };
    let e = review_or_continue::<u8, &str>(empty, binding(), false, None, "db").err().unwrap();
    assert_eq!(e.message, "Read authorization did not produce a capability");
    let failed = ReadTrustReview {
        requests: vec![],
        signer_request_count: 0,
        non_member_signer: None,
        unresolved_recipient_kids: vec![],
        recipient_error: Some(Error::build_io_error("recipients unreadable".to_string())),
    };
    assert_eq!(review_or_continue::<u8, &str>(failed, binding(), false, None, "db").err().unwrap().message, "recipients unreadable");
    let pending = ReadTrustReview {
        requests: vec![],
        signer_request_count: 0,
        non_member_signer: Some(non_member()),
        unresolved_recipient_kids: vec![Kid::from_verified("K5".to_string())],
        recipient_error: None,
    };
    match review_or_continue::<u8, &str>(pending, binding(), true, None, "db").ok().unwrap() {
        ReadSessionDecision::ReviewRequired(review) => {
            assert!(review.non_member_signer().is_some());
            assert_eq!(review.unresolved_recipient_kids().len(), 1);
            assert!(!review.first_request_is_signer());
        }
        ReadSessionDecision::Authorized(_) => panic!("expected a review"),
    }
}

fn preflight(requests: usize, signer: Option<NonMemberReadReview>) -> ReadTrustReview {
    let c = KnownKeyReviewCandidate::from_public_key(&claims("bob", "K2", None), None).unwrap();
    ReadTrustReview {
        requests: (0..requests)
            .map(|_| kapsaro_core::trust::policy::TrustReviewRequest::known_key(c.duplicate()))
            .collect(),
        signer_request_count: 0,
        non_member_signer: signer,
        unresolved_recipient_kids: vec![Kid::from_verified("K9".to_string())],
        recipient_error: None,
    }
}

fn fresh_state(b: ReadReviewBinding) -> ReadEvaluationState<&'static str> {
    ReadEvaluationState {
        binding: b,
        source: "db",
        acceptance: None,
        accepted_non_member: None,
        allow_non_member: true,
    }
}

#[test]
fn resumed_read_keeps_its_operation_source_and_acceptance() {
    let review = ReadReview::new(binding(), vec![], false, Some(non_member()), vec![], true, None, "db");
    assert_eq!(review.resume_operation(ReadTargetKind::Kv).unwrap().name, "db");
    let e = review.resume_operation(ReadTargetKind::File).unwrap_err();
    assert_eq!(e.message, "read operation changed");
    assert_eq!(*review.source(), "db");
    assert!(review.allow_non_member());
    let e = match review.resume([7u8; 32], None) {
        Err(e) => e,
        Ok(_) => panic!("the digest changed"),
    };
    assert_eq!(e.code.as_deref(), Some("E_TRUST_TARGET_CHANGED"));
    let review = ReadReview::new(binding(), vec![], false, Some(non_member()), vec![], true, None, "db");
    let state = match review.resume([1u8; 32], None) {
        Ok(state) => state,
        Err(_) => panic!("the digest is the reviewed one"),
    };
    assert_eq!(state.source, "db");
    assert!(state.allow_non_member);
    assert!(state.acceptance.is_none());
}

#[test]
fn read_without_pending_reviews_is_evaluated_then_authorized() {
    let plan = plan_read_evaluation::<u8, &str>(preflight(0, None), fresh_state(binding()), KnownKeyReview::Skipped)
        .ok()
        .unwrap();
    let pending = match plan {
        ReadEvaluationPlan::Evaluate(pending) => pending,
        ReadEvaluationPlan::Decided(_) => panic!("nothing to review"),
    };
    assert_eq!(pending.exceptions().known_key_review(), KnownKeyReview::Skipped);
    assert!(!pending.exceptions().has_accepted_non_member());
    match finish_read_evaluation(pending, TrustDecision::Trusted(5u8)).ok().unwrap() {
        ReadSessionDecision::Authorized(read) => {
            assert_eq!(*read.value(), 5);
            assert_eq!(read.unresolved_recipient_kids()[0].as_str(), "K9");
        }
        ReadSessionDecision::ReviewRequired(_) => panic!("the read was trusted"),
    }
}

#[test]
fn read_with_pending_requests_stops_on_a_review() {
    let plan = plan_read_evaluation::<u8, &str>(preflight(1, None), fresh_state(binding()), KnownKeyReview::Required)
        .ok()
        .unwrap();
    match plan {
        ReadEvaluationPlan::Decided(ReadSessionDecision::ReviewRequired(review)) => {
            assert_eq!(review.requests().len(), 1);
            assert!(review.allow_non_member());
        }
        _ => panic!("a review is pending"),
    }
}

#[test]
fn accepted_non_member_read_is_evaluated_with_its_signer() {
    let b = binding();
    let mut review = ReadReview::new(b.clone(), vec![], false, Some(non_member()), vec![], true, None, "db");
    let acceptance = review.accept_non_member().unwrap();
    let mut state = fresh_state(b);
    state.acceptance = Some(acceptance);
    let plan = plan_read_evaluation::<u8, &str>(preflight(0, Some(non_member())), state, KnownKeyReview::Required)
        .ok()
        .unwrap();
    let pending = match plan {
        ReadEvaluationPlan::Evaluate(pending) => pending,
        ReadEvaluationPlan::Decided(_) => panic!("the acceptance fits"),
    };
    assert!(pending.exceptions().has_accepted_non_member());
    let e = finish_read_evaluation::<u8, &str>(pending, TrustDecision::ReviewRequired(vec![]))
        .err()
        .unwrap();
    assert_eq!(e.message, "Read authorization did not produce a capability");

    let mut state = fresh_state(binding());
    let mut other = ReadReview::new(binding(), vec![], false, Some(non_member()), vec![], true, None, "db");
    state.acceptance = Some(other.accept_non_member().unwrap());
    let mut review = ReadReview::new(state.binding.clone(), vec![], false, Some(non_member()), vec![], true, None, "db");
    let fitting = review.accept_non_member().unwrap();
    let carried = AcceptedNonMember::from_acceptance(fitting);
    state.accepted_non_member = Some(carried);
    let e = plan_read_evaluation::<u8, &str>(preflight(0, Some(non_member())), state, KnownKeyReview::Required)
        .err()
        .unwrap();
    assert_eq!(e.message, "non-member acceptance was reused");
}

#[test]
fn incoming_documents_become_pending_or_failed_candidates() {
    let pending = build_incoming_candidate(
        claims("carol", "K3", Some(9)),
        Some("SHA256:c".to_string()),
        "{\"doc\":1}".to_string(),
        None,
        Ok(()),
    )
    .unwrap();
    assert_eq!(pending.review.category, IncomingVerificationCategory::BindingConfigured);
    assert_eq!(
        pending.review.message,
        "GitHub binding configured; online verification will run if trust update is required"
    );
    assert_eq!(pending.review.fingerprint.as_deref(), Some("SHA256:c"));
    assert_eq!(pending.review.attestor_pub.as_deref(), Some("ssh-ed25519 AAAAcarol"));
    assert!(pending.review.github_binding_configured);
    assert_eq!(pending.source_content, "{\"doc\":1}");

    let unbound = build_incoming_candidate(claims("dan", "K4", None), None, "{}".to_string(), None, Ok(()))
        .unwrap();
    assert_eq!(unbound.review.category, IncomingVerificationCategory::NotConfigured);
    assert_eq!(unbound.review.message, "No binding_claims.github_account configured");

    let failed = build_incoming_candidate(
        claims("erin", "K5", Some(3)),
        Some("SHA256:e".to_string()),
        "{}".to_string(),
        Some("old".to_string()),
        Err(Error::build_verification_error("E_SIG".to_string(), "bad signature".to_string())),
    )
    .unwrap();
    assert_eq!(failed.review.category, IncomingVerificationCategory::Failed);
    assert_eq!(failed.review.message, "Offline verification failed: bad signature");
    assert!(failed.review.fingerprint.is_none());
    assert!(failed.review.attestor_pub.is_none());
    assert!(failed.review.github_binding_configured);
    assert_eq!(failed.destination.as_deref(), Some("old"));

    let e = build_incoming_candidate(claims("-x", "K6", None), None, "{}".to_string(), None, Ok(()))
        .unwrap_err();
    assert_eq!(e.kind, ErrorKind::InvalidArgument);
}

#[test]
fn member_evaluations_keep_one_approval_per_key() {
    let members = vec![claims("bob", "K2", None), claims("carol", "K3", None)];
    let bob = evaluate_candidate_with_snapshot(&verification("bob", VerificationStatus::NotConfigured), &members, "", false, Ok(Judgment::New)).unwrap();
    let carol = evaluate_candidate_with_snapshot(&verification("carol", VerificationStatus::NotConfigured), &members, "", false, Ok(Judgment::New)).unwrap();
    let bob_again = evaluate_candidate_with_snapshot(&verification("bob", VerificationStatus::NotConfigured), &members, "", false, Ok(Judgment::New)).unwrap();
    let known = evaluate_candidate_with_snapshot(&verification("carol", VerificationStatus::NotConfigured), &members, "", false, Ok(Judgment::Existing)).unwrap();
    let (results, approvals) = collect_member_evaluations(vec![bob, carol, bob_again, known]);
    let handles: Vec<&str> = results.iter().map(|r| r.member_handle.as_str()).collect();
    assert_eq!(handles, vec!["bob", "carol", "bob", "carol"]);
    let kids: Vec<&str> = approvals.iter().map(|a| a.kid().as_str()).collect();
    assert_eq!(kids, vec!["K2", "K3"]);
}

#[test]
fn approvals_are_refused_once_members_changed() {
    let reviewed = vec![claims("bob", "K2", None), claims("carol", "K3", None)];
    assert!(ensure_members_unchanged(&reviewed, &reviewed.clone()).is_ok());
    let reordered = vec![claims("carol", "K3", None), claims("bob", "K2", None)];
    let e = ensure_members_unchanged(&reviewed, &reordered).unwrap_err();
    assert_eq!(e.code.as_deref(), Some("E_TRUST_TARGET_CHANGED"));
    assert_eq!(e.message, "Workspace members changed during approval. Run the command again.");
    assert!(ensure_members_unchanged(&reviewed, &reviewed[..1]).is_err());
    let rebound = vec![claims("bob", "K2", Some(1)), claims("carol", "K3", None)];
    assert!(ensure_members_unchanged(&reviewed, &rebound).is_err());
}

#[test]
fn accepted_prompts_are_promoted_with_known_key_approvals() {
    let report = build_incoming_report(&vec![
        incoming("carol", "K1", IncomingVerificationCategory::NotConfigured, false),
        incoming("good", "K2", IncomingVerificationCategory::NotConfigured, false),
    ])
    .unwrap();
    let judged = vec![Ok(PromotionJudgment::New), Ok(PromotionJudgment::New)];
    let plan = build_promotion_review_plan(&report, &judged, true).unwrap();
    let online = vec![
        Err(Error::build_io_error("no binding".to_string())),
        Err(Error::build_io_error("no binding".to_string())),
    ];
    let session = build_promotion_review_session(&plan, &online).unwrap();
    let (accepted, approvals) = session.into_accepted_candidates_and_approvals(&["good".to_string()]).unwrap();
    assert_eq!(accepted.len(), 1);
    assert_eq!(accepted[0].review.member_handle, "good");
    assert_eq!(approvals.len(), 1);
    assert!(matches!(approvals[0], TrustApproval::KnownKey(_)));
    let session = build_promotion_review_session(&plan, &online).unwrap();
    let (none, no_approvals) = session.into_accepted_candidates_and_approvals(&[]).unwrap();
    assert!(none.is_empty() && no_approvals.is_empty());
}

#[test]
fn only_bound_prompts_are_verified_online() {
    let report = build_incoming_report(&vec![
        incoming("a", "K1", IncomingVerificationCategory::BindingConfigured, true),
        incoming("b", "K2", IncomingVerificationCategory::NotConfigured, false),
        incoming("c", "K3", IncomingVerificationCategory::BindingConfigured, true),
    ])
    .unwrap();
    let judged = vec![Ok(PromotionJudgment::New), Ok(PromotionJudgment::New), Ok(PromotionJudgment::New)];
    let plan = build_promotion_review_plan(&report, &judged, true).unwrap();
    let targets = online_verification_targets(&plan);
    let handles: Vec<&str> = targets.iter().map(|&k| plan.prompt_candidates[k].review.member_handle.as_str()).collect();
    assert_eq!(handles, vec!["a", "c"]);
}
