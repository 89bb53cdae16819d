use kapsaro_core::error::{Error, ErrorKind};
use kapsaro_core::model::{GithubAccountClaim, Kid, MemberHandle, PublicKeyClaims};
use kapsaro_core::online::VerifiedGitHubEvidence;
use kapsaro_core::path::DisplayBase;
use kapsaro_core::text::text_less;
use kapsaro_core::trust::candidate::{TrustApprovalCandidate, TrustApprovalCandidateBuilder};
use kapsaro_core::trust::evaluation::{
    artifact_recipient_set_review, enforce_write_strict_key_checking,
    recipient_outcome_from_decision, recipient_outcome_from_requests,
    signer_outcome_from_decision, unreviewed_recipient_set_error, RecipientTrustOutcome,
    SignerTrustOutcome, StrictKeyChecking, StrictKeyCheckingResolution, TrustDecision,
};
use kapsaro_core::trust::evaluator::{
    evaluate_signer_with_exceptions, retain_non_known_key, review_read_artifact,
    build_missing_signer_public_key_error, known_key_review_request, non_member_review_request,
    ApprovalConflictHandling, CurrentMemberSnapshot, RecipientSetSubject, TrustPolicyEvaluator, TrustStoreSnapshot,
    VerifiedLocalTrustStore, VerifiedLocalTrustStoreLoadResult,
};
use kapsaro_core::trust::policy::{
    KnownKeyReview, KnownKeyReviewCandidate, ReadTrustExceptions, TrustApproval, TrustRecipientHandleHint,
    TrustReviewKind, TrustReviewRequest,
};
use kapsaro_core::trust::recovery::{
    build_local_keystore_missing_error, build_missing_trust_signer_key_error, build_reset_error,
    build_reset_target_failure_error, build_unparsable_trust_store_error,
    evaluate_trust_store_reset, require_reset_confirmation, TrustStoreResetCause,
    TrustStoreResetPlan,
};
use kapsaro_core::member::ApprovedKnownKey;
use kapsaro_core::trust::review::{
    build_non_member_rejection_error, build_recipient_key_outcome, build_trust_approval_rejection_error,
    build_write_recipient_key_outcome, collect_read_key_candidates, is_approved_candidate,
    needs_online_verification, review_candidate_for_confirmation, verify_trust_candidate_online,
    InteractiveTrustReviewKind,
};
use kapsaro_core::trust::snapshot::{CommandTrustSnapshot, TrustContext, WriteTrustOptions};

fn claims(handle: &str, kid: &str, github: Option<u64>) -> PublicKeyClaims {
    PublicKeyClaims {
        subject_handle: handle.to_string(),
        kid: kid.to_string(),
        attestor_pub: format!("ssh-ed25519 AAAA{handle}"),
        github_account: github.map(|id| GithubAccountClaim { id, login: format!("gh{id}") }),
    }
}

fn candidate(handle: &str, kid: &str) -> KnownKeyReviewCandidate {
    KnownKeyReviewCandidate::from_public_key(&claims(handle, kid, None), Some(format!("SHA256:{kid}")))
        .unwrap()
}

fn known_key_request(handle: &str, kid: &str) -> TrustReviewRequest {
    TrustReviewRequest::known_key(candidate(handle, kid))
}

#[test]
fn known_key_candidate_requires_a_valid_handle() {
    let e = KnownKeyReviewCandidate::from_public_key(&claims("-bad", "K1", None), None).unwrap_err();
    assert_eq!(e.kind, ErrorKind::InvalidArgument);
    let c = candidate("alice", "K1");
    assert_eq!(c.subject_handle().as_str(), "alice");
    assert_eq!(c.kid().as_str(), "K1");
    assert_eq!(c.fingerprint(), Some("SHA256:K1"));
}

#[test]
fn recipients_other_than_the_signer_need_approval() {
    let requests = vec![known_key_request("alice", "K1"), known_key_request("bob", "K2")];
    match recipient_outcome_from_requests(&requests, Some("K1"), true).unwrap() {
        RecipientTrustOutcome::NeedsManualApproval(cs) => {
            assert_eq!(cs.len(), 1);
            assert_eq!(cs[0].kid().as_str(), "K2");
            assert!(cs[0].requires_out_of_band_verification);
        }
        other => panic!("unexpected {other:?}"),
    }
    match recipient_outcome_from_requests(&requests[..1], Some("K1"), false).unwrap() {
        RecipientTrustOutcome::Accepted => {}
        other => panic!("unexpected {other:?}"),
    }
}

#[test]
fn recipients_needing_approval_stop_a_run_without_review() {
    let requests = vec![known_key_request("alice", "K1"), known_key_request("bob", "K2")];
    let e = recipient_outcome_from_requests(&requests, None, false).unwrap_err();
    assert_eq!(e.kind, ErrorKind::Verification);
    assert_eq!(e.code.as_deref(), Some("E_TRUST_REJECTED"));
    assert_eq!(
        e.message,
        "Unknown recipient kid requires approval.\nRecipients: 'K1' (alice), 'K2' (bob)"
    );
}

#[test]
fn recipient_decision_outcomes() {
    match recipient_outcome_from_decision(TrustDecision::Trusted(()), false).unwrap() {
        RecipientTrustOutcome::Accepted => {}
        other => panic!("unexpected {other:?}"),
    }
    let requests = vec![
        TrustReviewRequest::recipient_set(TrustReviewKind::RecipientSet, vec![], vec![]),
        known_key_request("carol", "K3"),
    ];
    let e = recipient_outcome_from_decision(TrustDecision::<()>::ReviewRequired(requests), false)
        .unwrap_err();
    assert_eq!(e.message, "Unknown recipient kid requires approval.\nRecipients: 'K3' (carol)");
}

#[test]
fn signer_outcomes() {
    let requests = vec![known_key_request("bob", "K2"), known_key_request("alice", "K1")];
    let decision = TrustDecision::<()>::ReviewRequired(requests);
    match signer_outcome_from_decision(&decision, Some("K1"), true).unwrap() {
        SignerTrustOutcome::NeedsKnownKeyApproval(c) => assert_eq!(c.member_handle().as_str(), "alice"),
        other => panic!("unexpected {other:?}"),
    }
    let e = signer_outcome_from_decision(&decision, Some("K1"), false).unwrap_err();
    assert_eq!(e.message, "Unknown signer kid 'K1' (member: alice) requires review");
    match signer_outcome_from_decision(&decision, Some("K9"), false).unwrap() {
        SignerTrustOutcome::Accepted => {}
        other => panic!("unexpected {other:?}"),
    }
    match signer_outcome_from_decision(&TrustDecision::Trusted(()), Some("K1"), false).unwrap() {
        SignerTrustOutcome::Accepted => {}
        other => panic!("unexpected {other:?}"),
    }
}

#[test]
fn recipient_set_reviews() {
    let changed = TrustDecision::<()>::ReviewRequired(vec![
        known_key_request("bob", "K2"),
        TrustReviewRequest::recipient_set(TrustReviewKind::ChangedRecipientSet, vec![], vec![]),
    ]);
    assert_eq!(
        artifact_recipient_set_review(&changed, true).unwrap(),
        Some(TrustReviewKind::ChangedRecipientSet)
    );
    let e = artifact_recipient_set_review(&changed, false).unwrap_err();
    assert_eq!(e.code.as_deref(), Some("E_RECIPIENT_SET_CHANGED"));
    let missing = unreviewed_recipient_set_error(TrustReviewKind::RecipientSet);
    assert_eq!(missing.code.as_deref(), Some("E_RECIPIENT_TRUST_MISSING"));
    let only_keys = TrustDecision::<()>::ReviewRequired(vec![known_key_request("bob", "K2")]);
    assert_eq!(artifact_recipient_set_review(&only_keys, false).unwrap(), None);
}

#[test]
fn writes_refuse_disabled_strict_key_checking() {
    assert!(enforce_write_strict_key_checking(StrictKeyCheckingResolution::strict()).is_ok());
    let e = enforce_write_strict_key_checking(StrictKeyCheckingResolution::explicit(
        StrictKeyChecking::No,
    ))
    .unwrap_err();
    assert_eq!(e.kind, ErrorKind::InvalidOperation);
    assert_eq!(e.message, "Strict key checking cannot be disabled for write operations");
    let options = WriteTrustOptions::new(true, false, false);
    assert!(options.allow_expired_key());
    assert!(!options.review_available());
    assert!(options.operation_options().allow_expired_key());
    let ctx = TrustContext::from_options(options, vec![], vec![]);
    assert!(CommandTrustSnapshot::from_trust_context(ctx, vec![]).is_err());
    let strict = TrustContext::from_options(WriteTrustOptions::new(false, true, true), vec![], vec![]);
    assert!(CommandTrustSnapshot::from_trust_context(strict, vec![]).is_ok());
}

#[test]
fn reset_is_offered_only_for_its_recovery_routes() {
    let invalid = build_unparsable_trust_store_error("bad json".to_string());
    assert_eq!(evaluate_trust_store_reset(&invalid), Some(TrustStoreResetCause::InvalidDocument));
    let signer = build_missing_trust_signer_key_error("no key".to_string());
    assert_eq!(evaluate_trust_store_reset(&signer), Some(TrustStoreResetCause::MissingSignerKey));
    let keystore = build_local_keystore_missing_error("no keystore".to_string());
    assert_eq!(evaluate_trust_store_reset(&keystore), None);
    let plain = Error::build_parse_error("x".to_string());
    assert_eq!(evaluate_trust_store_reset(&plain), None);
}

#[test]
fn reset_needs_confirmation() {
    let failure = build_unparsable_trust_store_error("bad json".to_string());
    let (kept, cause) = build_reset_error(failure, true).unwrap();
    assert_eq!(kept.message, "bad json");
    assert_eq!(cause, TrustStoreResetCause::InvalidDocument);
    let refused = build_reset_error(build_unparsable_trust_store_error("bad".to_string()), false)
        .unwrap_err();
    assert_eq!(refused.message, "bad (caller confirmation is required for trust store reset)");
    let unrelated = build_reset_error(Error::build_io_error("disk".to_string()), true).unwrap_err();
    assert_eq!(unrelated.kind, ErrorKind::Io);
    assert!(require_reset_confirmation(Error::build_io_error("x".to_string()), true).is_ok());
}

#[test]
fn reset_target_failure_keeps_both_messages() {
    let blocked = Error::build_io_error("read failed".to_string());
    let failure = Error::build_parse_error("bad json".to_string());
    let e = build_reset_target_failure_error(&blocked, &failure);
    assert_eq!(e.kind, ErrorKind::Io);
    assert_eq!(e.message, "read failed The failure it would have reset the store for: bad json");
    let other = build_reset_target_failure_error(&Error::build_not_found_error("gone".to_string()), &failure);
    assert_eq!(other.kind, ErrorKind::InvalidOperation);
}

#[test]
fn reset_plan_reports_its_failure() {
    let owner = MemberHandle::new("alice".to_string()).unwrap();
    let failure = build_missing_trust_signer_key_error("signer gone".to_string());
    let (error, cause) = build_reset_error(failure, true).unwrap();
    let plan = TrustStoreResetPlan::from_failure(owner, "/h/trust/alice.json".to_string(), (error, cause), None);
    assert_eq!(plan.warning_message(), "signer gone");
    assert_eq!(plan.cause(), TrustStoreResetCause::MissingSignerKey);
    assert!(plan.has_recovery_route());
    assert_eq!(plan.path(), "/h/trust/alice.json");
}

fn evaluator(members: Vec<PublicKeyClaims>, owner: Option<&str>) -> TrustPolicyEvaluator {
    let snapshot = CurrentMemberSnapshot::from_verified_members(members).unwrap();
    let store = owner.map(|o| VerifiedLocalTrustStore::from_verified(o.to_string(), vec![]));
    TrustPolicyEvaluator::new(snapshot, store)
}

#[test]
fn empty_member_snapshot_is_refused() {
    let e = CurrentMemberSnapshot::from_verified_members(vec![]).unwrap_err();
    assert_eq!(e.kind, ErrorKind::NotFound);
    assert_eq!(e.message, "No active members found in workspace");
}

#[test]
fn store_owner_must_match_the_key_holder() {
    let ev = evaluator(vec![claims("alice", "K1", None)], Some("alice"));
    let alice = MemberHandle::new("alice".to_string()).unwrap();
    let bob = MemberHandle::new("bob".to_string()).unwrap();
    assert!(ev.enforce_store_owner(&alice).is_ok());
    let e = ev.enforce_store_owner(&bob).unwrap_err();
    assert_eq!(
        e.message,
        "Trust store owner_handle 'alice' does not match key context member_handle 'bob'"
    );
    assert!(evaluator(vec![claims("alice", "K1", None)], None).enforce_store_owner(&bob).is_ok());
}

#[test]
fn mutation_key_must_be_current() {
    let ev = evaluator(vec![claims("alice", "K1", None)], None);
    let alice = MemberHandle::new("alice".to_string()).unwrap();
    let k1 = Kid::from_verified("K1".to_string());
    let k9 = Kid::from_verified("K9".to_string());
    assert!(ev.enforce_mutation_key_current(&k1, &alice, Ok(true)).is_ok());
    let e = ev.enforce_mutation_key_current(&k1, &alice, Ok(false)).unwrap_err();
    assert_eq!(e.code.as_deref(), Some("E_TRUST_ACTIVE_MEMBER_MISMATCH"));
    let e = ev.enforce_mutation_key_current(&k9, &alice, Ok(true)).unwrap_err();
    assert_eq!(e.code.as_deref(), Some("E_TRUST_NON_MEMBER"));
    assert_eq!(e.message, "Mutation key is not a current active member.\nmember: alice\nkid: K9");
}

#[test]
fn output_recipients_must_be_exactly_the_members() {
    let ev = evaluator(vec![claims("alice", "K1", None), claims("bob", "K2", None)], None);
    let s = |v: &[&str]| v.iter().map(|x| x.to_string()).collect::<Vec<_>>();
    assert!(ev.enforce_output_kid_set_current(&s(&["K2", "K1"])).is_ok());
    assert!(ev.enforce_output_kid_set_current(&s(&["K1"])).is_err());
    assert!(ev.enforce_output_kid_set_current(&s(&["K1", "K2", "K3"])).is_err());
    assert!(ev.enforce_output_kid_set_current(&s(&["K1", "K2", "K2"])).is_err());
    assert!(ev.enforce_output_recipient_current(&claims("bob", "K2", None)).is_ok());
    let e = ev.enforce_output_recipient_current(&claims("eve", "K2", None)).unwrap_err();
    assert_eq!(e.code.as_deref(), Some("E_ARTIFACT_RECIPIENT_KEY_MISMATCH"));
    let e = ev.enforce_output_recipient_current(&claims("eve", "K7", None)).unwrap_err();
    assert_eq!(e.code.as_deref(), Some("E_ARTIFACT_RECIPIENT_NOT_ACTIVE"));
}

#[test]
fn non_member_signer_passes_only_the_accepted_identity() {
    let rejection = Error::build_verification_error("E_TRUST_NON_MEMBER".to_string(), "no".to_string());
    let accepted = ReadTrustExceptions::none().accepting_non_member(
        MemberHandle::new("eve".to_string()).unwrap(),
        Kid::from_verified("K7".to_string()),
    );
    let r = evaluate_signer_with_exceptions(Err(rejection.clone()), Some(("eve", "K7")), &accepted);
    assert!(r.unwrap().is_empty());
    let r = evaluate_signer_with_exceptions(Err(rejection.clone()), Some(("eve", "K8")), &accepted);
    assert_eq!(r.unwrap_err().code.as_deref(), Some("E_TRUST_NON_MEMBER"));
    let coded_op = Error::build_invalid_operation_error("E_TRUST_NON_MEMBER".to_string());
    assert!(evaluate_signer_with_exceptions(Err(coded_op), Some(("eve", "K7")), &accepted).is_err());
}

#[test]
fn read_review_drops_known_key_requests_when_skipped() {
    let signer = Ok(vec![known_key_request("bob", "K2")]);
    let review = review_read_artifact(
        signer,
        false,
        Err(Error::build_io_error("unused".to_string())),
        Ok((vec![candidate("carol", "K3"), candidate("bob", "K2")], vec![])),
        KnownKeyReview::Required,
    )
    .unwrap();
    assert_eq!(review.requests.len(), 2);
    assert_eq!(review.signer_request_count, 1);
    let skipped = review_read_artifact(
        Ok(vec![known_key_request("bob", "K2")]),
        false,
        Err(Error::build_io_error("unused".to_string())),
        Err(Error::build_io_error("recipients".to_string())),
        KnownKeyReview::Skipped,
    )
    .unwrap();
    assert!(skipped.requests.is_empty());
    assert_eq!(skipped.signer_request_count, 0);
    assert_eq!(skipped.recipient_error.unwrap().message, "recipients");
    let kept = retain_non_known_key(vec![
        known_key_request("bob", "K2"),
        TrustReviewRequest::recipient_set(TrustReviewKind::RecipientSet, vec![], vec![]),
    ]);
    assert_eq!(kept.len(), 1);
    assert_eq!(kept[0].kind(), TrustReviewKind::RecipientSet);
}

#[test]
fn conflict_handling_binds_to_reviewed_content() {
    assert!(matches!(
        ApprovalConflictHandling::merge().policy(),
        kapsaro_core::trust::evaluator::ApprovalConflictPolicy::Merge
    ));
    let loaded = VerifiedLocalTrustStoreLoadResult::new(
        VerifiedLocalTrustStore::from_verified("alice".to_string(), vec![]),
        TrustStoreSnapshot::Present(b"{}".to_vec()),
        Some(Kid::from_verified("K1".to_string())),
    );
    match ApprovalConflictHandling::surface(&loaded).policy() {
        kapsaro_core::trust::evaluator::ApprovalConflictPolicy::Surface { snapshot, signer_kid } => {
            assert!(matches!(snapshot, TrustStoreSnapshot::Present(b) if b == b"{}"));
            assert_eq!(signer_kid.as_ref().unwrap().as_str(), "K1");
        }
        _ => panic!("expected surface"),
    }
    assert!(matches!(
        ApprovalConflictHandling::surface_absent().policy(),
        kapsaro_core::trust::evaluator::ApprovalConflictPolicy::Surface {
            snapshot: TrustStoreSnapshot::Missing,
            signer_kid: None
        }
    ));
    assert_eq!(loaded.into_store().owner_handle(), "alice");
}

#[test]
fn evidence_binds_approval_to_its_candidate() {
    let bound = KnownKeyReviewCandidate::from_public_key(&claims("alice", "K1", Some(42)), None).unwrap();
    let other = KnownKeyReviewCandidate::from_public_key(&claims("bob", "K2", Some(42)), None).unwrap();
    let evidence = VerifiedGitHubEvidence::for_test(&bound, 42, "octo".to_string(), "SHA256:x".to_string(), 7);
    assert!(evidence.matches_candidate(&bound));
    assert!(!evidence.matches_candidate(&other));
    let good = kapsaro_core::trust::policy::KnownKeyApprovalEvidence::none()
        .with_verified_github_account(evidence.duplicate());
    assert!(TrustApproval::known_key(&bound, good).is_ok());
    let wrong = kapsaro_core::trust::policy::KnownKeyApprovalEvidence::none()
        .with_verified_github_account(evidence);
    assert_eq!(TrustApproval::known_key(&other, wrong).unwrap_err().kind, ErrorKind::Verification);
    let shown = TrustApprovalCandidateBuilder::from_known_key_candidate(&bound).build();
    assert_eq!(shown.github_binding_configured(), true);
    let _ = DisplayBase::from_cwd(None);
}

fn bound_candidate() -> KnownKeyReviewCandidate {
    KnownKeyReviewCandidate::from_public_key(&claims("alice", "K1", Some(42)), None).unwrap()
}

#[test]
fn online_check_is_skipped_without_a_binding_or_once_verified() {
    let unbound = TrustApprovalCandidateBuilder::from_known_key_candidate(&candidate("bob", "K2")).build();
    assert!(!needs_online_verification(&unbound));
    let same = verify_trust_candidate_online(
        &unbound,
        Err(Error::build_io_error("network down".to_string())),
    )
    .unwrap();
    assert!(!same.is_github_verified());
    assert!(!same.online_verification_attempted());

    let bound = bound_candidate();
    let pending = TrustApprovalCandidateBuilder::from_known_key_candidate(&bound).build();
    assert!(needs_online_verification(&pending));
    let evidence = VerifiedGitHubEvidence::for_test(&bound, 42, "octo".to_string(), "SHA256:x".to_string(), 7);
    let verified = verify_trust_candidate_online(&pending, Ok(evidence)).unwrap();
    assert!(verified.is_github_verified());
    assert!(verified.online_verification_attempted());
    assert_eq!(verified.online_verification_message(), Some("GitHub verification succeeded"));
    assert!(!needs_online_verification(&verified));

    let failed = verify_trust_candidate_online(
        &pending,
        Err(Error::build_io_error("network down".to_string())),
    )
    .unwrap_err();
    assert_eq!(failed.message, "network down");
}

#[test]
fn known_key_approval_needs_verified_evidence() {
    let bound = bound_candidate();
    let pending = TrustApprovalCandidateBuilder::from_known_key_candidate(&bound).build();
    let unverified = TrustApprovalCandidateBuilder::from_known_key_candidate(&bound)
        .with_online_verification_context(true, Some("key not listed".to_string()))
        .build();
    let e = review_candidate_for_confirmation(
        &pending,
        InteractiveTrustReviewKind::KnownKeyApproval,
        Ok(unverified),
    )
    .unwrap_err();
    assert_eq!(e.kind, ErrorKind::Verification);
    assert_eq!(e.code.as_deref(), Some("E_TRUST_ONLINE_VERIFY_REQUIRED"));
    assert_eq!(
        e.message,
        "Online verification required for trust approval of 'alice' (K1): key not listed"
    );

    let silent = TrustApprovalCandidateBuilder::from_known_key_candidate(&bound).build();
    let e = review_candidate_for_confirmation(
        &pending,
        InteractiveTrustReviewKind::KnownKeyApproval,
        Ok(silent),
    )
    .unwrap_err();
    assert_eq!(
        e.message,
        "Online verification required for trust approval of 'alice' (K1): online verification did not succeed"
    );

    let e = review_candidate_for_confirmation(
        &pending,
        InteractiveTrustReviewKind::KnownKeyApproval,
        Err(Error::build_io_error("timeout".to_string())),
    )
    .unwrap_err();
    assert_eq!(e.kind, ErrorKind::Io);

    let evidence = VerifiedGitHubEvidence::for_test(&bound, 42, "octo".to_string(), "SHA256:x".to_string(), 7);
    let verified = TrustApprovalCandidateBuilder::from_known_key_candidate(&bound)
        .with_verified_service_evidence(evidence)
        .build();
    let shown = review_candidate_for_confirmation(
        &pending,
        InteractiveTrustReviewKind::KnownKeyApproval,
        Ok(verified),
    )
    .unwrap();
    assert!(shown.is_github_verified());
}

#[test]
fn non_member_acceptance_goes_on_after_a_failed_check() {
    let bound = bound_candidate();
    let pending = TrustApprovalCandidateBuilder::from_known_key_candidate(&bound).build();
    let shown = review_candidate_for_confirmation(
        &pending,
        InteractiveTrustReviewKind::NonMemberAcceptance,
        Err(Error::build_io_error("timeout".to_string())),
    )
    .unwrap();
    assert!(!shown.is_github_verified());
    assert!(shown.online_verification_attempted());
    assert_eq!(shown.online_verification_message(), Some("timeout"));
    assert_eq!(shown.kid().as_str(), "K1");
}

#[test]
fn rejection_errors_name_the_candidate() {
    let shown = TrustApprovalCandidateBuilder::from_known_key_candidate(&candidate("alice", "K1")).build();
    let e = build_trust_approval_rejection_error("recipient", &shown);
    assert_eq!(e.kind, ErrorKind::Verification);
    assert_eq!(e.code.as_deref(), Some("E_TRUST_REJECTED"));
    assert_eq!(e.message, "Trust approval rejected for recipient 'alice' (K1)");
    let e = build_non_member_rejection_error("signer", &shown);
    assert_eq!(e.message, "Non-member acceptance rejected for signer 'alice' (K1)");
}

#[test]
fn recipient_kids_split_into_member_keys_and_unresolved_ids() {
    let e = evaluator(vec![claims("alice", "K1", None), claims("bob", "K2", None)], None);
    let subject = RecipientSetSubject::from_parts(
        9,
        vec!["K3".to_string(), "K1".to_string(), "K9".to_string(), "K3".to_string(), "K2".to_string(), "K10".to_string()],
    );
    let (keys, unresolved) = e.partition_recipient_kids(&subject);
    let held: Vec<&str> = keys.iter().map(|k| k.subject_handle.as_str()).collect();
    assert_eq!(held, vec!["alice", "bob"]);
    let ids: Vec<&str> = unresolved.iter().map(|k| k.as_str()).collect();
    assert_eq!(ids, vec!["K10", "K3", "K9"]);
}

#[test]
fn text_order_is_the_order_of_str() {
    let words = ["", "a", "ab", "b", "K10", "K9", "é", "z", "ä"];
    for x in words {
        for y in words {
            assert_eq!(text_less(x, y), x < y, "{x} < {y}");
        }
    }
}

#[test]
fn non_member_reviews_need_the_signer_key_and_valid_handles() {
    let e = non_member_review_request(None, None, &[]).unwrap_err();
    assert_eq!(e.code.as_deref(), Some("E_SIGNER_PUB_MISSING"));
    assert_eq!(e.message, "Required signer_pub is missing from verified proof");
    assert_eq!(build_missing_signer_public_key_error().message, e.message);
    let eve = claims("eve", "K7", None);
    let review = non_member_review_request(
        Some(&eve),
        Some("SHA256:x".to_string()),
        &["alice".to_string(), "bob".to_string()],
    )
    .unwrap();
    assert_eq!(review.candidate().kid().as_str(), "K7");
    assert_eq!(review.candidate().fingerprint(), Some("SHA256:x"));
    let handles: Vec<&str> = review.recipient_handles().iter().map(|h| h.as_str()).collect();
    assert_eq!(handles, vec!["alice", "bob"]);
    let e = non_member_review_request(Some(&eve), None, &["-bad".to_string()]).unwrap_err();
    assert_eq!(e.kind, ErrorKind::InvalidArgument);
    let e = non_member_review_request(Some(&claims("-eve", "K7", None)), None, &[]).unwrap_err();
    assert_eq!(e.kind, ErrorKind::InvalidArgument);

    let request = known_key_review_request(&eve, None).unwrap();
    assert_eq!(request.kind(), TrustReviewKind::KnownKey);
    assert_eq!(request.kid().unwrap().as_str(), "K7");
    assert!(known_key_review_request(&claims("-eve", "K7", None), None).is_err());
}

fn shown(handle: &str, kid: &str) -> kapsaro_core::trust::candidate::TrustApprovalCandidate {
    TrustApprovalCandidateBuilder::from_known_key_candidate(&candidate(handle, kid)).build()
}

#[test]
fn read_key_review_shows_each_key_once() {
    let signer = SignerTrustOutcome::NeedsKnownKeyApproval(shown("alice", "K1"));
    let recipients = RecipientTrustOutcome::NeedsManualApproval(vec![
        shown("bob", "K2"),
        shown("alice", "K1"),
        shown("carol", "K3"),
        shown("bob", "K2"),
    ]);
    let kids: Vec<String> = collect_read_key_candidates(&signer, &recipients)
        .iter()
        .map(|c| c.kid().as_str().to_string())
        .collect();
    assert_eq!(kids, vec!["K1", "K2", "K3"]);
    assert!(collect_read_key_candidates(&SignerTrustOutcome::Accepted, &RecipientTrustOutcome::Accepted).is_empty());
    assert!(matches!(build_recipient_key_outcome(vec![]), RecipientTrustOutcome::Accepted));
}

#[test]
fn write_review_skips_keys_already_approved_for_the_signer() {
    let approved = ApprovedKnownKey::from_candidate(&shown("bob", "K2")).unwrap();
    assert!(is_approved_candidate(&shown("bob", "K2"), std::slice::from_ref(&approved)));
    assert!(!is_approved_candidate(&shown("bob", "K9"), std::slice::from_ref(&approved)));
    let recipients = RecipientTrustOutcome::NeedsManualApproval(vec![shown("bob", "K2"), shown("carol", "K3")]);
    match build_write_recipient_key_outcome(&recipients, std::slice::from_ref(&approved)) {
        RecipientTrustOutcome::NeedsManualApproval(left) => {
            assert_eq!(left.len(), 1);
            assert_eq!(left[0].kid().as_str(), "K3");
        }
        RecipientTrustOutcome::Accepted => panic!("carol still needs approval"),
    }
    let only_bob = RecipientTrustOutcome::NeedsManualApproval(vec![shown("bob", "K2")]);
    assert!(matches!(
        build_write_recipient_key_outcome(&only_bob, &[approved]),
        RecipientTrustOutcome::Accepted
    ));
}

#[test]
fn review_is_asked_only_with_requests() {
    assert!(kapsaro_core::trust::evaluation::review_decision::<u8>(vec![]).is_none());
    match kapsaro_core::trust::evaluation::review_decision::<u8>(vec![known_key_request("bob", "K2")]) {
        Some(TrustDecision::ReviewRequired(requests)) => assert_eq!(requests.len(), 1),
        _ => panic!("a request asks for review"),
    }
}

#[test]
fn member_snapshot_refuses_duplicate_key_ids() {
    let ok = CurrentMemberSnapshot::from_members(vec![claims("bob", "K2", None), claims("alice", "K1", None)]);
    let kids: Vec<&str> = ok.as_ref().unwrap().members().iter().map(|m| m.kid.as_str()).collect();
    assert_eq!(kids, vec!["K1", "K2"]);
    let e = CurrentMemberSnapshot::from_members(vec![claims("alice", "K1", None), claims("bob", "K1", None)])
        .err()
        .unwrap();
    assert_eq!(e.kind, ErrorKind::InvalidArgument);
    assert_eq!(e.message, "Duplicate key id among active members: K1");
    let none = CurrentMemberSnapshot::from_members(vec![]).err().unwrap();
    assert_eq!(none.kind, ErrorKind::NotFound);
}

#[test]
fn evidence_mismatch_carries_its_rule() {
    let bound = KnownKeyReviewCandidate::from_public_key(&claims("alice", "K1", Some(7)), None).unwrap();
    let e = TrustApproval::known_key(&bound, kapsaro_core::trust::policy::KnownKeyApprovalEvidence::none())
        .err()
        .unwrap();
    assert_eq!(e.code.as_deref(), Some("E_TRUST_APPROVAL_EVIDENCE_MISMATCH"));
    let plain = candidate("alice", "K1");
    let other = kapsaro_core::trust::policy::KnownKeyApprovalEvidence::none()
        .with_ssh_attestor_public_key("ssh-ed25519 OTHER".to_string());
    assert_eq!(
        TrustApproval::known_key(&plain, other).err().unwrap().code.as_deref(),
        Some("E_TRUST_APPROVAL_EVIDENCE_MISMATCH")
    );
}

#[test]
fn test_review_candidates_derive_their_binding() {
    let c = TrustApprovalCandidate::for_test_review(
        "alice@example.com",
        "K1",
        None,
        false,
        Some((7, "alice-gh".to_string(), "SHA256:abc".to_string(), 99)),
        true,
        Some("ok".to_string()),
        false,
    );
    assert!(c.github_binding_configured());
    assert!(c.is_github_verified());
    assert_eq!(c.github_id(), Some(7));
    assert_eq!(c.fingerprint(), Some("SHA256:abc"));
    assert_eq!(c.online_verification_message(), Some("ok"));
    assert!(!c.requires_out_of_band_verification);
    let configured = TrustApprovalCandidate::for_test_review("bob", "K2", None, true, None, false, None, true);
    assert!(configured.github_binding_configured());
    assert_eq!(configured.service_candidate().github_account_id(), Some(42));
    let unbound = TrustApprovalCandidate::for_test_review("carol", "K3", Some("SHA256:c".to_string()), false, None, false, None, true);
    assert!(!unbound.github_binding_configured());
    assert_eq!(unbound.fingerprint(), Some("SHA256:c"));
}

#[test]
fn recipient_set_approval_carries_what_it_was_given() {
    let kids = vec![Kid::from_verified("K1".to_string()), Kid::from_verified("K2".to_string())];
    let hints = vec![
        TrustRecipientHandleHint::from_model("K1".to_string(), "alice".to_string()).unwrap(),
        TrustRecipientHandleHint::from_model("K2".to_string(), "bob".to_string()).unwrap(),
    ];
    match TrustApproval::recipient_set(7, kids, hints).unwrap() {
        TrustApproval::RecipientSet { sid, recipient_kids, recipient_handle_hints } => {
            assert_eq!(sid, 7);
            assert_eq!(recipient_kids[1].as_str(), "K2");
            assert_eq!(recipient_handle_hints[0].recipient_handle().as_str(), "alice");
            assert_eq!(recipient_handle_hints[1].kid().as_str(), "K2");
        },
        _ => panic!("a recipient-set approval"),
    }
    let e = TrustApproval::recipient_set(7, vec![Kid::from_verified("K1".to_string())], vec![]).err().unwrap();
    assert_eq!(e.kind, ErrorKind::InvalidArgument);
    assert_eq!(e.message, "recipient handle hints must identify every recipient kid");
}
