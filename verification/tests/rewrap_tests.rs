use kapsaro_core::error::{Error, ErrorKind};
use kapsaro_core::model::{GithubAccountClaim, MemberHandle, PublicKeyClaims};
use kapsaro_core::read::NonMemberReadReview;
use kapsaro_core::rewrap::RewrapOptions;
use kapsaro_core::rewrap_session::{
    into_session_decision, prepare_review, resolve_session_acceptance, rewrap_exceptions, PreparedRewrapReview,
    RewrapArtifactKind, RewrapNonMemberReview, RewrapOperationBinding, RewrapReview,
    RewrapSessionDecision,
};
use kapsaro_core::trust::evaluation::TrustDecision;
use kapsaro_core::trust::evaluator::{
    CurrentMemberSnapshot, ReadTrustReview, TrustPolicyEvaluator, VerifiedLocalTrustStore,
};
use kapsaro_core::trust::policy::{KnownKeyReview, KnownKeyReviewCandidate, TrustReviewRequest};

fn claims(handle: &str, kid: &str, github: Option<u64>) -> PublicKeyClaims {
    PublicKeyClaims {
        subject_handle: handle.to_string(),
        kid: kid.to_string(),
        attestor_pub: format!("ssh-ed25519 AAAA{handle}"),
        github_account: github.map(|id| GithubAccountClaim { id, login: format!("gh{id}") }),
    }
}

fn candidate(handle: &str, kid: &str) -> KnownKeyReviewCandidate {
    KnownKeyReviewCandidate::from_public_key(&claims(handle, kid, None), None).unwrap()
}

fn signer_review() -> NonMemberReadReview {
    NonMemberReadReview::new(
        candidate("eve", "K7"),
        vec![MemberHandle::new("alice".to_string()).unwrap()],
    )
}

fn kv_operation() -> RewrapOperationBinding {
    RewrapOperationBinding { artifact_kind: RewrapArtifactKind::Kv, options: RewrapOptions::new() }
}

fn members(list: Vec<PublicKeyClaims>) -> CurrentMemberSnapshot {
    CurrentMemberSnapshot::from_verified_members(list).unwrap()
}

fn evaluator(list: Vec<PublicKeyClaims>) -> TrustPolicyEvaluator {
    TrustPolicyEvaluator::new(members(list), None)
}

fn input_review(
    requests: Vec<TrustReviewRequest>,
    signer_request_count: usize,
    non_member_signer: Option<NonMemberReadReview>,
    recipient_error: Option<Error>,
) -> ReadTrustReview {
    ReadTrustReview {
        requests,
        signer_request_count,
        non_member_signer,
        unresolved_recipient_kids: vec![],
        recipient_error,
    }
}

fn non_member_rewrap_review() -> RewrapReview<&'static str> {
    match prepare_review(
        input_review(vec![], 0, Some(signer_review()), None),
        "target",
        [3u8; 32],
        kv_operation(),
        evaluator(vec![claims("alice", "K1", None)]),
        members(vec![claims("alice", "K1", None)]),
        Ok(vec![]),
    )
    .unwrap()
    {
        PreparedRewrapReview::Review(review) => *review,
        PreparedRewrapReview::Ready(_) => panic!("a non-member signer needs a review"),
    }
}

#[test]
fn rewrap_non_member_acceptance_is_one_shot() {
    let mut review = RewrapNonMemberReview::from_verified(
        [3u8; 32],
        RewrapArtifactKind::File,
        RewrapOptions::new(),
        &signer_review(),
    )
    .unwrap();
    assert_eq!(review.candidate().kid().as_str(), "K7");
    assert_eq!(review.recipient_handles()[0].as_str(), "alice");
    assert!(review.accept_non_member().is_ok());
    let e = review.accept_non_member().unwrap_err();
    assert_eq!(e.kind, ErrorKind::InvalidOperation);
    assert_eq!(e.message, "The rewrap non-member review was already accepted");
}

#[test]
fn rewrap_acceptance_admits_only_its_artifact_operation_and_signer() {
    let mut review = RewrapNonMemberReview::from_verified(
        [3u8; 32],
        RewrapArtifactKind::File,
        RewrapOptions::new(),
        &signer_review(),
    )
    .unwrap();
    let acceptance = review.accept_non_member().unwrap();
    let (handle, kid) = acceptance
        .duplicate()
        .validate([3u8; 32], RewrapArtifactKind::File, RewrapOptions::new(), &candidate("eve", "K7"))
        .unwrap();
    assert_eq!(handle.as_str(), "eve");
    assert_eq!(kid.as_str(), "K7");

    let changed = [
        acceptance.duplicate().validate(
            [4u8; 32],
            RewrapArtifactKind::File,
            RewrapOptions::new(),
            &candidate("eve", "K7"),
        ),
        acceptance.duplicate().validate(
            [3u8; 32],
            RewrapArtifactKind::Kv,
            RewrapOptions::new(),
            &candidate("eve", "K7"),
        ),
        acceptance.duplicate().validate(
            [3u8; 32],
            RewrapArtifactKind::File,
            RewrapOptions::new().with_rotate_key(true),
            &candidate("eve", "K7"),
        ),
        acceptance.validate(
            [3u8; 32],
            RewrapArtifactKind::File,
            RewrapOptions::new(),
            &candidate("eve", "K8"),
        ),
    ];
    for result in changed {
        let e = result.unwrap_err();
        assert_eq!(e.kind, ErrorKind::Verification);
        assert_eq!(e.code.as_deref(), Some("E_TRUST_TARGET_CHANGED"));
        assert_eq!(e.message, "Reviewed rewrap target or signer changed. Run the command again.");
    }
}

#[test]
fn session_acceptance_is_used_once_and_only_for_its_review() {
    assert!(resolve_session_acceptance(None, None, None).unwrap().is_none());

    let mut review = non_member_rewrap_review();
    let expected = review.expected_acceptance_review_id();
    assert!(expected.is_some());
    let acceptance = review.accept_non_member().unwrap();
    assert!(review.accept_non_member().is_err());

    let e = resolve_session_acceptance(Some(acceptance.duplicate()), Some(acceptance.duplicate()), expected)
        .unwrap_err();
    assert_eq!(e.message, "Rewrap non-member acceptance was reused. Run the command again.");

    let e = resolve_session_acceptance(Some(acceptance.duplicate()), None, None).unwrap_err();
    assert_eq!(e.code.as_deref(), Some("E_TRUST_TARGET_CHANGED"));
    assert_eq!(e.message, "Rewrap target or trust state changed after review. Run the command again.");

    let other = non_member_rewrap_review().expected_acceptance_review_id();
    assert!(resolve_session_acceptance(Some(acceptance.duplicate()), None, other).is_err());

    assert!(resolve_session_acceptance(None, Some(acceptance.duplicate()), expected)
        .unwrap()
        .is_some());
    assert!(resolve_session_acceptance(Some(acceptance), None, expected).unwrap().is_some());
}

#[test]
fn non_member_signer_is_reviewed_alone() {
    let review = non_member_rewrap_review();
    assert!(review.requests().is_empty());
    assert!(!review.first_request_is_signer());
    let signer = review.non_member_signer().unwrap();
    assert_eq!(signer.candidate().subject_handle().as_str(), "eve");
}

#[test]
fn rewrap_without_pending_requests_is_ready() {
    let prepared = prepare_review(
        input_review(vec![], 0, None, None),
        "target",
        [3u8; 32],
        kv_operation(),
        evaluator(vec![claims("alice", "K1", None)]),
        members(vec![claims("alice", "K1", None)]),
        Ok(vec![]),
    )
    .unwrap();
    assert!(matches!(prepared, PreparedRewrapReview::Ready("target")));
}

#[test]
fn input_requests_come_before_output_requests() {
    let prepared = prepare_review(
        input_review(vec![TrustReviewRequest::known_key(candidate("bob", "K2"))], 1, None, None),
        "target",
        [3u8; 32],
        kv_operation(),
        evaluator(vec![claims("alice", "K1", None)]),
        members(vec![claims("alice", "K1", None)]),
        Ok(vec![TrustReviewRequest::known_key(candidate("carol", "K3"))]),
    )
    .unwrap();
    let review = match prepared {
        PreparedRewrapReview::Review(review) => review,
        PreparedRewrapReview::Ready(_) => panic!("requests are pending"),
    };
    assert_eq!(review.requests().len(), 2);
    assert_eq!(review.requests()[0].kid().unwrap().as_str(), "K2");
    assert_eq!(review.requests()[1].kid().unwrap().as_str(), "K3");
    assert!(review.first_request_is_signer());
    assert!(review.non_member_signer().is_none());
}

#[test]
fn recipient_check_failure_comes_before_output_failure() {
    let e = match prepare_review(
        input_review(vec![], 0, None, Some(Error::build_io_error("recipients".to_string()))),
        "target",
        [3u8; 32],
        kv_operation(),
        evaluator(vec![claims("alice", "K1", None)]),
        members(vec![claims("alice", "K1", None)]),
        Err(Error::build_io_error("output".to_string())),
    ) {
        Err(e) => e,
        Ok(_) => panic!("the recipient check failed"),
    };
    assert_eq!(e.message, "recipients");
    let e = match prepare_review(
        input_review(vec![], 0, None, None),
        "target",
        [3u8; 32],
        kv_operation(),
        evaluator(vec![claims("alice", "K1", None)]),
        members(vec![claims("alice", "K1", None)]),
        Err(Error::build_io_error("output".to_string())),
    ) {
        Err(e) => e,
        Ok(_) => panic!("the output check failed"),
    };
    assert_eq!(e.message, "output");
}

#[test]
fn resumed_rewrap_must_match_artifact_operation_and_state() {
    let review = non_member_rewrap_review();
    assert!(review.validate([3u8; 32], kv_operation()).is_ok());
    let e = review.validate([9u8; 32], kv_operation()).unwrap_err();
    assert_eq!(e.message, "Reviewed rewrap artifact or operation changed. Run the command again.");
    let file_op = RewrapOperationBinding {
        artifact_kind: RewrapArtifactKind::File,
        options: RewrapOptions::new(),
    };
    assert!(review.validate([3u8; 32], file_op).is_err());

    let same_members = members(vec![claims("alice", "K1", None)]);
    assert!(review
        .validate_state(&evaluator(vec![claims("alice", "K1", None)]), &same_members)
        .is_ok());
    let e = review
        .validate_state(&evaluator(vec![claims("alice", "K1", Some(5))]), &same_members)
        .unwrap_err();
    assert_eq!(e.message, "Rewrap target or trust state changed after review. Run the command again.");
    assert!(review
        .validate_state(
            &evaluator(vec![claims("alice", "K1", None)]),
            &members(vec![claims("alice", "K1", None), claims("bob", "K2", None)]),
        )
        .is_err());
    let with_store = TrustPolicyEvaluator::new(
        members(vec![claims("alice", "K1", None)]),
        Some(VerifiedLocalTrustStore::from_verified("alice".to_string(), vec![])),
    );
    assert!(review.validate_state(&with_store, &same_members).is_err());
}

#[test]
fn member_order_does_not_change_the_state() {
    let a = evaluator(vec![claims("alice", "K1", None), claims("bob", "K2", None)]);
    let b = evaluator(vec![claims("bob", "K2", None), claims("alice", "K1", None)]);
    assert!(a.matches_state(&b));
    let c = evaluator(vec![claims("alice", "K1", None), claims("bob", "K3", None)]);
    assert!(!a.matches_state(&c));
    assert!(a.matches_state(&a.duplicate()));
}

#[test]
fn resume_hands_back_target_and_acceptance() {
    let mut review = non_member_rewrap_review();
    let acceptance = review.accept_non_member().unwrap();
    let (target, resolved) = review
        .resume(
            [3u8; 32],
            kv_operation(),
            &evaluator(vec![claims("alice", "K1", None)]),
            &members(vec![claims("alice", "K1", None)]),
            Some(acceptance),
        )
        .unwrap();
    assert_eq!(target, "target");
    assert!(resolved.is_some());

    let review = non_member_rewrap_review();
    let e = match review.resume(
        [3u8; 32],
        kv_operation(),
        &evaluator(vec![claims("bob", "K2", None)]),
        &members(vec![claims("alice", "K1", None)]),
        None,
    ) {
        Err(e) => e,
        Ok(_) => panic!("the trust state changed"),
    };
    assert_eq!(e.message, "Rewrap target or trust state changed after review. Run the command again.");
}

#[test]
fn session_decisions() {
    let decision = into_session_decision(
        TrustDecision::Trusted(7u32),
        [3u8; 32],
        kv_operation(),
        None,
        "target",
        evaluator(vec![claims("alice", "K1", None)]),
        members(vec![claims("alice", "K1", None)]),
    )
    .unwrap();
    assert!(matches!(decision, RewrapSessionDecision::Authorized((7, "target"))));

    let decision = into_session_decision(
        TrustDecision::<u32>::ReviewRequired(vec![TrustReviewRequest::known_key(candidate("bob", "K2"))]),
        [3u8; 32],
        kv_operation(),
        None,
        "target",
        evaluator(vec![claims("alice", "K1", None)]),
        members(vec![claims("alice", "K1", None)]),
    )
    .unwrap();
    match decision {
        RewrapSessionDecision::ReviewRequired(review) => {
            assert_eq!(review.requests().len(), 1);
            assert!(!review.first_request_is_signer());
            assert_eq!(review.expected_acceptance_review_id(), None);
        }
        RewrapSessionDecision::Authorized(_) => panic!("a review is required"),
    }
}

#[test]
fn rewrap_input_exceptions_admit_only_the_accepted_signer() {
    let none = rewrap_exceptions(
        None,
        Err(Error::build_io_error("not read".to_string())),
        [3u8; 32],
        RewrapArtifactKind::Kv,
        RewrapOptions::new(),
    )
    .unwrap();
    assert_eq!(none.known_key_review(), KnownKeyReview::Required);
    assert!(!none.has_accepted_non_member());

    let mut review = non_member_rewrap_review();
    let acceptance = review.accept_non_member().unwrap();
    let ex = rewrap_exceptions(
        Some(acceptance.duplicate()),
        Ok(input_review(vec![], 0, Some(signer_review()), None)),
        [3u8; 32],
        RewrapArtifactKind::Kv,
        RewrapOptions::new(),
    )
    .unwrap();
    assert!(ex.has_accepted_non_member());

    let e = rewrap_exceptions(
        Some(acceptance.duplicate()),
        Ok(input_review(vec![], 0, None, None)),
        [3u8; 32],
        RewrapArtifactKind::Kv,
        RewrapOptions::new(),
    )
    .unwrap_err();
    assert_eq!(e.message, "Reviewed rewrap signer trust changed. Run the command again.");

    let e = rewrap_exceptions(
        Some(acceptance.duplicate()),
        Ok(input_review(vec![], 0, Some(signer_review()), None)),
        [3u8; 32],
        RewrapArtifactKind::File,
        RewrapOptions::new(),
    )
    .unwrap_err();
    assert_eq!(e.message, "Reviewed rewrap target or signer changed. Run the command again.");

    let e = rewrap_exceptions(
        Some(acceptance),
        Err(Error::build_io_error("not read".to_string())),
        [3u8; 32],
        RewrapArtifactKind::Kv,
        RewrapOptions::new(),
    )
    .unwrap_err();
    assert_eq!(e.message, "not read");
}
