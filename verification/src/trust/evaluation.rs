//! What a trust decision means for a command: which recipients and which
//! signer still need a manual approval, when a run without review must stop,
//! and the write-time policy on strict key checking.

use vstd::prelude::*;
use crate::error::{Error, ErrorKind, Result};
use crate::text::{owned, push_str};
use crate::trust::candidate::{TrustApprovalCandidate, TrustApprovalCandidateBuilder};
use crate::trust::policy::{KnownKeyReviewCandidate, TrustReviewKind, TrustReviewRequest};

verus! {

/// A non-interactive trust decision.
#[derive(Debug, Clone)]
pub enum TrustDecision<T> {
    Trusted(T),
    ReviewRequired(Vec<TrustReviewRequest>),
}

/// A decision asks for review only with at least one request to show.
pub open spec fn asks_with_requests<T>(d: TrustDecision<T>) -> bool {
    d matches TrustDecision::ReviewRequired(requests) ==> requests@.len() > 0
}

/// The review the requests of one trust evaluation ask for: review is
/// required exactly when the evaluation found a request, and then shows
/// those requests; `None` tells the caller that nothing needs review and the
/// operation may be authorized.
pub fn review_decision<T>(requests: Vec<TrustReviewRequest>) -> (r: Option<TrustDecision<T>>)
    ensures
        r is Some <==> requests@.len() > 0,
        r matches Some(d) ==> (d matches TrustDecision::ReviewRequired(shown) && shown@
            == requests@),
        r matches Some(d) ==> asks_with_requests(d),
{
    if requests.len() == 0 {
        None
    } else {
        Some(TrustDecision::ReviewRequired(requests))
    }
}

/// What the recipients of a write need before the write may go on.
#[derive(Debug, Clone)]
pub enum RecipientTrustOutcome {
    Accepted,
    NeedsManualApproval(Vec<TrustApprovalCandidate>),
}

/// What the signer of an artifact needs before it is relied on.
#[derive(Debug, Clone)]
pub enum SignerTrustOutcome {
    Accepted,
    NeedsKnownKeyApproval(TrustApprovalCandidate),
}

/// `a` presents `c` for approval as a request with no online evidence does:
/// no evidence, no online attempt, and confirmation out of band required.
pub open spec fn presents(a: TrustApprovalCandidate, c: KnownKeyReviewCandidate) -> bool {
    &&& a.candidate_view() == c
    &&& a.evidence_view() is None
    &&& !a.attempted_view()
    &&& a.message_view() is None
    &&& a.oob_view()
}

pub open spec fn missing_candidate_message() -> Seq<char> {
    "Known-key review request is missing its verified candidate"@
}

/// The approval candidate of a known-key review request.
pub fn review_candidate(request: &TrustReviewRequest) -> (r: Result<TrustApprovalCandidate>)
    ensures
        match request.candidate_view() {
            Some(c) => r matches Ok(a) && presents(a, c),
            None => r matches Err(e) && e.kind == ErrorKind::InvalidOperation && e.message@
                == missing_candidate_message(),
        },
{
    match request.known_key_candidate() {
        Some(candidate) => Ok(TrustApprovalCandidateBuilder::from_known_key_candidate(candidate).build()),
        None => Err(
            Error::build_invalid_operation_error(
                owned("Known-key review request is missing its verified candidate"),
            ),
        ),
    }
}

/// Stop with `error` unless a review can be held.
pub fn require_review_available(review_available: bool, error: Error) -> (r: Result<()>)
    ensures
        review_available ==> r is Ok,
        !review_available ==> r == Err::<(), Error>(error),
{
    if review_available {
        Ok(())
    } else {
        Err(error)
    }
}

pub open spec fn trust_rejected() -> Seq<char> {
    "E_TRUST_REJECTED"@
}

/// How one candidate is named in a refusal: `'<kid>' (<member>)`.
pub open spec fn recipient_entry(c: KnownKeyReviewCandidate) -> Seq<char> {
    "'"@ + c.kid_view() + "' ("@ + c.handle_view() + ")"@
}

/// The candidates named one after another, separated by `, `.
pub open spec fn recipient_entries(cs: Seq<TrustApprovalCandidate>) -> Seq<char>
    decreases cs.len(),
{
    if cs.len() == 0 {
        Seq::empty()
    } else if cs.len() == 1 {
        recipient_entry(cs[0].candidate_view())
    } else {
        recipient_entries(cs.drop_last()) + ", "@ + recipient_entry(cs.last().candidate_view())
    }
}

pub open spec fn unknown_recipients_message(cs: Seq<TrustApprovalCandidate>) -> Seq<char> {
    "Unknown recipient kid requires approval.\nRecipients: "@ + recipient_entries(cs)
}

/// The refusal for recipients that need approval in a run without review.
pub fn unknown_recipient_candidate_error(candidates: &Vec<TrustApprovalCandidate>) -> (e: Error)
    ensures
        e.kind == ErrorKind::Verification,
        e.code matches Some(c) && c@ == trust_rejected(),
        e.message@ == unknown_recipients_message(candidates@),
{
    let mut entries = String::new();
    let mut k: usize = 0;
    while k < candidates.len()
        invariant
            k <= candidates.len(),
            entries@ == recipient_entries(candidates@.take(k as int)),
        decreases candidates.len() - k,
    {
        let c = candidates[k].service_candidate();
        proof {
            assert(candidates@.take(k + 1).drop_last() =~= candidates@.take(k as int));
            assert(candidates@.take(k + 1).last() == candidates@[k as int]);
        }
        if k > 0 {
            push_str(&mut entries, ", ");
        }
        push_str(&mut entries, "'");
        push_str(&mut entries, c.kid().as_str());
        push_str(&mut entries, "' (");
        push_str(&mut entries, c.subject_handle().as_str());
        push_str(&mut entries, ")");
        proof {
            let t = candidates@.take(k + 1);
            if k == 0 {
                assert(entries@ =~= recipient_entry(t[0].candidate_view()));
            } else {
                assert(entries@ =~= recipient_entries(t.drop_last()) + ", "@ + recipient_entry(
                    t.last().candidate_view(),
                ));
            }
        }
        k = k + 1;
    }
    proof {
        assert(candidates@.take(candidates.len() as int) =~= candidates@);
    }
    let mut message = owned("Unknown recipient kid requires approval.\nRecipients: ");
    push_str(&mut message, entries.as_str());
    Error::build_verification_error(owned("E_TRUST_REJECTED"), message)
}

/// A known-key request about a recipient rather than about `signer_kid`.
pub open spec fn is_recipient_request(r: TrustReviewRequest, signer_kid: Option<Seq<char>>) -> bool {
    r.kind_view() == TrustReviewKind::KnownKey && r.kid_view() != signer_kid
}

/// The recipient requests of `reqs`, in order.
pub open spec fn recipient_requests(reqs: Seq<TrustReviewRequest>, signer_kid: Option<Seq<char>>) -> Seq<
    TrustReviewRequest,
>
    decreases reqs.len(),
{
    if reqs.len() == 0 {
        Seq::empty()
    } else {
        let prev = recipient_requests(reqs.drop_last(), signer_kid);
        if is_recipient_request(reqs.last(), signer_kid) {
            prev.push(reqs.last())
        } else {
            prev
        }
    }
}

/// The recipient requests of a prefix of `reqs` begin the recipient
/// requests of `reqs`.
proof fn lemma_recipient_requests_prefix(
    reqs: Seq<TrustReviewRequest>,
    n: int,
    signer_kid: Option<Seq<char>>,
)
    requires
        0 <= n <= reqs.len(),
    ensures
        recipient_requests(reqs.take(n), signer_kid).len() <= recipient_requests(
            reqs,
            signer_kid,
        ).len(),
        forall|k: int|
            0 <= k < recipient_requests(reqs.take(n), signer_kid).len() ==> recipient_requests(
                reqs.take(n),
                signer_kid,
            )[k] == recipient_requests(reqs, signer_kid)[k],
    decreases reqs.len(),
{
    if n == reqs.len() {
        assert(reqs.take(n) =~= reqs);
    } else {
        assert(reqs.drop_last().take(n) =~= reqs.take(n));
        lemma_recipient_requests_prefix(reqs.drop_last(), n, signer_kid);
    }
}

/// Every candidate of `cs` presents the candidate of the request at its place.
pub open spec fn presents_all(cs: Seq<TrustApprovalCandidate>, reqs: Seq<TrustReviewRequest>) -> bool {
    &&& cs.len() == reqs.len()
    &&& forall|k: int| 0 <= k < cs.len() ==> #[trigger] presents_request(cs[k], reqs[k])
}

/// `a` presents the verified candidate of `r`.
pub open spec fn presents_request(a: TrustApprovalCandidate, r: TrustReviewRequest) -> bool {
    r.candidate_view() matches Some(c) && presents(a, c)
}

/// Some request of `reqs` has no verified candidate.
pub open spec fn lacks_candidate(reqs: Seq<TrustReviewRequest>) -> bool {
    exists|k: int| 0 <= k < reqs.len() && (#[trigger] reqs[k]).candidate_view() is None
}

pub open spec fn opt_text(s: Option<&str>) -> Option<Seq<char>> {
    match s {
        Some(t) => Some(t@),
        None => None,
    }
}

fn kid_differs(request: &TrustReviewRequest, signer_kid: Option<&str>) -> (r: bool)
    ensures
        r == (request.kid_view() != opt_text(signer_kid)),
{
    match (request.kid(), signer_kid) {
        (Some(k), Some(s)) => !crate::model::text_eq(k.as_str(), s),
        (None, None) => false,
        _ => true,
    }
}

/// The approval candidates of the recipient requests, in order.
fn collect_recipient_candidates(requests: &[TrustReviewRequest], signer_kid: Option<&str>) -> (r:
    Result<Vec<TrustApprovalCandidate>>)
    ensures
        lacks_candidate(recipient_requests(requests@, opt_text(signer_kid))) <==> r is Err,
        r matches Err(e) ==> e.kind == ErrorKind::InvalidOperation && e.message@
            == missing_candidate_message(),
        r matches Ok(cs) ==> presents_all(cs@, recipient_requests(requests@, opt_text(signer_kid))),
{
    let ghost signer = opt_text(signer_kid);
    let mut out: Vec<TrustApprovalCandidate> = Vec::new();
    let mut i: usize = 0;
    proof {
        assert(requests@.take(0) =~= Seq::<TrustReviewRequest>::empty());
    }
    while i < requests.len()
        invariant
            i <= requests.len(),
            signer == opt_text(signer_kid),
            !lacks_candidate(recipient_requests(requests@.take(i as int), signer)),
            presents_all(out@, recipient_requests(requests@.take(i as int), signer)),
        decreases requests.len() - i,
    {
        let request = &requests[i];
        let ghost prefix = requests@.take(i as int);
        proof {
            assert(requests@.take(i + 1).drop_last() =~= prefix);
            assert(requests@.take(i + 1).last() == requests@[i as int]);
        }
        if request.kind() == TrustReviewKind::KnownKey && kid_differs(request, signer_kid) {
            let candidate = review_candidate(request);
            match candidate {
                Ok(c) => {
                    out.push(c);
                    proof {
                        let sel = recipient_requests(requests@.take(i + 1), signer);
                        assert(sel == recipient_requests(prefix, signer).push(requests@[i as int]));
                        assert forall|k: int| 0 <= k < sel.len() implies #[trigger] sel[k].candidate_view()
                            !is None by {
                            if k < sel.len() - 1 {
                                assert(sel[k] == recipient_requests(prefix, signer)[k]);
                            }
                        }
                        assert forall|k: int| 0 <= k < out@.len() implies #[trigger] presents_request(out@[k], sel[k]) by {
                            if k < out@.len() - 1 {
                                assert(sel[k] == recipient_requests(prefix, signer)[k]);
                            }
                        }
                    }
                },
                Err(e) => {
                    proof {
                        let sel = recipient_requests(requests@.take(i + 1), signer);
                        assert(sel == recipient_requests(prefix, signer).push(requests@[i as int]));
                        assert(sel[sel.len() - 1].candidate_view() is None);
                        lemma_recipient_requests_prefix(requests@, i + 1, signer);
                        let all = recipient_requests(requests@, signer);
                        assert(all[sel.len() - 1] == sel[sel.len() - 1]);
                    }
                    return Err(e);
                },
            }
        } else {
            proof {
                assert(recipient_requests(requests@.take(i + 1), signer) == recipient_requests(
                    prefix,
                    signer,
                ));
            }
        }
        i = i + 1;
    }
    proof {
        assert(requests@.take(requests@.len() as int) =~= requests@);
    }
    Ok(out)
}

/// The recipient outcome of the review requests of one decision: the
/// known-key requests about keys other than the signer's need approval, and
/// a run without review stops on them.
pub fn recipient_outcome_from_requests(
    requests: &[TrustReviewRequest],
    signer_kid: Option<&str>,
    review_available: bool,
) -> (r: Result<RecipientTrustOutcome>)
    ensures
        ({
            let sel = recipient_requests(requests@, opt_text(signer_kid));
            if lacks_candidate(sel) {
                r matches Err(e) && e.kind == ErrorKind::InvalidOperation
            } else if sel.len() == 0 {
                r matches Ok(RecipientTrustOutcome::Accepted)
            } else if !review_available {
                r matches Err(e) && e.kind == ErrorKind::Verification && (e.code matches Some(c)
                    && c@ == trust_rejected())
            } else {
                r matches Ok(RecipientTrustOutcome::NeedsManualApproval(cs)) && presents_all(
                    cs@,
                    sel,
                )
            }
        }),
        r matches Err(e) ==> (e.kind == ErrorKind::Verification ==> exists|cs: Seq<
            TrustApprovalCandidate,
        >|
            presents_all(cs, recipient_requests(requests@, opt_text(signer_kid))) && e.message@
                == unknown_recipients_message(cs)),
{
    let candidates = collect_recipient_candidates(requests, signer_kid)?;
    if candidates.len() == 0 {
        Ok(RecipientTrustOutcome::Accepted)
    } else {
        require_review_available(review_available, unknown_recipient_candidate_error(&candidates))?;
        Ok(RecipientTrustOutcome::NeedsManualApproval(candidates))
    }
}

/// The requests, in order, that carry a verified candidate.
pub open spec fn with_candidates(reqs: Seq<TrustReviewRequest>) -> Seq<TrustReviewRequest>
    decreases reqs.len(),
{
    if reqs.len() == 0 {
        Seq::empty()
    } else {
        let prev = with_candidates(reqs.drop_last());
        if reqs.last().candidate_view() is Some {
            prev.push(reqs.last())
        } else {
            prev
        }
    }
}

/// The refusal of a review a run without review cannot hold: it names every
/// request that carries a candidate.
pub fn unknown_recipient_review_error(requests: &[TrustReviewRequest]) -> (e: Error)
    ensures
        e.kind == ErrorKind::Verification,
        e.code matches Some(c) && c@ == trust_rejected(),
        exists|cs: Seq<TrustApprovalCandidate>|
            presents_all(cs, with_candidates(requests@)) && e.message@ == unknown_recipients_message(
                cs,
            ),
{
    let mut out: Vec<TrustApprovalCandidate> = Vec::new();
    let mut i: usize = 0;
    proof {
        assert(requests@.take(0) =~= Seq::<TrustReviewRequest>::empty());
    }
    while i < requests.len()
        invariant
            i <= requests.len(),
            presents_all(out@, with_candidates(requests@.take(i as int))),
        decreases requests.len() - i,
    {
        let ghost prefix = requests@.take(i as int);
        proof {
            assert(requests@.take(i + 1).drop_last() =~= prefix);
            assert(requests@.take(i + 1).last() == requests@[i as int]);
        }
        match review_candidate(&requests[i]) {
            Ok(c) => {
                let ghost old_out = out@;
                out.push(c);
                proof {
                    let sel = with_candidates(requests@.take(i + 1));
                    assert(sel == with_candidates(prefix).push(requests@[i as int]));
                    assert forall|k: int| 0 <= k < out@.len() implies #[trigger] presents_request(out@[k], sel[k]) by {
                        if k < out@.len() - 1 {
                            assert(out@[k] == old_out[k]);
                            assert(sel[k] == with_candidates(prefix)[k]);
                        }
                    }
                }
            },
            Err(_) => {
                proof {
                    assert(with_candidates(requests@.take(i + 1)) == with_candidates(prefix));
                }
            },
        }
        i = i + 1;
    }
    proof {
        assert(requests@.take(requests@.len() as int) =~= requests@);
    }
    unknown_recipient_candidate_error(&out)
}

/// The recipient outcome of a decision: a trusted decision is accepted, a
/// review is held when one can be, and otherwise refused.
pub fn recipient_outcome_from_decision<T>(decision: TrustDecision<T>, review_available: bool) -> (r:
    Result<RecipientTrustOutcome>)
    ensures
        decision is Trusted ==> r matches Ok(RecipientTrustOutcome::Accepted),
        decision matches TrustDecision::ReviewRequired(reqs) ==> {
            if review_available {
                let sel = recipient_requests(reqs@, None);
                if lacks_candidate(sel) {
                    r matches Err(e) && e.kind == ErrorKind::InvalidOperation
                } else if sel.len() == 0 {
                    r matches Ok(RecipientTrustOutcome::Accepted)
                } else {
                    r matches Ok(RecipientTrustOutcome::NeedsManualApproval(cs)) && presents_all(
                        cs@,
                        sel,
                    )
                }
            } else {
                r matches Err(e) && e.kind == ErrorKind::Verification && (e.code matches Some(c)
                    && c@ == trust_rejected()) && exists|cs: Seq<TrustApprovalCandidate>|
                    presents_all(cs, with_candidates(reqs@)) && e.message@
                        == unknown_recipients_message(cs)
            }
        },
{
    match decision {
        TrustDecision::Trusted(_) => Ok(RecipientTrustOutcome::Accepted),
        TrustDecision::ReviewRequired(requests) => {
            if review_available {
                recipient_outcome_from_requests(requests.as_slice(), None, review_available)
            } else {
                Err(unknown_recipient_review_error(requests.as_slice()))
            }
        },
    }
}

/// The refusal for a signer that needs review in a run without review.
pub open spec fn unknown_signer_message(c: KnownKeyReviewCandidate) -> Seq<char> {
    "Unknown signer kid '"@ + c.kid_view() + "' (member: "@ + c.handle_view() + ") requires review"@
}

pub fn unknown_signer_review_error(candidate: &TrustApprovalCandidate) -> (e: Error)
    ensures
        e.kind == ErrorKind::Verification,
        e.code matches Some(c) && c@ == trust_rejected(),
        e.message@ == unknown_signer_message(candidate.candidate_view()),
{
    let c = candidate.service_candidate();
    let mut message = owned("Unknown signer kid '");
    push_str(&mut message, c.kid().as_str());
    push_str(&mut message, "' (member: ");
    push_str(&mut message, c.subject_handle().as_str());
    push_str(&mut message, ") requires review");
    Error::build_verification_error(owned("E_TRUST_REJECTED"), message)
}

/// A known-key request about `signer_kid`.
pub open spec fn is_signer_request(r: TrustReviewRequest, signer_kid: Option<Seq<char>>) -> bool {
    r.kind_view() == TrustReviewKind::KnownKey && r.kid_view() == signer_kid
}

/// `i` is the first request about the signer.
pub open spec fn first_signer_request(
    reqs: Seq<TrustReviewRequest>,
    signer_kid: Option<Seq<char>>,
    i: int,
) -> bool {
    &&& 0 <= i < reqs.len()
    &&& is_signer_request(reqs[i], signer_kid)
    &&& forall|j: int| 0 <= j < i ==> !is_signer_request(#[trigger] reqs[j], signer_kid)
}

/// The signer outcome of the review requests of one decision: the first
/// known-key request about the signer's key needs approval, and a run without
/// review stops on it.
pub fn signer_outcome_from_requests(
    requests: &[TrustReviewRequest],
    signer_kid: Option<&str>,
    review_available: bool,
) -> (r: Result<SignerTrustOutcome>)
    ensures
        (forall|j: int|
            0 <= j < requests@.len() ==> !is_signer_request(
                #[trigger] requests@[j],
                opt_text(signer_kid),
            )) ==> r matches Ok(SignerTrustOutcome::Accepted),
        forall|i: int|
            first_signer_request(requests@, opt_text(signer_kid), i) ==> match requests@[i].candidate_view() {
                None => r matches Err(e) && e.kind == ErrorKind::InvalidOperation,
                Some(c) => if review_available {
                    r matches Ok(SignerTrustOutcome::NeedsKnownKeyApproval(a)) && presents(a, c)
                } else {
                    r matches Err(e) && e.kind == ErrorKind::Verification && (e.code matches Some(
                        code,
                    ) && code@ == trust_rejected()) && e.message@ == unknown_signer_message(c)
                },
            },
{
    let ghost signer = opt_text(signer_kid);
    let mut i: usize = 0;
    while i < requests.len()
        invariant
            i <= requests.len(),
            signer == opt_text(signer_kid),
            forall|j: int| 0 <= j < i ==> !is_signer_request(#[trigger] requests@[j], signer),
        decreases requests.len() - i,
    {
        let request = &requests[i];
        if request.kind() == TrustReviewKind::KnownKey && !kid_differs(request, signer_kid) {
            proof {
                assert(first_signer_request(requests@, signer, i as int));
                assert forall|k: int| first_signer_request(requests@, signer, k) implies k == i by {
                    if k < i {
                    } else if k > i {
                        assert(!is_signer_request(requests@[i as int], signer));
                    }
                }
            }
            let candidate = review_candidate(request)?;
            require_review_available(review_available, unknown_signer_review_error(&candidate))?;
            return Ok(SignerTrustOutcome::NeedsKnownKeyApproval(candidate));
        }
        i = i + 1;
    }
    Ok(SignerTrustOutcome::Accepted)
}

/// The signer outcome of a decision.
pub fn signer_outcome_from_decision<T>(
    decision: &TrustDecision<T>,
    signer_kid: Option<&str>,
    review_available: bool,
) -> (r: Result<SignerTrustOutcome>)
    ensures
        *decision is Trusted ==> r matches Ok(SignerTrustOutcome::Accepted),
        *decision matches TrustDecision::ReviewRequired(reqs) ==> {
            &&& (forall|j: int|
                0 <= j < reqs@.len() ==> !is_signer_request(
                    #[trigger] reqs@[j],
                    opt_text(signer_kid),
                )) ==> (r matches Ok(SignerTrustOutcome::Accepted))
            &&& forall|i: int|
                first_signer_request(reqs@, opt_text(signer_kid), i) ==> match reqs@[i].candidate_view() {
                    None => r matches Err(e) && e.kind == ErrorKind::InvalidOperation,
                    Some(c) => if review_available {
                        r matches Ok(SignerTrustOutcome::NeedsKnownKeyApproval(a)) && presents(a, c)
                    } else {
                        r matches Err(e) && e.kind == ErrorKind::Verification && e.message@
                            == unknown_signer_message(c)
                    },
                }
        },
{
    match decision {
        TrustDecision::Trusted(_) => Ok(SignerTrustOutcome::Accepted),
        TrustDecision::ReviewRequired(requests) => signer_outcome_from_requests(
            requests.as_slice(),
            signer_kid,
            review_available,
        ),
    }
}

/// The rule code and message refusing an unreviewed recipient set.
pub open spec fn unreviewed_recipient_set_code(kind: TrustReviewKind) -> Seq<char> {
    match kind {
        TrustReviewKind::ChangedRecipientSet => "E_RECIPIENT_SET_CHANGED"@,
        _ => "E_RECIPIENT_TRUST_MISSING"@,
    }
}

pub open spec fn unreviewed_recipient_set_message(kind: TrustReviewKind) -> Seq<char> {
    match kind {
        TrustReviewKind::ChangedRecipientSet => "This secret's member set changed since local review and requires approval."@,
        _ => "This secret's member set has not been reviewed locally and requires approval."@,
    }
}

/// State that a recipient set needs an approval that no run without review
/// can give.
pub fn unreviewed_recipient_set_error(kind: TrustReviewKind) -> (e: Error)
    ensures
        e.kind == ErrorKind::Verification,
        e.code matches Some(c) && c@ == unreviewed_recipient_set_code(kind),
        e.message@ == unreviewed_recipient_set_message(kind),
{
    match kind {
        TrustReviewKind::ChangedRecipientSet => Error::build_verification_error(
            owned("E_RECIPIENT_SET_CHANGED"),
            owned("This secret's member set changed since local review and requires approval."),
        ),
        _ => Error::build_verification_error(
            owned("E_RECIPIENT_TRUST_MISSING"),
            owned("This secret's member set has not been reviewed locally and requires approval."),
        ),
    }
}

/// A request about a recipient set, first or changed.
pub open spec fn is_recipient_set_request(r: TrustReviewRequest) -> bool {
    r.kind_view() == TrustReviewKind::RecipientSet || r.kind_view()
        == TrustReviewKind::ChangedRecipientSet
}

/// The recipient-set review an artifact's decision asks for: the kind of its
/// first recipient-set request, which a run without review cannot hold.
/// `None` means the artifact's recipient set is accepted.
pub fn artifact_recipient_set_review<T>(decision: &TrustDecision<T>, review_available: bool) -> (r:
    Result<Option<TrustReviewKind>>)
    ensures
        *decision is Trusted ==> r matches Ok(None),
        *decision matches TrustDecision::ReviewRequired(reqs) ==> {
            &&& (forall|j: int|
                0 <= j < reqs@.len() ==> !is_recipient_set_request(#[trigger] reqs@[j])) ==> (r
                matches Ok(None))
            &&& forall|i: int|
                0 <= i < reqs@.len() && is_recipient_set_request(reqs@[i]) && (forall|j: int|
                    0 <= j < i ==> !is_recipient_set_request(#[trigger] reqs@[j])) ==> if review_available {
                    r == Ok::<Option<TrustReviewKind>, Error>(Some(reqs@[i].kind_view()))
                } else {
                    r matches Err(e) && e.kind == ErrorKind::Verification && (e.code matches Some(c)
                        && c@ == unreviewed_recipient_set_code(reqs@[i].kind_view()))
                        && e.message@ == unreviewed_recipient_set_message(reqs@[i].kind_view())
                }
        },
{
    let requests = match decision {
        TrustDecision::Trusted(_) => {
            return Ok(None);
        },
        TrustDecision::ReviewRequired(requests) => requests,
    };
    let mut i: usize = 0;
    while i < requests.len()
        invariant
            i <= requests.len(),
            *decision == TrustDecision::<T>::ReviewRequired(*requests),
            forall|j: int| 0 <= j < i ==> !is_recipient_set_request(#[trigger] requests@[j]),
        decreases requests.len() - i,
    {
        let kind = requests[i].kind();
        if kind == TrustReviewKind::RecipientSet || kind == TrustReviewKind::ChangedRecipientSet {
            proof {
                assert forall|k: int|
                    0 <= k < requests@.len() && is_recipient_set_request(requests@[k]) && (forall|
                        j: int,
                    | 0 <= j < k ==> !is_recipient_set_request(#[trigger] requests@[j])) implies k
                    == i by {
                    if k > i {
                        assert(!is_recipient_set_request(requests@[i as int]));
                    }
                }
            }
            require_review_available(review_available, unreviewed_recipient_set_error(kind))?;
            return Ok(Some(kind));
        }
        i = i + 1;
    }
    Ok(None)
}

/// Whether host keys are checked strictly.
#[derive(Debug, Clone, Copy, PartialEq, Eq, Structural)]
pub enum StrictKeyChecking {
    Yes,
    No,
}

/// Where the strict key checking setting came from.
#[derive(Debug, Clone, Copy, PartialEq, Eq, Structural)]
pub enum StrictKeyCheckingSource {
    Default,
    Explicit,
}

/// The strict key checking setting in force, with its origin.
#[derive(Debug, Clone, Copy, PartialEq, Eq, Structural)]
pub struct StrictKeyCheckingResolution {
    pub value: StrictKeyChecking,
    pub source: StrictKeyCheckingSource,
}

impl StrictKeyCheckingResolution {
    /// Strict checking, as the default.
    pub fn strict() -> (r: StrictKeyCheckingResolution)
        ensures
            r.value == StrictKeyChecking::Yes,
            r.source == StrictKeyCheckingSource::Default,
    {
        StrictKeyCheckingResolution {
            value: StrictKeyChecking::Yes,
            source: StrictKeyCheckingSource::Default,
        }
    }

    /// A setting the caller gave explicitly.
    pub fn explicit(value: StrictKeyChecking) -> (r: StrictKeyCheckingResolution)
        ensures
            r.value == value,
            r.source == StrictKeyCheckingSource::Explicit,
    {
        StrictKeyCheckingResolution { value, source: StrictKeyCheckingSource::Explicit }
    }

    /// Whether strict checking is switched off.
    pub fn is_disabled(self) -> (r: bool)
        ensures
            r == (self.value == StrictKeyChecking::No),
    {
        self.value == StrictKeyChecking::No
    }
}

pub open spec fn strict_checking_required_message() -> Seq<char> {
    "Strict key checking cannot be disabled for write operations"@
}

/// Writes refuse to run with strict key checking switched off.
pub fn enforce_write_strict_key_checking(strict_key_checking: StrictKeyCheckingResolution) -> (r:
    Result<()>)
    ensures
        r is Ok <==> strict_key_checking.value != StrictKeyChecking::No,
        r matches Err(e) ==> e.kind == ErrorKind::InvalidOperation && e.message@
            == strict_checking_required_message(),
{
    if strict_key_checking.is_disabled() {
        return Err(
            Error::build_invalid_operation_error(
                owned("Strict key checking cannot be disabled for write operations"),
            ),
        );
    }
    Ok(())
}

} // verus!
