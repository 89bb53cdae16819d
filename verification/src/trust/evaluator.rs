//! The trust policy evaluator: the verified member snapshot and trust store
//! a command decides against, the checks that bind a write to the current
//! members, and the assembly of the review a read stops on.

use vstd::prelude::*;
use crate::error::{Error, ErrorKind, Result};
use crate::model::{text_eq, Kid, MemberHandle, PublicKeyClaims};
use crate::read::NonMemberReadReview;
use crate::text::{
    lemma_text_lt_irreflexive, lemma_text_lt_total, lemma_text_lt_transitive, owned, push_str,
    text_less, text_lt,
};
use crate::trust::policy::{
    accept_reviewed_non_member, has_known_key_request, lemma_entries_have_known_key,
    push_known_key_review_request, request_entries, with_known_key_entries,
    same_known_key, KnownKey, KnownKeyReview, KnownKeyReviewCandidate, ReadTrustExceptions, TrustReviewKind,
    TrustReviewRequest,
};

verus! {

/// No two members share a key id.
pub open spec fn distinct_kids(ms: Seq<PublicKeyClaims>) -> bool {
    forall|i: int, j: int| 0 <= i < j < ms.len() ==> (#[trigger] ms[i]).kid@ != (#[trigger] ms[j]).kid@
}

/// Some member holds the key id `kid`.
pub open spec fn has_member_kid(ms: Seq<PublicKeyClaims>, kid: Seq<char>) -> bool {
    exists|i: int| 0 <= i < ms.len() && (#[trigger] ms[i]).kid@ == kid
}

/// Signature-verified active member documents, one per key id.
#[derive(Debug)]
pub struct CurrentMemberSnapshot {
    members: Vec<PublicKeyClaims>,
}

pub open spec fn no_active_members_message() -> Seq<char> {
    "No active members found in workspace"@
}

/// The key ids of member documents, in order.
pub open spec fn member_kids(ms: Seq<PublicKeyClaims>) -> Seq<Seq<char>> {
    ms.map_values(|m: PublicKeyClaims| m.kid@)
}

/// `sorted` holds the documents of `given`, each once, in ascending key-id
/// order, as a map keyed by key id yields them.
pub open spec fn in_key_id_order(sorted: Seq<PublicKeyClaims>, given: Seq<PublicKeyClaims>) -> bool {
    &&& sorted.len() == given.len()
    &&& forall|m: PublicKeyClaims| #[trigger] sorted.contains(m) <==> given.contains(m)
    &&& ascending(member_kids(sorted))
}

/// Key ids in ascending order are distinct.
proof fn lemma_ascending_kids_distinct(ms: Seq<PublicKeyClaims>)
    requires
        ascending(member_kids(ms)),
    ensures
        distinct_kids(ms),
{
    assert forall|i: int, j: int| 0 <= i < j < ms.len() implies (#[trigger] ms[i]).kid@ != (
    #[trigger] ms[j]).kid@ by {
        assert(member_kids(ms)[i] == ms[i].kid@);
        assert(member_kids(ms)[j] == ms[j].kid@);
        assert(text_lt(member_kids(ms)[i], member_kids(ms)[j]));
        lemma_text_lt_irreflexive(ms[i].kid@);
    }
}

/// Insert `m` into documents held in ascending key-id order, keeping the order.
fn insert_member_by_kid(ms: &mut Vec<PublicKeyClaims>, m: PublicKeyClaims)
    requires
        ascending(member_kids(old(ms)@)),
        !member_kids(old(ms)@).contains(m.kid@),
    ensures
        ascending(member_kids(final(ms)@)),
        final(ms)@.len() == old(ms)@.len() + 1,
        forall|x: PublicKeyClaims| #[trigger] final(ms)@.contains(x) <==> (old(ms)@.contains(x) || x == m),
{
    let ghost old_ms = ms@;
    let ghost v = member_kids(ms@);
    let mut j: usize = 0;
    while j < ms.len() && text_less(ms[j].kid.as_str(), m.kid.as_str())
        invariant
            j <= ms@.len(),
            ms@ == old_ms,
            v == member_kids(ms@),
            forall|k: int| 0 <= k < j ==> text_lt(#[trigger] v[k], m.kid@),
        decreases ms.len() - j,
    {
        proof {
            assert(v[j as int] == ms@[j as int].kid@);
        }
        j = j + 1;
    }
    let ghost n = ms@.len();
    proof {
        if j < n {
            assert(v[j as int] == ms@[j as int].kid@);
            assert(!text_lt(v[j as int], m.kid@));
            assert(v[j as int] != m.kid@);
            lemma_text_lt_total(v[j as int], m.kid@);
        }
    }
    let ghost mk = m.kid@;
    ms.insert(j, m);
    proof {
        let nv = member_kids(ms@);
        assert(nv =~= v.insert(j as int, mk));
        assert forall|a: int, b: int| 0 <= a < b < nv.len() implies text_lt(#[trigger] nv[a], #[trigger] nv[b]) by {
            if b < j {
            } else if b == j {
            } else if a < j {
                assert(nv[b] == v[b - 1]);
                assert(text_lt(v[a], v[b - 1]));
            } else if a == j {
                assert(nv[b] == v[b - 1]);
                if b - 1 > j {
                    assert(text_lt(v[j as int], v[b - 1]));
                    lemma_text_lt_transitive(mk, v[j as int], v[b - 1]);
                }
            } else {
                assert(nv[a] == v[a - 1]);
                assert(nv[b] == v[b - 1]);
            }
        }
        assert forall|x: PublicKeyClaims| #[trigger] ms@.contains(x) <==> (old_ms.contains(x) || x == m) by {
            if ms@.contains(x) {
                let w = choose|w: int| 0 <= w < ms@.len() && #[trigger] ms@[w] == x;
                if w < j {
                    assert(old_ms[w] == x);
                } else if w > j {
                    assert(old_ms[w - 1] == x);
                }
            }
            if old_ms.contains(x) {
                let w = choose|w: int| 0 <= w < old_ms.len() && #[trigger] old_ms[w] == x;
                if w < j {
                    assert(ms@[w] == x);
                } else {
                    assert(ms@[w + 1] == x);
                }
            }
            if x == m {
                assert(ms@[j as int] == x);
            }
        }
    }
}

/// Documents with distinct key ids, rearranged into ascending key-id order.
fn sort_members_by_kid(members: Vec<PublicKeyClaims>) -> (r: Vec<PublicKeyClaims>)
    requires
        distinct_kids(members@),
    ensures
        in_key_id_order(r@, members@),
        distinct_kids(r@),
{
    let ghost given = members@;
    let mut out: Vec<PublicKeyClaims> = Vec::new();
    let mut rest = members;
    let ghost mut i: int = 0;
    proof {
        assert(member_kids(out@) =~= Seq::<Seq<char>>::empty());
        assert(rest@ =~= given.skip(0));
    }
    while rest.len() > 0
        invariant
            distinct_kids(given),
            0 <= i <= given.len(),
            rest@ == given.skip(i),
            out@.len() == i,
            ascending(member_kids(out@)),
            forall|x: PublicKeyClaims| #[trigger] out@.contains(x) <==> given.take(i).contains(x),
        decreases rest.len(),
    {
        let ghost before = rest@;
        let m = rest.remove(0);
        proof {
            assert(m == given[i]);
            assert(rest@ =~= given.skip(i + 1));
            assert(!member_kids(out@).contains(m.kid@)) by {
                if member_kids(out@).contains(m.kid@) {
                    let w = choose|w: int| 0 <= w < member_kids(out@).len() && #[trigger] member_kids(out@)[w] == m.kid@;
                    assert(out@.contains(out@[w]));
                    let u = choose|u: int| 0 <= u < given.take(i).len() && #[trigger] given.take(i)[u] == out@[w];
                    assert(given[u].kid@ == given[i].kid@);
                }
            }
        }
        let ghost prev_out = out@;
        insert_member_by_kid(&mut out, m);
        proof {
            assert(forall|x: PublicKeyClaims| #[trigger] prev_out.contains(x) <==> given.take(i).contains(x));
            assert forall|x: PublicKeyClaims| #[trigger] out@.contains(x) <==> given.take(i + 1).contains(x) by {
                let now = given.take(i + 1);
                let was = given.take(i);
                if now.contains(x) {
                    let w = choose|w: int| 0 <= w < now.len() && #[trigger] now[w] == x;
                    if w < i {
                        assert(was[w] == x);
                        assert(was.contains(x));
                    } else {
                        assert(x == m);
                    }
                }
                if was.contains(x) {
                    let w = choose|w: int| 0 <= w < was.len() && #[trigger] was[w] == x;
                    assert(now[w] == x);
                }
                if x == m {
                    assert(now[i] == x);
                }
            }
            i = i + 1;
        }
    }
    proof {
        assert(given.take(i) =~= given);
        lemma_ascending_kids_distinct(out@);
    }
    out
}

impl CurrentMemberSnapshot {
    pub closed spec fn members_view(self) -> Seq<PublicKeyClaims> {
        self.members@
    }

    /// A snapshot holds one document per key id, in ascending key-id order.
    #[verifier::type_invariant]
    pub open spec fn one_per_kid(self) -> bool {
        &&& distinct_kids(self.members_view())
        &&& ascending(member_kids(self.members_view()))
    }

    /// A snapshot of verified members keyed by their key ids; a workspace
    /// without active members is refused.
    pub fn from_verified_members(members: Vec<PublicKeyClaims>) -> (r: Result<CurrentMemberSnapshot>)
        requires
            distinct_kids(members@),
        ensures
            r is Ok <==> members@.len() > 0,
            r matches Ok(s) ==> in_key_id_order(s.members_view(), members@),
            r matches Err(e) ==> e.kind == ErrorKind::NotFound && e.message@
                == no_active_members_message(),
    {
        if members.len() == 0 {
            return Err(
                Error::build_not_found_error(owned("No active members found in workspace")),
            );
        }
        let members = sort_members_by_kid(members);
        Ok(CurrentMemberSnapshot { members })
    }

    pub open spec fn duplicate_kid_message(kid: Seq<char>) -> Seq<char> {
        "Duplicate key id among active members: "@ + kid
    }

    /// A snapshot of members read from a workspace: a workspace without
    /// active members is refused, and so is one where two documents hold the
    /// same key id, since a key id must name one member.
    pub fn from_members(members: Vec<PublicKeyClaims>) -> (r: Result<CurrentMemberSnapshot>)
        ensures
            r is Ok <==> members@.len() > 0 && distinct_kids(members@),
            r matches Ok(s) ==> in_key_id_order(s.members_view(), members@),
            members@.len() == 0 ==> (r matches Err(e) && e.kind == ErrorKind::NotFound
                && e.message@ == no_active_members_message()),
            members@.len() > 0 && !distinct_kids(members@) ==> (r matches Err(e) && e.kind
                == ErrorKind::InvalidArgument && exists|i: int, j: int|
                0 <= i < j < members@.len() && (#[trigger] members@[i]).kid@ == (
                #[trigger] members@[j]).kid@ && e.message@ == Self::duplicate_kid_message(
                members@[j].kid@,
            )),
    {
        if members.len() == 0 {
            return Err(
                Error::build_not_found_error(owned("No active members found in workspace")),
            );
        }
        let mut j: usize = 1;
        while j < members.len()
            invariant
                1 <= j <= members@.len(),
                distinct_kids(members@.take(j as int)),
            decreases members.len() - j,
        {
            let mut i: usize = 0;
            while i < j
                invariant
                    i <= j < members@.len(),
                    forall|k: int| 0 <= k < i ==> (#[trigger] members@[k]).kid@ != members@[j as int].kid@,
                decreases j - i,
            {
                if text_eq(members[i].kid.as_str(), members[j].kid.as_str()) {
                    let mut message = owned("Duplicate key id among active members: ");
                    push_str(&mut message, members[j].kid.as_str());
                    proof {
                        assert(members@[i as int].kid@ == members@[j as int].kid@);
                        assert(!distinct_kids(members@));
                    }
                    return Err(Error::build_invalid_argument_error(message));
                }
                i = i + 1;
            }
            proof {
                assert forall|a: int, b: int| 0 <= a < b < j + 1 implies (#[trigger] members@.take(
                    j + 1,
                )[a]).kid@ != (#[trigger] members@.take(j + 1)[b]).kid@ by {
                    if b < j {
                        assert(members@.take(j as int)[a] == members@[a]);
                        assert(members@.take(j as int)[b] == members@[b]);
                    }
                }
            }
            j = j + 1;
        }
        proof {
            assert(members@.take(members@.len() as int) =~= members@);
        }
        let members = sort_members_by_kid(members);
        Ok(CurrentMemberSnapshot { members })
    }

    /// The member document holding `kid`, if any.
    pub fn member_for_kid(&self, kid: &str) -> (r: Option<&PublicKeyClaims>)
        ensures
            r is None <==> !has_member_kid(self.members_view(), kid@),
            r matches Some(m) ==> m.kid@ == kid@ && self.members_view().contains(*m),
    {
        let mut i: usize = 0;
        while i < self.members.len()
            invariant
                i <= self.members@.len(),
                forall|j: int| 0 <= j < i ==> (#[trigger] self.members@[j]).kid@ != kid@,
            decreases self.members.len() - i,
        {
            if text_eq(self.members[i].kid.as_str(), kid) {
                proof {
                    assert(self.members@[i as int] == self.members@[i as int]);
                }
                return Some(&self.members[i]);
            }
            i = i + 1;
        }
        None
    }

    /// The member documents.
    pub fn members(&self) -> (m: &[PublicKeyClaims])
        ensures
            m@ == self.members_view(),
    {
        self.members.as_slice()
    }

    /// A copy of this snapshot.
    pub fn duplicate(&self) -> (r: CurrentMemberSnapshot)
        ensures
            r.members_view() == self.members_view(),
    {
        let mut members: Vec<PublicKeyClaims> = Vec::new();
        let mut i: usize = 0;
        while i < self.members.len()
            invariant
                i <= self.members@.len(),
                members@ == self.members@.take(i as int),
            decreases self.members.len() - i,
        {
            members.push(self.members[i].duplicate());
            proof {
                assert(members@ =~= self.members@.take(i + 1));
            }
            i = i + 1;
        }
        proof {
            use_type_invariant(self);
            assert(members@ =~= self.members@);
        }
        CurrentMemberSnapshot { members }
    }

    /// Whether `other` holds the same member document under each key id.
    pub fn same_members_as(&self, other: &CurrentMemberSnapshot) -> (r: bool)
        ensures
            r == same_members(self.members_view(), other.members_view()),
    {
        holds_all(self.members.as_slice(), other) && holds_all(other.members.as_slice(), self)
    }
}

/// `ms` holds a member document with the same claims as `c`.
pub open spec fn holds_claims(ms: Seq<PublicKeyClaims>, c: PublicKeyClaims) -> bool {
    exists|j: int| 0 <= j < ms.len() && same_claims(#[trigger] ms[j], c)
}

/// Two snapshots hold the same member document under each key id: every
/// document of each is, claim for claim, in the other.
pub open spec fn same_members(a: Seq<PublicKeyClaims>, b: Seq<PublicKeyClaims>) -> bool {
    &&& forall|i: int| 0 <= i < a.len() ==> holds_claims(b, #[trigger] a[i])
    &&& forall|j: int| 0 <= j < b.len() ==> holds_claims(a, #[trigger] b[j])
}

fn holds_all(docs: &[PublicKeyClaims], snapshot: &CurrentMemberSnapshot) -> (r: bool)
    ensures
        r == forall|i: int| 0 <= i < docs@.len() ==> holds_claims(snapshot.members_view(), #[trigger] docs@[i]),
{
    let ghost ms = snapshot.members_view();
    proof {
        use_type_invariant(snapshot);
    }
    let mut i: usize = 0;
    while i < docs.len()
        invariant
            i <= docs@.len(),
            ms == snapshot.members_view(),
            distinct_kids(ms),
            forall|k: int| 0 <= k < i ==> holds_claims(ms, #[trigger] docs@[k]),
        decreases docs.len() - i,
    {
        let held = match snapshot.member_for_kid(docs[i].kid.as_str()) {
            Some(m) => claims_eq(m, &docs[i]),
            None => false,
        };
        if !held {
            proof {
                if holds_claims(ms, docs@[i as int]) {
                    let j = choose|j: int| 0 <= j < ms.len() && same_claims(#[trigger] ms[j], docs@[i as int]);
                    assert(has_member_kid(ms, docs@[i as int].kid@));
                }
            }
            return false;
        }
        proof {
            let m = choose|w: int| 0 <= w < ms.len() && ms[w].kid@ == docs@[i as int].kid@ && same_claims(ms[w], docs@[i as int]);
        }
        i = i + 1;
    }
    true
}

/// A signature-verified local trust store: whose it is and the keys it
/// vouches for.
#[derive(Debug, Clone)]
pub struct VerifiedLocalTrustStore {
    owner_handle: String,
    known_keys: Vec<KnownKey>,
}

impl VerifiedLocalTrustStore {
    pub closed spec fn owner_view(self) -> Seq<char> {
        self.owner_handle@
    }

    pub closed spec fn known_keys_view(self) -> Seq<KnownKey> {
        self.known_keys@
    }

    /// The store whose signature was verified, as its document states it.
    pub fn from_verified(owner_handle: String, known_keys: Vec<KnownKey>) -> (s:
        VerifiedLocalTrustStore)
        ensures
            s.owner_view() == owner_handle@,
            s.known_keys_view() == known_keys@,
    {
        VerifiedLocalTrustStore { owner_handle, known_keys }
    }

    pub fn owner_handle(&self) -> (h: &str)
        ensures
            h@ == self.owner_view(),
    {
        self.owner_handle.as_str()
    }

    pub fn known_keys(&self) -> (k: &[KnownKey])
        ensures
            k@ == self.known_keys_view(),
    {
        self.known_keys.as_slice()
    }

    /// A copy of this store.
    pub fn duplicate(&self) -> (r: VerifiedLocalTrustStore)
        ensures
            r.owner_view() == self.owner_view(),
            r.known_keys_view() == self.known_keys_view(),
    {
        let mut known_keys: Vec<KnownKey> = Vec::new();
        let mut i: usize = 0;
        while i < self.known_keys.len()
            invariant
                i <= self.known_keys@.len(),
                known_keys@ == self.known_keys@.take(i as int),
            decreases self.known_keys.len() - i,
        {
            known_keys.push(self.known_keys[i].duplicate());
            proof {
                assert(known_keys@ =~= self.known_keys@.take(i + 1));
            }
            i = i + 1;
        }
        proof {
            assert(known_keys@ =~= self.known_keys@);
        }
        VerifiedLocalTrustStore { owner_handle: self.owner_handle.clone(), known_keys }
    }

    /// Whether `other` holds the same verified content.
    pub fn same_content(&self, other: &VerifiedLocalTrustStore) -> (r: bool)
        ensures
            r == same_store_content(*self, *other),
    {
        if !text_eq(self.owner_handle.as_str(), other.owner_handle.as_str()) {
            return false;
        }
        if self.known_keys.len() != other.known_keys.len() {
            return false;
        }
        let mut i: usize = 0;
        while i < self.known_keys.len()
            invariant
                i <= self.known_keys@.len(),
                self.known_keys@.len() == other.known_keys@.len(),
                forall|k: int| 0 <= k < i ==> same_known_key(#[trigger] self.known_keys@[k], other.known_keys@[k]),
            decreases self.known_keys.len() - i,
        {
            if !self.known_keys[i].same(&other.known_keys[i]) {
                return false;
            }
            i = i + 1;
        }
        true
    }
}

/// Two known-key lists record the same approvals in the same order.
pub open spec fn same_known_keys(a: Seq<KnownKey>, b: Seq<KnownKey>) -> bool {
    a.len() == b.len() && forall|i: int| 0 <= i < a.len() ==> same_known_key(#[trigger] a[i], b[i])
}

/// Two trust stores hold the same verified content.
pub open spec fn same_store_content(a: VerifiedLocalTrustStore, b: VerifiedLocalTrustStore) -> bool {
    a.owner_view() == b.owner_view() && same_known_keys(a.known_keys_view(), b.known_keys_view())
}

/// Two optional trust stores are both absent, or hold the same content.
pub open spec fn same_optional_store(a: Option<VerifiedLocalTrustStore>, b: Option<VerifiedLocalTrustStore>) -> bool {
    match (a, b) {
        (None, None) => true,
        (Some(x), Some(y)) => same_store_content(x, y),
        _ => false,
    }
}

/// The exact content a trust store was read from.
#[derive(Debug, Clone)]
pub enum TrustStoreSnapshot {
    /// There was no stored document.
    Missing,
    /// The stored document's bytes.
    Present(Vec<u8>),
}

impl TrustStoreSnapshot {
    /// A copy of this snapshot.
    pub fn duplicate(&self) -> (r: TrustStoreSnapshot)
        ensures
            match (*self, r) {
                (TrustStoreSnapshot::Missing, TrustStoreSnapshot::Missing) => true,
                (TrustStoreSnapshot::Present(a), TrustStoreSnapshot::Present(b)) => a@ == b@,
                _ => false,
            },
    {
        match self {
            TrustStoreSnapshot::Missing => TrustStoreSnapshot::Missing,
            TrustStoreSnapshot::Present(bytes) => {
                let mut copy: Vec<u8> = Vec::new();
                let mut i: usize = 0;
                while i < bytes.len()
                    invariant
                        i <= bytes@.len(),
                        copy@ == bytes@.take(i as int),
                    decreases bytes.len() - i,
                {
                    copy.push(bytes[i]);
                    proof {
                        assert(copy@ =~= bytes@.take(i + 1));
                    }
                    i = i + 1;
                }
                proof {
                    assert(bytes@.take(bytes@.len() as int) =~= bytes@);
                }
                TrustStoreSnapshot::Present(copy)
            },
        }
    }
}

/// The content of a snapshot: `None` for a missing store.
pub open spec fn snapshot_bytes(s: TrustStoreSnapshot) -> Option<Seq<u8>> {
    match s {
        TrustStoreSnapshot::Missing => None,
        TrustStoreSnapshot::Present(b) => Some(b@),
    }
}

/// A loaded and verified trust store, bound to the content it was read from
/// and the key that content verified against.
#[derive(Debug)]
pub struct VerifiedLocalTrustStoreLoadResult {
    store: VerifiedLocalTrustStore,
    snapshot: TrustStoreSnapshot,
    signer_kid: Option<Kid>,
}

impl VerifiedLocalTrustStoreLoadResult {
    pub closed spec fn store_view(self) -> VerifiedLocalTrustStore {
        self.store
    }

    pub closed spec fn snapshot_view(self) -> Option<Seq<u8>> {
        snapshot_bytes(self.snapshot)
    }

    pub closed spec fn signer_view(self) -> Option<Seq<char>> {
        match self.signer_kid {
            Some(k) => Some(k@),
            None => None,
        }
    }

    pub fn new(store: VerifiedLocalTrustStore, snapshot: TrustStoreSnapshot, signer_kid: Option<Kid>) -> (r:
        VerifiedLocalTrustStoreLoadResult)
        ensures
            r.store_view() == store,
            r.snapshot_view() == snapshot_bytes(snapshot),
            r.signer_view() == (match signer_kid {
                Some(k) => Some(k@),
                None => None::<Seq<char>>,
            }),
    {
        VerifiedLocalTrustStoreLoadResult { store, snapshot, signer_kid }
    }

    pub fn store(&self) -> (s: &VerifiedLocalTrustStore)
        ensures
            *s == self.store_view(),
    {
        &self.store
    }

    /// Consume the result and return the verified store.
    pub fn into_store(self) -> (s: VerifiedLocalTrustStore)
        ensures
            s == self.store_view(),
    {
        self.store
    }
}

/// How an approval that meets a concurrent writer is applied.
#[derive(Debug, Clone)]
pub enum ApprovalConflictPolicy {
    /// Serialise with other writers and merge into the latest state.
    Merge,
    /// Apply only onto the reviewed content, signed by the key it named.
    Surface { snapshot: TrustStoreSnapshot, signer_kid: Option<Kid> },
}

/// Opaque conflict policy for applying caller-approved trust updates.
#[derive(Debug, Clone)]
pub struct ApprovalConflictHandling {
    policy: ApprovalConflictPolicy,
}

impl ApprovalConflictHandling {
    pub closed spec fn policy_view(self) -> ApprovalConflictPolicy {
        self.policy
    }

    pub closed spec fn merges(self) -> bool {
        self.policy is Merge
    }

    /// The reviewed content an update is bound to; `None` inside for a
    /// reviewed absence.
    pub closed spec fn bound_content(self) -> Option<Option<Seq<u8>>> {
        match self.policy {
            ApprovalConflictPolicy::Merge => None,
            ApprovalConflictPolicy::Surface { snapshot, .. } => Some(snapshot_bytes(snapshot)),
        }
    }

    pub closed spec fn bound_signer(self) -> Option<Seq<char>> {
        match self.policy {
            ApprovalConflictPolicy::Surface { signer_kid: Some(k), .. } => Some(k@),
            _ => None,
        }
    }

    /// Merge the update into the latest state.
    pub fn merge() -> (h: ApprovalConflictHandling)
        ensures
            h.merges(),
            h.bound_content() is None,
    {
        ApprovalConflictHandling { policy: ApprovalConflictPolicy::Merge }
    }

    /// Bind the update to the verified content the caller reviewed.
    pub fn surface(reviewed: &VerifiedLocalTrustStoreLoadResult) -> (h: ApprovalConflictHandling)
        ensures
            !h.merges(),
            h.bound_content() == Some(reviewed.snapshot_view()),
            h.bound_signer() == reviewed.signer_view(),
    {
        ApprovalConflictHandling {
            policy: ApprovalConflictPolicy::Surface {
                snapshot: reviewed.snapshot.duplicate(),
                signer_kid: match &reviewed.signer_kid {
                    Some(k) => Some(k.duplicate()),
                    None => None,
                },
            },
        }
    }

    /// Bind the update to a reviewed absence: it is refused if a store has
    /// appeared since.
    pub fn surface_absent() -> (h: ApprovalConflictHandling)
        ensures
            !h.merges(),
            h.bound_content() == Some(None::<Seq<u8>>),
            h.bound_signer() is None,
    {
        ApprovalConflictHandling {
            policy: ApprovalConflictPolicy::Surface {
                snapshot: TrustStoreSnapshot::Missing,
                signer_kid: None,
            },
        }
    }

    /// The policy this handling applies.
    pub fn policy(&self) -> (p: &ApprovalConflictPolicy)
        ensures
            *p == self.policy_view(),
    {
        &self.policy
    }
}

/// The trust policy a command decides against: the current members and the
/// local trust store, when there is one.
#[derive(Debug)]
pub struct TrustPolicyEvaluator {
    members: CurrentMemberSnapshot,
    store: Option<VerifiedLocalTrustStore>,
}

pub open spec fn store_owner_mismatch_message(owner: Seq<char>, handle: Seq<char>) -> Seq<char> {
    "Trust store owner_handle '"@ + owner + "' does not match key context member_handle '"@
        + handle + "'"@
}

pub open spec fn inactive_mutation_key_message(handle: Seq<char>, kid: Seq<char>) -> Seq<char> {
    "Mutation key is not a current active member.\nmember: "@ + handle + "\nkid: "@ + kid
}

pub open spec fn mutation_key_mismatch_message(kid: Seq<char>, handle: Seq<char>) -> Seq<char> {
    "Mutation key '"@ + kid + "' does not match current member '"@ + handle + "'"@
}

pub open spec fn output_set_message() -> Seq<char> {
    "Output recipients must match all current members/active keys"@
}

pub open spec fn inactive_recipient_message(kid: Seq<char>) -> Seq<char> {
    "Artifact recipient kid is not active.\nKid: "@ + kid
        + "\nThe artifact must be rewrapped before writing."@
}

pub open spec fn recipient_key_mismatch_message(kid: Seq<char>) -> Seq<char> {
    "Output recipient kid '"@ + kid + "' differs from members/active"@
}

/// The same claims, compared by their texts.
pub open spec fn same_claims(a: PublicKeyClaims, b: PublicKeyClaims) -> bool {
    &&& a.subject_handle@ == b.subject_handle@
    &&& a.kid@ == b.kid@
    &&& a.attestor_pub@ == b.attestor_pub@
    &&& match (a.github_account, b.github_account) {
        (Some(x), Some(y)) => x.id == y.id && x.login@ == y.login@,
        (None, None) => true,
        _ => false,
    }
}

/// Whether two key documents make the same claims.
pub fn claims_eq(a: &PublicKeyClaims, b: &PublicKeyClaims) -> (r: bool)
    ensures
        r == same_claims(*a, *b),
{
    let accounts = match (&a.github_account, &b.github_account) {
        (Some(x), Some(y)) => x.id == y.id && text_eq(x.login.as_str(), y.login.as_str()),
        (None, None) => true,
        _ => false,
    };
    text_eq(a.subject_handle.as_str(), b.subject_handle.as_str()) && text_eq(
        a.kid.as_str(),
        b.kid.as_str(),
    ) && text_eq(a.attestor_pub.as_str(), b.attestor_pub.as_str()) && accounts
}

/// The key ids of `kids` name exactly the members' keys, each once.
pub open spec fn exact_kid_set(ms: Seq<PublicKeyClaims>, kids: Seq<String>) -> bool {
    &&& all_members(ms, kids, kids.len() as int)
    &&& distinct_prefix(kids, kids.len() as int)
    &&& all_listed(ms, kids, ms.len() as int)
}

fn listed(kids: &[String], kid: &str) -> (r: bool)
    ensures
        r == exists|j: int| 0 <= j < kids@.len() && (#[trigger] kids@[j])@ == kid@,
{
    let mut j: usize = 0;
    while j < kids.len()
        invariant
            j <= kids@.len(),
            forall|k: int| 0 <= k < j ==> (#[trigger] kids@[k])@ != kid@,
        decreases kids.len() - j,
    {
        if text_eq(kids[j].as_str(), kid) {
            return true;
        }
        j = j + 1;
    }
    false
}

/// The first `n` key ids each name a member.
pub open spec fn all_members(ms: Seq<PublicKeyClaims>, kids: Seq<String>, n: int) -> bool {
    forall|k: int| 0 <= k < n ==> has_member_kid(ms, (#[trigger] kids[k])@)
}

/// The first `n` key ids are pairwise different.
pub open spec fn distinct_prefix(kids: Seq<String>, n: int) -> bool {
    forall|a: int, b: int| 0 <= a < b < n ==> (#[trigger] kids[a])@ != (#[trigger] kids[b])@
}

/// The keys of the first `n` members are each listed in `kids`.
pub open spec fn all_listed(ms: Seq<PublicKeyClaims>, kids: Seq<String>, n: int) -> bool {
    forall|k: int|
        0 <= k < n ==> exists|j: int| 0 <= j < kids.len() && (#[trigger] kids[j])@ == (
        #[trigger] ms[k]).kid@
}

proof fn lemma_extend_prefix(ms: Seq<PublicKeyClaims>, kids: Seq<String>, i: int)
    requires
        0 <= i < kids.len(),
    ensures
        all_members(ms, kids, i + 1) == (all_members(ms, kids, i) && has_member_kid(ms, kids[i]@)),
        distinct_prefix(kids, i + 1) == (distinct_prefix(kids, i) && !exists|j: int|
            0 <= j < i && (#[trigger] kids[j])@ == kids[i]@),
{
    if all_members(ms, kids, i) && has_member_kid(ms, kids[i]@) {
        assert forall|k: int| 0 <= k < i + 1 implies has_member_kid(ms, (#[trigger] kids[k])@) by {
            if k < i {
            }
        }
    }
    if distinct_prefix(kids, i + 1) {
        assert forall|j: int| 0 <= j < i implies (#[trigger] kids[j])@ != kids[i]@ by {
            assert(kids[j]@ != kids[i]@);
        }
    }
    if distinct_prefix(kids, i) && !exists|j: int| 0 <= j < i && (#[trigger] kids[j])@ == kids[i]@ {
        assert forall|a: int, b: int| 0 <= a < b < i + 1 implies (#[trigger] kids[a])@ != (
            #[trigger] kids[b])@ by {
            if b == i {
                assert(!((kids[a])@ == kids[i]@));
            }
        }
    }
}

fn listed_before(kids: &[String], end: usize, kid: &str) -> (r: bool)
    requires
        end <= kids@.len(),
    ensures
        r == exists|j: int| 0 <= j < end && (#[trigger] kids@[j])@ == kid@,
{
    let mut j: usize = 0;
    while j < end
        invariant
            j <= end,
            end <= kids@.len(),
            forall|k: int| 0 <= k < j ==> (#[trigger] kids@[k])@ != kid@,
        decreases end - j,
    {
        if text_eq(kids[j].as_str(), kid) {
            return true;
        }
        j = j + 1;
    }
    false
}

/// Two evaluators decide against the same members and the same trust store
/// content.
pub open spec fn same_state(a: TrustPolicyEvaluator, b: TrustPolicyEvaluator) -> bool {
    same_members(a.members_view().members_view(), b.members_view().members_view())
        && same_optional_store(a.store_view(), b.store_view())
}

proof fn lemma_same_members_reflexive(ms: Seq<PublicKeyClaims>)
    ensures
        same_members(ms, ms),
{
    assert forall|i: int| 0 <= i < ms.len() implies holds_claims(ms, #[trigger] ms[i]) by {
        assert(same_claims(ms[i], ms[i]));
    }
}


/// The texts of key ids.
pub open spec fn kid_views(u: Seq<Kid>) -> Seq<Seq<char>> {
    u.map_values(|k: Kid| k@)
}

/// `u` is strictly ascending in the text order, so each key id occurs once.
pub open spec fn ascending(u: Seq<Seq<char>>) -> bool {
    forall|i: int, j: int| 0 <= i < j < u.len() ==> text_lt(#[trigger] u[i], #[trigger] u[j])
}

/// The member document holding `kid`, where a member holds it.
pub open spec fn member_with_kid(ms: Seq<PublicKeyClaims>, kid: Seq<char>) -> PublicKeyClaims {
    ms[choose|i: int| 0 <= i < ms.len() && (#[trigger] ms[i]).kid@ == kid]
}

/// The member documents holding the key ids `kids`, in the order of `kids`,
/// for those key ids a member holds.
pub open spec fn held_keys(ms: Seq<PublicKeyClaims>, kids: Seq<Seq<char>>) -> Seq<PublicKeyClaims>
    decreases kids.len(),
{
    if kids.len() == 0 {
        Seq::empty()
    } else {
        let prev = held_keys(ms, kids.drop_last());
        if has_member_kid(ms, kids.last()) {
            prev.push(member_with_kid(ms, kids.last()))
        } else {
            prev
        }
    }
}

/// `u` lists, each once and in ascending order, the key ids of `kids` that
/// no member holds.
pub open spec fn unresolved_kids(ms: Seq<PublicKeyClaims>, kids: Seq<Seq<char>>, u: Seq<Seq<char>>) -> bool {
    &&& ascending(u)
    &&& forall|k: Seq<char>| #[trigger] u.contains(k) <==> (kids.contains(k) && !has_member_kid(ms, k))
}

/// Insert `kid` into the ascending list `u`, unless it is there already.
fn insert_ascending(u: &mut Vec<Kid>, kid: Kid)
    requires
        ascending(kid_views(old(u)@)),
    ensures
        ascending(kid_views(final(u)@)),
        forall|k: Seq<char>|
            #[trigger] kid_views(final(u)@).contains(k) <==> (kid_views(old(u)@).contains(k) || k
                == kid@),
{
    let ghost v = kid_views(u@);
    let mut j: usize = 0;
    while j < u.len() && text_less(u[j].as_str(), kid.as_str())
        invariant
            j <= u@.len(),
            v == kid_views(u@),
            forall|m: int| 0 <= m < j ==> text_lt(#[trigger] v[m], kid@),
        decreases u.len() - j,
    {
        j = j + 1;
    }
    if j < u.len() && u[j].same(&kid) {
        proof {
            assert forall|k: Seq<char>| #[trigger] v.contains(k) <==> (v.contains(k) || k == kid@) by {
                if k == kid@ {
                    assert(v[j as int] == k);
                }
            }
        }
        return;
    }
    let ghost n = u@.len();
    proof {
        if j < n {
            assert(!text_lt(v[j as int], kid@));
            assert(v[j as int] != kid@);
            lemma_text_lt_total(v[j as int], kid@);
        }
    }
    u.insert(j, kid);
    proof {
        let nv = kid_views(u@);
        assert(nv =~= v.insert(j as int, kid@));
        assert forall|a: int, b: int| 0 <= a < b < nv.len() implies text_lt(#[trigger] nv[a], #[trigger] nv[b]) by {
            if b < j {
            } else if b == j {
            } else if a < j {
                assert(nv[b] == v[b - 1]);
                assert(text_lt(v[a], v[b - 1]));
            } else if a == j {
                assert(nv[b] == v[b - 1]);
                if b - 1 > j {
                    assert(text_lt(v[j as int], v[b - 1]));
                    lemma_text_lt_transitive(kid@, v[j as int], v[b - 1]);
                }
            } else {
                assert(nv[a] == v[a - 1]);
                assert(nv[b] == v[b - 1]);
            }
        }
        assert forall|k: Seq<char>| #[trigger] nv.contains(k) <==> (v.contains(k) || k == kid@) by {
            if nv.contains(k) {
                let w = choose|w: int| 0 <= w < nv.len() && #[trigger] nv[w] == k;
                if w < j {
                    assert(v[w] == k);
                } else if w > j {
                    assert(v[w - 1] == k);
                }
            }
            if v.contains(k) {
                let w = choose|w: int| 0 <= w < v.len() && #[trigger] v[w] == k;
                if w < j {
                    assert(nv[w] == k);
                } else {
                    assert(nv[w + 1] == k);
                }
            }
            if k == kid@ {
                assert(nv[j as int] == k);
            }
        }
    }
}

impl TrustPolicyEvaluator {
    pub closed spec fn members_view(self) -> CurrentMemberSnapshot {
        self.members
    }

    pub closed spec fn store_view(self) -> Option<VerifiedLocalTrustStore> {
        self.store
    }

    /// An evaluator over current members and an optional verified trust store.
    pub fn new(members: CurrentMemberSnapshot, store: Option<VerifiedLocalTrustStore>) -> (e:
        TrustPolicyEvaluator)
        ensures
            e.members_view() == members,
            e.store_view() == store,
    {
        TrustPolicyEvaluator { members, store }
    }

    /// Whether `other` decides against the same members and the same trust
    /// store content.
    pub fn matches_state(&self, other: &TrustPolicyEvaluator) -> (r: bool)
        ensures
            r == same_state(*self, *other),
    {
        if !self.members.same_members_as(&other.members) {
            return false;
        }
        match (&self.store, &other.store) {
            (None, None) => true,
            (Some(x), Some(y)) => x.same_content(y),
            _ => false,
        }
    }

    /// This evaluator's trust store, decided against `members`.
    pub fn with_members(&self, members: CurrentMemberSnapshot) -> (e: TrustPolicyEvaluator)
        ensures
            e.members_view() == members,
            same_optional_store(e.store_view(), self.store_view()),
            e.store_view() is Some == self.store_view() is Some,
    {
        let store = match &self.store {
            Some(s) => Some(s.duplicate()),
            None => None,
        };
        proof {
            if let Some(s) = self.store_view() {
                let d = store->0;
                assert forall|i: int| 0 <= i < d.known_keys_view().len() implies same_known_key(
                    #[trigger] d.known_keys_view()[i],
                    s.known_keys_view()[i],
                ) by {}
            }
        }
        TrustPolicyEvaluator { members, store }
    }

    /// A copy of this evaluator.
    pub fn duplicate(&self) -> (e: TrustPolicyEvaluator)
        ensures
            e.members_view().members_view() == self.members_view().members_view(),
            same_optional_store(e.store_view(), self.store_view()),
            same_state(e, *self),
    {
        let e = self.with_members(self.members.duplicate());
        proof {
            lemma_same_members_reflexive(self.members_view().members_view());
        }
        e
    }

    /// Split the recipient key ids of `subject`: the member documents of
    /// those a member holds, in order, and the others, each once in
    /// ascending order.
    pub fn partition_recipient_kids(&self, subject: &RecipientSetSubject) -> (r: (
        Vec<PublicKeyClaims>,
        Vec<Kid>,
    ))
        ensures
            r.0@ == held_keys(self.members_view().members_view(), subject.kids_view()),
            unresolved_kids(
                self.members_view().members_view(),
                subject.kids_view(),
                kid_views(r.1@),
            ),
    {
        let kids = subject.recipient_kids();
        let ghost ks = subject.kids_view();
        let ghost ms = self.members_view().members_view();
        proof {
            use_type_invariant(&self.members);
            assert(kid_views(Seq::<Kid>::empty()) =~= Seq::<Seq<char>>::empty());
            assert(ks.take(0) =~= Seq::<Seq<char>>::empty());
        }
        let mut keys: Vec<PublicKeyClaims> = Vec::new();
        let mut unresolved: Vec<Kid> = Vec::new();
        let mut i: usize = 0;
        while i < kids.len()
            invariant
                ks == kids@.map_values(|k: Kid| k@),
                i <= kids@.len(),
                ms == self.members_view().members_view(),
                distinct_kids(ms),
                keys@ == held_keys(ms, ks.take(i as int)),
                ascending(kid_views(unresolved@)),
                forall|k: Seq<char>|
                    #[trigger] kid_views(unresolved@).contains(k) <==> (ks.take(i as int).contains(k)
                        && !has_member_kid(ms, k)),
            decreases kids.len() - i,
        {
            let ghost before = kid_views(unresolved@);
            let ghost kid = ks[i as int];
            proof {
                assert(ks.take(i + 1).drop_last() =~= ks.take(i as int));
                assert(ks.take(i + 1).last() == kid);
                assert forall|k: Seq<char>| #[trigger] ks.take(i + 1).contains(k) <==> (ks.take(
                    i as int,
                ).contains(k) || k == kid) by {
                    if ks.take(i + 1).contains(k) {
                        let w = choose|w: int| 0 <= w < i + 1 && #[trigger] ks.take(i + 1)[w] == k;
                        if w < i {
                            assert(ks.take(i as int)[w] == k);
                        }
                    }
                    if ks.take(i as int).contains(k) {
                        let w = choose|w: int| 0 <= w < i && #[trigger] ks.take(i as int)[w] == k;
                        assert(ks.take(i + 1)[w] == k);
                    }
                    if k == kid {
                        assert(ks.take(i + 1)[i as int] == k);
                    }
                }
            }
            match self.members.member_for_kid(kids[i].as_str()) {
                Some(m) => {
                    proof {
                        let w = choose|w: int| 0 <= w < ms.len() && #[trigger] ms[w] == *m;
                        let c = choose|c: int| 0 <= c < ms.len() && (#[trigger] ms[c]).kid@ == kid;
                        assert(ms[w].kid@ == kid);
                        if c != w {
                            if c < w {
                                assert(ms[c].kid@ != ms[w].kid@);
                            } else {
                                assert(ms[w].kid@ != ms[c].kid@);
                            }
                        }
                        assert(member_with_kid(ms, kid) == *m);
                    }
                    keys.push(m.duplicate());
                },
                None => {
                    insert_ascending(&mut unresolved, kids[i].duplicate());
                },
            }
            i = i + 1;
        }
        proof {
            assert(ks.take(kids@.len() as int) =~= ks);
        }
        (keys, unresolved)
    }

    /// The current members.
    pub fn members(&self) -> (m: &CurrentMemberSnapshot)
        ensures
            *m == self.members_view(),
    {
        &self.members
    }

    /// The keys the trust store vouches for; none without a store.
    pub fn known_keys(&self) -> (k: &[KnownKey])
        ensures
            match self.store_view() {
                Some(s) => k@ == s.known_keys_view(),
                None => k@.len() == 0,
            },
    {
        match &self.store {
            Some(s) => s.known_keys(),
            None => &[],
        }
    }

    /// A trust store only speaks for its owner.
    pub fn enforce_store_owner(&self, member_handle: &MemberHandle) -> (r: Result<()>)
        ensures
            r is Ok <==> (self.store_view() matches Some(s) ==> s.owner_view() == member_handle@),
            r matches Err(e) ==> e.kind == ErrorKind::InvalidArgument && (self.store_view() matches Some(
                s,
            ) && e.message@ == store_owner_mismatch_message(s.owner_view(), member_handle@)),
    {
        let store = match &self.store {
            Some(s) => s,
            None => {
                return Ok(());
            },
        };
        if text_eq(store.owner_handle(), member_handle.as_str()) {
            return Ok(());
        }
        let mut message = owned("Trust store owner_handle '");
        push_str(&mut message, store.owner_handle());
        push_str(&mut message, "' does not match key context member_handle '");
        push_str(&mut message, member_handle.as_str());
        push_str(&mut message, "'");
        Err(Error::build_invalid_argument_error(message))
    }

    /// The key that signs a mutation must be the current member key of its
    /// holder. `local_key_matches` says whether the local signing key is the
    /// key of the member document holding `kid`; it is consulted only when
    /// that document names `member_handle`.
    pub fn enforce_mutation_key_current(
        &self,
        kid: &Kid,
        member_handle: &MemberHandle,
        local_key_matches: Result<bool>,
    ) -> (r: Result<()>)
        ensures
            !has_member_kid(self.members_view().members_view(), kid@) ==> (r matches Err(e)
                && e.kind == ErrorKind::Verification && (e.code matches Some(c) && c@
                == "E_TRUST_NON_MEMBER"@) && e.message@ == inactive_mutation_key_message(
                member_handle@,
                kid@,
            )),
            r is Ok ==> exists|i: int|
                0 <= i < self.members_view().members_view().len() && (#[trigger] self.members_view().members_view()[i]).kid@
                    == kid@ && self.members_view().members_view()[i].subject_handle@
                    == member_handle@ && local_key_matches == Ok::<bool, Error>(true),
            has_member_kid(self.members_view().members_view(), kid@) && local_key_matches
                == Ok::<bool, Error>(true) && (forall|i: int|
                0 <= i < self.members_view().members_view().len() && (#[trigger] self.members_view().members_view()[i]).kid@
                    == kid@ ==> self.members_view().members_view()[i].subject_handle@
                    == member_handle@) ==> r is Ok,
    {
        let current = match self.members.member_for_kid(kid.as_str()) {
            Some(m) => m,
            None => {
                let mut message = owned("Mutation key is not a current active member.\nmember: ");
                push_str(&mut message, member_handle.as_str());
                push_str(&mut message, "\nkid: ");
                push_str(&mut message, kid.as_str());
                return Err(Error::build_verification_error(owned("E_TRUST_NON_MEMBER"), message));
            },
        };
        if text_eq(current.subject_handle.as_str(), member_handle.as_str()) {
            if local_key_matches? {
                proof {
                    let ms = self.members_view().members_view();
                    let w = choose|i: int| 0 <= i < ms.len() && ms[i] == *current;
                    assert(ms[w].kid@ == kid@);
                }
                return Ok(());
            }
        }
        let mut message = owned("Mutation key '");
        push_str(&mut message, kid.as_str());
        push_str(&mut message, "' does not match current member '");
        push_str(&mut message, member_handle.as_str());
        push_str(&mut message, "'");
        Err(Error::build_verification_error(owned("E_TRUST_ACTIVE_MEMBER_MISMATCH"), message))
    }

    /// Output recipients must be exactly the current member keys, each once.
    pub fn enforce_output_kid_set_current(&self, output_kids: &[String]) -> (r: Result<()>)
        ensures
            r is Ok <==> exact_kid_set(self.members_view().members_view(), output_kids@),
            r matches Err(e) ==> e.kind == ErrorKind::Verification && (e.code matches Some(c)
                && c@ == "E_TRUST_REJECTED"@) && e.message@ == output_set_message(),
    {
        let ghost ms = self.members_view().members_view();
        let members = self.members.members();
        let mut ok = true;
        let mut i: usize = 0;
        while i < output_kids.len()
            invariant
                i <= output_kids@.len(),
                members@ == ms,
                ms == self.members_view().members_view(),
                ok <==> (all_members(ms, output_kids@, i as int) && distinct_prefix(
                    output_kids@,
                    i as int,
                )),
            decreases output_kids.len() - i,
        {
            let found = self.members.member_for_kid(output_kids[i].as_str()).is_some();
            let repeated = listed_before(output_kids, i, output_kids[i].as_str());
            proof {
                lemma_extend_prefix(ms, output_kids@, i as int);
            }
            ok = ok && found && !repeated;
            i = i + 1;
        }
        let mut m: usize = 0;
        while m < members.len()
            invariant
                m <= ms.len(),
                members@ == ms,
                ok <==> (all_members(ms, output_kids@, output_kids@.len() as int) && distinct_prefix(
                    output_kids@,
                    output_kids@.len() as int,
                ) && all_listed(ms, output_kids@, m as int)),
            decreases members.len() - m,
        {
            let present = listed(output_kids, members[m].kid.as_str());
            proof {
                assert(all_listed(ms, output_kids@, m + 1) == (all_listed(ms, output_kids@, m as int)
                    && exists|j: int|
                    0 <= j < output_kids@.len() && (#[trigger] output_kids@[j])@ == ms[m as int].kid@)) by {
                    if all_listed(ms, output_kids@, m as int) && exists|j: int|
                        0 <= j < output_kids@.len() && (#[trigger] output_kids@[j])@ == ms[m as int].kid@ {
                        assert forall|k: int| 0 <= k < m + 1 implies exists|j: int|
                            0 <= j < output_kids@.len() && (#[trigger] output_kids@[j])@ == (
                            #[trigger] ms[k]).kid@ by {
                            if k < m {
                            }
                        }
                    }
                }
            }
            ok = ok && present;
            m = m + 1;
        }
        proof {
            assert(exact_kid_set(ms, output_kids@) == (all_members(ms, output_kids@, output_kids@.len() as int)
                && distinct_prefix(output_kids@, output_kids@.len() as int) && all_listed(
                ms,
                output_kids@,
                ms.len() as int,
            )));
        }
        if ok {
            return Ok(());
        }
        Err(
            Error::build_verification_error(
                owned("E_TRUST_REJECTED"),
                owned("Output recipients must match all current members/active keys"),
            ),
        )
    }

    /// An output recipient must be the current member document of its key id.
    pub fn enforce_output_recipient_current(&self, recipient: &PublicKeyClaims) -> (r: Result<()>)
        ensures
            !has_member_kid(self.members_view().members_view(), recipient.kid@) ==> (r matches Err(
                e,
            ) && e.kind == ErrorKind::Verification && (e.code matches Some(c) && c@
                == "E_ARTIFACT_RECIPIENT_NOT_ACTIVE"@) && e.message@ == inactive_recipient_message(
                recipient.kid@,
            )),
            has_member_kid(self.members_view().members_view(), recipient.kid@) ==> (r is Ok <==> exists|
                i: int,
            |
                0 <= i < self.members_view().members_view().len() && (#[trigger] self.members_view().members_view()[i]).kid@
                    == recipient.kid@ && same_claims(self.members_view().members_view()[i], *recipient)),
            r matches Err(e) ==> (has_member_kid(self.members_view().members_view(), recipient.kid@)
                ==> e.kind == ErrorKind::Verification && e.message@ == recipient_key_mismatch_message(
                recipient.kid@,
            )),
    {
        proof {
            use_type_invariant(&self.members);
        }
        match self.members.member_for_kid(recipient.kid.as_str()) {
            None => {
                let mut message = owned("Artifact recipient kid is not active.\nKid: ");
                push_str(&mut message, recipient.kid.as_str());
                push_str(&mut message, "\nThe artifact must be rewrapped before writing.");
                Err(
                    Error::build_verification_error(
                        owned("E_ARTIFACT_RECIPIENT_NOT_ACTIVE"),
                        message,
                    ),
                )
            },
            Some(current) => {
                if claims_eq(current, recipient) {
                    Ok(())
                } else {
                    let mut message = owned("Output recipient kid '");
                    push_str(&mut message, recipient.kid.as_str());
                    push_str(&mut message, "' differs from members/active");
                    Err(
                        Error::build_verification_error(
                            owned("E_ARTIFACT_RECIPIENT_KEY_MISMATCH"),
                            message,
                        ),
                    )
                }
            },
        }
    }
}

/// The rule code of a signer that is not a current member.
pub open spec fn is_non_member_rejection(e: Error) -> bool {
    e.kind == ErrorKind::Verification && (e.code matches Some(c) && c@ == "E_TRUST_NON_MEMBER"@)
}

fn non_member_rejection(e: &Error) -> (r: bool)
    ensures
        r == is_non_member_rejection(*e),
{
    e.kind == ErrorKind::Verification && match &e.code {
        Some(c) => text_eq(c.as_str(), "E_TRUST_NON_MEMBER"),
        None => false,
    }
}

/// The signer reviews of a read under its exceptions: a signer rejected as a
/// non-member is let through only when the exceptions name the exact
/// identity a review accepted. Both the kind and the rule are checked, so an
/// unrelated failure that shares the rule never reaches the policy.
pub fn evaluate_signer_with_exceptions(
    signer: Result<Vec<TrustReviewRequest>>,
    signer_identity: Option<(&str, &str)>,
    exceptions: &ReadTrustExceptions,
) -> (r: Result<Vec<TrustReviewRequest>>)
    ensures
        signer matches Ok(reqs) ==> r == Ok::<Vec<TrustReviewRequest>, Error>(reqs),
        signer matches Err(e) ==> if is_non_member_rejection(e) && (signer_identity matches Some(
            (h, k),
        ) && exceptions.accepted_view() == Some((h@, k@))) {
            r matches Ok(reqs) && reqs@.len() == 0
        } else {
            r == Err::<Vec<TrustReviewRequest>, Error>(e)
        },
{
    match signer {
        Ok(requests) => Ok(requests),
        Err(error) => {
            if non_member_rejection(&error) {
                accept_reviewed_non_member(signer_identity, exceptions, error)?;
                Ok(Vec::new())
            } else {
                Err(error)
            }
        },
    }
}

/// `reqs` without its known-key requests, in order.
pub open spec fn without_known_key(reqs: Seq<TrustReviewRequest>) -> Seq<TrustReviewRequest>
    decreases reqs.len(),
{
    if reqs.len() == 0 {
        Seq::empty()
    } else {
        let prev = without_known_key(reqs.drop_last());
        if reqs.last().kind_view() == TrustReviewKind::KnownKey {
            prev
        } else {
            prev.push(reqs.last())
        }
    }
}

/// Drop the known-key requests, as a read that skips known-key review does.
pub fn retain_non_known_key(requests: Vec<TrustReviewRequest>) -> (r: Vec<TrustReviewRequest>)
    ensures
        r@ == without_known_key(requests@),
{
    let mut out: Vec<TrustReviewRequest> = Vec::new();
    let mut requests = requests;
    let ghost all = requests@;
    let n = requests.len();
    let mut i: usize = 0;
    proof {
        assert(all.take(0) =~= Seq::<TrustReviewRequest>::empty());
        assert(requests@ =~= all.subrange(0, n as int));
    }
    while i < n
        invariant
            n == all.len(),
            i <= n,
            requests@ == all.subrange(i as int, n as int),
            out@ == without_known_key(all.take(i as int)),
        decreases n - i,
    {
        let request = requests.remove(0);
        proof {
            assert(request == all[i as int]);
            assert(requests@ =~= all.subrange(i + 1, n as int));
            assert(all.take(i + 1).drop_last() =~= all.take(i as int));
            assert(all.take(i + 1).last() == all[i as int]);
        }
        if request.kind() != TrustReviewKind::KnownKey {
            out.push(request);
        }
        i = i + 1;
    }
    proof {
        assert(all.take(n as int) =~= all);
    }
    out
}

/// The review material a read stops on.
#[derive(Debug)]
pub struct ReadTrustReview {
    pub requests: Vec<TrustReviewRequest>,
    /// How many of the first requests are about the signer.
    pub signer_request_count: usize,
    pub non_member_signer: Option<NonMemberReadReview>,
    pub unresolved_recipient_kids: Vec<Kid>,
    /// The recipient check's failure, kept for when the review resumes.
    pub recipient_error: Option<Error>,
}

impl ReadTrustReview {
    /// Whether the first pending request is about the signer.
    pub fn first_request_is_signer(&self) -> (r: bool)
        ensures
            r == (self.signer_request_count > 0),
    {
        self.signer_request_count > 0
    }

    /// The pending requests, or the recipient check's failure when it failed.
    pub fn into_recipient_requests(self) -> (r: Result<Vec<TrustReviewRequest>>)
        ensures
            match self.recipient_error {
                Some(e) => r == Err::<Vec<TrustReviewRequest>, Error>(e),
                None => r == Ok::<Vec<TrustReviewRequest>, Error>(self.requests),
            },
    {
        match self.recipient_error {
            Some(error) => Err(error),
            None => Ok(self.requests),
        }
    }
}

pub open spec fn signer_pub_missing_message() -> Seq<char> {
    "Required signer_pub is missing from verified proof"@
}

/// The refusal of a verified proof that does not carry the signer's key.
pub fn build_missing_signer_public_key_error() -> (e: Error)
    ensures
        e.kind == ErrorKind::Verification,
        e.code matches Some(c) && c@ == "E_SIGNER_PUB_MISSING"@,
        e.message@ == signer_pub_missing_message(),
{
    Error::build_verification_error(
        owned("E_SIGNER_PUB_MISSING"),
        owned("Required signer_pub is missing from verified proof"),
    )
}

/// The known-key review of the key document `public_key`, whose SSH
/// fingerprint is `fingerprint` where it could be computed.
pub fn known_key_review_request(public_key: &PublicKeyClaims, fingerprint: Option<String>) -> (r:
    Result<TrustReviewRequest>)
    ensures
        r is Ok <==> crate::validation::is_valid_member_handle(public_key.subject_handle@),
        r matches Err(e) ==> e.kind == ErrorKind::InvalidArgument,
        r matches Ok(q) ==> q.kind_view() == TrustReviewKind::KnownKey && (q.candidate_view() matches Some(
            c,
        ) && c.attestor_view() == public_key.attestor_pub@ && c.fingerprint_view() == crate::model::opt_view(
            fingerprint,
        )) && q.handle_view() == Some(public_key.subject_handle@) && q.kid_view() == Some(
            public_key.kid@,
        ),
{
    let candidate = KnownKeyReviewCandidate::from_public_key(public_key, fingerprint)?;
    Ok(TrustReviewRequest::known_key(candidate))
}

/// The texts of member handles.
pub open spec fn handle_texts(s: Seq<MemberHandle>) -> Seq<Seq<char>> {
    s.map_values(|h: MemberHandle| h@)
}

/// The texts of strings.
pub open spec fn string_texts(s: Seq<String>) -> Seq<Seq<char>> {
    s.map_values(|h: String| h@)
}

/// The review of a signer that is not a member: its key from the verified
/// proof (with the SSH fingerprint where it could be computed) and, for
/// display, the recipient handles the artifact names.
pub fn non_member_review_request(
    signer_public_key: Option<&PublicKeyClaims>,
    fingerprint: Option<String>,
    recipient_handles: &[String],
) -> (r: Result<NonMemberReadReview>)
    ensures
        signer_public_key is None ==> (r matches Err(e) && e.kind == ErrorKind::Verification
            && e.message@ == signer_pub_missing_message()),
        signer_public_key matches Some(pk) ==> (r is Ok <==> (crate::validation::is_valid_member_handle(
            pk.subject_handle@,
        ) && forall|i: int|
            0 <= i < recipient_handles@.len() ==> crate::validation::is_valid_member_handle(
                #[trigger] recipient_handles@[i]@,
            ))),
        signer_public_key is Some ==> (r matches Err(e) ==> e.kind == ErrorKind::InvalidArgument),
        r matches Ok(n) ==> (signer_public_key matches Some(pk) && n.candidate_view().attestor_view()
            == pk.attestor_pub@ && n.candidate_view().fingerprint_view() == crate::model::opt_view(
            fingerprint,
        ) && n.candidate_view().handle_view() == pk.subject_handle@
            && n.candidate_view().kid_view() == pk.kid@ && handle_texts(n.handles_view())
            == string_texts(recipient_handles@)),
{
    let public_key = match signer_public_key {
        Some(pk) => pk,
        None => {
            return Err(build_missing_signer_public_key_error());
        },
    };
    let candidate = KnownKeyReviewCandidate::from_public_key(public_key, fingerprint)?;
    let mut handles: Vec<MemberHandle> = Vec::new();
    let mut i: usize = 0;
    while i < recipient_handles.len()
        invariant
            i <= recipient_handles@.len(),
            signer_public_key is Some,
            handle_texts(handles@) == string_texts(recipient_handles@.take(i as int)),
            forall|k: int|
                0 <= k < i ==> crate::validation::is_valid_member_handle(
                    #[trigger] recipient_handles@[k]@,
                ),
        decreases recipient_handles.len() - i,
    {
        let text = recipient_handles[i].clone();
        assert(text@ == recipient_handles@[i as int]@);
        let handle = MemberHandle::new(text)?;
        let ghost prev = handles@;
        proof {
            assert(handle_texts(prev).len() == prev.len());
            assert(string_texts(recipient_handles@.take(i as int)).len() == i);
            assert(prev.len() == i);
        }
        handles.push(handle);
        proof {
            assert(handles@ == prev.push(handle));
            assert forall|k: int| 0 <= k < i + 1 implies #[trigger] handle_texts(handles@)[k]
                == string_texts(recipient_handles@.take(i + 1))[k] by {
                if k < i {
                    assert(handles@[k] == prev[k]);
                    assert(handle_texts(prev)[k] == string_texts(recipient_handles@.take(i as int))[k]);
                }
            }
            assert(handle_texts(handles@) =~= string_texts(recipient_handles@.take(i + 1)));
        }
        i = i + 1;
    }
    proof {
        assert(recipient_handles@.take(recipient_handles@.len() as int) =~= recipient_handles@);
    }
    Ok(NonMemberReadReview::new(candidate, handles))
}

/// Add the known-key requests of `candidates`, skipping those already pending.
fn push_all_known_key_requests(
    requests: &mut Vec<TrustReviewRequest>,
    candidates: Vec<KnownKeyReviewCandidate>,
)
    ensures
        final(requests)@.len() >= old(requests)@.len(),
        final(requests)@.take(old(requests)@.len() as int) == old(requests)@,
        forall|k: int|
            0 <= k < candidates@.len() ==> has_known_key_request(
                final(requests)@,
                (#[trigger] candidates@[k]).handle_view(),
                candidates@[k].kid_view(),
            ),
        request_entries(final(requests)@) == with_known_key_entries(
            request_entries(old(requests)@),
            candidates@,
        ),
{
    let ghost before = requests@;
    let ghost cs = candidates@;
    let mut candidates = candidates;
    let n = candidates.len();
    let mut i: usize = 0;
    proof {
        assert(candidates@ =~= cs.subrange(0, n as int));
    }
    while i < n
        invariant
            n == cs.len(),
            i <= n,
            candidates@ == cs.subrange(i as int, n as int),
            requests@.len() >= before.len(),
            requests@.take(before.len() as int) == before,
            request_entries(requests@) == with_known_key_entries(
                request_entries(before),
                cs.take(i as int),
            ),
            forall|k: int|
                0 <= k < i ==> has_known_key_request(
                    requests@,
                    (#[trigger] cs[k]).handle_view(),
                    cs[k].kid_view(),
                ),
        decreases n - i,
    {
        let candidate = candidates.remove(0);
        let ghost prev = requests@;
        proof {
            assert(candidate == cs[i as int]);
            assert(candidates@ =~= cs.subrange(i + 1, n as int));
        }
        proof {
            lemma_entries_have_known_key(prev, candidate.handle_view(), candidate.kid_view());
        }
        push_known_key_review_request(requests, candidate);
        proof {
            assert(cs.take(i + 1).drop_last() =~= cs.take(i as int));
            assert(cs.take(i + 1).last() == cs[i as int]);
            assert(request_entries(requests@) == with_known_key_entries(
                request_entries(before),
                cs.take(i + 1),
            ));
            assert(requests@.take(before.len() as int) =~= before) by {
                assert(prev.take(before.len() as int) == before);
                if requests@ != prev {
                    assert(requests@.take(prev.len() as int) == prev);
                    assert forall|k: int| 0 <= k < before.len() implies requests@[k] == before[k] by {
                        assert(requests@.take(prev.len() as int)[k] == prev[k]);
                        assert(prev.take(before.len() as int)[k] == prev[k]);
                    }
                }
            }
            assert forall|k: int| 0 <= k < i + 1 implies has_known_key_request(
                requests@,
                (#[trigger] cs[k]).handle_view(),
                cs[k].kid_view(),
            ) by {
                if k < i && requests@ != prev {
                    let w = choose|j: int|
                        0 <= j < prev.len() && #[trigger] prev[j].kind_view() == TrustReviewKind::KnownKey
                            && prev[j].handle_view() == Some(cs[k].handle_view()) && prev[j].kid_view()
                            == Some(cs[k].kid_view());
                    assert(requests@.take(prev.len() as int)[w] == prev[w]);
                    assert(requests@[w] == prev[w]);
                }
            }
        }
        i = i + 1;
    }
}

/// Assemble the review a read stops on.
///
/// `signer` is the outcome of the signer check. A signer rejected as a
/// non-member becomes a non-member review (`non_member`) where the read may
/// offer one; any other failure ends the read. `recipients` is the outcome of
/// the recipient check: the candidates it asks to review and the recipient
/// key ids no member holds; its failure is kept in the review rather than
/// ending it. A read that skips known-key review keeps no known-key request.
pub fn review_read_artifact(
    signer: Result<Vec<TrustReviewRequest>>,
    allow_non_member_review: bool,
    non_member: Result<NonMemberReadReview>,
    recipients: Result<(Vec<KnownKeyReviewCandidate>, Vec<Kid>)>,
    known_key_review: KnownKeyReview,
) -> (r: Result<ReadTrustReview>)
    ensures
        signer matches Err(e) ==> (!(allow_non_member_review && is_non_member_rejection(e)) ==> r
            == Err::<ReadTrustReview, Error>(e)),
        signer matches Err(e) ==> (allow_non_member_review && is_non_member_rejection(e) ==> match non_member {
            Err(ne) => r == Err::<ReadTrustReview, Error>(ne),
            Ok(n) => r matches Ok(review) && review.non_member_signer == Some(n),
        }),
        signer is Ok ==> (r matches Ok(review) && review.non_member_signer is None),
        r matches Ok(review) ==> {
            let start = match signer {
                Ok(s) => s@,
                Err(_) => Seq::<TrustReviewRequest>::empty(),
            };
            let added = match recipients {
                Ok((cs, _)) => cs@,
                Err(_) => Seq::<KnownKeyReviewCandidate>::empty(),
            };
            &&& known_key_review == KnownKeyReview::Required ==> {
                &&& review.requests@.take(start.len() as int) == start
                &&& request_entries(review.requests@) == with_known_key_entries(
                    request_entries(start),
                    added,
                )
                &&& review.signer_request_count == start.len()
            }
            &&& known_key_review == KnownKeyReview::Skipped ==> exists|all: Seq<TrustReviewRequest>|
                #![trigger without_known_key(all)]
                all.take(start.len() as int) == start && request_entries(all)
                    == with_known_key_entries(request_entries(start), added) && review.requests@
                    == without_known_key(all)
            &&& known_key_review == KnownKeyReview::Skipped ==> review.signer_request_count == 0
                && forall|k: int|
                0 <= k < review.requests@.len() ==> (#[trigger] review.requests@[k]).kind_view()
                    != TrustReviewKind::KnownKey
            &&& match recipients {
                Err(re) => review.recipient_error == Some(re)
                    && review.unresolved_recipient_kids@.len() == 0,
                Ok((_, kids)) => review.recipient_error is None
                    && review.unresolved_recipient_kids@ == kids@,
            }
        },
{
    let (mut requests, non_member_signer) = match signer {
        Ok(requests) => (requests, None),
        Err(error) => {
            if allow_non_member_review && non_member_rejection(&error) {
                (Vec::new(), Some(non_member?))
            } else {
                return Err(error);
            }
        },
    };
    let mut signer_request_count = requests.len();
    let ghost start = requests@;
    let (unresolved_recipient_kids, recipient_error) = match recipients {
        Ok((candidates, kids)) => {
            push_all_known_key_requests(&mut requests, candidates);
            (kids, None)
        },
        Err(error) => {
            proof {
                assert(with_known_key_entries(
                    request_entries(start),
                    Seq::<KnownKeyReviewCandidate>::empty(),
                ) == request_entries(start));
                assert(requests@.take(start.len() as int) =~= start);
            }
            (Vec::new(), Some(error))
        },
    };
    let ghost all = requests@;
    if known_key_review == KnownKeyReview::Skipped {
        let ghost kept = requests@;
        requests = retain_non_known_key(requests);
        signer_request_count = 0;
        proof {
            lemma_without_known_key_has_none(kept);
            assert(requests@ == without_known_key(all));
        }
    }
    Ok(
        ReadTrustReview {
            requests,
            signer_request_count,
            non_member_signer,
            unresolved_recipient_kids,
            recipient_error,
        },
    )
}

proof fn lemma_without_known_key_has_none(reqs: Seq<TrustReviewRequest>)
    ensures
        forall|k: int|
            0 <= k < without_known_key(reqs).len() ==> (#[trigger] without_known_key(reqs)[k]).kind_view()
                != TrustReviewKind::KnownKey,
    decreases reqs.len(),
{
    if reqs.len() > 0 {
        lemma_without_known_key_has_none(reqs.drop_last());
    }
}


/// The recipient set an artifact names: its set id and the key ids of its
/// recipients, in canonical order.
#[derive(Debug, Clone)]
pub struct RecipientSetSubject {
    sid: u128,
    recipient_kids: Vec<Kid>,
}

impl RecipientSetSubject {
    pub closed spec fn sid_view(self) -> u128 {
        self.sid
    }

    pub closed spec fn kids_view(self) -> Seq<Seq<char>> {
        self.recipient_kids@.map_values(|k: Kid| k@)
    }

    /// The subject of a verified artifact's recipient set.
    pub fn from_parts(sid: u128, recipient_kids: Vec<String>) -> (s: RecipientSetSubject)
        ensures
            s.sid_view() == sid,
            s.kids_view() == recipient_kids@.map_values(|k: String| k@),
    {
        let mut kids: Vec<Kid> = Vec::new();
        let mut i: usize = 0;
        while i < recipient_kids.len()
            invariant
                i <= recipient_kids@.len(),
                kids@.map_values(|k: Kid| k@) == recipient_kids@.take(i as int).map_values(
                    |k: String| k@,
                ),
            decreases recipient_kids.len() - i,
        {
            let ghost prev = kids@;
            let kid = Kid::from_verified(owned(recipient_kids[i].as_str()));
            kids.push(kid);
            proof {
                assert(kids@.map_values(|k: Kid| k@) =~= prev.map_values(|k: Kid| k@).push(kid@));
                assert(recipient_kids@.take(i + 1).map_values(|k: String| k@) =~= recipient_kids@.take(
                    i as int,
                ).map_values(|k: String| k@).push(recipient_kids@[i as int]@));
                assert(kids@.map_values(|k: Kid| k@) =~= recipient_kids@.take(i + 1).map_values(
                    |k: String| k@,
                ));
            }
            i = i + 1;
        }
        proof {
            assert(recipient_kids@.take(recipient_kids@.len() as int) =~= recipient_kids@);
        }
        RecipientSetSubject { sid, recipient_kids: kids }
    }

    /// The artifact's recipient-set id.
    pub fn sid(&self) -> (s: u128)
        ensures
            s == self.sid_view(),
    {
        self.sid
    }

    /// The canonical recipient key ids.
    pub fn recipient_kids(&self) -> (k: &[Kid])
        ensures
            k@.map_values(|x: Kid| x@) == self.kids_view(),
    {
        self.recipient_kids.as_slice()
    }
}

} // verus!
