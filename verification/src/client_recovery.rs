//! The recovering client's decisions: the witness read challenge and the
//! request it issues, when it has
//! enough signer answers, and which guardian contributions it counts toward
//! the guardian threshold. Each counting step sits between two outside
//! exchanges; the caller sends to the next mailbox, hands the answer (or
//! `None`) to the step, and stops once the step reports the threshold.
use vstd::prelude::*;

use crate::bytes::{bytes_eq, id_eq, random_id, Id32, RandomError};
use crate::descriptor::{guardian_indices_distinct, RecoveryDescriptorV3};
use crate::epoch::saturating_add;
use crate::model::{
    config_ref_eq, ConfigCapsuleV3, ConfigRef, EpochReadChallenge, RecoveryCardV3, PROTOCOL_VERSION_V3,
    XWING_PUBLIC_KEY_LEN,
};
use crate::recovery::{
    approval_ok, begin_certificate_outcome, release_certificate_outcome, request_valid_for_ref,
    BeginRecoveryCertificateV3, RecoveryReleaseCertificateV3, RecoveryRequestV3, SignerRecoveryApprovalV3,
};
use crate::rotation::GuardianRouteV3;

verus! {

/// Why the client refused a guardian contribution or stopped short.
#[derive(Debug, Clone, Copy, PartialEq, Eq)]
pub enum ClientRecoveryError {
    /// The contribution is not bound to the exact request or guardian.
    TranscriptMismatch,
    /// The guardian's signature does not verify.
    BadSignature,
    /// The contributing guardian is not in the descriptor roster.
    OutsideDescriptor,
    /// The record's Merkle path does not verify under the material root.
    InclusionNotProven,
    /// The share does not decrypt or does not verify against the public
    /// package.
    ShareRejected,
    /// The share belongs to another FROST participant.
    WrongParticipant,
    /// The ciphertext fragment does not decrypt.
    FragmentRejected,
    /// Fewer signer answers than the signer threshold.
    SignerThresholdNotReached,
    /// Fewer guardians accepted Begin than the guardian threshold.
    GuardianBeginThresholdNotReached,
    /// Fewer accepted guardian contributions than the guardian threshold.
    GuardianThresholdNotReached,
}

/// The request a client issues at `now` for the authenticated capsule.
pub open spec fn fresh_request(
    request: RecoveryRequestV3,
    capsule: ConfigCapsuleV3,
    request_id: Id32,
    recovery_recipient_key: Seq<u8>,
    nonce: Id32,
    now: u64,
    digest: Id32,
) -> bool {
    &&& request.protocol_version == PROTOCOL_VERSION_V3
    &&& request.config_ref == capsule.config_ref
    &&& request.request_id == request_id
    &&& request.recovery_recipient_key@ == recovery_recipient_key
    &&& request.requested_at == now
    &&& request.nonce == nonce
    &&& request.expiry == saturating_add(now, capsule.max_request_lifetime)
    &&& request.digest == digest
}

/// Issues a recovery request for the capsule's exact epoch at `now`,
/// living as long as the capsule allows. `digest` is the SHA-256 of the
/// canonical digest transcript of the other fields.
pub fn new_recovery_request_v3(
    capsule: &ConfigCapsuleV3,
    request_id: Id32,
    recovery_recipient_key: Vec<u8>,
    nonce: Id32,
    now: u64,
    digest: Id32,
) -> (r: RecoveryRequestV3)
    ensures
        fresh_request(r, *capsule, request_id, recovery_recipient_key@, nonce, now, digest),
{
    RecoveryRequestV3 {
        protocol_version: PROTOCOL_VERSION_V3,
        config_ref: capsule.config_ref,
        request_id,
        recovery_recipient_key,
        requested_at: now,
        nonce,
        expiry: now.saturating_add(capsule.max_request_lifetime),
        digest,
    }
}

/// A request the client issued stays acceptable to signers and guardians
/// of that epoch from its issue time until it expires, provided its
/// recipient key is an X-Wing key.
pub proof fn lemma_fresh_request_valid_until_expiry(
    request: RecoveryRequestV3,
    capsule: ConfigCapsuleV3,
    request_id: Id32,
    recovery_recipient_key: Seq<u8>,
    nonce: Id32,
    now: u64,
    digest: Id32,
    t: u64,
)
    requires
        fresh_request(request, capsule, request_id, recovery_recipient_key, nonce, now, digest),
        recovery_recipient_key.len() == XWING_PUBLIC_KEY_LEN,
        now <= t < request.expiry,
    ensures
        request_valid_for_ref(request, capsule, capsule.config_ref, t),
{
}

/// Takes one signer's answer to an Approve or Release request and reports
/// whether the capsule's signer threshold of answers is held. The answers
/// are checked as a whole when they are put into a certificate.
pub fn admit_signer_answer(
    answers: &mut Vec<SignerRecoveryApprovalV3>,
    answer: Option<SignerRecoveryApprovalV3>,
    capsule: &ConfigCapsuleV3,
) -> (reached: bool)
    ensures
        final(answers)@ == match answer {
            Some(a) => old(answers)@.push(a),
            None => old(answers)@,
        },
        reached == (final(answers)@.len() >= capsule.signer_threshold),
{
    if let Some(a) = answer {
        answers.push(a);
    }
    answers.len() >= capsule.signer_threshold as usize
}

/// A signer threshold of valid approvals of a current request makes a
/// Begin certificate guardians of the epoch accept, and the same holds
/// for a Release certificate: a canonical certificate carrying the
/// request, its digest and exactly those approvals passes the guardians'
/// check and yields the request digest.
pub proof fn lemma_threshold_approvals_certify(
    capsule: ConfigCapsuleV3,
    request: RecoveryRequestV3,
    answers: Seq<SignerRecoveryApprovalV3>,
    begin: BeginRecoveryCertificateV3,
    release: RecoveryReleaseCertificateV3,
    now: u64,
)
    requires
        request_valid_for_ref(request, capsule, capsule.config_ref, now),
        forall|i: int| 0 <= i < answers.len() ==> #[trigger] approval_ok(capsule, request, answers, i),
        answers.len() >= capsule.signer_threshold,
        begin.request == request,
        begin.request_digest == request.digest,
        begin.signer_contributions@ == answers,
        begin.canonical,
        release.request == request,
        release.request_digest == request.digest,
        release.votes@ == answers,
        release.canonical,
    ensures
        begin_certificate_outcome(begin, capsule, now) == Ok::<Id32, crate::recovery::RecoveryError>(request.digest),
        release_certificate_outcome(release, capsule, capsule.config_ref, now) == Ok::<
            Id32,
            crate::recovery::RecoveryError,
        >(request.digest),
{
}

/// Outcome of counting the signer answers once every signer was asked.
pub fn require_signer_threshold(answers: usize, capsule: &ConfigCapsuleV3) -> (r: Result<
    (),
    ClientRecoveryError,
>)
    ensures
        r is Ok <==> answers >= capsule.signer_threshold,
        r matches Err(e) ==> e == ClientRecoveryError::SignerThresholdNotReached,
{
    if answers < capsule.signer_threshold as usize {
        return Err(ClientRecoveryError::SignerThresholdNotReached);
    }
    Ok(())
}

/// Outcome of counting the guardians that accepted Begin.
pub fn require_guardian_begin_threshold(accepted: usize, capsule: &ConfigCapsuleV3) -> (r: Result<
    (),
    ClientRecoveryError,
>)
    ensures
        r is Ok <==> accepted >= capsule.guardian_threshold,
        r matches Err(e) ==> e == ClientRecoveryError::GuardianBeginThresholdNotReached,
{
    if accepted < capsule.guardian_threshold as usize {
        return Err(ClientRecoveryError::GuardianBeginThresholdNotReached);
    }
    Ok(())
}

/// A guardian's answer to a Release: its encrypted share and fragment of
/// one request, as the client's cryptographic layer found them.
#[derive(Clone, Debug)]
pub struct GuardianRecoveryContributionV3 {
    pub config_ref: ConfigRef,
    pub request_id: Id32,
    pub request_digest: Id32,
    pub recovery_recipient_key: Vec<u8>,
    pub nonce: Id32,
    pub guardian_index: u16,
    pub fragment_index: u16,
    /// The signature over the contribution's transcript verifies under the
    /// public key of the route it was received from.
    pub signature_verified: bool,
    /// The Merkle path proves this contribution's record leaf at its
    /// guardian's position in the descriptor roster under the descriptor's
    /// material root.
    pub inclusion_verified: bool,
    /// The FROST participant the decrypted share verifies as against the
    /// descriptor's public package, or `None` where the share does not
    /// decrypt or verify.
    pub share_participant: Option<u16>,
    /// The ciphertext fragment decrypts.
    pub fragment_opened: bool,
}

/// The contribution names the exact request, recipient and guardian.
pub open spec fn contribution_binds(
    contribution: GuardianRecoveryContributionV3,
    route: GuardianRouteV3,
    request: RecoveryRequestV3,
) -> bool {
    &&& contribution.config_ref == request.config_ref
    &&& contribution.request_id == request.request_id
    &&& contribution.request_digest == request.digest
    &&& contribution.recovery_recipient_key@ == request.recovery_recipient_key@
    &&& contribution.nonce == request.nonce
    &&& contribution.guardian_index == route.guardian_index
}

/// Some route of the roster names guardian `index`.
pub open spec fn in_descriptor(descriptor: RecoveryDescriptorV3, index: u16) -> bool {
    exists|p: int|
        0 <= p < descriptor.guardians@.len() && (#[trigger] descriptor.guardians@[p]).guardian_index
            == index
}

/// Outcome of opening a guardian contribution.
pub open spec fn contribution_outcome(
    contribution: GuardianRecoveryContributionV3,
    route: GuardianRouteV3,
    descriptor: RecoveryDescriptorV3,
    request: RecoveryRequestV3,
) -> Result<(), ClientRecoveryError> {
    if !contribution_binds(contribution, route, request) {
        Err(ClientRecoveryError::TranscriptMismatch)
    } else if !contribution.signature_verified {
        Err(ClientRecoveryError::BadSignature)
    } else if !in_descriptor(descriptor, contribution.guardian_index) {
        Err(ClientRecoveryError::OutsideDescriptor)
    } else if !contribution.inclusion_verified {
        Err(ClientRecoveryError::InclusionNotProven)
    } else {
        match contribution.share_participant {
            None => Err(ClientRecoveryError::ShareRejected),
            Some(p) => if p != contribution.guardian_index {
                Err(ClientRecoveryError::WrongParticipant)
            } else if !contribution.fragment_opened {
                Err(ClientRecoveryError::FragmentRejected)
            } else {
                Ok(())
            },
        }
    }
}

/// Whether some route of the roster names guardian `index`.
fn descriptor_has(descriptor: &RecoveryDescriptorV3, index: u16) -> (b: bool)
    ensures
        b == in_descriptor(*descriptor, index),
{
    let mut p: usize = 0;
    while p < descriptor.guardians.len()
        invariant
            p <= descriptor.guardians@.len(),
            forall|q: int| 0 <= q < p ==> (#[trigger] descriptor.guardians@[q]).guardian_index != index,
        decreases descriptor.guardians.len() - p,
    {
        if descriptor.guardians[p].guardian_index == index {
            return true;
        }
        p = p + 1;
    }
    false
}

/// Checks that a guardian contribution is bound to the exact request and
/// routed guardian, is signed by it, is the committed record of a guardian
/// in the descriptor, and carries that guardian's own share and a readable
/// fragment.
pub fn validate_guardian_contribution_v3(
    contribution: &GuardianRecoveryContributionV3,
    route: &GuardianRouteV3,
    descriptor: &RecoveryDescriptorV3,
    request: &RecoveryRequestV3,
) -> (r: Result<(), ClientRecoveryError>)
    ensures
        r == contribution_outcome(*contribution, *route, *descriptor, *request),
{
    if !config_ref_eq(&contribution.config_ref, &request.config_ref) || !id_eq(
        &contribution.request_id,
        &request.request_id,
    ) || !id_eq(&contribution.request_digest, &request.digest) || !bytes_eq(
        contribution.recovery_recipient_key.as_slice(),
        request.recovery_recipient_key.as_slice(),
    ) || !id_eq(&contribution.nonce, &request.nonce) || contribution.guardian_index
        != route.guardian_index {
        return Err(ClientRecoveryError::TranscriptMismatch);
    }
    if !contribution.signature_verified {
        return Err(ClientRecoveryError::BadSignature);
    }
    if !descriptor_has(descriptor, contribution.guardian_index) {
        return Err(ClientRecoveryError::OutsideDescriptor);
    }
    if !contribution.inclusion_verified {
        return Err(ClientRecoveryError::InclusionNotProven);
    }
    match contribution.share_participant {
        None => Err(ClientRecoveryError::ShareRejected),
        Some(p) => if p != contribution.guardian_index {
            Err(ClientRecoveryError::WrongParticipant)
        } else if !contribution.fragment_opened {
            Err(ClientRecoveryError::FragmentRejected)
        } else {
            Ok(())
        },
    }
}

/// One counted guardian contribution: whose share, and which fragment.
#[derive(Clone, Copy, Debug, PartialEq, Eq)]
pub struct CountedShare {
    pub guardian_index: u16,
    pub fragment_index: u16,
}

/// What the client holds while collecting guardian contributions.
#[derive(Clone, Debug)]
pub struct GuardianCollection {
    /// Contributions counted toward the guardian threshold, in order.
    pub counted: Vec<CountedShare>,
    /// Guardians whose answer was missing, of the wrong kind, or refused.
    pub rejected: Vec<u16>,
}

/// An empty collection.
pub fn new_guardian_collection() -> (c: GuardianCollection)
    ensures
        c.counted@.len() == 0,
        c.rejected@.len() == 0,
{
    GuardianCollection { counted: Vec::new(), rejected: Vec::new() }
}

/// The collection after the answer of the descriptor's `k`-th route: an
/// acceptable contribution is counted, anything else rejects that guardian.
pub open spec fn collection_after(
    collection: GuardianCollection,
    k: int,
    answer: Option<GuardianRecoveryContributionV3>,
    descriptor: RecoveryDescriptorV3,
    request: RecoveryRequestV3,
) -> (Seq<CountedShare>, Seq<u16>) {
    let route = descriptor.guardians@[k];
    match answer {
        Some(c) => if contribution_outcome(c, route, descriptor, request) is Ok {
            (
                collection.counted@.push(
                    CountedShare { guardian_index: c.guardian_index, fragment_index: c.fragment_index },
                ),
                collection.rejected@,
            )
        } else {
            (collection.counted@, collection.rejected@.push(route.guardian_index))
        },
        None => (collection.counted@, collection.rejected@.push(route.guardian_index)),
    }
}

/// Every counted share is from one of the first `k` routes and no
/// guardian is counted twice.
pub open spec fn counted_from_routes_before(
    counted: Seq<CountedShare>,
    descriptor: RecoveryDescriptorV3,
    k: int,
) -> bool {
    &&& forall|i: int|
        0 <= i < counted.len() ==> exists|m: int|
            0 <= m < k && m < descriptor.guardians@.len() && (#[trigger] descriptor.guardians@[m]).guardian_index
                == (#[trigger] counted[i]).guardian_index
    &&& forall|i: int, j: int|
        0 <= i < j < counted.len() ==> (#[trigger] counted[i]).guardian_index
            != (#[trigger] counted[j]).guardian_index
}

/// Takes the answer of the descriptor's `k`-th guardian route to a Release
/// into the collection; returns whether it was counted and whether the
/// capsule's guardian threshold is now held. The caller asks the routes in
/// descriptor order and keeps the decrypted share and fragment of a
/// counted answer.
pub fn admit_guardian_contribution(
    collection: &mut GuardianCollection,
    descriptor: &RecoveryDescriptorV3,
    k: usize,
    answer: Option<GuardianRecoveryContributionV3>,
    capsule: &ConfigCapsuleV3,
    request: &RecoveryRequestV3,
) -> (r: (bool, bool))
    requires
        k < descriptor.guardians@.len(),
    ensures
        (final(collection).counted@, final(collection).rejected@) == collection_after(
            *old(collection),
            k as int,
            answer,
            *descriptor,
            *request,
        ),
        r.0 == (final(collection).counted@.len() == old(collection).counted@.len() + 1),
        r.1 == (final(collection).counted@.len() >= capsule.guardian_threshold),
        guardian_indices_distinct(descriptor.guardians@) && counted_from_routes_before(
            old(collection).counted@,
            *descriptor,
            k as int,
        ) ==> counted_from_routes_before(final(collection).counted@, *descriptor, k + 1),
{
    let ghost before = collection.counted@;
    let route = &descriptor.guardians[k];
    let mut kept = false;
    match answer {
        Some(c) => {
            if validate_guardian_contribution_v3(&c, route, descriptor, request).is_ok() {
                collection.counted.push(
                    CountedShare { guardian_index: c.guardian_index, fragment_index: c.fragment_index },
                );
                kept = true;
            } else {
                collection.rejected.push(route.guardian_index);
            }
        },
        None => {
            collection.rejected.push(route.guardian_index);
        },
    }
    proof {
        let routes = descriptor.guardians@;
        let counted = collection.counted@;
        if guardian_indices_distinct(routes) && counted_from_routes_before(before, *descriptor, k as int) {
            assert forall|i: int| 0 <= i < counted.len() implies exists|m: int|
                0 <= m < k + 1 && m < routes.len() && (#[trigger] routes[m]).guardian_index
                    == (#[trigger] counted[i]).guardian_index by {
                if i < before.len() {
                    assert(counted[i] == before[i]);
                    let m = choose|m: int|
                        0 <= m < k && m < routes.len() && (#[trigger] routes[m]).guardian_index
                            == before[i].guardian_index;
                    assert(routes[m].guardian_index == counted[i].guardian_index);
                } else {
                    assert(routes[k as int].guardian_index == counted[i].guardian_index);
                }
            }
            assert forall|i: int, j: int| 0 <= i < j < counted.len() implies (#[trigger] counted[i]).guardian_index
                != (#[trigger] counted[j]).guardian_index by {
                if j >= before.len() {
                    assert(counted[i] == before[i]);
                    let m = choose|m: int|
                        0 <= m < k && m < routes.len() && (#[trigger] routes[m]).guardian_index
                            == before[i].guardian_index;
                    assert(routes[m].guardian_index != routes[k as int].guardian_index);
                } else {
                    assert(counted[i] == before[i] && counted[j] == before[j]);
                }
            }
        }
    }
    (kept, collection.counted.len() >= capsule.guardian_threshold as usize)
}

/// Outcome of the collection once every route was asked.
pub fn require_guardian_threshold(collection: &GuardianCollection, capsule: &ConfigCapsuleV3) -> (r:
    Result<(), ClientRecoveryError>)
    ensures
        r is Ok <==> collection.counted@.len() >= capsule.guardian_threshold,
        r matches Err(e) ==> e == ClientRecoveryError::GuardianThresholdNotReached,
{
    if collection.counted.len() < capsule.guardian_threshold as usize {
        return Err(ClientRecoveryError::GuardianThresholdNotReached);
    }
    Ok(())
}

/// Shares the client counts come from distinct guardians of the
/// descriptor: shares counted route by route in descriptor order never name
/// one guardian twice, each names a guardian of the roster, and there are
/// no more of them than routes.
pub proof fn lemma_counted_shares_are_distinct_guardians(
    counted: Seq<CountedShare>,
    descriptor: RecoveryDescriptorV3,
    k: int,
)
    requires
        counted_from_routes_before(counted, descriptor, k),
    ensures
        forall|i: int, j: int|
            0 <= i < j < counted.len() ==> counted[i].guardian_index != counted[j].guardian_index,
        forall|i: int| 0 <= i < counted.len() ==> in_descriptor(descriptor, (#[trigger] counted[i]).guardian_index),
        counted.len() <= descriptor.guardians@.len(),
{
    let routes = descriptor.guardians@;
    assert forall|i: int| 0 <= i < counted.len() implies in_descriptor(
        descriptor,
        (#[trigger] counted[i]).guardian_index,
    ) by {
        let m = choose|m: int|
            0 <= m < k && m < routes.len() && (#[trigger] routes[m]).guardian_index
                == counted[i].guardian_index;
        assert(routes[m].guardian_index == counted[i].guardian_index);
    }
    lemma_injective_into_roster(counted, descriptor);
}

/// Shares from different epochs never form one recovery set: any two
/// contributions the client accepts for one request carry the request's
/// configuration reference, hence the same guardian epoch.
pub proof fn lemma_accepted_shares_share_one_epoch(
    first: GuardianRecoveryContributionV3,
    first_route: GuardianRouteV3,
    second: GuardianRecoveryContributionV3,
    second_route: GuardianRouteV3,
    descriptor: RecoveryDescriptorV3,
    request: RecoveryRequestV3,
)
    requires
        contribution_outcome(first, first_route, descriptor, request) is Ok,
        contribution_outcome(second, second_route, descriptor, request) is Ok,
    ensures
        first.config_ref == second.config_ref,
        first.config_ref == request.config_ref,
        first.config_ref.guardian_epoch == second.config_ref.guardian_epoch,
{
}

/// A sequence of distinct guardian indices drawn from a roster is no longer
/// than the roster.
proof fn lemma_injective_into_roster(counted: Seq<CountedShare>, descriptor: RecoveryDescriptorV3)
    requires
        forall|i: int, j: int|
            0 <= i < j < counted.len() ==> (#[trigger] counted[i]).guardian_index
                != (#[trigger] counted[j]).guardian_index,
        forall|i: int|
            0 <= i < counted.len() ==> in_descriptor(descriptor, (#[trigger] counted[i]).guardian_index),
    ensures
        counted.len() <= descriptor.guardians@.len(),
{
    let routes = descriptor.guardians@;
    let index_map = Seq::new(counted.len(), |i: int| counted[i].guardian_index);
    assert(index_map.no_duplicates()) by {
        assert forall|i: int, j: int| 0 <= i < index_map.len() && 0 <= j < index_map.len() && i != j
            implies index_map[i] != index_map[j] by {
            if i < j {
                assert(counted[i].guardian_index != counted[j].guardian_index);
            } else {
                assert(counted[j].guardian_index != counted[i].guardian_index);
            }
        }
    }
    let route_ids = Seq::new(routes.len(), |m: int| routes[m].guardian_index);
    assert(index_map.to_set().subset_of(route_ids.to_set())) by {
        assert forall|x: u16| index_map.to_set().contains(x) implies route_ids.to_set().contains(x) by {
            let i = choose|i: int| 0 <= i < index_map.len() && index_map[i] == x;
            assert(counted[i].guardian_index == x);
            assert(in_descriptor(descriptor, counted[i].guardian_index));
            let m = choose|m: int|
                0 <= m < routes.len() && (#[trigger] routes[m]).guardian_index == counted[i].guardian_index;
            assert(route_ids[m] == x);
        }
    }
    index_map.unique_seq_to_set();
    route_ids.lemma_cardinality_of_set();
    vstd::set_lib::lemma_len_subset(index_map.to_set(), route_ids.to_set());
}

/// How long a witness read challenge is valid, in seconds.
pub const EPOCH_READ_LIFETIME_SECS: u64 = 60;

/// The challenge a client sends the card's witnesses at `now`: for the
/// card's configuration, under `client_nonce`, answered to `recipient_key`
/// and valid for a minute.
pub open spec fn read_challenge_for(
    c: EpochReadChallenge,
    card: RecoveryCardV3,
    client_nonce: Id32,
    recipient_key: Seq<u8>,
    now: u64,
) -> bool {
    &&& c.protocol_version == PROTOCOL_VERSION_V3
    &&& c.config_id == card.config_id
    &&& c.client_nonce == client_nonce
    &&& c.response_recipient_key@ == recipient_key
    &&& c.issued_at == now
    &&& c.expiry == saturating_add(now, EPOCH_READ_LIFETIME_SECS)
    &&& c.canonical
}

/// The witness read challenge for a client nonce.
pub fn epoch_read_challenge(
    card: &RecoveryCardV3,
    client_nonce: Id32,
    recipient_key: Vec<u8>,
    now: u64,
) -> (c: EpochReadChallenge)
    ensures
        read_challenge_for(c, *card, client_nonce, recipient_key@, now),
{
    EpochReadChallenge {
        protocol_version: PROTOCOL_VERSION_V3,
        config_id: card.config_id,
        client_nonce,
        response_recipient_key: recipient_key,
        issued_at: now,
        expiry: now.saturating_add(EPOCH_READ_LIFETIME_SECS),
        canonical: true,
    }
}

/// A witness read challenge under a fresh random nonce, or `Unavailable`
/// where the system's random generator fails.
pub fn new_epoch_read_challenge(card: &RecoveryCardV3, recipient_key: Vec<u8>, now: u64) -> (r: Result<
    EpochReadChallenge,
    RandomError,
>)
    ensures
        match r {
            Ok(c) => read_challenge_for(c, *card, c.client_nonce, recipient_key@, now),
            Err(e) => e == RandomError::Unavailable,
        },
{
    let nonce = random_id()?;
    Ok(epoch_read_challenge(card, nonce, recipient_key, now))
}

} // verus!
