//! Protocol v2 (fixed guardian roster): setup policy, Config Capsule and
//! recovery request checks, and the signer, owner and guardian evidence a
//! guardian or recovery client accepts for one exact request.
use vstd::prelude::*;

use crate::bytes::{bytes_eq, id_eq, Id32};
use crate::epoch::saturating_add;
use crate::model::XWING_PUBLIC_KEY_LEN;
use crate::node::PROTOCOL_VERSION;

verus! {

/// Identifier of the protocol-v2 default cryptographic suite.
pub const DEFAULT_CRYPTO_SUITE: u16 = 1;

/// Why protocol-v2 evidence was refused.
#[derive(Debug, Clone, Copy, PartialEq, Eq)]
pub enum ProtocolError {
    /// Node counts or thresholds are inconsistent.
    InvalidSetupPolicy,
    /// The capsule does not match the card or has invalid thresholds.
    CapsuleMismatch,
    /// The request is for another configuration, malformed, not yet
    /// issued, expired, or too long-lived.
    InvalidRequest,
    /// A signer contribution or vote repeats a signer, is not bound to the
    /// exact request, is out of range, or does not verify.
    InvalidSignerApproval,
    /// Fewer distinct signer approvals than the signer threshold.
    SignerThresholdNotReached,
    /// The owner cancellation is stale, malformed or not bound to the
    /// exact request.
    InvalidOwnerCancellation,
    /// An acknowledgement or contribution is not bound to the exact request
    /// and guardian, or does not verify.
    InvalidGuardianEvidence,
}

/// The thresholds an owner chooses at setup.
#[derive(Clone, Copy, Debug)]
pub struct SetupPolicy {
    pub signer_count: u16,
    pub signer_threshold: u16,
    pub guardian_count: u16,
    pub guardian_threshold: u16,
    pub minimum_recovery_delay: u64,
}

/// The protocol-v2 Recovery Card fields a capsule is checked against.
#[derive(Clone, Debug)]
pub struct RecoveryCard {
    pub config_id: Id32,
    /// Where the config store publishes the capsule.
    pub capsule_locator: String,
    /// The signers' opaque mailboxes, in signer-id order.
    pub signer_mailboxes: Vec<String>,
    pub signer_set_commitment: Id32,
    pub owner_cancel_public_key: Id32,
}

/// A published protocol-v2 Config Capsule.
#[derive(Clone, Copy, Debug)]
pub struct ConfigCapsule {
    pub protocol_version: u16,
    pub crypto_suite: u16,
    pub config_id: Id32,
    pub config_version: u64,
    pub signer_set_commitment: Id32,
    pub owner_cancel_public_key: Id32,
    pub signer_count: u16,
    pub signer_threshold: u16,
    pub guardian_count: u16,
    pub guardian_threshold: u16,
    pub max_request_lifetime: u64,
}

/// A protocol-v2 recovery request for one fresh recipient key.
#[derive(Clone, Debug)]
pub struct RecoveryRequest {
    pub protocol_version: u16,
    pub crypto_suite: u16,
    pub config_id: Id32,
    pub config_version: u64,
    pub request_id: Id32,
    pub recovery_recipient_key: Vec<u8>,
    pub requested_at: u64,
    pub nonce: Id32,
    pub expiry: u64,
    /// SHA-256 of the request's digest preimage.
    pub digest: Id32,
}

/// What a guardian knows of the policy it enforces.
#[derive(Clone, Copy, Debug)]
pub struct GuardianPolicy {
    pub config_id: Id32,
    pub config_version: u64,
    pub signer_set_commitment: Id32,
    pub signer_count: u16,
    pub signer_threshold: u16,
    pub owner_cancel_public_key: Id32,
    pub minimum_recovery_delay: u64,
}

/// What a signer knows of the configuration it serves.
#[derive(Clone, Copy, Debug)]
pub struct SignerPolicy {
    pub config_id: Id32,
    pub config_version: u64,
}

/// Field-by-field equality of two requests.
pub open spec fn same_request_v2(a: RecoveryRequest, b: RecoveryRequest) -> bool {
    &&& a.protocol_version == b.protocol_version
    &&& a.crypto_suite == b.crypto_suite
    &&& a.config_id == b.config_id
    &&& a.config_version == b.config_version
    &&& a.request_id == b.request_id
    &&& a.recovery_recipient_key@ == b.recovery_recipient_key@
    &&& a.requested_at == b.requested_at
    &&& a.nonce == b.nonce
    &&& a.expiry == b.expiry
    &&& a.digest == b.digest
}

/// Compares two requests.
pub fn request_v2_eq(a: &RecoveryRequest, b: &RecoveryRequest) -> (r: bool)
    ensures
        r == same_request_v2(*a, *b),
{
    a.protocol_version == b.protocol_version && a.crypto_suite == b.crypto_suite && id_eq(
        &a.config_id,
        &b.config_id,
    ) && a.config_version == b.config_version && id_eq(&a.request_id, &b.request_id) && bytes_eq(
        a.recovery_recipient_key.as_slice(),
        b.recovery_recipient_key.as_slice(),
    ) && a.requested_at == b.requested_at && id_eq(&a.nonce, &b.nonce) && a.expiry == b.expiry
        && id_eq(&a.digest, &b.digest)
}

/// The setup policy has as many nodes as each count and thresholds in
/// `1..=count`.
pub open spec fn setup_policy_ok(policy: SetupPolicy, signers: nat, guardians: nat) -> bool {
    &&& signers == policy.signer_count
    &&& guardians == policy.guardian_count
    &&& 1 <= policy.signer_threshold <= policy.signer_count
    &&& 1 <= policy.guardian_threshold <= policy.guardian_count
}

/// Checks a setup policy against the signer and guardian mailboxes it will
/// be provisioned on.
pub fn validate_setup_policy(
    policy: &SetupPolicy,
    signer_mailboxes: &Vec<String>,
    guardian_mailboxes: &Vec<String>,
) -> (r: Result<(), ProtocolError>)
    ensures
        r is Ok <==> setup_policy_ok(*policy, signer_mailboxes@.len(), guardian_mailboxes@.len()),
        r matches Err(e) ==> e == ProtocolError::InvalidSetupPolicy,
{
    if signer_mailboxes.len() != policy.signer_count as usize || guardian_mailboxes.len()
        != policy.guardian_count as usize || policy.signer_threshold == 0 || policy.signer_threshold
        > policy.signer_count || policy.guardian_threshold == 0 || policy.guardian_threshold
        > policy.guardian_count {
        return Err(ProtocolError::InvalidSetupPolicy);
    }
    Ok(())
}

/// The capsule matches the card and has consistent thresholds.
pub open spec fn capsule_ok(card: RecoveryCard, capsule: ConfigCapsule) -> bool {
    &&& capsule.protocol_version == PROTOCOL_VERSION
    &&& capsule.crypto_suite == DEFAULT_CRYPTO_SUITE
    &&& capsule.config_id == card.config_id
    &&& capsule.signer_set_commitment == card.signer_set_commitment
    &&& capsule.owner_cancel_public_key == card.owner_cancel_public_key
    &&& 1 <= capsule.signer_threshold <= capsule.signer_count
    &&& 1 <= capsule.guardian_threshold <= capsule.guardian_count
}

/// Checks a Config Capsule against the Recovery Card.
pub fn validate_capsule(card: &RecoveryCard, capsule: &ConfigCapsule) -> (r: Result<(), ProtocolError>)
    ensures
        r is Ok <==> capsule_ok(*card, *capsule),
        r matches Err(e) ==> e == ProtocolError::CapsuleMismatch,
{
    if capsule.protocol_version != PROTOCOL_VERSION || capsule.crypto_suite != DEFAULT_CRYPTO_SUITE
        || !id_eq(&capsule.config_id, &card.config_id) || !id_eq(
        &capsule.signer_set_commitment,
        &card.signer_set_commitment,
    ) || !id_eq(&capsule.owner_cancel_public_key, &card.owner_cancel_public_key)
        || capsule.signer_count == 0 || capsule.signer_threshold == 0 || capsule.signer_threshold
        > capsule.signer_count || capsule.guardian_count == 0 || capsule.guardian_threshold == 0
        || capsule.guardian_threshold > capsule.guardian_count {
        return Err(ProtocolError::CapsuleMismatch);
    }
    Ok(())
}

/// The request is for the capsule's configuration, names an X-Wing
/// recipient, is current at `now`, and lives no longer than allowed.
pub open spec fn request_ok(request: RecoveryRequest, capsule: ConfigCapsule, now: u64) -> bool {
    &&& request.protocol_version == PROTOCOL_VERSION
    &&& request.crypto_suite == capsule.crypto_suite
    &&& request.config_id == capsule.config_id
    &&& request.config_version == capsule.config_version
    &&& request.recovery_recipient_key@.len() == XWING_PUBLIC_KEY_LEN
    &&& request.requested_at <= now
    &&& now < request.expiry
    &&& request.expiry <= saturating_add(request.requested_at, capsule.max_request_lifetime)
}

/// Checks a recovery request against the Config Capsule.
pub fn validate_request(
    request: &RecoveryRequest,
    capsule: &ConfigCapsule,
    now: u64,
) -> (r: Result<(), ProtocolError>)
    ensures
        r is Ok <==> request_ok(*request, *capsule, now),
        r matches Err(e) ==> e == ProtocolError::InvalidRequest,
{
    if request.protocol_version != PROTOCOL_VERSION || request.crypto_suite != capsule.crypto_suite
        || !id_eq(&request.config_id, &capsule.config_id) || request.config_version
        != capsule.config_version || request.recovery_recipient_key.len() != XWING_PUBLIC_KEY_LEN
        || request.requested_at > now || request.expiry <= now || request.expiry
        > request.requested_at.saturating_add(capsule.max_request_lifetime) {
        return Err(ProtocolError::InvalidRequest);
    }
    Ok(())
}

/// The request is for the configuration `config_id`/`config_version`,
/// names an X-Wing recipient and is current at `now`.
pub open spec fn request_current(request: RecoveryRequest, config_id: Id32, config_version: u64, now: u64) -> bool {
    &&& request.protocol_version == PROTOCOL_VERSION
    &&& request.config_id == config_id
    &&& request.config_version == config_version
    &&& request.recovery_recipient_key@.len() == XWING_PUBLIC_KEY_LEN
    &&& request.requested_at <= now
    &&& now < request.expiry
}

/// Checks a request a signer is asked to approve or release.
pub fn validate_signer_request(
    policy: &SignerPolicy,
    request: &RecoveryRequest,
    now: u64,
) -> (r: Result<(), ProtocolError>)
    ensures
        r is Ok <==> request_current(*request, policy.config_id, policy.config_version, now),
        r matches Err(e) ==> e == ProtocolError::InvalidRequest,
{
    if request.protocol_version != PROTOCOL_VERSION || !id_eq(&request.config_id, &policy.config_id)
        || request.config_version != policy.config_version || request.recovery_recipient_key.len()
        != XWING_PUBLIC_KEY_LEN || request.requested_at > now || request.expiry <= now {
        return Err(ProtocolError::InvalidRequest);
    }
    Ok(())
}

/// One signer's contribution to a Begin certificate.
#[derive(Clone, Debug)]
pub struct SignerContribution {
    pub request: RecoveryRequest,
    pub signer_id: u16,
    pub signer_public_key: Id32,
    /// The Merkle proof places this key at `signer_id` under the policy's
    /// signer-set commitment.
    pub membership_verified: bool,
    /// The signature over the approval transcript verifies.
    pub signature_verified: bool,
}

/// A signer threshold's Begin certificate.
#[derive(Clone, Debug)]
pub struct BeginRecoveryCertificate {
    pub request: RecoveryRequest,
    pub signer_contributions: Vec<SignerContribution>,
}

/// Contribution `i` names the certificate's request, comes from an
/// in-range signer not seen earlier, and verifies.
pub open spec fn contribution_ok(
    policy: GuardianPolicy,
    certificate: BeginRecoveryCertificate,
    i: int,
) -> bool {
    let c = certificate.signer_contributions@;
    &&& same_request_v2(c[i].request, certificate.request)
    &&& forall|j: int| 0 <= j < i ==> (#[trigger] c[j]).signer_id != c[i].signer_id
    &&& 1 <= c[i].signer_id <= policy.signer_count
    &&& c[i].membership_verified
    &&& c[i].signature_verified
}

/// Outcome of a guardian's check of a Begin certificate.
pub open spec fn begin_for_policy_outcome(
    certificate: BeginRecoveryCertificate,
    policy: GuardianPolicy,
    now: u64,
) -> Result<(), ProtocolError> {
    if !request_current(certificate.request, policy.config_id, policy.config_version, now) {
        Err(ProtocolError::InvalidRequest)
    } else if exists|i: int|
        0 <= i < certificate.signer_contributions@.len() && !#[trigger] contribution_ok(policy, certificate, i) {
        Err(ProtocolError::InvalidSignerApproval)
    } else if certificate.signer_contributions@.len() < policy.signer_threshold {
        Err(ProtocolError::SignerThresholdNotReached)
    } else {
        Ok(())
    }
}

/// Checks a signer threshold's Begin certificate against a guardian's
/// policy.
#[verifier::loop_isolation(false)]
pub fn validate_begin_for_policy(
    certificate: &BeginRecoveryCertificate,
    policy: &GuardianPolicy,
    now: u64,
) -> (r: Result<(), ProtocolError>)
    ensures
        r == begin_for_policy_outcome(*certificate, *policy, now),
{
    let request = &certificate.request;
    if request.protocol_version != PROTOCOL_VERSION || !id_eq(&request.config_id, &policy.config_id)
        || request.config_version != policy.config_version || request.recovery_recipient_key.len()
        != XWING_PUBLIC_KEY_LEN || request.requested_at > now || request.expiry <= now {
        return Err(ProtocolError::InvalidRequest);
    }
    let contributions = &certificate.signer_contributions;
    let mut i: usize = 0;
    while i < contributions.len()
        invariant
            i <= contributions@.len(),
            forall|k: int| 0 <= k < i ==> #[trigger] contribution_ok(*policy, *certificate, k),
        decreases contributions.len() - i,
    {
        let contribution = &contributions[i];
        if !request_v2_eq(&contribution.request, request) {
            assert(!contribution_ok(*policy, *certificate, i as int));
            return Err(ProtocolError::InvalidSignerApproval);
        }
        let mut j: usize = 0;
        while j < i
            invariant
                j <= i < contributions@.len(),
                forall|k: int| 0 <= k < j ==> (#[trigger] contributions@[k]).signer_id != contribution.signer_id,
            decreases i - j,
        {
            if contributions[j].signer_id == contribution.signer_id {
                assert(!contribution_ok(*policy, *certificate, i as int));
                return Err(ProtocolError::InvalidSignerApproval);
            }
            j = j + 1;
        }
        if contribution.signer_id == 0 || contribution.signer_id > policy.signer_count
            || !contribution.membership_verified || !contribution.signature_verified {
            assert(!contribution_ok(*policy, *certificate, i as int));
            return Err(ProtocolError::InvalidSignerApproval);
        }
        assert(contribution_ok(*policy, *certificate, i as int));
        i = i + 1;
    }
    if contributions.len() < policy.signer_threshold as usize {
        return Err(ProtocolError::SignerThresholdNotReached);
    }
    Ok(())
}

/// One signer's vote to release material for a request.
#[derive(Clone, Debug)]
pub struct ReleaseVote {
    pub protocol_version: u16,
    pub config_id: Id32,
    pub config_version: u64,
    pub request_id: Id32,
    pub request_digest: Id32,
    pub recovery_recipient_key: Vec<u8>,
    pub nonce: Id32,
    pub signer_id: u16,
    pub signer_public_key: Id32,
    /// The Merkle proof places this key at `signer_id`.
    pub membership_verified: bool,
    /// The vote's signature verifies.
    pub signature_verified: bool,
}

/// A fresh signer threshold's Release certificate.
#[derive(Clone, Debug)]
pub struct ReleaseCertificate {
    pub votes: Vec<ReleaseVote>,
}

/// Vote `i` is bound to the exact request, comes from an in-range signer
/// not seen earlier, and verifies.
pub open spec fn release_vote_ok(
    policy: GuardianPolicy,
    request: RecoveryRequest,
    votes: Seq<ReleaseVote>,
    i: int,
) -> bool {
    let v = votes[i];
    &&& v.protocol_version == PROTOCOL_VERSION
    &&& v.config_id == request.config_id
    &&& v.config_version == request.config_version
    &&& v.request_id == request.request_id
    &&& v.request_digest == request.digest
    &&& v.recovery_recipient_key@ == request.recovery_recipient_key@
    &&& v.nonce == request.nonce
    &&& forall|j: int| 0 <= j < i ==> (#[trigger] votes[j]).signer_id != v.signer_id
    &&& 1 <= v.signer_id <= policy.signer_count
    &&& v.membership_verified
    &&& v.signature_verified
}

/// The request is for the guardian's configuration in the default suite,
/// names an X-Wing recipient and is current.
pub open spec fn guardian_request_ok(request: RecoveryRequest, policy: GuardianPolicy, now: u64) -> bool {
    &&& request_current(request, policy.config_id, policy.config_version, now)
    &&& request.crypto_suite == DEFAULT_CRYPTO_SUITE
}

/// Outcome of a guardian's check of a Release certificate.
pub open spec fn release_for_policy_outcome(
    certificate: ReleaseCertificate,
    policy: GuardianPolicy,
    request: RecoveryRequest,
    now: u64,
) -> Result<(), ProtocolError> {
    if !guardian_request_ok(request, policy, now) {
        Err(ProtocolError::InvalidRequest)
    } else if exists|i: int|
        0 <= i < certificate.votes@.len() && !#[trigger] release_vote_ok(policy, request, certificate.votes@, i) {
        Err(ProtocolError::InvalidSignerApproval)
    } else if certificate.votes@.len() < policy.signer_threshold {
        Err(ProtocolError::SignerThresholdNotReached)
    } else {
        Ok(())
    }
}

/// Checks a fresh signer threshold's Release of the exact request.
#[verifier::loop_isolation(false)]
pub fn validate_release_for_policy(
    certificate: &ReleaseCertificate,
    policy: &GuardianPolicy,
    request: &RecoveryRequest,
    now: u64,
) -> (r: Result<(), ProtocolError>)
    ensures
        r == release_for_policy_outcome(*certificate, *policy, *request, now),
{
    if request.protocol_version != PROTOCOL_VERSION || request.crypto_suite != DEFAULT_CRYPTO_SUITE
        || !id_eq(&request.config_id, &policy.config_id) || request.config_version
        != policy.config_version || request.recovery_recipient_key.len() != XWING_PUBLIC_KEY_LEN
        || request.requested_at > now || request.expiry <= now {
        return Err(ProtocolError::InvalidRequest);
    }
    let votes = &certificate.votes;
    let mut i: usize = 0;
    while i < votes.len()
        invariant
            i <= votes@.len(),
            forall|k: int| 0 <= k < i ==> #[trigger] release_vote_ok(*policy, *request, votes@, k),
        decreases votes.len() - i,
    {
        let vote = &votes[i];
        let mut duplicate = false;
        let mut j: usize = 0;
        while j < i
            invariant
                j <= i < votes@.len(),
                duplicate == exists|k: int| 0 <= k < j && (#[trigger] votes@[k]).signer_id == vote.signer_id,
            decreases i - j,
        {
            if votes[j].signer_id == vote.signer_id {
                duplicate = true;
            }
            j = j + 1;
        }
        if vote.protocol_version != PROTOCOL_VERSION || !id_eq(&vote.config_id, &request.config_id)
            || vote.config_version != request.config_version || !id_eq(&vote.request_id, &request.request_id)
            || !id_eq(&vote.request_digest, &request.digest) || !bytes_eq(
            vote.recovery_recipient_key.as_slice(),
            request.recovery_recipient_key.as_slice(),
        ) || !id_eq(&vote.nonce, &request.nonce) || duplicate || vote.signer_id == 0
            || vote.signer_id > policy.signer_count || !vote.membership_verified
            || !vote.signature_verified {
            assert(!release_vote_ok(*policy, *request, votes@, i as int));
            return Err(ProtocolError::InvalidSignerApproval);
        }
        assert(release_vote_ok(*policy, *request, votes@, i as int));
        i = i + 1;
    }
    if votes.len() < policy.signer_threshold as usize {
        return Err(ProtocolError::SignerThresholdNotReached);
    }
    Ok(())
}

/// The owner's hard cancellation of one exact request.
#[derive(Clone, Debug)]
pub struct OwnerCancelCertificate {
    pub protocol_version: u16,
    pub config_id: Id32,
    pub config_version: u64,
    pub request_id: Id32,
    pub request_digest: Id32,
    pub recovery_recipient_key: Vec<u8>,
    pub cancel_response_recipient_key: Vec<u8>,
    pub reason_code: u16,
    pub nonce: Id32,
    pub issued_at: u64,
    pub owner_cancel_public_key: Id32,
    /// SHA-256 of the certificate's canonical transcript.
    pub transcript_hash: Id32,
    /// The owner's signature over the transcript verifies under the
    /// policy's owner key.
    pub signature_verified: bool,
}

/// The cancellation is bound to the exact current request and issued
/// during its life, under the policy's owner key.
pub open spec fn owner_cancel_ok(
    certificate: OwnerCancelCertificate,
    policy: GuardianPolicy,
    request: RecoveryRequest,
    now: u64,
) -> bool {
    &&& guardian_request_ok(request, policy, now)
    &&& certificate.protocol_version == PROTOCOL_VERSION
    &&& certificate.config_id == request.config_id
    &&& certificate.config_version == request.config_version
    &&& certificate.request_id == request.request_id
    &&& certificate.request_digest == request.digest
    &&& certificate.recovery_recipient_key@ == request.recovery_recipient_key@
    &&& certificate.cancel_response_recipient_key@.len() == XWING_PUBLIC_KEY_LEN
    &&& certificate.nonce == request.nonce
    &&& request.requested_at <= certificate.issued_at
    &&& certificate.issued_at <= now
    &&& certificate.issued_at < request.expiry
    &&& certificate.owner_cancel_public_key == policy.owner_cancel_public_key
    &&& certificate.signature_verified
}

/// Checks the owner's hard cancellation of the exact request against a
/// guardian's policy.
pub fn validate_owner_cancel_for_policy(
    certificate: &OwnerCancelCertificate,
    policy: &GuardianPolicy,
    request: &RecoveryRequest,
    now: u64,
) -> (r: Result<(), ProtocolError>)
    ensures
        r is Ok <==> owner_cancel_ok(*certificate, *policy, *request, now),
        r matches Err(e) ==> e == ProtocolError::InvalidOwnerCancellation,
{
    if request.protocol_version != PROTOCOL_VERSION || request.crypto_suite != DEFAULT_CRYPTO_SUITE
        || !id_eq(&request.config_id, &policy.config_id) || request.config_version
        != policy.config_version || request.recovery_recipient_key.len() != XWING_PUBLIC_KEY_LEN
        || request.requested_at > now || request.expiry <= now || certificate.protocol_version
        != PROTOCOL_VERSION || !id_eq(&certificate.config_id, &request.config_id)
        || certificate.config_version != request.config_version || !id_eq(
        &certificate.request_id,
        &request.request_id,
    ) || !id_eq(&certificate.request_digest, &request.digest) || !bytes_eq(
        certificate.recovery_recipient_key.as_slice(),
        request.recovery_recipient_key.as_slice(),
    ) || certificate.cancel_response_recipient_key.len() != XWING_PUBLIC_KEY_LEN || !id_eq(
        &certificate.nonce,
        &request.nonce,
    ) || certificate.issued_at < request.requested_at || certificate.issued_at > now
        || certificate.issued_at >= request.expiry || !id_eq(
        &certificate.owner_cancel_public_key,
        &policy.owner_cancel_public_key,
    ) || !certificate.signature_verified {
        return Err(ProtocolError::InvalidOwnerCancellation);
    }
    Ok(())
}

/// A guardian's route as the owner keeps it.
#[derive(Clone, Copy, Debug)]
pub struct GuardianRoute {
    pub guardian_index: u16,
    pub guardian_public_key: Id32,
}

/// A guardian's acknowledgement of an owner cancellation.
#[derive(Clone, Copy, Debug)]
pub struct OwnerCancelAck {
    pub protocol_version: u16,
    pub config_id: Id32,
    pub config_version: u64,
    pub request_id: Id32,
    pub request_digest: Id32,
    pub owner_cancel_transcript_digest: Id32,
    pub guardian_index: u16,
    /// The signature verifies under the guardian's routed key.
    pub signature_verified: bool,
}

/// The acknowledgement binds the exact request, cancellation and guardian.
pub open spec fn owner_cancel_ack_ok(
    ack: OwnerCancelAck,
    certificate: OwnerCancelCertificate,
    request: RecoveryRequest,
    route: GuardianRoute,
) -> bool {
    &&& ack.protocol_version == PROTOCOL_VERSION
    &&& ack.config_id == request.config_id
    &&& ack.config_version == request.config_version
    &&& ack.request_id == request.request_id
    &&& ack.request_digest == request.digest
    &&& ack.owner_cancel_transcript_digest == certificate.transcript_hash
    &&& ack.guardian_index == route.guardian_index
    &&& ack.signature_verified
}

/// Checks a guardian's acknowledgement of the owner's cancellation.
pub fn validate_owner_cancel_ack(
    ack: &OwnerCancelAck,
    certificate: &OwnerCancelCertificate,
    request: &RecoveryRequest,
    route: &GuardianRoute,
) -> (r: Result<(), ProtocolError>)
    ensures
        r is Ok <==> owner_cancel_ack_ok(*ack, *certificate, *request, *route),
        r matches Err(e) ==> e == ProtocolError::InvalidGuardianEvidence,
{
    if ack.protocol_version != PROTOCOL_VERSION || !id_eq(&ack.config_id, &request.config_id)
        || ack.config_version != request.config_version || !id_eq(&ack.request_id, &request.request_id)
        || !id_eq(&ack.request_digest, &request.digest) || !id_eq(
        &ack.owner_cancel_transcript_digest,
        &certificate.transcript_hash,
    ) || ack.guardian_index != route.guardian_index || !ack.signature_verified {
        return Err(ProtocolError::InvalidGuardianEvidence);
    }
    Ok(())
}

/// A guardian's released material for one request.
#[derive(Clone, Debug)]
pub struct GuardianContribution {
    pub protocol_version: u16,
    pub config_id: Id32,
    pub config_version: u64,
    pub request_id: Id32,
    pub request_digest: Id32,
    pub guardian_index: u16,
    pub ciphertext_fragment: Vec<u8>,
    /// The signature verifies under the guardian's routed key.
    pub signature_verified: bool,
    /// The Merkle path places this fragment and encrypted share at the
    /// guardian's index under the descriptor's material root.
    pub inclusion_verified: bool,
}

/// The contribution binds the exact request and guardian, verifies, and
/// is included under the material root.
pub open spec fn guardian_contribution_ok(
    contribution: GuardianContribution,
    route: GuardianRoute,
    request: RecoveryRequest,
) -> bool {
    &&& contribution.protocol_version == PROTOCOL_VERSION
    &&& contribution.config_id == request.config_id
    &&& contribution.config_version == request.config_version
    &&& contribution.request_id == request.request_id
    &&& contribution.request_digest == request.digest
    &&& contribution.guardian_index == route.guardian_index
    &&& contribution.signature_verified
    &&& contribution.inclusion_verified
}

/// Checks that a guardian's contribution is bound to the exact request and
/// guardian, is signed by it, and is included under the committed material
/// root; only then may the caller open the encrypted share.
pub fn validate_guardian_contribution(
    contribution: &GuardianContribution,
    route: &GuardianRoute,
    request: &RecoveryRequest,
) -> (r: Result<(), ProtocolError>)
    ensures
        r is Ok <==> guardian_contribution_ok(*contribution, *route, *request),
        r matches Err(e) ==> e == ProtocolError::InvalidGuardianEvidence,
{
    if contribution.protocol_version != PROTOCOL_VERSION || !id_eq(
        &contribution.config_id,
        &request.config_id,
    ) || contribution.config_version != request.config_version || !id_eq(
        &contribution.request_id,
        &request.request_id,
    ) || !id_eq(&contribution.request_digest, &request.digest) || contribution.guardian_index
        != route.guardian_index || !contribution.signature_verified || !contribution.inclusion_verified {
        return Err(ProtocolError::InvalidGuardianEvidence);
    }
    Ok(())
}

} // verus!
