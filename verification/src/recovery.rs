//! Protocol-v3 recovery: exact requests, signer and owner certificates, and
//! the guardian and signer recovery actors' decisions.
//!
//! A guardian accepts a new Begin only for its ACTIVE record; after an
//! activation it finishes only requests that were pending when its
//! predecessor epoch entered DRAINING.
use vstd::prelude::*;

use crate::bytes::{bytes_eq, id_eq, Id32};
use crate::epoch::{latest_epoch_choice, saturating_add, select_latest_epoch_v3, EpochError};
use crate::model::{
    config_ref_eq, same_capsule, ConfigCapsuleV3, ConfigRef, EpochReadChallenge, RecoveryCardV3,
    WitnessReadEnvelope, PROTOCOL_VERSION_V3, XWING_PUBLIC_KEY_LEN,
};

verus! {

/// An exact recovery request for one fresh recipient key.
#[derive(Clone, Debug)]
pub struct RecoveryRequestV3 {
    pub protocol_version: u16,
    pub config_ref: ConfigRef,
    pub request_id: Id32,
    pub recovery_recipient_key: Vec<u8>,
    pub requested_at: u64,
    pub nonce: Id32,
    pub expiry: u64,
    /// SHA-256 of the request's canonical digest transcript.
    pub digest: Id32,
}

/// Field-by-field equality of two requests.
pub open spec fn same_request(a: RecoveryRequestV3, b: RecoveryRequestV3) -> bool {
    &&& a.protocol_version == b.protocol_version
    &&& a.config_ref == b.config_ref
    &&& a.request_id == b.request_id
    &&& a.recovery_recipient_key@ == b.recovery_recipient_key@
    &&& a.requested_at == b.requested_at
    &&& a.nonce == b.nonce
    &&& a.expiry == b.expiry
    &&& a.digest == b.digest
}

/// Compares two requests.
pub fn request_eq(a: &RecoveryRequestV3, b: &RecoveryRequestV3) -> (r: bool)
    ensures
        r == same_request(*a, *b),
{
    a.protocol_version == b.protocol_version && config_ref_eq(&a.config_ref, &b.config_ref)
        && id_eq(&a.request_id, &b.request_id) && bytes_eq(
        a.recovery_recipient_key.as_slice(),
        b.recovery_recipient_key.as_slice(),
    ) && a.requested_at == b.requested_at && id_eq(&a.nonce, &b.nonce) && a.expiry == b.expiry
        && id_eq(&a.digest, &b.digest)
}

/// Copies a request.
pub fn clone_request(a: &RecoveryRequestV3) -> (r: RecoveryRequestV3)
    ensures
        same_request(r, *a),
{
    RecoveryRequestV3 {
        protocol_version: a.protocol_version,
        config_ref: a.config_ref,
        request_id: a.request_id,
        recovery_recipient_key: a.recovery_recipient_key.clone(),
        requested_at: a.requested_at,
        nonce: a.nonce,
        expiry: a.expiry,
        digest: a.digest,
    }
}

/// Why a recovery request or certificate was refused.
#[derive(Debug, Clone, Copy, PartialEq, Eq)]
pub enum RecoveryError {
    /// Wrong protocol version or recipient key length.
    MalformedRequest,
    /// The request names another epoch, is not yet issued or expired, or
    /// outlives the capsule's request lifetime.
    InvalidRequest,
    /// The certificate has no canonical encoding.
    CertificateNotCanonical,
    /// The certificate carries another request digest.
    DigestMismatch,
    /// A signer approval repeats a signer, names another request, is out of
    /// range, or its membership proof or signature does not verify.
    InvalidSignerApproval,
    /// Fewer distinct signer approvals than the signer threshold.
    SignerThresholdNotReached,
    /// The owner cancellation names another request or key, or its
    /// signature does not verify.
    InvalidOwnerCancellation,
    /// The guardian has no ACTIVE record.
    NoActiveAuthority,
    /// A new Begin names an epoch other than the guardian's ACTIVE one.
    NotActiveEpoch,
    /// The request id was permanently cancelled by its owner.
    PermanentlyCancelled,
    /// The request id is already bound to another request or transcript.
    RequestIdLocked,
    /// The request nonce was already used by another request.
    NonceReplayed,
    /// No ACTIVE or DRAINING record exists for the request's exact epoch.
    NoRecordForEpoch,
    /// A DRAINING epoch refuses a request that began after activation.
    NotPendingAtActivation,
    /// The cancellation conflicts with the accepted request transcript.
    CancelConflict,
    /// The request's material was already released.
    CancelAfterRelease,
    /// No Begin was accepted for the request.
    NeverBegun,
    /// The Release does not match the accepted Begin.
    ReleaseMismatch,
    /// The request was cancelled or already released.
    CancelledOrReplayed,
    /// The delay has not elapsed, the request expired, or the guardian
    /// rebooted since Begin.
    DelayIncomplete,
    /// The witness challenge is not current or is bound to another
    /// recipient.
    StaleWitnessChallenge,
    /// The fresh witness read selected no epoch.
    WitnessRead(EpochError),
    /// The signer never approved this exact request.
    NotApproved,
}

/// The request is well formed, for `expected`, within the capsule's
/// configuration, issued and not expired at `now`, and no longer-lived than
/// the capsule allows.
pub open spec fn request_valid_for_ref(
    request: RecoveryRequestV3,
    capsule: ConfigCapsuleV3,
    expected: ConfigRef,
    now: u64,
) -> bool {
    &&& request.protocol_version == PROTOCOL_VERSION_V3
    &&& request.config_ref == expected
    &&& request.config_ref.config_id == capsule.config_ref.config_id
    &&& request.config_ref.payload_generation == capsule.config_ref.payload_generation
    &&& request.config_ref.authorization_epoch == capsule.config_ref.authorization_epoch
    &&& request.recovery_recipient_key@.len() == XWING_PUBLIC_KEY_LEN
    &&& request.requested_at <= now
    &&& now < request.expiry
    &&& request.expiry <= saturating_add(request.requested_at, capsule.max_request_lifetime)
}

/// Checks a request against the expected configuration reference and the
/// capsule, and returns its digest.
pub fn validate_recovery_request_for_ref_v3(
    request: &RecoveryRequestV3,
    capsule: &ConfigCapsuleV3,
    expected_config_ref: &ConfigRef,
    now: u64,
) -> (r: Result<Id32, RecoveryError>)
    ensures
        r == if request_valid_for_ref(*request, *capsule, *expected_config_ref, now) {
            Ok::<Id32, RecoveryError>(request.digest)
        } else {
            Err(RecoveryError::InvalidRequest)
        },
{
    if request.protocol_version != PROTOCOL_VERSION_V3 || !config_ref_eq(
        &request.config_ref,
        expected_config_ref,
    ) || !id_eq(&request.config_ref.config_id, &capsule.config_ref.config_id)
        || request.config_ref.payload_generation != capsule.config_ref.payload_generation
        || request.config_ref.authorization_epoch != capsule.config_ref.authorization_epoch
        || request.recovery_recipient_key.len() != XWING_PUBLIC_KEY_LEN || request.requested_at
        > now || request.expiry <= now || request.expiry > request.requested_at.saturating_add(
        capsule.max_request_lifetime,
    ) {
        return Err(RecoveryError::InvalidRequest);
    }
    Ok(request.digest)
}

/// Checks a request for the capsule's own epoch and returns its digest.
pub fn validate_recovery_request_v3(
    request: &RecoveryRequestV3,
    capsule: &ConfigCapsuleV3,
    now: u64,
) -> (r: Result<Id32, RecoveryError>)
    ensures
        r == if request_valid_for_ref(*request, *capsule, capsule.config_ref, now) {
            Ok::<Id32, RecoveryError>(request.digest)
        } else {
            Err(RecoveryError::InvalidRequest)
        },
{
    validate_recovery_request_for_ref_v3(request, capsule, &capsule.config_ref, now)
}

/// One signer's approval of a request: a Begin contribution or a Release
/// vote.
#[derive(Clone, Debug)]
pub struct SignerRecoveryApprovalV3 {
    pub request: RecoveryRequestV3,
    pub signer_id: u16,
    pub signer_public_key: Id32,
    /// The Merkle proof places this key at `signer_id` under the capsule's
    /// signer-set commitment.
    pub membership_verified: bool,
    /// The signature over the approval's transcript verifies.
    pub signature_verified: bool,
}

/// A signer threshold's Begin certificate for one request.
#[derive(Clone, Debug)]
pub struct BeginRecoveryCertificateV3 {
    pub request: RecoveryRequestV3,
    pub request_digest: Id32,
    pub signer_contributions: Vec<SignerRecoveryApprovalV3>,
    /// The certificate has a canonical transcript encoding.
    pub canonical: bool,
}

/// A fresh signer threshold's Release certificate for one request.
#[derive(Clone, Debug)]
pub struct RecoveryReleaseCertificateV3 {
    pub request: RecoveryRequestV3,
    pub request_digest: Id32,
    pub votes: Vec<SignerRecoveryApprovalV3>,
    /// The certificate has a canonical transcript encoding.
    pub canonical: bool,
}

/// The owner's hard cancellation of one exact request.
#[derive(Clone, Debug)]
pub struct OwnerRecoveryCancelCertificateV3 {
    pub request: RecoveryRequestV3,
    pub request_digest: Id32,
    /// The X-Wing key the guardian's acknowledgement is sealed to.
    pub cancel_response_recipient_key: Vec<u8>,
    pub owner_cancel_public_key: Id32,
    /// The certificate encodes canonically and the owner's signature over
    /// it verifies.
    pub signature_verified: bool,
}

/// Approval `i` names `request`, comes from an in-range signer not seen
/// earlier, and its membership proof and signature verify.
pub open spec fn approval_ok(
    capsule: ConfigCapsuleV3,
    request: RecoveryRequestV3,
    approvals: Seq<SignerRecoveryApprovalV3>,
    i: int,
) -> bool {
    &&& same_request(approvals[i].request, request)
    &&& forall|j: int| 0 <= j < i ==> (#[trigger] approvals[j]).signer_id != approvals[i].signer_id
    &&& 1 <= approvals[i].signer_id <= capsule.signer_count
    &&& approvals[i].membership_verified
    &&& approvals[i].signature_verified
}

/// Outcome of checking a list of signer approvals of `request`.
pub open spec fn approvals_outcome(
    capsule: ConfigCapsuleV3,
    request: RecoveryRequestV3,
    approvals: Seq<SignerRecoveryApprovalV3>,
) -> Result<(), RecoveryError> {
    if exists|i: int| 0 <= i < approvals.len() && !#[trigger] approval_ok(capsule, request, approvals, i) {
        Err(RecoveryError::InvalidSignerApproval)
    } else if approvals.len() < capsule.signer_threshold {
        Err(RecoveryError::SignerThresholdNotReached)
    } else {
        Ok(())
    }
}

/// Checks that every approval is acceptable and that a signer threshold
/// approved.
#[verifier::loop_isolation(false)]
fn check_signer_approvals(
    capsule: &ConfigCapsuleV3,
    request: &RecoveryRequestV3,
    approvals: &Vec<SignerRecoveryApprovalV3>,
) -> (r: Result<(), RecoveryError>)
    ensures
        r == approvals_outcome(*capsule, *request, approvals@),
{
    let mut i: usize = 0;
    while i < approvals.len()
        invariant
            i <= approvals@.len(),
            forall|k: int| 0 <= k < i ==> #[trigger] approval_ok(*capsule, *request, approvals@, k),
        decreases approvals.len() - i,
    {
        let approval = &approvals[i];
        if !request_eq(&approval.request, request) || approval.signer_id == 0 || approval.signer_id
            > capsule.signer_count || !approval.membership_verified || !approval.signature_verified {
            assert(!approval_ok(*capsule, *request, approvals@, i as int));
            return Err(RecoveryError::InvalidSignerApproval);
        }
        let mut j: usize = 0;
        while j < i
            invariant
                j <= i < approvals@.len(),
                forall|k: int| 0 <= k < j ==> (#[trigger] approvals@[k]).signer_id != approval.signer_id,
            decreases i - j,
        {
            if approvals[j].signer_id == approval.signer_id {
                assert(!approval_ok(*capsule, *request, approvals@, i as int));
                return Err(RecoveryError::InvalidSignerApproval);
            }
            j = j + 1;
        }
        assert(approval_ok(*capsule, *request, approvals@, i as int));
        i = i + 1;
    }
    if approvals.len() < capsule.signer_threshold as usize {
        return Err(RecoveryError::SignerThresholdNotReached);
    }
    Ok(())
}

/// Outcome of checking a Begin certificate: its request's digest, or why
/// it was refused.
pub open spec fn begin_certificate_outcome(
    certificate: BeginRecoveryCertificateV3,
    capsule: ConfigCapsuleV3,
    now: u64,
) -> Result<Id32, RecoveryError> {
    if !request_valid_for_ref(certificate.request, capsule, capsule.config_ref, now) {
        Err(RecoveryError::InvalidRequest)
    } else if !certificate.canonical {
        Err(RecoveryError::CertificateNotCanonical)
    } else if certificate.request_digest != certificate.request.digest {
        Err(RecoveryError::DigestMismatch)
    } else {
        match approvals_outcome(capsule, certificate.request, certificate.signer_contributions@) {
            Err(e) => Err(e),
            Ok(_) => Ok(certificate.request.digest),
        }
    }
}

/// Checks a signer threshold's Begin certificate for the capsule's epoch
/// and returns the request digest.
pub fn validate_begin_recovery_certificate_v3(
    certificate: &BeginRecoveryCertificateV3,
    capsule: &ConfigCapsuleV3,
    now: u64,
) -> (r: Result<Id32, RecoveryError>)
    ensures
        r == begin_certificate_outcome(*certificate, *capsule, now),
{
    let digest = validate_recovery_request_v3(&certificate.request, capsule, now)?;
    if !certificate.canonical {
        return Err(RecoveryError::CertificateNotCanonical);
    }
    if !id_eq(&certificate.request_digest, &digest) {
        return Err(RecoveryError::DigestMismatch);
    }
    check_signer_approvals(capsule, &certificate.request, &certificate.signer_contributions)?;
    Ok(digest)
}

/// Outcome of checking a Release certificate for `expected`.
pub open spec fn release_certificate_outcome(
    certificate: RecoveryReleaseCertificateV3,
    capsule: ConfigCapsuleV3,
    expected: ConfigRef,
    now: u64,
) -> Result<Id32, RecoveryError> {
    if !request_valid_for_ref(certificate.request, capsule, expected, now) {
        Err(RecoveryError::InvalidRequest)
    } else if !certificate.canonical {
        Err(RecoveryError::CertificateNotCanonical)
    } else if certificate.request_digest != certificate.request.digest {
        Err(RecoveryError::DigestMismatch)
    } else {
        match approvals_outcome(capsule, certificate.request, certificate.votes@) {
            Err(e) => Err(e),
            Ok(_) => Ok(certificate.request.digest),
        }
    }
}

/// Checks a fresh signer threshold's Release certificate for the expected
/// epoch and returns the request digest.
pub fn validate_recovery_release_certificate_for_ref_v3(
    certificate: &RecoveryReleaseCertificateV3,
    capsule: &ConfigCapsuleV3,
    expected_config_ref: &ConfigRef,
    now: u64,
) -> (r: Result<Id32, RecoveryError>)
    ensures
        r == release_certificate_outcome(*certificate, *capsule, *expected_config_ref, now),
{
    let digest = validate_recovery_request_for_ref_v3(
        &certificate.request,
        capsule,
        expected_config_ref,
        now,
    )?;
    if !certificate.canonical {
        return Err(RecoveryError::CertificateNotCanonical);
    }
    if !id_eq(&certificate.request_digest, &digest) {
        return Err(RecoveryError::DigestMismatch);
    }
    check_signer_approvals(capsule, &certificate.request, &certificate.votes)?;
    Ok(digest)
}

/// Outcome of checking an owner cancellation of `request`.
pub open spec fn owner_cancel_outcome(
    certificate: OwnerRecoveryCancelCertificateV3,
    request: RecoveryRequestV3,
    capsule: ConfigCapsuleV3,
    expected: ConfigRef,
    now: u64,
) -> Result<Id32, RecoveryError> {
    if !request_valid_for_ref(request, capsule, expected, now) {
        Err(RecoveryError::InvalidRequest)
    } else if !same_request(certificate.request, request) || certificate.request_digest
        != request.digest || certificate.owner_cancel_public_key != capsule.owner_cancel_public_key
        || !certificate.signature_verified {
        Err(RecoveryError::InvalidOwnerCancellation)
    } else {
        Ok(request.digest)
    }
}

/// Checks the owner's hard cancellation of the exact request under the
/// capsule's pinned owner key and returns the request digest.
pub fn validate_owner_recovery_cancel_for_ref_v3(
    certificate: &OwnerRecoveryCancelCertificateV3,
    request: &RecoveryRequestV3,
    capsule: &ConfigCapsuleV3,
    expected_config_ref: &ConfigRef,
    now: u64,
) -> (r: Result<Id32, RecoveryError>)
    ensures
        r == owner_cancel_outcome(*certificate, *request, *capsule, *expected_config_ref, now),
{
    let digest = validate_recovery_request_for_ref_v3(request, capsule, expected_config_ref, now)?;
    if !request_eq(&certificate.request, request) || !id_eq(&certificate.request_digest, &digest)
        || !id_eq(&certificate.owner_cancel_public_key, &capsule.owner_cancel_public_key)
        || !certificate.signature_verified {
        return Err(RecoveryError::InvalidOwnerCancellation);
    }
    Ok(digest)
}


/// A guardian's custody record for one exact epoch.
#[derive(Clone, Copy, Debug)]
pub struct GuardianRecordV3 {
    pub config_ref: ConfigRef,
    pub minimum_recovery_delay: u64,
    pub guardian_index: u16,
    pub fragment_index: u16,
}

/// A predecessor epoch that only finishes the requests that were pending
/// when it stopped being ACTIVE.
#[derive(Clone, Debug)]
pub struct DrainingEpochV3 {
    pub guardian_epoch: u64,
    pub record: GuardianRecordV3,
    pub pending_request_ids: Vec<Id32>,
}

/// The owner's permanent cancellation of one request id.
#[derive(Clone, Copy, Debug)]
pub struct CancellationTombstone {
    pub request_id: Id32,
    pub request_digest: Id32,
}

/// A request whose Begin this guardian accepted.
#[derive(Clone, Debug)]
pub struct PendingRecoveryV3 {
    pub request: RecoveryRequestV3,
    pub request_digest: Id32,
    pub accepted_wall_time: u64,
    pub started_monotonic: u64,
    pub not_before_monotonic: u64,
    pub boot_id: String,
    pub cancelled: bool,
    pub released: bool,
}

/// The recovery-relevant state of one guardian.
#[derive(Clone, Debug)]
pub struct GuardianRecoveryStateV3 {
    /// The capsule that recovery certificates are checked against.
    pub predecessor_capsule: ConfigCapsuleV3,
    pub active: Option<GuardianRecordV3>,
    pub draining: Vec<DrainingEpochV3>,
    pub tombstones: Vec<CancellationTombstone>,
    pub recoveries: Vec<PendingRecoveryV3>,
}

/// A Begin, owner Cancel or Release addressed to a guardian.
#[derive(Clone, Debug)]
pub enum GuardianRecoveryRequestV3 {
    Begin { certificate: BeginRecoveryCertificateV3 },
    Cancel { request: RecoveryRequestV3, certificate: OwnerRecoveryCancelCertificateV3 },
    Release { request: RecoveryRequestV3, certificate: RecoveryReleaseCertificateV3 },
}

/// The recovery request a guardian message is about.
pub open spec fn request_of(message: GuardianRecoveryRequestV3) -> RecoveryRequestV3 {
    match message {
        GuardianRecoveryRequestV3::Begin { certificate } => certificate.request,
        GuardianRecoveryRequestV3::Cancel { request, .. } => request,
        GuardianRecoveryRequestV3::Release { request, .. } => request,
    }
}

impl GuardianRecoveryRequestV3 {
    /// The recovery request this message is about.
    pub fn request(&self) -> (r: &RecoveryRequestV3)
        ensures
            *r == request_of(*self),
    {
        match self {
            GuardianRecoveryRequestV3::Begin { certificate } => &certificate.request,
            GuardianRecoveryRequestV3::Cancel { request, .. } => request,
            GuardianRecoveryRequestV3::Release { request, .. } => request,
        }
    }
}

/// The key a guardian's answer to a recovery message is sealed to: the
/// owner's cancellation key for a cancellation, the recovery recipient's
/// key otherwise.
pub open spec fn guardian_recovery_response_key_of(message: GuardianRecoveryRequestV3) -> Seq<u8> {
    match message {
        GuardianRecoveryRequestV3::Cancel { certificate, .. } => certificate.cancel_response_recipient_key@,
        _ => request_of(message).recovery_recipient_key@,
    }
}

/// The key a guardian seals its answer to a recovery message to.
pub fn guardian_recovery_response_key(message: &GuardianRecoveryRequestV3) -> (r: &Vec<u8>)
    ensures
        r@ == guardian_recovery_response_key_of(*message),
{
    match message {
        GuardianRecoveryRequestV3::Cancel { certificate, .. } => &certificate.cancel_response_recipient_key,
        _ => &message.request().recovery_recipient_key,
    }
}

/// What a guardian decided; signing and sealing are left to the caller.
#[derive(Clone, Copy, Debug)]
pub enum GuardianRecoveryDecisionV3 {
    /// Begin is (or already was) accepted; Release is possible from this
    /// monotonic time on.
    BeginAccepted { not_before_monotonic: u64 },
    /// The request is permanently cancelled; the caller signs this
    /// acknowledgement.
    Cancelled { config_ref: ConfigRef, request_id: Id32, request_digest: Id32, guardian_index: u16 },
    /// The caller returns this record's material to the request's recipient.
    Release { record: GuardianRecordV3, request_digest: Id32 },
}

/// Some accepted request has id `id`.
pub open spec fn has_pending(s: Seq<PendingRecoveryV3>, id: Id32) -> bool {
    exists|i: int| 0 <= i < s.len() && (#[trigger] s[i]).request.request_id == id
}

/// The position of the accepted request with id `id`.
pub open spec fn pending_position(s: Seq<PendingRecoveryV3>, id: Id32) -> int {
    choose|i: int| 0 <= i < s.len() && (#[trigger] s[i]).request.request_id == id
}

/// Some tombstone has id `id`.
pub open spec fn has_tombstone(s: Seq<CancellationTombstone>, id: Id32) -> bool {
    exists|i: int| 0 <= i < s.len() && (#[trigger] s[i]).request_id == id
}

/// The position of the tombstone with id `id`.
pub open spec fn tombstone_position(s: Seq<CancellationTombstone>, id: Id32) -> int {
    choose|i: int| 0 <= i < s.len() && (#[trigger] s[i]).request_id == id
}

/// Some DRAINING epoch is `epoch`.
pub open spec fn has_draining(s: Seq<DrainingEpochV3>, epoch: u64) -> bool {
    exists|i: int| 0 <= i < s.len() && (#[trigger] s[i]).guardian_epoch == epoch
}

/// The position of DRAINING epoch `epoch`.
pub open spec fn draining_position(s: Seq<DrainingEpochV3>, epoch: u64) -> int {
    choose|i: int| 0 <= i < s.len() && (#[trigger] s[i]).guardian_epoch == epoch
}

/// Some accepted request uses `nonce`.
pub open spec fn nonce_used(s: Seq<PendingRecoveryV3>, nonce: Id32) -> bool {
    exists|i: int| 0 <= i < s.len() && (#[trigger] s[i]).request.nonce == nonce
}

/// Request ids, request nonces, tombstone ids and DRAINING epochs are
/// each unique, as are the pending ids of each DRAINING epoch.
pub open spec fn recovery_records_unique(s: GuardianRecoveryStateV3) -> bool {
    &&& forall|i: int, j: int|
        0 <= i < j < s.recoveries@.len() ==> (#[trigger] s.recoveries@[i]).request.request_id
            != (#[trigger] s.recoveries@[j]).request.request_id
    &&& forall|i: int, j: int|
        0 <= i < j < s.recoveries@.len() ==> (#[trigger] s.recoveries@[i]).request.nonce
            != (#[trigger] s.recoveries@[j]).request.nonce
    &&& forall|i: int, j: int|
        0 <= i < j < s.tombstones@.len() ==> (#[trigger] s.tombstones@[i]).request_id
            != (#[trigger] s.tombstones@[j]).request_id
    &&& forall|i: int, j: int|
        0 <= i < j < s.draining@.len() ==> (#[trigger] s.draining@[i]).guardian_epoch
            != (#[trigger] s.draining@[j]).guardian_epoch
    &&& forall|i: int|
        0 <= i < s.draining@.len() ==> (#[trigger] s.draining@[i]).pending_request_ids@.no_duplicates()
}

/// A guardian's recovery state is well formed: its records are unique, and
/// every accepted request whose id carries a tombstone is marked
/// cancelled.
pub open spec fn recovery_state_wf(s: GuardianRecoveryStateV3) -> bool {
    recovery_records_unique(s) && cancellations_hold(s)
}

/// Position of the accepted request with id `id`, if any.
fn find_pending(recoveries: &Vec<PendingRecoveryV3>, id: &Id32) -> (r: Option<usize>)
    ensures
        match r {
            Some(i) => i < recoveries@.len() && recoveries@[i as int].request.request_id == *id,
            None => !has_pending(recoveries@, *id),
        },
{
    let mut i: usize = 0;
    while i < recoveries.len()
        invariant
            i <= recoveries@.len(),
            forall|k: int| 0 <= k < i ==> (#[trigger] recoveries@[k]).request.request_id != *id,
        decreases recoveries.len() - i,
    {
        if id_eq(&recoveries[i].request.request_id, id) {
            return Some(i);
        }
        i = i + 1;
    }
    None
}

/// Position of the tombstone with id `id`, if any.
fn find_tombstone(tombstones: &Vec<CancellationTombstone>, id: &Id32) -> (r: Option<usize>)
    ensures
        match r {
            Some(i) => i < tombstones@.len() && tombstones@[i as int].request_id == *id,
            None => !has_tombstone(tombstones@, *id),
        },
{
    let mut i: usize = 0;
    while i < tombstones.len()
        invariant
            i <= tombstones@.len(),
            forall|k: int| 0 <= k < i ==> (#[trigger] tombstones@[k]).request_id != *id,
        decreases tombstones.len() - i,
    {
        if id_eq(&tombstones[i].request_id, id) {
            return Some(i);
        }
        i = i + 1;
    }
    None
}

/// Position of DRAINING epoch `epoch`, if any.
fn find_draining(draining: &Vec<DrainingEpochV3>, epoch: u64) -> (r: Option<usize>)
    ensures
        match r {
            Some(i) => i < draining@.len() && draining@[i as int].guardian_epoch == epoch,
            None => !has_draining(draining@, epoch),
        },
{
    let mut i: usize = 0;
    while i < draining.len()
        invariant
            i <= draining@.len(),
            forall|k: int| 0 <= k < i ==> (#[trigger] draining@[k]).guardian_epoch != epoch,
        decreases draining.len() - i,
    {
        if draining[i].guardian_epoch == epoch {
            return Some(i);
        }
        i = i + 1;
    }
    None
}

/// Whether some accepted request uses `nonce`.
fn nonce_in_use(recoveries: &Vec<PendingRecoveryV3>, nonce: &Id32) -> (r: bool)
    ensures
        r == nonce_used(recoveries@, *nonce),
{
    let mut i: usize = 0;
    while i < recoveries.len()
        invariant
            i <= recoveries@.len(),
            forall|k: int| 0 <= k < i ==> (#[trigger] recoveries@[k]).request.nonce != *nonce,
        decreases recoveries.len() - i,
    {
        if id_eq(&recoveries[i].request.nonce, nonce) {
            return true;
        }
        i = i + 1;
    }
    false
}

/// With unique ids, the accepted request found at `i` is the one named by
/// `pending_position`.
proof fn lemma_pending_position(s: GuardianRecoveryStateV3, id: Id32, i: int)
    requires
        recovery_records_unique(s),
        0 <= i < s.recoveries@.len(),
        s.recoveries@[i].request.request_id == id,
    ensures
        has_pending(s.recoveries@, id),
        pending_position(s.recoveries@, id) == i,
{
    let p = pending_position(s.recoveries@, id);
    assert(s.recoveries@[i].request.request_id == id);
    if p < i {
        assert(s.recoveries@[p].request.request_id != s.recoveries@[i].request.request_id);
    } else if p > i {
        assert(s.recoveries@[i].request.request_id != s.recoveries@[p].request.request_id);
    }
}

/// With unique ids, the tombstone found at `i` is the one named by
/// `tombstone_position`.
proof fn lemma_tombstone_position(s: GuardianRecoveryStateV3, id: Id32, i: int)
    requires
        recovery_records_unique(s),
        0 <= i < s.tombstones@.len(),
        s.tombstones@[i].request_id == id,
    ensures
        has_tombstone(s.tombstones@, id),
        tombstone_position(s.tombstones@, id) == i,
{
    let p = tombstone_position(s.tombstones@, id);
    assert(s.tombstones@[i].request_id == id);
    if p < i {
        assert(s.tombstones@[p].request_id != s.tombstones@[i].request_id);
    } else if p > i {
        assert(s.tombstones@[i].request_id != s.tombstones@[p].request_id);
    }
}

/// With unique epochs, the DRAINING epoch found at `i` is the one named by
/// `draining_position`.
proof fn lemma_draining_position(s: GuardianRecoveryStateV3, epoch: u64, i: int)
    requires
        recovery_records_unique(s),
        0 <= i < s.draining@.len(),
        s.draining@[i].guardian_epoch == epoch,
    ensures
        has_draining(s.draining@, epoch),
        draining_position(s.draining@, epoch) == i,
{
    let p = draining_position(s.draining@, epoch);
    assert(s.draining@[i].guardian_epoch == epoch);
    if p < i {
        assert(s.draining@[p].guardian_epoch != s.draining@[i].guardian_epoch);
    } else if p > i {
        assert(s.draining@[i].guardian_epoch != s.draining@[p].guardian_epoch);
    }
}

/// The record that serves a request for `config_ref`: the ACTIVE record
/// for that exact epoch, else the DRAINING record for it, which (when
/// `require_pending_drain`) must list the request as pending.
pub open spec fn record_outcome(
    s: GuardianRecoveryStateV3,
    config_ref: ConfigRef,
    request_id: Id32,
    require_pending_drain: bool,
) -> Result<GuardianRecordV3, RecoveryError> {
    if s.active is Some && s.active.unwrap().config_ref == config_ref {
        Ok(s.active.unwrap())
    } else if !has_draining(s.draining@, config_ref.guardian_epoch) {
        Err(RecoveryError::NoRecordForEpoch)
    } else {
        let drain = s.draining@[draining_position(s.draining@, config_ref.guardian_epoch)];
        if drain.record.config_ref != config_ref {
            Err(RecoveryError::NoRecordForEpoch)
        } else if require_pending_drain && !drain.pending_request_ids@.contains(request_id) {
            Err(RecoveryError::NotPendingAtActivation)
        } else {
            Ok(drain.record)
        }
    }
}

/// Finds the record that serves a request for `config_ref`.
pub fn record_for_request(
    state: &GuardianRecoveryStateV3,
    config_ref: &ConfigRef,
    request_id: &Id32,
    require_pending_drain: bool,
) -> (r: Result<GuardianRecordV3, RecoveryError>)
    requires
        recovery_records_unique(*state),
    ensures
        r == record_outcome(*state, *config_ref, *request_id, require_pending_drain),
{
    if let Some(record) = &state.active {
        if config_ref_eq(&record.config_ref, config_ref) {
            return Ok(*record);
        }
    }
    let k = match find_draining(&state.draining, config_ref.guardian_epoch) {
        Some(k) => k,
        None => return Err(RecoveryError::NoRecordForEpoch),
    };
    proof {
        lemma_draining_position(*state, config_ref.guardian_epoch, k as int);
    }
    let drain = &state.draining[k];
    if !config_ref_eq(&drain.record.config_ref, config_ref) {
        return Err(RecoveryError::NoRecordForEpoch);
    }
    if require_pending_drain && !crate::bytes::contains_id(&drain.pending_request_ids, request_id) {
        return Err(RecoveryError::NotPendingAtActivation);
    }
    Ok(drain.record)
}

/// A request is pending in the predecessor epoch: accepted for its exact
/// configuration and neither cancelled nor released.
pub open spec fn pending_in_predecessor(s: GuardianRecoveryStateV3, p: PendingRecoveryV3) -> bool {
    &&& p.request.config_ref == s.predecessor_capsule.config_ref
    &&& !p.cancelled
    &&& !p.released
}

/// The ids of the requests still pending in the predecessor epoch: what a
/// DRAINING epoch must keep serving after an activation.
pub fn pending_old_recovery_ids(state: &GuardianRecoveryStateV3) -> (r: Vec<Id32>)
    requires
        recovery_records_unique(*state),
    ensures
        r@.no_duplicates(),
        forall|id: Id32|
            r@.contains(id) <==> exists|i: int|
                0 <= i < state.recoveries@.len() && (#[trigger] state.recoveries@[i]).request.request_id
                    == id && pending_in_predecessor(*state, state.recoveries@[i]),
{
    let recoveries = &state.recoveries;
    let predecessor = &state.predecessor_capsule.config_ref;
    let mut ids: Vec<Id32> = Vec::new();
    let mut i: usize = 0;
    while i < recoveries.len()
        invariant
            i <= recoveries@.len(),
            recoveries == &state.recoveries,
            predecessor == &state.predecessor_capsule.config_ref,
            recovery_records_unique(*state),
            ids@.no_duplicates(),
            forall|id: Id32|
                ids@.contains(id) <==> exists|k: int|
                    0 <= k < i && (#[trigger] recoveries@[k]).request.request_id == id
                        && pending_in_predecessor(*state, recoveries@[k]),
        decreases recoveries.len() - i,
    {
        let pending = &recoveries[i];
        let ghost before = ids@;
        if config_ref_eq(&pending.request.config_ref, predecessor) && !pending.cancelled
            && !pending.released {
            proof {
                assert forall|k: int| 0 <= k < i implies (#[trigger] recoveries@[k]).request.request_id
                    != pending.request.request_id by {
                    assert(recoveries@[k].request.request_id != recoveries@[i as int].request.request_id);
                }
                assert(!before.contains(pending.request.request_id));
            }
            ids.push(pending.request.request_id);
            proof {
                assert forall|a: int, b: int| 0 <= a < b < ids@.len() implies ids@[a] != ids@[b] by {
                    if b == before.len() {
                        assert(before.contains(before[a]));
                    }
                }
                assert forall|id: Id32| ids@.contains(id) <==> exists|k: int|
                    0 <= k < i + 1 && (#[trigger] recoveries@[k]).request.request_id == id
                        && pending_in_predecessor(*state, recoveries@[k]) by {
                    if ids@.contains(id) {
                        let a = choose|a: int| 0 <= a < ids@.len() && ids@[a] == id;
                        if a < before.len() {
                            assert(before.contains(id));
                        } else {
                            assert(recoveries@[i as int].request.request_id == id);
                        }
                    }
                    if exists|k: int|
                        0 <= k < i + 1 && (#[trigger] recoveries@[k]).request.request_id == id
                            && pending_in_predecessor(*state, recoveries@[k]) {
                        let k = choose|k: int|
                            0 <= k < i + 1 && (#[trigger] recoveries@[k]).request.request_id == id
                                && pending_in_predecessor(*state, recoveries@[k]);
                        if k < i {
                            assert(before.contains(id));
                            let a = choose|a: int| 0 <= a < before.len() && before[a] == id;
                            assert(ids@[a] == id);
                        } else {
                            assert(ids@[before.len() as int] == id);
                        }
                    }
                }
            }
        }
        i = i + 1;
    }
    ids
}

/// `s` without any occurrence of `id`.
pub open spec fn without_id(s: Seq<Id32>, id: Id32) -> Seq<Id32>
    decreases s.len(),
{
    if s.len() == 0 {
        s
    } else {
        let rest = without_id(s.drop_last(), id);
        if s.last() == id {
            rest
        } else {
            rest.push(s.last())
        }
    }
}

proof fn lemma_without_id(s: Seq<Id32>, id: Id32)
    ensures
        forall|x: Id32| without_id(s, id).contains(x) <==> (s.contains(x) && x != id),
        s.no_duplicates() ==> without_id(s, id).no_duplicates(),
    decreases s.len(),
{
    if s.len() > 0 {
        let rest = without_id(s.drop_last(), id);
        lemma_without_id(s.drop_last(), id);
        assert forall|x: Id32| without_id(s, id).contains(x) <==> (s.contains(x) && x != id) by {
            if s.contains(x) && x != id {
                let i = choose|i: int| 0 <= i < s.len() && s[i] == x;
                if i < s.len() - 1 {
                    assert(s.drop_last()[i] == x);
                    assert(s.drop_last().contains(x));
                    assert(rest.contains(x));
                    let k = choose|k: int| 0 <= k < rest.len() && rest[k] == x;
                    if s.last() != id {
                        assert(without_id(s, id) == rest.push(s.last()));
                        assert(without_id(s, id)[k] == x);
                    } else {
                        assert(without_id(s, id) == rest);
                    }
                } else {
                    assert(without_id(s, id) == rest.push(x));
                    assert(without_id(s, id)[rest.len() as int] == x);
                }
            }
            if without_id(s, id).contains(x) {
                let i = choose|i: int| 0 <= i < without_id(s, id).len() && without_id(s, id)[i] == x;
                if s.last() != id && i == rest.len() {
                    assert(without_id(s, id) == rest.push(s.last()));
                    assert(s[s.len() - 1] == x);
                } else {
                    if s.last() != id {
                        assert(without_id(s, id) == rest.push(s.last()));
                    } else {
                        assert(without_id(s, id) == rest);
                    }
                    assert(rest[i] == x);
                    assert(rest.contains(x));
                    assert(s.drop_last().contains(x));
                    let j = choose|j: int| 0 <= j < s.drop_last().len() && s.drop_last()[j] == x;
                    assert(s[j] == x);
                }
            }
        }
        if s.no_duplicates() {
            assert(s.drop_last().no_duplicates()) by {
                assert forall|a: int, b: int| 0 <= a < b < s.drop_last().len() implies s.drop_last()[a]
                    != s.drop_last()[b] by {
                    assert(s[a] != s[b]);
                }
            }
            if s.last() != id {
                assert(!s.drop_last().contains(s.last())) by {
                    if s.drop_last().contains(s.last()) {
                        let j = choose|j: int| 0 <= j < s.drop_last().len() && s.drop_last()[j] == s.last();
                        assert(s[j] == s[s.len() - 1]);
                    }
                }
                assert(!rest.contains(s.last()));
                assert forall|a: int, b: int| 0 <= a < b < rest.push(s.last()).len() implies rest.push(
                    s.last(),
                )[a] != rest.push(s.last())[b] by {
                    if b == rest.len() {
                        assert(rest.contains(rest[a]));
                    }
                }
            }
        }
    }
}

/// Copies `ids` without any occurrence of `id`.
fn remove_id(ids: &Vec<Id32>, id: &Id32) -> (r: Vec<Id32>)
    ensures
        r@ == without_id(ids@, *id),
{
    let mut out: Vec<Id32> = Vec::new();
    let mut i: usize = 0;
    while i < ids.len()
        invariant
            i <= ids@.len(),
            out@ == without_id(ids@.subrange(0, i as int), *id),
        decreases ids.len() - i,
    {
        assert(ids@.subrange(0, i + 1).drop_last() =~= ids@.subrange(0, i as int));
        if !id_eq(&ids[i], id) {
            out.push(ids[i]);
        }
        i = i + 1;
    }
    assert(ids@.subrange(0, i as int) =~= ids@);
    out
}

/// How long a new Begin waits: the record's minimum delay, capped at two
/// seconds in the insecure demonstration mode.
pub open spec fn begin_delay(minimum: u64, allow_insecure_demo_delay: bool) -> u64 {
    if allow_insecure_demo_delay && minimum > 2 {
        2
    } else {
        minimum
    }
}

/// Why a guardian refuses a Begin, if it does.
pub open spec fn begin_refusal(
    s: GuardianRecoveryStateV3,
    certificate: BeginRecoveryCertificateV3,
    wall_now: u64,
) -> Option<RecoveryError> {
    let request = certificate.request;
    let id = request.request_id;
    if s.active is None {
        Some(RecoveryError::NoActiveAuthority)
    } else if s.active.unwrap().config_ref != request.config_ref {
        Some(RecoveryError::NotActiveEpoch)
    } else {
        match begin_certificate_outcome(certificate, s.predecessor_capsule, wall_now) {
            Err(e) => Some(e),
            Ok(digest) => if has_tombstone(s.tombstones@, id) {
                Some(RecoveryError::PermanentlyCancelled)
            } else if has_pending(s.recoveries@, id) {
                let existing = s.recoveries@[pending_position(s.recoveries@, id)];
                if existing.request_digest != digest || !same_request(existing.request, request) {
                    Some(RecoveryError::RequestIdLocked)
                } else {
                    None
                }
            } else if nonce_used(s.recoveries@, request.nonce) {
                Some(RecoveryError::NonceReplayed)
            } else {
                None
            },
        }
    }
}

/// `p` records the Begin of `certificate`'s request accepted at these
/// times on boot `boot_id`.
pub open spec fn accepted_begin(
    p: PendingRecoveryV3,
    certificate: BeginRecoveryCertificateV3,
    wall_now: u64,
    monotonic_now: u64,
    not_before_monotonic: u64,
    boot_id: Seq<char>,
) -> bool {
    &&& same_request(p.request, certificate.request)
    &&& p.request_digest == certificate.request.digest
    &&& p.accepted_wall_time == wall_now
    &&& p.started_monotonic == monotonic_now
    &&& p.not_before_monotonic == not_before_monotonic
    &&& p.boot_id@ == boot_id
    &&& !p.cancelled
    &&& !p.released
}

/// A guardian's Begin step from `old` to `new` with answer `r`.
pub open spec fn begin_transition(
    old: GuardianRecoveryStateV3,
    new: GuardianRecoveryStateV3,
    certificate: BeginRecoveryCertificateV3,
    wall_now: u64,
    monotonic_now: u64,
    boot_id: Seq<char>,
    allow_insecure_demo_delay: bool,
    r: Result<GuardianRecoveryDecisionV3, RecoveryError>,
) -> bool {
    let id = certificate.request.request_id;
    match begin_refusal(old, certificate, wall_now) {
        Some(e) => r == Err::<GuardianRecoveryDecisionV3, RecoveryError>(e) && new == old,
        None => if has_pending(old.recoveries@, id) {
            &&& new == old
            &&& r == Ok::<GuardianRecoveryDecisionV3, RecoveryError>(
                GuardianRecoveryDecisionV3::BeginAccepted {
                    not_before_monotonic: old.recoveries@[pending_position(
                        old.recoveries@,
                        id,
                    )].not_before_monotonic,
                },
            )
        } else {
            let delay = begin_delay(old.active.unwrap().minimum_recovery_delay, allow_insecure_demo_delay);
            let not_before = saturating_add(monotonic_now, delay) as u64;
            &&& r == Ok::<GuardianRecoveryDecisionV3, RecoveryError>(
                GuardianRecoveryDecisionV3::BeginAccepted { not_before_monotonic: not_before },
            )
            &&& new.predecessor_capsule == old.predecessor_capsule
            &&& new.active == old.active
            &&& new.draining == old.draining
            &&& new.tombstones == old.tombstones
            &&& new.recoveries@.len() == old.recoveries@.len() + 1
            &&& new.recoveries@.drop_last() == old.recoveries@
            &&& accepted_begin(
                new.recoveries@.last(),
                certificate,
                wall_now,
                monotonic_now,
                not_before,
                boot_id,
            )
        },
    }
}

/// Accepts a signer threshold's Begin for the ACTIVE epoch and starts the
/// local delay, once per request id and nonce.
fn begin_recovery(
    state: &mut GuardianRecoveryStateV3,
    certificate: BeginRecoveryCertificateV3,
    wall_now: u64,
    monotonic_now: u64,
    boot_id: &str,
    allow_insecure_demo_delay: bool,
) -> (r: Result<GuardianRecoveryDecisionV3, RecoveryError>)
    requires
        recovery_records_unique(*old(state)),
    ensures
        recovery_records_unique(*final(state)),
        begin_transition(
            *old(state),
            *final(state),
            certificate,
            wall_now,
            monotonic_now,
            boot_id@,
            allow_insecure_demo_delay,
            r,
        ),
{
    let active = match &state.active {
        Some(active) => *active,
        None => return Err(RecoveryError::NoActiveAuthority),
    };
    if !config_ref_eq(&active.config_ref, &certificate.request.config_ref) {
        return Err(RecoveryError::NotActiveEpoch);
    }
    let digest = validate_begin_recovery_certificate_v3(
        &certificate,
        &state.predecessor_capsule,
        wall_now,
    )?;
    let id = certificate.request.request_id;
    if let Some(t) = find_tombstone(&state.tombstones, &id) {
        proof {
            lemma_tombstone_position(*state, id, t as int);
        }
        return Err(RecoveryError::PermanentlyCancelled);
    }
    if let Some(i) = find_pending(&state.recoveries, &id) {
        proof {
            lemma_pending_position(*state, id, i as int);
        }
        let existing = &state.recoveries[i];
        if !id_eq(&existing.request_digest, &digest) || !request_eq(
            &existing.request,
            &certificate.request,
        ) {
            return Err(RecoveryError::RequestIdLocked);
        }
        return Ok(
            GuardianRecoveryDecisionV3::BeginAccepted {
                not_before_monotonic: existing.not_before_monotonic,
            },
        );
    }
    if nonce_in_use(&state.recoveries, &certificate.request.nonce) {
        return Err(RecoveryError::NonceReplayed);
    }
    let delay = if allow_insecure_demo_delay && active.minimum_recovery_delay > 2 {
        2
    } else {
        active.minimum_recovery_delay
    };
    let not_before_monotonic = monotonic_now.saturating_add(delay);
    let ghost before = state.recoveries@;
    state.recoveries.push(
        PendingRecoveryV3 {
            request: certificate.request,
            request_digest: digest,
            accepted_wall_time: wall_now,
            started_monotonic: monotonic_now,
            not_before_monotonic,
            boot_id: boot_id.to_owned(),
            cancelled: false,
            released: false,
        },
    );
    proof {
        assert(state.recoveries@.drop_last() =~= before);
        assert forall|i: int, j: int|
            0 <= i < j < state.recoveries@.len() implies (#[trigger] state.recoveries@[i]).request.request_id
            != (#[trigger] state.recoveries@[j]).request.request_id by {
            if j == before.len() {
                assert(before[i] == state.recoveries@[i]);
            } else {
                assert(before[i] == state.recoveries@[i]);
                assert(before[j] == state.recoveries@[j]);
            }
        }
    }
    Ok(GuardianRecoveryDecisionV3::BeginAccepted { not_before_monotonic })
}

/// `p` marked cancelled.
pub open spec fn with_cancelled(p: PendingRecoveryV3) -> PendingRecoveryV3 {
    PendingRecoveryV3 {
        request: p.request,
        request_digest: p.request_digest,
        accepted_wall_time: p.accepted_wall_time,
        started_monotonic: p.started_monotonic,
        not_before_monotonic: p.not_before_monotonic,
        boot_id: p.boot_id,
        cancelled: true,
        released: p.released,
    }
}

/// `p` marked released.
pub open spec fn with_released(p: PendingRecoveryV3) -> PendingRecoveryV3 {
    PendingRecoveryV3 {
        request: p.request,
        request_digest: p.request_digest,
        accepted_wall_time: p.accepted_wall_time,
        started_monotonic: p.started_monotonic,
        not_before_monotonic: p.not_before_monotonic,
        boot_id: p.boot_id,
        cancelled: p.cancelled,
        released: true,
    }
}

/// Why a guardian refuses an owner cancellation, if it does.
pub open spec fn cancel_refusal(
    s: GuardianRecoveryStateV3,
    request: RecoveryRequestV3,
    certificate: OwnerRecoveryCancelCertificateV3,
    wall_now: u64,
) -> Option<RecoveryError> {
    let id = request.request_id;
    match record_outcome(s, request.config_ref, id, true) {
        Err(e) => Some(e),
        Ok(_) => match owner_cancel_outcome(
            certificate,
            request,
            s.predecessor_capsule,
            request.config_ref,
            wall_now,
        ) {
            Err(e) => Some(e),
            Ok(digest) => if has_pending(s.recoveries@, id) && s.recoveries@[pending_position(
                s.recoveries@,
                id,
            )].request_digest != digest {
                Some(RecoveryError::CancelConflict)
            } else if has_pending(s.recoveries@, id) && s.recoveries@[pending_position(
                s.recoveries@,
                id,
            )].released {
                Some(RecoveryError::CancelAfterRelease)
            } else {
                None
            },
        },
    }
}

/// A guardian's owner-Cancel step from `old` to `new` with answer `r`:
/// a tombstone for the request id, and the accepted request (if any)
/// marked cancelled.
pub open spec fn cancel_transition(
    old: GuardianRecoveryStateV3,
    new: GuardianRecoveryStateV3,
    request: RecoveryRequestV3,
    certificate: OwnerRecoveryCancelCertificateV3,
    wall_now: u64,
    r: Result<GuardianRecoveryDecisionV3, RecoveryError>,
) -> bool {
    let id = request.request_id;
    let tombstone = CancellationTombstone { request_id: id, request_digest: request.digest };
    match cancel_refusal(old, request, certificate, wall_now) {
        Some(e) => r == Err::<GuardianRecoveryDecisionV3, RecoveryError>(e) && new == old,
        None => {
            &&& (match record_outcome(old, request.config_ref, id, true) {
                Ok(record) => r == Ok::<GuardianRecoveryDecisionV3, RecoveryError>(
                    GuardianRecoveryDecisionV3::Cancelled {
                        config_ref: request.config_ref,
                        request_id: id,
                        request_digest: request.digest,
                        guardian_index: record.guardian_index,
                    },
                ),
                Err(_) => false,
            })
            &&& new.predecessor_capsule == old.predecessor_capsule
            &&& new.active == old.active
            &&& new.draining == old.draining
            &&& if has_tombstone(old.tombstones@, id) {
                new.tombstones@ == old.tombstones@.update(
                    tombstone_position(old.tombstones@, id),
                    tombstone,
                )
            } else {
                new.tombstones@ == old.tombstones@.push(tombstone)
            }
            &&& if has_pending(old.recoveries@, id) {
                let i = pending_position(old.recoveries@, id);
                new.recoveries@ == old.recoveries@.update(i, with_cancelled(old.recoveries@[i]))
            } else {
                new.recoveries@ == old.recoveries@
            }
        },
    }
}

/// Records the owner's hard cancellation of an exact request that this
/// guardian may still serve, unless its material was already released.
fn cancel_recovery(
    state: &mut GuardianRecoveryStateV3,
    request: RecoveryRequestV3,
    certificate: OwnerRecoveryCancelCertificateV3,
    wall_now: u64,
) -> (r: Result<GuardianRecoveryDecisionV3, RecoveryError>)
    requires
        recovery_records_unique(*old(state)),
    ensures
        recovery_records_unique(*final(state)),
        cancel_transition(*old(state), *final(state), request, certificate, wall_now, r),
{
    let ghost old_state = *state;
    let id = request.request_id;
    let record = record_for_request(state, &request.config_ref, &id, true)?;
    let digest = validate_owner_recovery_cancel_for_ref_v3(
        &certificate,
        &request,
        &state.predecessor_capsule,
        &request.config_ref,
        wall_now,
    )?;
    let pending_index = find_pending(&state.recoveries, &id);
    if let Some(i) = pending_index {
        proof {
            lemma_pending_position(*state, id, i as int);
        }
        let pending = &state.recoveries[i];
        if !id_eq(&pending.request_digest, &digest) {
            return Err(RecoveryError::CancelConflict);
        }
        if pending.released {
            return Err(RecoveryError::CancelAfterRelease);
        }
    }
    let tombstone = CancellationTombstone { request_id: id, request_digest: digest };
    match find_tombstone(&state.tombstones, &id) {
        Some(t) => {
            proof {
                lemma_tombstone_position(*state, id, t as int);
            }
            let ghost before = state.tombstones@;
            state.tombstones.remove(t);
            state.tombstones.insert(t, tombstone);
            proof {
                assert(state.tombstones@ =~= before.update(t as int, tombstone));
            }
        },
        None => {
            state.tombstones.push(tombstone);
        },
    }
    if let Some(i) = pending_index {
        let ghost before = state.recoveries@;
        let mut pending = state.recoveries.remove(i);
        pending.cancelled = true;
        state.recoveries.insert(i, pending);
        proof {
            assert(state.recoveries@ =~= before.update(i as int, with_cancelled(before[i as int])));
        }
    }
    proof {
        assert forall|i: int, j: int|
            0 <= i < j < state.tombstones@.len() implies (#[trigger] state.tombstones@[i]).request_id
            != (#[trigger] state.tombstones@[j]).request_id by {
            if j == old_state.tombstones@.len() {
                assert(old_state.tombstones@[i] == state.tombstones@[i]);
            } else if state.tombstones@[i].request_id != id && state.tombstones@[j].request_id != id {
                assert(old_state.tombstones@[i] == state.tombstones@[i]);
                assert(old_state.tombstones@[j] == state.tombstones@[j]);
            } else {
                assert(old_state.tombstones@[i].request_id == state.tombstones@[i].request_id);
                assert(old_state.tombstones@[j].request_id == state.tombstones@[j].request_id);
            }
        }
        assert forall|i: int, j: int|
            0 <= i < j < state.recoveries@.len() implies (#[trigger] state.recoveries@[i]).request.request_id
            != (#[trigger] state.recoveries@[j]).request.request_id by {
            assert(old_state.recoveries@[i].request.request_id == state.recoveries@[i].request.request_id);
            assert(old_state.recoveries@[j].request.request_id == state.recoveries@[j].request.request_id);
        }
    }
    Ok(
        GuardianRecoveryDecisionV3::Cancelled {
            config_ref: request.config_ref,
            request_id: id,
            request_digest: digest,
            guardian_index: record.guardian_index,
        },
    )
}

/// Why a guardian refuses a Release, if it does.
pub open spec fn release_refusal(
    s: GuardianRecoveryStateV3,
    request: RecoveryRequestV3,
    certificate: RecoveryReleaseCertificateV3,
    wall_now: u64,
    monotonic_now: u64,
    boot_id: Seq<char>,
) -> Option<RecoveryError> {
    let id = request.request_id;
    match release_certificate_outcome(certificate, s.predecessor_capsule, request.config_ref, wall_now) {
        Err(e) => Some(e),
        Ok(digest) => match record_outcome(s, request.config_ref, id, true) {
            Err(e) => Some(e),
            Ok(_) => if !has_pending(s.recoveries@, id) {
                Some(RecoveryError::NeverBegun)
            } else {
                let pending = s.recoveries@[pending_position(s.recoveries@, id)];
                if !same_request(pending.request, request) || pending.request_digest != digest {
                    Some(RecoveryError::ReleaseMismatch)
                } else if pending.cancelled || pending.released || (has_tombstone(s.tombstones@, id)
                    && s.tombstones@[tombstone_position(s.tombstones@, id)].request_digest
                    == digest) {
                    Some(RecoveryError::CancelledOrReplayed)
                } else if pending.boot_id@ != boot_id || monotonic_now < pending.not_before_monotonic
                    || wall_now >= pending.request.expiry {
                    Some(RecoveryError::DelayIncomplete)
                } else {
                    None
                }
            },
        },
    }
}

/// DRAINING epoch `epoch`, if any, no longer lists `id` as pending.
pub open spec fn drain_finished(
    old: Seq<DrainingEpochV3>,
    new: Seq<DrainingEpochV3>,
    epoch: u64,
    id: Id32,
) -> bool {
    if has_draining(old, epoch) {
        let k = draining_position(old, epoch);
        &&& new.len() == old.len()
        &&& forall|j: int| 0 <= j < old.len() && j != k ==> new[j] == old[j]
        &&& new[k].guardian_epoch == old[k].guardian_epoch
        &&& new[k].record == old[k].record
        &&& new[k].pending_request_ids@ == without_id(old[k].pending_request_ids@, id)
    } else {
        new == old
    }
}

/// A guardian's Release step from `old` to `new` with answer `r`: the
/// accepted request is marked released and, in a DRAINING epoch, no longer
/// pending.
pub open spec fn release_transition(
    old: GuardianRecoveryStateV3,
    new: GuardianRecoveryStateV3,
    request: RecoveryRequestV3,
    certificate: RecoveryReleaseCertificateV3,
    wall_now: u64,
    monotonic_now: u64,
    boot_id: Seq<char>,
    r: Result<GuardianRecoveryDecisionV3, RecoveryError>,
) -> bool {
    let id = request.request_id;
    match release_refusal(old, request, certificate, wall_now, monotonic_now, boot_id) {
        Some(e) => r == Err::<GuardianRecoveryDecisionV3, RecoveryError>(e) && new == old,
        None => {
            let i = pending_position(old.recoveries@, id);
            &&& (match record_outcome(old, request.config_ref, id, true) {
                Ok(record) => r == Ok::<GuardianRecoveryDecisionV3, RecoveryError>(
                    GuardianRecoveryDecisionV3::Release {
                        record,
                        request_digest: certificate.request.digest,
                    },
                ),
                Err(_) => false,
            })
            &&& new.predecessor_capsule == old.predecessor_capsule
            &&& new.active == old.active
            &&& new.tombstones == old.tombstones
            &&& new.recoveries@ == old.recoveries@.update(i, with_released(old.recoveries@[i]))
            &&& drain_finished(old.draining@, new.draining@, request.config_ref.guardian_epoch, id)
        },
    }
}

/// Releases this guardian's material for an accepted, uncancelled request
/// once its delay has elapsed on the same boot and before it expires.
fn release_recovery(
    state: &mut GuardianRecoveryStateV3,
    request: RecoveryRequestV3,
    certificate: RecoveryReleaseCertificateV3,
    wall_now: u64,
    monotonic_now: u64,
    boot_id: &str,
) -> (r: Result<GuardianRecoveryDecisionV3, RecoveryError>)
    requires
        recovery_records_unique(*old(state)),
    ensures
        recovery_records_unique(*final(state)),
        release_transition(
            *old(state),
            *final(state),
            request,
            certificate,
            wall_now,
            monotonic_now,
            boot_id@,
            r,
        ),
{
    let ghost old_state = *state;
    let id = request.request_id;
    let digest = validate_recovery_release_certificate_for_ref_v3(
        &certificate,
        &state.predecessor_capsule,
        &request.config_ref,
        wall_now,
    )?;
    let record = record_for_request(state, &request.config_ref, &id, true)?;
    let i = match find_pending(&state.recoveries, &id) {
        Some(i) => i,
        None => return Err(RecoveryError::NeverBegun),
    };
    proof {
        lemma_pending_position(*state, id, i as int);
    }
    let tombstoned = match find_tombstone(&state.tombstones, &id) {
        Some(t) => {
            proof {
                lemma_tombstone_position(*state, id, t as int);
            }
            id_eq(&state.tombstones[t].request_digest, &digest)
        },
        None => false,
    };
    {
        let pending = &state.recoveries[i];
        if !request_eq(&pending.request, &request) || !id_eq(&pending.request_digest, &digest) {
            return Err(RecoveryError::ReleaseMismatch);
        }
        if pending.cancelled || pending.released || tombstoned {
            return Err(RecoveryError::CancelledOrReplayed);
        }
        let boot = boot_id.to_owned();
        if !(pending.boot_id == boot) || monotonic_now < pending.not_before_monotonic || wall_now
            >= pending.request.expiry {
            return Err(RecoveryError::DelayIncomplete);
        }
    }
    let ghost before = state.recoveries@;
    let mut pending = state.recoveries.remove(i);
    pending.released = true;
    state.recoveries.insert(i, pending);
    proof {
        assert(state.recoveries@ =~= before.update(i as int, with_released(before[i as int])));
        assert forall|a: int, b: int|
            0 <= a < b < state.recoveries@.len() implies (#[trigger] state.recoveries@[a]).request.request_id
            != (#[trigger] state.recoveries@[b]).request.request_id by {
            assert(before[a].request.request_id == state.recoveries@[a].request.request_id);
            assert(before[b].request.request_id == state.recoveries@[b].request.request_id);
        }
    }
    if let Some(k) = find_draining(&state.draining, request.config_ref.guardian_epoch) {
        proof {
            lemma_draining_position(*state, request.config_ref.guardian_epoch, k as int);
        }
        let ghost drains = state.draining@;
        let mut drain = state.draining.remove(k);
        proof {
            lemma_without_id(drain.pending_request_ids@, id);
        }
        drain.pending_request_ids = remove_id(&drain.pending_request_ids, &id);
        state.draining.insert(k, drain);
        proof {
            assert(state.draining@ =~= drains.update(k as int, drain));
            assert forall|a: int, b: int|
                0 <= a < b < state.draining@.len() implies (#[trigger] state.draining@[a]).guardian_epoch
                != (#[trigger] state.draining@[b]).guardian_epoch by {
                assert(drains[a].guardian_epoch == state.draining@[a].guardian_epoch);
                assert(drains[b].guardian_epoch == state.draining@[b].guardian_epoch);
            }
            assert forall|a: int| 0 <= a < state.draining@.len() implies (
            #[trigger] state.draining@[a]).pending_request_ids@.no_duplicates() by {
                if a != k {
                    assert(drains[a] == state.draining@[a]);
                }
            }
        }
    }
    Ok(GuardianRecoveryDecisionV3::Release { record, request_digest: digest })
}

/// A guardian's whole step on one recovery message: malformed requests are
/// refused outright, then Begin, Cancel or Release as above.
pub open spec fn guardian_recovery_transition(
    old: GuardianRecoveryStateV3,
    new: GuardianRecoveryStateV3,
    message: GuardianRecoveryRequestV3,
    wall_now: u64,
    monotonic_now: u64,
    boot_id: Seq<char>,
    allow_insecure_demo_delay: bool,
    r: Result<GuardianRecoveryDecisionV3, RecoveryError>,
) -> bool {
    let request = request_of(message);
    if request.protocol_version != PROTOCOL_VERSION_V3 || request.recovery_recipient_key@.len()
        != XWING_PUBLIC_KEY_LEN {
        r == Err::<GuardianRecoveryDecisionV3, RecoveryError>(RecoveryError::MalformedRequest)
            && new == old
    } else {
        match message {
            GuardianRecoveryRequestV3::Begin { certificate } => begin_transition(
                old,
                new,
                certificate,
                wall_now,
                monotonic_now,
                boot_id,
                allow_insecure_demo_delay,
                r,
            ),
            GuardianRecoveryRequestV3::Cancel { request, certificate } => cancel_transition(
                old,
                new,
                request,
                certificate,
                wall_now,
                r,
            ),
            GuardianRecoveryRequestV3::Release { request, certificate } => release_transition(
                old,
                new,
                request,
                certificate,
                wall_now,
                monotonic_now,
                boot_id,
                r,
            ),
        }
    }
}

/// A guardian's recovery actor: Begin starts the local delay for the
/// ACTIVE epoch, the owner can permanently cancel an exact request until
/// its material is released, and Release returns the material only after
/// the delay on the same boot.
pub fn handle_guardian_recovery_v3(
    state: &mut GuardianRecoveryStateV3,
    request: GuardianRecoveryRequestV3,
    wall_now: u64,
    monotonic_now: u64,
    boot_id: &str,
    allow_insecure_demo_delay: bool,
) -> (r: Result<GuardianRecoveryDecisionV3, RecoveryError>)
    requires
        recovery_state_wf(*old(state)),
    ensures
        recovery_state_wf(*final(state)),
        guardian_recovery_transition(
            *old(state),
            *final(state),
            request,
            wall_now,
            monotonic_now,
            boot_id@,
            allow_insecure_demo_delay,
            r,
        ),
{
    let ghost before = *state;
    let ghost message = request;
    let recovery = request.request();
    if recovery.protocol_version != PROTOCOL_VERSION_V3 || recovery.recovery_recipient_key.len()
        != XWING_PUBLIC_KEY_LEN {
        return Err(RecoveryError::MalformedRequest);
    }
    let r = match request {
        GuardianRecoveryRequestV3::Begin { certificate } => begin_recovery(
            state,
            certificate,
            wall_now,
            monotonic_now,
            boot_id,
            allow_insecure_demo_delay,
        ),
        GuardianRecoveryRequestV3::Cancel { request, certificate } => cancel_recovery(
            state,
            request,
            certificate,
            wall_now,
        ),
        GuardianRecoveryRequestV3::Release { request, certificate } => release_recovery(
            state,
            request,
            certificate,
            wall_now,
            monotonic_now,
            boot_id,
        ),
    };
    proof {
        lemma_recovery_step_keeps_history(
            before,
            *state,
            message,
            wall_now,
            monotonic_now,
            boot_id@,
            allow_insecure_demo_delay,
            r,
        );
    }
    r
}

/// Every accepted request whose id carries a tombstone is marked
/// cancelled.
pub open spec fn cancellations_hold(s: GuardianRecoveryStateV3) -> bool {
    forall|t: int, i: int|
        0 <= t < s.tombstones@.len() && 0 <= i < s.recoveries@.len() && (
        #[trigger] s.tombstones@[t]).request_id == (#[trigger] s.recoveries@[i]).request.request_id
            ==> s.recoveries@[i].cancelled
}

/// Every step keeps the tombstones, keeps each accepted request with its
/// exact transcript and its cancelled and released marks, and keeps
/// tombstoned requests cancelled.
pub proof fn lemma_recovery_step_keeps_history(
    old: GuardianRecoveryStateV3,
    new: GuardianRecoveryStateV3,
    message: GuardianRecoveryRequestV3,
    wall_now: u64,
    monotonic_now: u64,
    boot_id: Seq<char>,
    allow_insecure_demo_delay: bool,
    r: Result<GuardianRecoveryDecisionV3, RecoveryError>,
)
    requires
        recovery_records_unique(old),
        recovery_records_unique(new),
        cancellations_hold(old),
        guardian_recovery_transition(
            old,
            new,
            message,
            wall_now,
            monotonic_now,
            boot_id,
            allow_insecure_demo_delay,
            r,
        ),
    ensures
        cancellations_hold(new),
        forall|t: int|
            0 <= t < old.tombstones@.len() ==> has_tombstone(
                new.tombstones@,
                (#[trigger] old.tombstones@[t]).request_id,
            ),
        new.recoveries@.len() >= old.recoveries@.len(),
        forall|i: int|
            0 <= i < old.recoveries@.len() ==> {
                let before = #[trigger] old.recoveries@[i];
                let after = new.recoveries@[i];
                &&& same_request(after.request, before.request)
                &&& after.request_digest == before.request_digest
                &&& after.not_before_monotonic == before.not_before_monotonic
                &&& after.boot_id == before.boot_id
                &&& (before.cancelled ==> after.cancelled)
                &&& (before.released ==> after.released)
            },
{
    let request = request_of(message);
    if request.protocol_version != PROTOCOL_VERSION_V3 || request.recovery_recipient_key@.len()
        != XWING_PUBLIC_KEY_LEN {
        return;
    }
    match message {
        GuardianRecoveryRequestV3::Begin { certificate } => {
            let id = certificate.request.request_id;
            if begin_refusal(old, certificate, wall_now) is None && !has_pending(old.recoveries@, id) {
                assert forall|t: int| 0 <= t < old.tombstones@.len() implies has_tombstone(
                    new.tombstones@,
                    (#[trigger] old.tombstones@[t]).request_id,
                ) by {
                    assert(new.tombstones@[t] == old.tombstones@[t]);
                }
                assert forall|i: int| 0 <= i < old.recoveries@.len() implies new.recoveries@[i]
                    == old.recoveries@[i] by {
                    assert(new.recoveries@.drop_last()[i] == new.recoveries@[i]);
                }
                assert forall|t: int, i: int|
                    0 <= t < new.tombstones@.len() && 0 <= i < new.recoveries@.len() && (
                    #[trigger] new.tombstones@[t]).request_id == (
                    #[trigger] new.recoveries@[i]).request.request_id implies new.recoveries@[i].cancelled by {
                    if i == old.recoveries@.len() {
                        assert(new.tombstones@[t] == old.tombstones@[t]);
                        assert(!has_tombstone(old.tombstones@, id));
                    } else {
                        assert(new.recoveries@[i] == old.recoveries@[i]);
                        assert(new.tombstones@[t] == old.tombstones@[t]);
                    }
                }
            } else {
                assert forall|t: int| 0 <= t < old.tombstones@.len() implies has_tombstone(
                    new.tombstones@,
                    (#[trigger] old.tombstones@[t]).request_id,
                ) by {
                    assert(new.tombstones@[t] == old.tombstones@[t]);
                }
            }
        },
        GuardianRecoveryRequestV3::Cancel { request, certificate } => {
            let id = request.request_id;
            if cancel_refusal(old, request, certificate, wall_now) is None {
                let tombstone = CancellationTombstone { request_id: id, request_digest: request.digest };
                assert forall|t: int| 0 <= t < old.tombstones@.len() implies has_tombstone(
                    new.tombstones@,
                    (#[trigger] old.tombstones@[t]).request_id,
                ) by {
                    if has_tombstone(old.tombstones@, id) && t == tombstone_position(old.tombstones@, id) {
                        assert(new.tombstones@[t].request_id == old.tombstones@[t].request_id);
                    } else {
                        assert(new.tombstones@[t] == old.tombstones@[t]);
                    }
                }
                assert forall|t: int, i: int|
                    0 <= t < new.tombstones@.len() && 0 <= i < new.recoveries@.len() && (
                    #[trigger] new.tombstones@[t]).request_id == (
                    #[trigger] new.recoveries@[i]).request.request_id implies new.recoveries@[i].cancelled by {
                    if has_pending(old.recoveries@, id) && i == pending_position(old.recoveries@, id) {
                    } else {
                        assert(new.recoveries@[i] == old.recoveries@[i]);
                        if new.tombstones@[t].request_id == id {
                            assert(has_pending(old.recoveries@, id));
                            let p = pending_position(old.recoveries@, id);
                            assert(old.recoveries@[p].request.request_id == id);
                            if p < i {
                                assert(old.recoveries@[p].request.request_id != old.recoveries@[i].request.request_id);
                            } else {
                                assert(old.recoveries@[i].request.request_id != old.recoveries@[p].request.request_id);
                            }
                        } else {
                            if has_tombstone(old.tombstones@, id) {
                                assert(new.tombstones@[t] == old.tombstones@[t]);
                            } else {
                                assert(t < old.tombstones@.len());
                                assert(new.tombstones@[t] == old.tombstones@[t]);
                            }
                        }
                    }
                }
            } else {
                assert forall|t: int| 0 <= t < old.tombstones@.len() implies has_tombstone(
                    new.tombstones@,
                    (#[trigger] old.tombstones@[t]).request_id,
                ) by {
                    assert(new.tombstones@[t] == old.tombstones@[t]);
                }
            }
        },
        GuardianRecoveryRequestV3::Release { request, certificate } => {
            let id = request.request_id;
            assert forall|t: int| 0 <= t < old.tombstones@.len() implies has_tombstone(
                new.tombstones@,
                (#[trigger] old.tombstones@[t]).request_id,
            ) by {
                assert(new.tombstones@[t] == old.tombstones@[t]);
            }
            if release_refusal(old, request, certificate, wall_now, monotonic_now, boot_id) is None {
                let p = pending_position(old.recoveries@, id);
                assert forall|t: int, i: int|
                    0 <= t < new.tombstones@.len() && 0 <= i < new.recoveries@.len() && (
                    #[trigger] new.tombstones@[t]).request_id == (
                    #[trigger] new.recoveries@[i]).request.request_id implies new.recoveries@[i].cancelled by {
                    assert(new.tombstones@[t] == old.tombstones@[t]);
                    if i == p {
                        assert(old.tombstones@[t].request_id == old.recoveries@[p].request.request_id);
                        assert(old.recoveries@[p].cancelled);
                    } else {
                        assert(new.recoveries@[i] == old.recoveries@[i]);
                    }
                }
            }
        },
    }
}

/// Owner hard cancellation is final: once a request id carries a tombstone,
/// a guardian in any well-formed state (every state the handler reaches)
/// refuses every Begin and Release for it and changes nothing.
pub proof fn lemma_tombstone_blocks_begin_and_release(
    old: GuardianRecoveryStateV3,
    new: GuardianRecoveryStateV3,
    message: GuardianRecoveryRequestV3,
    wall_now: u64,
    monotonic_now: u64,
    boot_id: Seq<char>,
    allow_insecure_demo_delay: bool,
    r: Result<GuardianRecoveryDecisionV3, RecoveryError>,
)
    requires
        recovery_state_wf(old),
        has_tombstone(old.tombstones@, request_of(message).request_id),
        !(message is Cancel),
        guardian_recovery_transition(
            old,
            new,
            message,
            wall_now,
            monotonic_now,
            boot_id,
            allow_insecure_demo_delay,
            r,
        ),
    ensures
        r is Err,
        new == old,
{
    let id = request_of(message).request_id;
    match message {
        GuardianRecoveryRequestV3::Release { request, certificate } => {
            if release_refusal(old, request, certificate, wall_now, monotonic_now, boot_id) is None {
                let p = pending_position(old.recoveries@, id);
                let t = tombstone_position(old.tombstones@, id);
                assert(old.tombstones@[t].request_id == old.recoveries@[p].request.request_id);
            }
        },
        _ => {},
    }
}

/// Cancellation is permanent: from a well-formed state whose tombstones
/// name `id`, any step (that keeps the records unique, as the handler
/// does) reaches a well-formed state that still names `id`, so in every
/// later state each Begin and Release for `id` is refused.
pub proof fn lemma_cancellation_is_permanent(
    old: GuardianRecoveryStateV3,
    new: GuardianRecoveryStateV3,
    message: GuardianRecoveryRequestV3,
    wall_now: u64,
    monotonic_now: u64,
    boot_id: Seq<char>,
    allow_insecure_demo_delay: bool,
    r: Result<GuardianRecoveryDecisionV3, RecoveryError>,
    id: Id32,
)
    requires
        recovery_state_wf(old),
        recovery_records_unique(new),
        has_tombstone(old.tombstones@, id),
        guardian_recovery_transition(
            old,
            new,
            message,
            wall_now,
            monotonic_now,
            boot_id,
            allow_insecure_demo_delay,
            r,
        ),
    ensures
        recovery_state_wf(new),
        has_tombstone(new.tombstones@, id),
{
    lemma_recovery_step_keeps_history(
        old,
        new,
        message,
        wall_now,
        monotonic_now,
        boot_id,
        allow_insecure_demo_delay,
        r,
    );
    let t = tombstone_position(old.tombstones@, id);
    assert(has_tombstone(new.tombstones@, old.tombstones@[t].request_id));
}

/// An accepted cancellation leaves a tombstone for the request id.
pub proof fn lemma_cancel_leaves_tombstone(
    old: GuardianRecoveryStateV3,
    new: GuardianRecoveryStateV3,
    request: RecoveryRequestV3,
    certificate: OwnerRecoveryCancelCertificateV3,
    wall_now: u64,
    r: Result<GuardianRecoveryDecisionV3, RecoveryError>,
)
    requires
        cancel_transition(old, new, request, certificate, wall_now, r),
        r is Ok,
    ensures
        has_tombstone(new.tombstones@, request.request_id),
{
    let id = request.request_id;
    if has_tombstone(old.tombstones@, id) {
        let t = tombstone_position(old.tombstones@, id);
        assert(new.tombstones@[t].request_id == id);
    } else {
        assert(new.tombstones@[old.tombstones@.len() as int].request_id == id);
    }
}

/// Delayed release: a guardian releases material only for a request whose
/// Begin it accepted with the same transcript on this boot, that is neither
/// cancelled nor released, whose delay has elapsed and that has not
/// expired; and only from a record for the request's exact epoch.
pub proof fn lemma_release_only_after_delay(
    old: GuardianRecoveryStateV3,
    new: GuardianRecoveryStateV3,
    request: RecoveryRequestV3,
    certificate: RecoveryReleaseCertificateV3,
    wall_now: u64,
    monotonic_now: u64,
    boot_id: Seq<char>,
    r: Result<GuardianRecoveryDecisionV3, RecoveryError>,
)
    requires
        release_transition(old, new, request, certificate, wall_now, monotonic_now, boot_id, r),
        r is Ok,
    ensures
        has_pending(old.recoveries@, request.request_id),
        ({
            let pending = old.recoveries@[pending_position(old.recoveries@, request.request_id)];
            &&& same_request(pending.request, request)
            &&& pending.request_digest == certificate.request.digest
            &&& !pending.cancelled
            &&& !pending.released
            &&& pending.boot_id@ == boot_id
            &&& pending.not_before_monotonic <= monotonic_now
            &&& wall_now < request.expiry
        }),
        r matches Ok(GuardianRecoveryDecisionV3::Release { record, .. }) && record.config_ref
            == request.config_ref,
{
}

/// Release happens at most once per request id.
pub proof fn lemma_release_at_most_once(
    s0: GuardianRecoveryStateV3,
    s1: GuardianRecoveryStateV3,
    s2: GuardianRecoveryStateV3,
    first: RecoveryRequestV3,
    first_certificate: RecoveryReleaseCertificateV3,
    second: RecoveryRequestV3,
    second_certificate: RecoveryReleaseCertificateV3,
    wall1: u64,
    mono1: u64,
    wall2: u64,
    mono2: u64,
    boot_id: Seq<char>,
    r1: Result<GuardianRecoveryDecisionV3, RecoveryError>,
    r2: Result<GuardianRecoveryDecisionV3, RecoveryError>,
)
    requires
        recovery_records_unique(s0),
        recovery_records_unique(s1),
        release_transition(s0, s1, first, first_certificate, wall1, mono1, boot_id, r1),
        r1 is Ok,
        second.request_id == first.request_id,
        release_transition(s1, s2, second, second_certificate, wall2, mono2, boot_id, r2),
    ensures
        r2 is Err,
{
    let id = first.request_id;
    let p = pending_position(s0.recoveries@, id);
    assert(s1.recoveries@[p].request.request_id == id);
    assert(s1.recoveries@[p].released);
    if release_refusal(s1, second, second_certificate, wall2, mono2, boot_id) is None {
        let q = pending_position(s1.recoveries@, id);
        if q < p {
            assert(s1.recoveries@[q].request.request_id != s1.recoveries@[p].request.request_id);
        } else if q > p {
            assert(s1.recoveries@[p].request.request_id != s1.recoveries@[q].request.request_id);
        }
    }
}

/// A repeated Begin is idempotent: once a guardian accepted a Begin, the
/// same certificate, while it is still valid and its request is not
/// cancelled, is answered with the same release time and changes nothing,
/// whatever the clocks, boot or demonstration mode of the repeat.
pub proof fn lemma_repeated_begin_is_idempotent(
    s0: GuardianRecoveryStateV3,
    s1: GuardianRecoveryStateV3,
    s2: GuardianRecoveryStateV3,
    certificate: BeginRecoveryCertificateV3,
    wall1: u64,
    mono1: u64,
    boot1: Seq<char>,
    demo1: bool,
    wall2: u64,
    mono2: u64,
    boot2: Seq<char>,
    demo2: bool,
    r1: Result<GuardianRecoveryDecisionV3, RecoveryError>,
    r2: Result<GuardianRecoveryDecisionV3, RecoveryError>,
)
    requires
        recovery_records_unique(s0),
        recovery_records_unique(s1),
        guardian_recovery_transition(
            s0,
            s1,
            GuardianRecoveryRequestV3::Begin { certificate },
            wall1,
            mono1,
            boot1,
            demo1,
            r1,
        ),
        r1 is Ok,
        begin_certificate_outcome(certificate, s1.predecessor_capsule, wall2) is Ok,
        !has_tombstone(s1.tombstones@, certificate.request.request_id),
        guardian_recovery_transition(
            s1,
            s2,
            GuardianRecoveryRequestV3::Begin { certificate },
            wall2,
            mono2,
            boot2,
            demo2,
            r2,
        ),
    ensures
        r2 == r1,
        s2 == s1,
{
    let request = certificate.request;
    let id = request.request_id;
    assert(begin_refusal(s0, certificate, wall1) is None);
    assert(has_pending(s1.recoveries@, id)) by {
        if !has_pending(s0.recoveries@, id) {
            assert(s1.recoveries@[s1.recoveries@.len() - 1].request.request_id == id);
        }
    }
    let q = pending_position(s1.recoveries@, id);
    if has_pending(s0.recoveries@, id) {
        let p = pending_position(s0.recoveries@, id);
        assert(s1 == s0);
        assert(q == p) by {
            if q < p {
                assert(s1.recoveries@[q].request.request_id != s1.recoveries@[p].request.request_id);
            } else if q > p {
                assert(s1.recoveries@[p].request.request_id != s1.recoveries@[q].request.request_id);
            }
        }
    } else {
        let last = s1.recoveries@.len() - 1;
        assert(s1.recoveries@[last].request.request_id == id);
        assert(q == last) by {
            if q < last {
                assert(s1.recoveries@[q].request.request_id != s1.recoveries@[last].request.request_id);
            }
        }
    }
    assert(begin_refusal(s1, certificate, wall2) is None);
}

/// Nonce replay is refused: a Begin whose request reuses the nonce of a
/// request the guardian already accepted under another id is refused and
/// changes nothing.
pub proof fn lemma_begin_refuses_replayed_nonce(
    old: GuardianRecoveryStateV3,
    new: GuardianRecoveryStateV3,
    certificate: BeginRecoveryCertificateV3,
    wall_now: u64,
    monotonic_now: u64,
    boot_id: Seq<char>,
    allow_insecure_demo_delay: bool,
    r: Result<GuardianRecoveryDecisionV3, RecoveryError>,
    i: int,
)
    requires
        recovery_records_unique(old),
        0 <= i < old.recoveries@.len(),
        old.recoveries@[i].request.nonce == certificate.request.nonce,
        old.recoveries@[i].request.request_id != certificate.request.request_id,
        guardian_recovery_transition(
            old,
            new,
            GuardianRecoveryRequestV3::Begin { certificate },
            wall_now,
            monotonic_now,
            boot_id,
            allow_insecure_demo_delay,
            r,
        ),
    ensures
        r is Err,
        new == old,
{
    let request = certificate.request;
    let id = request.request_id;
    if begin_refusal(old, certificate, wall_now) is None {
        if has_pending(old.recoveries@, id) {
            let p = pending_position(old.recoveries@, id);
            assert(old.recoveries@[p].request.nonce == request.nonce);
            if p < i {
                assert(old.recoveries@[p].request.nonce != old.recoveries@[i].request.nonce);
            } else if p > i {
                assert(old.recoveries@[i].request.nonce != old.recoveries@[p].request.nonce);
            }
        } else {
            assert(nonce_used(old.recoveries@, request.nonce));
        }
    }
}

/// A DRAINING epoch serves only what began before activation: a Release
/// answered from a record other than the ACTIVE one names a request that
/// its DRAINING epoch lists as pending.
pub proof fn lemma_draining_serves_only_pending(
    old: GuardianRecoveryStateV3,
    new: GuardianRecoveryStateV3,
    request: RecoveryRequestV3,
    certificate: RecoveryReleaseCertificateV3,
    wall_now: u64,
    monotonic_now: u64,
    boot_id: Seq<char>,
    r: Result<GuardianRecoveryDecisionV3, RecoveryError>,
)
    requires
        release_transition(old, new, request, certificate, wall_now, monotonic_now, boot_id, r),
        r is Ok,
        !(old.active is Some && old.active.unwrap().config_ref == request.config_ref),
    ensures
        has_draining(old.draining@, request.config_ref.guardian_epoch),
        old.draining@[draining_position(
            old.draining@,
            request.config_ref.guardian_epoch,
        )].pending_request_ids@.contains(request.request_id),
{
}

/// A request id a signer approved, bound to the approved digest.
#[derive(Clone, Copy, Debug)]
pub struct ApprovedRequest {
    pub request_id: Id32,
    pub request_digest: Id32,
}

/// The recovery-relevant state of one signer.
#[derive(Clone, Debug)]
pub struct SignerRecoveryStateV3 {
    pub signer_id: u16,
    pub recovery_card: RecoveryCardV3,
    /// The capsule of the epoch the last fresh witness read selected.
    pub active_capsule: ConfigCapsuleV3,
    pub recovery_requests: Vec<ApprovedRequest>,
    pub recovery_nonces: Vec<Id32>,
}

/// An Approve (with a fresh witness read) or a Release addressed to a
/// signer.
#[derive(Clone, Debug)]
pub enum SignerRecoveryRequestV3 {
    Approve {
        request: RecoveryRequestV3,
        witness_challenge: EpochReadChallenge,
        witness_reads: Vec<WitnessReadEnvelope>,
    },
    Release { request: RecoveryRequestV3 },
}

/// The key a signer seals its answer to a recovery message to: the
/// recovery recipient's key of the request.
pub fn signer_recovery_response_key(message: &SignerRecoveryRequestV3) -> (r: &Vec<u8>)
    ensures
        r@ == match *message {
            SignerRecoveryRequestV3::Approve { request, .. } => request.recovery_recipient_key@,
            SignerRecoveryRequestV3::Release { request } => request.recovery_recipient_key@,
        },
{
    match message {
        SignerRecoveryRequestV3::Approve { request, .. } => &request.recovery_recipient_key,
        SignerRecoveryRequestV3::Release { request } => &request.recovery_recipient_key,
    }
}

/// What a signer decided; sealing its share and signing are left to the
/// caller.
#[derive(Clone, Copy, Debug)]
pub enum SignerRecoveryDecisionV3 {
    /// Seal the authorization share to the request's recipient and sign
    /// the contribution for this digest.
    Approved { request_digest: Id32 },
    /// Sign a Release vote for this digest.
    ReleaseVote { request_digest: Id32 },
}

/// Approved request ids and used nonces are each unique.
pub open spec fn signer_state_wf(s: SignerRecoveryStateV3) -> bool {
    &&& forall|i: int, j: int|
        0 <= i < j < s.recovery_requests@.len() ==> (#[trigger] s.recovery_requests@[i]).request_id
            != (#[trigger] s.recovery_requests@[j]).request_id
    &&& s.recovery_nonces@.no_duplicates()
}

/// Some approval has id `id`.
pub open spec fn has_approval(s: Seq<ApprovedRequest>, id: Id32) -> bool {
    exists|i: int| 0 <= i < s.len() && (#[trigger] s[i]).request_id == id
}

/// The digest approved for id `id`.
pub open spec fn approved_digest(s: Seq<ApprovedRequest>, id: Id32) -> Id32 {
    s[choose|i: int| 0 <= i < s.len() && (#[trigger] s[i]).request_id == id].request_digest
}

/// The challenge is current at `now` and bound to the request's recipient.
pub open spec fn challenge_fresh(
    challenge: EpochReadChallenge,
    request: RecoveryRequestV3,
    now: u64,
) -> bool {
    &&& challenge.issued_at <= now
    &&& now < challenge.expiry
    &&& challenge.response_recipient_key@ == request.recovery_recipient_key@
}

/// A signer's Approve step from `old` to `new` with answer `r`.
pub open spec fn signer_approve_transition(
    old: SignerRecoveryStateV3,
    new: SignerRecoveryStateV3,
    request: RecoveryRequestV3,
    challenge: EpochReadChallenge,
    reads: Seq<WitnessReadEnvelope>,
    now: u64,
    r: Result<SignerRecoveryDecisionV3, RecoveryError>,
) -> bool {
    let id = request.request_id;
    if !challenge_fresh(challenge, request, now) {
        r == Err::<SignerRecoveryDecisionV3, RecoveryError>(RecoveryError::StaleWitnessChallenge)
            && new == old
    } else {
        match latest_epoch_choice(old.recovery_card, challenge, reads) {
            Err(e) => r == Err::<SignerRecoveryDecisionV3, RecoveryError>(
                RecoveryError::WitnessRead(e),
            ) && new == old,
            Ok(i) => {
                let active = reads[i].capsule;
                if !request_valid_for_ref(request, active, active.config_ref, now) {
                    r == Err::<SignerRecoveryDecisionV3, RecoveryError>(
                        RecoveryError::InvalidRequest,
                    ) && new == old
                } else if has_approval(old.recovery_requests@, id) && approved_digest(
                    old.recovery_requests@,
                    id,
                ) != request.digest {
                    r == Err::<SignerRecoveryDecisionV3, RecoveryError>(
                        RecoveryError::RequestIdLocked,
                    ) && new == old
                } else if !has_approval(old.recovery_requests@, id)
                    && old.recovery_nonces@.contains(request.nonce) {
                    r == Err::<SignerRecoveryDecisionV3, RecoveryError>(
                        RecoveryError::NonceReplayed,
                    ) && new == old
                } else {
                    &&& r == Ok::<SignerRecoveryDecisionV3, RecoveryError>(
                        SignerRecoveryDecisionV3::Approved { request_digest: request.digest },
                    )
                    &&& new.signer_id == old.signer_id
                    &&& new.recovery_card == old.recovery_card
                    &&& same_capsule(new.active_capsule, active)
                    &&& if has_approval(old.recovery_requests@, id) {
                        &&& new.recovery_requests == old.recovery_requests
                        &&& new.recovery_nonces == old.recovery_nonces
                    } else {
                        &&& new.recovery_requests@ == old.recovery_requests@.push(
                            ApprovedRequest { request_id: id, request_digest: request.digest },
                        )
                        &&& new.recovery_nonces@ == old.recovery_nonces@.push(request.nonce)
                    }
                }
            },
        }
    }
}

/// A signer's Release step: a vote only for a request it approved with
/// the same digest, still valid for the active epoch.
pub open spec fn signer_release_outcome(
    s: SignerRecoveryStateV3,
    request: RecoveryRequestV3,
    now: u64,
) -> Result<SignerRecoveryDecisionV3, RecoveryError> {
    if !request_valid_for_ref(request, s.active_capsule, s.active_capsule.config_ref, now) {
        Err(RecoveryError::InvalidRequest)
    } else if !has_approval(s.recovery_requests@, request.request_id) || approved_digest(
        s.recovery_requests@,
        request.request_id,
    ) != request.digest {
        Err(RecoveryError::NotApproved)
    } else {
        Ok(SignerRecoveryDecisionV3::ReleaseVote { request_digest: request.digest })
    }
}

/// Position of the approval with id `id`, if any.
fn find_approval(approvals: &Vec<ApprovedRequest>, id: &Id32) -> (r: Option<usize>)
    ensures
        match r {
            Some(i) => i < approvals@.len() && approvals@[i as int].request_id == *id,
            None => !has_approval(approvals@, *id),
        },
{
    let mut i: usize = 0;
    while i < approvals.len()
        invariant
            i <= approvals@.len(),
            forall|k: int| 0 <= k < i ==> (#[trigger] approvals@[k]).request_id != *id,
        decreases approvals.len() - i,
    {
        if id_eq(&approvals[i].request_id, id) {
            return Some(i);
        }
        i = i + 1;
    }
    None
}

/// With unique ids, the approval found at `i` is the one `approved_digest`
/// reads.
proof fn lemma_approval_position(s: SignerRecoveryStateV3, id: Id32, i: int)
    requires
        signer_state_wf(s),
        0 <= i < s.recovery_requests@.len(),
        s.recovery_requests@[i].request_id == id,
    ensures
        has_approval(s.recovery_requests@, id),
        approved_digest(s.recovery_requests@, id) == s.recovery_requests@[i].request_digest,
{
    let a = s.recovery_requests@;
    assert(a[i].request_id == id);
    let p = choose|p: int| 0 <= p < a.len() && (#[trigger] a[p]).request_id == id;
    if p < i {
        assert(a[p].request_id != a[i].request_id);
    } else if p > i {
        assert(a[i].request_id != a[p].request_id);
    }
}

/// A signer's recovery actor. Approve selects the active epoch from a fresh
/// witness read bound to the recipient, binds the request id to one digest
/// and its nonce to one request; Release votes only for an approved digest.
pub fn handle_signer_recovery_v3(
    state: &mut SignerRecoveryStateV3,
    request: SignerRecoveryRequestV3,
    now: u64,
) -> (r: Result<SignerRecoveryDecisionV3, RecoveryError>)
    requires
        signer_state_wf(*old(state)),
    ensures
        signer_state_wf(*final(state)),
        match request {
            SignerRecoveryRequestV3::Approve { request, witness_challenge, witness_reads } =>
                signer_approve_transition(
                *old(state),
                *final(state),
                request,
                witness_challenge,
                witness_reads@,
                now,
                r,
            ),
            SignerRecoveryRequestV3::Release { request } => r == signer_release_outcome(
                *old(state),
                request,
                now,
            ) && *final(state) == *old(state),
        },
{
    match request {
        SignerRecoveryRequestV3::Approve { request, witness_challenge, witness_reads } => {
            if witness_challenge.issued_at > now || witness_challenge.expiry <= now || !bytes_eq(
                witness_challenge.response_recipient_key.as_slice(),
                request.recovery_recipient_key.as_slice(),
            ) {
                return Err(RecoveryError::StaleWitnessChallenge);
            }
            let active = match select_latest_epoch_v3(
                &state.recovery_card,
                &witness_challenge,
                witness_reads.as_slice(),
            ) {
                Ok(active) => active,
                Err(e) => return Err(RecoveryError::WitnessRead(e)),
            };
            let digest = validate_recovery_request_v3(&request, &active, now)?;
            let id = request.request_id;
            match find_approval(&state.recovery_requests, &id) {
                Some(i) => {
                    proof {
                        lemma_approval_position(*state, id, i as int);
                    }
                    if !id_eq(&state.recovery_requests[i].request_digest, &digest) {
                        return Err(RecoveryError::RequestIdLocked);
                    }
                },
                None => {
                    if crate::bytes::contains_id(&state.recovery_nonces, &request.nonce) {
                        return Err(RecoveryError::NonceReplayed);
                    }
                    let ghost nonces = state.recovery_nonces@;
                    let ghost approvals = state.recovery_requests@;
                    state.recovery_nonces.push(request.nonce);
                    state.recovery_requests.push(
                        ApprovedRequest { request_id: id, request_digest: digest },
                    );
                    proof {
                        assert forall|a: int, b: int|
                            0 <= a < b < state.recovery_nonces@.len() implies state.recovery_nonces@[a]
                            != state.recovery_nonces@[b] by {
                            if b == nonces.len() {
                                assert(nonces.contains(nonces[a]));
                            }
                        }
                        assert forall|a: int, b: int|
                            0 <= a < b < state.recovery_requests@.len() implies (
                            #[trigger] state.recovery_requests@[a]).request_id != (
                            #[trigger] state.recovery_requests@[b]).request_id by {
                            if b == approvals.len() {
                                assert(approvals[a] == state.recovery_requests@[a]);
                            } else {
                                assert(approvals[a] == state.recovery_requests@[a]);
                                assert(approvals[b] == state.recovery_requests@[b]);
                            }
                        }
                    }
                },
            }
            state.active_capsule = active;
            Ok(SignerRecoveryDecisionV3::Approved { request_digest: digest })
        },
        SignerRecoveryRequestV3::Release { request } => {
            let digest = validate_recovery_request_v3(&request, &state.active_capsule, now)?;
            match find_approval(&state.recovery_requests, &request.request_id) {
                Some(i) => {
                    proof {
                        lemma_approval_position(*state, request.request_id, i as int);
                    }
                    if !id_eq(&state.recovery_requests[i].request_digest, &digest) {
                        return Err(RecoveryError::NotApproved);
                    }
                },
                None => return Err(RecoveryError::NotApproved),
            }
            Ok(SignerRecoveryDecisionV3::ReleaseVote { request_digest: digest })
        },
    }
}

/// A signer never rebinds: an Approve for an already approved request id
/// with another digest, or for a new request id with a nonce already used,
/// is refused; and every step keeps the approvals and nonces it had.
pub proof fn lemma_signer_approvals_are_permanent(
    old: SignerRecoveryStateV3,
    new: SignerRecoveryStateV3,
    request: RecoveryRequestV3,
    challenge: EpochReadChallenge,
    reads: Seq<WitnessReadEnvelope>,
    now: u64,
    r: Result<SignerRecoveryDecisionV3, RecoveryError>,
)
    requires
        signer_approve_transition(old, new, request, challenge, reads, now, r),
    ensures
        has_approval(old.recovery_requests@, request.request_id) && approved_digest(
            old.recovery_requests@,
            request.request_id,
        ) != request.digest ==> r is Err,
        !has_approval(old.recovery_requests@, request.request_id)
            && old.recovery_nonces@.contains(request.nonce) ==> r is Err,
        new.recovery_requests@.len() >= old.recovery_requests@.len(),
        forall|i: int|
            0 <= i < old.recovery_requests@.len() ==> new.recovery_requests@[i]
                == #[trigger] old.recovery_requests@[i],
        forall|x: Id32| old.recovery_nonces@.contains(x) ==> new.recovery_nonces@.contains(x),
{
    assert forall|x: Id32| old.recovery_nonces@.contains(x) implies new.recovery_nonces@.contains(
        x,
    ) by {
        let k = choose|k: int| 0 <= k < old.recovery_nonces@.len() && old.recovery_nonces@[k] == x;
        assert(new.recovery_nonces@[k] == x);
    }
}

} // verus!
