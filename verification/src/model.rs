//! Decoded protocol-v3 values that the epoch, witness and guardian decisions
//! read. Canonical encodings, hashes and signatures are produced and checked
//! by the caller's cryptographic layer; their outcomes arrive here as plain
//! digests (`body_hash`, `transcript_hash`) and flags (`*_verified`,
//! `canonical`).
use vstd::prelude::*;

use crate::bytes::{bytes_eq, id_eq, Id32};

verus! {

/// Protocol version of the epoch-rotating (v3) configuration.
pub const PROTOCOL_VERSION_V3: u16 = 3;

/// Length of an X-Wing recipient public key.
pub const XWING_PUBLIC_KEY_LEN: usize = 1216;

/// The exact configuration epoch a record, request or capsule belongs to.
#[derive(Clone, Copy, Debug)]
pub struct ConfigRef {
    pub config_id: Id32,
    pub payload_generation: u64,
    pub authorization_epoch: u64,
    pub guardian_epoch: u64,
    pub epoch_binding: Id32,
}

/// Whether `successor` is the next guardian epoch of `predecessor` for the
/// same payload and authorization epochs.
pub open spec fn is_direct_successor(successor: ConfigRef, predecessor: ConfigRef) -> bool {
    &&& successor.config_id == predecessor.config_id
    &&& successor.payload_generation == predecessor.payload_generation
    &&& successor.authorization_epoch == predecessor.authorization_epoch
    &&& successor.guardian_epoch == predecessor.guardian_epoch + 1
}

/// Compares two configuration references.
pub fn config_ref_eq(a: &ConfigRef, b: &ConfigRef) -> (r: bool)
    ensures
        r == (*a == *b),
{
    id_eq(&a.config_id, &b.config_id) && a.payload_generation == b.payload_generation
        && a.authorization_epoch == b.authorization_epoch && a.guardian_epoch == b.guardian_epoch
        && id_eq(&a.epoch_binding, &b.epoch_binding)
}

/// The transcript context shared by every message of one rotation.
#[derive(Clone, Debug)]
pub struct RotationContext {
    pub protocol_version: u16,
    pub config_ref: ConfigRef,
    pub rotation_id: Id32,
    pub predecessor_capsule_hash: Id32,
    pub recipient_key: Vec<u8>,
    pub nonce: Id32,
    pub issued_at: u64,
    pub expiry: u64,
}

/// Field-by-field equality of two rotation contexts.
pub open spec fn same_context(a: RotationContext, b: RotationContext) -> bool {
    &&& a.protocol_version == b.protocol_version
    &&& a.config_ref == b.config_ref
    &&& a.rotation_id == b.rotation_id
    &&& a.predecessor_capsule_hash == b.predecessor_capsule_hash
    &&& a.recipient_key@ == b.recipient_key@
    &&& a.nonce == b.nonce
    &&& a.issued_at == b.issued_at
    &&& a.expiry == b.expiry
}

/// Compares two rotation contexts.
pub fn context_eq(a: &RotationContext, b: &RotationContext) -> (r: bool)
    ensures
        r == same_context(*a, *b),
{
    a.protocol_version == b.protocol_version && config_ref_eq(&a.config_ref, &b.config_ref)
        && id_eq(&a.rotation_id, &b.rotation_id) && id_eq(
        &a.predecessor_capsule_hash,
        &b.predecessor_capsule_hash,
    ) && bytes_eq(a.recipient_key.as_slice(), b.recipient_key.as_slice()) && id_eq(
        &a.nonce,
        &b.nonce,
    ) && a.issued_at == b.issued_at && a.expiry == b.expiry
}

/// Copies a rotation context.
pub fn clone_context(c: &RotationContext) -> (r: RotationContext)
    ensures
        same_context(r, *c),
{
    RotationContext {
        protocol_version: c.protocol_version,
        config_ref: c.config_ref,
        rotation_id: c.rotation_id,
        predecessor_capsule_hash: c.predecessor_capsule_hash,
        recipient_key: c.recipient_key.clone(),
        nonce: c.nonce,
        issued_at: c.issued_at,
        expiry: c.expiry,
    }
}

/// One signer vote of a rotation Activate certificate.
#[derive(Clone, Copy, Debug)]
pub struct SignerActivateVote {
    pub signer_id: u16,
    pub signer_public_key: Id32,
    /// The Merkle proof places this key at `signer_id` under the
    /// signer-set commitment.
    pub membership_verified: bool,
    /// The vote's signature verifies under `signer_public_key`.
    pub signature_verified: bool,
}

/// The signer threshold's approval to activate a successor capsule.
#[derive(Clone, Debug)]
pub struct RotationActivateCertificate {
    pub context: RotationContext,
    pub plan_hash: Id32,
    pub ready_certificate_hash: Id32,
    pub successor: ConfigRef,
    pub successor_capsule_hash: Id32,
    pub votes: Vec<SignerActivateVote>,
    /// Digest of the certificate's canonical transcript.
    pub transcript_hash: Id32,
}

/// Field-by-field equality of two Activate certificates.
pub open spec fn same_activate_certificate(
    a: RotationActivateCertificate,
    b: RotationActivateCertificate,
) -> bool {
    &&& same_context(a.context, b.context)
    &&& a.plan_hash == b.plan_hash
    &&& a.ready_certificate_hash == b.ready_certificate_hash
    &&& a.successor == b.successor
    &&& a.successor_capsule_hash == b.successor_capsule_hash
    &&& a.votes@ == b.votes@
    &&& a.transcript_hash == b.transcript_hash
}

/// Copies an Activate certificate.
pub fn clone_activate_certificate(c: &RotationActivateCertificate) -> (r:
    RotationActivateCertificate)
    ensures
        same_activate_certificate(r, *c),
{
    let mut votes: Vec<SignerActivateVote> = Vec::new();
    let mut i: usize = 0;
    while i < c.votes.len()
        invariant
            i <= c.votes@.len(),
            votes@ == c.votes@.subrange(0, i as int),
        decreases c.votes.len() - i,
    {
        votes.push(c.votes[i]);
        assert(votes@ =~= c.votes@.subrange(0, i + 1));
        i = i + 1;
    }
    assert(votes@ =~= c.votes@);
    RotationActivateCertificate {
        context: clone_context(&c.context),
        plan_hash: c.plan_hash,
        ready_certificate_hash: c.ready_certificate_hash,
        successor: c.successor,
        successor_capsule_hash: c.successor_capsule_hash,
        votes,
        transcript_hash: c.transcript_hash,
    }
}

/// A witness's signed acknowledgement that it stored a successor capsule.
#[derive(Clone, Debug)]
pub struct WitnessActivationAck {
    pub context: RotationContext,
    pub plan_hash: Id32,
    pub activation_certificate_hash: Id32,
    pub witness_id: u16,
    pub predecessor_epoch: u64,
    pub predecessor_capsule_hash: Id32,
    pub successor_epoch: u64,
    pub successor_capsule_hash: Id32,
    pub witness_public_key: Id32,
    pub witness_signature: Vec<u8>,
    /// The signature verifies under `witness_public_key`.
    pub signature_verified: bool,
}

/// Field-by-field equality of two witness activation acks.
pub open spec fn same_ack(a: WitnessActivationAck, b: WitnessActivationAck) -> bool {
    &&& same_context(a.context, b.context)
    &&& a.plan_hash == b.plan_hash
    &&& a.activation_certificate_hash == b.activation_certificate_hash
    &&& a.witness_id == b.witness_id
    &&& a.predecessor_epoch == b.predecessor_epoch
    &&& a.predecessor_capsule_hash == b.predecessor_capsule_hash
    &&& a.successor_epoch == b.successor_epoch
    &&& a.successor_capsule_hash == b.successor_capsule_hash
    &&& a.witness_public_key == b.witness_public_key
    &&& a.witness_signature@ == b.witness_signature@
    &&& a.signature_verified == b.signature_verified
}

/// Compares two witness activation acks.
pub fn ack_eq(a: &WitnessActivationAck, b: &WitnessActivationAck) -> (r: bool)
    ensures
        r == same_ack(*a, *b),
{
    context_eq(&a.context, &b.context) && id_eq(&a.plan_hash, &b.plan_hash) && id_eq(
        &a.activation_certificate_hash,
        &b.activation_certificate_hash,
    ) && a.witness_id == b.witness_id && a.predecessor_epoch == b.predecessor_epoch && id_eq(
        &a.predecessor_capsule_hash,
        &b.predecessor_capsule_hash,
    ) && a.successor_epoch == b.successor_epoch && id_eq(
        &a.successor_capsule_hash,
        &b.successor_capsule_hash,
    ) && id_eq(&a.witness_public_key, &b.witness_public_key) && bytes_eq(
        a.witness_signature.as_slice(),
        b.witness_signature.as_slice(),
    ) && a.signature_verified == b.signature_verified
}

/// Copies a witness activation ack.
pub fn clone_ack(a: &WitnessActivationAck) -> (r: WitnessActivationAck)
    ensures
        same_ack(r, *a),
{
    WitnessActivationAck {
        context: clone_context(&a.context),
        plan_hash: a.plan_hash,
        activation_certificate_hash: a.activation_certificate_hash,
        witness_id: a.witness_id,
        predecessor_epoch: a.predecessor_epoch,
        predecessor_capsule_hash: a.predecessor_capsule_hash,
        successor_epoch: a.successor_epoch,
        successor_capsule_hash: a.successor_capsule_hash,
        witness_public_key: a.witness_public_key,
        witness_signature: a.witness_signature.clone(),
        signature_verified: a.signature_verified,
    }
}

/// A `2f + 1` witness quorum certificate activating a successor epoch.
#[derive(Clone, Debug)]
pub struct EpochActivationQc {
    pub protocol_version: u16,
    pub config_id: Id32,
    pub rotation_id: Id32,
    pub predecessor_epoch: u64,
    pub predecessor_capsule_hash: Id32,
    pub successor_epoch: u64,
    pub successor_capsule_hash: Id32,
    pub activation_certificate_hash: Id32,
    pub witness_fault_bound: u16,
    pub witness_acks: Vec<WitnessActivationAck>,
    /// The QC has a canonical transcript encoding.
    pub canonical: bool,
}

/// Field-by-field equality of two activation QCs.
pub open spec fn same_qc(a: EpochActivationQc, b: EpochActivationQc) -> bool {
    &&& a.protocol_version == b.protocol_version
    &&& a.config_id == b.config_id
    &&& a.rotation_id == b.rotation_id
    &&& a.predecessor_epoch == b.predecessor_epoch
    &&& a.predecessor_capsule_hash == b.predecessor_capsule_hash
    &&& a.successor_epoch == b.successor_epoch
    &&& a.successor_capsule_hash == b.successor_capsule_hash
    &&& a.activation_certificate_hash == b.activation_certificate_hash
    &&& a.witness_fault_bound == b.witness_fault_bound
    &&& a.witness_acks@.len() == b.witness_acks@.len()
    &&& forall|i: int|
        0 <= i < a.witness_acks@.len() ==> same_ack(
            #[trigger] a.witness_acks@[i],
            b.witness_acks@[i],
        )
    &&& a.canonical == b.canonical
}

/// Copies an activation QC.
pub fn clone_qc(q: &EpochActivationQc) -> (r: EpochActivationQc)
    ensures
        same_qc(r, *q),
{
    let mut acks: Vec<WitnessActivationAck> = Vec::new();
    let mut i: usize = 0;
    while i < q.witness_acks.len()
        invariant
            i <= q.witness_acks@.len(),
            acks@.len() == i,
            forall|j: int| 0 <= j < i ==> same_ack(#[trigger] acks@[j], q.witness_acks@[j]),
        decreases q.witness_acks.len() - i,
    {
        acks.push(clone_ack(&q.witness_acks[i]));
        i = i + 1;
    }
    EpochActivationQc {
        protocol_version: q.protocol_version,
        config_id: q.config_id,
        rotation_id: q.rotation_id,
        predecessor_epoch: q.predecessor_epoch,
        predecessor_capsule_hash: q.predecessor_capsule_hash,
        successor_epoch: q.successor_epoch,
        successor_capsule_hash: q.successor_capsule_hash,
        activation_certificate_hash: q.activation_certificate_hash,
        witness_fault_bound: q.witness_fault_bound,
        witness_acks: acks,
        canonical: q.canonical,
    }
}

/// A published protocol-v3 configuration capsule for one guardian epoch.
#[derive(Clone, Debug)]
pub struct ConfigCapsuleV3 {
    pub protocol_version: u16,
    pub config_ref: ConfigRef,
    pub capsule_hash: Id32,
    pub predecessor_capsule_hash: Id32,
    pub signer_count: u16,
    pub signer_threshold: u16,
    pub guardian_count: u16,
    pub guardian_threshold: u16,
    pub minimum_recovery_delay: u64,
    pub max_request_lifetime: u64,
    pub signer_set_commitment: Id32,
    pub owner_cancel_public_key: Id32,
    pub dpss_suite: u16,
    pub dpss_public_commitment: Id32,
    pub guardian_material_root: Id32,
    /// Digest of the capsule's canonical body.
    pub body_hash: Id32,
    pub activation_certificate: Option<RotationActivateCertificate>,
    pub activation_qc: Option<EpochActivationQc>,
}

/// Field-by-field equality of two capsules.
pub open spec fn same_capsule(a: ConfigCapsuleV3, b: ConfigCapsuleV3) -> bool {
    &&& a.protocol_version == b.protocol_version
    &&& a.config_ref == b.config_ref
    &&& a.capsule_hash == b.capsule_hash
    &&& a.predecessor_capsule_hash == b.predecessor_capsule_hash
    &&& a.signer_count == b.signer_count
    &&& a.signer_threshold == b.signer_threshold
    &&& a.guardian_count == b.guardian_count
    &&& a.guardian_threshold == b.guardian_threshold
    &&& a.minimum_recovery_delay == b.minimum_recovery_delay
    &&& a.max_request_lifetime == b.max_request_lifetime
    &&& a.signer_set_commitment == b.signer_set_commitment
    &&& a.owner_cancel_public_key == b.owner_cancel_public_key
    &&& a.dpss_suite == b.dpss_suite
    &&& a.dpss_public_commitment == b.dpss_public_commitment
    &&& a.guardian_material_root == b.guardian_material_root
    &&& a.body_hash == b.body_hash
    &&& match (a.activation_certificate, b.activation_certificate) {
        (Some(x), Some(y)) => same_activate_certificate(x, y),
        (None, None) => true,
        _ => false,
    }
    &&& match (a.activation_qc, b.activation_qc) {
        (Some(x), Some(y)) => same_qc(x, y),
        (None, None) => true,
        _ => false,
    }
}

/// Copies a capsule.
pub fn clone_capsule(c: &ConfigCapsuleV3) -> (r: ConfigCapsuleV3)
    ensures
        same_capsule(r, *c),
{
    let activation_certificate = match &c.activation_certificate {
        Some(x) => Some(clone_activate_certificate(x)),
        None => None,
    };
    let activation_qc = match &c.activation_qc {
        Some(x) => Some(clone_qc(x)),
        None => None,
    };
    ConfigCapsuleV3 {
        protocol_version: c.protocol_version,
        config_ref: c.config_ref,
        capsule_hash: c.capsule_hash,
        predecessor_capsule_hash: c.predecessor_capsule_hash,
        signer_count: c.signer_count,
        signer_threshold: c.signer_threshold,
        guardian_count: c.guardian_count,
        guardian_threshold: c.guardian_threshold,
        minimum_recovery_delay: c.minimum_recovery_delay,
        max_request_lifetime: c.max_request_lifetime,
        signer_set_commitment: c.signer_set_commitment,
        owner_cancel_public_key: c.owner_cancel_public_key,
        dpss_suite: c.dpss_suite,
        dpss_public_commitment: c.dpss_public_commitment,
        guardian_material_root: c.guardian_material_root,
        body_hash: c.body_hash,
        activation_certificate,
        activation_qc,
    }
}

/// A config witness pinned on the Recovery Card.
#[derive(Clone, Debug)]
pub struct WitnessPin {
    pub witness_id: u16,
    pub mailbox: String,
    pub public_key: Id32,
}

/// The protocol-v3 Recovery Card: a locator, not a recovery key.
#[derive(Clone, Debug)]
pub struct RecoveryCardV3 {
    pub protocol_version: u16,
    pub config_id: Id32,
    pub signer_mailboxes: Vec<String>,
    pub signer_set_commitment: Id32,
    pub owner_cancel_public_key: Id32,
    pub witness_fault_bound: u16,
    pub witnesses: Vec<WitnessPin>,
    pub relay_bases: Vec<String>,
}

/// A nonce-bound read request sent to every pinned witness.
#[derive(Clone, Debug)]
pub struct EpochReadChallenge {
    pub protocol_version: u16,
    pub config_id: Id32,
    pub client_nonce: Id32,
    pub response_recipient_key: Vec<u8>,
    pub issued_at: u64,
    pub expiry: u64,
    /// The challenge has a canonical transcript encoding.
    pub canonical: bool,
}

/// A witness's signed answer to an epoch read.
#[derive(Clone, Debug)]
pub struct WitnessEpochReadResponse {
    pub protocol_version: u16,
    pub config_id: Id32,
    pub client_nonce: Id32,
    pub witness_id: u16,
    pub highest_guardian_epoch: u64,
    pub capsule_hash: Id32,
    pub witness_public_key: Id32,
    /// The response has a canonical transcript encoding.
    pub canonical: bool,
    /// The signature verifies under the witness's pinned key.
    pub signature_verified: bool,
}

/// A witness read response together with the capsule it vouches for.
#[derive(Clone, Debug)]
pub struct WitnessReadEnvelope {
    pub response: WitnessEpochReadResponse,
    pub capsule: ConfigCapsuleV3,
}

} // verus!
