//! The config witness: a pinned register of the active guardian epoch per
//! configuration. It stores at most one pending successor, activates it
//! only with a `2f + 1` quorum certificate that includes its own ack,
//! permanently refuses owner-cancelled rotations, and answers each read
//! nonce once with the activated capsule only.
use vstd::prelude::*;

use crate::bytes::{contains_id, id_eq, Id32};
use crate::model::{
    ack_eq, clone_ack, clone_capsule, config_ref_eq, same_ack, same_capsule, ConfigCapsuleV3,
    EpochActivationQc, EpochReadChallenge, RotationActivateCertificate, RotationContext,
    WitnessActivationAck, PROTOCOL_VERSION_V3, XWING_PUBLIC_KEY_LEN, clone_context,
    clone_activate_certificate, same_context, same_activate_certificate, same_qc, clone_qc,
};
use crate::quorum::{witness_quorum, witness_roster_minimum};
use crate::text::{hex_encode, hex_lower};

verus! {

/// Why a witness refused a request.
#[derive(Debug, Clone, Copy, PartialEq, Eq)]
pub enum WitnessError {
    /// Witness id 0, wrong protocol, epoch 0, signer count mismatch or zero
    /// fault bound.
    InvalidGenesisPolicy,
    /// The capsule hash is not the hash of its canonical body.
    InvalidCapsuleHash,
    /// The pinned signer ids are not exactly `1..=signer_count`.
    SignerIdsNotCanonical,
    /// The pinned signer keys do not commit to the signer-set commitment.
    SignerCommitmentMismatch,
    /// Fewer than `3f + 1` pinned witnesses, a repeated id or key, or this
    /// witness is not pinned under its own key.
    InvalidWitnessRoster,
    /// The configuration is already provisioned.
    AlreadyProvisioned,
    /// No configuration is stored under the requested id.
    NotFound,
    /// The owner cancellation is malformed, for another path, or expired.
    MalformedCancellation,
    /// The owner cancellation does not bind the active predecessor.
    CancellationNotBound,
    /// The owner's signature does not verify.
    BadOwnerSignature,
    /// Another cancellation of the same rotation id is stored.
    ConflictingCancellation,
    /// The pending successor carries no Activate certificate.
    PendingWithoutActivation,
    /// The cancellation names a rotation other than the pending one.
    CancellationNotBindingPending,
    /// The durable epoch register refused the write.
    RegisterRefused,
    /// The capsule's configuration id differs from the request path.
    PathMismatch,
    /// The Activate certificate does not bind the exact capsule.
    ActivationNotBound,
    /// The rotation was cancelled by the owner.
    RotationCancelled,
    /// The pending successor has no stored ack.
    NoDurableAck,
    /// A different successor is already pending.
    LockedToAnotherSuccessor,
    /// Stale predecessor, immutable-policy downgrade or too few votes.
    PolicyViolation,
    /// An Activate vote is not from a pinned signer key.
    UnpinnedSigner,
    /// An Activate vote's signature does not verify.
    BadSignerSignature,
    /// No successor is pending.
    NoPendingSuccessor,
    /// The activation QC has no canonical encoding.
    QcNotCanonical,
    /// The activation QC does not bind the pending successor.
    QcMismatch,
    /// A QC ack is from an unpinned witness.
    UnpinnedWitness,
    /// A QC ack repeats a witness or substitutes its key.
    DuplicateOrSubstitutedWitness,
    /// A QC ack's signature does not verify.
    BadWitnessSignature,
    /// The QC has fewer than `2f + 1` acks or omits this witness's exact
    /// ack.
    NoQuorumOrOwnAck,
    /// Wrong protocol version or another configuration's path.
    InvalidChallenge,
    /// The challenge is not yet issued or expired.
    ExpiredChallenge,
    /// The challenge has no canonical encoding.
    ChallengeNotCanonical,
    /// The read nonce was already answered.
    ReplayedReadNonce,
}

/// A signer key pinned at provisioning.
#[derive(Clone, Copy, Debug)]
pub struct SignerPin {
    pub signer_id: u16,
    pub public_key: Id32,
}

/// A witness key pinned at provisioning.
#[derive(Clone, Copy, Debug)]
pub struct WitnessKeyPin {
    pub witness_id: u16,
    pub public_key: Id32,
}

/// An owner cancellation of one rotation id, kept forever.
#[derive(Clone, Copy, Debug)]
pub struct RotationCancellation {
    pub rotation_id: Id32,
    pub plan_hash: Id32,
    pub cancel_certificate_hash: Id32,
}

/// The durable epoch register: the highest epoch written before any ack,
/// and the read nonces already answered.
#[derive(Clone, Debug)]
pub struct WitnessRegister {
    pub highest_guardian_epoch: u64,
    pub highest_capsule_hash: Id32,
    pub read_nonces: Vec<Id32>,
}

/// One configuration's witness state.
#[derive(Clone, Debug)]
pub struct WitnessConfigEntry {
    pub witness_id: u16,
    pub register: WitnessRegister,
    /// The activated capsule, the only one reads expose.
    pub capsule: ConfigCapsuleV3,
    /// The single successor this witness acknowledged, awaiting its QC.
    pub pending_capsule: Option<ConfigCapsuleV3>,
    pub pending_ack: Option<WitnessActivationAck>,
    pub rotation_cancellations: Vec<RotationCancellation>,
    pub signer_public_keys: Vec<SignerPin>,
    pub witness_public_keys: Vec<WitnessKeyPin>,
    pub witness_fault_bound: u16,
}

/// A stored configuration under its mailbox key (hex configuration id).
#[derive(Clone, Debug)]
pub struct WitnessSlot {
    pub key: String,
    pub entry: WitnessConfigEntry,
}

/// All configurations this witness serves.
#[derive(Clone, Debug)]
pub struct WitnessDisk {
    pub entries: Vec<WitnessSlot>,
}

/// The genesis policy an administrator provisions.
#[derive(Clone, Debug)]
pub struct WitnessConfigProvision {
    pub witness_id: u16,
    pub capsule: ConfigCapsuleV3,
    pub signer_public_keys: Vec<SignerPin>,
    pub witness_public_keys: Vec<WitnessKeyPin>,
    pub witness_fault_bound: u16,
    /// The Merkle root over the pinned signer keys equals the capsule's
    /// signer-set commitment.
    pub signer_commitment_verified: bool,
}

/// A durable acknowledgement of a stored configuration.
#[derive(Clone, Debug)]
pub struct ProvisionAck {
    pub mailbox: String,
    pub stored: bool,
}

/// Some slot is stored under `key`.
pub open spec fn has_slot(entries: Seq<WitnessSlot>, key: Seq<char>) -> bool {
    exists|i: int| 0 <= i < entries.len() && (#[trigger] entries[i]).key@ == key
}

/// Position of the slot stored under `key`, if any.
fn find_slot(disk: &WitnessDisk, key: &String) -> (r: Option<usize>)
    ensures
        match r {
            Some(i) => i < disk.entries@.len() && disk.entries@[i as int].key@ == key@,
            None => !has_slot(disk.entries@, key@),
        },
{
    let mut i: usize = 0;
    while i < disk.entries.len()
        invariant
            i <= disk.entries@.len(),
            forall|k: int| 0 <= k < i ==> (#[trigger] disk.entries@[k]).key@ != key@,
        decreases disk.entries.len() - i,
    {
        if disk.entries[i].key == *key {
            return Some(i);
        }
        i = i + 1;
    }
    None
}

/// Signer pin `i` has an id in `1..=count` not used by an earlier pin.
pub open spec fn signer_pin_ok(pins: Seq<SignerPin>, count: u16, i: int) -> bool {
    &&& 1 <= pins[i].signer_id <= count
    &&& forall|j: int| 0 <= j < i ==> (#[trigger] pins[j]).signer_id != pins[i].signer_id
}

/// Witness pin `i` repeats no earlier id or key.
pub open spec fn witness_pin_ok(pins: Seq<WitnessKeyPin>, i: int) -> bool {
    forall|j: int|
        0 <= j < i ==> (#[trigger] pins[j]).witness_id != pins[i].witness_id && pins[j].public_key
            != pins[i].public_key
}

/// The witness is pinned under `key`.
pub open spec fn pinned_as(pins: Seq<WitnessKeyPin>, id: u16, key: Id32) -> bool {
    exists|i: int| 0 <= i < pins.len() && (#[trigger] pins[i]).witness_id == id && pins[i].public_key == key
}

/// The provisioned genesis policy is coherent.
pub open spec fn genesis_policy_ok(p: WitnessConfigProvision) -> bool {
    &&& p.witness_id != 0
    &&& p.capsule.protocol_version == PROTOCOL_VERSION_V3
    &&& p.capsule.config_ref.guardian_epoch != 0
    &&& p.signer_public_keys@.len() == p.capsule.signer_count
    &&& p.witness_fault_bound != 0
}

/// The pinned witness roster is large enough, repeats nothing and pins this
/// witness under its own key.
pub open spec fn witness_roster_ok(p: WitnessConfigProvision, own_key: Id32) -> bool {
    &&& p.witness_public_keys@.len() >= witness_roster_minimum(p.witness_fault_bound as int)
    &&& forall|i: int| 0 <= i < p.witness_public_keys@.len() ==> #[trigger] witness_pin_ok(p.witness_public_keys@, i)
    &&& pinned_as(p.witness_public_keys@, p.witness_id, own_key)
}

/// Outcome of provisioning `p` on a witness whose own key is `own_key`.
pub open spec fn provision_refusal(
    disk: WitnessDisk,
    p: WitnessConfigProvision,
    own_key: Id32,
) -> Option<WitnessError> {
    if !genesis_policy_ok(p) {
        Some(WitnessError::InvalidGenesisPolicy)
    } else if p.capsule.body_hash != p.capsule.capsule_hash {
        Some(WitnessError::InvalidCapsuleHash)
    } else if !(forall|i: int|
        0 <= i < p.signer_public_keys@.len() ==> #[trigger] signer_pin_ok(
            p.signer_public_keys@,
            p.capsule.signer_count,
            i,
        )) {
        Some(WitnessError::SignerIdsNotCanonical)
    } else if !p.signer_commitment_verified {
        Some(WitnessError::SignerCommitmentMismatch)
    } else if !witness_roster_ok(p, own_key) {
        Some(WitnessError::InvalidWitnessRoster)
    } else if has_slot(disk.entries@, hex_lower(p.capsule.config_ref.config_id@)) {
        Some(WitnessError::AlreadyProvisioned)
    } else {
        None
    }
}

/// Whether every signer pin is acceptable.
fn signer_pins_ok(pins: &Vec<SignerPin>, count: u16) -> (r: bool)
    ensures
        r == forall|i: int| 0 <= i < pins@.len() ==> #[trigger] signer_pin_ok(pins@, count, i),
{
    let mut i: usize = 0;
    while i < pins.len()
        invariant
            i <= pins@.len(),
            forall|k: int| 0 <= k < i ==> #[trigger] signer_pin_ok(pins@, count, k),
        decreases pins.len() - i,
    {
        let pin = pins[i];
        if pin.signer_id == 0 || pin.signer_id > count {
            assert(!signer_pin_ok(pins@, count, i as int));
            return false;
        }
        let mut j: usize = 0;
        while j < i
            invariant
                j <= i < pins@.len(),
                pin == pins@[i as int],
                forall|k: int| 0 <= k < j ==> (#[trigger] pins@[k]).signer_id != pin.signer_id,
            decreases i - j,
        {
            if pins[j].signer_id == pin.signer_id {
                assert(!signer_pin_ok(pins@, count, i as int));
                return false;
            }
            j = j + 1;
        }
        assert(signer_pin_ok(pins@, count, i as int));
        i = i + 1;
    }
    true
}

/// Whether the pinned witness roster is acceptable.
#[verifier::loop_isolation(false)]
fn witness_pins_ok(p: &WitnessConfigProvision, own_key: &Id32) -> (r: bool)
    ensures
        r == witness_roster_ok(*p, *own_key),
{
    let pins = &p.witness_public_keys;
    let required = (p.witness_fault_bound as usize) * 3 + 1;
    if pins.len() < required {
        return false;
    }
    let mut own = false;
    let mut i: usize = 0;
    while i < pins.len()
        invariant
            i <= pins@.len(),
            forall|k: int| 0 <= k < i ==> #[trigger] witness_pin_ok(pins@, k),
            own == exists|k: int|
                0 <= k < i && (#[trigger] pins@[k]).witness_id == p.witness_id && pins@[k].public_key
                    == *own_key,
        decreases pins.len() - i,
    {
        let pin = pins[i];
        let mut j: usize = 0;
        while j < i
            invariant
                j <= i < pins@.len(),
                pin == pins@[i as int],
                forall|k: int|
                    0 <= k < j ==> (#[trigger] pins@[k]).witness_id != pin.witness_id
                        && pins@[k].public_key != pin.public_key,
            decreases i - j,
        {
            if pins[j].witness_id == pin.witness_id || id_eq(&pins[j].public_key, &pin.public_key) {
                assert(!witness_pin_ok(pins@, i as int));
                return false;
            }
            j = j + 1;
        }
        assert(witness_pin_ok(pins@, i as int));
        if pin.witness_id == p.witness_id && id_eq(&pin.public_key, own_key) {
            own = true;
        }
        i = i + 1;
    }
    own
}

/// The new configuration entry for an accepted genesis provision.
pub open spec fn provisioned_entry(e: WitnessConfigEntry, p: WitnessConfigProvision) -> bool {
    &&& e.witness_id == p.witness_id
    &&& e.register.highest_guardian_epoch == p.capsule.config_ref.guardian_epoch
    &&& e.register.highest_capsule_hash == p.capsule.capsule_hash
    &&& e.register.read_nonces@.len() == 0
    &&& same_capsule(e.capsule, p.capsule)
    &&& e.pending_capsule is None
    &&& e.pending_ack is None
    &&& e.rotation_cancellations@.len() == 0
    &&& e.signer_public_keys@ == p.signer_public_keys@
    &&& e.witness_public_keys@ == p.witness_public_keys@
    &&& e.witness_fault_bound == p.witness_fault_bound
}

/// Stores a configuration's genesis policy: the capsule must hash to its
/// body, the pinned signer keys must be exactly `1..=signer_count` and
/// commit to the capsule, and at least `3f + 1` distinct witnesses must be
/// pinned, this one under its own key.
pub fn witness_provision(
    disk: &mut WitnessDisk,
    provision: WitnessConfigProvision,
    own_witness_key: &Id32,
) -> (r: Result<ProvisionAck, WitnessError>)
    ensures
        match provision_refusal(*old(disk), provision, *own_witness_key) {
            Some(e) => r == Err::<ProvisionAck, WitnessError>(e) && *final(disk) == *old(disk),
            None => {
                &&& r matches Ok(ack) && ack.stored && ack.mailbox@ == hex_lower(
                    provision.capsule.config_ref.config_id@,
                )
                &&& final(disk).entries@.len() == old(disk).entries@.len() + 1
                &&& final(disk).entries@.drop_last() == old(disk).entries@
                &&& final(disk).entries@.last().key@ == hex_lower(
                    provision.capsule.config_ref.config_id@,
                )
                &&& provisioned_entry(final(disk).entries@.last().entry, provision)
            },
        },
        witness_disk_wf(*old(disk)) ==> witness_disk_wf(*final(disk)),
{
    if provision.witness_id == 0 || provision.capsule.protocol_version != PROTOCOL_VERSION_V3
        || provision.capsule.config_ref.guardian_epoch == 0 || provision.signer_public_keys.len()
        != provision.capsule.signer_count as usize || provision.witness_fault_bound == 0 {
        return Err(WitnessError::InvalidGenesisPolicy);
    }
    if !id_eq(&provision.capsule.body_hash, &provision.capsule.capsule_hash) {
        return Err(WitnessError::InvalidCapsuleHash);
    }
    if !signer_pins_ok(&provision.signer_public_keys, provision.capsule.signer_count) {
        return Err(WitnessError::SignerIdsNotCanonical);
    }
    if !provision.signer_commitment_verified {
        return Err(WitnessError::SignerCommitmentMismatch);
    }
    if !witness_pins_ok(&provision, own_witness_key) {
        return Err(WitnessError::InvalidWitnessRoster);
    }
    let key = hex_encode(provision.capsule.config_ref.config_id.as_slice());
    proof {
        broadcast use vstd::array::group_array_axioms;
    }
    if find_slot(disk, &key).is_some() {
        return Err(WitnessError::AlreadyProvisioned);
    }
    let capsule_ref = provision.capsule.config_ref;
    let capsule_hash = provision.capsule.capsule_hash;
    let mailbox = key.clone();
    let ghost before = disk.entries@;
    disk.entries.push(
        WitnessSlot {
            key,
            entry: WitnessConfigEntry {
                witness_id: provision.witness_id,
                register: WitnessRegister {
                    highest_guardian_epoch: capsule_ref.guardian_epoch,
                    highest_capsule_hash: capsule_hash,
                    read_nonces: Vec::new(),
                },
                capsule: provision.capsule,
                pending_capsule: None,
                pending_ack: None,
                rotation_cancellations: Vec::new(),
                signer_public_keys: provision.signer_public_keys,
                witness_public_keys: provision.witness_public_keys,
                witness_fault_bound: provision.witness_fault_bound,
            },
        },
    );
    proof {
        if witness_disk_wf(*old(disk)) {
            let e = disk.entries@.last().entry;
            assert forall|i: int, j: int|
                0 <= i < j < e.signer_public_keys@.len() implies (#[trigger] e.signer_public_keys@[i]).signer_id
                != (#[trigger] e.signer_public_keys@[j]).signer_id by {
                assert(signer_pin_ok(e.signer_public_keys@, provision.capsule.signer_count, j));
            }
            assert forall|i: int, j: int|
                0 <= i < j < e.witness_public_keys@.len() implies (#[trigger] e.witness_public_keys@[i]).witness_id
                != (#[trigger] e.witness_public_keys@[j]).witness_id by {
                assert(witness_pin_ok(e.witness_public_keys@, j));
            }
            assert(witness_entry_wf(e));
            assert forall|i: int, j: int|
                0 <= i < j < disk.entries@.len() implies (#[trigger] disk.entries@[i]).key@ != (
                #[trigger] disk.entries@[j]).key@ by {
                assert(disk.entries@[i] == before[i]);
                if j < before.len() {
                    assert(disk.entries@[j] == before[j]);
                }
            }
            assert forall|i: int| 0 <= i < disk.entries@.len() implies witness_entry_wf(
                #[trigger] disk.entries@[i].entry,
            ) by {
                if i < before.len() {
                    assert(disk.entries@[i] == before[i]);
                }
            }
        }
    }
    Ok(ProvisionAck { mailbox, stored: true })
}

/// The owner's cancellation of one rotation, as a witness reads it.
#[derive(Clone, Debug)]
pub struct OwnerRotationCancelCertificate {
    pub context: RotationContext,
    pub plan_hash: Id32,
    pub cancel_response_recipient_key: Vec<u8>,
    pub owner_cancel_public_key: Id32,
    /// SHA-256 of the certificate's canonical transcript.
    pub transcript_hash: Id32,
    /// The owner's signature over the transcript verifies.
    pub signature_verified: bool,
}

/// What a witness acknowledges after storing a rotation cancellation; the
/// caller signs it.
#[derive(Clone, Copy, Debug)]
pub struct WitnessRotationCancelReceipt {
    pub config_id: Id32,
    pub rotation_id: Id32,
    pub plan_hash: Id32,
    pub cancel_certificate_hash: Id32,
    pub witness_id: u16,
}

/// What a witness read answers; the caller signs the response.
#[derive(Clone, Debug)]
pub struct WitnessReadAnswer {
    pub witness_id: u16,
    pub capsule: ConfigCapsuleV3,
}

/// Pin ids are unique, cancellations are unique per rotation id and read
/// nonces are unique.
pub open spec fn witness_entry_wf(e: WitnessConfigEntry) -> bool {
    &&& forall|i: int, j: int|
        0 <= i < j < e.signer_public_keys@.len() ==> (#[trigger] e.signer_public_keys@[i]).signer_id
            != (#[trigger] e.signer_public_keys@[j]).signer_id
    &&& forall|i: int, j: int|
        0 <= i < j < e.witness_public_keys@.len() ==> (#[trigger] e.witness_public_keys@[i]).witness_id
            != (#[trigger] e.witness_public_keys@[j]).witness_id
    &&& forall|i: int, j: int|
        0 <= i < j < e.rotation_cancellations@.len() ==> (
        #[trigger] e.rotation_cancellations@[i]).rotation_id != (
        #[trigger] e.rotation_cancellations@[j]).rotation_id
    &&& e.register.read_nonces@.no_duplicates()
}

/// Some cancellation is stored for `rotation_id`.
pub open spec fn has_cancellation(s: Seq<RotationCancellation>, rotation_id: Id32) -> bool {
    exists|i: int| 0 <= i < s.len() && (#[trigger] s[i]).rotation_id == rotation_id
}

/// The cancellation stored for `rotation_id`.
pub open spec fn cancellation_for(s: Seq<RotationCancellation>, rotation_id: Id32) -> RotationCancellation {
    s[choose|i: int| 0 <= i < s.len() && (#[trigger] s[i]).rotation_id == rotation_id]
}

/// Position of the cancellation of `rotation_id`, if any.
fn find_cancellation(s: &Vec<RotationCancellation>, rotation_id: &Id32) -> (r: Option<usize>)
    ensures
        match r {
            Some(i) => i < s@.len() && s@[i as int].rotation_id == *rotation_id,
            None => !has_cancellation(s@, *rotation_id),
        },
{
    let mut i: usize = 0;
    while i < s.len()
        invariant
            i <= s@.len(),
            forall|k: int| 0 <= k < i ==> (#[trigger] s@[k]).rotation_id != *rotation_id,
        decreases s.len() - i,
    {
        if id_eq(&s[i].rotation_id, rotation_id) {
            return Some(i);
        }
        i = i + 1;
    }
    None
}

proof fn lemma_cancellation_for(e: WitnessConfigEntry, rotation_id: Id32, i: int)
    requires
        witness_entry_wf(e),
        0 <= i < e.rotation_cancellations@.len(),
        e.rotation_cancellations@[i].rotation_id == rotation_id,
    ensures
        has_cancellation(e.rotation_cancellations@, rotation_id),
        cancellation_for(e.rotation_cancellations@, rotation_id) == e.rotation_cancellations@[i],
{
    let s = e.rotation_cancellations@;
    assert(s[i].rotation_id == rotation_id);
    let p = choose|p: int| 0 <= p < s.len() && (#[trigger] s[p]).rotation_id == rotation_id;
    if p < i {
        assert(s[p].rotation_id != s[i].rotation_id);
    } else if p > i {
        assert(s[i].rotation_id != s[p].rotation_id);
    }
}

/// All fields but the activation evidence agree.
pub open spec fn same_capsule_body(a: ConfigCapsuleV3, b: ConfigCapsuleV3) -> bool {
    &&& a.protocol_version == b.protocol_version
    &&& a.config_ref == b.config_ref
    &&& a.capsule_hash == b.capsule_hash
    &&& a.predecessor_capsule_hash == b.predecessor_capsule_hash
    &&& a.signer_count == b.signer_count
    &&& a.signer_threshold == b.signer_threshold
    &&& a.guardian_count == b.guardian_count
    &&& a.guardian_threshold == b.guardian_threshold
    &&& a.minimum_recovery_delay == b.minimum_recovery_delay
    &&& a.max_request_lifetime == b.max_request_lifetime
    &&& a.signer_set_commitment == b.signer_set_commitment
    &&& a.owner_cancel_public_key == b.owner_cancel_public_key
    &&& a.dpss_suite == b.dpss_suite
    &&& a.dpss_public_commitment == b.dpss_public_commitment
    &&& a.guardian_material_root == b.guardian_material_root
    &&& a.body_hash == b.body_hash
}

/// Copies a capsule, replacing its activation evidence.
fn capsule_with_evidence(
    c: &ConfigCapsuleV3,
    activation_certificate: Option<RotationActivateCertificate>,
    activation_qc: Option<EpochActivationQc>,
) -> (r: ConfigCapsuleV3)
    ensures
        same_capsule_body(r, *c),
        r.activation_certificate == activation_certificate,
        r.activation_qc == activation_qc,
{
    ConfigCapsuleV3 {
        protocol_version: c.protocol_version,
        config_ref: c.config_ref,
        capsule_hash: c.capsule_hash,
        predecessor_capsule_hash: c.predecessor_capsule_hash,
        signer_count: c.signer_count,
        signer_threshold: c.signer_threshold,
        guardian_count: c.guardian_count,
        guardian_threshold: c.guardian_threshold,
        minimum_recovery_delay: c.minimum_recovery_delay,
        max_request_lifetime: c.max_request_lifetime,
        signer_set_commitment: c.signer_set_commitment,
        owner_cancel_public_key: c.owner_cancel_public_key,
        dpss_suite: c.dpss_suite,
        dpss_public_commitment: c.dpss_public_commitment,
        guardian_material_root: c.guardian_material_root,
        body_hash: c.body_hash,
        activation_certificate,
        activation_qc,
    }
}

/// Why a stored configuration refuses an owner rotation cancellation.
pub open spec fn cancel_rotation_refusal(
    e: WitnessConfigEntry,
    c: OwnerRotationCancelCertificate,
) -> Option<WitnessError> {
    let rotation_id = c.context.rotation_id;
    if c.context.config_ref != e.capsule.config_ref || c.context.predecessor_capsule_hash
        != e.capsule.capsule_hash || c.owner_cancel_public_key != e.capsule.owner_cancel_public_key {
        Some(WitnessError::CancellationNotBound)
    } else if !c.signature_verified {
        Some(WitnessError::BadOwnerSignature)
    } else if has_cancellation(e.rotation_cancellations@, rotation_id) {
        let existing = cancellation_for(e.rotation_cancellations@, rotation_id);
        if existing.plan_hash != c.plan_hash || existing.cancel_certificate_hash != c.transcript_hash {
            Some(WitnessError::ConflictingCancellation)
        } else {
            None
        }
    } else {
        match e.pending_capsule {
            None => None,
            Some(pending) => match pending.activation_certificate {
                None => Some(WitnessError::PendingWithoutActivation),
                Some(activation) => if activation.context.rotation_id != rotation_id
                    || activation.plan_hash != c.plan_hash || pending.predecessor_capsule_hash
                    != e.capsule.capsule_hash {
                    Some(WitnessError::CancellationNotBindingPending)
                } else if e.register.highest_guardian_epoch != pending.config_ref.guardian_epoch
                    || e.register.highest_capsule_hash != pending.capsule_hash {
                    Some(WitnessError::RegisterRefused)
                } else {
                    None
                },
            },
        }
    }
}

/// A stored configuration's step on an owner rotation cancellation: the
/// cancellation is kept forever and any pending successor is rolled back.
pub open spec fn cancel_rotation_transition(
    old: WitnessConfigEntry,
    new: WitnessConfigEntry,
    c: OwnerRotationCancelCertificate,
    r: Result<WitnessRotationCancelReceipt, WitnessError>,
) -> bool {
    let rotation_id = c.context.rotation_id;
    match cancel_rotation_refusal(old, c) {
        Some(e) => r == Err::<WitnessRotationCancelReceipt, WitnessError>(e) && new == old,
        None => {
            &&& r == Ok::<WitnessRotationCancelReceipt, WitnessError>(
                WitnessRotationCancelReceipt {
                    config_id: c.context.config_ref.config_id,
                    rotation_id,
                    plan_hash: c.plan_hash,
                    cancel_certificate_hash: c.transcript_hash,
                    witness_id: old.witness_id,
                },
            )
            &&& if has_cancellation(old.rotation_cancellations@, rotation_id) {
                new == old
            } else {
                &&& new.witness_id == old.witness_id
                &&& new.capsule == old.capsule
                &&& new.signer_public_keys == old.signer_public_keys
                &&& new.witness_public_keys == old.witness_public_keys
                &&& new.witness_fault_bound == old.witness_fault_bound
                &&& new.register.read_nonces == old.register.read_nonces
                &&& new.rotation_cancellations@ == old.rotation_cancellations@.push(
                    RotationCancellation {
                        rotation_id,
                        plan_hash: c.plan_hash,
                        cancel_certificate_hash: c.transcript_hash,
                    },
                )
                &&& new.pending_capsule is None
                &&& if old.pending_capsule is Some {
                    &&& new.pending_ack is None
                    &&& new.register.highest_guardian_epoch == old.capsule.config_ref.guardian_epoch
                    &&& new.register.highest_capsule_hash == old.capsule.capsule_hash
                } else {
                    &&& new.register.highest_guardian_epoch == old.register.highest_guardian_epoch
                    &&& new.register.highest_capsule_hash == old.register.highest_capsule_hash
                    &&& new.pending_ack == old.pending_ack
                }
            }
        },
    }
}

/// Stores an owner's rotation cancellation for this configuration.
fn cancel_rotation_entry(
    entry: &mut WitnessConfigEntry,
    certificate: &OwnerRotationCancelCertificate,
) -> (r: Result<WitnessRotationCancelReceipt, WitnessError>)
    requires
        witness_entry_wf(*old(entry)),
    ensures
        witness_entry_wf(*final(entry)),
        cancel_rotation_transition(*old(entry), *final(entry), *certificate, r),
{
    let rotation_id = certificate.context.rotation_id;
    if !config_ref_eq(&certificate.context.config_ref, &entry.capsule.config_ref) || !id_eq(
        &certificate.context.predecessor_capsule_hash,
        &entry.capsule.capsule_hash,
    ) || !id_eq(&certificate.owner_cancel_public_key, &entry.capsule.owner_cancel_public_key) {
        return Err(WitnessError::CancellationNotBound);
    }
    if !certificate.signature_verified {
        return Err(WitnessError::BadOwnerSignature);
    }
    let receipt = WitnessRotationCancelReceipt {
        config_id: certificate.context.config_ref.config_id,
        rotation_id,
        plan_hash: certificate.plan_hash,
        cancel_certificate_hash: certificate.transcript_hash,
        witness_id: entry.witness_id,
    };
    if let Some(k) = find_cancellation(&entry.rotation_cancellations, &rotation_id) {
        proof {
            lemma_cancellation_for(*entry, rotation_id, k as int);
        }
        let existing = entry.rotation_cancellations[k];
        if !id_eq(&existing.plan_hash, &certificate.plan_hash) || !id_eq(
            &existing.cancel_certificate_hash,
            &certificate.transcript_hash,
        ) {
            return Err(WitnessError::ConflictingCancellation);
        }
        return Ok(receipt);
    }
    let rolled_back = match &entry.pending_capsule {
        None => false,
        Some(pending) => {
            match &pending.activation_certificate {
                None => return Err(WitnessError::PendingWithoutActivation),
                Some(activation) => {
                    if !id_eq(&activation.context.rotation_id, &rotation_id) || !id_eq(
                        &activation.plan_hash,
                        &certificate.plan_hash,
                    ) || !id_eq(&pending.predecessor_capsule_hash, &entry.capsule.capsule_hash) {
                        return Err(WitnessError::CancellationNotBindingPending);
                    }
                },
            }
            if entry.register.highest_guardian_epoch != pending.config_ref.guardian_epoch || !id_eq(
                &entry.register.highest_capsule_hash,
                &pending.capsule_hash,
            ) {
                return Err(WitnessError::RegisterRefused);
            }
            true
        },
    };
    if rolled_back {
        entry.register.highest_guardian_epoch = entry.capsule.config_ref.guardian_epoch;
        entry.register.highest_capsule_hash = entry.capsule.capsule_hash;
        entry.pending_capsule = None;
        entry.pending_ack = None;
    }
    let ghost before = entry.rotation_cancellations@;
    entry.rotation_cancellations.push(
        RotationCancellation {
            rotation_id,
            plan_hash: certificate.plan_hash,
            cancel_certificate_hash: certificate.transcript_hash,
        },
    );
    proof {
        assert forall|i: int, j: int|
            0 <= i < j < entry.rotation_cancellations@.len() implies (
            #[trigger] entry.rotation_cancellations@[i]).rotation_id != (
            #[trigger] entry.rotation_cancellations@[j]).rotation_id by {
            if j == before.len() {
                assert(before[i] == entry.rotation_cancellations@[i]);
            } else {
                assert(before[i] == entry.rotation_cancellations@[i]);
                assert(before[j] == entry.rotation_cancellations@[j]);
            }
        }
    }
    Ok(receipt)
}

/// Signer `id` is pinned under `key`.
pub open spec fn signer_pinned(pins: Seq<SignerPin>, id: u16, key: Id32) -> bool {
    exists|i: int| 0 <= i < pins.len() && (#[trigger] pins[i]).signer_id == id && pins[i].public_key == key
}

/// Activate vote `i` is from a pinned signer key and its signature
/// verifies.
pub open spec fn witness_vote_ok(e: WitnessConfigEntry, cert: RotationActivateCertificate, i: int) -> bool {
    &&& signer_pinned(e.signer_public_keys@, cert.votes@[i].signer_id, cert.votes@[i].signer_public_key)
    &&& cert.votes@[i].signature_verified
}

/// The successor keeps the predecessor's immutable policy, follows the
/// stored capsule, and carries enough votes.
pub open spec fn successor_policy_ok(
    e: WitnessConfigEntry,
    capsule: ConfigCapsuleV3,
    cert: RotationActivateCertificate,
) -> bool {
    &&& cert.context.config_ref == e.capsule.config_ref
    &&& capsule.predecessor_capsule_hash == e.capsule.capsule_hash
    &&& capsule.signer_count == e.capsule.signer_count
    &&& capsule.signer_threshold == e.capsule.signer_threshold
    &&& capsule.signer_set_commitment == e.capsule.signer_set_commitment
    &&& capsule.owner_cancel_public_key == e.capsule.owner_cancel_public_key
    &&& capsule.minimum_recovery_delay >= e.capsule.minimum_recovery_delay
    &&& capsule.max_request_lifetime == e.capsule.max_request_lifetime
    &&& capsule.dpss_suite == e.capsule.dpss_suite
    &&& cert.votes@.len() >= e.capsule.signer_threshold
}

/// The ack a witness stores (before signing it) for a successor.
pub open spec fn unsigned_ack_for(
    ack: WitnessActivationAck,
    e: WitnessConfigEntry,
    capsule: ConfigCapsuleV3,
    cert: RotationActivateCertificate,
    own_key: Id32,
) -> bool {
    &&& same_context(ack.context, cert.context)
    &&& ack.plan_hash == cert.plan_hash
    &&& ack.activation_certificate_hash == cert.transcript_hash
    &&& ack.witness_id == e.witness_id
    &&& ack.predecessor_epoch == e.capsule.config_ref.guardian_epoch
    &&& ack.predecessor_capsule_hash == e.capsule.capsule_hash
    &&& ack.successor_epoch == capsule.config_ref.guardian_epoch
    &&& ack.successor_capsule_hash == capsule.capsule_hash
    &&& ack.witness_public_key == own_key
    &&& ack.witness_signature@.len() == 0
    &&& !ack.signature_verified
}

/// Why a stored configuration refuses to acknowledge a successor (the
/// capsule already binds its certificate).
pub open spec fn activate_refusal(
    e: WitnessConfigEntry,
    capsule: ConfigCapsuleV3,
    cert: RotationActivateCertificate,
) -> Option<WitnessError> {
    if has_cancellation(e.rotation_cancellations@, cert.context.rotation_id) {
        Some(WitnessError::RotationCancelled)
    } else if e.pending_capsule is Some {
        if e.pending_capsule.unwrap().capsule_hash != capsule.capsule_hash {
            Some(WitnessError::LockedToAnotherSuccessor)
        } else if e.pending_ack is None {
            Some(WitnessError::NoDurableAck)
        } else {
            None
        }
    } else if !successor_policy_ok(e, capsule, cert) {
        Some(WitnessError::PolicyViolation)
    } else if exists|i: int|
        0 <= i < cert.votes@.len() && !#[trigger] witness_vote_ok(e, cert, i) {
        let i = choose|i: int|
            0 <= i < cert.votes@.len() && !#[trigger] witness_vote_ok(e, cert, i) && forall|j: int|
                0 <= j < i ==> witness_vote_ok(e, cert, j);
        if !signer_pinned(e.signer_public_keys@, cert.votes@[i].signer_id, cert.votes@[i].signer_public_key) {
            Some(WitnessError::UnpinnedSigner)
        } else {
            Some(WitnessError::BadSignerSignature)
        }
    } else if e.register.highest_guardian_epoch != e.capsule.config_ref.guardian_epoch
        || e.register.highest_capsule_hash != e.capsule.capsule_hash {
        Some(WitnessError::RegisterRefused)
    } else {
        None
    }
}

/// A stored configuration's step on an Activate request: the one pending
/// successor and its unsigned ack are stored, or the stored ack is
/// returned again for the same successor.
pub open spec fn activate_transition(
    old: WitnessConfigEntry,
    new: WitnessConfigEntry,
    capsule: ConfigCapsuleV3,
    cert: RotationActivateCertificate,
    own_key: Id32,
    r: Result<WitnessActivationAck, WitnessError>,
) -> bool {
    match activate_refusal(old, capsule, cert) {
        Some(e) => r == Err::<WitnessActivationAck, WitnessError>(e) && new == old,
        None => if old.pending_capsule is Some {
            new == old && (r matches Ok(a) && same_ack(a, old.pending_ack.unwrap()))
        } else {
            &&& new.witness_id == old.witness_id
            &&& new.capsule == old.capsule
            &&& new.signer_public_keys == old.signer_public_keys
            &&& new.witness_public_keys == old.witness_public_keys
            &&& new.witness_fault_bound == old.witness_fault_bound
            &&& new.rotation_cancellations == old.rotation_cancellations
            &&& new.register.read_nonces == old.register.read_nonces
            &&& new.register.highest_guardian_epoch == capsule.config_ref.guardian_epoch
            &&& new.register.highest_capsule_hash == capsule.capsule_hash
            &&& new.pending_capsule matches Some(p) && same_capsule_body(p, capsule) && (
            p.activation_certificate matches Some(a) && same_activate_certificate(a, cert))
                && p.activation_qc is None
            &&& new.pending_ack matches Some(stored) && unsigned_ack_for(stored, old, capsule, cert, own_key)
            &&& r matches Ok(a) && same_ack(a, new.pending_ack.unwrap())
        },
    }
}

/// Whether signer `id` is pinned under `key`.
fn signer_is_pinned(pins: &Vec<SignerPin>, id: u16, key: &Id32) -> (r: bool)
    ensures
        r == signer_pinned(pins@, id, *key),
{
    let mut i: usize = 0;
    while i < pins.len()
        invariant
            i <= pins@.len(),
            forall|k: int|
                0 <= k < i ==> !((#[trigger] pins@[k]).signer_id == id && pins@[k].public_key == *key),
        decreases pins.len() - i,
    {
        if pins[i].signer_id == id && id_eq(&pins[i].public_key, key) {
            return true;
        }
        i = i + 1;
    }
    false
}

/// Stores the one successor a witness acknowledges for this configuration.
#[verifier::loop_isolation(false)]
fn activate_entry(
    entry: &mut WitnessConfigEntry,
    capsule: ConfigCapsuleV3,
    certificate: &RotationActivateCertificate,
    own_witness_key: &Id32,
) -> (r: Result<WitnessActivationAck, WitnessError>)
    requires
        witness_entry_wf(*old(entry)),
    ensures
        witness_entry_wf(*final(entry)),
        activate_transition(*old(entry), *final(entry), capsule, *certificate, *own_witness_key, r),
{
    if find_cancellation(&entry.rotation_cancellations, &certificate.context.rotation_id).is_some() {
        return Err(WitnessError::RotationCancelled);
    }
    if let Some(pending) = &entry.pending_capsule {
        if !id_eq(&pending.capsule_hash, &capsule.capsule_hash) {
            return Err(WitnessError::LockedToAnotherSuccessor);
        }
        return match &entry.pending_ack {
            Some(ack) => Ok(clone_ack(ack)),
            None => Err(WitnessError::NoDurableAck),
        };
    }
    let stored = &entry.capsule;
    if !config_ref_eq(&certificate.context.config_ref, &stored.config_ref) || !id_eq(
        &capsule.predecessor_capsule_hash,
        &stored.capsule_hash,
    ) || capsule.signer_count != stored.signer_count || capsule.signer_threshold
        != stored.signer_threshold || !id_eq(
        &capsule.signer_set_commitment,
        &stored.signer_set_commitment,
    ) || !id_eq(&capsule.owner_cancel_public_key, &stored.owner_cancel_public_key)
        || capsule.minimum_recovery_delay < stored.minimum_recovery_delay
        || capsule.max_request_lifetime != stored.max_request_lifetime || capsule.dpss_suite
        != stored.dpss_suite || certificate.votes.len() < stored.signer_threshold as usize {
        return Err(WitnessError::PolicyViolation);
    }
    let votes = &certificate.votes;
    let mut i: usize = 0;
    while i < votes.len()
        invariant
            i <= votes@.len(),
            forall|k: int| 0 <= k < i ==> #[trigger] witness_vote_ok(*entry, *certificate, k),
        decreases votes.len() - i,
    {
        let vote = votes[i];
        if !signer_is_pinned(&entry.signer_public_keys, vote.signer_id, &vote.signer_public_key) {
            proof {
                let c = choose|c: int|
                    0 <= c < certificate.votes@.len() && !#[trigger] witness_vote_ok(*entry, *certificate, c)
                        && forall|j: int| 0 <= j < c ==> witness_vote_ok(*entry, *certificate, j);
                assert(!witness_vote_ok(*entry, *certificate, i as int));
                if c < i {
                    assert(witness_vote_ok(*entry, *certificate, c));
                } else if c > i {
                    assert(witness_vote_ok(*entry, *certificate, i as int));
                }
            }
            return Err(WitnessError::UnpinnedSigner);
        }
        if !vote.signature_verified {
            proof {
                let c = choose|c: int|
                    0 <= c < certificate.votes@.len() && !#[trigger] witness_vote_ok(*entry, *certificate, c)
                        && forall|j: int| 0 <= j < c ==> witness_vote_ok(*entry, *certificate, j);
                assert(!witness_vote_ok(*entry, *certificate, i as int));
                if c < i {
                    assert(witness_vote_ok(*entry, *certificate, c));
                } else if c > i {
                    assert(witness_vote_ok(*entry, *certificate, i as int));
                }
            }
            return Err(WitnessError::BadSignerSignature);
        }
        assert(witness_vote_ok(*entry, *certificate, i as int));
        i = i + 1;
    }
    if entry.register.highest_guardian_epoch != entry.capsule.config_ref.guardian_epoch || !id_eq(
        &entry.register.highest_capsule_hash,
        &entry.capsule.capsule_hash,
    ) {
        return Err(WitnessError::RegisterRefused);
    }
    let ack = WitnessActivationAck {
        context: clone_context(&certificate.context),
        plan_hash: certificate.plan_hash,
        activation_certificate_hash: certificate.transcript_hash,
        witness_id: entry.witness_id,
        predecessor_epoch: entry.capsule.config_ref.guardian_epoch,
        predecessor_capsule_hash: entry.capsule.capsule_hash,
        successor_epoch: capsule.config_ref.guardian_epoch,
        successor_capsule_hash: capsule.capsule_hash,
        witness_public_key: *own_witness_key,
        witness_signature: Vec::new(),
        signature_verified: false,
    };
    let answer = clone_ack(&ack);
    entry.register.highest_guardian_epoch = capsule.config_ref.guardian_epoch;
    entry.register.highest_capsule_hash = capsule.capsule_hash;
    entry.pending_capsule = Some(
        capsule_with_evidence(&capsule, Some(clone_activate_certificate(certificate)), None),
    );
    entry.pending_ack = Some(ack);
    Ok(answer)
}

/// The key witness `id` is pinned under, if any.
pub open spec fn witness_pin_key(pins: Seq<WitnessKeyPin>, id: u16) -> Option<Id32> {
    if exists|i: int| 0 <= i < pins.len() && (#[trigger] pins[i]).witness_id == id {
        Some(pins[choose|i: int| 0 <= i < pins.len() && (#[trigger] pins[i]).witness_id == id].public_key)
    } else {
        None
    }
}

/// QC ack `i` is from a pinned witness under its pinned key, repeats no
/// earlier witness, and its signature verifies.
pub open spec fn qc_ack_ok(e: WitnessConfigEntry, qc: EpochActivationQc, i: int) -> bool {
    let ack = qc.witness_acks@[i];
    &&& witness_pin_key(e.witness_public_keys@, ack.witness_id) == Some(ack.witness_public_key)
    &&& forall|j: int| 0 <= j < i ==> (#[trigger] qc.witness_acks@[j]).witness_id != ack.witness_id
    &&& ack.signature_verified
}

/// The QC names exactly the pending successor and this witness's stored
/// ack, for the configuration at `path`.
pub open spec fn qc_binds_pending(e: WitnessConfigEntry, qc: EpochActivationQc, path: Seq<char>) -> bool {
    let pending = e.pending_capsule.unwrap();
    let ack = e.pending_ack.unwrap();
    &&& qc.config_id == pending.config_ref.config_id
    &&& hex_lower(qc.config_id@) == path
    &&& qc.witness_fault_bound == e.witness_fault_bound
    &&& qc.rotation_id == ack.context.rotation_id
    &&& qc.predecessor_epoch == ack.predecessor_epoch
    &&& qc.predecessor_capsule_hash == ack.predecessor_capsule_hash
    &&& qc.successor_epoch == pending.config_ref.guardian_epoch
    &&& qc.successor_capsule_hash == pending.capsule_hash
    &&& qc.activation_certificate_hash == ack.activation_certificate_hash
}

/// The QC carries this witness's exact stored ack.
pub open spec fn qc_has_own_ack(e: WitnessConfigEntry, qc: EpochActivationQc) -> bool {
    exists|i: int|
        0 <= i < qc.witness_acks@.len() && (#[trigger] qc.witness_acks@[i]).witness_id == e.witness_id
            && same_ack(qc.witness_acks@[i], e.pending_ack.unwrap())
}

/// Why a stored configuration refuses to activate its pending successor.
pub open spec fn finalize_refusal(
    e: WitnessConfigEntry,
    qc: EpochActivationQc,
    path: Seq<char>,
) -> Option<WitnessError> {
    if e.pending_capsule is None {
        Some(WitnessError::NoPendingSuccessor)
    } else if e.pending_ack is None {
        Some(WitnessError::NoDurableAck)
    } else if has_cancellation(e.rotation_cancellations@, qc.rotation_id) {
        Some(WitnessError::RotationCancelled)
    } else if !qc.canonical {
        Some(WitnessError::QcNotCanonical)
    } else if !qc_binds_pending(e, qc, path) {
        Some(WitnessError::QcMismatch)
    } else if exists|i: int| 0 <= i < qc.witness_acks@.len() && !#[trigger] qc_ack_ok(e, qc, i) {
        let i = choose|i: int|
            0 <= i < qc.witness_acks@.len() && !#[trigger] qc_ack_ok(e, qc, i) && forall|j: int|
                0 <= j < i ==> qc_ack_ok(e, qc, j);
        let ack = qc.witness_acks@[i];
        if witness_pin_key(e.witness_public_keys@, ack.witness_id) is None {
            Some(WitnessError::UnpinnedWitness)
        } else if witness_pin_key(e.witness_public_keys@, ack.witness_id) != Some(ack.witness_public_key)
            || exists|j: int| 0 <= j < i && (#[trigger] qc.witness_acks@[j]).witness_id == ack.witness_id {
            Some(WitnessError::DuplicateOrSubstitutedWitness)
        } else {
            Some(WitnessError::BadWitnessSignature)
        }
    } else if qc.witness_acks@.len() < witness_quorum(e.witness_fault_bound as int) || !qc_has_own_ack(e, qc) {
        Some(WitnessError::NoQuorumOrOwnAck)
    } else {
        None
    }
}

/// A stored configuration's step on a Finalize request: the pending
/// successor, with its QC attached, becomes the activated capsule.
pub open spec fn finalize_transition(
    old: WitnessConfigEntry,
    new: WitnessConfigEntry,
    qc: EpochActivationQc,
    path: Seq<char>,
    r: Result<ProvisionAck, WitnessError>,
) -> bool {
    match finalize_refusal(old, qc, path) {
        Some(e) => r == Err::<ProvisionAck, WitnessError>(e) && new == old,
        None => {
            let pending = old.pending_capsule.unwrap();
            &&& r matches Ok(ack) && ack.stored && ack.mailbox@ == path
            &&& same_capsule_body(new.capsule, pending)
            &&& new.capsule.activation_certificate == pending.activation_certificate
            &&& new.capsule.activation_qc matches Some(q) && same_qc(q, qc)
            &&& new.pending_capsule is None
            &&& new.pending_ack is None
            &&& new.witness_id == old.witness_id
            &&& new.register == old.register
            &&& new.rotation_cancellations == old.rotation_cancellations
            &&& new.signer_public_keys == old.signer_public_keys
            &&& new.witness_public_keys == old.witness_public_keys
            &&& new.witness_fault_bound == old.witness_fault_bound
        },
    }
}

/// Position of the pin of witness `id`, if any.
fn find_witness_pin(pins: &Vec<WitnessKeyPin>, id: u16) -> (r: Option<usize>)
    ensures
        match r {
            Some(i) => i < pins@.len() && pins@[i as int].witness_id == id,
            None => witness_pin_key(pins@, id) is None,
        },
{
    let mut i: usize = 0;
    while i < pins.len()
        invariant
            i <= pins@.len(),
            forall|k: int| 0 <= k < i ==> (#[trigger] pins@[k]).witness_id != id,
        decreases pins.len() - i,
    {
        if pins[i].witness_id == id {
            return Some(i);
        }
        i = i + 1;
    }
    None
}

proof fn lemma_witness_pin_key(e: WitnessConfigEntry, id: u16, i: int)
    requires
        witness_entry_wf(e),
        0 <= i < e.witness_public_keys@.len(),
        e.witness_public_keys@[i].witness_id == id,
    ensures
        witness_pin_key(e.witness_public_keys@, id) == Some(e.witness_public_keys@[i].public_key),
{
    let s = e.witness_public_keys@;
    assert(s[i].witness_id == id);
    let p = choose|p: int| 0 <= p < s.len() && (#[trigger] s[p]).witness_id == id;
    if p < i {
        assert(s[p].witness_id != s[i].witness_id);
    } else if p > i {
        assert(s[i].witness_id != s[p].witness_id);
    }
}

/// Activates the pending successor with a `2f + 1` quorum certificate that
/// includes this witness's own stored ack.
#[verifier::loop_isolation(false)]
#[verifier::rlimit(30)]
fn finalize_entry(
    entry: &mut WitnessConfigEntry,
    qc: &EpochActivationQc,
    path: &String,
) -> (r: Result<ProvisionAck, WitnessError>)
    requires
        witness_entry_wf(*old(entry)),
    ensures
        witness_entry_wf(*final(entry)),
        finalize_transition(*old(entry), *final(entry), *qc, path@, r),
{
    let ghost e0 = *entry;
    let (pending_id, pending_hash, pending_epoch) = match &entry.pending_capsule {
        Some(pending) => (pending.config_ref.config_id, pending.capsule_hash, pending.config_ref.guardian_epoch),
        None => return Err(WitnessError::NoPendingSuccessor),
    };
    let pending_ack = match &entry.pending_ack {
        Some(ack) => ack,
        None => return Err(WitnessError::NoDurableAck),
    };
    if find_cancellation(&entry.rotation_cancellations, &qc.rotation_id).is_some() {
        return Err(WitnessError::RotationCancelled);
    }
    if !qc.canonical {
        return Err(WitnessError::QcNotCanonical);
    }
    let qc_path = hex_encode(qc.config_id.as_slice());
    proof {
        broadcast use vstd::array::group_array_axioms;
    }
    if !id_eq(&qc.config_id, &pending_id) || !(qc_path == *path) || qc.witness_fault_bound
        != entry.witness_fault_bound || !id_eq(&qc.rotation_id, &pending_ack.context.rotation_id)
        || qc.predecessor_epoch != pending_ack.predecessor_epoch || !id_eq(
        &qc.predecessor_capsule_hash,
        &pending_ack.predecessor_capsule_hash,
    ) || qc.successor_epoch != pending_epoch || !id_eq(&qc.successor_capsule_hash, &pending_hash)
        || !id_eq(&qc.activation_certificate_hash, &pending_ack.activation_certificate_hash) {
        return Err(WitnessError::QcMismatch);
    }
    let acks = &qc.witness_acks;
    let mut own = false;
    let mut i: usize = 0;
    while i < acks.len()
        invariant
            i <= acks@.len(),
            *entry == e0,
            forall|k: int| 0 <= k < i ==> #[trigger] qc_ack_ok(*entry, *qc, k),
            own == exists|k: int|
                0 <= k < i && (#[trigger] qc.witness_acks@[k]).witness_id == entry.witness_id
                    && same_ack(qc.witness_acks@[k], entry.pending_ack.unwrap()),
        decreases acks.len() - i,
    {
        let ack = &acks[i];
        let ghost first_bad = choose|c: int|
            0 <= c < qc.witness_acks@.len() && !#[trigger] qc_ack_ok(*entry, *qc, c) && forall|j: int|
                0 <= j < c ==> qc_ack_ok(*entry, *qc, j);
        let pin = match find_witness_pin(&entry.witness_public_keys, ack.witness_id) {
            Some(p) => p,
            None => {
                proof {
                    assert(!qc_ack_ok(*entry, *qc, i as int));
                    if first_bad < i {
                        assert(qc_ack_ok(*entry, *qc, first_bad));
                    } else if first_bad > i {
                        assert(qc_ack_ok(*entry, *qc, i as int));
                    }
                }
                return Err(WitnessError::UnpinnedWitness);
            },
        };
        proof {
            lemma_witness_pin_key(*entry, ack.witness_id, pin as int);
        }
        let mut duplicate = false;
        let mut j: usize = 0;
        while j < i
            invariant
                j <= i < acks@.len(),
                duplicate == exists|k: int| 0 <= k < j && (#[trigger] qc.witness_acks@[k]).witness_id == ack.witness_id,
            decreases i - j,
        {
            if acks[j].witness_id == ack.witness_id {
                duplicate = true;
            }
            j = j + 1;
        }
        if duplicate || !id_eq(&entry.witness_public_keys[pin].public_key, &ack.witness_public_key) {
            proof {
                assert(!qc_ack_ok(*entry, *qc, i as int));
                if first_bad < i {
                    assert(qc_ack_ok(*entry, *qc, first_bad));
                } else if first_bad > i {
                    assert(qc_ack_ok(*entry, *qc, i as int));
                }
            }
            return Err(WitnessError::DuplicateOrSubstitutedWitness);
        }
        if !ack.signature_verified {
            proof {
                assert(!qc_ack_ok(*entry, *qc, i as int));
                if first_bad < i {
                    assert(qc_ack_ok(*entry, *qc, first_bad));
                } else if first_bad > i {
                    assert(qc_ack_ok(*entry, *qc, i as int));
                }
            }
            return Err(WitnessError::BadWitnessSignature);
        }
        assert(qc_ack_ok(*entry, *qc, i as int));
        if ack.witness_id == entry.witness_id && ack_eq(ack, pending_ack) {
            own = true;
        }
        i = i + 1;
    }
    let required = (entry.witness_fault_bound as usize) * 2 + 1;
    if acks.len() < required || !own {
        return Err(WitnessError::NoQuorumOrOwnAck);
    }
    let mut activated = entry.pending_capsule.take().unwrap();
    activated.activation_qc = Some(clone_qc(qc));
    entry.capsule = activated;
    entry.pending_ack = None;
    Ok(ProvisionAck { mailbox: path.clone(), stored: true })
}

/// A stored configuration's step on a read: the nonce is recorded once and
/// the activated capsule is answered.
pub open spec fn read_transition(
    old: WitnessConfigEntry,
    new: WitnessConfigEntry,
    nonce: Id32,
    r: Result<WitnessReadAnswer, WitnessError>,
) -> bool {
    if old.register.read_nonces@.contains(nonce) {
        r == Err::<WitnessReadAnswer, WitnessError>(WitnessError::ReplayedReadNonce) && new == old
    } else {
        &&& r matches Ok(answer) && answer.witness_id == old.witness_id && same_capsule(
            answer.capsule,
            old.capsule,
        )
        &&& new.register.read_nonces@ == old.register.read_nonces@.push(nonce)
        &&& new.register.highest_guardian_epoch == old.register.highest_guardian_epoch
        &&& new.register.highest_capsule_hash == old.register.highest_capsule_hash
        &&& new.witness_id == old.witness_id
        &&& new.capsule == old.capsule
        &&& new.pending_capsule == old.pending_capsule
        &&& new.pending_ack == old.pending_ack
        &&& new.rotation_cancellations == old.rotation_cancellations
        &&& new.signer_public_keys == old.signer_public_keys
        &&& new.witness_public_keys == old.witness_public_keys
        &&& new.witness_fault_bound == old.witness_fault_bound
    }
}

/// Answers one read nonce with the activated capsule.
fn read_entry(entry: &mut WitnessConfigEntry, nonce: &Id32) -> (r: Result<WitnessReadAnswer, WitnessError>)
    requires
        witness_entry_wf(*old(entry)),
    ensures
        witness_entry_wf(*final(entry)),
        read_transition(*old(entry), *final(entry), *nonce, r),
{
    if contains_id(&entry.register.read_nonces, nonce) {
        return Err(WitnessError::ReplayedReadNonce);
    }
    let ghost before = entry.register.read_nonces@;
    entry.register.read_nonces.push(*nonce);
    proof {
        assert forall|a: int, b: int| 0 <= a < b < entry.register.read_nonces@.len() implies entry.register.read_nonces@[a]
            != entry.register.read_nonces@[b] by {
            if b == before.len() {
                assert(before.contains(before[a]));
            }
        }
    }
    Ok(WitnessReadAnswer { witness_id: entry.witness_id, capsule: clone_capsule(&entry.capsule) })
}

/// Slot keys are unique and every stored configuration is well formed.
pub open spec fn witness_disk_wf(d: WitnessDisk) -> bool {
    &&& forall|i: int, j: int|
        0 <= i < j < d.entries@.len() ==> (#[trigger] d.entries@[i]).key@ != (#[trigger] d.entries@[j]).key@
    &&& forall|i: int| 0 <= i < d.entries@.len() ==> witness_entry_wf(#[trigger] d.entries@[i].entry)
}

/// Position of the slot stored under `key`.
pub open spec fn slot_position(entries: Seq<WitnessSlot>, key: Seq<char>) -> int {
    choose|i: int| 0 <= i < entries.len() && (#[trigger] entries[i]).key@ == key
}

/// Only slot `i`'s configuration changed.
pub open spec fn only_slot_changed(old: Seq<WitnessSlot>, new: Seq<WitnessSlot>, i: int) -> bool {
    &&& new.len() == old.len()
    &&& new[i].key == old[i].key
    &&& forall|j: int| 0 <= j < old.len() && j != i ==> new[j] == old[j]
}

proof fn lemma_slot_position(d: WitnessDisk, key: Seq<char>, i: int)
    requires
        witness_disk_wf(d),
        0 <= i < d.entries@.len(),
        d.entries@[i].key@ == key,
    ensures
        has_slot(d.entries@, key),
        slot_position(d.entries@, key) == i,
{
    let s = d.entries@;
    assert(s[i].key@ == key);
    let p = slot_position(s, key);
    if p < i {
        assert(s[p].key@ != s[i].key@);
    } else if p > i {
        assert(s[i].key@ != s[p].key@);
    }
}

/// Swaps slot `i`'s configuration out, for a step on it.
fn take_slot(disk: &mut WitnessDisk, i: usize) -> (slot: WitnessSlot)
    requires
        i < old(disk).entries@.len(),
    ensures
        slot == old(disk).entries@[i as int],
        final(disk).entries@ == old(disk).entries@.remove(i as int),
{
    disk.entries.remove(i)
}

/// Puts slot `i` back after a step on its configuration.
proof fn lemma_put_back(before: Seq<WitnessSlot>, after: Seq<WitnessSlot>, slot: WitnessSlot, i: int)
    requires
        0 <= i < before.len(),
        after == before.remove(i).insert(i, slot),
        slot.key == before[i].key,
    ensures
        only_slot_changed(before, after, i),
        after[i] == slot,
{
    assert(after =~= before.update(i, slot));
}

proof fn lemma_disk_wf_after_step(before: WitnessDisk, after: WitnessDisk, i: int)
    requires
        witness_disk_wf(before),
        0 <= i < before.entries@.len(),
        only_slot_changed(before.entries@, after.entries@, i),
        witness_entry_wf(after.entries@[i].entry),
    ensures
        witness_disk_wf(after),
{
    assert forall|a: int, b: int|
        0 <= a < b < after.entries@.len() implies (#[trigger] after.entries@[a]).key@ != (
        #[trigger] after.entries@[b]).key@ by {
        assert(after.entries@[a].key == before.entries@[a].key);
        assert(after.entries@[b].key == before.entries@[b].key);
    }
    assert forall|a: int| 0 <= a < after.entries@.len() implies witness_entry_wf(
        #[trigger] after.entries@[a].entry,
    ) by {
        if a != i {
            assert(after.entries@[a] == before.entries@[a]);
        }
    }
}

/// The cancellation is well formed, for the configuration at `path`, and
/// current at `now`.
pub open spec fn cancellation_current(c: OwnerRotationCancelCertificate, path: Seq<char>, now: u64) -> bool {
    &&& c.context.protocol_version == PROTOCOL_VERSION_V3
    &&& hex_lower(c.context.config_ref.config_id@) == path
    &&& c.context.issued_at <= now
    &&& now < c.context.expiry
    &&& c.cancel_response_recipient_key@.len() == XWING_PUBLIC_KEY_LEN
}

/// Stores an owner's cancellation of one rotation: the witness refuses
/// that rotation id forever and rolls back its pending successor.
pub fn witness_cancel_rotation(
    disk: &mut WitnessDisk,
    config_id: &String,
    certificate: &OwnerRotationCancelCertificate,
    now: u64,
) -> (r: Result<WitnessRotationCancelReceipt, WitnessError>)
    requires
        witness_disk_wf(*old(disk)),
    ensures
        witness_disk_wf(*final(disk)),
        if !cancellation_current(*certificate, config_id@, now) {
            r == Err::<WitnessRotationCancelReceipt, WitnessError>(WitnessError::MalformedCancellation)
                && *final(disk) == *old(disk)
        } else if !has_slot(old(disk).entries@, config_id@) {
            r == Err::<WitnessRotationCancelReceipt, WitnessError>(WitnessError::NotFound) && *final(disk)
                == *old(disk)
        } else {
            let i = slot_position(old(disk).entries@, config_id@);
            &&& only_slot_changed(old(disk).entries@, final(disk).entries@, i)
            &&& cancel_rotation_transition(
                old(disk).entries@[i].entry,
                final(disk).entries@[i].entry,
                *certificate,
                r,
            )
        },
{
    let path = hex_encode(certificate.context.config_ref.config_id.as_slice());
    proof {
        broadcast use vstd::array::group_array_axioms;
    }
    if certificate.context.protocol_version != PROTOCOL_VERSION_V3 || !(path == *config_id)
        || certificate.context.issued_at > now || certificate.context.expiry <= now
        || certificate.cancel_response_recipient_key.len() != XWING_PUBLIC_KEY_LEN {
        return Err(WitnessError::MalformedCancellation);
    }
    let i = match find_slot(disk, config_id) {
        Some(i) => i,
        None => return Err(WitnessError::NotFound),
    };
    proof {
        lemma_slot_position(*disk, config_id@, i as int);
    }
    let ghost before = *disk;
    let mut slot = take_slot(disk, i);
    let r = cancel_rotation_entry(&mut slot.entry, certificate);
    disk.entries.insert(i, slot);
    proof {
        lemma_put_back(before.entries@, disk.entries@, slot, i as int);
        lemma_disk_wf_after_step(before, *disk, i as int);
    }
    r
}

/// The capsule is for the configuration at `path`, hashes to its body, and
/// its Activate certificate names exactly this capsule and predecessor.
pub open spec fn activation_request_bound(
    capsule: ConfigCapsuleV3,
    cert: RotationActivateCertificate,
    path: Seq<char>,
) -> bool {
    &&& hex_lower(capsule.config_ref.config_id@) == path
    &&& capsule.body_hash == capsule.capsule_hash
    &&& cert.successor == capsule.config_ref
    &&& cert.successor_capsule_hash == capsule.body_hash
    &&& capsule.predecessor_capsule_hash == cert.context.predecessor_capsule_hash
}

/// Stores the single successor this witness acknowledges for the
/// configuration and returns the ack for the caller to sign; the same
/// successor gets its stored ack again, any other is refused.
pub fn witness_activate(
    disk: &mut WitnessDisk,
    config_id: &String,
    capsule: ConfigCapsuleV3,
    certificate: &RotationActivateCertificate,
    own_witness_key: &Id32,
) -> (r: Result<WitnessActivationAck, WitnessError>)
    requires
        witness_disk_wf(*old(disk)),
    ensures
        witness_disk_wf(*final(disk)),
        if hex_lower(capsule.config_ref.config_id@) != config_id@ {
            r == Err::<WitnessActivationAck, WitnessError>(WitnessError::PathMismatch) && *final(disk)
                == *old(disk)
        } else if !activation_request_bound(capsule, *certificate, config_id@) {
            r == Err::<WitnessActivationAck, WitnessError>(WitnessError::ActivationNotBound)
                && *final(disk) == *old(disk)
        } else if !has_slot(old(disk).entries@, config_id@) {
            r == Err::<WitnessActivationAck, WitnessError>(WitnessError::NotFound) && *final(disk)
                == *old(disk)
        } else {
            let i = slot_position(old(disk).entries@, config_id@);
            &&& only_slot_changed(old(disk).entries@, final(disk).entries@, i)
            &&& activate_transition(
                old(disk).entries@[i].entry,
                final(disk).entries@[i].entry,
                capsule,
                *certificate,
                *own_witness_key,
                r,
            )
        },
{
    let path = hex_encode(capsule.config_ref.config_id.as_slice());
    proof {
        broadcast use vstd::array::group_array_axioms;
    }
    if !(path == *config_id) {
        return Err(WitnessError::PathMismatch);
    }
    if !id_eq(&capsule.body_hash, &capsule.capsule_hash) || !config_ref_eq(
        &certificate.successor,
        &capsule.config_ref,
    ) || !id_eq(&certificate.successor_capsule_hash, &capsule.body_hash) || !id_eq(
        &capsule.predecessor_capsule_hash,
        &certificate.context.predecessor_capsule_hash,
    ) {
        return Err(WitnessError::ActivationNotBound);
    }
    let i = match find_slot(disk, config_id) {
        Some(i) => i,
        None => return Err(WitnessError::NotFound),
    };
    proof {
        lemma_slot_position(*disk, config_id@, i as int);
    }
    let ghost before = *disk;
    let mut slot = take_slot(disk, i);
    let r = activate_entry(&mut slot.entry, capsule, certificate, own_witness_key);
    disk.entries.insert(i, slot);
    proof {
        lemma_put_back(before.entries@, disk.entries@, slot, i as int);
        lemma_disk_wf_after_step(before, *disk, i as int);
    }
    r
}

/// Attaches this witness's signature to its stored pending ack and returns
/// the signed ack.
pub fn witness_sign_pending_ack(
    disk: &mut WitnessDisk,
    config_id: &String,
    signature: Vec<u8>,
) -> (r: Result<WitnessActivationAck, WitnessError>)
    requires
        witness_disk_wf(*old(disk)),
    ensures
        witness_disk_wf(*final(disk)),
        if !has_slot(old(disk).entries@, config_id@) {
            r == Err::<WitnessActivationAck, WitnessError>(WitnessError::NotFound) && *final(disk)
                == *old(disk)
        } else {
            let i = slot_position(old(disk).entries@, config_id@);
            let before = old(disk).entries@[i].entry;
            let after = final(disk).entries@[i].entry;
            &&& only_slot_changed(old(disk).entries@, final(disk).entries@, i)
            &&& match before.pending_ack {
                None => r == Err::<WitnessActivationAck, WitnessError>(WitnessError::NoDurableAck)
                    && after == before,
                Some(ack) => {
                    &&& after.pending_ack matches Some(signed) && same_ack(
                        signed,
                        WitnessActivationAck { witness_signature: signature, signature_verified: true, ..ack },
                    ) && (r matches Ok(a) && same_ack(a, signed))
                    &&& after.witness_id == before.witness_id
                    &&& after.register == before.register
                    &&& after.capsule == before.capsule
                    &&& after.pending_capsule == before.pending_capsule
                    &&& after.rotation_cancellations == before.rotation_cancellations
                    &&& after.signer_public_keys == before.signer_public_keys
                    &&& after.witness_public_keys == before.witness_public_keys
                    &&& after.witness_fault_bound == before.witness_fault_bound
                },
            }
        },
{
    let i = match find_slot(disk, config_id) {
        Some(i) => i,
        None => return Err(WitnessError::NotFound),
    };
    proof {
        lemma_slot_position(*disk, config_id@, i as int);
    }
    let ghost before = *disk;
    let mut slot = take_slot(disk, i);
    let r = match slot.entry.pending_ack.take() {
        None => Err(WitnessError::NoDurableAck),
        Some(mut ack) => {
            ack.witness_signature = signature;
            ack.signature_verified = true;
            let answer = clone_ack(&ack);
            slot.entry.pending_ack = Some(ack);
            Ok(answer)
        },
    };
    disk.entries.insert(i, slot);
    proof {
        lemma_put_back(before.entries@, disk.entries@, slot, i as int);
        lemma_disk_wf_after_step(before, *disk, i as int);
    }
    r
}

/// Activates the pending successor of the configuration with a `2f + 1`
/// quorum certificate that includes this witness's own ack.
pub fn witness_finalize(
    disk: &mut WitnessDisk,
    config_id: &String,
    qc: &EpochActivationQc,
) -> (r: Result<ProvisionAck, WitnessError>)
    requires
        witness_disk_wf(*old(disk)),
    ensures
        witness_disk_wf(*final(disk)),
        if !has_slot(old(disk).entries@, config_id@) {
            r == Err::<ProvisionAck, WitnessError>(WitnessError::NotFound) && *final(disk) == *old(disk)
        } else {
            let i = slot_position(old(disk).entries@, config_id@);
            &&& only_slot_changed(old(disk).entries@, final(disk).entries@, i)
            &&& finalize_transition(
                old(disk).entries@[i].entry,
                final(disk).entries@[i].entry,
                *qc,
                config_id@,
                r,
            )
        },
{
    let i = match find_slot(disk, config_id) {
        Some(i) => i,
        None => return Err(WitnessError::NotFound),
    };
    proof {
        lemma_slot_position(*disk, config_id@, i as int);
    }
    let ghost before = *disk;
    let mut slot = take_slot(disk, i);
    let r = finalize_entry(&mut slot.entry, qc, config_id);
    disk.entries.insert(i, slot);
    proof {
        lemma_put_back(before.entries@, disk.entries@, slot, i as int);
        lemma_disk_wf_after_step(before, *disk, i as int);
    }
    r
}

/// Why a read challenge is refused before any configuration is consulted.
pub open spec fn read_challenge_refusal(
    challenge: EpochReadChallenge,
    path: Seq<char>,
    now: u64,
) -> Option<WitnessError> {
    if challenge.protocol_version != PROTOCOL_VERSION_V3 || hex_lower(challenge.config_id@) != path {
        Some(WitnessError::InvalidChallenge)
    } else if challenge.issued_at > now || now >= challenge.expiry {
        Some(WitnessError::ExpiredChallenge)
    } else if !challenge.canonical {
        Some(WitnessError::ChallengeNotCanonical)
    } else {
        None
    }
}

/// Answers a current read challenge once per nonce with the activated
/// capsule (never a pending one).
pub fn witness_read(
    disk: &mut WitnessDisk,
    config_id: &String,
    challenge: &EpochReadChallenge,
    now: u64,
) -> (r: Result<WitnessReadAnswer, WitnessError>)
    requires
        witness_disk_wf(*old(disk)),
    ensures
        witness_disk_wf(*final(disk)),
        match read_challenge_refusal(*challenge, config_id@, now) {
            Some(e) => r == Err::<WitnessReadAnswer, WitnessError>(e) && *final(disk) == *old(disk),
            None => if !has_slot(old(disk).entries@, config_id@) {
                r == Err::<WitnessReadAnswer, WitnessError>(WitnessError::NotFound) && *final(disk)
                    == *old(disk)
            } else {
                let i = slot_position(old(disk).entries@, config_id@);
                &&& only_slot_changed(old(disk).entries@, final(disk).entries@, i)
                &&& read_transition(
                    old(disk).entries@[i].entry,
                    final(disk).entries@[i].entry,
                    challenge.client_nonce,
                    r,
                )
            },
        },
{
    let path = hex_encode(challenge.config_id.as_slice());
    proof {
        broadcast use vstd::array::group_array_axioms;
    }
    if challenge.protocol_version != PROTOCOL_VERSION_V3 || !(path == *config_id) {
        return Err(WitnessError::InvalidChallenge);
    }
    if challenge.issued_at > now || now >= challenge.expiry {
        return Err(WitnessError::ExpiredChallenge);
    }
    if !challenge.canonical {
        return Err(WitnessError::ChallengeNotCanonical);
    }
    let i = match find_slot(disk, config_id) {
        Some(i) => i,
        None => return Err(WitnessError::NotFound),
    };
    proof {
        lemma_slot_position(*disk, config_id@, i as int);
    }
    let ghost before = *disk;
    let mut slot = take_slot(disk, i);
    let r = read_entry(&mut slot.entry, &challenge.client_nonce);
    disk.entries.insert(i, slot);
    proof {
        lemma_put_back(before.entries@, disk.entries@, slot, i as int);
        lemma_disk_wf_after_step(before, *disk, i as int);
    }
    r
}

/// One child per predecessor: while a successor is pending, an Activate for
/// any other capsule is refused and nothing changes; an accepted Activate
/// for the same capsule changes nothing either.
pub proof fn lemma_one_pending_successor(
    old: WitnessConfigEntry,
    new: WitnessConfigEntry,
    capsule: ConfigCapsuleV3,
    cert: RotationActivateCertificate,
    own_key: Id32,
    r: Result<WitnessActivationAck, WitnessError>,
)
    requires
        activate_transition(old, new, capsule, cert, own_key, r),
        old.pending_capsule is Some,
    ensures
        new == old,
        old.pending_capsule.unwrap().capsule_hash != capsule.capsule_hash ==> r is Err,
{
}

/// Owner rotation cancellation is final: a cancelled rotation id is never
/// acknowledged or activated, and no step forgets a cancellation.
pub proof fn lemma_cancelled_rotation_is_final(
    old: WitnessConfigEntry,
    activated: WitnessConfigEntry,
    finalized: WitnessConfigEntry,
    capsule: ConfigCapsuleV3,
    cert: RotationActivateCertificate,
    own_key: Id32,
    qc: EpochActivationQc,
    path: Seq<char>,
    r1: Result<WitnessActivationAck, WitnessError>,
    r2: Result<ProvisionAck, WitnessError>,
)
    requires
        activate_transition(old, activated, capsule, cert, own_key, r1),
        finalize_transition(old, finalized, qc, path, r2),
    ensures
        has_cancellation(old.rotation_cancellations@, cert.context.rotation_id) ==> r1 is Err,
        has_cancellation(old.rotation_cancellations@, qc.rotation_id) && old.pending_capsule is Some
            && old.pending_ack is Some ==> r2 is Err,
        activated.rotation_cancellations == old.rotation_cancellations,
        finalized.rotation_cancellations == old.rotation_cancellations,
{
}

/// A cancellation step keeps every stored cancellation and stores the new
/// one; a first cancellation rolls back the pending successor.
pub proof fn lemma_cancellation_is_kept(
    old: WitnessConfigEntry,
    new: WitnessConfigEntry,
    c: OwnerRotationCancelCertificate,
    r: Result<WitnessRotationCancelReceipt, WitnessError>,
)
    requires
        cancel_rotation_transition(old, new, c, r),
    ensures
        forall|i: int|
            0 <= i < old.rotation_cancellations@.len() ==> new.rotation_cancellations@[i]
                == #[trigger] old.rotation_cancellations@[i],
        r is Ok ==> has_cancellation(new.rotation_cancellations@, c.context.rotation_id),
        r is Ok && !has_cancellation(old.rotation_cancellations@, c.context.rotation_id)
            ==> new.pending_capsule is None,
{
    if r is Ok && !has_cancellation(old.rotation_cancellations@, c.context.rotation_id) {
        assert(new.rotation_cancellations@[old.rotation_cancellations@.len() as int].rotation_id
            == c.context.rotation_id);
    }
}

/// Activation needs a quorum: a successor becomes the activated capsule
/// only with `2f + 1` distinct pinned, verified acks for exactly the
/// pending successor, one of them this witness's own stored ack.
pub proof fn lemma_finalize_needs_quorum_and_own_ack(
    old: WitnessConfigEntry,
    new: WitnessConfigEntry,
    qc: EpochActivationQc,
    path: Seq<char>,
    r: Result<ProvisionAck, WitnessError>,
)
    requires
        finalize_transition(old, new, qc, path, r),
        r is Ok,
    ensures
        old.pending_capsule is Some,
        same_capsule_body(new.capsule, old.pending_capsule.unwrap()),
        qc.witness_acks@.len() >= witness_quorum(old.witness_fault_bound as int),
        forall|i: int| 0 <= i < qc.witness_acks@.len() ==> #[trigger] qc_ack_ok(old, qc, i),
        qc_has_own_ack(old, qc),
        qc_binds_pending(old, qc, path),
        !has_cancellation(old.rotation_cancellations@, qc.rotation_id),
{
}

/// Reads are nonce-bound and never expose a pending successor: an answered
/// read carries the activated capsule, records its nonce, and a second read
/// with that nonce is refused.
pub proof fn lemma_reads_are_nonce_bound(
    s0: WitnessConfigEntry,
    s1: WitnessConfigEntry,
    s2: WitnessConfigEntry,
    nonce: Id32,
    r1: Result<WitnessReadAnswer, WitnessError>,
    r2: Result<WitnessReadAnswer, WitnessError>,
)
    requires
        read_transition(s0, s1, nonce, r1),
        r1 is Ok,
        read_transition(s1, s2, nonce, r2),
    ensures
        r1 matches Ok(answer) && same_capsule(answer.capsule, s0.capsule),
        s1.capsule == s0.capsule,
        s1.pending_capsule == s0.pending_capsule,
        r2 is Err,
{
    assert(s1.register.read_nonces@[s0.register.read_nonces@.len() as int] == nonce);
}

} // verus!
