//! Recovery Card pins, activated-capsule checks and the `2f + 1` witness
//! read that selects the active guardian epoch.
use vstd::prelude::*;

use crate::bytes::{contains_u16, id_eq, id_is_zero, is_zero_id, Id32};
use crate::model::{
    config_ref_eq, ConfigCapsuleV3, EpochActivationQc, RecoveryCardV3, RotationActivateCertificate,
    SignerActivateVote, WitnessActivationAck, WitnessPin, PROTOCOL_VERSION_V3, EpochReadChallenge,
    WitnessReadEnvelope, clone_capsule, same_capsule,
};
use crate::quorum::{witness_quorum, witness_roster_minimum};

verus! {

/// Why a Recovery Card, capsule or witness read was refused.
#[derive(Debug, Clone, Copy, PartialEq, Eq)]
pub enum EpochError {
    /// Wrong protocol version or a zero witness fault bound.
    InvalidCard,
    /// Fewer than `3f + 1` pinned witnesses.
    TooFewWitnesses,
    /// A pin has id 0 or an empty mailbox, or repeats an id, key or mailbox.
    InvalidWitnessPin,
    /// The capsule does not match the card or its canonical body.
    CapsuleMismatch,
    /// An epoch-1 capsule carries a predecessor or activation evidence.
    InvalidGenesis,
    /// A successor capsule has no Activate certificate.
    MissingActivation,
    /// The Activate certificate does not bind the exact direct successor.
    ActivationMismatch,
    /// An Activate vote repeats a signer, is out of range or does not verify.
    InvalidSignerVote,
    /// Fewer Activate votes than the signer threshold.
    SignerThresholdNotReached,
    /// A successor capsule has no activation QC.
    MissingQc,
    /// The activation QC has no canonical encoding.
    QcNotCanonical,
    /// The activation QC does not bind the capsule and certificate.
    QcMismatch,
    /// A QC ack is unpinned, repeated, substituted or does not verify.
    InvalidWitnessAck,
    /// Fewer than `2f + 1` QC acks.
    WitnessQuorumNotReached,
    /// The read challenge has no canonical encoding.
    ChallengeNotCanonical,
    /// The read challenge names another configuration.
    ChallengeConfigMismatch,
    /// A pinned, matching read response has no canonical encoding.
    ResponseNotCanonical,
    /// Fewer than `2f + 1` witnesses answered, or fewer than `2f + 1`
    /// answers were authenticated.
    NoReadQuorum,
    /// Two authenticated capsules differ at the highest epoch.
    ConflictingCapsules,
    /// An epoch-1 capsule lacks `2f + 1` agreeing reads.
    GenesisAgreement,
}

/// A pin with a non-zero id and a non-empty mailbox.
pub open spec fn pin_well_formed(pin: WitnessPin) -> bool {
    pin.witness_id != 0 && pin.mailbox@.len() > 0
}

/// Two pins with different ids, keys and mailboxes.
pub open spec fn pins_distinct(a: WitnessPin, b: WitnessPin) -> bool {
    &&& a.witness_id != b.witness_id
    &&& a.public_key != b.public_key
    &&& a.mailbox@ != b.mailbox@
}

/// Version and fault bound of a card are acceptable.
pub open spec fn card_header_valid(card: RecoveryCardV3) -> bool {
    card.protocol_version == PROTOCOL_VERSION_V3 && card.witness_fault_bound != 0
}

/// Every pin is well formed and all pins are pairwise distinct.
pub open spec fn card_pins_valid(card: RecoveryCardV3) -> bool {
    &&& forall|i: int| 0 <= i < card.witnesses@.len() ==> pin_well_formed(#[trigger] card.witnesses@[i])
    &&& forall|i: int, j: int|
        0 <= i < j < card.witnesses@.len() ==> pins_distinct(
            #[trigger] card.witnesses@[i],
            #[trigger] card.witnesses@[j],
        )
}

/// A valid protocol-v3 Recovery Card: version 3, `f > 0`, at least `3f + 1`
/// well-formed and pairwise distinct witness pins.
pub open spec fn card_valid(card: RecoveryCardV3) -> bool {
    &&& card_header_valid(card)
    &&& card.witnesses@.len() >= witness_roster_minimum(card.witness_fault_bound as int)
    &&& card_pins_valid(card)
}

/// The error a card validation reports.
pub open spec fn card_error(card: RecoveryCardV3) -> EpochError {
    if !card_header_valid(card) {
        EpochError::InvalidCard
    } else if card.witnesses@.len() < witness_roster_minimum(card.witness_fault_bound as int) {
        EpochError::TooFewWitnesses
    } else {
        EpochError::InvalidWitnessPin
    }
}

/// Validates the witness pins of a protocol-v3 Recovery Card.
#[verifier::loop_isolation(false)]
pub fn validate_recovery_card_v3(card: &RecoveryCardV3) -> (r: Result<(), EpochError>)
    ensures
        r is Ok <==> card_valid(*card),
        r matches Err(e) ==> e == card_error(*card),
{
    if card.protocol_version != PROTOCOL_VERSION_V3 || card.witness_fault_bound == 0 {
        return Err(EpochError::InvalidCard);
    }
    let required_roster = (card.witness_fault_bound as usize) * 3 + 1;
    if card.witnesses.len() < required_roster {
        return Err(EpochError::TooFewWitnesses);
    }
    let mut i: usize = 0;
    while i < card.witnesses.len()
        invariant
            i <= card.witnesses@.len(),
            forall|k: int| 0 <= k < i ==> pin_well_formed(#[trigger] card.witnesses@[k]),
            forall|a: int, b: int|
                0 <= a < b < i ==> pins_distinct(
                    #[trigger] card.witnesses@[a],
                    #[trigger] card.witnesses@[b],
                ),
        decreases card.witnesses.len() - i,
    {
        let pin = &card.witnesses[i];
        if pin.witness_id == 0 || pin.mailbox.as_str().is_empty() {
            return Err(EpochError::InvalidWitnessPin);
        }
        let mut j: usize = 0;
        while j < i
            invariant
                j <= i < card.witnesses@.len(),
                pin == card.witnesses@[i as int],
                forall|a: int| 0 <= a < j ==> pins_distinct(#[trigger] card.witnesses@[a], *pin),
            decreases i - j,
        {
            let other = &card.witnesses[j];
            if other.witness_id == pin.witness_id || id_eq(&other.public_key, &pin.public_key)
                || other.mailbox == pin.mailbox {
                return Err(EpochError::InvalidWitnessPin);
            }
            j = j + 1;
        }
        i = i + 1;
    }
    Ok(())
}

/// Some pin of `card` has id `id`.
pub open spec fn is_pinned(card: RecoveryCardV3, id: u16) -> bool {
    exists|k: int| 0 <= k < card.witnesses@.len() && (#[trigger] card.witnesses@[k]).witness_id == id
}

/// The pin of `card` with id `id` has public key `key`.
pub open spec fn pin_has_key(card: RecoveryCardV3, id: u16, key: Id32) -> bool {
    exists|k: int|
        0 <= k < card.witnesses@.len() && (#[trigger] card.witnesses@[k]).witness_id == id
            && card.witnesses@[k].public_key == key
}

/// Index of the pin with id `id`.
#[verifier::loop_isolation(false)]
pub(crate) fn pin_index(card: &RecoveryCardV3, id: u16) -> (r: Option<usize>)
    requires
        card_valid(*card),
    ensures
        r is None <==> !is_pinned(*card, id),
        r matches Some(k) ==> k < card.witnesses@.len() && card.witnesses@[k as int].witness_id
            == id,
        r matches Some(k) ==> forall|key: Id32|
            pin_has_key(*card, id, key) <==> card.witnesses@[k as int].public_key == key,
{
    let mut k: usize = 0;
    while k < card.witnesses.len()
        invariant
            k <= card.witnesses@.len(),
            forall|m: int| 0 <= m < k ==> (#[trigger] card.witnesses@[m]).witness_id != id,
        decreases card.witnesses.len() - k,
    {
        if card.witnesses[k].witness_id == id {
            proof {
                assert forall|key: Id32| pin_has_key(*card, id, key) implies card.witnesses@[k as int].public_key == key by {
                    let m = choose|m: int|
                        0 <= m < card.witnesses@.len() && (#[trigger] card.witnesses@[m]).witness_id == id
                            && card.witnesses@[m].public_key == key;
                    if m != k {
                        if m < k {
                            assert(pins_distinct(card.witnesses@[m], card.witnesses@[k as int]));
                        } else {
                            assert(pins_distinct(card.witnesses@[k as int], card.witnesses@[m]));
                        }
                    }
                }
            }
            return Some(k);
        }
        k = k + 1;
    }
    None
}

/// `a + b`, saturating at `u64::MAX`.
pub open spec fn saturating_add(a: u64, b: u64) -> int {
    if a + b > u64::MAX {
        u64::MAX as int
    } else {
        a + b
    }
}

/// The Activate certificate names this capsule as the direct successor of
/// the epoch it was issued in.
pub open spec fn activation_binds_capsule(
    capsule: ConfigCapsuleV3,
    certificate: RotationActivateCertificate,
) -> bool {
    &&& certificate.successor == capsule.config_ref
    &&& certificate.successor_capsule_hash == capsule.capsule_hash
    &&& certificate.context.config_ref.config_id == capsule.config_ref.config_id
    &&& certificate.context.config_ref.payload_generation == capsule.config_ref.payload_generation
    &&& certificate.context.config_ref.authorization_epoch
        == capsule.config_ref.authorization_epoch
    &&& saturating_add(certificate.context.config_ref.guardian_epoch, 1)
        == capsule.config_ref.guardian_epoch
    &&& certificate.context.predecessor_capsule_hash == capsule.predecessor_capsule_hash
}

/// Vote `i` is from an in-range signer not seen earlier, with a verified
/// membership proof and signature.
pub open spec fn activate_vote_ok(
    capsule: ConfigCapsuleV3,
    votes: Seq<SignerActivateVote>,
    i: int,
) -> bool {
    &&& 1 <= votes[i].signer_id <= capsule.signer_count
    &&& votes[i].membership_verified
    &&& votes[i].signature_verified
    &&& forall|j: int| 0 <= j < i ==> (#[trigger] votes[j]).signer_id != votes[i].signer_id
}

/// Every vote is acceptable and their number reaches the signer threshold.
pub open spec fn activate_votes_valid(
    capsule: ConfigCapsuleV3,
    certificate: RotationActivateCertificate,
) -> bool {
    &&& forall|i: int|
        0 <= i < certificate.votes@.len() ==> #[trigger] activate_vote_ok(
            capsule,
            certificate.votes@,
            i,
        )
    &&& certificate.votes@.len() >= capsule.signer_threshold
}

/// Checks an Activate certificate against the capsule it activates and
/// returns the certificate's transcript hash.
#[verifier::loop_isolation(false)]
pub fn validate_activate_certificate(
    capsule: &ConfigCapsuleV3,
    certificate: &RotationActivateCertificate,
) -> (r: Result<Id32, EpochError>)
    ensures
        !activation_binds_capsule(*capsule, *certificate) ==> r == Err::<Id32, EpochError>(
            EpochError::ActivationMismatch,
        ),
        activation_binds_capsule(*capsule, *certificate) ==> {
            &&& (exists|i: int|
                0 <= i < certificate.votes@.len() && !#[trigger] activate_vote_ok(
                    *capsule,
                    certificate.votes@,
                    i,
                )) ==> r == Err::<Id32, EpochError>(EpochError::InvalidSignerVote)
            &&& (forall|i: int|
                0 <= i < certificate.votes@.len() ==> #[trigger] activate_vote_ok(
                    *capsule,
                    certificate.votes@,
                    i,
                )) ==> (r == if certificate.votes@.len() >= capsule.signer_threshold {
                Ok::<Id32, EpochError>(certificate.transcript_hash)
            } else {
                Err(EpochError::SignerThresholdNotReached)
            })
        },
{
    let context_ref = &certificate.context.config_ref;
    let next_epoch = context_ref.guardian_epoch.saturating_add(1);
    if !config_ref_eq(&certificate.successor, &capsule.config_ref) || !id_eq(
        &certificate.successor_capsule_hash,
        &capsule.capsule_hash,
    ) || !id_eq(&context_ref.config_id, &capsule.config_ref.config_id)
        || context_ref.payload_generation != capsule.config_ref.payload_generation
        || context_ref.authorization_epoch != capsule.config_ref.authorization_epoch
        || next_epoch != capsule.config_ref.guardian_epoch || !id_eq(
        &certificate.context.predecessor_capsule_hash,
        &capsule.predecessor_capsule_hash,
    ) {
        return Err(EpochError::ActivationMismatch);
    }
    let votes = &certificate.votes;
    let mut i: usize = 0;
    while i < votes.len()
        invariant
            i <= votes@.len(),
            votes@ == certificate.votes@,
            forall|k: int| 0 <= k < i ==> #[trigger] activate_vote_ok(*capsule, votes@, k),
        decreases votes.len() - i,
    {
        let vote = votes[i];
        if vote.signer_id == 0 || vote.signer_id > capsule.signer_count || !vote.membership_verified
            || !vote.signature_verified {
            assert(!activate_vote_ok(*capsule, votes@, i as int));
            return Err(EpochError::InvalidSignerVote);
        }
        let mut j: usize = 0;
        while j < i
            invariant
                j <= i < votes@.len(),
                vote == votes@[i as int],
                forall|k: int| 0 <= k < j ==> (#[trigger] votes@[k]).signer_id != vote.signer_id,
            decreases i - j,
        {
            if votes[j].signer_id == vote.signer_id {
                assert(!activate_vote_ok(*capsule, votes@, i as int));
                return Err(EpochError::InvalidSignerVote);
            }
            j = j + 1;
        }
        assert(activate_vote_ok(*capsule, votes@, i as int));
        i = i + 1;
    }
    if votes.len() < capsule.signer_threshold as usize {
        return Err(EpochError::SignerThresholdNotReached);
    }
    Ok(certificate.transcript_hash)
}

/// The capsule's identity fields match the card and its canonical body.
pub open spec fn capsule_matches_card(card: RecoveryCardV3, capsule: ConfigCapsuleV3) -> bool {
    &&& capsule.protocol_version == PROTOCOL_VERSION_V3
    &&& capsule.config_ref.config_id == card.config_id
    &&& capsule.signer_set_commitment == card.signer_set_commitment
    &&& capsule.owner_cancel_public_key == card.owner_cancel_public_key
    &&& capsule.capsule_hash == capsule.body_hash
}

/// An epoch-1 capsule has no predecessor and no activation evidence.
pub open spec fn genesis_well_formed(capsule: ConfigCapsuleV3) -> bool {
    is_zero_id(capsule.predecessor_capsule_hash) && capsule.activation_certificate is None
        && capsule.activation_qc is None
}

/// The QC binds the exact capsule, certificate and card.
pub open spec fn qc_binds(
    card: RecoveryCardV3,
    capsule: ConfigCapsuleV3,
    certificate: RotationActivateCertificate,
    qc: EpochActivationQc,
) -> bool {
    &&& qc.protocol_version == PROTOCOL_VERSION_V3
    &&& qc.config_id == card.config_id
    &&& qc.rotation_id == certificate.context.rotation_id
    &&& qc.predecessor_epoch == certificate.context.config_ref.guardian_epoch
    &&& qc.predecessor_capsule_hash == capsule.predecessor_capsule_hash
    &&& qc.successor_epoch == capsule.config_ref.guardian_epoch
    &&& qc.successor_capsule_hash == capsule.capsule_hash
    &&& qc.activation_certificate_hash == certificate.transcript_hash
    &&& qc.witness_fault_bound == card.witness_fault_bound
}

/// QC ack `i` is from a pinned witness not seen earlier, under its pinned
/// key, for the certificate, and its signature verifies.
pub open spec fn qc_ack_ok(
    card: RecoveryCardV3,
    acks: Seq<WitnessActivationAck>,
    certificate_hash: Id32,
    i: int,
) -> bool {
    &&& is_pinned(card, acks[i].witness_id)
    &&& pin_has_key(card, acks[i].witness_id, acks[i].witness_public_key)
    &&& acks[i].activation_certificate_hash == certificate_hash
    &&& acks[i].signature_verified
    &&& forall|j: int| 0 <= j < i ==> (#[trigger] acks[j]).witness_id != acks[i].witness_id
}

/// Every QC ack is acceptable and they form a `2f + 1` quorum.
pub open spec fn qc_acks_valid(card: RecoveryCardV3, qc: EpochActivationQc, certificate_hash: Id32) -> bool {
    &&& forall|i: int|
        0 <= i < qc.witness_acks@.len() ==> #[trigger] qc_ack_ok(
            card,
            qc.witness_acks@,
            certificate_hash,
            i,
        )
    &&& qc.witness_acks@.len() >= witness_quorum(card.witness_fault_bound as int)
}

/// An authenticated capsule for `card`: either a well-formed genesis, or a
/// successor carrying a signer-threshold Activate certificate and a
/// `2f + 1` pinned-witness QC that bind it exactly.
#[verifier::opaque]
pub open spec fn capsule_valid(card: RecoveryCardV3, capsule: ConfigCapsuleV3) -> bool {
    &&& card_valid(card)
    &&& capsule_matches_card(card, capsule)
    &&& if capsule.config_ref.guardian_epoch == 1 {
        genesis_well_formed(capsule)
    } else {
        &&& capsule.activation_certificate matches Some(certificate)
        &&& activation_binds_capsule(capsule, certificate)
        &&& activate_votes_valid(capsule, certificate)
        &&& capsule.activation_qc matches Some(qc)
        &&& qc.canonical
        &&& qc_binds(card, capsule, certificate, qc)
        &&& qc_acks_valid(card, qc, certificate.transcript_hash)
    }
}

/// Checks the QC acks and returns whether they form a quorum.
#[verifier::loop_isolation(false)]
fn validate_qc_acks(card: &RecoveryCardV3, qc: &EpochActivationQc, certificate_hash: &Id32) -> (r:
    Result<(), EpochError>)
    requires
        card_valid(*card),
    ensures
        r is Ok <==> qc_acks_valid(*card, *qc, *certificate_hash),
        r matches Err(e) ==> (e == EpochError::InvalidWitnessAck || e
            == EpochError::WitnessQuorumNotReached),
{
    let acks = &qc.witness_acks;
    let mut i: usize = 0;
    while i < acks.len()
        invariant
            card_valid(*card),
            i <= acks@.len(),
            acks@ == qc.witness_acks@,
            forall|k: int| 0 <= k < i ==> #[trigger] qc_ack_ok(*card, acks@, *certificate_hash, k),
        decreases acks.len() - i,
    {
        let ack = &acks[i];
        let k = match pin_index(card, ack.witness_id) {
            Some(k) => k,
            None => {
                assert(!qc_ack_ok(*card, acks@, *certificate_hash, i as int));
                return Err(EpochError::InvalidWitnessAck);
            },
        };
        if !id_eq(&card.witnesses[k].public_key, &ack.witness_public_key) || !id_eq(
            &ack.activation_certificate_hash,
            certificate_hash,
        ) || !ack.signature_verified {
            assert(!qc_ack_ok(*card, acks@, *certificate_hash, i as int));
            return Err(EpochError::InvalidWitnessAck);
        }
        let mut j: usize = 0;
        while j < i
            invariant
                j <= i < acks@.len(),
                *ack == acks@[i as int],
                forall|m: int| 0 <= m < j ==> (#[trigger] acks@[m]).witness_id != ack.witness_id,
            decreases i - j,
        {
            if acks[j].witness_id == ack.witness_id {
                assert(!qc_ack_ok(*card, acks@, *certificate_hash, i as int));
                return Err(EpochError::InvalidWitnessAck);
            }
            j = j + 1;
        }
        assert(qc_ack_ok(*card, acks@, *certificate_hash, i as int));
        i = i + 1;
    }
    let quorum = (card.witness_fault_bound as usize) * 2 + 1;
    if acks.len() < quorum {
        return Err(EpochError::WitnessQuorumNotReached);
    }
    Ok(())
}

/// Validates a capsule against the Recovery Card: a genesis capsule must be
/// bare; a successor must carry an Activate certificate and an activation
/// QC that authenticate it.
pub fn validate_activated_capsule_v3(card: &RecoveryCardV3, capsule: &ConfigCapsuleV3) -> (r:
    Result<(), EpochError>)
    ensures
        r is Ok <==> capsule_valid(*card, *capsule),
        !card_valid(*card) ==> r == Err::<(), EpochError>(card_error(*card)),
        card_valid(*card) && !capsule_matches_card(*card, *capsule) ==> r == Err::<(), EpochError>(
            EpochError::CapsuleMismatch,
        ),
        card_valid(*card) && capsule_matches_card(*card, *capsule)
            && capsule.config_ref.guardian_epoch == 1 && !genesis_well_formed(*capsule) ==> r
            == Err::<(), EpochError>(EpochError::InvalidGenesis),
        card_valid(*card) && capsule_matches_card(*card, *capsule)
            && capsule.config_ref.guardian_epoch != 1 && capsule.activation_certificate is None
            ==> r == Err::<(), EpochError>(EpochError::MissingActivation),
{
    reveal(capsule_valid);
    validate_recovery_card_v3(card)?;
    if capsule.protocol_version != PROTOCOL_VERSION_V3 || !id_eq(
        &capsule.config_ref.config_id,
        &card.config_id,
    ) || !id_eq(&capsule.signer_set_commitment, &card.signer_set_commitment) || !id_eq(
        &capsule.owner_cancel_public_key,
        &card.owner_cancel_public_key,
    ) || !id_eq(&capsule.capsule_hash, &capsule.body_hash) {
        return Err(EpochError::CapsuleMismatch);
    }
    if capsule.config_ref.guardian_epoch == 1 {
        if !id_is_zero(&capsule.predecessor_capsule_hash) || capsule.activation_certificate.is_some()
            || capsule.activation_qc.is_some() {
            return Err(EpochError::InvalidGenesis);
        }
        return Ok(());
    }
    let certificate = match &capsule.activation_certificate {
        Some(certificate) => certificate,
        None => return Err(EpochError::MissingActivation),
    };
    let certificate_hash = validate_activate_certificate(capsule, certificate)?;
    let qc = match &capsule.activation_qc {
        Some(qc) => qc,
        None => return Err(EpochError::MissingQc),
    };
    if !qc.canonical {
        return Err(EpochError::QcNotCanonical);
    }
    if qc.protocol_version != PROTOCOL_VERSION_V3 || !id_eq(&qc.config_id, &card.config_id)
        || !id_eq(&qc.rotation_id, &certificate.context.rotation_id) || qc.predecessor_epoch
        != certificate.context.config_ref.guardian_epoch || !id_eq(
        &qc.predecessor_capsule_hash,
        &capsule.predecessor_capsule_hash,
    ) || qc.successor_epoch != capsule.config_ref.guardian_epoch || !id_eq(
        &qc.successor_capsule_hash,
        &capsule.capsule_hash,
    ) || !id_eq(&qc.activation_certificate_hash, &certificate_hash) || qc.witness_fault_bound
        != card.witness_fault_bound {
        return Err(EpochError::QcMismatch);
    }
    validate_qc_acks(card, qc, &certificate_hash)
}

} // verus!

verus! {

/// A read response is from a pinned witness under its pinned key, answers
/// this challenge, and describes the capsule it carries.
pub open spec fn response_matches(
    card: RecoveryCardV3,
    challenge: EpochReadChallenge,
    envelope: WitnessReadEnvelope,
) -> bool {
    let response = envelope.response;
    &&& is_pinned(card, response.witness_id)
    &&& response.protocol_version == PROTOCOL_VERSION_V3
    &&& response.config_id == challenge.config_id
    &&& response.client_nonce == challenge.client_nonce
    &&& pin_has_key(card, response.witness_id, response.witness_public_key)
    &&& response.highest_guardian_epoch == envelope.capsule.config_ref.guardian_epoch
    &&& response.capsule_hash == envelope.capsule.capsule_hash
}

/// Read `i` matches and is the first matching read from its witness.
pub open spec fn first_response(
    card: RecoveryCardV3,
    challenge: EpochReadChallenge,
    reads: Seq<WitnessReadEnvelope>,
    i: int,
) -> bool {
    &&& response_matches(card, challenge, reads[i])
    &&& forall|j: int|
        0 <= j < i ==> response_matches(card, challenge, #[trigger] reads[j])
            ==> reads[j].response.witness_id != reads[i].response.witness_id
}

/// Read `i` counts toward the quorum: first from its witness, canonical,
/// signed by the witness, and carrying an authenticated capsule.
pub open spec fn read_accepted(
    card: RecoveryCardV3,
    challenge: EpochReadChallenge,
    reads: Seq<WitnessReadEnvelope>,
    i: int,
) -> bool {
    &&& first_response(card, challenge, reads, i)
    &&& reads[i].response.canonical
    &&& reads[i].response.signature_verified
    &&& capsule_valid(card, reads[i].capsule)
}

/// Witness ids of the first matching reads among `reads[..n]`, in order.
pub open spec fn responding_witnesses(
    card: RecoveryCardV3,
    challenge: EpochReadChallenge,
    reads: Seq<WitnessReadEnvelope>,
    n: int,
) -> Seq<u16>
    decreases n,
{
    if n <= 0 {
        Seq::empty()
    } else {
        let previous = responding_witnesses(card, challenge, reads, n - 1);
        if first_response(card, challenge, reads, n - 1) {
            previous.push(reads[n - 1].response.witness_id)
        } else {
            previous
        }
    }
}

/// Positions of the accepted reads among `reads[..n]`, in order.
pub open spec fn accepted_reads(
    card: RecoveryCardV3,
    challenge: EpochReadChallenge,
    reads: Seq<WitnessReadEnvelope>,
    n: int,
) -> Seq<int>
    decreases n,
{
    if n <= 0 {
        Seq::empty()
    } else {
        let previous = accepted_reads(card, challenge, reads, n - 1);
        if read_accepted(card, challenge, reads, n - 1) {
            previous.push(n - 1)
        } else {
            previous
        }
    }
}

/// Some first matching read has no canonical encoding.
pub open spec fn has_noncanonical_response(
    card: RecoveryCardV3,
    challenge: EpochReadChallenge,
    reads: Seq<WitnessReadEnvelope>,
) -> bool {
    exists|i: int|
        0 <= i < reads.len() && #[trigger] first_response(card, challenge, reads, i)
            && !reads[i].response.canonical
}

/// Guardian epoch of the capsule of read `i`.
pub open spec fn read_epoch(reads: Seq<WitnessReadEnvelope>, i: int) -> u64 {
    reads[i].capsule.config_ref.guardian_epoch
}

/// Highest epoch among the reads at positions `positions` (0 when none).
pub open spec fn highest_epoch(reads: Seq<WitnessReadEnvelope>, positions: Seq<int>) -> u64
    decreases positions.len(),
{
    if positions.len() == 0 {
        0
    } else {
        let rest = highest_epoch(reads, positions.drop_last());
        let last = read_epoch(reads, positions.last());
        if last > rest {
            last
        } else {
            rest
        }
    }
}

/// Two accepted reads at the highest epoch carry different capsules.
pub open spec fn has_fork(reads: Seq<WitnessReadEnvelope>, positions: Seq<int>) -> bool {
    let top = highest_epoch(reads, positions);
    exists|a: int, b: int|
        0 <= a < positions.len() && 0 <= b < positions.len() && read_epoch(reads, #[trigger] positions[a]) == top
            && read_epoch(reads, #[trigger] positions[b]) == top && reads[positions[a]].capsule.capsule_hash
            != reads[positions[b]].capsule.capsule_hash
}

/// `p` is the first position among `positions` whose read is at epoch `e`.
pub open spec fn is_first_at_epoch(
    reads: Seq<WitnessReadEnvelope>,
    positions: Seq<int>,
    e: u64,
    p: int,
) -> bool {
    &&& 0 <= p < positions.len()
    &&& read_epoch(reads, positions[p]) == e
    &&& forall|q: int| 0 <= q < p ==> read_epoch(reads, #[trigger] positions[q]) != e
}


proof fn lemma_responding_contains(
    card: RecoveryCardV3,
    challenge: EpochReadChallenge,
    reads: Seq<WitnessReadEnvelope>,
    n: int,
    id: u16,
)
    requires
        0 <= n <= reads.len(),
    ensures
        responding_witnesses(card, challenge, reads, n).contains(id) <==> exists|j: int|
            0 <= j < n && response_matches(card, challenge, #[trigger] reads[j])
                && reads[j].response.witness_id == id,
        responding_witnesses(card, challenge, reads, n).no_duplicates(),
    decreases n,
{
    if n > 0 {
        let previous = responding_witnesses(card, challenge, reads, n - 1);
        let all = responding_witnesses(card, challenge, reads, n);
        let last = reads[n - 1].response.witness_id;
        lemma_responding_contains(card, challenge, reads, n - 1, id);
        lemma_responding_contains(card, challenge, reads, n - 1, last);
        if first_response(card, challenge, reads, n - 1) {
            assert(all == previous.push(last));
            assert(!previous.contains(last));
            if all.contains(id) && !previous.contains(id) {
                assert(id == last);
                assert(response_matches(card, challenge, reads[n - 1]));
            }
            if exists|j: int|
                0 <= j < n && response_matches(card, challenge, #[trigger] reads[j])
                    && reads[j].response.witness_id == id {
                let j = choose|j: int|
                    0 <= j < n && response_matches(card, challenge, #[trigger] reads[j])
                        && reads[j].response.witness_id == id;
                if j < n - 1 {
                    assert(previous.contains(id));
                    let k = choose|k: int| 0 <= k < previous.len() && previous[k] == id;
                    assert(all[k] == id);
                } else {
                    assert(all[all.len() - 1] == id);
                }
            }
        } else {
            assert(all == previous);
            if exists|j: int|
                0 <= j < n && response_matches(card, challenge, #[trigger] reads[j])
                    && reads[j].response.witness_id == id {
                let j = choose|j: int|
                    0 <= j < n && response_matches(card, challenge, #[trigger] reads[j])
                        && reads[j].response.witness_id == id;
                if j == n - 1 {
                    let k = choose|k: int|
                        0 <= k < n - 1 && response_matches(card, challenge, #[trigger] reads[k])
                            && reads[k].response.witness_id == last;
                    assert(previous.contains(id));
                }
            }
        }
    }
}

proof fn lemma_accepted_positions(
    card: RecoveryCardV3,
    challenge: EpochReadChallenge,
    reads: Seq<WitnessReadEnvelope>,
    n: int,
)
    requires
        0 <= n <= reads.len(),
    ensures
        forall|k: int|
            0 <= k < accepted_reads(card, challenge, reads, n).len() ==> {
                let p = #[trigger] accepted_reads(card, challenge, reads, n)[k];
                0 <= p < n && read_accepted(card, challenge, reads, p)
            },
        forall|k: int, m: int|
            0 <= k < m < accepted_reads(card, challenge, reads, n).len() ==> #[trigger] accepted_reads(
                card,
                challenge,
                reads,
                n,
            )[k] < #[trigger] accepted_reads(card, challenge, reads, n)[m],
    decreases n,
{
    if n > 0 {
        lemma_accepted_positions(card, challenge, reads, n - 1);
        let previous = accepted_reads(card, challenge, reads, n - 1);
        let all = accepted_reads(card, challenge, reads, n);
        if read_accepted(card, challenge, reads, n - 1) {
            assert(all == previous.push(n - 1));
        } else {
            assert(all == previous);
        }
    }
}

proof fn lemma_highest_epoch(reads: Seq<WitnessReadEnvelope>, positions: Seq<int>)
    ensures
        forall|a: int| 0 <= a < positions.len() ==> read_epoch(reads, #[trigger] positions[a]) <= highest_epoch(reads, positions),
        positions.len() > 0 ==> exists|a: int|
            0 <= a < positions.len() && read_epoch(reads, #[trigger] positions[a]) == highest_epoch(reads, positions),
    decreases positions.len(),
{
    if positions.len() > 0 {
        let rest = positions.drop_last();
        lemma_highest_epoch(reads, rest);
        assert forall|a: int| 0 <= a < positions.len() implies read_epoch(reads, #[trigger] positions[a]) <= highest_epoch(reads, positions) by {
            if a < rest.len() {
                assert(rest[a] == positions[a]);
            }
        }
        if read_epoch(reads, positions.last()) <= highest_epoch(reads, rest) && rest.len() > 0 {
            let a = choose|a: int| 0 <= a < rest.len() && read_epoch(reads, #[trigger] rest[a]) == highest_epoch(reads, rest);
            assert(positions[a] == rest[a]);
        } else {
            assert(positions[positions.len() - 1] == positions.last());
        }
    }
}

proof fn lemma_nodup_subset_len(a: Seq<u16>, b: Seq<u16>)
    requires
        a.no_duplicates(),
        b.no_duplicates(),
        forall|x: u16| a.contains(x) ==> b.contains(x),
    ensures
        a.len() <= b.len(),
{
    a.unique_seq_to_set();
    b.unique_seq_to_set();
    assert(a.to_set().subset_of(b.to_set()));
    vstd::set_lib::lemma_len_subset(a.to_set(), b.to_set());
}

proof fn lemma_valid_capsule_epoch_positive(card: RecoveryCardV3, capsule: ConfigCapsuleV3)
    requires
        capsule_valid(card, capsule),
    ensures
        capsule.config_ref.guardian_epoch >= 1,
{
    reveal(capsule_valid);
}

/// The witnesses that answered and the reads that were accepted, in order.
struct ReadScan {
    responding: Vec<u16>,
    accepted: Vec<usize>,
    accepted_ids: Vec<u16>,
}

#[verifier::loop_isolation(false)]
fn scan_reads(
    card: &RecoveryCardV3,
    challenge: &EpochReadChallenge,
    envelopes: &[WitnessReadEnvelope],
) -> (r: Result<ReadScan, EpochError>)
    requires
        card_valid(*card),
    ensures
        ({
            let reads = envelopes@;
            let n = reads.len() as int;
            match r {
                Err(e) => e == EpochError::ResponseNotCanonical && has_noncanonical_response(
                    *card,
                    *challenge,
                    reads,
                ),
                Ok(scan) => {
                    &&& !has_noncanonical_response(*card, *challenge, reads)
                    &&& scan.responding@ == responding_witnesses(*card, *challenge, reads, n)
                    &&& scan.accepted@.len() == accepted_reads(*card, *challenge, reads, n).len()
                    &&& scan.accepted_ids@.len() == scan.accepted@.len()
                    &&& forall|k: int|
                        0 <= k < scan.accepted@.len() ==> #[trigger] scan.accepted@[k] as int
                            == accepted_reads(*card, *challenge, reads, n)[k]
                            && scan.accepted_ids@[k] == reads[scan.accepted@[k] as int].response.witness_id
                },
            }
        }),
{
    let ghost reads = envelopes@;
    let mut seen: Vec<u16> = Vec::new();
    let mut accepted: Vec<usize> = Vec::new();
    let mut accepted_ids: Vec<u16> = Vec::new();
    let mut i: usize = 0;
    while i < envelopes.len()
        invariant
            i <= envelopes@.len(),
            reads == envelopes@,
            seen@ == responding_witnesses(*card, *challenge, reads, i as int),
            accepted@.len() == accepted_reads(*card, *challenge, reads, i as int).len(),
            accepted_ids@.len() == accepted@.len(),
            forall|k: int|
                0 <= k < accepted@.len() ==> #[trigger] accepted@[k] as int == accepted_reads(
                    *card,
                    *challenge,
                    reads,
                    i as int,
                )[k] && accepted_ids@[k] == reads[accepted@[k] as int].response.witness_id,
            forall|j: int|
                0 <= j < i ==> first_response(*card, *challenge, reads, j)
                    ==> reads[j].response.canonical,
        decreases envelopes.len() - i,
    {
        let envelope = &envelopes[i];
        let response = &envelope.response;
        proof {
            lemma_responding_contains(*card, *challenge, reads, i as int, response.witness_id);
            lemma_accepted_positions(*card, *challenge, reads, i as int);
        }
        let k = match pin_index(card, response.witness_id) {
            Some(k) => k,
            None => {
                assert(!first_response(*card, *challenge, reads, i as int));
                assert(accepted_reads(*card, *challenge, reads, i + 1) == accepted_reads(*card, *challenge, reads, i as int));
                i = i + 1;
                continue;
            },
        };
        if response.protocol_version != PROTOCOL_VERSION_V3 || !id_eq(
            &response.config_id,
            &challenge.config_id,
        ) || !id_eq(&response.client_nonce, &challenge.client_nonce) || !id_eq(
            &response.witness_public_key,
            &card.witnesses[k].public_key,
        ) || response.highest_guardian_epoch != envelope.capsule.config_ref.guardian_epoch
            || !id_eq(&response.capsule_hash, &envelope.capsule.capsule_hash) || contains_u16(
            &seen,
            response.witness_id,
        ) {
            assert(!first_response(*card, *challenge, reads, i as int));
            assert(accepted_reads(*card, *challenge, reads, i + 1) == accepted_reads(*card, *challenge, reads, i as int));
            i = i + 1;
            continue;
        }
        assert(first_response(*card, *challenge, reads, i as int));
        seen.push(response.witness_id);
        if !response.canonical {
            return Err(EpochError::ResponseNotCanonical);
        }
        if response.signature_verified && validate_activated_capsule_v3(card, &envelope.capsule).is_ok() {
            accepted.push(i);
            accepted_ids.push(response.witness_id);
        }
        i = i + 1;
    }
    Ok(ReadScan { responding: seen, accepted, accepted_ids })
}

fn highest_accepted_epoch(envelopes: &[WitnessReadEnvelope], accepted: &Vec<usize>) -> (top: u64)
    requires
        forall|k: int| 0 <= k < accepted@.len() ==> #[trigger] accepted@[k] < envelopes@.len(),
    ensures
        top == highest_epoch(envelopes@, accepted@.map_values(|p: usize| p as int)),
{
    let ghost positions = accepted@.map_values(|p: usize| p as int);
    let mut top: u64 = 0;
    let mut a: usize = 0;
    while a < accepted.len()
        invariant
            a <= accepted@.len(),
            positions == accepted@.map_values(|p: usize| p as int),
            forall|k: int| 0 <= k < accepted@.len() ==> #[trigger] accepted@[k] < envelopes@.len(),
            top == highest_epoch(envelopes@, positions.subrange(0, a as int)),
        decreases accepted.len() - a,
    {
        assert(positions.subrange(0, a + 1).drop_last() =~= positions.subrange(0, a as int));
        let e = envelopes[accepted[a]].capsule.config_ref.guardian_epoch;
        if e > top {
            top = e;
        }
        a = a + 1;
    }
    assert(positions.subrange(0, a as int) =~= positions);
    top
}

/// Two first positions at the same epoch coincide.
proof fn lemma_first_at_epoch_unique(
    reads: Seq<WitnessReadEnvelope>,
    positions: Seq<int>,
    e: u64,
    p: int,
    q: int,
)
    requires
        is_first_at_epoch(reads, positions, e, p),
        is_first_at_epoch(reads, positions, e, q),
    ensures
        p == q,
{
    if p < q {
        assert(read_epoch(reads, positions[p]) != e);
    } else if q < p {
        assert(read_epoch(reads, positions[q]) != e);
    }
}

/// The read whose capsule a fresh witness read selects, or why none is
/// selected.
pub open spec fn latest_epoch_choice(
    card: RecoveryCardV3,
    challenge: EpochReadChallenge,
    reads: Seq<WitnessReadEnvelope>,
) -> Result<int, EpochError> {
    let n = reads.len() as int;
    let quorum = witness_quorum(card.witness_fault_bound as int);
    let responding = responding_witnesses(card, challenge, reads, n);
    let accepted = accepted_reads(card, challenge, reads, n);
    let top = highest_epoch(reads, accepted);
    if !card_valid(card) {
        Err(card_error(card))
    } else if !challenge.canonical {
        Err(EpochError::ChallengeNotCanonical)
    } else if challenge.config_id != card.config_id {
        Err(EpochError::ChallengeConfigMismatch)
    } else if has_noncanonical_response(card, challenge, reads) {
        Err(EpochError::ResponseNotCanonical)
    } else if responding.len() < quorum || accepted.len() < quorum {
        Err(EpochError::NoReadQuorum)
    } else if has_fork(reads, accepted) {
        Err(EpochError::ConflictingCapsules)
    } else {
        Ok(accepted[choose|p: int| is_first_at_epoch(reads, accepted, top, p)])
    }
}

/// Selects the active guardian epoch from a fresh witness read: at least
/// `2f + 1` pinned witnesses must answer this challenge with authenticated
/// capsules; the highest epoch among them wins, and two different
/// capsules at that epoch fail closed.
#[verifier::loop_isolation(false)]
pub fn select_latest_epoch_v3(
    card: &RecoveryCardV3,
    challenge: &EpochReadChallenge,
    envelopes: &[WitnessReadEnvelope],
) -> (r: Result<ConfigCapsuleV3, EpochError>)
    ensures
        ({
            let reads = envelopes@;
            let n = reads.len() as int;
            let quorum = witness_quorum(card.witness_fault_bound as int);
            let responding = responding_witnesses(*card, *challenge, reads, n);
            let accepted = accepted_reads(*card, *challenge, reads, n);
            let top = highest_epoch(reads, accepted);
            if !card_valid(*card) {
                r == Err::<ConfigCapsuleV3, EpochError>(card_error(*card))
            } else if !challenge.canonical {
                r == Err::<ConfigCapsuleV3, EpochError>(EpochError::ChallengeNotCanonical)
            } else if challenge.config_id != card.config_id {
                r == Err::<ConfigCapsuleV3, EpochError>(EpochError::ChallengeConfigMismatch)
            } else if has_noncanonical_response(*card, *challenge, reads) {
                r == Err::<ConfigCapsuleV3, EpochError>(EpochError::ResponseNotCanonical)
            } else if responding.len() < quorum || accepted.len() < quorum {
                r == Err::<ConfigCapsuleV3, EpochError>(EpochError::NoReadQuorum)
            } else if has_fork(reads, accepted) {
                r == Err::<ConfigCapsuleV3, EpochError>(EpochError::ConflictingCapsules)
            } else {
                exists|p: int|
                    is_first_at_epoch(reads, accepted, top, p) && (r matches Ok(c) && same_capsule(
                        c,
                        reads[accepted[p]].capsule,
                    ))
            }
        }),
        match latest_epoch_choice(*card, *challenge, envelopes@) {
            Err(e) => r == Err::<ConfigCapsuleV3, EpochError>(e),
            Ok(i) => r matches Ok(c) && same_capsule(c, envelopes@[i].capsule),
        },
        r matches Ok(c) ==> {
            let reads = envelopes@;
            let accepted = accepted_reads(*card, *challenge, reads, reads.len() as int);
            &&& accepted.len() >= witness_quorum(card.witness_fault_bound as int)
            &&& forall|k: int|
                0 <= k < accepted.len() ==> read_accepted(*card, *challenge, reads, #[trigger] accepted[k])
            &&& forall|k: int|
                0 <= k < accepted.len() ==> read_epoch(reads, #[trigger] accepted[k])
                    <= c.config_ref.guardian_epoch
            &&& forall|k: int|
                0 <= k < accepted.len() && read_epoch(reads, #[trigger] accepted[k])
                    == c.config_ref.guardian_epoch ==> reads[accepted[k]].capsule.capsule_hash
                    == c.capsule_hash
        },
{
    let ghost reads = envelopes@;
    let ghost n = reads.len() as int;
    validate_recovery_card_v3(card)?;
    if !challenge.canonical {
        return Err(EpochError::ChallengeNotCanonical);
    }
    if !id_eq(&challenge.config_id, &card.config_id) {
        return Err(EpochError::ChallengeConfigMismatch);
    }
    let scan = scan_reads(card, challenge, envelopes)?;
    let ghost positions = accepted_reads(*card, *challenge, reads, n);
    proof {
        lemma_accepted_positions(*card, *challenge, reads, n);
        assert(scan.accepted@.map_values(|p: usize| p as int) =~= positions);
    }
    let quorum = (card.witness_fault_bound as usize) * 2 + 1;
    if scan.responding.len() < quorum || scan.accepted.len() < quorum {
        return Err(EpochError::NoReadQuorum);
    }
    let accepted = &scan.accepted;
    let top = highest_accepted_epoch(envelopes, accepted);
    proof {
        lemma_highest_epoch(reads, positions);
    }
    // First accepted read at the highest epoch.
    let mut p: usize = 0;
    while envelopes[accepted[p]].capsule.config_ref.guardian_epoch != top
        invariant
            p < accepted@.len(),
            exists|b: int| p <= b < positions.len() && read_epoch(reads, #[trigger] positions[b]) == top,
            forall|q: int| 0 <= q < p ==> read_epoch(reads, #[trigger] positions[q]) != top,
        decreases accepted.len() - p,
    {
        p = p + 1;
    }
    assert(is_first_at_epoch(reads, positions, top, p as int));
    let selected_hash = envelopes[accepted[p]].capsule.capsule_hash;
    let mut b: usize = 0;
    while b < accepted.len()
        invariant
            b <= accepted@.len(),
            forall|q: int|
                0 <= q < b && read_epoch(reads, #[trigger] positions[q]) == top ==> reads[positions[q]].capsule.capsule_hash
                    == selected_hash,
        decreases accepted.len() - b,
    {
        let candidate = &envelopes[accepted[b]].capsule;
        if candidate.config_ref.guardian_epoch == top && !id_eq(&candidate.capsule_hash, &selected_hash) {
            assert(has_fork(reads, positions)) by {
                assert(read_epoch(reads, positions[b as int]) == top);
                assert(read_epoch(reads, positions[p as int]) == top);
            }
            return Err(EpochError::ConflictingCapsules);
        }
        b = b + 1;
    }
    assert(!has_fork(reads, positions));
    if top == 1 {
        let agreement = genesis_agreement(card, challenge, envelopes, &scan, &selected_hash);
        if agreement < quorum {
            return Err(EpochError::GenesisAgreement);
        }
    }
    proof {
        let q = choose|q: int| is_first_at_epoch(reads, positions, top, q);
        lemma_first_at_epoch_unique(reads, positions, top, p as int, q);
    }
    Ok(clone_capsule(&envelopes[accepted[p]].capsule))
}

/// Number of distinct accepted witnesses whose read reports epoch 1 and
/// the selected capsule hash.
#[verifier::loop_isolation(false)]
fn genesis_agreement(
    card: &RecoveryCardV3,
    challenge: &EpochReadChallenge,
    envelopes: &[WitnessReadEnvelope],
    scan: &ReadScan,
    selected_hash: &Id32,
) -> (count: usize)
    requires
        card_valid(*card),
        ({
            let reads = envelopes@;
            let n = reads.len() as int;
            let positions = accepted_reads(*card, *challenge, reads, n);
            &&& scan.accepted@.len() == positions.len()
            &&& scan.accepted_ids@.len() == scan.accepted@.len()
            &&& forall|k: int|
                0 <= k < scan.accepted@.len() ==> #[trigger] scan.accepted@[k] as int == positions[k]
                    && scan.accepted_ids@[k] == reads[scan.accepted@[k] as int].response.witness_id
            &&& forall|k: int|
                0 <= k < positions.len() ==> read_epoch(reads, #[trigger] positions[k]) <= 1
            &&& forall|k: int|
                0 <= k < positions.len() && read_epoch(reads, #[trigger] positions[k]) == 1
                    ==> reads[positions[k]].capsule.capsule_hash == *selected_hash
        }),
    ensures
        count >= scan.accepted@.len(),
{
    let ghost reads = envelopes@;
    let ghost n = reads.len() as int;
    let ghost positions = accepted_reads(*card, *challenge, reads, n);
    proof {
        lemma_accepted_positions(*card, *challenge, reads, n);
    }
    let accepted_ids = &scan.accepted_ids;
    let mut agreement: Vec<u16> = Vec::new();
    let mut j: usize = 0;
    while j < envelopes.len()
        invariant
            j <= envelopes@.len(),
            agreement@.no_duplicates(),
            forall|k: int|
                0 <= k < accepted_ids@.len() && positions[k] < j ==> agreement@.contains(
                    #[trigger] accepted_ids@[k],
                ),
        decreases envelopes.len() - j,
    {
        let response = &envelopes[j].response;
        let ghost before = agreement@;
        if contains_u16(accepted_ids, response.witness_id) && response.highest_guardian_epoch == 1
            && id_eq(&response.capsule_hash, selected_hash) && !contains_u16(
            &agreement,
            response.witness_id,
        ) {
            agreement.push(response.witness_id);
            proof {
                assert(agreement@[before.len() as int] == response.witness_id);
                assert(agreement@.contains(response.witness_id));
                assert forall|a: int, b: int|
                    0 <= a < b < agreement@.len() implies agreement@[a] != agreement@[b] by {
                    if b == before.len() {
                        assert(before.contains(before[a]));
                    }
                }
            }
        }
        proof {
            assert forall|x: u16| before.contains(x) implies agreement@.contains(x) by {
                let i = choose|i: int| 0 <= i < before.len() && before[i] == x;
                assert(agreement@[i] == x);
            }
            assert forall|k: int|
                0 <= k < accepted_ids@.len() && positions[k] < j + 1 implies agreement@.contains(
                #[trigger] accepted_ids@[k],
            ) by {
                if positions[k] == j {
                    let p = positions[k];
                    assert(scan.accepted@[k] as int == p);
                    assert(read_accepted(*card, *challenge, reads, p));
                    assert(first_response(*card, *challenge, reads, p));
                    assert(response_matches(*card, *challenge, reads[p]));
                    lemma_valid_capsule_epoch_positive(*card, reads[p].capsule);
                    assert(read_epoch(reads, positions[k]) == 1);
                    assert(reads[p].capsule.capsule_hash == *selected_hash);
                    assert(accepted_ids@[k] == reads[j as int].response.witness_id);
                    assert(accepted_ids@.contains(accepted_ids@[k]));
                    assert(agreement@.contains(accepted_ids@[k]));
                } else {
                    assert(before.contains(accepted_ids@[k]));
                }
            }
        }
        j = j + 1;
    }
    proof {
        assert forall|k: int, m: int| 0 <= k < m < accepted_ids@.len() implies accepted_ids@[k]
            != accepted_ids@[m] by {
            assert(scan.accepted@[k] as int == positions[k]);
            assert(scan.accepted@[m] as int == positions[m]);
            assert(read_accepted(*card, *challenge, reads, positions[m]));
            assert(first_response(*card, *challenge, reads, positions[m]));
            assert(read_accepted(*card, *challenge, reads, positions[k]));
            assert(first_response(*card, *challenge, reads, positions[k]));
            assert(positions[k] < positions[m]);
            assert(response_matches(*card, *challenge, reads[positions[k]]));
        }
        assert forall|x: u16| accepted_ids@.contains(x) implies agreement@.contains(x) by {
            let k = choose|k: int| 0 <= k < accepted_ids@.len() && accepted_ids@[k] == x;
            assert(positions[k] < n);
        }
        lemma_nodup_subset_len(accepted_ids@, agreement@);
    }
    agreement.len()
}

} // verus!
