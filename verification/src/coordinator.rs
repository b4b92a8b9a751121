//! What the rotation coordinator accepts from signers, guardians and
//! witnesses, and how it gathers a threshold of them for each certificate.
//! Each gathering step is one decision between two outside exchanges: the
//! caller sends the request to the next mailbox, hands the answer (or
//! `None` where none came back) to the step, and stops once it reports that
//! the threshold was reached.
use std::collections::BTreeMap;
use vstd::prelude::*;

use crate::bytes::{bytes_eq, id_eq, Id32};
use crate::epoch::{card_valid, pin_has_key, is_pinned, pins_distinct, qc_ack_ok, qc_acks_valid, activate_vote_ok, activate_votes_valid};
use crate::model::{
    context_eq, same_context, ConfigCapsuleV3, EpochActivationQc, RecoveryCardV3,
    RotationActivateCertificate, RotationContext, SignerActivateVote, WitnessActivationAck,
    WitnessPin, PROTOCOL_VERSION_V3,
};
use crate::descriptor::RecoveryDescriptorV3;
use crate::quorum::witness_quorum;
use crate::witness::OwnerRotationCancelCertificate;
use crate::rotation::{
    begin_binds_plan, begin_rotation_outcome, plan_outcome, rotation_vote_ok, rotation_votes_outcome,
    BeginRotationCertificate, RotationError, RotationReleaseCertificate, rotation_release_outcome,
    AbortRotationCertificate, abort_rotation_outcome, abort_vote_ok, before_activation,
    cancellation_binds_plan, owner_cancel_quorum_outcome, veto_ok, in_roster,
    GuardianRouteV3, RotationIntent, RotationPlan, RotationState, SignerAbortVote, SignerRotationVote,
    WitnessRotationCancelAck,
};

verus! {

/// Why the coordinator refused an answer or stopped short of a threshold.
#[derive(Debug, Clone, Copy, PartialEq, Eq)]
pub enum CoordinatorError {
    /// The plan has no canonical encoding, so it has no hash to bind.
    PlanNotCanonical,
    /// A vote does not bind the exact plan, step or successor.
    VoteMismatch,
    /// A vote names signer 0.
    ZeroSigner,
    /// A vote names a signer outside the committed signer set.
    SignerOutOfRange,
    /// A signer's membership proof does not verify.
    MembershipNotProven,
    /// A signature does not verify.
    BadSignature,
    /// An acknowledgement does not bind the exact transcript or sender.
    AckMismatch,
    /// Fewer distinct valid signer votes than the signer threshold.
    SignerThresholdNotReached,
    /// Fewer valid witness acknowledgements than `2f + 1`.
    WitnessQuorumNotReached,
    /// The contributing guardian is not in the descriptor roster.
    OutsideDescriptor,
    /// A record's Merkle path does not verify under the material root.
    InclusionNotProven,
    /// A DPSS delivery targets a mailbox outside the expected roster.
    DeliveryOutsideRoster,
    /// Successor guardians reported different refresh results.
    RefreshDisagreement,
    /// No successor reported a refresh result.
    NoRefreshResult,
    /// A guardian staged material for another refresh result than the
    /// agreed one.
    StagedResultChanged,
}

/// Outcome of checking that `signer_id` is a proven member of the
/// capsule's signer set.
pub open spec fn membership_outcome(
    signer_id: u16,
    membership_verified: bool,
    capsule: ConfigCapsuleV3,
) -> Result<(), CoordinatorError> {
    if signer_id == 0 {
        Err(CoordinatorError::ZeroSigner)
    } else if signer_id > capsule.signer_count {
        Err(CoordinatorError::SignerOutOfRange)
    } else if !membership_verified {
        Err(CoordinatorError::MembershipNotProven)
    } else {
        Ok(())
    }
}

/// Checks that a signer is a proven member of the capsule's signer set:
/// a non-zero id within the set, whose key the Merkle proof places at that
/// id under the signer-set commitment.
pub fn validate_signer_membership(
    signer_id: u16,
    membership_verified: bool,
    capsule: &ConfigCapsuleV3,
) -> (r: Result<(), CoordinatorError>)
    ensures
        r == membership_outcome(signer_id, membership_verified, *capsule),
{
    if signer_id == 0 {
        return Err(CoordinatorError::ZeroSigner);
    }
    if signer_id > capsule.signer_count {
        return Err(CoordinatorError::SignerOutOfRange);
    }
    if !membership_verified {
        return Err(CoordinatorError::MembershipNotProven);
    }
    Ok(())
}

/// Membership first, then the vote's own signature.
pub open spec fn signed_member_outcome(
    signer_id: u16,
    membership_verified: bool,
    signature_verified: bool,
    capsule: ConfigCapsuleV3,
) -> Result<(), CoordinatorError> {
    match membership_outcome(signer_id, membership_verified, capsule) {
        Err(e) => Err(e),
        Ok(_) => if signature_verified {
            Ok(())
        } else {
            Err(CoordinatorError::BadSignature)
        },
    }
}

fn check_signed_member(
    signer_id: u16,
    membership_verified: bool,
    signature_verified: bool,
    capsule: &ConfigCapsuleV3,
) -> (r: Result<(), CoordinatorError>)
    ensures
        r == signed_member_outcome(signer_id, membership_verified, signature_verified, *capsule),
{
    validate_signer_membership(signer_id, membership_verified, capsule)?;
    if !signature_verified {
        return Err(CoordinatorError::BadSignature);
    }
    Ok(())
}

/// A signer's vote to Begin a rotation plan.
#[derive(Clone, Debug)]
pub struct SignerRotationBeginVote {
    pub context: RotationContext,
    pub intent_hash: Id32,
    pub plan_hash: Id32,
    pub old_roster_commitment: Id32,
    pub new_roster_commitment: Id32,
    pub signer_id: u16,
    pub signer_public_key: Id32,
    /// The Merkle proof places this key at `signer_id`.
    pub membership_verified: bool,
    /// The signature over the vote's transcript verifies under
    /// `signer_public_key`.
    pub signature_verified: bool,
}

/// A signer's vote to Release a begun rotation.
#[derive(Clone, Debug)]
pub struct SignerRotationReleaseVote {
    pub context: RotationContext,
    pub plan_hash: Id32,
    pub begin_certificate_hash: Id32,
    pub signer_id: u16,
    pub signer_public_key: Id32,
    /// The Merkle proof places this key at `signer_id`.
    pub membership_verified: bool,
    /// The signature over the vote's transcript verifies under
    /// `signer_public_key`.
    pub signature_verified: bool,
}

/// A signer's vote to Activate a prepared successor capsule.
#[derive(Clone, Debug)]
pub struct SignerRotationActivateVote {
    pub context: RotationContext,
    pub plan_hash: Id32,
    pub ready_certificate_hash: Id32,
    pub successor_capsule_hash: Id32,
    pub signer_id: u16,
    pub signer_public_key: Id32,
    /// The Merkle proof places this key at `signer_id` in the successor's
    /// signer set.
    pub membership_verified: bool,
    /// The signature over the vote's transcript verifies under
    /// `signer_public_key`.
    pub signature_verified: bool,
}

/// The Begin vote names the exact plan.
pub open spec fn begin_vote_binds(vote: SignerRotationBeginVote, plan: RotationPlan) -> bool {
    &&& same_context(vote.context, plan.context)
    &&& vote.intent_hash == plan.intent_hash
    &&& vote.plan_hash == plan.transcript_hash
    &&& vote.old_roster_commitment == plan.old_roster_commitment
    &&& vote.new_roster_commitment == plan.new_roster_commitment
}

/// Outcome of checking a Begin vote.
pub open spec fn begin_vote_outcome(
    vote: SignerRotationBeginVote,
    plan: RotationPlan,
    predecessor: ConfigCapsuleV3,
) -> Result<(), CoordinatorError> {
    if !plan.canonical {
        Err(CoordinatorError::PlanNotCanonical)
    } else if !begin_vote_binds(vote, plan) {
        Err(CoordinatorError::VoteMismatch)
    } else {
        signed_member_outcome(
            vote.signer_id,
            vote.membership_verified,
            vote.signature_verified,
            predecessor,
        )
    }
}

/// Checks that a Begin vote binds the exact plan and comes from a proven
/// member of the predecessor's signer set whose signature verifies.
pub fn validate_signer_begin_vote(
    vote: &SignerRotationBeginVote,
    plan: &RotationPlan,
    predecessor: &ConfigCapsuleV3,
) -> (r: Result<(), CoordinatorError>)
    ensures
        r == begin_vote_outcome(*vote, *plan, *predecessor),
{
    if !plan.canonical {
        return Err(CoordinatorError::PlanNotCanonical);
    }
    if !context_eq(&vote.context, &plan.context) || !id_eq(&vote.intent_hash, &plan.intent_hash)
        || !id_eq(&vote.plan_hash, &plan.transcript_hash) || !id_eq(
        &vote.old_roster_commitment,
        &plan.old_roster_commitment,
    ) || !id_eq(&vote.new_roster_commitment, &plan.new_roster_commitment) {
        return Err(CoordinatorError::VoteMismatch);
    }
    check_signed_member(vote.signer_id, vote.membership_verified, vote.signature_verified, predecessor)
}

/// The Release vote names the exact plan and Begin certificate.
pub open spec fn release_vote_binds(
    vote: SignerRotationReleaseVote,
    plan: RotationPlan,
    begin_hash: Id32,
) -> bool {
    &&& same_context(vote.context, plan.context)
    &&& vote.plan_hash == plan.transcript_hash
    &&& vote.begin_certificate_hash == begin_hash
}

/// Outcome of checking a Release vote.
pub open spec fn release_vote_outcome(
    vote: SignerRotationReleaseVote,
    plan: RotationPlan,
    begin_hash: Id32,
    predecessor: ConfigCapsuleV3,
) -> Result<(), CoordinatorError> {
    if !plan.canonical {
        Err(CoordinatorError::PlanNotCanonical)
    } else if !release_vote_binds(vote, plan, begin_hash) {
        Err(CoordinatorError::VoteMismatch)
    } else {
        signed_member_outcome(
            vote.signer_id,
            vote.membership_verified,
            vote.signature_verified,
            predecessor,
        )
    }
}

/// Checks that a Release vote binds the exact plan and Begin certificate
/// and comes from a proven member of the predecessor's signer set whose
/// signature verifies.
pub fn validate_signer_release_vote(
    vote: &SignerRotationReleaseVote,
    plan: &RotationPlan,
    begin_hash: &Id32,
    predecessor: &ConfigCapsuleV3,
) -> (r: Result<(), CoordinatorError>)
    ensures
        r == release_vote_outcome(*vote, *plan, *begin_hash, *predecessor),
{
    if !plan.canonical {
        return Err(CoordinatorError::PlanNotCanonical);
    }
    if !context_eq(&vote.context, &plan.context) || !id_eq(&vote.plan_hash, &plan.transcript_hash)
        || !id_eq(&vote.begin_certificate_hash, begin_hash) {
        return Err(CoordinatorError::VoteMismatch);
    }
    check_signed_member(vote.signer_id, vote.membership_verified, vote.signature_verified, predecessor)
}

/// The Activate vote names the exact plan, Ready certificate and successor.
pub open spec fn activate_vote_binds(
    vote: SignerRotationActivateVote,
    plan: RotationPlan,
    ready_hash: Id32,
    successor: ConfigCapsuleV3,
) -> bool {
    &&& same_context(vote.context, plan.context)
    &&& vote.plan_hash == plan.transcript_hash
    &&& vote.ready_certificate_hash == ready_hash
    &&& vote.successor_capsule_hash == successor.capsule_hash
}

/// Outcome of checking an Activate vote.
pub open spec fn activate_vote_outcome(
    vote: SignerRotationActivateVote,
    plan: RotationPlan,
    ready_hash: Id32,
    successor: ConfigCapsuleV3,
) -> Result<(), CoordinatorError> {
    if !plan.canonical {
        Err(CoordinatorError::PlanNotCanonical)
    } else if !activate_vote_binds(vote, plan, ready_hash, successor) {
        Err(CoordinatorError::VoteMismatch)
    } else {
        signed_member_outcome(
            vote.signer_id,
            vote.membership_verified,
            vote.signature_verified,
            successor,
        )
    }
}

/// Checks that an Activate vote binds the exact plan, Ready certificate and
/// successor capsule and comes from a proven member of the successor's
/// signer set whose signature verifies.
pub fn validate_signer_activate_vote(
    vote: &SignerRotationActivateVote,
    plan: &RotationPlan,
    ready_hash: &Id32,
    successor: &ConfigCapsuleV3,
) -> (r: Result<(), CoordinatorError>)
    ensures
        r == activate_vote_outcome(*vote, *plan, *ready_hash, *successor),
{
    if !plan.canonical {
        return Err(CoordinatorError::PlanNotCanonical);
    }
    if !context_eq(&vote.context, &plan.context) || !id_eq(&vote.plan_hash, &plan.transcript_hash)
        || !id_eq(&vote.ready_certificate_hash, ready_hash) || !id_eq(
        &vote.successor_capsule_hash,
        &successor.capsule_hash,
    ) {
        return Err(CoordinatorError::VoteMismatch);
    }
    check_signed_member(vote.signer_id, vote.membership_verified, vote.signature_verified, successor)
}

/// Whether two rotation states are the same state.
fn same_rotation_state(a: RotationState, b: RotationState) -> (r: bool)
    ensures
        r == (a == b),
{
    match (a, b) {
        (RotationState::Proposed, RotationState::Proposed) => true,
        (RotationState::DelayPending, RotationState::DelayPending) => true,
        (RotationState::Preparing, RotationState::Preparing) => true,
        (RotationState::Ready, RotationState::Ready) => true,
        (RotationState::Activating, RotationState::Activating) => true,
        (RotationState::Activated, RotationState::Activated) => true,
        (RotationState::Aborted, RotationState::Aborted) => true,
        _ => false,
    }
}

/// The Abort vote names the exact plan, state and reason.
pub open spec fn abort_vote_binds(
    vote: SignerAbortVote,
    plan: RotationPlan,
    state_at_abort: RotationState,
    reason_code: u16,
) -> bool {
    &&& same_context(vote.context, plan.context)
    &&& vote.plan_hash == plan.transcript_hash
    &&& vote.state_at_abort == state_at_abort
    &&& vote.reason_code == reason_code
}

/// Outcome of checking an Abort vote.
pub open spec fn abort_vote_outcome(
    vote: SignerAbortVote,
    plan: RotationPlan,
    predecessor: ConfigCapsuleV3,
    state_at_abort: RotationState,
    reason_code: u16,
) -> Result<(), CoordinatorError> {
    if !plan.canonical {
        Err(CoordinatorError::PlanNotCanonical)
    } else if !abort_vote_binds(vote, plan, state_at_abort, reason_code) {
        Err(CoordinatorError::VoteMismatch)
    } else {
        signed_member_outcome(
            vote.signer_id,
            vote.membership_verified,
            vote.signature_verified,
            predecessor,
        )
    }
}

/// Checks that an Abort vote binds the exact plan, state and reason and
/// comes from a proven member of the predecessor's signer set whose
/// signature verifies.
pub fn validate_signer_abort_vote(
    vote: &SignerAbortVote,
    plan: &RotationPlan,
    predecessor: &ConfigCapsuleV3,
    state_at_abort: RotationState,
    reason_code: u16,
) -> (r: Result<(), CoordinatorError>)
    ensures
        r == abort_vote_outcome(*vote, *plan, *predecessor, state_at_abort, reason_code),
{
    if !plan.canonical {
        return Err(CoordinatorError::PlanNotCanonical);
    }
    if !context_eq(&vote.context, &plan.context) || !id_eq(&vote.plan_hash, &plan.transcript_hash)
        || !same_rotation_state(vote.state_at_abort, state_at_abort) || vote.reason_code
        != reason_code {
        return Err(CoordinatorError::VoteMismatch);
    }
    check_signed_member(vote.signer_id, vote.membership_verified, vote.signature_verified, predecessor)
}

/// The witness acknowledged the exact successor of the exact predecessor
/// under the Activate certificate, in its own pinned name and key.
pub open spec fn activation_ack_binds(
    ack: WitnessActivationAck,
    witness: WitnessPin,
    context: RotationContext,
    plan_hash: Id32,
    activation_hash: Id32,
    predecessor: ConfigCapsuleV3,
    successor: ConfigCapsuleV3,
) -> bool {
    &&& same_context(ack.context, context)
    &&& ack.plan_hash == plan_hash
    &&& ack.activation_certificate_hash == activation_hash
    &&& ack.witness_id == witness.witness_id
    &&& ack.predecessor_epoch == predecessor.config_ref.guardian_epoch
    &&& ack.predecessor_capsule_hash == predecessor.capsule_hash
    &&& ack.successor_epoch == successor.config_ref.guardian_epoch
    &&& ack.successor_capsule_hash == successor.capsule_hash
    &&& ack.witness_public_key == witness.public_key
}

/// Outcome of checking a witness activation acknowledgement.
pub open spec fn activation_ack_outcome(
    ack: WitnessActivationAck,
    witness: WitnessPin,
    context: RotationContext,
    plan_hash: Id32,
    activation_hash: Id32,
    predecessor: ConfigCapsuleV3,
    successor: ConfigCapsuleV3,
) -> Result<(), CoordinatorError> {
    if !activation_ack_binds(ack, witness, context, plan_hash, activation_hash, predecessor, successor) {
        Err(CoordinatorError::AckMismatch)
    } else if !ack.signature_verified {
        Err(CoordinatorError::BadSignature)
    } else {
        Ok(())
    }
}

/// Checks that a pinned witness acknowledged storing the exact successor
/// under the exact Activate certificate, with a verifying signature.
pub fn validate_witness_activation_ack(
    ack: &WitnessActivationAck,
    witness: &WitnessPin,
    context: &RotationContext,
    plan_hash: &Id32,
    activation_hash: &Id32,
    predecessor: &ConfigCapsuleV3,
    successor: &ConfigCapsuleV3,
) -> (r: Result<(), CoordinatorError>)
    ensures
        r == activation_ack_outcome(
            *ack,
            *witness,
            *context,
            *plan_hash,
            *activation_hash,
            *predecessor,
            *successor,
        ),
{
    if !context_eq(&ack.context, context) || !id_eq(&ack.plan_hash, plan_hash) || !id_eq(
        &ack.activation_certificate_hash,
        activation_hash,
    ) || ack.witness_id != witness.witness_id || ack.predecessor_epoch
        != predecessor.config_ref.guardian_epoch || !id_eq(
        &ack.predecessor_capsule_hash,
        &predecessor.capsule_hash,
    ) || ack.successor_epoch != successor.config_ref.guardian_epoch || !id_eq(
        &ack.successor_capsule_hash,
        &successor.capsule_hash,
    ) || !id_eq(&ack.witness_public_key, &witness.public_key) {
        return Err(CoordinatorError::AckMismatch);
    }
    if !ack.signature_verified {
        return Err(CoordinatorError::BadSignature);
    }
    Ok(())
}

/// Outcome of checking a witness's veto of a rotation.
pub open spec fn rotation_cancel_ack_outcome(
    ack: WitnessRotationCancelAck,
    witness: WitnessPin,
    plan: RotationPlan,
    cancel_hash: Id32,
) -> Result<(), CoordinatorError> {
    if ack.protocol_version != PROTOCOL_VERSION_V3 || ack.config_id
        != plan.context.config_ref.config_id || ack.rotation_id != plan.context.rotation_id {
        Err(CoordinatorError::AckMismatch)
    } else if !plan.canonical {
        Err(CoordinatorError::PlanNotCanonical)
    } else if ack.plan_hash != plan.transcript_hash || ack.cancel_certificate_hash != cancel_hash
        || ack.witness_id != witness.witness_id || ack.witness_public_key != witness.public_key {
        Err(CoordinatorError::AckMismatch)
    } else if !ack.signature_verified {
        Err(CoordinatorError::BadSignature)
    } else {
        Ok(())
    }
}

/// Checks that a pinned witness vetoed the exact rotation under the exact
/// owner cancellation, with a verifying signature.
pub fn validate_witness_rotation_cancel_ack(
    ack: &WitnessRotationCancelAck,
    witness: &WitnessPin,
    plan: &RotationPlan,
    cancel_hash: &Id32,
) -> (r: Result<(), CoordinatorError>)
    ensures
        r == rotation_cancel_ack_outcome(*ack, *witness, *plan, *cancel_hash),
{
    if ack.protocol_version != PROTOCOL_VERSION_V3 || !id_eq(
        &ack.config_id,
        &plan.context.config_ref.config_id,
    ) || !id_eq(&ack.rotation_id, &plan.context.rotation_id) {
        return Err(CoordinatorError::AckMismatch);
    }
    if !plan.canonical {
        return Err(CoordinatorError::PlanNotCanonical);
    }
    if !id_eq(&ack.plan_hash, &plan.transcript_hash) || !id_eq(&ack.cancel_certificate_hash, cancel_hash)
        || ack.witness_id != witness.witness_id || !id_eq(&ack.witness_public_key, &witness.public_key) {
        return Err(CoordinatorError::AckMismatch);
    }
    if !ack.signature_verified {
        return Err(CoordinatorError::BadSignature);
    }
    Ok(())
}

/// An old guardian's acknowledgement of the owner's rotation cancellation.
#[derive(Clone, Debug)]
pub struct OwnerRotationCancelAck {
    pub context: RotationContext,
    pub plan_hash: Id32,
    pub cancel_certificate_hash: Id32,
    pub guardian_index: u16,
    /// The signature over the ack's transcript verifies under the public
    /// key of the guardian route at `guardian_index`.
    pub signature_verified: bool,
}

/// Outcome of checking an old guardian's cancellation acknowledgement.
pub open spec fn owner_rotation_cancel_ack_outcome(
    ack: OwnerRotationCancelAck,
    route: GuardianRouteV3,
    plan: RotationPlan,
    cancel_hash: Id32,
) -> Result<(), CoordinatorError> {
    if !same_context(ack.context, plan.context) {
        Err(CoordinatorError::AckMismatch)
    } else if !plan.canonical {
        Err(CoordinatorError::PlanNotCanonical)
    } else if ack.plan_hash != plan.transcript_hash || ack.cancel_certificate_hash != cancel_hash
        || ack.guardian_index != route.guardian_index {
        Err(CoordinatorError::AckMismatch)
    } else if !ack.signature_verified {
        Err(CoordinatorError::BadSignature)
    } else {
        Ok(())
    }
}

/// Checks that the routed old guardian acknowledged the exact owner
/// cancellation of the exact plan, with a verifying signature.
pub fn validate_owner_rotation_cancel_ack(
    ack: &OwnerRotationCancelAck,
    route: &GuardianRouteV3,
    plan: &RotationPlan,
    cancel_hash: &Id32,
) -> (r: Result<(), CoordinatorError>)
    ensures
        r == owner_rotation_cancel_ack_outcome(*ack, *route, *plan, *cancel_hash),
{
    if !context_eq(&ack.context, &plan.context) {
        return Err(CoordinatorError::AckMismatch);
    }
    if !plan.canonical {
        return Err(CoordinatorError::PlanNotCanonical);
    }
    if !id_eq(&ack.plan_hash, &plan.transcript_hash) || !id_eq(&ack.cancel_certificate_hash, cancel_hash)
        || ack.guardian_index != route.guardian_index {
        return Err(CoordinatorError::AckMismatch);
    }
    if !ack.signature_verified {
        return Err(CoordinatorError::BadSignature);
    }
    Ok(())
}

/// Some Begin vote in `votes` is from signer `id`.
pub open spec fn begin_signer_seen(votes: Seq<SignerRotationBeginVote>, id: u16) -> bool {
    exists|i: int| 0 <= i < votes.len() && (#[trigger] votes[i]).signer_id == id
}

/// The Begin votes after one more answer: a valid vote from a signer not
/// yet counted is kept; anything else is dropped.
pub open spec fn begin_votes_after(
    votes: Seq<SignerRotationBeginVote>,
    answer: Option<SignerRotationBeginVote>,
    plan: RotationPlan,
    predecessor: ConfigCapsuleV3,
) -> Seq<SignerRotationBeginVote> {
    match answer {
        Some(vote) => if begin_vote_outcome(vote, plan, predecessor) is Ok && !begin_signer_seen(
            votes,
            vote.signer_id,
        ) {
            votes.push(vote)
        } else {
            votes
        },
        None => votes,
    }
}

/// Every kept Begin vote is valid and no signer is counted twice.
pub open spec fn begin_votes_admissible(
    votes: Seq<SignerRotationBeginVote>,
    plan: RotationPlan,
    predecessor: ConfigCapsuleV3,
) -> bool {
    &&& forall|i: int| 0 <= i < votes.len() ==> begin_vote_outcome(#[trigger] votes[i], plan, predecessor) is Ok
    &&& forall|i: int, j: int|
        0 <= i < j < votes.len() ==> (#[trigger] votes[i]).signer_id != (#[trigger] votes[j]).signer_id
}

/// Whether a Begin vote from `id` is already counted.
fn begin_signer_counted(votes: &Vec<SignerRotationBeginVote>, id: u16) -> (b: bool)
    ensures
        b == begin_signer_seen(votes@, id),
{
    let mut i: usize = 0;
    while i < votes.len()
        invariant
            i <= votes@.len(),
            forall|j: int| 0 <= j < i ==> (#[trigger] votes@[j]).signer_id != id,
        decreases votes.len() - i,
    {
        if votes[i].signer_id == id {
            return true;
        }
        i = i + 1;
    }
    false
}

/// Takes one signer's answer to a Begin request into the count and
/// reports whether the predecessor's signer threshold is reached.
pub fn admit_signer_begin_vote(
    votes: &mut Vec<SignerRotationBeginVote>,
    answer: Option<SignerRotationBeginVote>,
    plan: &RotationPlan,
    predecessor: &ConfigCapsuleV3,
) -> (reached: bool)
    ensures
        final(votes)@ == begin_votes_after(old(votes)@, answer, *plan, *predecessor),
        begin_votes_admissible(old(votes)@, *plan, *predecessor) ==> begin_votes_admissible(
            final(votes)@,
            *plan,
            *predecessor,
        ),
        reached == (final(votes)@.len() >= predecessor.signer_threshold),
{
    if let Some(vote) = answer {
        if validate_signer_begin_vote(&vote, plan, predecessor).is_ok() && !begin_signer_counted(
            votes,
            vote.signer_id,
        ) {
            votes.push(vote);
        }
    }
    votes.len() >= predecessor.signer_threshold as usize
}

/// The entry a Begin vote makes in the Begin certificate.
pub open spec fn begin_certificate_entry(vote: SignerRotationBeginVote) -> SignerRotationVote {
    SignerRotationVote {
        signer_id: vote.signer_id,
        signer_public_key: vote.signer_public_key,
        membership_verified: vote.membership_verified,
        signature_verified: vote.signature_verified,
    }
}

/// The Begin certificate's votes, in the order the signers were counted.
pub fn begin_certificate_votes(votes: &Vec<SignerRotationBeginVote>) -> (r: Vec<SignerRotationVote>)
    ensures
        r@ == votes@.map_values(|v: SignerRotationBeginVote| begin_certificate_entry(v)),
{
    let mut r: Vec<SignerRotationVote> = Vec::new();
    let mut i: usize = 0;
    while i < votes.len()
        invariant
            i <= votes@.len(),
            r@ == votes@.subrange(0, i as int).map_values(
                |v: SignerRotationBeginVote| begin_certificate_entry(v),
            ),
        decreases votes.len() - i,
    {
        let v = &votes[i];
        r.push(
            SignerRotationVote {
                signer_id: v.signer_id,
                signer_public_key: v.signer_public_key,
                membership_verified: v.membership_verified,
                signature_verified: v.signature_verified,
            },
        );
        proof {
            assert(votes@.subrange(0, i + 1) == votes@.subrange(0, i as int).push(votes@[i as int]));
        }
        i = i + 1;
    }
    proof {
        assert(votes@.subrange(0, votes@.len() as int) == votes@);
    }
    r
}

/// Signer votes the coordinator counted for Begin make a Begin certificate
/// that guardians accept: a canonical certificate that binds a valid plan,
/// whose votes are exactly a threshold of counted Begin votes, passes
/// `validate_begin_rotation_certificate_v3`.
pub proof fn lemma_counted_begin_votes_certify(
    certificate: BeginRotationCertificate,
    votes: Seq<SignerRotationBeginVote>,
    plan: RotationPlan,
    predecessor: ConfigCapsuleV3,
    now: u64,
)
    requires
        begin_votes_admissible(votes, plan, predecessor),
        votes.len() >= predecessor.signer_threshold,
        certificate.votes@ == votes.map_values(|v: SignerRotationBeginVote| begin_certificate_entry(v)),
        certificate.canonical,
        plan_outcome(plan, predecessor, now) is Ok,
        begin_binds_plan(certificate, plan, plan.transcript_hash, now),
    ensures
        begin_rotation_outcome(certificate, plan, predecessor, now) == Ok::<Id32, RotationError>(
            certificate.transcript_hash,
        ),
{
    let cv = certificate.votes@;
    assert forall|i: int| 0 <= i < cv.len() implies #[trigger] rotation_vote_ok(predecessor, cv, i) by {
        assert(begin_vote_outcome(votes[i], plan, predecessor) is Ok);
        assert forall|j: int| 0 <= j < i implies (#[trigger] cv[j]).signer_id != cv[i].signer_id by {
            assert(votes[j].signer_id != votes[i].signer_id);
        }
    }
    assert(rotation_votes_outcome(predecessor, cv) == Ok::<(), RotationError>(()));
}

/// Some Release vote in `votes` is from signer `id`.
pub open spec fn release_signer_seen(votes: Seq<SignerRotationReleaseVote>, id: u16) -> bool {
    exists|i: int| 0 <= i < votes.len() && (#[trigger] votes[i]).signer_id == id
}

/// The Release votes after one more answer.
pub open spec fn release_votes_after(
    votes: Seq<SignerRotationReleaseVote>,
    answer: Option<SignerRotationReleaseVote>,
    plan: RotationPlan,
    begin_hash: Id32,
    predecessor: ConfigCapsuleV3,
) -> Seq<SignerRotationReleaseVote> {
    match answer {
        Some(vote) => if release_vote_outcome(vote, plan, begin_hash, predecessor) is Ok
            && !release_signer_seen(votes, vote.signer_id) {
            votes.push(vote)
        } else {
            votes
        },
        None => votes,
    }
}

/// Every kept Release vote is valid and no signer is counted twice.
pub open spec fn release_votes_admissible(
    votes: Seq<SignerRotationReleaseVote>,
    plan: RotationPlan,
    begin_hash: Id32,
    predecessor: ConfigCapsuleV3,
) -> bool {
    &&& forall|i: int|
        0 <= i < votes.len() ==> release_vote_outcome(#[trigger] votes[i], plan, begin_hash, predecessor) is Ok
    &&& forall|i: int, j: int|
        0 <= i < j < votes.len() ==> (#[trigger] votes[i]).signer_id != (#[trigger] votes[j]).signer_id
}

/// Whether a Release vote from `id` is already counted.
fn release_signer_counted(votes: &Vec<SignerRotationReleaseVote>, id: u16) -> (b: bool)
    ensures
        b == release_signer_seen(votes@, id),
{
    let mut i: usize = 0;
    while i < votes.len()
        invariant
            i <= votes@.len(),
            forall|j: int| 0 <= j < i ==> (#[trigger] votes@[j]).signer_id != id,
        decreases votes.len() - i,
    {
        if votes[i].signer_id == id {
            return true;
        }
        i = i + 1;
    }
    false
}

/// Takes one signer's answer to a Release request into the count and
/// reports whether the predecessor's signer threshold is reached.
pub fn admit_signer_release_vote(
    votes: &mut Vec<SignerRotationReleaseVote>,
    answer: Option<SignerRotationReleaseVote>,
    plan: &RotationPlan,
    begin_hash: &Id32,
    predecessor: &ConfigCapsuleV3,
) -> (reached: bool)
    ensures
        final(votes)@ == release_votes_after(old(votes)@, answer, *plan, *begin_hash, *predecessor),
        release_votes_admissible(old(votes)@, *plan, *begin_hash, *predecessor)
            ==> release_votes_admissible(final(votes)@, *plan, *begin_hash, *predecessor),
        reached == (final(votes)@.len() >= predecessor.signer_threshold),
{
    if let Some(vote) = answer {
        if validate_signer_release_vote(&vote, plan, begin_hash, predecessor).is_ok()
            && !release_signer_counted(votes, vote.signer_id) {
            votes.push(vote);
        }
    }
    votes.len() >= predecessor.signer_threshold as usize
}

/// The entry a Release vote makes in the Release certificate.
pub open spec fn release_certificate_entry(vote: SignerRotationReleaseVote) -> SignerRotationVote {
    SignerRotationVote {
        signer_id: vote.signer_id,
        signer_public_key: vote.signer_public_key,
        membership_verified: vote.membership_verified,
        signature_verified: vote.signature_verified,
    }
}

/// The Release certificate's votes, in the order the signers were counted.
pub fn release_certificate_votes(votes: &Vec<SignerRotationReleaseVote>) -> (r: Vec<SignerRotationVote>)
    ensures
        r@ == votes@.map_values(|v: SignerRotationReleaseVote| release_certificate_entry(v)),
{
    let mut r: Vec<SignerRotationVote> = Vec::new();
    let mut i: usize = 0;
    while i < votes.len()
        invariant
            i <= votes@.len(),
            r@ == votes@.subrange(0, i as int).map_values(
                |v: SignerRotationReleaseVote| release_certificate_entry(v),
            ),
        decreases votes.len() - i,
    {
        let v = &votes[i];
        r.push(
            SignerRotationVote {
                signer_id: v.signer_id,
                signer_public_key: v.signer_public_key,
                membership_verified: v.membership_verified,
                signature_verified: v.signature_verified,
            },
        );
        proof {
            assert(votes@.subrange(0, i + 1) == votes@.subrange(0, i as int).push(votes@[i as int]));
        }
        i = i + 1;
    }
    proof {
        assert(votes@.subrange(0, votes@.len() as int) == votes@);
    }
    r
}

/// Signer votes the coordinator counted for Release make a Release
/// certificate that guardians accept once the Begin delay has passed: a
/// canonical certificate naming the plan and the accepted Begin, issued
/// between the Begin's not-before time and the preparation deadline, whose
/// votes are exactly a threshold of counted Release votes, passes
/// `validate_rotation_release_certificate_v3`.
pub proof fn lemma_counted_release_votes_certify(
    release: RotationReleaseCertificate,
    begin: BeginRotationCertificate,
    votes: Seq<SignerRotationReleaseVote>,
    plan: RotationPlan,
    predecessor: ConfigCapsuleV3,
    now: u64,
)
    requires
        begin_rotation_outcome(begin, plan, predecessor, now) == Ok::<Id32, RotationError>(
            begin.transcript_hash,
        ),
        release_votes_admissible(votes, plan, begin.transcript_hash, predecessor),
        votes.len() >= predecessor.signer_threshold,
        release.votes@ == votes.map_values(|v: SignerRotationReleaseVote| release_certificate_entry(v)),
        release.canonical,
        same_context(release.context, plan.context),
        release.plan_hash == plan.transcript_hash,
        release.begin_certificate_hash == begin.transcript_hash,
        begin.not_before_wall <= now,
    ensures
        rotation_release_outcome(release, begin, plan, predecessor, now) == Ok::<Id32, RotationError>(
            release.transcript_hash,
        ),
{
    let cv = release.votes@;
    assert forall|i: int| 0 <= i < cv.len() implies #[trigger] rotation_vote_ok(predecessor, cv, i) by {
        assert(release_vote_outcome(votes[i], plan, begin.transcript_hash, predecessor) is Ok);
        assert forall|j: int| 0 <= j < i implies (#[trigger] cv[j]).signer_id != cv[i].signer_id by {
            assert(votes[j].signer_id != votes[i].signer_id);
        }
    }
    assert(rotation_votes_outcome(predecessor, cv) == Ok::<(), RotationError>(()));
}

/// Some Activate vote in `votes` is from signer `id`.
pub open spec fn activate_signer_seen(votes: Seq<SignerRotationActivateVote>, id: u16) -> bool {
    exists|i: int| 0 <= i < votes.len() && (#[trigger] votes[i]).signer_id == id
}

/// The Activate votes after one more answer.
pub open spec fn activate_votes_after(
    votes: Seq<SignerRotationActivateVote>,
    answer: Option<SignerRotationActivateVote>,
    plan: RotationPlan,
    ready_hash: Id32,
    successor: ConfigCapsuleV3,
) -> Seq<SignerRotationActivateVote> {
    match answer {
        Some(vote) => if activate_vote_outcome(vote, plan, ready_hash, successor) is Ok
            && !activate_signer_seen(votes, vote.signer_id) {
            votes.push(vote)
        } else {
            votes
        },
        None => votes,
    }
}

/// Every kept Activate vote is valid and no signer is counted twice.
pub open spec fn activate_votes_admissible(
    votes: Seq<SignerRotationActivateVote>,
    plan: RotationPlan,
    ready_hash: Id32,
    successor: ConfigCapsuleV3,
) -> bool {
    &&& forall|i: int|
        0 <= i < votes.len() ==> activate_vote_outcome(#[trigger] votes[i], plan, ready_hash, successor) is Ok
    &&& forall|i: int, j: int|
        0 <= i < j < votes.len() ==> (#[trigger] votes[i]).signer_id != (#[trigger] votes[j]).signer_id
}

/// Whether an Activate vote from `id` is already counted.
fn activate_signer_counted(votes: &Vec<SignerRotationActivateVote>, id: u16) -> (b: bool)
    ensures
        b == activate_signer_seen(votes@, id),
{
    let mut i: usize = 0;
    while i < votes.len()
        invariant
            i <= votes@.len(),
            forall|j: int| 0 <= j < i ==> (#[trigger] votes@[j]).signer_id != id,
        decreases votes.len() - i,
    {
        if votes[i].signer_id == id {
            return true;
        }
        i = i + 1;
    }
    false
}

/// Takes one signer's answer to an Activate request into the count and
/// reports whether the successor's signer threshold is reached.
pub fn admit_signer_activate_vote(
    votes: &mut Vec<SignerRotationActivateVote>,
    answer: Option<SignerRotationActivateVote>,
    plan: &RotationPlan,
    ready_hash: &Id32,
    successor: &ConfigCapsuleV3,
) -> (reached: bool)
    ensures
        final(votes)@ == activate_votes_after(old(votes)@, answer, *plan, *ready_hash, *successor),
        activate_votes_admissible(old(votes)@, *plan, *ready_hash, *successor)
            ==> activate_votes_admissible(final(votes)@, *plan, *ready_hash, *successor),
        reached == (final(votes)@.len() >= successor.signer_threshold),
{
    if let Some(vote) = answer {
        if validate_signer_activate_vote(&vote, plan, ready_hash, successor).is_ok()
            && !activate_signer_counted(votes, vote.signer_id) {
            votes.push(vote);
        }
    }
    votes.len() >= successor.signer_threshold as usize
}

/// The entry an Activate vote makes in the Activate certificate.
pub open spec fn activate_certificate_entry(vote: SignerRotationActivateVote) -> SignerActivateVote {
    SignerActivateVote {
        signer_id: vote.signer_id,
        signer_public_key: vote.signer_public_key,
        membership_verified: vote.membership_verified,
        signature_verified: vote.signature_verified,
    }
}

/// The Activate certificate's votes, in the order the signers were counted.
pub fn activate_certificate_votes(votes: &Vec<SignerRotationActivateVote>) -> (r: Vec<SignerActivateVote>)
    ensures
        r@ == votes@.map_values(|v: SignerRotationActivateVote| activate_certificate_entry(v)),
{
    let mut r: Vec<SignerActivateVote> = Vec::new();
    let mut i: usize = 0;
    while i < votes.len()
        invariant
            i <= votes@.len(),
            r@ == votes@.subrange(0, i as int).map_values(
                |v: SignerRotationActivateVote| activate_certificate_entry(v),
            ),
        decreases votes.len() - i,
    {
        let v = &votes[i];
        r.push(
            SignerActivateVote {
                signer_id: v.signer_id,
                signer_public_key: v.signer_public_key,
                membership_verified: v.membership_verified,
                signature_verified: v.signature_verified,
            },
        );
        proof {
            assert(votes@.subrange(0, i + 1) == votes@.subrange(0, i as int).push(votes@[i as int]));
        }
        i = i + 1;
    }
    proof {
        assert(votes@.subrange(0, votes@.len() as int) == votes@);
    }
    r
}

/// Signer votes the coordinator counted for Activate carry the successor
/// capsule past the signer check of `validate_activate_certificate`: an
/// Activate certificate whose votes are exactly a threshold of counted
/// Activate votes has valid votes for that successor.
pub proof fn lemma_counted_activate_votes_certify(
    certificate: RotationActivateCertificate,
    votes: Seq<SignerRotationActivateVote>,
    plan: RotationPlan,
    ready_hash: Id32,
    successor: ConfigCapsuleV3,
)
    requires
        activate_votes_admissible(votes, plan, ready_hash, successor),
        votes.len() >= successor.signer_threshold,
        certificate.votes@ == votes.map_values(
            |v: SignerRotationActivateVote| activate_certificate_entry(v),
        ),
    ensures
        activate_votes_valid(successor, certificate),
{
    let cv = certificate.votes@;
    assert forall|i: int| 0 <= i < cv.len() implies #[trigger] activate_vote_ok(successor, cv, i) by {
        assert(activate_vote_outcome(votes[i], plan, ready_hash, successor) is Ok);
        assert forall|j: int| 0 <= j < i implies (#[trigger] cv[j]).signer_id != cv[i].signer_id by {
            assert(votes[j].signer_id != votes[i].signer_id);
        }
    }
}

/// Some Abort vote in `votes` is from signer `id`.
pub open spec fn abort_signer_seen(votes: Seq<SignerAbortVote>, id: u16) -> bool {
    exists|i: int| 0 <= i < votes.len() && (#[trigger] votes[i]).signer_id == id
}

/// The Abort votes after one more answer.
pub open spec fn abort_votes_after(
    votes: Seq<SignerAbortVote>,
    answer: Option<SignerAbortVote>,
    plan: RotationPlan,
    predecessor: ConfigCapsuleV3,
    state_at_abort: RotationState,
    reason_code: u16,
) -> Seq<SignerAbortVote> {
    match answer {
        Some(vote) => if abort_vote_outcome(vote, plan, predecessor, state_at_abort, reason_code) is Ok
            && !abort_signer_seen(votes, vote.signer_id) {
            votes.push(vote)
        } else {
            votes
        },
        None => votes,
    }
}

/// Every kept Abort vote is valid and no signer is counted twice.
pub open spec fn abort_votes_admissible(
    votes: Seq<SignerAbortVote>,
    plan: RotationPlan,
    predecessor: ConfigCapsuleV3,
    state_at_abort: RotationState,
    reason_code: u16,
) -> bool {
    &&& forall|i: int|
        0 <= i < votes.len() ==> abort_vote_outcome(
            #[trigger] votes[i],
            plan,
            predecessor,
            state_at_abort,
            reason_code,
        ) is Ok
    &&& forall|i: int, j: int|
        0 <= i < j < votes.len() ==> (#[trigger] votes[i]).signer_id != (#[trigger] votes[j]).signer_id
}

/// Whether an Abort vote from `id` is already counted.
fn abort_signer_counted(votes: &Vec<SignerAbortVote>, id: u16) -> (b: bool)
    ensures
        b == abort_signer_seen(votes@, id),
{
    let mut i: usize = 0;
    while i < votes.len()
        invariant
            i <= votes@.len(),
            forall|j: int| 0 <= j < i ==> (#[trigger] votes@[j]).signer_id != id,
        decreases votes.len() - i,
    {
        if votes[i].signer_id == id {
            return true;
        }
        i = i + 1;
    }
    false
}

/// Takes one signer's answer to an Abort request into the count and
/// reports whether the predecessor's signer threshold is reached.
pub fn admit_signer_abort_vote(
    votes: &mut Vec<SignerAbortVote>,
    answer: Option<SignerAbortVote>,
    plan: &RotationPlan,
    predecessor: &ConfigCapsuleV3,
    state_at_abort: RotationState,
    reason_code: u16,
) -> (reached: bool)
    ensures
        final(votes)@ == abort_votes_after(
            old(votes)@,
            answer,
            *plan,
            *predecessor,
            state_at_abort,
            reason_code,
        ),
        abort_votes_admissible(old(votes)@, *plan, *predecessor, state_at_abort, reason_code)
            ==> abort_votes_admissible(final(votes)@, *plan, *predecessor, state_at_abort, reason_code),
        reached == (final(votes)@.len() >= predecessor.signer_threshold),
{
    if let Some(vote) = answer {
        if validate_signer_abort_vote(&vote, plan, predecessor, state_at_abort, reason_code).is_ok()
            && !abort_signer_counted(votes, vote.signer_id) {
            votes.push(vote);
        }
    }
    votes.len() >= predecessor.signer_threshold as usize
}

/// Signer votes the coordinator counted for an Abort make an abort
/// certificate that guardians accept: a canonical certificate for a valid
/// plan, a state before activation and the votes' reason, whose votes are
/// exactly a threshold of counted Abort votes, passes
/// `validate_abort_rotation_certificate_v3`.
pub proof fn lemma_counted_abort_votes_certify(
    certificate: AbortRotationCertificate,
    plan: RotationPlan,
    predecessor: ConfigCapsuleV3,
    now: u64,
)
    requires
        abort_votes_admissible(
            certificate.votes@,
            plan,
            predecessor,
            certificate.state_at_abort,
            certificate.reason_code,
        ),
        certificate.votes@.len() >= predecessor.signer_threshold,
        certificate.canonical,
        plan_outcome(plan, predecessor, now) is Ok,
        same_context(certificate.context, plan.context),
        certificate.plan_hash == plan.transcript_hash,
        before_activation(certificate.state_at_abort),
    ensures
        abort_rotation_outcome(certificate, plan, predecessor, now) == Ok::<Id32, RotationError>(
            certificate.transcript_hash,
        ),
{
    let votes = certificate.votes@;
    assert forall|i: int| 0 <= i < votes.len() implies #[trigger] abort_vote_ok(certificate, predecessor, i) by {
        assert(abort_vote_outcome(
            votes[i],
            plan,
            predecessor,
            certificate.state_at_abort,
            certificate.reason_code,
        ) is Ok);
        assert forall|j: int| 0 <= j < i implies (#[trigger] votes[j]).signer_id != votes[i].signer_id by {
            assert(votes[j].signer_id != votes[i].signer_id);
        }
    }
}

/// The ack is valid for some pin of `card` before position `k`.
pub open spec fn ack_from_pin_before(
    card: RecoveryCardV3,
    ack: WitnessActivationAck,
    k: int,
    context: RotationContext,
    plan_hash: Id32,
    activation_hash: Id32,
    predecessor: ConfigCapsuleV3,
    successor: ConfigCapsuleV3,
) -> bool {
    exists|m: int|
        0 <= m < k && m < card.witnesses@.len() && activation_ack_outcome(
            ack,
            #[trigger] card.witnesses@[m],
            context,
            plan_hash,
            activation_hash,
            predecessor,
            successor,
        ) is Ok
}

/// Every kept ack is valid for one of the first `k` pins and no witness is
/// counted twice.
pub open spec fn activation_acks_admissible(
    card: RecoveryCardV3,
    acks: Seq<WitnessActivationAck>,
    k: int,
    context: RotationContext,
    plan_hash: Id32,
    activation_hash: Id32,
    predecessor: ConfigCapsuleV3,
    successor: ConfigCapsuleV3,
) -> bool {
    &&& forall|i: int|
        0 <= i < acks.len() ==> ack_from_pin_before(
            card,
            #[trigger] acks[i],
            k,
            context,
            plan_hash,
            activation_hash,
            predecessor,
            successor,
        )
    &&& forall|i: int, j: int|
        0 <= i < j < acks.len() ==> (#[trigger] acks[i]).witness_id != (#[trigger] acks[j]).witness_id
}

/// The acks after the answer of pin `k`: a valid ack is kept, anything
/// else is dropped.
pub open spec fn activation_acks_after(
    card: RecoveryCardV3,
    acks: Seq<WitnessActivationAck>,
    k: int,
    answer: Option<WitnessActivationAck>,
    context: RotationContext,
    plan_hash: Id32,
    activation_hash: Id32,
    predecessor: ConfigCapsuleV3,
    successor: ConfigCapsuleV3,
) -> Seq<WitnessActivationAck> {
    match answer {
        Some(ack) => if activation_ack_outcome(
            ack,
            card.witnesses@[k],
            context,
            plan_hash,
            activation_hash,
            predecessor,
            successor,
        ) is Ok {
            acks.push(ack)
        } else {
            acks
        },
        None => acks,
    }
}

/// Takes the answer of the card's `k`-th pinned witness to an activation
/// request into the count and reports whether `2f + 1` acks are held. The
/// caller asks the pins in card order.
pub fn admit_witness_activation_ack(
    acks: &mut Vec<WitnessActivationAck>,
    card: &RecoveryCardV3,
    k: usize,
    answer: Option<WitnessActivationAck>,
    context: &RotationContext,
    plan_hash: &Id32,
    activation_hash: &Id32,
    predecessor: &ConfigCapsuleV3,
    successor: &ConfigCapsuleV3,
) -> (reached: bool)
    requires
        k < card.witnesses@.len(),
    ensures
        final(acks)@ == activation_acks_after(
            *card,
            old(acks)@,
            k as int,
            answer,
            *context,
            *plan_hash,
            *activation_hash,
            *predecessor,
            *successor,
        ),
        card_valid(*card) && activation_acks_admissible(
            *card,
            old(acks)@,
            k as int,
            *context,
            *plan_hash,
            *activation_hash,
            *predecessor,
            *successor,
        ) ==> activation_acks_admissible(
            *card,
            final(acks)@,
            k + 1,
            *context,
            *plan_hash,
            *activation_hash,
            *predecessor,
            *successor,
        ),
        reached == (final(acks)@.len() >= witness_quorum(card.witness_fault_bound as int)),
{
    let ghost before = acks@;
    if let Some(ack) = answer {
        if validate_witness_activation_ack(
            &ack,
            &card.witnesses[k],
            context,
            plan_hash,
            activation_hash,
            predecessor,
            successor,
        ).is_ok() {
            acks.push(ack);
        }
    }
    proof {
        let pins = card.witnesses@;
        if card_valid(*card) && activation_acks_admissible(
            *card,
            before,
            k as int,
            *context,
            *plan_hash,
            *activation_hash,
            *predecessor,
            *successor,
        ) {
            assert forall|i: int| 0 <= i < acks@.len() implies ack_from_pin_before(
                *card,
                #[trigger] acks@[i],
                k + 1,
                *context,
                *plan_hash,
                *activation_hash,
                *predecessor,
                *successor,
            ) by {
                if i < before.len() {
                    assert(acks@[i] == before[i]);
                    assert(ack_from_pin_before(
                        *card,
                        before[i],
                        k as int,
                        *context,
                        *plan_hash,
                        *activation_hash,
                        *predecessor,
                        *successor,
                    ));
                    let m = choose|m: int|
                        0 <= m < k && m < pins.len() && activation_ack_outcome(
                            before[i],
                            #[trigger] pins[m],
                            *context,
                            *plan_hash,
                            *activation_hash,
                            *predecessor,
                            *successor,
                        ) is Ok;
                    assert(0 <= m < k + 1 && m < pins.len());
                } else {
                    assert(activation_ack_outcome(
                        acks@[i],
                        pins[k as int],
                        *context,
                        *plan_hash,
                        *activation_hash,
                        *predecessor,
                        *successor,
                    ) is Ok);
                }
            }
            assert forall|i: int, j: int| 0 <= i < j < acks@.len() implies (#[trigger] acks@[i]).witness_id
                != (#[trigger] acks@[j]).witness_id by {
                if j >= before.len() {
                    assert(ack_from_pin_before(
                        *card,
                        before[i],
                        k as int,
                        *context,
                        *plan_hash,
                        *activation_hash,
                        *predecessor,
                        *successor,
                    ));
                    let m = choose|m: int|
                        0 <= m < k && m < pins.len() && activation_ack_outcome(
                            before[i],
                            #[trigger] pins[m],
                            *context,
                            *plan_hash,
                            *activation_hash,
                            *predecessor,
                            *successor,
                        ) is Ok;
                    assert(pins_distinct(pins[m], pins[k as int]));
                } else {
                    assert(before[i].witness_id != before[j].witness_id);
                }
            }
        }
    }
    acks.len() >= (card.witness_fault_bound as usize) * 2 + 1
}

/// Witness acks the coordinator counted form the activation QC readers
/// accept: under a valid card, acks taken pin by pin in card order whose
/// number reaches `2f + 1` satisfy the QC's ack check for the activation
/// certificate they acknowledge.
pub proof fn lemma_counted_activation_acks_form_qc(
    card: RecoveryCardV3,
    qc: EpochActivationQc,
    k: int,
    context: RotationContext,
    plan_hash: Id32,
    activation_hash: Id32,
    predecessor: ConfigCapsuleV3,
    successor: ConfigCapsuleV3,
)
    requires
        card_valid(card),
        activation_acks_admissible(
            card,
            qc.witness_acks@,
            k,
            context,
            plan_hash,
            activation_hash,
            predecessor,
            successor,
        ),
        qc.witness_acks@.len() >= witness_quorum(card.witness_fault_bound as int),
    ensures
        qc_acks_valid(card, qc, activation_hash),
{
    let acks = qc.witness_acks@;
    let pins = card.witnesses@;
    assert forall|i: int| 0 <= i < acks.len() implies #[trigger] qc_ack_ok(card, acks, activation_hash, i) by {
        assert(ack_from_pin_before(
            card,
            acks[i],
            k,
            context,
            plan_hash,
            activation_hash,
            predecessor,
            successor,
        ));
        let m = choose|m: int|
            0 <= m < k && m < pins.len() && activation_ack_outcome(
                acks[i],
                #[trigger] pins[m],
                context,
                plan_hash,
                activation_hash,
                predecessor,
                successor,
            ) is Ok;
        assert(pins[m].witness_id == acks[i].witness_id);
        assert(is_pinned(card, acks[i].witness_id));
        assert(pin_has_key(card, acks[i].witness_id, acks[i].witness_public_key));
        assert forall|j: int| 0 <= j < i implies (#[trigger] acks[j]).witness_id != acks[i].witness_id by {
            assert(acks[j].witness_id != acks[i].witness_id);
        }
    }
}

/// A signer's contribution to an approved rotation Intent: its sealed
/// authorization share, as the coordinator's cryptographic layer found it.
#[derive(Clone, Debug)]
pub struct SignerRotationIntentContribution {
    pub context: RotationContext,
    pub intent_hash: Id32,
    pub signer_id: u16,
    pub signer_public_key: Id32,
    /// The Merkle proof places this key at position `signer_id - 1` of the
    /// capsule's signer set.
    pub membership_verified: bool,
    /// The signature over the contribution's transcript verifies under
    /// `signer_public_key`.
    pub signature_verified: bool,
}

/// Outcome of checking an Intent contribution.
pub open spec fn intent_contribution_outcome(
    contribution: SignerRotationIntentContribution,
    intent: RotationIntent,
    intent_hash: Id32,
) -> Result<(), CoordinatorError> {
    if !same_context(contribution.context, intent.context) || contribution.intent_hash != intent_hash {
        Err(CoordinatorError::VoteMismatch)
    } else if contribution.signer_id == 0 {
        Err(CoordinatorError::ZeroSigner)
    } else if !contribution.membership_verified {
        Err(CoordinatorError::MembershipNotProven)
    } else if !contribution.signature_verified {
        Err(CoordinatorError::BadSignature)
    } else {
        Ok(())
    }
}

/// Checks that an Intent contribution names the exact Intent and comes
/// from a proven signer whose signature verifies.
pub fn validate_intent_contribution(
    contribution: &SignerRotationIntentContribution,
    intent: &RotationIntent,
    intent_hash: &Id32,
) -> (r: Result<(), CoordinatorError>)
    ensures
        r == intent_contribution_outcome(*contribution, *intent, *intent_hash),
{
    if !context_eq(&contribution.context, &intent.context) || !id_eq(&contribution.intent_hash, intent_hash) {
        return Err(CoordinatorError::VoteMismatch);
    }
    if contribution.signer_id == 0 {
        return Err(CoordinatorError::ZeroSigner);
    }
    if !contribution.membership_verified {
        return Err(CoordinatorError::MembershipNotProven);
    }
    if !contribution.signature_verified {
        return Err(CoordinatorError::BadSignature);
    }
    Ok(())
}

/// Takes one signer's answer to an Intent request. An answer that is an
/// Intent contribution must be valid, or the rotation stops with its
/// error; a valid one is kept. Reports whether the predecessor's signer
/// threshold of contributions is held.
pub fn admit_intent_contribution(
    contributions: &mut Vec<SignerRotationIntentContribution>,
    answer: Option<SignerRotationIntentContribution>,
    intent: &RotationIntent,
    intent_hash: &Id32,
    predecessor: &ConfigCapsuleV3,
) -> (r: Result<bool, CoordinatorError>)
    ensures
        match answer {
            Some(c) => match intent_contribution_outcome(c, *intent, *intent_hash) {
                Err(e) => r == Err::<bool, CoordinatorError>(e) && final(contributions)@ == old(
                    contributions,
                )@,
                Ok(_) => final(contributions)@ == old(contributions)@.push(c),
            },
            None => final(contributions)@ == old(contributions)@,
        },
        r matches Ok(reached) ==> reached == (final(contributions)@.len()
            >= predecessor.signer_threshold),
{
    if let Some(c) = answer {
        validate_intent_contribution(&c, intent, intent_hash)?;
        contributions.push(c);
    }
    Ok(contributions.len() >= predecessor.signer_threshold as usize)
}

/// An old guardian's ciphertext fragment for the successor, as the
/// coordinator's cryptographic layer found it.
#[derive(Clone, Debug)]
pub struct CiphertextFragmentContribution {
    pub context: RotationContext,
    pub plan_hash: Id32,
    pub release_certificate_hash: Id32,
    pub old_guardian_index: u16,
    pub fragment_index: u16,
    pub fragment_commitment: Id32,
    /// SHA-256 of the ciphertext fragment carried.
    pub fragment_digest: Id32,
    /// The committed record leaf the fragment comes from.
    pub leaf_guardian_index: u16,
    pub leaf_fragment_index: u16,
    pub leaf_opaque_slot_id: Id32,
    /// The signature over the contribution's transcript verifies under the
    /// public key of the route it was received from.
    pub signature_verified: bool,
    /// The Merkle path proves the record leaf at its guardian's position in
    /// the descriptor roster under the descriptor's material root.
    pub inclusion_verified: bool,
}

/// Some route of the descriptor names guardian `index`.
pub open spec fn descriptor_names(descriptor: RecoveryDescriptorV3, index: u16) -> bool {
    exists|p: int|
        0 <= p < descriptor.guardians@.len() && (#[trigger] descriptor.guardians@[p]).guardian_index
            == index
}

/// The fragment is the old committed record of the routed guardian, for
/// the exact plan and Release.
pub open spec fn fragment_binds(
    contribution: CiphertextFragmentContribution,
    route: GuardianRouteV3,
    plan: RotationPlan,
    release_hash: Id32,
) -> bool {
    &&& contribution.plan_hash == plan.transcript_hash
    &&& contribution.release_certificate_hash == release_hash
    &&& contribution.old_guardian_index == route.guardian_index
    &&& contribution.fragment_index == contribution.leaf_fragment_index
    &&& contribution.fragment_commitment == contribution.fragment_digest
    &&& contribution.leaf_guardian_index == route.guardian_index
    &&& contribution.leaf_opaque_slot_id == route.opaque_slot_id
}

/// Outcome of checking a ciphertext fragment contribution.
pub open spec fn fragment_outcome(
    contribution: CiphertextFragmentContribution,
    route: GuardianRouteV3,
    descriptor: RecoveryDescriptorV3,
    plan: RotationPlan,
    release_hash: Id32,
) -> Result<(), CoordinatorError> {
    if !same_context(contribution.context, plan.context) {
        Err(CoordinatorError::AckMismatch)
    } else if !plan.canonical {
        Err(CoordinatorError::PlanNotCanonical)
    } else if !fragment_binds(contribution, route, plan, release_hash) {
        Err(CoordinatorError::AckMismatch)
    } else if !contribution.signature_verified {
        Err(CoordinatorError::BadSignature)
    } else if !descriptor_names(descriptor, route.guardian_index) {
        Err(CoordinatorError::OutsideDescriptor)
    } else if !contribution.inclusion_verified {
        Err(CoordinatorError::InclusionNotProven)
    } else {
        Ok(())
    }
}

/// Whether some route of the descriptor names guardian `index`.
fn descriptor_has_guardian(descriptor: &RecoveryDescriptorV3, index: u16) -> (b: bool)
    ensures
        b == descriptor_names(*descriptor, index),
{
    let mut p: usize = 0;
    while p < descriptor.guardians.len()
        invariant
            p <= descriptor.guardians@.len(),
            forall|q: int| 0 <= q < p ==> (#[trigger] descriptor.guardians@[q]).guardian_index != index,
        decreases descriptor.guardians.len() - p,
    {
        if descriptor.guardians[p].guardian_index == index {
            return true;
        }
        p = p + 1;
    }
    false
}

/// Checks that an old guardian's ciphertext fragment is its own committed
/// record for the exact plan and Release, signed by it and included under
/// the descriptor's material root.
pub fn validate_fragment_contribution(
    contribution: &CiphertextFragmentContribution,
    route: &GuardianRouteV3,
    descriptor: &RecoveryDescriptorV3,
    plan: &RotationPlan,
    release_hash: &Id32,
) -> (r: Result<(), CoordinatorError>)
    ensures
        r == fragment_outcome(*contribution, *route, *descriptor, *plan, *release_hash),
{
    if !context_eq(&contribution.context, &plan.context) {
        return Err(CoordinatorError::AckMismatch);
    }
    if !plan.canonical {
        return Err(CoordinatorError::PlanNotCanonical);
    }
    if !id_eq(&contribution.plan_hash, &plan.transcript_hash) || !id_eq(
        &contribution.release_certificate_hash,
        release_hash,
    ) || contribution.old_guardian_index != route.guardian_index || contribution.fragment_index
        != contribution.leaf_fragment_index || !id_eq(
        &contribution.fragment_commitment,
        &contribution.fragment_digest,
    ) || contribution.leaf_guardian_index != route.guardian_index || !id_eq(
        &contribution.leaf_opaque_slot_id,
        &route.opaque_slot_id,
    ) {
        return Err(CoordinatorError::AckMismatch);
    }
    if !contribution.signature_verified {
        return Err(CoordinatorError::BadSignature);
    }
    if !descriptor_has_guardian(descriptor, route.guardian_index) {
        return Err(CoordinatorError::OutsideDescriptor);
    }
    if !contribution.inclusion_verified {
        return Err(CoordinatorError::InclusionNotProven);
    }
    Ok(())
}

/// The veto is valid for some pin of `card` before position `k`.
pub open spec fn veto_from_pin_before(
    card: RecoveryCardV3,
    ack: WitnessRotationCancelAck,
    k: int,
    plan: RotationPlan,
    cancel_hash: Id32,
) -> bool {
    exists|m: int|
        0 <= m < k && m < card.witnesses@.len() && rotation_cancel_ack_outcome(
            ack,
            #[trigger] card.witnesses@[m],
            plan,
            cancel_hash,
        ) is Ok
}

/// Every kept veto is valid for one of the first `k` pins and no witness
/// is counted twice.
pub open spec fn vetoes_admissible(
    card: RecoveryCardV3,
    acks: Seq<WitnessRotationCancelAck>,
    k: int,
    plan: RotationPlan,
    cancel_hash: Id32,
) -> bool {
    &&& forall|i: int| 0 <= i < acks.len() ==> veto_from_pin_before(card, #[trigger] acks[i], k, plan, cancel_hash)
    &&& forall|i: int, j: int|
        0 <= i < j < acks.len() ==> (#[trigger] acks[i]).witness_id != (#[trigger] acks[j]).witness_id
}

/// Some kept veto is from witness `id`.
pub open spec fn veto_seen(acks: Seq<WitnessRotationCancelAck>, id: u16) -> bool {
    exists|i: int| 0 <= i < acks.len() && (#[trigger] acks[i]).witness_id == id
}

/// The vetoes after the answer of pin `k`: a valid veto from a witness not
/// yet counted is kept, anything else is dropped.
pub open spec fn vetoes_after(
    card: RecoveryCardV3,
    acks: Seq<WitnessRotationCancelAck>,
    k: int,
    answer: Option<WitnessRotationCancelAck>,
    plan: RotationPlan,
    cancel_hash: Id32,
) -> Seq<WitnessRotationCancelAck> {
    match answer {
        Some(ack) => if rotation_cancel_ack_outcome(ack, card.witnesses@[k], plan, cancel_hash) is Ok
            && !veto_seen(acks, ack.witness_id) {
            acks.push(ack)
        } else {
            acks
        },
        None => acks,
    }
}

/// Whether a veto from witness `id` is already counted.
fn veto_counted(acks: &Vec<WitnessRotationCancelAck>, id: u16) -> (b: bool)
    ensures
        b == veto_seen(acks@, id),
{
    let mut i: usize = 0;
    while i < acks.len()
        invariant
            i <= acks@.len(),
            forall|j: int| 0 <= j < i ==> (#[trigger] acks@[j]).witness_id != id,
        decreases acks.len() - i,
    {
        if acks[i].witness_id == id {
            return true;
        }
        i = i + 1;
    }
    false
}

/// Takes the answer of the card's `k`-th pinned witness to the owner's
/// rotation cancellation into the count and reports whether `2f + 1`
/// distinct vetoes are held. The caller asks the pins in card order.
pub fn admit_witness_veto(
    acks: &mut Vec<WitnessRotationCancelAck>,
    card: &RecoveryCardV3,
    k: usize,
    answer: Option<WitnessRotationCancelAck>,
    plan: &RotationPlan,
    cancel_hash: &Id32,
) -> (reached: bool)
    requires
        k < card.witnesses@.len(),
    ensures
        final(acks)@ == vetoes_after(*card, old(acks)@, k as int, answer, *plan, *cancel_hash),
        vetoes_admissible(*card, old(acks)@, k as int, *plan, *cancel_hash) ==> vetoes_admissible(
            *card,
            final(acks)@,
            k + 1,
            *plan,
            *cancel_hash,
        ),
        reached == (final(acks)@.len() >= witness_quorum(card.witness_fault_bound as int)),
{
    let ghost before = acks@;
    if let Some(ack) = answer {
        if validate_witness_rotation_cancel_ack(&ack, &card.witnesses[k], plan, cancel_hash).is_ok()
            && !veto_counted(acks, ack.witness_id) {
            acks.push(ack);
        }
    }
    proof {
        let pins = card.witnesses@;
        if vetoes_admissible(*card, before, k as int, *plan, *cancel_hash) {
            assert forall|i: int| 0 <= i < acks@.len() implies veto_from_pin_before(
                *card,
                #[trigger] acks@[i],
                k + 1,
                *plan,
                *cancel_hash,
            ) by {
                if i < before.len() {
                    assert(acks@[i] == before[i]);
                    assert(veto_from_pin_before(*card, before[i], k as int, *plan, *cancel_hash));
                    let m = choose|m: int|
                        0 <= m < k && m < pins.len() && rotation_cancel_ack_outcome(
                            before[i],
                            #[trigger] pins[m],
                            *plan,
                            *cancel_hash,
                        ) is Ok;
                    assert(0 <= m < k + 1 && m < pins.len());
                } else {
                    assert(rotation_cancel_ack_outcome(acks@[i], pins[k as int], *plan, *cancel_hash) is Ok);
                }
            }
        }
    }
    acks.len() >= (card.witness_fault_bound as usize) * 2 + 1
}

/// Witness vetoes the coordinator counted carry the owner's cancellation
/// past `validate_owner_rotation_cancel_witness_quorum_v3`: with a valid
/// card, a valid plan and a signed cancellation that binds it, vetoes taken
/// pin by pin in card order whose number reaches `2f + 1` are accepted.
pub proof fn lemma_counted_vetoes_form_cancel_quorum(
    certificate: OwnerRotationCancelCertificate,
    acks: Seq<WitnessRotationCancelAck>,
    card: RecoveryCardV3,
    plan: RotationPlan,
    predecessor: ConfigCapsuleV3,
    now: u64,
    k: int,
)
    requires
        card_valid(card),
        plan_outcome(plan, predecessor, now) is Ok,
        cancellation_binds_plan(certificate, card, plan, plan.transcript_hash, predecessor),
        certificate.signature_verified,
        vetoes_admissible(card, acks, k, plan, certificate.transcript_hash),
        acks.len() >= witness_quorum(card.witness_fault_bound as int),
    ensures
        owner_cancel_quorum_outcome(certificate, acks, card, plan, predecessor, now) == Ok::<Id32, RotationError>(
            certificate.transcript_hash,
        ),
{
    let pins = card.witnesses@;
    assert forall|i: int| 0 <= i < acks.len() implies #[trigger] veto_ok(
        card,
        plan,
        plan.transcript_hash,
        certificate.transcript_hash,
        acks,
        i,
    ) by {
        assert(veto_from_pin_before(card, acks[i], k, plan, certificate.transcript_hash));
        let m = choose|m: int|
            0 <= m < k && m < pins.len() && rotation_cancel_ack_outcome(
                acks[i],
                #[trigger] pins[m],
                plan,
                certificate.transcript_hash,
            ) is Ok;
        assert(pins[m].witness_id == acks[i].witness_id);
        assert(is_pinned(card, acks[i].witness_id));
        assert(pin_has_key(card, acks[i].witness_id, acks[i].witness_public_key));
        assert forall|j: int| 0 <= j < i implies (#[trigger] acks[j]).witness_id != acks[i].witness_id by {
            assert(acks[j].witness_id != acks[i].witness_id);
        }
    }
}

/// Number of old guardians whose cancellation acknowledgement leaves
/// fewer than the old handoff threshold able to hand off:
/// `old roster - old threshold + 1`, where that is defined.
pub fn required_old_cancel_acks(plan: &RotationPlan) -> (r: Option<usize>)
    ensures
        r == if plan.old_roster@.len() >= plan.old_guardian_threshold && plan.old_roster@.len()
            - plan.old_guardian_threshold + 1 <= usize::MAX {
            Some((plan.old_roster@.len() - plan.old_guardian_threshold + 1) as usize)
        } else {
            None::<usize>
        },
{
    match plan.old_roster.len().checked_sub(plan.old_guardian_threshold as usize) {
        Some(rest) => rest.checked_add(1),
        None => None,
    }
}

/// The guardian indices of a roster.
pub open spec fn roster_ids(roster: Seq<GuardianRouteV3>) -> Set<u16> {
    roster.map_values(|r: GuardianRouteV3| r.guardian_index).to_set()
}

/// The acknowledged old guardians after the answer of old route `k`: a
/// valid acknowledgement from a guardian not yet counted is counted.
pub open spec fn old_acks_after(
    acked: Seq<u16>,
    plan: RotationPlan,
    k: int,
    answer: Option<OwnerRotationCancelAck>,
    cancel_hash: Id32,
) -> Seq<u16> {
    match answer {
        Some(ack) => if owner_rotation_cancel_ack_outcome(ack, plan.old_roster@[k], plan, cancel_hash) is Ok
            && !acked.contains(ack.guardian_index) {
            acked.push(ack.guardian_index)
        } else {
            acked
        },
        None => acked,
    }
}

/// Takes old route `k`'s answer to the owner's rotation cancellation into
/// the set of acknowledging old guardians.
pub fn admit_old_guardian_cancel_ack(
    acked: &mut Vec<u16>,
    plan: &RotationPlan,
    k: usize,
    answer: Option<OwnerRotationCancelAck>,
    cancel_hash: &Id32,
)
    requires
        k < plan.old_roster@.len(),
    ensures
        final(acked)@ == old_acks_after(old(acked)@, *plan, k as int, answer, *cancel_hash),
        old(acked)@.no_duplicates() ==> final(acked)@.no_duplicates(),
        old(acked)@.to_set().subset_of(roster_ids(plan.old_roster@)) ==> final(acked)@.to_set().subset_of(
            roster_ids(plan.old_roster@),
        ),
{
    let ghost before = acked@;
    if let Some(ack) = answer {
        if validate_owner_rotation_cancel_ack(&ack, &plan.old_roster[k], plan, cancel_hash).is_ok() {
            let mut seen = false;
            let mut i: usize = 0;
            while i < acked.len()
                invariant
                    i <= acked@.len(),
                    acked@ == before,
                    seen == (exists|j: int| 0 <= j < i && acked@[j] == ack.guardian_index),
                decreases acked.len() - i,
            {
                if acked[i] == ack.guardian_index {
                    seen = true;
                }
                i = i + 1;
            }
            if !seen {
                acked.push(ack.guardian_index);
            }
        }
    }
    proof {
        let ids = roster_ids(plan.old_roster@);
        if before.to_set().subset_of(ids) {
            assert forall|x: u16| acked@.to_set().contains(x) implies ids.contains(x) by {
                let j = choose|j: int| 0 <= j < acked@.len() && acked@[j] == x;
                if j < before.len() {
                    assert(before[j] == x);
                    assert(before.to_set().contains(x));
                } else {
                    let route_ids = plan.old_roster@.map_values(|r: GuardianRouteV3| r.guardian_index);
                    assert(route_ids[k as int] == x);
                }
            }
        }
    }
}

/// Old guardians the owner's cancellation reached leave the old roster
/// unable to hand off: once distinct acknowledging old guardians number at
/// least `old roster - old threshold + 1`, fewer than the old threshold of
/// guardians have not cancelled.
pub proof fn lemma_old_cancel_acks_break_handoff(plan: RotationPlan, acked: Seq<u16>)
    requires
        crate::descriptor::guardian_indices_distinct(plan.old_roster@),
        acked.no_duplicates(),
        acked.to_set().subset_of(roster_ids(plan.old_roster@)),
        acked.len() + plan.old_guardian_threshold >= plan.old_roster@.len() + 1,
    ensures
        roster_ids(plan.old_roster@).difference(acked.to_set()).len() < plan.old_guardian_threshold,
{
    let route_ids = plan.old_roster@.map_values(|r: GuardianRouteV3| r.guardian_index);
    assert(route_ids.no_duplicates()) by {
        assert forall|i: int, j: int| 0 <= i < route_ids.len() && 0 <= j < route_ids.len() && i != j
            implies route_ids[i] != route_ids[j] by {
            if i < j {
                assert(plan.old_roster@[i].guardian_index != plan.old_roster@[j].guardian_index);
            } else {
                assert(plan.old_roster@[j].guardian_index != plan.old_roster@[i].guardian_index);
            }
        }
    }
    route_ids.unique_seq_to_set();
    acked.unique_seq_to_set();
    let ids = route_ids.to_set();
    let a = acked.to_set();
    let rest = ids.difference(a);
    assert(ids =~= rest + a);
    assert(rest.disjoint(a));
    route_ids.lemma_cardinality_of_set();
    vstd::set_lib::lemma_set_subset_finite(ids, rest);
    acked.lemma_cardinality_of_set();
    vstd::set_lib::lemma_set_disjoint_lens(rest, a);
}

/// Whether some route of `roster` names guardian `x`.
fn roster_has(roster: &Vec<GuardianRouteV3>, x: u16) -> (b: bool)
    ensures
        b == in_roster(roster@, x),
{
    let mut i: usize = 0;
    while i < roster.len()
        invariant
            i <= roster@.len(),
            forall|j: int| 0 <= j < i ==> (#[trigger] roster@[j]).guardian_index != x,
        decreases roster.len() - i,
    {
        if roster[i].guardian_index == x {
            return true;
        }
        i = i + 1;
    }
    false
}

/// Positions, in order, of the successor routes for guardians outside the
/// old roster: the fresh guardians an owner cancellation must also reach.
pub fn fresh_successor_positions(plan: &RotationPlan) -> (r: Vec<usize>)
    ensures
        forall|i: int|
            0 <= i < r@.len() ==> r@[i] < plan.new_roster@.len() && !in_roster(
                plan.old_roster@,
                plan.new_roster@[r@[i] as int].guardian_index,
            ),
        forall|i: int, j: int| 0 <= i < j < r@.len() ==> r@[i] < r@[j],
        forall|p: int|
            0 <= p < plan.new_roster@.len() && !in_roster(
                plan.old_roster@,
                (#[trigger] plan.new_roster@[p]).guardian_index,
            ) ==> r@.contains(p as usize),
{
    let mut r: Vec<usize> = Vec::new();
    let mut p: usize = 0;
    while p < plan.new_roster.len()
        invariant
            p <= plan.new_roster@.len(),
            forall|i: int|
                0 <= i < r@.len() ==> r@[i] < p && !in_roster(
                    plan.old_roster@,
                    plan.new_roster@[r@[i] as int].guardian_index,
                ),
            forall|i: int, j: int| 0 <= i < j < r@.len() ==> r@[i] < r@[j],
            forall|q: int|
                0 <= q < p && !in_roster(plan.old_roster@, (#[trigger] plan.new_roster@[q]).guardian_index)
                    ==> r@.contains(q as usize),
        decreases plan.new_roster.len() - p,
    {
        if !roster_has(&plan.old_roster, plan.new_roster[p].guardian_index) {
            let ghost before = r@;
            r.push(p);
            proof {
                assert forall|q: int|
                    0 <= q < p + 1 && !in_roster(plan.old_roster@, (#[trigger] plan.new_roster@[q]).guardian_index)
                        implies r@.contains(q as usize) by {
                    if q < p {
                        assert(before.contains(q as usize));
                        let k = choose|k: int| 0 <= k < before.len() && before[k] == q as usize;
                        assert(r@[k] == q as usize);
                    } else {
                        assert(r@[before.len() as int] == p);
                    }
                }
            }
        }
        p = p + 1;
    }
    r
}

/// Some route of the old or new roster has mailbox `m`.
pub open spec fn rotation_mailbox(plan: RotationPlan, m: Seq<char>) -> bool {
    ||| exists|i: int| 0 <= i < plan.old_roster@.len() && (#[trigger] plan.old_roster@[i]).mailbox@ == m
    ||| exists|i: int| 0 <= i < plan.new_roster@.len() && (#[trigger] plan.new_roster@[i]).mailbox@ == m
}

/// Some string of `v` has the characters `m`.
pub open spec fn holds_mailbox(v: Seq<String>, m: Seq<char>) -> bool {
    exists|j: int| 0 <= j < v.len() && (#[trigger] v[j])@ == m
}

/// `out` with each mailbox of `roster` not yet in it added.
fn add_mailboxes(out: Vec<String>, roster: &Vec<GuardianRouteV3>, plan: &RotationPlan, old_side: bool) -> (r: Vec<String>)
    requires
        forall|i: int, j: int| 0 <= i < j < out@.len() ==> out@[i]@ != out@[j]@,
        forall|i: int| 0 <= i < out@.len() ==> rotation_mailbox(*plan, #[trigger] out@[i]@),
        old_side ==> roster@ == plan.old_roster@,
        !old_side ==> roster@ == plan.new_roster@,
    ensures
        forall|i: int, j: int| 0 <= i < j < r@.len() ==> r@[i]@ != r@[j]@,
        forall|i: int| 0 <= i < r@.len() ==> rotation_mailbox(*plan, #[trigger] r@[i]@),
        forall|m: Seq<char>| holds_mailbox(out@, m) ==> #[trigger] holds_mailbox(r@, m),
        forall|k: int| 0 <= k < roster@.len() ==> holds_mailbox(r@, (#[trigger] roster@[k]).mailbox@),
{
    let ghost start = out@;
    let mut out = out;
    let mut k: usize = 0;
    while k < roster.len()
        invariant
            k <= roster@.len(),
            old_side ==> roster@ == plan.old_roster@,
            !old_side ==> roster@ == plan.new_roster@,
            out@.len() >= start.len(),
            forall|i: int| 0 <= i < start.len() ==> out@[i] == start[i],
            forall|i: int, j: int| 0 <= i < j < out@.len() ==> out@[i]@ != out@[j]@,
            forall|i: int| 0 <= i < out@.len() ==> rotation_mailbox(*plan, #[trigger] out@[i]@),
            forall|q: int| 0 <= q < k ==> holds_mailbox(out@, (#[trigger] roster@[q]).mailbox@),
        decreases roster.len() - k,
    {
        let mailbox = &roster[k].mailbox;
        let mut present = false;
        let mut i: usize = 0;
        while i < out.len()
            invariant
                i <= out@.len(),
                present ==> holds_mailbox(out@, mailbox@),
                !present ==> forall|j: int| 0 <= j < i ==> out@[j]@ != mailbox@,
            decreases out.len() - i,
        {
            if out[i] == *mailbox {
                present = true;
            }
            i = i + 1;
        }
        if !present {
            let ghost before = out@;
            let copy = mailbox.clone();
            out.push(copy);
            proof {
                assert(rotation_mailbox(*plan, roster@[k as int].mailbox@)) by {
                    if old_side {
                        assert(plan.old_roster@[k as int].mailbox@ == mailbox@);
                    } else {
                        assert(plan.new_roster@[k as int].mailbox@ == mailbox@);
                    }
                }
                assert forall|q: int| 0 <= q < k + 1 implies holds_mailbox(out@, (#[trigger] roster@[q]).mailbox@) by {
                    if q < k {
                        let j = choose|j: int| 0 <= j < before.len() && (#[trigger] before[j])@ == roster@[q].mailbox@;
                        assert(out@[j] == before[j]);
                    } else {
                        assert(out@[before.len() as int]@ == roster@[q].mailbox@);
                    }
                }
            }
        }
        k = k + 1;
    }
    proof {
        assert forall|m: Seq<char>| holds_mailbox(start, m) implies #[trigger] holds_mailbox(out@, m) by {
            let j = choose|j: int| 0 <= j < start.len() && (#[trigger] start[j])@ == m;
            assert(out@[j] == start[j]);
        }
    }
    out
}

/// Every guardian mailbox of the rotation, old and new, once each: where a
/// signer-threshold abort is delivered.
pub fn rotation_guardian_mailboxes(plan: &RotationPlan) -> (r: Vec<String>)
    ensures
        forall|i: int, j: int| 0 <= i < j < r@.len() ==> r@[i]@ != r@[j]@,
        forall|i: int| 0 <= i < r@.len() ==> rotation_mailbox(*plan, #[trigger] r@[i]@),
        forall|m: Seq<char>| #[trigger] rotation_mailbox(*plan, m) ==> holds_mailbox(r@, m),
{
    let middle = add_mailboxes(Vec::new(), &plan.old_roster, plan, true);
    let out = add_mailboxes(middle, &plan.new_roster, plan, false);
    proof {
        assert forall|m: Seq<char>| #[trigger] rotation_mailbox(*plan, m) implies holds_mailbox(out@, m) by {
            if exists|i: int| 0 <= i < plan.old_roster@.len() && (#[trigger] plan.old_roster@[i]).mailbox@ == m {
                let i = choose|i: int| 0 <= i < plan.old_roster@.len() && (#[trigger] plan.old_roster@[i]).mailbox@ == m;
                assert(holds_mailbox(middle@, plan.old_roster@[i].mailbox@));
            } else {
                let i = choose|i: int| 0 <= i < plan.new_roster@.len() && (#[trigger] plan.new_roster@[i]).mailbox@ == m;
                assert(holds_mailbox(out@, plan.new_roster@[i].mailbox@));
            }
        }
    }
    out
}

/// The mailboxes of the successor roster, in roster order: the guardians
/// whose availability the rotation depends on.
pub fn rotation_actor_mailboxes(successors: &Vec<GuardianRouteV3>) -> (r: Vec<String>)
    ensures
        r@.len() == successors@.len(),
        forall|i: int| 0 <= i < r@.len() ==> (#[trigger] r@[i])@ == successors@[i].mailbox@,
{
    let mut out: Vec<String> = Vec::new();
    let mut i: usize = 0;
    while i < successors.len()
        invariant
            i <= successors@.len(),
            out@.len() == i,
            forall|j: int| 0 <= j < i ==> (#[trigger] out@[j])@ == successors@[j].mailbox@,
        decreases successors.len() - i,
    {
        out.push(successors[i].mailbox.clone());
        i = i + 1;
    }
    out
}

/// One sealed DPSS round message and the mailbox it is for.
#[derive(Clone, Debug)]
pub struct DpssDeliveryV3 {
    pub target_mailbox: String,
    /// The sealed message, in its wire encoding.
    pub sealed_message: Vec<u8>,
}

/// The guardian a mailbox belongs to: the first route of `routes` with
/// that mailbox.
pub open spec fn recipient_of(routes: Seq<GuardianRouteV3>, mailbox: Seq<char>) -> Option<u16>
    decreases routes.len(),
{
    if routes.len() == 0 {
        None
    } else if routes[0].mailbox@ == mailbox {
        Some(routes[0].guardian_index)
    } else {
        recipient_of(routes.drop_first(), mailbox)
    }
}

/// The messages of `deliveries` for guardian `k`, in delivery order.
pub open spec fn messages_for(deliveries: Seq<DpssDeliveryV3>, routes: Seq<GuardianRouteV3>, k: u16) -> Seq<
    Vec<u8>,
>
    decreases deliveries.len(),
{
    if deliveries.len() == 0 {
        Seq::empty()
    } else {
        let before = messages_for(deliveries.drop_last(), routes, k);
        if recipient_of(routes, deliveries.last().target_mailbox@) == Some(k) {
            before.push(deliveries.last().sealed_message)
        } else {
            before
        }
    }
}

/// The messages held for guardian `k`.
pub open spec fn held(m: Map<u16, Vec<Vec<u8>>>, k: u16) -> Seq<Vec<u8>> {
    if m.contains_key(k) {
        m[k]@
    } else {
        Seq::empty()
    }
}

/// `after` is `before` with the messages of `deliveries` appended to their
/// guardians' queues.
pub open spec fn distributed(
    before: Map<u16, Vec<Vec<u8>>>,
    after: Map<u16, Vec<Vec<u8>>>,
    deliveries: Seq<DpssDeliveryV3>,
    routes: Seq<GuardianRouteV3>,
) -> bool {
    forall|k: u16|
        (#[trigger] after.contains_key(k) <==> before.contains_key(k) || messages_for(deliveries, routes, k).len()
            > 0) && held(after, k) == held(before, k) + messages_for(deliveries, routes, k)
}

/// Whether every delivery targets a mailbox of the roster.
pub open spec fn all_deliverable(deliveries: Seq<DpssDeliveryV3>, routes: Seq<GuardianRouteV3>) -> bool {
    forall|i: int| 0 <= i < deliveries.len() ==> recipient_of(routes, (#[trigger] deliveries[i]).target_mailbox@) is Some
}

/// Finds the guardian a mailbox belongs to.
fn find_recipient(routes: &Vec<GuardianRouteV3>, mailbox: &String) -> (r: Option<u16>)
    ensures
        r == recipient_of(routes@, mailbox@),
{
    let mut i: usize = 0;
    proof {
        assert(routes@.subrange(0, routes@.len() as int) =~= routes@);
    }
    while i < routes.len()
        invariant
            i <= routes@.len(),
            recipient_of(routes@, mailbox@) == recipient_of(routes@.subrange(i as int, routes@.len() as int), mailbox@),
        decreases routes.len() - i,
    {
        let ghost rest = routes@.subrange(i as int, routes@.len() as int);
        assert(rest.drop_first() =~= routes@.subrange(i + 1, routes@.len() as int));
        if routes[i].mailbox == *mailbox {
            return Some(routes[i].guardian_index);
        }
        i = i + 1;
    }
    None
}

/// Queues each delivery for the guardian whose mailbox it targets, in
/// order. On success every delivery was queued; a delivery outside the
/// roster stops the distribution there, with the deliveries before it
/// queued.
pub fn distribute(
    by_recipient: &mut BTreeMap<u16, Vec<Vec<u8>>>,
    deliveries: Vec<DpssDeliveryV3>,
    routes: &Vec<GuardianRouteV3>,
) -> (r: Result<(), CoordinatorError>)
    ensures
        r is Ok <==> all_deliverable(deliveries@, routes@),
        r is Ok ==> distributed(old(by_recipient)@, final(by_recipient)@, deliveries@, routes@),
        r matches Err(e) ==> e == CoordinatorError::DeliveryOutsideRoster && exists|n: int|
            0 <= n < deliveries@.len() && recipient_of(routes@, (#[trigger] deliveries@[n]).target_mailbox@)
                is None && all_deliverable(deliveries@.take(n), routes@) && distributed(
                old(by_recipient)@,
                final(by_recipient)@,
                deliveries@.take(n),
                routes@,
            ),
{
    broadcast use vstd::std_specs::btree::group_btree_axioms;

    let ghost all = deliveries@;
    let ghost start = by_recipient@;
    assert(all.len() == deliveries.len());
    let mut pending = deliveries;
    let mut i: usize = 0;
    proof {
        assert(all.take(0) =~= Seq::<DpssDeliveryV3>::empty());
    }
    while pending.len() > 0
        invariant
            i <= all.len(),
            all == deliveries@,
            all.len() <= usize::MAX,
            start == old(by_recipient)@,
            pending@ == all.subrange(i as int, all.len() as int),
            all_deliverable(all.take(i as int), routes@),
            distributed(start, by_recipient@, all.take(i as int), routes@),
        decreases pending.len(),
    {
        assert(pending@.len() == all.len() - i);
        let delivery = pending.remove(0);
        proof {
            assert(delivery == all[i as int]);
            assert(all.take(i + 1).drop_last() =~= all.take(i as int));
            assert(all.take(i + 1).last() == delivery);
        }
        let k = match find_recipient(routes, &delivery.target_mailbox) {
            Some(k) => k,
            None => {
                proof {
                    assert(all_deliverable(all.take(i as int), routes@));
                    assert(recipient_of(routes@, all[i as int].target_mailbox@) is None);
                    assert(!all_deliverable(all, routes@));
                }
                return Err(CoordinatorError::DeliveryOutsideRoster);
            },
        };
        let ghost before = by_recipient@;
        let mut queue = match by_recipient.remove(&k) {
            Some(queue) => queue,
            None => Vec::new(),
        };
        proof {
            assert(queue@ == held(before, k));
        }
        queue.push(delivery.sealed_message);
        by_recipient.insert(k, queue);
        proof {
            let now = by_recipient@;
            let taken = all.take(i + 1);
            assert forall|x: u16| #[trigger] now.contains_key(x) <==> start.contains_key(x) || messages_for(
                taken,
                routes@,
                x,
            ).len() > 0 by {
                assert(before.contains_key(x) <==> start.contains_key(x) || messages_for(all.take(i as int), routes@, x).len() > 0);
            }
            assert forall|x: u16| #[trigger] now.contains_key(x) implies held(now, x) == held(start, x) + messages_for(
                taken,
                routes@,
                x,
            ) by {
                assert(before.contains_key(x) ==> held(before, x) == held(start, x) + messages_for(all.take(i as int), routes@, x));
                if x == k {
                    assert(held(now, x) =~= held(before, x).push(delivery.sealed_message));
                    assert(held(start, x) + messages_for(taken, routes@, x) =~= (held(start, x) + messages_for(
                        all.take(i as int),
                        routes@,
                        x,
                    )).push(delivery.sealed_message));
                } else {
                    assert(held(now, x) == held(before, x));
                }
            }
            assert(distributed(start, now, taken, routes@)) by {
                assert forall|x: u16| !#[trigger] now.contains_key(x) implies held(now, x) == held(start, x) + messages_for(
                    taken,
                    routes@,
                    x,
                ) by {
                    assert(before.contains_key(x) ==> held(before, x) == held(start, x) + messages_for(all.take(i as int), routes@, x));
                    assert(!start.contains_key(x));
                    assert(messages_for(taken, routes@, x).len() == 0);
                    assert(held(start, x) + messages_for(taken, routes@, x) =~= Seq::<Vec<u8>>::empty());
                }
            }
            assert(all_deliverable(taken, routes@)) by {
                assert forall|j: int| 0 <= j < taken.len() implies recipient_of(routes@, (#[trigger] taken[j]).target_mailbox@) is Some by {
                    if j < i {
                        assert(taken[j] == all.take(i as int)[j]);
                    }
                }
            }
            assert(pending@ =~= all.subrange(i + 1, all.len() as int));
        }
        i = i + 1;
    }
    proof {
        assert(all.take(all.len() as int) =~= all);
    }
    Ok(())
}

/// The outcome of the share refresh as one successor reports it.
#[derive(Clone, Debug)]
pub struct RefreshResult {
    /// The encoding of the refreshed public package.
    pub public_package: Vec<u8>,
    pub dpss_result_commitment: Id32,
}

/// Two reports of the same refresh result.
pub open spec fn same_refresh(a: RefreshResult, b: RefreshResult) -> bool {
    a.public_package@ == b.public_package@ && a.dpss_result_commitment == b.dpss_result_commitment
}

/// Compares two refresh results.
fn refresh_eq(a: &RefreshResult, b: &RefreshResult) -> (r: bool)
    ensures
        r == same_refresh(*a, *b),
{
    bytes_eq(a.public_package.as_slice(), b.public_package.as_slice()) && id_eq(
        &a.dpss_result_commitment,
        &b.dpss_result_commitment,
    )
}

/// Takes the next successor's refresh result: the first one sets the
/// result every later one must repeat.
pub fn admit_refresh_result(agreed: &mut Option<RefreshResult>, candidate: RefreshResult) -> (r: Result<
    (),
    CoordinatorError,
>)
    ensures
        match *old(agreed) {
            None => r is Ok && *final(agreed) == Some(candidate),
            Some(a) => *final(agreed) == *old(agreed) && if same_refresh(a, candidate) {
                r is Ok
            } else {
                r == Err::<(), CoordinatorError>(CoordinatorError::RefreshDisagreement)
            },
        },
{
    match agreed {
        Some(a) => {
            if !refresh_eq(a, &candidate) {
                return Err(CoordinatorError::RefreshDisagreement);
            }
            Ok(())
        },
        None => {
            *agreed = Some(candidate);
            Ok(())
        },
    }
}

/// The agreed refresh result once every successor reported.
pub fn require_refresh_result(agreed: Option<RefreshResult>) -> (r: Result<RefreshResult, CoordinatorError>)
    ensures
        match agreed {
            Some(a) => r == Ok::<RefreshResult, CoordinatorError>(a),
            None => r == Err::<RefreshResult, CoordinatorError>(CoordinatorError::NoRefreshResult),
        },
{
    match agreed {
        Some(a) => Ok(a),
        None => Err(CoordinatorError::NoRefreshResult),
    }
}

/// Checks that a guardian staged its successor material for the agreed
/// refresh result.
pub fn check_staged_refresh(agreed: &RefreshResult, staged: &RefreshResult) -> (r: Result<(), CoordinatorError>)
    ensures
        r is Ok <==> same_refresh(*agreed, *staged),
        r matches Err(e) ==> e == CoordinatorError::StagedResultChanged,
{
    if !refresh_eq(agreed, staged) {
        return Err(CoordinatorError::StagedResultChanged);
    }
    Ok(())
}

} // verus!
