//! The decisions a guardian makes at the later steps of a rotation, over
//! the outcomes of its cryptographic and storage layers: advancing a
//! session to preparation, committing a staged successor record, accepting
//! the witness-certified activation, and retiring a drained epoch.
use vstd::prelude::*;

use crate::bytes::{id_eq, is_zero_id, Id32};
use crate::epoch::{capsule_valid, validate_activated_capsule_v3, EpochError};
use crate::model::{config_ref_eq, ConfigCapsuleV3, ConfigRef, RecoveryCardV3};
use crate::rotation::{GuardianRouteV3, RotationPlan, RotationState};

verus! {

/// Why a guardian refuses a later rotation step.
#[derive(Clone, Copy, Debug, PartialEq, Eq)]
pub enum RotationStepError {
    /// The session is not in a state the step may follow.
    OutOfOrder,
    /// The durable successor record differs from the staged material.
    StagedMismatch,
    /// The record's Merkle path does not verify under the material root.
    InclusionNotProven,
    /// The record's custody commitment does not verify.
    CustodyMismatch,
    /// The activated capsule is invalid for the card.
    Card(EpochError),
    /// The activated capsule carries no activation QC.
    NoActivationQc,
    /// The activated capsule or its QC does not bind the exact plan.
    PlanMismatch,
    /// The successor guardian has no prepared record.
    NotPrepared,
    /// The activated capsule differs from the guardian's prepared record.
    PreparedMismatch,
    /// The retirement notice is early or names another QC or epoch.
    EarlyOrMismatchedRetirement,
    /// The retired epoch is not draining.
    NotDraining,
}

/// The session's state once a Release was accepted: DELAY_PENDING moves to
/// PREPARING, PREPARING stays, any other state refuses.
pub open spec fn preparing_outcome(state: RotationState) -> Result<RotationState, RotationStepError> {
    match state {
        RotationState::DelayPending => Ok(RotationState::Preparing),
        RotationState::Preparing => Ok(RotationState::Preparing),
        _ => Err(RotationStepError::OutOfOrder),
    }
}

/// Moves a session to PREPARING, where the rotation's order allows it.
pub fn advance_to_preparing(state: RotationState) -> (r: Result<RotationState, RotationStepError>)
    ensures
        r == preparing_outcome(state),
{
    match state {
        RotationState::DelayPending => Ok(RotationState::Preparing),
        RotationState::Preparing => Ok(RotationState::Preparing),
        _ => Err(RotationStepError::OutOfOrder),
    }
}

/// What a successor guardian staged locally for its successor record.
#[derive(Clone, Copy, Debug)]
pub struct StagedRecord {
    pub dpss_result_commitment: Id32,
    pub guardian_index: u16,
    pub fragment_index: u16,
    /// The fragment index the staged Merkle leaf names.
    pub leaf_fragment_index: u16,
    pub opaque_slot_id: Id32,
    pub config_ref: ConfigRef,
    pub dpss_public_commitment: Id32,
}

/// Outcome of committing the staged record of the successor at `route`
/// under `root`: the coordinator's result commitment must be the staged
/// one and the root non-zero, the leaf must verify under the root, the
/// record must be the route's for the plan's successor epoch and the
/// result, and its custody commitment must verify.
pub open spec fn prepare_commit_outcome(
    plan: RotationPlan,
    route: GuardianRouteV3,
    staged: StagedRecord,
    root: Id32,
    dpss_result_commitment: Id32,
    inclusion_verified: bool,
    custody_verified: bool,
) -> Result<(), RotationStepError> {
    if staged.dpss_result_commitment != dpss_result_commitment || is_zero_id(root) {
        Err(RotationStepError::StagedMismatch)
    } else if !inclusion_verified {
        Err(RotationStepError::InclusionNotProven)
    } else if staged.guardian_index != route.guardian_index || staged.fragment_index != staged.leaf_fragment_index
        || staged.opaque_slot_id != route.opaque_slot_id || staged.config_ref != plan.successor
        || staged.dpss_public_commitment != dpss_result_commitment {
        Err(RotationStepError::StagedMismatch)
    } else if !custody_verified {
        Err(RotationStepError::CustodyMismatch)
    } else {
        Ok(())
    }
}

/// Whether every byte of `a` is zero.
fn zero_id(a: &Id32) -> (r: bool)
    ensures
        r == is_zero_id(*a),
{
    let mut i: usize = 0;
    while i < 32
        invariant
            i <= 32,
            forall|j: int| 0 <= j < i ==> a[j] == 0u8,
        decreases 32 - i,
    {
        if a[i] != 0 {
            return false;
        }
        i = i + 1;
    }
    true
}

/// Decides whether a successor guardian commits its staged record.
/// `inclusion_verified` and `custody_verified` are the outcomes of the
/// Merkle and custody checks.
pub fn check_prepare_commit(
    plan: &RotationPlan,
    route: &GuardianRouteV3,
    staged: &StagedRecord,
    root: &Id32,
    dpss_result_commitment: &Id32,
    inclusion_verified: bool,
    custody_verified: bool,
) -> (r: Result<(), RotationStepError>)
    ensures
        r == prepare_commit_outcome(
            *plan,
            *route,
            *staged,
            *root,
            *dpss_result_commitment,
            inclusion_verified,
            custody_verified,
        ),
{
    if !id_eq(&staged.dpss_result_commitment, dpss_result_commitment) || zero_id(root) {
        return Err(RotationStepError::StagedMismatch);
    }
    if !inclusion_verified {
        return Err(RotationStepError::InclusionNotProven);
    }
    if staged.guardian_index != route.guardian_index || staged.fragment_index != staged.leaf_fragment_index
        || !id_eq(&staged.opaque_slot_id, &route.opaque_slot_id) || !config_ref_eq(&staged.config_ref, &plan.successor)
        || !id_eq(&staged.dpss_public_commitment, dpss_result_commitment) {
        return Err(RotationStepError::StagedMismatch);
    }
    if !custody_verified {
        return Err(RotationStepError::CustodyMismatch);
    }
    Ok(())
}

/// What a successor guardian prepared, as far as activation compares it.
#[derive(Clone, Copy, Debug)]
pub struct PreparedPolicy {
    pub config_ref: ConfigRef,
    pub guardian_material_root: Id32,
    pub dpss_public_commitment: Id32,
}

/// How the guardian takes the activation.
#[derive(Clone, Copy, Debug, PartialEq, Eq)]
pub enum ActivationRole {
    /// It is a successor guardian: its prepared record becomes ACTIVE.
    Successor,
    /// It only observes the replacement: its record becomes DRAINING.
    Observer,
}

/// The activated capsule and its QC bind the exact plan and the
/// guardian's predecessor capsule.
pub open spec fn activation_binds(
    plan: RotationPlan,
    predecessor: ConfigCapsuleV3,
    capsule: ConfigCapsuleV3,
) -> bool {
    &&& capsule.activation_qc is Some
    &&& capsule.config_ref == plan.successor
    &&& capsule.predecessor_capsule_hash == predecessor.capsule_hash
    &&& capsule.guardian_count == plan.new_roster@.len()
    &&& capsule.guardian_threshold == plan.new_guardian_threshold
    &&& capsule.dpss_suite == plan.dpss_suite
    &&& capsule.activation_qc.unwrap().rotation_id == plan.context.rotation_id
}

/// Outcome of an Activate, for a capsule valid for the card, for the
/// guardian holding `predecessor` with signing key `key`: the capsule must
/// carry a QC and bind the plan; a successor guardian must have prepared
/// exactly the activated epoch's material.
pub open spec fn activate_outcome(
    plan: RotationPlan,
    predecessor: ConfigCapsuleV3,
    capsule: ConfigCapsuleV3,
    key: Id32,
    prepared: Option<PreparedPolicy>,
) -> Result<ActivationRole, RotationStepError> {
    if capsule.activation_qc is None {
        Err(RotationStepError::NoActivationQc)
    } else if !activation_binds(plan, predecessor, capsule) {
        Err(RotationStepError::PlanMismatch)
    } else if exists|i: int| 0 <= i < plan.new_roster@.len() && (#[trigger] plan.new_roster@[i]).guardian_public_key == key {
        match prepared {
            None => Err(RotationStepError::NotPrepared),
            Some(p) => if p.config_ref != capsule.config_ref || p.guardian_material_root
                != capsule.guardian_material_root || p.dpss_public_commitment != capsule.dpss_public_commitment {
                Err(RotationStepError::PreparedMismatch)
            } else {
                Ok(ActivationRole::Successor)
            },
        }
    } else {
        Ok(ActivationRole::Observer)
    }
}

/// Whether some successor route carries signing key `key`.
fn successor_key(plan: &RotationPlan, key: &Id32) -> (r: bool)
    ensures
        r == exists|i: int| 0 <= i < plan.new_roster@.len() && (#[trigger] plan.new_roster@[i]).guardian_public_key == *key,
{
    let mut i: usize = 0;
    while i < plan.new_roster.len()
        invariant
            i <= plan.new_roster@.len(),
            forall|k: int| 0 <= k < i ==> (#[trigger] plan.new_roster@[k]).guardian_public_key != *key,
        decreases plan.new_roster.len() - i,
    {
        if id_eq(&plan.new_roster[i].guardian_public_key, key) {
            return true;
        }
        i = i + 1;
    }
    false
}

/// Decides an Activate: whether the guardian accepts the witness-certified
/// successor, and whether it takes it as a successor guardian (its
/// prepared record becomes ACTIVE) or as an observer of the replacement
/// (its record becomes DRAINING).
pub fn decide_activation(
    card: &RecoveryCardV3,
    plan: &RotationPlan,
    predecessor: &ConfigCapsuleV3,
    capsule: &ConfigCapsuleV3,
    key: &Id32,
    prepared: Option<PreparedPolicy>,
) -> (r: Result<ActivationRole, RotationStepError>)
    ensures
        !capsule_valid(*card, *capsule) ==> r matches Err(RotationStepError::Card(_)),
        capsule_valid(*card, *capsule) ==> r == activate_outcome(*plan, *predecessor, *capsule, *key, prepared),
{
    match validate_activated_capsule_v3(card, capsule) {
        Ok(()) => {},
        Err(e) => {
            return Err(RotationStepError::Card(e));
        },
    }
    let qc_rotation = match &capsule.activation_qc {
        Some(qc) => qc.rotation_id,
        None => {
            return Err(RotationStepError::NoActivationQc);
        },
    };
    if !config_ref_eq(&capsule.config_ref, &plan.successor) || !id_eq(
        &capsule.predecessor_capsule_hash,
        &predecessor.capsule_hash,
    ) || capsule.guardian_count as usize != plan.new_roster.len() || capsule.guardian_threshold
        != plan.new_guardian_threshold || capsule.dpss_suite != plan.dpss_suite || !id_eq(
        &qc_rotation,
        &plan.context.rotation_id,
    ) {
        return Err(RotationStepError::PlanMismatch);
    }
    if successor_key(plan, key) {
        match prepared {
            None => Err(RotationStepError::NotPrepared),
            Some(p) => if !config_ref_eq(&p.config_ref, &capsule.config_ref) || !id_eq(
                &p.guardian_material_root,
                &capsule.guardian_material_root,
            ) || !id_eq(&p.dpss_public_commitment, &capsule.dpss_public_commitment) {
                Err(RotationStepError::PreparedMismatch)
            } else {
                Ok(ActivationRole::Successor)
            },
        }
    } else {
        Ok(ActivationRole::Observer)
    }
}

/// A notice that a drained epoch may retire.
#[derive(Clone, Copy, Debug)]
pub struct RetirementNotice {
    pub activation_qc_hash: Id32,
    pub retired_epoch: u64,
    pub drain_deadline: u64,
}

/// Outcome of a retirement notice for a guardian that observed the QC
/// with hash `qc_hash` activating from `qc_predecessor_epoch` (if any), at
/// monotonic time `now`, with `draining` telling whether the notice's
/// epoch is DRAINING.
pub open spec fn retire_outcome(
    observed: Option<(Id32, u64)>,
    notice: RetirementNotice,
    now: u64,
    draining: bool,
) -> Result<(), RotationStepError> {
    match observed {
        None => Err(RotationStepError::OutOfOrder),
        Some((qc_hash, predecessor_epoch)) => if notice.activation_qc_hash != qc_hash || notice.retired_epoch
            != predecessor_epoch || notice.drain_deadline > now {
            Err(RotationStepError::EarlyOrMismatchedRetirement)
        } else if !draining {
            Err(RotationStepError::NotDraining)
        } else {
            Ok(())
        },
    }
}

/// Decides a retirement: only after the drain deadline, for the epoch the
/// observed activation QC retired, and only for a DRAINING epoch.
pub fn decide_retirement(observed: Option<(Id32, u64)>, notice: &RetirementNotice, now: u64, draining: bool) -> (r:
    Result<(), RotationStepError>)
    ensures
        r == retire_outcome(observed, *notice, now, draining),
{
    match observed {
        None => Err(RotationStepError::OutOfOrder),
        Some((qc_hash, predecessor_epoch)) => {
            if !id_eq(&notice.activation_qc_hash, &qc_hash) || notice.retired_epoch != predecessor_epoch
                || notice.drain_deadline > now {
                return Err(RotationStepError::EarlyOrMismatchedRetirement);
            }
            if !draining {
                return Err(RotationStepError::NotDraining);
            }
            Ok(())
        },
    }
}

/// A successor guardian takes the activation of a capsule valid for the
/// card only when it binds the exact plan and the guardian's predecessor
/// and matches what the guardian prepared.
pub proof fn lemma_successor_activates_only_prepared_epoch(
    card: RecoveryCardV3,
    plan: RotationPlan,
    predecessor: ConfigCapsuleV3,
    capsule: ConfigCapsuleV3,
    key: Id32,
    prepared: Option<PreparedPolicy>,
)
    requires
        capsule_valid(card, capsule),
        activate_outcome(plan, predecessor, capsule, key, prepared) == Ok::<ActivationRole, RotationStepError>(
            ActivationRole::Successor,
        ),
    ensures
        activation_binds(plan, predecessor, capsule),
        prepared matches Some(p) && p.config_ref == capsule.config_ref && p.guardian_material_root
            == capsule.guardian_material_root && p.dpss_public_commitment == capsule.dpss_public_commitment,
{
}

} // verus!
