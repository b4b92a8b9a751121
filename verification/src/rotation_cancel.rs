//! The owner's permanent cancellation of a rotation as a state machine: the
//! coordinator collects `2f + 1` witness vetoes pin by pin, then asks every
//! predecessor guardian to stop, and reports the cancellation permanent
//! only when too few of them remain to finish the handoff. The caller
//! performs each exchange and hands the answer back.
use vstd::prelude::*;

use crate::coordinator::{
    admit_old_guardian_cancel_ack, admit_witness_veto, old_acks_after, required_old_cancel_acks, roster_ids,
    vetoes_admissible, vetoes_after, OwnerRotationCancelAck,
};
use crate::model::{ConfigCapsuleV3, RecoveryCardV3};
use crate::quorum::witness_quorum;
use crate::rotation::{
    owner_cancel_quorum_outcome, validate_owner_rotation_cancel_witness_quorum_v3, RotationError, RotationPlan,
    WitnessRotationCancelAck,
};
use crate::witness::OwnerRotationCancelCertificate;
use crate::node::CancelRotationV3Result;
use crate::text::{hex_encode, hex_lower};

verus! {

/// Where a cancellation run stands.
#[derive(Clone, Copy, Debug, PartialEq, Eq)]
pub enum CancelPhase {
    /// Waiting for the answer of the card's `next`-th pinned witness.
    Witnesses { next: usize },
    /// Waiting for the answer of the plan's `next`-th old guardian.
    OldGuardians { next: usize },
    /// The cancellation is permanent.
    Done,
    /// The run stopped on an error.
    Failed,
}

/// What the coordinator holds while cancelling a rotation.
#[derive(Clone, Debug)]
pub struct RotationCancelRun {
    pub certificate: OwnerRotationCancelCertificate,
    pub card: RecoveryCardV3,
    pub plan: RotationPlan,
    pub predecessor: ConfigCapsuleV3,
    pub phase: CancelPhase,
    /// Valid vetoes of distinct pinned witnesses, in pin order.
    pub vetoes: Vec<WitnessRotationCancelAck>,
    /// Old guardians that acknowledged the cancellation.
    pub old_acks: Vec<u16>,
    /// Old acknowledgements that leave fewer than the handoff threshold.
    pub required_old: usize,
}

/// An answer the caller hands back.
#[derive(Clone, Debug)]
pub enum CancelEvent {
    WitnessAnswer(Option<WitnessRotationCancelAck>),
    OldGuardianAnswer(Option<OwnerRotationCancelAck>),
}

/// What the caller does next.
#[derive(Clone, Copy, Debug, PartialEq, Eq)]
pub enum CancelAction {
    /// Send the cancellation to the card's `pin`-th witness.
    AskWitness { pin: usize },
    /// Send the cancellation to the plan's `route`-th old guardian.
    AskOldGuardian { route: usize },
    /// The cancellation is permanent: notify the successors, abort, and
    /// finalize at the signers.
    Finish,
}

/// Why a cancellation run stopped.
#[derive(Clone, Copy, Debug, PartialEq, Eq)]
pub enum CancelRunError {
    /// Fewer than `2f + 1` pinned witnesses vetoed.
    WitnessQuorumNotReached,
    /// The counted vetoes do not carry the cancellation.
    Quorum(RotationError),
    /// Enough old guardians to finish the handoff did not acknowledge.
    OldThresholdNotLeft,
    /// The old-acknowledgement count overflows.
    ThresholdOverflow,
    /// The event does not answer the pending action.
    OutOfTurn,
}

/// The kept old acknowledgements name distinct guardians of the old
/// roster.
pub open spec fn old_acks_distinct_members(acks: Seq<u16>, plan: RotationPlan) -> bool {
    acks.no_duplicates() && acks.to_set().subset_of(roster_ids(plan.old_roster@))
}

/// The invariant of a run: the counted vetoes are admissible, and once the
/// witness phase is over they carry the cancellation; the old
/// acknowledgements are distinct guardians of the routes asked so far; a
/// permanent cancellation holds the required old acknowledgements.
pub open spec fn rotation_cancel_wf(s: RotationCancelRun) -> bool {
    let hash = s.certificate.transcript_hash;
    &&& s.required_old == s.plan.old_roster@.len() - s.plan.old_guardian_threshold + 1
    &&& match s.phase {
        CancelPhase::Witnesses { next } => next < s.card.witnesses@.len() && vetoes_admissible(
            s.card,
            s.vetoes@,
            next as int,
            s.plan,
            hash,
        ) && s.old_acks@.len() == 0 && s.vetoes@.len() < witness_quorum(s.card.witness_fault_bound as int),
        CancelPhase::OldGuardians { next } => next < s.plan.old_roster@.len() && s.vetoes@.len()
            == witness_quorum(s.card.witness_fault_bound as int) && (exists|t: u64|
            #[trigger] owner_cancel_quorum_outcome(s.certificate, s.vetoes@, s.card, s.plan, s.predecessor, t) is Ok)
            && old_acks_distinct_members(s.old_acks@, s.plan),
        CancelPhase::Done => s.vetoes@.len() == witness_quorum(s.card.witness_fault_bound as int) && (exists|t: u64|
            #[trigger] owner_cancel_quorum_outcome(s.certificate, s.vetoes@, s.card, s.plan, s.predecessor, t) is Ok)
            && old_acks_distinct_members(s.old_acks@, s.plan)
            && s.old_acks@.len() >= s.required_old,
        CancelPhase::Failed => true,
    }
}

/// `new` is `old` with only the phase, vetoes and old acknowledgements
/// possibly changed.
pub open spec fn cancel_frame(old: RotationCancelRun, new: RotationCancelRun) -> bool {
    &&& new.certificate == old.certificate
    &&& new.card == old.card
    &&& new.plan == old.plan
    &&& new.predecessor == old.predecessor
    &&& new.required_old == old.required_old
}

/// What follows the last old guardian's answer, holding `count` of them.
pub open spec fn after_old_round(count: int, required: int) -> (CancelPhase, Result<CancelAction, CancelRunError>) {
    if count >= required {
        (CancelPhase::Done, Ok(CancelAction::Finish))
    } else {
        (CancelPhase::Failed, Err(CancelRunError::OldThresholdNotLeft))
    }
}

/// One step of the run on `event` at wall time `now`.
pub open spec fn rotation_cancel_transition(
    old: RotationCancelRun,
    new: RotationCancelRun,
    event: CancelEvent,
    now: u64,
    r: Result<CancelAction, CancelRunError>,
) -> bool {
    let hash = old.certificate.transcript_hash;
    &&& cancel_frame(old, new)
    &&& match (old.phase, event) {
        (CancelPhase::Witnesses { next }, CancelEvent::WitnessAnswer(answer)) => {
            let vetoes = vetoes_after(old.card, old.vetoes@, next as int, answer, old.plan, hash);
            &&& new.vetoes@ == vetoes
            &&& new.old_acks == old.old_acks
            &&& if vetoes.len() >= witness_quorum(old.card.witness_fault_bound as int) {
                match owner_cancel_quorum_outcome(old.certificate, vetoes, old.card, old.plan, old.predecessor, now) {
                    Err(e) => new.phase == CancelPhase::Failed && r == Err::<CancelAction, CancelRunError>(
                        CancelRunError::Quorum(e),
                    ),
                    Ok(_) => if old.plan.old_roster@.len() > 0 {
                        new.phase == CancelPhase::OldGuardians { next: 0 } && r == Ok::<CancelAction, CancelRunError>(
                            CancelAction::AskOldGuardian { route: 0 },
                        )
                    } else {
                        (new.phase, r) == after_old_round(0, old.required_old as int)
                    },
                }
            } else if next + 1 < old.card.witnesses@.len() {
                new.phase == CancelPhase::Witnesses { next: (next + 1) as usize } && r == Ok::<
                    CancelAction,
                    CancelRunError,
                >(CancelAction::AskWitness { pin: (next + 1) as usize })
            } else {
                new.phase == CancelPhase::Failed && r == Err::<CancelAction, CancelRunError>(
                    CancelRunError::WitnessQuorumNotReached,
                )
            }
        },
        (CancelPhase::OldGuardians { next }, CancelEvent::OldGuardianAnswer(answer)) => {
            let acks = old_acks_after(old.old_acks@, old.plan, next as int, answer, hash);
            &&& new.vetoes == old.vetoes
            &&& new.old_acks@ == acks
            &&& if next + 1 < old.plan.old_roster@.len() {
                new.phase == CancelPhase::OldGuardians { next: (next + 1) as usize } && r == Ok::<
                    CancelAction,
                    CancelRunError,
                >(CancelAction::AskOldGuardian { route: (next + 1) as usize })
            } else {
                (new.phase, r) == after_old_round(acks.len() as int, old.required_old as int)
            }
        },
        _ => new.vetoes == old.vetoes && new.old_acks == old.old_acks && new.phase == old.phase && r == Err::<
            CancelAction,
            CancelRunError,
        >(CancelRunError::OutOfTurn),
    }
}

/// Starts cancelling the plan with the owner's signed cancellation: asks
/// the first pinned witness, or fails where the card pins none or the
/// required old acknowledgements overflow.
pub fn start_rotation_cancel(
    certificate: OwnerRotationCancelCertificate,
    card: RecoveryCardV3,
    plan: RotationPlan,
    predecessor: ConfigCapsuleV3,
) -> (r: Result<(RotationCancelRun, CancelAction), CancelRunError>)
    ensures
        match r {
            Ok((s, a)) => rotation_cancel_wf(s) && s.certificate == certificate && s.card == card && s.plan == plan
                && s.predecessor == predecessor && s.vetoes@.len() == 0 && s.old_acks@.len() == 0 && s.phase
                == CancelPhase::Witnesses { next: 0 } && a == CancelAction::AskWitness { pin: 0 },
            Err(e) => (e == CancelRunError::ThresholdOverflow && !(plan.old_roster@.len() >= plan.old_guardian_threshold
                && plan.old_roster@.len() - plan.old_guardian_threshold + 1 <= usize::MAX)) || (e
                == CancelRunError::WitnessQuorumNotReached && card.witnesses@.len() == 0),
        },
        r is Err <==> (card.witnesses@.len() == 0 || !(plan.old_roster@.len() >= plan.old_guardian_threshold
            && plan.old_roster@.len() - plan.old_guardian_threshold + 1 <= usize::MAX)),
{
    let required_old = match required_old_cancel_acks(&plan) {
        Some(n) => n,
        None => {
            return Err(CancelRunError::ThresholdOverflow);
        },
    };
    if card.witnesses.len() == 0 {
        return Err(CancelRunError::WitnessQuorumNotReached);
    }
    let s = RotationCancelRun {
        certificate,
        card,
        plan,
        predecessor,
        phase: CancelPhase::Witnesses { next: 0 },
        vetoes: Vec::new(),
        old_acks: Vec::new(),
        required_old,
    };
    Ok((s, CancelAction::AskWitness { pin: 0 }))
}

/// Takes the pending answer and names the next exchange. A veto counts
/// only when `validate_witness_rotation_cancel_ack` accepts it for the pin
/// asked and its witness is not yet counted; the old guardians are asked
/// only once `2f + 1` vetoes carry the cancellation; an old guardian's
/// acknowledgement counts once, when it validates for the route asked; and
/// the cancellation is reported permanent only when every old guardian was
/// asked and the old roster minus the handoff threshold plus one of them
/// acknowledged.
pub fn rotation_cancel_step(state: &mut RotationCancelRun, event: CancelEvent, now: u64) -> (r: Result<
    CancelAction,
    CancelRunError,
>)
    requires
        rotation_cancel_wf(*old(state)),
    ensures
        rotation_cancel_wf(*final(state)),
        rotation_cancel_transition(*old(state), *final(state), event, now, r),
{
    match (state.phase, event) {
        (CancelPhase::Witnesses { next }, CancelEvent::WitnessAnswer(answer)) => {
            let hash = state.certificate.transcript_hash;
            let pins = state.card.witnesses.len();
            let reached = admit_witness_veto(&mut state.vetoes, &state.card, next, answer, &state.plan, &hash);
            if reached {
                match validate_owner_rotation_cancel_witness_quorum_v3(
                    &state.certificate,
                    state.vetoes.as_slice(),
                    &state.card,
                    &state.plan,
                    &state.predecessor,
                    now,
                ) {
                    Err(e) => {
                        state.phase = CancelPhase::Failed;
                        Err(CancelRunError::Quorum(e))
                    },
                    Ok(_) => {
                        proof {
                            assert(state.old_acks@.to_set() =~= Set::<u16>::empty());
                        }
                        if state.plan.old_roster.len() > 0 {
                            state.phase = CancelPhase::OldGuardians { next: 0 };
                            Ok(CancelAction::AskOldGuardian { route: 0 })
                        } else if 0 >= state.required_old {
                            state.phase = CancelPhase::Done;
                            Ok(CancelAction::Finish)
                        } else {
                            state.phase = CancelPhase::Failed;
                            Err(CancelRunError::OldThresholdNotLeft)
                        }
                    },
                }
            } else if next + 1 < pins {
                state.phase = CancelPhase::Witnesses { next: next + 1 };
                Ok(CancelAction::AskWitness { pin: next + 1 })
            } else {
                state.phase = CancelPhase::Failed;
                Err(CancelRunError::WitnessQuorumNotReached)
            }
        },
        (CancelPhase::OldGuardians { next }, CancelEvent::OldGuardianAnswer(answer)) => {
            let hash = state.certificate.transcript_hash;
            admit_old_guardian_cancel_ack(&mut state.old_acks, &state.plan, next, answer, &hash);
            if next + 1 < state.plan.old_roster.len() {
                state.phase = CancelPhase::OldGuardians { next: next + 1 };
                Ok(CancelAction::AskOldGuardian { route: next + 1 })
            } else if state.old_acks.len() >= state.required_old {
                state.phase = CancelPhase::Done;
                Ok(CancelAction::Finish)
            } else {
                state.phase = CancelPhase::Failed;
                Err(CancelRunError::OldThresholdNotLeft)
            }
        },
        _ => Err(CancelRunError::OutOfTurn),
    }
}

/// A cancellation is reported permanent only holding `2f + 1` vetoes of
/// distinct pinned witnesses that carry it, and acknowledgements from at
/// least the old roster size minus the handoff threshold plus one distinct
/// old guardians, so fewer than the handoff threshold can still finish it.
pub proof fn lemma_permanent_cancel_needs_both_quorums(s: RotationCancelRun)
    requires
        rotation_cancel_wf(s),
        s.phase == CancelPhase::Done,
    ensures
        s.vetoes@.len() == witness_quorum(s.card.witness_fault_bound as int),
        exists|t: u64| #[trigger] owner_cancel_quorum_outcome(s.certificate, s.vetoes@, s.card, s.plan, s.predecessor, t) is Ok,
        old_acks_distinct_members(s.old_acks@, s.plan),
        s.old_acks@.len() + s.plan.old_guardian_threshold > s.plan.old_roster@.len(),
{
}

/// What a permanent cancellation reports: the rotation id in hexadecimal,
/// the `2f + 1` witness vetoes counted against the `2f + 1` required, the
/// old guardians' acknowledgements against the old roster size minus the
/// handoff threshold plus one, the signers that finalized the
/// cancellation, and that it is permanent.
pub fn cancel_result(state: &RotationCancelRun, signer_cancel_finalizations: usize) -> (r: CancelRotationV3Result)
    requires
        rotation_cancel_wf(*state),
        state.phase == CancelPhase::Done,
    ensures
        r.rotation_id@ == hex_lower(state.plan.context.rotation_id@),
        r.witness_acknowledgements == state.vetoes@.len(),
        r.witness_acknowledgements == witness_quorum(state.card.witness_fault_bound as int),
        r.required_witness_acknowledgements == witness_quorum(state.card.witness_fault_bound as int),
        r.old_guardian_acknowledgements == state.old_acks@.len(),
        r.required_old_guardian_acknowledgements == state.required_old,
        r.old_guardian_acknowledgements >= r.required_old_guardian_acknowledgements,
        r.signer_cancel_finalizations == signer_cancel_finalizations,
        r.permanently_cancelled,
{
    CancelRotationV3Result {
        rotation_id: hex_encode(state.plan.context.rotation_id.as_slice()),
        witness_acknowledgements: state.vetoes.len(),
        required_witness_acknowledgements: (state.card.witness_fault_bound as usize) * 2 + 1,
        old_guardian_acknowledgements: state.old_acks.len(),
        required_old_guardian_acknowledgements: state.required_old,
        signer_cancel_finalizations,
        permanently_cancelled: true,
    }
}

} // verus!
