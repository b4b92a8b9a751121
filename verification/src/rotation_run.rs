//! The rotation coordinator's run from a fixed plan to the activated
//! successor, as a state machine: signer Begin votes, Begin delivery to
//! the successors, the delay, signer Release votes, the successors' DPSS
//! refresh reports and staging, the Ready certificate, signer Activate
//! votes, the witnesses' activation quorum and activation at the
//! successors. The caller performs each exchange, forms each certificate's
//! canonical transcript, and hands the outcome back.
use vstd::prelude::*;

use crate::bytes::Id32;
use crate::coordinator::{
    activation_acks_after, admit_refresh_result, admit_signer_activate_vote, admit_signer_begin_vote,
    admit_signer_release_vote, admit_witness_activation_ack, activate_votes_after, begin_votes_after,
    check_staged_refresh, release_votes_after, same_refresh, CoordinatorError, RefreshResult,
    SignerRotationActivateVote, SignerRotationBeginVote, SignerRotationReleaseVote,
};
use crate::model::{ConfigCapsuleV3, RecoveryCardV3, WitnessActivationAck};
use crate::quorum::witness_quorum;
use crate::node::RotateV3Result;
use crate::model::is_direct_successor;
use crate::text::{hex_encode, hex_lower};
use crate::rotation::{
    added_exactly, begin_rotation_outcome, in_roster, ready_outcome, removed_exactly, GuardianRouteV3, rotation_release_outcome, validate_begin_rotation_certificate_v3,
    validate_rotation_ready_certificate_v3, validate_rotation_release_certificate_v3, BeginRotationCertificate,
    RotationError, RotationPlan, RotationReadyCertificate, RotationReleaseCertificate,
};

verus! {

/// Where a rotation run stands.
#[derive(Clone, Copy, Debug, PartialEq, Eq)]
pub enum CoordinatorPhase {
    BeginVotes { next: usize },
    FormBegin,
    BeginDelivery { next: usize },
    Delay,
    ReleaseVotes { next: usize },
    FormRelease,
    Refresh { next: usize },
    Stage { next: usize },
    FormReady,
    ActivateVotes { next: usize },
    FormActivate,
    WitnessAcks { next: usize },
    ActivateDelivery { next: usize },
    Done,
    Failed,
}

/// What the coordinator holds during a rotation.
#[derive(Clone, Debug)]
pub struct RotationCoordinatorState {
    pub card: RecoveryCardV3,
    pub plan: RotationPlan,
    pub predecessor: ConfigCapsuleV3,
    pub phase: CoordinatorPhase,
    pub begin_votes: Vec<SignerRotationBeginVote>,
    pub begin: Option<BeginRotationCertificate>,
    pub begin_hash: Id32,
    pub release_votes: Vec<SignerRotationReleaseVote>,
    pub release_hash: Id32,
    pub refresh: Option<RefreshResult>,
    pub ready_hash: Id32,
    pub successor: Option<ConfigCapsuleV3>,
    pub activate_votes: Vec<SignerRotationActivateVote>,
    pub activation_hash: Id32,
    pub witness_acks: Vec<WitnessActivationAck>,
}

/// An outcome the caller hands back.
#[derive(Clone, Debug)]
pub enum CoordinatorEvent {
    SignerBeginVote(Option<SignerRotationBeginVote>),
    BeginFormed(BeginRotationCertificate),
    /// Whether the asked successor answered as required.
    SuccessorAnswered(bool),
    DelayElapsed,
    SignerReleaseVote(Option<SignerRotationReleaseVote>),
    ReleaseFormed(RotationReleaseCertificate),
    RefreshReported(RefreshResult),
    Staged(RefreshResult),
    ReadyFormed { ready: RotationReadyCertificate, successor: ConfigCapsuleV3 },
    SignerActivateVote(Option<SignerRotationActivateVote>),
    /// The transcript hash of the formed Activate certificate.
    ActivateFormed(Id32),
    WitnessAck(Option<WitnessActivationAck>),
}

/// What the caller does next.
#[derive(Clone, Copy, Debug, PartialEq, Eq)]
pub enum CoordinatorAction {
    AskSignerBegin { signer: usize },
    /// Form the Begin certificate from the counted Begin votes.
    FormBegin,
    SendBegin { successor: usize },
    /// Sleep until the Begin certificate's `not_before_wall`.
    Wait,
    AskSignerRelease { signer: usize },
    FormRelease,
    /// Run the DPSS rounds and collect successor `successor`'s refresh
    /// report.
    CollectRefresh { successor: usize },
    StageAt { successor: usize },
    /// Collect the prepared and handoff acks and form the Ready
    /// certificate and successor capsule.
    FormReady,
    AskSignerActivate { signer: usize },
    FormActivate,
    AskWitness { pin: usize },
    ActivateAt { successor: usize },
    Finish,
}

/// Why a rotation run stopped.
#[derive(Clone, Copy, Debug, PartialEq, Eq)]
pub enum CoordinatorRunError {
    SignerThresholdNotReached,
    Certificate(RotationError),
    SuccessorRefused,
    Refresh(CoordinatorError),
    WitnessQuorumNotReached,
    OutOfTurn,
}

/// The invariant of a run: each phase holds the certificates and hashes
/// that its checks need, and every later phase holds a Begin and Release
/// certificate accepted for the plan.
pub open spec fn coordinator_wf(s: RotationCoordinatorState) -> bool {
    let signers = s.card.signer_mailboxes@.len();
    let successors = s.plan.new_roster@.len();
    &&& (s.begin matches Some(b) ==> exists|t: u64|
        #[trigger] begin_rotation_outcome(b, s.plan, s.predecessor, t) == Ok::<Id32, RotationError>(s.begin_hash))
    &&& match s.phase {
        CoordinatorPhase::BeginVotes { next } => next < signers,
        CoordinatorPhase::FormBegin => true,
        CoordinatorPhase::BeginDelivery { next } => s.begin is Some && next < successors,
        CoordinatorPhase::Delay => s.begin is Some,
        CoordinatorPhase::ReleaseVotes { next } => s.begin is Some && next < signers,
        CoordinatorPhase::FormRelease => s.begin is Some,
        CoordinatorPhase::Refresh { next } => s.begin is Some && next < successors && (next > 0 ==> s.refresh is Some),
        CoordinatorPhase::Stage { next } => s.begin is Some && next < successors && s.refresh is Some,
        CoordinatorPhase::FormReady => s.begin is Some && s.refresh is Some,
        CoordinatorPhase::ActivateVotes { next } => s.begin is Some && s.successor is Some && next < signers,
        CoordinatorPhase::FormActivate => s.begin is Some && s.successor is Some,
        CoordinatorPhase::WitnessAcks { next } => s.begin is Some && s.successor is Some && next
            < s.card.witnesses@.len() && s.witness_acks@.len() < witness_quorum(s.card.witness_fault_bound as int),
        CoordinatorPhase::ActivateDelivery { next } => s.begin is Some && s.successor is Some && next < successors
            && s.witness_acks@.len() == witness_quorum(s.card.witness_fault_bound as int),
        CoordinatorPhase::Done => s.begin is Some && s.successor is Some && s.witness_acks@.len() == witness_quorum(
            s.card.witness_fault_bound as int,
        ),
        CoordinatorPhase::Failed => true,
    }
}

/// `new` keeps the run's inputs.
pub open spec fn coordinator_frame(old: RotationCoordinatorState, new: RotationCoordinatorState) -> bool {
    &&& new.card == old.card
    &&& new.plan == old.plan
    &&& new.predecessor == old.predecessor
}

/// `new` keeps everything the run collected.
pub open spec fn collected_kept(old: RotationCoordinatorState, new: RotationCoordinatorState) -> bool {
    &&& new.begin_votes == old.begin_votes
    &&& new.begin == old.begin
    &&& new.begin_hash == old.begin_hash
    &&& new.release_votes == old.release_votes
    &&& new.release_hash == old.release_hash
    &&& new.refresh == old.refresh
    &&& new.ready_hash == old.ready_hash
    &&& new.successor == old.successor
    &&& new.activate_votes == old.activate_votes
    &&& new.activation_hash == old.activation_hash
    &&& new.witness_acks == old.witness_acks
}

/// The phase and answer after a signer round's answer at `next`.
pub open spec fn signer_round_next(
    reached: bool,
    next: usize,
    signers: int,
    done: (CoordinatorPhase, Result<CoordinatorAction, CoordinatorRunError>),
    again: (CoordinatorPhase, Result<CoordinatorAction, CoordinatorRunError>),
) -> (CoordinatorPhase, Result<CoordinatorAction, CoordinatorRunError>) {
    if reached {
        done
    } else if next + 1 < signers {
        again
    } else {
        (CoordinatorPhase::Failed, Err(CoordinatorRunError::SignerThresholdNotReached))
    }
}

/// The phase and answer after successor `next` answered a delivery:
/// a refusal stops the run; otherwise the next successor is asked, or
/// `done` follows.
pub open spec fn delivery_next(
    ok: bool,
    next: usize,
    successors: int,
    again: (CoordinatorPhase, Result<CoordinatorAction, CoordinatorRunError>),
    done: (CoordinatorPhase, Result<CoordinatorAction, CoordinatorRunError>),
) -> (CoordinatorPhase, Result<CoordinatorAction, CoordinatorRunError>) {
    if !ok {
        (CoordinatorPhase::Failed, Err(CoordinatorRunError::SuccessorRefused))
    } else if next + 1 < successors {
        again
    } else {
        done
    }
}

/// What follows a certificate's check: `done` when accepted, or the
/// refusal.
pub open spec fn after_check(
    outcome: Result<Id32, RotationError>,
    done: (CoordinatorPhase, Result<CoordinatorAction, CoordinatorRunError>),
) -> (CoordinatorPhase, Result<CoordinatorAction, CoordinatorRunError>) {
    match outcome {
        Ok(_) => done,
        Err(e) => (CoordinatorPhase::Failed, Err(CoordinatorRunError::Certificate(e))),
    }
}

/// The first step of a round over `count` targets, or failure where there
/// are none.
pub open spec fn round_start(
    count: int,
    phase: CoordinatorPhase,
    action: CoordinatorAction,
    none: CoordinatorRunError,
) -> (CoordinatorPhase, Result<CoordinatorAction, CoordinatorRunError>) {
    if count > 0 {
        (phase, Ok(action))
    } else {
        (CoordinatorPhase::Failed, Err(none))
    }
}

/// One step of the run on `event` at wall time `now`.
pub open spec fn coordinator_transition(
    old: RotationCoordinatorState,
    new: RotationCoordinatorState,
    event: CoordinatorEvent,
    now: u64,
    r: Result<CoordinatorAction, CoordinatorRunError>,
) -> bool {
    let signers = old.card.signer_mailboxes@.len() as int;
    let successors = old.plan.new_roster@.len() as int;
    let pins = old.card.witnesses@.len() as int;
    let plan = old.plan;
    let pred = old.predecessor;
    &&& coordinator_frame(old, new)
    &&& match (old.phase, event) {
        (CoordinatorPhase::BeginVotes { next }, CoordinatorEvent::SignerBeginVote(answer)) => {
            let votes = begin_votes_after(old.begin_votes@, answer, plan, pred);
            &&& new.begin_votes@ == votes
            &&& new.begin == old.begin && new.release_votes == old.release_votes && new.refresh == old.refresh
            &&& (new.phase, r) == signer_round_next(
                votes.len() >= pred.signer_threshold,
                next,
                signers,
                (CoordinatorPhase::FormBegin, Ok(CoordinatorAction::FormBegin)),
                (
                    CoordinatorPhase::BeginVotes { next: (next + 1) as usize },
                    Ok(CoordinatorAction::AskSignerBegin { signer: (next + 1) as usize }),
                ),
            )
        },
        (CoordinatorPhase::FormBegin, CoordinatorEvent::BeginFormed(certificate)) => {
            let outcome = begin_rotation_outcome(certificate, plan, pred, now);
            &&& new.begin_votes == old.begin_votes
            &&& (outcome is Ok ==> new.begin == Some(certificate) && new.begin_hash == outcome->Ok_0)
            &&& (new.phase, r) == after_check(
                outcome,
                round_start(
                    successors,
                    CoordinatorPhase::BeginDelivery { next: 0 },
                    CoordinatorAction::SendBegin { successor: 0 },
                    CoordinatorRunError::SuccessorRefused,
                ),
            )
        },
        (CoordinatorPhase::BeginDelivery { next }, CoordinatorEvent::SuccessorAnswered(ok)) => {
            &&& collected_kept(old, new)
            &&& (new.phase, r) == delivery_next(
                ok,
                next,
                successors,
                (
                    CoordinatorPhase::BeginDelivery { next: (next + 1) as usize },
                    Ok(CoordinatorAction::SendBegin { successor: (next + 1) as usize }),
                ),
                (CoordinatorPhase::Delay, Ok(CoordinatorAction::Wait)),
            )
        },
        (CoordinatorPhase::Delay, CoordinatorEvent::DelayElapsed) => {
            &&& collected_kept(old, new)
            &&& (new.phase, r) == round_start(
                signers,
                CoordinatorPhase::ReleaseVotes { next: 0 },
                CoordinatorAction::AskSignerRelease { signer: 0 },
                CoordinatorRunError::SignerThresholdNotReached,
            )
        },
        (CoordinatorPhase::ReleaseVotes { next }, CoordinatorEvent::SignerReleaseVote(answer)) => {
            let votes = release_votes_after(old.release_votes@, answer, plan, old.begin_hash, pred);
            &&& new.release_votes@ == votes
            &&& new.begin == old.begin && new.begin_hash == old.begin_hash && new.refresh == old.refresh
            &&& (new.phase, r) == signer_round_next(
                votes.len() >= pred.signer_threshold,
                next,
                signers,
                (CoordinatorPhase::FormRelease, Ok(CoordinatorAction::FormRelease)),
                (
                    CoordinatorPhase::ReleaseVotes { next: (next + 1) as usize },
                    Ok(CoordinatorAction::AskSignerRelease { signer: (next + 1) as usize }),
                ),
            )
        },
        (CoordinatorPhase::FormRelease, CoordinatorEvent::ReleaseFormed(release)) => {
            let outcome = rotation_release_outcome(release, old.begin.unwrap(), plan, pred, now);
            &&& new.begin == old.begin
            &&& new.refresh == None::<RefreshResult>
            &&& (outcome is Ok ==> new.release_hash == outcome->Ok_0)
            &&& (new.phase, r) == after_check(
                outcome,
                round_start(
                    successors,
                    CoordinatorPhase::Refresh { next: 0 },
                    CoordinatorAction::CollectRefresh { successor: 0 },
                    CoordinatorRunError::SuccessorRefused,
                ),
            )
        },
        (CoordinatorPhase::Refresh { next }, CoordinatorEvent::RefreshReported(candidate)) => {
            let agrees = match old.refresh {
                None => true,
                Some(a) => same_refresh(a, candidate),
            };
            &&& new.begin == old.begin
            &&& new.refresh == match old.refresh {
                None => Some(candidate),
                Some(a) => Some(a),
            }
            &&& (new.phase, r) == if !agrees {
                (CoordinatorPhase::Failed, Err(CoordinatorRunError::Refresh(CoordinatorError::RefreshDisagreement)))
            } else if next + 1 < successors {
                (
                    CoordinatorPhase::Refresh { next: (next + 1) as usize },
                    Ok(CoordinatorAction::CollectRefresh { successor: (next + 1) as usize }),
                )
            } else {
                (CoordinatorPhase::Stage { next: 0 }, Ok(CoordinatorAction::StageAt { successor: 0 }))
            }
        },
        (CoordinatorPhase::Stage { next }, CoordinatorEvent::Staged(staged)) => {
            &&& collected_kept(old, new)
            &&& (new.phase, r) == if !same_refresh(old.refresh.unwrap(), staged) {
                (CoordinatorPhase::Failed, Err(CoordinatorRunError::Refresh(CoordinatorError::StagedResultChanged)))
            } else if next + 1 < successors {
                (
                    CoordinatorPhase::Stage { next: (next + 1) as usize },
                    Ok(CoordinatorAction::StageAt { successor: (next + 1) as usize }),
                )
            } else {
                (CoordinatorPhase::FormReady, Ok(CoordinatorAction::FormReady))
            }
        },
        (CoordinatorPhase::FormReady, CoordinatorEvent::ReadyFormed { ready, successor }) => {
            let outcome = ready_outcome(ready, plan, pred, now);
            &&& new.begin == old.begin
            &&& new.refresh == old.refresh
            &&& (outcome is Ok ==> new.ready_hash == outcome->Ok_0 && new.successor == Some(successor))
            &&& new.activate_votes@.len() == 0
            &&& (new.phase, r) == after_check(
                outcome,
                round_start(
                    signers,
                    CoordinatorPhase::ActivateVotes { next: 0 },
                    CoordinatorAction::AskSignerActivate { signer: 0 },
                    CoordinatorRunError::SignerThresholdNotReached,
                ),
            )
        },
        (CoordinatorPhase::ActivateVotes { next }, CoordinatorEvent::SignerActivateVote(answer)) => {
            let votes = activate_votes_after(old.activate_votes@, answer, plan, old.ready_hash, old.successor.unwrap());
            &&& new.activate_votes@ == votes
            &&& new.begin == old.begin && new.successor == old.successor && new.ready_hash == old.ready_hash
            &&& (new.phase, r) == signer_round_next(
                votes.len() >= old.successor.unwrap().signer_threshold,
                next,
                signers,
                (CoordinatorPhase::FormActivate, Ok(CoordinatorAction::FormActivate)),
                (
                    CoordinatorPhase::ActivateVotes { next: (next + 1) as usize },
                    Ok(CoordinatorAction::AskSignerActivate { signer: (next + 1) as usize }),
                ),
            )
        },
        (CoordinatorPhase::FormActivate, CoordinatorEvent::ActivateFormed(hash)) => {
            &&& new.begin == old.begin && new.successor == old.successor
            &&& new.activation_hash == hash
            &&& new.witness_acks@.len() == 0
            &&& (new.phase, r) == round_start(
                pins,
                CoordinatorPhase::WitnessAcks { next: 0 },
                CoordinatorAction::AskWitness { pin: 0 },
                CoordinatorRunError::WitnessQuorumNotReached,
            )
        },
        (CoordinatorPhase::WitnessAcks { next }, CoordinatorEvent::WitnessAck(answer)) => {
            let acks = activation_acks_after(
                old.card,
                old.witness_acks@,
                next as int,
                answer,
                plan.context,
                plan.transcript_hash,
                old.activation_hash,
                pred,
                old.successor.unwrap(),
            );
            &&& new.witness_acks@ == acks
            &&& new.begin == old.begin && new.successor == old.successor
            &&& (new.phase, r) == if acks.len() >= witness_quorum(old.card.witness_fault_bound as int) {
                round_start(
                    successors,
                    CoordinatorPhase::ActivateDelivery { next: 0 },
                    CoordinatorAction::ActivateAt { successor: 0 },
                    CoordinatorRunError::SuccessorRefused,
                )
            } else if next + 1 < pins {
                (
                    CoordinatorPhase::WitnessAcks { next: (next + 1) as usize },
                    Ok(CoordinatorAction::AskWitness { pin: (next + 1) as usize }),
                )
            } else {
                (CoordinatorPhase::Failed, Err(CoordinatorRunError::WitnessQuorumNotReached))
            }
        },
        (CoordinatorPhase::ActivateDelivery { next }, CoordinatorEvent::SuccessorAnswered(ok)) => {
            &&& collected_kept(old, new)
            &&& (new.phase, r) == delivery_next(
                ok,
                next,
                successors,
                (
                    CoordinatorPhase::ActivateDelivery { next: (next + 1) as usize },
                    Ok(CoordinatorAction::ActivateAt { successor: (next + 1) as usize }),
                ),
                (CoordinatorPhase::Done, Ok(CoordinatorAction::Finish)),
            )
        },
        _ => collected_kept(old, new) && new.phase == old.phase && r == Err::<CoordinatorAction, CoordinatorRunError>(
            CoordinatorRunError::OutOfTurn,
        ),
    }
}

/// Starts the run for an accepted plan: asks the card's first signer for
/// a Begin vote, or fails where the card lists no signer.
pub fn start_rotation_run(card: RecoveryCardV3, plan: RotationPlan, predecessor: ConfigCapsuleV3) -> (r: (
    RotationCoordinatorState,
    Result<CoordinatorAction, CoordinatorRunError>,
))
    ensures
        coordinator_wf(r.0),
        r.0.card == card,
        r.0.plan == plan,
        r.0.predecessor == predecessor,
        r.0.begin_votes@.len() == 0,
        (r.0.phase, r.1) == round_start(
            card.signer_mailboxes@.len() as int,
            CoordinatorPhase::BeginVotes { next: 0 },
            CoordinatorAction::AskSignerBegin { signer: 0 },
            CoordinatorRunError::SignerThresholdNotReached,
        ),
{
    let ok = card.signer_mailboxes.len() > 0;
    let s = RotationCoordinatorState {
        card,
        plan,
        predecessor,
        phase: if ok {
            CoordinatorPhase::BeginVotes { next: 0 }
        } else {
            CoordinatorPhase::Failed
        },
        begin_votes: Vec::new(),
        begin: None,
        begin_hash: [0u8; 32],
        release_votes: Vec::new(),
        release_hash: [0u8; 32],
        refresh: None,
        ready_hash: [0u8; 32],
        successor: None,
        activate_votes: Vec::new(),
        activation_hash: [0u8; 32],
        witness_acks: Vec::new(),
    };
    if ok {
        (s, Ok(CoordinatorAction::AskSignerBegin { signer: 0 }))
    } else {
        (s, Err(CoordinatorRunError::SignerThresholdNotReached))
    }
}

/// Takes the outcome of the pending exchange and names the next one. Votes
/// count only through the coordinator's admission checks, up to the
/// signer threshold of the predecessor (or, for Activate, the successor);
/// each formed certificate must pass the same check signers and guardians
/// apply; every successor must accept Begin and activation; the refresh
/// reports must agree and be staged unchanged; and the run finishes only
/// after `2f + 1` pinned witnesses acknowledged the activation.
pub fn rotation_coordinator_step(
    state: &mut RotationCoordinatorState,
    event: CoordinatorEvent,
    now: u64,
) -> (r: Result<CoordinatorAction, CoordinatorRunError>)
    requires
        coordinator_wf(*old(state)),
    ensures
        coordinator_wf(*final(state)),
        coordinator_transition(*old(state), *final(state), event, now, r),
{
    let signers = state.card.signer_mailboxes.len();
    let successors = state.plan.new_roster.len();
    let pins = state.card.witnesses.len();
    match (state.phase, event) {
        (CoordinatorPhase::BeginVotes { next }, CoordinatorEvent::SignerBeginVote(answer)) => {
            let reached = admit_signer_begin_vote(&mut state.begin_votes, answer, &state.plan, &state.predecessor);
            if reached {
                state.phase = CoordinatorPhase::FormBegin;
                Ok(CoordinatorAction::FormBegin)
            } else if next + 1 < signers {
                state.phase = CoordinatorPhase::BeginVotes { next: next + 1 };
                Ok(CoordinatorAction::AskSignerBegin { signer: next + 1 })
            } else {
                state.phase = CoordinatorPhase::Failed;
                Err(CoordinatorRunError::SignerThresholdNotReached)
            }
        },
        (CoordinatorPhase::FormBegin, CoordinatorEvent::BeginFormed(certificate)) => {
            match validate_begin_rotation_certificate_v3(&certificate, &state.plan, &state.predecessor, now) {
                Ok(hash) => {
                    assert(begin_rotation_outcome(certificate, state.plan, state.predecessor, now) == Ok::<
                        Id32,
                        RotationError,
                    >(hash));
                    state.begin = Some(certificate);
                    state.begin_hash = hash;
                    if successors > 0 {
                        state.phase = CoordinatorPhase::BeginDelivery { next: 0 };
                        Ok(CoordinatorAction::SendBegin { successor: 0 })
                    } else {
                        state.phase = CoordinatorPhase::Failed;
                        Err(CoordinatorRunError::SuccessorRefused)
                    }
                },
                Err(e) => {
                    state.phase = CoordinatorPhase::Failed;
                    Err(CoordinatorRunError::Certificate(e))
                },
            }
        },
        (CoordinatorPhase::BeginDelivery { next }, CoordinatorEvent::SuccessorAnswered(ok)) => {
            if !ok {
                state.phase = CoordinatorPhase::Failed;
                Err(CoordinatorRunError::SuccessorRefused)
            } else if next + 1 < successors {
                state.phase = CoordinatorPhase::BeginDelivery { next: next + 1 };
                Ok(CoordinatorAction::SendBegin { successor: next + 1 })
            } else {
                state.phase = CoordinatorPhase::Delay;
                Ok(CoordinatorAction::Wait)
            }
        },
        (CoordinatorPhase::Delay, CoordinatorEvent::DelayElapsed) => {
            if signers > 0 {
                state.phase = CoordinatorPhase::ReleaseVotes { next: 0 };
                Ok(CoordinatorAction::AskSignerRelease { signer: 0 })
            } else {
                state.phase = CoordinatorPhase::Failed;
                Err(CoordinatorRunError::SignerThresholdNotReached)
            }
        },
        (CoordinatorPhase::ReleaseVotes { next }, CoordinatorEvent::SignerReleaseVote(answer)) => {
            let begin_hash = state.begin_hash;
            let reached = admit_signer_release_vote(
                &mut state.release_votes,
                answer,
                &state.plan,
                &begin_hash,
                &state.predecessor,
            );
            if reached {
                state.phase = CoordinatorPhase::FormRelease;
                Ok(CoordinatorAction::FormRelease)
            } else if next + 1 < signers {
                state.phase = CoordinatorPhase::ReleaseVotes { next: next + 1 };
                Ok(CoordinatorAction::AskSignerRelease { signer: next + 1 })
            } else {
                state.phase = CoordinatorPhase::Failed;
                Err(CoordinatorRunError::SignerThresholdNotReached)
            }
        },
        (CoordinatorPhase::FormRelease, CoordinatorEvent::ReleaseFormed(release)) => {
            let outcome = match &state.begin {
                Some(begin) => validate_rotation_release_certificate_v3(
                    &release,
                    begin,
                    &state.plan,
                    &state.predecessor,
                    now,
                ),
                None => {
                    return Err(CoordinatorRunError::OutOfTurn);
                },
            };
            state.refresh = None;
            match outcome {
                Ok(hash) => {
                    state.release_hash = hash;
                    if successors > 0 {
                        state.phase = CoordinatorPhase::Refresh { next: 0 };
                        Ok(CoordinatorAction::CollectRefresh { successor: 0 })
                    } else {
                        state.phase = CoordinatorPhase::Failed;
                        Err(CoordinatorRunError::SuccessorRefused)
                    }
                },
                Err(e) => {
                    state.phase = CoordinatorPhase::Failed;
                    Err(CoordinatorRunError::Certificate(e))
                },
            }
        },
        (CoordinatorPhase::Refresh { next }, CoordinatorEvent::RefreshReported(candidate)) => {
            match admit_refresh_result(&mut state.refresh, candidate) {
                Err(e) => {
                    state.phase = CoordinatorPhase::Failed;
                    Err(CoordinatorRunError::Refresh(e))
                },
                Ok(()) => if next + 1 < successors {
                    state.phase = CoordinatorPhase::Refresh { next: next + 1 };
                    Ok(CoordinatorAction::CollectRefresh { successor: next + 1 })
                } else {
                    state.phase = CoordinatorPhase::Stage { next: 0 };
                    Ok(CoordinatorAction::StageAt { successor: 0 })
                },
            }
        },
        (CoordinatorPhase::Stage { next }, CoordinatorEvent::Staged(staged)) => {
            let checked = match &state.refresh {
                Some(agreed) => check_staged_refresh(agreed, &staged),
                None => {
                    return Err(CoordinatorRunError::OutOfTurn);
                },
            };
            match checked {
                Err(e) => {
                    state.phase = CoordinatorPhase::Failed;
                    Err(CoordinatorRunError::Refresh(e))
                },
                Ok(()) => if next + 1 < successors {
                    state.phase = CoordinatorPhase::Stage { next: next + 1 };
                    Ok(CoordinatorAction::StageAt { successor: next + 1 })
                } else {
                    state.phase = CoordinatorPhase::FormReady;
                    Ok(CoordinatorAction::FormReady)
                },
            }
        },
        (CoordinatorPhase::FormReady, CoordinatorEvent::ReadyFormed { ready, successor }) => {
            state.activate_votes = Vec::new();
            match validate_rotation_ready_certificate_v3(&ready, &state.plan, &state.predecessor, now) {
                Ok(hash) => {
                    state.ready_hash = hash;
                    state.successor = Some(successor);
                    if signers > 0 {
                        state.phase = CoordinatorPhase::ActivateVotes { next: 0 };
                        Ok(CoordinatorAction::AskSignerActivate { signer: 0 })
                    } else {
                        state.phase = CoordinatorPhase::Failed;
                        Err(CoordinatorRunError::SignerThresholdNotReached)
                    }
                },
                Err(e) => {
                    state.phase = CoordinatorPhase::Failed;
                    Err(CoordinatorRunError::Certificate(e))
                },
            }
        },
        (CoordinatorPhase::ActivateVotes { next }, CoordinatorEvent::SignerActivateVote(answer)) => {
            let ready_hash = state.ready_hash;
            let successor = match &state.successor {
                Some(c) => c,
                None => {
                    return Err(CoordinatorRunError::OutOfTurn);
                },
            };
            let reached = admit_signer_activate_vote(&mut state.activate_votes, answer, &state.plan, &ready_hash, successor);
            if reached {
                state.phase = CoordinatorPhase::FormActivate;
                Ok(CoordinatorAction::FormActivate)
            } else if next + 1 < signers {
                state.phase = CoordinatorPhase::ActivateVotes { next: next + 1 };
                Ok(CoordinatorAction::AskSignerActivate { signer: next + 1 })
            } else {
                state.phase = CoordinatorPhase::Failed;
                Err(CoordinatorRunError::SignerThresholdNotReached)
            }
        },
        (CoordinatorPhase::FormActivate, CoordinatorEvent::ActivateFormed(hash)) => {
            state.activation_hash = hash;
            state.witness_acks = Vec::new();
            if pins > 0 {
                state.phase = CoordinatorPhase::WitnessAcks { next: 0 };
                Ok(CoordinatorAction::AskWitness { pin: 0 })
            } else {
                state.phase = CoordinatorPhase::Failed;
                Err(CoordinatorRunError::WitnessQuorumNotReached)
            }
        },
        (CoordinatorPhase::WitnessAcks { next }, CoordinatorEvent::WitnessAck(answer)) => {
            let activation_hash = state.activation_hash;
            let plan_hash = state.plan.transcript_hash;
            let successor = match &state.successor {
                Some(c) => c,
                None => {
                    return Err(CoordinatorRunError::OutOfTurn);
                },
            };
            let reached = admit_witness_activation_ack(
                &mut state.witness_acks,
                &state.card,
                next,
                answer,
                &state.plan.context,
                &plan_hash,
                &activation_hash,
                &state.predecessor,
                successor,
            );
            if reached {
                if successors > 0 {
                    state.phase = CoordinatorPhase::ActivateDelivery { next: 0 };
                    Ok(CoordinatorAction::ActivateAt { successor: 0 })
                } else {
                    state.phase = CoordinatorPhase::Failed;
                    Err(CoordinatorRunError::SuccessorRefused)
                }
            } else if next + 1 < pins {
                state.phase = CoordinatorPhase::WitnessAcks { next: next + 1 };
                Ok(CoordinatorAction::AskWitness { pin: next + 1 })
            } else {
                state.phase = CoordinatorPhase::Failed;
                Err(CoordinatorRunError::WitnessQuorumNotReached)
            }
        },
        (CoordinatorPhase::ActivateDelivery { next }, CoordinatorEvent::SuccessorAnswered(ok)) => {
            if !ok {
                state.phase = CoordinatorPhase::Failed;
                Err(CoordinatorRunError::SuccessorRefused)
            } else if next + 1 < successors {
                state.phase = CoordinatorPhase::ActivateDelivery { next: next + 1 };
                Ok(CoordinatorAction::ActivateAt { successor: next + 1 })
            } else {
                state.phase = CoordinatorPhase::Done;
                Ok(CoordinatorAction::Finish)
            }
        },
        _ => Err(CoordinatorRunError::OutOfTurn),
    }
}

/// A rotation run finishes only holding a Begin certificate that the
/// predecessor's signers' check accepted for the plan, the successor
/// capsule recorded when the Ready certificate passed its check, and
/// activation acks from exactly `2f + 1` pinned witnesses: the run stops
/// asking at the quorum.
pub proof fn lemma_run_finishes_only_after_quorums(s: RotationCoordinatorState)
    requires
        coordinator_wf(s),
        s.phase == CoordinatorPhase::Done,
    ensures
        s.begin matches Some(b) && exists|t: u64|
            #[trigger] begin_rotation_outcome(b, s.plan, s.predecessor, t) == Ok::<Id32, RotationError>(s.begin_hash),
        s.successor is Some,
        s.witness_acks@.len() == witness_quorum(s.card.witness_fault_bound as int),
{
}

/// Whether some route of `b` is for guardian `x`.
fn names_guardian(b: &Vec<GuardianRouteV3>, x: u16) -> (r: bool)
    ensures
        r == in_roster(b@, x),
{
    let mut i: usize = 0;
    while i < b.len()
        invariant
            i <= b@.len(),
            forall|k: int| 0 <= k < i ==> (#[trigger] b@[k]).guardian_index != x,
        decreases b.len() - i,
    {
        if b[i].guardian_index == x {
            assert(b@[i as int].guardian_index == x);
            return true;
        }
        i = i + 1;
    }
    false
}

/// The first guardian of `a` that `b` does not name, if any.
fn first_missing(a: &Vec<GuardianRouteV3>, b: &Vec<GuardianRouteV3>) -> (r: Option<u16>)
    ensures
        match r {
            Some(x) => in_roster(a@, x) && !in_roster(b@, x),
            None => forall|k: int| 0 <= k < a@.len() ==> in_roster(b@, (#[trigger] a@[k]).guardian_index),
        },
{
    let mut i: usize = 0;
    while i < a.len()
        invariant
            i <= a@.len(),
            forall|k: int| 0 <= k < i ==> in_roster(b@, (#[trigger] a@[k]).guardian_index),
        decreases a.len() - i,
    {
        let x = a[i].guardian_index;
        if !names_guardian(b, x) {
            assert(a@[i as int].guardian_index == x);
            return Some(x);
        }
        i = i + 1;
    }
    None
}

/// What a finished rotation reports: the configuration, the predecessor's
/// epoch and the plan's successor epoch (its direct successor), the
/// guardian the plan removes and the one it adds (the old-roster guardian
/// missing from the successor roster and the successor guardian missing
/// from the old roster, 0 where there is none), one prepared guardian per
/// successor route (as many as the predecessor's guardians), the `2f + 1`
/// witness acknowledgements counted, and no plaintext decryption, since
/// the run never opens the payload.
pub fn rotation_result(state: &RotationCoordinatorState) -> (r: RotateV3Result)
    requires
        coordinator_wf(*state),
        state.phase == CoordinatorPhase::Done,
    ensures
        r.config_id@ == hex_lower(state.card.config_id@),
        r.predecessor_epoch == state.predecessor.config_ref.guardian_epoch,
        r.successor_epoch == state.plan.successor.guardian_epoch,
        r.successor_epoch == r.predecessor_epoch + 1,
        (exists|x: u16| removed_exactly(state.plan, x)) ==> removed_exactly(state.plan, r.removed_guardian),
        (exists|y: u16| added_exactly(state.plan, y)) ==> added_exactly(state.plan, r.added_guardian),
        r.prepared_guardians == state.plan.new_roster@.len(),
        r.prepared_guardians == state.predecessor.guardian_count,
        r.witness_acknowledgements == witness_quorum(state.card.witness_fault_bound as int),
        r.plaintext_decryptions == 0,
{
    proof {
        let b = state.begin.unwrap();
        let t = choose|t: u64|
            #[trigger] begin_rotation_outcome(b, state.plan, state.predecessor, t) == Ok::<Id32, RotationError>(
                state.begin_hash,
            );
        assert(crate::rotation::plan_outcome(state.plan, state.predecessor, t) is Ok);
        assert(is_direct_successor(state.plan.successor, state.plan.predecessor));
    }
    let removed = first_missing(&state.plan.old_roster, &state.plan.new_roster);
    let added = first_missing(&state.plan.new_roster, &state.plan.old_roster);
    proof {
        let plan = state.plan;
        if exists|x: u16| removed_exactly(plan, x) {
            let x = choose|x: u16| removed_exactly(plan, x);
            let k = choose|k: int| 0 <= k < plan.old_roster@.len() && (#[trigger] plan.old_roster@[k]).guardian_index == x;
            assert(plan.old_roster@[k].guardian_index == x);
            if let Some(y) = removed {
                assert(in_roster(plan.old_roster@, y));
            }
        }
        if exists|y: u16| added_exactly(plan, y) {
            let y = choose|y: u16| added_exactly(plan, y);
            let k = choose|k: int| 0 <= k < plan.new_roster@.len() && (#[trigger] plan.new_roster@[k]).guardian_index == y;
            assert(plan.new_roster@[k].guardian_index == y);
            if let Some(z) = added {
                assert(in_roster(plan.new_roster@, z));
            }
        }
    }
    RotateV3Result {
        config_id: hex_encode(state.card.config_id.as_slice()),
        predecessor_epoch: state.predecessor.config_ref.guardian_epoch,
        successor_epoch: state.plan.successor.guardian_epoch,
        removed_guardian: match removed {
            Some(x) => x,
            None => 0,
        },
        added_guardian: match added {
            Some(y) => y,
            None => 0,
        },
        prepared_guardians: state.plan.new_roster.len(),
        witness_acknowledgements: state.witness_acks.len(),
        plaintext_decryptions: 0,
    }
}

} // verus!
