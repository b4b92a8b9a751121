//! The recovering client's protocol-v2 run as a state machine, with the
//! owner-cancellation race the demonstration can stage before Release. The
//! caller performs each action and hands the outcome back as an event.
use vstd::prelude::*;

use crate::bytes::{contains_u16, copy_u16s};
use crate::node::NetworkDemoResult;
use crate::text::{hex_encode, hex_lower};
use crate::protocol_v2::{
    capsule_ok, guardian_contribution_ok, owner_cancel_ack_ok, request_ok, validate_capsule,
    validate_guardian_contribution, validate_owner_cancel_ack, validate_request, ConfigCapsule,
    GuardianContribution, GuardianRoute, OwnerCancelAck, OwnerCancelCertificate, RecoveryCard,
    RecoveryRequest,
};

verus! {

/// Where a protocol-v2 recovery run stands.
#[derive(Clone, Copy, Debug, PartialEq, Eq)]
pub enum RecoveryPhaseV2 {
    /// Waiting for the capsule from the card's `next`-th config store.
    Capsule { next: usize },
    /// Waiting for the request issued for the selected capsule.
    IssueRequest,
    /// Waiting for card signer `next`'s answer to Approve.
    Approve { next: usize },
    /// Waiting for the guardian routes of the opened descriptor.
    OpenDescriptor,
    /// Waiting for route `next`'s answer to Begin.
    Begin { next: usize },
    /// Cancellation race: waiting for signer `next`'s early Release vote.
    RaceRelease { next: usize },
    /// Cancellation race: waiting for the owner's signed cancellation.
    IssueCancel,
    /// Cancellation race: waiting for route `next`'s cancellation ack.
    Cancel { next: usize },
    /// Cancellation race: waiting out the delay.
    RaceDelay,
    /// Cancellation race: waiting for route `next`'s answer to the raced
    /// Release.
    RaceCheck { next: usize },
    /// Waiting out the delay.
    Delay,
    /// Waiting for card signer `next`'s answer to Release.
    Release { next: usize },
    /// Waiting for route `next`'s contribution.
    Collect { next: usize },
    /// A guardian threshold of contributions is counted.
    Reconstruct,
    /// A guardian refused the raced Release as cancelled.
    Cancelled,
    Failed,
}

/// What the client holds during a protocol-v2 recovery.
#[derive(Clone, Debug)]
pub struct RecoveryClientV2 {
    pub card: RecoveryCard,
    /// How many config-store locators the card lists.
    pub locator_count: usize,
    /// How many signer mailboxes the card lists.
    pub signer_count: usize,
    /// Stage the owner-cancellation race before Release.
    pub cancel_before_release: bool,
    pub phase: RecoveryPhaseV2,
    pub capsule: Option<ConfigCapsule>,
    pub request: Option<RecoveryRequest>,
    /// Signer answers of the current signer round.
    pub signer_answers: usize,
    pub routes: Vec<GuardianRoute>,
    pub begin_accepted: usize,
    pub cancel_certificate: Option<OwnerCancelCertificate>,
    /// Guardians that acknowledged the owner's cancellation.
    pub cancel_acks: Vec<u16>,
    /// Guardians whose contribution was counted.
    pub counted: Vec<u16>,
    /// Guardians whose answer was missing or refused.
    pub rejected: Vec<u16>,
}

/// A guardian's answer to the raced Release.
#[derive(Clone, Copy, Debug, PartialEq, Eq)]
pub enum RaceAnswer {
    /// It released material.
    Released,
    /// It refused because the request is cancelled.
    RefusedCancelled,
    /// Any other answer, or none.
    Other,
}

/// An outcome the caller hands back.
#[derive(Clone, Debug)]
pub enum RecoveryEventV2 {
    CapsuleFetched(Option<ConfigCapsule>),
    RequestIssued(RecoveryRequest),
    /// Whether the asked signer gave a contribution or vote.
    SignerAnswered(bool),
    DescriptorOpened(Vec<GuardianRoute>),
    GuardianBegin(bool),
    CancelIssued(OwnerCancelCertificate),
    CancelAcked(Option<OwnerCancelAck>),
    DelayElapsed,
    RaceAnswered(RaceAnswer),
    GuardianReleased(Option<GuardianContribution>),
}

/// What the caller does next.
#[derive(Clone, Copy, Debug, PartialEq, Eq)]
pub enum RecoveryActionV2 {
    FetchCapsule { locator: usize },
    /// Issue a fresh request for the selected capsule.
    IssueRequest,
    AskSignerApproval { signer: usize },
    /// Reconstruct the authorization key and open the descriptor.
    OpenDescriptor,
    SendBegin { route: usize },
    AskSignerRelease { signer: usize },
    /// Have the owner sign a hard cancellation of the request.
    IssueCancel,
    SendCancel { route: usize },
    /// Sleep the capsule's minimum delay plus one second.
    Wait,
    SendRaceRelease { route: usize },
    SendRelease { route: usize },
    Reconstruct,
    /// Report the recovery cancelled.
    ReportCancelled,
}

/// Why a protocol-v2 run stopped.
#[derive(Clone, Copy, Debug, PartialEq, Eq)]
pub enum RecoveryRunErrorV2 {
    /// No config store returned a capsule matching the card.
    NoCapsule,
    /// The issued request does not fit the capsule at issue time.
    InvalidRequest,
    SignerThresholdNotReached,
    GuardianBeginThresholdNotReached,
    /// Too few guardians stored the owner's cancellation.
    CancelNotStored,
    /// A cancelled guardian released material.
    CancelledGuardianReleased,
    /// No guardian refused the raced Release as cancelled.
    NoCancelRefusal,
    GuardianThresholdNotReached,
    /// The event does not answer the pending action.
    OutOfTurn,
}

/// No two entries of `s` are equal, and each names a route of `routes`.
pub open spec fn distinct_route_ids(s: Seq<u16>, routes: Seq<GuardianRoute>) -> bool {
    &&& s.no_duplicates()
    &&& forall|i: int|
        0 <= i < s.len() ==> exists|m: int| 0 <= m < routes.len() && (#[trigger] routes[m]).guardian_index == #[trigger] s[i]
}

/// The invariant of a run: the capsule matches the card, the request fits
/// the capsule's configuration, counters stay within the routes asked, and
/// counted contributions and cancellation acks name distinct routed
/// guardians.
pub open spec fn recovery_client_v2_wf(s: RecoveryClientV2) -> bool {
    &&& (s.capsule matches Some(c) ==> capsule_ok(s.card, c))
    &&& (s.request matches Some(q) ==> s.capsule matches Some(c) && q.config_id == c.config_id
        && q.config_version == c.config_version)
    &&& distinct_route_ids(s.counted@, s.routes@)
    &&& distinct_route_ids(s.cancel_acks@, s.routes@)
    &&& s.signer_answers <= s.signer_count
    &&& match s.phase {
        RecoveryPhaseV2::Capsule { next } => next < s.locator_count && s.capsule is None && s.request is None
            && s.begin_accepted == 0,
        RecoveryPhaseV2::IssueRequest => s.capsule is Some && s.request is None && s.begin_accepted == 0,
        RecoveryPhaseV2::Approve { next } => s.request is Some && next < s.signer_count && s.signer_answers <= next
            && s.begin_accepted == 0,
        RecoveryPhaseV2::OpenDescriptor => s.request is Some && s.begin_accepted == 0 && s.signer_answers == 0,
        RecoveryPhaseV2::Begin { next } => s.request is Some && next < s.routes@.len() && s.begin_accepted <= next
            && s.signer_answers == 0 && s.cancel_acks@.len() == 0 && s.counted@.len() == 0,
        RecoveryPhaseV2::RaceRelease { next } => s.request is Some && next < s.signer_count && s.signer_answers
            <= next && s.cancel_acks@.len() == 0,
        RecoveryPhaseV2::IssueCancel => s.request is Some && s.cancel_acks@.len() == 0,
        RecoveryPhaseV2::Cancel { next } => s.request is Some && s.cancel_certificate is Some && next
            < s.routes@.len(),
        RecoveryPhaseV2::RaceDelay => s.request is Some && s.cancel_acks@.len() >= cancel_quorum(s) && s.capsule is Some,
        RecoveryPhaseV2::RaceCheck { next } => s.request is Some && next < s.routes@.len() && s.cancel_acks@.len()
            >= cancel_quorum(s) && s.capsule is Some,
        RecoveryPhaseV2::Delay => s.request is Some && s.signer_answers == 0 && s.counted@.len() == 0,
        RecoveryPhaseV2::Release { next } => s.request is Some && next < s.signer_count && s.signer_answers
            <= next && s.counted@.len() == 0,
        RecoveryPhaseV2::Collect { next } => s.request is Some && next < s.routes@.len() && (s.capsule matches Some(c)
            && s.counted@.len() < c.guardian_threshold),
        RecoveryPhaseV2::Reconstruct => s.request is Some && (s.capsule matches Some(c) && s.counted@.len()
            == c.guardian_threshold),
        RecoveryPhaseV2::Cancelled => s.request is Some && (s.capsule matches Some(c) && s.cancel_acks@.len()
            >= c.guardian_count - c.guardian_threshold + 1),
        RecoveryPhaseV2::Failed => true,
    }
}

/// The signer threshold of the selected capsule.
pub open spec fn signer_threshold_of(s: RecoveryClientV2) -> int {
    match s.capsule {
        Some(c) => c.signer_threshold as int,
        None => 0,
    }
}

/// The guardian threshold of the selected capsule.
pub open spec fn guardian_threshold_of(s: RecoveryClientV2) -> int {
    match s.capsule {
        Some(c) => c.guardian_threshold as int,
        None => 0,
    }
}

/// `new` keeps every field of `old` but the phase and the ones named
/// changed by the step.
pub open spec fn same_except(
    old: RecoveryClientV2,
    new: RecoveryClientV2,
    capsule: bool,
    request: bool,
    answers: bool,
    routes: bool,
    begin: bool,
    cancel: bool,
    acks: bool,
    counted: bool,
) -> bool {
    &&& new.card == old.card
    &&& new.locator_count == old.locator_count
    &&& new.signer_count == old.signer_count
    &&& new.cancel_before_release == old.cancel_before_release
    &&& (!capsule ==> new.capsule == old.capsule)
    &&& (!request ==> new.request == old.request)
    &&& (!answers ==> new.signer_answers == old.signer_answers)
    &&& (!routes ==> new.routes == old.routes)
    &&& (!begin ==> new.begin_accepted == old.begin_accepted)
    &&& (!cancel ==> new.cancel_certificate == old.cancel_certificate)
    &&& (!acks ==> new.cancel_acks == old.cancel_acks)
    &&& (!counted ==> new.counted == old.counted && new.rejected == old.rejected)
}

/// The phase and answer after a signer round's answer at `next` with
/// `count` answers: `done` follows the threshold, or the next signer is
/// asked, or the round fails.
pub open spec fn signer_round(
    s: RecoveryClientV2,
    next: usize,
    count: int,
    ask: RecoveryActionV2,
    again: RecoveryPhaseV2,
    done: (RecoveryPhaseV2, Result<RecoveryActionV2, RecoveryRunErrorV2>),
) -> (RecoveryPhaseV2, Result<RecoveryActionV2, RecoveryRunErrorV2>) {
    if count >= signer_threshold_of(s) {
        done
    } else if next + 1 < s.signer_count {
        (again, Ok(ask))
    } else {
        (RecoveryPhaseV2::Failed, Err(RecoveryRunErrorV2::SignerThresholdNotReached))
    }
}

/// The phase and answer that start the Release round: the first signer,
/// or failure where the card lists none.
pub open spec fn release_start(s: RecoveryClientV2, race: bool) -> (RecoveryPhaseV2, Result<
    RecoveryActionV2,
    RecoveryRunErrorV2,
>) {
    if s.signer_count > 0 {
        (
            if race {
                RecoveryPhaseV2::RaceRelease { next: 0 }
            } else {
                RecoveryPhaseV2::Release { next: 0 }
            },
            Ok(RecoveryActionV2::AskSignerRelease { signer: 0 }),
        )
    } else {
        (RecoveryPhaseV2::Failed, Err(RecoveryRunErrorV2::SignerThresholdNotReached))
    }
}

/// The guardian acks the owner's cancellation must reach: more than the
/// guardians that could still release without it.
pub open spec fn cancel_quorum(s: RecoveryClientV2) -> int {
    match s.capsule {
        Some(c) => c.guardian_count - c.guardian_threshold + 1,
        None => 0,
    }
}

/// One step of the run on `event` at wall time `now`.
pub open spec fn recovery_v2_transition(
    old: RecoveryClientV2,
    new: RecoveryClientV2,
    event: RecoveryEventV2,
    now: u64,
    r: Result<RecoveryActionV2, RecoveryRunErrorV2>,
) -> bool {
    let routes = old.routes@;
    match (old.phase, event) {
        (RecoveryPhaseV2::Capsule { next }, RecoveryEventV2::CapsuleFetched(fetched)) => {
            &&& same_except(old, new, true, false, false, false, false, false, false, false)
            &&& if fetched is Some && capsule_ok(old.card, fetched.unwrap()) {
                new.capsule == fetched && new.phase == RecoveryPhaseV2::IssueRequest && r == Ok::<
                    RecoveryActionV2,
                    RecoveryRunErrorV2,
                >(RecoveryActionV2::IssueRequest)
            } else if next + 1 < old.locator_count {
                new.capsule == old.capsule && new.phase == RecoveryPhaseV2::Capsule { next: (next + 1) as usize }
                    && r == Ok::<RecoveryActionV2, RecoveryRunErrorV2>(
                    RecoveryActionV2::FetchCapsule { locator: (next + 1) as usize },
                )
            } else {
                new.capsule == old.capsule && new.phase == RecoveryPhaseV2::Failed && r == Err::<
                    RecoveryActionV2,
                    RecoveryRunErrorV2,
                >(RecoveryRunErrorV2::NoCapsule)
            }
        },
        (RecoveryPhaseV2::IssueRequest, RecoveryEventV2::RequestIssued(q)) => {
            &&& same_except(old, new, false, true, true, false, false, false, false, false)
            &&& if request_ok(q, old.capsule.unwrap(), now) && old.signer_count > 0 {
                new.request == Some(q) && new.signer_answers == 0 && new.phase == RecoveryPhaseV2::Approve { next: 0 }
                    && r == Ok::<RecoveryActionV2, RecoveryRunErrorV2>(
                    RecoveryActionV2::AskSignerApproval { signer: 0 },
                )
            } else {
                new.request == old.request && new.signer_answers == old.signer_answers && new.phase
                    == RecoveryPhaseV2::Failed && r == Err::<RecoveryActionV2, RecoveryRunErrorV2>(
                    if request_ok(q, old.capsule.unwrap(), now) {
                        RecoveryRunErrorV2::SignerThresholdNotReached
                    } else {
                        RecoveryRunErrorV2::InvalidRequest
                    },
                )
            }
        },
        (RecoveryPhaseV2::Approve { next }, RecoveryEventV2::SignerAnswered(gave)) => {
            let count = old.signer_answers + if gave {
                1int
            } else {
                0int
            };
            &&& same_except(old, new, false, false, true, false, false, false, false, false)
            &&& (new.phase, r) == signer_round(
                old,
                next,
                count,
                RecoveryActionV2::AskSignerApproval { signer: (next + 1) as usize },
                RecoveryPhaseV2::Approve { next: (next + 1) as usize },
                (RecoveryPhaseV2::OpenDescriptor, Ok(RecoveryActionV2::OpenDescriptor)),
            )
            &&& new.signer_answers == if count >= signer_threshold_of(old) {
                0
            } else {
                count
            }
        },
        (RecoveryPhaseV2::OpenDescriptor, RecoveryEventV2::DescriptorOpened(d)) => {
            &&& same_except(old, new, false, false, false, true, false, false, true, true)
            &&& new.routes@ == d@
            &&& new.counted@.len() == 0 && new.rejected@.len() == 0 && new.cancel_acks@.len() == 0
            &&& if d@.len() > 0 {
                new.phase == RecoveryPhaseV2::Begin { next: 0 } && r == Ok::<RecoveryActionV2, RecoveryRunErrorV2>(
                    RecoveryActionV2::SendBegin { route: 0 },
                )
            } else {
                new.phase == RecoveryPhaseV2::Failed && r == Err::<RecoveryActionV2, RecoveryRunErrorV2>(
                    RecoveryRunErrorV2::GuardianBeginThresholdNotReached,
                )
            }
        },
        (RecoveryPhaseV2::Begin { next }, RecoveryEventV2::GuardianBegin(accepted)) => {
            let count = old.begin_accepted + if accepted {
                1int
            } else {
                0int
            };
            &&& same_except(old, new, false, false, false, false, true, false, false, false)
            &&& new.begin_accepted == count
            &&& if next + 1 < routes.len() {
                new.phase == RecoveryPhaseV2::Begin { next: (next + 1) as usize } && r == Ok::<
                    RecoveryActionV2,
                    RecoveryRunErrorV2,
                >(RecoveryActionV2::SendBegin { route: (next + 1) as usize })
            } else if count < guardian_threshold_of(old) {
                new.phase == RecoveryPhaseV2::Failed && r == Err::<RecoveryActionV2, RecoveryRunErrorV2>(
                    RecoveryRunErrorV2::GuardianBeginThresholdNotReached,
                )
            } else if old.cancel_before_release {
                (new.phase, r) == release_start(old, true)
            } else {
                new.phase == RecoveryPhaseV2::Delay && r == Ok::<RecoveryActionV2, RecoveryRunErrorV2>(
                    RecoveryActionV2::Wait,
                )
            }
        },
        (RecoveryPhaseV2::RaceRelease { next }, RecoveryEventV2::SignerAnswered(gave)) => {
            let count = old.signer_answers + if gave {
                1int
            } else {
                0int
            };
            &&& same_except(old, new, false, false, true, false, false, false, false, false)
            &&& (new.phase, r) == signer_round(
                old,
                next,
                count,
                RecoveryActionV2::AskSignerRelease { signer: (next + 1) as usize },
                RecoveryPhaseV2::RaceRelease { next: (next + 1) as usize },
                (RecoveryPhaseV2::IssueCancel, Ok(RecoveryActionV2::IssueCancel)),
            )
            &&& new.signer_answers == if count >= signer_threshold_of(old) {
                0
            } else {
                count
            }
        },
        (RecoveryPhaseV2::IssueCancel, RecoveryEventV2::CancelIssued(certificate)) => {
            &&& same_except(old, new, false, false, false, false, false, true, false, false)
            &&& new.cancel_certificate == Some(certificate)
            &&& if routes.len() > 0 {
                new.phase == RecoveryPhaseV2::Cancel { next: 0 } && r == Ok::<RecoveryActionV2, RecoveryRunErrorV2>(
                    RecoveryActionV2::SendCancel { route: 0 },
                )
            } else {
                new.phase == RecoveryPhaseV2::Failed && r == Err::<RecoveryActionV2, RecoveryRunErrorV2>(
                    RecoveryRunErrorV2::CancelNotStored,
                )
            }
        },
        (RecoveryPhaseV2::Cancel { next }, RecoveryEventV2::CancelAcked(answer)) => {
            let acks = match answer {
                Some(ack) => if owner_cancel_ack_ok(
                    ack,
                    old.cancel_certificate.unwrap(),
                    old.request.unwrap(),
                    routes[next as int],
                ) && !old.cancel_acks@.contains(ack.guardian_index) {
                    old.cancel_acks@.push(ack.guardian_index)
                } else {
                    old.cancel_acks@
                },
                None => old.cancel_acks@,
            };
            &&& same_except(old, new, false, false, false, false, false, false, true, false)
            &&& new.cancel_acks@ == acks
            &&& if next + 1 < routes.len() {
                new.phase == RecoveryPhaseV2::Cancel { next: (next + 1) as usize } && r == Ok::<
                    RecoveryActionV2,
                    RecoveryRunErrorV2,
                >(RecoveryActionV2::SendCancel { route: (next + 1) as usize })
            } else if acks.len() >= cancel_quorum(old) {
                new.phase == RecoveryPhaseV2::RaceDelay && r == Ok::<RecoveryActionV2, RecoveryRunErrorV2>(
                    RecoveryActionV2::Wait,
                )
            } else {
                new.phase == RecoveryPhaseV2::Failed && r == Err::<RecoveryActionV2, RecoveryRunErrorV2>(
                    RecoveryRunErrorV2::CancelNotStored,
                )
            }
        },
        (RecoveryPhaseV2::RaceDelay, RecoveryEventV2::DelayElapsed) => {
            &&& same_except(old, new, false, false, false, false, false, false, false, false)
            &&& if routes.len() > 0 {
                new.phase == RecoveryPhaseV2::RaceCheck { next: 0 } && r == Ok::<RecoveryActionV2, RecoveryRunErrorV2>(
                    RecoveryActionV2::SendRaceRelease { route: 0 },
                )
            } else {
                new.phase == RecoveryPhaseV2::Failed && r == Err::<RecoveryActionV2, RecoveryRunErrorV2>(
                    RecoveryRunErrorV2::NoCancelRefusal,
                )
            }
        },
        (RecoveryPhaseV2::RaceCheck { next }, RecoveryEventV2::RaceAnswered(answer)) => {
            &&& same_except(old, new, false, false, false, false, false, false, false, false)
            &&& match answer {
                RaceAnswer::Released => new.phase == RecoveryPhaseV2::Failed && r == Err::<
                    RecoveryActionV2,
                    RecoveryRunErrorV2,
                >(RecoveryRunErrorV2::CancelledGuardianReleased),
                RaceAnswer::RefusedCancelled => new.phase == RecoveryPhaseV2::Cancelled && r == Ok::<
                    RecoveryActionV2,
                    RecoveryRunErrorV2,
                >(RecoveryActionV2::ReportCancelled),
                RaceAnswer::Other => if next + 1 < routes.len() {
                    new.phase == RecoveryPhaseV2::RaceCheck { next: (next + 1) as usize } && r == Ok::<
                        RecoveryActionV2,
                        RecoveryRunErrorV2,
                    >(RecoveryActionV2::SendRaceRelease { route: (next + 1) as usize })
                } else {
                    new.phase == RecoveryPhaseV2::Failed && r == Err::<RecoveryActionV2, RecoveryRunErrorV2>(
                        RecoveryRunErrorV2::NoCancelRefusal,
                    )
                },
            }
        },
        (RecoveryPhaseV2::Delay, RecoveryEventV2::DelayElapsed) => {
            &&& same_except(old, new, false, false, false, false, false, false, false, false)
            &&& (new.phase, r) == release_start(old, false)
        },
        (RecoveryPhaseV2::Release { next }, RecoveryEventV2::SignerAnswered(gave)) => {
            let count = old.signer_answers + if gave {
                1int
            } else {
                0int
            };
            let done = if routes.len() > 0 {
                (RecoveryPhaseV2::Collect { next: 0 }, Ok(RecoveryActionV2::SendRelease { route: 0 }))
            } else {
                (RecoveryPhaseV2::Failed, Err(RecoveryRunErrorV2::GuardianThresholdNotReached))
            };
            &&& same_except(old, new, false, false, true, false, false, false, false, false)
            &&& (new.phase, r) == signer_round(
                old,
                next,
                count,
                RecoveryActionV2::AskSignerRelease { signer: (next + 1) as usize },
                RecoveryPhaseV2::Release { next: (next + 1) as usize },
                done,
            )
            &&& new.signer_answers == if count >= signer_threshold_of(old) {
                0
            } else {
                count
            }
        },
        (RecoveryPhaseV2::Collect { next }, RecoveryEventV2::GuardianReleased(answer)) => {
            let route = routes[next as int];
            let kept = answer matches Some(c) && guardian_contribution_ok(c, route, old.request.unwrap())
                && !old.counted@.contains(route.guardian_index);
            let counted = if kept {
                old.counted@.push(route.guardian_index)
            } else {
                old.counted@
            };
            &&& same_except(old, new, false, false, false, false, false, false, false, true)
            &&& new.counted@ == counted
            &&& new.rejected@ == if kept {
                old.rejected@
            } else {
                old.rejected@.push(route.guardian_index)
            }
            &&& if counted.len() >= guardian_threshold_of(old) {
                new.phase == RecoveryPhaseV2::Reconstruct && r == Ok::<RecoveryActionV2, RecoveryRunErrorV2>(
                    RecoveryActionV2::Reconstruct,
                )
            } else if next + 1 < routes.len() {
                new.phase == RecoveryPhaseV2::Collect { next: (next + 1) as usize } && r == Ok::<
                    RecoveryActionV2,
                    RecoveryRunErrorV2,
                >(RecoveryActionV2::SendRelease { route: (next + 1) as usize })
            } else {
                new.phase == RecoveryPhaseV2::Failed && r == Err::<RecoveryActionV2, RecoveryRunErrorV2>(
                    RecoveryRunErrorV2::GuardianThresholdNotReached,
                )
            }
        },
        _ => same_except(old, new, false, false, false, false, false, false, false, false) && new.phase == old.phase
            && r == Err::<RecoveryActionV2, RecoveryRunErrorV2>(RecoveryRunErrorV2::OutOfTurn),
    }
}

/// Starts a run for the card: asks the first config store, or fails where
/// the card lists none.
pub fn start_recovery_client_v2(
    card: RecoveryCard,
    locator_count: usize,
    signer_count: usize,
    cancel_before_release: bool,
) -> (r: (RecoveryClientV2, Result<RecoveryActionV2, RecoveryRunErrorV2>))
    ensures
        recovery_client_v2_wf(r.0),
        r.0.card == card,
        r.0.locator_count == locator_count,
        r.0.signer_count == signer_count,
        r.0.cancel_before_release == cancel_before_release,
        r.0.capsule is None,
        r.0.request is None,
        if locator_count > 0 {
            r.0.phase == RecoveryPhaseV2::Capsule { next: 0 } && r.1 == Ok::<RecoveryActionV2, RecoveryRunErrorV2>(
                RecoveryActionV2::FetchCapsule { locator: 0 },
            )
        } else {
            r.0.phase == RecoveryPhaseV2::Failed && r.1 == Err::<RecoveryActionV2, RecoveryRunErrorV2>(
                RecoveryRunErrorV2::NoCapsule,
            )
        },
{
    let ok = locator_count > 0;
    let s = RecoveryClientV2 {
        card,
        locator_count,
        signer_count,
        cancel_before_release,
        phase: if ok {
            RecoveryPhaseV2::Capsule { next: 0 }
        } else {
            RecoveryPhaseV2::Failed
        },
        capsule: None,
        request: None,
        signer_answers: 0,
        routes: Vec::new(),
        begin_accepted: 0,
        cancel_certificate: None,
        cancel_acks: Vec::new(),
        counted: Vec::new(),
        rejected: Vec::new(),
    };
    proof {
        assert(s.counted@.no_duplicates());
        assert(s.cancel_acks@.no_duplicates());
    }
    if ok {
        (s, Ok(RecoveryActionV2::FetchCapsule { locator: 0 }))
    } else {
        (s, Err(RecoveryRunErrorV2::NoCapsule))
    }
}

/// Whether `x` occurs in `v`, with the membership it implies.
fn holds(v: &Vec<u16>, x: u16) -> (r: bool)
    ensures
        r == v@.contains(x),
{
    contains_u16(v, x)
}

/// Keeps `x` in a list of distinct routed guardians when it names route
/// `k` and is not yet there.
proof fn lemma_push_distinct(s: Seq<u16>, routes: Seq<GuardianRoute>, k: int, x: u16)
    requires
        distinct_route_ids(s, routes),
        0 <= k < routes.len(),
        routes[k].guardian_index == x,
        !s.contains(x),
    ensures
        distinct_route_ids(s.push(x), routes),
{
    let t = s.push(x);
    assert forall|i: int, j: int| 0 <= i < t.len() && 0 <= j < t.len() && i != j implies t[i] != t[j] by {
        if i < s.len() && j < s.len() {
            assert(t[i] == s[i] && t[j] == s[j]);
        } else if i < s.len() {
            assert(t[i] == s[i]);
            assert(s.contains(t[i]));
        } else {
            assert(t[j] == s[j]);
            assert(s.contains(t[j]));
        }
    }
    assert forall|i: int| 0 <= i < t.len() implies exists|m: int|
        0 <= m < routes.len() && (#[trigger] routes[m]).guardian_index == #[trigger] t[i] by {
        if i < s.len() {
            assert(t[i] == s[i]);
            let m = choose|m: int| 0 <= m < routes.len() && (#[trigger] routes[m]).guardian_index == s[i];
            assert(routes[m].guardian_index == t[i]);
        } else {
            assert(routes[k].guardian_index == t[i]);
        }
    }
}

/// Takes the outcome of the pending action and names the next one. The
/// client uses the first capsule that matches the card, issues the request
/// for it, and counts signer answers up to the capsule's threshold; it
/// sends Begin to every route and goes on only when a guardian threshold
/// accepted. In the cancellation race it counts an owner-cancel ack only
/// when `validate_owner_cancel_ack` accepts it for the route asked, needs
/// more acks than the guardians that could release without one, and ends
/// cancelled only on a guardian's cancelled refusal. Otherwise it counts a
/// contribution only when `validate_guardian_contribution` accepts it for
/// the route asked, once per guardian, and reconstructs at the guardian
/// threshold.
pub fn recovery_client_step_v2(state: &mut RecoveryClientV2, event: RecoveryEventV2, now: u64) -> (r: Result<
    RecoveryActionV2,
    RecoveryRunErrorV2,
>)
    requires
        recovery_client_v2_wf(*old(state)),
    ensures
        recovery_client_v2_wf(*final(state)),
        recovery_v2_transition(*old(state), *final(state), event, now, r),
{
    match (state.phase, event) {
        (RecoveryPhaseV2::Capsule { next }, RecoveryEventV2::CapsuleFetched(fetched)) => {
            if let Some(c) = fetched {
                if validate_capsule(&state.card, &c).is_ok() {
                    state.capsule = Some(c);
                    state.phase = RecoveryPhaseV2::IssueRequest;
                    return Ok(RecoveryActionV2::IssueRequest);
                }
            }
            if next + 1 < state.locator_count {
                state.phase = RecoveryPhaseV2::Capsule { next: next + 1 };
                Ok(RecoveryActionV2::FetchCapsule { locator: next + 1 })
            } else {
                state.phase = RecoveryPhaseV2::Failed;
                Err(RecoveryRunErrorV2::NoCapsule)
            }
        },
        (RecoveryPhaseV2::IssueRequest, RecoveryEventV2::RequestIssued(q)) => {
            let capsule = match &state.capsule {
                Some(c) => *c,
                None => {
                    return Err(RecoveryRunErrorV2::OutOfTurn);
                },
            };
            let fits = validate_request(&q, &capsule, now).is_ok();
            if fits && state.signer_count > 0 {
                state.request = Some(q);
                state.signer_answers = 0;
                state.phase = RecoveryPhaseV2::Approve { next: 0 };
                Ok(RecoveryActionV2::AskSignerApproval { signer: 0 })
            } else {
                state.phase = RecoveryPhaseV2::Failed;
                if fits {
                    Err(RecoveryRunErrorV2::SignerThresholdNotReached)
                } else {
                    Err(RecoveryRunErrorV2::InvalidRequest)
                }
            }
        },
        (RecoveryPhaseV2::Approve { next }, RecoveryEventV2::SignerAnswered(gave))
        | (RecoveryPhaseV2::RaceRelease { next }, RecoveryEventV2::SignerAnswered(gave))
        | (RecoveryPhaseV2::Release { next }, RecoveryEventV2::SignerAnswered(gave)) => {
            let threshold: usize = match &state.capsule {
                Some(c) => c.signer_threshold as usize,
                None => 0,
            };
            let count = if gave {
                state.signer_answers + 1
            } else {
                state.signer_answers
            };
            if count >= threshold {
                state.signer_answers = 0;
                match state.phase {
                    RecoveryPhaseV2::Approve { .. } => {
                        state.phase = RecoveryPhaseV2::OpenDescriptor;
                        Ok(RecoveryActionV2::OpenDescriptor)
                    },
                    RecoveryPhaseV2::RaceRelease { .. } => {
                        state.phase = RecoveryPhaseV2::IssueCancel;
                        Ok(RecoveryActionV2::IssueCancel)
                    },
                    _ => if state.routes.len() > 0 {
                        state.phase = RecoveryPhaseV2::Collect { next: 0 };
                        Ok(RecoveryActionV2::SendRelease { route: 0 })
                    } else {
                        state.phase = RecoveryPhaseV2::Failed;
                        Err(RecoveryRunErrorV2::GuardianThresholdNotReached)
                    },
                }
            } else if next + 1 < state.signer_count {
                state.signer_answers = count;
                match state.phase {
                    RecoveryPhaseV2::Approve { .. } => {
                        state.phase = RecoveryPhaseV2::Approve { next: next + 1 };
                        Ok(RecoveryActionV2::AskSignerApproval { signer: next + 1 })
                    },
                    RecoveryPhaseV2::RaceRelease { .. } => {
                        state.phase = RecoveryPhaseV2::RaceRelease { next: next + 1 };
                        Ok(RecoveryActionV2::AskSignerRelease { signer: next + 1 })
                    },
                    _ => {
                        state.phase = RecoveryPhaseV2::Release { next: next + 1 };
                        Ok(RecoveryActionV2::AskSignerRelease { signer: next + 1 })
                    },
                }
            } else {
                state.signer_answers = count;
                state.phase = RecoveryPhaseV2::Failed;
                Err(RecoveryRunErrorV2::SignerThresholdNotReached)
            }
        },
        (RecoveryPhaseV2::OpenDescriptor, RecoveryEventV2::DescriptorOpened(d)) => {
            let routes = d.len();
            state.routes = d;
            state.counted = Vec::new();
            state.rejected = Vec::new();
            state.cancel_acks = Vec::new();
            proof {
                assert(state.counted@.no_duplicates());
                assert(state.cancel_acks@.no_duplicates());
            }
            if routes > 0 {
                state.phase = RecoveryPhaseV2::Begin { next: 0 };
                Ok(RecoveryActionV2::SendBegin { route: 0 })
            } else {
                state.phase = RecoveryPhaseV2::Failed;
                Err(RecoveryRunErrorV2::GuardianBeginThresholdNotReached)
            }
        },
        (RecoveryPhaseV2::Begin { next }, RecoveryEventV2::GuardianBegin(accepted)) => {
            let n = state.routes.len();
            if accepted {
                state.begin_accepted = state.begin_accepted + 1;
            }
            let threshold: usize = match &state.capsule {
                Some(c) => c.guardian_threshold as usize,
                None => 0,
            };
            if next + 1 < state.routes.len() {
                state.phase = RecoveryPhaseV2::Begin { next: next + 1 };
                Ok(RecoveryActionV2::SendBegin { route: next + 1 })
            } else if state.begin_accepted < threshold {
                state.phase = RecoveryPhaseV2::Failed;
                Err(RecoveryRunErrorV2::GuardianBeginThresholdNotReached)
            } else if state.cancel_before_release {
                if state.signer_count > 0 {
                    state.phase = RecoveryPhaseV2::RaceRelease { next: 0 };
                    Ok(RecoveryActionV2::AskSignerRelease { signer: 0 })
                } else {
                    state.phase = RecoveryPhaseV2::Failed;
                    Err(RecoveryRunErrorV2::SignerThresholdNotReached)
                }
            } else {
                state.phase = RecoveryPhaseV2::Delay;
                Ok(RecoveryActionV2::Wait)
            }
        },
        (RecoveryPhaseV2::IssueCancel, RecoveryEventV2::CancelIssued(certificate)) => {
            state.cancel_certificate = Some(certificate);
            if state.routes.len() > 0 {
                state.phase = RecoveryPhaseV2::Cancel { next: 0 };
                Ok(RecoveryActionV2::SendCancel { route: 0 })
            } else {
                state.phase = RecoveryPhaseV2::Failed;
                Err(RecoveryRunErrorV2::CancelNotStored)
            }
        },
        (RecoveryPhaseV2::Cancel { next }, RecoveryEventV2::CancelAcked(answer)) => {
            let n = state.routes.len();
            if let Some(ack) = answer {
                let valid = match (&state.cancel_certificate, &state.request) {
                    (Some(certificate), Some(request)) => validate_owner_cancel_ack(
                        &ack,
                        certificate,
                        request,
                        &state.routes[next],
                    ).is_ok(),
                    _ => false,
                };
                if valid && !holds(&state.cancel_acks, ack.guardian_index) {
                    proof {
                        lemma_push_distinct(state.cancel_acks@, state.routes@, next as int, ack.guardian_index);
                    }
                    state.cancel_acks.push(ack.guardian_index);
                }
            }
            let quorum: usize = match &state.capsule {
                Some(c) => (c.guardian_count - c.guardian_threshold) as usize + 1,
                None => 0,
            };
            if next + 1 < state.routes.len() {
                state.phase = RecoveryPhaseV2::Cancel { next: next + 1 };
                Ok(RecoveryActionV2::SendCancel { route: next + 1 })
            } else if state.cancel_acks.len() >= quorum {
                state.phase = RecoveryPhaseV2::RaceDelay;
                Ok(RecoveryActionV2::Wait)
            } else {
                state.phase = RecoveryPhaseV2::Failed;
                Err(RecoveryRunErrorV2::CancelNotStored)
            }
        },
        (RecoveryPhaseV2::RaceDelay, RecoveryEventV2::DelayElapsed) => {
            if state.routes.len() > 0 {
                state.phase = RecoveryPhaseV2::RaceCheck { next: 0 };
                Ok(RecoveryActionV2::SendRaceRelease { route: 0 })
            } else {
                state.phase = RecoveryPhaseV2::Failed;
                Err(RecoveryRunErrorV2::NoCancelRefusal)
            }
        },
        (RecoveryPhaseV2::RaceCheck { next }, RecoveryEventV2::RaceAnswered(answer)) => {
            let n = state.routes.len();
            match answer {
                RaceAnswer::Released => {
                    state.phase = RecoveryPhaseV2::Failed;
                    Err(RecoveryRunErrorV2::CancelledGuardianReleased)
                },
                RaceAnswer::RefusedCancelled => {
                    state.phase = RecoveryPhaseV2::Cancelled;
                    Ok(RecoveryActionV2::ReportCancelled)
                },
                RaceAnswer::Other => if next + 1 < state.routes.len() {
                    state.phase = RecoveryPhaseV2::RaceCheck { next: next + 1 };
                    Ok(RecoveryActionV2::SendRaceRelease { route: next + 1 })
                } else {
                    state.phase = RecoveryPhaseV2::Failed;
                    Err(RecoveryRunErrorV2::NoCancelRefusal)
                },
            }
        },
        (RecoveryPhaseV2::Delay, RecoveryEventV2::DelayElapsed) => {
            if state.signer_count > 0 {
                state.phase = RecoveryPhaseV2::Release { next: 0 };
                Ok(RecoveryActionV2::AskSignerRelease { signer: 0 })
            } else {
                state.phase = RecoveryPhaseV2::Failed;
                Err(RecoveryRunErrorV2::SignerThresholdNotReached)
            }
        },
        (RecoveryPhaseV2::Collect { next }, RecoveryEventV2::GuardianReleased(answer)) => {
            let n = state.routes.len();
            let index = state.routes[next].guardian_index;
            let valid = match (&answer, &state.request) {
                (Some(c), Some(request)) => validate_guardian_contribution(c, &state.routes[next], request).is_ok(),
                _ => false,
            };
            if valid && !holds(&state.counted, index) {
                proof {
                    lemma_push_distinct(state.counted@, state.routes@, next as int, index);
                }
                state.counted.push(index);
            } else {
                state.rejected.push(index);
            }
            let threshold: usize = match &state.capsule {
                Some(c) => c.guardian_threshold as usize,
                None => 0,
            };
            if state.counted.len() >= threshold {
                state.phase = RecoveryPhaseV2::Reconstruct;
                Ok(RecoveryActionV2::Reconstruct)
            } else if next + 1 < state.routes.len() {
                state.phase = RecoveryPhaseV2::Collect { next: next + 1 };
                Ok(RecoveryActionV2::SendRelease { route: next + 1 })
            } else {
                state.phase = RecoveryPhaseV2::Failed;
                Err(RecoveryRunErrorV2::GuardianThresholdNotReached)
            }
        },
        _ => Err(RecoveryRunErrorV2::OutOfTurn),
    }
}

/// A protocol-v2 run reconstructs only after a capsule matching the card,
/// a request for its configuration, and contributions validated for their
/// routes from exactly the capsule's guardian threshold of distinct
/// guardians; it reports a cancellation only after more guardians than
/// could release without one acknowledged the owner's cancellation.
pub proof fn lemma_v2_run_ends_only_on_thresholds(s: RecoveryClientV2)
    requires
        recovery_client_v2_wf(s),
    ensures
        s.phase == RecoveryPhaseV2::Reconstruct ==> (s.capsule matches Some(c) && capsule_ok(s.card, c) && (
        s.request matches Some(q) && q.config_id == c.config_id && q.config_version == c.config_version)
            && s.counted@.len() == c.guardian_threshold && distinct_route_ids(s.counted@, s.routes@)),
        s.phase == RecoveryPhaseV2::Cancelled ==> (s.capsule matches Some(c) && s.cancel_acks@.len()
            >= c.guardian_count - c.guardian_threshold + 1 && distinct_route_ids(s.cancel_acks@, s.routes@)),
{
}

/// What a finished protocol-v2 run reports. After Reconstruct: the
/// configuration and request ids in hexadecimal, the secret the caller
/// reconstructed, the signer threshold, exactly the guardian threshold of
/// counted contributions, the rejected guardians, and no cancellation.
/// After a cancelled race: no secret, no guardian contribution, no
/// rejected guardian, and the cancellation.
pub fn recovery_result_v2(state: &RecoveryClientV2, recovered_secret: Option<String>) -> (r: NetworkDemoResult)
    requires
        recovery_client_v2_wf(*state),
        state.phase == RecoveryPhaseV2::Reconstruct || state.phase == RecoveryPhaseV2::Cancelled,
    ensures
        ({
            let c = state.capsule.unwrap();
            let q = state.request.unwrap();
            &&& r.config_id@ == hex_lower(c.config_id@)
            &&& r.request_id@ == hex_lower(q.request_id@)
            &&& r.signer_contributions == c.signer_threshold
            &&& if state.phase == RecoveryPhaseV2::Reconstruct {
                &&& r.recovered_secret == recovered_secret
                &&& r.guardian_contributions == c.guardian_threshold
                &&& r.rejected_guardians@ == state.rejected@
                &&& !r.cancelled
            } else {
                &&& r.recovered_secret is None
                &&& r.guardian_contributions == 0
                &&& r.rejected_guardians@.len() == 0
                &&& r.cancelled
            }
        }),
{
    let (config_id, signer_threshold) = match &state.capsule {
        Some(c) => (hex_encode(c.config_id.as_slice()), c.signer_threshold as usize),
        None => (String::new(), 0),
    };
    let request_id = match &state.request {
        Some(q) => hex_encode(q.request_id.as_slice()),
        None => String::new(),
    };
    if matches!(state.phase, RecoveryPhaseV2::Reconstruct) {
        NetworkDemoResult {
            config_id,
            request_id,
            recovered_secret,
            signer_contributions: signer_threshold,
            guardian_contributions: state.counted.len(),
            rejected_guardians: copy_u16s(&state.rejected),
            cancelled: false,
        }
    } else {
        NetworkDemoResult {
            config_id,
            request_id,
            recovered_secret: None,
            signer_contributions: signer_threshold,
            guardian_contributions: 0,
            rejected_guardians: Vec::new(),
            cancelled: true,
        }
    }
}

} // verus!
