//! The recovering client's protocol-v3 run as a state machine. The caller
//! performs each action (a mailbox exchange, opening the descriptor with the
//! reconstructed authorization key, waiting) and hands the outcome back as
//! the next event; the decisions of the run are made here.
use vstd::prelude::*;

use crate::client_recovery::{
    admit_guardian_contribution, admit_signer_answer, collection_after, counted_from_routes_before,
    in_descriptor, lemma_counted_shares_are_distinct_guardians,
    new_guardian_collection, ClientRecoveryError, CountedShare, GuardianCollection,
    GuardianRecoveryContributionV3,
};
use crate::descriptor::{
    guardian_indices_distinct, recovery_descriptor_outcome, validate_recovery_descriptor_v3, DescriptorError,
    RecoveryDescriptorV3,
};
use crate::bytes::{copy_u16s, Id32};
use crate::node::NetworkDemoResult;
use crate::text::{hex_encode, hex_lower};
use crate::client_recovery::{fresh_request, new_recovery_request_v3};
use crate::epoch::{latest_epoch_choice, select_latest_epoch_v3, EpochError};
use crate::model::{same_capsule, ConfigCapsuleV3, EpochReadChallenge, RecoveryCardV3, WitnessReadEnvelope};
use crate::recovery::{
    begin_certificate_outcome, clone_request, release_certificate_outcome, same_request,
    validate_begin_recovery_certificate_v3, validate_recovery_release_certificate_for_ref_v3,
    BeginRecoveryCertificateV3, RecoveryError, RecoveryReleaseCertificateV3, RecoveryRequestV3,
    SignerRecoveryApprovalV3,
};
use crate::epoch::saturating_add;

verus! {

/// Where a protocol-v3 recovery run stands.
#[derive(Clone, Copy, Debug, PartialEq, Eq)]
pub enum RecoveryPhaseV3 {
    /// Waiting for card signer `next`'s answer to Approve.
    Approve { next: usize },
    /// The Begin certificate is formed; waiting for the descriptor it
    /// unlocks.
    OpenDescriptor,
    /// Waiting for descriptor route `next`'s answer to Begin.
    Begin { next: usize },
    /// Waiting out the guardians' delay.
    Delay,
    /// Waiting for card signer `next`'s answer to Release.
    Release { next: usize },
    /// Waiting for descriptor route `next`'s answer to Release.
    Collect { next: usize },
    /// A guardian threshold of contributions is counted.
    Reconstruct,
    /// The run stopped on an error.
    Failed,
}

/// What the client holds during a protocol-v3 recovery.
#[derive(Clone, Debug)]
pub struct RecoveryClientV3 {
    /// The witness-authenticated capsule of the selected epoch.
    pub capsule: ConfigCapsuleV3,
    pub request: RecoveryRequestV3,
    /// How many signer mailboxes the Recovery Card lists.
    pub signer_count: usize,
    pub phase: RecoveryPhaseV3,
    /// Signer answers of the current signer round.
    pub answers: Vec<SignerRecoveryApprovalV3>,
    pub begin: Option<BeginRecoveryCertificateV3>,
    pub descriptor: Option<RecoveryDescriptorV3>,
    /// Guardians that accepted Begin.
    pub begin_accepted: usize,
    pub release: Option<RecoveryReleaseCertificateV3>,
    pub collection: GuardianCollection,
}

/// An outcome the caller hands back.
#[derive(Clone, Debug)]
pub enum RecoveryEventV3 {
    /// The asked signer's approval, or `None` when it gave none.
    SignerApproval(Option<SignerRecoveryApprovalV3>),
    /// The descriptor opened with the reconstructed authorization key.
    DescriptorOpened(RecoveryDescriptorV3),
    /// Whether the asked guardian accepted Begin.
    GuardianBegin(bool),
    /// The delay has passed.
    DelayElapsed,
    /// The asked signer's Release vote, or `None` when it gave none.
    SignerReleaseVote(Option<SignerRecoveryApprovalV3>),
    /// The asked guardian's contribution, or `None` when it gave none.
    GuardianRelease(Option<GuardianRecoveryContributionV3>),
}

/// What the caller does next.
#[derive(Clone, Debug, PartialEq, Eq)]
pub enum RecoveryActionV3 {
    /// Send Approve for the request to the card's `signer`-th mailbox.
    AskSignerApproval { signer: usize },
    /// Reconstruct the authorization key from the Begin certificate's
    /// shares and open the capsule's descriptor.
    OpenDescriptor,
    /// Send the Begin certificate to the descriptor's `route`-th guardian.
    SendBegin { route: usize },
    /// Sleep `seconds` real seconds.
    Wait { seconds: u64 },
    /// Send Release for the request to the card's `signer`-th mailbox.
    AskSignerRelease { signer: usize },
    /// Send the Release certificate to the descriptor's `route`-th guardian.
    SendRelease { route: usize },
    /// Reconstruct the secret from the counted shares and fragments.
    Reconstruct,
}

/// Why a recovery run stopped.
#[derive(Clone, Copy, Debug, PartialEq, Eq)]
pub enum RecoveryRunError {
    Client(ClientRecoveryError),
    /// The Begin or Release certificate the client formed is refused.
    Certificate(RecoveryError),
    /// The opened descriptor does not match the capsule.
    Descriptor(DescriptorError),
    /// The event does not answer the pending action.
    OutOfTurn,
}

/// `c` is the Begin certificate of `request` carrying `answers`.
pub open spec fn begin_formed(
    c: BeginRecoveryCertificateV3,
    request: RecoveryRequestV3,
    answers: Seq<SignerRecoveryApprovalV3>,
) -> bool {
    &&& same_request(c.request, request)
    &&& c.request_digest == request.digest
    &&& c.signer_contributions@ == answers
    &&& c.canonical
}

/// `c` is the Release certificate of `request` carrying `answers`.
pub open spec fn release_formed(
    c: RecoveryReleaseCertificateV3,
    request: RecoveryRequestV3,
    answers: Seq<SignerRecoveryApprovalV3>,
) -> bool {
    &&& same_request(c.request, request)
    &&& c.request_digest == request.digest
    &&& c.votes@ == answers
    &&& c.canonical
}

/// The descriptor's routes, or none before it is opened.
pub open spec fn route_count(s: RecoveryClientV3) -> int {
    match s.descriptor {
        Some(d) => d.guardians@.len() as int,
        None => 0,
    }
}

/// The invariant of a run: the request is for the capsule's exact epoch,
/// each phase holds what it needs, a certificate is formed only from a
/// signer threshold of answers, and counted shares come from distinct
/// routes of the descriptor, asked in order.
pub open spec fn recovery_client_v3_wf(s: RecoveryClientV3) -> bool {
    &&& s.request.config_ref == s.capsule.config_ref
    &&& (s.begin matches Some(b) ==> begin_formed(b, s.request, b.signer_contributions@)
        && b.signer_contributions@.len() == s.capsule.signer_threshold && s.capsule.signer_threshold > 0)
    &&& (s.release matches Some(c) ==> release_formed(c, s.request, c.votes@) && c.votes@.len()
        == s.capsule.signer_threshold)
    &&& (s.descriptor matches Some(d) ==> recovery_descriptor_outcome(d, s.capsule) is Ok
        && guardian_indices_distinct(d.guardians@))
    &&& (s.release is None ==> s.collection.counted@.len() == 0)
    &&& match s.phase {
        RecoveryPhaseV3::Approve { next } => next < s.signer_count && s.begin is None && s.descriptor is None
            && s.release is None && s.begin_accepted == 0 && s.answers@.len() < s.capsule.signer_threshold,
        RecoveryPhaseV3::OpenDescriptor => s.begin is Some && s.descriptor is None && s.release is None
            && s.begin_accepted == 0 && s.answers@.len() == 0,
        RecoveryPhaseV3::Begin { next } => s.begin is Some && s.descriptor is Some && s.release is None && next
            < route_count(s) && s.begin_accepted <= next && s.answers@.len() == 0,
        RecoveryPhaseV3::Delay => s.begin is Some && s.descriptor is Some && s.release is None && s.answers@.len()
            == 0,
        RecoveryPhaseV3::Release { next } => s.begin is Some && s.descriptor is Some && s.release is None
            && next < s.signer_count && s.answers@.len() < s.capsule.signer_threshold,
        RecoveryPhaseV3::Collect { next } => s.begin is Some && s.release is Some && (s.descriptor matches Some(
            d,
        ) && next < d.guardians@.len() && counted_from_routes_before(s.collection.counted@, d, next as int)) && (
        s.collection.counted@.len() < s.capsule.guardian_threshold || s.collection.counted@.len() == 0),
        RecoveryPhaseV3::Reconstruct => s.begin is Some && s.release is Some && (s.descriptor matches Some(d)
            && exists|k: int| #[trigger] counted_from_routes_before(s.collection.counted@, d, k)) && (
        s.collection.counted@.len() == s.capsule.guardian_threshold || (s.capsule.guardian_threshold == 0
            && s.collection.counted@.len() <= 1)),
        RecoveryPhaseV3::Failed => true,
    }
}

/// `new` is `old` with only the phase changed.
pub open spec fn only_phase(old: RecoveryClientV3, new: RecoveryClientV3) -> bool {
    &&& new.capsule == old.capsule
    &&& new.request == old.request
    &&& new.signer_count == old.signer_count
    &&& new.answers == old.answers
    &&& new.begin == old.begin
    &&& new.descriptor == old.descriptor
    &&& new.begin_accepted == old.begin_accepted
    &&& new.release == old.release
    &&& new.collection == old.collection
}

/// After a signer round's answer at `next` holding `count` answers: the
/// next signer is asked, or the round fails short of the threshold.
pub open spec fn signer_round_continues(
    old: RecoveryClientV3,
    new: RecoveryClientV3,
    next: usize,
    release: bool,
    r: Result<RecoveryActionV3, RecoveryRunError>,
) -> bool {
    if next + 1 < old.signer_count {
        &&& new.phase == (if release {
            RecoveryPhaseV3::Release { next: (next + 1) as usize }
        } else {
            RecoveryPhaseV3::Approve { next: (next + 1) as usize }
        })
        &&& r == Ok::<RecoveryActionV3, RecoveryRunError>(
            if release {
                RecoveryActionV3::AskSignerRelease { signer: (next + 1) as usize }
            } else {
                RecoveryActionV3::AskSignerApproval { signer: (next + 1) as usize }
            },
        )
    } else {
        &&& new.phase == RecoveryPhaseV3::Failed
        &&& r == Err::<RecoveryActionV3, RecoveryRunError>(
            RecoveryRunError::Client(ClientRecoveryError::SignerThresholdNotReached),
        )
    }
}

/// The answers of a signer round after `answer`.
pub open spec fn answers_after(
    answers: Seq<SignerRecoveryApprovalV3>,
    answer: Option<SignerRecoveryApprovalV3>,
) -> Seq<SignerRecoveryApprovalV3> {
    match answer {
        Some(a) => answers.push(a),
        None => answers,
    }
}

/// One step of the run from `old` to `new` on `event` at wall time `now`,
/// answering `r`.
pub open spec fn recovery_v3_transition(
    old: RecoveryClientV3,
    new: RecoveryClientV3,
    event: RecoveryEventV3,
    now: u64,
    r: Result<RecoveryActionV3, RecoveryRunError>,
) -> bool {
    let threshold = old.capsule.signer_threshold;
    match (old.phase, event) {
        (RecoveryPhaseV3::Approve { next }, RecoveryEventV3::SignerApproval(answer)) => {
            let answers = answers_after(old.answers@, answer);
            &&& new.capsule == old.capsule
            &&& new.request == old.request
            &&& new.signer_count == old.signer_count
            &&& new.descriptor == old.descriptor
            &&& new.begin_accepted == old.begin_accepted
            &&& new.release == old.release
            &&& new.collection == old.collection
            &&& if answers.len() >= threshold {
                &&& new.answers@.len() == 0
                &&& new.begin matches Some(b) && begin_formed(b, old.request, answers) && match begin_certificate_outcome(
                    b,
                    old.capsule,
                    now,
                ) {
                    Ok(_) => new.phase == RecoveryPhaseV3::OpenDescriptor && r == Ok::<
                        RecoveryActionV3,
                        RecoveryRunError,
                    >(RecoveryActionV3::OpenDescriptor),
                    Err(e) => new.phase == RecoveryPhaseV3::Failed && r == Err::<
                        RecoveryActionV3,
                        RecoveryRunError,
                    >(RecoveryRunError::Certificate(e)),
                }
            } else {
                &&& new.answers@ == answers
                &&& new.begin == old.begin
                &&& signer_round_continues(old, new, next, false, r)
            }
        },
        (RecoveryPhaseV3::OpenDescriptor, RecoveryEventV3::DescriptorOpened(d)) => {
            &&& new.capsule == old.capsule
            &&& new.request == old.request
            &&& new.signer_count == old.signer_count
            &&& new.answers == old.answers
            &&& new.begin == old.begin
            &&& new.begin_accepted == old.begin_accepted
            &&& new.release == old.release
            &&& new.collection == old.collection
            &&& match recovery_descriptor_outcome(d, old.capsule) {
                Err(e) => new.descriptor == old.descriptor && new.phase == RecoveryPhaseV3::Failed && r == Err::<
                    RecoveryActionV3,
                    RecoveryRunError,
                >(RecoveryRunError::Descriptor(e)),
                Ok(_) => new.descriptor == Some(d) && if d.guardians@.len() > 0 {
                    new.phase == RecoveryPhaseV3::Begin { next: 0 } && r == Ok::<
                        RecoveryActionV3,
                        RecoveryRunError,
                    >(RecoveryActionV3::SendBegin { route: 0 })
                } else {
                    new.phase == RecoveryPhaseV3::Failed && r == Err::<RecoveryActionV3, RecoveryRunError>(
                        RecoveryRunError::Client(ClientRecoveryError::GuardianBeginThresholdNotReached),
                    )
                },
            }
        },
        (RecoveryPhaseV3::Begin { next }, RecoveryEventV3::GuardianBegin(accepted)) => {
            let count = if accepted {
                old.begin_accepted + 1
            } else {
                old.begin_accepted as int
            };
            &&& new.capsule == old.capsule
            &&& new.request == old.request
            &&& new.signer_count == old.signer_count
            &&& new.answers == old.answers
            &&& new.begin == old.begin
            &&& new.descriptor == old.descriptor
            &&& new.release == old.release
            &&& new.collection == old.collection
            &&& new.begin_accepted == count
            &&& if next + 1 < route_count(old) {
                new.phase == RecoveryPhaseV3::Begin { next: (next + 1) as usize } && r == Ok::<
                    RecoveryActionV3,
                    RecoveryRunError,
                >(RecoveryActionV3::SendBegin { route: (next + 1) as usize })
            } else if count >= old.capsule.guardian_threshold {
                new.phase == RecoveryPhaseV3::Delay && r == Ok::<RecoveryActionV3, RecoveryRunError>(
                    RecoveryActionV3::Wait {
                        seconds: saturating_add(old.capsule.minimum_recovery_delay, 1) as u64,
                    },
                )
            } else {
                new.phase == RecoveryPhaseV3::Failed && r == Err::<RecoveryActionV3, RecoveryRunError>(
                    RecoveryRunError::Client(ClientRecoveryError::GuardianBeginThresholdNotReached),
                )
            }
        },
        (RecoveryPhaseV3::Delay, RecoveryEventV3::DelayElapsed) => {
            &&& only_phase(old, new)
            &&& if old.signer_count > 0 {
                new.phase == RecoveryPhaseV3::Release { next: 0 } && r == Ok::<
                    RecoveryActionV3,
                    RecoveryRunError,
                >(RecoveryActionV3::AskSignerRelease { signer: 0 })
            } else {
                new.phase == RecoveryPhaseV3::Failed && r == Err::<RecoveryActionV3, RecoveryRunError>(
                    RecoveryRunError::Client(ClientRecoveryError::SignerThresholdNotReached),
                )
            }
        },
        (RecoveryPhaseV3::Release { next }, RecoveryEventV3::SignerReleaseVote(answer)) => {
            let answers = answers_after(old.answers@, answer);
            &&& new.capsule == old.capsule
            &&& new.request == old.request
            &&& new.signer_count == old.signer_count
            &&& new.begin == old.begin
            &&& new.descriptor == old.descriptor
            &&& new.begin_accepted == old.begin_accepted
            &&& new.collection == old.collection
            &&& if answers.len() >= threshold {
                &&& new.answers@.len() == 0
                &&& new.release matches Some(c) && release_formed(c, old.request, answers)
                    && match release_certificate_outcome(c, old.capsule, old.capsule.config_ref, now) {
                    Ok(_) => if route_count(old) > 0 {
                        new.phase == RecoveryPhaseV3::Collect { next: 0 } && r == Ok::<
                            RecoveryActionV3,
                            RecoveryRunError,
                        >(RecoveryActionV3::SendRelease { route: 0 })
                    } else {
                        new.phase == RecoveryPhaseV3::Failed && r == Err::<RecoveryActionV3, RecoveryRunError>(
                            RecoveryRunError::Client(ClientRecoveryError::GuardianThresholdNotReached),
                        )
                    },
                    Err(e) => new.phase == RecoveryPhaseV3::Failed && r == Err::<
                        RecoveryActionV3,
                        RecoveryRunError,
                    >(RecoveryRunError::Certificate(e)),
                }
            } else {
                &&& new.answers@ == answers
                &&& new.release == old.release
                &&& signer_round_continues(old, new, next, true, r)
            }
        },
        (RecoveryPhaseV3::Collect { next }, RecoveryEventV3::GuardianRelease(answer)) => {
            let d = old.descriptor.unwrap();
            let after = collection_after(old.collection, next as int, answer, d, old.request);
            &&& new.capsule == old.capsule
            &&& new.request == old.request
            &&& new.signer_count == old.signer_count
            &&& new.answers == old.answers
            &&& new.begin == old.begin
            &&& new.descriptor == old.descriptor
            &&& new.begin_accepted == old.begin_accepted
            &&& new.release == old.release
            &&& (new.collection.counted@, new.collection.rejected@) == after
            &&& if after.0.len() >= old.capsule.guardian_threshold {
                new.phase == RecoveryPhaseV3::Reconstruct && r == Ok::<RecoveryActionV3, RecoveryRunError>(
                    RecoveryActionV3::Reconstruct,
                )
            } else if next + 1 < d.guardians@.len() {
                new.phase == RecoveryPhaseV3::Collect { next: (next + 1) as usize } && r == Ok::<
                    RecoveryActionV3,
                    RecoveryRunError,
                >(RecoveryActionV3::SendRelease { route: (next + 1) as usize })
            } else {
                new.phase == RecoveryPhaseV3::Failed && r == Err::<RecoveryActionV3, RecoveryRunError>(
                    RecoveryRunError::Client(ClientRecoveryError::GuardianThresholdNotReached),
                )
            }
        },
        _ => only_phase(old, new) && new.phase == old.phase && r == Err::<RecoveryActionV3, RecoveryRunError>(
            RecoveryRunError::OutOfTurn,
        ),
    }
}

/// Starts a run for `request` against the authenticated capsule of the
/// selected epoch and names the first action: asking the first card
/// signer, or failing where the card lists none.
pub fn start_recovery_client_v3(capsule: ConfigCapsuleV3, request: RecoveryRequestV3, signer_count: usize) -> (r: (
    RecoveryClientV3,
    Result<RecoveryActionV3, RecoveryRunError>,
))
    requires
        request.config_ref == capsule.config_ref,
    ensures
        recovery_client_v3_wf(r.0),
        r.0.capsule == capsule,
        r.0.request == request,
        r.0.signer_count == signer_count,
        r.0.answers@.len() == 0,
        r.0.begin is None,
        r.0.descriptor is None,
        r.0.release is None,
        r.0.collection.counted@.len() == 0,
        if signer_count > 0 && capsule.signer_threshold > 0 {
            r.0.phase == RecoveryPhaseV3::Approve { next: 0 } && r.1 == Ok::<RecoveryActionV3, RecoveryRunError>(
                RecoveryActionV3::AskSignerApproval { signer: 0 },
            )
        } else {
            r.0.phase == RecoveryPhaseV3::Failed && r.1 == Err::<RecoveryActionV3, RecoveryRunError>(
                RecoveryRunError::Client(ClientRecoveryError::SignerThresholdNotReached),
            )
        },
{
    let ok = signer_count > 0 && capsule.signer_threshold > 0;
    let s = RecoveryClientV3 {
        capsule,
        request,
        signer_count,
        phase: if ok {
            RecoveryPhaseV3::Approve { next: 0 }
        } else {
            RecoveryPhaseV3::Failed
        },
        answers: Vec::new(),
        begin: None,
        descriptor: None,
        begin_accepted: 0,
        release: None,
        collection: new_guardian_collection(),
    };
    if ok {
        (s, Ok(RecoveryActionV3::AskSignerApproval { signer: 0 }))
    } else {
        (s, Err(RecoveryRunError::Client(ClientRecoveryError::SignerThresholdNotReached)))
    }
}

/// Starts a recovery from the card and the witness read: selects the
/// capsule the read quorum authenticates (`select_latest_epoch_v3`),
/// issues the request for exactly that capsule's epoch, and starts the run
/// with the card's signers. A read that selects no capsule stops here with
/// its error. `digest` is the SHA-256 of the request's digest transcript.
pub fn start_recovery_from_read_v3(
    card: &RecoveryCardV3,
    challenge: &EpochReadChallenge,
    reads: &[WitnessReadEnvelope],
    request_id: Id32,
    recovery_recipient_key: Vec<u8>,
    nonce: Id32,
    now: u64,
    digest: Id32,
) -> (r: Result<(RecoveryClientV3, Result<RecoveryActionV3, RecoveryRunError>), EpochError>)
    ensures
        match latest_epoch_choice(*card, *challenge, reads@) {
            Err(e) => r == Err::<(RecoveryClientV3, Result<RecoveryActionV3, RecoveryRunError>), EpochError>(e),
            Ok(i) => r matches Ok((s, first)) && same_capsule(s.capsule, reads@[i].capsule) && fresh_request(
                s.request,
                s.capsule,
                request_id,
                recovery_recipient_key@,
                nonce,
                now,
                digest,
            ) && s.signer_count == card.signer_mailboxes@.len() && recovery_client_v3_wf(s) && s.begin is None
                && s.descriptor is None && s.release is None && if card.signer_mailboxes@.len() > 0
                && s.capsule.signer_threshold > 0 {
                s.phase == RecoveryPhaseV3::Approve { next: 0 } && first == Ok::<RecoveryActionV3, RecoveryRunError>(
                    RecoveryActionV3::AskSignerApproval { signer: 0 },
                )
            } else {
                s.phase == RecoveryPhaseV3::Failed
            },
        },
{
    let capsule = select_latest_epoch_v3(card, challenge, reads)?;
    let request = new_recovery_request_v3(&capsule, request_id, recovery_recipient_key, nonce, now, digest);
    Ok(start_recovery_client_v3(capsule, request, card.signer_mailboxes.len()))
}

/// Takes the outcome of the pending action and names the next one. The
/// client forms the Begin certificate only from a signer threshold of
/// approvals and stops if the guardians of the epoch would refuse it;
/// sends Begin to every descriptor route and waits only when a guardian
/// threshold accepted; forms the Release certificate the same way; and
/// counts a contribution only when `validate_guardian_contribution_v3`
/// accepts it, stopping at the guardian threshold.
pub fn recovery_client_step_v3(state: &mut RecoveryClientV3, event: RecoveryEventV3, now: u64) -> (r: Result<
    RecoveryActionV3,
    RecoveryRunError,
>)
    requires
        recovery_client_v3_wf(*old(state)),
    ensures
        recovery_client_v3_wf(*final(state)),
        recovery_v3_transition(*old(state), *final(state), event, now, r),
{
    match (state.phase, event) {
        (RecoveryPhaseV3::Approve { next }, RecoveryEventV3::SignerApproval(answer)) => {
            let reached = admit_signer_answer(&mut state.answers, answer, &state.capsule);
            if reached {
                let mut answers: Vec<SignerRecoveryApprovalV3> = Vec::new();
                std::mem::swap(&mut answers, &mut state.answers);
                let certificate = BeginRecoveryCertificateV3 {
                    request: clone_request(&state.request),
                    request_digest: state.request.digest,
                    signer_contributions: answers,
                    canonical: true,
                };
                let outcome = validate_begin_recovery_certificate_v3(&certificate, &state.capsule, now);
                state.begin = Some(certificate);
                match outcome {
                    Ok(_) => {
                        state.phase = RecoveryPhaseV3::OpenDescriptor;
                        Ok(RecoveryActionV3::OpenDescriptor)
                    },
                    Err(e) => {
                        state.phase = RecoveryPhaseV3::Failed;
                        Err(RecoveryRunError::Certificate(e))
                    },
                }
            } else if next + 1 < state.signer_count {
                state.phase = RecoveryPhaseV3::Approve { next: next + 1 };
                Ok(RecoveryActionV3::AskSignerApproval { signer: next + 1 })
            } else {
                state.phase = RecoveryPhaseV3::Failed;
                Err(RecoveryRunError::Client(ClientRecoveryError::SignerThresholdNotReached))
            }
        },
        (RecoveryPhaseV3::OpenDescriptor, RecoveryEventV3::DescriptorOpened(d)) => {
            match validate_recovery_descriptor_v3(&d, &state.capsule) {
                Err(e) => {
                    state.phase = RecoveryPhaseV3::Failed;
                    Err(RecoveryRunError::Descriptor(e))
                },
                Ok(()) => {
                    let routes = d.guardians.len();
                    state.descriptor = Some(d);
                    if routes > 0 {
                        state.phase = RecoveryPhaseV3::Begin { next: 0 };
                        Ok(RecoveryActionV3::SendBegin { route: 0 })
                    } else {
                        state.phase = RecoveryPhaseV3::Failed;
                        Err(RecoveryRunError::Client(ClientRecoveryError::GuardianBeginThresholdNotReached))
                    }
                },
            }
        },
        (RecoveryPhaseV3::Begin { next }, RecoveryEventV3::GuardianBegin(accepted)) => {
            if accepted {
                state.begin_accepted = state.begin_accepted + 1;
            }
            let routes = match &state.descriptor {
                Some(d) => d.guardians.len(),
                None => 0,
            };
            if next + 1 < routes {
                state.phase = RecoveryPhaseV3::Begin { next: next + 1 };
                Ok(RecoveryActionV3::SendBegin { route: next + 1 })
            } else if state.begin_accepted >= state.capsule.guardian_threshold as usize {
                state.phase = RecoveryPhaseV3::Delay;
                Ok(RecoveryActionV3::Wait { seconds: state.capsule.minimum_recovery_delay.saturating_add(1) })
            } else {
                state.phase = RecoveryPhaseV3::Failed;
                Err(RecoveryRunError::Client(ClientRecoveryError::GuardianBeginThresholdNotReached))
            }
        },
        (RecoveryPhaseV3::Delay, RecoveryEventV3::DelayElapsed) => {
            if state.signer_count > 0 {
                state.phase = RecoveryPhaseV3::Release { next: 0 };
                Ok(RecoveryActionV3::AskSignerRelease { signer: 0 })
            } else {
                state.phase = RecoveryPhaseV3::Failed;
                Err(RecoveryRunError::Client(ClientRecoveryError::SignerThresholdNotReached))
            }
        },
        (RecoveryPhaseV3::Release { next }, RecoveryEventV3::SignerReleaseVote(answer)) => {
            let reached = admit_signer_answer(&mut state.answers, answer, &state.capsule);
            if reached {
                let mut answers: Vec<SignerRecoveryApprovalV3> = Vec::new();
                std::mem::swap(&mut answers, &mut state.answers);
                let certificate = RecoveryReleaseCertificateV3 {
                    request: clone_request(&state.request),
                    request_digest: state.request.digest,
                    votes: answers,
                    canonical: true,
                };
                let outcome = validate_recovery_release_certificate_for_ref_v3(
                    &certificate,
                    &state.capsule,
                    &state.capsule.config_ref,
                    now,
                );
                state.release = Some(certificate);
                let routes = match &state.descriptor {
                    Some(d) => d.guardians.len(),
                    None => 0,
                };
                match outcome {
                    Ok(_) => if routes > 0 {
                        state.phase = RecoveryPhaseV3::Collect { next: 0 };
                        Ok(RecoveryActionV3::SendRelease { route: 0 })
                    } else {
                        state.phase = RecoveryPhaseV3::Failed;
                        Err(RecoveryRunError::Client(ClientRecoveryError::GuardianThresholdNotReached))
                    },
                    Err(e) => {
                        state.phase = RecoveryPhaseV3::Failed;
                        Err(RecoveryRunError::Certificate(e))
                    },
                }
            } else if next + 1 < state.signer_count {
                state.phase = RecoveryPhaseV3::Release { next: next + 1 };
                Ok(RecoveryActionV3::AskSignerRelease { signer: next + 1 })
            } else {
                state.phase = RecoveryPhaseV3::Failed;
                Err(RecoveryRunError::Client(ClientRecoveryError::SignerThresholdNotReached))
            }
        },
        (RecoveryPhaseV3::Collect { next }, RecoveryEventV3::GuardianRelease(answer)) => {
            let d = match &state.descriptor {
                Some(d) => d,
                None => {
                    return Err(RecoveryRunError::OutOfTurn);
                },
            };
            let (_, reached) = admit_guardian_contribution(
                &mut state.collection,
                d,
                next,
                answer,
                &state.capsule,
                &state.request,
            );
            if reached {
                assert(counted_from_routes_before(state.collection.counted@, *d, next + 1));
                state.phase = RecoveryPhaseV3::Reconstruct;
                Ok(RecoveryActionV3::Reconstruct)
            } else if next + 1 < d.guardians.len() {
                state.phase = RecoveryPhaseV3::Collect { next: next + 1 };
                Ok(RecoveryActionV3::SendRelease { route: next + 1 })
            } else {
                state.phase = RecoveryPhaseV3::Failed;
                Err(RecoveryRunError::Client(ClientRecoveryError::GuardianThresholdNotReached))
            }
        },
        _ => Err(RecoveryRunError::OutOfTurn),
    }
}

/// A run reaches Reconstruct only holding, for its own request on the
/// capsule's exact epoch, a Begin and a Release certificate of exactly the
/// signer threshold of answers each, and exactly the guardian threshold of
/// contributions (where that threshold is not zero) counted from distinct
/// guardians of the descriptor that matched the capsule.
pub proof fn lemma_reconstruct_needs_both_thresholds(s: RecoveryClientV3)
    requires
        recovery_client_v3_wf(s),
        s.phase == RecoveryPhaseV3::Reconstruct,
    ensures
        s.request.config_ref == s.capsule.config_ref,
        s.begin matches Some(b) && same_request(b.request, s.request) && b.signer_contributions@.len()
            == s.capsule.signer_threshold,
        s.release matches Some(c) && same_request(c.request, s.request) && c.votes@.len()
            == s.capsule.signer_threshold,
        s.descriptor matches Some(d) && recovery_descriptor_outcome(d, s.capsule) is Ok && (forall|i: int|
            0 <= i < s.collection.counted@.len() ==> in_descriptor(
                d,
                (#[trigger] s.collection.counted@[i]).guardian_index,
            )),
        forall|i: int, j: int|
            0 <= i < j < s.collection.counted@.len() ==> s.collection.counted@[i].guardian_index
                != s.collection.counted@[j].guardian_index,
        s.collection.counted@.len() >= s.capsule.guardian_threshold,
        s.capsule.guardian_threshold > 0 ==> s.collection.counted@.len() == s.capsule.guardian_threshold,
{
    let d = s.descriptor.unwrap();
    let k = choose|k: int| #[trigger] counted_from_routes_before(s.collection.counted@, d, k);
    lemma_counted_shares_are_distinct_guardians(s.collection.counted@, d, k);
}

/// What a run that reached Reconstruct reports: the configuration and
/// request ids in hexadecimal, the secret the caller reconstructed, the
/// signer threshold of contributions each certificate carried, the
/// contributions counted (exactly the guardian threshold, where it is not
/// zero), the guardians rejected on the way, and no cancellation.
pub fn recovery_result_v3(state: &RecoveryClientV3, recovered_secret: Option<String>) -> (r: NetworkDemoResult)
    requires
        recovery_client_v3_wf(*state),
        state.phase == RecoveryPhaseV3::Reconstruct,
    ensures
        r.config_id@ == hex_lower(state.capsule.config_ref.config_id@),
        r.request_id@ == hex_lower(state.request.request_id@),
        r.recovered_secret == recovered_secret,
        r.signer_contributions == state.capsule.signer_threshold,
        state.begin matches Some(b) && b.signer_contributions@.len() == r.signer_contributions,
        r.guardian_contributions == state.collection.counted@.len(),
        state.capsule.guardian_threshold > 0 ==> r.guardian_contributions == state.capsule.guardian_threshold,
        r.rejected_guardians@ == state.collection.rejected@,
        !r.cancelled,
{
    NetworkDemoResult {
        config_id: hex_encode(state.capsule.config_ref.config_id.as_slice()),
        request_id: hex_encode(state.request.request_id.as_slice()),
        recovered_secret,
        signer_contributions: state.capsule.signer_threshold as usize,
        guardian_contributions: state.collection.counted.len(),
        rejected_guardians: copy_u16s(&state.collection.rejected),
        cancelled: false,
    }
}

} // verus!
