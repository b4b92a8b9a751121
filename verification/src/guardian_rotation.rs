//! A guardian's rotation sessions: which plan it locks a rotation id to on
//! Begin, how an owner cancellation or a signer-threshold abort ends the
//! session for good, and what an old guardian acknowledges at handoff.
//! The DPSS rounds between Begin and handoff are run by the caller's
//! cryptographic layer.
use vstd::prelude::*;

use crate::bytes::{bytes_eq, id_eq, Id32};
use crate::epoch::saturating_add;
use crate::model::{
    config_ref_eq, context_eq, same_context, ConfigCapsuleV3, ConfigRef, RotationContext,
    PROTOCOL_VERSION_V3, XWING_PUBLIC_KEY_LEN,
};
use crate::rotation::{
    abort_rotation_outcome, begin_rotation_outcome, plan_outcome, validate_abort_rotation_certificate_v3,
    validate_begin_rotation_certificate_v3, validate_rotation_plan_v3, AbortRotationCertificate,
    BeginRotationCertificate, GuardianRouteV3, RotationError, RotationPlan, RotationState,
};
use crate::witness::OwnerRotationCancelCertificate;

verus! {

/// Why a guardian refused a rotation request.
#[derive(Debug, Clone, Copy, PartialEq, Eq)]
pub enum GuardianRotationError {
    /// Wrong version or configuration, not yet issued or expired, or a
    /// recipient key that is not an X-Wing key.
    MalformedContext,
    /// The plan or certificate was refused.
    Rotation(RotationError),
    /// This guardian's identity is absent from, or repeated in, the roster.
    NotParticipant,
    /// The plan gives this guardian a session key other than its own.
    SessionKeySubstituted,
    /// The rotation id was completed or cancelled and is refused for good.
    PermanentlyRejected,
    /// The rotation id is already locked to another plan or Begin.
    LockedToAnotherPlan,
    /// The owner cancellation does not bind the exact plan and owner key.
    CancelMismatch,
    /// The owner's signature does not verify.
    BadOwnerSignature,
    /// The rotation id already ended differently.
    ConflictingTerminalState,
    /// The guardian has neither an active record nor a successor route.
    NoGuardianIndex,
    /// The guardian never accepted Begin for this rotation.
    NoSession,
    /// The session is cancelled or was begun for another plan.
    SessionMismatch,
}

/// A rotation a guardian accepted Begin for.
#[derive(Clone, Copy, Debug)]
pub struct GuardianRotationSessionV3 {
    pub rotation_id: Id32,
    pub plan_hash: Id32,
    pub begin_certificate_hash: Id32,
    pub predecessor: ConfigRef,
    pub successor: ConfigRef,
    pub accepted_wall_time: u64,
    pub started_monotonic: u64,
    pub not_before_monotonic: u64,
    pub cancelled: bool,
}

/// How a rotation id ended.
#[derive(Clone, Copy, Debug)]
pub struct RotationTombstoneV3 {
    pub rotation_id: Id32,
    pub plan_hash: Id32,
    pub terminal_state: RotationState,
}

/// What a guardian holds for rotations of one configuration.
#[derive(Clone, Debug)]
pub struct GuardianRotationEntryV3 {
    /// The capsule of the epoch this guardian serves.
    pub predecessor_capsule: ConfigCapsuleV3,
    pub signing_public_key: Id32,
    /// The X-Wing public key of this guardian's identity.
    pub transport_public_key: Vec<u8>,
    /// The guardian index of the ACTIVE record, if any.
    pub active_guardian_index: Option<u16>,
    pub sessions: Vec<GuardianRotationSessionV3>,
    pub tombstones: Vec<RotationTombstoneV3>,
}

/// The requests whose decision a guardian makes here.
#[derive(Clone, Debug)]
pub enum GuardianRotationRequestV3 {
    Begin { plan: RotationPlan, certificate: BeginRotationCertificate },
    Cancel { plan: RotationPlan, certificate: OwnerRotationCancelCertificate },
    HandoffComplete { plan: RotationPlan, dpss_result_commitment: Id32 },
    Abort { plan: RotationPlan, certificate: AbortRotationCertificate },
}

impl GuardianRotationRequestV3 {
    /// The plan the request is about.
    pub open spec fn plan_of(self) -> RotationPlan {
        match self {
            GuardianRotationRequestV3::Begin { plan, .. } => plan,
            GuardianRotationRequestV3::Cancel { plan, .. } => plan,
            GuardianRotationRequestV3::HandoffComplete { plan, .. } => plan,
            GuardianRotationRequestV3::Abort { plan, .. } => plan,
        }
    }

    /// The rotation context every request carries in its plan.
    pub fn context(&self) -> (r: &RotationContext)
        ensures
            *r == self.plan_of().context,
    {
        match self {
            GuardianRotationRequestV3::Begin { plan, .. } => &plan.context,
            GuardianRotationRequestV3::Cancel { plan, .. } => &plan.context,
            GuardianRotationRequestV3::HandoffComplete { plan, .. } => &plan.context,
            GuardianRotationRequestV3::Abort { plan, .. } => &plan.context,
        }
    }
}

/// The key a guardian's answer to a rotation message is sealed to: the
/// owner's cancellation key for a cancellation, the context's recipient
/// key otherwise.
pub open spec fn rotation_response_key_of(request: GuardianRotationRequestV3) -> Seq<u8> {
    match request {
        GuardianRotationRequestV3::Cancel { certificate, .. } => certificate.cancel_response_recipient_key@,
        _ => request.plan_of().context.recipient_key@,
    }
}

/// The key a guardian seals its answer to a rotation message to.
pub fn rotation_response_recipient_key(request: &GuardianRotationRequestV3) -> (r: &Vec<u8>)
    ensures
        r@ == rotation_response_key_of(*request),
{
    match request {
        GuardianRotationRequestV3::Cancel { certificate, .. } => &certificate.cancel_response_recipient_key,
        _ => &request.context().recipient_key,
    }
}

/// What the guardian answers; signing is left to the caller.
#[derive(Clone, Copy, Debug)]
pub enum GuardianRotationDecisionV3 {
    /// Begin is accepted; preparation may start at this monotonic time.
    BeginAccepted { not_before_monotonic: u64 },
    /// Sign this acknowledgement of the owner's cancellation.
    Cancelled { plan_hash: Id32, cancel_certificate_hash: Id32, guardian_index: u16 },
    /// The abort is recorded.
    Aborted,
    /// Sign this old-guardian handoff acknowledgement.
    Handoff {
        plan_hash: Id32,
        dpss_result_commitment: Id32,
        qualified_set_commitment: Id32,
        old_guardian_index: u16,
    },
}

/// Sessions and tombstones are keyed by distinct rotation ids, and no
/// rotation id has both.
pub open spec fn rotation_entry_wf(entry: GuardianRotationEntryV3) -> bool {
    rotation_records_wf(entry.sessions@, entry.tombstones@)
}

/// Distinct rotation ids within and across sessions and tombstones.
pub open spec fn rotation_records_wf(s: Seq<GuardianRotationSessionV3>, t: Seq<RotationTombstoneV3>) -> bool {
    &&& forall|i: int, j: int|
        0 <= i < j < s.len() ==> (#[trigger] s[i]).rotation_id != (#[trigger] s[j]).rotation_id
    &&& forall|i: int, j: int|
        0 <= i < j < t.len() ==> (#[trigger] t[i]).rotation_id != (#[trigger] t[j]).rotation_id
    &&& forall|i: int, j: int|
        0 <= i < s.len() && 0 <= j < t.len() ==> (#[trigger] s[i]).rotation_id
            != (#[trigger] t[j]).rotation_id
}

/// Some session is for `id`.
pub open spec fn has_session(s: Seq<GuardianRotationSessionV3>, id: Id32) -> bool {
    exists|i: int| 0 <= i < s.len() && (#[trigger] s[i]).rotation_id == id
}

/// Position of the session for `id`.
pub open spec fn session_position(s: Seq<GuardianRotationSessionV3>, id: Id32) -> int {
    choose|i: int| 0 <= i < s.len() && (#[trigger] s[i]).rotation_id == id
}

/// The sessions without the one for `id`.
pub open spec fn sessions_without(s: Seq<GuardianRotationSessionV3>, id: Id32) -> Seq<
    GuardianRotationSessionV3,
> {
    if has_session(s, id) {
        s.remove(session_position(s, id))
    } else {
        s
    }
}

/// Some tombstone is for `id`.
pub open spec fn has_tombstone(t: Seq<RotationTombstoneV3>, id: Id32) -> bool {
    exists|i: int| 0 <= i < t.len() && (#[trigger] t[i]).rotation_id == id
}

/// The tombstone for `id`.
pub open spec fn tombstone_for(t: Seq<RotationTombstoneV3>, id: Id32) -> RotationTombstoneV3 {
    t[choose|i: int| 0 <= i < t.len() && (#[trigger] t[i]).rotation_id == id]
}

/// The tombstones once `id` is recorded as aborted under `plan_hash`.
pub open spec fn tombstones_with_abort(t: Seq<RotationTombstoneV3>, id: Id32, plan_hash: Id32) -> Seq<
    RotationTombstoneV3,
> {
    if has_tombstone(t, id) {
        t
    } else {
        t.push(RotationTombstoneV3 { rotation_id: id, plan_hash, terminal_state: RotationState::Aborted })
    }
}

/// Exactly one route of `roster` carries `key`.
pub open spec fn unique_route(roster: Seq<GuardianRouteV3>, key: Id32) -> bool {
    exists|i: int|
        0 <= i < roster.len() && (#[trigger] roster[i]).guardian_public_key == key && forall|j: int|
            0 <= j < roster.len() && (#[trigger] roster[j]).guardian_public_key == key ==> j == i
}

/// The route of `roster` that carries `key`.
pub open spec fn route_with_key(roster: Seq<GuardianRouteV3>, key: Id32) -> GuardianRouteV3 {
    roster[choose|i: int| 0 <= i < roster.len() && (#[trigger] roster[i]).guardian_public_key == key]
}

/// The guardian is a unique member of the old or the new roster.
pub open spec fn participates(entry: GuardianRotationEntryV3, plan: RotationPlan) -> bool {
    unique_route(plan.old_roster@, entry.signing_public_key) || unique_route(
        plan.new_roster@,
        entry.signing_public_key,
    )
}

/// Every route with this guardian's identity carries its own session key.
pub open spec fn session_keys_kept(entry: GuardianRotationEntryV3, plan: RotationPlan) -> bool {
    &&& forall|i: int|
        0 <= i < plan.old_roster@.len() && (#[trigger] plan.old_roster@[i]).guardian_public_key
            == entry.signing_public_key ==> plan.old_roster@[i].session_recipient_key@
            == entry.transport_public_key@
    &&& forall|i: int|
        0 <= i < plan.new_roster@.len() && (#[trigger] plan.new_roster@[i]).guardian_public_key
            == entry.signing_public_key ==> plan.new_roster@[i].session_recipient_key@
            == entry.transport_public_key@
}

/// The request's context is well formed and current for this guardian.
pub open spec fn context_current(entry: GuardianRotationEntryV3, context: RotationContext, wall_now: u64) -> bool {
    &&& context.protocol_version == PROTOCOL_VERSION_V3
    &&& context.config_ref.config_id == entry.predecessor_capsule.config_ref.config_id
    &&& context.issued_at <= wall_now
    &&& wall_now < context.expiry
    &&& context.recipient_key@.len() == XWING_PUBLIC_KEY_LEN
}

/// The delay a guardian waits after Begin; demo deployments cap it at two
/// seconds.
pub open spec fn begin_delay(plan: RotationPlan, demo_delay: bool) -> u64 {
    if demo_delay && plan.minimum_delay_secs > 2 {
        2
    } else {
        plan.minimum_delay_secs
    }
}

/// The result of one request: sessions, tombstones and the answer.
pub type RotationStep = (
    Seq<GuardianRotationSessionV3>,
    Seq<RotationTombstoneV3>,
    Result<GuardianRotationDecisionV3, GuardianRotationError>,
);

/// A Begin from `entry`.
pub open spec fn begin_step(
    entry: GuardianRotationEntryV3,
    plan: RotationPlan,
    certificate: BeginRotationCertificate,
    wall_now: u64,
    monotonic_now: u64,
    demo_delay: bool,
) -> RotationStep {
    let s = entry.sessions@;
    let t = entry.tombstones@;
    let id = plan.context.rotation_id;
    match begin_rotation_outcome(certificate, plan, entry.predecessor_capsule, wall_now) {
        Err(e) => (s, t, Err(GuardianRotationError::Rotation(e))),
        Ok(begin_hash) => if !participates(entry, plan) {
            (s, t, Err(GuardianRotationError::NotParticipant))
        } else if !session_keys_kept(entry, plan) {
            (s, t, Err(GuardianRotationError::SessionKeySubstituted))
        } else if has_tombstone(t, id) {
            (s, t, Err(GuardianRotationError::PermanentlyRejected))
        } else if has_session(s, id) {
            let existing = s[session_position(s, id)];
            if existing.plan_hash == plan.transcript_hash && existing.begin_certificate_hash == begin_hash {
                (
                    s,
                    t,
                    Ok(
                        GuardianRotationDecisionV3::BeginAccepted {
                            not_before_monotonic: existing.not_before_monotonic,
                        },
                    ),
                )
            } else {
                (s, t, Err(GuardianRotationError::LockedToAnotherPlan))
            }
        } else {
            let not_before = saturating_add(monotonic_now, begin_delay(plan, demo_delay)) as u64;
            (
                s.push(
                    GuardianRotationSessionV3 {
                        rotation_id: id,
                        plan_hash: plan.transcript_hash,
                        begin_certificate_hash: begin_hash,
                        predecessor: plan.predecessor,
                        successor: plan.successor,
                        accepted_wall_time: wall_now,
                        started_monotonic: monotonic_now,
                        not_before_monotonic: not_before,
                        cancelled: false,
                    },
                ),
                t,
                Ok(GuardianRotationDecisionV3::BeginAccepted { not_before_monotonic: not_before }),
            )
        },
    }
}

/// The index a cancelling guardian acknowledges under: its ACTIVE record's,
/// else its successor route's.
pub open spec fn cancel_guardian_index(entry: GuardianRotationEntryV3, plan: RotationPlan) -> Option<u16> {
    match entry.active_guardian_index {
        Some(g) => Some(g),
        None => if unique_route(plan.new_roster@, entry.signing_public_key) {
            Some(route_with_key(plan.new_roster@, entry.signing_public_key).guardian_index)
        } else {
            None
        },
    }
}

/// The owner's cancellation binds the exact plan and the pinned owner key.
pub open spec fn cancel_binds(
    entry: GuardianRotationEntryV3,
    plan: RotationPlan,
    certificate: OwnerRotationCancelCertificate,
    plan_hash: Id32,
) -> bool {
    &&& same_context(certificate.context, plan.context)
    &&& certificate.plan_hash == plan_hash
    &&& certificate.owner_cancel_public_key == entry.predecessor_capsule.owner_cancel_public_key
    &&& certificate.cancel_response_recipient_key@.len() == XWING_PUBLIC_KEY_LEN
}

/// An owner Cancel from `entry`.
pub open spec fn cancel_step(
    entry: GuardianRotationEntryV3,
    plan: RotationPlan,
    certificate: OwnerRotationCancelCertificate,
    wall_now: u64,
) -> RotationStep {
    let s = entry.sessions@;
    let t = entry.tombstones@;
    let id = plan.context.rotation_id;
    match plan_outcome(plan, entry.predecessor_capsule, wall_now) {
        Err(e) => (s, t, Err(GuardianRotationError::Rotation(e))),
        Ok(plan_hash) => if !cancel_binds(entry, plan, certificate, plan_hash) {
            (s, t, Err(GuardianRotationError::CancelMismatch))
        } else if !certificate.signature_verified {
            (s, t, Err(GuardianRotationError::BadOwnerSignature))
        } else if !participates(entry, plan) {
            (s, t, Err(GuardianRotationError::NotParticipant))
        } else if has_tombstone(t, id) && (tombstone_for(t, id).plan_hash != plan_hash
            || tombstone_for(t, id).terminal_state != RotationState::Aborted) {
            (s, t, Err(GuardianRotationError::ConflictingTerminalState))
        } else {
            let s2 = sessions_without(s, id);
            let t2 = tombstones_with_abort(t, id, plan_hash);
            match cancel_guardian_index(entry, plan) {
                None => (s2, t2, Err(GuardianRotationError::NoGuardianIndex)),
                Some(g) => (
                    s2,
                    t2,
                    Ok(
                        GuardianRotationDecisionV3::Cancelled {
                            plan_hash,
                            cancel_certificate_hash: certificate.transcript_hash,
                            guardian_index: g,
                        },
                    ),
                ),
            }
        },
    }
}

/// The session for the plan, if it is live and was begun for this plan.
pub open spec fn session_outcome(entry: GuardianRotationEntryV3, plan: RotationPlan) -> Result<
    GuardianRotationSessionV3,
    GuardianRotationError,
> {
    let s = entry.sessions@;
    let id = plan.context.rotation_id;
    if !plan.canonical {
        Err(GuardianRotationError::Rotation(RotationError::PlanNotCanonical))
    } else if !has_session(s, id) {
        Err(GuardianRotationError::NoSession)
    } else {
        let session = s[session_position(s, id)];
        if session.plan_hash != plan.transcript_hash || session.predecessor != plan.predecessor
            || session.successor != plan.successor || session.cancelled {
            Err(GuardianRotationError::SessionMismatch)
        } else {
            Ok(session)
        }
    }
}

/// A signer-threshold Abort from `entry`.
pub open spec fn abort_step(
    entry: GuardianRotationEntryV3,
    plan: RotationPlan,
    certificate: AbortRotationCertificate,
    wall_now: u64,
) -> RotationStep {
    let s = entry.sessions@;
    let t = entry.tombstones@;
    let id = plan.context.rotation_id;
    match abort_rotation_outcome(certificate, plan, entry.predecessor_capsule, wall_now) {
        Err(e) => (s, t, Err(GuardianRotationError::Rotation(e))),
        Ok(_) => match session_outcome(entry, plan) {
            Err(e) => (s, t, Err(e)),
            Ok(_) => (
                sessions_without(s, id),
                tombstones_with_abort(t, id, plan.transcript_hash),
                Ok(GuardianRotationDecisionV3::Aborted),
            ),
        },
    }
}

/// An old guardian's handoff from `entry`.
pub open spec fn handoff_step(
    entry: GuardianRotationEntryV3,
    plan: RotationPlan,
    dpss_result_commitment: Id32,
) -> RotationStep {
    let s = entry.sessions@;
    let t = entry.tombstones@;
    if !unique_route(plan.old_roster@, entry.signing_public_key) {
        (s, t, Err(GuardianRotationError::NotParticipant))
    } else {
        match session_outcome(entry, plan) {
            Err(e) => (s, t, Err(e)),
            Ok(session) => (
                s,
                t,
                Ok(
                    GuardianRotationDecisionV3::Handoff {
                        plan_hash: session.plan_hash,
                        dpss_result_commitment,
                        qualified_set_commitment: plan.dpss_qualified_set_commitment,
                        old_guardian_index: route_with_key(
                            plan.old_roster@,
                            entry.signing_public_key,
                        ).guardian_index,
                    },
                ),
            ),
        }
    }
}

/// One request from `entry`.
pub open spec fn guardian_rotation_step(
    entry: GuardianRotationEntryV3,
    request: GuardianRotationRequestV3,
    wall_now: u64,
    monotonic_now: u64,
    demo_delay: bool,
) -> RotationStep {
    if !context_current(entry, request.plan_of().context, wall_now) {
        (entry.sessions@, entry.tombstones@, Err(GuardianRotationError::MalformedContext))
    } else {
        match request {
            GuardianRotationRequestV3::Begin { plan, certificate } => begin_step(
                entry,
                plan,
                certificate,
                wall_now,
                monotonic_now,
                demo_delay,
            ),
            GuardianRotationRequestV3::Cancel { plan, certificate } => cancel_step(
                entry,
                plan,
                certificate,
                wall_now,
            ),
            GuardianRotationRequestV3::HandoffComplete { plan, dpss_result_commitment } => handoff_step(
                entry,
                plan,
                dpss_result_commitment,
            ),
            GuardianRotationRequestV3::Abort { plan, certificate } => abort_step(
                entry,
                plan,
                certificate,
                wall_now,
            ),
        }
    }
}

/// Position of the session for `id`, if any.
fn find_session(sessions: &Vec<GuardianRotationSessionV3>, id: &Id32) -> (r: Option<usize>)
    ensures
        match r {
            Some(i) => i < sessions@.len() && sessions@[i as int].rotation_id == *id,
            None => !has_session(sessions@, *id),
        },
{
    let mut i: usize = 0;
    while i < sessions.len()
        invariant
            i <= sessions@.len(),
            forall|k: int| 0 <= k < i ==> (#[trigger] sessions@[k]).rotation_id != *id,
        decreases sessions.len() - i,
    {
        if id_eq(&sessions[i].rotation_id, id) {
            return Some(i);
        }
        i = i + 1;
    }
    None
}

/// With distinct ids, the session found for `id` is the one `session_position` names.
proof fn lemma_session_position(s: Seq<GuardianRotationSessionV3>, t: Seq<RotationTombstoneV3>, id: Id32, i: int)
    requires
        rotation_records_wf(s, t),
        0 <= i < s.len(),
        s[i].rotation_id == id,
    ensures
        has_session(s, id),
        session_position(s, id) == i,
{
    assert(s[i].rotation_id == id);
    let p = session_position(s, id);
    if p < i {
        assert(s[p].rotation_id != s[i].rotation_id);
    } else if p > i {
        assert(s[i].rotation_id != s[p].rotation_id);
    }
}

/// Position of the tombstone for `id`, if any.
fn find_tombstone(tombstones: &Vec<RotationTombstoneV3>, id: &Id32) -> (r: Option<usize>)
    ensures
        match r {
            Some(i) => i < tombstones@.len() && tombstones@[i as int].rotation_id == *id,
            None => !has_tombstone(tombstones@, *id),
        },
{
    let mut i: usize = 0;
    while i < tombstones.len()
        invariant
            i <= tombstones@.len(),
            forall|k: int| 0 <= k < i ==> (#[trigger] tombstones@[k]).rotation_id != *id,
        decreases tombstones.len() - i,
    {
        if id_eq(&tombstones[i].rotation_id, id) {
            return Some(i);
        }
        i = i + 1;
    }
    None
}

/// With distinct ids, the tombstone found for `id` is `tombstone_for`.
proof fn lemma_tombstone_position(s: Seq<GuardianRotationSessionV3>, t: Seq<RotationTombstoneV3>, id: Id32, i: int)
    requires
        rotation_records_wf(s, t),
        0 <= i < t.len(),
        t[i].rotation_id == id,
    ensures
        has_tombstone(t, id),
        tombstone_for(t, id) == t[i],
{
    assert(t[i].rotation_id == id);
    let p = choose|p: int| 0 <= p < t.len() && (#[trigger] t[p]).rotation_id == id;
    if p < i {
        assert(t[p].rotation_id != t[i].rotation_id);
    } else if p > i {
        assert(t[i].rotation_id != t[p].rotation_id);
    }
}

/// The only route of `roster` with `key`, if exactly one exists.
fn unique_route_index(roster: &Vec<GuardianRouteV3>, key: &Id32) -> (r: Option<usize>)
    ensures
        r is Some <==> unique_route(roster@, *key),
        r matches Some(i) ==> i < roster@.len() && roster@[i as int].guardian_public_key == *key
            && route_with_key(roster@, *key) == roster@[i as int],
{
    let mut found: Option<usize> = None;
    let mut i: usize = 0;
    while i < roster.len()
        invariant
            i <= roster@.len(),
            match found {
                Some(p) => p < i && roster@[p as int].guardian_public_key == *key && forall|j: int|
                    0 <= j < i && (#[trigger] roster@[j]).guardian_public_key == *key ==> j == p,
                None => forall|j: int| 0 <= j < i ==> (#[trigger] roster@[j]).guardian_public_key != *key,
            },
        decreases roster.len() - i,
    {
        if id_eq(&roster[i].guardian_public_key, key) {
            match found {
                Some(p) => {
                    proof {
                        assert(roster@[p as int].guardian_public_key == *key);
                        if unique_route(roster@, *key) {
                            let u = choose|u: int|
                                0 <= u < roster@.len() && (#[trigger] roster@[u]).guardian_public_key == *key
                                    && forall|j: int|
                                    0 <= j < roster@.len() && (#[trigger] roster@[j]).guardian_public_key
                                        == *key ==> j == u;
                            assert(p as int == u);
                            assert(i as int == u);
                        }
                    }
                    return None;
                },
                None => {
                    found = Some(i);
                },
            }
        }
        i = i + 1;
    }
    match found {
        Some(p) => {
            proof {
                let u = choose|u: int| 0 <= u < roster@.len() && (#[trigger] roster@[u]).guardian_public_key == *key;
                assert(u == p);
            }
            Some(p)
        },
        None => None,
    }
}

/// Whether every route with this guardian's identity carries its session key.
fn session_keys_ok(entry: &GuardianRotationEntryV3, plan: &RotationPlan) -> (b: bool)
    ensures
        b == session_keys_kept(*entry, *plan),
{
    let mut i: usize = 0;
    while i < plan.old_roster.len()
        invariant
            i <= plan.old_roster@.len(),
            forall|k: int|
                0 <= k < i && (#[trigger] plan.old_roster@[k]).guardian_public_key == entry.signing_public_key
                    ==> plan.old_roster@[k].session_recipient_key@ == entry.transport_public_key@,
        decreases plan.old_roster.len() - i,
    {
        let route = &plan.old_roster[i];
        if id_eq(&route.guardian_public_key, &entry.signing_public_key) && !bytes_eq(
            route.session_recipient_key.as_slice(),
            entry.transport_public_key.as_slice(),
        ) {
            return false;
        }
        i = i + 1;
    }
    let mut j: usize = 0;
    while j < plan.new_roster.len()
        invariant
            j <= plan.new_roster@.len(),
            forall|k: int|
                0 <= k < plan.old_roster@.len() && (#[trigger] plan.old_roster@[k]).guardian_public_key
                    == entry.signing_public_key ==> plan.old_roster@[k].session_recipient_key@
                    == entry.transport_public_key@,
            forall|k: int|
                0 <= k < j && (#[trigger] plan.new_roster@[k]).guardian_public_key == entry.signing_public_key
                    ==> plan.new_roster@[k].session_recipient_key@ == entry.transport_public_key@,
        decreases plan.new_roster.len() - j,
    {
        let route = &plan.new_roster[j];
        if id_eq(&route.guardian_public_key, &entry.signing_public_key) && !bytes_eq(
            route.session_recipient_key.as_slice(),
            entry.transport_public_key.as_slice(),
        ) {
            return false;
        }
        j = j + 1;
    }
    true
}

/// Whether the request's context is well formed and current.
fn context_ok(entry: &GuardianRotationEntryV3, context: &RotationContext, wall_now: u64) -> (b: bool)
    ensures
        b == context_current(*entry, *context, wall_now),
{
    context.protocol_version == PROTOCOL_VERSION_V3 && id_eq(
        &context.config_ref.config_id,
        &entry.predecessor_capsule.config_ref.config_id,
    ) && context.issued_at <= wall_now && wall_now < context.expiry && context.recipient_key.len()
        == XWING_PUBLIC_KEY_LEN
}

/// Everything but sessions and tombstones is unchanged.
pub open spec fn rotation_frame(old: GuardianRotationEntryV3, new: GuardianRotationEntryV3) -> bool {
    &&& new.predecessor_capsule == old.predecessor_capsule
    &&& new.signing_public_key == old.signing_public_key
    &&& new.transport_public_key@ == old.transport_public_key@
    &&& new.active_guardian_index == old.active_guardian_index
}

fn rotation_begin(
    entry: &mut GuardianRotationEntryV3,
    plan: &RotationPlan,
    certificate: &BeginRotationCertificate,
    wall_now: u64,
    monotonic_now: u64,
    demo_delay: bool,
) -> (r: Result<GuardianRotationDecisionV3, GuardianRotationError>)
    requires
        rotation_entry_wf(*old(entry)),
    ensures
        (final(entry).sessions@, final(entry).tombstones@, r) == begin_step(
            *old(entry),
            *plan,
            *certificate,
            wall_now,
            monotonic_now,
            demo_delay,
        ),
        rotation_frame(*old(entry), *final(entry)),
{
    let begin_hash = match validate_begin_rotation_certificate_v3(
        certificate,
        plan,
        &entry.predecessor_capsule,
        wall_now,
    ) {
        Ok(h) => h,
        Err(e) => {
            return Err(GuardianRotationError::Rotation(e));
        },
    };
    if unique_route_index(&plan.old_roster, &entry.signing_public_key).is_none()
        && unique_route_index(&plan.new_roster, &entry.signing_public_key).is_none() {
        return Err(GuardianRotationError::NotParticipant);
    }
    if !session_keys_ok(entry, plan) {
        return Err(GuardianRotationError::SessionKeySubstituted);
    }
    let id = plan.context.rotation_id;
    if find_tombstone(&entry.tombstones, &id).is_some() {
        return Err(GuardianRotationError::PermanentlyRejected);
    }
    match find_session(&entry.sessions, &id) {
        Some(i) => {
            proof {
                lemma_session_position(entry.sessions@, entry.tombstones@, id, i as int);
            }
            let existing = entry.sessions[i];
            if id_eq(&existing.plan_hash, &plan.transcript_hash) && id_eq(
                &existing.begin_certificate_hash,
                &begin_hash,
            ) {
                return Ok(
                    GuardianRotationDecisionV3::BeginAccepted {
                        not_before_monotonic: existing.not_before_monotonic,
                    },
                );
            }
            return Err(GuardianRotationError::LockedToAnotherPlan);
        },
        None => {},
    }
    let delay = if demo_delay && plan.minimum_delay_secs > 2 {
        2
    } else {
        plan.minimum_delay_secs
    };
    let not_before = monotonic_now.saturating_add(delay);
    entry.sessions.push(
        GuardianRotationSessionV3 {
            rotation_id: id,
            plan_hash: plan.transcript_hash,
            begin_certificate_hash: begin_hash,
            predecessor: plan.predecessor,
            successor: plan.successor,
            accepted_wall_time: wall_now,
            started_monotonic: monotonic_now,
            not_before_monotonic: not_before,
            cancelled: false,
        },
    );
    Ok(GuardianRotationDecisionV3::BeginAccepted { not_before_monotonic: not_before })
}

/// The live session for the plan, by position.
fn live_session(entry: &GuardianRotationEntryV3, plan: &RotationPlan) -> (r: Result<usize, GuardianRotationError>)
    requires
        rotation_entry_wf(*entry),
    ensures
        match session_outcome(*entry, *plan) {
            Ok(session) => r matches Ok(i) && i < entry.sessions@.len() && entry.sessions@[i as int] == session
                && i == session_position(entry.sessions@, plan.context.rotation_id),
            Err(e) => r == Err::<usize, GuardianRotationError>(e),
        },
{
    if !plan.canonical {
        return Err(GuardianRotationError::Rotation(RotationError::PlanNotCanonical));
    }
    let id = plan.context.rotation_id;
    match find_session(&entry.sessions, &id) {
        None => Err(GuardianRotationError::NoSession),
        Some(i) => {
            proof {
                lemma_session_position(entry.sessions@, entry.tombstones@, id, i as int);
            }
            let session = &entry.sessions[i];
            if !id_eq(&session.plan_hash, &plan.transcript_hash) || !config_ref_eq(
                &session.predecessor,
                &plan.predecessor,
            ) || !config_ref_eq(&session.successor, &plan.successor) || session.cancelled {
                return Err(GuardianRotationError::SessionMismatch);
            }
            Ok(i)
        },
    }
}

/// Whether a recorded terminal state is an abort.
fn is_aborted(state: RotationState) -> (b: bool)
    ensures
        b == (state == RotationState::Aborted),
{
    match state {
        RotationState::Aborted => true,
        _ => false,
    }
}

/// Records `id` as aborted unless some tombstone already names it.
fn record_abort(entry: &mut GuardianRotationEntryV3, id: Id32, plan_hash: Id32)
    ensures
        final(entry).tombstones@ == tombstones_with_abort(old(entry).tombstones@, id, plan_hash),
        final(entry).sessions@ == old(entry).sessions@,
        rotation_frame(*old(entry), *final(entry)),
{
    if find_tombstone(&entry.tombstones, &id).is_none() {
        entry.tombstones.push(
            RotationTombstoneV3 { rotation_id: id, plan_hash, terminal_state: RotationState::Aborted },
        );
    }
}

/// Drops the session for `id`, if any.
fn drop_session(entry: &mut GuardianRotationEntryV3, id: Id32)
    requires
        rotation_entry_wf(*old(entry)),
    ensures
        final(entry).sessions@ == sessions_without(old(entry).sessions@, id),
        final(entry).tombstones@ == old(entry).tombstones@,
        rotation_frame(*old(entry), *final(entry)),
{
    match find_session(&entry.sessions, &id) {
        Some(i) => {
            proof {
                lemma_session_position(entry.sessions@, entry.tombstones@, id, i as int);
            }
            entry.sessions.remove(i);
        },
        None => {},
    }
}

fn rotation_cancel(
    entry: &mut GuardianRotationEntryV3,
    plan: &RotationPlan,
    certificate: &OwnerRotationCancelCertificate,
    wall_now: u64,
) -> (r: Result<GuardianRotationDecisionV3, GuardianRotationError>)
    requires
        rotation_entry_wf(*old(entry)),
    ensures
        (final(entry).sessions@, final(entry).tombstones@, r) == cancel_step(
            *old(entry),
            *plan,
            *certificate,
            wall_now,
        ),
        rotation_frame(*old(entry), *final(entry)),
{
    let plan_hash = match validate_rotation_plan_v3(plan, &entry.predecessor_capsule, wall_now) {
        Ok(h) => h,
        Err(e) => {
            return Err(GuardianRotationError::Rotation(e));
        },
    };
    if !context_eq(&certificate.context, &plan.context) || !id_eq(&certificate.plan_hash, &plan_hash)
        || !id_eq(
        &certificate.owner_cancel_public_key,
        &entry.predecessor_capsule.owner_cancel_public_key,
    ) || certificate.cancel_response_recipient_key.len() != XWING_PUBLIC_KEY_LEN {
        return Err(GuardianRotationError::CancelMismatch);
    }
    if !certificate.signature_verified {
        return Err(GuardianRotationError::BadOwnerSignature);
    }
    let old_position = unique_route_index(&plan.old_roster, &entry.signing_public_key);
    let new_position = unique_route_index(&plan.new_roster, &entry.signing_public_key);
    if old_position.is_none() && new_position.is_none() {
        return Err(GuardianRotationError::NotParticipant);
    }
    let id = plan.context.rotation_id;
    match find_tombstone(&entry.tombstones, &id) {
        Some(i) => {
            proof {
                lemma_tombstone_position(entry.sessions@, entry.tombstones@, id, i as int);
            }
            let tombstone = entry.tombstones[i];
            if !id_eq(&tombstone.plan_hash, &plan_hash) || !is_aborted(tombstone.terminal_state) {
                return Err(GuardianRotationError::ConflictingTerminalState);
            }
        },
        None => {},
    }
    drop_session(entry, id);
    record_abort(entry, id, plan_hash);
    let guardian_index = match entry.active_guardian_index {
        Some(g) => g,
        None => match new_position {
            Some(p) => plan.new_roster[p].guardian_index,
            None => {
                return Err(GuardianRotationError::NoGuardianIndex);
            },
        },
    };
    Ok(
        GuardianRotationDecisionV3::Cancelled {
            plan_hash,
            cancel_certificate_hash: certificate.transcript_hash,
            guardian_index,
        },
    )
}

fn rotation_abort(
    entry: &mut GuardianRotationEntryV3,
    plan: &RotationPlan,
    certificate: &AbortRotationCertificate,
    wall_now: u64,
) -> (r: Result<GuardianRotationDecisionV3, GuardianRotationError>)
    requires
        rotation_entry_wf(*old(entry)),
    ensures
        (final(entry).sessions@, final(entry).tombstones@, r) == abort_step(
            *old(entry),
            *plan,
            *certificate,
            wall_now,
        ),
        rotation_frame(*old(entry), *final(entry)),
{
    match validate_abort_rotation_certificate_v3(certificate, plan, &entry.predecessor_capsule, wall_now) {
        Ok(_) => {},
        Err(e) => {
            return Err(GuardianRotationError::Rotation(e));
        },
    }
    let i = live_session(entry, plan)?;
    let id = plan.context.rotation_id;
    proof {
        lemma_session_position(entry.sessions@, entry.tombstones@, id, i as int);
    }
    entry.sessions.remove(i);
    record_abort(entry, id, plan.transcript_hash);
    Ok(GuardianRotationDecisionV3::Aborted)
}

fn rotation_handoff(
    entry: &GuardianRotationEntryV3,
    plan: &RotationPlan,
    dpss_result_commitment: &Id32,
) -> (r: Result<GuardianRotationDecisionV3, GuardianRotationError>)
    requires
        rotation_entry_wf(*entry),
    ensures
        r == handoff_step(*entry, *plan, *dpss_result_commitment).2,
{
    let position = match unique_route_index(&plan.old_roster, &entry.signing_public_key) {
        Some(p) => p,
        None => {
            return Err(GuardianRotationError::NotParticipant);
        },
    };
    let i = live_session(entry, plan)?;
    let session = entry.sessions[i];
    Ok(
        GuardianRotationDecisionV3::Handoff {
            plan_hash: session.plan_hash,
            dpss_result_commitment: *dpss_result_commitment,
            qualified_set_commitment: plan.dpss_qualified_set_commitment,
            old_guardian_index: plan.old_roster[position].guardian_index,
        },
    )
}

/// Every request keeps rotation ids distinct within and across sessions
/// and tombstones.
pub proof fn lemma_rotation_step_keeps_wf(
    entry: GuardianRotationEntryV3,
    request: GuardianRotationRequestV3,
    wall_now: u64,
    monotonic_now: u64,
    demo_delay: bool,
)
    requires
        rotation_entry_wf(entry),
    ensures
        ({
            let step = guardian_rotation_step(entry, request, wall_now, monotonic_now, demo_delay);
            rotation_records_wf(step.0, step.1)
        }),
{
    let s = entry.sessions@;
    let t = entry.tombstones@;
    let id = request.plan_of().context.rotation_id;
    if has_session(s, id) {
        let p = session_position(s, id);
        let s2 = s.remove(p);
        assert forall|i: int, j: int| 0 <= i < j < s2.len() implies (#[trigger] s2[i]).rotation_id
            != (#[trigger] s2[j]).rotation_id by {
            let a = if i < p { i } else { i + 1 };
            let b = if j < p { j } else { j + 1 };
            assert(s2[i] == s[a] && s2[j] == s[b] && a < b);
        }
        assert forall|i: int| 0 <= i < s2.len() implies (#[trigger] s2[i]).rotation_id != id by {
            let a = if i < p { i } else { i + 1 };
            assert(s2[i] == s[a] && a != p);
            assert(s[a].rotation_id != s[p].rotation_id);
        }
    }
}

/// Handles one rotation request for a guardian's entry: Begin locks the
/// rotation id to one exact plan after the signer-threshold Begin, owner
/// cancellation and signer-threshold abort end it for good, and handoff
/// acknowledges the old guardian's part.
pub fn handle_guardian_rotation_v3(
    entry: &mut GuardianRotationEntryV3,
    request: GuardianRotationRequestV3,
    wall_now: u64,
    monotonic_now: u64,
    demo_delay: bool,
) -> (r: Result<GuardianRotationDecisionV3, GuardianRotationError>)
    requires
        rotation_entry_wf(*old(entry)),
    ensures
        (final(entry).sessions@, final(entry).tombstones@, r) == guardian_rotation_step(
            *old(entry),
            request,
            wall_now,
            monotonic_now,
            demo_delay,
        ),
        rotation_frame(*old(entry), *final(entry)),
        rotation_entry_wf(*final(entry)),
{
    proof {
        lemma_rotation_step_keeps_wf(*entry, request, wall_now, monotonic_now, demo_delay);
    }
    if !context_ok(entry, request.context(), wall_now) {
        return Err(GuardianRotationError::MalformedContext);
    }
    match request {
        GuardianRotationRequestV3::Begin { plan, certificate } => rotation_begin(
            entry,
            &plan,
            &certificate,
            wall_now,
            monotonic_now,
            demo_delay,
        ),
        GuardianRotationRequestV3::Cancel { plan, certificate } => rotation_cancel(
            entry,
            &plan,
            &certificate,
            wall_now,
        ),
        GuardianRotationRequestV3::HandoffComplete { plan, dpss_result_commitment } => rotation_handoff(
            entry,
            &plan,
            &dpss_result_commitment,
        ),
        GuardianRotationRequestV3::Abort { plan, certificate } => rotation_abort(
            entry,
            &plan,
            &certificate,
            wall_now,
        ),
    }
}

/// A rotation id that ended stays ended: no request removes or rewrites a
/// tombstone.
pub proof fn lemma_rotation_tombstones_persist(
    entry: GuardianRotationEntryV3,
    request: GuardianRotationRequestV3,
    wall_now: u64,
    monotonic_now: u64,
    demo_delay: bool,
    id: Id32,
)
    requires
        rotation_entry_wf(entry),
        has_tombstone(entry.tombstones@, id),
    ensures
        ({
            let step = guardian_rotation_step(entry, request, wall_now, monotonic_now, demo_delay);
            has_tombstone(step.1, id) && tombstone_for(step.1, id) == tombstone_for(entry.tombstones@, id)
        }),
{
    let t = entry.tombstones@;
    let step = guardian_rotation_step(entry, request, wall_now, monotonic_now, demo_delay);
    let k = choose|k: int| 0 <= k < t.len() && (#[trigger] t[k]).rotation_id == id;
    lemma_rotation_step_keeps_wf(entry, request, wall_now, monotonic_now, demo_delay);
    assert(step.1 == t || step.1 == t.push(step.1.last()));
    assert(step.1[k] == t[k]);
    lemma_tombstone_position(entry.sessions@, t, id, k);
    lemma_tombstone_position(step.0, step.1, id, k);
}

/// A cancelled, aborted or completed rotation id is never begun again: a
/// Begin for it is refused and changes nothing.
pub proof fn lemma_ended_rotation_never_begins(
    entry: GuardianRotationEntryV3,
    plan: RotationPlan,
    certificate: BeginRotationCertificate,
    wall_now: u64,
    monotonic_now: u64,
    demo_delay: bool,
)
    requires
        rotation_entry_wf(entry),
        has_tombstone(entry.tombstones@, plan.context.rotation_id),
    ensures
        ({
            let step = guardian_rotation_step(
                entry,
                GuardianRotationRequestV3::Begin { plan, certificate },
                wall_now,
                monotonic_now,
                demo_delay,
            );
            step.2 is Err && step.0 == entry.sessions@ && step.1 == entry.tombstones@
        }),
{
}

/// An accepted owner cancellation ends the rotation for good: the session
/// is gone and the rotation id is recorded as aborted under the plan.
pub proof fn lemma_cancel_ends_rotation(
    entry: GuardianRotationEntryV3,
    plan: RotationPlan,
    certificate: OwnerRotationCancelCertificate,
    wall_now: u64,
    monotonic_now: u64,
    demo_delay: bool,
)
    requires
        rotation_entry_wf(entry),
        guardian_rotation_step(
            entry,
            GuardianRotationRequestV3::Cancel { plan, certificate },
            wall_now,
            monotonic_now,
            demo_delay,
        ).2 is Ok,
    ensures
        ({
            let step = guardian_rotation_step(
                entry,
                GuardianRotationRequestV3::Cancel { plan, certificate },
                wall_now,
                monotonic_now,
                demo_delay,
            );
            &&& !has_session(step.0, plan.context.rotation_id)
            &&& has_tombstone(step.1, plan.context.rotation_id)
            &&& tombstone_for(step.1, plan.context.rotation_id).plan_hash == plan.transcript_hash
            &&& tombstone_for(step.1, plan.context.rotation_id).terminal_state == RotationState::Aborted
        }),
{
    let s = entry.sessions@;
    let t = entry.tombstones@;
    let id = plan.context.rotation_id;
    let step = guardian_rotation_step(
        entry,
        GuardianRotationRequestV3::Cancel { plan, certificate },
        wall_now,
        monotonic_now,
        demo_delay,
    );
    lemma_rotation_step_keeps_wf(
        entry,
        GuardianRotationRequestV3::Cancel { plan, certificate },
        wall_now,
        monotonic_now,
        demo_delay,
    );
    if has_session(s, id) {
        let p = session_position(s, id);
        assert forall|i: int| 0 <= i < step.0.len() implies (#[trigger] step.0[i]).rotation_id != id by {
            let a = if i < p { i } else { i + 1 };
            assert(step.0[i] == s[a] && a != p);
            assert(s[a].rotation_id != s[p].rotation_id);
        }
    }
    if has_tombstone(t, id) {
        let k = choose|k: int| 0 <= k < t.len() && (#[trigger] t[k]).rotation_id == id;
        lemma_tombstone_position(s, t, id, k);
    } else {
        lemma_tombstone_position(step.0, step.1, id, t.len() as int);
    }
}

/// Begin is idempotent: repeating the same Begin at any later monotonic
/// time gives the same answer and changes nothing.
pub proof fn lemma_begin_is_idempotent(
    entry: GuardianRotationEntryV3,
    after: GuardianRotationEntryV3,
    plan: RotationPlan,
    certificate: BeginRotationCertificate,
    wall_now: u64,
    monotonic_now: u64,
    later_monotonic: u64,
    demo_delay: bool,
)
    requires
        rotation_entry_wf(entry),
        guardian_rotation_step(
            entry,
            GuardianRotationRequestV3::Begin { plan, certificate },
            wall_now,
            monotonic_now,
            demo_delay,
        ).2 is Ok,
        after.sessions@ == guardian_rotation_step(
            entry,
            GuardianRotationRequestV3::Begin { plan, certificate },
            wall_now,
            monotonic_now,
            demo_delay,
        ).0,
        after.tombstones@ == guardian_rotation_step(
            entry,
            GuardianRotationRequestV3::Begin { plan, certificate },
            wall_now,
            monotonic_now,
            demo_delay,
        ).1,
        rotation_frame(entry, after),
    ensures
        guardian_rotation_step(
            after,
            GuardianRotationRequestV3::Begin { plan, certificate },
            wall_now,
            later_monotonic,
            demo_delay,
        ) == guardian_rotation_step(
            entry,
            GuardianRotationRequestV3::Begin { plan, certificate },
            wall_now,
            monotonic_now,
            demo_delay,
        ),
{
    let s = entry.sessions@;
    let id = plan.context.rotation_id;
    let request = GuardianRotationRequestV3::Begin { plan, certificate };
    lemma_rotation_step_keeps_wf(entry, request, wall_now, monotonic_now, demo_delay);
    assert(context_current(after, plan.context, wall_now));
    assert(participates(after, plan) == participates(entry, plan));
    assert(session_keys_kept(after, plan) == session_keys_kept(entry, plan));
    if !has_session(s, id) {
        let s2 = after.sessions@;
        lemma_session_position(s2, after.tombstones@, id, s.len() as int);
    }
}

/// A rotation id is locked to one plan: once a guardian holds a session
/// for it, a Begin for another plan is refused and changes nothing.
pub proof fn lemma_rotation_locked_to_one_plan(
    entry: GuardianRotationEntryV3,
    plan: RotationPlan,
    certificate: BeginRotationCertificate,
    wall_now: u64,
    monotonic_now: u64,
    demo_delay: bool,
)
    requires
        rotation_entry_wf(entry),
        has_session(entry.sessions@, plan.context.rotation_id),
        entry.sessions@[session_position(entry.sessions@, plan.context.rotation_id)].plan_hash
            != plan.transcript_hash,
    ensures
        ({
            let step = guardian_rotation_step(
                entry,
                GuardianRotationRequestV3::Begin { plan, certificate },
                wall_now,
                monotonic_now,
                demo_delay,
            );
            step.2 is Err && step.0 == entry.sessions@ && step.1 == entry.tombstones@
        }),
{
}

} // verus!
