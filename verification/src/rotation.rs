//! Guardian rotation plans and the signer certificates that move a
//! rotation forward. The routine profile is a one-for-one replacement that
//! keeps the immutable recovery policy.
use vstd::prelude::*;

use crate::bytes::{contains_u16, id_eq, Id32};
use crate::epoch::{
    card_error, card_valid, is_pinned, pin_has_key, pin_index, saturating_add, validate_recovery_card_v3,
    EpochError,
};
use crate::model::{
    config_ref_eq, context_eq, is_direct_successor, same_context, ConfigCapsuleV3, ConfigRef,
    RecoveryCardV3, RotationContext, PROTOCOL_VERSION_V3, XWING_PUBLIC_KEY_LEN,
};
use crate::quorum::witness_quorum;
use crate::witness::OwnerRotationCancelCertificate;

verus! {

/// Why a rotation plan or certificate was refused.
#[derive(Debug, Clone, Copy, PartialEq, Eq)]
pub enum RotationError {
    /// The plan has no canonical encoding.
    PlanNotCanonical,
    /// The plan is stale, malformed, or weakens the immutable policy.
    InvalidPlan,
    /// A roster does not hash to its commitment.
    RosterCommitmentMismatch,
    /// The plan violates the signer-approved Intent constraints.
    IntentViolation,
    /// The plan does not replace exactly the one guardian the Intent
    /// authorized.
    ReplacementViolation,
    /// A kept guardian changed identity or did not get a fresh route.
    IdentityChanged,
    /// The successor roster reuses or repeats an identity or route.
    DuplicateIdentity,
    /// The certificate has no canonical encoding.
    CertificateNotCanonical,
    /// The certificate does not bind the exact plan, delay or state.
    CertificateMismatch,
    /// A signer vote repeats a signer, mismatches, is out of range, or its
    /// membership proof or signature does not verify.
    InvalidSignerVote,
    /// Fewer distinct signer votes than the signer threshold.
    SignerThresholdNotReached,
    /// A guardian ack is from a guardian outside the roster it answers for.
    UnknownGuardian,
    /// A guardian ack's signature does not verify.
    BadGuardianSignature,
    /// Two acks of one certificate are from the same guardian.
    DuplicateGuardianAck,
    /// The Recovery Card is invalid.
    InvalidCard(EpochError),
    /// The owner's signature does not verify.
    BadOwnerSignature,
    /// A witness veto is from an unpinned witness.
    UnpinnedWitness,
    /// A witness veto repeats a witness or does not match the cancellation.
    DuplicateOrMismatchedWitness,
    /// A witness veto's signature does not verify.
    BadWitnessSignature,
    /// Fewer than `2f + 1` witness vetoes.
    WitnessQuorumNotReached,
}

/// One guardian's route in a rotation roster.
#[derive(Clone, Debug)]
pub struct GuardianRouteV3 {
    pub guardian_index: u16,
    pub guardian_public_key: Id32,
    pub session_recipient_key: Vec<u8>,
    pub operator_domain_commitment: Id32,
    pub opaque_slot_id: Id32,
    pub mailbox: String,
    /// SHA-256 of the big-endian guardian index, the value an Intent
    /// commits to when it authorizes replacing this guardian.
    pub index_digest: Id32,
}

/// A rotation plan from the predecessor epoch to its direct successor.
#[derive(Clone, Debug)]
pub struct RotationPlan {
    pub context: RotationContext,
    pub predecessor: ConfigRef,
    pub successor: ConfigRef,
    pub intent_hash: Id32,
    pub preparation_deadline: u64,
    pub drain_deadline: u64,
    pub minimum_delay_secs: u64,
    pub old_guardian_threshold: u16,
    pub data_shards: u16,
    pub total_shards: u16,
    pub old_roster: Vec<GuardianRouteV3>,
    pub new_roster: Vec<GuardianRouteV3>,
    pub new_guardian_threshold: u16,
    pub old_roster_commitment: Id32,
    pub new_roster_commitment: Id32,
    pub dpss_suite: u16,
    pub dpss_qualified_set_commitment: Id32,
    /// The DPSS session every round message of this rotation names.
    pub dpss_session_id: Id32,
    /// SHA-256 of the canonical encoding of `old_roster`.
    pub old_roster_digest: Id32,
    /// SHA-256 of the canonical encoding of `new_roster`.
    pub new_roster_digest: Id32,
    /// SHA-256 of the plan's canonical transcript.
    pub transcript_hash: Id32,
    /// The plan has a canonical transcript encoding.
    pub canonical: bool,
}

/// The constraints signers approved before releasing their shares.
#[derive(Clone, Debug)]
pub struct RotationIntent {
    pub context: RotationContext,
    /// Why the rotation was requested.
    pub reason: u16,
    pub old_guardian_count: u16,
    pub old_guardian_threshold: u16,
    pub allowed_new_guardian_count: Vec<u16>,
    pub allowed_new_guardian_threshold: Vec<u16>,
    pub allowed_dpss_suites: Vec<u16>,
    pub selection_constraints_commitment: Id32,
    /// The hash of the fresh witness read the Intent was made under.
    pub witness_read_qc_hash: Id32,
    /// SHA-256 of the Intent's canonical transcript.
    pub transcript_hash: Id32,
}

/// Field-by-field equality of two Intents.
pub open spec fn same_intent(a: RotationIntent, b: RotationIntent) -> bool {
    &&& same_context(a.context, b.context)
    &&& a.reason == b.reason
    &&& a.old_guardian_count == b.old_guardian_count
    &&& a.old_guardian_threshold == b.old_guardian_threshold
    &&& a.allowed_new_guardian_count@ == b.allowed_new_guardian_count@
    &&& a.allowed_new_guardian_threshold@ == b.allowed_new_guardian_threshold@
    &&& a.allowed_dpss_suites@ == b.allowed_dpss_suites@
    &&& a.selection_constraints_commitment == b.selection_constraints_commitment
    &&& a.witness_read_qc_hash == b.witness_read_qc_hash
    &&& a.transcript_hash == b.transcript_hash
}

/// Compares two lists of 16-bit values.
fn u16s_eq(a: &Vec<u16>, b: &Vec<u16>) -> (r: bool)
    ensures
        r == (a@ == b@),
{
    if a.len() != b.len() {
        return false;
    }
    let mut i: usize = 0;
    while i < a.len()
        invariant
            i <= a@.len(),
            a@.len() == b@.len(),
            forall|j: int| 0 <= j < i ==> a@[j] == b@[j],
        decreases a.len() - i,
    {
        if a[i] != b[i] {
            return false;
        }
        i = i + 1;
    }
    assert(a@ =~= b@);
    true
}

/// Compares two Intents.
pub fn intent_eq(a: &RotationIntent, b: &RotationIntent) -> (r: bool)
    ensures
        r == same_intent(*a, *b),
{
    context_eq(&a.context, &b.context) && a.reason == b.reason && a.old_guardian_count
        == b.old_guardian_count && a.old_guardian_threshold == b.old_guardian_threshold && u16s_eq(
        &a.allowed_new_guardian_count,
        &b.allowed_new_guardian_count,
    ) && u16s_eq(&a.allowed_new_guardian_threshold, &b.allowed_new_guardian_threshold) && u16s_eq(
        &a.allowed_dpss_suites,
        &b.allowed_dpss_suites,
    ) && id_eq(&a.selection_constraints_commitment, &b.selection_constraints_commitment) && id_eq(
        &a.witness_read_qc_hash,
        &b.witness_read_qc_hash,
    ) && id_eq(&a.transcript_hash, &b.transcript_hash)
}

/// Copies an Intent.
pub fn clone_intent(a: &RotationIntent) -> (r: RotationIntent)
    ensures
        same_intent(r, *a),
{
    RotationIntent {
        context: crate::model::clone_context(&a.context),
        reason: a.reason,
        old_guardian_count: a.old_guardian_count,
        old_guardian_threshold: a.old_guardian_threshold,
        allowed_new_guardian_count: a.allowed_new_guardian_count.clone(),
        allowed_new_guardian_threshold: a.allowed_new_guardian_threshold.clone(),
        allowed_dpss_suites: a.allowed_dpss_suites.clone(),
        selection_constraints_commitment: a.selection_constraints_commitment,
        witness_read_qc_hash: a.witness_read_qc_hash,
        transcript_hash: a.transcript_hash,
    }
}

/// The plan is current, moves the predecessor to its direct successor and
/// keeps the predecessor's policy and roster sizes.
pub open spec fn plan_shape_ok(plan: RotationPlan, predecessor: ConfigCapsuleV3, now: u64) -> bool {
    &&& plan.context.protocol_version == PROTOCOL_VERSION_V3
    &&& plan.context.config_ref == predecessor.config_ref
    &&& plan.context.predecessor_capsule_hash == predecessor.capsule_hash
    &&& plan.predecessor == predecessor.config_ref
    &&& is_direct_successor(plan.successor, plan.predecessor)
    &&& plan.context.issued_at <= now
    &&& now < plan.context.expiry
    &&& plan.context.issued_at < plan.preparation_deadline
    &&& plan.preparation_deadline < plan.drain_deadline
    &&& plan.minimum_delay_secs >= predecessor.minimum_recovery_delay
    &&& plan.old_guardian_threshold == predecessor.guardian_threshold
    &&& plan.data_shards == predecessor.guardian_threshold
    &&& plan.total_shards == predecessor.guardian_count
    &&& plan.old_roster@.len() == predecessor.guardian_count
    &&& plan.new_roster@.len() == plan.total_shards
    &&& 2 <= plan.new_guardian_threshold <= plan.new_roster@.len()
}

/// Outcome of checking a plan: its transcript hash, or why it was refused.
pub open spec fn plan_outcome(
    plan: RotationPlan,
    predecessor: ConfigCapsuleV3,
    now: u64,
) -> Result<Id32, RotationError> {
    if !plan.canonical {
        Err(RotationError::PlanNotCanonical)
    } else if !plan_shape_ok(plan, predecessor, now) {
        Err(RotationError::InvalidPlan)
    } else if plan.old_roster_digest != plan.old_roster_commitment || plan.new_roster_digest
        != plan.new_roster_commitment {
        Err(RotationError::RosterCommitmentMismatch)
    } else {
        Ok(plan.transcript_hash)
    }
}

/// Checks a rotation plan against the active predecessor capsule and
/// returns its transcript hash.
pub fn validate_rotation_plan_v3(
    plan: &RotationPlan,
    predecessor: &ConfigCapsuleV3,
    now: u64,
) -> (r: Result<Id32, RotationError>)
    ensures
        r == plan_outcome(*plan, *predecessor, now),
{
    if !plan.canonical {
        return Err(RotationError::PlanNotCanonical);
    }
    let successor_epoch_ok = plan.predecessor.guardian_epoch < u64::MAX
        && plan.successor.guardian_epoch == plan.predecessor.guardian_epoch + 1;
    if plan.context.protocol_version != PROTOCOL_VERSION_V3 || !config_ref_eq(
        &plan.context.config_ref,
        &predecessor.config_ref,
    ) || !id_eq(&plan.context.predecessor_capsule_hash, &predecessor.capsule_hash)
        || !config_ref_eq(&plan.predecessor, &predecessor.config_ref) || !id_eq(
        &plan.successor.config_id,
        &plan.predecessor.config_id,
    ) || plan.successor.payload_generation != plan.predecessor.payload_generation
        || plan.successor.authorization_epoch != plan.predecessor.authorization_epoch
        || !successor_epoch_ok || plan.context.issued_at > now || plan.context.expiry <= now
        || plan.preparation_deadline <= plan.context.issued_at || plan.drain_deadline
        <= plan.preparation_deadline || plan.minimum_delay_secs < predecessor.minimum_recovery_delay
        || plan.old_guardian_threshold != predecessor.guardian_threshold || plan.data_shards
        != predecessor.guardian_threshold || plan.total_shards != predecessor.guardian_count
        || plan.old_roster.len() != predecessor.guardian_count as usize || plan.new_roster.len()
        != plan.total_shards as usize || plan.new_guardian_threshold < 2
        || plan.new_guardian_threshold as usize > plan.new_roster.len() {
        return Err(RotationError::InvalidPlan);
    }
    if !id_eq(&plan.old_roster_digest, &plan.old_roster_commitment) || !id_eq(
        &plan.new_roster_digest,
        &plan.new_roster_commitment,
    ) {
        return Err(RotationError::RosterCommitmentMismatch);
    }
    Ok(plan.transcript_hash)
}

/// Some route of `r` is for guardian `x`.
pub open spec fn in_roster(r: Seq<GuardianRouteV3>, x: u16) -> bool {
    exists|i: int| 0 <= i < r.len() && (#[trigger] r[i]).guardian_index == x
}

/// Route `i` is the last route of `r` for its guardian: the one a lookup
/// by guardian index yields.
pub open spec fn is_last_route(r: Seq<GuardianRouteV3>, i: int) -> bool {
    &&& 0 <= i < r.len()
    &&& forall|j: int| i < j < r.len() ==> (#[trigger] r[j]).guardian_index != r[i].guardian_index
}

/// The route a lookup of guardian `x` in `r` yields.
pub open spec fn route_of(r: Seq<GuardianRouteV3>, x: u16) -> GuardianRouteV3 {
    r[choose|i: int| is_last_route(r, i) && r[i].guardian_index == x]
}

proof fn lemma_last_route_exists(r: Seq<GuardianRouteV3>, x: u16, i: int)
    requires
        0 <= i < r.len(),
        r[i].guardian_index == x,
    ensures
        exists|k: int| is_last_route(r, k) && r[k].guardian_index == x,
    decreases r.len() - i,
{
    if exists|j: int| i < j < r.len() && (#[trigger] r[j]).guardian_index == x {
        let j = choose|j: int| i < j < r.len() && (#[trigger] r[j]).guardian_index == x;
        lemma_last_route_exists(r, x, j);
    } else {
        assert(is_last_route(r, i));
    }
}

proof fn lemma_route_of(r: Seq<GuardianRouteV3>, i: int)
    requires
        is_last_route(r, i),
    ensures
        route_of(r, r[i].guardian_index) == r[i],
        in_roster(r, r[i].guardian_index),
{
    let x = r[i].guardian_index;
    let k = choose|k: int| is_last_route(r, k) && r[k].guardian_index == x;
    assert(is_last_route(r, i) && r[i].guardian_index == x);
    if k < i {
        assert(r[i].guardian_index != r[k].guardian_index);
    } else if k > i {
        assert(r[k].guardian_index != r[i].guardian_index);
    }
}

/// Position of the last route for guardian `x`, if any.
fn last_position_of(r: &Vec<GuardianRouteV3>, x: u16) -> (p: Option<usize>)
    ensures
        match p {
            Some(p) => is_last_route(r@, p as int) && r@[p as int].guardian_index == x,
            None => !in_roster(r@, x),
        },
{
    let mut last: Option<usize> = None;
    let mut i: usize = 0;
    while i < r.len()
        invariant
            i <= r@.len(),
            match last {
                Some(p) => p < i && r@[p as int].guardian_index == x && forall|j: int|
                    p < j < i ==> (#[trigger] r@[j]).guardian_index != x,
                None => forall|j: int| 0 <= j < i ==> (#[trigger] r@[j]).guardian_index != x,
            },
        decreases r.len() - i,
    {
        if r[i].guardian_index == x {
            last = Some(i);
        }
        i = i + 1;
    }
    last
}

/// Whether route `i` is the last route for its guardian.
fn is_last_at(r: &Vec<GuardianRouteV3>, i: usize) -> (b: bool)
    requires
        i < r@.len(),
    ensures
        b == is_last_route(r@, i as int),
{
    let x = r[i].guardian_index;
    let n = r.len();
    let mut j: usize = i + 1;
    while j < r.len()
        invariant
            i < j <= r@.len(),
            x == r@[i as int].guardian_index,
            forall|k: int| i < k < j ==> (#[trigger] r@[k]).guardian_index != x,
        decreases r.len() - j,
    {
        if r[j].guardian_index == x {
            return false;
        }
        j = j + 1;
    }
    true
}

/// The plan stays inside the Intent the signers approved.
pub open spec fn intent_constraints_ok(
    plan: RotationPlan,
    intent: RotationIntent,
    predecessor: ConfigCapsuleV3,
    now: u64,
) -> bool {
    &&& same_context(plan.context, intent.context)
    &&& plan.intent_hash == intent.transcript_hash
    &&& intent.old_guardian_count == predecessor.guardian_count
    &&& intent.old_guardian_threshold == predecessor.guardian_threshold
    &&& intent.allowed_new_guardian_count@.contains(plan.new_roster@.len() as u16)
    &&& intent.allowed_new_guardian_threshold@.contains(plan.new_guardian_threshold)
    &&& intent.allowed_dpss_suites@.contains(plan.dpss_suite)
    &&& plan.dpss_qualified_set_commitment == plan.new_roster_commitment
    &&& now < plan.preparation_deadline
}

/// Guardian `x` is the only one the plan removes.
pub open spec fn removed_exactly(plan: RotationPlan, x: u16) -> bool {
    &&& in_roster(plan.old_roster@, x)
    &&& !in_roster(plan.new_roster@, x)
    &&& forall|y: u16|
        #![trigger in_roster(plan.old_roster@, y)]
        in_roster(plan.old_roster@, y) && !in_roster(plan.new_roster@, y) ==> y == x
}

/// Guardian `y` is the only one the plan adds.
pub open spec fn added_exactly(plan: RotationPlan, y: u16) -> bool {
    &&& in_roster(plan.new_roster@, y)
    &&& !in_roster(plan.old_roster@, y)
    &&& forall|z: u16|
        #![trigger in_roster(plan.new_roster@, z)]
        in_roster(plan.new_roster@, z) && !in_roster(plan.old_roster@, z) ==> z == y
}

/// The guardian the plan removes.
pub open spec fn removed_guardian(plan: RotationPlan) -> u16 {
    choose|x: u16| removed_exactly(plan, x)
}

/// The guardian the plan adds.
pub open spec fn added_guardian(plan: RotationPlan) -> u16 {
    choose|y: u16| added_exactly(plan, y)
}

/// Exactly one guardian is replaced by exactly one other, and the removed
/// one is the one the Intent committed to.
pub open spec fn one_for_one(plan: RotationPlan, intent: RotationIntent) -> bool {
    &&& exists|x: u16| removed_exactly(plan, x)
    &&& exists|y: u16| added_exactly(plan, y)
    &&& route_of(plan.old_roster@, removed_guardian(plan)).index_digest
        == intent.selection_constraints_commitment
}

/// A kept guardian keeps its identity and gets a fresh route.
pub open spec fn kept_identity_ok(old: GuardianRouteV3, new: GuardianRouteV3) -> bool {
    &&& new.guardian_public_key == old.guardian_public_key
    &&& new.session_recipient_key@ == old.session_recipient_key@
    &&& new.operator_domain_commitment == old.operator_domain_commitment
    &&& new.opaque_slot_id != old.opaque_slot_id
    &&& new.mailbox@ != old.mailbox@
}

/// Every guardian in both rosters keeps its identity with a fresh route.
pub open spec fn unchanged_identities_kept(plan: RotationPlan) -> bool {
    forall|x: u16|
        #![trigger in_roster(plan.old_roster@, x), in_roster(plan.new_roster@, x)]
        in_roster(plan.old_roster@, x) && in_roster(plan.new_roster@, x) ==> kept_identity_ok(
            route_of(plan.old_roster@, x),
            route_of(plan.new_roster@, x),
        )
}

/// Two successor routes share no key, mailbox, slot or operator domain.
pub open spec fn routes_distinct(a: GuardianRouteV3, b: GuardianRouteV3) -> bool {
    &&& a.guardian_public_key != b.guardian_public_key
    &&& a.mailbox@ != b.mailbox@
    &&& a.opaque_slot_id != b.opaque_slot_id
    &&& a.operator_domain_commitment != b.operator_domain_commitment
}

/// The successor roster repeats no identity or route, and the added
/// guardian's key was not a predecessor key.
pub open spec fn successor_identities_fresh(plan: RotationPlan) -> bool {
    &&& forall|x: u16, y: u16|
        #![trigger in_roster(plan.new_roster@, x), in_roster(plan.new_roster@, y)]
        in_roster(plan.new_roster@, x) && in_roster(plan.new_roster@, y) && x != y ==> routes_distinct(
            route_of(plan.new_roster@, x),
            route_of(plan.new_roster@, y),
        )
    &&& !exists|x: u16|
        #![trigger in_roster(plan.old_roster@, x)]
        in_roster(plan.old_roster@, x) && route_of(plan.old_roster@, x).guardian_public_key == route_of(
            plan.new_roster@,
            added_guardian(plan),
        ).guardian_public_key
}

/// Outcome of checking a plan against the signer-approved Intent.
pub open spec fn plan_against_intent_outcome(
    plan: RotationPlan,
    intent: RotationIntent,
    predecessor: ConfigCapsuleV3,
    now: u64,
) -> Result<Id32, RotationError> {
    match plan_outcome(plan, predecessor, now) {
        Err(e) => Err(e),
        Ok(plan_hash) => if !intent_constraints_ok(plan, intent, predecessor, now) {
            Err(RotationError::IntentViolation)
        } else if !one_for_one(plan, intent) {
            Err(RotationError::ReplacementViolation)
        } else if !unchanged_identities_kept(plan) {
            Err(RotationError::IdentityChanged)
        } else if !successor_identities_fresh(plan) {
            Err(RotationError::DuplicateIdentity)
        } else {
            Ok(plan_hash)
        },
    }
}

/// The only guardian of `from` missing from `to`, if exactly one is.
#[verifier::loop_isolation(false)]
fn only_missing(from: &Vec<GuardianRouteV3>, to: &Vec<GuardianRouteV3>) -> (r: Option<u16>)
    ensures
        match r {
            Some(x) => in_roster(from@, x) && !in_roster(to@, x) && forall|y: u16|
                #![trigger in_roster(from@, y)]
                in_roster(from@, y) && !in_roster(to@, y) ==> y == x,
            None => !exists|x: u16|
                in_roster(from@, x) && !in_roster(to@, x) && forall|y: u16|
                    #![trigger in_roster(from@, y)]
                    in_roster(from@, y) && !in_roster(to@, y) ==> y == x,
        },
{
    let mut found: Option<u16> = None;
    let mut multiple = false;
    let mut i: usize = 0;
    while i < from.len()
        invariant
            i <= from@.len(),
            !multiple ==> match found {
                Some(x) => (exists|j: int| 0 <= j < i && (#[trigger] from@[j]).guardian_index == x)
                    && !in_roster(to@, x) && forall|j: int|
                    0 <= j < i && !in_roster(to@, (#[trigger] from@[j]).guardian_index)
                        ==> from@[j].guardian_index == x,
                None => forall|j: int| 0 <= j < i ==> in_roster(to@, (#[trigger] from@[j]).guardian_index),
            },
            multiple ==> exists|a: int, b: int|
                0 <= a < i && 0 <= b < i && !in_roster(to@, (#[trigger] from@[a]).guardian_index)
                    && !in_roster(to@, (#[trigger] from@[b]).guardian_index) && from@[a].guardian_index
                    != from@[b].guardian_index,
        decreases from.len() - i,
    {
        let x = from[i].guardian_index;
        if last_position_of(to, x).is_none() {
            match found {
                None => {
                    found = Some(x);
                },
                Some(y) => {
                    if y != x && !multiple {
                        let ghost j = choose|j: int| 0 <= j < i && (#[trigger] from@[j]).guardian_index == y;
                        assert(!in_roster(to@, from@[j].guardian_index));
                        multiple = true;
                    }
                },
            }
        }
        i = i + 1;
    }
    if multiple {
        proof {
            let (a, b) = choose|a: int, b: int|
                0 <= a < from@.len() && 0 <= b < from@.len() && !in_roster(to@, (#[trigger] from@[a]).guardian_index)
                    && !in_roster(to@, (#[trigger] from@[b]).guardian_index) && from@[a].guardian_index
                    != from@[b].guardian_index;
            assert(in_roster(from@, from@[a].guardian_index));
            assert(in_roster(from@, from@[b].guardian_index));
        }
        return None;
    }
    match found {
        Some(x) => {
            proof {
                assert forall|y: u16| #![trigger in_roster(from@, y)] in_roster(from@, y) && !in_roster(to@, y) implies y == x by {
                    let j = choose|j: int| 0 <= j < from@.len() && (#[trigger] from@[j]).guardian_index == y;
                }
            }
            Some(x)
        },
        None => {
            proof {
                assert forall|x: u16| in_roster(from@, x) implies in_roster(to@, x) by {
                    let j = choose|j: int| 0 <= j < from@.len() && (#[trigger] from@[j]).guardian_index == x;
                }
            }
            None
        },
    }
}

/// Whether a kept guardian keeps its identity and gets a fresh route.
fn kept_identity(old: &GuardianRouteV3, new: &GuardianRouteV3) -> (b: bool)
    ensures
        b == kept_identity_ok(*old, *new),
{
    id_eq(&new.guardian_public_key, &old.guardian_public_key) && crate::bytes::bytes_eq(
        new.session_recipient_key.as_slice(),
        old.session_recipient_key.as_slice(),
    ) && id_eq(&new.operator_domain_commitment, &old.operator_domain_commitment) && !id_eq(
        &new.opaque_slot_id,
        &old.opaque_slot_id,
    ) && !(new.mailbox == old.mailbox)
}

/// Whether two successor routes share nothing.
fn distinct_routes(a: &GuardianRouteV3, b: &GuardianRouteV3) -> (r: bool)
    ensures
        r == routes_distinct(*a, *b),
{
    !id_eq(&a.guardian_public_key, &b.guardian_public_key) && !(a.mailbox == b.mailbox) && !id_eq(
        &a.opaque_slot_id,
        &b.opaque_slot_id,
    ) && !id_eq(&a.operator_domain_commitment, &b.operator_domain_commitment)
}

/// Enforces the constraints approved before the signers' shares were
/// released: the routine profile replaces exactly the one guardian the
/// Intent committed to, keeps every other identity with a fresh route, and
/// admits no reused or repeated identity or route.
#[verifier::loop_isolation(false)]
#[verifier::rlimit(40)]
pub fn validate_rotation_plan_against_intent_v3(
    plan: &RotationPlan,
    intent: &RotationIntent,
    predecessor: &ConfigCapsuleV3,
    now: u64,
) -> (r: Result<Id32, RotationError>)
    ensures
        r == plan_against_intent_outcome(*plan, *intent, *predecessor, now),
{
    let plan_hash = validate_rotation_plan_v3(plan, predecessor, now)?;
    let old = &plan.old_roster;
    let new = &plan.new_roster;
    let new_count = new.len() as u16;
    if !context_eq(&plan.context, &intent.context) || !id_eq(&plan.intent_hash, &intent.transcript_hash)
        || intent.old_guardian_count != predecessor.guardian_count || intent.old_guardian_threshold
        != predecessor.guardian_threshold || !contains_u16(
        &intent.allowed_new_guardian_count,
        new_count,
    ) || !contains_u16(&intent.allowed_new_guardian_threshold, plan.new_guardian_threshold)
        || !contains_u16(&intent.allowed_dpss_suites, plan.dpss_suite) || !id_eq(
        &plan.dpss_qualified_set_commitment,
        &plan.new_roster_commitment,
    ) || plan.preparation_deadline <= now {
        return Err(RotationError::IntentViolation);
    }
    let removed = match only_missing(old, new) {
        Some(x) => x,
        None => return Err(RotationError::ReplacementViolation),
    };
    let added = match only_missing(new, old) {
        Some(y) => y,
        None => return Err(RotationError::ReplacementViolation),
    };
    proof {
        assert(removed_exactly(*plan, removed));
        assert(added_exactly(*plan, added));
        let x = removed_guardian(*plan);
        assert(in_roster(old@, x));
        let y = added_guardian(*plan);
        assert(in_roster(new@, y));
    }
    let p = match last_position_of(old, removed) {
        Some(p) => p,
        None => return Err(RotationError::ReplacementViolation),
    };
    proof {
        lemma_route_of(old@, p as int);
    }
    if !id_eq(&old[p].index_digest, &intent.selection_constraints_commitment) {
        return Err(RotationError::ReplacementViolation);
    }
    // Every guardian in both rosters keeps its identity with a fresh route.
    let mut i: usize = 0;
    while i < old.len()
        invariant
            i <= old@.len(),
            forall|k: int|
                0 <= k < i && is_last_route(old@, k) && in_roster(new@, (#[trigger] old@[k]).guardian_index)
                    ==> kept_identity_ok(old@[k], route_of(new@, old@[k].guardian_index)),
        decreases old.len() - i,
    {
        if is_last_at(old, i) {
            if let Some(j) = last_position_of(new, old[i].guardian_index) {
                proof {
                    lemma_route_of(old@, i as int);
                    lemma_route_of(new@, j as int);
                }
                if !kept_identity(&old[i], &new[j]) {
                    proof {
                        let x = old@[i as int].guardian_index;
                        assert(in_roster(old@, x) && in_roster(new@, x));
                    }
                    return Err(RotationError::IdentityChanged);
                }
            }
        }
        i = i + 1;
    }
    proof {
        assert forall|x: u16|
            #![trigger in_roster(plan.old_roster@, x), in_roster(plan.new_roster@, x)]
            in_roster(plan.old_roster@, x) && in_roster(plan.new_roster@, x) implies kept_identity_ok(
            route_of(plan.old_roster@, x),
            route_of(plan.new_roster@, x),
        ) by {
            let j = choose|j: int| 0 <= j < old@.len() && (#[trigger] old@[j]).guardian_index == x;
            lemma_last_route_exists(old@, x, j);
            let k = choose|k: int| is_last_route(old@, k) && old@[k].guardian_index == x;
            lemma_route_of(old@, k);
        }
    }
    // The successor roster repeats nothing.
    let mut a: usize = 0;
    while a < new.len()
        invariant
            a <= new@.len(),
            forall|u: int, v: int|
                0 <= u < v < new@.len() && u < a && is_last_route(new@, u) && is_last_route(new@, v)
                    ==> routes_distinct(#[trigger] new@[u], #[trigger] new@[v]),
        decreases new.len() - a,
    {
        if is_last_at(new, a) {
            let mut b: usize = a + 1;
            while b < new.len()
                invariant
                    a < b <= new@.len(),
                    is_last_route(new@, a as int),
                    forall|v: int|
                        a < v < b && is_last_route(new@, v) ==> routes_distinct(new@[a as int], #[trigger] new@[v]),
                decreases new.len() - b,
            {
                if is_last_at(new, b) && !distinct_routes(&new[a], &new[b]) {
                    proof {
                        lemma_route_of(new@, a as int);
                        lemma_route_of(new@, b as int);
                        let x = new@[a as int].guardian_index;
                        let y = new@[b as int].guardian_index;
                        assert(x != y);
                        assert(in_roster(new@, x) && in_roster(new@, y));
                    }
                    return Err(RotationError::DuplicateIdentity);
                }
                b = b + 1;
            }
        }
        a = a + 1;
    }
    let q = match last_position_of(new, added) {
        Some(q) => q,
        None => return Err(RotationError::ReplacementViolation),
    };
    proof {
        lemma_route_of(new@, q as int);
    }
    let mut k: usize = 0;
    while k < old.len()
        invariant
            k <= old@.len(),
            forall|c: int|
                0 <= c < k && is_last_route(old@, c) ==> (#[trigger] old@[c]).guardian_public_key
                    != new@[q as int].guardian_public_key,
        decreases old.len() - k,
    {
        if is_last_at(old, k) && id_eq(&old[k].guardian_public_key, &new[q].guardian_public_key) {
            proof {
                lemma_route_of(old@, k as int);
            }
            return Err(RotationError::DuplicateIdentity);
        }
        k = k + 1;
    }
    proof {
        assert forall|x: u16, y: u16|
            #![trigger in_roster(plan.new_roster@, x), in_roster(plan.new_roster@, y)]
            in_roster(plan.new_roster@, x) && in_roster(plan.new_roster@, y) && x != y implies routes_distinct(
            route_of(plan.new_roster@, x),
            route_of(plan.new_roster@, y),
        ) by {
            let jx = choose|j: int| 0 <= j < new@.len() && (#[trigger] new@[j]).guardian_index == x;
            lemma_last_route_exists(new@, x, jx);
            let u = choose|u: int| is_last_route(new@, u) && new@[u].guardian_index == x;
            lemma_route_of(new@, u);
            let jy = choose|j: int| 0 <= j < new@.len() && (#[trigger] new@[j]).guardian_index == y;
            lemma_last_route_exists(new@, y, jy);
            let v = choose|v: int| is_last_route(new@, v) && new@[v].guardian_index == y;
            lemma_route_of(new@, v);
            if u < v {
                assert(routes_distinct(new@[u], new@[v]));
            } else {
                assert(routes_distinct(new@[v], new@[u]));
            }
        }
        assert(!exists|x: u16|
            #![trigger in_roster(plan.old_roster@, x)]
            in_roster(plan.old_roster@, x) && route_of(plan.old_roster@, x).guardian_public_key
                == route_of(plan.new_roster@, added_guardian(*plan)).guardian_public_key) by {
            if exists|x: u16|
                #![trigger in_roster(plan.old_roster@, x)]
                in_roster(plan.old_roster@, x) && route_of(plan.old_roster@, x).guardian_public_key
                    == route_of(plan.new_roster@, added_guardian(*plan)).guardian_public_key {
                let x = choose|x: u16|
                    #![trigger in_roster(plan.old_roster@, x)]
                    in_roster(plan.old_roster@, x) && route_of(plan.old_roster@, x).guardian_public_key
                        == route_of(plan.new_roster@, added_guardian(*plan)).guardian_public_key;
                let j = choose|j: int| 0 <= j < old@.len() && (#[trigger] old@[j]).guardian_index == x;
                lemma_last_route_exists(old@, x, j);
                let c = choose|c: int| is_last_route(old@, c) && old@[c].guardian_index == x;
                lemma_route_of(old@, c);
                assert(old@[c].guardian_public_key != new@[q as int].guardian_public_key);
            }
        }
    }
    Ok(plan_hash)
}

/// One signer's vote on a rotation step.
#[derive(Clone, Copy, Debug)]
pub struct SignerRotationVote {
    pub signer_id: u16,
    pub signer_public_key: Id32,
    /// The Merkle proof places this key at `signer_id` under the
    /// predecessor's signer-set commitment.
    pub membership_verified: bool,
    /// The signature over the vote's transcript verifies.
    pub signature_verified: bool,
}

/// Vote `i` is from an in-range signer not seen earlier whose membership
/// proof and signature verify.
pub open spec fn rotation_vote_ok(predecessor: ConfigCapsuleV3, votes: Seq<SignerRotationVote>, i: int) -> bool {
    &&& forall|j: int| 0 <= j < i ==> (#[trigger] votes[j]).signer_id != votes[i].signer_id
    &&& 1 <= votes[i].signer_id <= predecessor.signer_count
    &&& votes[i].membership_verified
    &&& votes[i].signature_verified
}

/// Outcome of checking a list of signer votes.
pub open spec fn rotation_votes_outcome(
    predecessor: ConfigCapsuleV3,
    votes: Seq<SignerRotationVote>,
) -> Result<(), RotationError> {
    if exists|i: int| 0 <= i < votes.len() && !#[trigger] rotation_vote_ok(predecessor, votes, i) {
        Err(RotationError::InvalidSignerVote)
    } else if votes.len() < predecessor.signer_threshold {
        Err(RotationError::SignerThresholdNotReached)
    } else {
        Ok(())
    }
}

/// Checks that every vote is acceptable and that a signer threshold voted.
#[verifier::loop_isolation(false)]
fn check_rotation_votes(
    predecessor: &ConfigCapsuleV3,
    votes: &Vec<SignerRotationVote>,
) -> (r: Result<(), RotationError>)
    ensures
        r == rotation_votes_outcome(*predecessor, votes@),
{
    let mut i: usize = 0;
    while i < votes.len()
        invariant
            i <= votes@.len(),
            forall|k: int| 0 <= k < i ==> #[trigger] rotation_vote_ok(*predecessor, votes@, k),
        decreases votes.len() - i,
    {
        let vote = votes[i];
        let mut j: usize = 0;
        while j < i
            invariant
                j <= i < votes@.len(),
                vote == votes@[i as int],
                forall|k: int| 0 <= k < j ==> (#[trigger] votes@[k]).signer_id != vote.signer_id,
            decreases i - j,
        {
            if votes[j].signer_id == vote.signer_id {
                assert(!rotation_vote_ok(*predecessor, votes@, i as int));
                return Err(RotationError::InvalidSignerVote);
            }
            j = j + 1;
        }
        if vote.signer_id == 0 || vote.signer_id > predecessor.signer_count || !vote.membership_verified
            || !vote.signature_verified {
            assert(!rotation_vote_ok(*predecessor, votes@, i as int));
            return Err(RotationError::InvalidSignerVote);
        }
        assert(rotation_vote_ok(*predecessor, votes@, i as int));
        i = i + 1;
    }
    if votes.len() < predecessor.signer_threshold as usize {
        return Err(RotationError::SignerThresholdNotReached);
    }
    Ok(())
}

/// A signer threshold's Begin of an exact rotation plan.
#[derive(Clone, Debug)]
pub struct BeginRotationCertificate {
    pub context: RotationContext,
    pub intent_hash: Id32,
    pub plan_hash: Id32,
    pub old_roster_commitment: Id32,
    pub new_roster_commitment: Id32,
    pub not_before_wall: u64,
    pub votes: Vec<SignerRotationVote>,
    /// SHA-256 of the certificate's canonical transcript.
    pub transcript_hash: Id32,
    /// The certificate has a canonical transcript encoding.
    pub canonical: bool,
}

/// The Begin certificate names the exact plan and waits at least the
/// plan's delay from issue.
pub open spec fn begin_binds_plan(
    certificate: BeginRotationCertificate,
    plan: RotationPlan,
    plan_hash: Id32,
    now: u64,
) -> bool {
    &&& same_context(certificate.context, plan.context)
    &&& certificate.intent_hash == plan.intent_hash
    &&& certificate.plan_hash == plan_hash
    &&& certificate.old_roster_commitment == plan.old_roster_commitment
    &&& certificate.new_roster_commitment == plan.new_roster_commitment
    &&& now < plan.preparation_deadline
    &&& certificate.not_before_wall >= saturating_add(
        certificate.context.issued_at,
        plan.minimum_delay_secs,
    )
}

/// Outcome of checking a Begin certificate.
pub open spec fn begin_rotation_outcome(
    certificate: BeginRotationCertificate,
    plan: RotationPlan,
    predecessor: ConfigCapsuleV3,
    now: u64,
) -> Result<Id32, RotationError> {
    match plan_outcome(plan, predecessor, now) {
        Err(e) => Err(e),
        Ok(plan_hash) => if !certificate.canonical {
            Err(RotationError::CertificateNotCanonical)
        } else if !begin_binds_plan(certificate, plan, plan_hash, now) {
            Err(RotationError::CertificateMismatch)
        } else {
            match rotation_votes_outcome(predecessor, certificate.votes@) {
                Err(e) => Err(e),
                Ok(_) => Ok(certificate.transcript_hash),
            }
        },
    }
}

/// Checks a signer threshold's Begin of the exact plan and delay and
/// returns its transcript hash.
pub fn validate_begin_rotation_certificate_v3(
    certificate: &BeginRotationCertificate,
    plan: &RotationPlan,
    predecessor: &ConfigCapsuleV3,
    now: u64,
) -> (r: Result<Id32, RotationError>)
    ensures
        r == begin_rotation_outcome(*certificate, *plan, *predecessor, now),
{
    let plan_hash = validate_rotation_plan_v3(plan, predecessor, now)?;
    if !certificate.canonical {
        return Err(RotationError::CertificateNotCanonical);
    }
    if !context_eq(&certificate.context, &plan.context) || !id_eq(&certificate.intent_hash, &plan.intent_hash)
        || !id_eq(&certificate.plan_hash, &plan_hash) || !id_eq(
        &certificate.old_roster_commitment,
        &plan.old_roster_commitment,
    ) || !id_eq(&certificate.new_roster_commitment, &plan.new_roster_commitment)
        || plan.preparation_deadline <= now || certificate.not_before_wall
        < certificate.context.issued_at.saturating_add(plan.minimum_delay_secs) {
        return Err(RotationError::CertificateMismatch);
    }
    check_rotation_votes(predecessor, &certificate.votes)?;
    Ok(certificate.transcript_hash)
}

/// A fresh signer threshold's Release of a begun rotation.
#[derive(Clone, Debug)]
pub struct RotationReleaseCertificate {
    pub context: RotationContext,
    pub plan_hash: Id32,
    pub begin_certificate_hash: Id32,
    pub votes: Vec<SignerRotationVote>,
    /// SHA-256 of the certificate's canonical transcript.
    pub transcript_hash: Id32,
    /// The certificate has a canonical transcript encoding.
    pub canonical: bool,
}

/// Outcome of checking a Release certificate.
pub open spec fn rotation_release_outcome(
    release: RotationReleaseCertificate,
    begin: BeginRotationCertificate,
    plan: RotationPlan,
    predecessor: ConfigCapsuleV3,
    now: u64,
) -> Result<Id32, RotationError> {
    match begin_rotation_outcome(begin, plan, predecessor, now) {
        Err(e) => Err(e),
        Ok(begin_hash) => if !release.canonical {
            Err(RotationError::CertificateNotCanonical)
        } else if !same_context(release.context, plan.context) || release.plan_hash
            != plan.transcript_hash || release.begin_certificate_hash != begin_hash || now
            < begin.not_before_wall || now >= plan.preparation_deadline {
            Err(RotationError::CertificateMismatch)
        } else {
            match rotation_votes_outcome(predecessor, release.votes@) {
                Err(e) => Err(e),
                Ok(_) => Ok(release.transcript_hash),
            }
        },
    }
}

/// Checks a Release after the Begin delay and before the preparation
/// deadline, and returns its transcript hash.
pub fn validate_rotation_release_certificate_v3(
    release: &RotationReleaseCertificate,
    begin: &BeginRotationCertificate,
    plan: &RotationPlan,
    predecessor: &ConfigCapsuleV3,
    now: u64,
) -> (r: Result<Id32, RotationError>)
    ensures
        r == rotation_release_outcome(*release, *begin, *plan, *predecessor, now),
{
    let begin_hash = validate_begin_rotation_certificate_v3(begin, plan, predecessor, now)?;
    if !release.canonical {
        return Err(RotationError::CertificateNotCanonical);
    }
    if !context_eq(&release.context, &plan.context) || !id_eq(&release.plan_hash, &plan.transcript_hash)
        || !id_eq(&release.begin_certificate_hash, &begin_hash) || now < begin.not_before_wall || now
        >= plan.preparation_deadline {
        return Err(RotationError::CertificateMismatch);
    }
    check_rotation_votes(predecessor, &release.votes)?;
    Ok(release.transcript_hash)
}

/// Where a rotation stood.
#[derive(Debug, Clone, Copy, PartialEq, Eq)]
pub enum RotationState {
    Proposed,
    DelayPending,
    Preparing,
    Ready,
    Activating,
    /// The successor epoch was activated.
    Activated,
    Aborted,
}

/// The rotation had not yet activated its successor.
pub open spec fn before_activation(state: RotationState) -> bool {
    match state {
        RotationState::Proposed | RotationState::DelayPending | RotationState::Preparing
        | RotationState::Ready | RotationState::Activating => true,
        _ => false,
    }
}

/// One signer's vote to abort a rotation.
#[derive(Clone, Debug)]
pub struct SignerAbortVote {
    pub context: RotationContext,
    pub plan_hash: Id32,
    pub state_at_abort: RotationState,
    pub reason_code: u16,
    pub signer_id: u16,
    pub signer_public_key: Id32,
    /// The Merkle proof places this key at `signer_id`.
    pub membership_verified: bool,
    /// The signature over the vote's transcript verifies.
    pub signature_verified: bool,
}

/// A signer threshold's abort of a rotation that had not activated.
#[derive(Clone, Debug)]
pub struct AbortRotationCertificate {
    pub context: RotationContext,
    pub plan_hash: Id32,
    pub state_at_abort: RotationState,
    pub reason_code: u16,
    pub votes: Vec<SignerAbortVote>,
    /// SHA-256 of the certificate's canonical transcript.
    pub transcript_hash: Id32,
    /// The certificate has a canonical transcript encoding.
    pub canonical: bool,
}

/// Abort vote `i` agrees with the certificate, comes from an in-range
/// signer not seen earlier, and verifies.
pub open spec fn abort_vote_ok(
    certificate: AbortRotationCertificate,
    predecessor: ConfigCapsuleV3,
    i: int,
) -> bool {
    let votes = certificate.votes@;
    &&& same_context(votes[i].context, certificate.context)
    &&& votes[i].plan_hash == certificate.plan_hash
    &&& votes[i].state_at_abort == certificate.state_at_abort
    &&& votes[i].reason_code == certificate.reason_code
    &&& forall|j: int| 0 <= j < i ==> (#[trigger] votes[j]).signer_id != votes[i].signer_id
    &&& 1 <= votes[i].signer_id <= predecessor.signer_count
    &&& votes[i].membership_verified
    &&& votes[i].signature_verified
}

/// Outcome of checking an abort certificate.
pub open spec fn abort_rotation_outcome(
    certificate: AbortRotationCertificate,
    plan: RotationPlan,
    predecessor: ConfigCapsuleV3,
    now: u64,
) -> Result<Id32, RotationError> {
    match plan_outcome(plan, predecessor, now) {
        Err(e) => Err(e),
        Ok(plan_hash) => if !certificate.canonical {
            Err(RotationError::CertificateNotCanonical)
        } else if !same_context(certificate.context, plan.context) || certificate.plan_hash != plan_hash
            || !before_activation(certificate.state_at_abort) {
            Err(RotationError::CertificateMismatch)
        } else if exists|i: int|
            0 <= i < certificate.votes@.len() && !#[trigger] abort_vote_ok(certificate, predecessor, i) {
            Err(RotationError::InvalidSignerVote)
        } else if certificate.votes@.len() < predecessor.signer_threshold {
            Err(RotationError::SignerThresholdNotReached)
        } else {
            Ok(certificate.transcript_hash)
        },
    }
}

/// Checks a signer threshold's abort of a rotation that had not yet
/// activated and returns its transcript hash; it stays valid after the
/// preparation deadline.
#[verifier::loop_isolation(false)]
pub fn validate_abort_rotation_certificate_v3(
    certificate: &AbortRotationCertificate,
    plan: &RotationPlan,
    predecessor: &ConfigCapsuleV3,
    now: u64,
) -> (r: Result<Id32, RotationError>)
    ensures
        r == abort_rotation_outcome(*certificate, *plan, *predecessor, now),
{
    let plan_hash = validate_rotation_plan_v3(plan, predecessor, now)?;
    if !certificate.canonical {
        return Err(RotationError::CertificateNotCanonical);
    }
    let state_ok = match certificate.state_at_abort {
        RotationState::Proposed | RotationState::DelayPending | RotationState::Preparing
        | RotationState::Ready | RotationState::Activating => true,
        _ => false,
    };
    if !context_eq(&certificate.context, &plan.context) || !id_eq(&certificate.plan_hash, &plan_hash)
        || !state_ok {
        return Err(RotationError::CertificateMismatch);
    }
    let votes = &certificate.votes;
    let mut i: usize = 0;
    while i < votes.len()
        invariant
            i <= votes@.len(),
            forall|k: int| 0 <= k < i ==> #[trigger] abort_vote_ok(*certificate, *predecessor, k),
        decreases votes.len() - i,
    {
        let vote = &votes[i];
        let same_state = match (vote.state_at_abort, certificate.state_at_abort) {
            (RotationState::Proposed, RotationState::Proposed) => true,
            (RotationState::DelayPending, RotationState::DelayPending) => true,
            (RotationState::Preparing, RotationState::Preparing) => true,
            (RotationState::Ready, RotationState::Ready) => true,
            (RotationState::Activating, RotationState::Activating) => true,
            (RotationState::Activated, RotationState::Activated) => true,
            (RotationState::Aborted, RotationState::Aborted) => true,
            _ => false,
        };
        if !context_eq(&vote.context, &certificate.context) || !id_eq(&vote.plan_hash, &certificate.plan_hash)
            || !same_state || vote.reason_code != certificate.reason_code {
            assert(!abort_vote_ok(*certificate, *predecessor, i as int));
            return Err(RotationError::InvalidSignerVote);
        }
        let mut j: usize = 0;
        while j < i
            invariant
                j <= i < votes@.len(),
                forall|k: int| 0 <= k < j ==> (#[trigger] votes@[k]).signer_id != vote.signer_id,
            decreases i - j,
        {
            if votes[j].signer_id == vote.signer_id {
                assert(!abort_vote_ok(*certificate, *predecessor, i as int));
                return Err(RotationError::InvalidSignerVote);
            }
            j = j + 1;
        }
        if vote.signer_id == 0 || vote.signer_id > predecessor.signer_count || !vote.membership_verified
            || !vote.signature_verified {
            assert(!abort_vote_ok(*certificate, *predecessor, i as int));
            return Err(RotationError::InvalidSignerVote);
        }
        assert(abort_vote_ok(*certificate, *predecessor, i as int));
        i = i + 1;
    }
    if votes.len() < predecessor.signer_threshold as usize {
        return Err(RotationError::SignerThresholdNotReached);
    }
    Ok(certificate.transcript_hash)
}

/// A guardian's signed acknowledgement in a Ready certificate.
#[derive(Clone, Copy, Debug)]
pub struct GuardianSignedAck {
    pub guardian_index: u16,
    /// The signature verifies under the key the plan's roster pins for
    /// `guardian_index`.
    pub signature_verified: bool,
}

/// Every successor prepared and an old threshold handed off.
#[derive(Clone, Debug)]
pub struct RotationReadyCertificate {
    pub context: RotationContext,
    pub plan_hash: Id32,
    pub successor: ConfigRef,
    pub dpss_result_commitment: Id32,
    pub guardian_material_root: Id32,
    pub encrypted_descriptor_hash: Id32,
    pub prepared_acks: Vec<GuardianSignedAck>,
    pub old_handoff_acks: Vec<GuardianSignedAck>,
    /// SHA-256 of the certificate's canonical transcript.
    pub transcript_hash: Id32,
    /// The certificate has a canonical transcript encoding.
    pub canonical: bool,
}

/// Ack `i` is from a guardian of `roster`, repeats no earlier ack's
/// guardian, and verifies.
pub open spec fn guardian_ack_ok(roster: Seq<GuardianRouteV3>, acks: Seq<GuardianSignedAck>, i: int) -> bool {
    &&& in_roster(roster, acks[i].guardian_index)
    &&& !acked_before(acks, i, acks[i].guardian_index)
    &&& acks[i].signature_verified
}

/// One of the first `end` acks is from guardian `x`.
pub open spec fn acked_before(acks: Seq<GuardianSignedAck>, end: int, x: u16) -> bool {
    exists|j: int| 0 <= j < end && (#[trigger] acks[j]).guardian_index == x
}

/// Some ack of `acks` is from guardian `x`.
pub open spec fn acked_by(acks: Seq<GuardianSignedAck>, x: u16) -> bool {
    acked_before(acks, acks.len() as int, x)
}

/// Every guardian of `roster` has an ack in `acks`.
pub open spec fn every_route_acked(roster: Seq<GuardianRouteV3>, acks: Seq<GuardianSignedAck>) -> bool {
    forall|i: int| 0 <= i < roster.len() ==> acked_by(acks, (#[trigger] roster[i]).guardian_index)
}

/// The error the first unacceptable ack of `acks` gives, if any.
pub open spec fn guardian_acks_refusal(
    roster: Seq<GuardianRouteV3>,
    acks: Seq<GuardianSignedAck>,
) -> Option<RotationError> {
    if exists|i: int| 0 <= i < acks.len() && !#[trigger] guardian_ack_ok(roster, acks, i) {
        let i = choose|i: int|
            0 <= i < acks.len() && !#[trigger] guardian_ack_ok(roster, acks, i) && forall|j: int|
                0 <= j < i ==> guardian_ack_ok(roster, acks, j);
        if !in_roster(roster, acks[i].guardian_index) {
            Some(RotationError::UnknownGuardian)
        } else if acked_before(acks, i, acks[i].guardian_index) {
            Some(RotationError::DuplicateGuardianAck)
        } else {
            Some(RotationError::BadGuardianSignature)
        }
    } else {
        None
    }
}

/// Whether one of the first `end` acks is from guardian `x`.
fn acked_before_exec(acks: &Vec<GuardianSignedAck>, end: usize, x: u16) -> (r: bool)
    requires
        end <= acks@.len(),
    ensures
        r == acked_before(acks@, end as int, x),
{
    let mut j: usize = 0;
    while j < end
        invariant
            j <= end <= acks@.len(),
            forall|k: int| 0 <= k < j ==> (#[trigger] acks@[k]).guardian_index != x,
        decreases end - j,
    {
        if acks[j].guardian_index == x {
            assert(acks@[j as int].guardian_index == x);
            return true;
        }
        j = j + 1;
    }
    false
}

/// Whether every guardian of `roster` has an ack in `acks`.
fn check_every_route_acked(roster: &Vec<GuardianRouteV3>, acks: &Vec<GuardianSignedAck>) -> (r: bool)
    ensures
        r == every_route_acked(roster@, acks@),
{
    let mut i: usize = 0;
    while i < roster.len()
        invariant
            i <= roster@.len(),
            forall|k: int| 0 <= k < i ==> acked_by(acks@, (#[trigger] roster@[k]).guardian_index),
        decreases roster.len() - i,
    {
        if !acked_before_exec(acks, acks.len(), roster[i].guardian_index) {
            assert(!acked_by(acks@, roster@[i as int].guardian_index));
            return false;
        }
        i = i + 1;
    }
    true
}

/// Checks guardian acks against a roster.
fn check_guardian_acks(roster: &Vec<GuardianRouteV3>, acks: &Vec<GuardianSignedAck>) -> (r: Result<(), RotationError>)
    ensures
        match guardian_acks_refusal(roster@, acks@) {
            Some(e) => r == Err::<(), RotationError>(e),
            None => r is Ok,
        },
{
    let mut i: usize = 0;
    while i < acks.len()
        invariant
            i <= acks@.len(),
            forall|k: int| 0 <= k < i ==> #[trigger] guardian_ack_ok(roster@, acks@, k),
        decreases acks.len() - i,
    {
        let ack = acks[i];
        let known = last_position_of(roster, ack.guardian_index).is_some();
        let repeated = acked_before_exec(acks, i, ack.guardian_index);
        if !known || repeated || !ack.signature_verified {
            proof {
                if known {
                    let p = choose|p: int| is_last_route(roster@, p) && roster@[p].guardian_index == ack.guardian_index;
                    assert(roster@[p].guardian_index == ack.guardian_index);
                }
                assert(!guardian_ack_ok(roster@, acks@, i as int));
                let c = choose|c: int|
                    0 <= c < acks@.len() && !#[trigger] guardian_ack_ok(roster@, acks@, c) && forall|j: int|
                        0 <= j < c ==> guardian_ack_ok(roster@, acks@, j);
                if c < i {
                    assert(guardian_ack_ok(roster@, acks@, c));
                } else if c > i {
                    assert(guardian_ack_ok(roster@, acks@, i as int));
                }
            }
            if !known {
                return Err(RotationError::UnknownGuardian);
            }
            if repeated {
                return Err(RotationError::DuplicateGuardianAck);
            }
            return Err(RotationError::BadGuardianSignature);
        }
        proof {
            let p = choose|p: int| is_last_route(roster@, p) && roster@[p].guardian_index == ack.guardian_index;
            assert(roster@[p].guardian_index == ack.guardian_index);
        }
        assert(guardian_ack_ok(roster@, acks@, i as int));
        i = i + 1;
    }
    Ok(())
}

/// Outcome of checking a Ready certificate.
pub open spec fn ready_outcome(
    ready: RotationReadyCertificate,
    plan: RotationPlan,
    predecessor: ConfigCapsuleV3,
    now: u64,
) -> Result<Id32, RotationError> {
    match plan_outcome(plan, predecessor, now) {
        Err(e) => Err(e),
        Ok(plan_hash) => if !ready.canonical {
            Err(RotationError::CertificateNotCanonical)
        } else if !same_context(ready.context, plan.context) || ready.plan_hash != plan_hash
            || ready.successor != plan.successor || now >= plan.preparation_deadline
            || ready.prepared_acks@.len() != plan.new_roster@.len() || ready.old_handoff_acks@.len()
            < plan.old_guardian_threshold {
            Err(RotationError::CertificateMismatch)
        } else {
            match guardian_acks_refusal(plan.new_roster@, ready.prepared_acks@) {
                Some(e) => Err(e),
                None => if !every_route_acked(plan.new_roster@, ready.prepared_acks@) {
                    Err(RotationError::CertificateMismatch)
                } else {
                    match guardian_acks_refusal(plan.old_roster@, ready.old_handoff_acks@) {
                        Some(e) => Err(e),
                        None => Ok(ready.transcript_hash),
                    }
                },
            }
        },
    }
}

/// Checks that every successor prepared and an old threshold handed off,
/// before the preparation deadline, and returns the transcript hash.
pub fn validate_rotation_ready_certificate_v3(
    ready: &RotationReadyCertificate,
    plan: &RotationPlan,
    predecessor: &ConfigCapsuleV3,
    now: u64,
) -> (r: Result<Id32, RotationError>)
    ensures
        r == ready_outcome(*ready, *plan, *predecessor, now),
{
    let plan_hash = validate_rotation_plan_v3(plan, predecessor, now)?;
    if !ready.canonical {
        return Err(RotationError::CertificateNotCanonical);
    }
    if !context_eq(&ready.context, &plan.context) || !id_eq(&ready.plan_hash, &plan_hash)
        || !config_ref_eq(&ready.successor, &plan.successor) || now >= plan.preparation_deadline
        || ready.prepared_acks.len() != plan.new_roster.len() || ready.old_handoff_acks.len()
        < plan.old_guardian_threshold as usize {
        return Err(RotationError::CertificateMismatch);
    }
    check_guardian_acks(&plan.new_roster, &ready.prepared_acks)?;
    if !check_every_route_acked(&plan.new_roster, &ready.prepared_acks) {
        return Err(RotationError::CertificateMismatch);
    }
    check_guardian_acks(&plan.old_roster, &ready.old_handoff_acks)?;
    Ok(ready.transcript_hash)
}

/// An accepted Ready certificate holds exactly one verified prepared ack
/// from every successor guardian of the plan and from no one else, and
/// verified handoff acks from at least the old threshold of distinct
/// predecessor guardians, taken before the preparation deadline.
pub proof fn lemma_ready_means_every_successor_ready(
    ready: RotationReadyCertificate,
    plan: RotationPlan,
    predecessor: ConfigCapsuleV3,
    now: u64,
)
    requires
        ready_outcome(ready, plan, predecessor, now) is Ok,
    ensures
        now < plan.preparation_deadline,
        forall|x: u16| acked_by(ready.prepared_acks@, x) <==> in_roster(plan.new_roster@, x),
        forall|i: int|
            0 <= i < ready.prepared_acks@.len() ==> (#[trigger] ready.prepared_acks@[i]).signature_verified,
        forall|i: int, j: int|
            0 <= i < j < ready.prepared_acks@.len() ==> (#[trigger] ready.prepared_acks@[i]).guardian_index
                != (#[trigger] ready.prepared_acks@[j]).guardian_index,
        forall|i: int|
            0 <= i < ready.old_handoff_acks@.len() ==> in_roster(
                plan.old_roster@,
                (#[trigger] ready.old_handoff_acks@[i]).guardian_index,
            ) && ready.old_handoff_acks@[i].signature_verified,
        forall|i: int, j: int|
            0 <= i < j < ready.old_handoff_acks@.len() ==> (#[trigger] ready.old_handoff_acks@[i]).guardian_index
                != (#[trigger] ready.old_handoff_acks@[j]).guardian_index,
        ready.old_handoff_acks@.len() >= plan.old_guardian_threshold,
{
    let prepared = ready.prepared_acks@;
    let handoff = ready.old_handoff_acks@;
    assert(guardian_acks_refusal(plan.new_roster@, prepared) is None);
    assert(guardian_acks_refusal(plan.old_roster@, handoff) is None);
    assert forall|x: u16| acked_by(prepared, x) <==> in_roster(plan.new_roster@, x) by {
        if acked_by(prepared, x) {
            let j = choose|j: int| 0 <= j < prepared.len() && (#[trigger] prepared[j]).guardian_index == x;
            assert(guardian_ack_ok(plan.new_roster@, prepared, j));
        }
        if in_roster(plan.new_roster@, x) {
            let i = choose|i: int| 0 <= i < plan.new_roster@.len() && (#[trigger] plan.new_roster@[i]).guardian_index == x;
            assert(acked_by(prepared, plan.new_roster@[i].guardian_index));
        }
    }
    assert forall|i: int| 0 <= i < prepared.len() implies (#[trigger] prepared[i]).signature_verified by {
        assert(guardian_ack_ok(plan.new_roster@, prepared, i));
    }
    assert forall|i: int, j: int| 0 <= i < j < prepared.len() implies (#[trigger] prepared[i]).guardian_index
        != (#[trigger] prepared[j]).guardian_index by {
        assert(guardian_ack_ok(plan.new_roster@, prepared, j));
    }
    assert forall|i: int| 0 <= i < handoff.len() implies in_roster(
        plan.old_roster@,
        (#[trigger] handoff[i]).guardian_index,
    ) && handoff[i].signature_verified by {
        assert(guardian_ack_ok(plan.old_roster@, handoff, i));
    }
    assert forall|i: int, j: int| 0 <= i < j < handoff.len() implies (#[trigger] handoff[i]).guardian_index
        != (#[trigger] handoff[j]).guardian_index by {
        assert(guardian_ack_ok(plan.old_roster@, handoff, j));
    }
}

/// A witness's signed veto of one rotation.
#[derive(Clone, Copy, Debug)]
pub struct WitnessRotationCancelAck {
    pub protocol_version: u16,
    pub config_id: Id32,
    pub rotation_id: Id32,
    pub plan_hash: Id32,
    pub cancel_certificate_hash: Id32,
    pub witness_id: u16,
    pub witness_public_key: Id32,
    /// The signature verifies under `witness_public_key`.
    pub signature_verified: bool,
}

/// Veto `i` is from a pinned witness under its pinned key, matches the
/// cancellation, repeats no earlier witness, and verifies.
pub open spec fn veto_ok(
    card: RecoveryCardV3,
    plan: RotationPlan,
    plan_hash: Id32,
    cancel_hash: Id32,
    acks: Seq<WitnessRotationCancelAck>,
    i: int,
) -> bool {
    let ack = acks[i];
    &&& is_pinned(card, ack.witness_id)
    &&& ack.protocol_version == PROTOCOL_VERSION_V3
    &&& ack.config_id == card.config_id
    &&& ack.rotation_id == plan.context.rotation_id
    &&& ack.plan_hash == plan_hash
    &&& ack.cancel_certificate_hash == cancel_hash
    &&& pin_has_key(card, ack.witness_id, ack.witness_public_key)
    &&& forall|j: int| 0 <= j < i ==> (#[trigger] acks[j]).witness_id != ack.witness_id
    &&& ack.signature_verified
}

/// The cancellation binds the active plan, card and predecessor owner key.
pub open spec fn cancellation_binds_plan(
    certificate: OwnerRotationCancelCertificate,
    card: RecoveryCardV3,
    plan: RotationPlan,
    plan_hash: Id32,
    predecessor: ConfigCapsuleV3,
) -> bool {
    &&& card.config_id == predecessor.config_ref.config_id
    &&& card.owner_cancel_public_key == predecessor.owner_cancel_public_key
    &&& same_context(certificate.context, plan.context)
    &&& certificate.plan_hash == plan_hash
    &&& certificate.owner_cancel_public_key == predecessor.owner_cancel_public_key
    &&& certificate.cancel_response_recipient_key@.len() == XWING_PUBLIC_KEY_LEN
}

/// Outcome of checking an owner's rotation cancellation with its witness
/// vetoes.
pub open spec fn owner_cancel_quorum_outcome(
    certificate: OwnerRotationCancelCertificate,
    acks: Seq<WitnessRotationCancelAck>,
    card: RecoveryCardV3,
    plan: RotationPlan,
    predecessor: ConfigCapsuleV3,
    now: u64,
) -> Result<Id32, RotationError> {
    if !card_valid(card) {
        Err(RotationError::InvalidCard(card_error(card)))
    } else {
        match plan_outcome(plan, predecessor, now) {
            Err(e) => Err(e),
            Ok(plan_hash) => if !cancellation_binds_plan(certificate, card, plan, plan_hash, predecessor) {
                Err(RotationError::CertificateMismatch)
            } else if !certificate.signature_verified {
                Err(RotationError::BadOwnerSignature)
            } else if exists|i: int|
                0 <= i < acks.len() && !#[trigger] veto_ok(card, plan, plan_hash, certificate.transcript_hash, acks, i) {
                let i = choose|i: int|
                    0 <= i < acks.len() && !#[trigger] veto_ok(card, plan, plan_hash, certificate.transcript_hash, acks, i)
                        && forall|j: int| 0 <= j < i ==> veto_ok(card, plan, plan_hash, certificate.transcript_hash, acks, j);
                if !is_pinned(card, acks[i].witness_id) {
                    Err(RotationError::UnpinnedWitness)
                } else if acks[i].signature_verified || !(acks[i].protocol_version == PROTOCOL_VERSION_V3
                    && acks[i].config_id == card.config_id && acks[i].rotation_id == plan.context.rotation_id
                    && acks[i].plan_hash == plan_hash && acks[i].cancel_certificate_hash == certificate.transcript_hash
                    && pin_has_key(card, acks[i].witness_id, acks[i].witness_public_key) && forall|j: int|
                    0 <= j < i ==> (#[trigger] acks[j]).witness_id != acks[i].witness_id) {
                    Err(RotationError::DuplicateOrMismatchedWitness)
                } else {
                    Err(RotationError::BadWitnessSignature)
                }
            } else if acks.len() < witness_quorum(card.witness_fault_bound as int) {
                Err(RotationError::WitnessQuorumNotReached)
            } else {
                Ok(certificate.transcript_hash)
            },
        }
    }
}

/// Checks an owner's cancellation of the active rotation together with a
/// `2f + 1` quorum of pinned witness vetoes, and returns the cancellation's
/// transcript hash.
#[verifier::loop_isolation(false)]
#[verifier::rlimit(30)]
pub fn validate_owner_rotation_cancel_witness_quorum_v3(
    certificate: &OwnerRotationCancelCertificate,
    witness_acks: &[WitnessRotationCancelAck],
    card: &RecoveryCardV3,
    plan: &RotationPlan,
    predecessor: &ConfigCapsuleV3,
    now: u64,
) -> (r: Result<Id32, RotationError>)
    ensures
        r == owner_cancel_quorum_outcome(*certificate, witness_acks@, *card, *plan, *predecessor, now),
{
    match validate_recovery_card_v3(card) {
        Ok(()) => {},
        Err(e) => return Err(RotationError::InvalidCard(e)),
    }
    let plan_hash = validate_rotation_plan_v3(plan, predecessor, now)?;
    if !id_eq(&card.config_id, &predecessor.config_ref.config_id) || !id_eq(
        &card.owner_cancel_public_key,
        &predecessor.owner_cancel_public_key,
    ) || !context_eq(&certificate.context, &plan.context) || !id_eq(&certificate.plan_hash, &plan_hash)
        || !id_eq(&certificate.owner_cancel_public_key, &predecessor.owner_cancel_public_key)
        || certificate.cancel_response_recipient_key.len() != XWING_PUBLIC_KEY_LEN {
        return Err(RotationError::CertificateMismatch);
    }
    if !certificate.signature_verified {
        return Err(RotationError::BadOwnerSignature);
    }
    let cancel_hash = certificate.transcript_hash;
    let ghost acks = witness_acks@;
    let mut i: usize = 0;
    while i < witness_acks.len()
        invariant
            i <= acks.len(),
            acks == witness_acks@,
            forall|k: int| 0 <= k < i ==> #[trigger] veto_ok(*card, *plan, plan_hash, cancel_hash, acks, k),
        decreases witness_acks.len() - i,
    {
        let ack = witness_acks[i];
        let ghost first_bad = choose|c: int|
            0 <= c < acks.len() && !#[trigger] veto_ok(*card, *plan, plan_hash, cancel_hash, acks, c) && forall|j: int|
                0 <= j < c ==> veto_ok(*card, *plan, plan_hash, cancel_hash, acks, j);
        let k = match pin_index(card, ack.witness_id) {
            Some(k) => k,
            None => {
                proof {
                    assert(!veto_ok(*card, *plan, plan_hash, cancel_hash, acks, i as int));
                    if first_bad < i {
                        assert(veto_ok(*card, *plan, plan_hash, cancel_hash, acks, first_bad));
                    } else if first_bad > i {
                        assert(veto_ok(*card, *plan, plan_hash, cancel_hash, acks, i as int));
                    }
                }
                return Err(RotationError::UnpinnedWitness);
            },
        };
        let mut duplicate = false;
        let mut j: usize = 0;
        while j < i
            invariant
                j <= i < acks.len(),
                duplicate == exists|m: int| 0 <= m < j && (#[trigger] acks[m]).witness_id == ack.witness_id,
            decreases i - j,
        {
            if witness_acks[j].witness_id == ack.witness_id {
                duplicate = true;
            }
            j = j + 1;
        }
        if ack.protocol_version != PROTOCOL_VERSION_V3 || !id_eq(&ack.config_id, &card.config_id)
            || !id_eq(&ack.rotation_id, &plan.context.rotation_id) || !id_eq(&ack.plan_hash, &plan_hash)
            || !id_eq(&ack.cancel_certificate_hash, &cancel_hash) || !id_eq(
            &ack.witness_public_key,
            &card.witnesses[k].public_key,
        ) || duplicate {
            proof {
                assert(!veto_ok(*card, *plan, plan_hash, cancel_hash, acks, i as int));
                if first_bad < i {
                    assert(veto_ok(*card, *plan, plan_hash, cancel_hash, acks, first_bad));
                } else if first_bad > i {
                    assert(veto_ok(*card, *plan, plan_hash, cancel_hash, acks, i as int));
                }
            }
            return Err(RotationError::DuplicateOrMismatchedWitness);
        }
        if !ack.signature_verified {
            proof {
                assert(!veto_ok(*card, *plan, plan_hash, cancel_hash, acks, i as int));
                if first_bad < i {
                    assert(veto_ok(*card, *plan, plan_hash, cancel_hash, acks, first_bad));
                } else if first_bad > i {
                    assert(veto_ok(*card, *plan, plan_hash, cancel_hash, acks, i as int));
                }
            }
            return Err(RotationError::BadWitnessSignature);
        }
        assert(veto_ok(*card, *plan, plan_hash, cancel_hash, acks, i as int));
        i = i + 1;
    }
    let required = (card.witness_fault_bound as usize) * 2 + 1;
    if witness_acks.len() < required {
        return Err(RotationError::WitnessQuorumNotReached);
    }
    Ok(cancel_hash)
}

/// A routine rotation accepted against its Intent replaces exactly one
/// guardian: every other guardian index is in both rosters, and the
/// successor keeps the immutable recovery policy.
pub proof fn lemma_accepted_plan_replaces_exactly_one(
    plan: RotationPlan,
    intent: RotationIntent,
    predecessor: ConfigCapsuleV3,
    now: u64,
)
    requires
        plan_against_intent_outcome(plan, intent, predecessor, now) is Ok,
    ensures
        removed_exactly(plan, removed_guardian(plan)),
        added_exactly(plan, added_guardian(plan)),
        forall|z: u16|
            #![trigger in_roster(plan.old_roster@, z)]
            #![trigger in_roster(plan.new_roster@, z)]
            in_roster(plan.old_roster@, z) != in_roster(plan.new_roster@, z) ==> z == removed_guardian(plan)
                || z == added_guardian(plan),
        is_direct_successor(plan.successor, predecessor.config_ref),
        plan.minimum_delay_secs >= predecessor.minimum_recovery_delay,
        plan.old_guardian_threshold == predecessor.guardian_threshold,
        plan.new_roster@.len() == predecessor.guardian_count,
        route_of(plan.old_roster@, removed_guardian(plan)).index_digest
            == intent.selection_constraints_commitment,
{
    let x = choose|x: u16| removed_exactly(plan, x);
    let y = choose|y: u16| added_exactly(plan, y);
    assert forall|z: u16|
        #![trigger in_roster(plan.old_roster@, z)]
        #![trigger in_roster(plan.new_roster@, z)]
        in_roster(plan.old_roster@, z) != in_roster(plan.new_roster@, z) implies z == removed_guardian(plan)
            || z == added_guardian(plan) by {
        if in_roster(plan.old_roster@, z) {
            assert(removed_exactly(plan, removed_guardian(plan)));
        } else {
            assert(added_exactly(plan, added_guardian(plan)));
        }
    }
}

/// A signer threshold can abort a rotation that has not activated at any
/// time while its plan is current, also after the preparation deadline:
/// the abort outcome does not depend on that deadline.
pub proof fn lemma_abort_ignores_preparation_deadline(
    certificate: AbortRotationCertificate,
    plan: RotationPlan,
    predecessor: ConfigCapsuleV3,
    early: u64,
    late: u64,
)
    requires
        plan.context.issued_at <= early <= late < plan.context.expiry,
    ensures
        abort_rotation_outcome(certificate, plan, predecessor, early) == abort_rotation_outcome(
            certificate,
            plan,
            predecessor,
            late,
        ),
{
}

/// A rotation Release is never early: it is accepted only at or after the
/// Begin certificate's release time, which is at least the plan's minimum
/// delay after the rotation was issued, and before the preparation
/// deadline.
pub proof fn lemma_release_waits_for_begin_delay(
    release: RotationReleaseCertificate,
    begin: BeginRotationCertificate,
    plan: RotationPlan,
    predecessor: ConfigCapsuleV3,
    now: u64,
)
    requires
        rotation_release_outcome(release, begin, plan, predecessor, now) is Ok,
    ensures
        now >= begin.not_before_wall,
        begin.not_before_wall >= saturating_add(plan.context.issued_at, plan.minimum_delay_secs),
        plan.minimum_delay_secs >= predecessor.minimum_recovery_delay,
        now < plan.preparation_deadline,
        begin.votes@.len() >= predecessor.signer_threshold,
        release.votes@.len() >= predecessor.signer_threshold,
{
}

} // verus!
