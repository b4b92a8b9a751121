//! A signer's rotation actor: it approves one Intent per rotation from a
//! fresh witness view, votes Begin for one plan per predecessor, and votes
//! Release, Activate and Abort only for the plan it began, never for a
//! cancelled rotation.
use vstd::prelude::*;

use crate::bytes::{id_eq, Id32};
use crate::epoch::{latest_epoch_choice, select_latest_epoch_v3, EpochError};
use crate::witness::OwnerRotationCancelCertificate;
use crate::model::{
    same_capsule, ConfigCapsuleV3, EpochReadChallenge, RecoveryCardV3, RotationContext,
    WitnessReadEnvelope, PROTOCOL_VERSION_V3, XWING_PUBLIC_KEY_LEN,
};
use crate::rotation::{
    abort_rotation_outcome, begin_rotation_outcome, clone_intent, intent_eq, owner_cancel_quorum_outcome,
    plan_against_intent_outcome, plan_outcome, ready_outcome, validate_abort_rotation_certificate_v3,
    validate_owner_rotation_cancel_witness_quorum_v3, validate_rotation_plan_v3,
    AbortRotationCertificate, RotationState, WitnessRotationCancelAck,
    same_intent, validate_begin_rotation_certificate_v3, validate_rotation_plan_against_intent_v3,
    validate_rotation_ready_certificate_v3, BeginRotationCertificate, RotationError, RotationIntent,
    RotationPlan, RotationReadyCertificate,
};

verus! {

/// Why a signer refused a rotation request.
#[derive(Debug, Clone, Copy, PartialEq, Eq)]
pub enum SignerRotationError {
    /// Wrong protocol or configuration, not current, or a malformed
    /// recipient key.
    MalformedContext,
    /// The fresh witness read selected no epoch.
    WitnessRead(EpochError),
    /// The witness read transcript repeats a witness.
    DuplicateWitnessRead,
    /// The Intent does not bind the fresh active witness view.
    IntentNotBound,
    /// The signer already voted differently in this phase of the rotation.
    ConflictingVote,
    /// The signer already approved a different Intent for the rotation.
    ConflictingIntent,
    /// The rotation was cancelled or aborted.
    RotationCancelled,
    /// The signer approved no Intent for the rotation.
    NoApprovedIntent,
    /// A plan or certificate check failed.
    Plan(RotationError),
    /// The plan is not for the Intent this signer voted for.
    IntentNotAuthorized,
    /// The predecessor is already locked to another plan.
    PredecessorLocked,
    /// The signer never voted Begin for this exact plan.
    NeverBegun,
    /// The Begin delay has not elapsed.
    DelayIncomplete,
    /// The signer did not vote Begin and Release for this rotation.
    NotParticipant,
    /// The successor capsule does not match Ready and the immutable policy.
    SuccessorMismatch,
    /// The response recipient key is not an X-Wing key.
    MalformedRecipient,
    /// The abort is for an unbegun or activated rotation, or an invalid
    /// state.
    InvalidAbort,
    /// The predecessor lock names another plan.
    PredecessorLockMismatch,
}

/// One entry of a digest map keyed by a 32-byte id.
#[derive(Clone, Copy, Debug)]
pub struct KeyedDigest {
    pub key: Id32,
    pub digest: Id32,
}

/// An Intent a signer approved, by rotation id.
#[derive(Clone, Debug)]
pub struct RecordedIntent {
    pub rotation_id: Id32,
    pub intent: RotationIntent,
}

/// The highest guardian epoch a signer observed for a configuration.
#[derive(Clone, Copy, Debug)]
pub struct ObservedEpoch {
    pub config_id: Id32,
    pub guardian_epoch: u64,
}

/// The rotation-relevant state of one signer.
#[derive(Clone, Debug)]
pub struct SignerRotationStateV3 {
    pub signer_id: u16,
    pub recovery_card: RecoveryCardV3,
    pub active_capsule: ConfigCapsuleV3,
    /// Intent hash voted, by rotation id.
    pub intent_votes: Vec<KeyedDigest>,
    pub intents: Vec<RecordedIntent>,
    /// Plan hash voted at Begin, by rotation id.
    pub begin_votes: Vec<KeyedDigest>,
    /// Release vote transcript hash, by rotation id.
    pub release_votes: Vec<KeyedDigest>,
    /// Activate vote transcript hash, by rotation id.
    pub activate_votes: Vec<KeyedDigest>,
    /// Abort or owner-cancellation certificate hash, by rotation id.
    pub cancelled_rotations: Vec<KeyedDigest>,
    /// Plan hash each predecessor capsule is locked to, by predecessor
    /// capsule hash.
    pub predecessor_plan_locks: Vec<KeyedDigest>,
    pub highest_observed_epoch: Vec<ObservedEpoch>,
}

/// Keys of a digest map are unique.
pub open spec fn keys_unique(s: Seq<KeyedDigest>) -> bool {
    forall|i: int, j: int| 0 <= i < j < s.len() ==> (#[trigger] s[i]).key != (#[trigger] s[j]).key
}

/// Some entry has key `key`.
pub open spec fn has_key(s: Seq<KeyedDigest>, key: Id32) -> bool {
    exists|i: int| 0 <= i < s.len() && (#[trigger] s[i]).key == key
}

/// The position of the entry with key `key`.
pub open spec fn key_position(s: Seq<KeyedDigest>, key: Id32) -> int {
    choose|i: int| 0 <= i < s.len() && (#[trigger] s[i]).key == key
}

/// The digest stored under `key`, if any.
pub open spec fn digest_of(s: Seq<KeyedDigest>, key: Id32) -> Option<Id32> {
    if has_key(s, key) {
        Some(s[key_position(s, key)].digest)
    } else {
        None
    }
}

/// `new` is `old` with `key` mapped to `digest`.
pub open spec fn map_inserted(old: Seq<KeyedDigest>, new: Seq<KeyedDigest>, key: Id32, digest: Id32) -> bool {
    if has_key(old, key) {
        new == old.update(key_position(old, key), KeyedDigest { key, digest })
    } else {
        new == old.push(KeyedDigest { key, digest })
    }
}

/// `new` is `old` without `key`.
pub open spec fn map_removed(old: Seq<KeyedDigest>, new: Seq<KeyedDigest>, key: Id32) -> bool {
    if has_key(old, key) {
        new == old.remove(key_position(old, key))
    } else {
        new == old
    }
}

/// Every map of the state has unique keys.
pub open spec fn signer_rotation_wf(s: SignerRotationStateV3) -> bool {
    &&& keys_unique(s.intent_votes@)
    &&& keys_unique(s.begin_votes@)
    &&& keys_unique(s.release_votes@)
    &&& keys_unique(s.activate_votes@)
    &&& keys_unique(s.cancelled_rotations@)
    &&& keys_unique(s.predecessor_plan_locks@)
    &&& forall|i: int, j: int|
        0 <= i < j < s.intents@.len() ==> (#[trigger] s.intents@[i]).rotation_id != (
        #[trigger] s.intents@[j]).rotation_id
    &&& forall|i: int, j: int|
        0 <= i < j < s.highest_observed_epoch@.len() ==> (
        #[trigger] s.highest_observed_epoch@[i]).config_id != (
        #[trigger] s.highest_observed_epoch@[j]).config_id
}

/// Position of the entry with key `key`, if any.
fn find_key(s: &Vec<KeyedDigest>, key: &Id32) -> (r: Option<usize>)
    ensures
        match r {
            Some(i) => i < s@.len() && s@[i as int].key == *key,
            None => !has_key(s@, *key),
        },
{
    let mut i: usize = 0;
    while i < s.len()
        invariant
            i <= s@.len(),
            forall|k: int| 0 <= k < i ==> (#[trigger] s@[k]).key != *key,
        decreases s.len() - i,
    {
        if id_eq(&s[i].key, key) {
            return Some(i);
        }
        i = i + 1;
    }
    None
}

proof fn lemma_key_position(s: Seq<KeyedDigest>, key: Id32, i: int)
    requires
        keys_unique(s),
        0 <= i < s.len(),
        s[i].key == key,
    ensures
        has_key(s, key),
        key_position(s, key) == i,
        digest_of(s, key) == Some(s[i].digest),
{
    assert(s[i].key == key);
    let p = key_position(s, key);
    if p < i {
        assert(s[p].key != s[i].key);
    } else if p > i {
        assert(s[i].key != s[p].key);
    }
}

/// The digest stored under `key`, if any.
fn lookup(s: &Vec<KeyedDigest>, key: &Id32) -> (r: Option<Id32>)
    requires
        keys_unique(s@),
    ensures
        r == digest_of(s@, *key),
{
    match find_key(s, key) {
        Some(i) => {
            proof {
                lemma_key_position(s@, *key, i as int);
            }
            Some(s[i].digest)
        },
        None => None,
    }
}

/// Maps `key` to `digest`, replacing any earlier digest.
fn insert_key(s: &mut Vec<KeyedDigest>, key: Id32, digest: Id32)
    requires
        keys_unique(old(s)@),
    ensures
        keys_unique(final(s)@),
        map_inserted(old(s)@, final(s)@, key, digest),
{
    let ghost before = s@;
    match find_key(s, &key) {
        Some(i) => {
            proof {
                lemma_key_position(before, key, i as int);
            }
            s.remove(i);
            s.insert(i, KeyedDigest { key, digest });
            proof {
                assert(s@ =~= before.update(i as int, KeyedDigest { key, digest }));
                assert forall|a: int, b: int| 0 <= a < b < s@.len() implies (#[trigger] s@[a]).key
                    != (#[trigger] s@[b]).key by {
                    assert(s@[a].key == before[a].key);
                    assert(s@[b].key == before[b].key);
                }
            }
        },
        None => {
            s.push(KeyedDigest { key, digest });
            proof {
                assert forall|a: int, b: int| 0 <= a < b < s@.len() implies (#[trigger] s@[a]).key
                    != (#[trigger] s@[b]).key by {
                    assert(s@[a] == before[a]);
                    if b < before.len() {
                        assert(s@[b] == before[b]);
                    }
                }
            }
        },
    }
}

/// Removes `key`, if present.
fn remove_key(s: &mut Vec<KeyedDigest>, key: &Id32)
    requires
        keys_unique(old(s)@),
    ensures
        keys_unique(final(s)@),
        map_removed(old(s)@, final(s)@, *key),
{
    let ghost before = s@;
    if let Some(i) = find_key(s, key) {
        proof {
            lemma_key_position(before, *key, i as int);
        }
        s.remove(i);
        proof {
            assert forall|a: int, b: int| 0 <= a < b < s@.len() implies (#[trigger] s@[a]).key
                != (#[trigger] s@[b]).key by {
                if a < i {
                    assert(s@[a] == before[a]);
                } else {
                    assert(s@[a] == before[a + 1]);
                }
                if b < i {
                    assert(s@[b] == before[b]);
                } else {
                    assert(s@[b] == before[b + 1]);
                }
            }
        }
    }
}

/// A signer's one vote per rotation in a phase: a vote equal to the
/// recorded one is accepted again, a different one is refused.
pub open spec fn vote_conflicts(s: Seq<KeyedDigest>, rotation_id: Id32, digest: Id32) -> bool {
    has_key(s, rotation_id) && digest_of(s, rotation_id) != Some(digest)
}

/// `new` records the vote `digest` for `rotation_id` on top of `old`.
pub open spec fn vote_recorded(old: Seq<KeyedDigest>, new: Seq<KeyedDigest>, rotation_id: Id32, digest: Id32) -> bool {
    if has_key(old, rotation_id) {
        new == old
    } else {
        new == old.push(KeyedDigest { key: rotation_id, digest })
    }
}

/// Records a vote once per rotation; a different second vote is refused.
fn record_vote(s: &mut Vec<KeyedDigest>, rotation_id: Id32, digest: Id32) -> (r: Result<(), SignerRotationError>)
    requires
        keys_unique(old(s)@),
    ensures
        keys_unique(final(s)@),
        if vote_conflicts(old(s)@, rotation_id, digest) {
            r == Err::<(), SignerRotationError>(SignerRotationError::ConflictingVote) && *final(s) == *old(s)
        } else {
            r is Ok && vote_recorded(old(s)@, final(s)@, rotation_id, digest)
        },
{
    match lookup(s, &rotation_id) {
        Some(existing) => {
            if !id_eq(&existing, &digest) {
                return Err(SignerRotationError::ConflictingVote);
            }
            Ok(())
        },
        None => {
            insert_key(s, rotation_id, digest);
            Ok(())
        },
    }
}

/// The rotation context is for this configuration, current, and names an
/// X-Wing recipient.
pub open spec fn rotation_context_ok(s: SignerRotationStateV3, context: RotationContext, now: u64) -> bool {
    &&& context.protocol_version == PROTOCOL_VERSION_V3
    &&& context.config_ref.config_id == s.recovery_card.config_id
    &&& context.issued_at <= now
    &&& now < context.expiry
    &&& context.recipient_key@.len() == XWING_PUBLIC_KEY_LEN
}

/// Two reads of the transcript come from the same witness.
pub open spec fn reads_repeat_witness(reads: Seq<WitnessReadEnvelope>) -> bool {
    exists|i: int, j: int|
        0 <= i < j < reads.len() && (#[trigger] reads[i]).response.witness_id == (#[trigger] reads[j]).response.witness_id
}

/// Whether two reads come from the same witness.
fn repeats_witness(reads: &Vec<WitnessReadEnvelope>) -> (r: bool)
    ensures
        r == reads_repeat_witness(reads@),
{
    let mut i: usize = 0;
    while i < reads.len()
        invariant
            i <= reads@.len(),
            forall|a: int, b: int|
                0 <= a < b < reads@.len() && a < i ==> (#[trigger] reads@[a]).response.witness_id
                    != (#[trigger] reads@[b]).response.witness_id,
        decreases reads.len() - i,
    {
        let mut j: usize = i + 1;
        while j < reads.len()
            invariant
                i < j <= reads@.len(),
                forall|b: int| i < b < j ==> reads@[i as int].response.witness_id != (
                #[trigger] reads@[b]).response.witness_id,
            decreases reads.len() - j,
        {
            if reads[i].response.witness_id == reads[j].response.witness_id {
                return true;
            }
            j = j + 1;
        }
        i = i + 1;
    }
    false
}

/// The Intent describes the active epoch the fresh witness read selected.
pub open spec fn intent_binds_view(intent: RotationIntent, active: ConfigCapsuleV3) -> bool {
    &&& active.config_ref == intent.context.config_ref
    &&& active.capsule_hash == intent.context.predecessor_capsule_hash
    &&& intent.old_guardian_count == active.guardian_count
    &&& intent.old_guardian_threshold == active.guardian_threshold
    &&& intent.allowed_new_guardian_count@.len() > 0
    &&& intent.allowed_new_guardian_threshold@.len() > 0
    &&& intent.allowed_dpss_suites@.len() > 0
}

/// What a signer decided; sealing its share and signing are left to the
/// caller.
#[derive(Clone, Copy, Debug)]
pub enum SignerRotationDecisionV3 {
    /// Seal the authorization share under this Intent and sign the
    /// contribution.
    IntentContribution { intent_hash: Id32 },
    /// Sign a Begin vote for this plan.
    BeginVote { intent_hash: Id32, plan_hash: Id32 },
    /// Sign a Release vote for this plan and Begin certificate.
    ReleaseVote { plan_hash: Id32, begin_certificate_hash: Id32 },
    /// Sign an Activate vote for this successor.
    ActivateVote { plan_hash: Id32, ready_certificate_hash: Id32, successor_capsule_hash: Id32 },
    /// Sign an Abort vote for this plan.
    AbortVote { plan_hash: Id32, state_at_abort: crate::rotation::RotationState, reason_code: u16 },
    /// The abort is recorded.
    AbortFinalized,
    /// The owner cancellation is recorded.
    OwnerCancelFinalized,
}

/// Some Intent is recorded for `rotation_id`.
pub open spec fn has_intent(s: Seq<RecordedIntent>, rotation_id: Id32) -> bool {
    exists|i: int| 0 <= i < s.len() && (#[trigger] s[i]).rotation_id == rotation_id
}

/// The Intent recorded for `rotation_id`.
pub open spec fn intent_for(s: Seq<RecordedIntent>, rotation_id: Id32) -> RotationIntent {
    s[choose|i: int| 0 <= i < s.len() && (#[trigger] s[i]).rotation_id == rotation_id].intent
}

/// Position of the Intent recorded for `rotation_id`, if any.
#[verifier::loop_isolation(false)]
fn find_intent(state: &SignerRotationStateV3, rotation_id: &Id32) -> (r: Option<usize>)
    requires
        signer_rotation_wf(*state),
    ensures
        match r {
            Some(i) => i < state.intents@.len() && state.intents@[i as int].rotation_id == *rotation_id
                && intent_for(state.intents@, *rotation_id) == state.intents@[i as int].intent,
            None => !has_intent(state.intents@, *rotation_id),
        },
{
    let mut i: usize = 0;
    while i < state.intents.len()
        invariant
            i <= state.intents@.len(),
            forall|k: int| 0 <= k < i ==> (#[trigger] state.intents@[k]).rotation_id != *rotation_id,
        decreases state.intents.len() - i,
    {
        if id_eq(&state.intents[i].rotation_id, rotation_id) {
            proof {
                let s = state.intents@;
                let p = choose|p: int| 0 <= p < s.len() && (#[trigger] s[p]).rotation_id == *rotation_id;
                assert(s[i as int].rotation_id == *rotation_id);
                if p < i {
                    assert(s[p].rotation_id != s[i as int].rotation_id);
                } else if p > i {
                    assert(s[i as int].rotation_id != s[p].rotation_id);
                }
            }
            return Some(i);
        }
        i = i + 1;
    }
    None
}

/// `new` maps `config_id` to `epoch` on top of `old`.
pub open spec fn epoch_observed(old: Seq<ObservedEpoch>, new: Seq<ObservedEpoch>, config_id: Id32, epoch: u64) -> bool {
    if exists|i: int| 0 <= i < old.len() && (#[trigger] old[i]).config_id == config_id {
        let p = choose|i: int| 0 <= i < old.len() && (#[trigger] old[i]).config_id == config_id;
        new == old.update(p, ObservedEpoch { config_id, guardian_epoch: epoch })
    } else {
        new == old.push(ObservedEpoch { config_id, guardian_epoch: epoch })
    }
}

/// Records the highest guardian epoch observed for a configuration.
fn observe_epoch(state: &mut SignerRotationStateV3, config_id: Id32, epoch: u64)
    requires
        signer_rotation_wf(*old(state)),
    ensures
        signer_rotation_wf(*final(state)),
        epoch_observed(old(state).highest_observed_epoch@, final(state).highest_observed_epoch@, config_id, epoch),
        final(state).signer_id == old(state).signer_id,
        final(state).recovery_card == old(state).recovery_card,
        final(state).active_capsule == old(state).active_capsule,
        final(state).intent_votes == old(state).intent_votes,
        final(state).intents == old(state).intents,
        final(state).begin_votes == old(state).begin_votes,
        final(state).release_votes == old(state).release_votes,
        final(state).activate_votes == old(state).activate_votes,
        final(state).cancelled_rotations == old(state).cancelled_rotations,
        final(state).predecessor_plan_locks == old(state).predecessor_plan_locks,
{
    let ghost before = state.highest_observed_epoch@;
    let mut i: usize = 0;
    while i < state.highest_observed_epoch.len()
        invariant
            i <= before.len(),
            *state == *old(state),
            state.highest_observed_epoch@ == before,
            signer_rotation_wf(*state),
            forall|k: int| 0 <= k < i ==> (#[trigger] before[k]).config_id != config_id,
        decreases state.highest_observed_epoch.len() - i,
    {
        if id_eq(&state.highest_observed_epoch[i].config_id, &config_id) {
            proof {
                let p = choose|p: int| 0 <= p < before.len() && (#[trigger] before[p]).config_id == config_id;
                assert(before[i as int].config_id == config_id);
                if p < i {
                    assert(before[p].config_id != before[i as int].config_id);
                } else if p > i {
                    assert(before[i as int].config_id != before[p].config_id);
                }
            }
            state.highest_observed_epoch.remove(i);
            state.highest_observed_epoch.insert(i, ObservedEpoch { config_id, guardian_epoch: epoch });
            proof {
                assert(state.highest_observed_epoch@ =~= before.update(
                    i as int,
                    ObservedEpoch { config_id, guardian_epoch: epoch },
                ));
                assert forall|a: int, b: int|
                    0 <= a < b < state.highest_observed_epoch@.len() implies (
                    #[trigger] state.highest_observed_epoch@[a]).config_id != (
                    #[trigger] state.highest_observed_epoch@[b]).config_id by {
                    assert(state.highest_observed_epoch@[a].config_id == before[a].config_id);
                    assert(state.highest_observed_epoch@[b].config_id == before[b].config_id);
                }
            }
            return;
        }
        i = i + 1;
    }
    state.highest_observed_epoch.push(ObservedEpoch { config_id, guardian_epoch: epoch });
    proof {
        assert forall|a: int, b: int|
            0 <= a < b < state.highest_observed_epoch@.len() implies (
            #[trigger] state.highest_observed_epoch@[a]).config_id != (
            #[trigger] state.highest_observed_epoch@[b]).config_id by {
            assert(state.highest_observed_epoch@[a] == before[a]);
            if b < before.len() {
                assert(state.highest_observed_epoch@[b] == before[b]);
            }
        }
    }
}

/// Everything but the Intent votes is unchanged.
pub open spec fn same_but_intent_votes(a: SignerRotationStateV3, b: SignerRotationStateV3) -> bool {
    &&& a.signer_id == b.signer_id
    &&& a.recovery_card == b.recovery_card
    &&& a.active_capsule == b.active_capsule
    &&& a.intents == b.intents
    &&& a.begin_votes == b.begin_votes
    &&& a.release_votes == b.release_votes
    &&& a.activate_votes == b.activate_votes
    &&& a.cancelled_rotations == b.cancelled_rotations
    &&& a.predecessor_plan_locks == b.predecessor_plan_locks
    &&& a.highest_observed_epoch == b.highest_observed_epoch
}

/// A signer's Intent step from `old` to `new` with answer `r`.
pub open spec fn intent_transition(
    old: SignerRotationStateV3,
    new: SignerRotationStateV3,
    intent: RotationIntent,
    challenge: EpochReadChallenge,
    reads: Seq<WitnessReadEnvelope>,
    read_quorum_hash: Id32,
    r: Result<SignerRotationDecisionV3, SignerRotationError>,
) -> bool {
    let rotation_id = intent.context.rotation_id;
    let intent_hash = intent.transcript_hash;
    match latest_epoch_choice(old.recovery_card, challenge, reads) {
        Err(e) => r == Err::<SignerRotationDecisionV3, SignerRotationError>(
            SignerRotationError::WitnessRead(e),
        ) && new == old,
        Ok(i) => {
            let active = reads[i].capsule;
            if !intent_binds_view(intent, active) {
                r == Err::<SignerRotationDecisionV3, SignerRotationError>(
                    SignerRotationError::IntentNotBound,
                ) && new == old
            } else if reads_repeat_witness(reads) {
                r == Err::<SignerRotationDecisionV3, SignerRotationError>(
                    SignerRotationError::DuplicateWitnessRead,
                ) && new == old
            } else if intent.witness_read_qc_hash != read_quorum_hash {
                r == Err::<SignerRotationDecisionV3, SignerRotationError>(
                    SignerRotationError::IntentNotBound,
                ) && new == old
            } else if vote_conflicts(old.intent_votes@, rotation_id, intent_hash) {
                r == Err::<SignerRotationDecisionV3, SignerRotationError>(
                    SignerRotationError::ConflictingVote,
                ) && new == old
            } else if has_intent(old.intents@, rotation_id) && !same_intent(
                intent_for(old.intents@, rotation_id),
                intent,
            ) {
                &&& r == Err::<SignerRotationDecisionV3, SignerRotationError>(
                    SignerRotationError::ConflictingIntent,
                )
                &&& vote_recorded(old.intent_votes@, new.intent_votes@, rotation_id, intent_hash)
                &&& same_but_intent_votes(old, new)
            } else {
                &&& r == Ok::<SignerRotationDecisionV3, SignerRotationError>(
                    SignerRotationDecisionV3::IntentContribution { intent_hash },
                )
                &&& vote_recorded(old.intent_votes@, new.intent_votes@, rotation_id, intent_hash)
                &&& if has_intent(old.intents@, rotation_id) {
                    new.intents == old.intents
                } else {
                    &&& new.intents@.len() == old.intents@.len() + 1
                    &&& new.intents@.drop_last() == old.intents@
                    &&& new.intents@.last().rotation_id == rotation_id
                    &&& same_intent(new.intents@.last().intent, intent)
                }
                &&& same_capsule(new.active_capsule, active)
                &&& epoch_observed(
                    old.highest_observed_epoch@,
                    new.highest_observed_epoch@,
                    intent.context.config_ref.config_id,
                    intent.context.config_ref.guardian_epoch,
                )
                &&& new.signer_id == old.signer_id
                &&& new.recovery_card == old.recovery_card
                &&& new.begin_votes == old.begin_votes
                &&& new.release_votes == old.release_votes
                &&& new.activate_votes == old.activate_votes
                &&& new.cancelled_rotations == old.cancelled_rotations
                &&& new.predecessor_plan_locks == old.predecessor_plan_locks
            }
        },
    }
}

/// Approves an Intent made under the fresh active witness view, once per
/// rotation.
fn signer_intent(
    state: &mut SignerRotationStateV3,
    intent: RotationIntent,
    challenge: &EpochReadChallenge,
    reads: &Vec<WitnessReadEnvelope>,
    read_quorum_hash: &Id32,
) -> (r: Result<SignerRotationDecisionV3, SignerRotationError>)
    requires
        signer_rotation_wf(*old(state)),
    ensures
        signer_rotation_wf(*final(state)),
        intent_transition(*old(state), *final(state), intent, *challenge, reads@, *read_quorum_hash, r),
{
    let active = match select_latest_epoch_v3(&state.recovery_card, challenge, reads.as_slice()) {
        Ok(active) => active,
        Err(e) => return Err(SignerRotationError::WitnessRead(e)),
    };
    if !crate::model::config_ref_eq(&active.config_ref, &intent.context.config_ref) || !id_eq(
        &active.capsule_hash,
        &intent.context.predecessor_capsule_hash,
    ) || intent.old_guardian_count != active.guardian_count || intent.old_guardian_threshold
        != active.guardian_threshold || intent.allowed_new_guardian_count.len() == 0
        || intent.allowed_new_guardian_threshold.len() == 0 || intent.allowed_dpss_suites.len() == 0 {
        return Err(SignerRotationError::IntentNotBound);
    }
    if repeats_witness(reads) {
        return Err(SignerRotationError::DuplicateWitnessRead);
    }
    if !id_eq(&intent.witness_read_qc_hash, read_quorum_hash) {
        return Err(SignerRotationError::IntentNotBound);
    }
    let rotation_id = intent.context.rotation_id;
    let intent_hash = intent.transcript_hash;
    record_vote(&mut state.intent_votes, rotation_id, intent_hash)?;
    match find_intent(state, &rotation_id) {
        Some(i) => {
            if !intent_eq(&state.intents[i].intent, &intent) {
                return Err(SignerRotationError::ConflictingIntent);
            }
        },
        None => {
            let ghost before = state.intents@;
            let recorded = clone_intent(&intent);
            state.intents.push(RecordedIntent { rotation_id, intent: recorded });
            proof {
                assert(state.intents@.drop_last() =~= before);
                assert forall|a: int, b: int|
                    0 <= a < b < state.intents@.len() implies (#[trigger] state.intents@[a]).rotation_id
                    != (#[trigger] state.intents@[b]).rotation_id by {
                    assert(state.intents@[a] == before[a]);
                    if b < before.len() {
                        assert(state.intents@[b] == before[b]);
                    }
                }
            }
        },
    }
    state.active_capsule = active;
    observe_epoch(state, intent.context.config_ref.config_id, intent.context.config_ref.guardian_epoch);
    Ok(SignerRotationDecisionV3::IntentContribution { intent_hash })
}

/// Everything but the listed vote maps is unchanged.
pub open spec fn same_but_votes(a: SignerRotationStateV3, b: SignerRotationStateV3) -> bool {
    &&& a.signer_id == b.signer_id
    &&& a.recovery_card == b.recovery_card
    &&& a.active_capsule == b.active_capsule
    &&& a.intent_votes == b.intent_votes
    &&& a.intents == b.intents
    &&& a.cancelled_rotations == b.cancelled_rotations
    &&& a.highest_observed_epoch == b.highest_observed_epoch
}

/// A signer's Begin step from `old` to `new` with answer `r`: the
/// predecessor is locked to the plan and the Begin vote recorded.
pub open spec fn begin_transition(
    old: SignerRotationStateV3,
    new: SignerRotationStateV3,
    intent_hash: Id32,
    plan: RotationPlan,
    now: u64,
    r: Result<SignerRotationDecisionV3, SignerRotationError>,
) -> bool {
    let rotation_id = plan.context.rotation_id;
    let predecessor = plan.context.predecessor_capsule_hash;
    if has_key(old.cancelled_rotations@, rotation_id) {
        r == Err::<SignerRotationDecisionV3, SignerRotationError>(SignerRotationError::RotationCancelled)
            && new == old
    } else if !has_intent(old.intents@, rotation_id) {
        r == Err::<SignerRotationDecisionV3, SignerRotationError>(SignerRotationError::NoApprovedIntent)
            && new == old
    } else {
        match plan_against_intent_outcome(plan, intent_for(old.intents@, rotation_id), old.active_capsule, now) {
            Err(e) => r == Err::<SignerRotationDecisionV3, SignerRotationError>(
                SignerRotationError::Plan(e),
            ) && new == old,
            Ok(plan_hash) => if plan.intent_hash != intent_hash || digest_of(old.intent_votes@, rotation_id)
                != Some(intent_hash) {
                r == Err::<SignerRotationDecisionV3, SignerRotationError>(
                    SignerRotationError::IntentNotAuthorized,
                ) && new == old
            } else if vote_conflicts(old.predecessor_plan_locks@, predecessor, plan_hash) {
                r == Err::<SignerRotationDecisionV3, SignerRotationError>(
                    SignerRotationError::PredecessorLocked,
                ) && new == old
            } else {
                &&& same_but_votes(old, new)
                &&& new.release_votes == old.release_votes
                &&& new.activate_votes == old.activate_votes
                &&& vote_recorded(old.predecessor_plan_locks@, new.predecessor_plan_locks@, predecessor, plan_hash)
                &&& if vote_conflicts(old.begin_votes@, rotation_id, plan_hash) {
                    &&& r == Err::<SignerRotationDecisionV3, SignerRotationError>(
                        SignerRotationError::ConflictingVote,
                    )
                    &&& new.begin_votes == old.begin_votes
                } else {
                    &&& r == Ok::<SignerRotationDecisionV3, SignerRotationError>(
                        SignerRotationDecisionV3::BeginVote { intent_hash, plan_hash },
                    )
                    &&& vote_recorded(old.begin_votes@, new.begin_votes@, rotation_id, plan_hash)
                }
            },
        }
    }
}

/// Votes Begin for a plan inside the approved Intent, locking the
/// predecessor to that one plan.
fn signer_begin(
    state: &mut SignerRotationStateV3,
    intent_hash: &Id32,
    plan: &RotationPlan,
    now: u64,
) -> (r: Result<SignerRotationDecisionV3, SignerRotationError>)
    requires
        signer_rotation_wf(*old(state)),
    ensures
        signer_rotation_wf(*final(state)),
        begin_transition(*old(state), *final(state), *intent_hash, *plan, now, r),
{
    let rotation_id = plan.context.rotation_id;
    if find_key(&state.cancelled_rotations, &rotation_id).is_some() {
        return Err(SignerRotationError::RotationCancelled);
    }
    let i = match find_intent(state, &rotation_id) {
        Some(i) => i,
        None => return Err(SignerRotationError::NoApprovedIntent),
    };
    let plan_hash = match validate_rotation_plan_against_intent_v3(
        plan,
        &state.intents[i].intent,
        &state.active_capsule,
        now,
    ) {
        Ok(h) => h,
        Err(e) => return Err(SignerRotationError::Plan(e)),
    };
    let voted = lookup(&state.intent_votes, &rotation_id);
    let authorized = match voted {
        Some(h) => id_eq(&h, intent_hash),
        None => false,
    };
    if !id_eq(&plan.intent_hash, intent_hash) || !authorized {
        return Err(SignerRotationError::IntentNotAuthorized);
    }
    let predecessor = plan.context.predecessor_capsule_hash;
    match record_vote(&mut state.predecessor_plan_locks, predecessor, plan_hash) {
        Ok(()) => {},
        Err(_) => return Err(SignerRotationError::PredecessorLocked),
    }
    record_vote(&mut state.begin_votes, rotation_id, plan_hash)?;
    Ok(SignerRotationDecisionV3::BeginVote { intent_hash: *intent_hash, plan_hash })
}

/// A signer's Release step from `old` to `new` with answer `r`.
pub open spec fn release_transition(
    old: SignerRotationStateV3,
    new: SignerRotationStateV3,
    plan: RotationPlan,
    begin: BeginRotationCertificate,
    vote_hash: Id32,
    now: u64,
    r: Result<SignerRotationDecisionV3, SignerRotationError>,
) -> bool {
    let rotation_id = plan.context.rotation_id;
    if has_key(old.cancelled_rotations@, rotation_id) {
        r == Err::<SignerRotationDecisionV3, SignerRotationError>(SignerRotationError::RotationCancelled)
            && new == old
    } else if !plan.canonical {
        r == Err::<SignerRotationDecisionV3, SignerRotationError>(
            SignerRotationError::Plan(RotationError::PlanNotCanonical),
        ) && new == old
    } else if digest_of(old.begin_votes@, rotation_id) != Some(plan.transcript_hash) {
        r == Err::<SignerRotationDecisionV3, SignerRotationError>(SignerRotationError::NeverBegun)
            && new == old
    } else {
        match begin_rotation_outcome(begin, plan, old.active_capsule, now) {
            Err(e) => r == Err::<SignerRotationDecisionV3, SignerRotationError>(
                SignerRotationError::Plan(e),
            ) && new == old,
            Ok(begin_hash) => if now < begin.not_before_wall {
                r == Err::<SignerRotationDecisionV3, SignerRotationError>(
                    SignerRotationError::DelayIncomplete,
                ) && new == old
            } else if vote_conflicts(old.release_votes@, rotation_id, vote_hash) {
                r == Err::<SignerRotationDecisionV3, SignerRotationError>(
                    SignerRotationError::ConflictingVote,
                ) && new == old
            } else {
                &&& r == Ok::<SignerRotationDecisionV3, SignerRotationError>(
                    SignerRotationDecisionV3::ReleaseVote {
                        plan_hash: plan.transcript_hash,
                        begin_certificate_hash: begin_hash,
                    },
                )
                &&& same_but_votes(old, new)
                &&& new.predecessor_plan_locks == old.predecessor_plan_locks
                &&& new.begin_votes == old.begin_votes
                &&& new.activate_votes == old.activate_votes
                &&& vote_recorded(old.release_votes@, new.release_votes@, rotation_id, vote_hash)
            },
        }
    }
}

/// Votes Release for the plan this signer began, once its delay passed.
fn signer_release(
    state: &mut SignerRotationStateV3,
    plan: &RotationPlan,
    begin: &BeginRotationCertificate,
    vote_hash: Id32,
    now: u64,
) -> (r: Result<SignerRotationDecisionV3, SignerRotationError>)
    requires
        signer_rotation_wf(*old(state)),
    ensures
        signer_rotation_wf(*final(state)),
        release_transition(*old(state), *final(state), *plan, *begin, vote_hash, now, r),
{
    let rotation_id = plan.context.rotation_id;
    if find_key(&state.cancelled_rotations, &rotation_id).is_some() {
        return Err(SignerRotationError::RotationCancelled);
    }
    if !plan.canonical {
        return Err(SignerRotationError::Plan(RotationError::PlanNotCanonical));
    }
    let began = match lookup(&state.begin_votes, &rotation_id) {
        Some(h) => id_eq(&h, &plan.transcript_hash),
        None => false,
    };
    if !began {
        return Err(SignerRotationError::NeverBegun);
    }
    let begin_hash = match validate_begin_rotation_certificate_v3(begin, plan, &state.active_capsule, now) {
        Ok(h) => h,
        Err(e) => return Err(SignerRotationError::Plan(e)),
    };
    if now < begin.not_before_wall {
        return Err(SignerRotationError::DelayIncomplete);
    }
    record_vote(&mut state.release_votes, rotation_id, vote_hash)?;
    Ok(SignerRotationDecisionV3::ReleaseVote { plan_hash: plan.transcript_hash, begin_certificate_hash: begin_hash })
}

/// The successor capsule matches Ready, the plan and the immutable signer
/// policy, and carries no activation evidence yet.
pub open spec fn successor_matches(
    s: SignerRotationStateV3,
    plan: RotationPlan,
    ready: RotationReadyCertificate,
    successor: ConfigCapsuleV3,
    descriptor_hash: Id32,
) -> bool {
    let active = s.active_capsule;
    &&& successor.config_ref == plan.successor
    &&& successor.predecessor_capsule_hash == active.capsule_hash
    &&& successor.capsule_hash == successor.body_hash
    &&& successor.signer_count == active.signer_count
    &&& successor.signer_threshold == active.signer_threshold
    &&& successor.signer_set_commitment == active.signer_set_commitment
    &&& successor.owner_cancel_public_key == active.owner_cancel_public_key
    &&& successor.guardian_count == plan.new_roster@.len()
    &&& successor.guardian_threshold == plan.new_guardian_threshold
    &&& successor.dpss_public_commitment == ready.dpss_result_commitment
    &&& successor.guardian_material_root == ready.guardian_material_root
    &&& descriptor_hash == ready.encrypted_descriptor_hash
    &&& successor.activation_certificate is None
    &&& successor.activation_qc is None
}

/// A signer's Activate step from `old` to `new` with answer `r`.
pub open spec fn activate_transition(
    old: SignerRotationStateV3,
    new: SignerRotationStateV3,
    plan: RotationPlan,
    ready: RotationReadyCertificate,
    successor: ConfigCapsuleV3,
    descriptor_hash: Id32,
    vote_hash: Id32,
    now: u64,
    r: Result<SignerRotationDecisionV3, SignerRotationError>,
) -> bool {
    let rotation_id = plan.context.rotation_id;
    if has_key(old.cancelled_rotations@, rotation_id) {
        r == Err::<SignerRotationDecisionV3, SignerRotationError>(SignerRotationError::NotParticipant)
            && new == old
    } else if !plan.canonical {
        r == Err::<SignerRotationDecisionV3, SignerRotationError>(
            SignerRotationError::Plan(RotationError::PlanNotCanonical),
        ) && new == old
    } else if digest_of(old.begin_votes@, rotation_id) != Some(plan.transcript_hash) || !has_key(
        old.release_votes@,
        rotation_id,
    ) {
        r == Err::<SignerRotationDecisionV3, SignerRotationError>(SignerRotationError::NotParticipant)
            && new == old
    } else {
        match ready_outcome(ready, plan, old.active_capsule, now) {
            Err(e) => r == Err::<SignerRotationDecisionV3, SignerRotationError>(
                SignerRotationError::Plan(e),
            ) && new == old,
            Ok(ready_hash) => if !successor_matches(old, plan, ready, successor, descriptor_hash) {
                r == Err::<SignerRotationDecisionV3, SignerRotationError>(
                    SignerRotationError::SuccessorMismatch,
                ) && new == old
            } else if vote_conflicts(old.activate_votes@, rotation_id, vote_hash) {
                r == Err::<SignerRotationDecisionV3, SignerRotationError>(
                    SignerRotationError::ConflictingVote,
                ) && new == old
            } else {
                &&& r == Ok::<SignerRotationDecisionV3, SignerRotationError>(
                    SignerRotationDecisionV3::ActivateVote {
                        plan_hash: ready.plan_hash,
                        ready_certificate_hash: ready_hash,
                        successor_capsule_hash: successor.body_hash,
                    },
                )
                &&& same_but_votes(old, new)
                &&& new.predecessor_plan_locks == old.predecessor_plan_locks
                &&& new.begin_votes == old.begin_votes
                &&& new.release_votes == old.release_votes
                &&& vote_recorded(old.activate_votes@, new.activate_votes@, rotation_id, vote_hash)
            },
        }
    }
}

/// Votes Activate for the successor of the plan this signer began and
/// released, if it matches Ready and keeps the signer policy.
fn signer_activate(
    state: &mut SignerRotationStateV3,
    plan: &RotationPlan,
    ready: &RotationReadyCertificate,
    successor: &ConfigCapsuleV3,
    descriptor_hash: &Id32,
    vote_hash: Id32,
    now: u64,
) -> (r: Result<SignerRotationDecisionV3, SignerRotationError>)
    requires
        signer_rotation_wf(*old(state)),
    ensures
        signer_rotation_wf(*final(state)),
        activate_transition(*old(state), *final(state), *plan, *ready, *successor, *descriptor_hash, vote_hash, now, r),
{
    let rotation_id = plan.context.rotation_id;
    if find_key(&state.cancelled_rotations, &rotation_id).is_some() {
        return Err(SignerRotationError::NotParticipant);
    }
    if !plan.canonical {
        return Err(SignerRotationError::Plan(RotationError::PlanNotCanonical));
    }
    let began = match lookup(&state.begin_votes, &rotation_id) {
        Some(h) => id_eq(&h, &plan.transcript_hash),
        None => false,
    };
    if !began || find_key(&state.release_votes, &rotation_id).is_none() {
        return Err(SignerRotationError::NotParticipant);
    }
    let ready_hash = match validate_rotation_ready_certificate_v3(ready, plan, &state.active_capsule, now) {
        Ok(h) => h,
        Err(e) => return Err(SignerRotationError::Plan(e)),
    };
    let active = &state.active_capsule;
    if !crate::model::config_ref_eq(&successor.config_ref, &plan.successor) || !id_eq(
        &successor.predecessor_capsule_hash,
        &active.capsule_hash,
    ) || !id_eq(&successor.capsule_hash, &successor.body_hash) || successor.signer_count
        != active.signer_count || successor.signer_threshold != active.signer_threshold || !id_eq(
        &successor.signer_set_commitment,
        &active.signer_set_commitment,
    ) || !id_eq(&successor.owner_cancel_public_key, &active.owner_cancel_public_key)
        || successor.guardian_count as usize != plan.new_roster.len() || successor.guardian_threshold
        != plan.new_guardian_threshold || !id_eq(
        &successor.dpss_public_commitment,
        &ready.dpss_result_commitment,
    ) || !id_eq(&successor.guardian_material_root, &ready.guardian_material_root) || !id_eq(
        descriptor_hash,
        &ready.encrypted_descriptor_hash,
    ) || successor.activation_certificate.is_some() || successor.activation_qc.is_some() {
        return Err(SignerRotationError::SuccessorMismatch);
    }
    record_vote(&mut state.activate_votes, rotation_id, vote_hash)?;
    Ok(
        SignerRotationDecisionV3::ActivateVote {
            plan_hash: ready.plan_hash,
            ready_certificate_hash: ready_hash,
            successor_capsule_hash: successor.body_hash,
        },
    )
}

/// A rotation in one of these states may still be aborted by a signer.
pub open spec fn abortable_state(state: RotationState) -> bool {
    match state {
        RotationState::DelayPending | RotationState::Preparing | RotationState::Ready
        | RotationState::Activating => true,
        _ => false,
    }
}

/// A signer's answer to an Abort vote request; its state never changes.
pub open spec fn abort_vote_outcome(
    s: SignerRotationStateV3,
    plan: RotationPlan,
    state_at_abort: RotationState,
    reason_code: u16,
    response_recipient_key: Seq<u8>,
    now: u64,
) -> Result<SignerRotationDecisionV3, SignerRotationError> {
    let rotation_id = plan.context.rotation_id;
    if response_recipient_key.len() != XWING_PUBLIC_KEY_LEN {
        Err(SignerRotationError::MalformedRecipient)
    } else {
        match plan_outcome(plan, s.active_capsule, now) {
            Err(e) => Err(SignerRotationError::Plan(e)),
            Ok(plan_hash) => if has_key(s.cancelled_rotations@, rotation_id) || digest_of(
                s.begin_votes@,
                rotation_id,
            ) != Some(plan_hash) || has_key(s.activate_votes@, rotation_id) || !abortable_state(
                state_at_abort,
            ) {
                Err(SignerRotationError::InvalidAbort)
            } else {
                Ok(SignerRotationDecisionV3::AbortVote { plan_hash, state_at_abort, reason_code })
            },
        }
    }
}

/// Votes to abort a begun rotation that has not activated.
fn signer_abort(
    state: &SignerRotationStateV3,
    plan: &RotationPlan,
    state_at_abort: RotationState,
    reason_code: u16,
    response_recipient_key: &Vec<u8>,
    now: u64,
) -> (r: Result<SignerRotationDecisionV3, SignerRotationError>)
    requires
        signer_rotation_wf(*state),
    ensures
        r == abort_vote_outcome(*state, *plan, state_at_abort, reason_code, response_recipient_key@, now),
{
    if response_recipient_key.len() != XWING_PUBLIC_KEY_LEN {
        return Err(SignerRotationError::MalformedRecipient);
    }
    let plan_hash = match validate_rotation_plan_v3(plan, &state.active_capsule, now) {
        Ok(h) => h,
        Err(e) => return Err(SignerRotationError::Plan(e)),
    };
    let rotation_id = plan.context.rotation_id;
    let began = match lookup(&state.begin_votes, &rotation_id) {
        Some(h) => id_eq(&h, &plan_hash),
        None => false,
    };
    let abortable = match state_at_abort {
        RotationState::DelayPending | RotationState::Preparing | RotationState::Ready
        | RotationState::Activating => true,
        _ => false,
    };
    if find_key(&state.cancelled_rotations, &rotation_id).is_some() || !began || find_key(
        &state.activate_votes,
        &rotation_id,
    ).is_some() || !abortable {
        return Err(SignerRotationError::InvalidAbort);
    }
    Ok(SignerRotationDecisionV3::AbortVote { plan_hash, state_at_abort, reason_code })
}

/// Everything but the cancellations and predecessor locks is unchanged.
pub open spec fn same_but_cancellation(a: SignerRotationStateV3, b: SignerRotationStateV3) -> bool {
    &&& a.signer_id == b.signer_id
    &&& a.recovery_card == b.recovery_card
    &&& a.active_capsule == b.active_capsule
    &&& a.intent_votes == b.intent_votes
    &&& a.intents == b.intents
    &&& a.begin_votes == b.begin_votes
    &&& a.release_votes == b.release_votes
    &&& a.activate_votes == b.activate_votes
    &&& a.highest_observed_epoch == b.highest_observed_epoch
}

/// A signer's step on a finalized threshold abort.
pub open spec fn finalize_abort_transition(
    old: SignerRotationStateV3,
    new: SignerRotationStateV3,
    plan: RotationPlan,
    certificate: AbortRotationCertificate,
    response_recipient_key: Seq<u8>,
    now: u64,
    r: Result<SignerRotationDecisionV3, SignerRotationError>,
) -> bool {
    let rotation_id = plan.context.rotation_id;
    let predecessor = plan.context.predecessor_capsule_hash;
    if response_recipient_key.len() != XWING_PUBLIC_KEY_LEN {
        r == Err::<SignerRotationDecisionV3, SignerRotationError>(SignerRotationError::MalformedRecipient)
            && new == old
    } else {
        match abort_rotation_outcome(certificate, plan, old.active_capsule, now) {
            Err(e) => r == Err::<SignerRotationDecisionV3, SignerRotationError>(
                SignerRotationError::Plan(e),
            ) && new == old,
            Ok(_) => if digest_of(old.begin_votes@, rotation_id) != Some(plan.transcript_hash) || has_key(
                old.activate_votes@,
                rotation_id,
            ) {
                r == Err::<SignerRotationDecisionV3, SignerRotationError>(
                    SignerRotationError::InvalidAbort,
                ) && new == old
            } else if digest_of(old.predecessor_plan_locks@, predecessor) != Some(plan.transcript_hash) {
                r == Err::<SignerRotationDecisionV3, SignerRotationError>(
                    SignerRotationError::PredecessorLockMismatch,
                ) && new == old
            } else {
                &&& r == Ok::<SignerRotationDecisionV3, SignerRotationError>(
                    SignerRotationDecisionV3::AbortFinalized,
                )
                &&& same_but_cancellation(old, new)
                &&& map_inserted(
                    old.cancelled_rotations@,
                    new.cancelled_rotations@,
                    rotation_id,
                    certificate.transcript_hash,
                )
                &&& map_removed(old.predecessor_plan_locks@, new.predecessor_plan_locks@, predecessor)
            },
        }
    }
}

/// Records a threshold abort of a rotation this signer began: the rotation
/// id is cancelled for good and its predecessor unlocked.
fn signer_finalize_abort(
    state: &mut SignerRotationStateV3,
    plan: &RotationPlan,
    certificate: &AbortRotationCertificate,
    response_recipient_key: &Vec<u8>,
    now: u64,
) -> (r: Result<SignerRotationDecisionV3, SignerRotationError>)
    requires
        signer_rotation_wf(*old(state)),
    ensures
        signer_rotation_wf(*final(state)),
        finalize_abort_transition(*old(state), *final(state), *plan, *certificate, response_recipient_key@, now, r),
{
    if response_recipient_key.len() != XWING_PUBLIC_KEY_LEN {
        return Err(SignerRotationError::MalformedRecipient);
    }
    match validate_abort_rotation_certificate_v3(certificate, plan, &state.active_capsule, now) {
        Ok(_) => {},
        Err(e) => return Err(SignerRotationError::Plan(e)),
    }
    let rotation_id = plan.context.rotation_id;
    let plan_hash = plan.transcript_hash;
    let began = match lookup(&state.begin_votes, &rotation_id) {
        Some(h) => id_eq(&h, &plan_hash),
        None => false,
    };
    if !began || find_key(&state.activate_votes, &rotation_id).is_some() {
        return Err(SignerRotationError::InvalidAbort);
    }
    let predecessor = plan.context.predecessor_capsule_hash;
    let locked = match lookup(&state.predecessor_plan_locks, &predecessor) {
        Some(h) => id_eq(&h, &plan_hash),
        None => false,
    };
    if !locked {
        return Err(SignerRotationError::PredecessorLockMismatch);
    }
    insert_key(&mut state.cancelled_rotations, rotation_id, certificate.transcript_hash);
    remove_key(&mut state.predecessor_plan_locks, &predecessor);
    Ok(SignerRotationDecisionV3::AbortFinalized)
}

/// A signer's step on an owner cancellation backed by a witness veto
/// quorum.
pub open spec fn finalize_owner_cancel_transition(
    old: SignerRotationStateV3,
    new: SignerRotationStateV3,
    plan: RotationPlan,
    certificate: OwnerRotationCancelCertificate,
    witness_acks: Seq<WitnessRotationCancelAck>,
    response_recipient_key: Seq<u8>,
    now: u64,
    r: Result<SignerRotationDecisionV3, SignerRotationError>,
) -> bool {
    let rotation_id = plan.context.rotation_id;
    let predecessor = plan.context.predecessor_capsule_hash;
    if response_recipient_key.len() != XWING_PUBLIC_KEY_LEN {
        r == Err::<SignerRotationDecisionV3, SignerRotationError>(SignerRotationError::MalformedRecipient)
            && new == old
    } else {
        match owner_cancel_quorum_outcome(certificate, witness_acks, old.recovery_card, plan, old.active_capsule, now) {
            Err(e) => r == Err::<SignerRotationDecisionV3, SignerRotationError>(
                SignerRotationError::Plan(e),
            ) && new == old,
            Ok(cancel_hash) => if digest_of(old.cancelled_rotations@, rotation_id) == Some(cancel_hash) {
                r == Ok::<SignerRotationDecisionV3, SignerRotationError>(
                    SignerRotationDecisionV3::OwnerCancelFinalized,
                ) && new == old
            } else if digest_of(old.begin_votes@, rotation_id) != Some(plan.transcript_hash) {
                r == Err::<SignerRotationDecisionV3, SignerRotationError>(SignerRotationError::NeverBegun)
                    && new == old
            } else if digest_of(old.predecessor_plan_locks@, predecessor) != Some(plan.transcript_hash) {
                r == Err::<SignerRotationDecisionV3, SignerRotationError>(
                    SignerRotationError::PredecessorLockMismatch,
                ) && new == old
            } else {
                &&& r == Ok::<SignerRotationDecisionV3, SignerRotationError>(
                    SignerRotationDecisionV3::OwnerCancelFinalized,
                )
                &&& same_but_cancellation(old, new)
                &&& map_inserted(old.cancelled_rotations@, new.cancelled_rotations@, rotation_id, cancel_hash)
                &&& map_removed(old.predecessor_plan_locks@, new.predecessor_plan_locks@, predecessor)
            },
        }
    }
}

/// Records an owner cancellation that a `2f + 1` witness quorum vetoed:
/// the rotation id is cancelled for good and its predecessor unlocked.
fn signer_finalize_owner_cancel(
    state: &mut SignerRotationStateV3,
    plan: &RotationPlan,
    certificate: &OwnerRotationCancelCertificate,
    witness_acks: &Vec<WitnessRotationCancelAck>,
    response_recipient_key: &Vec<u8>,
    now: u64,
) -> (r: Result<SignerRotationDecisionV3, SignerRotationError>)
    requires
        signer_rotation_wf(*old(state)),
    ensures
        signer_rotation_wf(*final(state)),
        finalize_owner_cancel_transition(
            *old(state),
            *final(state),
            *plan,
            *certificate,
            witness_acks@,
            response_recipient_key@,
            now,
            r,
        ),
{
    if response_recipient_key.len() != XWING_PUBLIC_KEY_LEN {
        return Err(SignerRotationError::MalformedRecipient);
    }
    let cancel_hash = match validate_owner_rotation_cancel_witness_quorum_v3(
        certificate,
        witness_acks.as_slice(),
        &state.recovery_card,
        plan,
        &state.active_capsule,
        now,
    ) {
        Ok(h) => h,
        Err(e) => return Err(SignerRotationError::Plan(e)),
    };
    let rotation_id = plan.context.rotation_id;
    if let Some(existing) = lookup(&state.cancelled_rotations, &rotation_id) {
        if id_eq(&existing, &cancel_hash) {
            return Ok(SignerRotationDecisionV3::OwnerCancelFinalized);
        }
    }
    let plan_hash = plan.transcript_hash;
    let began = match lookup(&state.begin_votes, &rotation_id) {
        Some(h) => id_eq(&h, &plan_hash),
        None => false,
    };
    if !began {
        return Err(SignerRotationError::NeverBegun);
    }
    let predecessor = plan.context.predecessor_capsule_hash;
    let locked = match lookup(&state.predecessor_plan_locks, &predecessor) {
        Some(h) => id_eq(&h, &plan_hash),
        None => false,
    };
    if !locked {
        return Err(SignerRotationError::PredecessorLockMismatch);
    }
    insert_key(&mut state.cancelled_rotations, rotation_id, cancel_hash);
    remove_key(&mut state.predecessor_plan_locks, &predecessor);
    Ok(SignerRotationDecisionV3::OwnerCancelFinalized)
}

/// A rotation request addressed to a signer.
#[derive(Clone, Debug)]
pub enum SignerRotationRequestV3 {
    Intent {
        intent: RotationIntent,
        witness_challenge: EpochReadChallenge,
        witness_reads: Vec<WitnessReadEnvelope>,
        /// The hash of the witness read transcript, ordered by witness id.
        read_quorum_hash: Id32,
    },
    Begin { intent_hash: Id32, plan: RotationPlan },
    Release {
        plan: RotationPlan,
        begin_certificate: BeginRotationCertificate,
        /// SHA-256 of the transcript of the Release vote this signer signs.
        vote_hash: Id32,
    },
    Activate {
        plan: RotationPlan,
        ready_certificate: RotationReadyCertificate,
        successor_capsule: ConfigCapsuleV3,
        /// The AEAD hash of the successor's encrypted recovery descriptor.
        descriptor_hash: Id32,
        /// SHA-256 of the transcript of the Activate vote this signer signs.
        vote_hash: Id32,
    },
    Abort {
        plan: RotationPlan,
        state_at_abort: RotationState,
        reason_code: u16,
        response_recipient_key: Vec<u8>,
    },
    FinalizeAbort {
        plan: RotationPlan,
        certificate: AbortRotationCertificate,
        response_recipient_key: Vec<u8>,
    },
    FinalizeOwnerCancel {
        plan: RotationPlan,
        certificate: OwnerRotationCancelCertificate,
        witness_acks: Vec<WitnessRotationCancelAck>,
        response_recipient_key: Vec<u8>,
    },
}

/// The rotation context a signer request is about.
pub open spec fn signer_request_context(request: SignerRotationRequestV3) -> RotationContext {
    match request {
        SignerRotationRequestV3::Intent { intent, .. } => intent.context,
        SignerRotationRequestV3::Begin { plan, .. } => plan.context,
        SignerRotationRequestV3::Release { plan, .. } => plan.context,
        SignerRotationRequestV3::Activate { plan, .. } => plan.context,
        SignerRotationRequestV3::Abort { plan, .. } => plan.context,
        SignerRotationRequestV3::FinalizeAbort { plan, .. } => plan.context,
        SignerRotationRequestV3::FinalizeOwnerCancel { plan, .. } => plan.context,
    }
}

/// The key a signer's answer to a rotation message is sealed to: the key
/// an abort or finalization names, the context's recipient key otherwise.
pub open spec fn signer_rotation_response_key_of(message: SignerRotationRequestV3) -> Seq<u8> {
    match message {
        SignerRotationRequestV3::Abort { response_recipient_key, .. } => response_recipient_key@,
        SignerRotationRequestV3::FinalizeAbort { response_recipient_key, .. } => response_recipient_key@,
        SignerRotationRequestV3::FinalizeOwnerCancel { response_recipient_key, .. } => response_recipient_key@,
        _ => signer_request_context(message).recipient_key@,
    }
}

/// The key a signer seals its answer to a rotation message to.
pub fn signer_rotation_response_key(message: &SignerRotationRequestV3) -> (r: &Vec<u8>)
    ensures
        r@ == signer_rotation_response_key_of(*message),
{
    match message {
        SignerRotationRequestV3::Abort { response_recipient_key, .. } => response_recipient_key,
        SignerRotationRequestV3::FinalizeAbort { response_recipient_key, .. } => response_recipient_key,
        SignerRotationRequestV3::FinalizeOwnerCancel { response_recipient_key, .. } => response_recipient_key,
        _ => &message.context().recipient_key,
    }
}

impl SignerRotationRequestV3 {
    /// The rotation context this request is about.
    pub fn context(&self) -> (r: &RotationContext)
        ensures
            *r == signer_request_context(*self),
    {
        match self {
            SignerRotationRequestV3::Intent { intent, .. } => &intent.context,
            SignerRotationRequestV3::Begin { plan, .. } => &plan.context,
            SignerRotationRequestV3::Release { plan, .. } => &plan.context,
            SignerRotationRequestV3::Activate { plan, .. } => &plan.context,
            SignerRotationRequestV3::Abort { plan, .. } => &plan.context,
            SignerRotationRequestV3::FinalizeAbort { plan, .. } => &plan.context,
            SignerRotationRequestV3::FinalizeOwnerCancel { plan, .. } => &plan.context,
        }
    }
}

/// A signer's whole step on one rotation request.
pub open spec fn signer_rotation_transition(
    old: SignerRotationStateV3,
    new: SignerRotationStateV3,
    request: SignerRotationRequestV3,
    now: u64,
    r: Result<SignerRotationDecisionV3, SignerRotationError>,
) -> bool {
    if !rotation_context_ok(old, signer_request_context(request), now) {
        r == Err::<SignerRotationDecisionV3, SignerRotationError>(SignerRotationError::MalformedContext)
            && new == old
    } else {
        match request {
            SignerRotationRequestV3::Intent { intent, witness_challenge, witness_reads, read_quorum_hash } =>
                intent_transition(old, new, intent, witness_challenge, witness_reads@, read_quorum_hash, r),
            SignerRotationRequestV3::Begin { intent_hash, plan } => begin_transition(old, new, intent_hash, plan, now, r),
            SignerRotationRequestV3::Release { plan, begin_certificate, vote_hash } =>
                release_transition(old, new, plan, begin_certificate, vote_hash, now, r),
            SignerRotationRequestV3::Activate { plan, ready_certificate, successor_capsule, descriptor_hash, vote_hash } =>
                activate_transition(old, new, plan, ready_certificate, successor_capsule, descriptor_hash, vote_hash, now, r),
            SignerRotationRequestV3::Abort { plan, state_at_abort, reason_code, response_recipient_key } =>
                r == abort_vote_outcome(old, plan, state_at_abort, reason_code, response_recipient_key@, now) && new == old,
            SignerRotationRequestV3::FinalizeAbort { plan, certificate, response_recipient_key } =>
                finalize_abort_transition(old, new, plan, certificate, response_recipient_key@, now, r),
            SignerRotationRequestV3::FinalizeOwnerCancel { plan, certificate, witness_acks, response_recipient_key } =>
                finalize_owner_cancel_transition(old, new, plan, certificate, witness_acks@, response_recipient_key@, now, r),
        }
    }
}

/// A signer's rotation actor: one Intent per rotation from a fresh witness
/// view, one Begin plan per predecessor, and Release, Activate and Abort
/// votes only for the plan it began; cancelled rotations are refused for
/// good.
pub fn handle_signer_rotation_v3(
    state: &mut SignerRotationStateV3,
    request: SignerRotationRequestV3,
    now: u64,
) -> (r: Result<SignerRotationDecisionV3, SignerRotationError>)
    requires
        signer_rotation_wf(*old(state)),
    ensures
        signer_rotation_wf(*final(state)),
        signer_rotation_transition(*old(state), *final(state), request, now, r),
{
    let context = request.context();
    if context.protocol_version != PROTOCOL_VERSION_V3 || !id_eq(
        &context.config_ref.config_id,
        &state.recovery_card.config_id,
    ) || context.issued_at > now || context.expiry <= now || context.recipient_key.len()
        != XWING_PUBLIC_KEY_LEN {
        return Err(SignerRotationError::MalformedContext);
    }
    match request {
        SignerRotationRequestV3::Intent { intent, witness_challenge, witness_reads, read_quorum_hash } =>
            signer_intent(state, intent, &witness_challenge, &witness_reads, &read_quorum_hash),
        SignerRotationRequestV3::Begin { intent_hash, plan } => signer_begin(state, &intent_hash, &plan, now),
        SignerRotationRequestV3::Release { plan, begin_certificate, vote_hash } =>
            signer_release(state, &plan, &begin_certificate, vote_hash, now),
        SignerRotationRequestV3::Activate { plan, ready_certificate, successor_capsule, descriptor_hash, vote_hash } =>
            signer_activate(state, &plan, &ready_certificate, &successor_capsule, &descriptor_hash, vote_hash, now),
        SignerRotationRequestV3::Abort { plan, state_at_abort, reason_code, response_recipient_key } =>
            signer_abort(state, &plan, state_at_abort, reason_code, &response_recipient_key, now),
        SignerRotationRequestV3::FinalizeAbort { plan, certificate, response_recipient_key } =>
            signer_finalize_abort(state, &plan, &certificate, &response_recipient_key, now),
        SignerRotationRequestV3::FinalizeOwnerCancel { plan, certificate, witness_acks, response_recipient_key } =>
            signer_finalize_owner_cancel(state, &plan, &certificate, &witness_acks, &response_recipient_key, now),
    }
}

/// A cancelled or aborted rotation is final for a signer: it votes no
/// Begin, Release, Activate or Abort for that rotation id again.
pub proof fn lemma_cancelled_rotation_gets_no_vote(
    old: SignerRotationStateV3,
    new: SignerRotationStateV3,
    request: SignerRotationRequestV3,
    now: u64,
    r: Result<SignerRotationDecisionV3, SignerRotationError>,
)
    requires
        signer_rotation_transition(old, new, request, now, r),
        has_key(old.cancelled_rotations@, signer_request_context(request).rotation_id),
        request is Begin || request is Release || request is Activate || request is Abort,
    ensures
        r is Err,
        new == old,
{
}

/// One plan per predecessor: a signer's Begin vote for a predecessor
/// already locked to a plan is only ever for that same plan, and an
/// accepted Begin leaves the predecessor locked to the voted plan.
pub proof fn lemma_begin_locks_one_plan_per_predecessor(
    old: SignerRotationStateV3,
    new: SignerRotationStateV3,
    intent_hash: Id32,
    plan: RotationPlan,
    now: u64,
    r: Result<SignerRotationDecisionV3, SignerRotationError>,
)
    requires
        signer_rotation_wf(old),
        begin_transition(old, new, intent_hash, plan, now, r),
        r matches Ok(SignerRotationDecisionV3::BeginVote { .. }),
    ensures
        r matches Ok(SignerRotationDecisionV3::BeginVote { plan_hash, .. }) && {
            &&& has_key(old.predecessor_plan_locks@, plan.context.predecessor_capsule_hash) ==> digest_of(
                old.predecessor_plan_locks@,
                plan.context.predecessor_capsule_hash,
            ) == Some(plan_hash)
            &&& digest_of(new.predecessor_plan_locks@, plan.context.predecessor_capsule_hash) == Some(
                plan_hash,
            )
            &&& digest_of(new.begin_votes@, plan.context.rotation_id) == Some(plan_hash)
        },
{
    let pred = plan.context.predecessor_capsule_hash;
    let rid = plan.context.rotation_id;
    if let Ok(SignerRotationDecisionV3::BeginVote { plan_hash, .. }) = r {
        if !has_key(old.predecessor_plan_locks@, pred) {
            let s = new.predecessor_plan_locks@;
            let i = old.predecessor_plan_locks@.len() as int;
            assert(s[i].key == pred);
            assert forall|a: int, b: int| 0 <= a < b < s.len() implies (#[trigger] s[a]).key != (#[trigger] s[b]).key by {
                if b == i {
                    assert(s[a] == old.predecessor_plan_locks@[a]);
                } else {
                    assert(s[a] == old.predecessor_plan_locks@[a]);
                    assert(s[b] == old.predecessor_plan_locks@[b]);
                }
            }
            lemma_key_position(s, pred, i);
        }
        if !has_key(old.begin_votes@, rid) {
            let s = new.begin_votes@;
            let i = old.begin_votes@.len() as int;
            assert(s[i].key == rid);
            assert forall|a: int, b: int| 0 <= a < b < s.len() implies (#[trigger] s[a]).key != (#[trigger] s[b]).key by {
                if b == i {
                    assert(s[a] == old.begin_votes@[a]);
                } else {
                    assert(s[a] == old.begin_votes@[a]);
                    assert(s[b] == old.begin_votes@[b]);
                }
            }
            lemma_key_position(s, rid, i);
        }
    }
}

/// Votes follow the rotation's order: a Release vote only for the exact
/// plan this signer began and after the Begin delay, an Activate vote only
/// after this signer's Begin for that plan and its Release vote.
pub proof fn lemma_votes_follow_begin(
    old: SignerRotationStateV3,
    released: SignerRotationStateV3,
    activated: SignerRotationStateV3,
    plan: RotationPlan,
    begin: BeginRotationCertificate,
    ready: RotationReadyCertificate,
    successor: ConfigCapsuleV3,
    descriptor_hash: Id32,
    release_vote_hash: Id32,
    activate_vote_hash: Id32,
    now: u64,
    r1: Result<SignerRotationDecisionV3, SignerRotationError>,
    r2: Result<SignerRotationDecisionV3, SignerRotationError>,
)
    requires
        release_transition(old, released, plan, begin, release_vote_hash, now, r1),
        activate_transition(old, activated, plan, ready, successor, descriptor_hash, activate_vote_hash, now, r2),
    ensures
        r1 is Ok ==> digest_of(old.begin_votes@, plan.context.rotation_id) == Some(plan.transcript_hash)
            && now >= begin.not_before_wall && !has_key(old.cancelled_rotations@, plan.context.rotation_id),
        r2 is Ok ==> digest_of(old.begin_votes@, plan.context.rotation_id) == Some(plan.transcript_hash)
            && has_key(old.release_votes@, plan.context.rotation_id) && !has_key(
            old.cancelled_rotations@,
            plan.context.rotation_id,
        ) && successor_matches(old, plan, ready, successor, descriptor_hash),
{
}

/// A key removed from a map with unique keys is gone from it.
proof fn lemma_removed_key_absent(old: Seq<KeyedDigest>, new: Seq<KeyedDigest>, key: Id32)
    requires
        keys_unique(old),
        map_removed(old, new, key),
    ensures
        !has_key(new, key),
{
    if has_key(old, key) {
        let p = key_position(old, key);
        if has_key(new, key) {
            let j = choose|j: int| 0 <= j < new.len() && (#[trigger] new[j]).key == key;
            if j < p {
                assert(new[j] == old[j]);
            } else {
                assert(new[j] == old[j + 1]);
            }
        }
    }
}

/// A key inserted into a map is in it.
proof fn lemma_inserted_key_present(old: Seq<KeyedDigest>, new: Seq<KeyedDigest>, key: Id32, digest: Id32)
    requires
        map_inserted(old, new, key, digest),
    ensures
        has_key(new, key),
{
    if has_key(old, key) {
        let p = key_position(old, key);
        assert(new[p].key == key);
    } else {
        assert(new[old.len() as int].key == key);
    }
}

/// Finalizing a threshold abort or an owner cancellation frees the
/// predecessor: after the first accepted finalization of a rotation, the
/// rotation is recorded as cancelled, no plan holds its predecessor
/// capsule any more, and a later Begin for any plan over that predecessor
/// is not refused as locked.
pub proof fn lemma_finalized_cancellation_unlocks_predecessor(
    old: SignerRotationStateV3,
    new: SignerRotationStateV3,
    request: SignerRotationRequestV3,
    now: u64,
    r: Result<SignerRotationDecisionV3, SignerRotationError>,
    next: SignerRotationStateV3,
    intent_hash: Id32,
    plan: RotationPlan,
    later: u64,
    r_begin: Result<SignerRotationDecisionV3, SignerRotationError>,
)
    requires
        signer_rotation_wf(old),
        signer_rotation_transition(old, new, request, now, r),
        request is FinalizeAbort || request is FinalizeOwnerCancel,
        !has_key(old.cancelled_rotations@, signer_request_context(request).rotation_id),
        r is Ok,
        begin_transition(new, next, intent_hash, plan, later, r_begin),
        plan.context.predecessor_capsule_hash == signer_request_context(request).predecessor_capsule_hash,
    ensures
        has_key(new.cancelled_rotations@, signer_request_context(request).rotation_id),
        digest_of(new.predecessor_plan_locks@, signer_request_context(request).predecessor_capsule_hash)
            == None::<Id32>,
        r_begin != Err::<SignerRotationDecisionV3, SignerRotationError>(SignerRotationError::PredecessorLocked),
{
    let rid = signer_request_context(request).rotation_id;
    let pred = signer_request_context(request).predecessor_capsule_hash;
    match request {
        SignerRotationRequestV3::FinalizeAbort { plan: p, certificate, response_recipient_key } => {
            lemma_removed_key_absent(old.predecessor_plan_locks@, new.predecessor_plan_locks@, pred);
            lemma_inserted_key_present(
                old.cancelled_rotations@,
                new.cancelled_rotations@,
                rid,
                certificate.transcript_hash,
            );
        },
        SignerRotationRequestV3::FinalizeOwnerCancel { plan: p, certificate, witness_acks, response_recipient_key } => {
            lemma_removed_key_absent(old.predecessor_plan_locks@, new.predecessor_plan_locks@, pred);
            let cancel_hash = owner_cancel_quorum_outcome(
                certificate,
                witness_acks@,
                old.recovery_card,
                p,
                old.active_capsule,
                now,
            )->Ok_0;
            lemma_inserted_key_present(old.cancelled_rotations@, new.cancelled_rotations@, rid, cancel_hash);
        },
        _ => {},
    }
}

} // verus!
