//! The owner's protocol-v3 control file: it must describe the Recovery
//! Card's configuration and the active epoch before the owner rotates or
//! cancels a rotation, and it must hold the private key of the card's
//! owner cancellation key.
use vstd::prelude::*;

use crate::bytes::{id_eq, Id32};
use crate::model::{config_ref_eq, ConfigCapsuleV3, ConfigRef, RecoveryCardV3, PROTOCOL_VERSION_V3};
use crate::rotation::RotationPlan;
use crate::text::{string_views, trim_end_slashes, trim_slashes};

verus! {

/// The owner's private control state for a protocol-v3 configuration, as
/// far as the rotation flows read it.
#[derive(Clone, Debug)]
pub struct OwnerControlFileV3 {
    pub protocol_version: u16,
    pub config_ref: ConfigRef,
    pub owner_cancel_public_key: Id32,
    /// The public key of the owner's private cancellation seed.
    pub seed_public_key: Id32,
    /// Each guardian's provisioning target, by guardian index.
    pub guardian_targets: Vec<(u16, String)>,
    pub relay_bases: Vec<String>,
}

/// What the owner keeps to cancel one rotation.
#[derive(Clone, Debug)]
pub struct RotationControlFileV3 {
    pub protocol_version: u16,
    pub recovery_card: RecoveryCardV3,
    pub predecessor_capsule: ConfigCapsuleV3,
    pub plan: RotationPlan,
    pub owner_cancel_public_key: Id32,
}

/// Why the owner's control state was refused.
#[derive(Debug, Clone, Copy, PartialEq, Eq)]
pub enum OwnerControlError {
    /// The control file does not describe the card's configuration, or
    /// does not hold the card's cancellation key.
    CardMismatch,
    /// The control file describes an older epoch than the active one.
    StaleEpoch,
    /// The rotation-control and owner-control files do not describe the
    /// same active epoch.
    ControlMismatch,
}

/// Whether two lists of strings have the same characters, in order.
pub fn strings_eq(a: &Vec<String>, b: &Vec<String>) -> (r: bool)
    ensures
        r == (string_views(a@) == string_views(b@)),
{
    if a.len() != b.len() {
        proof {
            assert(string_views(a@).len() != string_views(b@).len());
        }
        return false;
    }
    let mut i: usize = 0;
    while i < a.len()
        invariant
            i <= a@.len(),
            a@.len() == b@.len(),
            forall|j: int| 0 <= j < i ==> a@[j]@ == b@[j]@,
        decreases a.len() - i,
    {
        if a[i] != b[i] {
            proof {
                assert(string_views(a@)[i as int] != string_views(b@)[i as int]);
            }
            return false;
        }
        i = i + 1;
    }
    proof {
        assert(string_views(a@) =~= string_views(b@));
    }
    true
}

/// The control file is a protocol-v3 file for the card's configuration,
/// its relays and its cancellation key, and holds that key's seed.
pub open spec fn owner_matches_card(owner: OwnerControlFileV3, card: RecoveryCardV3) -> bool {
    &&& owner.protocol_version == PROTOCOL_VERSION_V3
    &&& owner.config_ref.config_id == card.config_id
    &&& owner.owner_cancel_public_key == card.owner_cancel_public_key
    &&& owner.seed_public_key == owner.owner_cancel_public_key
    &&& string_views(owner.relay_bases@) == string_views(card.relay_bases@)
}

/// Checks the owner's control file before a rotation of the active epoch
/// `active` (the epoch the witnesses selected).
pub fn validate_owner_control_v3(owner: &OwnerControlFileV3, card: &RecoveryCardV3, active: &ConfigRef) -> (r:
    Result<(), OwnerControlError>)
    ensures
        r == if !owner_matches_card(*owner, *card) {
            Err(OwnerControlError::CardMismatch)
        } else if owner.config_ref != *active {
            Err(OwnerControlError::StaleEpoch)
        } else {
            Ok::<(), OwnerControlError>(())
        },
{
    if owner.protocol_version != PROTOCOL_VERSION_V3 || !id_eq(&owner.config_ref.config_id, &card.config_id)
        || !id_eq(&owner.owner_cancel_public_key, &card.owner_cancel_public_key) || !id_eq(
        &owner.seed_public_key,
        &owner.owner_cancel_public_key,
    ) || !strings_eq(&owner.relay_bases, &card.relay_bases) {
        return Err(OwnerControlError::CardMismatch);
    }
    if !config_ref_eq(&owner.config_ref, active) {
        return Err(OwnerControlError::StaleEpoch);
    }
    Ok(())
}

/// The rotation-control and owner-control files describe the same active
/// epoch, card and cancellation key, and the owner holds that key's seed.
pub open spec fn controls_agree(control: RotationControlFileV3, owner: OwnerControlFileV3) -> bool {
    &&& control.protocol_version == PROTOCOL_VERSION_V3
    &&& owner.protocol_version == PROTOCOL_VERSION_V3
    &&& control.predecessor_capsule.config_ref == owner.config_ref
    &&& control.plan.predecessor == owner.config_ref
    &&& control.plan.context.config_ref == owner.config_ref
    &&& control.owner_cancel_public_key == owner.owner_cancel_public_key
    &&& control.recovery_card.config_id == owner.config_ref.config_id
    &&& string_views(control.recovery_card.relay_bases@) == string_views(owner.relay_bases@)
    &&& owner.seed_public_key == owner.owner_cancel_public_key
}

/// Checks the two control files before the owner cancels a rotation.
pub fn validate_rotation_control(control: &RotationControlFileV3, owner: &OwnerControlFileV3) -> (r: Result<
    (),
    OwnerControlError,
>)
    ensures
        r is Ok <==> controls_agree(*control, *owner),
        r matches Err(e) ==> e == OwnerControlError::ControlMismatch,
{
    if control.protocol_version != PROTOCOL_VERSION_V3 || owner.protocol_version != PROTOCOL_VERSION_V3
        || !config_ref_eq(&control.predecessor_capsule.config_ref, &owner.config_ref) || !config_ref_eq(
        &control.plan.predecessor,
        &owner.config_ref,
    ) || !config_ref_eq(&control.plan.context.config_ref, &owner.config_ref) || !id_eq(
        &control.owner_cancel_public_key,
        &owner.owner_cancel_public_key,
    ) || !id_eq(&control.recovery_card.config_id, &owner.config_ref.config_id) || !strings_eq(
        &control.recovery_card.relay_bases,
        &owner.relay_bases,
    ) || !id_eq(&owner.seed_public_key, &owner.owner_cancel_public_key) {
        return Err(OwnerControlError::ControlMismatch);
    }
    Ok(())
}

/// The provisioning target the owner keeps for guardian `index`: that of
/// the first entry naming it.
pub open spec fn target_of(targets: Seq<(u16, String)>, index: u16) -> Option<Seq<char>>
    decreases targets.len(),
{
    if targets.len() == 0 {
        None
    } else if targets[0].0 == index {
        Some(targets[0].1@)
    } else {
        target_of(targets.drop_first(), index)
    }
}

/// The provisioning target of guardian `index`, if the owner keeps one.
pub fn guardian_target(owner: &OwnerControlFileV3, index: u16) -> (r: Option<String>)
    ensures
        match target_of(owner.guardian_targets@, index) {
            Some(t) => r matches Some(s) && s@ == t,
            None => r is None,
        },
{
    let targets = &owner.guardian_targets;
    let mut i: usize = 0;
    proof {
        assert(targets@.subrange(0, targets@.len() as int) =~= targets@);
    }
    while i < targets.len()
        invariant
            i <= targets@.len(),
            targets@ == owner.guardian_targets@,
            target_of(targets@, index) == target_of(targets@.subrange(i as int, targets@.len() as int), index),
        decreases targets.len() - i,
    {
        let ghost rest = targets@.subrange(i as int, targets@.len() as int);
        assert(rest.drop_first() =~= targets@.subrange(i + 1, targets@.len() as int));
        assert(rest[0] == targets@[i as int]);
        if targets[i].0 == index {
            return Some(targets[i].1.clone());
        }
        i = i + 1;
    }
    None
}

/// The guardian targets of `s`, as index and text, without the entries
/// for guardians `removed` and `added`.
pub open spec fn kept_targets(s: Seq<(u16, String)>, removed: u16, added: u16) -> Seq<(u16, Seq<char>)>
    decreases s.len(),
{
    if s.len() == 0 {
        Seq::empty()
    } else {
        let rest = kept_targets(s.drop_last(), removed, added);
        if s.last().0 == removed || s.last().0 == added {
            rest
        } else {
            rest.push((s.last().0, s.last().1@))
        }
    }
}

/// The guardian targets as index and text.
pub open spec fn target_views(s: Seq<(u16, String)>) -> Seq<(u16, Seq<char>)> {
    s.map_values(|e: (u16, String)| (e.0, e.1@))
}

/// Records a finished rotation in the owner's control state: the removed
/// guardian's target goes, the replacement's target (without trailing
/// `/`) is kept under its new index in place of any earlier one, and the
/// control state now names the successor epoch.
pub fn record_rotation(
    owner: &mut OwnerControlFileV3,
    removed: u16,
    added: u16,
    replacement_target: &str,
    successor: ConfigRef,
)
    ensures
        target_views(final(owner).guardian_targets@) == kept_targets(old(owner).guardian_targets@, removed, added).push(
            (added, trim_slashes(replacement_target@)),
        ),
        final(owner).config_ref == successor,
        final(owner).protocol_version == old(owner).protocol_version,
        final(owner).owner_cancel_public_key == old(owner).owner_cancel_public_key,
        final(owner).seed_public_key == old(owner).seed_public_key,
        final(owner).relay_bases == old(owner).relay_bases,
{
    let ghost old_targets = owner.guardian_targets@;
    let mut kept: Vec<(u16, String)> = Vec::new();
    let mut i: usize = 0;
    assert(old_targets.take(0) =~= Seq::<(u16, String)>::empty());
    assert(target_views(kept@) =~= Seq::<(u16, Seq<char>)>::empty());
    while i < owner.guardian_targets.len()
        invariant
            i <= old_targets.len(),
            owner.guardian_targets@ == old_targets,
            target_views(kept@) == kept_targets(old_targets.take(i as int), removed, added),
        decreases owner.guardian_targets.len() - i,
    {
        let index = owner.guardian_targets[i].0;
        assert(old_targets.take(i + 1).drop_last() =~= old_targets.take(i as int));
        assert(old_targets.take(i + 1).last() == old_targets[i as int]);
        if index != removed && index != added {
            let text = owner.guardian_targets[i].1.clone();
            let ghost before = kept@;
            kept.push((index, text));
            assert(target_views(kept@) =~= target_views(before).push((index, text@)));
        }
        i = i + 1;
    }
    assert(old_targets.take(old_targets.len() as int) =~= old_targets);
    let ghost before = kept@;
    let trimmed = trim_end_slashes(replacement_target);
    let ghost trimmed_view = trimmed@;
    kept.push((added, trimmed));
    assert(target_views(kept@) =~= target_views(before).push((added, trimmed_view)));
    owner.guardian_targets = kept;
    owner.config_ref = successor;
}

} // verus!
