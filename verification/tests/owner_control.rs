use gp_network::model::{ConfigCapsuleV3, ConfigRef, RecoveryCardV3, RotationContext, PROTOCOL_VERSION_V3};
use gp_network::owner_control::{
    guardian_target, record_rotation, strings_eq, validate_owner_control_v3, validate_rotation_control, OwnerControlError,
    OwnerControlFileV3, RotationControlFileV3,
};
use gp_network::rotation::RotationPlan;

fn config_ref(epoch: u64) -> ConfigRef {
    ConfigRef {
        config_id: [1; 32],
        payload_generation: 1,
        authorization_epoch: 1,
        guardian_epoch: epoch,
        epoch_binding: [epoch as u8; 32],
    }
}

fn card() -> RecoveryCardV3 {
    RecoveryCardV3 {
        protocol_version: PROTOCOL_VERSION_V3,
        config_id: [1; 32],
        signer_mailboxes: vec![],
        signer_set_commitment: [77; 32],
        owner_cancel_public_key: [4; 32],
        witness_fault_bound: 1,
        witnesses: vec![],
        relay_bases: vec!["https://relay.invalid".into()],
    }
}

fn owner(epoch: u64) -> OwnerControlFileV3 {
    OwnerControlFileV3 {
        protocol_version: PROTOCOL_VERSION_V3,
        config_ref: config_ref(epoch),
        owner_cancel_public_key: [4; 32],
        seed_public_key: [4; 32],
        guardian_targets: vec![(1, "https://g-1.invalid".into())],
        relay_bases: vec!["https://relay.invalid".into()],
    }
}

fn capsule(epoch: u64) -> ConfigCapsuleV3 {
    ConfigCapsuleV3 {
        protocol_version: PROTOCOL_VERSION_V3,
        config_ref: config_ref(epoch),
        capsule_hash: [3; 32],
        predecessor_capsule_hash: [0; 32],
        signer_count: 3,
        signer_threshold: 2,
        guardian_count: 3,
        guardian_threshold: 2,
        minimum_recovery_delay: 10,
        max_request_lifetime: 100,
        signer_set_commitment: [77; 32],
        owner_cancel_public_key: [4; 32],
        dpss_suite: 0,
        dpss_public_commitment: [5; 32],
        guardian_material_root: [6; 32],
        body_hash: [3; 32],
        activation_certificate: None,
        activation_qc: None,
    }
}

fn rotation_control(epoch: u64) -> RotationControlFileV3 {
    let predecessor = config_ref(epoch);
    RotationControlFileV3 {
        protocol_version: PROTOCOL_VERSION_V3,
        recovery_card: card(),
        predecessor_capsule: capsule(epoch),
        plan: RotationPlan {
            context: RotationContext {
                protocol_version: PROTOCOL_VERSION_V3,
                config_ref: predecessor,
                rotation_id: [91; 32],
                predecessor_capsule_hash: [3; 32],
                recipient_key: vec![92; 1216],
                nonce: [93; 32],
                issued_at: 1,
                expiry: 100,
            },
            predecessor,
            successor: ConfigRef { guardian_epoch: epoch + 1, ..predecessor },
            intent_hash: [97; 32],
            preparation_deadline: 80,
            drain_deadline: 90,
            minimum_delay_secs: 10,
            old_guardian_threshold: 2,
            data_shards: 2,
            total_shards: 3,
            old_roster: vec![],
            new_roster: vec![],
            new_guardian_threshold: 2,
            old_roster_commitment: [98; 32],
            new_roster_commitment: [99; 32],
            dpss_suite: 0,
            dpss_qualified_set_commitment: [99; 32],
            dpss_session_id: [34; 32],
            old_roster_digest: [98; 32],
            new_roster_digest: [99; 32],
            transcript_hash: [96; 32],
            canonical: true,
        },
        owner_cancel_public_key: [4; 32],
    }
}

#[test]
fn owner_control_must_match_the_card_and_the_active_epoch() {
    assert_eq!(validate_owner_control_v3(&owner(2), &card(), &config_ref(2)), Ok(()));
    assert_eq!(
        validate_owner_control_v3(&owner(1), &card(), &config_ref(2)),
        Err(OwnerControlError::StaleEpoch)
    );
    let mut foreign_seed = owner(2);
    foreign_seed.seed_public_key = [5; 32];
    assert_eq!(
        validate_owner_control_v3(&foreign_seed, &card(), &config_ref(2)),
        Err(OwnerControlError::CardMismatch)
    );
    let mut other_relays = owner(2);
    other_relays.relay_bases.push("https://relay-2.invalid".into());
    assert_eq!(
        validate_owner_control_v3(&other_relays, &card(), &config_ref(2)),
        Err(OwnerControlError::CardMismatch)
    );
    let mut other_key = card();
    other_key.owner_cancel_public_key = [6; 32];
    assert_eq!(
        validate_owner_control_v3(&owner(2), &other_key, &config_ref(2)),
        Err(OwnerControlError::CardMismatch)
    );
}

#[test]
fn rotation_cancel_needs_both_control_files_for_one_epoch() {
    assert_eq!(validate_rotation_control(&rotation_control(2), &owner(2)), Ok(()));
    assert_eq!(
        validate_rotation_control(&rotation_control(1), &owner(2)),
        Err(OwnerControlError::ControlMismatch)
    );
    let mut other_key = rotation_control(2);
    other_key.owner_cancel_public_key = [7; 32];
    assert_eq!(validate_rotation_control(&other_key, &owner(2)), Err(OwnerControlError::ControlMismatch));
    let mut other_plan = rotation_control(2);
    other_plan.plan.predecessor = config_ref(3);
    assert_eq!(validate_rotation_control(&other_plan, &owner(2)), Err(OwnerControlError::ControlMismatch));
}

#[test]
fn string_lists_compare_element_by_element() {
    let a = vec!["x".to_string(), "y".to_string()];
    assert!(strings_eq(&a, &a.clone()));
    assert!(!strings_eq(&a, &vec!["x".to_string()]));
    assert!(!strings_eq(&a, &vec!["x".to_string(), "z".to_string()]));
    assert!(strings_eq(&vec![], &vec![]));
}

#[test]
fn owner_keeps_one_provisioning_target_per_guardian() {
    let mut control = owner(2);
    control.guardian_targets.push((3, "https://g-3.invalid".into()));
    control.guardian_targets.push((1, "https://shadowed.invalid".into()));
    assert_eq!(guardian_target(&control, 1), Some("https://g-1.invalid".to_string()));
    assert_eq!(guardian_target(&control, 3), Some("https://g-3.invalid".to_string()));
    assert_eq!(guardian_target(&control, 2), None);
}

#[test]
fn a_finished_rotation_replaces_the_removed_target_and_moves_to_the_successor() {
    let mut control = owner(3);
    control.guardian_targets = vec![
        (1, "https://g-1.invalid".into()),
        (2, "https://g-2.invalid".into()),
        (3, "https://g-3.invalid".into()),
    ];
    record_rotation(&mut control, 2, 4, "https://g-new.invalid//", config_ref(4));
    assert_eq!(
        control.guardian_targets,
        vec![
            (1, "https://g-1.invalid".to_string()),
            (3, "https://g-3.invalid".to_string()),
            (4, "https://g-new.invalid".to_string()),
        ]
    );
    assert_eq!(control.config_ref.guardian_epoch, 4);
    assert_eq!(guardian_target(&control, 2), None);
}
