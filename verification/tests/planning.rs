use std::collections::BTreeMap;

use gp_network::coordinator::{distribute, rotation_actor_mailboxes, CoordinatorError, DpssDeliveryV3};
use gp_network::descriptor::RecoveryDescriptorV3;
use gp_network::model::{ConfigCapsuleV3, ConfigRef, PROTOCOL_VERSION_V3};
use gp_network::rotation::{validate_rotation_plan_v3, GuardianRouteV3};
use gp_network::rotation_planning::{
    added_guardian_index, assemble_rotation_plan, repair_helpers, replacement_is_fresh,
    rotation_context_v3, route_by_id, sort_routes_by_index, successor_roster, FreshRoute,
    PlanningError, PREPARATION_MARGIN_SECS, ROTATION_CONTEXT_SLACK_SECS,
};

fn active() -> ConfigCapsuleV3 {
    let config_ref = ConfigRef {
        config_id: [1; 32],
        payload_generation: 1,
        authorization_epoch: 1,
        guardian_epoch: 1,
        epoch_binding: [2; 32],
    };
    ConfigCapsuleV3 {
        protocol_version: PROTOCOL_VERSION_V3,
        config_ref,
        capsule_hash: [3; 32],
        predecessor_capsule_hash: [0; 32],
        signer_count: 3,
        signer_threshold: 2,
        guardian_count: 8,
        guardian_threshold: 5,
        minimum_recovery_delay: 10,
        max_request_lifetime: 100,
        signer_set_commitment: [77; 32],
        owner_cancel_public_key: [4; 32],
        dpss_suite: 0,
        dpss_public_commitment: [5; 32],
        guardian_material_root: [6; 32],
        body_hash: [3; 32],
        activation_certificate: None,
        activation_qc: None,
    }
}

fn route(index: u16) -> GuardianRouteV3 {
    GuardianRouteV3 {
        guardian_index: index,
        guardian_public_key: [(index + 10) as u8; 32],
        session_recipient_key: vec![(index + 20) as u8; 1216],
        operator_domain_commitment: [(index + 30) as u8; 32],
        opaque_slot_id: [index as u8; 32],
        mailbox: format!("https://relay.invalid/v3/mailboxes/g-{index}"),
        index_digest: [index as u8; 32],
    }
}

fn descriptor_with(capsule: &ConfigCapsuleV3, indices: &[u16]) -> RecoveryDescriptorV3 {
    RecoveryDescriptorV3 {
        config_ref: capsule.config_ref,
        guardian_material_root: capsule.guardian_material_root,
        data_shards: capsule.guardian_threshold,
        total_shards: capsule.guardian_count,
        guardians: indices.iter().map(|index| route(*index)).collect(),
        dpss_suite: capsule.dpss_suite,
        dpss_public_commitment: capsule.dpss_public_commitment,
        dpss_public_package_digest: Some(capsule.dpss_public_commitment),
    }
}

fn descriptor(capsule: &ConfigCapsuleV3) -> RecoveryDescriptorV3 {
    descriptor_with(capsule, &[1, 2, 3, 4, 5, 6, 7, 8])
}

fn fresh_routes(descriptor: &RecoveryDescriptorV3) -> Vec<FreshRoute> {
    descriptor
        .guardians
        .iter()
        .map(|route| FreshRoute {
            opaque_slot_id: [(route.guardian_index + 40) as u8; 32],
            mailbox: format!("https://relay.invalid/v3/mailboxes/new-{}", route.guardian_index),
        })
        .collect()
}

#[test]
fn rotation_context_expires_two_hours_after_the_delay() {
    let capsule = active();
    let context = rotation_context_v3(&capsule, [91; 32], vec![92; 1216], [93; 32], 1_000);
    assert_eq!(context.protocol_version, PROTOCOL_VERSION_V3);
    assert_eq!(context.config_ref.guardian_epoch, 1);
    assert_eq!(context.rotation_id, [91; 32]);
    assert_eq!(context.predecessor_capsule_hash, [3; 32]);
    assert_eq!(context.recipient_key, vec![92; 1216]);
    assert_eq!(context.nonce, [93; 32]);
    assert_eq!(context.issued_at, 1_000);
    assert_eq!(context.expiry, 1_000 + 10 + ROTATION_CONTEXT_SLACK_SECS);
    assert_eq!(context.expiry, 8_210);

    let late = rotation_context_v3(&capsule, [91; 32], vec![], [93; 32], u64::MAX - 5);
    assert_eq!(late.expiry, u64::MAX);
}

#[test]
fn replacement_gets_the_next_unused_index() {
    let capsule = active();
    assert_eq!(added_guardian_index(&descriptor(&capsule)), Ok(9));
    assert_eq!(added_guardian_index(&descriptor_with(&capsule, &[7, 2, 12, 3])), Ok(13));
    assert_eq!(added_guardian_index(&descriptor_with(&capsule, &[])), Ok(1));
    assert_eq!(
        added_guardian_index(&descriptor_with(&capsule, &[1, u16::MAX])),
        Err(PlanningError::GuardianIndexOverflow)
    );
}

#[test]
fn replacement_must_be_a_new_operator_and_endpoint() {
    let capsule = active();
    let descriptor = descriptor(&capsule);
    let targets = vec!["https://g-1.invalid".to_string(), "https://g-2.invalid/".to_string()];
    let new_domain = [200u8; 32];
    let new_key = vec![201u8; 1216];
    assert!(replacement_is_fresh(&descriptor, &new_domain, &new_key, &targets, "https://g-9.invalid"));
    // An active guardian's operator domain.
    assert!(!replacement_is_fresh(&descriptor, &[33u8; 32], &new_key, &targets, "https://g-9.invalid"));
    // An active guardian's session key.
    assert!(!replacement_is_fresh(&descriptor, &new_domain, &vec![25u8; 1216], &targets, "https://g-9.invalid"));
    // An owner target, compared without trailing slashes.
    assert!(!replacement_is_fresh(&descriptor, &new_domain, &new_key, &targets, "https://g-2.invalid"));
    assert!(!replacement_is_fresh(&descriptor, &new_domain, &new_key, &targets, "https://g-1.invalid//"));
}

#[test]
fn repair_helpers_are_the_first_threshold_kept_guardians() {
    let capsule = active();
    let descriptor = descriptor(&capsule);
    assert_eq!(repair_helpers(&descriptor, 4, 5), Ok(vec![1, 2, 3, 5, 6]));
    assert_eq!(repair_helpers(&descriptor, 1, 7), Ok(vec![2, 3, 4, 5, 6, 7, 8]));
    assert_eq!(repair_helpers(&descriptor, 4, 8), Err(PlanningError::NotEnoughRepairHelpers));
    // A guardian outside the roster leaves every guardian as a helper.
    assert_eq!(repair_helpers(&descriptor, 20, 8), Ok(vec![1, 2, 3, 4, 5, 6, 7, 8]));
}

#[test]
fn routes_are_found_by_guardian_index() {
    let capsule = active();
    let routes = descriptor_with(&capsule, &[5, 2, 9, 2]).guardians;
    assert_eq!(route_by_id(&routes, 2), Some(1));
    assert_eq!(route_by_id(&routes, 9), Some(2));
    assert_eq!(route_by_id(&routes, 4), None);
}

#[test]
fn routes_sort_by_guardian_index() {
    let capsule = active();
    let routes = descriptor_with(&capsule, &[5, 2, 9, 2, 1]).guardians;
    let sorted = sort_routes_by_index(routes);
    let indices: Vec<u16> = sorted.iter().map(|route| route.guardian_index).collect();
    assert_eq!(indices, vec![1, 2, 2, 5, 9]);
    assert!(sort_routes_by_index(Vec::new()).is_empty());
}

#[test]
fn successor_roster_refreshes_kept_guardians_and_adds_the_replacement() {
    let capsule = active();
    let descriptor = descriptor_with(&capsule, &[3, 1, 4, 2]);
    let fresh = fresh_routes(&descriptor);
    let roster = successor_roster(&descriptor, 4, &fresh, route(9));
    let indices: Vec<u16> = roster.iter().map(|route| route.guardian_index).collect();
    assert_eq!(indices, vec![1, 2, 3, 9]);
    for kept in &roster[..3] {
        let id = kept.guardian_index;
        assert_eq!(kept.opaque_slot_id, [(id + 40) as u8; 32]);
        assert_eq!(kept.mailbox, format!("https://relay.invalid/v3/mailboxes/new-{id}"));
        assert_eq!(kept.guardian_public_key, [(id + 10) as u8; 32]);
        assert_eq!(kept.session_recipient_key, vec![(id + 20) as u8; 1216]);
        assert_eq!(kept.operator_domain_commitment, [(id + 30) as u8; 32]);
        assert_eq!(kept.index_digest, [id as u8; 32]);
    }
    assert_eq!(roster[3].opaque_slot_id, [9; 32]);
    assert_eq!(roster[3].mailbox, "https://relay.invalid/v3/mailboxes/g-9");
}

#[test]
fn assembled_plan_is_accepted_until_the_context_expires() {
    let capsule = active();
    let descriptor = descriptor(&capsule);
    let replacement_index = added_guardian_index(&descriptor).unwrap();
    let fresh = fresh_routes(&descriptor);
    let new_roster = successor_roster(&descriptor, 4, &fresh, route(replacement_index));
    assert_eq!(new_roster.len(), 8);
    let context = rotation_context_v3(&capsule, [91; 32], vec![92; 1216], [93; 32], 1_000);
    let plan = assemble_rotation_plan(
        context,
        &capsule,
        descriptor.guardians.clone(),
        new_roster,
        descriptor.data_shards,
        [95; 32],
        [97; 32],
        [98; 32],
        [99; 32],
        [34; 32],
        [96; 32],
        true,
    )
    .unwrap();
    assert_eq!(plan.successor.guardian_epoch, 2);
    assert_eq!(plan.successor.epoch_binding, [95; 32]);
    assert_eq!(plan.successor.config_id, [1; 32]);
    assert_eq!(plan.total_shards, 8);
    assert_eq!(plan.data_shards, 5);
    assert_eq!(plan.drain_deadline, 8_210);
    assert_eq!(plan.preparation_deadline, 8_210 - PREPARATION_MARGIN_SECS);
    assert_eq!(plan.new_guardian_threshold, 5);
    assert_eq!(plan.dpss_qualified_set_commitment, [99; 32]);
    assert_eq!(plan.dpss_session_id, [34; 32]);
    assert_eq!(validate_rotation_plan_v3(&plan, &capsule, 1_000), Ok([96; 32]));
    assert_eq!(validate_rotation_plan_v3(&plan, &capsule, 8_209), Ok([96; 32]));
    assert!(validate_rotation_plan_v3(&plan, &capsule, 8_210).is_err());
    assert!(validate_rotation_plan_v3(&plan, &capsule, 999).is_err());
}

fn delivery(mailbox: &str, message: u8) -> DpssDeliveryV3 {
    DpssDeliveryV3 { target_mailbox: mailbox.to_string(), sealed_message: vec![message; 3] }
}

#[test]
fn actor_mailboxes_are_the_successor_mailboxes_in_order() {
    let capsule = active();
    let routes = descriptor_with(&capsule, &[3, 1, 9]).guardians;
    assert_eq!(
        rotation_actor_mailboxes(&routes),
        vec![
            "https://relay.invalid/v3/mailboxes/g-3".to_string(),
            "https://relay.invalid/v3/mailboxes/g-1".to_string(),
            "https://relay.invalid/v3/mailboxes/g-9".to_string(),
        ]
    );
    assert!(rotation_actor_mailboxes(&Vec::new()).is_empty());
}

#[test]
fn deliveries_queue_in_order_for_the_guardian_owning_the_mailbox() {
    let capsule = active();
    let routes = descriptor_with(&capsule, &[1, 2, 3]).guardians;
    let mut queues: BTreeMap<u16, Vec<Vec<u8>>> = BTreeMap::new();
    queues.insert(3, vec![vec![7; 3]]);
    let deliveries = vec![
        delivery("https://relay.invalid/v3/mailboxes/g-2", 1),
        delivery("https://relay.invalid/v3/mailboxes/g-3", 2),
        delivery("https://relay.invalid/v3/mailboxes/g-2", 3),
    ];
    assert_eq!(distribute(&mut queues, deliveries, &routes), Ok(()));
    assert_eq!(queues.len(), 2);
    assert_eq!(queues[&2], vec![vec![1; 3], vec![3; 3]]);
    assert_eq!(queues[&3], vec![vec![7; 3], vec![2; 3]]);
    assert!(!queues.contains_key(&1));
}

#[test]
fn delivery_outside_the_roster_stops_distribution() {
    let capsule = active();
    let routes = descriptor_with(&capsule, &[1, 2]).guardians;
    let mut queues: BTreeMap<u16, Vec<Vec<u8>>> = BTreeMap::new();
    let deliveries = vec![
        delivery("https://relay.invalid/v3/mailboxes/g-1", 1),
        delivery("https://relay.invalid/v3/mailboxes/g-9", 2),
        delivery("https://relay.invalid/v3/mailboxes/g-2", 3),
    ];
    assert_eq!(
        distribute(&mut queues, deliveries, &routes),
        Err(CoordinatorError::DeliveryOutsideRoster)
    );
    assert_eq!(queues.len(), 1);
    assert_eq!(queues[&1], vec![vec![1; 3]]);
}
