use gp_network::epoch::EpochError;
use gp_network::guardian_rotation::GuardianRotationEntryV3;
use gp_network::mailbox_v2::GuardianEntry;
use gp_network::model::{ConfigCapsuleV3, ConfigRef, RecoveryCardV3, WitnessPin, PROTOCOL_VERSION_V3};
use gp_network::protocol_v2::GuardianPolicy;
use gp_network::provisioning::{
    provision_authorized, provision_entry, provision_guardian, provision_guardian_rotation,
    provision_signer_rotation, register_rotation_alias, resolve_rotation_mailbox, GuardianProvision,
    GuardianRotationProvisionV3, GuardianRouteAliasV3, MailboxStore, ProvisionError,
    SignerRotationProvisionV3, PRODUCTION_MIN_DELAY_SECS,
};
use gp_network::signer_rotation::SignerRotationStateV3;

const OPAQUE_A: &str = "0123456789abcdef0123456789abcdef";
const OPAQUE_B: &str = "fedcba9876543210fedcba9876543210";
const OPAQUE_C: &str = "00112233445566778899aabbccddeeff";

fn url(id: &str) -> String {
    format!("https://relay.invalid/v3/mailboxes/{id}")
}

fn config_ref() -> ConfigRef {
    ConfigRef {
        config_id: [1; 32],
        payload_generation: 1,
        authorization_epoch: 1,
        guardian_epoch: 1,
        epoch_binding: [2; 32],
    }
}

fn genesis() -> ConfigCapsuleV3 {
    ConfigCapsuleV3 {
        protocol_version: PROTOCOL_VERSION_V3,
        config_ref: config_ref(),
        capsule_hash: [3; 32],
        predecessor_capsule_hash: [0; 32],
        signer_count: 3,
        signer_threshold: 2,
        guardian_count: 8,
        guardian_threshold: 5,
        minimum_recovery_delay: PRODUCTION_MIN_DELAY_SECS,
        max_request_lifetime: 100,
        signer_set_commitment: [77; 32],
        owner_cancel_public_key: [4; 32],
        dpss_suite: 0,
        dpss_public_commitment: [5; 32],
        guardian_material_root: [6; 32],
        body_hash: [3; 32],
        activation_certificate: None,
        activation_qc: None,
    }
}

fn card() -> RecoveryCardV3 {
    RecoveryCardV3 {
        protocol_version: PROTOCOL_VERSION_V3,
        config_id: [1; 32],
        signer_mailboxes: vec!["opaque-signer".into()],
        signer_set_commitment: [77; 32],
        owner_cancel_public_key: [4; 32],
        witness_fault_bound: 1,
        witnesses: (0..4u16)
            .map(|offset| WitnessPin {
                witness_id: offset + 1,
                mailbox: format!("https://witness-{offset}.invalid"),
                public_key: [21 + offset as u8; 32],
            })
            .collect(),
        relay_bases: vec!["https://relay.invalid".into()],
    }
}

fn v2_policy(delay: u64) -> GuardianPolicy {
    GuardianPolicy {
        config_id: [1; 32],
        config_version: 1,
        signer_set_commitment: [2; 32],
        signer_count: 3,
        signer_threshold: 2,
        owner_cancel_public_key: [33; 32],
        minimum_recovery_delay: delay,
    }
}

fn guardian_provision() -> GuardianRotationProvisionV3 {
    GuardianRotationProvisionV3 {
        signing_public_key: [50; 32],
        signing_key_matches_seed: true,
        recovery_card: card(),
        predecessor_capsule: genesis(),
        signer_pin_ids: vec![1, 2, 3],
        epoch_store_config_id: [1; 32],
        expected_predecessor: config_ref(),
        expected_predecessor_capsule_hash: [3; 32],
        active_guardian_index: Some(4),
    }
}

fn signer_provision() -> SignerRotationProvisionV3 {
    SignerRotationProvisionV3 {
        signer_id: 2,
        signing_public_key: [12; 32],
        signing_key_matches_seed: true,
        membership_verified: true,
        recovery_card: card(),
        active_capsule: genesis(),
    }
}

#[test]
fn provisioning_needs_the_configured_admin_token() {
    let token = "secret-token".to_string();
    assert!(provision_authorized(&token, &Some(token.clone())));
    assert!(!provision_authorized(&token, &Some("other".into())));
    assert!(!provision_authorized(&token, &None));
    // an empty admin token disables provisioning altogether
    assert!(!provision_authorized(&String::new(), &Some(String::new())));
}

#[test]
fn each_opaque_mailbox_is_provisioned_once() {
    let mut store: MailboxStore<u8> = MailboxStore { entries: vec![] };
    assert_eq!(provision_entry(&mut store, &url(OPAQUE_A), 1), Ok(OPAQUE_A.to_string()));
    assert_eq!(provision_entry(&mut store, &format!("{}//", url(OPAQUE_A)), 2), Err(ProvisionError::AlreadyProvisioned));
    assert_eq!(provision_entry(&mut store, "https://relay.invalid/v3/mailboxes/short", 3), Err(ProvisionError::InvalidMailbox));
    assert_eq!(provision_entry(&mut store, &url(OPAQUE_B), 4), Ok(OPAQUE_B.to_string()));
    assert_eq!(store.entries, vec![(OPAQUE_A.to_string(), 1), (OPAQUE_B.to_string(), 4)]);
}

#[test]
fn guardian_refuses_a_short_delay_outside_demo_mode() {
    let mut store: MailboxStore<GuardianEntry> = MailboxStore { entries: vec![] };
    let short = GuardianProvision { guardian_id: 3, policy: v2_policy(PRODUCTION_MIN_DELAY_SECS - 1) };
    assert_eq!(
        provision_guardian(&mut store, &url(OPAQUE_A), short, false),
        Err(ProvisionError::DelayBelowProduction)
    );
    assert!(store.entries.is_empty());
    assert_eq!(provision_guardian(&mut store, &url(OPAQUE_A), short, true), Ok(OPAQUE_A.to_string()));
    let day = GuardianProvision { guardian_id: 4, policy: v2_policy(PRODUCTION_MIN_DELAY_SECS) };
    assert_eq!(provision_guardian(&mut store, &url(OPAQUE_B), day, false), Ok(OPAQUE_B.to_string()));
    assert_eq!(provision_guardian(&mut store, &url(OPAQUE_B), day, false), Err(ProvisionError::AlreadyProvisioned));
    assert_eq!(store.entries.len(), 2);
    assert_eq!(store.entries[1].1.guardian_index, 4);
    assert!(store.entries[1].1.pending.is_empty());
}

#[test]
fn v3_guardian_provision_binds_the_predecessor_and_identity() {
    let mut store: MailboxStore<GuardianRotationEntryV3> = MailboxStore { entries: vec![] };
    let transport = vec![9u8; 1216];
    let mut wrong_card = guardian_provision();
    wrong_card.recovery_card.config_id = [7; 32];
    assert_eq!(
        provision_guardian_rotation(&mut store, &url(OPAQUE_A), wrong_card, transport.clone(), false),
        Err(ProvisionError::Capsule(EpochError::CapsuleMismatch))
    );
    let mut foreign_key = guardian_provision();
    foreign_key.signing_key_matches_seed = false;
    assert_eq!(
        provision_guardian_rotation(&mut store, &url(OPAQUE_A), foreign_key, transport.clone(), false),
        Err(ProvisionError::NotBound)
    );
    let mut other_store = guardian_provision();
    other_store.expected_predecessor_capsule_hash = [8; 32];
    assert_eq!(
        provision_guardian_rotation(&mut store, &url(OPAQUE_A), other_store, transport.clone(), false),
        Err(ProvisionError::NotBound)
    );
    let mut pin = guardian_provision();
    pin.signer_pin_ids = vec![1, 4];
    assert_eq!(
        provision_guardian_rotation(&mut store, &url(OPAQUE_A), pin, transport.clone(), false),
        Err(ProvisionError::SignerPinOutOfRange)
    );
    let mut demo = guardian_provision();
    demo.predecessor_capsule.minimum_recovery_delay = 10;
    assert_eq!(
        provision_guardian_rotation(&mut store, &url(OPAQUE_A), demo.clone(), transport.clone(), false),
        Err(ProvisionError::DelayBelowProduction)
    );
    assert!(store.entries.is_empty());
    assert_eq!(
        provision_guardian_rotation(&mut store, &url(OPAQUE_B), demo, transport.clone(), true),
        Ok(OPAQUE_B.to_string())
    );
    assert_eq!(
        provision_guardian_rotation(&mut store, &url(OPAQUE_A), guardian_provision(), transport.clone(), false),
        Ok(OPAQUE_A.to_string())
    );
    let entry = &store.entries[1].1;
    assert_eq!(entry.active_guardian_index, Some(4));
    assert_eq!(entry.signing_public_key, [50; 32]);
    assert_eq!(entry.transport_public_key, transport);
    assert!(entry.sessions.is_empty() && entry.tombstones.is_empty());
    assert_eq!(
        provision_guardian_rotation(&mut store, &url(OPAQUE_A), guardian_provision(), transport, false),
        Err(ProvisionError::AlreadyProvisioned)
    );
}

#[test]
fn v3_signer_provision_needs_a_proven_member_identity() {
    let mut store: MailboxStore<SignerRotationStateV3> = MailboxStore { entries: vec![] };
    let mut zero = signer_provision();
    zero.signer_id = 0;
    assert_eq!(provision_signer_rotation(&mut store, &url(OPAQUE_A), zero), Err(ProvisionError::InvalidSignerIdentity));
    let mut outside = signer_provision();
    outside.signer_id = 4;
    assert_eq!(
        provision_signer_rotation(&mut store, &url(OPAQUE_A), outside),
        Err(ProvisionError::InvalidSignerIdentity)
    );
    let mut unproven = signer_provision();
    unproven.membership_verified = false;
    assert_eq!(
        provision_signer_rotation(&mut store, &url(OPAQUE_A), unproven),
        Err(ProvisionError::MembershipNotProven)
    );
    assert_eq!(provision_signer_rotation(&mut store, &url(OPAQUE_A), signer_provision()), Ok(OPAQUE_A.to_string()));
    let entry = &store.entries[0].1;
    assert_eq!(entry.signer_id, 2);
    assert!(entry.begin_votes.is_empty() && entry.intents.is_empty());
}

#[test]
fn aliases_lead_straight_to_a_provisioned_guardian() {
    let mut store: MailboxStore<u8> = MailboxStore { entries: vec![] };
    assert!(provision_entry(&mut store, &url(OPAQUE_A), 1).is_ok());
    let mut aliases: Vec<(String, String)> = vec![];
    let alias = |mailbox: &str, existing: &str| GuardianRouteAliasV3 {
        mailbox: mailbox.to_string(),
        existing_mailbox: existing.to_string(),
    };
    assert_eq!(register_rotation_alias(&mut aliases, &store, alias("short", OPAQUE_A)), Err(ProvisionError::InvalidAlias));
    assert_eq!(
        register_rotation_alias(&mut aliases, &store, alias(OPAQUE_B, OPAQUE_C)),
        Err(ProvisionError::AliasConflict)
    );
    assert_eq!(register_rotation_alias(&mut aliases, &store, alias(OPAQUE_B, OPAQUE_A)), Ok(OPAQUE_B.to_string()));
    // an alias of an alias leads to the provisioned entry itself
    assert_eq!(register_rotation_alias(&mut aliases, &store, alias(OPAQUE_C, OPAQUE_B)), Ok(OPAQUE_C.to_string()));
    assert_eq!(aliases[1], (OPAQUE_C.to_string(), OPAQUE_A.to_string()));
    // taken names are refused
    assert_eq!(
        register_rotation_alias(&mut aliases, &store, alias(OPAQUE_B, OPAQUE_A)),
        Err(ProvisionError::AliasConflict)
    );
    assert_eq!(
        register_rotation_alias(&mut aliases, &store, alias(OPAQUE_A, OPAQUE_B)),
        Err(ProvisionError::AliasConflict)
    );
    assert_eq!(resolve_rotation_mailbox(&aliases, &OPAQUE_C.to_string()), OPAQUE_A);
    assert_eq!(resolve_rotation_mailbox(&aliases, &OPAQUE_A.to_string()), OPAQUE_A);
    assert_eq!(resolve_rotation_mailbox(&aliases, &"unknown".to_string()), "unknown");
}
