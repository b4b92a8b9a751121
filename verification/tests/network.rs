use gp_network::epoch::{select_latest_epoch_v3, validate_activated_capsule_v3, EpochError};
use gp_network::model::{
    ConfigCapsuleV3, ConfigRef, EpochActivationQc, EpochReadChallenge, RecoveryCardV3,
    RotationActivateCertificate, RotationContext, SignerActivateVote, WitnessActivationAck,
    WitnessEpochReadResponse, WitnessPin, WitnessReadEnvelope, PROTOCOL_VERSION_V3,
};
use gp_network::quorum::required_cancel_acks;
use gp_network::recovery::{
    handle_signer_recovery_v3, RecoveryError, RecoveryRequestV3, SignerRecoveryDecisionV3,
    SignerRecoveryRequestV3, SignerRecoveryStateV3,
};
use gp_network::rotation::{
    validate_abort_rotation_certificate_v3, validate_rotation_plan_against_intent_v3,
    AbortRotationCertificate, GuardianRouteV3, RotationError, RotationIntent, RotationPlan,
    RotationState, SignerAbortVote,
};
use gp_network::text::mailbox_replicas;
use gp_network::node::{node_info_v3, NodeRole, SetupV3Options};
use gp_network::setup::SetupError;
use gp_network::recovery_client::{start_recovery_from_read_v3, RecoveryActionV3, RecoveryPhaseV3};
use gp_network::setup_run::{setup_v3_step, start_setup_v3, SetupV3Action, SetupV3Event, SetupV3Phase, SetupV3RunError};

#[test]
fn hard_cancel_requires_enough_tombstones_to_break_recovery_quorum() {
    assert_eq!(required_cancel_acks(8, 5).unwrap(), 4);
    assert_eq!(required_cancel_acks(3, 2).unwrap(), 2);
    assert_eq!(required_cancel_acks(8, 1).unwrap(), 8);
    assert!(required_cancel_acks(8, 0).is_err());
    assert!(required_cancel_acks(3, 4).is_err());
}

#[test]
fn relay_failover_preserves_the_opaque_mailbox_id_without_duplicates() {
    let mailbox = "http://relay-1/v1/mailboxes/0123456789abcdef0123456789abcdef";
    assert_eq!(
        mailbox_replicas(
            mailbox,
            &[
                "http://relay-1".into(),
                "http://relay-2/".into(),
                "http://relay-2".into(),
            ],
        ),
        vec![
            mailbox.to_string(),
            "http://relay-2/v1/mailboxes/0123456789abcdef0123456789abcdef".to_string(),
        ]
    );
}

struct Fixture {
    card: RecoveryCardV3,
    challenge: EpochReadChallenge,
    genesis: ConfigCapsuleV3,
}

fn capsule(config_ref: ConfigRef, predecessor: [u8; 32], marker: u8) -> ConfigCapsuleV3 {
    ConfigCapsuleV3 {
        protocol_version: PROTOCOL_VERSION_V3,
        config_ref,
        capsule_hash: [0; 32],
        predecessor_capsule_hash: predecessor,
        signer_count: 3,
        signer_threshold: 2,
        guardian_count: 8,
        guardian_threshold: 5,
        minimum_recovery_delay: 10,
        max_request_lifetime: 100,
        signer_set_commitment: [0; 32],
        owner_cancel_public_key: [4; 32],
        dpss_suite: 0,
        dpss_public_commitment: [marker; 32],
        guardian_material_root: [marker.wrapping_add(1); 32],
        body_hash: [0; 32],
        activation_certificate: None,
        activation_qc: None,
    }
}

/// Stands in for the SHA-256 of a capsule body: distinct bodies in these
/// fixtures get distinct digests.
fn body_digest(capsule: &ConfigCapsuleV3) -> [u8; 32] {
    let mut digest = [0u8; 32];
    digest[0] = capsule.config_ref.guardian_epoch as u8;
    digest[1] = capsule.config_ref.epoch_binding[0];
    digest[2] = capsule.dpss_public_commitment[0];
    digest[3] = 0xC5;
    digest
}

fn seal(mut capsule: ConfigCapsuleV3) -> ConfigCapsuleV3 {
    capsule.body_hash = body_digest(&capsule);
    capsule.capsule_hash = capsule.body_hash;
    capsule
}

fn fixture() -> Fixture {
    let config_ref = ConfigRef {
        config_id: [1; 32],
        payload_generation: 1,
        authorization_epoch: 1,
        guardian_epoch: 1,
        epoch_binding: [2; 32],
    };
    let mut genesis = capsule(config_ref, [0; 32], 5);
    genesis.signer_set_commitment = [77; 32];
    let genesis = seal(genesis);
    let witnesses = (0..4u16)
        .map(|offset| WitnessPin {
            witness_id: offset + 1,
            mailbox: format!("https://witness-{offset}.invalid"),
            public_key: [21 + offset as u8; 32],
        })
        .collect();
    let card = RecoveryCardV3 {
        protocol_version: PROTOCOL_VERSION_V3,
        config_id: config_ref.config_id,
        signer_mailboxes: vec!["opaque-signer".into()],
        signer_set_commitment: [77; 32],
        owner_cancel_public_key: genesis.owner_cancel_public_key,
        witness_fault_bound: 1,
        witnesses,
        relay_bases: vec!["https://relay.invalid".into()],
    };
    let challenge = EpochReadChallenge {
        protocol_version: PROTOCOL_VERSION_V3,
        config_id: config_ref.config_id,
        client_nonce: [31; 32],
        response_recipient_key: vec![32; 1216],
        issued_at: 1,
        expiry: 100,
        canonical: true,
    };
    Fixture { card, challenge, genesis }
}

fn rotation_context(fixture: &Fixture, marker: u8) -> RotationContext {
    RotationContext {
        protocol_version: PROTOCOL_VERSION_V3,
        config_ref: fixture.genesis.config_ref,
        rotation_id: [marker.wrapping_add(40); 32],
        predecessor_capsule_hash: fixture.genesis.capsule_hash,
        recipient_key: vec![marker; 1216],
        nonce: [marker.wrapping_add(1); 32],
        issued_at: 1,
        expiry: 100,
    }
}

fn successor(fixture: &Fixture, marker: u8) -> ConfigCapsuleV3 {
    let mut successor_ref = fixture.genesis.config_ref;
    successor_ref.guardian_epoch = 2;
    successor_ref.epoch_binding = [marker; 32];
    let mut successor = capsule(successor_ref, fixture.genesis.capsule_hash, marker.wrapping_add(20));
    successor.signer_set_commitment = fixture.card.signer_set_commitment;
    let mut successor = seal(successor);
    let context = rotation_context(fixture, marker);
    let votes = (0..2u16)
        .map(|offset| SignerActivateVote {
            signer_id: offset + 1,
            signer_public_key: [11 + offset as u8; 32],
            membership_verified: true,
            signature_verified: true,
        })
        .collect();
    let certificate_hash = [marker.wrapping_add(4); 32];
    let certificate = RotationActivateCertificate {
        context: context.clone(),
        plan_hash: [marker.wrapping_add(2); 32],
        ready_certificate_hash: [marker.wrapping_add(3); 32],
        successor: successor.config_ref,
        successor_capsule_hash: successor.capsule_hash,
        votes,
        transcript_hash: certificate_hash,
    };
    let acks = (0..3u16)
        .map(|offset| WitnessActivationAck {
            context: context.clone(),
            plan_hash: certificate.plan_hash,
            activation_certificate_hash: certificate_hash,
            witness_id: offset + 1,
            predecessor_epoch: 1,
            predecessor_capsule_hash: fixture.genesis.capsule_hash,
            successor_epoch: 2,
            successor_capsule_hash: successor.capsule_hash,
            witness_public_key: [21 + offset as u8; 32],
            witness_signature: vec![offset as u8; 64],
            signature_verified: true,
        })
        .collect();
    successor.activation_certificate = Some(certificate);
    successor.activation_qc = Some(EpochActivationQc {
        protocol_version: PROTOCOL_VERSION_V3,
        config_id: fixture.card.config_id,
        rotation_id: context.rotation_id,
        predecessor_epoch: 1,
        predecessor_capsule_hash: fixture.genesis.capsule_hash,
        successor_epoch: 2,
        successor_capsule_hash: successor.capsule_hash,
        activation_certificate_hash: certificate_hash,
        witness_fault_bound: 1,
        witness_acks: acks,
        canonical: true,
    });
    successor
}

fn read(fixture: &Fixture, witness_offset: usize, capsule: ConfigCapsuleV3) -> WitnessReadEnvelope {
    WitnessReadEnvelope {
        response: WitnessEpochReadResponse {
            protocol_version: PROTOCOL_VERSION_V3,
            config_id: fixture.card.config_id,
            client_nonce: fixture.challenge.client_nonce,
            witness_id: witness_offset as u16 + 1,
            highest_guardian_epoch: capsule.config_ref.guardian_epoch,
            capsule_hash: capsule.capsule_hash,
            witness_public_key: [21 + witness_offset as u8; 32],
            canonical: true,
            signature_verified: true,
        },
        capsule,
    }
}

fn route(index: u16, slot: u8, mailbox: String, key: u8, session: u8, domain: u8) -> GuardianRouteV3 {
    GuardianRouteV3 {
        guardian_index: index,
        guardian_public_key: [key; 32],
        session_recipient_key: vec![session; 1216],
        operator_domain_commitment: [domain; 32],
        opaque_slot_id: [slot; 32],
        mailbox,
        index_digest: index_digest(index),
    }
}

/// Stands in for the SHA-256 of a big-endian guardian index.
fn index_digest(index: u16) -> [u8; 32] {
    let mut digest = [0xD1u8; 32];
    digest[0] = (index >> 8) as u8;
    digest[1] = index as u8;
    digest
}

fn rotation_plan_and_intent(fixture: &Fixture) -> (RotationPlan, RotationIntent) {
    let context = RotationContext {
        protocol_version: PROTOCOL_VERSION_V3,
        config_ref: fixture.genesis.config_ref,
        rotation_id: [91; 32],
        predecessor_capsule_hash: fixture.genesis.capsule_hash,
        recipient_key: vec![92; 1216],
        nonce: [93; 32],
        issued_at: 1,
        expiry: 100,
    };
    let old_roster = (1u16..=8)
        .map(|id| {
            route(
                id,
                id as u8,
                format!("https://relay.invalid/v3/mailboxes/old-{id}"),
                (id + 10) as u8,
                (id + 20) as u8,
                (id + 30) as u8,
            )
        })
        .collect::<Vec<_>>();
    let mut new_roster = old_roster
        .iter()
        .filter(|old| old.guardian_index != 4)
        .map(|old| {
            let mut new = old.clone();
            new.opaque_slot_id = [(old.guardian_index + 40) as u8; 32];
            new.mailbox = format!("https://relay.invalid/v3/mailboxes/new-{}", old.guardian_index);
            new
        })
        .collect::<Vec<_>>();
    new_roster.push(route(9, 99, "https://relay.invalid/v3/mailboxes/new-9".into(), 109, 119, 129));
    let intent = RotationIntent {
        context: context.clone(),
        reason: 0,
        old_guardian_count: 8,
        old_guardian_threshold: 5,
        allowed_new_guardian_count: vec![8],
        allowed_new_guardian_threshold: vec![5],
        allowed_dpss_suites: vec![0],
        selection_constraints_commitment: index_digest(4),
        witness_read_qc_hash: [94; 32],
        transcript_hash: [97; 32],
    };
    let old_roster_commitment = [98; 32];
    let new_roster_commitment = [99; 32];
    let plan = RotationPlan {
        context,
        predecessor: fixture.genesis.config_ref,
        successor: ConfigRef {
            guardian_epoch: 2,
            epoch_binding: [95; 32],
            ..fixture.genesis.config_ref
        },
        intent_hash: intent.transcript_hash,
        preparation_deadline: 80,
        drain_deadline: 90,
        minimum_delay_secs: 10,
        old_guardian_threshold: 5,
        data_shards: 5,
        total_shards: 8,
        old_roster,
        new_roster,
        new_guardian_threshold: 5,
        old_roster_commitment,
        new_roster_commitment,
        dpss_suite: 0,
        dpss_qualified_set_commitment: new_roster_commitment,
        dpss_session_id: [34; 32],
        old_roster_digest: old_roster_commitment,
        new_roster_digest: new_roster_commitment,
        transcript_hash: [96; 32],
        canonical: true,
    };
    (plan, intent)
}

#[test]
fn signer_intent_constraints_bind_exact_replacement_and_successor_policy() {
    let fixture = fixture();
    let (plan, intent) = rotation_plan_and_intent(&fixture);
    assert!(validate_rotation_plan_against_intent_v3(&plan, &intent, &fixture.genesis, 10).is_ok());

    let mut weakened = plan.clone();
    weakened.new_guardian_threshold = 2;
    assert!(validate_rotation_plan_against_intent_v3(&weakened, &intent, &fixture.genesis, 10).is_err());

    let mut substituted = plan;
    substituted.new_roster[0].guardian_public_key = [222; 32];
    substituted.new_roster_commitment = [223; 32];
    substituted.new_roster_digest = substituted.new_roster_commitment;
    substituted.dpss_qualified_set_commitment = substituted.new_roster_commitment;
    assert!(validate_rotation_plan_against_intent_v3(&substituted, &intent, &fixture.genesis, 10).is_err());
}

#[test]
fn threshold_abort_remains_valid_after_preparation_deadline() {
    let fixture = fixture();
    let (plan, _) = rotation_plan_and_intent(&fixture);
    let plan_hash = plan.transcript_hash;
    let votes = (0..2u16)
        .map(|offset| SignerAbortVote {
            context: plan.context.clone(),
            plan_hash,
            state_at_abort: RotationState::Preparing,
            reason_code: 7,
            signer_id: offset + 1,
            signer_public_key: [11 + offset as u8; 32],
            membership_verified: true,
            signature_verified: true,
        })
        .collect();
    let certificate = AbortRotationCertificate {
        context: plan.context.clone(),
        plan_hash,
        state_at_abort: RotationState::Preparing,
        reason_code: 7,
        votes,
        transcript_hash: [86; 32],
        canonical: true,
    };
    assert!(validate_abort_rotation_certificate_v3(&certificate, &plan, &fixture.genesis, 85).is_ok());
}

#[test]
fn fresh_quorum_selects_qc_proven_highest_despite_stale_and_invented_responses() {
    let fixture = fixture();
    let active = successor(&fixture, 50);
    let mut invented = active.clone();
    invented.config_ref.guardian_epoch = 99;
    invented.config_ref.epoch_binding = [99; 32];
    invented.body_hash = body_digest(&invented);
    invented.capsule_hash = invented.body_hash;
    // Its old activation QC no longer binds the mutated body, so it is rejected.
    let reads = vec![
        read(&fixture, 0, active.clone()),
        read(&fixture, 1, fixture.genesis.clone()),
        read(&fixture, 2, fixture.genesis.clone()),
        read(&fixture, 3, invented),
    ];
    let selected = select_latest_epoch_v3(&fixture.card, &fixture.challenge, &reads).unwrap();
    assert_eq!(selected.capsule_hash, active.capsule_hash);
}

#[test]
fn same_epoch_valid_fork_fails_closed() {
    let fixture = fixture();
    let first = successor(&fixture, 60);
    let second = successor(&fixture, 61);
    let reads = vec![
        read(&fixture, 0, first),
        read(&fixture, 1, second),
        read(&fixture, 2, fixture.genesis.clone()),
    ];
    assert!(select_latest_epoch_v3(&fixture.card, &fixture.challenge, &reads).is_err());
}

#[test]
fn duplicate_or_insufficient_witnesses_do_not_form_a_read_quorum() {
    let fixture = fixture();
    let reads = vec![
        read(&fixture, 0, fixture.genesis.clone()),
        read(&fixture, 0, fixture.genesis.clone()),
        read(&fixture, 1, fixture.genesis.clone()),
    ];
    assert!(select_latest_epoch_v3(&fixture.card, &fixture.challenge, &reads).is_err());
}

fn signer_fixture() -> (SignerRecoveryStateV3, RecoveryRequestV3, EpochReadChallenge, Vec<WitnessReadEnvelope>) {
    let config_ref = ConfigRef {
        config_id: [4; 32],
        payload_generation: 1,
        authorization_epoch: 1,
        guardian_epoch: 1,
        epoch_binding: [5; 32],
    };
    let mut genesis = capsule(config_ref, [0; 32], 7);
    genesis.signer_set_commitment = [3; 32];
    genesis.owner_cancel_public_key = [6; 32];
    genesis.guardian_count = 3;
    genesis.guardian_threshold = 2;
    let genesis = seal(genesis);
    let witnesses = (0..4u16)
        .map(|offset| WitnessPin {
            witness_id: offset + 1,
            mailbox: format!("https://witness-{offset}.invalid"),
            public_key: [11 + offset as u8; 32],
        })
        .collect();
    let card = RecoveryCardV3 {
        protocol_version: PROTOCOL_VERSION_V3,
        config_id: config_ref.config_id,
        signer_mailboxes: vec!["opaque-signer-mailbox-0123456789abcdef".into()],
        signer_set_commitment: [3; 32],
        owner_cancel_public_key: [6; 32],
        witness_fault_bound: 1,
        witnesses,
        relay_bases: vec!["https://relay.invalid".into()],
    };
    let recipient = vec![15u8; 1216];
    let challenge = EpochReadChallenge {
        protocol_version: PROTOCOL_VERSION_V3,
        config_id: config_ref.config_id,
        client_nonce: [16; 32],
        response_recipient_key: recipient.clone(),
        issued_at: 20,
        expiry: 40,
        canonical: true,
    };
    let reads = (0..4u16)
        .map(|offset| WitnessReadEnvelope {
            response: WitnessEpochReadResponse {
                protocol_version: PROTOCOL_VERSION_V3,
                config_id: config_ref.config_id,
                client_nonce: challenge.client_nonce,
                witness_id: offset + 1,
                highest_guardian_epoch: 1,
                capsule_hash: genesis.capsule_hash,
                witness_public_key: [11 + offset as u8; 32],
                canonical: true,
                signature_verified: true,
            },
            capsule: genesis.clone(),
        })
        .collect();
    let state = SignerRecoveryStateV3 {
        signer_id: 1,
        recovery_card: card,
        active_capsule: genesis,
        recovery_requests: vec![],
        recovery_nonces: vec![],
    };
    let request = RecoveryRequestV3 {
        protocol_version: PROTOCOL_VERSION_V3,
        config_ref,
        request_id: [18; 32],
        recovery_recipient_key: recipient,
        requested_at: 20,
        nonce: [19; 32],
        expiry: 80,
        digest: [0xAB; 32],
    };
    (state, request, challenge, reads)
}

#[test]
fn signer_uses_fresh_witness_epoch_and_binds_share_and_release_to_recipient() {
    let (mut state, request, challenge, reads) = signer_fixture();
    let approved = handle_signer_recovery_v3(
        &mut state,
        SignerRecoveryRequestV3::Approve {
            request: request.clone(),
            witness_challenge: challenge.clone(),
            witness_reads: reads.clone(),
        },
        21,
    )
    .unwrap();
    assert!(matches!(approved, SignerRecoveryDecisionV3::Approved { request_digest } if request_digest == request.digest));
    let vote = handle_signer_recovery_v3(
        &mut state,
        SignerRecoveryRequestV3::Release { request: request.clone() },
        22,
    )
    .unwrap();
    assert!(matches!(vote, SignerRecoveryDecisionV3::ReleaseVote { request_digest } if request_digest == request.digest));
    let mut conflicting = request;
    conflicting.nonce = [20; 32];
    conflicting.digest = [0xAC; 32];
    assert!(handle_signer_recovery_v3(
        &mut state,
        SignerRecoveryRequestV3::Approve {
            request: conflicting,
            witness_challenge: challenge,
            witness_reads: reads,
        },
        23,
    )
    .is_err());
}

#[test]
fn signer_refuses_a_challenge_bound_to_another_recipient() {
    let (mut state, request, mut challenge, reads) = signer_fixture();
    challenge.response_recipient_key = vec![16u8; 1216];
    let answer = handle_signer_recovery_v3(
        &mut state,
        SignerRecoveryRequestV3::Approve { request, witness_challenge: challenge, witness_reads: reads },
        21,
    );
    assert_eq!(answer.unwrap_err(), RecoveryError::StaleWitnessChallenge);
    assert!(state.recovery_requests.is_empty());
}

#[test]
fn signer_refuses_release_it_never_approved() {
    let (mut state, request, _, _) = signer_fixture();
    let answer = handle_signer_recovery_v3(&mut state, SignerRecoveryRequestV3::Release { request }, 22);
    assert_eq!(answer.unwrap_err(), RecoveryError::NotApproved);
}

#[test]
fn signer_reports_a_missing_read_quorum() {
    let (mut state, request, challenge, reads) = signer_fixture();
    let answer = handle_signer_recovery_v3(
        &mut state,
        SignerRecoveryRequestV3::Approve {
            request,
            witness_challenge: challenge,
            witness_reads: reads[..2].to_vec(),
        },
        21,
    );
    assert_eq!(answer.unwrap_err(), RecoveryError::WitnessRead(EpochError::NoReadQuorum));
}

#[test]
fn activated_successor_needs_its_certificate_and_quorum_certificate() {
    let fixture = fixture();
    let active = successor(&fixture, 50);
    assert!(validate_activated_capsule_v3(&fixture.card, &active).is_ok());
    assert!(validate_activated_capsule_v3(&fixture.card, &fixture.genesis).is_ok());
    let mut missing_qc = active.clone();
    missing_qc.activation_qc = None;
    assert_eq!(validate_activated_capsule_v3(&fixture.card, &missing_qc), Err(EpochError::MissingQc));
    let mut thin_qc = active;
    if let Some(qc) = thin_qc.activation_qc.as_mut() {
        qc.witness_acks.truncate(2);
    }
    assert_eq!(
        validate_activated_capsule_v3(&fixture.card, &thin_qc),
        Err(EpochError::WitnessQuorumNotReached)
    );
}

#[test]
fn plan_that_replaces_another_guardian_than_the_intent_is_refused() {
    let fixture = fixture();
    let (plan, mut intent) = rotation_plan_and_intent(&fixture);
    intent.selection_constraints_commitment = index_digest(5);
    assert_eq!(
        validate_rotation_plan_against_intent_v3(&plan, &intent, &fixture.genesis, 10),
        Err(RotationError::ReplacementViolation)
    );
}

fn setup_options() -> SetupV3Options {
    SetupV3Options {
        secret: b"secret".to_vec(),
        relays: vec!["https://relay.invalid".into(), "https://relay-2.invalid".into()],
        relay_token: "relay".into(),
        admin_token: "admin".into(),
        signers: (1..=2).map(|i| format!("https://signer-{i}.invalid")).collect(),
        guardians: (1..=2).map(|i| format!("https://guardian-{i}.invalid/")).collect(),
        witnesses: (1..=4).map(|i| format!("https://witness-{i}.invalid")).collect(),
        signer_threshold: 2,
        guardian_threshold: 2,
        witness_fault_bound: 1,
        delay_secs: 10,
        card_path: "card.json".into(),
        owner_control_path: "owner.json".into(),
    }
}

#[test]
fn setup_checks_options_and_nodes_before_provisioning_in_order() {
    let mut bad = setup_options();
    bad.relays.clear();
    let (refused, first) = start_setup_v3(bad);
    assert_eq!(first, Err(SetupV3RunError::Setup(SetupError::InvalidThresholds)));
    assert_eq!(refused.phase, SetupV3Phase::Failed);

    let (mut setup, first) = start_setup_v3(setup_options());
    assert_eq!(first, Ok(SetupV3Action::FetchInfo { role: NodeRole::Signer, index: 0 }));
    let info = |id: &str, role: NodeRole, n: u8| node_info_v3(&id.to_string(), role, vec![n; 1216], [n; 32]);
    let mut expected = vec![
        SetupV3Action::FetchInfo { role: NodeRole::Signer, index: 1 },
        SetupV3Action::FetchInfo { role: NodeRole::Guardian, index: 0 },
        SetupV3Action::FetchInfo { role: NodeRole::Guardian, index: 1 },
        SetupV3Action::FetchInfo { role: NodeRole::Witness, index: 0 },
        SetupV3Action::FetchInfo { role: NodeRole::Witness, index: 1 },
        SetupV3Action::FetchInfo { role: NodeRole::Witness, index: 2 },
        SetupV3Action::FetchInfo { role: NodeRole::Witness, index: 3 },
        SetupV3Action::Build,
    ]
    .into_iter();
    let nodes = [
        ("s-1", NodeRole::Signer),
        ("s-2", NodeRole::Signer),
        ("g-1", NodeRole::Guardian),
        ("g-2", NodeRole::Guardian),
        ("w-1", NodeRole::Witness),
        ("w-2", NodeRole::Witness),
        ("w-3", NodeRole::Witness),
        ("w-4", NodeRole::Witness),
    ];
    let mut duplicate = setup.clone();
    assert_eq!(
        setup_v3_step(&mut duplicate, SetupV3Event::NodeInfoFetched(info("s-1", NodeRole::Guardian, 1))),
        Err(SetupV3RunError::Setup(SetupError::MalformedNode))
    );
    for (n, (id, role)) in nodes.into_iter().enumerate() {
        assert_eq!(
            setup_v3_step(&mut setup, SetupV3Event::NodeInfoFetched(info(id, role, n as u8 + 1))),
            Ok(expected.next().unwrap())
        );
    }
    assert_eq!(setup.guardians.targets, vec!["https://guardian-1.invalid".to_string(), "https://guardian-2.invalid".to_string()]);
    let fixture = fixture();
    let mut wrong = setup.clone();
    let mut foreign = fixture.genesis.clone();
    foreign.config_ref.config_id = [9; 32];
    assert!(matches!(
        setup_v3_step(&mut wrong, SetupV3Event::Built { card: fixture.card.clone(), capsule: foreign }),
        Err(SetupV3RunError::Card(_))
    ));
    assert_eq!(
        setup_v3_step(&mut setup, SetupV3Event::Built { card: fixture.card.clone(), capsule: fixture.genesis.clone() }),
        Ok(SetupV3Action::Provision { role: NodeRole::Signer, index: 0 })
    );
    let order = [
        SetupV3Action::RegisterRoute { role: NodeRole::Signer, index: 0, relay: 0 },
        SetupV3Action::RegisterRoute { role: NodeRole::Signer, index: 0, relay: 1 },
        SetupV3Action::Provision { role: NodeRole::Signer, index: 1 },
        SetupV3Action::RegisterRoute { role: NodeRole::Signer, index: 1, relay: 0 },
        SetupV3Action::RegisterRoute { role: NodeRole::Signer, index: 1, relay: 1 },
        SetupV3Action::Provision { role: NodeRole::Guardian, index: 0 },
        SetupV3Action::RegisterRoute { role: NodeRole::Guardian, index: 0, relay: 0 },
        SetupV3Action::RegisterRoute { role: NodeRole::Guardian, index: 0, relay: 1 },
        SetupV3Action::Provision { role: NodeRole::Guardian, index: 1 },
        SetupV3Action::RegisterRoute { role: NodeRole::Guardian, index: 1, relay: 0 },
        SetupV3Action::RegisterRoute { role: NodeRole::Guardian, index: 1, relay: 1 },
        SetupV3Action::Provision { role: NodeRole::Witness, index: 0 },
        SetupV3Action::Provision { role: NodeRole::Witness, index: 1 },
        SetupV3Action::Provision { role: NodeRole::Witness, index: 2 },
        SetupV3Action::Provision { role: NodeRole::Witness, index: 3 },
        SetupV3Action::Finish,
    ];
    let mut failing = setup.clone();
    assert_eq!(setup_v3_step(&mut failing, SetupV3Event::Completed(false)), Err(SetupV3RunError::ProvisionFailed));
    for action in order {
        assert_eq!(setup_v3_step(&mut setup, SetupV3Event::Completed(true)), Ok(action));
    }
    assert_eq!(setup.phase, SetupV3Phase::Done);
}

#[test]
fn recovery_starts_from_the_capsule_the_read_quorum_selects() {
    let fixture = fixture();
    let active = successor(&fixture, 50);
    let reads = vec![
        read(&fixture, 0, active.clone()),
        read(&fixture, 1, fixture.genesis.clone()),
        read(&fixture, 2, fixture.genesis.clone()),
    ];
    let (run, first) =
        start_recovery_from_read_v3(&fixture.card, &fixture.challenge, &reads, [41; 32], vec![42; 1216], [43; 32], 10, [44; 32])
            .unwrap();
    assert_eq!(run.capsule.capsule_hash, active.capsule_hash);
    assert_eq!(run.request.config_ref.guardian_epoch, active.config_ref.guardian_epoch);
    assert_eq!(run.request.config_ref.epoch_binding, active.config_ref.epoch_binding);
    assert_eq!(run.request.nonce, [43; 32]);
    assert_eq!(run.signer_count, fixture.card.signer_mailboxes.len());
    if fixture.card.signer_mailboxes.is_empty() {
        assert_eq!(run.phase, RecoveryPhaseV3::Failed);
    } else {
        assert_eq!(first, Ok(RecoveryActionV3::AskSignerApproval { signer: 0 }));
    }
    let forked = vec![
        read(&fixture, 0, successor(&fixture, 60)),
        read(&fixture, 1, successor(&fixture, 61)),
        read(&fixture, 2, fixture.genesis.clone()),
    ];
    assert!(
        start_recovery_from_read_v3(&fixture.card, &fixture.challenge, &forked, [41; 32], vec![42; 1216], [43; 32], 10, [44; 32])
            .is_err()
    );
}
