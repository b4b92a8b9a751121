use gp_network::model::{
    ConfigCapsuleV3, ConfigRef, EpochReadChallenge, RecoveryCardV3, RotationActivateCertificate,
    RotationContext, SignerActivateVote, WitnessActivationAck, WitnessEpochReadResponse, WitnessPin,
    WitnessReadEnvelope, EpochActivationQc, PROTOCOL_VERSION_V3,
};
use gp_network::rotation::{
    AbortRotationCertificate, BeginRotationCertificate, GuardianRouteV3, RotationError, RotationIntent,
    RotationPlan, RotationState, SignerAbortVote, SignerRotationVote,
};
use gp_network::epoch::{validate_recovery_card_v3, EpochError};
use gp_network::rotation::{validate_rotation_ready_certificate_v3, GuardianSignedAck, RotationReadyCertificate};
use gp_network::signer_rotation::{
    handle_signer_rotation_v3, signer_rotation_response_key, SignerRotationDecisionV3,
    SignerRotationError, SignerRotationRequestV3, SignerRotationStateV3,
};

struct Fixture {
    card: RecoveryCardV3,
    challenge: EpochReadChallenge,
    genesis: ConfigCapsuleV3,
}

fn capsule(config_ref: ConfigRef, predecessor: [u8; 32], marker: u8) -> ConfigCapsuleV3 {
    ConfigCapsuleV3 {
        protocol_version: PROTOCOL_VERSION_V3,
        config_ref,
        capsule_hash: [0; 32],
        predecessor_capsule_hash: predecessor,
        signer_count: 3,
        signer_threshold: 2,
        guardian_count: 8,
        guardian_threshold: 5,
        minimum_recovery_delay: 10,
        max_request_lifetime: 100,
        signer_set_commitment: [0; 32],
        owner_cancel_public_key: [4; 32],
        dpss_suite: 0,
        dpss_public_commitment: [marker; 32],
        guardian_material_root: [marker.wrapping_add(1); 32],
        body_hash: [0; 32],
        activation_certificate: None,
        activation_qc: None,
    }
}

/// Stands in for the SHA-256 of a capsule body: distinct bodies in these
/// fixtures get distinct digests.
fn body_digest(capsule: &ConfigCapsuleV3) -> [u8; 32] {
    let mut digest = [0u8; 32];
    digest[0] = capsule.config_ref.guardian_epoch as u8;
    digest[1] = capsule.config_ref.epoch_binding[0];
    digest[2] = capsule.dpss_public_commitment[0];
    digest[3] = 0xC5;
    digest
}

fn seal(mut capsule: ConfigCapsuleV3) -> ConfigCapsuleV3 {
    capsule.body_hash = body_digest(&capsule);
    capsule.capsule_hash = capsule.body_hash;
    capsule
}

fn fixture() -> Fixture {
    let config_ref = ConfigRef {
        config_id: [1; 32],
        payload_generation: 1,
        authorization_epoch: 1,
        guardian_epoch: 1,
        epoch_binding: [2; 32],
    };
    let mut genesis = capsule(config_ref, [0; 32], 5);
    genesis.signer_set_commitment = [77; 32];
    let genesis = seal(genesis);
    let witnesses = (0..4u16)
        .map(|offset| WitnessPin {
            witness_id: offset + 1,
            mailbox: format!("https://witness-{offset}.invalid"),
            public_key: [21 + offset as u8; 32],
        })
        .collect();
    let card = RecoveryCardV3 {
        protocol_version: PROTOCOL_VERSION_V3,
        config_id: config_ref.config_id,
        signer_mailboxes: vec!["opaque-signer".into()],
        signer_set_commitment: [77; 32],
        owner_cancel_public_key: genesis.owner_cancel_public_key,
        witness_fault_bound: 1,
        witnesses,
        relay_bases: vec!["https://relay.invalid".into()],
    };
    let challenge = EpochReadChallenge {
        protocol_version: PROTOCOL_VERSION_V3,
        config_id: config_ref.config_id,
        client_nonce: [31; 32],
        response_recipient_key: vec![32; 1216],
        issued_at: 1,
        expiry: 100,
        canonical: true,
    };
    Fixture { card, challenge, genesis }
}

fn rotation_context(fixture: &Fixture, marker: u8) -> RotationContext {
    RotationContext {
        protocol_version: PROTOCOL_VERSION_V3,
        config_ref: fixture.genesis.config_ref,
        rotation_id: [marker.wrapping_add(40); 32],
        predecessor_capsule_hash: fixture.genesis.capsule_hash,
        recipient_key: vec![marker; 1216],
        nonce: [marker.wrapping_add(1); 32],
        issued_at: 1,
        expiry: 100,
    }
}

fn successor(fixture: &Fixture, marker: u8) -> ConfigCapsuleV3 {
    let mut successor_ref = fixture.genesis.config_ref;
    successor_ref.guardian_epoch = 2;
    successor_ref.epoch_binding = [marker; 32];
    let mut successor = capsule(successor_ref, fixture.genesis.capsule_hash, marker.wrapping_add(20));
    successor.signer_set_commitment = fixture.card.signer_set_commitment;
    let mut successor = seal(successor);
    let context = rotation_context(fixture, marker);
    let votes = (0..2u16)
        .map(|offset| SignerActivateVote {
            signer_id: offset + 1,
            signer_public_key: [11 + offset as u8; 32],
            membership_verified: true,
            signature_verified: true,
        })
        .collect();
    let certificate_hash = [marker.wrapping_add(4); 32];
    let certificate = RotationActivateCertificate {
        context: context.clone(),
        plan_hash: [marker.wrapping_add(2); 32],
        ready_certificate_hash: [marker.wrapping_add(3); 32],
        successor: successor.config_ref,
        successor_capsule_hash: successor.capsule_hash,
        votes,
        transcript_hash: certificate_hash,
    };
    let acks = (0..3u16)
        .map(|offset| WitnessActivationAck {
            context: context.clone(),
            plan_hash: certificate.plan_hash,
            activation_certificate_hash: certificate_hash,
            witness_id: offset + 1,
            predecessor_epoch: 1,
            predecessor_capsule_hash: fixture.genesis.capsule_hash,
            successor_epoch: 2,
            successor_capsule_hash: successor.capsule_hash,
            witness_public_key: [21 + offset as u8; 32],
            witness_signature: vec![offset as u8; 64],
            signature_verified: true,
        })
        .collect();
    successor.activation_certificate = Some(certificate);
    successor.activation_qc = Some(EpochActivationQc {
        protocol_version: PROTOCOL_VERSION_V3,
        config_id: fixture.card.config_id,
        rotation_id: context.rotation_id,
        predecessor_epoch: 1,
        predecessor_capsule_hash: fixture.genesis.capsule_hash,
        successor_epoch: 2,
        successor_capsule_hash: successor.capsule_hash,
        activation_certificate_hash: certificate_hash,
        witness_fault_bound: 1,
        witness_acks: acks,
        canonical: true,
    });
    successor
}

fn read(fixture: &Fixture, witness_offset: usize, capsule: ConfigCapsuleV3) -> WitnessReadEnvelope {
    WitnessReadEnvelope {
        response: WitnessEpochReadResponse {
            protocol_version: PROTOCOL_VERSION_V3,
            config_id: fixture.card.config_id,
            client_nonce: fixture.challenge.client_nonce,
            witness_id: witness_offset as u16 + 1,
            highest_guardian_epoch: capsule.config_ref.guardian_epoch,
            capsule_hash: capsule.capsule_hash,
            witness_public_key: [21 + witness_offset as u8; 32],
            canonical: true,
            signature_verified: true,
        },
        capsule,
    }
}

fn route(index: u16, slot: u8, mailbox: String, key: u8, session: u8, domain: u8) -> GuardianRouteV3 {
    GuardianRouteV3 {
        guardian_index: index,
        guardian_public_key: [key; 32],
        session_recipient_key: vec![session; 1216],
        operator_domain_commitment: [domain; 32],
        opaque_slot_id: [slot; 32],
        mailbox,
        index_digest: index_digest(index),
    }
}

/// Stands in for the SHA-256 of a big-endian guardian index.
fn index_digest(index: u16) -> [u8; 32] {
    let mut digest = [0xD1u8; 32];
    digest[0] = (index >> 8) as u8;
    digest[1] = index as u8;
    digest
}

fn rotation_plan_and_intent(fixture: &Fixture) -> (RotationPlan, RotationIntent) {
    let context = RotationContext {
        protocol_version: PROTOCOL_VERSION_V3,
        config_ref: fixture.genesis.config_ref,
        rotation_id: [91; 32],
        predecessor_capsule_hash: fixture.genesis.capsule_hash,
        recipient_key: vec![92; 1216],
        nonce: [93; 32],
        issued_at: 1,
        expiry: 100,
    };
    let old_roster = (1u16..=8)
        .map(|id| {
            route(
                id,
                id as u8,
                format!("https://relay.invalid/v3/mailboxes/old-{id}"),
                (id + 10) as u8,
                (id + 20) as u8,
                (id + 30) as u8,
            )
        })
        .collect::<Vec<_>>();
    let mut new_roster = old_roster
        .iter()
        .filter(|old| old.guardian_index != 4)
        .map(|old| {
            let mut new = old.clone();
            new.opaque_slot_id = [(old.guardian_index + 40) as u8; 32];
            new.mailbox = format!("https://relay.invalid/v3/mailboxes/new-{}", old.guardian_index);
            new
        })
        .collect::<Vec<_>>();
    new_roster.push(route(9, 99, "https://relay.invalid/v3/mailboxes/new-9".into(), 109, 119, 129));
    let intent = RotationIntent {
        context: context.clone(),
        reason: 0,
        old_guardian_count: 8,
        old_guardian_threshold: 5,
        allowed_new_guardian_count: vec![8],
        allowed_new_guardian_threshold: vec![5],
        allowed_dpss_suites: vec![0],
        selection_constraints_commitment: index_digest(4),
        witness_read_qc_hash: [94; 32],
        transcript_hash: [97; 32],
    };
    let old_roster_commitment = [98; 32];
    let new_roster_commitment = [99; 32];
    let plan = RotationPlan {
        context,
        predecessor: fixture.genesis.config_ref,
        successor: ConfigRef {
            guardian_epoch: 2,
            epoch_binding: [95; 32],
            ..fixture.genesis.config_ref
        },
        intent_hash: intent.transcript_hash,
        preparation_deadline: 80,
        drain_deadline: 90,
        minimum_delay_secs: 10,
        old_guardian_threshold: 5,
        data_shards: 5,
        total_shards: 8,
        old_roster,
        new_roster,
        new_guardian_threshold: 5,
        old_roster_commitment,
        new_roster_commitment,
        dpss_suite: 0,
        dpss_qualified_set_commitment: new_roster_commitment,
        dpss_session_id: [34; 32],
        old_roster_digest: old_roster_commitment,
        new_roster_digest: new_roster_commitment,
        transcript_hash: [96; 32],
        canonical: true,
    };
    (plan, intent)
}


fn signer_state(fixture: &Fixture) -> SignerRotationStateV3 {
    SignerRotationStateV3 {
        signer_id: 1,
        recovery_card: fixture.card.clone(),
        active_capsule: fixture.genesis.clone(),
        intent_votes: vec![],
        intents: vec![],
        begin_votes: vec![],
        release_votes: vec![],
        activate_votes: vec![],
        cancelled_rotations: vec![],
        predecessor_plan_locks: vec![],
        highest_observed_epoch: vec![],
    }
}

fn intent_request(fixture: &Fixture, intent: &RotationIntent) -> SignerRotationRequestV3 {
    SignerRotationRequestV3::Intent {
        intent: intent.clone(),
        witness_challenge: fixture.challenge.clone(),
        witness_reads: (0..3).map(|offset| read(fixture, offset, fixture.genesis.clone())).collect(),
        read_quorum_hash: intent.witness_read_qc_hash,
    }
}

fn begin_certificate(plan: &RotationPlan) -> BeginRotationCertificate {
    BeginRotationCertificate {
        context: plan.context.clone(),
        intent_hash: plan.intent_hash,
        plan_hash: plan.transcript_hash,
        old_roster_commitment: plan.old_roster_commitment,
        new_roster_commitment: plan.new_roster_commitment,
        not_before_wall: plan.context.issued_at + plan.minimum_delay_secs,
        votes: (1u16..=2)
            .map(|signer_id| SignerRotationVote {
                signer_id,
                signer_public_key: [10 + signer_id as u8; 32],
                membership_verified: true,
                signature_verified: true,
            })
            .collect(),
        transcript_hash: [81; 32],
        canonical: true,
    }
}

fn abort_certificate(plan: &RotationPlan) -> AbortRotationCertificate {
    AbortRotationCertificate {
        context: plan.context.clone(),
        plan_hash: plan.transcript_hash,
        state_at_abort: RotationState::DelayPending,
        reason_code: 7,
        votes: (1u16..=2)
            .map(|signer_id| SignerAbortVote {
                context: plan.context.clone(),
                plan_hash: plan.transcript_hash,
                state_at_abort: RotationState::DelayPending,
                reason_code: 7,
                signer_id,
                signer_public_key: [10 + signer_id as u8; 32],
                membership_verified: true,
                signature_verified: true,
            })
            .collect(),
        transcript_hash: [86; 32],
        canonical: true,
    }
}

#[test]
fn signer_rotation_votes_intent_begin_and_release_once_for_one_plan() {
    let fixture = fixture();
    let (plan, intent) = rotation_plan_and_intent(&fixture);
    let mut state = signer_state(&fixture);

    assert!(matches!(
        handle_signer_rotation_v3(&mut state, SignerRotationRequestV3::Begin { intent_hash: intent.transcript_hash, plan: plan.clone() }, 10),
        Err(SignerRotationError::NoApprovedIntent)
    ));
    assert!(matches!(
        handle_signer_rotation_v3(&mut state, intent_request(&fixture, &intent), 10),
        Ok(SignerRotationDecisionV3::IntentContribution { intent_hash }) if intent_hash == [97; 32]
    ));
    assert_eq!(state.intents.len(), 1);
    assert_eq!(state.highest_observed_epoch.len(), 1);
    assert_eq!(state.highest_observed_epoch[0].guardian_epoch, 1);

    // A different Intent for the same rotation is refused.
    let mut other = intent.clone();
    other.transcript_hash = [98; 32];
    assert!(matches!(
        handle_signer_rotation_v3(&mut state, intent_request(&fixture, &other), 10),
        Err(SignerRotationError::ConflictingVote)
    ));

    let begin = SignerRotationRequestV3::Begin { intent_hash: intent.transcript_hash, plan: plan.clone() };
    assert!(matches!(
        handle_signer_rotation_v3(&mut state, begin.clone(), 10),
        Ok(SignerRotationDecisionV3::BeginVote { intent_hash, plan_hash })
            if intent_hash == [97; 32] && plan_hash == [96; 32]
    ));
    // The same Begin is answered again; the predecessor stays locked to it.
    assert!(handle_signer_rotation_v3(&mut state, begin, 11).is_ok());
    assert_eq!(state.predecessor_plan_locks.len(), 1);
    assert_eq!(state.predecessor_plan_locks[0].digest, [96; 32]);

    let release = |vote: u8| SignerRotationRequestV3::Release {
        plan: plan.clone(),
        begin_certificate: begin_certificate(&plan),
        vote_hash: [vote; 32],
    };
    assert!(matches!(
        handle_signer_rotation_v3(&mut state, release(61), 10),
        Err(SignerRotationError::DelayIncomplete)
    ));
    assert!(matches!(
        handle_signer_rotation_v3(&mut state, release(61), 11),
        Ok(SignerRotationDecisionV3::ReleaseVote { plan_hash, begin_certificate_hash })
            if plan_hash == [96; 32] && begin_certificate_hash == [81; 32]
    ));
    assert!(matches!(
        handle_signer_rotation_v3(&mut state, release(62), 12),
        Err(SignerRotationError::ConflictingVote)
    ));

    // Expired contexts and malformed recipient keys are refused outright.
    assert!(matches!(
        handle_signer_rotation_v3(&mut state, release(61), 100),
        Err(SignerRotationError::MalformedContext)
    ));
}

#[test]
fn signer_threshold_abort_cancels_the_rotation_for_good() {
    let fixture = fixture();
    let (plan, intent) = rotation_plan_and_intent(&fixture);
    let mut state = signer_state(&fixture);
    assert!(handle_signer_rotation_v3(&mut state, intent_request(&fixture, &intent), 10).is_ok());
    assert!(handle_signer_rotation_v3(
        &mut state,
        SignerRotationRequestV3::Begin { intent_hash: intent.transcript_hash, plan: plan.clone() },
        10
    )
    .is_ok());

    let abort = |state_at_abort: RotationState, key_len: usize| SignerRotationRequestV3::Abort {
        plan: plan.clone(),
        state_at_abort,
        reason_code: 7,
        response_recipient_key: vec![5; key_len],
    };
    assert!(matches!(
        handle_signer_rotation_v3(&mut state, abort(RotationState::DelayPending, 1216), 20),
        Ok(SignerRotationDecisionV3::AbortVote { plan_hash, state_at_abort: RotationState::DelayPending, reason_code: 7 })
            if plan_hash == [96; 32]
    ));
    assert!(matches!(
        handle_signer_rotation_v3(&mut state, abort(RotationState::Activated, 1216), 20),
        Err(SignerRotationError::InvalidAbort)
    ));
    assert!(matches!(
        handle_signer_rotation_v3(&mut state, abort(RotationState::Preparing, 32), 20),
        Err(SignerRotationError::MalformedRecipient)
    ));

    let finalize = SignerRotationRequestV3::FinalizeAbort {
        plan: plan.clone(),
        certificate: abort_certificate(&plan),
        response_recipient_key: vec![5; 1216],
    };
    assert!(matches!(
        handle_signer_rotation_v3(&mut state, finalize, 20),
        Ok(SignerRotationDecisionV3::AbortFinalized)
    ));
    assert_eq!(state.cancelled_rotations.len(), 1);
    assert_eq!(state.cancelled_rotations[0].digest, [86; 32]);
    assert!(state.predecessor_plan_locks.is_empty());

    // Nothing more is voted for the cancelled rotation.
    assert!(matches!(
        handle_signer_rotation_v3(
            &mut state,
            SignerRotationRequestV3::Begin { intent_hash: intent.transcript_hash, plan: plan.clone() },
            20
        ),
        Err(SignerRotationError::RotationCancelled)
    ));
    assert!(matches!(
        handle_signer_rotation_v3(
            &mut state,
            SignerRotationRequestV3::Release {
                plan: plan.clone(),
                begin_certificate: begin_certificate(&plan),
                vote_hash: [61; 32],
            },
            20
        ),
        Err(SignerRotationError::RotationCancelled)
    ));
    assert!(matches!(
        handle_signer_rotation_v3(&mut state, abort(RotationState::DelayPending, 1216), 20),
        Err(SignerRotationError::InvalidAbort)
    ));
}

#[test]
fn signer_rotation_answers_go_to_the_named_key() {
    let fixture = fixture();
    let (plan, intent) = rotation_plan_and_intent(&fixture);
    let begin = SignerRotationRequestV3::Begin { intent_hash: intent.transcript_hash, plan: plan.clone() };
    assert_eq!(signer_rotation_response_key(&begin), &vec![92u8; 1216]);
    assert_eq!(signer_rotation_response_key(&intent_request(&fixture, &intent)), &vec![92u8; 1216]);
    let abort = SignerRotationRequestV3::Abort {
        plan: plan.clone(),
        state_at_abort: RotationState::Preparing,
        reason_code: 1,
        response_recipient_key: vec![5; 1216],
    };
    assert_eq!(signer_rotation_response_key(&abort), &vec![5u8; 1216]);
    let finalize = SignerRotationRequestV3::FinalizeAbort {
        plan: plan.clone(),
        certificate: abort_certificate(&plan),
        response_recipient_key: vec![6; 1216],
    };
    assert_eq!(signer_rotation_response_key(&finalize), &vec![6u8; 1216]);
}

fn ready_certificate(plan: &RotationPlan) -> RotationReadyCertificate {
    RotationReadyCertificate {
        context: plan.context.clone(),
        plan_hash: plan.transcript_hash,
        successor: plan.successor,
        dpss_result_commitment: [71; 32],
        guardian_material_root: [72; 32],
        encrypted_descriptor_hash: [73; 32],
        prepared_acks: plan
            .new_roster
            .iter()
            .map(|route| GuardianSignedAck { guardian_index: route.guardian_index, signature_verified: true })
            .collect(),
        old_handoff_acks: [1u16, 2, 3, 5, 6]
            .iter()
            .map(|index| GuardianSignedAck { guardian_index: *index, signature_verified: true })
            .collect(),
        transcript_hash: [88; 32],
        canonical: true,
    }
}

fn successor_for(fixture: &Fixture, plan: &RotationPlan) -> ConfigCapsuleV3 {
    let mut successor = capsule(plan.successor, fixture.genesis.capsule_hash, 71);
    successor.signer_set_commitment = fixture.genesis.signer_set_commitment;
    successor.guardian_material_root = [72; 32];
    successor.body_hash = [74; 32];
    successor.capsule_hash = [74; 32];
    successor
}

#[test]
fn recovery_card_needs_3f_plus_1_distinct_witness_pins() {
    let fixture = fixture();
    assert_eq!(validate_recovery_card_v3(&fixture.card), Ok(()));
    let mut no_faults = fixture.card.clone();
    no_faults.witness_fault_bound = 0;
    assert_eq!(validate_recovery_card_v3(&no_faults), Err(EpochError::InvalidCard));
    let mut two_faults = fixture.card.clone();
    two_faults.witness_fault_bound = 2;
    assert_eq!(validate_recovery_card_v3(&two_faults), Err(EpochError::TooFewWitnesses));
    let mut repeated = fixture.card.clone();
    repeated.witnesses[3].witness_id = 1;
    assert_eq!(validate_recovery_card_v3(&repeated), Err(EpochError::InvalidWitnessPin));
    let mut shared_key = fixture.card.clone();
    shared_key.witnesses[2].public_key = shared_key.witnesses[0].public_key;
    assert_eq!(validate_recovery_card_v3(&shared_key), Err(EpochError::InvalidWitnessPin));
    let mut no_mailbox = fixture.card;
    no_mailbox.witnesses[1].mailbox = String::new();
    assert_eq!(validate_recovery_card_v3(&no_mailbox), Err(EpochError::InvalidWitnessPin));
}

#[test]
fn ready_needs_every_successor_and_an_old_threshold_before_the_deadline() {
    let fixture = fixture();
    let (plan, _) = rotation_plan_and_intent(&fixture);
    let ready = ready_certificate(&plan);
    assert_eq!(validate_rotation_ready_certificate_v3(&ready, &plan, &fixture.genesis, 79), Ok([88; 32]));
    assert_eq!(
        validate_rotation_ready_certificate_v3(&ready, &plan, &fixture.genesis, 80),
        Err(RotationError::CertificateMismatch)
    );
    let mut missing = ready.clone();
    missing.prepared_acks.pop();
    assert_eq!(
        validate_rotation_ready_certificate_v3(&missing, &plan, &fixture.genesis, 20),
        Err(RotationError::CertificateMismatch)
    );
    let mut short_handoff = ready.clone();
    short_handoff.old_handoff_acks.pop();
    assert_eq!(
        validate_rotation_ready_certificate_v3(&short_handoff, &plan, &fixture.genesis, 20),
        Err(RotationError::CertificateMismatch)
    );
    let mut stranger = ready.clone();
    stranger.prepared_acks[0].guardian_index = 40;
    assert_eq!(
        validate_rotation_ready_certificate_v3(&stranger, &plan, &fixture.genesis, 20),
        Err(RotationError::UnknownGuardian)
    );
    let mut forged = ready.clone();
    forged.old_handoff_acks[2].signature_verified = false;
    assert_eq!(
        validate_rotation_ready_certificate_v3(&forged, &plan, &fixture.genesis, 20),
        Err(RotationError::BadGuardianSignature)
    );
    let mut not_canonical = ready;
    not_canonical.canonical = false;
    assert_eq!(
        validate_rotation_ready_certificate_v3(&not_canonical, &plan, &fixture.genesis, 20),
        Err(RotationError::CertificateNotCanonical)
    );
}

#[test]
fn ready_refuses_copies_of_one_guardian_ack() {
    let fixture = fixture();
    let (plan, _) = rotation_plan_and_intent(&fixture);
    let ready = ready_certificate(&plan);
    let mut copies = ready.clone();
    let first = copies.prepared_acks[0];
    for ack in copies.prepared_acks.iter_mut() {
        *ack = first;
    }
    assert_eq!(
        validate_rotation_ready_certificate_v3(&copies, &plan, &fixture.genesis, 20),
        Err(RotationError::DuplicateGuardianAck)
    );
    let mut repeated_handoff = ready.clone();
    repeated_handoff.old_handoff_acks[4] = repeated_handoff.old_handoff_acks[0];
    assert_eq!(
        validate_rotation_ready_certificate_v3(&repeated_handoff, &plan, &fixture.genesis, 20),
        Err(RotationError::DuplicateGuardianAck)
    );
    let mut extra_handoff = ready;
    let again = extra_handoff.old_handoff_acks[1];
    extra_handoff.old_handoff_acks.push(again);
    assert_eq!(
        validate_rotation_ready_certificate_v3(&extra_handoff, &plan, &fixture.genesis, 20),
        Err(RotationError::DuplicateGuardianAck)
    );
}

#[test]
fn signer_votes_activate_only_for_the_successor_ready_describes() {
    let fixture = fixture();
    let (plan, intent) = rotation_plan_and_intent(&fixture);
    let mut state = signer_state(&fixture);
    let activate = |successor: ConfigCapsuleV3, vote: u8| SignerRotationRequestV3::Activate {
        plan: plan.clone(),
        ready_certificate: ready_certificate(&plan),
        successor_capsule: successor,
        descriptor_hash: [73; 32],
        vote_hash: [vote; 32],
    };
    assert!(handle_signer_rotation_v3(&mut state, intent_request(&fixture, &intent), 10).is_ok());
    assert!(handle_signer_rotation_v3(
        &mut state,
        SignerRotationRequestV3::Begin { intent_hash: intent.transcript_hash, plan: plan.clone() },
        10
    )
    .is_ok());
    // Without a Release vote the signer does not take part in activation.
    assert!(matches!(
        handle_signer_rotation_v3(&mut state, activate(successor_for(&fixture, &plan), 63), 30),
        Err(SignerRotationError::NotParticipant)
    ));
    assert!(handle_signer_rotation_v3(
        &mut state,
        SignerRotationRequestV3::Release {
            plan: plan.clone(),
            begin_certificate: begin_certificate(&plan),
            vote_hash: [61; 32],
        },
        20
    )
    .is_ok());
    let mut weaker = successor_for(&fixture, &plan);
    weaker.signer_threshold = 1;
    assert!(matches!(
        handle_signer_rotation_v3(&mut state, activate(weaker, 63), 30),
        Err(SignerRotationError::SuccessorMismatch)
    ));
    assert!(matches!(
        handle_signer_rotation_v3(&mut state, activate(successor_for(&fixture, &plan), 63), 30),
        Ok(SignerRotationDecisionV3::ActivateVote { plan_hash, ready_certificate_hash, successor_capsule_hash })
            if plan_hash == [96; 32] && ready_certificate_hash == [88; 32] && successor_capsule_hash == [74; 32]
    ));
    assert!(matches!(
        handle_signer_rotation_v3(&mut state, activate(successor_for(&fixture, &plan), 64), 31),
        Err(SignerRotationError::ConflictingVote)
    ));
    // Once it voted Activate, the signer no longer votes to abort.
    assert!(matches!(
        handle_signer_rotation_v3(
            &mut state,
            SignerRotationRequestV3::Abort {
                plan: plan.clone(),
                state_at_abort: RotationState::Activating,
                reason_code: 1,
                response_recipient_key: vec![5; 1216],
            },
            32
        ),
        Err(SignerRotationError::InvalidAbort)
    ));
}
