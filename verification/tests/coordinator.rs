use gp_network::coordinator::{
    activate_certificate_votes, admit_signer_abort_vote, admit_signer_activate_vote,
    admit_signer_begin_vote, admit_signer_release_vote, admit_witness_activation_ack,
    begin_certificate_votes, release_certificate_votes, validate_owner_rotation_cancel_ack,
    validate_signer_begin_vote, validate_signer_membership, validate_witness_activation_ack,
    validate_signer_release_vote, validate_signer_activate_vote, validate_signer_abort_vote,
    validate_witness_rotation_cancel_ack, CoordinatorError, OwnerRotationCancelAck,
    admit_intent_contribution, validate_fragment_contribution, validate_intent_contribution,
    CiphertextFragmentContribution, SignerRotationIntentContribution, admit_old_guardian_cancel_ack,
    admit_witness_veto, fresh_successor_positions, required_old_cancel_acks,
    rotation_guardian_mailboxes, admit_refresh_result, check_staged_refresh, require_refresh_result,
    RefreshResult,
    SignerRotationActivateVote, SignerRotationBeginVote, SignerRotationReleaseVote,
};
use gp_network::rotation_run::{
    rotation_coordinator_step, rotation_result, start_rotation_run, CoordinatorAction, CoordinatorEvent, CoordinatorPhase,
    CoordinatorRunError,
};
use gp_network::rotation::{GuardianSignedAck, RotationError, RotationReadyCertificate};
use gp_network::rotation_cancel::{
    cancel_result, rotation_cancel_step, start_rotation_cancel, CancelAction, CancelEvent, CancelPhase, CancelRunError,
};
use gp_network::guardian_rotation_steps::{
    advance_to_preparing, check_prepare_commit, decide_activation, decide_retirement, ActivationRole,
    PreparedPolicy, RetirementNotice, RotationStepError, StagedRecord,
};
use gp_network::descriptor::{
    validate_descriptor, validate_recovery_descriptor_v3, DescriptorError, RecoveryDescriptorV3,
};
use gp_network::epoch::{validate_activate_certificate, validate_activated_capsule_v3};
use gp_network::witness::OwnerRotationCancelCertificate;
use gp_network::model::{
    ConfigCapsuleV3, ConfigRef, EpochActivationQc, RecoveryCardV3, RotationActivateCertificate,
    RotationContext, WitnessActivationAck, WitnessPin, PROTOCOL_VERSION_V3,
};
use gp_network::rotation::{
    validate_abort_rotation_certificate_v3, validate_begin_rotation_certificate_v3,
    validate_owner_rotation_cancel_witness_quorum_v3,
    validate_rotation_release_certificate_v3, AbortRotationCertificate, BeginRotationCertificate,
    GuardianRouteV3, RotationIntent, RotationPlan, RotationReleaseCertificate, RotationState,
    SignerAbortVote,
    WitnessRotationCancelAck,
};

fn genesis() -> ConfigCapsuleV3 {
    let config_ref = ConfigRef {
        config_id: [1; 32],
        payload_generation: 1,
        authorization_epoch: 1,
        guardian_epoch: 1,
        epoch_binding: [2; 32],
    };
    ConfigCapsuleV3 {
        protocol_version: PROTOCOL_VERSION_V3,
        config_ref,
        capsule_hash: [3; 32],
        predecessor_capsule_hash: [0; 32],
        signer_count: 3,
        signer_threshold: 2,
        guardian_count: 8,
        guardian_threshold: 5,
        minimum_recovery_delay: 10,
        max_request_lifetime: 100,
        signer_set_commitment: [77; 32],
        owner_cancel_public_key: [4; 32],
        dpss_suite: 0,
        dpss_public_commitment: [5; 32],
        guardian_material_root: [6; 32],
        body_hash: [3; 32],
        activation_certificate: None,
        activation_qc: None,
    }
}

fn card(predecessor: &ConfigCapsuleV3) -> RecoveryCardV3 {
    RecoveryCardV3 {
        protocol_version: PROTOCOL_VERSION_V3,
        config_id: predecessor.config_ref.config_id,
        signer_mailboxes: vec!["opaque-signer".into()],
        signer_set_commitment: predecessor.signer_set_commitment,
        owner_cancel_public_key: predecessor.owner_cancel_public_key,
        witness_fault_bound: 1,
        witnesses: (0..4u16)
            .map(|offset| WitnessPin {
                witness_id: offset + 1,
                mailbox: format!("https://witness-{offset}.invalid"),
                public_key: [21 + offset as u8; 32],
            })
            .collect(),
        relay_bases: vec!["https://relay.invalid".into()],
    }
}

/// Stands in for the SHA-256 of a big-endian guardian index.
fn index_digest(index: u16) -> [u8; 32] {
    let mut digest = [0xD1u8; 32];
    digest[0] = (index >> 8) as u8;
    digest[1] = index as u8;
    digest
}

fn route(index: u16, slot: u8, mailbox: String) -> GuardianRouteV3 {
    GuardianRouteV3 {
        guardian_index: index,
        guardian_public_key: [(index + 10) as u8; 32],
        session_recipient_key: vec![(index + 20) as u8; 1216],
        operator_domain_commitment: [(index + 30) as u8; 32],
        opaque_slot_id: [slot; 32],
        mailbox,
        index_digest: index_digest(index),
    }
}

fn plan(predecessor: &ConfigCapsuleV3) -> RotationPlan {
    let context = RotationContext {
        protocol_version: PROTOCOL_VERSION_V3,
        config_ref: predecessor.config_ref,
        rotation_id: [91; 32],
        predecessor_capsule_hash: predecessor.capsule_hash,
        recipient_key: vec![92; 1216],
        nonce: [93; 32],
        issued_at: 1,
        expiry: 100,
    };
    let old_roster = (1u16..=8)
        .map(|id| route(id, id as u8, format!("https://relay.invalid/v3/mailboxes/old-{id}")))
        .collect::<Vec<_>>();
    let mut new_roster = old_roster
        .iter()
        .filter(|old| old.guardian_index != 4)
        .map(|old| {
            let mut new = old.clone();
            new.opaque_slot_id = [(old.guardian_index + 40) as u8; 32];
            new.mailbox = format!("https://relay.invalid/v3/mailboxes/new-{}", old.guardian_index);
            new
        })
        .collect::<Vec<_>>();
    new_roster.push(route(9, 99, "https://relay.invalid/v3/mailboxes/new-9".into()));
    RotationPlan {
        context,
        predecessor: predecessor.config_ref,
        successor: ConfigRef {
            guardian_epoch: 2,
            epoch_binding: [95; 32],
            ..predecessor.config_ref
        },
        intent_hash: [97; 32],
        preparation_deadline: 80,
        drain_deadline: 90,
        minimum_delay_secs: 10,
        old_guardian_threshold: 5,
        data_shards: 5,
        total_shards: 8,
        old_roster,
        new_roster,
        new_guardian_threshold: 5,
        old_roster_commitment: [98; 32],
        new_roster_commitment: [99; 32],
        dpss_suite: 0,
        dpss_qualified_set_commitment: [99; 32],
        dpss_session_id: [34; 32],
        old_roster_digest: [98; 32],
        new_roster_digest: [99; 32],
        transcript_hash: [96; 32],
        canonical: true,
    }
}

fn begin_vote(plan: &RotationPlan, signer_id: u16) -> SignerRotationBeginVote {
    SignerRotationBeginVote {
        context: plan.context.clone(),
        intent_hash: plan.intent_hash,
        plan_hash: plan.transcript_hash,
        old_roster_commitment: plan.old_roster_commitment,
        new_roster_commitment: plan.new_roster_commitment,
        signer_id,
        signer_public_key: [10 + signer_id as u8; 32],
        membership_verified: true,
        signature_verified: true,
    }
}

fn begin_certificate(plan: &RotationPlan, predecessor: &ConfigCapsuleV3) -> BeginRotationCertificate {
    let mut votes = Vec::new();
    assert!(!admit_signer_begin_vote(&mut votes, Some(begin_vote(plan, 1)), plan, predecessor));
    assert!(!admit_signer_begin_vote(&mut votes, Some(begin_vote(plan, 1)), plan, predecessor));
    assert!(!admit_signer_begin_vote(&mut votes, None, plan, predecessor));
    assert!(admit_signer_begin_vote(&mut votes, Some(begin_vote(plan, 3)), plan, predecessor));
    BeginRotationCertificate {
        context: plan.context.clone(),
        intent_hash: plan.intent_hash,
        plan_hash: plan.transcript_hash,
        old_roster_commitment: plan.old_roster_commitment,
        new_roster_commitment: plan.new_roster_commitment,
        not_before_wall: plan.context.issued_at + plan.minimum_delay_secs,
        votes: begin_certificate_votes(&votes),
        transcript_hash: [61; 32],
        canonical: true,
    }
}

#[test]
fn counted_begin_votes_make_an_accepted_begin_certificate() {
    let predecessor = genesis();
    let plan = plan(&predecessor);
    let mut votes = Vec::new();
    let mut stale = begin_vote(&plan, 2);
    stale.plan_hash = [1; 32];
    assert!(!admit_signer_begin_vote(&mut votes, Some(stale), &plan, &predecessor));
    assert!(!admit_signer_begin_vote(&mut votes, Some(begin_vote(&plan, 1)), &plan, &predecessor));
    assert!(!admit_signer_begin_vote(&mut votes, Some(begin_vote(&plan, 1)), &plan, &predecessor));
    assert_eq!(votes.len(), 1);
    assert!(admit_signer_begin_vote(&mut votes, Some(begin_vote(&plan, 3)), &plan, &predecessor));
    assert_eq!(votes.iter().map(|v| v.signer_id).collect::<Vec<_>>(), vec![1, 3]);

    let certificate = begin_certificate(&plan, &predecessor);
    assert_eq!(certificate.votes.len(), 2);
    assert_eq!(
        validate_begin_rotation_certificate_v3(&certificate, &plan, &predecessor, 10),
        Ok([61; 32])
    );
}

#[test]
fn begin_vote_errors_name_what_failed() {
    let predecessor = genesis();
    let plan = plan(&predecessor);
    assert_eq!(validate_signer_begin_vote(&begin_vote(&plan, 2), &plan, &predecessor), Ok(()));
    assert_eq!(
        validate_signer_begin_vote(&begin_vote(&plan, 0), &plan, &predecessor),
        Err(CoordinatorError::ZeroSigner)
    );
    assert_eq!(
        validate_signer_begin_vote(&begin_vote(&plan, 4), &plan, &predecessor),
        Err(CoordinatorError::SignerOutOfRange)
    );
    let mut unproven = begin_vote(&plan, 2);
    unproven.membership_verified = false;
    assert_eq!(
        validate_signer_begin_vote(&unproven, &plan, &predecessor),
        Err(CoordinatorError::MembershipNotProven)
    );
    let mut forged = begin_vote(&plan, 2);
    forged.signature_verified = false;
    assert_eq!(
        validate_signer_begin_vote(&forged, &plan, &predecessor),
        Err(CoordinatorError::BadSignature)
    );
    let mut other_roster = begin_vote(&plan, 2);
    other_roster.new_roster_commitment = [7; 32];
    assert_eq!(
        validate_signer_begin_vote(&other_roster, &plan, &predecessor),
        Err(CoordinatorError::VoteMismatch)
    );
    let mut unencodable = plan.clone();
    unencodable.canonical = false;
    assert_eq!(
        validate_signer_begin_vote(&begin_vote(&plan, 2), &unencodable, &predecessor),
        Err(CoordinatorError::PlanNotCanonical)
    );
    assert_eq!(validate_signer_membership(3, true, &predecessor), Ok(()));
    assert_eq!(
        validate_signer_membership(3, false, &predecessor),
        Err(CoordinatorError::MembershipNotProven)
    );
}

#[test]
fn counted_release_votes_make_an_accepted_release_certificate_after_the_delay() {
    let predecessor = genesis();
    let plan = plan(&predecessor);
    let begin = begin_certificate(&plan, &predecessor);
    let begin_hash = validate_begin_rotation_certificate_v3(&begin, &plan, &predecessor, 12).unwrap();
    let release_vote = |signer_id: u16, begin_hash: [u8; 32]| SignerRotationReleaseVote {
        context: plan.context.clone(),
        plan_hash: plan.transcript_hash,
        begin_certificate_hash: begin_hash,
        signer_id,
        signer_public_key: [10 + signer_id as u8; 32],
        membership_verified: true,
        signature_verified: true,
    };
    let mut votes = Vec::new();
    assert!(!admit_signer_release_vote(
        &mut votes,
        Some(release_vote(1, [0; 32])),
        &plan,
        &begin_hash,
        &predecessor
    ));
    assert!(votes.is_empty());
    assert!(!admit_signer_release_vote(&mut votes, Some(release_vote(2, begin_hash)), &plan, &begin_hash, &predecessor));
    assert!(admit_signer_release_vote(&mut votes, Some(release_vote(1, begin_hash)), &plan, &begin_hash, &predecessor));
    let release = RotationReleaseCertificate {
        context: plan.context.clone(),
        plan_hash: plan.transcript_hash,
        begin_certificate_hash: begin_hash,
        votes: release_certificate_votes(&votes),
        transcript_hash: [62; 32],
        canonical: true,
    };
    assert_eq!(
        validate_rotation_release_certificate_v3(&release, &begin, &plan, &predecessor, 12),
        Ok([62; 32])
    );
    assert!(validate_rotation_release_certificate_v3(&release, &begin, &plan, &predecessor, 5).is_err());
}

fn successor_capsule(predecessor: &ConfigCapsuleV3, plan: &RotationPlan) -> ConfigCapsuleV3 {
    let mut successor = predecessor.clone();
    successor.config_ref = plan.successor;
    successor.predecessor_capsule_hash = predecessor.capsule_hash;
    successor.capsule_hash = [33; 32];
    successor.body_hash = [33; 32];
    successor.dpss_public_commitment = [34; 32];
    successor.guardian_material_root = [35; 32];
    successor
}

fn activation_ack(
    witness: &WitnessPin,
    context: &RotationContext,
    plan_hash: [u8; 32],
    activation_hash: [u8; 32],
    predecessor: &ConfigCapsuleV3,
    successor: &ConfigCapsuleV3,
) -> WitnessActivationAck {
    WitnessActivationAck {
        context: context.clone(),
        plan_hash,
        activation_certificate_hash: activation_hash,
        witness_id: witness.witness_id,
        predecessor_epoch: predecessor.config_ref.guardian_epoch,
        predecessor_capsule_hash: predecessor.capsule_hash,
        successor_epoch: successor.config_ref.guardian_epoch,
        successor_capsule_hash: successor.capsule_hash,
        witness_public_key: witness.public_key,
        witness_signature: vec![witness.witness_id as u8; 64],
        signature_verified: true,
    }
}

#[test]
fn counted_activate_votes_and_witness_acks_authenticate_the_successor() {
    let predecessor = genesis();
    let card = card(&predecessor);
    let plan = plan(&predecessor);
    let mut successor = successor_capsule(&predecessor, &plan);
    let ready_hash = [63; 32];
    let activate_vote = |signer_id: u16, capsule_hash: [u8; 32]| SignerRotationActivateVote {
        context: plan.context.clone(),
        plan_hash: plan.transcript_hash,
        ready_certificate_hash: ready_hash,
        successor_capsule_hash: capsule_hash,
        signer_id,
        signer_public_key: [10 + signer_id as u8; 32],
        membership_verified: true,
        signature_verified: true,
    };
    let mut votes = Vec::new();
    assert!(!admit_signer_activate_vote(&mut votes, Some(activate_vote(2, [0; 32])), &plan, &ready_hash, &successor));
    assert!(!admit_signer_activate_vote(&mut votes, Some(activate_vote(2, successor.capsule_hash)), &plan, &ready_hash, &successor));
    assert!(admit_signer_activate_vote(&mut votes, Some(activate_vote(3, successor.capsule_hash)), &plan, &ready_hash, &successor));
    let activation_hash = [64; 32];
    let certificate = RotationActivateCertificate {
        context: plan.context.clone(),
        plan_hash: plan.transcript_hash,
        ready_certificate_hash: ready_hash,
        successor: successor.config_ref,
        successor_capsule_hash: successor.capsule_hash,
        votes: activate_certificate_votes(&votes),
        transcript_hash: activation_hash,
    };
    assert_eq!(validate_activate_certificate(&successor, &certificate), Ok(activation_hash));

    let mut acks = Vec::new();
    let answers = [
        None,
        Some(activation_ack(&card.witnesses[1], &plan.context, [0; 32], activation_hash, &predecessor, &successor)),
        Some(activation_ack(&card.witnesses[1], &plan.context, plan.transcript_hash, activation_hash, &predecessor, &successor)),
        Some(activation_ack(&card.witnesses[3], &plan.context, plan.transcript_hash, activation_hash, &predecessor, &successor)),
    ];
    let mut reached = false;
    for (k, answer) in answers.into_iter().enumerate() {
        reached = admit_witness_activation_ack(
            &mut acks,
            &card,
            k,
            answer,
            &plan.context,
            &plan.transcript_hash,
            &activation_hash,
            &predecessor,
            &successor,
        );
        if reached {
            break;
        }
    }
    // The answer for the second pin named the wrong plan and the third pin
    // answered with another witness's ack: only the fourth counts.
    assert!(!reached);
    assert_eq!(acks.len(), 1);

    let mut acks = Vec::new();
    for k in 0..card.witnesses.len() {
        let answer = Some(activation_ack(
            &card.witnesses[k],
            &plan.context,
            plan.transcript_hash,
            activation_hash,
            &predecessor,
            &successor,
        ));
        if admit_witness_activation_ack(
            &mut acks,
            &card,
            k,
            answer,
            &plan.context,
            &plan.transcript_hash,
            &activation_hash,
            &predecessor,
            &successor,
        ) {
            break;
        }
    }
    assert_eq!(acks.len(), 3);
    successor.activation_certificate = Some(certificate);
    successor.activation_qc = Some(EpochActivationQc {
        protocol_version: PROTOCOL_VERSION_V3,
        config_id: card.config_id,
        rotation_id: plan.context.rotation_id,
        predecessor_epoch: predecessor.config_ref.guardian_epoch,
        predecessor_capsule_hash: predecessor.capsule_hash,
        successor_epoch: successor.config_ref.guardian_epoch,
        successor_capsule_hash: successor.capsule_hash,
        activation_certificate_hash: activation_hash,
        witness_fault_bound: card.witness_fault_bound,
        witness_acks: acks,
        canonical: true,
    });
    assert_eq!(validate_activated_capsule_v3(&card, &successor), Ok(()));
    let prepared = PreparedPolicy {
        config_ref: successor.config_ref,
        guardian_material_root: successor.guardian_material_root,
        dpss_public_commitment: successor.dpss_public_commitment,
    };
    let successor_key = plan.new_roster[0].guardian_public_key;
    assert_eq!(
        decide_activation(&card, &plan, &predecessor, &successor, &successor_key, Some(prepared)),
        Ok(ActivationRole::Successor)
    );
    assert_eq!(
        decide_activation(&card, &plan, &predecessor, &successor, &successor_key, None),
        Err(RotationStepError::NotPrepared)
    );
    let mut stale = prepared;
    stale.guardian_material_root = [0; 32];
    assert_eq!(
        decide_activation(&card, &plan, &predecessor, &successor, &successor_key, Some(stale)),
        Err(RotationStepError::PreparedMismatch)
    );
    assert_eq!(
        decide_activation(&card, &plan, &predecessor, &successor, &[0xEE; 32], None),
        Ok(ActivationRole::Observer)
    );
    let mut other_plan = plan.clone();
    other_plan.new_guardian_threshold = 4;
    assert_eq!(
        decide_activation(&card, &other_plan, &predecessor, &successor, &successor_key, Some(prepared)),
        Err(RotationStepError::PlanMismatch)
    );
    let mut foreign = successor.clone();
    foreign.config_ref.config_id = [9; 32];
    assert!(matches!(
        decide_activation(&card, &plan, &predecessor, &foreign, &successor_key, Some(prepared)),
        Err(RotationStepError::Card(_))
    ));
}

#[test]
fn guardian_rotation_steps_follow_the_order_and_the_staged_record() {
    assert_eq!(advance_to_preparing(RotationState::DelayPending), Ok(RotationState::Preparing));
    assert_eq!(advance_to_preparing(RotationState::Preparing), Ok(RotationState::Preparing));
    assert_eq!(advance_to_preparing(RotationState::Ready), Err(RotationStepError::OutOfOrder));
    let predecessor = genesis();
    let plan = plan(&predecessor);
    let route = plan.new_roster[1].clone();
    let staged = StagedRecord {
        dpss_result_commitment: [5; 32],
        guardian_index: route.guardian_index,
        fragment_index: 2,
        leaf_fragment_index: 2,
        opaque_slot_id: route.opaque_slot_id,
        config_ref: plan.successor,
        dpss_public_commitment: [5; 32],
    };
    assert_eq!(check_prepare_commit(&plan, &route, &staged, &[6; 32], &[5; 32], true, true), Ok(()));
    assert_eq!(
        check_prepare_commit(&plan, &route, &staged, &[0; 32], &[5; 32], true, true),
        Err(RotationStepError::StagedMismatch)
    );
    assert_eq!(
        check_prepare_commit(&plan, &route, &staged, &[6; 32], &[5; 32], false, true),
        Err(RotationStepError::InclusionNotProven)
    );
    assert_eq!(
        check_prepare_commit(&plan, &plan.new_roster[2], &staged, &[6; 32], &[5; 32], true, true),
        Err(RotationStepError::StagedMismatch)
    );
    assert_eq!(
        check_prepare_commit(&plan, &route, &staged, &[6; 32], &[5; 32], true, false),
        Err(RotationStepError::CustodyMismatch)
    );
    let notice = RetirementNotice { activation_qc_hash: [7; 32], retired_epoch: 1, drain_deadline: 100 };
    assert_eq!(decide_retirement(Some(([7; 32], 1)), &notice, 100, true), Ok(()));
    assert_eq!(
        decide_retirement(Some(([7; 32], 1)), &notice, 99, true),
        Err(RotationStepError::EarlyOrMismatchedRetirement)
    );
    assert_eq!(
        decide_retirement(Some(([8; 32], 1)), &notice, 100, true),
        Err(RotationStepError::EarlyOrMismatchedRetirement)
    );
    assert_eq!(decide_retirement(Some(([7; 32], 1)), &notice, 100, false), Err(RotationStepError::NotDraining));
    assert_eq!(decide_retirement(None, &notice, 100, true), Err(RotationStepError::OutOfOrder));
}

#[test]
fn witness_activation_ack_must_carry_the_pinned_key() {
    let predecessor = genesis();
    let card = card(&predecessor);
    let plan = plan(&predecessor);
    let successor = successor_capsule(&predecessor, &plan);
    let witness = &card.witnesses[1];
    let ack = activation_ack(witness, &plan.context, [8; 32], [9; 32], &predecessor, &successor);
    assert_eq!(
        validate_witness_activation_ack(&ack, witness, &plan.context, &[8; 32], &[9; 32], &predecessor, &successor),
        Ok(())
    );
    let mut substituted = ack.clone();
    substituted.witness_public_key = [200; 32];
    assert_eq!(
        validate_witness_activation_ack(&substituted, witness, &plan.context, &[8; 32], &[9; 32], &predecessor, &successor),
        Err(CoordinatorError::AckMismatch)
    );
    let mut unsigned = ack;
    unsigned.signature_verified = false;
    assert_eq!(
        validate_witness_activation_ack(&unsigned, witness, &plan.context, &[8; 32], &[9; 32], &predecessor, &successor),
        Err(CoordinatorError::BadSignature)
    );
}

#[test]
fn counted_abort_votes_make_an_accepted_abort_certificate() {
    let predecessor = genesis();
    let plan = plan(&predecessor);
    let abort_vote = |signer_id: u16, reason_code: u16| SignerAbortVote {
        context: plan.context.clone(),
        plan_hash: plan.transcript_hash,
        state_at_abort: RotationState::Preparing,
        reason_code,
        signer_id,
        signer_public_key: [10 + signer_id as u8; 32],
        membership_verified: true,
        signature_verified: true,
    };
    let mut votes = Vec::new();
    assert!(!admit_signer_abort_vote(&mut votes, Some(abort_vote(1, 8)), &plan, &predecessor, RotationState::Preparing, 7));
    assert!(!admit_signer_abort_vote(&mut votes, Some(abort_vote(1, 7)), &plan, &predecessor, RotationState::Preparing, 7));
    assert!(!admit_signer_abort_vote(&mut votes, Some(abort_vote(2, 7)), &plan, &predecessor, RotationState::Ready, 7));
    assert!(admit_signer_abort_vote(&mut votes, Some(abort_vote(2, 7)), &plan, &predecessor, RotationState::Preparing, 7));
    let certificate = AbortRotationCertificate {
        context: plan.context.clone(),
        plan_hash: plan.transcript_hash,
        state_at_abort: RotationState::Preparing,
        reason_code: 7,
        votes,
        transcript_hash: [65; 32],
        canonical: true,
    };
    assert_eq!(
        validate_abort_rotation_certificate_v3(&certificate, &plan, &predecessor, 85),
        Ok([65; 32])
    );
}

#[test]
fn cancellation_acks_bind_the_exact_rotation_and_sender() {
    let predecessor = genesis();
    let card = card(&predecessor);
    let plan = plan(&predecessor);
    let witness = &card.witnesses[0];
    let veto = WitnessRotationCancelAck {
        protocol_version: PROTOCOL_VERSION_V3,
        config_id: plan.context.config_ref.config_id,
        rotation_id: plan.context.rotation_id,
        plan_hash: plan.transcript_hash,
        cancel_certificate_hash: [66; 32],
        witness_id: witness.witness_id,
        witness_public_key: witness.public_key,
        signature_verified: true,
    };
    assert_eq!(validate_witness_rotation_cancel_ack(&veto, witness, &plan, &[66; 32]), Ok(()));
    assert_eq!(
        validate_witness_rotation_cancel_ack(&veto, &card.witnesses[1], &plan, &[66; 32]),
        Err(CoordinatorError::AckMismatch)
    );
    let mut other_rotation = veto;
    other_rotation.rotation_id = [1; 32];
    let mut unencodable = plan.clone();
    unencodable.canonical = false;
    assert_eq!(
        validate_witness_rotation_cancel_ack(&other_rotation, witness, &unencodable, &[66; 32]),
        Err(CoordinatorError::AckMismatch)
    );
    assert_eq!(
        validate_witness_rotation_cancel_ack(&veto, witness, &unencodable, &[66; 32]),
        Err(CoordinatorError::PlanNotCanonical)
    );

    let route = &plan.old_roster[2];
    let ack = OwnerRotationCancelAck {
        context: plan.context.clone(),
        plan_hash: plan.transcript_hash,
        cancel_certificate_hash: [66; 32],
        guardian_index: route.guardian_index,
        signature_verified: true,
    };
    assert_eq!(validate_owner_rotation_cancel_ack(&ack, route, &plan, &[66; 32]), Ok(()));
    assert_eq!(
        validate_owner_rotation_cancel_ack(&ack, &plan.old_roster[3], &plan, &[66; 32]),
        Err(CoordinatorError::AckMismatch)
    );
    let mut unsigned = ack;
    unsigned.signature_verified = false;
    assert_eq!(
        validate_owner_rotation_cancel_ack(&unsigned, route, &plan, &[66; 32]),
        Err(CoordinatorError::BadSignature)
    );
}

fn descriptor(capsule: &ConfigCapsuleV3) -> RecoveryDescriptorV3 {
    RecoveryDescriptorV3 {
        config_ref: capsule.config_ref,
        guardian_material_root: capsule.guardian_material_root,
        data_shards: capsule.guardian_threshold,
        total_shards: capsule.guardian_count,
        guardians: (1u16..=8)
            .map(|id| route(id, id as u8, format!("https://relay.invalid/v3/mailboxes/g-{id}")))
            .collect(),
        dpss_suite: capsule.dpss_suite,
        dpss_public_commitment: capsule.dpss_public_commitment,
        dpss_public_package_digest: Some(capsule.dpss_public_commitment),
    }
}

#[test]
fn recovery_descriptor_must_match_the_authenticated_capsule() {
    let capsule = genesis();
    let good = descriptor(&capsule);
    assert_eq!(validate_recovery_descriptor_v3(&good, &capsule), Ok(()));
    assert_eq!(validate_descriptor(&good, &capsule), Ok(()));

    let mut repeated = good.clone();
    repeated.guardians[7].guardian_index = 1;
    assert_eq!(
        validate_recovery_descriptor_v3(&repeated, &capsule),
        Err(DescriptorError::CapsuleMismatch)
    );
    assert_eq!(validate_descriptor(&repeated, &capsule), Ok(()));

    let mut other_suite = good.clone();
    other_suite.dpss_suite = 9;
    assert_eq!(
        validate_recovery_descriptor_v3(&other_suite, &capsule),
        Err(DescriptorError::CapsuleMismatch)
    );

    let mut short = good.clone();
    short.guardians.pop();
    assert_eq!(validate_descriptor(&short, &capsule), Err(DescriptorError::CapsuleMismatch));

    let mut unreadable = good.clone();
    unreadable.dpss_public_package_digest = None;
    assert_eq!(
        validate_recovery_descriptor_v3(&unreadable, &capsule),
        Err(DescriptorError::UnreadablePackage)
    );
    let mut forged = good;
    forged.dpss_public_package_digest = Some([1; 32]);
    assert_eq!(validate_descriptor(&forged, &capsule), Err(DescriptorError::CapsuleMismatch));
}

fn intent(plan: &RotationPlan) -> RotationIntent {
    RotationIntent {
        context: plan.context.clone(),
        reason: 0,
        old_guardian_count: 8,
        old_guardian_threshold: 5,
        allowed_new_guardian_count: vec![8],
        allowed_new_guardian_threshold: vec![5],
        allowed_dpss_suites: vec![0],
        selection_constraints_commitment: index_digest(4),
        witness_read_qc_hash: [94; 32],
        transcript_hash: plan.intent_hash,
    }
}

fn intent_contribution(intent: &RotationIntent, signer_id: u16) -> SignerRotationIntentContribution {
    SignerRotationIntentContribution {
        context: intent.context.clone(),
        intent_hash: intent.transcript_hash,
        signer_id,
        signer_public_key: [10 + signer_id as u8; 32],
        membership_verified: true,
        signature_verified: true,
    }
}

#[test]
fn an_invalid_intent_contribution_stops_the_rotation() {
    let predecessor = genesis();
    let plan = plan(&predecessor);
    let intent = intent(&plan);
    let hash = intent.transcript_hash;
    assert_eq!(validate_intent_contribution(&intent_contribution(&intent, 1), &intent, &hash), Ok(()));
    let mut contributions = Vec::new();
    assert_eq!(admit_intent_contribution(&mut contributions, None, &intent, &hash, &predecessor), Ok(false));
    assert_eq!(
        admit_intent_contribution(&mut contributions, Some(intent_contribution(&intent, 1)), &intent, &hash, &predecessor),
        Ok(false)
    );
    let mut other_intent = intent_contribution(&intent, 2);
    other_intent.intent_hash = [0; 32];
    assert_eq!(
        admit_intent_contribution(&mut contributions, Some(other_intent), &intent, &hash, &predecessor),
        Err(CoordinatorError::VoteMismatch)
    );
    assert_eq!(contributions.len(), 1);
    assert_eq!(
        admit_intent_contribution(&mut contributions, Some(intent_contribution(&intent, 2)), &intent, &hash, &predecessor),
        Ok(true)
    );
    assert_eq!(
        validate_intent_contribution(&intent_contribution(&intent, 0), &intent, &hash),
        Err(CoordinatorError::ZeroSigner)
    );
    let mut unproven = intent_contribution(&intent, 3);
    unproven.membership_verified = false;
    assert_eq!(
        validate_intent_contribution(&unproven, &intent, &hash),
        Err(CoordinatorError::MembershipNotProven)
    );
}

#[test]
fn fragment_must_be_the_old_committed_record_of_its_guardian() {
    let predecessor = genesis();
    let plan = plan(&predecessor);
    let descriptor = descriptor(&predecessor);
    let route = &descriptor.guardians[1];
    let release_hash = [67; 32];
    let fragment = CiphertextFragmentContribution {
        context: plan.context.clone(),
        plan_hash: plan.transcript_hash,
        release_certificate_hash: release_hash,
        old_guardian_index: route.guardian_index,
        fragment_index: 1,
        fragment_commitment: [68; 32],
        fragment_digest: [68; 32],
        leaf_guardian_index: route.guardian_index,
        leaf_fragment_index: 1,
        leaf_opaque_slot_id: route.opaque_slot_id,
        signature_verified: true,
        inclusion_verified: true,
    };
    assert_eq!(validate_fragment_contribution(&fragment, route, &descriptor, &plan, &release_hash), Ok(()));
    let mut tampered = fragment.clone();
    tampered.fragment_digest = [69; 32];
    assert_eq!(
        validate_fragment_contribution(&tampered, route, &descriptor, &plan, &release_hash),
        Err(CoordinatorError::AckMismatch)
    );
    let mut other_slot = fragment.clone();
    other_slot.leaf_opaque_slot_id = [0; 32];
    assert_eq!(
        validate_fragment_contribution(&other_slot, route, &descriptor, &plan, &release_hash),
        Err(CoordinatorError::AckMismatch)
    );
    let mut stranger_route = route.clone();
    stranger_route.guardian_index = 40;
    let mut stranger = fragment.clone();
    stranger.old_guardian_index = 40;
    stranger.leaf_guardian_index = 40;
    assert_eq!(
        validate_fragment_contribution(&stranger, &stranger_route, &descriptor, &plan, &release_hash),
        Err(CoordinatorError::OutsideDescriptor)
    );
    let mut unproven = fragment;
    unproven.inclusion_verified = false;
    assert_eq!(
        validate_fragment_contribution(&unproven, route, &descriptor, &plan, &release_hash),
        Err(CoordinatorError::InclusionNotProven)
    );
}

fn veto(card: &RecoveryCardV3, k: usize, plan: &RotationPlan, cancel_hash: [u8; 32]) -> WitnessRotationCancelAck {
    WitnessRotationCancelAck {
        protocol_version: PROTOCOL_VERSION_V3,
        config_id: plan.context.config_ref.config_id,
        rotation_id: plan.context.rotation_id,
        plan_hash: plan.transcript_hash,
        cancel_certificate_hash: cancel_hash,
        witness_id: card.witnesses[k].witness_id,
        witness_public_key: card.witnesses[k].public_key,
        signature_verified: true,
    }
}

#[test]
fn counted_witness_vetoes_form_the_cancellation_quorum() {
    let predecessor = genesis();
    let card = card(&predecessor);
    let plan = plan(&predecessor);
    let certificate = OwnerRotationCancelCertificate {
        context: plan.context.clone(),
        plan_hash: plan.transcript_hash,
        cancel_response_recipient_key: vec![7; 1216],
        owner_cancel_public_key: predecessor.owner_cancel_public_key,
        transcript_hash: [71; 32],
        signature_verified: true,
    };
    let cancel_hash = certificate.transcript_hash;
    let mut acks = Vec::new();
    let answers = [
        Some(veto(&card, 0, &plan, cancel_hash)),
        Some(veto(&card, 0, &plan, cancel_hash)),
        Some(veto(&card, 2, &plan, cancel_hash)),
    ];
    let mut reached = false;
    for (k, answer) in answers.into_iter().enumerate() {
        reached = admit_witness_veto(&mut acks, &card, k, answer, &plan, &cancel_hash);
        if reached {
            break;
        }
    }
    // The second pin answered with the first witness's veto: not counted.
    assert!(!reached);
    assert_eq!(acks.iter().map(|a| a.witness_id).collect::<Vec<_>>(), vec![1, 3]);
    assert!(admit_witness_veto(&mut acks, &card, 3, Some(veto(&card, 3, &plan, cancel_hash)), &plan, &cancel_hash));
    assert_eq!(
        validate_owner_rotation_cancel_witness_quorum_v3(&certificate, &acks, &card, &plan, &predecessor, 10),
        Ok([71; 32])
    );
}

#[test]
fn old_guardian_cancellations_leave_the_handoff_threshold_unreachable() {
    let predecessor = genesis();
    let plan = plan(&predecessor);
    assert_eq!(required_old_cancel_acks(&plan), Some(4));
    let mut short = plan.clone();
    short.old_guardian_threshold = 9;
    assert_eq!(required_old_cancel_acks(&short), None);
    let cancel_hash = [71; 32];
    let ack = |k: usize| OwnerRotationCancelAck {
        context: plan.context.clone(),
        plan_hash: plan.transcript_hash,
        cancel_certificate_hash: cancel_hash,
        guardian_index: plan.old_roster[k].guardian_index,
        signature_verified: true,
    };
    let mut acked = Vec::new();
    admit_old_guardian_cancel_ack(&mut acked, &plan, 0, Some(ack(0)), &cancel_hash);
    admit_old_guardian_cancel_ack(&mut acked, &plan, 1, Some(ack(0)), &cancel_hash);
    admit_old_guardian_cancel_ack(&mut acked, &plan, 2, None, &cancel_hash);
    admit_old_guardian_cancel_ack(&mut acked, &plan, 3, Some(ack(3)), &cancel_hash);
    let mut unsigned = ack(4);
    unsigned.signature_verified = false;
    admit_old_guardian_cancel_ack(&mut acked, &plan, 4, Some(unsigned), &cancel_hash);
    admit_old_guardian_cancel_ack(&mut acked, &plan, 5, Some(ack(5)), &cancel_hash);
    admit_old_guardian_cancel_ack(&mut acked, &plan, 6, Some(ack(6)), &cancel_hash);
    assert_eq!(acked, vec![1, 4, 6, 7]);
    assert!(acked.len() >= required_old_cancel_acks(&plan).unwrap());
}

#[test]
fn cancellation_reaches_fresh_successors_and_every_rotation_mailbox_once() {
    let predecessor = genesis();
    let plan = plan(&predecessor);
    let fresh = fresh_successor_positions(&plan);
    assert_eq!(fresh, vec![7]);
    assert_eq!(plan.new_roster[fresh[0]].guardian_index, 9);
    let mut shared = plan.clone();
    shared.new_roster[0].mailbox = shared.old_roster[0].mailbox.clone();
    let mailboxes = rotation_guardian_mailboxes(&shared);
    assert_eq!(mailboxes.len(), 15);
    let mut sorted = mailboxes.clone();
    sorted.sort();
    sorted.dedup();
    assert_eq!(sorted.len(), 15);
    assert_eq!(rotation_guardian_mailboxes(&plan).len(), 16);
}

#[test]
fn release_activate_and_abort_votes_bind_their_step() {
    let predecessor = genesis();
    let plan = plan(&predecessor);
    let release = SignerRotationReleaseVote {
        context: plan.context.clone(),
        plan_hash: plan.transcript_hash,
        begin_certificate_hash: [81; 32],
        signer_id: 2,
        signer_public_key: [12; 32],
        membership_verified: true,
        signature_verified: true,
    };
    assert_eq!(validate_signer_release_vote(&release, &plan, &[81; 32], &predecessor), Ok(()));
    assert_eq!(
        validate_signer_release_vote(&release, &plan, &[82; 32], &predecessor),
        Err(CoordinatorError::VoteMismatch)
    );
    let mut outsider = release.clone();
    outsider.signer_id = 4;
    assert_eq!(
        validate_signer_release_vote(&outsider, &plan, &[81; 32], &predecessor),
        Err(CoordinatorError::SignerOutOfRange)
    );
    let mut unsigned = release;
    unsigned.signature_verified = false;
    assert_eq!(
        validate_signer_release_vote(&unsigned, &plan, &[81; 32], &predecessor),
        Err(CoordinatorError::BadSignature)
    );

    let mut successor = predecessor.clone();
    successor.capsule_hash = [74; 32];
    let activate = SignerRotationActivateVote {
        context: plan.context.clone(),
        plan_hash: plan.transcript_hash,
        ready_certificate_hash: [88; 32],
        successor_capsule_hash: [74; 32],
        signer_id: 1,
        signer_public_key: [11; 32],
        membership_verified: true,
        signature_verified: true,
    };
    assert_eq!(validate_signer_activate_vote(&activate, &plan, &[88; 32], &successor), Ok(()));
    let mut other_successor = successor.clone();
    other_successor.capsule_hash = [75; 32];
    assert_eq!(
        validate_signer_activate_vote(&activate, &plan, &[88; 32], &other_successor),
        Err(CoordinatorError::VoteMismatch)
    );
    let mut zero = activate.clone();
    zero.signer_id = 0;
    assert_eq!(
        validate_signer_activate_vote(&zero, &plan, &[88; 32], &successor),
        Err(CoordinatorError::ZeroSigner)
    );
    let mut unproven = activate;
    unproven.membership_verified = false;
    assert_eq!(
        validate_signer_activate_vote(&unproven, &plan, &[88; 32], &successor),
        Err(CoordinatorError::MembershipNotProven)
    );

    let abort = SignerAbortVote {
        context: plan.context.clone(),
        plan_hash: plan.transcript_hash,
        state_at_abort: RotationState::Preparing,
        reason_code: 7,
        signer_id: 3,
        signer_public_key: [13; 32],
        membership_verified: true,
        signature_verified: true,
    };
    assert_eq!(
        validate_signer_abort_vote(&abort, &plan, &predecessor, RotationState::Preparing, 7),
        Ok(())
    );
    assert_eq!(
        validate_signer_abort_vote(&abort, &plan, &predecessor, RotationState::Ready, 7),
        Err(CoordinatorError::VoteMismatch)
    );
    assert_eq!(
        validate_signer_abort_vote(&abort, &plan, &predecessor, RotationState::Preparing, 8),
        Err(CoordinatorError::VoteMismatch)
    );
    let mut not_canonical = plan.clone();
    not_canonical.canonical = false;
    assert_eq!(
        validate_signer_abort_vote(&abort, &not_canonical, &predecessor, RotationState::Preparing, 7),
        Err(CoordinatorError::PlanNotCanonical)
    );
}

#[test]
fn successors_must_agree_on_one_refresh_result() {
    let result = |package: u8, commitment: u8| RefreshResult {
        public_package: vec![package; 4],
        dpss_result_commitment: [commitment; 32],
    };
    let mut agreed = None;
    assert_eq!(
        require_refresh_result(agreed.clone()).map(|r| r.dpss_result_commitment),
        Err(CoordinatorError::NoRefreshResult)
    );
    assert_eq!(admit_refresh_result(&mut agreed, result(1, 2)), Ok(()));
    assert_eq!(admit_refresh_result(&mut agreed, result(1, 2)), Ok(()));
    assert_eq!(admit_refresh_result(&mut agreed, result(1, 3)), Err(CoordinatorError::RefreshDisagreement));
    assert_eq!(admit_refresh_result(&mut agreed, result(9, 2)), Err(CoordinatorError::RefreshDisagreement));
    let agreed = require_refresh_result(agreed).unwrap();
    assert_eq!(agreed.public_package, vec![1; 4]);
    assert_eq!(agreed.dpss_result_commitment, [2; 32]);
    assert_eq!(check_staged_refresh(&agreed, &result(1, 2)), Ok(()));
    assert_eq!(check_staged_refresh(&agreed, &result(1, 5)), Err(CoordinatorError::StagedResultChanged));
}

fn cancel_certificate(plan: &RotationPlan, predecessor: &ConfigCapsuleV3) -> OwnerRotationCancelCertificate {
    OwnerRotationCancelCertificate {
        context: plan.context.clone(),
        plan_hash: plan.transcript_hash,
        cancel_response_recipient_key: vec![7; 1216],
        owner_cancel_public_key: predecessor.owner_cancel_public_key,
        transcript_hash: [71; 32],
        signature_verified: true,
    }
}

#[test]
fn permanent_cancellation_needs_the_witness_quorum_then_the_old_guardians() {
    let predecessor = genesis();
    let card = card(&predecessor);
    let plan = plan(&predecessor);
    let certificate = cancel_certificate(&plan, &predecessor);
    let cancel_hash = certificate.transcript_hash;
    let (mut run, first) = start_rotation_cancel(certificate, card.clone(), plan.clone(), predecessor).unwrap();
    assert_eq!(first, CancelAction::AskWitness { pin: 0 });
    assert_eq!(run.required_old, 4);
    let steps = [
        (Some(veto(&card, 0, &plan, cancel_hash)), CancelAction::AskWitness { pin: 1 }),
        (Some(veto(&card, 0, &plan, cancel_hash)), CancelAction::AskWitness { pin: 2 }),
        (None, CancelAction::AskWitness { pin: 3 }),
    ];
    for (answer, expected) in steps {
        assert_eq!(rotation_cancel_step(&mut run, CancelEvent::WitnessAnswer(answer), 10), Ok(expected));
    }
    assert_eq!(
        rotation_cancel_step(&mut run, CancelEvent::WitnessAnswer(Some(veto(&card, 3, &plan, cancel_hash))), 10),
        Err(CancelRunError::WitnessQuorumNotReached)
    );
    assert_eq!(run.phase, CancelPhase::Failed);

    let predecessor = genesis();
    let certificate = cancel_certificate(&plan, &predecessor);
    let (mut run, _) = start_rotation_cancel(certificate, card.clone(), plan.clone(), predecessor).unwrap();
    for (k, expected) in [(0usize, CancelAction::AskWitness { pin: 1 }), (1, CancelAction::AskWitness { pin: 2 })] {
        let answer = Some(veto(&card, k, &plan, cancel_hash));
        assert_eq!(rotation_cancel_step(&mut run, CancelEvent::WitnessAnswer(answer), 10), Ok(expected));
    }
    assert_eq!(
        rotation_cancel_step(&mut run, CancelEvent::OldGuardianAnswer(None), 10),
        Err(CancelRunError::OutOfTurn)
    );
    assert_eq!(
        rotation_cancel_step(&mut run, CancelEvent::WitnessAnswer(Some(veto(&card, 2, &plan, cancel_hash))), 10),
        Ok(CancelAction::AskOldGuardian { route: 0 })
    );
    assert_eq!(run.vetoes.len(), 3);
    let ack = |k: usize| OwnerRotationCancelAck {
        context: plan.context.clone(),
        plan_hash: plan.transcript_hash,
        cancel_certificate_hash: cancel_hash,
        guardian_index: plan.old_roster[k].guardian_index,
        signature_verified: true,
    };
    let answers = [Some(ack(0)), Some(ack(0)), None, Some(ack(3)), None, Some(ack(5)), Some(ack(6))];
    for (k, answer) in answers.into_iter().enumerate() {
        assert_eq!(
            rotation_cancel_step(&mut run, CancelEvent::OldGuardianAnswer(answer), 10),
            Ok(CancelAction::AskOldGuardian { route: k + 1 })
        );
    }
    assert_eq!(
        rotation_cancel_step(&mut run, CancelEvent::OldGuardianAnswer(None), 10),
        Ok(CancelAction::Finish)
    );
    assert_eq!(run.phase, CancelPhase::Done);
    assert_eq!(run.old_acks, vec![1, 4, 6, 7]);
    let result = cancel_result(&run, 2);
    assert_eq!(result.witness_acknowledgements, 3);
    assert_eq!(result.required_witness_acknowledgements, 3);
    assert_eq!(result.old_guardian_acknowledgements, 4);
    assert_eq!(result.required_old_guardian_acknowledgements, 4);
    assert_eq!(result.signer_cancel_finalizations, 2);
    assert!(result.permanently_cancelled);
    assert_eq!(result.rotation_id, "5b".repeat(32));
}

#[test]
fn cancellation_fails_when_too_many_old_guardians_stay_silent() {
    let predecessor = genesis();
    let card = card(&predecessor);
    let plan = plan(&predecessor);
    let certificate = cancel_certificate(&plan, &predecessor);
    let cancel_hash = certificate.transcript_hash;
    let (mut run, _) = start_rotation_cancel(certificate, card.clone(), plan.clone(), predecessor).unwrap();
    for k in 0..3 {
        rotation_cancel_step(&mut run, CancelEvent::WitnessAnswer(Some(veto(&card, k, &plan, cancel_hash))), 10).unwrap();
    }
    for _ in 0..7 {
        rotation_cancel_step(&mut run, CancelEvent::OldGuardianAnswer(None), 10).unwrap();
    }
    assert_eq!(
        rotation_cancel_step(&mut run, CancelEvent::OldGuardianAnswer(None), 10),
        Err(CancelRunError::OldThresholdNotLeft)
    );
    let mut no_pins = card.clone();
    no_pins.witnesses.clear();
    let predecessor = genesis();
    assert!(matches!(
        start_rotation_cancel(cancel_certificate(&plan, &predecessor), no_pins, plan.clone(), predecessor),
        Err(CancelRunError::WitnessQuorumNotReached)
    ));
}

fn run_card(predecessor: &ConfigCapsuleV3) -> RecoveryCardV3 {
    let mut card = card(predecessor);
    card.signer_mailboxes = vec!["s-1".into(), "s-2".into(), "s-3".into()];
    card
}

fn refresh(tag: u8) -> RefreshResult {
    RefreshResult { public_package: vec![tag; 4], dpss_result_commitment: [tag; 32] }
}

#[test]
fn rotation_run_activates_only_after_every_step_passes() {
    let predecessor = genesis();
    let card = run_card(&predecessor);
    let plan = plan(&predecessor);
    let (mut run, first) = start_rotation_run(card.clone(), plan.clone(), predecessor.clone());
    assert_eq!(first, Ok(CoordinatorAction::AskSignerBegin { signer: 0 }));
    rotation_coordinator_step(&mut run, CoordinatorEvent::SignerBeginVote(Some(begin_vote(&plan, 1))), 12).unwrap();
    assert_eq!(
        rotation_coordinator_step(&mut run, CoordinatorEvent::SignerBeginVote(Some(begin_vote(&plan, 3))), 12),
        Ok(CoordinatorAction::FormBegin)
    );
    let begin = begin_certificate(&plan, &predecessor);
    assert_eq!(
        rotation_coordinator_step(&mut run, CoordinatorEvent::BeginFormed(begin), 12),
        Ok(CoordinatorAction::SendBegin { successor: 0 })
    );
    for k in 1..8 {
        assert_eq!(
            rotation_coordinator_step(&mut run, CoordinatorEvent::SuccessorAnswered(true), 12),
            Ok(CoordinatorAction::SendBegin { successor: k })
        );
    }
    assert_eq!(rotation_coordinator_step(&mut run, CoordinatorEvent::SuccessorAnswered(true), 12), Ok(CoordinatorAction::Wait));
    assert_eq!(
        rotation_coordinator_step(&mut run, CoordinatorEvent::DelayElapsed, 12),
        Ok(CoordinatorAction::AskSignerRelease { signer: 0 })
    );
    let release_vote = |signer_id: u16| SignerRotationReleaseVote {
        context: plan.context.clone(),
        plan_hash: plan.transcript_hash,
        begin_certificate_hash: [61; 32],
        signer_id,
        signer_public_key: [10 + signer_id as u8; 32],
        membership_verified: true,
        signature_verified: true,
    };
    rotation_coordinator_step(&mut run, CoordinatorEvent::SignerReleaseVote(Some(release_vote(2))), 12).unwrap();
    assert_eq!(
        rotation_coordinator_step(&mut run, CoordinatorEvent::SignerReleaseVote(Some(release_vote(1))), 12),
        Ok(CoordinatorAction::FormRelease)
    );
    let release = RotationReleaseCertificate {
        context: plan.context.clone(),
        plan_hash: plan.transcript_hash,
        begin_certificate_hash: [61; 32],
        votes: release_certificate_votes(&run.release_votes),
        transcript_hash: [62; 32],
        canonical: true,
    };
    assert_eq!(
        rotation_coordinator_step(&mut run, CoordinatorEvent::ReleaseFormed(release), 12),
        Ok(CoordinatorAction::CollectRefresh { successor: 0 })
    );
    let mut split = run.clone();
    rotation_coordinator_step(&mut split, CoordinatorEvent::RefreshReported(refresh(1)), 12).unwrap();
    assert_eq!(
        rotation_coordinator_step(&mut split, CoordinatorEvent::RefreshReported(refresh(2)), 12),
        Err(CoordinatorRunError::Refresh(CoordinatorError::RefreshDisagreement))
    );
    for k in 1..8 {
        assert_eq!(
            rotation_coordinator_step(&mut run, CoordinatorEvent::RefreshReported(refresh(1)), 12),
            Ok(CoordinatorAction::CollectRefresh { successor: k })
        );
    }
    assert_eq!(
        rotation_coordinator_step(&mut run, CoordinatorEvent::RefreshReported(refresh(1)), 12),
        Ok(CoordinatorAction::StageAt { successor: 0 })
    );
    let mut changed = run.clone();
    assert_eq!(
        rotation_coordinator_step(&mut changed, CoordinatorEvent::Staged(refresh(3)), 12),
        Err(CoordinatorRunError::Refresh(CoordinatorError::StagedResultChanged))
    );
    for _ in 1..8 {
        rotation_coordinator_step(&mut run, CoordinatorEvent::Staged(refresh(1)), 12).unwrap();
    }
    assert_eq!(
        rotation_coordinator_step(&mut run, CoordinatorEvent::Staged(refresh(1)), 12),
        Ok(CoordinatorAction::FormReady)
    );
    let successor = successor_capsule(&predecessor, &plan);
    let ready = RotationReadyCertificate {
        context: plan.context.clone(),
        plan_hash: plan.transcript_hash,
        successor: plan.successor,
        dpss_result_commitment: [1; 32],
        guardian_material_root: [35; 32],
        encrypted_descriptor_hash: [36; 32],
        prepared_acks: plan
            .new_roster
            .iter()
            .map(|route| GuardianSignedAck { guardian_index: route.guardian_index, signature_verified: true })
            .collect(),
        old_handoff_acks: (1u16..=5).map(|i| GuardianSignedAck { guardian_index: i, signature_verified: true }).collect(),
        transcript_hash: [63; 32],
        canonical: true,
    };
    let mut copied = ready.clone();
    let first_ack = copied.prepared_acks[0];
    copied.prepared_acks[1] = first_ack;
    let mut refused = run.clone();
    assert_eq!(
        rotation_coordinator_step(
            &mut refused,
            CoordinatorEvent::ReadyFormed { ready: copied, successor: successor.clone() },
            12
        ),
        Err(CoordinatorRunError::Certificate(RotationError::DuplicateGuardianAck))
    );
    assert_eq!(
        rotation_coordinator_step(&mut run, CoordinatorEvent::ReadyFormed { ready, successor: successor.clone() }, 12),
        Ok(CoordinatorAction::AskSignerActivate { signer: 0 })
    );
    let activate_vote = |signer_id: u16| SignerRotationActivateVote {
        context: plan.context.clone(),
        plan_hash: plan.transcript_hash,
        ready_certificate_hash: [63; 32],
        successor_capsule_hash: successor.capsule_hash,
        signer_id,
        signer_public_key: [10 + signer_id as u8; 32],
        membership_verified: true,
        signature_verified: true,
    };
    rotation_coordinator_step(&mut run, CoordinatorEvent::SignerActivateVote(Some(activate_vote(2))), 12).unwrap();
    assert_eq!(
        rotation_coordinator_step(&mut run, CoordinatorEvent::SignerActivateVote(Some(activate_vote(3))), 12),
        Ok(CoordinatorAction::FormActivate)
    );
    assert_eq!(
        rotation_coordinator_step(&mut run, CoordinatorEvent::ActivateFormed([64; 32]), 12),
        Ok(CoordinatorAction::AskWitness { pin: 0 })
    );
    for k in 0..2 {
        let ack = activation_ack(&card.witnesses[k], &plan.context, plan.transcript_hash, [64; 32], &predecessor, &successor);
        assert_eq!(
            rotation_coordinator_step(&mut run, CoordinatorEvent::WitnessAck(Some(ack)), 12),
            Ok(CoordinatorAction::AskWitness { pin: k + 1 })
        );
    }
    let ack = activation_ack(&card.witnesses[2], &plan.context, plan.transcript_hash, [64; 32], &predecessor, &successor);
    assert_eq!(
        rotation_coordinator_step(&mut run, CoordinatorEvent::WitnessAck(Some(ack)), 12),
        Ok(CoordinatorAction::ActivateAt { successor: 0 })
    );
    let mut balked = run.clone();
    assert_eq!(
        rotation_coordinator_step(&mut balked, CoordinatorEvent::SuccessorAnswered(false), 12),
        Err(CoordinatorRunError::SuccessorRefused)
    );
    for _ in 1..8 {
        rotation_coordinator_step(&mut run, CoordinatorEvent::SuccessorAnswered(true), 12).unwrap();
    }
    assert_eq!(
        rotation_coordinator_step(&mut run, CoordinatorEvent::SuccessorAnswered(true), 12),
        Ok(CoordinatorAction::Finish)
    );
    assert_eq!(run.phase, CoordinatorPhase::Done);
    let result = rotation_result(&run);
    assert_eq!(result.successor_epoch, result.predecessor_epoch + 1);
    assert_eq!(result.predecessor_epoch, predecessor.config_ref.guardian_epoch);
    assert_eq!(result.removed_guardian, 4);
    assert_eq!(result.added_guardian, 9);
    assert_eq!(result.prepared_guardians, 8);
    assert_eq!(result.witness_acknowledgements, 3);
    assert_eq!(result.plaintext_decryptions, 0);
    assert_eq!(result.config_id, hex_of(&card.config_id));
}

fn hex_of(bytes: &[u8]) -> String {
    bytes.iter().map(|b| format!("{b:02x}")).collect()
}
