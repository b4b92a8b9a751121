use gp_network::node::PROTOCOL_VERSION;
use gp_network::protocol_v2::{
    validate_begin_for_policy, validate_capsule, validate_guardian_contribution, validate_request,
    validate_signer_request, BeginRecoveryCertificate, ConfigCapsule, GuardianContribution,
    GuardianPolicy, GuardianRoute, ProtocolError, RecoveryCard, RecoveryRequest, SignerContribution,
    SignerPolicy, DEFAULT_CRYPTO_SUITE,
};
use gp_network::protocol_v2::{OwnerCancelAck, OwnerCancelCertificate, SetupPolicy};
use gp_network::setup_bundle::{assemble_setup_bundle, SetupMaterial, MAX_REQUEST_LIFETIME_SECS};
use gp_network::quorum::{required_witness_quorum, required_witness_roster};
use gp_network::recovery_client_v2::{
    recovery_client_step_v2, recovery_result_v2, start_recovery_client_v2, RaceAnswer, RecoveryActionV2, RecoveryEventV2,
    RecoveryPhaseV2, RecoveryRunErrorV2,
};

fn card() -> RecoveryCard {
    RecoveryCard {
        config_id: [1; 32],
        capsule_locator: "http://config-store/v1/configs/01".into(),
        signer_mailboxes: vec!["s-1".into(), "s-2".into(), "s-3".into()],
        signer_set_commitment: [2; 32],
        owner_cancel_public_key: [33; 32],
    }
}

fn capsule() -> ConfigCapsule {
    ConfigCapsule {
        protocol_version: PROTOCOL_VERSION,
        crypto_suite: DEFAULT_CRYPTO_SUITE,
        config_id: [1; 32],
        config_version: 1,
        signer_set_commitment: [2; 32],
        owner_cancel_public_key: [33; 32],
        signer_count: 3,
        signer_threshold: 2,
        guardian_count: 8,
        guardian_threshold: 5,
        max_request_lifetime: 90,
    }
}

fn request() -> RecoveryRequest {
    RecoveryRequest {
        protocol_version: PROTOCOL_VERSION,
        crypto_suite: DEFAULT_CRYPTO_SUITE,
        config_id: [1; 32],
        config_version: 1,
        request_id: [7; 32],
        recovery_recipient_key: vec![42; 1216],
        requested_at: 10,
        nonce: [8; 32],
        expiry: 100,
        digest: [70; 32],
    }
}

fn policy() -> GuardianPolicy {
    GuardianPolicy {
        config_id: [1; 32],
        config_version: 1,
        signer_set_commitment: [2; 32],
        signer_count: 3,
        signer_threshold: 2,
        owner_cancel_public_key: [33; 32],
        minimum_recovery_delay: 5,
    }
}

fn signer_contribution(request: &RecoveryRequest, signer_id: u16) -> SignerContribution {
    SignerContribution {
        request: request.clone(),
        signer_id,
        signer_public_key: [signer_id as u8; 32],
        membership_verified: true,
        signature_verified: true,
    }
}

#[test]
fn witness_quorum_and_roster_sizes_follow_the_fault_bound() {
    assert_eq!(required_witness_quorum(0), Ok(1));
    assert_eq!(required_witness_quorum(1), Ok(3));
    assert_eq!(required_witness_quorum(2), Ok(5));
    assert_eq!(required_witness_roster(1), Ok(4));
    assert_eq!(required_witness_roster(2), Ok(7));
    assert_eq!(required_witness_quorum(u16::MAX), Ok(2 * 65535 + 1));
    assert_eq!(required_witness_roster(u16::MAX), Ok(3 * 65535 + 1));
}

#[test]
fn v2_capsule_must_match_the_card_and_have_sane_thresholds() {
    assert_eq!(validate_capsule(&card(), &capsule()), Ok(()));
    let mut other_config = capsule();
    other_config.config_id = [9; 32];
    assert_eq!(validate_capsule(&card(), &other_config), Err(ProtocolError::CapsuleMismatch));
    let mut other_owner = capsule();
    other_owner.owner_cancel_public_key = [9; 32];
    assert_eq!(validate_capsule(&card(), &other_owner), Err(ProtocolError::CapsuleMismatch));
    let mut too_high = capsule();
    too_high.guardian_threshold = 9;
    assert_eq!(validate_capsule(&card(), &too_high), Err(ProtocolError::CapsuleMismatch));
    let mut zero = capsule();
    zero.signer_threshold = 0;
    assert_eq!(validate_capsule(&card(), &zero), Err(ProtocolError::CapsuleMismatch));
    let mut suite = capsule();
    suite.crypto_suite = DEFAULT_CRYPTO_SUITE + 1;
    assert_eq!(validate_capsule(&card(), &suite), Err(ProtocolError::CapsuleMismatch));
}

#[test]
fn v2_request_is_current_bounded_and_for_the_capsule() {
    let capsule = capsule();
    assert_eq!(validate_request(&request(), &capsule, 10), Ok(()));
    assert_eq!(validate_request(&request(), &capsule, 99), Ok(()));
    assert_eq!(validate_request(&request(), &capsule, 100), Err(ProtocolError::InvalidRequest));
    assert_eq!(validate_request(&request(), &capsule, 9), Err(ProtocolError::InvalidRequest));
    let mut long_lived = request();
    long_lived.expiry = 101;
    assert_eq!(validate_request(&long_lived, &capsule, 50), Err(ProtocolError::InvalidRequest));
    let mut short_key = request();
    short_key.recovery_recipient_key = vec![42; 32];
    assert_eq!(validate_request(&short_key, &capsule, 50), Err(ProtocolError::InvalidRequest));

    let signer = SignerPolicy { config_id: [1; 32], config_version: 1 };
    assert_eq!(validate_signer_request(&signer, &request(), 50), Ok(()));
    // a signer does not bound the lifetime
    assert_eq!(validate_signer_request(&signer, &long_lived, 50), Ok(()));
    let newer = SignerPolicy { config_id: [1; 32], config_version: 2 };
    assert_eq!(validate_signer_request(&newer, &request(), 50), Err(ProtocolError::InvalidRequest));
}

#[test]
fn v2_begin_needs_distinct_proven_signers_bound_to_the_request() {
    let request = request();
    let policy = policy();
    let begin = |ids: &[u16]| BeginRecoveryCertificate {
        request: request.clone(),
        signer_contributions: ids.iter().map(|id| signer_contribution(&request, *id)).collect(),
    };
    assert_eq!(validate_begin_for_policy(&begin(&[1, 3]), &policy, 20), Ok(()));
    assert_eq!(
        validate_begin_for_policy(&begin(&[2]), &policy, 20),
        Err(ProtocolError::SignerThresholdNotReached)
    );
    assert_eq!(
        validate_begin_for_policy(&begin(&[2, 2]), &policy, 20),
        Err(ProtocolError::InvalidSignerApproval)
    );
    assert_eq!(
        validate_begin_for_policy(&begin(&[1, 4]), &policy, 20),
        Err(ProtocolError::InvalidSignerApproval)
    );
    assert_eq!(
        validate_begin_for_policy(&begin(&[0, 1]), &policy, 20),
        Err(ProtocolError::InvalidSignerApproval)
    );
    let mut unproven = begin(&[1, 2]);
    unproven.signer_contributions[1].membership_verified = false;
    assert_eq!(validate_begin_for_policy(&unproven, &policy, 20), Err(ProtocolError::InvalidSignerApproval));
    let mut foreign = begin(&[1, 2]);
    foreign.signer_contributions[0].request.nonce = [9; 32];
    assert_eq!(validate_begin_for_policy(&foreign, &policy, 20), Err(ProtocolError::InvalidSignerApproval));
    assert_eq!(
        validate_begin_for_policy(&begin(&[1, 2]), &policy, 100),
        Err(ProtocolError::InvalidRequest)
    );
}

#[test]
fn v2_guardian_contribution_binds_request_and_route() {
    let request = request();
    let route = GuardianRoute { guardian_index: 3, guardian_public_key: [13; 32] };
    let good = GuardianContribution {
        protocol_version: PROTOCOL_VERSION,
        config_id: request.config_id,
        config_version: request.config_version,
        request_id: request.request_id,
        request_digest: request.digest,
        guardian_index: 3,
        ciphertext_fragment: vec![1, 2, 3],
        signature_verified: true,
        inclusion_verified: true,
    };
    assert_eq!(validate_guardian_contribution(&good, &route, &request), Ok(()));
    let mut other_guardian = good.clone();
    other_guardian.guardian_index = 4;
    assert_eq!(
        validate_guardian_contribution(&other_guardian, &route, &request),
        Err(ProtocolError::InvalidGuardianEvidence)
    );
    let mut not_included = good.clone();
    not_included.inclusion_verified = false;
    assert_eq!(
        validate_guardian_contribution(&not_included, &route, &request),
        Err(ProtocolError::InvalidGuardianEvidence)
    );
    let mut other_digest = good;
    other_digest.request_digest = [0; 32];
    assert_eq!(
        validate_guardian_contribution(&other_digest, &route, &request),
        Err(ProtocolError::InvalidGuardianEvidence)
    );
}

fn routes() -> Vec<GuardianRoute> {
    (1u16..=8).map(|i| GuardianRoute { guardian_index: i, guardian_public_key: [i as u8; 32] }).collect()
}

fn contribution_from(request: &RecoveryRequest, guardian_index: u16) -> GuardianContribution {
    GuardianContribution {
        protocol_version: PROTOCOL_VERSION,
        config_id: request.config_id,
        config_version: request.config_version,
        request_id: request.request_id,
        request_digest: request.digest,
        guardian_index,
        ciphertext_fragment: vec![guardian_index as u8],
        signature_verified: true,
        inclusion_verified: true,
    }
}

fn through_begin(cancel_before_release: bool) -> gp_network::recovery_client_v2::RecoveryClientV2 {
    let (mut run, first) = start_recovery_client_v2(card(), 2, 3, cancel_before_release);
    assert_eq!(first, Ok(RecoveryActionV2::FetchCapsule { locator: 0 }));
    let mut foreign = capsule();
    foreign.config_id = [9; 32];
    assert_eq!(
        recovery_client_step_v2(&mut run, RecoveryEventV2::CapsuleFetched(Some(foreign)), 20),
        Ok(RecoveryActionV2::FetchCapsule { locator: 1 })
    );
    assert_eq!(
        recovery_client_step_v2(&mut run, RecoveryEventV2::CapsuleFetched(Some(capsule())), 20),
        Ok(RecoveryActionV2::IssueRequest)
    );
    assert_eq!(
        recovery_client_step_v2(&mut run, RecoveryEventV2::RequestIssued(request()), 20),
        Ok(RecoveryActionV2::AskSignerApproval { signer: 0 })
    );
    recovery_client_step_v2(&mut run, RecoveryEventV2::SignerAnswered(true), 20).unwrap();
    assert_eq!(
        recovery_client_step_v2(&mut run, RecoveryEventV2::SignerAnswered(true), 20),
        Ok(RecoveryActionV2::OpenDescriptor)
    );
    assert_eq!(
        recovery_client_step_v2(&mut run, RecoveryEventV2::DescriptorOpened(routes()), 20),
        Ok(RecoveryActionV2::SendBegin { route: 0 })
    );
    for route in 1..8 {
        recovery_client_step_v2(&mut run, RecoveryEventV2::GuardianBegin(route != 3), 20).unwrap();
    }
    run
}

#[test]
fn v2_run_reconstructs_after_both_thresholds() {
    let mut run = through_begin(false);
    assert_eq!(recovery_client_step_v2(&mut run, RecoveryEventV2::GuardianBegin(true), 20), Ok(RecoveryActionV2::Wait));
    assert_eq!(
        recovery_client_step_v2(&mut run, RecoveryEventV2::DelayElapsed, 40),
        Ok(RecoveryActionV2::AskSignerRelease { signer: 0 })
    );
    recovery_client_step_v2(&mut run, RecoveryEventV2::SignerAnswered(false), 40).unwrap();
    recovery_client_step_v2(&mut run, RecoveryEventV2::SignerAnswered(true), 40).unwrap();
    assert_eq!(
        recovery_client_step_v2(&mut run, RecoveryEventV2::SignerAnswered(true), 40),
        Ok(RecoveryActionV2::SendRelease { route: 0 })
    );
    let request = request();
    let mut forged = contribution_from(&request, 1);
    forged.signature_verified = false;
    recovery_client_step_v2(&mut run, RecoveryEventV2::GuardianReleased(Some(forged)), 41).unwrap();
    for index in 2..=5u16 {
        recovery_client_step_v2(&mut run, RecoveryEventV2::GuardianReleased(Some(contribution_from(&request, index))), 41)
            .unwrap();
    }
    assert_eq!(
        recovery_client_step_v2(&mut run, RecoveryEventV2::GuardianReleased(Some(contribution_from(&request, 6))), 41),
        Ok(RecoveryActionV2::Reconstruct)
    );
    assert_eq!(run.counted, vec![2, 3, 4, 5, 6]);
    assert_eq!(run.rejected, vec![1]);
    let result = recovery_result_v2(&run, Some("secret".to_string()));
    assert_eq!((result.signer_contributions, result.guardian_contributions), (2, 5));
    assert_eq!(result.rejected_guardians, vec![1]);
    assert!(!result.cancelled);
    assert_eq!(result.config_id, "01".repeat(32));
}

#[test]
fn v2_run_stops_short_of_begin_threshold_and_on_a_bad_request() {
    let mut run = through_begin(false);
    let mut short = run.clone();
    short.begin_accepted = 3;
    assert_eq!(
        recovery_client_step_v2(&mut short, RecoveryEventV2::GuardianBegin(true), 20),
        Err(RecoveryRunErrorV2::GuardianBeginThresholdNotReached)
    );
    assert_eq!(
        recovery_client_step_v2(&mut run, RecoveryEventV2::DelayElapsed, 20),
        Err(RecoveryRunErrorV2::OutOfTurn)
    );
    let (mut stale, _) = start_recovery_client_v2(card(), 1, 3, false);
    recovery_client_step_v2(&mut stale, RecoveryEventV2::CapsuleFetched(Some(capsule())), 200).unwrap();
    assert_eq!(
        recovery_client_step_v2(&mut stale, RecoveryEventV2::RequestIssued(request()), 200),
        Err(RecoveryRunErrorV2::InvalidRequest)
    );
    let (mut none, _) = start_recovery_client_v2(card(), 1, 3, false);
    assert_eq!(
        recovery_client_step_v2(&mut none, RecoveryEventV2::CapsuleFetched(None), 20),
        Err(RecoveryRunErrorV2::NoCapsule)
    );
}

#[test]
fn v2_cancellation_race_ends_cancelled_only_on_a_refusal() {
    let mut run = through_begin(true);
    assert_eq!(
        recovery_client_step_v2(&mut run, RecoveryEventV2::GuardianBegin(true), 20),
        Ok(RecoveryActionV2::AskSignerRelease { signer: 0 })
    );
    recovery_client_step_v2(&mut run, RecoveryEventV2::SignerAnswered(true), 20).unwrap();
    assert_eq!(
        recovery_client_step_v2(&mut run, RecoveryEventV2::SignerAnswered(true), 20),
        Ok(RecoveryActionV2::IssueCancel)
    );
    let request = request();
    let certificate = OwnerCancelCertificate {
        protocol_version: PROTOCOL_VERSION,
        config_id: request.config_id,
        config_version: request.config_version,
        request_id: request.request_id,
        request_digest: request.digest,
        recovery_recipient_key: request.recovery_recipient_key.clone(),
        cancel_response_recipient_key: vec![5; 1216],
        reason_code: 1,
        nonce: [6; 32],
        issued_at: 21,
        owner_cancel_public_key: [33; 32],
        transcript_hash: [44; 32],
        signature_verified: true,
    };
    assert_eq!(
        recovery_client_step_v2(&mut run, RecoveryEventV2::CancelIssued(certificate), 21),
        Ok(RecoveryActionV2::SendCancel { route: 0 })
    );
    let ack = |index: u16| OwnerCancelAck {
        protocol_version: PROTOCOL_VERSION,
        config_id: request.config_id,
        config_version: request.config_version,
        request_id: request.request_id,
        request_digest: request.digest,
        owner_cancel_transcript_digest: [44; 32],
        guardian_index: index,
        signature_verified: true,
    };
    let mut racer = run.clone();
    for route in 0..8u16 {
        let answer = if route < 3 { Some(ack(route + 1)) } else { None };
        recovery_client_step_v2(&mut racer, RecoveryEventV2::CancelAcked(answer), 21).ok();
    }
    assert_eq!(racer.phase, RecoveryPhaseV2::Failed);
    for route in 0..7u16 {
        recovery_client_step_v2(&mut run, RecoveryEventV2::CancelAcked(Some(ack(route + 1))), 21).unwrap();
    }
    assert_eq!(recovery_client_step_v2(&mut run, RecoveryEventV2::CancelAcked(None), 21), Ok(RecoveryActionV2::Wait));
    assert_eq!(run.cancel_acks.len(), 7);
    assert_eq!(
        recovery_client_step_v2(&mut run, RecoveryEventV2::DelayElapsed, 40),
        Ok(RecoveryActionV2::SendRaceRelease { route: 0 })
    );
    let mut released = run.clone();
    assert_eq!(
        recovery_client_step_v2(&mut released, RecoveryEventV2::RaceAnswered(RaceAnswer::Released), 40),
        Err(RecoveryRunErrorV2::CancelledGuardianReleased)
    );
    recovery_client_step_v2(&mut run, RecoveryEventV2::RaceAnswered(RaceAnswer::Other), 40).unwrap();
    assert_eq!(
        recovery_client_step_v2(&mut run, RecoveryEventV2::RaceAnswered(RaceAnswer::RefusedCancelled), 40),
        Ok(RecoveryActionV2::ReportCancelled)
    );
    assert_eq!(run.phase, RecoveryPhaseV2::Cancelled);
    let result = recovery_result_v2(&run, Some("ignored".to_string()));
    assert!(result.cancelled);
    assert_eq!(result.recovered_secret, None);
    assert_eq!(result.guardian_contributions, 0);
}

#[test]
fn setup_bundle_numbers_actors_and_matches_its_card() {
    let policy = SetupPolicy {
        signer_count: 2,
        signer_threshold: 2,
        guardian_count: 3,
        guardian_threshold: 2,
        minimum_recovery_delay: 30,
    };
    let signers = vec!["sig-a".to_string(), "sig-b".to_string()];
    let guardians = vec!["g-a".to_string(), "g-b".to_string(), "g-c".to_string()];
    let material = SetupMaterial {
        config_id: [1; 32],
        owner_cancel_public_key: [33; 32],
        signer_set_commitment: [2; 32],
        guardian_public_keys: vec![[11; 32], [12; 32], [13; 32]],
    };
    let bundle = assemble_setup_bundle(&policy, &signers, &guardians, "http://config-store//", material.clone()).unwrap();
    assert_eq!(bundle.capsule.max_request_lifetime, MAX_REQUEST_LIFETIME_SECS);
    assert_eq!(MAX_REQUEST_LIFETIME_SECS, 7 * 24 * 60 * 60);
    assert_eq!(bundle.capsule.config_version, 1);
    assert_eq!(bundle.card.capsule_locator, format!("http://config-store/v1/configs/{}", "01".repeat(32)));
    assert_eq!(bundle.card.signer_mailboxes, signers);
    assert_eq!(validate_capsule(&bundle.card, &bundle.capsule), Ok(()));
    assert_eq!(bundle.signers.iter().map(|s| s.signer_id).collect::<Vec<_>>(), vec![1, 2]);
    assert_eq!(bundle.signers[1].mailbox, "sig-b");
    assert_eq!(bundle.guardians.iter().map(|g| g.route.guardian_index).collect::<Vec<_>>(), vec![1, 2, 3]);
    assert_eq!(bundle.guardians[2].route.guardian_public_key, [13; 32]);
    assert_eq!(bundle.guardians[0].policy.minimum_recovery_delay, 30);
    let mut short = material.clone();
    short.guardian_public_keys.pop();
    assert!(matches!(
        assemble_setup_bundle(&policy, &signers, &guardians, "http://config-store", short),
        Err(ProtocolError::InvalidSetupPolicy)
    ));
    let mut zero = policy;
    zero.guardian_threshold = 0;
    assert!(matches!(
        assemble_setup_bundle(&zero, &signers, &guardians, "http://config-store", material),
        Err(ProtocolError::InvalidSetupPolicy)
    ));
}

#[test]
fn distributed_setup_bundle_keeps_guardian_roster_off_recovery_card() {
    let policy = SetupPolicy {
        signer_count: 3,
        signer_threshold: 2,
        guardian_count: 5,
        guardian_threshold: 3,
        minimum_recovery_delay: 5,
    };
    let signers: Vec<String> =
        (1..=3).map(|i| format!("http://relay/v1/mailboxes/signer-opaque-{i:032}")).collect();
    let guardians: Vec<String> =
        (1..=5).map(|i| format!("http://relay/v1/mailboxes/guardian-opaque-{i:030}")).collect();
    let material = SetupMaterial {
        config_id: [7; 32],
        owner_cancel_public_key: [8; 32],
        signer_set_commitment: [9; 32],
        guardian_public_keys: (1..=5u8).map(|i| [i; 32]).collect(),
    };
    let bundle = assemble_setup_bundle(&policy, &signers, &guardians, "http://config-store", material).unwrap();
    assert_eq!(bundle.card.signer_mailboxes.len(), 3);
    assert_eq!(bundle.guardians.len(), 5);
    assert!(bundle.guardians.iter().all(|g| g.policy.signer_count == 3));
    assert!(bundle.guardians.iter().all(|g| g.policy.owner_cancel_public_key == bundle.capsule.owner_cancel_public_key));
    let card_text = format!("{:?}", bundle.card);
    assert!(!card_text.contains("guardian"));
    assert!(!card_text.contains("signing_seed"));
}
