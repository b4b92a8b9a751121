use gp_network::model::{
    ConfigCapsuleV3, ConfigRef, EpochActivationQc, EpochReadChallenge, RotationActivateCertificate,
    RotationContext, SignerActivateVote, WitnessActivationAck, PROTOCOL_VERSION_V3,
};
use gp_network::node::{node_info, node_info_v3, wall_now, NodeRole, PROTOCOL_VERSION};
use gp_network::protocol_v2::{
    validate_owner_cancel_ack, validate_owner_cancel_for_policy, validate_release_for_policy,
    validate_setup_policy, GuardianPolicy, GuardianRoute, OwnerCancelAck, OwnerCancelCertificate,
    ProtocolError, RecoveryRequest, ReleaseCertificate, ReleaseVote, SetupPolicy, DEFAULT_CRYPTO_SUITE,
};
use gp_network::recovery::{
    handle_guardian_recovery_v3, pending_old_recovery_ids, BeginRecoveryCertificateV3,
    DrainingEpochV3, GuardianRecordV3, GuardianRecoveryDecisionV3, GuardianRecoveryRequestV3,
    GuardianRecoveryStateV3, OwnerRecoveryCancelCertificateV3, RecoveryError, RecoveryRequestV3,
    RecoveryReleaseCertificateV3, SignerRecoveryApprovalV3, guardian_recovery_response_key,
    signer_recovery_response_key, SignerRecoveryRequestV3, record_for_request,
    validate_begin_recovery_certificate_v3, validate_owner_recovery_cancel_for_ref_v3,
    validate_recovery_release_certificate_for_ref_v3, validate_recovery_request_for_ref_v3,
};
use gp_network::relay::{relay_forward_url, relay_key, relay_register, ForwardPath, RelayDisk, RelayError, RouteRegistration};
use gp_network::text::mailbox_id;
use gp_network::witness::{
    witness_activate, witness_cancel_rotation, witness_finalize, witness_provision, witness_read,
    witness_sign_pending_ack, OwnerRotationCancelCertificate, SignerPin, WitnessConfigProvision,
    WitnessDisk, WitnessError, WitnessKeyPin,
};

fn config_ref(epoch: u64) -> ConfigRef {
    ConfigRef {
        config_id: [4; 32],
        payload_generation: 1,
        authorization_epoch: 1,
        guardian_epoch: epoch,
        epoch_binding: [epoch as u8; 32],
    }
}

fn capsule(epoch: u64, hash: u8, predecessor: [u8; 32]) -> ConfigCapsuleV3 {
    ConfigCapsuleV3 {
        protocol_version: PROTOCOL_VERSION_V3,
        config_ref: config_ref(epoch),
        capsule_hash: [hash; 32],
        predecessor_capsule_hash: predecessor,
        signer_count: 3,
        signer_threshold: 2,
        guardian_count: 3,
        guardian_threshold: 2,
        minimum_recovery_delay: 10,
        max_request_lifetime: 100,
        signer_set_commitment: [3; 32],
        owner_cancel_public_key: [6; 32],
        dpss_suite: 0,
        dpss_public_commitment: [7; 32],
        guardian_material_root: [8; 32],
        body_hash: [hash; 32],
        activation_certificate: None,
        activation_qc: None,
    }
}

fn request(id: u8, nonce: u8, epoch: u64) -> RecoveryRequestV3 {
    RecoveryRequestV3 {
        protocol_version: PROTOCOL_VERSION_V3,
        config_ref: config_ref(epoch),
        request_id: [id; 32],
        recovery_recipient_key: vec![15; 1216],
        requested_at: 20,
        nonce: [nonce; 32],
        expiry: 80,
        digest: [id.wrapping_add(100); 32],
    }
}

fn approvals(request: &RecoveryRequestV3, count: u16) -> Vec<SignerRecoveryApprovalV3> {
    (1..=count)
        .map(|signer_id| SignerRecoveryApprovalV3 {
            request: request.clone(),
            signer_id,
            signer_public_key: [signer_id as u8; 32],
            membership_verified: true,
            signature_verified: true,
        })
        .collect()
}

fn begin(request: &RecoveryRequestV3) -> GuardianRecoveryRequestV3 {
    GuardianRecoveryRequestV3::Begin {
        certificate: BeginRecoveryCertificateV3 {
            request: request.clone(),
            request_digest: request.digest,
            signer_contributions: approvals(request, 2),
            canonical: true,
        },
    }
}

fn release(request: &RecoveryRequestV3) -> GuardianRecoveryRequestV3 {
    GuardianRecoveryRequestV3::Release {
        request: request.clone(),
        certificate: RecoveryReleaseCertificateV3 {
            request: request.clone(),
            request_digest: request.digest,
            votes: approvals(request, 2),
            canonical: true,
        },
    }
}

fn cancel(request: &RecoveryRequestV3) -> GuardianRecoveryRequestV3 {
    GuardianRecoveryRequestV3::Cancel {
        request: request.clone(),
        certificate: OwnerRecoveryCancelCertificateV3 {
            request: request.clone(),
            request_digest: request.digest,
            cancel_response_recipient_key: vec![0xCA; 1216],
            owner_cancel_public_key: [6; 32],
            signature_verified: true,
        },
    }
}

fn record(epoch: u64) -> GuardianRecordV3 {
    GuardianRecordV3 {
        config_ref: config_ref(epoch),
        minimum_recovery_delay: 10,
        guardian_index: 2,
        fragment_index: 2,
    }
}

fn guardian() -> GuardianRecoveryStateV3 {
    GuardianRecoveryStateV3 {
        predecessor_capsule: capsule(1, 9, [0; 32]),
        active: Some(record(1)),
        draining: vec![],
        tombstones: vec![],
        recoveries: vec![],
    }
}

#[test]
fn guardian_releases_only_after_the_delay_on_the_same_boot() {
    let mut state = guardian();
    let req = request(1, 2, 1);
    let accepted = handle_guardian_recovery_v3(&mut state, begin(&req), 21, 1000, "boot-a", false).unwrap();
    assert!(matches!(accepted, GuardianRecoveryDecisionV3::BeginAccepted { not_before_monotonic: 1010 }));
    assert_eq!(
        handle_guardian_recovery_v3(&mut state, release(&req), 22, 1009, "boot-a", false).unwrap_err(),
        RecoveryError::DelayIncomplete
    );
    assert_eq!(
        handle_guardian_recovery_v3(&mut state, release(&req), 22, 1010, "boot-b", false).unwrap_err(),
        RecoveryError::DelayIncomplete
    );
    let released = handle_guardian_recovery_v3(&mut state, release(&req), 22, 1010, "boot-a", false).unwrap();
    match released {
        GuardianRecoveryDecisionV3::Release { record, request_digest } => {
            assert_eq!(record.guardian_index, 2);
            assert_eq!(request_digest, req.digest);
        }
        other => panic!("expected release, got {other:?}"),
    }
    assert!(state.recoveries[0].released);
    assert_eq!(
        handle_guardian_recovery_v3(&mut state, release(&req), 23, 1011, "boot-a", false).unwrap_err(),
        RecoveryError::CancelledOrReplayed
    );
}

#[test]
fn insecure_demo_delay_is_capped_at_two_seconds() {
    let mut state = guardian();
    let req = request(1, 2, 1);
    let accepted = handle_guardian_recovery_v3(&mut state, begin(&req), 21, 1000, "boot-a", true).unwrap();
    assert!(matches!(accepted, GuardianRecoveryDecisionV3::BeginAccepted { not_before_monotonic: 1002 }));
}

#[test]
fn owner_cancellation_before_release_is_permanent() {
    let mut state = guardian();
    let req = request(1, 2, 1);
    handle_guardian_recovery_v3(&mut state, begin(&req), 21, 1000, "boot-a", false).unwrap();
    let cancelled = handle_guardian_recovery_v3(&mut state, cancel(&req), 22, 1001, "boot-a", false).unwrap();
    assert!(matches!(
        cancelled,
        GuardianRecoveryDecisionV3::Cancelled { guardian_index: 2, .. }
    ));
    assert_eq!(state.tombstones.len(), 1);
    assert_eq!(
        handle_guardian_recovery_v3(&mut state, release(&req), 22, 2000, "boot-a", false).unwrap_err(),
        RecoveryError::CancelledOrReplayed
    );
    assert_eq!(
        handle_guardian_recovery_v3(&mut state, begin(&req), 23, 2000, "boot-a", false).unwrap_err(),
        RecoveryError::PermanentlyCancelled
    );
}

#[test]
fn cancellation_is_refused_after_release() {
    let mut state = guardian();
    let req = request(1, 2, 1);
    handle_guardian_recovery_v3(&mut state, begin(&req), 21, 1000, "boot-a", false).unwrap();
    handle_guardian_recovery_v3(&mut state, release(&req), 22, 1010, "boot-a", false).unwrap();
    assert_eq!(
        handle_guardian_recovery_v3(&mut state, cancel(&req), 23, 1011, "boot-a", false).unwrap_err(),
        RecoveryError::CancelAfterRelease
    );
}

#[test]
fn request_ids_and_nonces_are_bound_once() {
    let mut state = guardian();
    let req = request(1, 2, 1);
    handle_guardian_recovery_v3(&mut state, begin(&req), 21, 1000, "boot-a", false).unwrap();
    let again = handle_guardian_recovery_v3(&mut state, begin(&req), 22, 1005, "boot-a", false).unwrap();
    assert!(matches!(again, GuardianRecoveryDecisionV3::BeginAccepted { not_before_monotonic: 1010 }));
    let mut rebound = req.clone();
    rebound.digest = [200; 32];
    assert_eq!(
        handle_guardian_recovery_v3(&mut state, begin(&rebound), 22, 1005, "boot-a", false).unwrap_err(),
        RecoveryError::RequestIdLocked
    );
    let replayed_nonce = request(3, 2, 1);
    assert_eq!(
        handle_guardian_recovery_v3(&mut state, begin(&replayed_nonce), 22, 1005, "boot-a", false).unwrap_err(),
        RecoveryError::NonceReplayed
    );
}

#[test]
fn guardian_refuses_malformed_and_unauthorised_begins() {
    let mut state = guardian();
    let mut short_key = request(1, 2, 1);
    short_key.recovery_recipient_key = vec![1; 32];
    assert_eq!(
        handle_guardian_recovery_v3(&mut state, begin(&short_key), 21, 1000, "b", false).unwrap_err(),
        RecoveryError::MalformedRequest
    );
    let req = request(1, 2, 1);
    let thin = GuardianRecoveryRequestV3::Begin {
        certificate: BeginRecoveryCertificateV3 {
            request: req.clone(),
            request_digest: req.digest,
            signer_contributions: approvals(&req, 1),
            canonical: true,
        },
    };
    assert_eq!(
        handle_guardian_recovery_v3(&mut state, thin, 21, 1000, "b", false).unwrap_err(),
        RecoveryError::SignerThresholdNotReached
    );
    let mut twice = approvals(&req, 2);
    twice[1].signer_id = 1;
    let duplicated = GuardianRecoveryRequestV3::Begin {
        certificate: BeginRecoveryCertificateV3 {
            request: req.clone(),
            request_digest: req.digest,
            signer_contributions: twice,
            canonical: true,
        },
    };
    assert_eq!(
        handle_guardian_recovery_v3(&mut state, duplicated, 21, 1000, "b", false).unwrap_err(),
        RecoveryError::InvalidSignerApproval
    );
    let other_epoch = request(1, 2, 2);
    assert_eq!(
        handle_guardian_recovery_v3(&mut state, begin(&other_epoch), 21, 1000, "b", false).unwrap_err(),
        RecoveryError::NotActiveEpoch
    );
    let expired = request(1, 2, 1);
    assert_eq!(
        handle_guardian_recovery_v3(&mut state, begin(&expired), 80, 1000, "b", false).unwrap_err(),
        RecoveryError::InvalidRequest
    );
    assert!(state.recoveries.is_empty());
}

#[test]
fn draining_epoch_finishes_only_requests_pending_at_activation() {
    let mut state = guardian();
    let old_req = request(1, 2, 1);
    handle_guardian_recovery_v3(&mut state, begin(&old_req), 21, 1000, "boot-a", false).unwrap();
    let pending = pending_old_recovery_ids(&state);
    assert_eq!(pending, vec![old_req.request_id]);
    // Activation: epoch 2 becomes ACTIVE, epoch 1 drains what was pending.
    state.draining.push(DrainingEpochV3 {
        guardian_epoch: 1,
        record: record(1),
        pending_request_ids: pending,
    });
    state.active = Some(record(2));
    let late_req = request(5, 6, 1);
    assert_eq!(
        handle_guardian_recovery_v3(&mut state, begin(&late_req), 22, 1001, "boot-a", false).unwrap_err(),
        RecoveryError::NotActiveEpoch
    );
    let released = handle_guardian_recovery_v3(&mut state, release(&old_req), 22, 1010, "boot-a", false).unwrap();
    assert!(matches!(released, GuardianRecoveryDecisionV3::Release { .. }));
    assert!(state.draining[0].pending_request_ids.is_empty());
    assert_eq!(
        handle_guardian_recovery_v3(&mut state, release(&old_req), 23, 1011, "boot-a", false).unwrap_err(),
        RecoveryError::NotPendingAtActivation
    );
}

fn witness_provision_for(disk: &mut WitnessDisk, genesis: &ConfigCapsuleV3) {
    let provision = WitnessConfigProvision {
        witness_id: 1,
        capsule: genesis.clone(),
        signer_public_keys: (1..=3u16)
            .map(|signer_id| SignerPin { signer_id, public_key: [20 + signer_id as u8; 32] })
            .collect(),
        witness_public_keys: (1..=4u16)
            .map(|witness_id| WitnessKeyPin { witness_id, public_key: [40 + witness_id as u8; 32] })
            .collect(),
        witness_fault_bound: 1,
        signer_commitment_verified: true,
    };
    let ack = witness_provision(disk, provision, &[41; 32]).unwrap();
    assert!(ack.stored);
    assert_eq!(ack.mailbox, "04".repeat(32));
}

fn rotation_context(rotation: u8, genesis: &ConfigCapsuleV3) -> RotationContext {
    RotationContext {
        protocol_version: PROTOCOL_VERSION_V3,
        config_ref: genesis.config_ref,
        rotation_id: [rotation; 32],
        predecessor_capsule_hash: genesis.capsule_hash,
        recipient_key: vec![rotation; 1216],
        nonce: [rotation; 32],
        issued_at: 1,
        expiry: u64::MAX,
    }
}

fn activation(rotation: u8, genesis: &ConfigCapsuleV3, successor: &ConfigCapsuleV3) -> RotationActivateCertificate {
    RotationActivateCertificate {
        context: rotation_context(rotation, genesis),
        plan_hash: [rotation.wrapping_add(1); 32],
        ready_certificate_hash: [rotation.wrapping_add(2); 32],
        successor: successor.config_ref,
        successor_capsule_hash: successor.capsule_hash,
        votes: (1..=2u16)
            .map(|signer_id| SignerActivateVote {
                signer_id,
                signer_public_key: [20 + signer_id as u8; 32],
                membership_verified: true,
                signature_verified: true,
            })
            .collect(),
        transcript_hash: [rotation.wrapping_add(3); 32],
    }
}

fn read_challenge(nonce: u8, now: u64) -> EpochReadChallenge {
    EpochReadChallenge {
        protocol_version: PROTOCOL_VERSION_V3,
        config_id: [4; 32],
        client_nonce: [nonce; 32],
        response_recipient_key: vec![31; 32],
        issued_at: now,
        expiry: now + 100,
        canonical: true,
    }
}

#[test]
fn witness_persists_one_child_and_nonce_bound_reads_across_restart() {
    let mut disk = WitnessDisk { entries: vec![] };
    let genesis = capsule(1, 9, [0; 32]);
    witness_provision_for(&mut disk, &genesis);
    let path = "04".repeat(32);

    let successor = capsule(2, 10, genesis.capsule_hash);
    let certificate = activation(10, &genesis, &successor);
    let ack = witness_activate(&mut disk, &path, successor.clone(), &certificate, &[41; 32]).unwrap();
    assert_eq!(ack.successor_epoch, 2);
    witness_sign_pending_ack(&mut disk, &path, vec![1; 64]).unwrap();

    // A merely stored successor has no recovery authority before 2f+1 QC.
    let now = 1000;
    let before_qc = witness_read(&mut disk, &path, &read_challenge(29, now), now).unwrap();
    assert_eq!(before_qc.capsule.config_ref.guardian_epoch, 1);

    // Another successor is refused while one is pending.
    let other = capsule(2, 11, genesis.capsule_hash);
    assert_eq!(
        witness_activate(&mut disk, &path, other.clone(), &activation(12, &genesis, &other), &[41; 32]).unwrap_err(),
        WitnessError::LockedToAnotherSuccessor
    );

    // Owner cancellation rolls back the pending child and rejects the
    // rotation id for good.
    let cancellation = OwnerRotationCancelCertificate {
        context: certificate.context.clone(),
        plan_hash: certificate.plan_hash,
        cancel_response_recipient_key: vec![45; 1216],
        owner_cancel_public_key: genesis.owner_cancel_public_key,
        transcript_hash: [46; 32],
        signature_verified: true,
    };
    let mut forged = cancellation.clone();
    forged.signature_verified = false;
    assert_eq!(
        witness_cancel_rotation(&mut disk, &path, &forged, now).unwrap_err(),
        WitnessError::BadOwnerSignature
    );
    let receipt = witness_cancel_rotation(&mut disk, &path, &cancellation, now).unwrap();
    assert_eq!(receipt.rotation_id, certificate.context.rotation_id);
    assert_eq!(
        witness_activate(&mut disk, &path, successor.clone(), &certificate, &[41; 32]).unwrap_err(),
        WitnessError::RotationCancelled
    );

    let successor = capsule(2, 15, genesis.capsule_hash);
    let certificate = activation(15, &genesis, &successor);
    let own_ack = witness_activate(&mut disk, &path, successor.clone(), &certificate, &[41; 32]).unwrap();
    let own_ack = witness_sign_pending_ack(&mut disk, &path, vec![2; 64]).unwrap();
    assert_eq!(own_ack.witness_id, 1);
    let mut acks = vec![own_ack.clone()];
    for witness_id in 2..=3u16 {
        let mut other = own_ack.clone();
        other.witness_id = witness_id;
        other.witness_public_key = [40 + witness_id as u8; 32];
        other.witness_signature = vec![witness_id as u8; 64];
        acks.push(other);
    }
    let qc = EpochActivationQc {
        protocol_version: PROTOCOL_VERSION_V3,
        config_id: [4; 32],
        rotation_id: own_ack.context.rotation_id,
        predecessor_epoch: 1,
        predecessor_capsule_hash: genesis.capsule_hash,
        successor_epoch: 2,
        successor_capsule_hash: successor.capsule_hash,
        activation_certificate_hash: own_ack.activation_certificate_hash,
        witness_fault_bound: 1,
        witness_acks: acks,
        canonical: true,
    };
    let mut thin = qc.clone();
    thin.witness_acks.truncate(2);
    assert_eq!(witness_finalize(&mut disk, &path, &thin).unwrap_err(), WitnessError::NoQuorumOrOwnAck);
    witness_finalize(&mut disk, &path, &qc).unwrap();

    let challenge = read_challenge(30, now);
    let read = witness_read(&mut disk, &path, &challenge, now).unwrap();
    assert_eq!(read.capsule.config_ref.guardian_epoch, 2);
    assert_eq!(read.capsule.capsule_hash, successor.capsule_hash);
    assert_eq!(witness_read(&mut disk, &path, &challenge, now).unwrap_err(), WitnessError::ReplayedReadNonce);

    let rebooted = disk.clone();
    assert_eq!(rebooted.entries[0].entry.register.highest_guardian_epoch, 2);
    assert_eq!(rebooted.entries[0].entry.register.highest_capsule_hash, successor.capsule_hash);
}

#[test]
fn witness_refuses_a_second_provision_and_unknown_configurations() {
    let mut disk = WitnessDisk { entries: vec![] };
    let genesis = capsule(1, 9, [0; 32]);
    witness_provision_for(&mut disk, &genesis);
    let again = WitnessConfigProvision {
        witness_id: 1,
        capsule: genesis.clone(),
        signer_public_keys: (1..=3u16).map(|signer_id| SignerPin { signer_id, public_key: [1; 32] }).collect(),
        witness_public_keys: (1..=4u16)
            .map(|witness_id| WitnessKeyPin { witness_id, public_key: [40 + witness_id as u8; 32] })
            .collect(),
        witness_fault_bound: 1,
        signer_commitment_verified: true,
    };
    assert_eq!(witness_provision(&mut disk, again, &[41; 32]).unwrap_err(), WitnessError::AlreadyProvisioned);
    let challenge = EpochReadChallenge { config_id: [5; 32], ..read_challenge(1, 10) };
    let other_path = "05".repeat(32);
    assert_eq!(witness_read(&mut disk, &other_path, &challenge, 10).unwrap_err(), WitnessError::NotFound);
}

#[test]
fn witness_roster_must_pin_this_witness_and_3f_plus_1() {
    let mut disk = WitnessDisk { entries: vec![] };
    let genesis = capsule(1, 9, [0; 32]);
    let provision = WitnessConfigProvision {
        witness_id: 1,
        capsule: genesis,
        signer_public_keys: (1..=3u16).map(|signer_id| SignerPin { signer_id, public_key: [1; 32] }).collect(),
        witness_public_keys: (1..=3u16)
            .map(|witness_id| WitnessKeyPin { witness_id, public_key: [40 + witness_id as u8; 32] })
            .collect(),
        witness_fault_bound: 1,
        signer_commitment_verified: true,
    };
    assert_eq!(witness_provision(&mut disk, provision, &[41; 32]).unwrap_err(), WitnessError::InvalidWitnessRoster);
    assert!(disk.entries.is_empty());
}

#[test]
fn relay_reads_back_a_registered_route_once() {
    let mut disk = RelayDisk { routes: vec![] };
    let mailbox = "0123456789abcdef0123456789abcdef".to_string();
    let registration = RouteRegistration {
        mailbox: mailbox.clone(),
        target_url: "http://guardian-1:8080//".into(),
        transport_public_key: vec![9; 1216],
    };
    let ack = relay_register(&mut disk, registration.clone()).unwrap();
    assert_eq!(ack.mailbox, mailbox);
    assert_eq!(relay_key(&disk, &mailbox).unwrap(), vec![9; 1216]);
    assert_eq!(
        relay_forward_url(&disk, &mailbox, ForwardPath::V3Recovery).unwrap(),
        "http://guardian-1:8080/v3/recovery/0123456789abcdef0123456789abcdef"
    );
    assert_eq!(
        relay_forward_url(&disk, &mailbox, ForwardPath::V1Mailbox).unwrap(),
        "http://guardian-1:8080/v1/mailbox/0123456789abcdef0123456789abcdef"
    );
    assert_eq!(relay_register(&mut disk, registration).unwrap_err(), RelayError::AlreadyRegistered);
    assert_eq!(relay_key(&disk, "unknown").unwrap_err(), RelayError::UnknownMailbox);
    let short = RouteRegistration {
        mailbox: "short".into(),
        target_url: "http://x".into(),
        transport_public_key: vec![9; 1216],
    };
    assert_eq!(relay_register(&mut disk, short).unwrap_err(), RelayError::InvalidRegistration);
}

#[test]
fn node_roles_have_stable_wire_names() {
    assert_eq!(NodeRole::Relay.as_str(), "relay");
    assert_eq!(NodeRole::ConfigStore.as_str(), "config_store");
    assert_eq!(NodeRole::Signer.as_str(), "signer");
    assert_eq!(NodeRole::Guardian.as_str(), "guardian");
    assert_eq!(NodeRole::Witness.as_str(), "witness");
    let witness = node_info(&"w".to_string(), NodeRole::Witness, vec![1, 2], [3; 32]);
    assert_eq!(witness.protocol_version, PROTOCOL_VERSION_V3);
    assert_eq!(witness.signing_public_key, Some([3; 32]));
    let relay = node_info(&"r".to_string(), NodeRole::Relay, vec![1, 2], [3; 32]);
    assert_eq!(relay.protocol_version, PROTOCOL_VERSION);
    assert_eq!(relay.signing_public_key, None);
    assert_eq!(relay.role, "relay");
    let signer = node_info_v3(&"s".to_string(), NodeRole::Signer, vec![], [4; 32]);
    assert_eq!(signer.protocol_version, PROTOCOL_VERSION_V3);
    assert_eq!(signer.signing_public_key, Some([4; 32]));
}

#[test]
fn wall_clock_is_after_the_epoch() {
    assert!(wall_now().unwrap() > 1_600_000_000);
}

#[test]
fn mailbox_id_needs_thirty_two_bytes() {
    assert_eq!(
        mailbox_id("http://relay/v1/mailboxes/0123456789abcdef0123456789abcdef/").unwrap(),
        "0123456789abcdef0123456789abcdef"
    );
    assert!(mailbox_id("http://relay/v1/mailboxes/short").is_err());
}

fn v2_request() -> RecoveryRequest {
    RecoveryRequest {
        protocol_version: PROTOCOL_VERSION,
        crypto_suite: DEFAULT_CRYPTO_SUITE,
        config_id: [1; 32],
        config_version: 1,
        request_id: [7; 32],
        recovery_recipient_key: vec![42; 1216],
        requested_at: 10,
        nonce: [8; 32],
        expiry: 100,
        digest: [70; 32],
    }
}

fn v2_policy() -> GuardianPolicy {
    GuardianPolicy {
        config_id: [1; 32],
        config_version: 1,
        signer_set_commitment: [2; 32],
        signer_count: 3,
        signer_threshold: 2,
        owner_cancel_public_key: [33; 32],
        minimum_recovery_delay: 5,
    }
}

fn owner_cancel(request: &RecoveryRequest, owner_key: [u8; 32]) -> OwnerCancelCertificate {
    OwnerCancelCertificate {
        protocol_version: PROTOCOL_VERSION,
        config_id: request.config_id,
        config_version: request.config_version,
        request_id: request.request_id,
        request_digest: request.digest,
        recovery_recipient_key: request.recovery_recipient_key.clone(),
        cancel_response_recipient_key: vec![43; 1216],
        reason_code: 1,
        nonce: request.nonce,
        issued_at: 11,
        owner_cancel_public_key: owner_key,
        transcript_hash: [owner_key[0]; 32],
        signature_verified: true,
    }
}

#[test]
fn only_pinned_owner_key_can_hard_cancel_exact_request() {
    let request = v2_request();
    let policy = v2_policy();
    let certificate = owner_cancel(&request, [33; 32]);
    validate_owner_cancel_for_policy(&certificate, &policy, &request, 11).unwrap();

    let route = GuardianRoute { guardian_index: 1, guardian_public_key: [50; 32] };
    let mut ack = OwnerCancelAck {
        protocol_version: PROTOCOL_VERSION,
        config_id: request.config_id,
        config_version: request.config_version,
        request_id: request.request_id,
        request_digest: request.digest,
        owner_cancel_transcript_digest: certificate.transcript_hash,
        guardian_index: route.guardian_index,
        signature_verified: true,
    };
    validate_owner_cancel_ack(&ack, &certificate, &request, &route).unwrap();
    ack.guardian_index += 1;
    assert!(validate_owner_cancel_ack(&ack, &certificate, &request, &route).is_err());

    let wrong_key = owner_cancel(&request, [99; 32]);
    assert!(validate_owner_cancel_for_policy(&wrong_key, &policy, &request, 11).is_err());

    let mut changed_request = request;
    changed_request.recovery_recipient_key[0] ^= 1;
    changed_request.digest = [71; 32];
    assert!(validate_owner_cancel_for_policy(&certificate, &policy, &changed_request, 11).is_err());
}

#[test]
fn v2_release_needs_a_fresh_threshold_bound_to_the_request() {
    let request = v2_request();
    let policy = v2_policy();
    let vote = |signer_id: u16| ReleaseVote {
        protocol_version: PROTOCOL_VERSION,
        config_id: request.config_id,
        config_version: request.config_version,
        request_id: request.request_id,
        request_digest: request.digest,
        recovery_recipient_key: request.recovery_recipient_key.clone(),
        nonce: request.nonce,
        signer_id,
        signer_public_key: [signer_id as u8; 32],
        membership_verified: true,
        signature_verified: true,
    };
    let certificate = ReleaseCertificate { votes: vec![vote(1), vote(2)] };
    assert_eq!(validate_release_for_policy(&certificate, &policy, &request, 20), Ok(()));
    let thin = ReleaseCertificate { votes: vec![vote(1)] };
    assert_eq!(
        validate_release_for_policy(&thin, &policy, &request, 20),
        Err(ProtocolError::SignerThresholdNotReached)
    );
    let mut other_nonce = vote(2);
    other_nonce.nonce = [9; 32];
    let unbound = ReleaseCertificate { votes: vec![vote(1), other_nonce] };
    assert_eq!(
        validate_release_for_policy(&unbound, &policy, &request, 20),
        Err(ProtocolError::InvalidSignerApproval)
    );
    assert_eq!(
        validate_release_for_policy(&certificate, &policy, &request, 100),
        Err(ProtocolError::InvalidRequest)
    );
}

#[test]
fn setup_policy_needs_one_mailbox_per_node_and_sane_thresholds() {
    let policy = SetupPolicy {
        signer_count: 3,
        signer_threshold: 2,
        guardian_count: 5,
        guardian_threshold: 3,
        minimum_recovery_delay: 5,
    };
    let signers: Vec<String> = (1..=3).map(|i| format!("signer-{i}")).collect();
    let guardians: Vec<String> = (1..=5).map(|i| format!("guardian-{i}")).collect();
    assert_eq!(validate_setup_policy(&policy, &signers, &guardians), Ok(()));
    assert_eq!(
        validate_setup_policy(&policy, &signers[..2].to_vec(), &guardians),
        Err(ProtocolError::InvalidSetupPolicy)
    );
    let zero = SetupPolicy { guardian_threshold: 0, ..policy };
    assert_eq!(validate_setup_policy(&zero, &signers, &guardians), Err(ProtocolError::InvalidSetupPolicy));
}

#[test]
fn recovery_answers_are_sealed_to_the_key_the_message_names() {
    let request = request(7, 8, 1);
    assert_eq!(guardian_recovery_response_key(&begin(&request)), &request.recovery_recipient_key);
    assert_eq!(guardian_recovery_response_key(&release(&request)), &request.recovery_recipient_key);
    assert_eq!(guardian_recovery_response_key(&cancel(&request)), &vec![0xCAu8; 1216]);
    assert_ne!(request.recovery_recipient_key, vec![0xCAu8; 1216]);
    let release_message = SignerRecoveryRequestV3::Release { request: request.clone() };
    assert_eq!(signer_recovery_response_key(&release_message), &request.recovery_recipient_key);
}

#[test]
fn v3_recovery_evidence_binds_the_expected_epoch_and_request() {
    let capsule = capsule(1, 9, [0; 32]);
    let request = request(7, 8, 1);
    let expected = config_ref(1);
    assert_eq!(validate_recovery_request_for_ref_v3(&request, &capsule, &expected, 20), Ok([107; 32]));
    assert_eq!(
        validate_recovery_request_for_ref_v3(&request, &capsule, &config_ref(2), 20),
        Err(RecoveryError::InvalidRequest)
    );
    assert_eq!(
        validate_recovery_request_for_ref_v3(&request, &capsule, &expected, 80),
        Err(RecoveryError::InvalidRequest)
    );
    let mut long_lived = request.clone();
    long_lived.expiry = 121;
    assert_eq!(
        validate_recovery_request_for_ref_v3(&long_lived, &capsule, &expected, 20),
        Err(RecoveryError::InvalidRequest)
    );

    let GuardianRecoveryRequestV3::Begin { certificate: begin_certificate } = begin(&request) else {
        unreachable!()
    };
    assert_eq!(validate_begin_recovery_certificate_v3(&begin_certificate, &capsule, 30), Ok([107; 32]));
    let mut one_signer = begin_certificate.clone();
    one_signer.signer_contributions.truncate(1);
    assert_eq!(
        validate_begin_recovery_certificate_v3(&one_signer, &capsule, 30),
        Err(RecoveryError::SignerThresholdNotReached)
    );
    let mut repeated = begin_certificate.clone();
    repeated.signer_contributions[1].signer_id = 1;
    assert_eq!(
        validate_begin_recovery_certificate_v3(&repeated, &capsule, 30),
        Err(RecoveryError::InvalidSignerApproval)
    );
    let mut other_digest = begin_certificate.clone();
    other_digest.request_digest = [0; 32];
    assert_eq!(
        validate_begin_recovery_certificate_v3(&other_digest, &capsule, 30),
        Err(RecoveryError::DigestMismatch)
    );
    let mut not_canonical = begin_certificate;
    not_canonical.canonical = false;
    assert_eq!(
        validate_begin_recovery_certificate_v3(&not_canonical, &capsule, 30),
        Err(RecoveryError::CertificateNotCanonical)
    );

    let GuardianRecoveryRequestV3::Release { certificate: release_certificate, .. } = release(&request) else {
        unreachable!()
    };
    assert_eq!(
        validate_recovery_release_certificate_for_ref_v3(&release_certificate, &capsule, &expected, 40),
        Ok([107; 32])
    );
    assert_eq!(
        validate_recovery_release_certificate_for_ref_v3(&release_certificate, &capsule, &config_ref(2), 40),
        Err(RecoveryError::InvalidRequest)
    );

    let GuardianRecoveryRequestV3::Cancel { certificate: cancellation, .. } = cancel(&request) else {
        unreachable!()
    };
    assert_eq!(
        validate_owner_recovery_cancel_for_ref_v3(&cancellation, &request, &capsule, &expected, 40),
        Ok([107; 32])
    );
    let mut other_owner = cancellation.clone();
    other_owner.owner_cancel_public_key = [7; 32];
    assert_eq!(
        validate_owner_recovery_cancel_for_ref_v3(&other_owner, &request, &capsule, &expected, 40),
        Err(RecoveryError::InvalidOwnerCancellation)
    );
    let mut unsigned = cancellation;
    unsigned.signature_verified = false;
    assert_eq!(
        validate_owner_recovery_cancel_for_ref_v3(&unsigned, &request, &capsule, &expected, 40),
        Err(RecoveryError::InvalidOwnerCancellation)
    );
}

#[test]
fn guardian_serves_the_active_record_or_a_drain_for_pending_requests() {
    let mut state = guardian();
    state.active = Some(record(2));
    state.draining = vec![DrainingEpochV3 {
        guardian_epoch: 1,
        record: record(1),
        pending_request_ids: vec![[7; 32]],
    }];
    let active = record_for_request(&state, &config_ref(2), &[9; 32], true).unwrap();
    assert_eq!(active.config_ref.guardian_epoch, 2);
    let drained = record_for_request(&state, &config_ref(1), &[7; 32], true).unwrap();
    assert_eq!(drained.config_ref.guardian_epoch, 1);
    assert_eq!(
        record_for_request(&state, &config_ref(1), &[9; 32], true).map(|r| r.guardian_index),
        Err(RecoveryError::NotPendingAtActivation)
    );
    assert!(record_for_request(&state, &config_ref(1), &[9; 32], false).is_ok());
    assert_eq!(
        record_for_request(&state, &config_ref(3), &[7; 32], false).map(|r| r.guardian_index),
        Err(RecoveryError::NoRecordForEpoch)
    );
}
