use gp_network::mailbox_v2::{
    guardian_mailbox, response_recipient_key, signer_mailbox, GuardianEntry, MailboxError,
    MailboxRequest, MailboxResponse, SignerMailboxEntry,
};
use gp_network::node::PROTOCOL_VERSION;
use gp_network::owner_cancel::{
    admit_owner_cancel_ack, owner_cancel_result, validate_owner_control, OwnerCancelError,
    OwnerControlFile,
};
use gp_network::protocol_v2::{
    BeginRecoveryCertificate, GuardianPolicy, GuardianRoute, OwnerCancelAck, OwnerCancelCertificate,
    ProtocolError,
    RecoveryRequest, ReleaseCertificate, ReleaseVote, SignerContribution, SignerPolicy,
    DEFAULT_CRYPTO_SUITE,
};

fn request(id: u8, nonce: u8) -> RecoveryRequest {
    RecoveryRequest {
        protocol_version: PROTOCOL_VERSION,
        crypto_suite: DEFAULT_CRYPTO_SUITE,
        config_id: [1; 32],
        config_version: 1,
        request_id: [id; 32],
        recovery_recipient_key: vec![42; 1216],
        requested_at: 10,
        nonce: [nonce; 32],
        expiry: 100,
        digest: [id.wrapping_add(100); 32],
    }
}

fn policy() -> GuardianPolicy {
    GuardianPolicy {
        config_id: [1; 32],
        config_version: 1,
        signer_set_commitment: [2; 32],
        signer_count: 3,
        signer_threshold: 2,
        owner_cancel_public_key: [33; 32],
        minimum_recovery_delay: 5,
    }
}

fn begin(request: &RecoveryRequest) -> MailboxRequest {
    let contribution = |signer_id: u16| SignerContribution {
        request: request.clone(),
        signer_id,
        signer_public_key: [signer_id as u8; 32],
        membership_verified: true,
        signature_verified: true,
    };
    MailboxRequest::GuardianBegin {
        certificate: BeginRecoveryCertificate {
            request: request.clone(),
            signer_contributions: vec![contribution(1), contribution(2)],
        },
    }
}

fn release(request: &RecoveryRequest) -> MailboxRequest {
    let vote = |signer_id: u16| ReleaseVote {
        protocol_version: PROTOCOL_VERSION,
        config_id: request.config_id,
        config_version: request.config_version,
        request_id: request.request_id,
        request_digest: request.digest,
        recovery_recipient_key: request.recovery_recipient_key.clone(),
        nonce: request.nonce,
        signer_id,
        signer_public_key: [signer_id as u8; 32],
        membership_verified: true,
        signature_verified: true,
    };
    MailboxRequest::GuardianRelease {
        request: request.clone(),
        certificate: ReleaseCertificate { votes: vec![vote(1), vote(3)] },
    }
}

fn cancel(request: &RecoveryRequest) -> MailboxRequest {
    MailboxRequest::GuardianCancel {
        request: request.clone(),
        certificate: OwnerCancelCertificate {
            protocol_version: PROTOCOL_VERSION,
            config_id: request.config_id,
            config_version: request.config_version,
            request_id: request.request_id,
            request_digest: request.digest,
            recovery_recipient_key: request.recovery_recipient_key.clone(),
            cancel_response_recipient_key: vec![43; 1216],
            reason_code: 1,
            nonce: request.nonce,
            issued_at: 11,
            owner_cancel_public_key: [33; 32],
            transcript_hash: [44; 32],
            signature_verified: true,
        },
    }
}

#[test]
fn v2_guardian_releases_only_after_the_delay_on_the_same_boot() {
    let mut entry = GuardianEntry::new(policy(), 4);
    let request = request(7, 8);
    assert!(matches!(
        guardian_mailbox(&mut entry, begin(&request), 12, 1000, "boot-a"),
        Ok(MailboxResponse::BeginAccepted { not_before_monotonic: 1005 })
    ));
    assert!(matches!(
        guardian_mailbox(&mut entry, release(&request), 13, 1004, "boot-a"),
        Err(MailboxError::DelayIncomplete)
    ));
    assert!(matches!(
        guardian_mailbox(&mut entry, release(&request), 13, 1005, "boot-b"),
        Err(MailboxError::RebootedDuringDelay)
    ));
    match guardian_mailbox(&mut entry, release(&request), 13, 1005, "boot-a") {
        Ok(MailboxResponse::GuardianContribution { request_digest, guardian_index }) => {
            assert_eq!(request_digest, request.digest);
            assert_eq!(guardian_index, 4);
        }
        other => panic!("unexpected answer {other:?}"),
    }
    assert_eq!(entry.released.len(), 1);
    assert!(matches!(
        guardian_mailbox(&mut entry, release(&request), 100, 2000, "boot-a"),
        Err(MailboxError::Protocol(ProtocolError::InvalidRequest))
    ));
    // The owner cannot cancel what was already released.
    assert!(matches!(
        guardian_mailbox(&mut entry, cancel(&request), 14, 1006, "boot-a"),
        Err(MailboxError::AlreadyReleased)
    ));
}

#[test]
fn v2_owner_cancellation_is_permanent_and_refuses_release() {
    let mut entry = GuardianEntry::new(policy(), 4);
    let request = request(7, 8);
    guardian_mailbox(&mut entry, begin(&request), 12, 1000, "boot-a").unwrap();
    match guardian_mailbox(&mut entry, cancel(&request), 13, 1001, "boot-a") {
        Ok(MailboxResponse::CancellationAccepted { request_digest, owner_cancel_transcript_digest, guardian_index }) => {
            assert_eq!(request_digest, request.digest);
            assert_eq!(owner_cancel_transcript_digest, [44; 32]);
            assert_eq!(guardian_index, 4);
        }
        other => panic!("unexpected answer {other:?}"),
    }
    assert!(matches!(
        guardian_mailbox(&mut entry, release(&request), 20, 2000, "boot-a"),
        Ok(MailboxResponse::ReleaseRefused)
    ));
    assert!(entry.released.is_empty());
    assert!(matches!(
        guardian_mailbox(&mut entry, begin(&request), 20, 2000, "boot-a"),
        Err(MailboxError::PermanentlyCancelled)
    ));
    assert!(guardian_mailbox(&mut entry, cancel(&request), 20, 2000, "boot-a").is_ok());
    let mut conflicting = request.clone();
    conflicting.digest = [1; 32];
    assert!(matches!(
        guardian_mailbox(&mut entry, cancel(&conflicting), 20, 2000, "boot-a"),
        Err(MailboxError::CancelConflict)
    ));
    assert_eq!(response_recipient_key(&cancel(&request)), &vec![43; 1216]);
    assert_eq!(response_recipient_key(&begin(&request)), &vec![42; 1216]);
}

#[test]
fn v2_guardian_begins_each_request_id_and_nonce_once() {
    let mut entry = GuardianEntry::new(policy(), 4);
    guardian_mailbox(&mut entry, begin(&request(7, 8)), 12, 1000, "boot-a").unwrap();
    assert!(matches!(
        guardian_mailbox(&mut entry, begin(&request(7, 8)), 12, 1000, "boot-a"),
        Err(MailboxError::Replayed)
    ));
    assert!(matches!(
        guardian_mailbox(&mut entry, begin(&request(9, 8)), 12, 1000, "boot-a"),
        Err(MailboxError::Replayed)
    ));
    assert!(matches!(
        guardian_mailbox(&mut entry, release(&request(9, 10)), 12, 1000, "boot-a"),
        Err(MailboxError::NotBegun)
    ));
    let signer_message = MailboxRequest::SignerApprove { request: request(9, 10) };
    assert!(matches!(
        guardian_mailbox(&mut entry, signer_message, 12, 1000, "boot-a"),
        Err(MailboxError::NotForGuardian)
    ));
    assert_eq!(entry.pending.len(), 1);
}

fn signer() -> SignerMailboxEntry {
    SignerMailboxEntry {
        policy: SignerPolicy { config_id: [1; 32], config_version: 1 },
        signer_id: 2,
        seen_requests: Vec::new(),
        seen_nonces: Vec::new(),
        last_approval_at: None,
    }
}

#[test]
fn v2_signer_votes_to_release_only_what_it_approved() {
    let mut entry = signer();
    let request = request(7, 8);
    let release = MailboxRequest::SignerRelease { request: request.clone() };
    assert!(matches!(signer_mailbox(&mut entry, &release, 20, true), Err(MailboxError::NeverApproved)));
    let approve = MailboxRequest::SignerApprove { request: request.clone() };
    assert!(matches!(
        signer_mailbox(&mut entry, &approve, 20, true),
        Ok(MailboxResponse::SignerContribution { signer_id: 2, .. })
    ));
    assert!(matches!(
        signer_mailbox(&mut entry, &release, 20, true),
        Ok(MailboxResponse::ReleaseVote { signer_id: 2, .. })
    ));
    let mut other_recipient = request.clone();
    other_recipient.digest = [9; 32];
    let other_release = MailboxRequest::SignerRelease { request: other_recipient.clone() };
    assert!(matches!(signer_mailbox(&mut entry, &other_release, 21, true), Err(MailboxError::NeverApproved)));
    let other_approve = MailboxRequest::SignerApprove { request: other_recipient };
    assert!(matches!(
        signer_mailbox(&mut entry, &other_approve, 21, true),
        Err(MailboxError::RequestIdConflict)
    ));
}

#[test]
fn v2_signer_rate_limits_and_refuses_replayed_nonces() {
    let mut entry = signer();
    let approve = |id: u8, nonce: u8| MailboxRequest::SignerApprove { request: request(id, nonce) };
    assert!(signer_mailbox(&mut entry, &approve(7, 8), 20, true).is_ok());
    assert!(matches!(signer_mailbox(&mut entry, &approve(9, 10), 20, true), Err(MailboxError::RateLimited)));
    assert!(matches!(signer_mailbox(&mut entry, &approve(9, 8), 21, true), Err(MailboxError::NonceReplayed)));
    assert_eq!(entry.last_approval_at, Some(21));
    assert!(signer_mailbox(&mut entry, &approve(9, 10), 22, true).is_ok());
    assert!(matches!(signer_mailbox(&mut entry, &approve(11, 12), 23, false), Err(MailboxError::ApprovalDisabled)));
    assert!(matches!(
        signer_mailbox(&mut entry, &approve(11, 12), 100, true),
        Err(MailboxError::Protocol(ProtocolError::InvalidRequest))
    ));
    let guardian_message = begin(&request(11, 12));
    assert!(matches!(signer_mailbox(&mut entry, &guardian_message, 30, true), Err(MailboxError::NotForSigner)));
    assert_eq!(MailboxResponse::ReleaseRefused.kind(), "release_refused");
    assert_eq!(
        MailboxResponse::BeginAccepted { not_before_monotonic: 1 }.kind(),
        "begin_accepted"
    );
}

fn owner_control() -> OwnerControlFile {
    OwnerControlFile {
        protocol_version: PROTOCOL_VERSION,
        config_id: [1; 32],
        config_version: 1,
        owner_cancel_public_key: [33; 32],
        seed_public_key: [33; 32],
        guardian_count: 5,
        guardian_threshold: 3,
        guardian_routes: (1u16..=5)
            .map(|guardian_index| GuardianRoute {
                guardian_index,
                guardian_public_key: [guardian_index as u8; 32],
            })
            .collect(),
        relay_bases: vec!["https://relay.invalid".into()],
    }
}

#[test]
fn owner_hard_cancel_needs_enough_tombstones() {
    let control = owner_control();
    let request = request(7, 8);
    assert_eq!(validate_owner_control(&control, &request, 20), Ok(()));
    assert_eq!(
        validate_owner_control(&control, &request, 100),
        Err(OwnerCancelError::InvalidControlState)
    );
    let mut stolen = control.clone();
    stolen.seed_public_key = [0; 32];
    assert_eq!(validate_owner_control(&stolen, &request, 20), Err(OwnerCancelError::KeyMismatch));
    let mut lopsided = control.clone();
    lopsided.guardian_threshold = 6;
    assert_eq!(
        validate_owner_control(&lopsided, &request, 20),
        Err(OwnerCancelError::InvalidControlState)
    );

    let certificate = match cancel(&request) {
        MailboxRequest::GuardianCancel { certificate, .. } => certificate,
        _ => unreachable!(),
    };
    let ack = |guardian_index: u16| OwnerCancelAck {
        protocol_version: PROTOCOL_VERSION,
        config_id: request.config_id,
        config_version: request.config_version,
        request_id: request.request_id,
        request_digest: request.digest,
        owner_cancel_transcript_digest: certificate.transcript_hash,
        guardian_index,
        signature_verified: true,
    };
    let mut acked = Vec::new();
    admit_owner_cancel_ack(&mut acked, &control, 0, Some(ack(1)), &certificate, &request);
    admit_owner_cancel_ack(&mut acked, &control, 1, Some(ack(1)), &certificate, &request);
    admit_owner_cancel_ack(&mut acked, &control, 2, None, &certificate, &request);
    assert_eq!(acked, vec![1]);
    assert_eq!(
        owner_cancel_result(&acked, &control, &request).unwrap_err(),
        OwnerCancelError::NotEnoughAcknowledgements
    );
    admit_owner_cancel_ack(&mut acked, &control, 3, Some(ack(4)), &certificate, &request);
    admit_owner_cancel_ack(&mut acked, &control, 4, Some(ack(5)), &certificate, &request);
    assert_eq!(acked, vec![1, 4, 5]);
    let result = owner_cancel_result(&acked, &control, &request).unwrap();
    assert_eq!(result.config_id, "01".repeat(32));
    assert_eq!(result.request_id, "07".repeat(32));
    assert_eq!(result.guardian_acknowledgements, 3);
    assert!(result.permanently_cancelled);
    assert_eq!(
        owner_cancel_result(&acked, &lopsided, &request).unwrap_err(),
        OwnerCancelError::InvalidControlState
    );
}
