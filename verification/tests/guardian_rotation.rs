use gp_network::guardian_rotation::{
    handle_guardian_rotation_v3, rotation_response_recipient_key, GuardianRotationDecisionV3,
    GuardianRotationEntryV3, GuardianRotationError, GuardianRotationRequestV3,
};
use gp_network::model::{ConfigCapsuleV3, ConfigRef, RotationContext, PROTOCOL_VERSION_V3};
use gp_network::rotation::{
    AbortRotationCertificate, BeginRotationCertificate, GuardianRouteV3, RotationError,
    RotationPlan, RotationState, SignerAbortVote, SignerRotationVote,
};
use gp_network::witness::OwnerRotationCancelCertificate;

fn genesis() -> ConfigCapsuleV3 {
    let config_ref = ConfigRef {
        config_id: [1; 32],
        payload_generation: 1,
        authorization_epoch: 1,
        guardian_epoch: 1,
        epoch_binding: [2; 32],
    };
    ConfigCapsuleV3 {
        protocol_version: PROTOCOL_VERSION_V3,
        config_ref,
        capsule_hash: [3; 32],
        predecessor_capsule_hash: [0; 32],
        signer_count: 3,
        signer_threshold: 2,
        guardian_count: 8,
        guardian_threshold: 5,
        minimum_recovery_delay: 10,
        max_request_lifetime: 100,
        signer_set_commitment: [77; 32],
        owner_cancel_public_key: [4; 32],
        dpss_suite: 0,
        dpss_public_commitment: [5; 32],
        guardian_material_root: [6; 32],
        body_hash: [3; 32],
        activation_certificate: None,
        activation_qc: None,
    }
}

/// Stands in for the SHA-256 of a big-endian guardian index.
fn index_digest(index: u16) -> [u8; 32] {
    let mut digest = [0xD1u8; 32];
    digest[0] = (index >> 8) as u8;
    digest[1] = index as u8;
    digest
}

fn route(index: u16, slot: u8, mailbox: String) -> GuardianRouteV3 {
    GuardianRouteV3 {
        guardian_index: index,
        guardian_public_key: [(index + 10) as u8; 32],
        session_recipient_key: vec![(index + 20) as u8; 1216],
        operator_domain_commitment: [(index + 30) as u8; 32],
        opaque_slot_id: [slot; 32],
        mailbox,
        index_digest: index_digest(index),
    }
}

fn plan(predecessor: &ConfigCapsuleV3) -> RotationPlan {
    let context = RotationContext {
        protocol_version: PROTOCOL_VERSION_V3,
        config_ref: predecessor.config_ref,
        rotation_id: [91; 32],
        predecessor_capsule_hash: predecessor.capsule_hash,
        recipient_key: vec![92; 1216],
        nonce: [93; 32],
        issued_at: 1,
        expiry: 100,
    };
    let old_roster = (1u16..=8)
        .map(|id| route(id, id as u8, format!("https://relay.invalid/v3/mailboxes/old-{id}")))
        .collect::<Vec<_>>();
    let mut new_roster = old_roster
        .iter()
        .filter(|old| old.guardian_index != 4)
        .map(|old| {
            let mut new = old.clone();
            new.opaque_slot_id = [(old.guardian_index + 40) as u8; 32];
            new.mailbox = format!("https://relay.invalid/v3/mailboxes/new-{}", old.guardian_index);
            new
        })
        .collect::<Vec<_>>();
    new_roster.push(route(9, 99, "https://relay.invalid/v3/mailboxes/new-9".into()));
    RotationPlan {
        context,
        predecessor: predecessor.config_ref,
        successor: ConfigRef {
            guardian_epoch: 2,
            epoch_binding: [95; 32],
            ..predecessor.config_ref
        },
        intent_hash: [97; 32],
        preparation_deadline: 80,
        drain_deadline: 90,
        minimum_delay_secs: 10,
        old_guardian_threshold: 5,
        data_shards: 5,
        total_shards: 8,
        old_roster,
        new_roster,
        new_guardian_threshold: 5,
        old_roster_commitment: [98; 32],
        new_roster_commitment: [99; 32],
        dpss_suite: 0,
        dpss_qualified_set_commitment: [99; 32],
        dpss_session_id: [34; 32],
        old_roster_digest: [98; 32],
        new_roster_digest: [99; 32],
        transcript_hash: [96; 32],
        canonical: true,
    }
}


fn entry(predecessor: &ConfigCapsuleV3, active: Option<u16>) -> GuardianRotationEntryV3 {
    GuardianRotationEntryV3 {
        predecessor_capsule: predecessor.clone(),
        signing_public_key: [12; 32],
        transport_public_key: vec![22; 1216],
        active_guardian_index: active,
        sessions: Vec::new(),
        tombstones: Vec::new(),
    }
}

fn begin(plan: &RotationPlan, transcript: u8) -> GuardianRotationRequestV3 {
    let certificate = BeginRotationCertificate {
        context: plan.context.clone(),
        intent_hash: plan.intent_hash,
        plan_hash: plan.transcript_hash,
        old_roster_commitment: plan.old_roster_commitment,
        new_roster_commitment: plan.new_roster_commitment,
        not_before_wall: plan.context.issued_at + plan.minimum_delay_secs,
        votes: (1u16..=2)
            .map(|signer_id| SignerRotationVote {
                signer_id,
                signer_public_key: [10 + signer_id as u8; 32],
                membership_verified: true,
                signature_verified: true,
            })
            .collect(),
        transcript_hash: [transcript; 32],
        canonical: true,
    };
    GuardianRotationRequestV3::Begin { plan: plan.clone(), certificate }
}

fn cancel(plan: &RotationPlan, predecessor: &ConfigCapsuleV3) -> GuardianRotationRequestV3 {
    GuardianRotationRequestV3::Cancel {
        plan: plan.clone(),
        certificate: OwnerRotationCancelCertificate {
            context: plan.context.clone(),
            plan_hash: plan.transcript_hash,
            cancel_response_recipient_key: vec![7; 1216],
            owner_cancel_public_key: predecessor.owner_cancel_public_key,
            transcript_hash: [71; 32],
            signature_verified: true,
        },
    }
}

fn abort(plan: &RotationPlan) -> GuardianRotationRequestV3 {
    GuardianRotationRequestV3::Abort {
        plan: plan.clone(),
        certificate: AbortRotationCertificate {
            context: plan.context.clone(),
            plan_hash: plan.transcript_hash,
            state_at_abort: RotationState::DelayPending,
            reason_code: 3,
            votes: (1u16..=2)
                .map(|signer_id| SignerAbortVote {
                    context: plan.context.clone(),
                    plan_hash: plan.transcript_hash,
                    state_at_abort: RotationState::DelayPending,
                    reason_code: 3,
                    signer_id,
                    signer_public_key: [10 + signer_id as u8; 32],
                    membership_verified: true,
                    signature_verified: true,
                })
                .collect(),
            transcript_hash: [72; 32],
            canonical: true,
        },
    }
}

#[test]
fn begin_locks_the_rotation_id_to_one_plan_and_repeats_its_answer() {
    let predecessor = genesis();
    let plan = plan(&predecessor);
    let mut entry = entry(&predecessor, Some(2));
    let accepted = handle_guardian_rotation_v3(&mut entry, begin(&plan, 61), 10, 500, false);
    assert!(matches!(
        accepted,
        Ok(GuardianRotationDecisionV3::BeginAccepted { not_before_monotonic: 510 })
    ));
    assert_eq!(entry.sessions.len(), 1);
    let again = handle_guardian_rotation_v3(&mut entry, begin(&plan, 61), 10, 900, false);
    assert!(matches!(
        again,
        Ok(GuardianRotationDecisionV3::BeginAccepted { not_before_monotonic: 510 })
    ));
    assert_eq!(entry.sessions.len(), 1);

    let mut other = plan.clone();
    other.transcript_hash = [88; 32];
    let locked = handle_guardian_rotation_v3(&mut entry, begin(&other, 61), 10, 900, false);
    assert!(matches!(locked, Err(GuardianRotationError::LockedToAnotherPlan)));
    assert_eq!(entry.sessions.len(), 1);
}

#[test]
fn demo_delay_is_capped_at_two_seconds() {
    let predecessor = genesis();
    let plan = plan(&predecessor);
    let mut entry = entry(&predecessor, Some(2));
    let accepted = handle_guardian_rotation_v3(&mut entry, begin(&plan, 61), 10, 500, true);
    assert!(matches!(
        accepted,
        Ok(GuardianRotationDecisionV3::BeginAccepted { not_before_monotonic: 502 })
    ));
    let mut overflowing = entry.clone();
    overflowing.sessions.clear();
    let late = handle_guardian_rotation_v3(&mut overflowing, begin(&plan, 61), 10, u64::MAX - 1, false);
    assert!(matches!(
        late,
        Ok(GuardianRotationDecisionV3::BeginAccepted { not_before_monotonic: u64::MAX })
    ));
}

#[test]
fn owner_cancellation_ends_the_rotation_for_good() {
    let predecessor = genesis();
    let plan = plan(&predecessor);
    let mut entry = entry(&predecessor, Some(2));
    handle_guardian_rotation_v3(&mut entry, begin(&plan, 61), 10, 500, false).unwrap();
    let cancelled = handle_guardian_rotation_v3(&mut entry, cancel(&plan, &predecessor), 11, 501, false);
    match cancelled {
        Ok(GuardianRotationDecisionV3::Cancelled { plan_hash, cancel_certificate_hash, guardian_index }) => {
            assert_eq!(plan_hash, plan.transcript_hash);
            assert_eq!(cancel_certificate_hash, [71; 32]);
            assert_eq!(guardian_index, 2);
        }
        other => panic!("unexpected answer {other:?}"),
    }
    assert!(entry.sessions.is_empty());
    assert_eq!(entry.tombstones.len(), 1);
    assert!(matches!(
        handle_guardian_rotation_v3(&mut entry, begin(&plan, 61), 12, 502, false),
        Err(GuardianRotationError::PermanentlyRejected)
    ));
    // Repeating the cancellation is accepted and records nothing new.
    assert!(handle_guardian_rotation_v3(&mut entry, cancel(&plan, &predecessor), 12, 502, false).is_ok());
    assert_eq!(entry.tombstones.len(), 1);
}

#[test]
fn cancellation_names_the_successor_index_without_an_active_record() {
    let predecessor = genesis();
    let plan = plan(&predecessor);
    let mut entry = entry(&predecessor, None);
    let cancelled = handle_guardian_rotation_v3(&mut entry, cancel(&plan, &predecessor), 11, 501, false);
    assert!(matches!(
        cancelled,
        Ok(GuardianRotationDecisionV3::Cancelled { guardian_index: 2, .. })
    ));
    let mut forged = cancel(&plan, &predecessor);
    if let GuardianRotationRequestV3::Cancel { certificate, .. } = &mut forged {
        certificate.signature_verified = false;
    }
    let mut fresh = entry.clone();
    fresh.tombstones.clear();
    assert!(matches!(
        handle_guardian_rotation_v3(&mut fresh, forged, 11, 501, false),
        Err(GuardianRotationError::BadOwnerSignature)
    ));
}

#[test]
fn signer_abort_ends_a_begun_rotation() {
    let predecessor = genesis();
    let plan = plan(&predecessor);
    let mut entry = entry(&predecessor, Some(2));
    assert!(matches!(
        handle_guardian_rotation_v3(&mut entry, abort(&plan), 10, 500, false),
        Err(GuardianRotationError::NoSession)
    ));
    handle_guardian_rotation_v3(&mut entry, begin(&plan, 61), 10, 500, false).unwrap();
    assert!(matches!(
        handle_guardian_rotation_v3(&mut entry, abort(&plan), 11, 501, false),
        Ok(GuardianRotationDecisionV3::Aborted)
    ));
    assert!(entry.sessions.is_empty());
    assert!(matches!(entry.tombstones[0].terminal_state, RotationState::Aborted));
    assert!(matches!(
        handle_guardian_rotation_v3(&mut entry, begin(&plan, 61), 12, 502, false),
        Err(GuardianRotationError::PermanentlyRejected)
    ));
}

#[test]
fn old_guardian_handoff_names_its_old_index() {
    let predecessor = genesis();
    let plan = plan(&predecessor);
    let mut entry = entry(&predecessor, Some(2));
    handle_guardian_rotation_v3(&mut entry, begin(&plan, 61), 10, 500, false).unwrap();
    let handoff = GuardianRotationRequestV3::HandoffComplete { plan: plan.clone(), dpss_result_commitment: [73; 32] };
    match handle_guardian_rotation_v3(&mut entry, handoff, 20, 600, false) {
        Ok(GuardianRotationDecisionV3::Handoff {
            plan_hash,
            dpss_result_commitment,
            qualified_set_commitment,
            old_guardian_index,
        }) => {
            assert_eq!(plan_hash, plan.transcript_hash);
            assert_eq!(dpss_result_commitment, [73; 32]);
            assert_eq!(qualified_set_commitment, plan.dpss_qualified_set_commitment);
            assert_eq!(old_guardian_index, 2);
        }
        other => panic!("unexpected answer {other:?}"),
    }
}

#[test]
fn guardian_refuses_foreign_stale_or_substituted_rotations() {
    let predecessor = genesis();
    let plan = plan(&predecessor);
    let mut stranger = entry(&predecessor, Some(2));
    stranger.signing_public_key = [200; 32];
    assert!(matches!(
        handle_guardian_rotation_v3(&mut stranger, begin(&plan, 61), 10, 500, false),
        Err(GuardianRotationError::NotParticipant)
    ));
    let mut substituted = entry(&predecessor, Some(2));
    substituted.transport_public_key = vec![1; 1216];
    assert!(matches!(
        handle_guardian_rotation_v3(&mut substituted, begin(&plan, 61), 10, 500, false),
        Err(GuardianRotationError::SessionKeySubstituted)
    ));
    let mut entry = entry(&predecessor, Some(2));
    assert!(matches!(
        handle_guardian_rotation_v3(&mut entry, begin(&plan, 61), 100, 500, false),
        Err(GuardianRotationError::MalformedContext)
    ));
    let mut unbound = begin(&plan, 61);
    if let GuardianRotationRequestV3::Begin { certificate, .. } = &mut unbound {
        certificate.not_before_wall = 2;
    }
    assert!(matches!(
        handle_guardian_rotation_v3(&mut entry, unbound, 10, 500, false),
        Err(GuardianRotationError::Rotation(RotationError::CertificateMismatch))
    ));
    assert!(entry.sessions.is_empty());
}

#[test]
fn rotation_answers_are_sealed_to_the_key_the_message_names() {
    let predecessor = genesis();
    let plan = plan(&predecessor);
    assert_eq!(rotation_response_recipient_key(&abort(&plan)), &vec![92u8; 1216]);
    assert_eq!(rotation_response_recipient_key(&cancel(&plan, &predecessor)), &vec![7u8; 1216]);
}
