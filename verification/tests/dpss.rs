use gp_network::dpss::{
    accept_dpss_batch, make_dpss_message, peek_sequence, take_sequence, DpssError, DpssPhase,
    IncomingDpssMessage, SequenceCounter,
};
use gp_network::model::{ConfigRef, RotationContext, PROTOCOL_VERSION_V3};
use gp_network::rotation::{GuardianRouteV3, RotationPlan};

fn route(index: u16) -> GuardianRouteV3 {
    GuardianRouteV3 {
        guardian_index: index,
        guardian_public_key: [(index + 10) as u8; 32],
        session_recipient_key: vec![(index + 20) as u8; 1216],
        operator_domain_commitment: [(index + 30) as u8; 32],
        opaque_slot_id: [index as u8; 32],
        mailbox: format!("https://relay.invalid/v3/mailboxes/g-{index}"),
        index_digest: [index as u8; 32],
    }
}

fn plan() -> RotationPlan {
    let config_ref = ConfigRef {
        config_id: [1; 32],
        payload_generation: 1,
        authorization_epoch: 1,
        guardian_epoch: 1,
        epoch_binding: [2; 32],
    };
    RotationPlan {
        context: RotationContext {
            protocol_version: PROTOCOL_VERSION_V3,
            config_ref,
            rotation_id: [91; 32],
            predecessor_capsule_hash: [3; 32],
            recipient_key: vec![92; 1216],
            nonce: [93; 32],
            issued_at: 1,
            expiry: 100,
        },
        predecessor: config_ref,
        successor: ConfigRef { guardian_epoch: 2, epoch_binding: [95; 32], ..config_ref },
        intent_hash: [97; 32],
        preparation_deadline: 80,
        drain_deadline: 90,
        minimum_delay_secs: 10,
        old_guardian_threshold: 2,
        data_shards: 2,
        total_shards: 3,
        old_roster: vec![route(1), route(2), route(3)],
        new_roster: vec![route(1), route(2), route(4)],
        new_guardian_threshold: 2,
        old_roster_commitment: [98; 32],
        new_roster_commitment: [99; 32],
        dpss_suite: 0,
        dpss_qualified_set_commitment: [99; 32],
        dpss_session_id: [34; 32],
        old_roster_digest: [98; 32],
        new_roster_digest: [99; 32],
        transcript_hash: [96; 32],
        canonical: true,
    }
}

fn signed(message: gp_network::dpss::DpssProtocolMessage) -> IncomingDpssMessage {
    IncomingDpssMessage { message, signature_verified: true }
}

#[test]
fn sequence_numbers_count_up_per_ordered_pair() {
    let mut counters: Vec<SequenceCounter> = vec![];
    assert_eq!(peek_sequence(&counters, 1, 2), 1);
    assert_eq!(take_sequence(&mut counters, 1, 2), 1);
    assert_eq!(take_sequence(&mut counters, 1, 2), 2);
    assert_eq!(take_sequence(&mut counters, 2, 1), 1);
    assert_eq!(take_sequence(&mut counters, 1, 3), 1);
    assert_eq!(peek_sequence(&counters, 1, 2), 3);
    assert_eq!(counters.len(), 3);
    let mut full = vec![SequenceCounter { sender: 5, recipient: 6, next: u64::MAX }];
    assert_eq!(take_sequence(&mut full, 5, 6), u64::MAX);
    assert_eq!(peek_sequence(&full, 5, 6), u64::MAX);
}

#[test]
fn round_messages_name_the_plan_session_and_pair() {
    let plan = plan();
    let mut counters = vec![];
    let first = make_dpss_message(&mut counters, &plan, [96; 32], 1, 2, DpssPhase::RepairRound1, vec![7, 7]);
    let second = make_dpss_message(&mut counters, &plan, [96; 32], 1, 2, DpssPhase::RepairRound2, vec![8]);
    assert_eq!(first.sequence, 1);
    assert_eq!(second.sequence, 2);
    assert_eq!(first.dpss_session_id, [34; 32]);
    assert_eq!(first.qualified_set_commitment, [99; 32]);
    assert_eq!(first.recipient_index, 2);
    assert_eq!(first.phase, DpssPhase::RepairRound1);
    assert_eq!(first.provider_payload, vec![7, 7]);
    assert_eq!(first.context.rotation_id, [91; 32]);
}

#[test]
fn each_round_message_is_accepted_once_and_in_order() {
    let plan = plan();
    let senders = plan.old_roster.clone();
    let mut outgoing = vec![];
    let from_one = make_dpss_message(&mut outgoing, &plan, [96; 32], 1, 3, DpssPhase::RepairRound1, vec![1]);
    let from_two = make_dpss_message(&mut outgoing, &plan, [96; 32], 2, 3, DpssPhase::RepairRound1, vec![2]);
    let batch = vec![signed(from_one.clone()), signed(from_two.clone())];
    let mut incoming = vec![];
    assert_eq!(
        accept_dpss_batch(&mut incoming, &plan, [96; 32], 3, &senders, DpssPhase::RepairRound1, &batch),
        Ok(vec![(1, vec![1]), (2, vec![2])])
    );
    assert_eq!(peek_sequence(&incoming, 1, 3), 2);
    assert_eq!(peek_sequence(&incoming, 2, 3), 2);
    // the same messages again are replays
    assert_eq!(
        accept_dpss_batch(&mut incoming, &plan, [96; 32], 3, &senders, DpssPhase::RepairRound1, &batch),
        Err(DpssError::ReplayedOrReordered)
    );
    // the next message of a sender is accepted
    let next = make_dpss_message(&mut outgoing, &plan, [96; 32], 1, 3, DpssPhase::RepairRound1, vec![3]);
    assert_eq!(
        accept_dpss_batch(&mut incoming, &plan, [96; 32], 3, &senders, DpssPhase::RepairRound1, &vec![signed(next)]),
        Ok(vec![(1, vec![3])])
    );
}

#[test]
fn round_messages_outside_the_transcript_are_refused() {
    let plan = plan();
    let senders = plan.old_roster.clone();
    let mut outgoing = vec![];
    let good = make_dpss_message(&mut outgoing, &plan, [96; 32], 1, 3, DpssPhase::RefreshRound1, vec![1]);
    let accept = |batch: Vec<IncomingDpssMessage>| {
        let mut counters = vec![];
        let result = accept_dpss_batch(&mut counters, &plan, [96; 32], 3, &senders, DpssPhase::RefreshRound1, &batch);
        (result, counters)
    };
    let mut stranger = good.clone();
    stranger.sender_index = 9;
    assert_eq!(accept(vec![signed(stranger)]).0, Err(DpssError::OutsideRoster));
    let mut other_phase = good.clone();
    other_phase.phase = DpssPhase::RefreshRound2;
    assert_eq!(accept(vec![signed(other_phase)]).0, Err(DpssError::TranscriptMismatch));
    let mut other_session = good.clone();
    other_session.dpss_session_id = [35; 32];
    assert_eq!(accept(vec![signed(other_session)]).0, Err(DpssError::TranscriptMismatch));
    let mut other_recipient = good.clone();
    other_recipient.recipient_index = 2;
    assert_eq!(accept(vec![signed(other_recipient)]).0, Err(DpssError::TranscriptMismatch));
    let mut skipped = good.clone();
    skipped.sequence = 2;
    assert_eq!(accept(vec![signed(skipped)]).0, Err(DpssError::ReplayedOrReordered));
    let unsigned = IncomingDpssMessage { message: good.clone(), signature_verified: false };
    assert_eq!(accept(vec![unsigned]).0, Err(DpssError::BadSignature));
    // a second message of one sender in the batch stops it, after the first
    let mut twice = good.clone();
    twice.sequence = 2;
    let (result, counters) = accept(vec![signed(good), signed(twice)]);
    assert_eq!(result, Err(DpssError::TranscriptMismatch));
    assert_eq!(peek_sequence(&counters, 1, 3), 2);
}
