//! The direct messages guardians exchange in the DPSS rounds of a
//! rotation: each names the exact plan, session, phase, sender and
//! recipient, and carries a per-pair sequence number so that a recipient
//! accepts every message at most once and in order. Sealing, signing and
//! the provider payloads themselves are the caller's cryptographic layer.
use vstd::prelude::*;

use crate::bytes::{id_eq, Id32};
use crate::model::{clone_context, context_eq, same_context, RotationContext};
use crate::rotation::{in_roster, GuardianRouteV3, RotationPlan};

verus! {

/// The round a DPSS message belongs to.
#[derive(Debug, Clone, Copy, PartialEq, Eq, Structural)]
pub enum DpssPhase {
    RepairRound1,
    RepairRound2,
    RefreshRound1,
    RefreshRound2,
}

/// One guardian's round message to another.
#[derive(Clone, Debug)]
pub struct DpssProtocolMessage {
    pub context: RotationContext,
    pub plan_hash: Id32,
    pub dpss_suite: u16,
    pub dpss_session_id: Id32,
    pub qualified_set_commitment: Id32,
    pub phase: DpssPhase,
    pub sender_index: u16,
    pub recipient_index: u16,
    pub sequence: u64,
    pub provider_payload: Vec<u8>,
}

/// A round message as received and opened.
#[derive(Clone, Debug)]
pub struct IncomingDpssMessage {
    pub message: DpssProtocolMessage,
    /// The sender's signature over the message transcript verifies under
    /// the key its roster route pins.
    pub signature_verified: bool,
}

/// The next sequence number of messages from `sender` to `recipient`.
#[derive(Clone, Copy, Debug)]
pub struct SequenceCounter {
    pub sender: u16,
    pub recipient: u16,
    pub next: u64,
}

/// Why a round message was refused.
#[derive(Debug, Clone, Copy, PartialEq, Eq)]
pub enum DpssError {
    /// The sender is not in the roster the round expects.
    OutsideRoster,
    /// The message names another plan, session, phase or recipient, or
    /// repeats a sender of this batch.
    TranscriptMismatch,
    /// The sequence number is not the next one expected from the sender.
    ReplayedOrReordered,
    /// The sender's signature does not verify.
    BadSignature,
}

/// No two counters are for the same ordered pair.
pub open spec fn counters_wf(c: Seq<SequenceCounter>) -> bool {
    forall|i: int, j: int|
        0 <= i < j < c.len() ==> !((#[trigger] c[i]).sender == (#[trigger] c[j]).sender && c[i].recipient
            == c[j].recipient)
}

/// Some counter is for the pair.
pub open spec fn has_counter(c: Seq<SequenceCounter>, sender: u16, recipient: u16) -> bool {
    exists|i: int| 0 <= i < c.len() && (#[trigger] c[i]).sender == sender && c[i].recipient == recipient
}

/// The next sequence number of the pair: its counter, or 1 for a pair
/// that exchanged nothing yet.
pub open spec fn next_sequence(c: Seq<SequenceCounter>, sender: u16, recipient: u16) -> u64 {
    if has_counter(c, sender, recipient) {
        c[choose|i: int| 0 <= i < c.len() && (#[trigger] c[i]).sender == sender && c[i].recipient == recipient].next
    } else {
        1
    }
}

/// `new` advances the pair's counter to `value` and keeps every other
/// pair's.
pub open spec fn advanced(old: Seq<SequenceCounter>, new: Seq<SequenceCounter>, sender: u16, recipient: u16, value: u64) -> bool {
    &&& counters_wf(new)
    &&& next_sequence(new, sender, recipient) == value
    &&& forall|s: u16, r: u16|
        !(s == sender && r == recipient) ==> #[trigger] next_sequence(new, s, r) == next_sequence(old, s, r)
}

/// `value + 1`, staying at the maximum.
pub open spec fn successor(value: u64) -> u64 {
    if value == u64::MAX {
        value
    } else {
        (value + 1) as u64
    }
}

proof fn lemma_counter_position(c: Seq<SequenceCounter>, sender: u16, recipient: u16, i: int)
    requires
        counters_wf(c),
        0 <= i < c.len(),
        c[i].sender == sender,
        c[i].recipient == recipient,
    ensures
        next_sequence(c, sender, recipient) == c[i].next,
{
    let p = choose|p: int| 0 <= p < c.len() && (#[trigger] c[p]).sender == sender && c[p].recipient == recipient;
    if p < i {
        assert(!(c[p].sender == c[i].sender && c[p].recipient == c[i].recipient));
    } else if p > i {
        assert(!(c[i].sender == c[p].sender && c[i].recipient == c[p].recipient));
    }
}

/// Takes the pair's current sequence number and advances its counter.
pub fn take_sequence(counters: &mut Vec<SequenceCounter>, sender: u16, recipient: u16) -> (r: u64)
    requires
        counters_wf(old(counters)@),
    ensures
        r == next_sequence(old(counters)@, sender, recipient),
        advanced(old(counters)@, final(counters)@, sender, recipient, successor(r)),
{
    let ghost before = counters@;
    let mut i: usize = 0;
    while i < counters.len()
        invariant
            i <= counters@.len(),
            counters@ == before,
            before == old(counters)@,
            counters_wf(before),
            forall|k: int| 0 <= k < i ==> !((#[trigger] before[k]).sender == sender && before[k].recipient == recipient),
        decreases counters.len() - i,
    {
        if counters[i].sender == sender && counters[i].recipient == recipient {
            let current = counters[i].next;
            proof {
                lemma_counter_position(before, sender, recipient, i as int);
            }
            let next = current.saturating_add(1);
            counters.set(i, SequenceCounter { sender, recipient, next });
            proof {
                let after = counters@;
                assert(after =~= before.update(i as int, SequenceCounter { sender, recipient, next }));
                assert forall|a: int, b: int| 0 <= a < b < after.len() implies !((#[trigger] after[a]).sender
                    == (#[trigger] after[b]).sender && after[a].recipient == after[b].recipient) by {
                    assert(after[a].sender == before[a].sender && after[a].recipient == before[a].recipient);
                    assert(after[b].sender == before[b].sender && after[b].recipient == before[b].recipient);
                }
                lemma_counter_position(after, sender, recipient, i as int);
                assert forall|s: u16, r: u16| !(s == sender && r == recipient) implies #[trigger] next_sequence(
                    after,
                    s,
                    r,
                ) == next_sequence(before, s, r) by {
                    if has_counter(before, s, r) {
                        let k = choose|k: int| 0 <= k < before.len() && (#[trigger] before[k]).sender == s && before[k].recipient == r;
                        lemma_counter_position(before, s, r, k);
                        assert(after[k] == before[k]);
                        lemma_counter_position(after, s, r, k);
                    } else if has_counter(after, s, r) {
                        let k = choose|k: int| 0 <= k < after.len() && (#[trigger] after[k]).sender == s && after[k].recipient == r;
                        assert(after[k] == before[k]);
                    }
                }
            }
            return current;
        }
        i = i + 1;
    }
    counters.push(SequenceCounter { sender, recipient, next: 2 });
    proof {
        let after = counters@;
        assert(!has_counter(before, sender, recipient));
        assert forall|a: int, b: int| 0 <= a < b < after.len() implies !((#[trigger] after[a]).sender
            == (#[trigger] after[b]).sender && after[a].recipient == after[b].recipient) by {
            assert(after[a] == before[a]);
            if b < before.len() {
                assert(after[b] == before[b]);
            }
        }
        lemma_counter_position(after, sender, recipient, before.len() as int);
        assert forall|s: u16, r: u16| !(s == sender && r == recipient) implies #[trigger] next_sequence(
            after,
            s,
            r,
        ) == next_sequence(before, s, r) by {
            if has_counter(before, s, r) {
                let k = choose|k: int| 0 <= k < before.len() && (#[trigger] before[k]).sender == s && before[k].recipient == r;
                lemma_counter_position(before, s, r, k);
                assert(after[k] == before[k]);
                lemma_counter_position(after, s, r, k);
            } else if has_counter(after, s, r) {
                let k = choose|k: int| 0 <= k < after.len() && (#[trigger] after[k]).sender == s && after[k].recipient == r;
                assert(k < before.len());
                assert(after[k] == before[k]);
            }
        }
    }
    1
}

/// The pair's next sequence number.
pub fn peek_sequence(counters: &Vec<SequenceCounter>, sender: u16, recipient: u16) -> (r: u64)
    requires
        counters_wf(counters@),
    ensures
        r == next_sequence(counters@, sender, recipient),
{
    let mut i: usize = 0;
    while i < counters.len()
        invariant
            i <= counters@.len(),
            counters_wf(counters@),
            forall|k: int| 0 <= k < i ==> !((#[trigger] counters@[k]).sender == sender && counters@[k].recipient == recipient),
        decreases counters.len() - i,
    {
        if counters[i].sender == sender && counters[i].recipient == recipient {
            proof {
                lemma_counter_position(counters@, sender, recipient, i as int);
            }
            return counters[i].next;
        }
        i = i + 1;
    }
    1
}

/// The round message `sender` sends `recipient` in `phase` of the plan
/// with transcript hash `plan_hash`; it takes the pair's next sequence
/// number. The caller signs and seals it.
pub fn make_dpss_message(
    counters: &mut Vec<SequenceCounter>,
    plan: &RotationPlan,
    plan_hash: Id32,
    sender_index: u16,
    recipient_index: u16,
    phase: DpssPhase,
    provider_payload: Vec<u8>,
) -> (m: DpssProtocolMessage)
    requires
        counters_wf(old(counters)@),
    ensures
        same_context(m.context, plan.context),
        m.plan_hash == plan_hash,
        m.dpss_suite == plan.dpss_suite,
        m.dpss_session_id == plan.dpss_session_id,
        m.qualified_set_commitment == plan.dpss_qualified_set_commitment,
        m.phase == phase,
        m.sender_index == sender_index,
        m.recipient_index == recipient_index,
        m.sequence == next_sequence(old(counters)@, sender_index, recipient_index),
        m.provider_payload == provider_payload,
        advanced(old(counters)@, final(counters)@, sender_index, recipient_index, successor(m.sequence)),
{
    let sequence = take_sequence(counters, sender_index, recipient_index);
    DpssProtocolMessage {
        context: clone_context(&plan.context),
        plan_hash,
        dpss_suite: plan.dpss_suite,
        dpss_session_id: plan.dpss_session_id,
        qualified_set_commitment: plan.dpss_qualified_set_commitment,
        phase,
        sender_index,
        recipient_index,
        sequence,
        provider_payload,
    }
}

/// The message names the exact plan, session and phase and is addressed
/// to `own_index`.
pub open spec fn message_binds(
    m: DpssProtocolMessage,
    plan: RotationPlan,
    plan_hash: Id32,
    phase: DpssPhase,
    own_index: u16,
) -> bool {
    &&& same_context(m.context, plan.context)
    &&& m.plan_hash == plan_hash
    &&& m.dpss_suite == plan.dpss_suite
    &&& m.dpss_session_id == plan.dpss_session_id
    &&& m.qualified_set_commitment == plan.dpss_qualified_set_commitment
    &&& m.phase == phase
    &&& m.recipient_index == own_index
}

/// Why message `i` of a batch is refused, judged against the counters the
/// batch started from, or `None` if it is accepted.
pub open spec fn message_refusal(
    counters: Seq<SequenceCounter>,
    incoming: Seq<IncomingDpssMessage>,
    i: int,
    plan: RotationPlan,
    plan_hash: Id32,
    phase: DpssPhase,
    own_index: u16,
    senders: Seq<GuardianRouteV3>,
) -> Option<DpssError> {
    let m = incoming[i].message;
    if !in_roster(senders, m.sender_index) {
        Some(DpssError::OutsideRoster)
    } else if !message_binds(m, plan, plan_hash, phase, own_index) || exists|j: int|
        0 <= j < i && (#[trigger] incoming[j]).message.sender_index == m.sender_index {
        Some(DpssError::TranscriptMismatch)
    } else if m.sequence != next_sequence(counters, m.sender_index, own_index) {
        Some(DpssError::ReplayedOrReordered)
    } else if !incoming[i].signature_verified {
        Some(DpssError::BadSignature)
    } else {
        None
    }
}

/// Some message among the first `k` is from `sender`.
pub open spec fn sent_before(incoming: Seq<IncomingDpssMessage>, k: int, sender: u16) -> bool {
    exists|i: int| 0 <= i < k && (#[trigger] incoming[i]).message.sender_index == sender
}

/// `new` is `old` with the counter of each of the first `k` senders toward
/// `own_index` advanced past the sequence it was at.
pub open spec fn advanced_for_prefix(
    old: Seq<SequenceCounter>,
    new: Seq<SequenceCounter>,
    incoming: Seq<IncomingDpssMessage>,
    k: int,
    own_index: u16,
) -> bool {
    &&& counters_wf(new)
    &&& forall|s: u16, r: u16|
        #[trigger] next_sequence(new, s, r) == if r == own_index && sent_before(incoming, k, s) {
            successor(next_sequence(old, s, r))
        } else {
            next_sequence(old, s, r)
        }
}

/// Opens a batch of round messages for `own_index` in order: each must
/// come from a sender of the expected roster, name the exact plan,
/// session, phase and recipient, be the only one of its sender in the
/// batch, carry the next sequence number from that sender, and verify.
/// Returns each sender with its payload; the first refused message stops
/// the batch, with the counters of the messages before it advanced.
#[verifier::loop_isolation(false)]
pub fn accept_dpss_batch(
    counters: &mut Vec<SequenceCounter>,
    plan: &RotationPlan,
    plan_hash: Id32,
    own_index: u16,
    sender_routes: &Vec<GuardianRouteV3>,
    phase: DpssPhase,
    incoming: &Vec<IncomingDpssMessage>,
) -> (r: Result<Vec<(u16, Vec<u8>)>, DpssError>)
    requires
        counters_wf(old(counters)@),
    ensures
        match r {
            Ok(out) => {
                &&& forall|i: int|
                    0 <= i < incoming@.len() ==> message_refusal(
                        old(counters)@,
                        incoming@,
                        i,
                        *plan,
                        plan_hash,
                        phase,
                        own_index,
                        sender_routes@,
                    ) is None
                &&& out@.len() == incoming@.len()
                &&& forall|i: int|
                    0 <= i < out@.len() ==> (#[trigger] out@[i]).0 == incoming@[i].message.sender_index
                        && out@[i].1@ == incoming@[i].message.provider_payload@
                &&& advanced_for_prefix(old(counters)@, final(counters)@, incoming@, incoming@.len() as int, own_index)
            },
            Err(e) => exists|n: int|
                0 <= n < incoming@.len() && (forall|i: int|
                    0 <= i < n ==> message_refusal(
                        old(counters)@,
                        incoming@,
                        i,
                        *plan,
                        plan_hash,
                        phase,
                        own_index,
                        sender_routes@,
                    ) is None) && message_refusal(
                    old(counters)@,
                    incoming@,
                    n,
                    *plan,
                    plan_hash,
                    phase,
                    own_index,
                    sender_routes@,
                ) == Some(e) && advanced_for_prefix(old(counters)@, final(counters)@, incoming@, n, own_index),
        },
{
    let ghost start = counters@;
    let mut out: Vec<(u16, Vec<u8>)> = Vec::new();
    let mut i: usize = 0;
    proof {
        assert forall|s: u16, r: u16| #[trigger] next_sequence(counters@, s, r) == if r == own_index && sent_before(incoming@, 0, s) {
            successor(next_sequence(start, s, r))
        } else {
            next_sequence(start, s, r)
        } by {
            assert(!sent_before(incoming@, 0, s));
        }
    }
    while i < incoming.len()
        invariant
            i <= incoming@.len(),
            start == old(counters)@,
            advanced_for_prefix(start, counters@, incoming@, i as int, own_index),
            forall|k: int| 0 <= k < i ==> message_refusal(start, incoming@, k, *plan, plan_hash, phase, own_index, sender_routes@) is None,
            out@.len() == i,
            forall|k: int| 0 <= k < i ==> (#[trigger] out@[k]).0 == incoming@[k].message.sender_index
                && out@[k].1@ == incoming@[k].message.provider_payload@,
        decreases incoming.len() - i,
    {
        let m = &incoming[i].message;
        let mut known = false;
        let mut p: usize = 0;
        while p < sender_routes.len()
            invariant
                p <= sender_routes@.len(),
                known ==> in_roster(sender_routes@, m.sender_index),
                !known ==> forall|q: int| 0 <= q < p ==> (#[trigger] sender_routes@[q]).guardian_index != m.sender_index,
            decreases sender_routes.len() - p,
        {
            if sender_routes[p].guardian_index == m.sender_index {
                known = true;
            }
            p = p + 1;
        }
        if !known {
            return Err(DpssError::OutsideRoster);
        }
        let mut repeated = false;
        let mut j: usize = 0;
        while j < i
            invariant
                j <= i,
                repeated == exists|q: int| 0 <= q < j && (#[trigger] incoming@[q]).message.sender_index == m.sender_index,
            decreases i - j,
        {
            if incoming[j].message.sender_index == m.sender_index {
                repeated = true;
            }
            j = j + 1;
        }
        if !context_eq(&m.context, &plan.context) || !id_eq(&m.plan_hash, &plan_hash) || m.dpss_suite
            != plan.dpss_suite || !id_eq(&m.dpss_session_id, &plan.dpss_session_id) || !id_eq(
            &m.qualified_set_commitment,
            &plan.dpss_qualified_set_commitment,
        ) || m.phase != phase || m.recipient_index != own_index || repeated {
            return Err(DpssError::TranscriptMismatch);
        }
        let expected = peek_sequence(counters, m.sender_index, own_index);
        proof {
            assert(!sent_before(incoming@, i as int, m.sender_index));
            assert(next_sequence(counters@, m.sender_index, own_index) == next_sequence(start, m.sender_index, own_index));
        }
        if m.sequence != expected {
            return Err(DpssError::ReplayedOrReordered);
        }
        if !incoming[i].signature_verified {
            return Err(DpssError::BadSignature);
        }
        let ghost before = counters@;
        let taken = take_sequence(counters, m.sender_index, own_index);
        out.push((m.sender_index, m.provider_payload.clone()));
        proof {
            let sender = m.sender_index;
            assert forall|s: u16, r: u16| #[trigger] next_sequence(counters@, s, r) == if r == own_index && sent_before(
                incoming@,
                i + 1,
                s,
            ) {
                successor(next_sequence(start, s, r))
            } else {
                next_sequence(start, s, r)
            } by {
                if s == sender && r == own_index {
                    assert(incoming@[i as int].message.sender_index == s);
                    assert(sent_before(incoming@, i + 1, s));
                } else {
                    assert(next_sequence(counters@, s, r) == next_sequence(before, s, r));
                    if r == own_index {
                        if sent_before(incoming@, i + 1, s) {
                            let q = choose|q: int| 0 <= q < i + 1 && (#[trigger] incoming@[q]).message.sender_index == s;
                            assert(q != i);
                            assert(sent_before(incoming@, i as int, s));
                        } else {
                            assert(!sent_before(incoming@, i as int, s)) by {
                                if sent_before(incoming@, i as int, s) {
                                    let q = choose|q: int| 0 <= q < i && (#[trigger] incoming@[q]).message.sender_index == s;
                                    assert(0 <= q < i + 1);
                                }
                            }
                        }
                    }
                }
            }
            assert(message_refusal(start, incoming@, i as int, *plan, plan_hash, phase, own_index, sender_routes@) is None);
        }
        i = i + 1;
    }
    Ok(out)
}

/// Round messages are accepted at most once and in order: once a batch
/// accepted a message, the recipient refuses that same message in any
/// later batch, as it refuses any older sequence number of that sender
/// (short of the counter's maximum).
pub proof fn lemma_accepted_message_is_not_replayed(
    old: Seq<SequenceCounter>,
    new: Seq<SequenceCounter>,
    incoming: Seq<IncomingDpssMessage>,
    i: int,
    later: Seq<IncomingDpssMessage>,
    j: int,
    plan: RotationPlan,
    plan_hash: Id32,
    phase: DpssPhase,
    own_index: u16,
    senders: Seq<GuardianRouteV3>,
)
    requires
        0 <= i < incoming.len(),
        forall|k: int| 0 <= k < incoming.len() ==> message_refusal(old, incoming, k, plan, plan_hash, phase, own_index, senders) is None,
        advanced_for_prefix(old, new, incoming, incoming.len() as int, own_index),
        0 <= j < later.len(),
        later[j].message.sender_index == incoming[i].message.sender_index,
        later[j].message.sequence <= incoming[i].message.sequence,
        incoming[i].message.sequence < u64::MAX,
    ensures
        message_refusal(new, later, j, plan, plan_hash, phase, own_index, senders) is Some,
{
    let sender = incoming[i].message.sender_index;
    assert(message_refusal(old, incoming, i, plan, plan_hash, phase, own_index, senders) is None);
    assert(sent_before(incoming, incoming.len() as int, sender));
    assert(next_sequence(new, sender, own_index) == successor(next_sequence(old, sender, own_index)));
}

} // verus!
