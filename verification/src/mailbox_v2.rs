//! Protocol-v2 signer and guardian mailboxes: what a signer approves and
//! votes to release, and how a guardian begins, cancels and releases one
//! exact request. Sealing, signing and storage are left to the caller.
use vstd::prelude::*;

use crate::bytes::{id_eq, Id32};
use crate::epoch::saturating_add;
use crate::protocol_v2::{
    begin_for_policy_outcome, owner_cancel_ok, release_for_policy_outcome, request_current,
    validate_begin_for_policy, validate_owner_cancel_for_policy, validate_release_for_policy,
    validate_signer_request, BeginRecoveryCertificate, GuardianPolicy, OwnerCancelCertificate,
    ProtocolError, RecoveryRequest, ReleaseCertificate, SignerPolicy,
};

verus! {

/// A request addressed to a signer or guardian mailbox.
#[derive(Clone, Debug)]
pub enum MailboxRequest {
    SignerApprove { request: RecoveryRequest },
    SignerRelease { request: RecoveryRequest },
    GuardianBegin { certificate: BeginRecoveryCertificate },
    GuardianCancel { request: RecoveryRequest, certificate: OwnerCancelCertificate },
    GuardianRelease { request: RecoveryRequest, certificate: ReleaseCertificate },
}

impl MailboxRequest {
    /// The recovery request the message is about.
    pub open spec fn request_of(self) -> RecoveryRequest {
        match self {
            MailboxRequest::SignerApprove { request } => request,
            MailboxRequest::SignerRelease { request } => request,
            MailboxRequest::GuardianBegin { certificate } => certificate.request,
            MailboxRequest::GuardianCancel { request, .. } => request,
            MailboxRequest::GuardianRelease { request, .. } => request,
        }
    }

    /// The recovery request the message is about.
    pub fn request(&self) -> (r: &RecoveryRequest)
        ensures
            *r == self.request_of(),
    {
        match self {
            MailboxRequest::SignerApprove { request } => request,
            MailboxRequest::SignerRelease { request } => request,
            MailboxRequest::GuardianBegin { certificate } => &certificate.request,
            MailboxRequest::GuardianCancel { request, .. } => request,
            MailboxRequest::GuardianRelease { request, .. } => request,
        }
    }
}

/// What a mailbox answers; the caller seals and signs it.
#[derive(Clone, Copy, Debug)]
pub enum MailboxResponse {
    /// Seal the authorization share and sign the approval of this digest.
    SignerContribution { request_digest: Id32, signer_id: u16 },
    /// Sign a Release vote for this digest.
    ReleaseVote { request_digest: Id32, signer_id: u16 },
    /// Begin is accepted; Release may come at this monotonic time.
    BeginAccepted { not_before_monotonic: u64 },
    /// Sign this acknowledgement of the owner's cancellation.
    CancellationAccepted { request_digest: Id32, owner_cancel_transcript_digest: Id32, guardian_index: u16 },
    /// The request was cancelled; nothing is released.
    ReleaseRefused,
    /// Sign and send this guardian's record for this digest.
    GuardianContribution { request_digest: Id32, guardian_index: u16 },
}

impl MailboxResponse {
    /// The answer's name in logs.
    pub fn kind(&self) -> (r: &'static str)
        ensures
            r@ == match *self {
                MailboxResponse::SignerContribution { .. } => "signer_contribution"@,
                MailboxResponse::ReleaseVote { .. } => "release_vote"@,
                MailboxResponse::BeginAccepted { .. } => "begin_accepted"@,
                MailboxResponse::CancellationAccepted { .. } => "cancellation_accepted"@,
                MailboxResponse::ReleaseRefused => "release_refused"@,
                MailboxResponse::GuardianContribution { .. } => "guardian_contribution"@,
            },
    {
        match self {
            MailboxResponse::SignerContribution { .. } => "signer_contribution",
            MailboxResponse::ReleaseVote { .. } => "release_vote",
            MailboxResponse::BeginAccepted { .. } => "begin_accepted",
            MailboxResponse::CancellationAccepted { .. } => "cancellation_accepted",
            MailboxResponse::ReleaseRefused => "release_refused",
            MailboxResponse::GuardianContribution { .. } => "guardian_contribution",
        }
    }
}

/// Why a mailbox refused a request.
#[derive(Debug, Clone, Copy, PartialEq, Eq)]
pub enum MailboxError {
    /// The request or its evidence was refused.
    Protocol(ProtocolError),
    /// Automatic approval is switched off on this signer.
    ApprovalDisabled,
    /// The signer accepts at most one approval request per second.
    RateLimited,
    /// The request id is already bound to another request digest.
    RequestIdConflict,
    /// The request nonce was already used by another request.
    NonceReplayed,
    /// The signer never approved this exact request.
    NeverApproved,
    /// The message is not one a signer answers.
    NotForSigner,
    /// The message is not one a guardian answers.
    NotForGuardian,
    /// The request was permanently cancelled by its owner.
    PermanentlyCancelled,
    /// The request id or nonce was already begun.
    Replayed,
    /// The guardian already released material for the request.
    AlreadyReleased,
    /// The cancellation conflicts with the stored cancellation.
    CancelConflict,
    /// No Begin was accepted for the request.
    NotBegun,
    /// The guardian rebooted during the delay and fails closed.
    RebootedDuringDelay,
    /// The Release names another digest than the accepted Begin.
    ReleaseMismatch,
    /// The delay has not elapsed or the request expired.
    DelayIncomplete,
}

/// A request id bound to one request digest.
#[derive(Clone, Copy, Debug)]
pub struct RequestDigest {
    pub request_id: Id32,
    pub digest: Id32,
}

/// Some entry is for `id`.
pub open spec fn has_digest(s: Seq<RequestDigest>, id: Id32) -> bool {
    exists|i: int| 0 <= i < s.len() && (#[trigger] s[i]).request_id == id
}

/// Position of the entry for `id`.
pub open spec fn digest_position(s: Seq<RequestDigest>, id: Id32) -> int {
    choose|i: int| 0 <= i < s.len() && (#[trigger] s[i]).request_id == id
}

/// `id` is bound to exactly `digest`.
pub open spec fn bound_to(s: Seq<RequestDigest>, id: Id32, digest: Id32) -> bool {
    has_digest(s, id) && s[digest_position(s, id)].digest == digest
}

/// The entries once `id` is bound to `digest`.
pub open spec fn with_digest(s: Seq<RequestDigest>, id: Id32, digest: Id32) -> Seq<RequestDigest> {
    if has_digest(s, id) {
        s.update(digest_position(s, id), RequestDigest { request_id: id, digest })
    } else {
        s.push(RequestDigest { request_id: id, digest })
    }
}

/// Request ids are distinct.
pub open spec fn digests_unique(s: Seq<RequestDigest>) -> bool {
    forall|i: int, j: int| 0 <= i < j < s.len() ==> (#[trigger] s[i]).request_id != (#[trigger] s[j]).request_id
}

/// Position of the entry for `id`, if any.
fn find_digest(s: &Vec<RequestDigest>, id: &Id32) -> (r: Option<usize>)
    ensures
        match r {
            Some(i) => i < s@.len() && s@[i as int].request_id == *id,
            None => !has_digest(s@, *id),
        },
{
    let mut i: usize = 0;
    while i < s.len()
        invariant
            i <= s@.len(),
            forall|k: int| 0 <= k < i ==> (#[trigger] s@[k]).request_id != *id,
        decreases s.len() - i,
    {
        if id_eq(&s[i].request_id, id) {
            return Some(i);
        }
        i = i + 1;
    }
    None
}

/// With distinct ids, the entry found for `id` is at `digest_position`.
proof fn lemma_digest_position(s: Seq<RequestDigest>, id: Id32, i: int)
    requires
        digests_unique(s),
        0 <= i < s.len(),
        s[i].request_id == id,
    ensures
        has_digest(s, id),
        digest_position(s, id) == i,
{
    assert(s[i].request_id == id);
    let p = digest_position(s, id);
    if p < i {
        assert(s[p].request_id != s[i].request_id);
    } else if p > i {
        assert(s[i].request_id != s[p].request_id);
    }
}

/// Whether `id` is bound to exactly `digest`.
fn is_bound_to(s: &Vec<RequestDigest>, id: &Id32, digest: &Id32) -> (b: bool)
    requires
        digests_unique(s@),
    ensures
        b == bound_to(s@, *id, *digest),
{
    match find_digest(s, id) {
        Some(i) => {
            proof {
                lemma_digest_position(s@, *id, i as int);
            }
            id_eq(&s[i].digest, digest)
        },
        None => false,
    }
}

/// Binds `id` to `digest`.
fn bind_digest(s: &mut Vec<RequestDigest>, id: Id32, digest: Id32)
    requires
        digests_unique(old(s)@),
    ensures
        final(s)@ == with_digest(old(s)@, id, digest),
        digests_unique(final(s)@),
{
    match find_digest(s, &id) {
        Some(i) => {
            proof {
                lemma_digest_position(s@, id, i as int);
            }
            s.set(i, RequestDigest { request_id: id, digest });
        },
        None => {
            s.push(RequestDigest { request_id: id, digest });
        },
    }
}

/// Whether `nonce` was used.
fn nonce_seen(nonces: &Vec<Id32>, nonce: &Id32) -> (b: bool)
    ensures
        b == nonces@.contains(*nonce),
{
    let mut i: usize = 0;
    while i < nonces.len()
        invariant
            i <= nonces@.len(),
            forall|k: int| 0 <= k < i ==> nonces@[k] != *nonce,
        decreases nonces.len() - i,
    {
        if id_eq(&nonces[i], nonce) {
            return true;
        }
        i = i + 1;
    }
    false
}

/// What a protocol-v2 signer holds for one mailbox.
#[derive(Clone, Debug)]
pub struct SignerMailboxEntry {
    pub policy: SignerPolicy,
    pub signer_id: u16,
    /// Request ids this signer approved, each bound to the approved digest.
    pub seen_requests: Vec<RequestDigest>,
    /// Nonces of approved requests.
    pub seen_nonces: Vec<Id32>,
    /// When this mailbox last took an approval request.
    pub last_approval_at: Option<u64>,
}

/// Approved request ids are distinct and nonces are used once.
pub open spec fn signer_mailbox_wf(entry: SignerMailboxEntry) -> bool {
    digests_unique(entry.seen_requests@) && entry.seen_nonces@.no_duplicates()
}

/// The signer's state after a request: approvals, nonces, last approval time.
pub type SignerMailboxStep = (Seq<RequestDigest>, Seq<Id32>, Option<u64>, Result<MailboxResponse, MailboxError>);

/// A signer's answer to one mailbox message.
pub open spec fn signer_mailbox_step(
    entry: SignerMailboxEntry,
    action: MailboxRequest,
    now: u64,
    auto_approve: bool,
) -> SignerMailboxStep {
    let seen = entry.seen_requests@;
    let nonces = entry.seen_nonces@;
    let last = entry.last_approval_at;
    let request = action.request_of();
    let id = request.request_id;
    let digest = request.digest;
    if !auto_approve {
        (seen, nonces, last, Err(MailboxError::ApprovalDisabled))
    } else if !request_current(request, entry.policy.config_id, entry.policy.config_version, now) {
        (seen, nonces, last, Err(MailboxError::Protocol(ProtocolError::InvalidRequest)))
    } else {
        match action {
            MailboxRequest::SignerApprove { .. } => if last matches Some(l) && now < saturating_add(l, 1) {
                (seen, nonces, last, Err(MailboxError::RateLimited))
            } else if has_digest(seen, id) {
                if bound_to(seen, id, digest) {
                    (
                        seen,
                        nonces,
                        Some(now),
                        Ok(MailboxResponse::SignerContribution { request_digest: digest, signer_id: entry.signer_id }),
                    )
                } else {
                    (seen, nonces, Some(now), Err(MailboxError::RequestIdConflict))
                }
            } else if nonces.contains(request.nonce) {
                (seen, nonces, Some(now), Err(MailboxError::NonceReplayed))
            } else {
                (
                    seen.push(RequestDigest { request_id: id, digest }),
                    nonces.push(request.nonce),
                    Some(now),
                    Ok(MailboxResponse::SignerContribution { request_digest: digest, signer_id: entry.signer_id }),
                )
            },
            MailboxRequest::SignerRelease { .. } => if bound_to(seen, id, digest) {
                (seen, nonces, last, Ok(MailboxResponse::ReleaseVote { request_digest: digest, signer_id: entry.signer_id }))
            } else {
                (seen, nonces, last, Err(MailboxError::NeverApproved))
            },
            _ => (seen, nonces, last, Err(MailboxError::NotForSigner)),
        }
    }
}

/// Answers one message to a protocol-v2 signer mailbox: an approval binds
/// the request id to its digest and spends its nonce, at most once per
/// second; a Release vote is given only for the exact approved request.
pub fn signer_mailbox(
    entry: &mut SignerMailboxEntry,
    action: &MailboxRequest,
    now: u64,
    auto_approve: bool,
) -> (r: Result<MailboxResponse, MailboxError>)
    requires
        signer_mailbox_wf(*old(entry)),
    ensures
        (final(entry).seen_requests@, final(entry).seen_nonces@, final(entry).last_approval_at, r)
            == signer_mailbox_step(*old(entry), *action, now, auto_approve),
        final(entry).policy == old(entry).policy,
        final(entry).signer_id == old(entry).signer_id,
        signer_mailbox_wf(*final(entry)),
{
    if !auto_approve {
        return Err(MailboxError::ApprovalDisabled);
    }
    let request = action.request();
    if validate_signer_request(&entry.policy, request, now).is_err() {
        return Err(MailboxError::Protocol(ProtocolError::InvalidRequest));
    }
    let id = request.request_id;
    let digest = request.digest;
    match action {
        MailboxRequest::SignerApprove { .. } => {
            if let Some(l) = entry.last_approval_at {
                if now < l.saturating_add(1) {
                    return Err(MailboxError::RateLimited);
                }
            }
            entry.last_approval_at = Some(now);
            if find_digest(&entry.seen_requests, &id).is_some() {
                if is_bound_to(&entry.seen_requests, &id, &digest) {
                    return Ok(MailboxResponse::SignerContribution { request_digest: digest, signer_id: entry.signer_id });
                }
                return Err(MailboxError::RequestIdConflict);
            }
            if nonce_seen(&entry.seen_nonces, &request.nonce) {
                return Err(MailboxError::NonceReplayed);
            }
            entry.seen_requests.push(RequestDigest { request_id: id, digest });
            entry.seen_nonces.push(request.nonce);
            Ok(MailboxResponse::SignerContribution { request_digest: digest, signer_id: entry.signer_id })
        },
        MailboxRequest::SignerRelease { .. } => {
            if is_bound_to(&entry.seen_requests, &id, &digest) {
                Ok(MailboxResponse::ReleaseVote { request_digest: digest, signer_id: entry.signer_id })
            } else {
                Err(MailboxError::NeverApproved)
            }
        },
        _ => Err(MailboxError::NotForSigner),
    }
}

/// A Begin a guardian accepted and is delaying.
#[derive(Clone, Debug)]
pub struct PendingNetworkRecovery {
    pub request: RecoveryRequest,
    pub request_digest: Id32,
    pub accepted_wall_time: u64,
    pub started_monotonic: u64,
    pub not_before_monotonic: u64,
    pub boot_id: String,
}

/// What a protocol-v2 guardian holds for one mailbox.
#[derive(Clone, Debug)]
pub struct GuardianEntry {
    pub policy: GuardianPolicy,
    pub guardian_index: u16,
    pub pending: Vec<PendingNetworkRecovery>,
    /// Owner cancellations, by request id.
    pub cancelled: Vec<RequestDigest>,
    /// Releases, by request id.
    pub released: Vec<RequestDigest>,
    pub seen_nonces: Vec<Id32>,
}

impl GuardianEntry {
    /// A freshly provisioned guardian mailbox.
    pub fn new(policy: GuardianPolicy, guardian_index: u16) -> (e: GuardianEntry)
        ensures
            e.policy == policy,
            e.guardian_index == guardian_index,
            e.pending@.len() == 0,
            e.cancelled@.len() == 0,
            e.released@.len() == 0,
            e.seen_nonces@.len() == 0,
    {
        GuardianEntry {
            policy,
            guardian_index,
            pending: Vec::new(),
            cancelled: Vec::new(),
            released: Vec::new(),
            seen_nonces: Vec::new(),
        }
    }
}

/// Some pending Begin is for `id`.
pub open spec fn has_pending(s: Seq<PendingNetworkRecovery>, id: Id32) -> bool {
    exists|i: int| 0 <= i < s.len() && (#[trigger] s[i]).request.request_id == id
}

/// Position of the pending Begin for `id`.
pub open spec fn pending_position(s: Seq<PendingNetworkRecovery>, id: Id32) -> int {
    choose|i: int| 0 <= i < s.len() && (#[trigger] s[i]).request.request_id == id
}

/// Pending ids, cancellations and releases are keyed uniquely and nonces
/// are used once.
pub open spec fn guardian_entry_wf(entry: GuardianEntry) -> bool {
    &&& forall|i: int, j: int|
        0 <= i < j < entry.pending@.len() ==> (#[trigger] entry.pending@[i]).request.request_id
            != (#[trigger] entry.pending@[j]).request.request_id
    &&& digests_unique(entry.cancelled@)
    &&& digests_unique(entry.released@)
    &&& entry.seen_nonces@.no_duplicates()
}

/// The key the answer is sealed to: the owner's for a cancellation, the
/// recovery recipient's otherwise.
pub open spec fn response_key_of(action: MailboxRequest) -> Seq<u8> {
    match action {
        MailboxRequest::GuardianCancel { certificate, .. } => certificate.cancel_response_recipient_key@,
        _ => action.request_of().recovery_recipient_key@,
    }
}

/// The key a guardian's answer is sealed to.
pub fn response_recipient_key(action: &MailboxRequest) -> (r: &Vec<u8>)
    ensures
        r@ == response_key_of(*action),
{
    match action {
        MailboxRequest::GuardianCancel { certificate, .. } => &certificate.cancel_response_recipient_key,
        _ => &action.request().recovery_recipient_key,
    }
}

/// A guardian's answer to one mailbox message.
pub open spec fn guardian_mailbox_answer(
    entry: GuardianEntry,
    action: MailboxRequest,
    wall_now: u64,
    monotonic_now: u64,
    boot_id: Seq<char>,
) -> Result<MailboxResponse, MailboxError> {
    let pending = entry.pending@;
    let cancelled = entry.cancelled@;
    let released = entry.released@;
    let policy = entry.policy;
    let request = action.request_of();
    let id = request.request_id;
    let digest = request.digest;
    if action is GuardianRelease && bound_to(cancelled, id, digest) {
        Ok(MailboxResponse::ReleaseRefused)
    } else {
        match action {
            MailboxRequest::GuardianBegin { certificate } => match begin_for_policy_outcome(
                certificate,
                policy,
                wall_now,
            ) {
                Err(e) => Err(MailboxError::Protocol(e)),
                Ok(_) => if bound_to(cancelled, id, digest) {
                    Err(MailboxError::PermanentlyCancelled)
                } else if has_pending(pending, id) || entry.seen_nonces@.contains(request.nonce) {
                    Err(MailboxError::Replayed)
                } else {
                    Ok(
                        MailboxResponse::BeginAccepted {
                            not_before_monotonic: saturating_add(
                                monotonic_now,
                                policy.minimum_recovery_delay,
                            ) as u64,
                        },
                    )
                },
            },
            MailboxRequest::GuardianCancel { request, certificate } => if !owner_cancel_ok(
                certificate,
                policy,
                request,
                wall_now,
            ) {
                Err(MailboxError::Protocol(ProtocolError::InvalidOwnerCancellation))
            } else if bound_to(released, id, digest) {
                Err(MailboxError::AlreadyReleased)
            } else if has_digest(cancelled, id) && !bound_to(cancelled, id, digest) {
                Err(MailboxError::CancelConflict)
            } else {
                Ok(
                    MailboxResponse::CancellationAccepted {
                        request_digest: digest,
                        owner_cancel_transcript_digest: certificate.transcript_hash,
                        guardian_index: entry.guardian_index,
                    },
                )
            },
            MailboxRequest::GuardianRelease { request, certificate } => match release_for_policy_outcome(
                certificate,
                policy,
                request,
                wall_now,
            ) {
                Err(e) => Err(MailboxError::Protocol(e)),
                Ok(_) => if !has_pending(pending, id) {
                    Err(MailboxError::NotBegun)
                } else {
                    let p = pending[pending_position(pending, id)];
                    if p.boot_id@ != boot_id {
                        Err(MailboxError::RebootedDuringDelay)
                    } else if p.request_digest != digest {
                        Err(MailboxError::ReleaseMismatch)
                    } else if monotonic_now < saturating_add(
                        p.started_monotonic,
                        policy.minimum_recovery_delay,
                    ) || wall_now >= p.request.expiry {
                        Err(MailboxError::DelayIncomplete)
                    } else {
                        Ok(
                            MailboxResponse::GuardianContribution {
                                request_digest: digest,
                                guardian_index: entry.guardian_index,
                            },
                        )
                    }
                },
            },
            _ => Err(MailboxError::NotForGuardian),
        }
    }
}

/// The pending Begin records the exact request, digest, times and boot.
pub open spec fn records_begin(
    p: PendingNetworkRecovery,
    request: RecoveryRequest,
    wall_now: u64,
    monotonic_now: u64,
    not_before: u64,
    boot_id: Seq<char>,
) -> bool {
    &&& p.request == request
    &&& p.request_digest == request.digest
    &&& p.accepted_wall_time == wall_now
    &&& p.started_monotonic == monotonic_now
    &&& p.not_before_monotonic == not_before
    &&& p.boot_id@ == boot_id
}

/// How one message moves a guardian from `old` to `new`: an accepted Begin
/// adds its pending record and spends its nonce, an accepted cancellation
/// binds the request id to its digest, a release records the release, and
/// anything else changes nothing.
pub open spec fn guardian_mailbox_transition(
    old: GuardianEntry,
    new: GuardianEntry,
    action: MailboxRequest,
    wall_now: u64,
    monotonic_now: u64,
    boot_id: Seq<char>,
    r: Result<MailboxResponse, MailboxError>,
) -> bool {
    let request = action.request_of();
    &&& r == guardian_mailbox_answer(old, action, wall_now, monotonic_now, boot_id)
    &&& new.policy == old.policy
    &&& new.guardian_index == old.guardian_index
    &&& match r {
        Ok(MailboxResponse::BeginAccepted { not_before_monotonic }) => {
            &&& new.pending@.len() == old.pending@.len() + 1
            &&& new.pending@.drop_last() == old.pending@
            &&& records_begin(new.pending@.last(), request, wall_now, monotonic_now, not_before_monotonic, boot_id)
            &&& new.seen_nonces@ == old.seen_nonces@.push(request.nonce)
            &&& new.cancelled@ == old.cancelled@
            &&& new.released@ == old.released@
        },
        Ok(MailboxResponse::CancellationAccepted { .. }) => {
            &&& new.pending@ == old.pending@
            &&& new.seen_nonces@ == old.seen_nonces@
            &&& new.cancelled@ == with_digest(old.cancelled@, request.request_id, request.digest)
            &&& new.released@ == old.released@
        },
        Ok(MailboxResponse::GuardianContribution { .. }) => {
            &&& new.pending@ == old.pending@
            &&& new.seen_nonces@ == old.seen_nonces@
            &&& new.cancelled@ == old.cancelled@
            &&& new.released@ == with_digest(old.released@, request.request_id, request.digest)
        },
        _ => {
            &&& new.pending@ == old.pending@
            &&& new.seen_nonces@ == old.seen_nonces@
            &&& new.cancelled@ == old.cancelled@
            &&& new.released@ == old.released@
        },
    }
}

/// Position of the pending Begin for `id`, if any.
fn find_pending(s: &Vec<PendingNetworkRecovery>, id: &Id32) -> (r: Option<usize>)
    ensures
        match r {
            Some(i) => i < s@.len() && s@[i as int].request.request_id == *id,
            None => !has_pending(s@, *id),
        },
{
    let mut i: usize = 0;
    while i < s.len()
        invariant
            i <= s@.len(),
            forall|k: int| 0 <= k < i ==> (#[trigger] s@[k]).request.request_id != *id,
        decreases s.len() - i,
    {
        if id_eq(&s[i].request.request_id, id) {
            return Some(i);
        }
        i = i + 1;
    }
    None
}

/// Answers one message to a protocol-v2 guardian mailbox: Begin starts the
/// local delay once per request id and nonce, the owner's cancellation
/// permanently refuses the request unless material was already released,
/// and Release hands out this guardian's record only for the accepted,
/// uncancelled request after its delay on the same boot and before expiry.
pub fn guardian_mailbox(
    entry: &mut GuardianEntry,
    action: MailboxRequest,
    wall_now: u64,
    monotonic_now: u64,
    boot_id: &str,
) -> (r: Result<MailboxResponse, MailboxError>)
    requires
        guardian_entry_wf(*old(entry)),
    ensures
        guardian_mailbox_transition(*old(entry), *final(entry), action, wall_now, monotonic_now, boot_id@, r),
        guardian_entry_wf(*final(entry)),
{
    let id = action.request().request_id;
    let digest = action.request().digest;
    if let MailboxRequest::GuardianRelease { .. } = &action {
        if is_bound_to(&entry.cancelled, &id, &digest) {
            return Ok(MailboxResponse::ReleaseRefused);
        }
    }
    match action {
        MailboxRequest::GuardianBegin { certificate } => {
            if let Err(e) = validate_begin_for_policy(&certificate, &entry.policy, wall_now) {
                return Err(MailboxError::Protocol(e));
            }
            if is_bound_to(&entry.cancelled, &id, &digest) {
                return Err(MailboxError::PermanentlyCancelled);
            }
            let nonce = certificate.request.nonce;
            if find_pending(&entry.pending, &id).is_some() || nonce_seen(&entry.seen_nonces, &nonce) {
                return Err(MailboxError::Replayed);
            }
            let not_before = monotonic_now.saturating_add(entry.policy.minimum_recovery_delay);
            let ghost before = entry.pending@;
            entry.pending.push(
                PendingNetworkRecovery {
                    request: certificate.request,
                    request_digest: digest,
                    accepted_wall_time: wall_now,
                    started_monotonic: monotonic_now,
                    not_before_monotonic: not_before,
                    boot_id: boot_id.to_owned(),
                },
            );
            entry.seen_nonces.push(nonce);
            proof {
                assert(entry.pending@.drop_last() =~= before);
            }
            Ok(MailboxResponse::BeginAccepted { not_before_monotonic: not_before })
        },
        MailboxRequest::GuardianCancel { request, certificate } => {
            if validate_owner_cancel_for_policy(&certificate, &entry.policy, &request, wall_now).is_err() {
                return Err(MailboxError::Protocol(ProtocolError::InvalidOwnerCancellation));
            }
            if is_bound_to(&entry.released, &id, &digest) {
                return Err(MailboxError::AlreadyReleased);
            }
            if find_digest(&entry.cancelled, &id).is_some() && !is_bound_to(&entry.cancelled, &id, &digest) {
                return Err(MailboxError::CancelConflict);
            }
            bind_digest(&mut entry.cancelled, id, digest);
            Ok(
                MailboxResponse::CancellationAccepted {
                    request_digest: digest,
                    owner_cancel_transcript_digest: certificate.transcript_hash,
                    guardian_index: entry.guardian_index,
                },
            )
        },
        MailboxRequest::GuardianRelease { request, certificate } => {
            if let Err(e) = validate_release_for_policy(&certificate, &entry.policy, &request, wall_now) {
                return Err(MailboxError::Protocol(e));
            }
            let i = match find_pending(&entry.pending, &id) {
                Some(i) => i,
                None => {
                    return Err(MailboxError::NotBegun);
                },
            };
            proof {
                let s = entry.pending@;
                let q = pending_position(s, id);
                if q < i {
                    assert(s[q].request.request_id != s[i as int].request.request_id);
                } else if q > i {
                    assert(s[i as int].request.request_id != s[q].request.request_id);
                }
            }
            let boot = boot_id.to_owned();
            if !(entry.pending[i].boot_id == boot) {
                return Err(MailboxError::RebootedDuringDelay);
            }
            if !id_eq(&entry.pending[i].request_digest, &digest) {
                return Err(MailboxError::ReleaseMismatch);
            }
            if monotonic_now < entry.pending[i].started_monotonic.saturating_add(
                entry.policy.minimum_recovery_delay,
            ) || wall_now >= entry.pending[i].request.expiry {
                return Err(MailboxError::DelayIncomplete);
            }
            bind_digest(&mut entry.released, id, digest);
            Ok(
                MailboxResponse::GuardianContribution {
                    request_digest: digest,
                    guardian_index: entry.guardian_index,
                },
            )
        },
        _ => Err(MailboxError::NotForGuardian),
    }
}

/// Binding `id` keeps every other binding, and keeps `id`'s own binding
/// when it was already bound to the same digest.
proof fn lemma_with_digest_keeps(s: Seq<RequestDigest>, id: Id32, digest: Id32, x: Id32, d: Id32)
    requires
        digests_unique(s),
        bound_to(s, x, d),
        x != id || !has_digest(s, id) || bound_to(s, id, digest),
    ensures
        bound_to(with_digest(s, id, digest), x, d),
{
    let k = digest_position(s, x);
    let t = with_digest(s, id, digest);
    if has_digest(s, id) {
        let p = digest_position(s, id);
        assert(t[k].request_id == x);
        if x == id {
            lemma_digest_position(s, id, p);
        }
        assert(digests_unique(t)) by {
            assert forall|i: int, j: int| 0 <= i < j < t.len() implies (#[trigger] t[i]).request_id
                != (#[trigger] t[j]).request_id by {
                assert(t[i].request_id == s[i].request_id && t[j].request_id == s[j].request_id);
            }
        }
        lemma_digest_position(t, x, k);
    } else {
        assert(t[k] == s[k]);
        assert(digests_unique(t)) by {
            assert forall|i: int, j: int| 0 <= i < j < t.len() implies (#[trigger] t[i]).request_id
                != (#[trigger] t[j]).request_id by {
                if j == s.len() {
                    assert(s[i].request_id != id);
                }
            }
        }
        lemma_digest_position(t, x, k);
    }
}

/// An owner cancellation is permanent: no message removes or rebinds a
/// cancelled request id.
pub proof fn lemma_v2_cancellations_persist(
    old: GuardianEntry,
    new: GuardianEntry,
    action: MailboxRequest,
    wall_now: u64,
    monotonic_now: u64,
    boot_id: Seq<char>,
    r: Result<MailboxResponse, MailboxError>,
    id: Id32,
    digest: Id32,
)
    requires
        guardian_entry_wf(old),
        guardian_mailbox_transition(old, new, action, wall_now, monotonic_now, boot_id, r),
        bound_to(old.cancelled@, id, digest),
    ensures
        bound_to(new.cancelled@, id, digest),
{
    let request = action.request_of();
    if r matches Ok(MailboxResponse::CancellationAccepted { .. }) {
        lemma_with_digest_keeps(old.cancelled@, request.request_id, request.digest, id, digest);
    }
}

/// A cancelled request is never released: a Release for the exact
/// cancelled request is answered with a refusal, whatever else it carries.
pub proof fn lemma_v2_cancellation_blocks_release(
    entry: GuardianEntry,
    request: RecoveryRequest,
    certificate: ReleaseCertificate,
    wall_now: u64,
    monotonic_now: u64,
    boot_id: Seq<char>,
)
    requires
        bound_to(entry.cancelled@, request.request_id, request.digest),
    ensures
        guardian_mailbox_answer(
            entry,
            MailboxRequest::GuardianRelease { request, certificate },
            wall_now,
            monotonic_now,
            boot_id,
        ) == Ok::<MailboxResponse, MailboxError>(MailboxResponse::ReleaseRefused),
{
}

/// Cancellation is not retroactive: once a guardian released its material
/// for a request, the owner's cancellation of that exact request is refused.
pub proof fn lemma_v2_no_cancel_after_release(
    entry: GuardianEntry,
    request: RecoveryRequest,
    certificate: OwnerCancelCertificate,
    wall_now: u64,
    monotonic_now: u64,
    boot_id: Seq<char>,
)
    requires
        bound_to(entry.released@, request.request_id, request.digest),
    ensures
        guardian_mailbox_answer(
            entry,
            MailboxRequest::GuardianCancel { request, certificate },
            wall_now,
            monotonic_now,
            boot_id,
        ) is Err,
{
}

/// A guardian releases only an accepted Begin of the exact request, on the
/// boot that accepted it, after the policy delay and before expiry, and
/// only while the request is not cancelled.
pub proof fn lemma_v2_release_only_after_delay(
    entry: GuardianEntry,
    action: MailboxRequest,
    wall_now: u64,
    monotonic_now: u64,
    boot_id: Seq<char>,
)
    requires
        guardian_mailbox_answer(entry, action, wall_now, monotonic_now, boot_id) matches Ok(
            MailboxResponse::GuardianContribution { .. },
        ),
    ensures
        ({
            let request = action.request_of();
            let p = entry.pending@[pending_position(entry.pending@, request.request_id)];
            &&& !bound_to(entry.cancelled@, request.request_id, request.digest)
            &&& has_pending(entry.pending@, request.request_id)
            &&& p.request_digest == request.digest
            &&& p.boot_id@ == boot_id
            &&& monotonic_now >= saturating_add(p.started_monotonic, entry.policy.minimum_recovery_delay)
            &&& wall_now < p.request.expiry
        }),
{
}

/// A signer votes to release only a request it approved with the same
/// digest, and an approval, once given, stays bound to its digest.
pub proof fn lemma_v2_signer_release_needs_approval(
    entry: SignerMailboxEntry,
    action: MailboxRequest,
    now: u64,
    auto_approve: bool,
    id: Id32,
    digest: Id32,
)
    requires
        signer_mailbox_wf(entry),
    ensures
        ({
            let step = signer_mailbox_step(entry, action, now, auto_approve);
            let request = action.request_of();
            &&& step.3 matches Ok(MailboxResponse::ReleaseVote { .. }) ==> bound_to(
                entry.seen_requests@,
                request.request_id,
                request.digest,
            )
            &&& bound_to(entry.seen_requests@, id, digest) ==> bound_to(step.0, id, digest)
        }),
{
    let step = signer_mailbox_step(entry, action, now, auto_approve);
    let seen = entry.seen_requests@;
    if bound_to(seen, id, digest) && step.0 != seen {
        let k = digest_position(seen, id);
        let t = step.0;
        assert(t[k] == seen[k]);
        assert(digests_unique(t)) by {
            assert forall|i: int, j: int| 0 <= i < j < t.len() implies (#[trigger] t[i]).request_id
                != (#[trigger] t[j]).request_id by {
                if j == seen.len() {
                    assert(seen[i].request_id != action.request_of().request_id);
                }
            }
        }
        lemma_digest_position(t, id, k);
    }
}

} // verus!
