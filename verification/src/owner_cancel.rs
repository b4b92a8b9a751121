//! The owner's protocol-v2 hard cancellation of one request: which owner
//! control state may cancel, which guardian acknowledgements count, and
//! when enough guardians hold a tombstone that recovery can no longer
//! reach its threshold.
use vstd::prelude::*;

use crate::bytes::{id_eq, Id32};
use crate::node::{OwnerCancelResult, PROTOCOL_VERSION};
use crate::protocol_v2::{
    owner_cancel_ack_ok, validate_owner_cancel_ack, GuardianRoute, OwnerCancelAck,
    OwnerCancelCertificate, RecoveryRequest,
};
use crate::quorum::{lemma_cancel_acks_break_recovery_quorum, required_cancel_acks};
use crate::text::{hex_encode, hex_lower};

verus! {

/// Why the owner's cancellation could not proceed or did not take hold.
#[derive(Debug, Clone, Copy, PartialEq, Eq)]
pub enum OwnerCancelError {
    /// The owner control state and the request do not describe one valid
    /// active configuration.
    InvalidControlState,
    /// The owner's private cancellation key does not match its pinned
    /// public key.
    KeyMismatch,
    /// Fewer guardians acknowledged than needed to break the recovery
    /// threshold.
    NotEnoughAcknowledgements,
}

/// The owner's private control state, as far as cancellation reads it.
#[derive(Clone, Debug)]
pub struct OwnerControlFile {
    pub protocol_version: u16,
    pub config_id: Id32,
    pub config_version: u64,
    pub owner_cancel_public_key: Id32,
    /// The public key of the owner's private cancellation seed.
    pub seed_public_key: Id32,
    pub guardian_count: u16,
    pub guardian_threshold: u16,
    pub guardian_routes: Vec<GuardianRoute>,
    pub relay_bases: Vec<String>,
}

/// The control state and the request describe one valid active
/// configuration at `now`.
pub open spec fn control_valid(control: OwnerControlFile, request: RecoveryRequest, now: u64) -> bool {
    &&& control.protocol_version == PROTOCOL_VERSION
    &&& request.protocol_version == PROTOCOL_VERSION
    &&& control.config_id == request.config_id
    &&& control.config_version == request.config_version
    &&& request.requested_at <= now
    &&& now < request.expiry
    &&& control.guardian_count == control.guardian_routes@.len()
    &&& control.guardian_threshold != 0
    &&& control.guardian_threshold <= control.guardian_count
}

/// Checks that the owner may cancel `request` with this control state.
pub fn validate_owner_control(control: &OwnerControlFile, request: &RecoveryRequest, now: u64) -> (r:
    Result<(), OwnerCancelError>)
    ensures
        r == if !control_valid(*control, *request, now) {
            Err(OwnerCancelError::InvalidControlState)
        } else if control.seed_public_key != control.owner_cancel_public_key {
            Err(OwnerCancelError::KeyMismatch)
        } else {
            Ok::<(), OwnerCancelError>(())
        },
{
    if control.protocol_version != PROTOCOL_VERSION || request.protocol_version != PROTOCOL_VERSION
        || !id_eq(&control.config_id, &request.config_id) || control.config_version
        != request.config_version || request.requested_at > now || request.expiry <= now
        || control.guardian_count as usize != control.guardian_routes.len()
        || control.guardian_threshold == 0 || control.guardian_threshold > control.guardian_count {
        return Err(OwnerCancelError::InvalidControlState);
    }
    if !id_eq(&control.seed_public_key, &control.owner_cancel_public_key) {
        return Err(OwnerCancelError::KeyMismatch);
    }
    Ok(())
}

/// The guardian indices of the owner's routes.
pub open spec fn route_ids(routes: Seq<GuardianRoute>) -> Set<u16> {
    routes.map_values(|r: GuardianRoute| r.guardian_index).to_set()
}

/// The acknowledging guardians after route `k`'s answer: a valid
/// acknowledgement from a guardian not yet counted is counted.
pub open spec fn acks_after(
    acked: Seq<u16>,
    control: OwnerControlFile,
    k: int,
    answer: Option<OwnerCancelAck>,
    certificate: OwnerCancelCertificate,
    request: RecoveryRequest,
) -> Seq<u16> {
    match answer {
        Some(ack) => if owner_cancel_ack_ok(ack, certificate, request, control.guardian_routes@[k])
            && !acked.contains(ack.guardian_index) {
            acked.push(ack.guardian_index)
        } else {
            acked
        },
        None => acked,
    }
}

/// Takes route `k`'s answer to the owner's cancellation into the set of
/// acknowledging guardians.
pub fn admit_owner_cancel_ack(
    acked: &mut Vec<u16>,
    control: &OwnerControlFile,
    k: usize,
    answer: Option<OwnerCancelAck>,
    certificate: &OwnerCancelCertificate,
    request: &RecoveryRequest,
)
    requires
        k < control.guardian_routes@.len(),
    ensures
        final(acked)@ == acks_after(old(acked)@, *control, k as int, answer, *certificate, *request),
        old(acked)@.no_duplicates() ==> final(acked)@.no_duplicates(),
        old(acked)@.to_set().subset_of(route_ids(control.guardian_routes@))
            ==> final(acked)@.to_set().subset_of(route_ids(control.guardian_routes@)),
{
    let ghost before = acked@;
    if let Some(ack) = answer {
        if validate_owner_cancel_ack(&ack, certificate, request, &control.guardian_routes[k]).is_ok() {
            let mut seen = false;
            let mut i: usize = 0;
            while i < acked.len()
                invariant
                    i <= acked@.len(),
                    acked@ == before,
                    seen == (exists|j: int| 0 <= j < i && acked@[j] == ack.guardian_index),
                decreases acked.len() - i,
            {
                if acked[i] == ack.guardian_index {
                    seen = true;
                }
                i = i + 1;
            }
            if !seen {
                acked.push(ack.guardian_index);
            }
        }
    }
    proof {
        let ids = route_ids(control.guardian_routes@);
        if before.to_set().subset_of(ids) {
            assert forall|x: u16| acked@.to_set().contains(x) implies ids.contains(x) by {
                let j = choose|j: int| 0 <= j < acked@.len() && acked@[j] == x;
                if j < before.len() {
                    assert(before[j] == x);
                    assert(before.to_set().contains(x));
                } else {
                    let mapped = control.guardian_routes@.map_values(|r: GuardianRoute| r.guardian_index);
                    assert(mapped[k as int] == x);
                }
            }
        }
    }
}

/// The result the owner reports once every route was asked.
pub open spec fn cancel_result_ok(
    result: OwnerCancelResult,
    acknowledgements: nat,
    request: RecoveryRequest,
) -> bool {
    &&& result.config_id@ == hex_lower(request.config_id@)
    &&& result.request_id@ == hex_lower(request.request_id@)
    &&& result.guardian_acknowledgements == acknowledgements
    &&& result.permanently_cancelled
}

/// Reports a hard cancellation that took hold: at least
/// `guardians - threshold + 1` guardians acknowledged.
pub fn owner_cancel_result(
    acked: &Vec<u16>,
    control: &OwnerControlFile,
    request: &RecoveryRequest,
) -> (r: Result<OwnerCancelResult, OwnerCancelError>)
    ensures
        (control.guardian_threshold == 0 || control.guardian_threshold > control.guardian_count) ==> r
            == Err::<OwnerCancelResult, OwnerCancelError>(OwnerCancelError::InvalidControlState),
        0 < control.guardian_threshold <= control.guardian_count ==> match r {
            Ok(result) => acked@.len() + control.guardian_threshold >= control.guardian_count + 1
                && cancel_result_ok(result, acked@.len(), *request),
            Err(e) => e == OwnerCancelError::NotEnoughAcknowledgements && acked@.len()
                + control.guardian_threshold < control.guardian_count + 1,
        },
{
    let required = match required_cancel_acks(
        control.guardian_count as usize,
        control.guardian_threshold as usize,
    ) {
        Ok(n) => n,
        Err(_) => {
            return Err(OwnerCancelError::InvalidControlState);
        },
    };
    if acked.len() < required {
        return Err(OwnerCancelError::NotEnoughAcknowledgements);
    }
    Ok(
        OwnerCancelResult {
            config_id: hex_encode(&request.config_id),
            request_id: hex_encode(&request.request_id),
            guardian_acknowledgements: acked.len(),
            permanently_cancelled: true,
        },
    )
}

/// A reported hard cancellation leaves recovery below its threshold: when
/// the acknowledging guardians are distinct guardians of the owner's
/// routes, which name distinct guardians, and the cancellation was
/// reported, the guardians without a tombstone number fewer than the
/// recovery threshold.
pub proof fn lemma_reported_cancel_breaks_recovery(control: OwnerControlFile, acked: Seq<u16>)
    requires
        forall|i: int, j: int|
            0 <= i < j < control.guardian_routes@.len() ==> (#[trigger] control.guardian_routes@[i]).guardian_index
                != (#[trigger] control.guardian_routes@[j]).guardian_index,
        control.guardian_count == control.guardian_routes@.len(),
        0 < control.guardian_threshold <= control.guardian_count,
        acked.no_duplicates(),
        acked.to_set().subset_of(route_ids(control.guardian_routes@)),
        acked.len() + control.guardian_threshold >= control.guardian_count + 1,
    ensures
        route_ids(control.guardian_routes@).difference(acked.to_set()).len() < control.guardian_threshold,
{
    let routes = control.guardian_routes@;
    let mapped = routes.map_values(|r: GuardianRoute| r.guardian_index);
    assert(mapped.no_duplicates()) by {
        assert forall|i: int, j: int| 0 <= i < mapped.len() && 0 <= j < mapped.len() && i != j
            implies mapped[i] != mapped[j] by {
            if i < j {
                assert(routes[i].guardian_index != routes[j].guardian_index);
            } else {
                assert(routes[j].guardian_index != routes[i].guardian_index);
            }
        }
    }
    mapped.unique_seq_to_set();
    acked.unique_seq_to_set();
    mapped.lemma_cardinality_of_set();
    lemma_cancel_acks_break_recovery_quorum(
        mapped.to_set(),
        acked.to_set(),
        control.guardian_threshold as int,
    );
}

} // verus!
