//! Setup-time checks of the actors and thresholds an owner chose, before
//! any key material is generated.
use vstd::prelude::*;

use crate::bytes::bytes_eq;
use crate::model::{PROTOCOL_VERSION_V3, XWING_PUBLIC_KEY_LEN};
use crate::node::{role_name, NodeInfo, NodeRole, SetupOptions, SetupV3Options};
use crate::quorum::witness_roster_minimum;
use crate::text::{contains_string, string_views, trim_end_slashes, trim_slashes};

verus! {

/// Why a setup was refused.
#[derive(Debug, Clone, Copy, PartialEq, Eq)]
pub enum SetupError {
    /// A signer, guardian, relay or config store is missing.
    MissingActors,
    /// More signers or guardians than a `u16` index can name.
    TooManyActors,
    /// The `3f + 1` witness roster size does not fit in memory sizes.
    WitnessRosterOverflow,
    /// Thresholds, fault bound or witness roster are inconsistent.
    InvalidThresholds,
    /// A node target is empty or named twice.
    DuplicateOrEmptyTarget,
    /// A node is malformed, has another role, or repeats the id or a key
    /// of a node already accepted.
    MalformedNode,
    /// The node to be provisioned speaks another protocol or has another
    /// role.
    WrongProvisioningTarget,
}

/// The node counts a valid setup runs with.
#[derive(Clone, Copy, Debug)]
pub struct SetupCounts {
    pub signer_count: u16,
    pub guardian_count: u16,
}

/// The protocol-v3 thresholds are consistent with the actors named.
pub open spec fn setup_v3_consistent(options: SetupV3Options) -> bool {
    &&& options.relays@.len() > 0
    &&& 1 <= options.signer_threshold <= options.signers@.len()
    &&& 2 <= options.guardian_threshold <= options.guardians@.len()
    &&& options.witness_fault_bound != 0
    &&& options.witnesses@.len() >= witness_roster_minimum(options.witness_fault_bound as int)
}

/// Checks the actors and thresholds of a protocol-v3 setup: at least one
/// relay, a signer threshold in `1..=signers`, a guardian threshold in
/// `2..=guardians`, a non-zero witness fault bound `f` and at least
/// `3f + 1` witnesses.
pub fn validate_setup_v3_options(options: &SetupV3Options) -> (r: Result<SetupCounts, SetupError>)
    ensures
        (options.signers@.len() > u16::MAX || options.guardians@.len() > u16::MAX) ==> r
            == Err::<SetupCounts, SetupError>(SetupError::TooManyActors),
        options.signers@.len() <= u16::MAX && options.guardians@.len() <= u16::MAX ==> r == if witness_roster_minimum(
            options.witness_fault_bound as int,
        ) > usize::MAX {
            Err::<SetupCounts, SetupError>(SetupError::WitnessRosterOverflow)
        } else if !setup_v3_consistent(*options) {
            Err(SetupError::InvalidThresholds)
        } else {
            Ok(
                SetupCounts {
                    signer_count: options.signers@.len() as u16,
                    guardian_count: options.guardians@.len() as u16,
                },
            )
        },
        r is Ok ==> {
            &&& 1 <= options.signer_threshold <= options.signers@.len()
            &&& 2 <= options.guardian_threshold <= options.guardians@.len()
            &&& options.relays@.len() >= 1
            &&& options.witness_fault_bound >= 1
            &&& options.witnesses@.len() >= 3 * options.witness_fault_bound + 1
            &&& r->Ok_0.signer_count == options.signers@.len()
            &&& r->Ok_0.guardian_count == options.guardians@.len()
        },
{
    if options.signers.len() > 65535 || options.guardians.len() > 65535 {
        return Err(SetupError::TooManyActors);
    }
    let signer_count = options.signers.len() as u16;
    let guardian_count = options.guardians.len() as u16;
    let required_witnesses = match (options.witness_fault_bound as usize).checked_mul(3) {
        Some(triple) => match triple.checked_add(1) {
            Some(n) => n,
            None => {
                return Err(SetupError::WitnessRosterOverflow);
            },
        },
        None => {
            return Err(SetupError::WitnessRosterOverflow);
        },
    };
    if options.relays.len() == 0 || signer_count < options.signer_threshold || options.signer_threshold
        == 0 || guardian_count < options.guardian_threshold || options.guardian_threshold < 2
        || options.witness_fault_bound == 0 || options.witnesses.len() < required_witnesses {
        return Err(SetupError::InvalidThresholds);
    }
    Ok(SetupCounts { signer_count, guardian_count })
}

/// Checks that a protocol-v2 setup names at least one signer, guardian,
/// relay and config store, and that the node counts fit a `u16` index.
pub fn validate_setup_options(options: &SetupOptions) -> (r: Result<SetupCounts, SetupError>)
    ensures
        r == if options.signers@.len() == 0 || options.guardians@.len() == 0 || options.relays@.len() == 0
            || options.config_stores@.len() == 0 {
            Err::<SetupCounts, SetupError>(SetupError::MissingActors)
        } else if options.signers@.len() > u16::MAX || options.guardians@.len() > u16::MAX {
            Err(SetupError::TooManyActors)
        } else {
            Ok(
                SetupCounts {
                    signer_count: options.signers@.len() as u16,
                    guardian_count: options.guardians@.len() as u16,
                },
            )
        },
{
    if options.signers.len() == 0 || options.guardians.len() == 0 || options.relays.len() == 0
        || options.config_stores.len() == 0 {
        return Err(SetupError::MissingActors);
    }
    if options.signers.len() > 65535 || options.guardians.len() > 65535 {
        return Err(SetupError::TooManyActors);
    }
    Ok(
        SetupCounts {
            signer_count: options.signers.len() as u16,
            guardian_count: options.guardians.len() as u16,
        },
    )
}

/// The relay base URLs, each without trailing slashes, in order.
pub fn relay_bases(relays: &Vec<String>) -> (r: Vec<String>)
    ensures
        r@.len() == relays@.len(),
        forall|i: int| 0 <= i < r@.len() ==> (#[trigger] r@[i])@ == trim_slashes(relays@[i]@),
{
    let mut r: Vec<String> = Vec::new();
    let mut i: usize = 0;
    while i < relays.len()
        invariant
            i <= relays@.len(),
            r@.len() == i,
            forall|j: int| 0 <= j < i ==> (#[trigger] r@[j])@ == trim_slashes(relays@[j]@),
        decreases relays.len() - i,
    {
        r.push(trim_end_slashes(relays[i].as_str()));
        i = i + 1;
    }
    r
}

/// What the owner learned so far of the nodes of one role.
#[derive(Clone, Debug)]
pub struct NodeInfoCollection {
    /// The targets asked, without trailing slashes.
    pub targets: Vec<String>,
    /// The accepted nodes, in order.
    pub infos: Vec<NodeInfo>,
}

/// An empty collection.
pub fn new_node_info_collection() -> (c: NodeInfoCollection)
    ensures
        c.targets@.len() == 0,
        c.infos@.len() == 0,
{
    NodeInfoCollection { targets: Vec::new(), infos: Vec::new() }
}

/// Accepted nodes are pairwise distinct in node id, transport key and
/// signing key.
pub open spec fn nodes_distinct(infos: Seq<NodeInfo>) -> bool {
    forall|i: int, j: int|
        0 <= i < j < infos.len() ==> (#[trigger] infos[i]).node_id@ != (#[trigger] infos[j]).node_id@
            && infos[i].transport_public_key@ != infos[j].transport_public_key@ && infos[i].signing_public_key
            != infos[j].signing_public_key
}

/// Takes the next target of a role: refused when empty or already asked
/// once trailing slashes are removed; otherwise recorded and returned
/// without them.
pub fn admit_node_target(c: &mut NodeInfoCollection, target: &str) -> (r: Result<String, SetupError>)
    ensures
        final(c).infos == old(c).infos,
        match r {
            Ok(t) => t@ == trim_slashes(target@) && t@.len() > 0 && !string_views(old(c).targets@).contains(t@)
                && final(c).targets@ == old(c).targets@.push(t),
            Err(e) => e == SetupError::DuplicateOrEmptyTarget && (trim_slashes(target@).len() == 0 || string_views(
                old(c).targets@,
            ).contains(trim_slashes(target@))) && final(c).targets@ == old(c).targets@,
        },
{
    let normalized = trim_end_slashes(target);
    if normalized.as_str().is_empty() || contains_string(&c.targets, &normalized) {
        return Err(SetupError::DuplicateOrEmptyTarget);
    }
    c.targets.push(normalized.clone());
    Ok(normalized)
}

/// The node is a protocol-v3 node of the expected role with an id, an
/// X-Wing transport key and a signing key, none of them used by a node
/// already accepted.
pub open spec fn node_info_ok(infos: Seq<NodeInfo>, info: NodeInfo, expected: NodeRole) -> bool {
    &&& info.protocol_version == PROTOCOL_VERSION_V3
    &&& info.role@ == role_name(expected)
    &&& info.node_id@.len() > 0
    &&& info.transport_public_key@.len() == XWING_PUBLIC_KEY_LEN
    &&& info.signing_public_key is Some
    &&& forall|i: int|
        0 <= i < infos.len() ==> (#[trigger] infos[i]).node_id@ != info.node_id@
            && infos[i].transport_public_key@ != info.transport_public_key@ && infos[i].signing_public_key
            != info.signing_public_key
}

/// Takes the node information fetched from the last target.
pub fn admit_node_info(c: &mut NodeInfoCollection, info: NodeInfo, expected: NodeRole) -> (r: Result<
    (),
    SetupError,
>)
    ensures
        final(c).targets == old(c).targets,
        r is Ok <==> node_info_ok(old(c).infos@, info, expected),
        r is Ok ==> final(c).infos@ == old(c).infos@.push(info),
        r matches Err(e) ==> e == SetupError::MalformedNode && final(c).infos@ == old(c).infos@,
        nodes_distinct(old(c).infos@) ==> nodes_distinct(final(c).infos@),
{
    let expected_role = expected.as_str().to_owned();
    let signing = match info.signing_public_key {
        Some(key) => key,
        None => return Err(SetupError::MalformedNode),
    };
    if info.protocol_version != PROTOCOL_VERSION_V3 || info.role != expected_role
        || info.node_id.as_str().is_empty() || info.transport_public_key.len() != XWING_PUBLIC_KEY_LEN {
        return Err(SetupError::MalformedNode);
    }
    let mut i: usize = 0;
    while i < c.infos.len()
        invariant
            i <= c.infos@.len(),
            c.infos@ == old(c).infos@,
            c.targets == old(c).targets,
            info.signing_public_key == Some(signing),
            forall|k: int|
                0 <= k < i ==> (#[trigger] c.infos@[k]).node_id@ != info.node_id@
                    && c.infos@[k].transport_public_key@ != info.transport_public_key@
                    && c.infos@[k].signing_public_key != info.signing_public_key,
        decreases c.infos.len() - i,
    {
        let other = &c.infos[i];
        let same_key = match other.signing_public_key {
            Some(k) => crate::bytes::id_eq(&k, &signing),
            None => false,
        };
        if other.node_id == info.node_id || bytes_eq(
            other.transport_public_key.as_slice(),
            info.transport_public_key.as_slice(),
        ) || same_key {
            return Err(SetupError::MalformedNode);
        }
        i = i + 1;
    }
    let ghost before = c.infos@;
    c.infos.push(info);
    proof {
        assert forall|a: int, b: int| nodes_distinct(before) && 0 <= a < b < c.infos@.len() implies (
        #[trigger] c.infos@[a]).node_id@ != (#[trigger] c.infos@[b]).node_id@ && c.infos@[a].transport_public_key@
            != c.infos@[b].transport_public_key@ && c.infos@[a].signing_public_key
            != c.infos@[b].signing_public_key by {
            assert(c.infos@[a] == before[a]);
            if b < before.len() {
                assert(c.infos@[b] == before[b]);
            }
        }
    }
    Ok(())
}

/// Checks that a node about to receive a provision is of the expected role
/// and speaks the provision's protocol version.
pub fn check_provision_target(info: &NodeInfo, expected: NodeRole, protocol_version: u16) -> (r: Result<
    (),
    SetupError,
>)
    ensures
        r is Ok <==> info.role@ == role_name(expected) && info.protocol_version == protocol_version,
        r matches Err(e) ==> e == SetupError::WrongProvisioningTarget,
{
    let expected_role = expected.as_str().to_owned();
    if info.role != expected_role || info.protocol_version != protocol_version {
        return Err(SetupError::WrongProvisioningTarget);
    }
    Ok(())
}

} // verus!
