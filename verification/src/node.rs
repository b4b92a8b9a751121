//! Node roles, node descriptions, the wall clock, and the option and
//! result records of the client commands.
use vstd::prelude::*;

use crate::bytes::Id32;
use crate::model::PROTOCOL_VERSION_V3;

verus! {

/// Protocol version of the fixed-roster (v2) configuration.
pub const PROTOCOL_VERSION: u16 = 2;

/// The role a network node serves.
#[derive(Clone, Copy, Debug, PartialEq, Eq, Structural)]
pub enum NodeRole {
    Relay,
    ConfigStore,
    Signer,
    Guardian,
    Witness,
}

/// The wire name of a role.
pub open spec fn role_name(role: NodeRole) -> Seq<char> {
    match role {
        NodeRole::Relay => "relay"@,
        NodeRole::ConfigStore => "config_store"@,
        NodeRole::Signer => "signer"@,
        NodeRole::Guardian => "guardian"@,
        NodeRole::Witness => "witness"@,
    }
}

impl NodeRole {
    /// The role's wire name.
    pub fn as_str(self) -> (r: &'static str)
        ensures
            r@ == role_name(self),
    {
        match self {
            NodeRole::Relay => "relay",
            NodeRole::ConfigStore => "config_store",
            NodeRole::Signer => "signer",
            NodeRole::Guardian => "guardian",
            NodeRole::Witness => "witness",
        }
    }
}

/// What a node publishes about itself.
#[derive(Clone, Debug)]
pub struct NodeInfo {
    pub protocol_version: u16,
    pub node_id: String,
    pub role: String,
    pub transport_public_key: Vec<u8>,
    pub signing_public_key: Option<Id32>,
}

/// Describes a node: witnesses speak protocol v3 and publish their signing
/// key; every other role speaks protocol v2 and publishes none.
pub fn node_info(
    node_id: &String,
    role: NodeRole,
    transport_public_key: Vec<u8>,
    signing_public_key: Id32,
) -> (info: NodeInfo)
    ensures
        info.protocol_version == if role == NodeRole::Witness {
            PROTOCOL_VERSION_V3
        } else {
            PROTOCOL_VERSION
        },
        info.node_id@ == node_id@,
        info.role@ == role_name(role),
        info.transport_public_key@ == transport_public_key@,
        info.signing_public_key == if role == NodeRole::Witness {
            Some(signing_public_key)
        } else {
            None::<Id32>
        },
{
    let witness = match role {
        NodeRole::Witness => true,
        _ => false,
    };
    NodeInfo {
        protocol_version: if witness {
            PROTOCOL_VERSION_V3
        } else {
            PROTOCOL_VERSION
        },
        node_id: node_id.clone(),
        role: role.as_str().to_owned(),
        transport_public_key,
        signing_public_key: if witness {
            Some(signing_public_key)
        } else {
            None
        },
    }
}

/// Describes a node of a protocol-v3 deployment: every role speaks v3 and
/// publishes its signing key.
pub fn node_info_v3(
    node_id: &String,
    role: NodeRole,
    transport_public_key: Vec<u8>,
    signing_public_key: Id32,
) -> (info: NodeInfo)
    ensures
        info.protocol_version == PROTOCOL_VERSION_V3,
        info.node_id@ == node_id@,
        info.role@ == role_name(role),
        info.transport_public_key@ == transport_public_key@,
        info.signing_public_key == Some(signing_public_key),
{
    NodeInfo {
        protocol_version: PROTOCOL_VERSION_V3,
        node_id: node_id.clone(),
        role: role.as_str().to_owned(),
        transport_public_key,
        signing_public_key: Some(signing_public_key),
    }
}

/// A node's liveness answer.
#[derive(Clone, Debug)]
pub struct Health {
    pub status: String,
    pub role: String,
    pub node_id: String,
}

/// The system clock reads earlier than the Unix epoch.
#[derive(Debug, Clone, Copy, PartialEq, Eq)]
pub enum ClockError {
    BeforeUnixEpoch,
}

/// `std::time::SystemTime`, opaque here.
#[verifier::external_type_specification]
#[verifier::external_body]
pub struct ExSystemTime(std::time::SystemTime);

/// `std::time::SystemTimeError`, opaque here.
#[verifier::external_type_specification]
#[verifier::external_body]
pub struct ExSystemTimeError(std::time::SystemTimeError);

/// The current wall-clock time (`SystemTime::now`); nothing is known of
/// it.
#[verifier::external_body]
fn system_time_now() -> std::time::SystemTime {
    std::time::SystemTime::now()
}

/// The time elapsed since the Unix epoch (`SystemTime::duration_since`
/// with `UNIX_EPOCH`), or an error for a time before it.
#[verifier::external_body]
fn since_unix_epoch(time: &std::time::SystemTime) -> Result<
    core::time::Duration,
    std::time::SystemTimeError,
> {
    time.duration_since(std::time::UNIX_EPOCH)
}

/// The whole seconds of a duration (`Duration::as_secs`).
#[verifier::external_body]
fn duration_secs(duration: &core::time::Duration) -> u64 {
    duration.as_secs()
}

/// Seconds since the Unix epoch by the system clock. The clock is outside
/// the library: nothing is promised of the value.
pub fn wall_now() -> (r: Result<u64, ClockError>) {
    let now = system_time_now();
    match since_unix_epoch(&now) {
        Ok(elapsed) => Ok(duration_secs(&elapsed)),
        Err(_) => Err(ClockError::BeforeUnixEpoch),
    }
}

/// Options of a protocol-v2 setup.
#[derive(Clone, Debug)]
pub struct SetupOptions {
    pub secret: Vec<u8>,
    pub config_stores: Vec<String>,
    pub relays: Vec<String>,
    pub relay_token: String,
    pub admin_token: String,
    pub signers: Vec<String>,
    pub guardians: Vec<String>,
    pub signer_threshold: u16,
    pub guardian_threshold: u16,
    pub delay_secs: u64,
    pub card_path: String,
    pub owner_control_path: String,
}

/// Options of a protocol-v3 setup.
#[derive(Clone, Debug)]
pub struct SetupV3Options {
    pub secret: Vec<u8>,
    pub relays: Vec<String>,
    pub relay_token: String,
    pub admin_token: String,
    pub signers: Vec<String>,
    pub guardians: Vec<String>,
    pub witnesses: Vec<String>,
    pub signer_threshold: u16,
    pub guardian_threshold: u16,
    pub witness_fault_bound: u16,
    pub delay_secs: u64,
    pub card_path: String,
    pub owner_control_path: String,
}

/// Options of a protocol-v2 recovery.
#[derive(Clone, Debug)]
pub struct RecoverOptions {
    pub card_path: String,
    pub output_path: Option<String>,
    pub request_out_path: Option<String>,
    pub cancel_before_release: bool,
    pub owner_control_path: String,
}

/// Options of a protocol-v3 recovery.
#[derive(Clone, Debug)]
pub struct RecoverV3Options {
    pub card_path: String,
    pub output_path: Option<String>,
    pub request_out_path: Option<String>,
}

/// Options of an owner hard cancellation.
#[derive(Clone, Debug)]
pub struct CancelOptions {
    pub request_path: String,
    pub owner_control_path: String,
}

/// Options of a protocol-v3 guardian rotation.
#[derive(Clone, Debug)]
pub struct RotateV3Options {
    pub card_path: String,
    pub owner_control_path: String,
    pub remove_guardian: u16,
    pub replacement_target: String,
    pub relay_token: String,
    pub admin_token: String,
    pub rotation_control_path: String,
}

/// Options of an owner rotation cancellation.
#[derive(Clone, Debug)]
pub struct CancelRotationV3Options {
    pub rotation_control_path: String,
    pub owner_control_path: String,
}

/// What an owner rotation cancellation achieved.
#[derive(Clone, Debug)]
pub struct CancelRotationV3Result {
    pub rotation_id: String,
    pub witness_acknowledgements: usize,
    pub required_witness_acknowledgements: usize,
    pub old_guardian_acknowledgements: usize,
    pub required_old_guardian_acknowledgements: usize,
    pub signer_cancel_finalizations: usize,
    pub permanently_cancelled: bool,
}

/// What a completed guardian rotation achieved.
#[derive(Clone, Debug)]
pub struct RotateV3Result {
    pub config_id: String,
    pub predecessor_epoch: u64,
    pub successor_epoch: u64,
    pub removed_guardian: u16,
    pub added_guardian: u16,
    pub prepared_guardians: usize,
    pub witness_acknowledgements: usize,
    pub plaintext_decryptions: u64,
}

/// What a protocol-v2 recovery run achieved.
#[derive(Clone, Debug)]
pub struct NetworkDemoResult {
    pub config_id: String,
    pub request_id: String,
    pub recovered_secret: Option<String>,
    pub signer_contributions: usize,
    pub guardian_contributions: usize,
    pub rejected_guardians: Vec<u16>,
    pub cancelled: bool,
}

/// What an owner hard cancellation achieved.
#[derive(Clone, Debug)]
pub struct OwnerCancelResult {
    pub config_id: String,
    pub request_id: String,
    pub guardian_acknowledgements: usize,
    pub permanently_cancelled: bool,
}

/// A guardian's new rotation mailbox pointing at its existing one.
#[derive(Clone, Debug)]
pub struct GuardianRouteAliasV3 {
    pub mailbox: String,
    pub existing_mailbox: String,
}

} // verus!
