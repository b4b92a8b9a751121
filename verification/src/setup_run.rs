//! A protocol-v3 setup as a state machine: the owner's options are checked
//! before any node is asked, the node information of every signer,
//! guardian and witness is collected and checked, the built card and
//! capsule must validate, and only then are the signers, the guardians
//! (each with its routes on every relay) and the witnesses provisioned,
//! in that order. The caller performs each exchange and hands the outcome
//! back.
use vstd::prelude::*;

use crate::epoch::{capsule_valid, validate_activated_capsule_v3, EpochError};
use crate::model::{ConfigCapsuleV3, RecoveryCardV3};
use crate::node::{NodeInfo, NodeRole, SetupV3Options};
use crate::setup::{
    admit_node_info, admit_node_target, new_node_info_collection, node_info_ok, nodes_distinct,
    setup_v3_consistent, validate_setup_v3_options, NodeInfoCollection, SetupError,
};
use crate::text::{string_views, trim_slashes};

verus! {

/// Where a setup stands.
#[derive(Clone, Copy, Debug, PartialEq, Eq)]
pub enum SetupV3Phase {
    /// Waiting for the node information of target `next` of `role`.
    Info { role: NodeRole, next: usize },
    /// Waiting for the built card and capsule.
    Build,
    /// Waiting for the provisioning of node `next` of `role`.
    Provision { role: NodeRole, next: usize },
    /// Waiting for the route of node `next` of `role` on relay `relay`.
    Register { role: NodeRole, next: usize, relay: usize },
    Done,
    Failed,
}

/// What the owner holds during a setup.
#[derive(Clone, Debug)]
pub struct SetupV3State {
    pub options: SetupV3Options,
    pub phase: SetupV3Phase,
    pub signers: NodeInfoCollection,
    pub guardians: NodeInfoCollection,
    pub witnesses: NodeInfoCollection,
    pub card: Option<RecoveryCardV3>,
    pub capsule: Option<ConfigCapsuleV3>,
}

/// An outcome the caller hands back.
#[derive(Clone, Debug)]
pub enum SetupV3Event {
    NodeInfoFetched(NodeInfo),
    Built { card: RecoveryCardV3, capsule: ConfigCapsuleV3 },
    /// Whether the provisioning or route registration succeeded.
    Completed(bool),
}

/// What the caller does next.
#[derive(Clone, Copy, Debug, PartialEq, Eq)]
pub enum SetupV3Action {
    /// Fetch the node information of the last recorded target of `role`.
    FetchInfo { role: NodeRole, index: usize },
    /// Generate the key material and build the card and capsule.
    Build,
    Provision { role: NodeRole, index: usize },
    RegisterRoute { role: NodeRole, index: usize, relay: usize },
    /// Write the card and the owner-control file.
    Finish,
}

/// Why a setup stopped.
#[derive(Clone, Copy, Debug, PartialEq, Eq)]
pub enum SetupV3RunError {
    Setup(SetupError),
    Card(EpochError),
    ProvisionFailed,
    OutOfTurn,
}

/// The targets the options name for `role`.
pub open spec fn targets_of(o: SetupV3Options, role: NodeRole) -> Seq<String> {
    match role {
        NodeRole::Signer => o.signers@,
        NodeRole::Guardian => o.guardians@,
        _ => o.witnesses@,
    }
}

/// The collection the setup keeps for `role`.
pub open spec fn collection_of(s: SetupV3State, role: NodeRole) -> NodeInfoCollection {
    match role {
        NodeRole::Signer => s.signers,
        NodeRole::Guardian => s.guardians,
        _ => s.witnesses,
    }
}

/// The role whose nodes come after `role`'s, if any.
pub open spec fn role_after(role: NodeRole) -> Option<NodeRole> {
    match role {
        NodeRole::Signer => Some(NodeRole::Guardian),
        NodeRole::Guardian => Some(NodeRole::Witness),
        _ => None,
    }
}

/// One of the three roles a setup provisions.
pub open spec fn setup_role(role: NodeRole) -> bool {
    role == NodeRole::Signer || role == NodeRole::Guardian || role == NodeRole::Witness
}

/// The invariant of a setup: nothing is asked unless the options are
/// consistent; each role's accepted nodes are distinct and one per target
/// asked; and nothing is provisioned unless the built card and capsule
/// validate.
pub open spec fn setup_v3_wf(s: SetupV3State) -> bool {
    &&& (s.phase != SetupV3Phase::Failed ==> setup_v3_consistent(s.options))
    &&& nodes_distinct(s.signers.infos@) && nodes_distinct(s.guardians.infos@) && nodes_distinct(s.witnesses.infos@)
    &&& match s.phase {
        SetupV3Phase::Info { role, next } => setup_role(role) && next < targets_of(s.options, role).len()
            && collection_of(s, role).targets@.len() == next + 1 && collection_of(s, role).infos@.len() == next
            && (role == NodeRole::Signer ==> s.guardians.targets@.len() == 0 && s.guardians.infos@.len() == 0)
            && (role != NodeRole::Witness ==> s.witnesses.targets@.len() == 0 && s.witnesses.infos@.len() == 0),
        SetupV3Phase::Build => true,
        SetupV3Phase::Provision { role, next } => setup_role(role) && next < targets_of(s.options, role).len()
            && (s.card matches Some(card) && (s.capsule matches Some(capsule) && capsule_valid(card, capsule))),
        SetupV3Phase::Register { role, next, relay } => setup_role(role) && role != NodeRole::Witness && next
            < targets_of(s.options, role).len() && relay < s.options.relays@.len() && (s.card matches Some(card) && (
        s.capsule matches Some(capsule) && capsule_valid(card, capsule))),
        SetupV3Phase::Done => s.card matches Some(card) && (s.capsule matches Some(capsule) && capsule_valid(card, capsule)),
        SetupV3Phase::Failed => true,
    }
}

/// Target `k` of `role` is refused: empty, or already asked.
pub open spec fn target_refused(s: SetupV3State, role: NodeRole, k: int) -> bool {
    let t = trim_slashes(targets_of(s.options, role)[k]@);
    t.len() == 0 || string_views(collection_of(s, role).targets@).contains(t)
}

/// What asking target `k` of `role` answers.
pub open spec fn ask_target(s: SetupV3State, role: NodeRole, k: int) -> (SetupV3Phase, Result<
    SetupV3Action,
    SetupV3RunError,
>) {
    if target_refused(s, role, k) {
        (SetupV3Phase::Failed, Err(SetupV3RunError::Setup(SetupError::DuplicateOrEmptyTarget)))
    } else {
        (SetupV3Phase::Info { role, next: k as usize }, Ok(SetupV3Action::FetchInfo { role, index: k as usize }))
    }
}

/// After the provisioning (and, for signers and guardians, the routes) of
/// node `next` of `role`: the next node, the next role, or the end.
pub open spec fn after_node(s: SetupV3State, role: NodeRole, next: usize) -> (SetupV3Phase, Result<
    SetupV3Action,
    SetupV3RunError,
>) {
    if next + 1 < targets_of(s.options, role).len() {
        (
            SetupV3Phase::Provision { role, next: (next + 1) as usize },
            Ok(SetupV3Action::Provision { role, index: (next + 1) as usize }),
        )
    } else {
        match role_after(role) {
            Some(r) => (SetupV3Phase::Provision { role: r, next: 0 }, Ok(SetupV3Action::Provision { role: r, index: 0 })),
            None => (SetupV3Phase::Done, Ok(SetupV3Action::Finish)),
        }
    }
}

/// The setup's options and built material are kept.
pub open spec fn setup_frame(old: SetupV3State, new: SetupV3State) -> bool {
    new.options == old.options
}

/// One step of the setup on `event`.
pub open spec fn setup_v3_transition(
    old: SetupV3State,
    new: SetupV3State,
    event: SetupV3Event,
    r: Result<SetupV3Action, SetupV3RunError>,
) -> bool {
    &&& setup_frame(old, new)
    &&& match (old.phase, event) {
        (SetupV3Phase::Info { role, next }, SetupV3Event::NodeInfoFetched(info)) => {
            let c = collection_of(old, role);
            if !node_info_ok(c.infos@, info, role) {
                new.phase == SetupV3Phase::Failed && r == Err::<SetupV3Action, SetupV3RunError>(
                    SetupV3RunError::Setup(SetupError::MalformedNode),
                )
            } else {
                &&& collection_of(new, role).infos@ == c.infos@.push(info)
                &&& if next + 1 < targets_of(old.options, role).len() {
                    (new.phase, r) == ask_target(old, role, next + 1)
                } else {
                    match role_after(role) {
                        Some(following) => (new.phase, r) == ask_target(old, following, 0),
                        None => new.phase == SetupV3Phase::Build && r == Ok::<SetupV3Action, SetupV3RunError>(
                            SetupV3Action::Build,
                        ),
                    }
                }
            }
        },
        (SetupV3Phase::Build, SetupV3Event::Built { card, capsule }) => if capsule_valid(card, capsule) {
            &&& new.card == Some(card) && new.capsule == Some(capsule)
            &&& new.phase == SetupV3Phase::Provision { role: NodeRole::Signer, next: 0 }
            &&& r == Ok::<SetupV3Action, SetupV3RunError>(SetupV3Action::Provision { role: NodeRole::Signer, index: 0 })
        } else {
            new.phase == SetupV3Phase::Failed && r is Err
        },
        (SetupV3Phase::Provision { role, next }, SetupV3Event::Completed(ok)) => {
            &&& new.card == old.card && new.capsule == old.capsule
            &&& if !ok {
                new.phase == SetupV3Phase::Failed && r == Err::<SetupV3Action, SetupV3RunError>(
                    SetupV3RunError::ProvisionFailed,
                )
            } else if role != NodeRole::Witness {
                new.phase == SetupV3Phase::Register { role, next, relay: 0 } && r == Ok::<
                    SetupV3Action,
                    SetupV3RunError,
                >(SetupV3Action::RegisterRoute { role, index: next, relay: 0 })
            } else {
                (new.phase, r) == after_node(old, role, next)
            }
        },
        (SetupV3Phase::Register { role, next, relay }, SetupV3Event::Completed(ok)) => {
            &&& new.card == old.card && new.capsule == old.capsule
            &&& if !ok {
                new.phase == SetupV3Phase::Failed && r == Err::<SetupV3Action, SetupV3RunError>(
                    SetupV3RunError::ProvisionFailed,
                )
            } else if relay + 1 < old.options.relays@.len() {
                new.phase == SetupV3Phase::Register { role, next, relay: (relay + 1) as usize } && r == Ok::<
                    SetupV3Action,
                    SetupV3RunError,
                >(SetupV3Action::RegisterRoute { role, index: next, relay: (relay + 1) as usize })
            } else {
                (new.phase, r) == after_node(old, role, next)
            }
        },
        _ => new.phase == old.phase && r == Err::<SetupV3Action, SetupV3RunError>(SetupV3RunError::OutOfTurn),
    }
}

/// The other roles' collections are unchanged.
pub open spec fn others_kept(old: SetupV3State, new: SetupV3State, role: NodeRole) -> bool {
    &&& (role != NodeRole::Signer ==> new.signers == old.signers)
    &&& (role != NodeRole::Guardian ==> new.guardians == old.guardians)
    &&& (role != NodeRole::Witness && role != NodeRole::Relay && role != NodeRole::ConfigStore ==> new.witnesses
        == old.witnesses)
}

/// Records target `k` of `role` and names the fetch, or refuses it.
fn ask_for(s: &mut SetupV3State, role: NodeRole, k: usize) -> (r: Result<SetupV3Action, SetupV3RunError>)
    requires
        setup_role(role),
        k < targets_of(old(s).options, role).len(),
    ensures
        final(s).options == old(s).options,
        final(s).phase == old(s).phase,
        final(s).card == old(s).card && final(s).capsule == old(s).capsule,
        others_kept(*old(s), *final(s), role),
        collection_of(*final(s), role).infos == collection_of(*old(s), role).infos,
        match r {
            Ok(a) => !target_refused(*old(s), role, k as int) && a == SetupV3Action::FetchInfo { role, index: k }
                && collection_of(*final(s), role).targets@.len() == collection_of(*old(s), role).targets@.len() + 1,
            Err(e) => target_refused(*old(s), role, k as int) && e == SetupV3RunError::Setup(
                SetupError::DuplicateOrEmptyTarget,
            ),
        },
{
    let outcome = match role {
        NodeRole::Signer => admit_node_target(&mut s.signers, s.options.signers[k].as_str()),
        NodeRole::Guardian => admit_node_target(&mut s.guardians, s.options.guardians[k].as_str()),
        _ => admit_node_target(&mut s.witnesses, s.options.witnesses[k].as_str()),
    };
    match outcome {
        Ok(_) => Ok(SetupV3Action::FetchInfo { role, index: k }),
        Err(e) => Err(SetupV3RunError::Setup(e)),
    }
}

/// Takes node information for `role`.
fn admit_info_for(s: &mut SetupV3State, role: NodeRole, info: NodeInfo) -> (r: Result<(), SetupError>)
    requires
        setup_role(role),
        nodes_distinct(old(s).signers.infos@) && nodes_distinct(old(s).guardians.infos@) && nodes_distinct(
            old(s).witnesses.infos@,
        ),
    ensures
        final(s).options == old(s).options,
        final(s).phase == old(s).phase,
        final(s).card == old(s).card && final(s).capsule == old(s).capsule,
        others_kept(*old(s), *final(s), role),
        collection_of(*final(s), role).targets == collection_of(*old(s), role).targets,
        nodes_distinct(final(s).signers.infos@) && nodes_distinct(final(s).guardians.infos@) && nodes_distinct(
            final(s).witnesses.infos@,
        ),
        r is Ok <==> node_info_ok(collection_of(*old(s), role).infos@, info, role),
        r is Ok ==> collection_of(*final(s), role).infos@ == collection_of(*old(s), role).infos@.push(info),
{
    match role {
        NodeRole::Signer => admit_node_info(&mut s.signers, info, NodeRole::Signer),
        NodeRole::Guardian => admit_node_info(&mut s.guardians, info, NodeRole::Guardian),
        _ => admit_node_info(&mut s.witnesses, info, NodeRole::Witness),
    }
}

/// Checks the owner's options and, when they are consistent, names the
/// first signer target to ask; no node is asked otherwise.
pub fn start_setup_v3(options: SetupV3Options) -> (r: (SetupV3State, Result<SetupV3Action, SetupV3RunError>))
    ensures
        setup_v3_wf(r.0),
        r.0.options == options,
        r.1 is Ok ==> setup_v3_consistent(options) && r.1 == Ok::<SetupV3Action, SetupV3RunError>(
            SetupV3Action::FetchInfo { role: NodeRole::Signer, index: 0 },
        ),
        !setup_v3_consistent(options) ==> r.1 is Err && r.0.phase == SetupV3Phase::Failed,
{
    let checked = validate_setup_v3_options(&options);
    let mut s = SetupV3State {
        options,
        phase: SetupV3Phase::Failed,
        signers: new_node_info_collection(),
        guardians: new_node_info_collection(),
        witnesses: new_node_info_collection(),
        card: None,
        capsule: None,
    };
    match checked {
        Err(e) => (s, Err(SetupV3RunError::Setup(e))),
        Ok(_) => {
            let r = ask_for(&mut s, NodeRole::Signer, 0);
            if r.is_ok() {
                s.phase = SetupV3Phase::Info { role: NodeRole::Signer, next: 0 };
            }
            (s, r)
        },
    }
}

/// Takes the outcome of the pending exchange and names the next one.
pub fn setup_v3_step(state: &mut SetupV3State, event: SetupV3Event) -> (r: Result<SetupV3Action, SetupV3RunError>)
    requires
        setup_v3_wf(*old(state)),
    ensures
        setup_v3_wf(*final(state)),
        setup_v3_transition(*old(state), *final(state), event, r),
{
    let relays = state.options.relays.len();
    match (state.phase, event) {
        (SetupV3Phase::Info { role, next }, SetupV3Event::NodeInfoFetched(info)) => {
            let count = match role {
                NodeRole::Signer => state.options.signers.len(),
                NodeRole::Guardian => state.options.guardians.len(),
                _ => state.options.witnesses.len(),
            };
            if admit_info_for(state, role, info).is_err() {
                state.phase = SetupV3Phase::Failed;
                return Err(SetupV3RunError::Setup(SetupError::MalformedNode));
            }
            if next + 1 < count {
                let r = ask_for(state, role, next + 1);
                state.phase = if r.is_ok() {
                    SetupV3Phase::Info { role, next: next + 1 }
                } else {
                    SetupV3Phase::Failed
                };
                r
            } else {
                let following = match role {
                    NodeRole::Signer => Some(NodeRole::Guardian),
                    NodeRole::Guardian => Some(NodeRole::Witness),
                    _ => None,
                };
                match following {
                    Some(f) => {
                        let r = ask_for(state, f, 0);
                        state.phase = if r.is_ok() {
                            SetupV3Phase::Info { role: f, next: 0 }
                        } else {
                            SetupV3Phase::Failed
                        };
                        r
                    },
                    None => {
                        state.phase = SetupV3Phase::Build;
                        Ok(SetupV3Action::Build)
                    },
                }
            }
        },
        (SetupV3Phase::Build, SetupV3Event::Built { card, capsule }) => {
            match validate_activated_capsule_v3(&card, &capsule) {
                Ok(()) => {
                    state.card = Some(card);
                    state.capsule = Some(capsule);
                    state.phase = SetupV3Phase::Provision { role: NodeRole::Signer, next: 0 };
                    Ok(SetupV3Action::Provision { role: NodeRole::Signer, index: 0 })
                },
                Err(e) => {
                    state.phase = SetupV3Phase::Failed;
                    Err(SetupV3RunError::Card(e))
                },
            }
        },
        (SetupV3Phase::Provision { role, next }, SetupV3Event::Completed(ok))
        | (SetupV3Phase::Register { role, next, .. }, SetupV3Event::Completed(ok)) => {
            if !ok {
                state.phase = SetupV3Phase::Failed;
                return Err(SetupV3RunError::ProvisionFailed);
            }
            let registering = match state.phase {
                SetupV3Phase::Register { relay, .. } => Some(relay),
                _ => None,
            };
            let count = match role {
                NodeRole::Signer => state.options.signers.len(),
                NodeRole::Guardian => state.options.guardians.len(),
                _ => state.options.witnesses.len(),
            };
            match registering {
                None => {
                    if !matches!(role, NodeRole::Witness) {
                        state.phase = SetupV3Phase::Register { role, next, relay: 0 };
                        return Ok(SetupV3Action::RegisterRoute { role, index: next, relay: 0 });
                    }
                },
                Some(relay) => {
                    if relay + 1 < relays {
                        state.phase = SetupV3Phase::Register { role, next, relay: relay + 1 };
                        return Ok(SetupV3Action::RegisterRoute { role, index: next, relay: relay + 1 });
                    }
                },
            }
            if next + 1 < count {
                state.phase = SetupV3Phase::Provision { role, next: next + 1 };
                Ok(SetupV3Action::Provision { role, index: next + 1 })
            } else {
                match role {
                    NodeRole::Signer => {
                        state.phase = SetupV3Phase::Provision { role: NodeRole::Guardian, next: 0 };
                        Ok(SetupV3Action::Provision { role: NodeRole::Guardian, index: 0 })
                    },
                    NodeRole::Guardian => {
                        state.phase = SetupV3Phase::Provision { role: NodeRole::Witness, next: 0 };
                        Ok(SetupV3Action::Provision { role: NodeRole::Witness, index: 0 })
                    },
                    _ => {
                        state.phase = SetupV3Phase::Done;
                        Ok(SetupV3Action::Finish)
                    },
                }
            }
        },
        _ => Err(SetupV3RunError::OutOfTurn),
    }
}

} // verus!
