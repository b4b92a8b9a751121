//! Master Recovery network decisions: mailbox routing, quorum sizes,
//! witness epoch selection, node provisioning and the config store, the
//! recovery client's and rotation coordinator's collection steps, the
//! ordering of DPSS round messages, and the guardian, signer and witness
//! state machines, each over already-decoded protocol values.
pub mod bytes;
pub mod text;
pub mod quorum;
pub mod model;
pub mod epoch;
pub mod recovery;
pub mod witness;
pub mod rotation;
pub mod node;
pub mod relay;
pub mod signer_rotation;
pub mod protocol_v2;
pub mod descriptor;
pub mod coordinator;
pub mod rotation_cancel;
pub mod rotation_run;
pub mod client_recovery;
pub mod recovery_client;
pub mod recovery_client_v2;
pub mod guardian_rotation;
pub mod guardian_rotation_steps;
pub mod mailbox_v2;
pub mod owner_cancel;
pub mod setup;
pub mod setup_run;
pub mod setup_bundle;
pub mod rotation_planning;
pub mod state;
pub mod provisioning;
pub mod config_store;
pub mod dpss;
pub mod owner_control;
