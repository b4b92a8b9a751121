//! The schema version of persisted node state: every save stamps the
//! current version, and a file from a newer build is refused rather than
//! loaded and later re-saved without the fields this build does not know.
use vstd::prelude::*;

verus! {

/// The state-file schema version this build writes and understands.
pub const STATE_SCHEMA_VERSION: u64 = 1;

/// Why a state file was refused.
#[derive(Debug, Clone, Copy, PartialEq, Eq)]
pub enum StateError {
    /// The file declares a schema newer than this build understands.
    NewerSchema { found: u64 },
}

/// The schema a state file declares; a file without a version field
/// predates versioning and counts as the current schema.
pub open spec fn declared_schema(found: Option<u64>) -> u64 {
    match found {
        Some(version) => version,
        None => STATE_SCHEMA_VERSION,
    }
}

/// Decides whether a state file declaring schema `found` may be loaded.
pub fn check_state_schema(found: Option<u64>) -> (r: Result<(), StateError>)
    ensures
        r is Ok <==> declared_schema(found) <= STATE_SCHEMA_VERSION,
        r matches Err(e) ==> e == (StateError::NewerSchema { found: declared_schema(found) }),
{
    let version = match found {
        Some(version) => version,
        None => STATE_SCHEMA_VERSION,
    };
    if version > STATE_SCHEMA_VERSION {
        return Err(StateError::NewerSchema { found: version });
    }
    Ok(())
}

/// What this build saves it loads again, and so do files saved before
/// schemas were versioned; files of any later schema are refused.
pub proof fn lemma_saved_state_loads(later: u64)
    requires
        later > STATE_SCHEMA_VERSION,
    ensures
        declared_schema(Some(STATE_SCHEMA_VERSION)) <= STATE_SCHEMA_VERSION,
        declared_schema(None) <= STATE_SCHEMA_VERSION,
        declared_schema(Some(later)) > STATE_SCHEMA_VERSION,
{
}

} // verus!
