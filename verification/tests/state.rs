use gp_network::state::{check_state_schema, StateError, STATE_SCHEMA_VERSION};

#[test]
fn state_schema_newer_than_this_build_is_refused() {
    assert_eq!(STATE_SCHEMA_VERSION, 1);
    // what this build stamps on every save loads again
    assert_eq!(check_state_schema(Some(STATE_SCHEMA_VERSION)), Ok(()));
    // a file written by a newer build is refused
    assert_eq!(
        check_state_schema(Some(STATE_SCHEMA_VERSION + 1)),
        Err(StateError::NewerSchema { found: 2 })
    );
    assert_eq!(
        check_state_schema(Some(u64::MAX)),
        Err(StateError::NewerSchema { found: u64::MAX })
    );
    // a legacy file with no version field still loads
    assert_eq!(check_state_schema(None), Ok(()));
    assert_eq!(check_state_schema(Some(0)), Ok(()));
}
