# gp_network

The decisions of the Master Recovery network actors — signers, guardians,
witnesses, relays, the config store, the recovering client and the rotation
coordinator — written as a Verus library. Every decision in `src/` carries a
`requires`/`ensures` contract that Verus proves (reading the clock or the
system's random generator promises only what holds of every outcome); the laws the protocol relies
on (cancellation is final, release waits for the delay, a rotation id is locked
to one plan, one child per predecessor, quorums intersect, registrations read
back, messages are accepted once and in order, ...) are public proof functions
whose names start with `lemma_`.

Cryptography, wire encodings and I/O are not part of the library. Where a
decision depends on them, it takes their outcome as a plain value: a digest, a
transcript hash, or a flag such as `signature_verified` or
`membership_verified` that the caller's cryptographic layer computed.

## Layout

- `src/` — the verified library, one module per actor or concern:
  `recovery` (guardian and signer recovery state machines), `witness`,
  `epoch` (witness epoch selection), `rotation` and `signer_rotation`,
  `guardian_rotation`, `coordinator`, `rotation_planning`, `dpss`,
  `client_recovery`, the run state machines `recovery_client` and
  `recovery_client_v2` (a recovering client), `rotation_run` (the
  coordinator's rotation), `rotation_cancel` (the owner's cancellation) and
  `setup_run` (a protocol-v3 setup), the setup bundle `setup_bundle`, `mailbox_v2`, `protocol_v2`, `owner_cancel`,
  `owner_control`, `relay`, `config_store`, `provisioning`, `setup`,
  `descriptor`, `node`, `state`, and the helpers `bytes`, `text`, `quorum`,
  `model`.
- `tests/` — concrete scenarios for every public function and law.
- `app/` — the command-line entry point with a relay node and a config-store
  node over the library; it holds the HTTP, JSON and file handling. The
  signer, guardian and witness servers and the setup, recovery, rotation and
  cancellation clients also need the project's cryptography and
  wire-encoding crates, which this crate does not depend on; their decisions
  are the library's state machines (`recovery_client`, `recovery_client_v2`,
  `rotation_run`, `rotation_cancel`, `setup_run`), which a client built on
  those crates drives one exchange at a time.

The only outside calls the library makes are `hex::encode`, `OsRng::try_fill_bytes` (`rand::rngs::OsRng`),
`String::push` and the system clock, each behind a small trusted wrapper whose
contract is stated next to it.
