//! The protocol-v2 setup bundle: the card, the capsule and the policies
//! each signer and guardian is provisioned with, assembled from the owner's
//! policy and the key material the cryptographic layer generated.
use vstd::prelude::*;

use crate::bytes::Id32;
use crate::text::{config_locator, config_locator_url, string_views};
use crate::node::PROTOCOL_VERSION;
use crate::protocol_v2::{
    capsule_ok, setup_policy_ok, validate_setup_policy, ConfigCapsule, GuardianPolicy, GuardianRoute,
    ProtocolError, RecoveryCard, SetupPolicy, SignerPolicy, DEFAULT_CRYPTO_SUITE,
};

verus! {

/// How long a recovery request may live: one week.
pub const MAX_REQUEST_LIFETIME_SECS: u64 = 604800;

/// What the cryptographic layer generated for a setup.
#[derive(Clone, Debug)]
pub struct SetupMaterial {
    pub config_id: Id32,
    pub owner_cancel_public_key: Id32,
    /// Merkle root over the signers' public-key leaves.
    pub signer_set_commitment: Id32,
    /// Each guardian's signing public key, in mailbox order.
    pub guardian_public_keys: Vec<Id32>,
}

/// A signer's part of the bundle.
#[derive(Clone, Debug)]
pub struct SignerProvision {
    pub signer_id: u16,
    pub mailbox: String,
    pub policy: SignerPolicy,
}

/// A guardian's part of the bundle.
#[derive(Clone, Debug)]
pub struct GuardianProvision {
    pub mailbox: String,
    pub route: GuardianRoute,
    pub policy: GuardianPolicy,
}

/// Everything a protocol-v2 setup hands out.
#[derive(Clone, Debug)]
pub struct SetupBundle {
    pub card: RecoveryCard,
    pub capsule: ConfigCapsule,
    pub signers: Vec<SignerProvision>,
    pub guardians: Vec<GuardianProvision>,
}

/// The capsule a setup publishes for `policy` and `material`.
pub open spec fn setup_capsule(policy: SetupPolicy, material: SetupMaterial) -> ConfigCapsule {
    ConfigCapsule {
        protocol_version: PROTOCOL_VERSION,
        crypto_suite: DEFAULT_CRYPTO_SUITE,
        config_id: material.config_id,
        config_version: 1,
        signer_set_commitment: material.signer_set_commitment,
        owner_cancel_public_key: material.owner_cancel_public_key,
        signer_count: policy.signer_count,
        signer_threshold: policy.signer_threshold,
        guardian_count: policy.guardian_count,
        guardian_threshold: policy.guardian_threshold,
        max_request_lifetime: MAX_REQUEST_LIFETIME_SECS,
    }
}

/// The policy every guardian of the setup enforces.
pub open spec fn setup_guardian_policy(policy: SetupPolicy, material: SetupMaterial) -> GuardianPolicy {
    GuardianPolicy {
        config_id: material.config_id,
        config_version: 1,
        signer_set_commitment: material.signer_set_commitment,
        signer_count: policy.signer_count,
        signer_threshold: policy.signer_threshold,
        owner_cancel_public_key: material.owner_cancel_public_key,
        minimum_recovery_delay: policy.minimum_recovery_delay,
    }
}

/// `b` is the bundle of `policy` and `material` for these mailboxes: the
/// card names the configuration, its keys, the capsule's locator on the
/// config store at `base` and the signer mailboxes (and nothing of the
/// guardians), the capsule carries the
/// policy's counts and thresholds, signer `i` is id `i + 1` on the `i`-th
/// signer mailbox, and guardian `i` is index `i + 1` with the `i`-th key on
/// the `i`-th guardian mailbox, every guardian under the same policy.
pub open spec fn bundle_of(
    b: SetupBundle,
    policy: SetupPolicy,
    signers: Seq<String>,
    guardians: Seq<String>,
    base: Seq<char>,
    material: SetupMaterial,
) -> bool {
    &&& b.card.config_id == material.config_id
    &&& b.card.signer_set_commitment == material.signer_set_commitment
    &&& b.card.owner_cancel_public_key == material.owner_cancel_public_key
    &&& b.card.capsule_locator@ == config_locator_url(base, material.config_id@)
    &&& string_views(b.card.signer_mailboxes@) == string_views(signers)
    &&& b.capsule == setup_capsule(policy, material)
    &&& b.signers@.len() == signers.len()
    &&& forall|i: int|
        0 <= i < signers.len() ==> {
            let p = #[trigger] b.signers@[i];
            &&& p.signer_id == i + 1
            &&& p.mailbox@ == signers[i]@
            &&& p.policy == SignerPolicy { config_id: material.config_id, config_version: 1 }
        }
    &&& b.guardians@.len() == guardians.len()
    &&& forall|i: int|
        0 <= i < guardians.len() ==> {
            let g = #[trigger] b.guardians@[i];
            &&& g.mailbox@ == guardians[i]@
            &&& g.route == GuardianRoute {
                guardian_index: (i + 1) as u16,
                guardian_public_key: material.guardian_public_keys@[i],
            }
            &&& g.policy == setup_guardian_policy(policy, material)
        }
}

/// Assembles the setup bundle once the policy fits the mailboxes and there
/// is one guardian key per guardian mailbox.
pub fn assemble_setup_bundle(
    policy: &SetupPolicy,
    signers: &Vec<String>,
    guardians: &Vec<String>,
    capsule_locator_base: &str,
    material: SetupMaterial,
) -> (r: Result<SetupBundle, ProtocolError>)
    ensures
        r is Ok <==> setup_policy_ok(*policy, signers@.len(), guardians@.len())
            && material.guardian_public_keys@.len() == guardians@.len(),
        match r {
            Ok(b) => bundle_of(b, *policy, signers@, guardians@, capsule_locator_base@, material),
            Err(e) => e == ProtocolError::InvalidSetupPolicy,
        },
{
    validate_setup_policy(policy, signers, guardians)?;
    if material.guardian_public_keys.len() != guardians.len() {
        return Err(ProtocolError::InvalidSetupPolicy);
    }
    let mut card_signers: Vec<String> = Vec::new();
    let mut m: usize = 0;
    while m < signers.len()
        invariant
            m <= signers@.len(),
            string_views(card_signers@) == string_views(signers@.take(m as int)),
        decreases signers.len() - m,
    {
        let ghost before = card_signers@;
        card_signers.push(signers[m].clone());
        assert(card_signers@ =~= before.push(card_signers@.last()));
        assert(signers@.take(m + 1) =~= signers@.take(m as int).push(signers@[m as int]));
        assert(string_views(card_signers@) =~= string_views(before).push(signers@[m as int]@));
        assert(string_views(signers@.take(m + 1)) =~= string_views(signers@.take(m as int)).push(signers@[m as int]@));
        m = m + 1;
    }
    assert(signers@.take(signers@.len() as int) =~= signers@);
    let card = RecoveryCard {
        config_id: material.config_id,
        capsule_locator: config_locator(capsule_locator_base, &material.config_id),
        signer_mailboxes: card_signers,
        signer_set_commitment: material.signer_set_commitment,
        owner_cancel_public_key: material.owner_cancel_public_key,
    };
    let capsule = ConfigCapsule {
        protocol_version: PROTOCOL_VERSION,
        crypto_suite: DEFAULT_CRYPTO_SUITE,
        config_id: material.config_id,
        config_version: 1,
        signer_set_commitment: material.signer_set_commitment,
        owner_cancel_public_key: material.owner_cancel_public_key,
        signer_count: policy.signer_count,
        signer_threshold: policy.signer_threshold,
        guardian_count: policy.guardian_count,
        guardian_threshold: policy.guardian_threshold,
        max_request_lifetime: MAX_REQUEST_LIFETIME_SECS,
    };
    let mut signer_parts: Vec<SignerProvision> = Vec::new();
    let mut i: usize = 0;
    while i < signers.len()
        invariant
            i <= signers@.len(),
            signers@.len() == policy.signer_count,
            signer_parts@.len() == i,
            forall|k: int|
                0 <= k < i ==> {
                    let p = #[trigger] signer_parts@[k];
                    &&& p.signer_id == k + 1
                    &&& p.mailbox@ == signers@[k]@
                    &&& p.policy == SignerPolicy { config_id: material.config_id, config_version: 1 }
                },
        decreases signers.len() - i,
    {
        signer_parts.push(
            SignerProvision {
                signer_id: (i + 1) as u16,
                mailbox: signers[i].clone(),
                policy: SignerPolicy { config_id: material.config_id, config_version: 1 },
            },
        );
        i = i + 1;
    }
    let guardian_policy = GuardianPolicy {
        config_id: material.config_id,
        config_version: 1,
        signer_set_commitment: material.signer_set_commitment,
        signer_count: policy.signer_count,
        signer_threshold: policy.signer_threshold,
        owner_cancel_public_key: material.owner_cancel_public_key,
        minimum_recovery_delay: policy.minimum_recovery_delay,
    };
    let mut guardian_parts: Vec<GuardianProvision> = Vec::new();
    let mut j: usize = 0;
    while j < guardians.len()
        invariant
            j <= guardians@.len(),
            guardians@.len() == policy.guardian_count,
            material.guardian_public_keys@.len() == guardians@.len(),
            guardian_policy == setup_guardian_policy(*policy, material),
            guardian_parts@.len() == j,
            forall|k: int|
                0 <= k < j ==> {
                    let g = #[trigger] guardian_parts@[k];
                    &&& g.mailbox@ == guardians@[k]@
                    &&& g.route == GuardianRoute {
                        guardian_index: (k + 1) as u16,
                        guardian_public_key: material.guardian_public_keys@[k],
                    }
                    &&& g.policy == setup_guardian_policy(*policy, material)
                },
        decreases guardians.len() - j,
    {
        guardian_parts.push(
            GuardianProvision {
                mailbox: guardians[j].clone(),
                route: GuardianRoute {
                    guardian_index: (j + 1) as u16,
                    guardian_public_key: material.guardian_public_keys[j],
                },
                policy: guardian_policy,
            },
        );
        j = j + 1;
    }
    Ok(SetupBundle { card, capsule, signers: signer_parts, guardians: guardian_parts })
}

/// The capsule of an assembled bundle validates against its own card: a
/// client holding the card accepts the capsule the setup published.
pub proof fn lemma_bundle_capsule_matches_card(
    b: SetupBundle,
    policy: SetupPolicy,
    signers: Seq<String>,
    guardians: Seq<String>,
    base: Seq<char>,
    material: SetupMaterial,
)
    requires
        setup_policy_ok(policy, signers.len(), guardians.len()),
        bundle_of(b, policy, signers, guardians, base, material),
    ensures
        capsule_ok(b.card, b.capsule),
{
}

} // verus!
