//! What a node accepts when an operator provisions it: the admin token, the
//! production recovery delay, one entry per opaque mailbox, the bindings a
//! protocol-v3 signer or guardian provision must carry, and guardian
//! mailbox aliases that always lead to a provisioned entry.
use vstd::prelude::*;

use crate::bytes::{id_eq, Id32};
use crate::epoch::{capsule_valid, validate_activated_capsule_v3, EpochError};
use crate::guardian_rotation::{GuardianRotationEntryV3, rotation_entry_wf};
use crate::mailbox_v2::GuardianEntry;
use crate::model::{config_ref_eq, ConfigCapsuleV3, ConfigRef, RecoveryCardV3};
use crate::protocol_v2::GuardianPolicy;
use crate::signer_rotation::{signer_rotation_wf, SignerRotationStateV3};
use crate::text::{mailbox_id, mailbox_id_of, str_chars, utf8_len_at_least};

verus! {

/// The shortest recovery delay a guardian accepts outside demo mode: 24
/// hours, in seconds.
pub const PRODUCTION_MIN_DELAY_SECS: u64 = 86400;

/// Why a provisioning request was refused.
#[derive(Debug, Clone, Copy, PartialEq, Eq)]
pub enum ProvisionError {
    /// The admin token is missing or wrong, or provisioning is disabled.
    Forbidden,
    /// The recovery delay is below 24 hours outside explicit demo mode.
    DelayBelowProduction,
    /// The mailbox URL has no opaque id of at least 32 bytes.
    InvalidMailbox,
    /// The mailbox is already provisioned.
    AlreadyProvisioned,
    /// The capsule is not an authenticated epoch of the card.
    Capsule(EpochError),
    /// The provision does not bind the exact predecessor and identity.
    NotBound,
    /// A pinned signer id is outside the signer set.
    SignerPinOutOfRange,
    /// The signer id is out of range or the key is not the seed's.
    InvalidSignerIdentity,
    /// The signer's membership proof does not verify.
    MembershipNotProven,
    /// An alias or its target is shorter than an opaque id.
    InvalidAlias,
    /// The alias target is not provisioned, or the alias already exists.
    AliasConflict,
}

/// Provisioning is enabled (the admin token is not empty) and the request
/// presented exactly that token.
pub open spec fn authorized(admin_token: Seq<char>, presented: Option<String>) -> bool {
    admin_token.len() > 0 && (presented matches Some(p) && p@ == admin_token)
}

/// Whether a provisioning request presented the admin token.
pub fn provision_authorized(admin_token: &String, presented: &Option<String>) -> (b: bool)
    ensures
        b == authorized(admin_token@, *presented),
{
    if admin_token.as_str().is_empty() {
        return false;
    }
    match presented {
        Some(p) => *p == *admin_token,
        None => false,
    }
}

/// A recovery delay a guardian accepts: at least 24 hours, or any delay in
/// explicit demo mode.
pub open spec fn delay_allowed(minimum_recovery_delay: u64, allow_insecure_demo_delay: bool) -> bool {
    minimum_recovery_delay >= PRODUCTION_MIN_DELAY_SECS || allow_insecure_demo_delay
}

/// Entries of one kind, each under its own opaque mailbox id.
#[derive(Clone, Debug)]
pub struct MailboxStore<T> {
    pub entries: Vec<(String, T)>,
}

/// The mailbox ids of a store, in order.
pub open spec fn store_ids<T>(entries: Seq<(String, T)>) -> Seq<Seq<char>> {
    entries.map_values(|e: (String, T)| e.0@)
}

/// No two entries share a mailbox id.
pub open spec fn store_wf<T>(entries: Seq<(String, T)>) -> bool {
    forall|i: int, j: int| 0 <= i < j < entries.len() ==> (#[trigger] entries[i]).0@ != (#[trigger] entries[j]).0@
}

/// Whether an entry is stored under `id`.
pub fn store_has<T>(store: &MailboxStore<T>, id: &String) -> (b: bool)
    ensures
        b == store_ids(store.entries@).contains(id@),
{
    let mut i: usize = 0;
    while i < store.entries.len()
        invariant
            i <= store.entries@.len(),
            forall|k: int| 0 <= k < i ==> (#[trigger] store.entries@[k]).0@ != id@,
        decreases store.entries.len() - i,
    {
        if store.entries[i].0 == *id {
            assert(store_ids(store.entries@)[i as int] == id@);
            return true;
        }
        i = i + 1;
    }
    proof {
        if store_ids(store.entries@).contains(id@) {
            let k = choose|k: int| 0 <= k < store_ids(store.entries@).len() && store_ids(store.entries@)[k] == id@;
            assert(store.entries@[k].0@ == id@);
        }
    }
    false
}

/// Outcome of provisioning `mailbox_url` into a store holding `ids`: the
/// opaque id the entry is stored under, or why it is refused.
pub open spec fn provision_outcome(ids: Seq<Seq<char>>, mailbox_url: Seq<char>) -> Result<Seq<char>, ProvisionError> {
    match mailbox_id_of(mailbox_url) {
        None => Err(ProvisionError::InvalidMailbox),
        Some(id) => if ids.contains(id) {
            Err(ProvisionError::AlreadyProvisioned)
        } else {
            Ok(id)
        },
    }
}

/// Stores `entry` under the opaque id of `mailbox_url`, unless that id is
/// already provisioned: an entry is never replaced.
pub fn provision_entry<T>(store: &mut MailboxStore<T>, mailbox_url: &str, entry: T) -> (r: Result<
    String,
    ProvisionError,
>)
    requires
        store_wf(old(store).entries@),
    ensures
        store_wf(final(store).entries@),
        match provision_outcome(store_ids(old(store).entries@), mailbox_url@) {
            Ok(id) => r matches Ok(s) && s@ == id && final(store).entries@.len() == old(store).entries@.len() + 1
                && final(store).entries@.drop_last() == old(store).entries@ && final(store).entries@.last().0@
                == id && final(store).entries@.last().1 == entry,
            Err(e) => r == Err::<String, ProvisionError>(e) && final(store).entries@ == old(store).entries@,
        },
{
    let id = match mailbox_id(mailbox_url) {
        Ok(id) => id,
        Err(_) => return Err(ProvisionError::InvalidMailbox),
    };
    if store_has(store, &id) {
        return Err(ProvisionError::AlreadyProvisioned);
    }
    let ghost before = store.entries@;
    let key = id.clone();
    store.entries.push((key, entry));
    proof {
        assert(store.entries@.drop_last() =~= before);
        assert forall|i: int, j: int| 0 <= i < j < store.entries@.len() implies (#[trigger] store.entries@[i]).0@
            != (#[trigger] store.entries@[j]).0@ by {
            assert(store.entries@[i] == before[i]);
            if j < before.len() {
                assert(store.entries@[j] == before[j]);
            } else {
                assert(store_ids(before)[i] == before[i].0@);
            }
        }
    }
    Ok(id)
}

/// A protocol-v2 guardian's provisioning, as decoded by the caller.
#[derive(Clone, Copy, Debug)]
pub struct GuardianProvision {
    pub guardian_id: u16,
    pub policy: GuardianPolicy,
}

/// Provisions a protocol-v2 guardian mailbox: refused for a delay below 24
/// hours outside demo mode, otherwise stored as a fresh guardian entry.
pub fn provision_guardian(
    store: &mut MailboxStore<GuardianEntry>,
    mailbox_url: &str,
    provision: GuardianProvision,
    allow_insecure_demo_delay: bool,
) -> (r: Result<String, ProvisionError>)
    requires
        store_wf(old(store).entries@),
    ensures
        store_wf(final(store).entries@),
        !delay_allowed(provision.policy.minimum_recovery_delay, allow_insecure_demo_delay) ==> r == Err::<
            String,
            ProvisionError,
        >(ProvisionError::DelayBelowProduction) && final(store).entries@ == old(store).entries@,
        delay_allowed(provision.policy.minimum_recovery_delay, allow_insecure_demo_delay) ==> match provision_outcome(
            store_ids(old(store).entries@),
            mailbox_url@,
        ) {
            Ok(id) => r matches Ok(s) && s@ == id && final(store).entries@.drop_last() == old(store).entries@
                && final(store).entries@.len() == old(store).entries@.len() + 1 && final(store).entries@.last().0@
                == id && final(store).entries@.last().1.policy == provision.policy
                && final(store).entries@.last().1.guardian_index == provision.guardian_id
                && final(store).entries@.last().1.pending@.len() == 0
                && final(store).entries@.last().1.cancelled@.len() == 0
                && final(store).entries@.last().1.released@.len() == 0
                && final(store).entries@.last().1.seen_nonces@.len() == 0,
            Err(e) => r == Err::<String, ProvisionError>(e) && final(store).entries@ == old(store).entries@,
        },
{
    if provision.policy.minimum_recovery_delay < PRODUCTION_MIN_DELAY_SECS && !allow_insecure_demo_delay {
        return Err(ProvisionError::DelayBelowProduction);
    }
    provision_entry(store, mailbox_url, GuardianEntry::new(provision.policy, provision.guardian_id))
}

/// A protocol-v3 guardian's provisioning, as decoded by the caller.
#[derive(Clone, Debug)]
pub struct GuardianRotationProvisionV3 {
    pub signing_public_key: Id32,
    /// The public key derived from the provisioned signing seed is
    /// `signing_public_key`.
    pub signing_key_matches_seed: bool,
    pub recovery_card: RecoveryCardV3,
    pub predecessor_capsule: ConfigCapsuleV3,
    /// Ids of the signer keys pinned for certificate checks.
    pub signer_pin_ids: Vec<u16>,
    /// The configuration the guardian's epoch store is for.
    pub epoch_store_config_id: Id32,
    /// The predecessor the epoch store expects, and its capsule hash.
    pub expected_predecessor: ConfigRef,
    pub expected_predecessor_capsule_hash: Id32,
    /// The guardian index of the store's ACTIVE record, if it holds one.
    pub active_guardian_index: Option<u16>,
}

/// The provision binds the guardian's own signing key and an epoch store
/// for exactly the predecessor capsule.
pub open spec fn guardian_provision_binds(p: GuardianRotationProvisionV3) -> bool {
    &&& p.signing_key_matches_seed
    &&& p.epoch_store_config_id == p.predecessor_capsule.config_ref.config_id
    &&& p.expected_predecessor == p.predecessor_capsule.config_ref
    &&& p.expected_predecessor_capsule_hash == p.predecessor_capsule.capsule_hash
}

/// Every pinned signer id is in `1..=signer_count`.
pub open spec fn signer_pins_in_range(ids: Seq<u16>, signer_count: u16) -> bool {
    forall|i: int| 0 <= i < ids.len() ==> 1 <= #[trigger] ids[i] <= signer_count
}

/// The checks of a protocol-v3 guardian provision before its mailbox:
/// `None` where they pass, else the refusal (for a capsule the card does
/// not authenticate, only that it is a capsule refusal).
pub open spec fn guardian_provision_refusal(
    p: GuardianRotationProvisionV3,
    allow_insecure_demo_delay: bool,
) -> Option<ProvisionError> {
    if !capsule_valid(p.recovery_card, p.predecessor_capsule) {
        Some(ProvisionError::Capsule(EpochError::CapsuleMismatch))
    } else if !guardian_provision_binds(p) {
        Some(ProvisionError::NotBound)
    } else if !signer_pins_in_range(p.signer_pin_ids@, p.predecessor_capsule.signer_count) {
        Some(ProvisionError::SignerPinOutOfRange)
    } else if !delay_allowed(p.predecessor_capsule.minimum_recovery_delay, allow_insecure_demo_delay) {
        Some(ProvisionError::DelayBelowProduction)
    } else {
        None
    }
}

/// The refusal a provision check reported is the one specified, the
/// capsule's own reason aside.
pub open spec fn same_refusal(r: ProvisionError, expected: ProvisionError) -> bool {
    match expected {
        ProvisionError::Capsule(_) => r is Capsule,
        _ => r == expected,
    }
}

/// Whether every pinned signer id is in range.
fn pins_in_range(ids: &Vec<u16>, signer_count: u16) -> (b: bool)
    ensures
        b == signer_pins_in_range(ids@, signer_count),
{
    let mut i: usize = 0;
    while i < ids.len()
        invariant
            i <= ids@.len(),
            forall|k: int| 0 <= k < i ==> 1 <= #[trigger] ids@[k] <= signer_count,
        decreases ids.len() - i,
    {
        if ids[i] == 0 || ids[i] > signer_count {
            return false;
        }
        i = i + 1;
    }
    true
}

/// Provisions a protocol-v3 guardian mailbox: the predecessor must be an
/// epoch the card authenticates, the provision must bind the guardian's
/// key and an epoch store for that predecessor, signer pins must be in
/// range and the delay at least 24 hours outside demo mode. The entry
/// starts with no sessions and no tombstones.
pub fn provision_guardian_rotation(
    store: &mut MailboxStore<GuardianRotationEntryV3>,
    mailbox_url: &str,
    provision: GuardianRotationProvisionV3,
    transport_public_key: Vec<u8>,
    allow_insecure_demo_delay: bool,
) -> (r: Result<String, ProvisionError>)
    requires
        store_wf(old(store).entries@),
    ensures
        store_wf(final(store).entries@),
        match guardian_provision_refusal(provision, allow_insecure_demo_delay) {
            Some(e) => (r matches Err(x) && same_refusal(x, e)) && final(store).entries@ == old(store).entries@,
            None => match provision_outcome(store_ids(old(store).entries@), mailbox_url@) {
                Ok(id) => r matches Ok(s) && s@ == id && final(store).entries@.drop_last() == old(store).entries@
                    && final(store).entries@.len() == old(store).entries@.len() + 1 && final(store).entries@.last().0@ == id && {
                    let e = final(store).entries@.last().1;
                    &&& e.predecessor_capsule == provision.predecessor_capsule
                    &&& e.signing_public_key == provision.signing_public_key
                    &&& e.transport_public_key@ == transport_public_key@
                    &&& e.active_guardian_index == provision.active_guardian_index
                    &&& e.sessions@.len() == 0
                    &&& e.tombstones@.len() == 0
                    &&& rotation_entry_wf(e)
                },
                Err(e) => r == Err::<String, ProvisionError>(e) && final(store).entries@ == old(store).entries@,
            },
        },
{
    if let Err(e) = validate_activated_capsule_v3(&provision.recovery_card, &provision.predecessor_capsule) {
        return Err(ProvisionError::Capsule(e));
    }
    let capsule = &provision.predecessor_capsule;
    if !provision.signing_key_matches_seed || !id_eq(&provision.epoch_store_config_id, &capsule.config_ref.config_id)
        || !config_ref_eq(&provision.expected_predecessor, &capsule.config_ref) || !id_eq(
        &provision.expected_predecessor_capsule_hash,
        &capsule.capsule_hash,
    ) {
        return Err(ProvisionError::NotBound);
    }
    if !pins_in_range(&provision.signer_pin_ids, capsule.signer_count) {
        return Err(ProvisionError::SignerPinOutOfRange);
    }
    if capsule.minimum_recovery_delay < PRODUCTION_MIN_DELAY_SECS && !allow_insecure_demo_delay {
        return Err(ProvisionError::DelayBelowProduction);
    }
    let entry = GuardianRotationEntryV3 {
        predecessor_capsule: provision.predecessor_capsule,
        signing_public_key: provision.signing_public_key,
        transport_public_key,
        active_guardian_index: provision.active_guardian_index,
        sessions: Vec::new(),
        tombstones: Vec::new(),
    };
    provision_entry(store, mailbox_url, entry)
}

/// A protocol-v3 signer's provisioning, as decoded by the caller.
#[derive(Clone, Debug)]
pub struct SignerRotationProvisionV3 {
    pub signer_id: u16,
    pub signing_public_key: Id32,
    /// The public key derived from the provisioned signing seed is
    /// `signing_public_key`.
    pub signing_key_matches_seed: bool,
    /// The Merkle proof places `signing_public_key` at `signer_id` under
    /// the active capsule's signer-set commitment.
    pub membership_verified: bool,
    pub recovery_card: RecoveryCardV3,
    pub active_capsule: ConfigCapsuleV3,
}

/// The checks of a protocol-v3 signer provision before its mailbox.
pub open spec fn signer_provision_refusal(p: SignerRotationProvisionV3) -> Option<ProvisionError> {
    if !capsule_valid(p.recovery_card, p.active_capsule) {
        Some(ProvisionError::Capsule(EpochError::CapsuleMismatch))
    } else if p.signer_id == 0 || p.signer_id > p.active_capsule.signer_count || !p.signing_key_matches_seed {
        Some(ProvisionError::InvalidSignerIdentity)
    } else if !p.membership_verified {
        Some(ProvisionError::MembershipNotProven)
    } else {
        None
    }
}

/// Provisions a protocol-v3 signer mailbox: the active capsule must be an
/// epoch the card authenticates, and the signer a proven member of its
/// signer set under its own key. The signer starts with no votes.
pub fn provision_signer_rotation(
    store: &mut MailboxStore<SignerRotationStateV3>,
    mailbox_url: &str,
    provision: SignerRotationProvisionV3,
) -> (r: Result<String, ProvisionError>)
    requires
        store_wf(old(store).entries@),
    ensures
        store_wf(final(store).entries@),
        match signer_provision_refusal(provision) {
            Some(e) => (r matches Err(x) && same_refusal(x, e)) && final(store).entries@ == old(store).entries@,
            None => match provision_outcome(store_ids(old(store).entries@), mailbox_url@) {
                Ok(id) => r matches Ok(s) && s@ == id && final(store).entries@.drop_last() == old(store).entries@
                    && final(store).entries@.len() == old(store).entries@.len() + 1 && final(store).entries@.last().0@ == id && {
                    let e = final(store).entries@.last().1;
                    &&& e.signer_id == provision.signer_id
                    &&& e.recovery_card == provision.recovery_card
                    &&& e.active_capsule == provision.active_capsule
                    &&& e.intent_votes@.len() == 0
                    &&& e.intents@.len() == 0
                    &&& e.begin_votes@.len() == 0
                    &&& e.release_votes@.len() == 0
                    &&& e.activate_votes@.len() == 0
                    &&& e.cancelled_rotations@.len() == 0
                    &&& e.predecessor_plan_locks@.len() == 0
                    &&& e.highest_observed_epoch@.len() == 0
                    &&& signer_rotation_wf(e)
                },
                Err(e) => r == Err::<String, ProvisionError>(e) && final(store).entries@ == old(store).entries@,
            },
        },
{
    if let Err(e) = validate_activated_capsule_v3(&provision.recovery_card, &provision.active_capsule) {
        return Err(ProvisionError::Capsule(e));
    }
    if provision.signer_id == 0 || provision.signer_id > provision.active_capsule.signer_count
        || !provision.signing_key_matches_seed {
        return Err(ProvisionError::InvalidSignerIdentity);
    }
    if !provision.membership_verified {
        return Err(ProvisionError::MembershipNotProven);
    }
    let entry = SignerRotationStateV3 {
        signer_id: provision.signer_id,
        recovery_card: provision.recovery_card,
        active_capsule: provision.active_capsule,
        intent_votes: Vec::new(),
        intents: Vec::new(),
        begin_votes: Vec::new(),
        release_votes: Vec::new(),
        activate_votes: Vec::new(),
        cancelled_rotations: Vec::new(),
        predecessor_plan_locks: Vec::new(),
        highest_observed_epoch: Vec::new(),
    };
    provision_entry(store, mailbox_url, entry)
}

/// A request to reach an existing guardian mailbox also under a new
/// opaque mailbox.
#[derive(Clone, Debug)]
pub struct GuardianRouteAliasV3 {
    pub mailbox: String,
    pub existing_mailbox: String,
}

/// Some alias is named `m`.
pub open spec fn has_alias(aliases: Seq<(String, String)>, m: Seq<char>) -> bool {
    exists|i: int| 0 <= i < aliases.len() && (#[trigger] aliases[i]).0@ == m
}

/// The mailbox a request to `m` is served from: the target of the alias
/// named `m`, or `m` itself.
pub open spec fn primary_of(aliases: Seq<(String, String)>, m: Seq<char>) -> Seq<char> {
    if has_alias(aliases, m) {
        aliases[choose|i: int| 0 <= i < aliases.len() && (#[trigger] aliases[i]).0@ == m].1@
    } else {
        m
    }
}

/// No two aliases share a name.
pub open spec fn alias_names_unique(aliases: Seq<(String, String)>) -> bool {
    forall|i: int, j: int| 0 <= i < j < aliases.len() ==> (#[trigger] aliases[i]).0@ != (#[trigger] aliases[j]).0@
}

/// Every alias leads to a provisioned entry.
pub open spec fn aliases_lead_to_entries(aliases: Seq<(String, String)>, ids: Seq<Seq<char>>) -> bool {
    forall|i: int| 0 <= i < aliases.len() ==> ids.contains((#[trigger] aliases[i]).1@)
}

/// Outcome of registering `alias` beside `aliases` and the provisioned
/// `ids`: the alias and the entry it leads to, or why it is refused.
pub open spec fn alias_outcome(
    aliases: Seq<(String, String)>,
    ids: Seq<Seq<char>>,
    alias: GuardianRouteAliasV3,
) -> Result<Seq<char>, ProvisionError> {
    if vstd::utf8::encode_utf8(alias.mailbox@).len() < 32 || vstd::utf8::encode_utf8(alias.existing_mailbox@).len()
        < 32 {
        Err(ProvisionError::InvalidAlias)
    } else {
        let primary = primary_of(aliases, alias.existing_mailbox@);
        if !ids.contains(primary) || ids.contains(alias.mailbox@) || has_alias(aliases, alias.mailbox@)
            || alias.mailbox@ == primary {
            Err(ProvisionError::AliasConflict)
        } else {
            Ok(primary)
        }
    }
}

/// Position of the alias named `m`, if any.
fn find_alias(aliases: &Vec<(String, String)>, m: &String) -> (r: Option<usize>)
    requires
        alias_names_unique(aliases@),
    ensures
        match r {
            Some(i) => i < aliases@.len() && aliases@[i as int].0@ == m@ && primary_of(aliases@, m@)
                == aliases@[i as int].1@,
            None => !has_alias(aliases@, m@),
        },
{
    let mut i: usize = 0;
    while i < aliases.len()
        invariant
            i <= aliases@.len(),
            alias_names_unique(aliases@),
            forall|k: int| 0 <= k < i ==> (#[trigger] aliases@[k]).0@ != m@,
        decreases aliases.len() - i,
    {
        if aliases[i].0 == *m {
            proof {
                let a = aliases@;
                let p = choose|p: int| 0 <= p < a.len() && (#[trigger] a[p]).0@ == m@;
                if p < i {
                    assert(a[p].0@ != m@);
                } else if p > i {
                    assert(a[i as int].0@ != a[p].0@);
                }
            }
            return Some(i);
        }
        i = i + 1;
    }
    None
}

/// The mailbox a request addressed to `mailbox` is served from.
pub fn resolve_rotation_mailbox(aliases: &Vec<(String, String)>, mailbox: &String) -> (r: String)
    requires
        alias_names_unique(aliases@),
    ensures
        r@ == primary_of(aliases@, mailbox@),
{
    match find_alias(aliases, mailbox) {
        Some(i) => aliases[i].1.clone(),
        None => mailbox.clone(),
    }
}

/// Whether `s` takes at least 32 bytes, the length of an opaque id.
fn opaque_length(s: &String) -> (b: bool)
    ensures
        b == (vstd::utf8::encode_utf8(s@).len() >= 32),
{
    let chars = str_chars(s.as_str());
    proof {
        assert(chars@.subrange(0, chars@.len() as int) =~= chars@);
    }
    utf8_len_at_least(&chars, 0, chars.len(), 32)
}

/// Registers an alias of a provisioned guardian mailbox. An alias always
/// leads straight to a provisioned entry, never to another alias, and
/// never takes the name of an entry or of another alias.
pub fn register_rotation_alias<T>(
    aliases: &mut Vec<(String, String)>,
    store: &MailboxStore<T>,
    alias: GuardianRouteAliasV3,
) -> (r: Result<String, ProvisionError>)
    requires
        alias_names_unique(old(aliases)@),
    ensures
        alias_names_unique(final(aliases)@),
        match alias_outcome(old(aliases)@, store_ids(store.entries@), alias) {
            Ok(primary) => r matches Ok(s) && s@ == alias.mailbox@ && final(aliases)@.len() == old(aliases)@.len()
                + 1 && final(aliases)@.drop_last() == old(aliases)@ && final(aliases)@.last().0@ == alias.mailbox@
                && final(aliases)@.last().1@ == primary,
            Err(e) => r == Err::<String, ProvisionError>(e) && final(aliases)@ == old(aliases)@,
        },
        aliases_lead_to_entries(old(aliases)@, store_ids(store.entries@)) ==> aliases_lead_to_entries(
            final(aliases)@,
            store_ids(store.entries@),
        ),
{
    if !opaque_length(&alias.mailbox) || !opaque_length(&alias.existing_mailbox) {
        return Err(ProvisionError::InvalidAlias);
    }
    let primary = resolve_rotation_mailbox(aliases, &alias.existing_mailbox);
    let named = find_alias(aliases, &alias.mailbox).is_some();
    if !store_has(store, &primary) || store_has(store, &alias.mailbox) || named || alias.mailbox == primary {
        return Err(ProvisionError::AliasConflict);
    }
    let ghost before = aliases@;
    let name = alias.mailbox.clone();
    aliases.push((alias.mailbox, primary));
    proof {
        assert(aliases@.drop_last() =~= before);
        assert forall|i: int, j: int| 0 <= i < j < aliases@.len() implies (#[trigger] aliases@[i]).0@
            != (#[trigger] aliases@[j]).0@ by {
            assert(aliases@[i] == before[i]);
            if j < before.len() {
                assert(aliases@[j] == before[j]);
            }
        }
        assert forall|i: int| aliases_lead_to_entries(before, store_ids(store.entries@)) && 0 <= i < aliases@.len()
            implies store_ids(store.entries@).contains((#[trigger] aliases@[i]).1@) by {
            if i < before.len() {
                assert(aliases@[i] == before[i]);
            }
        }
    }
    Ok(name)
}

/// Aliases keep leading to provisioned entries as the store grows: a
/// request to any mailbox is served from that mailbox itself or from a
/// provisioned entry.
pub proof fn lemma_alias_resolves_to_entry(
    aliases: Seq<(String, String)>,
    ids: Seq<Seq<char>>,
    grown: Seq<Seq<char>>,
    m: Seq<char>,
)
    requires
        aliases_lead_to_entries(aliases, ids),
        ids.len() <= grown.len(),
        grown.subrange(0, ids.len() as int) == ids,
    ensures
        aliases_lead_to_entries(aliases, grown),
        primary_of(aliases, m) == m || grown.contains(primary_of(aliases, m)),
{
    assert forall|i: int| 0 <= i < aliases.len() implies grown.contains((#[trigger] aliases[i]).1@) by {
        let k = choose|k: int| 0 <= k < ids.len() && ids[k] == aliases[i].1@;
        assert(grown[k] == grown.subrange(0, ids.len() as int)[k]);
    }
    if has_alias(aliases, m) {
        let i = choose|i: int| 0 <= i < aliases.len() && (#[trigger] aliases[i]).0@ == m;
        assert(grown.contains(aliases[i].1@));
    }
}

} // verus!
