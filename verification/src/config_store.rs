//! The protocol-v2 config store: it publishes each Config Capsule once,
//! under the hexadecimal text of its configuration id, and serves it back
//! unchanged. Capsules are immutable; rotation uses protocol-v3 witnesses.
use vstd::prelude::*;

use crate::protocol_v2::ConfigCapsule;
use crate::text::{hex_encode, hex_lower};

verus! {

/// Why the config store refused a request.
#[derive(Debug, Clone, Copy, PartialEq, Eq)]
pub enum ConfigStoreError {
    /// The path names another configuration than the capsule.
    PathMismatch,
    /// A capsule is already published for this configuration.
    Immutable,
    /// No capsule is published for this configuration.
    NotFound,
}

/// Published capsules, by the hexadecimal text of their configuration id.
#[derive(Clone, Debug)]
pub struct ConfigDisk {
    pub capsules: Vec<(String, ConfigCapsule)>,
}

/// No configuration is published twice.
pub open spec fn config_disk_wf(capsules: Seq<(String, ConfigCapsule)>) -> bool {
    forall|i: int, j: int| 0 <= i < j < capsules.len() ==> (#[trigger] capsules[i]).0@ != (#[trigger] capsules[j]).0@
}

/// The capsule published under `key`, if any.
pub open spec fn published(capsules: Seq<(String, ConfigCapsule)>, key: Seq<char>) -> Option<ConfigCapsule> {
    if exists|i: int| 0 <= i < capsules.len() && (#[trigger] capsules[i]).0@ == key {
        Some(capsules[choose|i: int| 0 <= i < capsules.len() && (#[trigger] capsules[i]).0@ == key].1)
    } else {
        None
    }
}

/// Position of the capsule published under `key`, if any.
fn find_capsule(capsules: &Vec<(String, ConfigCapsule)>, key: &String) -> (r: Option<usize>)
    requires
        config_disk_wf(capsules@),
    ensures
        match r {
            Some(i) => i < capsules@.len() && capsules@[i as int].0@ == key@ && published(capsules@, key@)
                == Some(capsules@[i as int].1),
            None => published(capsules@, key@) is None,
        },
{
    let mut i: usize = 0;
    while i < capsules.len()
        invariant
            i <= capsules@.len(),
            config_disk_wf(capsules@),
            forall|k: int| 0 <= k < i ==> (#[trigger] capsules@[k]).0@ != key@,
        decreases capsules.len() - i,
    {
        if capsules[i].0 == *key {
            proof {
                let c = capsules@;
                let p = choose|p: int| 0 <= p < c.len() && (#[trigger] c[p]).0@ == key@;
                if p < i {
                    assert(c[p].0@ != key@);
                } else if p > i {
                    assert(c[i as int].0@ != c[p].0@);
                }
            }
            return Some(i);
        }
        i = i + 1;
    }
    None
}

/// Outcome of publishing `capsule` under the path `config_id`.
pub open spec fn put_outcome(
    capsules: Seq<(String, ConfigCapsule)>,
    config_id: Seq<char>,
    capsule: ConfigCapsule,
) -> Result<(), ConfigStoreError> {
    if config_id != hex_lower(capsule.config_id@) {
        Err(ConfigStoreError::PathMismatch)
    } else if published(capsules, config_id) is Some {
        Err(ConfigStoreError::Immutable)
    } else {
        Ok(())
    }
}

/// Publishes a capsule under its configuration id, once.
pub fn config_put(disk: &mut ConfigDisk, config_id: &String, capsule: ConfigCapsule) -> (r: Result<
    String,
    ConfigStoreError,
>)
    requires
        config_disk_wf(old(disk).capsules@),
    ensures
        config_disk_wf(final(disk).capsules@),
        match put_outcome(old(disk).capsules@, config_id@, capsule) {
            Ok(_) => r matches Ok(s) && s@ == config_id@ && final(disk).capsules@ == old(disk).capsules@.push(
                (final(disk).capsules@.last().0, capsule),
            ) && final(disk).capsules@.last().0@ == config_id@,
            Err(e) => r == Err::<String, ConfigStoreError>(e) && final(disk).capsules@ == old(disk).capsules@,
        },
{
    let expected = hex_encode(capsule.config_id.as_slice());
    if expected != *config_id {
        return Err(ConfigStoreError::PathMismatch);
    }
    if find_capsule(&disk.capsules, config_id).is_some() {
        return Err(ConfigStoreError::Immutable);
    }
    let ghost before = disk.capsules@;
    disk.capsules.push((config_id.clone(), capsule));
    proof {
        assert forall|i: int, j: int| 0 <= i < j < disk.capsules@.len() implies (#[trigger] disk.capsules@[i]).0@
            != (#[trigger] disk.capsules@[j]).0@ by {
            assert(disk.capsules@[i] == before[i]);
            if j < before.len() {
                assert(disk.capsules@[j] == before[j]);
            } else if before[i].0@ == config_id@ {
                assert(published(before, config_id@) is Some);
            }
        }
    }
    Ok(config_id.clone())
}

/// The capsule published for `config_id`.
pub fn config_get(disk: &ConfigDisk, config_id: &String) -> (r: Result<ConfigCapsule, ConfigStoreError>)
    requires
        config_disk_wf(disk.capsules@),
    ensures
        match published(disk.capsules@, config_id@) {
            Some(c) => r == Ok::<ConfigCapsule, ConfigStoreError>(c),
            None => r == Err::<ConfigCapsule, ConfigStoreError>(ConfigStoreError::NotFound),
        },
{
    match find_capsule(&disk.capsules, config_id) {
        Some(i) => Ok(disk.capsules[i].1),
        None => Err(ConfigStoreError::NotFound),
    }
}

/// What the config store gives back of a publication: once a capsule is
/// published under a configuration id, reads of that id return exactly it,
/// reads of other ids are unaffected, and every later publication under
/// that id is refused.
pub proof fn lemma_published_capsule_reads_back(
    before: Seq<(String, ConfigCapsule)>,
    key: String,
    capsule: ConfigCapsule,
    other: Seq<char>,
    later: ConfigCapsule,
)
    requires
        config_disk_wf(before),
        published(before, key@) is None,
    ensures
        config_disk_wf(before.push((key, capsule))),
        published(before.push((key, capsule)), key@) == Some(capsule),
        other != key@ ==> published(before.push((key, capsule)), other) == published(before, other),
        put_outcome(before.push((key, capsule)), key@, later) is Err,
{
    let after = before.push((key, capsule));
    assert(after[before.len() as int].0@ == key@);
    assert forall|i: int, j: int| 0 <= i < j < after.len() implies (#[trigger] after[i]).0@ != (#[trigger] after[j]).0@ by {
        assert(after[i] == before[i]);
        if j < before.len() {
            assert(after[j] == before[j]);
        } else if before[i].0@ == key@ {
            assert(published(before, key@) is Some);
        }
    }
    let p = choose|p: int| 0 <= p < after.len() && (#[trigger] after[p]).0@ == key@;
    if p < before.len() {
        assert(after[p] == before[p]);
        assert(published(before, key@) is Some);
    }
    if other != key@ {
        if exists|i: int| 0 <= i < before.len() && (#[trigger] before[i]).0@ == other {
            let i = choose|i: int| 0 <= i < before.len() && (#[trigger] before[i]).0@ == other;
            assert(after[i] == before[i]);
            let q = choose|q: int| 0 <= q < after.len() && (#[trigger] after[q]).0@ == other;
            assert(q < before.len());
            assert(after[q] == before[q]);
            if q != i {
                if q < i {
                    assert(before[q].0@ != before[i].0@);
                } else {
                    assert(before[i].0@ != before[q].0@);
                }
            }
        } else {
            assert forall|q: int| 0 <= q < after.len() implies (#[trigger] after[q]).0@ != other by {
                if q < before.len() {
                    assert(after[q] == before[q]);
                }
            }
        }
    }
}

} // verus!
