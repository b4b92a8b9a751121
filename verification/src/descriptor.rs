//! The Recovery Descriptor: the guardian roster and DPSS public package of
//! one epoch, checked against the witness-authenticated capsule before a
//! recovery or a rotation trusts it.
use vstd::prelude::*;

use crate::bytes::{id_eq, Id32};
use crate::model::{config_ref_eq, ConfigCapsuleV3, ConfigRef};
use crate::rotation::GuardianRouteV3;

verus! {

/// A decrypted Recovery Descriptor.
#[derive(Clone, Debug)]
pub struct RecoveryDescriptorV3 {
    pub config_ref: ConfigRef,
    pub guardian_material_root: Id32,
    pub data_shards: u16,
    pub total_shards: u16,
    pub guardians: Vec<GuardianRouteV3>,
    pub dpss_suite: u16,
    pub dpss_public_commitment: Id32,
    /// Digest of the DPSS public package, or `None` where the package does
    /// not decode.
    pub dpss_public_package_digest: Option<Id32>,
}

/// Why a descriptor was refused.
#[derive(Debug, Clone, Copy, PartialEq, Eq)]
pub enum DescriptorError {
    /// The descriptor does not match the authenticated capsule.
    CapsuleMismatch,
    /// The DPSS public package does not decode.
    UnreadablePackage,
}

/// No two routes name the same guardian.
pub open spec fn guardian_indices_distinct(routes: Seq<GuardianRouteV3>) -> bool {
    forall|i: int, j: int|
        0 <= i < j < routes.len() ==> (#[trigger] routes[i]).guardian_index
            != (#[trigger] routes[j]).guardian_index
}

/// The descriptor's epoch, shares and commitments are the capsule's.
pub open spec fn descriptor_fields_match(d: RecoveryDescriptorV3, c: ConfigCapsuleV3) -> bool {
    &&& d.config_ref == c.config_ref
    &&& d.guardian_material_root == c.guardian_material_root
    &&& d.data_shards == c.guardian_threshold
    &&& d.total_shards == c.guardian_count
    &&& d.guardians@.len() == c.guardian_count
    &&& d.dpss_public_commitment == c.dpss_public_commitment
}

/// Once the fields match, the package digest decides.
pub open spec fn package_outcome(d: RecoveryDescriptorV3, c: ConfigCapsuleV3) -> Result<
    (),
    DescriptorError,
> {
    match d.dpss_public_package_digest {
        None => Err(DescriptorError::UnreadablePackage),
        Some(digest) => if digest == c.dpss_public_commitment {
            Ok(())
        } else {
            Err(DescriptorError::CapsuleMismatch)
        },
    }
}

/// What the rotation coordinator accepts of the active descriptor.
pub open spec fn descriptor_outcome(d: RecoveryDescriptorV3, c: ConfigCapsuleV3) -> Result<
    (),
    DescriptorError,
> {
    if !descriptor_fields_match(d, c) {
        Err(DescriptorError::CapsuleMismatch)
    } else {
        package_outcome(d, c)
    }
}

/// What a recovering client accepts: also one route per guardian and the
/// capsule's DPSS suite.
pub open spec fn recovery_descriptor_outcome(d: RecoveryDescriptorV3, c: ConfigCapsuleV3) -> Result<
    (),
    DescriptorError,
> {
    if !descriptor_fields_match(d, c) || !guardian_indices_distinct(d.guardians@) || d.dpss_suite
        != c.dpss_suite {
        Err(DescriptorError::CapsuleMismatch)
    } else {
        package_outcome(d, c)
    }
}

/// Whether no two routes name the same guardian.
fn indices_distinct(routes: &Vec<GuardianRouteV3>) -> (b: bool)
    ensures
        b == guardian_indices_distinct(routes@),
{
    let mut j: usize = 0;
    while j < routes.len()
        invariant
            j <= routes@.len(),
            forall|a: int, b: int|
                0 <= a < b < j ==> (#[trigger] routes@[a]).guardian_index
                    != (#[trigger] routes@[b]).guardian_index,
        decreases routes.len() - j,
    {
        let mut i: usize = 0;
        while i < j
            invariant
                i <= j < routes@.len(),
                forall|a: int| 0 <= a < i ==> (#[trigger] routes@[a]).guardian_index
                    != routes@[j as int].guardian_index,
            decreases j - i,
        {
            if routes[i].guardian_index == routes[j].guardian_index {
                return false;
            }
            i = i + 1;
        }
        j = j + 1;
    }
    true
}

/// Checks the package digest once every other field matched.
fn check_package(d: &RecoveryDescriptorV3, c: &ConfigCapsuleV3) -> (r: Result<(), DescriptorError>)
    ensures
        r == package_outcome(*d, *c),
{
    match &d.dpss_public_package_digest {
        None => Err(DescriptorError::UnreadablePackage),
        Some(digest) => if id_eq(digest, &c.dpss_public_commitment) {
            Ok(())
        } else {
            Err(DescriptorError::CapsuleMismatch)
        },
    }
}

/// Whether the descriptor's epoch, shares and commitments are the capsule's.
fn fields_match(d: &RecoveryDescriptorV3, c: &ConfigCapsuleV3) -> (b: bool)
    ensures
        b == descriptor_fields_match(*d, *c),
{
    config_ref_eq(&d.config_ref, &c.config_ref) && id_eq(
        &d.guardian_material_root,
        &c.guardian_material_root,
    ) && d.data_shards == c.guardian_threshold && d.total_shards == c.guardian_count
        && d.guardians.len() == c.guardian_count as usize && id_eq(
        &d.dpss_public_commitment,
        &c.dpss_public_commitment,
    )
}

/// Checks the active descriptor a rotation starts from against the
/// witness-authenticated predecessor capsule.
pub fn validate_descriptor(descriptor: &RecoveryDescriptorV3, capsule: &ConfigCapsuleV3) -> (r:
    Result<(), DescriptorError>)
    ensures
        r == descriptor_outcome(*descriptor, *capsule),
{
    if !fields_match(descriptor, capsule) {
        return Err(DescriptorError::CapsuleMismatch);
    }
    check_package(descriptor, capsule)
}

/// Checks the descriptor a recovery opens against the authenticated
/// capsule: same epoch, shares, commitments and suite, one route per
/// guardian, and a package that hashes to the capsule's commitment.
pub fn validate_recovery_descriptor_v3(
    descriptor: &RecoveryDescriptorV3,
    capsule: &ConfigCapsuleV3,
) -> (r: Result<(), DescriptorError>)
    ensures
        r == recovery_descriptor_outcome(*descriptor, *capsule),
{
    let distinct = indices_distinct(&descriptor.guardians);
    if !fields_match(descriptor, capsule) || !distinct || descriptor.dpss_suite != capsule.dpss_suite {
        return Err(DescriptorError::CapsuleMismatch);
    }
    check_package(descriptor, capsule)
}

} // verus!
