//! Byte-level comparisons used by every transcript check, and fresh
//! random identifiers.
use rand::TryRngCore;
use vstd::prelude::*;

verus! {

/// A 32-byte identifier, digest or Ed25519 public key.
pub type Id32 = [u8; 32];

/// The all-zero identifier, used for "no predecessor".
pub open spec fn is_zero_id(a: Id32) -> bool {
    forall|j: int| 0 <= j < 32 ==> a[j] == 0u8
}

/// Compares two 32-byte identifiers.
pub fn id_eq(a: &Id32, b: &Id32) -> (r: bool)
    ensures
        r == (*a == *b),
{
    let mut i: usize = 0;
    while i < 32
        invariant
            i <= 32,
            forall|j: int| 0 <= j < i ==> a[j] == b[j],
        decreases 32 - i,
    {
        if a[i] != b[i] {
            return false;
        }
        i = i + 1;
    }
    proof {
        broadcast use vstd::array::group_array_axioms;

        assert(*a =~= *b);
    }
    true
}

/// Whether every byte of `a` is zero.
pub fn id_is_zero(a: &Id32) -> (r: bool)
    ensures
        r == is_zero_id(*a),
{
    let mut i: usize = 0;
    while i < 32
        invariant
            i <= 32,
            forall|j: int| 0 <= j < i ==> a[j] == 0u8,
        decreases 32 - i,
    {
        if a[i] != 0 {
            return false;
        }
        i = i + 1;
    }
    true
}

/// Compares two byte strings.
pub fn bytes_eq(a: &[u8], b: &[u8]) -> (r: bool)
    ensures
        r == (a@ == b@),
{
    if a.len() != b.len() {
        return false;
    }
    let mut i: usize = 0;
    while i < a.len()
        invariant
            i <= a.len(),
            a@.len() == b@.len(),
            forall|j: int| 0 <= j < i ==> a@[j] == b@[j],
        decreases a.len() - i,
    {
        if a[i] != b[i] {
            return false;
        }
        i = i + 1;
    }
    assert(a@ =~= b@);
    true
}

/// Whether `id` occurs in `ids`.
pub fn contains_id(ids: &Vec<Id32>, id: &Id32) -> (r: bool)
    ensures
        r == ids@.contains(*id),
{
    let mut i: usize = 0;
    while i < ids.len()
        invariant
            i <= ids.len(),
            forall|j: int| 0 <= j < i ==> ids@[j] != *id,
        decreases ids.len() - i,
    {
        if id_eq(&ids[i], id) {
            return true;
        }
        i = i + 1;
    }
    false
}

/// Whether `value` occurs in `values`.
pub fn contains_u16(values: &Vec<u16>, value: u16) -> (r: bool)
    ensures
        r == values@.contains(value),
{
    let mut i: usize = 0;
    while i < values.len()
        invariant
            i <= values.len(),
            forall|j: int| 0 <= j < i ==> values@[j] != value,
        decreases values.len() - i,
    {
        if values[i] == value {
            return true;
        }
        i = i + 1;
    }
    false
}

/// A copy of `values`.
pub fn copy_u16s(values: &Vec<u16>) -> (r: Vec<u16>)
    ensures
        r@ == values@,
{
    let mut r: Vec<u16> = Vec::new();
    let mut i: usize = 0;
    while i < values.len()
        invariant
            i <= values@.len(),
            r@ == values@.take(i as int),
        decreases values.len() - i,
    {
        r.push(values[i]);
        assert(r@ =~= values@.take(i + 1));
        i = i + 1;
    }
    assert(values@.take(values@.len() as int) =~= values@);
    r
}

/// `rand_core::OsError`, the operating system generator's failure; opaque
/// here.
#[verifier::external_type_specification]
#[verifier::external_body]
pub struct ExOsError(rand::rand_core::OsError);

/// The operating system's random generator could not produce bytes.
#[derive(Clone, Copy, Debug, PartialEq, Eq, Structural)]
pub enum RandomError {
    Unavailable,
}

/// Fills `dest` from the operating system's generator
/// (`TryRngCore::try_fill_bytes` on `rand::rngs::OsRng`). It reports the
/// generator's failure instead of panicking; nothing is promised of the
/// bytes written, nor that the call succeeds.
#[verifier::external_body]
fn os_fill<const N: usize>(dest: &mut [u8; N]) -> Result<(), rand::rand_core::OsError> {
    rand::rngs::OsRng.try_fill_bytes(dest)
}

/// A fresh random 32-byte identifier from the operating system's
/// generator, or `Unavailable` where the generator fails. Nothing is
/// promised of the value.
pub fn random_id() -> (r: Result<Id32, RandomError>)
    ensures
        r is Err ==> r == Err::<Id32, RandomError>(RandomError::Unavailable),
{
    let mut value = [0u8; 32];
    match os_fill(&mut value) {
        Ok(()) => Ok(value),
        Err(_) => Err(RandomError::Unavailable),
    }
}

/// A fresh random 24-byte nonce from the operating system's generator, or
/// `Unavailable` where the generator fails. Nothing is promised of the
/// value.
pub fn random_nonce() -> (r: Result<[u8; 24], RandomError>)
    ensures
        r is Err ==> r == Err::<[u8; 24], RandomError>(RandomError::Unavailable),
{
    let mut value = [0u8; 24];
    match os_fill(&mut value) {
        Ok(()) => Ok(value),
        Err(_) => Err(RandomError::Unavailable),
    }
}

} // verus!
