//! Quorum sizes: owner hard-cancel tombstones and config-witness quorums.
use vstd::prelude::*;
use vstd::set_lib::{lemma_len_subset, lemma_set_difference_len, lemma_set_intersect_union_lens};

verus! {

/// An invalid threshold or fault bound.
#[derive(Debug, Clone, Copy, PartialEq, Eq)]
pub enum QuorumError {
    /// The recovery threshold is zero or above the guardian count.
    InvalidGuardianThreshold,
    /// The witness quorum size does not fit in `usize`.
    WitnessQuorumOverflow,
}

/// Number of guardian cancellation acknowledgements (tombstones) needed so
/// that the guardians without a tombstone can no longer reach the recovery
/// threshold: `total - threshold + 1`.
pub fn required_cancel_acks(total_guardians: usize, recovery_threshold: usize) -> (r: Result<
    usize,
    QuorumError,
>)
    ensures
        (recovery_threshold == 0 || recovery_threshold > total_guardians) <==> r is Err,
        r matches Ok(n) ==> n == total_guardians - recovery_threshold + 1,
        r matches Err(e) ==> e == QuorumError::InvalidGuardianThreshold,
{
    if recovery_threshold == 0 || recovery_threshold > total_guardians {
        return Err(QuorumError::InvalidGuardianThreshold);
    }
    Ok(total_guardians - recovery_threshold + 1)
}

/// Config-witness quorum `2f + 1` for fault bound `f`.
pub open spec fn witness_quorum(fault_bound: int) -> int {
    2 * fault_bound + 1
}

/// Minimum pinned witness roster `3f + 1` for fault bound `f`.
pub open spec fn witness_roster_minimum(fault_bound: int) -> int {
    3 * fault_bound + 1
}

/// The `2f + 1` witness quorum for fault bound `f`.
pub fn required_witness_quorum(fault_bound: u16) -> (r: Result<usize, QuorumError>)
    ensures
        r matches Ok(n) ==> n == witness_quorum(fault_bound as int),
        r is Err <==> witness_quorum(fault_bound as int) > usize::MAX,
{
    let f = fault_bound as usize;
    match f.checked_mul(2) {
        Some(double) => match double.checked_add(1) {
            Some(value) => Ok(value),
            None => Err(QuorumError::WitnessQuorumOverflow),
        },
        None => Err(QuorumError::WitnessQuorumOverflow),
    }
}

/// The `3f + 1` minimum witness roster for fault bound `f`.
pub fn required_witness_roster(fault_bound: u16) -> (r: Result<usize, QuorumError>)
    ensures
        r matches Ok(n) ==> n == witness_roster_minimum(fault_bound as int),
        r is Err <==> witness_roster_minimum(fault_bound as int) > usize::MAX,
{
    let f = fault_bound as usize;
    match f.checked_mul(3) {
        Some(triple) => match triple.checked_add(1) {
            Some(value) => Ok(value),
            None => Err(QuorumError::WitnessQuorumOverflow),
        },
        None => Err(QuorumError::WitnessQuorumOverflow),
    }
}

/// Owner hard cancellation breaks the recovery quorum: once
/// `total - threshold + 1` guardians of a roster of `total` hold a
/// tombstone, fewer than `threshold` guardians remain that could still
/// release material.
pub proof fn lemma_cancel_acks_break_recovery_quorum(
    roster: Set<u16>,
    acknowledged: Set<u16>,
    recovery_threshold: int,
)
    requires
        roster.finite(),
        acknowledged.subset_of(roster),
        0 < recovery_threshold <= roster.len(),
        acknowledged.len() >= roster.len() - recovery_threshold + 1,
    ensures
        roster.difference(acknowledged).len() < recovery_threshold,
{
    lemma_len_subset(acknowledged, roster);
    lemma_set_difference_len(roster, acknowledged);
    assert(roster.intersect(acknowledged) =~= acknowledged);
}

/// Any two `2f + 1` witness quorums drawn from a roster of at most `3f + 1`
/// witnesses share at least `f + 1` witnesses, so at least one of them is
/// honest when at most `f` are faulty.
pub proof fn lemma_witness_quorums_intersect(
    roster: Set<u16>,
    first: Set<u16>,
    second: Set<u16>,
    fault_bound: int,
)
    requires
        roster.finite(),
        fault_bound >= 0,
        roster.len() <= witness_roster_minimum(fault_bound),
        first.subset_of(roster),
        second.subset_of(roster),
        first.len() >= witness_quorum(fault_bound),
        second.len() >= witness_quorum(fault_bound),
    ensures
        first.intersect(second).len() >= fault_bound + 1,
{
    lemma_len_subset(first, roster);
    lemma_len_subset(second, roster);
    lemma_set_intersect_union_lens(first, second);
    assert((first + second).subset_of(roster));
    lemma_len_subset(first + second, roster);
}

} // verus!
