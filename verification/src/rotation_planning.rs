//! The coordinator's planning of a one-for-one guardian replacement: the
//! rotation context, the index and freshness of the replacement guardian,
//! and the old guardians that repair the replacement's share.
use vstd::prelude::*;

use crate::bytes::{bytes_eq, id_eq, Id32};
use crate::descriptor::RecoveryDescriptorV3;
use crate::epoch::saturating_add;
use crate::model::{ConfigCapsuleV3, RotationContext, PROTOCOL_VERSION_V3};
use crate::rotation::{in_roster, GuardianRouteV3, RotationPlan};
use crate::text::{trim_end_slashes, trim_slashes};

verus! {

/// How long a rotation context lives beyond the recovery delay, in
/// seconds.
pub const ROTATION_CONTEXT_SLACK_SECS: u64 = 7200;

/// Why the coordinator could not plan the replacement.
#[derive(Debug, Clone, Copy, PartialEq, Eq)]
pub enum PlanningError {
    /// The next guardian index does not fit in a `u16`.
    GuardianIndexOverflow,
    /// Fewer old guardians than the old threshold remain besides the one
    /// being replaced.
    NotEnoughRepairHelpers,
}

/// The context of a rotation issued at `issued_at` for the predecessor
/// epoch: it expires the recovery delay plus two hours later.
pub open spec fn rotation_context_for(
    context: RotationContext,
    predecessor: ConfigCapsuleV3,
    rotation_id: Id32,
    recipient_key: Seq<u8>,
    nonce: Id32,
    issued_at: u64,
) -> bool {
    &&& context.protocol_version == PROTOCOL_VERSION_V3
    &&& context.config_ref == predecessor.config_ref
    &&& context.rotation_id == rotation_id
    &&& context.predecessor_capsule_hash == predecessor.capsule_hash
    &&& context.recipient_key@ == recipient_key
    &&& context.nonce == nonce
    &&& context.issued_at == issued_at
    &&& context.expiry == saturating_add(
        saturating_add(issued_at, predecessor.minimum_recovery_delay) as u64,
        ROTATION_CONTEXT_SLACK_SECS,
    )
}

/// Builds the transcript context of a new rotation of the predecessor
/// epoch.
pub fn rotation_context_v3(
    predecessor: &ConfigCapsuleV3,
    rotation_id: Id32,
    recipient_key: Vec<u8>,
    nonce: Id32,
    issued_at: u64,
) -> (r: RotationContext)
    ensures
        rotation_context_for(r, *predecessor, rotation_id, recipient_key@, nonce, issued_at),
{
    RotationContext {
        protocol_version: PROTOCOL_VERSION_V3,
        config_ref: predecessor.config_ref,
        rotation_id,
        predecessor_capsule_hash: predecessor.capsule_hash,
        recipient_key,
        nonce,
        issued_at,
        expiry: issued_at.saturating_add(predecessor.minimum_recovery_delay).saturating_add(
            ROTATION_CONTEXT_SLACK_SECS,
        ),
    }
}

/// The largest guardian index of `routes`, or 0 for none.
pub open spec fn max_guardian_index(routes: Seq<GuardianRouteV3>) -> u16
    decreases routes.len(),
{
    if routes.len() == 0 {
        0
    } else {
        let rest = max_guardian_index(routes.drop_last());
        if routes.last().guardian_index > rest {
            routes.last().guardian_index
        } else {
            rest
        }
    }
}

/// No route's index exceeds the maximum, and a non-empty roster attains it.
proof fn lemma_max_guardian_index(routes: Seq<GuardianRouteV3>)
    ensures
        forall|i: int| 0 <= i < routes.len() ==> (#[trigger] routes[i]).guardian_index <= max_guardian_index(routes),
        routes.len() > 0 ==> in_roster(routes, max_guardian_index(routes)),
    decreases routes.len(),
{
    if routes.len() > 0 {
        let rest = routes.drop_last();
        lemma_max_guardian_index(rest);
        assert forall|i: int| 0 <= i < routes.len() implies (#[trigger] routes[i]).guardian_index
            <= max_guardian_index(routes) by {
            if i < routes.len() - 1 {
                assert(routes[i] == rest[i]);
            }
        }
        if routes.last().guardian_index > max_guardian_index(rest) {
            assert(routes[routes.len() - 1].guardian_index == max_guardian_index(routes));
        } else if rest.len() > 0 {
            let k = choose|k: int| 0 <= k < rest.len() && (#[trigger] rest[k]).guardian_index
                == max_guardian_index(rest);
            assert(routes[k] == rest[k]);
        } else {
            assert(routes[0].guardian_index == routes.last().guardian_index);
        }
    }
}

/// The index the replacement guardian gets: one past the largest index of
/// the active roster, if that fits in a `u16`.
pub fn added_guardian_index(descriptor: &RecoveryDescriptorV3) -> (r: Result<u16, PlanningError>)
    ensures
        r == if max_guardian_index(descriptor.guardians@) < u16::MAX {
            Ok::<u16, PlanningError>((max_guardian_index(descriptor.guardians@) + 1) as u16)
        } else {
            Err(PlanningError::GuardianIndexOverflow)
        },
        r matches Ok(x) ==> !in_roster(descriptor.guardians@, x),
{
    let routes = &descriptor.guardians;
    let mut max: u16 = 0;
    let mut i: usize = 0;
    while i < routes.len()
        invariant
            i <= routes@.len(),
            max == max_guardian_index(routes@.subrange(0, i as int)),
        decreases routes.len() - i,
    {
        proof {
            assert(routes@.subrange(0, i + 1).drop_last() =~= routes@.subrange(0, i as int));
        }
        if routes[i].guardian_index > max {
            max = routes[i].guardian_index;
        }
        i = i + 1;
    }
    proof {
        assert(routes@.subrange(0, routes@.len() as int) =~= routes@);
        lemma_max_guardian_index(routes@);
    }
    if max == u16::MAX {
        return Err(PlanningError::GuardianIndexOverflow);
    }
    Ok(max + 1)
}

/// The replacement is a new operator and transport endpoint: no active
/// route shares its operator domain or session key, and no owner target is
/// its target.
pub open spec fn replacement_fresh(
    routes: Seq<GuardianRouteV3>,
    domain: Id32,
    session_key: Seq<u8>,
    targets: Seq<String>,
    target: Seq<char>,
) -> bool {
    &&& forall|i: int|
        0 <= i < routes.len() ==> (#[trigger] routes[i]).operator_domain_commitment != domain
            && routes[i].session_recipient_key@ != session_key
    &&& forall|i: int| 0 <= i < targets.len() ==> trim_slashes((#[trigger] targets[i])@) != trim_slashes(target)
}

/// Whether the replacement guardian is a new operator and transport
/// endpoint, as the owner's targets and the active roster show.
pub fn replacement_is_fresh(
    descriptor: &RecoveryDescriptorV3,
    domain: &Id32,
    session_key: &Vec<u8>,
    targets: &Vec<String>,
    target: &str,
) -> (b: bool)
    ensures
        b == replacement_fresh(descriptor.guardians@, *domain, session_key@, targets@, target@),
{
    let routes = &descriptor.guardians;
    let mut i: usize = 0;
    while i < routes.len()
        invariant
            i <= routes@.len(),
            routes@ == descriptor.guardians@,
            forall|j: int|
                0 <= j < i ==> (#[trigger] routes@[j]).operator_domain_commitment != *domain
                    && routes@[j].session_recipient_key@ != session_key@,
        decreases routes.len() - i,
    {
        if id_eq(&routes[i].operator_domain_commitment, domain) || bytes_eq(
            routes[i].session_recipient_key.as_slice(),
            session_key.as_slice(),
        ) {
            assert(!(routes@[i as int].operator_domain_commitment != *domain
                && routes@[i as int].session_recipient_key@ != session_key@));
            return false;
        }
        i = i + 1;
    }
    let wanted = trim_end_slashes(target);
    let mut k: usize = 0;
    while k < targets.len()
        invariant
            k <= targets@.len(),
            wanted@ == trim_slashes(target@),
            routes@ == descriptor.guardians@,
            forall|j: int|
                0 <= j < routes@.len() ==> (#[trigger] routes@[j]).operator_domain_commitment != *domain
                    && routes@[j].session_recipient_key@ != session_key@,
            forall|j: int| 0 <= j < k ==> trim_slashes((#[trigger] targets@[j])@) != trim_slashes(target@),
        decreases targets.len() - k,
    {
        let trimmed = trim_end_slashes(targets[k].as_str());
        if trimmed == wanted {
            assert(trim_slashes(targets@[k as int]@) == trim_slashes(target@));
            return false;
        }
        k = k + 1;
    }
    true
}

/// The old guardians that repair the replacement's share: the first
/// `threshold` guardians of the active roster, in roster order, other than
/// the one being replaced.
pub open spec fn helpers_of(routes: Seq<GuardianRouteV3>, removed: u16) -> Seq<u16>
    decreases routes.len(),
{
    if routes.len() == 0 {
        Seq::empty()
    } else {
        let rest = helpers_of(routes.drop_last(), removed);
        if routes.last().guardian_index != removed {
            rest.push(routes.last().guardian_index)
        } else {
            rest
        }
    }
}

/// Every helper is a guardian of the roster other than the removed one.
proof fn lemma_helpers_of(routes: Seq<GuardianRouteV3>, removed: u16)
    ensures
        forall|i: int|
            0 <= i < helpers_of(routes, removed).len() ==> (#[trigger] helpers_of(routes, removed)[i])
                != removed && in_roster(routes, helpers_of(routes, removed)[i]),
        helpers_of(routes, removed).len() <= routes.len(),
    decreases routes.len(),
{
    if routes.len() > 0 {
        let rest = routes.drop_last();
        lemma_helpers_of(rest, removed);
        let h = helpers_of(routes, removed);
        assert forall|i: int| 0 <= i < h.len() implies (#[trigger] h[i]) != removed && in_roster(routes, h[i]) by {
            if i < helpers_of(rest, removed).len() {
                let x = helpers_of(rest, removed)[i];
                assert(h[i] == x);
                let k = choose|k: int| 0 <= k < rest.len() && (#[trigger] rest[k]).guardian_index == x;
                assert(routes[k] == rest[k]);
            } else {
                assert(routes[routes.len() - 1].guardian_index == h[i]);
            }
        }
    }
}

/// Picks the repair helpers, or reports that fewer than `threshold` old
/// guardians remain besides the replaced one.
pub fn repair_helpers(descriptor: &RecoveryDescriptorV3, removed: u16, threshold: u16) -> (r: Result<
    Vec<u16>,
    PlanningError,
>)
    ensures
        match r {
            Ok(h) => helpers_of(descriptor.guardians@, removed).len() >= threshold && h@
                == helpers_of(descriptor.guardians@, removed).take(threshold as int),
            Err(e) => e == PlanningError::NotEnoughRepairHelpers && helpers_of(
                descriptor.guardians@,
                removed,
            ).len() < threshold,
        },
        r matches Ok(h) ==> forall|i: int|
            0 <= i < h@.len() ==> h@[i] != removed && in_roster(descriptor.guardians@, #[trigger] h@[i]),
{
    let routes = &descriptor.guardians;
    let mut all: Vec<u16> = Vec::new();
    let mut i: usize = 0;
    while i < routes.len()
        invariant
            i <= routes@.len(),
            all@ == helpers_of(routes@.subrange(0, i as int), removed),
        decreases routes.len() - i,
    {
        proof {
            assert(routes@.subrange(0, i + 1).drop_last() =~= routes@.subrange(0, i as int));
        }
        if routes[i].guardian_index != removed {
            all.push(routes[i].guardian_index);
        }
        i = i + 1;
    }
    proof {
        assert(routes@.subrange(0, routes@.len() as int) =~= routes@);
        lemma_helpers_of(routes@, removed);
    }
    if all.len() < threshold as usize {
        return Err(PlanningError::NotEnoughRepairHelpers);
    }
    let mut helpers: Vec<u16> = Vec::new();
    let mut k: usize = 0;
    while k < threshold as usize
        invariant
            k <= threshold,
            threshold <= all@.len(),
            helpers@ == all@.take(k as int),
        decreases threshold - k,
    {
        proof {
            assert(all@.take(k + 1) =~= all@.take(k as int).push(all@[k as int]));
        }
        helpers.push(all[k]);
        k = k + 1;
    }
    proof {
        assert forall|i: int| 0 <= i < helpers@.len() implies helpers@[i] != removed && in_roster(
            descriptor.guardians@,
            #[trigger] helpers@[i],
        ) by {
            assert(helpers@[i] == all@[i]);
        }
    }
    Ok(helpers)
}

/// Position of the first route for guardian `id`, if any.
pub fn route_by_id(routes: &Vec<GuardianRouteV3>, id: u16) -> (r: Option<usize>)
    ensures
        match r {
            Some(i) => i < routes@.len() && routes@[i as int].guardian_index == id && forall|j: int|
                0 <= j < i ==> (#[trigger] routes@[j]).guardian_index != id,
            None => !in_roster(routes@, id),
        },
{
    let mut i: usize = 0;
    while i < routes.len()
        invariant
            i <= routes@.len(),
            forall|j: int| 0 <= j < i ==> (#[trigger] routes@[j]).guardian_index != id,
        decreases routes.len() - i,
    {
        if routes[i].guardian_index == id {
            return Some(i);
        }
        i = i + 1;
    }
    None
}

/// Routes in non-decreasing guardian-index order.
pub open spec fn sorted_by_index(r: Seq<GuardianRouteV3>) -> bool {
    forall|i: int, j: int| 0 <= i < j < r.len() ==> (#[trigger] r[i]).guardian_index <= (#[trigger] r[j]).guardian_index
}

/// Sorts routes by guardian index.
pub fn sort_routes_by_index(routes: Vec<GuardianRouteV3>) -> (r: Vec<GuardianRouteV3>)
    ensures
        sorted_by_index(r@),
        r@.to_multiset() == routes@.to_multiset(),
        r@.len() == routes@.len(),
{
    broadcast use vstd::seq_lib::group_to_multiset_ensures;
    broadcast use vstd::multiset::group_multiset_axioms;

    let ghost all = routes@;
    let mut pending = routes;
    let mut out: Vec<GuardianRouteV3> = Vec::new();
    while pending.len() > 0
        invariant
            sorted_by_index(out@),
            out@.to_multiset().add(pending@.to_multiset()) == all.to_multiset(),
        decreases pending.len(),
    {
        let ghost before_pending = pending@;
        let ghost before_out = out@;
        let x = match pending.pop() {
            Some(x) => x,
            None => {
                return out;
            },
        };
        proof {
            assert(before_pending =~= pending@.push(x));
        }
        let mut p: usize = 0;
        while p < out.len() && out[p].guardian_index <= x.guardian_index
            invariant
                p <= out@.len(),
                out@ == before_out,
                forall|k: int| 0 <= k < p ==> (#[trigger] out@[k]).guardian_index <= x.guardian_index,
            decreases out.len() - p,
        {
            p = p + 1;
        }
        proof {
            vstd::seq_lib::to_multiset_insert(before_out, p as int, x);
        }
        out.insert(p, x);
        proof {
            let o = out@;
            assert(o =~= before_out.insert(p as int, x));
            assert forall|i: int, j: int| 0 <= i < j < o.len() implies (#[trigger] o[i]).guardian_index
                <= (#[trigger] o[j]).guardian_index by {
                if j < p {
                    assert(o[i] == before_out[i] && o[j] == before_out[j]);
                } else if j == p {
                    assert(o[i] == before_out[i]);
                } else if i < p {
                    assert(o[i] == before_out[i] && o[j] == before_out[j - 1]);
                } else if i == p {
                    assert(o[j] == before_out[j - 1]);
                    assert(before_out[p as int].guardian_index > x.guardian_index);
                } else {
                    assert(o[i] == before_out[i - 1] && o[j] == before_out[j - 1]);
                }
            }
            let mo = before_out.to_multiset();
            let mp = pending@.to_multiset();
            vstd::seq_lib::to_multiset_build(pending@, x);
            assert(pending@.push(x).to_multiset() =~= mp.insert(x));
            assert(before_pending.to_multiset() =~= mp.insert(x));
            assert(out@.to_multiset() =~= mo.insert(x));
            assert(mo.insert(x).add(mp) =~= mo.add(mp.insert(x)));
            assert(out@.to_multiset().add(pending@.to_multiset()) =~= all.to_multiset());
        }
    }
    proof {
        assert(pending@ =~= Seq::<GuardianRouteV3>::empty());
        assert(out@.to_multiset() =~= all.to_multiset());
        assert(out@.len() == out@.to_multiset().len());
        assert(all.len() == all.to_multiset().len());
    }
    out
}

/// A new opaque slot and mailbox for one kept guardian.
#[derive(Clone, Debug)]
pub struct FreshRoute {
    pub opaque_slot_id: Id32,
    pub mailbox: String,
}

/// `new` is the kept guardian's route `old` with a fresh slot and mailbox.
pub open spec fn refreshed_route(new: GuardianRouteV3, old: GuardianRouteV3, fresh: FreshRoute) -> bool {
    &&& new.guardian_index == old.guardian_index
    &&& new.guardian_public_key == old.guardian_public_key
    &&& new.session_recipient_key@ == old.session_recipient_key@
    &&& new.operator_domain_commitment == old.operator_domain_commitment
    &&& new.index_digest == old.index_digest
    &&& new.opaque_slot_id == fresh.opaque_slot_id
    &&& new.mailbox@ == fresh.mailbox@
}

/// Route `new` is the refreshed route of some kept guardian among the first
/// `n` old routes.
pub open spec fn refreshed_from(
    new: GuardianRouteV3,
    old: Seq<GuardianRouteV3>,
    fresh: Seq<FreshRoute>,
    removed: u16,
    n: int,
) -> bool {
    exists|i: int|
        0 <= i < n && (#[trigger] old[i]).guardian_index != removed && refreshed_route(new, old[i], fresh[i])
}

/// The successor roster: every kept guardian's route refreshed, plus the
/// replacement, sorted by guardian index.
pub open spec fn successor_roster_ok(
    r: Seq<GuardianRouteV3>,
    old: Seq<GuardianRouteV3>,
    fresh: Seq<FreshRoute>,
    removed: u16,
    replacement: GuardianRouteV3,
) -> bool {
    &&& sorted_by_index(r)
    &&& r.len() == helpers_of(old, removed).len() + 1
    &&& r.contains(replacement)
    &&& forall|i: int|
        0 <= i < old.len() && (#[trigger] old[i]).guardian_index != removed ==> exists|j: int|
            0 <= j < r.len() && refreshed_route(#[trigger] r[j], old[i], fresh[i])
    &&& forall|j: int|
        0 <= j < r.len() ==> (#[trigger] r[j]) == replacement || refreshed_from(r[j], old, fresh, removed, old.len() as int)
}

/// Builds the successor roster of a one-for-one replacement: each kept
/// guardian keeps its identity under a fresh slot and mailbox, the
/// replacement joins, and the roster is ordered by guardian index.
pub fn successor_roster(
    descriptor: &RecoveryDescriptorV3,
    removed: u16,
    fresh: &Vec<FreshRoute>,
    replacement: GuardianRouteV3,
) -> (r: Vec<GuardianRouteV3>)
    requires
        fresh@.len() == descriptor.guardians@.len(),
    ensures
        successor_roster_ok(r@, descriptor.guardians@, fresh@, removed, replacement),
{
    broadcast use vstd::seq_lib::group_to_multiset_ensures;

    let routes = &descriptor.guardians;
    let ghost old = routes@;
    let mut kept: Vec<GuardianRouteV3> = Vec::new();
    let mut i: usize = 0;
    while i < routes.len()
        invariant
            i <= routes@.len(),
            routes@ == old,
            fresh@.len() == old.len(),
            kept@.len() == helpers_of(old.subrange(0, i as int), removed).len(),
            forall|k: int|
                0 <= k < i && (#[trigger] old[k]).guardian_index != removed ==> exists|j: int|
                    0 <= j < kept@.len() && refreshed_route(#[trigger] kept@[j], old[k], fresh@[k]),
            forall|j: int| 0 <= j < kept@.len() ==> refreshed_from(#[trigger] kept@[j], old, fresh@, removed, i as int),
        decreases routes.len() - i,
    {
        proof {
            assert(old.subrange(0, i + 1).drop_last() =~= old.subrange(0, i as int));
        }
        let route = &routes[i];
        if route.guardian_index != removed {
            let ghost before = kept@;
            let session_recipient_key = route.session_recipient_key.clone();
            proof {
                assert(session_recipient_key@ =~= route.session_recipient_key@);
            }
            kept.push(
                GuardianRouteV3 {
                    guardian_index: route.guardian_index,
                    guardian_public_key: route.guardian_public_key,
                    session_recipient_key,
                    operator_domain_commitment: route.operator_domain_commitment,
                    opaque_slot_id: fresh[i].opaque_slot_id,
                    mailbox: fresh[i].mailbox.clone(),
                    index_digest: route.index_digest,
                },
            );
            proof {
                let n = kept@.len() - 1;
                assert(refreshed_route(kept@[n], old[i as int], fresh@[i as int]));
                assert forall|k: int|
                    0 <= k < i + 1 && (#[trigger] old[k]).guardian_index != removed implies exists|j: int|
                        0 <= j < kept@.len() && refreshed_route(#[trigger] kept@[j], old[k], fresh@[k]) by {
                    if k < i {
                        let j = choose|j: int| 0 <= j < before.len() && refreshed_route(#[trigger] before[j], old[k], fresh@[k]);
                        assert(kept@[j] == before[j]);
                    } else {
                        assert(refreshed_route(kept@[n], old[k], fresh@[k]));
                    }
                }
                assert forall|j: int| 0 <= j < kept@.len() implies refreshed_from(
                    #[trigger] kept@[j],
                    old,
                    fresh@,
                    removed,
                    i + 1,
                ) by {
                    if j < before.len() {
                        assert(kept@[j] == before[j]);
                        assert(refreshed_from(before[j], old, fresh@, removed, i as int));
                        let k = choose|k: int|
                            0 <= k < i && (#[trigger] old[k]).guardian_index != removed && refreshed_route(
                                before[j],
                                old[k],
                                fresh@[k],
                            );
                        assert(0 <= k < i + 1);
                    } else {
                        assert(old[i as int].guardian_index != removed && refreshed_route(
                            kept@[j],
                            old[i as int],
                            fresh@[i as int],
                        ));
                    }
                }
            }
        } else {
            proof {
                assert forall|j: int| 0 <= j < kept@.len() implies refreshed_from(
                    #[trigger] kept@[j],
                    old,
                    fresh@,
                    removed,
                    i + 1,
                ) by {
                    assert(refreshed_from(kept@[j], old, fresh@, removed, i as int));
                    let k = choose|k: int|
                        0 <= k < i && (#[trigger] old[k]).guardian_index != removed && refreshed_route(
                            kept@[j],
                            old[k],
                            fresh@[k],
                        );
                    assert(0 <= k < i + 1);
                }
            }
        }
        i = i + 1;
    }
    proof {
        assert(old.subrange(0, old.len() as int) =~= old);
    }
    let ghost kept_view = kept@;
    kept.push(replacement);
    let ghost unsorted = kept@;
    let sorted = sort_routes_by_index(kept);
    proof {
        let r = sorted@;
        assert(unsorted.len() == kept_view.len() + 1);
        assert forall|x: GuardianRouteV3| r.contains(x) <==> unsorted.contains(x) by {
            vstd::seq_lib::to_multiset_contains(r, x);
            vstd::seq_lib::to_multiset_contains(unsorted, x);
        }
        assert(unsorted.contains(replacement)) by {
            assert(unsorted[unsorted.len() - 1] == replacement);
        }
        assert forall|k: int|
            0 <= k < old.len() && (#[trigger] old[k]).guardian_index != removed implies exists|j: int|
                0 <= j < r.len() && refreshed_route(#[trigger] r[j], old[k], fresh@[k]) by {
            let j = choose|j: int| 0 <= j < kept_view.len() && refreshed_route(#[trigger] kept_view[j], old[k], fresh@[k]);
            assert(unsorted[j] == kept_view[j]);
            assert(unsorted.contains(kept_view[j]));
            assert(r.contains(kept_view[j]));
            let q = choose|q: int| 0 <= q < r.len() && r[q] == kept_view[j];
            assert(refreshed_route(r[q], old[k], fresh@[k]));
        }
        assert forall|j: int| 0 <= j < r.len() implies (#[trigger] r[j]) == replacement || refreshed_from(
            r[j],
            old,
            fresh@,
            removed,
            old.len() as int,
        ) by {
            assert(r.contains(r[j]));
            assert(unsorted.contains(r[j]));
            let q = choose|q: int| 0 <= q < unsorted.len() && unsorted[q] == r[j];
            if q < kept_view.len() {
                assert(unsorted[q] == kept_view[q]);
                assert(refreshed_from(kept_view[q], old, fresh@, removed, old.len() as int));
            }
        }
    }
    sorted
}

/// How long before the context expires preparation must end, in seconds.
pub const PREPARATION_MARGIN_SECS: u64 = 600;

/// Dropping every route but those of `removed` shortens a roster of
/// distinct guardians that names `removed` by exactly one.
proof fn lemma_helpers_len(routes: Seq<GuardianRouteV3>, removed: u16)
    requires
        crate::descriptor::guardian_indices_distinct(routes),
        in_roster(routes, removed),
    ensures
        helpers_of(routes, removed).len() + 1 == routes.len(),
    decreases routes.len(),
{
    let rest = routes.drop_last();
    lemma_helpers_of(rest, removed);
    if routes.last().guardian_index == removed {
        assert(!in_roster(rest, removed)) by {
            if in_roster(rest, removed) {
                let k = choose|k: int| 0 <= k < rest.len() && (#[trigger] rest[k]).guardian_index == removed;
                assert(routes[k] == rest[k]);
                assert(routes[k].guardian_index != routes[routes.len() - 1].guardian_index);
            }
        }
        lemma_no_removed_keeps_all(rest, removed);
    } else {
        let k = choose|k: int| 0 <= k < routes.len() && (#[trigger] routes[k]).guardian_index == removed;
        assert(k < routes.len() - 1);
        assert(rest[k] == routes[k]);
        assert(crate::descriptor::guardian_indices_distinct(rest)) by {
            assert forall|i: int, j: int| 0 <= i < j < rest.len() implies (#[trigger] rest[i]).guardian_index
                != (#[trigger] rest[j]).guardian_index by {
                assert(rest[i] == routes[i] && rest[j] == routes[j]);
            }
        }
        lemma_helpers_len(rest, removed);
    }
}

/// A roster that does not name `removed` keeps every route.
proof fn lemma_no_removed_keeps_all(routes: Seq<GuardianRouteV3>, removed: u16)
    requires
        !in_roster(routes, removed),
    ensures
        helpers_of(routes, removed).len() == routes.len(),
    decreases routes.len(),
{
    if routes.len() > 0 {
        let rest = routes.drop_last();
        assert(!in_roster(rest, removed)) by {
            if in_roster(rest, removed) {
                let k = choose|k: int| 0 <= k < rest.len() && (#[trigger] rest[k]).guardian_index == removed;
                assert(routes[k] == rest[k]);
            }
        }
        assert(routes[routes.len() - 1].guardian_index != removed);
        lemma_no_removed_keeps_all(rest, removed);
    }
}

/// The plan the coordinator proposes for a one-for-one replacement.
pub open spec fn assembled_plan(
    plan: RotationPlan,
    context: RotationContext,
    predecessor: ConfigCapsuleV3,
    old_roster: Seq<GuardianRouteV3>,
    new_roster: Seq<GuardianRouteV3>,
    data_shards: u16,
    successor_epoch_binding: Id32,
    intent_hash: Id32,
    old_roster_digest: Id32,
    new_roster_digest: Id32,
    dpss_session_id: Id32,
) -> bool {
    &&& plan.context == context
    &&& plan.predecessor == predecessor.config_ref
    &&& plan.successor == crate::model::ConfigRef {
        guardian_epoch: saturating_add(predecessor.config_ref.guardian_epoch, 1) as u64,
        epoch_binding: successor_epoch_binding,
        ..predecessor.config_ref
    }
    &&& plan.intent_hash == intent_hash
    &&& plan.old_roster@ == old_roster
    &&& plan.new_roster@ == new_roster
    &&& plan.old_roster_commitment == old_roster_digest
    &&& plan.old_roster_digest == old_roster_digest
    &&& plan.new_roster_commitment == new_roster_digest
    &&& plan.new_roster_digest == new_roster_digest
    &&& plan.dpss_qualified_set_commitment == new_roster_digest
    &&& plan.dpss_session_id == dpss_session_id
    &&& plan.old_guardian_threshold == predecessor.guardian_threshold
    &&& plan.new_guardian_threshold == predecessor.guardian_threshold
    &&& plan.data_shards == data_shards
    &&& plan.total_shards == new_roster.len()
    &&& plan.dpss_suite == predecessor.dpss_suite
    &&& plan.minimum_delay_secs == predecessor.minimum_recovery_delay
    &&& plan.drain_deadline == context.expiry
    &&& plan.preparation_deadline == if context.expiry >= PREPARATION_MARGIN_SECS {
        (context.expiry - PREPARATION_MARGIN_SECS) as u64
    } else {
        0u64
    }
}

/// Assembles the rotation plan from the context, the active epoch and the
/// two rosters. The roster digests are the SHA-256 of each roster's
/// canonical encoding; `transcript_hash` and `canonical` describe the
/// plan's own canonical transcript.
pub fn assemble_rotation_plan(
    context: RotationContext,
    predecessor: &ConfigCapsuleV3,
    old_roster: Vec<GuardianRouteV3>,
    new_roster: Vec<GuardianRouteV3>,
    data_shards: u16,
    successor_epoch_binding: Id32,
    intent_hash: Id32,
    old_roster_digest: Id32,
    new_roster_digest: Id32,
    dpss_session_id: Id32,
    transcript_hash: Id32,
    canonical: bool,
) -> (r: Option<RotationPlan>)
    ensures
        match r {
            Some(plan) => new_roster@.len() <= u16::MAX && assembled_plan(
                plan,
                context,
                *predecessor,
                old_roster@,
                new_roster@,
                data_shards,
                successor_epoch_binding,
                intent_hash,
                old_roster_digest,
                new_roster_digest,
                dpss_session_id,
            ) && plan.transcript_hash == transcript_hash && plan.canonical == canonical,
            None => new_roster@.len() > u16::MAX,
        },
{
    if new_roster.len() > 65535 {
        return None;
    }
    let total_shards = new_roster.len() as u16;
    let expiry = context.expiry;
    let successor = crate::model::ConfigRef {
        guardian_epoch: predecessor.config_ref.guardian_epoch.saturating_add(1),
        epoch_binding: successor_epoch_binding,
        ..predecessor.config_ref
    };
    Some(
        RotationPlan {
            context,
            predecessor: predecessor.config_ref,
            successor,
            intent_hash,
            preparation_deadline: expiry.saturating_sub(PREPARATION_MARGIN_SECS),
            drain_deadline: expiry,
            minimum_delay_secs: predecessor.minimum_recovery_delay,
            old_guardian_threshold: predecessor.guardian_threshold,
            data_shards,
            total_shards,
            old_roster,
            new_roster,
            new_guardian_threshold: predecessor.guardian_threshold,
            old_roster_commitment: old_roster_digest,
            new_roster_commitment: new_roster_digest,
            dpss_suite: predecessor.dpss_suite,
            dpss_qualified_set_commitment: new_roster_digest,
            dpss_session_id,
            old_roster_digest,
            new_roster_digest,
            transcript_hash,
            canonical,
        },
    )
}

/// The plan the coordinator assembles is one guardians and signers accept
/// as a plan: for a context issued at `issued_at` for the active epoch, the
/// descriptor the witness-authenticated capsule vouches for, a successor
/// roster that replaces one guardian of that descriptor, and a canonical
/// transcript, `validate_rotation_plan_v3` accepts the plan at any time
/// from issue until the context expires.
pub proof fn lemma_assembled_plan_is_valid(
    plan: RotationPlan,
    predecessor: ConfigCapsuleV3,
    descriptor: RecoveryDescriptorV3,
    fresh: Seq<FreshRoute>,
    removed: u16,
    replacement: GuardianRouteV3,
    rotation_id: Id32,
    recipient_key: Seq<u8>,
    nonce: Id32,
    issued_at: u64,
    successor_epoch_binding: Id32,
    intent_hash: Id32,
    old_roster_digest: Id32,
    new_roster_digest: Id32,
    dpss_session_id: Id32,
    now: u64,
)
    requires
        rotation_context_for(plan.context, predecessor, rotation_id, recipient_key, nonce, issued_at),
        crate::descriptor::descriptor_outcome(descriptor, predecessor) is Ok,
        crate::descriptor::guardian_indices_distinct(descriptor.guardians@),
        in_roster(descriptor.guardians@, removed),
        successor_roster_ok(plan.new_roster@, descriptor.guardians@, fresh, removed, replacement),
        assembled_plan(
            plan,
            plan.context,
            predecessor,
            descriptor.guardians@,
            plan.new_roster@,
            descriptor.data_shards,
            successor_epoch_binding,
            intent_hash,
            old_roster_digest,
            new_roster_digest,
            dpss_session_id,
        ),
        plan.canonical,
        predecessor.protocol_version == PROTOCOL_VERSION_V3,
        2 <= predecessor.guardian_threshold <= predecessor.guardian_count,
        predecessor.config_ref.guardian_epoch < u64::MAX,
        issued_at + predecessor.minimum_recovery_delay + ROTATION_CONTEXT_SLACK_SECS <= u64::MAX,
        issued_at <= now < plan.context.expiry,
    ensures
        crate::rotation::plan_outcome(plan, predecessor, now) == Ok::<Id32, crate::rotation::RotationError>(
            plan.transcript_hash,
        ),
{
    lemma_helpers_len(descriptor.guardians@, removed);
}

} // verus!
