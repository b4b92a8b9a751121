//! The relay's route table: opaque mailboxes registered once, each to a
//! target node and its transport key, and the forwarding URLs built from
//! them.
use vstd::prelude::*;
use vstd::string::StringExecFns;
use vstd::utf8::encode_utf8;

use crate::model::XWING_PUBLIC_KEY_LEN;
use crate::text::{str_chars, trim_end_slashes, trim_slashes, utf8_len_at_least};
use crate::witness::ProvisionAck;

verus! {

/// A node's request to be reachable through an opaque mailbox.
#[derive(Clone, Debug)]
pub struct RouteRegistration {
    pub mailbox: String,
    pub target_url: String,
    pub transport_public_key: Vec<u8>,
}

/// Where a mailbox leads.
#[derive(Clone, Debug)]
pub struct RouteRecord {
    pub target_url: String,
    pub transport_public_key: Vec<u8>,
}

/// One registered mailbox.
#[derive(Clone, Debug)]
pub struct RelayRoute {
    pub mailbox: String,
    pub record: RouteRecord,
}

/// The relay's registered routes.
#[derive(Clone, Debug)]
pub struct RelayDisk {
    pub routes: Vec<RelayRoute>,
}

/// Why the relay refused a request.
#[derive(Debug, Clone, Copy, PartialEq, Eq)]
pub enum RelayError {
    /// The mailbox is shorter than 32 bytes, the target is empty, or the
    /// transport key is not an X-Wing key.
    InvalidRegistration,
    /// The mailbox is already registered.
    AlreadyRegistered,
    /// No route is registered for the mailbox.
    UnknownMailbox,
}

/// Which node endpoint a sealed message is forwarded to.
#[derive(Debug, Clone, Copy, PartialEq, Eq)]
pub enum ForwardPath {
    /// A protocol-v2 mailbox.
    V1Mailbox,
    /// A protocol-v3 mailbox.
    V3Mailbox,
    /// A protocol-v3 recovery mailbox.
    V3Recovery,
}

/// Mailboxes are registered once.
pub open spec fn relay_wf(d: RelayDisk) -> bool {
    forall|i: int, j: int|
        0 <= i < j < d.routes@.len() ==> (#[trigger] d.routes@[i]).mailbox@ != (
        #[trigger] d.routes@[j]).mailbox@
}

/// Some route is registered for `mailbox`.
pub open spec fn has_route(d: RelayDisk, mailbox: Seq<char>) -> bool {
    exists|i: int| 0 <= i < d.routes@.len() && (#[trigger] d.routes@[i]).mailbox@ == mailbox
}

/// The route registered for `mailbox`.
pub open spec fn route_for(d: RelayDisk, mailbox: Seq<char>) -> RouteRecord {
    d.routes@[choose|i: int| 0 <= i < d.routes@.len() && (#[trigger] d.routes@[i]).mailbox@ == mailbox].record
}

/// The registration is acceptable.
pub open spec fn registration_valid(r: RouteRegistration) -> bool {
    &&& encode_utf8(r.mailbox@).len() >= 32
    &&& r.target_url@.len() > 0
    &&& r.transport_public_key@.len() == XWING_PUBLIC_KEY_LEN
}

/// Position of the route for `mailbox`, if any.
fn find_route(d: &RelayDisk, mailbox: &str) -> (r: Option<usize>)
    ensures
        match r {
            Some(i) => i < d.routes@.len() && d.routes@[i as int].mailbox@ == mailbox@,
            None => !has_route(*d, mailbox@),
        },
{
    let key = mailbox.to_owned();
    let mut i: usize = 0;
    while i < d.routes.len()
        invariant
            i <= d.routes@.len(),
            key@ == mailbox@,
            forall|k: int| 0 <= k < i ==> (#[trigger] d.routes@[k]).mailbox@ != mailbox@,
        decreases d.routes.len() - i,
    {
        if d.routes[i].mailbox == key {
            return Some(i);
        }
        i = i + 1;
    }
    None
}

proof fn lemma_route_for(d: RelayDisk, mailbox: Seq<char>, i: int)
    requires
        relay_wf(d),
        0 <= i < d.routes@.len(),
        d.routes@[i].mailbox@ == mailbox,
    ensures
        has_route(d, mailbox),
        route_for(d, mailbox) == d.routes@[i].record,
{
    let s = d.routes@;
    assert(s[i].mailbox@ == mailbox);
    let p = choose|p: int| 0 <= p < s.len() && (#[trigger] s[p]).mailbox@ == mailbox;
    if p < i {
        assert(s[p].mailbox@ != s[i].mailbox@);
    } else if p > i {
        assert(s[i].mailbox@ != s[p].mailbox@);
    }
}

/// Registers an opaque mailbox once, to a target URL (without trailing
/// slashes) and an X-Wing transport key.
pub fn relay_register(disk: &mut RelayDisk, registration: RouteRegistration) -> (r: Result<
    ProvisionAck,
    RelayError,
>)
    requires
        relay_wf(*old(disk)),
    ensures
        relay_wf(*final(disk)),
        if !registration_valid(registration) {
            r == Err::<ProvisionAck, RelayError>(RelayError::InvalidRegistration) && *final(disk)
                == *old(disk)
        } else if has_route(*old(disk), registration.mailbox@) {
            r == Err::<ProvisionAck, RelayError>(RelayError::AlreadyRegistered) && *final(disk)
                == *old(disk)
        } else {
            &&& r matches Ok(ack) && ack.stored && ack.mailbox@ == registration.mailbox@
            &&& final(disk).routes@.len() == old(disk).routes@.len() + 1
            &&& final(disk).routes@.drop_last() == old(disk).routes@
            &&& final(disk).routes@.last().mailbox@ == registration.mailbox@
            &&& final(disk).routes@.last().record.target_url@ == trim_slashes(registration.target_url@)
            &&& final(disk).routes@.last().record.transport_public_key@
                == registration.transport_public_key@
        },
{
    let chars = str_chars(registration.mailbox.as_str());
    proof {
        assert(chars@.subrange(0, chars@.len() as int) =~= chars@);
    }
    let target_chars = str_chars(registration.target_url.as_str());
    if !utf8_len_at_least(&chars, 0, chars.len(), 32) || target_chars.len() == 0
        || registration.transport_public_key.len() != XWING_PUBLIC_KEY_LEN {
        return Err(RelayError::InvalidRegistration);
    }
    if find_route(disk, registration.mailbox.as_str()).is_some() {
        return Err(RelayError::AlreadyRegistered);
    }
    let target_url = trim_end_slashes(registration.target_url.as_str());
    let mailbox = registration.mailbox.clone();
    let ghost before = disk.routes@;
    disk.routes.push(
        RelayRoute {
            mailbox: registration.mailbox,
            record: RouteRecord { target_url, transport_public_key: registration.transport_public_key },
        },
    );
    proof {
        assert forall|i: int, j: int|
            0 <= i < j < disk.routes@.len() implies (#[trigger] disk.routes@[i]).mailbox@ != (
            #[trigger] disk.routes@[j]).mailbox@ by {
            assert(disk.routes@[i] == before[i]);
            if j < before.len() {
                assert(disk.routes@[j] == before[j]);
            }
        }
    }
    Ok(ProvisionAck { mailbox, stored: true })
}

/// The transport key registered for a mailbox.
pub fn relay_key(disk: &RelayDisk, mailbox: &str) -> (r: Result<Vec<u8>, RelayError>)
    requires
        relay_wf(*disk),
    ensures
        if has_route(*disk, mailbox@) {
            r matches Ok(key) && key@ == route_for(*disk, mailbox@).transport_public_key@
        } else {
            r == Err::<Vec<u8>, RelayError>(RelayError::UnknownMailbox)
        },
{
    match find_route(disk, mailbox) {
        Some(i) => {
            proof {
                lemma_route_for(*disk, mailbox@, i as int);
            }
            Ok(disk.routes[i].record.transport_public_key.clone())
        },
        None => Err(RelayError::UnknownMailbox),
    }
}

/// The endpoint path a sealed message is forwarded to.
pub open spec fn forward_path_text(path: ForwardPath) -> Seq<char> {
    match path {
        ForwardPath::V1Mailbox => "/v1/mailbox/"@,
        ForwardPath::V3Mailbox => "/v3/mailbox/"@,
        ForwardPath::V3Recovery => "/v3/recovery/"@,
    }
}

/// The URL a sealed message for `mailbox` is forwarded to.
pub fn relay_forward_url(disk: &RelayDisk, mailbox: &str, path: ForwardPath) -> (r: Result<
    String,
    RelayError,
>)
    requires
        relay_wf(*disk),
    ensures
        if has_route(*disk, mailbox@) {
            r matches Ok(url) && url@ == route_for(*disk, mailbox@).target_url@ + forward_path_text(path)
                + mailbox@
        } else {
            r == Err::<String, RelayError>(RelayError::UnknownMailbox)
        },
        has_route(*disk, mailbox@) && path == ForwardPath::V1Mailbox ==> r is Ok && r->Ok_0@
            == route_for(*disk, mailbox@).target_url@ + "/v1/mailbox/"@ + mailbox@,
        has_route(*disk, mailbox@) && path == ForwardPath::V3Mailbox ==> r is Ok && r->Ok_0@
            == route_for(*disk, mailbox@).target_url@ + "/v3/mailbox/"@ + mailbox@,
        has_route(*disk, mailbox@) && path == ForwardPath::V3Recovery ==> r is Ok && r->Ok_0@
            == route_for(*disk, mailbox@).target_url@ + "/v3/recovery/"@ + mailbox@,
{
    let i = match find_route(disk, mailbox) {
        Some(i) => i,
        None => return Err(RelayError::UnknownMailbox),
    };
    proof {
        lemma_route_for(*disk, mailbox@, i as int);
    }
    let mut url = disk.routes[i].record.target_url.clone();
    let segment = match path {
        ForwardPath::V1Mailbox => "/v1/mailbox/",
        ForwardPath::V3Mailbox => "/v3/mailbox/",
        ForwardPath::V3Recovery => "/v3/recovery/",
    };
    url.append(segment);
    url.append(mailbox);
    Ok(url)
}

/// Each forward path names its own endpoint: the protocol-v2 mailbox
/// `/v1/mailbox/`, the protocol-v3 rotation mailbox `/v3/mailbox/` and the
/// protocol-v3 recovery mailbox `/v3/recovery/`; so for one route and one
/// mailbox, two different paths never give the same URL.
pub proof fn lemma_forward_paths_are_distinct(target: Seq<char>, mailbox: Seq<char>, p: ForwardPath, q: ForwardPath)
    requires
        p != q,
    ensures
        forward_path_text(ForwardPath::V1Mailbox) == "/v1/mailbox/"@,
        forward_path_text(ForwardPath::V3Mailbox) == "/v3/mailbox/"@,
        forward_path_text(ForwardPath::V3Recovery) == "/v3/recovery/"@,
        target + forward_path_text(p) + mailbox != target + forward_path_text(q) + mailbox,
{
    reveal_strlit("/v1/mailbox/");
    reveal_strlit("/v3/mailbox/");
    reveal_strlit("/v3/recovery/");
    let a = target + forward_path_text(p) + mailbox;
    let b = target + forward_path_text(q) + mailbox;
    let tp = forward_path_text(p);
    let tq = forward_path_text(q);
    if a == b {
        if tp.len() == tq.len() {
            assert(tp =~= a.subrange(target.len() as int, (target.len() + tp.len()) as int));
            assert(tq =~= b.subrange(target.len() as int, (target.len() + tq.len()) as int));
            assert(tp[2] != tq[2] || tp[4] != tq[4]);
        } else {
            assert(a.len() != b.len());
        }
    }
}

/// A registration is read back exactly: once a mailbox is registered, its
/// key and forwarding target are the registered ones, and a second
/// registration of the same mailbox is refused.
pub proof fn lemma_registered_route_reads_back(
    before: RelayDisk,
    after: RelayDisk,
    registration: RouteRegistration,
)
    requires
        relay_wf(before),
        relay_wf(after),
        registration_valid(registration),
        !has_route(before, registration.mailbox@),
        after.routes@.len() == before.routes@.len() + 1,
        after.routes@.drop_last() == before.routes@,
        after.routes@.last().mailbox@ == registration.mailbox@,
        after.routes@.last().record.target_url@ == trim_slashes(registration.target_url@),
        after.routes@.last().record.transport_public_key@ == registration.transport_public_key@,
    ensures
        has_route(after, registration.mailbox@),
        route_for(after, registration.mailbox@).transport_public_key@ == registration.transport_public_key@,
        route_for(after, registration.mailbox@).target_url@ == trim_slashes(registration.target_url@),
        forall|m: Seq<char>|
            #![trigger has_route(before, m)]
            has_route(before, m) ==> has_route(after, m) && route_for(after, m) == route_for(before, m),
{
    lemma_route_for(after, registration.mailbox@, before.routes@.len() as int);
    assert forall|m: Seq<char>|
        #![trigger has_route(before, m)]
        has_route(before, m) implies has_route(after, m) && route_for(after, m) == route_for(before, m) by {
        let i = choose|i: int| 0 <= i < before.routes@.len() && (#[trigger] before.routes@[i]).mailbox@ == m;
        assert(after.routes@[i] == after.routes@.drop_last()[i]);
        lemma_route_for(before, m, i);
        lemma_route_for(after, m, i);
    }
}

} // verus!
