//! Opaque mailbox identifiers, relay URLs and hexadecimal encoding.
use vstd::prelude::*;
use vstd::string::StringExecFns;
use vstd::utf8::encode_utf8;

use crate::bytes::{random_id, Id32, RandomError};

verus! {

/// Lower-case hexadecimal digit for a nibble.
pub open spec fn hex_digit(n: int) -> char {
    if n < 10 {
        (48 + n) as char
    } else {
        (87 + n) as char
    }
}

/// Lower-case hexadecimal text of `bytes`, high nibble first.
pub open spec fn hex_lower(bytes: Seq<u8>) -> Seq<char>
    decreases bytes.len(),
{
    if bytes.len() == 0 {
        Seq::empty()
    } else {
        seq![hex_digit((bytes[0] / 16) as int), hex_digit((bytes[0] % 16) as int)] + hex_lower(bytes.drop_first())
    }
}

/// `s` without its trailing `/` characters (`str::trim_end_matches('/')`).
pub open spec fn trim_slashes(s: Seq<char>) -> Seq<char>
    decreases s.len(),
{
    if s.len() > 0 && s.last() == '/' {
        trim_slashes(s.drop_last())
    } else {
        s
    }
}

/// The text after the last `/` of `s`, or all of `s` when it has none
/// (the first item of `str::rsplit('/')`).
pub open spec fn last_segment(s: Seq<char>) -> Seq<char>
    decreases s.len(),
{
    if s.len() == 0 {
        s
    } else if s.last() == '/' {
        Seq::empty()
    } else {
        last_segment(s.drop_last()).push(s.last())
    }
}

/// The opaque mailbox id of a mailbox URL: its last path segment, accepted
/// only when it is at least 32 bytes long.
pub open spec fn mailbox_id_of(url: Seq<char>) -> Option<Seq<char>> {
    let segment = last_segment(trim_slashes(url));
    if encode_utf8(segment).len() >= 32 {
        Some(segment)
    } else {
        None
    }
}

/// Error for a mailbox URL without an opaque id.
#[derive(Debug, Clone, Copy, PartialEq, Eq)]
pub enum MailboxError {
    InvalidMailboxUrl,
}

/// Appends one character to a string (`String::push`).
#[verifier::external_body]
fn push_char(s: &mut String, c: char)
    ensures
        final(s)@ == old(s)@.push(c),
{
    s.push(c);
}

/// Lower-case hexadecimal encoding (`hex::encode`).
#[verifier::external_body]
pub(crate) fn hex_encode(bytes: &[u8]) -> (s: String)
    ensures
        s@ == hex_lower(bytes@),
{
    hex::encode(bytes)
}

/// The characters of `s`.
pub fn str_chars(s: &str) -> (v: Vec<char>)
    ensures
        v@ == s@,
{
    let mut v: Vec<char> = Vec::new();
    for c in it: s.chars()
        invariant
            it.seq() == s@,
            v@ == s@.take(it.index() as int),
    {
        v.push(c);
        assert(v@ =~= s@.take(it.index() + 1));
    }
    assert(v@ =~= s@);
    v
}

/// The string made of `v[lo..hi]`.
pub fn string_of_range(v: &Vec<char>, lo: usize, hi: usize) -> (s: String)
    requires
        lo <= hi <= v@.len(),
    ensures
        s@ == v@.subrange(lo as int, hi as int),
{
    let mut s = String::new();
    let mut i = lo;
    while i < hi
        invariant
            lo <= i <= hi <= v@.len(),
            s@ == v@.subrange(lo as int, i as int),
        decreases hi - i,
    {
        push_char(&mut s, v[i]);
        assert(v@.subrange(lo as int, i + 1) =~= v@.subrange(lo as int, i as int).push(v@[i as int]));
        i = i + 1;
    }
    s
}

/// Length of `v` once trailing `/` characters are removed.
fn trimmed_len(v: &Vec<char>) -> (end: usize)
    ensures
        end <= v@.len(),
        v@.subrange(0, end as int) == trim_slashes(v@),
{
    let mut end = v.len();
    assert(v@.subrange(0, end as int) =~= v@);
    while end > 0 && v[end - 1] == '/'
        invariant
            end <= v@.len(),
            trim_slashes(v@.subrange(0, end as int)) == trim_slashes(v@),
        decreases end,
    {
        assert(v@.subrange(0, end as int).drop_last() =~= v@.subrange(0, end - 1));
        end = end - 1;
    }
    end
}

/// Number of bytes in the UTF-8 encoding of `c`.
fn utf8_width(c: char) -> (w: usize)
    ensures
        w == vstd::utf8::encode_scalar(c as u32).len(),
        1 <= w <= 4,
{
    proof {
        vstd::utf8::char_is_scalar(c);
    }
    let u = c as u32;
    if u <= 0x7F {
        1
    } else if u <= 0x7FF {
        2
    } else if u <= 0xFFFF {
        3
    } else {
        4
    }
}

/// Whether `v[lo..hi]` takes at least `k` bytes in UTF-8.
pub(crate) fn utf8_len_at_least(v: &Vec<char>, lo: usize, hi: usize, k: usize) -> (r: bool)
    requires
        lo <= hi <= v@.len(),
        k <= 1024,
    ensures
        r == (encode_utf8(v@.subrange(lo as int, hi as int)).len() >= k),
{
    let ghost whole = v@.subrange(lo as int, hi as int);
    let mut total: usize = 0;
    let mut i = lo;
    assert(v@.subrange(i as int, hi as int) =~= whole);
    while i < hi && total < k
        invariant
            lo <= i <= hi <= v@.len(),
            whole == v@.subrange(lo as int, hi as int),
            total < k + 4,
            k <= 1024,
            encode_utf8(whole).len() == total + encode_utf8(v@.subrange(i as int, hi as int)).len(),
        decreases hi - i,
    {
        let ghost rest = v@.subrange(i as int, hi as int);
        assert(rest.drop_first() =~= v@.subrange(i + 1, hi as int));
        assert(rest[0] == v@[i as int]);
        let w = utf8_width(v[i]);
        total = total + w;
        i = i + 1;
    }
    if total >= k {
        true
    } else {
        assert(v@.subrange(i as int, hi as int) =~= Seq::<char>::empty());
        false
    }
}

/// `str::trim_end_matches('/')`.
pub fn trim_end_slashes(s: &str) -> (r: String)
    ensures
        r@ == trim_slashes(s@),
{
    let v = str_chars(s);
    let end = trimmed_len(&v);
    string_of_range(&v, 0, end)
}

/// Extracts the opaque mailbox id from a mailbox URL.
pub fn mailbox_id(mailbox_url: &str) -> (r: Result<String, MailboxError>)
    ensures
        match mailbox_id_of(mailbox_url@) {
            Some(id) => r matches Ok(s) && s@ == id,
            None => r is Err,
        },
{
    let v = str_chars(mailbox_url);
    let end = trimmed_len(&v);
    let ghost trimmed = v@.subrange(0, end as int);
    let mut start = end;
    assert(v@.subrange(start as int, end as int) =~= Seq::<char>::empty());
    assert(last_segment(trimmed) =~= last_segment(v@.subrange(0, start as int)) + v@.subrange(start as int, end as int));
    while start > 0 && v[start - 1] != '/'
        invariant
            start <= end <= v@.len(),
            trimmed == v@.subrange(0, end as int),
            last_segment(trimmed) == last_segment(v@.subrange(0, start as int)) + v@.subrange(start as int, end as int),
        decreases start,
    {
        let ghost prefix = v@.subrange(0, start as int);
        assert(prefix.drop_last() =~= v@.subrange(0, start - 1));
        assert(v@.subrange(start - 1, end as int) =~= seq![v@[start - 1]] + v@.subrange(start as int, end as int));
        assert(last_segment(prefix) == last_segment(v@.subrange(0, start - 1)).push(v@[start - 1]));
        assert(last_segment(prefix) + v@.subrange(start as int, end as int)
            =~= last_segment(v@.subrange(0, start - 1)) + v@.subrange(start - 1, end as int));
        start = start - 1;
    }
    assert(last_segment(v@.subrange(0, start as int)) =~= Seq::<char>::empty());
    assert(last_segment(trimmed) =~= v@.subrange(start as int, end as int));
    let segment = string_of_range(&v, start, end);
    if utf8_len_at_least(&v, start, end, 32) {
        Ok(segment)
    } else {
        Err(MailboxError::InvalidMailboxUrl)
    }
}

/// Bytes in the UTF-8 encoding of the first `k` characters of `s`.
pub open spec fn utf8_prefix_len(s: Seq<char>, k: int) -> int {
    encode_utf8(s.take(k)).len() as int
}

/// The first ten bytes of `id` end on a character boundary.
pub open spec fn ten_byte_boundary(id: Seq<char>) -> bool {
    exists|k: int| 0 <= k <= id.len() && #[trigger] utf8_prefix_len(id, k) == 10
}

/// The short display form of a mailbox URL: the first ten bytes of its
/// opaque id followed by `…`, or `invalid` for a URL without one.
pub open spec fn short_mailbox_is(url: Seq<char>, r: Seq<char>) -> bool {
    match mailbox_id_of(url) {
        Some(id) => exists|k: int|
            0 <= k <= id.len() && #[trigger] utf8_prefix_len(id, k) == 10 && r == id.take(k).push('…'),
        None => r == "invalid"@,
    }
}

/// One more character adds its UTF-8 width to a prefix, and that width is
/// at least one byte.
proof fn lemma_utf8_prefix_step(s: Seq<char>, i: int)
    requires
        0 <= i < s.len(),
    ensures
        utf8_prefix_len(s, i + 1) == utf8_prefix_len(s, i) + vstd::utf8::encode_scalar(s[i] as u32).len(),
        vstd::utf8::encode_scalar(s[i] as u32).len() >= 1,
    decreases i,
{
    lemma_utf8_len_at_least_chars(seq![s[i]]);
    assert(seq![s[i]].drop_first() =~= Seq::<char>::empty());
    if i == 0 {
        assert(s.take(1) =~= seq![s[0]]);
        assert(s.take(0) =~= Seq::<char>::empty());
    } else {
        let t = s.drop_first();
        lemma_utf8_prefix_step(t, i - 1);
        assert(s.take(i + 1).drop_first() =~= t.take(i));
        assert(s.take(i).drop_first() =~= t.take(i - 1));
        assert(t[i - 1] == s[i]);
    }
}

/// Longer prefixes take strictly more bytes.
proof fn lemma_utf8_prefix_increasing(s: Seq<char>, i: int, j: int)
    requires
        0 <= i < j <= s.len(),
    ensures
        utf8_prefix_len(s, i) < utf8_prefix_len(s, j),
    decreases j - i,
{
    lemma_utf8_prefix_step(s, j - 1);
    if i < j - 1 {
        lemma_utf8_prefix_increasing(s, i, j - 1);
    }
}

/// The short display form of a mailbox: the first ten bytes of its opaque
/// id followed by `…`, or `invalid` where the URL has no opaque id. An id
/// whose tenth byte falls inside a character has no such form.
pub fn short_mailbox(mailbox: &str) -> (r: String)
    requires
        mailbox_id_of(mailbox@) matches Some(id) ==> ten_byte_boundary(id),
    ensures
        short_mailbox_is(mailbox@, r@),
{
    match mailbox_id(mailbox) {
        Ok(id) => {
            let v = str_chars(id.as_str());
            let ghost k = choose|k: int| 0 <= k <= v@.len() && #[trigger] utf8_prefix_len(v@, k) == 10;
            let mut i: usize = 0;
            let mut total: usize = 0;
            assert(v@.take(0) =~= Seq::<char>::empty());
            while total < 10
                invariant
                    i <= k <= v@.len(),
                    utf8_prefix_len(v@, k) == 10,
                    total == utf8_prefix_len(v@, i as int),
                decreases k - i,
            {
                proof {
                    if i == k {
                        assert(false);
                    }
                    lemma_utf8_prefix_step(v@, i as int);
                    if i + 1 < k {
                        lemma_utf8_prefix_increasing(v@, i + 1, k);
                    }
                }
                let w = utf8_width(v[i]);
                assert(i < v.len());
                total = total + w;
                i = i + 1;
            }
            proof {
                if i < k {
                    lemma_utf8_prefix_increasing(v@, i as int, k);
                }
            }
            let mut short = string_of_range(&v, 0, i);
            push_char(&mut short, '…');
            assert(v@.subrange(0, i as int) =~= v@.take(i as int));
            short
        },
        Err(_) => {
            let invalid = String::from_str("invalid");
            invalid
        },
    }
}

} // verus!

verus! {

/// The protocol-v2 mailbox URL of opaque id `id` on the relay at `base`.
pub open spec fn v1_mailbox_url(base: Seq<char>, id: Seq<char>) -> Seq<char> {
    trim_slashes(base) + "/v1/mailboxes/"@ + id
}

/// Relay replicas tried for a mailbox: the mailbox itself, then the same
/// opaque id on each relay base in order, skipping URLs already listed.
pub open spec fn replicas_from(first: Seq<char>, id: Seq<char>, bases: Seq<Seq<char>>) -> Seq<
    Seq<char>,
>
    decreases bases.len(),
{
    if bases.len() == 0 {
        seq![first]
    } else {
        let previous = replicas_from(first, id, bases.drop_last());
        let candidate = v1_mailbox_url(bases.last(), id);
        if previous.contains(candidate) {
            previous
        } else {
            previous.push(candidate)
        }
    }
}

/// Relay replicas of `mailbox`; only the mailbox itself when it has no
/// opaque id.
pub open spec fn mailbox_replicas_of(mailbox: Seq<char>, bases: Seq<Seq<char>>) -> Seq<Seq<char>> {
    match mailbox_id_of(mailbox) {
        Some(id) => replicas_from(mailbox, id, bases),
        None => seq![mailbox],
    }
}

/// The character sequences of a list of strings.
pub open spec fn string_views(v: Seq<String>) -> Seq<Seq<char>> {
    v.map_values(|s: String| s@)
}

/// Whether a string with the characters of `s` occurs in `v`.
pub fn contains_string(v: &Vec<String>, s: &String) -> (r: bool)
    ensures
        r == string_views(v@).contains(s@),
{
    let mut i: usize = 0;
    while i < v.len()
        invariant
            i <= v@.len(),
            forall|j: int| 0 <= j < i ==> v@[j]@ != s@,
        decreases v.len() - i,
    {
        if v[i] == *s {
            assert(string_views(v@)[i as int] == s@);
            return true;
        }
        i = i + 1;
    }
    proof {
        if string_views(v@).contains(s@) {
            let k = choose|k: int| 0 <= k < string_views(v@).len() && string_views(v@)[k] == s@;
            assert(v@[k]@ == s@);
        }
    }
    false
}

/// The URL `trim(base) + path + id`.
fn join_url(base: &str, path: &str, id: &str) -> (r: String)
    ensures
        r@ == trim_slashes(base@) + path@ + id@,
{
    let mut r = trim_end_slashes(base);
    r.append(path);
    r.append(id);
    r
}

/// The protocol-v2 config-store URL of a configuration's capsule: the
/// store's base without trailing `/`, then `/v1/configs/` and the
/// configuration id in hexadecimal.
pub open spec fn config_locator_url(base: Seq<char>, id: Seq<u8>) -> Seq<char> {
    trim_slashes(base) + "/v1/configs/"@ + hex_lower(id)
}

/// The capsule locator of configuration `config_id` on the config store at
/// `base`.
pub fn config_locator(base: &str, config_id: &Id32) -> (r: String)
    ensures
        r@ == config_locator_url(base@, config_id@),
{
    let hex = hex_encode(config_id.as_slice());
    join_url(base, "/v1/configs/", hex.as_str())
}

/// The protocol-v3 mailbox URL of opaque id `id` on the relay at `base`.
pub open spec fn v3_mailbox_url(base: Seq<char>, id: Seq<char>) -> Seq<char> {
    trim_slashes(base) + "/v3/mailboxes/"@ + id
}

/// The protocol-v2 mailbox on `relay` whose opaque id is the hexadecimal
/// text of `id`.
pub fn mailbox_url_for(relay: &str, id: &Id32) -> (r: String)
    ensures
        r@ == v1_mailbox_url(relay@, hex_lower(id@)),
{
    let hex = hex_encode(id.as_slice());
    join_url(relay, "/v1/mailboxes/", hex.as_str())
}

/// The protocol-v3 mailbox on `relay` whose opaque id is the hexadecimal
/// text of `id`.
pub fn mailbox_url_v3_for(relay: &str, id: &Id32) -> (r: String)
    ensures
        r@ == v3_mailbox_url(relay@, hex_lower(id@)),
{
    let hex = hex_encode(id.as_slice());
    join_url(relay, "/v3/mailboxes/", hex.as_str())
}

/// A new protocol-v2 mailbox on `relay` under a random 32-byte opaque id,
/// or `Unavailable` where the system's random generator fails.
pub fn mailbox_url(relay: &str) -> (r: Result<String, RandomError>)
    ensures
        match r {
            Ok(url) => (exists|id: Seq<u8>| id.len() == 32 && url@ == v1_mailbox_url(relay@, #[trigger] hex_lower(id)))
                && mailbox_id_of(url@) is Some,
            Err(e) => e == RandomError::Unavailable,
        },
{
    let id = random_id()?;
    let r = mailbox_url_for(relay, &id);
    proof {
        assert(id@.len() == 32);
        lemma_fresh_mailbox_has_opaque_id(relay@, id@);
    }
    Ok(r)
}

/// A new protocol-v3 mailbox on `relay` under a random 32-byte opaque id,
/// or `Unavailable` where the system's random generator fails.
pub fn mailbox_url_v3(relay: &str) -> (r: Result<String, RandomError>)
    ensures
        match r {
            Ok(url) => (exists|id: Seq<u8>| id.len() == 32 && url@ == v3_mailbox_url(relay@, #[trigger] hex_lower(id)))
                && mailbox_id_of(url@) is Some,
            Err(e) => e == RandomError::Unavailable,
        },
{
    let id = random_id()?;
    let r = mailbox_url_v3_for(relay, &id);
    proof {
        assert(id@.len() == 32);
        lemma_fresh_mailbox_has_opaque_id(relay@, id@);
    }
    Ok(r)
}

/// Hexadecimal text is twice as long as its bytes and holds no `/`.
proof fn lemma_hex_lower(bytes: Seq<u8>)
    ensures
        hex_lower(bytes).len() == 2 * bytes.len(),
        forall|i: int| 0 <= i < hex_lower(bytes).len() ==> #[trigger] hex_lower(bytes)[i] != '/',
    decreases bytes.len(),
{
    if bytes.len() > 0 {
        lemma_hex_lower(bytes.drop_first());
        let hi = hex_digit((bytes[0] / 16) as int);
        let lo = hex_digit((bytes[0] % 16) as int);
        let tail = hex_lower(bytes.drop_first());
        assert(hi != '/' && lo != '/');
        assert forall|i: int| 0 <= i < hex_lower(bytes).len() implies #[trigger] hex_lower(bytes)[i] != '/' by {
            if i >= 2 {
                assert(hex_lower(bytes)[i] == tail[i - 2]);
            }
        }
    }
}

/// The last path segment of `prefix + h`, for a prefix ending in `/` and a
/// text `h` without `/`, is `h`.
proof fn lemma_last_segment_after_slash(prefix: Seq<char>, h: Seq<char>)
    requires
        prefix.len() > 0,
        prefix.last() == '/',
        forall|i: int| 0 <= i < h.len() ==> h[i] != '/',
    ensures
        last_segment(prefix + h) == h,
    decreases h.len(),
{
    if h.len() == 0 {
        assert(prefix + h =~= prefix);
    } else {
        lemma_last_segment_after_slash(prefix, h.drop_last());
        assert((prefix + h).drop_last() =~= prefix + h.drop_last());
        assert((prefix + h).last() == h.last());
        assert(h.drop_last().push(h.last()) =~= h);
    }
}

/// Every character takes at least one byte in UTF-8.
proof fn lemma_utf8_len_at_least_chars(s: Seq<char>)
    ensures
        encode_utf8(s).len() >= s.len(),
    decreases s.len(),
{
    if s.len() > 0 {
        lemma_utf8_len_at_least_chars(s.drop_first());
    }
}

/// A mailbox made for a 32-byte id, on either protocol's path, has that
/// id's 64 hexadecimal digits as its opaque id, which `mailbox_id`
/// accepts.
pub proof fn lemma_fresh_mailbox_has_opaque_id(base: Seq<char>, id: Seq<u8>)
    requires
        id.len() == 32,
    ensures
        mailbox_id_of(v1_mailbox_url(base, hex_lower(id))) == Some(hex_lower(id)),
        mailbox_id_of(v3_mailbox_url(base, hex_lower(id))) == Some(hex_lower(id)),
{
    reveal_strlit("/v1/mailboxes/");
    reveal_strlit("/v3/mailboxes/");
    lemma_hex_lower(id);
    let h = hex_lower(id);
    lemma_utf8_len_at_least_chars(h);
    let p1 = trim_slashes(base) + "/v1/mailboxes/"@;
    let p3 = trim_slashes(base) + "/v3/mailboxes/"@;
    assert(p1.last() == '/');
    assert(p3.last() == '/');
    lemma_last_segment_after_slash(p1, h);
    lemma_last_segment_after_slash(p3, h);
    assert((p1 + h).last() == h.last());
    assert((p3 + h).last() == h.last());
    assert(h.last() == h[63]);
    assert(trim_slashes(p1 + h) == p1 + h);
    assert(trim_slashes(p3 + h) == p3 + h);
}

/// Whether `s` ends with `suffix`.
pub open spec fn ends_with(s: Seq<char>, suffix: Seq<char>) -> bool {
    suffix.len() <= s.len() && s.subrange(s.len() - suffix.len(), s.len() as int) == suffix
}

/// Where a client reads the epoch of configuration `config_id` from a
/// witness pinned at `mailbox`: the mailbox itself when it already names
/// the read endpoint, else the configuration's read path on it.
pub open spec fn witness_read_url_of(mailbox: Seq<char>, config_id: Seq<u8>) -> Seq<char> {
    if ends_with(mailbox, "/read"@) {
        mailbox
    } else {
        trim_slashes(mailbox) + "/v3/witness/configs/"@ + hex_lower(config_id) + "/read"@
    }
}

/// The URL of a witness's epoch read for a configuration.
pub fn witness_read_url(mailbox: &str, config_id: &Id32) -> (r: String)
    ensures
        r@ == witness_read_url_of(mailbox@, config_id@),
{
    proof {
        reveal_strlit("/read");
    }
    let chars = str_chars(mailbox);
    let suffix = str_chars("/read");
    let n = chars.len();
    let mut matches = n >= 5;
    if matches {
        let mut k: usize = 0;
        while k < 5
            invariant
                n == chars@.len(),
                n >= 5,
                suffix@ == "/read"@,
                suffix@.len() == 5,
                k <= 5,
                matches == forall|j: int| 0 <= j < k ==> chars@[n - 5 + j] == suffix@[j],
            decreases 5 - k,
        {
            if chars[n - 5 + k] != suffix[k] {
                matches = false;
            }
            k = k + 1;
        }
        proof {
            if matches {
                assert(chars@.subrange(n - 5, n as int) =~= "/read"@);
            } else {
                assert(!(chars@.subrange(n - 5, n as int) =~= "/read"@)) by {
                    let j = choose|j: int| 0 <= j < 5 && chars@[n - 5 + j] != suffix@[j];
                    assert(chars@.subrange(n - 5, n as int)[j] == chars@[n - 5 + j]);
                }
            }
        }
    }
    if matches {
        return mailbox.to_owned();
    }
    let hex = hex_encode(config_id.as_slice());
    let mut r = join_url(mailbox, "/v3/witness/configs/", hex.as_str());
    r.append("/read");
    r
}

/// The protocol-v2 mailbox URLs through which `mailbox` can be reached:
/// the mailbox itself, then its opaque id on every relay, without
/// duplicates.
pub fn mailbox_replicas(mailbox: &str, relay_bases: &[String]) -> (r: Vec<String>)
    ensures
        string_views(r@) == mailbox_replicas_of(mailbox@, string_views(relay_bases@)),
        mailbox_id_of(mailbox@) matches Some(id) ==> replicas_in_relay_order(
            string_views(r@),
            id,
            string_views(relay_bases@),
        ),
{
    let mut replicas: Vec<String> = Vec::new();
    replicas.push(String::from_str(mailbox));
    let id = match mailbox_id(mailbox) {
        Ok(id) => id,
        Err(_) => {
            assert(string_views(replicas@) =~= seq![mailbox@]);
            return replicas;
        },
    };
    let ghost bases = string_views(relay_bases@);
    assert(string_views(replicas@) =~= replicas_from(mailbox@, id@, bases.subrange(0, 0)));
    let mut i: usize = 0;
    while i < relay_bases.len()
        invariant
            i <= relay_bases@.len(),
            bases == string_views(relay_bases@),
            mailbox_id_of(mailbox@) == Some(id@),
            string_views(replicas@) == replicas_from(mailbox@, id@, bases.subrange(0, i as int)),
        decreases relay_bases.len() - i,
    {
        let candidate = join_url(relay_bases[i].as_str(), "/v1/mailboxes/", id.as_str());
        assert(bases.subrange(0, i + 1).drop_last() =~= bases.subrange(0, i as int));
        assert(bases.subrange(0, i + 1).last() == relay_bases@[i as int]@);
        if !contains_string(&replicas, &candidate) {
            replicas.push(candidate);
            assert(string_views(replicas@) =~= replicas_from(mailbox@, id@, bases.subrange(0, i + 1)));
        }
        i = i + 1;
    }
    assert(bases.subrange(0, i as int) =~= bases);
    proof {
        lemma_replicas_follow_relay_order(mailbox@, id@, bases);
    }
    replicas
}

/// Shape of the replica list: it starts with the mailbox, holds no
/// duplicates, reaches the same opaque id through every relay, and holds
/// nothing else.
pub proof fn lemma_replicas_from(first: Seq<char>, id: Seq<char>, bases: Seq<Seq<char>>)
    ensures
        replicas_from(first, id, bases).len() >= 1,
        replicas_from(first, id, bases)[0] == first,
        forall|i: int, j: int|
            0 <= i < j < replicas_from(first, id, bases).len() ==> replicas_from(first, id, bases)[i]
                != replicas_from(first, id, bases)[j],
        forall|i: int|
            #![trigger replicas_from(first, id, bases)[i]]
            1 <= i < replicas_from(first, id, bases).len() ==> exists|k: int|
                0 <= k < bases.len() && replicas_from(first, id, bases)[i] == v1_mailbox_url(
                    #[trigger] bases[k],
                    id,
                ),
        forall|k: int|
            0 <= k < bases.len() ==> replicas_from(first, id, bases).contains(
                v1_mailbox_url(#[trigger] bases[k], id),
            ),
    decreases bases.len(),
{
    if bases.len() > 0 {
        let rest = bases.drop_last();
        lemma_replicas_from(first, id, rest);
        let previous = replicas_from(first, id, rest);
        let r = replicas_from(first, id, bases);
        assert forall|i: int| #![trigger r[i]] 1 <= i < r.len() implies exists|k: int|
            0 <= k < bases.len() && r[i] == v1_mailbox_url(#[trigger] bases[k], id) by {
            if i < previous.len() {
                let k = choose|k: int| 0 <= k < rest.len() && previous[i] == v1_mailbox_url(#[trigger] rest[k], id);
                assert(bases[k] == rest[k]);
            } else {
                assert(bases[bases.len() - 1] == bases.last());
            }
        }
        assert forall|k: int| 0 <= k < bases.len() implies r.contains(
            v1_mailbox_url(#[trigger] bases[k], id),
        ) by {
            if k < rest.len() {
                assert(rest[k] == bases[k]);
                let m = choose|m: int| 0 <= m < previous.len() && previous[m] == v1_mailbox_url(rest[k], id);
                assert(r[m] == previous[m]);
            } else {
                assert(bases[k] == bases.last());
                if !previous.contains(v1_mailbox_url(bases.last(), id)) {
                    assert(r[r.len() - 1] == v1_mailbox_url(bases.last(), id));
                }
            }
        }
    }
}

/// `k` is the first position in `bases` whose protocol-v2 mailbox URL for
/// `id` is `url`.
pub open spec fn first_base_for(bases: Seq<Seq<char>>, id: Seq<char>, url: Seq<char>, k: int) -> bool {
    &&& 0 <= k < bases.len()
    &&& v1_mailbox_url(bases[k], id) == url
    &&& forall|l: int| 0 <= l < k ==> v1_mailbox_url(#[trigger] bases[l], id) != url
}

/// Some relay base yields `url`.
pub open spec fn some_base_for(bases: Seq<Seq<char>>, id: Seq<char>, url: Seq<char>) -> bool {
    exists|k: int| #[trigger] first_base_for(bases, id, url, k)
}

/// The first relay base yielding `x` comes before the first one yielding
/// `y`.
pub open spec fn base_precedes(bases: Seq<Seq<char>>, id: Seq<char>, x: Seq<char>, y: Seq<char>) -> bool {
    exists|kx: int, ky: int|
        kx < ky && #[trigger] first_base_for(bases, id, x, kx) && #[trigger] first_base_for(bases, id, y, ky)
}

/// After the first entry, the replicas follow the relay bases in order:
/// each comes from some relay, and of two later entries, the one listed
/// first comes from a relay that occurs first in `bases`.
pub open spec fn replicas_in_relay_order(r: Seq<Seq<char>>, id: Seq<char>, bases: Seq<Seq<char>>) -> bool {
    &&& forall|i: int| 1 <= i < r.len() ==> #[trigger] some_base_for(bases, id, r[i])
    &&& forall|i: int, j: int| 1 <= i < j < r.len() ==> #[trigger] base_precedes(bases, id, r[i], r[j])
}

/// A first position among the bases but the last is a first position among
/// all of them.
proof fn lemma_first_base_for_extends(bases: Seq<Seq<char>>, id: Seq<char>)
    requires
        bases.len() > 0,
    ensures
        forall|x: Seq<char>, k: int|
            #[trigger] first_base_for(bases.drop_last(), id, x, k) ==> first_base_for(bases, id, x, k),
{
    let rest = bases.drop_last();
    assert forall|x: Seq<char>, k: int| #[trigger] first_base_for(rest, id, x, k) implies first_base_for(
        bases,
        id,
        x,
        k,
    ) by {
        assert(bases[k] == rest[k]);
        assert forall|l: int| 0 <= l < k implies v1_mailbox_url(#[trigger] bases[l], id) != x by {
            assert(bases[l] == rest[l]);
        }
    }
}

/// The replica list tries the relays in the order they are configured.
pub proof fn lemma_replicas_follow_relay_order(first: Seq<char>, id: Seq<char>, bases: Seq<Seq<char>>)
    ensures
        replicas_in_relay_order(replicas_from(first, id, bases), id, bases),
    decreases bases.len(),
{
    let r = replicas_from(first, id, bases);
    if bases.len() == 0 {
        assert(r.len() == 1);
    } else {
        let rest = bases.drop_last();
        let n = rest.len() as int;
        lemma_replicas_follow_relay_order(first, id, rest);
        lemma_replicas_from(first, id, rest);
        lemma_first_base_for_extends(bases, id);
        let previous = replicas_from(first, id, rest);
        let c = v1_mailbox_url(bases.last(), id);
        if !previous.contains(c) {
            assert forall|l: int| 0 <= l < n implies v1_mailbox_url(#[trigger] bases[l], id) != c by {
                assert(bases[l] == rest[l]);
                assert(previous.contains(v1_mailbox_url(rest[l], id)));
            }
            assert(bases[n] == bases.last());
            assert(first_base_for(bases, id, c, n));
        }
        assert forall|i: int| 1 <= i < r.len() implies #[trigger] some_base_for(bases, id, r[i]) by {
            if i < previous.len() {
                assert(r[i] == previous[i]);
                assert(some_base_for(rest, id, previous[i]));
                let k = choose|k: int| #[trigger] first_base_for(rest, id, previous[i], k);
                assert(first_base_for(bases, id, r[i], k));
            } else {
                assert(first_base_for(bases, id, r[i], n));
            }
        }
        assert forall|i: int, j: int| 1 <= i < j < r.len() implies #[trigger] base_precedes(bases, id, r[i], r[j]) by {
            assert(r[i] == previous[i]);
            if j < previous.len() {
                assert(r[j] == previous[j]);
                assert(base_precedes(rest, id, previous[i], previous[j]));
                let (ki, kj) = choose|ki: int, kj: int|
                    ki < kj && #[trigger] first_base_for(rest, id, previous[i], ki) && #[trigger] first_base_for(
                        rest,
                        id,
                        previous[j],
                        kj,
                    );
                assert(first_base_for(bases, id, r[i], ki));
                assert(first_base_for(bases, id, r[j], kj));
            } else {
                assert(some_base_for(rest, id, previous[i]));
                let ki = choose|k: int| #[trigger] first_base_for(rest, id, previous[i], k);
                assert(first_base_for(bases, id, r[i], ki));
                assert(first_base_for(bases, id, r[j], n));
            }
        }
    }
}

/// The relay-failover law: every replica of a mailbox carries the
/// mailbox's own opaque id, the list starts with the mailbox, no URL is
/// tried twice, and the relays are tried in the order they are configured.
pub proof fn lemma_mailbox_replicas_preserve_id(mailbox: Seq<char>, bases: Seq<Seq<char>>)
    ensures
        mailbox_replicas_of(mailbox, bases)[0] == mailbox,
        forall|i: int, j: int|
            0 <= i < j < mailbox_replicas_of(mailbox, bases).len() ==> mailbox_replicas_of(
                mailbox,
                bases,
            )[i] != mailbox_replicas_of(mailbox, bases)[j],
        mailbox_id_of(mailbox) is None ==> mailbox_replicas_of(mailbox, bases).len() == 1,
        mailbox_id_of(mailbox) matches Some(id) ==> forall|i: int|
            #![trigger mailbox_replicas_of(mailbox, bases)[i]]
            1 <= i < mailbox_replicas_of(mailbox, bases).len() ==> exists|k: int|
                0 <= k < bases.len() && mailbox_replicas_of(mailbox, bases)[i] == v1_mailbox_url(
                    #[trigger] bases[k],
                    id,
                ),
        mailbox_id_of(mailbox) matches Some(id) ==> replicas_in_relay_order(
            mailbox_replicas_of(mailbox, bases),
            id,
            bases,
        ),
{
    if let Some(id) = mailbox_id_of(mailbox) {
        lemma_replicas_from(mailbox, id, bases);
        lemma_replicas_follow_relay_order(mailbox, id, bases);
    }
}

} // verus!
