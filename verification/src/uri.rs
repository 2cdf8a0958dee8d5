//! Parsing of the device-linking URIs shown by Signal Desktop as a QR code,
//! `tsdevice:/?uuid=...&pub_key=...` or `sgnl://linkdevice?uuid=...&pub_key=...`.
//!
//! Everything is specified over the UTF-8 bytes of the URI.

use vstd::prelude::*;
use vstd::string::StringSliceAdditionalSpecFns;
use vstd::utf8::{encode_utf8, decode_utf8, valid_utf8};
use crate::crypto::{
    hex_pair_value, base64_standard_no_pad_decode, base64_url_safe_no_pad_decode,
    base64_standard_decode, base64_url_safe_decode,
};

verus! {

// ---------------------------------------------------------------------------
// Byte-sequence helpers
// ---------------------------------------------------------------------------

/// Index of the first occurrence of `x` in `b`, or -1.
pub open spec fn index_of(b: Seq<u8>, x: u8) -> int
    decreases b.len(),
{
    if b.len() == 0 {
        -1
    } else if b[0] == x {
        0
    } else {
        let r = index_of(b.drop_first(), x);
        if r < 0 {
            -1
        } else {
            r + 1
        }
    }
}

proof fn lemma_index_of_found(b: Seq<u8>, x: u8, i: int)
    requires
        0 <= i < b.len(),
        b[i] == x,
        forall|j: int| 0 <= j < i ==> b[j] != x,
    ensures
        index_of(b, x) == i,
    decreases i,
{
    if i > 0 {
        lemma_index_of_found(b.drop_first(), x, i - 1);
    }
}

proof fn lemma_index_of_absent(b: Seq<u8>, x: u8)
    requires
        forall|j: int| 0 <= j < b.len() ==> b[j] != x,
    ensures
        index_of(b, x) == -1,
    decreases b.len(),
{
    if b.len() > 0 {
        lemma_index_of_absent(b.drop_first(), x);
    }
}

/// Exec counterpart of `index_of`.
pub fn find_byte(b: &[u8], x: u8) -> (r: Option<usize>)
    ensures
        match r {
            Some(i) => index_of(b@, x) == i as int && i < b@.len() && b@[i as int] == x,
            None => index_of(b@, x) == -1,
        },
{
    let mut i: usize = 0;
    while i < b.len()
        invariant
            i <= b@.len(),
            forall|j: int| 0 <= j < i ==> b@[j] != x,
        decreases b@.len() - i,
    {
        if b[i] == x {
            proof {
                lemma_index_of_found(b@, x, i as int);
            }
            return Some(i);
        }
        i = i + 1;
    }
    proof {
        lemma_index_of_absent(b@, x);
    }
    None
}

/// Byte-wise equality.
pub fn bytes_eq(a: &[u8], b: &[u8]) -> (r: bool)
    ensures
        r == (a@ == b@),
{
    if a.len() != b.len() {
        return false;
    }
    let mut i: usize = 0;
    while i < a.len()
        invariant
            i <= a@.len(),
            a@.len() == b@.len(),
            forall|j: int| 0 <= j < i ==> a@[j] == b@[j],
        decreases a@.len() - i,
    {
        if a[i] != b[i] {
            return false;
        }
        i = i + 1;
    }
    assert(a@ =~= b@);
    true
}

/// Copies `b[from..to]` into a new vector.
pub fn copy_range(b: &[u8], from: usize, to: usize) -> (r: Vec<u8>)
    requires
        from <= to <= b@.len(),
    ensures
        r@ == b@.subrange(from as int, to as int),
{
    let mut v: Vec<u8> = Vec::new();
    let mut i: usize = from;
    while i < to
        invariant
            from <= i <= to,
            to <= b@.len(),
            v@ == b@.subrange(from as int, i as int),
        decreases to - i,
    {
        v.push(b[i]);
        assert(b@.subrange(from as int, i + 1) == b@.subrange(from as int, i as int).push(b@[i as int]));
        i = i + 1;
    }
    v
}

/// `str::split` on a single-byte separator: the pieces between separators,
/// always at least one (possibly empty) piece.
pub open spec fn split_spec(b: Seq<u8>, sep: u8) -> Seq<Seq<u8>>
    decreases b.len(),
{
    if b.len() == 0 {
        seq![Seq::empty()]
    } else {
        let rest = split_spec(b.drop_last(), sep);
        if b.last() == sep {
            rest.push(Seq::empty())
        } else {
            rest.update(rest.len() - 1, rest.last().push(b.last()))
        }
    }
}

proof fn lemma_split_nonempty(b: Seq<u8>, sep: u8)
    ensures
        split_spec(b, sep).len() >= 1,
    decreases b.len(),
{
    if b.len() > 0 {
        lemma_split_nonempty(b.drop_last(), sep);
    }
}

/// The byte sequences held by a vector of byte vectors.
pub open spec fn seqs_of(v: Seq<Vec<u8>>) -> Seq<Seq<u8>> {
    Seq::new(v.len(), |i: int| v[i]@)
}

/// Splits `b` at every `sep`, as `str::split` does.
pub fn split_bytes(b: &[u8], sep: u8) -> (r: Vec<Vec<u8>>)
    ensures
        seqs_of(r@) == split_spec(b@, sep),
{
    let mut segs: Vec<Vec<u8>> = Vec::new();
    segs.push(Vec::new());
    assert(seqs_of(segs@) =~= split_spec(b@.subrange(0, 0), sep));
    let mut i: usize = 0;
    while i < b.len()
        invariant
            i <= b@.len(),
            seqs_of(segs@) == split_spec(b@.subrange(0, i as int), sep),
            segs@.len() >= 1,
        decreases b@.len() - i,
    {
        let ghost prev = seqs_of(segs@);
        assert(b@.subrange(0, i + 1).drop_last() == b@.subrange(0, i as int));
        if b[i] == sep {
            segs.push(Vec::new());
            assert(seqs_of(segs@) =~= prev.push(Seq::empty()));
        } else {
            let mut last = segs.pop().unwrap();
            last.push(b[i]);
            segs.push(last);
            assert(seqs_of(segs@) =~= prev.update(prev.len() - 1, prev.last().push(b@[i as int])));
        }
        i = i + 1;
    }
    assert(b@.subrange(0, b@.len() as int) == b@);
    segs
}

// ---------------------------------------------------------------------------
// Query parameters
// ---------------------------------------------------------------------------

/// `str::split_once('=')`: the key before the first `=` and the value after it.
pub open spec fn param_pair(seg: Seq<u8>) -> Option<(Seq<u8>, Seq<u8>)> {
    let i = index_of(seg, 61u8);
    if i < 0 {
        None
    } else {
        Some((seg.subrange(0, i), seg.subrange(i + 1, seg.len() as int)))
    }
}

/// Value of the last `key=value` piece whose key is `key` (collecting the
/// pairs into a map keeps the last one); pieces without `=` are ignored.
pub open spec fn lookup_param(segs: Seq<Seq<u8>>, key: Seq<u8>) -> Option<Seq<u8>>
    decreases segs.len(),
{
    if segs.len() == 0 {
        None
    } else {
        match param_pair(segs.last()) {
            Some((k, v)) => if k == key {
                Some(v)
            } else {
                lookup_param(segs.drop_last(), key)
            },
            None => lookup_param(segs.drop_last(), key),
        }
    }
}

/// The raw value of parameter `key` among `segs`.
pub fn find_param(segs: &Vec<Vec<u8>>, key: &[u8]) -> (r: Option<Vec<u8>>)
    ensures
        r.deep_view() == lookup_param(seqs_of(segs@), key@),
{
    let ghost all = seqs_of(segs@);
    let mut found: Option<Vec<u8>> = None;
    let mut j: usize = 0;
    while j < segs.len()
        invariant
            j <= segs@.len(),
            all == seqs_of(segs@),
            found.deep_view() == lookup_param(all.subrange(0, j as int), key@),
        decreases segs@.len() - j,
    {
        let seg = &segs[j];
        let n = seg.len();
        assert(all[j as int] == seg@);
        assert(all.subrange(0, j + 1).drop_last() == all.subrange(0, j as int));
        assert(all.subrange(0, j + 1).last() == seg@);
        match find_byte(seg.as_slice(), 61u8) {
            Some(e) => {
                let k = copy_range(seg.as_slice(), 0, e);
                if bytes_eq(k.as_slice(), key) {
                    let v = copy_range(seg.as_slice(), e + 1, n);
                    assert(v.deep_view() =~= v@);
                    found = Some(v);
                }
            },
            None => {},
        }
        j = j + 1;
    }
    assert(all.subrange(0, segs@.len() as int) == all);
    found
}

// ---------------------------------------------------------------------------
// Percent decoding
// ---------------------------------------------------------------------------

/// Percent-decoding of a query value: `%XY` with a valid two-digit escape
/// becomes that byte, `+` becomes a space, every other byte stays.
pub open spec fn percent_decode_spec(b: Seq<u8>) -> Seq<u8>
    decreases b.len(),
{
    if b.len() == 0 {
        Seq::empty()
    } else if b[0] == 37u8 && 2 < b.len() && hex_pair_value(b[1], b[2]) is Some {
        seq![hex_pair_value(b[1], b[2])->0] + percent_decode_spec(b.subrange(3, b.len() as int))
    } else if b[0] == 43u8 {
        seq![32u8] + percent_decode_spec(b.drop_first())
    } else {
        seq![b[0]] + percent_decode_spec(b.drop_first())
    }
}

/// What `String::from_utf8_lossy` produces from `bytes`.
pub uninterp spec fn utf8_lossy(bytes: Seq<u8>) -> Seq<char>;

/// The text that `String::from_utf8_lossy` makes of `bytes`: the decoded
/// bytes when they are valid UTF-8, otherwise what the name says.
pub open spec fn lossy_text(bytes: Seq<u8>) -> Seq<char> {
    if valid_utf8(bytes) {
        decode_utf8(bytes)
    } else {
        utf8_lossy(bytes)
    }
}

/// `String::from_utf8_lossy(..).into_owned()`: names the result; when the
/// bytes are valid UTF-8 the string is exactly the decoded bytes (the
/// function documents borrowing them unchanged in that case).
#[verifier::external_body]
pub(crate) fn string_from_utf8_lossy(bytes: &[u8]) -> (r: String)
    ensures
        r@ == utf8_lossy(bytes@),
        valid_utf8(bytes@) ==> r@ == decode_utf8(bytes@),
{
    String::from_utf8_lossy(bytes).into_owned()
}

/// Percent-decodes the bytes of a query value.
pub fn percent_decode_bytes(b: &[u8]) -> (r: Vec<u8>)
    ensures
        r@ == percent_decode_spec(b@),
{
    let mut out: Vec<u8> = Vec::new();
    let mut i: usize = 0;
    assert(b@.subrange(0, b@.len() as int) == b@);
    while i < b.len()
        invariant
            i <= b@.len(),
            out@ + percent_decode_spec(b@.subrange(i as int, b@.len() as int)) == percent_decode_spec(b@),
        decreases b@.len() - i,
    {
        let ghost rest = b@.subrange(i as int, b@.len() as int);
        let ghost before = out@;
        if b[i] == 37u8 && b.len() - i > 2 {
            match crate::crypto::hex_pair(b[i + 1], b[i + 2]) {
                Some(v) => {
                    out.push(v);
                    assert(rest.subrange(3, rest.len() as int) == b@.subrange(i + 3, b@.len() as int));
                    i = i + 3;
                    continue;
                },
                None => {},
            }
        } else if b[i] == 43u8 {
            out.push(32u8);
            assert(rest.drop_first() == b@.subrange(i + 1, b@.len() as int));
            i = i + 1;
            continue;
        }
        out.push(b[i]);
        assert(rest.drop_first() == b@.subrange(i + 1, b@.len() as int));
        i = i + 1;
    }
    out
}

/// Minimal percent-decoder for URI query values; undecodable bytes are
/// replaced as `String::from_utf8_lossy` does.
pub fn percent_decode(s: &str) -> (r: String)
    ensures
        r@ == lossy_text(percent_decode_spec(s.spec_bytes())),
{
    let d = percent_decode_bytes(s.as_bytes());
    string_from_utf8_lossy(d.as_slice())
}

// ---------------------------------------------------------------------------
// Device URIs
// ---------------------------------------------------------------------------

/// Why a device-linking URI was rejected.
pub enum DeviceUriError {
    NoQuery,
    MissingUuid,
    MissingPubKey,
    BadBase64,
}

/// The bytes of "uuid".
pub open spec fn uuid_key() -> Seq<u8> {
    seq![117u8, 117, 105, 100]
}

/// The bytes of "pub_key".
pub open spec fn pub_key_key() -> Seq<u8> {
    seq![112u8, 117, 98, 95, 107, 101, 121]
}

/// The part of the URI after its first `?`.
pub open spec fn query_of(uri: Seq<u8>) -> Option<Seq<u8>> {
    let q = index_of(uri, 63u8);
    if q < 0 {
        None
    } else {
        Some(uri.subrange(q + 1, uri.len() as int))
    }
}

/// The public key text decoded as standard base64 without padding, else
/// URL-safe without padding, else standard padded, else URL-safe padded.
pub open spec fn decode_pub_key(text: Seq<u8>) -> Option<Seq<u8>> {
    match base64_standard_no_pad_decode(text) {
        Some(k) => Some(k),
        None => match base64_url_safe_no_pad_decode(text) {
            Some(k) => Some(k),
            None => match base64_standard_decode(text) {
                Some(k) => Some(k),
                None => base64_url_safe_decode(text),
            },
        },
    }
}

/// What parsing the URI with UTF-8 bytes `uri` yields: the ephemeral id
/// (the `uuid` parameter) and the raw public key bytes (the `pub_key`
/// parameter, base64-decoded), or why it fails. Parameter values are
/// percent-decoded and turned into strings as `String::from_utf8_lossy`
/// does.
pub open spec fn device_uri_outcome(uri: Seq<u8>) -> Result<(Seq<char>, Seq<u8>), DeviceUriError> {
    match query_of(uri) {
        None => Err(DeviceUriError::NoQuery),
        Some(q) => {
            let segs = split_spec(q, 38u8);
            match lookup_param(segs, uuid_key()) {
                None => Err(DeviceUriError::MissingUuid),
                Some(u) => match lookup_param(segs, pub_key_key()) {
                    None => Err(DeviceUriError::MissingPubKey),
                    Some(p) => match decode_pub_key(
                        encode_utf8(lossy_text(percent_decode_spec(p))),
                    ) {
                        None => Err(DeviceUriError::BadBase64),
                        Some(k) => Ok((lossy_text(percent_decode_spec(u)), k)),
                    },
                },
            }
        },
    }
}

/// Message carried by `SignalError::InvalidUri` for each rejection.
pub open spec fn uri_error_text(e: DeviceUriError) -> Seq<char> {
    match e {
        DeviceUriError::NoQuery => "URI has no query parameters"@,
        DeviceUriError::MissingUuid => "Missing 'uuid' parameter"@,
        DeviceUriError::MissingPubKey => "Missing 'pub_key' parameter"@,
        DeviceUriError::BadBase64 => "Bad base64 in pub_key: "@,
    }
}

/// `m` is the message for the rejection `e`: the text of `uri_error_text`,
/// followed, for a key that is not base64, by the URL-safe decoder's
/// description of the error.
pub open spec fn is_uri_error_message(e: DeviceUriError, m: Seq<char>) -> bool {
    if e is BadBase64 {
        m.len() >= uri_error_text(e).len() && m.subrange(0, uri_error_text(e).len() as int) == uri_error_text(e)
    } else {
        m == uri_error_text(e)
    }
}

fn uri_error(e: DeviceUriError) -> (r: crate::types::SignalError)
    requires
        !(e is BadBase64),
    ensures
        r matches crate::types::SignalError::InvalidUri(m) && m@ == uri_error_text(e),
{
    let m = match e {
        DeviceUriError::NoQuery => String::from_str("URI has no query parameters"),
        DeviceUriError::MissingUuid => String::from_str("Missing 'uuid' parameter"),
        DeviceUriError::MissingPubKey => String::from_str("Missing 'pub_key' parameter"),
        DeviceUriError::BadBase64 => String::new(),
    };
    crate::types::SignalError::InvalidUri(m)
}

/// Decodes the public key text, trying the four base64 flavours in turn;
/// on failure the last decoder's description of the error.
pub fn decode_pub_key_bytes(text: &[u8]) -> (r: Result<Vec<u8>, String>)
    ensures
        r is Ok <==> decode_pub_key(text@) is Some,
        r matches Ok(k) ==> Some(k@) == decode_pub_key(text@),
{
    match crate::crypto::b64_standard_no_pad_decode(text) {
        Some(k) => {
            assert(k.deep_view() =~= k@);
            Ok(k)
        },
        None => match crate::crypto::b64_url_safe_no_pad_decode(text) {
            Some(k) => {
                assert(k.deep_view() =~= k@);
                Ok(k)
            },
            None => match crate::crypto::b64_standard_decode(text) {
                Ok(k) => Ok(k),
                Err(_) => crate::crypto::b64_url_safe_decode(text),
            },
        },
    }
}

/// Parses a `tsdevice:` or `sgnl://linkdevice` URI into the ephemeral id
/// and the device's public key bytes. Fails with `InvalidUri` when there is
/// no `?`, when `uuid` or `pub_key` is missing (checked in that order), or
/// when the key is not base64 in any of the four accepted flavours.
pub fn parse_device_uri(uri: &str) -> (r: Result<(String, Vec<u8>), crate::types::SignalError>)
    ensures
        match device_uri_outcome(uri.spec_bytes()) {
            Ok((id, key)) => r matches Ok((rid, rkey)) && rid@ == id && rkey@ == key,
            Err(e) => r matches Err(crate::types::SignalError::InvalidUri(m)) && is_uri_error_message(e, m@),
        },
{
    let b = uri.as_bytes();
    let n = b.len();
    let q = match find_byte(b, 63u8) {
        Some(q) => q,
        None => return Err(uri_error(DeviceUriError::NoQuery)),
    };
    let query = copy_range(b, q + 1, n);
    let segs = split_bytes(query.as_slice(), 38u8);
    let uuid_name: Vec<u8> = vec![117u8, 117, 105, 100];
    let pub_key_name: Vec<u8> = vec![112u8, 117, 98, 95, 107, 101, 121];
    assert(uuid_name@ == uuid_key());
    assert(pub_key_name@ == pub_key_key());
    assert(query@ == query_of(uri.spec_bytes())->0);
    let uuid_raw = match find_param(&segs, uuid_name.as_slice()) {
        Some(u) => u,
        None => return Err(uri_error(DeviceUriError::MissingUuid)),
    };
    let key_raw = match find_param(&segs, pub_key_name.as_slice()) {
        Some(k) => k,
        None => return Err(uri_error(DeviceUriError::MissingPubKey)),
    };
    let uuid = string_from_utf8_lossy(percent_decode_bytes(uuid_raw.as_slice()).as_slice());
    let key_text = string_from_utf8_lossy(percent_decode_bytes(key_raw.as_slice()).as_slice());
    let key_bytes = key_text.as_str().as_bytes();
    assert(key_bytes@ == encode_utf8(lossy_text(percent_decode_spec(key_raw@))));
    let ghost segv = split_spec(query@, 38u8);
    assert(lookup_param(segv, uuid_key()) == Some(uuid_raw@));
    assert(lookup_param(segv, pub_key_key()) == Some(key_raw@));
    match decode_pub_key_bytes(key_bytes) {
        Ok(k) => {
            assert(decode_pub_key(key_bytes@) == Some(k@));
            assert(device_uri_outcome(uri.spec_bytes()) == Ok::<(Seq<char>, Seq<u8>), DeviceUriError>((uuid@, k@)));
            Ok((uuid, k))
        },
        Err(detail) => {
            let mut m = String::from_str("Bad base64 in pub_key: ");
            m.append(detail.as_str());
            proof {
                reveal_strlit("Bad base64 in pub_key: ");
                assert(m@.subrange(0, 23) =~= "Bad base64 in pub_key: "@);
            }
            Err(crate::types::SignalError::InvalidUri(m))
        },
    }
}

// ---------------------------------------------------------------------------
// Laws of device URIs
// ---------------------------------------------------------------------------

proof fn lemma_split_tail_without_sep(x: Seq<u8>, b: Seq<u8>, sep: u8)
    requires
        forall|j: int| 0 <= j < b.len() ==> b[j] != sep,
    ensures
        split_spec(x + b, sep).len() == split_spec(x, sep).len(),
        split_spec(x + b, sep) == split_spec(x, sep).update(
            split_spec(x, sep).len() - 1,
            split_spec(x, sep).last() + b,
        ),
    decreases b.len(),
{
    lemma_split_nonempty(x, sep);
    let s = split_spec(x, sep);
    if b.len() == 0 {
        assert(x + b =~= x);
        assert(s.last() + b =~= s.last());
        assert(s.update(s.len() - 1, s.last() + b) =~= s);
    } else {
        let bd = b.drop_last();
        lemma_split_tail_without_sep(x, bd, sep);
        assert((x + b).drop_last() =~= x + bd);
        assert((x + b).last() == b.last());
        let r = split_spec(x + bd, sep);
        assert(r.last() == s.last() + bd);
        assert(r.last().push(b.last()) =~= s.last() + b);
        assert(r.update(r.len() - 1, r.last().push(b.last())) =~= s.update(s.len() - 1, s.last() + b));
    }
}

proof fn lemma_split_after_sep(x: Seq<u8>, sep: u8)
    ensures
        split_spec(x.push(sep), sep) == split_spec(x, sep).push(Seq::<u8>::empty()),
{
    assert(x.push(sep).drop_last() =~= x);
}

proof fn lemma_percent_decode_plain(b: Seq<u8>)
    requires
        forall|j: int| 0 <= j < b.len() ==> b[j] != 37u8 && b[j] != 43u8,
    ensures
        percent_decode_spec(b) == b,
    decreases b.len(),
{
    if b.len() > 0 {
        lemma_percent_decode_plain(b.drop_first());
        assert(seq![b[0]] + b.drop_first() =~= b);
    }
}

/// The bytes of `uuid=`.
pub open spec fn uuid_prefix() -> Seq<u8> {
    seq![117u8, 117u8, 105u8, 100u8, 61u8]
}

/// The bytes of `pub_key=`.
pub open spec fn pub_key_prefix() -> Seq<u8> {
    seq![112u8, 117u8, 98u8, 95u8, 107u8, 101u8, 121u8, 61u8]
}

/// No `&`, `%` or `+` in the bytes: a query value that needs no decoding.
pub open spec fn plain_value(b: Seq<u8>) -> bool {
    forall|j: int| 0 <= j < b.len() ==> b[j] != 38u8 && b[j] != 37u8 && b[j] != 43u8
}

/// A linking URI of the usual shape, `<scheme and path>?uuid=<id>&pub_key=<key>`
/// (no `?` before the query, values that need no percent-decoding), gives
/// the id as text and the key decoded from base64; only a key that is not
/// base64 is refused.
pub proof fn lemma_usual_device_uri(head: Seq<u8>, id: Seq<u8>, key: Seq<u8>)
    requires
        forall|j: int| 0 <= j < head.len() ==> head[j] != 63u8,
        plain_value(id),
        plain_value(key),
    ensures
        device_uri_outcome(head + seq![63u8] + uuid_prefix() + id + seq![38u8] + pub_key_prefix() + key) == match decode_pub_key(
            encode_utf8(lossy_text(key)),
        ) {
            Some(k) => Ok::<(Seq<char>, Seq<u8>), DeviceUriError>((lossy_text(id), k)),
            None => Err(DeviceUriError::BadBase64),
        },
{
    let uri = head + seq![63u8] + uuid_prefix() + id + seq![38u8] + pub_key_prefix() + key;
    let first = uuid_prefix() + id;
    let second = pub_key_prefix() + key;
    let q = first + seq![38u8] + second;
    assert(uri =~= head + (seq![63u8] + q));
    assert(uri[head.len() as int] == 63u8);
    assert forall|j: int| 0 <= j < head.len() implies uri[j] != 63u8 by {
        assert(uri[j] == head[j]);
    }
    lemma_index_of_found(uri, 63u8, head.len() as int);
    assert(query_of(uri) == Some(q)) by {
        assert(uri.subrange(head.len() as int + 1, uri.len() as int) =~= q);
    }
    assert forall|j: int| 0 <= j < first.len() implies first[j] != 38u8 by {
        if j >= 5 {
            assert(first[j] == id[j - 5]);
        }
    }
    assert forall|j: int| 0 <= j < second.len() implies second[j] != 38u8 by {
        if j >= 8 {
            assert(second[j] == key[j - 8]);
        }
    }
    lemma_split_tail_without_sep(Seq::<u8>::empty(), first, 38u8);
    assert(Seq::<u8>::empty() + first =~= first);
    assert(split_spec(Seq::<u8>::empty(), 38u8) == seq![Seq::<u8>::empty()]);
    assert(Seq::<u8>::empty() + first =~= first);
    assert(split_spec(first, 38u8) =~= seq![first]);
    lemma_split_after_sep(first, 38u8);
    assert(first.push(38u8) =~= first + seq![38u8]);
    lemma_split_tail_without_sep(first + seq![38u8], second, 38u8);
    assert(Seq::<u8>::empty() + second =~= second);
    let segs = split_spec(q, 38u8);
    assert(segs =~= seq![first, second]);
    lemma_index_of_found(second, 61u8, 7);
    assert(second.subrange(0, 7) =~= pub_key_key());
    assert(second.subrange(8, second.len() as int) =~= key);
    lemma_index_of_found(first, 61u8, 4);
    assert(first.subrange(0, 4) =~= uuid_key());
    assert(first.subrange(5, first.len() as int) =~= id);
    assert(pub_key_key() != uuid_key()) by {
        assert(pub_key_key().len() != uuid_key().len());
    }
    assert(segs.drop_last() =~= seq![first]);
    assert(seq![first].drop_last() =~= Seq::<Seq<u8>>::empty());
    assert(lookup_param(segs, pub_key_key()) == Some(key));
    assert(param_pair(second) == Some((pub_key_key(), key)));
    assert(param_pair(first) == Some((uuid_key(), id)));
    assert(seq![first].last() == first);
    assert(lookup_param(seq![first], uuid_key()) == Some(id));
    assert(segs.last() == second);
    assert(lookup_param(segs, uuid_key()) == Some(id));
    lemma_percent_decode_plain(id);
    lemma_percent_decode_plain(key);
}

/// A URI without `?` is refused as having no query parameters.
pub proof fn lemma_uri_without_query(uri: Seq<u8>)
    requires
        forall|j: int| 0 <= j < uri.len() ==> uri[j] != 63u8,
    ensures
        device_uri_outcome(uri) == Err::<(Seq<char>, Seq<u8>), DeviceUriError>(DeviceUriError::NoQuery),
{
    lemma_index_of_absent(uri, 63u8);
}

/// The messages of the refusals: no query, missing `uuid`, missing
/// `pub_key`, and a key that is not base64 (followed by the decoder's
/// reason).
pub proof fn lemma_uri_error_messages(m: Seq<char>)
    ensures
        is_uri_error_message(DeviceUriError::NoQuery, m) <==> m == "URI has no query parameters"@,
        is_uri_error_message(DeviceUriError::MissingUuid, m) <==> m == "Missing 'uuid' parameter"@,
        is_uri_error_message(DeviceUriError::MissingPubKey, m) <==> m == "Missing 'pub_key' parameter"@,
        is_uri_error_message(DeviceUriError::BadBase64, m) <==> m.len() >= 23 && m.subrange(0, 23)
            == "Bad base64 in pub_key: "@,
{
    reveal_strlit("Bad base64 in pub_key: ");
}

} // verus!
