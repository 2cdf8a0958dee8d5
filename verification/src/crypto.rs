//! Cryptographic helpers: the provisioning cipher that seals a
//! `ProvisionMessage` for a device being linked, Curve25519 key framing,
//! UUID parsing and password generation.
//!
//! The primitives (X25519, HKDF-SHA256, AES-256-CBC, HMAC-SHA256, base64,
//! the operating-system random number generator) come from their crates and
//! are reached through the small trusted items of this module; the framing
//! around them is verified here.

use vstd::prelude::*;
use vstd::string::StringSliceAdditionalSpecFns;
use vstd::slice::slice_subrange;
use base64::Engine;
use cbc::cipher::{block_padding::Pkcs7, BlockEncryptMut, KeyIvInit};
use hmac::Mac;
use rand::{Rng, RngCore};

verus! {

// ---------------------------------------------------------------------------
// Randomness
// ---------------------------------------------------------------------------

#[verifier::external_type_specification]
#[verifier::external_body]
pub struct ExStdRng(rand::rngs::StdRng);

/// `RngCore::fill_bytes`: overwrites `dest` with random bytes. Only the
/// length is claimed; the contents are chance.
#[verifier::external_body]
pub(crate) fn fill_random(rng: &mut rand::rngs::StdRng, dest: &mut Vec<u8>)
    ensures
        final(dest)@.len() == old(dest)@.len(),
{
    rng.fill_bytes(dest.as_mut_slice())
}

/// `Rng::random_range` over the inclusive range `lo..=hi`: a value inside
/// the range, chosen by chance.
#[verifier::external_body]
pub(crate) fn random_u32_in(rng: &mut rand::rngs::StdRng, lo: u32, hi: u32) -> (r: u32)
    requires
        lo <= hi,
    ensures
        lo <= r <= hi,
{
    rng.random_range(lo..=hi)
}

/// A vector of `n` random bytes.
pub fn random_bytes(rng: &mut rand::rngs::StdRng, n: usize) -> (r: Vec<u8>)
    ensures
        r@.len() == n,
{
    let mut v: Vec<u8> = Vec::new();
    let mut i: usize = 0;
    while i < n
        invariant
            i <= n,
            v@.len() == i,
        decreases n - i,
    {
        v.push(0u8);
        i = i + 1;
    }
    fill_random(rng, &mut v);
    v
}

// ---------------------------------------------------------------------------
// base64
// ---------------------------------------------------------------------------

/// What `base64::engine::general_purpose::STANDARD.encode` returns.
pub uninterp spec fn base64_standard_encode(data: Seq<u8>) -> Seq<char>;

/// What `STANDARD.decode` returns: `Some` bytes on success, `None` on error.
pub uninterp spec fn base64_standard_decode(text: Seq<u8>) -> Option<Seq<u8>>;

/// What `STANDARD_NO_PAD.decode` returns.
pub uninterp spec fn base64_standard_no_pad_decode(text: Seq<u8>) -> Option<Seq<u8>>;

/// What `URL_SAFE.decode` returns.
pub uninterp spec fn base64_url_safe_decode(text: Seq<u8>) -> Option<Seq<u8>>;

/// What `URL_SAFE_NO_PAD.decode` returns.
pub uninterp spec fn base64_url_safe_no_pad_decode(text: Seq<u8>) -> Option<Seq<u8>>;

/// Length of the padded base64 encoding of `n` bytes.
pub open spec fn padded_base64_len(n: nat) -> nat {
    4 * ((n + 2) / 3)
}

/// Bytes whose base64 encoding has a length that fits in memory.
pub open spec fn encodable_bytes(b: Seq<u8>) -> bool {
    padded_base64_len(b.len()) <= usize::MAX
}

/// Whether `n` bytes have a base64 encoding whose length fits in memory.
pub fn encodable_len(n: usize) -> (r: bool)
    ensures
        r == (padded_base64_len(n as nat) <= usize::MAX),
{
    let rem: usize = if n % 3 == 0 {
        0
    } else {
        1
    };
    assert((n as nat + 2) / 3 == n as nat / 3 + rem as nat) by (nonlinear_arith)
        requires
            rem == (if n % 3 == 0 {
                0usize
            } else {
                1usize
            }),
    ;
    n / 3 + rem <= usize::MAX / 4
}

/// `STANDARD.encode`: the padded standard-alphabet encoding. Besides naming
/// the result, claims what the crate's `encode` computes as the output size
/// (`encoded_len` with padding), that the output is ASCII, the alphabet
/// and `=` being ASCII, and that `STANDARD.decode` gives the input back
/// (the engine's canonical padded output is what its decoder accepts). Inputs so long that the size overflows are excluded,
/// `encode` panicking on them.
#[verifier::external_body]
pub(crate) fn b64_standard_encode(data: &[u8]) -> (r: String)
    requires
        padded_base64_len(data@.len() as nat) <= usize::MAX,
    ensures
        r@ == base64_standard_encode(data@),
        r@.len() == padded_base64_len(data@.len() as nat),
        vstd::string::string_is_ascii(&r),
        base64_standard_decode(vstd::utf8::encode_utf8(r@)) == Some(data@),
{
    base64::engine::general_purpose::STANDARD.encode(data)
}

/// What `URL_SAFE_NO_PAD.encode` returns.
pub uninterp spec fn base64_url_safe_no_pad_encode(data: Seq<u8>) -> Seq<char>;

/// `URL_SAFE_NO_PAD.encode`: the unpadded URL-safe encoding, named. Inputs
/// so long that the output size overflows are excluded, `encode` panicking
/// on them.
#[verifier::external_body]
pub(crate) fn b64_url_safe_no_pad_encode(data: &[u8]) -> (r: String)
    requires
        padded_base64_len(data@.len() as nat) <= usize::MAX,
    ensures
        r@ == base64_url_safe_no_pad_encode(data@),
{
    base64::engine::general_purpose::URL_SAFE_NO_PAD.encode(data)
}

/// `STANDARD.decode`; on failure the crate's description of the error.
/// Only the success value is claimed, not the text of the error.
#[verifier::external_body]
pub(crate) fn b64_standard_decode(text: &[u8]) -> (r: Result<Vec<u8>, String>)
    ensures
        r is Ok <==> base64_standard_decode(text@) is Some,
        r matches Ok(v) ==> Some(v@) == base64_standard_decode(text@),
{
    match base64::engine::general_purpose::STANDARD.decode(text) {
        Ok(v) => Ok(v),
        Err(e) => Err(e.to_string()),
    }
}

/// `STANDARD_NO_PAD.decode`, the error mapped to `None`.
#[verifier::external_body]
pub(crate) fn b64_standard_no_pad_decode(text: &[u8]) -> (r: Option<Vec<u8>>)
    ensures
        r.deep_view() == base64_standard_no_pad_decode(text@),
{
    base64::engine::general_purpose::STANDARD_NO_PAD.decode(text).ok()
}

/// `URL_SAFE.decode`; on failure the crate's description of the error.
/// Only the success value is claimed, not the text of the error.
#[verifier::external_body]
pub(crate) fn b64_url_safe_decode(text: &[u8]) -> (r: Result<Vec<u8>, String>)
    ensures
        r is Ok <==> base64_url_safe_decode(text@) is Some,
        r matches Ok(v) ==> Some(v@) == base64_url_safe_decode(text@),
{
    match base64::engine::general_purpose::URL_SAFE.decode(text) {
        Ok(v) => Ok(v),
        Err(e) => Err(e.to_string()),
    }
}

/// `URL_SAFE_NO_PAD.decode`, the error mapped to `None`.
#[verifier::external_body]
pub(crate) fn b64_url_safe_no_pad_decode(text: &[u8]) -> (r: Option<Vec<u8>>)
    ensures
        r.deep_view() == base64_url_safe_no_pad_decode(text@),
{
    base64::engine::general_purpose::URL_SAFE_NO_PAD.decode(text).ok()
}

// ---------------------------------------------------------------------------
// Curve25519 key framing
// ---------------------------------------------------------------------------

/// Signal's Curve25519 key type byte.
pub open spec fn djb_type() -> u8 {
    5
}

/// Prepends Signal's Curve25519 key type byte (0x05) to `key`.
pub fn djb_key(key: &[u8]) -> (r: Vec<u8>)
    ensures
        r@ == seq![djb_type()] + key@,
{
    let mut v: Vec<u8> = Vec::new();
    v.push(5u8);
    crate::proto::append_bytes(&mut v, key);
    v
}

// ---------------------------------------------------------------------------
// UUIDs
// ---------------------------------------------------------------------------

/// `bytes` with every `-` (0x2D) removed. On the UTF-8 bytes of a string this
/// is the bytes of the string with every `-` removed, `-` being ASCII.
pub open spec fn strip_dashes(bytes: Seq<u8>) -> Seq<u8>
    decreases bytes.len(),
{
    if bytes.len() == 0 {
        Seq::empty()
    } else {
        strip_dashes(bytes.drop_last()) + (if bytes.last() == 45u8 {
            Seq::empty()
        } else {
            seq![bytes.last()]
        })
    }
}

/// Value of an ASCII hexadecimal digit (either case).
pub open spec fn hex_digit_value(b: u8) -> Option<u8> {
    if 48 <= b <= 57 {
        Some((b - 48) as u8)
    } else if 97 <= b <= 102 {
        Some((b - 87) as u8)
    } else if 65 <= b <= 70 {
        Some((b - 55) as u8)
    } else {
        None
    }
}

/// What `u8::from_str_radix(pair, 16)` gives for a two-byte string: two hex
/// digits, or a `+` sign followed by one hex digit. No other two bytes parse
/// (a non-ASCII byte is neither a digit nor a sign).
pub open spec fn hex_pair_value(a: u8, b: u8) -> Option<u8> {
    if a == 43u8 {
        hex_digit_value(b)
    } else {
        match (hex_digit_value(a), hex_digit_value(b)) {
            (Some(x), Some(y)) => Some((x * 16 + y) as u8),
            _ => None,
        }
    }
}

/// The 16 bytes of a UUID written as 32 hexadecimal digits, `-` ignored.
/// `bytes` are the UTF-8 bytes of the UUID string.
pub open spec fn uuid_bytes_spec(bytes: Seq<u8>) -> Option<Seq<u8>> {
    let hex = strip_dashes(bytes);
    if hex.len() != 32 {
        None
    } else if forall|i: int| 0 <= i < 16 ==> #[trigger] hex_pair_value(hex[2 * i], hex[2 * i + 1]) is Some {
        Some(Seq::new(16, |i: int| hex_pair_value(hex[2 * i], hex[2 * i + 1])->0))
    } else {
        None
    }
}

/// The lower-case ASCII hexadecimal digit of `d` (below 16).
pub open spec fn hex_char(d: u8) -> u8 {
    if d < 10 {
        (48 + d) as u8
    } else {
        (87 + d) as u8
    }
}

/// The 32 lower-case hexadecimal digits of 16 bytes, high nibble first.
pub open spec fn hex_text(b: Seq<u8>) -> Seq<u8> {
    Seq::new(
        32,
        |i: int|
            if i % 2 == 0 {
                hex_char(b[i / 2] / 16)
            } else {
                hex_char(b[i / 2] % 16)
            },
    )
}

proof fn lemma_no_dashes(bytes: Seq<u8>)
    requires
        forall|j: int| 0 <= j < bytes.len() ==> bytes[j] != 45u8,
    ensures
        strip_dashes(bytes) == bytes,
    decreases bytes.len(),
{
    if bytes.len() > 0 {
        lemma_no_dashes(bytes.drop_last());
        assert(bytes.drop_last() + seq![bytes.last()] =~= bytes);
    }
}

/// The 16 bytes of a UUID written as 32 hexadecimal digits (dashes
/// anywhere are ignored) read back: the lower-case hex text of any 16
/// bytes parses to those bytes, and a text whose digit count is not 32 is
/// refused.
pub proof fn lemma_uuid_hex_reads_back(b: Seq<u8>, other: Seq<u8>)
    requires
        b.len() == 16,
    ensures
        uuid_bytes_spec(hex_text(b)) == Some(b),
        strip_dashes(other).len() != 32 ==> uuid_bytes_spec(other) is None,
{
    let h = hex_text(b);
    assert forall|j: int| 0 <= j < h.len() implies h[j] != 45u8 && h[j] != 43u8 by {}
    lemma_no_dashes(h);
    assert forall|i: int| 0 <= i < 16 implies #[trigger] hex_pair_value(h[2 * i], h[2 * i + 1]) == Some(b[i]) by {
        let hi = b[i] / 16;
        let lo = b[i] % 16;
        assert(h[2 * i] == hex_char(hi));
        assert(h[2 * i + 1] == hex_char(lo));
        assert(hex_digit_value(hex_char(hi)) == Some(hi));
        assert(hex_digit_value(hex_char(lo)) == Some(lo));
        assert(hi * 16 + lo == b[i]);
    }
    assert(Seq::new(16, |i: int| hex_pair_value(h[2 * i], h[2 * i + 1])->0) =~= b);
}

fn hex_digit(b: u8) -> (r: Option<u8>)
    ensures
        r == hex_digit_value(b),
{
    if 48 <= b && b <= 57 {
        Some(b - 48)
    } else if 97 <= b && b <= 102 {
        Some(b - 87)
    } else if 65 <= b && b <= 70 {
        Some(b - 55)
    } else {
        None
    }
}

pub(crate) fn hex_pair(a: u8, b: u8) -> (r: Option<u8>)
    ensures
        r == hex_pair_value(a, b),
{
    if a == 43u8 {
        hex_digit(b)
    } else {
        match (hex_digit(a), hex_digit(b)) {
            (Some(x), Some(y)) => Some(x * 16 + y),
            _ => None,
        }
    }
}

/// Parses a UUID string into its 16-byte binary form: the dashes are
/// dropped, 32 hexadecimal digits must remain, and each pair of digits is
/// one byte. Any other string gives `None`.
pub fn parse_uuid_bytes(uuid_str: &str) -> (r: Option<Vec<u8>>)
    ensures
        r.deep_view() == uuid_bytes_spec(uuid_str.spec_bytes()),
{
    let bytes = uuid_str.as_bytes();
    let mut hex: Vec<u8> = Vec::new();
    let mut i: usize = 0;
    while i < bytes.len()
        invariant
            i <= bytes@.len(),
            hex@ == strip_dashes(bytes@.subrange(0, i as int)),
        decreases bytes@.len() - i,
    {
        assert(bytes@.subrange(0, i + 1).drop_last() == bytes@.subrange(0, i as int));
        if bytes[i] != 45u8 {
            hex.push(bytes[i]);
        }
        i = i + 1;
    }
    assert(bytes@.subrange(0, bytes@.len() as int) == bytes@);
    let ghost h = hex@;
    if hex.len() != 32 {
        return None;
    }
    let mut out: Vec<u8> = Vec::new();
    let mut k: usize = 0;
    while k < 16
        invariant
            k <= 16,
            hex@ == h,
            h == strip_dashes(uuid_str.spec_bytes()),
            h.len() == 32,
            out@.len() == k,
            forall|j: int| 0 <= j < k ==> #[trigger] hex_pair_value(h[2 * j], h[2 * j + 1]) is Some,
            forall|j: int| 0 <= j < k ==> out@[j] == hex_pair_value(h[2 * j], h[2 * j + 1])->0,
        decreases 16 - k,
    {
        match hex_pair(hex[2 * k], hex[2 * k + 1]) {
            Some(v) => out.push(v),
            None => {
                assert(!(forall|j: int| 0 <= j < 16 ==> #[trigger] hex_pair_value(h[2 * j], h[2 * j + 1]) is Some)) by {
                    assert(hex_pair_value(h[2 * (k as int)], h[2 * (k as int) + 1]) is None);
                }
                return None;
            },
        }
        k = k + 1;
    }
    assert(out@ == Seq::new(16, |j: int| hex_pair_value(h[2 * j], h[2 * j + 1])->0));
    Some(out)
}

// ---------------------------------------------------------------------------
// Primitives of the provisioning cipher
// ---------------------------------------------------------------------------

/// What `PublicKey::from(&StaticSecret::from(secret))` holds: the X25519
/// public key of a secret key.
pub uninterp spec fn x25519_public_key(secret: Seq<u8>) -> Seq<u8>;

/// What `StaticSecret::from(secret).diffie_hellman(&PublicKey::from(their_public))`
/// holds: the X25519 shared secret.
pub uninterp spec fn x25519_shared_secret(secret: Seq<u8>, their_public: Seq<u8>) -> Seq<u8>;

/// What `Hkdf::<Sha256>::new(None, ikm).expand(info, okm)` writes into an
/// `okm` of `len` bytes.
pub uninterp spec fn hkdf_sha256_expand(ikm: Seq<u8>, info: Seq<u8>, len: nat) -> Seq<u8>;

/// What `cbc::Encryptor::<Aes256>::new_from_slices(key, iv)` followed by
/// `encrypt_padded_vec_mut::<Pkcs7>(plaintext)` returns.
pub uninterp spec fn aes256_cbc_pkcs7_encrypt(key: Seq<u8>, iv: Seq<u8>, plaintext: Seq<u8>) -> Seq<u8>;

/// What `Hmac::<Sha256>` keyed with `key`, fed `message`, finalizes to.
pub uninterp spec fn hmac_sha256(key: Seq<u8>, message: Seq<u8>) -> Seq<u8>;

/// `x25519_dalek`: the public key of the static secret `secret`.
#[verifier::external_body]
fn x25519_public(secret: &[u8]) -> (r: Vec<u8>)
    requires
        secret@.len() == 32,
    ensures
        r@ == x25519_public_key(secret@),
        r@.len() == 32,
{
    let mut s = [0u8; 32];
    s.copy_from_slice(secret);
    x25519_dalek::PublicKey::from(&x25519_dalek::StaticSecret::from(s)).to_bytes().to_vec()
}

/// `x25519_dalek`: Diffie-Hellman between the static secret `secret` and
/// the public key `their_public`. Also claims the agreement the crate
/// documents: the owner of `their_public`'s secret, doing Diffie-Hellman
/// with the public key of `secret`, gets the same shared secret.
#[verifier::external_body]
fn x25519_dh(secret: &[u8], their_public: &[u8]) -> (r: Vec<u8>)
    requires
        secret@.len() == 32,
        their_public@.len() == 32,
    ensures
        r@ == x25519_shared_secret(secret@, their_public@),
        forall|d: Seq<u8>|
            d.len() == 32 && #[trigger] x25519_public_key(d) == their_public@ ==> r@ == x25519_shared_secret(
                d,
                x25519_public_key(secret@),
            ),
{
    let mut s = [0u8; 32];
    s.copy_from_slice(secret);
    let mut p = [0u8; 32];
    p.copy_from_slice(their_public);
    let shared = x25519_dalek::StaticSecret::from(s).diffie_hellman(&x25519_dalek::PublicKey::from(p));
    shared.as_bytes().to_vec()
}

/// `hkdf`: HKDF-SHA256 without salt, expanded to `len` bytes. The crate's
/// `expand` fails exactly when `len` exceeds 255 hash lengths (8160 bytes).
#[verifier::external_body]
fn hkdf_sha256_no_salt(ikm: &[u8], info: &[u8], len: usize) -> (r: Option<Vec<u8>>)
    ensures
        r is Some <==> len <= 8160,
        r matches Some(okm) ==> okm@ == hkdf_sha256_expand(ikm@, info@, len as nat) && okm@.len()
            == len,
{
    let hk = hkdf::Hkdf::<sha2::Sha256>::new(None, ikm);
    let mut okm = vec![0u8; len];
    match hk.expand(info, &mut okm) {
        Ok(()) => Some(okm),
        Err(_) => None,
    }
}

/// Length of a PKCS#7-padded message of `n` bytes: padding always adds
/// between 1 and 16 bytes, up to the next multiple of the block size.
pub open spec fn pkcs7_padded_len(n: nat) -> nat {
    16 * (n / 16 + 1)
}

/// `cbc` + `aes`: AES-256-CBC with PKCS#7 padding. `new_from_slices` fails
/// exactly when the key is not 32 bytes or the IV not 16 bytes; the
/// ciphertext is the padded length, and (the mode being decryptable under
/// the same key and IV) no other plaintext encrypts to it. Inputs whose
/// padded length would overflow are excluded, the output buffer size
/// computation overflowing.
#[verifier::external_body]
fn aes256_cbc_pkcs7(key: &[u8], iv: &[u8], plaintext: &[u8]) -> (r: Option<Vec<u8>>)
    requires
        plaintext@.len() + 16 <= usize::MAX,
    ensures
        r is Some <==> (key@.len() == 32 && iv@.len() == 16),
        r matches Some(c) ==> c@ == aes256_cbc_pkcs7_encrypt(key@, iv@, plaintext@) && c@.len()
            == pkcs7_padded_len(plaintext@.len() as nat),
        r matches Some(c) ==> forall|p: Seq<u8>|
            #[trigger] aes256_cbc_pkcs7_encrypt(key@, iv@, p) == c@ ==> p == plaintext@,
{
    match cbc::Encryptor::<aes::Aes256>::new_from_slices(key, iv) {
        Ok(c) => Some(c.encrypt_padded_vec_mut::<Pkcs7>(plaintext)),
        Err(_) => None,
    }
}

/// `hmac` + `sha2`: HMAC-SHA256 of `message` under `key`. `new_from_slice`
/// accepts keys of every length; the tag is 32 bytes.
#[verifier::external_body]
fn hmac_sha256_tag(key: &[u8], message: &[u8]) -> (r: Option<Vec<u8>>)
    ensures
        r is Some,
        r matches Some(t) ==> t@ == hmac_sha256(key@, message@) && t@.len() == 32,
{
    match <hmac::Hmac<sha2::Sha256> as Mac>::new_from_slice(key) {
        Ok(mut mac) => {
            mac.update(message);
            Some(mac.finalize().into_bytes().to_vec())
        },
        Err(_) => None,
    }
}

// ---------------------------------------------------------------------------
// Provisioning cipher
// ---------------------------------------------------------------------------

/// Version byte that starts every provisioning envelope body.
pub open spec fn provisioning_version() -> u8 {
    1
}

/// HKDF info string: the bytes of "TextSecure Provisioning Message".
pub open spec fn provisioning_info() -> Seq<u8> {
    seq![
        84u8, 101, 120, 116, 83, 101, 99, 117, 114, 101, 32, 80, 114, 111, 118, 105, 115, 105, 111,
        110, 105, 110, 103, 32, 77, 101, 115, 115, 97, 103, 101,
    ]
}

/// The 64 bytes of key material derived from a shared secret; the first 32
/// are the AES key, the last 32 the HMAC key.
pub open spec fn provisioning_key_material(shared: Seq<u8>) -> Seq<u8> {
    hkdf_sha256_expand(shared, provisioning_info(), 64)
}

/// Body of a provisioning envelope: `VERSION || IV || CIPHERTEXT || MAC`,
/// where the MAC covers `VERSION || IV || CIPHERTEXT`.
pub open spec fn provision_body(shared: Seq<u8>, iv: Seq<u8>, plaintext: Seq<u8>) -> Seq<u8> {
    let km = provisioning_key_material(shared);
    let ct = aes256_cbc_pkcs7_encrypt(km.subrange(0, 32), iv, plaintext);
    let authed = seq![provisioning_version()] + iv + ct;
    authed + hmac_sha256(km.subrange(32, 64), authed)
}

/// The envelope that carries `plaintext` to the device whose X25519 public
/// key is `device_pub`, sealed with the ephemeral secret `secret` and `iv`:
/// the DJB-framed ephemeral public key and the body.
pub open spec fn sealed_public_key(secret: Seq<u8>) -> Seq<u8> {
    seq![djb_type()] + x25519_public_key(secret)
}

pub open spec fn sealed_body(plaintext: Seq<u8>, device_pub: Seq<u8>, secret: Seq<u8>, iv: Seq<u8>) -> Seq<u8> {
    provision_body(x25519_shared_secret(secret, device_pub), iv, plaintext)
}

/// `e` is the envelope of `plaintext` sealed for `device_pub` with the
/// ephemeral secret `secret` and `iv`.
pub open spec fn is_sealed_envelope(
    e: &crate::proto::ProvisionEnvelope,
    plaintext: Seq<u8>,
    device_pub: Seq<u8>,
    secret: Seq<u8>,
    iv: Seq<u8>,
) -> bool {
    &&& e.public_key.deep_view() == Some(sealed_public_key(secret))
    &&& e.body.deep_view() == Some(sealed_body(plaintext, device_pub, secret, iv))
}

/// What the device holding the X25519 secret `device_secret` finds in a
/// body `b` sealed with the DJB-framed public key `k`: with the key
/// material from its own shared secret, the MAC over version, IV and
/// ciphertext checks, and the ciphertext is the AES-256-CBC encryption,
/// under the body's IV, of `plaintext` and of nothing else, so it
/// decrypts to `plaintext`.
pub open spec fn opens_body(k: Seq<u8>, b: Seq<u8>, device_secret: Seq<u8>, plaintext: Seq<u8>) -> bool {
    let km = provisioning_key_material(x25519_shared_secret(device_secret, k.subrange(1, 33)));
    let n = b.len() as int;
    &&& hmac_sha256(km.subrange(32, 64), b.subrange(0, n - 32)) == b.subrange(n - 32, n)
    &&& forall|p: Seq<u8>|
        #[trigger] aes256_cbc_pkcs7_encrypt(km.subrange(0, 32), b.subrange(1, 17), p) == b.subrange(17, n - 32)
            <==> p == plaintext
}

/// The envelope opens, for the device holding `device_secret`, to
/// `plaintext`.
pub open spec fn opens_to(e: &crate::proto::ProvisionEnvelope, device_secret: Seq<u8>, plaintext: Seq<u8>) -> bool {
    &&& e.public_key is Some
    &&& e.body is Some
    &&& e.public_key->Some_0@.len() == 33
    &&& e.body->Some_0@.len() >= 49
    &&& opens_body(e.public_key->Some_0@, e.body->Some_0@, device_secret, plaintext)
}

/// The framing every sealed envelope has: a 33-byte DJB public key, and a
/// body made of the version byte, the 16-byte IV, the padded ciphertext and
/// a 32-byte MAC.
pub open spec fn has_envelope_shape(
    e: &crate::proto::ProvisionEnvelope,
    plaintext_len: nat,
    iv: Seq<u8>,
) -> bool {
    &&& e.public_key matches Some(k) && k@.len() == 33 && k@[0] == djb_type()
    &&& e.body matches Some(b) && b@.len() == 1 + 16 + pkcs7_padded_len(plaintext_len) + 32
        && b@[0] == provisioning_version() && b@.subrange(1, 17) == iv
}

/// Seals `msg` for `device_pub` with the given ephemeral secret and IV
/// (Signal's `ProvisioningCipher`): X25519 with the device key, HKDF-SHA256
/// into an AES-256 key and an HMAC-SHA256 key, AES-256-CBC/PKCS#7 over the
/// encoded message, HMAC over version, IV and ciphertext.
#[verifier::rlimit(40)]
pub fn seal_provision_message(
    msg: &crate::proto::ProvisionMessage,
    device_pub: &[u8],
    ephemeral_secret: &[u8],
    iv: &[u8],
) -> (r: crate::proto::ProvisionEnvelope)
    requires
        device_pub@.len() == 32,
        ephemeral_secret@.len() == 32,
        iv@.len() == 16,
        crate::proto::provision_message_bytes(msg).len() + 16 <= usize::MAX,
    ensures
        is_sealed_envelope(&r, crate::proto::provision_message_bytes(msg), device_pub@, ephemeral_secret@, iv@),
        has_envelope_shape(&r, crate::proto::provision_message_bytes(msg).len(), iv@),
        forall|d: Seq<u8>|
            d.len() == 32 && #[trigger] x25519_public_key(d) == device_pub@ ==> opens_to(
                &r,
                d,
                crate::proto::provision_message_bytes(msg),
            ),
{
    let ephemeral_public = x25519_public(ephemeral_secret);
    let shared = x25519_dh(ephemeral_secret, device_pub);
    let info: Vec<u8> = vec![
        84u8, 101, 120, 116, 83, 101, 99, 117, 114, 101, 32, 80, 114, 111, 118, 105, 115, 105, 111,
        110, 105, 110, 103, 32, 77, 101, 115, 115, 97, 103, 101,
    ];
    assert(info@ == provisioning_info());
    let km = hkdf_sha256_no_salt(shared.as_slice(), info.as_slice(), 64).unwrap();
    let aes_key = slice_subrange(km.as_slice(), 0, 32);
    let mac_key = slice_subrange(km.as_slice(), 32, 64);
    let plaintext = msg.encode_to_vec();
    let ciphertext = aes256_cbc_pkcs7(aes_key, iv, plaintext.as_slice()).unwrap();
    let mut authed: Vec<u8> = Vec::new();
    authed.push(1u8);
    crate::proto::append_bytes(&mut authed, iv);
    crate::proto::append_bytes(&mut authed, ciphertext.as_slice());
    let ghost authed_v = authed@;
    assert(authed_v == seq![provisioning_version()] + iv@ + ciphertext@);
    let mac = hmac_sha256_tag(mac_key, authed.as_slice()).unwrap();
    let mut body = authed;
    crate::proto::append_bytes(&mut body, mac.as_slice());
    assert(body@ == authed_v + mac@);
    assert(body@[0] == provisioning_version());
    assert(body@.subrange(1, 17) == iv@);
    assert(body@ == provision_body(shared@, iv@, plaintext@));
    let public_key = djb_key(ephemeral_public.as_slice());
    assert(public_key.deep_view() =~= public_key@);
    assert(body.deep_view() =~= body@);
    proof {
        let n = body@.len() as int;
        assert(public_key@.subrange(1, 33) =~= ephemeral_public@);
        assert(body@.subrange(0, n - 32) =~= authed_v);
        assert(body@.subrange(n - 32, n) =~= mac@);
        assert(body@.subrange(17, n - 32) =~= ciphertext@);
        assert(aes_key@ == km@.subrange(0, 32));
        assert(mac_key@ == km@.subrange(32, 64));
        assert forall|d: Seq<u8>| d.len() == 32 && #[trigger] x25519_public_key(d) == device_pub@ implies opens_body(
            public_key@,
            body@,
            d,
            plaintext@,
        ) by {
            assert(x25519_shared_secret(d, public_key@.subrange(1, 33)) == shared@);
        }
    }
    crate::proto::ProvisionEnvelope { public_key: Some(public_key), body: Some(body) }
}

/// Encrypts `msg` for `device_pub` with a fresh ephemeral X25519 secret and
/// a fresh IV drawn from `rng`. Never fails; the result is the sealed
/// envelope for some 32-byte secret and 16-byte IV.
pub fn encrypt_provision_message(
    msg: &crate::proto::ProvisionMessage,
    device_pub: &[u8],
    rng: &mut rand::rngs::StdRng,
) -> (r: Result<crate::proto::ProvisionEnvelope, crate::types::SignalError>)
    requires
        device_pub@.len() == 32,
        crate::proto::provision_message_bytes(msg).len() + 16 <= usize::MAX,
    ensures
        r is Ok,
        r matches Ok(e) ==> exists|secret: Seq<u8>, iv: Seq<u8>|
            secret.len() == 32 && iv.len() == 16 && #[trigger] is_sealed_envelope(
                &e,
                crate::proto::provision_message_bytes(msg),
                device_pub@,
                secret,
                iv,
            ) && has_envelope_shape(&e, crate::proto::provision_message_bytes(msg).len(), iv),
        r matches Ok(e) ==> forall|d: Seq<u8>|
            d.len() == 32 && #[trigger] x25519_public_key(d) == device_pub@ ==> opens_to(
                &e,
                d,
                crate::proto::provision_message_bytes(msg),
            ),
{
    let secret = random_bytes(rng, 32);
    let iv = random_bytes(rng, 16);
    let e = seal_provision_message(msg, device_pub, secret.as_slice(), iv.as_slice());
    Ok(e)
}

/// Generates the account password: 20 random bytes, base64-encoded (28
/// characters).
pub fn random_password(rng: &mut rand::rngs::StdRng) -> (r: String)
    ensures
        exists|b: Seq<u8>| b.len() == 20 && r@ == #[trigger] base64_standard_encode(b),
        exists|b: Seq<u8>| b.len() == 20 && #[trigger] base64_standard_decode(vstd::utf8::encode_utf8(r@)) == Some(b),
        r@.len() == 28,
        vstd::string::string_is_ascii(&r),
{
    let bytes = random_bytes(rng, 20);
    b64_standard_encode(bytes.as_slice())
}

} // verus!
