//! The device-linking flow: Signal Desktop shows a `sgnl://linkdevice` (or
//! `tsdevice:/`) URI; the primary device fetches a provisioning code,
//! seals a `ProvisionMessage` for the new device's key and delivers it, then
//! sends the new device an empty sync message so that it leaves its
//! "syncing" screen.
//!
//! The flow is a state machine. `start_link` checks the URI and the account
//! and gives the first request; `link_step` takes the state and what came
//! back and gives the next request, a request to encrypt the sync message
//! with the Signal Protocol (done by the caller), or the outcome. Once the
//! provisioning message is delivered, linking has succeeded: failures of
//! the sync that follows end the flow with success.

use vstd::prelude::*;
use vstd::string::StringSliceAdditionalSpecFns;
use crate::crypto::{base64_standard_decode, base64_standard_encode, b64_standard_decode, b64_standard_encode};
use crate::http::{is_status_error, is_success, parse_reply, unexpected_reply, unexpected_reply_text};
use crate::proto::{provision_envelope_bytes, provision_message_bytes, ProvisionEnvelope, ProvisionMessage};
use crate::crypto::{is_sealed_envelope, uuid_bytes_spec, parse_uuid_bytes};
use crate::http::{strip_prefix, strip_prefix_spec};
use vstd::utf8::encode_utf8;
use crate::types::{SignalAccount, SignalError};
use crate::text::{decimal, decimal_spec};
use crate::uri::{device_uri_outcome, is_uri_error_message, parse_device_uri};

verus! {

// ---------------------------------------------------------------------------
// Starting the flow
// ---------------------------------------------------------------------------

/// The Curve25519 key of the new device: the URI carries it DJB-encoded
/// (type byte 0x05 and 32 bytes), or bare (32 bytes).
pub open spec fn device_key_spec(key: Seq<u8>) -> Option<Seq<u8>> {
    if key.len() == 33 && key[0] == 5 {
        Some(key.subrange(1, 33))
    } else if key.len() == 32 {
        Some(key)
    } else {
        None
    }
}

/// The message given for a key of any other length.
pub open spec fn key_length_text(n: nat) -> Seq<char> {
    "Unexpected public key length: "@ + decimal_spec(n)
}

/// Strips the DJB type byte from the device key.
pub fn device_public_key(key: &[u8]) -> (r: Result<Vec<u8>, SignalError>)
    ensures
        match device_key_spec(key@) {
            Some(k) => r matches Ok(v) && v@ == k,
            None => r matches Err(SignalError::InvalidUri(m)) && m@ == key_length_text(key@.len()),
        },
{
    if key.len() == 33 && key[0] == 5u8 {
        Ok(crate::uri::copy_range(key, 1, 33))
    } else if key.len() == 32 {
        Ok(crate::uri::copy_range(key, 0, 32))
    } else {
        let mut m = String::from_str("Unexpected public key length: ");
        let d = decimal(key.len());
        m.append(d.as_str());
        proof {
            reveal_strlit("Unexpected public key length: ");
        }
        Err(SignalError::InvalidUri(m))
    }
}

/// The public and private halves of the account's identity key pairs, as
/// the Signal Protocol layer serializes them (public keys DJB-encoded).
pub struct IdentityKeyParts {
    pub aci_public: Vec<u8>,
    pub aci_private: Vec<u8>,
    pub pni_public: Vec<u8>,
    pub pni_private: Vec<u8>,
}

/// What the provisioning message is built from.
pub struct LinkContext {
    /// The new device's provisioning address, from the URI.
    pub ephemeral_id: String,
    /// The new device's 32-byte Curve25519 key.
    pub device_key: Vec<u8>,
    pub phone: String,
    pub password: String,
    pub aci: String,
    pub pni: Option<String>,
    pub profile_key: Vec<u8>,
    pub master_key: Vec<u8>,
    pub keys: IdentityKeyParts,
}

/// The message given when the account has no ACI.
pub open spec fn missing_aci_text() -> Seq<char> {
    "ACI UUID is missing; cannot authenticate with Signal"@
}

/// The context built from an account, its identity key halves, and what
/// the URI gave.
pub open spec fn context_of(
    c: &LinkContext,
    account: &SignalAccount,
    keys: &IdentityKeyParts,
    ephemeral_id: Seq<char>,
    device_key: Seq<u8>,
) -> bool {
    &&& c.ephemeral_id@ == ephemeral_id
    &&& c.device_key@ == device_key
    &&& c.phone@ == account.phone@
    &&& c.password@ == account.password@
    &&& account.aci matches Some(a) && c.aci@ == a@
    &&& c.pni.deep_view() == account.pni.deep_view()
    &&& c.profile_key@ == account.profile_key@
    &&& c.master_key@ == account.master_key@
    &&& c.keys.aci_public@ == keys.aci_public@
    &&& c.keys.aci_private@ == keys.aci_private@
    &&& c.keys.pni_public@ == keys.pni_public@
    &&& c.keys.pni_private@ == keys.pni_private@
}

/// A request of the linking flow.
pub enum LinkCall {
    /// `GET /v1/devices/provisioning/code`, authenticated as `aci`.
    FetchProvisioningCode { aci: String, password: String },
    /// `PUT /v1/provisioning/{ephemeral_id}` with `{"body": body}`.
    SendEnvelope { ephemeral_id: String, aci: String, password: String, body: String },
    /// `GET /v2/keys/{aci}/{device_id}` after waiting `delay_secs` seconds.
    FetchPreKeys { aci: String, password: String, device_id: u32, delay_secs: u64 },
    /// `PUT /v1/messages/{aci}` with `message` (and the current time as the
    /// timestamp, not online).
    SendSync { aci: String, password: String, message: OutgoingMessage },
}

/// One message of `PUT /v1/messages`.
pub struct OutgoingMessage {
    /// 3 for a pre-key message, 1 for a whisper message.
    pub message_type: u32,
    pub destination_device_id: u32,
    pub destination_registration_id: u32,
    /// Base64 of the serialized ciphertext.
    pub content: String,
}

/// Where the linking flow stands.
pub enum LinkStage {
    /// The provisioning code was asked for.
    AwaitingCode { context: LinkContext },
    /// The sealed provisioning message was sent.
    AwaitingDelivery { aci: String, password: String },
    /// The new device's pre-keys were asked for.
    AwaitingPreKeys { aci: String, password: String },
    /// The sync message is being encrypted for the new device.
    AwaitingCiphertext { aci: String, password: String, registration_id: u32 },
    /// The sync message was sent.
    AwaitingSyncResult,
    Finished,
}

/// Checks the URI and the account and asks for a provisioning code: the
/// URI's errors come first, then a key of the wrong length, then an
/// account without ACI.
pub fn start_link(account: &SignalAccount, keys: IdentityKeyParts, device_uri: &str) -> (r: Result<
    (LinkStage, LinkCall),
    SignalError,
>)
    ensures
        match device_uri_outcome(device_uri.spec_bytes()) {
            Err(e) => r matches Err(SignalError::InvalidUri(m)) && is_uri_error_message(e, m@),
            Ok((id, key)) => match device_key_spec(key) {
                None => r matches Err(SignalError::InvalidUri(m)) && m@ == key_length_text(key.len()),
                Some(k) => match account.aci {
                    None => r matches Err(SignalError::Other(m)) && m@ == missing_aci_text(),
                    Some(a) => {
                        &&& r matches Ok((LinkStage::AwaitingCode { context }, _))
                        &&& context_of(&r->Ok_0.0->context, account, &keys, id, k)
                        &&& r->Ok_0.1 matches LinkCall::FetchProvisioningCode { aci, password }
                        &&& aci@ == a@
                        &&& password@ == account.password@
                    },
                },
            },
        },
{
    let (ephemeral_id, key_bytes) = match parse_device_uri(device_uri) {
        Ok(p) => p,
        Err(e) => return Err(e),
    };
    let device_key = match device_public_key(key_bytes.as_slice()) {
        Ok(k) => k,
        Err(e) => return Err(e),
    };
    let aci = match &account.aci {
        Some(a) => a.clone(),
        None => {
            return Err(SignalError::Other(String::from_str("ACI UUID is missing; cannot authenticate with Signal")));
        },
    };
    let context = LinkContext {
        ephemeral_id,
        device_key,
        phone: account.phone.clone(),
        password: account.password.clone(),
        aci: aci.clone(),
        pni: match &account.pni {
            Some(p) => Some(p.clone()),
            None => None,
        },
        profile_key: account.profile_key.clone(),
        master_key: account.master_key.clone(),
        keys,
    };
    let call = LinkCall::FetchProvisioningCode { aci, password: account.password.clone() };
    Ok((LinkStage::AwaitingCode { context }, call))
}

// ---------------------------------------------------------------------------
// The provisioning message
// ---------------------------------------------------------------------------

/// The PNI without its `PNI:` service-id prefix.
pub open spec fn plain_pni(c: &LinkContext) -> Option<Seq<char>> {
    match c.pni {
        Some(p) => Some(strip_prefix_spec(p@, "PNI:"@)),
        None => None,
    }
}

/// The provisioning message for a context and the provisioning code:
/// the identity key halves, the number, the code, provisioning version 1
/// (tablet support), ACI and plain PNI as text and as 16 UUID bytes (absent
/// when they do not parse), profile and master keys; no user agent, no
/// read-receipts setting.
pub open spec fn provision_message_of(m: &ProvisionMessage, c: &LinkContext, code: Seq<char>) -> bool {
    &&& m.aci_identity_key_public.deep_view() == Some(c.keys.aci_public@)
    &&& m.aci_identity_key_private.deep_view() == Some(c.keys.aci_private@)
    &&& m.pni_identity_key_public.deep_view() == Some(c.keys.pni_public@)
    &&& m.pni_identity_key_private.deep_view() == Some(c.keys.pni_private@)
    &&& m.number.deep_view() == Some(c.phone@)
    &&& m.provisioning_code.deep_view() == Some(code)
    &&& m.provisioning_version == Some(1u32)
    &&& m.aci.deep_view() == Some(c.aci@)
    &&& m.pni.deep_view() == plain_pni(c)
    &&& m.profile_key.deep_view() == Some(c.profile_key@)
    &&& m.master_key.deep_view() == Some(c.master_key@)
    &&& m.user_agent is None
    &&& m.read_receipts is None
    &&& m.aci_binary.deep_view() == uuid_bytes_spec(encode_utf8(c.aci@))
    &&& m.pni_binary.deep_view() == match plain_pni(c) {
        Some(p) => uuid_bytes_spec(encode_utf8(p)),
        None => None,
    }
}

fn copy_bytes(v: &Vec<u8>) -> (r: Vec<u8>)
    ensures
        r@ == v@,
{
    crate::uri::copy_range(v.as_slice(), 0, v.len())
}

/// Builds the provisioning message.
pub fn provision_message(c: &LinkContext, code: String) -> (m: ProvisionMessage)
    ensures
        provision_message_of(&m, c, code@),
{
    let pni = match &c.pni {
        Some(p) => {
            proof {
                reveal_strlit("PNI:");
            }
            Some(strip_prefix(p.as_str(), "PNI:"))
        },
        None => None,
    };
    let aci_binary = parse_uuid_bytes(c.aci.as_str());
    let pni_binary = match &pni {
        Some(p) => parse_uuid_bytes(p.as_str()),
        None => None,
    };
    let m = ProvisionMessage {
        aci_identity_key_public: Some(copy_bytes(&c.keys.aci_public)),
        aci_identity_key_private: Some(copy_bytes(&c.keys.aci_private)),
        number: Some(c.phone.clone()),
        provisioning_code: Some(code),
        user_agent: None,
        profile_key: Some(copy_bytes(&c.profile_key)),
        read_receipts: None,
        aci: Some(c.aci.clone()),
        provisioning_version: Some(1u32),
        pni,
        pni_identity_key_public: Some(copy_bytes(&c.keys.pni_public)),
        pni_identity_key_private: Some(copy_bytes(&c.keys.pni_private)),
        master_key: Some(copy_bytes(&c.master_key)),
        aci_binary,
        pni_binary,
    };
    assert(m.aci_identity_key_public.deep_view() == Some(c.keys.aci_public@));
    assert(m.aci_identity_key_private.deep_view() == Some(c.keys.aci_private@));
    assert(m.pni_identity_key_public.deep_view() == Some(c.keys.pni_public@));
    assert(m.pni_identity_key_private.deep_view() == Some(c.keys.pni_private@));
    assert(m.provisioning_code.deep_view() == Some(code@));
    assert(m.aci.deep_view() == Some(c.aci@));
    assert(m.profile_key.deep_view() == Some(c.profile_key@));
    assert(m.master_key.deep_view() == Some(c.master_key@));
    assert(m.number.deep_view() == Some(c.phone@));
    assert(m.pni.deep_view() == plain_pni(c));
    assert(m.aci_binary.deep_view() == uuid_bytes_spec(encode_utf8(c.aci@)));
    assert(m.pni_binary.deep_view() == match plain_pni(c) {
        Some(p) => uuid_bytes_spec(encode_utf8(p)),
        None => None,
    });
    m
}

/// The provisioning message fits the machine with room to spare for its
/// sealing and base64 encoding.
pub open spec fn provision_fits(c: &LinkContext, code: Seq<char>) -> bool {
    forall|m: ProvisionMessage| #[trigger] provision_message_of(&m, c, code) ==> provision_message_bytes(&m).len()
        <= usize::MAX / 8
}

/// `body` is the base64 of an envelope that seals `m` for `device_key`
/// with some 32-byte ephemeral secret and 16-byte IV, and that the device
/// holding the secret of `device_key` opens to the encoding of `m`.
pub open spec fn envelope_body_of(body: Seq<char>, m: &ProvisionMessage, device_key: Seq<u8>) -> bool {
    exists|e: ProvisionEnvelope, secret: Seq<u8>, iv: Seq<u8>|
        #![trigger is_sealed_envelope(&e, provision_message_bytes(m), device_key, secret, iv)]
        secret.len() == 32 && iv.len() == 16 && is_sealed_envelope(&e, provision_message_bytes(m), device_key, secret, iv)
            && body == base64_standard_encode(provision_envelope_bytes(&e)) && opened_by_device(&e, m, device_key)
}

/// The device holding the secret of `device_key` opens `e` to the encoding
/// of `m`.
pub open spec fn opened_by_device(e: &ProvisionEnvelope, m: &ProvisionMessage, device_key: Seq<u8>) -> bool {
    forall|d: Seq<u8>|
        d.len() == 32 && #[trigger] crate::crypto::x25519_public_key(d) == device_key ==> crate::crypto::opens_to(
            e,
            d,
            provision_message_bytes(m),
        )
}

/// Seals `m` for the device and base64-encodes the envelope's wire bytes,
/// the body of the provisioning request.
pub fn sealed_envelope_body(m: &ProvisionMessage, device_key: &[u8], rng: &mut rand::rngs::StdRng) -> (r: String)
    requires
        device_key@.len() == 32,
        provision_message_bytes(m).len() <= usize::MAX / 8,
    ensures
        envelope_body_of(r@, m, device_key@),
{
    let sealed = crate::crypto::encrypt_provision_message(m, device_key, rng);
    let e = match sealed {
        Ok(e) => e,
        Err(_) => {
            assert(false);
            return String::new();
        },
    };
    let ghost n = provision_message_bytes(m).len();
    let ghost (secret, iv) = choose|secret: Seq<u8>, iv: Seq<u8>|
        secret.len() == 32 && iv.len() == 16 && #[trigger] is_sealed_envelope(&e, provision_message_bytes(m), device_key@, secret, iv)
            && crate::crypto::has_envelope_shape(&e, n, iv);
    let bytes = e.encode_to_vec();
    proof {
        let pk = e.public_key->Some_0@;
        let b = e.body->Some_0@;
        crate::proto::lemma_varint_len_bound(b.len());
        crate::proto::lemma_varint_len_bound(33);
        crate::proto::lemma_varint_len_bound(10);
        crate::proto::lemma_varint_len_bound(18);
        assert(crate::proto::varint_spec(10).len() == 1);
        assert(crate::proto::varint_spec(18).len() == 1);
        assert(crate::proto::varint_spec(33).len() == 1);
        assert(b.len() <= n + 65);
        assert(bytes@.len() <= 2 * n + 200);
    }
    let r = b64_standard_encode(bytes.as_slice());
    assert(opened_by_device(&e, m, device_key@));
    assert(is_sealed_envelope(&e, provision_message_bytes(m), device_key@, secret, iv));
    r
}

// ---------------------------------------------------------------------------
// The new device's pre-keys
// ---------------------------------------------------------------------------

/// A pre-key of the keys reply; the signature is only given for signed
/// pre-keys.
pub struct PreKeyEntry {
    pub key_id: u32,
    pub public_key: String,
    pub signature: Option<String>,
}

/// A Kyber pre-key of the keys reply.
pub struct PqPreKeyEntry {
    pub key_id: u32,
    pub public_key: String,
    pub signature: String,
}

/// The keys of one device.
pub struct DeviceKeys {
    pub registration_id: u32,
    pub pre_key: Option<PreKeyEntry>,
    pub signed_pre_key: PreKeyEntry,
    pub pq_pre_key: Option<PqPreKeyEntry>,
}

/// The reply to `FetchPreKeys`.
pub struct KeyResponse {
    pub identity_key: String,
    pub devices: Vec<DeviceKeys>,
}

/// The new device's pre-key bundle, decoded from base64.
pub struct PreKeyBundle {
    pub identity_key: Vec<u8>,
    pub registration_id: u32,
    pub signed_prekey_id: u32,
    pub signed_prekey: Vec<u8>,
    /// Empty when the reply gives no signature.
    pub signed_prekey_signature: Vec<u8>,
    pub kyber_prekey_id: Option<u32>,
    pub kyber_prekey: Option<Vec<u8>>,
    pub kyber_prekey_signature: Option<Vec<u8>>,
    pub one_time_prekey_id: Option<u32>,
    pub one_time_prekey: Option<Vec<u8>>,
}

/// `s` is base64 (standard alphabet, padded).
pub open spec fn is_b64(s: Seq<char>) -> bool {
    crate::types::decoded(s) is Some
}

/// The bytes that the base64 text `s` stands for.
pub open spec fn b64_bytes(s: Seq<char>) -> Seq<u8> {
    crate::types::decoded(s)->Some_0
}

/// Every base64 field of the device's keys decodes.
pub open spec fn bundle_decodes(identity_key: Seq<char>, d: &DeviceKeys) -> bool {
    &&& is_b64(identity_key)
    &&& is_b64(d.signed_pre_key.public_key@)
    &&& (d.signed_pre_key.signature matches Some(sig) ==> is_b64(sig@))
    &&& (d.pre_key matches Some(pk) ==> is_b64(pk.public_key@))
    &&& (d.pq_pre_key matches Some(pq) ==> is_b64(pq.public_key@) && is_b64(pq.signature@))
}

/// The bundle decoded from the identity key and the device's keys.
pub open spec fn bundle_of(b: &PreKeyBundle, identity_key: Seq<char>, d: &DeviceKeys) -> bool {
    &&& b.identity_key@ == b64_bytes(identity_key)
    &&& b.registration_id == d.registration_id
    &&& b.signed_prekey_id == d.signed_pre_key.key_id
    &&& b.signed_prekey@ == b64_bytes(d.signed_pre_key.public_key@)
    &&& b.signed_prekey_signature@ == match d.signed_pre_key.signature {
        Some(sig) => b64_bytes(sig@),
        None => Seq::<u8>::empty(),
    }
    &&& match d.pre_key {
        Some(pk) => b.one_time_prekey_id == Some(pk.key_id) && b.one_time_prekey.deep_view() == Some(
            b64_bytes(pk.public_key@),
        ),
        None => b.one_time_prekey_id is None && b.one_time_prekey is None,
    }
    &&& match d.pq_pre_key {
        Some(pq) => {
            &&& b.kyber_prekey_id == Some(pq.key_id)
            &&& b.kyber_prekey.deep_view() == Some(b64_bytes(pq.public_key@))
            &&& b.kyber_prekey_signature.deep_view() == Some(b64_bytes(pq.signature@))
        },
        None => b.kyber_prekey_id is None && b.kyber_prekey is None && b.kyber_prekey_signature is None,
    }
}

/// The first field of the device's keys that is not base64, as the prefix
/// of the error that reports it.
pub open spec fn bundle_fault(identity_key: Seq<char>, d: &DeviceKeys) -> Option<Seq<char>> {
    if !is_b64(identity_key) {
        Some("bad identity key: "@)
    } else if !is_b64(d.signed_pre_key.public_key@) {
        Some("bad spk: "@)
    } else if (d.signed_pre_key.signature matches Some(sig) && !is_b64(sig@)) {
        Some("bad spk sig: "@)
    } else if (d.pre_key matches Some(pk) && !is_b64(pk.public_key@)) {
        Some("bad opk: "@)
    } else if (d.pq_pre_key matches Some(pq) && !is_b64(pq.public_key@)) {
        Some("bad pq key: "@)
    } else if (d.pq_pre_key matches Some(pq) && !is_b64(pq.signature@)) {
        Some("bad pq sig: "@)
    } else {
        None
    }
}

/// `m` begins with `prefix`.
pub open spec fn starts_with(m: Seq<char>, prefix: Seq<char>) -> bool {
    m.len() >= prefix.len() && m.subrange(0, prefix.len() as int) == prefix
}

fn decode_b64(s: &String, what: &str) -> (r: Result<Vec<u8>, String>)
    ensures
        r is Ok <==> is_b64(s@),
        r matches Ok(v) ==> v@ == b64_bytes(s@),
        r matches Err(m) ==> starts_with(m@, what@),
{
    match b64_standard_decode(s.as_str().as_bytes()) {
        Ok(v) => Ok(v),
        Err(e) => {
            let mut m = String::from_str(what);
            m.append(e.as_str());
            proof {
                assert(m@.subrange(0, what@.len() as int) =~= what@);
            }
            Err(m)
        },
    }
}

/// Decodes the bundle of a device; when a field is not base64, the error
/// names the first such field (then the decoder's reason).
pub fn decode_bundle(identity_key: &String, d: &DeviceKeys) -> (r: Result<PreKeyBundle, String>)
    ensures
        r is Ok <==> bundle_decodes(identity_key@, d),
        r is Ok <==> bundle_fault(identity_key@, d) is None,
        r matches Ok(b) ==> bundle_of(&b, identity_key@, d),
        r matches Err(m) ==> bundle_fault(identity_key@, d) matches Some(f) && starts_with(m@, f),
{
    proof {
        reveal_strlit("bad identity key: ");
        reveal_strlit("bad spk: ");
        reveal_strlit("bad spk sig: ");
        reveal_strlit("bad opk: ");
        reveal_strlit("bad pq key: ");
        reveal_strlit("bad pq sig: ");
    }
    let ik = match decode_b64(identity_key, "bad identity key: ") {
        Ok(v) => v,
        Err(m) => return Err(m),
    };
    let spk = match decode_b64(&d.signed_pre_key.public_key, "bad spk: ") {
        Ok(v) => v,
        Err(m) => return Err(m),
    };
    let spk_sig = match &d.signed_pre_key.signature {
        Some(sig) => match decode_b64(sig, "bad spk sig: ") {
            Ok(v) => v,
            Err(m) => return Err(m),
        },
        None => Vec::new(),
    };
    let (one_time_prekey_id, one_time_prekey) = match &d.pre_key {
        Some(pk) => match decode_b64(&pk.public_key, "bad opk: ") {
            Ok(v) => (Some(pk.key_id), Some(v)),
            Err(m) => return Err(m),
        },
        None => (None, None),
    };
    let (kyber_prekey_id, kyber_prekey, kyber_prekey_signature) = match &d.pq_pre_key {
        Some(pq) => {
            let key = match decode_b64(&pq.public_key, "bad pq key: ") {
                Ok(v) => v,
                Err(m) => return Err(m),
            };
            let sig = match decode_b64(&pq.signature, "bad pq sig: ") {
                Ok(v) => v,
                Err(m) => return Err(m),
            };
            (Some(pq.key_id), Some(key), Some(sig))
        },
        None => (None, None, None),
    };
    let b = PreKeyBundle {
        identity_key: ik,
        registration_id: d.registration_id,
        signed_prekey_id: d.signed_pre_key.key_id,
        signed_prekey: spk,
        signed_prekey_signature: spk_sig,
        kyber_prekey_id,
        kyber_prekey,
        kyber_prekey_signature,
        one_time_prekey_id,
        one_time_prekey,
    };
    assert(b.one_time_prekey.deep_view() == match d.pre_key {
        Some(pk) => Some(b64_bytes(pk.public_key@)),
        None => None,
    });
    assert(b.kyber_prekey.deep_view() == match d.pq_pre_key {
        Some(pq) => Some(b64_bytes(pq.public_key@)),
        None => None,
    });
    assert(b.kyber_prekey_signature.deep_view() == match d.pq_pre_key {
        Some(pq) => Some(b64_bytes(pq.signature@)),
        None => None,
    });
    Ok(b)
}

/// The bundle carries a Kyber pre-key, without which no session can be
/// established with the new device.
pub open spec fn has_kyber(b: &PreKeyBundle) -> bool {
    b.kyber_prekey_id is Some && b.kyber_prekey is Some && b.kyber_prekey_signature is Some
}

// ---------------------------------------------------------------------------
// Steps
// ---------------------------------------------------------------------------

/// The kind of a Signal Protocol ciphertext.
pub enum CiphertextKind {
    PreKey,
    Whisper,
    /// Any other kind (sender-key or plaintext content), by its name.
    Other(String),
}

/// The encrypted sync message.
pub struct Ciphertext {
    pub kind: CiphertextKind,
    /// The serialized ciphertext message.
    pub bytes: Vec<u8>,
}

/// What came back from the last request.
pub enum LinkReply {
    /// The request could not be performed; the transport's message.
    Transport(String),
    /// Reply to `FetchProvisioningCode`: status, body and the decoded
    /// `verificationCode` field (`Err` with the decoder's message).
    ProvisioningCode { status: u16, body: String, code: Result<String, String> },
    /// Reply to `SendEnvelope`.
    Delivered { status: u16, body: String },
    /// Reply to `FetchPreKeys`: the status, the decoded body, and whether
    /// the time allowed for the new device to publish its keys is over.
    PreKeys { status: u16, keys: Result<KeyResponse, String>, deadline_passed: bool },
    /// The sync message encrypted by the Signal Protocol layer, or why it
    /// could not be.
    Encrypted(Result<Ciphertext, SignalError>),
    /// Reply to `SendSync`.
    SyncSent { status: u16, body: String },
}

/// What to do next.
pub enum LinkStep {
    Send(LinkCall),
    /// Establish a Signal Protocol session with device 2 of the account from
    /// `bundle`, encrypt `plaintext`, and reply with `Encrypted`.
    Encrypt { bundle: PreKeyBundle, plaintext: Vec<u8> },
    /// Linking failed, or the flow got a reply it does not wait for.
    Done(Result<(), SignalError>),
    /// The device is linked; what sending it the sync message came to.
    Linked(Result<(), SignalError>),
}

/// The number of the ciphertext kind in `PUT /v1/messages`.
pub open spec fn message_type_of(k: CiphertextKind) -> Option<u32> {
    match k {
        CiphertextKind::PreKey => Some(3u32),
        CiphertextKind::Whisper => Some(1u32),
        CiphertextKind::Other(_) => None,
    }
}

/// `body` seals, for the device, the provisioning message that carries
/// `code`.
pub open spec fn sends_code(body: Seq<char>, context: &LinkContext, code: Seq<char>) -> bool {
    forall|m: ProvisionMessage| #[trigger] provision_message_of(&m, context, code) ==> envelope_body_of(
        body,
        &m,
        context.device_key@,
    )
}

/// The stages hold what their steps need: a 32-byte device key.
pub open spec fn link_stage_ok(stage: &LinkStage) -> bool {
    stage matches LinkStage::AwaitingCode { context } ==> context.device_key@.len() == 32
}

/// What `link_step` needs of the reply: a provisioning message that fits
/// the machine, a ciphertext whose base64 fits.
pub open spec fn link_reply_ok(stage: &LinkStage, reply: &LinkReply) -> bool {
    &&& (stage matches LinkStage::AwaitingCode { context } ==> (reply matches LinkReply::ProvisioningCode {
        code: Ok(c),
        ..
    } ==> provision_fits(&context, c@)))
    &&& (reply matches LinkReply::Encrypted(Ok(ct)) ==> crate::crypto::encodable_bytes(ct.bytes@))
}

/// The device is linked and the sync message was accepted.
pub open spec fn synced(next: LinkStage, step: LinkStep) -> bool {
    next is Finished && step == LinkStep::Linked(Ok(()))
}

/// The device is linked; the sync failed with `e`.
pub open spec fn sync_fails_with(next: LinkStage, step: LinkStep, e: SignalError) -> bool {
    next is Finished && step == LinkStep::Linked(Err(e))
}

/// The device is linked; the sync failed with a transport error carrying
/// `m`.
pub open spec fn sync_transport_failure(next: LinkStage, step: LinkStep, m: Seq<char>) -> bool {
    &&& next is Finished
    &&& step matches LinkStep::Linked(Err(SignalError::Http(h)))
    &&& h@ == m
}

/// The device is linked; the sync failed with a message that begins with
/// `prefix`.
pub open spec fn sync_fails_saying(next: LinkStage, step: LinkStep, prefix: Seq<char>) -> bool {
    &&& next is Finished
    &&& step matches LinkStep::Linked(Err(SignalError::Other(m)))
    &&& starts_with(m@, prefix)
}

/// The error when the new device has not published its pre-keys in time.
pub open spec fn prekeys_timeout_text() -> Seq<char> {
    "Timed out waiting for linked device pre-keys"@
}

/// The error when the new device published no Kyber pre-key.
pub open spec fn no_kyber_text() -> Seq<char> {
    "The linked device did not provide a Kyber pre-key. Cannot initiate session"@
}

/// The beginning of the error for a ciphertext of another kind.
pub open spec fn unexpected_kind_text() -> Seq<char> {
    "Unexpected ciphertext message type: "@
}

/// The flow stops with a transport error carrying `m`.
pub open spec fn link_transport_failure(next: LinkStage, step: LinkStep, m: Seq<char>) -> bool {
    &&& next is Finished
    &&& step matches LinkStep::Done(Err(SignalError::Http(h)))
    &&& h@ == m
}

/// The flow stops with the "unexpected reply" error.
pub open spec fn link_unexpected(next: LinkStage, step: LinkStep) -> bool {
    &&& next is Finished
    &&& step matches LinkStep::Done(Err(SignalError::Other(m)))
    &&& m@ == unexpected_reply_text()
}

/// The pre-keys are asked for (again), after `delay` seconds.
pub open spec fn fetch_again(next: LinkStage, step: LinkStep, aci: Seq<char>, password: Seq<char>, delay: u64) -> bool {
    &&& next matches LinkStage::AwaitingPreKeys { aci: a, password: p } && a@ == aci && p@ == password
    &&& step matches LinkStep::Send(LinkCall::FetchPreKeys { aci: a, password: p, device_id, delay_secs })
    &&& a@ == aci && p@ == password && device_id == 2 && delay_secs == delay
}

/// What follows a reply to the pre-key request.
pub open spec fn prekeys_spec(
    aci: Seq<char>,
    password: Seq<char>,
    status: u16,
    keys: Result<KeyResponse, String>,
    deadline_passed: bool,
    next: LinkStage,
    step: LinkStep,
) -> bool {
    if is_success(status) && keys is Err {
        sync_transport_failure(next, step, keys->Err_0@)
    } else if is_success(status) && (keys matches Ok(kr) && kr.devices@.len() > 0) {
        let kr = keys->Ok_0;
        let d = kr.devices@[0];
        if !bundle_decodes(kr.identity_key@, &d) {
            sync_fails_saying(next, step, bundle_fault(kr.identity_key@, &d)->Some_0)
        } else {
            ||| {
                &&& step matches LinkStep::Encrypt { bundle, plaintext }
                &&& bundle_of(&bundle, kr.identity_key@, &d)
                &&& has_kyber(&bundle)
                &&& plaintext@ == crate::proto::sync_plaintext_spec()
                &&& next matches LinkStage::AwaitingCiphertext { aci: a, password: p, registration_id }
                &&& a@ == aci && p@ == password && registration_id == d.registration_id
            }
            ||| {
                &&& next is Finished
                &&& step matches LinkStep::Linked(Err(SignalError::Other(m)))
                &&& m@ == no_kyber_text()
                &&& forall|b: PreKeyBundle| #[trigger] bundle_of(&b, kr.identity_key@, &d) ==> !has_kyber(&b)
            }
        }
    } else if deadline_passed {
        &&& next is Finished
        &&& step matches LinkStep::Linked(Err(SignalError::Other(m)))
        &&& m@ == prekeys_timeout_text()
    } else {
        fetch_again(next, step, aci, password, 2)
    }
}

/// One step of the linking flow.
pub open spec fn link_step_spec(stage: LinkStage, reply: LinkReply, next: LinkStage, step: LinkStep) -> bool {
    match stage {
        LinkStage::AwaitingCode { context } => match reply {
            LinkReply::Transport(m) => link_transport_failure(next, step, m@),
            LinkReply::ProvisioningCode { status, body, code } => if !is_success(status) {
                &&& next is Finished
                &&& step matches LinkStep::Done(Err(e))
                &&& is_status_error(e, status, body@)
            } else {
                match code {
                    Err(m) => link_transport_failure(next, step, m@),
                    Ok(c) => {
                        &&& next matches LinkStage::AwaitingDelivery { aci, password }
                        &&& aci@ == context.aci@ && password@ == context.password@
                        &&& step matches LinkStep::Send(
                            LinkCall::SendEnvelope { ephemeral_id, aci, password, body },
                        )
                        &&& ephemeral_id@ == context.ephemeral_id@
                        &&& aci@ == context.aci@
                        &&& password@ == context.password@
                        &&& sends_code(body@, &context, c@)
                    },
                }
            },
            _ => link_unexpected(next, step),
        },
        LinkStage::AwaitingDelivery { aci, password } => match reply {
            LinkReply::Transport(m) => link_transport_failure(next, step, m@),
            LinkReply::Delivered { status, body } => if is_success(status) {
                fetch_again(next, step, aci@, password@, 0)
            } else {
                &&& next is Finished
                &&& step matches LinkStep::Done(Err(SignalError::Api { status: s, body: b }))
                &&& s == status && b@ == body@
            },
            _ => link_unexpected(next, step),
        },
        LinkStage::AwaitingPreKeys { aci, password } => match reply {
            LinkReply::Transport(m) => sync_transport_failure(next, step, m@),
            LinkReply::PreKeys { status, keys, deadline_passed } => prekeys_spec(
                aci@,
                password@,
                status,
                keys,
                deadline_passed,
                next,
                step,
            ),
            _ => link_unexpected(next, step),
        },
        LinkStage::AwaitingCiphertext { aci, password, registration_id } => match reply {
            LinkReply::Transport(m) => sync_transport_failure(next, step, m@),
            LinkReply::Encrypted(Err(e)) => sync_fails_with(next, step, e),
            LinkReply::Encrypted(Ok(ct)) => match message_type_of(ct.kind) {
                None => {
                    &&& next is Finished
                    &&& step matches LinkStep::Linked(Err(SignalError::Other(m)))
                    &&& m@ == unexpected_kind_text() + ct.kind->Other_0@
                },
                Some(t) => {
                    &&& next is AwaitingSyncResult
                    &&& step matches LinkStep::Send(LinkCall::SendSync { aci: a, password: p, message })
                    &&& a@ == aci@ && p@ == password@
                    &&& message.message_type == t
                    &&& message.destination_device_id == 2
                    &&& message.destination_registration_id == registration_id
                    &&& message.content@ == base64_standard_encode(ct.bytes@)
                },
            },
            _ => link_unexpected(next, step),
        },
        LinkStage::AwaitingSyncResult => match reply {
            LinkReply::Transport(m) => sync_transport_failure(next, step, m@),
            LinkReply::SyncSent { status, body } => if is_success(status) {
                synced(next, step)
            } else {
                &&& next is Finished
                &&& step matches LinkStep::Linked(Err(SignalError::Api { status: s, body: b }))
                &&& s == status && b@ == body@
            },
            _ => link_unexpected(next, step),
        },
        LinkStage::Finished => link_unexpected(next, step),
    }
}

fn sync_failed(e: SignalError) -> (r: (LinkStage, LinkStep))
    ensures
        sync_fails_with(r.0, r.1, e),
{
    (LinkStage::Finished, LinkStep::Linked(Err(e)))
}

fn sync_failed_saying(text: &str) -> (r: (LinkStage, LinkStep))
    ensures
        r.0 is Finished,
        r.1 matches LinkStep::Linked(Err(SignalError::Other(m))) && m@ == text@,
{
    (LinkStage::Finished, LinkStep::Linked(Err(SignalError::Other(text.to_string()))))
}

fn link_unexpected_step() -> (r: (LinkStage, LinkStep))
    ensures
        link_unexpected(r.0, r.1),
{
    (LinkStage::Finished, LinkStep::Done(Err(unexpected_reply())))
}

fn fetch_prekeys(aci: String, password: String, delay_secs: u64) -> (r: (LinkStage, LinkStep))
    ensures
        fetch_again(r.0, r.1, aci@, password@, delay_secs),
{
    let call = LinkCall::FetchPreKeys { aci: aci.clone(), password: password.clone(), device_id: 2, delay_secs };
    (LinkStage::AwaitingPreKeys { aci, password }, LinkStep::Send(call))
}

fn prekeys_step(
    aci: String,
    password: String,
    status: u16,
    keys: Result<KeyResponse, String>,
    deadline_passed: bool,
) -> (r: (LinkStage, LinkStep))
    ensures
        prekeys_spec(aci@, password@, status, keys, deadline_passed, r.0, r.1),
{
    proof {
        reveal_strlit("The linked device did not provide a Kyber pre-key. Cannot initiate session");
        reveal_strlit("Timed out waiting for linked device pre-keys");
    }
    if 200 <= status && status < 300 {
        match keys {
            Err(m) => return sync_failed(SignalError::Http(m)),
            Ok(kr) => {
                if kr.devices.len() > 0 {
                    let d = &kr.devices[0];
                    match decode_bundle(&kr.identity_key, d) {
                        Err(m) => return sync_failed(SignalError::Other(m)),
                        Ok(b) => {
                            if b.kyber_prekey_id.is_some() && b.kyber_prekey.is_some()
                                && b.kyber_prekey_signature.is_some() {
                                let registration_id = b.registration_id;
                                let plaintext = crate::proto::sync_plaintext();
                                return (
                                    LinkStage::AwaitingCiphertext { aci, password, registration_id },
                                    LinkStep::Encrypt { bundle: b, plaintext },
                                );
                            } else {
                                proof {
                                    assert forall|b2: PreKeyBundle| #[trigger]
                                        bundle_of(&b2, kr.identity_key@, &kr.devices@[0]) implies !has_kyber(
                                        &b2,
                                    ) by {}
                                }
                                return sync_failed_saying(
                                    "The linked device did not provide a Kyber pre-key. Cannot initiate session",
                                );
                            }
                        },
                    }
                }
            },
        }
    }
    if deadline_passed {
        sync_failed_saying("Timed out waiting for linked device pre-keys")
    } else {
        fetch_prekeys(aci, password, 2)
    }
}

/// One step of the linking flow. The ephemeral secret and IV that seal
/// the provisioning message are drawn from `rng`.
pub fn link_step(stage: LinkStage, reply: LinkReply, rng: &mut rand::rngs::StdRng) -> (r: (LinkStage, LinkStep))
    requires
        link_stage_ok(&stage),
        link_reply_ok(&stage, &reply),
    ensures
        link_step_spec(stage, reply, r.0, r.1),
        link_stage_ok(&r.0),
{
    match stage {
        LinkStage::AwaitingCode { context } => match reply {
            LinkReply::Transport(m) => (LinkStage::Finished, LinkStep::Done(Err(SignalError::Http(m)))),
            LinkReply::ProvisioningCode { status, body, code } => match parse_reply(status, body, code) {
                Err(e) => (LinkStage::Finished, LinkStep::Done(Err(e))),
                Ok(c) => {
                    let ghost cv = c@;
                    let m = provision_message(&context, c);
                    let body = sealed_envelope_body(&m, context.device_key.as_slice(), rng);
                    proof {
                        assert forall|m2: ProvisionMessage| #[trigger] provision_message_of(&m2, &context, cv) implies envelope_body_of(
                            body@,
                            &m2,
                            context.device_key@,
                        ) by {
                            assert(provision_message_bytes(&m2) == provision_message_bytes(&m));
                        }
                    }
                    let call = LinkCall::SendEnvelope {
                        ephemeral_id: context.ephemeral_id,
                        aci: context.aci.clone(),
                        password: context.password.clone(),
                        body,
                    };
                    (LinkStage::AwaitingDelivery { aci: context.aci, password: context.password }, LinkStep::Send(call))
                },
            },
            _ => link_unexpected_step(),
        },
        LinkStage::AwaitingDelivery { aci, password } => match reply {
            LinkReply::Transport(m) => (LinkStage::Finished, LinkStep::Done(Err(SignalError::Http(m)))),
            LinkReply::Delivered { status, body } => {
                if 200 <= status && status < 300 {
                    fetch_prekeys(aci, password, 0)
                } else {
                    (LinkStage::Finished, LinkStep::Done(Err(SignalError::Api { status, body })))
                }
            },
            _ => link_unexpected_step(),
        },
        LinkStage::AwaitingPreKeys { aci, password } => match reply {
            LinkReply::Transport(m) => sync_failed(SignalError::Http(m)),
            LinkReply::PreKeys { status, keys, deadline_passed } => prekeys_step(aci, password, status, keys, deadline_passed),
            _ => link_unexpected_step(),
        },
        LinkStage::AwaitingCiphertext { aci, password, registration_id } => match reply {
            LinkReply::Transport(m) => sync_failed(SignalError::Http(m)),
            LinkReply::Encrypted(Err(e)) => sync_failed(e),
            LinkReply::Encrypted(Ok(ct)) => {
                let message_type: u32 = match &ct.kind {
                    CiphertextKind::PreKey => 3,
                    CiphertextKind::Whisper => 1,
                    CiphertextKind::Other(name) => {
                        proof {
                            reveal_strlit("Unexpected ciphertext message type: ");
                        }
                        let mut m = String::from_str("Unexpected ciphertext message type: ");
                        m.append(name.as_str());
                        return sync_failed(SignalError::Other(m));
                    },
                };
                let message = OutgoingMessage {
                    message_type,
                    destination_device_id: 2,
                    destination_registration_id: registration_id,
                    content: b64_standard_encode(ct.bytes.as_slice()),
                };
                (LinkStage::AwaitingSyncResult, LinkStep::Send(LinkCall::SendSync { aci, password, message }))
            },
            _ => link_unexpected_step(),
        },
        LinkStage::AwaitingSyncResult => match reply {
            LinkReply::Transport(m) => sync_failed(SignalError::Http(m)),
            LinkReply::SyncSent { status, body } => {
                if 200 <= status && status < 300 {
                    (LinkStage::Finished, LinkStep::Linked(Ok(())))
                } else {
                    sync_failed(SignalError::Api { status, body })
                }
            },
            _ => link_unexpected_step(),
        },
        LinkStage::Finished => link_unexpected_step(),
    }
}

// ---------------------------------------------------------------------------
// Laws of the linking flow
// ---------------------------------------------------------------------------

/// The stages after the provisioning message was delivered.
pub open spec fn after_delivery(stage: LinkStage) -> bool {
    stage is AwaitingPreKeys || stage is AwaitingCiphertext || stage is AwaitingSyncResult
}

/// Once the provisioning message is delivered, linking has succeeded: no
/// reply makes the linking fail (what goes wrong afterwards is the sync's
/// result, carried by `Linked`), but one of a kind the stage does not wait
/// for.
pub proof fn lemma_delivered_link_cannot_fail(stage: LinkStage, reply: LinkReply, next: LinkStage, step: LinkStep)
    requires
        after_delivery(stage),
        link_step_spec(stage, reply, next, step),
        step matches LinkStep::Done(Err(_)),
    ensures
        link_unexpected(next, step),
{
}

/// When the time allowed for the new device to publish its pre-keys is
/// over and the reply lists no device, the sync fails with the time-out
/// error (linking itself stands).
pub proof fn lemma_prekeys_time_out(
    aci: String,
    password: String,
    status: u16,
    keys: Result<KeyResponse, String>,
    next: LinkStage,
    step: LinkStep,
)
    requires
        !is_success(status) || (keys matches Ok(kr) && kr.devices@.len() == 0),
        link_step_spec(
            LinkStage::AwaitingPreKeys { aci, password },
            LinkReply::PreKeys { status, keys, deadline_passed: true },
            next,
            step,
        ),
    ensures
        next is Finished,
        step matches LinkStep::Linked(Err(SignalError::Other(m))) && m@ == prekeys_timeout_text(),
{
}


/// The envelope sent after the provisioning code arrives goes to the
/// address from the URI and seals, for the device's key, the provisioning
/// message carrying that code and the account's identity, number and keys;
/// the device holding that key's secret opens it to that message's
/// encoding.
pub proof fn lemma_envelope_carries_code(
    context: LinkContext,
    status: u16,
    body: String,
    code: String,
    next: LinkStage,
    step: LinkStep,
    m: ProvisionMessage,
)
    requires
        is_success(status),
        link_step_spec(
            LinkStage::AwaitingCode { context },
            LinkReply::ProvisioningCode { status, body, code: Ok(code) },
            next,
            step,
        ),
        provision_message_of(&m, &context, code@),
    ensures
        step matches LinkStep::Send(LinkCall::SendEnvelope { ephemeral_id, body: b, .. }) && ephemeral_id@
            == context.ephemeral_id@ && envelope_body_of(b@, &m, context.device_key@),
        m.provisioning_code.deep_view() == Some(code@),
        m.number.deep_view() == Some(context.phone@),
        m.master_key.deep_view() == Some(context.master_key@),
{
    let b = step->Send_0->SendEnvelope_body;
    assert(envelope_body_of(b@, &m, context.device_key@));
}

/// The provisioning message built for a link hands the new device the
/// account's identity key pairs whole, each public key with its own
/// private key (ACI with ACI, PNI with PNI), together with the account's
/// number, ACI, profile and master keys and the provisioning code.
pub proof fn lemma_message_carries_account(
    m: ProvisionMessage,
    c: LinkContext,
    account: SignalAccount,
    keys: IdentityKeyParts,
    ephemeral_id: Seq<char>,
    device_key: Seq<u8>,
    code: Seq<char>,
)
    requires
        context_of(&c, &account, &keys, ephemeral_id, device_key),
        provision_message_of(&m, &c, code),
    ensures
        m.aci_identity_key_public.deep_view() == Some(keys.aci_public@),
        m.aci_identity_key_private.deep_view() == Some(keys.aci_private@),
        m.pni_identity_key_public.deep_view() == Some(keys.pni_public@),
        m.pni_identity_key_private.deep_view() == Some(keys.pni_private@),
        m.number.deep_view() == Some(account.phone@),
        m.aci.deep_view() == account.aci.deep_view(),
        m.profile_key.deep_view() == Some(account.profile_key@),
        m.master_key.deep_view() == Some(account.master_key@),
        m.provisioning_code.deep_view() == Some(code),
        m.provisioning_version == Some(1u32),
        account.pni is None ==> m.pni is None,
        account.pni matches Some(p) ==> m.pni matches Some(q) && (if p@.len() >= 4 && p@.subrange(0, 4) == "PNI:"@ {
            q@ == p@.subrange(4, p@.len() as int)
        } else {
            q@ == p@
        }),
{
    reveal_strlit("PNI:");
}

/// The sync message goes to device 2 of the account, as the account
/// itself, to the registration id that the new device published, as a
/// pre-key message (type 3) or a whisper message (type 1) according to the
/// ciphertext, its content the base64 of the ciphertext.
pub proof fn lemma_sync_message_addressed(
    aci: String,
    password: String,
    registration_id: u32,
    ct: Ciphertext,
    next: LinkStage,
    step: LinkStep,
)
    requires
        ct.kind is PreKey || ct.kind is Whisper,
        link_step_spec(
            LinkStage::AwaitingCiphertext { aci, password, registration_id },
            LinkReply::Encrypted(Ok(ct)),
            next,
            step,
        ),
    ensures
        next is AwaitingSyncResult,
        step matches LinkStep::Send(LinkCall::SendSync { .. }),
        step->Send_0->SendSync_aci@ == aci@,
        step->Send_0->SendSync_password@ == password@,
        step->Send_0->SendSync_message.message_type == (if ct.kind is PreKey {
            3u32
        } else {
            1u32
        }),
        step->Send_0->SendSync_message.destination_device_id == 2,
        step->Send_0->SendSync_message.destination_registration_id == registration_id,
        step->Send_0->SendSync_message.content@ == base64_standard_encode(ct.bytes@),
{
}

/// Until the new device has published its keys, they are asked for again,
/// for device 2 of the account, two seconds later; after the provisioning
/// message is delivered they are asked for at once.
pub proof fn lemma_prekeys_polled(
    stage: LinkStage,
    reply: LinkReply,
    aci: String,
    password: String,
    next: LinkStage,
    step: LinkStep,
)
    requires
        link_step_spec(stage, reply, next, step),
        stage == (LinkStage::AwaitingPreKeys { aci, password }) || stage == (LinkStage::AwaitingDelivery { aci, password }),
        stage is AwaitingPreKeys ==> (reply matches LinkReply::PreKeys { status, keys, deadline_passed } && !deadline_passed
            && (!(200 <= status < 300) || (keys matches Ok(kr) && kr.devices@.len() == 0))),
        stage is AwaitingDelivery ==> (reply matches LinkReply::Delivered { status, .. } && 200 <= status < 300),
    ensures
        next matches LinkStage::AwaitingPreKeys { aci: a, password: p } && a@ == aci@ && p@ == password@,
        step matches LinkStep::Send(LinkCall::FetchPreKeys { .. }),
        step->Send_0->FetchPreKeys_aci@ == aci@,
        step->Send_0->FetchPreKeys_password@ == password@,
        step->Send_0->FetchPreKeys_device_id == 2,
        step->Send_0->FetchPreKeys_delay_secs == (if stage is AwaitingPreKeys {
            2u64
        } else {
            0u64
        }),
{
}

/// Once the new device lists its keys, with a Kyber pre-key, the sync
/// message is encrypted for the first device listed: the bundle holds that
/// device's registration id and ids, its decoded identity, signed, Kyber
/// and one-time keys, and the plaintext is the sync message that marks
/// contacts complete with an empty blocked list.
pub proof fn lemma_bundle_from_first_device(
    aci: String,
    password: String,
    status: u16,
    kr: KeyResponse,
    deadline_passed: bool,
    next: LinkStage,
    step: LinkStep,
)
    requires
        200 <= status < 300,
        kr.devices@.len() > 0,
        link_step_spec(
            LinkStage::AwaitingPreKeys { aci, password },
            LinkReply::PreKeys { status, keys: Ok(kr), deadline_passed },
            next,
            step,
        ),
        step is Encrypt,
    ensures
        step->Encrypt_plaintext@ == seq![0x12u8, 0x06u8, 0x0au8, 0x02u8, 0x30u8, 0x01u8, 0x22u8, 0x00u8],
        step->Encrypt_bundle.registration_id == kr.devices@[0].registration_id,
        step->Encrypt_bundle.signed_prekey_id == kr.devices@[0].signed_pre_key.key_id,
        Some(step->Encrypt_bundle.identity_key@) == crate::types::decoded(kr.identity_key@),
        Some(step->Encrypt_bundle.signed_prekey@) == crate::types::decoded(kr.devices@[0].signed_pre_key.public_key@),
        kr.devices@[0].pq_pre_key matches Some(pq) && step->Encrypt_bundle.kyber_prekey_id == Some(pq.key_id)
            && step->Encrypt_bundle.kyber_prekey.deep_view() == Some(crate::types::decoded(pq.public_key@)->Some_0)
            && crate::types::decoded(pq.public_key@) is Some,
        next matches LinkStage::AwaitingCiphertext { aci: a, password: p, registration_id: r } && a@ == aci@
            && p@ == password@ && r == kr.devices@[0].registration_id,
{
}

/// The device key is the 32-byte Curve25519 key whether the URI carries it
/// DJB-framed (type byte 5 first) or bare; a key of any other length is
/// refused.
pub proof fn lemma_device_key_unframed(k: Seq<u8>, other: Seq<u8>)
    requires
        k.len() == 32,
        other.len() != 32 && other.len() != 33,
    ensures
        device_key_spec(seq![5u8] + k) == Some(k),
        device_key_spec(k) == Some(k),
        device_key_spec(other) is None,
        forall|key: Seq<u8>| #[trigger] device_key_spec(key) matches Some(d) ==> d.len() == 32,
{
    assert((seq![5u8] + k).subrange(1, 33) =~= k);
}

} // verus!
