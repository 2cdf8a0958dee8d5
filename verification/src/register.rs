//! The registration flow: submitting the SMS code, then creating the
//! account with freshly generated keys.
//!
//! The flow is a state machine. `start_registration` gives the first
//! request; `register_step` takes the state and what came back and gives
//! the next request, a request for key material (which the Signal Protocol
//! layer of the caller generates), or the outcome.

use vstd::prelude::*;
use crate::crypto::{b64_standard_encode, base64_standard_encode, encodable_bytes, encodable_len};
use crate::http::{is_status_error, is_success, parse_reply, unexpected_reply, unexpected_reply_text};
use crate::types::{same_account, SignalAccount, SignalError};

verus! {

// ---------------------------------------------------------------------------
// Key material and the request body
// ---------------------------------------------------------------------------

/// A public key together with the identity key's signature over it.
pub struct SignedKey {
    pub public_key: Vec<u8>,
    pub signature: Vec<u8>,
}

/// Key material of a new account, generated by the Signal Protocol layer:
/// the two identity key pairs (serialized), their public identity keys
/// (serialized), the Curve25519 signed pre-keys and the Kyber-1024
/// last-resort pre-keys, each signed by its identity key.
pub struct AccountKeys {
    pub aci_identity: Vec<u8>,
    pub pni_identity: Vec<u8>,
    pub aci_identity_key: Vec<u8>,
    pub pni_identity_key: Vec<u8>,
    pub aci_signed_pre_key: SignedKey,
    pub pni_signed_pre_key: SignedKey,
    pub aci_kyber_pre_key: SignedKey,
    pub pni_kyber_pre_key: SignedKey,
}

/// The random material of a new account.
pub struct RegistrationSecrets {
    /// Base64 of 20 random bytes; the HTTP basic-auth password.
    pub password: String,
    pub registration_id: u32,
    pub pni_registration_id: u32,
    /// 16 random bytes.
    pub unidentified_access_key: Vec<u8>,
    /// 32 random bytes.
    pub master_key: Vec<u8>,
    /// 32 random bytes.
    pub profile_key: Vec<u8>,
}

/// Capabilities announced for a primary device.
pub struct Capabilities {
    pub storage: bool,
    pub versioned_expiration_timer: bool,
    pub attachment_backfill: bool,
    pub spqr: bool,
}

/// The `accountAttributes` object of the registration request.
pub struct AccountAttributes {
    pub registration_id: u32,
    pub pni_registration_id: u32,
    pub fetches_messages: bool,
    pub capabilities: Capabilities,
    pub unidentified_access_key: String,
    pub unrestricted_unidentified_access: bool,
    pub discoverable_by_phone_number: bool,
    pub name: String,
}

/// A pre-key as sent to Signal: id, base64 public key, base64 signature.
pub struct PreKeyJson {
    pub key_id: u32,
    pub public_key: String,
    pub signature: String,
}

/// The body of `POST /v1/registration`.
pub struct RegistrationBody {
    pub session_id: String,
    pub account_attributes: AccountAttributes,
    pub skip_device_transfer: bool,
    pub every_signed_key_valid: bool,
    pub aci_identity_key: String,
    pub pni_identity_key: String,
    pub aci_signed_pre_key: PreKeyJson,
    pub pni_signed_pre_key: PreKeyJson,
    pub aci_pq_last_resort_pre_key: PreKeyJson,
    pub pni_pq_last_resort_pre_key: PreKeyJson,
}

/// Every byte field that goes into the body can be base64-encoded.
pub open spec fn signed_key_encodable(k: &SignedKey) -> bool {
    encodable_bytes(k.public_key@) && encodable_bytes(k.signature@)
}

/// The key material can be base64-encoded.
pub open spec fn keys_encodable(k: &AccountKeys) -> bool {
    &&& encodable_bytes(k.aci_identity_key@)
    &&& encodable_bytes(k.pni_identity_key@)
    &&& signed_key_encodable(&k.aci_signed_pre_key)
    &&& signed_key_encodable(&k.pni_signed_pre_key)
    &&& signed_key_encodable(&k.aci_kyber_pre_key)
    &&& signed_key_encodable(&k.pni_kyber_pre_key)
}

fn signed_key_fits(k: &SignedKey) -> (r: bool)
    ensures
        r == signed_key_encodable(k),
{
    encodable_len(k.public_key.len()) && encodable_len(k.signature.len())
}

/// Whether the key material can be base64-encoded.
pub fn keys_fit(k: &AccountKeys) -> (r: bool)
    ensures
        r == keys_encodable(k),
{
    encodable_len(k.aci_identity_key.len()) && encodable_len(k.pni_identity_key.len()) && signed_key_fits(
        &k.aci_signed_pre_key,
    ) && signed_key_fits(&k.pni_signed_pre_key) && signed_key_fits(&k.aci_kyber_pre_key) && signed_key_fits(
        &k.pni_kyber_pre_key,
    )
}

/// What `registration_secrets` produces: ids in `1..=16383`, a password of
/// 28 characters that is the base64 of 20 bytes (and decodes back to them),
/// and keys of the right lengths.
pub open spec fn secrets_valid(s: &RegistrationSecrets) -> bool {
    &&& 1 <= s.registration_id <= 16383
    &&& 1 <= s.pni_registration_id <= 16383
    &&& exists|b: Seq<u8>| b.len() == 20 && s.password@ == #[trigger] base64_standard_encode(b)
    &&& exists|b: Seq<u8>| b.len() == 20 && #[trigger] crate::crypto::base64_standard_decode(vstd::utf8::encode_utf8(s.password@)) == Some(b)
    &&& s.password@.len() == 28
    &&& s.unidentified_access_key@.len() == 16
    &&& s.master_key@.len() == 32
    &&& s.profile_key@.len() == 32
}

/// A pre-key with id 1, its key and signature base64-encoded.
pub open spec fn pre_key_json_of(j: &PreKeyJson, k: &SignedKey) -> bool {
    &&& j.key_id == 1
    &&& j.public_key@ == base64_standard_encode(k.public_key@)
    &&& j.signature@ == base64_standard_encode(k.signature@)
}

/// The registration body for a session, the key material and the random
/// material: a primary device that fetches messages, with the storage,
/// versioned-expiration-timer and SPQR capabilities, restricted
/// unidentified access, an empty name, and every signed key valid.
pub open spec fn registration_body_of(
    b: &RegistrationBody,
    session_id: Seq<char>,
    skip_device_transfer: bool,
    discoverable_by_phone_number: bool,
    k: &AccountKeys,
    s: &RegistrationSecrets,
) -> bool {
    &&& b.session_id@ == session_id
    &&& b.account_attributes.registration_id == s.registration_id
    &&& b.account_attributes.pni_registration_id == s.pni_registration_id
    &&& b.account_attributes.fetches_messages
    &&& b.account_attributes.capabilities.storage
    &&& b.account_attributes.capabilities.versioned_expiration_timer
    &&& !b.account_attributes.capabilities.attachment_backfill
    &&& b.account_attributes.capabilities.spqr
    &&& b.account_attributes.unidentified_access_key@ == base64_standard_encode(s.unidentified_access_key@)
    &&& !b.account_attributes.unrestricted_unidentified_access
    &&& b.account_attributes.discoverable_by_phone_number == discoverable_by_phone_number
    &&& b.account_attributes.name@ == Seq::<char>::empty()
    &&& b.skip_device_transfer == skip_device_transfer
    &&& b.every_signed_key_valid
    &&& b.aci_identity_key@ == base64_standard_encode(k.aci_identity_key@)
    &&& b.pni_identity_key@ == base64_standard_encode(k.pni_identity_key@)
    &&& pre_key_json_of(&b.aci_signed_pre_key, &k.aci_signed_pre_key)
    &&& pre_key_json_of(&b.pni_signed_pre_key, &k.pni_signed_pre_key)
    &&& pre_key_json_of(&b.aci_pq_last_resort_pre_key, &k.aci_kyber_pre_key)
    &&& pre_key_json_of(&b.pni_pq_last_resort_pre_key, &k.pni_kyber_pre_key)
}

/// Draws the random material of a new account.
pub fn registration_secrets(rng: &mut rand::rngs::StdRng) -> (r: RegistrationSecrets)
    ensures
        secrets_valid(&r),
{
    let password = crate::crypto::random_password(rng);
    let registration_id = crate::crypto::random_u32_in(rng, 1, 16383);
    let pni_registration_id = crate::crypto::random_u32_in(rng, 1, 16383);
    let unidentified_access_key = crate::crypto::random_bytes(rng, 16);
    let master_key = crate::crypto::random_bytes(rng, 32);
    let profile_key = crate::crypto::random_bytes(rng, 32);
    RegistrationSecrets {
        password,
        registration_id,
        pni_registration_id,
        unidentified_access_key,
        master_key,
        profile_key,
    }
}

fn pre_key_json(k: &SignedKey) -> (r: PreKeyJson)
    requires
        signed_key_encodable(k),
    ensures
        pre_key_json_of(&r, k),
{
    PreKeyJson {
        key_id: 1,
        public_key: b64_standard_encode(k.public_key.as_slice()),
        signature: b64_standard_encode(k.signature.as_slice()),
    }
}

/// Builds the body of `POST /v1/registration`.
pub fn registration_body(
    session_id: &str,
    skip_device_transfer: bool,
    discoverable_by_phone_number: bool,
    keys: &AccountKeys,
    secrets: &RegistrationSecrets,
) -> (r: RegistrationBody)
    requires
        keys_encodable(keys),
        secrets.unidentified_access_key@.len() == 16,
    ensures
        registration_body_of(&r, session_id@, skip_device_transfer, discoverable_by_phone_number, keys, secrets),
{
    let attributes = AccountAttributes {
        registration_id: secrets.registration_id,
        pni_registration_id: secrets.pni_registration_id,
        fetches_messages: true,
        capabilities: Capabilities {
            storage: true,
            versioned_expiration_timer: true,
            attachment_backfill: false,
            spqr: true,
        },
        unidentified_access_key: b64_standard_encode(secrets.unidentified_access_key.as_slice()),
        unrestricted_unidentified_access: false,
        discoverable_by_phone_number,
        name: String::new(),
    };
    RegistrationBody {
        session_id: session_id.to_string(),
        account_attributes: attributes,
        skip_device_transfer,
        every_signed_key_valid: true,
        aci_identity_key: b64_standard_encode(keys.aci_identity_key.as_slice()),
        pni_identity_key: b64_standard_encode(keys.pni_identity_key.as_slice()),
        aci_signed_pre_key: pre_key_json(&keys.aci_signed_pre_key),
        pni_signed_pre_key: pre_key_json(&keys.pni_signed_pre_key),
        aci_pq_last_resort_pre_key: pre_key_json(&keys.aci_kyber_pre_key),
        pni_pq_last_resort_pre_key: pre_key_json(&keys.pni_kyber_pre_key),
    }
}

// ---------------------------------------------------------------------------
// The flow
// ---------------------------------------------------------------------------

/// The `uuid` (ACI) and `pni` fields of the registration reply.
pub struct RegisteredIds {
    pub aci: Option<String>,
    pub pni: Option<String>,
}

/// A request of the registration flow.
pub enum RegisterCall {
    /// `PUT /v1/verification/session/{session_id}/code` with `{"code": code}`.
    SubmitCode { session_id: String, code: String },
    /// `POST /v1/registration`, authenticated as `phone` with `password`.
    Register { phone: String, password: String, body: RegistrationBody },
    /// `PUT /v1/profile`, authenticated as `aci` with `password`.
    UploadProfile { aci: String, password: String, body: ProfileWrite },
}

/// What the profile layer makes for an empty versioned profile: the hex
/// profile-key version and the key commitment (both derived from the
/// profile key and the ACI), and the empty name, about text and about emoji,
/// each padded to its first length bracket and encrypted with the profile
/// key.
pub struct ProfileParts {
    pub version: String,
    pub name: Vec<u8>,
    pub about: Vec<u8>,
    pub about_emoji: Vec<u8>,
    pub commitment: Vec<u8>,
}

/// The body of `PUT /v1/profile`.
pub struct ProfileWrite {
    pub version: String,
    pub name: String,
    pub about: String,
    pub about_emoji: String,
    pub avatar: bool,
    pub same_avatar: bool,
    pub commitment: String,
}

/// An encrypted field of a profile.
pub enum ProfileField {
    Name,
    About,
    AboutEmoji,
}

/// The plaintext lengths a field is padded to, shortest first (the brackets
/// of Signal's profile cipher).
pub open spec fn field_brackets(f: ProfileField) -> Seq<usize> {
    match f {
        ProfileField::Name => seq![53usize, 257usize],
        ProfileField::About => seq![128usize, 254usize, 512usize],
        ProfileField::AboutEmoji => seq![32usize],
    }
}

/// The first bracket that holds `n` bytes.
pub open spec fn first_fit(brackets: Seq<usize>, n: nat) -> Option<nat>
    decreases brackets.len(),
{
    if brackets.len() == 0 {
        None
    } else if brackets[0] >= n {
        Some(brackets[0] as nat)
    } else {
        first_fit(brackets.drop_first(), n)
    }
}

fn brackets_of(f: &ProfileField) -> (r: Vec<usize>)
    ensures
        r@ == field_brackets(*f),
{
    let r = match f {
        ProfileField::Name => vec![53usize, 257usize],
        ProfileField::About => vec![128usize, 254usize, 512usize],
        ProfileField::AboutEmoji => vec![32usize],
    };
    assert(r@ =~= field_brackets(*f));
    r
}

/// The plaintext of a profile field padded with zero bytes to the first
/// bracket that holds it; `None` when it is longer than every bracket.
pub fn padded_profile_field(plaintext: &[u8], field: ProfileField) -> (r: Option<Vec<u8>>)
    ensures
        r is None <==> first_fit(field_brackets(field), plaintext@.len()) is None,
        r matches Some(v) ==> {
            &&& first_fit(field_brackets(field), plaintext@.len()) == Some(v@.len())
            &&& v@.subrange(0, plaintext@.len() as int) == plaintext@
            &&& forall|j: int| plaintext@.len() <= j < v@.len() ==> v@[j] == 0
        },
{
    let brackets = brackets_of(&field);
    let n = plaintext.len();
    let mut i: usize = 0;
    assert(brackets@.subrange(0, brackets@.len() as int) =~= brackets@);
    while i < brackets.len()
        invariant
            i <= brackets@.len(),
            brackets@ == field_brackets(field),
            n == plaintext@.len(),
            first_fit(brackets@, n as nat) == first_fit(brackets@.subrange(i as int, brackets@.len() as int), n as nat),
        decreases brackets@.len() - i,
    {
        let ghost rest = brackets@.subrange(i as int, brackets@.len() as int);
        assert(rest.drop_first() =~= brackets@.subrange(i + 1, brackets@.len() as int));
        if brackets[i] >= n {
            let target = brackets[i];
            let mut v: Vec<u8> = Vec::new();
            let mut k: usize = 0;
            while k < n
                invariant
                    k <= n,
                    n == plaintext@.len(),
                    v@ =~= plaintext@.subrange(0, k as int),
                decreases n - k,
            {
                v.push(plaintext[k]);
                k = k + 1;
            }
            while v.len() < target
                invariant
                    n <= v@.len() <= target,
                    v@.subrange(0, n as int) =~= plaintext@,
                    forall|j: int| n <= j < v@.len() ==> v@[j] == 0,
                decreases target - v@.len(),
            {
                v.push(0u8);
            }
            return Some(v);
        }
        i = i + 1;
    }
    assert(brackets@.subrange(i as int, brackets@.len() as int).len() == 0);
    None
}

/// The parts can be base64-encoded.
pub open spec fn parts_encodable(p: &ProfileParts) -> bool {
    &&& encodable_bytes(p.name@)
    &&& encodable_bytes(p.about@)
    &&& encodable_bytes(p.about_emoji@)
    &&& encodable_bytes(p.commitment@)
}

/// The profile body for the parts: version as is, the encrypted fields and
/// the commitment base64-encoded, no avatar.
pub open spec fn profile_write_of(w: &ProfileWrite, p: &ProfileParts) -> bool {
    &&& w.version@ == p.version@
    &&& w.name@ == base64_standard_encode(p.name@)
    &&& w.about@ == base64_standard_encode(p.about@)
    &&& w.about_emoji@ == base64_standard_encode(p.about_emoji@)
    &&& !w.avatar
    &&& !w.same_avatar
    &&& w.commitment@ == base64_standard_encode(p.commitment@)
}

/// Whether the parts can be base64-encoded.
pub fn parts_fit(p: &ProfileParts) -> (r: bool)
    ensures
        r == parts_encodable(p),
{
    encodable_len(p.name.len()) && encodable_len(p.about.len()) && encodable_len(p.about_emoji.len())
        && encodable_len(p.commitment.len())
}

/// Builds the body of `PUT /v1/profile`.
pub fn profile_write(p: &ProfileParts) -> (r: ProfileWrite)
    requires
        parts_encodable(p),
    ensures
        profile_write_of(&r, p),
{
    ProfileWrite {
        version: p.version.clone(),
        name: b64_standard_encode(p.name.as_slice()),
        about: b64_standard_encode(p.about.as_slice()),
        about_emoji: b64_standard_encode(p.about_emoji.as_slice()),
        avatar: false,
        same_avatar: false,
        commitment: b64_standard_encode(p.commitment.as_slice()),
    }
}

/// Where the registration flow stands.
pub enum RegisterStage {
    /// The code was submitted.
    AwaitingVerification {
        phone: String,
        session_id: String,
        skip_device_transfer: bool,
        discoverable_by_phone_number: bool,
    },
    /// The code was accepted; key material is being generated.
    AwaitingKeys {
        phone: String,
        session_id: String,
        skip_device_transfer: bool,
        discoverable_by_phone_number: bool,
    },
    /// The registration request was sent.
    AwaitingRegistration {
        phone: String,
        aci_identity: Vec<u8>,
        pni_identity: Vec<u8>,
        secrets: RegistrationSecrets,
    },
    /// Registered with an ACI; the empty profile is being encrypted.
    AwaitingProfileParts { account: SignalAccount, aci: String },
    /// The empty profile was sent.
    AwaitingProfileUpload { account: SignalAccount },
    Finished,
}

/// What came back from the last request.
pub enum RegisterReply {
    /// The request could not be performed; the transport's message.
    Transport(String),
    /// Reply to `SubmitCode`: the status, the body, and the boolean
    /// `verified` field of the JSON body (`Err` with the decoder's message
    /// when the body has none).
    CodeChecked { status: u16, body: String, verified: Result<bool, String> },
    /// The key material asked for by `GenerateKeys`, or why it could not be
    /// made.
    KeysGenerated(Result<AccountKeys, SignalError>),
    /// Reply to `Register`: the status, the body, and its decoded ids.
    Registered { status: u16, body: String, ids: Result<RegisteredIds, String> },
    /// The profile parts asked for by `EncryptProfile`, or why they could
    /// not be made.
    ProfileEncrypted(Result<ProfileParts, SignalError>),
    /// Reply to `UploadProfile`.
    ProfileUploaded { status: u16, body: String },
}

/// What to do next.
pub enum RegisterStep {
    Send(RegisterCall),
    /// Generate the key material of the new account and reply with
    /// `KeysGenerated`.
    GenerateKeys,
    /// Make the parts of an empty versioned profile for the ACI with the
    /// profile key, and reply with `ProfileEncrypted`.
    EncryptProfile { aci: String, profile_key: Vec<u8> },
    Done(Result<SignalAccount, SignalError>),
}

/// The message given when Signal does not accept the code.
pub open spec fn code_rejected_text() -> Seq<char> {
    "Verification code was not accepted."@
}

/// What the code check says: a 409 means the session was already verified
/// (a retry after `DeviceTransferAvailable`), and its body's `verified`
/// field decides, `false` when absent; any other failure status is an
/// error; on success the `verified` field decides, and a body without it
/// is a transport error.
pub open spec fn code_check_spec(status: u16, body: Seq<char>, verified: Result<bool, String>, r: Result<bool, SignalError>) -> bool {
    if status == 409 {
        r == Ok::<bool, SignalError>(verified == Ok::<bool, String>(true))
    } else if !is_success(status) {
        r matches Err(e) && is_status_error(e, status, body)
    } else {
        match verified {
            Ok(v) => r == Ok::<bool, SignalError>(v),
            Err(m) => r matches Err(SignalError::Http(h)) && h@ == m@,
        }
    }
}

/// Reads the reply to the code submission.
pub fn code_check(status: u16, body: String, verified: Result<bool, String>) -> (r: Result<bool, SignalError>)
    ensures
        code_check_spec(status, body@, verified, r),
{
    if status == 409 {
        match verified {
            Ok(v) => Ok(v),
            Err(_) => Ok(false),
        }
    } else {
        parse_reply(status, body, verified)
    }
}

/// The account that a successful registration yields.
pub open spec fn registered_account(
    a: &SignalAccount,
    phone: Seq<char>,
    aci_identity: Seq<u8>,
    pni_identity: Seq<u8>,
    secrets: &RegistrationSecrets,
    ids: &RegisteredIds,
) -> bool {
    &&& a.phone@ == phone
    &&& a.password@ == secrets.password@
    &&& a.aci_identity@ == aci_identity
    &&& a.pni_identity@ == pni_identity
    &&& a.aci.deep_view() == ids.aci.deep_view()
    &&& a.pni.deep_view() == ids.pni.deep_view()
    &&& a.master_key@ == secrets.master_key@
    &&& a.profile_key@ == secrets.profile_key@
    &&& a.registration_id == secrets.registration_id
    &&& a.desktop_profile is None
}

/// The flow stops with the "unexpected reply" error.
pub open spec fn register_unexpected(next: RegisterStage, step: RegisterStep) -> bool {
    &&& next is Finished
    &&& step matches RegisterStep::Done(Err(SignalError::Other(m)))
    &&& m@ == unexpected_reply_text()
}

/// The flow stops with this error.
pub open spec fn register_fails_with(next: RegisterStage, step: RegisterStep, e: SignalError) -> bool {
    next is Finished && step == RegisterStep::Done(Err(e))
}

/// The flow stops with a transport error carrying `m`.
pub open spec fn register_transport_failure(next: RegisterStage, step: RegisterStep, m: Seq<char>) -> bool {
    &&& next is Finished
    &&& step matches RegisterStep::Done(Err(SignalError::Http(h)))
    &&& h@ == m
}

/// One step of the registration flow.
pub open spec fn register_step_spec(
    stage: RegisterStage,
    reply: RegisterReply,
    next: RegisterStage,
    step: RegisterStep,
) -> bool {
    match stage {
        RegisterStage::AwaitingVerification { phone, session_id, skip_device_transfer, discoverable_by_phone_number } => match reply {
            RegisterReply::Transport(m) => register_transport_failure(next, step, m@),
            RegisterReply::CodeChecked { status, body, verified } => {
                if status == 409 || is_success(status) && verified is Ok {
                    if verified == Ok::<bool, String>(true) {
                        &&& next matches RegisterStage::AwaitingKeys {
                            phone: p,
                            session_id: sid,
                            skip_device_transfer: skip,
                            discoverable_by_phone_number: disc,
                        }
                        &&& p@ == phone@ && sid@ == session_id@
                        &&& skip == skip_device_transfer && disc == discoverable_by_phone_number
                        &&& step is GenerateKeys
                    } else {
                        &&& next is Finished
                        &&& step matches RegisterStep::Done(Err(SignalError::Other(m)))
                        &&& m@ == code_rejected_text()
                    }
                } else {
                    &&& next is Finished
                    &&& step matches RegisterStep::Done(Err(e))
                    &&& code_check_spec(status, body@, verified, Err(e))
                }
            },
            _ => register_unexpected(next, step),
        },
        RegisterStage::AwaitingKeys { phone, session_id, skip_device_transfer, discoverable_by_phone_number } => match reply {
            RegisterReply::Transport(m) => register_transport_failure(next, step, m@),
            RegisterReply::KeysGenerated(Err(e)) => register_fails_with(next, step, e),
            RegisterReply::KeysGenerated(Ok(k)) => {
                &&& next matches RegisterStage::AwaitingRegistration { phone: p, aci_identity, pni_identity, secrets }
                &&& p@ == phone@
                &&& aci_identity@ == k.aci_identity@
                &&& pni_identity@ == k.pni_identity@
                &&& secrets_valid(&secrets)
                &&& step matches RegisterStep::Send(RegisterCall::Register { phone: p2, password, body })
                &&& p2@ == phone@
                &&& password@ == secrets.password@
                &&& registration_body_of(
                    &body,
                    session_id@,
                    skip_device_transfer,
                    discoverable_by_phone_number,
                    &k,
                    &secrets,
                )
            },
            _ => register_unexpected(next, step),
        },
        RegisterStage::AwaitingRegistration { phone, aci_identity, pni_identity, secrets } => match reply {
            RegisterReply::Transport(m) => register_transport_failure(next, step, m@),
            RegisterReply::Registered { status, body, ids } => {
                if status == 409 {
                    register_fails_with(next, step, SignalError::DeviceTransferAvailable)
                } else if !is_success(status) {
                    &&& next is Finished
                    &&& step matches RegisterStep::Done(Err(e))
                    &&& is_status_error(e, status, body@)
                } else {
                    match ids {
                        Err(m) => register_transport_failure(next, step, m@),
                        Ok(i) => match i.aci {
                            None => {
                                &&& next is Finished
                                &&& step matches RegisterStep::Done(Ok(a))
                                &&& registered_account(&a, phone@, aci_identity@, pni_identity@, &secrets, &i)
                            },
                            Some(x) => {
                                &&& next matches RegisterStage::AwaitingProfileParts { account: a, aci }
                                &&& registered_account(&a, phone@, aci_identity@, pni_identity@, &secrets, &i)
                                &&& aci@ == x@
                                &&& step matches RegisterStep::EncryptProfile { aci: a2, profile_key }
                                &&& a2@ == x@
                                &&& profile_key@ == secrets.profile_key@
                            },
                        },
                    }
                }
            },
            _ => register_unexpected(next, step),
        },
        RegisterStage::AwaitingProfileParts { account, aci } => match reply {
            RegisterReply::Transport(m) => register_transport_failure(next, step, m@),
            RegisterReply::ProfileEncrypted(Err(e)) => register_fails_with(next, step, e),
            RegisterReply::ProfileEncrypted(Ok(parts)) => {
                &&& next matches RegisterStage::AwaitingProfileUpload { account: a }
                &&& same_account(&a, &account)
                &&& step matches RegisterStep::Send(RegisterCall::UploadProfile { aci: x, password, body })
                &&& x@ == aci@
                &&& password@ == account.password@
                &&& profile_write_of(&body, &parts)
            },
            _ => register_unexpected(next, step),
        },
        RegisterStage::AwaitingProfileUpload { account } => match reply {
            RegisterReply::Transport(m) => register_transport_failure(next, step, m@),
            RegisterReply::ProfileUploaded { status, body } => if is_success(status) {
                &&& next is Finished
                &&& step matches RegisterStep::Done(Ok(a))
                &&& same_account(&a, &account)
            } else {
                &&& next is Finished
                &&& step matches RegisterStep::Done(Err(SignalError::Api { status: s, body: b }))
                &&& s == status
                &&& b@ == body@
            },
            _ => register_unexpected(next, step),
        },
        RegisterStage::Finished => register_unexpected(next, step),
    }
}

/// Starts the registration of `phone` with the code received for
/// `session_id`.
pub fn start_registration(
    phone: &str,
    session_id: &str,
    code: &str,
    skip_device_transfer: bool,
    discoverable_by_phone_number: bool,
) -> (r: (RegisterStage, RegisterCall))
    ensures
        r.0 matches RegisterStage::AwaitingVerification {
            phone: p,
            session_id: sid,
            skip_device_transfer: skip,
            discoverable_by_phone_number: disc,
        } && p@ == phone@ && sid@ == session_id@ && skip == skip_device_transfer && disc
            == discoverable_by_phone_number,
        r.1 matches RegisterCall::SubmitCode { session_id: sid, code: c } && sid@ == session_id@ && c@ == code@,
{
    (
        RegisterStage::AwaitingVerification {
            phone: phone.to_string(),
            session_id: session_id.to_string(),
            skip_device_transfer,
            discoverable_by_phone_number,
        },
        RegisterCall::SubmitCode { session_id: session_id.to_string(), code: code.to_string() },
    )
}

fn transport_failure(m: String) -> (r: (RegisterStage, RegisterStep))
    ensures
        register_transport_failure(r.0, r.1, m@),
{
    (RegisterStage::Finished, RegisterStep::Done(Err(SignalError::Http(m))))
}

fn unexpected() -> (r: (RegisterStage, RegisterStep))
    ensures
        register_unexpected(r.0, r.1),
{
    (RegisterStage::Finished, RegisterStep::Done(Err(unexpected_reply())))
}

/// One step of the registration flow. The random material of the account
/// is drawn from `rng` when the key material arrives.
pub fn register_step(stage: RegisterStage, reply: RegisterReply, rng: &mut rand::rngs::StdRng) -> (r: (
    RegisterStage,
    RegisterStep,
))
    requires
        reply matches RegisterReply::KeysGenerated(Ok(k)) ==> keys_encodable(&k),
        reply matches RegisterReply::ProfileEncrypted(Ok(p)) ==> parts_encodable(&p),
    ensures
        register_step_spec(stage, reply, r.0, r.1),
{
    match stage {
        RegisterStage::AwaitingVerification { phone, session_id, skip_device_transfer, discoverable_by_phone_number } => match reply {
            RegisterReply::Transport(m) => transport_failure(m),
            RegisterReply::CodeChecked { status, body, verified } => {
                match code_check(status, body, verified) {
                    Err(e) => (RegisterStage::Finished, RegisterStep::Done(Err(e))),
                    Ok(false) => (
                        RegisterStage::Finished,
                        RegisterStep::Done(Err(SignalError::Other(String::from_str("Verification code was not accepted.")))),
                    ),
                    Ok(true) => (
                        RegisterStage::AwaitingKeys { phone, session_id, skip_device_transfer, discoverable_by_phone_number },
                        RegisterStep::GenerateKeys,
                    ),
                }
            },
            _ => unexpected(),
        },
        RegisterStage::AwaitingKeys { phone, session_id, skip_device_transfer, discoverable_by_phone_number } => match reply {
            RegisterReply::Transport(m) => transport_failure(m),
            RegisterReply::KeysGenerated(Err(e)) => (RegisterStage::Finished, RegisterStep::Done(Err(e))),
            RegisterReply::KeysGenerated(Ok(keys)) => {
                let secrets = registration_secrets(rng);
                let body = registration_body(
                    session_id.as_str(),
                    skip_device_transfer,
                    discoverable_by_phone_number,
                    &keys,
                    &secrets,
                );
                let call = RegisterCall::Register {
                    phone: phone.clone(),
                    password: secrets.password.clone(),
                    body,
                };
                (
                    RegisterStage::AwaitingRegistration {
                        phone,
                        aci_identity: keys.aci_identity,
                        pni_identity: keys.pni_identity,
                        secrets,
                    },
                    RegisterStep::Send(call),
                )
            },
            _ => unexpected(),
        },
        RegisterStage::AwaitingRegistration { phone, aci_identity, pni_identity, secrets } => match reply {
            RegisterReply::Transport(m) => transport_failure(m),
            RegisterReply::Registered { status, body, ids } => {
                if status == 409 {
                    return (RegisterStage::Finished, RegisterStep::Done(Err(SignalError::DeviceTransferAvailable)));
                }
                match parse_reply(status, body, ids) {
                    Err(e) => (RegisterStage::Finished, RegisterStep::Done(Err(e))),
                    Ok(i) => {
                        let account = SignalAccount {
                            phone,
                            password: secrets.password,
                            aci_identity,
                            pni_identity,
                            aci: i.aci,
                            pni: i.pni,
                            master_key: secrets.master_key,
                            profile_key: secrets.profile_key,
                            registration_id: secrets.registration_id,
                            desktop_profile: None,
                        };
                        match &account.aci {
                            None => (RegisterStage::Finished, RegisterStep::Done(Ok(account))),
                            Some(x) => {
                                let aci = x.clone();
                                let step = RegisterStep::EncryptProfile {
                                    aci: x.clone(),
                                    profile_key: crate::uri::copy_range(
                                        account.profile_key.as_slice(),
                                        0,
                                        account.profile_key.len(),
                                    ),
                                };
                                proof {
                                    assert(account.profile_key@.subrange(0, account.profile_key@.len() as int)
                                        =~= account.profile_key@);
                                }
                                (RegisterStage::AwaitingProfileParts { account, aci }, step)
                            },
                        }
                    },
                }
            },
            _ => unexpected(),
        },
        RegisterStage::AwaitingProfileParts { account, aci } => match reply {
            RegisterReply::Transport(m) => transport_failure(m),
            RegisterReply::ProfileEncrypted(Err(e)) => (RegisterStage::Finished, RegisterStep::Done(Err(e))),
            RegisterReply::ProfileEncrypted(Ok(parts)) => {
                let body = profile_write(&parts);
                let call = RegisterCall::UploadProfile { aci, password: account.password.clone(), body };
                (RegisterStage::AwaitingProfileUpload { account }, RegisterStep::Send(call))
            },
            _ => unexpected(),
        },
        RegisterStage::AwaitingProfileUpload { account } => match reply {
            RegisterReply::Transport(m) => transport_failure(m),
            RegisterReply::ProfileUploaded { status, body } => {
                if 200 <= status && status < 300 {
                    (RegisterStage::Finished, RegisterStep::Done(Ok(account)))
                } else {
                    (RegisterStage::Finished, RegisterStep::Done(Err(SignalError::Api { status, body })))
                }
            },
            _ => unexpected(),
        },
        RegisterStage::Finished => unexpected(),
    }
}

// ---------------------------------------------------------------------------
// Laws of the registration flow
// ---------------------------------------------------------------------------

/// A retry after `DeviceTransferAvailable` finds the session already
/// verified (409) and goes on when its body says so.
pub proof fn lemma_verified_session_goes_on(body: Seq<char>, r: Result<bool, SignalError>)
    requires
        code_check_spec(409, body, Ok(true), r),
    ensures
        r == Ok::<bool, SignalError>(true),
{
}

/// The account that registration yields (returned at once, or kept while
/// the profile is uploaded) holds what was sent: its password is the one
/// the registration was authenticated with, its registration id the one
/// announced (a 14-bit value other than 0), its identity keys the ones
/// generated, and the transfer flag sent is the caller's.
pub proof fn lemma_account_matches_registration(
    phone: String,
    session_id: String,
    skip_device_transfer: bool,
    discoverable_by_phone_number: bool,
    keys: AccountKeys,
    mid: RegisterStage,
    sent: RegisterStep,
    reply: RegisterReply,
    last: RegisterStage,
    done: RegisterStep,
    a: SignalAccount,
)
    requires
        register_step_spec(
            RegisterStage::AwaitingKeys { phone, session_id, skip_device_transfer, discoverable_by_phone_number },
            RegisterReply::KeysGenerated(Ok(keys)),
            mid,
            sent,
        ),
        register_step_spec(mid, reply, last, done),
        done == RegisterStep::Done(Ok::<SignalAccount, SignalError>(a)) || (last matches RegisterStage::AwaitingProfileParts {
            account,
            ..
        } && account == a),
    ensures
        sent matches RegisterStep::Send(RegisterCall::Register { phone: p, password, body }),
        a.password@ == sent->Send_0->Register_password@,
        a.password@.len() == 28,
        a.phone@ == phone@,
        a.registration_id == sent->Send_0->Register_body.account_attributes.registration_id,
        1 <= a.registration_id <= 16383,
        a.aci_identity@ == keys.aci_identity@,
        a.pni_identity@ == keys.pni_identity@,
        sent->Send_0->Register_body.skip_device_transfer == skip_device_transfer,
{
}

/// A registration that gives an ACI returns no account before the empty
/// profile is uploaded: the flow asks for the profile parts instead.
pub proof fn lemma_profile_before_account(
    phone: String,
    aci_identity: Vec<u8>,
    pni_identity: Vec<u8>,
    secrets: RegistrationSecrets,
    status: u16,
    body: String,
    i: RegisteredIds,
    next: RegisterStage,
    step: RegisterStep,
)
    requires
        status != 409,
        is_success(status),
        i.aci is Some,
        register_step_spec(
            RegisterStage::AwaitingRegistration { phone, aci_identity, pni_identity, secrets },
            RegisterReply::Registered { status, body, ids: Ok(i) },
            next,
            step,
        ),
    ensures
        step matches RegisterStep::EncryptProfile { aci, .. } && aci@ == i.aci->Some_0@,
        !(step is Done),
{
}

/// The profile upload decides the outcome: a success returns the account
/// kept since registration, a failure status is an API error with the
/// status and body.
pub proof fn lemma_profile_upload_decides(
    account: SignalAccount,
    status: u16,
    body: String,
    next: RegisterStage,
    step: RegisterStep,
)
    requires
        register_step_spec(
            RegisterStage::AwaitingProfileUpload { account },
            RegisterReply::ProfileUploaded { status, body },
            next,
            step,
        ),
    ensures
        is_success(status) ==> (step matches RegisterStep::Done(Ok(a)) && same_account(&a, &account)),
        !is_success(status) ==> (step matches RegisterStep::Done(Err(SignalError::Api { status: s, body: b })) && s
            == status && b@ == body@),
{
}

/// An existing account that offers a device transfer (409 on
/// registration) is reported as such, whatever the body.
pub proof fn lemma_transfer_offer_reported(
    phone: String,
    aci_identity: Vec<u8>,
    pni_identity: Vec<u8>,
    secrets: RegistrationSecrets,
    body: String,
    ids: Result<RegisteredIds, String>,
    next: RegisterStage,
    step: RegisterStep,
)
    requires
        register_step_spec(
            RegisterStage::AwaitingRegistration { phone, aci_identity, pni_identity, secrets },
            RegisterReply::Registered { status: 409, body, ids },
            next,
            step,
        ),
    ensures
        step == RegisterStep::Done(Err::<SignalAccount, SignalError>(SignalError::DeviceTransferAvailable)),
{
}

/// Every key of the registration request is sent under the identity it
/// belongs to: the ACI identity key, signed pre-key and Kyber last-resort
/// pre-key in the ACI fields, the PNI ones in the PNI fields, each key and
/// signature base64-encoded (standard alphabet, padded) with pre-key id 1;
/// the request carries the session, the registration ids and the access
/// key of the account's random material.
pub proof fn lemma_body_keys_by_identity(
    b: RegistrationBody,
    session_id: Seq<char>,
    skip_device_transfer: bool,
    discoverable_by_phone_number: bool,
    k: AccountKeys,
    s: RegistrationSecrets,
)
    requires
        registration_body_of(&b, session_id, skip_device_transfer, discoverable_by_phone_number, &k, &s),
    ensures
        b.aci_identity_key@ == base64_standard_encode(k.aci_identity_key@),
        b.pni_identity_key@ == base64_standard_encode(k.pni_identity_key@),
        b.aci_signed_pre_key.key_id == 1,
        b.aci_signed_pre_key.public_key@ == base64_standard_encode(k.aci_signed_pre_key.public_key@),
        b.aci_signed_pre_key.signature@ == base64_standard_encode(k.aci_signed_pre_key.signature@),
        b.pni_signed_pre_key.key_id == 1,
        b.pni_signed_pre_key.public_key@ == base64_standard_encode(k.pni_signed_pre_key.public_key@),
        b.pni_signed_pre_key.signature@ == base64_standard_encode(k.pni_signed_pre_key.signature@),
        b.aci_pq_last_resort_pre_key.key_id == 1,
        b.aci_pq_last_resort_pre_key.public_key@ == base64_standard_encode(k.aci_kyber_pre_key.public_key@),
        b.aci_pq_last_resort_pre_key.signature@ == base64_standard_encode(k.aci_kyber_pre_key.signature@),
        b.pni_pq_last_resort_pre_key.key_id == 1,
        b.pni_pq_last_resort_pre_key.public_key@ == base64_standard_encode(k.pni_kyber_pre_key.public_key@),
        b.pni_pq_last_resort_pre_key.signature@ == base64_standard_encode(k.pni_kyber_pre_key.signature@),
        b.session_id@ == session_id,
        b.skip_device_transfer == skip_device_transfer,
        b.account_attributes.discoverable_by_phone_number == discoverable_by_phone_number,
        b.account_attributes.registration_id == s.registration_id,
        b.account_attributes.pni_registration_id == s.pni_registration_id,
        b.account_attributes.unidentified_access_key@ == base64_standard_encode(s.unidentified_access_key@),
{
}

/// The reply to the code submission decides: a code that Signal reports
/// as verified (on a 2xx reply, or on a 409 for a session verified before)
/// goes on to key generation for the same registration; one reported as
/// not verified fails with "Verification code was not accepted."; a 402
/// asks for a captcha; any other failure status is an API error carrying
/// the status and the body.
pub proof fn lemma_code_submission_decides(
    phone: String,
    session_id: String,
    skip_device_transfer: bool,
    discoverable_by_phone_number: bool,
    status: u16,
    body: String,
    verified: Result<bool, String>,
    next: RegisterStage,
    step: RegisterStep,
)
    requires
        register_step_spec(
            RegisterStage::AwaitingVerification { phone, session_id, skip_device_transfer, discoverable_by_phone_number },
            RegisterReply::CodeChecked { status, body, verified },
            next,
            step,
        ),
    ensures
        (200 <= status < 300 || status == 409) && verified == Ok::<bool, String>(true) ==> step is GenerateKeys
            && next matches RegisterStage::AwaitingKeys { .. },
        (200 <= status < 300 || status == 409) && verified == Ok::<bool, String>(true) ==> next->AwaitingKeys_phone@
            == phone@ && next->AwaitingKeys_session_id@ == session_id@ && next->AwaitingKeys_skip_device_transfer
            == skip_device_transfer && next->AwaitingKeys_discoverable_by_phone_number == discoverable_by_phone_number,
        (200 <= status < 300 && verified == Ok::<bool, String>(false)) || (status == 409 && verified != Ok::<
            bool,
            String,
        >(true)) ==> (step matches RegisterStep::Done(Err(SignalError::Other(m))) && m@
            == "Verification code was not accepted."@),
        status == 402 ==> step == RegisterStep::Done(Err::<SignalAccount, SignalError>(SignalError::CaptchaRequired)),
        !(200 <= status < 300) && status != 402 && status != 409 ==> (step matches RegisterStep::Done(
            Err(SignalError::Api { status: s, body: b }),
        ) && s == status && b@ == body@),
        !(200 <= status < 300 || status == 409) ==> next is Finished,
{
}

/// The account that a step hands out: the result of a finished flow, or
/// the one kept while its profile is uploaded.
pub open spec fn account_handed_out(next: RegisterStage, step: RegisterStep) -> SignalAccount {
    if step is Done && step->Done_0 is Ok {
        step->Done_0->Ok_0
    } else {
        next->AwaitingProfileParts_account
    }
}

/// An accepted registration yields the account of the registered number:
/// its ACI and PNI are those Signal assigned (ACI as ACI, PNI as PNI), its
/// password, registration id, master and profile keys are those of the
/// random material sent, its identity key pairs those generated, and it
/// has no desktop profile yet. With an ACI, the profile that is encrypted
/// next is for that ACI and under the account's profile key.
pub proof fn lemma_registered_account_fields(
    phone: String,
    aci_identity: Vec<u8>,
    pni_identity: Vec<u8>,
    secrets: RegistrationSecrets,
    status: u16,
    body: String,
    i: RegisteredIds,
    next: RegisterStage,
    step: RegisterStep,
)
    requires
        200 <= status < 300,
        register_step_spec(
            RegisterStage::AwaitingRegistration { phone, aci_identity, pni_identity, secrets },
            RegisterReply::Registered { status, body, ids: Ok(i) },
            next,
            step,
        ),
    ensures
        i.aci is None ==> step matches RegisterStep::Done(Ok(_)),
        i.aci is Some ==> next matches RegisterStage::AwaitingProfileParts { .. },
        account_handed_out(next, step).phone@ == phone@,
        account_handed_out(next, step).aci.deep_view() == i.aci.deep_view(),
        account_handed_out(next, step).pni.deep_view() == i.pni.deep_view(),
        account_handed_out(next, step).password@ == secrets.password@,
        account_handed_out(next, step).registration_id == secrets.registration_id,
        account_handed_out(next, step).master_key@ == secrets.master_key@,
        account_handed_out(next, step).profile_key@ == secrets.profile_key@,
        account_handed_out(next, step).aci_identity@ == aci_identity@,
        account_handed_out(next, step).pni_identity@ == pni_identity@,
        account_handed_out(next, step).desktop_profile is None,
        i.aci matches Some(x) ==> (step matches RegisterStep::EncryptProfile { aci, profile_key } && aci@ == x@
            && profile_key@ == secrets.profile_key@),
{
}

/// The key material arrives: the registration request is sent for the
/// number being registered, authenticated with the password of the fresh
/// random material, and the generated identity key pairs are kept for the
/// account.
pub proof fn lemma_register_request_authenticated(
    phone: String,
    session_id: String,
    skip_device_transfer: bool,
    discoverable_by_phone_number: bool,
    keys: AccountKeys,
    next: RegisterStage,
    step: RegisterStep,
)
    requires
        register_step_spec(
            RegisterStage::AwaitingKeys { phone, session_id, skip_device_transfer, discoverable_by_phone_number },
            RegisterReply::KeysGenerated(Ok(keys)),
            next,
            step,
        ),
    ensures
        step matches RegisterStep::Send(RegisterCall::Register { .. }),
        next matches RegisterStage::AwaitingRegistration { .. },
        step->Send_0->Register_phone@ == phone@,
        step->Send_0->Register_password@ == next->AwaitingRegistration_secrets.password@,
        step->Send_0->Register_body.session_id@ == session_id@,
        step->Send_0->Register_body.account_attributes.registration_id
            == next->AwaitingRegistration_secrets.registration_id,
        next->AwaitingRegistration_phone@ == phone@,
        next->AwaitingRegistration_aci_identity@ == keys.aci_identity@,
        next->AwaitingRegistration_pni_identity@ == keys.pni_identity@,
        next->AwaitingRegistration_secrets.password@.len() == 28,
        next->AwaitingRegistration_secrets.master_key@.len() == 32,
        next->AwaitingRegistration_secrets.profile_key@.len() == 32,
{
}

} // verus!
