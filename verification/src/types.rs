//! Data types shared across the library: the error returned by every flow
//! and the outcome of a verification-code request.

use vstd::prelude::*;

verus! {

/// Error returned by the Signal flows.
#[derive(Debug)]
pub enum SignalError {
    /// The transport failed (connection, TLS, timeout, unreadable body);
    /// holds the transport's description of the failure.
    Http(String),
    /// Signal answered with a non-success status.
    Api { status: u16, body: String },
    /// Signal demands a captcha (status 402).
    CaptchaRequired,
    /// The existing account on this number supports device-to-device
    /// transfer; Signal requires an explicit opt-out before registering
    /// afresh. Retry with `skip_device_transfer = true`.
    DeviceTransferAvailable,
    /// The device-linking URI is malformed.
    InvalidUri(String),
    /// The Signal Protocol layer failed; holds its description.
    Protocol(String),
    /// Any other failure.
    Other(String),
}

/// The text of an error, as shown to the user.
pub open spec fn error_text(e: SignalError) -> Seq<char> {
    match e {
        SignalError::Http(m) => "HTTP error: "@ + m@,
        SignalError::Api { status, body } => "Signal API error "@ + crate::text::decimal_spec(status as nat) + ": "@
            + body@,
        SignalError::CaptchaRequired => "Captcha required"@,
        SignalError::DeviceTransferAvailable => "Device transfer available"@,
        SignalError::InvalidUri(m) => "Invalid URI: "@ + m@,
        SignalError::Protocol(m) => "Signal Protocol error: "@ + m@,
        SignalError::Other(m) => m@,
    }
}

impl SignalError {
    /// The text of the error, as shown to the user.
    pub fn describe(&self) -> (r: String)
        ensures
            r@ == error_text(*self),
    {
        match self {
            SignalError::Http(m) => {
                let mut s = String::from_str("HTTP error: ");
                s.append(m.as_str());
                s
            },
            SignalError::Api { status, body } => {
                let mut s = String::from_str("Signal API error ");
                let d = crate::text::decimal(*status as usize);
                s.append(d.as_str());
                s.append(": ");
                s.append(body.as_str());
                s
            },
            SignalError::CaptchaRequired => String::from_str("Captcha required"),
            SignalError::DeviceTransferAvailable => String::from_str("Device transfer available"),
            SignalError::InvalidUri(m) => {
                let mut s = String::from_str("Invalid URI: ");
                s.append(m.as_str());
                s
            },
            SignalError::Protocol(m) => {
                let mut s = String::from_str("Signal Protocol error: ");
                s.append(m.as_str());
                s
            },
            SignalError::Other(m) => m.clone(),
        }
    }
}

/// Result of requesting a verification code.
pub enum VerificationRequest {
    /// The code was sent; the session id goes to `verify_and_register`.
    CodeSent { session_id: String },
    /// Signal requires a captcha before it sends the code.
    CaptchaRequired { session_id: String },
}

/// All the material of a registered Signal account.
///
/// Created by the registration flow and required for linking. The identity
/// key pairs are held in libsignal's serialized form
/// (`IdentityKeyPair::serialize`); the Signal Protocol layer that produces
/// and reads them lives with the caller.
pub struct SignalAccount {
    pub phone: String,
    /// Base64-encoded random password used for HTTP basic auth.
    pub password: String,
    /// ACI (account identifier) identity key pair, serialized.
    pub aci_identity: Vec<u8>,
    /// PNI (phone number identity) identity key pair, serialized.
    pub pni_identity: Vec<u8>,
    /// ACI UUID returned by Signal after registration.
    pub aci: Option<String>,
    /// PNI UUID returned by Signal after registration.
    pub pni: Option<String>,
    /// 32-byte master key, sent in every provisioning message.
    pub master_key: Vec<u8>,
    /// 32-byte random profile key.
    pub profile_key: Vec<u8>,
    /// 14-bit random registration id.
    pub registration_id: u32,
    /// Name of the Signal Desktop profile bound to this account, if any.
    pub desktop_profile: Option<String>,
}

/// Non-sensitive metadata of a saved account, written to disk.
pub struct PersistedAccount {
    pub phone: String,
    pub aci: Option<String>,
    pub pni: Option<String>,
    pub registration_id: u32,
    pub desktop_profile: Option<String>,
}

/// Sensitive fields of an account, kept in the OS keyring; binary fields
/// are base64-encoded because keyring backends store strings.
pub struct AccountSecrets {
    pub password: String,
    pub aci_identity_b64: String,
    pub pni_identity_b64: String,
    pub master_key_b64: String,
    pub profile_key_b64: String,
}

/// The byte fields of the account can be base64-encoded.
pub open spec fn account_encodable(a: &SignalAccount) -> bool {
    &&& crate::crypto::encodable_bytes(a.aci_identity@)
    &&& crate::crypto::encodable_bytes(a.pni_identity@)
    &&& crate::crypto::encodable_bytes(a.master_key@)
    &&& crate::crypto::encodable_bytes(a.profile_key@)
}

/// Whether the account's binary fields can be base64-encoded.
pub fn account_fits(a: &SignalAccount) -> (r: bool)
    ensures
        r == account_encodable(a),
{
    crate::crypto::encodable_len(a.aci_identity.len()) && crate::crypto::encodable_len(a.pni_identity.len())
        && crate::crypto::encodable_len(a.master_key.len()) && crate::crypto::encodable_len(a.profile_key.len())
}

/// The on-disk half of `to_persisted`.
pub open spec fn persisted_of(a: &SignalAccount, p: &PersistedAccount) -> bool {
    &&& p.phone@ == a.phone@
    &&& p.aci.deep_view() == a.aci.deep_view()
    &&& p.pni.deep_view() == a.pni.deep_view()
    &&& p.registration_id == a.registration_id
    &&& p.desktop_profile.deep_view() == a.desktop_profile.deep_view()
}

/// The keyring half of `to_persisted`.
pub open spec fn secrets_of(a: &SignalAccount, s: &AccountSecrets) -> bool {
    &&& s.password@ == a.password@
    &&& s.aci_identity_b64@ == crate::crypto::base64_standard_encode(a.aci_identity@)
    &&& s.pni_identity_b64@ == crate::crypto::base64_standard_encode(a.pni_identity@)
    &&& s.master_key_b64@ == crate::crypto::base64_standard_encode(a.master_key@)
    &&& s.profile_key_b64@ == crate::crypto::base64_standard_encode(a.profile_key@)
}

/// The secrets decode back to the account's binary fields.
pub open spec fn decodes_back(a: &SignalAccount, s: &AccountSecrets) -> bool {
    &&& decoded(s.aci_identity_b64@) == Some(a.aci_identity@)
    &&& decoded(s.pni_identity_b64@) == Some(a.pni_identity@)
    &&& decoded(s.master_key_b64@) == Some(a.master_key@)
    &&& decoded(s.profile_key_b64@) == Some(a.profile_key@)
}

/// Two accounts hold the same values in every field.
pub open spec fn same_account(a: &SignalAccount, b: &SignalAccount) -> bool {
    &&& a.phone@ == b.phone@
    &&& a.password@ == b.password@
    &&& a.aci_identity@ == b.aci_identity@
    &&& a.pni_identity@ == b.pni_identity@
    &&& a.aci.deep_view() == b.aci.deep_view()
    &&& a.pni.deep_view() == b.pni.deep_view()
    &&& a.master_key@ == b.master_key@
    &&& a.profile_key@ == b.profile_key@
    &&& a.registration_id == b.registration_id
    &&& a.desktop_profile.deep_view() == b.desktop_profile.deep_view()
}

/// Restoring what `to_persisted` produced gives the account back: the
/// secrets decode without error and every field is restored.
pub proof fn lemma_persisted_roundtrip(
    a: &SignalAccount,
    p: &PersistedAccount,
    s: &AccountSecrets,
    b: &SignalAccount,
)
    requires
        persisted_of(a, p),
        secrets_of(a, s),
        decodes_back(a, s),
        restored_from(p, s, b),
    ensures
        first_undecodable(s) is None,
        same_account(a, b),
{
}

fn copy_opt_string(o: &Option<String>) -> (r: Option<String>)
    ensures
        r.deep_view() == o.deep_view(),
{
    match o {
        Some(s) => Some(s.clone()),
        None => None,
    }
}

/// `base64` of the UTF-8 bytes held in `s`, decoded.
pub open spec fn decoded(s: Seq<char>) -> Option<Seq<u8>> {
    crate::crypto::base64_standard_decode(vstd::utf8::encode_utf8(s))
}

/// What `try_from_persisted` gives: the first field (in the order ACI
/// identity, PNI identity, master key, profile key) that is not valid base64
/// is reported; otherwise the account.
pub open spec fn restored_from(p: &PersistedAccount, s: &AccountSecrets, a: &SignalAccount) -> bool {
    &&& a.phone@ == p.phone@
    &&& a.password@ == s.password@
    &&& Some(a.aci_identity@) == decoded(s.aci_identity_b64@)
    &&& Some(a.pni_identity@) == decoded(s.pni_identity_b64@)
    &&& a.aci.deep_view() == p.aci.deep_view()
    &&& a.pni.deep_view() == p.pni.deep_view()
    &&& Some(a.master_key@) == decoded(s.master_key_b64@)
    &&& Some(a.profile_key@) == decoded(s.profile_key_b64@)
    &&& a.registration_id == p.registration_id
    &&& a.desktop_profile.deep_view() == p.desktop_profile.deep_view()
}

/// The field whose decoding fails first, if any.
pub open spec fn first_undecodable(s: &AccountSecrets) -> Option<Seq<char>> {
    if decoded(s.aci_identity_b64@) is None {
        Some("aci_identity"@)
    } else if decoded(s.pni_identity_b64@) is None {
        Some("pni_identity"@)
    } else if decoded(s.master_key_b64@) is None {
        Some("master_key"@)
    } else if decoded(s.profile_key_b64@) is None {
        Some("profile_key"@)
    } else {
        None
    }
}

/// Both identity fields are valid base64.
pub open spec fn identities_decode(s: &AccountSecrets) -> bool {
    decoded(s.aci_identity_b64@) is Some && decoded(s.pni_identity_b64@) is Some
}

fn prefixed(head: &str, tail: &String) -> (r: String)
    ensures
        r@ == head@ + tail@,
{
    let mut m = String::from_str(head);
    m.append(tail.as_str());
    m
}

/// The decoded ACI and PNI identity bytes, where the fields are valid
/// base64.
pub fn identity_bytes(s: &AccountSecrets) -> (r: (Option<Vec<u8>>, Option<Vec<u8>>))
    ensures
        r.0 matches Some(v) ==> decoded(s.aci_identity_b64@) == Some(v@),
        r.0 is None ==> decoded(s.aci_identity_b64@) is None,
        r.1 matches Some(v) ==> decoded(s.pni_identity_b64@) == Some(v@),
        r.1 is None ==> decoded(s.pni_identity_b64@) is None,
{
    let aci = match crate::crypto::b64_standard_decode(s.aci_identity_b64.as_str().as_bytes()) {
        Ok(v) => Some(v),
        Err(_) => None,
    };
    let pni = match crate::crypto::b64_standard_decode(s.pni_identity_b64.as_str().as_bytes()) {
        Ok(v) => Some(v),
        Err(_) => None,
    };
    (aci, pni)
}

fn decode_field(text: &String, what: &str) -> (r: Result<Vec<u8>, SignalError>)
    ensures
        r is Ok <==> decoded(text@) is Some,
        r matches Ok(v) ==> Some(v@) == decoded(text@),
        r matches Err(SignalError::Other(m)) ==> m@.len() >= 7 + what@.len() && m@.subrange(0, 7 + what@.len() as int)
            == "decode "@ + what@,
        r is Err ==> r matches Err(SignalError::Other(_)),
{
    match crate::crypto::b64_standard_decode(text.as_str().as_bytes()) {
        Ok(v) => Ok(v),
        Err(e) => {
            let mut m = String::from_str("decode ");
            m.append(what);
            m.append(": ");
            m.append(e.as_str());
            proof {
                reveal_strlit("decode ");
                reveal_strlit(": ");
                assert(m@.subrange(0, 7 + what@.len() as int) =~= "decode "@ + what@);
            }
            Err(SignalError::Other(m))
        },
    }
}

impl SignalAccount {
    /// A copy of the account.
    pub fn duplicate(&self) -> (r: Self)
        ensures
            same_account(&r, self),
    {
        let r = SignalAccount {
            phone: self.phone.clone(),
            password: self.password.clone(),
            aci_identity: crate::uri::copy_range(self.aci_identity.as_slice(), 0, self.aci_identity.len()),
            pni_identity: crate::uri::copy_range(self.pni_identity.as_slice(), 0, self.pni_identity.len()),
            aci: copy_opt_string(&self.aci),
            pni: copy_opt_string(&self.pni),
            master_key: crate::uri::copy_range(self.master_key.as_slice(), 0, self.master_key.len()),
            profile_key: crate::uri::copy_range(self.profile_key.as_slice(), 0, self.profile_key.len()),
            registration_id: self.registration_id,
            desktop_profile: copy_opt_string(&self.desktop_profile),
        };
        assert(r.aci_identity@ =~= self.aci_identity@);
        assert(r.pni_identity@ =~= self.pni_identity@);
        assert(r.master_key@ =~= self.master_key@);
        assert(r.profile_key@ =~= self.profile_key@);
        r
    }

    /// A made-up account for the demo backend and for tests: fixed
    /// password, UUIDs and registration id, random 32-byte master and
    /// profile keys, no desktop profile. The identity key pairs, which the
    /// Signal Protocol layer generates, are handed in.
    pub fn dummy(
        phone: &str,
        aci_identity: Vec<u8>,
        pni_identity: Vec<u8>,
        rng: &mut rand::rngs::StdRng,
    ) -> (r: Self)
        ensures
            r.phone@ == phone@,
            r.password@ == "demo-password"@,
            r.aci_identity@ == aci_identity@,
            r.pni_identity@ == pni_identity@,
            r.aci.deep_view() == Some("demo-aci-uuid"@),
            r.pni.deep_view() == Some("demo-pni-uuid"@),
            r.master_key@.len() == 32,
            r.profile_key@.len() == 32,
            r.registration_id == 12345,
            r.desktop_profile is None,
    {
        let master_key = crate::crypto::random_bytes(rng, 32);
        let profile_key = crate::crypto::random_bytes(rng, 32);
        SignalAccount {
            phone: phone.to_string(),
            password: String::from_str("demo-password"),
            aci_identity,
            pni_identity,
            aci: Some(String::from_str("demo-aci-uuid")),
            pni: Some(String::from_str("demo-pni-uuid")),
            master_key,
            profile_key,
            registration_id: 12345,
            desktop_profile: None,
        }
    }

    /// Splits the account into its on-disk metadata and its keyring-bound
    /// secrets (binary secrets base64-encoded).
    pub fn to_persisted(&self) -> (r: (PersistedAccount, AccountSecrets))
        requires
            account_encodable(self),
        ensures
            persisted_of(self, &r.0),
            secrets_of(self, &r.1),
            decodes_back(self, &r.1),
    {
        let public = PersistedAccount {
            phone: self.phone.clone(),
            aci: copy_opt_string(&self.aci),
            pni: copy_opt_string(&self.pni),
            registration_id: self.registration_id,
            desktop_profile: copy_opt_string(&self.desktop_profile),
        };
        let secrets = AccountSecrets {
            password: self.password.clone(),
            aci_identity_b64: crate::crypto::b64_standard_encode(self.aci_identity.as_slice()),
            pni_identity_b64: crate::crypto::b64_standard_encode(self.pni_identity.as_slice()),
            master_key_b64: crate::crypto::b64_standard_encode(self.master_key.as_slice()),
            profile_key_b64: crate::crypto::b64_standard_encode(self.profile_key.as_slice()),
        };
        (public, secrets)
    }

    /// Inverse of `to_persisted`. The identity fields are decoded first; a
    /// field that is not valid base64 fails, naming it. `aci_check` and
    /// `pni_check` are the outcomes of parsing the decoded ACI and PNI bytes
    /// as identity key pairs (done by the Signal Protocol layer); a failed
    /// parse fails with its reason. The master and profile keys are decoded
    /// last.
    pub fn try_from_persisted(
        p: PersistedAccount,
        s: AccountSecrets,
        aci_check: Result<(), String>,
        pni_check: Result<(), String>,
    ) -> (r: Result<Self, SignalError>)
        ensures
            r is Ok <==> first_undecodable(&s) is None && aci_check is Ok && pni_check is Ok,
            r matches Ok(a) ==> restored_from(&p, &s, &a),
            !identities_decode(&s) || (aci_check is Ok && pni_check is Ok) ==> (r matches Err(SignalError::Other(m))
                ==> first_undecodable(&s) matches Some(f) && m@.len() >= 7 + f.len() && m@.subrange(0, 7 + f.len() as int)
                == "decode "@ + f),
            identities_decode(&s) && aci_check is Err ==> (r matches Err(SignalError::Other(m)) && m@
                == "parse aci_identity: "@ + aci_check->Err_0@),
            identities_decode(&s) && aci_check is Ok && pni_check is Err ==> (r matches Err(SignalError::Other(m)) && m@
                == "parse pni_identity: "@ + pni_check->Err_0@),
            r is Err ==> r matches Err(SignalError::Other(_)),
    {
        proof {
            reveal_strlit("aci_identity");
            reveal_strlit("pni_identity");
            reveal_strlit("master_key");
            reveal_strlit("profile_key");
        }
        let aci_identity = match decode_field(&s.aci_identity_b64, "aci_identity") {
            Ok(v) => v,
            Err(e) => return Err(e),
        };
        let pni_identity = match decode_field(&s.pni_identity_b64, "pni_identity") {
            Ok(v) => v,
            Err(e) => return Err(e),
        };
        if let Err(e) = aci_check {
            return Err(SignalError::Other(prefixed("parse aci_identity: ", &e)));
        }
        if let Err(e) = pni_check {
            return Err(SignalError::Other(prefixed("parse pni_identity: ", &e)));
        }
        let master_key = match decode_field(&s.master_key_b64, "master_key") {
            Ok(v) => v,
            Err(e) => return Err(e),
        };
        let profile_key = match decode_field(&s.profile_key_b64, "profile_key") {
            Ok(v) => v,
            Err(e) => return Err(e),
        };
        Ok(SignalAccount {
            phone: p.phone,
            password: s.password,
            aci_identity,
            pni_identity,
            aci: p.aci,
            pni: p.pni,
            master_key,
            profile_key,
            registration_id: p.registration_id,
            desktop_profile: p.desktop_profile,
        })
    }
}

} // verus!
