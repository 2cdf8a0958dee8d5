use rand::SeedableRng;
use base64::Engine;
use signal_setup::http::{
    parse_reply, response_error, session_step, signal_api, start_captcha_submission, start_code_request,
    strip_captcha_scheme, RegistrationSessionResponse, SessionCall, SessionReply, SessionStage, SessionStep,
};
use signal_setup::link::{
    decode_bundle, device_public_key, link_step, start_link, Ciphertext, CiphertextKind, DeviceKeys,
    IdentityKeyParts, KeyResponse, LinkCall, LinkReply, LinkStage, LinkStep, PqPreKeyEntry, PreKeyEntry,
};
use signal_setup::register::{
    code_check, register_step, start_registration, AccountKeys, RegisterCall, RegisterReply, RegisterStage,
    RegisterStep, RegisteredIds, ProfileField, ProfileParts, SignedKey, padded_profile_field,
};
use signal_setup::relays::{relays_from_reply, relays_request, TurnServer};
use signal_setup::types::{SignalAccount, SignalError, VerificationRequest};
use signal_setup::username::{start_username, username_step, UsernameCall, UsernameProof, UsernameReply, UsernameStep};

fn session(id: &str, allowed: bool, info: &[&str]) -> RegistrationSessionResponse {
    RegistrationSessionResponse {
        id: id.to_string(),
        allowed_to_request_code: allowed,
        requested_information: info.iter().map(|s| s.to_string()).collect(),
    }
}

#[test]
fn endpoints() {
    assert_eq!(signal_api(false), "https://chat.signal.org");
    assert_eq!(signal_api(true), "https://chat.staging.signal.org");
}

#[test]
fn status_errors() {
    assert!(response_error(200, String::new()).is_none());
    assert!(matches!(response_error(402, String::new()), Some(SignalError::CaptchaRequired)));
    match response_error(500, "boom".to_string()) {
        Some(SignalError::Api { status, body }) => {
            assert_eq!(status, 500);
            assert_eq!(body, "boom");
        }
        _ => panic!("expected an API error"),
    }
    assert_eq!(parse_reply::<u32>(204, String::new(), Ok(5)).unwrap(), 5);
    assert!(matches!(parse_reply::<u32>(200, String::new(), Err("bad json".to_string())), Err(SignalError::Http(m)) if m == "bad json"));
}

#[test]
fn captcha_scheme_is_stripped() {
    assert_eq!(strip_captcha_scheme("signalcaptcha://abc.def"), "abc.def");
    assert_eq!(strip_captcha_scheme("abc.def"), "abc.def");
    assert_eq!(strip_captcha_scheme("signalcaptcha:/x"), "signalcaptcha:/x");
}

#[test]
fn code_request_without_captcha() {
    let (stage, call) = start_code_request("+15551234567", None);
    assert!(matches!(call, SessionCall::CreateSession { ref number } if number == "+15551234567"));
    let (stage, step) = session_step(stage, SessionReply::Session(Ok(session("s1", true, &[]))));
    assert!(matches!(step, SessionStep::Send(SessionCall::RequestCode { ref session_id }) if session_id == "s1"));
    let (_, step) = session_step(stage, SessionReply::CodeRequested(Ok(())));
    assert!(matches!(step, SessionStep::Done(Ok(VerificationRequest::CodeSent { ref session_id })) if session_id == "s1"));
}

#[test]
fn code_request_needing_captcha() {
    let (stage, _) = start_code_request("+15551234567", None);
    let (_, step) = session_step(stage, SessionReply::Session(Ok(session("s2", true, &["pushChallenge", "captcha"]))));
    assert!(matches!(step, SessionStep::Done(Ok(VerificationRequest::CaptchaRequired { ref session_id })) if session_id == "s2"));
}

#[test]
fn code_request_with_token_and_refusal() {
    let (stage, _) = start_code_request("+15551234567", Some("signalcaptcha://tok"));
    let (stage, step) = session_step(stage, SessionReply::Session(Ok(session("s3", false, &["captcha"]))));
    assert!(matches!(step, SessionStep::Send(SessionCall::SubmitCaptcha { ref session_id, ref captcha }) if session_id == "s3" && captcha == "tok"));
    let (_, step) = session_step(stage, SessionReply::Session(Ok(session("s3", false, &[]))));
    assert!(matches!(step, SessionStep::Done(Err(SignalError::Other(ref m))) if m == "Server does not allow requesting a code at this time."));
}

#[test]
fn captcha_submission_and_errors() {
    let (stage, call) = start_captcha_submission("s4", "signalcaptcha://t");
    assert!(matches!(call, SessionCall::SubmitCaptcha { ref captcha, .. } if captcha == "t"));
    let (_, step) = session_step(stage, SessionReply::Session(Err(SignalError::CaptchaRequired)));
    assert!(matches!(step, SessionStep::Done(Err(SignalError::CaptchaRequired))));
    let (_, step) = session_step(SessionStage::Finished, SessionReply::CodeRequested(Ok(())));
    assert!(matches!(step, SessionStep::Done(Err(SignalError::Other(ref m))) if m == "Unexpected reply for the current step."));
}

fn signed(n: u8) -> SignedKey {
    SignedKey { public_key: vec![n; 33], signature: vec![n; 64] }
}

fn keys() -> AccountKeys {
    AccountKeys {
        aci_identity: vec![1; 70],
        pni_identity: vec![2; 70],
        aci_identity_key: vec![5; 33],
        pni_identity_key: vec![6; 33],
        aci_signed_pre_key: signed(7),
        pni_signed_pre_key: signed(8),
        aci_kyber_pre_key: signed(9),
        pni_kyber_pre_key: signed(10),
    }
}

#[test]
fn code_check_outcomes() {
    assert_eq!(code_check(200, String::new(), Ok(true)).unwrap(), true);
    assert_eq!(code_check(200, String::new(), Ok(false)).unwrap(), false);
    assert_eq!(code_check(409, String::new(), Ok(true)).unwrap(), true);
    assert_eq!(code_check(409, String::new(), Err("no body".to_string())).unwrap(), false);
    assert!(matches!(code_check(402, String::new(), Ok(true)), Err(SignalError::CaptchaRequired)));
    assert!(matches!(code_check(200, String::new(), Err("x".to_string())), Err(SignalError::Http(_))));
}

#[test]
fn registration_flow() {
    let mut rng = rand::rngs::StdRng::from_os_rng();
    let (stage, call) = start_registration("+15551234567", "sess", "123456", false, true);
    assert!(matches!(call, RegisterCall::SubmitCode { ref session_id, ref code } if session_id == "sess" && code == "123456"));
    let (stage, step) = register_step(
        stage,
        RegisterReply::CodeChecked { status: 200, body: String::new(), verified: Ok(true) },
        &mut rng,
    );
    assert!(matches!(step, RegisterStep::GenerateKeys));
    let (stage, step) = register_step(stage, RegisterReply::KeysGenerated(Ok(keys())), &mut rng);
    let (password, body) = match step {
        RegisterStep::Send(RegisterCall::Register { phone, password, body }) => {
            assert_eq!(phone, "+15551234567");
            (password, body)
        }
        _ => panic!("expected the registration request"),
    };
    assert_eq!(password.len(), 28);
    assert_eq!(body.session_id, "sess");
    assert!(!body.skip_device_transfer);
    assert!(body.every_signed_key_valid);
    assert!(body.account_attributes.fetches_messages);
    assert!(body.account_attributes.discoverable_by_phone_number);
    assert!(body.account_attributes.capabilities.storage && body.account_attributes.capabilities.spqr);
    assert!(!body.account_attributes.capabilities.attachment_backfill);
    assert_eq!(body.account_attributes.unidentified_access_key.len(), 24);
    assert_eq!(body.aci_signed_pre_key.key_id, 1);
    assert_eq!(body.aci_identity_key, "BQUFBQUFBQUFBQUFBQUFBQUFBQUFBQUFBQUFBQUFBQUF");
    let reg_id = body.account_attributes.registration_id;
    assert!((1..=16383).contains(&reg_id));
    let (stage, step) = register_step(
        stage,
        RegisterReply::Registered {
            status: 200,
            body: String::new(),
            ids: Ok(RegisteredIds { aci: Some("aci-1".to_string()), pni: Some("PNI:pni-1".to_string()) }),
        },
        &mut rng,
    );
    match step {
        RegisterStep::EncryptProfile { ref aci, ref profile_key } => {
            assert_eq!(aci, "aci-1");
            assert_eq!(profile_key.len(), 32);
        }
        _ => panic!("expected the profile step"),
    }
    let parts = ProfileParts {
        version: "abcd".to_string(),
        name: vec![1, 2, 3],
        about: vec![4],
        about_emoji: vec![],
        commitment: vec![0xff],
    };
    let (stage, step) = register_step(stage, RegisterReply::ProfileEncrypted(Ok(parts)), &mut rng);
    match step {
        RegisterStep::Send(RegisterCall::UploadProfile { ref aci, password: ref pw, ref body }) => {
            assert_eq!(aci, "aci-1");
            assert_eq!(pw, &password);
            assert_eq!(body.version, "abcd");
            assert_eq!(body.name, "AQID");
            assert_eq!(body.about, "BA==");
            assert_eq!(body.about_emoji, "");
            assert_eq!(body.commitment, "/w==");
            assert!(!body.avatar && !body.same_avatar);
        }
        _ => panic!("expected the profile upload"),
    }
    let (_, step) = register_step(stage, RegisterReply::ProfileUploaded { status: 200, body: String::new() }, &mut rng);
    match step {
        RegisterStep::Done(Ok(account)) => {
            assert_eq!(account.phone, "+15551234567");
            assert_eq!(account.password, password);
            assert_eq!(account.registration_id, reg_id);
            assert_eq!(account.aci.as_deref(), Some("aci-1"));
            assert_eq!(account.aci_identity, vec![1u8; 70]);
            assert_eq!(account.master_key.len(), 32);
        }
        _ => panic!("expected an account"),
    }
}

/// Registers with the given ids, up to the reply to the registration.
fn registered(ids: RegisteredIds, rng: &mut rand::rngs::StdRng) -> (RegisterStage, RegisterStep) {
    let (stage, _) = start_registration("+1", "s", "000000", false, false);
    let (stage, _) =
        register_step(stage, RegisterReply::CodeChecked { status: 200, body: String::new(), verified: Ok(true) }, rng);
    let (stage, _) = register_step(stage, RegisterReply::KeysGenerated(Ok(keys())), rng);
    register_step(stage, RegisterReply::Registered { status: 200, body: String::new(), ids: Ok(ids) }, rng)
}

#[test]
fn profile_upload_failure_fails_registration() {
    let mut rng = rand::rngs::StdRng::from_os_rng();
    let (stage, _) = registered(RegisteredIds { aci: Some("a".to_string()), pni: None }, &mut rng);
    let parts = ProfileParts { version: String::new(), name: vec![], about: vec![], about_emoji: vec![], commitment: vec![] };
    let (stage, _) = register_step(stage, RegisterReply::ProfileEncrypted(Ok(parts)), &mut rng);
    let (_, step) = register_step(stage, RegisterReply::ProfileUploaded { status: 403, body: "denied".to_string() }, &mut rng);
    match step {
        RegisterStep::Done(Err(SignalError::Api { status, body })) => {
            assert_eq!(status, 403);
            assert_eq!(body, "denied");
        }
        _ => panic!("expected the upload's error"),
    }
    let (stage, _) = registered(RegisteredIds { aci: Some("a".to_string()), pni: None }, &mut rng);
    let (_, step) = register_step(
        stage,
        RegisterReply::ProfileEncrypted(Err(SignalError::Other("Invalid ACI UUID: a".to_string()))),
        &mut rng,
    );
    assert!(matches!(step, RegisterStep::Done(Err(SignalError::Other(ref m))) if m == "Invalid ACI UUID: a"));
}

#[test]
fn registration_without_aci_skips_profile() {
    let mut rng = rand::rngs::StdRng::from_os_rng();
    let (_, step) = registered(RegisteredIds { aci: None, pni: Some("p".to_string()) }, &mut rng);
    match step {
        RegisterStep::Done(Ok(account)) => {
            assert!(account.aci.is_none());
            assert_eq!(account.pni.as_deref(), Some("p"));
        }
        _ => panic!("expected an account"),
    }
}

#[test]
fn registration_rejections() {
    let mut rng = rand::rngs::StdRng::from_os_rng();
    let (stage, _) = start_registration("+1", "s", "000000", false, false);
    let (_, step) =
        register_step(stage, RegisterReply::CodeChecked { status: 200, body: String::new(), verified: Ok(false) }, &mut rng);
    assert!(matches!(step, RegisterStep::Done(Err(SignalError::Other(ref m))) if m == "Verification code was not accepted."));

    let (stage, _) = start_registration("+1", "s", "000000", false, false);
    let (stage, _) =
        register_step(stage, RegisterReply::CodeChecked { status: 409, body: String::new(), verified: Ok(true) }, &mut rng);
    let (stage, _) = register_step(stage, RegisterReply::KeysGenerated(Ok(keys())), &mut rng);
    let (_, step) = register_step(
        stage,
        RegisterReply::Registered { status: 409, body: String::new(), ids: Err("x".to_string()) },
        &mut rng,
    );
    assert!(matches!(step, RegisterStep::Done(Err(SignalError::DeviceTransferAvailable))));

    let (stage, _) = start_registration("+1", "s", "1", true, false);
    let (_, step) = register_step(stage, RegisterReply::Transport("timeout".to_string()), &mut rng);
    assert!(matches!(step, RegisterStep::Done(Err(SignalError::Http(ref m))) if m == "timeout"));
}

fn account(aci: Option<&str>, pni: Option<&str>) -> SignalAccount {
    SignalAccount {
        phone: "+15551234567".to_string(),
        password: "pw".to_string(),
        aci_identity: vec![1; 70],
        pni_identity: vec![2; 70],
        aci: aci.map(|s| s.to_string()),
        pni: pni.map(|s| s.to_string()),
        master_key: vec![3; 32],
        profile_key: vec![4; 32],
        registration_id: 42,
        desktop_profile: None,
    }
}

fn parts() -> IdentityKeyParts {
    IdentityKeyParts { aci_public: vec![5; 33], aci_private: vec![6; 32], pni_public: vec![5; 33], pni_private: vec![7; 32] }
}

fn link_uri() -> String {
    let secret = x25519_dalek::StaticSecret::from([7u8; 32]);
    let public = x25519_dalek::PublicKey::from(&secret);
    let mut djb = vec![5u8];
    djb.extend_from_slice(public.as_bytes());
    format!("sgnl://linkdevice?uuid=eph&pub_key={}", base64::engine::general_purpose::URL_SAFE_NO_PAD.encode(djb))
}

#[test]
fn device_key_lengths() {
    assert_eq!(device_public_key(&[5u8; 33]).unwrap(), vec![5u8; 32]);
    assert_eq!(device_public_key(&[9u8; 32]).unwrap(), vec![9u8; 32]);
    match device_public_key(&[9u8; 31]) {
        Err(SignalError::InvalidUri(m)) => assert_eq!(m, "Unexpected public key length: 31"),
        _ => panic!("expected an error"),
    }
    match device_public_key(&[4u8; 33]) {
        Err(SignalError::InvalidUri(m)) => assert_eq!(m, "Unexpected public key length: 33"),
        _ => panic!("expected an error"),
    }
}

#[test]
fn link_refusals() {
    assert!(matches!(start_link(&account(Some("a"), None), parts(), "sgnl://linkdevice"), Err(SignalError::InvalidUri(_))));
    match start_link(&account(None, None), parts(), &link_uri()) {
        Err(SignalError::Other(m)) => assert_eq!(m, "ACI UUID is missing; cannot authenticate with Signal"),
        _ => panic!("expected a missing ACI"),
    }
}

#[test]
fn link_flow() {
    let mut rng = rand::rngs::StdRng::from_os_rng();
    let acct = account(Some("550e8400-e29b-41d4-a716-446655440000"), Some("PNI:550e8400-e29b-41d4-a716-446655440001"));
    let (stage, call) = match start_link(&acct, parts(), &link_uri()) {
        Ok(x) => x,
        Err(_) => panic!("expected the provisioning request"),
    };
    assert!(matches!(call, LinkCall::FetchProvisioningCode { ref aci, ref password } if aci == "550e8400-e29b-41d4-a716-446655440000" && password == "pw"));
    let (stage, step) = link_step(
        stage,
        LinkReply::ProvisioningCode { status: 200, body: String::new(), code: Ok("code123".to_string()) },
        &mut rng,
    );
    match step {
        LinkStep::Send(LinkCall::SendEnvelope { ref ephemeral_id, ref body, .. }) => {
            assert_eq!(ephemeral_id, "eph");
            assert!(!body.is_empty());
        }
        _ => panic!("expected the envelope"),
    }
    let (stage, step) = link_step(stage, LinkReply::Delivered { status: 200, body: String::new() }, &mut rng);
    assert!(matches!(step, LinkStep::Send(LinkCall::FetchPreKeys { device_id: 2, delay_secs: 0, .. })));
    // Not published yet: ask again after two seconds.
    let (stage, step) = link_step(
        stage,
        LinkReply::PreKeys { status: 404, keys: Err("none".to_string()), deadline_passed: false },
        &mut rng,
    );
    assert!(matches!(step, LinkStep::Send(LinkCall::FetchPreKeys { delay_secs: 2, .. })));
    let keys = KeyResponse {
        identity_key: "BQUF".to_string(),
        devices: vec![DeviceKeys {
            registration_id: 77,
            pre_key: None,
            signed_pre_key: PreKeyEntry { key_id: 3, public_key: "BQ==".to_string(), signature: Some("AA==".to_string()) },
            pq_pre_key: Some(PqPreKeyEntry { key_id: 4, public_key: "Bg==".to_string(), signature: "Bw==".to_string() }),
        }],
    };
    let (stage, step) =
        link_step(stage, LinkReply::PreKeys { status: 200, keys: Ok(keys), deadline_passed: false }, &mut rng);
    match step {
        LinkStep::Encrypt { ref bundle, ref plaintext } => {
            assert_eq!(bundle.registration_id, 77);
            assert_eq!(bundle.identity_key, vec![5, 5, 5]);
            assert_eq!(bundle.kyber_prekey, Some(vec![6]));
            assert_eq!(plaintext, &vec![0x12, 0x06, 0x0a, 0x02, 0x30, 0x01, 0x22, 0x00]);
        }
        _ => panic!("expected the encryption"),
    }
    let (stage, step) = link_step(
        stage,
        LinkReply::Encrypted(Ok(Ciphertext { kind: CiphertextKind::PreKey, bytes: vec![1, 2, 3] })),
        &mut rng,
    );
    match step {
        LinkStep::Send(LinkCall::SendSync { ref message, .. }) => {
            assert_eq!(message.message_type, 3);
            assert_eq!(message.destination_device_id, 2);
            assert_eq!(message.destination_registration_id, 77);
            assert_eq!(message.content, "AQID");
        }
        _ => panic!("expected the sync message"),
    }
    let (_, step) = link_step(stage, LinkReply::SyncSent { status: 500, body: "busy".to_string() }, &mut rng);
    match step {
        LinkStep::Linked(Err(SignalError::Api { status, body })) => {
            assert_eq!(status, 500);
            assert_eq!(body, "busy");
        }
        _ => panic!("expected the sync's error"),
    }
    let (_, step) = link_step(
        LinkStage::AwaitingSyncResult,
        LinkReply::SyncSent { status: 200, body: String::new() },
        &mut rng,
    );
    assert!(matches!(step, LinkStep::Linked(Ok(()))));
}

#[test]
fn link_delivery_failure_and_sync_failures() {
    let mut rng = rand::rngs::StdRng::from_os_rng();
    let (_, step) = link_step(
        LinkStage::AwaitingDelivery { aci: "a".to_string(), password: "p".to_string() },
        LinkReply::Delivered { status: 402, body: "no".to_string() },
        &mut rng,
    );
    assert!(matches!(step, LinkStep::Done(Err(SignalError::Api { status: 402, .. }))));
    let (_, step) = link_step(
        LinkStage::AwaitingPreKeys { aci: "a".to_string(), password: "p".to_string() },
        LinkReply::PreKeys { status: 404, keys: Err("none".to_string()), deadline_passed: true },
        &mut rng,
    );
    match step {
        LinkStep::Linked(Err(SignalError::Other(m))) => assert_eq!(m, "Timed out waiting for linked device pre-keys"),
        _ => panic!("expected the time-out"),
    }
    let (_, step) = link_step(
        LinkStage::AwaitingCiphertext { aci: "a".to_string(), password: "p".to_string(), registration_id: 1 },
        LinkReply::Encrypted(Err(SignalError::Protocol("no session".to_string()))),
        &mut rng,
    );
    match step {
        LinkStep::Linked(Err(SignalError::Protocol(m))) => assert_eq!(m, "no session"),
        _ => panic!("expected the encryption error"),
    }
    let (_, step) = link_step(
        LinkStage::AwaitingCiphertext { aci: "a".to_string(), password: "p".to_string(), registration_id: 1 },
        LinkReply::Encrypted(Ok(Ciphertext { kind: CiphertextKind::Other("SenderKey".to_string()), bytes: vec![1] })),
        &mut rng,
    );
    match step {
        LinkStep::Linked(Err(SignalError::Other(m))) => assert_eq!(m, "Unexpected ciphertext message type: SenderKey"),
        _ => panic!("expected the kind error"),
    }
    let (_, step) = link_step(
        LinkStage::AwaitingPreKeys { aci: "a".to_string(), password: "p".to_string() },
        LinkReply::Transport("reset".to_string()),
        &mut rng,
    );
    assert!(matches!(step, LinkStep::Linked(Err(SignalError::Http(_)))));
}

#[test]
fn bundle_decoding() {
    let d = DeviceKeys {
        registration_id: 1,
        pre_key: Some(PreKeyEntry { key_id: 9, public_key: "AQ==".to_string(), signature: None }),
        signed_pre_key: PreKeyEntry { key_id: 3, public_key: "BQ==".to_string(), signature: None },
        pq_pre_key: None,
    };
    let b = decode_bundle(&"BQUF".to_string(), &d).unwrap();
    assert!(b.signed_prekey_signature.is_empty());
    assert_eq!(b.one_time_prekey_id, Some(9));
    assert!(b.kyber_prekey.is_none());
    match decode_bundle(&"not base64".to_string(), &d) {
        Err(m) => assert!(m.starts_with("bad identity key: ")),
        Ok(_) => panic!("expected a decode error"),
    }
}

#[test]
fn relays() {
    assert!(matches!(relays_request(&account(None, None)), Err(SignalError::Other(ref m)) if m == "Account has no ACI; cannot fetch relays"));
    let call = relays_request(&account(Some("a"), None)).unwrap();
    assert_eq!(call.aci, "a");
    let servers = vec![TurnServer {
        username: "u".to_string(),
        password: "p".to_string(),
        hostname: "h".to_string(),
        urls: vec!["turn:x".to_string()],
        urls_with_ips: vec![],
    }];
    assert_eq!(relays_from_reply(200, String::new(), Ok(servers)).unwrap().len(), 1);
    assert!(matches!(relays_from_reply(401, String::new(), Ok(vec![])), Err(SignalError::Api { status: 401, .. })));
}

#[test]
fn username_flow() {
    match start_username(&account(Some("a"), None), "name.12", Err("BadNickname".to_string())) {
        Err(SignalError::Other(m)) => assert_eq!(
            m,
            "Invalid username 'name.12' (expected nickname.discriminator, e.g. name.1234): BadNickname"
        ),
        _ => panic!("expected an invalid username"),
    }
    let (stage, call) = start_username(&account(Some("a"), None), "name.12", Ok(vec![0xfb, 0xff])).unwrap();
    assert!(matches!(call, UsernameCall::Reserve { ref username_hashes, .. } if username_hashes == &vec!["-_8".to_string()]));
    let (stage, step) = username_step(
        stage,
        UsernameReply::Reserved { status: 200, body: String::new(), username_hash: Ok("h".to_string()) },
    );
    assert!(matches!(step, UsernameStep::MakeProof { ref username } if username == "name.12"));
    let (stage, step) = username_step(
        stage,
        UsernameReply::ProofMade(Ok(UsernameProof { proof: vec![1], entropy: vec![2; 32], encrypted_username: vec![3] })),
    );
    assert!(matches!(step, UsernameStep::Send(UsernameCall::Confirm { ref zk_proof, ref username_hash, .. }) if zk_proof == "AQ" && username_hash == "h"));
    let (_, step) = username_step(
        stage,
        UsernameReply::Confirmed { status: 200, body: String::new(), handle: Ok(Some("link".to_string())) },
    );
    match step {
        UsernameStep::Done(Ok(c)) => {
            assert_eq!(c.username, "name.12");
            assert_eq!(c.username_link_handle.as_deref(), Some("link"));
            assert_eq!(c.username_link_entropy, vec![2u8; 32]);
        }
        _ => panic!("expected the confirmation"),
    }
}

#[test]
fn profile_fields_are_padded_to_their_bracket() {
    assert_eq!(padded_profile_field(b"", ProfileField::Name).unwrap(), vec![0u8; 53]);
    assert_eq!(padded_profile_field(b"", ProfileField::About).unwrap().len(), 128);
    assert_eq!(padded_profile_field(b"", ProfileField::AboutEmoji).unwrap().len(), 32);
    let long = vec![7u8; 60];
    let v = padded_profile_field(&long, ProfileField::Name).unwrap();
    assert_eq!(v.len(), 257);
    assert_eq!(&v[..60], &long[..]);
    assert!(v[60..].iter().all(|&b| b == 0));
    assert!(padded_profile_field(&[1u8; 33], ProfileField::AboutEmoji).is_none());
}
