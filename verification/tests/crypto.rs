use rand::SeedableRng;
use base64::Engine;
use cbc::cipher::{block_padding::Pkcs7, BlockDecryptMut, KeyIvInit};
use hmac::Mac;
use signal_setup::crypto::{
    djb_key, encodable_len, encrypt_provision_message, parse_uuid_bytes, random_password, seal_provision_message,
};
use signal_setup::proto::ProvisionMessage;

fn message(number: Option<&str>, code: Option<&str>) -> ProvisionMessage {
    ProvisionMessage {
        aci_identity_key_public: None,
        aci_identity_key_private: None,
        number: number.map(|s| s.to_string()),
        provisioning_code: code.map(|s| s.to_string()),
        user_agent: None,
        profile_key: None,
        read_receipts: None,
        aci: None,
        provisioning_version: None,
        pni: None,
        pni_identity_key_public: None,
        pni_identity_key_private: None,
        master_key: None,
        aci_binary: None,
        pni_binary: None,
    }
}

fn device_public_key() -> Vec<u8> {
    let secret = x25519_dalek::StaticSecret::from([7u8; 32]);
    x25519_dalek::PublicKey::from(&secret).as_bytes().to_vec()
}

fn check_djb_key_prefix() {
    let key = [0u8; 32];
    let djb = djb_key(&key);
    assert_eq!(djb.len(), 33);
    assert_eq!(djb[0], 0x05);
}

#[test]
fn crypto_test_djb_key_prefix() {
    check_djb_key_prefix();
}

#[test]
fn signal_http_test_djb_key_prefix() {
    check_djb_key_prefix();
}

fn check_encrypt_roundtrip() {
    let mut rng = rand::rngs::StdRng::from_os_rng();
    let device_pub = device_public_key();
    let msg = message(Some("+123456789"), Some("code123"));
    let envelope = encrypt_provision_message(&msg, &device_pub, &mut rng).unwrap();
    assert!(envelope.public_key.is_some());
    let body = envelope.body.unwrap();
    assert!(!body.is_empty());
    assert_eq!(body[0], 1u8);
}

#[test]
fn crypto_test_encrypt_provision_message_roundtrip() {
    check_encrypt_roundtrip();
}

#[test]
fn signal_http_test_encrypt_provision_message_roundtrip() {
    check_encrypt_roundtrip();
}

fn check_random_password_length() {
    let mut rng = rand::rngs::StdRng::from_os_rng();
    let pw = random_password(&mut rng);
    assert_eq!(pw.len(), 28);
}

#[test]
fn crypto_test_random_password_length() {
    check_random_password_length();
}

#[test]
fn signal_http_test_random_password_length() {
    check_random_password_length();
}

fn check_parse_uuid_bytes() {
    let uuid = "550e8400-e29b-41d4-a716-446655440000";
    let bytes = parse_uuid_bytes(uuid).unwrap();
    assert_eq!(bytes.len(), 16);
    assert_eq!(bytes[0], 0x55);
    assert_eq!(bytes[1], 0x0e);
}

#[test]
fn crypto_test_parse_uuid_bytes() {
    check_parse_uuid_bytes();
}

#[test]
fn signal_http_test_parse_uuid_bytes() {
    check_parse_uuid_bytes();
}

#[test]
fn crypto_test_parse_uuid_bytes_invalid() {
    assert!(parse_uuid_bytes("not-a-uuid").is_none());
}

#[test]
fn signal_http_test_parse_uuid_bytes_invalid() {
    assert!(parse_uuid_bytes("not-a-uuid").is_none());
}

#[test]
fn uuid_bytes_full_value_and_case() {
    let bytes = parse_uuid_bytes("550E8400-e29b-41d4-A716-446655440000").unwrap();
    assert_eq!(
        bytes,
        vec![0x55, 0x0e, 0x84, 0x00, 0xe2, 0x9b, 0x41, 0xd4, 0xa7, 0x16, 0x44, 0x66, 0x55, 0x44, 0x00, 0x00]
    );
    // Too short, too long, or not hexadecimal.
    assert!(parse_uuid_bytes("550e8400-e29b-41d4-a716-44665544000").is_none());
    assert!(parse_uuid_bytes("550e8400-e29b-41d4-a716-4466554400000").is_none());
    assert!(parse_uuid_bytes("zz0e8400-e29b-41d4-a716-446655440000").is_none());
    // A sign followed by a digit parses as `u8::from_str_radix` does.
    assert_eq!(parse_uuid_bytes("+50e8400e29b41d4a716446655440000").unwrap()[0], 0x05);
}

#[test]
fn sealed_envelope_matches_the_provisioning_cipher() {
    let device_secret = x25519_dalek::StaticSecret::from([7u8; 32]);
    let device_pub = x25519_dalek::PublicKey::from(&device_secret);
    let ephemeral = [9u8; 32];
    let iv = [3u8; 16];
    let msg = message(Some("+123456789"), Some("code123"));
    let plaintext = msg.encode_to_vec();
    let envelope = seal_provision_message(&msg, device_pub.as_bytes(), &ephemeral, &iv);

    // The public key is the ephemeral key, DJB-encoded.
    let eph_pub = x25519_dalek::PublicKey::from(&x25519_dalek::StaticSecret::from(ephemeral));
    let public_key = envelope.public_key.clone().unwrap();
    assert_eq!(public_key.len(), 33);
    assert_eq!(public_key[0], 5);
    assert_eq!(&public_key[1..], eph_pub.as_bytes());

    // The device recomputes the keys and checks MAC and ciphertext.
    let shared = device_secret.diffie_hellman(&eph_pub);
    let hk = hkdf::Hkdf::<sha2::Sha256>::new(None, shared.as_bytes());
    let mut km = [0u8; 64];
    hk.expand(b"TextSecure Provisioning Message", &mut km).unwrap();
    let body = envelope.body.clone().unwrap();
    assert_eq!(body[0], 1);
    assert_eq!(&body[1..17], &iv);
    let padded = 16 * (plaintext.len() / 16 + 1);
    assert_eq!(body.len(), 1 + 16 + padded + 32);
    let mut mac = hmac::Hmac::<sha2::Sha256>::new_from_slice(&km[32..]).unwrap();
    mac.update(&body[..body.len() - 32]);
    mac.verify_slice(&body[body.len() - 32..]).unwrap();
    let dec = cbc::Decryptor::<aes::Aes256>::new_from_slices(&km[..32], &iv).unwrap();
    let opened = dec.decrypt_padded_vec_mut::<Pkcs7>(&body[17..body.len() - 32]).unwrap();
    assert_eq!(opened, plaintext);
}

#[test]
fn encodable_lengths() {
    assert!(encodable_len(0));
    assert!(encodable_len(3));
    assert!(!encodable_len(usize::MAX));
}
