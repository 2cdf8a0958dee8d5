use rand::SeedableRng;
use signal_setup::persistence::{
    accounts_path, keyring_user, merge_legacy, remove_account, restore_accounts, split_legacy_list,
    upsert, LegacyAccount, Removal, SavedEntry,
};
use signal_setup::types::{PersistedAccount, SignalAccount, SignalError};

fn dummy(phone: &str) -> SignalAccount {
    let mut rng = rand::rngs::StdRng::from_os_rng();
    SignalAccount::dummy(phone, vec![1u8; 65], vec![2u8; 65], &mut rng)
}

/// The saved list after saving each account in turn, with the secrets that
/// went to the keyring kept beside each entry.
struct Store {
    entries: Vec<PersistedAccount>,
    secrets: Vec<(String, signal_setup::types::AccountSecrets)>,
    file_exists: bool,
}

impl Store {
    fn new() -> Self {
        Store { entries: vec![], secrets: vec![], file_exists: false }
    }

    fn save(&mut self, account: &SignalAccount) {
        let (public, secrets) = account.to_persisted();
        self.secrets.retain(|(p, _)| p != &public.phone);
        self.secrets.push((public.phone.clone(), secrets));
        self.entries = upsert(&self.entries, public);
        self.file_exists = true;
    }

    fn delete(&mut self, phone: &str) {
        self.secrets.retain(|(p, _)| p != phone);
        match remove_account(&self.entries, phone) {
            Removal::Unchanged => {}
            Removal::RemoveFile => {
                self.entries.clear();
                self.file_exists = false;
            }
            Removal::Write(kept) => self.entries = kept,
        }
    }

    fn list(&self) -> Vec<SignalAccount> {
        let entries: Vec<SavedEntry> = self
            .entries
            .iter()
            .map(|p| SavedEntry {
                public: PersistedAccount {
                    phone: p.phone.clone(),
                    aci: p.aci.clone(),
                    pni: p.pni.clone(),
                    registration_id: p.registration_id,
                    desktop_profile: p.desktop_profile.clone(),
                },
                secrets: match self.secrets.iter().find(|(q, _)| q == &p.phone) {
                    Some((_, s)) => Ok(signal_setup::types::AccountSecrets {
                        password: s.password.clone(),
                        aci_identity_b64: s.aci_identity_b64.clone(),
                        pni_identity_b64: s.pni_identity_b64.clone(),
                        master_key_b64: s.master_key_b64.clone(),
                        profile_key_b64: s.profile_key_b64.clone(),
                    }),
                    None => Err(SignalError::Other("no entry".to_string())),
                },
                aci_check: Ok(()),
                pni_check: Ok(()),
            })
            .collect();
        restore_accounts(&entries).0
    }
}

#[test]
fn test_persisted_account_roundtrip() {
    let original = dummy("+15555550123");
    let (public, secrets) = original.to_persisted();
    // Only the public half goes to disk, as JSON.
    let mut obj = serde_json::Map::new();
    obj.insert("phone".to_string(), serde_json::Value::String(public.phone.clone()));
    obj.insert("aci".to_string(), serde_json::Value::String(public.aci.clone().unwrap()));
    obj.insert("pni".to_string(), serde_json::Value::String(public.pni.clone().unwrap()));
    obj.insert("registration_id".to_string(), serde_json::Value::from(public.registration_id));
    obj.insert("desktop_profile".to_string(), serde_json::Value::Null);
    let json = serde_json::to_string(&serde_json::Value::Object(obj)).unwrap();
    let v: serde_json::Value = serde_json::from_str(&json).unwrap();
    let parsed = PersistedAccount {
        phone: v["phone"].as_str().unwrap().to_string(),
        aci: v["aci"].as_str().map(|s| s.to_string()),
        pni: v["pni"].as_str().map(|s| s.to_string()),
        registration_id: v["registration_id"].as_u64().unwrap() as u32,
        desktop_profile: v["desktop_profile"].as_str().map(|s| s.to_string()),
    };
    let restored = SignalAccount::try_from_persisted(parsed, secrets, Ok(()), Ok(())).unwrap();

    assert_eq!(restored.phone, original.phone);
    assert_eq!(restored.password, original.password);
    assert_eq!(restored.aci, original.aci);
    assert_eq!(restored.pni, original.pni);
    assert_eq!(restored.registration_id, original.registration_id);
    assert_eq!(restored.master_key, original.master_key);
    assert_eq!(restored.profile_key, original.profile_key);
    assert_eq!(restored.aci_identity, original.aci_identity);
    assert_eq!(restored.pni_identity, original.pni_identity);
}

#[test]
fn dummy_account_values() {
    let a = dummy("+15555550123");
    assert_eq!(a.phone, "+15555550123");
    assert_eq!(a.password, "demo-password");
    assert_eq!(a.aci.as_deref(), Some("demo-aci-uuid"));
    assert_eq!(a.pni.as_deref(), Some("demo-pni-uuid"));
    assert_eq!(a.registration_id, 12345);
    assert_eq!(a.master_key.len(), 32);
    assert_eq!(a.profile_key.len(), 32);
    assert!(a.desktop_profile.is_none());
}

#[test]
fn restoring_reports_the_bad_field() {
    let (public, mut secrets) = dummy("+15555550123").to_persisted();
    secrets.master_key_b64 = "not base64!".to_string();
    match SignalAccount::try_from_persisted(public, secrets, Ok(()), Ok(())) {
        Err(SignalError::Other(m)) => assert!(m.starts_with("decode master_key: ")),
        _ => panic!("expected a decode error"),
    }
}

#[test]
fn list_is_empty_on_fresh_install() {
    assert!(Store::new().list().is_empty());
}

#[test]
fn save_then_list_returns_account() {
    let mut store = Store::new();
    store.save(&dummy("+15555550123"));
    let listed = store.list();
    assert_eq!(listed.len(), 1);
    assert_eq!(listed[0].phone, "+15555550123");
}

#[test]
fn save_multiple_accounts_keeps_all() {
    let mut store = Store::new();
    store.save(&dummy("+15555550111"));
    store.save(&dummy("+15555550222"));
    store.save(&dummy("+15555550333"));
    let listed = store.list();
    let phones: Vec<&str> = listed.iter().map(|a| a.phone.as_str()).collect();
    assert!(phones.contains(&"+15555550111"));
    assert!(phones.contains(&"+15555550222"));
    assert!(phones.contains(&"+15555550333"));
}

#[test]
fn save_same_phone_replaces_not_duplicates() {
    let mut store = Store::new();
    store.save(&dummy("+15555550123"));
    store.save(&dummy("+15555550123"));
    assert_eq!(store.list().len(), 1, "same phone must not duplicate");
}

#[test]
fn delete_removes_only_the_named_phone() {
    let mut store = Store::new();
    store.save(&dummy("+15555550111"));
    store.save(&dummy("+15555550222"));
    store.delete("+15555550111");
    let listed = store.list();
    assert_eq!(listed.len(), 1);
    assert_eq!(listed[0].phone, "+15555550222");
}

#[test]
fn delete_missing_phone_is_idempotent() {
    let mut store = Store::new();
    store.delete("+15555550999");
    store.save(&dummy("+15555550111"));
    store.delete("+15555550999");
    assert_eq!(store.list().len(), 1);
}

#[test]
fn delete_last_account_removes_file() {
    let mut store = Store::new();
    store.save(&dummy("+15555550111"));
    store.delete("+15555550111");
    assert!(!store.file_exists, "file should be gone after last delete");
}

#[test]
fn unreadable_secrets_are_skipped() {
    let mut store = Store::new();
    store.save(&dummy("+15555550111"));
    store.save(&dummy("+15555550222"));
    store.secrets.retain(|(p, _)| p != "+15555550111");
    let entries: Vec<SavedEntry> = store
        .entries
        .iter()
        .map(|p| SavedEntry {
            public: PersistedAccount {
                phone: p.phone.clone(),
                aci: None,
                pni: None,
                registration_id: 1,
                desktop_profile: None,
            },
            secrets: match store.secrets.iter().find(|(q, _)| q == &p.phone) {
                Some((_, s)) => Ok(signal_setup::types::AccountSecrets {
                    password: s.password.clone(),
                    aci_identity_b64: s.aci_identity_b64.clone(),
                    pni_identity_b64: s.pni_identity_b64.clone(),
                    master_key_b64: s.master_key_b64.clone(),
                    profile_key_b64: s.profile_key_b64.clone(),
                }),
                None => Err(SignalError::Other("no entry".to_string())),
            },
            aci_check: Ok(()),
            pni_check: Ok(()),
        })
        .collect();
    let (accounts, skipped) = restore_accounts(&entries);
    assert_eq!(accounts.len(), 1);
    assert_eq!(accounts[0].phone, "+15555550222");
    assert_eq!(skipped, vec!["+15555550111".to_string()]);
}

#[test]
fn keyring_names() {
    assert_eq!(keyring_user("+1555"), "+1555");
}

#[test]
fn invalid_identity_pairs_are_rejected() {
    let (public, secrets) = dummy("+15555550123").to_persisted();
    match SignalAccount::try_from_persisted(public, secrets, Err("bad key".to_string()), Ok(())) {
        Err(SignalError::Other(m)) => assert_eq!(m, "parse aci_identity: bad key"),
        _ => panic!("expected a parse error"),
    }
    let (public, secrets) = dummy("+15555550123").to_persisted();
    match SignalAccount::try_from_persisted(public, secrets, Ok(()), Err("short".to_string())) {
        Err(SignalError::Other(m)) => assert_eq!(m, "parse pni_identity: short"),
        _ => panic!("expected a parse error"),
    }
    // A field that is not base64 is reported before the key pairs.
    let (public, mut secrets) = dummy("+15555550123").to_persisted();
    secrets.pni_identity_b64 = "%%".to_string();
    match SignalAccount::try_from_persisted(public, secrets, Err("bad key".to_string()), Ok(())) {
        Err(SignalError::Other(m)) => assert!(m.starts_with("decode pni_identity: ")),
        _ => panic!("expected a decode error"),
    }
}

#[test]
fn corrupt_identity_is_skipped_when_listing() {
    let a = dummy("+15555550111");
    let b = dummy("+15555550222");
    let entry = |acc: &SignalAccount, aci_check: Result<(), String>| {
        let (public, secrets) = acc.to_persisted();
        SavedEntry { public, secrets: Ok(secrets), aci_check, pni_check: Ok(()) }
    };
    let entries = vec![entry(&a, Err("invalid".to_string())), entry(&b, Ok(()))];
    let (accounts, skipped) = restore_accounts(&entries);
    assert_eq!(accounts.len(), 1);
    assert_eq!(accounts[0].phone, "+15555550222");
    assert_eq!(skipped, vec!["+15555550111".to_string()]);
}

fn legacy(phone: &str) -> LegacyAccount {
    LegacyAccount {
        phone: phone.to_string(),
        password: "pw".to_string(),
        aci: Some("aci".to_string()),
        pni: None,
        registration_id: 7,
        aci_identity: "AQ==".to_string(),
        pni_identity: "Ag==".to_string(),
        master_key: "Aw==".to_string(),
        profile_key: "BA==".to_string(),
    }
}

#[test]
fn legacy_entries_split_and_merge() {
    let (public, secrets) = legacy("+1999").split();
    assert_eq!(public.phone, "+1999");
    assert!(public.desktop_profile.is_none());
    assert_eq!(secrets.master_key_b64, "Aw==");
    let merged = merge_legacy(&vec![], public).unwrap();
    assert_eq!(merged.len(), 1);
    let (again, _) = legacy("+1999").split();
    assert!(merge_legacy(&merged, again).is_none());
    let (publics, moved) = split_legacy_list(vec![legacy("+1"), legacy("+2")]);
    assert_eq!(publics.len(), 2);
    assert_eq!(moved[1].0, "+2");
    assert_eq!(moved[1].1.password, "pw");
}

#[test]
fn accounts_file_location() {
    let dir = signal_setup::desktop::DirPath { root: "/".to_string(), parts: vec!["cfg".to_string()] };
    let p = accounts_path(Some(dir)).unwrap();
    assert_eq!(p.parts, vec!["cfg", "accounts.json"]);
    assert!(accounts_path(None).is_none());
}
