use signal_setup::desktop::{
    choose_profile_for_new_account, is_configured, is_installed, profile_path, sanitize_phone, DirPath,
    DEFAULT_PROFILE,
};

#[test]
fn sanitize_phone_strips_punctuation() {
    assert_eq!(sanitize_phone("+1 (555) 123-4567"), "15551234567");
    assert_eq!(sanitize_phone("+33612345678"), "33612345678");
}

#[test]
fn choose_profile_uses_phone_when_default_already_claimed() {
    let chosen = choose_profile_for_new_account("+15551234567", &["default".to_string()], true);
    assert_eq!(chosen, "Signal-15551234567");
}

#[test]
fn choose_profile_adopts_free_default() {
    assert_eq!(choose_profile_for_new_account("+15551234567", &[], true), DEFAULT_PROFILE);
    assert_eq!(
        choose_profile_for_new_account("+15551234567", &["Signal-1".to_string()], true),
        "default"
    );
    assert_eq!(choose_profile_for_new_account("+15551234567", &[], false), "Signal-15551234567");
}

#[test]
fn install_and_configuration_detection() {
    assert!(!is_installed(&[]));
    assert!(!is_installed(&[false, false]));
    assert!(is_installed(&[false, true, false]));
    assert!(is_configured(Some(true)));
    assert!(!is_configured(Some(false)));
    assert!(!is_configured(None));
}

fn dir(root: &str, parts: &[&str]) -> DirPath {
    DirPath { root: root.to_string(), parts: parts.iter().map(|p| p.to_string()).collect() }
}

#[test]
fn profile_paths() {
    let default = dir("/", &["home", "u", ".config", "Signal"]);
    let p = profile_path("default", Some(dir("/", &["home", "u", ".config", "Signal"]))).unwrap();
    assert_eq!(p.root, default.root);
    assert_eq!(p.parts, default.parts);
    let q = profile_path("Signal-1555", Some(default)).unwrap();
    assert_eq!(q.parts, vec!["home", "u", ".config", "Signal-1555"]);
    assert!(profile_path("Signal-1555", Some(dir("/", &[]))).is_none());
    assert!(profile_path("default", None).is_none());
}
