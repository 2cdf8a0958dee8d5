use rand::SeedableRng;
use signal_setup::demo;
use signal_setup::proto::sync_plaintext;
use signal_setup::text::decimal;
use signal_setup::types::{SignalAccount, SignalError, VerificationRequest};
use signal_setup::wizard::{
    code_request_result, desktop_status_message, format_error_chain, link_result, mode_from_args, step_clickable,
    verification_result, window_title, Mode, Status, Step, WorkResult, Wizard,
};

fn dummy(phone: &str) -> SignalAccount {
    let mut rng = rand::rngs::StdRng::from_os_rng();
    SignalAccount::dummy(phone, vec![1], vec![2], &mut rng)
}

#[test]
fn step_numbers() {
    let steps = [Step::Welcome, Step::PhoneInput, Step::Captcha, Step::Verification, Step::Linking, Step::Complete];
    for (i, s) in steps.iter().enumerate() {
        assert_eq!(s.number(), i);
    }
}

#[test]
fn wizard_starts_on_welcome_only_with_accounts() {
    assert!(Wizard::new(vec![]).step == Step::PhoneInput);
    assert!(Wizard::new(vec![dummy("+1")]).step == Step::Welcome);
}

#[test]
fn going_back_clears_later_steps() {
    let mut w = Wizard::new(vec![]);
    w.phone = "+1".to_string();
    w.captcha_token = "t".to_string();
    w.verification_code = "123".to_string();
    w.device_uri = "sgnl://".to_string();
    w.session_id = Some("s".to_string());
    w.signal_account = Some(dummy("+1"));
    w.captcha_was_required = true;
    w.step = Step::Linking;
    w.start_work();
    w.jump_back_to_step(3);
    assert!(w.step == Step::Verification);
    assert!(!w.loading && !w.awaiting_result);
    assert!(w.device_uri.is_empty() && w.signal_account.is_none());
    assert_eq!(w.verification_code, "123");
    w.jump_back_to_step(1);
    assert!(w.step == Step::PhoneInput);
    assert!(w.session_id.is_none() && !w.captcha_was_required && w.captcha_token.is_empty());
    assert_eq!(w.phone, "+1");
}

#[test]
fn indicator_clicks() {
    assert!(step_clickable(1, 3, false));
    assert!(!step_clickable(2, 3, false));
    assert!(step_clickable(2, 3, true));
    assert!(!step_clickable(3, 3, true));
}

#[test]
fn verified_account_gets_a_profile_and_replaces_saved_one() {
    let mut w = Wizard::new(vec![dummy("+15551234567"), dummy("+15550000000")]);
    w.accounts[1].desktop_profile = Some("default".to_string());
    let saved = w.apply_result(WorkResult::VerifyOk { account: dummy("+15551234567") }, true).unwrap();
    assert_eq!(saved.desktop_profile.as_deref(), Some("Signal-15551234567"));
    assert_eq!(w.accounts.len(), 2);
    assert_eq!(w.accounts[1].phone, "+15551234567");
    assert!(w.step == Step::Linking);
    assert!(matches!(w.status, Status::Success(ref m) if m == "Phone number verified."));
}

#[test]
fn work_results_set_the_banner() {
    let mut w = Wizard::new(vec![]);
    assert!(w.apply_result(WorkResult::RegisterNeedsCaptcha { session_id: "s".to_string() }, false).is_none());
    assert!(w.step == Step::Captcha && w.captcha_was_required);
    w.apply_result(WorkResult::RegisterError("boom".to_string()), false);
    assert!(matches!(w.status, Status::Error(ref m) if m == "Registration failed: boom"));
    w.apply_result(WorkResult::DeviceTransferAvailable, false);
    assert!(w.device_transfer_available && matches!(w.status, Status::Blank));
    w.apply_result(WorkResult::LinkOk, false);
    assert!(w.step == Step::Complete);
    w.relink();
    assert!(w.step == Step::Linking);
}

#[test]
fn outcomes_become_work_results() {
    let r = code_request_result(Ok(VerificationRequest::CodeSent { session_id: "x".to_string() }), String::new());
    assert!(matches!(r, WorkResult::RegisterOk { ref session_id } if session_id == "x"));
    let r = verification_result(Err(SignalError::DeviceTransferAvailable), "t".to_string());
    assert!(matches!(r, WorkResult::DeviceTransferAvailable));
    let r = verification_result(Err(SignalError::CaptchaRequired), "t".to_string());
    assert!(matches!(r, WorkResult::VerifyError(ref m) if m == "t"));
    assert!(matches!(link_result(Ok(()), String::new()), WorkResult::LinkOk));
}

#[test]
fn messages() {
    assert_eq!(desktop_status_message(true, true), "Signal Desktop is installed and configured.");
    assert_eq!(desktop_status_message(true, false), "Signal Desktop is installed.");
    assert_eq!(desktop_status_message(false, true), "Signal Desktop was not detected. Please install it.");
    assert_eq!(format_error_chain("a", &[]), "a");
    assert_eq!(format_error_chain("a", &["b".to_string(), "c".to_string()]), "a, caused by: b, caused by: c");
    assert_eq!(SignalError::Api { status: 413, body: "x".to_string() }.describe(), "Signal API error 413: x");
    assert_eq!(SignalError::InvalidUri("u".to_string()).describe(), "Invalid URI: u");
    assert_eq!(decimal(0), "0");
    assert_eq!(decimal(1200), "1200");
}

#[test]
fn run_modes() {
    let args = |v: &[&str]| v.iter().map(|s| s.to_string()).collect::<Vec<_>>();
    assert!(mode_from_args(&args(&["app", "--staging", "--demo"])) == Mode::Demo);
    assert!(mode_from_args(&args(&["app", "--staging"])) == Mode::Staging);
    assert!(mode_from_args(&args(&["app"])) == Mode::Production);
    assert_eq!(window_title(Mode::Demo), "Signal Setup Tool [DEMO]");
}

#[test]
fn sync_payload_bytes() {
    assert_eq!(sync_plaintext(), vec![0x12, 0x06, 0x0a, 0x02, 0x30, 0x01, 0x22, 0x00]);
}

#[test]
fn demo_backend() {
    assert!(matches!(demo::request_verification_code("+0123", None), Ok(VerificationRequest::CaptchaRequired { ref session_id }) if session_id == "demo-session-captcha"));
    assert!(matches!(demo::request_verification_code("+1555", None), Ok(VerificationRequest::CodeSent { ref session_id }) if session_id == "demo-session-123"));
    assert!(matches!(demo::submit_captcha("s", "t"), Ok(VerificationRequest::CodeSent { ref session_id }) if session_id == "demo-session-after-captcha"));
    let mut rng = rand::rngs::StdRng::from_os_rng();
    assert!(matches!(demo::verify_and_register("+1", "s", "000000", false, true, vec![], vec![], &mut rng), Err(SignalError::DeviceTransferAvailable)));
    assert!(demo::verify_and_register("+1", "s", "000000", true, true, vec![], vec![], &mut rng).is_ok());
    assert!(matches!(demo::verify_and_register("+1", "s", "12a", false, true, vec![], vec![], &mut rng), Err(SignalError::Other(ref m)) if m == "Invalid verification code"));
    assert!(demo::verify_and_register("+1", "s", "123456", false, true, vec![], vec![], &mut rng).is_ok());
    let a = dummy("+1");
    assert!(demo::link_device(&a, "sgnl://linkdevice?x").is_ok());
    assert!(demo::link_device(&a, "see tsdevice://x").is_ok());
    assert!(matches!(demo::link_device(&a, "https://x"), Err(SignalError::InvalidUri(ref m)) if m == "Expected a tsdevice:// or sgnl:// URI"));
}

#[test]
fn deleting_from_the_welcome_screen() {
    let mut w = Wizard::new(vec![dummy("+1"), dummy("+2")]);
    w.deletion_result("+1", Ok(()));
    assert!(w.step == Step::Welcome);
    assert_eq!(w.accounts.len(), 1);
    assert_eq!(w.accounts[0].phone, "+2");
    assert!(matches!(w.status, Status::Success(ref m) if m == "Deleted +1."));
    w.deletion_result("+2", Err(SignalError::Other("keyring locked".to_string())));
    assert!(w.step == Step::Welcome);
    assert_eq!(w.accounts.len(), 1);
    assert!(matches!(w.status, Status::Error(ref m) if m == "Could not delete account: keyring locked"));
}

#[test]
fn welcome_and_final_buttons_keep_other_fields() {
    let mut w = Wizard::new(vec![dummy("+1")]);
    w.phone = "+1".to_string();
    w.session_id = Some("s".to_string());
    w.verification_code = "123456".to_string();
    w.device_uri = "sgnl://old".to_string();
    w.relink();
    assert_eq!(w.phone, "+1");
    assert_eq!(w.session_id.as_deref(), Some("s"));
    assert_eq!(w.verification_code, "123456");
    assert!(w.device_uri.is_empty());
    assert_eq!(w.accounts.len(), 1);
    w.device_uri = "sgnl://new".to_string();
    w.register_new_number();
    assert!(w.phone.is_empty());
    assert_eq!(w.device_uri, "sgnl://new");
    assert_eq!(w.session_id.as_deref(), Some("s"));
    w.use_saved_account(dummy("+1"));
    assert_eq!(w.phone, "+1");
    assert_eq!(w.device_uri, "sgnl://new");
    assert_eq!(w.accounts.len(), 1);
}
