use signal_setup::signal_cli::{
    after_register, contains_ignoring_ascii_case, locate_signal_cli, path_lookup_command, register_args,
    signal_cli_binary, unregister_args, CliLocation, CliNext, CliOutcome, CliOutput,
};

fn output(success: bool, stdout: &str, stderr: &str) -> CliOutput {
    CliOutput { success, stdout: stdout.to_string(), stderr: stderr.to_string() }
}

#[test]
fn command_lines() {
    assert_eq!(register_args("+1555", None), vec!["-a", "+1555", "register"]);
    assert_eq!(register_args("+1555", Some("tok")), vec!["-a", "+1555", "register", "--captcha", "tok"]);
    assert_eq!(unregister_args("+1555"), vec!["-a", "+1555", "unregister"]);
    assert_eq!(signal_cli_binary(true), "signal-cli.bat");
    assert_eq!(signal_cli_binary(false), "signal-cli");
    assert_eq!(path_lookup_command(false), "which");
}

#[test]
fn locating() {
    assert!(matches!(locate_signal_cli(true, true, None), CliLocation::WorkingDirectory));
    assert!(matches!(locate_signal_cli(false, true, None), CliLocation::BesideExecutable));
    assert!(matches!(locate_signal_cli(false, false, Some(" /usr/bin/signal-cli\n")), CliLocation::OnPath(ref p) if p == "/usr/bin/signal-cli"));
    assert!(matches!(locate_signal_cli(false, false, Some("  \n")), CliLocation::NotFound));
}

#[test]
fn register_outcomes() {
    assert!(matches!(after_register(&output(false, "", "User is already registered"), false), CliNext::UnregisterAndRetry));
    assert!(matches!(
        after_register(&output(false, "", "User is already registered"), true),
        CliNext::Done(CliOutcome::Failed(ref m)) if m == "User is already registered"
    ));
    assert!(matches!(after_register(&output(false, "Need CAPTCHA", ""), false), CliNext::Done(CliOutcome::NeedsCaptcha)));
    assert!(matches!(after_register(&output(false, "", "  boom \n"), false), CliNext::Done(CliOutcome::Failed(ref m)) if m == "boom"));
    assert!(matches!(after_register(&output(true, "", ""), false), CliNext::Done(CliOutcome::Registered { needs_verify: true })));
    assert!(matches!(
        after_register(&output(true, "verify is not necessary", ""), false),
        CliNext::Done(CliOutcome::Registered { needs_verify: false })
    ));
    assert!(contains_ignoring_ascii_case("a CaPtChA b", "captcha"));
    assert!(!contains_ignoring_ascii_case("capt cha", "captcha"));
}
