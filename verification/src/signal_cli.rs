//! Registration through the `signal-cli` command-line client, as the first
//! builds of the tool did it: the commands to run and what their output
//! means. Running them is the caller's part.

use vstd::prelude::*;
use crate::demo::contains_text;

verus! {

/// The name of the `signal-cli` launcher on this platform.
pub fn signal_cli_binary(windows: bool) -> (r: &'static str)
    ensures
        windows ==> r@ == "signal-cli.bat"@,
        !windows ==> r@ == "signal-cli"@,
{
    if windows {
        "signal-cli.bat"
    } else {
        "signal-cli"
    }
}

/// The command that finds a program on the `PATH` on this platform.
pub fn path_lookup_command(windows: bool) -> (r: &'static str)
    ensures
        windows ==> r@ == "where"@,
        !windows ==> r@ == "which"@,
{
    if windows {
        "where"
    } else {
        "which"
    }
}

/// Where `signal-cli` was found.
pub enum CliLocation {
    /// `signal-cli/bin/<launcher>` under the working directory.
    WorkingDirectory,
    /// `signal-cli/bin/<launcher>` beside the executable.
    BesideExecutable,
    /// The path printed by the `PATH` lookup.
    OnPath(String),
    NotFound,
}

/// Picks `signal-cli`: under the working directory first, then beside the
/// executable, then on the `PATH` (the lookup's trimmed output, when it
/// succeeded and printed something).
pub fn locate_signal_cli(in_working_dir: bool, beside_executable: bool, lookup: Option<&str>) -> (r: CliLocation)
    ensures
        in_working_dir ==> r is WorkingDirectory,
        !in_working_dir && beside_executable ==> r is BesideExecutable,
        !in_working_dir && !beside_executable ==> match lookup {
            Some(out) => if crate::pem::trim_end_spec(crate::pem::trim_start_spec(out@)).len() > 0 {
                r matches CliLocation::OnPath(p) && p@ == crate::pem::trim_end_spec(crate::pem::trim_start_spec(out@))
            } else {
                r is NotFound
            },
            None => r is NotFound,
        },
{
    if in_working_dir {
        return CliLocation::WorkingDirectory;
    }
    if beside_executable {
        return CliLocation::BesideExecutable;
    }
    match lookup {
        Some(out) => {
            let t = crate::pem::trim_text(out);
            if t.unicode_len() > 0 {
                CliLocation::OnPath(t.to_string())
            } else {
                CliLocation::NotFound
            }
        },
        None => CliLocation::NotFound,
    }
}

/// The arguments of `signal-cli` that register `phone`, with the captcha
/// token when given.
pub fn register_args(phone: &str, captcha: Option<&str>) -> (r: Vec<String>)
    ensures
        r@.len() == (if captcha is Some { 5int } else { 3int }),
        r@[0]@ == "-a"@,
        r@[1]@ == phone@,
        r@[2]@ == "register"@,
        captcha matches Some(t) ==> r@[3]@ == "--captcha"@ && r@[4]@ == t@,
{
    let mut v: Vec<String> = vec![String::from_str("-a"), String::from_str(phone), String::from_str("register")];
    match captcha {
        Some(t) => {
            v.push(String::from_str("--captcha"));
            v.push(String::from_str(t));
        },
        None => {},
    }
    v
}

/// The arguments of `signal-cli` that unregister `phone`.
pub fn unregister_args(phone: &str) -> (r: Vec<String>)
    ensures
        r@.len() == 3,
        r@[0]@ == "-a"@,
        r@[1]@ == phone@,
        r@[2]@ == "unregister"@,
{
    vec![String::from_str("-a"), String::from_str(phone), String::from_str("unregister")]
}

/// `c` in ASCII lower case.
pub open spec fn ascii_lower(c: char) -> char {
    if 'A' <= c <= 'Z' {
        ((c as u32) + 32) as char
    } else {
        c
    }
}

/// The characters of `s` from `i` on match `pattern` (lower case),
/// ignoring the case of ASCII letters.
pub open spec fn window_matches(s: Seq<char>, pattern: Seq<char>, i: int) -> bool {
    forall|j: int| 0 <= j < pattern.len() ==> #[trigger] ascii_lower(s[i + j]) == pattern[j]
}

/// `s` contains `pattern` (lower case) ignoring the case of ASCII letters.
pub open spec fn contains_ignoring_case(s: Seq<char>, pattern: Seq<char>) -> bool {
    exists|i: int| 0 <= i <= s.len() - pattern.len() && #[trigger] window_matches(s, pattern, i)
}

fn same_ignoring_case(c: char, p: char) -> (r: bool)
    ensures
        r == (ascii_lower(c) == p),
{
    if 'A' <= c && c <= 'Z' {
        (c as u32) + 32 == (p as u32)
    } else {
        c == p
    }
}

fn matches_ignoring_case_at(s: &str, pattern: &str, at: usize) -> (r: bool)
    requires
        at + pattern@.len() <= s@.len(),
    ensures
        r == window_matches(s@, pattern@, at as int),
{
    let n = s.unicode_len();
    let p = pattern.unicode_len();
    let mut j: usize = 0;
    while j < p
        invariant
            j <= p,
            p == pattern@.len(),
            n == s@.len(),
            at + p <= n,
            forall|k: int| 0 <= k < j ==> #[trigger] ascii_lower(s@[at + k]) == pattern@[k],
        decreases p - j,
    {
        if !same_ignoring_case(s.get_char(at + j), pattern.get_char(j)) {
            return false;
        }
        j = j + 1;
    }
    true
}

/// True when `s` contains `pattern` ignoring ASCII case.
pub fn contains_ignoring_ascii_case(s: &str, pattern: &str) -> (r: bool)
    ensures
        r == contains_ignoring_case(s@, pattern@),
{
    let n = s.unicode_len();
    let p = pattern.unicode_len();
    if p > n {
        return false;
    }
    let mut i: usize = 0;
    while i <= n - p
        invariant
            n == s@.len(),
            p == pattern@.len(),
            p <= n,
            i <= n - p + 1,
            forall|k: int| 0 <= k < i ==> !#[trigger] window_matches(s@, pattern@, k),
        decreases n - p + 1 - i,
    {
        if matches_ignoring_case_at(s, pattern, i) {
            return true;
        }
        if i == n - p {
            return false;
        }
        i = i + 1;
    }
    false
}

/// What a `signal-cli` command printed, and whether it succeeded.
pub struct CliOutput {
    pub success: bool,
    pub stdout: String,
    pub stderr: String,
}

/// What registering through `signal-cli` came to.
pub enum CliOutcome {
    /// Registered; `needs_verify` unless `signal-cli` said verifying is
    /// not necessary.
    Registered { needs_verify: bool },
    NeedsCaptcha,
    Failed(String),
}

/// What to do after a `register` command.
pub enum CliNext {
    /// The number is already registered: unregister it, then register
    /// again, once.
    UnregisterAndRetry,
    Done(CliOutcome),
}

/// The outcome of a final `register` command: a failure mentioning a
/// captcha (in either stream, any case) asks for one, any other failure
/// reports the trimmed error stream; a success needs verifying unless the
/// output says it is not necessary.
pub open spec fn cli_outcome_spec(out: &CliOutput, r: CliOutcome) -> bool {
    if !out.success {
        if contains_ignoring_case(out.stderr@, "captcha"@) || contains_ignoring_case(out.stdout@, "captcha"@) {
            r is NeedsCaptcha
        } else {
            r matches CliOutcome::Failed(m) && m@ == crate::pem::trim_end_spec(crate::pem::trim_start_spec(out.stderr@))
        }
    } else {
        r == CliOutcome::Registered {
            needs_verify: !(contains_text(out.stderr@, "verify is not necessary"@) || contains_text(
                out.stdout@,
                "verify is not necessary"@,
            )),
        }
    }
}

/// Reads the output of a `register` command. `retried` tells whether the
/// number was already unregistered and registered again once.
pub fn after_register(out: &CliOutput, retried: bool) -> (r: CliNext)
    ensures
        !out.success && contains_text(out.stderr@, "already registered"@) && !retried ==> r is UnregisterAndRetry,
        !(!out.success && contains_text(out.stderr@, "already registered"@) && !retried) ==> (r matches CliNext::Done(
            o,
        ) && cli_outcome_spec(out, o)),
{
    if !out.success && crate::demo::contains_str(out.stderr.as_str(), "already registered") && !retried {
        return CliNext::UnregisterAndRetry;
    }
    if !out.success {
        proof {
            reveal_strlit("captcha");
        }
        if contains_ignoring_ascii_case(out.stderr.as_str(), "captcha") || contains_ignoring_ascii_case(
            out.stdout.as_str(),
            "captcha",
        ) {
            return CliNext::Done(CliOutcome::NeedsCaptcha);
        }
        return CliNext::Done(CliOutcome::Failed(crate::pem::trim_text(out.stderr.as_str()).to_string()));
    }
    let skip = crate::demo::contains_str(out.stderr.as_str(), "verify is not necessary") || crate::demo::contains_str(
        out.stdout.as_str(),
        "verify is not necessary",
    );
    CliNext::Done(CliOutcome::Registered { needs_verify: !skip })
}

} // verus!
