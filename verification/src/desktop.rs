//! Signal Desktop profiles.
//!
//! Each account registered with this tool gets its own Signal Desktop
//! profile (a `--user-data-dir` directory), so several numbers can live on
//! one machine. The first account registered on a machine that already has
//! a Signal Desktop install adopts the existing default profile, labelled
//! `default`; later accounts get a `Signal-{sanitized phone}` directory of
//! their own, beside the default one.
//!
//! Looking at the disk (is the application there, does a directory exist)
//! is the caller's part; this module decides from what it found.

use vstd::prelude::*;

verus! {

/// Profile name reserved for the pre-existing Signal Desktop install.
pub const DEFAULT_PROFILE: &'static str = "default";

/// An absolute directory: its root (`/` on Unix, a drive prefix and
/// separator on Windows) and its components below the root.
pub struct DirPath {
    pub root: String,
    pub parts: Vec<String>,
}

/// True if any of the places where Signal Desktop installs itself holds it;
/// `present[i]` tells whether the `i`-th install location exists.
pub fn is_installed(present: &[bool]) -> (r: bool)
    ensures
        r == exists|i: int| 0 <= i < present@.len() && present@[i],
{
    let mut i: usize = 0;
    while i < present.len()
        invariant
            i <= present@.len(),
            forall|j: int| 0 <= j < i ==> !present@[j],
        decreases present@.len() - i,
    {
        if present[i] {
            return true;
        }
        i = i + 1;
    }
    false
}

/// True if Signal Desktop's default profile has been launched at least
/// once: its `config.json` exists. `config_present` is `None` when the
/// platform has no default profile location.
pub fn is_configured(config_present: Option<bool>) -> (r: bool)
    ensures
        r == (config_present == Some(true)),
{
    match config_present {
        Some(b) => b,
        None => false,
    }
}

/// ASCII letters and digits.
pub open spec fn is_ascii_alnum(c: char) -> bool {
    ('0' <= c <= '9') || ('a' <= c <= 'z') || ('A' <= c <= 'Z')
}

/// `phone` with every character that is not an ASCII letter or digit
/// removed.
pub open spec fn sanitize_phone_spec(phone: Seq<char>) -> Seq<char>
    decreases phone.len(),
{
    if phone.len() == 0 {
        Seq::empty()
    } else {
        let rest = sanitize_phone_spec(phone.drop_last());
        if is_ascii_alnum(phone.last()) {
            rest.push(phone.last())
        } else {
            rest
        }
    }
}

fn ascii_alnum_text(c: char) -> (r: Option<&'static str>)
    ensures
        is_ascii_alnum(c) ==> (r matches Some(t) && t@ == seq![c]),
        !is_ascii_alnum(c) ==> r is None,
{
    proof {
        reveal_strlit("0");
        reveal_strlit("1");
        reveal_strlit("2");
        reveal_strlit("3");
        reveal_strlit("4");
        reveal_strlit("5");
        reveal_strlit("6");
        reveal_strlit("7");
        reveal_strlit("8");
        reveal_strlit("9");
        reveal_strlit("a");
        reveal_strlit("b");
        reveal_strlit("c");
        reveal_strlit("d");
        reveal_strlit("e");
        reveal_strlit("f");
        reveal_strlit("g");
        reveal_strlit("h");
        reveal_strlit("i");
        reveal_strlit("j");
        reveal_strlit("k");
        reveal_strlit("l");
        reveal_strlit("m");
        reveal_strlit("n");
        reveal_strlit("o");
        reveal_strlit("p");
        reveal_strlit("q");
        reveal_strlit("r");
        reveal_strlit("s");
        reveal_strlit("t");
        reveal_strlit("u");
        reveal_strlit("v");
        reveal_strlit("w");
        reveal_strlit("x");
        reveal_strlit("y");
        reveal_strlit("z");
        reveal_strlit("A");
        reveal_strlit("B");
        reveal_strlit("C");
        reveal_strlit("D");
        reveal_strlit("E");
        reveal_strlit("F");
        reveal_strlit("G");
        reveal_strlit("H");
        reveal_strlit("I");
        reveal_strlit("J");
        reveal_strlit("K");
        reveal_strlit("L");
        reveal_strlit("M");
        reveal_strlit("N");
        reveal_strlit("O");
        reveal_strlit("P");
        reveal_strlit("Q");
        reveal_strlit("R");
        reveal_strlit("S");
        reveal_strlit("T");
        reveal_strlit("U");
        reveal_strlit("V");
        reveal_strlit("W");
        reveal_strlit("X");
        reveal_strlit("Y");
        reveal_strlit("Z");
    }
    match c {
        '0' => Some("0"),
        '1' => Some("1"),
        '2' => Some("2"),
        '3' => Some("3"),
        '4' => Some("4"),
        '5' => Some("5"),
        '6' => Some("6"),
        '7' => Some("7"),
        '8' => Some("8"),
        '9' => Some("9"),
        'a' => Some("a"),
        'b' => Some("b"),
        'c' => Some("c"),
        'd' => Some("d"),
        'e' => Some("e"),
        'f' => Some("f"),
        'g' => Some("g"),
        'h' => Some("h"),
        'i' => Some("i"),
        'j' => Some("j"),
        'k' => Some("k"),
        'l' => Some("l"),
        'm' => Some("m"),
        'n' => Some("n"),
        'o' => Some("o"),
        'p' => Some("p"),
        'q' => Some("q"),
        'r' => Some("r"),
        's' => Some("s"),
        't' => Some("t"),
        'u' => Some("u"),
        'v' => Some("v"),
        'w' => Some("w"),
        'x' => Some("x"),
        'y' => Some("y"),
        'z' => Some("z"),
        'A' => Some("A"),
        'B' => Some("B"),
        'C' => Some("C"),
        'D' => Some("D"),
        'E' => Some("E"),
        'F' => Some("F"),
        'G' => Some("G"),
        'H' => Some("H"),
        'I' => Some("I"),
        'J' => Some("J"),
        'K' => Some("K"),
        'L' => Some("L"),
        'M' => Some("M"),
        'N' => Some("N"),
        'O' => Some("O"),
        'P' => Some("P"),
        'Q' => Some("Q"),
        'R' => Some("R"),
        'S' => Some("S"),
        'T' => Some("T"),
        'U' => Some("U"),
        'V' => Some("V"),
        'W' => Some("W"),
        'X' => Some("X"),
        'Y' => Some("Y"),
        'Z' => Some("Z"),
        _ => None,
    }
}

/// Turns a phone number like `+15551234567` into a segment that is safe in
/// a file name on every platform, `15551234567`: every character that is
/// not an ASCII letter or digit is dropped.
pub fn sanitize_phone(phone: &str) -> (r: String)
    ensures
        r@ == sanitize_phone_spec(phone@),
{
    let n = phone.unicode_len();
    let mut out = String::new();
    let mut i: usize = 0;
    while i < n
        invariant
            i <= n,
            n == phone@.len(),
            out@ == sanitize_phone_spec(phone@.subrange(0, i as int)),
        decreases n - i,
    {
        let c = phone.get_char(i);
        assert(phone@.subrange(0, i + 1).drop_last() == phone@.subrange(0, i as int));
        match ascii_alnum_text(c) {
            Some(t) => out.append(t),
            None => {},
        }
        i = i + 1;
    }
    assert(phone@.subrange(0, n as int) == phone@);
    out
}

/// The name given to a new account's profile: the default profile when
/// its directory exists and no saved account uses it yet, else
/// `Signal-{sanitized phone}`.
pub open spec fn chosen_profile(phone: Seq<char>, taken: Seq<Seq<char>>, default_exists: bool) -> Seq<char> {
    if default_exists && !taken.contains(DEFAULT_PROFILE@) {
        DEFAULT_PROFILE@
    } else {
        "Signal-"@ + sanitize_phone_spec(phone)
    }
}

/// The views of a list of strings.
pub open spec fn views_of(v: Seq<String>) -> Seq<Seq<char>> {
    v.map_values(|s: String| s@)
}

/// Picks the profile name for a brand-new account. `taken` holds the
/// profiles of the saved accounts; `default_exists` tells whether Signal
/// Desktop's default profile directory exists. An existing, unclaimed
/// default profile is reused: the user almost certainly wants the Desktop
/// install already there to be the home of this number.
pub fn choose_profile_for_new_account(phone: &str, taken: &[String], default_exists: bool) -> (r: String)
    ensures
        r@ == chosen_profile(phone@, views_of(taken@), default_exists),
{
    proof {
        reveal_strlit("default");
        reveal_strlit("Signal-");
    }
    let mut default_taken = false;
    let mut i: usize = 0;
    while i < taken.len()
        invariant
            i <= taken@.len(),
            default_taken == exists|j: int| 0 <= j < i && taken@[j]@ == DEFAULT_PROFILE@,
        decreases taken@.len() - i,
    {
        if crate::http::str_eq(taken[i].as_str(), DEFAULT_PROFILE) {
            default_taken = true;
        }
        i = i + 1;
    }
    proof {
        let views = views_of(taken@);
        if default_taken {
            let j = choose|j: int| 0 <= j < taken@.len() && taken@[j]@ == DEFAULT_PROFILE@;
            assert(views[j] == DEFAULT_PROFILE@);
        } else {
            assert forall|j: int| 0 <= j < views.len() implies views[j] != DEFAULT_PROFILE@ by {
                assert(views[j] == taken@[j]@);
            }
        }
    }
    if default_exists && !default_taken {
        String::from_str(DEFAULT_PROFILE)
    } else {
        let mut s = String::from_str("Signal-");
        let p = sanitize_phone(phone);
        s.append(p.as_str());
        s
    }
}

/// The profile's directory given Signal Desktop's default profile
/// directory: the default directory itself for `default`, a sibling named
/// after the profile for any other. `None` when there is no default
/// location, or (for another profile) when it has no parent.
pub open spec fn profile_path_spec(profile: Seq<char>, default_dir: Option<(Seq<char>, Seq<Seq<char>>)>) -> Option<
    (Seq<char>, Seq<Seq<char>>),
> {
    if profile == DEFAULT_PROFILE@ {
        default_dir
    } else {
        match default_dir {
            None => None,
            Some((root, parts)) => if parts.len() == 0 {
                None
            } else {
                Some((root, parts.drop_last().push(profile)))
            },
        }
    }
}

/// The view of a directory: root and components.
pub open spec fn dir_view(d: &DirPath) -> (Seq<char>, Seq<Seq<char>>) {
    (d.root@, views_of(d.parts@))
}

/// The view of an optional directory.
pub open spec fn opt_dir_view(d: &Option<DirPath>) -> Option<(Seq<char>, Seq<Seq<char>>)> {
    match d {
        Some(p) => Some(dir_view(p)),
        None => None,
    }
}

/// The `--user-data-dir` to give Signal Desktop for a profile, from Signal
/// Desktop's default profile directory on this platform.
pub fn profile_path(profile: &str, default_dir: Option<DirPath>) -> (r: Option<DirPath>)
    ensures
        opt_dir_view(&r) == profile_path_spec(profile@, opt_dir_view(&default_dir)),
{
    proof {
        reveal_strlit("default");
    }
    if crate::http::str_eq(profile, DEFAULT_PROFILE) {
        return default_dir;
    }
    match default_dir {
        None => None,
        Some(d) => {
            if d.parts.len() == 0 {
                return None;
            }
            let mut parts = d.parts;
            let ghost before = parts@;
            parts.pop();
            parts.push(String::from_str(profile));
            assert(views_of(parts@) =~= views_of(before).drop_last().push(profile@));
            Some(DirPath { root: d.root, parts })
        },
    }
}

/// Every character of a sanitized phone is an ASCII letter or digit, and
/// sanitizing again changes nothing.
pub proof fn lemma_sanitized_phone_is_safe(phone: Seq<char>)
    ensures
        forall|i: int| 0 <= i < sanitize_phone_spec(phone).len() ==> is_ascii_alnum(#[trigger] sanitize_phone_spec(phone)[i]),
        sanitize_phone_spec(sanitize_phone_spec(phone)) == sanitize_phone_spec(phone),
    decreases phone.len(),
{
    if phone.len() > 0 {
        lemma_sanitized_phone_is_safe(phone.drop_last());
        let rest = sanitize_phone_spec(phone.drop_last());
        if is_ascii_alnum(phone.last()) {
            let r = rest.push(phone.last());
            assert(r.drop_last() =~= rest);
        }
    }
}

/// The default profile goes to one account only: once a saved account
/// uses it, a new account gets a profile of its own.
pub proof fn lemma_default_profile_claimed_once(phone: Seq<char>, taken: Seq<Seq<char>>, default_exists: bool)
    requires
        taken.contains(DEFAULT_PROFILE@),
    ensures
        chosen_profile(phone, taken, default_exists) != DEFAULT_PROFILE@,
        chosen_profile(phone, taken, default_exists) == "Signal-"@ + sanitize_phone_spec(phone),
{
    reveal_strlit("default");
    reveal_strlit("Signal-");
    let c = chosen_profile(phone, taken, default_exists);
    assert(c[0] == 'S');
    assert(DEFAULT_PROFILE@[0] == 'd');
}

/// Sanitizing a phone number keeps exactly its ASCII letters and digits,
/// in their order.
pub proof fn lemma_sanitize_keeps_alnum(phone: Seq<char>)
    ensures
        sanitize_phone_spec(phone) == phone.filter(|c: char| is_ascii_alnum(c)),
    decreases phone.len(),
{
    reveal(Seq::filter);
    if phone.len() > 0 {
        lemma_sanitize_keeps_alnum(phone.drop_last());
    }
}

/// A new account gets Signal Desktop's default profile when its directory
/// exists and no saved account uses it; otherwise (no default directory,
/// or the default already claimed) a profile named `Signal-` and the
/// number's letters and digits.
pub proof fn lemma_profile_for_new_account(phone: Seq<char>, taken: Seq<Seq<char>>, default_exists: bool)
    ensures
        default_exists && !taken.contains("default"@) ==> chosen_profile(phone, taken, default_exists) == "default"@,
        !default_exists || taken.contains("default"@) ==> chosen_profile(phone, taken, default_exists) == "Signal-"@
            + phone.filter(|c: char| is_ascii_alnum(c)),
{
    reveal_strlit("default");
    lemma_sanitize_keeps_alnum(phone);
}

/// The default profile lives in Signal Desktop's own directory; any other
/// profile in a sibling directory named after it.
pub proof fn lemma_profile_directories(profile: Seq<char>, root: Seq<char>, parts: Seq<Seq<char>>)
    requires
        parts.len() > 0,
    ensures
        profile == "default"@ ==> profile_path_spec(profile, Some((root, parts))) == Some((root, parts)),
        profile != "default"@ ==> profile_path_spec(profile, Some((root, parts))) == Some(
            (root, parts.subrange(0, parts.len() - 1).push(profile)),
        ),
        profile_path_spec(profile, None) is None,
{
    reveal_strlit("default");
    assert(parts.drop_last() =~= parts.subrange(0, parts.len() - 1));
}

} // verus!
