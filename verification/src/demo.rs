//! An offline stand-in for the Signal flows, used to try the user interface
//! without Signal's servers or a real phone number. The caller adds the
//! pauses that make it feel like a network.

use vstd::prelude::*;
use crate::types::{SignalAccount, SignalError, VerificationRequest};

verus! {

/// `s` starts with `prefix`.
pub open spec fn starts_with(s: Seq<char>, prefix: Seq<char>) -> bool {
    s.len() >= prefix.len() && s.subrange(0, prefix.len() as int) == prefix
}

/// `pattern` occurs somewhere in `s`.
pub open spec fn contains_text(s: Seq<char>, pattern: Seq<char>) -> bool {
    exists|i: int| 0 <= i <= s.len() - pattern.len() && #[trigger] s.subrange(i, i + pattern.len()) == pattern
}

fn matches_at(s: &str, pattern: &str, at: usize) -> (r: bool)
    requires
        at + pattern@.len() <= s@.len(),
    ensures
        r == (s@.subrange(at as int, at + pattern@.len()) == pattern@),
{
    let n = s.unicode_len();
    let p = pattern.unicode_len();
    let mut i: usize = 0;
    while i < p
        invariant
            i <= p,
            p == pattern@.len(),
            n == s@.len(),
            at + p <= s@.len(),
            forall|j: int| 0 <= j < i ==> s@[at + j] == pattern@[j],
        decreases p - i,
    {
        if s.get_char(at + i) != pattern.get_char(i) {
            assert(s@.subrange(at as int, at + p)[i as int] != pattern@[i as int]);
            return false;
        }
        i = i + 1;
    }
    assert(s@.subrange(at as int, at + p) =~= pattern@);
    true
}

/// True when `pattern` occurs in `s`.
pub fn contains_str(s: &str, pattern: &str) -> (r: bool)
    ensures
        r == contains_text(s@, pattern@),
{
    let n = s.unicode_len();
    let p = pattern.unicode_len();
    if p > n {
        return false;
    }
    let mut i: usize = 0;
    while i <= n - p
        invariant
            n == s@.len(),
            p == pattern@.len(),
            p <= n,
            i <= n - p + 1,
            forall|j: int| 0 <= j < i ==> #[trigger] s@.subrange(j, j + p) != pattern@,
        decreases n - p + 1 - i,
    {
        if matches_at(s, pattern, i) {
            return true;
        }
        if i == n - p {
            return false;
        }
        i = i + 1;
    }
    false
}

/// Asks for a code: a number starting with `+0` asks for a captcha first.
pub fn request_verification_code(phone: &str, captcha: Option<&str>) -> (r: Result<
    VerificationRequest,
    SignalError,
>)
    ensures
        starts_with(phone@, "+0"@) ==> (r matches Ok(VerificationRequest::CaptchaRequired { session_id })
            && session_id@ == "demo-session-captcha"@),
        !starts_with(phone@, "+0"@) ==> (r matches Ok(VerificationRequest::CodeSent { session_id })
            && session_id@ == "demo-session-123"@),
{
    proof {
        reveal_strlit("+0");
    }
    let starts = phone.unicode_len() >= 2 && matches_at(phone, "+0", 0);
    if starts {
        Ok(VerificationRequest::CaptchaRequired { session_id: String::from_str("demo-session-captcha") })
    } else {
        Ok(VerificationRequest::CodeSent { session_id: String::from_str("demo-session-123") })
    }
}

/// Accepts any captcha.
pub fn submit_captcha(session_id: &str, captcha_token: &str) -> (r: Result<VerificationRequest, SignalError>)
    ensures
        r matches Ok(VerificationRequest::CodeSent { session_id: s }) && s@ == "demo-session-after-captcha"@,
{
    Ok(VerificationRequest::CodeSent { session_id: String::from_str("demo-session-after-captcha") })
}

/// Every character is an ASCII digit.
pub open spec fn all_ascii_digits(s: Seq<char>) -> bool {
    forall|i: int| 0 <= i < s.len() ==> '0' <= #[trigger] s[i] <= '9'
}

fn is_all_digits(s: &str) -> (r: bool)
    ensures
        r == all_ascii_digits(s@),
{
    let n = s.unicode_len();
    let mut i: usize = 0;
    while i < n
        invariant
            i <= n,
            n == s@.len(),
            forall|j: int| 0 <= j < i ==> '0' <= #[trigger] s@[j] <= '9',
        decreases n - i,
    {
        let c = s.get_char(i);
        if !('0' <= c && c <= '9') {
            return false;
        }
        i = i + 1;
    }
    true
}

/// Checks the code: `000000` behaves like a number whose existing account
/// offers a device transfer (until the transfer is skipped); any other code
/// must be digits. The account made is `SignalAccount::dummy`'s.
pub fn verify_and_register(
    phone: &str,
    session_id: &str,
    code: &str,
    skip_device_transfer: bool,
    discoverable_by_phone_number: bool,
    aci_identity: Vec<u8>,
    pni_identity: Vec<u8>,
    rng: &mut rand::rngs::StdRng,
) -> (r: Result<SignalAccount, SignalError>)
    ensures
        code@ == "000000"@ && !skip_device_transfer ==> r matches Err(SignalError::DeviceTransferAvailable),
        code@ != "000000"@ && !all_ascii_digits(code@) ==> (r matches Err(SignalError::Other(m)) && m@
            == "Invalid verification code"@),
        (code@ == "000000"@ && skip_device_transfer) || (code@ != "000000"@ && all_ascii_digits(code@)) ==> (r matches Ok(
            a,
        ) && a.phone@ == phone@ && a.password@ == "demo-password"@ && a.aci.deep_view() == Some("demo-aci-uuid"@)
            && a.pni.deep_view() == Some("demo-pni-uuid"@) && a.registration_id == 12345 && a.aci_identity@
            == aci_identity@ && a.pni_identity@ == pni_identity@ && a.master_key@.len() == 32 && a.profile_key@.len()
            == 32 && a.desktop_profile is None),
{
    let is_zero = crate::http::str_eq(code, "000000");
    if is_zero && !skip_device_transfer {
        return Err(SignalError::DeviceTransferAvailable);
    }
    if !is_zero && !is_all_digits(code) {
        return Err(SignalError::Other(String::from_str("Invalid verification code")));
    }
    Ok(SignalAccount::dummy(phone, aci_identity, pni_identity, rng))
}

/// Accepts any URI that looks like a device-linking URI.
pub fn link_device(account: &SignalAccount, uri: &str) -> (r: Result<(), SignalError>)
    ensures
        contains_text(uri@, "tsdevice://"@) || contains_text(uri@, "sgnl://"@) ==> r is Ok,
        !contains_text(uri@, "tsdevice://"@) && !contains_text(uri@, "sgnl://"@) ==> (r matches Err(
            SignalError::InvalidUri(m),
        ) && m@ == "Expected a tsdevice:// or sgnl:// URI"@),
{
    if !contains_str(uri, "tsdevice://") && !contains_str(uri, "sgnl://") {
        return Err(SignalError::InvalidUri(String::from_str("Expected a tsdevice:// or sgnl:// URI")));
    }
    Ok(())
}

} // verus!
