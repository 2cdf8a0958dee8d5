//! Decisions of the network flows with Signal's service: registration
//! (verification session, captcha, code, account creation) and device
//! linking. The flows are state machines: each step takes the state and the
//! reply to the previous request and returns the next request to perform,
//! or the outcome. Performing the requests is left to the caller.

use vstd::prelude::*;
use vstd::string::StrSliceExecFns;
use crate::types::{SignalError, VerificationRequest};

verus! {

// ---------------------------------------------------------------------------
// Service endpoints and replies
// ---------------------------------------------------------------------------

/// Base URL of Signal's chat service, staging or production.
pub fn signal_api(use_staging: bool) -> (r: &'static str)
    ensures
        use_staging ==> r@ == "https://chat.staging.signal.org"@,
        !use_staging ==> r@ == "https://chat.signal.org"@,
{
    if use_staging {
        "https://chat.staging.signal.org"
    } else {
        "https://chat.signal.org"
    }
}

/// A 2xx status.
pub open spec fn is_success(status: u16) -> bool {
    200 <= status < 300
}

/// The error that a non-success reply maps to: 402 means a captcha is
/// required, any other failure status is an API error carrying the status
/// and the body. `None` for a success status.
pub open spec fn status_error_spec(status: u16, body: Seq<char>) -> Option<(u16, Option<Seq<char>>)> {
    if is_success(status) {
        None
    } else if status == 402 {
        Some((status, None))
    } else {
        Some((status, Some(body)))
    }
}

/// `parse_response`'s check of the status: `None` for a success status,
/// `CaptchaRequired` for 402, `Api { status, body }` otherwise.
pub fn response_error(status: u16, body: String) -> (r: Option<SignalError>)
    ensures
        r is None <==> is_success(status),
        !is_success(status) && status == 402 ==> r matches Some(SignalError::CaptchaRequired),
        !is_success(status) && status != 402 ==> (r matches Some(SignalError::Api { status: s, body: b }) && s
            == status && b@ == body@),
{
    if 200 <= status && status < 300 {
        None
    } else if status == 402 {
        Some(SignalError::CaptchaRequired)
    } else {
        Some(SignalError::Api { status, body })
    }
}

/// The error a non-success status maps to: `CaptchaRequired` for 402,
/// `Api { status, body }` otherwise.
pub open spec fn is_status_error(e: SignalError, status: u16, body: Seq<char>) -> bool {
    if status == 402 {
        e is CaptchaRequired
    } else {
        e matches SignalError::Api { status: s, body: b } && s == status && b@ == body
    }
}

/// Reads a reply as `parse_response` does: a non-success status is an
/// error (see `is_status_error`); on success the decoded body is returned,
/// or, when the body did not decode, a transport error with the decoder's
/// message.
pub fn parse_reply<T>(status: u16, body: String, decoded: Result<T, String>) -> (r: Result<T, SignalError>)
    ensures
        !is_success(status) ==> (r matches Err(e) && is_status_error(e, status, body@)),
        is_success(status) ==> match decoded {
            Ok(v) => r == Ok::<T, SignalError>(v),
            Err(m) => r matches Err(SignalError::Http(h)) && h@ == m@,
        },
{
    if status < 200 || status >= 300 {
        if status == 402 {
            return Err(SignalError::CaptchaRequired);
        }
        return Err(SignalError::Api { status, body });
    }
    match decoded {
        Ok(v) => Ok(v),
        Err(m) => Err(SignalError::Http(m)),
    }
}

/// Signal's verification session, as returned by the session endpoints.
pub struct RegistrationSessionResponse {
    pub id: String,
    pub allowed_to_request_code: bool,
    pub requested_information: Vec<String>,
}

/// The session asks for a captcha.
pub open spec fn session_needs_captcha(s: &RegistrationSessionResponse) -> bool {
    exists|i: int| 0 <= i < s.requested_information@.len() && #[trigger] s.requested_information@[i]@ == "captcha"@
}

pub fn str_eq(a: &str, b: &str) -> (r: bool)
    ensures
        r == (a@ == b@),
{
    let n = a.unicode_len();
    if n != b.unicode_len() {
        return false;
    }
    let mut i: usize = 0;
    while i < n
        invariant
            i <= n,
            n == a@.len(),
            n == b@.len(),
            forall|j: int| 0 <= j < i ==> a@[j] == b@[j],
        decreases n - i,
    {
        if a.get_char(i) != b.get_char(i) {
            return false;
        }
        i = i + 1;
    }
    assert(a@ =~= b@);
    true
}

impl RegistrationSessionResponse {
    /// True when `"captcha"` is among the requested information.
    pub fn captcha_required(&self) -> (r: bool)
        ensures
            r == session_needs_captcha(self),
    {
        let mut i: usize = 0;
        while i < self.requested_information.len()
            invariant
                i <= self.requested_information@.len(),
                forall|j: int| 0 <= j < i ==> #[trigger] self.requested_information@[j]@ != "captcha"@,
            decreases self.requested_information@.len() - i,
        {
            if str_eq(self.requested_information[i].as_str(), "captcha") {
                return true;
            }
            i = i + 1;
        }
        false
    }
}

/// The scheme that captcha links carry but the API does not expect.
pub open spec fn captcha_scheme() -> Seq<char> {
    "signalcaptcha://"@
}

/// `s` with `prefix` removed from its front, when it starts with it.
pub open spec fn strip_prefix_spec(s: Seq<char>, prefix: Seq<char>) -> Seq<char> {
    if s.len() >= prefix.len() && s.subrange(0, prefix.len() as int) == prefix {
        s.subrange(prefix.len() as int, s.len() as int)
    } else {
        s
    }
}

/// Removes `prefix` from the front of `s` when `s` starts with it, as
/// `str::strip_prefix(..).unwrap_or(s)` does.
pub fn strip_prefix(s: &str, prefix: &str) -> (r: String)
    ensures
        r@ == strip_prefix_spec(s@, prefix@),
{
    let n = s.unicode_len();
    let p = prefix.unicode_len();
    if n < p {
        return String::from_str(s);
    }
    let mut i: usize = 0;
    while i < p
        invariant
            i <= p,
            p == prefix@.len(),
            p <= n,
            n == s@.len(),
            forall|j: int| 0 <= j < i ==> s@[j] == prefix@[j],
        decreases p - i,
    {
        if s.get_char(i) != prefix.get_char(i) {
            assert(s@.subrange(0, p as int)[i as int] != prefix@[i as int]);
            return String::from_str(s);
        }
        i = i + 1;
    }
    assert(s@.subrange(0, p as int) =~= prefix@);
    String::from_str(s.substring_char(p, n))
}

/// `token` without the captcha scheme.
pub open spec fn strip_captcha_scheme_spec(token: Seq<char>) -> Seq<char> {
    strip_prefix_spec(token, captcha_scheme())
}

/// Strips the `signalcaptcha://` scheme that Signal's captcha page puts in
/// front of the token.
pub fn strip_captcha_scheme(token: &str) -> (r: String)
    ensures
        r@ == strip_captcha_scheme_spec(token@),
{
    let prefix = "signalcaptcha://";
    proof {
        reveal_strlit("signalcaptcha://");
    }
    strip_prefix(token, prefix)
}

// ---------------------------------------------------------------------------
// Verification session: requesting the SMS code
// ---------------------------------------------------------------------------

/// A request of the verification-session flow.
pub enum SessionCall {
    /// `POST /v1/verification/session` for `number`.
    CreateSession { number: String },
    /// `PATCH /v1/verification/session/{session_id}` with the captcha token.
    SubmitCaptcha { session_id: String, captcha: String },
    /// `POST /v1/verification/session/{session_id}/code`, asking for an SMS.
    RequestCode { session_id: String },
}

/// Where the verification-session flow stands.
pub enum SessionStage {
    /// A session is being created; the token is submitted next if given.
    AwaitingSession { captcha: Option<String> },
    /// A captcha token was submitted.
    AwaitingCaptchaResult,
    /// The SMS code was requested for this session.
    AwaitingCode { session_id: String },
    Finished,
}

/// Reply to the last request, as decoded by the caller.
pub enum SessionReply {
    /// Reply to `CreateSession` or `SubmitCaptcha`.
    Session(Result<RegistrationSessionResponse, SignalError>),
    /// Reply to `RequestCode` (its body is not needed).
    CodeRequested(Result<(), SignalError>),
}

/// What to do next.
pub enum SessionStep {
    Send(SessionCall),
    Done(Result<VerificationRequest, SignalError>),
}

/// The message given when Signal refuses to send a code.
pub open spec fn code_not_allowed_text() -> Seq<char> {
    "Server does not allow requesting a code at this time."@
}

/// The message given when a reply does not fit the stage of a flow.
pub open spec fn unexpected_reply_text() -> Seq<char> {
    "Unexpected reply for the current step."@
}

/// The flow stops with the "unexpected reply" error.
pub open spec fn session_unexpected(next: SessionStage, step: SessionStep) -> bool {
    &&& next is Finished
    &&& step matches SessionStep::Done(Err(SignalError::Other(m)))
    &&& m@ == unexpected_reply_text()
}

/// Given a session, either captcha is still required, or Signal refuses to
/// send a code, or the SMS code is requested.
pub open spec fn finalize_spec(s: RegistrationSessionResponse, stage: SessionStage, step: SessionStep) -> bool {
    if session_needs_captcha(&s) {
        &&& stage is Finished
        &&& step matches SessionStep::Done(Ok(VerificationRequest::CaptchaRequired { session_id }))
        &&& session_id@ == s.id@
    } else if !s.allowed_to_request_code {
        &&& stage is Finished
        &&& step matches SessionStep::Done(Err(SignalError::Other(m)))
        &&& m@ == code_not_allowed_text()
    } else {
        &&& stage matches SessionStage::AwaitingCode { session_id } && session_id@ == s.id@
        &&& step matches SessionStep::Send(SessionCall::RequestCode { session_id }) && session_id@ == s.id@
    }
}

/// One step of the verification-session flow.
pub open spec fn session_step_spec(
    stage: SessionStage,
    reply: SessionReply,
    next: SessionStage,
    step: SessionStep,
) -> bool {
    match stage {
        SessionStage::AwaitingSession { captcha } => match reply {
            SessionReply::Session(Err(e)) => next is Finished && step == SessionStep::Done(Err::<VerificationRequest, SignalError>(e)),
            SessionReply::Session(Ok(s)) => match captcha {
                Some(t) => {
                    &&& next is AwaitingCaptchaResult
                    &&& step matches SessionStep::Send(SessionCall::SubmitCaptcha { session_id, captcha })
                    &&& session_id@ == s.id@
                    &&& captcha@ == strip_captcha_scheme_spec(t@)
                },
                None => finalize_spec(s, next, step),
            },
            _ => session_unexpected(next, step),
        },
        SessionStage::AwaitingCaptchaResult => match reply {
            SessionReply::Session(Err(e)) => next is Finished && step == SessionStep::Done(Err::<VerificationRequest, SignalError>(e)),
            SessionReply::Session(Ok(s)) => finalize_spec(s, next, step),
            _ => session_unexpected(next, step),
        },
        SessionStage::AwaitingCode { session_id } => match reply {
            SessionReply::CodeRequested(Err(e)) => next is Finished && step == SessionStep::Done(Err::<VerificationRequest, SignalError>(e)),
            SessionReply::CodeRequested(Ok(())) => {
                &&& next is Finished
                &&& step matches SessionStep::Done(Ok(VerificationRequest::CodeSent { session_id: id }))
                &&& id@ == session_id@
            },
            _ => session_unexpected(next, step),
        },
        SessionStage::Finished => session_unexpected(next, step),
    }
}

pub(crate) fn unexpected_reply() -> (r: SignalError)
    ensures
        r matches SignalError::Other(m) && m@ == unexpected_reply_text(),
{
    SignalError::Other(String::from_str("Unexpected reply for the current step."))
}

/// Decides what follows a session reply: captcha still required, refusal,
/// or the code request.
pub fn finalize_session_request(s: RegistrationSessionResponse) -> (r: (SessionStage, SessionStep))
    ensures
        finalize_spec(s, r.0, r.1),
{
    if s.captcha_required() {
        return (SessionStage::Finished, SessionStep::Done(Ok(VerificationRequest::CaptchaRequired { session_id: s.id })));
    }
    if !s.allowed_to_request_code {
        return (
            SessionStage::Finished,
            SessionStep::Done(Err(SignalError::Other(String::from_str("Server does not allow requesting a code at this time.")))),
        );
    }
    let id = s.id.clone();
    (SessionStage::AwaitingCode { session_id: s.id }, SessionStep::Send(SessionCall::RequestCode { session_id: id }))
}

/// Starts the flow that asks Signal to send a verification code to
/// `phone`: create a session, submit `captcha` if given, then request the
/// code unless Signal still wants a captcha.
pub fn start_code_request(phone: &str, captcha: Option<&str>) -> (r: (SessionStage, SessionCall))
    ensures
        r.0 matches SessionStage::AwaitingSession { captcha: c } && c.deep_view() == match captcha {
            Some(t) => Some(t@),
            None => None::<Seq<char>>,
        },
        r.1 matches SessionCall::CreateSession { number } && number@ == phone@,
{
    let c = match captcha {
        Some(t) => Some(String::from_str(t)),
        None => None,
    };
    (SessionStage::AwaitingSession { captcha: c }, SessionCall::CreateSession { number: String::from_str(phone) })
}

/// Starts the flow that submits a captcha token for an existing session and
/// then requests the code.
pub fn start_captcha_submission(session_id: &str, captcha_token: &str) -> (r: (SessionStage, SessionCall))
    ensures
        r.0 is AwaitingCaptchaResult,
        r.1 matches SessionCall::SubmitCaptcha { session_id: id, captcha } && id@ == session_id@ && captcha@
            == strip_captcha_scheme_spec(captcha_token@),
{
    (
        SessionStage::AwaitingCaptchaResult,
        SessionCall::SubmitCaptcha { session_id: String::from_str(session_id), captcha: strip_captcha_scheme(captcha_token) },
    )
}

/// One step of the verification-session flow.
pub fn session_step(stage: SessionStage, reply: SessionReply) -> (r: (SessionStage, SessionStep))
    ensures
        session_step_spec(stage, reply, r.0, r.1),
{
    match stage {
        SessionStage::AwaitingSession { captcha } => match reply {
            SessionReply::Session(Err(e)) => (SessionStage::Finished, SessionStep::Done(Err(e))),
            SessionReply::Session(Ok(s)) => match captcha {
                Some(t) => {
                    let c = strip_captcha_scheme(t.as_str());
                    (SessionStage::AwaitingCaptchaResult, SessionStep::Send(SessionCall::SubmitCaptcha { session_id: s.id, captcha: c }))
                },
                None => finalize_session_request(s),
            },
            _ => (SessionStage::Finished, SessionStep::Done(Err(unexpected_reply()))),
        },
        SessionStage::AwaitingCaptchaResult => match reply {
            SessionReply::Session(Err(e)) => (SessionStage::Finished, SessionStep::Done(Err(e))),
            SessionReply::Session(Ok(s)) => finalize_session_request(s),
            _ => (SessionStage::Finished, SessionStep::Done(Err(unexpected_reply()))),
        },
        SessionStage::AwaitingCode { session_id } => match reply {
            SessionReply::CodeRequested(Err(e)) => (SessionStage::Finished, SessionStep::Done(Err(e))),
            SessionReply::CodeRequested(Ok(())) => (
                SessionStage::Finished,
                SessionStep::Done(Ok(VerificationRequest::CodeSent { session_id })),
            ),
            _ => (SessionStage::Finished, SessionStep::Done(Err(unexpected_reply()))),
        },
        SessionStage::Finished => (SessionStage::Finished, SessionStep::Done(Err(unexpected_reply()))),
    }
}

// ---------------------------------------------------------------------------
// Laws of the verification-session flow
// ---------------------------------------------------------------------------

/// The SMS code is only asked for on a session that needs no captcha and
/// is allowed to request one, and for that very session.
pub proof fn lemma_code_requested_only_when_allowed(s: RegistrationSessionResponse, stage: SessionStage, step: SessionStep)
    requires
        finalize_spec(s, stage, step),
        step matches SessionStep::Send(SessionCall::RequestCode { .. }),
    ensures
        !session_needs_captcha(&s),
        s.allowed_to_request_code,
        step->Send_0->RequestCode_session_id@ == s.id@,
{
}

/// A code reported as sent was requested for the session the flow waited
/// on.
pub proof fn lemma_code_sent_for_requested_session(
    session_id: String,
    reply: SessionReply,
    next: SessionStage,
    step: SessionStep,
)
    requires
        session_step_spec(SessionStage::AwaitingCode { session_id }, reply, next, step),
        step matches SessionStep::Done(Ok(VerificationRequest::CodeSent { .. })),
    ensures
        step->Done_0->Ok_0->CodeSent_session_id@ == session_id@,
        reply matches SessionReply::CodeRequested(Ok(_)),
{
}

/// A failed request ends the flow with its own error.
pub proof fn lemma_session_failure_propagates(stage: SessionStage, e: SignalError, next: SessionStage, step: SessionStep)
    requires
        !(stage is Finished),
        session_step_spec(
            stage,
            match stage {
                SessionStage::AwaitingCode { .. } => SessionReply::CodeRequested(Err(e)),
                _ => SessionReply::Session(Err(e)),
            },
            next,
            step,
        ),
    ensures
        next is Finished,
        step == SessionStep::Done(Err::<VerificationRequest, SignalError>(e)),
{
}

/// The captcha token goes to Signal without the `signalcaptcha://` scheme;
/// a token without it goes unchanged.
pub proof fn lemma_captcha_scheme_stripped(token: Seq<char>)
    ensures
        strip_captcha_scheme_spec(captcha_scheme() + token) == token,
        !(token.len() >= captcha_scheme().len() && token.subrange(0, captcha_scheme().len() as int) == captcha_scheme())
            ==> strip_captcha_scheme_spec(token) == token,
{
    let t = captcha_scheme() + token;
    assert(t.subrange(0, captcha_scheme().len() as int) =~= captcha_scheme());
    assert(t.subrange(captcha_scheme().len() as int, t.len() as int) =~= token);
}

/// "captcha" is among the information the session asks for.
pub open spec fn lists_captcha(s: &RegistrationSessionResponse) -> bool {
    exists|i: int| 0 <= i < s.requested_information@.len() && s.requested_information@[i]@ == "captcha"@
}

/// The flow ends reporting that a captcha is needed for session `id`.
pub open spec fn reports_captcha(next: SessionStage, step: SessionStep, id: Seq<char>) -> bool {
    &&& next is Finished
    &&& step matches SessionStep::Done(Ok(VerificationRequest::CaptchaRequired { session_id }))
    &&& session_id@ == id
}

/// The flow ends refusing to request a code.
pub open spec fn refuses_code(next: SessionStage, step: SessionStep) -> bool {
    &&& next is Finished
    &&& step matches SessionStep::Done(Err(SignalError::Other(m)))
    &&& m@ == "Server does not allow requesting a code at this time."@
}

/// The SMS code is requested for session `id`, whose reply is awaited.
pub open spec fn requests_code(next: SessionStage, step: SessionStep, id: Seq<char>) -> bool {
    &&& next matches SessionStage::AwaitingCode { session_id } && session_id@ == id
    &&& step matches SessionStep::Send(SessionCall::RequestCode { session_id }) && session_id@ == id
}

/// What a session reply decides, whether it answers the session's creation
/// (with no captcha token to submit) or a submitted captcha: a session
/// that lists "captcha" among the requested information is reported as
/// needing a captcha, with its id, whether or not it allows requesting a
/// code; otherwise a session that may not request a code is refused;
/// otherwise the SMS code is requested for that session.
pub proof fn lemma_session_reply_decides(
    stage: SessionStage,
    s: RegistrationSessionResponse,
    next: SessionStage,
    step: SessionStep,
)
    requires
        stage == (SessionStage::AwaitingSession { captcha: None }) || stage is AwaitingCaptchaResult,
        session_step_spec(stage, SessionReply::Session(Ok(s)), next, step),
    ensures
        lists_captcha(&s) ==> reports_captcha(next, step, s.id@),
        !lists_captcha(&s) && !s.allowed_to_request_code ==> refuses_code(next, step),
        !lists_captcha(&s) && s.allowed_to_request_code ==> requests_code(next, step, s.id@),
{
}

/// With a captcha token to submit, a newly created session gets that
/// token, without its `signalcaptcha://` scheme, under the new session's
/// id, and the flow waits for the captcha's result.
pub proof fn lemma_token_submitted_for_new_session(
    token: String,
    s: RegistrationSessionResponse,
    next: SessionStage,
    step: SessionStep,
)
    requires
        session_step_spec(SessionStage::AwaitingSession { captcha: Some(token) }, SessionReply::Session(Ok(s)), next, step),
    ensures
        next is AwaitingCaptchaResult,
        step matches SessionStep::Send(SessionCall::SubmitCaptcha { session_id, captcha }),
        step->Send_0->SubmitCaptcha_session_id@ == s.id@,
        token@.len() >= 16 && token@.subrange(0, 16) == "signalcaptcha://"@ ==> step->Send_0->SubmitCaptcha_captcha@
            == token@.subrange(16, token@.len() as int),
        !(token@.len() >= 16 && token@.subrange(0, 16) == "signalcaptcha://"@) ==> step->Send_0->SubmitCaptcha_captcha@
            == token@,
{
    reveal_strlit("signalcaptcha://");
    assert(captcha_scheme().len() == 16);
}

/// How a failed reply is reported: 402 means a captcha is required; any
/// other status outside 200..300 is an API error carrying the status and
/// the body; a reply inside 200..300 is no error.
pub proof fn lemma_failure_statuses(e: SignalError, status: u16, body: Seq<char>)
    ensures
        is_status_error(e, 402, body) <==> e is CaptchaRequired,
        status != 402 ==> (is_status_error(e, status, body) <==> (e matches SignalError::Api { status: s, body: b } && s
            == status && b@ == body)),
        is_success(status) <==> 200 <= status < 300,
        status_error_spec(status, body) is None <==> 200 <= status < 300,
{
}

} // verus!
