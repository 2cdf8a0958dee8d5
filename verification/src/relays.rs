//! The account's calling relays (TURN/STUN servers). Without them ICE cannot
//! traverse NAT and calls never connect.

use vstd::prelude::*;
use crate::http::{is_status_error, is_success, parse_reply};
use crate::types::{SignalAccount, SignalError};

verus! {

/// A TURN/STUN relay server, as Signal's calling relay endpoint returns it
/// (absent fields are empty).
pub struct TurnServer {
    pub username: String,
    pub password: String,
    pub hostname: String,
    pub urls: Vec<String>,
    pub urls_with_ips: Vec<String>,
}

/// `GET /v2/calling/relays`, authenticated as `aci` with `password`.
pub struct RelaysCall {
    pub aci: String,
    pub password: String,
}

/// The message given for an account without ACI.
pub open spec fn relays_missing_aci_text() -> Seq<char> {
    "Account has no ACI; cannot fetch relays"@
}

/// The request for the account's relays; an account without ACI cannot
/// authenticate.
pub fn relays_request(account: &SignalAccount) -> (r: Result<RelaysCall, SignalError>)
    ensures
        match account.aci {
            None => r matches Err(SignalError::Other(m)) && m@ == relays_missing_aci_text(),
            Some(a) => r matches Ok(c) && c.aci@ == a@ && c.password@ == account.password@,
        },
{
    match &account.aci {
        None => Err(SignalError::Other(String::from_str("Account has no ACI; cannot fetch relays"))),
        Some(a) => Ok(RelaysCall { aci: a.clone(), password: account.password.clone() }),
    }
}

/// Reads the reply: the relays on success (an absent list is empty), the
/// status error otherwise, a transport error when the body did not decode.
pub fn relays_from_reply(status: u16, body: String, relays: Result<Vec<TurnServer>, String>) -> (r: Result<
    Vec<TurnServer>,
    SignalError,
>)
    ensures
        !is_success(status) ==> (r matches Err(e) && is_status_error(e, status, body@)),
        is_success(status) ==> match relays {
            Ok(v) => r == Ok::<Vec<TurnServer>, SignalError>(v),
            Err(m) => r matches Err(SignalError::Http(h)) && h@ == m@,
        },
{
    parse_reply(status, body, relays)
}

} // verus!
