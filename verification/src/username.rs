//! Setting a `nickname.discriminator` username on a registered account:
//! the username's hash is reserved, then confirmed with a zero-knowledge
//! proof and an encrypted username link.
//!
//! Hashing the username, making the proof and encrypting the link belong to
//! Signal's username library, which the caller runs; this module holds the
//! flow around it as a state machine.

use vstd::prelude::*;
use crate::crypto::{b64_url_safe_no_pad_encode, base64_url_safe_no_pad_encode, encodable_bytes};
use crate::http::{is_status_error, is_success, parse_reply, unexpected_reply, unexpected_reply_text};
use crate::types::{SignalAccount, SignalError};

verus! {

/// The result of setting a username.
pub struct UsernameConfirmation {
    /// The confirmed username, e.g. `username.1234`.
    pub username: String,
    /// Server handle of the username link (for a `sgnl.link` URL).
    pub username_link_handle: Option<String>,
    /// The 32 bytes of entropy the link was derived from, needed to rebuild
    /// the shareable link.
    pub username_link_entropy: Vec<u8>,
}

/// What the username library made for the confirmation.
pub struct UsernameProof {
    pub proof: Vec<u8>,
    pub entropy: Vec<u8>,
    pub encrypted_username: Vec<u8>,
}

/// A request of the username flow.
pub enum UsernameCall {
    /// `PUT /v1/accounts/username_hash/reserve` with the hashes.
    Reserve { aci: String, password: String, username_hashes: Vec<String> },
    /// `PUT /v1/accounts/username_hash/confirm`.
    Confirm {
        aci: String,
        password: String,
        username_hash: String,
        zk_proof: String,
        encrypted_username: String,
    },
}

/// Where the username flow stands.
pub enum UsernameStage {
    AwaitingReservation { aci: String, password: String, username: String },
    AwaitingProof { aci: String, password: String, username: String, username_hash: String },
    AwaitingConfirmation { username: String, entropy: Vec<u8> },
    Finished,
}

/// What came back.
pub enum UsernameReply {
    /// The request could not be performed; the transport's message.
    Transport(String),
    /// Reply to `Reserve`: status, body and the decoded `usernameHash`.
    Reserved { status: u16, body: String, username_hash: Result<String, String> },
    /// The proof and encrypted link asked for by `MakeProof`.
    ProofMade(Result<UsernameProof, SignalError>),
    /// Reply to `Confirm`: status, body and the decoded
    /// `usernameLinkHandle` (absent: `None`).
    Confirmed { status: u16, body: String, handle: Result<Option<String>, String> },
}

/// What to do next.
pub enum UsernameStep {
    Send(UsernameCall),
    /// Make the username's proof with fresh randomness and encrypt its link,
    /// and reply with `ProofMade`.
    MakeProof { username: String },
    Done(Result<UsernameConfirmation, SignalError>),
}

/// The message given for an account without ACI.
pub open spec fn username_missing_aci_text() -> Seq<char> {
    "Account has no ACI; cannot set a username"@
}

/// The message given for a username that does not parse; `detail` is the
/// library's description.
pub open spec fn invalid_username_text(username: Seq<char>, detail: Seq<char>) -> Seq<char> {
    "Invalid username '"@ + username + "' (expected nickname.discriminator, e.g. name.1234): "@ + detail
}

/// Starts setting `username`; `hash` is the username library's hash of it,
/// or its description of why the username does not parse. An account
/// without ACI is refused first.
pub fn start_username(account: &SignalAccount, username: &str, hash: Result<Vec<u8>, String>) -> (r: Result<
    (UsernameStage, UsernameCall),
    SignalError,
>)
    requires
        hash matches Ok(h) ==> encodable_bytes(h@),
    ensures
        match account.aci {
            None => r matches Err(SignalError::Other(m)) && m@ == username_missing_aci_text(),
            Some(a) => match hash {
                Err(d) => r matches Err(SignalError::Other(m)) && m@ == invalid_username_text(username@, d@),
                Ok(h) => {
                    &&& r matches Ok((UsernameStage::AwaitingReservation { aci, password, username: u }, _))
                    &&& r->Ok_0.0->AwaitingReservation_aci@ == a@
                    &&& r->Ok_0.0->AwaitingReservation_password@ == account.password@
                    &&& r->Ok_0.0->AwaitingReservation_username@ == username@
                    &&& r->Ok_0.1 matches UsernameCall::Reserve { aci, password, username_hashes }
                    &&& aci@ == a@ && password@ == account.password@
                    &&& username_hashes@.len() == 1
                    &&& username_hashes@[0]@ == base64_url_safe_no_pad_encode(h@)
                },
            },
        },
{
    let aci = match &account.aci {
        None => return Err(SignalError::Other(String::from_str("Account has no ACI; cannot set a username"))),
        Some(a) => a.clone(),
    };
    let h = match hash {
        Err(d) => {
            let mut m = String::from_str("Invalid username '");
            m.append(username);
            m.append("' (expected nickname.discriminator, e.g. name.1234): ");
            m.append(d.as_str());
            return Err(SignalError::Other(m));
        },
        Ok(h) => h,
    };
    let hashes = vec![b64_url_safe_no_pad_encode(h.as_slice())];
    let call = UsernameCall::Reserve { aci: aci.clone(), password: account.password.clone(), username_hashes: hashes };
    let stage = UsernameStage::AwaitingReservation {
        aci,
        password: account.password.clone(),
        username: String::from_str(username),
    };
    Ok((stage, call))
}

/// The flow stops with the "unexpected reply" error.
pub open spec fn username_unexpected(next: UsernameStage, step: UsernameStep) -> bool {
    &&& next is Finished
    &&& step matches UsernameStep::Done(Err(SignalError::Other(m)))
    &&& m@ == unexpected_reply_text()
}

/// The flow stops with a transport error carrying `m`.
pub open spec fn username_transport_failure(next: UsernameStage, step: UsernameStep, m: Seq<char>) -> bool {
    &&& next is Finished
    &&& step matches UsernameStep::Done(Err(SignalError::Http(h)))
    &&& h@ == m
}

/// The flow stops with the error that `parse_reply` gives for a reply.
pub open spec fn username_reply_failure<T>(
    next: UsernameStage,
    step: UsernameStep,
    status: u16,
    body: Seq<char>,
    decoded: Result<T, String>,
) -> bool {
    &&& next is Finished
    &&& !is_success(status) ==> (step matches UsernameStep::Done(Err(e)) && is_status_error(e, status, body))
    &&& is_success(status) ==> (decoded matches Err(m) && username_transport_failure(next, step, m@))
}

/// One step of the username flow.
pub open spec fn username_step_spec(stage: UsernameStage, reply: UsernameReply, next: UsernameStage, step: UsernameStep) -> bool {
    match stage {
        UsernameStage::AwaitingReservation { aci, password, username } => match reply {
            UsernameReply::Transport(m) => username_transport_failure(next, step, m@),
            UsernameReply::Reserved { status, body, username_hash } => if is_success(status) && username_hash is Ok {
                &&& next matches UsernameStage::AwaitingProof { aci: a, password: p, username: u, username_hash: h }
                &&& a@ == aci@ && p@ == password@ && u@ == username@ && h@ == username_hash->Ok_0@
                &&& step matches UsernameStep::MakeProof { username: u } && u@ == username@
            } else {
                username_reply_failure(next, step, status, body@, username_hash)
            },
            _ => username_unexpected(next, step),
        },
        UsernameStage::AwaitingProof { aci, password, username, username_hash } => match reply {
            UsernameReply::Transport(m) => username_transport_failure(next, step, m@),
            UsernameReply::ProofMade(Err(e)) => next is Finished && step == UsernameStep::Done(
                Err::<UsernameConfirmation, SignalError>(e),
            ),
            UsernameReply::ProofMade(Ok(p)) => {
                &&& next matches UsernameStage::AwaitingConfirmation { username: u, entropy }
                &&& u@ == username@ && entropy@ == p.entropy@
                &&& step matches UsernameStep::Send(
                    UsernameCall::Confirm { aci: a, password: pw, username_hash: h, zk_proof, encrypted_username },
                )
                &&& a@ == aci@ && pw@ == password@ && h@ == username_hash@
                &&& zk_proof@ == base64_url_safe_no_pad_encode(p.proof@)
                &&& encrypted_username@ == base64_url_safe_no_pad_encode(p.encrypted_username@)
            },
            _ => username_unexpected(next, step),
        },
        UsernameStage::AwaitingConfirmation { username, entropy } => match reply {
            UsernameReply::Transport(m) => username_transport_failure(next, step, m@),
            UsernameReply::Confirmed { status, body, handle } => if is_success(status) && handle is Ok {
                &&& next is Finished
                &&& step matches UsernameStep::Done(Ok(c))
                &&& c.username@ == username@
                &&& c.username_link_handle.deep_view() == handle->Ok_0.deep_view()
                &&& c.username_link_entropy@ == entropy@
            } else {
                username_reply_failure(next, step, status, body@, handle)
            },
            _ => username_unexpected(next, step),
        },
        UsernameStage::Finished => username_unexpected(next, step),
    }
}

fn failure(e: SignalError) -> (r: (UsernameStage, UsernameStep))
    ensures
        r.0 is Finished,
        r.1 == UsernameStep::Done(Err::<UsernameConfirmation, SignalError>(e)),
{
    (UsernameStage::Finished, UsernameStep::Done(Err(e)))
}

/// One step of the username flow.
pub fn username_step(stage: UsernameStage, reply: UsernameReply) -> (r: (UsernameStage, UsernameStep))
    requires
        reply matches UsernameReply::ProofMade(Ok(p)) ==> encodable_bytes(p.proof@) && encodable_bytes(
            p.encrypted_username@,
        ),
    ensures
        username_step_spec(stage, reply, r.0, r.1),
{
    match stage {
        UsernameStage::AwaitingReservation { aci, password, username } => match reply {
            UsernameReply::Transport(m) => failure(SignalError::Http(m)),
            UsernameReply::Reserved { status, body, username_hash } => match parse_reply(status, body, username_hash) {
                Err(e) => failure(e),
                Ok(h) => {
                    let u = username.clone();
                    (
                        UsernameStage::AwaitingProof { aci, password, username, username_hash: h },
                        UsernameStep::MakeProof { username: u },
                    )
                },
            },
            _ => failure(unexpected_reply()),
        },
        UsernameStage::AwaitingProof { aci, password, username, username_hash } => match reply {
            UsernameReply::Transport(m) => failure(SignalError::Http(m)),
            UsernameReply::ProofMade(Err(e)) => failure(e),
            UsernameReply::ProofMade(Ok(p)) => {
                let call = UsernameCall::Confirm {
                    aci,
                    password,
                    username_hash,
                    zk_proof: b64_url_safe_no_pad_encode(p.proof.as_slice()),
                    encrypted_username: b64_url_safe_no_pad_encode(p.encrypted_username.as_slice()),
                };
                (UsernameStage::AwaitingConfirmation { username, entropy: p.entropy }, UsernameStep::Send(call))
            },
            _ => failure(unexpected_reply()),
        },
        UsernameStage::AwaitingConfirmation { username, entropy } => match reply {
            UsernameReply::Transport(m) => failure(SignalError::Http(m)),
            UsernameReply::Confirmed { status, body, handle } => match parse_reply(status, body, handle) {
                Err(e) => failure(e),
                Ok(h) => (
                    UsernameStage::Finished,
                    UsernameStep::Done(
                        Ok(UsernameConfirmation { username, username_link_handle: h, username_link_entropy: entropy }),
                    ),
                ),
            },
            _ => failure(unexpected_reply()),
        },
        UsernameStage::Finished => failure(unexpected_reply()),
    }
}

// ---------------------------------------------------------------------------
// Laws of the username flow
// ---------------------------------------------------------------------------

/// A reservation that Signal accepts leads to the proof for the very
/// username that was reserved, and the hash Signal reserved is the one
/// that will be confirmed, by the same account.
pub proof fn lemma_reserved_hash_is_confirmed(
    aci: String,
    password: String,
    username: String,
    status: u16,
    body: String,
    hash: String,
    next: UsernameStage,
    step: UsernameStep,
)
    requires
        200 <= status < 300,
        username_step_spec(
            UsernameStage::AwaitingReservation { aci, password, username },
            UsernameReply::Reserved { status, body, username_hash: Ok(hash) },
            next,
            step,
        ),
    ensures
        step matches UsernameStep::MakeProof { username: u },
        step->MakeProof_username@ == username@,
        next matches UsernameStage::AwaitingProof { .. },
        next->AwaitingProof_username_hash@ == hash@,
        next->AwaitingProof_username@ == username@,
        next->AwaitingProof_aci@ == aci@,
        next->AwaitingProof_password@ == password@,
{
}

/// The confirmation is sent as the account that reserved the username, for
/// the reserved hash, with the proof and the encrypted username that the
/// username library made, each in URL-safe base64 without padding; the
/// link's entropy is kept for the result.
pub proof fn lemma_confirmation_carries_proof(
    aci: String,
    password: String,
    username: String,
    username_hash: String,
    p: UsernameProof,
    next: UsernameStage,
    step: UsernameStep,
)
    requires
        username_step_spec(
            UsernameStage::AwaitingProof { aci, password, username, username_hash },
            UsernameReply::ProofMade(Ok(p)),
            next,
            step,
        ),
    ensures
        step matches UsernameStep::Send(UsernameCall::Confirm { .. }),
        step->Send_0->Confirm_aci@ == aci@,
        step->Send_0->Confirm_password@ == password@,
        step->Send_0->Confirm_username_hash@ == username_hash@,
        step->Send_0->Confirm_zk_proof@ == base64_url_safe_no_pad_encode(p.proof@),
        step->Send_0->Confirm_encrypted_username@ == base64_url_safe_no_pad_encode(p.encrypted_username@),
        next matches UsernameStage::AwaitingConfirmation { .. },
        next->AwaitingConfirmation_username@ == username@,
        next->AwaitingConfirmation_entropy@ == p.entropy@,
{
}

/// A confirmation that Signal accepts gives the username that was set, the
/// link handle Signal returned, and the link's entropy.
pub proof fn lemma_confirmed_result(
    username: String,
    entropy: Vec<u8>,
    status: u16,
    body: String,
    handle: Option<String>,
    next: UsernameStage,
    step: UsernameStep,
)
    requires
        200 <= status < 300,
        username_step_spec(
            UsernameStage::AwaitingConfirmation { username, entropy },
            UsernameReply::Confirmed { status, body, handle: Ok(handle) },
            next,
            step,
        ),
    ensures
        next is Finished,
        step matches UsernameStep::Done(Ok(c)),
        step->Done_0->Ok_0.username@ == username@,
        step->Done_0->Ok_0.username_link_handle.deep_view() == handle.deep_view(),
        step->Done_0->Ok_0.username_link_entropy@ == entropy@,
{
}

} // verus!
