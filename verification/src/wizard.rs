//! The setup wizard's state machine: which step the user is on, what each
//! finished piece of background work does to the state, and what going back
//! to an earlier step throws away. Drawing the screens and running the work
//! on a thread is the caller's part.

use vstd::prelude::*;
use crate::types::{same_account, SignalAccount, SignalError, VerificationRequest};
use crate::desktop::{chosen_profile, choose_profile_for_new_account};

verus! {

/// The steps of the wizard.
#[derive(PartialEq, Eq, Structural, Clone, Copy)]
pub enum Step {
    /// Shown at startup when saved accounts exist: re-link, switch numbers,
    /// or delete.
    Welcome,
    PhoneInput,
    Captcha,
    Verification,
    Linking,
    Complete,
}

/// The number of a step in the step indicator (the welcome screen has none).
pub open spec fn step_number(s: Step) -> nat {
    match s {
        Step::Welcome => 0,
        Step::PhoneInput => 1,
        Step::Captcha => 2,
        Step::Verification => 3,
        Step::Linking => 4,
        Step::Complete => 5,
    }
}

impl Step {
    /// The number of the step: 0 for the welcome screen, then 1 to 5.
    pub fn number(self) -> (r: usize)
        ensures
            r == step_number(self),
    {
        match self {
            Step::Welcome => 0,
            Step::PhoneInput => 1,
            Step::Captcha => 2,
            Step::Verification => 3,
            Step::Linking => 4,
            Step::Complete => 5,
        }
    }
}

/// Distinct steps have distinct numbers.
pub proof fn lemma_step_numbers_distinct(a: Step, b: Step)
    ensures
        step_number(a) == step_number(b) ==> a == b,
{
}

/// The banner shown above the current step.
pub enum Status {
    /// No banner.
    Blank,
    Info(String),
    Success(String),
    Error(String),
}

/// The outcome of a piece of background work.
pub enum WorkResult {
    RegisterOk { session_id: String },
    RegisterNeedsCaptcha { session_id: String },
    RegisterError(String),
    VerifyOk { account: SignalAccount },
    VerifyError(String),
    DeviceTransferAvailable,
    LinkOk,
    LinkError(String),
}

/// The wizard's state.
pub struct Wizard {
    pub step: Step,
    pub phone: String,
    pub captcha_token: String,
    pub verification_code: String,
    pub device_uri: String,
    pub status: Status,
    /// Background work is running.
    pub loading: bool,
    /// A result of background work is awaited; it is dropped when the user
    /// goes back.
    pub awaiting_result: bool,
    /// The session id of the verification session (steps 1 to 3).
    pub session_id: Option<String>,
    /// The registered account (steps 3 to 4).
    pub signal_account: Option<SignalAccount>,
    /// Registration answered that the number's existing account supports a
    /// device transfer; the user is offered to skip it.
    pub device_transfer_available: bool,
    /// Signal asked for a captcha in this session, so the captcha step may
    /// be gone back to.
    pub captcha_was_required: bool,
    /// The saved accounts.
    pub accounts: Vec<SignalAccount>,
}

/// The fields that the welcome and final screens' buttons leave alone:
/// captcha token, code, loading flags, session, transfer and captcha marks.
pub open spec fn session_fields_kept(a: Wizard, b: Wizard) -> bool {
    &&& b.captcha_token == a.captcha_token
    &&& b.verification_code == a.verification_code
    &&& b.loading == a.loading
    &&& b.awaiting_result == a.awaiting_result
    &&& b.session_id == a.session_id
    &&& b.device_transfer_available == a.device_transfer_available
    &&& b.captcha_was_required == a.captcha_was_required
}

/// The phones of a list of accounts.
pub open spec fn phones_of(s: Seq<SignalAccount>) -> Seq<Seq<char>> {
    s.map_values(|a: SignalAccount| a.phone@)
}

/// The accounts whose phone is not `phone`, in order.
pub open spec fn others(s: Seq<SignalAccount>, phone: Seq<char>) -> Seq<SignalAccount>
    decreases s.len(),
{
    if s.len() == 0 {
        s
    } else if s.last().phone@ == phone {
        others(s.drop_last(), phone)
    } else {
        others(s.drop_last(), phone).push(s.last())
    }
}

/// Two lists hold the same accounts, in the same order.
pub open spec fn same_accounts(a: Seq<SignalAccount>, b: Seq<SignalAccount>) -> bool {
    a.len() == b.len() && forall|i: int| 0 <= i < a.len() ==> same_account(&a[i], &b[i])
}

/// The profiles bound to the accounts, in order, skipping accounts without
/// one.
pub open spec fn profiles_of(s: Seq<SignalAccount>) -> Seq<Seq<char>>
    decreases s.len(),
{
    if s.len() == 0 {
        Seq::empty()
    } else {
        match s.last().desktop_profile {
            Some(p) => profiles_of(s.drop_last()).push(p@),
            None => profiles_of(s.drop_last()),
        }
    }
}

/// The state of a wizard at startup: the welcome screen when accounts are
/// saved, the phone number otherwise.
pub open spec fn fresh(w: &Wizard) -> bool {
    &&& w.phone@.len() == 0
    &&& w.captcha_token@.len() == 0
    &&& w.verification_code@.len() == 0
    &&& w.device_uri@.len() == 0
    &&& w.status is Blank
    &&& !w.loading
    &&& !w.awaiting_result
    &&& w.session_id is None
    &&& w.signal_account is None
    &&& !w.device_transfer_available
    &&& !w.captcha_was_required
}

fn profiles(accounts: &Vec<SignalAccount>) -> (r: Vec<String>)
    ensures
        r@.map_values(|p: String| p@) == profiles_of(accounts@),
{
    let mut out: Vec<String> = Vec::new();
    let mut i: usize = 0;
    while i < accounts.len()
        invariant
            i <= accounts@.len(),
            out@.map_values(|p: String| p@) == profiles_of(accounts@.subrange(0, i as int)),
        decreases accounts@.len() - i,
    {
        let ghost before = out@;
        assert(accounts@.subrange(0, i + 1).drop_last() =~= accounts@.subrange(0, i as int));
        match &accounts[i].desktop_profile {
            Some(p) => {
                out.push(p.clone());
                assert(out@.map_values(|p: String| p@) =~= before.map_values(|p: String| p@).push(p@));
            },
            None => {},
        }
        i = i + 1;
    }
    assert(accounts@.subrange(0, accounts@.len() as int) =~= accounts@);
    out
}

fn replace_account(accounts: &Vec<SignalAccount>, account: &SignalAccount) -> (r: Vec<SignalAccount>)
    ensures
        same_accounts(r@, others(accounts@, account.phone@).push(*account)),
{
    let mut out: Vec<SignalAccount> = Vec::new();
    let mut i: usize = 0;
    while i < accounts.len()
        invariant
            i <= accounts@.len(),
            same_accounts(out@, others(accounts@.subrange(0, i as int), account.phone@)),
        decreases accounts@.len() - i,
    {
        let ghost prefix = accounts@.subrange(0, i as int);
        assert(accounts@.subrange(0, i + 1).drop_last() =~= prefix);
        assert(accounts@.subrange(0, i + 1).last() == accounts@[i as int]);
        if !crate::http::str_eq(accounts[i].phone.as_str(), account.phone.as_str()) {
            let c = accounts[i].duplicate();
            out.push(c);
        }
        i = i + 1;
    }
    assert(accounts@.subrange(0, accounts@.len() as int) =~= accounts@);
    let c = account.duplicate();
    out.push(c);
    out
}

impl Wizard {
    /// The wizard at startup, given the saved accounts.
    pub fn new(accounts: Vec<SignalAccount>) -> (r: Self)
        ensures
            fresh(&r),
            r.accounts@ == accounts@,
            r.step == (if accounts@.len() > 0 { Step::Welcome } else { Step::PhoneInput }),
    {
        let step = if accounts.len() > 0 {
            Step::Welcome
        } else {
            Step::PhoneInput
        };
        Wizard {
            step,
            phone: String::new(),
            captcha_token: String::new(),
            verification_code: String::new(),
            device_uri: String::new(),
            status: Status::Blank,
            loading: false,
            awaiting_result: false,
            session_id: None,
            signal_account: None,
            device_transfer_available: false,
            captcha_was_required: false,
            accounts,
        }
    }

    /// Background work was started.
    pub fn start_work(&mut self)
        ensures
            final(self).loading,
            final(self).awaiting_result,
            final(self).step == old(self).step,
            final(self).phone == old(self).phone,
            final(self).captcha_token == old(self).captcha_token,
            final(self).verification_code == old(self).verification_code,
            final(self).device_uri == old(self).device_uri,
            final(self).status == old(self).status,
            final(self).session_id == old(self).session_id,
            final(self).signal_account == old(self).signal_account,
            final(self).device_transfer_available == old(self).device_transfer_available,
            final(self).captcha_was_required == old(self).captcha_was_required,
            final(self).accounts == old(self).accounts,
    {
        self.loading = true;
        self.awaiting_result = true;
    }

    /// Goes back to an earlier step (1 to 4), throwing away what the later
    /// steps produced so that the flow restarts cleanly from there. Any
    /// result still awaited is dropped. Other targets change nothing but
    /// the dropped work and the banner.
    pub fn jump_back_to_step(&mut self, target: usize)
        ensures
            !final(self).loading,
            !final(self).awaiting_result,
            final(self).status is Blank,
            final(self).phone@ == old(self).phone@,
            final(self).accounts@ == old(self).accounts@,
            target == 1 ==> {
                &&& final(self).step == Step::PhoneInput
                &&& final(self).captcha_token@.len() == 0
                &&& final(self).verification_code@.len() == 0
                &&& final(self).device_uri@.len() == 0
                &&& final(self).session_id is None
                &&& final(self).signal_account is None
                &&& !final(self).device_transfer_available
                &&& !final(self).captcha_was_required
            },
            target == 2 ==> {
                &&& final(self).step == Step::Captcha
                &&& final(self).captcha_token@ == old(self).captcha_token@
                &&& final(self).verification_code@.len() == 0
                &&& final(self).device_uri@.len() == 0
                &&& final(self).session_id.deep_view() == old(self).session_id.deep_view()
                &&& final(self).signal_account is None
                &&& !final(self).device_transfer_available
                &&& final(self).captcha_was_required == old(self).captcha_was_required
            },
            target == 3 ==> {
                &&& final(self).step == Step::Verification
                &&& final(self).captcha_token@ == old(self).captcha_token@
                &&& final(self).verification_code@ == old(self).verification_code@
                &&& final(self).device_uri@.len() == 0
                &&& final(self).session_id.deep_view() == old(self).session_id.deep_view()
                &&& final(self).signal_account is None
                &&& !final(self).device_transfer_available
                &&& final(self).captcha_was_required == old(self).captcha_was_required
            },
            target == 4 ==> {
                &&& final(self).step == Step::Linking
                &&& final(self).captcha_token@ == old(self).captcha_token@
                &&& final(self).verification_code@ == old(self).verification_code@
                &&& final(self).device_uri@ == old(self).device_uri@
                &&& final(self).session_id.deep_view() == old(self).session_id.deep_view()
                &&& final(self).signal_account == old(self).signal_account
                &&& final(self).device_transfer_available == old(self).device_transfer_available
                &&& final(self).captcha_was_required == old(self).captcha_was_required
            },
            !(1 <= target <= 4) ==> {
                &&& final(self).step == old(self).step
                &&& final(self).captcha_token@ == old(self).captcha_token@
                &&& final(self).verification_code@ == old(self).verification_code@
                &&& final(self).device_uri@ == old(self).device_uri@
                &&& final(self).session_id.deep_view() == old(self).session_id.deep_view()
                &&& final(self).signal_account == old(self).signal_account
                &&& final(self).device_transfer_available == old(self).device_transfer_available
                &&& final(self).captcha_was_required == old(self).captcha_was_required
            },
    {
        self.awaiting_result = false;
        self.loading = false;
        self.status = Status::Blank;
        if target == 1 {
            self.captcha_token = String::new();
            self.verification_code = String::new();
            self.device_uri = String::new();
            self.session_id = None;
            self.signal_account = None;
            self.device_transfer_available = false;
            self.captcha_was_required = false;
            self.step = Step::PhoneInput;
        } else if target == 2 {
            self.verification_code = String::new();
            self.device_uri = String::new();
            self.signal_account = None;
            self.device_transfer_available = false;
            self.step = Step::Captcha;
        } else if target == 3 {
            self.device_uri = String::new();
            self.signal_account = None;
            self.device_transfer_available = false;
            self.step = Step::Verification;
        } else if target == 4 {
            self.step = Step::Linking;
        }
    }
}

/// `b` is `a` bound to the desktop profile `profile`.
pub open spec fn with_profile(b: &SignalAccount, a: &SignalAccount, profile: Seq<char>) -> bool {
    &&& b.phone@ == a.phone@
    &&& b.password@ == a.password@
    &&& b.aci_identity@ == a.aci_identity@
    &&& b.pni_identity@ == a.pni_identity@
    &&& b.aci.deep_view() == a.aci.deep_view()
    &&& b.pni.deep_view() == a.pni.deep_view()
    &&& b.master_key@ == a.master_key@
    &&& b.profile_key@ == a.profile_key@
    &&& b.registration_id == a.registration_id
    &&& b.desktop_profile.deep_view() == Some(profile)
}

/// The banner is an information with this text.
pub open spec fn info_is(s: Status, text: Seq<char>) -> bool {
    s matches Status::Info(m) && m@ == text
}

/// The banner is a success with this text.
pub open spec fn success_is(s: Status, text: Seq<char>) -> bool {
    s matches Status::Success(m) && m@ == text
}

/// The banner is an error with this text.
pub open spec fn error_is(s: Status, text: Seq<char>) -> bool {
    s matches Status::Error(m) && m@ == text
}

/// What applying a result of background work does.
pub open spec fn applied(
    old: Wizard,
    new: Wizard,
    result: WorkResult,
    default_exists: bool,
    saved: Option<SignalAccount>,
) -> bool {
    match result {
        WorkResult::RegisterOk { session_id } => {
            &&& new.session_id.deep_view() == Some(session_id@)
            &&& info_is(new.status, "Verification code sent to your phone."@)
            &&& new.step == Step::Verification
            &&& saved is None
        },
        WorkResult::RegisterNeedsCaptcha { session_id } => {
            &&& new.session_id.deep_view() == Some(session_id@)
            &&& new.captcha_was_required
            &&& info_is(new.status, "A captcha is required to complete registration."@)
            &&& new.step == Step::Captcha
            &&& saved is None
        },
        WorkResult::RegisterError(e) => {
            &&& error_is(new.status, "Registration failed: "@ + e@)
            &&& new.step == old.step
            &&& saved is None
        },
        WorkResult::VerifyOk { account } => {
            let profile = chosen_profile(account.phone@, profiles_of(old.accounts@), default_exists);
            &&& saved matches Some(a) && with_profile(&a, &account, profile)
            &&& same_accounts(new.accounts@, others(old.accounts@, account.phone@).push(saved->Some_0))
            &&& new.signal_account matches Some(s) && same_account(&s, &saved->Some_0)
            &&& !new.device_transfer_available
            &&& success_is(new.status, "Phone number verified."@)
            &&& new.step == Step::Linking
        },
        WorkResult::VerifyError(e) => {
            &&& error_is(new.status, "Verification failed: "@ + e@)
            &&& new.step == old.step
            &&& saved is None
        },
        WorkResult::DeviceTransferAvailable => {
            &&& new.device_transfer_available
            &&& new.status is Blank
            &&& new.step == old.step
            &&& saved is None
        },
        WorkResult::LinkOk => {
            &&& success_is(new.status, "Device linked successfully!"@)
            &&& new.step == Step::Complete
            &&& saved is None
        },
        WorkResult::LinkError(e) => {
            &&& error_is(new.status, "Linking failed: "@ + e@)
            &&& new.step == old.step
            &&& saved is None
        },
    }
}

fn prefixed(prefix: &str, e: String) -> (r: String)
    ensures
        r@ == prefix@ + e@,
{
    let mut m = String::from_str(prefix);
    m.append(e.as_str());
    m
}

impl Wizard {
    /// Applies the outcome of background work, which is no longer awaited.
    /// A verified account is bound to a Signal Desktop profile
    /// (`default_exists` tells whether Signal Desktop's default profile
    /// directory exists), replaces any saved account with its phone, and is
    /// returned to be saved.
    pub fn apply_result(&mut self, result: WorkResult, default_exists: bool) -> (r: Option<SignalAccount>)
        ensures
            !final(self).loading,
            !final(self).awaiting_result,
            applied(*old(self), *final(self), result, default_exists, r),
            final(self).phone@ == old(self).phone@,
            final(self).device_uri@ == old(self).device_uri@,
            !(result is VerifyOk) ==> final(self).accounts@ == old(self).accounts@,
            !(result is VerifyOk) ==> final(self).signal_account == old(self).signal_account,
            final(self).captcha_token == old(self).captcha_token,
            final(self).verification_code == old(self).verification_code,
            !(result is RegisterOk || result is RegisterNeedsCaptcha) ==> final(self).session_id == old(self).session_id,
            !(result is RegisterNeedsCaptcha) ==> final(self).captcha_was_required == old(self).captcha_was_required,
            !(result is VerifyOk || result is DeviceTransferAvailable) ==> final(self).device_transfer_available
                == old(self).device_transfer_available,
    {
        self.awaiting_result = false;
        self.loading = false;
        match result {
            WorkResult::RegisterOk { session_id } => {
                self.session_id = Some(session_id);
                self.status = Status::Info(String::from_str("Verification code sent to your phone."));
                self.step = Step::Verification;
                None
            },
            WorkResult::RegisterNeedsCaptcha { session_id } => {
                self.session_id = Some(session_id);
                self.captcha_was_required = true;
                self.status = Status::Info(String::from_str("A captcha is required to complete registration."));
                self.step = Step::Captcha;
                None
            },
            WorkResult::RegisterError(e) => {
                self.status = Status::Error(prefixed("Registration failed: ", e));
                None
            },
            WorkResult::VerifyOk { account } => {
                let mut account = account;
                let taken = profiles(&self.accounts);
                let profile = choose_profile_for_new_account(account.phone.as_str(), taken.as_slice(), default_exists);
                proof {
                    assert(crate::desktop::views_of(taken@) =~= taken@.map_values(|p: String| p@));
                }
                account.desktop_profile = Some(profile);
                let accounts = replace_account(&self.accounts, &account);
                self.accounts = accounts;
                self.signal_account = Some(account.duplicate());
                self.device_transfer_available = false;
                self.status = Status::Success(String::from_str("Phone number verified."));
                self.step = Step::Linking;
                Some(account)
            },
            WorkResult::VerifyError(e) => {
                self.status = Status::Error(prefixed("Verification failed: ", e));
                None
            },
            WorkResult::DeviceTransferAvailable => {
                self.device_transfer_available = true;
                self.status = Status::Blank;
                None
            },
            WorkResult::LinkOk => {
                self.status = Status::Success(String::from_str("Device linked successfully!"));
                self.step = Step::Complete;
                None
            },
            WorkResult::LinkError(e) => {
                self.status = Status::Error(prefixed("Linking failed: ", e));
                None
            },
        }
    }

    /// "Re-link" on the final screen: keeps the account and goes back to
    /// linking with an empty URI.
    pub fn relink(&mut self)
        ensures
            final(self).step == Step::Linking,
            final(self).device_uri@.len() == 0,
            final(self).signal_account == old(self).signal_account,
            final(self).phone == old(self).phone,
            final(self).accounts == old(self).accounts,
            session_fields_kept(*old(self), *final(self)),
            info_is(
                final(self).status,
                "Re-linking. Show a fresh QR code from Signal Desktop, then paste it below."@,
            ),
    {
        self.device_uri = String::new();
        self.status = Status::Info(
            String::from_str("Re-linking. Show a fresh QR code from Signal Desktop, then paste it below."),
        );
        self.step = Step::Linking;
    }

    /// "Re-link Desktop" on a saved account of the welcome screen: links
    /// with that account.
    pub fn use_saved_account(&mut self, account: SignalAccount)
        ensures
            final(self).phone@ == account.phone@,
            final(self).signal_account matches Some(a) && same_account(&a, &account),
            final(self).step == Step::Linking,
            final(self).device_uri == old(self).device_uri,
            final(self).accounts == old(self).accounts,
            session_fields_kept(*old(self), *final(self)),
            info_is(final(self).status, "Using the saved account. Paste a new linking QR code from Signal Desktop."@),
    {
        self.phone = account.phone.clone();
        self.signal_account = Some(account);
        self.status = Status::Info(
            String::from_str("Using the saved account. Paste a new linking QR code from Signal Desktop."),
        );
        self.step = Step::Linking;
    }

    /// "Register a new number" on the welcome screen.
    pub fn register_new_number(&mut self)
        ensures
            final(self).phone@.len() == 0,
            final(self).signal_account is None,
            final(self).status is Blank,
            final(self).step == Step::PhoneInput,
            final(self).device_uri == old(self).device_uri,
            final(self).accounts == old(self).accounts,
            session_fields_kept(*old(self), *final(self)),
    {
        self.phone = String::new();
        self.signal_account = None;
        self.status = Status::Blank;
        self.step = Step::PhoneInput;
    }

    /// The outcome of deleting a saved account from the welcome screen:
    /// on success the account leaves the list shown, on failure the list
    /// stays and the banner gives the error. The step does not change.
    pub fn deletion_result(&mut self, phone: &str, r: Result<(), SignalError>)
        ensures
            final(self).step == old(self).step,
            final(self).phone == old(self).phone,
            final(self).signal_account == old(self).signal_account,
            final(self).device_uri == old(self).device_uri,
            session_fields_kept(*old(self), *final(self)),
            r is Ok ==> same_accounts(final(self).accounts@, others(old(self).accounts@, phone@)),
            r is Ok ==> success_is(final(self).status, "Deleted "@ + phone@ + "."@),
            r matches Err(e) ==> final(self).accounts@ == old(self).accounts@ && error_is(
                final(self).status,
                "Could not delete account: "@ + crate::types::error_text(e),
            ),
    {
        match r {
            Ok(()) => {
                let kept = keep_others(&self.accounts, phone);
                self.accounts = kept;
                let mut m = String::from_str("Deleted ");
                m.append(phone);
                m.append(".");
                self.status = Status::Success(m);
            },
            Err(e) => {
                let d = e.describe();
                self.status = Status::Error(prefixed("Could not delete account: ", d));
            },
        }
    }
}

fn keep_others(accounts: &Vec<SignalAccount>, phone: &str) -> (r: Vec<SignalAccount>)
    ensures
        same_accounts(r@, others(accounts@, phone@)),
{
    let mut out: Vec<SignalAccount> = Vec::new();
    let mut i: usize = 0;
    while i < accounts.len()
        invariant
            i <= accounts@.len(),
            same_accounts(out@, others(accounts@.subrange(0, i as int), phone@)),
        decreases accounts@.len() - i,
    {
        assert(accounts@.subrange(0, i + 1).drop_last() =~= accounts@.subrange(0, i as int));
        assert(accounts@.subrange(0, i + 1).last() == accounts@[i as int]);
        if !crate::http::str_eq(accounts[i].phone.as_str(), phone) {
            out.push(accounts[i].duplicate());
        }
        i = i + 1;
    }
    assert(accounts@.subrange(0, accounts@.len() as int) =~= accounts@);
    out
}

/// Whether the step numbered `step` in the indicator can be clicked while
/// on `current`: only finished steps can, and the captcha step only when a
/// captcha was actually asked for.
pub open spec fn step_clickable_spec(step: nat, current: nat, captcha_was_required: bool) -> bool {
    step < current && (captcha_was_required || step != 2)
}

/// Whether a step of the indicator can be clicked.
pub fn step_clickable(step: usize, current: usize, captcha_was_required: bool) -> (r: bool)
    ensures
        r == step_clickable_spec(step as nat, current as nat, captcha_was_required),
{
    step < current && (captcha_was_required || step != 2)
}

/// The message telling whether Signal Desktop was found on this machine.
pub open spec fn desktop_status_text(installed: bool, configured: bool) -> Seq<char> {
    if installed && configured {
        "Signal Desktop is installed and configured."@
    } else if installed {
        "Signal Desktop is installed."@
    } else {
        "Signal Desktop was not detected. Please install it."@
    }
}

/// The message telling whether Signal Desktop was found on this machine.
pub fn desktop_status_message(installed: bool, configured: bool) -> (r: String)
    ensures
        r@ == desktop_status_text(installed, configured),
{
    if installed && configured {
        String::from_str("Signal Desktop is installed and configured.")
    } else if installed {
        String::from_str("Signal Desktop is installed.")
    } else {
        String::from_str("Signal Desktop was not detected. Please install it.")
    }
}

/// No phone occurs twice among the accounts.
pub open spec fn account_phones_unique(s: Seq<SignalAccount>) -> bool {
    forall|i: int, j: int| 0 <= i < j < s.len() ==> s[i].phone@ != s[j].phone@
}

/// What `others` keeps comes from the list and has another phone.
pub proof fn lemma_others(s: Seq<SignalAccount>, phone: Seq<char>)
    ensures
        forall|k: int|
            0 <= k < others(s, phone).len() ==> (#[trigger] others(s, phone)[k]).phone@ != phone && s.contains(
                others(s, phone)[k],
            ),
        account_phones_unique(s) ==> account_phones_unique(others(s, phone)),
    decreases s.len(),
{
    if s.len() > 0 {
        let d = s.drop_last();
        lemma_others(d, phone);
        let rest = others(d, phone);
        assert forall|k: int| 0 <= k < rest.len() implies s.contains(#[trigger] rest[k]) by {
            let j = choose|j: int| 0 <= j < d.len() && d[j] == rest[k];
            assert(s[j] == rest[k]);
        }
        if account_phones_unique(s) {
            assert(account_phones_unique(d)) by {
                assert forall|i: int, j: int| 0 <= i < j < d.len() implies d[i].phone@ != d[j].phone@ by {
                    assert(s[i] == d[i] && s[j] == d[j]);
                }
            }
            if s.last().phone@ != phone {
                let r = rest.push(s.last());
                assert forall|i: int, j: int| 0 <= i < j < r.len() implies r[i].phone@ != r[j].phone@ by {
                    if j == r.len() - 1 {
                        let m = choose|m: int| 0 <= m < d.len() && d[m] == rest[i];
                        assert(s[m] == d[m]);
                    } else {
                        assert(r[i] == rest[i] && r[j] == rest[j]);
                    }
                }
            }
        }
    }
}

/// A verified account replaces the saved account with its phone, so the
/// saved accounts never hold a phone twice.
pub proof fn lemma_verified_account_replaces(old: Seq<SignalAccount>, new: Seq<SignalAccount>, a: SignalAccount)
    requires
        account_phones_unique(old),
        same_accounts(new, others(old, a.phone@).push(a)),
    ensures
        account_phones_unique(new),
        new.last().phone@ == a.phone@,
{
    lemma_others(old, a.phone@);
    let r = others(old, a.phone@).push(a);
    assert forall|i: int, j: int| 0 <= i < j < new.len() implies new[i].phone@ != new[j].phone@ by {
        assert(same_account(&new[i], &r[i]));
        assert(same_account(&new[j], &r[j]));
        if j == new.len() - 1 {
            assert(r[i] == others(old, a.phone@)[i]);
        } else {
            assert(r[i] == others(old, a.phone@)[i] && r[j] == others(old, a.phone@)[j]);
        }
    }
    assert(same_account(&new[new.len() - 1], &r[r.len() - 1]));
}

// ---------------------------------------------------------------------------
// Run mode and messages
// ---------------------------------------------------------------------------

/// How the tool talks to Signal.
#[derive(PartialEq, Eq, Structural, Clone, Copy)]
pub enum Mode {
    Production,
    Staging,
    /// The offline stand-in of the `demo` module.
    Demo,
}

/// The run mode asked for on the command line: `--demo` wins over
/// `--staging`; production otherwise.
pub open spec fn mode_spec(args: Seq<Seq<char>>) -> Mode {
    if args.contains("--demo"@) {
        Mode::Demo
    } else if args.contains("--staging"@) {
        Mode::Staging
    } else {
        Mode::Production
    }
}

fn has_arg(args: &[String], flag: &str) -> (r: bool)
    ensures
        r == crate::desktop::views_of(args@).contains(flag@),
{
    let mut i: usize = 0;
    while i < args.len()
        invariant
            i <= args@.len(),
            forall|j: int| 0 <= j < i ==> args@[j]@ != flag@,
        decreases args@.len() - i,
    {
        if crate::http::str_eq(args[i].as_str(), flag) {
            assert(crate::desktop::views_of(args@)[i as int] == flag@);
            return true;
        }
        i = i + 1;
    }
    assert forall|j: int| 0 <= j < args@.len() implies crate::desktop::views_of(args@)[j] != flag@ by {
        assert(crate::desktop::views_of(args@)[j] == args@[j]@);
    }
    false
}

/// The run mode asked for by the command-line arguments.
pub fn mode_from_args(args: &[String]) -> (r: Mode)
    ensures
        r == mode_spec(crate::desktop::views_of(args@)),
{
    proof {
        reveal_strlit("--demo");
        reveal_strlit("--staging");
    }
    if has_arg(args, "--demo") {
        Mode::Demo
    } else if has_arg(args, "--staging") {
        Mode::Staging
    } else {
        Mode::Production
    }
}

/// The window title for a run mode.
pub fn window_title(mode: Mode) -> (r: &'static str)
    ensures
        mode == Mode::Demo ==> r@ == "Signal Setup Tool [DEMO]"@,
        mode == Mode::Staging ==> r@ == "Signal Setup Tool [STAGING]"@,
        mode == Mode::Production ==> r@ == "Signal Setup Tool"@,
{
    match mode {
        Mode::Demo => "Signal Setup Tool [DEMO]",
        Mode::Staging => "Signal Setup Tool [STAGING]",
        Mode::Production => "Signal Setup Tool",
    }
}

/// An error's text followed by the text of each of its causes, innermost
/// last.
pub open spec fn error_chain_text(message: Seq<char>, causes: Seq<Seq<char>>) -> Seq<char>
    decreases causes.len(),
{
    if causes.len() == 0 {
        message
    } else {
        error_chain_text(message, causes.drop_last()) + ", caused by: "@ + causes.last()
    }
}

/// Formats an error with the chain of its causes, which transport errors
/// otherwise hide.
pub fn format_error_chain(message: &str, causes: &[String]) -> (r: String)
    ensures
        r@ == error_chain_text(message@, crate::desktop::views_of(causes@)),
{
    let mut out = String::from_str(message);
    let mut i: usize = 0;
    while i < causes.len()
        invariant
            i <= causes@.len(),
            out@ == error_chain_text(message@, crate::desktop::views_of(causes@.subrange(0, i as int))),
        decreases causes@.len() - i,
    {
        let ghost before = out@;
        out.append(", caused by: ");
        out.append(causes[i].as_str());
        assert(crate::desktop::views_of(causes@.subrange(0, i + 1)).drop_last() =~= crate::desktop::views_of(
            causes@.subrange(0, i as int),
        ));
        assert(crate::desktop::views_of(causes@.subrange(0, i + 1)).last() == causes@[i as int]@);
        i = i + 1;
    }
    assert(causes@.subrange(0, causes@.len() as int) =~= causes@);
    out
}

/// The work result of a code request (or captcha submission); `text` is
/// the error's text with its causes.
pub fn code_request_result(r: Result<VerificationRequest, SignalError>, text: String) -> (w: WorkResult)
    ensures
        match r {
            Ok(VerificationRequest::CodeSent { session_id }) => w matches WorkResult::RegisterOk { session_id: s }
                && s@ == session_id@,
            Ok(VerificationRequest::CaptchaRequired { session_id }) => w matches WorkResult::RegisterNeedsCaptcha {
                session_id: s,
            } && s@ == session_id@,
            Err(_) => w matches WorkResult::RegisterError(m) && m@ == text@,
        },
{
    match r {
        Ok(VerificationRequest::CodeSent { session_id }) => WorkResult::RegisterOk { session_id },
        Ok(VerificationRequest::CaptchaRequired { session_id }) => WorkResult::RegisterNeedsCaptcha { session_id },
        Err(_) => WorkResult::RegisterError(text),
    }
}

/// The work result of a registration; `text` is the error's text with its
/// causes. An offered device transfer is not an error: the user is asked
/// whether to skip it.
pub fn verification_result(r: Result<SignalAccount, SignalError>, text: String) -> (w: WorkResult)
    ensures
        match r {
            Ok(a) => w matches WorkResult::VerifyOk { account } && account == a,
            Err(SignalError::DeviceTransferAvailable) => w is DeviceTransferAvailable,
            Err(_) => w matches WorkResult::VerifyError(m) && m@ == text@,
        },
{
    match r {
        Ok(account) => WorkResult::VerifyOk { account },
        Err(SignalError::DeviceTransferAvailable) => WorkResult::DeviceTransferAvailable,
        Err(_) => WorkResult::VerifyError(text),
    }
}

/// The work result of linking; `text` is the error's text with its causes.
pub fn link_result(r: Result<(), SignalError>, text: String) -> (w: WorkResult)
    ensures
        r is Ok ==> w is LinkOk,
        r is Err ==> (w matches WorkResult::LinkError(m) && m@ == text@),
{
    match r {
        Ok(()) => WorkResult::LinkOk,
        Err(_) => WorkResult::LinkError(text),
    }
}

/// Where each outcome of background work takes the wizard: a code sent
/// leads to the verification step and a captcha request to the captcha
/// step (both keeping the session), a verified account to linking with
/// that account, a linked device to the final step; failures and a
/// device-transfer offer keep the step, no outcome but verification hands
/// out an account to save.
pub proof fn lemma_outcomes_move_steps(
    old: Wizard,
    new: Wizard,
    result: WorkResult,
    default_exists: bool,
    saved: Option<SignalAccount>,
)
    requires
        applied(old, new, result, default_exists, saved),
    ensures
        result matches WorkResult::RegisterOk { session_id } ==> new.step == Step::Verification
            && new.session_id.deep_view() == Some(session_id@),
        result matches WorkResult::RegisterNeedsCaptcha { session_id } ==> new.step == Step::Captcha
            && new.session_id.deep_view() == Some(session_id@) && new.captcha_was_required,
        result matches WorkResult::VerifyOk { account } ==> new.step == Step::Linking && saved is Some
            && new.signal_account is Some && new.signal_account->Some_0.phone@ == account.phone@
            && saved->Some_0.phone@ == account.phone@,
        result is LinkOk ==> new.step == Step::Complete,
        result is RegisterError || result is VerifyError || result is LinkError || result is DeviceTransferAvailable
            ==> new.step == old.step,
        !(result is VerifyOk) ==> saved is None,
{
}

} // verus!
