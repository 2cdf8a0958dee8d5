//! Bookkeeping of saved accounts.
//!
//! Non-sensitive metadata (phone, ACI/PNI, registration id, desktop
//! profile) is kept as a list in `accounts.json` in the platform's config
//! directory; the secrets live in the OS keyring under the service
//! `signal-setup`, one entry per account (so one keychain prompt each), named
//! by the phone number and holding the JSON of the account's secrets.
//! Reading and writing the file and the keyring is the caller's part; this
//! module decides what the list becomes and what goes where.
//!
//! Every list this module produces holds each phone number at most once.

use vstd::prelude::*;
use crate::types::{AccountSecrets, PersistedAccount, SignalAccount, SignalError};

verus! {

/// Name of the file holding the list of saved accounts.
pub const ACCOUNTS_FILE: &'static str = "accounts.json";

/// Name of the single-account file written by early builds.
pub const LEGACY_FILE: &'static str = "account.json";

/// Keyring service name.
pub const KEYRING_SERVICE: &'static str = "signal-setup";

/// `dir` with the file `name` appended.
pub open spec fn file_in(dir: (Seq<char>, Seq<Seq<char>>), name: Seq<char>) -> (Seq<char>, Seq<Seq<char>>) {
    (dir.0, dir.1.push(name))
}

fn file_path(dir: Option<crate::desktop::DirPath>, name: &str) -> (r: Option<crate::desktop::DirPath>)
    ensures
        crate::desktop::opt_dir_view(&r) == match crate::desktop::opt_dir_view(&dir) {
            Some(d) => Some(file_in(d, name@)),
            None => None,
        },
{
    match dir {
        None => None,
        Some(d) => {
            let mut parts = d.parts;
            let ghost before = parts@;
            parts.push(String::from_str(name));
            assert(crate::desktop::views_of(parts@) =~= crate::desktop::views_of(before).push(name@));
            Some(crate::desktop::DirPath { root: d.root, parts })
        },
    }
}

/// The path of `accounts.json` in the tool's config directory (`None`
/// when the platform has none).
pub fn accounts_path(config_dir: Option<crate::desktop::DirPath>) -> (r: Option<crate::desktop::DirPath>)
    ensures
        crate::desktop::opt_dir_view(&r) == match crate::desktop::opt_dir_view(&config_dir) {
            Some(d) => Some(file_in(d, ACCOUNTS_FILE@)),
            None => None,
        },
{
    file_path(config_dir, ACCOUNTS_FILE)
}

/// The path of the legacy `account.json` in the tool's config directory.
pub fn legacy_path(config_dir: Option<crate::desktop::DirPath>) -> (r: Option<crate::desktop::DirPath>)
    ensures
        crate::desktop::opt_dir_view(&r) == match crate::desktop::opt_dir_view(&config_dir) {
            Some(d) => Some(file_in(d, LEGACY_FILE@)),
            None => None,
        },
{
    file_path(config_dir, LEGACY_FILE)
}

/// The keyring user under which an account's secrets are stored: one entry
/// per account, named by its phone number, holding all of its secrets.
pub fn keyring_user(phone: &str) -> (r: String)
    ensures
        r@ == phone@,
{
    phone.to_string()
}

// ---------------------------------------------------------------------------
// The list of saved accounts
// ---------------------------------------------------------------------------

/// What a saved entry holds, as plain values: phone, ACI, PNI,
/// registration id, desktop profile.
pub open spec fn pview(a: PersistedAccount) -> (Seq<char>, Option<Seq<char>>, Option<Seq<char>>, u32, Option<Seq<char>>) {
    (a.phone@, a.aci.deep_view(), a.pni.deep_view(), a.registration_id, a.desktop_profile.deep_view())
}

/// The entries of a list, as plain values.
pub open spec fn pviews(s: Seq<PersistedAccount>) -> Seq<(Seq<char>, Option<Seq<char>>, Option<Seq<char>>, u32, Option<Seq<char>>)> {
    s.map_values(|a: PersistedAccount| pview(a))
}

/// The entries whose phone is not `phone`, in their order.
pub open spec fn without_phone(
    s: Seq<(Seq<char>, Option<Seq<char>>, Option<Seq<char>>, u32, Option<Seq<char>>)>,
    phone: Seq<char>,
) -> Seq<(Seq<char>, Option<Seq<char>>, Option<Seq<char>>, u32, Option<Seq<char>>)>
    decreases s.len(),
{
    if s.len() == 0 {
        s
    } else {
        let rest = without_phone(s.drop_last(), phone);
        if s.last().0 == phone {
            rest
        } else {
            rest.push(s.last())
        }
    }
}

/// The list after saving `a`: every earlier entry with the same phone
/// removed, `a` appended.
pub open spec fn upsert_spec(
    s: Seq<(Seq<char>, Option<Seq<char>>, Option<Seq<char>>, u32, Option<Seq<char>>)>,
    a: (Seq<char>, Option<Seq<char>>, Option<Seq<char>>, u32, Option<Seq<char>>),
) -> Seq<(Seq<char>, Option<Seq<char>>, Option<Seq<char>>, u32, Option<Seq<char>>)> {
    without_phone(s, a.0).push(a)
}

/// No phone number occurs twice.
pub open spec fn phones_unique(s: Seq<(Seq<char>, Option<Seq<char>>, Option<Seq<char>>, u32, Option<Seq<char>>)>) -> bool {
    forall|i: int, j: int| 0 <= i < j < s.len() ==> s[i].0 != s[j].0
}

/// The list holds an entry for `phone`.
pub open spec fn has_phone(
    s: Seq<(Seq<char>, Option<Seq<char>>, Option<Seq<char>>, u32, Option<Seq<char>>)>,
    phone: Seq<char>,
) -> bool {
    exists|i: int| 0 <= i < s.len() && s[i].0 == phone
}

fn copy_opt(o: &Option<String>) -> (r: Option<String>)
    ensures
        r.deep_view() == o.deep_view(),
{
    match o {
        Some(s) => Some(s.clone()),
        None => None,
    }
}

/// A copy of a saved entry.
pub fn copy_persisted(a: &PersistedAccount) -> (r: PersistedAccount)
    ensures
        pview(r) == pview(*a),
{
    PersistedAccount {
        phone: a.phone.clone(),
        aci: copy_opt(&a.aci),
        pni: copy_opt(&a.pni),
        registration_id: a.registration_id,
        desktop_profile: copy_opt(&a.desktop_profile),
    }
}

fn phone_eq(a: &String, b: &str) -> (r: bool)
    ensures
        r == (a@ == b@),
{
    crate::http::str_eq(a.as_str(), b)
}

/// The entries of `all` whose phone is not `phone`.
pub fn retain_other_phones(all: &Vec<PersistedAccount>, phone: &str) -> (r: Vec<PersistedAccount>)
    ensures
        pviews(r@) == without_phone(pviews(all@), phone@),
{
    let mut out: Vec<PersistedAccount> = Vec::new();
    let mut i: usize = 0;
    while i < all.len()
        invariant
            i <= all@.len(),
            pviews(out@) == without_phone(pviews(all@.subrange(0, i as int)), phone@),
        decreases all@.len() - i,
    {
        let ghost prefix = all@.subrange(0, i as int);
        let ghost next = all@.subrange(0, i + 1);
        assert(pviews(next).drop_last() =~= pviews(prefix));
        assert(pviews(next).last() == pview(all@[i as int]));
        if !phone_eq(&all[i].phone, phone) {
            let c = copy_persisted(&all[i]);
            let ghost before = out@;
            out.push(c);
            assert(pviews(out@) =~= pviews(before).push(pview(c)));
        }
        i = i + 1;
    }
    assert(all@.subrange(0, all@.len() as int) =~= all@);
    out
}

/// The list after saving `public`: the entry for its phone, if any, is
/// replaced, and the saved entry comes last.
pub fn upsert(all: &Vec<PersistedAccount>, public: PersistedAccount) -> (r: Vec<PersistedAccount>)
    ensures
        pviews(r@) == upsert_spec(pviews(all@), pview(public)),
{
    let mut out = retain_other_phones(all, public.phone.as_str());
    let ghost before = out@;
    let ghost p = pview(public);
    out.push(public);
    assert(pviews(out@) =~= pviews(before).push(p));
    out
}

/// Facts about `without_phone`: what remains comes from the list and has
/// another phone, every entry with another phone remains, and nothing
/// changes when no entry has the phone.
pub proof fn lemma_without_phone(
    s: Seq<(Seq<char>, Option<Seq<char>>, Option<Seq<char>>, u32, Option<Seq<char>>)>,
    phone: Seq<char>,
)
    ensures
        without_phone(s, phone).len() <= s.len(),
        forall|k: int|
            0 <= k < without_phone(s, phone).len() ==> (#[trigger] without_phone(s, phone)[k]).0 != phone
                && s.contains(without_phone(s, phone)[k]),
        forall|j: int| 0 <= j < s.len() && (#[trigger] s[j]).0 != phone ==> without_phone(s, phone).contains(s[j]),
        !has_phone(s, phone) ==> without_phone(s, phone) == s,
        phones_unique(s) ==> phones_unique(without_phone(s, phone)),
    decreases s.len(),
{
    if s.len() > 0 {
        let d = s.drop_last();
        lemma_without_phone(d, phone);
        let rest = without_phone(d, phone);
        assert forall|k: int| 0 <= k < rest.len() implies s.contains(#[trigger] rest[k]) by {
            let j = choose|j: int| 0 <= j < d.len() && d[j] == rest[k];
            assert(s[j] == rest[k]);
        }
        assert forall|j: int| 0 <= j < s.len() && (#[trigger] s[j]).0 != phone implies without_phone(
            s,
            phone,
        ).contains(s[j]) by {
            if j < s.len() - 1 {
                assert(d[j] == s[j]);
                let k = choose|k: int| 0 <= k < rest.len() && rest[k] == d[j];
                if s.last().0 != phone {
                    assert(without_phone(s, phone)[k] == s[j]);
                }
            } else {
                assert(without_phone(s, phone)[rest.len() as int] == s[j]);
            }
        }
        if !has_phone(s, phone) {
            assert forall|j: int| 0 <= j < d.len() implies d[j].0 != phone by {
                assert(s[j] == d[j]);
            }
            assert(!has_phone(d, phone));
            assert(s.last().0 != phone);
            assert(s =~= d.push(s.last()));
        }
        if phones_unique(s) {
            assert(phones_unique(d)) by {
                assert forall|i: int, j: int| 0 <= i < j < d.len() implies d[i].0 != d[j].0 by {
                    assert(s[i] == d[i] && s[j] == d[j]);
                }
            }
            if s.last().0 != phone {
                let r = rest.push(s.last());
                assert forall|i: int, j: int| 0 <= i < j < r.len() implies r[i].0 != r[j].0 by {
                    if j == r.len() - 1 {
                        let m = choose|m: int| 0 <= m < d.len() && d[m] == rest[i];
                        assert(s[m] == d[m]);
                        assert(s[m].0 != s[s.len() - 1].0);
                    } else {
                        assert(r[i] == rest[i] && r[j] == rest[j]);
                    }
                }
            }
        }
    }
}

/// Saving an account leaves it in the list, as the last entry.
pub proof fn lemma_saved_account_is_listed(
    s: Seq<(Seq<char>, Option<Seq<char>>, Option<Seq<char>>, u32, Option<Seq<char>>)>,
    a: (Seq<char>, Option<Seq<char>>, Option<Seq<char>>, u32, Option<Seq<char>>),
)
    ensures
        upsert_spec(s, a).last() == a,
        has_phone(upsert_spec(s, a), a.0),
{
    let r = upsert_spec(s, a);
    assert(r[r.len() - 1] == a);
}

/// Saving keeps every other account, and never lists a phone twice: an
/// account saved again with the same phone replaces the old entry.
pub proof fn lemma_save_keeps_others_and_phones_unique(
    s: Seq<(Seq<char>, Option<Seq<char>>, Option<Seq<char>>, u32, Option<Seq<char>>)>,
    a: (Seq<char>, Option<Seq<char>>, Option<Seq<char>>, u32, Option<Seq<char>>),
)
    ensures
        forall|j: int| 0 <= j < s.len() && (#[trigger] s[j]).0 != a.0 ==> upsert_spec(s, a).contains(s[j]),
        phones_unique(s) ==> phones_unique(upsert_spec(s, a)),
        has_phone(s, a.0) && phones_unique(s) ==> upsert_spec(s, a).len() == s.len(),
        !has_phone(s, a.0) ==> upsert_spec(s, a).len() == s.len() + 1,
{
    lemma_without_phone(s, a.0);
    let rest = without_phone(s, a.0);
    let r = upsert_spec(s, a);
    assert forall|j: int| 0 <= j < s.len() && (#[trigger] s[j]).0 != a.0 implies r.contains(s[j]) by {
        let k = choose|k: int| 0 <= k < rest.len() && rest[k] == s[j];
        assert(r[k] == s[j]);
    }
    if phones_unique(s) {
        assert forall|i: int, j: int| 0 <= i < j < r.len() implies r[i].0 != r[j].0 by {
            if j == r.len() - 1 {
                assert(r[i] == rest[i]);
            } else {
                assert(r[i] == rest[i] && r[j] == rest[j]);
            }
        }
        if has_phone(s, a.0) {
            lemma_unique_phone_removed_once(s, a.0);
        }
    }
}

/// In a list without repeated phones, removing a phone that is present
/// removes exactly one entry.
pub proof fn lemma_unique_phone_removed_once(
    s: Seq<(Seq<char>, Option<Seq<char>>, Option<Seq<char>>, u32, Option<Seq<char>>)>,
    phone: Seq<char>,
)
    requires
        phones_unique(s),
        has_phone(s, phone),
    ensures
        without_phone(s, phone).len() == s.len() - 1,
    decreases s.len(),
{
    let d = s.drop_last();
    if s.last().0 == phone {
        assert forall|j: int| 0 <= j < d.len() implies d[j].0 != phone by {
            assert(s[j] == d[j]);
        }
        lemma_without_phone(d, phone);
    } else {
        let j = choose|j: int| 0 <= j < s.len() && s[j].0 == phone;
        assert(d[j] == s[j]);
        assert(phones_unique(d)) by {
            assert forall|a: int, b: int| 0 <= a < b < d.len() implies d[a].0 != d[b].0 by {
                assert(s[a] == d[a] && s[b] == d[b]);
            }
        }
        lemma_unique_phone_removed_once(d, phone);
    }
}

/// Deleting a phone removes its entries and keeps every other entry.
pub proof fn lemma_delete_removes_only_named(
    s: Seq<(Seq<char>, Option<Seq<char>>, Option<Seq<char>>, u32, Option<Seq<char>>)>,
    phone: Seq<char>,
)
    ensures
        !has_phone(without_phone(s, phone), phone),
        forall|j: int| 0 <= j < s.len() && (#[trigger] s[j]).0 != phone ==> without_phone(s, phone).contains(s[j]),
{
    lemma_without_phone(s, phone);
}

/// Deleting a phone that is not saved changes nothing.
pub proof fn lemma_delete_missing_is_noop(
    s: Seq<(Seq<char>, Option<Seq<char>>, Option<Seq<char>>, u32, Option<Seq<char>>)>,
    phone: Seq<char>,
    r: Removal,
)
    requires
        !has_phone(s, phone),
        removal_spec(s, phone, r),
    ensures
        r is Unchanged,
{
    lemma_without_phone(s, phone);
}

/// Deleting the only saved account removes the file.
pub proof fn lemma_delete_last_removes_file(
    s: Seq<(Seq<char>, Option<Seq<char>>, Option<Seq<char>>, u32, Option<Seq<char>>)>,
    phone: Seq<char>,
    r: Removal,
)
    requires
        s.len() == 1,
        s[0].0 == phone,
        removal_spec(s, phone, r),
    ensures
        r is RemoveFile,
{
    assert(s.drop_last().len() == 0);
    assert(without_phone(s.drop_last(), phone).len() == 0);
    assert(s.last() == s[0]);
    assert(without_phone(s, phone).len() == 0);
}

/// What deleting an account does to the file.
pub enum Removal {
    /// No entry has that phone: the file is left as it is.
    Unchanged,
    /// The last entry goes: the file is removed, so that a fresh launch does
    /// not see a stale empty list.
    RemoveFile,
    /// The file is rewritten with the remaining entries.
    Write(Vec<PersistedAccount>),
}

/// What deleting `phone` from `all` does.
pub open spec fn removal_spec(
    all: Seq<(Seq<char>, Option<Seq<char>>, Option<Seq<char>>, u32, Option<Seq<char>>)>,
    phone: Seq<char>,
    r: Removal,
) -> bool {
    let kept = without_phone(all, phone);
    if kept.len() == all.len() {
        r is Unchanged
    } else if kept.len() == 0 {
        r is RemoveFile
    } else {
        r matches Removal::Write(v) && pviews(v@) == kept
    }
}

/// Decides what deleting the account with `phone` does to the saved list
/// (its keyring entry is wiped in any case).
pub fn remove_account(all: &Vec<PersistedAccount>, phone: &str) -> (r: Removal)
    ensures
        removal_spec(pviews(all@), phone@, r),
{
    let kept = retain_other_phones(all, phone);
    if kept.len() == all.len() {
        Removal::Unchanged
    } else if kept.len() == 0 {
        Removal::RemoveFile
    } else {
        Removal::Write(kept)
    }
}

/// Decides whether the account of a legacy single-account file is added to
/// the list: only when no saved entry has its phone. `Some` holds the new
/// list.
pub fn merge_legacy(existing: &Vec<PersistedAccount>, public: PersistedAccount) -> (r: Option<
    Vec<PersistedAccount>,
>)
    ensures
        has_phone(pviews(existing@), public.phone@) ==> r is None,
        !has_phone(pviews(existing@), public.phone@) ==> (r matches Some(v) && pviews(v@) == pviews(
            existing@,
        ).push(pview(public))),
{
    let mut i: usize = 0;
    while i < existing.len()
        invariant
            i <= existing@.len(),
            forall|j: int| 0 <= j < i ==> pviews(existing@)[j].0 != public.phone@,
        decreases existing@.len() - i,
    {
        if phone_eq(&existing[i].phone, public.phone.as_str()) {
            assert(pviews(existing@)[i as int].0 == public.phone@);
            return None;
        }
        i = i + 1;
    }
    let mut out: Vec<PersistedAccount> = Vec::new();
    let mut k: usize = 0;
    while k < existing.len()
        invariant
            k <= existing@.len(),
            pviews(out@) == pviews(existing@.subrange(0, k as int)),
        decreases existing@.len() - k,
    {
        let c = copy_persisted(&existing[k]);
        let ghost before = out@;
        out.push(c);
        assert(existing@.subrange(0, k + 1) =~= existing@.subrange(0, k as int).push(existing@[k as int]));
        assert(pviews(existing@.subrange(0, k + 1)) =~= pviews(existing@.subrange(0, k as int)).push(
            pview(existing@[k as int]),
        ));
        assert(pviews(out@) =~= pviews(before).push(pview(c)));
        k = k + 1;
    }
    assert(existing@.subrange(0, existing@.len() as int) =~= existing@);
    let ghost before = out@;
    let ghost p = pview(public);
    out.push(public);
    assert(pviews(out@) =~= pviews(before).push(p));
    Some(out)
}

// ---------------------------------------------------------------------------
// Legacy format
// ---------------------------------------------------------------------------

/// An account as early builds saved it, secrets inline.
pub struct LegacyAccount {
    pub phone: String,
    pub password: String,
    pub aci: Option<String>,
    pub pni: Option<String>,
    pub registration_id: u32,
    pub aci_identity: String,
    pub pni_identity: String,
    pub master_key: String,
    pub profile_key: String,
}

impl LegacyAccount {
    /// Splits a legacy entry into its metadata (no desktop profile) and its
    /// secrets.
    pub fn split(self) -> (r: (PersistedAccount, AccountSecrets))
        ensures
            r.0.phone@ == self.phone@,
            r.0.aci.deep_view() == self.aci.deep_view(),
            r.0.pni.deep_view() == self.pni.deep_view(),
            r.0.registration_id == self.registration_id,
            r.0.desktop_profile is None,
            r.1.password@ == self.password@,
            r.1.aci_identity_b64@ == self.aci_identity@,
            r.1.pni_identity_b64@ == self.pni_identity@,
            r.1.master_key_b64@ == self.master_key@,
            r.1.profile_key_b64@ == self.profile_key@,
    {
        (
            PersistedAccount {
                phone: self.phone,
                aci: self.aci,
                pni: self.pni,
                registration_id: self.registration_id,
                desktop_profile: None,
            },
            AccountSecrets {
                password: self.password,
                aci_identity_b64: self.aci_identity,
                pni_identity_b64: self.pni_identity,
                master_key_b64: self.master_key,
                profile_key_b64: self.profile_key,
            },
        )
    }
}

/// Splits a legacy list (secrets inline) into the list to write and the
/// secrets to move into the keyring, phone by phone, in order.
pub fn split_legacy_list(legacy: Vec<LegacyAccount>) -> (r: (Vec<PersistedAccount>, Vec<(String, AccountSecrets)>))
    ensures
        r.0@.len() == legacy@.len(),
        r.1@.len() == legacy@.len(),
        forall|i: int|
            0 <= i < legacy@.len() ==> {
                &&& (#[trigger] r.0@[i]).phone@ == legacy@[i].phone@
                &&& r.0@[i].aci.deep_view() == legacy@[i].aci.deep_view()
                &&& r.0@[i].pni.deep_view() == legacy@[i].pni.deep_view()
                &&& r.0@[i].registration_id == legacy@[i].registration_id
                &&& r.0@[i].desktop_profile is None
                &&& r.1@[i].0@ == legacy@[i].phone@
                &&& r.1@[i].1.password@ == legacy@[i].password@
                &&& r.1@[i].1.aci_identity_b64@ == legacy@[i].aci_identity@
                &&& r.1@[i].1.pni_identity_b64@ == legacy@[i].pni_identity@
                &&& r.1@[i].1.master_key_b64@ == legacy@[i].master_key@
                &&& r.1@[i].1.profile_key_b64@ == legacy@[i].profile_key@
            },
{
    let ghost orig = legacy@;
    let mut rest = legacy;
    let mut publics: Vec<PersistedAccount> = Vec::new();
    let mut secrets: Vec<(String, AccountSecrets)> = Vec::new();
    // Take the entries from the front, one at a time.
    while rest.len() > 0
        invariant
            publics@.len() == secrets@.len(),
            publics@.len() + rest@.len() == orig.len(),
            rest@ == orig.subrange(publics@.len() as int, orig.len() as int),
            forall|i: int|
                0 <= i < publics@.len() ==> {
                    &&& (#[trigger] publics@[i]).phone@ == orig[i].phone@
                    &&& publics@[i].aci.deep_view() == orig[i].aci.deep_view()
                    &&& publics@[i].pni.deep_view() == orig[i].pni.deep_view()
                    &&& publics@[i].registration_id == orig[i].registration_id
                    &&& publics@[i].desktop_profile is None
                    &&& secrets@[i].0@ == orig[i].phone@
                    &&& secrets@[i].1.password@ == orig[i].password@
                    &&& secrets@[i].1.aci_identity_b64@ == orig[i].aci_identity@
                    &&& secrets@[i].1.pni_identity_b64@ == orig[i].pni_identity@
                    &&& secrets@[i].1.master_key_b64@ == orig[i].master_key@
                    &&& secrets@[i].1.profile_key_b64@ == orig[i].profile_key@
                },
        decreases rest@.len(),
    {
        let ghost k = publics@.len();
        let entry = rest.remove(0);
        assert(entry == orig[k as int]);
        assert(rest@ =~= orig.subrange(k + 1 as int, orig.len() as int));
        let (public, s) = entry.split();
        let phone = public.phone.clone();
        publics.push(public);
        secrets.push((phone, s));
    }
    (publics, secrets)
}

// ---------------------------------------------------------------------------
// Listing
// ---------------------------------------------------------------------------

/// A saved entry together with the secrets read for it, or the error of
/// reading them.
///
/// `aci_check` and `pni_check` are the outcomes of parsing the decoded
/// identity bytes as identity key pairs.
pub struct SavedEntry {
    pub public: PersistedAccount,
    pub secrets: Result<AccountSecrets, SignalError>,
    pub aci_check: Result<(), String>,
    pub pni_check: Result<(), String>,
}

/// The entry's account can be restored: its secrets were read, decode,
/// and hold valid identity key pairs.
pub open spec fn restorable(e: SavedEntry) -> bool {
    &&& e.secrets matches Ok(s) && crate::types::first_undecodable(&s) is None
    &&& e.aci_check is Ok
    &&& e.pni_check is Ok
}

/// The entries whose account can be restored, in order.
pub open spec fn restorable_entries(s: Seq<SavedEntry>) -> Seq<SavedEntry>
    decreases s.len(),
{
    if s.len() == 0 {
        s
    } else if restorable(s.last()) {
        restorable_entries(s.drop_last()).push(s.last())
    } else {
        restorable_entries(s.drop_last())
    }
}

/// The phones of the entries whose account cannot be restored, in order.
pub open spec fn skipped_phones(s: Seq<SavedEntry>) -> Seq<Seq<char>>
    decreases s.len(),
{
    if s.len() == 0 {
        Seq::empty()
    } else if restorable(s.last()) {
        skipped_phones(s.drop_last())
    } else {
        skipped_phones(s.drop_last()).push(s.last().public.phone@)
    }
}

fn copy_check(c: &Result<(), String>) -> (r: Result<(), String>)
    ensures
        r is Ok <==> c is Ok,
{
    match c {
        Ok(()) => Ok(()),
        Err(e) => Err(e.clone()),
    }
}

fn copy_secrets(s: &AccountSecrets) -> (r: AccountSecrets)
    ensures
        r.password@ == s.password@,
        r.aci_identity_b64@ == s.aci_identity_b64@,
        r.pni_identity_b64@ == s.pni_identity_b64@,
        r.master_key_b64@ == s.master_key_b64@,
        r.profile_key_b64@ == s.profile_key_b64@,
{
    AccountSecrets {
        password: s.password.clone(),
        aci_identity_b64: s.aci_identity_b64.clone(),
        pni_identity_b64: s.pni_identity_b64.clone(),
        master_key_b64: s.master_key_b64.clone(),
        profile_key_b64: s.profile_key_b64.clone(),
    }
}

/// Restores the saved accounts from their entries. An account whose
/// secrets could not be read or decoded, or whose identity key pairs are
/// not valid, is skipped and its phone reported, so that one broken
/// keyring entry does not hide the others; the accounts keep the order of
/// the list.
pub fn restore_accounts(entries: &Vec<SavedEntry>) -> (r: (Vec<SignalAccount>, Vec<String>))
    ensures
        r.0@.len() == restorable_entries(entries@).len(),
        forall|i: int|
            0 <= i < r.0@.len() ==> (#[trigger] restorable_entries(entries@)[i].secrets matches Ok(s)
                && crate::types::restored_from(&restorable_entries(entries@)[i].public, &s, &r.0@[i])),
        r.1@.map_values(|p: String| p@) == skipped_phones(entries@),
{
    let mut accounts: Vec<SignalAccount> = Vec::new();
    let mut skipped: Vec<String> = Vec::new();
    let mut i: usize = 0;
    while i < entries.len()
        invariant
            i <= entries@.len(),
            accounts@.len() == restorable_entries(entries@.subrange(0, i as int)).len(),
            forall|k: int|
                0 <= k < accounts@.len() ==> (#[trigger] restorable_entries(entries@.subrange(0, i as int))[k].secrets matches Ok(s)
                    && crate::types::restored_from(
                    &restorable_entries(entries@.subrange(0, i as int))[k].public,
                    &s,
                    &accounts@[k],
                )),
            skipped@.map_values(|p: String| p@) == skipped_phones(entries@.subrange(0, i as int)),
        decreases entries@.len() - i,
    {
        let ghost prefix = entries@.subrange(0, i as int);
        let ghost next = entries@.subrange(0, i + 1);
        assert(next.drop_last() =~= prefix);
        assert(next.last() == entries@[i as int]);
        let e = &entries[i];
        let ghost sk = skipped@;
        match &e.secrets {
            Ok(secrets) => {
                let p = copy_persisted(&e.public);
                let s = copy_secrets(secrets);
                let phone = e.public.phone.clone();
                match SignalAccount::try_from_persisted(p, s, copy_check(&e.aci_check), copy_check(&e.pni_check)) {
                    Ok(a) => {
                        accounts.push(a);
                    },
                    Err(_) => {
                        skipped.push(phone);
                        assert(skipped@.map_values(|p: String| p@) =~= sk.map_values(|p: String| p@).push(
                            e.public.phone@,
                        ));
                    },
                }
            },
            Err(_) => {
                skipped.push(e.public.phone.clone());
                assert(skipped@.map_values(|p: String| p@) =~= sk.map_values(|p: String| p@).push(e.public.phone@));
            },
        }
        i = i + 1;
    }
    assert(entries@.subrange(0, entries@.len() as int) =~= entries@);
    (accounts, skipped)
}

} // verus!
