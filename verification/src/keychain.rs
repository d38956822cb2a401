//! The OS keychain (Windows Credential Manager on Windows), reached through
//! the `keyring` crate: the entries of a service, one per field, and
//! reading, writing and deleting their passwords. What the keychain holds
//! is outside this program, so these calls promise nothing of what comes
//! back; the callers decide what each outcome means. Every call is logged
//! on the [`Keychain`] handle it is made through.
use vstd::prelude::*;
use crate::desktop::credentials::{Lookup, OpView, StoreOp};
use crate::shell::credentials::WriteOutcome;

verus! {

#[verifier::external_type_specification]
#[verifier::external_body]
pub struct ExKeyringEntry(keyring::Entry);

#[verifier::external_type_specification]
#[verifier::external_body]
pub struct ExKeyringError(keyring::Error);

/// How a keychain call failed, with the keychain's description.
pub enum KeychainError {
    /// No credential is stored for the entry.
    NoEntry(String),
    /// Any other failure.
    Failed(String),
}

/// An opened entry, with the service and entry name it was opened for.
struct KeyEntry {
    entry: keyring::Entry,
    service: String,
    field: String,
}

/// One call made on the keychain, as `(service, entry, …)`.
pub enum Asked {
    /// The entry could not be opened.
    OpenFailed(Seq<char>, Seq<char>),
    /// A read of the entry, with the password it gave, if any.
    Read(Seq<char>, Seq<char>, Option<Seq<char>>),
    /// A write of the given password to the entry.
    Write(Seq<char>, Seq<char>, Seq<char>),
    /// A deletion of the entry's credential.
    Delete(Seq<char>, Seq<char>),
}

/// The service and entry a call was made on.
pub open spec fn target(a: Asked) -> (Seq<char>, Seq<char>) {
    match a {
        Asked::OpenFailed(s, f) => (s, f),
        Asked::Read(s, f, _) => (s, f),
        Asked::Write(s, f, _) => (s, f),
        Asked::Delete(s, f) => (s, f),
    }
}

/// The field value a read call gives: the password read, else empty.
pub open spec fn read_value(a: Asked) -> Seq<char> {
    match a {
        Asked::Read(_, _, Some(v)) => v,
        _ => Seq::empty(),
    }
}

/// Whether `a` is the read of entry `field` of `service`, or the failed
/// open of that entry.
pub open spec fn is_read_of(a: Asked, service: Seq<char>, field: Seq<char>) -> bool {
    target(a) == (service, field) && (a is Read || a is OpenFailed)
}

/// The call that carries out `op` on entry `field` of `service`.
pub open spec fn op_call(service: Seq<char>, field: Seq<char>, op: OpView) -> Asked {
    match op {
        OpView::Delete => Asked::Delete(service, field),
        OpView::Write(v) => Asked::Write(service, field, v),
    }
}

/// Whether `a` carries out `op` on entry `field` of `service`, or is the
/// failed open of that entry.
pub open spec fn is_op_on(a: Asked, service: Seq<char>, field: Seq<char>, op: OpView) -> bool {
    a == op_call(service, field, op) || a == Asked::OpenFailed(service, field)
}

/// The calls made on the keychain through this handle, in order.
pub struct Keychain {
    pub log: Ghost<Seq<Asked>>,
}

impl Keychain {
    pub fn new() -> (r: Self)
        ensures
            r.log@ == Seq::<Asked>::empty(),
    {
        Keychain { log: Ghost(Seq::empty()) }
    }
}

/// `keyring::Entry::new(service, user)`: the entry of `user` under
/// `service` in the platform's default store, kept with the two names.
/// Whether it opens depends on the platform store; a failure is logged as
/// [`Asked::OpenFailed`] of the two names.
#[verifier::external_body]
fn open_entry(kc: &mut Keychain, service: &str, user: &str) -> (r: Result<KeyEntry, keyring::Error>)
    ensures
        r matches Ok(e) ==> e.service@ == service@ && e.field@ == user@ && final(kc).log@ == old(kc).log@,
        r is Err ==> final(kc).log@ == old(kc).log@.push(Asked::OpenFailed(service@, user@)),
{
    let entry = keyring::Entry::new(service, user)?;
    Ok(KeyEntry { entry, service: service.to_string(), field: user.to_string() })
}

/// `keyring::Entry::get_password` on the entry: the stored password, or
/// why there is none, which depends on what the keychain holds. The call
/// is logged as [`Asked::Read`] with what it gave.
#[verifier::external_body]
fn read_password(kc: &mut Keychain, e: &KeyEntry) -> (r: Result<String, keyring::Error>)
    ensures
        final(kc).log@ == old(kc).log@.push(
            Asked::Read(
                e.service@,
                e.field@,
                match r {
                    Ok(v) => Some(v@),
                    Err(_) => None,
                },
            ),
        ),
{
    e.entry.get_password()
}

/// `keyring::Entry::set_password` on the entry: stores `password`; the
/// outcome depends on the keychain. The call is logged as [`Asked::Write`].
#[verifier::external_body]
fn write_password(kc: &mut Keychain, e: &KeyEntry, password: &str) -> (r: Result<(), keyring::Error>)
    ensures
        final(kc).log@ == old(kc).log@.push(Asked::Write(e.service@, e.field@, password@)),
{
    e.entry.set_password(password)
}

/// `keyring::Entry::delete_credential` on the entry: removes the stored
/// credential; the outcome depends on the keychain. The call is logged as
/// [`Asked::Delete`].
#[verifier::external_body]
fn delete_password(kc: &mut Keychain, e: &KeyEntry) -> (r: Result<(), keyring::Error>)
    ensures
        final(kc).log@ == old(kc).log@.push(Asked::Delete(e.service@, e.field@)),
{
    e.entry.delete_credential()
}

/// Tells `keyring::Error::NoEntry` apart from the other failures and keeps
/// the error's `Display` text. Nothing is stated of which variant a given
/// error is.
#[verifier::external_body]
fn keychain_error(e: keyring::Error) -> (r: KeychainError) {
    match e {
        keyring::Error::NoEntry => KeychainError::NoEntry(e.to_string()),
        other => KeychainError::Failed(other.to_string()),
    }
}

/// Reads the entry `field` of `service`: its value, no entry, or a failure
/// (also when the entry cannot be opened). One call is logged: the read
/// of that entry, or its failed open; the result's value
/// ([`stored`](crate::desktop::credentials::stored)) is what it read.
pub fn lookup(kc: &mut Keychain, service: &str, field: &str) -> (r: Lookup)
    ensures
        final(kc).log@.len() == old(kc).log@.len() + 1,
        final(kc).log@.drop_last() == old(kc).log@,
        is_read_of(final(kc).log@.last(), service@, field@),
        crate::desktop::credentials::stored(r) == read_value(final(kc).log@.last()),
{
    let r = match open_entry(kc, service, field) {
        Err(_) => Lookup::Failed,
        Ok(entry) => match read_password(kc, &entry) {
            Ok(v) => Lookup::Found(v),
            Err(e) => match keychain_error(e) {
                KeychainError::NoEntry(_) => Lookup::NoEntry,
                KeychainError::Failed(_) => Lookup::Failed,
            },
        },
    };
    assert(kc.log@.drop_last() =~= old(kc).log@);
    r
}

/// Applies `op` to the entry `field` of `service`: `None` when the entry
/// cannot be opened, else how the write or delete ended. A missing entry is
/// [`WriteOutcome::NoEntry`] only for a delete; for a write it is a
/// failure like any other. One call is logged: the write or delete, or the
/// failed open, and the open failed exactly when the result is `None`.
pub fn apply(kc: &mut Keychain, service: &str, field: &str, op: StoreOp) -> (r: Option<WriteOutcome>)
    ensures
        final(kc).log@ == old(kc).log@.push(
            if r is None {
                Asked::OpenFailed(service@, field@)
            } else {
                op_call(service@, field@, op@)
            },
        ),
        (r matches Some(o) && o is NoEntry) ==> op is Delete,
{
    let entry = match open_entry(kc, service, field) {
        Err(_) => return None,
        Ok(entry) => entry,
    };
    let deleting = matches!(op, StoreOp::Delete);
    let res = match op {
        StoreOp::Delete => delete_password(kc, &entry),
        StoreOp::Write(v) => write_password(kc, &entry, v.as_str()),
    };
    match res {
        Ok(()) => Some(WriteOutcome::Done),
        Err(e) => match keychain_error(e) {
            KeychainError::NoEntry(d) => if deleting {
                Some(WriteOutcome::NoEntry)
            } else {
                Some(WriteOutcome::Failed(d))
            },
            KeychainError::Failed(d) => Some(WriteOutcome::Failed(d)),
        },
    }
}

} // verus!
