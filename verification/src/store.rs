use vstd::prelude::*;
use vstd::string::*;

use crate::errors::IdeaError;
use crate::text::trim_spec;
use crate::text::trim_str;
use crate::KEYRING_ACCOUNT;
use crate::KEYRING_SERVICE;

verus! {

#[verifier::external_type_specification]
#[verifier::external_body]
pub struct ExKeyringEntry(keyring::Entry);

/// What came of asking the store for the credential.
pub enum GetOutcome {
    /// The stored secret.
    Present(String),
    /// No credential has ever been set: the store's "no entry" answer, a
    /// valid non-error state.
    Absent,
    /// The store itself failed; carries its diagnostic.
    Failed(String),
}

/// What came of asking the store to delete the credential.
pub enum DeleteOutcome {
    /// The credential existed and was removed.
    Removed,
    /// No credential existed: the store's "no entry" answer.
    Missing,
    /// The store itself failed; carries its diagnostic.
    Failed(String),
}

/// How a set request routes once its input is trimmed.
pub enum SetAction {
    /// The trimmed input was empty: the credential is deleted instead.
    Delete,
    /// The trimmed input is stored.
    Store(String),
}

/// Relies on `keyring::Entry::new`: a handle to the secret named by the
/// service and account pair; `Err` only when the descriptor is refused or
/// the platform store cannot be reached.
#[verifier::external_body]
fn entry_new(service: &str, account: &str) -> (r: Result<keyring::Entry, String>) {
    match keyring::Entry::new(service, account) {
        Ok(e) => Ok(e),
        Err(err) => Err(format!("{}", err)),
    }
}

/// Relies on `keyring::Entry::get_password`, and on `keyring::Error` to
/// tell absence (`NoEntry`) apart from store failure. Nothing is promised
/// of the outcome: what the store answers depends on its persisted state.
#[verifier::external_body]
fn entry_get(e: &keyring::Entry) -> (r: GetOutcome) {
    match e.get_password() {
        Ok(v) => GetOutcome::Present(v),
        Err(keyring::Error::NoEntry) => GetOutcome::Absent,
        Err(err) => GetOutcome::Failed(format!("{}", err)),
    }
}

/// Relies on `keyring::Entry::set_password`. Nothing is promised of the
/// outcome: whether the store accepts the write depends on the platform.
#[verifier::external_body]
fn entry_set(e: &keyring::Entry, value: &str) -> (r: Result<(), String>) {
    match e.set_password(value) {
        Ok(()) => Ok(()),
        Err(err) => Err(format!("{}", err)),
    }
}

/// Relies on `keyring::Entry::delete_credential`, and on `keyring::Error`
/// to tell absence (`NoEntry`) apart from store failure.
#[verifier::external_body]
fn entry_delete(e: &keyring::Entry) -> (r: DeleteOutcome) {
    match e.delete_credential() {
        Ok(()) => DeleteOutcome::Removed,
        Err(keyring::Error::NoEntry) => DeleteOutcome::Missing,
        Err(err) => DeleteOutcome::Failed(format!("{}", err)),
    }
}

/// Decide how a set request routes: the input is trimmed first; an input
/// empty after trimming means delete, any other is stored trimmed.
pub fn set_plan(api_key: &str) -> (r: SetAction)
    ensures
        trim_spec(api_key@).len() == 0 ==> r is Delete,
        trim_spec(api_key@).len() > 0 ==> (r matches SetAction::Store(v) && v@ == trim_spec(
            api_key@,
        )),
{
    let t = trim_str(api_key);
    if t.unicode_len() == 0 {
        SetAction::Delete
    } else {
        SetAction::Store(String::from_str(t))
    }
}

/// Normalize the store's get answer: absence is success-with-absence, never
/// an error; only a store failure is an error, and it is a store error.
pub fn normalize_get(o: GetOutcome) -> (r: Result<Option<String>, IdeaError>)
    ensures
        o matches GetOutcome::Present(v) ==> (r matches Ok(x) && x matches Some(s) && s@ == v@),
        o is Absent ==> (r matches Ok(x) && x is None),
        o matches GetOutcome::Failed(d) ==> (r matches Err(e) && e matches IdeaError::Store(m)
            && m@ == d@),
{
    match o {
        GetOutcome::Present(v) => Result::Ok(Option::Some(v)),
        GetOutcome::Absent => Result::Ok(Option::None),
        GetOutcome::Failed(d) => Result::Err(IdeaError::Store(d)),
    }
}

/// Normalize the store's delete answer: deleting a credential that does not
/// exist is success, so deletion is idempotent; only a store failure is an
/// error, and it is a store error.
pub fn normalize_delete(o: DeleteOutcome) -> (r: Result<(), IdeaError>)
    ensures
        o is Removed ==> r is Ok,
        o is Missing ==> r is Ok,
        o matches DeleteOutcome::Failed(d) ==> (r matches Err(e) && e matches IdeaError::Store(m)
            && m@ == d@),
{
    match o {
        DeleteOutcome::Removed => Result::Ok(()),
        DeleteOutcome::Missing => Result::Ok(()),
        DeleteOutcome::Failed(d) => Result::Err(IdeaError::Store(d)),
    }
}

/// Read the stored API key. Absence is not an error: `Ok(None)` when no key
/// has ever been set. What the store holds depends on the environment, so
/// only the failure shape is promised: every error is a store error.
pub fn get_api_key() -> (r: Result<Option<String>, IdeaError>)
    ensures
        r matches Err(e) ==> e is Store,
{
    let entry = match entry_new(KEYRING_SERVICE, KEYRING_ACCOUNT) {
        Result::Ok(en) => en,
        Result::Err(d) => {
            return Result::Err(IdeaError::Store(d));
        },
    };
    normalize_get(entry_get(&entry))
}

/// Store the API key: the value is trimmed first, and an input empty after
/// trimming routes to deletion rather than storing an empty string. Every
/// error is a store error.
pub fn set_api_key(api_key: &str) -> (r: Result<(), IdeaError>)
    ensures
        r matches Err(e) ==> e is Store,
{
    match set_plan(api_key) {
        SetAction::Delete => delete_api_key(),
        SetAction::Store(v) => {
            let entry = match entry_new(KEYRING_SERVICE, KEYRING_ACCOUNT) {
                Result::Ok(en) => en,
                Result::Err(d) => {
                    return Result::Err(IdeaError::Store(d));
                },
            };
            match entry_set(&entry, v.as_str()) {
                Result::Ok(u) => Result::Ok(u),
                Result::Err(d) => Result::Err(IdeaError::Store(d)),
            }
        },
    }
}

/// Delete the stored API key. Idempotent: deleting when nothing is stored
/// succeeds. Every error is a store error.
pub fn delete_api_key() -> (r: Result<(), IdeaError>)
    ensures
        r matches Err(e) ==> e is Store,
{
    let entry = match entry_new(KEYRING_SERVICE, KEYRING_ACCOUNT) {
        Result::Ok(en) => en,
        Result::Err(d) => {
            return Result::Err(IdeaError::Store(d));
        },
    };
    normalize_delete(entry_delete(&entry))
}

} // verus!
