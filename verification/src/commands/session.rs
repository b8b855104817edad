//! Small decisions around the session: logging out, showing the recovery phrase,
//! checking the secret store, reading the history, and the headings of the
//! output.

use vstd::prelude::*;
use vstd::string::*;
use crate::api::HistoryEntry;
use crate::auth::{
    clear_auth, clear_umk, delete_session, load_phrase, load_user_id, session_of,
    SecretStore, SessionModel, SessionSecret,
};
use crate::error::{ErrorModel, MilieuError};
use crate::manifest::Manifest;
use crate::text::{concat2, normalized, str_eq};

verus! {

/// What a logout leaves to do in the secret store of the operating system.
#[derive(Debug)]
pub enum LogoutStep {
    /// Write this record under the session key: the login is gone, the keys
    /// stay.
    Keep(SessionSecret),
    /// Remove what is kept under this key.
    Erase(String),
}

/// Logs a profile out. Where the local data is kept, only the access token and
/// the user id go; otherwise everything goes, from the cache too.
pub fn logout(store: &mut SecretStore, profile: &str, keep_local: bool) -> (out: LogoutStep)
    ensures
        keep_local ==> (out matches LogoutStep::Keep(secret) && secret@ == (SessionModel {
            auth_token: None,
            user_id: None,
            ..session_of(old(store)@, normalized(profile@))
        }) && final(store)@ == old(store)@.insert(normalized(profile@), secret@)),
        !keep_local ==> (out matches LogoutStep::Erase(key) && key@ == "session:"@ + normalized(
            profile@,
        ) && final(store)@ == old(store)@.remove(normalized(profile@))),
{
    if keep_local {
        LogoutStep::Keep(clear_auth(store, profile))
    } else {
        let _ = clear_umk(store, profile);
        let _ = clear_auth(store, profile);
        let key = delete_session(store, profile);
        assert(store@ =~= old(store)@.remove(normalized(profile@)));
        LogoutStep::Erase(key)
    }
}

/// The recovery phrase of a profile that is logged in: `UserIdMissing` without a
/// login, and a refusal where no phrase is kept.
pub fn phrase_show(store: &SecretStore, profile: &str) -> (out: Result<String, MilieuError>)
    ensures
        ({
            let session = session_of(store@, normalized(profile@));
            match (session.user_id, session.phrase) {
                (None, _) => out matches Err(e) && e@ == ErrorModel::UserIdMissing,
                (Some(_), None) => out matches Err(e) && e@ == ErrorModel::CommandFailed(
                    "no recovery phrase found in keychain"@,
                ),
                (Some(_), Some(phrase)) => out matches Ok(p) && p@ == phrase,
            }
        }),
{
    match load_user_id(store, profile) {
        Err(e) => {
            return Err(e);
        },
        Ok(_) => {},
    }
    match load_phrase(store, profile) {
        Some(phrase) => Ok(phrase),
        None => Err(MilieuError::failed("no recovery phrase found in keychain")),
    }
}

/// Whether a profile that is logged in keeps a recovery phrase; `UserIdMissing`
/// without a login.
pub fn phrase_status(store: &SecretStore, profile: &str) -> (out: Result<bool, MilieuError>)
    ensures
        ({
            let session = session_of(store@, normalized(profile@));
            match session.user_id {
                None => out matches Err(e) && e@ == ErrorModel::UserIdMissing,
                Some(_) => out == Ok::<bool, MilieuError>(session.phrase is Some),
            }
        }),
{
    match load_user_id(store, profile) {
        Err(e) => {
            return Err(e);
        },
        Ok(_) => {},
    }
    Ok(load_phrase(store, profile).is_some())
}

/// The key and the value that the check of the secret store writes, reads back
/// and removes.
pub fn keychain_probe() -> (out: (&'static str, &'static str))
    ensures
        out.0@ == "doctor_temp"@,
        out.1@ == "ok"@,
{
    ("doctor_temp", "ok")
}

/// Judges what the secret store returned for the probe: anything but the value
/// written is a mismatch.
pub fn keychain_check(read_back: Option<&str>) -> (out: Result<(), MilieuError>)
    ensures
        match read_back {
            Some(value) if value@ == "ok"@ => out is Ok,
            _ => out matches Err(e) && e@ == ErrorModel::CommandFailed("keychain read mismatch"@),
        },
{
    match read_back {
        Some(value) => {
            if str_eq(value, "ok") {
                Ok(())
            } else {
                Err(MilieuError::failed("keychain read mismatch"))
            }
        },
        None => Err(MilieuError::failed("keychain read mismatch")),
    }
}

/// Refuses an empty history.
pub fn check_history(history: &Vec<HistoryEntry>) -> (out: Result<(), MilieuError>)
    ensures
        match out {
            Ok(_) => history.len() > 0,
            Err(e) => history.len() == 0 && e@ == ErrorModel::CommandFailed(
                "no history for file"@,
            ),
        },
{
    if history.len() == 0 {
        Err(MilieuError::failed("no history for file"))
    } else {
        Ok(())
    }
}

/// The line that says whether the default profile is logged in.
pub fn login_status(store: &SecretStore) -> (out: String)
    ensures
        out@ == (match session_of(store@, normalized("default"@)).user_id {
            Some(id) => "status: logged in ("@ + id + ")"@,
            None => "status: not logged in"@,
        }),
{
    match load_user_id(store, "default") {
        Ok(id) => {
            let mut out = String::from_str("status: logged in (");
            out.append(id.as_str());
            out.append(")");
            out
        },
        Err(_) => String::from_str("status: not logged in"),
    }
}

/// The heading of a command that works on the user.
pub fn scope_user(email: Option<&str>) -> (out: String)
    ensures
        out@ == (match email {
            Some(e) => "SCOPE: user "@ + e@,
            None => "SCOPE: user"@,
        }),
{
    match email {
        Some(e) => concat2("SCOPE: user ", e),
        None => String::from_str("SCOPE: user"),
    }
}

/// The heading of a command that works on a repository.
pub fn scope_repo(manifest: &Manifest) -> (out: String)
    ensures
        out@ == "SCOPE: repo "@ + manifest@.repo_name,
{
    concat2("SCOPE: repo ", manifest.repo_name.as_str())
}

/// The heading of a command that works on a branch.
pub fn scope_branch(manifest: &Manifest, branch: &str) -> (out: String)
    ensures
        out@ == "SCOPE: repo "@ + manifest@.repo_name + " -> branch "@ + branch@,
{
    let mut out = String::from_str("SCOPE: repo ");
    out.append(manifest.repo_name.as_str());
    out.append(" -> branch ");
    out.append(branch);
    out
}

} // verus!
