//! The secret store: one record of session secrets per profile.
//!
//! `SecretStore` is the cache of the process. Every change of a record returns
//! the record as it now stands, for the caller to write through to the secret
//! store of the operating system under `session_key`. A profile that the cache
//! does not hold counts as one whose record is empty: the caller fills the cache
//! from the operating system's store before it asks.

use vstd::prelude::*;
use vstd::string::*;
use crate::error::{ErrorModel, MilieuError};
use crate::text::{concat2, normalize, normalized, opt_clone, opt_view, str_eq};

verus! {

/// The name of the service under which every secret is kept.
pub fn service_name() -> (out: &'static str)
    ensures
        out@ == "milieu"@,
{
    "milieu"
}

/// The secrets of one profile, each of which may be absent.
#[derive(Debug)]
pub struct SessionSecret {
    pub auth_token: Option<String>,
    pub user_id: Option<String>,
    pub umk: Option<String>,
    pub phrase: Option<String>,
    pub email: Option<String>,
}

/// A `SessionSecret` as plain values.
pub struct SessionModel {
    pub auth_token: Option<Seq<char>>,
    pub user_id: Option<Seq<char>>,
    pub umk: Option<Seq<char>>,
    pub phrase: Option<Seq<char>>,
    pub email: Option<Seq<char>>,
}

/// The record without any secret.
pub open spec fn empty_session() -> SessionModel {
    SessionModel { auth_token: None, user_id: None, umk: None, phrase: None, email: None }
}

impl View for SessionSecret {
    type V = SessionModel;

    open spec fn view(&self) -> SessionModel {
        SessionModel {
            auth_token: opt_view(self.auth_token),
            user_id: opt_view(self.user_id),
            umk: opt_view(self.umk),
            phrase: opt_view(self.phrase),
            email: opt_view(self.email),
        }
    }
}

impl Clone for SessionSecret {
    fn clone(&self) -> (out: Self)
        ensures
            out@ == self@,
    {
        SessionSecret {
            auth_token: opt_clone(&self.auth_token),
            user_id: opt_clone(&self.user_id),
            umk: opt_clone(&self.umk),
            phrase: opt_clone(&self.phrase),
            email: opt_clone(&self.email),
        }
    }
}

impl Default for SessionSecret {
    fn default() -> (out: Self)
        ensures
            out@ == empty_session(),
    {
        SessionSecret { auth_token: None, user_id: None, umk: None, phrase: None, email: None }
    }
}

/// The key of a profile in the cache: its name, trimmed and in lower case.
pub fn profile_key(profile: &str) -> (out: String)
    ensures
        out@ == normalized(profile@),
{
    normalize(profile)
}

/// The key of a profile's record in the secret store of the operating system.
pub fn session_key(profile: &str) -> (out: String)
    ensures
        out@ == "session:"@ + normalized(profile@),
{
    concat2("session:", profile_key(profile).as_str())
}

/// One record of the cache.
struct CacheEntry {
    key: String,
    secret: SessionSecret,
}

/// The mapping that a run of cache entries stands for: a later entry overrides an
/// earlier one with the same key.
spec fn entries_map(entries: Seq<CacheEntry>) -> Map<Seq<char>, SessionModel>
    decreases entries.len(),
{
    if entries.len() == 0 {
        Map::empty()
    } else {
        entries_map(entries.drop_last()).insert(entries.last().key@, entries.last().secret@)
    }
}

/// The cache of session records, by profile key.
pub struct SecretStore {
    entries: Vec<CacheEntry>,
}

impl View for SecretStore {
    type V = Map<Seq<char>, SessionModel>;

    closed spec fn view(&self) -> Map<Seq<char>, SessionModel> {
        entries_map(self.entries@)
    }
}

/// The record of a key: what the cache holds for it, or the empty record.
pub open spec fn session_of(cache: Map<Seq<char>, SessionModel>, key: Seq<char>) -> SessionModel {
    if cache.dom().contains(key) {
        cache[key]
    } else {
        empty_session()
    }
}

impl SecretStore {
    /// A cache that holds nothing.
    pub fn new() -> (out: SecretStore)
        ensures
            out@ == Map::<Seq<char>, SessionModel>::empty(),
    {
        SecretStore { entries: Vec::new() }
    }

    /// What the cache holds for a profile, if anything.
    pub fn cached(&self, profile: &str) -> (out: Option<SessionSecret>)
        ensures
            match out {
                Some(secret) => self@.dom().contains(normalized(profile@)) && secret@
                    == self@[normalized(profile@)],
                None => !self@.dom().contains(normalized(profile@)),
            },
    {
        let key = profile_key(profile);
        let mut i: usize = self.entries.len();
        assert(self.entries@.take(i as int) =~= self.entries@);
        while i > 0
            invariant
                i <= self.entries.len(),
                key@ == normalized(profile@),
                self@.dom().contains(key@) == entries_map(self.entries@.take(i as int)).dom().contains(
                    key@,
                ),
                self@.dom().contains(key@) ==> self@[key@] == entries_map(
                    self.entries@.take(i as int),
                )[key@],
            decreases i,
        {
            let entry = &self.entries[i - 1];
            assert(self.entries@.take(i as int).drop_last() =~= self.entries@.take(i as int - 1));
            assert(self.entries@.take(i as int).last() == *entry);
            if str_eq(entry.key.as_str(), key.as_str()) {
                return Some(entry.secret.clone());
            }
            i -= 1;
        }
        None
    }

    /// Drops what the cache holds for a key.
    fn drop_key(&mut self, key: &str)
        ensures
            final(self)@ == old(self)@.remove(key@),
    {
        let mut kept: Vec<CacheEntry> = Vec::new();
        let mut i: usize = 0;
        assert(self.entries@.take(0) =~= Seq::<CacheEntry>::empty());
        while i < self.entries.len()
            invariant
                i <= self.entries.len(),
                entries_map(kept@) == entries_map(self.entries@.take(i as int)).remove(key@),
            decreases self.entries.len() - i,
        {
            let entry = &self.entries[i];
            assert(self.entries@.take(i as int + 1).drop_last() =~= self.entries@.take(i as int));
            assert(self.entries@.take(i as int + 1).last() == *entry);
            let ghost before = entries_map(self.entries@.take(i as int));
            if !str_eq(entry.key.as_str(), key) {
                let ghost old_kept = kept@;
                let copy = CacheEntry { key: entry.key.clone(), secret: entry.secret.clone() };
                kept.push(copy);
                assert(kept@.drop_last() =~= old_kept);
                assert(entries_map(kept@) =~= before.insert(entry.key@, entry.secret@).remove(key@));
            } else {
                assert(entries_map(kept@) =~= before.insert(entry.key@, entry.secret@).remove(key@));
            }
            i += 1;
        }
        assert(self.entries@.take(i as int) =~= self.entries@);
        self.entries = kept;
    }

    /// Puts a record into the cache, in place of what it held for the profile.
    pub fn remember(&mut self, profile: &str, secret: SessionSecret)
        ensures
            final(self)@ == old(self)@.insert(normalized(profile@), secret@),
    {
        let key = profile_key(profile);
        self.drop_key(key.as_str());
        let ghost before = self.entries@;
        self.entries.push(CacheEntry { key, secret });
        assert(self.entries@.drop_last() =~= before);
        assert(self@ =~= old(self)@.insert(normalized(profile@), secret@));
    }

    /// Drops what the cache holds for a profile.
    pub fn forget(&mut self, profile: &str)
        ensures
            final(self)@ == old(self)@.remove(normalized(profile@)),
    {
        let key = profile_key(profile);
        self.drop_key(key.as_str());
    }

    /// Fills the cache for a profile from what the secret store of the operating
    /// system holds for it, where the cache holds nothing yet; an absent record
    /// counts as the empty one. Returns the record of the profile.
    pub fn populate(&mut self, profile: &str, persisted: Option<SessionSecret>) -> (out:
        SessionSecret)
        ensures
            old(self)@.dom().contains(normalized(profile@)) ==> final(self)@ == old(self)@ && out@
                == old(self)@[normalized(profile@)],
            !old(self)@.dom().contains(normalized(profile@)) ==> out@ == (match persisted {
                Some(secret) => secret@,
                None => empty_session(),
            }) && final(self)@ == old(self)@.insert(normalized(profile@), out@),
    {
        match self.cached(profile) {
            Some(secret) => secret,
            None => {
                let secret = match persisted {
                    Some(secret) => secret,
                    None => SessionSecret::default(),
                };
                self.remember(profile, secret.clone());
                secret
            },
        }
    }

    /// The record of a profile: what the cache holds for it, or the empty record.
    pub fn session(&self, profile: &str) -> (out: SessionSecret)
        ensures
            out@ == session_of(self@, normalized(profile@)),
    {
        match self.cached(profile) {
            Some(secret) => secret,
            None => SessionSecret::default(),
        }
    }
}

/// Records the access token and the user id of a profile. Returns the record to
/// write through.
pub fn store_auth(store: &mut SecretStore, profile: &str, token: &str, user_id: &str) -> (out:
    SessionSecret)
    ensures
        out@ == (SessionModel {
            auth_token: Some(token@),
            user_id: Some(user_id@),
            ..session_of(old(store)@, normalized(profile@))
        }),
        final(store)@ == old(store)@.insert(normalized(profile@), out@),
{
    let mut session = store.session(profile);
    session.auth_token = Some(String::from_str(token));
    session.user_id = Some(String::from_str(user_id));
    store.remember(profile, session.clone());
    session
}

/// Records the email of a profile. Returns the record to write through.
pub fn store_email(store: &mut SecretStore, profile: &str, email: &str) -> (out: SessionSecret)
    ensures
        out@ == (SessionModel {
            email: Some(email@),
            ..session_of(old(store)@, normalized(profile@))
        }),
        final(store)@ == old(store)@.insert(normalized(profile@), out@),
{
    let mut session = store.session(profile);
    session.email = Some(String::from_str(email));
    store.remember(profile, session.clone());
    session
}

/// The email of a profile, if it has one.
pub fn load_email(store: &SecretStore, profile: &str) -> (out: Option<String>)
    ensures
        opt_view(out) == session_of(store@, normalized(profile@)).email,
{
    store.session(profile).email
}

/// The view of a text that is there or an error.
pub open spec fn found_view(out: Result<String, MilieuError>) -> Result<Seq<char>, ErrorModel> {
    match out {
        Ok(text) => Ok(text@),
        Err(e) => Err(e@),
    }
}

/// What is there, or the given error where nothing is.
pub open spec fn or_missing(value: Option<Seq<char>>, missing: ErrorModel) -> Result<
    Seq<char>,
    ErrorModel,
> {
    match value {
        Some(text) => Ok(text),
        None => Err(missing),
    }
}

/// The access token of a profile, or `AuthMissing`.
pub fn load_auth_token(store: &SecretStore, profile: &str) -> (out: Result<String, MilieuError>)
    ensures
        found_view(out) == or_missing(
            session_of(store@, normalized(profile@)).auth_token,
            ErrorModel::AuthMissing,
        ),
{
    match store.session(profile).auth_token {
        Some(token) => Ok(token),
        None => Err(MilieuError::AuthMissing),
    }
}

/// The user id of a profile, or `UserIdMissing`.
pub fn load_user_id(store: &SecretStore, profile: &str) -> (out: Result<String, MilieuError>)
    ensures
        found_view(out) == or_missing(
            session_of(store@, normalized(profile@)).user_id,
            ErrorModel::UserIdMissing,
        ),
{
    match store.session(profile).user_id {
        Some(id) => Ok(id),
        None => Err(MilieuError::UserIdMissing),
    }
}

/// Records the user master key of a profile, as base64 text. Returns the record
/// to write through.
pub fn store_umk(store: &mut SecretStore, profile: &str, umk_b64: &str) -> (out: SessionSecret)
    ensures
        out@ == (SessionModel {
            umk: Some(umk_b64@),
            ..session_of(old(store)@, normalized(profile@))
        }),
        final(store)@ == old(store)@.insert(normalized(profile@), out@),
{
    let mut session = store.session(profile);
    session.umk = Some(String::from_str(umk_b64));
    store.remember(profile, session.clone());
    session
}

/// The user master key of a profile, as base64 text, or `UmkMissing`.
pub fn load_umk(store: &SecretStore, profile: &str) -> (out: Result<String, MilieuError>)
    ensures
        found_view(out) == or_missing(
            session_of(store@, normalized(profile@)).umk,
            ErrorModel::UmkMissing,
        ),
{
    match store.session(profile).umk {
        Some(umk) => Ok(umk),
        None => Err(MilieuError::UmkMissing),
    }
}

/// Records the recovery phrase of a profile. Returns the record to write
/// through.
pub fn store_phrase(store: &mut SecretStore, profile: &str, phrase: &str) -> (out: SessionSecret)
    ensures
        out@ == (SessionModel {
            phrase: Some(phrase@),
            ..session_of(old(store)@, normalized(profile@))
        }),
        final(store)@ == old(store)@.insert(normalized(profile@), out@),
{
    let mut session = store.session(profile);
    session.phrase = Some(String::from_str(phrase));
    store.remember(profile, session.clone());
    session
}

/// The recovery phrase of a profile, if it has one.
pub fn load_phrase(store: &SecretStore, profile: &str) -> (out: Option<String>)
    ensures
        opt_view(out) == session_of(store@, normalized(profile@)).phrase,
{
    store.session(profile).phrase
}

/// Removes the access token and the user id of a profile. Returns the record to
/// write through.
pub fn clear_auth(store: &mut SecretStore, profile: &str) -> (out: SessionSecret)
    ensures
        out@ == (SessionModel {
            auth_token: None,
            user_id: None,
            ..session_of(old(store)@, normalized(profile@))
        }),
        final(store)@ == old(store)@.insert(normalized(profile@), out@),
{
    let mut session = store.session(profile);
    session.auth_token = None;
    session.user_id = None;
    store.remember(profile, session.clone());
    session
}

/// Removes the user master key and the recovery phrase of a profile. Returns the
/// record to write through.
pub fn clear_umk(store: &mut SecretStore, profile: &str) -> (out: SessionSecret)
    ensures
        out@ == (SessionModel {
            umk: None,
            phrase: None,
            ..session_of(old(store)@, normalized(profile@))
        }),
        final(store)@ == old(store)@.insert(normalized(profile@), out@),
{
    let mut session = store.session(profile);
    session.umk = None;
    session.phrase = None;
    store.remember(profile, session.clone());
    session
}

/// Removes the record of a profile from the cache. Returns the key under which
/// the caller removes it from the secret store of the operating system.
pub fn delete_session(store: &mut SecretStore, profile: &str) -> (out: String)
    ensures
        out@ == "session:"@ + normalized(profile@),
        final(store)@ == old(store)@.remove(normalized(profile@)),
{
    store.forget(profile);
    session_key(profile)
}

} // verus!
