//! Where the keys of a user are kept, and how the key pair and the repository
//! keys are obtained.

use vstd::prelude::*;
use vstd::string::*;
use crate::auth::{load_email, session_of, SecretStore};
use crate::b64::base64_text;
use crate::crypto::{
    decode_key, decode_key_spec, encode_key, generate_keypair, key_pair_matches, key_view,
    public_key_from_private, public_of, unwrap_repo_key_with_private_key, unwrap_spec,
    wrap_repo_key_for_public_key, decode_fixed, KeyPair, UMK_LEN,
};
use crate::error::{ErrorModel, MilieuError};
use crate::text::{concat2, normalized, str_eq};

verus! {

/// The name of the scheme under which keys are published and wrapped.
pub fn key_algorithm() -> (out: &'static str)
    ensures
        out@ == "x25519-hkdf-xchacha20poly1305"@,
{
    "x25519-hkdf-xchacha20poly1305"
}

/// The email of a profile, or the request to log in.
pub fn profile_email(store: &SecretStore, profile: &str) -> (out: Result<String, MilieuError>)
    ensures
        crate::auth::found_view(out) == crate::auth::or_missing(
            session_of(store@, normalized(profile@)).email,
            ErrorModel::CommandFailed("missing email; run `milieu login`"@),
        ),
{
    match load_email(store, profile) {
        Some(email) => Ok(email),
        None => Err(MilieuError::failed("missing email; run `milieu login`")),
    }
}

/// The key under which the private key of a user is kept.
pub fn user_keypair_key(email: &str) -> (out: String)
    ensures
        out@ == "user_keypair:"@ + email@,
{
    concat2("user_keypair:", email)
}

/// The key under which a repository key of a user is kept.
pub fn repo_key_key(email: &str, repo_id: &str) -> (out: String)
    ensures
        out@ == "repo_key:"@ + email@ + ":"@ + repo_id@,
{
    let mut out = String::from_str("repo_key:");
    out.append(email);
    out.append(":");
    out.append(repo_id);
    out
}

/// A secret to put into the secret store of the operating system.
#[derive(Debug)]
pub struct SecretWrite {
    pub key: String,
    pub value: String,
}

/// What to write to keep a repository key for a profile: under the key of the
/// profile's email and the repository, the base64 text of the key. Fails where
/// the profile has no email.
pub fn store_repo_key(store: &SecretStore, profile: &str, repo_id: &str, key: &[u8; UMK_LEN]) -> (out:
    Result<SecretWrite, MilieuError>)
    ensures
        match session_of(store@, normalized(profile@)).email {
            Some(email) => out matches Ok(write) && write.key@ == "repo_key:"@ + email + ":"@
                + repo_id@ && write.value@ == base64_text(key@) && decode_key_spec(write.value@)
                == Ok::<Seq<u8>, ErrorModel>(key@),
            None => out matches Err(e) && e@ == ErrorModel::CommandFailed(
                "missing email; run `milieu login`"@,
            ),
        },
{
    let email = match profile_email(store, profile) {
        Err(e) => {
            return Err(e);
        },
        Ok(email) => email,
    };
    Ok(SecretWrite { key: repo_key_key(email.as_str(), repo_id), value: encode_key(key) })
}

/// What `load_repo_key` returns.
pub open spec fn stored_key_spec(stored: Option<Seq<char>>) -> Result<Option<Seq<u8>>, ErrorModel> {
    match stored {
        None => Ok(None),
        Some(text) => match decode_key_spec(text) {
            Ok(key) => Ok(Some(key)),
            Err(e) => Err(e),
        },
    }
}

/// The view of an optional key or an error.
pub open spec fn opt_key_view(out: Result<Option<[u8; UMK_LEN]>, MilieuError>) -> Result<
    Option<Seq<u8>>,
    ErrorModel,
> {
    match out {
        Ok(Some(key)) => Ok(Some(key@)),
        Ok(None) => Ok(None),
        Err(e) => Err(e@),
    }
}

/// The view of an optional string slice.
pub open spec fn opt_text(s: Option<&str>) -> Option<Seq<char>> {
    match s {
        Some(t) => Some(t@),
        None => None,
    }
}

/// Reads a repository key from what the secret store holds for it, if anything.
/// Fails where what is held is no key.
pub fn load_repo_key(stored: Option<&str>) -> (out: Result<Option<[u8; UMK_LEN]>, MilieuError>)
    ensures
        opt_key_view(out) == stored_key_spec(opt_text(stored)),
{
    match stored {
        None => Ok(None),
        Some(text) => match decode_key(text) {
            Ok(key) => Ok(Some(key)),
            Err(e) => Err(e),
        },
    }
}

/// What to do so that the user has a key pair that the remote knows.
#[derive(Debug)]
pub struct KeypairPlan {
    /// The key pair of the user.
    pub keypair: KeyPair,
    /// Whether to publish the public half: the remote holds none, or another.
    pub publish: bool,
    /// Whether to keep the private half: the secret store held none.
    pub store: bool,
}

/// Decides the key pair of a user from the private key that the secret store
/// holds, if any, and the public key that the remote holds, if any.
///
/// A stored private key is kept and its public half recomputed; without one a
/// fresh pair is drawn and is to be stored. The public half is to be published
/// whenever the remote holds none or another: the local key pair is the
/// authority. Fails only on a stored private key that is no key.
pub fn ensure_user_keypair(stored_private: Option<&str>, remote_public: Option<&str>) -> (out: Result<
    KeypairPlan,
    MilieuError,
>)
    ensures
        match stored_private {
            Some(private) => match public_of(private@) {
                Ok(public) => out matches Ok(plan) && plan.keypair.private_key_b64@ == private@
                    && plan.keypair.public_key_b64@ == public && !plan.store,
                Err(e) => out matches Err(f) && f@ == e,
            },
            None => out matches Ok(plan) && plan.store,
        },
        out matches Ok(plan) ==> {
            &&& key_pair_matches(plan.keypair.private_key_b64@, plan.keypair.public_key_b64@)
            &&& plan.publish == (opt_text(remote_public) != Some(plan.keypair.public_key_b64@))
        },
{
    let (keypair, store) = match stored_private {
        Some(private) => match public_key_from_private(private) {
            Err(e) => {
                return Err(e);
            },
            Ok(public) => (
                KeyPair { private_key_b64: String::from_str(private), public_key_b64: public },
                false,
            ),
        },
        None => match generate_keypair() {
            Err(e) => {
                return Err(e);
            },
            Ok(pair) => (pair, true),
        },
    };
    let publish = match remote_public {
        Some(public) => !str_eq(public, keypair.public_key_b64.as_str()),
        None => true,
    };
    Ok(KeypairPlan { keypair, publish, store })
}

/// What is left to do to have the key of a repository.
#[derive(Debug)]
pub enum RepoKeyStep {
    /// The secret store held the key.
    Ready([u8; UMK_LEN]),
    /// Ask the remote for the wrapped key, then `receive_repo_key` with this
    /// private key.
    Fetch(String),
}

/// The first step towards the key of a repository, from what the secret store
/// holds: the key itself, if any, and the private key of the user, if any.
///
/// A stored key is returned at once. Without one the wrapped key must be
/// fetched, which needs the private key to be there.
pub fn get_or_fetch_repo_key(stored_key: Option<&str>, private_key: Option<&str>) -> (out: Result<
    RepoKeyStep,
    MilieuError,
>)
    ensures
        match stored_key_spec(opt_text(stored_key)) {
            Err(e) => out matches Err(f) && f@ == e,
            Ok(Some(key)) => out matches Ok(RepoKeyStep::Ready(k)) && k@ == key,
            Ok(None) => match private_key {
                Some(private) => out matches Ok(RepoKeyStep::Fetch(p)) && p@ == private@,
                None => out matches Err(e) && e@ == ErrorModel::CommandFailed(
                    "missing user keypair; run `milieu login` again"@,
                ),
            },
        },
{
    match load_repo_key(stored_key) {
        Err(e) => Err(e),
        Ok(Some(key)) => Ok(RepoKeyStep::Ready(key)),
        Ok(None) => match private_key {
            Some(private) => Ok(RepoKeyStep::Fetch(String::from_str(private))),
            None => Err(MilieuError::failed("missing user keypair; run `milieu login` again")),
        },
    }
}

/// What `receive_repo_key` returns.
pub open spec fn received_key_spec(private_key: Seq<char>, wrapped: Option<Seq<char>>) -> Result<
    Seq<u8>,
    ErrorModel,
> {
    match wrapped {
        None => Err(
            ErrorModel::CommandFailed(
                "repo key not shared yet; ask the owner to run `milieu repos manage share --repo <name>`"@,
            ),
        ),
        Some(blob) => unwrap_spec(private_key, blob),
    }
}

/// The key of a repository from the wrapped key that the remote returned, if
/// any. Fails where the owner has not shared the key yet and where it does not
/// unwrap under the private key.
pub fn receive_repo_key(private_key: &str, wrapped: Option<&str>) -> (out: Result<
    [u8; UMK_LEN],
    MilieuError,
>)
    ensures
        key_view(out) == received_key_spec(private_key@, opt_text(wrapped)),
{
    match wrapped {
        None => Err(
            MilieuError::failed(
                "repo key not shared yet; ask the owner to run `milieu repos manage share --repo <name>`",
            ),
        ),
        Some(blob) => unwrap_repo_key_with_private_key(private_key, blob),
    }
}

/// Wraps a repository key for a user. Fails only on a public key that is no
/// key; the blob unwraps to the repository key under every private key whose
/// public half is the recipient's.
pub fn wrap_repo_key_for_user(recipient_public_key: &str, repo_key: &[u8; UMK_LEN]) -> (out: Result<
    String,
    MilieuError,
>)
    ensures
        out is Ok <==> decode_fixed(
            recipient_public_key@,
            32,
            "invalid public key base64: "@,
            "invalid public key length"@,
        ) is Ok,
        out matches Ok(blob) ==> forall|private_b64: Seq<char>|
            key_pair_matches(private_b64, recipient_public_key@) ==> #[trigger] unwrap_spec(
                private_b64,
                blob@,
            ) == Ok::<Seq<u8>, ErrorModel>(repo_key@),
{
    wrap_repo_key_for_public_key(repo_key, recipient_public_key)
}

} // verus!
