//! Login: enrolling a new account with a fresh recovery phrase, and recovering
//! the user master key of an existing one.

use vstd::prelude::*;
use vstd::string::*;
use crate::api::UmkResponse;
use crate::crypto::{
    decrypt_umk_blob, derive_key, derive_key_spec, encrypt_umk_blob_with, generate_umk,
    umk_blob_spec, KdfParams, NONCE_LEN, UMK_LEN,
};
use crate::error::{ErrorModel, MilieuError};
use crate::primitives::{bip39_phrase, mnemonic_phrase, random_array};
use crate::text::normalize;

verus! {

/// What a new account starts with.
#[derive(Debug)]
pub struct Enrollment {
    /// The user master key.
    pub umk: [u8; UMK_LEN],
    /// The recovery phrase, shown once and kept in the secret store.
    pub phrase: String,
    /// What to publish: the encrypted master key with its parameters.
    pub request: UmkResponse,
}

/// The recovery phrase of an entropy of 16 bytes.
pub fn phrase_from_entropy(entropy: &[u8; 16]) -> (out: Result<String, MilieuError>)
    ensures
        out matches Ok(phrase) && phrase@ == bip39_phrase(entropy@),
{
    match mnemonic_phrase(entropy) {
        Some(phrase) => Ok(phrase),
        None => Err(MilieuError::crypto("invalid entropy")),
    }
}

/// Whether `request` publishes `umk` under the phrase: its blob decrypts to the
/// master key under the key that the phrase derives with its parameters.
pub open spec fn publishes(request: UmkResponse, phrase: Seq<char>, umk: Seq<u8>) -> bool {
    &&& request.version == 1
    &&& derive_key_spec(
        phrase,
        request.kdf_params.salt@,
        request.kdf_params.m_cost,
        request.kdf_params.t_cost,
        request.kdf_params.p_cost,
    ) matches Ok(pdk) && umk_blob_spec(pdk, request.encrypted_umk@) == Ok::<Seq<u8>, ErrorModel>(
        umk,
    )
}

/// Enrolls a new account from the given master key, entropy, salt and nonce.
///
/// The recovery phrase is the BIP-39 phrase of the entropy. The parameters
/// published are the default costs with the salt, and the blob published
/// decrypts to the master key under the key that the phrase derives with them.
///
/// Fails exactly where that key derivation fails, and with its error.
pub fn enroll_with(
    umk: [u8; UMK_LEN],
    entropy: &[u8; 16],
    salt: &[u8; 16],
    nonce: &[u8; NONCE_LEN],
) -> (out: Result<Enrollment, MilieuError>)
    ensures
        out matches Ok(enrollment) ==> {
            &&& enrollment.umk@ == umk@
            &&& enrollment.phrase@ == bip39_phrase(entropy@)
            &&& publishes(enrollment.request, enrollment.phrase@, umk@)
            &&& default_params(enrollment.request, salt@)
        },
        out matches Err(e) ==> enrollment_key(entropy@, salt@) == Err::<Seq<u8>, ErrorModel>(e@),
{
    let phrase = match phrase_from_entropy(entropy) {
        Err(e) => {
            return Err(e);
        },
        Ok(phrase) => phrase,
    };
    let kdf_params = KdfParams::with_salt(salt);
    let pdk = match derive_key(phrase.as_str(), &kdf_params) {
        Err(e) => {
            return Err(e);
        },
        Ok(key) => key,
    };
    let encrypted_umk = match encrypt_umk_blob_with(&pdk, &umk, nonce) {
        Err(e) => {
            return Err(e);
        },
        Ok(blob) => blob,
    };
    Ok(Enrollment { umk, phrase, request: UmkResponse { encrypted_umk, kdf_params, version: 1 } })
}

/// Enrolls a new account with a fresh master key, recovery phrase, salt and
/// nonce.
///
/// Whatever was drawn, the enrollment is as `enrolled` says, and the only
/// failure is that of the key derivation on what was drawn.
pub fn enroll() -> (out: Result<Enrollment, MilieuError>)
    ensures
        match out {
            Ok(enrollment) => enrolled(enrollment),
            Err(e) => enrollment_failure(e@),
        },
{
    let umk = generate_umk();
    let entropy: [u8; 16] = random_array::<16>();
    let salt: [u8; 16] = random_array::<16>();
    let nonce: [u8; 24] = random_array::<24>();
    let out = enroll_with(umk, &entropy, &salt, &nonce);
    proof {
        if out is Ok {
            let enrollment = out->Ok_0;
            assert(enrollment.phrase@ == bip39_phrase(entropy@));
            assert(default_params(enrollment.request, salt@));
        } else {
            assert(enrollment_key(entropy@, salt@) == Err::<Seq<u8>, ErrorModel>(out->Err_0@));
        }
    }
    out
}

/// The key that the phrase of an entropy derives under the default costs and a
/// salt, or the error of the derivation.
pub open spec fn enrollment_key(entropy: Seq<u8>, salt: Seq<u8>) -> Result<Seq<u8>, ErrorModel> {
    derive_key_spec(bip39_phrase(entropy), crate::b64::base64_text(salt), 65536, 3, 1)
}

/// Whether the parameters of `request` are the default costs (64 MiB, three
/// passes, one lane) with `salt` as base64 text.
pub open spec fn default_params(request: UmkResponse, salt: Seq<u8>) -> bool {
    &&& request.kdf_params.salt@ == crate::b64::base64_text(salt)
    &&& crate::b64::base64_decoded(request.kdf_params.salt@) == crate::b64::decoded_ok(salt)
    &&& request.kdf_params.m_cost == 65536
    &&& request.kdf_params.t_cost == 3
    &&& request.kdf_params.p_cost == 1
}

/// What holds of every enrollment: its phrase is the BIP-39 phrase of 16 bytes of
/// entropy, its parameters are the default costs with a salt of 16 bytes, and
/// what it publishes is schema version 1 and decrypts to its master key under
/// the key that its phrase derives.
pub open spec fn enrolled(enrollment: Enrollment) -> bool {
    &&& publishes(enrollment.request, enrollment.phrase@, enrollment.umk@)
    &&& exists|entropy: Seq<u8>|
        entropy.len() == 16 && enrollment.phrase@ == #[trigger] bip39_phrase(entropy)
    &&& exists|salt: Seq<u8>| salt.len() == 16 && #[trigger] default_params(enrollment.request, salt)
}

/// Whether `e` is the error of the key derivation for the phrase of some entropy
/// of 16 bytes and some salt of 16 bytes: the one way an enrollment fails.
pub open spec fn enrollment_failure(e: ErrorModel) -> bool {
    exists|entropy: Seq<u8>, salt: Seq<u8>|
        entropy.len() == 16 && salt.len() == 16 && #[trigger] enrollment_key(entropy, salt) == Err::<
            Seq<u8>,
            ErrorModel,
        >(e)
}

/// The complaint about a recovery phrase that does not open the master key.
pub open spec fn wrong_phrase() -> Seq<char> {
    "recovery phrase incorrect or does not match this account; run `milieu phrase show` to confirm, or `milieu logout` and login again with the correct phrase"@
}

/// What `recover_umk` returns.
pub open spec fn recover_spec(
    phrase: Seq<char>,
    salt: Seq<char>,
    m_cost: u32,
    t_cost: u32,
    p_cost: u32,
    blob: Seq<char>,
) -> Result<Seq<u8>, ErrorModel> {
    match derive_key_spec(phrase, salt, m_cost, t_cost, p_cost) {
        Err(e) => Err(e),
        Ok(pdk) => match umk_blob_spec(pdk, blob) {
            Ok(umk) => Ok(umk),
            Err(_) => Err(ErrorModel::CommandFailed(wrong_phrase())),
        },
    }
}

/// Recovers the user master key of an account from the recovery phrase and what
/// the remote holds. Fails where the key derivation fails, and with the request
/// to check the phrase where the blob does not open under it.
pub fn recover_umk(phrase: &str, response: &UmkResponse) -> (out: Result<[u8; UMK_LEN], MilieuError>)
    ensures
        crate::crypto::key_view(out) == recover_spec(
            phrase@,
            response.kdf_params.salt@,
            response.kdf_params.m_cost,
            response.kdf_params.t_cost,
            response.kdf_params.p_cost,
            response.encrypted_umk@,
        ),
{
    let pdk = match derive_key(phrase, &response.kdf_params) {
        Err(e) => {
            return Err(e);
        },
        Ok(key) => key,
    };
    match decrypt_umk_blob(&pdk, response.encrypted_umk.as_str()) {
        Ok(umk) => Ok(umk),
        Err(_) => Err(
            MilieuError::failed(
                "recovery phrase incorrect or does not match this account; run `milieu phrase show` to confirm, or `milieu logout` and login again with the correct phrase",
            ),
        ),
    }
}

/// The profile of a login: the one asked for, or the email, trimmed and in lower
/// case.
pub fn login_profile(profile_override: Option<&str>, email: &str) -> (out: String)
    ensures
        out@ == (match profile_override {
            Some(p) => p@,
            None => crate::text::normalized(email@),
        }),
{
    match profile_override {
        Some(p) => String::from_str(p),
        None => normalize(email),
    }
}

} // verus!
