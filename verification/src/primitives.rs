//! The outside primitives that the key hierarchy and the object format rest on:
//! XChaCha20-Poly1305, Argon2id, HKDF-SHA256, X25519 and the system's random
//! number generator.
//!
//! Each function here makes one outside call. What a primitive returns is named by
//! a function without a body; the contracts say no more of it than its crate
//! documents.

use vstd::prelude::*;
use argon2::{Algorithm, Argon2, Params, Version};
use bip39::{Language, Mnemonic};
use chacha20poly1305::aead::{Aead, KeyInit, Payload};
use chacha20poly1305::{Key, XChaCha20Poly1305, XNonce};
use chrono::{DateTime, Utc};
use hkdf::Hkdf;
use rand_core::{OsRng, RngCore};
use sha2::Sha256;
use similar::{ChangeTag, TextDiff};
use x25519_dalek::{PublicKey, StaticSecret};

verus! {

/// The view of an optional byte vector.
pub open spec fn opt_bytes(v: Option<Vec<u8>>) -> Option<Seq<u8>> {
    match v {
        Some(b) => Some(b@),
        None => None,
    }
}

/// XChaCha20-Poly1305 sealing: ciphertext followed by the 16-byte tag, or `None`
/// where the cipher refuses the message.
pub uninterp spec fn aead_seal(key: Seq<u8>, nonce: Seq<u8>, aad: Seq<u8>, msg: Seq<u8>) -> Option<
    Seq<u8>,
>;

/// XChaCha20-Poly1305 opening: the message, or `None` where authentication fails.
pub uninterp spec fn aead_open(
    key: Seq<u8>,
    nonce: Seq<u8>,
    aad: Seq<u8>,
    sealed: Seq<u8>,
) -> Option<Seq<u8>>;

/// Whether the cipher accepts a message of `n` bytes: fewer than `2^32 - 1` blocks
/// of 64 bytes.
pub open spec fn sealable(n: nat) -> bool {
    n / 64 < 0xffff_ffff
}

/// `XChaCha20Poly1305::encrypt` with a payload of message and associated data.
///
/// Trusted: the outcome is a function of key, nonce, associated data and message;
/// the cipher refuses exactly the messages of `2^32 - 1` blocks or more; what it
/// returns is 16 bytes longer than the message and opens, under the same key, nonce
/// and associated data, to the message.
#[verifier::external_body]
pub(crate) fn xchacha_seal(key: &[u8; 32], nonce: &[u8; 24], aad: &[u8], msg: &[u8]) -> (out:
    Option<Vec<u8>>)
    ensures
        opt_bytes(out) == aead_seal(key@, nonce@, aad@, msg@),
        out is Some <==> sealable(msg@.len()),
        out matches Some(sealed) ==> sealed@.len() == msg@.len() + 16,
        out matches Some(sealed) ==> aead_open(key@, nonce@, aad@, sealed@) == Some(msg@),
{
    let cipher = XChaCha20Poly1305::new(Key::from_slice(key));
    cipher.encrypt(XNonce::from_slice(nonce), Payload { msg, aad }).ok()
}

/// `XChaCha20Poly1305::decrypt` with a payload of ciphertext and associated data.
///
/// Trusted: the outcome is a function of key, nonce, associated data and
/// ciphertext.
#[verifier::external_body]
pub(crate) fn xchacha_open(key: &[u8; 32], nonce: &[u8; 24], aad: &[u8], sealed: &[u8]) -> (out:
    Option<Vec<u8>>)
    ensures
        opt_bytes(out) == aead_open(key@, nonce@, aad@, sealed@),
{
    let cipher = XChaCha20Poly1305::new(Key::from_slice(key));
    cipher.decrypt(XNonce::from_slice(nonce), Payload { msg: sealed, aad }).ok()
}

/// The complaint of Argon2's parameter validation, or `None` where the costs are
/// accepted: at least 8 KiB of memory and 8 KiB per lane, at least one pass, and
/// between 1 and `2^24 - 1` lanes.
pub open spec fn argon2_params_error(m_cost: u32, t_cost: u32, p_cost: u32) -> Option<Seq<char>> {
    if m_cost < 8 {
        Some("memory cost is too small"@)
    } else if m_cost < p_cost * 8 {
        Some("memory cost is too small"@)
    } else if t_cost < 1 {
        Some("time cost is too small"@)
    } else if p_cost < 1 {
        Some("not enough threads"@)
    } else if p_cost > 0xff_ffff {
        Some("too many threads"@)
    } else {
        None
    }
}

/// The view of the outcome of a parameter validation.
pub open spec fn complaint(out: Result<(), String>) -> Option<Seq<char>> {
    match out {
        Ok(_) => None,
        Err(why) => Some(why@),
    }
}

/// `argon2::Params::new` for an output of 32 bytes.
///
/// Trusted: it accepts and refuses as `argon2_params_error` says, and an error is
/// handed over as the text that the crate displays for it. The precondition keeps
/// the crate's own `p_cost * 8` within `u32`.
#[verifier::external_body]
pub(crate) fn argon2_check_params(m_cost: u32, t_cost: u32, p_cost: u32) -> (out: Result<
    (),
    String,
>)
    requires
        p_cost <= 0x1fff_ffff,
    ensures
        complaint(out) == argon2_params_error(m_cost, t_cost, p_cost),
{
    Params::new(m_cost, t_cost, p_cost, Some(32)).map(|_| ()).map_err(|e| e.to_string())
}

/// Argon2id, version 0x13, with an output of 32 bytes: the key, or the text of the
/// crate's error.
pub uninterp spec fn argon2id(
    password: Seq<u8>,
    salt: Seq<u8>,
    m_cost: u32,
    t_cost: u32,
    p_cost: u32,
) -> Result<Seq<u8>, Seq<char>>;

/// The view of the outcome of a key derivation.
pub open spec fn derived_view(out: Result<[u8; 32], String>) -> Result<Seq<u8>, Seq<char>> {
    match out {
        Ok(key) => Ok(key@),
        Err(why) => Err(why@),
    }
}

/// `Argon2::hash_password_into` on an Argon2id context of version 0x13.
///
/// Trusted: the outcome is a function of password, salt and costs. The
/// precondition asks for costs that `Params::new` accepts.
#[verifier::external_body]
pub(crate) fn argon2id_hash(
    password: &[u8],
    salt: &[u8],
    m_cost: u32,
    t_cost: u32,
    p_cost: u32,
) -> (out: Result<[u8; 32], String>)
    requires
        argon2_params_error(m_cost, t_cost, p_cost) is None,
    ensures
        derived_view(out) == argon2id(password@, salt@, m_cost, t_cost, p_cost),
{
    let params = Params::new(m_cost, t_cost, p_cost, Some(32)).map_err(|e| e.to_string())?;
    let mut key = [0u8; 32];
    Argon2::new(Algorithm::Argon2id, Version::V0x13, params)
        .hash_password_into(password, salt, &mut key)
        .map_err(|e| e.to_string())?;
    Ok(key)
}

/// HKDF-SHA256 with an empty salt and an output of 32 bytes.
pub uninterp spec fn hkdf_sha256(ikm: Seq<u8>, info: Seq<u8>) -> Seq<u8>;

/// `Hkdf::<Sha256>::new` without salt, then `expand` into 32 bytes.
///
/// Trusted: the key is a function of input key material and info. `expand` fails
/// only for outputs longer than 255 hashes, so for 32 bytes it succeeds.
#[verifier::external_body]
pub(crate) fn hkdf_expand(ikm: &[u8], info: &[u8]) -> (out: Option<[u8; 32]>)
    ensures
        out is Some,
        out matches Some(key) ==> key@ == hkdf_sha256(ikm@, info@),
{
    let mut key = [0u8; 32];
    Hkdf::<Sha256>::new(None, ikm).expand(info, &mut key).ok().map(|_| key)
}

/// The X25519 public key of a secret key.
pub uninterp spec fn x25519_public(secret: Seq<u8>) -> Seq<u8>;

/// The X25519 shared secret of a secret key and a public key.
pub uninterp spec fn x25519_shared(secret: Seq<u8>, public: Seq<u8>) -> Seq<u8>;

/// `PublicKey::from(&StaticSecret)`.
///
/// Trusted: the public key is a function of the secret key.
#[verifier::external_body]
pub(crate) fn x25519_public_key(secret: &[u8; 32]) -> (out: [u8; 32])
    ensures
        out@ == x25519_public(secret@),
{
    PublicKey::from(&StaticSecret::from(*secret)).to_bytes()
}

/// `StaticSecret::diffie_hellman`.
///
/// Trusted: the shared secret is a function of the two keys, and it is the one
/// that the holder of the other secret key computes from this side's public key.
#[verifier::external_body]
pub(crate) fn x25519_agree(secret: &[u8; 32], public: &[u8; 32]) -> (out: [u8; 32])
    ensures
        out@ == x25519_shared(secret@, public@),
        forall|other: Seq<u8>|
            other.len() == 32 && public@ == #[trigger] x25519_public(other) ==> out@
                == x25519_shared(other, x25519_public(secret@)),
{
    StaticSecret::from(*secret).diffie_hellman(&PublicKey::from(*public)).to_bytes()
}

/// `OsRng.fill_bytes` on a fresh array.
///
/// Trusted: nothing is claimed of the bytes.
#[verifier::external_body]
pub(crate) fn random_array<const N: usize>() -> (out: [u8; N]) {
    let mut out = [0u8; N];
    OsRng.fill_bytes(&mut out);
    out
}

/// `StaticSecret::random_from_rng` on the system's generator.
///
/// Trusted: nothing is claimed of the bytes.
#[verifier::external_body]
pub(crate) fn random_secret() -> (out: [u8; 32]) {
    StaticSecret::random_from_rng(OsRng).to_bytes()
}

/// What `String::from_utf8_lossy` makes of a byte string.
pub uninterp spec fn utf8_lossy(bytes: Seq<u8>) -> Seq<char>;

/// `String::from_utf8_lossy`.
///
/// Trusted: the text is a function of the bytes, and for well-formed UTF-8 it is
/// the text that the bytes encode.
#[verifier::external_body]
pub(crate) fn lossy_text(bytes: &[u8]) -> (out: String)
    ensures
        out@ == utf8_lossy(bytes@),
        vstd::utf8::valid_utf8(bytes@) ==> out@ == vstd::utf8::decode_utf8(bytes@),
{
    String::from_utf8_lossy(bytes).into_owned()
}


/// The English BIP-39 phrase of an entropy of 16 bytes: twelve words.
pub uninterp spec fn bip39_phrase(entropy: Seq<u8>) -> Seq<char>;

/// `Mnemonic::from_entropy_in` for English, then the phrase as text.
///
/// Trusted: the phrase is a function of the entropy. The crate refuses only
/// entropies that are not 16 to 32 bytes in steps of four, so for 16 bytes it
/// succeeds.
#[verifier::external_body]
pub(crate) fn mnemonic_phrase(entropy: &[u8; 16]) -> (out: Option<String>)
    ensures
        out is Some,
        out matches Some(phrase) ==> phrase@ == bip39_phrase(entropy@),
{
    Mnemonic::from_entropy_in(Language::English, entropy).ok().map(|m| m.to_string())
}


/// The whole days from one RFC 3339 time to another; `None` where either text is
/// no such time.
pub uninterp spec fn days_between(then: Seq<char>, now: Seq<char>) -> Option<i64>;

/// `DateTime::parse_from_rfc3339` on both texts, then the whole days of the
/// difference of the two times.
///
/// Trusted: the outcome is a function of the two texts.
#[verifier::external_body]
pub(crate) fn whole_days_between(then: &str, now: &str) -> (out: Option<i64>)
    ensures
        out == days_between(then@, now@),
{
    let start = DateTime::parse_from_rfc3339(then).ok()?.with_timezone(&Utc);
    let end = DateTime::parse_from_rfc3339(now).ok()?.with_timezone(&Utc);
    Some(end.signed_duration_since(start).num_days())
}

/// The line diff of two texts: one entry per line of the diff, 0 for a line that
/// both hold, 1 for a line that only the old text holds, 2 for a line that only
/// the new text holds.
pub uninterp spec fn line_diff(old_text: Seq<char>, new_text: Seq<char>) -> Seq<u8>;

/// `TextDiff::from_lines`, then the tag of every change.
///
/// Trusted: the tags are a function of the two texts, and each is 0, 1 or 2.
#[verifier::external_body]
pub(crate) fn line_changes(old_text: &str, new_text: &str) -> (out: Vec<u8>)
    ensures
        out@ == line_diff(old_text@, new_text@),
        forall|i: int| 0 <= i < out@.len() ==> #[trigger] out@[i] <= 2,
{
    let diff = TextDiff::from_lines(old_text, new_text);
    diff.iter_all_changes().map(|change| match change.tag() {
        ChangeTag::Equal => 0u8,
        ChangeTag::Delete => 1u8,
        ChangeTag::Insert => 2u8,
    }).collect()
}

} // verus!
