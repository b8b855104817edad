//! Encryption of objects and the key hierarchy: the user master key, the user key
//! pair, and the wrapping of repository keys.

use vstd::prelude::*;
use vstd::string::*;
use vstd::utf8::encode_utf8;
use crate::b64::{
    base64_decode, base64_decoded, base64_encode, base64_text, can_encode, encodable, encode_24,
    encode_32, is_base64_char,
};
use crate::error::{ErrorModel, MilieuError};
use crate::primitives::{
    aead_open, aead_seal, argon2_check_params, argon2_params_error, argon2id, argon2id_hash,
    hkdf_expand, hkdf_sha256, random_array, random_secret, sealable, x25519_agree,
    x25519_public, x25519_public_key, x25519_shared, xchacha_open, xchacha_seal,
};
use crate::text::{
    chars_of, concat2, decimal, decimal_text, find_char, find_from, lemma_decimal_digits,
    lemma_decimal_injective, lemma_find_from_is, lemma_split_once_joined, range_is,
    };

verus! {

/// Bytes in a user master key, a repository key and each half of a key pair.
pub const UMK_LEN: usize = 32;

/// Bytes in a nonce.
pub const NONCE_LEN: usize = 24;

/// An X25519 key pair, each half as base64 text.
#[derive(Debug)]
pub struct KeyPair {
    pub private_key_b64: String,
    pub public_key_b64: String,
}

impl Clone for KeyPair {
    fn clone(&self) -> (out: Self)
        ensures
            out.private_key_b64@ == self.private_key_b64@,
            out.public_key_b64@ == self.public_key_b64@,
    {
        KeyPair {
            private_key_b64: self.private_key_b64.clone(),
            public_key_b64: self.public_key_b64.clone(),
        }
    }
}

/// The Argon2id configuration under which a passphrase becomes a key.
#[derive(Debug)]
pub struct KdfParams {
    /// The salt, as base64 text.
    pub salt: String,
    /// Memory, in KiB.
    pub m_cost: u32,
    /// Passes.
    pub t_cost: u32,
    /// Lanes.
    pub p_cost: u32,
}

impl Clone for KdfParams {
    fn clone(&self) -> (out: Self)
        ensures
            out.salt@ == self.salt@,
            out.m_cost == self.m_cost,
            out.t_cost == self.t_cost,
            out.p_cost == self.p_cost,
    {
        KdfParams {
            salt: self.salt.clone(),
            m_cost: self.m_cost,
            t_cost: self.t_cost,
            p_cost: self.p_cost,
        }
    }
}

/// The view of an outcome that is 32 bytes or an error.
pub open spec fn key_view(out: Result<[u8; UMK_LEN], MilieuError>) -> Result<Seq<u8>, ErrorModel> {
    match out {
        Ok(key) => Ok(key@),
        Err(e) => Err(e@),
    }
}

/// The view of an outcome that is a byte string or an error.
pub open spec fn bytes_view(out: Result<Vec<u8>, MilieuError>) -> Result<Seq<u8>, ErrorModel> {
    match out {
        Ok(bytes) => Ok(bytes@),
        Err(e) => Err(e@),
    }
}

/// The view of an outcome that is a text or an error.
pub open spec fn text_view(out: Result<String, MilieuError>) -> Result<Seq<char>, ErrorModel> {
    match out {
        Ok(text) => Ok(text@),
        Err(e) => Err(e@),
    }
}

/// Decoding base64 text that must hold exactly `len` bytes. `bad_text` is the
/// start of the complaint about text that is no base64, `bad_len` the complaint
/// about another length.
pub open spec fn decode_fixed(
    text: Seq<char>,
    len: nat,
    bad_text: Seq<char>,
    bad_len: Seq<char>,
) -> Result<Seq<u8>, ErrorModel> {
    match base64_decoded(text) {
        Err(why) => Err(ErrorModel::Crypto(bad_text + why)),
        Ok(bytes) => if bytes.len() != len {
            Err(ErrorModel::Crypto(bad_len))
        } else {
            Ok(bytes)
        },
    }
}

fn to_array_32(bytes: &Vec<u8>) -> (out: [u8; 32])
    requires
        bytes.len() == 32,
    ensures
        out@ == bytes@,
{
    let mut out: [u8; 32] = [0u8; 32];
    let mut i: usize = 0;
    while i < 32
        invariant
            i <= 32,
            bytes.len() == 32,
            forall|j: int| 0 <= j < i ==> out@[j] == bytes@[j],
        decreases 32 - i,
    {
        out[i] = bytes[i];
        i += 1;
    }
    assert(out@ =~= bytes@);
    out
}

fn to_array_24(bytes: &Vec<u8>) -> (out: [u8; 24])
    requires
        bytes.len() == 24,
    ensures
        out@ == bytes@,
{
    let mut out: [u8; 24] = [0u8; 24];
    let mut i: usize = 0;
    while i < 24
        invariant
            i <= 24,
            bytes.len() == 24,
            forall|j: int| 0 <= j < i ==> out@[j] == bytes@[j],
        decreases 24 - i,
    {
        out[i] = bytes[i];
        i += 1;
    }
    assert(out@ =~= bytes@);
    out
}

fn decode_32(text: &str, bad_text: &str, bad_len: &str) -> (out: Result<[u8; 32], MilieuError>)
    ensures
        key_view(out) == decode_fixed(text@, 32, bad_text@, bad_len@),
{
    match base64_decode(text) {
        Err(why) => Err(MilieuError::Crypto(concat2(bad_text, why.as_str()))),
        Ok(bytes) => {
            if bytes.len() != 32 {
                Err(MilieuError::crypto(bad_len))
            } else {
                Ok(to_array_32(&bytes))
            }
        },
    }
}

/// What `decrypt_bytes` returns.
pub open spec fn decrypt_spec(
    key: Seq<u8>,
    aad: Seq<u8>,
    nonce_b64: Seq<char>,
    ciphertext_b64: Seq<char>,
) -> Result<Seq<u8>, ErrorModel> {
    match decode_fixed(nonce_b64, 24, "invalid nonce base64: "@, "invalid nonce length"@) {
        Err(e) => Err(e),
        Ok(nonce) => match base64_decoded(ciphertext_b64) {
            Err(why) => Err(ErrorModel::Crypto("invalid ciphertext base64: "@ + why)),
            Ok(sealed) => match aead_open(key, nonce, aad, sealed) {
                Some(plain) => Ok(plain),
                None => Err(ErrorModel::Crypto("decrypt: aead::Error"@)),
            },
        },
    }
}

/// Whether a plaintext of `n` bytes can be sealed and its ciphertext written as
/// base64.
pub open spec fn encryptable(n: nat) -> bool {
    sealable(n) && encodable(n + 16)
}

/// The nonce and the ciphertext of an encryption, both as base64 text.
pub open spec fn sealed_pair(key: Seq<u8>, nonce: Seq<u8>, aad: Seq<u8>, plain: Seq<u8>) -> (
    Seq<char>,
    Seq<char>,
) {
    (base64_text(nonce), base64_text(aead_seal(key, nonce, aad, plain).unwrap()))
}

/// The view of a pair of texts.
pub open spec fn pair_view(pair: (String, String)) -> (Seq<char>, Seq<char>) {
    (pair.0@, pair.1@)
}

/// Encrypts `plaintext` under `key` with the given nonce, binding `aad`.
///
/// Succeeds exactly on plaintexts that are `encryptable`. The pair returned is
/// `sealed_pair`, and `decrypt_bytes` turns it back into the plaintext under the
/// same key and associated data.
pub fn encrypt_with_nonce(
    key: &[u8; UMK_LEN],
    nonce: &[u8; NONCE_LEN],
    aad: &[u8],
    plaintext: &[u8],
) -> (out: Result<(String, String), MilieuError>)
    ensures
        out is Ok <==> encryptable(plaintext@.len()),
        out matches Ok(pair) ==> {
            &&& pair_view(pair) == sealed_pair(key@, nonce@, aad@, plaintext@)
            &&& base64_decoded(pair.0@) == crate::b64::decoded_ok(nonce@)
            &&& aead_seal(key@, nonce@, aad@, plaintext@) is Some
            &&& decrypt_spec(key@, aad@, pair.0@, pair.1@) == Ok::<Seq<u8>, ErrorModel>(plaintext@)
            &&& forall|i: int| 0 <= i < pair.0@.len() ==> is_base64_char(#[trigger] pair.0@[i])
            &&& forall|i: int| 0 <= i < pair.1@.len() ==> is_base64_char(#[trigger] pair.1@[i])
        },
        out matches Err(e) ==> e@ == ErrorModel::Crypto("encrypt: aead::Error"@),
{
    match xchacha_seal(key, nonce, aad, plaintext) {
        None => Err(MilieuError::crypto("encrypt: aead::Error")),
        Some(sealed) => {
            if !can_encode(sealed.len()) {
                return Err(MilieuError::crypto("encrypt: aead::Error"));
            }
            let nonce_b64 = encode_24(nonce);
            let sealed_b64 = base64_encode(sealed.as_slice());
            Ok((nonce_b64, sealed_b64))
        },
    }
}

/// Encrypts `plaintext` under `key` with a fresh random nonce, binding `aad`.
///
/// Succeeds exactly on plaintexts that are `encryptable`. Whatever nonce was
/// drawn, `decrypt_bytes` turns the pair returned back into the plaintext under
/// the same key and associated data.
pub fn encrypt_bytes(key: &[u8; UMK_LEN], aad: &[u8], plaintext: &[u8]) -> (out: Result<
    (String, String),
    MilieuError,
>)
    ensures
        out is Ok <==> encryptable(plaintext@.len()),
        out matches Ok(pair) ==> {
            &&& base64_decoded(pair.0@) matches Ok(nonce) && nonce.len() == 24 && pair_view(pair)
                == sealed_pair(key@, nonce, aad@, plaintext@)
            &&& decrypt_spec(key@, aad@, pair.0@, pair.1@) == Ok::<Seq<u8>, ErrorModel>(plaintext@)
            &&& forall|i: int| 0 <= i < pair.0@.len() ==> is_base64_char(#[trigger] pair.0@[i])
            &&& forall|i: int| 0 <= i < pair.1@.len() ==> is_base64_char(#[trigger] pair.1@[i])
        },
        out matches Err(e) ==> e@ == ErrorModel::Crypto("encrypt: aead::Error"@),
{
    let nonce: [u8; 24] = random_array::<24>();
    encrypt_with_nonce(key, &nonce, aad, plaintext)
}

/// Decrypts what `encrypt_bytes` made. Fails on text that is no base64, on a
/// nonce of another length than 24 bytes, and where the cipher does not
/// authenticate the ciphertext under `key` and `aad`.
pub fn decrypt_bytes(key: &[u8; UMK_LEN], aad: &[u8], nonce_b64: &str, ciphertext_b64: &str) -> (out:
    Result<Vec<u8>, MilieuError>)
    ensures
        bytes_view(out) == decrypt_spec(key@, aad@, nonce_b64@, ciphertext_b64@),
{
    let nonce_bytes = match base64_decode(nonce_b64) {
        Err(why) => {
            return Err(MilieuError::Crypto(concat2("invalid nonce base64: ", why.as_str())));
        },
        Ok(bytes) => bytes,
    };
    if nonce_bytes.len() != 24 {
        return Err(MilieuError::crypto("invalid nonce length"));
    }
    let nonce = to_array_24(&nonce_bytes);
    let sealed = match base64_decode(ciphertext_b64) {
        Err(why) => {
            return Err(MilieuError::Crypto(concat2("invalid ciphertext base64: ", why.as_str())));
        },
        Ok(bytes) => bytes,
    };
    match xchacha_open(key, &nonce, aad, sealed.as_slice()) {
        Some(plain) => Ok(plain),
        None => Err(MilieuError::crypto("decrypt: aead::Error")),
    }
}

/// The text that binds an object to its place: the schema version, the
/// repository, the branch, the path, and the tag or `-`.
pub open spec fn aad_text(
    schema_version: u32,
    repo_id: Seq<char>,
    branch: Seq<char>,
    path: Seq<char>,
    tag: Option<Seq<char>>,
) -> Seq<char> {
    "v"@ + decimal_text(schema_version as nat) + "|"@ + repo_id + "|"@ + branch + "|"@ + path
        + "|"@ + (match tag {
        Some(t) => t,
        None => "-"@,
    })
}

/// The view of an optional string slice.
pub open spec fn opt_str_view(s: Option<&str>) -> Option<Seq<char>> {
    match s {
        Some(t) => Some(t@),
        None => None,
    }
}

/// The associated data of an object: the UTF-8 bytes of
/// `v{version}|{repo_id}|{branch}|{path}|{tag or -}`.
pub fn aad_for(schema_version: u32, repo_id: &str, branch: &str, path: &str, tag: Option<&str>) -> (out:
    Vec<u8>)
    ensures
        out@ == encode_utf8(aad_text(schema_version, repo_id@, branch@, path@, opt_str_view(tag))),
{
    let mut text = String::from_str("v");
    let version = decimal(schema_version as u128);
    text.append(version.as_str());
    text.append("|");
    text.append(repo_id);
    text.append("|");
    text.append(branch);
    text.append("|");
    text.append(path);
    text.append("|");
    match tag {
        Some(t) => text.append(t),
        None => text.append("-"),
    }
    text.as_str().as_bytes_vec()
}

/// The base64 text of a key.
pub fn encode_key(key: &[u8; UMK_LEN]) -> (out: String)
    ensures
        out@ == base64_text(key@),
        decode_key_spec(out@) == Ok::<Seq<u8>, ErrorModel>(key@),
{
    encode_32(key)
}

/// What `decode_key` returns.
pub open spec fn decode_key_spec(encoded: Seq<char>) -> Result<Seq<u8>, ErrorModel> {
    decode_fixed(encoded, 32, "invalid key base64: "@, "invalid key length"@)
}

/// Reads a key from base64 text. Fails on text that is no base64 and on another
/// length than 32 bytes.
pub fn decode_key(encoded: &str) -> (out: Result<[u8; UMK_LEN], MilieuError>)
    ensures
        key_view(out) == decode_key_spec(encoded@),
{
    decode_32(encoded, "invalid key base64: ", "invalid key length")
}


/// The view of Argon2id parameters: the salt text and the three costs.
pub open spec fn kdf_view(params: KdfParams) -> (Seq<char>, u32, u32, u32) {
    (params.salt@, params.m_cost, params.t_cost, params.p_cost)
}

/// What `derive_key` returns: a function of the passphrase and the parameters
/// alone.
pub open spec fn derive_key_spec(
    passphrase: Seq<char>,
    salt_b64: Seq<char>,
    m_cost: u32,
    t_cost: u32,
    p_cost: u32,
) -> Result<Seq<u8>, ErrorModel> {
    match base64_decoded(salt_b64) {
        Err(why) => Err(ErrorModel::Crypto("invalid base64 salt: "@ + why)),
        Ok(salt) => match argon2_params_error(m_cost, t_cost, p_cost) {
            Some(why) => Err(ErrorModel::Crypto("argon2 params: "@ + why)),
            None => match argon2id(encode_utf8(passphrase), salt, m_cost, t_cost, p_cost) {
                Ok(key) => Ok(key),
                Err(why) => Err(ErrorModel::Crypto("argon2 derive: "@ + why)),
            },
        },
    }
}

impl KdfParams {
    /// Default costs (64 MiB, three passes, one lane) with the given salt.
    pub fn with_salt(salt: &[u8; 16]) -> (out: KdfParams)
        ensures
            out.salt@ == base64_text(salt@),
            base64_decoded(out.salt@) == crate::b64::decoded_ok(salt@),
            out.m_cost == 65536,
            out.t_cost == 3,
            out.p_cost == 1,
    {
        KdfParams { salt: base64_encode(salt.as_slice()), m_cost: 65536, t_cost: 3, p_cost: 1 }
    }

    /// Default costs (64 MiB, three passes, one lane) with a fresh random salt of
    /// 16 bytes.
    pub fn new_default() -> (out: KdfParams)
        ensures
            base64_decoded(out.salt@) matches Ok(salt) && salt.len() == 16 && out.salt@
                == base64_text(salt),
            out.m_cost == 65536,
            out.t_cost == 3,
            out.p_cost == 1,
    {
        let salt: [u8; 16] = random_array::<16>();
        KdfParams::with_salt(&salt)
    }
}

/// Derives a 32-byte key from a passphrase with Argon2id as `params` says.
///
/// The key is a function of the passphrase and the parameters alone. Fails on a
/// salt that is no base64, on costs that Argon2 refuses, and where Argon2 itself
/// fails.
pub fn derive_key(passphrase: &str, params: &KdfParams) -> (out: Result<[u8; UMK_LEN], MilieuError>)
    ensures
        key_view(out) == derive_key_spec(
            passphrase@,
            params.salt@,
            params.m_cost,
            params.t_cost,
            params.p_cost,
        ),
{
    let salt = match base64_decode(params.salt.as_str()) {
        Err(why) => {
            return Err(MilieuError::Crypto(concat2("invalid base64 salt: ", why.as_str())));
        },
        Ok(bytes) => bytes,
    };
    if params.p_cost > 0x1fff_ffff {
        // Eight times the lanes is beyond any memory cost.
        proof {
            reveal_strlit("argon2 params: memory cost is too small");
            reveal_strlit("argon2 params: ");
            reveal_strlit("memory cost is too small");
            assert("argon2 params: memory cost is too small"@ =~= "argon2 params: "@
                + "memory cost is too small"@);
        }
        return Err(MilieuError::crypto("argon2 params: memory cost is too small"));
    }
    match argon2_check_params(params.m_cost, params.t_cost, params.p_cost) {
        Err(why) => {
            return Err(MilieuError::Crypto(concat2("argon2 params: ", why.as_str())));
        },
        Ok(_) => {},
    }
    match argon2id_hash(
        passphrase.as_bytes(),
        salt.as_slice(),
        params.m_cost,
        params.t_cost,
        params.p_cost,
    ) {
        Ok(key) => Ok(key),
        Err(why) => Err(MilieuError::Crypto(concat2("argon2 derive: ", why.as_str()))),
    }
}

/// A fresh random user master key.
pub fn generate_umk() -> (out: [u8; UMK_LEN]) {
    random_array::<32>()
}

/// Whether `public_b64` is the public half of the private key `private_b64`: both
/// are base64 of 32 bytes, and the second is the X25519 public key of the first.
pub open spec fn key_pair_matches(private_b64: Seq<char>, public_b64: Seq<char>) -> bool {
    match base64_decoded(private_b64) {
        Ok(secret) => secret.len() == 32 && base64_decoded(public_b64) == crate::b64::decoded_ok(
            x25519_public(secret),
        ),
        Err(_) => false,
    }
}

/// Whether a repository key can be wrapped for `public_b64`: it is base64 of 32
/// bytes.
pub open spec fn wrappable(public_b64: Seq<char>) -> bool {
    decode_fixed(public_b64, 32, "invalid public key base64: "@, "invalid public key length"@) is Ok
}

/// The key pair of a secret key: the secret and its X25519 public key, both as
/// base64 text.
pub fn keypair_from_secret(secret: &[u8; UMK_LEN]) -> (out: KeyPair)
    ensures
        out.private_key_b64@ == base64_text(secret@),
        out.public_key_b64@ == base64_text(x25519_public(secret@)),
        key_pair_matches(out.private_key_b64@, out.public_key_b64@),
        wrappable(out.public_key_b64@),
{
    let public = x25519_public_key(secret);
    KeyPair { private_key_b64: encode_32(secret), public_key_b64: encode_32(&public) }
}

/// A fresh random key pair. Whatever secret was drawn, the public half is the
/// X25519 public key of the private half.
pub fn generate_keypair() -> (out: Result<KeyPair, MilieuError>)
    ensures
        out matches Ok(pair) && key_pair_matches(pair.private_key_b64@, pair.public_key_b64@),
{
    let secret = random_secret();
    Ok(keypair_from_secret(&secret))
}

/// The info string under which the user key pair is derived from the master key.
pub open spec fn user_keypair_info() -> Seq<u8> {
    encode_utf8("milieu:user-keypair:v1"@)
}

/// The info string under which a wrapping key is derived from a shared secret.
pub open spec fn repo_key_wrap_info() -> Seq<u8> {
    encode_utf8("milieu:repo-key-wrap"@)
}

/// The associated data of a wrapped repository key.
pub open spec fn repo_key_aad() -> Seq<u8> {
    encode_utf8("milieu:repo-key:v1"@)
}

/// The associated data of an encrypted user master key.
pub open spec fn umk_aad() -> Seq<u8> {
    encode_utf8("milieu:umk:v1"@)
}

/// The user key pair that belongs to a master key: its secret is HKDF-SHA256 of
/// the master key under `milieu:user-keypair:v1`.
pub fn derive_keypair_from_umk(umk: &[u8; UMK_LEN]) -> (out: Result<KeyPair, MilieuError>)
    ensures
        out matches Ok(pair) && {
            let seed = hkdf_sha256(umk@, user_keypair_info());
            &&& pair.private_key_b64@ == base64_text(seed)
            &&& pair.public_key_b64@ == base64_text(x25519_public(seed))
            &&& key_pair_matches(pair.private_key_b64@, pair.public_key_b64@)
            &&& wrappable(pair.public_key_b64@)
        },
{
    match hkdf_expand(umk.as_slice(), "milieu:user-keypair:v1".as_bytes()) {
        Some(seed) => Ok(keypair_from_secret(&seed)),
        None => Err(MilieuError::crypto("hkdf expand failed")),
    }
}

/// What `public_key_from_private` returns.
pub open spec fn public_of(private_b64: Seq<char>) -> Result<Seq<char>, ErrorModel> {
    match decode_fixed(
        private_b64,
        32,
        "invalid private key base64: "@,
        "invalid private key length"@,
    ) {
        Ok(secret) => Ok(base64_text(x25519_public(secret))),
        Err(e) => Err(e),
    }
}

/// The public half that belongs to a private key. Fails on text that is no
/// base64 and on another length than 32 bytes.
pub fn public_key_from_private(private_key_b64: &str) -> (out: Result<String, MilieuError>)
    ensures
        text_view(out) == public_of(private_key_b64@),
        out matches Ok(public) ==> key_pair_matches(private_key_b64@, public@),
{
    match decode_32(private_key_b64, "invalid private key base64: ", "invalid private key length") {
        Err(e) => Err(e),
        Ok(secret) => {
            let public = x25519_public_key(&secret);
            Ok(encode_32(&public))
        },
    }
}


/// The three fields that follow the version in a wrapped repository key: the
/// ephemeral public key, the nonce and the ciphertext, each as base64 text.
pub struct WrappedParts {
    pub ephemeral: Seq<char>,
    pub nonce: Seq<char>,
    pub ciphertext: Seq<char>,
}

/// Reading a wrapped repository key `v1:<ephemeral>:<nonce>:<ciphertext>`. The
/// text before the first colon must be `v1`; the ciphertext is all that follows
/// the third colon.
pub open spec fn wrapped_parts(blob: Seq<char>) -> Result<WrappedParts, ErrorModel> {
    let i = find_from(blob, ':', 0);
    let j = find_from(blob, ':', i + 1);
    let k = find_from(blob, ':', j + 1);
    if blob.subrange(0, i) != "v1"@ {
        Err(ErrorModel::Crypto("unsupported repo key version"@))
    } else if i >= blob.len() || j >= blob.len() || k >= blob.len() {
        Err(ErrorModel::Crypto("invalid repo key blob"@))
    } else {
        Ok(
            WrappedParts {
                ephemeral: blob.subrange(i + 1, j),
                nonce: blob.subrange(j + 1, k),
                ciphertext: blob.subrange(k + 1, blob.len() as int),
            },
        )
    }
}

/// The text of a wrapped repository key with the given fields.
pub open spec fn wrapped_text(ephemeral: Seq<char>, nonce: Seq<char>, ciphertext: Seq<char>) -> Seq<
    char,
> {
    "v1:"@ + ephemeral + ":"@ + nonce + ":"@ + ciphertext
}

/// A wrapped repository key whose first two fields hold no colon reads back as
/// the fields it was written from.
pub proof fn lemma_wrapped_parts_of_text(
    ephemeral: Seq<char>,
    nonce: Seq<char>,
    ciphertext: Seq<char>,
)
    requires
        !ephemeral.contains(':'),
        !nonce.contains(':'),
    ensures
        wrapped_parts(wrapped_text(ephemeral, nonce, ciphertext)) == Ok::<WrappedParts, ErrorModel>(
            WrappedParts { ephemeral, nonce, ciphertext },
        ),
{
    reveal_strlit("v1:");
    reveal_strlit("v1");
    reveal_strlit(":");
    let blob = wrapped_text(ephemeral, nonce, ciphertext);
    let i: int = 2;
    let j: int = 3 + ephemeral.len() as int;
    let k: int = j + 1 + nonce.len() as int;
    assert(blob.len() == k + 1 + ciphertext.len());
    assert(blob[0] == 'v' && blob[1] == '1' && blob[2] == ':');
    lemma_find_from_is(blob, ':', 0, i);
    assert forall|x: int| i + 1 <= x < j implies blob[x] != ':' by {
        assert(blob[x] == ephemeral[x - 3]);
        assert(ephemeral.contains(ephemeral[x - 3]));
    }
    assert(blob[j] == ':');
    lemma_find_from_is(blob, ':', i + 1, j);
    assert forall|x: int| j + 1 <= x < k implies blob[x] != ':' by {
        assert(blob[x] == nonce[x - j - 1]);
        assert(nonce.contains(nonce[x - j - 1]));
    }
    assert(blob[k] == ':');
    lemma_find_from_is(blob, ':', j + 1, k);
    assert(blob.subrange(0, i) =~= "v1"@);
    assert(blob.subrange(i + 1, j) =~= ephemeral);
    assert(blob.subrange(j + 1, k) =~= nonce);
    assert(blob.subrange(k + 1, blob.len() as int) =~= ciphertext);
}

/// Text made of base64 characters holds no colon.
pub proof fn lemma_base64_has_no_colon(text: Seq<char>)
    requires
        forall|i: int| 0 <= i < text.len() ==> is_base64_char(#[trigger] text[i]),
    ensures
        !text.contains(':'),
{
    if text.contains(':') {
        let i = choose|i: int| 0 <= i < text.len() && text[i] == ':';
        assert(is_base64_char(text[i]));
    }
}

/// What `unwrap_repo_key_with_private_key` returns.
pub open spec fn unwrap_spec(private_b64: Seq<char>, blob: Seq<char>) -> Result<
    Seq<u8>,
    ErrorModel,
> {
    match wrapped_parts(blob) {
        Err(e) => Err(e),
        Ok(parts) => match decode_fixed(
            private_b64,
            32,
            "invalid private key base64: "@,
            "invalid private key length"@,
        ) {
            Err(e) => Err(e),
            Ok(secret) => match decode_fixed(
                parts.ephemeral,
                32,
                "invalid ephemeral key base64: "@,
                "invalid ephemeral key length"@,
            ) {
                Err(e) => Err(e),
                Ok(ephemeral) => {
                    let wrap_key = hkdf_sha256(
                        x25519_shared(secret, ephemeral),
                        repo_key_wrap_info(),
                    );
                    match decrypt_spec(wrap_key, repo_key_aad(), parts.nonce, parts.ciphertext) {
                        Err(e) => Err(e),
                        Ok(plain) => if plain.len() != 32 {
                            Err(ErrorModel::Crypto("invalid repo key length"@))
                        } else {
                            Ok(plain)
                        },
                    }
                },
            },
        },
    }
}

/// What `wrap_repo_key_with` returns for a recipient key that decodes: the blob
/// made with the given ephemeral secret and nonce.
pub open spec fn wrap_spec(
    repo_key: Seq<u8>,
    recipient_b64: Seq<char>,
    ephemeral: Seq<u8>,
    nonce: Seq<u8>,
) -> Result<Seq<char>, ErrorModel> {
    match decode_fixed(
        recipient_b64,
        32,
        "invalid public key base64: "@,
        "invalid public key length"@,
    ) {
        Err(e) => Err(e),
        Ok(recipient) => {
            let wrap_key = hkdf_sha256(x25519_shared(ephemeral, recipient), repo_key_wrap_info());
            let pair = sealed_pair(wrap_key, nonce, repo_key_aad(), repo_key);
            Ok(wrapped_text(base64_text(x25519_public(ephemeral)), pair.0, pair.1))
        },
    }
}

/// Wraps a repository key for a recipient with the given ephemeral secret and
/// nonce.
///
/// Fails only on a recipient key that is no base64 of 32 bytes. The blob
/// unwraps to the repository key under every private key whose public half is
/// the recipient key.
pub fn wrap_repo_key_with(
    repo_key: &[u8; UMK_LEN],
    recipient_public_b64: &str,
    ephemeral: &[u8; UMK_LEN],
    nonce: &[u8; NONCE_LEN],
) -> (out: Result<String, MilieuError>)
    ensures
        text_view(out) == wrap_spec(repo_key@, recipient_public_b64@, ephemeral@, nonce@),
        out matches Ok(blob) ==> forall|private_b64: Seq<char>|
            key_pair_matches(private_b64, recipient_public_b64@) ==> #[trigger] unwrap_spec(
                private_b64,
                blob@,
            ) == Ok::<Seq<u8>, ErrorModel>(repo_key@),
{
    let recipient = match decode_32(
        recipient_public_b64,
        "invalid public key base64: ",
        "invalid public key length",
    ) {
        Err(e) => {
            return Err(e);
        },
        Ok(key) => key,
    };
    let ephemeral_public = x25519_public_key(ephemeral);
    let shared = x25519_agree(ephemeral, &recipient);
    let wrap_key = match hkdf_expand(shared.as_slice(), "milieu:repo-key-wrap".as_bytes()) {
        Some(key) => key,
        None => {
            return Err(MilieuError::crypto("hkdf expand failed"));
        },
    };
    let aad = "milieu:repo-key:v1".as_bytes();
    assert(encryptable(32)) by {
        assert(32nat / 64 == 0);
        assert(crate::b64::base64_len(48) == 64);
    }
    let (nonce_b64, sealed_b64) = match encrypt_with_nonce(
        &wrap_key,
        nonce,
        aad,
        repo_key.as_slice(),
    ) {
        Ok(pair) => pair,
        Err(e) => {
            return Err(e);
        },
    };
    let ephemeral_b64 = encode_32(&ephemeral_public);
    let mut blob = String::from_str("v1:");
    blob.append(ephemeral_b64.as_str());
    blob.append(":");
    blob.append(nonce_b64.as_str());
    blob.append(":");
    blob.append(sealed_b64.as_str());
    proof {
        assert(blob@ == wrapped_text(ephemeral_b64@, nonce_b64@, sealed_b64@));
        lemma_base64_has_no_colon(ephemeral_b64@);
        lemma_base64_has_no_colon(nonce_b64@);
        lemma_wrapped_parts_of_text(ephemeral_b64@, nonce_b64@, sealed_b64@);
        assert forall|private_b64: Seq<char>|
            key_pair_matches(private_b64, recipient_public_b64@) implies #[trigger] unwrap_spec(
            private_b64,
            blob@,
        ) == Ok::<Seq<u8>, ErrorModel>(repo_key@) by {
            let secret = base64_decoded(private_b64)->Ok_0;
            assert(recipient@ == x25519_public(secret));
            assert(shared@ == x25519_shared(secret, x25519_public(ephemeral@)));
        }
    }
    Ok(blob)
}

/// Wraps a repository key for a recipient with a fresh ephemeral key and nonce.
///
/// Fails only on a recipient key that is no base64 of 32 bytes. Whatever was
/// drawn, the blob unwraps to the repository key under every private key whose
/// public half is the recipient key.
pub fn wrap_repo_key_for_public_key(repo_key: &[u8; UMK_LEN], recipient_public_b64: &str) -> (out:
    Result<String, MilieuError>)
    ensures
        out is Ok <==> decode_fixed(
            recipient_public_b64@,
            32,
            "invalid public key base64: "@,
            "invalid public key length"@,
        ) is Ok,
        out matches Err(e) ==> decode_fixed(
            recipient_public_b64@,
            32,
            "invalid public key base64: "@,
            "invalid public key length"@,
        ) == Err::<Seq<u8>, ErrorModel>(e@),
        out matches Ok(blob) ==> forall|private_b64: Seq<char>|
            key_pair_matches(private_b64, recipient_public_b64@) ==> #[trigger] unwrap_spec(
                private_b64,
                blob@,
            ) == Ok::<Seq<u8>, ErrorModel>(repo_key@),
{
    let ephemeral = random_secret();
    let nonce: [u8; 24] = random_array::<24>();
    wrap_repo_key_with(repo_key, recipient_public_b64, &ephemeral, &nonce)
}

/// Unwraps a repository key with the recipient's private key.
///
/// Fails on a blob of another version than `v1` or with fewer than four fields,
/// on keys that are no base64 of 32 bytes, where the ciphertext does not
/// authenticate under the key agreed on, and on a plaintext of another length
/// than 32 bytes.
pub fn unwrap_repo_key_with_private_key(private_key_b64: &str, blob: &str) -> (out: Result<
    [u8; UMK_LEN],
    MilieuError,
>)
    ensures
        key_view(out) == unwrap_spec(private_key_b64@, blob@),
{
    let chars = chars_of(blob);
    let n: usize = chars.len();
    let i: usize = find_char(&chars, ':', 0);
    let version = chars_of("v1");
    if !range_is(&chars, 0, i, &version) {
        return Err(MilieuError::crypto("unsupported repo key version"));
    }
    if i >= n {
        return Err(MilieuError::crypto("invalid repo key blob"));
    }
    let j: usize = find_char(&chars, ':', i + 1);
    if j >= n {
        return Err(MilieuError::crypto("invalid repo key blob"));
    }
    let k: usize = find_char(&chars, ':', j + 1);
    if k >= n {
        return Err(MilieuError::crypto("invalid repo key blob"));
    }
    let ephemeral_b64 = blob.substring_char(i + 1, j);
    let nonce_b64 = blob.substring_char(j + 1, k);
    let sealed_b64 = blob.substring_char(k + 1, n);

    let secret = match decode_32(
        private_key_b64,
        "invalid private key base64: ",
        "invalid private key length",
    ) {
        Err(e) => {
            return Err(e);
        },
        Ok(key) => key,
    };
    let ephemeral = match decode_32(
        ephemeral_b64,
        "invalid ephemeral key base64: ",
        "invalid ephemeral key length",
    ) {
        Err(e) => {
            return Err(e);
        },
        Ok(key) => key,
    };
    let shared = x25519_agree(&secret, &ephemeral);
    let wrap_key = match hkdf_expand(shared.as_slice(), "milieu:repo-key-wrap".as_bytes()) {
        Some(key) => key,
        None => {
            return Err(MilieuError::crypto("hkdf expand failed"));
        },
    };
    let plain = match decrypt_bytes(
        &wrap_key,
        "milieu:repo-key:v1".as_bytes(),
        nonce_b64,
        sealed_b64,
    ) {
        Err(e) => {
            return Err(e);
        },
        Ok(bytes) => bytes,
    };
    if plain.len() != 32 {
        return Err(MilieuError::crypto("invalid repo key length"));
    }
    Ok(to_array_32(&plain))
}


/// What `decrypt_umk_blob` returns: the blob is `<nonce>:<ciphertext>`, split at
/// its first colon.
pub open spec fn umk_blob_spec(pdk: Seq<u8>, blob: Seq<char>) -> Result<Seq<u8>, ErrorModel> {
    let i = find_from(blob, ':', 0);
    if i >= blob.len() {
        Err(ErrorModel::Crypto("invalid umk blob"@))
    } else {
        match decrypt_spec(
            pdk,
            umk_aad(),
            blob.subrange(0, i),
            blob.subrange(i + 1, blob.len() as int),
        ) {
            Err(e) => Err(e),
            Ok(plain) => if plain.len() != 32 {
                Err(ErrorModel::Crypto("invalid umk length"@))
            } else {
                Ok(plain)
            },
        }
    }
}

/// The text of an encrypted master key with the given nonce and ciphertext.
pub open spec fn umk_blob_text(nonce: Seq<char>, ciphertext: Seq<char>) -> Seq<char> {
    nonce + ":"@ + ciphertext
}

/// Encrypts a user master key under a passphrase-derived key with the given
/// nonce. Always succeeds, and `decrypt_umk_blob` reads the master key back under
/// the same passphrase-derived key.
pub fn encrypt_umk_blob_with(pdk: &[u8; UMK_LEN], umk: &[u8; UMK_LEN], nonce: &[u8; NONCE_LEN]) -> (out:
    Result<String, MilieuError>)
    ensures
        out matches Ok(blob) && {
            let pair = sealed_pair(pdk@, nonce@, umk_aad(), umk@);
            &&& blob@ == umk_blob_text(pair.0, pair.1)
            &&& umk_blob_spec(pdk@, blob@) == Ok::<Seq<u8>, ErrorModel>(umk@)
        },
{
    assert(encryptable(32)) by {
        assert(32nat / 64 == 0);
        assert(crate::b64::base64_len(48) == 64);
    }
    match encrypt_with_nonce(pdk, nonce, "milieu:umk:v1".as_bytes(), umk.as_slice()) {
        Err(e) => Err(e),
        Ok((nonce_b64, sealed_b64)) => {
            let mut blob = String::from_str(nonce_b64.as_str());
            blob.append(":");
            blob.append(sealed_b64.as_str());
            proof {
                reveal_strlit(":");
                lemma_base64_has_no_colon(nonce_b64@);
                let at = nonce_b64@.len() as int;
                assert forall|x: int| 0 <= x < at implies blob@[x] != ':' by {
                    assert(blob@[x] == nonce_b64@[x]);
                    assert(nonce_b64@.contains(nonce_b64@[x]));
                }
                assert(blob@[at] == ':');
                lemma_find_from_is(blob@, ':', 0, at);
                assert(blob@.subrange(0, at) =~= nonce_b64@);
                assert(blob@.subrange(at + 1, blob@.len() as int) =~= sealed_b64@);
            }
            Ok(blob)
        },
    }
}

/// Encrypts a user master key under a passphrase-derived key with a fresh random
/// nonce. Always succeeds; whatever nonce was drawn, `decrypt_umk_blob` reads the
/// master key back under the same passphrase-derived key.
pub fn encrypt_umk_blob(pdk: &[u8; UMK_LEN], umk: &[u8; UMK_LEN]) -> (out: Result<
    String,
    MilieuError,
>)
    ensures
        out matches Ok(blob) && umk_blob_spec(pdk@, blob@) == Ok::<Seq<u8>, ErrorModel>(umk@),
{
    let nonce: [u8; 24] = random_array::<24>();
    encrypt_umk_blob_with(pdk, umk, &nonce)
}

/// Reads a user master key from its encrypted blob. Fails on a blob without a
/// colon, where decryption fails, and on a plaintext of another length than 32
/// bytes.
pub fn decrypt_umk_blob(pdk: &[u8; UMK_LEN], blob: &str) -> (out: Result<[u8; UMK_LEN], MilieuError>)
    ensures
        key_view(out) == umk_blob_spec(pdk@, blob@),
{
    let chars = chars_of(blob);
    let n: usize = chars.len();
    let i: usize = find_char(&chars, ':', 0);
    if i >= n {
        return Err(MilieuError::crypto("invalid umk blob"));
    }
    let nonce_b64 = blob.substring_char(0, i);
    let sealed_b64 = blob.substring_char(i + 1, n);
    let plain = match decrypt_bytes(pdk, "milieu:umk:v1".as_bytes(), nonce_b64, sealed_b64) {
        Err(e) => {
            return Err(e);
        },
        Ok(bytes) => bytes,
    };
    if plain.len() != 32 {
        return Err(MilieuError::crypto("invalid umk length"));
    }
    Ok(to_array_32(&plain))
}


/// The last field of the associated data: the tag, or `-` without one.
pub open spec fn tag_field(tag: Option<Seq<char>>) -> Seq<char> {
    match tag {
        Some(t) => t,
        None => "-"@,
    }
}

/// The place that an object is bound to.
pub struct Place {
    pub schema_version: u32,
    pub repo_id: Seq<char>,
    pub branch: Seq<char>,
    pub path: Seq<char>,
    pub tag: Option<Seq<char>>,
}

/// The associated data of a place.
pub open spec fn place_aad(place: Place) -> Seq<u8> {
    encode_utf8(aad_text(place.schema_version, place.repo_id, place.branch, place.path, place.tag))
}

/// Whether the fields of a place can be told apart in its associated data:
/// neither the repository nor the branch nor the path holds a `|`.
pub open spec fn separable(place: Place) -> bool {
    !place.repo_id.contains('|') && !place.branch.contains('|') && !place.path.contains('|')
}

proof fn lemma_split_field(head: Seq<char>, rest: Seq<char>, other_head: Seq<char>, other_rest: Seq<
    char,
>)
    requires
        !head.contains('|'),
        !other_head.contains('|'),
        head + "|"@ + rest == other_head + "|"@ + other_rest,
    ensures
        head == other_head,
        rest == other_rest,
{
    reveal_strlit("|");
    assert("|"@ =~= seq!['|']);
    lemma_split_once_joined(head, '|', rest);
    lemma_split_once_joined(other_head, '|', other_rest);
}

/// The first field of the associated data: `v` and the schema version.
pub open spec fn version_field(schema_version: u32) -> Seq<char> {
    "v"@ + decimal_text(schema_version as nat)
}

/// The fields of the associated data after the first, nested from the right.
pub open spec fn later_fields(place: Place) -> Seq<char> {
    place.repo_id + "|"@ + (place.branch + "|"@ + (place.path + "|"@ + tag_field(place.tag)))
}

proof fn lemma_version_field(schema_version: u32)
    ensures
        !version_field(schema_version).contains('|'),
        version_field(schema_version).skip(1) == decimal_text(schema_version as nat),
{
    reveal_strlit("v");
    let field = version_field(schema_version);
    lemma_decimal_digits(schema_version as nat);
    if field.contains('|') {
        let i = choose|i: int| 0 <= i < field.len() && field[i] == '|';
        if i > 0 {
            assert(field[i] == decimal_text(schema_version as nat)[i - 1]);
        }
    }
    assert(field.skip(1) =~= decimal_text(schema_version as nat));
}

proof fn lemma_aad_text_shape(place: Place)
    ensures
        aad_text(place.schema_version, place.repo_id, place.branch, place.path, place.tag)
            == version_field(place.schema_version) + "|"@ + later_fields(place),
{
    assert(aad_text(place.schema_version, place.repo_id, place.branch, place.path, place.tag)
        =~= version_field(place.schema_version) + "|"@ + later_fields(place));
}

proof fn lemma_later_fields_bind(a: Place, b: Place)
    requires
        separable(a),
        separable(b),
        later_fields(a) == later_fields(b),
    ensures
        a.repo_id == b.repo_id,
        a.branch == b.branch,
        a.path == b.path,
        tag_field(a.tag) == tag_field(b.tag),
{
    let a3 = a.path + "|"@ + tag_field(a.tag);
    let b3 = b.path + "|"@ + tag_field(b.tag);
    let a2 = a.branch + "|"@ + a3;
    let b2 = b.branch + "|"@ + b3;
    lemma_split_field(a.repo_id, a2, b.repo_id, b2);
    lemma_split_field(a.branch, a3, b.branch, b3);
    lemma_split_field(a.path, tag_field(a.tag), b.path, tag_field(b.tag));
}

/// Two places whose fields can be told apart and whose associated data is the
/// same are the same place: the same schema version, repository, branch and
/// path, and the same tag field.
pub proof fn lemma_aad_binds_place(a: Place, b: Place)
    requires
        separable(a),
        separable(b),
        place_aad(a) == place_aad(b),
    ensures
        a.schema_version == b.schema_version,
        a.repo_id == b.repo_id,
        a.branch == b.branch,
        a.path == b.path,
        tag_field(a.tag) == tag_field(b.tag),
{
    let ta = aad_text(a.schema_version, a.repo_id, a.branch, a.path, a.tag);
    let tb = aad_text(b.schema_version, b.repo_id, b.branch, b.path, b.tag);
    assert(ta == tb) by {
        vstd::utf8::encode_utf8_decode_utf8(ta);
        vstd::utf8::encode_utf8_decode_utf8(tb);
    }
    lemma_aad_text_shape(a);
    lemma_aad_text_shape(b);
    lemma_version_field(a.schema_version);
    lemma_version_field(b.schema_version);
    lemma_split_field(
        version_field(a.schema_version),
        later_fields(a),
        version_field(b.schema_version),
        later_fields(b),
    );
    lemma_decimal_injective(a.schema_version as nat, b.schema_version as nat);
    lemma_later_fields_bind(a, b);
}

} // verus!
