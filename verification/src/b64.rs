//! Standard base64 with padding, as the wire format uses it for keys, nonces,
//! ciphertexts and associated data.

use vstd::prelude::*;
use base64::engine::general_purpose::STANDARD;
use base64::Engine;

verus! {

/// The base64 text of a byte string (standard alphabet, padded).
pub uninterp spec fn base64_text(bytes: Seq<u8>) -> Seq<char>;

/// What decoding a text as base64 gives: the bytes, or the decoder's complaint.
pub uninterp spec fn base64_decoded(text: Seq<char>) -> Result<Seq<u8>, Seq<char>>;

/// A decoding that succeeded with `bytes`.
pub open spec fn decoded_ok(bytes: Seq<u8>) -> Result<Seq<u8>, Seq<char>> {
    Ok(bytes)
}

/// The outcome of a decoding, as sequences.
pub open spec fn decode_view(out: Result<Vec<u8>, String>) -> Result<Seq<u8>, Seq<char>> {
    match out {
        Ok(bytes) => Ok(bytes@),
        Err(why) => Err(why@),
    }
}

/// Length of the base64 text of `n` bytes.
pub open spec fn base64_len(n: nat) -> nat {
    4 * ((n + 2) / 3)
}

/// Whether a byte string is short enough for its base64 text to be built.
pub open spec fn encodable(n: nat) -> bool {
    base64_len(n) <= usize::MAX
}

/// Letters, digits, `+`, `/` and the padding sign `=`.
pub open spec fn is_base64_char(c: char) -> bool {
    let v = c as u32;
    (0x41 <= v <= 0x5a) || (0x61 <= v <= 0x7a) || (0x30 <= v <= 0x39) || v == 0x2b || v == 0x2f
        || v == 0x3d
}

/// `base64::Engine::encode` on the `STANDARD` engine.
///
/// Trusted: the text is a function of the bytes, has four characters for every
/// three bytes begun, is made of the standard alphabet and `=` only, and decodes
/// back to the bytes. The call panics when the length of the text does not fit in
/// `usize`, which the precondition excludes.
#[verifier::external_body]
pub(crate) fn base64_encode(bytes: &[u8]) -> (text: String)
    requires
        encodable(bytes@.len()),
    ensures
        text@ == base64_text(bytes@),
        text@.len() == base64_len(bytes@.len()),
        forall|i: int| 0 <= i < text@.len() ==> is_base64_char(#[trigger] text@[i]),
        base64_decoded(text@) == decoded_ok(bytes@),
{
    STANDARD.encode(bytes)
}

/// `base64::Engine::decode` on the `STANDARD` engine.
///
/// Trusted: the outcome is a function of the text; an error is handed over as the
/// text that the decoder displays for it.
#[verifier::external_body]
pub(crate) fn base64_decode(text: &str) -> (out: Result<Vec<u8>, String>)
    ensures
        match out {
            Ok(bytes) => base64_decoded(text@) == decoded_ok(bytes@),
            Err(why) => base64_decoded(text@) == Err::<Seq<u8>, Seq<char>>(why@),
        },
{
    STANDARD.decode(text).map_err(|e| e.to_string())
}

/// Whether `n` bytes are few enough for `encode` to be called on them.
pub fn can_encode(n: usize) -> (ok: bool)
    ensures
        ok == encodable(n as nat),
{
    let groups: usize = if n % 3 == 0 {
        n / 3
    } else {
        n / 3 + 1
    };
    assert(groups == (n + 2) / 3);
    groups <= usize::MAX / 4
}

/// The base64 text of a 32-byte key.
pub fn encode_32(bytes: &[u8; 32]) -> (text: String)
    ensures
        text@ == base64_text(bytes@),
        base64_decoded(text@) == decoded_ok(bytes@),
        forall|i: int| 0 <= i < text@.len() ==> is_base64_char(#[trigger] text@[i]),
{
    base64_encode(bytes.as_slice())
}

/// The base64 text of a 24-byte nonce.
pub fn encode_24(bytes: &[u8; 24]) -> (text: String)
    ensures
        text@ == base64_text(bytes@),
        base64_decoded(text@) == decoded_ok(bytes@),
        forall|i: int| 0 <= i < text@.len() ==> is_base64_char(#[trigger] text@[i]),
{
    base64_encode(bytes.as_slice())
}

} // verus!
