//! Content hashes and their hexadecimal form, as stored in the manifest.

use vstd::prelude::*;
use vstd::string::*;
use crate::text::chars_of;

verus! {

/// Bytes in a content hash.
pub const HASH_LEN: usize = 32;

/// The BLAKE3 digest of a byte string.
pub uninterp spec fn blake3_digest(data: Seq<u8>) -> Seq<u8>;

/// `blake3::hash`.
///
/// Trusted: the 32 bytes returned are a function of the input alone.
#[verifier::external_body]
pub(crate) fn blake3_hash(data: &[u8]) -> (out: [u8; 32])
    ensures
        out@ == blake3_digest(data@),
{
    *blake3::hash(data).as_bytes()
}

/// The content hash of `data`.
pub fn content_hash(data: &[u8]) -> (out: [u8; HASH_LEN])
    ensures
        out@ == blake3_digest(data@),
{
    blake3_hash(data)
}

/// The lower-case hexadecimal digit for a value below sixteen.
pub open spec fn hex_digit(v: int) -> char {
    if v == 0 {
        '0'
    } else if v == 1 {
        '1'
    } else if v == 2 {
        '2'
    } else if v == 3 {
        '3'
    } else if v == 4 {
        '4'
    } else if v == 5 {
        '5'
    } else if v == 6 {
        '6'
    } else if v == 7 {
        '7'
    } else if v == 8 {
        '8'
    } else if v == 9 {
        '9'
    } else if v == 10 {
        'a'
    } else if v == 11 {
        'b'
    } else if v == 12 {
        'c'
    } else if v == 13 {
        'd'
    } else if v == 14 {
        'e'
    } else {
        'f'
    }
}

/// The value of a hexadecimal digit of either case; `None` for any other character.
pub open spec fn hex_value(c: char) -> Option<int> {
    let v = c as u32 as int;
    if 0x30 <= v <= 0x39 {
        Some(v - 0x30)
    } else if 0x61 <= v <= 0x66 {
        Some(v - 0x61 + 10)
    } else if 0x41 <= v <= 0x46 {
        Some(v - 0x41 + 10)
    } else {
        None
    }
}

/// Two lower-case hexadecimal digits for every byte, high digit first.
pub open spec fn hex_text(bytes: Seq<u8>) -> Seq<char> {
    Seq::new(
        2 * bytes.len(),
        |i: int|
            if i % 2 == 0 {
                hex_digit(bytes[i / 2] as int / 16)
            } else {
                hex_digit(bytes[i / 2] as int % 16)
            },
    )
}

/// The byte that two hexadecimal digits at `2 * i` and `2 * i + 1` stand for.
pub open spec fn hex_byte_at(text: Seq<char>, i: int) -> u8 {
    (16 * hex_value(text[2 * i]).unwrap() + hex_value(text[2 * i + 1]).unwrap()) as u8
}

/// Whether a text is 64 hexadecimal digits.
pub open spec fn is_hash_text(text: Seq<char>) -> bool {
    &&& text.len() == 64
    &&& forall|i: int| 0 <= i < 64 ==> (#[trigger] hex_value(text[i])) is Some
}

/// The hash that a text of 64 hexadecimal digits stands for; `None` for any other text.
pub open spec fn parse_hash(text: Seq<char>) -> Option<Seq<u8>> {
    if is_hash_text(text) {
        Some(Seq::new(32, |i: int| hex_byte_at(text, i)))
    } else {
        None
    }
}

/// The stored baseline as a hash: absent when nothing is stored or when what is
/// stored is no hash.
pub open spec fn baseline_of(stored: Option<Seq<char>>) -> Option<Seq<u8>> {
    match stored {
        Some(text) => parse_hash(text),
        None => None,
    }
}

/// A hash written as text reads back as the same hash.
pub proof fn lemma_hex_round_trip(hash: Seq<u8>)
    requires
        hash.len() == 32,
    ensures
        parse_hash(hex_text(hash)) == Some(hash),
{
    let text = hex_text(hash);
    assert forall|i: int| 0 <= i < 64 implies (#[trigger] hex_value(text[i])) is Some by {
        lemma_hex_digit_value(hash[i / 2] as int / 16);
        lemma_hex_digit_value(hash[i / 2] as int % 16);
    }
    assert forall|i: int| 0 <= i < 32 implies hex_byte_at(text, i) == hash[i] by {
        lemma_hex_digit_value(hash[i] as int / 16);
        lemma_hex_digit_value(hash[i] as int % 16);
        assert((2 * i) / 2 == i && (2 * i) % 2 == 0);
        assert((2 * i + 1) / 2 == i && (2 * i + 1) % 2 == 1);
    }
    assert(Seq::new(32, |i: int| hex_byte_at(text, i)) =~= hash);
}

/// Each lower-case digit has the value it was made from.
pub proof fn lemma_hex_digit_value(v: int)
    requires
        0 <= v < 16,
    ensures
        hex_value(hex_digit(v)) == Some(v),
{
}

fn hex_digit_str(v: u8) -> (out: &'static str)
    requires
        v < 16,
    ensures
        out@ == seq![hex_digit(v as int)],
{
    proof {
        reveal_strlit("0");
        reveal_strlit("1");
        reveal_strlit("2");
        reveal_strlit("3");
        reveal_strlit("4");
        reveal_strlit("5");
        reveal_strlit("6");
        reveal_strlit("7");
        reveal_strlit("8");
        reveal_strlit("9");
        reveal_strlit("a");
        reveal_strlit("b");
        reveal_strlit("c");
        reveal_strlit("d");
        reveal_strlit("e");
        reveal_strlit("f");
    }
    let out = match v {
        0 => "0",
        1 => "1",
        2 => "2",
        3 => "3",
        4 => "4",
        5 => "5",
        6 => "6",
        7 => "7",
        8 => "8",
        9 => "9",
        10 => "a",
        11 => "b",
        12 => "c",
        13 => "d",
        14 => "e",
        _ => "f",
    };
    assert(out@ =~= seq![hex_digit(v as int)]);
    out
}

/// Writes a hash as 64 lower-case hexadecimal digits.
pub fn to_hex(hash: &[u8; HASH_LEN]) -> (out: String)
    ensures
        out@ == hex_text(hash@),
{
    let mut out = String::new();
    let mut i: usize = 0;
    while i < 32
        invariant
            i <= 32,
            out@ == hex_text(hash@.take(i as int)),
        decreases 32 - i,
    {
        let b: u8 = hash[i];
        let ghost before = out@;
        out.append(hex_digit_str(b / 16));
        out.append(hex_digit_str(b % 16));
        assert(out@ =~= hex_text(hash@.take(i as int + 1))) by {
            let prev = hash@.take(i as int);
            let next = hash@.take(i as int + 1);
            assert(before == hex_text(prev));
            assert forall|j: int| 0 <= j < 2 * (i + 1) implies out@[j] == hex_text(next)[j] by {
                if j < 2 * i {
                    assert(out@[j] == before[j]);
                    assert(prev[j / 2] == next[j / 2]);
                } else {
                    assert(next[j / 2] == b);
                }
            }
        }
        i += 1;
    }
    assert(hash@.take(32) =~= hash@);
    out
}

fn hex_digit_value(c: char) -> (out: Option<u8>)
    ensures
        match out {
            Some(v) => hex_value(c) == Some(v as int),
            None => hex_value(c) is None,
        },
{
    let v: u32 = c as u32;
    if 0x30 <= v && v <= 0x39 {
        Some((v - 0x30) as u8)
    } else if 0x61 <= v && v <= 0x66 {
        Some((v - 0x61 + 10) as u8)
    } else if 0x41 <= v && v <= 0x46 {
        Some((v - 0x41 + 10) as u8)
    } else {
        None
    }
}

/// Reads a hash from 64 hexadecimal digits of either case.
pub fn from_hex(text: &str) -> (out: Option<[u8; HASH_LEN]>)
    ensures
        match out {
            Some(hash) => parse_hash(text@) == Some(hash@),
            None => parse_hash(text@) is None,
        },
{
    let chars = chars_of(text);
    if chars.len() != 64 {
        return None;
    }
    let mut hash: [u8; 32] = [0u8; 32];
    let mut i: usize = 0;
    while i < 32
        invariant
            i <= 32,
            chars@ == text@,
            chars.len() == 64,
            forall|j: int| 0 <= j < 2 * i ==> (#[trigger] hex_value(chars@[j])) is Some,
            forall|j: int| 0 <= j < i ==> hash@[j] == hex_byte_at(chars@, j),
        decreases 32 - i,
    {
        let hi = hex_digit_value(chars[2 * i]);
        let lo = hex_digit_value(chars[2 * i + 1]);
        match (hi, lo) {
            (Some(h), Some(l)) => {
                hash[i] = 16 * h + l;
            },
            _ => {
                assert(hex_value(chars@[2 * i as int]) is None || hex_value(
                    chars@[2 * i as int + 1],
                ) is None);
                return None;
            },
        }
        i += 1;
    }
    assert(hash@ =~= Seq::new(32, |i: int| hex_byte_at(text@, i)));
    Some(hash)
}

/// Reads the stored baseline of a file entry.
pub fn baseline(stored: &Option<String>) -> (out: Option<[u8; HASH_LEN]>)
    ensures
        match out {
            Some(hash) => baseline_of(crate::text::opt_view(*stored)) == Some(hash@),
            None => baseline_of(crate::text::opt_view(*stored)) is None,
        },
{
    match stored {
        Some(text) => from_hex(text.as_str()),
        None => None,
    }
}

/// Whether two hashes are the same.
pub fn hash_eq(a: &[u8; HASH_LEN], b: &[u8; HASH_LEN]) -> (same: bool)
    ensures
        same == (a@ == b@),
{
    let mut i: usize = 0;
    while i < 32
        invariant
            i <= 32,
            forall|j: int| 0 <= j < i ==> a@[j] == b@[j],
        decreases 32 - i,
    {
        if a[i] != b[i] {
            return false;
        }
        i += 1;
    }
    assert(a@ =~= b@);
    true
}

} // verus!
