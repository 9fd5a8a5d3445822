//! Hexadecimal text: what it means, and the outside codec that writes and
//! reads it.

use fastcrypto::encoding::{Encoding, Hex};
use fastcrypto::error::FastCryptoError;
use vstd::prelude::*;

verus! {

/// The lowercase digit for a value below sixteen.
pub open spec fn hex_digit(n: int) -> char {
    if n < 10 {
        (48 + n) as char
    } else {
        (87 + n) as char
    }
}

/// The value of a hexadecimal digit of either case, or -1 for any other
/// character.
pub open spec fn hex_value(c: char) -> int {
    let n = c as int;
    if 48 <= n <= 57 {
        n - 48
    } else if 97 <= n <= 102 {
        n - 87
    } else if 65 <= n <= 70 {
        n - 55
    } else {
        -1
    }
}

/// The digit at place `i` of the text of `bytes`: high half first.
pub open spec fn hex_text_at(bytes: Seq<u8>, i: int) -> char {
    if i % 2 == 0 {
        hex_digit(bytes[i / 2] as int / 16)
    } else {
        hex_digit(bytes[i / 2] as int % 16)
    }
}

/// Bytes as lowercase hexadecimal text, two digits a byte, no prefix.
pub open spec fn hex_text(bytes: Seq<u8>) -> Seq<char> {
    Seq::new(2 * bytes.len(), |i: int| hex_text_at(bytes, i))
}

/// Whether `s` is made of hexadecimal digits, an even number of them.
pub open spec fn is_hex(s: Seq<char>) -> bool {
    &&& s.len() % 2 == 0
    &&& forall|i: int| 0 <= i < s.len() ==> hex_value(#[trigger] s[i]) >= 0
}

/// The byte that the two digits at `2 * i` and `2 * i + 1` of `s` write.
pub open spec fn hex_byte_at(s: Seq<char>, i: int) -> u8 {
    (16 * hex_value(s[2 * i]) + hex_value(s[2 * i + 1])) as u8
}

/// The bytes that hexadecimal text stands for.
pub open spec fn hex_bytes(s: Seq<char>) -> Seq<u8> {
    Seq::new(s.len() / 2, |i: int| hex_byte_at(s, i))
}

/// Whether `s` opens with the two characters `0x`.
pub open spec fn has_hex_prefix(s: Seq<char>) -> bool {
    s.len() >= 2 && s[0] == '0' && s[1] == 'x'
}

/// `s` without one opening `0x`, if it has one.
pub open spec fn without_hex_prefix(s: Seq<char>) -> Seq<char> {
    if has_hex_prefix(s) {
        s.subrange(2, s.len() as int)
    } else {
        s
    }
}

/// What hexadecimal text decodes to: an optional `0x`, then digits of either
/// case, two a byte. Anything else decodes to nothing.
pub open spec fn hex_decoded(s: Seq<char>) -> Option<Seq<u8>> {
    let digits = without_hex_prefix(s);
    if is_hex(digits) {
        Some(hex_bytes(digits))
    } else {
        None
    }
}

/// `fastcrypto::error::FastCryptoError`, carried as it is: the failure of an
/// outside codec or constructor.
#[verifier::external_type_specification]
#[verifier::external_body]
pub struct ExFastCryptoError(FastCryptoError);

/// `fastcrypto::encoding::Hex::encode` writes each byte as two lowercase
/// digits, high half first, and nothing else.
#[verifier::external_body]
pub(crate) fn hex_encode(data: &[u8]) -> (text: String)
    ensures
        text@ == hex_text(data@),
{
    Hex::encode(data)
}

/// `fastcrypto::encoding::Hex::decode` drops one opening `0x`, then reads
/// digits of either case two by two; it fails on an odd count and on any
/// other character.
#[verifier::external_body]
pub(crate) fn hex_decode(text: &str) -> (r: Result<Vec<u8>, FastCryptoError>)
    ensures
        match r {
            Ok(bytes) => hex_decoded(text@) == Some(bytes@),
            Err(_) => hex_decoded(text@) is None,
        },
{
    Hex::decode(text)
}

/// The outside error in the words of its own `Debug` form, of which nothing
/// is stated here.
#[verifier::external_body]
pub(crate) fn cause_of(e: &FastCryptoError) -> (cause: String) {
    format!("{:?}", e)
}

/// The digits of a byte read back as the halves they were written from.
pub proof fn lemma_hex_digit_value(n: int)
    requires
        0 <= n < 16,
    ensures
        hex_value(hex_digit(n)) == n,
{
}

/// What [`hex_text`] writes is hexadecimal text without a prefix.
pub proof fn lemma_hex_text_is_hex(bytes: Seq<u8>)
    ensures
        is_hex(hex_text(bytes)),
        !has_hex_prefix(hex_text(bytes)),
{
    let s = hex_text(bytes);
    assert forall|i: int| 0 <= i < s.len() implies hex_value(#[trigger] s[i]) >= 0 by {
        let b = bytes[i / 2] as int;
        lemma_hex_digit_value(b / 16);
        lemma_hex_digit_value(b % 16);
    }
    if s.len() >= 2 {
        let b = bytes[0] as int;
        assert(s[1] == hex_digit(b % 16));
    }
}

/// Reading back what was written gives the bytes that were written.
pub proof fn lemma_hex_round_trip(bytes: Seq<u8>)
    ensures
        hex_decoded(hex_text(bytes)) == Some(bytes),
{
    let s = hex_text(bytes);
    lemma_hex_text_is_hex(bytes);
    assert(without_hex_prefix(s) == s);
    let back = hex_bytes(s);
    assert(back.len() == bytes.len());
    assert forall|i: int| 0 <= i < bytes.len() implies back[i] == bytes[i] by {
        let b = bytes[i] as int;
        assert(s[2 * i] == hex_digit(b / 16));
        assert(s[2 * i + 1] == hex_digit(b % 16));
        lemma_hex_digit_value(b / 16);
        lemma_hex_digit_value(b % 16);
    }
    assert(back =~= bytes);
}

} // verus!
