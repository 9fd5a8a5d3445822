//! The plain codecs that the adaptors are built on: raw bytes for compact
//! encoders, hexadecimal and Base64 text for encoders that write for people.

use crate::adaptor::{
    bytes_of, expected_bytes, expected_text, text_of, DeserializeAs, RoundTrip, Same,
    SerializeAs, Shape,
};
use crate::convert::ArrayCodec;
use crate::base64::{base64_bytes, base64_decode, base64_encode, base64_input_limit, base64_text};
use crate::hex::{cause_of, hex_decode, hex_decoded, hex_encode, hex_text, lemma_hex_round_trip};
use crate::wire::{DecodeError, EncodeError, Encoded};
use vstd::prelude::*;
use vstd::slice::*;
use vstd::string::*;

verus! {

impl Same for Vec<u8> {
    open spec fn same(&self, other: &Self) -> bool {
        self@ == other@
    }
}

impl<const N: usize> Same for [u8; N] {
    open spec fn same(&self, other: &Self) -> bool {
        self@ == other@
    }
}

/// Whether `out` is the bytes `data`, handed on as they are.
pub open spec fn writes_bytes(data: Seq<u8>, out: Result<Encoded, EncodeError>) -> bool {
    out matches Ok(Encoded::Bytes(b)) && b@ == data
}

/// Whether `out` is the hexadecimal text of `data`.
pub open spec fn writes_hex(data: Seq<u8>, out: Result<Encoded, EncodeError>) -> bool {
    out matches Ok(Encoded::Text(s)) && s@ == hex_text(data)
}

/// The cause given where an input is too long for the Base64 encoder.
pub open spec fn too_long_for_base64() -> Seq<char> {
    "input too long for base64"@
}

/// Whether `out` is the Base64 text of `data`, or the refusal of an input
/// beyond the encoder's limit.
pub open spec fn writes_base64(data: Seq<u8>, out: Result<Encoded, EncodeError>) -> bool {
    match out {
        Ok(Encoded::Text(s)) => {
            &&& data.len() <= base64_input_limit()
            &&& s@ == base64_text(data)
            &&& base64_bytes(s@) == Some(data)
        },
        Ok(Encoded::Bytes(_)) => false,
        Err(e) => data.len() > base64_input_limit() && e.detail@ == too_long_for_base64(),
    }
}

/// Whether `out` is the bytes of `input`, handed on as they are; text is
/// refused.
pub open spec fn reads_bytes(input: Encoded, out: Result<Vec<u8>, DecodeError>) -> bool {
    match out {
        Ok(v) => input matches Encoded::Bytes(b) && v@ == b@,
        Err(e) => input is Text && e.detail@ == expected_bytes(),
    }
}

/// Whether `out` is what the hexadecimal text `input` stands for; bytes are
/// refused, and so is text that is not hexadecimal.
pub open spec fn reads_hex(input: Encoded, out: Result<Vec<u8>, DecodeError>) -> bool {
    match out {
        Ok(v) => input matches Encoded::Text(s) && hex_decoded(s@) == Some(v@),
        Err(e) => match input {
            Encoded::Text(s) => hex_decoded(s@) is None,
            Encoded::Bytes(_) => e.detail@ == expected_text(),
        },
    }
}

/// Whether `out` is what the Base64 text `input` stands for; bytes are
/// refused, and so is text that is not Base64.
pub open spec fn reads_base64(input: Encoded, out: Result<Vec<u8>, DecodeError>) -> bool {
    match out {
        Ok(v) => input matches Encoded::Text(s) && base64_bytes(s@) == Some(v@),
        Err(e) => match input {
            Encoded::Text(s) => base64_bytes(s@) is None,
            Encoded::Bytes(_) => e.detail@ == expected_text(),
        },
    }
}

/// Hands `data` to a compact encoder as it is.
pub fn write_bytes(data: &[u8]) -> (out: Result<Encoded, EncodeError>)
    ensures
        writes_bytes(data@, out),
{
    Ok(Encoded::Bytes(slice_to_vec(data)))
}

/// Writes `data` as lowercase hexadecimal text without a prefix.
pub fn write_hex(data: &[u8]) -> (out: Result<Encoded, EncodeError>)
    ensures
        writes_hex(data@, out),
{
    Ok(Encoded::Text(hex_encode(data)))
}

/// Writes `data` as Base64 text.
pub fn write_base64(data: &[u8]) -> (out: Result<Encoded, EncodeError>)
    ensures
        writes_base64(data@, out),
{
    if data.len() > usize::MAX / 4 {
        Err(EncodeError::new(String::from_str("input too long for base64")))
    } else {
        Ok(Encoded::Text(base64_encode(data)))
    }
}

/// Takes the bytes that a compact decoder hands over.
pub fn read_bytes(input: &Encoded) -> (out: Result<Vec<u8>, DecodeError>)
    ensures
        reads_bytes(*input, out),
{
    match bytes_of(input) {
        Ok(b) => Ok(slice_to_vec(b.as_slice())),
        Err(e) => Err(e),
    }
}

/// Reads hexadecimal text, with or without an opening `0x`.
pub fn read_hex(input: &Encoded) -> (out: Result<Vec<u8>, DecodeError>)
    ensures
        reads_hex(*input, out),
{
    match text_of(input) {
        Ok(s) => match hex_decode(s.as_str()) {
            Ok(v) => Ok(v),
            Err(e) => Err(DecodeError::new(cause_of(&e))),
        },
        Err(e) => Err(e),
    }
}

/// Reads Base64 text.
pub fn read_base64(input: &Encoded) -> (out: Result<Vec<u8>, DecodeError>)
    ensures
        reads_base64(*input, out),
{
    match text_of(input) {
        Ok(s) => match base64_decode(s.as_str()) {
            Ok(v) => Ok(v),
            Err(e) => Err(DecodeError::new(cause_of(&e))),
        },
        Err(e) => Err(e),
    }
}

/// Bytes as they are, for compact encoders.
pub struct Bytes;

/// Bytes as lowercase hexadecimal text.
pub struct Hex;

/// Bytes as Base64 text.
pub struct Base64;

impl SerializeAs<Vec<u8>> for Bytes {
    open spec fn serializes(
        value: &Vec<u8>,
        human_readable: bool,
        out: Result<Encoded, EncodeError>,
    ) -> bool {
        writes_bytes(value@, out)
    }

    fn serialize_as(value: &Vec<u8>, human_readable: bool) -> (out: Result<Encoded, EncodeError>) {
        write_bytes(value.as_slice())
    }
}

impl<const N: usize> SerializeAs<[u8; N]> for Bytes {
    open spec fn serializes(
        value: &[u8; N],
        human_readable: bool,
        out: Result<Encoded, EncodeError>,
    ) -> bool {
        writes_bytes(value@, out)
    }

    fn serialize_as(value: &[u8; N], human_readable: bool) -> (out: Result<Encoded, EncodeError>) {
        write_bytes(value.as_slice())
    }
}

impl DeserializeAs<Vec<u8>> for Bytes {
    open spec fn spec_expects(human_readable: bool) -> Shape {
        Shape::Bytes
    }

    open spec fn deserializes(
        input: &Encoded,
        human_readable: bool,
        out: Result<Vec<u8>, DecodeError>,
    ) -> bool {
        reads_bytes(*input, out)
    }

    fn expects(human_readable: bool) -> (shape: Shape) {
        Shape::Bytes
    }

    fn deserialize_as(input: &Encoded, human_readable: bool) -> (out: Result<Vec<u8>, DecodeError>) {
        read_bytes(input)
    }
}

impl RoundTrip<Vec<u8>> for Bytes {
    proof fn round_trip(
        value: &Vec<u8>,
        human_readable: bool,
        encoded: Encoded,
        back: Result<Vec<u8>, DecodeError>,
    ) {
    }
}

impl SerializeAs<Vec<u8>> for Hex {
    open spec fn serializes(
        value: &Vec<u8>,
        human_readable: bool,
        out: Result<Encoded, EncodeError>,
    ) -> bool {
        writes_hex(value@, out)
    }

    fn serialize_as(value: &Vec<u8>, human_readable: bool) -> (out: Result<Encoded, EncodeError>) {
        write_hex(value.as_slice())
    }
}

impl<const N: usize> SerializeAs<[u8; N]> for Hex {
    open spec fn serializes(
        value: &[u8; N],
        human_readable: bool,
        out: Result<Encoded, EncodeError>,
    ) -> bool {
        writes_hex(value@, out)
    }

    fn serialize_as(value: &[u8; N], human_readable: bool) -> (out: Result<Encoded, EncodeError>) {
        write_hex(value.as_slice())
    }
}

impl DeserializeAs<Vec<u8>> for Hex {
    open spec fn spec_expects(human_readable: bool) -> Shape {
        Shape::Text
    }

    open spec fn deserializes(
        input: &Encoded,
        human_readable: bool,
        out: Result<Vec<u8>, DecodeError>,
    ) -> bool {
        reads_hex(*input, out)
    }

    fn expects(human_readable: bool) -> (shape: Shape) {
        Shape::Text
    }

    fn deserialize_as(input: &Encoded, human_readable: bool) -> (out: Result<Vec<u8>, DecodeError>) {
        read_hex(input)
    }
}

impl RoundTrip<Vec<u8>> for Hex {
    proof fn round_trip(
        value: &Vec<u8>,
        human_readable: bool,
        encoded: Encoded,
        back: Result<Vec<u8>, DecodeError>,
    ) {
        lemma_hex_round_trip(value@);
    }
}

impl SerializeAs<Vec<u8>> for Base64 {
    open spec fn serializes(
        value: &Vec<u8>,
        human_readable: bool,
        out: Result<Encoded, EncodeError>,
    ) -> bool {
        writes_base64(value@, out)
    }

    fn serialize_as(value: &Vec<u8>, human_readable: bool) -> (out: Result<Encoded, EncodeError>) {
        write_base64(value.as_slice())
    }
}

impl<const N: usize> SerializeAs<[u8; N]> for Base64 {
    open spec fn serializes(
        value: &[u8; N],
        human_readable: bool,
        out: Result<Encoded, EncodeError>,
    ) -> bool {
        writes_base64(value@, out)
    }

    fn serialize_as(value: &[u8; N], human_readable: bool) -> (out: Result<Encoded, EncodeError>) {
        write_base64(value.as_slice())
    }
}

impl DeserializeAs<Vec<u8>> for Base64 {
    open spec fn spec_expects(human_readable: bool) -> Shape {
        Shape::Text
    }

    open spec fn deserializes(
        input: &Encoded,
        human_readable: bool,
        out: Result<Vec<u8>, DecodeError>,
    ) -> bool {
        reads_base64(*input, out)
    }

    fn expects(human_readable: bool) -> (shape: Shape) {
        Shape::Text
    }

    fn deserialize_as(input: &Encoded, human_readable: bool) -> (out: Result<Vec<u8>, DecodeError>) {
        read_base64(input)
    }
}

impl RoundTrip<Vec<u8>> for Base64 {
    proof fn round_trip(
        value: &Vec<u8>,
        human_readable: bool,
        encoded: Encoded,
        back: Result<Vec<u8>, DecodeError>,
    ) {
    }
}

impl<const N: usize> ArrayCodec<N> for Bytes {
    proof fn reads_back_array(
        value: &[u8; N],
        human_readable: bool,
        encoded: Encoded,
        back: Result<Vec<u8>, DecodeError>,
    ) {
    }
}

impl<const N: usize> ArrayCodec<N> for Hex {
    proof fn reads_back_array(
        value: &[u8; N],
        human_readable: bool,
        encoded: Encoded,
        back: Result<Vec<u8>, DecodeError>,
    ) {
        lemma_hex_round_trip(value@);
    }
}

impl<const N: usize> ArrayCodec<N> for Base64 {
    proof fn reads_back_array(
        value: &[u8; N],
        human_readable: bool,
        encoded: Encoded,
        back: Result<Vec<u8>, DecodeError>,
    ) {
    }
}

} // verus!
