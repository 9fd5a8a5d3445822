//! Object identifiers and their adaptor: thirty-two bytes, written as
//! hexadecimal text.

use crate::adaptor::{expected_text, text_of, DeserializeAs, RoundTrip, Same, SerializeAs, Shape};
use crate::codec::{write_hex, writes_hex};
use crate::convert::{invalid_array_length, to_array};
use crate::hex::{
    cause_of, has_hex_prefix, hex_decode, hex_decoded, hex_value, is_hex, lemma_hex_round_trip,
    without_hex_prefix,
};
use crate::wire::{DecodeError, EncodeError, Encoded};
use vstd::prelude::*;

verus! {

/// The number of bytes in an object identifier.
pub const OBJECT_ID_LENGTH: usize = 32;

/// The address of an object: thirty-two bytes.
#[derive(Debug, Clone, Copy, PartialEq, Eq)]
pub struct ObjectId {
    bytes: [u8; 32],
}

impl View for ObjectId {
    type V = Seq<u8>;

    closed spec fn view(&self) -> Seq<u8> {
        self.bytes@
    }
}

impl Same for ObjectId {
    open spec fn same(&self, other: &Self) -> bool {
        self@ == other@
    }
}

impl ObjectId {
    pub fn new(bytes: [u8; 32]) -> (id: ObjectId)
        ensures
            id@ == bytes@,
    {
        ObjectId { bytes }
    }

    pub fn into_bytes(self) -> (bytes: [u8; 32])
        ensures
            bytes@ == self@,
    {
        self.bytes
    }

    pub fn as_bytes(&self) -> (bytes: &[u8; 32])
        ensures
            bytes@ == self@,
    {
        &self.bytes
    }

    /// Every identifier has thirty-two bytes.
    pub proof fn lemma_length(&self)
        ensures
            self@.len() == OBJECT_ID_LENGTH,
    {
    }
}

/// Whether `out` is what the adaptor makes of the text `s`: the identifier
/// whose bytes `s` stands for, or a failure where `s` is not hexadecimal or
/// stands for another number of bytes.
pub open spec fn reads_object_id(s: Seq<char>, out: Result<ObjectId, DecodeError>) -> bool {
    match out {
        Ok(id) => hex_decoded(s) == Some(id@),
        Err(e) => match hex_decoded(s) {
            Some(bytes) => bytes.len() != OBJECT_ID_LENGTH && e.detail@ == invalid_array_length(
                bytes.len(),
                OBJECT_ID_LENGTH as nat,
            ),
            None => true,
        },
    }
}

/// Writes an object identifier as lowercase hexadecimal text without a
/// prefix, and reads it with or without an opening `0x`.
pub struct HexObjectId;

impl SerializeAs<ObjectId> for HexObjectId {
    open spec fn serializes(
        value: &ObjectId,
        human_readable: bool,
        out: Result<Encoded, EncodeError>,
    ) -> bool {
        writes_hex(value@, out)
    }

    fn serialize_as(value: &ObjectId, human_readable: bool) -> (out: Result<Encoded, EncodeError>) {
        write_hex(value.as_bytes().as_slice())
    }
}

impl DeserializeAs<ObjectId> for HexObjectId {
    open spec fn spec_expects(human_readable: bool) -> Shape {
        Shape::Text
    }

    open spec fn deserializes(
        input: &Encoded,
        human_readable: bool,
        out: Result<ObjectId, DecodeError>,
    ) -> bool {
        match *input {
            Encoded::Text(s) => reads_object_id(s@, out),
            Encoded::Bytes(_) => out matches Err(e) && e.detail@ == expected_text(),
        }
    }

    fn expects(human_readable: bool) -> (shape: Shape) {
        Shape::Text
    }

    fn deserialize_as(input: &Encoded, human_readable: bool) -> (out: Result<
        ObjectId,
        DecodeError,
    >) {
        let s = match text_of(input) {
            Ok(s) => s,
            Err(e) => {
                return Err(e);
            },
        };
        match hex_decode(s.as_str()) {
            Ok(bytes) => match to_array::<32>(&bytes) {
                Ok(array) => Ok(ObjectId::new(array)),
                Err(e) => Err(e),
            },
            Err(e) => Err(DecodeError::new(cause_of(&e))),
        }
    }
}

impl RoundTrip<ObjectId> for HexObjectId {
    proof fn round_trip(
        value: &ObjectId,
        human_readable: bool,
        encoded: Encoded,
        back: Result<ObjectId, DecodeError>,
    ) {
        lemma_hex_round_trip(value@);
    }
}

/// An opening `0x` changes nothing: text that does not itself open with
/// `0x` is read the same with the prefix put before it.
pub proof fn lemma_hex_prefix_is_optional(
    plain: Seq<char>,
    human_readable: bool,
    out: Result<ObjectId, DecodeError>,
)
    requires
        !has_hex_prefix(plain),
    ensures
        hex_decoded(seq!['0', 'x'] + plain) == hex_decoded(plain),
        reads_object_id(seq!['0', 'x'] + plain, out) == reads_object_id(plain, out),
{
    let prefixed = seq!['0', 'x'] + plain;
    assert(has_hex_prefix(prefixed));
    assert(without_hex_prefix(prefixed) =~= plain);
}

/// Text with an odd number of digits, or with a character that is no
/// hexadecimal digit, is never read as an identifier.
pub proof fn lemma_rejects_malformed_hex(s: Seq<char>, out: Result<ObjectId, DecodeError>)
    requires
        ({
            let digits = without_hex_prefix(s);
            digits.len() % 2 == 1 || exists|i: int|
                0 <= i < digits.len() && hex_value(#[trigger] digits[i]) < 0
        }),
        reads_object_id(s, out),
    ensures
        out is Err,
{
}

/// Text that stands for another number of bytes than thirty-two is never
/// read as an identifier.
pub proof fn lemma_rejects_wrong_length(s: Seq<char>, out: Result<ObjectId, DecodeError>)
    requires
        without_hex_prefix(s).len() != 2 * OBJECT_ID_LENGTH,
        reads_object_id(s, out),
    ensures
        out is Err,
{
    if out is Ok {
        out->Ok_0.lemma_length();
    }
}

/// Sixty-four hexadecimal digits, with or without an opening `0x`, are
/// always read as an identifier.
pub proof fn lemma_accepts_well_formed_hex(s: Seq<char>, out: Result<ObjectId, DecodeError>)
    requires
        is_hex(without_hex_prefix(s)),
        without_hex_prefix(s).len() == 2 * OBJECT_ID_LENGTH,
        reads_object_id(s, out),
    ensures
        out is Ok,
{
}

} // verus!
