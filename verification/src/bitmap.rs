//! Compressed sets of 32-bit integers and their adaptor: the set is written
//! in the Roaring on-disk format and handed on as a byte string.

use crate::adaptor::{bytes_of, expected_bytes, DeserializeAs, RoundTrip, Same, SerializeAs, Shape};
use crate::wire::{DecodeError, EncodeError, Encoded};
use roaring::RoaringBitmap;
use vstd::prelude::*;

verus! {

/// `roaring::RoaringBitmap`, carried as it is; what it holds is named by
/// [`bitmap_elements`], whether it is laid out as insertion lays it out by
/// [`bitmap_is_regular`].
#[verifier::external_type_specification]
#[verifier::external_body]
pub struct ExRoaringBitmap(RoaringBitmap);

/// `std::io::Error`, carried as it is: the failure of writing or reading a
/// bitmap.
#[verifier::external_type_specification]
#[verifier::external_body]
pub struct ExIoError(std::io::Error);

/// The integers that a bitmap holds: those that iterating over it gives.
pub uninterp spec fn bitmap_elements(bitmap: RoaringBitmap) -> Set<u32>;

/// Whether a bitmap is laid out as inserting its values into an empty bitmap
/// lays it out: one container for each key that has values, in the order of
/// the keys, none of them empty, each kept as a sorted array where it holds
/// at most 4096 values and as a bit set where it holds more. A bitmap read
/// from bytes need not be.
pub uninterp spec fn bitmap_is_regular(bitmap: RoaringBitmap) -> bool;

/// The bytes of a set in the Roaring on-disk format without run containers:
/// what the outside writer gives for a regular bitmap that holds the set.
pub uninterp spec fn roaring_bytes(elements: Set<u32>) -> Seq<u8>;

/// The set that `bytes` stand for in the Roaring on-disk format, where they
/// are a valid bitmap in it: what the bitmap that the outside reader makes
/// of them holds.
pub uninterp spec fn roaring_parsed(bytes: Seq<u8>) -> Option<Set<u32>>;

/// `roaring::RoaringBitmap::iter`, collected into a new bitmap by the
/// crate's own `FromIterator`: the values are inserted one by one into an
/// empty bitmap, so the copy holds the same values and is regular.
#[verifier::external_body]
pub(crate) fn regular_copy(source: &RoaringBitmap) -> (copy: RoaringBitmap)
    ensures
        bitmap_elements(copy) == bitmap_elements(*source),
        bitmap_is_regular(copy),
{
    source.iter().collect()
}

/// `roaring::RoaringBitmap::serialize_into`, writing into a fresh vector,
/// which never fails: for a regular bitmap the bytes written are those of
/// the set that it holds, and they read back as that set. A bitmap with an
/// empty container is left out: the writer subtracts one from the number of
/// its values.
#[verifier::external_body]
pub(crate) fn bitmap_to_bytes(source: &RoaringBitmap) -> (r: Result<Vec<u8>, std::io::Error>)
    requires
        bitmap_is_regular(*source),
    ensures
        match r {
            Ok(bytes) => bytes@ == roaring_bytes(bitmap_elements(*source)) && roaring_parsed(
                bytes@,
            ) == Some(bitmap_elements(*source)),
            Err(_) => false,
        },
{
    let mut bytes = vec![];
    match source.serialize_into(&mut bytes) {
        Ok(()) => Ok(bytes),
        Err(e) => Err(e),
    }
}

/// `roaring::RoaringBitmap::deserialize_from`, reading from a slice: the
/// bitmap holds the set that the bytes stand for, and the call fails where
/// they stand for none.
#[verifier::external_body]
pub(crate) fn bitmap_from_bytes(bytes: &[u8]) -> (r: Result<RoaringBitmap, std::io::Error>)
    ensures
        match r {
            Ok(bitmap) => roaring_parsed(bytes@) == Some(bitmap_elements(bitmap)),
            Err(_) => roaring_parsed(bytes@) is None,
        },
{
    RoaringBitmap::deserialize_from(bytes)
}

/// The outside error in the words of its own `Debug` form, of which nothing
/// is stated here.
#[verifier::external_body]
pub(crate) fn io_cause_of(e: &std::io::Error) -> (cause: String) {
    format!("{:?}", e)
}

impl Same for RoaringBitmap {
    open spec fn same(&self, other: &Self) -> bool {
        bitmap_elements(*self) == bitmap_elements(*other)
    }
}

/// Whether `out` is what the adaptor hands on once the bitmap was written,
/// or failed to be.
pub open spec fn wraps_written(
    written: Result<Vec<u8>, std::io::Error>,
    out: Result<Encoded, EncodeError>,
) -> bool {
    match written {
        Ok(bytes) => out matches Ok(Encoded::Bytes(b)) && b@ == bytes@,
        Err(_) => out is Err,
    }
}

/// Whether `out` is what the adaptor hands to a compact encoder for a
/// bitmap that holds `elements`: the bytes of that set, which read back as
/// it.
pub open spec fn writes_bitmap(elements: Set<u32>, out: Result<Encoded, EncodeError>) -> bool {
    out matches Ok(Encoded::Bytes(b)) && b@ == roaring_bytes(elements) && roaring_parsed(b@)
        == Some(elements)
}

/// Whether `out` is what the adaptor makes of the bytes `input`: a regular
/// bitmap that holds the set they stand for, or a failure where they stand
/// for none.
pub open spec fn reads_bitmap(input: Seq<u8>, out: Result<RoaringBitmap, DecodeError>) -> bool {
    match out {
        Ok(bitmap) => roaring_parsed(input) == Some(bitmap_elements(bitmap)) && bitmap_is_regular(
            bitmap,
        ),
        Err(_) => roaring_parsed(input) is None,
    }
}

/// Writes a bitmap in the Roaring on-disk format, as a byte string, and reads
/// it back from one.
pub struct SuiBitmap;

impl SuiBitmap {
    /// The written bitmap as a byte string for the encoder; a failure to
    /// write becomes an encode error with the failure's words as its cause.
    pub fn wrap_written(written: Result<Vec<u8>, std::io::Error>) -> (out: Result<
        Encoded,
        EncodeError,
    >)
        ensures
            wraps_written(written, out),
    {
        match written {
            Ok(bytes) => Ok(Encoded::Bytes(bytes)),
            Err(e) => Err(EncodeError::new(io_cause_of(&e))),
        }
    }
}

impl SerializeAs<RoaringBitmap> for SuiBitmap {
    /// Every bitmap is written: what is handed to the encoder is the byte
    /// string of the set that the bitmap holds, whatever its layout.
    open spec fn serializes(
        value: &RoaringBitmap,
        human_readable: bool,
        out: Result<Encoded, EncodeError>,
    ) -> bool {
        writes_bitmap(bitmap_elements(*value), out)
    }

    fn serialize_as(value: &RoaringBitmap, human_readable: bool) -> (out: Result<
        Encoded,
        EncodeError,
    >) {
        let regular = regular_copy(value);
        SuiBitmap::wrap_written(bitmap_to_bytes(&regular))
    }
}

impl DeserializeAs<RoaringBitmap> for SuiBitmap {
    open spec fn spec_expects(human_readable: bool) -> Shape {
        Shape::Bytes
    }

    open spec fn deserializes(
        input: &Encoded,
        human_readable: bool,
        out: Result<RoaringBitmap, DecodeError>,
    ) -> bool {
        match *input {
            Encoded::Bytes(b) => reads_bitmap(b@, out),
            Encoded::Text(_) => out matches Err(e) && e.detail@ == expected_bytes(),
        }
    }

    fn expects(human_readable: bool) -> (shape: Shape) {
        Shape::Bytes
    }

    fn deserialize_as(input: &Encoded, human_readable: bool) -> (out: Result<
        RoaringBitmap,
        DecodeError,
    >) {
        let bytes = match bytes_of(input) {
            Ok(b) => b,
            Err(e) => {
                return Err(e);
            },
        };
        match bitmap_from_bytes(bytes.as_slice()) {
            Ok(bitmap) => Ok(regular_copy(&bitmap)),
            Err(e) => Err(DecodeError::new(io_cause_of(&e))),
        }
    }
}

impl RoundTrip<RoaringBitmap> for SuiBitmap {
    proof fn round_trip(
        value: &RoaringBitmap,
        human_readable: bool,
        encoded: Encoded,
        back: Result<RoaringBitmap, DecodeError>,
    ) {
    }
}

/// Bytes that were read as a bitmap are written back as bytes that stand for
/// the same set, whatever the layout that the bytes gave the bitmap.
pub proof fn lemma_read_then_written(
    input: Seq<u8>,
    bitmap: RoaringBitmap,
    human_readable: bool,
    out: Result<Encoded, EncodeError>,
)
    requires
        roaring_parsed(input) == Some(bitmap_elements(bitmap)),
        SuiBitmap::serializes(&bitmap, human_readable, out),
    ensures
        out matches Ok(Encoded::Bytes(b)) && roaring_parsed(b@) == roaring_parsed(input),
{
}

/// Two bitmaps that hold the same set are written as the same bytes.
pub proof fn lemma_same_set_same_bytes(
    a: RoaringBitmap,
    b: RoaringBitmap,
    human_readable: bool,
    out_a: Result<Encoded, EncodeError>,
    out_b: Result<Encoded, EncodeError>,
)
    requires
        a.same(&b),
        SuiBitmap::serializes(&a, human_readable, out_a),
        SuiBitmap::serializes(&b, human_readable, out_b),
    ensures
        out_a is Ok,
        out_b is Ok,
        out_a->Ok_0@ == out_b->Ok_0@,
{
}

} // verus!
