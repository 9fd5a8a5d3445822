//! The two operations of an encoding adaptor, and the adaptor that picks
//! between a codec for people and a codec for machines.

use crate::wire::{DecodeError, EncodeError, Encoded};
use std::marker::PhantomData;
use vstd::prelude::*;
use vstd::string::*;

verus! {

/// The kind of input that an adaptor asks a decoder for.
#[derive(Debug, Clone, Copy, PartialEq, Eq, Structural)]
pub enum Shape {
    Text,
    Bytes,
}

/// Values that are compared by what they hold.
pub trait Same {
    spec fn same(&self, other: &Self) -> bool;
}

/// An adaptor that writes values of `T`.
pub trait SerializeAs<T> {
    /// Whether `out` is what this adaptor hands to an encoder for `value`;
    /// `human_readable` is the encoder's answer to whether it writes for people.
    spec fn serializes(value: &T, human_readable: bool, out: Result<Encoded, EncodeError>) -> bool;

    fn serialize_as(value: &T, human_readable: bool) -> (out: Result<Encoded, EncodeError>)
        ensures
            Self::serializes(value, human_readable, out),
    ;
}

/// An adaptor that reads values of `T`.
pub trait DeserializeAs<T> {
    /// The kind of input this adaptor asks the decoder for.
    spec fn spec_expects(human_readable: bool) -> Shape;

    /// Whether `out` is what this adaptor makes of `input`; `human_readable`
    /// is the decoder's answer to whether it reads what was written for people.
    spec fn deserializes(input: &Encoded, human_readable: bool, out: Result<T, DecodeError>) -> bool;

    fn expects(human_readable: bool) -> (shape: Shape)
        ensures
            shape == Self::spec_expects(human_readable),
    ;

    fn deserialize_as(input: &Encoded, human_readable: bool) -> (out: Result<T, DecodeError>)
        ensures
            Self::deserializes(input, human_readable, out),
    ;
}

/// An adaptor that reads back what it wrote.
pub trait RoundTrip<T: Same>: SerializeAs<T> + DeserializeAs<T> {
    /// Whatever the adaptor wrote for `value`, it reads back as a value that
    /// holds the same, with the same kind of encoder and decoder.
    proof fn round_trip(
        value: &T,
        human_readable: bool,
        encoded: Encoded,
        back: Result<T, DecodeError>,
    )
        requires
            Self::serializes(value, human_readable, Ok(encoded)),
            Self::deserializes(&encoded, human_readable, back),
        ensures
            back matches Ok(v) && value.same(&v),
    ;
}

/// The cause given where a decoder hands bytes to an adaptor that reads text.
pub open spec fn expected_text() -> Seq<char> {
    "invalid type: bytes, expected text"@
}

/// The cause given where a decoder hands text to an adaptor that reads bytes.
pub open spec fn expected_bytes() -> Seq<char> {
    "invalid type: text, expected bytes"@
}

/// The text of an input, where it is text.
pub fn text_of(input: &Encoded) -> (r: Result<&String, DecodeError>)
    ensures
        match r {
            Ok(s) => *input == Encoded::Text(*s),
            Err(e) => input is Bytes && e.detail@ == expected_text(),
        },
{
    match input {
        Encoded::Text(s) => Ok(s),
        Encoded::Bytes(_) => Err(
            DecodeError::new(String::from_str("invalid type: bytes, expected text")),
        ),
    }
}

/// The bytes of an input, where it is bytes.
pub fn bytes_of(input: &Encoded) -> (r: Result<&Vec<u8>, DecodeError>)
    ensures
        match r {
            Ok(b) => *input == Encoded::Bytes(*b),
            Err(e) => input is Text && e.detail@ == expected_bytes(),
        },
{
    match input {
        Encoded::Bytes(b) => Ok(b),
        Encoded::Text(_) => Err(
            DecodeError::new(String::from_str("invalid type: text, expected bytes")),
        ),
    }
}

/// Chooses between two adaptors by what the encoder or decoder says of
/// itself: `H` where it is meant for people, `R` where it is not.
pub struct Readable<H, R> {
    human_readable: PhantomData<H>,
    non_human_readable: PhantomData<R>,
}

impl<T, H, R> SerializeAs<T> for Readable<H, R> where H: SerializeAs<T>, R: SerializeAs<T> {
    open spec fn serializes(
        value: &T,
        human_readable: bool,
        out: Result<Encoded, EncodeError>,
    ) -> bool {
        if human_readable {
            H::serializes(value, human_readable, out)
        } else {
            R::serializes(value, human_readable, out)
        }
    }

    fn serialize_as(value: &T, human_readable: bool) -> (out: Result<Encoded, EncodeError>) {
        if human_readable {
            H::serialize_as(value, human_readable)
        } else {
            R::serialize_as(value, human_readable)
        }
    }
}

impl<T, H, R> DeserializeAs<T> for Readable<H, R> where H: DeserializeAs<T>, R: DeserializeAs<T> {
    open spec fn spec_expects(human_readable: bool) -> Shape {
        if human_readable {
            H::spec_expects(human_readable)
        } else {
            R::spec_expects(human_readable)
        }
    }

    open spec fn deserializes(
        input: &Encoded,
        human_readable: bool,
        out: Result<T, DecodeError>,
    ) -> bool {
        if human_readable {
            H::deserializes(input, human_readable, out)
        } else {
            R::deserializes(input, human_readable, out)
        }
    }

    fn expects(human_readable: bool) -> (shape: Shape) {
        if human_readable {
            H::expects(human_readable)
        } else {
            R::expects(human_readable)
        }
    }

    fn deserialize_as(input: &Encoded, human_readable: bool) -> (out: Result<T, DecodeError>) {
        if human_readable {
            H::deserialize_as(input, human_readable)
        } else {
            R::deserialize_as(input, human_readable)
        }
    }
}

impl<T: Same, H, R> RoundTrip<T> for Readable<H, R> where H: RoundTrip<T>, R: RoundTrip<T> {
    proof fn round_trip(
        value: &T,
        human_readable: bool,
        encoded: Encoded,
        back: Result<T, DecodeError>,
    ) {
        if human_readable {
            H::round_trip(value, human_readable, encoded, back);
        } else {
            R::round_trip(value, human_readable, encoded, back);
        }
    }
}

/// The codec for people is never run for an encoder or a decoder that is not
/// meant for people, nor the other codec for one that is: what [`Readable`]
/// writes and reads is what the codec picked by `human_readable` writes and
/// reads, and nothing of the other.
pub proof fn lemma_readable_delegates<T, H, R>(
    value: &T,
    input: &Encoded,
    human_readable: bool,
    written: Result<Encoded, EncodeError>,
    read: Result<T, DecodeError>,
) where H: SerializeAs<T> + DeserializeAs<T>, R: SerializeAs<T> + DeserializeAs<T>
    ensures
        human_readable ==> {
            &&& <Readable<H, R> as SerializeAs<T>>::serializes(value, human_readable, written)
                == H::serializes(value, human_readable, written)
            &&& <Readable<H, R> as DeserializeAs<T>>::deserializes(input, human_readable, read)
                == H::deserializes(input, human_readable, read)
            &&& <Readable<H, R> as DeserializeAs<T>>::spec_expects(human_readable)
                == H::spec_expects(human_readable)
        },
        !human_readable ==> {
            &&& <Readable<H, R> as SerializeAs<T>>::serializes(value, human_readable, written)
                == R::serializes(value, human_readable, written)
            &&& <Readable<H, R> as DeserializeAs<T>>::deserializes(input, human_readable, read)
                == R::deserializes(input, human_readable, read)
            &&& <Readable<H, R> as DeserializeAs<T>>::spec_expects(human_readable)
                == R::spec_expects(human_readable)
        },
{
}

} // verus!
