//! What an adaptor hands to an encoder and takes from a decoder, and the two
//! ways in which it can fail.

use vstd::prelude::*;
use vstd::string::*;

verus! {

/// The encoded form of a value: text for encoders that write for people,
/// bytes for compact ones.
#[derive(Debug, Clone, PartialEq, Eq)]
pub enum Encoded {
    Text(String),
    Bytes(Vec<u8>),
}

/// The mathematical content of an [`Encoded`].
pub enum EncodedView {
    Text(Seq<char>),
    Bytes(Seq<u8>),
}

impl View for Encoded {
    type V = EncodedView;

    open spec fn view(&self) -> EncodedView {
        match self {
            Encoded::Text(s) => EncodedView::Text(s@),
            Encoded::Bytes(b) => EncodedView::Bytes(b@),
        }
    }
}

/// The text that opens the message of every [`DecodeError`].
pub open spec fn decode_failure_prefix() -> Seq<char> {
    "byte deserialization failed, cause by: "@
}

/// The text that opens the message of every [`EncodeError`].
pub open spec fn encode_failure_prefix() -> Seq<char> {
    "byte serialization failed, cause by: "@
}

/// An adaptor could not turn its input into a value.
#[derive(Debug, Clone, PartialEq, Eq)]
pub struct DecodeError {
    /// The cause, in a few words.
    pub detail: String,
}

impl DecodeError {
    /// The message of this error as a mathematical string.
    pub open spec fn spec_message(&self) -> Seq<char> {
        decode_failure_prefix() + self.detail@
    }

    pub fn new(detail: String) -> (e: DecodeError)
        ensures
            e.detail == detail,
    {
        DecodeError { detail }
    }

    /// The message handed to the decoder: the fixed opening, then the cause.
    pub fn message(&self) -> (m: String)
        ensures
            m@ == self.spec_message(),
    {
        let mut m = String::from_str("byte deserialization failed, cause by: ");
        m.append(self.detail.as_str());
        m
    }
}

/// An adaptor could not produce the encoded form of a value.
#[derive(Debug, Clone, PartialEq, Eq)]
pub struct EncodeError {
    /// The cause, in a few words.
    pub detail: String,
}

impl EncodeError {
    /// The message of this error as a mathematical string.
    pub open spec fn spec_message(&self) -> Seq<char> {
        encode_failure_prefix() + self.detail@
    }

    pub fn new(detail: String) -> (e: EncodeError)
        ensures
            e.detail == detail,
    {
        EncodeError { detail }
    }

    /// The message handed to the encoder: the fixed opening, then the cause.
    pub fn message(&self) -> (m: String)
        ensures
            m@ == self.spec_message(),
    {
        let mut m = String::from_str("byte serialization failed, cause by: ");
        m.append(self.detail.as_str());
        m
    }
}

} // verus!
