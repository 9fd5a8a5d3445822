//! Signatures and key pairs as the outside crate holds them, and their
//! adaptors: the raw bytes, written as Base64 text.

use crate::adaptor::{expected_text, text_of, DeserializeAs, RoundTrip, Same, SerializeAs, Shape};
use crate::base64::{base64_bytes, base64_decode, base64_encode, base64_text};
use crate::codec::{write_base64, writes_base64};
use crate::hex::cause_of;
use crate::wire::{DecodeError, EncodeError, Encoded};
use fastcrypto::ed25519::{Ed25519AggregateSignature, Ed25519KeyPair, Ed25519Signature};
use fastcrypto::error::FastCryptoError;
use fastcrypto::traits::{EncodeDecodeBase64, ToFromBytes};
use vstd::prelude::*;

verus! {

/// The signature of one authority.
pub type AuthoritySignature = Ed25519Signature;

/// The signatures of several authorities, one after the other.
pub type AggregateAuthoritySignature = Ed25519AggregateSignature;

/// The key pair of an authority.
pub type AuthorityKeyPair = Ed25519KeyPair;

/// The number of bytes in one signature.
pub const SIGNATURE_LENGTH: usize = 64;

/// The number of bytes in the canonical form of a key pair.
pub const KEY_PAIR_LENGTH: usize = 32;

/// `fastcrypto::ed25519::Ed25519Signature`, carried as it is; what it holds
/// is named by [`signature_bytes`].
#[verifier::external_type_specification]
#[verifier::external_body]
pub struct ExEd25519Signature(Ed25519Signature);

/// `fastcrypto::ed25519::Ed25519AggregateSignature`, carried as it is; what
/// it holds is named by [`aggregate_bytes`].
#[verifier::external_type_specification]
#[verifier::external_body]
pub struct ExEd25519AggregateSignature(Ed25519AggregateSignature);

/// `fastcrypto::ed25519::Ed25519KeyPair`, carried as it is; what it holds is
/// named by [`key_pair_bytes`].
#[verifier::external_type_specification]
#[verifier::external_body]
pub struct ExEd25519KeyPair(Ed25519KeyPair);

/// The raw bytes of a signature: what its `as_ref` gives.
pub uninterp spec fn signature_bytes(signature: Ed25519Signature) -> Seq<u8>;

/// The raw bytes of an aggregate signature: what its `as_ref` gives.
pub uninterp spec fn aggregate_bytes(signature: Ed25519AggregateSignature) -> Seq<u8>;

/// The canonical bytes of a key pair: those of its private key, which its
/// `encode_base64` writes.
pub uninterp spec fn key_pair_bytes(key_pair: Ed25519KeyPair) -> Seq<u8>;

/// `as_ref` of `fastcrypto::ed25519::Ed25519Signature` gives the raw bytes
/// of the signature, sixty-four of them.
#[verifier::external_body]
pub(crate) fn signature_as_bytes(signature: &Ed25519Signature) -> (bytes: &[u8])
    ensures
        bytes@ == signature_bytes(*signature),
        bytes@.len() == SIGNATURE_LENGTH,
{
    signature.as_ref()
}

/// `from_bytes` of `fastcrypto::ed25519::Ed25519Signature` takes exactly
/// sixty-four bytes, which are then the raw bytes of the signature.
#[verifier::external_body]
pub(crate) fn signature_from_bytes(bytes: &[u8]) -> (r: Result<Ed25519Signature, FastCryptoError>)
    ensures
        match r {
            Ok(signature) => bytes@.len() == SIGNATURE_LENGTH && signature_bytes(signature)
                == bytes@,
            Err(_) => bytes@.len() != SIGNATURE_LENGTH,
        },
{
    Ed25519Signature::from_bytes(bytes)
}

/// `as_ref` of `fastcrypto::ed25519::Ed25519AggregateSignature` gives the
/// raw bytes of the aggregate.
#[verifier::external_body]
pub(crate) fn aggregate_as_bytes(signature: &Ed25519AggregateSignature) -> (bytes: &[u8])
    ensures
        bytes@ == aggregate_bytes(*signature),
{
    signature.as_ref()
}

/// `from_bytes` of `fastcrypto::ed25519::Ed25519AggregateSignature` takes
/// any whole number of signatures, whose bytes are then the raw bytes of the
/// aggregate.
#[verifier::external_body]
pub(crate) fn aggregate_from_bytes(bytes: &[u8]) -> (r: Result<
    Ed25519AggregateSignature,
    FastCryptoError,
>)
    ensures
        match r {
            Ok(signature) => bytes@.len() % SIGNATURE_LENGTH as nat == 0 && aggregate_bytes(
                signature,
            ) == bytes@,
            Err(_) => bytes@.len() % SIGNATURE_LENGTH as nat != 0,
        },
{
    Ed25519AggregateSignature::from_bytes(bytes)
}

/// `encode_base64` of `fastcrypto::ed25519::Ed25519KeyPair` gives the Base64
/// text of the canonical bytes of the key pair, thirty-two of them; the text
/// reads back as those bytes.
#[verifier::external_body]
pub(crate) fn key_pair_encode_base64(key_pair: &Ed25519KeyPair) -> (text: String)
    ensures
        text@ == base64_text(key_pair_bytes(*key_pair)),
        match base64_bytes(text@) {
            Some(bytes) => bytes == key_pair_bytes(*key_pair) && bytes.len() == KEY_PAIR_LENGTH,
            None => false,
        },
{
    EncodeDecodeBase64::encode_base64(key_pair)
}

/// `decode_base64` of `fastcrypto::ed25519::Ed25519KeyPair` takes the Base64
/// text of exactly thirty-two bytes, which are then the canonical bytes of
/// the key pair.
#[verifier::external_body]
pub(crate) fn key_pair_decode_base64(text: &str) -> (r: Result<Ed25519KeyPair, FastCryptoError>)
    ensures
        match r {
            Ok(key_pair) => base64_bytes(text@) == Some(key_pair_bytes(key_pair))
                && key_pair_bytes(key_pair).len() == KEY_PAIR_LENGTH,
            Err(_) => match base64_bytes(text@) {
                Some(bytes) => bytes.len() != KEY_PAIR_LENGTH,
                None => true,
            },
        },
{
    <Ed25519KeyPair as EncodeDecodeBase64>::decode_base64(text)
}

impl Same for Ed25519Signature {
    open spec fn same(&self, other: &Self) -> bool {
        signature_bytes(*self) == signature_bytes(*other)
    }
}

impl Same for Ed25519AggregateSignature {
    open spec fn same(&self, other: &Self) -> bool {
        aggregate_bytes(*self) == aggregate_bytes(*other)
    }
}

impl Same for Ed25519KeyPair {
    open spec fn same(&self, other: &Self) -> bool {
        key_pair_bytes(*self) == key_pair_bytes(*other)
    }
}

/// A key pair with a canonical form in bytes, written and read as Base64
/// text.
pub trait KeypairTraits: Same + Sized {
    /// The canonical bytes of the key pair.
    spec fn canonical_bytes(&self) -> Seq<u8>;

    /// The number of canonical bytes that every key pair of this kind has.
    spec fn canonical_length() -> nat;

    /// The Base64 text of the canonical bytes.
    fn encode_base64(&self) -> (text: String)
        ensures
            self.canonical_bytes().len() == Self::canonical_length(),
            text@ == base64_text(self.canonical_bytes()),
            base64_bytes(text@) == Some(self.canonical_bytes()),
    ;

    /// The key pair whose canonical bytes `text` stands for; it fails where
    /// `text` is not Base64 text or stands for another number of bytes.
    fn decode_base64(text: &str) -> (r: Result<Self, FastCryptoError>)
        ensures
            reads_base64_of_length(
                text@,
                Self::canonical_length(),
                match r {
                    Ok(key_pair) => Some(key_pair.canonical_bytes()),
                    Err(_) => None,
                },
            ),
    ;

    /// Two key pairs hold the same exactly where their canonical bytes are
    /// the same.
    proof fn same_by_canonical_bytes(&self, other: &Self)
        ensures
            self.same(other) == (self.canonical_bytes() == other.canonical_bytes()),
    ;
}

impl KeypairTraits for Ed25519KeyPair {
    open spec fn canonical_bytes(&self) -> Seq<u8> {
        key_pair_bytes(*self)
    }

    open spec fn canonical_length() -> nat {
        KEY_PAIR_LENGTH as nat
    }

    fn encode_base64(&self) -> (text: String) {
        key_pair_encode_base64(self)
    }

    fn decode_base64(text: &str) -> (r: Result<Self, FastCryptoError>) {
        key_pair_decode_base64(text)
    }

    proof fn same_by_canonical_bytes(&self, other: &Self) {
    }
}

/// Whether `out` is the Base64 text of `data`.
pub open spec fn writes_base64_text(data: Seq<u8>, out: Result<Encoded, EncodeError>) -> bool {
    out matches Ok(Encoded::Text(s)) && s@ == base64_text(data) && base64_bytes(s@) == Some(data)
}

/// Whether `out` is what is made of the Base64 text `s` where the bytes it
/// stands for must number `length`, and `held` are the bytes of the value
/// that was made, if one was.
pub open spec fn reads_base64_of_length(
    s: Seq<char>,
    length: nat,
    held: Option<Seq<u8>>,
) -> bool {
    match held {
        Some(bytes) => base64_bytes(s) == Some(bytes) && bytes.len() == length,
        None => base64_bytes(s) matches Some(bytes) ==> bytes.len() != length,
    }
}

/// Writes a key pair as the Base64 text of its canonical bytes, and reads it
/// from that text.
pub struct KeyPairBase64 {}

impl<T> SerializeAs<T> for KeyPairBase64 where T: KeypairTraits {
    open spec fn serializes(
        value: &T,
        human_readable: bool,
        out: Result<Encoded, EncodeError>,
    ) -> bool {
        &&& writes_base64_text(value.canonical_bytes(), out)
        &&& value.canonical_bytes().len() == T::canonical_length()
    }

    fn serialize_as(value: &T, human_readable: bool) -> (out: Result<Encoded, EncodeError>) {
        Ok(Encoded::Text(value.encode_base64()))
    }
}

impl<T> DeserializeAs<T> for KeyPairBase64 where T: KeypairTraits {
    open spec fn spec_expects(human_readable: bool) -> Shape {
        Shape::Text
    }

    open spec fn deserializes(
        input: &Encoded,
        human_readable: bool,
        out: Result<T, DecodeError>,
    ) -> bool {
        match *input {
            Encoded::Text(s) => reads_base64_of_length(
                s@,
                T::canonical_length(),
                match out {
                    Ok(key_pair) => Some(key_pair.canonical_bytes()),
                    Err(_) => None,
                },
            ),
            Encoded::Bytes(_) => out matches Err(e) && e.detail@ == expected_text(),
        }
    }

    fn expects(human_readable: bool) -> (shape: Shape) {
        Shape::Text
    }

    fn deserialize_as(input: &Encoded, human_readable: bool) -> (out: Result<T, DecodeError>) {
        let s = match text_of(input) {
            Ok(s) => s,
            Err(e) => {
                return Err(e);
            },
        };
        match T::decode_base64(s.as_str()) {
            Ok(key_pair) => Ok(key_pair),
            Err(e) => Err(DecodeError::new(cause_of(&e))),
        }
    }
}

impl<T> RoundTrip<T> for KeyPairBase64 where T: KeypairTraits {
    proof fn round_trip(
        value: &T,
        human_readable: bool,
        encoded: Encoded,
        back: Result<T, DecodeError>,
    ) {
        if back is Ok {
            value.same_by_canonical_bytes(&back->Ok_0);
        }
    }
}

/// Writes a signature as the Base64 text of its raw bytes, and reads it from
/// that text.
pub struct AuthSignature {}

impl SerializeAs<Ed25519Signature> for AuthSignature {
    open spec fn serializes(
        value: &Ed25519Signature,
        human_readable: bool,
        out: Result<Encoded, EncodeError>,
    ) -> bool {
        &&& writes_base64_text(signature_bytes(*value), out)
        &&& signature_bytes(*value).len() == SIGNATURE_LENGTH
    }

    fn serialize_as(value: &Ed25519Signature, human_readable: bool) -> (out: Result<
        Encoded,
        EncodeError,
    >) {
        Ok(Encoded::Text(base64_encode(signature_as_bytes(value))))
    }
}

impl DeserializeAs<Ed25519Signature> for AuthSignature {
    open spec fn spec_expects(human_readable: bool) -> Shape {
        Shape::Text
    }

    open spec fn deserializes(
        input: &Encoded,
        human_readable: bool,
        out: Result<Ed25519Signature, DecodeError>,
    ) -> bool {
        match *input {
            Encoded::Text(s) => reads_base64_of_length(
                s@,
                SIGNATURE_LENGTH as nat,
                match out {
                    Ok(signature) => Some(signature_bytes(signature)),
                    Err(_) => None,
                },
            ),
            Encoded::Bytes(_) => out matches Err(e) && e.detail@ == expected_text(),
        }
    }

    fn expects(human_readable: bool) -> (shape: Shape) {
        Shape::Text
    }

    fn deserialize_as(input: &Encoded, human_readable: bool) -> (out: Result<
        Ed25519Signature,
        DecodeError,
    >) {
        let s = match text_of(input) {
            Ok(s) => s,
            Err(e) => {
                return Err(e);
            },
        };
        let sig_bytes = match base64_decode(s.as_str()) {
            Ok(bytes) => bytes,
            Err(e) => {
                return Err(DecodeError::new(cause_of(&e)));
            },
        };
        match signature_from_bytes(sig_bytes.as_slice()) {
            Ok(signature) => Ok(signature),
            Err(e) => Err(DecodeError::new(cause_of(&e))),
        }
    }
}

impl RoundTrip<Ed25519Signature> for AuthSignature {
    proof fn round_trip(
        value: &Ed25519Signature,
        human_readable: bool,
        encoded: Encoded,
        back: Result<Ed25519Signature, DecodeError>,
    ) {
    }
}

/// Whether the bytes `held` of a value that was made of the Base64 text `s`,
/// if one was, are what `s` stands for: any whole number of signatures.
pub open spec fn reads_base64_of_signatures(s: Seq<char>, held: Option<Seq<u8>>) -> bool {
    match held {
        Some(bytes) => base64_bytes(s) == Some(bytes) && bytes.len() % SIGNATURE_LENGTH as nat
            == 0,
        None => base64_bytes(s) matches Some(bytes) ==> bytes.len() % SIGNATURE_LENGTH as nat != 0,
    }
}

/// Writes an aggregate signature as the Base64 text of its raw bytes, and
/// reads it from that text.
pub struct AggrAuthSignature {}

impl SerializeAs<Ed25519AggregateSignature> for AggrAuthSignature {
    open spec fn serializes(
        value: &Ed25519AggregateSignature,
        human_readable: bool,
        out: Result<Encoded, EncodeError>,
    ) -> bool {
        writes_base64(aggregate_bytes(*value), out)
    }

    fn serialize_as(value: &Ed25519AggregateSignature, human_readable: bool) -> (out: Result<
        Encoded,
        EncodeError,
    >) {
        write_base64(aggregate_as_bytes(value))
    }
}

impl DeserializeAs<Ed25519AggregateSignature> for AggrAuthSignature {
    open spec fn spec_expects(human_readable: bool) -> Shape {
        Shape::Text
    }

    open spec fn deserializes(
        input: &Encoded,
        human_readable: bool,
        out: Result<Ed25519AggregateSignature, DecodeError>,
    ) -> bool {
        match *input {
            Encoded::Text(s) => reads_base64_of_signatures(
                s@,
                match out {
                    Ok(signature) => Some(aggregate_bytes(signature)),
                    Err(_) => None,
                },
            ),
            Encoded::Bytes(_) => out matches Err(e) && e.detail@ == expected_text(),
        }
    }

    fn expects(human_readable: bool) -> (shape: Shape) {
        Shape::Text
    }

    fn deserialize_as(input: &Encoded, human_readable: bool) -> (out: Result<
        Ed25519AggregateSignature,
        DecodeError,
    >) {
        let s = match text_of(input) {
            Ok(s) => s,
            Err(e) => {
                return Err(e);
            },
        };
        let sig_bytes = match base64_decode(s.as_str()) {
            Ok(bytes) => bytes,
            Err(e) => {
                return Err(DecodeError::new(cause_of(&e)));
            },
        };
        match aggregate_from_bytes(sig_bytes.as_slice()) {
            Ok(signature) => Ok(signature),
            Err(e) => Err(DecodeError::new(cause_of(&e))),
        }
    }
}

/// An aggregate whose raw bytes are a whole number of signatures is read
/// back as an aggregate with the same bytes.
pub proof fn lemma_aggregate_round_trip(
    value: &Ed25519AggregateSignature,
    human_readable: bool,
    encoded: Encoded,
    back: Result<Ed25519AggregateSignature, DecodeError>,
)
    requires
        aggregate_bytes(*value).len() % SIGNATURE_LENGTH as nat == 0,
        AggrAuthSignature::serializes(value, human_readable, Ok(encoded)),
        AggrAuthSignature::deserializes(&encoded, human_readable, back),
    ensures
        back matches Ok(v) && value.same(&v),
{
}

} // verus!
