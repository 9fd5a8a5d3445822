//! Base64 text with the standard alphabet and padding, as the outside codec
//! writes and reads it.

use fastcrypto::encoding::{Base64, Encoding};
use fastcrypto::error::FastCryptoError;
use vstd::prelude::*;

verus! {

/// The Base64 text of `bytes`: what the outside encoder writes for them.
pub uninterp spec fn base64_text(bytes: Seq<u8>) -> Seq<char>;

/// The bytes that `text` stands for, where it is Base64 text: what the
/// outside decoder reads in it.
pub uninterp spec fn base64_bytes(text: Seq<char>) -> Option<Seq<u8>>;

/// The longest input that the outside encoder takes.
pub open spec fn base64_input_limit() -> int {
    usize::MAX as int / 4
}

/// `fastcrypto::encoding::Base64::encode` gives the Base64 text of `data`,
/// which reads back as `data`. It refuses longer inputs than the limit.
#[verifier::external_body]
pub(crate) fn base64_encode(data: &[u8]) -> (text: String)
    requires
        data@.len() <= base64_input_limit(),
    ensures
        text@ == base64_text(data@),
        base64_bytes(text@) == Some(data@),
{
    Base64::encode(data)
}

/// `fastcrypto::encoding::Base64::decode` gives the bytes that `text` stands
/// for, and fails where it is not Base64 text.
#[verifier::external_body]
pub(crate) fn base64_decode(text: &str) -> (r: Result<Vec<u8>, FastCryptoError>)
    ensures
        match r {
            Ok(bytes) => base64_bytes(text@) == Some(bytes@),
            Err(_) => base64_bytes(text@) is None,
        },
{
    Base64::decode(text)
}

} // verus!
