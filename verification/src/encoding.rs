//! The text encoding of the binary fields of a request.

use vstd::prelude::*;
use fastcrypto::encoding::Encoding;

verus! {

/// The error of `fastcrypto`, taken as it is.
#[verifier::external_type_specification]
#[verifier::external_body]
pub struct ExFastCryptoError(fastcrypto::error::FastCryptoError);

/// The bytes that a text stands for in Base64 (standard alphabet, padded),
/// or nothing where the text is no such encoding.
pub uninterp spec fn base64_decoded(text: Seq<char>) -> Option<Seq<u8>>;

/// `fastcrypto::encoding::Base64::decode`: the bytes that the text encodes,
/// or an error where it encodes none. The same text gives the same answer
/// every time; what the answer is for a given text is not said here.
#[verifier::external_body]
pub(crate) fn base64_decode(text: &str) -> (decoded: Result<Vec<u8>, fastcrypto::error::FastCryptoError>)
    ensures
        decoded matches Ok(bytes) ==> base64_decoded(text@) == Some(bytes@),
        decoded is Err ==> base64_decoded(text@) is None,
{
    fastcrypto::encoding::Base64::decode(text)
}

} // verus!
