//! Encodings that the wire format rests on: Base64, UTF-8 and the form
//! encoding of a query string.

use base64::DecodeError;
use std::string::FromUtf8Error;
use vstd::prelude::*;
use vstd::utf8::{decode_utf8, valid_utf8};

verus! {

/// `base64::DecodeError`, carried through without a look inside.
#[verifier::external_type_specification]
#[verifier::external_body]
pub struct ExDecodeError(DecodeError);

/// `std::string::FromUtf8Error`, carried through without a look inside.
#[verifier::external_type_specification]
#[verifier::external_body]
pub struct ExFromUtf8Error(FromUtf8Error);

/// The name and value pairs that `form_urlencoded::parse` reads from the
/// bytes of `query`, in their order, each percent-decoded.
pub uninterp spec fn form_pairs(query: Seq<char>) -> Seq<(Seq<char>, Seq<char>)>;

/// Calls `form_urlencoded::parse` on the bytes of `query` and collects the
/// pairs that its iterator yields, as owned strings.
///
/// Claimed: the pairs are a function of the query alone, named [`form_pairs`].
#[verifier::external_body]
pub(crate) fn query_pairs(query: &str) -> (pairs: Vec<(String, String)>)
    ensures
        pairs.deep_view() == form_pairs(query@),
{
    form_urlencoded::parse(query.as_bytes()).into_owned().collect()
}

/// The bytes that `base64::decode` reads from `encoded` (standard alphabet,
/// padded), or `None` where it rejects the text.
pub uninterp spec fn base64_decoded(encoded: Seq<char>) -> Option<Seq<u8>>;

/// The text that `base64::encode` writes for `bytes` (standard alphabet, padded).
pub uninterp spec fn base64_encoded(bytes: Seq<u8>) -> Seq<char>;

/// Calls `base64::decode` on `encoded`.
///
/// Claimed: the outcome is a function of the text alone, named
/// [`base64_decoded`]; an error stands for `None`.
#[verifier::external_body]
pub(crate) fn base64_decode(encoded: &str) -> (decoded: Result<Vec<u8>, DecodeError>)
    ensures
        match decoded {
            Ok(bytes) => base64_decoded(encoded@) == Some(bytes@),
            Err(_) => base64_decoded(encoded@) is None,
        },
{
    base64::decode(encoded)
}

/// Calls `base64::encode` on `bytes`.
///
/// Claimed: the text is a function of the bytes alone, named
/// [`base64_encoded`], and `base64::decode` reads the same bytes back from it.
#[verifier::external_body]
pub(crate) fn base64_encode(bytes: &[u8]) -> (encoded: String)
    ensures
        encoded@ == base64_encoded(bytes@),
        base64_decoded(encoded@) == Some(bytes@),
{
    base64::encode(bytes)
}

/// `String::from_utf8` succeeds exactly on well-formed UTF-8, and the string
/// then holds the characters that the bytes encode.
pub assume_specification[ std::string::String::from_utf8 ](bytes: Vec<u8>) -> (text: Result<
    std::string::String,
    FromUtf8Error,
>)
    ensures
        match text {
            Ok(s) => valid_utf8(bytes@) && s@ == decode_utf8(bytes@),
            Err(_) => !valid_utf8(bytes@),
        },
;

} // verus!
