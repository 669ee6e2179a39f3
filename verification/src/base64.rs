//! Bytes as base64 text in the standard alphabet, padded when written. Job
//! data is read with or without padding; what the full node sends is read
//! only with its padding.

use base64::Engine;
use vstd::prelude::*;

verus! {

/// The base64 text of some bytes: standard alphabet, with padding.
pub uninterp spec fn encoded(bytes: Seq<u8>) -> Seq<char>;

/// The bytes that a base64 text stands for, where it is one: standard
/// alphabet, padding present or absent.
pub uninterp spec fn decoded(text: Seq<char>) -> Option<Seq<u8>>;

/// The bytes that a base64 text stands for, where it is one: standard
/// alphabet, with its padding.
pub uninterp spec fn decoded_padded(text: Seq<char>) -> Option<Seq<u8>>;

/// Calls `encode` of `base64::engine::general_purpose::STANDARD`. The
/// contract names the text, and claims that reading it gives the bytes back.
#[verifier::external_body]
pub(crate) fn encode(bytes: &[u8]) -> (text: String)
    ensures
        text@ == encoded(bytes@),
        decoded(text@) == Some(bytes@),
{
    base64::engine::general_purpose::STANDARD.encode(bytes)
}

/// Calls `decode` of a `base64::engine::GeneralPurpose` engine made with the
/// standard alphabet and `DecodePaddingMode::Indifferent`, and drops the
/// kind of error. The contract names the bytes.
#[verifier::external_body]
pub(crate) fn decode(text: &str) -> (bytes: Option<Vec<u8>>)
    ensures
        match bytes {
            Some(b) => decoded(text@) == Some(b@),
            None => decoded(text@) is None,
        },
{
    base64::engine::GeneralPurpose::new(
        &base64::alphabet::STANDARD,
        base64::engine::GeneralPurposeConfig::new().with_decode_padding_mode(
            base64::engine::DecodePaddingMode::Indifferent,
        ),
    ).decode(text).ok()
}

/// Calls `decode` of `base64::engine::general_purpose::STANDARD`, and drops
/// the kind of error. The contract names the bytes.
#[verifier::external_body]
pub(crate) fn decode_padded(text: &str) -> (bytes: Option<Vec<u8>>)
    ensures
        match bytes {
            Some(b) => decoded_padded(text@) == Some(b@),
            None => decoded_padded(text@) is None,
        },
{
    base64::engine::general_purpose::STANDARD.decode(text).ok()
}

} // verus!
