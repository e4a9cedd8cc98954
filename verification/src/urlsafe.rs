//! URL-safe base64 of the `base64` crate, and what this library assumes of it.
//!
//! Nothing in this file is proved. Each function below makes one call into
//! `base64`, and its contract is taken on trust from that crate's source and
//! documentation.

use base64::alphabet::URL_SAFE as URL_SAFE_ALPHABET;
use base64::engine::general_purpose::{GeneralPurpose, GeneralPurposeConfig, URL_SAFE};
use base64::engine::DecodePaddingMode;
use base64::DecodeError as AlphabetError;
use base64::Engine;
use vstd::prelude::*;

verus! {

/// `base64::DecodeError`, carried as a value that nothing here looks into.
#[verifier::external_type_specification]
#[verifier::external_body]
pub struct ExAlphabetError(AlphabetError);

/// The text that the engine `URL_SAFE` encodes the given bytes to: the alphabet
/// with `-` and `_`, padded with `=` to a multiple of four characters.
pub uninterp spec fn urlsafe_text(bytes: Seq<u8>) -> Seq<char>;

/// The bytes that a URL-safe engine which takes padding or leaves it
/// (`DecodePaddingMode::Indifferent`) decodes the given text to, or `None` where
/// it returns an error.
pub uninterp spec fn urlsafe_bytes(text: Seq<char>) -> Option<Seq<u8>>;

/// `Engine::encode` on `URL_SAFE`: the text for `bytes`, which the decoding of
/// [`urlsafe_decode`] turns back into the same bytes.
#[verifier::external_body]
pub(crate) fn urlsafe_encode(bytes: &[u8]) -> (text: String)
    ensures
        text@ == urlsafe_text(bytes@),
        urlsafe_bytes(text@) == Some(bytes@),
{
    URL_SAFE.encode(bytes)
}

/// `Engine::decode` on a URL-safe engine made with
/// `DecodePaddingMode::Indifferent`: the bytes that `text` stands for, or the
/// crate's error.
#[verifier::external_body]
pub(crate) fn urlsafe_decode(text: &str) -> (decoded: Result<Vec<u8>, AlphabetError>)
    ensures
        match decoded {
            Ok(bytes) => urlsafe_bytes(text@) == Some(bytes@),
            Err(_) => urlsafe_bytes(text@) is None,
        },
{
    let config = GeneralPurposeConfig::new();
    let lenient = config.with_decode_padding_mode(DecodePaddingMode::Indifferent);
    GeneralPurpose::new(&URL_SAFE_ALPHABET, lenient).decode(text)
}

} // verus!
