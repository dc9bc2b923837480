//! The text encoder: binary data to transport-safe text and back.

use crate::cli::base64::Base64Format;
use crate::error::TextError;
use crate::utils::{read_data, trim_end};
use vstd::prelude::*;
use vstd::utf8::*;

verus! {

/// The text that the standard, padded base64 encoder gives for `data`.
pub uninterp spec fn standard_text(data: Seq<u8>) -> Seq<char>;

/// The data that the standard, padded base64 decoder reads from the bytes
/// of `text`, where it accepts them.
pub uninterp spec fn standard_data(text: Seq<u8>) -> Option<Seq<u8>>;

/// The text that the URL-safe, unpadded base64 encoder gives for `data`.
pub uninterp spec fn url_safe_text(data: Seq<u8>) -> Seq<char>;

/// The data that the URL-safe, unpadded base64 decoder reads from the
/// bytes of `text`, where it accepts them.
pub uninterp spec fn url_safe_data(text: Seq<u8>) -> Option<Seq<u8>>;

/// The longest input whose encoding still fits a buffer.
pub open spec fn max_encodable_len() -> int {
    usize::MAX / 8 * 3
}

/// The text that stands for `data` in the dialect `format`.
pub open spec fn encoded_text(data: Seq<u8>, format: Base64Format) -> Seq<char> {
    match format {
        Base64Format::Standard => standard_text(data),
        Base64Format::UrlSafe => url_safe_text(data),
    }
}

/// The data that the bytes of `text` stand for in the dialect `format`.
pub open spec fn decoded_data(text: Seq<u8>, format: Base64Format) -> Option<Seq<u8>> {
    match format {
        Base64Format::Standard => standard_data(text),
        Base64Format::UrlSafe => url_safe_data(text),
    }
}

/// What encoding `data` comes to: its text, unless it is too long.
pub open spec fn encode_spec(data: Seq<u8>, format: Base64Format) -> Result<Seq<char>, TextError> {
    if data.len() <= max_encodable_len() {
        Ok(encoded_text(data, format))
    } else {
        Err(TextError::TooLong)
    }
}

/// What decoding the bytes of `text` comes to.
pub open spec fn decode_spec(text: Seq<u8>, format: Base64Format) -> Result<Seq<u8>, TextError> {
    match decoded_data(text, format) {
        Some(data) => Ok(data),
        None => Err(TextError::Decode),
    }
}

/// A text result by its characters.
pub open spec fn text_view(r: Result<String, TextError>) -> Result<Seq<char>, TextError> {
    match r {
        Ok(s) => Ok(s@),
        Err(e) => Err(e),
    }
}

/// A binary result by its bytes.
pub open spec fn bytes_view(r: Result<Vec<u8>, TextError>) -> Result<Seq<u8>, TextError> {
    match r {
        Ok(v) => Ok(v@),
        Err(e) => Err(e),
    }
}

/// Calls `Engine::encode` on base64's `STANDARD` engine. The result is the
/// encoder's text for `data`, and the same engine's decoder reads `data`
/// back from it. The bound keeps the encoder's buffer within what a
/// vector can hold.
#[verifier::external_body]
fn standard_encode(data: &[u8]) -> (text: String)
    requires
        data@.len() <= max_encodable_len(),
    ensures
        text@ == standard_text(data@),
        standard_data(encode_utf8(text@)) == Some(data@),
{
    ::base64::Engine::encode(&::base64::engine::general_purpose::STANDARD, data)
}

/// Calls `Engine::decode` on base64's `STANDARD` engine, which either
/// reads data from the text or refuses it.
#[verifier::external_body]
fn standard_decode(text: &[u8]) -> (r: Option<Vec<u8>>)
    ensures
        match r {
            Some(data) => standard_data(text@) == Some(data@),
            None => standard_data(text@) is None,
        },
{
    ::base64::Engine::decode(&::base64::engine::general_purpose::STANDARD, text).ok()
}

/// Calls `Engine::encode` on base64's `URL_SAFE_NO_PAD` engine. The result
/// is the encoder's text for `data`, and the same engine's decoder reads
/// `data` back from it. The bound keeps the encoder's buffer within what a
/// vector can hold.
#[verifier::external_body]
fn url_safe_encode(data: &[u8]) -> (text: String)
    requires
        data@.len() <= max_encodable_len(),
    ensures
        text@ == url_safe_text(data@),
        url_safe_data(encode_utf8(text@)) == Some(data@),
{
    ::base64::Engine::encode(&::base64::engine::general_purpose::URL_SAFE_NO_PAD, data)
}

/// Calls `Engine::decode` on base64's `URL_SAFE_NO_PAD` engine, which
/// either reads data from the text or refuses it.
#[verifier::external_body]
fn url_safe_decode(text: &[u8]) -> (r: Option<Vec<u8>>)
    ensures
        match r {
            Some(data) => url_safe_data(text@) == Some(data@),
            None => url_safe_data(text@) is None,
        },
{
    ::base64::Engine::decode(&::base64::engine::general_purpose::URL_SAFE_NO_PAD, text).ok()
}

/// Encodes `data` as text in the dialect `format`. Decoding the bytes of
/// that text in the same dialect gives `data` back.
pub fn encode(data: &[u8], format: Base64Format) -> (r: Result<String, TextError>)
    ensures
        text_view(r) == encode_spec(data@, format),
        r matches Ok(text) ==> decode_spec(encode_utf8(text@), format) == Ok::<
            Seq<u8>,
            TextError,
        >(data@),
{
    if data.len() > usize::MAX / 8 * 3 {
        return Err(TextError::TooLong);
    }
    match format {
        Base64Format::Standard => Ok(standard_encode(data)),
        Base64Format::UrlSafe => Ok(url_safe_encode(data)),
    }
}

/// Decodes the bytes of a text in the dialect `format`.
pub fn decode(text: &[u8], format: Base64Format) -> (r: Result<Vec<u8>, TextError>)
    ensures
        bytes_view(r) == decode_spec(text@, format),
{
    let decoded = match format {
        Base64Format::Standard => standard_decode(text),
        Base64Format::UrlSafe => url_safe_decode(text),
    };
    match decoded {
        Some(data) => Ok(data),
        None => Err(TextError::Decode),
    }
}

/// Encodes input as it came from its source: the trailing whitespace goes,
/// the rest is encoded.
pub fn process_encode(input: &[u8], format: Base64Format) -> (r: Result<String, TextError>)
    ensures
        text_view(r) == encode_spec(trim_end(input@), format),
        r matches Ok(text) ==> decode_spec(encode_utf8(text@), format) == Ok::<
            Seq<u8>,
            TextError,
        >(trim_end(input@)),
{
    let buf = read_data(input);
    encode(buf.as_slice(), format)
}

/// Decodes input as it came from its source: the trailing whitespace goes,
/// the rest is decoded.
pub fn process_decode(input: &[u8], format: Base64Format) -> (r: Result<Vec<u8>, TextError>)
    ensures
        bytes_view(r) == decode_spec(trim_end(input@), format),
{
    let buf = read_data(input);
    decode(buf.as_slice(), format)
}

} // verus!
