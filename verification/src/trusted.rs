//! Everything that is taken on trust: the outside types that values of
//! this crate carry, and the outside functions that its logic calls, each
//! with what is claimed of it. Nothing in this file is proved.

use sha2::Digest;
use vstd::prelude::*;
use vstd::utf8::encode_utf8;

verus! {

/// `reqwest::Error`: a failed HTTP exchange. Carried, never looked into.
#[verifier::external_type_specification]
#[verifier::external_body]
pub struct ExReqwestError(reqwest::Error);

/// `serde_json::Error`: a body that could not be decoded. Carried, never
/// looked into.
#[verifier::external_type_specification]
#[verifier::external_body]
pub struct ExSerdeJsonError(serde_json::Error);

/// `std::io::Error`: a failed file operation. Only its kind is ever asked
/// for.
#[verifier::external_type_specification]
#[verifier::external_body]
pub struct ExIoError(std::io::Error);

/// `image::ImageError`: a payload that is no image. Carried, never looked
/// into.
#[verifier::external_type_specification]
#[verifier::external_body]
pub struct ExImageError(image::ImageError);

/// `reqwest::header::InvalidHeaderValue`: a text refused as a header
/// value. Carried, never looked into.
#[verifier::external_type_specification]
#[verifier::external_body]
pub struct ExInvalidHeaderValue(reqwest::header::InvalidHeaderValue);

/// `image::ImageFormat`: the container format that a sniff names. Only
/// whether there is one matters here.
#[verifier::external_type_specification]
#[verifier::external_body]
pub struct ExImageFormat(image::ImageFormat);

/// `reqwest::header::HeaderValue`: a text accepted as a header value.
#[verifier::external_type_specification]
#[verifier::external_body]
pub struct ExHeaderValue(reqwest::header::HeaderValue);

/// `Clone` for `Result`, which copies whichever side the result holds.
/// Nothing is claimed of the copy.
pub assume_specification<T, E>[ <Result<T, E> as Clone>::clone ](result: &Result<T, E>) -> (copy:
    Result<T, E>)
    where
        T: Clone,
        E: Clone,
;

/// The SHA-256 digest of a byte string.
pub uninterp spec fn sha256(data: Seq<u8>) -> Seq<u8>;

/// Feeds `data` to a fresh `sha2::Sha256` hasher (`Digest::new`, `update`,
/// `finalize`) and returns the 32 bytes of the digest, which depend on the
/// bytes of `data` alone.
#[verifier::external_body]
pub(crate) fn sha256_digest(data: &[u8]) -> (digest: [u8; 32])
    ensures
        digest@ == sha256(data@),
{
    let mut hasher = sha2::Sha256::new();
    hasher.update(data);
    hasher.finalize().into()
}

/// Lower-case hexadecimal text of a byte string: two digits per byte, the
/// high half first.
pub open spec fn hex_lower(data: Seq<u8>) -> Seq<char> {
    Seq::new(
        2 * data.len(),
        |i: int|
            "0123456789abcdef"@[(if i % 2 == 0 {
                data[i / 2] >> 4
            } else {
                data[i / 2] & 0x0f
            }) as int],
    )
}

/// Calls `hex::encode`, which writes each byte as two digits taken from the
/// table `0123456789abcdef`: first the one for the high four bits, then the
/// one for the low four.
#[verifier::external_body]
pub(crate) fn hex_encode(data: &[u8]) -> (text: String)
    ensures
        text@ == hex_lower(data@),
{
    hex::encode(data)
}

/// Whether a payload opens with the signature of an image container that the
/// `image` crate knows.
pub uninterp spec fn is_known_image(bytes: Seq<u8>) -> bool;

/// Calls `image::guess_format`, which compares the first bytes of the buffer
/// with a fixed table of signatures. It names a format exactly when one of
/// them matches, which depends on the bytes alone.
#[verifier::external_body]
pub(crate) fn guess_format(bytes: &[u8]) -> (guess: Result<image::ImageFormat, image::ImageError>)
    ensures
        guess is Ok <==> is_known_image(bytes@),
{
    image::guess_format(bytes)
}

/// Whether the kind of an error is "already exists".
pub uninterp spec fn reports_already_exists(error: std::io::Error) -> bool;

/// Asks `std::io::Error::kind` whether the error reports that the entry
/// exists already. The kind is fixed when the error is made, so the answer
/// depends on the error alone.
#[verifier::external_body]
pub(crate) fn is_already_exists(error: &std::io::Error) -> (yes: bool)
    ensures
        yes == reports_already_exists(*error),
{
    matches!(error.kind(), std::io::ErrorKind::AlreadyExists)
}

/// Writes out a `reqwest::Error` with its `Debug` impl. Nothing is claimed
/// of the text.
#[verifier::external_body]
pub(crate) fn reqwest_error_debug(error: &reqwest::Error) -> (text: String) {
    format!("{error:?}")
}

/// Writes out a `serde_json::Error` with its `Debug` impl. Nothing is
/// claimed of the text.
#[verifier::external_body]
pub(crate) fn serde_json_error_debug(error: &serde_json::Error) -> (text: String) {
    format!("{error:?}")
}

/// Writes out a `std::io::Error` with its `Debug` impl. Nothing is claimed
/// of the text, which may quote the operating system.
#[verifier::external_body]
pub(crate) fn io_error_debug(error: &std::io::Error) -> (text: String) {
    format!("{error:?}")
}

/// Writes out an `image::ImageError` with its `Display` impl. Nothing is
/// claimed of the text.
#[verifier::external_body]
pub(crate) fn image_error_display(error: &image::ImageError) -> (text: String) {
    format!("{error}")
}

/// Whether a byte may stand in a header value: anything from the space
/// upwards but the delete character, and the tab.
pub open spec fn is_header_byte(b: u8) -> bool {
    (b >= 32 && b != 127) || b == 9
}

/// Whether a text can be sent as a header value: every byte of its UTF-8
/// form may stand in one.
pub open spec fn valid_header_value(text: Seq<char>) -> bool {
    forall|i: int|
        0 <= i < encode_utf8(text).len() ==> is_header_byte(#[trigger] encode_utf8(text)[i])
}

/// Calls `HeaderValue::from_str`, which scans the bytes of the text and
/// refuses it exactly when one of them is below the space and not the tab,
/// or is the delete character.
#[verifier::external_body]
pub(crate) fn header_value(text: &str) -> (out: Result<
    reqwest::header::HeaderValue,
    reqwest::header::InvalidHeaderValue,
>)
    ensures
        out is Ok <==> valid_header_value(text@),
{
    reqwest::header::HeaderValue::from_str(text)
}

/// The lower-case form of a text by Unicode's case mapping.
pub uninterp spec fn lowercased(text: Seq<char>) -> Seq<char>;

/// Calls `str::to_lowercase`, whose result depends on the characters of the
/// text alone.
#[verifier::external_body]
pub(crate) fn to_lowercase(text: &str) -> (lower: String)
    ensures
        lower@ == lowercased(text@),
{
    text.to_lowercase()
}

/// The `len` characters of `text` that start at `at`.
pub open spec fn window(text: Seq<char>, at: int, len: nat) -> Seq<char> {
    text.subrange(at, at + len)
}

/// Whether `needle` occurs in `text` as a run of consecutive characters.
/// The empty needle occurs in every text.
pub open spec fn occurs_in(needle: Seq<char>, text: Seq<char>) -> bool {
    exists|at: int|
        0 <= at && at + needle.len() <= text.len() && #[trigger] window(text, at, needle.len())
            == needle
}

/// Calls `str::contains` with a string pattern, which reports whether the
/// pattern matches a part of the text.
#[verifier::external_body]
pub(crate) fn contains(text: &str, needle: &str) -> (found: bool)
    ensures
        found == occurs_in(needle@, text@),
{
    text.contains(needle)
}

} // verus!
