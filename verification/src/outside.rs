//! The calls that leave this library. Each contract here is taken on trust
//! from the called crate's documentation and source; nothing in it is proved.

use image::ImageEncoder;
use base64::Engine;
use vstd::prelude::*;

verus! {

/// Whether a regular expression finds a match anywhere in a text; `None`
/// where the expression does not compile.
pub uninterp spec fn regex_match(pattern: Seq<char>, haystack: Seq<char>) -> Option<bool>;

/// The instant that chrono reads from a text under a format with a time zone:
/// seconds since the epoch in UTC, and the zone's offset east of UTC in
/// seconds. `None` where the text does not parse.
pub uninterp spec fn parsed_instant(text: Seq<char>, format: Seq<char>) -> Option<(i64, i32)>;

/// The PNG file that the `image` crate writes for 8-bit RGBA pixels of the
/// given dimensions; `None` where the encoder reports an error.
pub uninterp spec fn png_rgba8(pixels: Seq<u8>, width: u32, height: u32) -> Option<Seq<u8>>;

/// The padded base-64 text of a byte string in the standard alphabet.
pub uninterp spec fn base64_standard(bytes: Seq<u8>) -> Seq<char>;

/// The lower-case form that std gives a text.
pub uninterp spec fn lowercase(text: Seq<char>) -> Seq<char>;

/// `regex::Regex::new` on the pattern, then `Regex::is_match` on the text.
/// Trusted: the answer depends on the two texts alone.
#[verifier::external_body]
pub(crate) fn regex_is_match(pattern: &str, haystack: &str) -> (r: Option<bool>)
    ensures
        r == regex_match(pattern@, haystack@),
{
    match regex::Regex::new(pattern) {
        Ok(re) => Some(re.is_match(haystack)),
        Err(_) => None,
    }
}

/// `chrono::DateTime::parse_from_str`, handing out the parsed value's
/// `timestamp()` and its offset's `local_minus_utc()`. Trusted: the answer
/// depends on the two texts alone.
#[verifier::external_body]
pub(crate) fn parse_instant(text: &str, format: &str) -> (r: Option<(i64, i32)>)
    ensures
        r == parsed_instant(text@, format@),
{
    match chrono::DateTime::parse_from_str(text, format) {
        Ok(t) => Some((t.timestamp(), t.offset().local_minus_utc())),
        Err(_) => None,
    }
}

/// `image::codecs::png::PngEncoder::write_image` with `ColorType::Rgba8`,
/// writing into a fresh vector. The encoder panics unless the buffer holds
/// exactly four bytes per pixel, so callers must hand it such a buffer.
/// Trusted: the file written depends on the pixels and dimensions alone.
#[verifier::external_body]
pub(crate) fn png_encode_rgba8(pixels: &[u8], width: u32, height: u32) -> (r: Option<Vec<u8>>)
    requires
        pixels@.len() == 4 * width * height,
    ensures
        match r {
            Some(file) => png_rgba8(pixels@, width, height) == Some(file@),
            None => png_rgba8(pixels@, width, height) is None,
        },
{
    let mut out: Vec<u8> = Vec::new();
    let encoder = image::codecs::png::PngEncoder::new(&mut out);
    match encoder.write_image(pixels, width, height, image::ColorType::Rgba8) {
        Ok(()) => Some(out),
        Err(_) => None,
    }
}

/// `base64::Engine::encode` of the `STANDARD` engine. It panics where the
/// encoded length overflows `usize`, which half of `usize::MAX` bytes cannot
/// reach. Trusted: the text depends on the bytes alone.
#[verifier::external_body]
pub(crate) fn base64_encode(bytes: &[u8]) -> (r: String)
    requires
        bytes@.len() <= usize::MAX / 2,
    ensures
        r@ == base64_standard(bytes@),
{
    base64::engine::general_purpose::STANDARD.encode(bytes)
}

/// `str::to_lowercase`. Trusted: the result depends on the text alone.
#[verifier::external_body]
pub(crate) fn to_lowercase(text: &str) -> (r: String)
    ensures
        r@ == lowercase(text@),
{
    text.to_lowercase()
}

} // verus!
