//! Classification of one clipboard snapshot: what the text channel and the
//! image channel each yield.

use crate::bytes::{find_bytes, first_occurrence, first_occurrence_unique, occurs};
use crate::content::{content_view, text_view, ClipboardContent, ContentView, EmojiImage, EmojiImageView};
use crate::outside::{base64_encode, base64_standard, png_encode_rgba8, png_rgba8, regex_is_match, regex_match};
use std::collections::hash_map::DefaultHasher;
use std::hash::Hasher;
use vstd::prelude::*;
use vstd::std_specs::hash::DefaultHasherAdditionalSpecFns;
use vstd::string::{StringExecFns, StringSliceAdditionalSpecFns};
use vstd::utf8::encode_utf8;

verus! {

/// Raw pixels as the clipboard hands them out: four bytes per pixel, row by row.
#[derive(Debug, Clone, PartialEq, Eq)]
pub struct RawImage {
    pub width: usize,
    pub height: usize,
    pub bytes: Vec<u8>,
}

/// The token that marks an inline emoji in a text.
pub open spec fn marker_text() -> Seq<char> {
    "[微信表情]"@
}

/// The regular expression that recognises the marker token.
pub open spec fn marker_pattern() -> Seq<char> {
    "\\[微信表情\\]"@
}

/// What stands before the base-64 payload of an encoded image.
pub open spec fn data_url_prefix() -> Seq<char> {
    "data:image/png;base64,"@
}

/// The byte offset of the first marker token in a text, 0 where it holds none.
pub open spec fn marker_position(content: Seq<char>) -> nat {
    let hay = encode_utf8(content);
    let needle = encode_utf8(marker_text());
    if occurs(hay, needle) {
        (choose|i: int| first_occurrence(hay, needle, i)) as nat
    } else {
        0
    }
}

/// The embeddable text form of an image: the PNG file of its pixels in base
/// 64 behind the data-URL prefix. Nothing where a dimension exceeds 32 bits,
/// where the buffer does not hold exactly four bytes per pixel, or where the
/// encoder fails.
pub open spec fn encoded_image(image: RawImage) -> Option<Seq<char>> {
    if image.width <= u32::MAX && image.height <= u32::MAX && image.bytes@.len() == 4
        * image.width * image.height {
        match png_rgba8(image.bytes@, image.width as u32, image.height as u32) {
            Some(file) => if file.len() <= usize::MAX / 2 {
                Some(data_url_prefix() + base64_standard(file))
            } else {
                None
            },
            None => None,
        }
    } else {
        None
    }
}

/// The marker token stands somewhere in the text.
pub open spec fn holds_marker(content: Seq<char>) -> bool {
    occurs(encode_utf8(content), encode_utf8(marker_text()))
}

/// A rich text holds exactly one inline image, and its position is the
/// first offset at which the marker token stands in the text. Of any other
/// content this says nothing.
pub open spec fn points_at_first_marker(content: ContentView) -> bool {
    match content {
        ContentView::RichText { content, emoji_images } => one_image_at_first_marker(content, emoji_images),
        _ => true,
    }
}

/// The one image of `images` stands at the first marker of `content`.
pub open spec fn one_image_at_first_marker(content: Seq<char>, images: Seq<EmojiImageView>) -> bool {
    &&& images.len() == 1
    &&& first_occurrence(encode_utf8(content), encode_utf8(marker_text()), images[0].position as int)
}

/// What a non-empty text becomes: a rich text with one inline image at the
/// first marker where the marker expression matched, the marker token stands
/// in the text, and an encoded image is at hand; a plain text otherwise.
pub open spec fn classified(content: Seq<char>, marker_found: bool, encoded: Option<Seq<char>>) -> ContentView {
    match encoded {
        Some(data) if marker_found && holds_marker(content) => ContentView::RichText {
            content,
            emoji_images: seq![EmojiImageView { data, position: marker_position(content) }],
        },
        _ => ContentView::Text { content },
    }
}

/// What the text channel yields for a snapshot: nothing for an absent or
/// empty text, else the text classified by whether the marker expression
/// matches it, whether the marker token stands in it, and by the encoded
/// form of the image beside it.
pub open spec fn processed_text(text: Option<String>, image: Option<RawImage>) -> Option<ContentView> {
    match text {
        Some(content) if content@.len() > 0 => {
            let found = regex_match(marker_pattern(), content@) == Some(true);
            let encoded = match image {
                Some(raw) if found => encoded_image(raw),
                _ => None,
            };
            Some(classified(content@, found, encoded))
        },
        _ => None,
    }
}

/// The fingerprint of an image: the default hasher's value after one write
/// of its pixel bytes.
pub open spec fn image_fingerprint(bytes: Seq<u8>) -> u64 {
    DefaultHasher::spec_finish(seq![bytes])
}

/// The byte offset of the first marker token in `content`, where it holds one.
pub fn find_marker(content: &str) -> (r: Option<usize>)
    ensures
        r is Some == holds_marker(content@),
        r matches Some(i) ==> i == marker_position(content@) && first_occurrence(
            encode_utf8(content@),
            encode_utf8(marker_text()),
            i as int,
        ),
{
    let marker: &str = "[微信表情]";
    let found = find_bytes(content.as_bytes(), marker.as_bytes());
    proof {
        if let Some(i) = found {
            let hay = encode_utf8(content@);
            let needle = encode_utf8(marker_text());
            let c = choose|k: int| first_occurrence(hay, needle, k);
            first_occurrence_unique(hay, needle, i as int, c);
        }
    }
    found
}

/// Classifies a non-empty text, given whether the marker expression matched
/// it and the encoded image that was on the clipboard with it.
pub fn classify_text(content: String, marker_found: bool, encoded: Option<String>) -> (r: ClipboardContent)
    ensures
        r@ == classified(content@, marker_found, text_view(encoded)),
        r@.text() == Some(content@),
        r@.wf(),
        points_at_first_marker(r@),
{
    if marker_found {
        if let Some(data) = encoded {
            if let Some(position) = find_marker(content.as_str()) {
                let mut emoji_images: Vec<EmojiImage> = Vec::new();
                emoji_images.push(EmojiImage::new(data, position));
                let r = ClipboardContent::RichText { content, emoji_images };
                assert(r@.arrow_RichText_emoji_images() =~= seq![
                    EmojiImageView { data: data@, position: marker_position(content@) },
                ]);
                return r;
            }
        }
    }
    ClipboardContent::Text { content }
}

/// The data URL of a PNG file, given the file in base 64.
pub fn png_data_url(payload: &str) -> (r: String)
    ensures
        r@ == data_url_prefix() + payload@,
{
    "data:image/png;base64,".to_owned().concat(payload)
}

/// The embeddable text form of an image, where it has one.
pub fn image_to_base64(image: &RawImage) -> (r: Option<String>)
    ensures
        text_view(r) == encoded_image(*image),
{
    if image.width > 0xffff_ffff || image.height > 0xffff_ffff {
        return None;
    }
    assert(4 * image.width * image.height <= 4 * 0xffff_ffff * 0xffff_ffff) by (nonlinear_arith)
        requires
            image.width <= 0xffff_ffff,
            image.height <= 0xffff_ffff,
    ;
    let expected: u128 = 4 * (image.width as u128) * (image.height as u128);
    if image.bytes.len() as u128 != expected {
        return None;
    }
    match png_encode_rgba8(image.bytes.as_slice(), image.width as u32, image.height as u32) {
        Some(file) => {
            if file.len() > usize::MAX / 2 {
                return None;
            }
            let payload = base64_encode(file.as_slice());
            Some(png_data_url(payload.as_str()))
        },
        None => None,
    }
}

/// The text channel's reading of a snapshot: the text classified, with the
/// image beside it encoded only where the marker expression matches.
pub fn process_clipboard_text(text: Option<String>, image: Option<&RawImage>) -> (r: Option<ClipboardContent>)
    ensures
        content_view(r) == processed_text(
            text,
            match image {
                Some(raw) => Some(*raw),
                None => None,
            },
        ),
        r matches Some(c) ==> c@.wf() && points_at_first_marker(c@) && c@.text() == text_view(text),
{
    match text {
        Some(content) => {
            if content.as_str().is_empty() {
                return None;
            }
            let found = match regex_is_match("\\[微信表情\\]", content.as_str()) {
                Some(b) => b,
                None => false,
            };
            let encoded = match image {
                Some(raw) => if found {
                    image_to_base64(raw)
                } else {
                    None
                },
                None => None,
            };
            Some(classify_text(content, found, encoded))
        },
        None => None,
    }
}

/// The fingerprint by which the image channel tells a changed image from an
/// unchanged one.
pub fn calculate_image_hash(image: &RawImage) -> (r: u64)
    ensures
        r == image_fingerprint(image.bytes@),
{
    let mut hasher = DefaultHasher::new();
    hasher.write(image.bytes.as_slice());
    assert(hasher@ =~= seq![image.bytes@]);
    hasher.finish()
}

} // verus!
