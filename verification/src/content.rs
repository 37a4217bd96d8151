//! The data model: clipboard contents, inline images, and history entries,
//! each with a mathematical view that the contracts speak of.

use vstd::prelude::*;
use vstd::string::StringSliceAdditionalSpecFns;

verus! {

/// An inline image that accompanies a rich text, with the byte offset in the
/// text at which its marker token stands.
#[derive(Debug, Clone, PartialEq, Eq)]
pub struct EmojiImage {
    data: String,
    position: usize,
}

/// What an `EmojiImage` is, as plain values.
pub struct EmojiImageView {
    pub data: Seq<char>,
    pub position: nat,
}

/// One classified clipboard value.
#[derive(Debug, Clone, PartialEq, Eq)]
pub enum ClipboardContent {
    Text { content: String },
    Image { data: String, width: usize, height: usize },
    RichText { content: String, emoji_images: Vec<EmojiImage> },
}

/// What a `ClipboardContent` is, as plain values.
pub enum ContentView {
    Text { content: Seq<char> },
    Image { data: Seq<char>, width: nat, height: nat },
    RichText { content: Seq<char>, emoji_images: Seq<EmojiImageView> },
}

/// A recorded clipboard value with the local time at which it was accepted,
/// written as `YYYY-MM-DD HH:MM:SS`.
#[derive(Debug, Clone, PartialEq, Eq)]
pub struct ClipboardEntry {
    content: ClipboardContent,
    timestamp: String,
}

/// What a `ClipboardEntry` is, as plain values.
pub struct EntryView {
    pub content: ContentView,
    pub timestamp: Seq<char>,
}

impl View for EmojiImage {
    type V = EmojiImageView;

    closed spec fn view(&self) -> EmojiImageView {
        EmojiImageView { data: self.data@, position: self.position as nat }
    }
}

impl View for ClipboardContent {
    type V = ContentView;

    open spec fn view(&self) -> ContentView {
        match self {
            ClipboardContent::Text { content } => ContentView::Text { content: content@ },
            ClipboardContent::Image { data, width, height } => ContentView::Image {
                data: data@,
                width: *width as nat,
                height: *height as nat,
            },
            ClipboardContent::RichText { content, emoji_images } => ContentView::RichText {
                content: content@,
                emoji_images: images_view(emoji_images@),
            },
        }
    }
}

impl View for ClipboardEntry {
    type V = EntryView;

    closed spec fn view(&self) -> EntryView {
        EntryView { content: self.content@, timestamp: self.timestamp@ }
    }
}

/// The views of a sequence of inline images, in order.
pub open spec fn images_view(images: Seq<EmojiImage>) -> Seq<EmojiImageView> {
    Seq::new(images.len(), |i: int| images[i]@)
}

/// The views of a sequence of entries, in order.
pub open spec fn entries_view(entries: Seq<ClipboardEntry>) -> Seq<EntryView> {
    Seq::new(entries.len(), |i: int| entries[i]@)
}

/// The view of a text that may be absent.
pub open spec fn text_view(text: Option<String>) -> Option<Seq<char>> {
    match text {
        Some(s) => Some(s@),
        None => None,
    }
}

/// The view of a content that may be absent.
pub open spec fn content_view(content: Option<ClipboardContent>) -> Option<ContentView> {
    match content {
        Some(c) => Some(c@),
        None => None,
    }
}

/// Every image's position is at most `limit`.
pub open spec fn images_within(images: Seq<EmojiImageView>, limit: nat) -> bool {
    forall|i: int| 0 <= i < images.len() ==> (#[trigger] images[i]).position <= limit
}

impl ContentView {
    /// The text that the text channel compares and searches: the content of a
    /// text or a rich text, nothing for an image.
    pub open spec fn text(self) -> Option<Seq<char>> {
        match self {
            ContentView::Text { content } => Some(content),
            ContentView::Image { .. } => None,
            ContentView::RichText { content, .. } => Some(content),
        }
    }

    /// Every inline image of a rich text points into its text: its position
    /// is at most the text's length in bytes.
    pub open spec fn wf(self) -> bool {
        match self {
            ContentView::RichText { content, emoji_images } => images_within(
                emoji_images,
                vstd::utf8::encode_utf8(content).len(),
            ),
            _ => true,
        }
    }
}

impl EmojiImage {
    pub fn new(data: String, position: usize) -> (r: Self)
        ensures
            r@ == (EmojiImageView { data: data@, position: position as nat }),
    {
        EmojiImage { data, position }
    }

    /// The encoded image.
    pub fn data(&self) -> (r: &String)
        ensures
            r@ == self@.data,
    {
        &self.data
    }

    /// The encoded image and the position, handed out.
    pub fn into_parts(self) -> (r: (String, usize))
        ensures
            r.0@ == self@.data,
            r.1 == self@.position,
    {
        (self.data, self.position)
    }

    /// The byte offset of the marker in the sibling text.
    pub fn position(&self) -> (r: usize)
        ensures
            r == self@.position,
    {
        self.position
    }

    /// A copy with the same view.
    pub fn duplicate(&self) -> (r: Self)
        ensures
            r@ == self@,
    {
        EmojiImage { data: self.data.clone(), position: self.position }
    }
}

/// A copy of a list of inline images, with the same views in the same order.
pub fn duplicate_images(images: &Vec<EmojiImage>) -> (r: Vec<EmojiImage>)
    ensures
        images_view(r@) == images_view(images@),
{
    let mut out: Vec<EmojiImage> = Vec::new();
    let mut i: usize = 0;
    while i < images.len()
        invariant
            i <= images.len(),
            out@.len() == i,
            forall|j: int| 0 <= j < i ==> out@[j]@ == images@[j]@,
        decreases images.len() - i,
    {
        out.push(images[i].duplicate());
        i += 1;
    }
    assert(images_view(out@) =~= images_view(images@));
    out
}

impl ClipboardContent {
    /// Whether every inline image of a rich text points into its text.
    pub fn is_well_formed(&self) -> (r: bool)
        ensures
            r == self@.wf(),
    {
        match self {
            ClipboardContent::RichText { content, emoji_images } => {
                let limit: usize = content.as_str().as_bytes().len();
                let mut i: usize = 0;
                while i < emoji_images.len()
                    invariant
                        i <= emoji_images.len(),
                        limit == vstd::utf8::encode_utf8(content@).len(),
                        self@ == (ContentView::RichText {
                            content: content@,
                            emoji_images: images_view(emoji_images@),
                        }),
                        forall|j: int| 0 <= j < i ==> emoji_images@[j].position <= limit,
                    decreases emoji_images.len() - i,
                {
                    if emoji_images[i].position > limit {
                        assert(images_view(emoji_images@)[i as int].position > limit);
                        return false;
                    }
                    i += 1;
                }
                assert forall|j: int| 0 <= j < images_view(emoji_images@).len() implies (
                #[trigger] images_view(emoji_images@)[j]).position <= limit by {
                    assert(images_view(emoji_images@)[j] == emoji_images@[j]@);
                }
                true
            },
            _ => true,
        }
    }

    /// A copy with the same view.
    pub fn duplicate(&self) -> (r: Self)
        ensures
            r@ == self@,
    {
        match self {
            ClipboardContent::Text { content } => ClipboardContent::Text { content: content.clone() },
            ClipboardContent::Image { data, width, height } => ClipboardContent::Image {
                data: data.clone(),
                width: *width,
                height: *height,
            },
            ClipboardContent::RichText { content, emoji_images } => ClipboardContent::RichText {
                content: content.clone(),
                emoji_images: duplicate_images(emoji_images),
            },
        }
    }
}

impl ClipboardEntry {
    pub fn new(content: ClipboardContent, timestamp: String) -> (r: Self)
        ensures
            r@ == (EntryView { content: content@, timestamp: timestamp@ }),
    {
        ClipboardEntry { content, timestamp }
    }

    /// The recorded value.
    pub fn content(&self) -> (r: &ClipboardContent)
        ensures
            r@ == self@.content,
    {
        &self.content
    }

    /// The recorded value and the time of acceptance, handed out.
    pub fn into_parts(self) -> (r: (ClipboardContent, String))
        ensures
            r.0@ == self@.content,
            r.1@ == self@.timestamp,
    {
        (self.content, self.timestamp)
    }

    /// The time of acceptance, as it was written.
    pub fn timestamp(&self) -> (r: &String)
        ensures
            r@ == self@.timestamp,
    {
        &self.timestamp
    }

    /// A copy with the same view.
    pub fn duplicate(&self) -> (r: Self)
        ensures
            r@ == self@,
    {
        ClipboardEntry { content: self.content.duplicate(), timestamp: self.timestamp.clone() }
    }
}

} // verus!
