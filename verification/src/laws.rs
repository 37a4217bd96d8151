//! What holds of the store and the classifier on every input.

use crate::bytes::{first_occurrence, first_occurrence_exists, first_occurrence_unique, occurs, occurs_at};
use crate::classify::{
    classified, holds_marker, marker_position, marker_text, points_at_first_marker, processed_text, RawImage,
};
use crate::content::{text_view, ContentView, EmojiImageView, EntryView};
use crate::monitor::{
    after_cleanup, after_cycle, after_image, after_text, cleanup_due, clock_seconds, RETENTION_WINDOW_SECONDS,
};
use crate::store::{entry_matches, keeps, matching, retained, StateView};
use vstd::prelude::*;
use vstd::utf8::encode_utf8;

verus! {

/// The state after the text channel offers the same content once for each
/// of the given timestamps, in their order.
pub open spec fn offered_text_repeatedly(
    s: StateView,
    content: ContentView,
    timestamps: Seq<Seq<char>>,
) -> StateView
    decreases timestamps.len(),
{
    if timestamps.len() == 0 {
        s
    } else {
        offered_text_repeatedly(s, content, timestamps.drop_last()).offered_text(content, timestamps.last())
    }
}

/// Offering the same text any number of times in a row does what offering it
/// once does: a text that differs from the last accepted one is recorded
/// exactly once, with the first timestamp, and any other not at all.
pub proof fn repeated_text_is_recorded_once(s: StateView, content: ContentView, timestamps: Seq<Seq<char>>)
    requires
        timestamps.len() >= 1,
    ensures
        offered_text_repeatedly(s, content, timestamps) == s.offered_text(content, timestamps[0]),
        s.accepts_text(content) ==> offered_text_repeatedly(
            s,
            content,
            timestamps,
        ).history == s.history.push(EntryView { content, timestamp: timestamps[0] }),
        !s.accepts_text(content) ==> offered_text_repeatedly(
            s,
            content,
            timestamps,
        ) == s,
    decreases timestamps.len(),
{
    if timestamps.len() == 1 {
        assert(timestamps.drop_last().len() == 0);
        assert(offered_text_repeatedly(s, content, timestamps.drop_last()) == s);
    } else {
        repeated_text_is_recorded_once(s, content, timestamps.drop_last());
        assert(timestamps.drop_last()[0] == timestamps[0]);
    }
}

/// Offering the same image fingerprint a second time changes nothing.
pub proof fn repeated_image_is_recorded_once(
    s: StateView,
    fingerprint: u64,
    encoded: Option<Seq<char>>,
    width: nat,
    height: nat,
    first: Seq<char>,
    second: Seq<char>,
)
    ensures
        s.offered_image(fingerprint, encoded, width, height, first).offered_image(
            fingerprint,
            encoded,
            width,
            height,
            second,
        ) == s.offered_image(fingerprint, encoded, width, height, first),
{
}

/// A cycle on a clipboard that has not changed since the cycle before, with
/// no cleanup due, leaves the state as it is: nothing is recorded twice.
pub proof fn unchanged_clipboard_adds_nothing(
    s: StateView,
    first_cleanup: int,
    first_time: Seq<char>,
    second_cleanup: int,
    second_time: Seq<char>,
    text: Option<String>,
    image: Option<RawImage>,
)
    requires
        !cleanup_due(clock_seconds(second_time), second_cleanup),
    ensures
        after_cycle(after_cycle(s, first_cleanup, first_time, text, image), second_cleanup, second_time, text, image)
            == after_cycle(s, first_cleanup, first_time, text, image),
{
}

/// A cursor moves only with an entry. An offer that is not accepted leaves
/// the whole state as it is; an accepted one puts its entry last and makes
/// its own channel's cursor the accepted value; a cleanup moves no cursor;
/// and a cycle in which neither channel records anything leaves the state as
/// the cleanup left it.
pub proof fn cursors_move_only_with_an_entry(
    s: StateView,
    content: ContentView,
    fingerprint: u64,
    encoded: Option<Seq<char>>,
    width: nat,
    height: nat,
    timestamp: Seq<char>,
    last_cleanup: int,
    text: Option<String>,
    image: Option<RawImage>,
)
    ensures
        !s.accepts_text(content) ==> s.offered_text(content, timestamp) == s,
        s.accepts_text(content) ==> ({
            let after = s.offered_text(content, timestamp);
            &&& after.history == s.history.push(EntryView { content, timestamp })
            &&& Some(after.last_text) == content.text()
            &&& after.last_image_hash == s.last_image_hash
        }),
        !s.accepts_image(fingerprint, encoded) ==> s.offered_image(fingerprint, encoded, width, height, timestamp)
            == s,
        s.accepts_image(fingerprint, encoded) ==> ({
            let after = s.offered_image(fingerprint, encoded, width, height, timestamp);
            &&& after.history == s.history.push(
                EntryView { content: ContentView::Image { data: encoded.unwrap(), width, height }, timestamp },
            )
            &&& after.last_image_hash == fingerprint
            &&& after.last_text == s.last_text
        }),
        ({
            let cleaned = after_cleanup(s, last_cleanup, clock_seconds(timestamp));
            let after = after_cycle(s, last_cleanup, timestamp, text, image);
            &&& cleaned.last_text == s.last_text
            &&& cleaned.last_image_hash == s.last_image_hash
            &&& after.history.len() == cleaned.history.len() ==> after == cleaned
        }),
{
}

/// The text step of a cycle looks at the text alone: the same text in the
/// next cycle is not recorded again, whatever image lies beside it.
pub proof fn same_text_in_the_next_cycle_adds_nothing(
    s: StateView,
    first_time: Seq<char>,
    second_time: Seq<char>,
    text: Option<String>,
    first_image: Option<RawImage>,
    second_image: Option<RawImage>,
)
    ensures
        after_text(
            after_image(after_text(s, first_time, text, first_image), first_time, first_image),
            second_time,
            text,
            second_image,
        ) == after_image(after_text(s, first_time, text, first_image), first_time, first_image),
{
}

/// The two channels do not disturb each other. An offer on one channel
/// leaves the other channel's cursor alone; an unchanged text followed by a
/// changed image adds the image alone, and an unchanged image followed by a
/// changed text adds the text alone.
pub proof fn channels_are_independent(
    s: StateView,
    content: ContentView,
    text_time: Seq<char>,
    fingerprint: u64,
    data: Seq<char>,
    width: nat,
    height: nat,
    image_time: Seq<char>,
)
    ensures
        s.offered_text(content, text_time).last_image_hash == s.last_image_hash,
        s.offered_image(fingerprint, Some(data), width, height, image_time).last_text == s.last_text,
        (content.text() == Some(s.last_text) && fingerprint != s.last_image_hash) ==> s.offered_text(
            content,
            text_time,
        ).offered_image(fingerprint, Some(data), width, height, image_time).history == s.history.push(
            EntryView { content: ContentView::Image { data, width, height }, timestamp: image_time },
        ),
        (fingerprint == s.last_image_hash && s.accepts_text(content)) ==> s.offered_image(fingerprint, Some(data), width, height, image_time).offered_text(
            content,
            text_time,
        ).history == s.history.push(EntryView { content, timestamp: text_time }),
{
}

/// An entry whose time is exactly `now - window` stays; one a second older
/// goes; one whose time is unknown stays.
pub proof fn retention_boundary(now: int, window: int)
    ensures
        retained(Some(now - window), now, window),
        !retained(Some(now - window - 1), now, window),
        retained(None, now, window),
{
}

/// A cleanup of a history of one entry keeps the entry exactly where the
/// retention rule keeps it.
pub proof fn cleanup_of_one_entry(s: StateView, now: int, window: int)
    requires
        s.history.len() == 1,
    ensures
        s.pruned(now, window).history == if keeps(now, window)(s.history[0]) {
            s.history
        } else {
            Seq::<EntryView>::empty()
        },
{
    reveal_with_fuel(Seq::filter, 2);
    assert(s.history.drop_last() =~= Seq::<EntryView>::empty());
    assert(Seq::<EntryView>::empty().push(s.history[0]) =~= s.history);
}

/// A cleanup keeps exactly the entries that the retention rule keeps: an
/// entry is in the history afterwards where it was there before and the rule
/// keeps it, and nowhere else.
pub proof fn cleanup_keeps_exactly_the_retained(s: StateView, now: int, window: int, entry: EntryView)
    ensures
        s.pruned(now, window).history.contains(entry) <==> (s.history.contains(entry) && keeps(
            now,
            window,
        )(entry)),
{
    filtered_holds_exactly(s.history, keeps(now, window), entry);
}

/// A search with a non-empty query finds exactly the matching entries, and
/// one with the empty query finds every entry.
pub proof fn search_finds_exactly_the_matching(s: StateView, query: Seq<char>, entry: EntryView)
    ensures
        query.len() > 0 ==> (s.found(query).contains(entry) <==> (s.history.contains(entry)
            && entry_matches(entry, query))),
        query.len() == 0 ==> s.found(query) == s.history,
{
    filtered_holds_exactly(s.history, matching(query), entry);
}

/// A filtered sequence holds an element exactly where the sequence holds it
/// and the predicate is true of it.
pub proof fn filtered_holds_exactly<A>(s: Seq<A>, pred: spec_fn(A) -> bool, elem: A)
    ensures
        s.filter(pred).contains(elem) <==> (s.contains(elem) && pred(elem)),
{
    let f = s.filter(pred);
    if f.contains(elem) {
        s.lemma_filter_contains_rev(pred, elem);
        let i = choose|i: int| 0 <= i < f.len() && f[i] == elem;
        s.lemma_filter_pred(pred, i);
    }
    if s.contains(elem) && pred(elem) {
        let j = choose|j: int| 0 <= j < s.len() && s[j] == elem;
        s.lemma_filter_contains(pred, j);
    }
}

/// A cleanup keeps a well-formed history well formed.
pub proof fn cleanup_preserves_well_formedness(s: StateView, now: int, window: int)
    requires
        s.wf(),
    ensures
        s.pruned(now, window).wf(),
{
    let p = s.pruned(now, window);
    assert forall|i: int| 0 <= i < p.history.len() implies (#[trigger] p.history[i]).content.wf() by {
        let e = p.history[i];
        assert(p.history.contains(e));
        filtered_holds_exactly(s.history, keeps(now, window), e);
        let j = choose|j: int| 0 <= j < s.history.len() && s.history[j] == e;
        assert(s.history[j].content.wf());
    }
}

/// Recording a well-formed content, on either channel, keeps a well-formed
/// history well formed.
pub proof fn offers_preserve_well_formedness(
    s: StateView,
    content: ContentView,
    timestamp: Seq<char>,
    fingerprint: u64,
    encoded: Option<Seq<char>>,
    width: nat,
    height: nat,
)
    requires
        s.wf(),
    ensures
        content.wf() ==> s.appended(EntryView { content, timestamp }).wf(),
        content.wf() ==> s.offered_text(content, timestamp).wf(),
        s.offered_image(fingerprint, encoded, width, height, timestamp).wf(),
{
}

/// A text that holds the marker, in which the marker expression matched,
/// with an encoded image at hand, becomes a rich text with one inline image
/// whose position is the byte offset of the first marker; without an image,
/// without a match, or without the marker, it becomes a plain text.
pub proof fn rich_text_detection(content: Seq<char>, data: Seq<char>, offset: int)
    ensures
        holds_marker(content) ==> classified(content, true, Some(data)) == (ContentView::RichText {
            content,
            emoji_images: seq![EmojiImageView { data, position: marker_position(content) }],
        }),
        first_occurrence(encode_utf8(content), encode_utf8(marker_text()), offset) ==> holds_marker(content)
            && marker_position(content) == offset,
        !holds_marker(content) ==> classified(content, true, Some(data)) == (ContentView::Text { content }),
        classified(content, true, None) == (ContentView::Text { content }),
        classified(content, false, Some(data)) == (ContentView::Text { content }),
{
    if first_occurrence(encode_utf8(content), encode_utf8(marker_text()), offset) {
        let hay = encode_utf8(content);
        let needle = encode_utf8(marker_text());
        let c = choose|k: int| first_occurrence(hay, needle, k);
        first_occurrence_unique(hay, needle, offset, c);
    }
}

/// Whatever the text channel reads from a snapshot keeps the text as it was
/// read, and where it is a rich text, its one inline image stands at the
/// first marker token of that text.
pub proof fn rich_text_points_at_the_first_marker(text: Option<String>, image: Option<RawImage>)
    ensures
        processed_text(text, image) matches Some(content) ==> points_at_first_marker(content)
            && content.text() == text_view(text),
{
    if let Some(read) = text {
        marker_position_is_the_first_occurrence(read@);
    }
}

/// The marker position of a text is the first offset at which the marker
/// stands in it, where it stands there at all, and lies within the text.
pub proof fn marker_position_is_the_first_occurrence(content: Seq<char>)
    ensures
        occurs(encode_utf8(content), encode_utf8(marker_text())) ==> first_occurrence(
            encode_utf8(content),
            encode_utf8(marker_text()),
            marker_position(content) as int,
        ),
        !occurs(encode_utf8(content), encode_utf8(marker_text())) ==> marker_position(content) == 0,
        marker_position(content) <= encode_utf8(content).len(),
{
    let hay = encode_utf8(content);
    let needle = encode_utf8(marker_text());
    if occurs(hay, needle) {
        let i = choose|i: int| occurs_at(hay, needle, i);
        first_occurrence_exists(hay, needle, i);
    }
}

/// Whatever the text channel yields is well formed.
pub proof fn classified_is_well_formed(content: Seq<char>, marker_found: bool, encoded: Option<Seq<char>>)
    ensures
        classified(content, marker_found, encoded).wf(),
{
    marker_position_is_the_first_occurrence(content);
}

/// Whatever the text channel reads from a snapshot is well formed.
pub proof fn processed_text_is_well_formed(text: Option<String>, image: Option<RawImage>)
    ensures
        processed_text(text, image) matches Some(content) ==> content.wf(),
{
    if let Some(content) = text {
        marker_position_is_the_first_occurrence(content@);
    }
}

/// A cycle keeps a well-formed history well formed.
pub proof fn cycle_preserves_well_formedness(
    s: StateView,
    last_cleanup: int,
    timestamp: Seq<char>,
    text: Option<String>,
    image: Option<RawImage>,
)
    requires
        s.wf(),
    ensures
        after_cycle(s, last_cleanup, timestamp, text, image).wf(),
{
    if let Some(now) = clock_seconds(timestamp) {
        cleanup_preserves_well_formedness(s, now, RETENTION_WINDOW_SECONDS as int);
    }
    processed_text_is_well_formed(text, image);
}

} // verus!
