//! The history store: the ordered entries, the two change-detection cursors,
//! appending, listing, searching, and pruning by age.

use crate::bytes::{contains_bytes, occurs};
use crate::content::{entries_view, text_view, ClipboardContent, ClipboardEntry, ContentView, EntryView};
use crate::outside::{lowercase, parse_instant, parsed_instant, to_lowercase};
use vstd::prelude::*;
use vstd::string::{StringExecFns, StringSliceAdditionalSpecFns};
use vstd::utf8::encode_utf8;

verus! {

/// The history and the last accepted value of each channel.
pub struct ClipboardState {
    history: Vec<ClipboardEntry>,
    last_text_content: String,
    last_image_hash: u64,
}

/// What a `ClipboardState` is, as plain values: the entries oldest first, the
/// last accepted text, and the fingerprint of the last accepted image.
pub struct StateView {
    pub history: Seq<EntryView>,
    pub last_text: Seq<char>,
    pub last_image_hash: u64,
}

/// The zone that is written behind a timestamp before it is parsed.
pub open spec fn zone_suffix() -> Seq<char> {
    " +0000"@
}

/// The format under which a timestamp with its zone is parsed.
pub open spec fn timestamp_format() -> Seq<char> {
    "%Y-%m-%d %H:%M:%S %z"@
}

/// The wall-clock reading of a parsed instant, in seconds: its UTC seconds
/// plus its zone's offset.
pub open spec fn local_seconds(parsed: Option<(i64, i32)>) -> Option<int> {
    match parsed {
        Some((utc, offset)) => Some(utc + offset),
        None => None,
    }
}

/// The wall-clock seconds that an entry's timestamp stands for, where it parses.
pub open spec fn entry_seconds(timestamp: Seq<char>) -> Option<int> {
    local_seconds(parsed_instant(timestamp + zone_suffix(), timestamp_format()))
}

/// An entry stays unless its time is known and lies before `now - window`.
pub open spec fn retained(seconds: Option<int>, now: int, window: int) -> bool {
    match seconds {
        Some(t) => t >= now - window,
        None => true,
    }
}

/// The entries that a cleanup at `now` with the given window keeps.
pub open spec fn keeps(now: int, window: int) -> spec_fn(EntryView) -> bool {
    |e: EntryView| retained(entry_seconds(e.timestamp), now, window)
}

/// A text matches a query where the query's lower-case form stands in the
/// text's lower-case form, both read as UTF-8 bytes.
pub open spec fn text_matches(content: Seq<char>, query: Seq<char>) -> bool {
    occurs(encode_utf8(lowercase(content)), encode_utf8(lowercase(query)))
}

/// An entry matches a query by its text; an image never matches.
pub open spec fn entry_matches(entry: EntryView, query: Seq<char>) -> bool {
    match entry.content.text() {
        Some(content) => text_matches(content, query),
        None => false,
    }
}

/// The entries that match a query.
pub open spec fn matching(query: Seq<char>) -> spec_fn(EntryView) -> bool {
    |e: EntryView| entry_matches(e, query)
}

impl StateView {
    /// Every recorded content is well formed: the inline images of a rich
    /// text point into its text.
    pub open spec fn wf(self) -> bool {
        forall|i: int| 0 <= i < self.history.len() ==> (#[trigger] self.history[i]).content.wf()
    }

    /// The state a process starts with: the saved entries, or none, and both
    /// cursors reset.
    pub open spec fn initial(saved: Option<Seq<EntryView>>) -> StateView {
        StateView {
            history: match saved {
                Some(entries) => entries,
                None => Seq::empty(),
            },
            last_text: Seq::empty(),
            last_image_hash: 0,
        }
    }

    /// The state with one more entry at the end. The text of a text or rich
    /// text entry becomes the last accepted text; the image cursor stays, for
    /// an entry does not hold the pixels it was made from.
    pub open spec fn appended(self, entry: EntryView) -> StateView {
        StateView {
            history: self.history.push(entry),
            last_text: match entry.content.text() {
                Some(text) => text,
                None => self.last_text,
            },
            last_image_hash: self.last_image_hash,
        }
    }

    /// The text channel accepts a text or rich text that differs from the
    /// last accepted text, and nothing else.
    pub open spec fn accepts_text(self, content: ContentView) -> bool {
        match content.text() {
            Some(text) => text != self.last_text,
            None => false,
        }
    }

    /// The state after the text channel offers a content: an accepted one is
    /// appended, so that its text becomes the last accepted text; any other
    /// changes nothing.
    pub open spec fn offered_text(self, content: ContentView, timestamp: Seq<char>) -> StateView {
        if self.accepts_text(content) {
            self.appended(EntryView { content, timestamp })
        } else {
            self
        }
    }

    /// The image channel accepts an image whose fingerprint differs from the
    /// last accepted one and which has an encoded form, and nothing else.
    pub open spec fn accepts_image(self, fingerprint: u64, encoded: Option<Seq<char>>) -> bool {
        fingerprint != self.last_image_hash && encoded is Some
    }

    /// The state after the image channel offers an image: an accepted one is
    /// appended and its fingerprint becomes the last accepted one; any other
    /// changes nothing.
    pub open spec fn offered_image(
        self,
        fingerprint: u64,
        encoded: Option<Seq<char>>,
        width: nat,
        height: nat,
        timestamp: Seq<char>,
    ) -> StateView {
        if self.accepts_image(fingerprint, encoded) {
            StateView {
                history: self.history.push(
                    EntryView {
                        content: ContentView::Image { data: encoded.unwrap(), width, height },
                        timestamp,
                    },
                ),
                last_text: self.last_text,
                last_image_hash: fingerprint,
            }
        } else {
            self
        }
    }

    /// The state after a cleanup: the kept entries in their order.
    pub open spec fn pruned(self, now: int, window: int) -> StateView {
        StateView { history: self.history.filter(keeps(now, window)), ..self }
    }

    /// What a search returns: everything for the empty query, else the
    /// matching entries in their order.
    pub open spec fn found(self, query: Seq<char>) -> Seq<EntryView> {
        if query.len() == 0 {
            self.history
        } else {
            self.history.filter(matching(query))
        }
    }
}

impl View for ClipboardState {
    type V = StateView;

    closed spec fn view(&self) -> StateView {
        StateView {
            history: entries_view(self.history@),
            last_text: self.last_text_content@,
            last_image_hash: self.last_image_hash,
        }
    }
}

/// Filtering one element more: the element joins the result where the
/// predicate holds of it.
pub proof fn filter_take_step<A>(s: Seq<A>, i: int, pred: spec_fn(A) -> bool)
    requires
        0 <= i < s.len(),
    ensures
        s.take(i + 1).filter(pred) == if pred(s[i]) {
            s.take(i).filter(pred).push(s[i])
        } else {
            s.take(i).filter(pred)
        },
{
    reveal(Seq::filter);
    assert(s.take(i + 1).drop_last() =~= s.take(i));
}

/// A copy of a list of entries, with the same views in the same order.
pub fn duplicate_entries(entries: &Vec<ClipboardEntry>) -> (r: Vec<ClipboardEntry>)
    ensures
        entries_view(r@) == entries_view(entries@),
{
    let mut out: Vec<ClipboardEntry> = Vec::new();
    let mut i: usize = 0;
    while i < entries.len()
        invariant
            i <= entries.len(),
            out@.len() == i,
            forall|j: int| 0 <= j < i ==> out@[j]@ == entries@[j]@,
        decreases entries.len() - i,
    {
        out.push(entries[i].duplicate());
        i += 1;
    }
    assert(entries_view(out@) =~= entries_view(entries@));
    out
}

/// Whether an entry with the given parsed instant stays at a cleanup at
/// `now` (wall-clock seconds) with the given window in seconds.
pub fn is_retained(parsed: Option<(i64, i32)>, now: i64, window: i64) -> (r: bool)
    ensures
        r == retained(local_seconds(parsed), now as int, window as int),
{
    match parsed {
        Some((utc, offset)) => (utc as i128) + (offset as i128) >= (now as i128) - (window as i128),
        None => true,
    }
}

/// The instant that a timestamp stands for, read with the zone written behind it.
pub fn parse_timestamp(timestamp: &str) -> (r: Option<(i64, i32)>)
    ensures
        r == parsed_instant(timestamp@ + zone_suffix(), timestamp_format()),
{
    let stamped = timestamp.to_owned().concat(" +0000");
    parse_instant(stamped.as_str(), "%Y-%m-%d %H:%M:%S %z")
}

/// Whether a cleanup at `now` with the given window keeps the entry.
pub fn entry_is_retained(entry: &ClipboardEntry, now: i64, window: i64) -> (r: bool)
    ensures
        r == keeps(now as int, window as int)(entry@),
{
    is_retained(parse_timestamp(entry.timestamp().as_str()), now, window)
}

/// Whether an entry matches a query, given the query's lower-case form.
pub fn entry_matches_lowered(entry: &ClipboardEntry, lowered_query: &str) -> (r: bool)
    ensures
        r == match entry@.content.text() {
            Some(content) => occurs(encode_utf8(lowercase(content)), encode_utf8(lowered_query@)),
            None => false,
        },
{
    match entry.content() {
        ClipboardContent::Text { content } => {
            let lowered = to_lowercase(content.as_str());
            contains_bytes(lowered.as_str().as_bytes(), lowered_query.as_bytes())
        },
        ClipboardContent::Image { .. } => false,
        ClipboardContent::RichText { content, .. } => {
            let lowered = to_lowercase(content.as_str());
            contains_bytes(lowered.as_str().as_bytes(), lowered_query.as_bytes())
        },
    }
}

impl ClipboardState {
    /// The state at process start: the saved history where one was read, an
    /// empty one otherwise, and both cursors reset.
    pub fn new(saved: Option<Vec<ClipboardEntry>>) -> (r: Self)
        ensures
            r@ == StateView::initial(
                match saved {
                    Some(entries) => Some(entries_view(entries@)),
                    None => None,
                },
            ),
    {
        let history: Vec<ClipboardEntry> = match saved {
            Some(entries) => entries,
            None => Vec::new(),
        };
        let r = ClipboardState { history, last_text_content: String::new(), last_image_hash: 0 };
        assert(r@.history =~= StateView::initial(
            match saved {
                Some(entries) => Some(entries_view(entries@)),
                None => None,
            },
        ).history);
        r
    }

    /// Puts an entry at the end of the history. The text of a text or rich
    /// text entry becomes the last accepted text; the image cursor stays.
    pub fn add_entry(&mut self, entry: ClipboardEntry)
        ensures
            final(self)@ == old(self)@.appended(entry@),
            final(self)@.history == old(self)@.history.push(entry@),
            final(self)@.last_text == match entry@.content.text() {
                Some(text) => text,
                None => old(self)@.last_text,
            },
            final(self)@.last_image_hash == old(self)@.last_image_hash,
    {
        let text: Option<String> = match entry.content() {
            ClipboardContent::Text { content } => Some(content.clone()),
            ClipboardContent::RichText { content, .. } => Some(content.clone()),
            ClipboardContent::Image { .. } => None,
        };
        if let Some(accepted) = text {
            self.last_text_content = accepted;
        }
        self.history.push(entry);
        assert(final(self)@.history =~= old(self)@.history.push(entry@));
    }

    /// The number of entries.
    pub fn len(&self) -> (r: usize)
        ensures
            r == self@.history.len(),
    {
        self.history.len()
    }

    /// The last accepted text.
    pub fn last_text_content(&self) -> (r: &String)
        ensures
            r@ == self@.last_text,
    {
        &self.last_text_content
    }

    /// The fingerprint of the last accepted image.
    pub fn last_image_hash(&self) -> (r: u64)
        ensures
            r == self@.last_image_hash,
    {
        self.last_image_hash
    }

    /// The whole history, oldest first.
    pub fn entries(&self) -> (r: &Vec<ClipboardEntry>)
        ensures
            entries_view(r@) == self@.history,
    {
        &self.history
    }

    /// A copy of the whole history, oldest first.
    pub fn get_history(&self) -> (r: Vec<ClipboardEntry>)
        ensures
            entries_view(r@) == self@.history,
    {
        duplicate_entries(&self.history)
    }

    /// Copies of the entries whose text holds the query, case ignored, in
    /// their order; of all entries where the query is empty.
    pub fn search(&self, query: &str) -> (r: Vec<ClipboardEntry>)
        ensures
            entries_view(r@) == self@.found(query@),
    {
        if query.is_empty() {
            return duplicate_entries(&self.history);
        }
        let lowered_query = to_lowercase(query);
        let ghost all = self@.history;
        let ghost pred = matching(query@);
        let mut out: Vec<ClipboardEntry> = Vec::new();
        let mut i: usize = 0;
        proof {
            reveal(Seq::filter);
            assert(all.take(0).filter(pred) =~= Seq::<EntryView>::empty());
            assert(entries_view(out@) =~= Seq::<EntryView>::empty());
        }
        while i < self.history.len()
            invariant
                i <= self.history.len(),
                all == self@.history,
                all.len() == self.history@.len(),
                pred == matching(query@),
                lowered_query@ == lowercase(query@),
                entries_view(out@) == all.take(i as int).filter(pred),
            decreases self.history.len() - i,
        {
            let ghost before = entries_view(out@);
            proof {
                filter_take_step(all, i as int, pred);
                assert(all[i as int] == self.history@[i as int]@);
            }
            if entry_matches_lowered(&self.history[i], lowered_query.as_str()) {
                out.push(self.history[i].duplicate());
                assert(entries_view(out@) =~= before.push(all[i as int]));
            }
            i += 1;
        }
        assert(all.take(i as int) =~= all);
        out
    }

    /// Drops every entry whose time is known and lies before `now - window`,
    /// both in wall-clock seconds; says whether any was dropped.
    pub fn cleanup_older_than(&mut self, now: i64, window: i64) -> (removed: bool)
        ensures
            final(self)@ == old(self)@.pruned(now as int, window as int),
            removed == (final(self)@.history.len() != old(self)@.history.len()),
    {
        let ghost all = self@.history;
        let ghost pred = keeps(now as int, window as int);
        let ghost mut done: int = 0;
        let mut removed = false;
        let mut i: usize = 0;
        proof {
            reveal(Seq::filter);
            assert(all.take(0).filter(pred) =~= Seq::<EntryView>::empty());
            assert(all.take(0).filter(pred) + all.skip(0) =~= all);
        }
        while i < self.history.len()
            invariant
                0 <= i <= done <= all.len(),
                all == old(self)@.history,
                pred == keeps(now as int, window as int),
                self.last_text_content == old(self).last_text_content,
                self.last_image_hash == old(self).last_image_hash,
                all.take(done).filter(pred).len() == i,
                entries_view(self.history@) == all.take(done).filter(pred) + all.skip(done),
                removed == (i != done),
            decreases all.len() - done,
        {
            let ghost kept = all.take(done).filter(pred);
            proof {
                assert(entries_view(self.history@).len() == self.history@.len());
                assert(all.skip(done).len() > 0);
                filter_take_step(all, done, pred);
                assert(entries_view(self.history@)[i as int] == all.skip(done)[0]);
                assert(self.history@[i as int]@ == all[done]);
            }
            if entry_is_retained(&self.history[i], now, window) {
                i += 1;
                proof {
                    assert(kept.push(all[done]) + all.skip(done + 1) =~= kept + all.skip(done));
                }
            } else {
                let ghost before = self.history@;
                let _ = self.history.remove(i);
                removed = true;
                proof {
                    assert(entries_view(self.history@) =~= entries_view(before).remove(i as int));
                    assert((kept + all.skip(done)).remove(i as int) =~= kept + all.skip(done + 1));
                }
            }
            proof {
                done = done + 1;
            }
        }
        proof {
            assert(entries_view(self.history@).len() == self.history@.len());
            assert(all.skip(done).len() == 0);
            assert(all.take(done) =~= all);
            assert(all.take(done).filter(pred) + all.skip(done) =~= all.filter(pred));
        }
        removed
    }

    /// Offers the text channel's content at the given time. It is recorded,
    /// and becomes the last accepted text, where it is a text or rich text
    /// that differs from the last accepted one. Says whether it was recorded.
    pub fn offer_text(&mut self, content: ClipboardContent, timestamp: String) -> (accepted: bool)
        ensures
            final(self)@ == old(self)@.offered_text(content@, timestamp@),
            accepted == old(self)@.accepts_text(content@),
    {
        let changed: bool = match &content {
            ClipboardContent::Text { content: text } => *text != self.last_text_content,
            ClipboardContent::RichText { content: text, .. } => *text != self.last_text_content,
            ClipboardContent::Image { .. } => false,
        };
        if changed {
            self.add_entry(ClipboardEntry::new(content, timestamp));
        }
        changed
    }

    /// Offers the image channel's image at the given time. It is recorded,
    /// and its fingerprint becomes the last accepted one, where the
    /// fingerprint differs from the last accepted one and the image has an
    /// encoded form. Says whether it was recorded.
    pub fn offer_image(
        &mut self,
        fingerprint: u64,
        encoded: Option<String>,
        width: usize,
        height: usize,
        timestamp: String,
    ) -> (accepted: bool)
        ensures
            final(self)@ == old(self)@.offered_image(
                fingerprint,
                text_view(encoded),
                width as nat,
                height as nat,
                timestamp@,
            ),
            accepted == old(self)@.accepts_image(fingerprint, text_view(encoded)),
    {
        if fingerprint == self.last_image_hash {
            return false;
        }
        match encoded {
            Some(data) => {
                self.last_image_hash = fingerprint;
                self.add_entry(ClipboardEntry::new(ClipboardContent::Image { data, width, height }, timestamp));
                true
            },
            None => false,
        }
    }
}

} // verus!
