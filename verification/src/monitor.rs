//! The decisions of one monitor cycle: whether a cleanup is due, what the
//! two channels add to the history, and whether the history must be saved.

use crate::classify::{
    calculate_image_hash, encoded_image, image_fingerprint, image_to_base64, process_clipboard_text,
    processed_text, RawImage,
};
use crate::laws::cycle_preserves_well_formedness;
use crate::store::{entry_seconds, parse_timestamp, ClipboardState, StateView};
use vstd::prelude::*;

verus! {

/// How long an entry is kept, in seconds: 24 hours.
pub const RETENTION_WINDOW_SECONDS: i64 = 86_400;

/// How long the monitor waits between two cleanups, in seconds: 60 minutes.
pub const CLEANUP_INTERVAL_SECONDS: i64 = 3_600;

/// How long the monitor sleeps between two cycles, in milliseconds.
pub const POLL_INTERVAL_MILLIS: u64 = 500;

/// What a cycle hands back to the loop that runs it.
#[derive(Debug, Clone, Copy, PartialEq, Eq)]
pub struct CycleOutcome {
    /// The time of the last cleanup, to be handed to the next cycle.
    pub last_cleanup: i64,
    /// Whether the history changed and must be written out.
    pub save: bool,
}

/// The wall clock in seconds that a cycle reads from its timestamp, so that
/// the time by which a cycle cleans up is the time it writes on its entries.
/// Nothing where the timestamp does not parse or its seconds do not fit.
pub open spec fn clock_seconds(timestamp: Seq<char>) -> Option<int> {
    match entry_seconds(timestamp) {
        Some(seconds) => if i64::MIN <= seconds <= i64::MAX {
            Some(seconds)
        } else {
            None
        },
        None => None,
    }
}

/// A cleanup is due once the clock is known and the interval has passed
/// since the last one.
pub open spec fn cleanup_due(now: Option<int>, last_cleanup: int) -> bool {
    match now {
        Some(seconds) => seconds - last_cleanup >= CLEANUP_INTERVAL_SECONDS,
        None => false,
    }
}

/// The state after the cleanup step of a cycle.
pub open spec fn after_cleanup(s: StateView, last_cleanup: int, now: Option<int>) -> StateView {
    if cleanup_due(now, last_cleanup) {
        s.pruned(now.unwrap(), RETENTION_WINDOW_SECONDS as int)
    } else {
        s
    }
}

/// The state after the text step of a cycle.
pub open spec fn after_text(
    s: StateView,
    timestamp: Seq<char>,
    text: Option<String>,
    image: Option<RawImage>,
) -> StateView {
    match processed_text(text, image) {
        Some(content) => s.offered_text(content, timestamp),
        None => s,
    }
}

/// The state after the image step of a cycle.
pub open spec fn after_image(s: StateView, timestamp: Seq<char>, image: Option<RawImage>) -> StateView {
    match image {
        Some(raw) => s.offered_image(
            image_fingerprint(raw.bytes@),
            encoded_image(raw),
            raw.width as nat,
            raw.height as nat,
            timestamp,
        ),
        None => s,
    }
}

/// The state after a whole cycle: cleanup where due, then the text channel,
/// then the image channel.
pub open spec fn after_cycle(
    s: StateView,
    last_cleanup: int,
    timestamp: Seq<char>,
    text: Option<String>,
    image: Option<RawImage>,
) -> StateView {
    after_image(
        after_text(after_cleanup(s, last_cleanup, clock_seconds(timestamp)), timestamp, text, image),
        timestamp,
        image,
    )
}

/// A cycle asks for a save where any of its three steps changed the length
/// of the history.
pub open spec fn cycle_saves(
    s: StateView,
    last_cleanup: int,
    timestamp: Seq<char>,
    text: Option<String>,
    image: Option<RawImage>,
) -> bool {
    let s1 = after_cleanup(s, last_cleanup, clock_seconds(timestamp));
    let s2 = after_text(s1, timestamp, text, image);
    let s3 = after_image(s2, timestamp, image);
    s1.history.len() != s.history.len() || s2.history.len() != s1.history.len() || s3.history.len()
        != s2.history.len()
}

/// The wall clock in seconds that a timestamp stands for.
pub fn read_clock(timestamp: &str) -> (r: Option<i64>)
    ensures
        match r {
            Some(seconds) => clock_seconds(timestamp@) == Some(seconds as int),
            None => clock_seconds(timestamp@) is None,
        },
{
    match parse_timestamp(timestamp) {
        Some((utc, offset)) => {
            let seconds: i128 = (utc as i128) + (offset as i128);
            if seconds < (i64::MIN as i128) || seconds > (i64::MAX as i128) {
                None
            } else {
                Some(seconds as i64)
            }
        },
        None => None,
    }
}

/// Whether a cleanup is due at `now`, the last one having run at `last_cleanup`.
pub fn is_cleanup_due(now: Option<i64>, last_cleanup: i64) -> (r: bool)
    ensures
        r == cleanup_due(
            match now {
                Some(seconds) => Some(seconds as int),
                None => None,
            },
            last_cleanup as int,
        ),
{
    match now {
        Some(seconds) => (seconds as i128) - (last_cleanup as i128) >= (CLEANUP_INTERVAL_SECONDS as i128),
        None => false,
    }
}

impl ClipboardState {
    /// The cleanup with the fixed retention window.
    pub fn cleanup_old_records(&mut self, now: i64) -> (removed: bool)
        ensures
            final(self)@ == old(self)@.pruned(now as int, RETENTION_WINDOW_SECONDS as int),
            removed == (final(self)@.history.len() != old(self)@.history.len()),
    {
        self.cleanup_older_than(now, RETENTION_WINDOW_SECONDS)
    }
}

/// One cycle of the monitor on a clipboard snapshot. `timestamp` is the
/// local time of the cycle as the entries record it; the cleanup reads its
/// clock from the same text.
pub fn monitor_cycle(
    state: &mut ClipboardState,
    last_cleanup: i64,
    timestamp: &str,
    text: Option<String>,
    image: Option<RawImage>,
) -> (r: CycleOutcome)
    ensures
        final(state)@ == after_cycle(old(state)@, last_cleanup as int, timestamp@, text, image),
        r.last_cleanup == if cleanup_due(clock_seconds(timestamp@), last_cleanup as int) {
            clock_seconds(timestamp@).unwrap()
        } else {
            last_cleanup as int
        },
        r.save == cycle_saves(old(state)@, last_cleanup as int, timestamp@, text, image),
        old(state)@.wf() ==> final(state)@.wf(),
{
    proof {
        if state@.wf() {
            cycle_preserves_well_formedness(state@, last_cleanup as int, timestamp@, text, image);
        }
    }
    let mut save = false;
    let mut next_cleanup: i64 = last_cleanup;
    let now = read_clock(timestamp);
    if is_cleanup_due(now, last_cleanup) {
        if let Some(seconds) = now {
            if state.cleanup_old_records(seconds) {
                save = true;
            }
            next_cleanup = seconds;
        }
    }
    let processed = match &image {
        Some(raw) => process_clipboard_text(text, Some(raw)),
        None => process_clipboard_text(text, None),
    };
    if let Some(content) = processed {
        if state.offer_text(content, timestamp.to_owned()) {
            save = true;
        }
    }
    if let Some(raw) = image {
        let fingerprint = calculate_image_hash(&raw);
        if fingerprint != state.last_image_hash() {
            let encoded = image_to_base64(&raw);
            if state.offer_image(fingerprint, encoded, raw.width, raw.height, timestamp.to_owned()) {
                save = true;
            }
        }
    }
    CycleOutcome { last_cleanup: next_cleanup, save }
}

} // verus!
