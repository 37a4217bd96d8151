use base64::Engine;
use clipboard_monitor::bytes::{contains_bytes, find_bytes, matches_at};
use clipboard_monitor::classify::{
    calculate_image_hash, classify_text, find_marker, image_to_base64, process_clipboard_text, RawImage,
};
use clipboard_monitor::content::{ClipboardContent, EmojiImage};
use clipboard_monitor::monitor::{
    is_cleanup_due, monitor_cycle, read_clock, CLEANUP_INTERVAL_SECONDS, POLL_INTERVAL_MILLIS,
    RETENTION_WINDOW_SECONDS,
};
use clipboard_monitor::store::ClipboardState;

const PREFIX: &str = "data:image/png;base64,";

fn pixels_2x1() -> RawImage {
    RawImage { width: 2, height: 1, bytes: vec![255, 0, 0, 255, 0, 128, 255, 64] }
}

fn other_2x1() -> RawImage {
    RawImage { width: 2, height: 1, bytes: vec![1, 2, 3, 4, 5, 6, 7, 8] }
}

#[test]
fn find_bytes_gives_the_first_offset() {
    assert_eq!(find_bytes(b"abcabc", b"bc"), Some(1));
    assert_eq!(find_bytes(b"abcabc", b"abc"), Some(0));
    assert_eq!(find_bytes(b"abcabc", b"cab"), Some(2));
    assert_eq!(find_bytes(b"aab", b"ab"), Some(1));
    assert_eq!(find_bytes(b"abc", b"c"), Some(2));
}

#[test]
fn find_bytes_without_occurrence() {
    assert_eq!(find_bytes(b"abcabc", b"cb"), None);
    assert_eq!(find_bytes(b"ab", b"abc"), None);
    assert_eq!(find_bytes(b"", b"a"), None);
}

#[test]
fn find_bytes_empty_needle_is_at_zero() {
    assert_eq!(find_bytes(b"abc", b""), Some(0));
    assert_eq!(find_bytes(b"", b""), Some(0));
}

#[test]
fn matches_at_and_contains_bytes() {
    assert!(matches_at(b"hello", b"llo", 2));
    assert!(!matches_at(b"hello", b"llo", 1));
    assert!(matches_at(b"hello", b"", 5));
    assert!(contains_bytes(b"hello", b"ell"));
    assert!(!contains_bytes(b"hello", b"elo"));
}

#[test]
fn find_marker_counts_bytes() {
    assert_eq!(find_marker("[微信表情]"), Some(0));
    assert_eq!(find_marker("hi [微信表情] there"), Some(3));
    assert_eq!(find_marker("微[微信表情]"), Some(3));
    assert_eq!(find_marker("a[微信表情]b[微信表情]"), Some(1));
    assert_eq!(find_marker("no marker"), None);
    assert_eq!(find_marker("[微信表]"), None);
    assert_eq!(find_marker(""), None);
}

#[test]
fn marked_text_with_image_is_rich_text() {
    let raw = pixels_2x1();
    let got = process_clipboard_text(Some("hi [微信表情] there".to_string()), Some(&raw));
    let data = image_to_base64(&raw).unwrap();
    assert_eq!(
        got,
        Some(ClipboardContent::RichText {
            content: "hi [微信表情] there".to_string(),
            emoji_images: vec![EmojiImage::new(data, 3)],
        })
    );
}

#[test]
fn marked_text_without_image_is_plain_text() {
    let got = process_clipboard_text(Some("hi [微信表情] there".to_string()), None);
    assert_eq!(got, Some(ClipboardContent::Text { content: "hi [微信表情] there".to_string() }));
}

#[test]
fn marked_text_with_undecodable_image_is_plain_text() {
    let raw = RawImage { width: 2, height: 2, bytes: vec![0, 0, 0, 0] };
    let got = process_clipboard_text(Some("[微信表情]".to_string()), Some(&raw));
    assert_eq!(got, Some(ClipboardContent::Text { content: "[微信表情]".to_string() }));
}

#[test]
fn unmarked_text_with_image_is_plain_text() {
    let raw = pixels_2x1();
    let got = process_clipboard_text(Some("微信表情 [] plain".to_string()), Some(&raw));
    assert_eq!(got, Some(ClipboardContent::Text { content: "微信表情 [] plain".to_string() }));
}

#[test]
fn only_the_first_marker_is_captured() {
    let raw = pixels_2x1();
    let got = process_clipboard_text(Some("ab[微信表情][微信表情]".to_string()), Some(&raw));
    match got {
        Some(ClipboardContent::RichText { emoji_images, .. }) => {
            assert_eq!(emoji_images.len(), 1);
            assert_eq!(emoji_images[0].position(), 2);
        }
        other => panic!("expected a rich text, got {:?}", other),
    }
}

#[test]
fn empty_or_absent_text_yields_nothing() {
    let raw = pixels_2x1();
    assert_eq!(process_clipboard_text(Some(String::new()), Some(&raw)), None);
    assert_eq!(process_clipboard_text(None, Some(&raw)), None);
    assert_eq!(process_clipboard_text(None, None), None);
}

#[test]
fn classify_text_follows_its_arguments() {
    assert_eq!(
        classify_text("x[微信表情]".to_string(), true, Some("img".to_string())),
        ClipboardContent::RichText {
            content: "x[微信表情]".to_string(),
            emoji_images: vec![EmojiImage::new("img".to_string(), 1)],
        }
    );
    assert_eq!(
        classify_text("x[微信表情]".to_string(), false, Some("img".to_string())),
        ClipboardContent::Text { content: "x[微信表情]".to_string() }
    );
    assert_eq!(
        classify_text("x[微信表情]".to_string(), true, None),
        ClipboardContent::Text { content: "x[微信表情]".to_string() }
    );
    assert_eq!(
        classify_text("plain".to_string(), true, Some("img".to_string())),
        ClipboardContent::Text { content: "plain".to_string() }
    );
    assert_eq!(
        classify_text("[微信表情]".to_string(), true, Some("img".to_string())),
        ClipboardContent::RichText {
            content: "[微信表情]".to_string(),
            emoji_images: vec![EmojiImage::new("img".to_string(), 0)],
        }
    );
}

#[test]
fn encoded_image_is_a_png_data_url_of_the_pixels() {
    let raw = pixels_2x1();
    let encoded = image_to_base64(&raw).unwrap();
    assert!(encoded.starts_with(PREFIX));
    assert!(encoded.starts_with("data:image/png;base64,iVBORw0KGgo"));
    let file = base64::engine::general_purpose::STANDARD.decode(&encoded[PREFIX.len()..]).unwrap();
    assert_eq!(&file[..8], &[0x89, b'P', b'N', b'G', 0x0d, 0x0a, 0x1a, 0x0a]);
    let decoded = image::load_from_memory(&file).unwrap().to_rgba8();
    assert_eq!(decoded.width(), 2);
    assert_eq!(decoded.height(), 1);
    assert_eq!(decoded.into_raw(), raw.bytes);
}

#[test]
fn encoded_image_depends_on_the_pixels_alone() {
    assert_eq!(image_to_base64(&pixels_2x1()), image_to_base64(&pixels_2x1()));
    assert_ne!(image_to_base64(&pixels_2x1()), image_to_base64(&other_2x1()));
}

#[test]
fn image_with_wrong_buffer_length_has_no_encoded_form() {
    assert_eq!(image_to_base64(&RawImage { width: 2, height: 1, bytes: vec![0; 7] }), None);
    assert_eq!(image_to_base64(&RawImage { width: 2, height: 1, bytes: vec![0; 9] }), None);
    assert_eq!(image_to_base64(&RawImage { width: 1, height: 1, bytes: vec![] }), None);
    assert_eq!(image_to_base64(&RawImage { width: usize::MAX, height: 1, bytes: vec![0; 4] }), None);
    assert_eq!(image_to_base64(&RawImage { width: 1, height: usize::MAX, bytes: vec![0; 4] }), None);
}

#[test]
fn image_without_pixels_has_no_encoded_form() {
    assert_eq!(image_to_base64(&RawImage { width: 0, height: 0, bytes: vec![] }), None);
}

#[test]
fn image_hash_tells_pixels_apart() {
    assert_eq!(calculate_image_hash(&pixels_2x1()), calculate_image_hash(&pixels_2x1()));
    assert_ne!(calculate_image_hash(&pixels_2x1()), calculate_image_hash(&other_2x1()));
    let wide = RawImage { width: 1, height: 2, bytes: pixels_2x1().bytes };
    assert_eq!(calculate_image_hash(&wide), calculate_image_hash(&pixels_2x1()));
}

#[test]
fn fixed_intervals() {
    assert_eq!(RETENTION_WINDOW_SECONDS, 24 * 60 * 60);
    assert_eq!(CLEANUP_INTERVAL_SECONDS, 60 * 60);
    assert_eq!(POLL_INTERVAL_MILLIS, 500);
}

#[test]
fn cleanup_is_due_after_an_hour() {
    assert!(!is_cleanup_due(Some(1_000_000 + 3_599), 1_000_000));
    assert!(is_cleanup_due(Some(1_000_000 + 3_600), 1_000_000));
    assert!(!is_cleanup_due(Some(1_000_000), 1_000_000));
    assert!(!is_cleanup_due(Some(0), 1_000_000));
    assert!(is_cleanup_due(Some(i64::MAX), i64::MIN));
    assert!(!is_cleanup_due(Some(i64::MIN), i64::MAX));
    assert!(!is_cleanup_due(None, 0));
    assert!(!is_cleanup_due(None, i64::MIN));
}

#[test]
fn clock_is_read_from_the_timestamp() {
    assert_eq!(read_clock("2024-01-03 00:00:00"), Some(NOW));
    assert_eq!(read_clock("2024-01-02 23:59:59"), Some(NOW - 1));
    assert_eq!(read_clock("1970-01-01 00:00:00"), Some(0));
    assert_eq!(read_clock("1969-12-31 23:59:59"), Some(-1));
    assert_eq!(read_clock("2024-01-03"), None);
    assert_eq!(read_clock("2024-01-03 00:00:00 +0100"), None);
    assert_eq!(read_clock("2024-13-03 00:00:00"), None);
    assert_eq!(read_clock(""), None);
}

#[test]
fn cycle_with_unreadable_timestamp_records_and_does_not_clean() {
    let mut state = ClipboardState::new(None);
    monitor_cycle(&mut state, NOW, "2020-01-01 00:00:00", Some("old".to_string()), None);
    let out = monitor_cycle(&mut state, 0, "not a time", Some("new".to_string()), None);
    assert!(out.save);
    assert_eq!(out.last_cleanup, 0);
    let history = state.get_history();
    assert_eq!(history.len(), 2);
    assert_eq!(history[1].timestamp(), "not a time");
}

// 2024-01-03 00:00:00 read as seconds since the epoch.
const NOW: i64 = 1_704_240_000;

#[test]
fn cycle_records_both_channels_once() {
    let mut state = ClipboardState::new(None);
    let stamp = "2024-01-03 00:00:00";
    let first = monitor_cycle(&mut state, NOW, stamp, Some("copied".to_string()), Some(pixels_2x1()));
    assert!(first.save);
    assert_eq!(first.last_cleanup, NOW);
    let history = state.get_history();
    assert_eq!(history.len(), 2);
    assert_eq!(history[0].content(), &ClipboardContent::Text { content: "copied".to_string() });
    assert_eq!(history[0].timestamp(), stamp);
    assert_eq!(
        history[1].content(),
        &ClipboardContent::Image { data: image_to_base64(&pixels_2x1()).unwrap(), width: 2, height: 1 }
    );
    assert_eq!(history[1].timestamp(), stamp);
    assert_eq!(state.last_image_hash(), calculate_image_hash(&pixels_2x1()));

    let second = monitor_cycle(&mut state, NOW, stamp, Some("copied".to_string()), Some(pixels_2x1()));
    assert!(!second.save);
    assert_eq!(second.last_cleanup, NOW);
    assert_eq!(state.len(), 2);
}

#[test]
fn cycle_with_unchanged_text_and_changed_image_adds_one_entry() {
    let mut state = ClipboardState::new(None);
    monitor_cycle(&mut state, NOW, "2024-01-03 00:00:00", Some("same".to_string()), Some(pixels_2x1()));
    assert_eq!(state.len(), 2);
    let out = monitor_cycle(&mut state, NOW, "2024-01-03 00:00:01", Some("same".to_string()), Some(other_2x1()));
    assert!(out.save);
    assert_eq!(state.len(), 3);
    let out = monitor_cycle(&mut state, NOW, "2024-01-03 00:00:02", Some("new".to_string()), Some(other_2x1()));
    assert!(out.save);
    assert_eq!(state.len(), 4);
    assert_eq!(state.last_text_content(), "new");
}

#[test]
fn cycle_with_nothing_readable_changes_nothing() {
    let mut state = ClipboardState::new(None);
    let out = monitor_cycle(&mut state, NOW, "2024-01-03 00:00:10", None, None);
    assert!(!out.save);
    assert_eq!(out.last_cleanup, NOW);
    assert_eq!(state.len(), 0);
}

#[test]
fn cycle_with_marked_text_and_image_records_rich_text_and_image() {
    let mut state = ClipboardState::new(None);
    let out = monitor_cycle(&mut state, NOW, "2024-01-03 00:00:00", Some("a[微信表情]".to_string()), Some(pixels_2x1()));
    assert!(out.save);
    let history = state.get_history();
    assert_eq!(history.len(), 2);
    assert_eq!(
        history[0].content(),
        &ClipboardContent::RichText {
            content: "a[微信表情]".to_string(),
            emoji_images: vec![EmojiImage::new(image_to_base64(&pixels_2x1()).unwrap(), 1)],
        }
    );
}

#[test]
fn cycle_with_undecodable_image_changes_nothing() {
    let mut state = ClipboardState::new(None);
    let broken = RawImage { width: 3, height: 3, bytes: vec![1, 2, 3] };
    let out = monitor_cycle(&mut state, NOW, "2024-01-03 00:00:00", None, Some(broken.clone()));
    assert!(!out.save);
    assert_eq!(state.len(), 0);
    assert_eq!(state.last_image_hash(), 0);
    assert_ne!(calculate_image_hash(&broken), 0);
}

#[test]
fn rich_text_position_is_where_the_marker_begins() {
    let raw = pixels_2x1();
    for content in ["[微信表情]", "ab[微信表情]", "微信[微信表情] 表情[微信表情]", "[微信表[微信表情]"] {
        match process_clipboard_text(Some(content.to_string()), Some(&raw)) {
            Some(ClipboardContent::RichText { content: kept, emoji_images }) => {
                assert_eq!(kept, content);
                assert_eq!(emoji_images.len(), 1);
                let position = emoji_images[0].position();
                assert!(position <= kept.len());
                assert!(kept[position..].starts_with("[微信表情]"));
                assert_eq!(kept.find("[微信表情]"), Some(position));
            }
            other => panic!("expected a rich text, got {:?}", other),
        }
    }
}

#[test]
fn cycle_runs_the_cleanup_when_due() {
    let mut state = ClipboardState::new(None);
    monitor_cycle(&mut state, NOW, "2024-01-01 23:59:59", Some("old".to_string()), None);
    monitor_cycle(&mut state, NOW, "2024-01-02 00:00:00", Some("boundary".to_string()), None);
    assert_eq!(state.len(), 2);

    let early = monitor_cycle(&mut state, NOW - 3_599, "2024-01-03 00:00:00", None, None);
    assert!(!early.save);
    assert_eq!(early.last_cleanup, NOW - 3_599);
    assert_eq!(state.len(), 2);

    let due = monitor_cycle(&mut state, NOW - 3_600, "2024-01-03 00:00:00", None, None);
    assert!(due.save);
    assert_eq!(due.last_cleanup, NOW);
    let history = state.get_history();
    assert_eq!(history.len(), 1);
    assert_eq!(history[0].timestamp(), "2024-01-02 00:00:00");

    let again = monitor_cycle(&mut state, NOW - 3_600, "2024-01-03 00:00:00", None, None);
    assert!(!again.save);
    assert_eq!(again.last_cleanup, NOW);
}

#[test]
fn data_url_puts_the_prefix_first() {
    assert_eq!(
        clipboard_monitor::classify::png_data_url("iVBORw0KGgo="),
        "data:image/png;base64,iVBORw0KGgo="
    );
    assert_eq!(clipboard_monitor::classify::png_data_url(""), "data:image/png;base64,");
}
