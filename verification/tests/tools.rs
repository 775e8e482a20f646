use clipboard_mcp::error::ErrorKind;
use clipboard_mcp::formats::{list_clipboard_formats_reply, probe_clipboard_formats, ClipboardFormat};
use clipboard_mcp::holder::{release_clipboard_thread, replace_clipboard_thread};
use clipboard_mcp::http::{bind_address, is_loopback_host, reject_browser_requests};
use clipboard_mcp::reply::MAX_SET_BYTES;
use clipboard_mcp::set_text::{check_set_size, is_control, preview_char, set_clipboard_reply};

#[test]
fn probe_keeps_fixed_order() {
    assert_eq!(
        probe_clipboard_formats(true, true, true, true),
        vec![
            ClipboardFormat::Text,
            ClipboardFormat::Html,
            ClipboardFormat::Image,
            ClipboardFormat::Files
        ]
    );
    assert_eq!(
        probe_clipboard_formats(false, true, false, true),
        vec![ClipboardFormat::Html, ClipboardFormat::Files]
    );
    assert!(probe_clipboard_formats(false, false, false, false).is_empty());
}

#[test]
fn format_names() {
    assert_eq!(ClipboardFormat::Text.name(), "text");
    assert_eq!(ClipboardFormat::Html.name(), "html");
    assert_eq!(ClipboardFormat::Image.name(), "image");
    assert_eq!(ClipboardFormat::Files.name(), "files");
}

#[test]
fn list_formats_replies() {
    assert_eq!(
        list_clipboard_formats_reply(&vec![]),
        "[clipboard is empty \u{2014} no formats detected]"
    );
    assert_eq!(
        list_clipboard_formats_reply(&vec![ClipboardFormat::Image]),
        "Available clipboard formats: image"
    );
    assert_eq!(
        list_clipboard_formats_reply(&probe_clipboard_formats(true, true, false, true)),
        "Available clipboard formats: text, html, files"
    );
}

#[test]
fn set_size_limit() {
    assert!(check_set_size("").is_ok());
    assert!(check_set_size(&"x".repeat(MAX_SET_BYTES)).is_ok());
    let e = check_set_size(&"x".repeat(MAX_SET_BYTES + 1)).unwrap_err();
    assert_eq!(e.kind, ErrorKind::InvalidParams);
    assert_eq!(e.message, "Text too large: 1048577 bytes (max 1048576 bytes)");
    // the limit is in bytes, not characters
    let e = check_set_size(&"\u{e9}".repeat(MAX_SET_BYTES / 2 + 1)).unwrap_err();
    assert_eq!(e.message, "Text too large: 1048578 bytes (max 1048576 bytes)");
}

#[test]
fn control_characters() {
    assert!(is_control('\u{0}'));
    assert!(is_control('\u{1f}'));
    assert!(!is_control(' '));
    assert!(!is_control('~'));
    assert!(is_control('\u{7f}'));
    assert!(is_control('\u{85}'));
    assert!(is_control('\u{9f}'));
    assert!(!is_control('\u{a0}'));
    for c in ['\u{0}', 'a', '\u{7f}', '\u{9f}', '\u{a0}', '\u{1f600}', '\n'] {
        assert_eq!(is_control(c), c.is_control());
    }
}

#[test]
fn preview_characters() {
    assert_eq!(preview_char('\n'), '\u{21b5}');
    assert_eq!(preview_char('\r'), '\u{23ce}');
    assert_eq!(preview_char('\t'), '\u{21e5}');
    assert_eq!(preview_char('\u{7}'), '\u{b7}');
    assert_eq!(preview_char('z'), 'z');
    assert_eq!(preview_char('\u{e9}'), '\u{e9}');
}

#[test]
fn set_reply_shows_count_and_clean_preview() {
    assert_eq!(set_clipboard_reply(""), "Clipboard set (0 chars): \"\"");
    assert_eq!(set_clipboard_reply("hello"), "Clipboard set (5 chars): \"hello\"");
    assert_eq!(
        set_clipboard_reply("a\nb\tc\r\u{7}d"),
        "Clipboard set (8 chars): \"a\u{21b5}b\u{21e5}c\u{23ce}\u{b7}d\""
    );
}

#[test]
fn set_reply_preview_stops_at_one_hundred_chars() {
    let text = "\u{e9}".repeat(150);
    let expected = format!("Clipboard set (150 chars): \"{}\"", "\u{e9}".repeat(100));
    assert_eq!(set_clipboard_reply(&text), expected);
    let text = "b".repeat(100);
    let expected = format!("Clipboard set (100 chars): \"{}\"", "b".repeat(100));
    assert_eq!(set_clipboard_reply(&text), expected);
}

#[test]
fn holder_release_and_replace() {
    let mut slot: Option<u32> = None;
    assert_eq!(release_clipboard_thread(&mut slot), None);
    assert_eq!(replace_clipboard_thread(&mut slot, 1), None);
    assert_eq!(slot, Some(1));
    assert_eq!(replace_clipboard_thread(&mut slot, 2), Some(1));
    assert_eq!(slot, Some(2));
    assert_eq!(release_clipboard_thread(&mut slot), Some(2));
    assert_eq!(slot, None);
    assert_eq!(release_clipboard_thread(&mut slot), None);
}

#[test]
fn every_stored_holder_comes_back_once() {
    let mut slot: Option<u32> = Some(0);
    let mut back = Vec::new();
    for h in 1..=4u32 {
        back.extend(replace_clipboard_thread(&mut slot, h));
    }
    back.extend(release_clipboard_thread(&mut slot));
    assert_eq!(back, vec![0, 1, 2, 3, 4]);
    assert_eq!(slot, None);
}

#[test]
fn browser_requests_are_rejected() {
    let r = reject_browser_requests(true).unwrap();
    assert_eq!(r.status, 403);
    assert_eq!(r.body, "Forbidden: browser requests not allowed");
    assert!(reject_browser_requests(false).is_none());
}

#[test]
fn loopback_hosts() {
    assert!(is_loopback_host("127.0.0.1"));
    assert!(is_loopback_host("::1"));
    assert!(is_loopback_host("localhost"));
    assert!(!is_loopback_host("0.0.0.0"));
    assert!(!is_loopback_host("localhost "));
    assert!(!is_loopback_host(""));
}

#[test]
fn bind_addresses() {
    assert_eq!(bind_address("127.0.0.1", 3100), "127.0.0.1:3100");
    assert_eq!(bind_address("::1", 0), "::1:0");
    assert_eq!(bind_address("host", 65535), "host:65535");
}
