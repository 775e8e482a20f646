use clipboard_mcp::error::{internal_failure, tool_error, ErrorKind, Failure};
use clipboard_mcp::reply::{
    format_clipboard_response, get_clipboard_html_reply, get_clipboard_reply, read_clipboard_html,
    read_clipboard_text, ReadOutcome, MAX_TEXT_BYTES,
};
use clipboard_mcp::text::{byte_len, decimal_string, truncate_text};

#[test]
fn truncate_short_text_is_untouched() {
    assert_eq!(truncate_text("hello", 10), ("hello", false));
    assert_eq!(truncate_text("hello", 5), ("hello", false));
    assert_eq!(truncate_text("", 0), ("", false));
}

#[test]
fn truncate_ascii_cuts_at_limit() {
    assert_eq!(truncate_text("hello", 3), ("hel", true));
    assert_eq!(truncate_text("ab", 0), ("", true));
}

#[test]
fn truncate_never_splits_a_character() {
    // 'é' takes two bytes: bytes 1 and 2.
    assert_eq!(truncate_text("h\u{e9}llo", 2), ("h", true));
    assert_eq!(truncate_text("h\u{e9}llo", 3), ("h\u{e9}", true));
    // a four-byte character
    assert_eq!(truncate_text("\u{1f600}x", 3), ("", true));
    assert_eq!(truncate_text("\u{1f600}x", 4), ("\u{1f600}", true));
    // a three-byte character
    assert_eq!(truncate_text("a\u{20ac}b", 3), ("a", true));
}

#[test]
fn truncate_keeps_longest_fitting_prefix() {
    let s = "\u{e9}\u{e9}\u{e9}\u{e9}"; // eight bytes
    for max in 0..8usize {
        let (out, cut) = truncate_text(s, max);
        assert!(cut);
        assert!(out.len() <= max);
        assert!(s.starts_with(out));
        assert_eq!(out.len(), max - max % 2);
    }
}

#[test]
fn byte_len_counts_utf8_bytes() {
    assert_eq!(byte_len(""), 0);
    assert_eq!(byte_len("abc"), 3);
    assert_eq!(byte_len("\u{e9}\u{20ac}\u{1f600}"), 9);
}

#[test]
fn decimal_strings() {
    assert_eq!(decimal_string(0), "0");
    assert_eq!(decimal_string(7), "7");
    assert_eq!(decimal_string(102400), "102400");
    assert_eq!(decimal_string(u64::MAX), "18446744073709551615");
}

#[test]
fn response_under_limit_is_the_text() {
    assert_eq!(format_clipboard_response("hi there".to_string()), "hi there");
    let exact = "a".repeat(MAX_TEXT_BYTES);
    assert_eq!(format_clipboard_response(exact.clone()), exact);
}

#[test]
fn response_over_limit_is_truncated_with_note() {
    let long = "a".repeat(MAX_TEXT_BYTES + 1);
    let r = format_clipboard_response(long);
    let expected = format!(
        "[clipboard text truncated: showing 102400 of 102401 bytes]\n{}",
        "a".repeat(MAX_TEXT_BYTES)
    );
    assert_eq!(r, expected);
}

#[test]
fn response_over_limit_cuts_at_character() {
    // 51200 two-byte characters fill the limit exactly; one more ASCII byte overflows
    let mut s = "a".to_string();
    s.push_str(&"\u{e9}".repeat(MAX_TEXT_BYTES / 2));
    let r = format_clipboard_response(s);
    let expected = format!(
        "[clipboard text truncated: showing 102400 of 102401 bytes]\na{}",
        "\u{e9}".repeat(MAX_TEXT_BYTES / 2 - 1)
    );
    assert_eq!(r, expected);
}

#[test]
fn get_clipboard_replies() {
    assert_eq!(get_clipboard_reply(Some(String::new())), "[clipboard is empty]");
    assert_eq!(get_clipboard_reply(Some("copied".to_string())), "copied");
    assert_eq!(
        get_clipboard_reply(None),
        "[clipboard is empty or contains non-text content]"
    );
}

#[test]
fn get_clipboard_html_replies() {
    assert_eq!(get_clipboard_html_reply(Some(String::new())), "[clipboard HTML is empty]");
    assert_eq!(get_clipboard_html_reply(Some("<b>x</b>".to_string())), "<b>x</b>");
    assert_eq!(
        get_clipboard_html_reply(None),
        "[clipboard does not contain HTML content]"
    );
}

#[test]
fn read_text_outcomes() {
    let r = read_clipboard_text(ReadOutcome::Content("abc".to_string())).unwrap();
    assert_eq!(r, Some("abc".to_string()));
    let r = read_clipboard_text(ReadOutcome::NotAvailable).unwrap();
    assert_eq!(r, None);
    let e = read_clipboard_text(ReadOutcome::AccessFailed("no display".to_string())).unwrap_err();
    assert_eq!(e.kind, ErrorKind::Internal);
    assert_eq!(e.message, "Failed to access clipboard: no display");
    let e = read_clipboard_text(ReadOutcome::ReadFailed("boom".to_string())).unwrap_err();
    assert_eq!(e.kind, ErrorKind::Internal);
    assert_eq!(e.message, "Failed to read clipboard: boom");
}

#[test]
fn read_html_outcomes() {
    let r = read_clipboard_html(ReadOutcome::Content("<p>".to_string())).unwrap();
    assert_eq!(r, Some("<p>".to_string()));
    assert_eq!(read_clipboard_html(ReadOutcome::NotAvailable).unwrap(), None);
    let e = read_clipboard_html(ReadOutcome::ReadFailed("boom".to_string())).unwrap_err();
    assert_eq!(e.message, "Failed to read clipboard HTML: boom");
    let e = read_clipboard_html(ReadOutcome::AccessFailed("x".to_string())).unwrap_err();
    assert_eq!(e.message, "Failed to access clipboard: x");
}

#[test]
fn failure_messages() {
    assert_eq!(internal_failure(Failure::Clear, "e").message, "Failed to clear clipboard: e");
    assert_eq!(internal_failure(Failure::Write, "e").message, "Failed to set clipboard: e");
    assert_eq!(internal_failure(Failure::Task, "panicked").message, "Task failed: panicked");
    let e = tool_error(ErrorKind::InvalidParams, "nope");
    assert_eq!(e.kind, ErrorKind::InvalidParams);
    assert_eq!(e.message, "nope");
}
