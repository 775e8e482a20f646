use clipboard_mcp::error::{ErrorKind, ToolError};
use clipboard_mcp::watch::{
    next_poll, watch_timeout_secs, WatchEvent, WatchSession, WatchStep, POLL_INTERVAL_NANOS,
};

fn reply_of(step: WatchStep) -> String {
    match step {
        WatchStep::Reply(s) => s,
        _ => panic!("expected a reply"),
    }
}

fn keeps_watching(step: &WatchStep) -> bool {
    matches!(step, WatchStep::KeepWatching)
}

#[test]
fn timeout_defaults_and_caps() {
    assert_eq!(watch_timeout_secs(None), 30);
    assert_eq!(watch_timeout_secs(Some(5)), 5);
    assert_eq!(watch_timeout_secs(Some(0)), 0);
    assert_eq!(watch_timeout_secs(Some(300)), 300);
    assert_eq!(watch_timeout_secs(Some(301)), 300);
    assert_eq!(watch_timeout_secs(Some(u32::MAX)), 300);
}

#[test]
fn poll_waits() {
    assert_eq!(next_poll(0), None);
    assert_eq!(next_poll(1), Some(1));
    assert_eq!(next_poll(POLL_INTERVAL_NANOS), Some(POLL_INTERVAL_NANOS));
    assert_eq!(next_poll(10 * POLL_INTERVAL_NANOS), Some(500_000_000));
}

#[test]
fn deadline_gives_timeout_reply() {
    let mut w = WatchSession::start(Ok(Some("a".to_string())));
    let r = reply_of(w.on_event(WatchEvent::DeadlineReached));
    assert_eq!(r, "[timeout \u{2014} clipboard unchanged]");
}

#[test]
fn unchanged_text_keeps_watching() {
    let mut w = WatchSession::start(Ok(Some("same".to_string())));
    for _ in 0..10 {
        assert!(keeps_watching(&w.on_event(WatchEvent::ReadSucceeded(Some("same".to_string())))));
    }
}

#[test]
fn changed_text_is_reported() {
    let mut w = WatchSession::start(Ok(Some("old".to_string())));
    let r = reply_of(w.on_event(WatchEvent::ReadSucceeded(Some("new".to_string()))));
    assert_eq!(r, "new");
}

#[test]
fn change_to_empty_and_non_text() {
    let mut w = WatchSession::start(Ok(Some("old".to_string())));
    let r = reply_of(w.on_event(WatchEvent::ReadSucceeded(Some(String::new()))));
    assert_eq!(r, "[clipboard changed but is now empty]");
    let mut w = WatchSession::start(Ok(Some("old".to_string())));
    let r = reply_of(w.on_event(WatchEvent::ReadSucceeded(None)));
    assert_eq!(r, "[clipboard changed to non-text content]");
}

#[test]
fn failed_first_read_counts_as_no_text() {
    let first: Result<Option<String>, ToolError> = Err(ToolError {
        kind: ErrorKind::Internal,
        message: "x".to_string(),
    });
    let mut w = WatchSession::start(first);
    assert!(keeps_watching(&w.on_event(WatchEvent::ReadSucceeded(None))));
    let r = reply_of(w.on_event(WatchEvent::ReadSucceeded(Some("t".to_string()))));
    assert_eq!(r, "t");
}

#[test]
fn fifth_failure_in_a_row_fails() {
    let mut w = WatchSession::start(Ok(None));
    for _ in 0..4 {
        assert!(keeps_watching(&w.on_event(WatchEvent::ReadFailed)));
    }
    match w.on_event(WatchEvent::ReadFailed) {
        WatchStep::Fail(e) => {
            assert_eq!(e.kind, ErrorKind::Internal);
            assert_eq!(e.message, "Clipboard access failed repeatedly");
        }
        _ => panic!("expected failure"),
    }
}

#[test]
fn successful_read_resets_failures() {
    let mut w = WatchSession::start(Ok(None));
    for _ in 0..4 {
        assert!(keeps_watching(&w.on_event(WatchEvent::ReadFailed)));
    }
    assert!(keeps_watching(&w.on_event(WatchEvent::ReadSucceeded(None))));
    for _ in 0..4 {
        assert!(keeps_watching(&w.on_event(WatchEvent::ReadFailed)));
    }
    assert!(matches!(w.on_event(WatchEvent::ReadFailed), WatchStep::Fail(_)));
}

#[test]
fn long_change_is_truncated() {
    let mut w = WatchSession::start(Ok(None));
    let long = "z".repeat(102_410);
    let r = reply_of(w.on_event(WatchEvent::ReadSucceeded(Some(long))));
    assert!(r.starts_with("[clipboard text truncated: showing 102400 of 102410 bytes]\n"));
    assert_eq!(r.len(), "[clipboard text truncated: showing 102400 of 102410 bytes]\n".len() + 102_400);
}
