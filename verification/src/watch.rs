use vstd::prelude::*;
use vstd::string::*;

use crate::error::{ErrorKind, ToolError};
use crate::reply::{
    clipboard_response, content_reply_is_content_or_truncation, format_clipboard_response,
    opt_chars, replies_content,
};

verus! {

/// Seconds a watch lasts when the caller names no timeout.
pub const DEFAULT_WATCH_SECS: u32 = 30;

/// Longest watch, in seconds.
pub const MAX_WATCH_SECS: u32 = 300;

/// Time between two reads of the clipboard, in nanoseconds (half a second).
pub const POLL_INTERVAL_NANOS: u128 = 500_000_000;

/// Failed reads in a row after which a watch gives up.
pub const MAX_CONSECUTIVE_ERRORS: u32 = 5;

/// The timeout a watch uses for the one requested.
pub open spec fn timeout_for(requested: Option<u32>) -> u32 {
    match requested {
        Some(t) => if t < MAX_WATCH_SECS { t } else { MAX_WATCH_SECS },
        None => DEFAULT_WATCH_SECS,
    }
}

/// The timeout of a watch, in seconds: the one requested, at most the
/// longest, or the default.
pub fn watch_timeout_secs(requested: Option<u32>) -> (r: u32)
    ensures
        r == timeout_for(requested),
        requested matches Some(t) ==> r == (if t < 300 { t } else { 300 }),
        requested is None ==> r == 30,
{
    let t = match requested {
        Some(t) => t,
        None => DEFAULT_WATCH_SECS,
    };
    if t < MAX_WATCH_SECS {
        t
    } else {
        MAX_WATCH_SECS
    }
}

/// A watch lasts as long as requested, but at most five minutes; without a
/// request it lasts thirty seconds.
pub proof fn timeout_is_request_capped_at_five_minutes(requested: Option<u32>)
    ensures
        requested matches Some(t) ==> timeout_for(requested) == (if t < 300 { t } else { 300 }),
        requested matches Some(t) ==> timeout_for(requested) <= t,
        requested matches Some(t) ==> timeout_for(requested) <= 300,
        requested is None ==> timeout_for(requested) == 30,
{
}

/// How long to sleep before the next read when `remaining_nanos` are left
/// before the deadline: `None` once the deadline has passed, otherwise the
/// poll interval or what is left, whichever is shorter.
pub fn next_poll(remaining_nanos: u128) -> (r: Option<u128>)
    ensures
        r is None <==> remaining_nanos == 0,
        r matches Some(w) ==> w == (if remaining_nanos < POLL_INTERVAL_NANOS {
            remaining_nanos
        } else {
            POLL_INTERVAL_NANOS
        }),
        r matches Some(w) ==> 0 < w <= 500_000_000 && w <= remaining_nanos,
        r matches Some(w) ==> (w == remaining_nanos || w == 500_000_000),
{
    if remaining_nanos == 0 {
        None
    } else if remaining_nanos < POLL_INTERVAL_NANOS {
        Some(remaining_nanos)
    } else {
        Some(POLL_INTERVAL_NANOS)
    }
}

/// What the watch loop learned since its last step.
pub enum WatchEvent {
    /// The deadline has passed.
    DeadlineReached,
    /// The clipboard was read; it held this text (`None`: no text).
    ReadSucceeded(Option<String>),
    /// Reading the clipboard failed.
    ReadFailed,
}

/// What the watch loop does next.
pub enum WatchStep {
    /// Sleep and read again.
    KeepWatching,
    /// End the watch with this reply.
    Reply(String),
    /// End the watch with this error.
    Fail(ToolError),
}

/// An event as the model sees it.
pub enum Observation {
    Deadline,
    Read(Option<Seq<char>>),
    Failed,
}

/// A step as the model sees it.
pub enum Decision {
    Continue,
    Reply(Seq<char>),
    Fail(Seq<char>),
}

impl WatchEvent {
    pub open spec fn observation(&self) -> Observation {
        match self {
            WatchEvent::DeadlineReached => Observation::Deadline,
            WatchEvent::ReadSucceeded(c) => Observation::Read(opt_chars(*c)),
            WatchEvent::ReadFailed => Observation::Failed,
        }
    }
}

impl WatchStep {
    /// The step is the decision; a failure is an internal error.
    pub open spec fn is(&self, d: Decision) -> bool {
        match (self, d) {
            (WatchStep::KeepWatching, Decision::Continue) => true,
            (WatchStep::Reply(s), Decision::Reply(t)) => s@ == t,
            (WatchStep::Fail(e), Decision::Fail(m)) => e.kind == ErrorKind::Internal && e.message@
                == m,
            _ => false,
        }
    }
}

/// The reply once the clipboard changed to `current`.
pub open spec fn change_text(current: Option<Seq<char>>) -> Seq<char> {
    match current {
        Some(t) => if t.len() > 0 {
            clipboard_response(t)
        } else {
            "[clipboard changed but is now empty]"@
        },
        None => "[clipboard changed to non-text content]"@,
    }
}

/// The reply when the deadline passes first.
pub open spec fn timeout_text() -> Seq<char> {
    "[timeout \u{2014} clipboard unchanged]"@
}

/// The message when reads fail too often in a row.
pub open spec fn repeated_failure_text() -> Seq<char> {
    "Clipboard access failed repeatedly"@
}

/// One step of a watch that started from `initial` and has seen `errors`
/// failed reads in a row: the new count of failed reads in a row and what
/// to do.
pub open spec fn watch_step(initial: Option<Seq<char>>, errors: nat, obs: Observation) -> (
    nat,
    Decision,
) {
    match obs {
        Observation::Deadline => (errors, Decision::Reply(timeout_text())),
        Observation::Failed => if errors + 1 >= MAX_CONSECUTIVE_ERRORS {
            (errors + 1, Decision::Fail(repeated_failure_text()))
        } else {
            (errors + 1, Decision::Continue)
        },
        Observation::Read(current) => if current == initial {
            (0, Decision::Continue)
        } else {
            (0, Decision::Reply(change_text(current)))
        },
    }
}

/// Runs a watch over `events` until a step ends it: the decision that ended
/// it, or `None` while it still watches.
pub open spec fn run_watch(initial: Option<Seq<char>>, errors: nat, events: Seq<Observation>) -> Option<
    Decision,
>
    decreases events.len(),
{
    if events.len() == 0 {
        None
    } else {
        let (next_errors, d) = watch_step(initial, errors, events[0]);
        match d {
            Decision::Continue => run_watch(initial, next_errors, events.drop_first()),
            _ => Some(d),
        }
    }
}

/// `k` failed reads in a row.
pub open spec fn failures(k: nat) -> Seq<Observation> {
    Seq::new(k, |i: int| Observation::Failed)
}

/// The deadline ends a watch at once, with the timeout reply.
pub proof fn deadline_ends_watch(initial: Option<Seq<char>>, errors: nat)
    ensures
        watch_step(initial, errors, Observation::Deadline) == (
            errors,
            Decision::Reply(timeout_text()),
        ),
{
}

/// A read ends the watch exactly when its text differs from the text the
/// watch began with, and then replies with the new text; either way it
/// clears the count of failed reads.
pub proof fn read_ends_watch_iff_changed(
    initial: Option<Seq<char>>,
    errors: nat,
    current: Option<Seq<char>>,
)
    ensures
        watch_step(initial, errors, Observation::Read(current)).0 == 0,
        (watch_step(initial, errors, Observation::Read(current)).1 is Continue) <==> current
            == initial,
        current != initial ==> watch_step(initial, errors, Observation::Read(current)).1
            == Decision::Reply(change_text(current)),
{
}

/// What a watch replies once the clipboard changed: new non-empty text as
/// it is, truncated with a note past the limit; fixed notes for empty text
/// and for content that is not text. When the deadline passes first, it
/// replies with the timeout note.
pub proof fn change_reply_carries_the_new_text(
    initial: Option<Seq<char>>,
    errors: nat,
    current: Option<Seq<char>>,
)
    ensures
        current != initial ==> (watch_step(initial, errors, Observation::Read(current)).1 matches Decision::Reply(
            reply,
        ) && (match current {
            Some(t) => if t.len() > 0 {
                replies_content(reply, t)
            } else {
                reply == "[clipboard changed but is now empty]"@
            },
            None => reply == "[clipboard changed to non-text content]"@,
        })),
        watch_step(initial, errors, Observation::Deadline).1 == Decision::Reply(
            "[timeout \u{2014} clipboard unchanged]"@,
        ),
        watch_step(initial, errors, Observation::Deadline).0 == errors,
{
    if let Some(t) = current {
        content_reply_is_content_or_truncation(t);
    }
}

/// Failed reads in a row end the watch with an error when, counted with
/// the failures already seen, they reach the limit, and not before.
pub proof fn failures_end_watch_at_limit(initial: Option<Seq<char>>, errors: nat, k: nat)
    requires
        errors < MAX_CONSECUTIVE_ERRORS,
    ensures
        run_watch(initial, errors, failures(k)) == (if errors + k < MAX_CONSECUTIVE_ERRORS {
            None::<Decision>
        } else {
            Some(Decision::Fail(repeated_failure_text()))
        }),
    decreases k,
{
    if k > 0 {
        assert(failures(k)[0] == Observation::Failed);
        assert(failures(k).drop_first() =~= failures((k - 1) as nat));
        if errors + 1 < MAX_CONSECUTIVE_ERRORS {
            failures_end_watch_at_limit(initial, errors + 1, (k - 1) as nat);
        }
    }
}

/// A watch that has just read the clipboard (no failures pending) gives up
/// on the fifth failed read in a row, and not on the fourth.
pub proof fn fifth_failure_in_a_row_ends_watch(initial: Option<Seq<char>>)
    ensures
        run_watch(initial, 0, failures(4)) == None::<Decision>,
        run_watch(initial, 0, failures(5)) == Some(Decision::Fail(repeated_failure_text())),
{
    failures_end_watch_at_limit(initial, 0, 4);
    failures_end_watch_at_limit(initial, 0, 5);
}

/// A watch of the clipboard for a change of its text.
pub struct WatchSession {
    initial: Option<String>,
    consecutive_errors: u32,
}

impl WatchSession {
    /// The text the clipboard held when the watch began.
    pub closed spec fn initial(&self) -> Option<Seq<char>> {
        opt_chars(self.initial)
    }

    /// Failed reads in a row so far.
    pub closed spec fn errors(&self) -> nat {
        self.consecutive_errors as nat
    }

    /// A session that still watches has seen fewer failed reads in a row
    /// than the limit.
    pub open spec fn watching(&self) -> bool {
        self.errors() < MAX_CONSECUTIVE_ERRORS
    }

    /// Starts a watch from the first read; a read that failed counts as no
    /// text.
    pub fn start(first_read: Result<Option<String>, ToolError>) -> (s: Self)
        ensures
            s.initial() == (match first_read {
                Ok(c) => opt_chars(c),
                Err(_) => None,
            }),
            s.errors() == 0,
            s.watching(),
    {
        let initial = match first_read {
            Ok(c) => c,
            Err(_) => None,
        };
        WatchSession { initial, consecutive_errors: 0 }
    }

    /// Decides what to do after `event`.
    pub fn on_event(&mut self, event: WatchEvent) -> (step: WatchStep)
        requires
            old(self).watching(),
        ensures
            final(self).initial() == old(self).initial(),
            final(self).errors() == watch_step(
                old(self).initial(),
                old(self).errors(),
                event.observation(),
            ).0,
            step.is(watch_step(old(self).initial(), old(self).errors(), event.observation()).1),
            step is KeepWatching ==> final(self).watching(),
    {
        match event {
            WatchEvent::DeadlineReached => {
                WatchStep::Reply(String::from_str("[timeout \u{2014} clipboard unchanged]"))
            },
            WatchEvent::ReadFailed => {
                self.consecutive_errors = self.consecutive_errors + 1;
                if self.consecutive_errors >= MAX_CONSECUTIVE_ERRORS {
                    WatchStep::Fail(
                        ToolError {
                            kind: ErrorKind::Internal,
                            message: String::from_str("Clipboard access failed repeatedly"),
                        },
                    )
                } else {
                    WatchStep::KeepWatching
                }
            },
            WatchEvent::ReadSucceeded(current) => {
                self.consecutive_errors = 0;
                if same_text(&current, &self.initial) {
                    WatchStep::KeepWatching
                } else {
                    WatchStep::Reply(change_reply(current))
                }
            },
        }
    }
}

fn same_text(a: &Option<String>, b: &Option<String>) -> (r: bool)
    ensures
        r == (opt_chars(*a) == opt_chars(*b)),
{
    match (a, b) {
        (Some(x), Some(y)) => x.eq(y),
        (None, None) => true,
        _ => false,
    }
}

fn change_reply(current: Option<String>) -> (r: String)
    ensures
        r@ == change_text(opt_chars(current)),
{
    match current {
        Some(text) => if !text.as_str().is_empty() {
            format_clipboard_response(text)
        } else {
            String::from_str("[clipboard changed but is now empty]")
        },
        None => String::from_str("[clipboard changed to non-text content]"),
    }
}

} // verus!
