use vstd::prelude::*;
use vstd::string::*;

use crate::error::{ErrorKind, Failure, ToolError, failure_prefix, internal_failure};
use crate::text::{
    byte_len, decimal, prefix_within, push_decimal, truncate_text, truncation_keeps_longest_fitting_prefix,
    utf8,
};

verus! {

/// Most bytes of clipboard text that one reply carries.
pub const MAX_TEXT_BYTES: usize = 100 * 1024;

/// Most bytes of text that `set_clipboard` accepts.
pub const MAX_SET_BYTES: usize = 1024 * 1024;

/// The characters of an optional string.
pub open spec fn opt_chars(o: Option<String>) -> Option<Seq<char>> {
    match o {
        Some(s) => Some(s@),
        None => None,
    }
}

/// The note that opens a truncated reply to content of `total` bytes.
pub open spec fn truncation_note(total: nat) -> Seq<char> {
    "[clipboard text truncated: showing "@ + decimal(MAX_TEXT_BYTES as nat) + " of "@ + decimal(total)
        + " bytes]\n"@
}

/// The reply text for clipboard content `t`: the content itself, or, where it
/// is longer than the limit, a note with both sizes followed by the part of
/// it that fits.
pub open spec fn clipboard_response(t: Seq<char>) -> Seq<char> {
    if utf8(t).len() > MAX_TEXT_BYTES {
        truncation_note(utf8(t).len()) + prefix_within(t, MAX_TEXT_BYTES as nat)
    } else {
        t
    }
}

/// Content of at most the limit is replied as it is; longer content is
/// replied as the note, which names its size, followed by the longest
/// leading part of it, in whole characters, that fits in the limit.
pub proof fn reply_carries_at_most_the_limit(t: Seq<char>)
    ensures
        utf8(t).len() <= MAX_TEXT_BYTES ==> clipboard_response(t) == t,
        utf8(t).len() > MAX_TEXT_BYTES ==> {
            let kept = prefix_within(t, MAX_TEXT_BYTES as nat);
            &&& clipboard_response(t) == truncation_note(utf8(t).len()) + kept
            &&& kept == t.take(kept.len() as int)
            &&& utf8(kept).len() <= MAX_TEXT_BYTES
            &&& kept.len() < t.len()
            &&& forall|k: int| kept.len() < k <= t.len() ==> utf8(#[trigger] t.take(k)).len()
                > MAX_TEXT_BYTES
        },
{
    truncation_keeps_longest_fitting_prefix(t, MAX_TEXT_BYTES as nat);
    if utf8(t).len() > MAX_TEXT_BYTES {
        let kept = prefix_within(t, MAX_TEXT_BYTES as nat);
        if kept.len() == t.len() {
            assert(kept =~= t);
        }
    }
}

/// Formats clipboard text for a reply, truncating it where needed.
pub fn format_clipboard_response(text: String) -> (r: String)
    ensures
        r@ == clipboard_response(text@),
        replies_content(r@, text@),
{
    proof {
        content_reply_is_content_or_truncation(text@);
    }
    let total = byte_len(text.as_str());
    let (output, truncated) = truncate_text(text.as_str(), MAX_TEXT_BYTES);
    if truncated {
        let mut r = String::from_str("[clipboard text truncated: showing ");
        push_decimal(&mut r, MAX_TEXT_BYTES as u64);
        r.append(" of ");
        push_decimal(&mut r, total as u64);
        r.append(" bytes]\n");
        r.append(output);
        r
    } else {
        text
    }
}

/// What one attempt to read the clipboard gave.
pub enum ReadOutcome {
    /// The clipboard held content of the kind asked for.
    Content(String),
    /// The clipboard held no content of that kind.
    NotAvailable,
    /// The clipboard could not be opened; the cause reads so.
    AccessFailed(String),
    /// Reading failed for another reason; the cause reads so.
    ReadFailed(String),
}

/// The result of a read as the text tools see it: the content, nothing, or
/// the error whose message begins with the prefix of `read_stage`.
pub open spec fn read_result_ok(
    outcome: ReadOutcome,
    read_stage: Failure,
    r: Result<Option<String>, ToolError>,
) -> bool {
    match outcome {
        ReadOutcome::Content(s) => r matches Ok(Some(t)) && t@ == s@,
        ReadOutcome::NotAvailable => r matches Ok(None),
        ReadOutcome::AccessFailed(d) => r matches Err(e) && e.kind == ErrorKind::Internal
            && e.message@ == failure_prefix(Failure::Access) + d@,
        ReadOutcome::ReadFailed(d) => r matches Err(e) && e.kind == ErrorKind::Internal
            && e.message@ == failure_prefix(read_stage) + d@,
    }
}

/// Clipboard text as the tools take it: `None` for content that is not
/// text, an error where the clipboard could not be read.
pub fn read_clipboard_text(outcome: ReadOutcome) -> (r: Result<Option<String>, ToolError>)
    ensures
        read_result_ok(outcome, Failure::ReadText, r),
        outcome matches ReadOutcome::Content(t) ==> r matches Ok(Some(u)) && u@ == t@,
        outcome is NotAvailable ==> r matches Ok(None),
        outcome matches ReadOutcome::AccessFailed(d) ==> r matches Err(e) && e.kind
            == ErrorKind::Internal && e.message@ == "Failed to access clipboard: "@ + d@,
        outcome matches ReadOutcome::ReadFailed(d) ==> r matches Err(e) && e.kind
            == ErrorKind::Internal && e.message@ == "Failed to read clipboard: "@ + d@,
{
    classify_read(outcome, Failure::ReadText)
}

/// Clipboard HTML as the tools take it: `None` where there is no HTML, an
/// error where the clipboard could not be read.
pub fn read_clipboard_html(outcome: ReadOutcome) -> (r: Result<Option<String>, ToolError>)
    ensures
        read_result_ok(outcome, Failure::ReadHtml, r),
        outcome matches ReadOutcome::Content(t) ==> r matches Ok(Some(u)) && u@ == t@,
        outcome is NotAvailable ==> r matches Ok(None),
        outcome matches ReadOutcome::AccessFailed(d) ==> r matches Err(e) && e.kind
            == ErrorKind::Internal && e.message@ == "Failed to access clipboard: "@ + d@,
        outcome matches ReadOutcome::ReadFailed(d) ==> r matches Err(e) && e.kind
            == ErrorKind::Internal && e.message@ == "Failed to read clipboard HTML: "@ + d@,
{
    classify_read(outcome, Failure::ReadHtml)
}

fn classify_read(outcome: ReadOutcome, read_stage: Failure) -> (r: Result<
    Option<String>,
    ToolError,
>)
    ensures
        read_result_ok(outcome, read_stage, r),
{
    match outcome {
        ReadOutcome::Content(s) => Ok(Some(s)),
        ReadOutcome::NotAvailable => Ok(None),
        ReadOutcome::AccessFailed(d) => Err(internal_failure(Failure::Access, d.as_str())),
        ReadOutcome::ReadFailed(d) => Err(internal_failure(read_stage, d.as_str())),
    }
}

/// The reply of `get_clipboard` for what the clipboard held as text.
pub open spec fn get_clipboard_text(content: Option<Seq<char>>) -> Seq<char> {
    match content {
        Some(t) => if t.len() == 0 {
            "[clipboard is empty]"@
        } else {
            clipboard_response(t)
        },
        None => "[clipboard is empty or contains non-text content]"@,
    }
}

/// The reply of `get_clipboard_html` for what the clipboard held as HTML.
pub open spec fn get_clipboard_html_text(content: Option<Seq<char>>) -> Seq<char> {
    match content {
        Some(t) => if t.len() == 0 {
            "[clipboard HTML is empty]"@
        } else {
            clipboard_response(t)
        },
        None => "[clipboard does not contain HTML content]"@,
    }
}

/// What a reply to clipboard content `t` must be: `t` itself where its
/// encoding takes at most 102400 bytes; otherwise the truncation note naming
/// its size, followed by the longest leading part of `t`, in whole
/// characters, that takes at most 102400 bytes.
pub open spec fn replies_content(reply: Seq<char>, t: Seq<char>) -> bool {
    &&& utf8(t).len() <= 102400 ==> reply == t
    &&& utf8(t).len() > 102400 ==> exists|kept: Seq<char>|
        {
            &&& reply == "[clipboard text truncated: showing 102400 of "@ + decimal(utf8(t).len())
                + " bytes]\n"@ + kept
            &&& kept == t.take(kept.len() as int)
            &&& utf8(kept).len() <= 102400
            &&& forall|k: int| kept.len() < k <= t.len() ==> utf8(#[trigger] t.take(k)).len()
                > 102400
        }
}

proof fn lemma_decimal_of_limit()
    ensures
        decimal(MAX_TEXT_BYTES as nat) == "102400"@,
{
    reveal_strlit("102400");
    reveal_with_fuel(decimal, 7);
    assert(decimal(MAX_TEXT_BYTES as nat) =~= "102400"@);
}

/// The reply to content is the content, truncated with a note past the limit.
pub proof fn content_reply_is_content_or_truncation(t: Seq<char>)
    ensures
        replies_content(clipboard_response(t), t),
{
    reply_carries_at_most_the_limit(t);
    lemma_decimal_of_limit();
    if utf8(t).len() > 102400 {
        let kept = prefix_within(t, MAX_TEXT_BYTES as nat);
        assert(clipboard_response(t) == "[clipboard text truncated: showing 102400 of "@ + decimal(
            utf8(t).len(),
        ) + " bytes]\n"@ + kept) by {
            reveal_strlit("[clipboard text truncated: showing ");
            reveal_strlit(" of ");
            reveal_strlit("[clipboard text truncated: showing 102400 of ");
            reveal_strlit("102400");
            assert("[clipboard text truncated: showing "@ + "102400"@ + " of "@
                =~= "[clipboard text truncated: showing 102400 of "@);
        }
    }
}

/// `get_clipboard` replies non-empty text as it is, truncated with a note
/// past the limit; empty text and no text get their fixed notes.
pub proof fn get_clipboard_replies_the_text(t: Seq<char>)
    ensures
        t.len() > 0 ==> replies_content(get_clipboard_text(Some(t)), t),
        t.len() == 0 ==> get_clipboard_text(Some(t)) == "[clipboard is empty]"@,
        get_clipboard_text(None) == "[clipboard is empty or contains non-text content]"@,
{
    content_reply_is_content_or_truncation(t);
}

/// `get_clipboard_html` replies non-empty HTML as it is, truncated with a
/// note past the limit; empty HTML and no HTML get their fixed notes.
pub proof fn get_clipboard_html_replies_the_html(t: Seq<char>)
    ensures
        t.len() > 0 ==> replies_content(get_clipboard_html_text(Some(t)), t),
        t.len() == 0 ==> get_clipboard_html_text(Some(t)) == "[clipboard HTML is empty]"@,
        get_clipboard_html_text(None) == "[clipboard does not contain HTML content]"@,
{
    content_reply_is_content_or_truncation(t);
}

/// Reply text of `get_clipboard`, given the text read (`None`: no text).
pub fn get_clipboard_reply(content: Option<String>) -> (r: String)
    ensures
        r@ == get_clipboard_text(opt_chars(content)),
        content matches Some(t) ==> (t@.len() > 0 ==> replies_content(r@, t@)),
{
    proof {
        if let Some(t) = &content {
            get_clipboard_replies_the_text(t@);
        }
    }
    match content {
        Some(text) => if text.as_str().is_empty() {
            String::from_str("[clipboard is empty]")
        } else {
            format_clipboard_response(text)
        },
        None => String::from_str("[clipboard is empty or contains non-text content]"),
    }
}

/// Reply text of `get_clipboard_html`, given the HTML read (`None`: none).
pub fn get_clipboard_html_reply(content: Option<String>) -> (r: String)
    ensures
        r@ == get_clipboard_html_text(opt_chars(content)),
        content matches Some(t) ==> (t@.len() > 0 ==> replies_content(r@, t@)),
{
    proof {
        if let Some(t) = &content {
            get_clipboard_html_replies_the_html(t@);
        }
    }
    match content {
        Some(html) => if html.as_str().is_empty() {
            String::from_str("[clipboard HTML is empty]")
        } else {
            format_clipboard_response(html)
        },
        None => String::from_str("[clipboard does not contain HTML content]"),
    }
}

} // verus!
