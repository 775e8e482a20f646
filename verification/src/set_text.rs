use vstd::prelude::*;
use vstd::string::*;

use crate::error::{ErrorKind, ToolError};
use crate::reply::MAX_SET_BYTES;
use crate::text::{byte_len, decimal, push_char, push_decimal, utf8};

verus! {

broadcast use vstd::string::group_string_axioms;

/// Most characters of the new content that the reply of `set_clipboard`
/// shows.
pub const PREVIEW_CHARS: usize = 100;

/// A control character: general category Cc, the C0 codes U+0000..U+001F
/// and U+007F with the C1 codes U+0080..U+009F.
pub open spec fn is_control_spec(c: char) -> bool {
    (c as u32) <= 0x1f || (0x7f <= (c as u32) && (c as u32) <= 0x9f)
}

/// Whether `c` is a control character.
pub fn is_control(c: char) -> (r: bool)
    ensures
        r == is_control_spec(c),
{
    let u = c as u32;
    u <= 0x1f || (0x7f <= u && u <= 0x9f)
}

/// How the preview of new clipboard content shows a character: line feed,
/// carriage return and tab by a visible symbol, other control characters by
/// a middle dot, all else as it is.
pub open spec fn preview_char_spec(c: char) -> char {
    if c == '\n' {
        '\u{21b5}'
    } else if c == '\r' {
        '\u{23ce}'
    } else if c == '\t' {
        '\u{21e5}'
    } else if is_control_spec(c) {
        '\u{b7}'
    } else {
        c
    }
}

/// How the preview shows `c`.
pub fn preview_char(c: char) -> (r: char)
    ensures
        r == preview_char_spec(c),
{
    if c == '\n' {
        '\u{21b5}'
    } else if c == '\r' {
        '\u{23ce}'
    } else if c == '\t' {
        '\u{21e5}'
    } else if is_control(c) {
        '\u{b7}'
    } else {
        c
    }
}

/// The preview of `s`: its first characters, up to the limit, as the
/// preview shows them.
pub open spec fn preview(s: Seq<char>) -> Seq<char> {
    let n = if s.len() < PREVIEW_CHARS { s.len() as int } else { PREVIEW_CHARS as int };
    s.take(n).map_values(|c: char| preview_char_spec(c))
}

/// The reply of `set_clipboard` once `s` is on the clipboard.
pub open spec fn set_reply_text(s: Seq<char>) -> Seq<char> {
    "Clipboard set ("@ + decimal(s.len()) + " chars): \""@ + preview(s) + "\""@
}

/// Control characters are exactly the code points U+0000..U+001F and
/// U+007F..U+009F.
pub proof fn control_characters_are_c0_and_c1(c: char)
    ensures
        is_control_spec(c) <==> ((c as u32) < 0x20 || (0x7f <= (c as u32) && (c as u32) < 0xa0)),
{
}

/// The preview shows line feed, carriage return and tab as the symbols
/// U+21B5, U+23CE and U+21E5, every other control character as a middle dot,
/// and every other character as it is.
pub proof fn preview_shows_characters_as_they_are_but_controls(c: char)
    ensures
        c == '\n' ==> preview_char_spec(c) == '\u{21b5}',
        c == '\r' ==> preview_char_spec(c) == '\u{23ce}',
        c == '\t' ==> preview_char_spec(c) == '\u{21e5}',
        c != '\n' && c != '\r' && c != '\t' && ((c as u32) < 0x20 || (0x7f <= (c as u32) && (c as u32)
            < 0xa0)) ==> preview_char_spec(c) == '\u{b7}',
        !((c as u32) < 0x20 || (0x7f <= (c as u32) && (c as u32) < 0xa0)) ==> preview_char_spec(c)
            == c,
{
}

/// The preview is the leading part of the text, at most one hundred
/// characters of it, each shown by `preview_char_spec`.
pub proof fn preview_is_leading_part(s: Seq<char>)
    ensures
        preview(s).len() == (if s.len() < 100 { s.len() as int } else { 100 }),
        forall|i: int| 0 <= i < preview(s).len() ==> #[trigger] preview(s)[i] == preview_char_spec(s[i]),
{
}

/// The reply of `set_clipboard` names the number of characters set and
/// quotes the preview of their leading part.
pub proof fn set_reply_names_count_and_leading_preview(s: Seq<char>)
    ensures
        exists|p: Seq<char>|
            {
                &&& set_reply_text(s) == "Clipboard set ("@ + decimal(s.len()) + " chars): \""@ + p
                    + "\""@
                &&& p.len() == (if s.len() < 100 { s.len() as int } else { 100 })
                &&& forall|i: int| 0 <= i < p.len() ==> #[trigger] p[i] == preview_char_spec(s[i])
            },
{
    preview_is_leading_part(s);
    let p = preview(s);
    assert(set_reply_text(s) == "Clipboard set ("@ + decimal(s.len()) + " chars): \""@ + p + "\""@);
}

/// The message that refuses text of `len` bytes.
pub open spec fn too_large_message(len: nat) -> Seq<char> {
    "Text too large: "@ + decimal(len) + " bytes (max "@ + decimal(MAX_SET_BYTES as nat)
        + " bytes)"@
}

proof fn lemma_decimal_of_set_limit()
    ensures
        decimal(MAX_SET_BYTES as nat) == "1048576"@,
{
    reveal_strlit("1048576");
    reveal_with_fuel(decimal, 8);
    assert(decimal(MAX_SET_BYTES as nat) =~= "1048576"@);
}

/// Text is refused exactly when its encoding takes more than 1 MiB
/// (1048576 bytes), and the refusal names its size and the limit.
pub proof fn set_refuses_exactly_text_over_one_mebibyte(len: nat)
    ensures
        too_large_message(len) == "Text too large: "@ + decimal(len) + " bytes (max 1048576 bytes)"@,
        MAX_SET_BYTES == 1048576,
{
    lemma_decimal_of_set_limit();
    reveal_strlit(" bytes (max ");
    reveal_strlit(" bytes)");
    reveal_strlit("1048576");
    reveal_strlit(" bytes (max 1048576 bytes)");
    assert(" bytes (max "@ + "1048576"@ + " bytes)"@ =~= " bytes (max 1048576 bytes)"@);
    assert(too_large_message(len) =~= "Text too large: "@ + decimal(len) + (" bytes (max "@
        + "1048576"@ + " bytes)"@));
}

/// Checks that `text` is small enough to be put on the clipboard.
pub fn check_set_size(text: &str) -> (r: Result<(), ToolError>)
    ensures
        r is Ok <==> utf8(text@).len() <= MAX_SET_BYTES,
        r matches Err(e) ==> e.kind == ErrorKind::InvalidParams && e.message@ == too_large_message(
            utf8(text@).len(),
        ),
        r is Ok <==> utf8(text@).len() <= 1048576,
        r matches Err(e) ==> e.message@ == "Text too large: "@ + decimal(utf8(text@).len())
            + " bytes (max 1048576 bytes)"@,
{
    proof {
        set_refuses_exactly_text_over_one_mebibyte(utf8(text@).len());
    }
    let len = byte_len(text);
    if len > MAX_SET_BYTES {
        let mut message = String::from_str("Text too large: ");
        push_decimal(&mut message, len as u64);
        message.append(" bytes (max ");
        push_decimal(&mut message, MAX_SET_BYTES as u64);
        message.append(" bytes)");
        return Err(ToolError { kind: ErrorKind::InvalidParams, message });
    }
    Ok(())
}

proof fn lemma_chars_fit_in_bytes(s: Seq<char>)
    ensures
        s.len() <= utf8(s).len(),
    decreases s.len(),
{
    if s.len() > 0 {
        lemma_chars_fit_in_bytes(s.drop_first());
    }
}

/// Reply text of `set_clipboard` once `text` is on the clipboard.
pub fn set_clipboard_reply(text: &str) -> (r: String)
    ensures
        r@ == set_reply_text(text@),
        exists|p: Seq<char>|
            {
                &&& r@ == "Clipboard set ("@ + decimal(text@.len()) + " chars): \""@ + p + "\""@
                &&& p.len() == (if text@.len() < 100 { text@.len() as int } else { 100 })
                &&& forall|i: int| 0 <= i < p.len() ==> #[trigger] p[i] == preview_char_spec(text@[i])
            },
{
    proof {
        set_reply_names_count_and_leading_preview(text@);
    }
    let total = byte_len(text);
    proof {
        lemma_chars_fit_in_bytes(text@);
    }
    let mut shown = String::new();
    let mut count: usize = 0;
    for c in it: text.chars()
        invariant
            it.seq() == text@,
            count == it.index(),
            text@.len() <= total,
            shown@ == text@.take(
                if count < PREVIEW_CHARS { count as int } else { PREVIEW_CHARS as int },
            ).map_values(|c: char| preview_char_spec(c)),
    {
        let ghost before = count as int;
        if count < PREVIEW_CHARS {
            push_char(&mut shown, preview_char(c));
            assert(text@.take(before + 1).map_values(|c: char| preview_char_spec(c))
                =~= text@.take(before).map_values(|c: char| preview_char_spec(c)).push(
                preview_char_spec(text@[before]),
            ));
        }
        count += 1;
    }
    let mut r = String::from_str("Clipboard set (");
    push_decimal(&mut r, count as u64);
    r.append(" chars): \"");
    r.append(shown.as_str());
    r.append("\"");
    r
}

} // verus!
