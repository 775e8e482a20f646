use vstd::prelude::*;
use vstd::utf8::*;
use vstd::string::*;

verus! {

broadcast use vstd::utf8::group_utf8_lib;

/// The UTF-8 encoding of a character sequence: the bytes of a string.
pub open spec fn utf8(s: Seq<char>) -> Seq<u8> {
    encode_utf8(s)
}

/// The largest character boundary of `bytes` that is at most `i`
/// (the start, 0, is always one).
pub open spec fn boundary_at_or_below(bytes: Seq<u8>, i: int) -> int
    decreases i,
{
    if i <= 0 {
        0
    } else if is_char_boundary(bytes, i) {
        i
    } else {
        boundary_at_or_below(bytes, i - 1)
    }
}

/// The characters of `s` that lie before its last character boundary at or
/// below `max_bytes` bytes.
pub open spec fn prefix_within(s: Seq<char>, max_bytes: nat) -> Seq<char> {
    decode_utf8(utf8(s).subrange(0, boundary_at_or_below(utf8(s), max_bytes as int)))
}

proof fn lemma_boundary_at_or_below(bytes: Seq<u8>, i: int)
    requires
        valid_utf8(bytes),
        0 <= i,
    ensures
        0 <= boundary_at_or_below(bytes, i) <= i,
        boundary_at_or_below(bytes, i) <= bytes.len(),
        is_char_boundary(bytes, boundary_at_or_below(bytes, i)),
        forall|j: int| boundary_at_or_below(bytes, i) < j <= i ==> !is_char_boundary(bytes, j),
    decreases i,
{
    if i <= 0 {
        is_char_boundary_start_end_of_seq(bytes);
    } else if is_char_boundary(bytes, i) {
    } else {
        lemma_boundary_at_or_below(bytes, i - 1);
    }
}

/// Encoding a concatenation concatenates the encodings.
proof fn lemma_utf8_concat(a: Seq<char>, b: Seq<char>)
    ensures
        utf8(a + b) == utf8(a) + utf8(b),
    decreases a.len(),
{
    if a.len() == 0 {
        assert(a + b =~= b);
    } else {
        assert((a + b).drop_first() =~= a.drop_first() + b);
        lemma_utf8_concat(a.drop_first(), b);
    }
}

/// Every character takes at least one byte.
proof fn lemma_utf8_len_at_least(a: Seq<char>)
    ensures
        utf8(a).len() >= a.len(),
    decreases a.len(),
{
    if a.len() > 0 {
        lemma_utf8_len_at_least(a.drop_first());
    }
}

/// The end of the encoding of a leading part is a character boundary.
proof fn lemma_prefix_end_is_boundary(a: Seq<char>, b: Seq<char>)
    ensures
        is_char_boundary(utf8(a + b), utf8(a).len() as int),
    decreases a.len(),
{
    let bytes = utf8(a + b);
    if a.len() == 0 {
    } else {
        let ab = a + b;
        assert(ab.drop_first() =~= a.drop_first() + b);
        encode_utf8_first_scalar(ab);
        assert(pop_first_scalar(bytes) =~= utf8(ab.drop_first()));
        lemma_utf8_concat(a, b);
        lemma_prefix_end_is_boundary(a.drop_first(), b);
    }
}

/// The characters that `prefix_within` keeps: a leading part of `s`, whose
/// encoding fits in `max_bytes` bytes, and no longer leading part fits.
/// Where the whole of `s` fits, it is `s` itself.
pub proof fn truncation_keeps_longest_fitting_prefix(s: Seq<char>, max_bytes: nat)
    ensures
        prefix_within(s, max_bytes).len() <= s.len(),
        prefix_within(s, max_bytes) == s.take(prefix_within(s, max_bytes).len() as int),
        utf8(prefix_within(s, max_bytes)).len() <= max_bytes,
        forall|k: int|
            prefix_within(s, max_bytes).len() < k <= s.len() ==> utf8(#[trigger] s.take(k)).len()
                > max_bytes,
        utf8(s).len() <= max_bytes ==> prefix_within(s, max_bytes) == s,
{
    let bytes = utf8(s);
    let e = boundary_at_or_below(bytes, max_bytes as int);
    lemma_boundary_at_or_below(bytes, max_bytes as int);
    let head = bytes.subrange(0, e);
    let rest = bytes.subrange(e, bytes.len() as int);
    let r = prefix_within(s, max_bytes);
    valid_utf8_split(bytes, e);
    decode_utf8_split(bytes, e);
    assert(encode_utf8(r) == head);
    assert(s == r + decode_utf8(rest));
    assert(r.len() <= s.len());
    assert(r =~= s.take(r.len() as int));
    assert forall|k: int| r.len() < k <= s.len() implies utf8(#[trigger] s.take(k)).len()
        > max_bytes by {
        let a = s.take(k);
        let b = s.skip(k);
        assert(a + b =~= s);
        lemma_prefix_end_is_boundary(a, b);
        let mid = s.take(k).skip(r.len() as int);
        assert(r + mid =~= a);
        lemma_utf8_concat(r, mid);
        lemma_utf8_len_at_least(mid);
    }
    if bytes.len() <= max_bytes {
        is_char_boundary_start_end_of_seq(bytes);
        assert(head =~= bytes);
    }
}

/// The number of bytes in the UTF-8 encoding of `s`.
pub fn byte_len(s: &str) -> (n: usize)
    ensures
        n == utf8(s@).len(),
{
    s.as_bytes().len()
}

/// Cuts `text` down to at most `max_bytes` bytes without splitting a
/// character. The flag tells whether anything was cut.
pub fn truncate_text(text: &str, max_bytes: usize) -> (res: (&str, bool))
    ensures
        res.1 == (utf8(text@).len() > max_bytes),
        res.0@ == (if res.1 { prefix_within(text@, max_bytes as nat) } else { text@ }),
        res.0@.len() <= text@.len(),
        res.0@ == text@.take(res.0@.len() as int),
        utf8(res.0@).len() <= max_bytes || res.0@ == text@,
        res.1 ==> utf8(res.0@).len() <= max_bytes,
        forall|k: int| res.0@.len() < k <= text@.len() ==> utf8(#[trigger] text@.take(k)).len()
            > max_bytes,
{
    proof {
        truncation_keeps_longest_fitting_prefix(text@, max_bytes as nat);
        assert(text@.take(text@.len() as int) =~= text@);
    }
    if byte_len(text) <= max_bytes {
        return (text, false);
    }
    let ghost bytes = text.spec_bytes();
    let mut end = max_bytes;
    while end > 0 && !text.is_char_boundary(end)
        invariant
            bytes == text.spec_bytes(),
            bytes == utf8(text@),
            end <= max_bytes < bytes.len(),
            boundary_at_or_below(bytes, max_bytes as int) == boundary_at_or_below(bytes, end as int),
        decreases end,
    {
        end -= 1;
    }
    proof {
        lemma_boundary_at_or_below(bytes, max_bytes as int);
        is_char_boundary_start_end_of_seq(bytes);
    }
    let (head, _tail) = text.split_at(end);
    proof {
        assert(encode_utf8(head@) == bytes.subrange(0, end as int));
    }
    (head, true)
}

/// The decimal digit `d` (below ten) as a character.
pub open spec fn digit_char(d: nat) -> char {
    (48 + d) as char
}

/// The decimal representation of `n`, without leading zeros.
pub open spec fn decimal(n: nat) -> Seq<char>
    decreases n,
{
    if n < 10 {
        seq![digit_char(n)]
    } else {
        decimal(n / 10).push(digit_char(n % 10))
    }
}

/// Appends one character to `s`.
/// Trusted: calls `String::push`, which std documents as appending the
/// given `char` to the end of the string.
#[verifier::external_body]
pub(crate) fn push_char(s: &mut String, c: char)
    ensures
        final(s)@ == old(s)@.push(c),
{
    s.push(c);
}

/// Appends the decimal representation of `n` to `out`.
pub fn push_decimal(out: &mut String, n: u64)
    ensures
        final(out)@ == old(out)@ + decimal(n as nat),
    decreases n,
{
    if n >= 10 {
        push_decimal(out, n / 10);
    }
    let d: u8 = (n % 10) as u8;
    let c: char = (48u8 + d) as char;
    assert(c == digit_char((n % 10) as nat));
    push_char(out, c);
}

/// The decimal representation of `n`.
pub fn decimal_string(n: u64) -> (r: String)
    ensures
        r@ == decimal(n as nat),
{
    let mut r = String::new();
    push_decimal(&mut r, n);
    r
}

} // verus!
