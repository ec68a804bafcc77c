//! Text as sequences of characters: equality, the characters that are
//! trimmed from a header token, and the text of a header value.

use vstd::prelude::*;
use vstd::string::{is_ascii_spec_bytes, StringSliceAdditionalSpecFns};
use vstd::utf8::{
    decode_utf8, encode_utf8, encode_utf8_decode_utf8, encode_utf8_valid_utf8, is_ascii_chars,
    is_ascii_chars_encode_utf8, valid_utf8,
};

verus! {

/// Whether two texts hold the same characters.
pub fn str_eq(a: &str, b: &str) -> (same: bool)
    ensures
        same == (a@ == b@),
{
    let x = a.as_bytes();
    let y = b.as_bytes();
    proof {
        encode_utf8_decode_utf8(a@);
        encode_utf8_decode_utf8(b@);
    }
    if x.len() != y.len() {
        return false;
    }
    let mut i: usize = 0;
    while i < x.len()
        invariant
            i <= x.len(),
            x.len() == y.len(),
            x@ == a.spec_bytes(),
            y@ == b.spec_bytes(),
            forall|k: int| 0 <= k < i ==> x@[k] == y@[k],
        decreases x.len() - i,
    {
        if x[i] != y[i] {
            return false;
        }
        i += 1;
    }
    assert(x@ =~= y@);
    true
}

/// Whether `c` is white space: a character with the Unicode property
/// `White_Space`.
pub open spec fn spec_is_whitespace(c: char) -> bool {
    let v = c as u32;
    ||| 0x09 <= v <= 0x0d
    ||| v == 0x20
    ||| v == 0x85
    ||| v == 0xa0
    ||| v == 0x1680
    ||| 0x2000 <= v <= 0x200a
    ||| v == 0x2028
    ||| v == 0x2029
    ||| v == 0x202f
    ||| v == 0x205f
    ||| v == 0x3000
}

/// Whether `c` is taken off the ends of a header token: a double quote or
/// white space.
pub open spec fn spec_is_trimmed(c: char) -> bool {
    c == '"' || spec_is_whitespace(c)
}

/// Decides [`spec_is_trimmed`].
pub fn is_trimmed(c: char) -> (trimmed: bool)
    ensures
        trimmed == spec_is_trimmed(c),
{
    let v: u32 = c as u32;
    c == '"' || (0x09 <= v && v <= 0x0d) || v == 0x20 || v == 0x85 || v == 0xa0 || v == 0x1680 || (
    0x2000 <= v && v <= 0x200a) || v == 0x2028 || v == 0x2029 || v == 0x202f || v == 0x205f || v
        == 0x3000
}

/// `s` without the double quotes and white space at its two ends.
pub open spec fn spec_trim_space_quotes(s: Seq<char>) -> Seq<char>
    decreases s.len(),
{
    if s.len() > 0 && spec_is_trimmed(s.first()) {
        spec_trim_space_quotes(s.drop_first())
    } else if s.len() > 0 && spec_is_trimmed(s.last()) {
        spec_trim_space_quotes(s.drop_last())
    } else {
        s
    }
}

/// The trimmed text is the stretch between the first and the last character
/// that stay.
pub proof fn lemma_trim_is_subrange(s: Seq<char>, start: int, end: int)
    requires
        0 <= start <= end <= s.len(),
        forall|k: int| 0 <= k < start ==> spec_is_trimmed(#[trigger] s[k]),
        forall|k: int| end <= k < s.len() ==> spec_is_trimmed(#[trigger] s[k]),
        start < end ==> !spec_is_trimmed(s[start]) && !spec_is_trimmed(s[end - 1]),
    ensures
        spec_trim_space_quotes(s) == s.subrange(start, end),
    decreases s.len(),
{
    if s.len() == 0 {
        assert(s.subrange(start, end) =~= s);
    } else if spec_is_trimmed(s.first()) {
        let rest = s.drop_first();
        if start == 0 {
            assert(start == end);
            lemma_trim_is_subrange(rest, 0, 0);
            assert(rest.subrange(0, 0) =~= s.subrange(start, end));
        } else {
            assert forall|k: int| 0 <= k < start - 1 implies spec_is_trimmed(#[trigger] rest[k]) by {
                assert(rest[k] == s[k + 1]);
            }
            assert forall|k: int| end - 1 <= k < rest.len() implies spec_is_trimmed(
                #[trigger] rest[k],
            ) by {
                assert(rest[k] == s[k + 1]);
            }
            lemma_trim_is_subrange(rest, start - 1, end - 1);
            assert(rest.subrange(start - 1, end - 1) =~= s.subrange(start, end));
        }
    } else if spec_is_trimmed(s.last()) {
        let rest = s.drop_last();
        assert(start == 0);
        if end == s.len() {
            assert(start == end);
            assert(false);
        }
        lemma_trim_is_subrange(rest, start, end);
        assert(rest.subrange(start, end) =~= s.subrange(start, end));
    } else {
        assert(start == 0);
        assert(end == s.len());
        assert(s.subrange(start, end) =~= s);
    }
}

/// Trimmed text neither starts nor ends with a character that is trimmed, and
/// is no longer than the text it was made of.
pub proof fn lemma_trimmed_ends_stay(s: Seq<char>)
    ensures
        spec_trim_space_quotes(s).len() <= s.len(),
        spec_trim_space_quotes(s).len() > 0 ==> !spec_is_trimmed(spec_trim_space_quotes(s).first())
            && !spec_is_trimmed(spec_trim_space_quotes(s).last()),
    decreases s.len(),
{
    if s.len() > 0 && spec_is_trimmed(s.first()) {
        lemma_trimmed_ends_stay(s.drop_first());
    } else if s.len() > 0 && spec_is_trimmed(s.last()) {
        lemma_trimmed_ends_stay(s.drop_last());
    }
}

/// Trimming text that is trimmed changes nothing.
pub proof fn lemma_trim_is_idempotent(s: Seq<char>)
    ensures
        spec_trim_space_quotes(spec_trim_space_quotes(s)) == spec_trim_space_quotes(s),
{
    lemma_trimmed_ends_stay(s);
}

/// Trims a text in ASCII, whose characters are its bytes.
fn trim_ascii(value: &str) -> (trimmed: &str)
    requires
        is_ascii_chars(value@),
    ensures
        trimmed@ == spec_trim_space_quotes(value@),
{
    proof {
        is_ascii_spec_bytes(value);
    }
    let bytes = value.as_bytes();
    let n = bytes.len();
    let mut start: usize = 0;
    while start < n
        invariant
            start <= n,
            n == value@.len(),
            n == bytes@.len(),
            is_ascii_chars(value@),
            forall|k: int| 0 <= k < n ==> bytes@[k] == value@[k] as u8,
            forall|k: int| 0 <= k < start ==> spec_is_trimmed(#[trigger] value@[k]),
        ensures
            start <= n,
            forall|k: int| 0 <= k < start ==> spec_is_trimmed(#[trigger] value@[k]),
            start < n ==> !spec_is_trimmed(value@[start as int]),
        decreases n - start,
    {
        assert(bytes@[start as int] as char == value@[start as int]);
        if !is_trimmed(bytes[start] as char) {
            break;
        }
        start += 1;
    }
    let mut end: usize = n;
    while end > start
        invariant
            start <= end <= n,
            n == value@.len(),
            n == bytes@.len(),
            is_ascii_chars(value@),
            forall|k: int| 0 <= k < n ==> bytes@[k] == value@[k] as u8,
            forall|k: int| end <= k < n ==> spec_is_trimmed(#[trigger] value@[k]),
        ensures
            start <= end <= n,
            forall|k: int| end <= k < n ==> spec_is_trimmed(#[trigger] value@[k]),
            start < end ==> !spec_is_trimmed(value@[end - 1]),
        decreases end,
    {
        assert(bytes@[end - 1] as char == value@[end - 1]);
        if !is_trimmed(bytes[end - 1] as char) {
            break;
        }
        end -= 1;
    }
    proof {
        lemma_trim_is_subrange(value@, start as int, end as int);
    }
    value.substring_ascii(start, end)
}

/// Trims any text, character by character.
fn trim_chars(value: &str) -> (trimmed: &str)
    ensures
        trimmed@ == spec_trim_space_quotes(value@),
{
    let n = value.unicode_len();
    let mut start: usize = 0;
    while start < n
        invariant
            start <= n,
            n == value@.len(),
            forall|k: int| 0 <= k < start ==> spec_is_trimmed(#[trigger] value@[k]),
        ensures
            start <= n,
            forall|k: int| 0 <= k < start ==> spec_is_trimmed(#[trigger] value@[k]),
            start < n ==> !spec_is_trimmed(value@[start as int]),
        decreases n - start,
    {
        if !is_trimmed(value.get_char(start)) {
            break;
        }
        start += 1;
    }
    let mut end: usize = n;
    while end > start
        invariant
            start <= end <= n,
            n == value@.len(),
            forall|k: int| end <= k < n ==> spec_is_trimmed(#[trigger] value@[k]),
        ensures
            start <= end <= n,
            forall|k: int| end <= k < n ==> spec_is_trimmed(#[trigger] value@[k]),
            start < end ==> !spec_is_trimmed(value@[end - 1]),
        decreases end,
    {
        if !is_trimmed(value.get_char(end - 1)) {
            break;
        }
        end -= 1;
    }
    proof {
        lemma_trim_is_subrange(value@, start as int, end as int);
    }
    value.substring_char(start, end)
}

/// Takes the double quotes and white space off the two ends of `value`.
pub fn trim_space_qoutes(value: &str) -> (trimmed: &str)
    ensures
        trimmed@ == spec_trim_space_quotes(value@),
{
    if value.is_ascii() {
        trim_ascii(value)
    } else {
        trim_chars(value)
    }
}

/// Whether a byte may stand in the text of a header value: a printable ASCII
/// character, a space or a tab.
pub open spec fn spec_is_visible_ascii(b: u8) -> bool {
    (32 <= b < 127) || b == 9
}

/// The characters that ASCII bytes stand for.
pub open spec fn spec_ascii_chars(bytes: Seq<u8>) -> Seq<char> {
    Seq::new(bytes.len(), |i: int| bytes[i] as char)
}

/// The text of a header value, where all of its bytes may stand in a text.
pub open spec fn spec_visible_text(bytes: Seq<u8>) -> Option<Seq<char>> {
    if forall|i: int| 0 <= i < bytes.len() ==> spec_is_visible_ascii(#[trigger] bytes[i]) {
        Some(spec_ascii_chars(bytes))
    } else {
        None
    }
}

/// Reads bytes as UTF-8 with `std::str::from_utf8`, which accepts exactly the
/// well-formed encodings and hands the same bytes back as text.
#[verifier::external_body]
fn str_from_utf8(bytes: &[u8]) -> (text: Option<&str>)
    ensures
        text is Some <==> valid_utf8(bytes@),
        text matches Some(s) ==> s.spec_bytes() == bytes@,
{
    std::str::from_utf8(bytes).ok()
}

/// ASCII bytes are the UTF-8 encoding of the characters they stand for.
pub proof fn lemma_ascii_bytes_encode(bytes: Seq<u8>)
    requires
        forall|i: int| 0 <= i < bytes.len() ==> #[trigger] bytes[i] < 128,
    ensures
        is_ascii_chars(spec_ascii_chars(bytes)),
        encode_utf8(spec_ascii_chars(bytes)) == bytes,
        valid_utf8(bytes),
        decode_utf8(bytes) == spec_ascii_chars(bytes),
{
    let chars = spec_ascii_chars(bytes);
    assert forall|i: int| 0 <= i < chars.len() implies '\0' <= #[trigger] chars[i] <= '\u{7f}' by {
        assert(bytes[i] < 128);
    }
    is_ascii_chars_encode_utf8(chars);
    assert(encode_utf8(chars) =~= bytes);
    encode_utf8_valid_utf8(chars);
    encode_utf8_decode_utf8(chars);
}

/// The text of a header value: its bytes as characters where each of them is
/// a printable ASCII character, a space or a tab, and nothing otherwise.
pub fn visible_text(bytes: &[u8]) -> (text: Option<&str>)
    ensures
        match text {
            Some(s) => spec_visible_text(bytes@) == Some(s@),
            None => spec_visible_text(bytes@) is None,
        },
{
    let mut i: usize = 0;
    while i < bytes.len()
        invariant
            i <= bytes.len(),
            forall|k: int| 0 <= k < i ==> spec_is_visible_ascii(#[trigger] bytes@[k]),
        decreases bytes.len() - i,
    {
        let b = bytes[i];
        if !((32 <= b && b < 127) || b == 9) {
            return None;
        }
        i += 1;
    }
    proof {
        lemma_ascii_bytes_encode(bytes@);
    }
    match str_from_utf8(bytes) {
        Some(s) => {
            proof {
                encode_utf8_decode_utf8(s@);
            }
            Some(s)
        },
        None => None,
    }
}

} // verus!
