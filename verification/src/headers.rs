//! The request headers that decide how a revocation list is delivered:
//! `If-None-Match`, `If-Modified-Since` and `Accept-Encoding`.

use crate::text::{
    spec_trim_space_quotes, spec_visible_text, str_eq, trim_space_qoutes, visible_text,
};
use std::time::UNIX_EPOCH;
use vstd::prelude::*;
use vstd::string::is_ascii_spec_bytes;
use vstd::utf8::is_ascii_chars;

verus! {

/// The headers that the delivery of a revocation list depends on.
#[derive(Clone, Copy, Debug, PartialEq, Eq, Structural)]
pub enum HeaderName {
    IfNoneMatch,
    IfModifiedSince,
    AcceptEncoding,
}

/// What a request carries in those headers: for each the bytes of its first
/// value, or nothing where the request has no such header.
#[derive(Clone, Debug)]
pub struct RequestHeaders {
    pub if_none_match: Option<Vec<u8>>,
    pub if_modified_since: Option<Vec<u8>>,
    pub accept_encoding: Option<Vec<u8>>,
}

/// The bytes of an optional value.
pub open spec fn spec_value(value: Option<Vec<u8>>) -> Option<Seq<u8>> {
    match value {
        Some(bytes) => Some(bytes@),
        None => None,
    }
}

impl RequestHeaders {
    /// The bytes of the header `name`, where the request has it.
    pub open spec fn spec_raw(&self, name: HeaderName) -> Option<Seq<u8>> {
        match name {
            HeaderName::IfNoneMatch => spec_value(self.if_none_match),
            HeaderName::IfModifiedSince => spec_value(self.if_modified_since),
            HeaderName::AcceptEncoding => spec_value(self.accept_encoding),
        }
    }

    /// The text of the header `name`: there is one where the request has the
    /// header and its value is made of printable ASCII, spaces and tabs.
    pub open spec fn spec_text(&self, name: HeaderName) -> Option<Seq<char>> {
        match self.spec_raw(name) {
            Some(bytes) => spec_visible_text(bytes),
            None => None,
        }
    }

    /// A request without any of the headers.
    pub fn new() -> (req: Self)
        ensures
            req.if_none_match is None,
            req.if_modified_since is None,
            req.accept_encoding is None,
    {
        RequestHeaders { if_none_match: None, if_modified_since: None, accept_encoding: None }
    }
}

/// The text of one header of the request.
pub fn parse_header<'a>(req: &'a RequestHeaders, name: HeaderName) -> (text: Option<&'a str>)
    ensures
        match text {
            Some(s) => req.spec_text(name) == Some(s@),
            None => req.spec_text(name) is None,
        },
{
    let value = match name {
        HeaderName::IfNoneMatch => &req.if_none_match,
        HeaderName::IfModifiedSince => &req.if_modified_since,
        HeaderName::AcceptEncoding => &req.accept_encoding,
    };
    match value {
        Some(bytes) => visible_text(bytes.as_slice()),
        None => None,
    }
}

/// Whether `from..to` is a token of a comma-separated list: a stretch without
/// a comma that reaches from the start or a comma to the end or a comma.
pub open spec fn spec_is_token(list: Seq<char>, from: int, to: int) -> bool {
    &&& 0 <= from <= to <= list.len()
    &&& (from == 0 || list[from - 1] == ',')
    &&& (to == list.len() || list[to] == ',')
    &&& forall|k: int| from <= k < to ==> list[k] != ','
}

/// Whether an entity tag of a request stands for the list with the content
/// hash `hash`: trimmed, it is the wildcard or the hash itself.
pub open spec fn spec_tag_matches(tag: Seq<char>, hash: Seq<char>) -> bool {
    let trimmed = spec_trim_space_quotes(tag);
    trimmed == seq!['*'] || trimmed == hash
}

/// Whether one of the tokens of a comma-separated list of entity tags
/// matches.
pub open spec fn spec_any_tag_matches(tags: Seq<char>, hash: Seq<char>) -> bool {
    exists|from: int, to: int| #[trigger]
        spec_is_token(tags, from, to) && spec_tag_matches(tags.subrange(from, to), hash)
}

/// Whether the request's `If-None-Match` names the list with the content hash
/// `hash`.
pub open spec fn spec_etag_matches(req: RequestHeaders, hash: Seq<char>) -> bool {
    match req.spec_text(HeaderName::IfNoneMatch) {
        Some(tags) => spec_any_tag_matches(tags, hash),
        None => false,
    }
}

/// Sequences of visible ASCII are ASCII text.
pub proof fn lemma_visible_text_is_ascii(bytes: Seq<u8>)
    requires
        spec_visible_text(bytes) is Some,
    ensures
        is_ascii_chars(spec_visible_text(bytes)->0),
{
    let chars = spec_visible_text(bytes)->0;
    assert forall|i: int| 0 <= i < chars.len() implies '\0' <= #[trigger] chars[i] <= '\u{7f}' by {
        assert(bytes[i] < 128);
    }
}

/// Decides [`spec_any_tag_matches`] for a list in ASCII.
fn any_tag_matches(tags: &str, hash: &str) -> (found: bool)
    requires
        is_ascii_chars(tags@),
    ensures
        found == spec_any_tag_matches(tags@, hash@),
{
    proof {
        reveal_strlit("*");
        is_ascii_spec_bytes(tags);
    }
    let bytes = tags.as_bytes();
    let n = bytes.len();
    let mut found = false;
    let mut from: usize = 0;
    let mut i: usize = 0;
    loop
        invariant
            0 <= from <= i <= n,
            n == tags@.len(),
            n == bytes@.len(),
            forall|k: int| 0 <= k < n ==> bytes@[k] == tags@[k] as u8,
            is_ascii_chars(tags@),
            "*"@ == seq!['*'],
            from == 0 || tags@[from - 1] == ',',
            forall|k: int| from <= k < i ==> tags@[k] != ',',
            forall|x: int, y: int| #[trigger]
                spec_is_token(tags@, x, y) && y < from ==> !spec_tag_matches(
                    tags@.subrange(x, y),
                    hash@,
                ),
        ensures
            found == spec_any_tag_matches(tags@, hash@),
        decreases n - i,
    {
        let at_end = i == n;
        if at_end || bytes[i] == 44 {
            assert(at_end || tags@[i as int] == ',');
            assert(spec_is_token(tags@, from as int, i as int));
            let token = tags.substring_ascii(from, i);
            let tag = trim_space_qoutes(token);
            if str_eq(tag, "*") || str_eq(tag, hash) {
                found = true;
                break;
            }
            assert forall|x: int, y: int| #[trigger]
                spec_is_token(tags@, x, y) && y < i + 1 implies !spec_tag_matches(
                tags@.subrange(x, y),
                hash@,
            ) by {
                if y >= from {
                    assert(y == i);
                    assert(x == from);
                }
            }
            if at_end {
                found = false;
                assert forall|x: int, y: int| #[trigger]
                    spec_is_token(tags@, x, y) implies !spec_tag_matches(
                    tags@.subrange(x, y),
                    hash@,
                ) by {}
                break;
            }
            from = i + 1;
        } else {
            assert(tags@[i as int] != ',');
        }
        i += 1;
    }
    found
}

/// Whether the request's `If-None-Match` names the list with the content hash
/// `hash`: one of its comma-separated tokens, without the quotes and white
/// space around it, is the hash or the wildcard.
pub fn etag_matches(req: &RequestHeaders, hash: &str) -> (found: bool)
    ensures
        found == spec_etag_matches(*req, hash@),
{
    match parse_header(req, HeaderName::IfNoneMatch) {
        Some(tags) => {
            proof {
                lemma_visible_text_is_ascii(req.spec_raw(HeaderName::IfNoneMatch)->0);
            }
            any_tag_matches(tags, hash)
        },
        None => false,
    }
}

/// The moment that `text` names as an HTTP date, in seconds since the Unix
/// epoch, where `httpdate` reads it as one of the three formats it knows.
pub uninterp spec fn http_date(text: Seq<char>) -> Option<u64>;

/// Reads an HTTP date with `httpdate::parse_http_date`. The dates it accepts
/// lie at or after the epoch and are given in whole seconds.
#[verifier::external_body]
fn parse_http_date(text: &str) -> (moment: Option<u64>)
    ensures
        moment == http_date(text@),
{
    match httpdate::parse_http_date(text) {
        Ok(time) => match time.duration_since(UNIX_EPOCH) {
            Ok(since) => Some(since.as_secs()),
            Err(_) => None,
        },
        Err(_) => None,
    }
}

/// Whether a list last modified at `last_modified` is unchanged for a request
/// that asks with the date `since` and names no entity tag.
pub open spec fn spec_unmodified_since(
    has_entity_tags: bool,
    since: Option<u64>,
    last_modified: u64,
) -> bool {
    !has_entity_tags && (since matches Some(moment) && last_modified <= moment)
}

/// Decides [`spec_unmodified_since`].
pub fn unmodified_since(has_entity_tags: bool, since: Option<u64>, last_modified: u64) -> (unmodified:
    bool)
    ensures
        unmodified == spec_unmodified_since(has_entity_tags, since, last_modified),
{
    if has_entity_tags {
        false
    } else {
        match since {
            Some(moment) => last_modified <= moment,
            None => false,
        }
    }
}

/// The date of the request's `If-Modified-Since`, where it has one that
/// reads as an HTTP date.
pub open spec fn spec_modified_since(req: RequestHeaders) -> Option<u64> {
    match req.spec_text(HeaderName::IfModifiedSince) {
        Some(text) => http_date(text),
        None => None,
    }
}

/// Whether the request's `If-Modified-Since` shows the list unchanged: the
/// request has no `If-None-Match` at all, and the date it gives is not
/// before `last_modified`.
pub open spec fn spec_since_matches(req: RequestHeaders, last_modified: u64) -> bool {
    spec_unmodified_since(req.if_none_match is Some, spec_modified_since(req), last_modified)
}

/// Decides [`spec_since_matches`].
pub fn since_matches(req: &RequestHeaders, last_modified: u64) -> (unmodified: bool)
    ensures
        unmodified == spec_since_matches(*req, last_modified),
{
    let since = match parse_header(req, HeaderName::IfModifiedSince) {
        Some(text) => parse_http_date(text),
        None => None,
    };
    unmodified_since(req.if_none_match.is_some(), since, last_modified)
}

/// Whether `text` names the gzip coding somewhere.
pub open spec fn spec_mentions_gzip(text: Seq<char>) -> bool {
    exists|i: int|
        0 <= i && i + 4 <= text.len() && #[trigger] text.subrange(i, i + 4) == seq![
            'g',
            'z',
            'i',
            'p',
        ]
}

/// Whether the request's `Accept-Encoding` allows a gzip body.
pub open spec fn spec_accepts_gzip(req: RequestHeaders) -> bool {
    match req.spec_text(HeaderName::AcceptEncoding) {
        Some(codings) => spec_mentions_gzip(codings),
        None => false,
    }
}

/// Decides [`spec_mentions_gzip`] for a text in ASCII.
fn mentions_gzip(text: &str) -> (found: bool)
    requires
        is_ascii_chars(text@),
    ensures
        found == spec_mentions_gzip(text@),
{
    proof {
        is_ascii_spec_bytes(text);
    }
    let bytes = text.as_bytes();
    let n = bytes.len();
    if n < 4 {
        return false;
    }
    let mut i: usize = 0;
    while i <= n - 4
        invariant
            4 <= n,
            i <= n - 3,
            n == text@.len(),
            n == bytes@.len(),
            forall|k: int| 0 <= k < n ==> bytes@[k] == text@[k] as u8,
            is_ascii_chars(text@),
            forall|k: int|
                0 <= k < i ==> #[trigger] text@.subrange(k, k + 4) != seq!['g', 'z', 'i', 'p'],
        decreases n - i,
    {
        let ghost here = text@.subrange(i as int, i + 4);
        assert(here[0] == text@[i as int] && here[1] == text@[i + 1] && here[2] == text@[i + 2]
            && here[3] == text@[i + 3]);
        if bytes[i] == 103 && bytes[i + 1] == 122 && bytes[i + 2] == 105 && bytes[i + 3] == 112 {
            assert(here =~= seq!['g', 'z', 'i', 'p']);
            return true;
        }
        assert(here != seq!['g', 'z', 'i', 'p']) by {
            let word = seq!['g', 'z', 'i', 'p'];
            assert(word[0] == 'g' && word[1] == 'z' && word[2] == 'i' && word[3] == 'p');
        }
        i += 1;
    }
    false
}

/// Whether the request's `Accept-Encoding` allows a gzip body: its text
/// holds the word `gzip`.
pub fn accepts_gzip(req: &RequestHeaders) -> (accepted: bool)
    ensures
        accepted == spec_accepts_gzip(*req),
{
    match parse_header(req, HeaderName::AcceptEncoding) {
        Some(codings) => {
            proof {
                lemma_visible_text_is_ascii(req.spec_raw(HeaderName::AcceptEncoding)->0);
            }
            mentions_gzip(codings)
        },
        None => false,
    }
}

} // verus!
