//! Conditional delivery: what a request for a revocation list is answered
//! with, given the entry that was found for it and the request's headers.

use crate::cache::CrlCache;
use crate::clock::{lemma_nanos_of_secs, since_epoch, Span, NANOS_PER_SEC};
use crate::codec::{
    bytes_of, gzip_fast, lemma_hex_lower_is_digits, sha512_digest, spec_crl_hash,
    spec_is_hex_digit,
};
use crate::entry::{spec_buildable, CrlCacheEntry, EntryView, ParsedCrl};
use crate::failure::Failure;
use crate::headers::{
    accepts_gzip, etag_matches, since_matches, spec_accepts_gzip, spec_any_tag_matches,
    spec_etag_matches, spec_is_token, spec_mentions_gzip, spec_modified_since,
    spec_since_matches, spec_tag_matches, HeaderName, RequestHeaders,
};
use crate::text::{lemma_trim_is_subrange, spec_is_trimmed};
use bytes::Bytes;
use vstd::prelude::*;

verus! {

/// The media type of a revocation list.
pub const CRL_MEDIA_TYPE: &'static str = "application/pkix-crl";

/// The whole seconds from `now`, in nanoseconds since the epoch, until
/// `moment`, in seconds since the epoch, where `moment` is not past.
pub open spec fn spec_seconds_until(moment: u64, now: nat) -> Option<nat> {
    let at = moment as nat * NANOS_PER_SEC as nat;
    if at >= now {
        Some(((at - now) / (NANOS_PER_SEC as int)) as nat)
    } else {
        None
    }
}

/// For how many seconds a response may be held fresh: the whole seconds
/// until the list's next update, though no more than 32 bits hold, and one
/// second where that is less or where there is no next update ahead.
pub open spec fn spec_max_age(next_update: Option<u64>, now: nat) -> u32 {
    match next_update {
        Some(moment) => match spec_seconds_until(moment, now) {
            Some(secs) => if secs < 1 {
                1
            } else if secs <= u32::MAX {
                secs as u32
            } else {
                u32::MAX
            },
            None => 1,
        },
        None => 1,
    }
}

/// When a response stops being fresh, in seconds since the epoch: at the
/// list's next update, and at once where the list names none.
pub open spec fn spec_expires(next_update: Option<u64>, now: nat) -> u64 {
    match next_update {
        Some(moment) => moment,
        None => (now / (NANOS_PER_SEC as nat)) as u64,
    }
}

/// Computes the freshness of a list with the time stamps `this_update` and
/// `next_update` at the moment `now`: the seconds it may be held fresh, when
/// it stops being fresh, and when it was last modified, which is when it was
/// issued.
pub fn crl_expiration_at(this_update: u64, next_update: Option<u64>, now: &Span) -> (freshness: (
    u32,
    u64,
    u64,
))
    ensures
        freshness.0 == spec_max_age(next_update, now@),
        freshness.1 == spec_expires(next_update, now@),
        freshness.2 == this_update,
{
    match next_update {
        Some(moment) => {
            proof {
                lemma_nanos_of_secs(moment);
            }
            let at: u128 = (moment as u128) * (NANOS_PER_SEC as u128);
            let now_nanos: u128 = now.as_nanos();
            let max_age: u32 = if at >= now_nanos {
                let secs: u128 = (at - now_nanos) / (NANOS_PER_SEC as u128);
                if secs < 1 {
                    1
                } else if secs <= u32::MAX as u128 {
                    secs as u32
                } else {
                    u32::MAX
                }
            } else {
                1
            };
            (max_age, moment, this_update)
        },
        None => (1, now.secs(), this_update),
    }
}

/// The freshness of a list at this moment: [`crl_expiration_at`] of what the
/// system clock reads.
pub fn crl_expiration(crl: &ParsedCrl) -> (freshness: (u32, u64, u64))
    ensures
        exists|now: nat|
            freshness.0 == #[trigger] spec_max_age(crl.spec_next_update(), now) && freshness.1
                == spec_expires(crl.spec_next_update(), now),
        freshness.0 >= 1,
        crl.spec_next_update() matches Some(moment) ==> freshness.1 == moment,
        freshness.2 == crl.spec_this_update(),
{
    let now = since_epoch();
    let freshness = crl_expiration_at(crl.this_update(), crl.next_update(), &now);
    proof {
        let _ = spec_max_age(crl.spec_next_update(), now@);
    }
    freshness
}

/// One directive of a `Cache-Control` header.
#[derive(Clone, Copy, Debug, PartialEq, Eq, Structural)]
pub enum CacheDirective {
    Public,
    MustRevalidate,
    NoTransform,
    MaxAge(u32),
}

/// How the body of a response is encoded.
#[derive(Clone, Copy, Debug, PartialEq, Eq, Structural)]
pub enum ContentEncoding {
    Identity,
    Gzip,
}

/// The directives under which a revocation list is handed out: any cache may
/// hold it, for `max_age` seconds, unchanged, and must ask again after that.
pub open spec fn spec_cache_control(max_age: u32) -> Seq<CacheDirective> {
    seq![
        CacheDirective::Public,
        CacheDirective::MustRevalidate,
        CacheDirective::NoTransform,
        CacheDirective::MaxAge(max_age),
    ]
}

/// A response that carries a revocation list.
pub struct FullResponse {
    /// The media type of the body.
    pub media_type: &'static str,
    /// The directives of `Cache-Control`.
    pub cache_control: Vec<CacheDirective>,
    /// The moment of `Expires`, in seconds since the epoch.
    pub expires: u64,
    /// The strong entity tag of `ETag`, without its quotes.
    pub etag: String,
    /// The moment of `Last-Modified`, in seconds since the epoch.
    pub last_modified: u64,
    /// The coding of `Content-Encoding`.
    pub encoding: ContentEncoding,
    /// The body.
    pub body: Bytes,
}

/// The answer to a request.
pub enum Response {
    /// The list, with status 200.
    Full(FullResponse),
    /// Status 304 and no body: the client's copy is still good.
    NotModified,
    /// The status of a failure and no body.
    Rejected(Failure),
}

/// An answer as plain values.
pub enum ResponseView {
    Full {
        media_type: Seq<char>,
        cache_control: Seq<CacheDirective>,
        expires: u64,
        etag: Seq<char>,
        last_modified: u64,
        encoding: ContentEncoding,
        body: Seq<u8>,
    },
    NotModified,
    Rejected(Failure),
}

impl View for Response {
    type V = ResponseView;

    /// The answer with its texts and bytes as sequences.
    open spec fn view(&self) -> ResponseView {
        match *self {
            Response::Full(full) => ResponseView::Full {
                media_type: full.media_type@,
                cache_control: full.cache_control@,
                expires: full.expires,
                etag: full.etag@,
                last_modified: full.last_modified,
                encoding: full.encoding,
                body: bytes_of(full.body),
            },
            Response::NotModified => ResponseView::NotModified,
            Response::Rejected(failure) => ResponseView::Rejected(failure),
        }
    }
}

impl ResponseView {
    /// The HTTP status of the answer.
    pub open spec fn status(self) -> u16 {
        match self {
            ResponseView::Full { .. } => 200,
            ResponseView::NotModified => 304,
            ResponseView::Rejected(failure) => failure.spec_status(),
        }
    }

    /// The body of the answer, which only a full response has.
    pub open spec fn body(self) -> Seq<u8> {
        match self {
            ResponseView::Full { body, .. } => body,
            _ => Seq::empty(),
        }
    }
}

impl Response {
    /// The HTTP status of the answer.
    pub fn status(&self) -> (code: u16)
        ensures
            code == self@.status(),
    {
        match self {
            Response::Full(_) => 200,
            Response::NotModified => 304,
            Response::Rejected(failure) => failure.status(),
        }
    }
}

/// Whether the client's copy of an entry is still good: the request names
/// the entry's hash in `If-None-Match`, or it has no such header and its
/// `If-Modified-Since` is not before the list was issued.
pub open spec fn spec_not_modified(entry: EntryView, req: RequestHeaders) -> bool {
    spec_etag_matches(req, entry.hash) || spec_since_matches(req, entry.this_update)
}

/// The answer to a request for an entry at the moment `now`.
pub open spec fn spec_deliver(entry: EntryView, req: RequestHeaders, now: nat) -> ResponseView {
    if spec_not_modified(entry, req) {
        ResponseView::NotModified
    } else {
        ResponseView::Full {
            media_type: CRL_MEDIA_TYPE@,
            cache_control: spec_cache_control(spec_max_age(entry.next_update, now)),
            expires: spec_expires(entry.next_update, now),
            etag: entry.hash,
            last_modified: entry.this_update,
            encoding: if spec_accepts_gzip(req) {
                ContentEncoding::Gzip
            } else {
                ContentEncoding::Identity
            },
            body: if spec_accepts_gzip(req) {
                entry.der_gz
            } else {
                entry.der
            },
        }
    }
}

/// What was found for a name, as plain values.
pub open spec fn spec_resolved(resolved: Result<Option<CrlCacheEntry>, Failure>) -> Result<
    Option<EntryView>,
    Failure,
> {
    match resolved {
        Ok(Some(entry)) => Ok(Some(entry@)),
        Ok(None) => Ok(None),
        Err(failure) => Err(failure),
    }
}

/// The answer to a request at the moment `now`, given what was found for
/// the name it asks for: the entry is delivered, no entry is reported as not
/// found, and a failure is reported as what it is.
pub open spec fn spec_send_crl(
    resolved: Result<Option<EntryView>, Failure>,
    req: RequestHeaders,
    now: nat,
) -> ResponseView {
    match resolved {
        Ok(Some(entry)) => spec_deliver(entry, req, now),
        Ok(None) => ResponseView::Rejected(Failure::NotFound),
        Err(failure) => ResponseView::Rejected(failure),
    }
}

/// Computes [`spec_send_crl`] for a given moment.
pub fn send_crl_at(resolved: Result<Option<CrlCacheEntry>, Failure>, req: &RequestHeaders, now: &Span) -> (response:
    Response)
    ensures
        response@ == spec_send_crl(spec_resolved(resolved), *req, now@),
{
    match resolved {
        Ok(Some(entry)) => {
            let crl = entry.crl();
            let (max_age, expires, last_modified) = crl_expiration_at(
                crl.this_update(),
                crl.next_update(),
                now,
            );
            if etag_matches(req, entry.hash()) || since_matches(req, last_modified) {
                return Response::NotModified;
            }
            let mut cache_control: Vec<CacheDirective> = Vec::new();
            cache_control.push(CacheDirective::Public);
            cache_control.push(CacheDirective::MustRevalidate);
            cache_control.push(CacheDirective::NoTransform);
            cache_control.push(CacheDirective::MaxAge(max_age));
            assert(cache_control@ =~= spec_cache_control(max_age));
            let gzip = accepts_gzip(req);
            let encoding = if gzip {
                ContentEncoding::Gzip
            } else {
                ContentEncoding::Identity
            };
            let body = if gzip {
                entry.der_gz().clone()
            } else {
                entry.der().clone()
            };
            Response::Full(
                FullResponse {
                    media_type: CRL_MEDIA_TYPE,
                    cache_control,
                    expires,
                    etag: entry.hash().to_owned(),
                    last_modified,
                    encoding,
                    body,
                },
            )
        },
        Ok(None) => Response::Rejected(Failure::NotFound),
        Err(failure) => Response::Rejected(failure),
    }
}

/// The answer to a request at this moment: [`spec_send_crl`] of what the
/// system clock reads.
pub fn send_crl(resolved: Result<Option<CrlCacheEntry>, Failure>, req: &RequestHeaders) -> (response:
    Response)
    ensures
        exists|now: nat| response@ == #[trigger] spec_send_crl(spec_resolved(resolved), *req, now),
{
    let now = since_epoch();
    let response = send_crl_at(resolved, req, &now);
    proof {
        let _ = spec_send_crl(spec_resolved(resolved), *req, now@);
    }
    response
}

/// Whether a tag can stand between quotes in a list of entity tags and be
/// found again: it holds no comma and nothing that is trimmed.
pub open spec fn spec_is_plain_tag(tag: Seq<char>) -> bool {
    forall|i: int| 0 <= i < tag.len() ==> #[trigger] tag[i] != ',' && !spec_is_trimmed(tag[i])
}

/// The content hash of an entry is a plain tag.
pub proof fn lemma_hash_is_plain_tag(entry: EntryView)
    requires
        entry.wf(),
    ensures
        spec_is_plain_tag(entry.hash),
{
    lemma_hex_lower_is_digits(sha512_digest(entry.der));
    assert forall|i: int| 0 <= i < entry.hash.len() implies #[trigger] entry.hash[i] != ','
        && !spec_is_trimmed(entry.hash[i]) by {
        assert(spec_is_hex_digit(entry.hash[i]));
    }
}

/// A list of entity tags that is one plain tag between quotes matches that
/// tag.
pub proof fn lemma_quoted_tag_matches(tag: Seq<char>)
    requires
        spec_is_plain_tag(tag),
    ensures
        spec_any_tag_matches(seq!['"'] + tag + seq!['"'], tag),
{
    let quoted = seq!['"'] + tag + seq!['"'];
    let n = quoted.len() as int;
    assert(quoted[0] == '"' && quoted[n - 1] == '"');
    assert forall|k: int| 1 <= k < n - 1 implies #[trigger] quoted[k] == tag[k - 1] by {}
    assert(spec_is_token(quoted, 0, n)) by {
        assert forall|k: int| 0 <= k < n implies quoted[k] != ',' by {
            if 1 <= k < n - 1 {
                assert(quoted[k] == tag[k - 1]);
            }
        }
    }
    assert(quoted.subrange(0, n) =~= quoted);
    assert forall|k: int| 0 <= k < 1 implies spec_is_trimmed(#[trigger] quoted[k]) by {}
    assert forall|k: int| n - 1 <= k < n implies spec_is_trimmed(#[trigger] quoted[k]) by {}
    if tag.len() > 0 {
        assert(quoted[1] == tag[0]);
        assert(quoted[n - 2] == tag[n - 3]);
    }
    lemma_trim_is_subrange(quoted, 1, n - 1);
    assert(quoted.subrange(1, n - 1) =~= tag);
    assert(spec_tag_matches(quoted.subrange(0, n), tag));
}

/// A request whose `If-None-Match` is the quoted content hash of the entry is
/// answered with status 304 and no body.
pub proof fn lemma_matching_tag_is_not_modified(entry: EntryView, req: RequestHeaders, now: nat)
    requires
        entry.wf(),
        req.spec_text(HeaderName::IfNoneMatch) == Some(seq!['"'] + entry.hash + seq!['"']),
    ensures
        spec_deliver(entry, req, now) == ResponseView::NotModified,
        spec_deliver(entry, req, now).status() == 304,
        spec_deliver(entry, req, now).body() == Seq::<u8>::empty(),
{
    lemma_hash_is_plain_tag(entry);
    lemma_quoted_tag_matches(entry.hash);
}

/// A request whose `If-None-Match` is the wildcard is answered with status
/// 304, whatever the entry.
pub proof fn lemma_wildcard_is_not_modified(entry: EntryView, req: RequestHeaders, now: nat)
    requires
        req.spec_text(HeaderName::IfNoneMatch) == Some(seq!['*']),
    ensures
        spec_deliver(entry, req, now) == ResponseView::NotModified,
{
    let tags = seq!['*'];
    assert(spec_is_token(tags, 0, 1));
    assert(tags.subrange(0, 1) =~= tags);
    lemma_trim_is_subrange(tags, 0, 1);
    assert(spec_tag_matches(tags.subrange(0, 1), entry.hash));
}

/// A request without `If-None-Match` whose `If-Modified-Since` is a date not
/// before the list was issued is answered with status 304 and no body.
pub proof fn lemma_unmodified_since_is_not_modified(
    entry: EntryView,
    req: RequestHeaders,
    now: nat,
    since: u64,
)
    requires
        req.if_none_match is None,
        spec_modified_since(req) == Some(since),
        entry.this_update <= since,
    ensures
        spec_deliver(entry, req, now) == ResponseView::NotModified,
        spec_deliver(entry, req, now).status() == 304,
        spec_deliver(entry, req, now).body() == Seq::<u8>::empty(),
{
}

/// A request with neither of the two headers is answered with status 200 and
/// every header of freshness: the media type, the four directives with a
/// positive `max-age`, the expiry, the content hash as entity tag, and the
/// list's date of issue as date of last modification.
pub proof fn lemma_unconditional_is_full(entry: EntryView, req: RequestHeaders, now: nat)
    requires
        req.if_none_match is None,
        req.if_modified_since is None,
    ensures
        spec_deliver(entry, req, now).status() == 200,
        spec_deliver(entry, req, now) matches ResponseView::Full {
            media_type,
            cache_control,
            expires,
            etag,
            last_modified,
            ..
        } && media_type == CRL_MEDIA_TYPE@ && cache_control == spec_cache_control(
            spec_max_age(entry.next_update, now),
        ) && spec_max_age(entry.next_update, now) >= 1 && expires == spec_expires(
            entry.next_update,
            now,
        ) && etag == entry.hash && last_modified == entry.this_update,
{
}

/// A full response to a request whose `Accept-Encoding` names gzip carries
/// the compressed bytes and says so; one to a request without the header
/// carries the canonical bytes under no coding.
pub proof fn lemma_negotiation(entry: EntryView, req: RequestHeaders, now: nat)
    requires
        !spec_not_modified(entry, req),
    ensures
        (req.spec_text(HeaderName::AcceptEncoding) matches Some(codings) && spec_mentions_gzip(
            codings,
        )) ==> (spec_deliver(entry, req, now) matches ResponseView::Full { encoding, body, .. }
            && encoding == ContentEncoding::Gzip && body == entry.der_gz),
        req.accept_encoding is None ==> (spec_deliver(entry, req, now) matches ResponseView::Full {
            encoding,
            body,
            ..
        } && encoding == ContentEncoding::Identity && body == entry.der),
{
}

/// `Accept-Encoding: gzip` names gzip.
pub proof fn lemma_gzip_mentions_gzip()
    ensures
        spec_mentions_gzip(seq!['g', 'z', 'i', 'p']),
{
    let word = seq!['g', 'z', 'i', 'p'];
    assert(word.subrange(0int, 0int + 4) =~= word);
}

/// The two bodies under which an entry is delivered stand for the same
/// bytes, and the entity tag names them: the compressed body is the gzip
/// stream of the plain one, and the tag is the plain body's hash.
pub proof fn lemma_bodies_agree(
    entry: EntryView,
    plain: RequestHeaders,
    packed: RequestHeaders,
    now: nat,
)
    requires
        entry.wf(),
        !spec_not_modified(entry, plain),
        !spec_not_modified(entry, packed),
        !spec_accepts_gzip(plain),
        spec_accepts_gzip(packed),
    ensures
        gzip_fast(spec_deliver(entry, plain, now).body()) == Some(
            spec_deliver(entry, packed, now).body(),
        ),
        spec_deliver(entry, plain, now) matches ResponseView::Full { etag, body, .. } && etag
            == spec_crl_hash(body),
{
}

/// What to do first for a request.
pub enum Lookup {
    /// The cache holds the entry: it can be delivered.
    Hit(CrlCacheEntry),
    /// The cache holds no entry under the name: the store is to be asked.
    Miss,
}

/// What to do first, given what the cache held under the name of a request:
/// an entry is a hit, none is a miss.
pub fn lookup_found(cached: Option<CrlCacheEntry>) -> (found: Lookup)
    ensures
        match cached {
            Some(entry) => found == Lookup::Hit(entry),
            None => found == Lookup::Miss,
        },
{
    match cached {
        Some(entry) => Lookup::Hit(entry),
        None => Lookup::Miss,
    }
}

/// Looks the name of a request up in the cache: [`lookup_found`] of what the
/// cache holds under the name at this moment.
pub fn lookup_crl(cache: &CrlCache, name: &str) -> (found: Lookup)
    ensures
        found matches Lookup::Hit(entry) ==> entry@.wf(),
{
    lookup_found(cache.get(name))
}

/// Takes in what the store gave for a name after a miss: a list is built
/// into an entry, which is handed to the cache and handed on; no record and
/// a failure are handed on as they are, and a list of which no entry can be
/// built is a failure of its own.
pub fn admit_fetched(cache: &CrlCache, name: &str, fetched: Result<Option<ParsedCrl>, Failure>) -> (resolved:
    Result<Option<CrlCacheEntry>, Failure>)
    ensures
        match fetched {
            Ok(Some(crl)) => {
                &&& resolved is Ok <==> spec_buildable(crl.spec_list())
                &&& match resolved {
                    Ok(Some(entry)) => entry.spec_crl() == crl && entry@.list == crl.spec_list()
                        && entry@.wf() && entry@.this_update == crl.spec_this_update()
                        && entry@.next_update == crl.spec_next_update(),
                    Ok(None) => false,
                    Err(failure) => failure == Failure::BuildFailure,
                }
            },
            Ok(None) => resolved matches Ok(None),
            Err(failure) => resolved matches Err(f) && f == failure,
        },
{
    match fetched {
        Ok(Some(crl)) => match CrlCacheEntry::from_crl(crl) {
            Ok(entry) => {
                cache.insert(name, entry.clone());
                Ok(Some(entry))
            },
            Err(failure) => Err(failure),
        },
        Ok(None) => Ok(None),
        Err(failure) => Err(failure),
    }
}

} // verus!
