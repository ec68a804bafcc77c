use xocsp::headers::{
    accepts_gzip, etag_matches, parse_header, since_matches, unmodified_since, HeaderName,
    RequestHeaders,
};

fn with_if_none_match(value: &[u8]) -> RequestHeaders {
    RequestHeaders { if_none_match: Some(value.to_vec()), ..RequestHeaders::new() }
}

fn with_if_modified_since(value: &[u8]) -> RequestHeaders {
    RequestHeaders { if_modified_since: Some(value.to_vec()), ..RequestHeaders::new() }
}

fn with_accept_encoding(value: &[u8]) -> RequestHeaders {
    RequestHeaders { accept_encoding: Some(value.to_vec()), ..RequestHeaders::new() }
}

#[test]
fn new_request_has_no_headers() {
    let req = RequestHeaders::new();
    assert_eq!(req.if_none_match, None);
    assert_eq!(req.if_modified_since, None);
    assert_eq!(req.accept_encoding, None);
    assert_eq!(parse_header(&req, HeaderName::IfNoneMatch), None);
    assert_eq!(parse_header(&req, HeaderName::IfModifiedSince), None);
    assert_eq!(parse_header(&req, HeaderName::AcceptEncoding), None);
}

#[test]
fn header_text_is_read_by_name() {
    let req = RequestHeaders {
        if_none_match: Some(b"\"abc\"".to_vec()),
        if_modified_since: Some(b"Sun, 06 Nov 1994 08:49:37 GMT".to_vec()),
        accept_encoding: Some(b"gzip".to_vec()),
    };
    assert_eq!(parse_header(&req, HeaderName::IfNoneMatch), Some("\"abc\""));
    assert_eq!(
        parse_header(&req, HeaderName::IfModifiedSince),
        Some("Sun, 06 Nov 1994 08:49:37 GMT")
    );
    assert_eq!(parse_header(&req, HeaderName::AcceptEncoding), Some("gzip"));
}

#[test]
fn header_with_other_bytes_has_no_text() {
    let req = with_if_none_match(b"\"abc\"\x01");
    assert_eq!(parse_header(&req, HeaderName::IfNoneMatch), None);
    let req = with_accept_encoding("gzip\u{e9}".as_bytes());
    assert_eq!(parse_header(&req, HeaderName::AcceptEncoding), None);
}

#[test]
fn quoted_hash_matches() {
    assert!(etag_matches(&with_if_none_match(b"\"abc123\""), "abc123"));
    assert!(etag_matches(&with_if_none_match(b"abc123"), "abc123"));
    assert!(etag_matches(&with_if_none_match(b"  \"abc123\"  "), "abc123"));
}

#[test]
fn other_hash_does_not_match() {
    assert!(!etag_matches(&with_if_none_match(b"\"abc124\""), "abc123"));
    assert!(!etag_matches(&with_if_none_match(b"\"abc12\""), "abc123"));
    assert!(!etag_matches(&with_if_none_match(b"\"abc1234\""), "abc123"));
    assert!(!etag_matches(&with_if_none_match(b""), "abc123"));
    assert!(!etag_matches(&with_if_none_match(b"W/\"abc123\""), "abc123"));
}

#[test]
fn one_of_several_tags_matches() {
    assert!(etag_matches(&with_if_none_match(b"\"x\", \"abc123\", \"y\""), "abc123"));
    assert!(etag_matches(&with_if_none_match(b"\"abc123\",\"y\""), "abc123"));
    assert!(etag_matches(&with_if_none_match(b"\"x\",\"abc123\""), "abc123"));
    assert!(!etag_matches(&with_if_none_match(b"\"x\", \"y\", \"z\""), "abc123"));
    assert!(!etag_matches(&with_if_none_match(b"\"abc\",\"123\""), "abc123"));
}

#[test]
fn wildcard_matches_any_hash() {
    assert!(etag_matches(&with_if_none_match(b"*"), "abc123"));
    assert!(etag_matches(&with_if_none_match(b" * "), "abc123"));
    assert!(etag_matches(&with_if_none_match(b"\"x\", *"), "abc123"));
    assert!(etag_matches(&with_if_none_match(b"\"*\""), ""));
    assert!(!etag_matches(&with_if_none_match(b"**"), "abc123"));
}

#[test]
fn empty_token_matches_only_the_empty_hash() {
    assert!(etag_matches(&with_if_none_match(b""), ""));
    assert!(etag_matches(&with_if_none_match(b"\"x\","), ""));
    assert!(etag_matches(&with_if_none_match(b"\"\""), ""));
    assert!(!etag_matches(&with_if_none_match(b"\"x\""), ""));
    assert!(!etag_matches(&with_if_none_match(b",,"), "abc123"));
}

#[test]
fn absent_or_unreadable_tags_do_not_match() {
    assert!(!etag_matches(&RequestHeaders::new(), "abc123"));
    assert!(!etag_matches(&with_if_none_match(b"\"abc123\"\x00"), "abc123"));
    assert!(!etag_matches(&with_if_modified_since(b"\"abc123\""), "abc123"));
}

#[test]
fn date_not_before_last_modification_matches() {
    // 784111777 is Sun, 06 Nov 1994 08:49:37 GMT.
    let req = with_if_modified_since(b"Sun, 06 Nov 1994 08:49:37 GMT");
    assert!(since_matches(&req, 784111777));
    assert!(since_matches(&req, 784111776));
    assert!(since_matches(&req, 0));
    assert!(!since_matches(&req, 784111778));
}

#[test]
fn date_is_read_in_all_three_formats() {
    assert!(since_matches(&with_if_modified_since(b"Sunday, 06-Nov-94 08:49:37 GMT"), 784111777));
    assert!(!since_matches(&with_if_modified_since(b"Sunday, 06-Nov-94 08:49:37 GMT"), 784111778));
    assert!(since_matches(&with_if_modified_since(b"Sun Nov  6 08:49:37 1994"), 784111777));
    assert!(!since_matches(&with_if_modified_since(b"Sun Nov  6 08:49:37 1994"), 784111778));
}

#[test]
fn what_is_no_date_does_not_match() {
    assert!(!since_matches(&with_if_modified_since(b"yesterday"), 0));
    assert!(!since_matches(&with_if_modified_since(b""), 0));
    assert!(!since_matches(&with_if_modified_since(b"784111777"), 0));
    assert!(!since_matches(&with_if_modified_since(b"Sun, 06 Nov 1994 08:49:37 GMT\x80"), 0));
    assert!(!since_matches(&RequestHeaders::new(), 0));
}

#[test]
fn date_is_not_asked_where_tags_are_given() {
    let req = RequestHeaders {
        if_none_match: Some(b"\"other\"".to_vec()),
        if_modified_since: Some(b"Sun, 06 Nov 1994 08:49:37 GMT".to_vec()),
        accept_encoding: None,
    };
    assert!(!since_matches(&req, 784111777));
    let req = RequestHeaders { if_none_match: Some(vec![0xff]), ..req };
    assert!(!since_matches(&req, 784111777));
    let req = RequestHeaders { if_none_match: None, ..req };
    assert!(since_matches(&req, 784111777));
}

#[test]
fn unmodified_since_compares_moments() {
    assert!(unmodified_since(false, Some(10), 10));
    assert!(unmodified_since(false, Some(10), 9));
    assert!(!unmodified_since(false, Some(10), 11));
    assert!(!unmodified_since(false, None, 0));
    assert!(!unmodified_since(true, Some(10), 9));
}

#[test]
fn gzip_is_accepted_where_named() {
    assert!(accepts_gzip(&with_accept_encoding(b"gzip")));
    assert!(accepts_gzip(&with_accept_encoding(b"br, gzip, deflate")));
    assert!(accepts_gzip(&with_accept_encoding(b"deflate;q=0.5,gzip;q=1.0")));
    assert!(accepts_gzip(&with_accept_encoding(b"x-gzip")));
}

#[test]
fn gzip_is_not_accepted_otherwise() {
    assert!(!accepts_gzip(&RequestHeaders::new()));
    assert!(!accepts_gzip(&with_accept_encoding(b"")));
    assert!(!accepts_gzip(&with_accept_encoding(b"br, deflate")));
    assert!(!accepts_gzip(&with_accept_encoding(b"gzi")));
    assert!(!accepts_gzip(&with_accept_encoding(b"GZIP")));
    assert!(!accepts_gzip(&with_accept_encoding(b"g zip")));
    assert!(!accepts_gzip(&with_accept_encoding(b"gzip\x00")));
    assert!(!accepts_gzip(&with_if_none_match(b"gzip")));
}
